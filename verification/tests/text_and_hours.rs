use catbox::args::{parse_u8, valid_hour, HourError};
use catbox::text::{decimal_text, join, last_segment};

fn owned(parts: &[&str]) -> Vec<String> {
    parts.iter().map(|p| p.to_string()).collect()
}

#[test]
fn last_segment_of_a_path() {
    assert_eq!(last_segment("dir/sub/photo.png"), "photo.png");
    assert_eq!(last_segment("https://files.catbox.moe/abc.png"), "abc.png");
}

#[test]
fn last_segment_without_a_slash_is_the_whole_text() {
    assert_eq!(last_segment("plain123"), "plain123");
    assert_eq!(last_segment(""), "");
}

#[test]
fn last_segment_after_a_final_slash_is_empty() {
    assert_eq!(last_segment("dir/"), "");
    assert_eq!(last_segment("/"), "");
}

#[test]
fn last_segment_counts_characters_not_bytes() {
    assert_eq!(last_segment("bücher/übung.txt"), "übung.txt");
    assert_eq!(last_segment("日本/語"), "語");
}

#[test]
fn join_puts_one_separator_between_neighbours() {
    assert_eq!(join(&owned(&["abc.png", "plain123"]), " "), "abc.png plain123");
    assert_eq!(join(&owned(&["a", "b", "c"]), ", "), "a, b, c");
}

#[test]
fn join_of_none_and_of_one() {
    assert_eq!(join(&owned(&[]), " "), "");
    assert_eq!(join(&owned(&["only"]), " "), "only");
}

#[test]
fn join_keeps_empty_parts() {
    assert_eq!(join(&owned(&["", "x", ""]), "-"), "-x-");
}

#[test]
fn decimal_text_writes_every_u8_as_std_does() {
    for n in 0..=255u8 {
        assert_eq!(decimal_text(n), n.to_string());
    }
}

#[test]
fn decimal_text_of_chosen_values() {
    assert_eq!(decimal_text(0), "0");
    assert_eq!(decimal_text(9), "9");
    assert_eq!(decimal_text(10), "10");
    assert_eq!(decimal_text(72), "72");
    assert_eq!(decimal_text(100), "100");
    assert_eq!(decimal_text(255), "255");
}

#[test]
fn parse_u8_reads_plain_numbers() {
    assert_eq!(parse_u8("0"), Some(0));
    assert_eq!(parse_u8("72"), Some(72));
    assert_eq!(parse_u8("255"), Some(255));
}

#[test]
fn parse_u8_takes_a_plus_and_leading_zeros() {
    assert_eq!(parse_u8("+12"), Some(12));
    assert_eq!(parse_u8("012"), Some(12));
    assert_eq!(parse_u8("0000000000000000000000024"), Some(24));
}

#[test]
fn parse_u8_refuses_what_is_no_number() {
    assert_eq!(parse_u8(""), None);
    assert_eq!(parse_u8("+"), None);
    assert_eq!(parse_u8("-1"), None);
    assert_eq!(parse_u8("++1"), None);
    assert_eq!(parse_u8(" 1"), None);
    assert_eq!(parse_u8("1 "), None);
    assert_eq!(parse_u8("1_2"), None);
    assert_eq!(parse_u8("12h"), None);
    assert_eq!(parse_u8("١٢"), None);
}

#[test]
fn parse_u8_refuses_numbers_above_255() {
    assert_eq!(parse_u8("256"), None);
    assert_eq!(parse_u8("1000"), None);
    assert_eq!(parse_u8("99999999999999999999999999"), None);
}

#[test]
fn parse_u8_agrees_with_std() {
    let mut samples: Vec<String> = Vec::new();
    for n in 0..=300u32 {
        samples.push(n.to_string());
        samples.push(format!("+{n}"));
        samples.push(format!("0{n}"));
        samples.push(format!("-{n}"));
        samples.push(format!("{n}x"));
    }
    for s in samples {
        assert_eq!(parse_u8(&s), s.parse::<u8>().ok(), "on {s:?}");
    }
}

#[test]
fn valid_hour_takes_the_four_lifetimes() {
    assert_eq!(valid_hour("1"), Ok(1));
    assert_eq!(valid_hour("12"), Ok(12));
    assert_eq!(valid_hour("24"), Ok(24));
    assert_eq!(valid_hour("72"), Ok(72));
}

#[test]
fn valid_hour_refuses_other_numbers() {
    assert_eq!(valid_hour("5"), Err(HourError::NotAllowed(5)));
    assert_eq!(valid_hour("0"), Err(HourError::NotAllowed(0)));
    assert_eq!(valid_hour("73"), Err(HourError::NotAllowed(73)));
    assert_eq!(valid_hour("255"), Err(HourError::NotAllowed(255)));
}

#[test]
fn valid_hour_refuses_what_is_no_number() {
    assert_eq!(valid_hour("abc"), Err(HourError::NotANumber("abc".to_string())));
    assert_eq!(valid_hour(""), Err(HourError::NotANumber(String::new())));
    assert_eq!(valid_hour("256"), Err(HourError::NotANumber("256".to_string())));
    assert_eq!(valid_hour("1h"), Err(HourError::NotANumber("1h".to_string())));
}

#[test]
fn valid_hour_reads_the_number_not_the_spelling() {
    assert_eq!(valid_hour("+12"), Ok(12));
    assert_eq!(valid_hour("024"), Ok(24));
    assert_eq!(valid_hour("05"), Err(HourError::NotAllowed(5)));
}

#[test]
fn hour_error_messages() {
    assert_eq!(
        HourError::NotAllowed(5).message(),
        "5 is not a valid value (Options: 1, 12, 24, 72"
    );
    assert_eq!(
        HourError::NotAllowed(100).message(),
        "100 is not a valid value (Options: 1, 12, 24, 72"
    );
    assert_eq!(HourError::NotANumber("abc".to_string()).message(), "abc is not a valid number");
    assert_eq!(HourError::NotANumber(String::new()).message(), " is not a valid number");
}
