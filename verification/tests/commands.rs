use catbox::args::{
    Album, AlbumAdd, AlbumCommand, AlbumCreate, AlbumDelete, AlbumEdit, AlbumRemove, CatboxArgs,
    CatboxCommand, Delete, Litter, Upload,
};
use catbox::batch;
use catbox::batch::{
    delete_file, group, invalid_uri, litter, parse_album, upload, upload_to_litter, AlbumCall,
    GatewayError, Groups, DEFAULT_HOURS,
};
use catbox::classify::{classify, classify_path, classify_with, ClassifiedItem, ItemKind};
use catbox::dispatch::{Dispatcher, Step};
use catbox::file::from_file;
use catbox::hosted::HostedPattern;
use catbox::request::Request;
use std::io::Write;
use tempfile::{Builder, NamedTempFile};

static FILE_URL: &str =
    "https://file-examples.com/wp-content/storage/2017/10/file_example_JPG_100kB.jpg";

fn owned(parts: &[&str]) -> Vec<String> {
    parts.iter().map(|p| p.to_string()).collect()
}

fn text_file() -> NamedTempFile {
    let mut file = Builder::new().suffix(".txt").tempfile().unwrap();
    file.write_all(b"content").unwrap();
    file
}

fn path_of(file: &NamedTempFile) -> String {
    file.path().to_str().unwrap().to_string()
}

fn pattern() -> HostedPattern {
    HostedPattern::hosted_files().unwrap()
}

/// A stand-in for the service: it answers an upload of a file that exists with an
/// address, and fails on one that does not.
fn stub_from_file(file_path: &str) -> Result<String, GatewayError> {
    if !std::path::Path::new(file_path).exists() {
        return Err(GatewayError::LocalIo);
    }
    Ok(format!("https://catbox.moe/file.{}", file_path.split('.').next_back().unwrap()))
}

fn stub_from_url(url: &str) -> Result<String, GatewayError> {
    if url::Url::parse(url).is_err() {
        return Err(GatewayError::Transport);
    }
    Ok(format!("https://catbox.moe/file.{}", url.split('.').next_back().unwrap()))
}

fn stub_litter(file_path: &str, time: u8) -> Result<String, GatewayError> {
    if ![1, 12, 24, 72].contains(&time) {
        return Ok("Invalid time".to_string());
    }
    if !std::path::Path::new(file_path).exists() {
        return Err(GatewayError::LocalIo);
    }
    Ok(format!("https://catbox.moe/file.{}", file_path.split(',').next_back().unwrap()))
}

fn stub_delete(request: &Request) -> String {
    let files = &request.fields[2].value;
    if files.split(' ').all(|file| !file.is_empty()) {
        "Files succesfully deleted.".to_string()
    } else {
        "File doesn't exist?".to_string()
    }
}

fn stub_album(call: &AlbumCall) -> String {
    match call {
        AlbumCall::Create { .. } => "https://catbox.moe/c/123435".to_string(),
        AlbumCall::Delete { .. } => String::new(),
        AlbumCall::Edit { short, .. }
        | AlbumCall::AddFiles { short, .. }
        | AlbumCall::RemoveFiles { short, .. } => {
            if short.is_empty() {
                "No album found for specified user.".to_string()
            } else {
                format!("https://catbox.moe/c/{short}")
            }
        }
    }
}

/// Runs one group under the usual cap; the operation launched last ends first.
fn run_group(items: &Vec<String>, line_of: &dyn Fn(&str) -> String) -> Vec<String> {
    let mut d = Dispatcher::with_default_limit(items.len());
    let mut running: Vec<usize> = Vec::new();
    loop {
        match d.poll() {
            Step::Launch(item) => running.push(item),
            Step::Wait => {
                let item = running.pop().unwrap();
                assert!(d.complete(item, line_of(&items[item])));
            }
            Step::Finished => break,
        }
        assert!(running.len() <= 10);
    }
    d.lines().clone()
}

fn run_upload(args: &Upload) -> Vec<String> {
    let plan = upload(args);
    let mut lines = run_group(&plan.groups.invalid, &|uri| invalid_uri(uri));
    lines.extend(run_group(&plan.groups.urls, &|url| batch::upload_url(url, stub_from_url(url))));
    lines.extend(run_group(&plan.groups.files, &|file| {
        assert_eq!(from_file(file, &plan.user_hash).file.unwrap().path, file);
        batch::upload_file(file, stub_from_file(file))
    }));
    lines
}

fn run_litter(args: &Litter) -> Vec<String> {
    let plan = litter(args);
    let mut lines = run_group(&plan.groups.invalid, &|uri| invalid_uri(uri));
    lines.extend(run_group(&plan.groups.files, &|file| {
        upload_to_litter(file, stub_litter(file, plan.time))
    }));
    lines
}

#[test]
fn upload_file() {
    let file = text_file();
    let args = CatboxArgs {
        command: CatboxCommand::Upload(Upload {
            user_hash: "123456".to_string(),
            files: vec![path_of(&file)],
        }),
        user_hash: "123456".to_string(),
    };

    if let CatboxCommand::Upload(upload_args) = args.command {
        assert_eq!(run_upload(&upload_args), owned(&["https://catbox.moe/file.txt"]));
    } else {
        panic!("Invalid subcommand");
    }
}

#[test]
fn upload_url() {
    let args = Upload { user_hash: "123456".to_string(), files: owned(&[FILE_URL]) };
    let plan = upload(&args);
    assert_eq!(plan.user_hash, "123456");
    assert_eq!(plan.groups.urls, owned(&[FILE_URL]));
    assert!(plan.groups.files.is_empty());
    assert!(plan.groups.invalid.is_empty());
    assert_eq!(run_upload(&args), owned(&["https://catbox.moe/file.jpg"]));
}

#[test]
fn nonexistant() {
    let args = Upload {
        user_hash: "123456".to_string(),
        files: owned(&["This is not a file or url"]),
    };
    assert_eq!(
        run_upload(&args),
        owned(&["Ignoring This is not a file or url: invalid path or URL"])
    );
}

#[test]
fn upload_multi() {
    let file = text_file();
    let args = Upload {
        user_hash: "123456".to_string(),
        files: vec![
            path_of(&file),
            FILE_URL.to_string(),
            "Something".to_string(),
            "Something else".to_string(),
        ],
    };
    let plan = upload(&args);
    assert_eq!(
        plan.groups,
        Groups {
            invalid: owned(&["Something", "Something else"]),
            urls: owned(&[FILE_URL]),
            files: vec![path_of(&file)],
        }
    );
    let mut lines = run_upload(&args);
    lines.sort();
    assert_eq!(
        lines,
        owned(&[
            "Ignoring Something else: invalid path or URL",
            "Ignoring Something: invalid path or URL",
            "https://catbox.moe/file.jpg",
            "https://catbox.moe/file.txt",
        ])
    );
}

#[test]
fn delete_files() {
    let args = Delete { user_hash: "123456".to_string(), files: owned(&["file.png", "another.jpg"]) };
    let request = delete_file(&pattern(), &args);
    assert_eq!(request.fields[1].value, "123456");
    assert_eq!(request.fields[2].value, "file.png another.jpg");
    assert_eq!(stub_delete(&request), "Files succesfully deleted.");
}

#[test]
fn album_create() {
    let album_args = Album {
        album_command: AlbumCommand::Create(AlbumCreate {
            title: "My album".to_string(),
            description: Some("A description".to_string()),
            user_hash: "123456".to_string(),
            files: owned(&["file.png", "another.jpg"]),
        }),
    };
    let call = parse_album(&pattern(), &album_args);
    assert_eq!(
        call,
        AlbumCall::Create {
            title: "My album".to_string(),
            description: "A description".to_string(),
            user_hash: "123456".to_string(),
            files: owned(&["file.png", "another.jpg"]),
        }
    );
    assert_eq!(stub_album(&call), "https://catbox.moe/c/123435");
}

#[test]
fn album_add() {
    let album_args = Album {
        album_command: AlbumCommand::Add(AlbumAdd {
            short: "123asd".to_string(),
            user_hash: "123456".to_string(),
            files: owned(&["file.png"]),
        }),
    };
    let call = parse_album(&pattern(), &album_args);
    assert_eq!(
        call,
        AlbumCall::AddFiles {
            short: "123asd".to_string(),
            user_hash: "123456".to_string(),
            files: owned(&["file.png"]),
        }
    );
    assert_eq!(stub_album(&call), "https://catbox.moe/c/123asd");
}

#[test]
fn album_remove() {
    let album_args = Album {
        album_command: AlbumCommand::Remove(AlbumRemove {
            short: "123asd".to_string(),
            user_hash: "123456".to_string(),
            files: owned(&["file.png"]),
        }),
    };
    let call = parse_album(&pattern(), &album_args);
    assert_eq!(
        call,
        AlbumCall::RemoveFiles {
            short: "123asd".to_string(),
            user_hash: "123456".to_string(),
            files: owned(&["file.png"]),
        }
    );
    assert_eq!(stub_album(&call), "https://catbox.moe/c/123asd");
}

#[test]
fn album_delete() {
    let album_args = Album {
        album_command: AlbumCommand::Delete(AlbumDelete {
            user_hash: "123345".to_string(),
            short: "asd123".to_string(),
        }),
    };
    let call = parse_album(&pattern(), &album_args);
    assert_eq!(
        call,
        AlbumCall::Delete { short: "asd123".to_string(), user_hash: "123345".to_string() }
    );
    assert_eq!(stub_album(&call), "");
}

#[test]
fn album_edit() {
    let album_args = Album {
        album_command: AlbumCommand::Edit(AlbumEdit {
            short: "asd123".to_string(),
            title: "My Album".to_string(),
            description: Some("A description".to_string()),
            user_hash: "123345".to_string(),
            files: owned(&["file.png", "another.jpg"]),
        }),
    };
    let call = parse_album(&pattern(), &album_args);
    assert_eq!(
        call,
        AlbumCall::Edit {
            short: "asd123".to_string(),
            title: "My Album".to_string(),
            description: "A description".to_string(),
            user_hash: "123345".to_string(),
            files: owned(&["file.png", "another.jpg"]),
        }
    );
    assert_eq!(stub_album(&call), "https://catbox.moe/c/asd123");
}

#[test]
fn upload_litter() {
    let file = text_file();
    let args = Litter { time: Some(1), files: vec![path_of(&file)] };
    let plan = litter(&args);
    assert_eq!(plan.time, 1);
    assert_eq!(plan.groups.files, vec![path_of(&file)]);
    let lines = run_litter(&args);
    assert_eq!(lines, vec![format!("https://catbox.moe/file.{}", path_of(&file))]);
}

#[test]
fn album_calls_reduce_addresses() {
    let album_args = Album {
        album_command: AlbumCommand::Edit(AlbumEdit {
            short: "https://files.catbox.moe/c/asd123".to_string(),
            title: "T".to_string(),
            description: None,
            user_hash: String::new(),
            files: owned(&["https://files.catbox.moe/file.png", "another.jpg"]),
        }),
    };
    assert_eq!(
        parse_album(&pattern(), &album_args),
        AlbumCall::Edit {
            short: "asd123".to_string(),
            title: "T".to_string(),
            description: String::new(),
            user_hash: String::new(),
            files: owned(&["file.png", "another.jpg"]),
        }
    );
}

#[test]
fn album_create_without_description_sends_an_empty_one() {
    let album_args = Album {
        album_command: AlbumCommand::Create(AlbumCreate {
            title: "T".to_string(),
            description: None,
            user_hash: "u".to_string(),
            files: owned(&[]),
        }),
    };
    assert_eq!(
        parse_album(&pattern(), &album_args),
        AlbumCall::Create {
            title: "T".to_string(),
            description: String::new(),
            user_hash: "u".to_string(),
            files: owned(&[]),
        }
    );
}

#[test]
fn classify_tells_the_three_kinds_apart() {
    let file = text_file();
    assert_eq!(classify(&path_of(&file)), ClassifiedItem::LocalFile(path_of(&file)));
    assert_eq!(
        classify("https://example.com/a.jpg"),
        ClassifiedItem::RemoteURL("https://example.com/a.jpg".to_string())
    );
    assert_eq!(
        classify("not-a-thing-at-all"),
        ClassifiedItem::Invalid("not-a-thing-at-all".to_string())
    );
}

#[test]
fn classify_takes_any_text() {
    assert_eq!(classify(""), ClassifiedItem::Invalid(String::new()));
    assert_eq!(classify("https://"), ClassifiedItem::Invalid("https://".to_string()));
    assert_eq!(classify("example.com/a.jpg"), ClassifiedItem::Invalid("example.com/a.jpg".to_string()));
    assert_eq!(classify("mailto:a@b.c"), ClassifiedItem::RemoteURL("mailto:a@b.c".to_string()));
}

#[test]
fn classify_again_gives_the_same() {
    let file = text_file();
    for item in [path_of(&file), FILE_URL.to_string(), "Something".to_string(), String::new()] {
        let first = classify(&item);
        let second = classify(&item);
        assert_eq!(first, second);
        assert_eq!(first.text(), item);
        assert_eq!(classify(first.text()), first);
    }
}

#[test]
fn an_existing_path_is_a_file_even_if_it_is_a_url() {
    assert_eq!(
        classify_with("http://x", true, true),
        ClassifiedItem::LocalFile("http://x".to_string())
    );
    assert_eq!(
        classify_with("http://x", false, true),
        ClassifiedItem::RemoteURL("http://x".to_string())
    );
    assert_eq!(
        classify_with("http://x", false, false),
        ClassifiedItem::Invalid("http://x".to_string())
    );
    assert_eq!(classify_with("x", true, false).kind(), ItemKind::LocalFile);
}

#[test]
fn classify_path_takes_no_urls() {
    let file = text_file();
    assert_eq!(classify_path(&path_of(&file)), ClassifiedItem::LocalFile(path_of(&file)));
    assert_eq!(classify_path(FILE_URL), ClassifiedItem::Invalid(FILE_URL.to_string()));
    assert_eq!(classify_path("nothing here"), ClassifiedItem::Invalid("nothing here".to_string()));
}

#[test]
fn group_keeps_the_order_within_each_group() {
    let items = vec![
        ClassifiedItem::Invalid("i1".to_string()),
        ClassifiedItem::LocalFile("f1".to_string()),
        ClassifiedItem::RemoteURL("u1".to_string()),
        ClassifiedItem::LocalFile("f2".to_string()),
        ClassifiedItem::Invalid("i2".to_string()),
        ClassifiedItem::RemoteURL("u2".to_string()),
    ];
    assert_eq!(
        group(&items),
        Groups {
            invalid: owned(&["i1", "i2"]),
            urls: owned(&["u1", "u2"]),
            files: owned(&["f1", "f2"]),
        }
    );
    assert_eq!(group(&Vec::new()), Groups { invalid: vec![], urls: vec![], files: vec![] });
}

#[test]
fn result_lines() {
    assert_eq!(invalid_uri("not-a-thing-at-all"), "Ignoring not-a-thing-at-all: invalid path or URL");
    assert_eq!(invalid_uri(""), "Ignoring : invalid path or URL");
    assert_eq!(batch::upload_file("a.txt", Ok("https://files.catbox.moe/x.txt".to_string())), "https://files.catbox.moe/x.txt");
    assert_eq!(batch::upload_file("a.txt", Err(GatewayError::LocalIo)), "Uploading a.txt failed.");
    assert_eq!(batch::upload_url("https://e.com/a", Err(GatewayError::Transport)), "Uploading https://e.com/a failed.");
    assert_eq!(batch::upload_url("https://e.com/a", Ok("No request type given.".to_string())), "No request type given.");
    assert_eq!(upload_to_litter("b.txt", Err(GatewayError::Transport)), "Uploading b.txt failed.");
    assert_eq!(upload_to_litter("b.txt", Ok(String::new())), "");
}

#[test]
fn upload_of_a_file_a_url_and_something_else_gives_three_lines() {
    let file = Builder::new().prefix("localfile").suffix(".txt").tempfile().unwrap();
    let local = path_of(&file);
    let args = Upload {
        user_hash: String::new(),
        files: vec![local.clone(), "https://example.com/a.jpg".to_string(), "not-a-thing-at-all".to_string()],
    };
    let plan = upload(&args);
    assert_eq!(plan.groups.files, vec![local]);
    assert_eq!(plan.groups.urls, owned(&["https://example.com/a.jpg"]));
    assert_eq!(plan.groups.invalid, owned(&["not-a-thing-at-all"]));
    let lines = run_upload(&args);
    assert_eq!(lines.len(), 3);
    assert_eq!(
        lines.iter().filter(|l| *l == "Ignoring not-a-thing-at-all: invalid path or URL").count(),
        1
    );
    assert_eq!(lines.iter().filter(|l| *l == "https://catbox.moe/file.jpg").count(), 1);
    assert_eq!(lines.iter().filter(|l| *l == "https://catbox.moe/file.txt").count(), 1);
}

#[test]
fn litter_without_a_time_asks_for_one_hour() {
    let file = text_file();
    let args = Litter { time: None, files: vec![path_of(&file)] };
    let plan = litter(&args);
    assert_eq!(DEFAULT_HOURS, 1);
    assert_eq!(plan.time, 1);
    assert_eq!(plan.groups.files, vec![path_of(&file)]);
    let request = catbox::litter::upload(&plan.groups.files[0], plan.time);
    assert_eq!(request.fields[1].name, "time");
    assert_eq!(request.fields[1].value, "1h");
}

#[test]
fn litter_keeps_the_time_that_is_given() {
    for hours in [1u8, 12, 24, 72] {
        let plan = litter(&Litter { time: Some(hours), files: vec![] });
        assert_eq!(plan.time, hours);
    }
}

#[test]
fn litter_takes_a_url_for_invalid() {
    let file = text_file();
    let args = Litter { time: None, files: vec![FILE_URL.to_string(), path_of(&file), "x y".to_string()] };
    let plan = litter(&args);
    assert_eq!(plan.groups.invalid, owned(&[FILE_URL, "x y"]));
    assert!(plan.groups.urls.is_empty());
    assert_eq!(plan.groups.files, vec![path_of(&file)]);
}

#[test]
fn one_failed_upload_of_three_leaves_the_others_alone() {
    let first = text_file();
    let second = text_file();
    let gone = {
        let file = text_file();
        path_of(&file)
    };
    let files = vec![path_of(&first), gone.clone(), path_of(&second)];
    let mut d = Dispatcher::with_default_limit(files.len());
    let mut running: Vec<usize> = Vec::new();
    loop {
        match d.poll() {
            Step::Launch(item) => running.push(item),
            Step::Wait => {
                let item = running.remove(0);
                assert!(d.complete(item, batch::upload_file(&files[item], stub_from_file(&files[item]))));
            }
            Step::Finished => break,
        }
    }
    let lines = d.lines();
    assert_eq!(lines.len(), 3);
    let failed: Vec<&String> = lines.iter().filter(|l| l.contains("failed")).collect();
    assert_eq!(failed, vec![&format!("Uploading {gone} failed.")]);
    assert_eq!(lines.iter().filter(|l| *l == "https://catbox.moe/file.txt").count(), 2);
}

#[test]
fn a_batch_with_failures_still_gives_a_line_for_each_item() {
    let items: Vec<String> = (0..23).map(|n| format!("missing-{n}.bin")).collect();
    let mut lines = run_group(&items, &|file| batch::upload_file(file, stub_from_file(file)));
    assert_eq!(lines.len(), 23);
    lines.sort();
    let mut expected: Vec<String> = items.iter().map(|i| format!("Uploading {i} failed.")).collect();
    expected.sort();
    assert_eq!(lines, expected);
}
