//! The commands and their arguments as plain values, and the rule for the
//! lifetime of a temporary upload.

use crate::text::{decimal, decimal_text};
use vstd::prelude::*;
use vstd::string::StrSliceExecFns;
use vstd::string::StringExecFns;

verus! {

/// The commands.
#[derive(Debug, Clone, PartialEq, Eq)]
pub enum CatboxCommand {
    Upload(Upload),
    Delete(Delete),
    Album(Album),
    Litter(Litter),
}

/// The commands on albums.
#[derive(Debug, Clone, PartialEq, Eq)]
pub enum AlbumCommand {
    Create(AlbumCreate),
    Add(AlbumAdd),
    Edit(AlbumEdit),
    Remove(AlbumRemove),
    Delete(AlbumDelete),
}

/// One invocation: a command, and the account it runs for. An empty `user_hash`
/// is the anonymous account.
#[derive(Debug, Clone, PartialEq, Eq)]
pub struct CatboxArgs {
    pub command: CatboxCommand,
    pub user_hash: String,
}

/// Upload files, given as paths or URLs.
#[derive(Debug, Clone, PartialEq, Eq)]
pub struct Upload {
    pub user_hash: String,
    pub files: Vec<String>,
}

/// Delete files, given by name or by address.
#[derive(Debug, Clone, PartialEq, Eq)]
pub struct Delete {
    pub user_hash: String,
    pub files: Vec<String>,
}

/// A command on albums.
#[derive(Debug, Clone, PartialEq, Eq)]
pub struct Album {
    pub album_command: AlbumCommand,
}

/// Upload temporary files, given as paths, for `time` hours.
#[derive(Debug, Clone, PartialEq, Eq)]
pub struct Litter {
    pub time: Option<u8>,
    pub files: Vec<String>,
}

/// Create an album.
#[derive(Debug, Clone, PartialEq, Eq)]
pub struct AlbumCreate {
    pub title: String,
    pub description: Option<String>,
    pub user_hash: String,
    pub files: Vec<String>,
}

/// Replace the title, the description and the files of an album.
#[derive(Debug, Clone, PartialEq, Eq)]
pub struct AlbumEdit {
    pub short: String,
    pub title: String,
    pub description: Option<String>,
    pub user_hash: String,
    pub files: Vec<String>,
}

/// Add files to an album.
#[derive(Debug, Clone, PartialEq, Eq)]
pub struct AlbumAdd {
    pub short: String,
    pub user_hash: String,
    pub files: Vec<String>,
}

/// Remove files from an album.
#[derive(Debug, Clone, PartialEq, Eq)]
pub struct AlbumRemove {
    pub short: String,
    pub user_hash: String,
    pub files: Vec<String>,
}

/// Delete an album.
#[derive(Debug, Clone, PartialEq, Eq)]
pub struct AlbumDelete {
    pub user_hash: String,
    pub short: String,
}

/// Why a text is no lifetime for a temporary upload.
#[derive(Debug, Clone, PartialEq, Eq)]
pub enum HourError {
    /// The text is no number from 0 to 255.
    NotANumber(String),
    /// The text is such a number, but none of the lifetimes on offer.
    NotAllowed(u8),
}

/// The lifetimes, in hours, that a temporary upload may be given.
pub open spec fn is_allowed_hour(hour: u8) -> bool {
    hour == 1 || hour == 12 || hour == 24 || hour == 72
}

/// Whether `c` is a decimal digit.
pub open spec fn is_digit(c: char) -> bool {
    '0' <= c && c <= '9'
}

/// The number that the decimal digits `d` write; leading zeros count for nothing.
pub open spec fn digits_value(d: Seq<char>) -> nat
    decreases d.len(),
{
    if d.len() == 0 {
        0
    } else {
        (digits_value(d.drop_last()) * 10 + (d.last() as u32 - '0' as u32)) as nat
    }
}

/// `s` without the one `'+'` that may stand in front of a number.
pub open spec fn unsigned_part(s: Seq<char>) -> Seq<char> {
    if s.len() > 0 && s[0] == '+' {
        s.subrange(1, s.len() as int)
    } else {
        s
    }
}

/// The number from 0 to 255 that `s` writes: decimal digits, at least one, with
/// nothing around them but for one `'+'` in front.
pub open spec fn parsed_u8(s: Seq<char>) -> Option<u8> {
    let d = unsigned_part(s);
    if d.len() > 0 && (forall|i: int| 0 <= i < d.len() ==> is_digit(#[trigger] d[i])) && digits_value(d)
        <= 255 {
        Some(digits_value(d) as u8)
    } else {
        None
    }
}

/// Digits written after a number do not make it smaller.
pub proof fn lemma_digits_value_grows(d: Seq<char>, k: int)
    requires
        0 <= k <= d.len(),
        forall|i: int| 0 <= i < d.len() ==> is_digit(#[trigger] d[i]),
    ensures
        digits_value(d.subrange(0, k)) <= digits_value(d),
    decreases d.len(),
{
    if k == d.len() {
        assert(d.subrange(0, k) =~= d);
    } else {
        let shorter = d.drop_last();
        assert forall|i: int| 0 <= i < shorter.len() implies is_digit(#[trigger] shorter[i]) by {
            assert(shorter[i] == d[i]);
        }
        lemma_digits_value_grows(shorter, k);
        assert(shorter.subrange(0, k) =~= d.subrange(0, k));
        assert(is_digit(d[d.len() - 1]));
    }
}

/// Reads `text` as a number from 0 to 255.
pub fn parse_u8(text: &str) -> (r: Option<u8>)
    ensures
        r == parsed_u8(text@),
{
    let n: usize = text.unicode_len();
    let mut start: usize = 0;
    if n > 0 && text.get_char(0) == '+' {
        start = 1;
    }
    let ghost d = unsigned_part(text@);
    assert(d =~= text@.subrange(start as int, n as int));
    if start == n {
        return None;
    }
    let mut acc: u32 = 0;
    let mut i: usize = start;
    while i < n
        invariant
            n == text@.len(),
            start <= i <= n,
            d == unsigned_part(text@),
            d == text@.subrange(start as int, n as int),
            forall|k: int| 0 <= k < i - start ==> is_digit(#[trigger] d[k]),
            acc == digits_value(d.subrange(0, i - start)),
            acc <= 255,
        decreases n - i,
    {
        let c = text.get_char(i);
        assert(d[i - start] == c);
        if !(c >= '0' && c <= '9') {
            assert(!is_digit(d[i - start]));
            return None;
        }
        let digit: u32 = c as u32 - '0' as u32;
        proof {
            let next = d.subrange(0, i - start + 1);
            assert(next.drop_last() =~= d.subrange(0, i - start));
            assert(next.last() == c);
        }
        acc = acc * 10 + digit;
        if acc > 255 {
            proof {
                if forall|k: int| 0 <= k < d.len() ==> is_digit(#[trigger] d[k]) {
                    lemma_digits_value_grows(d, i - start + 1);
                }
            }
            return None;
        }
        i = i + 1;
    }
    assert(d.subrange(0, n - start) =~= d);
    Some(acc as u8)
}

/// What is said of a text that is no number.
pub open spec fn not_a_number_text(given: Seq<char>) -> Seq<char> {
    given + " is not a valid number"@
}

/// What is said of a number that is no lifetime on offer.
pub open spec fn not_allowed_text(hour: u8) -> Seq<char> {
    decimal(hour as nat) + " is not a valid value (Options: 1, 12, 24, 72"@
}

impl HourError {
    /// The sentence that says what is wrong.
    pub open spec fn message_text(&self) -> Seq<char> {
        match self {
            HourError::NotANumber(given) => not_a_number_text(given@),
            HourError::NotAllowed(hour) => not_allowed_text(*hour),
        }
    }

    /// Returns the sentence that says what is wrong.
    pub fn message(&self) -> (r: String)
        ensures
            r@ == self.message_text(),
    {
        match self {
            HourError::NotANumber(given) => {
                let mut out = given.clone();
                out.append(" is not a valid number");
                out
            },
            HourError::NotAllowed(hour) => {
                let mut out = decimal_text(*hour);
                out.append(" is not a valid value (Options: 1, 12, 24, 72");
                out
            },
        }
    }
}

/// Reads the lifetime of a temporary upload: `hour` must write a number from 0 to
/// 255, and the number must be 1, 12, 24 or 72.
pub fn valid_hour(hour: &str) -> (r: Result<u8, HourError>)
    ensures
        match parsed_u8(hour@) {
            Some(h) => if is_allowed_hour(h) {
                r == Ok::<u8, HourError>(h)
            } else {
                r == Err::<u8, HourError>(HourError::NotAllowed(h))
            },
            None => r matches Err(HourError::NotANumber(given)) && given@ == hour@,
        },
{
    match parse_u8(hour) {
        Some(h) => {
            if h == 1 || h == 12 || h == 24 || h == 72 {
                Ok(h)
            } else {
                Err(HourError::NotAllowed(h))
            }
        },
        None => Err(HourError::NotANumber(hour.to_owned())),
    }
}

} // verus!
