//! Identifiers of hosted files and albums. The service names a file by the last
//! segment of its address; where a user hands over the whole address, that
//! segment is taken out before anything is sent.

use crate::text::{last_segment, trailing_segment, views};
use regex::Regex;
use vstd::prelude::*;

verus! {

/// The regular expression that the addresses of hosted files match.
pub const HOSTED_FILE_URL: &'static str = "^(https?://)?files.catbox.moe/.+";

/// Declares `regex::Regex`, a compiled regular expression, as a type whose
/// inside is not looked at: a value of it is only kept and handed on.
#[verifier::external_type_specification]
#[verifier::external_body]
pub struct ExRegex(Regex);

/// Whether `regex::Regex::new` accepts `pattern`: it is a regular expression in
/// that crate's syntax, and its compiled form is within the size limit that
/// `Regex::new` sets.
pub uninterp spec fn regex_compiles(pattern: Seq<char>) -> bool;

/// Whether the regular expression written as `pattern`, compiled with the
/// defaults of `regex::Regex::new`, has a match anywhere in `haystack`.
pub uninterp spec fn regex_is_match(pattern: Seq<char>, haystack: Seq<char>) -> bool;

/// A compiled pattern for the addresses that the service hands out.
pub struct HostedPattern {
    source: String,
    compiled: Regex,
}

/// Calls `regex::Regex::new` on `pattern`. The contract claims that whether the
/// call succeeds depends on the text of the pattern alone, and that an expression
/// that compiled is kept together with the text it was compiled from. It does not
/// say which patterns compile.
#[verifier::external_body]
fn compile(pattern: &str) -> (r: Option<HostedPattern>)
    ensures
        r is Some <==> regex_compiles(pattern@),
        r matches Some(p) ==> p.source@ == pattern@,
{
    match Regex::new(pattern) {
        Ok(compiled) => Some(HostedPattern { source: pattern.to_string(), compiled }),
        Err(_) => None,
    }
}

/// Calls `regex::Regex::is_match` on the compiled expression of `pattern`. The
/// contract claims that the answer is the one the expression gives for this text:
/// a match anywhere in `haystack`, for the expression compiled from the pattern's
/// source.
#[verifier::external_body]
fn search(pattern: &HostedPattern, haystack: &str) -> (r: bool)
    ensures
        r == regex_is_match(pattern.source@, haystack@),
{
    pattern.compiled.is_match(haystack)
}

/// The identifier that is sent for `given`: its last segment where it is a
/// hosted address, and `given` itself where it is not.
pub open spec fn identifier(given: Seq<char>, hosted: bool) -> Seq<char> {
    if hosted {
        trailing_segment(given)
    } else {
        given
    }
}

/// The identifiers that are sent for `given` under the pattern written as
/// `pattern`, one for each, in order.
pub open spec fn identifiers(pattern: Seq<char>, given: Seq<Seq<char>>) -> Seq<Seq<char>> {
    Seq::new(given.len(), |i: int| identifier(given[i], regex_is_match(pattern, given[i])))
}

/// Returns the identifier that is sent for `given`, which is a hosted address or
/// not as `hosted` says.
pub fn to_identifier(given: &str, hosted: bool) -> (r: String)
    ensures
        r@ == identifier(given@, hosted),
{
    if hosted {
        last_segment(given)
    } else {
        given.to_owned()
    }
}

impl HostedPattern {
    /// The text that the pattern was compiled from.
    pub closed spec fn source(&self) -> Seq<char> {
        self.source@
    }

    /// Compiles `pattern`. Returns `None` where it is no regular expression that
    /// can be compiled, and the compiled pattern in every other case.
    pub fn new(pattern: &str) -> (r: Option<HostedPattern>)
        ensures
            r is Some <==> regex_compiles(pattern@),
            r matches Some(p) ==> p.source() == pattern@,
    {
        compile(pattern)
    }

    /// Compiles the pattern of the addresses of hosted files. The result is the
    /// one that `new` gives for `HOSTED_FILE_URL`.
    pub fn hosted_files() -> (r: Option<HostedPattern>)
        ensures
            r is Some <==> regex_compiles(HOSTED_FILE_URL@),
            r matches Some(p) ==> p.source() == HOSTED_FILE_URL@,
    {
        compile(HOSTED_FILE_URL)
    }

    /// The text that the pattern was compiled from.
    pub fn pattern(&self) -> (r: &str)
        ensures
            r@ == self.source(),
    {
        self.source.as_str()
    }

    /// Whether `text` is a hosted address.
    pub fn matches(&self, text: &str) -> (r: bool)
        ensures
            r == regex_is_match(self.source(), text@),
    {
        search(self, text)
    }

    /// Reduces `given` to the identifier that is sent for it.
    pub fn reduce(&self, given: &str) -> (r: String)
        ensures
            r@ == identifier(given@, regex_is_match(self.source(), given@)),
    {
        let hosted = search(self, given);
        to_identifier(given, hosted)
    }

    /// Reduces each of `given` to the identifier that is sent for it, in order.
    pub fn reduce_all(&self, given: &Vec<String>) -> (r: Vec<String>)
        ensures
            views(r@) == identifiers(self.source(), views(given@)),
    {
        let mut out: Vec<String> = Vec::new();
        let mut i: usize = 0;
        while i < given.len()
            invariant
                0 <= i <= given.len(),
                out@.len() == i,
                forall|k: int|
                    0 <= k < i ==> out@[k]@ == identifier(
                        given@[k]@,
                        regex_is_match(self.source(), given@[k]@),
                    ),
            decreases given.len() - i,
        {
            out.push(self.reduce(given[i].as_str()));
            i = i + 1;
        }
        assert(views(out@) =~= identifiers(self.source(), views(given@)));
        out
    }
}

/// The name of a hosted file, for a name or an address of it.
pub fn catbox_url_to_image_name(pattern: &HostedPattern, url: &str) -> (r: String)
    ensures
        r@ == identifier(url@, regex_is_match(pattern.source(), url@)),
{
    pattern.reduce(url)
}

/// The short name of an album, for a short name or an address of it.
pub fn album_url_to_short(pattern: &HostedPattern, url: &str) -> (r: String)
    ensures
        r@ == identifier(url@, regex_is_match(pattern.source(), url@)),
{
    pattern.reduce(url)
}

} // verus!
