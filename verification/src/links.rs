//! Recognising whether a user's text denotes a playable resource. The
//! scheduler itself never interprets user input; this predicate is the
//! resolver-side gate in front of it.

use vstd::prelude::*;

verus! {

/// What regex matching returns: whether `pattern` compiles as a regular
/// expression and matches somewhere inside `input`. A function of the two
/// strings alone.
pub uninterp spec fn regex_match_of(pattern: Seq<char>, input: Seq<char>) -> bool;

/// Relies on regex::Regex::new and regex::Regex::is_match: compiling a
/// pattern and testing it against a haystack is deterministic in the two
/// strings; an invalid pattern is reported through `new`'s `Err`, which is
/// taken as no match.
#[verifier::external_body]
fn regex_is_match(pattern: &str, input: &str) -> (r: bool)
    ensures
        r == regex_match_of(pattern@, input@),
{
    match regex::Regex::new(pattern) {
        Ok(re) => re.is_match(input),
        Err(_) => false,
    }
}

/// Whether the input denotes a playable resource: a youtube watch link or a
/// soundcloud track link.
pub open spec fn supported_link(s: Seq<char>) -> bool {
    regex_match_of(
        r"(?:https?://)?(?:www\.)?(?:youtube\.com/watch\?v=|youtu\.be/)([a-zA-Z0-9_-]{11})"@,
        s,
    ) || regex_match_of(r"(?:https?:\/\/)?(?:www\.)?soundcloud\.com\/([\w-]+)\/([\w-]+)"@, s)
}

/// The link recogniser.
pub struct Regexp {}

impl Regexp {
    /// Whether the input denotes a playable resource the bot can enqueue.
    pub fn is_supported_link(input: &str) -> (r: bool)
        ensures
            r == supported_link(input@),
    {
        let youtube = regex_is_match(
            r"(?:https?://)?(?:www\.)?(?:youtube\.com/watch\?v=|youtu\.be/)([a-zA-Z0-9_-]{11})",
            input,
        );
        let soundcloud = regex_is_match(
            r"(?:https?:\/\/)?(?:www\.)?soundcloud\.com\/([\w-]+)\/([\w-]+)",
            input,
        );
        youtube || soundcloud
    }
}

} // verus!
