//! Reading the installed binary's version out of what it printed when asked.
use vstd::prelude::*;
use crate::release::opt_text;
use crate::text::contains;

verus! {

/// A version token: a run of digits followed by non-space characters.
pub const VERSION_PATTERN: &'static str = "\\d+\\S+";

/// What `regex` finds first for `pattern` in `text`: `None` when the pattern
/// does not compile, `Some(None)` when nothing matches.
pub uninterp spec fn regex_first_match(pattern: Seq<char>, text: Seq<char>) -> Option<Option<Seq<char>>>;

/// Relies on `regex::Regex::new`, which compiles the pattern or fails, and
/// `regex::Regex::find`, which returns the leftmost-first match, a piece of
/// the text; both depend on their arguments alone.
#[verifier::external_body]
fn first_match(pattern: &str, text: &str) -> (r: Option<Option<String>>)
    ensures
        (match r {
            Some(Some(m)) => Some(Some(m@)),
            Some(None) => Some(None),
            None => None,
        }) == regex_first_match(pattern@, text@),
        r matches Some(Some(m)) ==> contains(text@, m@),
{
    regex::Regex::new(pattern).ok().map(|re| re.find(text).map(|m| m.as_str().to_string()))
}

/// The version token in a probe's output, if there is one.
pub open spec fn version_token(output: Seq<char>) -> Option<Seq<char>> {
    match regex_first_match(VERSION_PATTERN@, output) {
        Some(Some(m)) => Some(m),
        _ => None,
    }
}

/// The version a binary reported: the first version token of its standard
/// output when it exited successfully, else of its standard error. `None`
/// when there is no such token, which is a failed probe.
pub fn version_from_output(succeeded: bool, stdout: &str, stderr: &str) -> (r: Option<String>)
    ensures
        opt_text(r) == version_token(if succeeded { stdout@ } else { stderr@ }),
        r matches Some(v) ==> contains(if succeeded { stdout@ } else { stderr@ }, v@),
{
    let text = if succeeded { stdout } else { stderr };
    match first_match(VERSION_PATTERN, text) {
        Some(Some(m)) => Some(m),
        _ => None,
    }
}

} // verus!
