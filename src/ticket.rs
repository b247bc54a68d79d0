//! The search for an issue-tracker ticket key in a branch name.
use vstd::prelude::*;

verus! {

/// Pattern of a ticket key: up to ten upper-case letters, an optional
/// hyphen, more upper-case letters, a hyphen and digits (`JIRA-302`,
/// `AB-CD-123`).
pub const TICKET_PATTERN: &'static str = "((([A-Z]{1,10})-?)[A-Z]+-\\d+)";

/// The text of the leftmost-first match of the regular expression `pattern`
/// in `text`, as the `regex` crate finds it; `None` where nothing matches or
/// the pattern does not compile.
pub uninterp spec fn first_match(pattern: Seq<char>, text: Seq<char>) -> Option<Seq<char>>;

/// Relies on `regex::Regex::new` to compile `pattern` and on `Regex::find`
/// for the leftmost-first match in `text`, handed back as its text.
#[verifier::external_body]
pub(crate) fn find_first_match(pattern: &str, text: &str) -> (r: Option<String>)
    ensures
        r matches Some(m) ==> first_match(pattern@, text@) == Some(m@),
        r is None ==> first_match(pattern@, text@) is None,
{
    match regex::Regex::new(pattern) {
        Ok(re) => re.find(text).map(|m| m.as_str().to_string()),
        Err(_) => None,
    }
}

/// The ticket key found in `branch`, or the empty sequence when none is.
pub open spec fn ticket_spec(branch: Seq<char>) -> Seq<char> {
    match first_match(TICKET_PATTERN@, branch) {
        Some(t) => t,
        None => Seq::empty(),
    }
}

/// The first ticket key in `branch`, or an empty string when there is none.
pub fn find_ticket(branch: &str) -> (r: String)
    ensures
        r@ == ticket_spec(branch@),
{
    match find_first_match(TICKET_PATTERN, branch) {
        Some(t) => t,
        None => String::new(),
    }
}

} // verus!
