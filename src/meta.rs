//! Metadata derived from a branch name, and the commit-message prefix
//! rendered from it.
use vstd::prelude::*;
use crate::text::{
    CharClass, in_class, is_ascii_punctuation_spec, lemma_find_char_extend,
    lemma_find_str_extend, lemma_trim_end_cons, lemma_trim_untouched, trim_end_spec, trim_start_spec, find_char, find_char_spec, find_str, find_str_spec, same_text, trim_class,
    trim_spec,
};
use crate::ticket::{TICKET_PATTERN, find_ticket, first_match, ticket_spec};

verus! {

/// What a branch name says about the work on it.
#[derive(Debug, PartialEq, Eq)]
pub struct Meta {
    /// Category prefix such as `feature` or `hotfix`; empty when none.
    pub branch_type: String,
    /// Issue-tracker key such as `JIRA-302`; empty when none.
    pub ticket: String,
    /// Free-text slug; empty when none.
    pub description: String,
}

/// The mathematical content of a [`Meta`].
pub struct MetaView {
    pub branch_type: Seq<char>,
    pub ticket: Seq<char>,
    pub description: Seq<char>,
}

impl View for Meta {
    type V = MetaView;

    open spec fn view(&self) -> MetaView {
        MetaView {
            branch_type: self.branch_type@,
            ticket: self.ticket@,
            description: self.description@,
        }
    }
}

/// The branch names that name a type on their own.
pub open spec fn is_type_keyword(b: Seq<char>) -> bool {
    b == "master"@ || b == "main"@ || b == "develop"@ || b == "feature"@ || b == "release"@ || b
        == "hotfix"@
}

/// The text before the first `/`; else the whole name when it is a type
/// keyword; else empty.
pub open spec fn branch_type_spec(b: Seq<char>) -> Seq<char> {
    match find_char_spec(b, '/') {
        Some(i) => b.take(i),
        None => if is_type_keyword(b) {
            b
        } else {
            Seq::empty()
        },
    }
}

/// The segment between the first `/` (at `i`) and the next one, or the end.
pub open spec fn second_segment(b: Seq<char>, i: int) -> Seq<char> {
    let rest = b.subrange(i + 1, b.len() as int);
    match find_char_spec(rest, '/') {
        Some(j) => rest.take(j),
        None => rest,
    }
}

/// The text after the first occurrence of `ticket` in `b`, trimmed of
/// whitespace and then of ASCII punctuation at both ends.
pub open spec fn after_ticket(b: Seq<char>, ticket: Seq<char>) -> Seq<char> {
    match find_str_spec(b, ticket) {
        Some(k) => trim_spec(
            trim_spec(b.subrange(k + ticket.len(), b.len() as int), CharClass::Whitespace),
            CharClass::AsciiPunctuation,
        ),
        None => Seq::empty(),
    }
}

/// The description of `b`, given its type and ticket (empty when none).
pub open spec fn description_spec(b: Seq<char>, branch_type: Seq<char>, ticket: Seq<char>) -> Seq<
    char,
> {
    match find_char_spec(b, '/') {
        Some(i) => if ticket.len() == 0 {
            second_segment(b, i)
        } else {
            after_ticket(b, ticket)
        },
        None => if ticket.len() == 0 && branch_type.len() == 0 {
            b
        } else {
            Seq::empty()
        },
    }
}

/// The metadata of the (already trimmed) branch name `b` whose ticket is
/// `ticket`.
pub open spec fn classify_spec(b: Seq<char>, ticket: Seq<char>) -> MetaView {
    MetaView {
        branch_type: branch_type_spec(b),
        ticket,
        description: description_spec(b, branch_type_spec(b), ticket),
    }
}

/// The metadata of a branch name as the hook reads it: trimmed of
/// whitespace, with the first ticket key that the pattern finds.
pub open spec fn extract_spec(branch: Seq<char>) -> MetaView {
    let b = trim_spec(branch, CharClass::Whitespace);
    classify_spec(b, ticket_spec(b))
}

/// `s` followed by `sep` and `tail`, with one space on each side of `sep`.
pub open spec fn joined(s: Seq<char>, sep: Seq<char>, tail: Seq<char>) -> Seq<char> {
    s + seq![' '] + sep + seq![' '] + tail
}

/// The commit-message prefix for a ticket and a description.
pub open spec fn render_spec(ticket: Seq<char>, description: Seq<char>, sep: Seq<char>) -> Seq<
    char,
> {
    if ticket.len() == 0 && description.len() == 0 {
        Seq::empty()
    } else if ticket.len() == 0 {
        joined(description, sep, Seq::empty())
    } else if description.len() == 0 {
        joined(ticket, sep, Seq::empty())
    } else {
        joined(ticket, sep, description)
    }
}

impl Meta {
    fn branch_type(branch: &str) -> (r: String)
        ensures
            r@ == branch_type_spec(branch@),
    {
        match find_char(branch, '/') {
            Some(i) => String::from_str(branch.substring_char(0, i)),
            None => {
                if same_text(branch, "master") || same_text(branch, "main") || same_text(
                    branch,
                    "develop",
                ) || same_text(branch, "feature") || same_text(branch, "release") || same_text(
                    branch,
                    "hotfix",
                ) {
                    String::from_str(branch)
                } else {
                    String::new()
                }
            },
        }
    }

    fn ticket(branch: &str) -> (r: String)
        ensures
            r@ == ticket_spec(branch@),
    {
        find_ticket(branch)
    }

    fn description(branch: &str, branch_type: &str, ticket: &str) -> (r: String)
        ensures
            r@ == description_spec(branch@, branch_type@, ticket@),
    {
        match find_char(branch, '/') {
            Some(i) => {
                if ticket.unicode_len() == 0 {
                    let n = branch.unicode_len();
                    let rest = branch.substring_char(i + 1, n);
                    match find_char(rest, '/') {
                        Some(j) => String::from_str(rest.substring_char(0, j)),
                        None => String::from_str(rest),
                    }
                } else {
                    match find_str(branch, ticket) {
                        Some(k) => {
                            let n = branch.unicode_len();
                            let tail = branch.substring_char(k + ticket.unicode_len(), n);
                            let trimmed = trim_class(tail, CharClass::Whitespace);
                            trim_class(trimmed.as_str(), CharClass::AsciiPunctuation)
                        },
                        None => String::new(),
                    }
                }
            },
            None => {
                if ticket.unicode_len() == 0 && branch_type.unicode_len() == 0 {
                    String::from_str(branch)
                } else {
                    String::new()
                }
            },
        }
    }

    /// The metadata of the branch name `branch`, taken as it is, given the
    /// ticket key found in it (empty when none was).
    pub fn from_ticket(branch: &str, ticket: &str) -> (r: Meta)
        ensures
            r@ == classify_spec(branch@, ticket@),
    {
        let branch_type = Self::branch_type(branch);
        let description = Self::description(branch, branch_type.as_str(), ticket);
        Meta { branch_type, ticket: String::from_str(ticket), description }
    }

    /// The metadata of a branch name: it is trimmed of surrounding
    /// whitespace, then its type, ticket key and description are read.
    pub fn new(branch_string: String) -> (r: Meta)
        ensures
            r@ == extract_spec(branch_string@),
    {
        let branch = trim_class(branch_string.as_str(), CharClass::Whitespace);
        let ticket = Self::ticket(branch.as_str());
        Self::from_ticket(branch.as_str(), ticket.as_str())
    }

    /// The text to put before a commit message: empty when there is neither
    /// ticket nor description, else the ticket and/or description around the
    /// separator.
    pub fn to_msg(&self, separator: String) -> (r: String)
        ensures
            r@ == render_spec(self.ticket@, self.description@, separator@),
    {
        let has_ticket = self.ticket.as_str().unicode_len() != 0;
        let has_description = self.description.as_str().unicode_len() != 0;
        if !has_ticket && !has_description {
            return String::new();
        }
        let mut r = if has_ticket {
            String::from_str(self.ticket.as_str())
        } else {
            String::from_str(self.description.as_str())
        };
        proof {
            reveal_strlit(" ");
        }
        r.append(" ");
        r.append(separator.as_str());
        r.append(" ");
        if has_ticket && has_description {
            r.append(self.description.as_str());
        }
        r
    }
}

/// Rendering depends on nothing but the ticket, the description and the
/// separator: equal inputs give equal prefixes.
pub proof fn lemma_render_deterministic(m1: Meta, m2: Meta, sep1: Seq<char>, sep2: Seq<char>)
    requires
        m1@ == m2@,
        sep1 == sep2,
    ensures
        render_spec(m1.ticket@, m1.description@, sep1) == render_spec(
            m2.ticket@,
            m2.description@,
            sep2,
        ),
{
}

/// The punctuation character between a ticket and the description does not
/// matter: two branch names `prefix + ticket + p + rest` that differ only in
/// that ASCII punctuation character `p`, where `prefix` holds a `/`, the
/// ticket search finds `ticket` in both, and that ticket first occurs right
/// after `prefix`, give the same metadata.
pub proof fn lemma_separator_invariance(
    prefix: Seq<char>,
    ticket: Seq<char>,
    p1: char,
    p2: char,
    rest: Seq<char>,
)
    requires
        find_char_spec(prefix, '/') is Some,
        ticket.len() > 0,
        find_str_spec(prefix + ticket, ticket) == Some(prefix.len() as int),
        is_ascii_punctuation_spec(p1),
        is_ascii_punctuation_spec(p2),
        !in_class(CharClass::Whitespace, prefix[0]),
        rest.len() > 0 ==> !in_class(CharClass::Whitespace, rest.last()),
        first_match(TICKET_PATTERN@, prefix + ticket + seq![p1] + rest) == Some(ticket),
        first_match(TICKET_PATTERN@, prefix + ticket + seq![p2] + rest) == Some(ticket),
    ensures
        extract_spec(prefix + ticket + seq![p1] + rest) == extract_spec(
            prefix + ticket + seq![p2] + rest,
        ),
{
    lemma_separator_side(prefix, ticket, p1, rest);
    lemma_separator_side(prefix, ticket, p2, rest);
}

/// The metadata of `prefix + ticket + p + rest`, as the law above needs it.
proof fn lemma_separator_side(prefix: Seq<char>, ticket: Seq<char>, p: char, rest: Seq<char>)
    requires
        find_char_spec(prefix, '/') is Some,
        ticket.len() > 0,
        find_str_spec(prefix + ticket, ticket) == Some(prefix.len() as int),
        is_ascii_punctuation_spec(p),
        !in_class(CharClass::Whitespace, prefix[0]),
        rest.len() > 0 ==> !in_class(CharClass::Whitespace, rest.last()),
        first_match(TICKET_PATTERN@, prefix + ticket + seq![p] + rest) == Some(ticket),
    ensures
        ({
            let i = find_char_spec(prefix, '/')->Some_0;
            extract_spec(prefix + ticket + seq![p] + rest) == MetaView {
                branch_type: prefix.take(i),
                ticket,
                description: trim_spec(
                    trim_end_spec(rest, CharClass::Whitespace),
                    CharClass::AsciiPunctuation,
                ),
            }
        }),
{
    let after = seq![p] + rest;
    let b = prefix + ticket + seq![p] + rest;
    let head = prefix + ticket;
    assert(b =~= head + after);
    assert(b =~= prefix + (ticket + after));
    lemma_find_char_extend(prefix, ticket + after, '/');
    let i = find_char_spec(prefix, '/')->Some_0;
    assert(b.take(i) =~= prefix.take(i));
    // The name is already trimmed.
    assert(b[0] == prefix[0]);
    if rest.len() > 0 {
        assert(b.last() == rest.last());
    } else {
        assert(b.last() == p);
    }
    lemma_trim_untouched(b, CharClass::Whitespace);
    assert(ticket_spec(b) == ticket);
    // The text after the ticket.
    lemma_find_str_extend(head, after, ticket);
    let k = prefix.len() + ticket.len();
    assert(b.subrange(k as int, b.len() as int) =~= after);
    assert(trim_start_spec(after, CharClass::Whitespace) == after);
    lemma_trim_end_cons(p, rest, CharClass::Whitespace);
    let e = trim_end_spec(rest, CharClass::Whitespace);
    assert((seq![p] + e).drop_first() =~= e);
    assert(trim_start_spec(seq![p] + e, CharClass::AsciiPunctuation) == trim_start_spec(
        e,
        CharClass::AsciiPunctuation,
    ));
}

} // verus!
