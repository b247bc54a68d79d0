//! The decisions of the `pre-push` and `prepare-commit-msg` hooks, apart
//! from reading the repository and writing files.
use vstd::prelude::*;
use crate::logging::ExitCode;
use crate::text::{find_char, find_char_spec, lemma_find_char_absent, lemma_find_char_at, same_text};

verus! {

/// Configuration key that switches the `pre-push` hook on or off.
pub const PRE_PUSH_ENABLED_SETTING: &'static str = "hooks.pre-push.enabled";

/// Whether the `pre-push` hook runs when its key is not set.
pub const PRE_PUSH_ENABLED_DEFAULT: bool = true;

/// Configuration key holding the comma-separated protected branch names.
pub const PROTECTED_BRANCHES_SETTING: &'static str = "hooks.pre-push.protectedBranches";

/// Configuration key that switches the `prepare-commit-msg` hook on or off.
pub const PREPARE_COMMIT_MSG_ENABLED_SETTING: &'static str = "hooks.prepare-commit-msg.enabled";

/// Whether the `prepare-commit-msg` hook runs when its key is not set.
pub const PREPARE_COMMIT_MSG_ENABLED_DEFAULT: bool = true;

/// Configuration key holding the separator between ticket and description.
pub const SEPARATOR_SETTING: &'static str = "hooks.prepare-commit-msg.branchSeparator";

/// Separator between ticket and description when its key is not set.
pub const SEPARATOR_DEFAULT: &'static str = "|";

/// The text of each string in `v`.
pub open spec fn string_views(v: Seq<String>) -> Seq<Seq<char>> {
    v.map_values(|b: String| b@)
}

/// The branches protected when the configuration names none.
pub open spec fn default_protected() -> Seq<Seq<char>> {
    seq!["master"@, "develop"@]
}

/// The protected branch names in force: the configured list when it is
/// present and not empty, else the default pair.
pub open spec fn protected_set(configured: Option<Vec<String>>) -> Seq<Seq<char>> {
    match configured {
        Some(v) => if v@.len() > 0 {
            string_views(v@)
        } else {
            default_protected()
        },
        None => default_protected(),
    }
}

/// Whether pushes from `branch` are refused: it equals, exactly, one of the
/// protected branch names in force.
pub fn is_protected(branch: &str, configured: Option<Vec<String>>) -> (r: bool)
    ensures
        r == protected_set(configured).contains(branch@),
{
    let ghost set = protected_set(configured);
    if let Some(v) = &configured {
        if v.len() > 0 {
            assert(set == string_views(v@));
            let mut i: usize = 0;
            while i < v.len()
                invariant
                    i <= v@.len(),
                    set == string_views(v@),
                    set == protected_set(configured),
                    set.len() == v@.len(),
                    forall|k: int| 0 <= k < i ==> set[k] != branch@,
                decreases v.len() - i,
            {
                if same_text(v[i].as_str(), branch) {
                    assert(set[i as int] == branch@);
                    assert(set.contains(branch@));
                    return true;
                }
                i = i + 1;
            }
            return false;
        }
    }
    let r = same_text(branch, "master") || same_text(branch, "develop");
    assert(set[0] == "master"@ && set[1] == "develop"@);
    assert(r ==> set.contains(branch@));
    r
}

/// Without a configured list, exactly `master` and `develop` are protected.
pub proof fn lemma_default_protected(branch: Seq<char>)
    ensures
        protected_set(None).contains(branch) <==> (branch == "master"@ || branch == "develop"@),
{
    let set = protected_set(None);
    if branch == "master"@ {
        assert(set[0] == branch);
    }
    if branch == "develop"@ {
        assert(set[1] == branch);
    }
}

/// A configured list that is not empty replaces the default set: the
/// protected names are exactly the configured ones.
pub proof fn lemma_configured_replaces_default(v: Vec<String>, branch: Seq<char>)
    requires
        v@.len() > 0,
    ensures
        protected_set(Some(v)).contains(branch) <==> exists|i: int|
            0 <= i < v@.len() && #[trigger] v@[i]@ == branch,
{
    let set = protected_set(Some(v));
    if exists|i: int| 0 <= i < v@.len() && #[trigger] v@[i]@ == branch {
        let i = choose|i: int| 0 <= i < v@.len() && #[trigger] v@[i]@ == branch;
        assert(set[i] == branch);
    }
}

/// The pieces of `s` between occurrences of `c`, empty pieces included.
pub open spec fn split_spec(s: Seq<char>, c: char) -> Seq<Seq<char>>
    decreases s.len(),
{
    match find_char_spec(s, c) {
        Some(i) => if 0 <= i < s.len() {
            seq![s.take(i)] + split_spec(s.skip(i + 1), c)
        } else {
            seq![s]
        },
        None => seq![s],
    }
}

/// The comma-separated values of a list setting, empty values kept.
pub fn split_list(value: &str) -> (r: Vec<String>)
    ensures
        string_views(r@) == split_spec(value@, ','),
{
    let n = value.unicode_len();
    let mut r: Vec<String> = Vec::new();
    let mut start: usize = 0;
    let mut i: usize = 0;
    assert(value@.skip(0) =~= value@);
    assert(string_views(r@) =~= Seq::<Seq<char>>::empty());
    while i < n
        invariant
            n == value@.len(),
            start <= i <= n,
            forall|k: int| start <= k < i ==> value@[k] != ',',
            string_views(r@) + split_spec(value@.skip(start as int), ',')
                == split_spec(value@, ','),
        decreases n - i,
    {
        if value.get_char(i) == ',' {
            let piece = String::from_str(value.substring_char(start, i));
            proof {
                let rest = value@.skip(start as int);
                let j = i - start;
                assert forall|k: int| 0 <= k < j implies rest[k] != ',' by {
                    assert(rest[k] == value@[start + k]);
                }
                lemma_find_char_at(rest, ',', j);
                assert(rest.take(j) =~= piece@);
                assert(rest.skip(j + 1) =~= value@.skip(i + 1));
                assert(string_views(r@.push(piece)) =~= string_views(r@).push(piece@));
            }
            r.push(piece);
            start = i + 1;
        }
        i = i + 1;
    }
    let last = String::from_str(value.substring_char(start, n));
    proof {
        let rest = value@.skip(start as int);
        assert forall|k: int| 0 <= k < rest.len() implies rest[k] != ',' by {
            assert(rest[k] == value@[start + k]);
        }
        lemma_find_char_absent(rest, ',');
        assert(rest =~= last@);
        assert(string_views(r@.push(last)) =~= string_views(r@).push(
            last@,
        ));
    }
    r.push(last);
    r
}

/// What reading `HEAD` gave.
pub enum HeadState {
    /// `HEAD` names a branch that has no commits yet.
    Unborn,
    /// `HEAD` could not be read for another reason.
    Unreadable,
    /// `HEAD` is a local branch; its short name, when that is valid UTF-8.
    Branch(Option<String>),
    /// `HEAD` is not a local branch.
    NotBranch,
}

/// The current branch's name, or the outcome that ends the hook.
pub fn resolve_branch_name(head: HeadState) -> (r: Result<String, ExitCode>)
    ensures
        match head {
            HeadState::Unborn => r == Err::<String, ExitCode>(ExitCode::EmptyBranch),
            HeadState::Unreadable => r == Err::<String, ExitCode>(ExitCode::InvalidBranch),
            HeadState::Branch(Some(name)) => r matches Ok(n) && n@ == name@,
            HeadState::Branch(None) => r == Err::<String, ExitCode>(ExitCode::BadBranchName),
            HeadState::NotBranch => r == Err::<String, ExitCode>(ExitCode::UnknownBranch),
        },
{
    match head {
        HeadState::Unborn => Err(ExitCode::EmptyBranch),
        HeadState::Unreadable => Err(ExitCode::InvalidBranch),
        HeadState::Branch(Some(name)) => Ok(name),
        HeadState::Branch(None) => Err(ExitCode::BadBranchName),
        HeadState::NotBranch => Err(ExitCode::UnknownBranch),
    }
}

/// The new contents of a commit-message file: `data`, a line break, then
/// what the file held.
pub fn prepend_text(data: &str, contents: &str) -> (r: String)
    ensures
        r@ == data@ + seq!['\n'] + contents@,
{
    let mut r = String::from_str(data);
    proof {
        reveal_strlit("\n");
    }
    r.append("\n");
    r.append(contents);
    r
}

} // verus!
