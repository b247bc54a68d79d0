//! Character classes and small string operations over `Seq<char>` models.
use vstd::prelude::*;

verus! {

/// The classes of characters that can be trimmed from the ends of a string.
#[derive(Clone, Copy, PartialEq, Eq, Debug)]
pub enum CharClass {
    /// Unicode `White_Space`, as `char::is_whitespace` decides it.
    Whitespace,
    /// ASCII punctuation, as `char::is_ascii_punctuation` decides it.
    AsciiPunctuation,
}

/// Unicode `White_Space` property.
pub open spec fn is_whitespace_spec(c: char) -> bool {
    let u = c as u32;
    (0x9 <= u && u <= 0xd) || u == 0x20 || u == 0x85 || u == 0xa0 || u == 0x1680
        || (0x2000 <= u && u <= 0x200a) || u == 0x2028 || u == 0x2029 || u == 0x202f
        || u == 0x205f || u == 0x3000
}

/// The printable ASCII characters that are neither letters, digits nor space.
pub open spec fn is_ascii_punctuation_spec(c: char) -> bool {
    let u = c as u32;
    (0x21 <= u && u <= 0x2f) || (0x3a <= u && u <= 0x40) || (0x5b <= u && u <= 0x60) || (0x7b
        <= u && u <= 0x7e)
}

pub open spec fn in_class(class: CharClass, c: char) -> bool {
    match class {
        CharClass::Whitespace => is_whitespace_spec(c),
        CharClass::AsciiPunctuation => is_ascii_punctuation_spec(c),
    }
}

/// `s` without its leading characters of `class`.
pub open spec fn trim_start_spec(s: Seq<char>, class: CharClass) -> Seq<char>
    decreases s.len(),
{
    if s.len() > 0 && in_class(class, s[0]) {
        trim_start_spec(s.drop_first(), class)
    } else {
        s
    }
}

/// `s` without its trailing characters of `class`.
pub open spec fn trim_end_spec(s: Seq<char>, class: CharClass) -> Seq<char>
    decreases s.len(),
{
    if s.len() > 0 && in_class(class, s.last()) {
        trim_end_spec(s.drop_last(), class)
    } else {
        s
    }
}

/// `s` without its leading and trailing characters of `class`.
pub open spec fn trim_spec(s: Seq<char>, class: CharClass) -> Seq<char> {
    trim_end_spec(trim_start_spec(s, class), class)
}

/// Index of the first occurrence of `c` in `s`, if any.
pub open spec fn find_char_spec(s: Seq<char>, c: char) -> Option<int>
    decreases s.len(),
{
    if s.len() == 0 {
        None
    } else if s[0] == c {
        Some(0)
    } else {
        match find_char_spec(s.drop_first(), c) {
            Some(i) => Some(i + 1),
            None => None,
        }
    }
}

/// Whether `c` belongs to `class`.
pub fn char_in_class(c: char, class: CharClass) -> (r: bool)
    ensures
        r == in_class(class, c),
{
    let u = c as u32;
    match class {
        CharClass::Whitespace => (0x9 <= u && u <= 0xd) || u == 0x20 || u == 0x85 || u == 0xa0
            || u == 0x1680 || (0x2000 <= u && u <= 0x200a) || u == 0x2028 || u == 0x2029 || u
            == 0x202f || u == 0x205f || u == 0x3000,
        CharClass::AsciiPunctuation => (0x21 <= u && u <= 0x2f) || (0x3a <= u && u <= 0x40) || (
        0x5b <= u && u <= 0x60) || (0x7b <= u && u <= 0x7e),
    }
}

/// Removes the leading and trailing characters of `class` from `s`.
pub fn trim_class(s: &str, class: CharClass) -> (r: String)
    ensures
        r@ == trim_spec(s@, class),
{
    let n = s.unicode_len();
    let mut i: usize = 0;
    assert(s@.subrange(0, n as int) =~= s@);
    while i < n && char_in_class(s.get_char(i), class)
        invariant
            n == s@.len(),
            i <= n,
            trim_start_spec(s@, class) == trim_start_spec(s@.subrange(i as int, n as int), class),
        decreases n - i,
    {
        proof {
            let t = s@.subrange(i as int, n as int);
            assert(t.drop_first() =~= s@.subrange(i + 1, n as int));
        }
        i = i + 1;
    }
    proof {
        let t = s@.subrange(i as int, n as int);
        assert(trim_start_spec(t, class) == t);
    }
    let mut j: usize = n;
    while j > i && char_in_class(s.get_char(j - 1), class)
        invariant
            n == s@.len(),
            i <= j <= n,
            trim_spec(s@, class) == trim_end_spec(s@.subrange(i as int, j as int), class),
        decreases j,
    {
        proof {
            let t = s@.subrange(i as int, j as int);
            assert(t.drop_last() =~= s@.subrange(i as int, j - 1));
        }
        j = j - 1;
    }
    let r = String::from_str(s.substring_char(i, j));
    r
}

/// Index of the first occurrence of `c` in `s`, if any.
pub fn find_char(s: &str, c: char) -> (r: Option<usize>)
    ensures
        r matches Some(i) ==> find_char_spec(s@, c) == Some(i as int) && i < s@.len(),
        r is None ==> find_char_spec(s@, c) is None,
{
    let n = s.unicode_len();
    let mut i: usize = 0;
    while i < n
        invariant
            n == s@.len(),
            i <= n,
            forall|k: int| 0 <= k < i ==> s@[k] != c,
        decreases n - i,
    {
        if s.get_char(i) == c {
            proof {
                lemma_find_char_at(s@, c, i as int);
            }
            return Some(i);
        }
        i = i + 1;
    }
    proof {
        lemma_find_char_absent(s@, c);
    }
    None
}

pub proof fn lemma_find_char_at(s: Seq<char>, c: char, i: int)
    requires
        0 <= i < s.len(),
        s[i] == c,
        forall|k: int| 0 <= k < i ==> s[k] != c,
    ensures
        find_char_spec(s, c) == Some(i),
    decreases i,
{
    if i > 0 {
        lemma_find_char_at(s.drop_first(), c, i - 1);
    }
}

pub proof fn lemma_find_char_absent(s: Seq<char>, c: char)
    requires
        forall|k: int| 0 <= k < s.len() ==> s[k] != c,
    ensures
        find_char_spec(s, c) is None,
    decreases s.len(),
{
    if s.len() > 0 {
        lemma_find_char_absent(s.drop_first(), c);
    }
}

/// Whether `t` occurs in `s` starting at index `k`.
pub open spec fn occurs_at(s: Seq<char>, t: Seq<char>, k: int) -> bool {
    0 <= k && k + t.len() <= s.len() && s.subrange(k, k + t.len()) == t
}

/// Index of the first occurrence of `t` in `s`, if any.
pub open spec fn find_str_spec(s: Seq<char>, t: Seq<char>) -> Option<int>
    decreases s.len(),
{
    if occurs_at(s, t, 0) {
        Some(0)
    } else if s.len() == 0 {
        None
    } else {
        match find_str_spec(s.drop_first(), t) {
            Some(i) => Some(i + 1),
            None => None,
        }
    }
}

/// Whether `a` and `b` hold the same characters.
pub fn same_text(a: &str, b: &str) -> (r: bool)
    ensures
        r == (a@ == b@),
{
    let n = a.unicode_len();
    if n != b.unicode_len() {
        return false;
    }
    let mut i: usize = 0;
    while i < n
        invariant
            n == a@.len(),
            n == b@.len(),
            i <= n,
            forall|k: int| 0 <= k < i ==> a@[k] == b@[k],
        decreases n - i,
    {
        if a.get_char(i) != b.get_char(i) {
            return false;
        }
        i = i + 1;
    }
    assert(a@ =~= b@);
    true
}

/// Whether `t` occurs in `s` starting at index `k`.
fn occurs_at_exec(s: &str, t: &str, k: usize) -> (r: bool)
    requires
        s@.len() <= usize::MAX,
    ensures
        r == occurs_at(s@, t@, k as int),
{
    let n = s.unicode_len();
    let m = t.unicode_len();
    if k > n || m > n - k {
        return false;
    }
    let mut i: usize = 0;
    while i < m
        invariant
            n == s@.len(),
            m == t@.len(),
            k + m <= n,
            i <= m,
            forall|j: int| 0 <= j < i ==> s@[k + j] == t@[j],
        decreases m - i,
    {
        if s.get_char(k + i) != t.get_char(i) {
            assert(s@.subrange(k as int, k + m)[i as int] != t@[i as int]);
            return false;
        }
        i = i + 1;
    }
    assert(s@.subrange(k as int, k + m) =~= t@);
    true
}

/// Index of the first occurrence of `t` in `s`, if any.
pub fn find_str(s: &str, t: &str) -> (r: Option<usize>)
    ensures
        r matches Some(i) ==> find_str_spec(s@, t@) == Some(i as int) && occurs_at(s@, t@, i as int),
        r is None ==> find_str_spec(s@, t@) is None,
{
    let n = s.unicode_len();
    let mut k: usize = 0;
    while k <= n
        invariant
            n == s@.len(),
            k <= n + 1,
            forall|j: int| 0 <= j < k ==> !occurs_at(s@, t@, j),
        decreases n + 1 - k,
    {
        if occurs_at_exec(s, t, k) {
            proof {
                lemma_find_str_at(s@, t@, k as int);
            }
            return Some(k);
        }
        if k == n {
            proof {
                lemma_find_str_absent(s@, t@);
            }
            return None;
        }
        k = k + 1;
    }
    proof {
        lemma_find_str_absent(s@, t@);
    }
    None
}

proof fn lemma_occurs_shift(s: Seq<char>, t: Seq<char>, k: int)
    requires
        s.len() > 0,
        k >= 0,
    ensures
        occurs_at(s.drop_first(), t, k) == occurs_at(s, t, k + 1),
{
    if occurs_at(s, t, k + 1) {
        assert(s.drop_first().subrange(k, k + t.len()) =~= s.subrange(k + 1, k + 1 + t.len()));
    }
    if occurs_at(s.drop_first(), t, k) {
        assert(s.drop_first().subrange(k, k + t.len()) =~= s.subrange(k + 1, k + 1 + t.len()));
    }
}

proof fn lemma_find_str_at(s: Seq<char>, t: Seq<char>, k: int)
    requires
        occurs_at(s, t, k),
        forall|j: int| 0 <= j < k ==> !occurs_at(s, t, j),
    ensures
        find_str_spec(s, t) == Some(k),
    decreases k,
{
    if k > 0 {
        let d = s.drop_first();
        lemma_occurs_shift(s, t, k - 1);
        assert forall|j: int| 0 <= j < k - 1 implies !occurs_at(d, t, j) by {
            lemma_occurs_shift(s, t, j);
        }
        lemma_find_str_at(d, t, k - 1);
    }
}

proof fn lemma_find_str_absent(s: Seq<char>, t: Seq<char>)
    requires
        forall|j: int| 0 <= j <= s.len() ==> !occurs_at(s, t, j),
    ensures
        find_str_spec(s, t) is None,
    decreases s.len(),
{
    if s.len() > 0 {
        let d = s.drop_first();
        assert forall|j: int| 0 <= j <= d.len() implies !occurs_at(d, t, j) by {
            lemma_occurs_shift(s, t, j);
        }
        lemma_find_str_absent(d, t);
    }
}

/// What `find_str_spec` reports: an occurrence with none before it.
pub proof fn lemma_find_str_some(s: Seq<char>, t: Seq<char>)
    requires
        find_str_spec(s, t) is Some,
    ensures
        ({
            let k = find_str_spec(s, t)->Some_0;
            occurs_at(s, t, k) && forall|j: int| 0 <= j < k ==> !occurs_at(s, t, j)
        }),
    decreases s.len(),
{
    if !occurs_at(s, t, 0) && s.len() > 0 {
        let d = s.drop_first();
        lemma_find_str_some(d, t);
        let k = find_str_spec(d, t)->Some_0;
        lemma_occurs_shift(s, t, k);
        assert forall|j: int| 0 <= j < k + 1 implies !occurs_at(s, t, j) by {
            if j > 0 {
                lemma_occurs_shift(s, t, j - 1);
            }
        }
    }
}

/// An occurrence found in `a` stays the first one when text is appended.
pub proof fn lemma_find_str_extend(a: Seq<char>, rest: Seq<char>, t: Seq<char>)
    requires
        find_str_spec(a, t) is Some,
    ensures
        find_str_spec(a + rest, t) == find_str_spec(a, t),
{
    let s = a + rest;
    lemma_find_str_some(a, t);
    let k = find_str_spec(a, t)->Some_0;
    assert(s.subrange(k, k + t.len()) =~= a.subrange(k, k + t.len()));
    assert forall|j: int| 0 <= j < k implies !occurs_at(s, t, j) by {
        assert(!occurs_at(a, t, j));
        assert(s.subrange(j, j + t.len()) =~= a.subrange(j, j + t.len()));
    }
    lemma_find_str_at(s, t, k);
}

/// The first `c` found in `a` stays the first one when text is appended.
pub proof fn lemma_find_char_extend(a: Seq<char>, rest: Seq<char>, c: char)
    requires
        find_char_spec(a, c) is Some,
    ensures
        find_char_spec(a + rest, c) == find_char_spec(a, c),
        0 <= find_char_spec(a, c)->Some_0 < a.len(),
    decreases a.len(),
{
    if a[0] != c {
        lemma_find_char_extend(a.drop_first(), rest, c);
        assert((a + rest).drop_first() =~= a.drop_first() + rest);
    }
}

/// Trimming the end never reaches a first character outside the class.
pub proof fn lemma_trim_end_cons(p: char, d: Seq<char>, class: CharClass)
    requires
        !in_class(class, p),
    ensures
        trim_end_spec(seq![p] + d, class) == seq![p] + trim_end_spec(d, class),
    decreases d.len(),
{
    if d.len() > 0 && in_class(class, d.last()) {
        assert((seq![p] + d).drop_last() =~= seq![p] + d.drop_last());
        lemma_trim_end_cons(p, d.drop_last(), class);
    } else if d.len() == 0 {
        assert(seq![p] + d =~= seq![p]);
    }
}

/// Text whose ends lie outside the class is left as it is by trimming.
pub proof fn lemma_trim_untouched(s: Seq<char>, class: CharClass)
    requires
        s.len() > 0,
        !in_class(class, s[0]),
        !in_class(class, s.last()),
    ensures
        trim_spec(s, class) == s,
{
}

} // verus!
