//! Character-level string operations used by the request handlers.

use vstd::prelude::*;

verus! {

broadcast use vstd::string::group_string_axioms;

/// The number of bytes of the UTF-8 encoding of `s`, which is what Rust's
/// `len` on a string counts.
pub open spec fn utf8_len(s: Seq<char>) -> nat {
    vstd::utf8::encode_utf8(s).len()
}

/// The characters of an optional string.
pub open spec fn text_of(s: Option<String>) -> Option<Seq<char>> {
    match s {
        Some(t) => Some(t@),
        None => None,
    }
}

/// `s` with `suffix` removed from its end, or `None` where `s` does not end
/// with `suffix`.
pub open spec fn strip_suffix_of(s: Seq<char>, suffix: Seq<char>) -> Option<Seq<char>> {
    if suffix.len() <= s.len() && s.skip(s.len() - suffix.len()) == suffix {
        Some(s.take(s.len() - suffix.len()))
    } else {
        None
    }
}

/// `s` split around its first `sep`: the part before it and the part after
/// it, or `None` where `sep` does not occur in `s`.
pub open spec fn split_once(s: Seq<char>, sep: char) -> Option<(Seq<char>, Seq<char>)>
    decreases s.len(),
{
    if s.len() == 0 {
        None
    } else if s[0] == sep {
        Some((Seq::empty(), s.drop_first()))
    } else {
        match split_once(s.drop_first(), sep) {
            Some((before, after)) => Some((seq![s[0]] + before, after)),
            None => None,
        }
    }
}

/// What `split_once` returns, in terms of positions: `sep` occurs first at
/// the position that separates the two parts.
pub proof fn lemma_split_once(s: Seq<char>, sep: char)
    ensures
        match split_once(s, sep) {
            Some((before, after)) => {
                &&& s == before + seq![sep] + after
                &&& !before.contains(sep)
            },
            None => !s.contains(sep),
        },
    decreases s.len(),
{
    if s.len() == 0 {
    } else if s[0] == sep {
        assert(s == Seq::<char>::empty() + seq![sep] + s.drop_first());
    } else {
        lemma_split_once(s.drop_first(), sep);
        match split_once(s.drop_first(), sep) {
            Some((before, after)) => {
                assert(s == seq![s[0]] + s.drop_first());
                assert(s == (seq![s[0]] + before) + seq![sep] + after);
                assert forall|j: int| 0 <= j < before.len() + 1 implies (seq![s[0]]
                    + before)[j] != sep by {
                    if j > 0 {
                        assert((seq![s[0]] + before)[j] == before[j - 1]);
                    }
                }
            },
            None => {
                assert forall|j: int| 0 <= j < s.len() implies s[j] != sep by {
                    if j > 0 {
                        assert(s[j] == s.drop_first()[j - 1]);
                    }
                }
            },
        }
    }
}

/// The parts around the first occurrence of `sep` are determined by the
/// position of that occurrence.
pub proof fn lemma_split_once_at(s: Seq<char>, sep: char, i: int)
    requires
        0 <= i < s.len(),
        s[i] == sep,
        forall|j: int| 0 <= j < i ==> s[j] != sep,
    ensures
        split_once(s, sep) == Some((s.take(i), s.skip(i + 1))),
    decreases i,
{
    if i == 0 {
        assert(s.take(0) =~= Seq::<char>::empty());
        assert(s.skip(1) =~= s.drop_first());
    } else {
        let t = s.drop_first();
        assert forall|j: int| 0 <= j < i - 1 implies t[j] != sep by {
            assert(t[j] == s[j + 1]);
        }
        lemma_split_once_at(t, sep, i - 1);
        assert(seq![s[0]] + t.take(i - 1) =~= s.take(i));
        assert(t.skip(i) =~= s.skip(i + 1));
    }
}

/// The position of the first `c` in `s`.
pub fn find_char(s: &str, c: char) -> (r: Option<usize>)
    ensures
        match r {
            Some(i) => {
                &&& i < s@.len()
                &&& s@[i as int] == c
                &&& forall|j: int| 0 <= j < i ==> s@[j] != c
            },
            None => !s@.contains(c),
        },
{
    let n = s.unicode_len();
    let mut chars = s.chars();
    let mut i: usize = 0;
    loop
        invariant
            n == s@.len(),
            i <= s@.len(),
            vstd::std_specs::iter::IteratorSpec::remaining(&chars) == s@.skip(i as int),
            vstd::std_specs::iter::IteratorSpec::obeys_prophetic_iter_laws(&chars),
            forall|j: int| 0 <= j < i ==> s@[j] != c,
        decreases s@.len() - i,
    {
        let ghost before = vstd::std_specs::iter::IteratorSpec::remaining(&chars);
        match chars.next() {
            Some(d) => {
                assert(before.len() > 0);
                assert(d == s@[i as int]);
                if d == c {
                    return Some(i);
                }
                assert(vstd::std_specs::iter::IteratorSpec::remaining(&chars) =~= s@.skip(i + 1));
                i = i + 1;
            },
            None => {
                assert(before.len() == 0);
                assert(i == s@.len());
                return None;
            },
        }
    }
}

/// `s` split around its first `sep`, as two owned strings.
pub fn split_once_char(s: &str, sep: char) -> (r: Option<(String, String)>)
    ensures
        match (r, split_once(s@, sep)) {
            (Some((before, after)), Some((b, a))) => before@ == b && after@ == a,
            (None, None) => true,
            _ => false,
        },
{
    proof {
        lemma_split_once(s@, sep);
    }
    match find_char(s, sep) {
        Some(i) => {
            proof {
                lemma_split_once_at(s@, sep, i as int);
            }
            let n = s.unicode_len();
            let before = s.substring_char(0, i).to_owned();
            let after = s.substring_char(i + 1, n).to_owned();
            assert(s@.subrange(0, i as int) =~= s@.take(i as int));
            assert(s@.subrange(i + 1, n as int) =~= s@.skip(i + 1));
            Some((before, after))
        },
        None => {
            proof {
                if let Some((b, a)) = split_once(s@, sep) {
                    assert(s@[b.len() as int] == sep);
                }
            }
            None
        },
    }
}

/// `s` with `suffix` removed from its end, if it ends with it.
pub fn strip_suffix(s: &str, suffix: &str) -> (r: Option<String>)
    ensures
        match (r, strip_suffix_of(s@, suffix@)) {
            (Some(stripped), Some(t)) => stripped@ == t,
            (None, None) => true,
            _ => false,
        },
{
    let n = s.unicode_len();
    let m = suffix.unicode_len();
    if m > n {
        return None;
    }
    let start = n - m;
    let mut k: usize = 0;
    while k < m
        invariant
            n == s@.len(),
            m == suffix@.len(),
            start == n - m,
            k <= m,
            forall|j: int| 0 <= j < k ==> s@[start + j] == suffix@[j],
        decreases m - k,
    {
        if s.get_char(start + k) != suffix.get_char(k) {
            assert(s@.skip(start as int)[k as int] != suffix@[k as int]);
            return None;
        }
        k = k + 1;
    }
    assert(s@.skip(start as int) =~= suffix@);
    let stripped = s.substring_char(0, start).to_owned();
    assert(s@.subrange(0, start as int) =~= s@.take(start as int));
    Some(stripped)
}

/// Whether two strings hold the same characters.
pub fn same_text(a: &String, b: &String) -> (r: bool)
    ensures
        r == (a@ == b@),
{
    String::eq(a, b)
}

} // verus!
