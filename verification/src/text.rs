//! Character-level helpers for strings: their characters as a vector, and
//! the last position of a character among them.

use vstd::prelude::*;

verus! {

/// The character sequences of a list of string slices.
pub open spec fn str_views(strs: Seq<&str>) -> Seq<Seq<char>> {
    strs.map_values(|s: &str| s@)
}

/// The last position at which `c` occurs in `s`, if it occurs at all.
pub open spec fn last_position(s: Seq<char>, c: char) -> Option<int>
    decreases s.len(),
{
    if s.len() == 0 {
        None
    } else if s.last() == c {
        Some(s.len() - 1)
    } else {
        last_position(s.drop_last(), c)
    }
}

/// What follows the last occurrence of `c` in `s`; nothing where `c` does
/// not occur.
pub open spec fn after_last(s: Seq<char>, c: char) -> Option<Seq<char>> {
    match last_position(s, c) {
        Some(i) => Some(s.subrange(i + 1, s.len() as int)),
        None => None,
    }
}

/// `last_position` finds an occurrence after which `c` does not occur
/// again, and finds nothing only where `c` does not occur.
pub proof fn lemma_last_position(s: Seq<char>, c: char)
    ensures
        match last_position(s, c) {
            Some(i) => 0 <= i < s.len() && s[i] == c && forall|j: int|
                i < j < s.len() ==> s[j] != c,
            None => forall|j: int| 0 <= j < s.len() ==> s[j] != c,
        },
    decreases s.len(),
{
    if s.len() > 0 && s.last() != c {
        let front = s.drop_last();
        lemma_last_position(front, c);
        assert forall|j: int| 0 <= j < front.len() implies front[j] == s[j] by {}
        match last_position(front, c) {
            Some(i) => {
                assert forall|j: int| i < j < s.len() implies s[j] != c by {
                    if j < front.len() {
                        assert(front[j] != c);
                    }
                }
            },
            None => {
                assert forall|j: int| 0 <= j < s.len() implies s[j] != c by {
                    if j < front.len() {
                        assert(front[j] != c);
                    }
                }
            },
        }
    }
}

/// An occurrence of `c` that no later one follows is the last position.
pub proof fn lemma_last_position_is(s: Seq<char>, c: char, i: int)
    requires
        0 <= i < s.len(),
        s[i] == c,
        forall|j: int| i < j < s.len() ==> s[j] != c,
    ensures
        last_position(s, c) == Some(i),
    decreases s.len(),
{
    if s.last() != c {
        lemma_last_position_is(s.drop_last(), c, i);
    }
}

/// Where `c` occurs nowhere there is no last position.
pub proof fn lemma_last_position_none(s: Seq<char>, c: char)
    requires
        forall|j: int| 0 <= j < s.len() ==> s[j] != c,
    ensures
        last_position(s, c) is None,
    decreases s.len(),
{
    if s.len() > 0 {
        lemma_last_position_none(s.drop_last(), c);
    }
}

/// The characters of `s`, in order.
pub fn chars_of(s: &str) -> (chars: Vec<char>)
    ensures
        chars@ == s@,
{
    let mut chars: Vec<char> = Vec::new();
    for c in it: s.chars()
        invariant
            it.seq() == s@,
            chars@ == it.seq().take(it.index()),
    {
        chars.push(c);
    }
    chars
}

/// The last position of `c` among the characters from `from` on, as an
/// index into `chars`.
pub fn rfind_from(chars: &Vec<char>, from: usize, c: char) -> (found: Option<usize>)
    requires
        from <= chars.len(),
    ensures
        match found {
            Some(i) => from <= i < chars.len() && last_position(
                chars@.subrange(from as int, chars.len() as int),
                c,
            ) == Some(i - from),
            None => last_position(chars@.subrange(from as int, chars.len() as int), c) is None,
        },
{
    let ghost tail = chars@.subrange(from as int, chars.len() as int);
    let mut i: usize = chars.len();
    while i > from
        invariant
            from <= i <= chars.len(),
            tail == chars@.subrange(from as int, chars.len() as int),
            forall|j: int| i <= j < chars.len() ==> chars[j] != c,
        decreases i,
    {
        i = i - 1;
        if chars[i] == c {
            proof {
                lemma_last_position_is(tail, c, i - from);
            }
            return Some(i);
        }
    }
    proof {
        lemma_last_position_none(tail, c);
    }
    None
}

} // verus!
