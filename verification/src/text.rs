//! Character-level helpers on which the rest of the crate builds its strings.

use vstd::prelude::*;

verus! {

/// `String::push` of the standard library appends one character: the new
/// string is the old one with that character at its end.
pub assume_specification[ String::push ](s: &mut String, c: char)
    ensures
        final(s)@ == old(s)@.push(c),
;

/// The characters of `s`, in order.
pub fn chars_of(s: &str) -> (out: Vec<char>)
    ensures
        out@ == s@,
{
    let mut out: Vec<char> = Vec::new();
    for c in it: s.chars()
        invariant
            it.seq() == s@,
            out@ == s@.take(it.index() as int),
    {
        out.push(c);
        assert(s@.take(it.index() + 1) == s@.take(it.index() as int).push(c));
    }
    assert(s@.take(s@.len() as int) == s@);
    out
}

/// The string spelled by `chars`.
pub fn text_of(chars: &Vec<char>) -> (out: String)
    ensures
        out@ == chars@,
{
    let mut out = String::new();
    let mut i: usize = 0;
    while i < chars.len()
        invariant
            i <= chars.len(),
            out@ == chars@.take(i as int),
        decreases chars.len() - i,
    {
        out.push(chars[i]);
        assert(chars@.take(i + 1) == chars@.take(i as int).push(chars@[i as int]));
        i += 1;
    }
    assert(chars@.take(chars@.len() as int) == chars@);
    out
}

/// `needle` stands in `hay` at offset `at`.
pub open spec fn occurs_at(hay: Seq<char>, needle: Seq<char>, at: int) -> bool {
    &&& 0 <= at
    &&& at + needle.len() <= hay.len()
    &&& hay.subrange(at, at + needle.len()) == needle
}

/// `needle` stands somewhere in `hay` as a contiguous run of characters.
pub open spec fn contains_run(hay: Seq<char>, needle: Seq<char>) -> bool {
    exists|at: int| occurs_at(hay, needle, at)
}

/// Whether `needle` stands in `hay` at offset `at`.
pub fn matches_at(hay: &Vec<char>, needle: &Vec<char>, at: usize) -> (found: bool)
    requires
        at + needle.len() <= hay.len(),
    ensures
        found == occurs_at(hay@, needle@, at as int),
{
    let mut k: usize = 0;
    while k < needle.len()
        invariant
            k <= needle.len(),
            at + needle.len() <= hay.len(),
            forall|j: int| 0 <= j < k ==> hay@[at + j] == needle@[j],
        decreases needle.len() - k,
    {
        if hay[at + k] != needle[k] {
            proof {
                let run = hay@.subrange(at as int, at + needle.len());
                assert(run[k as int] == hay@[at + k]);
            }
            return false;
        }
        k += 1;
    }
    assert(hay@.subrange(at as int, at + needle.len()) =~= needle@);
    true
}

/// Whether `needle` stands somewhere in `hay`; the empty run stands in every
/// string.
pub fn contains(hay: &Vec<char>, needle: &Vec<char>) -> (found: bool)
    ensures
        found == contains_run(hay@, needle@),
{
    if needle.len() > hay.len() {
        return false;
    }
    let last: usize = hay.len() - needle.len();
    let mut at: usize = 0;
    loop
        invariant
            last == hay.len() - needle.len(),
            at <= last,
            forall|j: int| 0 <= j < at ==> !occurs_at(hay@, needle@, j),
        decreases last - at,
    {
        if matches_at(hay, needle, at) {
            return true;
        }
        if at == last {
            return false;
        }
        at += 1;
    }
}

/// The offset of the first `mark` in `s`, or the length of `s` where it holds
/// none.
pub open spec fn position_of(s: Seq<char>, mark: char) -> int
    decreases s.len(),
{
    if s.len() == 0 || s[0] == mark {
        0
    } else {
        1 + position_of(s.drop_first(), mark)
    }
}

/// `position_of` is the one offset with no `mark` before it that either
/// holds a `mark` or is the end of `s`.
pub proof fn position_of_is_first(s: Seq<char>, mark: char)
    ensures
        0 <= position_of(s, mark) <= s.len(),
        forall|i: int| 0 <= i < position_of(s, mark) ==> s[i] != mark,
        position_of(s, mark) < s.len() ==> s[position_of(s, mark)] == mark,
    decreases s.len(),
{
    if s.len() == 0 || s[0] == mark {
    } else {
        let rest = s.drop_first();
        position_of_is_first(rest, mark);
        assert forall|i: int| 0 <= i < position_of(s, mark) implies s[i] != mark by {
            if i > 0 {
                assert(s[i] == rest[i - 1]);
            }
        }
    }
}

/// An offset with no `mark` before it that holds one, or is the end of `s`,
/// is `position_of`.
pub proof fn first_is_position_of(s: Seq<char>, mark: char, p: int)
    requires
        0 <= p <= s.len(),
        forall|i: int| 0 <= i < p ==> s[i] != mark,
        p < s.len() ==> s[p] == mark,
    ensures
        position_of(s, mark) == p,
{
    position_of_is_first(s, mark);
    let q = position_of(s, mark);
    if q < p {
        assert(s[q] != mark);
    } else if p < q {
        assert(s[p] != mark);
    }
}

/// The offset of the first `mark` in `chars`, or their number where there is
/// none.
pub fn find(chars: &Vec<char>, mark: char) -> (at: usize)
    ensures
        at == position_of(chars@, mark),
{
    let mut at: usize = 0;
    while at < chars.len() && chars[at] != mark
        invariant
            at <= chars.len(),
            forall|i: int| 0 <= i < at ==> chars@[i] != mark,
        decreases chars.len() - at,
    {
        at += 1;
    }
    proof {
        first_is_position_of(chars@, mark, at as int);
    }
    at
}

/// The first `count` characters of `chars`.
pub fn take(chars: &Vec<char>, count: usize) -> (out: Vec<char>)
    requires
        count <= chars.len(),
    ensures
        out@ == chars@.take(count as int),
{
    let mut out: Vec<char> = Vec::new();
    let mut i: usize = 0;
    while i < count
        invariant
            i <= count <= chars.len(),
            out@ == chars@.take(i as int),
        decreases count - i,
    {
        out.push(chars[i]);
        assert(chars@.take(i + 1) == chars@.take(i as int).push(chars@[i as int]));
        i += 1;
    }
    out
}

/// A lower-case ASCII letter becomes its capital; every other character
/// stays.
pub open spec fn upper(c: char) -> char {
    if 'a' <= c <= 'z' {
        ((c as u8) - 32) as char
    } else {
        c
    }
}

/// The capital of one character, as `upper` gives it.
pub fn to_upper(c: char) -> (out: char)
    ensures
        out == upper(c),
{
    if 'a' <= c && c <= 'z' {
        let code: u8 = c as u8;
        (code - 32u8) as char
    } else {
        c
    }
}

/// `text` with every lower-case ASCII letter capitalised.
pub fn to_uppercase(text: &str) -> (out: String)
    ensures
        out@ == text@.map_values(|c: char| upper(c)),
{
    let chars = chars_of(text);
    let mut out = String::new();
    let mut i: usize = 0;
    while i < chars.len()
        invariant
            i <= chars.len(),
            chars@ == text@,
            out@ == text@.take(i as int).map_values(|c: char| upper(c)),
        decreases chars.len() - i,
    {
        out.push(to_upper(chars[i]));
        assert(text@.take(i + 1) == text@.take(i as int).push(text@[i as int]));
        assert(text@.take(i + 1).map_values(|c: char| upper(c)) =~= text@.take(
            i as int,
        ).map_values(|c: char| upper(c)).push(upper(text@[i as int])));
        i += 1;
    }
    assert(text@.take(text@.len() as int) == text@);
    out
}

/// Whether two strings spell the same characters.
pub fn same(left: &str, right: &str) -> (equal: bool)
    ensures
        equal == (left@ == right@),
{
    let a = chars_of(left);
    let b = chars_of(right);
    if a.len() != b.len() {
        return false;
    }
    let mut i: usize = 0;
    while i < a.len()
        invariant
            i <= a.len(),
            a.len() == b.len(),
            a@ == left@,
            b@ == right@,
            forall|j: int| 0 <= j < i ==> a@[j] == b@[j],
        decreases a.len() - i,
    {
        if a[i] != b[i] {
            return false;
        }
        i += 1;
    }
    assert(a@ =~= b@);
    true
}

} // verus!
