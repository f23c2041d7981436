//! Character searches over strings, with matching executable functions.

use vstd::prelude::*;

verus! {

/// Index of the first occurrence of `c` in `s` at or after position `i`,
/// or `-1` if there is none.
pub open spec fn find_from(s: Seq<char>, c: char, i: int) -> int
    decreases s.len() - i,
{
    if i < 0 || i >= s.len() {
        -1
    } else if s[i] == c {
        i
    } else {
        find_from(s, c, i + 1)
    }
}

/// Index of the last occurrence of `c` in `s`, or `-1` if there is none.
pub open spec fn rfind(s: Seq<char>, c: char) -> int
    decreases s.len(),
{
    if s.len() == 0 {
        -1
    } else if s[s.len() - 1] == c {
        s.len() - 1
    } else {
        rfind(s.take(s.len() - 1), c)
    }
}

/// First occurrence of `c` in `s` at or after `from`, scanning forward.
pub fn find_char_from(s: &str, c: char, from: usize) -> (r: Option<usize>)
    requires
        from <= s@.len(),
    ensures
        r matches Some(i) ==> from <= i < s@.len() && i == find_from(s@, c, from as int),
        r is None ==> find_from(s@, c, from as int) == -1,
{
    let n = s.unicode_len();
    let mut i = from;
    while i < n
        invariant
            from <= i <= n,
            n == s@.len(),
            find_from(s@, c, from as int) == find_from(s@, c, i as int),
        decreases n - i,
    {
        if s.get_char(i) == c {
            return Some(i);
        }
        i = i + 1;
    }
    None
}

/// Last occurrence of `c` in `s`, scanning backward.
pub fn rfind_char(s: &str, c: char) -> (r: Option<usize>)
    ensures
        r matches Some(i) ==> i < s@.len() && i == rfind(s@, c),
        r is None ==> rfind(s@, c) == -1,
{
    let n = s.unicode_len();
    proof {
        assert(s@.take(n as int) =~= s@);
    }
    let mut i = n;
    while i > 0
        invariant
            i <= n,
            n == s@.len(),
            rfind(s@, c) == rfind(s@.take(i as int), c),
        decreases i,
    {
        if s.get_char(i - 1) == c {
            proof {
                assert(s@.take(i as int)[i - 1] == s@[i - 1]);
            }
            return Some(i - 1);
        }
        proof {
            assert(s@.take(i as int).take(i as int - 1) =~= s@.take(i as int - 1));
            assert(s@.take(i as int)[i - 1] == s@[i - 1]);
        }
        i = i - 1;
    }
    None
}

} // verus!
