//! Character-level helpers shared by the parsers and formatters.
use vstd::prelude::*;
use vstd::std_specs::iter::IteratorSpec;

verus! {

/// `String::push` appends one character to the end of the string.
pub assume_specification[ String::push ](s: &mut String, ch: char)
    ensures
        final(s)@ == old(s)@.push(ch),
;

/// The characters of a string slice, in order.
pub fn chars_of(s: &str) -> (v: Vec<char>)
    ensures
        v@ == s@,
{
    let mut v: Vec<char> = Vec::new();
    for c in it: s.chars()
        invariant
            v@ == it.seq().take(it.index() as int),
    {
        v.push(c);
    }
    v
}

/// `v` holds exactly the characters of `key`.
pub fn chars_equal(v: &Vec<char>, key: &str) -> (r: bool)
    ensures
        r == (v@ == key@),
{
    let k = chars_of(key);
    if v.len() != k.len() {
        return false;
    }
    let mut i: usize = 0;
    while i < v.len()
        invariant
            v@.len() == k@.len(),
            k@ == key@,
            i <= v@.len(),
            forall|j: int| 0 <= j < i ==> v@[j] == k@[j],
        decreases v@.len() - i,
    {
        if v[i] != k[i] {
            return false;
        }
        i = i + 1;
    }
    assert(v@ =~= k@);
    true
}

/// Two strings hold the same characters.
pub fn str_equal(a: &str, b: &str) -> (r: bool)
    ensures
        r == (a@ == b@),
{
    let v = chars_of(a);
    chars_equal(&v, b)
}

} // verus!
