use vstd::prelude::*;

verus! {

/// `String::push` of the standard library appends the character `c` to
/// the end of `s` and changes nothing else. This is taken from its
/// documentation, not proved.
pub assume_specification[ String::push ](s: &mut String, c: char)
    ensures
        final(s)@ == old(s)@.push(c),
;

/// The characters of `s`, in order.
pub fn chars_of(s: &str) -> (v: Vec<char>)
    ensures
        v@ == s@,
{
    broadcast use vstd::string::axiom_spec_iter;
    let mut v: Vec<char> = Vec::new();
    let chars = s.chars();
    for c in it: chars
        invariant
            it.seq() == s@,
            v@ == s@.take(it.index()),
    {
        v.push(c);
    }
    v
}

/// The string made of `chars`, in order.
pub fn string_of(chars: &Vec<char>) -> (s: String)
    ensures
        s@ == chars@,
{
    let mut s = String::new();
    let mut i: usize = 0;
    while i < chars.len()
        invariant
            i <= chars.len(),
            s@ == chars@.take(i as int),
        decreases chars.len() - i,
    {
        s.push(chars[i]);
        i = i + 1;
    }
    s
}

/// The string made of the characters of `chars` from `from` up to, not
/// including, `to`.
pub fn string_of_range(chars: &Vec<char>, from: usize, to: usize) -> (s: String)
    requires
        from <= to <= chars.len(),
    ensures
        s@ == chars@.subrange(from as int, to as int),
{
    let mut s = String::new();
    let mut i: usize = from;
    while i < to
        invariant
            from <= i <= to <= chars.len(),
            s@ == chars@.subrange(from as int, i as int),
        decreases to - i,
    {
        s.push(chars[i]);
        i = i + 1;
    }
    s
}

/// The first position at or after `from` at which `chars` holds `wanted`,
/// or the length of `chars` where there is none.
pub fn find_char(chars: &Vec<char>, wanted: char, from: usize) -> (at: usize)
    requires
        from <= chars.len(),
    ensures
        from <= at <= chars.len(),
        at < chars.len() ==> chars@[at as int] == wanted,
        forall|k: int| from <= k < at ==> chars@[k] != wanted,
{
    let mut at: usize = from;
    while at < chars.len() && chars[at] != wanted
        invariant
            from <= at <= chars.len(),
            forall|k: int| from <= k < at ==> chars@[k] != wanted,
        decreases chars.len() - at,
    {
        at = at + 1;
    }
    at
}

/// Whether `a` and `b` hold the same characters.
pub fn same_text(a: &str, b: &str) -> (same: bool)
    ensures
        same == (a@ == b@),
{
    let left = chars_of(a);
    let right = chars_of(b);
    if left.len() != right.len() {
        return false;
    }
    let mut i: usize = 0;
    while i < left.len()
        invariant
            i <= left.len(),
            left.len() == right.len(),
            left@ == a@,
            right@ == b@,
            forall|k: int| 0 <= k < i ==> left@[k] == right@[k],
        decreases left.len() - i,
    {
        if left[i] != right[i] {
            return false;
        }
        i = i + 1;
    }
    assert(a@ =~= b@);
    true
}

} // verus!
