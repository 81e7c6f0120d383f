use vstd::prelude::*;

verus! {

/// The code of a character's ASCII upper case; other characters keep their code.
pub open spec fn upper_code(c: char) -> u32 {
    if 97 <= (c as u32) <= 122 {
        ((c as u32) - 32) as u32
    } else {
        c as u32
    }
}

/// Whether two character sequences are equal when ASCII letters are compared
/// without regard to case.
pub open spec fn eq_ignore_case(a: Seq<char>, b: Seq<char>) -> bool {
    &&& a.len() == b.len()
    &&& forall|i: int| 0 <= i < a.len() ==> upper_code(#[trigger] a[i]) == upper_code(b[i])
}

/// The code of a character's ASCII upper case.
pub fn upper_code_of(c: char) -> (r: u32)
    ensures
        r == upper_code(c),
{
    let v = c as u32;
    if 97 <= v && v <= 122 {
        v - 32
    } else {
        v
    }
}

/// Compares two character sequences, ASCII letters without regard to case.
pub fn chars_eq_ignore_case(a: &Vec<char>, b: &Vec<char>) -> (r: bool)
    ensures
        r == eq_ignore_case(a@, b@),
{
    if a.len() != b.len() {
        return false;
    }
    let mut i: usize = 0;
    while i < a.len()
        invariant
            a.len() == b.len(),
            i <= a.len(),
            forall|j: int| 0 <= j < i ==> upper_code(#[trigger] a@[j]) == upper_code(b@[j]),
        decreases a.len() - i,
    {
        if upper_code_of(a[i]) != upper_code_of(b[i]) {
            return false;
        }
        i += 1;
    }
    true
}

/// The characters of a string slice, in order.
pub fn chars_of(s: &str) -> (r: Vec<char>)
    ensures
        r@ == s@,
{
    let mut r: Vec<char> = Vec::new();
    for c in it: s.chars()
        invariant
            r@ == it.seq().take(it.index() as int),
    {
        r.push(c);
    }
    r
}

/// Whitespace as Unicode's White_Space property gives it (what `char::is_whitespace` tests).
pub open spec fn is_space_char(c: char) -> bool {
    let v = c as u32;
    (0x09 <= v <= 0x0D) || v == 0x20 || v == 0x85 || v == 0xA0 || v == 0x1680 || (0x2000 <= v
        <= 0x200A) || v == 0x2028 || v == 0x2029 || v == 0x202F || v == 0x205F || v == 0x3000
}

/// Whether a character is whitespace.
pub fn is_space(c: char) -> (r: bool)
    ensures
        r == is_space_char(c),
{
    let v = c as u32;
    (0x09 <= v && v <= 0x0D) || v == 0x20 || v == 0x85 || v == 0xA0 || v == 0x1680 || (0x2000 <= v
        && v <= 0x200A) || v == 0x2028 || v == 0x2029 || v == 0x202F || v == 0x205F || v == 0x3000
}

/// The characters of `v` from `a` up to, not including, `b`.
pub fn chars_between(v: &Vec<char>, a: usize, b: usize) -> (r: Vec<char>)
    requires
        a <= b <= v.len(),
    ensures
        r@ == v@.subrange(a as int, b as int),
{
    let mut r: Vec<char> = Vec::new();
    let mut i: usize = a;
    while i < b
        invariant
            a <= i <= b <= v.len(),
            r@ == v@.subrange(a as int, i as int),
        decreases b - i,
    {
        r.push(v[i]);
        i += 1;
        assert(r@ =~= v@.subrange(a as int, i as int));
    }
    r
}

} // verus!
