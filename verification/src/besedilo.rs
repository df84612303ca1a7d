//! Small verified helpers on strings.

use vstd::prelude::*;

verus! {

broadcast use vstd::utf8::encode_utf8_decode_utf8;

/// Whether two strings hold the same characters.
pub fn enaka(a: &str, b: &str) -> (r: bool)
    ensures
        r == (a@ == b@),
{
    let ba = a.as_bytes();
    let bb = b.as_bytes();
    proof {
        assert(vstd::utf8::decode_utf8(ba@) == a@);
        assert(vstd::utf8::decode_utf8(bb@) == b@);
        assert(ba@ == vstd::utf8::encode_utf8(a@));
        assert(bb@ == vstd::utf8::encode_utf8(b@));
    }
    if ba.len() != bb.len() {
        return false;
    }
    let mut i: usize = 0;
    while i < ba.len()
        invariant
            ba.len() == bb.len(),
            ba@ == vstd::utf8::encode_utf8(a@),
            bb@ == vstd::utf8::encode_utf8(b@),
            0 <= i <= ba.len(),
            forall|j: int| 0 <= j < i ==> ba@[j] == bb@[j],
        decreases ba.len() - i,
    {
        if ba[i] != bb[i] {
            assert(ba@[i as int] != bb@[i as int]);
            return false;
        }
        i = i + 1;
    }
    proof {
        assert(ba@ =~= bb@);
    }
    true
}

} // verus!

verus! {

/// The characters of a string, in order.
pub fn znaki(s: &str) -> (r: Vec<char>)
    ensures
        r@ == s@,
{
    let mut v: Vec<char> = Vec::new();
    for c in it: s.chars()
        invariant
            v@ == it.seq().take(it.index() as int),
    {
        v.push(c);
    }
    v
}

} // verus!

verus! {

/// `String::push` of std, which appends one character to the string.
#[verifier::external_body]
pub(crate) fn dodaj_znak(s: &mut String, c: char)
    ensures
        final(s)@ == old(s)@.push(c),
{
    s.push(c);
}

/// `char::from_u32` of std, which gives the character whose scalar value is
/// `x`, and `None` where no character has that value.
#[verifier::external_body]
pub(crate) fn znak_iz_stevila(x: u32) -> (r: Option<char>)
    ensures
        r is Some <==> (x <= 0xd7ff || 0xe000 <= x <= 0x10ffff),
        r matches Some(c) ==> c == x as char,
{
    char::from_u32(x)
}

/// A string that holds the given characters.
pub fn iz_znakov(v: &[char]) -> (r: String)
    ensures
        r@ == v@,
{
    let mut s = String::new();
    let mut i: usize = 0;
    while i < v.len()
        invariant
            0 <= i <= v@.len(),
            s@ == v@.subrange(0, i as int),
        decreases v@.len() - i,
    {
        dodaj_znak(&mut s, v[i]);
        i = i + 1;
        assert(s@ =~= v@.subrange(0, i as int));
    }
    assert(v@.subrange(0, v@.len() as int) =~= v@);
    s
}

/// The decimal digit for a value below ten.
pub open spec fn stevka(d: nat) -> char {
    (48 + d) as char
}

/// The decimal notation of a natural number, without leading zeros.
pub open spec fn desetisko(n: nat) -> Seq<char>
    decreases n,
{
    if n < 10 {
        seq![stevka(n)]
    } else {
        desetisko(n / 10).push(stevka(n % 10))
    }
}

/// The decimal notation of an integer, with a minus sign before a negative one.
pub open spec fn desetisko_celo(n: int) -> Seq<char> {
    if n < 0 {
        seq!['-'] + desetisko((-n) as nat)
    } else {
        desetisko(n as nat)
    }
}

/// Appends the decimal notation of `n` to `s`.
pub fn dodaj_desetisko(s: &mut String, n: u64)
    ensures
        final(s)@ == old(s)@ + desetisko(n as nat),
    decreases n,
{
    if n >= 10 {
        dodaj_desetisko(s, n / 10);
    }
    let d = (n % 10) as u8;
    let c = (48u8 + d) as char;
    dodaj_znak(s, c);
    proof {
        assert(c == stevka((n % 10) as nat));
    }
}

/// The decimal notation of `n`.
pub fn v_desetisko(n: u64) -> (r: String)
    ensures
        r@ == desetisko(n as nat),
{
    let mut s = String::new();
    dodaj_desetisko(&mut s, n);
    assert(s@ =~= desetisko(n as nat));
    s
}

/// Appends the decimal notation of a signed `n` to `s`.
pub fn dodaj_desetisko_celo(s: &mut String, n: i64)
    ensures
        final(s)@ == old(s)@ + desetisko_celo(n as int),
{
    if n < 0 {
        dodaj_znak(s, '-');
        let m: u64 = if n == i64::MIN { 9223372036854775808u64 } else { (-n) as u64 };
        dodaj_desetisko(s, m);
        assert(final(s)@ =~= old(s)@ + desetisko_celo(n as int));
    } else {
        dodaj_desetisko(s, n as u64);
    }
}

/// Whether the characters `a` begin with the characters `p`.
pub open spec fn zacne(a: Seq<char>, p: Seq<char>) -> bool {
    p.len() <= a.len() && a.subrange(0, p.len() as int) == p
}

/// Whether two character sequences are equal.
pub fn enaki_znaki(a: &[char], b: &[char]) -> (r: bool)
    ensures
        r == (a@ == b@),
{
    if a.len() != b.len() {
        return false;
    }
    let mut i: usize = 0;
    while i < a.len()
        invariant
            a@.len() == b@.len(),
            0 <= i <= a@.len(),
            forall|j: int| 0 <= j < i ==> a@[j] == b@[j],
        decreases a@.len() - i,
    {
        if a[i] != b[i] {
            return false;
        }
        i = i + 1;
    }
    assert(a@ =~= b@);
    true
}

/// Whether the characters `a` begin with the characters `p`.
pub fn zacne_z(a: &[char], p: &[char]) -> (r: bool)
    ensures
        r == zacne(a@, p@),
{
    if p.len() > a.len() {
        return false;
    }
    let mut i: usize = 0;
    while i < p.len()
        invariant
            p@.len() <= a@.len(),
            0 <= i <= p@.len(),
            forall|j: int| 0 <= j < i ==> a@[j] == p@[j],
        decreases p@.len() - i,
    {
        if a[i] != p[i] {
            assert(a@.subrange(0, p@.len() as int)[i as int] != p@[i as int]);
            return false;
        }
        i = i + 1;
    }
    assert(a@.subrange(0, p@.len() as int) =~= p@);
    true
}

/// Appends the characters `b` to `a`.
pub fn pripni(a: &mut Vec<char>, b: &[char])
    ensures
        final(a)@ == old(a)@ + b@,
{
    let mut i: usize = 0;
    while i < b.len()
        invariant
            0 <= i <= b@.len(),
            a@ == old(a)@ + b@.subrange(0, i as int),
        decreases b@.len() - i,
    {
        a.push(b[i]);
        i = i + 1;
        assert(a@ =~= old(a)@ + b@.subrange(0, i as int));
    }
    assert(b@.subrange(0, b@.len() as int) =~= b@);
}

} // verus!
