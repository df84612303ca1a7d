//! The order of names: character by character, by code point, a prefix
//! before the longer name. It is the order of `String` in std, for which the
//! UTF-8 bytes compare as the code points do.

use vstd::prelude::*;

verus! {

/// Whether name `a` comes before name `b`.
pub open spec fn manjse(a: Seq<char>, b: Seq<char>) -> bool
    decreases a.len(),
{
    if a.len() == 0 {
        b.len() > 0
    } else if b.len() == 0 {
        false
    } else if a[0] != b[0] {
        (a[0] as u32) < (b[0] as u32)
    } else {
        manjse(a.subrange(1, a.len() as int), b.subrange(1, b.len() as int))
    }
}

/// No name comes before itself.
pub proof fn lema_irefleksivno(a: Seq<char>)
    ensures
        !manjse(a, a),
    decreases a.len(),
{
    if a.len() > 0 {
        lema_irefleksivno(a.subrange(1, a.len() as int));
    }
}

/// The order is transitive.
pub proof fn lema_tranzitivno(a: Seq<char>, b: Seq<char>, c: Seq<char>)
    requires
        manjse(a, b),
        manjse(b, c),
    ensures
        manjse(a, c),
    decreases a.len(),
{
    if a.len() > 0 && b.len() > 0 && c.len() > 0 {
        if a[0] == b[0] && b[0] == c[0] {
            lema_tranzitivno(
                a.subrange(1, a.len() as int),
                b.subrange(1, b.len() as int),
                c.subrange(1, c.len() as int),
            );
        }
    }
}

/// Of two different names, one comes before the other.
pub proof fn lema_trihotomija(a: Seq<char>, b: Seq<char>)
    ensures
        a == b || manjse(a, b) || manjse(b, a),
    decreases a.len(),
{
    if a.len() > 0 && b.len() > 0 {
        if a[0] == b[0] {
            let a1 = a.subrange(1, a.len() as int);
            let b1 = b.subrange(1, b.len() as int);
            lema_trihotomija(a1, b1);
            if a1 == b1 {
                assert(a =~= seq![a[0]] + a1);
                assert(b =~= seq![b[0]] + b1);
            }
        } else {
            vstd::utf8::char_u32_cast(a[0], a[0] as u32);
            vstd::utf8::char_u32_cast(b[0], b[0] as u32);
            assert((a[0] as u32) != (b[0] as u32));
        }
    } else if a.len() == 0 && b.len() == 0 {
        assert(a =~= b);
    }
}

/// Whether name `a` comes before name `b`.
pub fn je_manjse(a: &Vec<char>, b: &Vec<char>) -> (r: bool)
    ensures
        r == manjse(a@, b@),
{
    let mut i: usize = 0;
    assert(a@.subrange(0, a@.len() as int) =~= a@);
    assert(b@.subrange(0, b@.len() as int) =~= b@);
    while i < a.len() && i < b.len()
        invariant
            0 <= i <= a@.len(),
            i <= b@.len(),
            forall|k: int| 0 <= k < i ==> a@[k] == b@[k],
            manjse(a@, b@) == manjse(a@.subrange(i as int, a@.len() as int), b@.subrange(i as int, b@.len() as int)),
        decreases a@.len() - i,
    {
        if a[i] != b[i] {
            let ghost a1 = a@.subrange(i as int, a@.len() as int);
            assert(a1[0] == a@[i as int]);
            return (a[i] as u32) < (b[i] as u32);
        }
        let ghost a1 = a@.subrange(i as int, a@.len() as int);
        let ghost b1 = b@.subrange(i as int, b@.len() as int);
        assert(a1.subrange(1, a1.len() as int) =~= a@.subrange(i + 1, a@.len() as int));
        assert(b1.subrange(1, b1.len() as int) =~= b@.subrange(i + 1, b@.len() as int));
        i = i + 1;
    }
    i < b.len()
}

} // verus!
