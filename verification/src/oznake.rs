//! Turning names of functions into names that an assembler or a C++
//! compiler accepts.

use crate::besedilo::{iz_znakov, znaki};
use vstd::prelude::*;

verus! {

/// The character that stands for `c` in an assembler label: `(` `)` `[`
/// `]` `@` become `8` `9` `F` `G` `V`.
pub open spec fn znak_oznake(c: char) -> char {
    if c == '(' {
        '8'
    } else if c == ')' {
        '9'
    } else if c == '[' {
        'F'
    } else if c == ']' {
        'G'
    } else if c == '@' {
        'V'
    } else {
        c
    }
}

/// The characters with each `, ` turned into `__`, taken from the left.
pub open spec fn brez_vejic(s: Seq<char>) -> Seq<char>
    decreases s.len(),
{
    if s.len() < 2 {
        s
    } else if s[0] == ',' && s[1] == ' ' {
        seq!['_', '_'] + brez_vejic(s.subrange(2, s.len() as int))
    } else {
        seq![s[0]] + brez_vejic(s.subrange(1, s.len() as int))
    }
}

/// The assembler label of the name `s`: a `.`, then the name with its
/// brackets and `@` replaced and each `, ` turned into `__`.
pub open spec fn oznaka(s: Seq<char>) -> Seq<char> {
    seq!['.'] + brez_vejic(s.map_values(|c: char| znak_oznake(c)))
}

/// The name `s` as a C++ identifier: `(`, `,` and spaces become `_`, and `)`
/// is left out.
pub open spec fn veljavno_ime(s: Seq<char>) -> Seq<char>
    decreases s.len(),
{
    if s.len() == 0 {
        s
    } else {
        let c = s.last();
        let r = veljavno_ime(s.drop_last());
        if c == ')' {
            r
        } else if c == '(' || c == ',' || c == ' ' {
            r.push('_')
        } else {
            r.push(c)
        }
    }
}

/// The assembler label of a function's name.
pub fn formatiraj_oznako(ime: &str) -> (r: String)
    ensures
        r@ == oznaka(ime@),
{
    let z = znaki(ime);
    let mut m: Vec<char> = Vec::new();
    let mut i: usize = 0;
    while i < z.len()
        invariant
            0 <= i <= z@.len(),
            m@ == z@.subrange(0, i as int).map_values(|c: char| znak_oznake(c)),
        decreases z@.len() - i,
    {
        let c = z[i];
        let d = if c == '(' {
            '8'
        } else if c == ')' {
            '9'
        } else if c == '[' {
            'F'
        } else if c == ']' {
            'G'
        } else if c == '@' {
            'V'
        } else {
            c
        };
        m.push(d);
        i = i + 1;
        assert(m@ =~= z@.subrange(0, i as int).map_values(|c: char| znak_oznake(c)));
    }
    assert(z@.subrange(0, i as int) =~= z@);
    let ghost t = m@;
    let mut r: Vec<char> = Vec::new();
    r.push('.');
    let mut j: usize = 0;
    assert(t.subrange(0, t.len() as int) =~= t);
    assert(r@ + brez_vejic(t) =~= seq!['.'] + brez_vejic(t));
    while j < m.len()
        invariant
            0 <= j <= t.len(),
            t == m@,
            r@ + brez_vejic(t.subrange(j as int, t.len() as int)) == seq!['.'] + brez_vejic(t),
        decreases t.len() - j,
    {
        let ghost u = t.subrange(j as int, t.len() as int);
        let ghost r0 = r@;
        if j + 1 < m.len() && m[j] == ',' && m[j + 1] == ' ' {
            r.push('_');
            r.push('_');
            j = j + 2;
            assert(u.subrange(2, u.len() as int) =~= t.subrange(j as int, t.len() as int));
            assert(r0 + (seq!['_', '_'] + brez_vejic(t.subrange(j as int, t.len() as int))) =~= r@ + brez_vejic(
                t.subrange(j as int, t.len() as int),
            ));
        } else if j + 1 < m.len() {
            r.push(m[j]);
            j = j + 1;
            assert(u.subrange(1, u.len() as int) =~= t.subrange(j as int, t.len() as int));
            assert(r0 + (seq![u[0]] + brez_vejic(t.subrange(j as int, t.len() as int))) =~= r@ + brez_vejic(
                t.subrange(j as int, t.len() as int),
            ));
        } else {
            r.push(m[j]);
            j = j + 1;
            assert(r0 + u =~= r@);
            assert(t.subrange(j as int, t.len() as int) =~= Seq::<char>::empty());
            assert(r@ + Seq::<char>::empty() =~= r@);
        }
    }
    assert(t.subrange(j as int, t.len() as int) =~= Seq::<char>::empty());
    assert(r@ + Seq::<char>::empty() =~= r@);
    iz_znakov(r.as_slice())
}

/// The name of a function as a C++ identifier.
pub fn v_veljavno_ime_funkcije(ime: &str) -> (r: String)
    ensures
        r@ == veljavno_ime(ime@),
{
    let z = znaki(ime);
    let mut r: Vec<char> = Vec::new();
    let mut i: usize = 0;
    while i < z.len()
        invariant
            0 <= i <= z@.len(),
            r@ == veljavno_ime(z@.subrange(0, i as int)),
        decreases z@.len() - i,
    {
        let c = z[i];
        assert(z@.subrange(0, i + 1).drop_last() =~= z@.subrange(0, i as int));
        if c == ')' {
        } else if c == '(' || c == ',' || c == ' ' {
            r.push('_');
        } else {
            r.push(c);
        }
        i = i + 1;
    }
    assert(z@.subrange(0, i as int) =~= z@);
    iz_znakov(r.as_slice())
}

} // verus!
