//! Reading the escapes of a string literal back: what `interpoliraj` does
//! to a string escaped as string literals are written.

use crate::izris::ubezen_niz;
use crate::loci::{interpoliraj, zamenjaj_par};
use crate::zapis::{lema_en_znak, lema_ni_para, lema_par, ubezi};
use vstd::prelude::*;

verus! {

/// At which of the replacements of `interpoliraj` the escape of the
/// character is undone: zero for a character that is not escaped.
pub open spec fn korak_ubeza(c: char) -> int {
    if c == '\n' {
        2
    } else if c == '\t' {
        3
    } else if c == '\r' {
        4
    } else if c == '"' {
        5
    } else if c == '\'' {
        6
    } else {
        0
    }
}

/// A character after `k` replacements: still escaped, or itself.
pub open spec fn kos_po_koraku(c: char, k: int) -> Seq<char> {
    if korak_ubeza(c) > k {
        ubezi(c)
    } else {
        seq![c]
    }
}

/// An escaped string after `k` replacements.
pub open spec fn po_koraku(s: Seq<char>, k: int) -> Seq<char>
    decreases s.len(),
{
    if s.len() == 0 {
        Seq::empty()
    } else {
        po_koraku(s.drop_last(), k) + kos_po_koraku(s.last(), k)
    }
}

/// Replacing pairs in two pieces one after the other, where the first does
/// not end in the pair's first character, is replacing them in each.
proof fn lema_zamenjaj_spoji(x: Seq<char>, y: Seq<char>, a: char, b: char, c: char)
    requires
        x.len() == 0 || x.last() != a,
    ensures
        zamenjaj_par(x + y, a, b, c) == zamenjaj_par(x, a, b, c) + zamenjaj_par(y, a, b, c),
    decreases x.len(),
{
    let xy = x + y;
    if x.len() == 0 {
        assert(xy =~= y);
        assert(zamenjaj_par(x, a, b, c) =~= Seq::<char>::empty());
        assert(Seq::<char>::empty() + zamenjaj_par(y, a, b, c) =~= zamenjaj_par(y, a, b, c));
    } else if x.len() == 1 {
        assert(x[0] != a);
        if xy.len() < 2 {
            assert(y.len() == 0);
            assert(xy =~= x);
            assert(zamenjaj_par(y, a, b, c) =~= y);
            assert(x + y =~= x);
        } else {
            assert(xy[0] == x[0]);
            assert(xy.subrange(1, xy.len() as int) =~= y);
            assert(zamenjaj_par(x, a, b, c) == x);
            assert(x =~= seq![x[0]]);
        }
    } else if x[0] == a && x[1] == b {
        let r = x.subrange(2, x.len() as int);
        assert(xy.subrange(2, xy.len() as int) =~= r + y);
        lema_zamenjaj_spoji(r, y, a, b, c);
        assert(seq![c] + (zamenjaj_par(r, a, b, c) + zamenjaj_par(y, a, b, c)) =~= seq![c] + zamenjaj_par(r, a, b, c)
            + zamenjaj_par(y, a, b, c));
    } else {
        let r = x.subrange(1, x.len() as int);
        assert(xy.subrange(1, xy.len() as int) =~= r + y);
        assert(xy[0] == x[0] && xy[1] == x[1]);
        lema_zamenjaj_spoji(r, y, a, b, c);
        assert(seq![x[0]] + (zamenjaj_par(r, a, b, c) + zamenjaj_par(y, a, b, c)) =~= seq![x[0]] + zamenjaj_par(
            r,
            a,
            b,
            c,
        ) + zamenjaj_par(y, a, b, c));
    }
}

/// The pair that the `k`-th replacement of `interpoliraj` looks for and what
/// it puts in its place.
pub open spec fn par_koraka(k: int) -> (char, char) {
    if k == 1 {
        ('\\', '\\')
    } else if k == 2 {
        ('n', '\n')
    } else if k == 3 {
        ('t', '\t')
    } else if k == 4 {
        ('r', '\r')
    } else if k == 5 {
        ('"', '"')
    } else {
        ('\'', '\'')
    }
}

/// The `k`-th replacement takes each character one step further.
proof fn lema_korak_kosa(c: char, k: int)
    requires
        1 <= k <= 6,
        c != '\\',
    ensures
        zamenjaj_par(kos_po_koraku(c, k - 1), '\\', par_koraka(k).0, par_koraka(k).1) == kos_po_koraku(c, k),
        kos_po_koraku(c, k).len() > 0,
        kos_po_koraku(c, k).last() != '\\',
        kos_po_koraku(c, k - 1).len() > 0,
        kos_po_koraku(c, k - 1).last() != '\\',
{
    let (b, z) = par_koraka(k);
    if korak_ubeza(c) == k {
        lema_par('\\', b, z);
        assert(ubezi(c) =~= seq!['\\', b]);
    } else if korak_ubeza(c) > k {
        assert(ubezi(c).len() == 2);
        lema_ni_para('\\', ubezi(c)[1], '\\', b, z);
        assert(ubezi(c) =~= seq!['\\', ubezi(c)[1]]);
    } else {
        lema_en_znak(c, '\\', b, z);
    }
}

/// The `k`-th replacement takes the whole escaped string one step further.
proof fn lema_korak(s: Seq<char>, k: int)
    requires
        1 <= k <= 6,
        !s.contains('\\'),
    ensures
        zamenjaj_par(po_koraku(s, k - 1), '\\', par_koraka(k).0, par_koraka(k).1) == po_koraku(s, k),
        po_koraku(s, k - 1).len() == 0 || po_koraku(s, k - 1).last() != '\\',
    decreases s.len(),
{
    let (b, z) = par_koraka(k);
    if s.len() > 0 {
        let d = s.drop_last();
        assert(!d.contains('\\')) by {
            if d.contains('\\') {
                let i = choose|i: int| 0 <= i < d.len() && d[i] == '\\';
                assert(s[i] == '\\');
            }
        }
        assert(s[s.len() - 1] == s.last());
        lema_korak(d, k);
        lema_korak_kosa(s.last(), k);
        lema_zamenjaj_spoji(po_koraku(d, k - 1), kos_po_koraku(s.last(), k - 1), '\\', b, z);
    }
}

/// Before any replacement, the string is escaped as a whole; after all of
/// them, it is itself.
proof fn lema_robova(s: Seq<char>)
    requires
        !s.contains('\\'),
    ensures
        po_koraku(s, 0) == ubezen_niz(s),
        po_koraku(s, 6) == s,
    decreases s.len(),
{
    if s.len() > 0 {
        let d = s.drop_last();
        assert(!d.contains('\\')) by {
            if d.contains('\\') {
                let i = choose|i: int| 0 <= i < d.len() && d[i] == '\\';
                assert(s[i] == '\\');
            }
        }
        assert(s[s.len() - 1] == s.last());
        lema_robova(d);
        assert(d.push(s.last()) =~= s);
        assert(d + seq![s.last()] =~= s);
    }
}

/// Reading the escapes of a string literal undoes the escaping of a string
/// that has no backslash: `interpoliraj` of the string with each line feed,
/// tab, carriage return and quote escaped by a backslash gives the string
/// back.
pub proof fn zakon_interpolacija_ubezov(s: Seq<char>)
    requires
        !s.contains('\\'),
    ensures
        interpoliraj(ubezen_niz(s)) == s,
{
    lema_robova(s);
    lema_korak(s, 1);
    lema_korak(s, 2);
    lema_korak(s, 3);
    lema_korak(s, 4);
    lema_korak(s, 5);
    lema_korak(s, 6);
}


} // verus!
