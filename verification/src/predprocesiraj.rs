//! Preparing the tokens of a program for the parser: comments go, and line
//! breaks that stand next to brackets, an assignment or a reserved word go
//! too, as do repeated line breaks.

use crate::besedilo::enaka;
use crate::branje_tipa::je_locilo;
use crate::lekser::Zeton;
use vstd::prelude::*;

verus! {

/// The tokens without comments, which run from `#` to the end of the line;
/// the line break stays. `znotraj` when a comment is open.
pub open spec fn brez_komentarjev(s: Seq<Zeton>, znotraj: bool) -> Seq<Zeton>
    decreases s.len(),
{
    if s.len() == 0 {
        Seq::empty()
    } else if je_locilo(s[0], "#"@) {
        brez_komentarjev(s.drop_first(), true)
    } else if je_locilo(s[0], "\n"@) {
        seq![s[0]] + brez_komentarjev(s.drop_first(), false)
    } else if !znotraj {
        seq![s[0]] + brez_komentarjev(s.drop_first(), false)
    } else {
        brez_komentarjev(s.drop_first(), true)
    }
}

/// What happens to two neighbouring tokens: 0 when the first, a line break,
/// goes (before `{`, `}`, `(`, `)`, `=`, `čene` or another line break), 1
/// when the second, a line break, goes (after `{`, `(`, `=` or a reserved
/// word), 2 when both stay.
pub open spec fn pravilo(a: Zeton, b: Zeton) -> int {
    if je_locilo(a, "\n"@) && (je_locilo(b, "{"@) || je_locilo(b, "}"@) || je_locilo(b, "("@) || je_locilo(b, ")"@)
        || je_locilo(b, "="@) || (b is Rezerviranka && b.besedilo()@ == "čene"@) || je_locilo(b, "\n"@)) {
        0
    } else if (je_locilo(a, "{"@) || je_locilo(a, "("@) || je_locilo(a, "="@) || a is Rezerviranka) && je_locilo(
        b,
        "\n"@,
    ) {
        1
    } else {
        2
    }
}

/// The tokens after the rules have been applied from index `i` on: a token
/// that goes is removed and the same place is looked at again.
pub open spec fn normaliziraj(s: Seq<Zeton>, i: int) -> Seq<Zeton>
    decreases 2 * s.len() - i,
{
    if i < 0 || i + 1 >= s.len() {
        s
    } else if pravilo(s[i], s[i + 1]) == 0 {
        normaliziraj(s.remove(i), i)
    } else if pravilo(s[i], s[i + 1]) == 1 {
        normaliziraj(s.remove(i + 1), i)
    } else {
        normaliziraj(s, i + 1)
    }
}

/// The tokens prepared for the parser.
pub open spec fn predprocesirano(s: Seq<Zeton>) -> Seq<Zeton> {
    normaliziraj(brez_komentarjev(s, false), 0)
}

fn je_locilo_z(z: &Zeton, b: &str) -> (r: bool)
    ensures
        r == je_locilo(*z, b@),
{
    match z {
        Zeton::Locilo(t, ..) => enaka(t, b),
        _ => false,
    }
}

fn pravilo_exec(a: &Zeton, b: &Zeton) -> (r: u8)
    ensures
        r as int == pravilo(*a, *b),
{
    let b_cene = match b {
        Zeton::Rezerviranka(t, ..) => enaka(t, "čene"),
        _ => false,
    };
    let a_rez = match a {
        Zeton::Rezerviranka(..) => true,
        _ => false,
    };
    if je_locilo_z(a, "\n") && (je_locilo_z(b, "{") || je_locilo_z(b, "}") || je_locilo_z(b, "(") || je_locilo_z(
        b,
        ")",
    ) || je_locilo_z(b, "=") || b_cene || je_locilo_z(b, "\n")) {
        0
    } else if (je_locilo_z(a, "{") || je_locilo_z(a, "(") || je_locilo_z(a, "=") || a_rez) && je_locilo_z(b, "\n") {
        1
    } else {
        2
    }
}

/// Removes the comments and the line breaks that the parser does not
/// expect.
pub fn predprocesiraj<'a>(izraz: Vec<Zeton<'a>>) -> (r: Vec<Zeton<'a>>)
    requires
        brez_komentarjev(izraz@, false).len() > 0,
    ensures
        r@ == predprocesirano(izraz@),
{
    let mut p: Vec<Zeton<'a>> = Vec::new();
    let mut znotraj = false;
    let mut i: usize = 0;
    assert(izraz@.subrange(0, izraz@.len() as int) =~= izraz@);
    assert(p@ + brez_komentarjev(izraz@, false) =~= brez_komentarjev(izraz@, false));
    while i < izraz.len()
        invariant
            0 <= i <= izraz@.len(),
            p@ + brez_komentarjev(izraz@.subrange(i as int, izraz@.len() as int), znotraj) == brez_komentarjev(
                izraz@,
                false,
            ),
        decreases izraz@.len() - i,
    {
        let ghost ostanek = izraz@.subrange(i as int, izraz@.len() as int);
        let ghost p0 = p@;
        assert(ostanek.drop_first() =~= izraz@.subrange(i + 1, izraz@.len() as int));
        assert(ostanek[0] == izraz@[i as int]);
        let z = izraz[i];
        if je_locilo_z(&z, "#") {
            znotraj = true;
        } else if je_locilo_z(&z, "\n") {
            znotraj = false;
            p.push(z);
            assert(p0 + (seq![z] + brez_komentarjev(ostanek.drop_first(), false)) =~= p@ + brez_komentarjev(
                ostanek.drop_first(),
                false,
            ));
        } else if !znotraj {
            p.push(z);
            assert(p0 + (seq![z] + brez_komentarjev(ostanek.drop_first(), false)) =~= p@ + brez_komentarjev(
                ostanek.drop_first(),
                false,
            ));
        }
        i = i + 1;
    }
    assert(izraz@.subrange(i as int, izraz@.len() as int) =~= Seq::<Zeton>::empty());
    assert(p@ + Seq::<Zeton>::empty() =~= p@);
    let ghost cilj = normaliziraj(p@, 0);
    let mut j: usize = 0;
    while j < p.len() - 1
        invariant
            p@.len() >= 1,
            0 <= j < p@.len(),
            normaliziraj(p@, j as int) == cilj,
        decreases 2 * p@.len() - j,
    {
        let pr = pravilo_exec(&p[j], &p[j + 1]);
        if pr == 0 {
            p.remove(j);
        } else if pr == 1 {
            p.remove(j + 1);
        } else {
            j = j + 1;
        }
    }
    p
}

/// Whether no token is the separator `#`.
pub open spec fn brez_lojtre(s: Seq<Zeton>) -> bool {
    forall|k: int| 0 <= k < s.len() ==> !je_locilo(#[trigger] s[k], "#"@)
}

/// Whether no rule applies to two neighbouring tokens.
pub open spec fn ustaljeno(s: Seq<Zeton>, do_: int) -> bool {
    forall|k: int| 0 <= k < do_ && k + 1 < s.len() ==> pravilo(#[trigger] s[k], s[k + 1]) == 2
}

proof fn lema_brez_komentarjev(s: Seq<Zeton>, znotraj: bool)
    ensures
        brez_lojtre(brez_komentarjev(s, znotraj)),
    decreases s.len(),
{
    if s.len() > 0 {
        let t = s.drop_first();
        lema_brez_komentarjev(t, true);
        lema_brez_komentarjev(t, false);
        let r = brez_komentarjev(s, znotraj);
        if !je_locilo(s[0], "#"@) && (je_locilo(s[0], "\n"@) || !znotraj) {
            assert forall|k: int| 0 <= k < r.len() implies !je_locilo(#[trigger] r[k], "#"@) by {
                if k > 0 {
                    assert(r[k] == brez_komentarjev(t, false)[k - 1]);
                }
            }
        }
    }
}

proof fn lema_normaliziraj(s: Seq<Zeton>, i: int)
    requires
        0 <= i,
        brez_lojtre(s),
        ustaljeno(s, i),
    ensures
        brez_lojtre(normaliziraj(s, i)),
        ustaljeno(normaliziraj(s, i), normaliziraj(s, i).len() as int),
    decreases 2 * s.len() - i,
{
    if i + 1 >= s.len() {
    } else if pravilo(s[i], s[i + 1]) == 0 {
        let t = s.remove(i);
        assert forall|k: int| 0 <= k < t.len() implies !je_locilo(#[trigger] t[k], "#"@) by {
            if k < i {
                assert(t[k] == s[k]);
            } else {
                assert(t[k] == s[k + 1]);
            }
        }
        assert forall|k: int| 0 <= k < i && k + 1 < t.len() implies pravilo(#[trigger] t[k], t[k + 1]) == 2 by {
            if k + 1 < i {
                assert(t[k] == s[k] && t[k + 1] == s[k + 1]);
            } else {
                assert(t[k] == s[k] && t[k + 1] == s[k + 2]);
                assert(pravilo(s[k], s[k + 1]) == 2);
            }
        }
        lema_normaliziraj(t, i);
    } else if pravilo(s[i], s[i + 1]) == 1 {
        let t = s.remove(i + 1);
        assert forall|k: int| 0 <= k < t.len() implies !je_locilo(#[trigger] t[k], "#"@) by {
            if k <= i {
                assert(t[k] == s[k]);
            } else {
                assert(t[k] == s[k + 1]);
            }
        }
        assert forall|k: int| 0 <= k < i && k + 1 < t.len() implies pravilo(#[trigger] t[k], t[k + 1]) == 2 by {
            assert(t[k] == s[k] && t[k + 1] == s[k + 1]);
        }
        lema_normaliziraj(t, i);
    } else {
        lema_normaliziraj(s, i + 1);
    }
}

/// After preparation no comment mark is left, and no rule applies to any
/// two neighbouring tokens: there is no line break next to a bracket, an
/// assignment or a reserved word, and no two line breaks in a row.
pub proof fn zakon_predprocesirano(s: Seq<Zeton>)
    ensures
        brez_lojtre(predprocesirano(s)),
        ustaljeno(predprocesirano(s), predprocesirano(s).len() as int),
{
    lema_brez_komentarjev(s, false);
    lema_normaliziraj(brez_komentarjev(s, false), 0);
}

} // verus!
