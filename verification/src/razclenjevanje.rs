//! The lexing loop shared by both lexers: at each position it takes the
//! first pattern of a table that matches the rest of the text, reads the
//! token from the pattern's second capture group, and keeps count of lines
//! and columns.

use crate::besedilo::znaki;
use crate::vzorec::{prevedi_vzorec, zajem, zajemi, veljaven_vzorec, Vzorec};
use vstd::prelude::*;

verus! {

/// One token found by the lexing loop: the index of the pattern that matched,
/// the character range of the token in the text, and its line and column
/// (both counted from one).
#[derive(Clone, Copy, Debug, PartialEq, Eq)]
pub struct Zadetek {
    pub vrsta: usize,
    pub od: usize,
    pub konec: usize,
    pub vrstica: usize,
    pub znak: usize,
}

impl View for Zadetek {
    type V = (int, int, int, int, int);

    open spec fn view(&self) -> (int, int, int, int, int) {
        (self.vrsta as int, self.od as int, self.konec as int, self.vrstica as int, self.znak as int)
    }
}

/// The texts of a table of compiled patterns.
pub open spec fn izvori(vzorci: Seq<Vzorec>) -> Seq<Seq<char>> {
    vzorci.map_values(|v: Vzorec| v.izvor())
}

/// Whether `regex` accepts every pattern of a table.
pub open spec fn vsi_veljavni(izvori: Seq<Seq<char>>) -> bool {
    forall|k: int| 0 <= k < izvori.len() ==> veljaven_vzorec(#[trigger] izvori[k])
}

/// The first pattern of the table, from index `k` on, that matches the text,
/// with the capture groups of its match.
pub open spec fn prvi_zadetek(vzorci: Seq<Seq<char>>, besedilo: Seq<char>, k: int) -> Option<
    (int, (int, int, int, int)),
>
    decreases vzorci.len() - k,
{
    if k < 0 || k >= vzorci.len() {
        None
    } else {
        match zajem(vzorci[k], besedilo) {
            Some(z) => Some((k, z)),
            None => prvi_zadetek(vzorci, besedilo, k + 1),
        }
    }
}

/// Whether the token in `tekst[od..konec]` is a line break found by the
/// separator pattern `locilo`.
pub open spec fn je_nova_vrstica(tekst: Seq<char>, vrsta: int, od: int, konec: int, locilo: int) -> bool {
    vrsta == locilo && konec == od + 1 && tekst[od] == '\n'
}

/// The tokens of `tekst` from character `i` on, when the lexer stands at line
/// `vrstica` and column `znak` there. Empty matches of the pattern `neznano`
/// are skipped; a match of `locilo` that is a line break moves to the next
/// line. Lexing stops where no pattern matches or the match does not move on.
pub open spec fn razcleni_od(
    vzorci: Seq<Seq<char>>,
    tekst: Seq<char>,
    i: int,
    vrstica: int,
    znak: int,
    locilo: int,
    neznano: int,
) -> Seq<(int, int, int, int, int)>
    decreases tekst.len() - i,
{
    if i < 0 || i >= tekst.len() {
        Seq::empty()
    } else {
        match prvi_zadetek(vzorci, tekst.subrange(i, tekst.len() as int), 0) {
            None => Seq::empty(),
            Some((k, (a, b, c, d))) => {
                if !(0 <= a <= b && 0 <= c <= d && 0 < d <= tekst.len() - i) {
                    Seq::empty()
                } else {
                    let zeton = (k, i + c, i + d, vrstica, znak + (b - a));
                    let (v2, z2) = if je_nova_vrstica(tekst, k, i + c, i + d, locilo) {
                        (vrstica + 1, 1)
                    } else {
                        (vrstica, znak + d)
                    };
                    let ostanek = razcleni_od(vzorci, tekst, i + d, v2, z2, locilo, neznano);
                    if k == neznano && c == d {
                        ostanek
                    } else {
                        seq![zeton] + ostanek
                    }
                }
            },
        }
    }
}

/// All tokens of `tekst`, from its start at line one, column one.
pub open spec fn razcleni_vse(vzorci: Seq<Seq<char>>, tekst: Seq<char>, locilo: int, neznano: int) -> Seq<
    (int, int, int, int, int),
> {
    razcleni_od(vzorci, tekst, 0, 1, 1, locilo, neznano)
}

/// Compiles each pattern of the table, in order; nothing when `regex`
/// refuses one of them.
pub fn prevedi_vse(izvori_vzorcev: &[&str]) -> (r: Option<Vec<Vzorec>>)
    ensures
        r is Some <==> vsi_veljavni(izvori_vzorcev@.map_values(|s: &str| s@)),
        r matches Some(v) ==> izvori(v@) == izvori_vzorcev@.map_values(|s: &str| s@),
{
    let ghost zeljeno = izvori_vzorcev@.map_values(|s: &str| s@);
    let mut v: Vec<Vzorec> = Vec::new();
    let mut i: usize = 0;
    while i < izvori_vzorcev.len()
        invariant
            0 <= i <= izvori_vzorcev@.len(),
            zeljeno == izvori_vzorcev@.map_values(|s: &str| s@),
            izvori(v@) == zeljeno.subrange(0, i as int),
            forall|k: int| 0 <= k < i ==> veljaven_vzorec(#[trigger] zeljeno[k]),
        decreases izvori_vzorcev@.len() - i,
    {
        match prevedi_vzorec(izvori_vzorcev[i]) {
            Some(p) => {
                assert(p.izvor() == zeljeno[i as int]);
                let ghost prej = v@;
                v.push(p);
                assert(v@ == prej.push(p));
                assert(izvori(v@) =~= izvori(prej).push(zeljeno[i as int]));
                assert(zeljeno.subrange(0, i + 1) =~= zeljeno.subrange(0, i as int).push(zeljeno[i as int]));
                i = i + 1;
            },
            None => {
                assert(!veljaven_vzorec(zeljeno[i as int]));
                return None;
            },
        }
    }
    assert(zeljeno.subrange(0, i as int) =~= zeljeno);
    Some(v)
}

/// Finds the first pattern of the table that matches the text.
fn najdi(vzorci: &Vec<Vzorec>, besedilo: &str) -> (r: Option<(usize, (usize, usize, usize, usize))>)
    ensures
        prvi_zadetek(izvori(vzorci@), besedilo@, 0) == (match r {
            Some((k, (a, b, c, d))) => Some((k as int, (a as int, b as int, c as int, d as int))),
            None => None,
        }),
        r matches Some((k, (a, b, c, d))) ==> k < vzorci@.len() && a <= b <= besedilo@.len() && c
            <= d <= besedilo@.len(),
{
    let ghost iz = izvori(vzorci@);
    let mut k: usize = 0;
    while k < vzorci.len()
        invariant
            0 <= k <= vzorci@.len(),
            iz == izvori(vzorci@),
            prvi_zadetek(iz, besedilo@, 0) == prvi_zadetek(iz, besedilo@, k as int),
        decreases vzorci@.len() - k,
    {
        match zajemi(&vzorci[k], besedilo) {
            Some(z) => {
                return Some((k, z));
            },
            None => {
                k = k + 1;
            },
        }
    }
    None
}

/// The token that pattern `k` finds at character `i` of the text, on line
/// `vrstica` and at column `znak`, from its match in the rest of the text
/// (the character ranges of the leading whitespace and of the token): the
/// token's range in the text, its line, and its column after the
/// whitespace.
pub fn zeton_iz_zajema(k: usize, zajem: (usize, usize, usize, usize), i: usize, vrstica: usize, znak: usize) -> (r: Zadetek)
    requires
        zajem.0 <= zajem.1,
        zajem.2 <= zajem.3,
        i + zajem.3 <= usize::MAX,
        znak + (zajem.1 - zajem.0) <= usize::MAX,
    ensures
        r.vrsta == k,
        r.od == i + zajem.2,
        r.konec == i + zajem.3,
        r.vrstica == vrstica,
        r.znak == znak + (zajem.1 - zajem.0),
{
    let (a, b, c, d) = zajem;
    Zadetek { vrsta: k, od: i + c, konec: i + d, vrstica, znak: znak + (b - a) }
}

/// The lexing loop: the tokens of `tekst` under a table of compiled patterns,
/// where `locilo` is the pattern of separators, whose line breaks start a new
/// line, and `neznano` the pattern whose empty matches are left out.
pub fn razcleni_z_vzorci(vzorci: &Vec<Vzorec>, tekst: &str, locilo: usize, neznano: usize) -> (r: Vec<
    Zadetek,
>)
    requires
        tekst@.len() < usize::MAX,
    ensures
        r@.map_values(|z: Zadetek| z@) == razcleni_vse(izvori(vzorci@), tekst@, locilo as int, neznano as int),
        forall|j: int| 0 <= j < r@.len() ==> (#[trigger] r@[j]).vrsta < vzorci@.len() && r@[j].od <= r@[j].konec <= tekst@.len(),
{
    let ghost iz = izvori(vzorci@);
    let ghost t = tekst@;
    let zn = znaki(tekst);
    let n = zn.len();
    let mut r: Vec<Zadetek> = Vec::new();
    let mut i: usize = 0;
    let mut vrstica: usize = 1;
    let mut znak: usize = 1;
    while i < n
        invariant
            n == t.len(),
            zn@ == t,
            t == tekst@,
            iz == izvori(vzorci@),
            t.len() < usize::MAX,
            0 <= i <= n,
            1 <= vrstica <= i + 1,
            1 <= znak <= i + 1,
            r@.map_values(|z: Zadetek| z@) + razcleni_od(iz, t, i as int, vrstica as int, znak as int, locilo as int, neznano as int)
                == razcleni_vse(iz, t, locilo as int, neznano as int),
            forall|j: int| 0 <= j < r@.len() ==> (#[trigger] r@[j]).vrsta < vzorci@.len() && r@[j].od <= r@[j].konec <= t.len(),
        ensures
            razcleni_od(iz, t, i as int, vrstica as int, znak as int, locilo as int, neznano as int) == Seq::<(int, int, int, int, int)>::empty(),
        decreases n - i,
    {
        let ostanek = tekst.substring_char(i, n);
        assert(ostanek@ == t.subrange(i as int, t.len() as int));
        let najdeno = najdi(vzorci, ostanek);
        match najdeno {
            None => {
                assert(razcleni_od(iz, t, i as int, vrstica as int, znak as int, locilo as int, neznano as int) =~= Seq::empty());
                break;
            },
            Some((k, (a, b, c, d))) => {
                if d == 0 {
                    assert(razcleni_od(iz, t, i as int, vrstica as int, znak as int, locilo as int, neznano as int) =~= Seq::empty());
                    break;
                }
                let ghost pred = r@.map_values(|z: Zadetek| z@);
                let ghost v0 = vrstica as int;
                let ghost z0 = znak as int;
                let ghost i0 = i as int;
                let zeton = zeton_iz_zajema(k, (a, b, c, d), i, vrstica, znak);
                let preskoci = k == neznano && c == d;
                if !preskoci {
                    r.push(zeton);
                }
                if k == locilo && d == c + 1 && zn[i + c] == '\n' {
                    vrstica = vrstica + 1;
                    znak = 1;
                } else {
                    znak = znak + d;
                }
                i = i + d;
                proof {
                    let ostalo = razcleni_od(iz, t, i as int, vrstica as int, znak as int, locilo as int, neznano as int);
                    assert(razcleni_od(iz, t, i0, v0, z0, locilo as int, neznano as int) == if preskoci {
                        ostalo
                    } else {
                        seq![zeton@] + ostalo
                    });
                    if preskoci {
                        assert(r@.map_values(|z: Zadetek| z@) == pred);
                    } else {
                        assert(r@.map_values(|z: Zadetek| z@) =~= pred.push(zeton@));
                        assert(pred.push(zeton@) + ostalo =~= pred + (seq![zeton@] + ostalo));
                    }
                }
            },
        }
    }
    proof {
        assert(r@.map_values(|z: Zadetek| z@) + Seq::empty() =~= r@.map_values(|z: Zadetek| z@));
    }
    r
}

/// Whether the tokens lie in `tekst` from character `i` on, each range
/// within the text, in the order of the text and without overlap, on lines
/// that do not go back.
pub open spec fn po_vrsti(s: Seq<(int, int, int, int, int)>, tekst: Seq<char>, i: int, vrstica: int) -> bool {
    &&& forall|j: int| 0 <= j < s.len() ==> i <= (#[trigger] s[j]).1 <= s[j].2 <= tekst.len()
    &&& forall|j: int, l: int| 0 <= j < l < s.len() ==> (#[trigger] s[j]).2 <= (#[trigger] s[l]).1
    &&& forall|j: int| 0 <= j < s.len() ==> vrstica <= (#[trigger] s[j]).3
    &&& forall|j: int, l: int| 0 <= j < l < s.len() ==> (#[trigger] s[j]).3 <= (#[trigger] s[l]).3
}

/// The tokens from character `i` on lie in the text in order.
pub proof fn lema_po_vrsti(
    vzorci: Seq<Seq<char>>,
    tekst: Seq<char>,
    i: int,
    vrstica: int,
    znak: int,
    locilo: int,
    neznano: int,
)
    requires
        0 <= i,
    ensures
        po_vrsti(razcleni_od(vzorci, tekst, i, vrstica, znak, locilo, neznano), tekst, i, vrstica),
    decreases tekst.len() - i,
{
    if 0 <= i < tekst.len() {
        match prvi_zadetek(vzorci, tekst.subrange(i, tekst.len() as int), 0) {
            None => {},
            Some((k, (a, b, c, d))) => {
                if 0 <= a <= b && 0 <= c <= d && 0 < d <= tekst.len() - i {
                    let (v2, z2) = if je_nova_vrstica(tekst, k, i + c, i + d, locilo) {
                        (vrstica + 1, 1)
                    } else {
                        (vrstica, znak + d)
                    };
                    lema_po_vrsti(vzorci, tekst, i + d, v2, z2, locilo, neznano);
                    let ostanek = razcleni_od(vzorci, tekst, i + d, v2, z2, locilo, neznano);
                    let zeton = (k, i + c, i + d, vrstica, znak + (b - a));
                    if !(k == neznano && c == d) {
                        let vse = seq![zeton] + ostanek;
                        assert forall|j: int, l: int| 0 <= j < l < vse.len() implies (#[trigger] vse[j]).2 <= (
                        #[trigger] vse[l]).1 by {
                            if j > 0 {
                                assert(vse[j] == ostanek[j - 1]);
                            }
                            assert(vse[l] == ostanek[l - 1]);
                        }
                        assert forall|j: int, l: int| 0 <= j < l < vse.len() implies (#[trigger] vse[j]).3 <= (
                        #[trigger] vse[l]).3 by {
                            if j > 0 {
                                assert(vse[j] == ostanek[j - 1]);
                            }
                            assert(vse[l] == ostanek[l - 1]);
                        }
                        assert forall|j: int| 0 <= j < vse.len() implies i <= (#[trigger] vse[j]).1 <= vse[j].2
                            <= tekst.len() && vrstica <= vse[j].3 by {
                            if j > 0 {
                                assert(vse[j] == ostanek[j - 1]);
                            }
                        }
                    }
                }
            },
        }
    }
}

} // verus!
