//! How errors are shown: a heading with the kind, the message and the place,
//! the lines of the source around the place with their numbers, and a line
//! of `^` under the marked columns.

use crate::besedilo::{desetisko, dodaj_desetisko, dodaj_znak};
use crate::napaka::{Napaka, OpisNapake, OznakaNapake};
use vstd::arithmetic::power::pow;
use vstd::prelude::*;
use vstd::string::{StrSliceExecFns, StringExecFns};

verus! {

/// The number of decimal places needed above `x`: the least `k` with
/// `10^k >= x` (zero for zero and one).
pub open spec fn log10_navzgor(x: nat) -> nat
    decreases x,
{
    if x <= 1 {
        0
    } else {
        1 + log10_navzgor(((x + 9) / 10) as nat)
    }
}

/// `log10_navzgor(x)` is the least `k` with `10^k >= x`.
pub proof fn zakon_log10(x: nat)
    ensures
        pow(10, log10_navzgor(x)) >= x,
        log10_navzgor(x) > 0 ==> pow(10, (log10_navzgor(x) - 1) as nat) < x,
    decreases x,
{
    vstd::arithmetic::power::lemma_pow0(10);
    if x > 1 {
        let y = ((x + 9) / 10) as nat;
        zakon_log10(y);
        let k = log10_navzgor(y);
        vstd::arithmetic::power::lemma_pow_adds(10, 1, k);
        vstd::arithmetic::power::lemma_pow1(10);
        assert(pow(10, k + 1) == 10 * pow(10, k));
        if k > 0 {
            vstd::arithmetic::power::lemma_pow_adds(10, 1, (k - 1) as nat);
            assert(pow(10, k) == 10 * pow(10, (k - 1) as nat));
        }
    }
}

/// The least `k` with `10^k >= x`, the width of the line numbers.
pub fn log10(x: usize) -> (r: usize)
    ensures
        r == log10_navzgor(x as nat),
{
    let mut k: usize = 0;
    let mut y: usize = x;
    while y > 1
        invariant
            k + log10_navzgor(y as nat) == log10_navzgor(x as nat),
            k + y <= x,
        decreases y,
    {
        let ghost y0 = y;
        y = y / 10 + if y % 10 == 0 {
            0usize
        } else {
            1usize
        };
        assert(y == (y0 + 9) / 10);
        k = k + 1;
    }
    k
}

/// The kind of an error as it is written.
pub open spec fn oznaka_besedilo(o: OznakaNapake) -> Seq<char> {
    match o {
        OznakaNapake::E1 => "E1"@,
        OznakaNapake::E2 => "E2"@,
        OznakaNapake::E3 => "E3"@,
        OznakaNapake::E4 => "E4"@,
        OznakaNapake::E5 => "E5"@,
        OznakaNapake::E6 => "E6"@,
        OznakaNapake::E7 => "E7"@,
        OznakaNapake::E8 => "E8"@,
        OznakaNapake::E9 => "E9"@,
    }
}

/// `n` times the character `c`.
pub open spec fn ponovi(c: char, n: nat) -> Seq<char> {
    Seq::new(n, |i: int| c)
}

/// `s` right-aligned in a field of `sirina` characters.
pub open spec fn poravnano(s: Seq<char>, sirina: nat) -> Seq<char> {
    if s.len() < sirina {
        ponovi(' ', (sirina - s.len()) as nat) + s
    } else {
        s
    }
}

/// One line of the source, with its number right-aligned to `zamik`.
pub open spec fn vrstica_izpisa(st: nat, zamik: nat, vrstica: Seq<char>) -> Seq<char> {
    poravnano(desetisko(st), zamik) + " | "@ + vrstica + "\n"@
}

/// The lines with indices `od` up to `do_`, each with its number.
pub open spec fn vrstice_izpisa(vrstice: Seq<Seq<char>>, od: int, do_: int, zamik: nat) -> Seq<char>
    decreases do_ - od,
{
    if od >= do_ {
        Seq::empty()
    } else {
        vrstice_izpisa(vrstice, od, do_ - 1, zamik) + vrstica_izpisa(do_ as nat, zamik, vrstice[do_ - 1])
    }
}

/// How the error `n` about a source with the lines `vrstice` is shown: the
/// heading; the line before the first marked line, if there is one; the
/// marked lines but the last; a line of `^` under the columns from the first
/// to the last mark; the last marked line and an empty line. Lines are
/// numbered from one, and the numbers are right-aligned to the width that
/// `log10` gives for the last number plus two.
pub open spec fn izpis_napake_spec(n: OpisNapake, vrstice: Seq<Seq<char>>) -> Seq<char> {
    let p = n.zacetek.0 as int;
    let pz = n.zacetek.1 as int;
    let z = n.konec.0 as int;
    let zz = n.konec.1 as int;
    let zamik = log10_navzgor((z + 2) as nat);
    let najmanj = if pz < zz {
        pz
    } else {
        zz
    };
    let razlika = if pz < zz {
        zz - pz
    } else {
        pz - zz
    };
    "Napaka "@ + oznaka_besedilo(n.oznaka) + ": "@ + n.sporocilo + " | "@ + n.datoteka + ":"@ + desetisko(p as nat)
        + ":"@ + desetisko(pz as nat) + "\n"@ + (if p > 1 {
        vrstica_izpisa((p - 1) as nat, zamik, vrstice[p - 2])
    } else {
        Seq::empty()
    }) + vrstice_izpisa(vrstice, p - 1, z, zamik) + ponovi(' ', zamik) + " | "@ + ponovi(' ', (najmanj - 1) as nat)
        + ponovi('^', razlika as nat) + "\n"@ + vrstica_izpisa((z + 1) as nat, zamik, vrstice[z]) + "\n"@
}

/// The word for a number of errors that ends in the digit `c`.
pub open spec fn beseda_napak(c: char) -> Seq<char> {
    if c == '1' {
        "napaka"@
    } else if c == '2' {
        "napaki"@
    } else if c == '3' || c == '4' {
        "napake"@
    } else {
        "napak"@
    }
}

/// The closing line after `st` errors.
pub open spec fn povzetek_spec(st: nat) -> Seq<char> {
    desetisko(st) + " "@ + beseda_napak(desetisko(st).last()) + ", ne morem nadaljevati\n"@
}

/// The texts of lines.
pub open spec fn besedila_vrstic(vrstice: Seq<String>) -> Seq<Seq<char>> {
    vrstice.map_values(|v: String| v@)
}

/// Appends `n` times the character `c`.
fn dodaj_ponovljeno(s: &mut String, c: char, n: usize)
    ensures
        final(s)@ == old(s)@ + ponovi(c, n as nat),
{
    let mut i: usize = 0;
    while i < n
        invariant
            0 <= i <= n,
            s@ == old(s)@ + ponovi(c, i as nat),
        decreases n - i,
    {
        dodaj_znak(s, c);
        i = i + 1;
        assert(s@ =~= old(s)@ + ponovi(c, i as nat));
    }
}

/// Appends the number `st` right-aligned to `sirina`.
fn dodaj_poravnano(s: &mut String, st: usize, sirina: usize)
    ensures
        final(s)@ == old(s)@ + poravnano(desetisko(st as nat), sirina as nat),
{
    let mut stevilka = String::new();
    dodaj_desetisko(&mut stevilka, st as u64);
    let dolzina = stevilka.as_str().unicode_len();
    if dolzina < sirina {
        dodaj_ponovljeno(s, ' ', sirina - dolzina);
    }
    s.append(stevilka.as_str());
    assert(final(s)@ =~= old(s)@ + poravnano(desetisko(st as nat), sirina as nat));
}

/// Appends one line of the source with its number.
fn dodaj_vrstico(s: &mut String, st: usize, zamik: usize, vrstica: &String)
    ensures
        final(s)@ == old(s)@ + vrstica_izpisa(st as nat, zamik as nat, vrstica@),
{
    dodaj_poravnano(s, st, zamik);
    s.append(" | ");
    s.append(vrstica.as_str());
    s.append("\n");
    assert(final(s)@ =~= old(s)@ + vrstica_izpisa(st as nat, zamik as nat, vrstica@));
}

/// How the error `napaka` is shown, given the lines of its file.
pub fn izpis_napake(napaka: &Napaka, vrstice: &[String]) -> (r: String)
    requires
        napaka.zacetek.0 >= 1,
        napaka.zacetek.1 >= 1,
        napaka.konec.1 >= 1,
        napaka.konec.0 < vrstice@.len(),
        napaka.konec.0 + 2 <= usize::MAX,
        napaka.zacetek.0 > 1 ==> napaka.zacetek.0 - 2 < vrstice@.len(),
    ensures
        r@ == izpis_napake_spec(napaka@, besedila_vrstic(vrstice@)),
{
    let ghost bv = besedila_vrstic(vrstice@);
    let (p, pz) = napaka.zacetek;
    let (z, zz) = napaka.konec;
    let zamik = log10(z + 2);
    let mut s = String::new();
    s.append("Napaka ");
    s.append(oznaka(napaka.oznaka));
    s.append(": ");
    s.append(napaka.sporocilo.as_str());
    s.append(" | ");
    s.append(napaka.datoteka.as_str());
    s.append(":");
    dodaj_desetisko(&mut s, p as u64);
    s.append(":");
    dodaj_desetisko(&mut s, pz as u64);
    s.append("\n");
    let ghost glava = s@;
    if p > 1 {
        assert(bv[p - 2] == vrstice@[p - 2]@);
        dodaj_vrstico(&mut s, p - 1, zamik, &vrstice[p - 2]);
    }
    let ghost pred = s@;
    let mut i: usize = p - 1;
    while i < z
        invariant
            p - 1 <= i,
            i <= z || i == p - 1,
            z < vrstice@.len(),
            bv == besedila_vrstic(vrstice@),
            s@ == pred + vrstice_izpisa(bv, p - 1, i as int, zamik as nat),
        decreases z - i,
    {
        assert(bv[i as int] == vrstice@[i as int]@);
        dodaj_vrstico(&mut s, i + 1, zamik, &vrstice[i]);
        i = i + 1;
        assert(s@ =~= pred + vrstice_izpisa(bv, p - 1, i as int, zamik as nat));
    }
    proof {
        if p - 1 > z {
            assert(vrstice_izpisa(bv, p - 1, z as int, zamik as nat) == vrstice_izpisa(bv, p - 1, i as int, zamik as nat));
        }
    }
    let najmanj = if pz < zz {
        pz
    } else {
        zz
    };
    let razlika = if pz < zz {
        zz - pz
    } else {
        pz - zz
    };
    dodaj_ponovljeno(&mut s, ' ', zamik);
    s.append(" | ");
    dodaj_ponovljeno(&mut s, ' ', najmanj - 1);
    dodaj_ponovljeno(&mut s, '^', razlika);
    s.append("\n");
    assert(bv[z as int] == vrstice@[z as int]@);
    dodaj_vrstico(&mut s, z + 1, zamik, &vrstice[z]);
    s.append("\n");
    assert(s@ =~= izpis_napake_spec(napaka@, bv));
    s
}

/// The kind of an error as it is written.
fn oznaka(o: OznakaNapake) -> (r: &'static str)
    ensures
        r@ == oznaka_besedilo(o),
{
    match o {
        OznakaNapake::E1 => "E1",
        OznakaNapake::E2 => "E2",
        OznakaNapake::E3 => "E3",
        OznakaNapake::E4 => "E4",
        OznakaNapake::E5 => "E5",
        OznakaNapake::E6 => "E6",
        OznakaNapake::E7 => "E7",
        OznakaNapake::E8 => "E8",
        OznakaNapake::E9 => "E9",
    }
}

/// The closing line after `st` errors: the number and the word for it,
/// chosen by the last digit.
pub fn povzetek_napak(st: usize) -> (r: String)
    ensures
        r@ == povzetek_spec(st as nat),
{
    let stevilka = crate::besedilo::v_desetisko(st as u64);
    let z = crate::besedilo::znaki(stevilka.as_str());
    let zadnji = z[z.len() - 1];
    assert(zadnji == desetisko(st as nat).last());
    let beseda = if zadnji == '1' {
        "napaka"
    } else if zadnji == '2' {
        "napaki"
    } else if zadnji == '3' || zadnji == '4' {
        "napake"
    } else {
        "napak"
    };
    let mut s = stevilka;
    s.append(" ");
    s.append(beseda);
    s.append(", ne morem nadaljevati\n");
    s
}

} // verus!
