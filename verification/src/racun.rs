//! Evaluating a constant expression of the syntax tree ahead of time.
//!
//! Whole numbers, truth values and characters are folded here. An
//! operation on real numbers is done by the caller: the caller hands over a
//! table of operations it has already done, and where the table lacks the
//! one that is needed, the evaluation stops and names it, so that the caller
//! can do it, add it to the table and evaluate again.

use crate::besedilo::{desetisko_celo, dodaj_desetisko_celo, znak_iz_stevila};
use crate::lekser::Zeton;
use crate::napaka::{napaka_iz, vsi_v_mejah, Napake, OpisNapake, OznakaNapake};
use crate::tip::{prikaz, TipV};
use crate::vozlisce::{tip_vozlisca, Vozlisce};
use crate::zazeni::{deli_i32, deli_ovito, ostanek_i32, ostanek_ovito, potenca_ovito, potenciraj_ovito};
use vstd::wrapping::i32_specs::{wrapping_add, wrapping_mul, wrapping_sub};
use vstd::prelude::*;

verus! {

/// An operation on real numbers that the caller does.
#[derive(Debug, Clone, Copy, PartialEq, Eq, Structural)]
pub enum RealnaOperacija {
    Vsota,
    Razlika,
    Zmnozek,
    Kolicnik,
    Ostanek,
    Potenca,
    Enako,
    NiEnako,
    Vecje,
    VecjeEnako,
    Manjse,
    ManjseEnako,
    /// A whole number, given by the bits of the `i32`, made real.
    IzCelega,
    /// A real number made whole; the result is the bits of the `i32`.
    VCelo,
}

/// The value of a constant.
pub ghost enum Konstanta {
    Celo(i32),
    Real(u32),
    Znak(char),
    Niz(Seq<char>),
    Logicna(bool),
    Druga,
}

/// The constant that a node is, `Druga` for a node that is none.
pub open spec fn konstanta(v: Vozlisce) -> Konstanta {
    match v {
        Vozlisce::Celo(n) => Konstanta::Celo(n),
        Vozlisce::Real(b) => Konstanta::Real(b),
        Vozlisce::Znak(c) => Konstanta::Znak(c),
        Vozlisce::Niz(s) => Konstanta::Niz(s@),
        Vozlisce::Resnica => Konstanta::Logicna(true),
        Vozlisce::Laz => Konstanta::Logicna(false),
        _ => Konstanta::Druga,
    }
}

/// What an evaluation gives: a constant, the errors that stop it, or the
/// operation on real numbers (with the bits of its operands) that the caller
/// has to do first.
pub enum Izid {
    Vrednost(Vozlisce),
    Napaka(Napake),
    Realno(RealnaOperacija, u32, u32),
}

/// The value of what an evaluation gives.
pub ghost enum IzidV {
    Vrednost(Konstanta),
    Napaka(Seq<OpisNapake>),
    Realno(RealnaOperacija, u32, u32),
}

impl View for Izid {
    type V = IzidV;

    open spec fn view(&self) -> IzidV {
        match self {
            Izid::Vrednost(v) => IzidV::Vrednost(konstanta(*v)),
            Izid::Napaka(n) => IzidV::Napaka(n@),
            Izid::Realno(o, a, b) => IzidV::Realno(*o, *a, *b),
        }
    }
}

/// The value of an evaluation, where it has one.
pub open spec fn pogled_izida(r: Option<Izid>) -> Option<IzidV> {
    match r {
        Some(i) => Some(i@),
        None => None,
    }
}

/// The result that the table gives for the operation on the operands: that of
/// the first entry with them, `None` where no entry has them.
pub open spec fn rezultat_realne(
    t: Seq<(RealnaOperacija, u32, u32, u32)>,
    o: RealnaOperacija,
    a: u32,
    b: u32,
) -> Option<u32>
    decreases t.len(),
{
    if t.len() == 0 {
        None
    } else if t[0].0 == o && t[0].1 == a && t[0].2 == b {
        Some(t[0].3)
    } else {
        rezultat_realne(t.drop_first(), o, a, b)
    }
}

/// The constant for the result `r` of an operation on real numbers: a truth
/// value for a comparison (`r` not zero is true), a whole number for `VCelo`,
/// and a real number otherwise.
pub open spec fn konstanta_realne(o: RealnaOperacija, r: u32) -> Konstanta {
    match o {
        RealnaOperacija::Enako | RealnaOperacija::NiEnako | RealnaOperacija::Vecje
        | RealnaOperacija::VecjeEnako | RealnaOperacija::Manjse
        | RealnaOperacija::ManjseEnako => Konstanta::Logicna(r != 0),
        RealnaOperacija::VCelo => Konstanta::Celo(r as i32),
        _ => Konstanta::Real(r),
    }
}

/// An operation on real numbers: its result from the table, or the request
/// to do it.
pub open spec fn realna(t: Seq<(RealnaOperacija, u32, u32, u32)>, o: RealnaOperacija, a: u32, b: u32) -> IzidV {
    match rezultat_realne(t, o, a, b) {
        Some(r) => IzidV::Vrednost(konstanta_realne(o, r)),
        None => IzidV::Realno(o, a, b),
    }
}

/// An error of kind `E2` with the message about the tokens `izraz`; `None`
/// where there are no tokens to mark.
pub open spec fn napaka(izraz: Seq<Zeton>, sporocilo: Seq<char>) -> Option<IzidV> {
    if izraz.len() > 0 {
        Some(IzidV::Napaka(seq![napaka_iz(izraz, OznakaNapake::E2, sporocilo)]))
    } else {
        None
    }
}

/// Whether a value lies in `i32`.
pub open spec fn v_i32(x: int) -> bool {
    i32::MIN <= x <= i32::MAX
}

/// A whole number, where it lies in `i32`.
pub open spec fn celo_ce(x: int) -> Option<IzidV> {
    if v_i32(x) {
        Some(IzidV::Vrednost(Konstanta::Celo(x as i32)))
    } else {
        None
    }
}

/// A truth value.
pub open spec fn logicna(b: bool) -> Option<IzidV> {
    Some(IzidV::Vrednost(Konstanta::Logicna(b)))
}

/// The operation of the node `v` on the values `x` and `y` of its operands:
/// on whole numbers it is done here (a sum, difference, product or power
/// wraps at the bounds of `i32`, as the machine's instructions do; `None`
/// where a divisor is zero, the least number is divided by -1, or a shift is
/// not below 32), on real numbers it goes through the
/// table, on truth values it is the logical operation. `None` for operands
/// of other kinds.
pub open spec fn operacija(
    v: Vozlisce,
    x: Konstanta,
    y: Konstanta,
    t: Seq<(RealnaOperacija, u32, u32, u32)>,
) -> Option<IzidV> {
    match (x, y) {
        (Konstanta::Celo(l), Konstanta::Celo(m)) => match v {
            Vozlisce::Add(..) => celo_ce(wrapping_add(l, m) as int),
            Vozlisce::Sub(..) => celo_ce(wrapping_sub(l, m) as int),
            Vozlisce::Mul(..) => celo_ce(wrapping_mul(l, m) as int),
            Vozlisce::Div(..) => if m == 0 || (l == i32::MIN && m == -1) {
                None
            } else {
                celo_ce(deli_ovito(l, m) as int)
            },
            Vozlisce::Mod(..) => if m == 0 || (l == i32::MIN && m == -1) {
                None
            } else {
                celo_ce(ostanek_ovito(l, m) as int)
            },
            Vozlisce::Pow(..) => celo_ce(potenca_ovito(l, m as u32) as int),
            Vozlisce::BitniAli(..) => celo_ce((l | m) as int),
            Vozlisce::BitniXor(..) => celo_ce((l ^ m) as int),
            Vozlisce::BitniIn(..) => celo_ce((l & m) as int),
            Vozlisce::BitniPremikLevo(..) => if 0 <= m < 32 {
                celo_ce((l << (m as u32)) as int)
            } else {
                None
            },
            Vozlisce::BitniPremikDesno(..) => if 0 <= m < 32 {
                celo_ce((l >> (m as u32)) as int)
            } else {
                None
            },
            Vozlisce::Enako(..) => logicna(l == m),
            Vozlisce::NiEnako(..) => logicna(l != m),
            Vozlisce::Vecje(..) => logicna(l > m),
            Vozlisce::VecjeEnako(..) => logicna(l >= m),
            Vozlisce::Manjse(..) => logicna(l < m),
            Vozlisce::ManjseEnako(..) => logicna(l <= m),
            _ => None,
        },
        (Konstanta::Real(p), Konstanta::Real(q)) => match v {
            Vozlisce::Add(..) => Some(realna(t, RealnaOperacija::Vsota, p, q)),
            Vozlisce::Sub(..) => Some(realna(t, RealnaOperacija::Razlika, p, q)),
            Vozlisce::Mul(..) => Some(realna(t, RealnaOperacija::Zmnozek, p, q)),
            Vozlisce::Div(..) => Some(realna(t, RealnaOperacija::Kolicnik, p, q)),
            Vozlisce::Mod(..) => Some(realna(t, RealnaOperacija::Ostanek, p, q)),
            Vozlisce::Pow(..) => Some(realna(t, RealnaOperacija::Potenca, p, q)),
            Vozlisce::Enako(..) => Some(realna(t, RealnaOperacija::Enako, p, q)),
            Vozlisce::NiEnako(..) => Some(realna(t, RealnaOperacija::NiEnako, p, q)),
            Vozlisce::Vecje(..) => Some(realna(t, RealnaOperacija::Vecje, p, q)),
            Vozlisce::VecjeEnako(..) => Some(realna(t, RealnaOperacija::VecjeEnako, p, q)),
            Vozlisce::Manjse(..) => Some(realna(t, RealnaOperacija::Manjse, p, q)),
            Vozlisce::ManjseEnako(..) => Some(realna(t, RealnaOperacija::ManjseEnako, p, q)),
            _ => None,
        },
        (Konstanta::Logicna(a), Konstanta::Logicna(b)) => match v {
            Vozlisce::Konjunkcija(..) => logicna(a && b),
            Vozlisce::Disjunkcija(..) => logicna(a || b),
            _ => None,
        },
        _ => None,
    }
}

/// A node with two operands: the left one is evaluated first, and what
/// stops it (an error, a request, or `None`) stops the node; then the right
/// one likewise; then the operation.
pub open spec fn dvojno(
    v: Vozlisce,
    a: Option<IzidV>,
    b: Option<IzidV>,
    t: Seq<(RealnaOperacija, u32, u32, u32)>,
) -> Option<IzidV> {
    match a {
        Some(IzidV::Vrednost(x)) => match b {
            Some(IzidV::Vrednost(y)) => operacija(v, x, y, t),
            _ => b,
        },
        _ => a,
    }
}

/// The message for a value that a variable has only at run time.
pub open spec fn sporocilo_spremenljivke(ime: Seq<char>, tip: TipV) -> Seq<char> {
    "Vrednost spremenljivke "@ + ime + ": "@ + prikaz(tip) + " ni znana vnaprej."@
}

/// The message for the length of an array known only at run time.
pub open spec fn sporocilo_dolzine(ime: Seq<char>, tip: TipV) -> Seq<char> {
    "Dolžina seznama "@ + ime + ": "@ + prikaz(tip) + " ni znana vnaprej."@
}

/// The message for a number that is no character.
pub open spec fn sporocilo_znaka(n: i32) -> Seq<char> {
    "Ne morem pretovriti št. "@ + desetisko_celo(n as int) + " v znak."@
}

/// The value of a constant expression, with the errors about the tokens
/// `izraz` and the operations on real numbers from the table `t`:
/// - a literal is its value;
/// - a variable is the error that its value is not known ahead of time;
/// - a reference, a dereference and an index are the value of what they
///   refer to (of the array, for an index);
/// - the length of an array is its length, and of a reference to an array
///   the error that it is not known ahead of time;
/// - an operation is `dvojno` of its operands;
/// - a conversion of a whole number to a character is the character, or the
///   error that the number is none (where `izraz` is empty, the error cannot
///   be made even when the conversion succeeds, and the result is `None`);
///   a character made whole is its scalar value; a conversion between whole
///   and real numbers goes through the table;
/// - a negation of a truth value is its opposite.
/// `None` for another node, for operands of the wrong kind, where a divisor
/// is zero or the least number is divided by -1, where a shift is not below
/// 32, and where an error has no tokens to mark.
pub open spec fn izracun(v: Vozlisce, izraz: Seq<Zeton>, t: Seq<(RealnaOperacija, u32, u32, u32)>) -> Option<IzidV>
    decreases v,
{
    match v {
        Vozlisce::Celo(_) | Vozlisce::Real(_) | Vozlisce::Znak(_) | Vozlisce::Niz(_)
        | Vozlisce::Resnica | Vozlisce::Laz => Some(IzidV::Vrednost(konstanta(v))),
        Vozlisce::Spremenljivka { ime, tip, .. } => napaka(izraz, sporocilo_spremenljivke(ime@, tip@)),
        Vozlisce::Referenca(x) | Vozlisce::RefSeznama(x) | Vozlisce::Dereferenciraj(x) => izracun(*x, izraz, t),
        Vozlisce::Indeksiraj { seznam_ref, .. } => izracun(*seznam_ref, izraz, t),
        Vozlisce::Dolzina(x) => match tip_vozlisca(*x) {
            Some(TipV::Seznam(_, d)) => celo_ce(d),
            Some(TipV::RefSeznama(_)) => match *x {
                Vozlisce::Spremenljivka { tip, ime, .. } => napaka(izraz, sporocilo_dolzine(ime@, tip@)),
                _ => None,
            },
            _ => None,
        },
        Vozlisce::Add(_, l, d) | Vozlisce::Sub(_, l, d) | Vozlisce::Mul(_, l, d) | Vozlisce::Div(_, l, d)
        | Vozlisce::Mod(_, l, d) | Vozlisce::Pow(_, l, d) | Vozlisce::Enako(_, l, d)
        | Vozlisce::NiEnako(_, l, d) | Vozlisce::Vecje(_, l, d) | Vozlisce::VecjeEnako(_, l, d)
        | Vozlisce::Manjse(_, l, d) | Vozlisce::ManjseEnako(_, l, d) | Vozlisce::Konjunkcija(l, d)
        | Vozlisce::Disjunkcija(l, d) | Vozlisce::BitniAli(l, d) | Vozlisce::BitniXor(l, d)
        | Vozlisce::BitniIn(l, d) | Vozlisce::BitniPremikLevo(l, d)
        | Vozlisce::BitniPremikDesno(l, d) => dvojno(v, izracun(*l, izraz, t), izracun(*d, izraz, t), t),
        Vozlisce::CeloVReal(x) => match izracun(*x, izraz, t) {
            Some(IzidV::Vrednost(Konstanta::Celo(n))) => Some(realna(t, RealnaOperacija::IzCelega, n as u32, 0)),
            Some(IzidV::Vrednost(_)) => None,
            a => a,
        },
        Vozlisce::RealVCelo(x) => match izracun(*x, izraz, t) {
            Some(IzidV::Vrednost(Konstanta::Real(b))) => Some(realna(t, RealnaOperacija::VCelo, b, 0)),
            Some(IzidV::Vrednost(_)) => None,
            a => a,
        },
        Vozlisce::CeloVZnak(x) => match izracun(*x, izraz, t) {
            Some(IzidV::Vrednost(Konstanta::Celo(n))) => if izraz.len() == 0 {
                None
            } else if (n as u32) <= 0xd7ff || (0xe000 <= (n as u32) <= 0x10ffff) {
                Some(IzidV::Vrednost(Konstanta::Znak((n as u32) as char)))
            } else {
                napaka(izraz, sporocilo_znaka(n))
            },
            Some(IzidV::Vrednost(_)) => None,
            a => a,
        },
        Vozlisce::ZnakVCelo(x) => match izracun(*x, izraz, t) {
            Some(IzidV::Vrednost(Konstanta::Znak(c))) => celo_ce(c as int),
            Some(IzidV::Vrednost(_)) => None,
            a => a,
        },
        Vozlisce::Zanikaj(x) => match izracun(*x, izraz, t) {
            Some(IzidV::Vrednost(Konstanta::Logicna(b))) => logicna(!b),
            Some(IzidV::Vrednost(_)) => None,
            a => a,
        },
        _ => None,
    }
}

/// A string that holds the characters of `x`.
fn besedilo(x: &str) -> (r: String)
    ensures
        r@ == x@,
{
    let mut s = String::new();
    s.append(x);
    s
}

/// The result that the table gives for the operation (see `rezultat_realne`).
fn rezultat_o(t: &[(RealnaOperacija, u32, u32, u32)], o: RealnaOperacija, a: u32, b: u32) -> (r: Option<u32>)
    ensures
        r == rezultat_realne(t@, o, a, b),
{
    let mut i: usize = 0;
    assert(t@.skip(0) =~= t@);
    while i < t.len()
        invariant
            0 <= i <= t@.len(),
            rezultat_realne(t@, o, a, b) == rezultat_realne(t@.skip(i as int), o, a, b),
        decreases t@.len() - i,
    {
        proof {
            assert(t@.skip(i as int).drop_first() =~= t@.skip(i as int + 1));
            assert(t@.skip(i as int)[0] == t@[i as int]);
        }
        let (o2, a2, b2, r2) = t[i];
        if o2 == o && a2 == a && b2 == b {
            return Some(r2);
        }
        i = i + 1;
    }
    proof {
        assert(t@.skip(i as int).len() == 0);
    }
    None
}

/// An operation on real numbers (see `realna`).
fn realna_o(t: &[(RealnaOperacija, u32, u32, u32)], o: RealnaOperacija, a: u32, b: u32) -> (r: Izid)
    ensures
        r@ == realna(t@, o, a, b),
{
    match rezultat_o(t, o, a, b) {
        Some(r) => {
            let v = match o {
                RealnaOperacija::Enako | RealnaOperacija::NiEnako | RealnaOperacija::Vecje
                | RealnaOperacija::VecjeEnako | RealnaOperacija::Manjse
                | RealnaOperacija::ManjseEnako => if r != 0 {
                    Vozlisce::Resnica
                } else {
                    Vozlisce::Laz
                },
                RealnaOperacija::VCelo => Vozlisce::Celo(r as i32),
                _ => Vozlisce::Real(r),
            };
            Izid::Vrednost(v)
        },
        None => Izid::Realno(o, a, b),
    }
}

/// An error of kind `E2` with the message (see `napaka`).
fn napaka_o(izraz: &[Zeton], sporocilo: &str) -> (r: Option<Izid>)
    requires
        vsi_v_mejah(izraz@),
    ensures
        pogled_izida(r) == napaka(izraz@, sporocilo@),
{
    if izraz.len() == 0 {
        return None;
    }
    proof {
        assert(crate::napaka::v_mejah(izraz@[izraz@.len() - 1]));
    }
    Some(Izid::Napaka(Napake::from_zaporedje(izraz, OznakaNapake::E2, sporocilo)))
}

/// The truth value that a node is, if it is one.
fn logicna_o(v: &Vozlisce) -> (r: Option<bool>)
    ensures
        match konstanta(*v) {
            Konstanta::Logicna(b) => r == Some(b),
            _ => r is None,
        },
{
    match v {
        Vozlisce::Resnica => Some(true),
        Vozlisce::Laz => Some(false),
        _ => None,
    }
}

/// A whole number as the value of an evaluation.
fn celo_o(x: Option<i32>) -> (r: Option<Izid>)
    ensures
        match x {
            Some(n) => pogled_izida(r) == celo_ce(n as int),
            None => r is None,
        },
{
    match x {
        Some(n) => Some(Izid::Vrednost(Vozlisce::Celo(n))),
        None => None,
    }
}

/// A truth value as the value of an evaluation.
fn logicna_izid(b: bool) -> (r: Option<Izid>)
    ensures
        pogled_izida(r) == logicna(b),
{
    Some(Izid::Vrednost(
        if b {
            Vozlisce::Resnica
        } else {
            Vozlisce::Laz
        },
    ))
}

/// The operation of the node on the values of its operands (see
/// `operacija`).
fn operacija_o(v: &Vozlisce, x: &Vozlisce, y: &Vozlisce, t: &[(RealnaOperacija, u32, u32, u32)]) -> (r: Option<Izid>)
    ensures
        pogled_izida(r) == operacija(*v, konstanta(*x), konstanta(*y), t@),
{
    match (x, y) {
        (Vozlisce::Celo(l), Vozlisce::Celo(m)) => {
            let l = *l;
            let m = *m;
            match v {
                Vozlisce::Add(..) => celo_o(Some(l.wrapping_add(m))),
                Vozlisce::Sub(..) => celo_o(Some(l.wrapping_sub(m))),
                Vozlisce::Mul(..) => celo_o(Some(l.wrapping_mul(m))),
                Vozlisce::Div(..) => if m == 0 || (l == i32::MIN && m == -1) {
                    None
                } else {
                    Some(Izid::Vrednost(Vozlisce::Celo(deli_i32(l, m))))
                },
                Vozlisce::Mod(..) => if m == 0 || (l == i32::MIN && m == -1) {
                    None
                } else {
                    Some(Izid::Vrednost(Vozlisce::Celo(ostanek_i32(l, m))))
                },
                Vozlisce::Pow(..) => celo_o(Some(potenciraj_ovito(l, m as u32))),
                Vozlisce::BitniAli(..) => Some(Izid::Vrednost(Vozlisce::Celo(l | m))),
                Vozlisce::BitniXor(..) => Some(Izid::Vrednost(Vozlisce::Celo(l ^ m))),
                Vozlisce::BitniIn(..) => Some(Izid::Vrednost(Vozlisce::Celo(l & m))),
                Vozlisce::BitniPremikLevo(..) => if 0 <= m && m < 32 {
                    Some(Izid::Vrednost(Vozlisce::Celo(l << (m as u32))))
                } else {
                    None
                },
                Vozlisce::BitniPremikDesno(..) => if 0 <= m && m < 32 {
                    Some(Izid::Vrednost(Vozlisce::Celo(l >> (m as u32))))
                } else {
                    None
                },
                Vozlisce::Enako(..) => logicna_izid(l == m),
                Vozlisce::NiEnako(..) => logicna_izid(l != m),
                Vozlisce::Vecje(..) => logicna_izid(l > m),
                Vozlisce::VecjeEnako(..) => logicna_izid(l >= m),
                Vozlisce::Manjse(..) => logicna_izid(l < m),
                Vozlisce::ManjseEnako(..) => logicna_izid(l <= m),
                _ => None,
            }
        },
        (Vozlisce::Real(p), Vozlisce::Real(q)) => {
            let o = match v {
                Vozlisce::Add(..) => RealnaOperacija::Vsota,
                Vozlisce::Sub(..) => RealnaOperacija::Razlika,
                Vozlisce::Mul(..) => RealnaOperacija::Zmnozek,
                Vozlisce::Div(..) => RealnaOperacija::Kolicnik,
                Vozlisce::Mod(..) => RealnaOperacija::Ostanek,
                Vozlisce::Pow(..) => RealnaOperacija::Potenca,
                Vozlisce::Enako(..) => RealnaOperacija::Enako,
                Vozlisce::NiEnako(..) => RealnaOperacija::NiEnako,
                Vozlisce::Vecje(..) => RealnaOperacija::Vecje,
                Vozlisce::VecjeEnako(..) => RealnaOperacija::VecjeEnako,
                Vozlisce::Manjse(..) => RealnaOperacija::Manjse,
                Vozlisce::ManjseEnako(..) => RealnaOperacija::ManjseEnako,
                _ => {
                    return None;
                },
            };
            Some(realna_o(t, o, *p, *q))
        },
        _ => match (logicna_o(x), logicna_o(y)) {
            (Some(a), Some(b)) => match v {
                Vozlisce::Konjunkcija(..) => logicna_izid(a && b),
                Vozlisce::Disjunkcija(..) => logicna_izid(a || b),
                _ => None,
            },
            _ => None,
        },
    }
}

impl Vozlisce {
    /// The value of the node as a constant expression (see `izracun`), with
    /// the errors about the tokens `izraz` and the operations on real numbers
    /// from `realna`.
    pub fn eval(&self, izraz: &[Zeton], realna: &[(RealnaOperacija, u32, u32, u32)]) -> (r: Option<Izid>)
        requires
            vsi_v_mejah(izraz@),
        ensures
            pogled_izida(r) == izracun(*self, izraz@, realna@),
        decreases self,
    {
        match self {
            Vozlisce::Celo(n) => Some(Izid::Vrednost(Vozlisce::Celo(*n))),
            Vozlisce::Real(b) => Some(Izid::Vrednost(Vozlisce::Real(*b))),
            Vozlisce::Znak(c) => Some(Izid::Vrednost(Vozlisce::Znak(*c))),
            Vozlisce::Niz(s) => Some(Izid::Vrednost(Vozlisce::Niz(besedilo(s.as_str())))),
            Vozlisce::Resnica => Some(Izid::Vrednost(Vozlisce::Resnica)),
            Vozlisce::Laz => Some(Izid::Vrednost(Vozlisce::Laz)),
            Vozlisce::Spremenljivka { ime, tip, .. } => {
                let mut s = besedilo("Vrednost spremenljivke ");
                s.append(ime.as_str());
                s.append(": ");
                tip.prikazi(&mut s);
                s.append(" ni znana vnaprej.");
                napaka_o(izraz, s.as_str())
            },
            Vozlisce::Referenca(x) | Vozlisce::RefSeznama(x) | Vozlisce::Dereferenciraj(x) => x.eval(izraz, realna),
            Vozlisce::Indeksiraj { seznam_ref, .. } => seznam_ref.eval(izraz, realna),
            Vozlisce::Dolzina(x) => match x.tip() {
                Some(crate::tip::Tip::Seznam(_, d)) => Some(Izid::Vrednost(Vozlisce::Celo(d))),
                Some(crate::tip::Tip::RefSeznama(_)) => match &**x {
                    Vozlisce::Spremenljivka { tip, ime, .. } => {
                        let mut s = besedilo("Dolžina seznama ");
                        s.append(ime.as_str());
                        s.append(": ");
                        tip.prikazi(&mut s);
                        s.append(" ni znana vnaprej.");
                        napaka_o(izraz, s.as_str())
                    },
                    _ => None,
                },
                _ => None,
            },
            Vozlisce::Add(_, l, d) | Vozlisce::Sub(_, l, d) | Vozlisce::Mul(_, l, d) | Vozlisce::Div(_, l, d)
            | Vozlisce::Mod(_, l, d) | Vozlisce::Pow(_, l, d) | Vozlisce::Enako(_, l, d)
            | Vozlisce::NiEnako(_, l, d) | Vozlisce::Vecje(_, l, d) | Vozlisce::VecjeEnako(_, l, d)
            | Vozlisce::Manjse(_, l, d) | Vozlisce::ManjseEnako(_, l, d) | Vozlisce::Konjunkcija(l, d)
            | Vozlisce::Disjunkcija(l, d) | Vozlisce::BitniAli(l, d) | Vozlisce::BitniXor(l, d)
            | Vozlisce::BitniIn(l, d) | Vozlisce::BitniPremikLevo(l, d)
            | Vozlisce::BitniPremikDesno(l, d) => {
                let a = match l.eval(izraz, realna) {
                    Some(Izid::Vrednost(a)) => a,
                    o => {
                        return o;
                    },
                };
                let b = match d.eval(izraz, realna) {
                    Some(Izid::Vrednost(b)) => b,
                    o => {
                        return o;
                    },
                };
                operacija_o(self, &a, &b, realna)
            },
            Vozlisce::CeloVReal(x) => match x.eval(izraz, realna) {
                Some(Izid::Vrednost(Vozlisce::Celo(n))) => Some(realna_o(realna, RealnaOperacija::IzCelega, n as u32, 0)),
                Some(Izid::Vrednost(_)) => None,
                o => o,
            },
            Vozlisce::RealVCelo(x) => match x.eval(izraz, realna) {
                Some(Izid::Vrednost(Vozlisce::Real(b))) => Some(realna_o(realna, RealnaOperacija::VCelo, b, 0)),
                Some(Izid::Vrednost(_)) => None,
                o => o,
            },
            Vozlisce::CeloVZnak(x) => match x.eval(izraz, realna) {
                Some(Izid::Vrednost(Vozlisce::Celo(n))) => {
                    if izraz.len() == 0 {
                        return None;
                    }
                    match znak_iz_stevila(n as u32) {
                        Some(c) => Some(Izid::Vrednost(Vozlisce::Znak(c))),
                        None => {
                            let mut s = besedilo("Ne morem pretovriti št. ");
                            dodaj_desetisko_celo(&mut s, n as i64);
                            s.append(" v znak.");
                            napaka_o(izraz, s.as_str())
                        },
                    }
                },
                Some(Izid::Vrednost(_)) => None,
                o => o,
            },
            Vozlisce::ZnakVCelo(x) => match x.eval(izraz, realna) {
                Some(Izid::Vrednost(Vozlisce::Znak(c))) => Some(Izid::Vrednost(Vozlisce::Celo(c as i32))),
                Some(Izid::Vrednost(_)) => None,
                o => o,
            },
            Vozlisce::Zanikaj(x) => match x.eval(izraz, realna) {
                Some(Izid::Vrednost(v)) => match logicna_o(&v) {
                    Some(b) => logicna_izid(!b),
                    None => None,
                },
                o => o,
            },
            _ => None,
        }
    }
}

/// An operation on two constants gives no value but a constant.
proof fn lema_operacija_konstanta(v: &Vozlisce, t: Seq<(RealnaOperacija, u32, u32, u32)>)
    ensures
        forall|x: Konstanta, y: Konstanta| (#[trigger] operacija(*v, x, y, t)) matches Some(IzidV::Vrednost(k)) ==> !(
        k is Druga),
{
}

/// Evaluation gives no value but a constant.
proof fn lema_izracun_konstanta(v: &Vozlisce, izraz: Seq<Zeton>, t: Seq<(RealnaOperacija, u32, u32, u32)>)
    ensures
        izracun(*v, izraz, t) matches Some(IzidV::Vrednost(k)) ==> !(k is Druga),
    decreases *v,
{
    match v {
        Vozlisce::Referenca(x) | Vozlisce::RefSeznama(x) | Vozlisce::Dereferenciraj(x) => {
            lema_izracun_konstanta(&**x, izraz, t);
        },
        Vozlisce::Indeksiraj { seznam_ref, .. } => {
            lema_izracun_konstanta(&**seznam_ref, izraz, t);
        },
        Vozlisce::Add(_, l, d) | Vozlisce::Sub(_, l, d) | Vozlisce::Mul(_, l, d) | Vozlisce::Div(_, l, d)
        | Vozlisce::Mod(_, l, d) | Vozlisce::Pow(_, l, d) | Vozlisce::Enako(_, l, d)
        | Vozlisce::NiEnako(_, l, d) | Vozlisce::Vecje(_, l, d) | Vozlisce::VecjeEnako(_, l, d)
        | Vozlisce::Manjse(_, l, d) | Vozlisce::ManjseEnako(_, l, d) | Vozlisce::Konjunkcija(l, d)
        | Vozlisce::Disjunkcija(l, d) | Vozlisce::BitniAli(l, d) | Vozlisce::BitniXor(l, d)
        | Vozlisce::BitniIn(l, d) | Vozlisce::BitniPremikLevo(l, d) | Vozlisce::BitniPremikDesno(l, d) => {
            lema_izracun_konstanta(&**l, izraz, t);
            lema_izracun_konstanta(&**d, izraz, t);
            lema_operacija_konstanta(v, t);
        },
        Vozlisce::CeloVReal(x) | Vozlisce::RealVCelo(x) | Vozlisce::CeloVZnak(x) | Vozlisce::ZnakVCelo(x)
        | Vozlisce::Zanikaj(x) => {
            lema_izracun_konstanta(&**x, izraz, t);
        },
        _ => {},
    }
}

/// Evaluating the result again gives it back: where an expression
/// evaluates to the value of a node, that value is a constant, and the node
/// evaluates to the same.
pub proof fn zakon_ponovni_izracun(
    x: Vozlisce,
    w: Vozlisce,
    izraz: Seq<Zeton>,
    t: Seq<(RealnaOperacija, u32, u32, u32)>,
)
    requires
        izracun(x, izraz, t) == Some(IzidV::Vrednost(konstanta(w))),
    ensures
        !(konstanta(w) is Druga),
        izracun(w, izraz, t) == izracun(x, izraz, t),
{
    lema_izracun_konstanta(&x, izraz, t);
}

} // verus!
