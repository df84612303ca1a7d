//! The syntax tree as a value: each node with its types by their views and
//! its texts by their characters, so that trees built at different times
//! can be compared by what they hold.

use crate::tip::TipV;
use crate::vozlisce::{tip_vozlisca, Vozlisce};
use std::rc::Rc;
use vstd::prelude::*;

verus! {

/// A node of the syntax tree as a value: types by their views, texts by
/// their characters, children in place.
pub ghost enum VozelV {
    Prazno,
    Push(i32),
    Pop(i32),
    Vrh(i32),
    ShraniOdmik,
    NaloziOdmik,
    Celo(i32),
    Real(u32),
    Znak(char),
    Niz(Seq<char>),
    Spremenljivka { tip: TipV, ime: Seq<char>, naslov: i32, z_odmikom: bool, spremenljiva: bool },
    Referenca(Box<VozelV>),
    RefSeznama(Box<VozelV>),
    Dereferenciraj(Box<VozelV>),
    Indeksiraj { seznam_ref: Box<VozelV>, indeks: Box<VozelV> },
    Dolzina(Box<VozelV>),
    Resnica,
    Laz,
    Add(TipV, Box<VozelV>, Box<VozelV>),
    Sub(TipV, Box<VozelV>, Box<VozelV>),
    Mul(TipV, Box<VozelV>, Box<VozelV>),
    Div(TipV, Box<VozelV>, Box<VozelV>),
    Mod(TipV, Box<VozelV>, Box<VozelV>),
    Pow(TipV, Box<VozelV>, Box<VozelV>),
    CeloVReal(Box<VozelV>),
    RealVCelo(Box<VozelV>),
    CeloVZnak(Box<VozelV>),
    ZnakVCelo(Box<VozelV>),
    Zanikaj(Box<VozelV>),
    Konjunkcija(Box<VozelV>, Box<VozelV>),
    Disjunkcija(Box<VozelV>, Box<VozelV>),
    BitniAli(Box<VozelV>, Box<VozelV>),
    BitniXor(Box<VozelV>, Box<VozelV>),
    BitniIn(Box<VozelV>, Box<VozelV>),
    BitniPremikLevo(Box<VozelV>, Box<VozelV>),
    BitniPremikDesno(Box<VozelV>, Box<VozelV>),
    Enako(TipV, Box<VozelV>, Box<VozelV>),
    NiEnako(TipV, Box<VozelV>, Box<VozelV>),
    Vecje(TipV, Box<VozelV>, Box<VozelV>),
    VecjeEnako(TipV, Box<VozelV>, Box<VozelV>),
    Manjse(TipV, Box<VozelV>, Box<VozelV>),
    ManjseEnako(TipV, Box<VozelV>, Box<VozelV>),
    ProgramskiStevec(i32),
    Skok(Seq<char>),
    Klic(Seq<char>),
    DinamicniSkok,
    PogojniSkok(Box<VozelV>, Seq<char>),
    PogojniStavek { pogoj: Box<VozelV>, resnica: Box<VozelV>, laz: Box<VozelV> },
    Zanka { pogoj: Box<VozelV>, telo: Box<VozelV> },
    Prirejanje { spremenljivka: Box<VozelV>, izraz: Box<VozelV> },
    PrirejanjeRef { referenca: Box<VozelV>, indeks: Option<Box<VozelV>>, izraz: Box<VozelV> },
    Vrni(Box<VozelV>),
    Zaporedje(Seq<VozelV>),
    Okvir { zaporedje: Box<VozelV>, st_spr: i32 },
    Funkcija { tip: TipV, ime: Seq<char>, parametri: Seq<VozelV>, telo: Box<VozelV>, prostor: i32 },
    FunkcijskiKlic { funkcija: Box<VozelV>, spremenljivke: Box<VozelV>, argumenti: Box<VozelV> },
    Natisni(Box<VozelV>),
    Preberi,
    Splakni,
}

/// The value of a node.
pub open spec fn pogled(v: Vozlisce) -> VozelV
    decreases v,
{
    match v {
        Vozlisce::Prazno => VozelV::Prazno,
        Vozlisce::Push(x0) => VozelV::Push(x0),
        Vozlisce::Pop(x0) => VozelV::Pop(x0),
        Vozlisce::Vrh(x0) => VozelV::Vrh(x0),
        Vozlisce::ShraniOdmik => VozelV::ShraniOdmik,
        Vozlisce::NaloziOdmik => VozelV::NaloziOdmik,
        Vozlisce::Celo(x0) => VozelV::Celo(x0),
        Vozlisce::Real(x0) => VozelV::Real(x0),
        Vozlisce::Znak(x0) => VozelV::Znak(x0),
        Vozlisce::Niz(x0) => VozelV::Niz(x0@),
        Vozlisce::Spremenljivka { tip, ime, naslov, z_odmikom, spremenljiva } => VozelV::Spremenljivka { tip: tip@, ime: ime@, naslov: naslov, z_odmikom: z_odmikom, spremenljiva: spremenljiva },
        Vozlisce::Referenca(x0) => VozelV::Referenca(Box::new(pogled(*x0))),
        Vozlisce::RefSeznama(x0) => VozelV::RefSeznama(Box::new(pogled(*x0))),
        Vozlisce::Dereferenciraj(x0) => VozelV::Dereferenciraj(Box::new(pogled(*x0))),
        Vozlisce::Indeksiraj { seznam_ref, indeks } => VozelV::Indeksiraj { seznam_ref: Box::new(pogled(*seznam_ref)), indeks: Box::new(pogled(*indeks)) },
        Vozlisce::Dolzina(x0) => VozelV::Dolzina(Box::new(pogled(*x0))),
        Vozlisce::Resnica => VozelV::Resnica,
        Vozlisce::Laz => VozelV::Laz,
        Vozlisce::Add(x0, x1, x2) => VozelV::Add(x0@, Box::new(pogled(*x1)), Box::new(pogled(*x2))),
        Vozlisce::Sub(x0, x1, x2) => VozelV::Sub(x0@, Box::new(pogled(*x1)), Box::new(pogled(*x2))),
        Vozlisce::Mul(x0, x1, x2) => VozelV::Mul(x0@, Box::new(pogled(*x1)), Box::new(pogled(*x2))),
        Vozlisce::Div(x0, x1, x2) => VozelV::Div(x0@, Box::new(pogled(*x1)), Box::new(pogled(*x2))),
        Vozlisce::Mod(x0, x1, x2) => VozelV::Mod(x0@, Box::new(pogled(*x1)), Box::new(pogled(*x2))),
        Vozlisce::Pow(x0, x1, x2) => VozelV::Pow(x0@, Box::new(pogled(*x1)), Box::new(pogled(*x2))),
        Vozlisce::CeloVReal(x0) => VozelV::CeloVReal(Box::new(pogled(*x0))),
        Vozlisce::RealVCelo(x0) => VozelV::RealVCelo(Box::new(pogled(*x0))),
        Vozlisce::CeloVZnak(x0) => VozelV::CeloVZnak(Box::new(pogled(*x0))),
        Vozlisce::ZnakVCelo(x0) => VozelV::ZnakVCelo(Box::new(pogled(*x0))),
        Vozlisce::Zanikaj(x0) => VozelV::Zanikaj(Box::new(pogled(*x0))),
        Vozlisce::Konjunkcija(x0, x1) => VozelV::Konjunkcija(Box::new(pogled(*x0)), Box::new(pogled(*x1))),
        Vozlisce::Disjunkcija(x0, x1) => VozelV::Disjunkcija(Box::new(pogled(*x0)), Box::new(pogled(*x1))),
        Vozlisce::BitniAli(x0, x1) => VozelV::BitniAli(Box::new(pogled(*x0)), Box::new(pogled(*x1))),
        Vozlisce::BitniXor(x0, x1) => VozelV::BitniXor(Box::new(pogled(*x0)), Box::new(pogled(*x1))),
        Vozlisce::BitniIn(x0, x1) => VozelV::BitniIn(Box::new(pogled(*x0)), Box::new(pogled(*x1))),
        Vozlisce::BitniPremikLevo(x0, x1) => VozelV::BitniPremikLevo(Box::new(pogled(*x0)), Box::new(pogled(*x1))),
        Vozlisce::BitniPremikDesno(x0, x1) => VozelV::BitniPremikDesno(Box::new(pogled(*x0)), Box::new(pogled(*x1))),
        Vozlisce::Enako(x0, x1, x2) => VozelV::Enako(x0@, Box::new(pogled(*x1)), Box::new(pogled(*x2))),
        Vozlisce::NiEnako(x0, x1, x2) => VozelV::NiEnako(x0@, Box::new(pogled(*x1)), Box::new(pogled(*x2))),
        Vozlisce::Vecje(x0, x1, x2) => VozelV::Vecje(x0@, Box::new(pogled(*x1)), Box::new(pogled(*x2))),
        Vozlisce::VecjeEnako(x0, x1, x2) => VozelV::VecjeEnako(x0@, Box::new(pogled(*x1)), Box::new(pogled(*x2))),
        Vozlisce::Manjse(x0, x1, x2) => VozelV::Manjse(x0@, Box::new(pogled(*x1)), Box::new(pogled(*x2))),
        Vozlisce::ManjseEnako(x0, x1, x2) => VozelV::ManjseEnako(x0@, Box::new(pogled(*x1)), Box::new(pogled(*x2))),
        Vozlisce::ProgramskiStevec(x0) => VozelV::ProgramskiStevec(x0),
        Vozlisce::Skok(x0) => VozelV::Skok(x0@),
        Vozlisce::Klic(x0) => VozelV::Klic(x0@),
        Vozlisce::DinamicniSkok => VozelV::DinamicniSkok,
        Vozlisce::PogojniSkok(x0, x1) => VozelV::PogojniSkok(Box::new(pogled(*x0)), x1@),
        Vozlisce::PogojniStavek { pogoj, resnica, laz } => VozelV::PogojniStavek { pogoj: Box::new(pogled(*pogoj)), resnica: Box::new(pogled(*resnica)), laz: Box::new(pogled(*laz)) },
        Vozlisce::Zanka { pogoj, telo } => VozelV::Zanka { pogoj: Box::new(pogled(*pogoj)), telo: Box::new(pogled(*telo)) },
        Vozlisce::Prirejanje { spremenljivka, izraz } => VozelV::Prirejanje { spremenljivka: Box::new(pogled(*spremenljivka)), izraz: Box::new(pogled(*izraz)) },
        Vozlisce::PrirejanjeRef { referenca, indeks, izraz } => VozelV::PrirejanjeRef { referenca: Box::new(pogled(*referenca)), indeks: match indeks { Some(y) => Some(Box::new(pogled(*y))), None => None }, izraz: Box::new(pogled(*izraz)) },
        Vozlisce::Vrni(x0) => VozelV::Vrni(Box::new(pogled(*x0))),
        Vozlisce::Zaporedje(x0) => VozelV::Zaporedje(Seq::new(x0@.len(), |i: int| if 0 <= i < x0@.len() { pogled(*x0@[i]) } else { VozelV::Prazno })),
        Vozlisce::Okvir { zaporedje, st_spr } => VozelV::Okvir { zaporedje: Box::new(pogled(*zaporedje)), st_spr: st_spr },
        Vozlisce::Funkcija { tip, ime, parametri, telo, prostor } => VozelV::Funkcija { tip: tip@, ime: ime@, parametri: Seq::new(parametri@.len(), |i: int| if 0 <= i < parametri@.len() { pogled(*parametri@[i]) } else { VozelV::Prazno }), telo: Box::new(pogled(*telo)), prostor: prostor },
        Vozlisce::FunkcijskiKlic { funkcija, spremenljivke, argumenti } => VozelV::FunkcijskiKlic { funkcija: Box::new(pogled(*funkcija)), spremenljivke: Box::new(pogled(*spremenljivke)), argumenti: Box::new(pogled(*argumenti)) },
        Vozlisce::Natisni(x0) => VozelV::Natisni(Box::new(pogled(*x0))),
        Vozlisce::Preberi => VozelV::Preberi,
        Vozlisce::Splakni => VozelV::Splakni,
    }
}

/// The values of the nodes of a sequence.
pub open spec fn pogled_vseh(s: Seq<Rc<Vozlisce>>) -> Seq<VozelV> {
    Seq::new(s.len(), |i: int| pogled(*s[i]))
}

/// The type of the value of a node, read off its value (see
/// `tip_vozlisca`).
pub open spec fn tip_v(v: VozelV) -> Option<TipV>
    decreases v,
{
    match v {
        VozelV::Prazno => Some(TipV::Brez),
        VozelV::Push(_) => Some(TipV::Celo),
        VozelV::Pop(_) => Some(TipV::Brez),
        VozelV::Vrh(_) => Some(TipV::Celo),
        VozelV::ShraniOdmik => Some(TipV::Brez),
        VozelV::NaloziOdmik => Some(TipV::Celo),
        VozelV::Celo(_) => Some(TipV::Celo),
        VozelV::Real(_) => Some(TipV::Real),
        VozelV::Znak(_) => Some(TipV::Znak),
        VozelV::Niz(s) => Some(TipV::Seznam(Box::new(TipV::Znak), (s.len() as i32) as int)),
        VozelV::Spremenljivka { tip, .. } => Some(tip),
        VozelV::Referenca(x) => match tip_v(*x) {
            Some(t) => Some(TipV::Referenca(Box::new(t))),
            None => None,
        },
        VozelV::RefSeznama(x) => match tip_v(*x) {
            Some(TipV::Seznam(e, _)) => Some(TipV::RefSeznama(e)),
            _ => None,
        },
        VozelV::Dereferenciraj(x) => match *x {
            VozelV::Spremenljivka { tip, .. } => match tip {
                TipV::Referenca(e) => Some(*e),
                TipV::RefSeznama(e) => Some(*e),
                _ => None,
            },
            _ => None,
        },
        VozelV::Indeksiraj { seznam_ref, .. } => match tip_v(*seznam_ref) {
            Some(TipV::Seznam(e, _)) => Some(*e),
            Some(TipV::RefSeznama(e)) => Some(*e),
            _ => None,
        },
        VozelV::Dolzina(_) => Some(TipV::Celo),
        VozelV::Resnica | VozelV::Laz => Some(TipV::Bool),
        VozelV::Zanikaj(..) | VozelV::Konjunkcija(..) | VozelV::Disjunkcija(..) => Some(TipV::Bool),
        VozelV::BitniAli(..) | VozelV::BitniXor(..) | VozelV::BitniIn(..)
        | VozelV::BitniPremikLevo(..) | VozelV::BitniPremikDesno(..) => Some(TipV::Celo),
        VozelV::Enako(..) | VozelV::NiEnako(..) | VozelV::Vecje(..) | VozelV::VecjeEnako(..)
        | VozelV::Manjse(..) | VozelV::ManjseEnako(..) => Some(TipV::Bool),
        VozelV::Add(t, ..) | VozelV::Sub(t, ..) | VozelV::Mul(t, ..) | VozelV::Div(t, ..)
        | VozelV::Mod(t, ..) | VozelV::Pow(t, ..) => Some(t),
        VozelV::CeloVReal(..) => Some(TipV::Real),
        VozelV::RealVCelo(..) => Some(TipV::Celo),
        VozelV::CeloVZnak(..) => Some(TipV::Znak),
        VozelV::ZnakVCelo(..) => Some(TipV::Celo),
        VozelV::ProgramskiStevec(..) => Some(TipV::Celo),
        VozelV::Vrni(x) => tip_v(*x),
        VozelV::FunkcijskiKlic { funkcija, .. } => match *funkcija {
            VozelV::Funkcija { tip, .. } => Some(tip),
            _ => Some(TipV::Brez),
        },
        VozelV::Preberi => Some(TipV::Znak),
        _ => Some(TipV::Brez),
    }
}

/// The type of a node is the type of its value.
pub proof fn lema_tip_pogled(v: &Vozlisce)
    ensures
        tip_vozlisca(*v) == tip_v(pogled(*v)),
    decreases *v,
{
    match v {
        Vozlisce::Referenca(x) => {
            lema_tip_pogled(&**x);
            assert(pogled(*v) == VozelV::Referenca(Box::new(pogled(**x))));
        },
        Vozlisce::RefSeznama(x) => {
            lema_tip_pogled(&**x);
            assert(pogled(*v) == VozelV::RefSeznama(Box::new(pogled(**x))));
        },
        Vozlisce::Vrni(x) => {
            lema_tip_pogled(&**x);
            assert(pogled(*v) == VozelV::Vrni(Box::new(pogled(**x))));
        },
        Vozlisce::Indeksiraj { seznam_ref, indeks } => {
            lema_tip_pogled(&**seznam_ref);
            assert(pogled(*v) == VozelV::Indeksiraj {
                seznam_ref: Box::new(pogled(**seznam_ref)),
                indeks: Box::new(pogled(**indeks)),
            });
        },
        Vozlisce::Dereferenciraj(x) => {
            assert(pogled(*v) == VozelV::Dereferenciraj(Box::new(pogled(**x))));
            match &**x {
                Vozlisce::Spremenljivka { tip, ime, naslov, z_odmikom, spremenljiva } => {
                    assert(pogled(**x) == VozelV::Spremenljivka {
                        tip: tip@,
                        ime: ime@,
                        naslov: *naslov,
                        z_odmikom: *z_odmikom,
                        spremenljiva: *spremenljiva,
                    });
                },
                _ => {
                    assert(!(pogled(**x) is Spremenljivka));
                },
            }
        },
        Vozlisce::FunkcijskiKlic { funkcija, spremenljivke, argumenti } => {
            assert(pogled(*v) == VozelV::FunkcijskiKlic {
                funkcija: Box::new(pogled(**funkcija)),
                spremenljivke: Box::new(pogled(**spremenljivke)),
                argumenti: Box::new(pogled(**argumenti)),
            });
            match &**funkcija {
                Vozlisce::Funkcija { tip, .. } => {
                    assert(pogled(**funkcija) is Funkcija);
                    assert(pogled(**funkcija)->Funkcija_tip == tip@);
                },
                _ => {
                    assert(!(pogled(**funkcija) is Funkcija));
                },
            }
        },
        _ => {},
    }
}

} // verus!
