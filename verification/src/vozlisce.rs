//! The syntax tree of a program, and what can be read off it: the type of a
//! node's value, how many stack cells it leaves, whether two nodes are
//! equal, and whether a node holds another.

use crate::besedilo::{enaka, znaki};
use crate::tip::{velikost, velikost_v_mejah, Tip, TipV};
use std::rc::Rc;
use vstd::prelude::*;

verus! {

/// A node of the syntax tree. A real number is held as the bits of its
/// `f32`.
pub enum Vozlisce {
    Prazno,
    Push(i32),
    Pop(i32),
    Vrh(i32),
    ShraniOdmik,
    NaloziOdmik,
    Celo(i32),
    Real(u32),
    Znak(char),
    Niz(String),
    Spremenljivka { tip: Tip, ime: String, naslov: i32, z_odmikom: bool, spremenljiva: bool },
    Referenca(Rc<Vozlisce>),
    RefSeznama(Rc<Vozlisce>),
    Dereferenciraj(Rc<Vozlisce>),
    Indeksiraj { seznam_ref: Rc<Vozlisce>, indeks: Rc<Vozlisce> },
    Dolzina(Rc<Vozlisce>),
    Resnica,
    Laz,
    Add(Tip, Rc<Vozlisce>, Rc<Vozlisce>),
    Sub(Tip, Rc<Vozlisce>, Rc<Vozlisce>),
    Mul(Tip, Rc<Vozlisce>, Rc<Vozlisce>),
    Div(Tip, Rc<Vozlisce>, Rc<Vozlisce>),
    Mod(Tip, Rc<Vozlisce>, Rc<Vozlisce>),
    Pow(Tip, Rc<Vozlisce>, Rc<Vozlisce>),
    CeloVReal(Rc<Vozlisce>),
    RealVCelo(Rc<Vozlisce>),
    CeloVZnak(Rc<Vozlisce>),
    ZnakVCelo(Rc<Vozlisce>),
    Zanikaj(Rc<Vozlisce>),
    Konjunkcija(Rc<Vozlisce>, Rc<Vozlisce>),
    Disjunkcija(Rc<Vozlisce>, Rc<Vozlisce>),
    BitniAli(Rc<Vozlisce>, Rc<Vozlisce>),
    BitniXor(Rc<Vozlisce>, Rc<Vozlisce>),
    BitniIn(Rc<Vozlisce>, Rc<Vozlisce>),
    BitniPremikLevo(Rc<Vozlisce>, Rc<Vozlisce>),
    BitniPremikDesno(Rc<Vozlisce>, Rc<Vozlisce>),
    Enako(Tip, Rc<Vozlisce>, Rc<Vozlisce>),
    NiEnako(Tip, Rc<Vozlisce>, Rc<Vozlisce>),
    Vecje(Tip, Rc<Vozlisce>, Rc<Vozlisce>),
    VecjeEnako(Tip, Rc<Vozlisce>, Rc<Vozlisce>),
    Manjse(Tip, Rc<Vozlisce>, Rc<Vozlisce>),
    ManjseEnako(Tip, Rc<Vozlisce>, Rc<Vozlisce>),
    ProgramskiStevec(i32),
    Skok(String),
    Klic(String),
    DinamicniSkok,
    PogojniSkok(Rc<Vozlisce>, String),
    PogojniStavek { pogoj: Rc<Vozlisce>, resnica: Rc<Vozlisce>, laz: Rc<Vozlisce> },
    Zanka { pogoj: Rc<Vozlisce>, telo: Rc<Vozlisce> },
    Prirejanje { spremenljivka: Rc<Vozlisce>, izraz: Rc<Vozlisce> },
    PrirejanjeRef { referenca: Rc<Vozlisce>, indeks: Option<Rc<Vozlisce>>, izraz: Rc<Vozlisce> },
    Vrni(Rc<Vozlisce>),
    Zaporedje(Vec<Rc<Vozlisce>>),
    Okvir { zaporedje: Rc<Vozlisce>, st_spr: i32 },
    Funkcija { tip: Tip, ime: String, parametri: Vec<Rc<Vozlisce>>, telo: Rc<Vozlisce>, prostor: i32 },
    FunkcijskiKlic { funkcija: Rc<Vozlisce>, spremenljivke: Rc<Vozlisce>, argumenti: Rc<Vozlisce> },
    Natisni(Rc<Vozlisce>),
    Preberi,
    Splakni,
}

/// The type of the value of a node. `None` for a dereference of what is not
/// a variable of a reference type, an index into what is not an array or a
/// reference to one, and a reference to an array of what is not an array.
pub open spec fn tip_vozlisca(v: Vozlisce) -> Option<TipV>
    decreases v,
{
    match v {
        Vozlisce::Prazno => Some(TipV::Brez),
        Vozlisce::Push(_) => Some(TipV::Celo),
        Vozlisce::Pop(_) => Some(TipV::Brez),
        Vozlisce::Vrh(_) => Some(TipV::Celo),
        Vozlisce::ShraniOdmik => Some(TipV::Brez),
        Vozlisce::NaloziOdmik => Some(TipV::Celo),
        Vozlisce::Celo(_) => Some(TipV::Celo),
        Vozlisce::Real(_) => Some(TipV::Real),
        Vozlisce::Znak(_) => Some(TipV::Znak),
        Vozlisce::Niz(s) => Some(TipV::Seznam(Box::new(TipV::Znak), (s@.len() as i32) as int)),
        Vozlisce::Spremenljivka { tip, .. } => Some(tip@),
        Vozlisce::Referenca(x) => match tip_vozlisca(*x) {
            Some(t) => Some(TipV::Referenca(Box::new(t))),
            None => None,
        },
        Vozlisce::RefSeznama(x) => match tip_vozlisca(*x) {
            Some(TipV::Seznam(e, _)) => Some(TipV::RefSeznama(e)),
            _ => None,
        },
        Vozlisce::Dereferenciraj(x) => match *x {
            Vozlisce::Spremenljivka { tip, .. } => match tip@ {
                TipV::Referenca(e) => Some(*e),
                TipV::RefSeznama(e) => Some(*e),
                _ => None,
            },
            _ => None,
        },
        Vozlisce::Indeksiraj { seznam_ref, .. } => match tip_vozlisca(*seznam_ref) {
            Some(TipV::Seznam(e, _)) => Some(*e),
            Some(TipV::RefSeznama(e)) => Some(*e),
            _ => None,
        },
        Vozlisce::Dolzina(_) => Some(TipV::Celo),
        Vozlisce::Resnica | Vozlisce::Laz => Some(TipV::Bool),
        Vozlisce::Zanikaj(..) | Vozlisce::Konjunkcija(..) | Vozlisce::Disjunkcija(..) => Some(TipV::Bool),
        Vozlisce::BitniAli(..) | Vozlisce::BitniXor(..) | Vozlisce::BitniIn(..)
        | Vozlisce::BitniPremikLevo(..) | Vozlisce::BitniPremikDesno(..) => Some(TipV::Celo),
        Vozlisce::Enako(..) | Vozlisce::NiEnako(..) | Vozlisce::Vecje(..) | Vozlisce::VecjeEnako(..)
        | Vozlisce::Manjse(..) | Vozlisce::ManjseEnako(..) => Some(TipV::Bool),
        Vozlisce::Add(t, ..) | Vozlisce::Sub(t, ..) | Vozlisce::Mul(t, ..) | Vozlisce::Div(t, ..)
        | Vozlisce::Mod(t, ..) | Vozlisce::Pow(t, ..) => Some(t@),
        Vozlisce::CeloVReal(..) => Some(TipV::Real),
        Vozlisce::RealVCelo(..) => Some(TipV::Celo),
        Vozlisce::CeloVZnak(..) => Some(TipV::Znak),
        Vozlisce::ZnakVCelo(..) => Some(TipV::Celo),
        Vozlisce::ProgramskiStevec(..) => Some(TipV::Celo),
        Vozlisce::Vrni(x) => tip_vozlisca(*x),
        Vozlisce::FunkcijskiKlic { funkcija, .. } => match *funkcija {
            Vozlisce::Funkcija { tip, .. } => Some(tip@),
            _ => Some(TipV::Brez),
        },
        Vozlisce::Preberi => Some(TipV::Znak),
        _ => Some(TipV::Brez),
    }
}

impl Vozlisce {
    /// A new reference to a copy of the node.
    pub fn rc(self) -> (r: Rc<Vozlisce>)
        ensures
            *r == self,
    {
        Rc::new(self)
    }

    /// The type of the node's value (see `tip_vozlisca`).
    pub fn tip(&self) -> (r: Option<Tip>)
        ensures
            match r {
                Some(t) => tip_vozlisca(*self) == Some(t@),
                None => tip_vozlisca(*self) is None,
            },
        decreases self,
    {
        match self {
            Vozlisce::Prazno => Some(Tip::Brez),
            Vozlisce::Push(_) => Some(Tip::Celo),
            Vozlisce::Pop(_) => Some(Tip::Brez),
            Vozlisce::Vrh(_) => Some(Tip::Celo),
            Vozlisce::ShraniOdmik => Some(Tip::Brez),
            Vozlisce::NaloziOdmik => Some(Tip::Celo),
            Vozlisce::Celo(_) => Some(Tip::Celo),
            Vozlisce::Real(_) => Some(Tip::Real),
            Vozlisce::Znak(_) => Some(Tip::Znak),
            Vozlisce::Niz(s) => {
                let n = znaki(s.as_str()).len();
                let d: i32 = #[verifier::truncate] (n as i32);
                let t = Tip::Seznam(Box::new(Tip::Znak), d);
                assert(Tip::Znak@ == TipV::Znak);
                assert(t@ == TipV::Seznam(Box::new(TipV::Znak), d as int));
                Some(t)
            },
            Vozlisce::Spremenljivka { tip, .. } => Some(tip.kopija()),
            Vozlisce::Referenca(x) => match x.tip() {
                Some(t) => Some(Tip::Referenca(Box::new(t))),
                None => None,
            },
            Vozlisce::RefSeznama(x) => match x.tip() {
                Some(Tip::Seznam(e, _)) => Some(Tip::RefSeznama(e)),
                _ => None,
            },
            Vozlisce::Dereferenciraj(x) => match &**x {
                Vozlisce::Spremenljivka { tip, .. } => match tip {
                    Tip::Referenca(e) => Some(e.kopija()),
                    Tip::RefSeznama(e) => Some(e.kopija()),
                    _ => None,
                },
                _ => None,
            },
            Vozlisce::Indeksiraj { seznam_ref, .. } => match seznam_ref.tip() {
                Some(Tip::Seznam(e, _)) => Some(*e),
                Some(Tip::RefSeznama(e)) => Some(*e),
                _ => None,
            },
            Vozlisce::Dolzina(_) => Some(Tip::Celo),
            Vozlisce::Resnica | Vozlisce::Laz => Some(Tip::Bool),
            Vozlisce::Zanikaj(..) | Vozlisce::Konjunkcija(..) | Vozlisce::Disjunkcija(..) => Some(Tip::Bool),
            Vozlisce::BitniAli(..) | Vozlisce::BitniXor(..) | Vozlisce::BitniIn(..)
            | Vozlisce::BitniPremikLevo(..) | Vozlisce::BitniPremikDesno(..) => Some(Tip::Celo),
            Vozlisce::Enako(..) | Vozlisce::NiEnako(..) | Vozlisce::Vecje(..) | Vozlisce::VecjeEnako(..)
            | Vozlisce::Manjse(..) | Vozlisce::ManjseEnako(..) => Some(Tip::Bool),
            Vozlisce::Add(t, ..) | Vozlisce::Sub(t, ..) | Vozlisce::Mul(t, ..) | Vozlisce::Div(t, ..)
            | Vozlisce::Mod(t, ..) | Vozlisce::Pow(t, ..) => Some(t.kopija()),
            Vozlisce::CeloVReal(..) => Some(Tip::Real),
            Vozlisce::RealVCelo(..) => Some(Tip::Celo),
            Vozlisce::CeloVZnak(..) => Some(Tip::Znak),
            Vozlisce::ZnakVCelo(..) => Some(Tip::Celo),
            Vozlisce::ProgramskiStevec(..) => Some(Tip::Celo),
            Vozlisce::Vrni(x) => x.tip(),
            Vozlisce::FunkcijskiKlic { funkcija, .. } => match &**funkcija {
                Vozlisce::Funkcija { tip, .. } => Some(tip.kopija()),
                _ => Some(Tip::Brez),
            },
            Vozlisce::Preberi => Some(Tip::Znak),
            _ => Some(Tip::Brez),
        }
    }
}

/// The sum of two counts, where both are known and it fits in `i32`.
pub open spec fn sestej(a: Option<i32>, b: Option<i32>) -> Option<i32> {
    match (a, b) {
        (Some(x), Some(y)) => if i32::MIN <= x + y <= i32::MAX {
            Some((x + y) as i32)
        } else {
            None
        },
        _ => None,
    }
}

/// A count less one, where it is known and fits in `i32`.
pub open spec fn manj_ena(a: Option<i32>) -> Option<i32> {
    match a {
        Some(x) => if x > i32::MIN {
            Some((x - 1) as i32)
        } else {
            None
        },
        None => None,
    }
}

/// The larger of two counts, where both are known.
pub open spec fn vecja(a: Option<i32>, b: Option<i32>) -> Option<i32> {
    match (a, b) {
        (Some(x), Some(y)) => Some(if x >= y {
            x
        } else {
            y
        }),
        _ => None,
    }
}

/// How many cells a value of the type takes, where counting them stays in
/// `i32`.
pub open spec fn celice_tipa(t: TipV) -> Option<i32> {
    if velikost_v_mejah(t) {
        Some(velikost(t) as i32)
    } else {
        None
    }
}

/// How many cells an element of the array type takes; `None` for a type
/// that is not an array.
pub open spec fn celice_elementa(t: TipV) -> Option<i32> {
    match t {
        TipV::Seznam(e, _) => celice_tipa(*e),
        _ => None,
    }
}

/// How many cells the value that a variable of the type refers to takes: the
/// referenced type's, or an element's of an array; `None` for another type.
pub open spec fn celice_dereference(t: TipV) -> Option<i32> {
    match t {
        TipV::Referenca(e) => celice_tipa(*e),
        TipV::RefSeznama(e) => celice_tipa(*e),
        TipV::Seznam(e, _) => celice_tipa(*e),
        _ => None,
    }
}

/// How many stack cells the node leaves, as `i32`: a value its cells, an
/// operation one less than its operands, a branch the condition's less one
/// and the larger branch, a sequence the sum of its nodes. A dereference of
/// a variable counts the cells of what it refers to, and an index the cells
/// of an element. `None` where a count leaves the range of `i32`, or a
/// dereference or an index is not of a variable of such a type (or of a
/// reference to one).
pub open spec fn sprememba(v: Vozlisce) -> Option<i32>
    decreases v, 0int,
{
    match v {
        Vozlisce::Prazno => Some(0),
        Vozlisce::Push(k) => Some(k),
        Vozlisce::Pop(k) => if k == i32::MIN {
            None
        } else {
            Some((-k) as i32)
        },
        Vozlisce::Vrh(_) => Some(0),
        Vozlisce::ShraniOdmik => Some(-1i32),
        Vozlisce::NaloziOdmik => Some(1),
        Vozlisce::Celo(_) | Vozlisce::Real(_) | Vozlisce::Znak(_) => Some(1),
        Vozlisce::Resnica | Vozlisce::Laz => Some(1),
        Vozlisce::Niz(s) => Some(s@.len() as i32),
        Vozlisce::Spremenljivka { tip, .. } => celice_tipa(tip@),
        Vozlisce::Referenca(_) | Vozlisce::RefSeznama(_) => Some(1),
        Vozlisce::Dereferenciraj(x) => match *x {
            Vozlisce::Spremenljivka { tip, .. } => celice_dereference(tip@),
            Vozlisce::Referenca(y) | Vozlisce::RefSeznama(y) => match *y {
                Vozlisce::Spremenljivka { tip, .. } => celice_tipa(tip@),
                _ => None,
            },
            _ => None,
        },
        Vozlisce::Indeksiraj { seznam_ref, .. } => match *seznam_ref {
            Vozlisce::Spremenljivka { tip, .. } => celice_elementa(tip@),
            Vozlisce::Referenca(y) | Vozlisce::RefSeznama(y) => match *y {
                Vozlisce::Spremenljivka { tip, .. } => celice_elementa(tip@),
                _ => None,
            },
            _ => None,
        },
        Vozlisce::Dolzina(..) => Some(1),
        Vozlisce::Add(_, l, d) | Vozlisce::Sub(_, l, d) | Vozlisce::Mul(_, l, d) | Vozlisce::Div(_, l, d) | Vozlisce::Mod(_, l, d) | Vozlisce::Pow(_, l, d) | Vozlisce::Enako(_, l, d) | Vozlisce::NiEnako(_, l, d) | Vozlisce::Vecje(_, l, d) | Vozlisce::VecjeEnako(_, l, d) | Vozlisce::Manjse(_, l, d) | Vozlisce::ManjseEnako(_, l, d) => manj_ena(sestej(sprememba(*l), sprememba(*d))),
        Vozlisce::CeloVReal(..) | Vozlisce::RealVCelo(..) | Vozlisce::CeloVZnak(..) | Vozlisce::ZnakVCelo(..) => Some(0),
        Vozlisce::Zanikaj(x) => sprememba(*x),
        Vozlisce::Konjunkcija(l, d) | Vozlisce::Disjunkcija(l, d) | Vozlisce::BitniAli(l, d) | Vozlisce::BitniXor(l, d) | Vozlisce::BitniIn(l, d) | Vozlisce::BitniPremikLevo(l, d) | Vozlisce::BitniPremikDesno(l, d) => manj_ena(sestej(sprememba(*l), sprememba(*d))),
        Vozlisce::ProgramskiStevec(_) => Some(1),
        Vozlisce::Skok(_) | Vozlisce::Klic(_) => Some(0),
        Vozlisce::DinamicniSkok => Some(-1i32),
        Vozlisce::PogojniSkok(p, _) => manj_ena(sprememba(*p)),
        Vozlisce::PogojniStavek { pogoj, resnica, laz } => sestej(
            manj_ena(sprememba(*pogoj)),
            vecja(sprememba(*resnica), sprememba(*laz)),
        ),
        Vozlisce::Zanka { pogoj, telo } => sestej(manj_ena(sprememba(*pogoj)), sprememba(*telo)),
        Vozlisce::Prirejanje { izraz, .. } | Vozlisce::PrirejanjeRef { izraz, .. } => manj_ena(sprememba(*izraz)),
        Vozlisce::Vrni(_) => Some(0),
        Vozlisce::Zaporedje(s) => sprememba_vseh(s@, s@.len() as int),
        Vozlisce::Okvir { .. } => Some(0),
        Vozlisce::Funkcija { .. } => Some(0),
        Vozlisce::FunkcijskiKlic { .. } => Some(1),
        Vozlisce::Natisni(_) => Some(0),
        Vozlisce::Preberi => Some(1),
        Vozlisce::Splakni => Some(0),
    }
}

/// The sum of what the first `k` nodes of `s` leave, taken from the left.
pub open spec fn sprememba_vseh(s: Seq<Rc<Vozlisce>>, k: int) -> Option<i32>
    decreases s, k,
{
    if k <= 0 || k > s.len() {
        Some(0)
    } else {
        sestej(sprememba_vseh(s, k - 1), sprememba(*s[k - 1]))
    }
}

fn sestej_o(a: Option<i32>, b: Option<i32>) -> (r: Option<i32>)
    ensures
        r == sestej(a, b),
{
    match (a, b) {
        (Some(x), Some(y)) => x.checked_add(y),
        _ => None,
    }
}

fn manj_ena_o(a: Option<i32>) -> (r: Option<i32>)
    ensures
        r == manj_ena(a),
{
    match a {
        Some(x) => if x > i32::MIN {
            Some(x - 1)
        } else {
            None
        },
        None => None,
    }
}

/// How many cells an element of the array type takes.
fn celice_elementa_o(t: &Tip) -> (r: Option<i32>)
    ensures
        r == celice_elementa(t@),
{
    match t {
        Tip::Seznam(e, _) => e.velikost_preverjena(),
        _ => None,
    }
}

impl Vozlisce {
    /// How many stack cells the node leaves (see `sprememba`).
    pub fn sprememba_stacka(&self) -> (r: Option<i32>)
        ensures
            r == sprememba(*self),
        decreases self, 0int,
    {
        match self {
            Vozlisce::Prazno => Some(0),
            Vozlisce::Push(k) => Some(*k),
            Vozlisce::Pop(k) => if *k == i32::MIN {
                None
            } else {
                Some(-*k)
            },
            Vozlisce::Vrh(_) => Some(0),
            Vozlisce::ShraniOdmik => Some(-1),
            Vozlisce::NaloziOdmik => Some(1),
            Vozlisce::Celo(_) | Vozlisce::Real(_) | Vozlisce::Znak(_) => Some(1),
            Vozlisce::Resnica | Vozlisce::Laz => Some(1),
            Vozlisce::Niz(s) => {
                let n = znaki(s.as_str()).len();
                Some(#[verifier::truncate] (n as i32))
            },
            Vozlisce::Spremenljivka { tip, .. } => tip.velikost_preverjena(),
            Vozlisce::Referenca(_) | Vozlisce::RefSeznama(_) => Some(1),
            Vozlisce::Dereferenciraj(x) => match &**x {
                Vozlisce::Spremenljivka { tip, .. } => match tip {
                    Tip::Referenca(e) | Tip::RefSeznama(e) | Tip::Seznam(e, _) => e.velikost_preverjena(),
                    _ => None,
                },
                Vozlisce::Referenca(y) | Vozlisce::RefSeznama(y) => match &**y {
                    Vozlisce::Spremenljivka { tip, .. } => tip.velikost_preverjena(),
                    _ => None,
                },
                _ => None,
            },
            Vozlisce::Indeksiraj { seznam_ref, .. } => match &**seznam_ref {
                Vozlisce::Spremenljivka { tip, .. } => celice_elementa_o(tip),
                Vozlisce::Referenca(y) | Vozlisce::RefSeznama(y) => match &**y {
                    Vozlisce::Spremenljivka { tip, .. } => celice_elementa_o(tip),
                    _ => None,
                },
                _ => None,
            },
            Vozlisce::Dolzina(..) => Some(1),
            Vozlisce::Add(_, l, d) | Vozlisce::Sub(_, l, d) | Vozlisce::Mul(_, l, d) | Vozlisce::Div(_, l, d) | Vozlisce::Mod(_, l, d) | Vozlisce::Pow(_, l, d) | Vozlisce::Enako(_, l, d) | Vozlisce::NiEnako(_, l, d) | Vozlisce::Vecje(_, l, d) | Vozlisce::VecjeEnako(_, l, d) | Vozlisce::Manjse(_, l, d) | Vozlisce::ManjseEnako(_, l, d) => {
                let a = l.sprememba_stacka();
                let b = d.sprememba_stacka();
                manj_ena_o(sestej_o(a, b))
            },
            Vozlisce::CeloVReal(..) | Vozlisce::RealVCelo(..) | Vozlisce::CeloVZnak(..) | Vozlisce::ZnakVCelo(
                ..,
            ) => Some(0),
            Vozlisce::Zanikaj(x) => x.sprememba_stacka(),
            Vozlisce::Konjunkcija(l, d) | Vozlisce::Disjunkcija(l, d) | Vozlisce::BitniAli(l, d) | Vozlisce::BitniXor(l, d) | Vozlisce::BitniIn(l, d) | Vozlisce::BitniPremikLevo(l, d) | Vozlisce::BitniPremikDesno(l, d) => {
                let a = l.sprememba_stacka();
                let b = d.sprememba_stacka();
                manj_ena_o(sestej_o(a, b))
            },
            Vozlisce::ProgramskiStevec(_) => Some(1),
            Vozlisce::Skok(_) | Vozlisce::Klic(_) => Some(0),
            Vozlisce::DinamicniSkok => Some(-1),
            Vozlisce::PogojniSkok(p, _) => manj_ena_o(p.sprememba_stacka()),
            Vozlisce::PogojniStavek { pogoj, resnica, laz } => {
                let a = manj_ena_o(pogoj.sprememba_stacka());
                let b = match (resnica.sprememba_stacka(), laz.sprememba_stacka()) {
                    (Some(x), Some(y)) => Some(if x >= y {
                        x
                    } else {
                        y
                    }),
                    _ => None,
                };
                sestej_o(a, b)
            },
            Vozlisce::Zanka { pogoj, telo } => {
                let a = manj_ena_o(pogoj.sprememba_stacka());
                sestej_o(a, telo.sprememba_stacka())
            },
            Vozlisce::Prirejanje { izraz, .. } | Vozlisce::PrirejanjeRef { izraz, .. } => manj_ena_o(
                izraz.sprememba_stacka(),
            ),
            Vozlisce::Vrni(_) => Some(0),
            Vozlisce::Zaporedje(s) => {
                let mut vsota: Option<i32> = Some(0);
                let mut i: usize = 0;
                while i < s.len()
                    invariant
                        0 <= i <= s@.len(),
                        *self == Vozlisce::Zaporedje(*s),
                        vsota == sprememba_vseh(s@, i as int),
                    decreases s@.len() - i,
                {
                    proof {
                        assert(decreases_to!(*self => self->Zaporedje_0));
                        assert(self->Zaporedje_0 == *s);
                        assert(decreases_to!(*s => s@));
                        assert(decreases_to!(s@ => s@[i as int]));
                        assert(decreases_to!(*self => s@[i as int]));
                    }
                    let x = s[i].sprememba_stacka();
                    vsota = sestej_o(vsota, x);
                    i = i + 1;
                }
                vsota
            },
            Vozlisce::Okvir { .. } => Some(0),
            Vozlisce::Funkcija { .. } => Some(0),
            Vozlisce::FunkcijskiKlic { .. } => Some(1),
            Vozlisce::Natisni(_) => Some(0),
            Vozlisce::Preberi => Some(1),
            Vozlisce::Splakni => Some(0),
        }
    }
}

/// Whether two `f32` values, given by their bits, are equal as numbers:
/// neither is NaN, and they are the same, or both are zero.
pub open spec fn enaka_realna(a: u32, b: u32) -> bool {
    let nan_a = (a & 0x7f80_0000u32) == 0x7f80_0000u32 && (a & 0x007f_ffffu32) != 0;
    let nan_b = (b & 0x7f80_0000u32) == 0x7f80_0000u32 && (b & 0x007f_ffffu32) != 0;
    !nan_a && !nan_b && (a == b || ((a & 0x7fff_ffffu32) == 0 && (b & 0x7fff_ffffu32) == 0))
}

/// Whether two nodes are equal: of the same kind, with equal values, types,
/// names and children. Two functions, or two calls, are always equal; a
/// reference to an array, an index, a length, a conversion between whole
/// numbers and characters, a program counter, a jump, a call by name, a
/// dynamic jump, reading and flushing are never equal to anything.
pub open spec fn enaka_vozlisca(a: Vozlisce, b: Vozlisce) -> bool
    decreases a, 0int,
{
    match (a, b) {
        (Vozlisce::Prazno, Vozlisce::Prazno) => true,
        (Vozlisce::Push(x), Vozlisce::Push(y)) => x == y,
        (Vozlisce::Pop(x), Vozlisce::Pop(y)) => x == y,
        (Vozlisce::Vrh(x), Vozlisce::Vrh(y)) => x == y,
        (Vozlisce::ShraniOdmik, Vozlisce::ShraniOdmik) => true,
        (Vozlisce::NaloziOdmik, Vozlisce::NaloziOdmik) => true,
        (Vozlisce::Celo(x), Vozlisce::Celo(y)) => x == y,
        (Vozlisce::Real(x), Vozlisce::Real(y)) => enaka_realna(x, y),
        (Vozlisce::Znak(x), Vozlisce::Znak(y)) => x == y,
        (Vozlisce::Niz(x), Vozlisce::Niz(y)) => x@ == y@,
        (
            Vozlisce::Spremenljivka { tip: lt, ime: li, naslov: ln, z_odmikom: lz, spremenljiva: ls },
            Vozlisce::Spremenljivka { tip: dt, ime: di, naslov: dn, z_odmikom: dz, spremenljiva: ds },
        ) => lt@ == dt@ && li@ == di@ && ln == dn && lz == dz && ls == ds,
        (Vozlisce::Resnica, Vozlisce::Resnica) => true,
        (Vozlisce::Laz, Vozlisce::Laz) => true,
        (Vozlisce::Add(lt, ll, ld), Vozlisce::Add(dt, dl, dd)) => lt@ == dt@ && enaka_vozlisca(*ll, *dl)
            && enaka_vozlisca(*ld, *dd),
        (Vozlisce::Sub(lt, ll, ld), Vozlisce::Sub(dt, dl, dd)) => lt@ == dt@ && enaka_vozlisca(*ll, *dl)
            && enaka_vozlisca(*ld, *dd),
        (Vozlisce::Mul(lt, ll, ld), Vozlisce::Mul(dt, dl, dd)) => lt@ == dt@ && enaka_vozlisca(*ll, *dl)
            && enaka_vozlisca(*ld, *dd),
        (Vozlisce::Div(lt, ll, ld), Vozlisce::Div(dt, dl, dd)) => lt@ == dt@ && enaka_vozlisca(*ll, *dl)
            && enaka_vozlisca(*ld, *dd),
        (Vozlisce::Mod(lt, ll, ld), Vozlisce::Mod(dt, dl, dd)) => lt@ == dt@ && enaka_vozlisca(*ll, *dl)
            && enaka_vozlisca(*ld, *dd),
        (Vozlisce::Pow(lt, ll, ld), Vozlisce::Pow(dt, dl, dd)) => lt@ == dt@ && enaka_vozlisca(*ll, *dl)
            && enaka_vozlisca(*ld, *dd),
        (Vozlisce::Enako(lt, ll, ld), Vozlisce::Enako(dt, dl, dd)) => lt@ == dt@ && enaka_vozlisca(*ll, *dl)
            && enaka_vozlisca(*ld, *dd),
        (Vozlisce::NiEnako(lt, ll, ld), Vozlisce::NiEnako(dt, dl, dd)) => lt@ == dt@ && enaka_vozlisca(*ll, *dl)
            && enaka_vozlisca(*ld, *dd),
        (Vozlisce::Vecje(lt, ll, ld), Vozlisce::Vecje(dt, dl, dd)) => lt@ == dt@ && enaka_vozlisca(*ll, *dl)
            && enaka_vozlisca(*ld, *dd),
        (Vozlisce::VecjeEnako(lt, ll, ld), Vozlisce::VecjeEnako(dt, dl, dd)) => lt@ == dt@ && enaka_vozlisca(*ll, *dl)
            && enaka_vozlisca(*ld, *dd),
        (Vozlisce::Manjse(lt, ll, ld), Vozlisce::Manjse(dt, dl, dd)) => lt@ == dt@ && enaka_vozlisca(*ll, *dl)
            && enaka_vozlisca(*ld, *dd),
        (Vozlisce::ManjseEnako(lt, ll, ld), Vozlisce::ManjseEnako(dt, dl, dd)) => lt@ == dt@ && enaka_vozlisca(*ll, *dl)
            && enaka_vozlisca(*ld, *dd),
        (Vozlisce::Konjunkcija(ll, ld), Vozlisce::Konjunkcija(dl, dd)) => enaka_vozlisca(*ll, *dl) && enaka_vozlisca(*ld, *dd),
        (Vozlisce::Disjunkcija(ll, ld), Vozlisce::Disjunkcija(dl, dd)) => enaka_vozlisca(*ll, *dl) && enaka_vozlisca(*ld, *dd),
        (Vozlisce::BitniAli(ll, ld), Vozlisce::BitniAli(dl, dd)) => enaka_vozlisca(*ll, *dl) && enaka_vozlisca(*ld, *dd),
        (Vozlisce::BitniXor(ll, ld), Vozlisce::BitniXor(dl, dd)) => enaka_vozlisca(*ll, *dl) && enaka_vozlisca(*ld, *dd),
        (Vozlisce::BitniIn(ll, ld), Vozlisce::BitniIn(dl, dd)) => enaka_vozlisca(*ll, *dl) && enaka_vozlisca(*ld, *dd),
        (Vozlisce::BitniPremikLevo(ll, ld), Vozlisce::BitniPremikLevo(dl, dd)) => enaka_vozlisca(*ll, *dl) && enaka_vozlisca(*ld, *dd),
        (Vozlisce::BitniPremikDesno(ll, ld), Vozlisce::BitniPremikDesno(dl, dd)) => enaka_vozlisca(*ll, *dl) && enaka_vozlisca(*ld, *dd),
        (Vozlisce::Referenca(x), Vozlisce::Referenca(y)) => enaka_vozlisca(*x, *y),
        (Vozlisce::Dereferenciraj(x), Vozlisce::Dereferenciraj(y)) => enaka_vozlisca(*x, *y),
        (Vozlisce::CeloVReal(x), Vozlisce::CeloVReal(y)) => enaka_vozlisca(*x, *y),
        (Vozlisce::RealVCelo(x), Vozlisce::RealVCelo(y)) => enaka_vozlisca(*x, *y),
        (Vozlisce::Zanikaj(x), Vozlisce::Zanikaj(y)) => enaka_vozlisca(*x, *y),
        (Vozlisce::Vrni(x), Vozlisce::Vrni(y)) => enaka_vozlisca(*x, *y),
        (Vozlisce::Natisni(x), Vozlisce::Natisni(y)) => enaka_vozlisca(*x, *y),
        (Vozlisce::PogojniSkok(ll, ld), Vozlisce::PogojniSkok(dl, dd)) => enaka_vozlisca(*ll, *dl) && ld@ == dd@,
        (
            Vozlisce::PogojniStavek { pogoj: lp, resnica: lr, laz: ll },
            Vozlisce::PogojniStavek { pogoj: dp, resnica: dr, laz: dl },
        ) => enaka_vozlisca(*lp, *dp) && enaka_vozlisca(*lr, *dr) && enaka_vozlisca(*ll, *dl),
        (Vozlisce::Zanka { pogoj: lp, telo: lt }, Vozlisce::Zanka { pogoj: dp, telo: dt }) => enaka_vozlisca(
            *lp,
            *dp,
        ) && enaka_vozlisca(*lt, *dt),
        (
            Vozlisce::Prirejanje { spremenljivka: ls, izraz: li },
            Vozlisce::Prirejanje { spremenljivka: ds, izraz: di },
        ) => enaka_vozlisca(*ls, *ds) && enaka_vozlisca(*li, *di),
        (
            Vozlisce::PrirejanjeRef { referenca: lr, indeks: lin, izraz: li },
            Vozlisce::PrirejanjeRef { referenca: dr, indeks: din, izraz: di },
        ) => enaka_vozlisca(*lr, *dr) && match (lin, din) {
            (None, None) => true,
            (Some(x), Some(y)) => enaka_vozlisca(*x, *y),
            _ => false,
        } && enaka_vozlisca(*li, *di),
        (Vozlisce::Zaporedje(l), Vozlisce::Zaporedje(d)) => l@.len() == d@.len() && enaka_vsa(
            l@,
            d@,
            l@.len() as int,
        ),
        (Vozlisce::Okvir { zaporedje: lz, st_spr: ls }, Vozlisce::Okvir { zaporedje: dz, st_spr: ds }) =>
            enaka_vozlisca(*lz, *dz) && ls == ds,
        (Vozlisce::Funkcija { .. }, Vozlisce::Funkcija { .. }) => true,
        (Vozlisce::FunkcijskiKlic { .. }, Vozlisce::FunkcijskiKlic { .. }) => true,
        _ => false,
    }
}

/// Whether the first `k` nodes of `l` and `d` are equal, one by one.
pub open spec fn enaka_vsa(l: Seq<Rc<Vozlisce>>, d: Seq<Rc<Vozlisce>>, k: int) -> bool
    decreases l, k,
{
    if k <= 0 || k > l.len() || k > d.len() {
        true
    } else {
        enaka_vsa(l, d, k - 1) && enaka_vozlisca(*l[k - 1], *d[k - 1])
    }
}

/// Whether two `f32` values, given by their bits, are equal as numbers.
fn enaki_realni(a: u32, b: u32) -> (r: bool)
    ensures
        r == enaka_realna(a, b),
{
    let nan_a = (a & 0x7f80_0000u32) == 0x7f80_0000u32 && (a & 0x007f_ffffu32) != 0;
    let nan_b = (b & 0x7f80_0000u32) == 0x7f80_0000u32 && (b & 0x007f_ffffu32) != 0;
    !nan_a && !nan_b && (a == b || ((a & 0x7fff_ffffu32) == 0 && (b & 0x7fff_ffffu32) == 0))
}

impl Vozlisce {
    /// Whether the two nodes are equal (see `enaka_vozlisca`).
    pub fn enako(&self, other: &Vozlisce) -> (r: bool)
        ensures
            r == enaka_vozlisca(*self, *other),
        decreases self, 0int,
    {
        match (self, other) {
            (Vozlisce::Prazno, Vozlisce::Prazno) => true,
            (Vozlisce::Push(x), Vozlisce::Push(y)) => *x == *y,
            (Vozlisce::Pop(x), Vozlisce::Pop(y)) => *x == *y,
            (Vozlisce::Vrh(x), Vozlisce::Vrh(y)) => *x == *y,
            (Vozlisce::ShraniOdmik, Vozlisce::ShraniOdmik) => true,
            (Vozlisce::NaloziOdmik, Vozlisce::NaloziOdmik) => true,
            (Vozlisce::Celo(x), Vozlisce::Celo(y)) => *x == *y,
            (Vozlisce::Real(x), Vozlisce::Real(y)) => enaki_realni(*x, *y),
            (Vozlisce::Znak(x), Vozlisce::Znak(y)) => *x == *y,
            (Vozlisce::Niz(x), Vozlisce::Niz(y)) => enaka(x.as_str(), y.as_str()),
            (
                Vozlisce::Spremenljivka { tip: lt, ime: li, naslov: ln, z_odmikom: lz, spremenljiva: ls },
                Vozlisce::Spremenljivka { tip: dt, ime: di, naslov: dn, z_odmikom: dz, spremenljiva: ds },
            ) => lt.enak(dt) && enaka(li.as_str(), di.as_str()) && *ln == *dn && *lz == *dz && *ls == *ds,
            (Vozlisce::Resnica, Vozlisce::Resnica) => true,
            (Vozlisce::Laz, Vozlisce::Laz) => true,
            (Vozlisce::Add(lt, ll, ld), Vozlisce::Add(dt, dl, dd)) => lt.enak(dt) && ll.enako(dl) && ld.enako(dd),
            (Vozlisce::Sub(lt, ll, ld), Vozlisce::Sub(dt, dl, dd)) => lt.enak(dt) && ll.enako(dl) && ld.enako(dd),
            (Vozlisce::Mul(lt, ll, ld), Vozlisce::Mul(dt, dl, dd)) => lt.enak(dt) && ll.enako(dl) && ld.enako(dd),
            (Vozlisce::Div(lt, ll, ld), Vozlisce::Div(dt, dl, dd)) => lt.enak(dt) && ll.enako(dl) && ld.enako(dd),
            (Vozlisce::Mod(lt, ll, ld), Vozlisce::Mod(dt, dl, dd)) => lt.enak(dt) && ll.enako(dl) && ld.enako(dd),
            (Vozlisce::Pow(lt, ll, ld), Vozlisce::Pow(dt, dl, dd)) => lt.enak(dt) && ll.enako(dl) && ld.enako(dd),
            (Vozlisce::Enako(lt, ll, ld), Vozlisce::Enako(dt, dl, dd)) => lt.enak(dt) && ll.enako(dl) && ld.enako(dd),
            (Vozlisce::NiEnako(lt, ll, ld), Vozlisce::NiEnako(dt, dl, dd)) => lt.enak(dt) && ll.enako(dl) && ld.enako(dd),
            (Vozlisce::Vecje(lt, ll, ld), Vozlisce::Vecje(dt, dl, dd)) => lt.enak(dt) && ll.enako(dl) && ld.enako(dd),
            (Vozlisce::VecjeEnako(lt, ll, ld), Vozlisce::VecjeEnako(dt, dl, dd)) => lt.enak(dt) && ll.enako(dl) && ld.enako(dd),
            (Vozlisce::Manjse(lt, ll, ld), Vozlisce::Manjse(dt, dl, dd)) => lt.enak(dt) && ll.enako(dl) && ld.enako(dd),
            (Vozlisce::ManjseEnako(lt, ll, ld), Vozlisce::ManjseEnako(dt, dl, dd)) => lt.enak(dt) && ll.enako(dl) && ld.enako(dd),
            (Vozlisce::Konjunkcija(ll, ld), Vozlisce::Konjunkcija(dl, dd)) => ll.enako(dl) && ld.enako(dd),
            (Vozlisce::Disjunkcija(ll, ld), Vozlisce::Disjunkcija(dl, dd)) => ll.enako(dl) && ld.enako(dd),
            (Vozlisce::BitniAli(ll, ld), Vozlisce::BitniAli(dl, dd)) => ll.enako(dl) && ld.enako(dd),
            (Vozlisce::BitniXor(ll, ld), Vozlisce::BitniXor(dl, dd)) => ll.enako(dl) && ld.enako(dd),
            (Vozlisce::BitniIn(ll, ld), Vozlisce::BitniIn(dl, dd)) => ll.enako(dl) && ld.enako(dd),
            (Vozlisce::BitniPremikLevo(ll, ld), Vozlisce::BitniPremikLevo(dl, dd)) => ll.enako(dl) && ld.enako(dd),
            (Vozlisce::BitniPremikDesno(ll, ld), Vozlisce::BitniPremikDesno(dl, dd)) => ll.enako(dl) && ld.enako(dd),
            (Vozlisce::Referenca(x), Vozlisce::Referenca(y)) => x.enako(y),
            (Vozlisce::Dereferenciraj(x), Vozlisce::Dereferenciraj(y)) => x.enako(y),
            (Vozlisce::CeloVReal(x), Vozlisce::CeloVReal(y)) => x.enako(y),
            (Vozlisce::RealVCelo(x), Vozlisce::RealVCelo(y)) => x.enako(y),
            (Vozlisce::Zanikaj(x), Vozlisce::Zanikaj(y)) => x.enako(y),
            (Vozlisce::Vrni(x), Vozlisce::Vrni(y)) => x.enako(y),
            (Vozlisce::Natisni(x), Vozlisce::Natisni(y)) => x.enako(y),
            (Vozlisce::PogojniSkok(ll, ld), Vozlisce::PogojniSkok(dl, dd)) => ll.enako(dl) && enaka(
                ld.as_str(),
                dd.as_str(),
            ),
            (
                Vozlisce::PogojniStavek { pogoj: lp, resnica: lr, laz: ll },
                Vozlisce::PogojniStavek { pogoj: dp, resnica: dr, laz: dl },
            ) => lp.enako(dp) && lr.enako(dr) && ll.enako(dl),
            (Vozlisce::Zanka { pogoj: lp, telo: lt }, Vozlisce::Zanka { pogoj: dp, telo: dt }) => lp.enako(dp)
                && lt.enako(dt),
            (
                Vozlisce::Prirejanje { spremenljivka: ls, izraz: li },
                Vozlisce::Prirejanje { spremenljivka: ds, izraz: di },
            ) => ls.enako(ds) && li.enako(di),
            (
                Vozlisce::PrirejanjeRef { referenca: lr, indeks: lin, izraz: li },
                Vozlisce::PrirejanjeRef { referenca: dr, indeks: din, izraz: di },
            ) => lr.enako(dr) && match (lin, din) {
                (None, None) => true,
                (Some(x), Some(y)) => x.enako(y),
                _ => false,
            } && li.enako(di),
            (Vozlisce::Zaporedje(l), Vozlisce::Zaporedje(d)) => {
                if l.len() != d.len() {
                    return false;
                }
                let mut i: usize = 0;
                while i < l.len()
                    invariant
                        0 <= i <= l@.len(),
                        l@.len() == d@.len(),
                        *self == Vozlisce::Zaporedje(*l),
                        *other == Vozlisce::Zaporedje(*d),
                        enaka_vsa(l@, d@, i as int),
                    decreases l@.len() - i,
                {
                    proof {
                        assert(decreases_to!(*self => self->Zaporedje_0));
                        assert(self->Zaporedje_0 == *l);
                        assert(decreases_to!(*l => l@));
                        assert(decreases_to!(l@ => l@[i as int]));
                        assert(decreases_to!(*self => l@[i as int]));
                    }
                    if !l[i].enako(&d[i]) {
                        proof {
                            lema_enaka_vsa(l@, d@, i as int + 1, l@.len() as int);
                        }
                        return false;
                    }
                    i = i + 1;
                }
                true
            },
            (Vozlisce::Okvir { zaporedje: lz, st_spr: ls }, Vozlisce::Okvir { zaporedje: dz, st_spr: ds }) =>
                lz.enako(dz) && *ls == *ds,
            (Vozlisce::Funkcija { .. }, Vozlisce::Funkcija { .. }) => true,
            (Vozlisce::FunkcijskiKlic { .. }, Vozlisce::FunkcijskiKlic { .. }) => true,
            _ => false,
        }
    }
}

/// Where the first `k` nodes are not all equal, no longer prefix is.
proof fn lema_enaka_vsa(l: Seq<Rc<Vozlisce>>, d: Seq<Rc<Vozlisce>>, k: int, n: int)
    requires
        0 < k <= n <= l.len(),
        n <= d.len(),
        !enaka_vsa(l, d, k),
    ensures
        !enaka_vsa(l, d, n),
    decreases n - k,
{
    if k < n {
        lema_enaka_vsa(l, d, k, n - 1);
    }
}

/// Whether the first answer or, where it is no, the second is yes; `None`
/// where the answer that is needed is.
pub open spec fn ali(p: Option<bool>, q: Option<bool>) -> Option<bool> {
    match p {
        Some(true) => Some(true),
        Some(false) => q,
        None => None,
    }
}

/// Whether the node `a` holds the node `o`: it is equal to it, or a child
/// that the search goes into holds it, the children taken from the left
/// until one does. The search goes into the operands of operations and
/// comparisons, a reference to a variable, a negation, a conversion between
/// whole and real numbers, a branch, a loop, the value of an assignment, a
/// return, a sequence, a frame and the body of a function. At a call it asks
/// whether `o` calls the same function, or the arguments hold `o`; it is
/// `None` there when `o` is no call.
pub open spec fn vsebnost(a: Vozlisce, o: Vozlisce) -> Option<bool>
    decreases a, 0int,
{
    if enaka_vozlisca(a, o) {
        Some(true)
    } else {
        match a {
            Vozlisce::Referenca(x) | Vozlisce::Zanikaj(x) | Vozlisce::CeloVReal(x) | Vozlisce::RealVCelo(x) | Vozlisce::Vrni(x) => vsebnost(*x, o),
            Vozlisce::Konjunkcija(x, y) | Vozlisce::Disjunkcija(x, y) | Vozlisce::BitniAli(x, y) | Vozlisce::BitniXor(x, y) | Vozlisce::BitniIn(x, y) | Vozlisce::BitniPremikLevo(x, y) | Vozlisce::BitniPremikDesno(x, y) | Vozlisce::Add(_, x, y) | Vozlisce::Sub(_, x, y) | Vozlisce::Mul(_, x, y) | Vozlisce::Div(_, x, y) | Vozlisce::Mod(_, x, y) | Vozlisce::Pow(_, x, y) | Vozlisce::Enako(_, x, y) | Vozlisce::NiEnako(_, x, y) | Vozlisce::Vecje(_, x, y) | Vozlisce::VecjeEnako(_, x, y) | Vozlisce::Manjse(_, x, y) | Vozlisce::ManjseEnako(_, x, y) => ali(vsebnost(*x, o), vsebnost(*y, o)),
            Vozlisce::PogojniStavek { pogoj, resnica, laz } => ali(
                ali(vsebnost(*pogoj, o), vsebnost(*resnica, o)),
                vsebnost(*laz, o),
            ),
            Vozlisce::Zanka { pogoj, telo } => ali(vsebnost(*pogoj, o), vsebnost(*telo, o)),
            Vozlisce::Prirejanje { izraz, .. } => vsebnost(*izraz, o),
            Vozlisce::Zaporedje(s) => vsebnost_katerega(s@, o, s@.len() as int),
            Vozlisce::Okvir { zaporedje, .. } => vsebnost(*zaporedje, o),
            Vozlisce::Funkcija { telo, .. } => vsebnost(*telo, o),
            Vozlisce::FunkcijskiKlic { funkcija, argumenti, .. } => match o {
                Vozlisce::FunkcijskiKlic { funkcija: druga, .. } => if enaka_vozlisca(*funkcija, *druga) {
                    Some(true)
                } else {
                    vsebnost(*argumenti, o)
                },
                _ => None,
            },
            _ => Some(false),
        }
    }
}

/// Whether one of the first `k` nodes of `s` holds `o`, taken from the left.
pub open spec fn vsebnost_katerega(s: Seq<Rc<Vozlisce>>, o: Vozlisce, k: int) -> Option<bool>
    decreases s, k,
{
    if k <= 0 || k > s.len() {
        Some(false)
    } else {
        ali(vsebnost_katerega(s, o, k - 1), vsebnost(*s[k - 1], o))
    }
}

/// Whether the node calls the function named `ime`: it is a call whose
/// target is a function of that name, or one of its children calls it. The
/// search goes into every child node (the arguments of a call, not the body
/// of the function it calls), the children taken from the left.
pub open spec fn klice(a: Vozlisce, ime: Seq<char>) -> bool
    decreases a, 0int,
{
    match a {
        Vozlisce::Referenca(x) | Vozlisce::RefSeznama(x) | Vozlisce::Dereferenciraj(x)
        | Vozlisce::Dolzina(x) | Vozlisce::Zanikaj(x) | Vozlisce::CeloVReal(x)
        | Vozlisce::RealVCelo(x) | Vozlisce::CeloVZnak(x) | Vozlisce::ZnakVCelo(x)
        | Vozlisce::Vrni(x) | Vozlisce::Natisni(x) | Vozlisce::PogojniSkok(x, _)
        | Vozlisce::Okvir { zaporedje: x, .. } | Vozlisce::Funkcija { telo: x, .. } => klice(*x, ime),
        Vozlisce::Konjunkcija(x, y) | Vozlisce::Disjunkcija(x, y) | Vozlisce::BitniAli(x, y)
        | Vozlisce::BitniXor(x, y) | Vozlisce::BitniIn(x, y) | Vozlisce::BitniPremikLevo(x, y)
        | Vozlisce::BitniPremikDesno(x, y) | Vozlisce::Add(_, x, y) | Vozlisce::Sub(_, x, y)
        | Vozlisce::Mul(_, x, y) | Vozlisce::Div(_, x, y) | Vozlisce::Mod(_, x, y)
        | Vozlisce::Pow(_, x, y) | Vozlisce::Enako(_, x, y) | Vozlisce::NiEnako(_, x, y)
        | Vozlisce::Vecje(_, x, y) | Vozlisce::VecjeEnako(_, x, y) | Vozlisce::Manjse(_, x, y)
        | Vozlisce::ManjseEnako(_, x, y) | Vozlisce::Indeksiraj { seznam_ref: x, indeks: y }
        | Vozlisce::Zanka { pogoj: x, telo: y } | Vozlisce::Prirejanje { spremenljivka: x, izraz: y } => klice(*x, ime) || klice(*y, ime),
        Vozlisce::PogojniStavek { pogoj, resnica, laz } => klice(*pogoj, ime) || klice(*resnica, ime)
            || klice(*laz, ime),
        Vozlisce::PrirejanjeRef { referenca, indeks, izraz } => klice(*referenca, ime) || (match indeks {
            Some(i) => klice(*i, ime),
            None => false,
        }) || klice(*izraz, ime),
        Vozlisce::Zaporedje(v) => klice_katero(v@, ime, v@.len() as int),
        Vozlisce::FunkcijskiKlic { funkcija, spremenljivke, argumenti } => (match *funkcija {
            Vozlisce::Funkcija { ime: cilj, .. } => cilj@ == ime,
            _ => false,
        }) || klice(*spremenljivke, ime) || klice(*argumenti, ime),
        _ => false,
    }
}

/// Whether one of the first `k` nodes of `s` calls the function named `ime`.
pub open spec fn klice_katero(s: Seq<Rc<Vozlisce>>, ime: Seq<char>, k: int) -> bool
    decreases s, k,
{
    if k <= 0 || k > s.len() {
        false
    } else {
        klice_katero(s, ime, k - 1) || klice(*s[k - 1], ime)
    }
}

/// Whether a function can be put in place of its calls: only a recursive
/// function, one whose body calls it, cannot. `None` for a node that is no
/// function.
pub open spec fn vrinljiva(v: Vozlisce) -> Option<bool> {
    match v {
        Vozlisce::Funkcija { ime, telo, .. } => Some(!klice(*telo, ime@)),
        _ => None,
    }
}

impl Vozlisce {
    /// Whether the node holds `other` (see `vsebnost`).
    pub fn vsebuje(&self, other: &Vozlisce) -> (r: Option<bool>)
        ensures
            r == vsebnost(*self, *other),
        decreases self, 0int,
    {
        if self.enako(other) {
            return Some(true);
        }
        match self {
            Vozlisce::Referenca(x) | Vozlisce::Zanikaj(x) | Vozlisce::CeloVReal(x) | Vozlisce::RealVCelo(x) | Vozlisce::Vrni(x) => x.vsebuje(other),
            Vozlisce::Konjunkcija(x, y) | Vozlisce::Disjunkcija(x, y) | Vozlisce::BitniAli(x, y) | Vozlisce::BitniXor(x, y) | Vozlisce::BitniIn(x, y) | Vozlisce::BitniPremikLevo(x, y) | Vozlisce::BitniPremikDesno(x, y) | Vozlisce::Add(_, x, y) | Vozlisce::Sub(_, x, y) | Vozlisce::Mul(_, x, y) | Vozlisce::Div(_, x, y) | Vozlisce::Mod(_, x, y) | Vozlisce::Pow(_, x, y) | Vozlisce::Enako(_, x, y) | Vozlisce::NiEnako(_, x, y) | Vozlisce::Vecje(_, x, y) | Vozlisce::VecjeEnako(_, x, y) | Vozlisce::Manjse(_, x, y) | Vozlisce::ManjseEnako(_, x, y) => match x.vsebuje(other) {
                Some(true) => Some(true),
                Some(false) => y.vsebuje(other),
                None => None,
            },
            Vozlisce::PogojniStavek { pogoj, resnica, laz } => {
                let p = match pogoj.vsebuje(other) {
                    Some(true) => Some(true),
                    Some(false) => resnica.vsebuje(other),
                    None => None,
                };
                match p {
                    Some(true) => Some(true),
                    Some(false) => laz.vsebuje(other),
                    None => None,
                }
            },
            Vozlisce::Zanka { pogoj, telo } => match pogoj.vsebuje(other) {
                Some(true) => Some(true),
                Some(false) => telo.vsebuje(other),
                None => None,
            },
            Vozlisce::Prirejanje { izraz, .. } => izraz.vsebuje(other),
            Vozlisce::Zaporedje(s) => {
                let mut i: usize = 0;
                while i < s.len()
                    invariant
                        0 <= i <= s@.len(),
                        *self == Vozlisce::Zaporedje(*s),
                        !enaka_vozlisca(*self, *other),
                        vsebnost_katerega(s@, *other, i as int) == Some(false),
                    decreases s@.len() - i,
                {
                    proof {
                        assert(decreases_to!(*self => self->Zaporedje_0));
                        assert(self->Zaporedje_0 == *s);
                        assert(decreases_to!(*s => s@));
                        assert(decreases_to!(s@ => s@[i as int]));
                        assert(decreases_to!(*self => s@[i as int]));
                    }
                    match s[i].vsebuje(other) {
                        Some(false) => {},
                        r => {
                            proof {
                                lema_vsebnost_katerega(s@, *other, i as int + 1, s@.len() as int);
                            }
                            return r;
                        },
                    }
                    i = i + 1;
                }
                Some(false)
            },
            Vozlisce::Okvir { zaporedje, .. } => zaporedje.vsebuje(other),
            Vozlisce::Funkcija { telo, .. } => telo.vsebuje(other),
            Vozlisce::FunkcijskiKlic { funkcija, argumenti, .. } => match other {
                Vozlisce::FunkcijskiKlic { funkcija: druga, .. } => if funkcija.enako(druga) {
                    Some(true)
                } else {
                    argumenti.vsebuje(other)
                },
                _ => None,
            },
            _ => Some(false),
        }
    }

    /// Whether the node calls the function named `ime` (see `klice`).
    pub fn klice_funkcijo(&self, ime: &str) -> (r: bool)
        ensures
            r == klice(*self, ime@),
        decreases self, 0int,
    {
        match self {
            Vozlisce::Referenca(x) | Vozlisce::RefSeznama(x) | Vozlisce::Dereferenciraj(x)
            | Vozlisce::Dolzina(x) | Vozlisce::Zanikaj(x) | Vozlisce::CeloVReal(x)
            | Vozlisce::RealVCelo(x) | Vozlisce::CeloVZnak(x) | Vozlisce::ZnakVCelo(x)
            | Vozlisce::Vrni(x) | Vozlisce::Natisni(x) | Vozlisce::PogojniSkok(x, _)
            | Vozlisce::Okvir { zaporedje: x, .. } | Vozlisce::Funkcija { telo: x, .. } => x.klice_funkcijo(ime),
            Vozlisce::Konjunkcija(x, y) | Vozlisce::Disjunkcija(x, y) | Vozlisce::BitniAli(x, y)
            | Vozlisce::BitniXor(x, y) | Vozlisce::BitniIn(x, y) | Vozlisce::BitniPremikLevo(x, y)
            | Vozlisce::BitniPremikDesno(x, y) | Vozlisce::Add(_, x, y) | Vozlisce::Sub(_, x, y)
            | Vozlisce::Mul(_, x, y) | Vozlisce::Div(_, x, y) | Vozlisce::Mod(_, x, y)
            | Vozlisce::Pow(_, x, y) | Vozlisce::Enako(_, x, y) | Vozlisce::NiEnako(_, x, y)
            | Vozlisce::Vecje(_, x, y) | Vozlisce::VecjeEnako(_, x, y) | Vozlisce::Manjse(_, x, y)
            | Vozlisce::ManjseEnako(_, x, y) | Vozlisce::Indeksiraj { seznam_ref: x, indeks: y }
            | Vozlisce::Zanka { pogoj: x, telo: y } | Vozlisce::Prirejanje { spremenljivka: x, izraz: y } => x.klice_funkcijo(ime) || y.klice_funkcijo(ime),
            Vozlisce::PogojniStavek { pogoj, resnica, laz } => pogoj.klice_funkcijo(ime)
                || resnica.klice_funkcijo(ime) || laz.klice_funkcijo(ime),
            Vozlisce::PrirejanjeRef { referenca, indeks, izraz } => {
                if referenca.klice_funkcijo(ime) {
                    return true;
                }
                let v_indeksu = match indeks {
                    Some(i) => i.klice_funkcijo(ime),
                    None => false,
                };
                v_indeksu || izraz.klice_funkcijo(ime)
            },
            Vozlisce::Zaporedje(s) => {
                let mut i: usize = 0;
                while i < s.len()
                    invariant
                        0 <= i <= s@.len(),
                        *self == Vozlisce::Zaporedje(*s),
                        !klice_katero(s@, ime@, i as int),
                    decreases s@.len() - i,
                {
                    proof {
                        assert(decreases_to!(*self => self->Zaporedje_0));
                        assert(self->Zaporedje_0 == *s);
                        assert(decreases_to!(*s => s@));
                        assert(decreases_to!(s@ => s@[i as int]));
                        assert(decreases_to!(*self => s@[i as int]));
                    }
                    if s[i].klice_funkcijo(ime) {
                        proof {
                            lema_klice_katero(s@, ime@, i as int + 1, s@.len() as int);
                        }
                        return true;
                    }
                    i = i + 1;
                }
                false
            },
            Vozlisce::FunkcijskiKlic { funkcija, spremenljivke, argumenti } => {
                let sama = match &**funkcija {
                    Vozlisce::Funkcija { ime: cilj, .. } => enaka(cilj.as_str(), ime),
                    _ => false,
                };
                sama || spremenljivke.klice_funkcijo(ime) || argumenti.klice_funkcijo(ime)
            },
            _ => false,
        }
    }

    /// Whether the function can be put in place of its calls (see
    /// `vrinljiva`): whether its body does not call it.
    pub fn lahko_vrinemo(&self) -> (r: Option<bool>)
        ensures
            r == vrinljiva(*self),
    {
        match self {
            Vozlisce::Funkcija { ime, telo, .. } => Some(!telo.klice_funkcijo(ime.as_str())),
            _ => None,
        }
    }
}

/// Once one of the first `k` nodes calls the function, one of the first `n`
/// does.
proof fn lema_klice_katero(s: Seq<Rc<Vozlisce>>, ime: Seq<char>, k: int, n: int)
    requires
        0 < k <= n <= s.len(),
        klice_katero(s, ime, k),
    ensures
        klice_katero(s, ime, n),
    decreases n - k,
{
    if k < n {
        lema_klice_katero(s, ime, k, n - 1);
    }
}

/// Once a prefix of the nodes gives an answer other than no, every longer
/// prefix gives the same.
proof fn lema_vsebnost_katerega(s: Seq<Rc<Vozlisce>>, o: Vozlisce, k: int, n: int)
    requires
        0 < k <= n <= s.len(),
        vsebnost_katerega(s, o, k) != Some(false),
    ensures
        vsebnost_katerega(s, o, n) == vsebnost_katerega(s, o, k),
    decreases n - k,
{
    if k < n {
        lema_vsebnost_katerega(s, o, k, n - 1);
    }
}

/// Equality of nodes does not depend on the order: `a` equals `b` exactly
/// when `b` equals `a`.
pub proof fn zakon_enakost_simetricna(a: &Vozlisce, b: &Vozlisce)
    ensures
        enaka_vozlisca(*a, *b) == enaka_vozlisca(*b, *a),
    decreases *a, 0int,
{
    match (a, b) {
        (Vozlisce::Add(_, ll, ld), Vozlisce::Add(_, dl, dd)) | (Vozlisce::Sub(_, ll, ld), Vozlisce::Sub(_, dl, dd)) | (Vozlisce::Mul(_, ll, ld), Vozlisce::Mul(_, dl, dd)) | (Vozlisce::Div(_, ll, ld), Vozlisce::Div(_, dl, dd)) | (Vozlisce::Mod(_, ll, ld), Vozlisce::Mod(_, dl, dd)) | (Vozlisce::Pow(_, ll, ld), Vozlisce::Pow(_, dl, dd)) | (Vozlisce::Enako(_, ll, ld), Vozlisce::Enako(_, dl, dd)) | (Vozlisce::NiEnako(_, ll, ld), Vozlisce::NiEnako(_, dl, dd)) | (Vozlisce::Vecje(_, ll, ld), Vozlisce::Vecje(_, dl, dd)) | (Vozlisce::VecjeEnako(_, ll, ld), Vozlisce::VecjeEnako(_, dl, dd)) | (Vozlisce::Manjse(_, ll, ld), Vozlisce::Manjse(_, dl, dd)) | (Vozlisce::ManjseEnako(_, ll, ld), Vozlisce::ManjseEnako(_, dl, dd)) => {
            zakon_enakost_simetricna(&**ll, &**dl);
            zakon_enakost_simetricna(&**ld, &**dd);
        },
        (Vozlisce::Konjunkcija(ll, ld), Vozlisce::Konjunkcija(dl, dd)) | (Vozlisce::Disjunkcija(ll, ld), Vozlisce::Disjunkcija(dl, dd)) | (Vozlisce::BitniAli(ll, ld), Vozlisce::BitniAli(dl, dd)) | (Vozlisce::BitniXor(ll, ld), Vozlisce::BitniXor(dl, dd)) | (Vozlisce::BitniIn(ll, ld), Vozlisce::BitniIn(dl, dd)) | (Vozlisce::BitniPremikLevo(ll, ld), Vozlisce::BitniPremikLevo(dl, dd)) | (Vozlisce::BitniPremikDesno(ll, ld), Vozlisce::BitniPremikDesno(dl, dd)) => {
            zakon_enakost_simetricna(&**ll, &**dl);
            zakon_enakost_simetricna(&**ld, &**dd);
        },
        (Vozlisce::Referenca(x), Vozlisce::Referenca(y)) | (Vozlisce::Dereferenciraj(x), Vozlisce::Dereferenciraj(y)) | (Vozlisce::CeloVReal(x), Vozlisce::CeloVReal(y)) | (Vozlisce::RealVCelo(x), Vozlisce::RealVCelo(y)) | (Vozlisce::Zanikaj(x), Vozlisce::Zanikaj(y)) | (Vozlisce::Vrni(x), Vozlisce::Vrni(y)) | (Vozlisce::Natisni(x), Vozlisce::Natisni(y)) => {
            zakon_enakost_simetricna(&**x, &**y);
        },
        (Vozlisce::PogojniSkok(ll, _), Vozlisce::PogojniSkok(dl, _)) => {
            zakon_enakost_simetricna(&**ll, &**dl);
        },
        (
            Vozlisce::PogojniStavek { pogoj: lp, resnica: lr, laz: ll },
            Vozlisce::PogojniStavek { pogoj: dp, resnica: dr, laz: dl },
        ) => {
            zakon_enakost_simetricna(&**lp, &**dp);
            zakon_enakost_simetricna(&**lr, &**dr);
            zakon_enakost_simetricna(&**ll, &**dl);
        },
        (Vozlisce::Zanka { pogoj: lp, telo: lt }, Vozlisce::Zanka { pogoj: dp, telo: dt }) => {
            zakon_enakost_simetricna(&**lp, &**dp);
            zakon_enakost_simetricna(&**lt, &**dt);
        },
        (
            Vozlisce::Prirejanje { spremenljivka: ls, izraz: li },
            Vozlisce::Prirejanje { spremenljivka: ds, izraz: di },
        ) => {
            zakon_enakost_simetricna(&**ls, &**ds);
            zakon_enakost_simetricna(&**li, &**di);
        },
        (
            Vozlisce::PrirejanjeRef { referenca: lr, indeks: lin, izraz: li },
            Vozlisce::PrirejanjeRef { referenca: dr, indeks: din, izraz: di },
        ) => {
            zakon_enakost_simetricna(&**lr, &**dr);
            zakon_enakost_simetricna(&**li, &**di);
            match (lin, din) {
                (Some(x), Some(y)) => {
                    zakon_enakost_simetricna(&**x, &**y);
                },
                _ => {},
            }
        },
        (Vozlisce::Zaporedje(l), Vozlisce::Zaporedje(d)) => {
            if l@.len() == d@.len() {
                lema_enaka_vsa_simetricna(l@, d@, l@.len() as int);
            }
        },
        (Vozlisce::Okvir { zaporedje: lz, .. }, Vozlisce::Okvir { zaporedje: dz, .. }) => {
            zakon_enakost_simetricna(&**lz, &**dz);
        },
        _ => {},
    }
}

/// Equality of the first `k` nodes one by one does not depend on the order.
proof fn lema_enaka_vsa_simetricna(l: Seq<Rc<Vozlisce>>, d: Seq<Rc<Vozlisce>>, k: int)
    requires
        l.len() == d.len(),
    ensures
        enaka_vsa(l, d, k) == enaka_vsa(d, l, k),
    decreases l, k,
{
    if !(k <= 0 || k > l.len()) {
        lema_enaka_vsa_simetricna(l, d, k - 1);
        zakon_enakost_simetricna(&*l[k - 1], &*d[k - 1]);
    }
}

/// Whether every node of the tree is of a kind that equality compares by its
/// parts, and no real number in it is NaN: the nodes that equality never
/// finds equal (a reference to an array, an index, a length, a conversion
/// between whole numbers and characters, a program counter, the jumps and
/// calls by name, reading and flushing) are left out. The body of a
/// function and the parts of a call are not looked into, as equality does
/// not look into them.
pub open spec fn primerljivo(v: Vozlisce) -> bool
    decreases v, 0int,
{
    match v {
        Vozlisce::Real(x) => enaka_realna(x, x),
        Vozlisce::Add(_, l, d) | Vozlisce::Sub(_, l, d) | Vozlisce::Mul(_, l, d) | Vozlisce::Div(_, l, d) | Vozlisce::Mod(_, l, d) | Vozlisce::Pow(_, l, d) | Vozlisce::Enako(_, l, d) | Vozlisce::NiEnako(_, l, d) | Vozlisce::Vecje(_, l, d) | Vozlisce::VecjeEnako(_, l, d) | Vozlisce::Manjse(_, l, d) | Vozlisce::ManjseEnako(_, l, d) => primerljivo(*l) && primerljivo(*d),
        Vozlisce::Konjunkcija(l, d) | Vozlisce::Disjunkcija(l, d) | Vozlisce::BitniAli(l, d) | Vozlisce::BitniXor(l, d) | Vozlisce::BitniIn(l, d) | Vozlisce::BitniPremikLevo(l, d) | Vozlisce::BitniPremikDesno(l, d) => primerljivo(*l) && primerljivo(*d),
        Vozlisce::Referenca(x) | Vozlisce::Dereferenciraj(x) | Vozlisce::CeloVReal(x) | Vozlisce::RealVCelo(x) | Vozlisce::Zanikaj(x) | Vozlisce::Vrni(x) | Vozlisce::Natisni(x) => primerljivo(*x),
        Vozlisce::PogojniSkok(x, _) => primerljivo(*x),
        Vozlisce::PogojniStavek { pogoj, resnica, laz } => primerljivo(*pogoj) && primerljivo(*resnica) && primerljivo(*laz),
        Vozlisce::Zanka { pogoj, telo } => primerljivo(*pogoj) && primerljivo(*telo),
        Vozlisce::Prirejanje { spremenljivka, izraz } => primerljivo(*spremenljivka) && primerljivo(*izraz),
        Vozlisce::PrirejanjeRef { referenca, indeks, izraz } => primerljivo(*referenca) && (match indeks {
            Some(i) => primerljivo(*i),
            None => true,
        }) && primerljivo(*izraz),
        Vozlisce::Zaporedje(s) => primerljiva_vsa(s@, s@.len() as int),
        Vozlisce::Okvir { zaporedje, .. } => primerljivo(*zaporedje),
        Vozlisce::RefSeznama(_) | Vozlisce::Indeksiraj { .. } | Vozlisce::Dolzina(_) | Vozlisce::CeloVZnak(_)
        | Vozlisce::ZnakVCelo(_) | Vozlisce::ProgramskiStevec(_) | Vozlisce::Skok(_) | Vozlisce::Klic(_)
        | Vozlisce::DinamicniSkok | Vozlisce::Preberi | Vozlisce::Splakni => false,
        _ => true,
    }
}

/// Whether the first `k` nodes of `s` are `primerljivo`.
pub open spec fn primerljiva_vsa(s: Seq<Rc<Vozlisce>>, k: int) -> bool
    decreases s, k,
{
    if k <= 0 || k > s.len() {
        true
    } else {
        primerljiva_vsa(s, k - 1) && primerljivo(*s[k - 1])
    }
}

/// A tree whose nodes equality compares by their parts, with no NaN in it,
/// is equal to itself.
pub proof fn zakon_enakost_refleksivna(v: &Vozlisce)
    requires
        primerljivo(*v),
    ensures
        enaka_vozlisca(*v, *v),
    decreases *v, 0int,
{
    match v {
        Vozlisce::Add(_, l, d) | Vozlisce::Sub(_, l, d) | Vozlisce::Mul(_, l, d) | Vozlisce::Div(_, l, d) | Vozlisce::Mod(_, l, d) | Vozlisce::Pow(_, l, d) | Vozlisce::Enako(_, l, d) | Vozlisce::NiEnako(_, l, d) | Vozlisce::Vecje(_, l, d) | Vozlisce::VecjeEnako(_, l, d) | Vozlisce::Manjse(_, l, d) | Vozlisce::ManjseEnako(_, l, d) => {
            zakon_enakost_refleksivna(&**l);
            zakon_enakost_refleksivna(&**d);
        },
        Vozlisce::Konjunkcija(l, d) | Vozlisce::Disjunkcija(l, d) | Vozlisce::BitniAli(l, d) | Vozlisce::BitniXor(l, d) | Vozlisce::BitniIn(l, d) | Vozlisce::BitniPremikLevo(l, d) | Vozlisce::BitniPremikDesno(l, d) => {
            zakon_enakost_refleksivna(&**l);
            zakon_enakost_refleksivna(&**d);
        },
        Vozlisce::Referenca(x) | Vozlisce::Dereferenciraj(x) | Vozlisce::CeloVReal(x) | Vozlisce::RealVCelo(x) | Vozlisce::Zanikaj(x) | Vozlisce::Vrni(x) | Vozlisce::Natisni(x) => {
            zakon_enakost_refleksivna(&**x);
        },
        Vozlisce::PogojniSkok(x, _) => {
            zakon_enakost_refleksivna(&**x);
        },
        Vozlisce::PogojniStavek { pogoj, resnica, laz } => {
            zakon_enakost_refleksivna(&**pogoj);
            zakon_enakost_refleksivna(&**resnica);
            zakon_enakost_refleksivna(&**laz);
        },
        Vozlisce::Zanka { pogoj, telo } => {
            zakon_enakost_refleksivna(&**pogoj);
            zakon_enakost_refleksivna(&**telo);
        },
        Vozlisce::Prirejanje { spremenljivka, izraz } => {
            zakon_enakost_refleksivna(&**spremenljivka);
            zakon_enakost_refleksivna(&**izraz);
        },
        Vozlisce::PrirejanjeRef { referenca, indeks, izraz } => {
            zakon_enakost_refleksivna(&**referenca);
            zakon_enakost_refleksivna(&**izraz);
            match indeks {
                Some(i) => {
                    zakon_enakost_refleksivna(&**i);
                },
                None => {},
            }
        },
        Vozlisce::Zaporedje(s) => {
            lema_enaka_vsa_refleksivna(s@, s@.len() as int);
        },
        Vozlisce::Okvir { zaporedje, .. } => {
            zakon_enakost_refleksivna(&**zaporedje);
        },
        _ => {},
    }
}

/// The first `k` nodes, each `primerljivo`, are equal to themselves.
proof fn lema_enaka_vsa_refleksivna(s: Seq<Rc<Vozlisce>>, k: int)
    requires
        primerljiva_vsa(s, k),
    ensures
        enaka_vsa(s, s, k),
    decreases s, k,
{
    if !(k <= 0 || k > s.len()) {
        lema_enaka_vsa_refleksivna(s, k - 1);
        zakon_enakost_refleksivna(&*s[k - 1]);
    }
}

} // verus!
