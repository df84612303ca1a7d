//! The types of the language: the basic types, arrays of a fixed length,
//! structures with named fields, and references.

use crate::besedilo::{desetisko_celo, dodaj_desetisko_celo, enaka};
use crate::urejanje::manjse;
use vstd::prelude::*;
use vstd::string::StringExecFns;

verus! {

/// A type. The fields of a structure are kept sorted by name, each name once.
#[derive(Debug, PartialEq)]
pub enum Tip {
    Brez,
    Bool,
    Celo,
    Real,
    Znak,
    Seznam(Box<Tip>, i32),
    Strukt(Vec<(String, Box<Tip>)>),
    Referenca(Box<Tip>),
    RefSeznama(Box<Tip>),
}

/// The mathematical value of a type.
pub enum TipV {
    Brez,
    Bool,
    Celo,
    Real,
    Znak,
    Seznam(Box<TipV>, int),
    Strukt(Seq<(Seq<char>, TipV)>),
    Referenca(Box<TipV>),
    RefSeznama(Box<TipV>),
}

impl Tip {
    /// The mathematical value of the type.
    pub open spec fn pogled(&self) -> TipV
        decreases self,
    {
        match self {
            Tip::Brez => TipV::Brez,
            Tip::Bool => TipV::Bool,
            Tip::Celo => TipV::Celo,
            Tip::Real => TipV::Real,
            Tip::Znak => TipV::Znak,
            Tip::Seznam(t, d) => TipV::Seznam(Box::new(t.pogled()), *d as int),
            Tip::Strukt(p) => TipV::Strukt(
                Seq::new(
                    p@.len(),
                    |i: int|
                        (
                            p@[i].0@,
                            if 0 <= i < p@.len() {
                                p@[i].1.pogled()
                            } else {
                                TipV::Brez
                            },
                        ),
                ),
            ),
            Tip::Referenca(t) => TipV::Referenca(Box::new(t.pogled())),
            Tip::RefSeznama(t) => TipV::RefSeznama(Box::new(t.pogled())),
        }
    }
}

impl View for Tip {
    type V = TipV;

    open spec fn view(&self) -> TipV {
        self.pogled()
    }
}

/// The names of the fields of a structure.
pub open spec fn imena(p: Seq<(Seq<char>, TipV)>) -> Seq<Seq<char>> {
    p.map_values(|f: (Seq<char>, TipV)| f.0)
}

/// Whether the names come in strictly increasing order.
pub open spec fn urejena(imena: Seq<Seq<char>>) -> bool {
    forall|i: int, j: int| 0 <= i < j < imena.len() ==> manjse(#[trigger] imena[i], #[trigger] imena[j])
}

/// Whether every structure in the type has its fields sorted by name, each
/// name once.
pub open spec fn dobro_oblikovan(t: TipV) -> bool
    decreases t,
{
    match t {
        TipV::Seznam(n, _) => dobro_oblikovan(*n),
        TipV::Strukt(p) => urejena(imena(p)) && forall|k: int|
            0 <= k < p.len() ==> dobro_oblikovan(#[trigger] p[k].1),
        TipV::Referenca(n) => dobro_oblikovan(*n),
        TipV::RefSeznama(n) => dobro_oblikovan(*n),
        _ => true,
    }
}

/// How the type is written: `brez`, `bool`, `celo`, `real`, `znak`,
/// `[T; n]`, a structure as `{`, a line `name: T,` for each field and `}`,
/// `@T` and `@[T]`.
pub open spec fn prikaz(t: TipV) -> Seq<char>
    decreases t, 0int,
{
    match t {
        TipV::Brez => "brez"@,
        TipV::Bool => "bool"@,
        TipV::Celo => "celo"@,
        TipV::Real => "real"@,
        TipV::Znak => "znak"@,
        TipV::Seznam(n, d) => "["@ + prikaz(*n) + "; "@ + desetisko_celo(d) + "]"@,
        TipV::Strukt(p) => "{\n"@ + prikaz_polj(p, p.len() as int) + "}"@,
        TipV::Referenca(n) => "@"@ + prikaz(*n),
        TipV::RefSeznama(n) => "@["@ + prikaz(*n) + "]"@,
    }
}

/// The lines of the first `k` fields of a structure.
pub open spec fn prikaz_polj(p: Seq<(Seq<char>, TipV)>, k: int) -> Seq<char>
    decreases p, k,
{
    if k <= 0 || k > p.len() {
        Seq::empty()
    } else {
        prikaz_polj(p, k - 1) + p[k - 1].0 + ": "@ + prikaz(p[k - 1].1) + ",\n"@
    }
}

/// How many stack cells a value of the type takes: none for `brez`, one for
/// a basic type and a reference, one more than its elements for an array,
/// and the sum of its fields for a structure.
pub open spec fn velikost(t: TipV) -> int
    decreases t, 0int,
{
    match t {
        TipV::Brez => 0,
        TipV::Seznam(n, d) => velikost(*n) * d + 1,
        TipV::Strukt(p) => velikost_polj(p, p.len() as int),
        _ => 1,
    }
}

/// The cells of the first `k` fields of a structure.
pub open spec fn velikost_polj(p: Seq<(Seq<char>, TipV)>, k: int) -> int
    decreases p, k,
{
    if k <= 0 || k > p.len() {
        0
    } else {
        velikost_polj(p, k - 1) + velikost(p[k - 1].1)
    }
}

/// Whether a number fits in `i32`.
pub open spec fn v_i32(x: int) -> bool {
    i32::MIN <= x <= i32::MAX
}

/// Counting the cells of a type in range gives a number in range.
pub proof fn lema_velikost_v_mejah(t: TipV)
    requires
        velikost_v_mejah(t),
    ensures
        v_i32(velikost(t)),
{
    if let TipV::Strukt(p) = t {
        assert(v_i32(velikost_polj(p, p.len() as int)));
    }
}

/// Whether every step of counting the cells of the type, as `i32`, stays in
/// range.
pub open spec fn velikost_v_mejah(t: TipV) -> bool
    decreases t,
{
    match t {
        TipV::Seznam(n, d) => velikost_v_mejah(*n) && v_i32(velikost(*n) * d) && v_i32(velikost(*n) * d + 1),
        TipV::Strukt(p) => (forall|k: int| 0 <= k < p.len() ==> velikost_v_mejah(#[trigger] p[k].1)) && (forall|k: int|
            0 <= k <= p.len() ==> v_i32(#[trigger] velikost_polj(p, k))),
        _ => true,
    }
}

impl Tip {
    /// Appends how the type is written to `s`.
    pub fn prikazi(&self, s: &mut String)
        ensures
            final(s)@ == old(s)@ + prikaz(self@),
        decreases self,
    {
        match self {
            Tip::Brez => s.append("brez"),
            Tip::Bool => s.append("bool"),
            Tip::Celo => s.append("celo"),
            Tip::Real => s.append("real"),
            Tip::Znak => s.append("znak"),
            Tip::Seznam(t, d) => {
                s.append("[");
                t.prikazi(s);
                s.append("; ");
                dodaj_desetisko_celo(s, *d as i64);
                s.append("]");
            },
            Tip::Strukt(p) => {
                let ghost pv = match self@ {
                    TipV::Strukt(q) => q,
                    _ => Seq::empty(),
                };
                let ghost zacetek = s@;
                s.append("{\n");
                let mut i: usize = 0;
                while i < p.len()
                    invariant
                        0 <= i <= p@.len(),
                        pv.len() == p@.len(),
                        forall|k: int| 0 <= k < p@.len() ==> pv[k] == (p@[k].0@, p@[k].1@),
                        *self == Tip::Strukt(*p),
                        s@ == zacetek + "{\n"@ + prikaz_polj(pv, i as int),
                    decreases p@.len() - i,
                {
                    s.append(p[i].0.as_str());
                    s.append(": ");
                    proof {
                        assert(decreases_to!(*self => self->Strukt_0));
                        assert(self->Strukt_0 == *p);
                        assert(decreases_to!(*p => p@));
                        assert(decreases_to!(p@ => p@[i as int]));
                        assert(decreases_to!(p@[i as int] => p@[i as int].1));
                        assert(decreases_to!(*self => p@[i as int].1));
                    }
                    p[i].1.prikazi(s);
                    s.append(",\n");
                    i = i + 1;
                }
                s.append("}");
            },
            Tip::Referenca(t) => {
                s.append("@");
                t.prikazi(s);
            },
            Tip::RefSeznama(t) => {
                s.append("@[");
                t.prikazi(s);
                s.append("]");
            },
        }
    }

    /// How the type is written.
    pub fn to_string(&self) -> (r: String)
        ensures
            r@ == prikaz(self@),
    {
        let mut s = String::new();
        self.prikazi(&mut s);
        s
    }

    /// The length of an array type.
    pub fn dolzina(&self) -> (r: i32)
        requires
            self is Seznam,
        ensures
            self@ matches TipV::Seznam(_, d) && r == d,
    {
        match self {
            Tip::Seznam(_, d) => *d,
            _ => 0,
        }
    }

    /// How many stack cells a value of the type takes.
    pub fn sprememba_stacka(&self) -> (r: i32)
        requires
            velikost_v_mejah(self@),
        ensures
            r == velikost(self@),
        decreases self,
    {
        match self {
            Tip::Brez => 0,
            Tip::Bool | Tip::Celo | Tip::Real | Tip::Znak => 1,
            Tip::Seznam(t, d) => t.sprememba_stacka() * *d + 1,
            Tip::Strukt(p) => {
                let ghost pv = match self@ {
                    TipV::Strukt(q) => q,
                    _ => Seq::empty(),
                };
                assert(self@ == TipV::Strukt(pv));
                assert(forall|k: int| 0 <= k < pv.len() ==> velikost_v_mejah(#[trigger] pv[k].1));
                assert(forall|k: int| 0 <= k <= pv.len() ==> v_i32(#[trigger] velikost_polj(pv, k)));
                let mut vsota: i32 = 0;
                let mut i: usize = 0;
                while i < p.len()
                    invariant
                        0 <= i <= p@.len(),
                        pv.len() == p@.len(),
                        forall|k: int| 0 <= k < p@.len() ==> pv[k] == (p@[k].0@, p@[k].1@),
                        forall|k: int| 0 <= k < pv.len() ==> velikost_v_mejah(#[trigger] pv[k].1),
                        forall|k: int| 0 <= k <= pv.len() ==> v_i32(#[trigger] velikost_polj(pv, k)),
                        *self == Tip::Strukt(*p),
                        vsota == velikost_polj(pv, i as int),
                    decreases p@.len() - i,
                {
                    assert(velikost_v_mejah(pv[i as int].1));
                    assert(v_i32(velikost_polj(pv, i + 1)));
                    proof {
                        assert(decreases_to!(*self => self->Strukt_0));
                        assert(self->Strukt_0 == *p);
                        assert(decreases_to!(*p => p@));
                        assert(decreases_to!(p@ => p@[i as int]));
                        assert(decreases_to!(p@[i as int] => p@[i as int].1));
                        assert(decreases_to!(*self => p@[i as int].1));
                    }
                    let v = p[i].1.sprememba_stacka();
                    vsota = vsota + v;
                    i = i + 1;
                }
                vsota
            },
            Tip::Referenca(_) => 1,
            Tip::RefSeznama(_) => 1,
        }
    }

    /// How many stack cells a value of the type takes, as `i32`; `None`
    /// where a step of counting them leaves the range of `i32`.
    pub fn velikost_preverjena(&self) -> (r: Option<i32>)
        ensures
            r == (if velikost_v_mejah(self@) {
                Some(velikost(self@) as i32)
            } else {
                None::<i32>
            }),
        decreases self,
    {
        match self {
            Tip::Brez => Some(0),
            Tip::Bool | Tip::Celo | Tip::Real | Tip::Znak => Some(1),
            Tip::Seznam(t, d) => {
                assert(self@ == TipV::Seznam(Box::new(t@), *d as int));
                match t.velikost_preverjena() {
                    None => None,
                    Some(n) => {
                        proof {
                            lema_velikost_v_mejah(t@);
                        }
                        assert(n as int == velikost(t@));
                        match n.checked_mul(*d) {
                            None => None,
                            Some(m) => {
                                assert(m as int == velikost(t@) * *d);
                                let r = m.checked_add(1);
                                proof {
                                    if velikost_v_mejah(self@) {
                                        assert(r == Some((velikost(t@) * *d + 1) as i32));
                                    }
                                }
                                r
                            },
                        }
                    },
                }
            },
            Tip::Strukt(p) => {
                let ghost pv = match self@ {
                    TipV::Strukt(q) => q,
                    _ => Seq::empty(),
                };
                assert(self@ == TipV::Strukt(pv));
                let mut vsota: i32 = 0;
                let mut i: usize = 0;
                while i < p.len()
                    invariant
                        0 <= i <= p@.len(),
                        pv.len() == p@.len(),
                        forall|k: int| 0 <= k < p@.len() ==> pv[k] == (p@[k].0@, p@[k].1@),
                        forall|k: int| 0 <= k < i ==> velikost_v_mejah(#[trigger] pv[k].1),
                        forall|k: int| 0 <= k <= i ==> v_i32(#[trigger] velikost_polj(pv, k)),
                        *self == Tip::Strukt(*p),
                        self@ == TipV::Strukt(pv),
                        vsota == velikost_polj(pv, i as int),
                    decreases p@.len() - i,
                {
                    proof {
                        assert(decreases_to!(*self => self->Strukt_0));
                        assert(self->Strukt_0 == *p);
                        assert(decreases_to!(*p => p@));
                        assert(decreases_to!(p@ => p@[i as int]));
                        assert(decreases_to!(p@[i as int] => p@[i as int].1));
                        assert(decreases_to!(*self => p@[i as int].1));
                    }
                    match p[i].1.velikost_preverjena() {
                        None => {
                            assert(!velikost_v_mejah(pv[i as int].1));
                            return None;
                        },
                        Some(v) => {
                            proof {
                                lema_velikost_v_mejah(pv[i as int].1);
                            }
                            match vsota.checked_add(v) {
                                None => {
                                    assert(!v_i32(velikost_polj(pv, i + 1)));
                                    return None;
                                },
                                Some(w) => {
                                    vsota = w;
                                },
                            }
                        },
                    }
                    i = i + 1;
                }
                assert(velikost_v_mejah(self@));
                assert(velikost(self@) == velikost_polj(pv, pv.len() as int));
                Some(vsota)
            },
            Tip::Referenca(_) => Some(1),
            Tip::RefSeznama(_) => Some(1),
        }
    }

    /// Whether the two types are the same.
    pub fn enak(&self, other: &Tip) -> (r: bool)
        ensures
            r == (self@ == other@),
        decreases self,
    {
        match (self, other) {
            (Tip::Brez, Tip::Brez) | (Tip::Bool, Tip::Bool) | (Tip::Celo, Tip::Celo) | (Tip::Real, Tip::Real)
            | (Tip::Znak, Tip::Znak) => true,
            (Tip::Seznam(a, m), Tip::Seznam(b, n)) => {
                let r = a.enak(b) && *m == *n;
                assert(r == (self@ == other@)) by {
                    if !r && a@ == b@ {
                        assert(*m as int != *n as int);
                    }
                }
                r
            },
            (Tip::Referenca(a), Tip::Referenca(b)) | (Tip::RefSeznama(a), Tip::RefSeznama(b)) => a.enak(b),
            (Tip::Strukt(p), Tip::Strukt(q)) => {
                let ghost pv = match self@ {
                    TipV::Strukt(x) => x,
                    _ => Seq::empty(),
                };
                let ghost qv = match other@ {
                    TipV::Strukt(x) => x,
                    _ => Seq::empty(),
                };
                assert(self@ == TipV::Strukt(pv));
                assert(other@ == TipV::Strukt(qv));
                if p.len() != q.len() {
                    assert(pv.len() != qv.len());
                    return false;
                }
                let mut i: usize = 0;
                while i < p.len()
                    invariant
                        0 <= i <= p@.len(),
                        p@.len() == q@.len(),
                        pv.len() == p@.len(),
                        qv.len() == q@.len(),
                        forall|k: int| 0 <= k < p@.len() ==> pv[k] == (p@[k].0@, p@[k].1@),
                        forall|k: int| 0 <= k < q@.len() ==> qv[k] == (q@[k].0@, q@[k].1@),
                        forall|k: int| 0 <= k < i ==> pv[k] == qv[k],
                        *self == Tip::Strukt(*p),
                        self@ == TipV::Strukt(pv),
                        other@ == TipV::Strukt(qv),
                    decreases p@.len() - i,
                {
                    proof {
                        assert(decreases_to!(*self => self->Strukt_0));
                        assert(self->Strukt_0 == *p);
                        assert(decreases_to!(*p => p@));
                        assert(decreases_to!(p@ => p@[i as int]));
                        assert(decreases_to!(p@[i as int] => p@[i as int].1));
                        assert(decreases_to!(*self => p@[i as int].1));
                    }
                    if !enaka(p[i].0.as_str(), q[i].0.as_str()) || !p[i].1.enak(&q[i].1) {
                        assert(pv[i as int] != qv[i as int]);
                        return false;
                    }
                    i = i + 1;
                }
                assert(pv =~= qv);
                true
            },
            _ => false,
        }
    }

    /// A copy of the type.
    pub fn kopija(&self) -> (r: Tip)
        ensures
            r@ == self@,
        decreases self,
    {
        match self {
            Tip::Brez => Tip::Brez,
            Tip::Bool => Tip::Bool,
            Tip::Celo => Tip::Celo,
            Tip::Real => Tip::Real,
            Tip::Znak => Tip::Znak,
            Tip::Seznam(t, d) => Tip::Seznam(Box::new(t.kopija()), *d),
            Tip::Strukt(p) => {
                let mut q: Vec<(String, Box<Tip>)> = Vec::new();
                let mut i: usize = 0;
                while i < p.len()
                    invariant
                        0 <= i <= p@.len(),
                        q@.len() == i,
                        *self == Tip::Strukt(*p),
                        forall|k: int| 0 <= k < i ==> (#[trigger] q@[k]).0@ == p@[k].0@ && q@[k].1@ == p@[k].1@,
                    decreases p@.len() - i,
                {
                    let ime = p[i].0.clone();
                    proof {
                        assert(decreases_to!(*self => self->Strukt_0));
                        assert(self->Strukt_0 == *p);
                        assert(decreases_to!(*p => p@));
                        assert(decreases_to!(p@ => p@[i as int]));
                        assert(decreases_to!(p@[i as int] => p@[i as int].1));
                        assert(decreases_to!(*self => p@[i as int].1));
                    }
                    let t = p[i].1.kopija();
                    q.push((ime, Box::new(t)));
                    i = i + 1;
                }
                let r = Tip::Strukt(q);
                proof {
                    let a = match r@ {
                        TipV::Strukt(x) => x,
                        _ => Seq::empty(),
                    };
                    let b = match self@ {
                        TipV::Strukt(x) => x,
                        _ => Seq::empty(),
                    };
                    assert forall|k: int| 0 <= k < a.len() implies a[k] == b[k] by {
                        assert(q@[k].1@ == p@[k].1@);
                    }
                    assert(a =~= b);
                }
                r
            },
            Tip::Referenca(t) => Tip::Referenca(Box::new(t.kopija())),
            Tip::RefSeznama(t) => Tip::RefSeznama(Box::new(t.kopija())),
        }
    }

    /// The type of the elements of an array type.
    pub fn vsebuje_tip(&self) -> (r: Tip)
        requires
            self is Seznam,
        ensures
            self@ matches TipV::Seznam(n, _) && r@ == *n,
    {
        match self {
            Tip::Seznam(t, _) => t.kopija(),
            _ => Tip::Brez,
        }
    }
}

impl Clone for Tip {
    fn clone(&self) -> (r: Self)
        ensures
            r@ == self@,
    {
        self.kopija()
    }
}

} // verus!
