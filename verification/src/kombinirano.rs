//! Assignments that compute: combined assignments (`a += 1`, `r@ *= 2`,
//! ...) with their operator table, and assignments to an element of an
//! array (`s[i] = x`).

use crate::besedilo::enaka;
use crate::izraz::{
    aritmeticna, aritmeticna_x, bitna, bitna_x, drevo_ali_zunaj, drevo_v, poisci, sporocilo_tipov, sporocilo_tipov_x, ustreza,
    IzidIzraza, Parser, ParserV,
};
use crate::lekser::Zeton;
use crate::napaka::{v_mejah, vsi_v_mejah, Napake, OznakaNapake};
use crate::pogled::{lema_tip_pogled, pogled, tip_v, VozelV};
use crate::stavek::{napaka_na, napaka_na_x, napaka_zetona_x};
use crate::tip::{prikaz, Tip, TipV};
use crate::stavek::{niz, razcep, razcep_x};
use crate::klic::pogled_rc;
use crate::vozlisce::Vozlisce;
use std::rc::Rc;
use vstd::prelude::*;

verus! {

/// The kind of the operation of a combined assignment.
#[derive(PartialEq, Eq, Clone, Copy, Debug)]
pub enum VrstaOperatorja {
    Aritmeticni,
    Logicni,
    Bitni,
}

/// The operator table of combined assignments: the kind of the operation
/// and its operator; nothing for another text.
pub open spec fn prireditveni_op(o: Seq<char>) -> Option<(VrstaOperatorja, Seq<char>)> {
    if o == "+="@ {
        Some((VrstaOperatorja::Aritmeticni, "+"@))
    } else if o == "-="@ {
        Some((VrstaOperatorja::Aritmeticni, "-"@))
    } else if o == "*="@ {
        Some((VrstaOperatorja::Aritmeticni, "*"@))
    } else if o == "/="@ {
        Some((VrstaOperatorja::Aritmeticni, "/"@))
    } else if o == "%="@ {
        Some((VrstaOperatorja::Aritmeticni, "%"@))
    } else if o == "**="@ {
        Some((VrstaOperatorja::Aritmeticni, "**"@))
    } else if o == "||="@ {
        Some((VrstaOperatorja::Logicni, "||"@))
    } else if o == "&&="@ {
        Some((VrstaOperatorja::Logicni, "&&"@))
    } else if o == "<<="@ {
        Some((VrstaOperatorja::Bitni, "<<"@))
    } else if o == ">>="@ {
        Some((VrstaOperatorja::Bitni, ">>"@))
    } else if o == "|="@ {
        Some((VrstaOperatorja::Bitni, "|"@))
    } else if o == "^="@ {
        Some((VrstaOperatorja::Bitni, "^"@))
    } else if o == "&="@ {
        Some((VrstaOperatorja::Bitni, "&"@))
    } else {
        None
    }
}

/// The error about the types of a combined assignment.
pub open spec fn nemogoca(op: Zeton, a: TipV, b: TipV) -> IzidIzraza {
    napaka_na(seq![op], OznakaNapake::E3, sporocilo_tipov("Nemogoča operacija: "@, a, op.besedilo()@, b))
}

/// The value that a combined assignment gives: the operation on what is
/// assigned to and the expression. Arithmetic takes two integers or two
/// reals, logic two truth values, and bit operations two integers.
pub open spec fn kombinirano_v(spr: VozelV, op: Zeton, d: VozelV) -> IzidIzraza {
    match (tip_v(spr), tip_v(d)) {
        (Some(ts), Some(td)) => match prireditveni_op(op.besedilo()@) {
            Some((VrstaOperatorja::Aritmeticni, b)) => if ts is Celo && td is Celo {
                drevo_ali_zunaj(aritmeticna(b, TipV::Celo, Box::new(spr), Box::new(d)))
            } else if ts is Real && td is Real {
                drevo_ali_zunaj(aritmeticna(b, TipV::Real, Box::new(spr), Box::new(d)))
            } else {
                nemogoca(op, ts, td)
            },
            Some((VrstaOperatorja::Logicni, b)) => if ts is Bool && td is Bool {
                IzidIzraza::Drevo(
                    if b == "||"@ {
                        VozelV::Disjunkcija(Box::new(spr), Box::new(d))
                    } else {
                        VozelV::Konjunkcija(Box::new(spr), Box::new(d))
                    },
                )
            } else {
                nemogoca(op, ts, td)
            },
            Some((VrstaOperatorja::Bitni, b)) => if ts is Celo && td is Celo {
                drevo_ali_zunaj(bitna(b, Box::new(spr), Box::new(d)))
            } else {
                nemogoca(op, ts, td)
            },
            None => napaka_na(seq![op], OznakaNapake::E4, "Neznan operator"@),
        },
        _ => IzidIzraza::Zunaj,
    }
}

/// `ime op= izraz`: the variable given the value of the operation on it
/// and the expression.
pub open spec fn kombinirano_prirejanje_v(p: ParserV, ime: Zeton, op: Zeton, s: Seq<Zeton>) -> IzidIzraza {
    match poisci(p, ime.besedilo()@) {
        None => napaka_na(seq![ime], OznakaNapake::E2, "Neznana spremenljivka"@),
        Some(x) => match drevo_v(p, s, s.len()) {
            IzidIzraza::Drevo(d) => match kombinirano_v(x, op, d) {
                IzidIzraza::Drevo(e) => IzidIzraza::Drevo(
                    VozelV::Prirejanje { spremenljivka: Box::new(x), izraz: Box::new(e) },
                ),
                drugo => drugo,
            },
            drugo => drugo,
        },
    }
}

/// `ime@ op= izraz`: what the reference refers to given the value of the
/// operation on it and the expression; only a reference can be
/// dereferenced.
pub open spec fn kombinirano_prirejanje_ref_v(p: ParserV, ime: Zeton, op: Zeton, s: Seq<Zeton>) -> IzidIzraza {
    match poisci(p, ime.besedilo()@) {
        None => napaka_na(seq![ime], OznakaNapake::E2, "Neznana spremenljivka"@),
        Some(r) => match tip_v(r) {
            Some(TipV::Referenca(_)) => match drevo_v(p, s, s.len()) {
                IzidIzraza::Drevo(d) => match kombinirano_v(VozelV::Dereferenciraj(Box::new(r)), op, d) {
                    IzidIzraza::Drevo(e) => IzidIzraza::Drevo(
                        VozelV::PrirejanjeRef { referenca: Box::new(r), indeks: None, izraz: Box::new(e) },
                    ),
                    drugo => drugo,
                },
                drugo => drugo,
            },
            Some(_) => napaka_na(seq![ime, op], OznakaNapake::E3, "Dereferencirati je mogoče samo referenco."@),
            None => IzidIzraza::Zunaj,
        },
    }
}

/// The type of the elements of an array or of an array behind a reference.
pub open spec fn tip_elementov(t: TipV) -> Option<TipV> {
    match t {
        TipV::Seznam(e, _) => Some(*e),
        TipV::RefSeznama(e) => Some(*e),
        _ => None,
    }
}

/// `ime[indeks] = izraz`: the element of an array, or of an array behind a
/// reference, given the value; the value must be of the elements' type and
/// the index an integer.
pub open spec fn prirejanje_seznamu_v(p: ParserV, ime: Zeton, indeks: Seq<Zeton>, s: Seq<Zeton>) -> IzidIzraza {
    match drevo_v(p, s, s.len()) {
        IzidIzraza::Drevo(v) => match drevo_v(p, indeks, indeks.len()) {
            IzidIzraza::Drevo(i) => match (tip_v(v), tip_v(i)) {
                (Some(tv), Some(ti)) => match poisci(p, ime.besedilo()@) {
                    None => napaka_na(seq![ime], OznakaNapake::E2, "Neznana spremenljivka"@),
                    Some(x) => match tip_v(x) {
                        None => IzidIzraza::Zunaj,
                        Some(tx) => if tip_elementov(tx) is Some && tip_elementov(tx)->0 != tv {
                            napaka_na(
                                seq![ime],
                                OznakaNapake::E3,
                                "Nemogoča operacija: "@ + prikaz(tip_elementov(tx)->0) + " = "@ + prikaz(tv),
                            )
                        } else if ti != TipV::Celo {
                            napaka_na(seq![ime], OznakaNapake::E3, "Neveljaven tip indeksa: '"@ + prikaz(ti) + "'"@)
                        } else {
                            match tx {
                                TipV::RefSeznama(_) => IzidIzraza::Drevo(
                                    VozelV::PrirejanjeRef {
                                        referenca: Box::new(x),
                                        indeks: Some(Box::new(i)),
                                        izraz: Box::new(v),
                                    },
                                ),
                                TipV::Seznam(..) => IzidIzraza::Drevo(
                                    VozelV::PrirejanjeRef {
                                        referenca: Box::new(VozelV::RefSeznama(Box::new(x))),
                                        indeks: Some(Box::new(i)),
                                        izraz: Box::new(v),
                                    },
                                ),
                                _ => napaka_na(
                                    seq![ime],
                                    OznakaNapake::E2,
                                    "V spremenljivko tipa '"@ + prikaz(tx) + "' ni mogoče indeksirati."@,
                                ),
                            }
                        },
                    },
                },
                _ => IzidIzraza::Zunaj,
            },
            drugo => drugo,
        },
        drugo => drugo,
    }
}

/// `ime[..] = ..` as a statement: the index up to `]`, then `=` right after
/// it, then the value.
pub open spec fn element_v(p: ParserV, ime: Zeton, ostanek: Seq<Zeton>) -> IzidIzraza {
    match razcep(ostanek, "]"@) {
        Err(e) => e,
        Ok((indeks, o2)) => match razcep(o2, "="@) {
            Err(e) => e,
            Ok((prazno, izraz)) => if prazno.len() == 0 {
                prirejanje_seznamu_v(p, ime, indeks, izraz)
            } else {
                napaka_na(prazno, OznakaNapake::E5, "Pričakovan '='"@)
            },
        },
    }
}

/// The operator table (see `prireditveni_op`).
pub fn prireditveni_op_x(o: &str) -> (r: Option<(VrstaOperatorja, &'static str)>)
    ensures
        match prireditveni_op(o@) {
            Some((k, b)) => r matches Some((k2, b2)) && k2 == k && b2@ == b,
            None => r is None,
        },
{
    if enaka(o, "+=") {
        Some((VrstaOperatorja::Aritmeticni, "+"))
    } else if enaka(o, "-=") {
        Some((VrstaOperatorja::Aritmeticni, "-"))
    } else if enaka(o, "*=") {
        Some((VrstaOperatorja::Aritmeticni, "*"))
    } else if enaka(o, "/=") {
        Some((VrstaOperatorja::Aritmeticni, "/"))
    } else if enaka(o, "%=") {
        Some((VrstaOperatorja::Aritmeticni, "%"))
    } else if enaka(o, "**=") {
        Some((VrstaOperatorja::Aritmeticni, "**"))
    } else if enaka(o, "||=") {
        Some((VrstaOperatorja::Logicni, "||"))
    } else if enaka(o, "&&=") {
        Some((VrstaOperatorja::Logicni, "&&"))
    } else if enaka(o, "<<=") {
        Some((VrstaOperatorja::Bitni, "<<"))
    } else if enaka(o, ">>=") {
        Some((VrstaOperatorja::Bitni, ">>"))
    } else if enaka(o, "|=") {
        Some((VrstaOperatorja::Bitni, "|"))
    } else if enaka(o, "^=") {
        Some((VrstaOperatorja::Bitni, "^"))
    } else if enaka(o, "&=") {
        Some((VrstaOperatorja::Bitni, "&"))
    } else {
        None
    }
}

/// The error `nemogoca`.
fn nemogoca_x(op: &Zeton, a: &Tip, b: &Tip) -> (r: Option<Result<Rc<Vozlisce>, Napake>>)
    requires
        v_mejah(*op),
    ensures
        ustreza(r, nemogoca(*op, a@, b@)),
{
    let m = sporocilo_tipov_x("Nemogoča operacija: ", a, op.as_str(), b);
    napaka_zetona_x(op, OznakaNapake::E3, m.as_str())
}

/// The value of a combined assignment (see `kombinirano_v`).
pub fn prirejanje_v_kombinirano(spr: Rc<Vozlisce>, op: &Zeton, d: Rc<Vozlisce>) -> (r: Option<
    Result<Rc<Vozlisce>, Napake>,
>)
    requires
        v_mejah(*op),
    ensures
        ustreza(r, kombinirano_v(pogled(*spr), *op, pogled(*d))),
{
    proof {
        lema_tip_pogled(&*spr);
        lema_tip_pogled(&*d);
    }
    let ts = match spr.tip() {
        Some(t) => t,
        None => {
            return None;
        },
    };
    let td = match d.tip() {
        Some(t) => t,
        None => {
            return None;
        },
    };
    match prireditveni_op_x(op.as_str()) {
        Some((VrstaOperatorja::Aritmeticni, b)) => {
            if ts.enak(&Tip::Celo) && td.enak(&Tip::Celo) {
                match aritmeticna_x(b, Tip::Celo, spr, d) {
                    Some(x) => Some(Ok(x)),
                    None => None,
                }
            } else if ts.enak(&Tip::Real) && td.enak(&Tip::Real) {
                match aritmeticna_x(b, Tip::Real, spr, d) {
                    Some(x) => Some(Ok(x)),
                    None => None,
                }
            } else {
                nemogoca_x(op, &ts, &td)
            }
        },
        Some((VrstaOperatorja::Logicni, b)) => {
            if ts.enak(&Tip::Bool) && td.enak(&Tip::Bool) {
                if enaka(b, "||") {
                    Some(Ok(Vozlisce::Disjunkcija(spr, d).rc()))
                } else {
                    Some(Ok(Vozlisce::Konjunkcija(spr, d).rc()))
                }
            } else {
                nemogoca_x(op, &ts, &td)
            }
        },
        Some((VrstaOperatorja::Bitni, b)) => {
            if ts.enak(&Tip::Celo) && td.enak(&Tip::Celo) {
                match bitna_x(b, spr, d) {
                    Some(x) => Some(Ok(x)),
                    None => None,
                }
            } else {
                nemogoca_x(op, &ts, &td)
            }
        },
        None => napaka_zetona_x(op, OznakaNapake::E4, "Neznan operator"),
    }
}

impl Parser {
    /// `ime op= izraz` (see `kombinirano_prirejanje_v`).
    pub fn kombinirano_prirejanje(&self, ime: &Zeton, op: &Zeton, s: &[Zeton]) -> (r: Option<Result<Rc<Vozlisce>, Napake>>)
        requires
            vsi_v_mejah(s@),
            v_mejah(*ime),
            v_mejah(*op),
        ensures
            ustreza(r, kombinirano_prirejanje_v(self@, *ime, *op, s@)),
    {
        let x = match self.poisci_spremenljivko(ime.as_str()) {
            Some(x) => x,
            None => {
                return napaka_zetona_x(ime, OznakaNapake::E2, "Neznana spremenljivka");
            },
        };
        let d = match self.drevo(s) {
            Some(Ok(d)) => d,
            drugo => {
                return drugo;
            },
        };
        let e = match prirejanje_v_kombinirano(x.clone(), op, d) {
            Some(Ok(e)) => e,
            drugo => {
                return drugo;
            },
        };
        Some(Ok(Vozlisce::Prirejanje { spremenljivka: x, izraz: e }.rc()))
    }

    /// `ime@ op= izraz` (see `kombinirano_prirejanje_ref_v`).
    pub fn kombinirano_prirejanje_ref(&self, ime: &Zeton, op: &Zeton, s: &[Zeton]) -> (r: Option<
        Result<Rc<Vozlisce>, Napake>,
    >)
        requires
            vsi_v_mejah(s@),
            v_mejah(*ime),
            v_mejah(*op),
        ensures
            ustreza(r, kombinirano_prirejanje_ref_v(self@, *ime, *op, s@)),
    {
        let r = match self.poisci_spremenljivko(ime.as_str()) {
            Some(x) => x,
            None => {
                return napaka_zetona_x(ime, OznakaNapake::E2, "Neznana spremenljivka");
            },
        };
        proof {
            lema_tip_pogled(&*r);
        }
        match r.tip() {
            Some(Tip::Referenca(_)) => {},
            Some(_) => {
                let par = [*ime, *op];
                assert(par@ =~= seq![*ime, *op]);
                return napaka_na_x(&par, OznakaNapake::E3, "Dereferencirati je mogoče samo referenco.");
            },
            None => {
                return None;
            },
        }
        let d = match self.drevo(s) {
            Some(Ok(d)) => d,
            drugo => {
                return drugo;
            },
        };
        let spr = Vozlisce::Dereferenciraj(r.clone()).rc();
        let e = match prirejanje_v_kombinirano(spr, op, d) {
            Some(Ok(e)) => e,
            drugo => {
                return drugo;
            },
        };
        Some(Ok(Vozlisce::PrirejanjeRef { referenca: r, indeks: None, izraz: e }.rc()))
    }

    /// `ime[indeks] = izraz` (see `prirejanje_seznamu_v`).
    #[verifier::spinoff_prover]
    #[verifier::rlimit(60)]
    pub fn prirejanje_seznamu(&self, ime: &Zeton, indeks: &[Zeton], s: &[Zeton]) -> (r: Option<
        Result<Rc<Vozlisce>, Napake>,
    >)
        requires
            vsi_v_mejah(s@),
            vsi_v_mejah(indeks@),
            v_mejah(*ime),
        ensures
            ustreza(r, prirejanje_seznamu_v(self@, *ime, indeks@, s@)),
    {
        let v = match self.drevo(s) {
            Some(Ok(v)) => v,
            drugo => {
                return drugo;
            },
        };
        let i = match self.drevo(indeks) {
            Some(Ok(i)) => i,
            drugo => {
                return drugo;
            },
        };
        proof {
            lema_tip_pogled(&*v);
            lema_tip_pogled(&*i);
        }
        let tv = match v.tip() {
            Some(t) => t,
            None => {
                return None;
            },
        };
        let ti = match i.tip() {
            Some(t) => t,
            None => {
                return None;
            },
        };
        let x = match self.poisci_spremenljivko(ime.as_str()) {
            Some(x) => x,
            None => {
                return napaka_zetona_x(ime, OznakaNapake::E2, "Neznana spremenljivka");
            },
        };
        proof {
            lema_tip_pogled(&*x);
        }
        let tx = match x.tip() {
            Some(t) => t,
            None => {
                return None;
            },
        };
        let napacen = match &tx {
            Tip::Seznam(e, _) => !e.enak(&tv),
            Tip::RefSeznama(e) => !e.enak(&tv),
            _ => false,
        };
        if napacen {
            let mut m = niz("Nemogoča operacija: ");
            match &tx {
                Tip::Seznam(e, _) => e.prikazi(&mut m),
                Tip::RefSeznama(e) => e.prikazi(&mut m),
                _ => {},
            }
            m.append(" = ");
            tv.prikazi(&mut m);
            assert(m@ =~= "Nemogoča operacija: "@ + prikaz(tip_elementov(tx@)->0) + " = "@ + prikaz(tv@));
            return napaka_zetona_x(ime, OznakaNapake::E3, m.as_str());
        }
        if !ti.enak(&Tip::Celo) {
            let mut m = niz("Neveljaven tip indeksa: '");
            ti.prikazi(&mut m);
            m.append("'");
            assert(m@ =~= "Neveljaven tip indeksa: '"@ + prikaz(ti@) + "'"@);
            return napaka_zetona_x(ime, OznakaNapake::E3, m.as_str());
        }
        let ghost (xv, iv, vv) = (pogled_rc(x), pogled_rc(i), pogled_rc(v));
        match &tx {
            Tip::RefSeznama(_) => {
                let n = Vozlisce::PrirejanjeRef { referenca: x, indeks: Some(i), izraz: v }.rc();
                assert(pogled(*n) == VozelV::PrirejanjeRef {
                    referenca: Box::new(xv),
                    indeks: Some(Box::new(iv)),
                    izraz: Box::new(vv),
                });
                Some(Ok(n))
            },
            Tip::Seznam(..) => {
                let r = Vozlisce::RefSeznama(x).rc();
                assert(pogled(*r) == VozelV::RefSeznama(Box::new(xv)));
                let n = Vozlisce::PrirejanjeRef { referenca: r, indeks: Some(i), izraz: v }.rc();
                assert(pogled(*n) == VozelV::PrirejanjeRef {
                    referenca: Box::new(VozelV::RefSeznama(Box::new(xv))),
                    indeks: Some(Box::new(iv)),
                    izraz: Box::new(vv),
                });
                Some(Ok(n))
            },
            _ => {
                let mut m = niz("V spremenljivko tipa '");
                tx.prikazi(&mut m);
                m.append("' ni mogoče indeksirati.");
                assert(m@ =~= "V spremenljivko tipa '"@ + prikaz(tx@) + "' ni mogoče indeksirati."@);
                napaka_zetona_x(ime, OznakaNapake::E2, m.as_str())
            },
        }
    }

    /// `ime[..] = ..` (see `element_v`).
    pub fn prirejanje_elementu(&self, ime: &Zeton, ostanek: &[Zeton]) -> (r: Option<Result<Rc<Vozlisce>, Napake>>)
        requires
            vsi_v_mejah(ostanek@),
            v_mejah(*ime),
        ensures
            ustreza(r, element_v(self@, *ime, ostanek@)),
    {
        let (indeks, o2) = match razcep_x(ostanek, "]") {
            Ok(x) => x,
            Err(e) => {
                return e;
            },
        };
        let (prazno, izraz) = match razcep_x(o2, "=") {
            Ok(x) => x,
            Err(e) => {
                return e;
            },
        };
        if prazno.len() == 0 {
            self.prirejanje_seznamu(ime, indeks, izraz)
        } else {
            napaka_na_x(prazno, OznakaNapake::E5, "Pričakovan '='")
        }
    }
}

} // verus!
