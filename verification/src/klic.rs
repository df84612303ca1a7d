//! Reading calls of functions: the arguments (a literal passed by reference
//! is first put in a variable of its own), a call by the function's
//! signature, `natisni` of one character, and a call of one function on
//! each argument in turn.

use crate::besedilo::{desetisko, dodaj_desetisko, stevka};
use crate::branje_tipa::je_operator;
use crate::branje_tipa::{tip_iz, IzidTipa};
use crate::loci::{spredaj, Izid};
use crate::izraz::{drevo_v, je_operator_x, poisci, poisci_od, ustreza, vrsta, IzidIzraza, Parser, ParserV};
use crate::lekser::{Zeton, L};
use crate::loci::{besedila, razdeli, razdeli_spec};
use crate::napaka::{napaka_iz, v_mejah, vsi_v_mejah, Napaka, Napake, OpisNapake, OznakaNapake};
use crate::pogled::{lema_tip_pogled, pogled, pogled_vseh, tip_v, VozelV};
use crate::stavek::{
    deli_od, funkcija_v, nova_v_okolju, parametri_od, podpis, razcep, tipi_od, Okolje, clenovi_rc, dodaj_v, lema_deli_meje, napaka_na, napaka_zetona_x, niz, pogled_spr,
};
use crate::tip::{prikaz, Tip, TipV};
use crate::vozlisce::{celice_tipa, Vozlisce};
use crate::besedilo::enaka;
use crate::izraz::napake_iskanja;
use std::rc::Rc;
use vstd::prelude::*;

verus! {

/// The arguments of a call as read.
pub struct Argumenti {
    pub tipi: Vec<Tip>,
    pub spremenljivke: Vec<Rc<Vozlisce>>,
    pub argumenti: Vec<Rc<Vozlisce>>,
}

/// The arguments of a call as values: their types, the assignments that
/// put literals passed by reference in their variables (nothing for the
/// others), and the arguments themselves.
pub ghost struct ArgumentiV {
    pub tipi: Seq<TipV>,
    pub spremenljivke: Seq<VozelV>,
    pub argumenti: Seq<VozelV>,
}

/// The values of a list of types.
pub open spec fn tipi_v(t: Seq<Tip>) -> Seq<TipV> {
    Seq::new(t.len(), |i: int| t[i]@)
}

impl View for Argumenti {
    type V = ArgumentiV;

    open spec fn view(&self) -> ArgumentiV {
        ArgumentiV {
            tipi: tipi_v(self.tipi@),
            spremenljivke: pogled_vseh(self.spremenljivke@),
            argumenti: pogled_vseh(self.argumenti@),
        }
    }
}

/// The name of the `i`-th variable that holds a literal passed by
/// reference: two decimal digits.
pub open spec fn stevilka(i: int) -> Seq<char> {
    seq![stevka((i / 10) as nat), stevka((i % 10) as nat)]
}

/// The first name from `stevilka(i)` on that no variable in scope has;
/// nothing when all hundred are taken.
pub open spec fn prosto_ime(p: ParserV, i: int) -> Option<Seq<char>>
    decreases 100 - i,
{
    if i < 0 || i >= 100 {
        None
    } else if poisci(p, stevilka(i)) is None {
        Some(stevilka(i))
    } else {
        prosto_ime(p, i + 1)
    }
}

/// Whether the argument is a literal passed by reference: `@` and a
/// literal, or a string literal alone.
pub open spec fn po_referenci(a: Seq<Zeton>) -> bool {
    (a.len() == 2 && je_operator(a[0], "@"@) && a[1] is Literal) || (a.len() == 1 && a[0] matches Zeton::Literal(
        L::Niz(..),
    ))
}

/// One argument: none for an empty one (of type `brez`); a literal passed
/// by reference is put in a new variable that cannot be assigned, and a
/// reference to it is passed; any other is an expression passed as it is.
pub open spec fn argument_v(p: ParserV, a: Seq<Zeton>) -> (ParserV, Result<(TipV, VozelV, VozelV), IzidIzraza>) {
    if a.len() == 0 {
        (p, Ok((TipV::Brez, VozelV::Prazno, VozelV::Prazno)))
    } else if po_referenci(a) {
        match drevo_v(p, seq![a[a.len() - 1]], 1) {
            IzidIzraza::Drevo(d) => match tip_v(d) {
                Some(t) => match prosto_ime(p, 0) {
                    Some(ime) => match dodaj_v(p, ime, t, false) {
                        Some((q, x)) => {
                            let r = match t {
                                TipV::Seznam(..) => VozelV::RefSeznama(Box::new(x)),
                                _ => VozelV::Referenca(Box::new(x)),
                            };
                            match tip_v(r) {
                                Some(tr) => (
                                    q,
                                    Ok((tr, VozelV::Prirejanje { spremenljivka: Box::new(x), izraz: Box::new(d) }, r)),
                                ),
                                None => (q, Err(IzidIzraza::Zunaj)),
                            }
                        },
                        None => (p, Err(IzidIzraza::Zunaj)),
                    },
                    None => (p, Err(IzidIzraza::Zunaj)),
                },
                None => (p, Err(IzidIzraza::Zunaj)),
            },
            drugo => (p, Err(drugo)),
        }
    } else {
        match drevo_v(p, a, a.len()) {
            IzidIzraza::Drevo(d) => match tip_v(d) {
                Some(t) => (p, Ok((t, VozelV::Prazno, d))),
                None => (p, Err(IzidIzraza::Zunaj)),
            },
            drugo => (p, Err(drugo)),
        }
    }
}

/// The outcome of a failed reading as it is passed on: the errors, or
/// nothing.
pub open spec fn brez_drevesa(e: IzidIzraza) -> IzidIzraza {
    match e {
        IzidIzraza::Napake(n) => IzidIzraza::Napake(n),
        _ => IzidIzraza::Zunaj,
    }
}

/// The arguments from the `i`-th part on, read in turn; the errors of all
/// are gathered.
pub open spec fn argumenti_od(
    p: ParserV,
    deli: Seq<Seq<Zeton>>,
    i: int,
    a: ArgumentiV,
    napake: Seq<OpisNapake>,
) -> (ParserV, Result<ArgumentiV, IzidIzraza>)
    decreases deli.len() - i,
{
    if i < 0 || i >= deli.len() {
        if napake.len() == 0 {
            (p, Ok(a))
        } else {
            (p, Err(IzidIzraza::Napake(napake)))
        }
    } else {
        let (q, r) = argument_v(p, deli[i]);
        match r {
            Ok((t, s, x)) => argumenti_od(
                q,
                deli,
                i + 1,
                ArgumentiV {
                    tipi: a.tipi.push(t),
                    spremenljivke: a.spremenljivke.push(s),
                    argumenti: a.argumenti.push(x),
                },
                napake,
            ),
            Err(IzidIzraza::Napake(e)) => argumenti_od(q, deli, i + 1, a, napake + e),
            Err(_) => (q, Err(IzidIzraza::Zunaj)),
        }
    }
}

/// The arguments of a call, separated by commas.
#[verifier::opaque]
pub open spec fn argumenti_v(p: ParserV, s: Seq<Zeton>) -> (ParserV, Result<ArgumentiV, IzidIzraza>) {
    match razdeli_spec(s, seq![","@]) {
        Ok(deli) => argumenti_od(
            p,
            deli,
            0,
            ArgumentiV { tipi: Seq::empty(), spremenljivke: Seq::empty(), argumenti: Seq::empty() },
            Seq::empty(),
        ),
        Err((del, izid)) => (p, Err(IzidIzraza::Napake(napake_iskanja(del, izid)))),
    }
}

/// The types written one after the other with `, ` between them, from the
/// `k`-th on.
pub open spec fn imena_tipov(t: Seq<TipV>, k: int) -> Seq<char>
    decreases t.len() - k,
{
    if k < 0 || k >= t.len() {
        Seq::empty()
    } else {
        (if k > 0 {
            ", "@
        } else {
            Seq::empty()
        }) + prikaz(t[k]) + imena_tipov(t, k + 1)
    }
}

/// The signature of a function by its name and the types of its
/// parameters.
pub open spec fn podpis_funkcije(ime: Seq<char>, t: Seq<TipV>) -> Seq<char> {
    ime + "("@ + imena_tipov(t, 0) + ")"@
}

/// The function with the signature `podpis`, the one added last.
pub open spec fn funkcija_s_podpisom(p: ParserV, podpis: Seq<char>) -> Option<VozelV> {
    poisci_od(p.funkcije, podpis, p.funkcije.len() as int)
}

/// The message about a call of a function that is not known.
pub open spec fn ni_funkcije(podpis: Seq<char>) -> Seq<char> {
    "Funkcija '"@ + podpis + "' ne obstaja"@
}

/// `ime(argumenti)`: the call of the function whose signature the name and
/// the types of the arguments give; the call is counted by its signature.
pub open spec fn klic_v(p: ParserV, ime: Zeton, s: Seq<Zeton>) -> (ParserV, IzidIzraza) {
    let (q, r) = argumenti_v(p, s);
    match r {
        Ok(a) => {
            let pod = podpis_funkcije(ime.besedilo()@, a.tipi);
            match funkcija_s_podpisom(q, pod) {
                Some(f) => (
                    ParserV { klici: q.klici.push(pod), ..q },
                    IzidIzraza::Drevo(
                        VozelV::FunkcijskiKlic {
                            funkcija: Box::new(f),
                            spremenljivke: Box::new(VozelV::Zaporedje(a.spremenljivke)),
                            argumenti: Box::new(VozelV::Zaporedje(a.argumenti)),
                        },
                    ),
                ),
                None => (q, napaka_na(seq![ime], OznakaNapake::E2, ni_funkcije(pod))),
            }
        },
        Err(e) => (q, brez_drevesa(e)),
    }
}

/// A call as a statement: the call, and its value taken off the stack.
pub open spec fn klic_zavrzi_izhod_v(p: ParserV, ime: Zeton, s: Seq<Zeton>) -> (ParserV, IzidIzraza) {
    let (q, r) = klic_v(p, ime, s);
    match r {
        IzidIzraza::Drevo(k) => match tip_v(k) {
            Some(t) => match celice_tipa(t) {
                Some(c) => (q, IzidIzraza::Drevo(VozelV::Zaporedje(seq![k, VozelV::Pop(c)]))),
                None => (q, IzidIzraza::Zunaj),
            },
            None => (q, IzidIzraza::Zunaj),
        },
        drugo => (q, drugo),
    }
}

/// `natisni(..)`: one character is printed by the machine; anything else is
/// a call of a function `natisni`, whose arguments are read again.
pub open spec fn natisni_v(p: ParserV, ime: Zeton, s: Seq<Zeton>) -> (ParserV, IzidIzraza) {
    let (q, r) = argumenti_v(p, s);
    match r {
        Ok(a) => if a.tipi == seq![TipV::Znak] && a.argumenti.len() == 1 {
            (q, IzidIzraza::Drevo(VozelV::Natisni(Box::new(a.argumenti[0]))))
        } else {
            klic_v(q, ime, s)
        },
        Err(e) => (q, brez_drevesa(e)),
    }
}

/// The calls of `ime` on each argument from the `k`-th on, one argument
/// each, with the signatures of the calls counted so far; a missing
/// function is an error, and the errors of all are gathered.
pub open spec fn klici_od(
    p: ParserV,
    ime: Zeton,
    a: ArgumentiV,
    k: int,
    klici: Seq<VozelV>,
    napake: Seq<OpisNapake>,
    steti: Seq<Seq<char>>,
) -> (Seq<Seq<char>>, IzidIzraza)
    decreases a.tipi.len() - k,
{
    if k < 0 || k >= a.tipi.len() {
        if napake.len() == 0 {
            (steti, IzidIzraza::Drevo(VozelV::Zaporedje(klici)))
        } else {
            (steti, IzidIzraza::Napake(napake))
        }
    } else {
        let pod = podpis_funkcije(ime.besedilo()@, seq![a.tipi[k]]);
        match funkcija_s_podpisom(p, pod) {
            Some(f) => klici_od(
                p,
                ime,
                a,
                k + 1,
                klici.push(
                    VozelV::FunkcijskiKlic {
                        funkcija: Box::new(f),
                        spremenljivke: Box::new(VozelV::Zaporedje(seq![a.spremenljivke[k]])),
                        argumenti: Box::new(VozelV::Zaporedje(seq![a.argumenti[k]])),
                    },
                ),
                napake,
                steti.push(pod),
            ),
            None => klici_od(
                p,
                ime,
                a,
                k + 1,
                klici,
                napake.push(napaka_iz(seq![ime], OznakaNapake::E2, ni_funkcije(pod))),
                steti,
            ),
        }
    }
}

/// `ime!(argumenti)`: the function `ime` called on each argument; each call
/// made is counted, also where another fails.
pub open spec fn multi_klic_v(p: ParserV, ime: Zeton, s: Seq<Zeton>) -> (ParserV, IzidIzraza) {
    let (q, r) = argumenti_v(p, s);
    match r {
        Ok(a) => {
            let (steti, izid) = klici_od(q, ime, a, 0, Seq::empty(), Seq::empty(), q.klici);
            (ParserV { klici: steti, ..q }, izid)
        },
        Err(e) => (q, brez_drevesa(e)),
    }
}

/// Whether `r` is what reading arguments with outcome `izid` returns.
pub open spec fn ustreza_argumentom(r: Option<Result<Argumenti, Napake>>, izid: Result<ArgumentiV, IzidIzraza>) -> bool {
    match izid {
        Ok(a) => r matches Some(Ok(x)) && x@ == a,
        Err(IzidIzraza::Napake(n)) => r matches Some(Err(e)) && e@ == n,
        Err(_) => r is None,
    }
}

/// The value of a node behind a reference.
pub open spec fn pogled_rc(r: Rc<Vozlisce>) -> VozelV {
    pogled(*r)
}

/// The name `stevilka(i)`.
fn stevilka_x(i: u64) -> (r: String)
    requires
        i < 100,
    ensures
        r@ == stevilka(i as int),
{
    let mut s = String::new();
    dodaj_desetisko(&mut s, i / 10);
    dodaj_desetisko(&mut s, i % 10);
    assert(desetisko((i / 10) as nat) == seq![stevka((i / 10) as nat)]);
    assert(desetisko((i % 10) as nat) == seq![stevka((i % 10) as nat)]);
    assert(s@ =~= stevilka(i as int));
    s
}

/// The function with the given signature (see `funkcija_s_podpisom`).
fn najdi_funkcijo(f: &Vec<(String, Rc<Vozlisce>)>, ime: &str) -> (r: Option<Rc<Vozlisce>>)
    ensures
        match poisci_od(pogled_spr(f@), ime@, f@.len() as int) {
            Some(v) => r matches Some(x) && pogled(*x) == v,
            None => r is None,
        },
{
    let mut k: usize = f.len();
    while k > 0
        invariant
            0 <= k <= f@.len(),
            poisci_od(pogled_spr(f@), ime@, f@.len() as int) == poisci_od(pogled_spr(f@), ime@, k as int),
        decreases k,
    {
        if enaka(f[k - 1].0.as_str(), ime) {
            return Some(f[k - 1].1.clone());
        }
        k = k - 1;
    }
    None
}

/// Appends the types (see `imena_tipov`).
fn imena_tipov_x(t: &Vec<Tip>, s: &mut String)
    ensures
        final(s)@ == old(s)@ + imena_tipov(tipi_v(t@), 0),
{
    let ghost tv = tipi_v(t@);
    let mut k: usize = 0;
    while k < t.len()
        invariant
            0 <= k <= t@.len(),
            tv == tipi_v(t@),
            s@ + imena_tipov(tv, k as int) == old(s)@ + imena_tipov(tv, 0),
        decreases t@.len() - k,
    {
        let ghost pred = s@;
        if k > 0 {
            s.append(", ");
        }
        t[k].prikazi(s);
        assert(s@ + imena_tipov(tv, k + 1) =~= pred + imena_tipov(tv, k as int));
        k = k + 1;
    }
}

/// The signature of a function (see `podpis_funkcije`).
fn podpis_x(ime: &str, t: &Vec<Tip>) -> (r: String)
    ensures
        r@ == podpis_funkcije(ime@, tipi_v(t@)),
{
    let mut s = niz(ime);
    s.append("(");
    imena_tipov_x(t, &mut s);
    s.append(")");
    assert(s@ =~= podpis_funkcije(ime@, tipi_v(t@)));
    s
}

/// The message `ni_funkcije`.
fn ni_funkcije_x(podpis: &str) -> (r: String)
    ensures
        r@ == ni_funkcije(podpis@),
{
    let mut m = niz("Funkcija '");
    m.append(podpis);
    m.append("' ne obstaja");
    assert(m@ =~= ni_funkcije(podpis@));
    m
}

impl Parser {
    /// The first free name for a literal passed by reference (see
    /// `prosto_ime`).
    fn prosto_ime_x(&self) -> (r: Option<String>)
        ensures
            match prosto_ime(self@, 0) {
                Some(x) => r matches Some(y) && y@ == x,
                None => r is None,
            },
    {
        let mut i: u64 = 0;
        while i < 100
            invariant
                i <= 100,
                prosto_ime(self@, 0) == prosto_ime(self@, i as int),
            decreases 100 - i,
        {
            let ime = stevilka_x(i);
            match self.poisci_spremenljivko(ime.as_str()) {
                None => {
                    return Some(ime);
                },
                Some(_) => {},
            }
            i = i + 1;
        }
        None
    }

    /// One argument (see `argument_v`).
    fn argument(&mut self, a: &[Zeton]) -> (r: Option<Result<(Tip, Rc<Vozlisce>, Rc<Vozlisce>), Napake>>)
        requires
            vsi_v_mejah(a@),
        ensures
            match argument_v(old(self)@, a@).1 {
                Ok((t, x, y)) => r matches Some(Ok((t2, x2, y2))) && t2@ == t && pogled(*x2) == x && pogled(*y2) == y,
                Err(IzidIzraza::Napake(n)) => r matches Some(Err(e)) && e@ == n,
                Err(_) => r is None,
            },
            r is Some ==> final(self)@ == argument_v(old(self)@, a@).0,
    {
        let n = a.len();
        if n == 0 {
            return Some(Ok((Tip::Brez, Vozlisce::Prazno.rc(), Vozlisce::Prazno.rc())));
        }
        let literal = (n == 2 && je_operator_x(&a[0], "@") && 2 <= vrsta(&a[1]) && vrsta(&a[1]) <= 6) || (n == 1
            && vrsta(&a[0]) == 4);
        if literal {
            let zadnji = &a[n - 1..n];
            assert(zadnji@ =~= seq![a@[n - 1]]);
            let d = match self.drevo(zadnji) {
                Some(Ok(d)) => d,
                Some(Err(e)) => {
                    return Some(Err(e));
                },
                None => {
                    return None;
                },
            };
            proof {
                lema_tip_pogled(&*d);
            }
            let t = match d.tip() {
                Some(t) => t,
                None => {
                    return None;
                },
            };
            let ime = match self.prosto_ime_x() {
                Some(i) => i,
                None => {
                    return None;
                },
            };
            let seznam = match t {
                Tip::Seznam(..) => true,
                _ => false,
            };
            let x = match self.dodaj_spremenljivko(ime.as_str(), t, false) {
                Some(x) => x,
                None => {
                    return None;
                },
            };
            let r = if seznam {
                Vozlisce::RefSeznama(x.clone()).rc()
            } else {
                Vozlisce::Referenca(x.clone()).rc()
            };
            proof {
                lema_tip_pogled(&*r);
            }
            let tr = match r.tip() {
                Some(tr) => tr,
                None => {
                    return None;
                },
            };
            Some(Ok((tr, Vozlisce::Prirejanje { spremenljivka: x, izraz: d }.rc(), r)))
        } else {
            let d = match self.drevo(a) {
                Some(Ok(d)) => d,
                Some(Err(e)) => {
                    return Some(Err(e));
                },
                None => {
                    return None;
                },
            };
            proof {
                lema_tip_pogled(&*d);
            }
            let t = match d.tip() {
                Some(t) => t,
                None => {
                    return None;
                },
            };
            Some(Ok((t, Vozlisce::Prazno.rc(), d)))
        }
    }

    /// The arguments of a call (see `argumenti_v`).
    pub fn argumenti(&mut self, s: &[Zeton]) -> (r: Option<Result<Argumenti, Napake>>)
        requires
            vsi_v_mejah(s@),
        ensures
            ustreza_argumentom(r, argumenti_v(old(self)@, s@).1),
            r is Some ==> final(self)@ == argumenti_v(old(self)@, s@).0,
            r matches Some(Ok(a)) ==> a.tipi@.len() == a.spremenljivke@.len() && a.tipi@.len() == a.argumenti@.len(),
    {
        proof {
            reveal(argumenti_v);
        }
        let nizi = [","];
        assert(besedila(nizi@) =~= seq![","@]);
        proof {
            lema_deli_meje(s@, seq![","@]);
        }
        let deli = match razdeli(s, &nizi) {
            Ok(d) => d,
            Err(n) => {
                assert(n@ =~= seq![n@[0]]);
                return Some(Err(n));
            },
        };
        let ghost dv = match razdeli_spec(s@, seq![","@]) {
            Ok(x) => x,
            Err(_) => Seq::empty(),
        };
        let ghost p0 = self@;
        let mut a = Argumenti { tipi: Vec::new(), spremenljivke: Vec::new(), argumenti: Vec::new() };
        let mut napake = Napake::new();
        assert(a@.tipi =~= Seq::<TipV>::empty());
        assert(a@.spremenljivke =~= Seq::<VozelV>::empty());
        assert(a@.argumenti =~= Seq::<VozelV>::empty());
        let mut i: usize = 0;
        while i < deli.len()
            invariant
                0 <= i <= deli@.len(),
                p0 == old(self)@,
                deli@.len() == dv.len(),
                forall|j: int| 0 <= j < dv.len() ==> (#[trigger] deli@[j])@ == dv[j],
                forall|j: int| 0 <= j < dv.len() ==> vsi_v_mejah(#[trigger] dv[j]),
                a.tipi@.len() == a.spremenljivke@.len(),
                a.tipi@.len() == a.argumenti@.len(),
                argumenti_v(p0, s@) == argumenti_od(self@, dv, i as int, a@, napake@),
            decreases deli@.len() - i,
        {
            let del = deli[i];
            assert(del@ == dv[i as int]);
            let ghost a0 = a@;
            let ghost pred = self@;
            let ghost n0 = napake@;
            match self.argument(del) {
                Some(Ok((t, x, y))) => {
                    let ghost (tv, xv, yv) = (t@, pogled_rc(x), pogled_rc(y));
                    a.tipi.push(t);
                    a.spremenljivke.push(x);
                    a.argumenti.push(y);
                    assert(a@.tipi =~= a0.tipi.push(tv));
                    assert(a@.spremenljivke =~= a0.spremenljivke.push(xv));
                    assert(a@.argumenti =~= a0.argumenti.push(yv));
                },
                Some(Err(e)) => {
                    napake.razsiri(e);
                },
                None => {
                    return None;
                },
            }
            i = i + 1;
        }
        if napake.prazno() {
            Some(Ok(a))
        } else {
            Some(Err(napake))
        }
    }

    /// A call of a function (see `klic_v`).
    #[verifier::spinoff_prover]
    #[verifier::rlimit(60)]
    pub fn funkcijski_klic(&mut self, ime: &Zeton, s: &[Zeton]) -> (r: Option<Result<Rc<Vozlisce>, Napake>>)
        requires
            vsi_v_mejah(s@),
            v_mejah(*ime),
        ensures
            ustreza(r, klic_v(old(self)@, *ime, s@).1),
            r is Some ==> final(self)@ == klic_v(old(self)@, *ime, s@).0,
    {
        let a = match self.argumenti(s) {
            Some(Ok(a)) => a,
            Some(Err(e)) => {
                return Some(Err(e));
            },
            None => {
                return None;
            },
        };
        let pod = podpis_x(ime.as_str(), &a.tipi);
        assert(self@.funkcije =~= pogled_spr(self.funkcije@));
        let f = match najdi_funkcijo(&self.funkcije, pod.as_str()) {
            Some(f) => f,
            None => {
                let m = ni_funkcije_x(pod.as_str());
                return napaka_zetona_x(ime, OznakaNapake::E2, m.as_str());
            },
        };
        let ghost av = a@;
        let ghost pred = self@.klici;
        let ghost pv = pod@;
        self.klici.push(pod);
        assert(self@.klici =~= pred.push(pv));
        let sv = Vozlisce::Zaporedje(a.spremenljivke).rc();
        let xv = Vozlisce::Zaporedje(a.argumenti).rc();
        assert(pogled(*sv) is Zaporedje);
        assert(pogled(*xv) is Zaporedje);
        assert(clenovi_rc(sv) =~= av.spremenljivke);
        assert(clenovi_rc(xv) =~= av.argumenti);
        let k = Vozlisce::FunkcijskiKlic { funkcija: f, spremenljivke: sv, argumenti: xv }.rc();
        assert(pogled(*k) == VozelV::FunkcijskiKlic {
            funkcija: Box::new(pogled(*f)),
            spremenljivke: Box::new(VozelV::Zaporedje(av.spremenljivke)),
            argumenti: Box::new(VozelV::Zaporedje(av.argumenti)),
        });
        Some(Ok(k))
    }
}

impl Parser {
    /// A call as a statement (see `klic_zavrzi_izhod_v`).
    pub fn funkcijski_klic_zavrzi_izhod(&mut self, ime: &Zeton, s: &[Zeton]) -> (r: Option<Result<Rc<Vozlisce>, Napake>>)
        requires
            vsi_v_mejah(s@),
            v_mejah(*ime),
        ensures
            ustreza(r, klic_zavrzi_izhod_v(old(self)@, *ime, s@).1),
            r is Some ==> final(self)@ == klic_zavrzi_izhod_v(old(self)@, *ime, s@).0,
    {
        let k = match self.funkcijski_klic(ime, s) {
            Some(Ok(k)) => k,
            drugo => {
                return drugo;
            },
        };
        proof {
            lema_tip_pogled(&*k);
        }
        let t = match k.tip() {
            Some(t) => t,
            None => {
                return None;
            },
        };
        let c = match t.velikost_preverjena() {
            Some(c) => c,
            None => {
                return None;
            },
        };
        let ghost kv = pogled_rc(k);
        let mut v: Vec<Rc<Vozlisce>> = Vec::new();
        v.push(k);
        v.push(Vozlisce::Pop(c).rc());
        assert(pogled_vseh(v@) =~= seq![kv, VozelV::Pop(c)]);
        let z = Vozlisce::Zaporedje(v).rc();
        assert(pogled(*z) is Zaporedje);
        assert(clenovi_rc(z) =~= seq![kv, VozelV::Pop(c)]);
        Some(Ok(z))
    }

    /// `natisni(..)` (see `natisni_v`).
    #[verifier::spinoff_prover]
    #[verifier::rlimit(60)]
    pub fn natisni(&mut self, ime: &Zeton, s: &[Zeton]) -> (r: Option<Result<Rc<Vozlisce>, Napake>>)
        requires
            vsi_v_mejah(s@),
            v_mejah(*ime),
        ensures
            ustreza(r, natisni_v(old(self)@, *ime, s@).1),
            r is Some ==> final(self)@ == natisni_v(old(self)@, *ime, s@).0,
    {
        let a = match self.argumenti(s) {
            Some(Ok(a)) => a,
            Some(Err(e)) => {
                return Some(Err(e));
            },
            None => {
                return None;
            },
        };
        let ghost av = a@;
        let znak = a.tipi.len() == 1 && a.tipi[0].enak(&Tip::Znak);
        if znak {
            assert(av.tipi =~= seq![TipV::Znak]);
            let x = a.argumenti[0].clone();
            assert(pogled(*x) == av.argumenti[0]);
            let n = Vozlisce::Natisni(x).rc();
            assert(pogled(*n) == VozelV::Natisni(Box::new(av.argumenti[0])));
            Some(Ok(n))
        } else {
            assert(av.tipi != seq![TipV::Znak]) by {
                if av.tipi == seq![TipV::Znak] {
                    assert(av.tipi[0] == a.tipi@[0]@);
                }
            }
            self.funkcijski_klic(ime, s)
        }
    }

    /// `ime!(argumenti)` (see `multi_klic_v`).
    #[verifier::spinoff_prover]
    #[verifier::rlimit(60)]
    pub fn multi_klic(&mut self, ime: &Zeton, s: &[Zeton]) -> (r: Option<Result<Rc<Vozlisce>, Napake>>)
        requires
            vsi_v_mejah(s@),
            v_mejah(*ime),
        ensures
            ustreza(r, multi_klic_v(old(self)@, *ime, s@).1),
            r is Some ==> final(self)@ == multi_klic_v(old(self)@, *ime, s@).0,
    {
        let a = match self.argumenti(s) {
            Some(Ok(a)) => a,
            Some(Err(e)) => {
                return Some(Err(e));
            },
            None => {
                return None;
            },
        };
        let ghost av = a@;
        let ghost q = self@;
        assert(self@.funkcije =~= pogled_spr(self.funkcije@));
        let mut klici: Vec<Rc<Vozlisce>> = Vec::new();
        let mut napake = Napake::new();
        let mut k: usize = 0;
        assert(pogled_vseh(klici@) =~= Seq::<VozelV>::empty());
        while k < a.tipi.len()
            invariant
                0 <= k <= a.tipi@.len(),
                a.tipi@.len() == a.spremenljivke@.len(),
                a.tipi@.len() == a.argumenti@.len(),
                av == a@,
                v_mejah(*ime),
                self@ == (ParserV { klici: self@.klici, ..q }),
                self@.funkcije == pogled_spr(self.funkcije@),
                klici_od(q, *ime, av, 0, Seq::empty(), Seq::empty(), q.klici) == klici_od(
                    q,
                    *ime,
                    av,
                    k as int,
                    pogled_vseh(klici@),
                    napake@,
                    self@.klici,
                ),
            decreases a.tipi@.len() - k,
        {
            let mut en = Vec::new();
            en.push(a.tipi[k].kopija());
            assert(tipi_v(en@) =~= seq![av.tipi[k as int]]);
            let pod = podpis_x(ime.as_str(), &en);
            let ghost k0 = pogled_vseh(klici@);
            match najdi_funkcijo(&self.funkcije, pod.as_str()) {
                Some(f) => {
                    let sv = Vozlisce::Zaporedje(vec![a.spremenljivke[k].clone()]).rc();
                    let xv = Vozlisce::Zaporedje(vec![a.argumenti[k].clone()]).rc();
                    assert(pogled(*sv) is Zaporedje);
                    assert(pogled(*xv) is Zaporedje);
                    assert(clenovi_rc(sv) =~= seq![av.spremenljivke[k as int]]);
                    assert(clenovi_rc(xv) =~= seq![av.argumenti[k as int]]);
                    let klic = Vozlisce::FunkcijskiKlic { funkcija: f, spremenljivke: sv, argumenti: xv }.rc();
                    klici.push(klic);
                    assert(pogled_vseh(klici@) =~= k0.push(pogled(*klic)));
                    let ghost st = self@.klici;
                    let ghost pv = pod@;
                    self.klici.push(pod);
                    assert(self@.klici =~= st.push(pv));
                    assert(self@ =~= (ParserV { klici: self@.klici, ..q }));
                },
                None => {
                    let m = ni_funkcije_x(pod.as_str());
                    let e = Napaka::from_zaporedje(&[*ime], OznakaNapake::E2, m.as_str());
                    assert([*ime]@ =~= seq![*ime]);
                    let _ = napake.add_napaka(e);
                },
            }
            k = k + 1;
        }
        if napake.prazno() {
            let ghost kv = pogled_vseh(klici@);
            let z = Vozlisce::Zaporedje(klici).rc();
            assert(pogled(*z) is Zaporedje);
            assert(clenovi_rc(z) =~= kv);
            Some(Ok(z))
        } else {
            Some(Err(napake))
        }
    }
}

/// The types of parameters are written from the `k`-th on as the types of
/// arguments of the same types are.
proof fn lema_tipi_od(parametri: Seq<VozelV>, tipi: Seq<TipV>, k: int)
    requires
        0 <= k,
        tipi.len() == parametri.len(),
        forall|j: int| 0 <= j < parametri.len() ==> tip_v(#[trigger] parametri[j]) == Some(tipi[j]),
    ensures
        tipi_od(parametri, k) == imena_tipov(tipi, k),
    decreases parametri.len() - k,
{
    if k < parametri.len() {
        lema_tipi_od(parametri, tipi, k + 1);
        assert(tip_v(parametri[k]) == Some(tipi[k]));
    }
}

/// A call whose arguments have the types of a function's parameters names
/// the function by the signature under which its definition adds it.
pub proof fn zakon_podpis_klica(ime: Seq<char>, parametri: Seq<VozelV>, tipi: Seq<TipV>)
    requires
        tipi.len() == parametri.len(),
        forall|j: int| 0 <= j < parametri.len() ==> tip_v(#[trigger] parametri[j]) == Some(tipi[j]),
    ensures
        podpis(ime, parametri) == podpis_funkcije(ime, tipi),
{
    lema_tipi_od(parametri, tipi, 0);
}

/// A function that has been read is found by its signature: the reader
/// holds it as the function added last under that name.
pub proof fn zakon_definicija_najdena(p: ParserV, ime: Zeton, s: Seq<Zeton>)
    requires
        funkcija_v(p, ime, s).1 is Drevo,
    ensures
        funkcija_v(p, ime, s).1->Drevo_0 is Funkcija,
        funkcija_s_podpisom(
            funkcija_v(p, ime, s).0,
            funkcija_v(p, ime, s).1->Drevo_0->Funkcija_ime,
        ) == Some(funkcija_v(p, ime, s).1->Drevo_0),
        funkcija_v(p, ime, s).1->Drevo_0->Funkcija_ime == podpis(
            ime.besedilo()@,
            funkcija_v(p, ime, s).1->Drevo_0->Funkcija_parametri,
        ),
        funkcija_v(p, ime, s).0.spremenljivke == p.spremenljivke,
{
    reveal(funkcija_v);
    lema_razcep_ni_drevo(s, "("@);
    match razcep(s, "("@) {
        Ok((_, s1)) => {
            lema_razcep_ni_drevo(s1, ")"@);
            match razcep(s1, ")"@) {
                Ok((par, _)) => {
                    lema_parametri_ni_drevo(deli_od(par, 0, 0), 0, Okolje { spr: Seq::empty(), naslov: 0, parametri: Seq::empty() });
                    assert forall|o: Okolje| #[trigger] parametri_od(deli_od(par, 0, 0), 0, o) is Err implies !(parametri_od(deli_od(par, 0, 0), 0, o)->Err_0 is Drevo) by {
                        lema_parametri_ni_drevo(deli_od(par, 0, 0), 0, o);
                    }
                },
                _ => {},
            }
        },
        _ => {},
    }
    let (q, r) = funkcija_v(p, ime, s);
    let f = r->Drevo_0;
    assert(q.funkcije.len() > 0 && q.funkcije.last() == (f->Funkcija_ime, f));
}

/// A split never gives a node.
proof fn lema_razcep_ni_drevo(s: Seq<Zeton>, b: Seq<char>)
    ensures
        razcep(s, b) matches Err(e) ==> !(e is Drevo),
{
}

/// Reading parameters never gives a node.
proof fn lema_parametri_ni_drevo(deli: Seq<Seq<Zeton>>, j: int, o: Okolje)
    ensures
        parametri_od(deli, j, o) matches Err(e) ==> !(e is Drevo),
    decreases deli.len() - j,
{
    if 0 <= j < deli.len() && deli[j].len() != 0 {
        let del = deli[j];
        match spredaj(del, seq![":"@]) {
            Izid::Najdeno(i) => if 0 <= i < del.len() {
                let ime_s = del.subrange(0, i);
                let tip_s = del.subrange(i + 1, del.len() as int);
                if tip_s.len() != 0 && ime_s.len() != 0 {
                    match tip_iz(tip_s) {
                        IzidTipa::Tip(t) => if !(poisci_od(o.spr, ime_s[0].besedilo()@, o.spr.len() as int) is Some) {
                            match nova_v_okolju(o, ime_s[0].besedilo()@, t) {
                                Some((o2, v)) => {
                                    lema_parametri_ni_drevo(deli, j + 1, Okolje { parametri: o2.parametri.push(v), ..o2 });
                                },
                                None => {},
                            }
                        },
                        _ => {},
                    }
                }
            },
            _ => {},
        }
    }
}


} // verus!
