//! Reading statements: declarations and initialisations of variables,
//! assignments (also through a reference), calls, returns, conditionals,
//! `dokler` loops, scopes in braces, sequences of statements and
//! functions, with the errors
//! that the language reports about them (an unknown or repeated variable,
//! an assignment or a return of the wrong type, a condition that is no
//! truth value).

use crate::branje_tipa::{je_izid_tipa, je_locilo, je_operator, tip_iz, IzidTipa};
use crate::izraz::{
    drevo_v, je_ime, je_locilo_x, je_operator_x, napaka_o, napaka_zetona, napake_iskanja, poisci, poisci_od, ustreza, vrsta,
    IzidIzraza, Parser, ParserV,
};
use crate::lekser::Zeton;
use crate::loci::{
    besedila, lema_spredaj_meje, loci_spredaj, loci_zadaj, razdeli, razdeli_spec, spredaj, zadaj, zakon_najdeno_locilo, Izid,
};
use crate::napaka::{napaka_iz, v_mejah, vsi_v_mejah, Napake, OpisNapake, OznakaNapake};
use crate::pogled::{lema_tip_pogled, pogled, pogled_vseh, tip_v, VozelV};
use crate::tip::{prikaz, Tip, TipV};
use crate::vozlisce::{celice_tipa, Vozlisce};
use crate::besedilo::enaka;
use crate::klic::{klic_zavrzi_izhod_v, multi_klic_v, natisni_v, pogled_rc};
use crate::kombinirano::{element_v, kombinirano_prirejanje_ref_v, kombinirano_prirejanje_v, prireditveni_op, prireditveni_op_x};
use std::rc::Rc;
use vstd::prelude::*;
use vstd::string::StringExecFns;

verus! {

/// How many stack cells a variable takes; nothing for a node that is no
/// variable or a type whose size leaves `i32`.
pub open spec fn celice_spremenljivke(v: VozelV) -> Option<int> {
    match v {
        VozelV::Spremenljivka { tip, .. } => match celice_tipa(tip) {
            Some(c) => Some(c as int),
            None => None,
        },
        _ => None,
    }
}

/// The stack cells of the variables from index `od` to index `k`, added in
/// order; nothing where a sum leaves `i32` or an entry is no variable.
pub open spec fn celice_od(s: Seq<(Seq<char>, VozelV)>, od: int, k: int) -> Option<int>
    decreases k - od,
{
    if k <= od || od < 0 || k > s.len() {
        Some(0)
    } else {
        match (celice_od(s, od, k - 1), celice_spremenljivke(s[k - 1].1)) {
            (Some(a), Some(c)) => if i32::MIN <= a + c <= i32::MAX {
                Some(a + c)
            } else {
                None
            },
            _ => None,
        }
    }
}

/// Where the variables that a new variable is counted after start: the
/// innermost scope inside a function, else the first variable.
pub open spec fn zacetek_stetja(p: ParserV) -> int {
    if p.znotraj_funkcije {
        p.okvirji.last() as int
    } else {
        0
    }
}

/// A new variable `ime` of type `tip` added in the innermost scope: its
/// address is the cells of the variables it is counted after, and it is
/// relative to the frame inside a function. Nothing where there is no
/// scope or the cells leave `i32`.
pub open spec fn dodaj_v(p: ParserV, ime: Seq<char>, tip: TipV, spremenljiva: bool) -> Option<(ParserV, VozelV)> {
    if p.okvirji.len() == 0 {
        None
    } else {
        match celice_od(p.spremenljivke, zacetek_stetja(p), p.spremenljivke.len() as int) {
            Some(n) => {
                let v = VozelV::Spremenljivka {
                    tip,
                    ime,
                    naslov: n as i32,
                    z_odmikom: p.znotraj_funkcije,
                    spremenljiva,
                };
                Some((ParserV { spremenljivke: p.spremenljivke.push((ime, v)), ..p }, v))
            },
            None => None,
        }
    }
}

/// A new scope, outside a function: it starts after the variables so far.
pub open spec fn v_okvir_v(p: ParserV) -> ParserV {
    if p.znotraj_funkcije {
        p
    } else {
        ParserV { okvirji: p.okvirji.push(p.spremenljivke.len() as usize), ..p }
    }
}

/// Leaving the innermost scope, outside a function: the most cells of all
/// variables is kept, the scope's variables are dropped, and the cells they
/// took are given. Inside a function nothing changes and no cells are
/// given. Nothing where there is no scope or the cells leave `i32`.
pub open spec fn iz_okvirja_v(p: ParserV) -> Option<(ParserV, i32)> {
    if p.znotraj_funkcije {
        Some((p, 0))
    } else if p.okvirji.len() == 0 || p.okvirji.last() > p.spremenljivke.len() {
        None
    } else {
        let z = p.okvirji.last() as int;
        match (
            celice_od(p.spremenljivke, 0, p.spremenljivke.len() as int),
            celice_od(p.spremenljivke, z, p.spremenljivke.len() as int),
        ) {
            (Some(vse), Some(okvir)) => Some(
                (
                    ParserV {
                        spremenljivke: p.spremenljivke.subrange(0, z),
                        okvirji: p.okvirji.drop_last(),
                        prostor: if vse > p.prostor {
                            vse as i32
                        } else {
                            p.prostor
                        },
                        ..p
                    },
                    okvir as i32,
                ),
            ),
            _ => None,
        }
    }
}

/// The error about the tokens `s`; nothing for no tokens, where the
/// original reports it by panicking.
pub open spec fn napaka_na(s: Seq<Zeton>, o: OznakaNapake, m: Seq<char>) -> IzidIzraza {
    if s.len() == 0 {
        IzidIzraza::Zunaj
    } else {
        IzidIzraza::Napake(seq![napaka_iz(s, o, m)])
    }
}

/// Whether the token is the reserved word `b`.
pub open spec fn je_rezerviranka(z: Zeton, b: Seq<char>) -> bool {
    z is Rezerviranka && z.besedilo()@ == b
}

/// Whether the text is an operator of a combined assignment.
pub open spec fn je_prireditveni(op: Seq<char>) -> bool {
    prireditveni_op(op) is Some
}

/// `naj ime: tip`: a new variable of the type; an array is given its
/// length.
pub open spec fn deklaracija_v(p: ParserV, ime: Zeton, t: Seq<Zeton>) -> (ParserV, IzidIzraza) {
    match tip_iz(t) {
        IzidTipa::Napake(e) => (p, IzidIzraza::Napake(e)),
        IzidTipa::Panika => (p, IzidIzraza::Zunaj),
        IzidTipa::Tip(tip) => if poisci(p, ime.besedilo()@) is Some {
            (p, napaka_na(seq![ime], OznakaNapake::E2, "Spremenljivka že obstaja"@))
        } else {
            match dodaj_v(p, ime.besedilo()@, tip, true) {
                Some((q, v)) => (
                    q,
                    IzidIzraza::Drevo(
                        match tip {
                            TipV::Seznam(_, d) => VozelV::Prirejanje {
                                spremenljivka: Box::new(v),
                                izraz: Box::new(VozelV::Celo(d as i32)),
                            },
                            _ => VozelV::Prazno,
                        },
                    ),
                ),
                None => (p, IzidIzraza::Zunaj),
            }
        },
    }
}

/// `naj ime = izraz`: a new variable of the expression's type, given its
/// value.
pub open spec fn inicializacija_v(p: ParserV, ime: Zeton, s: Seq<Zeton>) -> (ParserV, IzidIzraza) {
    match drevo_v(p, s, s.len()) {
        IzidIzraza::Drevo(v) => match tip_v(v) {
            Some(t) => if poisci(p, ime.besedilo()@) is Some {
                (p, napaka_na(seq![ime], OznakaNapake::E2, "Spremenljivka že obstaja"@))
            } else {
                match dodaj_v(p, ime.besedilo()@, t, true) {
                    Some((q, x)) => (
                        q,
                        IzidIzraza::Drevo(VozelV::Prirejanje { spremenljivka: Box::new(x), izraz: Box::new(v) }),
                    ),
                    None => (p, IzidIzraza::Zunaj),
                }
            },
            None => (p, IzidIzraza::Zunaj),
        },
        drugo => (p, drugo),
    }
}

/// `ime = izraz`: the value given to a known variable.
pub open spec fn prirejanje_v(p: ParserV, ime: Zeton, s: Seq<Zeton>) -> IzidIzraza {
    match drevo_v(p, s, s.len()) {
        IzidIzraza::Drevo(v) => match poisci(p, ime.besedilo()@) {
            Some(x) => IzidIzraza::Drevo(VozelV::Prirejanje { spremenljivka: Box::new(x), izraz: Box::new(v) }),
            None => napaka_na(seq![ime], OznakaNapake::E2, "Neznana spremenljivka"@),
        },
        drugo => drugo,
    }
}

/// `ime@ = izraz`: the value given to what a reference refers to, which
/// must be of the expression's type.
pub open spec fn prirejanje_ref_v(p: ParserV, ime: Zeton, s: Seq<Zeton>) -> IzidIzraza {
    match drevo_v(p, s, s.len()) {
        IzidIzraza::Drevo(v) => match poisci(p, ime.besedilo()@) {
            Some(x) => match tip_v(x) {
                Some(TipV::Referenca(t)) => match tip_v(v) {
                    Some(tv) => if *t == tv {
                        IzidIzraza::Drevo(
                            VozelV::PrirejanjeRef { referenca: Box::new(x), indeks: None, izraz: Box::new(v) },
                        )
                    } else {
                        napaka_na(
                            seq![ime],
                            OznakaNapake::E3,
                            "Nemogoča operacija: "@ + prikaz(*t) + " = "@ + prikaz(tv),
                        )
                    },
                    None => IzidIzraza::Zunaj,
                },
                Some(o) => napaka_na(
                    seq![ime],
                    OznakaNapake::E2,
                    "V spremenljivko tipa '"@ + prikaz(o) + "' ni mogoče Dereferencirati."@,
                ),
                None => IzidIzraza::Zunaj,
            },
            None => napaka_na(seq![ime], OznakaNapake::E2, "Neznana spremenljivka"@),
        },
        drugo => drugo,
    }
}

/// `vrni izraz`: the value given to the function's result and a return;
/// only inside a function, and only of the function's type.
pub open spec fn vrni_v(p: ParserV, vrni: Zeton, s: Seq<Zeton>) -> IzidIzraza {
    match drevo_v(p, s, s.len()) {
        IzidIzraza::Drevo(v) => match poisci(p, "0_vrni"@) {
            Some(x) => match (tip_v(v), tip_v(x)) {
                (Some(a), Some(b)) => if a != b {
                    napaka_na(
                        s,
                        OznakaNapake::E3,
                        "Ne morem vrniti spremenljivke tipa '"@ + prikaz(a) + "' iz funkcije tipa '"@ + prikaz(b)
                            + "'"@,
                    )
                } else {
                    IzidIzraza::Drevo(
                        VozelV::Vrni(Box::new(VozelV::Prirejanje { spremenljivka: Box::new(x), izraz: Box::new(v) })),
                    )
                },
                _ => IzidIzraza::Zunaj,
            },
            None => napaka_na(
                seq![vrni],
                OznakaNapake::E5,
                "nepričakovana beseda: 'vrni', uprabljena zunaj funkcije"@,
            ),
        },
        drugo => drugo,
    }
}

/// The nodes of a sequence node; none for another node.
pub open spec fn clenovi(v: VozelV) -> Seq<VozelV> {
    match v {
        VozelV::Zaporedje(x) => x,
        _ => Seq::empty(),
    }
}

/// The nodes of a sequence node behind a reference.
pub open spec fn clenovi_rc(r: Rc<Vozlisce>) -> Seq<VozelV> {
    clenovi(pogled(*r))
}

/// The separators of statements.
pub open spec fn locila_stavkov() -> Seq<Seq<char>> {
    seq![";"@, "\n"@]
}

/// A sequence of statements separated by `;` or line breaks: each is read in
/// turn, with the variables that those before it declared; the errors of all
/// are gathered.
pub open spec fn zaporedje_v(p: ParserV, s: Seq<Zeton>) -> (ParserV, IzidIzraza)
    decreases s.len(), 3int, 0int,
{
    match razdeli_spec(s, locila_stavkov()) {
        Ok(deli) => zaporedje_od(p, deli, 0, s.len(), Seq::empty(), Seq::empty()),
        Err((del, izid)) => (p, IzidIzraza::Napake(napake_iskanja(del, izid))),
    }
}

/// The statements of `deli` from the `i`-th on, with the nodes and the
/// errors of those before.
pub open spec fn zaporedje_od(
    p: ParserV,
    deli: Seq<Seq<Zeton>>,
    i: int,
    meja: nat,
    drevesa: Seq<VozelV>,
    napake: Seq<OpisNapake>,
) -> (ParserV, IzidIzraza)
    decreases meja, 2int, deli.len() - i,
{
    if i < 0 || i >= deli.len() {
        if napake.len() == 0 {
            (p, IzidIzraza::Drevo(VozelV::Zaporedje(drevesa)))
        } else {
            (p, IzidIzraza::Napake(napake))
        }
    } else if deli[i].len() > meja {
        (p, IzidIzraza::Zunaj)
    } else {
        let (q, r) = stavek_v(p, deli[i]);
        match r {
            IzidIzraza::Drevo(v) => zaporedje_od(q, deli, i + 1, meja, drevesa.push(v), napake),
            IzidIzraza::Napake(e) => zaporedje_od(q, deli, i + 1, meja, drevesa, napake + e),
            IzidIzraza::Zunaj => (q, IzidIzraza::Zunaj),
        }
    }
}

/// A scope: the statements read in a new scope, which is left after them
/// (and stays open after an error).
pub open spec fn okvir_v(p: ParserV, s: Seq<Zeton>) -> (ParserV, IzidIzraza)
    decreases s.len(), 4int, 0int,
{
    let (q, r) = zaporedje_v(v_okvir_v(p), s);
    match r {
        IzidIzraza::Drevo(v) => match iz_okvirja_v(q) {
            Some((q2, _)) => (q2, IzidIzraza::Drevo(v)),
            None => (q, IzidIzraza::Zunaj),
        },
        drugo => (q, drugo),
    }
}

/// A split at the first separator `b`, or the error where there is none.
pub open spec fn razcep(s: Seq<Zeton>, b: Seq<char>) -> Result<(Seq<Zeton>, Seq<Zeton>), IzidIzraza> {
    match spredaj(s, seq![b]) {
        Izid::Najdeno(i) => if 0 <= i < s.len() {
            Ok((s.subrange(0, i), s.subrange(i + 1, s.len() as int)))
        } else {
            Err(IzidIzraza::Zunaj)
        },
        Izid::Nic => Err(napaka_na(s, OznakaNapake::E5, "Pričakovan '"@ + b + "'"@)),
        izid => Err(IzidIzraza::Napake(napake_iskanja(s, izid))),
    }
}

/// The `čene` part of a conditional: what follows `čene` where it is a
/// conditional or a scope, nothing without `čene`.
pub open spec fn laz_del(s: Seq<Zeton>) -> Result<Seq<Zeton>, IzidIzraza> {
    match spredaj(s, seq!["čene"@]) {
        Izid::Najdeno(j) => if 0 <= j < s.len() {
            let d = s.subrange(j + 1, s.len() as int);
            if d.len() > 0 && (je_rezerviranka(d[0], "če"@) || je_locilo(d[0], "{"@)) {
                Ok(d)
            } else {
                Err(napaka_na(d, OznakaNapake::E5, "Pričakovan 'čene' ali '{'"@))
            }
        } else {
            Err(IzidIzraza::Zunaj)
        },
        Izid::Nic => Ok(Seq::empty()),
        izid => Err(IzidIzraza::Napake(napake_iskanja(s, izid))),
    }
}

/// `če pogoj { ... } čene ...`: the condition must be a truth value; the
/// first part is a scope, the `čene` part a statement.
pub open spec fn pogojni_v(p: ParserV, s: Seq<Zeton>) -> (ParserV, IzidIzraza)
    decreases s.len(), 0int, 0int,
{
    match razcep(s, "{"@) {
        Err(e) => (p, e),
        Ok((pogoj, ostanek)) => match razcep(ostanek, "}"@) {
            Err(e) => (p, e),
            Ok((resnica, ostanek2)) => match laz_del(ostanek2) {
                Err(e) => (p, e),
                Ok(laz) => match drevo_v(p, pogoj, pogoj.len()) {
                    IzidIzraza::Drevo(d) => if tip_v(d) != Some(TipV::Bool) {
                        (p, napaka_na(pogoj, OznakaNapake::E6, "Pogoj mora biti Boolova vrednost"@))
                    } else if resnica.len() >= s.len() || laz.len() >= s.len() {
                        (p, IzidIzraza::Zunaj)
                    } else {
                        let (q, a) = okvir_v(p, resnica);
                        match a {
                            IzidIzraza::Drevo(av) => {
                                let (q2, b) = stavek_v(q, laz);
                                match b {
                                    IzidIzraza::Drevo(bv) => (
                                        q2,
                                        IzidIzraza::Drevo(
                                            VozelV::PogojniStavek {
                                                pogoj: Box::new(d),
                                                resnica: Box::new(av),
                                                laz: Box::new(bv),
                                            },
                                        ),
                                    ),
                                    drugo => (q2, drugo),
                                }
                            },
                            drugo => (q, drugo),
                        }
                    },
                    drugo => (p, drugo),
                },
            },
        },
    }
}

/// `dokler pogoj { ... }`: the condition must be a truth value; the body is
/// read in a new scope, and the loop stands in a scope node with the cells
/// of the body's variables.
pub open spec fn dokler_v(p: ParserV, s: Seq<Zeton>) -> (ParserV, IzidIzraza)
    decreases s.len(), 0int, 0int,
{
    match razcep(s, "{"@) {
        Err(e) => (p, e),
        Ok((pogoj_s, ostanek)) => match zadaj(ostanek, seq!["}"@]) {
            Izid::Najdeno(k) => if 0 <= k < ostanek.len() && ostanek.len() < s.len() {
                let telo = ostanek.subrange(0, k);
                match drevo_v(p, pogoj_s, pogoj_s.len()) {
                    IzidIzraza::Drevo(pogoj) => if tip_v(pogoj) != Some(TipV::Bool) {
                        (p, napaka_na(pogoj_s, OznakaNapake::E6, "Pogoj mora biti Boolova vrednost"@))
                    } else {
                        let (q, r) = zaporedje_v(v_okvir_v(p), telo);
                        match r {
                            IzidIzraza::Drevo(t) => match iz_okvirja_v(q) {
                                Some((q2, n)) => (
                                    q2,
                                    IzidIzraza::Drevo(
                                        VozelV::Okvir {
                                            zaporedje: Box::new(VozelV::Zanka { pogoj: Box::new(pogoj), telo: Box::new(t) }),
                                            st_spr: n,
                                        },
                                    ),
                                ),
                                None => (q, IzidIzraza::Zunaj),
                            },
                            drugo => (q, drugo),
                        }
                    },
                    drugo => (p, drugo),
                }
            } else {
                (p, IzidIzraza::Zunaj)
            },
            Izid::Nic => (p, napaka_na(ostanek, OznakaNapake::E5, "Pričakovan '}'"@)),
            izid => (p, IzidIzraza::Napake(napake_iskanja(ostanek, izid))),
        },
    }
}

/// The separator put between the body of a `za` loop and its step.
pub open spec fn podpicje<'a>() -> Zeton<'a> {
    Zeton::Locilo(";", 1, 1, "")
}

/// `za ime = začetek, pogoj, korak { telo }`: in a new scope, the variable
/// initialised and a loop on the condition whose body is the body and then
/// the step, read as a scope of its own. The initialisation needs a name
/// and `=` before its value.
pub open spec fn za_v(p: ParserV, s: Seq<Zeton>) -> (ParserV, IzidIzraza)
    decreases s.len(), 0int, 0int,
{
    match razcep(s, ","@) {
        Err(e) => (p, e),
        Ok((prir, s1)) => match razcep(s1, ","@) {
            Err(e) => (p, e),
            Ok((pogoj_s, s2)) => match razcep(s2, "{"@) {
                Err(e) => (p, e),
                Ok((korak, s3)) => match zadaj(s3, seq!["}"@]) {
                    Izid::Najdeno(m) => if 0 <= m < s3.len() && prir.len() >= 2 && s3.subrange(0, m).len() + 1
                        + korak.len() < s.len() {
                        let telo = s3.subrange(0, m) + seq![podpicje()] + korak;
                        let p1 = v_okvir_v(p);
                        let (p2, r1) = inicializacija_v(p1, prir[0], prir.subrange(2, prir.len() as int));
                        match r1 {
                            IzidIzraza::Drevo(a) => match drevo_v(p2, pogoj_s, pogoj_s.len()) {
                                IzidIzraza::Drevo(c) => {
                                    let (p3, r3) = okvir_v(p2, telo);
                                    match r3 {
                                        IzidIzraza::Drevo(t) => match iz_okvirja_v(p3) {
                                            Some((p4, n)) => (
                                                p4,
                                                IzidIzraza::Drevo(
                                                    VozelV::Okvir {
                                                        zaporedje: Box::new(
                                                            VozelV::Zaporedje(
                                                                seq![
                                                                    a,
                                                                    VozelV::Zanka { pogoj: Box::new(c), telo: Box::new(t) },
                                                                ],
                                                            ),
                                                        ),
                                                        st_spr: n,
                                                    },
                                                ),
                                            ),
                                            None => (p3, IzidIzraza::Zunaj),
                                        },
                                        drugo => (p3, drugo),
                                    }
                                },
                                drugo => (p2, drugo),
                            },
                            drugo => (p2, drugo),
                        }
                    } else {
                        (p, IzidIzraza::Zunaj)
                    },
                    Izid::Nic => (p, napaka_na(s3, OznakaNapake::E5, "Pričakovan '}'"@)),
                    izid => (p, IzidIzraza::Napake(napake_iskanja(s3, izid))),
                },
            },
        },
    }
}

/// The tokens split at every `,` (also inside brackets), as a slice is
/// split: from the token `zacetek` on, having looked up to `i`.
pub open spec fn deli_od(s: Seq<Zeton>, zacetek: int, i: int) -> Seq<Seq<Zeton>>
    decreases s.len() - i,
{
    if i >= s.len() || i < zacetek || zacetek < 0 {
        seq![s.subrange(zacetek, s.len() as int)]
    } else if je_locilo(s[i], ","@) {
        seq![s.subrange(zacetek, i)] + deli_od(s, i + 1, i + 1)
    } else {
        deli_od(s, zacetek, i + 1)
    }
}

/// The variables of a function being read: the variables of its frame,
/// the address of the next one, and the parameters.
pub ghost struct Okolje {
    pub spr: Seq<(Seq<char>, VozelV)>,
    pub naslov: int,
    pub parametri: Seq<VozelV>,
}

/// The variable `ime` of type `t` at the next address of a function's
/// frame; nothing where the cells leave `i32`.
pub open spec fn nova_v_okolju(o: Okolje, ime: Seq<char>, t: TipV) -> Option<(Okolje, VozelV)> {
    match celice_tipa(t) {
        Some(c) => if i32::MIN <= o.naslov <= i32::MAX && i32::MIN <= o.naslov + c <= i32::MAX {
            let v = VozelV::Spremenljivka { tip: t, ime, naslov: o.naslov as i32, z_odmikom: true, spremenljiva: true };
            Some((Okolje { spr: o.spr.push((ime, v)), naslov: o.naslov + c, parametri: o.parametri }, v))
        } else {
            None
        },
        None => None,
    }
}

/// The parameters `ime: tip` from the `j`-th part on; an empty part ends
/// them. A part without `:` or with nothing after it, and a name given
/// twice, are errors.
pub open spec fn parametri_od(deli: Seq<Seq<Zeton>>, j: int, o: Okolje) -> Result<Okolje, IzidIzraza>
    decreases deli.len() - j,
{
    if j < 0 || j >= deli.len() || deli[j].len() == 0 {
        Ok(o)
    } else {
        let del = deli[j];
        match spredaj(del, seq![":"@]) {
            Izid::Najdeno(i) => if 0 <= i < del.len() {
                let ime_s = del.subrange(0, i);
                let tip_s = del.subrange(i + 1, del.len() as int);
                if tip_s.len() == 0 {
                    Err(napaka_na(seq![del[i]], OznakaNapake::E5, "Za ':' pričakovan tip"@))
                } else if ime_s.len() == 0 {
                    Err(IzidIzraza::Zunaj)
                } else {
                    match tip_iz(tip_s) {
                        IzidTipa::Tip(t) => if poisci_od(o.spr, ime_s[0].besedilo()@, o.spr.len() as int) is Some {
                            Err(
                                napaka_na(
                                    seq![ime_s[0]],
                                    OznakaNapake::E7,
                                    "Imena parametrov morajo biti unikatna"@,
                                ),
                            )
                        } else {
                            match nova_v_okolju(o, ime_s[0].besedilo()@, t) {
                                Some((o2, v)) => parametri_od(
                                    deli,
                                    j + 1,
                                    Okolje { parametri: o2.parametri.push(v), ..o2 },
                                ),
                                None => Err(IzidIzraza::Zunaj),
                            }
                        },
                        IzidTipa::Napake(e) => Err(IzidIzraza::Napake(e)),
                        IzidTipa::Panika => Err(IzidIzraza::Zunaj),
                    }
                }
            } else {
                Err(IzidIzraza::Zunaj)
            },
            Izid::Nic => Err(napaka_na(del, OznakaNapake::E5, "Pričakovano ':'"@)),
            izid => Err(IzidIzraza::Napake(napake_iskanja(del, izid))),
        }
    }
}

/// The types of the parameters, written one after the other with `, `
/// between them, from the `k`-th on.
pub open spec fn tipi_od(p: Seq<VozelV>, k: int) -> Seq<char>
    decreases p.len() - k,
{
    if k < 0 || k >= p.len() {
        Seq::empty()
    } else {
        (if k > 0 {
            ", "@
        } else {
            Seq::empty()
        }) + match tip_v(p[k]) {
            Some(t) => prikaz(t),
            None => Seq::empty(),
        } + tipi_od(p, k + 1)
    }
}

/// The signature of a function: its name and the types of its parameters
/// in brackets.
pub open spec fn podpis(ime: Seq<char>, p: Seq<VozelV>) -> Seq<char> {
    ime + "("@ + tipi_od(p, 0) + ")"@
}

/// The type of a function: none before `{`, or `->` and a type.
pub open spec fn tip_funkcije(t: Seq<Zeton>, oklepaj: Zeton) -> Result<TipV, IzidIzraza> {
    if t.len() == 0 {
        Ok(TipV::Brez)
    } else if t.len() == 1 && je_locilo(t[0], "->"@) {
        Err(napaka_na(seq![oklepaj], OznakaNapake::E5, "Za '->' pričakovan tip"@))
    } else if je_locilo(t[0], "->"@) {
        match tip_iz(t.subrange(1, t.len() as int)) {
            IzidTipa::Tip(x) => Ok(x),
            IzidTipa::Napake(e) => Err(IzidIzraza::Napake(e)),
            IzidTipa::Panika => Err(IzidIzraza::Zunaj),
        }
    } else {
        Err(napaka_na(t, OznakaNapake::E5, "Pričakovan '-> <tip>'"@))
    }
}

/// `funkcija ime(parametri) -> tip { telo }`: the function's result at
/// address 0 of its frame, the parameters after it, and the saved program
/// counter and frame base after them; the body is read inside the function,
/// with these variables in a new frame (over the variables outside) and the
/// function itself known by its signature. The function's space is the
/// cells of the frame's variables beyond these. The reader keeps nothing
/// of the body but the function, which it adds by its signature, and the
/// calls counted in it, which it adds to those it had counted (which the
/// body's reading started from).
#[verifier::opaque]
pub open spec fn funkcija_v(p: ParserV, ime: Zeton, s: Seq<Zeton>) -> (ParserV, IzidIzraza)
    decreases s.len(), 0int, 0int,
{
    match razcep(s, "("@) {
        Err(e) => (p, e),
        Ok((_, s1)) => match razcep(s1, ")"@) {
            Err(e) => (p, e),
            Ok((parametri_s, s2)) => match spredaj(s2, seq!["{"@]) {
                Izid::Najdeno(k) => if 0 <= k < s2.len() {
                    let tip_s = s2.subrange(0, k);
                    let s3 = s2.subrange(k + 1, s2.len() as int);
                    match tip_funkcije(tip_s, s2[k]) {
                        Err(e) => (p, e),
                        Ok(tip) => match zadaj(s3, seq!["}"@]) {
                            Izid::Najdeno(m) => if 0 <= m < s3.len() && s3.len() < s.len() {
                                let telo = s3.subrange(0, m);
                                let prazno = s3.subrange(m + 1, s3.len() as int);
                                if prazno.len() != 0 {
                                    (p, napaka_na(prazno, OznakaNapake::E3, "Izraz funkcije se mora zaključiti z '}'"@))
                                } else {
                                    match nova_v_okolju(
                                        Okolje { spr: Seq::empty(), naslov: 0, parametri: Seq::empty() },
                                        "0_vrni"@,
                                        tip,
                                    ) {
                                        None => (p, IzidIzraza::Zunaj),
                                        Some((o0, _)) => match parametri_od(deli_od(parametri_s, 0, 0), 0, o0) {
                                            Err(e) => (p, e),
                                            Ok(o1) => match nova_v_okolju(o1, "0_PC"@, TipV::Celo) {
                                                None => (p, IzidIzraza::Zunaj),
                                                Some((o2, _)) => match nova_v_okolju(o2, "0_OF"@, TipV::Celo) {
                                                    None => (p, IzidIzraza::Zunaj),
                                                    Some((o3, _)) => {
                                                        let pod = podpis(ime.besedilo()@, o3.parametri);
                                                        let okolje = ParserV {
                                                            spremenljivke: p.spremenljivke + o3.spr,
                                                            okvirji: p.okvirji.push(p.spremenljivke.len() as usize),
                                                            funkcije: p.funkcije.push(
                                                                (
                                                                    pod,
                                                                    VozelV::Funkcija {
                                                                        tip,
                                                                        ime: pod,
                                                                        parametri: o3.parametri,
                                                                        telo: Box::new(VozelV::Prazno),
                                                                        prostor: 0,
                                                                    },
                                                                ),
                                                            ),
                                                            znotraj_funkcije: true,
                                                            ..p
                                                        };
                                                        let (q, r) = zaporedje_v(okolje, telo);
                                                        match r {
                                                            IzidIzraza::Drevo(t) => match celice_od(
                                                                q.spremenljivke,
                                                                p.spremenljivke.len() as int,
                                                                q.spremenljivke.len() as int,
                                                            ) {
                                                                Some(vse) => if i32::MIN <= vse - o3.naslov
                                                                    <= i32::MAX {
                                                                    let f = VozelV::Funkcija {
                                                                        tip,
                                                                        ime: pod,
                                                                        parametri: o3.parametri,
                                                                        telo: Box::new(t),
                                                                        prostor: (vse - o3.naslov) as i32,
                                                                    };
                                                                    (
                                                                        ParserV {
                                                                            funkcije: p.funkcije.push((pod, f)),
                                                                            klici: p.klici + q.klici,
                                                                            ..p
                                                                        },
                                                                        IzidIzraza::Drevo(f),
                                                                    )
                                                                } else {
                                                                    (p, IzidIzraza::Zunaj)
                                                                },
                                                                None => (p, IzidIzraza::Zunaj),
                                                            },
                                                            drugo => (p, drugo),
                                                        }
                                                    },
                                                },
                                            },
                                        },
                                    }
                                }
                            } else {
                                (p, IzidIzraza::Zunaj)
                            },
                            Izid::Nic => (p, napaka_na(s3, OznakaNapake::E5, "Pričakovan '}'"@)),
                            izid => (p, IzidIzraza::Napake(napake_iskanja(s3, izid))),
                        },
                    }
                } else {
                    (p, IzidIzraza::Zunaj)
                },
                Izid::Nic => (p, napaka_na(s2, OznakaNapake::E5, "Pričakovan '{'"@)),
                izid => (p, IzidIzraza::Napake(napake_iskanja(s2, izid))),
            },
        },
    }
}

/// A statement, by its first tokens, in this order: a call of a function on
/// each argument (`ime!(..)`), a declaration, an initialisation, an
/// assignment through a reference, an assignment, a combined assignment
/// through a reference or to a variable (an unknown operator is an error),
/// an assignment to an element, a scope in braces, `natisni`, a call whose value is dropped, a
/// conditional, a `dokler` loop, a `za` loop, a function, a
/// return, nothing, or an unknown statement.
#[verifier::opaque]
pub open spec fn stavek_v(p: ParserV, s: Seq<Zeton>) -> (ParserV, IzidIzraza)
    decreases s.len(), 1int, 0int,
{
    let n = s.len();
    if n >= 4 && s[0] is Ime && je_operator(s[1], "!"@) && je_locilo(s[2], "("@) && je_locilo(s[n - 1], ")"@) {
        multi_klic_v(p, s[0], s.subrange(3, n - 1))
    } else if n >= 3 && je_rezerviranka(s[0], "naj"@) && s[1] is Ime && je_locilo(s[2], ":"@) {
        deklaracija_v(p, s[1], s.subrange(3, n as int))
    } else if n >= 3 && je_rezerviranka(s[0], "naj"@) && s[1] is Ime && je_operator(s[2], "="@) {
        inicializacija_v(p, s[1], s.subrange(3, n as int))
    } else if n >= 3 && s[0] is Ime && je_operator(s[1], "@"@) && je_operator(s[2], "="@) {
        (p, prirejanje_ref_v(p, s[0], s.subrange(3, n as int)))
    } else if n >= 2 && s[0] is Ime && je_operator(s[1], "="@) {
        (p, prirejanje_v(p, s[0], s.subrange(2, n as int)))
    } else if n >= 3 && s[0] is Ime && je_operator(s[1], "@"@) && s[2] is Operator {
        if je_prireditveni(s[2].besedilo()@) {
            (p, kombinirano_prirejanje_ref_v(p, s[0], s[2], s.subrange(3, n as int)))
        } else {
            (p, napaka_na(s, OznakaNapake::E1, "Neznan izraz"@))
        }
    } else if n >= 2 && s[0] is Ime && s[1] is Operator {
        if je_prireditveni(s[1].besedilo()@) {
            (p, kombinirano_prirejanje_v(p, s[0], s[1], s.subrange(2, n as int)))
        } else {
            (p, napaka_na(s, OznakaNapake::E1, "Neznan izraz"@))
        }
    } else if n >= 2 && s[0] is Ime && je_locilo(s[1], "["@) {
        (p, element_v(p, s[0], s.subrange(2, n as int)))
    } else if n >= 2 && je_locilo(s[0], "{"@) && je_locilo(s[n - 1], "}"@) {
        okvir_v(p, s.subrange(1, n - 1))
    } else if n >= 3 && s[0] is Ime && s[0].besedilo()@ == "natisni"@ && je_locilo(s[1], "("@) && je_locilo(
        s[n - 1],
        ")"@,
    ) {
        natisni_v(p, s[0], s.subrange(2, n - 1))
    } else if n >= 3 && s[0] is Ime && je_locilo(s[1], "("@) && je_locilo(s[n - 1], ")"@) {
        klic_zavrzi_izhod_v(p, s[0], s.subrange(2, n - 1))
    } else if n >= 1 && je_rezerviranka(s[0], "če"@) {
        pogojni_v(p, s.subrange(1, n as int))
    } else if n >= 1 && je_rezerviranka(s[0], "dokler"@) {
        dokler_v(p, s.subrange(1, n as int))
    } else if n >= 1 && je_rezerviranka(s[0], "za"@) {
        za_v(p, s.subrange(1, n as int))
    } else if n >= 2 && je_rezerviranka(s[0], "funkcija"@) && s[1] is Ime {
        funkcija_v(p, s[1], s.subrange(2, n as int))
    } else if n >= 1 && je_rezerviranka(s[0], "vrni"@) {
        (p, vrni_v(p, s[0], s.subrange(1, n as int)))
    } else if n == 0 {
        (p, IzidIzraza::Drevo(VozelV::Prazno))
    } else {
        (p, napaka_na(s, OznakaNapake::E1, "Neznan izraz"@))
    }
}

/// A string that holds the characters of `x`.
pub(crate) fn niz(x: &str) -> (r: String)
    ensures
        r@ == x@,
{
    let mut s = String::new();
    s.append(x);
    s
}

/// The error about the tokens `s` (see `napaka_na`).
pub(crate) fn napaka_na_x(s: &[Zeton], o: OznakaNapake, m: &str) -> (r: Option<Result<Rc<Vozlisce>, Napake>>)
    requires
        vsi_v_mejah(s@),
    ensures
        ustreza(r, napaka_na(s@, o, m@)),
{
    if s.len() == 0 {
        None
    } else {
        napaka_o(s, o, m)
    }
}

/// The error about one token.
pub(crate) fn napaka_zetona_x(z: &Zeton, o: OznakaNapake, m: &str) -> (r: Option<Result<Rc<Vozlisce>, Napake>>)
    requires
        v_mejah(*z),
    ensures
        ustreza(r, napaka_na(seq![*z], o, m@)),
{
    Some(Err(napaka_zetona(z, o, m)))
}

/// Whether the token is the reserved word `b`.
fn je_rezerviranka_x(z: &Zeton, b: &str) -> (r: bool)
    ensures
        r == je_rezerviranka(*z, b@),
{
    match z {
        Zeton::Rezerviranka(t, ..) => enaka(t, b),
        _ => false,
    }
}

/// Whether the text is an operator of a combined assignment.
fn je_prireditveni_x(op: &str) -> (r: bool)
    ensures
        r == je_prireditveni(op@),
{
    match prireditveni_op_x(op) {
        Some(_) => true,
        None => false,
    }
}

/// How many cells the variable node takes (see `celice_spremenljivke`).
fn celice_vozla(v: &Vozlisce) -> (r: Option<i32>)
    ensures
        match r {
            Some(c) => celice_spremenljivke(pogled(*v)) == Some(c as int),
            None => celice_spremenljivke(pogled(*v)) is None,
        },
{
    match v {
        Vozlisce::Spremenljivka { tip, .. } => tip.velikost_preverjena(),
        _ => None,
    }
}

/// The split of `s` at the first separator `b` (see `razcep`).
pub(crate) fn razcep_x<'a, 'b>(s: &'b [Zeton<'a>], b: &str) -> (r: Result<
    (&'b [Zeton<'a>], &'b [Zeton<'a>]),
    Option<Result<Rc<Vozlisce>, Napake>>,
>)
    requires
        vsi_v_mejah(s@),
    ensures
        match razcep(s@, b@) {
            Ok((x, y)) => r matches Ok((a, c)) && a@ == x && c@ == y,
            Err(e) => r matches Err(n) && ustreza(n, e),
        },
{
    let nizi = [b];
    assert(besedila(nizi@) =~= seq![b@]);
    proof {
        lema_spredaj_meje(s@, seq![b@], 0, 0, 0, 0);
    }
    match loci_spredaj(s, &nizi) {
        Some(Ok((a, _, c))) => Ok((a, c)),
        Some(Err(n)) => {
            assert(n@ =~= seq![n@[0]]);
            Err(Some(Err(n)))
        },
        None => {
            let mut m = niz("Pričakovan '");
            m.append(b);
            m.append("'");
            assert(m@ =~= "Pričakovan '"@ + b@ + "'"@);
            Err(napaka_na_x(s, OznakaNapake::E5, m.as_str()))
        },
    }
}

impl Parser {
    /// The cells of the variables from index `od` on (see `celice_od`).
    fn celice(&self, od: usize) -> (r: Option<i32>)
        ensures
            match r {
                Some(c) => celice_od(self@.spremenljivke, od as int, self@.spremenljivke.len() as int) == Some(
                    c as int,
                ),
                None => celice_od(self@.spremenljivke, od as int, self@.spremenljivke.len() as int) is None,
            },
    {
        let n = self.spremenljivke.len();
        if od >= n {
            return Some(0);
        }
        let mut vsota: i32 = 0;
        let mut k: usize = od;
        assert(celice_od(self@.spremenljivke, od as int, od as int) == Some(0int));
        while k < n
            invariant
                od <= k <= n,
                n == self.spremenljivke@.len(),
                celice_od(self@.spremenljivke, od as int, k as int) == Some(vsota as int),
            decreases n - k,
        {
            let c = match celice_vozla(&*self.spremenljivke[k].1) {
                Some(c) => c,
                None => {
                    assert(celice_od(self@.spremenljivke, od as int, k + 1) is None);
                    proof {
                        lema_celice_ni(self@.spremenljivke, od as int, k + 1, n as int);
                    }
                    return None;
                },
            };
            let v = vsota as i64 + c as i64;
            if v < i32::MIN as i64 || v > i32::MAX as i64 {
                proof {
                    lema_celice_ni(self@.spremenljivke, od as int, k + 1, n as int);
                }
                return None;
            }
            vsota = v as i32;
            k = k + 1;
        }
        Some(vsota)
    }

    /// Adds the variable `ime` of type `tip` (see `dodaj_v`).
    pub(crate) fn dodaj_spremenljivko(&mut self, ime: &str, tip: Tip, spremenljiva: bool) -> (r: Option<Rc<Vozlisce>>)
        ensures
            match dodaj_v(old(self)@, ime@, tip@, spremenljiva) {
                Some((q, v)) => r matches Some(x) && pogled(*x) == v && final(self)@ == q,
                None => r is None && final(self)@ == old(self)@,
            },
    {
        if self.okvirji.len() == 0 {
            return None;
        }
        let od = if self.znotraj_funkcije {
            self.okvirji[self.okvirji.len() - 1]
        } else {
            0
        };
        let n = match self.celice(od) {
            Some(n) => n,
            None => {
                return None;
            },
        };
        let ghost star = self@;
        let v = Vozlisce::Spremenljivka {
            tip,
            ime: niz(ime),
            naslov: n,
            z_odmikom: self.znotraj_funkcije,
            spremenljiva,
        }.rc();
        self.spremenljivke.push((niz(ime), v.clone()));
        assert(self@.spremenljivke =~= star.spremenljivke.push((ime@, pogled(*v))));
        Some(v)
    }

    /// Opens a scope (see `v_okvir_v`).
    fn v_okvir(&mut self)
        ensures
            final(self)@ == v_okvir_v(old(self)@),
    {
        if !self.znotraj_funkcije {
            let n = self.spremenljivke.len();
            self.okvirji.push(n);
        }
    }

    /// Leaves the innermost scope (see `iz_okvirja_v`).
    fn iz_okvirja(&mut self) -> (r: Option<i32>)
        ensures
            match iz_okvirja_v(old(self)@) {
                Some((q, n)) => r == Some(n) && final(self)@ == q,
                None => r is None,
            },
    {
        if self.znotraj_funkcije {
            return Some(0);
        }
        let m = self.okvirji.len();
        if m == 0 || self.okvirji[m - 1] > self.spremenljivke.len() {
            return None;
        }
        let z = self.okvirji[m - 1];
        let vse = match self.celice(0) {
            Some(x) => x,
            None => {
                return None;
            },
        };
        let okvir = match self.celice(z) {
            Some(x) => x,
            None => {
                return None;
            },
        };
        let ghost star = self@;
        while self.spremenljivke.len() > z
            invariant
                z <= self.spremenljivke@.len() <= star.spremenljivke.len(),
                self@.spremenljivke == star.spremenljivke.subrange(0, self.spremenljivke@.len() as int),
                self.okvirji@ == star.okvirji,
                self.znotraj_funkcije == star.znotraj_funkcije,
                self.prostor == star.prostor,
                self@.realna == star.realna,
                self@.funkcije == star.funkcije,
                self@.klici == star.klici,
            decreases self.spremenljivke@.len(),
        {
            let ghost pred = self@.spremenljivke;
            self.spremenljivke.pop();
            assert(self@.spremenljivke =~= pred.drop_last());
        }
        self.okvirji.pop();
        if vse > self.prostor {
            self.prostor = vse;
        }
        assert(self@.spremenljivke =~= star.spremenljivke.subrange(0, z as int));
        assert(self@.okvirji =~= star.okvirji.drop_last());
        Some(okvir)
    }
}

/// Once a sum of cells has no value, no longer one has.
proof fn lema_celice_ni(s: Seq<(Seq<char>, VozelV)>, od: int, k: int, n: int)
    requires
        0 <= od < k <= n <= s.len(),
        celice_od(s, od, k) is None,
    ensures
        celice_od(s, od, n) is None,
    decreases n - k,
{
    if k < n {
        lema_celice_ni(s, od, k + 1, n);
    }
}

impl Parser {
    /// `naj ime: tip` (see `deklaracija_v`).
    pub fn deklaracija(&mut self, ime: &Zeton, t: &[Zeton]) -> (r: Option<Result<Rc<Vozlisce>, Napake>>)
        requires
            vsi_v_mejah(t@),
            v_mejah(*ime),
        ensures
            ustreza(r, deklaracija_v(old(self)@, *ime, t@).1),
            r is Some ==> final(self)@ == deklaracija_v(old(self)@, *ime, t@).0,
    {
        let tip = match Tip::from_preverjeno(t) {
            Some(Ok(x)) => x,
            Some(Err(e)) => {
                return Some(Err(e));
            },
            None => {
                return None;
            },
        };
        if self.poisci_spremenljivko(ime.as_str()).is_some() {
            return napaka_zetona_x(ime, OznakaNapake::E2, "Spremenljivka že obstaja");
        }
        let dolzina = match &tip {
            Tip::Seznam(_, d) => Some(*d),
            _ => None,
        };
        let v = match self.dodaj_spremenljivko(ime.as_str(), tip, true) {
            Some(v) => v,
            None => {
                return None;
            },
        };
        match dolzina {
            Some(d) => {
                let c = Vozlisce::Celo(d).rc();
                assert(pogled(*c) == VozelV::Celo(d));
                Some(Ok(Vozlisce::Prirejanje { spremenljivka: v, izraz: c }.rc()))
            },
            None => Some(Ok(Vozlisce::Prazno.rc())),
        }
    }

    /// `naj ime = izraz` (see `inicializacija_v`).
    pub fn inicializacija(&mut self, ime: &Zeton, s: &[Zeton]) -> (r: Option<Result<Rc<Vozlisce>, Napake>>)
        requires
            vsi_v_mejah(s@),
            v_mejah(*ime),
        ensures
            ustreza(r, inicializacija_v(old(self)@, *ime, s@).1),
            r is Some ==> final(self)@ == inicializacija_v(old(self)@, *ime, s@).0,
    {
        let v = match self.drevo(s) {
            Some(Ok(v)) => v,
            drugo => {
                return drugo;
            },
        };
        proof {
            lema_tip_pogled(&*v);
        }
        let t = match v.tip() {
            Some(t) => t,
            None => {
                return None;
            },
        };
        if self.poisci_spremenljivko(ime.as_str()).is_some() {
            return napaka_zetona_x(ime, OznakaNapake::E2, "Spremenljivka že obstaja");
        }
        let x = match self.dodaj_spremenljivko(ime.as_str(), t, true) {
            Some(x) => x,
            None => {
                return None;
            },
        };
        Some(Ok(Vozlisce::Prirejanje { spremenljivka: x, izraz: v }.rc()))
    }

    /// `ime = izraz` (see `prirejanje_v`).
    pub fn prirejanje(&self, ime: &Zeton, s: &[Zeton]) -> (r: Option<Result<Rc<Vozlisce>, Napake>>)
        requires
            vsi_v_mejah(s@),
            v_mejah(*ime),
        ensures
            ustreza(r, prirejanje_v(self@, *ime, s@)),
    {
        let v = match self.drevo(s) {
            Some(Ok(v)) => v,
            drugo => {
                return drugo;
            },
        };
        match self.poisci_spremenljivko(ime.as_str()) {
            Some(x) => Some(Ok(Vozlisce::Prirejanje { spremenljivka: x, izraz: v }.rc())),
            None => napaka_zetona_x(ime, OznakaNapake::E2, "Neznana spremenljivka"),
        }
    }

    /// `ime@ = izraz` (see `prirejanje_ref_v`).
    pub fn prirejanje_ref(&self, ime: &Zeton, s: &[Zeton]) -> (r: Option<Result<Rc<Vozlisce>, Napake>>)
        requires
            vsi_v_mejah(s@),
            v_mejah(*ime),
        ensures
            ustreza(r, prirejanje_ref_v(self@, *ime, s@)),
    {
        let v = match self.drevo(s) {
            Some(Ok(v)) => v,
            drugo => {
                return drugo;
            },
        };
        let x = match self.poisci_spremenljivko(ime.as_str()) {
            Some(x) => x,
            None => {
                return napaka_zetona_x(ime, OznakaNapake::E2, "Neznana spremenljivka");
            },
        };
        proof {
            lema_tip_pogled(&*v);
            lema_tip_pogled(&*x);
        }
        match x.tip() {
            Some(Tip::Referenca(t)) => match v.tip() {
                Some(tv) => if t.enak(&tv) {
                    Some(Ok(Vozlisce::PrirejanjeRef { referenca: x, indeks: None, izraz: v }.rc()))
                } else {
                    let mut m = niz("Nemogoča operacija: ");
                    m.append(t.to_string().as_str());
                    m.append(" = ");
                    m.append(tv.to_string().as_str());
                    napaka_zetona_x(ime, OznakaNapake::E3, m.as_str())
                },
                None => None,
            },
            Some(o) => {
                let mut m = niz("V spremenljivko tipa '");
                m.append(o.to_string().as_str());
                m.append("' ni mogoče Dereferencirati.");
                napaka_zetona_x(ime, OznakaNapake::E2, m.as_str())
            },
            None => None,
        }
    }

    /// `vrni izraz` (see `vrni_v`).
    pub fn vrni(&self, vrni: &Zeton, s: &[Zeton]) -> (r: Option<Result<Rc<Vozlisce>, Napake>>)
        requires
            vsi_v_mejah(s@),
            v_mejah(*vrni),
        ensures
            ustreza(r, vrni_v(self@, *vrni, s@)),
    {
        let v = match self.drevo(s) {
            Some(Ok(v)) => v,
            drugo => {
                return drugo;
            },
        };
        let x = match self.poisci_spremenljivko("0_vrni") {
            Some(x) => x,
            None => {
                return napaka_zetona_x(
                    vrni,
                    OznakaNapake::E5,
                    "nepričakovana beseda: 'vrni', uprabljena zunaj funkcije",
                );
            },
        };
        proof {
            lema_tip_pogled(&*v);
            lema_tip_pogled(&*x);
        }
        let a = match v.tip() {
            Some(a) => a,
            None => {
                return None;
            },
        };
        let b = match x.tip() {
            Some(b) => b,
            None => {
                return None;
            },
        };
        if !a.enak(&b) {
            let mut m = niz("Ne morem vrniti spremenljivke tipa '");
            m.append(a.to_string().as_str());
            m.append("' iz funkcije tipa '");
            m.append(b.to_string().as_str());
            m.append("'");
            return napaka_na_x(s, OznakaNapake::E3, m.as_str());
        }
        let pr = Vozlisce::Prirejanje { spremenljivka: x, izraz: v }.rc();
        assert(pogled(*pr) == VozelV::Prirejanje { spremenljivka: Box::new(pogled(*x)), izraz: Box::new(pogled(*v)) });
        Some(Ok(Vozlisce::Vrni(pr).rc()))
    }
}

/// The parts of a split of tokens in bounds are in bounds, and no longer
/// than what was split.
pub(crate) proof fn lema_deli_meje(s: Seq<Zeton>, nizi: Seq<Seq<char>>)
    requires
        vsi_v_mejah(s),
    ensures
        razdeli_spec(s, nizi) matches Ok(deli) ==> forall|j: int|
            0 <= j < deli.len() ==> vsi_v_mejah(#[trigger] deli[j]) && deli[j].len() <= s.len(),
    decreases s.len(),
{
    match spredaj(s, nizi) {
        Izid::Najdeno(i) => if 0 <= i < s.len() {
            let t = s.subrange(i + 1, s.len() as int);
            assert(vsi_v_mejah(t));
            lema_deli_meje(t, nizi);
            if let Ok(d) = razdeli_spec(t, nizi) {
                let deli = seq![s.subrange(0, i)] + d;
                assert forall|j: int| 0 <= j < deli.len() implies vsi_v_mejah(#[trigger] deli[j]) && deli[j].len()
                    <= s.len() by {
                    if j > 0 {
                        assert(deli[j] == d[j - 1]);
                    }
                }
            }
        },
        _ => {},
    }
}

/// The `čene` part of a conditional (see `laz_del`).
fn laz_del_x<'a, 'b>(s: &'b [Zeton<'a>]) -> (r: Result<&'b [Zeton<'a>], Option<Result<Rc<Vozlisce>, Napake>>>)
    requires
        vsi_v_mejah(s@),
    ensures
        match laz_del(s@) {
            Ok(x) => r matches Ok(a) && a@ == x,
            Err(e) => r matches Err(n) && ustreza(n, e),
        },
{
    let nizi = ["čene"];
    assert(besedila(nizi@) =~= seq!["čene"@]);
    proof {
        lema_spredaj_meje(s@, seq!["čene"@], 0, 0, 0, 0);
    }
    match loci_spredaj(s, &nizi) {
        Some(Ok((_, _, d))) => {
            if d.len() > 0 && (je_rezerviranka_x(&d[0], "če") || je_locilo_x(&d[0], "{")) {
                Ok(d)
            } else {
                Err(napaka_na_x(d, OznakaNapake::E5, "Pričakovan 'čene' ali '{'"))
            }
        },
        Some(Err(n)) => {
            assert(n@ =~= seq![n@[0]]);
            Err(Some(Err(n)))
        },
        None => {
            let prazno = &s[0..0];
            assert(prazno@ =~= Seq::<Zeton>::empty());
            Ok(prazno)
        },
    }
}

impl Parser {
    /// A sequence of statements (see `zaporedje_v`).
    #[verifier::spinoff_prover]
    #[verifier::rlimit(60)]
    pub fn zaporedje(&mut self, s: &[Zeton]) -> (r: Option<Result<Rc<Vozlisce>, Napake>>)
        requires
            vsi_v_mejah(s@),
        ensures
            ustreza(r, zaporedje_v(old(self)@, s@).1),
            r is Some ==> final(self)@ == zaporedje_v(old(self)@, s@).0,
        decreases s@.len(), 3int, 0int,
    {
        let nizi = [";", "\n"];
        assert(besedila(nizi@) =~= locila_stavkov());
        proof {
            lema_deli_meje(s@, locila_stavkov());
        }
        let deli = match razdeli(s, &nizi) {
            Ok(d) => d,
            Err(n) => {
                assert(n@ =~= seq![n@[0]]);
                return Some(Err(n));
            },
        };
        let ghost dv = match razdeli_spec(s@, locila_stavkov()) {
            Ok(x) => x,
            Err(_) => Seq::empty(),
        };
        let ghost p0 = self@;
        let mut drevesa: Vec<Rc<Vozlisce>> = Vec::new();
        let mut napake = Napake::new();
        let mut i: usize = 0;
        assert(pogled_vseh(drevesa@) =~= Seq::<VozelV>::empty());
        while i < deli.len()
            invariant
                0 <= i <= deli@.len(),
                p0 == old(self)@,
                deli@.len() == dv.len(),
                forall|j: int| 0 <= j < dv.len() ==> (#[trigger] deli@[j])@ == dv[j],
                forall|j: int| 0 <= j < dv.len() ==> vsi_v_mejah(#[trigger] dv[j]) && dv[j].len() <= s@.len(),
                zaporedje_v(p0, s@) == zaporedje_od(self@, dv, i as int, s@.len(), pogled_vseh(drevesa@), napake@),
            decreases deli@.len() - i,
        {
            let del = deli[i];
            assert(del@ == dv[i as int]);
            let ghost d0 = pogled_vseh(drevesa@);
            let ghost pred = self@;
            let ghost n0 = napake@;
            assert(zaporedje_od(pred, dv, i as int, s@.len(), d0, n0) == {
                let (q, r) = stavek_v(pred, dv[i as int]);
                match r {
                    IzidIzraza::Drevo(v) => zaporedje_od(q, dv, i + 1, s@.len(), d0.push(v), n0),
                    IzidIzraza::Napake(e) => zaporedje_od(q, dv, i + 1, s@.len(), d0, n0 + e),
                    IzidIzraza::Zunaj => (q, IzidIzraza::Zunaj),
                }
            });
            match self.stavek(del) {
                Some(Ok(v)) => {
                    drevesa.push(v);
                    assert(pogled_vseh(drevesa@) =~= d0.push(pogled(*v)));
                },
                Some(Err(e)) => {
                    napake.razsiri(e);
                },
                None => {
                    assert(stavek_v(pred, dv[i as int]).1 is Zunaj);
                    assert(zaporedje_od(pred, dv, i as int, s@.len(), d0, n0).1 is Zunaj);
                    assert(zaporedje_v(p0, s@).1 is Zunaj);
                    return None;
                },
            }
            i = i + 1;
        }
        if napake.prazno() {
            let ghost dv2 = drevesa@;
            let r = Vozlisce::Zaporedje(drevesa).rc();
            assert(pogled(*r) is Zaporedje);
            assert(clenovi_rc(r) =~= pogled_vseh(dv2));
            assert(pogled(*r) == VozelV::Zaporedje(pogled_vseh(dv2)));
            Some(Ok(r))
        } else {
            Some(Err(napake))
        }
    }

    /// A scope (see `okvir_v`).
    pub fn okvir(&mut self, s: &[Zeton]) -> (r: Option<Result<Rc<Vozlisce>, Napake>>)
        requires
            vsi_v_mejah(s@),
        ensures
            ustreza(r, okvir_v(old(self)@, s@).1),
            r is Some ==> final(self)@ == okvir_v(old(self)@, s@).0,
        decreases s@.len(), 4int, 0int,
    {
        self.v_okvir();
        let v = match self.zaporedje(s) {
            Some(Ok(v)) => v,
            drugo => {
                return drugo;
            },
        };
        match self.iz_okvirja() {
            Some(_) => Some(Ok(v)),
            None => None,
        }
    }

    /// A conditional (see `pogojni_v`).
    #[verifier::spinoff_prover]
    #[verifier::rlimit(60)]
    pub fn pogojni_stavek(&mut self, s: &[Zeton]) -> (r: Option<Result<Rc<Vozlisce>, Napake>>)
        requires
            vsi_v_mejah(s@),
        ensures
            ustreza(r, pogojni_v(old(self)@, s@).1),
            r is Some ==> final(self)@ == pogojni_v(old(self)@, s@).0,
        decreases s@.len(), 0int, 0int,
    {
        let (pogoj, ostanek) = match razcep_x(s, "{") {
            Ok(x) => x,
            Err(e) => {
                return e;
            },
        };
        let (resnica, ostanek2) = match razcep_x(ostanek, "}") {
            Ok(x) => x,
            Err(e) => {
                return e;
            },
        };
        let laz = match laz_del_x(ostanek2) {
            Ok(x) => x,
            Err(e) => {
                return e;
            },
        };
        let d = match self.drevo(pogoj) {
            Some(Ok(d)) => d,
            drugo => {
                return drugo;
            },
        };
        proof {
            lema_tip_pogled(&*d);
        }
        match d.tip() {
            Some(Tip::Bool) => {},
            _ => {
                return napaka_na_x(pogoj, OznakaNapake::E6, "Pogoj mora biti Boolova vrednost");
            },
        }
        if resnica.len() >= s.len() || laz.len() >= s.len() {
            return None;
        }
        let a = match self.okvir(resnica) {
            Some(Ok(a)) => a,
            drugo => {
                return drugo;
            },
        };
        let b = match self.stavek(laz) {
            Some(Ok(b)) => b,
            drugo => {
                return drugo;
            },
        };
        Some(Ok(Vozlisce::PogojniStavek { pogoj: d, resnica: a, laz: b }.rc()))
    }

    /// A `dokler` loop (see `dokler_v`).
    pub fn zanka_dokler(&mut self, s: &[Zeton]) -> (r: Option<Result<Rc<Vozlisce>, Napake>>)
        requires
            vsi_v_mejah(s@),
        ensures
            ustreza(r, dokler_v(old(self)@, s@).1),
            r is Some ==> final(self)@ == dokler_v(old(self)@, s@).0,
        decreases s@.len(), 0int, 0int,
    {
        let (pogoj_s, ostanek) = match razcep_x(s, "{") {
            Ok(x) => x,
            Err(e) => {
                return e;
            },
        };
        let nizi = ["}"];
        assert(besedila(nizi@) =~= seq!["}"@]);
        proof {
            zakon_najdeno_locilo(ostanek@, seq!["}"@]);
        }
        let telo = match loci_zadaj(ostanek, &nizi) {
            Some(Ok((t, _, _))) => t,
            Some(Err(n)) => {
                assert(n@ =~= seq![n@[0]]);
                return Some(Err(n));
            },
            None => {
                return napaka_na_x(ostanek, OznakaNapake::E5, "Pričakovan '}'");
            },
        };
        if ostanek.len() >= s.len() {
            return None;
        }
        let pogoj = match self.drevo(pogoj_s) {
            Some(Ok(d)) => d,
            drugo => {
                return drugo;
            },
        };
        proof {
            lema_tip_pogled(&*pogoj);
        }
        match pogoj.tip() {
            Some(Tip::Bool) => {},
            _ => {
                return napaka_na_x(pogoj_s, OznakaNapake::E6, "Pogoj mora biti Boolova vrednost");
            },
        }
        self.v_okvir();
        let t = match self.zaporedje(telo) {
            Some(Ok(t)) => t,
            drugo => {
                return drugo;
            },
        };
        let n = match self.iz_okvirja() {
            Some(n) => n,
            None => {
                return None;
            },
        };
        let z = Vozlisce::Zanka { pogoj, telo: t }.rc();
        assert(pogled(*z) == VozelV::Zanka { pogoj: Box::new(pogled(*pogoj)), telo: Box::new(pogled(*t)) });
        Some(Ok(Vozlisce::Okvir { zaporedje: z, st_spr: n }.rc()))
    }

    /// A `za` loop (see `za_v`).
    #[verifier::spinoff_prover]
    #[verifier::rlimit(60)]
    pub fn zanka_za(&mut self, s: &[Zeton]) -> (r: Option<Result<Rc<Vozlisce>, Napake>>)
        requires
            vsi_v_mejah(s@),
        ensures
            ustreza(r, za_v(old(self)@, s@).1),
            r is Some ==> final(self)@ == za_v(old(self)@, s@).0,
        decreases s@.len(), 0int, 0int,
    {
        let (prir, s1) = match razcep_x(s, ",") {
            Ok(x) => x,
            Err(e) => {
                return e;
            },
        };
        let (pogoj_s, s2) = match razcep_x(s1, ",") {
            Ok(x) => x,
            Err(e) => {
                return e;
            },
        };
        let (korak, s3) = match razcep_x(s2, "{") {
            Ok(x) => x,
            Err(e) => {
                return e;
            },
        };
        let nizi = ["}"];
        assert(besedila(nizi@) =~= seq!["}"@]);
        proof {
            zakon_najdeno_locilo(s3@, seq!["}"@]);
        }
        let telo_s = match loci_zadaj(s3, &nizi) {
            Some(Ok((t, _, _))) => t,
            Some(Err(n)) => {
                assert(n@ =~= seq![n@[0]]);
                return Some(Err(n));
            },
            None => {
                return napaka_na_x(s3, OznakaNapake::E5, "Pričakovan '}'");
            },
        };
        if prir.len() < 2 || telo_s.len() >= s.len() || korak.len() >= s.len() - telo_s.len() - 1 {
            return None;
        }
        let mut telo: Vec<Zeton> = Vec::new();
        let mut i: usize = 0;
        while i < telo_s.len()
            invariant
                0 <= i <= telo_s@.len(),
                telo@ == telo_s@.subrange(0, i as int),
            decreases telo_s@.len() - i,
        {
            telo.push(telo_s[i]);
            i = i + 1;
            assert(telo@ =~= telo_s@.subrange(0, i as int));
        }
        telo.push(Zeton::Locilo(";", 1, 1, ""));
        let mut j: usize = 0;
        while j < korak.len()
            invariant
                0 <= j <= korak@.len(),
                telo@ == telo_s@ + seq![podpicje()] + korak@.subrange(0, j as int),
            decreases korak@.len() - j,
        {
            telo.push(korak[j]);
            j = j + 1;
            assert(telo@ =~= telo_s@ + seq![podpicje()] + korak@.subrange(0, j as int));
        }
        assert(korak@.subrange(0, j as int) =~= korak@);
        proof {
            reveal_strlit(";");
        }
        assert(v_mejah(podpicje()));
        assert(vsi_v_mejah(telo@)) by {
            assert forall|k: int| 0 <= k < telo@.len() implies v_mejah(#[trigger] telo@[k]) by {
                if k < telo_s@.len() {
                    assert(telo@[k] == telo_s@[k]);
                } else if k > telo_s@.len() {
                    assert(telo@[k] == korak@[k - telo_s@.len() - 1]);
                } else {
                    assert(telo@[k] == podpicje());
                }
            }
        }
        self.v_okvir();
        let a = match self.inicializacija(&prir[0], &prir[2..prir.len()]) {
            Some(Ok(a)) => a,
            drugo => {
                return drugo;
            },
        };
        let c = match self.drevo(pogoj_s) {
            Some(Ok(c)) => c,
            drugo => {
                return drugo;
            },
        };
        let t = match self.okvir(telo.as_slice()) {
            Some(Ok(t)) => t,
            drugo => {
                return drugo;
            },
        };
        let n = match self.iz_okvirja() {
            Some(n) => n,
            None => {
                return None;
            },
        };
        let ghost av = pogled_rc(a);
        let z = Vozlisce::Zanka { pogoj: c, telo: t }.rc();
        assert(pogled(*z) == VozelV::Zanka { pogoj: Box::new(pogled(*c)), telo: Box::new(pogled(*t)) });
        let ghost zv = pogled_rc(z);
        let mut v: Vec<Rc<Vozlisce>> = Vec::new();
        v.push(a);
        v.push(z);
        assert(pogled_vseh(v@) =~= seq![av, zv]);
        let zap = Vozlisce::Zaporedje(v).rc();
        assert(pogled(*zap) is Zaporedje);
        assert(clenovi_rc(zap) =~= seq![av, zv]);
        Some(Ok(Vozlisce::Okvir { zaporedje: zap, st_spr: n }.rc()))
    }

    /// A statement (see `stavek_v`).
    #[verifier::spinoff_prover]
    #[verifier::rlimit(60)]
    pub fn stavek(&mut self, s: &[Zeton]) -> (r: Option<Result<Rc<Vozlisce>, Napake>>)
        requires
            vsi_v_mejah(s@),
        ensures
            ustreza(r, stavek_v(old(self)@, s@).1),
            r is Some ==> final(self)@ == stavek_v(old(self)@, s@).0,
        decreases s@.len(), 1int, 0int,
    {
        proof {
            reveal(stavek_v);
        }
        let n = s.len();
        if n >= 4 && vrsta(&s[0]) == 9 && je_operator_x(&s[1], "!") && je_locilo_x(&s[2], "(") && je_locilo_x(
            &s[n - 1],
            ")",
        ) {
            return self.multi_klic(&s[0], &s[3..n - 1]);
        }
        if n >= 3 && je_rezerviranka_x(&s[0], "naj") && vrsta(&s[1]) == 9 && je_locilo_x(&s[2], ":") {
            return self.deklaracija(&s[1], &s[3..n]);
        }
        if n >= 3 && je_rezerviranka_x(&s[0], "naj") && vrsta(&s[1]) == 9 && je_operator_x(&s[2], "=") {
            return self.inicializacija(&s[1], &s[3..n]);
        }
        if n >= 3 && vrsta(&s[0]) == 9 && je_operator_x(&s[1], "@") && je_operator_x(&s[2], "=") {
            return self.prirejanje_ref(&s[0], &s[3..n]);
        }
        if n >= 2 && vrsta(&s[0]) == 9 && je_operator_x(&s[1], "=") {
            return self.prirejanje(&s[0], &s[2..n]);
        }
        if n >= 3 && vrsta(&s[0]) == 9 && je_operator_x(&s[1], "@") && vrsta(&s[2]) == 8 {
            if je_prireditveni_x(s[2].as_str()) {
                return self.kombinirano_prirejanje_ref(&s[0], &s[2], &s[3..n]);
            }
            return napaka_na_x(s, OznakaNapake::E1, "Neznan izraz");
        }
        if n >= 2 && vrsta(&s[0]) == 9 && vrsta(&s[1]) == 8 {
            if je_prireditveni_x(s[1].as_str()) {
                return self.kombinirano_prirejanje(&s[0], &s[1], &s[2..n]);
            }
            return napaka_na_x(s, OznakaNapake::E1, "Neznan izraz");
        }
        if n >= 2 && vrsta(&s[0]) == 9 && je_locilo_x(&s[1], "[") {
            return self.prirejanje_elementu(&s[0], &s[2..n]);
        }
        if n >= 2 && je_locilo_x(&s[0], "{") && je_locilo_x(&s[n - 1], "}") {
            return self.okvir(&s[1..n - 1]);
        }
        if n >= 3 && vrsta(&s[0]) == 9 && enaka(s[0].as_str(), "natisni") && je_locilo_x(&s[1], "(") && je_locilo_x(
            &s[n - 1],
            ")",
        ) {
            return self.natisni(&s[0], &s[2..n - 1]);
        }
        if n >= 3 && vrsta(&s[0]) == 9 && je_locilo_x(&s[1], "(") && je_locilo_x(&s[n - 1], ")") {
            return self.funkcijski_klic_zavrzi_izhod(&s[0], &s[2..n - 1]);
        }
        if n >= 1 && je_rezerviranka_x(&s[0], "če") {
            return self.pogojni_stavek(&s[1..n]);
        }
        if n >= 1 && je_rezerviranka_x(&s[0], "dokler") {
            return self.zanka_dokler(&s[1..n]);
        }
        if n >= 1 && je_rezerviranka_x(&s[0], "za") {
            return self.zanka_za(&s[1..n]);
        }
        if n >= 2 && je_rezerviranka_x(&s[0], "funkcija") && vrsta(&s[1]) == 9 {
            return self.funkcija(&s[1], &s[2..n]);
        }
        if n >= 1 && je_rezerviranka_x(&s[0], "vrni") {
            return self.vrni(&s[0], &s[1..n]);
        }
        if n == 0 {
            return Some(Ok(Vozlisce::Prazno.rc()));
        }
        napaka_na_x(s, OznakaNapake::E1, "Neznan izraz")
    }
}

/// The values of the variables of a frame.
pub open spec fn pogled_spr(v: Seq<(String, Rc<Vozlisce>)>) -> Seq<(Seq<char>, VozelV)> {
    Seq::new(v.len(), |i: int| (v[i].0@, pogled(*v[i].1)))
}

/// The views of slices of tokens.
pub open spec fn pogledi_delov<'a, 'b>(v: Seq<&'b [Zeton<'a>]>) -> Seq<Seq<Zeton<'a>>> {
    Seq::new(v.len(), |j: int| v[j]@)
}

/// The parts of a split at commas are in bounds where the tokens are.
proof fn lema_deli_od_meje(s: Seq<Zeton>, zacetek: int, i: int)
    requires
        vsi_v_mejah(s),
        0 <= zacetek <= i <= s.len(),
    ensures
        forall|j: int| 0 <= j < deli_od(s, zacetek, i).len() ==> vsi_v_mejah(#[trigger] deli_od(s, zacetek, i)[j]),
    decreases s.len() - i,
{
    if i >= s.len() {
        let d = s.subrange(zacetek, s.len() as int);
        assert(deli_od(s, zacetek, i)[0] == d);
        assert forall|k: int| 0 <= k < d.len() implies v_mejah(#[trigger] d[k]) by {
            assert(d[k] == s[zacetek + k]);
        }
        assert(vsi_v_mejah(d));
        assert(deli_od(s, zacetek, i) == seq![d]);
    } else {
        if je_locilo(s[i], ","@) {
            let d0 = s.subrange(zacetek, i);
            assert forall|k: int| 0 <= k < d0.len() implies v_mejah(#[trigger] d0[k]) by {
                assert(d0[k] == s[zacetek + k]);
            }
            assert(vsi_v_mejah(d0));
            lema_deli_od_meje(s, i + 1, i + 1);
            let d = deli_od(s, i + 1, i + 1);
            assert forall|j: int| 0 <= j < deli_od(s, zacetek, i).len() implies vsi_v_mejah(
                #[trigger] deli_od(s, zacetek, i)[j],
            ) by {
                if j > 0 {
                    assert(deli_od(s, zacetek, i)[j] == d[j - 1]);
                } else {
                    assert(deli_od(s, zacetek, i)[j] == d0);
                }
            }
        } else {
            lema_deli_od_meje(s, zacetek, i + 1);
            assert(deli_od(s, zacetek, i) == deli_od(s, zacetek, i + 1));
        }
    }
}

/// The tokens split at every comma (see `deli_od`).
fn deli_po_vejicah<'a, 'b>(s: &'b [Zeton<'a>]) -> (r: Vec<&'b [Zeton<'a>]>)
    ensures
        pogledi_delov(r@) == deli_od(s@, 0, 0),
{
    let mut r: Vec<&'b [Zeton<'a>]> = Vec::new();
    let mut zacetek: usize = 0;
    let mut i: usize = 0;
    while i < s.len()
        invariant
            zacetek <= i <= s@.len(),
            deli_od(s@, 0, 0) == pogledi_delov(r@) + deli_od(s@, zacetek as int, i as int),
        decreases s@.len() - i,
    {
        if je_locilo_x(&s[i], ",") {
            let del = &s[zacetek..i];
            let ghost pred = pogledi_delov(r@);
            r.push(del);
            assert(pogledi_delov(r@) =~= pred.push(del@));
            assert(deli_od(s@, 0, 0) =~= pogledi_delov(r@) + deli_od(s@, i + 1, i + 1));
            zacetek = i + 1;
        }
        i = i + 1;
    }
    let del = &s[zacetek..s.len()];
    let ghost pred = pogledi_delov(r@);
    r.push(del);
    assert(pogledi_delov(r@) =~= pred.push(del@));
    assert(deli_od(s@, 0, 0) =~= pogledi_delov(r@));
    r
}

/// Whether a variable of the frame has the name `ime`.
fn je_v_okolju(spr: &Vec<(String, Rc<Vozlisce>)>, ime: &str) -> (r: bool)
    ensures
        r == poisci_od(pogled_spr(spr@), ime@, spr@.len() as int) is Some,
{
    let mut k: usize = spr.len();
    while k > 0
        invariant
            0 <= k <= spr@.len(),
            poisci_od(pogled_spr(spr@), ime@, spr@.len() as int) == poisci_od(pogled_spr(spr@), ime@, k as int),
        decreases k,
    {
        if enaka(spr[k - 1].0.as_str(), ime) {
            return true;
        }
        k = k - 1;
    }
    false
}

/// A new variable of a function's frame (see `nova_v_okolju`).
fn nova_x(spr: &mut Vec<(String, Rc<Vozlisce>)>, naslov: &mut i32, ime: &str, t: Tip) -> (r: Option<Rc<Vozlisce>>)
    ensures
        match nova_v_okolju(
            Okolje { spr: pogled_spr(old(spr)@), naslov: *old(naslov) as int, parametri: Seq::empty() },
            ime@,
            t@,
        ) {
            Some((o, v)) => r matches Some(x) && pogled(*x) == v && pogled_spr(final(spr)@) == o.spr
                && *final(naslov) as int == o.naslov,
            None => r is None,
        },
{
    let c = match t.velikost_preverjena() {
        Some(c) => c,
        None => {
            return None;
        },
    };
    let n = *naslov as i64 + c as i64;
    if n < i32::MIN as i64 || n > i32::MAX as i64 {
        return None;
    }
    let v = Vozlisce::Spremenljivka { tip: t, ime: niz(ime), naslov: *naslov, z_odmikom: true, spremenljiva: true }.rc();
    let ghost pred = pogled_spr(spr@);
    spr.push((niz(ime), v.clone()));
    assert(pogled_spr(spr@) =~= pred.push((ime@, pogled(*v))));
    *naslov = n as i32;
    Some(v)
}

/// A copy of a list of nodes.
fn kopija_vozlov(v: &Vec<Rc<Vozlisce>>) -> (r: Vec<Rc<Vozlisce>>)
    ensures
        r@ == v@,
{
    let mut r: Vec<Rc<Vozlisce>> = Vec::new();
    let mut i: usize = 0;
    while i < v.len()
        invariant
            0 <= i <= v@.len(),
            r@ == v@.subrange(0, i as int),
        decreases v@.len() - i,
    {
        r.push(v[i].clone());
        i = i + 1;
        assert(r@ =~= v@.subrange(0, i as int));
    }
    assert(v@.subrange(0, i as int) =~= v@);
    r
}

/// The parameters of a function (see `parametri_od`): nothing when they are
/// read, else what the reading gives.
fn parametri_x(
    s: &[Zeton],
    spr: &mut Vec<(String, Rc<Vozlisce>)>,
    naslov: &mut i32,
    params: &mut Vec<Rc<Vozlisce>>,
) -> (r: Option<Option<Result<Rc<Vozlisce>, Napake>>>)
    requires
        vsi_v_mejah(s@),
    ensures
        match parametri_od(
            deli_od(s@, 0, 0),
            0,
            Okolje { spr: pogled_spr(old(spr)@), naslov: *old(naslov) as int, parametri: pogled_vseh(old(params)@) },
        ) {
            Ok(o) => r is None && pogled_spr(final(spr)@) == o.spr && *final(naslov) as int == o.naslov
                && pogled_vseh(final(params)@) == o.parametri,
            Err(e) => r matches Some(x) && ustreza(x, e),
        },
{
    let deli = deli_po_vejicah(s);
    let ghost dv = deli_od(s@, 0, 0);
    proof {
        lema_deli_od_meje(s@, 0, 0);
    }
    let ghost o0 = Okolje {
        spr: pogled_spr(spr@),
        naslov: *naslov as int,
        parametri: pogled_vseh(params@),
    };
    let mut j: usize = 0;
    while j < deli.len()
        invariant
            0 <= j <= deli@.len(),
            pogledi_delov(deli@) == dv,
            dv == deli_od(s@, 0, 0),
            o0 == (Okolje { spr: pogled_spr(old(spr)@), naslov: *old(naslov) as int, parametri: pogled_vseh(old(params)@) }),
            forall|k: int| 0 <= k < dv.len() ==> vsi_v_mejah(#[trigger] dv[k]),
            parametri_od(dv, 0, o0) == parametri_od(
                dv,
                j as int,
                Okolje { spr: pogled_spr(spr@), naslov: *naslov as int, parametri: pogled_vseh(params@) },
            ),
        decreases deli@.len() - j,
    {
        let del = deli[j];
        assert(del@ == dv[j as int]);
        if del.len() == 0 {
            return None;
        }
        let nizi = [":"];
        assert(besedila(nizi@) =~= seq![":"@]);
        proof {
            lema_spredaj_meje(del@, seq![":"@], 0, 0, 0, 0);
        }
        match loci_spredaj(del, &nizi) {
            Some(Ok((ime_s, dvopicje, tip_s))) => {
                if tip_s.len() == 0 {
                    return Some(napaka_zetona_x(dvopicje, OznakaNapake::E5, "Za ':' pričakovan tip"));
                }
                if ime_s.len() == 0 {
                    return Some(None);
                }
                let t = match Tip::from_preverjeno(tip_s) {
                    Some(Ok(t)) => t,
                    Some(Err(e)) => {
                        return Some(Some(Err(e)));
                    },
                    None => {
                        return Some(None);
                    },
                };
                let ime = &ime_s[0];
                if je_v_okolju(spr, ime.as_str()) {
                    return Some(napaka_zetona_x(ime, OznakaNapake::E7, "Imena parametrov morajo biti unikatna"));
                }
                let ghost pred_p = pogled_vseh(params@);
                let v = match nova_x(spr, naslov, ime.as_str(), t) {
                    Some(v) => v,
                    None => {
                        return Some(None);
                    },
                };
                params.push(v);
                assert(pogled_vseh(params@) =~= pred_p.push(pogled(*v)));
            },
            Some(Err(n)) => {
                assert(n@ =~= seq![n@[0]]);
                return Some(Some(Err(n)));
            },
            None => {
                return Some(napaka_na_x(del, OznakaNapake::E5, "Pričakovano ':'"));
            },
        }
        j = j + 1;
    }
    None
}

/// The parameters of a function node; none for another node.
pub open spec fn parametri_rc(r: Rc<Vozlisce>) -> Seq<VozelV> {
    match pogled(*r) {
        VozelV::Funkcija { parametri, .. } => parametri,
        _ => Seq::empty(),
    }
}

/// The type of a function (see `tip_funkcije`).
fn tip_funkcije_x(t: &[Zeton], oklepaj: &Zeton) -> (r: Result<Tip, Option<Result<Rc<Vozlisce>, Napake>>>)
    requires
        vsi_v_mejah(t@),
        v_mejah(*oklepaj),
    ensures
        match tip_funkcije(t@, *oklepaj) {
            Ok(x) => r matches Ok(y) && y@ == x,
            Err(e) => r matches Err(n) && ustreza(n, e),
        },
{
    let n = t.len();
    if n == 0 {
        return Ok(Tip::Brez);
    }
    if n == 1 && je_locilo_x(&t[0], "->") {
        return Err(napaka_zetona_x(oklepaj, OznakaNapake::E5, "Za '->' pričakovan tip"));
    }
    if je_locilo_x(&t[0], "->") {
        match Tip::from_preverjeno(&t[1..n]) {
            Some(Ok(x)) => Ok(x),
            Some(Err(e)) => Err(Some(Err(e))),
            None => Err(None),
        }
    } else {
        Err(napaka_na_x(t, OznakaNapake::E5, "Pričakovan '-> <tip>'"))
    }
}

/// Appends the types of the parameters (see `tipi_od`).
fn tipi_x(params: &Vec<Rc<Vozlisce>>, s: &mut String)
    ensures
        final(s)@ == old(s)@ + tipi_od(pogled_vseh(params@), 0),
{
    let ghost pv = pogled_vseh(params@);
    let mut k: usize = 0;
    while k < params.len()
        invariant
            0 <= k <= params@.len(),
            pv == pogled_vseh(params@),
            s@ + tipi_od(pv, k as int) == old(s)@ + tipi_od(pv, 0),
        decreases params@.len() - k,
    {
        let ghost pred = s@;
        if k > 0 {
            s.append(", ");
        }
        let ghost po_locilu = s@;
        proof {
            lema_tip_pogled(&*params@[k as int]);
        }
        assert(pv[k as int] == pogled(*params@[k as int]));
        match params[k].tip() {
            Some(t) => t.prikazi(s),
            None => {},
        }
        assert(s@ + tipi_od(pv, k + 1) =~= pred + tipi_od(pv, k as int));
        k = k + 1;
    }
}

/// A copy of a list of named nodes.
fn kopija_imenovanih(v: &Vec<(String, Rc<Vozlisce>)>) -> (r: Vec<(String, Rc<Vozlisce>)>)
    ensures
        pogled_spr(r@) == pogled_spr(v@),
{
    let mut r: Vec<(String, Rc<Vozlisce>)> = Vec::new();
    let mut i: usize = 0;
    while i < v.len()
        invariant
            0 <= i <= v@.len(),
            pogled_spr(r@) == pogled_spr(v@.subrange(0, i as int)),
        decreases v@.len() - i,
    {
        let ghost pred = pogled_spr(r@);
        r.push((v[i].0.clone(), v[i].1.clone()));
        assert(pogled_spr(r@) =~= pred.push((v@[i as int].0@, pogled(*v@[i as int].1))));
        i = i + 1;
        assert(pogled_spr(r@) =~= pogled_spr(v@.subrange(0, i as int)));
    }
    assert(v@.subrange(0, i as int) =~= v@);
    r
}

/// A copy of the real literals.
fn kopija_realnih(v: &Vec<(String, u32)>) -> (r: Vec<(String, u32)>)
    ensures
        r@ == v@,
{
    let mut r: Vec<(String, u32)> = Vec::new();
    let mut i: usize = 0;
    while i < v.len()
        invariant
            0 <= i <= v@.len(),
            r@ == v@.subrange(0, i as int),
        decreases v@.len() - i,
    {
        r.push((v[i].0.clone(), v[i].1));
        i = i + 1;
        assert(r@ =~= v@.subrange(0, i as int));
    }
    assert(v@.subrange(0, i as int) =~= v@);
    r
}

/// A copy of a list of strings.
fn kopija_nizov(v: &Vec<String>) -> (r: Vec<String>)
    ensures
        r@ == v@,
{
    let mut r: Vec<String> = Vec::new();
    let mut i: usize = 0;
    while i < v.len()
        invariant
            0 <= i <= v@.len(),
            r@ == v@.subrange(0, i as int),
        decreases v@.len() - i,
    {
        r.push(v[i].clone());
        i = i + 1;
        assert(r@ =~= v@.subrange(0, i as int));
    }
    assert(v@.subrange(0, i as int) =~= v@);
    r
}

/// A copy of the scopes.
fn kopija_okvirjev(v: &Vec<usize>) -> (r: Vec<usize>)
    ensures
        r@ == v@,
{
    let mut r: Vec<usize> = Vec::new();
    let mut i: usize = 0;
    while i < v.len()
        invariant
            0 <= i <= v@.len(),
            r@ == v@.subrange(0, i as int),
        decreases v@.len() - i,
    {
        r.push(v[i]);
        i = i + 1;
        assert(r@ =~= v@.subrange(0, i as int));
    }
    assert(v@.subrange(0, i as int) =~= v@);
    r
}

impl Parser {
    /// A copy of the reader.
    pub fn kopija(&self) -> (r: Parser)
        ensures
            r@ == self@,
    {
        let r = Parser {
            spremenljivke: kopija_imenovanih(&self.spremenljivke),
            realna: kopija_realnih(&self.realna),
            okvirji: kopija_okvirjev(&self.okvirji),
            funkcije: kopija_imenovanih(&self.funkcije),
            znotraj_funkcije: self.znotraj_funkcije,
            prostor: self.prostor,
            klici: kopija_nizov(&self.klici),
        };
        assert(pogled_spr(r.spremenljivke@) == pogled_spr(self.spremenljivke@));
        assert(pogled_spr(r.funkcije@) == pogled_spr(self.funkcije@));
        assert(r@.spremenljivke =~= self@.spremenljivke) by {
            assert forall|i: int| 0 <= i < r@.spremenljivke.len() implies r@.spremenljivke[i] == self@.spremenljivke[i] by {
                assert(pogled_spr(r.spremenljivke@)[i] == pogled_spr(self.spremenljivke@)[i]);
            }
        }
        assert(r@.funkcije =~= self@.funkcije) by {
            assert forall|i: int| 0 <= i < r@.funkcije.len() implies r@.funkcije[i] == self@.funkcije[i] by {
                assert(pogled_spr(r.funkcije@)[i] == pogled_spr(self.funkcije@)[i]);
            }
        }
        assert(r@.realna =~= self@.realna);
        assert(r@.klici =~= self@.klici);
        r
    }

    /// A function (see `funkcija_v`): on success the reader knows it by its
    /// signature.
    #[verifier::spinoff_prover]
    #[verifier::rlimit(100)]
    pub fn funkcija(&mut self, ime: &Zeton, s: &[Zeton]) -> (r: Option<Result<Rc<Vozlisce>, Napake>>)
        requires
            vsi_v_mejah(s@),
            v_mejah(*ime),
        ensures
            ustreza(r, funkcija_v(old(self)@, *ime, s@).1),
            r is Some ==> final(self)@ == funkcija_v(old(self)@, *ime, s@).0,
        decreases s@.len(), 0int, 0int,
    {
        proof {
            reveal(funkcija_v);
        }
        let (_, s1) = match razcep_x(s, "(") {
            Ok(x) => x,
            Err(e) => {
                return e;
            },
        };
        let (parametri_s, s2) = match razcep_x(s1, ")") {
            Ok(x) => x,
            Err(e) => {
                return e;
            },
        };
        let nizi = ["{"];
        assert(besedila(nizi@) =~= seq!["{"@]);
        proof {
            lema_spredaj_meje(s2@, seq!["{"@], 0, 0, 0, 0);
        }
        let (tip_s, oklepaj, s3) = match loci_spredaj(s2, &nizi) {
            Some(Ok(x)) => x,
            Some(Err(n)) => {
                assert(n@ =~= seq![n@[0]]);
                return Some(Err(n));
            },
            None => {
                return napaka_na_x(s2, OznakaNapake::E5, "Pričakovan '{'");
            },
        };
        let tip = match tip_funkcije_x(tip_s, oklepaj) {
            Ok(t) => t,
            Err(e) => {
                return e;
            },
        };
        let nizi2 = ["}"];
        assert(besedila(nizi2@) =~= seq!["}"@]);
        proof {
            zakon_najdeno_locilo(s3@, seq!["}"@]);
        }
        let (telo, prazno) = match loci_zadaj(s3, &nizi2) {
            Some(Ok((t, _, z))) => (t, z),
            Some(Err(n)) => {
                assert(n@ =~= seq![n@[0]]);
                return Some(Err(n));
            },
            None => {
                return napaka_na_x(s3, OznakaNapake::E5, "Pričakovan '}'");
            },
        };
        if s3.len() >= s.len() {
            return None;
        }
        if prazno.len() != 0 {
            return napaka_na_x(prazno, OznakaNapake::E3, "Izraz funkcije se mora zaključiti z '}'");
        }
        let mut spr: Vec<(String, Rc<Vozlisce>)> = Vec::new();
        let mut naslov: i32 = 0;
        assert(pogled_spr(spr@) =~= Seq::<(Seq<char>, VozelV)>::empty());
        match nova_x(&mut spr, &mut naslov, "0_vrni", tip.kopija()) {
            Some(_) => {},
            None => {
                return None;
            },
        }
        let mut params: Vec<Rc<Vozlisce>> = Vec::new();
        assert(pogled_vseh(params@) =~= Seq::<VozelV>::empty());
        match parametri_x(parametri_s, &mut spr, &mut naslov, &mut params) {
            Some(x) => {
                return x;
            },
            None => {},
        }
        match nova_x(&mut spr, &mut naslov, "0_PC", Tip::Celo) {
            Some(_) => {},
            None => {
                return None;
            },
        }
        match nova_x(&mut spr, &mut naslov, "0_OF", Tip::Celo) {
            Some(_) => {},
            None => {
                return None;
            },
        }
        let mut pod = niz(ime.as_str());
        pod.append("(");
        tipi_x(&params, &mut pod);
        pod.append(")");
        assert(pod@ =~= podpis(ime.besedilo()@, pogled_vseh(params@)));
        let n0 = self.spremenljivke.len();
        let mut okolje = self.kopija();
        okolje.okvirji.push(n0);
        let ghost pred_spr = okolje@.spremenljivke;
        let ghost nove = pogled_spr(spr@);
        okolje.spremenljivke.append(&mut spr);
        assert(okolje@.spremenljivke =~= pred_spr + nove);
        let zacasna = Vozlisce::Funkcija {
            tip: tip.kopija(),
            ime: pod.clone(),
            parametri: kopija_vozlov(&params),
            telo: Vozlisce::Prazno.rc(),
            prostor: 0,
        }.rc();
        assert(parametri_rc(zacasna) =~= pogled_vseh(params@));
        let ghost pred_fun = okolje@.funkcije;
        okolje.funkcije.push((pod.clone(), zacasna));
        assert(okolje@.funkcije =~= pred_fun.push((pod@, pogled(*zacasna))));
        okolje.znotraj_funkcije = true;
        let telo_v = match okolje.zaporedje(telo) {
            Some(Ok(t)) => t,
            drugo => {
                return drugo;
            },
        };
        let vse = match okolje.celice(n0) {
            Some(c) => c,
            None => {
                return None;
            },
        };
        let razlika = vse as i64 - naslov as i64;
        if razlika < i32::MIN as i64 || razlika > i32::MAX as i64 {
            return None;
        }
        let f = Vozlisce::Funkcija {
            tip,
            ime: pod.clone(),
            parametri: params,
            telo: telo_v,
            prostor: razlika as i32,
        }.rc();
        assert(parametri_rc(f) =~= pogled_vseh(params@));
        let ghost pred = self@.funkcije;
        self.funkcije.push((pod, f.clone()));
        assert(self@.funkcije =~= pred.push((pod@, pogled(*f))));
        let ghost pred_klici = self@.klici;
        let ghost klici_okolja = okolje@.klici;
        self.klici.append(&mut okolje.klici);
        assert(self@.klici =~= pred_klici + klici_okolja);
        Some(Ok(f))
    }
}

} // verus!
