//! Reading a type from the tokens that write it.

use crate::besedilo::{enaka, znaki};
use crate::lekser::{Zeton, L};
use crate::loci::{lema_spredaj_meje, loci_spredaj, spredaj, Izid};
use crate::napaka::{napaka_iz, vsi_v_mejah, Napaka, Napake, OpisNapake, OznakaNapake};
use crate::stevilo::{
    brez_podcrtajev, celo_iz, odstrani_podcrtaje, opis_napake_stevila, opis_stevila, preberi_i32,
};
use crate::tip::{dobro_oblikovan, imena, urejena, Tip, TipV};
use crate::urejanje::{je_manjse, lema_irefleksivno, lema_tranzitivno, lema_trihotomija, manjse};
use vstd::prelude::*;
use vstd::string::StringExecFns;

verus! {

/// What reading a type gives: the type, the errors, or a panic of the
/// reading (an error about no tokens at all).
pub ghost enum IzidTipa {
    Tip(TipV),
    Napake(Seq<OpisNapake>),
    Panika,
}

/// What reading the fields of a structure gives.
pub ghost enum IzidPolj {
    Polja(Seq<(Seq<char>, TipV)>),
    Napake(Seq<OpisNapake>),
    Panika,
}

/// Whether the token is the type name `b`.
pub open spec fn je_tip(z: Zeton, b: Seq<char>) -> bool {
    z is Tip && z.besedilo()@ == b
}

/// Whether the token is the separator `b`.
pub open spec fn je_locilo(z: Zeton, b: Seq<char>) -> bool {
    z is Locilo && z.besedilo()@ == b
}

/// Whether the token is the operator `b`.
pub open spec fn je_operator(z: Zeton, b: Seq<char>) -> bool {
    z is Operator && z.besedilo()@ == b
}

/// Whether the token is an integer literal.
pub open spec fn je_celo(z: Zeton) -> bool {
    z matches Zeton::Literal(L::Celo(..))
}

/// The texts of the tokens, one after the other.
pub open spec fn zlepi(s: Seq<Zeton>) -> Seq<char>
    decreases s.len(),
{
    if s.len() == 0 {
        Seq::empty()
    } else {
        zlepi(s.drop_last()) + s.last().besedilo()@
    }
}

/// The message about an array length that is not a number of type `i32`.
pub open spec fn sporocilo_dolzine(z: Zeton, e: crate::stevilo::NapakaStevila) -> Seq<char> {
    "Iz vrednosti ni mogoče ustvariti števila: "@ + opis_stevila(e) + " "@ + z.lokacija_besedilo()
}

/// The type that the tokens `s` write:
/// - one of `brez`, `bool`, `celo`, `real`, `znak` alone;
/// - `[`, a type, `;`, an integer literal and `]`: an array;
/// - `{`, the fields and `}`: a structure;
/// - `@`, `[`, a type and `]`: a reference to an array;
/// - `@` and a type: a reference;
/// - anything else is an unknown type. No tokens at all is a panic.
pub open spec fn tip_iz(s: Seq<Zeton>) -> IzidTipa
    decreases s.len(), 2int,
{
    let n = s.len() as int;
    if n == 1 && je_tip(s[0], "brez"@) {
        IzidTipa::Tip(TipV::Brez)
    } else if n == 1 && je_tip(s[0], "bool"@) {
        IzidTipa::Tip(TipV::Bool)
    } else if n == 1 && je_tip(s[0], "celo"@) {
        IzidTipa::Tip(TipV::Celo)
    } else if n == 1 && je_tip(s[0], "real"@) {
        IzidTipa::Tip(TipV::Real)
    } else if n == 1 && je_tip(s[0], "znak"@) {
        IzidTipa::Tip(TipV::Znak)
    } else if n >= 4 && je_locilo(s[0], "["@) && je_locilo(s[n - 3], ";"@) && je_celo(s[n - 2]) && je_locilo(
        s[n - 1],
        "]"@,
    ) {
        match tip_iz(s.subrange(1, n - 3)) {
            IzidTipa::Tip(t) => match celo_iz(brez_podcrtajev(s[n - 2].besedilo()@)) {
                Ok(d) => IzidTipa::Tip(TipV::Seznam(Box::new(t), d)),
                Err(e) => IzidTipa::Napake(
                    seq![napaka_iz(seq![s[n - 2]], OznakaNapake::E1, sporocilo_dolzine(s[n - 2], e))],
                ),
            },
            drugo => drugo,
        }
    } else if n >= 2 && je_locilo(s[0], "{"@) && je_locilo(s[n - 1], "}"@) {
        match polja_od(s.subrange(1, n - 1), true, Seq::empty(), Seq::empty()) {
            IzidPolj::Polja(p) => IzidTipa::Tip(TipV::Strukt(p)),
            IzidPolj::Napake(e) => IzidTipa::Napake(e),
            IzidPolj::Panika => IzidTipa::Panika,
        }
    } else if n >= 3 && je_operator(s[0], "@"@) && je_locilo(s[1], "["@) && je_locilo(s[n - 1], "]"@) {
        match tip_iz(s.subrange(2, n - 1)) {
            IzidTipa::Tip(t) => IzidTipa::Tip(TipV::RefSeznama(Box::new(t))),
            drugo => drugo,
        }
    } else if n >= 1 && je_operator(s[0], "@"@) {
        match tip_iz(s.subrange(1, n)) {
            IzidTipa::Tip(t) => IzidTipa::Tip(TipV::Referenca(Box::new(t))),
            drugo => drugo,
        }
    } else if n == 0 {
        IzidTipa::Panika
    } else {
        IzidTipa::Napake(seq![napaka_iz(s, OznakaNapake::E1, "Neznan tip: '"@ + zlepi(s) + "'"@)])
    }
}

/// Where the field `ime` goes among fields sorted by name: the first place,
/// from `k` on, whose name is not before `ime`.
pub open spec fn mesto_od(p: Seq<(Seq<char>, TipV)>, ime: Seq<char>, k: int) -> int
    decreases p.len() - k,
{
    if k < 0 || k >= p.len() {
        p.len() as int
    } else if manjse(p[k].0, ime) {
        mesto_od(p, ime, k + 1)
    } else {
        k
    }
}

/// The fields with the field `ime` of type `t` put in its place, replacing a
/// field of the same name, and whether there was one.
pub open spec fn vstavi(p: Seq<(Seq<char>, TipV)>, ime: Seq<char>, t: TipV) -> (Seq<(Seq<char>, TipV)>, bool) {
    let k = mesto_od(p, ime, 0);
    if k < p.len() && p[k].0 == ime {
        (p.update(k, (ime, t)), true)
    } else {
        (p.insert(k, (ime, t)), false)
    }
}

/// One field `name: type` added to the fields `p` and the errors `n`: a
/// field that is not a name, `:` and a type is invalid, a name given twice
/// is an error, and the errors of its type are added. None for a panic.
pub open spec fn polje_iz(polje: Seq<Zeton>, p: Seq<(Seq<char>, TipV)>, n: Seq<OpisNapake>) -> Option<
    (Seq<(Seq<char>, TipV)>, Seq<OpisNapake>),
>
    decreases polje.len(), 0int,
{
    if polje.len() >= 2 && polje[0] is Ime && je_locilo(polje[1], ":"@) {
        match tip_iz(polje.subrange(2, polje.len() as int)) {
            IzidTipa::Tip(t) => {
                let (q, obstaja) = vstavi(p, polje[0].besedilo()@, t);
                Some(
                    (
                        q,
                        if obstaja {
                            n.push(napaka_iz(seq![polje[0]], OznakaNapake::E1, "Polje s tem imenom že obstaja"@))
                        } else {
                            n
                        },
                    ),
                )
            },
            IzidTipa::Napake(e) => Some((p, n + e)),
            IzidTipa::Panika => None,
        }
    } else if polje.len() == 0 {
        None
    } else {
        Some((p, n.push(napaka_iz(polje, OznakaNapake::E1, "Neveljavno polje"@))))
    }
}

/// The separators between fields: the first field ends at `,`, the later
/// ones at `;` or at a line break.
pub open spec fn locila_polj(prvi: bool) -> Seq<Seq<char>> {
    if prvi {
        seq![","@]
    } else {
        seq![";"@, "\n"@]
    }
}

/// The end of reading fields: the fields, or the errors if there are any.
pub open spec fn konec_polj(p: Seq<(Seq<char>, TipV)>, n: Seq<OpisNapake>) -> IzidPolj {
    if n.len() == 0 {
        IzidPolj::Polja(p)
    } else {
        IzidPolj::Napake(n)
    }
}

/// Reading the fields in `s`, with the fields `p` and the errors `n` read so
/// far; `prvi` when no field has been split off yet. Brackets that do not
/// pair up end the reading with that error alone.
pub open spec fn polja_od(s: Seq<Zeton>, prvi: bool, p: Seq<(Seq<char>, TipV)>, n: Seq<OpisNapake>) -> IzidPolj
    decreases s.len(), 1int,
{
    match spredaj(s, locila_polj(prvi)) {
        Izid::Najdeno(i) => if 0 <= i < s.len() {
            match polje_iz(s.subrange(0, i), p, n) {
                Some((q, m)) => polja_od(s.subrange(i + 1, s.len() as int), false, q, m),
                None => IzidPolj::Panika,
            }
        } else {
            IzidPolj::Panika
        },
        Izid::Nic => if s.len() == 0 {
            konec_polj(p, n)
        } else {
            match polje_iz(s, p, n) {
                Some((q, m)) => konec_polj(q, m),
                None => IzidPolj::Panika,
            }
        },
        Izid::Neujemajoc(i) => IzidPolj::Napake(seq![napaka_iz(seq![s[i]], OznakaNapake::E1, "Neujemajoč oklepaj"@)]),
        Izid::Neuravnotezeno => IzidPolj::Napake(seq![napaka_iz(s, OznakaNapake::E1, "Oklepaji se ne ujemajo"@)]),
    }
}

/// The fields of a structure written by the tokens `s` between its braces.
pub open spec fn polja_iz(s: Seq<Zeton>) -> IzidPolj {
    polja_od(s, true, Seq::empty(), Seq::empty())
}

/// The mathematical value of fields.
pub open spec fn polja_v(p: Seq<(String, Box<Tip>)>) -> Seq<(Seq<char>, TipV)> {
    Seq::new(p.len(), |i: int| (p[i].0@, p[i].1@))
}

/// Whether `r` is what reading a type with outcome `izid` returns.
pub open spec fn je_izid_tipa(r: Result<Tip, Napake>, izid: IzidTipa) -> bool {
    match izid {
        IzidTipa::Tip(t) => r matches Ok(x) && x@ == t,
        IzidTipa::Napake(n) => r matches Err(e) && e@ == n,
        IzidTipa::Panika => false,
    }
}

/// Whether `r` is what reading fields with outcome `izid` returns.
pub open spec fn je_izid_polj(r: Result<Vec<(String, Box<Tip>)>, Napake>, izid: IzidPolj) -> bool {
    match izid {
        IzidPolj::Polja(p) => r matches Ok(x) && polja_v(x@) == p,
        IzidPolj::Napake(n) => r matches Err(e) && e@ == n,
        IzidPolj::Panika => false,
    }
}

/// Whether the fields are sorted by name, each name once, and each type is
/// well formed.
pub open spec fn dobra_polja(p: Seq<(Seq<char>, TipV)>) -> bool {
    urejena(imena(p)) && forall|k: int| 0 <= k < p.len() ==> dobro_oblikovan(#[trigger] p[k].1)
}

/// The place of a field: every name before it comes before `ime`, and the
/// name at it does not.
proof fn lema_mesto(p: Seq<(Seq<char>, TipV)>, ime: Seq<char>, k: int)
    requires
        0 <= k <= p.len(),
    ensures
        k <= mesto_od(p, ime, k) <= p.len(),
        forall|j: int| k <= j < mesto_od(p, ime, k) ==> manjse(#[trigger] p[j].0, ime),
        mesto_od(p, ime, k) < p.len() ==> !manjse(p[mesto_od(p, ime, k)].0, ime),
    decreases p.len() - k,
{
    if k < p.len() && manjse(p[k].0, ime) {
        lema_mesto(p, ime, k + 1);
    }
}

/// Putting a field in its place keeps the fields sorted and well formed.
proof fn lema_vstavi(p: Seq<(Seq<char>, TipV)>, ime: Seq<char>, t: TipV)
    requires
        dobra_polja(p),
        dobro_oblikovan(t),
    ensures
        dobra_polja(vstavi(p, ime, t).0),
{
    let k = mesto_od(p, ime, 0);
    lema_mesto(p, ime, 0);
    let q = vstavi(p, ime, t).0;
    let ip = imena(p);
    let iq = imena(q);
    if k < p.len() && p[k].0 == ime {
        assert(q == p.update(k, (ime, t)));
        assert forall|i: int, j: int| 0 <= i < j < iq.len() implies manjse(#[trigger] iq[i], #[trigger] iq[j]) by {
            assert(iq[i] == ip[i] && iq[j] == ip[j]);
        }
    } else {
        assert(q == p.insert(k, (ime, t)));
        if k < p.len() {
            lema_trihotomija(p[k].0, ime);
        }
        assert forall|i: int, j: int| 0 <= i < j < iq.len() implies manjse(#[trigger] iq[i], #[trigger] iq[j]) by {
            if j < k {
                assert(iq[i] == ip[i] && iq[j] == ip[j]);
            } else if j == k {
                assert(iq[i] == ip[i] && iq[j] == ime);
            } else if i < k {
                assert(iq[i] == ip[i] && iq[j] == ip[j - 1]);
                assert(manjse(ip[i], ip[j - 1]));
            } else if i == k {
                assert(iq[i] == ime && iq[j] == ip[j - 1]);
                if j - 1 > k {
                    assert(manjse(ip[k], ip[j - 1]));
                    lema_tranzitivno(ime, ip[k], ip[j - 1]);
                }
            } else {
                assert(iq[i] == ip[i - 1] && iq[j] == ip[j - 1]);
            }
        }
    }
    assert forall|m: int| 0 <= m < q.len() implies dobro_oblikovan(#[trigger] q[m].1) by {
        if m != k {
            if m < k {
                assert(q[m] == p[m]);
            } else if q == p.insert(k, (ime, t)) {
                assert(q[m] == p[m - 1]);
            } else {
                assert(q[m] == p[m]);
            }
        }
    }
}

/// A type read from tokens is well formed.
proof fn lema_tip(s: Seq<Zeton>)
    ensures
        tip_iz(s) matches IzidTipa::Tip(t) ==> dobro_oblikovan(t),
    decreases s.len(), 2int,
{
    let n = s.len() as int;
    if n == 1 && (je_tip(s[0], "brez"@) || je_tip(s[0], "bool"@) || je_tip(s[0], "celo"@) || je_tip(
        s[0],
        "real"@,
    ) || je_tip(s[0], "znak"@)) {
    } else if n >= 4 && je_locilo(s[0], "["@) && je_locilo(s[n - 3], ";"@) && je_celo(s[n - 2]) && je_locilo(
        s[n - 1],
        "]"@,
    ) {
        lema_tip(s.subrange(1, n - 3));
    } else if n >= 2 && je_locilo(s[0], "{"@) && je_locilo(s[n - 1], "}"@) {
        assert(dobra_polja(Seq::empty()));
        lema_polja(s.subrange(1, n - 1), true, Seq::empty(), Seq::empty());
    } else if n >= 3 && je_operator(s[0], "@"@) && je_locilo(s[1], "["@) && je_locilo(s[n - 1], "]"@) {
        lema_tip(s.subrange(2, n - 1));
    } else if n >= 1 && je_operator(s[0], "@"@) {
        lema_tip(s.subrange(1, n));
    }
}

/// Reading fields keeps them sorted and well formed.
proof fn lema_polja(s: Seq<Zeton>, prvi: bool, p: Seq<(Seq<char>, TipV)>, n: Seq<OpisNapake>)
    requires
        dobra_polja(p),
    ensures
        polja_od(s, prvi, p, n) matches IzidPolj::Polja(q) ==> dobra_polja(q),
    decreases s.len(), 1int,
{
    match spredaj(s, locila_polj(prvi)) {
        Izid::Najdeno(i) => if 0 <= i < s.len() {
            lema_polje(s.subrange(0, i), p, n);
            match polje_iz(s.subrange(0, i), p, n) {
                Some((q, m)) => lema_polja(s.subrange(i + 1, s.len() as int), false, q, m),
                None => {},
            }
        },
        Izid::Nic => if s.len() != 0 {
            lema_polje(s, p, n);
        },
        _ => {},
    }
}

/// Adding one field keeps the fields sorted and well formed.
proof fn lema_polje(polje: Seq<Zeton>, p: Seq<(Seq<char>, TipV)>, n: Seq<OpisNapake>)
    requires
        dobra_polja(p),
    ensures
        polje_iz(polje, p, n) matches Some((q, _)) ==> dobra_polja(q),
    decreases polje.len(), 0int,
{
    if polje.len() >= 2 && polje[0] is Ime && je_locilo(polje[1], ":"@) {
        lema_tip(polje.subrange(2, polje.len() as int));
        match tip_iz(polje.subrange(2, polje.len() as int)) {
            IzidTipa::Tip(t) => lema_vstavi(p, polje[0].besedilo()@, t),
            _ => {},
        }
    }
}

/// Every structure in a type read from tokens has its fields sorted by
/// name, each name once.
pub proof fn zakon_urejena_polja(s: Seq<Zeton>)
    ensures
        tip_iz(s) matches IzidTipa::Tip(t) ==> dobro_oblikovan(t),
{
    lema_tip(s);
}

fn je_tip_exec(z: &Zeton, b: &str) -> (r: bool)
    ensures
        r == je_tip(*z, b@),
{
    match z {
        Zeton::Tip(t, ..) => enaka(t, b),
        _ => false,
    }
}

fn je_locilo_exec(z: &Zeton, b: &str) -> (r: bool)
    ensures
        r == je_locilo(*z, b@),
{
    match z {
        Zeton::Locilo(t, ..) => enaka(t, b),
        _ => false,
    }
}

fn je_operator_exec(z: &Zeton, b: &str) -> (r: bool)
    ensures
        r == je_operator(*z, b@),
{
    match z {
        Zeton::Operator(t, ..) => enaka(t, b),
        _ => false,
    }
}

fn je_celo_exec(z: &Zeton) -> (r: bool)
    ensures
        r == je_celo(*z),
{
    match z {
        Zeton::Literal(L::Celo(..)) => true,
        _ => false,
    }
}

fn je_ime_exec(z: &Zeton) -> (r: bool)
    ensures
        r == (*z is Ime),
{
    match z {
        Zeton::Ime(..) => true,
        _ => false,
    }
}

/// The texts of the tokens, one after the other.
fn zlepi_exec(s: &[Zeton]) -> (r: String)
    ensures
        r@ == zlepi(s@),
{
    let mut r = String::new();
    let mut i: usize = 0;
    while i < s.len()
        invariant
            0 <= i <= s@.len(),
            r@ == zlepi(s@.subrange(0, i as int)),
        decreases s@.len() - i,
    {
        assert(s@.subrange(0, i + 1).drop_last() =~= s@.subrange(0, i as int));
        r.append(s[i].as_str());
        i = i + 1;
    }
    assert(s@.subrange(0, i as int) =~= s@);
    r
}

/// Puts the field `ime` of type `t` in its place among the fields, sorted by
/// name, replacing a field of the same name; returns whether there was one.
fn vstavi_polje(polja: &mut Vec<(String, Box<Tip>)>, ime: String, t: Tip) -> (obstaja: bool)
    ensures
        (polja_v(final(polja)@), obstaja) == vstavi(polja_v(old(polja)@), ime@, t@),
{
    let ghost pv = polja_v(polja@);
    let iz = znaki(ime.as_str());
    let mut k: usize = 0;
    let mut naprej = true;
    while naprej && k < polja.len()
        invariant
            0 <= k <= polja@.len(),
            pv == polja_v(polja@),
            iz@ == ime@,
            mesto_od(pv, ime@, 0) == if naprej {
                mesto_od(pv, ime@, k as int)
            } else {
                k as int
            },
            !naprej ==> k < polja@.len(),
        decreases polja@.len() - k + (if naprej {
            1int
        } else {
            0int
        }),
    {
        let zk = znaki(polja[k].0.as_str());
        assert(pv[k as int].0 == polja@[k as int].0@);
        if je_manjse(&zk, &iz) {
            k = k + 1;
        } else {
            naprej = false;
        }
    }
    let ghost tv = t@;
    if k < polja.len() && enaka(polja[k].0.as_str(), ime.as_str()) {
        polja[k] = (ime, Box::new(t));
        proof {
            assert(polja_v(polja@) =~= pv.update(k as int, (ime@, tv)));
        }
        true
    } else {
        polja.insert(k, (ime, Box::new(t)));
        proof {
            assert(polja_v(polja@) =~= pv.insert(k as int, (ime@, tv)));
        }
        false
    }
}

impl Tip {
    /// Reads a type from the tokens that write it; see `tip_iz`.
    pub fn from(izraz: &[Zeton]) -> (r: Result<Tip, Napake>)
        requires
            vsi_v_mejah(izraz@),
            !(tip_iz(izraz@) is Panika),
        ensures
            je_izid_tipa(r, tip_iz(izraz@)),
    {
        match Tip::from_preverjeno(izraz) {
            Some(r) => r,
            None => Err(Napake::new()),
        }
    }

    /// Reads a type from the tokens that write it (see `tip_iz`); nothing
    /// where reading it panics.
    pub fn from_preverjeno(izraz: &[Zeton]) -> (r: Option<Result<Tip, Napake>>)
        requires
            vsi_v_mejah(izraz@),
        ensures
            match r {
                Some(x) => je_izid_tipa(x, tip_iz(izraz@)),
                None => tip_iz(izraz@) is Panika,
            },
        decreases izraz@.len(), 2int,
    {
        let n = izraz.len();
        if n == 1 && je_tip_exec(&izraz[0], "brez") {
            return Some(Ok(Tip::Brez));
        }
        if n == 1 && je_tip_exec(&izraz[0], "bool") {
            return Some(Ok(Tip::Bool));
        }
        if n == 1 && je_tip_exec(&izraz[0], "celo") {
            return Some(Ok(Tip::Celo));
        }
        if n == 1 && je_tip_exec(&izraz[0], "real") {
            return Some(Ok(Tip::Real));
        }
        if n == 1 && je_tip_exec(&izraz[0], "znak") {
            return Some(Ok(Tip::Znak));
        }
        if n >= 4 && je_locilo_exec(&izraz[0], "[") && je_locilo_exec(&izraz[n - 3], ";") && je_celo_exec(
            &izraz[n - 2],
        ) && je_locilo_exec(&izraz[n - 1], "]") {
            let notranji = &izraz[1..n - 3];
            assert(notranji@ == izraz@.subrange(1, n - 3));
            let t = match Tip::from_preverjeno(notranji) {
                Some(Ok(t)) => t,
                drugo => {
                    return drugo;
                },
            };
            let dolzina = izraz[n - 2];
            let besedilo = znaki(dolzina.as_str());
            let stevke = odstrani_podcrtaje(besedilo.as_slice());
            return match preberi_i32(stevke.as_slice()) {
                Ok(d) => Some(Ok(Tip::Seznam(Box::new(t), d))),
                Err(e) => {
                    let mut sporocilo = String::new();
                    sporocilo.append("Iz vrednosti ni mogoče ustvariti števila: ");
                    sporocilo.append(opis_napake_stevila(e));
                    sporocilo.append(" ");
                    let kje = dolzina.lokacija_str();
                    sporocilo.append(kje.as_str());
                    let samo = [dolzina];
                    assert(samo@ =~= seq![izraz@[n - 2]]);
                    let napake = Napake::from_zaporedje(&samo, OznakaNapake::E1, sporocilo.as_str());
                    assert(napake@ =~= seq![
                        napaka_iz(seq![izraz@[n - 2]], OznakaNapake::E1, sporocilo_dolzine(izraz@[n - 2], e)),
                    ]);
                    Some(Err(napake))
                },
            };
        }
        if n >= 2 && je_locilo_exec(&izraz[0], "{") && je_locilo_exec(&izraz[n - 1], "}") {
            let vmes = &izraz[1..n - 1];
            assert(vmes@ == izraz@.subrange(1, n - 1));
            return match zgradi_polja_preverjeno(vmes) {
                Some(Ok(p)) => {
                    let r = Tip::Strukt(p);
                    proof {
                        let a = match r@ {
                            TipV::Strukt(x) => x,
                            _ => Seq::empty(),
                        };
                        assert(a =~= polja_v(p@));
                    }
                    Some(Ok(r))
                },
                Some(Err(e)) => Some(Err(e)),
                None => None,
            };
        }
        if n >= 3 && je_operator_exec(&izraz[0], "@") && je_locilo_exec(&izraz[1], "[") && je_locilo_exec(
            &izraz[n - 1],
            "]",
        ) {
            let ostanek = &izraz[2..n - 1];
            assert(ostanek@ == izraz@.subrange(2, n - 1));
            return match Tip::from_preverjeno(ostanek) {
                Some(Ok(t)) => Some(Ok(Tip::RefSeznama(Box::new(t)))),
                Some(Err(e)) => Some(Err(e)),
                None => None,
            };
        }
        if n >= 1 && je_operator_exec(&izraz[0], "@") {
            let ostanek = &izraz[1..n];
            assert(ostanek@ == izraz@.subrange(1, n as int));
            return match Tip::from_preverjeno(ostanek) {
                Some(Ok(t)) => Some(Ok(Tip::Referenca(Box::new(t)))),
                Some(Err(e)) => Some(Err(e)),
                None => None,
            };
        }
        if n == 0 {
            return None;
        }
        let mut sporocilo = String::new();
        sporocilo.append("Neznan tip: '");
        let vse = zlepi_exec(izraz);
        sporocilo.append(vse.as_str());
        sporocilo.append("'");
        let napake = Napake::from_zaporedje(izraz, OznakaNapake::E1, sporocilo.as_str());
        Some(Err(napake))
    }
}

/// Adds one field to the fields and the errors; see `polje_iz`.
fn obdelaj_polje(polje: &[Zeton], polja: &mut Vec<(String, Box<Tip>)>, napake: &mut Napake) -> (ok: bool)
    requires
        vsi_v_mejah(polje@),
    ensures
        ok == polje_iz(polje@, polja_v(old(polja)@), old(napake)@) is Some,
        ok ==> polje_iz(polje@, polja_v(old(polja)@), old(napake)@) == Some((polja_v(final(polja)@), final(napake)@)),
    decreases polje@.len(), 0int,
{
    let n = polje.len();
    if n >= 2 && je_ime_exec(&polje[0]) && je_locilo_exec(&polje[1], ":") {
        let tip = &polje[2..n];
        assert(tip@ == polje@.subrange(2, n as int));
        match Tip::from_preverjeno(tip) {
            None => false,
            Some(Ok(t)) => {
                let ime = polje[0].to_string();
                let obstaja = vstavi_polje(polja, ime, t);
                if obstaja {
                    let samo = [polje[0]];
                    assert(samo@ =~= seq![polje@[0]]);
                    let _ = napake.add_napaka(
                        Napaka::from_zaporedje(&samo, OznakaNapake::E1, "Polje s tem imenom že obstaja"),
                    );
                }
                true
            },
            Some(Err(e)) => {
                napake.razsiri(e);
                true
            },
        }
    } else if n == 0 {
        false
    } else {
        let _ = napake.add_napaka(Napaka::from_zaporedje(polje, OznakaNapake::E1, "Neveljavno polje"));
        true
    }
}

/// Reads the fields of a structure from the tokens between its braces; see
/// `polja_iz`.
pub fn zgradi_tip_strukta(izraz: &[Zeton]) -> (r: Result<Vec<(String, Box<Tip>)>, Napake>)
    requires
        vsi_v_mejah(izraz@),
        !(polja_iz(izraz@) is Panika),
    ensures
        je_izid_polj(r, polja_iz(izraz@)),
{
    match zgradi_polja_preverjeno(izraz) {
        Some(r) => r,
        None => Err(Napake::new()),
    }
}

/// Reads the fields of a structure from the tokens between its braces (see
/// `polja_iz`); nothing where reading them panics.
pub fn zgradi_polja_preverjeno(izraz: &[Zeton]) -> (r: Option<Result<Vec<(String, Box<Tip>)>, Napake>>)
    requires
        vsi_v_mejah(izraz@),
    ensures
        match r {
            Some(x) => je_izid_polj(x, polja_iz(izraz@)),
            None => polja_iz(izraz@) is Panika,
        },
    decreases izraz@.len(), 1int,
{
    let mut polja: Vec<(String, Box<Tip>)> = Vec::new();
    let mut napake = Napake::new();
    let mut ostanek = izraz;
    let mut prvi = true;
    assert(polja_v(polja@) =~= Seq::empty());
    loop
        invariant
            vsi_v_mejah(izraz@),
            vsi_v_mejah(ostanek@),
            ostanek@.len() <= izraz@.len(),
            polja_od(ostanek@, prvi, polja_v(polja@), napake@) == polja_iz(izraz@),
        ensures
            spredaj(ostanek@, locila_polj(prvi)) is Nic,
        decreases ostanek@.len(),
    {
        let loceno = if prvi {
            let locila = [","];
            assert(crate::loci::besedila(locila@) =~= locila_polj(prvi));
            loci_spredaj(ostanek, &locila)
        } else {
            let locila = [";", "\n"];
            assert(crate::loci::besedila(locila@) =~= locila_polj(prvi));
            loci_spredaj(ostanek, &locila)
        };
        proof {
            lema_spredaj_meje(ostanek@, locila_polj(prvi), 0, 0, 0, 0);
        }
        match loceno {
            None => {
                break;
            },
            Some(Err(e)) => {
                assert(e@ =~= match polja_iz(izraz@) {
                    IzidPolj::Napake(x) => x,
                    _ => Seq::empty(),
                });
                return Some(Err(e));
            },
            Some(Ok((polje, _, naprej))) => {
                if !obdelaj_polje(polje, &mut polja, &mut napake) {
                    return None;
                }
                ostanek = naprej;
                prvi = false;
            },
        }
    }
    if ostanek.len() != 0 {
        if !obdelaj_polje(ostanek, &mut polja, &mut napake) {
            return None;
        }
    }
    if napake.prazno() {
        Some(Ok(polja))
    } else {
        Some(Err(napake))
    }
}

} // verus!
