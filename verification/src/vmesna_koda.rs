//! The intermediate code between the syntax tree and the machine, with
//! labels and jumps to labels, and the passes that turn it into a program:
//! a `vrni` label becomes a jump to the end of its function, labels are
//! taken out, and jumps to labels become jumps to instructions.

use crate::besedilo::{enaka, zacne, zacne_z, znaki};
use crate::fasm::{ArO, R};
use crate::program::{Podatek, UkazPodatek};
use crate::tip::{Tip, TipV};
use vstd::prelude::*;

verus! {

/// An instruction of the intermediate code.
#[derive(Debug)]
pub enum UkazPodatekRelative {
    Osnovni(UkazPodatek),
    PUSHI(i32),
    PUSHF(Podatek),
    PUSHC(char),
    JUMPRel(String),
    JMPCRel(String),
    CALL(String),
    PC(i32),
    Oznaka(String),
    STIMM(u32, i32, R),
    LDOP(ArO, R, R, i32, i32),
    LDST(R, R, i32, i32),
    PUSHREF(i32, bool),
    LDINDEXED,
    STINDEXED,
}

/// The value of an instruction of the intermediate code.
pub ghost enum UkazRelV {
    Osnovni(UkazPodatek),
    PUSHI(i32),
    PUSHF(Podatek),
    PUSHC(char),
    JUMPRel(Seq<char>),
    JMPCRel(Seq<char>),
    CALL(Seq<char>),
    PC(i32),
    Oznaka(Seq<char>),
    STIMM(u32, i32, R),
    LDOP(ArO, R, R, i32, i32),
    LDST(R, R, i32, i32),
    PUSHREF(i32, bool),
    LDINDEXED,
    STINDEXED,
}

impl View for UkazPodatekRelative {
    type V = UkazRelV;

    open spec fn view(&self) -> UkazRelV {
        match self {
            UkazPodatekRelative::Osnovni(u) => UkazRelV::Osnovni(*u),
            UkazPodatekRelative::PUSHI(x) => UkazRelV::PUSHI(*x),
            UkazPodatekRelative::PUSHF(x) => UkazRelV::PUSHF(*x),
            UkazPodatekRelative::PUSHC(x) => UkazRelV::PUSHC(*x),
            UkazPodatekRelative::JUMPRel(l) => UkazRelV::JUMPRel(l@),
            UkazPodatekRelative::JMPCRel(l) => UkazRelV::JMPCRel(l@),
            UkazPodatekRelative::CALL(l) => UkazRelV::CALL(l@),
            UkazPodatekRelative::PC(x) => UkazRelV::PC(*x),
            UkazPodatekRelative::Oznaka(l) => UkazRelV::Oznaka(l@),
            UkazPodatekRelative::STIMM(a, b, c) => UkazRelV::STIMM(*a, *b, *c),
            UkazPodatekRelative::LDOP(a, b, c, d, e) => UkazRelV::LDOP(*a, *b, *c, *d, *e),
            UkazPodatekRelative::LDST(a, b, c, d) => UkazRelV::LDST(*a, *b, *c, *d),
            UkazPodatekRelative::PUSHREF(a, b) => UkazRelV::PUSHREF(*a, *b),
            UkazPodatekRelative::LDINDEXED => UkazRelV::LDINDEXED,
            UkazPodatekRelative::STINDEXED => UkazRelV::STINDEXED,
        }
    }
}

/// The values of instructions.
pub open spec fn pogledi_ukazov(v: Seq<UkazPodatekRelative>) -> Seq<UkazRelV> {
    v.map_values(|u: UkazPodatekRelative| u@)
}

/// The first label from `j` on that starts with `fn_end`, or the length of
/// the code when there is none.
pub open spec fn konec_funkcije_od(v: Seq<UkazRelV>, j: int) -> int
    decreases v.len() - j,
{
    if j < 0 || j >= v.len() {
        v.len() as int
    } else if v[j] matches UkazRelV::Oznaka(l) && zacne(l, "fn_end"@) {
        j
    } else {
        konec_funkcije_od(v, j + 1)
    }
}

/// Whether the instruction is the label `vrni`.
pub open spec fn je_vrni(u: UkazRelV) -> bool {
    u matches UkazRelV::Oznaka(l) && l == "vrni"@
}

/// Whether every `vrni` label has a label of a function's end after it.
pub open spec fn vsak_vrni_ima_konec(v: Seq<UkazRelV>) -> bool {
    forall|i: int| 0 <= i < v.len() && je_vrni(v[i]) ==> konec_funkcije_od(v, i + 1) < v.len()
}

/// The code with each `vrni` label turned into a jump to the next label of
/// a function's end.
pub open spec fn vrni_v_oznake_spec(v: Seq<UkazRelV>) -> Seq<UkazRelV> {
    Seq::new(
        v.len(),
        |i: int|
            if je_vrni(v[i]) && konec_funkcije_od(v, i + 1) < v.len() {
                match v[konec_funkcije_od(v, i + 1)] {
                    UkazRelV::Oznaka(l) => UkazRelV::JUMPRel(l),
                    _ => v[i],
                }
            } else {
                v[i]
            },
    )
}

/// The first `k` instructions without the labels, and without a jump to
/// the label right after it; each label with the index, among the kept
/// instructions, of the one after it.
pub open spec fn oznake_do(v: Seq<UkazRelV>, k: int) -> (Seq<UkazRelV>, Seq<(Seq<char>, int)>)
    decreases k,
{
    if k <= 0 || k > v.len() {
        (Seq::empty(), Seq::empty())
    } else {
        let (u, o) = oznake_do(v, k - 1);
        let x = v[k - 1];
        match x {
            UkazRelV::Oznaka(l) => (u, o.push((l, u.len() as int))),
            UkazRelV::JUMPRel(l) => if k < v.len() && v[k] == UkazRelV::Oznaka(l) {
                (u, o)
            } else {
                (u.push(x), o)
            },
            _ => (u.push(x), o),
        }
    }
}

/// The index of the label `ime`; a label given twice counts where it was
/// given last.
pub open spec fn najdi_oznako(o: Seq<(Seq<char>, int)>, ime: Seq<char>) -> Option<int>
    decreases o.len(),
{
    if o.len() == 0 {
        None
    } else if o.last().0 == ime {
        Some(o.last().1)
    } else {
        najdi_oznako(o.drop_last(), ime)
    }
}

/// Whether a number fits in `i32`.
pub open spec fn v_i32(x: int) -> bool {
    i32::MIN <= x <= i32::MAX
}

/// The machine instruction for the kept instruction `x` at index `i`, with
/// the type it pushes, if it pushes: a value pushes its type, a jump to a
/// label jumps to the label's index, a call jumps there too, and `PC n`
/// pushes `i + n`. None where the pass panics: an unknown label, an index
/// that leaves `i32`, or an instruction that only the native back end uses.
pub open spec fn ukaz_iz(x: UkazRelV, i: int, o: Seq<(Seq<char>, int)>) -> Option<(UkazPodatek, Option<TipV>)> {
    match x {
        UkazRelV::Osnovni(u) => Some((u, None)),
        UkazRelV::PUSHI(c) => Some((UkazPodatek::PUSH(Podatek { i: c }), Some(TipV::Celo))),
        UkazRelV::PUSHF(p) => Some((UkazPodatek::PUSH(p), Some(TipV::Real))),
        UkazRelV::PUSHC(c) => Some((UkazPodatek::PUSH(Podatek { i: (c as u32) as i32 }), Some(TipV::Znak))),
        UkazRelV::JUMPRel(l) | UkazRelV::CALL(l) => match najdi_oznako(o, l) {
            Some(n) => Some((UkazPodatek::JUMP(n as i32), None)),
            None => None,
        },
        UkazRelV::JMPCRel(l) => match najdi_oznako(o, l) {
            Some(n) => Some((UkazPodatek::JMPC(n as i32), None)),
            None => None,
        },
        UkazRelV::PC(d) => if v_i32(i + d) {
            Some((UkazPodatek::PUSH(Podatek { i: (i + d) as i32 }), Some(TipV::Celo)))
        } else {
            None
        },
        UkazRelV::Oznaka(_) => Some((UkazPodatek::NOOP, None)),
        _ => None,
    }
}

/// The machine instructions and the pushed types of the first `k` kept
/// instructions; None where the pass panics.
pub open spec fn program_do(u: Seq<UkazRelV>, o: Seq<(Seq<char>, int)>, k: int) -> Option<
    (Seq<UkazPodatek>, Seq<TipV>),
>
    decreases k,
{
    if k <= 0 || k > u.len() {
        Some((Seq::empty(), Seq::empty()))
    } else {
        match (program_do(u, o, k - 1), ukaz_iz(u[k - 1], k - 1, o)) {
            (Some((p, t)), Some((ukaz, tip))) => Some(
                (
                    p.push(ukaz),
                    match tip {
                        Some(tv) => t.push(tv),
                        None => t,
                    },
                ),
            ),
            _ => None,
        }
    }
}

/// The program that the intermediate code `v` gives.
pub open spec fn postprocesirano(v: Seq<UkazRelV>) -> Option<(Seq<UkazPodatek>, Seq<TipV>)> {
    let (u, o) = oznake_do(v, v.len() as int);
    program_do(u, o, u.len() as int)
}

/// The values of types.
pub open spec fn pogledi_tipov(t: Seq<Tip>) -> Seq<TipV> {
    t.map_values(|x: Tip| x@)
}

impl UkazPodatekRelative {
    /// A copy of the instruction.
    pub fn kopija(&self) -> (r: UkazPodatekRelative)
        ensures
            r@ == self@,
    {
        match self {
            UkazPodatekRelative::Osnovni(u) => UkazPodatekRelative::Osnovni(*u),
            UkazPodatekRelative::PUSHI(x) => UkazPodatekRelative::PUSHI(*x),
            UkazPodatekRelative::PUSHF(x) => UkazPodatekRelative::PUSHF(*x),
            UkazPodatekRelative::PUSHC(x) => UkazPodatekRelative::PUSHC(*x),
            UkazPodatekRelative::JUMPRel(l) => UkazPodatekRelative::JUMPRel(l.clone()),
            UkazPodatekRelative::JMPCRel(l) => UkazPodatekRelative::JMPCRel(l.clone()),
            UkazPodatekRelative::CALL(l) => UkazPodatekRelative::CALL(l.clone()),
            UkazPodatekRelative::PC(x) => UkazPodatekRelative::PC(*x),
            UkazPodatekRelative::Oznaka(l) => UkazPodatekRelative::Oznaka(l.clone()),
            UkazPodatekRelative::STIMM(a, b, c) => UkazPodatekRelative::STIMM(*a, *b, *c),
            UkazPodatekRelative::LDOP(a, b, c, d, e) => UkazPodatekRelative::LDOP(*a, *b, *c, *d, *e),
            UkazPodatekRelative::LDST(a, b, c, d) => UkazPodatekRelative::LDST(*a, *b, *c, *d),
            UkazPodatekRelative::PUSHREF(a, b) => UkazPodatekRelative::PUSHREF(*a, *b),
            UkazPodatekRelative::LDINDEXED => UkazPodatekRelative::LDINDEXED,
            UkazPodatekRelative::STINDEXED => UkazPodatekRelative::STINDEXED,
        }
    }
}

impl Clone for UkazPodatekRelative {
    fn clone(&self) -> (r: Self)
        ensures
            r@ == self@,
    {
        self.kopija()
    }
}

/// The search for the end of a function from `j` on ends at `j` or later,
/// at such a label when it finds one.
proof fn lema_konec_funkcije(v: Seq<UkazRelV>, j: int)
    requires
        0 <= j <= v.len(),
    ensures
        j <= konec_funkcije_od(v, j) <= v.len(),
        konec_funkcije_od(v, j) < v.len() ==> (v[konec_funkcije_od(v, j)] matches UkazRelV::Oznaka(l) && zacne(
            l,
            "fn_end"@,
        )),
    decreases v.len() - j,
{
    if j < v.len() && !(v[j] matches UkazRelV::Oznaka(l) && zacne(l, "fn_end"@)) {
        lema_konec_funkcije(v, j + 1);
    }
}

/// Whether the instruction is a label that starts with `fn_end`.
fn je_konec_funkcije(u: &UkazPodatekRelative, konec: &Vec<char>) -> (r: bool)
    requires
        konec@ == "fn_end"@,
    ensures
        r == (u@ matches UkazRelV::Oznaka(l) && zacne(l, "fn_end"@)),
{
    match u {
        UkazPodatekRelative::Oznaka(l) => {
            let z = znaki(l.as_str());
            zacne_z(z.as_slice(), konec.as_slice())
        },
        _ => false,
    }
}

/// Whether the instruction is the label `vrni`.
fn je_vrni_exec(u: &UkazPodatekRelative) -> (r: bool)
    ensures
        r == je_vrni(u@),
{
    match u {
        UkazPodatekRelative::Oznaka(l) => enaka(l.as_str(), "vrni"),
        _ => false,
    }
}

/// Turns each `vrni` label into a jump to the next label of a function's
/// end.
pub fn vrni_v_oznake(ukazi: &Vec<UkazPodatekRelative>) -> (r: Vec<UkazPodatekRelative>)
    requires
        vsak_vrni_ima_konec(pogledi_ukazov(ukazi@)),
    ensures
        pogledi_ukazov(r@) == vrni_v_oznake_spec(pogledi_ukazov(ukazi@)),
{
    let ghost v = pogledi_ukazov(ukazi@);
    let konec = znaki("fn_end");
    let mut r: Vec<UkazPodatekRelative> = Vec::new();
    let mut i: usize = 0;
    while i < ukazi.len()
        invariant
            0 <= i <= ukazi@.len(),
            v == pogledi_ukazov(ukazi@),
            v.len() == ukazi@.len(),
            vsak_vrni_ima_konec(v),
            konec@ == "fn_end"@,
            r@.len() == i,
            forall|m: int| 0 <= m < i ==> (#[trigger] pogledi_ukazov(r@)[m]) == vrni_v_oznake_spec(v)[m],
        decreases ukazi@.len() - i,
    {
        assert(v[i as int] == ukazi@[i as int]@);
        let nov = if je_vrni_exec(&ukazi[i]) {
            let ghost cilj = konec_funkcije_od(v, i + 1);
            proof {
                lema_konec_funkcije(v, i + 1);
            }
            let mut j: usize = i + 1;
            while !je_konec_funkcije(&ukazi[j], &konec)
                invariant
                    i + 1 <= j <= cilj,
                    cilj == konec_funkcije_od(v, j as int),
                    cilj < v.len(),
                    v == pogledi_ukazov(ukazi@),
                    v.len() == ukazi@.len(),
                    v.len() == ukazi.len(),
                    konec@ == "fn_end"@,
                decreases cilj - j,
            {
                assert(v[j as int] == ukazi@[j as int]@);
                assert(konec_funkcije_od(v, j as int) == konec_funkcije_od(v, j + 1));
                proof {
                    lema_konec_funkcije(v, j + 1);
                }
                j = j + 1;
            }
            assert(v[j as int] == ukazi@[j as int]@);
            assert(j == cilj);
            match &ukazi[j] {
                UkazPodatekRelative::Oznaka(l) => UkazPodatekRelative::JUMPRel(l.clone()),
                _ => ukazi[i].kopija(),
            }
        } else {
            ukazi[i].kopija()
        };
        assert(nov@ == vrni_v_oznake_spec(v)[i as int]);
        let ghost staro = pogledi_ukazov(r@);
        let ghost nv = nov@;
        r.push(nov);
        assert(pogledi_ukazov(r@) =~= staro.push(nv));
        i = i + 1;
    }
    assert(pogledi_ukazov(r@) =~= vrni_v_oznake_spec(v));
    r
}

/// The values of labels with their indices.
pub open spec fn pogledi_oznak(o: Seq<(String, i32)>) -> Seq<(Seq<char>, int)> {
    o.map_values(|p: (String, i32)| (p.0@, p.1 as int))
}

/// No more kept instructions than instructions, and every label points at
/// a kept instruction or just past the last one.
proof fn lema_oznake_do(v: Seq<UkazRelV>, k: int)
    requires
        0 <= k <= v.len(),
    ensures
        oznake_do(v, k).0.len() <= k,
        forall|m: int| 0 <= m < oznake_do(v, k).1.len() ==> 0 <= (#[trigger] oznake_do(v, k).1[m]).1 <= oznake_do(v, k).0.len(),
    decreases k,
{
    if k > 0 {
        lema_oznake_do(v, k - 1);
    }
}

/// The index of the label `ime`, searching from the last label back.
fn najdi(o: &Vec<(String, i32)>, ime: &String) -> (r: Option<i32>)
    ensures
        match r {
            Some(n) => najdi_oznako(pogledi_oznak(o@), ime@) == Some(n as int),
            None => najdi_oznako(pogledi_oznak(o@), ime@) is None,
        },
{
    let ghost oz = pogledi_oznak(o@);
    let mut k: usize = o.len();
    assert(oz.subrange(0, k as int) =~= oz);
    while k > 0
        invariant
            0 <= k <= o@.len(),
            oz == pogledi_oznak(o@),
            najdi_oznako(oz, ime@) == najdi_oznako(oz.subrange(0, k as int), ime@),
        decreases k,
    {
        let ghost pred = oz.subrange(0, k as int);
        assert(pred.drop_last() =~= oz.subrange(0, k - 1));
        assert(pred.last() == oz[k - 1]);
        if enaka(o[k - 1].0.as_str(), ime.as_str()) {
            return Some(o[k - 1].1);
        }
        k = k - 1;
    }
    None
}

/// The machine instruction, and the pushed type, for the kept instruction
/// `x` at index `i`; see `ukaz_iz`.
fn ukaz_iz_exec(x: &UkazPodatekRelative, i: usize, o: &Vec<(String, i32)>) -> (r: (UkazPodatek, Option<Tip>))
    requires
        i <= i32::MAX,
        ukaz_iz(x@, i as int, pogledi_oznak(o@)) is Some,
    ensures
        ukaz_iz(x@, i as int, pogledi_oznak(o@)) == Some(
            (
                r.0,
                match r.1 {
                    Some(t) => Some(t@),
                    None => None,
                },
            ),
        ),
{
    match x {
        UkazPodatekRelative::Osnovni(u) => (*u, None),
        UkazPodatekRelative::PUSHI(c) => (UkazPodatek::PUSH(Podatek { i: *c }), Some(Tip::Celo)),
        UkazPodatekRelative::PUSHF(p) => (UkazPodatek::PUSH(*p), Some(Tip::Real)),
        UkazPodatekRelative::PUSHC(c) => (UkazPodatek::PUSH(Podatek { i: (*c as u32) as i32 }), Some(Tip::Znak)),
        UkazPodatekRelative::JUMPRel(l) | UkazPodatekRelative::CALL(l) => match najdi(o, l) {
            Some(n) => (UkazPodatek::JUMP(n), None),
            None => (UkazPodatek::NOOP, None),
        },
        UkazPodatekRelative::JMPCRel(l) => match najdi(o, l) {
            Some(n) => (UkazPodatek::JMPC(n), None),
            None => (UkazPodatek::NOOP, None),
        },
        UkazPodatekRelative::PC(d) => (UkazPodatek::PUSH(Podatek { i: (i as i64 + *d as i64) as i32 }), Some(Tip::Celo)),
        UkazPodatekRelative::Oznaka(_) => (UkazPodatek::NOOP, None),
        _ => (UkazPodatek::NOOP, None),
    }
}

/// Whether the instruction is the label `ime`.
fn je_oznaka(u: &UkazPodatekRelative, ime: &String) -> (r: bool)
    ensures
        r == (u@ == UkazRelV::Oznaka(ime@)),
{
    match u {
        UkazPodatekRelative::Oznaka(l) => enaka(l.as_str(), ime.as_str()),
        _ => false,
    }
}

/// The program of the intermediate code: labels are taken out, a jump to
/// the label right after it goes too, and each jump to a label becomes a
/// jump to the label's index; each pushed value records its type. See
/// `postprocesirano`.
pub fn postprocesiraj(ukazi: &Vec<UkazPodatekRelative>) -> (r: (Vec<UkazPodatek>, Vec<Tip>))
    requires
        ukazi@.len() <= i32::MAX,
        postprocesirano(pogledi_ukazov(ukazi@)) is Some,
    ensures
        postprocesirano(pogledi_ukazov(ukazi@)) == Some((r.0@, pogledi_tipov(r.1@))),
{
    let ghost v = pogledi_ukazov(ukazi@);
    let mut u: Vec<UkazPodatekRelative> = Vec::new();
    let mut o: Vec<(String, i32)> = Vec::new();
    let mut j: usize = 0;
    while j < ukazi.len()
        invariant
            0 <= j <= ukazi@.len(),
            ukazi@.len() <= i32::MAX,
            v == pogledi_ukazov(ukazi@),
            v.len() == ukazi@.len(),
            u@.len() <= j,
            pogledi_ukazov(u@) == oznake_do(v, j as int).0,
            pogledi_oznak(o@) == oznake_do(v, j as int).1,
        decreases ukazi@.len() - j,
    {
        assert(v[j as int] == ukazi@[j as int]@);
        let ghost u0 = pogledi_ukazov(u@);
        let ghost o0 = pogledi_oznak(o@);
        match &ukazi[j] {
            UkazPodatekRelative::Oznaka(l) => {
                let mesto = u.len() as i32;
                o.push((l.clone(), mesto));
                assert(pogledi_oznak(o@) =~= o0.push((l@, u0.len() as int)));
            },
            UkazPodatekRelative::JUMPRel(l) => {
                let preskoci = if j + 1 < ukazi.len() {
                    assert(v[j + 1] == ukazi@[j + 1]@);
                    je_oznaka(&ukazi[j + 1], l)
                } else {
                    false
                };
                if !preskoci {
                    let kopija = ukazi[j].kopija();
                    let ghost kv = kopija@;
                    u.push(kopija);
                    assert(pogledi_ukazov(u@) =~= u0.push(kv));
                }
            },
            _ => {
                let kopija = ukazi[j].kopija();
                let ghost kv = kopija@;
                u.push(kopija);
                assert(pogledi_ukazov(u@) =~= u0.push(kv));
            },
        }
        j = j + 1;
    }
    let ghost uz = pogledi_ukazov(u@);
    let ghost oz = pogledi_oznak(o@);
    proof {
        lema_oznake_do(v, v.len() as int);
    }
    let mut p: Vec<UkazPodatek> = Vec::new();
    let mut t: Vec<Tip> = Vec::new();
    let mut k: usize = 0;
    assert(pogledi_tipov(t@) =~= Seq::<TipV>::empty());
    while k < u.len()
        invariant
            0 <= k <= u@.len(),
            u@.len() <= i32::MAX,
            uz == pogledi_ukazov(u@),
            oz == pogledi_oznak(o@),
            (uz, oz) == oznake_do(v, v.len() as int),
            program_do(uz, oz, uz.len() as int) is Some,
            program_do(uz, oz, k as int) == Some((p@, pogledi_tipov(t@))),
        decreases u@.len() - k,
    {
        assert(uz[k as int] == u@[k as int]@);
        proof {
            lema_program_uspe(uz, oz, k as int + 1, uz.len() as int);
        }
        let (ukaz, tip) = ukaz_iz_exec(&u[k], k, &o);
        let ghost t0 = pogledi_tipov(t@);
        p.push(ukaz);
        match tip {
            Some(tt) => {
                let ghost tv = tt@;
                t.push(tt);
                assert(pogledi_tipov(t@) =~= t0.push(tv));
            },
            None => {},
        }
        k = k + 1;
    }
    (p, t)
}

/// When the whole program succeeds, so does every prefix of it.
proof fn lema_program_uspe(u: Seq<UkazRelV>, o: Seq<(Seq<char>, int)>, k: int, n: int)
    requires
        1 <= k <= n <= u.len(),
        program_do(u, o, n) is Some,
    ensures
        program_do(u, o, k) is Some,
        ukaz_iz(u[k - 1], k - 1, o) is Some,
    decreases n - k,
{
    if k < n {
        lema_program_uspe(u, o, k + 1, n);
    }
}

/// Whether the instruction is a machine jump or push written directly, not
/// through a label or a value.
pub open spec fn neposreden(u: UkazRelV) -> bool {
    u matches UkazRelV::Osnovni(x) && (x is JUMP || x is JMPC || x is PUSH)
}

/// The number of `PUSH` instructions.
pub open spec fn st_pushov(p: Seq<UkazPodatek>) -> nat
    decreases p.len(),
{
    if p.len() == 0 {
        0
    } else {
        st_pushov(p.drop_last()) + if p.last() is PUSH {
            1nat
        } else {
            0nat
        }
    }
}

/// Whether every jump of the program lands on one of its instructions or
/// just past the last one.
pub open spec fn skoki_v_programu(p: Seq<UkazPodatek>, dolzina: int) -> bool {
    forall|k: int|
        0 <= k < p.len() ==> match #[trigger] p[k] {
            UkazPodatek::JUMP(n) => 0 <= n <= dolzina,
            UkazPodatek::JMPC(n) => 0 <= n <= dolzina,
            _ => true,
        }
}

proof fn lema_kept_brez_neposrednih(v: Seq<UkazRelV>, k: int)
    requires
        0 <= k <= v.len(),
        forall|j: int| 0 <= j < v.len() ==> !neposreden(#[trigger] v[j]),
    ensures
        forall|i: int| 0 <= i < oznake_do(v, k).0.len() ==> !neposreden(#[trigger] oznake_do(v, k).0[i]),
    decreases k,
{
    if k > 0 {
        lema_kept_brez_neposrednih(v, k - 1);
        let (u0, o0) = oznake_do(v, k - 1);
        let u = oznake_do(v, k).0;
        assert(!neposreden(v[k - 1]));
        assert forall|i: int| 0 <= i < u.len() implies !neposreden(#[trigger] u[i]) by {
            if i < u0.len() {
                assert(u[i] == u0[i]);
            } else {
                assert(u[i] == v[k - 1]);
            }
        }
    }
}

proof fn lema_najdi_oznako(o: Seq<(Seq<char>, int)>, ime: Seq<char>, meja: int)
    requires
        forall|m: int| 0 <= m < o.len() ==> 0 <= (#[trigger] o[m]).1 <= meja,
    ensures
        najdi_oznako(o, ime) matches Some(n) ==> 0 <= n <= meja,
    decreases o.len(),
{
    if o.len() > 0 {
        lema_najdi_oznako(o.drop_last(), ime, meja);
    }
}

proof fn lema_program_do(u: Seq<UkazRelV>, o: Seq<(Seq<char>, int)>, k: int)
    requires
        0 <= k <= u.len(),
        u.len() <= i32::MAX,
        forall|i: int| 0 <= i < u.len() ==> !neposreden(#[trigger] u[i]),
        forall|m: int| 0 <= m < o.len() ==> 0 <= (#[trigger] o[m]).1 <= u.len(),
    ensures
        program_do(u, o, k) matches Some((p, t)) ==> p.len() == k && t.len() == st_pushov(p) && skoki_v_programu(
            p,
            u.len() as int,
        ),
    decreases k,
{
    if k > 0 {
        lema_program_do(u, o, k - 1);
        let x = u[k - 1];
        assert(!neposreden(x));
        match x {
            UkazRelV::JUMPRel(l) | UkazRelV::CALL(l) | UkazRelV::JMPCRel(l) => lema_najdi_oznako(o, l, u.len() as int),
            _ => {},
        }
        if let Some((p, t)) = program_do(u, o, k) {
            let (p0, t0) = program_do(u, o, k - 1).unwrap();
            assert(p.drop_last() =~= p0);
            assert forall|j: int| 0 <= j < p.len() implies match #[trigger] p[j] {
                UkazPodatek::JUMP(n) => 0 <= n <= u.len(),
                UkazPodatek::JMPC(n) => 0 <= n <= u.len(),
                _ => true,
            } by {
                if j < k - 1 {
                    assert(p[j] == p0[j]);
                }
            }
        }
    }
}

/// For intermediate code that writes no machine jump or push directly, the
/// program it gives has one type for each `PUSH`, in order, and every jump
/// lands on an instruction of the program or just past its end.
pub proof fn zakon_program_iz_vmesne_kode(v: Seq<UkazRelV>)
    requires
        v.len() <= i32::MAX,
        forall|j: int| 0 <= j < v.len() ==> !neposreden(#[trigger] v[j]),
    ensures
        postprocesirano(v) matches Some((p, t)) ==> t.len() == st_pushov(p) && skoki_v_programu(p, p.len() as int),
{
    let (u, o) = oznake_do(v, v.len() as int);
    lema_oznake_do(v, v.len() as int);
    lema_kept_brez_neposrednih(v, v.len() as int);
    lema_program_do(u, o, u.len() as int);
}

} // verus!
