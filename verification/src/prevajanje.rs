//! Compiling the syntax tree to the intermediate code.
//!
//! Branches and loops get labels numbered by a counter that runs through
//! the whole compilation: each branch and each loop takes the counter's
//! value and moves it on by one. A function is compiled only where it is
//! called; the caller names the functions that are.

use crate::besedilo::{desetisko, dodaj_desetisko, enaka, znaki};
use crate::program::{Podatek, UkazPodatek};
use crate::tip::TipV;
use crate::vmesna_koda::{pogledi_ukazov, UkazPodatekRelative, UkazRelV};
use crate::vozlisce::{celice_tipa, sestej, sprememba, sprememba_vseh, tip_vozlisca, Vozlisce};
use std::rc::Rc;
use vstd::prelude::*;

verus! {

/// The counter after the code, or zero where there is none.
pub open spec fn stevec(a: Option<(Seq<UkazRelV>, u64)>) -> u64 {
    match a {
        Some((_, m)) => m,
        None => 0,
    }
}

/// The code `a` followed by the code `b`, which was compiled from the
/// counter after `a`; the counter after `b`.
pub open spec fn nadaljuj(a: Option<(Seq<UkazRelV>, u64)>, b: Option<(Seq<UkazRelV>, u64)>) -> Option<(Seq<UkazRelV>, u64)> {
    match (a, b) {
        (Some((x, _)), Some((y, m))) => Some((x + y, m)),
        _ => None,
    }
}

/// Instructions before and after the code.
pub open spec fn obdaj(pred: Seq<UkazRelV>, a: Option<(Seq<UkazRelV>, u64)>, za: Seq<UkazRelV>) -> Option<(Seq<UkazRelV>, u64)> {
    match a {
        Some((x, m)) => Some((pred + x + za, m)),
        None => None,
    }
}

/// A basic instruction.
pub open spec fn osn(u: UkazPodatek) -> UkazRelV {
    UkazRelV::Osnovni(u)
}

/// The code that reserves `k` cells: none for zero, `None` for fewer.
pub open spec fn rezerviraj(k: i32) -> Option<Seq<UkazRelV>> {
    if k > 0 {
        Some(seq![osn(UkazPodatek::ALOC(k))])
    } else if k == 0 {
        Some(Seq::empty())
    } else {
        None
    }
}

/// The code that frees `k` cells: none for zero or fewer.
pub open spec fn sprosti(k: i32) -> Seq<UkazRelV> {
    if k > 0 {
        seq![osn(UkazPodatek::ALOC((-k) as i32))]
    } else {
        Seq::empty()
    }
}

/// A label: its prefix and the number.
pub open spec fn oznaka_st(predpona: Seq<char>, k: u64) -> Seq<char> {
    predpona + desetisko(k as nat)
}

/// A label of a function: its prefix and the function's name.
pub open spec fn oznaka_funkcije(predpona: Seq<char>, ime: Seq<char>) -> Seq<char> {
    predpona + ime
}

/// The store into the cell `naslov + k`.
pub open spec fn shranjevanje(naslov: i32, z_odmikom: bool, k: int) -> UkazRelV {
    if z_odmikom {
        osn(UkazPodatek::STOF((naslov + k) as i32))
    } else {
        osn(UkazPodatek::STOR((naslov + k) as i32))
    }
}

/// The push of the `k`-th character of `s` from its end.
pub open spec fn znak_od_zadaj(s: Seq<char>, k: int) -> UkazRelV {
    UkazRelV::PUSHC(s[s.len() - 1 - k])
}

/// The instructions that store a value of `velikost` cells from the stack
/// into the cells from `naslov` on (relative to the frame where `z_odmikom`);
/// `None` where the end address leaves `i32`.
pub open spec fn shrani(naslov: i32, velikost: i32, z_odmikom: bool) -> Option<Seq<UkazRelV>> {
    if i32::MIN <= naslov + velikost <= i32::MAX {
        Some(
            Seq::new(
                if velikost > 0 {
                    velikost as nat
                } else {
                    0
                },
                |k: int| shranjevanje(naslov, z_odmikom, k),
            ),
        )
    } else {
        None
    }
}

/// The basic instruction of an operation on whole or on real numbers.
pub open spec fn aritmeticni(v: Vozlisce) -> Option<UkazPodatek> {
    match v {
        Vozlisce::Add(t, ..) => if t@ == TipV::Celo {
            Some(UkazPodatek::ADDI)
        } else if t@ == TipV::Real {
            Some(UkazPodatek::ADDF)
        } else {
            None
        },
        Vozlisce::Sub(t, ..) => if t@ == TipV::Celo {
            Some(UkazPodatek::SUBI)
        } else if t@ == TipV::Real {
            Some(UkazPodatek::SUBF)
        } else {
            None
        },
        Vozlisce::Mul(t, ..) => if t@ == TipV::Celo {
            Some(UkazPodatek::MULI)
        } else if t@ == TipV::Real {
            Some(UkazPodatek::MULF)
        } else {
            None
        },
        Vozlisce::Div(t, ..) => if t@ == TipV::Celo {
            Some(UkazPodatek::DIVI)
        } else if t@ == TipV::Real {
            Some(UkazPodatek::DIVF)
        } else {
            None
        },
        Vozlisce::Mod(t, ..) => if t@ == TipV::Celo {
            Some(UkazPodatek::MODI)
        } else if t@ == TipV::Real {
            Some(UkazPodatek::MODF)
        } else {
            None
        },
        Vozlisce::Pow(t, ..) => if t@ == TipV::Celo {
            Some(UkazPodatek::POWI)
        } else if t@ == TipV::Real {
            Some(UkazPodatek::POWF)
        } else {
            None
        },
        _ => None,
    }
}

/// The subtraction of a comparison of values of the type.
pub open spec fn odstevanje(t: TipV) -> Option<UkazPodatek> {
    if t == TipV::Celo {
        Some(UkazPodatek::SUBI)
    } else if t == TipV::Real {
        Some(UkazPodatek::SUBF)
    } else {
        None
    }
}

/// The basic instruction of a bitwise or logical operation on two operands.
pub open spec fn bitni(v: Vozlisce) -> Seq<UkazPodatek> {
    match v {
        Vozlisce::BitniAli(..) => seq![UkazPodatek::BOR],
        Vozlisce::BitniXor(..) => seq![UkazPodatek::BXOR],
        Vozlisce::BitniIn(..) => seq![UkazPodatek::BAND],
        Vozlisce::BitniPremikLevo(..) => seq![UkazPodatek::BSLL],
        Vozlisce::BitniPremikDesno(..) => seq![UkazPodatek::BSLR],
        Vozlisce::Konjunkcija(..) => seq![UkazPodatek::MULI],
        Vozlisce::Disjunkcija(..) => seq![UkazPodatek::ADDI, UkazPodatek::POS],
        _ => Seq::empty(),
    }
}

/// Basic instructions as instructions of the intermediate code.
pub open spec fn osnovni(s: Seq<UkazPodatek>) -> Seq<UkazRelV> {
    s.map_values(|u: UkazPodatek| osn(u))
}

/// How many instructions of the code stay once labels are taken out: all
/// but the labels, where a label `vrni` counts, for it becomes a jump.
pub open spec fn dolzina_kode(c: Seq<UkazRelV>) -> nat
    decreases c.len(),
{
    if c.len() == 0 {
        0
    } else {
        dolzina_kode(c.drop_last()) + match c.last() {
            UkazRelV::Oznaka(l) => if l == "vrni"@ {
                1nat
            } else {
                0nat
            },
            _ => 1nat,
        }
    }
}

/// The code of a comparison: the instructions `pred`, the code `a` of the
/// left operand and `b` of the right one, the subtraction for values of the
/// type, and the instructions `za`.
pub open spec fn primerjava(
    t: TipV,
    a: Option<(Seq<UkazRelV>, u64)>,
    b: Option<(Seq<UkazRelV>, u64)>,
    pred: Seq<UkazRelV>,
    za: Seq<UkazRelV>,
) -> Option<(Seq<UkazRelV>, u64)> {
    match odstevanje(t) {
        Some(u) => obdaj(pred, nadaljuj(a, b), seq![osn(u)] + za),
        None => None,
    }
}

/// The names of the called functions.
pub open spec fn imena(kl: Seq<String>) -> Seq<Seq<char>> {
    kl.map_values(|s: String| s@)
}

/// The code of a node compiled from the label counter `n`, with the names
/// `kl` of the functions that are called, and the counter after it. Values
/// are pushed; a variable is loaded; a reference pushes the address (one
/// further for an array) and adds the frame's offset where the variable is
/// relative to it; an operation is its operands and its instruction (a
/// comparison the subtraction and `ZERO` or `POS`, negated by `1 - x`); a
/// branch is the condition with a jump to `8resnica_k`, the else part, a
/// jump to `8konec_k`, the label `8resnica_k`, the then part and the label
/// `8konec_k`, for `k` the counter; a loop is the label `8zanka_k`, the
/// negated condition with a jump to `8konec_k`, the body, a jump back and
/// the label; an assignment is the value and the stores into the
/// variable's cells; a function that is called is jumped over, and is its
/// label, the set-up of its frame, its body, the label of its end and the
/// tear-down of its frame; a call reserves the result, pushes where to come
/// back, the arguments, and jumps. `None` where the original has no code:
/// a reference to what is no variable, a length of what is no array or
/// reference to one, an operation of another type, a negative count of
/// cells, a call of what is no function, a count that leaves `i32`, or a
/// counter that would leave `u64`.
pub open spec fn prevedeno(v: Vozlisce, n: u64, kl: Seq<Seq<char>>) -> Option<(Seq<UkazRelV>, u64)>
    decreases v, 0int,
{
    match v {
        Vozlisce::Prazno => Some((Seq::empty(), n)),
        Vozlisce::Push(k) => match rezerviraj(k) {
            Some(c) => Some((c, n)),
            None => None,
        },
        Vozlisce::Pop(k) => Some((sprosti(k), n)),
        Vozlisce::Vrh(o) => Some((seq![osn(UkazPodatek::TOP(o))], n)),
        Vozlisce::ShraniOdmik => Some((seq![osn(UkazPodatek::SOFF)], n)),
        Vozlisce::NaloziOdmik => Some((seq![osn(UkazPodatek::LOFF)], n)),
        Vozlisce::Znak(c) => Some((seq![UkazRelV::PUSHC(c)], n)),
        Vozlisce::Niz(s) => Some((
            Seq::new(s@.len(), |k: int| znak_od_zadaj(s@, k)).push(
                UkazRelV::PUSHI(s@.len() as i32),
            ),
            n,
        )),
        Vozlisce::Celo(x) => Some((seq![UkazRelV::PUSHI(x)], n)),
        Vozlisce::Real(b) => Some((seq![UkazRelV::PUSHF(Podatek { i: b as i32 })], n)),
        Vozlisce::Resnica => Some((seq![UkazRelV::PUSHI(1)], n)),
        Vozlisce::Laz => Some((seq![UkazRelV::PUSHI(0)], n)),
        Vozlisce::Spremenljivka { naslov, z_odmikom, .. } => Some((
            seq![
                osn(
                    if z_odmikom {
                        UkazPodatek::LDOF(naslov)
                    } else {
                        UkazPodatek::LOAD(naslov)
                    },
                ),
            ],
            n,
        )),
        Vozlisce::Referenca(x) | Vozlisce::RefSeznama(x) => match *x {
            Vozlisce::Spremenljivka { tip, naslov, z_odmikom, .. } => {
                let naslov_v = if tip@ is Seznam {
                    naslov + 1
                } else {
                    naslov as int
                };
                if naslov_v <= i32::MAX {
                    Some((
                        seq![UkazRelV::PUSHI(naslov_v as i32)] + if z_odmikom {
                            seq![osn(UkazPodatek::LOFF), osn(UkazPodatek::ADDI)]
                        } else {
                            Seq::empty()
                        },
                        n,
                    ))
                } else {
                    None
                }
            },
            _ => None,
        },
        Vozlisce::Dereferenciraj(x) => obdaj(Seq::empty(), prevedeno(*x, n, kl), seq![osn(UkazPodatek::LDDY(0))]),
        Vozlisce::Indeksiraj { seznam_ref, indeks } => {
            let a = prevedeno(*seznam_ref, n, kl);
            obdaj(
                Seq::empty(),
                nadaljuj(a, prevedeno(*indeks, stevec(a), kl)),
                seq![osn(UkazPodatek::ADDI), osn(UkazPodatek::LDDY(0))],
            )
        },
        Vozlisce::Dolzina(x) => match tip_vozlisca(*x) {
            Some(TipV::Seznam(_, d)) => Some((seq![UkazRelV::PUSHI(d as i32)], n)),
            Some(TipV::RefSeznama(_)) => obdaj(Seq::empty(), prevedeno(*x, n, kl), seq![osn(UkazPodatek::LDDY(-1i32))]),
            _ => None,
        },
        Vozlisce::Add(_, l, d) | Vozlisce::Sub(_, l, d) | Vozlisce::Mul(_, l, d) | Vozlisce::Div(_, l, d)
        | Vozlisce::Mod(_, l, d) | Vozlisce::Pow(_, l, d) => match aritmeticni(v) {
            Some(u) => {
                let a = prevedeno(*l, n, kl);
                obdaj(Seq::empty(), nadaljuj(a, prevedeno(*d, stevec(a), kl)), seq![osn(u)])
            },
            None => None,
        },
        Vozlisce::Konjunkcija(l, d) | Vozlisce::Disjunkcija(l, d) | Vozlisce::BitniAli(l, d)
        | Vozlisce::BitniXor(l, d) | Vozlisce::BitniIn(l, d) | Vozlisce::BitniPremikLevo(l, d)
        | Vozlisce::BitniPremikDesno(l, d) => {
            let a = prevedeno(*l, n, kl);
            obdaj(Seq::empty(), nadaljuj(a, prevedeno(*d, stevec(a), kl)), osnovni(bitni(v)))
        },
        Vozlisce::CeloVReal(x) => obdaj(Seq::empty(), prevedeno(*x, n, kl), seq![osn(UkazPodatek::ITOF)]),
        Vozlisce::RealVCelo(x) => obdaj(Seq::empty(), prevedeno(*x, n, kl), seq![osn(UkazPodatek::FTOI)]),
        Vozlisce::CeloVZnak(x) | Vozlisce::ZnakVCelo(x) => prevedeno(*x, n, kl),
        Vozlisce::Zanikaj(x) => obdaj(seq![UkazRelV::PUSHI(1)], prevedeno(*x, n, kl), seq![osn(UkazPodatek::SUBI)]),
        Vozlisce::Enako(t, l, d) => {
            let a = prevedeno(*l, n, kl);
            primerjava(t@, a, prevedeno(*d, stevec(a), kl), Seq::empty(), seq![osn(UkazPodatek::ZERO)])
        },
        Vozlisce::NiEnako(t, l, d) => {
            let a = prevedeno(*l, n, kl);
            primerjava(
                t@,
                a,
                prevedeno(*d, stevec(a), kl),
                seq![UkazRelV::PUSHI(1)],
                seq![osn(UkazPodatek::ZERO), osn(UkazPodatek::SUBI)],
            )
        },
        Vozlisce::Vecje(t, l, d) => {
            let a = prevedeno(*l, n, kl);
            primerjava(t@, a, prevedeno(*d, stevec(a), kl), Seq::empty(), seq![osn(UkazPodatek::POS)])
        },
        Vozlisce::Manjse(t, l, d) => {
            let a = prevedeno(*d, n, kl);
            primerjava(t@, a, prevedeno(*l, stevec(a), kl), Seq::empty(), seq![osn(UkazPodatek::POS)])
        },
        Vozlisce::VecjeEnako(t, l, d) => {
            let a = prevedeno(*d, n, kl);
            primerjava(
                t@,
                a,
                prevedeno(*l, stevec(a), kl),
                seq![UkazRelV::PUSHI(1)],
                seq![osn(UkazPodatek::POS), osn(UkazPodatek::SUBI)],
            )
        },
        Vozlisce::ManjseEnako(t, l, d) => {
            let a = prevedeno(*l, n, kl);
            primerjava(
                t@,
                a,
                prevedeno(*d, stevec(a), kl),
                seq![UkazRelV::PUSHI(1)],
                seq![osn(UkazPodatek::POS), osn(UkazPodatek::SUBI)],
            )
        },
        Vozlisce::ProgramskiStevec(o) => Some((seq![UkazRelV::PC(o)], n)),
        Vozlisce::Skok(o) => Some((seq![UkazRelV::JUMPRel(o@)], n)),
        Vozlisce::Klic(o) => Some((seq![UkazRelV::CALL(o@)], n)),
        Vozlisce::DinamicniSkok => Some((seq![osn(UkazPodatek::JMPD)], n)),
        Vozlisce::PogojniSkok(p, o) => obdaj(Seq::empty(), prevedeno(*p, n, kl), seq![UkazRelV::JMPCRel(o@)]),
        Vozlisce::PogojniStavek { pogoj, resnica, laz } => if n < u64::MAX {
            let r = oznaka_st("8resnica_"@, n);
            let k = oznaka_st("8konec_"@, n);
            let a = obdaj(Seq::empty(), prevedeno(*pogoj, (n + 1) as u64, kl), seq![UkazRelV::JMPCRel(r)]);
            let b = obdaj(Seq::empty(), prevedeno(*laz, stevec(a), kl), seq![UkazRelV::JUMPRel(k), UkazRelV::Oznaka(r)]);
            let ab = nadaljuj(a, b);
            obdaj(Seq::empty(), nadaljuj(ab, prevedeno(*resnica, stevec(ab), kl)), seq![UkazRelV::Oznaka(k)])
        } else {
            None
        },
        Vozlisce::Zanka { pogoj, telo } => if n < u64::MAX {
            let z = oznaka_st("8zanka_"@, n);
            let k = oznaka_st("8konec_"@, n);
            let a = obdaj(
                seq![UkazRelV::Oznaka(z), UkazRelV::PUSHI(1)],
                prevedeno(*pogoj, (n + 1) as u64, kl),
                seq![osn(UkazPodatek::SUBI), UkazRelV::JMPCRel(k)],
            );
            obdaj(Seq::empty(), nadaljuj(a, prevedeno(*telo, stevec(a), kl)), seq![UkazRelV::JUMPRel(z), UkazRelV::Oznaka(k)])
        } else {
            None
        },
        Vozlisce::Prirejanje { spremenljivka, izraz } => match *spremenljivka {
            Vozlisce::Spremenljivka { naslov, z_odmikom, .. } => match tip_vozlisca(*izraz) {
                Some(t) => match celice_tipa(t) {
                    Some(velikost) => match shrani(naslov, velikost, z_odmikom) {
                        Some(s) => obdaj(Seq::empty(), prevedeno(*izraz, n, kl), s),
                        None => None,
                    },
                    None => None,
                },
                None => None,
            },
            _ => None,
        },
        Vozlisce::PrirejanjeRef { referenca, indeks, izraz } => {
            let a = prevedeno(*referenca, n, kl);
            let ai = match indeks {
                Some(i) => obdaj(Seq::empty(), nadaljuj(a, prevedeno(*i, stevec(a), kl)), seq![osn(UkazPodatek::ADDI)]),
                None => a,
            };
            let shr = obdaj(Seq::empty(), ai, seq![osn(UkazPodatek::STDY(0))]);
            match (shr, prevedeno(*izraz, stevec(shr), kl)) {
                (Some((s, _)), Some((x, m))) => Some((x + s, m)),
                _ => None,
            }
        },
        Vozlisce::Vrni(p) => obdaj(Seq::empty(), prevedeno(*p, n, kl), seq![UkazRelV::Oznaka("vrni"@)]),
        Vozlisce::Zaporedje(vs) => prevedeno_vseh(vs@, vs@.len() as int, n, kl),
        Vozlisce::Okvir { zaporedje, st_spr } => match rezerviraj(st_spr) {
            Some(c) => obdaj(c, prevedeno(*zaporedje, n, kl), sprosti(st_spr)),
            None => None,
        },
        Vozlisce::Funkcija { tip, ime, parametri, telo, prostor } => if !kl.contains(ime@) {
            Some((Seq::empty(), n))
        } else {
            match (celice_tipa(tip@), sprememba_vseh(parametri@, parametri@.len() as int), rezerviraj(prostor)) {
                (Some(ts), Some(pv), Some(rez)) => {
                    let vrh = -ts - 1 - pv - 1;
                    if -ts <= i32::MAX && i32::MIN <= -ts - 1 && i32::MIN <= -ts - 1 - pv <= i32::MAX
                        && i32::MIN <= vrh {
                        let pred = seq![
                            UkazRelV::JUMPRel(oznaka_funkcije("8preskoci_funkcijo_"@, ime@)),
                            UkazRelV::Oznaka(oznaka_funkcije("8funkcija_"@, ime@)),
                            osn(UkazPodatek::LOFF),
                            osn(UkazPodatek::TOP(vrh as i32)),
                        ] + rez;
                        let za = seq![UkazRelV::Oznaka(oznaka_funkcije("8konec_funkcije_"@, ime@))] + sprosti(prostor)
                            + seq![osn(UkazPodatek::SOFF)] + sprosti(pv) + seq![
                            osn(UkazPodatek::JMPD),
                            UkazRelV::Oznaka(oznaka_funkcije("8preskoci_funkcijo_"@, ime@)),
                        ];
                        obdaj(pred, prevedeno(*telo, n, kl), za)
                    } else {
                        None
                    }
                },
                _ => None,
            }
        },
        Vozlisce::FunkcijskiKlic { funkcija, spremenljivke, argumenti } => match *funkcija {
            Vozlisce::Funkcija { tip, ime, .. } => match celice_tipa(tip@) {
                Some(ts) => match rezerviraj(ts) {
                    Some(rez) => {
                        let dolz = prevedeno(*argumenti, n, kl);
                        match dolz {
                            Some((c, n1)) => if dolzina_kode(c) + 2 <= i32::MAX {
                                let pc = UkazRelV::PC((1 + dolzina_kode(c) + 1) as i32);
                                let s = prevedeno(*spremenljivke, n1, kl);
                                let sa = nadaljuj(
                                    obdaj(Seq::empty(), s, rez.push(pc)),
                                    prevedeno(*argumenti, stevec(s), kl),
                                );
                                obdaj(Seq::empty(), sa, seq![UkazRelV::JUMPRel(oznaka_funkcije("8funkcija_"@, ime@))])
                            } else {
                                None
                            },
                            None => None,
                        }
                    },
                    None => None,
                },
                None => None,
            },
            _ => None,
        },
        Vozlisce::Natisni(x) => obdaj(Seq::empty(), prevedeno(*x, n, kl), seq![osn(UkazPodatek::PUTC)]),
        Vozlisce::Preberi => Some((seq![osn(UkazPodatek::GETC)], n)),
        Vozlisce::Splakni => Some((seq![osn(UkazPodatek::FLUSH)], n)),
    }
}

/// The code of the first `k` nodes, one after the other, with the counter
/// running through them.
pub open spec fn prevedeno_vseh(s: Seq<Rc<Vozlisce>>, k: int, n: u64, kl: Seq<Seq<char>>) -> Option<(Seq<UkazRelV>, u64)>
    decreases s, k,
{
    if k <= 0 || k > s.len() {
        Some((Seq::empty(), n))
    } else {
        let a = prevedeno_vseh(s, k - 1, n, kl);
        nadaljuj(a, prevedeno(*s[k - 1], stevec(a), kl))
    }
}

/// Once the code of a prefix of the nodes is missing, so is that of every
/// longer prefix.
proof fn lema_vseh_none(s: Seq<Rc<Vozlisce>>, k: int, m: int, n: u64, kl: Seq<Seq<char>>)
    requires
        0 < k <= m <= s.len(),
        prevedeno_vseh(s, k, n, kl) is None,
    ensures
        prevedeno_vseh(s, m, n, kl) is None,
    decreases m - k,
{
    if k < m {
        lema_vseh_none(s, k, m - 1, n, kl);
    }
}

/// The values of two pieces of code one after the other.
proof fn lema_pogledi_spoji(a: Seq<UkazPodatekRelative>, b: Seq<UkazPodatekRelative>)
    ensures
        pogledi_ukazov(a + b) == pogledi_ukazov(a) + pogledi_ukazov(b),
{
    assert(pogledi_ukazov(a + b) =~= pogledi_ukazov(a) + pogledi_ukazov(b));
}

/// Appends the code `b` to `a`.
fn pripni(a: &mut Vec<UkazPodatekRelative>, b: Vec<UkazPodatekRelative>)
    ensures
        pogledi_ukazov(final(a)@) == pogledi_ukazov(old(a)@) + pogledi_ukazov(b@),
{
    let mut b = b;
    let ghost bv = b@;
    a.append(&mut b);
    proof {
        lema_pogledi_spoji(old(a)@, bv);
    }
}

/// Appends one instruction to the code.
fn dodaj(a: &mut Vec<UkazPodatekRelative>, u: UkazPodatekRelative)
    ensures
        pogledi_ukazov(final(a)@) == pogledi_ukazov(old(a)@).push(u@),
{
    let ghost uv = u@;
    a.push(u);
    assert(pogledi_ukazov(a@) =~= pogledi_ukazov(old(a)@).push(uv));
}

/// The instructions `pred`, the code `a` where it is there, and `za`.
fn obdaj_o(pred: Vec<UkazPodatekRelative>, a: Option<Vec<UkazPodatekRelative>>, za: Vec<UkazPodatekRelative>) -> (r: Option<Vec<UkazPodatekRelative>>)
    ensures
        match a {
            Some(x) => r matches Some(y) && pogledi_ukazov(y@) == pogledi_ukazov(pred@) + pogledi_ukazov(x@) + pogledi_ukazov(za@),
            None => r is None,
        },
{
    match a {
        Some(x) => {
            let mut y = pred;
            pripni(&mut y, x);
            pripni(&mut y, za);
            Some(y)
        },
        None => None,
    }
}

/// Code of one basic instruction.
fn en_osnovni(u: UkazPodatek) -> (r: Vec<UkazPodatekRelative>)
    ensures
        pogledi_ukazov(r@) == seq![osn(u)],
{
    let r = vec![UkazPodatekRelative::Osnovni(u)];
    assert(pogledi_ukazov(r@) =~= seq![osn(u)]);
    r
}

/// Code of two basic instructions.
fn dva_osnovna(u: UkazPodatek, w: UkazPodatek) -> (r: Vec<UkazPodatekRelative>)
    ensures
        pogledi_ukazov(r@) == seq![osn(u), osn(w)],
{
    let r = vec![UkazPodatekRelative::Osnovni(u), UkazPodatekRelative::Osnovni(w)];
    assert(pogledi_ukazov(r@) =~= seq![osn(u), osn(w)]);
    r
}

/// Code of one instruction.
fn en_ukaz(u: UkazPodatekRelative) -> (r: Vec<UkazPodatekRelative>)
    ensures
        pogledi_ukazov(r@) == seq![u@],
{
    let ghost uv = u@;
    let r = vec![u];
    assert(pogledi_ukazov(r@) =~= seq![uv]);
    r
}

/// No code.
fn prazna() -> (r: Vec<UkazPodatekRelative>)
    ensures
        pogledi_ukazov(r@) == Seq::<UkazRelV>::empty(),
{
    let r: Vec<UkazPodatekRelative> = Vec::new();
    assert(pogledi_ukazov(r@) =~= Seq::<UkazRelV>::empty());
    r
}

/// The code that reserves `k` cells (see `rezerviraj`).
fn rezerviraj_o(k: i32) -> (r: Option<Vec<UkazPodatekRelative>>)
    ensures
        match rezerviraj(k) {
            Some(c) => r matches Some(x) && pogledi_ukazov(x@) == c,
            None => r is None,
        },
{
    if k > 0 {
        Some(en_osnovni(UkazPodatek::ALOC(k)))
    } else if k == 0 {
        Some(prazna())
    } else {
        None
    }
}

/// The code that frees `k` cells (see `sprosti`).
fn sprosti_o(k: i32) -> (r: Vec<UkazPodatekRelative>)
    ensures
        pogledi_ukazov(r@) == sprosti(k),
{
    if k > 0 {
        en_osnovni(UkazPodatek::ALOC(-k))
    } else {
        prazna()
    }
}

/// A string that holds the characters of `x`.
fn besedilo(x: &str) -> (r: String)
    ensures
        r@ == x@,
{
    let mut s = String::new();
    s.append(x);
    s
}

/// A numbered label (see `oznaka_st`).
fn oznaka_st_o(predpona: &str, k: u64) -> (r: String)
    ensures
        r@ == oznaka_st(predpona@, k),
{
    let mut s = besedilo(predpona);
    dodaj_desetisko(&mut s, k);
    s
}

/// A label of a function (see `oznaka_funkcije`).
fn oznaka_funkcije_o(predpona: &str, ime: &str) -> (r: String)
    ensures
        r@ == oznaka_funkcije(predpona@, ime@),
{
    let mut s = besedilo(predpona);
    s.append(ime);
    s
}

/// The stores of a value (see `shrani`).
fn shrani_o(naslov: i32, velikost: i32, z_odmikom: bool) -> (r: Option<Vec<UkazPodatekRelative>>)
    ensures
        match shrani(naslov, velikost, z_odmikom) {
            Some(c) => r matches Some(x) && pogledi_ukazov(x@) == c,
            None => r is None,
        },
{
    if naslov.checked_add(velikost).is_none() {
        return None;
    }
    let mut r: Vec<UkazPodatekRelative> = Vec::new();
    let mut k: i32 = 0;
    let ghost dolzina: nat = if velikost > 0 {
        velikost as nat
    } else {
        0
    };
    assert(pogledi_ukazov(r@) =~= Seq::new(0, |j: int| shranjevanje(naslov, z_odmikom, j)));
    while k < velikost
        invariant
            0 <= k,
            velikost > 0 ==> k <= velikost,
            velikost <= 0 ==> k == 0,
            i32::MIN <= naslov + velikost <= i32::MAX,
            pogledi_ukazov(r@) == Seq::new(k as nat, |j: int| shranjevanje(naslov, z_odmikom, j)),
        decreases velikost - k,
    {
        let a = naslov + k;
        let u = if z_odmikom {
            UkazPodatekRelative::Osnovni(UkazPodatek::STOF(a))
        } else {
            UkazPodatekRelative::Osnovni(UkazPodatek::STOR(a))
        };
        assert(u@ == shranjevanje(naslov, z_odmikom, k as int));
        dodaj(&mut r, u);
        assert(pogledi_ukazov(r@) =~= Seq::new((k + 1) as nat, |j: int| shranjevanje(naslov, z_odmikom, j)));
        k = k + 1;
    }
    if velikost > 0 {
        assert(k == velikost);
    } else {
        assert(k == 0);
    }
    assert(Seq::new(k as nat, |j: int| shranjevanje(naslov, z_odmikom, j)) =~= Seq::new(dolzina, |j: int| shranjevanje(naslov, z_odmikom, j)));
    Some(r)
}

/// The instruction of an operation (see `aritmeticni`).
fn aritmeticni_o(v: &Vozlisce) -> (r: Option<UkazPodatek>)
    ensures
        r == aritmeticni(*v),
{
    let t = match v {
        Vozlisce::Add(t, ..) | Vozlisce::Sub(t, ..) | Vozlisce::Mul(t, ..) | Vozlisce::Div(t, ..)
        | Vozlisce::Mod(t, ..) | Vozlisce::Pow(t, ..) => t,
        _ => {
            return None;
        },
    };
    let celo = match t {
        crate::tip::Tip::Celo => true,
        crate::tip::Tip::Real => false,
        _ => {
            return None;
        },
    };
    match v {
        Vozlisce::Add(..) => Some(if celo { UkazPodatek::ADDI } else { UkazPodatek::ADDF }),
        Vozlisce::Sub(..) => Some(if celo { UkazPodatek::SUBI } else { UkazPodatek::SUBF }),
        Vozlisce::Mul(..) => Some(if celo { UkazPodatek::MULI } else { UkazPodatek::MULF }),
        Vozlisce::Div(..) => Some(if celo { UkazPodatek::DIVI } else { UkazPodatek::DIVF }),
        Vozlisce::Mod(..) => Some(if celo { UkazPodatek::MODI } else { UkazPodatek::MODF }),
        _ => Some(if celo { UkazPodatek::POWI } else { UkazPodatek::POWF }),
    }
}

/// The subtraction of a comparison (see `odstevanje`).
fn odstevanje_o(t: &crate::tip::Tip) -> (r: Option<UkazPodatek>)
    ensures
        r == odstevanje(t@),
{
    match t {
        crate::tip::Tip::Celo => Some(UkazPodatek::SUBI),
        crate::tip::Tip::Real => Some(UkazPodatek::SUBF),
        _ => None,
    }
}

/// The instructions of a bitwise or logical operation (see `bitni`).
fn bitni_o(v: &Vozlisce) -> (r: Vec<UkazPodatekRelative>)
    ensures
        pogledi_ukazov(r@) == osnovni(bitni(*v)),
{
    let r = match v {
        Vozlisce::BitniAli(..) => en_osnovni(UkazPodatek::BOR),
        Vozlisce::BitniXor(..) => en_osnovni(UkazPodatek::BXOR),
        Vozlisce::BitniIn(..) => en_osnovni(UkazPodatek::BAND),
        Vozlisce::BitniPremikLevo(..) => en_osnovni(UkazPodatek::BSLL),
        Vozlisce::BitniPremikDesno(..) => en_osnovni(UkazPodatek::BSLR),
        Vozlisce::Konjunkcija(..) => en_osnovni(UkazPodatek::MULI),
        Vozlisce::Disjunkcija(..) => dva_osnovna(UkazPodatek::ADDI, UkazPodatek::POS),
        _ => prazna(),
    };
    assert(osnovni(bitni(*v)) =~= pogledi_ukazov(r@));
    r
}

/// How many instructions of the code stay once labels are taken out (see
/// `dolzina_kode`).
fn dolzina_kode_o(c: &Vec<UkazPodatekRelative>) -> (r: usize)
    ensures
        r == dolzina_kode(pogledi_ukazov(c@)),
{
    let ghost p = pogledi_ukazov(c@);
    let mut d: usize = 0;
    let mut i: usize = 0;
    while i < c.len()
        invariant
            0 <= i <= c@.len(),
            p == pogledi_ukazov(c@),
            d == dolzina_kode(p.subrange(0, i as int)),
            d <= i,
        decreases c@.len() - i,
    {
        assert(p.subrange(0, i as int + 1).drop_last() =~= p.subrange(0, i as int));
        assert(p.subrange(0, i as int + 1).last() == c@[i as int]@);
        let steje = match &c[i] {
            UkazPodatekRelative::Oznaka(l) => enaka(l.as_str(), "vrni"),
            _ => true,
        };
        if steje {
            d = d + 1;
        }
        i = i + 1;
    }
    assert(p.subrange(0, c@.len() as int) =~= p);
    d
}

/// Whether the function of the name is called.
fn je_klicana(kl: &[String], ime: &str) -> (r: bool)
    ensures
        r == imena(kl@).contains(ime@),
{
    let mut i: usize = 0;
    while i < kl.len()
        invariant
            0 <= i <= kl@.len(),
            forall|j: int| 0 <= j < i ==> kl@[j]@ != ime@,
        decreases kl@.len() - i,
    {
        if enaka(kl[i].as_str(), ime) {
            assert(imena(kl@)[i as int] == ime@);
            return true;
        }
        i = i + 1;
    }
    proof {
        if imena(kl@).contains(ime@) {
            let j = choose|j: int| 0 <= j < imena(kl@).len() && imena(kl@)[j] == ime@;
            assert(kl@[j]@ == ime@);
        }
    }
    false
}

/// How many cells the parameters take together (see `sprememba_vseh`).
pub(crate) fn velikost_parametrov(s: &Vec<Rc<Vozlisce>>) -> (r: Option<i32>)
    ensures
        r == sprememba_vseh(s@, s@.len() as int),
{
    let mut vsota: Option<i32> = Some(0);
    let mut i: usize = 0;
    while i < s.len()
        invariant
            0 <= i <= s@.len(),
            vsota == sprememba_vseh(s@, i as int),
        decreases s@.len() - i,
    {
        let x = s[i].sprememba_stacka();
        vsota = match (vsota, x) {
            (Some(a), Some(b)) => a.checked_add(b),
            _ => None,
        };
        i = i + 1;
    }
    vsota
}

impl Vozlisce {
    /// The intermediate code of the node (see `prevedeno`), with the labels
    /// numbered from the counter `st_oznak`, which is left after the last
    /// one, and `klicane` the names of the functions that are called.
    pub fn prevedi(&self, st_oznak: &mut u64, klicane: &[String]) -> (r: Option<Vec<UkazPodatekRelative>>)
        ensures
            match r {
                Some(c) => prevedeno(*self, *old(st_oznak), imena(klicane@)) == Some((pogledi_ukazov(c@), *final(st_oznak))),
                None => prevedeno(*self, *old(st_oznak), imena(klicane@)) is None,
            },
        decreases self, 2int,
    {
        match self {
            Vozlisce::Prazno | Vozlisce::Push(..) | Vozlisce::Pop(..) | Vozlisce::Vrh(..) | Vozlisce::ShraniOdmik | Vozlisce::NaloziOdmik | Vozlisce::Znak(..) | Vozlisce::Niz(..) | Vozlisce::Celo(..) | Vozlisce::Real(..) | Vozlisce::Resnica | Vozlisce::Laz | Vozlisce::Spremenljivka { .. } | Vozlisce::Referenca(..) | Vozlisce::RefSeznama(..) | Vozlisce::ProgramskiStevec(..) | Vozlisce::Skok(..) | Vozlisce::Klic(..) | Vozlisce::DinamicniSkok | Vozlisce::Preberi | Vozlisce::Splakni => self.prevedi_list(st_oznak, klicane),
            Vozlisce::Dereferenciraj(..) | Vozlisce::Dolzina(..) | Vozlisce::CeloVReal(..) | Vozlisce::RealVCelo(..) | Vozlisce::CeloVZnak(..) | Vozlisce::ZnakVCelo(..) | Vozlisce::Zanikaj(..) | Vozlisce::PogojniSkok(..) | Vozlisce::Natisni(..) => self.prevedi_enega(st_oznak, klicane),
            Vozlisce::Indeksiraj { .. } | Vozlisce::Add(..) | Vozlisce::Sub(..) | Vozlisce::Mul(..) | Vozlisce::Div(..) | Vozlisce::Mod(..) | Vozlisce::Pow(..) | Vozlisce::Konjunkcija(..) | Vozlisce::Disjunkcija(..) | Vozlisce::BitniAli(..) | Vozlisce::BitniXor(..) | Vozlisce::BitniIn(..) | Vozlisce::BitniPremikLevo(..) | Vozlisce::BitniPremikDesno(..) => self.prevedi_operacijo(st_oznak, klicane),
            Vozlisce::Enako(..) | Vozlisce::NiEnako(..) | Vozlisce::Vecje(..) | Vozlisce::Manjse(..) | Vozlisce::VecjeEnako(..) | Vozlisce::ManjseEnako(..) => self.prevedi_primerjavo(st_oznak, klicane),
            Vozlisce::PogojniStavek { .. } | Vozlisce::Zanka { .. } => self.prevedi_vejitev(st_oznak, klicane),
            Vozlisce::Prirejanje { .. } | Vozlisce::PrirejanjeRef { .. } | Vozlisce::Vrni(..) => self.prevedi_prirejanje(st_oznak, klicane),
            Vozlisce::Zaporedje(..) | Vozlisce::Okvir { .. } => self.prevedi_zaporedje(st_oznak, klicane),
            Vozlisce::Funkcija { .. } | Vozlisce::FunkcijskiKlic { .. } => self.prevedi_funkcijo(st_oznak, klicane),
        }
    }

    /// The code of a node without children (see `prevedeno`).
    fn prevedi_list(&self, st_oznak: &mut u64, klicane: &[String]) -> (r: Option<Vec<UkazPodatekRelative>>)
        requires
            *self is Prazno || *self is Push || *self is Pop || *self is Vrh || *self is ShraniOdmik || *self is NaloziOdmik || *self is Znak || *self is Niz || *self is Celo || *self is Real || *self is Resnica || *self is Laz || *self is Spremenljivka || *self is Referenca || *self is RefSeznama || *self is ProgramskiStevec || *self is Skok || *self is Klic || *self is DinamicniSkok || *self is Preberi || *self is Splakni,
        ensures
            match r {
                Some(c) => prevedeno(*self, *old(st_oznak), imena(klicane@)) == Some((pogledi_ukazov(c@), *final(st_oznak))),
                None => prevedeno(*self, *old(st_oznak), imena(klicane@)) is None,
            },
        decreases self, 1int,
    {
        let ghost kl = imena(klicane@);
        let ghost n = *old(st_oznak);
        match self {
            Vozlisce::Prazno => Some(prazna()),
            Vozlisce::Push(k) => rezerviraj_o(*k),
            Vozlisce::Pop(k) => Some(sprosti_o(*k)),
            Vozlisce::Vrh(o) => Some(en_osnovni(UkazPodatek::TOP(*o))),
            Vozlisce::ShraniOdmik => Some(en_osnovni(UkazPodatek::SOFF)),
            Vozlisce::NaloziOdmik => Some(en_osnovni(UkazPodatek::LOFF)),
            Vozlisce::Znak(c) => Some(en_ukaz(UkazPodatekRelative::PUSHC(*c))),
            Vozlisce::Niz(s) => {
                let z = znaki(s.as_str());
                let mut r: Vec<UkazPodatekRelative> = Vec::new();
                let mut k: usize = 0;
                assert(pogledi_ukazov(r@) =~= Seq::new(0, |j: int| znak_od_zadaj(s@, j)));
                while k < z.len()
                    invariant
                        0 <= k <= z@.len(),
                        z@ == s@,
                        pogledi_ukazov(r@) == Seq::new(k as nat, |j: int| znak_od_zadaj(s@, j)),
                    decreases z@.len() - k,
                {
                    let u = UkazPodatekRelative::PUSHC(z[z.len() - 1 - k]);
                    assert(u@ == znak_od_zadaj(s@, k as int));
                    dodaj(&mut r, u);
                    assert(pogledi_ukazov(r@) =~= Seq::new((k + 1) as nat, |j: int| znak_od_zadaj(s@, j)));
                    k = k + 1;
                }
                let dolzina: i32 = #[verifier::truncate] (z.len() as i32);
                dodaj(&mut r, UkazPodatekRelative::PUSHI(dolzina));
                Some(r)
            },
            Vozlisce::Celo(x) => Some(en_ukaz(UkazPodatekRelative::PUSHI(*x))),
            Vozlisce::Real(b) => {
                let i: i32 = #[verifier::truncate] (*b as i32);
                Some(en_ukaz(UkazPodatekRelative::PUSHF(Podatek { i })))
            },
            Vozlisce::Resnica => Some(en_ukaz(UkazPodatekRelative::PUSHI(1))),
            Vozlisce::Laz => Some(en_ukaz(UkazPodatekRelative::PUSHI(0))),
            Vozlisce::Spremenljivka { naslov, z_odmikom, .. } => Some(en_osnovni(
                if *z_odmikom {
                    UkazPodatek::LDOF(*naslov)
                } else {
                    UkazPodatek::LOAD(*naslov)
                },
            )),
            Vozlisce::Referenca(x) | Vozlisce::RefSeznama(x) => match &**x {
                Vozlisce::Spremenljivka { tip, naslov, z_odmikom, .. } => {
                    let naslov_v = match tip {
                        crate::tip::Tip::Seznam(..) => {
                            if *naslov == i32::MAX {
                                return None;
                            }
                            *naslov + 1
                        },
                        _ => *naslov,
                    };
                    let za = if *z_odmikom {
                        dva_osnovna(UkazPodatek::LOFF, UkazPodatek::ADDI)
                    } else {
                        prazna()
                    };
                    obdaj_o(en_ukaz(UkazPodatekRelative::PUSHI(naslov_v)), Some(prazna()), za)
                },
                _ => None,
            },
            Vozlisce::ProgramskiStevec(o) => Some(en_ukaz(UkazPodatekRelative::PC(*o))),
            Vozlisce::Skok(o) => Some(en_ukaz(UkazPodatekRelative::JUMPRel(besedilo(o.as_str())))),
            Vozlisce::Klic(o) => Some(en_ukaz(UkazPodatekRelative::CALL(besedilo(o.as_str())))),
            Vozlisce::DinamicniSkok => Some(en_osnovni(UkazPodatek::JMPD)),
            Vozlisce::Preberi => Some(en_osnovni(UkazPodatek::GETC)),
            Vozlisce::Splakni => Some(en_osnovni(UkazPodatek::FLUSH)),
            _ => None,
        }
    }

    /// The code of a node with one child (see `prevedeno`).
    fn prevedi_enega(&self, st_oznak: &mut u64, klicane: &[String]) -> (r: Option<Vec<UkazPodatekRelative>>)
        requires
            *self is Dereferenciraj || *self is Dolzina || *self is CeloVReal || *self is RealVCelo || *self is CeloVZnak || *self is ZnakVCelo || *self is Zanikaj || *self is PogojniSkok || *self is Natisni,
        ensures
            match r {
                Some(c) => prevedeno(*self, *old(st_oznak), imena(klicane@)) == Some((pogledi_ukazov(c@), *final(st_oznak))),
                None => prevedeno(*self, *old(st_oznak), imena(klicane@)) is None,
            },
        decreases self, 1int,
    {
        let ghost kl = imena(klicane@);
        let ghost n = *old(st_oznak);
        match self {
            Vozlisce::Dereferenciraj(x) => obdaj_o(prazna(), x.prevedi(st_oznak, klicane), en_osnovni(UkazPodatek::LDDY(0))),
            Vozlisce::Dolzina(x) => match x.tip() {
                Some(crate::tip::Tip::Seznam(_, d)) => Some(en_ukaz(UkazPodatekRelative::PUSHI(d))),
                Some(crate::tip::Tip::RefSeznama(_)) => obdaj_o(prazna(), x.prevedi(st_oznak, klicane), en_osnovni(UkazPodatek::LDDY(-1))),
                _ => None,
            },
            Vozlisce::CeloVReal(x) => obdaj_o(prazna(), x.prevedi(st_oznak, klicane), en_osnovni(UkazPodatek::ITOF)),
            Vozlisce::RealVCelo(x) => obdaj_o(prazna(), x.prevedi(st_oznak, klicane), en_osnovni(UkazPodatek::FTOI)),
            Vozlisce::CeloVZnak(x) | Vozlisce::ZnakVCelo(x) => x.prevedi(st_oznak, klicane),
            Vozlisce::Zanikaj(x) => obdaj_o(
                en_ukaz(UkazPodatekRelative::PUSHI(1)),
                x.prevedi(st_oznak, klicane),
                en_osnovni(UkazPodatek::SUBI),
            ),
            Vozlisce::PogojniSkok(p, o) => obdaj_o(
                prazna(),
                p.prevedi(st_oznak, klicane),
                en_ukaz(UkazPodatekRelative::JMPCRel(besedilo(o.as_str()))),
            ),
            Vozlisce::Natisni(x) => obdaj_o(prazna(), x.prevedi(st_oznak, klicane), en_osnovni(UkazPodatek::PUTC)),
            _ => None,
        }
    }

    /// The code of an operation on two operands (see `prevedeno`).
    #[verifier::rlimit(40)]
    fn prevedi_operacijo(&self, st_oznak: &mut u64, klicane: &[String]) -> (r: Option<Vec<UkazPodatekRelative>>)
        requires
            *self is Indeksiraj || *self is Add || *self is Sub || *self is Mul || *self is Div || *self is Mod || *self is Pow || *self is Konjunkcija || *self is Disjunkcija || *self is BitniAli || *self is BitniXor || *self is BitniIn || *self is BitniPremikLevo || *self is BitniPremikDesno,
        ensures
            match r {
                Some(c) => prevedeno(*self, *old(st_oznak), imena(klicane@)) == Some((pogledi_ukazov(c@), *final(st_oznak))),
                None => prevedeno(*self, *old(st_oznak), imena(klicane@)) is None,
            },
        decreases self, 1int,
    {
        let ghost kl = imena(klicane@);
        let ghost n = *old(st_oznak);
        match self {
            Vozlisce::Indeksiraj { seznam_ref, indeks } => {
                let a = match seznam_ref.prevedi(st_oznak, klicane) {
                    Some(a) => a,
                    None => {
                        return None;
                    },
                };
                let b = indeks.prevedi(st_oznak, klicane);
                obdaj_o(a, b, dva_osnovna(UkazPodatek::ADDI, UkazPodatek::LDDY(0)))
            },
            Vozlisce::Add(_, l, d) | Vozlisce::Sub(_, l, d) | Vozlisce::Mul(_, l, d) | Vozlisce::Div(_, l, d)
            | Vozlisce::Mod(_, l, d) | Vozlisce::Pow(_, l, d) => match aritmeticni_o(self) {
                Some(u) => {
                    let a = match l.prevedi(st_oznak, klicane) {
                        Some(a) => a,
                        None => {
                            return None;
                        },
                    };
                    let b = d.prevedi(st_oznak, klicane);
                    obdaj_o(a, b, en_osnovni(u))
                },
                None => None,
            },
            Vozlisce::Konjunkcija(l, d) | Vozlisce::Disjunkcija(l, d) | Vozlisce::BitniAli(l, d)
            | Vozlisce::BitniXor(l, d) | Vozlisce::BitniIn(l, d) | Vozlisce::BitniPremikLevo(l, d)
            | Vozlisce::BitniPremikDesno(l, d) => {
                let a = match l.prevedi(st_oznak, klicane) {
                    Some(a) => a,
                    None => {
                        return None;
                    },
                };
                let b = d.prevedi(st_oznak, klicane);
                obdaj_o(a, b, bitni_o(self))
            },
            _ => None,
        }
    }

    /// The code of a comparison (see `prevedeno`).
    #[verifier::rlimit(40)]
    fn prevedi_primerjavo(&self, st_oznak: &mut u64, klicane: &[String]) -> (r: Option<Vec<UkazPodatekRelative>>)
        requires
            *self is Enako || *self is NiEnako || *self is Vecje || *self is Manjse || *self is VecjeEnako || *self is ManjseEnako,
        ensures
            match r {
                Some(c) => prevedeno(*self, *old(st_oznak), imena(klicane@)) == Some((pogledi_ukazov(c@), *final(st_oznak))),
                None => prevedeno(*self, *old(st_oznak), imena(klicane@)) is None,
            },
        decreases self, 1int,
    {
        let ghost kl = imena(klicane@);
        let ghost n = *old(st_oznak);
        match self {
            Vozlisce::Enako(t, l, d) | Vozlisce::NiEnako(t, l, d) | Vozlisce::Vecje(t, l, d)
            | Vozlisce::Manjse(t, l, d) | Vozlisce::VecjeEnako(t, l, d) | Vozlisce::ManjseEnako(t, l, d) => {
                let (prvi, drugi) = match self {
                    Vozlisce::Manjse(..) | Vozlisce::VecjeEnako(..) => (d, l),
                    _ => (l, d),
                };
                let a = match prvi.prevedi(st_oznak, klicane) {
                    Some(a) => a,
                    None => {
                        return None;
                    },
                };
                let b = match drugi.prevedi(st_oznak, klicane) {
                    Some(b) => b,
                    None => {
                        return None;
                    },
                };
                let u = match odstevanje_o(t) {
                    Some(u) => u,
                    None => {
                        return None;
                    },
                };
                let (pred, za) = match self {
                    Vozlisce::Enako(..) => (prazna(), dva_osnovna(u, UkazPodatek::ZERO)),
                    Vozlisce::NiEnako(..) => {
                        let mut za = dva_osnovna(u, UkazPodatek::ZERO);
                        dodaj(&mut za, UkazPodatekRelative::Osnovni(UkazPodatek::SUBI));
                        (en_ukaz(UkazPodatekRelative::PUSHI(1)), za)
                    },
                    Vozlisce::Vecje(..) | Vozlisce::Manjse(..) => (prazna(), dva_osnovna(u, UkazPodatek::POS)),
                    _ => {
                        let mut za = dva_osnovna(u, UkazPodatek::POS);
                        dodaj(&mut za, UkazPodatekRelative::Osnovni(UkazPodatek::SUBI));
                        (en_ukaz(UkazPodatekRelative::PUSHI(1)), za)
                    },
                };
                let mut r = pred;
                pripni(&mut r, a);
                pripni(&mut r, b);
                pripni(&mut r, za);
                Some(r)
            },
            _ => None,
        }
    }

    /// The code of a branch or a loop (see `prevedeno`).
    #[verifier::rlimit(80)]
    fn prevedi_vejitev(&self, st_oznak: &mut u64, klicane: &[String]) -> (r: Option<Vec<UkazPodatekRelative>>)
        requires
            *self is PogojniStavek || *self is Zanka,
        ensures
            match r {
                Some(c) => prevedeno(*self, *old(st_oznak), imena(klicane@)) == Some((pogledi_ukazov(c@), *final(st_oznak))),
                None => prevedeno(*self, *old(st_oznak), imena(klicane@)) is None,
            },
        decreases self, 1int,
    {
        let ghost kl = imena(klicane@);
        let ghost n = *old(st_oznak);
        match self {
            Vozlisce::PogojniStavek { pogoj, resnica, laz } => {
                if *st_oznak == u64::MAX {
                    return None;
                }
                let k = *st_oznak;
                *st_oznak = k + 1;
                let mut r = match pogoj.prevedi(st_oznak, klicane) {
                    Some(a) => a,
                    None => {
                        return None;
                    },
                };
                dodaj(&mut r, UkazPodatekRelative::JMPCRel(oznaka_st_o("8resnica_", k)));
                let b = match laz.prevedi(st_oznak, klicane) {
                    Some(b) => b,
                    None => {
                        return None;
                    },
                };
                pripni(&mut r, b);
                dodaj(&mut r, UkazPodatekRelative::JUMPRel(oznaka_st_o("8konec_", k)));
                dodaj(&mut r, UkazPodatekRelative::Oznaka(oznaka_st_o("8resnica_", k)));
                let c = match resnica.prevedi(st_oznak, klicane) {
                    Some(c) => c,
                    None => {
                        return None;
                    },
                };
                pripni(&mut r, c);
                dodaj(&mut r, UkazPodatekRelative::Oznaka(oznaka_st_o("8konec_", k)));
                Some(r)
            },
            Vozlisce::Zanka { pogoj, telo } => {
                if *st_oznak == u64::MAX {
                    return None;
                }
                let k = *st_oznak;
                *st_oznak = k + 1;
                let mut r = en_ukaz(UkazPodatekRelative::Oznaka(oznaka_st_o("8zanka_", k)));
                dodaj(&mut r, UkazPodatekRelative::PUSHI(1));
                let a = match pogoj.prevedi(st_oznak, klicane) {
                    Some(a) => a,
                    None => {
                        return None;
                    },
                };
                pripni(&mut r, a);
                dodaj(&mut r, UkazPodatekRelative::Osnovni(UkazPodatek::SUBI));
                dodaj(&mut r, UkazPodatekRelative::JMPCRel(oznaka_st_o("8konec_", k)));
                let b = match telo.prevedi(st_oznak, klicane) {
                    Some(b) => b,
                    None => {
                        return None;
                    },
                };
                pripni(&mut r, b);
                dodaj(&mut r, UkazPodatekRelative::JUMPRel(oznaka_st_o("8zanka_", k)));
                dodaj(&mut r, UkazPodatekRelative::Oznaka(oznaka_st_o("8konec_", k)));
                Some(r)
            },
            _ => None,
        }
    }

    /// The code of an assignment or a return (see `prevedeno`).
    fn prevedi_prirejanje(&self, st_oznak: &mut u64, klicane: &[String]) -> (r: Option<Vec<UkazPodatekRelative>>)
        requires
            *self is Prirejanje || *self is PrirejanjeRef || *self is Vrni,
        ensures
            match r {
                Some(c) => prevedeno(*self, *old(st_oznak), imena(klicane@)) == Some((pogledi_ukazov(c@), *final(st_oznak))),
                None => prevedeno(*self, *old(st_oznak), imena(klicane@)) is None,
            },
        decreases self, 1int,
    {
        let ghost kl = imena(klicane@);
        let ghost n = *old(st_oznak);
        match self {
            Vozlisce::Prirejanje { spremenljivka, izraz } => match &**spremenljivka {
                Vozlisce::Spremenljivka { naslov, z_odmikom, .. } => match izraz.tip() {
                    Some(t) => match t.velikost_preverjena() {
                        Some(velikost) => match shrani_o(*naslov, velikost, *z_odmikom) {
                            Some(s) => obdaj_o(prazna(), izraz.prevedi(st_oznak, klicane), s),
                            None => None,
                        },
                        None => None,
                    },
                    None => None,
                },
                _ => None,
            },
            Vozlisce::PrirejanjeRef { referenca, indeks, izraz } => {
                let mut s = match referenca.prevedi(st_oznak, klicane) {
                    Some(a) => a,
                    None => {
                        return None;
                    },
                };
                match indeks {
                    Some(i) => {
                        let b = match i.prevedi(st_oznak, klicane) {
                            Some(b) => b,
                            None => {
                                return None;
                            },
                        };
                        pripni(&mut s, b);
                        dodaj(&mut s, UkazPodatekRelative::Osnovni(UkazPodatek::ADDI));
                    },
                    None => {},
                }
                dodaj(&mut s, UkazPodatekRelative::Osnovni(UkazPodatek::STDY(0)));
                let mut x = match izraz.prevedi(st_oznak, klicane) {
                    Some(x) => x,
                    None => {
                        return None;
                    },
                };
                pripni(&mut x, s);
                Some(x)
            },
            Vozlisce::Vrni(p) => obdaj_o(
                prazna(),
                p.prevedi(st_oznak, klicane),
                en_ukaz(UkazPodatekRelative::Oznaka(besedilo("vrni"))),
            ),
            _ => None,
        }
    }

    /// The code of a sequence or a block (see `prevedeno`).
    fn prevedi_zaporedje(&self, st_oznak: &mut u64, klicane: &[String]) -> (r: Option<Vec<UkazPodatekRelative>>)
        requires
            *self is Zaporedje || *self is Okvir,
        ensures
            match r {
                Some(c) => prevedeno(*self, *old(st_oznak), imena(klicane@)) == Some((pogledi_ukazov(c@), *final(st_oznak))),
                None => prevedeno(*self, *old(st_oznak), imena(klicane@)) is None,
            },
        decreases self, 1int,
    {
        let ghost kl = imena(klicane@);
        let ghost n = *old(st_oznak);
        match self {
            Vozlisce::Zaporedje(vs) => {
                let mut r = prazna();
                let mut i: usize = 0;
                while i < vs.len()
                    invariant
                        0 <= i <= vs@.len(),
                        *self == Vozlisce::Zaporedje(*vs),
                        kl == imena(klicane@),
                        n == *old(st_oznak),
                        prevedeno_vseh(vs@, i as int, n, kl) == Some((pogledi_ukazov(r@), *st_oznak)),
                    decreases vs@.len() - i,
                {
                    proof {
                        assert(decreases_to!(*self => self->Zaporedje_0));
                        assert(self->Zaporedje_0 == *vs);
                        assert(decreases_to!(*vs => vs@));
                        assert(decreases_to!(vs@ => vs@[i as int]));
                        assert(decreases_to!(*self => *vs@[i as int]));
                    }
                    let ghost pred = *st_oznak;
                    let x = match vs[i].prevedi(st_oznak, klicane) {
                        Some(x) => x,
                        None => {
                            proof {
                                assert(prevedeno(*vs@[i as int], pred, kl) is None);
                                assert(prevedeno_vseh(vs@, i as int + 1, n, kl) is None);
                                lema_vseh_none(vs@, i as int + 1, vs@.len() as int, n, kl);
                                assert(prevedeno(*self, n, kl) == prevedeno_vseh(vs@, vs@.len() as int, n, kl));
                            }
                            return None;
                        },
                    };
                    pripni(&mut r, x);
                    i = i + 1;
                }
                Some(r)
            },
            Vozlisce::Okvir { zaporedje, st_spr } => match rezerviraj_o(*st_spr) {
                Some(c) => obdaj_o(c, zaporedje.prevedi(st_oznak, klicane), sprosti_o(*st_spr)),
                None => None,
            },
            _ => None,
        }
    }

    /// The code of a function or a call (see `prevedeno`).
    fn prevedi_funkcijo(&self, st_oznak: &mut u64, klicane: &[String]) -> (r: Option<Vec<UkazPodatekRelative>>)
        requires
            *self is Funkcija || *self is FunkcijskiKlic,
        ensures
            match r {
                Some(c) => prevedeno(*self, *old(st_oznak), imena(klicane@)) == Some((pogledi_ukazov(c@), *final(st_oznak))),
                None => prevedeno(*self, *old(st_oznak), imena(klicane@)) is None,
            },
        decreases self, 1int,
    {
        let ghost kl = imena(klicane@);
        let ghost n = *old(st_oznak);
        match self {
            Vozlisce::Funkcija { tip, ime, parametri, telo, prostor } => {
                if !je_klicana(klicane, ime.as_str()) {
                    return Some(prazna());
                }
                let ts = match tip.velikost_preverjena() {
                    Some(ts) => ts,
                    None => {
                        return None;
                    },
                };
                let pv = match velikost_parametrov(parametri) {
                    Some(pv) => pv,
                    None => {
                        return None;
                    },
                };
                let rez = match rezerviraj_o(*prostor) {
                    Some(rez) => rez,
                    None => {
                        return None;
                    },
                };
                if ts == i32::MIN {
                    return None;
                }
                let c1 = -ts;
                if c1 == i32::MIN {
                    return None;
                }
                let c2 = c1 - 1;
                let c3 = match c2.checked_sub(pv) {
                    Some(c3) => c3,
                    None => {
                        return None;
                    },
                };
                if c3 == i32::MIN {
                    return None;
                }
                let vrh = c3 - 1;
                let mut pred = en_ukaz(UkazPodatekRelative::JUMPRel(oznaka_funkcije_o("8preskoci_funkcijo_", ime.as_str())));
                dodaj(&mut pred, UkazPodatekRelative::Oznaka(oznaka_funkcije_o("8funkcija_", ime.as_str())));
                dodaj(&mut pred, UkazPodatekRelative::Osnovni(UkazPodatek::LOFF));
                dodaj(&mut pred, UkazPodatekRelative::Osnovni(UkazPodatek::TOP(vrh)));
                pripni(&mut pred, rez);
                let mut za = en_ukaz(UkazPodatekRelative::Oznaka(oznaka_funkcije_o("8konec_funkcije_", ime.as_str())));
                pripni(&mut za, sprosti_o(*prostor));
                dodaj(&mut za, UkazPodatekRelative::Osnovni(UkazPodatek::SOFF));
                pripni(&mut za, sprosti_o(pv));
                dodaj(&mut za, UkazPodatekRelative::Osnovni(UkazPodatek::JMPD));
                dodaj(&mut za, UkazPodatekRelative::Oznaka(oznaka_funkcije_o("8preskoci_funkcijo_", ime.as_str())));
                obdaj_o(pred, telo.prevedi(st_oznak, klicane), za)
            },
            Vozlisce::FunkcijskiKlic { funkcija, spremenljivke, argumenti } => match &**funkcija {
                Vozlisce::Funkcija { tip, ime, .. } => {
                    let ts = match tip.velikost_preverjena() {
                        Some(ts) => ts,
                        None => {
                            return None;
                        },
                    };
                    let mut rez = match rezerviraj_o(ts) {
                        Some(rez) => rez,
                        None => {
                            return None;
                        },
                    };
                    let dolz = match argumenti.prevedi(st_oznak, klicane) {
                        Some(c) => dolzina_kode_o(&c),
                        None => {
                            return None;
                        },
                    };
                    if dolz > 0x7fff_fffd {
                        return None;
                    }
                    let s = match spremenljivke.prevedi(st_oznak, klicane) {
                        Some(s) => s,
                        None => {
                            return None;
                        },
                    };
                    dodaj(&mut rez, UkazPodatekRelative::PC((dolz + 2) as i32));
                    let mut r = s;
                    pripni(&mut r, rez);
                    let a = match argumenti.prevedi(st_oznak, klicane) {
                        Some(a) => a,
                        None => {
                            return None;
                        },
                    };
                    pripni(&mut r, a);
                    dodaj(&mut r, UkazPodatekRelative::JUMPRel(oznaka_funkcije_o("8funkcija_", ime.as_str())));
                    Some(r)
                },
                _ => None,
            },
            _ => None,
        }
    }
}

} // verus!
