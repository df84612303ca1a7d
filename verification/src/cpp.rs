//! Compiling the syntax tree to C++ source that works on the same stack.
//!
//! Branches and loops get labels numbered by one counter, and the ends of
//! functions by another; both run through the whole compilation.

use crate::besedilo::{desetisko, desetisko_celo, dodaj_desetisko, dodaj_desetisko_celo, znaki};
use crate::oznake::{v_veljavno_ime_funkcije, veljavno_ime};
use crate::tip::TipV;
use crate::vozlisce::{celice_tipa, sprememba_vseh, tip_vozlisca, Vozlisce};
use std::rc::Rc;
use vstd::prelude::*;

verus! {

/// The counters after the source, or zeros where there is none.
pub open spec fn stevca(a: Option<(Seq<char>, u64, u64)>) -> (u64, u64) {
    match a {
        Some((_, s, f)) => (s, f),
        None => (0, 0),
    }
}

/// The source `a` followed by `b`, which was compiled from the counters
/// after `a`; the counters after `b`.
pub open spec fn nadaljuj(a: Option<(Seq<char>, u64, u64)>, b: Option<(Seq<char>, u64, u64)>) -> Option<(Seq<char>, u64, u64)> {
    match (a, b) {
        (Some((x, _, _)), Some((y, s, f))) => Some((x + y, s, f)),
        _ => None,
    }
}

/// Text before and after the source.
pub open spec fn obdaj(pred: Seq<char>, a: Option<(Seq<char>, u64, u64)>, za: Seq<char>) -> Option<(Seq<char>, u64, u64)> {
    match a {
        Some((x, s, f)) => Some((pred + x + za, s, f)),
        None => None,
    }
}

/// A line that pushes the value written in `podatek`.
pub open spec fn push(podatek: Seq<char>) -> Seq<char> {
    "stack.push_back("@ + podatek + ");\n"@
}

/// A value written in braces.
pub open spec fn v_oklepajih(x: Seq<char>) -> Seq<char> {
    "{ "@ + x + " }"@
}

/// The line that grows the stack by `k` cells.
pub open spec fn aloc(k: int) -> Seq<char> {
    "stack.resize(stack.size() + "@ + desetisko_celo(k) + ");\n"@
}

/// The line that drops the top cell.
pub open spec fn pop() -> Seq<char> {
    "stack.pop_back();\n"@
}

/// The line that loads the cell at `naslov`.
pub open spec fn load(naslov: int) -> Seq<char> {
    "stack.push_back(stack["@ + desetisko_celo(naslov) + "]);\n"@
}

/// The line that loads the cell at `naslov` from the frame.
pub open spec fn ldof(naslov: int) -> Seq<char> {
    "stack.push_back(stack[addroff + "@ + desetisko_celo(naslov) + "]);\n"@
}

/// The line that stores the top into the cell at `naslov`.
pub open spec fn stor(naslov: int) -> Seq<char> {
    "stack["@ + desetisko_celo(naslov) + "] = stack.back(); stack.pop_back();\n"@
}

/// The line that stores the top into the cell at `naslov` of the frame.
pub open spec fn stof(naslov: int) -> Seq<char> {
    "stack[addroff + "@ + desetisko_celo(naslov) + "] = stack.back(); stack.pop_back();\n"@
}

/// The lines that store below an address taken from the stack.
pub open spec fn stdy0() -> Seq<char> {
    "auto dynaddr = stack.back(); stack.pop_back();\nstack[dynaddr + 0] = stack.back(); stack.pop_back();\n"@
}

/// The line that sets the frame base `odmik` cells above the stack's size.
pub open spec fn top(odmik: int) -> Seq<char> {
    "addroff = stack.size() + "@ + desetisko_celo(odmik) + ";\n"@
}

/// The line that restores the frame base from the stack.
pub open spec fn soff() -> Seq<char> {
    "addroff = stack.back().i; stack.pop_back()\n"@
}

/// The line that pushes the frame base.
pub open spec fn loff() -> Seq<char> {
    "stack.push_back(Podatek { i: *addroff });\n"@
}

/// The line of an operation on the two cells on top, with `izraz` what the
/// cell below becomes.
pub open spec fn dvojna(polje: Seq<char>, izraz: Seq<char>) -> Seq<char> {
    "stack.back()."@ + polje + " = "@ + izraz + "; stack.pop_back();\n"@
}

/// The line of an operation with an operator, on whole numbers (`i`) or
/// reals (`f`).
pub open spec fn operator(polje: Seq<char>, op: Seq<char>) -> Seq<char> {
    dvojna(polje, "stack[stack.size() - 2]."@ + polje + " "@ + op + " stack.back()."@ + polje)
}

/// The sum of whole numbers.
pub open spec fn addi() -> Seq<char> {
    operator("i"@, "+"@)
}

/// The difference of whole numbers.
pub open spec fn subi() -> Seq<char> {
    operator("i"@, "-"@)
}

/// The product of whole numbers.
pub open spec fn muli() -> Seq<char> {
    operator("i"@, "*"@)
}

/// The line of `POS`: whether the top is a positive real.
pub open spec fn pos() -> Seq<char> {
    "stack.back().i = stack.back().f >  0.0f\n"@
}

/// The line of `ZERO`: whether the top is the real zero.
pub open spec fn zero() -> Seq<char> {
    "stack.back().i = stack.back().f == 0.0f\n"@
}

/// The line that writes the top as a character.
pub open spec fn putc() -> Seq<char> {
    "std::cout << stack.back().c; stack.pop_back();\n"@
}

/// The line that reads a character.
pub open spec fn getc() -> Seq<char> {
    "stack.push_back('\0'); std::cin >> stack.back().c;\n"@
}

/// The line of an arithmetic operation of the type.
pub open spec fn aritmetika(v: Vozlisce) -> Option<Seq<char>> {
    match v {
        Vozlisce::Add(t, ..) => if t@ == TipV::Celo {
            Some(addi())
        } else if t@ == TipV::Real {
            Some(operator("f"@, "+"@))
        } else {
            None
        },
        Vozlisce::Sub(t, ..) => odstevanje(t@),
        Vozlisce::Mul(t, ..) => if t@ == TipV::Celo {
            Some(muli())
        } else if t@ == TipV::Real {
            Some(operator("f"@, "*"@))
        } else {
            None
        },
        Vozlisce::Div(t, ..) => if t@ == TipV::Celo {
            Some(operator("i"@, "/"@))
        } else if t@ == TipV::Real {
            Some(operator("f"@, "/"@))
        } else {
            None
        },
        Vozlisce::Mod(t, ..) => if t@ == TipV::Celo {
            Some(operator("i"@, "%"@))
        } else if t@ == TipV::Real {
            Some(dvojna("f"@, "stack[stack.size() - 2].f.modf(stack.back().f)"@))
        } else {
            None
        },
        Vozlisce::Pow(t, ..) => if t@ == TipV::Celo {
            Some(dvojna("i"@, "stack[stack.size() - 2].i.pow(stack.back().i)"@))
        } else if t@ == TipV::Real {
            Some(dvojna("f"@, "stack[stack.size() - 2].f.pow(stack.back().f)"@))
        } else {
            None
        },
        _ => None,
    }
}

/// The subtraction of values of the type.
pub open spec fn odstevanje(t: TipV) -> Option<Seq<char>> {
    if t == TipV::Celo {
        Some(subi())
    } else if t == TipV::Real {
        Some(operator("f"@, "-"@))
    } else {
        None
    }
}

/// The lines of a bitwise or logical operation.
pub open spec fn bitna(v: Vozlisce) -> Seq<char> {
    match v {
        Vozlisce::BitniAli(..) => operator("i"@, "| "@),
        Vozlisce::BitniXor(..) => operator("i"@, "^ "@),
        Vozlisce::BitniIn(..) => operator("i"@, "& "@),
        Vozlisce::BitniPremikLevo(..) => operator("i"@, "<<"@),
        Vozlisce::BitniPremikDesno(..) => operator("i"@, ">>"@),
        Vozlisce::Konjunkcija(..) => muli(),
        _ => addi() + pos(),
    }
}

/// The code that reserves `k` cells: an `ALOC` line for more than one, a
/// push of zero for each otherwise; `None` for fewer than none.
pub open spec fn rezerviraj(k: i32) -> Option<Seq<char>> {
    if k > 1 {
        Some(aloc(k as int))
    } else if k == 1 {
        Some(push("{ .i = 0 }"@))
    } else if k == 0 {
        Some(Seq::empty())
    } else {
        None
    }
}

/// The code that frees `k` cells: an `ALOC` line for more than one, a pop
/// for each otherwise; `None` for fewer than none.
pub open spec fn sprosti(k: i32) -> Option<Seq<char>> {
    if k > 1 {
        Some(aloc(-k))
    } else if k == 1 {
        Some(pop())
    } else if k == 0 {
        Some(Seq::empty())
    } else {
        None
    }
}

/// The stores of a value of `velikost` cells into the cells from `naslov`
/// on; `None` where the end address leaves `i32`.
pub open spec fn shrani(naslov: i32, velikost: i32, z_odmikom: bool) -> Option<Seq<char>> {
    if i32::MIN <= naslov + velikost <= i32::MAX {
        Some(shrani_od(naslov as int, if velikost > 0 { velikost as nat } else { 0 }, z_odmikom))
    } else {
        None
    }
}

/// The stores into `k` cells from `naslov` on.
pub open spec fn shrani_od(naslov: int, k: nat, z_odmikom: bool) -> Seq<char>
    decreases k,
{
    if k == 0 {
        Seq::empty()
    } else {
        shrani_od(naslov, (k - 1) as nat, z_odmikom) + if z_odmikom {
            stof(naslov + k - 1)
        } else {
            stor(naslov + k - 1)
        }
    }
}

/// The source of a comparison: `pred`, the code of the operands, the
/// subtraction for values of the type, and `za`.
pub open spec fn primerjava(
    t: TipV,
    a: Option<(Seq<char>, u64, u64)>,
    b: Option<(Seq<char>, u64, u64)>,
    pred: Seq<char>,
    za: Seq<char>,
) -> Option<(Seq<char>, u64, u64)> {
    match odstevanje(t) {
        Some(u) => obdaj(pred, nadaljuj(a, b), u + za),
        None => None,
    }
}

/// C++ source of a node, compiled from the label counters `sk` (branches
/// and loops) and `fu` (ends of functions), and the counters after it.
/// Values are pushed (a character or a number in braces, a real number as
/// the `i32` with its bits, a string as its characters from the last and
/// its length); variables are loaded; a reference pushes the address (one
/// further for an array) and adds the frame base where the variable is
/// relative to it; an operation is its operands and the line of its
/// operator; a branch is the condition, a jump to `resnica_k`, the else
/// part, a jump to `konec_k`, the label `resnica_k`, the then part and the
/// label `konec_k`; a loop is the condition, the label `zanka_k`, a jump to
/// `konec_k` on false, the body and a jump back; a return jumps to
/// `vrni_f`; a function is `void name()` with the set-up of its frame, its
/// body (compiled after the counter of functions moved on), the label
/// `vrni_f` and the tear-down; a call reserves the result, pushes the
/// arguments and calls the function. `None` where the original has no
/// source: a reference to what is no variable, a length of what is no
/// array or reference to one, an operation of another type, a negative
/// count of cells, a program counter, a jump or a call by name, flushing, a
/// call of what is no function, a count that leaves `i32`, or a counter
/// that would leave `u64`.
pub open spec fn cpp_vozlisca(v: Vozlisce, sk: u64, fu: u64) -> Option<(Seq<char>, u64, u64)>
    decreases v, 0int,
{
    match v {
        Vozlisce::Prazno => Some((Seq::empty(), sk, fu)),
        Vozlisce::Push(k) => match rezerviraj(k) {
            Some(c) => Some((c, sk, fu)),
            None => None,
        },
        Vozlisce::Pop(k) => match sprosti(k) {
            Some(c) => Some((c, sk, fu)),
            None => None,
        },
        Vozlisce::Vrh(o) => Some((top(o as int), sk, fu)),
        Vozlisce::ShraniOdmik => Some((soff(), sk, fu)),
        Vozlisce::NaloziOdmik => Some((loff(), sk, fu)),
        Vozlisce::Znak(c) => Some((push(v_oklepajih(seq!['\''] + seq![c] + seq!['\''])), sk, fu)),
        Vozlisce::Niz(s) => Some((niz_od(s@, s@.len()) + push(desetisko(s@.len())), sk, fu)),
        Vozlisce::Celo(x) => Some((push(v_oklepajih(desetisko_celo(x as int))), sk, fu)),
        Vozlisce::Real(b) => Some((push(v_oklepajih(desetisko_celo((b as i32) as int))), sk, fu)),
        Vozlisce::Resnica => Some((push("{ 1 }"@), sk, fu)),
        Vozlisce::Laz => Some((push("{ 0 }"@), sk, fu)),
        Vozlisce::Spremenljivka { naslov, z_odmikom, .. } => Some((
            if z_odmikom {
                ldof(naslov as int)
            } else {
                load(naslov as int)
            },
            sk,
            fu,
        )),
        Vozlisce::Referenca(x) | Vozlisce::RefSeznama(x) => match *x {
            Vozlisce::Spremenljivka { tip, naslov, z_odmikom, .. } => {
                let naslov_v = if tip@ is Seznam {
                    naslov + 1
                } else {
                    naslov as int
                };
                if naslov_v <= i32::MAX {
                    Some((
                        push(v_oklepajih(desetisko_celo(naslov_v))) + if z_odmikom {
                            loff() + addi()
                        } else {
                            Seq::empty()
                        },
                        sk,
                        fu,
                    ))
                } else {
                    None
                }
            },
            _ => None,
        },
        Vozlisce::Dereferenciraj(x) => obdaj(Seq::empty(), cpp_vozlisca(*x, sk, fu), push("stack[dynaddr]"@)),
        Vozlisce::Indeksiraj { seznam_ref, indeks } => {
            let a = cpp_vozlisca(*seznam_ref, sk, fu);
            obdaj(
                Seq::empty(),
                nadaljuj(a, cpp_vozlisca(*indeks, stevca(a).0, stevca(a).1)),
                addi() + push("stack[dynaddr]"@),
            )
        },
        Vozlisce::Dolzina(x) => match tip_vozlisca(*x) {
            Some(TipV::Seznam(_, d)) => Some((push(v_oklepajih(desetisko_celo(d))), sk, fu)),
            Some(TipV::RefSeznama(_)) => obdaj(Seq::empty(), cpp_vozlisca(*x, sk, fu), push("stack[dynaddr - 1]"@)),
            _ => None,
        },
        Vozlisce::Add(_, l, d) | Vozlisce::Sub(_, l, d) | Vozlisce::Mul(_, l, d) | Vozlisce::Div(_, l, d)
        | Vozlisce::Mod(_, l, d) | Vozlisce::Pow(_, l, d) => match aritmetika(v) {
            Some(u) => {
                let a = cpp_vozlisca(*l, sk, fu);
                obdaj(Seq::empty(), nadaljuj(a, cpp_vozlisca(*d, stevca(a).0, stevca(a).1)), u)
            },
            None => None,
        },
        Vozlisce::Konjunkcija(l, d) | Vozlisce::Disjunkcija(l, d) | Vozlisce::BitniAli(l, d)
        | Vozlisce::BitniXor(l, d) | Vozlisce::BitniIn(l, d) | Vozlisce::BitniPremikLevo(l, d)
        | Vozlisce::BitniPremikDesno(l, d) => {
            let a = cpp_vozlisca(*l, sk, fu);
            obdaj(Seq::empty(), nadaljuj(a, cpp_vozlisca(*d, stevca(a).0, stevca(a).1)), bitna(v))
        },
        Vozlisce::CeloVReal(x) => obdaj(Seq::empty(), cpp_vozlisca(*x, sk, fu), "stack.back().f = stack.back().i"@),
        Vozlisce::RealVCelo(x) => obdaj(Seq::empty(), cpp_vozlisca(*x, sk, fu), "stack.back().i = stack.back().f"@),
        Vozlisce::CeloVZnak(x) | Vozlisce::ZnakVCelo(x) => cpp_vozlisca(*x, sk, fu),
        Vozlisce::Zanikaj(x) => obdaj(push("{ 1 }"@), cpp_vozlisca(*x, sk, fu), subi()),
        Vozlisce::Enako(t, l, d) => {
            let a = cpp_vozlisca(*l, sk, fu);
            primerjava(t@, a, cpp_vozlisca(*d, stevca(a).0, stevca(a).1), Seq::empty(), zero())
        },
        Vozlisce::NiEnako(t, l, d) => {
            let a = cpp_vozlisca(*l, sk, fu);
            primerjava(t@, a, cpp_vozlisca(*d, stevca(a).0, stevca(a).1), push("{ 1 }"@), zero() + subi())
        },
        Vozlisce::Vecje(t, l, d) => {
            let a = cpp_vozlisca(*l, sk, fu);
            primerjava(t@, a, cpp_vozlisca(*d, stevca(a).0, stevca(a).1), Seq::empty(), pos())
        },
        Vozlisce::Manjse(t, l, d) => {
            let a = cpp_vozlisca(*d, sk, fu);
            primerjava(t@, a, cpp_vozlisca(*l, stevca(a).0, stevca(a).1), Seq::empty(), pos())
        },
        Vozlisce::VecjeEnako(t, l, d) => {
            let a = cpp_vozlisca(*d, sk, fu);
            primerjava(t@, a, cpp_vozlisca(*l, stevca(a).0, stevca(a).1), push("{ 1 }"@), pos() + subi())
        },
        Vozlisce::ManjseEnako(t, l, d) => {
            let a = cpp_vozlisca(*l, sk, fu);
            primerjava(t@, a, cpp_vozlisca(*d, stevca(a).0, stevca(a).1), push("{ 1 }"@), pos() + subi())
        },
        Vozlisce::PogojniStavek { pogoj, resnica, laz } => if sk < u64::MAX {
            let r = "resnica_"@ + desetisko(sk as nat);
            let k = "konec_"@ + desetisko(sk as nat);
            let a = obdaj(
                Seq::empty(),
                cpp_vozlisca(*pogoj, (sk + 1) as u64, fu),
                "if (stack.back().i != 0) { stack.pop_back(); goto "@ + r + "; } else stack.pop_back();\n"@,
            );
            let b = obdaj(
                Seq::empty(),
                cpp_vozlisca(*laz, stevca(a).0, stevca(a).1),
                "goto "@ + k + ";\n"@ + r + ":\n"@,
            );
            let ab = nadaljuj(a, b);
            obdaj(Seq::empty(), nadaljuj(ab, cpp_vozlisca(*resnica, stevca(ab).0, stevca(ab).1)), k + ":\n"@)
        } else {
            None
        },
        Vozlisce::Zanka { pogoj, telo } => if sk < u64::MAX {
            let z = "zanka_"@ + desetisko(sk as nat);
            let k = "konec_"@ + desetisko(sk as nat);
            let a = obdaj(
                Seq::empty(),
                cpp_vozlisca(*pogoj, (sk + 1) as u64, fu),
                z + ":\n"@ + "if (stack.back().i == 0) { stack.pop_back(); goto "@ + k
                    + "; } else stack.pop_back();\n"@,
            );
            obdaj(Seq::empty(), nadaljuj(a, cpp_vozlisca(*telo, stevca(a).0, stevca(a).1)), "goto "@ + z + ";\n"@)
        } else {
            None
        },
        Vozlisce::Prirejanje { spremenljivka, izraz } => match *spremenljivka {
            Vozlisce::Spremenljivka { naslov, z_odmikom, .. } => match tip_vozlisca(*izraz) {
                Some(t) => match celice_tipa(t) {
                    Some(velikost) => match shrani(naslov, velikost, z_odmikom) {
                        Some(s) => obdaj(Seq::empty(), cpp_vozlisca(*izraz, sk, fu), s),
                        None => None,
                    },
                    None => None,
                },
                None => None,
            },
            _ => None,
        },
        Vozlisce::PrirejanjeRef { referenca, indeks, izraz } => {
            let a = cpp_vozlisca(*referenca, sk, fu);
            let ai = match indeks {
                Some(i) => obdaj(Seq::empty(), nadaljuj(a, cpp_vozlisca(*i, stevca(a).0, stevca(a).1)), addi()),
                None => a,
            };
            let shr = obdaj(Seq::empty(), ai, stdy0());
            match (shr, cpp_vozlisca(*izraz, stevca(shr).0, stevca(shr).1)) {
                (Some((s, _, _)), Some((x, s2, f2))) => Some((x + s, s2, f2)),
                _ => None,
            }
        },
        Vozlisce::Vrni(p) => obdaj(
            Seq::empty(),
            cpp_vozlisca(*p, sk, fu),
            "goto vrni_"@ + desetisko(fu as nat) + ";\n"@,
        ),
        Vozlisce::Zaporedje(vs) => cpp_vseh(vs@, vs@.len() as int, sk, fu),
        Vozlisce::Okvir { zaporedje, st_spr } => if st_spr > i32::MIN {
            obdaj(aloc(st_spr as int), cpp_vozlisca(*zaporedje, sk, fu), aloc(-st_spr))
        } else {
            None
        },
        Vozlisce::Funkcija { tip, ime, parametri, telo, prostor } => match (
            celice_tipa(tip@),
            sprememba_vseh(parametri@, parametri@.len() as int),
            sprosti(prostor),
        ) {
            (Some(ts), Some(pv), Some(sp)) => match sprosti(pv) {
                Some(spv) => {
                    let vrh = -ts - 1 - pv - 1;
                    if -ts <= i32::MAX && i32::MIN <= -ts - 1 && i32::MIN <= -ts - 1 - pv <= i32::MAX
                        && i32::MIN <= vrh && fu < u64::MAX {
                        let pred = "void "@ + veljavno_ime(ime@) + "()\n{\n"@ + loff() + top(vrh);
                        let za = "vrni_"@ + desetisko(fu as nat) + ":\n"@ + sp + soff() + spv + "}\n"@;
                        obdaj(pred, cpp_vozlisca(*telo, sk, (fu + 1) as u64), za)
                    } else {
                        None
                    }
                },
                None => None,
            },
            _ => None,
        },
        Vozlisce::FunkcijskiKlic { funkcija, spremenljivke, argumenti } => match *funkcija {
            Vozlisce::Funkcija { tip, ime, .. } => match celice_tipa(tip@) {
                Some(ts) => {
                    let s = cpp_vozlisca(*spremenljivke, sk, fu);
                    obdaj(
                        Seq::empty(),
                        nadaljuj(obdaj(Seq::empty(), s, aloc(ts as int)), cpp_vozlisca(*argumenti, stevca(s).0, stevca(s).1)),
                        veljavno_ime(ime@) + "();\n"@,
                    )
                },
                None => None,
            },
            _ => None,
        },
        Vozlisce::Natisni(x) => obdaj(Seq::empty(), cpp_vozlisca(*x, sk, fu), putc()),
        Vozlisce::Preberi => Some((getc(), sk, fu)),
        _ => None,
    }
}

/// The pushes of the first `k` characters of `s`, from the last one.
pub open spec fn niz_od(s: Seq<char>, k: nat) -> Seq<char>
    decreases k,
{
    if k == 0 || k > s.len() {
        Seq::empty()
    } else {
        push(v_oklepajih(seq!['\''] + seq![s[k - 1]] + seq!['\''])) + niz_od(s, (k - 1) as nat)
    }
}

/// The source of the first `k` nodes, one after the other, with the
/// counters running through them.
pub open spec fn cpp_vseh(s: Seq<Rc<Vozlisce>>, k: int, sk: u64, fu: u64) -> Option<(Seq<char>, u64, u64)>
    decreases s, k,
{
    if k <= 0 || k > s.len() {
        Some((Seq::empty(), sk, fu))
    } else {
        let a = cpp_vseh(s, k - 1, sk, fu);
        nadaljuj(a, cpp_vozlisca(*s[k - 1], stevca(a).0, stevca(a).1))
    }
}

/// A string that holds the characters of `x`.
fn besedilo(x: &str) -> (r: String)
    ensures
        r@ == x@,
{
    let mut s = String::new();
    s.append(x);
    s
}

/// Text before and after the source, where the source is there.
fn obdaj_o(pred: String, a: Option<String>, za: String) -> (r: Option<String>)
    ensures
        match a {
            Some(x) => r matches Some(y) && y@ == pred@ + x@ + za@,
            None => r is None,
        },
{
    match a {
        Some(x) => {
            let mut y = pred;
            y.append(x.as_str());
            y.append(za.as_str());
            Some(y)
        },
        None => None,
    }
}

/// Appends a number in decimal.
fn dodaj_celo(s: &mut String, x: i64)
    ensures
        final(s)@ == old(s)@ + desetisko_celo(x as int),
{
    dodaj_desetisko_celo(s, x);
}

/// A line that pushes the value written in `podatek` (see `push`).
fn push_o(podatek: &str) -> (r: String)
    ensures
        r@ == push(podatek@),
{
    let mut s = besedilo("stack.push_back(");
    s.append(podatek);
    s.append(");\n");
    s
}

/// A number written in braces.
fn v_oklepajih_celo(x: i64) -> (r: String)
    ensures
        r@ == v_oklepajih(desetisko_celo(x as int)),
{
    let mut s = besedilo("{ ");
    dodaj_celo(&mut s, x);
    s.append(" }");
    s
}

/// A line of one of the forms with a number in it: before it `pred`, after
/// it `za`.
fn z_stevilom(pred: &str, x: i64, za: &str) -> (r: String)
    ensures
        r@ == pred@ + desetisko_celo(x as int) + za@,
{
    let mut s = besedilo(pred);
    dodaj_celo(&mut s, x);
    s.append(za);
    s
}

/// The line of an operation (see `dvojna`).
fn dvojna_o(polje: &str, izraz: &str) -> (r: String)
    ensures
        r@ == dvojna(polje@, izraz@),
{
    let mut s = besedilo("stack.back().");
    s.append(polje);
    s.append(" = ");
    s.append(izraz);
    s.append("; stack.pop_back();\n");
    s
}

/// The line of an operation with an operator (see `operator`).
fn operator_o(polje: &str, op: &str) -> (r: String)
    ensures
        r@ == operator(polje@, op@),
{
    let mut izraz = besedilo("stack[stack.size() - 2].");
    izraz.append(polje);
    izraz.append(" ");
    izraz.append(op);
    izraz.append(" stack.back().");
    izraz.append(polje);
    dvojna_o(polje, izraz.as_str())
}

/// The code that reserves cells (see `rezerviraj`).
fn rezerviraj_o(k: i32) -> (r: Option<String>)
    ensures
        match rezerviraj(k) {
            Some(c) => r matches Some(x) && x@ == c,
            None => r is None,
        },
{
    if k > 1 {
        Some(z_stevilom("stack.resize(stack.size() + ", k as i64, ");\n"))
    } else if k == 1 {
        Some(push_o("{ .i = 0 }"))
    } else if k == 0 {
        Some(String::new())
    } else {
        None
    }
}

/// The code that frees cells (see `sprosti`).
fn sprosti_o(k: i32) -> (r: Option<String>)
    ensures
        match sprosti(k) {
            Some(c) => r matches Some(x) && x@ == c,
            None => r is None,
        },
{
    if k > 1 {
        Some(z_stevilom("stack.resize(stack.size() + ", -(k as i64), ");\n"))
    } else if k == 1 {
        Some(besedilo("stack.pop_back();\n"))
    } else if k == 0 {
        Some(String::new())
    } else {
        None
    }
}

/// The stores of a value (see `shrani`).
fn shrani_o(naslov: i32, velikost: i32, z_odmikom: bool) -> (r: Option<String>)
    ensures
        match shrani(naslov, velikost, z_odmikom) {
            Some(c) => r matches Some(x) && x@ == c,
            None => r is None,
        },
{
    if naslov.checked_add(velikost).is_none() {
        return None;
    }
    let mut s = String::new();
    let mut k: i32 = 0;
    while k < velikost
        invariant
            0 <= k,
            velikost > 0 ==> k <= velikost,
            velikost <= 0 ==> k == 0,
            i32::MIN <= naslov + velikost <= i32::MAX,
            s@ == shrani_od(naslov as int, k as nat, z_odmikom),
        decreases velikost - k,
    {
        let a = (naslov + k) as i64;
        if z_odmikom {
            s.append("stack[addroff + ");
            dodaj_celo(&mut s, a);
            s.append("] = stack.back(); stack.pop_back();\n");
        } else {
            s.append("stack[");
            dodaj_celo(&mut s, a);
            s.append("] = stack.back(); stack.pop_back();\n");
        }
        k = k + 1;
    }
    if velikost > 0 {
        assert(k == velikost);
    }
    Some(s)
}

/// The line of an arithmetic operation (see `aritmetika`).
fn aritmetika_o(v: &Vozlisce) -> (r: Option<String>)
    ensures
        match aritmetika(*v) {
            Some(c) => r matches Some(x) && x@ == c,
            None => r is None,
        },
{
    let t = match v {
        Vozlisce::Add(t, ..) | Vozlisce::Sub(t, ..) | Vozlisce::Mul(t, ..) | Vozlisce::Div(t, ..)
        | Vozlisce::Mod(t, ..) | Vozlisce::Pow(t, ..) => t,
        _ => {
            return None;
        },
    };
    let celo = match t {
        crate::tip::Tip::Celo => true,
        crate::tip::Tip::Real => false,
        _ => {
            return None;
        },
    };
    let polje = if celo { "i" } else { "f" };
    match v {
        Vozlisce::Add(..) => Some(operator_o(polje, "+")),
        Vozlisce::Sub(..) => Some(operator_o(polje, "-")),
        Vozlisce::Mul(..) => Some(operator_o(polje, "*")),
        Vozlisce::Div(..) => Some(operator_o(polje, "/")),
        Vozlisce::Mod(..) => if celo {
            Some(operator_o("i", "%"))
        } else {
            Some(dvojna_o("f", "stack[stack.size() - 2].f.modf(stack.back().f)"))
        },
        _ => if celo {
            Some(dvojna_o("i", "stack[stack.size() - 2].i.pow(stack.back().i)"))
        } else {
            Some(dvojna_o("f", "stack[stack.size() - 2].f.pow(stack.back().f)"))
        },
    }
}

/// The subtraction of a comparison (see `odstevanje`).
fn odstevanje_o(t: &crate::tip::Tip) -> (r: Option<String>)
    ensures
        match odstevanje(t@) {
            Some(c) => r matches Some(x) && x@ == c,
            None => r is None,
        },
{
    match t {
        crate::tip::Tip::Celo => Some(operator_o("i", "-")),
        crate::tip::Tip::Real => Some(operator_o("f", "-")),
        _ => None,
    }
}

/// The lines of a bitwise or logical operation (see `bitna`).
fn bitna_o(v: &Vozlisce) -> (r: String)
    ensures
        r@ == bitna(*v),
{
    match v {
        Vozlisce::BitniAli(..) => operator_o("i", "| "),
        Vozlisce::BitniXor(..) => operator_o("i", "^ "),
        Vozlisce::BitniIn(..) => operator_o("i", "& "),
        Vozlisce::BitniPremikLevo(..) => operator_o("i", "<<"),
        Vozlisce::BitniPremikDesno(..) => operator_o("i", ">>"),
        Vozlisce::Konjunkcija(..) => operator_o("i", "*"),
        _ => {
            let mut s = operator_o("i", "+");
            s.append("stack.back().i = stack.back().f >  0.0f\n");
            s
        },
    }
}

/// The line of `POS`.
fn pos_o() -> (r: String)
    ensures
        r@ == pos(),
{
    besedilo("stack.back().i = stack.back().f >  0.0f\n")
}

/// The line of `ZERO`.
fn zero_o() -> (r: String)
    ensures
        r@ == zero(),
{
    besedilo("stack.back().i = stack.back().f == 0.0f\n")
}

/// A character in quotes and braces.
fn znak_v_oklepajih(c: char) -> (r: String)
    ensures
        r@ == v_oklepajih(seq!['\''] + seq![c] + seq!['\'']),
{
    let mut s = besedilo("{ ");
    crate::besedilo::dodaj_znak(&mut s, '\'');
    crate::besedilo::dodaj_znak(&mut s, c);
    crate::besedilo::dodaj_znak(&mut s, '\'');
    s.append(" }");
    assert(s@ =~= v_oklepajih(seq!['\''] + seq![c] + seq!['\'']));
    s
}

/// The pushes of the characters of `s` from the last one (see `niz_od`).
fn niz_o(z: &Vec<char>) -> (r: String)
    ensures
        r@ == niz_od(z@, z@.len()),
{
    let mut s = String::new();
    let mut k: usize = z.len();
    while k > 0
        invariant
            0 <= k <= z@.len(),
            s@ + niz_od(z@, k as nat) == niz_od(z@, z@.len()),
        decreases k,
    {
        let ghost pred = s@;
        let vrstica = push_o(znak_v_oklepajih(z[k - 1]).as_str());
        s.append(vrstica.as_str());
        assert(pred + niz_od(z@, k as nat) =~= s@ + niz_od(z@, (k - 1) as nat));
        k = k - 1;
    }
    assert(s@ + niz_od(z@, 0) =~= s@);
    s
}

impl Vozlisce {
    /// C++ source of the node (see `cpp_vozlisca`), with the labels of
    /// branches and loops numbered from `st_skokov` and the ends of functions
    /// from `st_funkcij`; both are left after the last label.
    pub fn v_cpp(&self, st_skokov: &mut u64, st_funkcij: &mut u64) -> (r: Option<String>)
        ensures
            match r {
                Some(c) => cpp_vozlisca(*self, *old(st_skokov), *old(st_funkcij)) == Some((c@, *final(st_skokov), *final(st_funkcij))),
                None => cpp_vozlisca(*self, *old(st_skokov), *old(st_funkcij)) is None,
            },
        decreases self, 2int,
    {
        match self {
            Vozlisce::Dereferenciraj(..) | Vozlisce::Indeksiraj { .. } | Vozlisce::Dolzina(..) | Vozlisce::Add(..)
            | Vozlisce::Sub(..) | Vozlisce::Mul(..) | Vozlisce::Div(..) | Vozlisce::Mod(..) | Vozlisce::Pow(..)
            | Vozlisce::Konjunkcija(..) | Vozlisce::Disjunkcija(..) | Vozlisce::BitniAli(..) | Vozlisce::BitniXor(..)
            | Vozlisce::BitniIn(..) | Vozlisce::BitniPremikLevo(..) | Vozlisce::BitniPremikDesno(..)
            | Vozlisce::CeloVReal(..) | Vozlisce::RealVCelo(..) | Vozlisce::CeloVZnak(..) | Vozlisce::ZnakVCelo(..)
            | Vozlisce::Zanikaj(..) | Vozlisce::Natisni(..) => self.cpp_izraz(st_skokov, st_funkcij),
            Vozlisce::Enako(..) | Vozlisce::NiEnako(..) | Vozlisce::Vecje(..) | Vozlisce::Manjse(..)
            | Vozlisce::VecjeEnako(..) | Vozlisce::ManjseEnako(..) => self.cpp_primerjava(st_skokov, st_funkcij),
            Vozlisce::PogojniStavek { .. } | Vozlisce::Zanka { .. } => self.cpp_vejitev(st_skokov, st_funkcij),
            Vozlisce::Prirejanje { .. } | Vozlisce::PrirejanjeRef { .. } | Vozlisce::Vrni(..) | Vozlisce::Zaporedje(..)
            | Vozlisce::Okvir { .. } => self.cpp_stavek(st_skokov, st_funkcij),
            Vozlisce::Funkcija { .. } | Vozlisce::FunkcijskiKlic { .. } => self.cpp_funkcija(st_skokov, st_funkcij),
            _ => self.cpp_list(st_skokov, st_funkcij),
        }
    }

    /// C++ source of a node without children (see `cpp_vozlisca`).
    fn cpp_list(&self, st_skokov: &mut u64, st_funkcij: &mut u64) -> (r: Option<String>)
        requires
            !(*self is Dereferenciraj || *self is Indeksiraj || *self is Dolzina || *self is Add || *self is Sub
                || *self is Mul || *self is Div || *self is Mod || *self is Pow || *self is Konjunkcija
                || *self is Disjunkcija || *self is BitniAli || *self is BitniXor || *self is BitniIn
                || *self is BitniPremikLevo || *self is BitniPremikDesno || *self is CeloVReal || *self is RealVCelo
                || *self is CeloVZnak || *self is ZnakVCelo || *self is Zanikaj || *self is Natisni || *self is Enako
                || *self is NiEnako || *self is Vecje || *self is Manjse || *self is VecjeEnako || *self is ManjseEnako
                || *self is PogojniStavek || *self is Zanka || *self is Prirejanje || *self is PrirejanjeRef
                || *self is Vrni || *self is Zaporedje || *self is Okvir || *self is Funkcija || *self is FunkcijskiKlic),
        ensures
            match r {
                Some(c) => cpp_vozlisca(*self, *old(st_skokov), *old(st_funkcij)) == Some((c@, *final(st_skokov), *final(st_funkcij))),
                None => cpp_vozlisca(*self, *old(st_skokov), *old(st_funkcij)) is None,
            },
    {
        match self {
            Vozlisce::Prazno => Some(String::new()),
            Vozlisce::Push(k) => rezerviraj_o(*k),
            Vozlisce::Pop(k) => sprosti_o(*k),
            Vozlisce::Vrh(o) => Some(z_stevilom("addroff = stack.size() + ", *o as i64, ";\n")),
            Vozlisce::ShraniOdmik => Some(besedilo("addroff = stack.back().i; stack.pop_back()\n")),
            Vozlisce::NaloziOdmik => Some(besedilo("stack.push_back(Podatek { i: *addroff });\n")),
            Vozlisce::Znak(c) => Some(push_o(znak_v_oklepajih(*c).as_str())),
            Vozlisce::Niz(x) => {
                let z = znaki(x.as_str());
                let mut s = niz_o(&z);
                let mut n = String::new();
                dodaj_desetisko(&mut n, z.len() as u64);
                s.append(push_o(n.as_str()).as_str());
                Some(s)
            },
            Vozlisce::Celo(x) => Some(push_o(v_oklepajih_celo(*x as i64).as_str())),
            Vozlisce::Real(b) => {
                let i: i32 = #[verifier::truncate] (*b as i32);
                Some(push_o(v_oklepajih_celo(i as i64).as_str()))
            },
            Vozlisce::Resnica => Some(push_o("{ 1 }")),
            Vozlisce::Laz => Some(push_o("{ 0 }")),
            Vozlisce::Spremenljivka { naslov, z_odmikom, .. } => Some(
                if *z_odmikom {
                    z_stevilom("stack.push_back(stack[addroff + ", *naslov as i64, "]);\n")
                } else {
                    z_stevilom("stack.push_back(stack[", *naslov as i64, "]);\n")
                },
            ),
            Vozlisce::Referenca(x) | Vozlisce::RefSeznama(x) => match &**x {
                Vozlisce::Spremenljivka { tip, naslov, z_odmikom, .. } => {
                    let naslov_v: i64 = match tip {
                        crate::tip::Tip::Seznam(..) => {
                            if *naslov == i32::MAX {
                                return None;
                            }
                            *naslov as i64 + 1
                        },
                        _ => *naslov as i64,
                    };
                    let mut s = push_o(v_oklepajih_celo(naslov_v).as_str());
                    if *z_odmikom {
                        s.append("stack.push_back(Podatek { i: *addroff });\n");
                        s.append(operator_o("i", "+").as_str());
                    }
                    Some(s)
                },
                _ => None,
            },
            Vozlisce::Preberi => Some(besedilo("stack.push_back('\0'); std::cin >> stack.back().c;\n")),
            _ => None,
        }
    }

    /// C++ source of an expression with operands (see `cpp_vozlisca`).
    fn cpp_izraz(&self, st_skokov: &mut u64, st_funkcij: &mut u64) -> (r: Option<String>)
        requires
            *self is Dereferenciraj || *self is Indeksiraj || *self is Dolzina || *self is Add || *self is Sub
                || *self is Mul || *self is Div || *self is Mod || *self is Pow || *self is Konjunkcija
                || *self is Disjunkcija || *self is BitniAli || *self is BitniXor || *self is BitniIn
                || *self is BitniPremikLevo || *self is BitniPremikDesno || *self is CeloVReal || *self is RealVCelo
                || *self is CeloVZnak || *self is ZnakVCelo || *self is Zanikaj || *self is Natisni,
        ensures
            match r {
                Some(c) => cpp_vozlisca(*self, *old(st_skokov), *old(st_funkcij)) == Some((c@, *final(st_skokov), *final(st_funkcij))),
                None => cpp_vozlisca(*self, *old(st_skokov), *old(st_funkcij)) is None,
            },
        decreases self, 1int,
    {
        match self {
            Vozlisce::Dereferenciraj(x) => obdaj_o(String::new(), x.v_cpp(st_skokov, st_funkcij), push_o("stack[dynaddr]")),
            Vozlisce::Indeksiraj { seznam_ref, indeks } => {
                let a = match seznam_ref.v_cpp(st_skokov, st_funkcij) {
                    Some(a) => a,
                    None => {
                        return None;
                    },
                };
                let b = indeks.v_cpp(st_skokov, st_funkcij);
                let mut za = operator_o("i", "+");
                za.append(push_o("stack[dynaddr]").as_str());
                obdaj_o(a, b, za)
            },
            Vozlisce::Dolzina(x) => match x.tip() {
                Some(crate::tip::Tip::Seznam(_, d)) => Some(push_o(v_oklepajih_celo(d as i64).as_str())),
                Some(crate::tip::Tip::RefSeznama(_)) => obdaj_o(
                    String::new(),
                    x.v_cpp(st_skokov, st_funkcij),
                    push_o("stack[dynaddr - 1]"),
                ),
                _ => None,
            },
            Vozlisce::Add(_, l, d) | Vozlisce::Sub(_, l, d) | Vozlisce::Mul(_, l, d) | Vozlisce::Div(_, l, d)
            | Vozlisce::Mod(_, l, d) | Vozlisce::Pow(_, l, d) => match aritmetika_o(self) {
                Some(u) => {
                    let a = match l.v_cpp(st_skokov, st_funkcij) {
                        Some(a) => a,
                        None => {
                            return None;
                        },
                    };
                    let b = d.v_cpp(st_skokov, st_funkcij);
                    obdaj_o(a, b, u)
                },
                None => None,
            },
            Vozlisce::Konjunkcija(l, d) | Vozlisce::Disjunkcija(l, d) | Vozlisce::BitniAli(l, d)
            | Vozlisce::BitniXor(l, d) | Vozlisce::BitniIn(l, d) | Vozlisce::BitniPremikLevo(l, d)
            | Vozlisce::BitniPremikDesno(l, d) => {
                let a = match l.v_cpp(st_skokov, st_funkcij) {
                    Some(a) => a,
                    None => {
                        return None;
                    },
                };
                let b = d.v_cpp(st_skokov, st_funkcij);
                obdaj_o(a, b, bitna_o(self))
            },
            Vozlisce::CeloVReal(x) => obdaj_o(
                String::new(),
                x.v_cpp(st_skokov, st_funkcij),
                besedilo("stack.back().f = stack.back().i"),
            ),
            Vozlisce::RealVCelo(x) => obdaj_o(
                String::new(),
                x.v_cpp(st_skokov, st_funkcij),
                besedilo("stack.back().i = stack.back().f"),
            ),
            Vozlisce::CeloVZnak(x) | Vozlisce::ZnakVCelo(x) => x.v_cpp(st_skokov, st_funkcij),
            Vozlisce::Zanikaj(x) => obdaj_o(push_o("{ 1 }"), x.v_cpp(st_skokov, st_funkcij), operator_o("i", "-")),
            Vozlisce::Natisni(x) => obdaj_o(
                String::new(),
                x.v_cpp(st_skokov, st_funkcij),
                besedilo("std::cout << stack.back().c; stack.pop_back();\n"),
            ),
            _ => None,
        }
    }

    /// C++ source of a comparison (see `cpp_vozlisca`).
    #[verifier::spinoff_prover]
    #[verifier::rlimit(100)]
    fn cpp_primerjava(&self, st_skokov: &mut u64, st_funkcij: &mut u64) -> (r: Option<String>)
        requires
            *self is Enako || *self is NiEnako || *self is Vecje || *self is Manjse || *self is VecjeEnako
                || *self is ManjseEnako,
        ensures
            match r {
                Some(c) => cpp_vozlisca(*self, *old(st_skokov), *old(st_funkcij)) == Some((c@, *final(st_skokov), *final(st_funkcij))),
                None => cpp_vozlisca(*self, *old(st_skokov), *old(st_funkcij)) is None,
            },
        decreases self, 1int,
    {
        let ghost s0 = *st_skokov;
        let ghost f0 = *st_funkcij;
        let (t, prvi, drugi, pred, za) = match self {
            Vozlisce::Enako(t, l, d) => (t, l, d, String::new(), zero_o()),
            Vozlisce::NiEnako(t, l, d) => {
                let mut za = zero_o();
                za.append(operator_o("i", "-").as_str());
                (t, l, d, push_o("{ 1 }"), za)
            },
            Vozlisce::Vecje(t, l, d) => (t, l, d, String::new(), pos_o()),
            Vozlisce::Manjse(t, l, d) => (t, d, l, String::new(), pos_o()),
            Vozlisce::VecjeEnako(t, l, d) => {
                let mut za = pos_o();
                za.append(operator_o("i", "-").as_str());
                (t, d, l, push_o("{ 1 }"), za)
            },
            Vozlisce::ManjseEnako(t, l, d) => {
                let mut za = pos_o();
                za.append(operator_o("i", "-").as_str());
                (t, l, d, push_o("{ 1 }"), za)
            },
            _ => {
                return None;
            },
        };
        assert(cpp_vozlisca(*self, s0, f0) == primerjava(
            t@,
            cpp_vozlisca(**prvi, s0, f0),
            cpp_vozlisca(**drugi, stevca(cpp_vozlisca(**prvi, s0, f0)).0, stevca(cpp_vozlisca(**prvi, s0, f0)).1),
            pred@,
            za@,
        ));
        let a = match prvi.v_cpp(st_skokov, st_funkcij) {
            Some(a) => a,
            None => {
                return None;
            },
        };
        let b = match drugi.v_cpp(st_skokov, st_funkcij) {
            Some(b) => b,
            None => {
                return None;
            },
        };
        let u = match odstevanje_o(t) {
            Some(u) => u,
            None => {
                return None;
            },
        };
        let mut r = pred;
        r.append(a.as_str());
        r.append(b.as_str());
        r.append(u.as_str());
        r.append(za.as_str());
        assert(r@ =~= pred@ + (a@ + b@) + (u@ + za@));
        Some(r)
    }

    /// C++ source of a branch or a loop (see `cpp_vozlisca`).
    #[verifier::rlimit(60)]
    fn cpp_vejitev(&self, st_skokov: &mut u64, st_funkcij: &mut u64) -> (r: Option<String>)
        requires
            *self is PogojniStavek || *self is Zanka,
        ensures
            match r {
                Some(c) => cpp_vozlisca(*self, *old(st_skokov), *old(st_funkcij)) == Some((c@, *final(st_skokov), *final(st_funkcij))),
                None => cpp_vozlisca(*self, *old(st_skokov), *old(st_funkcij)) is None,
            },
        decreases self, 1int,
    {
        if *st_skokov == u64::MAX {
            return None;
        }
        let k = *st_skokov;
        *st_skokov = k + 1;
        let mut stevilka = String::new();
        dodaj_desetisko(&mut stevilka, k);
        match self {
            Vozlisce::PogojniStavek { pogoj, resnica, laz } => {
                let mut r_oznaka = besedilo("resnica_");
                r_oznaka.append(stevilka.as_str());
                let mut k_oznaka = besedilo("konec_");
                k_oznaka.append(stevilka.as_str());
                let mut r = match pogoj.v_cpp(st_skokov, st_funkcij) {
                    Some(a) => a,
                    None => {
                        return None;
                    },
                };
                let mut skok = besedilo("if (stack.back().i != 0) { stack.pop_back(); goto ");
                skok.append(r_oznaka.as_str());
                skok.append("; } else stack.pop_back();\n");
                r.append(skok.as_str());
                let b = match laz.v_cpp(st_skokov, st_funkcij) {
                    Some(b) => b,
                    None => {
                        return None;
                    },
                };
                r.append(b.as_str());
                let mut vmes = besedilo("goto ");
                vmes.append(k_oznaka.as_str());
                vmes.append(";\n");
                vmes.append(r_oznaka.as_str());
                vmes.append(":\n");
                r.append(vmes.as_str());
                let c = match resnica.v_cpp(st_skokov, st_funkcij) {
                    Some(c) => c,
                    None => {
                        return None;
                    },
                };
                r.append(c.as_str());
                let mut konec = besedilo(k_oznaka.as_str());
                konec.append(":\n");
                r.append(konec.as_str());
                Some(r)
            },
            Vozlisce::Zanka { pogoj, telo } => {
                let mut z_oznaka = besedilo("zanka_");
                z_oznaka.append(stevilka.as_str());
                let mut k_oznaka = besedilo("konec_");
                k_oznaka.append(stevilka.as_str());
                let mut r = match pogoj.v_cpp(st_skokov, st_funkcij) {
                    Some(a) => a,
                    None => {
                        return None;
                    },
                };
                let mut glava = besedilo(z_oznaka.as_str());
                glava.append(":\n");
                glava.append("if (stack.back().i == 0) { stack.pop_back(); goto ");
                glava.append(k_oznaka.as_str());
                glava.append("; } else stack.pop_back();\n");
                r.append(glava.as_str());
                let b = match telo.v_cpp(st_skokov, st_funkcij) {
                    Some(b) => b,
                    None => {
                        return None;
                    },
                };
                r.append(b.as_str());
                let mut nazaj = besedilo("goto ");
                nazaj.append(z_oznaka.as_str());
                nazaj.append(";\n");
                r.append(nazaj.as_str());
                Some(r)
            },
            _ => None,
        }
    }
}

impl Vozlisce {
    /// C++ source of an assignment, a return, a sequence or a block (see
    /// `cpp_vozlisca`).
    fn cpp_stavek(&self, st_skokov: &mut u64, st_funkcij: &mut u64) -> (r: Option<String>)
        requires
            *self is Prirejanje || *self is PrirejanjeRef || *self is Vrni || *self is Zaporedje || *self is Okvir,
        ensures
            match r {
                Some(c) => cpp_vozlisca(*self, *old(st_skokov), *old(st_funkcij)) == Some((c@, *final(st_skokov), *final(st_funkcij))),
                None => cpp_vozlisca(*self, *old(st_skokov), *old(st_funkcij)) is None,
            },
        decreases self, 1int,
    {
        let ghost sk0 = *old(st_skokov);
        let ghost fu0 = *old(st_funkcij);
        match self {
            Vozlisce::Prirejanje { spremenljivka, izraz } => match &**spremenljivka {
                Vozlisce::Spremenljivka { naslov, z_odmikom, .. } => match izraz.tip() {
                    Some(t) => match t.velikost_preverjena() {
                        Some(velikost) => match shrani_o(*naslov, velikost, *z_odmikom) {
                            Some(s) => obdaj_o(String::new(), izraz.v_cpp(st_skokov, st_funkcij), s),
                            None => None,
                        },
                        None => None,
                    },
                    None => None,
                },
                _ => None,
            },
            Vozlisce::PrirejanjeRef { referenca, indeks, izraz } => {
                let mut s = match referenca.v_cpp(st_skokov, st_funkcij) {
                    Some(a) => a,
                    None => {
                        return None;
                    },
                };
                match indeks {
                    Some(i) => {
                        let b = match i.v_cpp(st_skokov, st_funkcij) {
                            Some(b) => b,
                            None => {
                                return None;
                            },
                        };
                        s.append(b.as_str());
                        s.append(operator_o("i", "+").as_str());
                    },
                    None => {},
                }
                s.append("auto dynaddr = stack.back(); stack.pop_back();\nstack[dynaddr + 0] = stack.back(); stack.pop_back();\n");
                let mut x = match izraz.v_cpp(st_skokov, st_funkcij) {
                    Some(x) => x,
                    None => {
                        return None;
                    },
                };
                x.append(s.as_str());
                Some(x)
            },
            Vozlisce::Vrni(p) => {
                let f = *st_funkcij;
                let mut za = besedilo("goto vrni_");
                dodaj_desetisko(&mut za, f);
                za.append(";\n");
                obdaj_o(String::new(), p.v_cpp(st_skokov, st_funkcij), za)
            },
            Vozlisce::Zaporedje(vs) => {
                let mut r = String::new();
                let mut i: usize = 0;
                while i < vs.len()
                    invariant
                        0 <= i <= vs@.len(),
                        *self == Vozlisce::Zaporedje(*vs),
                        sk0 == *old(st_skokov),
                        fu0 == *old(st_funkcij),
                        cpp_vseh(vs@, i as int, sk0, fu0) == Some((r@, *st_skokov, *st_funkcij)),
                    decreases vs@.len() - i,
                {
                    proof {
                        assert(decreases_to!(*self => self->Zaporedje_0));
                        assert(self->Zaporedje_0 == *vs);
                        assert(decreases_to!(*vs => vs@));
                        assert(decreases_to!(vs@ => vs@[i as int]));
                        assert(decreases_to!(*self => *vs@[i as int]));
                    }
                    let ghost ps = *st_skokov;
                    let ghost pf = *st_funkcij;
                    let x = match vs[i].v_cpp(st_skokov, st_funkcij) {
                        Some(x) => x,
                        None => {
                            proof {
                                assert(cpp_vozlisca(*vs@[i as int], ps, pf) is None);
                                assert(cpp_vseh(vs@, i as int + 1, sk0, fu0) is None);
                                lema_vseh_none(vs@, i as int + 1, vs@.len() as int, sk0, fu0);
                                assert(cpp_vozlisca(*self, sk0, fu0) == cpp_vseh(vs@, vs@.len() as int, sk0, fu0));
                            }
                            return None;
                        },
                    };
                    r.append(x.as_str());
                    i = i + 1;
                }
                Some(r)
            },
            Vozlisce::Okvir { zaporedje, st_spr } => {
                if *st_spr == i32::MIN {
                    return None;
                }
                obdaj_o(
                    z_stevilom("stack.resize(stack.size() + ", *st_spr as i64, ");\n"),
                    zaporedje.v_cpp(st_skokov, st_funkcij),
                    z_stevilom("stack.resize(stack.size() + ", -(*st_spr as i64), ");\n"),
                )
            },
            _ => None,
        }
    }

    /// C++ source of a function or a call (see `cpp_vozlisca`).
    #[verifier::rlimit(60)]
    fn cpp_funkcija(&self, st_skokov: &mut u64, st_funkcij: &mut u64) -> (r: Option<String>)
        requires
            *self is Funkcija || *self is FunkcijskiKlic,
        ensures
            match r {
                Some(c) => cpp_vozlisca(*self, *old(st_skokov), *old(st_funkcij)) == Some((c@, *final(st_skokov), *final(st_funkcij))),
                None => cpp_vozlisca(*self, *old(st_skokov), *old(st_funkcij)) is None,
            },
        decreases self, 1int,
    {
        match self {
            Vozlisce::Funkcija { tip, ime, parametri, telo, prostor } => {
                let ts = match tip.velikost_preverjena() {
                    Some(ts) => ts,
                    None => {
                        return None;
                    },
                };
                let pv = match crate::prevajanje::velikost_parametrov(parametri) {
                    Some(pv) => pv,
                    None => {
                        return None;
                    },
                };
                let sp = match sprosti_o(*prostor) {
                    Some(sp) => sp,
                    None => {
                        return None;
                    },
                };
                let spv = match sprosti_o(pv) {
                    Some(spv) => spv,
                    None => {
                        return None;
                    },
                };
                if ts == i32::MIN {
                    return None;
                }
                let c1 = -ts;
                if c1 == i32::MIN {
                    return None;
                }
                let c2 = c1 - 1;
                let c3 = match c2.checked_sub(pv) {
                    Some(c3) => c3,
                    None => {
                        return None;
                    },
                };
                if c3 == i32::MIN {
                    return None;
                }
                let vrh = c3 - 1;
                if *st_funkcij == u64::MAX {
                    return None;
                }
                let f = *st_funkcij;
                let ime_c = v_veljavno_ime_funkcije(ime.as_str());
                let mut pred = besedilo("void ");
                pred.append(ime_c.as_str());
                pred.append("()\n{\n");
                pred.append("stack.push_back(Podatek { i: *addroff });\n");
                pred.append(z_stevilom("addroff = stack.size() + ", vrh as i64, ";\n").as_str());
                let mut za = besedilo("vrni_");
                dodaj_desetisko(&mut za, f);
                za.append(":\n");
                za.append(sp.as_str());
                za.append("addroff = stack.back().i; stack.pop_back()\n");
                za.append(spv.as_str());
                za.append("}\n");
                *st_funkcij = f + 1;
                obdaj_o(pred, telo.v_cpp(st_skokov, st_funkcij), za)
            },
            Vozlisce::FunkcijskiKlic { funkcija, spremenljivke, argumenti } => match &**funkcija {
                Vozlisce::Funkcija { tip, ime, .. } => {
                    let ts = match tip.velikost_preverjena() {
                        Some(ts) => ts,
                        None => {
                            return None;
                        },
                    };
                    let mut r = match spremenljivke.v_cpp(st_skokov, st_funkcij) {
                        Some(s) => s,
                        None => {
                            return None;
                        },
                    };
                    r.append(z_stevilom("stack.resize(stack.size() + ", ts as i64, ");\n").as_str());
                    let a = match argumenti.v_cpp(st_skokov, st_funkcij) {
                        Some(a) => a,
                        None => {
                            return None;
                        },
                    };
                    r.append(a.as_str());
                    let mut klic = v_veljavno_ime_funkcije(ime.as_str());
                    klic.append("();\n");
                    r.append(klic.as_str());
                    Some(r)
                },
                _ => None,
            },
            _ => None,
        }
    }
}


/// Once the source of a prefix of the nodes is missing, so is that of every
/// longer prefix.
proof fn lema_vseh_none(s: Seq<Rc<Vozlisce>>, k: int, m: int, sk: u64, fu: u64)
    requires
        0 < k <= m <= s.len(),
        cpp_vseh(s, k, sk, fu) is None,
    ensures
        cpp_vseh(s, m, sk, fu) is None,
    decreases m - k,
{
    if k < m {
        lema_vseh_none(s, k, m - 1, sk, fu);
    }
}

} // verus!
