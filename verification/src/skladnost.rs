//! Laws that tie the stages together: what the reader builds for an
//! operator, what the evaluator computes of a node, what the compiled code
//! does on the machine, what the C++ and x86 back ends emit for the
//! machine's instructions, and which operation on real numbers each of them
//! asks for.

use crate::cpp::{aritmetika, bitna as bitna_cpp, cpp_vozlisca, operator, push, v_oklepajih};
use crate::besedilo::desetisko_celo;
use crate::zazeni::{deli_proti_nic, potenca_ovito, v_i32};
use crate::fasm::{ArO, InstrV, Op, R};
use crate::nativno::izbira_osnovnega;
use vstd::wrapping::i32_specs::{wrapping_add, wrapping_mul, wrapping_sub};
use crate::prevajanje::{aritmeticni, bitni, nadaljuj, obdaj, osn, osnovni, prevedeno, stevec};
use crate::program::{Podatek, UkazPodatek};
use crate::racun::{izracun, konstanta, rezultat_realne, operacija, IzidV, Konstanta, RealnaOperacija};
use crate::tip::TipV;
use crate::vmesna_koda::UkazRelV;
use crate::vozlisce::Vozlisce;
use crate::izraz::{aritmeticna, primerjalna, bitna as bitna_izraza, sestavi_tipa, IzidIzraza};
use crate::lekser::Zeton;
use crate::pogled::{pogled, VozelV};
use crate::zazeni::{korak_spec, Dejanje, Korak, RealnaOp};
use vstd::prelude::*;

verus! {

/// Whether the node is a bitwise operation on two whole numbers.
pub open spec fn je_bitna(v: Vozlisce) -> bool {
    v is BitniAli || v is BitniXor || v is BitniIn || v is BitniPremikLevo || v is BitniPremikDesno
}

/// The stack with the cells `a` and `b` pushed on it.
pub open spec fn z_dvema(s: Seq<Podatek>, a: i32, b: i32) -> Seq<Podatek> {
    s.push(Podatek { i: a }).push(Podatek { i: b })
}

/// The compiled code of a node; none where it has none.
pub open spec fn koda(v: Vozlisce, n: u64, kl: Seq<Seq<char>>) -> Seq<UkazRelV> {
    match prevedeno(v, n, kl) {
        Some((c, _)) => c,
        None => Seq::empty(),
    }
}

/// The basic instruction that the code ends in, if it ends in one.
pub open spec fn zadnji_osnovni(c: Seq<UkazRelV>) -> Option<UkazPodatek> {
    if c.len() > 0 {
        match c.last() {
            UkazRelV::Osnovni(u) => Some(u),
            _ => None,
        }
    } else {
        None
    }
}

/// The step that replaces the top two cells by the value that the
/// evaluator gives the node on the whole numbers `a` and `b`; an undefined
/// step where it gives none.
pub open spec fn korak_vrednosti(
    v: Vozlisce,
    s: Seq<Podatek>,
    a: i32,
    b: i32,
    pc: int,
    odmik: int,
    t: Seq<(RealnaOperacija, u32, u32, u32)>,
) -> Korak {
    match operacija(v, Konstanta::Celo(a), Konstanta::Celo(b), t) {
        Some(IzidV::Vrednost(Konstanta::Celo(r))) => Korak::Naprej(s.push(Podatek { i: r }), pc + 1, odmik, Dejanje::Naprej),
        _ => Korak::Nedoloceno,
    }
}

/// The compiled code of a bitwise node ends in an instruction that, on a
/// stack whose top two cells hold whole numbers `a` and `b`, replaces them
/// by the value that the evaluator gives the node on `a` and `b`; where the
/// evaluator gives none (a shift not below 32), the step is undefined.
/// (The machine's counter and stack stay within `i32`.)
pub proof fn zakon_koda_bitne_operacije(
    v: Vozlisce,
    n: u64,
    kl: Seq<Seq<char>>,
    s: Seq<Podatek>,
    a: i32,
    b: i32,
    pc: int,
    odmik: int,
    t: Seq<(RealnaOperacija, u32, u32, u32)>,
)
    requires
        je_bitna(v),
        prevedeno(v, n, kl) is Some,
        pc < i32::MAX,
        s.len() + 2 <= i32::MAX,
    ensures
        zadnji_osnovni(koda(v, n, kl)) is Some,
        korak_spec(zadnji_osnovni(koda(v, n, kl))->0, z_dvema(s, a, b), pc, odmik) == korak_vrednosti(
            v,
            s,
            a,
            b,
            pc,
            odmik,
            t,
        ),
{
    match v {
        Vozlisce::BitniAli(l, d) | Vozlisce::BitniXor(l, d) | Vozlisce::BitniIn(l, d) | Vozlisce::BitniPremikLevo(l, d)
        | Vozlisce::BitniPremikDesno(l, d) => {
            let z = osnovni(bitni(v));
            assert(z.len() == 1);
            assert(z[0] == osn(bitni(v)[0]));
            assert(prevedeno(v, n, kl) == obdaj(
                Seq::empty(),
                nadaljuj(prevedeno(*l, n, kl), prevedeno(*d, stevec(prevedeno(*l, n, kl)), kl)),
                z,
            ));
            assert(koda(v, n, kl).last() == z[0]);
        },
        _ => {},
    }
    let st = z_dvema(s, a, b);
    assert(st.len() >= 2 && st[st.len() - 2].i == a && st[st.len() - 1].i == b);
    assert forall|x: i32| #[trigger] st.drop_last().update(st.len() - 2, Podatek { i: x }) == s.push(Podatek { i: x }) by {
        assert(st.drop_last().update(st.len() - 2, Podatek { i: x }) =~= s.push(Podatek { i: x }));
    }
}

/// Whether the machine's request for an operation on real numbers and the
/// evaluator's are for the same operation.
pub open spec fn ista_realna(m: RealnaOp, e: RealnaOperacija) -> bool {
    match (m, e) {
        (RealnaOp::Sestej, RealnaOperacija::Vsota) => true,
        (RealnaOp::Odstej, RealnaOperacija::Razlika) => true,
        (RealnaOp::Zmnozi, RealnaOperacija::Zmnozek) => true,
        (RealnaOp::Deli, RealnaOperacija::Kolicnik) => true,
        (RealnaOp::Ostanek, RealnaOperacija::Ostanek) => true,
        (RealnaOp::Potenciraj, RealnaOperacija::Potenca) => true,
        (RealnaOp::VCelo, RealnaOperacija::VCelo) => true,
        (RealnaOp::VReal, RealnaOperacija::IzCelega) => true,
        _ => false,
    }
}

/// Whether a step asks the caller for the same operation on the same bits
/// as the evaluator's outcome does.
pub open spec fn enaka_zahteva(k: Korak, r: Option<IzidV>) -> bool {
    match (k, r) {
        (Korak::Naprej(_, _, _, Dejanje::Realno(op, x, y)), Some(IzidV::Realno(e, ea, eb))) => ista_realna(op, e) && x.i
            as u32 == ea && y.i as u32 == eb,
        _ => false,
    }
}

/// The stack, counter and frame base after a step that goes on.
pub open spec fn stanje_po(k: Korak) -> Option<(Seq<Podatek>, int, int)> {
    match k {
        Korak::Naprej(s, p, o, _) => Some((s, p, o)),
        _ => None,
    }
}

/// Whether the node is arithmetic on real numbers.
pub open spec fn je_realna_aritmetika(v: Vozlisce) -> bool {
    match v {
        Vozlisce::Add(t, ..) | Vozlisce::Sub(t, ..) | Vozlisce::Mul(t, ..) | Vozlisce::Div(t, ..)
        | Vozlisce::Mod(t, ..) | Vozlisce::Pow(t, ..) => t@ == TipV::Real,
        _ => false,
    }
}

/// The compiled code of arithmetic on real numbers ends in an instruction
/// that, on a stack whose top two cells hold the bits `p` and `q`, pops one
/// of them and asks the caller for the same operation on the same bits that
/// the evaluator asks for when it has no result at hand.
pub proof fn zakon_koda_realne_aritmetike(
    v: Vozlisce,
    n: u64,
    kl: Seq<Seq<char>>,
    s: Seq<Podatek>,
    p: i32,
    q: i32,
    pc: int,
    odmik: int,
)
    requires
        je_realna_aritmetika(v),
        prevedeno(v, n, kl) is Some,
        pc < i32::MAX,
        s.len() + 2 <= i32::MAX,
    ensures
        zadnji_osnovni(koda(v, n, kl)) is Some,
        enaka_zahteva(
            korak_spec(zadnji_osnovni(koda(v, n, kl))->0, z_dvema(s, p, q), pc, odmik),
            operacija(v, Konstanta::Real(p as u32), Konstanta::Real(q as u32), Seq::empty()),
        ),
        stanje_po(korak_spec(zadnji_osnovni(koda(v, n, kl))->0, z_dvema(s, p, q), pc, odmik)) == Some(
            (s.push(Podatek { i: p }), pc + 1, odmik),
        ),
{
    match v {
        Vozlisce::Add(_, l, d) | Vozlisce::Sub(_, l, d) | Vozlisce::Mul(_, l, d) | Vozlisce::Div(_, l, d)
        | Vozlisce::Mod(_, l, d) | Vozlisce::Pow(_, l, d) => {
            let u = aritmeticni(v)->0;
            assert(prevedeno(v, n, kl) == obdaj(
                Seq::empty(),
                nadaljuj(prevedeno(*l, n, kl), prevedeno(*d, stevec(prevedeno(*l, n, kl)), kl)),
                seq![osn(u)],
            ));
            assert(koda(v, n, kl).last() == osn(u));
        },
        _ => {},
    }
    let st = z_dvema(s, p, q);
    assert(st.drop_last() =~= s.push(Podatek { i: p }));
}

/// Whether the node converts the literal `q`: a whole number made real, or
/// the real number with the bits `q` made whole.
pub open spec fn pretvorba_literala(v: Vozlisce, q: i32) -> bool {
    match v {
        Vozlisce::CeloVReal(x) => *x == Vozlisce::Celo(q),
        Vozlisce::RealVCelo(x) => *x == Vozlisce::Real(q as u32),
        _ => false,
    }
}

/// The compiled code of a conversion between whole and real numbers ends in
/// an instruction that, on a stack whose top cell holds `q`, keeps the
/// stack and asks the caller for the same conversion of the same bits that
/// the evaluator asks for on the literal `q`.
pub proof fn zakon_koda_pretvorbe(
    v: Vozlisce,
    n: u64,
    kl: Seq<Seq<char>>,
    s: Seq<Podatek>,
    q: i32,
    pc: int,
    odmik: int,
    izraz: Seq<Zeton>,
)
    requires
        pretvorba_literala(v, q),
        prevedeno(v, n, kl) is Some,
        pc < i32::MAX,
        s.len() + 1 <= i32::MAX,
    ensures
        zadnji_osnovni(koda(v, n, kl)) is Some,
        enaka_zahteva(
            korak_spec(zadnji_osnovni(koda(v, n, kl))->0, s.push(Podatek { i: q }), pc, odmik),
            izracun(v, izraz, Seq::empty()),
        ),
        stanje_po(korak_spec(zadnji_osnovni(koda(v, n, kl))->0, s.push(Podatek { i: q }), pc, odmik)) == Some(
            (s.push(Podatek { i: q }), pc + 1, odmik),
        ),
{
    match v {
        Vozlisce::CeloVReal(x) | Vozlisce::RealVCelo(x) => {
            let u = if v is CeloVReal {
                UkazPodatek::ITOF
            } else {
                UkazPodatek::FTOI
            };
            assert(prevedeno(v, n, kl) == obdaj(Seq::empty(), prevedeno(*x, n, kl), seq![osn(u)]));
            assert(koda(v, n, kl).last() == osn(u));
            assert(izracun(*x, izraz, Seq::empty()) == Some(IzidV::Vrednost(konstanta(*x))));
            assert(forall|o: RealnaOperacija, ea: u32, eb: u32| #[trigger] rezultat_realne(Seq::empty(), o, ea, eb) is None);
        },
        _ => {},
    }
    let st = s.push(Podatek { i: q });
    assert(st[st.len() - 1] == Podatek { i: q });
}

/// The value of the language's bit operator `op` on the whole numbers `a`
/// and `b`: or, exclusive or, and, and shifts by fewer than 32 places to
/// the left and to the right; none for another text or a shift out of
/// range.
pub open spec fn pomen_bitnega(op: Seq<char>, a: i32, b: i32) -> Option<i32> {
    if op == "|"@ {
        Some(a | b)
    } else if op == "^"@ {
        Some(a ^ b)
    } else if op == "&"@ {
        Some(a & b)
    } else if op == "<<"@ {
        if 0 <= b < 32 {
            Some(a << (b as u32))
        } else {
            None
        }
    } else if op == ">>"@ {
        if 0 <= b < 32 {
            Some(a >> (b as u32))
        } else {
            None
        }
    } else {
        None
    }
}

/// Whether the text is one of the language's bit operators.
pub open spec fn je_bitni_operator(op: Seq<char>) -> bool {
    op == "|"@ || op == "^"@ || op == "&"@ || op == "<<"@ || op == ">>"@
}

/// A whole-number value, as the evaluator gives it.
pub open spec fn celo_ali_nic(r: Option<i32>) -> Option<IzidV> {
    match r {
        Some(x) => Some(IzidV::Vrednost(Konstanta::Celo(x))),
        None => None,
    }
}

/// A node whose value is the whole number `a` is the literal `a`.
proof fn lema_celo_iz_pogleda(y: &Vozlisce, a: i32)
    requires
        pogled(*y) == VozelV::Celo(a),
    ensures
        *y == Vozlisce::Celo(a),
{
    match y {
        Vozlisce::Celo(_) => {},
        _ => {},
    }
}

/// The reader builds a node for exactly the bit operators of the language.
pub proof fn zakon_bitni_operatorji(op: Seq<char>, a: Box<VozelV>, b: Box<VozelV>)
    ensures
        (bitna_izraza(op, a, b) is Some) == je_bitni_operator(op),
{
}

/// The node that the reader builds for a bit operator `op` on the literals
/// `a` and `b` has, when evaluated, the value that the operator has on `a`
/// and `b` (so `6 ^ 3` is 5 and `6 | 3` is 7).
pub proof fn zakon_bitni_operator(
    op: Seq<char>,
    x: Vozlisce,
    a: i32,
    b: i32,
    izraz: Seq<Zeton>,
    t: Seq<(RealnaOperacija, u32, u32, u32)>,
)
    requires
        bitna_izraza(op, Box::new(VozelV::Celo(a)), Box::new(VozelV::Celo(b))) == Some(pogled(x)),
    ensures
        izracun(x, izraz, t) == celo_ali_nic(pomen_bitnega(op, a, b)),
{
    match x {
        Vozlisce::BitniAli(l, d) | Vozlisce::BitniXor(l, d) | Vozlisce::BitniIn(l, d) | Vozlisce::BitniPremikLevo(l, d)
        | Vozlisce::BitniPremikDesno(l, d) => {
            lema_celo_iz_pogleda(&*l, a);
            lema_celo_iz_pogleda(&*d, b);
            assert(izracun(*l, izraz, t) == Some(IzidV::Vrednost(Konstanta::Celo(a))));
            assert(izracun(*d, izraz, t) == Some(IzidV::Vrednost(Konstanta::Celo(b))));
        },
        _ => {},
    }
}

/// At the levels of bit operators, the node that the reader builds for a
/// bit operator on two whole-number literals has the operator's value, with
/// the left literal as the left operand.
pub proof fn zakon_sestava_bitnega(
    k: int,
    op: Zeton,
    x: Vozlisce,
    a: i32,
    b: i32,
    izraz: Seq<Zeton>,
    t: Seq<(RealnaOperacija, u32, u32, u32)>,
)
    requires
        2 <= k <= 5,
        sestavi_tipa(k, op, VozelV::Celo(a), VozelV::Celo(b), TipV::Celo, TipV::Celo) == IzidIzraza::Drevo(pogled(x)),
    ensures
        izracun(x, izraz, t) == celo_ali_nic(pomen_bitnega(op.besedilo()@, a, b)),
{
    zakon_bitni_operator(op.besedilo()@, x, a, b, izraz, t);
}

/// The value of the C++ operator `o` on two `int`s `a` and `b`, for the
/// operators on whole numbers: `|`, `^`, `&`, `+`, `-`, `*`, `/` and `%`
/// (truncating toward zero), and shifts `<<` and `>>` by fewer than 32
/// places; none for other text and where C++ leaves the value undefined (a
/// shift out of range, a sum, difference or product outside `int`, a zero
/// divisor, the least number divided by -1).
pub open spec fn pomen_cpp(o: Seq<char>, a: i32, b: i32) -> Option<i32> {
    if o.len() == 1 && o[0] == '|' {
        Some(a | b)
    } else if o.len() == 1 && o[0] == '^' {
        Some(a ^ b)
    } else if o.len() == 1 && o[0] == '&' {
        Some(a & b)
    } else if o.len() == 1 && o[0] == '+' {
        if v_i32(a + b) {
            Some((a + b) as i32)
        } else {
            None
        }
    } else if o.len() == 1 && o[0] == '-' {
        if v_i32(a - b) {
            Some((a - b) as i32)
        } else {
            None
        }
    } else if o.len() == 1 && o[0] == '*' {
        if v_i32(a * b) {
            Some((a * b) as i32)
        } else {
            None
        }
    } else if o.len() == 1 && o[0] == '/' {
        if b == 0 || (a == i32::MIN && b == -1) {
            None
        } else {
            Some(deli_proti_nic(a as int, b as int) as i32)
        }
    } else if o.len() == 1 && o[0] == '%' {
        if b == 0 || (a == i32::MIN && b == -1) {
            None
        } else {
            Some((a - b * deli_proti_nic(a as int, b as int)) as i32)
        }
    } else if o.len() == 2 && o[0] == '<' && o[1] == '<' {
        if 0 <= b < 32 {
            Some(a << (b as u32))
        } else {
            None
        }
    } else if o.len() == 2 && o[0] == '>' && o[1] == '>' {
        if 0 <= b < 32 {
            Some(a >> (b as u32))
        } else {
            None
        }
    } else {
        None
    }
}

/// Whether the text is a C++ operator on whole numbers (see `pomen_cpp`).
pub open spec fn je_cpp_operator(o: Seq<char>) -> bool {
    (o.len() == 1 && (o[0] == '|' || o[0] == '^' || o[0] == '&' || o[0] == '+' || o[0] == '-' || o[0] == '*' || o[0] == '/'
        || o[0] == '%')) || (o.len()
        == 2 && o[0] == o[1] && (o[0] == '<' || o[0] == '>'))
}

/// Whether the C++ line applies the operator `o` (followed by at most one
/// space) to the two whole numbers on the top of the stack.
pub open spec fn vrstica_operatorja(vrstica: Seq<char>, o: Seq<char>) -> bool {
    vrstica == operator("i"@, o) || vrstica == operator("i"@, o + " "@)
}

/// The C++ line that pushes the whole number `x`.
pub open spec fn potisk_cpp(x: i32) -> Seq<char> {
    push(v_oklepajih(desetisko_celo(x as int)))
}

/// Whether the node's operands are the literals `a` and `b`.
pub open spec fn operanda(v: Vozlisce, a: i32, b: i32) -> bool {
    match v {
        Vozlisce::BitniAli(l, d) | Vozlisce::BitniXor(l, d) | Vozlisce::BitniIn(l, d) | Vozlisce::BitniPremikLevo(l, d)
        | Vozlisce::BitniPremikDesno(l, d) => *l == Vozlisce::Celo(a) && *d == Vozlisce::Celo(b),
        _ => false,
    }
}

/// A text that stands between the same two texts is the same.
proof fn lema_sredina(p: Seq<char>, x: Seq<char>, y: Seq<char>, q: Seq<char>)
    requires
        p + x + q == p + y + q,
    ensures
        x == y,
{
    let a = p + x + q;
    assert(a.len() == p.len() + x.len() + q.len());
    assert((p + y + q).len() == p.len() + y.len() + q.len());
    assert(x.len() == y.len());
    assert(x =~= a.subrange(p.len() as int, (p.len() + x.len()) as int));
    assert(y =~= (p + y + q).subrange(p.len() as int, (p.len() + y.len()) as int));
}

/// What an operator line has before its operator.
spec fn pred_operatorjem() -> Seq<char> {
    "stack.back()."@ + "i"@ + " = "@ + ("stack[stack.size() - 2]."@ + "i"@ + " "@)
}

/// What an operator line has after its operator.
spec fn za_operatorjem() -> Seq<char> {
    " stack.back()."@ + "i"@ + "; stack.pop_back();\n"@
}

/// A line that applies `o` where another applies `w` has `w` for `o`, or
/// `o` and a space.
proof fn lema_operator_vrstice(w: Seq<char>, o: Seq<char>)
    requires
        vrstica_operatorja(operator("i"@, w), o),
    ensures
        o == w || o + " "@ == w,
{
    assert(operator("i"@, w) =~= pred_operatorjem() + w + za_operatorjem());
    assert(operator("i"@, o) =~= pred_operatorjem() + o + za_operatorjem());
    assert(operator("i"@, o + " "@) =~= pred_operatorjem() + (o + " "@) + za_operatorjem());
    if operator("i"@, w) == operator("i"@, o) {
        lema_sredina(pred_operatorjem(), o, w, za_operatorjem());
    } else {
        lema_sredina(pred_operatorjem(), o + " "@, w, za_operatorjem());
    }
}

/// The operator of a line written as `w`: `w` without a trailing space.
spec fn brez_presledka(w: Seq<char>) -> Seq<char> {
    if w.len() == 2 && w[1] == ' ' {
        w.subrange(0, 1)
    } else {
        w
    }
}

/// The operator text of the line of a bitwise node.
spec fn besedilo_bitne(v: Vozlisce) -> Seq<char> {
    match v {
        Vozlisce::BitniAli(..) => "| "@,
        Vozlisce::BitniXor(..) => "^ "@,
        Vozlisce::BitniIn(..) => "& "@,
        Vozlisce::BitniPremikLevo(..) => "<<"@,
        _ => ">>"@,
    }
}

/// The operators that the line of a bitwise node applies.
proof fn lema_operator_bitne(v: Vozlisce, o: Seq<char>, a: i32, b: i32, t: Seq<(RealnaOperacija, u32, u32, u32)>)
    requires
        je_bitna(v),
    ensures
        je_cpp_operator(brez_presledka(besedilo_bitne(v))),
        vrstica_operatorja(bitna_cpp(v), brez_presledka(besedilo_bitne(v))),
        je_cpp_operator(o) && vrstica_operatorja(bitna_cpp(v), o) ==> celo_ali_nic(pomen_cpp(o, a, b)) == operacija(
            v,
            Konstanta::Celo(a),
            Konstanta::Celo(b),
            t,
        ),
{
    reveal_strlit("| ");
    reveal_strlit("^ ");
    reveal_strlit("& ");
    reveal_strlit("<<");
    reveal_strlit(">>");
    reveal_strlit(" ");
    let w = besedilo_bitne(v);
    assert(bitna_cpp(v) == operator("i"@, w));
    let o0 = brez_presledka(w);
    if w.len() == 2 && w[1] == ' ' {
        assert(o0 + " "@ =~= w);
    }
    if je_cpp_operator(o) && vrstica_operatorja(bitna_cpp(v), o) {
        lema_operator_vrstice(w, o);
        if o + " "@ == w {
            assert(o.len() == 1);
            assert(o[0] == (o + " "@)[0]);
        } else {
            assert(o == w);
        }
    }
}

/// The C++ source of a bitwise operation on the literals `a` and `b`
/// pushes `a`, pushes `b`, and applies a C++ operator to them; whatever
/// operator the line applies, its value on `a` and `b` is the value that
/// the evaluator gives the node (so the C++ program computes what the
/// machine does).
pub proof fn zakon_cpp_bitne_operacije(
    v: Vozlisce,
    sk: u64,
    fu: u64,
    a: i32,
    b: i32,
    t: Seq<(RealnaOperacija, u32, u32, u32)>,
)
    requires
        operanda(v, a, b),
    ensures
        cpp_vozlisca(v, sk, fu) == Some((potisk_cpp(a) + potisk_cpp(b) + bitna_cpp(v), sk, fu)),
        exists|o: Seq<char>| #[trigger] je_cpp_operator(o) && vrstica_operatorja(bitna_cpp(v), o),
        forall|o: Seq<char>|
            #[trigger] je_cpp_operator(o) && vrstica_operatorja(bitna_cpp(v), o) ==> celo_ali_nic(pomen_cpp(o, a, b))
                == operacija(v, Konstanta::Celo(a), Konstanta::Celo(b), t),
{
    lema_operator_bitne(v, Seq::empty(), a, b, t);
    let o0 = brez_presledka(besedilo_bitne(v));
    assert(je_cpp_operator(o0) && vrstica_operatorja(bitna_cpp(v), o0));
    assert forall|o: Seq<char>|
        #[trigger] je_cpp_operator(o) && vrstica_operatorja(bitna_cpp(v), o) implies celo_ali_nic(pomen_cpp(o, a, b))
            == operacija(v, Konstanta::Celo(a), Konstanta::Celo(b), t) by {
        lema_operator_bitne(v, o, a, b, t);
    }
    match v {
        Vozlisce::BitniAli(l, d) | Vozlisce::BitniXor(l, d) | Vozlisce::BitniIn(l, d) | Vozlisce::BitniPremikLevo(l, d)
        | Vozlisce::BitniPremikDesno(l, d) => {
            assert(cpp_vozlisca(*l, sk, fu) == Some((potisk_cpp(a), sk, fu)));
            assert(cpp_vozlisca(*d, sk, fu) == Some((potisk_cpp(b), sk, fu)));
        },
        _ => {},
    }
}

/// The general-purpose register that a register name is part of: 0 for
/// `rax`, `eax`, `al`; 1 for `rbx`, `ebx`, `bl`; 2 for `rcx`, `ecx`, `cl`; 3
/// for `rdx`; 4 for the others, which this model leaves out.
pub open spec fn druzina(r: R) -> int {
    match r {
        R::Rax | R::Eax | R::Al => 0,
        R::Rbx | R::Ebx | R::Bl => 1,
        R::Rcx | R::Ecx | R::Cl => 2,
        R::Rdx => 3,
        _ => 4,
    }
}

/// The low 32 bits that the x86 instruction `op` leaves in its destination
/// `d` with the source `s`: wrapping sum, difference and product, or,
/// exclusive or, and; a left shift and a logical right shift, by counts
/// below 32 (x86 takes the count modulo 32, which leaves these unchanged),
/// the right shift of a number whose top bit is clear (for which the
/// logical shift is the arithmetic one); none otherwise.
pub open spec fn pomen_x86(op: ArO, d: i32, s: i32) -> Option<i32> {
    match op {
        ArO::Add => Some(wrapping_add(d, s)),
        ArO::Sub => Some(wrapping_sub(d, s)),
        ArO::IMul => Some(wrapping_mul(d, s)),
        ArO::Or => Some(d | s),
        ArO::Xor => Some(d ^ s),
        ArO::And => Some(d & s),
        ArO::Shl => if 0 <= s < 32 {
            Some(d << (s as u32))
        } else {
            None
        },
        ArO::Shr => if 0 <= s < 32 && d >= 0 {
            Some(d >> (s as u32))
        } else {
            None
        },
    }
}

/// An x86 machine as this model sees it: the low 32 bits of each stack
/// slot (the last is the top) and of the four registers.
pub ghost struct X86 {
    pub sklad: Seq<i32>,
    pub reg: Seq<i32>,
}

/// What the sign extension of `x` puts in the upper half: all ones for a
/// negative number, else zero.
pub open spec fn predznak(x: i32) -> i32 {
    if x < 0 {
        -1i32
    } else {
        0i32
    }
}

/// One x86 instruction: a pop into a register, a push of a register, an
/// arithmetic or logic instruction between registers, the sign extension
/// of `eax` into `edx`, and the signed division of `edx:eax` (as extended
/// from `eax`) by a register, which leaves the quotient, truncated toward
/// zero, in `eax` and the remainder in `edx`, and faults on a zero divisor
/// or a quotient outside `i32`; none for another instruction or an empty
/// stack.
pub open spec fn korak_x86(i: InstrV, m: X86) -> Option<X86> {
    match i {
        InstrV::Pop(Op::Reg(r)) => if m.sklad.len() > 0 && druzina(r) < 4 {
            Some(X86 { sklad: m.sklad.drop_last(), reg: m.reg.update(druzina(r), m.sklad.last()) })
        } else {
            None
        },
        InstrV::Push(Op::Reg(r)) => if druzina(r) < 4 {
            Some(X86 { sklad: m.sklad.push(m.reg[druzina(r)]), reg: m.reg })
        } else {
            None
        },
        InstrV::ArOp(op, d, Op::Reg(r)) => if druzina(d) < 4 && druzina(r) < 4 {
            match pomen_x86(op, m.reg[druzina(d)], m.reg[druzina(r)]) {
                Some(x) => Some(X86 { sklad: m.sklad, reg: m.reg.update(druzina(d), x) }),
                None => None,
            }
        } else {
            None
        },
        InstrV::Cdq => Some(X86 { sklad: m.sklad, reg: m.reg.update(3, predznak(m.reg[0])) }),
        InstrV::IDiv(r) => if druzina(r) < 4 && m.reg[druzina(r)] != 0 && m.reg[3] == predznak(m.reg[0]) && v_i32(deli_proti_nic(m.reg[0] as int, m.reg[druzina(r)] as int)) {
            let q = deli_proti_nic(m.reg[0] as int, m.reg[druzina(r)] as int);
            Some(X86 { sklad: m.sklad, reg: m.reg.update(0, q as i32).update(3, (m.reg[0] - m.reg[druzina(r)] * q) as i32) })
        } else {
            None
        },
        _ => None,
    }
}

/// The instructions run one after the other.
pub open spec fn izvedi_x86(a: Seq<InstrV>, m: X86) -> Option<X86>
    decreases a.len(),
{
    if a.len() == 0 {
        Some(m)
    } else {
        match korak_x86(a[0], m) {
            Some(m2) => izvedi_x86(a.drop_first(), m2),
            None => None,
        }
    }
}

/// The stack that the x86 code of the machine's instruction `u` leaves,
/// run on the stack `s` with `a` and `b` pushed.
pub open spec fn sklad_x86(u: UkazPodatek, s: Seq<i32>, reg: Seq<i32>, a: i32, b: i32) -> Option<Seq<i32>> {
    match izbira_osnovnega(u) {
        Some(c) => match izvedi_x86(c, X86 { sklad: s.push(a).push(b), reg }) {
            Some(m) => Some(m.sklad),
            None => None,
        },
        None => None,
    }
}

/// The cell that one step of the machine on `u` leaves of the cells `a` and
/// `b`; none where the step does not go on with one cell.
pub open spec fn vrh_stroja(u: UkazPodatek, a: i32, b: i32) -> Option<i32> {
    match korak_spec(u, z_dvema(Seq::empty(), a, b), 0, 0) {
        Korak::Naprej(st, _, _, _) => if st.len() == 1 {
            Some(st[0].i)
        } else {
            None
        },
        _ => None,
    }
}

/// Whether the instruction is whole-number arithmetic or a bitwise
/// operation on the top two cells.
pub open spec fn je_celostevilska(u: UkazPodatek) -> bool {
    u is ADDI || u is SUBI || u is MULI || u is BOR || u is BXOR || u is BAND || u is BSLL || u is BSLR
}

/// The x86 code of a whole-number or bitwise instruction of the machine,
/// run on a stack whose top two slots hold `a` and `b`, leaves the stack
/// below them with the cell that one step of the machine leaves: the shifts
/// by counts below 32, and the right shift of a number that is not
/// negative (the code shifts logically, the machine arithmetically).
pub proof fn zakon_x86_celostevilske(u: UkazPodatek, s: Seq<i32>, reg: Seq<i32>, a: i32, b: i32)
    requires
        je_celostevilska(u),
        reg.len() == 4,
        (u is BSLL || u is BSLR) ==> 0 <= b < 32,
        u is BSLR ==> a >= 0,
    ensures
        vrh_stroja(u, a, b) is Some,
        sklad_x86(u, s, reg, a, b) == Some(s.push(vrh_stroja(u, a, b)->0)),
{
    let st = z_dvema(Seq::<Podatek>::empty(), a, b);
    assert(st.len() == 2 && st[0].i == a && st[1].i == b);
    assert forall|x: i32| #[trigger] st.drop_last().update(0, Podatek { i: x }) == seq![Podatek { i: x }] by {
        assert(st.drop_last().update(0, Podatek { i: x }) =~= seq![Podatek { i: x }]);
    }
    let c = izbira_osnovnega(u)->0;
    let m0 = X86 { sklad: s.push(a).push(b), reg };
    assert(c.len() == 4);
    let m1 = korak_x86(c[0], m0)->0;
    let m2 = korak_x86(c[1], m1)->0;
    let m3 = korak_x86(c[2], m2)->0;
    let m4 = korak_x86(c[3], m3)->0;
    let d1 = c.drop_first();
    let d2 = d1.drop_first();
    let d3 = d2.drop_first();
    assert(d1[0] == c[1] && d2[0] == c[2] && d3[0] == c[3]);
    assert(d3.len() == 1 && d3.drop_first().len() == 0);
    assert(korak_x86(c[0], m0) is Some);
    assert(korak_x86(c[1], m1) is Some);
    assert(korak_x86(c[2], m2) is Some);
    assert(korak_x86(c[3], m3) is Some);
    assert(m0.sklad.drop_last() =~= s.push(a));
    assert(m0.sklad.drop_last().drop_last() =~= s);
    assert(izvedi_x86(d3.drop_first(), m4) == Some(m4));
    assert(izvedi_x86(d3, m3) == Some(m4));
    assert(izvedi_x86(d2, m2) == Some(m4));
    assert(izvedi_x86(d1, m1) == Some(m4));
    assert(izvedi_x86(c, m0) == Some(m4));
}

/// The value of the language's arithmetic operator `op` on the whole
/// numbers `a` and `b`: sum, difference, product and power wrap around at
/// the bounds of `i32`; a quotient truncates toward zero and a remainder
/// takes the dividend's sign, with none for a zero divisor or the least
/// number divided by -1; none for another text.
pub open spec fn pomen_aritmeticnega(op: Seq<char>, a: i32, b: i32) -> Option<i32> {
    if op == "+"@ {
        Some(wrapping_add(a, b))
    } else if op == "-"@ {
        Some(wrapping_sub(a, b))
    } else if op == "*"@ {
        Some(wrapping_mul(a, b))
    } else if op == "/"@ {
        if b == 0 || (a == i32::MIN && b == -1) {
            None
        } else {
            Some(deli_proti_nic(a as int, b as int) as i32)
        }
    } else if op == "%"@ {
        if b == 0 || (a == i32::MIN && b == -1) {
            None
        } else {
            Some((a - b * deli_proti_nic(a as int, b as int)) as i32)
        }
    } else if op == "**"@ {
        Some(potenca_ovito(a, b as u32))
    } else {
        None
    }
}

/// The truth of the language's comparison `op` of the whole numbers `a` and
/// `b`; none for another text.
pub open spec fn pomen_primerjave(op: Seq<char>, a: i32, b: i32) -> Option<bool> {
    if op == "=="@ {
        Some(a == b)
    } else if op == "!="@ {
        Some(a != b)
    } else if op == ">"@ {
        Some(a > b)
    } else if op == ">="@ {
        Some(a >= b)
    } else if op == "<"@ {
        Some(a < b)
    } else if op == "<="@ {
        Some(a <= b)
    } else {
        None
    }
}

/// Whether the text is one of the language's arithmetic operators.
pub open spec fn je_aritmeticni_operator(op: Seq<char>) -> bool {
    op == "+"@ || op == "-"@ || op == "*"@ || op == "/"@ || op == "%"@ || op == "**"@
}

/// Whether the text is one of the language's comparisons.
pub open spec fn je_primerjava(op: Seq<char>) -> bool {
    op == "=="@ || op == "!="@ || op == ">"@ || op == ">="@ || op == "<"@ || op == "<="@
}

/// The reader builds an arithmetic node for exactly the arithmetic
/// operators, and a comparison for exactly the comparisons.
pub proof fn zakon_operatorji_racunov(op: Seq<char>, t: TipV, a: Box<VozelV>, b: Box<VozelV>)
    ensures
        (aritmeticna(op, t, a, b) is Some) == je_aritmeticni_operator(op),
        (primerjalna(op, t, a, b) is Some) == je_primerjava(op),
{
}

/// The node that the reader builds for an arithmetic operator `op` on the
/// whole-number literals `a` and `b` has, when evaluated, the value that
/// the operator has on `a` and `b`.
pub proof fn zakon_aritmeticni_operator(
    op: Seq<char>,
    x: Vozlisce,
    a: i32,
    b: i32,
    izraz: Seq<Zeton>,
    t: Seq<(RealnaOperacija, u32, u32, u32)>,
)
    requires
        aritmeticna(op, TipV::Celo, Box::new(VozelV::Celo(a)), Box::new(VozelV::Celo(b))) == Some(pogled(x)),
    ensures
        izracun(x, izraz, t) == celo_ali_nic(pomen_aritmeticnega(op, a, b)),
{
    match x {
        Vozlisce::Add(_, l, d) | Vozlisce::Sub(_, l, d) | Vozlisce::Mul(_, l, d) | Vozlisce::Div(_, l, d)
        | Vozlisce::Mod(_, l, d) | Vozlisce::Pow(_, l, d) => {
            lema_celo_iz_pogleda(&*l, a);
            lema_celo_iz_pogleda(&*d, b);
            assert(izracun(*l, izraz, t) == Some(IzidV::Vrednost(Konstanta::Celo(a))));
            assert(izracun(*d, izraz, t) == Some(IzidV::Vrednost(Konstanta::Celo(b))));
        },
        _ => {},
    }
}

/// The node that the reader builds for a comparison `op` of the
/// whole-number literals `a` and `b` has, when evaluated, the truth of the
/// comparison.
pub proof fn zakon_primerjalni_operator(
    op: Seq<char>,
    x: Vozlisce,
    a: i32,
    b: i32,
    izraz: Seq<Zeton>,
    t: Seq<(RealnaOperacija, u32, u32, u32)>,
)
    requires
        primerjalna(op, TipV::Celo, Box::new(VozelV::Celo(a)), Box::new(VozelV::Celo(b))) == Some(pogled(x)),
    ensures
        izracun(x, izraz, t) == match pomen_primerjave(op, a, b) {
            Some(r) => Some(IzidV::Vrednost(Konstanta::Logicna(r))),
            None => None,
        },
{
    match x {
        Vozlisce::Enako(_, l, d) | Vozlisce::NiEnako(_, l, d) | Vozlisce::Vecje(_, l, d) | Vozlisce::VecjeEnako(_, l, d)
        | Vozlisce::Manjse(_, l, d) | Vozlisce::ManjseEnako(_, l, d) => {
            lema_celo_iz_pogleda(&*l, a);
            lema_celo_iz_pogleda(&*d, b);
            assert(izracun(*l, izraz, t) == Some(IzidV::Vrednost(Konstanta::Celo(a))));
            assert(izracun(*d, izraz, t) == Some(IzidV::Vrednost(Konstanta::Celo(b))));
        },
        _ => {},
    }
}

/// Whether the node is arithmetic on whole numbers.
pub open spec fn je_celostevilska_aritmetika(v: Vozlisce) -> bool {
    match v {
        Vozlisce::Add(t, ..) | Vozlisce::Sub(t, ..) | Vozlisce::Mul(t, ..) | Vozlisce::Div(t, ..)
        | Vozlisce::Mod(t, ..) | Vozlisce::Pow(t, ..) => t@ == TipV::Celo,
        _ => false,
    }
}

/// The compiled code of arithmetic on whole numbers ends in an instruction
/// that, on a stack whose top two cells hold `a` and `b`, replaces them by
/// the value that the evaluator gives the node on `a` and `b`, and is
/// undefined where the evaluator gives none. The least number divided by
/// -1 is left out: the machine wraps it, the evaluator refuses it.
pub proof fn zakon_koda_celostevilske_aritmetike(
    v: Vozlisce,
    n: u64,
    kl: Seq<Seq<char>>,
    s: Seq<Podatek>,
    a: i32,
    b: i32,
    pc: int,
    odmik: int,
    t: Seq<(RealnaOperacija, u32, u32, u32)>,
)
    requires
        je_celostevilska_aritmetika(v),
        prevedeno(v, n, kl) is Some,
        pc < i32::MAX,
        s.len() + 2 <= i32::MAX,
        !(a == i32::MIN && b == -1),
    ensures
        zadnji_osnovni(koda(v, n, kl)) is Some,
        korak_spec(zadnji_osnovni(koda(v, n, kl))->0, z_dvema(s, a, b), pc, odmik) == korak_vrednosti(
            v,
            s,
            a,
            b,
            pc,
            odmik,
            t,
        ),
{
    match v {
        Vozlisce::Add(_, l, d) | Vozlisce::Sub(_, l, d) | Vozlisce::Mul(_, l, d) | Vozlisce::Div(_, l, d)
        | Vozlisce::Mod(_, l, d) | Vozlisce::Pow(_, l, d) => {
            let u = aritmeticni(v)->0;
            assert(prevedeno(v, n, kl) == obdaj(
                Seq::empty(),
                nadaljuj(prevedeno(*l, n, kl), prevedeno(*d, stevec(prevedeno(*l, n, kl)), kl)),
                seq![osn(u)],
            ));
            assert(koda(v, n, kl).last() == osn(u));
        },
        _ => {},
    }
    let st = z_dvema(s, a, b);
    assert(st.len() >= 2 && st[st.len() - 2].i == a && st[st.len() - 1].i == b);
    assert forall|x: i32| #[trigger] st.drop_last().update(st.len() - 2, Podatek { i: x }) == s.push(Podatek { i: x }) by {
        assert(st.drop_last().update(st.len() - 2, Podatek { i: x }) =~= s.push(Podatek { i: x }));
    }
}

/// Whether the node is whole-number arithmetic with an operator in C++ on
/// the literals `a` and `b`.
pub open spec fn racun_literalov(v: Vozlisce, a: i32, b: i32) -> bool {
    match v {
        Vozlisce::Add(t, l, d) | Vozlisce::Sub(t, l, d) | Vozlisce::Mul(t, l, d) | Vozlisce::Div(t, l, d)
        | Vozlisce::Mod(t, l, d) => t@ == TipV::Celo && *l == Vozlisce::Celo(a) && *d == Vozlisce::Celo(b),
        _ => false,
    }
}

/// The operator text of the line of whole-number arithmetic.
spec fn besedilo_racuna(v: Vozlisce) -> Seq<char> {
    match v {
        Vozlisce::Add(..) => "+"@,
        Vozlisce::Sub(..) => "-"@,
        Vozlisce::Mul(..) => "*"@,
        Vozlisce::Div(..) => "/"@,
        _ => "%"@,
    }
}

/// The operators that the line of whole-number arithmetic applies.
proof fn lema_operator_racuna(v: Vozlisce, o: Seq<char>, a: i32, b: i32, t: Seq<(RealnaOperacija, u32, u32, u32)>)
    requires
        racun_literalov(v, a, b),
    ensures
        aritmetika(v) == Some(operator("i"@, besedilo_racuna(v))),
        je_cpp_operator(besedilo_racuna(v)),
        je_cpp_operator(o) && vrstica_operatorja(operator("i"@, besedilo_racuna(v)), o) && pomen_cpp(o, a, b) is Some
            ==> celo_ali_nic(pomen_cpp(o, a, b)) == operacija(v, Konstanta::Celo(a), Konstanta::Celo(b), t),
{
    reveal_strlit("+");
    reveal_strlit("-");
    reveal_strlit("*");
    reveal_strlit("/");
    reveal_strlit("%");
    reveal_strlit(" ");
    let w = besedilo_racuna(v);
    if je_cpp_operator(o) && vrstica_operatorja(operator("i"@, w), o) {
        lema_operator_vrstice(w, o);
        if o + " "@ == w {
            assert((o + " "@).len() == o.len() + 1);
        } else {
            assert(o == w);
        }
    }
}

/// The C++ source of whole-number arithmetic on the literals `a` and `b`
/// pushes `a`, pushes `b`, and applies a C++ operator to them; wherever
/// C++ defines that operator's value on `a` and `b`, it is the value that
/// the evaluator gives the node.
pub proof fn zakon_cpp_racuna(v: Vozlisce, sk: u64, fu: u64, a: i32, b: i32, t: Seq<(RealnaOperacija, u32, u32, u32)>)
    requires
        racun_literalov(v, a, b),
    ensures
        aritmetika(v) is Some,
        cpp_vozlisca(v, sk, fu) == Some((potisk_cpp(a) + potisk_cpp(b) + aritmetika(v)->0, sk, fu)),
        exists|o: Seq<char>| #[trigger] je_cpp_operator(o) && vrstica_operatorja(aritmetika(v)->0, o),
        forall|o: Seq<char>|
            #[trigger] je_cpp_operator(o) && vrstica_operatorja(aritmetika(v)->0, o) && pomen_cpp(o, a, b) is Some
                ==> celo_ali_nic(pomen_cpp(o, a, b)) == operacija(v, Konstanta::Celo(a), Konstanta::Celo(b), t),
{
    lema_operator_racuna(v, Seq::empty(), a, b, t);
    let w = besedilo_racuna(v);
    assert(vrstica_operatorja(operator("i"@, w), w));
    assert forall|o: Seq<char>|
        #[trigger] je_cpp_operator(o) && vrstica_operatorja(aritmetika(v)->0, o) && pomen_cpp(o, a, b) is Some
            implies celo_ali_nic(pomen_cpp(o, a, b)) == operacija(v, Konstanta::Celo(a), Konstanta::Celo(b), t) by {
        lema_operator_racuna(v, o, a, b, t);
    }
    match v {
        Vozlisce::Add(_, l, d) | Vozlisce::Sub(_, l, d) | Vozlisce::Mul(_, l, d) | Vozlisce::Div(_, l, d)
        | Vozlisce::Mod(_, l, d) => {
            assert(cpp_vozlisca(*l, sk, fu) == Some((potisk_cpp(a), sk, fu)));
            assert(cpp_vozlisca(*d, sk, fu) == Some((potisk_cpp(b), sk, fu)));
        },
        _ => {},
    }
}

/// The x86 code of the machine's whole-number division and remainder, run
/// on a stack whose top two slots hold `a` and a divisor `b` that is not
/// zero, leaves the stack below them with the cell that one step of the
/// machine leaves. The least number divided by -1 is left out: the machine
/// wraps it, the x86 division faults.
pub proof fn zakon_x86_deljenja(u: UkazPodatek, s: Seq<i32>, reg: Seq<i32>, a: i32, b: i32)
    requires
        u is DIVI || u is MODI,
        reg.len() == 4,
        b != 0,
        !(a == i32::MIN && b == -1),
    ensures
        vrh_stroja(u, a, b) is Some,
        sklad_x86(u, s, reg, a, b) == Some(s.push(vrh_stroja(u, a, b)->0)),
{
    let st = z_dvema(Seq::<Podatek>::empty(), a, b);
    assert(st.len() == 2 && st[0].i == a && st[1].i == b);
    assert forall|x: i32| #[trigger] st.drop_last().update(0, Podatek { i: x }) == seq![Podatek { i: x }] by {
        assert(st.drop_last().update(0, Podatek { i: x }) =~= seq![Podatek { i: x }]);
    }
    let c = izbira_osnovnega(u)->0;
    let m0 = X86 { sklad: s.push(a).push(b), reg };
    assert(c.len() == 5);
    let m1 = korak_x86(c[0], m0)->0;
    let m2 = korak_x86(c[1], m1)->0;
    let m3 = korak_x86(c[2], m2)->0;
    let m4 = korak_x86(c[3], m3)->0;
    let m5 = korak_x86(c[4], m4)->0;
    let d1 = c.drop_first();
    let d2 = d1.drop_first();
    let d3 = d2.drop_first();
    let d4 = d3.drop_first();
    assert(d1[0] == c[1] && d2[0] == c[2] && d3[0] == c[3] && d4[0] == c[4]);
    assert(d4.len() == 1 && d4.drop_first().len() == 0);
    assert(m0.sklad.drop_last() =~= s.push(a));
    assert(m0.sklad.drop_last().drop_last() =~= s);
    lema_deljenje_v_mejah(a, b);
    assert(korak_x86(c[0], m0) is Some);
    assert(korak_x86(c[1], m1) is Some);
    assert(korak_x86(c[2], m2) is Some);
    assert(korak_x86(c[3], m3) is Some);
    assert(korak_x86(c[4], m4) is Some);
    assert(izvedi_x86(d4.drop_first(), m5) == Some(m5));
    assert(izvedi_x86(d4, m4) == Some(m5));
    assert(izvedi_x86(d3, m3) == Some(m5));
    assert(izvedi_x86(d2, m2) == Some(m5));
    assert(izvedi_x86(d1, m1) == Some(m5));
    assert(izvedi_x86(c, m0) == Some(m5));
}

/// A truncated quotient of whole numbers, but for the least one divided by
/// -1, lies in `i32`, and so does the remainder.
proof fn lema_deljenje_v_mejah(a: i32, b: i32)
    requires
        b != 0,
        !(a == i32::MIN && b == -1),
    ensures
        v_i32(deli_proti_nic(a as int, b as int)),
        v_i32(a - b * deli_proti_nic(a as int, b as int)),
{
    let ua: int = if a < 0 { -a } else { a as int };
    let ub: int = if b < 0 { -b } else { b as int };
    assert(ub >= 1);
    let q = ua / ub;
    assert(0 <= q <= ua) by (nonlinear_arith)
        requires ua >= 0, ub >= 1, q == ua / ub;
    let r = ua % ub;
    assert(ua == ub * q + r && 0 <= r < ub) by (nonlinear_arith)
        requires ua >= 0, ub >= 1, q == ua / ub, r == ua % ub;
    if ub == 1 {
        assert(q == ua) by (nonlinear_arith)
            requires ub == 1, q == ua / ub;
    } else {
        assert(q <= ua / 2) by (nonlinear_arith)
            requires ua >= 0, ub >= 2, q == ua / ub;
    }
    let d = deli_proti_nic(a as int, b as int);
    assert(d == q || d == -q);
    assert(a - b * d == if a < 0 { -r } else { r }) by (nonlinear_arith)
        requires
            ua == (if a < 0 { -a } else { a as int }),
            ub == (if b < 0 { -b } else { b as int }),
            ua == ub * q + r,
            d == (if (a < 0) == (b < 0) { q } else { -q }),
    ;
}

} // verus!
