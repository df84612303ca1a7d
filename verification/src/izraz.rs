//! Reading expressions: the tokens of an expression become a typed node of
//! the syntax tree, or the errors that the language reports about them
//! (an unknown word or expression, an unknown variable, operands of the
//! wrong types, a value that cannot be negated).
//!
//! Operators bind in this order, loosest first: `||`, `&&`, `|`, `^`, `&`,
//! the shifts, the comparisons, `+` and `-`, `*`, `/` and `%`, and `**`;
//! each splits at its last occurrence outside brackets. The operands of
//! `+` and `-` are read at the level of `*`, those of the other levels at
//! their own level, so that these group from the left.

use crate::besedilo::{enaka, iz_znakov, znaki};
use crate::branje_tipa::{je_locilo, je_operator, tip_iz, IzidTipa};
use crate::lekser::{Zeton, L};
use crate::loci::{besedila, interpoliraj, interpoliraj_niz, loci_zadaj, zadaj, zakon_najdeno_locilo, Izid};
use crate::napaka::{napaka_iz, v_mejah, vsi_v_mejah, Napake, OpisNapake, OznakaNapake};
use crate::stevilo::{brez_podcrtajev, celo_iz, odstrani_podcrtaje, preberi_i32};
use crate::tip::{prikaz, Tip, TipV};
use crate::pogled::{lema_tip_pogled, pogled, tip_v, VozelV};
use crate::vozlisce::Vozlisce;
use std::rc::Rc;
use vstd::prelude::*;
use vstd::string::StringExecFns;

verus! {

/// What reading an expression gives: the value of a node, the errors, or
/// nothing where the reading stops short: a literal that does not make a
/// value, a node whose type cannot be read, a function call (which the
/// reader of statements reads), or a rewriting of minus signs beyond its
/// budget.
pub ghost enum IzidIzraza {
    Drevo(VozelV),
    Napake(Seq<OpisNapake>),
    Zunaj,
}

/// The reader: the variables in scope, each with its node (a later one
/// hides an earlier one of the same name), the bits of the `f32` that the
/// text of each real literal writes, where each open scope starts among the
/// variables, the functions by their signatures, whether it reads inside a
/// function, the most stack cells that the variables outside functions
/// have taken, and the signature of each call read (once per call that it
/// counts).
pub struct Parser {
    pub spremenljivke: Vec<(String, Rc<Vozlisce>)>,
    pub realna: Vec<(String, u32)>,
    pub okvirji: Vec<usize>,
    pub funkcije: Vec<(String, Rc<Vozlisce>)>,
    pub znotraj_funkcije: bool,
    pub prostor: i32,
    pub klici: Vec<String>,
}

/// What the reader holds, as a value: the variables in scope with the
/// values of their nodes, and the real literals with their bits.
pub ghost struct ParserV {
    pub spremenljivke: Seq<(Seq<char>, VozelV)>,
    pub realna: Seq<(Seq<char>, u32)>,
    pub okvirji: Seq<usize>,
    pub funkcije: Seq<(Seq<char>, VozelV)>,
    pub znotraj_funkcije: bool,
    pub prostor: i32,    pub klici: Seq<Seq<char>>,
}

impl View for Parser {
    type V = ParserV;

    open spec fn view(&self) -> ParserV {
        ParserV {
            spremenljivke: Seq::new(
                self.spremenljivke@.len(),
                |i: int| (self.spremenljivke@[i].0@, pogled(*self.spremenljivke@[i].1)),
            ),
            realna: Seq::new(self.realna@.len(), |i: int| (self.realna@[i].0@, self.realna@[i].1)),
            okvirji: self.okvirji@,
            funkcije: Seq::new(
                self.funkcije@.len(),
                |i: int| (self.funkcije@[i].0@, pogled(*self.funkcije@[i].1)),
            ),
            znotraj_funkcije: self.znotraj_funkcije,
            prostor: self.prostor,
            klici: Seq::new(self.klici@.len(), |i: int| self.klici@[i]@),
        }
    }
}

/// The value of the variable `ime`, searched from the `k`-th entry back.
pub open spec fn poisci_od(s: Seq<(Seq<char>, VozelV)>, ime: Seq<char>, k: int) -> Option<VozelV>
    decreases k,
{
    if k <= 0 || k > s.len() {
        None
    } else if s[k - 1].0 == ime {
        Some(s[k - 1].1)
    } else {
        poisci_od(s, ime, k - 1)
    }
}

/// The value of the variable `ime`: the last entry of that name.
pub open spec fn poisci(p: ParserV, ime: Seq<char>) -> Option<VozelV> {
    poisci_od(p.spremenljivke, ime, p.spremenljivke.len() as int)
}

/// The bits of the real literal `t`, searched from the `k`-th entry back.
pub open spec fn realno_od(s: Seq<(Seq<char>, u32)>, t: Seq<char>, k: int) -> Option<u32>
    decreases k,
{
    if k <= 0 || k > s.len() {
        None
    } else if s[k - 1].0 == t {
        Some(s[k - 1].1)
    } else {
        realno_od(s, t, k - 1)
    }
}

/// The bits of the real literal `t`: the last entry for that text.
pub open spec fn realno(p: ParserV, t: Seq<char>) -> Option<u32> {
    realno_od(p.realna, t, p.realna.len() as int)
}

/// The operators at which level `k` splits (levels 0 to 9).
pub open spec fn locila_ravni(k: int) -> Seq<Seq<char>> {
    if k == 0 {
        seq!["||"@]
    } else if k == 1 {
        seq!["&&"@]
    } else if k == 2 {
        seq!["|"@]
    } else if k == 3 {
        seq!["^"@]
    } else if k == 4 {
        seq!["&"@]
    } else if k == 5 {
        seq!["<<"@, ">>"@]
    } else if k == 6 {
        seq!["=="@, "!="@, ">"@, ">="@, "<"@, "<="@]
    } else if k == 7 {
        seq!["+"@, "-"@]
    } else if k == 8 {
        seq!["*"@, "/"@, "%"@]
    } else {
        seq!["**"@]
    }
}

/// The level at which the operands of level `k` are read.
pub open spec fn raven_operandov(k: int) -> nat {
    if k <= 1 {
        0
    } else if k <= 5 {
        2
    } else if k == 6 {
        6
    } else {
        8
    }
}

/// The errors of a failed search for an operator.
pub open spec fn napake_iskanja(s: Seq<Zeton>, izid: Izid) -> Seq<OpisNapake> {
    match izid {
        Izid::Neujemajoc(i) => seq![napaka_iz(seq![s[i]], OznakaNapake::E1, "Neujemajoč oklepaj"@)],
        _ => seq![napaka_iz(s, OznakaNapake::E1, "Oklepaji se ne ujemajo"@)],
    }
}

/// The opening bracket that a rewritten minus sign is put in.
pub open spec fn oklepaj<'a>() -> Zeton<'a> {
    Zeton::Locilo("(", 0, 0, "")
}

/// The closing bracket that a rewritten minus sign is put in.
pub open spec fn zaklepaj<'a>() -> Zeton<'a> {
    Zeton::Locilo(")", 0, 0, "")
}

/// The message about operands of the wrong types.
pub open spec fn sporocilo_tipov(pred: Seq<char>, a: TipV, op: Seq<char>, b: TipV) -> Seq<char> {
    pred + prikaz(a) + " "@ + op + " "@ + prikaz(b)
}

/// The error about the operator `op` whose operands have the types `a` and
/// `b`.
pub open spec fn napaka_tipov(pred: Seq<char>, op: Zeton, a: TipV, b: TipV) -> IzidIzraza {
    IzidIzraza::Napake(
        seq![napaka_iz(seq![op], OznakaNapake::E5, sporocilo_tipov(pred, a, op.besedilo()@, b))],
    )
}

/// The node of the bit operation `op`.
pub open spec fn bitna(op: Seq<char>, a: Box<VozelV>, b: Box<VozelV>) -> Option<VozelV> {
    if op == "|"@ {
        Some(VozelV::BitniAli(a, b))
    } else if op == "^"@ {
        Some(VozelV::BitniXor(a, b))
    } else if op == "&"@ {
        Some(VozelV::BitniIn(a, b))
    } else if op == "<<"@ {
        Some(VozelV::BitniPremikLevo(a, b))
    } else if op == ">>"@ {
        Some(VozelV::BitniPremikDesno(a, b))
    } else {
        None
    }
}

/// The node of the comparison `op` of values of type `t`.
pub open spec fn primerjalna(op: Seq<char>, t: TipV, a: Box<VozelV>, b: Box<VozelV>) -> Option<VozelV> {
    if op == "=="@ {
        Some(VozelV::Enako(t, a, b))
    } else if op == "!="@ {
        Some(VozelV::NiEnako(t, a, b))
    } else if op == ">"@ {
        Some(VozelV::Vecje(t, a, b))
    } else if op == ">="@ {
        Some(VozelV::VecjeEnako(t, a, b))
    } else if op == "<"@ {
        Some(VozelV::Manjse(t, a, b))
    } else if op == "<="@ {
        Some(VozelV::ManjseEnako(t, a, b))
    } else {
        None
    }
}

/// The node of the arithmetic operation `op` on values of type `t`.
pub open spec fn aritmeticna(op: Seq<char>, t: TipV, a: Box<VozelV>, b: Box<VozelV>) -> Option<VozelV> {
    if op == "+"@ {
        Some(VozelV::Add(t, a, b))
    } else if op == "-"@ {
        Some(VozelV::Sub(t, a, b))
    } else if op == "*"@ {
        Some(VozelV::Mul(t, a, b))
    } else if op == "/"@ {
        Some(VozelV::Div(t, a, b))
    } else if op == "%"@ {
        Some(VozelV::Mod(t, a, b))
    } else if op == "**"@ {
        Some(VozelV::Pow(t, a, b))
    } else {
        None
    }
}

/// A node, where there is one.
pub open spec fn drevo_ali_zunaj(v: Option<VozelV>) -> IzidIzraza {
    match v {
        Some(x) => IzidIzraza::Drevo(x),
        None => IzidIzraza::Zunaj,
    }
}

/// The node of the operator `op` of level `k` on operands of types `ta`
/// and `tb`, or the error about their types: logical operators take truth
/// values, bit operators integers, comparisons two integers, characters
/// (compared as integers) or reals, and arithmetic two integers or reals.
pub open spec fn sestavi_tipa(k: int, op: Zeton, a: VozelV, b: VozelV, ta: TipV, tb: TipV) -> IzidIzraza {
    let o = op.besedilo()@;
    let ra = Box::new(a);
    let rb = Box::new(b);
    if k <= 1 {
        if ta is Bool && tb is Bool {
            IzidIzraza::Drevo(
                if k == 0 {
                    VozelV::Disjunkcija(ra, rb)
                } else {
                    VozelV::Konjunkcija(ra, rb)
                },
            )
        } else {
            napaka_tipov("Neveljavna tipa za operacijo: "@, op, ta, tb)
        }
    } else if k <= 5 {
        if ta is Celo && tb is Celo {
            drevo_ali_zunaj(bitna(o, ra, rb))
        } else {
            napaka_tipov("Neveljavna tipa za operacijo: "@, op, ta, tb)
        }
    } else if k == 6 {
        if ta is Celo && tb is Celo {
            drevo_ali_zunaj(primerjalna(o, TipV::Celo, ra, rb))
        } else if ta is Znak && tb is Znak {
            drevo_ali_zunaj(
                primerjalna(o, TipV::Celo, Box::new(VozelV::ZnakVCelo(ra)), Box::new(VozelV::ZnakVCelo(rb))),
            )
        } else if ta is Real && tb is Real {
            drevo_ali_zunaj(primerjalna(o, TipV::Real, ra, rb))
        } else {
            napaka_tipov("Nemogoča operacija: "@, op, ta, tb)
        }
    } else {
        if ta is Celo && tb is Celo {
            drevo_ali_zunaj(aritmeticna(o, TipV::Celo, ra, rb))
        } else if ta is Real && tb is Real {
            drevo_ali_zunaj(aritmeticna(o, TipV::Real, ra, rb))
        } else {
            napaka_tipov("Nemogoča operacija: "@, op, ta, tb)
        }
    }
}

/// Whether the reading gave a node.
pub open spec fn je_vrednost(i: IzidIzraza) -> bool {
    i is Drevo
}

/// The type of the node that a reading gave.
pub open spec fn tip_izida(i: IzidIzraza) -> Option<TipV> {
    match i {
        IzidIzraza::Drevo(v) => tip_v(v),
        _ => None,
    }
}

/// The node that a reading gave.
pub open spec fn vozel(i: IzidIzraza) -> VozelV {
    match i {
        IzidIzraza::Drevo(v) => v,
        _ => VozelV::Prazno,
    }
}

/// The node of the operator `op` of level `k` on the operands `a` and `b`.
pub open spec fn sestavi(k: int, op: Zeton, a: IzidIzraza, b: IzidIzraza) -> IzidIzraza {
    match (tip_izida(a), tip_izida(b)) {
        (Some(ta), Some(tb)) => sestavi_tipa(k, op, vozel(a), vozel(b), ta, tb),
        _ => IzidIzraza::Zunaj,
    }
}

/// The measure of a level: lower levels come later.
pub open spec fn rang(k: nat) -> int {
    if k < 10 {
        30 - k
    } else {
        20
    }
}

/// An expression, read from its loosest operators (level 0) down, with
/// `g` rewritings of a minus sign after an operator left.
pub open spec fn drevo_v(p: ParserV, s: Seq<Zeton>, g: nat) -> IzidIzraza
    decreases s.len() + 3 * g, 40int,
{
    binarna_v(p, s, g, 0)
}

/// The reading of `s` at level `k` (see `locila_ravni`): it splits at the
/// last operator of the level outside brackets and reads the operands,
/// else it goes on to the next level; past the last level it reads a
/// basic expression. At the level of `+` and `-`, a minus sign with
/// nothing before it is read at the next level, and one after another
/// operator is put in brackets with what follows it.
pub open spec fn binarna_v(p: ParserV, s: Seq<Zeton>, g: nat, k: nat) -> IzidIzraza
    decreases s.len() + 3 * g, rang(k),
{
    if k >= 10 {
        osnovni_v(p, s, g)
    } else {
        match zadaj(s, locila_ravni(k as int)) {
            Izid::Najdeno(i) => if 0 <= i < s.len() {
                let l = s.subrange(0, i);
                let op = s[i];
                let d = s.subrange(i + 1, s.len() as int);
                if k == 7 && l.len() == 0 && je_operator(op, "-"@) {
                    binarna_v(p, s, g, 8)
                } else if k == 7 && l.len() > 0 && l.last() is Operator && je_operator(op, "-"@) {
                    if g == 0 {
                        IzidIzraza::Zunaj
                    } else {
                        binarna_v(p, l + seq![oklepaj(), op] + d + seq![zaklepaj()], (g - 1) as nat, 7)
                    }
                } else {
                    let ro = raven_operandov(k as int);
                    let a = binarna_v(p, l, g, ro);
                    if je_vrednost(a) {
                        let b = binarna_v(p, d, g, ro);
                        if je_vrednost(b) {
                            sestavi(k as int, op, a, b)
                        } else {
                            b
                        }
                    } else {
                        a
                    }
                }
            } else {
                IzidIzraza::Zunaj
            },
            Izid::Nic => binarna_v(p, s, g, k + 1),
            izid => IzidIzraza::Napake(napake_iskanja(s, izid)),
        }
    }
}

/// The text between the quotes of a literal, where slicing off the first
/// and the last character keeps to whole characters.
pub open spec fn med_narekovaji(t: Seq<char>) -> Option<Seq<char>> {
    if t.len() >= 2 && (t[0] as u32) < 128 && (t.last() as u32) < 128 {
        Some(t.subrange(1, t.len() - 1))
    } else {
        None
    }
}

/// The texts of the tokens, separated by spaces.
pub open spec fn zdruzi(s: Seq<Zeton>) -> Seq<char>
    decreases s.len(),
{
    if s.len() == 0 {
        Seq::empty()
    } else if s.len() == 1 {
        s[0].besedilo()@
    } else {
        zdruzi(s.drop_last()) + " "@ + s.last().besedilo()@
    }
}

/// Whether the token is the name `b`.
pub open spec fn je_ime(z: Zeton, b: Seq<char>) -> bool {
    z is Ime && z.besedilo()@ == b
}

/// An integer literal and its value.
pub open spec fn celo_literala(z: Zeton) -> Option<int> {
    match z {
        Zeton::Literal(L::Celo(t, ..)) => match celo_iz(brez_podcrtajev(t@)) {
            Ok(v) => Some(v),
            Err(_) => None,
        },
        _ => None,
    }
}

/// A basic expression: a literal (an integer or a character that makes no
/// value, or a real whose bits are not given, stops the reading), a minus
/// sign before a number literal, an expression in brackets, `asm` with its
/// argument, a call (which this reader does not read), a conversion with
/// `kot`, a negation with `!` or `-`, a variable, a reference `@x` and a
/// dereference `x@`, an element `x[i]`, a length `x.dolžina`, an unknown
/// word, nothing (an empty node), or an unknown expression.
pub open spec fn osnovni_v(p: ParserV, s: Seq<Zeton>, g: nat) -> IzidIzraza
    decreases s.len() + 3 * g, 5int,
{
    let n = s.len();
    if n == 1 && (s[0] matches Zeton::Literal(L::Bool(..))) && s[0].besedilo()@ == "resnica"@ {
        IzidIzraza::Drevo(VozelV::Resnica)
    } else if n == 1 && (s[0] matches Zeton::Literal(L::Bool(..))) && s[0].besedilo()@ == "laž"@ {
        IzidIzraza::Drevo(VozelV::Laz)
    } else if n == 1 && s[0] matches Zeton::Literal(L::Celo(..)) {
        match celo_literala(s[0]) {
            Some(v) => IzidIzraza::Drevo(VozelV::Celo(v as i32)),
            None => IzidIzraza::Zunaj,
        }
    } else if n == 1 && s[0] matches Zeton::Literal(L::Real(..)) {
        match realno(p, s[0].besedilo()@) {
            Some(b) => IzidIzraza::Drevo(VozelV::Real(b)),
            None => IzidIzraza::Zunaj,
        }
    } else if n == 2 && je_operator(s[0], "-"@) && s[1] matches Zeton::Literal(L::Celo(..)) {
        match celo_literala(s[1]) {
            Some(v) => if v != i32::MIN {
                IzidIzraza::Drevo(VozelV::Celo((-v) as i32))
            } else {
                IzidIzraza::Zunaj
            },
            None => IzidIzraza::Zunaj,
        }
    } else if n == 2 && je_operator(s[0], "-"@) && s[1] matches Zeton::Literal(L::Real(..)) {
        match realno(p, s[1].besedilo()@) {
            Some(b) => IzidIzraza::Drevo(VozelV::Real(b ^ 0x8000_0000u32)),
            None => IzidIzraza::Zunaj,
        }
    } else if n == 1 && s[0] matches Zeton::Literal(L::Znak(..)) {
        match med_narekovaji(s[0].besedilo()@) {
            Some(m) => if interpoliraj(m).len() > 0 {
                IzidIzraza::Drevo(VozelV::Znak(interpoliraj(m)[0]))
            } else {
                IzidIzraza::Zunaj
            },
            None => IzidIzraza::Zunaj,
        }
    } else if n == 1 && s[0] matches Zeton::Literal(L::Niz(..)) {
        match med_narekovaji(s[0].besedilo()@) {
            Some(m) => IzidIzraza::Drevo(VozelV::Niz(interpoliraj(m))),
            None => IzidIzraza::Zunaj,
        }
    } else if n >= 2 && je_locilo(s[0], "("@) && je_locilo(s[n - 1], ")"@) {
        drevo_v(p, s.subrange(1, n - 1), g)
    } else if n >= 3 && je_ime(s[0], "asm"@) && je_locilo(s[1], "("@) && je_locilo(s[n - 1], ")"@) {
        asm_v(s.subrange(2, n - 1))
    } else if n >= 3 && s[0] is Ime && je_locilo(s[1], "("@) && je_locilo(s[n - 1], ")"@) {
        IzidIzraza::Zunaj
    } else if n >= 2 && je_operator(s[n - 2], "kot"@) && s[n - 1] is Tip {
        pretvorba_v(p, s.subrange(0, n - 2), s[n - 1], g)
    } else if n >= 1 && je_operator(s[0], "!"@) {
        let d = drevo_v(p, s.subrange(1, n as int), g);
        if je_vrednost(d) {
            match tip_izida(d) {
                Some(TipV::Bool) => IzidIzraza::Drevo(VozelV::Zanikaj(Box::new(vozel(d)))),
                Some(_) => IzidIzraza::Napake(
                    seq![napaka_iz(s, OznakaNapake::E9, "Zanikati je mogoče samo Boolove vrednosti"@)],
                ),
                None => IzidIzraza::Zunaj,
            }
        } else {
            d
        }
    } else if n >= 1 && je_operator(s[0], "-"@) {
        negacija_v(s, drevo_v(p, s.subrange(1, n as int), g))
    } else if n == 1 && s[0] is Ime {
        match poisci(p, s[0].besedilo()@) {
            Some(v) => IzidIzraza::Drevo(v),
            None => neznana(s[0]),
        }
    } else if n == 2 && je_operator(s[0], "@"@) && s[1] is Ime {
        match poisci(p, s[1].besedilo()@) {
            Some(v) => match tip_v(v) {
                Some(TipV::Seznam(..)) => IzidIzraza::Drevo(VozelV::RefSeznama(Box::new(v))),
                Some(_) => IzidIzraza::Drevo(VozelV::Referenca(Box::new(v))),
                None => IzidIzraza::Zunaj,
            },
            None => neznana(s[1]),
        }
    } else if n == 2 && s[0] is Ime && je_operator(s[1], "@"@) {
        match poisci(p, s[0].besedilo()@) {
            Some(v) => match v {
                VozelV::Spremenljivka { tip, .. } => if tip is Referenca {
                    IzidIzraza::Drevo(VozelV::Dereferenciraj(Box::new(v)))
                } else {
                    IzidIzraza::Napake(
                        seq![napaka_iz(s, OznakaNapake::E2, "Dereferenciramo lahko samo referenco."@)],
                    )
                },
                _ => IzidIzraza::Napake(
                    seq![napaka_iz(s, OznakaNapake::E2, "Dereferenciramo lahko samo spremenljivko."@)],
                ),
            },
            None => neznana(s[0]),
        }
    } else if n >= 3 && s[0] is Ime && je_locilo(s[1], "["@) && je_locilo(s[n - 1], "]"@) {
        match drevo_v(p, s.subrange(2, n - 1), g) {
            IzidIzraza::Drevo(i) => match poisci(p, s[0].besedilo()@) {
                Some(v) => indeks_v(s, v, i),
                None => neznana(s[0]),
            },
            drugo => drugo,
        }
    } else if n == 3 && s[0] is Ime && je_locilo(s[1], "."@) && je_ime(s[2], "dolžina"@) {
        match poisci(p, s[0].besedilo()@) {
            Some(v) => match tip_v(v) {
                Some(TipV::Seznam(..)) | Some(TipV::RefSeznama(..)) => IzidIzraza::Drevo(
                    VozelV::Dolzina(Box::new(v)),
                ),
                Some(t) => IzidIzraza::Napake(
                    seq![napaka_iz(seq![s[0]], OznakaNapake::E2, "Tip '"@ + prikaz(t) + "' nima dolžine"@)],
                ),
                None => IzidIzraza::Zunaj,
            },
            None => neznana(s[0]),
        }
    } else if n == 1 && s[0] is Neznano {
        IzidIzraza::Napake(seq![napaka_iz(s, OznakaNapake::E1, "Neznana beseda"@)])
    } else if n == 0 {
        IzidIzraza::Drevo(VozelV::Prazno)
    } else {
        IzidIzraza::Napake(seq![napaka_iz(s, OznakaNapake::E1, "Neznan izraz: "@ + zdruzi(s))])
    }
}

/// A negation with `-` of the reading `d` of what follows the sign:
/// `0 - d` for an integer or a real, else an error about what follows.
pub open spec fn negacija_v(s: Seq<Zeton>, d: IzidIzraza) -> IzidIzraza {
    let n = s.len();
    if je_vrednost(d) {
        match tip_izida(d) {
            Some(TipV::Celo) => IzidIzraza::Drevo(VozelV::Sub(TipV::Celo, Box::new(VozelV::Celo(0)), Box::new(vozel(d)))),
            Some(TipV::Real) => IzidIzraza::Drevo(VozelV::Sub(TipV::Real, Box::new(VozelV::Celo(0)), Box::new(vozel(d)))),
            Some(_) => if n >= 2 {
                IzidIzraza::Napake(
                    seq![napaka_iz(s.subrange(1, n as int), OznakaNapake::E9, "Izraza ni mogoče negirati"@)],
                )
            } else {
                IzidIzraza::Zunaj
            },
            None => IzidIzraza::Zunaj,
        }
    } else {
        d
    }
}

/// The error about an unknown variable.
pub open spec fn neznana(z: Zeton) -> IzidIzraza {
    IzidIzraza::Napake(seq![napaka_iz(seq![z], OznakaNapake::E2, "Neznana spremenljivka"@)])
}

/// An element of the variable `v` at the index `i`: an array is indexed
/// through a reference to it, a reference to an array directly.
pub open spec fn indeks_v(s: Seq<Zeton>, v: VozelV, i: VozelV) -> IzidIzraza {
    match v {
        VozelV::Spremenljivka { tip: TipV::Seznam(..), .. } => IzidIzraza::Drevo(
            VozelV::Indeksiraj { seznam_ref: Box::new(VozelV::RefSeznama(Box::new(v))), indeks: Box::new(i) },
        ),
        VozelV::Spremenljivka { tip: TipV::RefSeznama(..), .. } => IzidIzraza::Drevo(
            VozelV::Indeksiraj { seznam_ref: Box::new(v), indeks: Box::new(i) },
        ),
        _ => match tip_v(v) {
            Some(t) => IzidIzraza::Napake(
                seq![napaka_iz(s, OznakaNapake::E2, "V spremenljivko tipa '"@ + prikaz(t) + "' ni mogoče indeksirati."@)],
            ),
            None => IzidIzraza::Zunaj,
        },
    }
}

/// A conversion of the expression `s` to the type that the token `t`
/// names: between integers and reals, between integers and characters, or
/// to its own type; any other is an error.
pub open spec fn pretvorba_v(p: ParserV, s: Seq<Zeton>, t: Zeton, g: nat) -> IzidIzraza
    decreases s.len() + 1 + 3 * g, 0int,
{
    let d = drevo_v(p, s, g);
    if je_vrednost(d) {
        match tip_izida(d) {
            Some(noter) => match tip_iz(seq![t]) {
                IzidTipa::Tip(ven) => if noter is Real && ven is Celo {
                    IzidIzraza::Drevo(VozelV::RealVCelo(Box::new(vozel(d))))
                } else if noter is Celo && ven is Real {
                    IzidIzraza::Drevo(VozelV::CeloVReal(Box::new(vozel(d))))
                } else if noter is Celo && ven is Znak {
                    IzidIzraza::Drevo(VozelV::CeloVZnak(Box::new(vozel(d))))
                } else if noter is Znak && ven is Celo {
                    IzidIzraza::Drevo(VozelV::ZnakVCelo(Box::new(vozel(d))))
                } else if noter == ven {
                    d
                } else {
                    IzidIzraza::Napake(
                        seq![napaka_iz(seq![t], OznakaNapake::E1, "Tipa "@ + prikaz(noter) + " ni mogoče pretvoriti v "@ + prikaz(ven))],
                    )
                },
                IzidTipa::Napake(e) => IzidIzraza::Napake(e),
                IzidTipa::Panika => IzidIzraza::Zunaj,
            },
            None => IzidIzraza::Zunaj,
        }
    } else {
        d
    }
}

/// `asm` with the tokens of its argument: only the string `"GETC"`, which
/// reads a character.
pub open spec fn asm_v(s: Seq<Zeton>) -> IzidIzraza {
    if s.len() == 1 && s[0] matches Zeton::Literal(L::Niz(..)) {
        match med_narekovaji(s[0].besedilo()@) {
            Some(m) => if m == "GETC"@ {
                IzidIzraza::Drevo(VozelV::Preberi)
            } else {
                IzidIzraza::Napake(seq![napaka_iz(s, OznakaNapake::E1, "Neznan ukaz: "@ + m)])
            },
            None => IzidIzraza::Zunaj,
        }
    } else if s.len() > 0 {
        IzidIzraza::Napake(seq![napaka_iz(s, OznakaNapake::E5, "Funkcija 'asm' sprejema samo nize"@)])
    } else {
        IzidIzraza::Zunaj
    }
}

/// Whether every variable in scope has a type.
pub open spec fn tipizirane(p: ParserV) -> bool {
    forall|i: int| 0 <= i < p.spremenljivke.len() ==> (#[trigger] tip_v(p.spremenljivke[i].1)) is Some
}

/// A variable found among typed variables has a type.
proof fn lema_poisci_tip(p: ParserV, ime: Seq<char>, k: int)
    requires
        tipizirane(p),
    ensures
        poisci_od(p.spremenljivke, ime, k) matches Some(v) ==> tip_v(v) is Some,
    decreases k,
{
    if k > 0 && k <= p.spremenljivke.len() {
        assert(tip_v(p.spremenljivke[k - 1].1) is Some);
        lema_poisci_tip(p, ime, k - 1);
    }
}

/// The reader checks types: where every variable in scope has a type,
/// every node that the reading of an expression builds has one.
pub proof fn zakon_tipiziran(p: ParserV, s: Seq<Zeton>, g: nat)
    requires
        tipizirane(p),
    ensures
        drevo_v(p, s, g) matches IzidIzraza::Drevo(v) ==> tip_v(v) is Some,
    decreases s.len() + 3 * g, 40int,
{
    lema_binarna_tip(p, s, g, 0);
}

/// A level of the reading builds only nodes that have a type.
proof fn lema_binarna_tip(p: ParserV, s: Seq<Zeton>, g: nat, k: nat)
    requires
        tipizirane(p),
    ensures
        binarna_v(p, s, g, k) matches IzidIzraza::Drevo(v) ==> tip_v(v) is Some,
    decreases s.len() + 3 * g, rang(k),
{
    if k >= 10 {
        lema_osnovni_tip(p, s, g);
    } else {
        match zadaj(s, locila_ravni(k as int)) {
            Izid::Najdeno(i) => if 0 <= i < s.len() {
                let l = s.subrange(0, i);
                let op = s[i];
                let d = s.subrange(i + 1, s.len() as int);
                if k == 7 && l.len() == 0 && je_operator(op, "-"@) {
                    lema_binarna_tip(p, s, g, 8);
                } else if k == 7 && l.len() > 0 && l.last() is Operator && je_operator(op, "-"@) {
                    if g > 0 {
                        lema_binarna_tip(p, l + seq![oklepaj(), op] + d + seq![zaklepaj()], (g - 1) as nat, 7);
                    }
                }
            },
            Izid::Nic => lema_binarna_tip(p, s, g, k + 1),
            _ => {},
        }
    }
}

/// A basic expression builds only nodes that have a type.
proof fn lema_osnovni_tip(p: ParserV, s: Seq<Zeton>, g: nat)
    requires
        tipizirane(p),
    ensures
        osnovni_v(p, s, g) matches IzidIzraza::Drevo(v) ==> tip_v(v) is Some,
    decreases s.len() + 3 * g, 5int,
{
    if ((s.len() == 1 && 2 <= s[0].vrsta() <= 6) || (s.len() == 2 && je_operator(s[0], "-"@) && (s[1].vrsta() == 5
            || s[1].vrsta() == 6))) {
        lema_osnovni_literal_tip(p, s, g);
    } else if ((s.len() >= 2 && je_locilo(s[0], "("@) && je_locilo(s[s.len() - 1], ")"@)) || (s.len() >= 3 && s[0] is Ime
            && je_locilo(s[1], "("@) && je_locilo(s[s.len() - 1], ")"@)) || (s.len() >= 2 && je_operator(
            s[s.len() - 2],
            "kot"@,
        ) && s[s.len() - 1] is Tip) || (s.len() >= 1 && je_operator(s[0], "!"@)) || (s.len() >= 1 && je_operator(
            s[0],
            "-"@,
        ))) {
        lema_osnovni_sestavljen_tip(p, s, g);
    } else {
        lema_osnovni_ime_tip(p, s, g);
    }
}

/// A literal has a type.
#[verifier::spinoff_prover]
#[verifier::rlimit(60)]
proof fn lema_osnovni_literal_tip(p: ParserV, s: Seq<Zeton>, g: nat)
    requires
        ((s.len() == 1 && 2 <= s[0].vrsta() <= 6) || (s.len() == 2 && je_operator(s[0], "-"@) && (s[1].vrsta() == 5
            || s[1].vrsta() == 6))),
    ensures
        osnovni_v(p, s, g) matches IzidIzraza::Drevo(v) ==> tip_v(v) is Some,
{
}

/// An expression in brackets, a call, a conversion or a negation builds
/// only nodes that have a type.
#[verifier::spinoff_prover]
#[verifier::rlimit(60)]
proof fn lema_osnovni_sestavljen_tip(p: ParserV, s: Seq<Zeton>, g: nat)
    requires
        tipizirane(p),
        !((s.len() == 1 && 2 <= s[0].vrsta() <= 6) || (s.len() == 2 && je_operator(s[0], "-"@) && (s[1].vrsta() == 5
            || s[1].vrsta() == 6))),
        ((s.len() >= 2 && je_locilo(s[0], "("@) && je_locilo(s[s.len() - 1], ")"@)) || (s.len() >= 3 && s[0] is Ime
            && je_locilo(s[1], "("@) && je_locilo(s[s.len() - 1], ")"@)) || (s.len() >= 2 && je_operator(
            s[s.len() - 2],
            "kot"@,
        ) && s[s.len() - 1] is Tip) || (s.len() >= 1 && je_operator(s[0], "!"@)) || (s.len() >= 1 && je_operator(
            s[0],
            "-"@,
        ))),
    ensures
        osnovni_v(p, s, g) matches IzidIzraza::Drevo(v) ==> tip_v(v) is Some,
    decreases s.len() + 3 * g, 4int,
{
    let n = s.len();
    if n >= 2 && je_locilo(s[0], "("@) && je_locilo(s[n - 1], ")"@) {
        zakon_tipiziran(p, s.subrange(1, n - 1), g);
    }
    if n >= 2 && je_operator(s[n - 2], "kot"@) && s[n - 1] is Tip {
        lema_pretvorba_tip(p, s.subrange(0, n - 2), s[n - 1], g);
    }
}

/// A variable, a reference, a dereference, an element or a length of a
/// typed variable has a type.
#[verifier::spinoff_prover]
#[verifier::rlimit(60)]
proof fn lema_osnovni_ime_tip(p: ParserV, s: Seq<Zeton>, g: nat)
    requires
        tipizirane(p),
        !((s.len() == 1 && 2 <= s[0].vrsta() <= 6) || (s.len() == 2 && je_operator(s[0], "-"@) && (s[1].vrsta() == 5
            || s[1].vrsta() == 6))),
        !((s.len() >= 2 && je_locilo(s[0], "("@) && je_locilo(s[s.len() - 1], ")"@)) || (s.len() >= 3 && s[0] is Ime
            && je_locilo(s[1], "("@) && je_locilo(s[s.len() - 1], ")"@)) || (s.len() >= 2 && je_operator(
            s[s.len() - 2],
            "kot"@,
        ) && s[s.len() - 1] is Tip) || (s.len() >= 1 && je_operator(s[0], "!"@)) || (s.len() >= 1 && je_operator(
            s[0],
            "-"@,
        ))),
    ensures
        osnovni_v(p, s, g) matches IzidIzraza::Drevo(v) ==> tip_v(v) is Some,
{
    let n = s.len();
    if n >= 1 {
        lema_poisci_tip(p, s[0].besedilo()@, p.spremenljivke.len() as int);
    }
    if n >= 2 {
        lema_poisci_tip(p, s[1].besedilo()@, p.spremenljivke.len() as int);
    }
    if n >= 3 {
        if let IzidIzraza::Drevo(i) = drevo_v(p, s.subrange(2, n - 1), g) {
            if let Some(v) = poisci(p, s[0].besedilo()@) {
                lema_indeks_tip(s, v, i);
            }
        }
    }
}

/// An element of an array, or of a reference to one, has a type.
proof fn lema_indeks_tip(s: Seq<Zeton>, v: VozelV, i: VozelV)
    ensures
        indeks_v(s, v, i) matches IzidIzraza::Drevo(x) ==> tip_v(x) is Some,
{
    match v {
        VozelV::Spremenljivka { tip, .. } => {
            assert(tip_v(v) == Some(tip));
            if tip is Seznam {
                assert(tip_v(VozelV::RefSeznama(Box::new(v))) is Some);
            }
        },
        _ => {},
    }
}

/// A conversion builds only nodes that have a type.
proof fn lema_pretvorba_tip(p: ParserV, s: Seq<Zeton>, t: Zeton, g: nat)
    requires
        tipizirane(p),
    ensures
        pretvorba_v(p, s, t, g) matches IzidIzraza::Drevo(v) ==> tip_v(v) is Some,
    decreases s.len() + 1 + 3 * g, 0int,
{
    zakon_tipiziran(p, s, g);
}

/// Whether `r` is what a reading with outcome `i` returns.
pub open spec fn ustreza(r: Option<Result<Rc<Vozlisce>, Napake>>, i: IzidIzraza) -> bool {
    match i {
        IzidIzraza::Drevo(v) => r matches Some(Ok(x)) && pogled(*x) == v,
        IzidIzraza::Napake(n) => r matches Some(Err(e)) && e@ == n,
        IzidIzraza::Zunaj => r is None,
    }
}

/// Whether the token is an operator with the text `b`.
pub(crate) fn je_operator_x(z: &Zeton, b: &str) -> (r: bool)
    ensures
        r == je_operator(*z, b@),
{
    match z {
        Zeton::Operator(t, ..) => enaka(t, b),
        _ => false,
    }
}

/// Whether the token is a separator with the text `b`.
pub(crate) fn je_locilo_x(z: &Zeton, b: &str) -> (r: bool)
    ensures
        r == je_locilo(*z, b@),
{
    match z {
        Zeton::Locilo(t, ..) => enaka(t, b),
        _ => false,
    }
}

/// Whether the token is a name with the text `b`.
pub(crate) fn je_ime_x(z: &Zeton, b: &str) -> (r: bool)
    ensures
        r == je_ime(*z, b@),
{
    match z {
        Zeton::Ime(t, ..) => enaka(t, b),
        _ => false,
    }
}

/// The kind of a token, by the index of its pattern (see `Zeton::vrsta`).
pub(crate) fn vrsta(z: &Zeton) -> (r: u8)
    ensures
        r as int == z.vrsta(),
{
    match z {
        Zeton::Rezerviranka(..) => 0,
        Zeton::Tip(..) => 1,
        Zeton::Literal(L::Bool(..)) => 2,
        Zeton::Literal(L::Znak(..)) => 3,
        Zeton::Literal(L::Niz(..)) => 4,
        Zeton::Literal(L::Real(..)) => 5,
        Zeton::Literal(L::Celo(..)) => 6,
        Zeton::Locilo(..) => 7,
        Zeton::Operator(..) => 8,
        Zeton::Ime(..) => 9,
        Zeton::Neznano(..) => 10,
    }
}

/// The operators of level `k`.
fn locila(k: usize) -> (r: &'static [&'static str])
    requires
        k < 10,
    ensures
        besedila(r@) == locila_ravni(k as int),
{
    let r: &'static [&'static str] = if k == 0 {
        &["||"]
    } else if k == 1 {
        &["&&"]
    } else if k == 2 {
        &["|"]
    } else if k == 3 {
        &["^"]
    } else if k == 4 {
        &["&"]
    } else if k == 5 {
        &["<<", ">>"]
    } else if k == 6 {
        &["==", "!=", ">", ">=", "<", "<="]
    } else if k == 7 {
        &["+", "-"]
    } else if k == 8 {
        &["*", "/", "%"]
    } else {
        &["**"]
    };
    assert(besedila(r@) =~= locila_ravni(k as int));
    r
}

/// The level at which the operands of level `k` are read.
fn raven_operandov_x(k: usize) -> (r: usize)
    ensures
        r as nat == raven_operandov(k as int),
{
    if k <= 1 {
        0
    } else if k <= 5 {
        2
    } else if k == 6 {
        6
    } else {
        8
    }
}

/// The message about operands of the wrong types.
pub(crate) fn sporocilo_tipov_x(pred: &str, a: &Tip, op: &str, b: &Tip) -> (r: String)
    ensures
        r@ == sporocilo_tipov(pred@, a@, op@, b@),
{
    let mut m = String::new();
    m.append(pred);
    m.append(a.to_string().as_str());
    m.append(" ");
    m.append(op);
    m.append(" ");
    m.append(b.to_string().as_str());
    assert(m@ =~= sporocilo_tipov(pred@, a@, op@, b@));
    m
}

/// The error about one token.
pub(crate) fn napaka_zetona(z: &Zeton, oznaka: OznakaNapake, sporocilo: &str) -> (r: Napake)
    requires
        v_mejah(*z),
    ensures
        r@ == seq![napaka_iz(seq![*z], oznaka, sporocilo@)],
{
    let samo = [*z];
    assert(samo@ == seq![*z]);
    assert(samo@.last() == *z);
    Napake::from_zaporedje(&samo, oznaka, sporocilo)
}

/// The node of the bit operation `o`.
pub(crate) fn bitna_x(o: &str, a: Rc<Vozlisce>, b: Rc<Vozlisce>) -> (r: Option<Rc<Vozlisce>>)
    ensures
        match r {
            Some(x) => bitna(o@, Box::new(pogled(*a)), Box::new(pogled(*b))) == Some(pogled(*x)),
            None => bitna(o@, Box::new(pogled(*a)), Box::new(pogled(*b))) is None,
        },
{
    if enaka(o, "|") {
        Some(Vozlisce::BitniAli(a, b).rc())
    } else if enaka(o, "^") {
        Some(Vozlisce::BitniXor(a, b).rc())
    } else if enaka(o, "&") {
        Some(Vozlisce::BitniIn(a, b).rc())
    } else if enaka(o, "<<") {
        Some(Vozlisce::BitniPremikLevo(a, b).rc())
    } else if enaka(o, ">>") {
        Some(Vozlisce::BitniPremikDesno(a, b).rc())
    } else {
        None
    }
}

/// The node of the comparison `o` of values of type `t`.
fn primerjalna_x(o: &str, t: Tip, a: Rc<Vozlisce>, b: Rc<Vozlisce>) -> (r: Option<Rc<Vozlisce>>)
    ensures
        match r {
            Some(x) => primerjalna(o@, t@, Box::new(pogled(*a)), Box::new(pogled(*b))) == Some(pogled(*x)),
            None => primerjalna(o@, t@, Box::new(pogled(*a)), Box::new(pogled(*b))) is None,
        },
{
    if enaka(o, "==") {
        Some(Vozlisce::Enako(t, a, b).rc())
    } else if enaka(o, "!=") {
        Some(Vozlisce::NiEnako(t, a, b).rc())
    } else if enaka(o, ">") {
        Some(Vozlisce::Vecje(t, a, b).rc())
    } else if enaka(o, ">=") {
        Some(Vozlisce::VecjeEnako(t, a, b).rc())
    } else if enaka(o, "<") {
        Some(Vozlisce::Manjse(t, a, b).rc())
    } else if enaka(o, "<=") {
        Some(Vozlisce::ManjseEnako(t, a, b).rc())
    } else {
        None
    }
}

/// The node of the arithmetic operation `o` on values of type `t`.
pub(crate) fn aritmeticna_x(o: &str, t: Tip, a: Rc<Vozlisce>, b: Rc<Vozlisce>) -> (r: Option<Rc<Vozlisce>>)
    ensures
        match r {
            Some(x) => aritmeticna(o@, t@, Box::new(pogled(*a)), Box::new(pogled(*b))) == Some(pogled(*x)),
            None => aritmeticna(o@, t@, Box::new(pogled(*a)), Box::new(pogled(*b))) is None,
        },
{
    if enaka(o, "+") {
        Some(Vozlisce::Add(t, a, b).rc())
    } else if enaka(o, "-") {
        Some(Vozlisce::Sub(t, a, b).rc())
    } else if enaka(o, "*") {
        Some(Vozlisce::Mul(t, a, b).rc())
    } else if enaka(o, "/") {
        Some(Vozlisce::Div(t, a, b).rc())
    } else if enaka(o, "%") {
        Some(Vozlisce::Mod(t, a, b).rc())
    } else if enaka(o, "**") {
        Some(Vozlisce::Pow(t, a, b).rc())
    } else {
        None
    }
}

/// A node, where there is one.
fn drevo_ali_nic(v: Option<Rc<Vozlisce>>) -> (r: Option<Result<Rc<Vozlisce>, Napake>>)
    ensures
        ustreza(
            r,
            drevo_ali_zunaj(
                match v {
                    Some(x) => Some(pogled(*x)),
                    None => None,
                },
            ),
        ),
{
    match v {
        Some(x) => Some(Ok(x)),
        None => None,
    }
}

/// The node of the operator `op` of level `k` on the nodes `a` and `b`
/// (see `sestavi_tipa`).
fn sestavi_x(k: usize, op: &Zeton, a: Rc<Vozlisce>, b: Rc<Vozlisce>) -> (r: Option<Result<Rc<Vozlisce>, Napake>>)
    requires
        k < 10,
        v_mejah(*op),
    ensures
        ustreza(r, sestavi(k as int, *op, IzidIzraza::Drevo(pogled(*a)), IzidIzraza::Drevo(pogled(*b)))),
{
    proof {
        lema_tip_pogled(&*a);
        lema_tip_pogled(&*b);
    }
    let ta = match a.tip() {
        Some(t) => t,
        None => {
            return None;
        },
    };
    let tb = match b.tip() {
        Some(t) => t,
        None => {
            return None;
        },
    };
    let o = op.as_str();
    if k <= 1 {
        match (&ta, &tb) {
            (Tip::Bool, Tip::Bool) => {
                if k == 0 {
                    Some(Ok(Vozlisce::Disjunkcija(a, b).rc()))
                } else {
                    Some(Ok(Vozlisce::Konjunkcija(a, b).rc()))
                }
            },
            _ => {
                let m = sporocilo_tipov_x("Neveljavna tipa za operacijo: ", &ta, o, &tb);
                Some(Err(napaka_zetona(op, OznakaNapake::E5, m.as_str())))
            },
        }
    } else if k <= 5 {
        match (&ta, &tb) {
            (Tip::Celo, Tip::Celo) => drevo_ali_nic(bitna_x(o, a, b)),
            _ => {
                let m = sporocilo_tipov_x("Neveljavna tipa za operacijo: ", &ta, o, &tb);
                Some(Err(napaka_zetona(op, OznakaNapake::E5, m.as_str())))
            },
        }
    } else if k == 6 {
        match (&ta, &tb) {
            (Tip::Celo, Tip::Celo) => drevo_ali_nic(primerjalna_x(o, Tip::Celo, a, b)),
            (Tip::Znak, Tip::Znak) => drevo_ali_nic(
                primerjalna_x(o, Tip::Celo, Vozlisce::ZnakVCelo(a).rc(), Vozlisce::ZnakVCelo(b).rc()),
            ),
            (Tip::Real, Tip::Real) => drevo_ali_nic(primerjalna_x(o, Tip::Real, a, b)),
            _ => {
                let m = sporocilo_tipov_x("Nemogoča operacija: ", &ta, o, &tb);
                Some(Err(napaka_zetona(op, OznakaNapake::E5, m.as_str())))
            },
        }
    } else {
        match (&ta, &tb) {
            (Tip::Celo, Tip::Celo) => drevo_ali_nic(aritmeticna_x(o, Tip::Celo, a, b)),
            (Tip::Real, Tip::Real) => drevo_ali_nic(aritmeticna_x(o, Tip::Real, a, b)),
            _ => {
                let m = sporocilo_tipov_x("Nemogoča operacija: ", &ta, o, &tb);
                Some(Err(napaka_zetona(op, OznakaNapake::E5, m.as_str())))
            },
        }
    }
}

/// The characters between the quotes of a literal (see `med_narekovaji`).
fn med_narekovaji_x(t: &str) -> (r: Option<String>)
    ensures
        match r {
            Some(m) => med_narekovaji(t@) == Some(m@),
            None => med_narekovaji(t@) is None,
        },
{
    let v = znaki(t);
    let n = v.len();
    if n >= 2 && (v[0] as u32) < 128 && (v[n - 1] as u32) < 128 {
        let m = iz_znakov(&v.as_slice()[1..n - 1]);
        assert(m@ =~= t@.subrange(1, t@.len() - 1));
        Some(m)
    } else {
        None
    }
}

/// The value of an integer literal (see `celo_literala`).
fn celo_literala_x(z: &Zeton) -> (r: Option<i32>)
    requires
        z matches Zeton::Literal(L::Celo(..)),
    ensures
        match r {
            Some(v) => celo_literala(*z) == Some(v as int),
            None => celo_literala(*z) is None,
        },
{
    let t = z.as_str();
    let v = znaki(t);
    let c = odstrani_podcrtaje(v.as_slice());
    match preberi_i32(c.as_slice()) {
        Ok(x) => Some(x),
        Err(_) => None,
    }
}

/// The texts of the tokens, separated by spaces (see `zdruzi`).
fn zdruzi_x(s: &[Zeton]) -> (r: String)
    ensures
        r@ == zdruzi(s@),
{
    let mut r = String::new();
    if s.len() == 0 {
        return r;
    }
    r.append(s[0].as_str());
    assert(s@.subrange(0, 1) =~= seq![s@[0]]);
    let mut i: usize = 1;
    while i < s.len()
        invariant
            1 <= i <= s@.len(),
            r@ == zdruzi(s@.subrange(0, i as int)),
        decreases s@.len() - i,
    {
        r.append(" ");
        r.append(s[i].as_str());
        assert(s@.subrange(0, i + 1).drop_last() =~= s@.subrange(0, i as int));
        i = i + 1;
    }
    assert(s@.subrange(0, i as int) =~= s@);
    r
}

/// The error about an unknown variable.
pub(crate) fn neznana_x(z: &Zeton) -> (r: Option<Result<Rc<Vozlisce>, Napake>>)
    requires
        v_mejah(*z),
    ensures
        ustreza(r, neznana(*z)),
{
    Some(Err(napaka_zetona(z, OznakaNapake::E2, "Neznana spremenljivka")))
}

/// The error of kind `oznaka` about the tokens `s`.
pub(crate) fn napaka_o(s: &[Zeton], oznaka: OznakaNapake, sporocilo: &str) -> (r: Option<Result<Rc<Vozlisce>, Napake>>)
    requires
        s@.len() > 0,
        vsi_v_mejah(s@),
    ensures
        ustreza(r, IzidIzraza::Napake(seq![napaka_iz(s@, oznaka, sporocilo@)])),
{
    assert(v_mejah(s@[s@.len() - 1]));
    Some(Err(Napake::from_zaporedje(s, oznaka, sporocilo)))
}

/// A negation with `-` of the node `d` (see `negacija_v`).
fn negiraj(s: &[Zeton], d: Rc<Vozlisce>) -> (r: Option<Result<Rc<Vozlisce>, Napake>>)
    requires
        s@.len() >= 1,
        vsi_v_mejah(s@),
    ensures
        ustreza(r, negacija_v(s@, IzidIzraza::Drevo(pogled(*d)))),
{
    proof {
        lema_tip_pogled(&*d);
    }
    let n = s.len();
    let nic = Vozlisce::Celo(0).rc();
    assert(pogled(*nic) == VozelV::Celo(0));
    match d.tip() {
        Some(Tip::Celo) => Some(Ok(Vozlisce::Sub(Tip::Celo, nic, d).rc())),
        Some(Tip::Real) => Some(Ok(Vozlisce::Sub(Tip::Real, nic, d).rc())),
        Some(_) => if n >= 2 {
            napaka_o(&s[1..n], OznakaNapake::E9, "Izraza ni mogoče negirati")
        } else {
            None
        },
        None => None,
    }
}

/// `asm` with the tokens of its argument (see `asm_v`).
fn asm_x(s: &[Zeton]) -> (r: Option<Result<Rc<Vozlisce>, Napake>>)
    requires
        vsi_v_mejah(s@),
    ensures
        ustreza(r, asm_v(s@)),
{
    if s.len() == 1 && vrsta(&s[0]) == 4 {
        match med_narekovaji_x(s[0].as_str()) {
            Some(m) => if enaka(m.as_str(), "GETC") {
                Some(Ok(Vozlisce::Preberi.rc()))
            } else {
                let mut sp = String::new();
                sp.append("Neznan ukaz: ");
                sp.append(m.as_str());
                napaka_o(s, OznakaNapake::E1, sp.as_str())
            },
            None => None,
        }
    } else if s.len() > 0 {
        napaka_o(s, OznakaNapake::E5, "Funkcija 'asm' sprejema samo nize")
    } else {
        None
    }
}

/// An element of the variable `v` at the index `i` (see `indeks_v`).
fn indeks_x(s: &[Zeton], v: Rc<Vozlisce>, i: Rc<Vozlisce>) -> (r: Option<Result<Rc<Vozlisce>, Napake>>)
    requires
        s@.len() > 0,
        vsi_v_mejah(s@),
    ensures
        ustreza(r, indeks_v(s@, pogled(*v), pogled(*i))),
{
    proof {
        lema_tip_pogled(&*v);
    }
    let seznam = match &*v {
        Vozlisce::Spremenljivka { tip, ime, naslov, z_odmikom, spremenljiva } => {
            assert(pogled(*v) == VozelV::Spremenljivka {
                tip: tip@,
                ime: ime@,
                naslov: *naslov,
                z_odmikom: *z_odmikom,
                spremenljiva: *spremenljiva,
            });
            match tip {
                Tip::Seznam(..) => {
                    assert(tip@ is Seznam);
                    1u8
                },
                Tip::RefSeznama(..) => {
                    assert(tip@ is RefSeznama);
                    2u8
                },
                _ => {
                    assert(!(tip@ is Seznam) && !(tip@ is RefSeznama));
                    0u8
                },
            }
        },
        _ => {
            assert(!(pogled(*v) is Spremenljivka));
            0u8
        },
    };
    if seznam == 1 {
        let rs = Vozlisce::RefSeznama(v).rc();
        assert(pogled(*rs) == VozelV::RefSeznama(Box::new(pogled(*v))));
        Some(Ok(Vozlisce::Indeksiraj { seznam_ref: rs, indeks: i }.rc()))
    } else if seznam == 2 {
        Some(Ok(Vozlisce::Indeksiraj { seznam_ref: v, indeks: i }.rc()))
    } else {
        match v.tip() {
            Some(t) => {
                let mut sp = String::new();
                sp.append("V spremenljivko tipa '");
                sp.append(t.to_string().as_str());
                sp.append("' ni mogoče indeksirati.");
                napaka_o(s, OznakaNapake::E2, sp.as_str())
            },
            None => None,
        }
    }
}

impl Parser {
    /// A reader with no variables in scope, no real literals, no scopes and
    /// no functions, outside any function.
    pub fn new() -> (r: Parser)
        ensures
            r.spremenljivke@.len() == 0,
            r.realna@.len() == 0,
            r.okvirji@.len() == 0,
            r.funkcije@.len() == 0,
            !r.znotraj_funkcije,
            r.prostor == 0,
            r.klici@.len() == 0,
    {
        Parser {
            spremenljivke: Vec::new(),
            realna: Vec::new(),
            okvirji: Vec::new(),
            funkcije: Vec::new(),
            znotraj_funkcije: false,
            prostor: 0,
            klici: Vec::new(),
        }
    }

    /// The node of the variable `ime` (see `poisci`).
    pub fn poisci_spremenljivko(&self, ime: &str) -> (r: Option<Rc<Vozlisce>>)
        ensures
            match r {
                Some(x) => poisci(self@, ime@) == Some(pogled(*x)),
                None => poisci(self@, ime@) is None,
            },
    {
        let mut k: usize = self.spremenljivke.len();
        while k > 0
            invariant
                0 <= k <= self.spremenljivke@.len(),
                poisci(self@, ime@) == poisci_od(self@.spremenljivke, ime@, k as int),
            decreases k,
        {
            if enaka(self.spremenljivke[k - 1].0.as_str(), ime) {
                return Some(self.spremenljivke[k - 1].1.clone());
            }
            k = k - 1;
        }
        None
    }

    /// The bits of the real literal `t` (see `realno`).
    pub fn realno_stevilo(&self, t: &str) -> (r: Option<u32>)
        ensures
            r == realno(self@, t@),
    {
        let mut k: usize = self.realna.len();
        while k > 0
            invariant
                0 <= k <= self.realna@.len(),
                realno(self@, t@) == realno_od(self@.realna, t@, k as int),
            decreases k,
        {
            if enaka(self.realna[k - 1].0.as_str(), t) {
                return Some(self.realna[k - 1].1);
            }
            k = k - 1;
        }
        None
    }
}

/// The tokens `l`, an opening bracket, the minus sign `op`, the tokens `d`
/// and a closing bracket.
fn v_oklepaj<'a>(l: &[Zeton<'a>], op: &Zeton<'a>, d: &[Zeton<'a>]) -> (v: Vec<Zeton<'a>>)
    requires
        vsi_v_mejah(l@),
        v_mejah(*op),
        vsi_v_mejah(d@),
    ensures
        v@ == l@ + seq![oklepaj(), *op] + d@ + seq![zaklepaj()],
        vsi_v_mejah(v@),
{
    let mut v: Vec<Zeton> = Vec::new();
    let mut j: usize = 0;
    while j < l.len()
        invariant
            0 <= j <= l@.len(),
            v@ == l@.subrange(0, j as int),
        decreases l@.len() - j,
    {
        v.push(l[j]);
        j = j + 1;
        assert(v@ =~= l@.subrange(0, j as int));
    }
    v.push(Zeton::Locilo("(", 0, 0, ""));
    v.push(*op);
    let mut j: usize = 0;
    let ghost zacetek = v@;
    while j < d.len()
        invariant
            0 <= j <= d@.len(),
            v@ == zacetek + d@.subrange(0, j as int),
        decreases d@.len() - j,
    {
        v.push(d[j]);
        j = j + 1;
        assert(v@ =~= zacetek + d@.subrange(0, j as int));
    }
    v.push(Zeton::Locilo(")", 0, 0, ""));
    proof {
        reveal_strlit("(");
        reveal_strlit(")");
        assert(l@.subrange(0, l@.len() as int) =~= l@);
        assert(d@.subrange(0, d@.len() as int) =~= d@);
        assert(v@ =~= l@ + seq![oklepaj(), *op] + d@ + seq![zaklepaj()]);
        assert forall|m: int| 0 <= m < v@.len() implies v_mejah(#[trigger] v@[m]) by {
            if m < l@.len() {
                assert(v@[m] == l@[m]);
            } else if m > l@.len() + 1 && m < v@.len() - 1 {
                assert(v@[m] == d@[m - l@.len() - 2]);
            }
        }
    }
    v
}

impl Parser {
    /// Reads the expression `izraz` (see `drevo_v`): its node, or the errors
    /// about it; nothing where the reading stops short (see `IzidIzraza`).
    /// A minus sign after another operator may be rewritten as often as
    /// there are tokens.
    pub fn drevo(&self, izraz: &[Zeton]) -> (r: Option<Result<Rc<Vozlisce>, Napake>>)
        requires
            vsi_v_mejah(izraz@),
        ensures
            ustreza(r, drevo_v(self@, izraz@, izraz@.len())),
    {
        self.drevo_g(izraz, izraz.len())
    }

    /// Reads the comparisons and what binds tighter in `izraz` (level 6 of
    /// `binarna_v`).
    pub fn primerjalni(&self, izraz: &[Zeton]) -> (r: Option<Result<Rc<Vozlisce>, Napake>>)
        requires
            vsi_v_mejah(izraz@),
        ensures
            ustreza(r, binarna_v(self@, izraz@, izraz@.len(), 6)),
    {
        self.binarna(izraz, izraz.len(), 6)
    }

    /// Reads the basic expression `izraz` (see `osnovni_v`).
    pub fn osnovni(&self, izraz: &[Zeton]) -> (r: Option<Result<Rc<Vozlisce>, Napake>>)
        requires
            vsi_v_mejah(izraz@),
        ensures
            ustreza(r, osnovni_v(self@, izraz@, izraz@.len())),
    {
        self.osnovni_g(izraz, izraz.len())
    }

    /// Reads an expression with `g` rewritings of a minus sign left.
    fn drevo_g(&self, izraz: &[Zeton], g: usize) -> (r: Option<Result<Rc<Vozlisce>, Napake>>)
        requires
            vsi_v_mejah(izraz@),
        ensures
            ustreza(r, drevo_v(self@, izraz@, g as nat)),
        decreases izraz@.len() + 3 * g, 40int,
    {
        self.binarna(izraz, g, 0)
    }

    /// Reads `s` at level `k` (see `binarna_v`).
    #[verifier::spinoff_prover]
    #[verifier::rlimit(80)]
    fn binarna(&self, s: &[Zeton], g: usize, k: usize) -> (r: Option<Result<Rc<Vozlisce>, Napake>>)
        requires
            vsi_v_mejah(s@),
            k <= 10,
        ensures
            ustreza(r, binarna_v(self@, s@, g as nat, k as nat)),
        decreases s@.len() + 3 * g, rang(k as nat),
    {
        if k >= 10 {
            return self.osnovni_g(s, g);
        }
        let nizi = locila(k);
        let iskanje = loci_zadaj(s, nizi);
        let ghost izid = zadaj(s@, locila_ravni(k as int));
        proof {
            zakon_najdeno_locilo(s@, locila_ravni(k as int));
        }
        match iskanje {
            None => self.binarna(s, g, k + 1),
            Some(Err(n)) => {
                assert(n@ =~= seq![n@[0]]);
                Some(Err(n))
            },
            Some(Ok((l, op, d))) => {
                let ghost i = l@.len() as int;
                assert(izid == Izid::Najdeno(i));
                if k == 7 && l.len() == 0 && je_operator_x(op, "-") {
                    return self.binarna(s, g, 8);
                }
                if k == 7 && l.len() > 0 && vrsta(&l[l.len() - 1]) == 8 && je_operator_x(op, "-") {
                    if g == 0 {
                        return None;
                    }
                    let v = v_oklepaj(l, op, d);
                    return self.binarna(v.as_slice(), g - 1, 7);
                }
                let ro = raven_operandov_x(k);
                let ghost ia = binarna_v(self@, l@, g as nat, ro as nat);
                let a = match self.binarna(l, g, ro) {
                    Some(Ok(a)) => a,
                    drugo => {
                        return drugo;
                    },
                };
                let ghost ib = binarna_v(self@, d@, g as nat, ro as nat);
                let b = match self.binarna(d, g, ro) {
                    Some(Ok(b)) => b,
                    drugo => {
                        return drugo;
                    },
                };
                sestavi_x(k, op, a, b)
            },
        }
    }
}

impl Parser {
    /// Reads a basic expression (see `osnovni_v`).
    fn osnovni_g(&self, s: &[Zeton], g: usize) -> (r: Option<Result<Rc<Vozlisce>, Napake>>)
        requires
            vsi_v_mejah(s@),
        ensures
            ustreza(r, osnovni_v(self@, s@, g as nat)),
        decreases s@.len() + 3 * g, 5int,
    {
        let n = s.len();
        let literal = (n == 1 && 2 <= vrsta(&s[0]) && vrsta(&s[0]) <= 6) || (n == 2 && je_operator_x(&s[0], "-") && (
        vrsta(&s[1]) == 5 || vrsta(&s[1]) == 6));
        if literal {
            return self.osnovni_literal(s, g);
        }
        let sestavljen = (n >= 2 && je_locilo_x(&s[0], "(") && je_locilo_x(&s[n - 1], ")")) || (n >= 3
            && vrsta(&s[0]) == 9 && je_locilo_x(&s[1], "(") && je_locilo_x(&s[n - 1], ")")) || (n >= 2
            && je_operator_x(&s[n - 2], "kot") && vrsta(&s[n - 1]) == 1) || (n >= 1 && je_operator_x(&s[0], "!"))
            || (n >= 1 && je_operator_x(&s[0], "-"));
        if sestavljen {
            return self.osnovni_sestavljen(s, g);
        }
        self.osnovni_ime(s, g)
    }

    /// A basic expression that is a literal, or a minus sign before a
    /// number literal.
    #[verifier::spinoff_prover]
    #[verifier::rlimit(60)]
    fn osnovni_literal(&self, s: &[Zeton], g: usize) -> (r: Option<Result<Rc<Vozlisce>, Napake>>)
        requires
            vsi_v_mejah(s@),
            (s@.len() == 1 && 2 <= s@[0].vrsta() <= 6) || (s@.len() == 2 && je_operator(s@[0], "-"@) && (s@[1].vrsta() == 5
                || s@[1].vrsta() == 6)),
        ensures
            ustreza(r, osnovni_v(self@, s@, g as nat)),
    {
        let n = s.len();
        if n == 1 && vrsta(&s[0]) == 2 && enaka(s[0].as_str(), "resnica") {
            return Some(Ok(Vozlisce::Resnica.rc()));
        }
        if n == 1 && vrsta(&s[0]) == 2 && enaka(s[0].as_str(), "laž") {
            return Some(Ok(Vozlisce::Laz.rc()));
        }
        if n == 1 && vrsta(&s[0]) == 6 {
            return match celo_literala_x(&s[0]) {
                Some(v) => Some(Ok(Vozlisce::Celo(v).rc())),
                None => None,
            };
        }
        if n == 1 && vrsta(&s[0]) == 5 {
            return match self.realno_stevilo(s[0].as_str()) {
                Some(b) => Some(Ok(Vozlisce::Real(b).rc())),
                None => None,
            };
        }
        if n == 2 && je_operator_x(&s[0], "-") && vrsta(&s[1]) == 6 {
            return match celo_literala_x(&s[1]) {
                Some(v) => if v != i32::MIN {
                    Some(Ok(Vozlisce::Celo(-v).rc()))
                } else {
                    None
                },
                None => None,
            };
        }
        if n == 2 && je_operator_x(&s[0], "-") && vrsta(&s[1]) == 5 {
            return match self.realno_stevilo(s[1].as_str()) {
                Some(b) => Some(Ok(Vozlisce::Real(b ^ 0x8000_0000u32).rc())),
                None => None,
            };
        }
        if n == 1 && vrsta(&s[0]) == 3 {
            return match med_narekovaji_x(s[0].as_str()) {
                Some(m) => {
                    let z = znaki(interpoliraj_niz(m.as_str()).as_str());
                    if z.len() > 0 {
                        Some(Ok(Vozlisce::Znak(z[0]).rc()))
                    } else {
                        None
                    }
                },
                None => None,
            };
        }
        if n == 1 && vrsta(&s[0]) == 4 {
            return match med_narekovaji_x(s[0].as_str()) {
                Some(m) => Some(Ok(Vozlisce::Niz(interpoliraj_niz(m.as_str())).rc())),
                None => None,
            };
        }
        let mut sp = String::new();
        sp.append("Neznan izraz: ");
        sp.append(zdruzi_x(s).as_str());
        napaka_o(s, OznakaNapake::E1, sp.as_str())
    }

    /// A basic expression in brackets, a call, a conversion or a negation.
    #[verifier::spinoff_prover]
    #[verifier::rlimit(60)]
    fn osnovni_sestavljen(&self, s: &[Zeton], g: usize) -> (r: Option<Result<Rc<Vozlisce>, Napake>>)
        requires
            vsi_v_mejah(s@),
            !((s@.len() == 1 && 2 <= s@[0].vrsta() <= 6) || (s@.len() == 2 && je_operator(s@[0], "-"@) && (
            s@[1].vrsta() == 5 || s@[1].vrsta() == 6))),
            (s@.len() >= 2 && je_locilo(s@[0], "("@) && je_locilo(s@[s@.len() - 1], ")"@)) || (s@.len() >= 3
                && s@[0] is Ime && je_locilo(s@[1], "("@) && je_locilo(s@[s@.len() - 1], ")"@)) || (s@.len() >= 2
                && je_operator(s@[s@.len() - 2], "kot"@) && s@[s@.len() - 1] is Tip) || (s@.len() >= 1 && je_operator(
                s@[0],
                "!"@,
            )) || (s@.len() >= 1 && je_operator(s@[0], "-"@)),
        ensures
            ustreza(r, osnovni_v(self@, s@, g as nat)),
        decreases s@.len() + 3 * g, 4int,
    {
        let n = s.len();
        if n >= 2 && je_locilo_x(&s[0], "(") && je_locilo_x(&s[n - 1], ")") {
            return self.drevo_g(&s[1..n - 1], g);
        }
        if n >= 3 && je_ime_x(&s[0], "asm") && je_locilo_x(&s[1], "(") && je_locilo_x(&s[n - 1], ")") {
            return asm_x(&s[2..n - 1]);
        }
        if n >= 3 && vrsta(&s[0]) == 9 && je_locilo_x(&s[1], "(") && je_locilo_x(&s[n - 1], ")") {
            return None;
        }
        if n >= 2 && je_operator_x(&s[n - 2], "kot") && vrsta(&s[n - 1]) == 1 {
            return self.pretvorba(&s[0..n - 2], &s[n - 1], g);
        }
        if n >= 1 && je_operator_x(&s[0], "!") {
            let ghost id = drevo_v(self@, s@.subrange(1, n as int), g as nat);
            let d = match self.drevo_g(&s[1..n], g) {
                Some(Ok(d)) => d,
                drugo => {
                    return drugo;
                },
            };
            proof {
                lema_tip_pogled(&*d);
            }
            return match d.tip() {
                Some(Tip::Bool) => Some(Ok(Vozlisce::Zanikaj(d).rc())),
                Some(_) => napaka_o(s, OznakaNapake::E9, "Zanikati je mogoče samo Boolove vrednosti"),
                None => None,
            };
        }
        if n >= 1 && je_operator_x(&s[0], "-") {
            let ghost id = drevo_v(self@, s@.subrange(1, n as int), g as nat);
            let d = match self.drevo_g(&s[1..n], g) {
                Some(Ok(d)) => d,
                drugo => {
                    return drugo;
                },
            };
            return negiraj(s, d);
        }
        None
    }

    /// A basic expression with a variable, an unknown word, nothing, or an
    /// unknown expression.
    #[verifier::spinoff_prover]
    #[verifier::rlimit(60)]
    fn osnovni_ime(&self, s: &[Zeton], g: usize) -> (r: Option<Result<Rc<Vozlisce>, Napake>>)
        requires
            vsi_v_mejah(s@),
            !((s@.len() == 1 && 2 <= s@[0].vrsta() <= 6) || (s@.len() == 2 && je_operator(s@[0], "-"@) && (
            s@[1].vrsta() == 5 || s@[1].vrsta() == 6))),
            !((s@.len() >= 2 && je_locilo(s@[0], "("@) && je_locilo(s@[s@.len() - 1], ")"@)) || (s@.len() >= 3
                && s@[0] is Ime && je_locilo(s@[1], "("@) && je_locilo(s@[s@.len() - 1], ")"@)) || (s@.len() >= 2
                && je_operator(s@[s@.len() - 2], "kot"@) && s@[s@.len() - 1] is Tip) || (s@.len() >= 1 && je_operator(
                s@[0],
                "!"@,
            )) || (s@.len() >= 1 && je_operator(s@[0], "-"@))),
        ensures
            ustreza(r, osnovni_v(self@, s@, g as nat)),
        decreases s@.len() + 3 * g, 4int,
    {
        let n = s.len();
        if n >= 3 {
            return self.osnovni_dolgo(s, g);
        }
        if n == 1 && vrsta(&s[0]) == 9 {
            return match self.poisci_spremenljivko(s[0].as_str()) {
                Some(v) => Some(Ok(v)),
                None => neznana_x(&s[0]),
            };
        }
        if n == 2 && je_operator_x(&s[0], "@") && vrsta(&s[1]) == 9 {
            return match self.poisci_spremenljivko(s[1].as_str()) {
                Some(v) => {
                    proof {
                        lema_tip_pogled(&*v);
                    }
                    match v.tip() {
                        Some(Tip::Seznam(..)) => Some(Ok(Vozlisce::RefSeznama(v).rc())),
                        Some(_) => Some(Ok(Vozlisce::Referenca(v).rc())),
                        None => None,
                    }
                },
                None => neznana_x(&s[1]),
            };
        }
        if n == 2 && vrsta(&s[0]) == 9 && je_operator_x(&s[1], "@") {
            return match self.poisci_spremenljivko(s[0].as_str()) {
                Some(v) => {
                    proof {
                        lema_tip_pogled(&*v);
                    }
                    match &*v {
                        Vozlisce::Spremenljivka { tip: Tip::Referenca(..), .. } => Some(
                            Ok(Vozlisce::Dereferenciraj(v.clone()).rc()),
                        ),
                        Vozlisce::Spremenljivka { .. } => napaka_o(
                            s,
                            OznakaNapake::E2,
                            "Dereferenciramo lahko samo referenco.",
                        ),
                        _ => napaka_o(s, OznakaNapake::E2, "Dereferenciramo lahko samo spremenljivko."),
                    }
                },
                None => neznana_x(&s[0]),
            };
        }
        if n == 1 && vrsta(&s[0]) == 10 {
            return napaka_o(s, OznakaNapake::E1, "Neznana beseda");
        }
        if n == 0 {
            return Some(Ok(Vozlisce::Prazno.rc()));
        }
        let mut sp = String::new();
        sp.append("Neznan izraz: ");
        sp.append(zdruzi_x(s).as_str());
        napaka_o(s, OznakaNapake::E1, sp.as_str())
    }

    /// A basic expression of three tokens or more with a variable: an
    /// element or a length; else an unknown expression.
    #[verifier::spinoff_prover]
    #[verifier::rlimit(60)]
    fn osnovni_dolgo(&self, s: &[Zeton], g: usize) -> (r: Option<Result<Rc<Vozlisce>, Napake>>)
        requires
            vsi_v_mejah(s@),
            !((s@.len() == 1 && 2 <= s@[0].vrsta() <= 6) || (s@.len() == 2 && je_operator(s@[0], "-"@) && (
            s@[1].vrsta() == 5 || s@[1].vrsta() == 6))),
            !((s@.len() >= 2 && je_locilo(s@[0], "("@) && je_locilo(s@[s@.len() - 1], ")"@)) || (s@.len() >= 3
                && s@[0] is Ime && je_locilo(s@[1], "("@) && je_locilo(s@[s@.len() - 1], ")"@)) || (s@.len() >= 2
                && je_operator(s@[s@.len() - 2], "kot"@) && s@[s@.len() - 1] is Tip) || (s@.len() >= 1 && je_operator(
                s@[0],
                "!"@,
            )) || (s@.len() >= 1 && je_operator(s@[0], "-"@))),
            s@.len() >= 3,
        ensures
            ustreza(r, osnovni_v(self@, s@, g as nat)),
        decreases s@.len() + 3 * g, 3int,
    {
        let n = s.len();
        if n >= 3 && vrsta(&s[0]) == 9 && je_locilo_x(&s[1], "[") && je_locilo_x(&s[n - 1], "]") {
            let i = match self.drevo_g(&s[2..n - 1], g) {
                Some(Ok(i)) => i,
                drugo => {
                    return drugo;
                },
            };
            return match self.poisci_spremenljivko(s[0].as_str()) {
                Some(v) => indeks_x(s, v, i),
                None => neznana_x(&s[0]),
            };
        }
        if n == 3 && vrsta(&s[0]) == 9 && je_locilo_x(&s[1], ".") && je_ime_x(&s[2], "dolžina") {
            return match self.poisci_spremenljivko(s[0].as_str()) {
                Some(v) => {
                    proof {
                        lema_tip_pogled(&*v);
                    }
                    match v.tip() {
                        Some(Tip::Seznam(..)) | Some(Tip::RefSeznama(..)) => Some(Ok(Vozlisce::Dolzina(v).rc())),
                        Some(t) => {
                            let mut sp = String::new();
                            sp.append("Tip '");
                            sp.append(t.to_string().as_str());
                            sp.append("' nima dolžine");
                            Some(Err(napaka_zetona(&s[0], OznakaNapake::E2, sp.as_str())))
                        },
                        None => None,
                    }
                },
                None => neznana_x(&s[0]),
            };
        }
        let mut sp = String::new();
        sp.append("Neznan izraz: ");
        sp.append(zdruzi_x(s).as_str());
        napaka_o(s, OznakaNapake::E1, sp.as_str())
    }

    /// Converts the expression `s` to the type that `t` names (see
    /// `pretvorba_v`).
    #[verifier::spinoff_prover]
    #[verifier::rlimit(60)]
    fn pretvorba(&self, s: &[Zeton], t: &Zeton, g: usize) -> (r: Option<Result<Rc<Vozlisce>, Napake>>)
        requires
            vsi_v_mejah(s@),
            v_mejah(*t),
            *t is Tip,
        ensures
            ustreza(r, pretvorba_v(self@, s@, *t, g as nat)),
        decreases s@.len() + 1 + 3 * g, 0int,
    {
        let ghost id = drevo_v(self@, s@, g as nat);
        let d = match self.drevo_g(s, g) {
            Some(Ok(d)) => d,
            drugo => {
                return drugo;
            },
        };
        proof {
            lema_tip_pogled(&*d);
        }
        let noter = match d.tip() {
            Some(x) => x,
            None => {
                return None;
            },
        };
        let samo = [*t];
        assert(samo@ == seq![*t]);
        assert(!je_operator(samo@[0], "@"@) && !(tip_iz(samo@) is Panika));
        let ven = match Tip::from(&samo) {
            Ok(x) => x,
            Err(e) => {
                return Some(Err(e));
            },
        };
        match (&noter, &ven) {
            (Tip::Real, Tip::Celo) => Some(Ok(Vozlisce::RealVCelo(d).rc())),
            (Tip::Celo, Tip::Real) => Some(Ok(Vozlisce::CeloVReal(d).rc())),
            (Tip::Celo, Tip::Znak) => Some(Ok(Vozlisce::CeloVZnak(d).rc())),
            (Tip::Znak, Tip::Celo) => Some(Ok(Vozlisce::ZnakVCelo(d).rc())),
            _ => if noter.enak(&ven) {
                Some(Ok(d))
            } else {
                let mut sp = String::new();
                sp.append("Tipa ");
                sp.append(noter.to_string().as_str());
                sp.append(" ni mogoče pretvoriti v ");
                sp.append(ven.to_string().as_str());
                Some(Err(napaka_zetona(t, OznakaNapake::E1, sp.as_str())))
            },
        }
    }
}

} // verus!
