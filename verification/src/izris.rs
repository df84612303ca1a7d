//! How a node of the syntax tree is written: alone, as its short label, and
//! as an indented tree of the nodes under it.
//!
//! A real number is written as the caller gives it: the caller hands over a
//! table of pairs, the bits of an `f32` and its text, and the first pair
//! with a node's bits gives that node's text.

use crate::besedilo::{desetisko_celo, dodaj_desetisko_celo, znaki};
use crate::nalaganje::{je_presledek, presledek};
use crate::tip::{prikaz, TipV};
use crate::vozlisce::Vozlisce;
use crate::zapis::{dodaj_ubezno, ubezi};
use std::rc::Rc;
use vstd::prelude::*;

verus! {

/// The table of texts of real numbers, with each text by its characters.
pub open spec fn tabela(t: Seq<(u32, String)>) -> Seq<(u32, Seq<char>)> {
    t.map_values(|p: (u32, String)| (p.0, p.1@))
}

/// The text that the table gives for the real number with bits `b`: that of
/// the first pair with those bits, `None` where no pair has them.
pub open spec fn besedilo_realnega(t: Seq<(u32, Seq<char>)>, b: u32) -> Option<Seq<char>>
    decreases t.len(),
{
    if t.len() == 0 {
        None
    } else if t[0].0 == b {
        Some(t[0].1)
    } else {
        besedilo_realnega(t.drop_first(), b)
    }
}

/// Two texts one after the other, where both are there.
pub open spec fn spoji(a: Option<Seq<char>>, b: Option<Seq<char>>) -> Option<Seq<char>> {
    match (a, b) {
        (Some(x), Some(y)) => Some(x + y),
        _ => None,
    }
}

/// The characters of a string, where it is there.
pub open spec fn pogled_o(x: Option<String>) -> Option<Seq<char>> {
    match x {
        Some(s) => Some(s@),
        None => None,
    }
}

/// A string with each character escaped: a backslash, a line feed, a tab, a
/// carriage return and both quotes are written with a backslash before them.
pub open spec fn ubezen_niz(s: Seq<char>) -> Seq<char>
    decreases s.len(),
{
    if s.len() == 0 {
        Seq::empty()
    } else {
        ubezen_niz(s.drop_last()) + ubezi(s.last())
    }
}

/// The short label of an operator or a statement node.
pub open spec fn oznaka(v: Vozlisce) -> Seq<char> {
    match v {
        Vozlisce::Resnica => "resnica"@,
        Vozlisce::Laz => "laž"@,
        Vozlisce::Add(..) => "+"@,
        Vozlisce::Sub(..) => "-"@,
        Vozlisce::Mul(..) => "*"@,
        Vozlisce::Div(..) => "/"@,
        Vozlisce::Mod(..) => "%"@,
        Vozlisce::Pow(..) => "**"@,
        Vozlisce::CeloVReal(..) => "kot"@,
        Vozlisce::Zanikaj(..) => "!"@,
        Vozlisce::Konjunkcija(..) => "&&"@,
        Vozlisce::Disjunkcija(..) => "||"@,
        Vozlisce::BitniAli(..) => "|"@,
        Vozlisce::BitniXor(..) => "^"@,
        Vozlisce::BitniIn(..) => "&"@,
        Vozlisce::BitniPremikLevo(..) => "<<"@,
        Vozlisce::BitniPremikDesno(..) => ">>"@,
        Vozlisce::Enako(..) => "=="@,
        Vozlisce::NiEnako(..) => "!="@,
        Vozlisce::Vecje(..) => ">"@,
        Vozlisce::VecjeEnako(..) => ">="@,
        Vozlisce::Manjse(..) => "<"@,
        Vozlisce::ManjseEnako(..) => "<="@,
        Vozlisce::PogojniStavek { .. } => "če"@,
        Vozlisce::Zanka { .. } => "dokler"@,
        Vozlisce::Vrni(_) => "vrni"@,
        Vozlisce::Preberi => "preberi()"@,
        _ => Seq::empty(),
    }
}

/// How a node is written: `()` for an empty node, a string in quotes with
/// its characters escaped, a number in decimal, a real number as the table
/// gives it, a character as itself, a variable as `name: type (+address)`
/// or with `@` for an absolute address, a reference with `@` before what it
/// refers to, a dereference with `@` after it, a length with `.dolžina`
/// after it, an assignment as what is assigned to and ` = `, a function as
/// `funkcija name(parameters) -> type`, a call as the name of the function,
/// a print as `natisni(...)`, and another node by its label. `None` where a
/// real number in it has no text in the table.
pub open spec fn prikaz_vozlisca(v: Vozlisce, t: Seq<(u32, Seq<char>)>) -> Option<Seq<char>>
    decreases v, 0int,
{
    match v {
        Vozlisce::Prazno => Some("()"@),
        Vozlisce::Niz(s) => Some("\""@ + ubezen_niz(s@) + "\""@),
        Vozlisce::Celo(n) => Some(desetisko_celo(n as int)),
        Vozlisce::Real(b) => besedilo_realnega(t, b),
        Vozlisce::Znak(c) => Some(seq![c]),
        Vozlisce::Spremenljivka { tip, ime, naslov, z_odmikom, .. } => Some(
            ime@ + ": "@ + prikaz(tip@) + " ("@ + (if z_odmikom {
                "+"@
            } else {
                "@"@
            }) + desetisko_celo(naslov as int) + ")"@,
        ),
        Vozlisce::Referenca(x) => spoji(Some("@"@), prikaz_vozlisca(*x, t)),
        Vozlisce::RefSeznama(x) => spoji(Some("@"@), prikaz_vozlisca(*x, t)),
        Vozlisce::Dereferenciraj(x) => spoji(prikaz_vozlisca(*x, t), Some("@"@)),
        Vozlisce::Dolzina(x) => spoji(prikaz_vozlisca(*x, t), Some(".dolžina"@)),
        Vozlisce::Prirejanje { spremenljivka, .. } => spoji(
            prikaz_vozlisca(*spremenljivka, t),
            Some(" = "@),
        ),
        Vozlisce::PrirejanjeRef { referenca, .. } => spoji(
            prikaz_vozlisca(*referenca, t),
            Some(" = "@),
        ),
        Vozlisce::Funkcija { tip, ime, parametri, .. } => spoji(
            spoji(
                Some("funkcija "@ + ime@ + "("@),
                prikaz_parametrov(parametri@, parametri@.len() as int, t),
            ),
            Some(") -> "@ + prikaz(tip@)),
        ),
        Vozlisce::FunkcijskiKlic { funkcija, .. } => match *funkcija {
            Vozlisce::Funkcija { ime, .. } => Some(ime@),
            _ => Some(Seq::empty()),
        },
        Vozlisce::Natisni(x) => spoji(
            spoji(Some("natisni("@), prikaz_vozlisca(*x, t)),
            Some(")"@),
        ),
        _ => Some(oznaka(v)),
    }
}

/// How the first `k` parameters are written, joined by `, `.
pub open spec fn prikaz_parametrov(
    ps: Seq<Rc<Vozlisce>>,
    k: int,
    t: Seq<(u32, Seq<char>)>,
) -> Option<Seq<char>>
    decreases ps, k,
{
    if k <= 0 || k > ps.len() {
        Some(Seq::empty())
    } else if k == 1 {
        prikaz_vozlisca(*ps[0], t)
    } else {
        spoji(spoji(prikaz_parametrov(ps, k - 1, t), Some(", "@)), prikaz_vozlisca(*ps[k - 1], t))
    }
}

/// Two spaces for each of `g` levels.
pub open spec fn zamik(g: nat) -> Seq<char> {
    Seq::new(2 * g, |i: int| ' ')
}

/// One space for each of `g` levels.
pub open spec fn presledki(g: nat) -> Seq<char> {
    Seq::new(g, |i: int| ' ')
}

/// The text without the white space at its start.
pub open spec fn brez_vodilnih(s: Seq<char>) -> Seq<char>
    decreases s.len(),
{
    if s.len() > 0 && je_presledek(s[0]) {
        brez_vodilnih(s.drop_first())
    } else {
        s
    }
}

/// A text, where it is there, without the white space at its start.
pub open spec fn obrezan(o: Option<Seq<char>>) -> Option<Seq<char>> {
    match o {
        Some(s) => Some(brez_vodilnih(s)),
        None => None,
    }
}

/// The tree of a node, indented by `g` levels: a node that only moves the
/// machine is not shown; a value, a variable, a reference, a dereference and
/// a length are a line each; an operator is its label on a line and its
/// operands one level deeper; a conversion is its operand with ` kot` and
/// the type it gives; an index into a variable of an array type is the
/// variable's name, `[`, the index one level deeper and `]`, and into a
/// reference to an array the array; a branch, a loop, a return, a block, a
/// function, a call and an assignment are their head and their parts one
/// level deeper, with the branch's parts written from where their first
/// non-blank character stands; a sequence is the trees of its nodes one
/// level deeper, joined by a line with a comma. `None` where an index is
/// into what is neither, where a real number in the tree has no text in the
/// table, or where a level would leave `usize`.
pub open spec fn drevo_vozlisca(v: Vozlisce, g: usize, t: Seq<(u32, Seq<char>)>) -> Option<Seq<char>>
    decreases v, 0int,
{
    let z = zamik(g as nat);
    match v {
        Vozlisce::Prazno => Some(z + "()\n"@),
        Vozlisce::Push(_) | Vozlisce::Pop(_) | Vozlisce::Vrh(_) | Vozlisce::ShraniOdmik
        | Vozlisce::NaloziOdmik | Vozlisce::ProgramskiStevec(_) | Vozlisce::Skok(_)
        | Vozlisce::Klic(_) | Vozlisce::PogojniSkok(..) | Vozlisce::DinamicniSkok => Some(
            Seq::empty(),
        ),
        Vozlisce::Niz(_) | Vozlisce::Celo(_) | Vozlisce::Real(_) | Vozlisce::Znak(_)
        | Vozlisce::Resnica | Vozlisce::Laz | Vozlisce::Spremenljivka { .. }
        | Vozlisce::Referenca(_) | Vozlisce::RefSeznama(_) | Vozlisce::Dereferenciraj(_)
        | Vozlisce::Dolzina(_) => spoji(spoji(Some(z), prikaz_vozlisca(v, t)), Some("\n"@)),
        Vozlisce::Indeksiraj { seznam_ref, indeks } => match *seznam_ref {
            Vozlisce::Spremenljivka { tip, ime, .. } => match tip@ {
                TipV::Seznam(..) | TipV::RefSeznama(..) => spoji(
                    spoji(Some(presledki(g as nat) + ime@ + "["@), drevo_pod(*indeks, g, t)),
                    Some(presledki(g as nat) + "]\n"@),
                ),
                _ => None,
            },
            Vozlisce::RefSeznama(seznam) => drevo_vozlisca(*seznam, g, t),
            _ => None,
        },
        Vozlisce::Konjunkcija(l, d) | Vozlisce::Disjunkcija(l, d) | Vozlisce::BitniAli(l, d)
        | Vozlisce::BitniXor(l, d) | Vozlisce::BitniIn(l, d) | Vozlisce::BitniPremikLevo(l, d)
        | Vozlisce::BitniPremikDesno(l, d) | Vozlisce::Pow(_, l, d) | Vozlisce::Mul(_, l, d)
        | Vozlisce::Div(_, l, d) | Vozlisce::Mod(_, l, d) | Vozlisce::Add(_, l, d)
        | Vozlisce::Sub(_, l, d) | Vozlisce::Enako(_, l, d) | Vozlisce::NiEnako(_, l, d)
        | Vozlisce::Vecje(_, l, d) | Vozlisce::VecjeEnako(_, l, d) | Vozlisce::Manjse(_, l, d)
        | Vozlisce::ManjseEnako(_, l, d) => spoji(
            Some(z + oznaka(v) + "\n"@),
            spoji(drevo_pod(*l, g, t), drevo_pod(*d, g, t)),
        ),
        Vozlisce::CeloVReal(x) => spoji(drevo_vozlisca(*x, g, t), Some(" kot real\n"@)),
        Vozlisce::RealVCelo(x) => spoji(drevo_vozlisca(*x, g, t), Some(" kot celo\n"@)),
        Vozlisce::CeloVZnak(x) => spoji(drevo_vozlisca(*x, g, t), Some(" kot znak\n"@)),
        Vozlisce::ZnakVCelo(x) => spoji(drevo_vozlisca(*x, g, t), Some(" kot celo\n"@)),
        Vozlisce::Zanikaj(x) => spoji(Some(z + oznaka(v) + "\n"@), drevo_pod(*x, g, t)),
        Vozlisce::PogojniStavek { pogoj, resnica, laz } => spoji(
            spoji(
                spoji(Some(z + "če (\n"@), drevo_pod(*pogoj, g, t)),
                spoji(Some(z + ") "@), obrezan(drevo_vozlisca(*resnica, g, t))),
            ),
            match *laz {
                Vozlisce::Prazno => Some(Seq::empty()),
                _ => spoji(Some(z + "čene "@), obrezan(drevo_vozlisca(*laz, g, t))),
            },
        ),
        Vozlisce::Zanka { pogoj, telo } => spoji(
            spoji(Some(z + "dokler(\n"@), drevo_pod(*pogoj, g, t)),
            spoji(Some(z + ") {\n"@), spoji(drevo_pod(*telo, g, t), Some(z + "}\n"@))),
        ),
        Vozlisce::Prirejanje { izraz, .. } | Vozlisce::PrirejanjeRef { izraz, .. } => spoji(
            spoji(spoji(Some(z), prikaz_vozlisca(v, t)), Some("\n"@)),
            drevo_pod(*izraz, g, t),
        ),
        Vozlisce::Vrni(p) => spoji(
            spoji(
                Some(z + "vrni (\n"@),
                match *p {
                    Vozlisce::Prirejanje { izraz, .. } => drevo_pod(*izraz, g, t),
                    _ => Some(Seq::empty()),
                },
            ),
            Some(z + ")\n"@),
        ),
        Vozlisce::Zaporedje(vs) => drevo_zaporedja(vs@, vs@.len() as int, g, t),
        Vozlisce::Okvir { zaporedje, .. } => spoji(
            spoji(Some(z + "{\n"@), drevo_pod(*zaporedje, g, t)),
            Some(z + "}\n"@),
        ),
        Vozlisce::Funkcija { telo, .. } => spoji(
            spoji(spoji(Some(z), prikaz_vozlisca(v, t)), Some(" {\n"@)),
            spoji(drevo_pod(*telo, g, t), Some(z + "}\n"@)),
        ),
        Vozlisce::FunkcijskiKlic { argumenti, .. } => spoji(
            spoji(spoji(Some(z), prikaz_vozlisca(v, t)), Some("(\n"@)),
            spoji(drevo_pod(*argumenti, g, t), Some(z + ")\n"@)),
        ),
        Vozlisce::Natisni(x) => spoji(spoji(Some(z), prikaz_vozlisca(*x, t)), Some("\n"@)),
        Vozlisce::Preberi => Some(presledki(g as nat) + "preberi()"@),
        Vozlisce::Splakni => Some(presledki(g as nat) + "()\n"@),
    }
}

/// The tree of a node one level deeper than `g`; `None` where that level
/// would leave `usize`.
pub open spec fn drevo_pod(v: Vozlisce, g: usize, t: Seq<(u32, Seq<char>)>) -> Option<Seq<char>>
    decreases v, 1int,
{
    if g < usize::MAX {
        drevo_vozlisca(v, (g + 1) as usize, t)
    } else {
        None
    }
}

/// The trees of the first `k` nodes, each one level deeper than `g`, joined
/// by the indentation of `g` levels and `,` on a line.
pub open spec fn drevo_zaporedja(
    vs: Seq<Rc<Vozlisce>>,
    k: int,
    g: usize,
    t: Seq<(u32, Seq<char>)>,
) -> Option<Seq<char>>
    decreases vs, k,
{
    if k <= 0 || k > vs.len() {
        Some(Seq::empty())
    } else if k == 1 {
        drevo_pod(*vs[0], g, t)
    } else {
        spoji(
            spoji(drevo_zaporedja(vs, k - 1, g, t), Some(zamik(g as nat) + ",\n"@)),
            drevo_pod(*vs[k - 1], g, t),
        )
    }
}

/// A string that holds the characters of `x`.
fn besedilo(x: &str) -> (r: String)
    ensures
        r@ == x@,
{
    let mut s = String::new();
    s.append(x);
    s
}

/// Two strings one after the other, where both are there.
fn spoji_o(a: Option<String>, b: Option<String>) -> (r: Option<String>)
    ensures
        pogled_o(r) == spoji(pogled_o(a), pogled_o(b)),
{
    match (a, b) {
        (Some(x), Some(y)) => {
            let mut s = x;
            s.append(y.as_str());
            Some(s)
        },
        _ => None,
    }
}

/// The text of the real number with bits `b` in the table.
fn realno_besedilo(t: &[(u32, String)], b: u32) -> (r: Option<String>)
    ensures
        pogled_o(r) == besedilo_realnega(tabela(t@), b),
{
    let ghost tt = tabela(t@);
    assert(tt.skip(0) =~= tt);
    let mut i: usize = 0;
    while i < t.len()
        invariant
            0 <= i <= t@.len(),
            tt == tabela(t@),
            besedilo_realnega(tt, b) == besedilo_realnega(tt.skip(i as int), b),
        decreases t@.len() - i,
    {
        proof {
            assert(tt.skip(i as int).drop_first() =~= tt.skip(i as int + 1));
            assert(tt.skip(i as int)[0] == tt[i as int]);
        }
        if t[i].0 == b {
            return Some(besedilo(t[i].1.as_str()));
        }
        i = i + 1;
    }
    proof {
        assert(tt.skip(i as int).len() == 0);
    }
    None
}

/// Appends the characters of `x`, each escaped, to `s`.
fn dodaj_ubezen_niz(s: &mut String, x: &str)
    ensures
        final(s)@ == old(s)@ + ubezen_niz(x@),
{
    let z = znaki(x);
    let mut i: usize = 0;
    while i < z.len()
        invariant
            0 <= i <= z@.len(),
            z@ == x@,
            s@ == old(s)@ + ubezen_niz(z@.subrange(0, i as int)),
        decreases z@.len() - i,
    {
        proof {
            let n = z@.subrange(0, i as int + 1);
            assert(n.drop_last() =~= z@.subrange(0, i as int));
            assert(n.last() == z@[i as int]);
        }
        dodaj_ubezno(s, z[i]);
        i = i + 1;
    }
    assert(z@.subrange(0, z@.len() as int) =~= x@);
}

/// The short label of a node (see `oznaka`).
fn oznaka_o(v: &Vozlisce) -> (r: String)
    ensures
        r@ == oznaka(*v),
{
    match v {
        Vozlisce::Resnica => besedilo("resnica"),
        Vozlisce::Laz => besedilo("laž"),
        Vozlisce::Add(..) => besedilo("+"),
        Vozlisce::Sub(..) => besedilo("-"),
        Vozlisce::Mul(..) => besedilo("*"),
        Vozlisce::Div(..) => besedilo("/"),
        Vozlisce::Mod(..) => besedilo("%"),
        Vozlisce::Pow(..) => besedilo("**"),
        Vozlisce::CeloVReal(..) => besedilo("kot"),
        Vozlisce::Zanikaj(..) => besedilo("!"),
        Vozlisce::Konjunkcija(..) => besedilo("&&"),
        Vozlisce::Disjunkcija(..) => besedilo("||"),
        Vozlisce::BitniAli(..) => besedilo("|"),
        Vozlisce::BitniXor(..) => besedilo("^"),
        Vozlisce::BitniIn(..) => besedilo("&"),
        Vozlisce::BitniPremikLevo(..) => besedilo("<<"),
        Vozlisce::BitniPremikDesno(..) => besedilo(">>"),
        Vozlisce::Enako(..) => besedilo("=="),
        Vozlisce::NiEnako(..) => besedilo("!="),
        Vozlisce::Vecje(..) => besedilo(">"),
        Vozlisce::VecjeEnako(..) => besedilo(">="),
        Vozlisce::Manjse(..) => besedilo("<"),
        Vozlisce::ManjseEnako(..) => besedilo("<="),
        Vozlisce::PogojniStavek { .. } => besedilo("če"),
        Vozlisce::Zanka { .. } => besedilo("dokler"),
        Vozlisce::Vrni(_) => besedilo("vrni"),
        Vozlisce::Preberi => besedilo("preberi()"),
        _ => String::new(),
    }
}

/// Two spaces for each of `g` levels.
fn zamik_o(g: usize) -> (r: String)
    ensures
        r@ == zamik(g as nat),
{
    let mut s = String::new();
    let mut i: usize = 0;
    while i < g
        invariant
            0 <= i <= g,
            s@ == zamik(i as nat),
        decreases g - i,
    {
        s.append("  ");
        proof {
            reveal_strlit("  ");
        }
        assert(s@ =~= zamik((i + 1) as nat));
        i = i + 1;
    }
    s
}

/// One space for each of `g` levels.
fn presledki_o(g: usize) -> (r: String)
    ensures
        r@ == presledki(g as nat),
{
    let mut s = String::new();
    let mut i: usize = 0;
    while i < g
        invariant
            0 <= i <= g,
            s@ == presledki(i as nat),
        decreases g - i,
    {
        crate::besedilo::dodaj_znak(&mut s, ' ');
        assert(s@ =~= presledki((i + 1) as nat));
        i = i + 1;
    }
    s
}

/// A string, where it is there, without the white space at its start.
fn obrezan_o(o: Option<String>) -> (r: Option<String>)
    ensures
        pogled_o(r) == obrezan(pogled_o(o)),
{
    match o {
        Some(x) => {
            let z = znaki(x.as_str());
            assert(z@.skip(0) =~= z@);
            let mut i: usize = 0;
            while i < z.len() && presledek(z[i])
                invariant
                    0 <= i <= z@.len(),
                    brez_vodilnih(z@) == brez_vodilnih(z@.skip(i as int)),
                decreases z@.len() - i,
            {
                assert(z@.skip(i as int).drop_first() =~= z@.skip(i as int + 1));
                i = i + 1;
            }
            let mut s = String::new();
            let mut j: usize = i;
            while j < z.len()
                invariant
                    i <= j <= z@.len(),
                    s@ == z@.subrange(i as int, j as int),
                decreases z@.len() - j,
            {
                crate::besedilo::dodaj_znak(&mut s, z[j]);
                assert(s@ =~= z@.subrange(i as int, j as int + 1));
                j = j + 1;
            }
            assert(z@.subrange(i as int, z@.len() as int) =~= z@.skip(i as int));
            Some(s)
        },
        None => None,
    }
}

/// The text of `z` followed by the characters of `x`.
fn z_besedilom(z: &String, x: &str) -> (r: String)
    ensures
        r@ == z@ + x@,
{
    let mut s = besedilo(z.as_str());
    s.append(x);
    s
}

/// The tree of a node one level deeper than `g` (see `drevo_pod`).
fn drevo_pod_o(v: &Vozlisce, g: usize, realna: &[(u32, String)]) -> (r: Option<String>)
    ensures
        pogled_o(r) == drevo_pod(*v, g, tabela(realna@)),
    decreases *v, 1int,
{
    if g < usize::MAX {
        v.drevo(g + 1, realna)
    } else {
        None
    }
}

impl Vozlisce {
    /// How the node is written (see `prikaz_vozlisca`), with the texts of
    /// real numbers from `realna`.
    pub fn to_string(&self, realna: &[(u32, String)]) -> (r: Option<String>)
        ensures
            pogled_o(r) == prikaz_vozlisca(*self, tabela(realna@)),
        decreases self, 0int,
    {
        match self {
            Vozlisce::Prazno => Some(besedilo("()")),
            Vozlisce::Niz(x) => {
                let mut s = besedilo("\"");
                dodaj_ubezen_niz(&mut s, x.as_str());
                s.append("\"");
                Some(s)
            },
            Vozlisce::Celo(n) => {
                let mut s = String::new();
                dodaj_desetisko_celo(&mut s, *n as i64);
                Some(s)
            },
            Vozlisce::Real(b) => realno_besedilo(realna, *b),
            Vozlisce::Znak(c) => {
                let mut s = String::new();
                crate::besedilo::dodaj_znak(&mut s, *c);
                assert(s@ =~= seq![*c]);
                Some(s)
            },
            Vozlisce::Spremenljivka { tip, ime, naslov, z_odmikom, .. } => {
                let mut s = besedilo(ime.as_str());
                s.append(": ");
                tip.prikazi(&mut s);
                s.append(" (");
                if *z_odmikom {
                    s.append("+");
                } else {
                    s.append("@");
                }
                dodaj_desetisko_celo(&mut s, *naslov as i64);
                s.append(")");
                Some(s)
            },
            Vozlisce::Referenca(x) | Vozlisce::RefSeznama(x) => spoji_o(
                Some(besedilo("@")),
                x.to_string(realna),
            ),
            Vozlisce::Dereferenciraj(x) => spoji_o(x.to_string(realna), Some(besedilo("@"))),
            Vozlisce::Dolzina(x) => spoji_o(x.to_string(realna), Some(besedilo(".dolžina"))),
            Vozlisce::Prirejanje { spremenljivka, .. } => spoji_o(
                spremenljivka.to_string(realna),
                Some(besedilo(" = ")),
            ),
            Vozlisce::PrirejanjeRef { referenca, .. } => spoji_o(
                referenca.to_string(realna),
                Some(besedilo(" = ")),
            ),
            Vozlisce::Funkcija { tip, ime, parametri, telo, prostor } => {
                let mut glava = besedilo("funkcija ");
                glava.append(ime.as_str());
                glava.append("(");
                let mut rep = besedilo(") -> ");
                tip.prikazi(&mut rep);
                let mut p: Option<String> = Some(String::new());
                let ghost t = tabela(realna@);
                let mut i: usize = 0;
                while i < parametri.len()
                    invariant
                        0 <= i <= parametri@.len(),
                        *self == (Vozlisce::Funkcija {
                            tip: *tip,
                            ime: *ime,
                            parametri: *parametri,
                            telo: *telo,
                            prostor: *prostor,
                        }),
                        t == tabela(realna@),
                        pogled_o(p) == prikaz_parametrov(parametri@, i as int, t),
                    decreases parametri@.len() - i,
                {
                    proof {
                        assert(decreases_to!(*self => self->Funkcija_parametri));
                        assert(self->Funkcija_parametri == *parametri);
                        assert(decreases_to!(*parametri => parametri@));
                        assert(decreases_to!(parametri@ => parametri@[i as int]));
                        assert(decreases_to!(*self => parametri@[i as int]));
                    }
                    let x = parametri[i].to_string(realna);
                    if i == 0 {
                        p = x;
                    } else {
                        p = spoji_o(spoji_o(p, Some(besedilo(", "))), x);
                    }
                    i = i + 1;
                }
                spoji_o(spoji_o(Some(glava), p), Some(rep))
            },
            Vozlisce::FunkcijskiKlic { funkcija, .. } => match &**funkcija {
                Vozlisce::Funkcija { ime, .. } => Some(besedilo(ime.as_str())),
                _ => Some(String::new()),
            },
            Vozlisce::Natisni(x) => spoji_o(
                spoji_o(Some(besedilo("natisni(")), x.to_string(realna)),
                Some(besedilo(")")),
            ),
            _ => Some(oznaka_o(self)),
        }
    }

    /// The tree of the node, indented by `globina` levels (see
    /// `drevo_vozlisca`), with the texts of real numbers from `realna`.
    pub fn drevo(&self, globina: usize, realna: &[(u32, String)]) -> (r: Option<String>)
        ensures
            pogled_o(r) == drevo_vozlisca(*self, globina, tabela(realna@)),
        decreases *self, 0int,
    {
        let g = globina;
        match self {
            Vozlisce::Prazno => Some(z_besedilom(&zamik_o(g), "()\n")),
            Vozlisce::Push(_) | Vozlisce::Pop(_) | Vozlisce::Vrh(_) | Vozlisce::ShraniOdmik
            | Vozlisce::NaloziOdmik | Vozlisce::ProgramskiStevec(_) | Vozlisce::Skok(_)
            | Vozlisce::Klic(_) | Vozlisce::PogojniSkok(..) | Vozlisce::DinamicniSkok => Some(
                String::new(),
            ),
            Vozlisce::Niz(_) | Vozlisce::Celo(_) | Vozlisce::Real(_) | Vozlisce::Znak(_)
            | Vozlisce::Resnica | Vozlisce::Laz | Vozlisce::Spremenljivka { .. }
            | Vozlisce::Referenca(_) | Vozlisce::RefSeznama(_) | Vozlisce::Dereferenciraj(_)
            | Vozlisce::Dolzina(_) => spoji_o(
                spoji_o(Some(zamik_o(g)), self.to_string(realna)),
                Some(besedilo("\n")),
            ),
            Vozlisce::Indeksiraj { seznam_ref, indeks } => match &**seznam_ref {
                Vozlisce::Spremenljivka { tip, ime, .. } => match tip {
                    crate::tip::Tip::Seznam(..) | crate::tip::Tip::RefSeznama(..) => {
                        let mut glava = presledki_o(g);
                        glava.append(ime.as_str());
                        glava.append("[");
                        spoji_o(
                            spoji_o(Some(glava), drevo_pod_o(&**indeks, g, realna)),
                            Some(z_besedilom(&presledki_o(g), "]\n")),
                        )
                    },
                    _ => None,
                },
                Vozlisce::RefSeznama(seznam) => seznam.drevo(g, realna),
                _ => None,
            },
            Vozlisce::Konjunkcija(l, d) | Vozlisce::Disjunkcija(l, d) | Vozlisce::BitniAli(l, d)
            | Vozlisce::BitniXor(l, d) | Vozlisce::BitniIn(l, d) | Vozlisce::BitniPremikLevo(l, d)
            | Vozlisce::BitniPremikDesno(l, d) | Vozlisce::Pow(_, l, d) | Vozlisce::Mul(_, l, d)
            | Vozlisce::Div(_, l, d) | Vozlisce::Mod(_, l, d) | Vozlisce::Add(_, l, d)
            | Vozlisce::Sub(_, l, d) | Vozlisce::Enako(_, l, d) | Vozlisce::NiEnako(_, l, d)
            | Vozlisce::Vecje(_, l, d) | Vozlisce::VecjeEnako(_, l, d) | Vozlisce::Manjse(_, l, d)
            | Vozlisce::ManjseEnako(_, l, d) => {
                let mut glava = zamik_o(g);
                glava.append(oznaka_o(self).as_str());
                glava.append("\n");
                spoji_o(
                    Some(glava),
                    spoji_o(drevo_pod_o(&**l, g, realna), drevo_pod_o(&**d, g, realna)),
                )
            },
            Vozlisce::CeloVReal(x) => spoji_o(x.drevo(g, realna), Some(besedilo(" kot real\n"))),
            Vozlisce::RealVCelo(x) => spoji_o(x.drevo(g, realna), Some(besedilo(" kot celo\n"))),
            Vozlisce::CeloVZnak(x) => spoji_o(x.drevo(g, realna), Some(besedilo(" kot znak\n"))),
            Vozlisce::ZnakVCelo(x) => spoji_o(x.drevo(g, realna), Some(besedilo(" kot celo\n"))),
            Vozlisce::Zanikaj(x) => {
                let mut glava = zamik_o(g);
                glava.append(oznaka_o(self).as_str());
                glava.append("\n");
                spoji_o(Some(glava), drevo_pod_o(&**x, g, realna))
            },
            Vozlisce::PogojniStavek { pogoj, resnica, laz } => {
                let z = zamik_o(g);
                let prvi = spoji_o(
                    spoji_o(Some(z_besedilom(&z, "če (\n")), drevo_pod_o(&**pogoj, g, realna)),
                    spoji_o(Some(z_besedilom(&z, ") ")), obrezan_o(resnica.drevo(g, realna))),
                );
                let drugi = match &**laz {
                    Vozlisce::Prazno => Some(String::new()),
                    _ => spoji_o(Some(z_besedilom(&z, "čene ")), obrezan_o(laz.drevo(g, realna))),
                };
                spoji_o(prvi, drugi)
            },
            Vozlisce::Zanka { pogoj, telo } => {
                let z = zamik_o(g);
                spoji_o(
                    spoji_o(Some(z_besedilom(&z, "dokler(\n")), drevo_pod_o(&**pogoj, g, realna)),
                    spoji_o(
                        Some(z_besedilom(&z, ") {\n")),
                        spoji_o(drevo_pod_o(&**telo, g, realna), Some(z_besedilom(&z, "}\n"))),
                    ),
                )
            },
            Vozlisce::Prirejanje { izraz, .. } | Vozlisce::PrirejanjeRef { izraz, .. } => spoji_o(
                spoji_o(spoji_o(Some(zamik_o(g)), self.to_string(realna)), Some(besedilo("\n"))),
                drevo_pod_o(&**izraz, g, realna),
            ),
            Vozlisce::Vrni(p) => {
                let z = zamik_o(g);
                let izraz = match &**p {
                    Vozlisce::Prirejanje { izraz, .. } => drevo_pod_o(&**izraz, g, realna),
                    _ => Some(String::new()),
                };
                spoji_o(
                    spoji_o(Some(z_besedilom(&z, "vrni (\n")), izraz),
                    Some(z_besedilom(&z, ")\n")),
                )
            },
            Vozlisce::Zaporedje(vs) => {
                let ghost t = tabela(realna@);
                let mut r: Option<String> = Some(String::new());
                let mut i: usize = 0;
                while i < vs.len()
                    invariant
                        0 <= i <= vs@.len(),
                        *self == Vozlisce::Zaporedje(*vs),
                        t == tabela(realna@),
                        pogled_o(r) == drevo_zaporedja(vs@, i as int, g, t),
                    decreases vs@.len() - i,
                {
                    proof {
                        assert(decreases_to!(*self => self->Zaporedje_0));
                        assert(self->Zaporedje_0 == *vs);
                        assert(decreases_to!(*vs => vs@));
                        assert(decreases_to!(vs@ => vs@[i as int]));
                        assert(decreases_to!(*self => *vs@[i as int]));
                    }
                    let x = drevo_pod_o(&*vs[i], g, realna);
                    if i == 0 {
                        r = x;
                    } else {
                        r = spoji_o(spoji_o(r, Some(z_besedilom(&zamik_o(g), ",\n"))), x);
                    }
                    i = i + 1;
                }
                r
            },
            Vozlisce::Okvir { zaporedje, .. } => {
                let z = zamik_o(g);
                spoji_o(
                    spoji_o(Some(z_besedilom(&z, "{\n")), drevo_pod_o(&**zaporedje, g, realna)),
                    Some(z_besedilom(&z, "}\n")),
                )
            },
            Vozlisce::Funkcija { telo, .. } => {
                let z = zamik_o(g);
                spoji_o(
                    spoji_o(spoji_o(Some(besedilo(z.as_str())), self.to_string(realna)), Some(besedilo(" {\n"))),
                    spoji_o(drevo_pod_o(&**telo, g, realna), Some(z_besedilom(&z, "}\n"))),
                )
            },
            Vozlisce::FunkcijskiKlic { argumenti, .. } => {
                let z = zamik_o(g);
                spoji_o(
                    spoji_o(spoji_o(Some(besedilo(z.as_str())), self.to_string(realna)), Some(besedilo("(\n"))),
                    spoji_o(drevo_pod_o(&**argumenti, g, realna), Some(z_besedilom(&z, ")\n"))),
                )
            },
            Vozlisce::Natisni(x) => spoji_o(
                spoji_o(Some(zamik_o(g)), x.to_string(realna)),
                Some(besedilo("\n")),
            ),
            Vozlisce::Preberi => Some(z_besedilom(&presledki_o(g), "preberi()")),
            Vozlisce::Splakni => Some(z_besedilom(&presledki_o(g), "()\n")),
        }
    }
}

} // verus!
