//! The lexer of the language: it splits a source text into tokens, each with
//! its line, its column and the name of the file it came from.

use crate::besedilo::{dodaj_desetisko, desetisko};
use crate::razclenjevanje::{
    lema_po_vrsti, po_vrsti, prevedi_vse, razcleni_vse, razcleni_z_vzorci, vsi_veljavni, Zadetek,
};
use vstd::prelude::*;
use vstd::string::StrSliceExecFns;
use vstd::string::StringExecFns;

verus! {

/// A token: its text, line, column and file name.
#[derive(Debug, Clone, Copy, PartialEq)]
pub enum Zeton<'a> {
    Locilo(&'a str, usize, usize, &'a str),
    Operator(&'a str, usize, usize, &'a str),
    Rezerviranka(&'a str, usize, usize, &'a str),
    Ime(&'a str, usize, usize, &'a str),
    Tip(&'a str, usize, usize, &'a str),
    Literal(L<'a>),
    Neznano(&'a str, usize, usize, &'a str),
}

/// A literal token.
#[derive(Debug, Clone, Copy, PartialEq)]
pub enum L<'a> {
    Bool(&'a str, usize, usize, &'a str),
    Celo(&'a str, usize, usize, &'a str),
    Real(&'a str, usize, usize, &'a str),
    Znak(&'a str, usize, usize, &'a str),
    Niz(&'a str, usize, usize, &'a str),
}

/// A pattern of the lexer.
pub const VZOREC_REZERVIRANKA: &'static str = "^([^\\S\\n]*)(naj|spr|kons|čene|če|dokler|za|funkcija|vrni|prekini)(?:[\"=<>|&!+\\-*/%^@,;:#\\n(){}\\[\\]]|\\b|$)";
/// A pattern of the lexer.
pub const VZOREC_TIP: &'static str = "^([^\\S\\n]*)(brez|bool|celo|real|znak)(?:[\"=<>|&!+\\-*/%^@,;:#\\n(){}\\[\\]]|\\b|$)";
/// A pattern of the lexer.
pub const VZOREC_BOOL: &'static str = "^([^\\S\\n]*)(resnica|laž)(?:[\"=<>|&!+\\-*/%^@,;:#\\n(){}\\[\\]]|\\b|$)";
/// A pattern of the lexer.
pub const VZOREC_ZNAK: &'static str = "^([^\\S\\n]*)('(.|\\\\[\\\\nrt'])')";
/// A pattern of the lexer.
pub const VZOREC_NIZ: &'static str = "^([^\\S\\n]*)(\"[^\n\"]*\")";
/// A pattern of the lexer.
pub const VZOREC_REAL: &'static str = "^([^\\S\\n]*)(\\d+\\.\\d+|\\d{1,3}(_\\d{3})+\\.(\\d{3}_)+\\d{1,3})(?:[\"=<>|&!+\\-*/%^@,;:#\\n(){}\\[\\]]|\\b|$)";
/// A pattern of the lexer.
pub const VZOREC_CELO: &'static str = "^([^\\S\\n]*)(\\d+|\\d{1,3}(_\\d{3})+)(?:[\"=<>|&!+\\-*/%^@,;:#\\n(){}\\[\\]]|\\b|$)";
/// A pattern of the lexer.
pub const VZOREC_LOCILO: &'static str = "^([^\\S\\n]*)([.,;:#\\n(){}\\[\\]]|->)";
/// A pattern of the lexer.
pub const VZOREC_OPERATOR: &'static str = "^([^\\S\\n]*)(?x)(\n                        # pretvorba\n                            kot |\n                        # zamik\n                            <<= | >>= | << | >> |\n                        # primerjava\n                            == | != | <= | >= | < | > |\n                        # spreminjanje vrednosti\n                            \\*\\*= | \\|\\|= | &&= | [+\\-*/%|&^]= |\n                        # Boolovi operatorji\n                            \\|\\| | && | ! |\n                        # aritmetika\n                            \\*\\* | [+\\-*/%] |\n                        # binarna aritmetika\n                            [|&^] |\n                        # prirejanje\n                            = |\n                        # referenca\n                            @\n                        )";
/// A pattern of the lexer.
pub const VZOREC_IME: &'static str = "^([^\\S\\n]*)([_\\p{Letter}][\\w\\d]*)(?:[\"=<>|&!+\\-*/%^@,;:#\\n(){}\\[\\]]|\\b|$)";
/// A pattern of the lexer.
pub const VZOREC_NEZNANO: &'static str = "^([^\\S\\n]*)(\\S*)(?:[\"=<>|&!+\\-*/%^@,;:#\\n(){}\\[\\]]|\\b|$)";

/// The patterns of the lexer, in the order in which they are tried.
pub open spec fn vzorci_lekserja() -> Seq<Seq<char>> {
    seq![
        VZOREC_REZERVIRANKA@,
        VZOREC_TIP@,
        VZOREC_BOOL@,
        VZOREC_ZNAK@,
        VZOREC_NIZ@,
        VZOREC_REAL@,
        VZOREC_CELO@,
        VZOREC_LOCILO@,
        VZOREC_OPERATOR@,
        VZOREC_IME@,
        VZOREC_NEZNANO@,
    ]
}

/// The position of the separator pattern in the table.
pub const VRSTA_LOCILA: usize = 7;

/// The position of the catch-all pattern in the table.
pub const VRSTA_NEZNANEGA: usize = 10;

/// The tokens that the lexer finds in `tekst`, as pattern index, character
/// range, line and column.
pub open spec fn zetoni_besedila(tekst: Seq<char>) -> Seq<(int, int, int, int, int)> {
    razcleni_vse(vzorci_lekserja(), tekst, VRSTA_LOCILA as int, VRSTA_NEZNANEGA as int)
}

impl<'a> Zeton<'a> {
    /// The index in the pattern table of the pattern that yields tokens of
    /// this kind.
    pub open spec fn vrsta(&self) -> int {
        match self {
            Zeton::Rezerviranka(..) => 0,
            Zeton::Tip(..) => 1,
            Zeton::Literal(L::Bool(..)) => 2,
            Zeton::Literal(L::Znak(..)) => 3,
            Zeton::Literal(L::Niz(..)) => 4,
            Zeton::Literal(L::Real(..)) => 5,
            Zeton::Literal(L::Celo(..)) => 6,
            Zeton::Locilo(..) => 7,
            Zeton::Operator(..) => 8,
            Zeton::Ime(..) => 9,
            Zeton::Neznano(..) => 10,
        }
    }

    /// The text of the token.
    pub open spec fn besedilo(&self) -> &'a str {
        match self {
            Zeton::Locilo(b, ..) | Zeton::Operator(b, ..) | Zeton::Rezerviranka(b, ..) | Zeton::Ime(b, ..)
            | Zeton::Tip(b, ..) | Zeton::Neznano(b, ..) => *b,
            Zeton::Literal(l) => match l {
                L::Bool(b, ..) | L::Celo(b, ..) | L::Real(b, ..) | L::Znak(b, ..) | L::Niz(b, ..) => *b,
            },
        }
    }

    /// The line of the token.
    pub open spec fn vrstica(&self) -> usize {
        match self {
            Zeton::Locilo(_, v, ..) | Zeton::Operator(_, v, ..) | Zeton::Rezerviranka(_, v, ..) | Zeton::Ime(
                _,
                v,
                ..,
            ) | Zeton::Tip(_, v, ..) | Zeton::Neznano(_, v, ..) => *v,
            Zeton::Literal(l) => match l {
                L::Bool(_, v, ..) | L::Celo(_, v, ..) | L::Real(_, v, ..) | L::Znak(_, v, ..) | L::Niz(
                    _,
                    v,
                    ..,
                ) => *v,
            },
        }
    }

    /// The column of the token.
    pub open spec fn stolpec(&self) -> usize {
        match self {
            Zeton::Locilo(_, _, z, _) | Zeton::Operator(_, _, z, _) | Zeton::Rezerviranka(_, _, z, _)
            | Zeton::Ime(_, _, z, _) | Zeton::Tip(_, _, z, _) | Zeton::Neznano(_, _, z, _) => *z,
            Zeton::Literal(l) => match l {
                L::Bool(_, _, z, _) | L::Celo(_, _, z, _) | L::Real(_, _, z, _) | L::Znak(_, _, z, _)
                | L::Niz(_, _, z, _) => *z,
            },
        }
    }

    /// The name of the file of the token.
    pub open spec fn izvor(&self) -> &'a str {
        match self {
            Zeton::Locilo(.., f) | Zeton::Operator(.., f) | Zeton::Rezerviranka(.., f) | Zeton::Ime(.., f)
            | Zeton::Tip(.., f) | Zeton::Neznano(.., f) => *f,
            Zeton::Literal(l) => match l {
                L::Bool(.., f) | L::Celo(.., f) | L::Real(.., f) | L::Znak(.., f) | L::Niz(.., f) => *f,
            },
        }
    }

    /// Whether the token is a literal.
    pub open spec fn je_literal(&self) -> bool {
        self is Literal
    }

    /// The place of the token as text: `file: [line, column)`, and for a
    /// literal `[file: line, column)`.
    pub open spec fn lokacija_besedilo(&self) -> Seq<char> {
        if self.je_literal() {
            "["@ + self.izvor()@ + ": "@ + desetisko(self.vrstica() as nat) + ", "@ + desetisko(
                self.stolpec() as nat,
            ) + ")"@
        } else {
            self.izvor()@ + ": ["@ + desetisko(self.vrstica() as nat) + ", "@ + desetisko(self.stolpec() as nat)
                + ")"@
        }
    }

    /// Line and column of the token.
    pub fn lokacija(&self) -> (r: (usize, usize))
        ensures
            r == (self.vrstica(), self.stolpec()),
    {
        match self {
            Zeton::Locilo(_, v, z, _) | Zeton::Operator(_, v, z, _) | Zeton::Rezerviranka(_, v, z, _)
            | Zeton::Ime(_, v, z, _) | Zeton::Tip(_, v, z, _) | Zeton::Neznano(_, v, z, _) => (*v, *z),
            Zeton::Literal(literal) => match literal {
                L::Bool(_, v, z, _) | L::Celo(_, v, z, _) | L::Real(_, v, z, _) | L::Znak(_, v, z, _)
                | L::Niz(_, v, z, _) => (*v, *z),
            },
        }
    }

    /// The name of the file of the token.
    pub fn datoteka(&self) -> (r: String)
        ensures
            r@ == self.izvor()@,
    {
        let f: &str = match self {
            Zeton::Locilo(.., f) | Zeton::Operator(.., f) | Zeton::Rezerviranka(.., f) | Zeton::Ime(.., f)
            | Zeton::Tip(.., f) | Zeton::Neznano(.., f) => *f,
            Zeton::Literal(literal) => match literal {
                L::Bool(.., f) | L::Celo(.., f) | L::Real(.., f) | L::Znak(.., f) | L::Niz(.., f) => *f,
            },
        };
        f.to_owned()
    }

    /// The place of the token as text: `file: [line, column)`, and for a
    /// literal `[file: line, column)`.
    pub fn lokacija_str(&self) -> (r: String)
        ensures
            r@ == self.lokacija_besedilo(),
    {
        let (v, z) = self.lokacija();
        let f = self.datoteka();
        let mut s = String::new();
        if self.je_literal_exec() {
            s.append("[");
            s.append(f.as_str());
            s.append(": ");
        } else {
            s.append(f.as_str());
            s.append(": [");
        }
        dodaj_desetisko(&mut s, v as u64);
        s.append(", ");
        dodaj_desetisko(&mut s, z as u64);
        s.append(")");
        s
    }

    fn je_literal_exec(&self) -> (r: bool)
        ensures
            r == self.je_literal(),
    {
        match self {
            Zeton::Literal(_) => true,
            _ => false,
        }
    }

    /// The length of the token's text in bytes.
    pub fn len(&self) -> (r: usize)
        ensures
            r == self.besedilo().len(),
    {
        self.as_str().len()
    }

    /// The text of the token.
    pub fn as_str(&self) -> (r: &'a str)
        ensures
            r == self.besedilo(),
    {
        match self {
            Zeton::Locilo(val, ..) | Zeton::Operator(val, ..) | Zeton::Rezerviranka(val, ..) | Zeton::Ime(
                val,
                ..,
            ) | Zeton::Tip(val, ..) | Zeton::Neznano(val, ..) => *val,
            Zeton::Literal(literal) => match literal {
                L::Bool(val, ..) | L::Celo(val, ..) | L::Real(val, ..) | L::Znak(val, ..) | L::Niz(
                    val,
                    ..,
                ) => *val,
            },
        }
    }

    /// The text of the token, as an owned string.
    pub fn to_string(&self) -> (r: String)
        ensures
            r@ == self.besedilo()@,
    {
        self.as_str().to_owned()
    }
}

/// A boolean literal.
pub fn bool<'a>(val: &'a str, v: usize, z: usize, f: &'a str) -> (r: Zeton<'a>)
    ensures
        r == Zeton::Literal(L::Bool(val, v, z, f)),
{
    Zeton::Literal(L::Bool(val, v, z, f))
}

/// An integer literal.
pub fn celo<'a>(val: &'a str, v: usize, z: usize, f: &'a str) -> (r: Zeton<'a>)
    ensures
        r == Zeton::Literal(L::Celo(val, v, z, f)),
{
    Zeton::Literal(L::Celo(val, v, z, f))
}

/// A real literal.
pub fn realno<'a>(val: &'a str, v: usize, z: usize, f: &'a str) -> (r: Zeton<'a>)
    ensures
        r == Zeton::Literal(L::Real(val, v, z, f)),
{
    Zeton::Literal(L::Real(val, v, z, f))
}

/// A character literal.
pub fn znak<'a>(val: &'a str, v: usize, z: usize, f: &'a str) -> (r: Zeton<'a>)
    ensures
        r == Zeton::Literal(L::Znak(val, v, z, f)),
{
    Zeton::Literal(L::Znak(val, v, z, f))
}

/// A string literal.
pub fn niz<'a>(val: &'a str, v: usize, z: usize, f: &'a str) -> (r: Zeton<'a>)
    ensures
        r == Zeton::Literal(L::Niz(val, v, z, f)),
{
    Zeton::Literal(L::Niz(val, v, z, f))
}

/// The token of the given kind (an index into the pattern table).
fn zgradi<'a>(vrsta: usize, val: &'a str, v: usize, z: usize, f: &'a str) -> (r: Zeton<'a>)
    requires
        vrsta <= VRSTA_NEZNANEGA,
    ensures
        r.vrsta() == vrsta,
        r.besedilo() == val,
        r.vrstica() == v,
        r.stolpec() == z,
        r.izvor() == f,
{
    match vrsta {
        0 => Zeton::Rezerviranka(val, v, z, f),
        1 => Zeton::Tip(val, v, z, f),
        2 => bool(val, v, z, f),
        3 => znak(val, v, z, f),
        4 => niz(val, v, z, f),
        5 => realno(val, v, z, f),
        6 => celo(val, v, z, f),
        7 => Zeton::Locilo(val, v, z, f),
        8 => Zeton::Operator(val, v, z, f),
        9 => Zeton::Ime(val, v, z, f),
        _ => Zeton::Neznano(val, v, z, f),
    }
}

/// Whether the token `z` is the token described by `s` (pattern index,
/// character range, line, column) in `tekst` of the file `ime`.
pub open spec fn ustreza(z: Zeton, s: (int, int, int, int, int), tekst: Seq<char>, ime: Seq<char>) -> bool {
    &&& z.vrsta() == s.0
    &&& z.besedilo()@ == tekst.subrange(s.1, s.2)
    &&& z.vrstica() == s.3
    &&& z.stolpec() == s.4
    &&& z.izvor()@ == ime
}

/// A source text together with the name of its file.
pub struct Lekser<'a> {
    ime: &'a str,
    tekst: &'a str,
}

/// Splitting a text into tokens.
pub trait Razcleni {
    /// The number of characters of the text.
    spec fn st_znakov(&self) -> int;

    /// The tokens of the text, which comes from the file `ime`.
    fn razcleni<'b>(&'b self, ime: &'b str) -> Vec<Zeton<'b>>
        requires
            self.st_znakov() < usize::MAX,
    ;
}

impl Razcleni for str {
    open spec fn st_znakov(&self) -> int {
        self@.len() as int
    }

    fn razcleni<'b>(&'b self, ime: &'b str) -> (r: Vec<Zeton<'b>>)
        ensures
            vsi_veljavni(vzorci_lekserja()) ==> r@.len() == zetoni_besedila(self@).len() && forall|j: int|
                0 <= j < r@.len() ==> ustreza(#[trigger] r@[j], zetoni_besedila(self@)[j], self@, ime@),
            !vsi_veljavni(vzorci_lekserja()) ==> r@.len() == 0,
    {
        let lekser = Lekser::new(ime, self);
        lekser.razcleni()
    }
}

impl<'a> Lekser<'a> {
    /// The name of the file.
    pub closed spec fn ime(&self) -> &'a str {
        self.ime
    }

    /// The source text.
    pub closed spec fn tekst(&self) -> &'a str {
        self.tekst
    }

    /// A lexer for the text `tekst` of the file `ime`.
    pub fn new(ime: &'a str, tekst: &'a str) -> (r: Self)
        ensures
            r.ime() == ime,
            r.tekst() == tekst,
    {
        Lekser { ime, tekst }
    }

    /// The tokens of the text. When `regex` compiles every pattern they are
    /// the tokens of `zetoni_besedila`; otherwise there are none.
    pub fn razcleni(&self) -> (r: Vec<Zeton<'a>>)
        requires
            self.tekst()@.len() < usize::MAX,
        ensures
            vsi_veljavni(vzorci_lekserja()) ==> r@.len() == zetoni_besedila(self.tekst()@).len()
                && forall|j: int|
                0 <= j < r@.len() ==> ustreza(
                    #[trigger] r@[j],
                    zetoni_besedila(self.tekst()@)[j],
                    self.tekst()@,
                    self.ime()@,
                ),
            !vsi_veljavni(vzorci_lekserja()) ==> r@.len() == 0,
    {
        let izvori = [
            VZOREC_REZERVIRANKA,
            VZOREC_TIP,
            VZOREC_BOOL,
            VZOREC_ZNAK,
            VZOREC_NIZ,
            VZOREC_REAL,
            VZOREC_CELO,
            VZOREC_LOCILO,
            VZOREC_OPERATOR,
            VZOREC_IME,
            VZOREC_NEZNANO,
        ];
        proof {
            assert(izvori@.map_values(|s: &str| s@) =~= vzorci_lekserja());
        }
        let vzorci = match prevedi_vse(&izvori) {
            Some(v) => v,
            None => {
                return Vec::new();
            },
        };
        let surovi = razcleni_z_vzorci(&vzorci, self.tekst, VRSTA_LOCILA, VRSTA_NEZNANEGA);
        let ghost s = zetoni_besedila(self.tekst@);
        proof {
            assert(s == surovi@.map_values(|z: Zadetek| z@));
        }
        let mut r: Vec<Zeton<'a>> = Vec::new();
        let mut j: usize = 0;
        while j < surovi.len()
            invariant
                0 <= j <= surovi@.len(),
                s == surovi@.map_values(|z: Zadetek| z@),
                surovi@.len() == s.len(),
                vzorci@.len() == 11,
                forall|i: int| 0 <= i < surovi@.len() ==> (#[trigger] surovi@[i]).vrsta < vzorci@.len()
                    && surovi@[i].od <= surovi@[i].konec <= self.tekst@.len(),
                r@.len() == j,
                forall|i: int| 0 <= i < j ==> ustreza(#[trigger] r@[i], s[i], self.tekst@, self.ime@),
            decreases surovi@.len() - j,
        {
            let z = surovi[j];
            let val = self.tekst.substring_char(z.od, z.konec);
            let zeton = zgradi(z.vrsta, val, z.vrstica, z.znak, self.ime);
            r.push(zeton);
            proof {
                assert(s[j as int] == z@);
            }
            j = j + 1;
        }
        r
    }
}

/// The tokens of a text come in the order of the text: each covers a range
/// of it, no two overlap, and their lines never go back.
pub proof fn zakon_zetoni_po_vrsti(tekst: Seq<char>)
    ensures
        po_vrsti(zetoni_besedila(tekst), tekst, 0, 1),
{
    lema_po_vrsti(vzorci_lekserja(), tekst, 0, 1, 1, VRSTA_LOCILA as int, VRSTA_NEZNANEGA as int);
}

} // verus!
