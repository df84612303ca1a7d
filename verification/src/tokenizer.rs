//! An earlier lexer of the language, without file names: it splits a source
//! text into tokens with their line and column.

use crate::besedilo::{dodaj_desetisko, desetisko};
use crate::razclenjevanje::{lema_po_vrsti, po_vrsti, prevedi_vse, razcleni_vse, razcleni_z_vzorci, vsi_veljavni, Zadetek};
use vstd::prelude::*;
use vstd::string::StrSliceExecFns;
use vstd::string::StringExecFns;

verus! {

/// A token: its text, line and column.
#[derive(Debug, Clone, Copy, PartialEq)]
pub enum Token<'a> {
    Locilo(&'a str, usize, usize),
    Operator(&'a str, usize, usize),
    Rezerviranka(&'a str, usize, usize),
    Ime(&'a str, usize, usize),
    Tip(&'a str, usize, usize),
    Literal(L<'a>),
    Neznano(&'a str, usize, usize),
}

/// A literal token.
#[derive(Debug, Clone, Copy, PartialEq)]
pub enum L<'a> {
    Bool(&'a str, usize, usize),
    Celo(&'a str, usize, usize),
    Real(&'a str, usize, usize),
    Znak(&'a str, usize, usize),
    Niz(&'a str, usize, usize),
}

/// A pattern of the tokenizer.
pub const VZOREC_REZERVIRANKA: &'static str = "^([^\\S\\n]*)(naj|čene|če|dokler|za|funkcija|vrni|prekini)(?:[\"=<>|&!+\\-*/%^@,;:#\\n(){}\\[\\]]|\\b|$)";
/// A pattern of the tokenizer.
pub const VZOREC_TIP: &'static str = "^([^\\S\\n]*)(brez|bool|celo|real|znak|niz)(?:[\"=<>|&!+\\-*/%^@,;:#\\n(){}\\[\\]]|\\b|$)";
/// A pattern of the tokenizer.
pub const VZOREC_BOOL: &'static str = "^([^\\S\\n]*)(resnica|laž)(?:[\"=<>|&!+\\-*/%^@,;:#\\n(){}\\[\\]]|\\b|$)";
/// A pattern of the tokenizer.
pub const VZOREC_ZNAK: &'static str = "^([^\\S\\n]*)('[^\\n']')";
/// A pattern of the tokenizer.
pub const VZOREC_NIZ: &'static str = "^([^\\S\\n]*)(\"[^\n\"]*\")";
/// A pattern of the tokenizer.
pub const VZOREC_REAL: &'static str = "^([^\\S\\n]*)(\\d+\\.\\d+|\\d{1,3}(_\\d{3})+\\.(\\d{3}_)+\\d{1,3})(?:[\"=<>|&!+\\-*/%^@,;:#\\n(){}\\[\\]]|\\b|$)";
/// A pattern of the tokenizer.
pub const VZOREC_CELO: &'static str = "^([^\\S\\n]*)(\\d+|\\d{1,3}(_\\d{3})+)(?:[\"=<>|&!+\\-*/%^@,;:#\\n(){}\\[\\]]|\\b|$)";
/// A pattern of the tokenizer.
pub const VZOREC_IME: &'static str = "^([^\\S\\n]*)([_\\p{Letter}][\\w\\d]*)(?:[\"=<>|&!+\\-*/%^@,;:#\\n(){}\\[\\]]|\\b|$)";
/// A pattern of the tokenizer.
pub const VZOREC_LOCILO: &'static str = "^([^\\S\\n]*)([,;:#\\n(){}\\[\\]]|->)";
/// A pattern of the tokenizer.
pub const VZOREC_OPERATOR: &'static str = "^([^\\S\\n]*)(?x)(\n                        # zamik\n                            <<= | >>= | << | >> |\n                        # primerjava\n                            == | != | <= | >= | < | > |\n                        # spreminjanje vrednosti\n                            \\*\\*= | \\|\\|= | &&= | [+\\-*/%|&^]= |\n                        # Boolovi operatorji\n                            \\|\\| | && | ! |\n                        # aritmetika\n                            \\*\\* | [+\\-*/%] |\n                        # binarna aritmetika\n                            [|&^] |\n                        # prirejanje\n                            = |\n                        # referenca\n                            @\n                        )";
/// A pattern of the tokenizer.
pub const VZOREC_NEZNANO: &'static str = "^([^\\S\\n]*)(\\S*)(?:[\"=<>|&!+\\-*/%^@,;:#\\n(){}\\[\\]]|\\b|$)";

/// The patterns of the tokenizer, in the order in which they are tried.
pub open spec fn vzorci_tokenizerja() -> Seq<Seq<char>> {
    seq![
        VZOREC_REZERVIRANKA@,
        VZOREC_TIP@,
        VZOREC_BOOL@,
        VZOREC_ZNAK@,
        VZOREC_NIZ@,
        VZOREC_REAL@,
        VZOREC_CELO@,
        VZOREC_IME@,
        VZOREC_LOCILO@,
        VZOREC_OPERATOR@,
        VZOREC_NEZNANO@,
    ]
}

/// The position of the separator pattern in the table.
pub const VRSTA_LOCILA: usize = 8;

/// The position of the catch-all pattern in the table.
pub const VRSTA_NEZNANEGA: usize = 10;

/// The tokens that the tokenizer finds in `tekst`, as pattern index,
/// character range, line and column.
pub open spec fn tokeni_besedila(tekst: Seq<char>) -> Seq<(int, int, int, int, int)> {
    razcleni_vse(vzorci_tokenizerja(), tekst, VRSTA_LOCILA as int, VRSTA_NEZNANEGA as int)
}

impl<'a> Token<'a> {
    /// The index in the pattern table of the pattern that yields tokens of
    /// this kind.
    pub open spec fn vrsta(&self) -> int {
        match self {
            Token::Rezerviranka(..) => 0,
            Token::Tip(..) => 1,
            Token::Literal(L::Bool(..)) => 2,
            Token::Literal(L::Znak(..)) => 3,
            Token::Literal(L::Niz(..)) => 4,
            Token::Literal(L::Real(..)) => 5,
            Token::Literal(L::Celo(..)) => 6,
            Token::Ime(..) => 7,
            Token::Locilo(..) => 8,
            Token::Operator(..) => 9,
            Token::Neznano(..) => 10,
        }
    }

    /// The text of the token.
    pub open spec fn besedilo(&self) -> &'a str {
        match self {
            Token::Locilo(b, ..) | Token::Operator(b, ..) | Token::Rezerviranka(b, ..) | Token::Ime(b, ..)
            | Token::Tip(b, ..) | Token::Neznano(b, ..) => *b,
            Token::Literal(l) => match l {
                L::Bool(b, ..) | L::Celo(b, ..) | L::Real(b, ..) | L::Znak(b, ..) | L::Niz(b, ..) => *b,
            },
        }
    }

    /// The line of the token.
    pub open spec fn vrstica(&self) -> usize {
        match self {
            Token::Locilo(_, v, _) | Token::Operator(_, v, _) | Token::Rezerviranka(_, v, _) | Token::Ime(
                _,
                v,
                _,
            ) | Token::Tip(_, v, _) | Token::Neznano(_, v, _) => *v,
            Token::Literal(l) => match l {
                L::Bool(_, v, _) | L::Celo(_, v, _) | L::Real(_, v, _) | L::Znak(_, v, _) | L::Niz(_, v, _) => *v,
            },
        }
    }

    /// The column of the token.
    pub open spec fn stolpec(&self) -> usize {
        match self {
            Token::Locilo(_, _, z) | Token::Operator(_, _, z) | Token::Rezerviranka(_, _, z) | Token::Ime(
                _,
                _,
                z,
            ) | Token::Tip(_, _, z) | Token::Neznano(_, _, z) => *z,
            Token::Literal(l) => match l {
                L::Bool(_, _, z) | L::Celo(_, _, z) | L::Real(_, _, z) | L::Znak(_, _, z) | L::Niz(_, _, z) => *z,
            },
        }
    }

    /// Line and column of the token.
    pub fn lokacija(&self) -> (r: (usize, usize))
        ensures
            r == (self.vrstica(), self.stolpec()),
    {
        match self {
            Token::Locilo(_, v, z) | Token::Operator(_, v, z) | Token::Rezerviranka(_, v, z) | Token::Ime(
                _,
                v,
                z,
            ) | Token::Tip(_, v, z) | Token::Neznano(_, v, z) => (*v, *z),
            Token::Literal(literal) => match literal {
                L::Bool(_, v, z) | L::Celo(_, v, z) | L::Real(_, v, z) | L::Znak(_, v, z) | L::Niz(_, v, z) => (
                    *v,
                    *z,
                ),
            },
        }
    }

    /// The place of the token as text: `[line, column)`.
    pub fn lokacija_str(&self) -> (r: String)
        ensures
            r@ == "["@ + desetisko(self.vrstica() as nat) + ", "@ + desetisko(self.stolpec() as nat) + ")"@,
    {
        let (v, z) = self.lokacija();
        let mut s = String::new();
        s.append("[");
        dodaj_desetisko(&mut s, v as u64);
        s.append(", ");
        dodaj_desetisko(&mut s, z as u64);
        s.append(")");
        s
    }

    /// The length of the token's text in bytes.
    pub fn len(&self) -> (r: usize)
        ensures
            r == self.besedilo().len(),
    {
        self.as_str().len()
    }

    /// The text of the token.
    pub fn as_str(&self) -> (r: &'a str)
        ensures
            r == self.besedilo(),
    {
        match self {
            Token::Locilo(val, ..) | Token::Operator(val, ..) | Token::Rezerviranka(val, ..) | Token::Ime(
                val,
                ..,
            ) | Token::Tip(val, ..) | Token::Neznano(val, ..) => *val,
            Token::Literal(literal) => match literal {
                L::Bool(val, ..) | L::Celo(val, ..) | L::Real(val, ..) | L::Znak(val, ..) | L::Niz(
                    val,
                    ..,
                ) => *val,
            },
        }
    }

    /// The text of the token, as an owned string.
    pub fn to_string(&self) -> (r: String)
        ensures
            r@ == self.besedilo()@,
    {
        self.as_str().to_owned()
    }
}

/// A boolean literal.
pub fn bool<'a>(val: &'a str, v: usize, z: usize) -> (r: Token<'a>)
    ensures
        r == Token::Literal(L::Bool(val, v, z)),
{
    Token::Literal(L::Bool(val, v, z))
}

/// An integer literal.
pub fn celo<'a>(val: &'a str, v: usize, z: usize) -> (r: Token<'a>)
    ensures
        r == Token::Literal(L::Celo(val, v, z)),
{
    Token::Literal(L::Celo(val, v, z))
}

/// A real literal.
pub fn realno<'a>(val: &'a str, v: usize, z: usize) -> (r: Token<'a>)
    ensures
        r == Token::Literal(L::Real(val, v, z)),
{
    Token::Literal(L::Real(val, v, z))
}

/// A character literal.
pub fn znak<'a>(val: &'a str, v: usize, z: usize) -> (r: Token<'a>)
    ensures
        r == Token::Literal(L::Znak(val, v, z)),
{
    Token::Literal(L::Znak(val, v, z))
}

/// A string literal.
pub fn niz<'a>(val: &'a str, v: usize, z: usize) -> (r: Token<'a>)
    ensures
        r == Token::Literal(L::Niz(val, v, z)),
{
    Token::Literal(L::Niz(val, v, z))
}

/// The token of the given kind (an index into the pattern table).
fn zgradi<'a>(vrsta: usize, val: &'a str, v: usize, z: usize) -> (r: Token<'a>)
    requires
        vrsta <= VRSTA_NEZNANEGA,
    ensures
        r.vrsta() == vrsta,
        r.besedilo() == val,
        r.vrstica() == v,
        r.stolpec() == z,
{
    match vrsta {
        0 => Token::Rezerviranka(val, v, z),
        1 => Token::Tip(val, v, z),
        2 => bool(val, v, z),
        3 => znak(val, v, z),
        4 => niz(val, v, z),
        5 => realno(val, v, z),
        6 => celo(val, v, z),
        7 => Token::Ime(val, v, z),
        8 => Token::Locilo(val, v, z),
        9 => Token::Operator(val, v, z),
        _ => Token::Neznano(val, v, z),
    }
}

/// Whether the token `t` is the token described by `s` (pattern index,
/// character range, line, column) in `tekst`.
pub open spec fn ustreza(t: Token, s: (int, int, int, int, int), tekst: Seq<char>) -> bool {
    &&& t.vrsta() == s.0
    &&& t.besedilo()@ == tekst.subrange(s.1, s.2)
    &&& t.vrstica() == s.3
    &&& t.stolpec() == s.4
}

/// The tokenizer.
pub struct Tokenizer;

/// Splitting an owned text into tokens.
pub trait Tokenize {
    /// The number of characters of the text.
    spec fn st_znakov(&self) -> int;

    /// The tokens of the text.
    fn tokenize<'a>(&'a self) -> Vec<Token<'a>>
        requires
            self.st_znakov() < usize::MAX,
    ;
}

impl Tokenize for String {
    open spec fn st_znakov(&self) -> int {
        self@.len() as int
    }

    fn tokenize<'a>(&'a self) -> (r: Vec<Token<'a>>)
        ensures
            vsi_veljavni(vzorci_tokenizerja()) ==> r@.len() == tokeni_besedila(self@).len() && forall|j: int|
                0 <= j < r@.len() ==> ustreza(#[trigger] r@[j], tokeni_besedila(self@)[j], self@),
            !vsi_veljavni(vzorci_tokenizerja()) ==> r@.len() == 0,
    {
        Tokenizer::tokenize(self.as_str())
    }
}

impl Tokenizer {
    /// The tokens of `tekst`. When `regex` compiles every pattern they are the
    /// tokens of `tokeni_besedila`; otherwise there are none.
    pub fn tokenize<'a>(tekst: &'a str) -> (r: Vec<Token<'a>>)
        requires
            tekst@.len() < usize::MAX,
        ensures
            vsi_veljavni(vzorci_tokenizerja()) ==> r@.len() == tokeni_besedila(tekst@).len() && forall|j: int|
                0 <= j < r@.len() ==> ustreza(#[trigger] r@[j], tokeni_besedila(tekst@)[j], tekst@),
            !vsi_veljavni(vzorci_tokenizerja()) ==> r@.len() == 0,
    {
        let izvori = [
            VZOREC_REZERVIRANKA,
            VZOREC_TIP,
            VZOREC_BOOL,
            VZOREC_ZNAK,
            VZOREC_NIZ,
            VZOREC_REAL,
            VZOREC_CELO,
            VZOREC_IME,
            VZOREC_LOCILO,
            VZOREC_OPERATOR,
            VZOREC_NEZNANO,
        ];
        proof {
            assert(izvori@.map_values(|s: &str| s@) =~= vzorci_tokenizerja());
        }
        let vzorci = match prevedi_vse(&izvori) {
            Some(v) => v,
            None => {
                return Vec::new();
            },
        };
        let surovi = razcleni_z_vzorci(&vzorci, tekst, VRSTA_LOCILA, VRSTA_NEZNANEGA);
        let ghost s = tokeni_besedila(tekst@);
        let mut r: Vec<Token<'a>> = Vec::new();
        let mut j: usize = 0;
        while j < surovi.len()
            invariant
                0 <= j <= surovi@.len(),
                s == surovi@.map_values(|z: Zadetek| z@),
                surovi@.len() == s.len(),
                vzorci@.len() == 11,
                forall|i: int| 0 <= i < surovi@.len() ==> (#[trigger] surovi@[i]).vrsta < vzorci@.len()
                    && surovi@[i].od <= surovi@[i].konec <= tekst@.len(),
                r@.len() == j,
                forall|i: int| 0 <= i < j ==> ustreza(#[trigger] r@[i], s[i], tekst@),
            decreases surovi@.len() - j,
        {
            let z = surovi[j];
            let val = tekst.substring_char(z.od, z.konec);
            let token = zgradi(z.vrsta, val, z.vrstica, z.znak);
            r.push(token);
            proof {
                assert(s[j as int] == z@);
            }
            j = j + 1;
        }
        r
    }
}

/// The tokens of a text come in the order of the text: each covers a range
/// of it, no two overlap, and their lines never go back.
pub proof fn zakon_tokeni_po_vrsti(tekst: Seq<char>)
    ensures
        po_vrsti(tokeni_besedila(tekst), tekst, 0, 1),
{
    lema_po_vrsti(vzorci_tokenizerja(), tekst, 0, 1, 1, VRSTA_LOCILA as int, VRSTA_NEZNANEGA as int);
}

} // verus!
