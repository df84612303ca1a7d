//! The tokens of the first, word-based reader of the language: each holds
//! its own text.

use crate::besedilo::{iz_znakov, znaki};
use vstd::prelude::*;
use vstd::string::StrSliceExecFns;

verus! {

/// A token with its text.
#[derive(Debug, Clone, PartialEq)]
pub enum Token {
    Locilo(String),
    Literal(String),
    Ime(String),
    Stevilo(String),
    Niz(String),
}

/// The text of a token.
pub open spec fn besedilo_tokena(t: Token) -> Seq<char> {
    match t {
        Token::Locilo(v) | Token::Literal(v) | Token::Ime(v) | Token::Stevilo(v) | Token::Niz(v) => v@,
    }
}

/// The text that a token of the same kind gets from `nov`: a separator that
/// begins with a line break is a single line break.
pub open spec fn nastavljeno(t: Token, nov: Seq<char>) -> Seq<char> {
    if t is Locilo && nov.len() > 0 && nov[0] == '\n' {
        seq!['\n']
    } else {
        nov
    }
}

/// Whether two tokens are of the same kind.
pub open spec fn ista_vrsta(a: Token, b: Token) -> bool {
    (a is Locilo && b is Locilo) || (a is Literal && b is Literal) || (a is Ime && b is Ime) || (a is Stevilo
        && b is Stevilo) || (a is Niz && b is Niz)
}

impl Token {
    /// Gives the token the text `nov`, keeping its kind, and returns it.
    pub fn set(&mut self, nov: &str) -> (r: &Token)
        ensures
            ista_vrsta(*final(self), *old(self)),
            besedilo_tokena(*final(self)) == nastavljeno(*old(self), nov@),
            *r == *final(self),
    {
        let z = znaki(nov);
        let nova = match self {
            Token::Locilo(_) => Token::Locilo(
                if z.len() > 0 && z[0] == '\n' {
                    let nl = ['\n'];
                    assert(nl@ =~= seq!['\n']);
                    iz_znakov(&nl)
                } else {
                    nov.to_owned()
                },
            ),
            Token::Literal(_) => Token::Literal(nov.to_owned()),
            Token::Ime(_) => Token::Ime(nov.to_owned()),
            Token::Stevilo(_) => Token::Stevilo(nov.to_owned()),
            Token::Niz(_) => Token::Niz(nov.to_owned()),
        };
        *self = nova;
        self
    }
}

} // verus!
