//! The target of a jump in the syntax tree: an offset in instructions or
//! the name of a label.

use crate::besedilo::{desetisko_celo, dodaj_desetisko_celo};
use vstd::prelude::*;
use vstd::string::StringExecFns;

verus! {

/// The target of a jump: an offset or the name of a label.
#[derive(Debug)]
pub enum OdmikIme {
    Odmik(i32),
    Ime(String),
}

/// How a jump target is written: the offset in decimal, or the name.
pub open spec fn besedilo_odmika(o: OdmikIme) -> Seq<char> {
    match o {
        OdmikIme::Odmik(d) => desetisko_celo(d as int),
        OdmikIme::Ime(i) => i@,
    }
}

impl OdmikIme {
    /// How the jump target is written.
    pub fn to_string(&self) -> (r: String)
        ensures
            r@ == besedilo_odmika(*self),
    {
        let mut s = String::new();
        match self {
            OdmikIme::Odmik(d) => dodaj_desetisko_celo(&mut s, *d as i64),
            OdmikIme::Ime(i) => s.append(i.as_str()),
        }
        assert(s@ =~= besedilo_odmika(*self));
        s
    }
}

impl Clone for OdmikIme {
    fn clone(&self) -> (r: Self)
        ensures
            besedilo_odmika(r) == besedilo_odmika(*self),
            r is Odmik <==> self is Odmik,
    {
        match self {
            OdmikIme::Odmik(d) => OdmikIme::Odmik(*d),
            OdmikIme::Ime(i) => OdmikIme::Ime(i.clone()),
        }
    }
}

} // verus!
