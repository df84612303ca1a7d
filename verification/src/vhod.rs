//! Reading one character of the program's input: how many bytes follow the
//! first one, and which character the bytes are.

use crate::besedilo::znaki;
use vstd::prelude::*;
use vstd::utf8::{decode_utf8, valid_utf8};

verus! {

/// How many bytes follow the first byte `b` of a character: one, two or
/// three after the leading byte of a two-, three- or four-byte character in
/// UTF-8, else none.
pub open spec fn dodatnih_bajtov(b: u8) -> nat {
    if b & 0xE0 == 0xC0 {
        1
    } else if b & 0xF0 == 0xE0 {
        2
    } else if b & 0xF8 == 0xF0 {
        3
    } else {
        0
    }
}

/// How many bytes follow the first byte of a character.
pub fn dodatni_bajti(prvi: u8) -> (r: usize)
    ensures
        r == dodatnih_bajtov(prvi),
{
    if prvi & 0xE0 == 0xC0 {
        1
    } else if prvi & 0xF0 == 0xE0 {
        2
    } else if prvi & 0xF8 == 0xF0 {
        3
    } else {
        0
    }
}

/// `std::str::from_utf8`: the bytes as a string when they are valid UTF-8,
/// and no string otherwise. The string holds exactly those bytes, so its
/// characters are what they decode to.
#[verifier::external_body]
fn iz_utf8(bajti: &[u8]) -> (r: Option<&str>)
    ensures
        r matches Some(s) ==> valid_utf8(bajti@) && s@ == decode_utf8(bajti@),
        r is None ==> !valid_utf8(bajti@),
{
    std::str::from_utf8(bajti).ok()
}

/// The first character of the bytes, when all of them are valid UTF-8.
pub open spec fn znak_iz(bajti: Seq<u8>) -> Option<char> {
    if valid_utf8(bajti) && decode_utf8(bajti).len() > 0 {
        Some(decode_utf8(bajti)[0])
    } else {
        None
    }
}

/// The first character of the bytes, when all of them are valid UTF-8.
pub fn dekodiraj_znak(bajti: &[u8]) -> (r: Option<char>)
    ensures
        r == znak_iz(bajti@),
{
    match iz_utf8(bajti) {
        Some(s) => {
            let z = znaki(s);
            if z.len() > 0 {
                Some(z[0])
            } else {
                None
            }
        },
        None => None,
    }
}

} // verus!
