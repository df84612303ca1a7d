//! Compiled regular expressions of the `regex` crate, and what the lexers
//! learn from a match.

use regex::Regex;
use vstd::prelude::*;

verus! {

#[verifier::external_type_specification]
#[verifier::external_body]
pub struct ExRegex(Regex);

/// Whether `regex::Regex::new` compiles the pattern (it refuses invalid
/// patterns and ones over its default size limit).
pub uninterp spec fn veljaven_vzorec(vzorec: Seq<char>) -> bool;

/// What `regex::Regex::captures` finds when the pattern is applied to the
/// text: the character offsets of the start and the end of the first and of
/// the second capture group, or nothing when there is no match or one of the
/// two groups took no part in it.
pub uninterp spec fn zajem(vzorec: Seq<char>, besedilo: Seq<char>) -> Option<(int, int, int, int)>;

/// A compiled pattern together with the text it was compiled from.
pub struct Vzorec {
    re: Regex,
    izvor: String,
}

impl Vzorec {
    /// The text the pattern was compiled from.
    pub closed spec fn izvor(&self) -> Seq<char> {
        self.izvor@
    }
}

/// Compiles a pattern with `regex::Regex::new`. The result is present
/// exactly when the crate accepts the pattern, and it remembers the pattern's
/// text; nothing is stated of the compiled automaton itself.
#[verifier::external_body]
pub(crate) fn prevedi_vzorec(izvor: &str) -> (r: Option<Vzorec>)
    ensures
        r is Some <==> veljaven_vzorec(izvor@),
        r matches Some(v) ==> v.izvor() == izvor@,
{
    match Regex::new(izvor) {
        Ok(re) => Some(Vzorec { re, izvor: izvor.to_string() }),
        Err(_) => None,
    }
}

/// Applies a compiled pattern to a text with `regex::Regex::captures` and
/// reads the first two capture groups, converting their byte offsets to
/// character offsets. The result is the named `zajem` of the pattern's text
/// and the text; each group lies within the text and does not end before it
/// starts, as the crate documents for every `Match`.
#[verifier::external_body]
pub(crate) fn zajemi(v: &Vzorec, besedilo: &str) -> (r: Option<(usize, usize, usize, usize)>)
    ensures
        zajem(v.izvor(), besedilo@) == (match r {
            Some((a, b, c, d)) => Some((a as int, b as int, c as int, d as int)),
            None => None,
        }),
        r matches Some((a, b, c, d)) ==> a <= b <= besedilo@.len() && c <= d <= besedilo@.len(),
{
    let skupine = v.re.captures(besedilo)?;
    let prva = skupine.get(1)?;
    let druga = skupine.get(2)?;
    Some((
        besedilo[..prva.start()].chars().count(),
        besedilo[..prva.end()].chars().count(),
        besedilo[..druga.start()].chars().count(),
        besedilo[..druga.end()].chars().count(),
    ))
}

} // verus!
