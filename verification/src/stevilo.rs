//! Reading a whole number of type `i32` from text: an optional sign, then
//! decimal digits, read one by one from the left.

use crate::besedilo::{desetisko, desetisko_celo, stevka};
use vstd::prelude::*;

verus! {

/// Why a text is not a number of type `i32`.
#[derive(Debug, Clone, Copy, PartialEq, Eq)]
pub enum NapakaStevila {
    /// The text is empty.
    Prazno,
    /// A character is not a decimal digit, or the text is a sign alone.
    NeveljavnaStevka,
    /// The number is larger than `i32::MAX`.
    PreVeliko,
    /// The number is smaller than `i32::MIN`.
    PreMajhno,
}

/// The text without its underscores.
pub open spec fn brez_podcrtajev(s: Seq<char>) -> Seq<char>
    decreases s.len(),
{
    if s.len() == 0 {
        s
    } else if s.last() == '_' {
        brez_podcrtajev(s.drop_last())
    } else {
        brez_podcrtajev(s.drop_last()).push(s.last())
    }
}

/// Whether `c` is a decimal digit.
pub open spec fn je_stevka(c: char) -> bool {
    '0' <= c <= '9'
}

/// The value of the decimal digit `c`.
pub open spec fn vrednost_stevke(c: char) -> int {
    (c as int) - ('0' as int)
}

/// The digits `d` read from the left, each step multiplying by ten and adding
/// (or, for a negative number, subtracting) the next digit: the value, or the
/// first character that is not a digit, or the first step that leaves the
/// range of `i32`.
pub open spec fn stevke(d: Seq<char>, negativno: bool) -> Result<int, NapakaStevila>
    decreases d.len(),
{
    if d.len() == 0 {
        Ok(0)
    } else {
        match stevke(d.drop_last(), negativno) {
            Err(e) => Err(e),
            Ok(a) => {
                let c = d.last();
                if !je_stevka(c) {
                    Err(NapakaStevila::NeveljavnaStevka)
                } else {
                    let v = if negativno {
                        a * 10 - vrednost_stevke(c)
                    } else {
                        a * 10 + vrednost_stevke(c)
                    };
                    if v > i32::MAX {
                        Err(NapakaStevila::PreVeliko)
                    } else if v < i32::MIN {
                        Err(NapakaStevila::PreMajhno)
                    } else {
                        Ok(v)
                    }
                }
            },
        }
    }
}

/// The number that the text `s` writes: an empty text is an error, a sign
/// alone is not a digit, a leading `+` or `-` gives the sign, and the rest
/// are the digits.
pub open spec fn celo_iz(s: Seq<char>) -> Result<int, NapakaStevila> {
    if s.len() == 0 {
        Err(NapakaStevila::Prazno)
    } else if s.len() == 1 && (s[0] == '+' || s[0] == '-') {
        Err(NapakaStevila::NeveljavnaStevka)
    } else if s[0] == '+' {
        stevke(s.drop_first(), false)
    } else if s[0] == '-' {
        stevke(s.drop_first(), true)
    } else {
        stevke(s, false)
    }
}

/// How an error of reading a number is described.
pub open spec fn opis_stevila(e: NapakaStevila) -> Seq<char> {
    match e {
        NapakaStevila::Prazno => "cannot parse integer from empty string"@,
        NapakaStevila::NeveljavnaStevka => "invalid digit found in string"@,
        NapakaStevila::PreVeliko => "number too large to fit in target type"@,
        NapakaStevila::PreMajhno => "number too small to fit in target type"@,
    }
}

/// Once reading the first `k` digits fails, reading all of them fails the
/// same way.
proof fn lema_napaka_ostane(d: Seq<char>, k: int, negativno: bool)
    requires
        0 <= k <= d.len(),
        stevke(d.subrange(0, k), negativno) is Err,
    ensures
        stevke(d, negativno) == stevke(d.subrange(0, k), negativno),
    decreases d.len(),
{
    if k == d.len() {
        assert(d.subrange(0, k) =~= d);
    } else {
        assert(d.drop_last().subrange(0, k) =~= d.subrange(0, k));
        lema_napaka_ostane(d.drop_last(), k, negativno);
    }
}

/// The characters without the underscores.
pub fn odstrani_podcrtaje(s: &[char]) -> (r: Vec<char>)
    ensures
        r@ == brez_podcrtajev(s@),
{
    let mut r: Vec<char> = Vec::new();
    let mut i: usize = 0;
    while i < s.len()
        invariant
            0 <= i <= s@.len(),
            r@ == brez_podcrtajev(s@.subrange(0, i as int)),
        decreases s@.len() - i,
    {
        let c = s[i];
        assert(s@.subrange(0, i + 1).drop_last() =~= s@.subrange(0, i as int));
        if c != '_' {
            r.push(c);
        }
        i = i + 1;
    }
    assert(s@.subrange(0, i as int) =~= s@);
    r
}

/// Reads the digits `d[od..]`, negated when `negativno`.
fn preberi_stevke(d: &[char], od: usize, negativno: bool) -> (r: Result<i32, NapakaStevila>)
    requires
        od <= d@.len(),
    ensures
        match r {
            Ok(v) => stevke(d@.subrange(od as int, d@.len() as int), negativno) == Ok::<int, NapakaStevila>(v as int),
            Err(e) => stevke(d@.subrange(od as int, d@.len() as int), negativno) == Err::<int, NapakaStevila>(e),
        },
{
    let ghost cela = d@.subrange(od as int, d@.len() as int);
    let mut vrednost: i32 = 0;
    let mut i: usize = od;
    assert(cela.subrange(0, 0) =~= Seq::<char>::empty());
    while i < d.len()
        invariant
            od <= i <= d@.len(),
            cela == d@.subrange(od as int, d@.len() as int),
            stevke(cela.subrange(0, i - od), negativno) == Ok::<int, NapakaStevila>(vrednost as int),
        decreases d@.len() - i,
    {
        let c = d[i];
        let ghost pred = cela.subrange(0, i - od);
        let ghost po = cela.subrange(0, i - od + 1);
        assert(po.drop_last() =~= pred);
        assert(po.last() == c);
        if c < '0' || c > '9' {
            proof {
                lema_napaka_ostane(cela, i - od + 1, negativno);
            }
            return Err(NapakaStevila::NeveljavnaStevka);
        }
        let stevka: i64 = (c as u32 - '0' as u32) as i64;
        let v: i64 = if negativno {
            vrednost as i64 * 10 - stevka
        } else {
            vrednost as i64 * 10 + stevka
        };
        if v > i32::MAX as i64 {
            proof {
                lema_napaka_ostane(cela, i - od + 1, negativno);
            }
            return Err(NapakaStevila::PreVeliko);
        }
        if v < i32::MIN as i64 {
            proof {
                lema_napaka_ostane(cela, i - od + 1, negativno);
            }
            return Err(NapakaStevila::PreMajhno);
        }
        vrednost = v as i32;
        i = i + 1;
    }
    assert(cela.subrange(0, i - od) =~= cela);
    Ok(vrednost)
}

/// The number that the characters `s` write, or why they write none.
pub fn preberi_i32(s: &[char]) -> (r: Result<i32, NapakaStevila>)
    ensures
        match r {
            Ok(v) => celo_iz(s@) == Ok::<int, NapakaStevila>(v as int),
            Err(e) => celo_iz(s@) == Err::<int, NapakaStevila>(e),
        },
{
    if s.len() == 0 {
        return Err(NapakaStevila::Prazno);
    }
    if s.len() == 1 && (s[0] == '+' || s[0] == '-') {
        return Err(NapakaStevila::NeveljavnaStevka);
    }
    if s[0] == '+' {
        assert(s@.drop_first() =~= s@.subrange(1, s@.len() as int));
        preberi_stevke(s, 1, false)
    } else if s[0] == '-' {
        assert(s@.drop_first() =~= s@.subrange(1, s@.len() as int));
        preberi_stevke(s, 1, true)
    } else {
        assert(s@ =~= s@.subrange(0, s@.len() as int));
        preberi_stevke(s, 0, false)
    }
}

/// How an error of reading a number is described.
pub fn opis_napake_stevila(e: NapakaStevila) -> (r: &'static str)
    ensures
        r@ == opis_stevila(e),
{
    match e {
        NapakaStevila::Prazno => "cannot parse integer from empty string",
        NapakaStevila::NeveljavnaStevka => "invalid digit found in string",
        NapakaStevila::PreVeliko => "number too large to fit in target type",
        NapakaStevila::PreMajhno => "number too small to fit in target type",
    }
}

/// The digits of `m` read back give `m`, or `-m` when read as a negative
/// number.
proof fn lema_stevke_zapisa(m: nat, negativno: bool)
    requires
        negativno ==> m <= 0x8000_0000,
        !negativno ==> m <= i32::MAX,
    ensures
        stevke(desetisko(m), negativno) == Ok::<int, NapakaStevila>(if negativno {
            -m
        } else {
            m as int
        }),
    decreases m,
{
    let d = desetisko(m);
    if m < 10 {
        assert(d.drop_last() =~= Seq::<char>::empty());
        assert(d.last() == stevka(m));
        assert(stevka(m) as int == 48 + m);
        assert(vrednost_stevke(d.last()) == m);
        assert(je_stevka(d.last()));
        assert(stevke(d.drop_last(), negativno) == Ok::<int, NapakaStevila>(0));
    } else {
        lema_stevke_zapisa(m / 10, negativno);
        assert(d.drop_last() =~= desetisko(m / 10));
        assert(d.last() == stevka(m % 10));
        assert(stevka(m % 10) as int == 48 + m % 10);
        assert(vrednost_stevke(d.last()) == m % 10);
        assert(m == (m / 10) * 10 + m % 10);
        assert(je_stevka(d.last()));
    }
}

/// The decimal notation begins with a digit.
proof fn lema_prva_stevka(m: nat)
    ensures
        desetisko(m).len() >= 1,
        je_stevka(desetisko(m)[0]),
    decreases m,
{
    if m < 10 {
        assert(stevka(m) as int == 48 + m);
    } else {
        lema_prva_stevka(m / 10);
    }
}

/// Reading back the decimal notation of a number of type `i32` gives the
/// number.
pub proof fn zakon_branje_zapisa(x: int)
    requires
        i32::MIN <= x <= i32::MAX,
    ensures
        celo_iz(desetisko_celo(x)) == Ok::<int, NapakaStevila>(x),
{
    if x < 0 {
        let m = (-x) as nat;
        lema_stevke_zapisa(m, true);
        lema_prva_stevka(m);
        let s = desetisko_celo(x);
        assert(s.drop_first() =~= desetisko(m));
    } else {
        lema_stevke_zapisa(x as nat, false);
        lema_prva_stevka(x as nat);
    }
}

} // verus!
