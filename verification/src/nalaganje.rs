//! Loading a program from the machine's assembler text: one instruction per
//! line, after its index, with its argument if it has one.

use crate::besedilo::{enaka, iz_znakov, znaki};
use crate::loci::{interpoliraj, interpoliraj_niz, zamenjaj_par};
use crate::program::{Podatek, Program, UkazPodatek};
use crate::tip::Tip;
use crate::stevilo::{celo_iz, preberi_i32};
use vstd::prelude::*;

verus! {

/// Whether `c` is white space in Unicode (the property `White_Space`), as
/// `char::is_whitespace` has it.
pub open spec fn je_presledek(c: char) -> bool {
    let x = c as u32;
    ||| 0x09 <= x <= 0x0d
    ||| x == 0x20
    ||| x == 0x85
    ||| x == 0xa0
    ||| x == 0x1680
    ||| 0x2000 <= x <= 0x200a
    ||| x == 0x2028
    ||| x == 0x2029
    ||| x == 0x202f
    ||| x == 0x205f
    ||| x == 0x3000
}

/// How many bytes `c` takes in UTF-8.
pub open spec fn sirina_utf8(c: char) -> int {
    let x = c as u32;
    if x < 0x80 {
        1
    } else if x < 0x800 {
        2
    } else if x < 0x10000 {
        3
    } else {
        4
    }
}

/// The lines of `s`: the pieces between its line breaks, as many as there
/// are line breaks and one more.
pub open spec fn vrstice(s: Seq<char>) -> Seq<Seq<char>>
    decreases s.len(),
{
    if s.len() == 0 {
        seq![Seq::<char>::empty()]
    } else {
        let p = vrstice(s.drop_last());
        if s.last() == '\n' {
            p.push(Seq::<char>::empty())
        } else {
            p.update(p.len() - 1, p.last().push(s.last()))
        }
    }
}

/// The words of `s`: its longest pieces without white space, in order.
pub open spec fn besede(s: Seq<char>) -> Seq<Seq<char>>
    decreases s.len(),
{
    if s.len() == 0 {
        Seq::empty()
    } else {
        let p = besede(s.drop_last());
        if je_presledek(s.last()) {
            p
        } else if s.len() >= 2 && !je_presledek(s[s.len() - 2]) {
            p.update(p.len() - 1, p.last().push(s.last()))
        } else {
            p.push(seq![s.last()])
        }
    }
}

/// There is always a line.
pub proof fn lema_vrstice(s: Seq<char>)
    ensures
        vrstice(s).len() >= 1,
    decreases s.len(),
{
    if s.len() > 0 {
        lema_vrstice(s.drop_last());
    }
}

/// Text that ends in a character that is not white space ends in a word.
proof fn lema_besede(s: Seq<char>)
    ensures
        s.len() > 0 && !je_presledek(s.last()) ==> besede(s).len() >= 1,
        forall|k: int| 0 <= k < besede(s).len() ==> (#[trigger] besede(s)[k]).len() > 0,
    decreases s.len(),
{
    if s.len() > 0 {
        let p = besede(s.drop_last());
        lema_besede(s.drop_last());
        if !je_presledek(s.last()) {
            if s.len() >= 2 && !je_presledek(s[s.len() - 2]) {
                assert(s.drop_last().last() == s[s.len() - 2]);
                assert(p.len() >= 1);
                let q = p.update(p.len() - 1, p.last().push(s.last()));
                assert forall|k: int| 0 <= k < q.len() implies (#[trigger] q[k]).len() > 0 by {
                    if k != p.len() - 1 {
                        assert(q[k] == p[k]);
                    }
                }
            } else {
                let q = p.push(seq![s.last()]);
                assert forall|k: int| 0 <= k < q.len() implies (#[trigger] q[k]).len() > 0 by {
                    if k < p.len() {
                        assert(q[k] == p[k]);
                    }
                }
            }
        }
    }
}

/// Text without line breaks added to `a` goes on its last line.
pub proof fn lema_vrstice_brez_preloma(a: Seq<char>, b: Seq<char>)
    requires
        !b.contains('\n'),
    ensures
        vrstice(a + b) == vrstice(a).update(vrstice(a).len() - 1, vrstice(a).last() + b),
    decreases b.len(),
{
    lema_vrstice(a);
    let l = vrstice(a);
    if b.len() == 0 {
        assert(a + b =~= a);
        assert(l.last() + b =~= l.last());
        assert(l.update(l.len() - 1, l.last() + b) =~= l);
    } else {
        let b1 = b.drop_last();
        assert forall|i: int| 0 <= i < b1.len() implies b1[i] != '\n' by {
            assert(b1[i] == b[i]);
        }
        lema_vrstice_brez_preloma(a, b1);
        assert((a + b).drop_last() =~= a + b1);
        assert((a + b).last() == b.last());
        assert(b.last() != '\n') by {
            assert(b[b.len() - 1] == b.last());
        }
        let p = vrstice(a + b1);
        assert((l.last() + b1).push(b.last()) =~= l.last() + b);
        assert(p.update(p.len() - 1, p.last().push(b.last())) =~= l.update(
            l.len() - 1,
            l.last() + b,
        ));
    }
}

/// A line break after `a` begins an empty line.
pub proof fn lema_vrstice_prelom(a: Seq<char>)
    ensures
        vrstice(a.push('\n')) == vrstice(a).push(Seq::<char>::empty()),
{
    assert(a.push('\n').drop_last() =~= a);
}

/// White space separates words: the words of `a`, a white space and `b` are
/// those of `a` and then those of `b`.
pub proof fn lema_besede_presledek(a: Seq<char>, c: char, b: Seq<char>)
    requires
        je_presledek(c),
    ensures
        besede(a + seq![c] + b) == besede(a) + besede(b),
    decreases b.len(),
{
    let s = a + seq![c] + b;
    if b.len() == 0 {
        assert(s.drop_last() =~= a);
        assert(besede(a) + besede(b) =~= besede(a));
    } else {
        let b1 = b.drop_last();
        let x = b.last();
        lema_besede_presledek(a, c, b1);
        assert(s.drop_last() =~= a + seq![c] + b1);
        assert(s.last() == x);
        let p = besede(a + seq![c] + b1);
        let q = besede(b1);
        if je_presledek(x) {
            assert(besede(b) == q);
        } else if b1.len() > 0 && !je_presledek(b1.last()) {
            assert(s[s.len() - 2] == b1.last());
            assert(b[b.len() - 2] == b1.last());
            lema_besede(b1);
            assert(p.update(p.len() - 1, p.last().push(x)) =~= besede(a) + q.update(
                q.len() - 1,
                q.last().push(x),
            ));
        } else {
            if b1.len() > 0 {
                assert(s[s.len() - 2] == b1.last());
                assert(b[b.len() - 2] == b1.last());
            } else {
                assert(s[s.len() - 2] == c);
            }
            assert(p.push(seq![x]) =~= besede(a) + q.push(seq![x]));
        }
    }
}

/// Text without white space that is not empty is one word.
pub proof fn lema_beseda(w: Seq<char>)
    requires
        w.len() > 0,
        forall|i: int| 0 <= i < w.len() ==> !je_presledek(#[trigger] w[i]),
    ensures
        besede(w) == seq![w],
    decreases w.len(),
{
    let w1 = w.drop_last();
    assert(!je_presledek(w[w.len() - 1]));
    if w.len() == 1 {
        assert(w1 =~= Seq::<char>::empty());
        assert(besede(w1) =~= Seq::<Seq<char>>::empty());
        assert(seq![w.last()] =~= w);
        assert(besede(w1).push(seq![w.last()]) =~= seq![w]);
    } else {
        assert forall|i: int| 0 <= i < w1.len() implies !je_presledek(#[trigger] w1[i]) by {
            assert(w1[i] == w[i]);
        }
        lema_beseda(w1);
        assert(!je_presledek(w[w.len() - 2]));
        assert(w1.push(w.last()) =~= w);
        assert(seq![w1].update(0, w1.push(w.last())) =~= seq![w]);
    }
}

/// Whether `c` is white space.
pub(crate) fn presledek(c: char) -> (r: bool)
    ensures
        r == je_presledek(c),
{
    let x = c as u32;
    (0x09 <= x && x <= 0x0d) || x == 0x20 || x == 0x85 || x == 0xa0 || x == 0x1680 || (0x2000
        <= x && x <= 0x200a) || x == 0x2028 || x == 0x2029 || x == 0x202f || x == 0x205f || x
        == 0x3000
}

/// How many bytes `c` takes in UTF-8.
fn sirina(c: char) -> (r: u8)
    ensures
        r == sirina_utf8(c),
{
    let x = c as u32;
    if x < 0x80 {
        1
    } else if x < 0x800 {
        2
    } else if x < 0x10000 {
        3
    } else {
        4
    }
}

/// The words of a line.
fn razbij(v: &[char]) -> (r: Vec<Vec<char>>)
    ensures
        r@.len() == besede(v@).len(),
        forall|k: int| 0 <= k < r@.len() ==> (#[trigger] r@[k])@ == besede(v@)[k],
{
    let mut r: Vec<Vec<char>> = Vec::new();
    let mut i: usize = 0;
    while i < v.len()
        invariant
            0 <= i <= v@.len(),
            r@.len() == besede(v@.take(i as int)).len(),
            forall|k: int| 0 <= k < r@.len() ==> (#[trigger] r@[k])@ == besede(v@.take(i as int))[k],
        decreases v@.len() - i,
    {
        let c = v[i];
        let ghost t = v@.take(i as int + 1);
        proof {
            assert(t.drop_last() =~= v@.take(i as int));
            assert(t.last() == c);
        }
        if presledek(c) {
        } else if i >= 1 && !presledek(v[i - 1]) {
            proof {
                assert(v@.take(i as int).last() == v@[i - 1]);
                lema_besede(v@.take(i as int));
                assert(t[t.len() - 2] == v@[i - 1]);
            }
            let mut zadnja = r.pop().unwrap();
            zadnja.push(c);
            r.push(zadnja);
        } else {
            proof {
                if i >= 1 {
                    assert(t[t.len() - 2] == v@[i - 1]);
                }
            }
            let mut nova: Vec<char> = Vec::new();
            nova.push(c);
            r.push(nova);
        }
        i = i + 1;
        proof {
            assert forall|k: int| 0 <= k < r@.len() implies (#[trigger] r@[k])@ == besede(
                v@.take(i as int),
            )[k] by {}
        }
    }
    assert(v@.take(v@.len() as int) =~= v@);
    r
}

/// What one line of assembler text loads.
pub enum VrsticaV {
    /// An instruction that pushes nothing.
    Ukaz(UkazPodatek),
    /// `PUSH` of a whole number.
    Celo(i32),
    /// `PUSH` of a character.
    Znak(char),
    /// `PUSH` of a real number, with the text that writes it.
    Realno(Seq<char>),
}

/// The whole number that `a` writes, as `str::parse` reads an `i32`.
pub open spec fn celo(a: Seq<char>) -> Option<i32> {
    match celo_iz(a) {
        Ok(x) => Some(x as i32),
        Err(_) => None,
    }
}

/// The whole number written after the first character of `a`, which must
/// take one byte.
pub open spec fn za_znakom(a: Seq<char>) -> Option<i32> {
    if sirina_utf8(a[0]) == 1 {
        celo(a.drop_first())
    } else {
        None
    }
}

/// The character of a character literal `a`: its second and third byte,
/// with their escape replaced, and the first character of what is left.
pub open spec fn znak_literala(a: Seq<char>) -> Option<char> {
    let odsek = if sirina_utf8(a[0]) != 1 || a.len() < 2 {
        None
    } else if sirina_utf8(a[1]) == 2 {
        Some(seq![a[1]])
    } else if sirina_utf8(a[1]) == 1 && a.len() >= 3 && sirina_utf8(a[2]) == 1 {
        Some(a.subrange(1, 3))
    } else {
        None
    };
    match odsek {
        Some(o) => Some(interpoliraj(o)[0]),
        None => None,
    }
}

/// What `PUSH` with the argument `a` loads: after `#` a real number if there
/// is a `.`, else a whole number; otherwise a character literal.
pub open spec fn potisk(a: Seq<char>) -> Option<VrsticaV> {
    if a[0] == '#' {
        if a.contains('.') {
            Some(VrsticaV::Realno(a.drop_first()))
        } else {
            match celo(a.drop_first()) {
                Some(x) => Some(VrsticaV::Celo(x)),
                None => None,
            }
        }
    } else {
        match znak_literala(a) {
            Some(c) => Some(VrsticaV::Znak(c)),
            None => None,
        }
    }
}

/// Whether `ime` names an instruction whose argument is an address or an
/// offset after a one-byte sign.
#[verifier::opaque]
pub open spec fn je_naslovni(ime: Seq<char>) -> bool {
    ||| ime == "JUMP"@
    ||| ime == "JMPC"@
    ||| ime == "LOAD"@
    ||| ime == "LDOF"@
    ||| ime == "LDDY"@
    ||| ime == "STOR"@
    ||| ime == "STOF"@
    ||| ime == "STDY"@
}

/// The instruction `ime` with the address or offset `x`.
#[verifier::opaque]
pub open spec fn z_naslovom(ime: Seq<char>, x: i32) -> UkazPodatek {
    if ime == "JUMP"@ {
        UkazPodatek::JUMP(x)
    } else if ime == "JMPC"@ {
        UkazPodatek::JMPC(x)
    } else if ime == "LOAD"@ {
        UkazPodatek::LOAD(x)
    } else if ime == "LDOF"@ {
        UkazPodatek::LDOF(x)
    } else if ime == "LDDY"@ {
        UkazPodatek::LDDY(x)
    } else if ime == "STOR"@ {
        UkazPodatek::STOR(x)
    } else if ime == "STOF"@ {
        UkazPodatek::STOF(x)
    } else {
        UkazPodatek::STDY(x)
    }
}

/// The instruction without argument that `ime` names; a name the machine
/// does not know loads `NOOP`.
#[verifier::opaque]
pub open spec fn brez_argumenta(ime: Seq<char>) -> UkazPodatek {
    if ime == "JMPD"@ {
        UkazPodatek::JMPD
    } else if ime == "POS"@ {
        UkazPodatek::POS
    } else if ime == "ZERO"@ {
        UkazPodatek::ZERO
    } else if ime == "LOFF"@ {
        UkazPodatek::LOFF
    } else if ime == "SOFF"@ {
        UkazPodatek::SOFF
    } else if ime == "PUTC"@ || ime == "PRTC"@ {
        UkazPodatek::PUTC
    } else if ime == "GETC"@ {
        UkazPodatek::GETC
    } else if ime == "ADDF"@ {
        UkazPodatek::ADDF
    } else if ime == "SUBF"@ {
        UkazPodatek::SUBF
    } else if ime == "MULF"@ {
        UkazPodatek::MULF
    } else if ime == "DIVF"@ {
        UkazPodatek::DIVF
    } else if ime == "MODF"@ {
        UkazPodatek::MODF
    } else if ime == "POWF"@ {
        UkazPodatek::POWF
    } else if ime == "ADDI"@ {
        UkazPodatek::ADDI
    } else if ime == "SUBI"@ {
        UkazPodatek::SUBI
    } else if ime == "MULI"@ {
        UkazPodatek::MULI
    } else if ime == "DIVI"@ {
        UkazPodatek::DIVI
    } else if ime == "MODI"@ {
        UkazPodatek::MODI
    } else if ime == "POWI"@ {
        UkazPodatek::POWI
    } else if ime == "BOR"@ {
        UkazPodatek::BOR
    } else if ime == "BXOR"@ {
        UkazPodatek::BXOR
    } else if ime == "BAND"@ {
        UkazPodatek::BAND
    } else if ime == "FTOI"@ {
        UkazPodatek::FTOI
    } else if ime == "ITOF"@ {
        UkazPodatek::ITOF
    } else {
        UkazPodatek::NOOP
    }
}

/// What the line `v` loads: its second word names the instruction and its
/// third is the argument. `None` where the line has no instruction, or the
/// instruction lacks its argument or cannot read it.
pub open spec fn vrstica(v: Seq<char>) -> Option<VrsticaV> {
    let w = besede(v);
    if w.len() < 2 {
        None
    } else {
        let ime = w[1];
        if ime == "PUSH"@ {
            if w.len() < 3 {
                None
            } else {
                potisk(w[2])
            }
        } else if ime == "ALOC"@ || ime == "TOP"@ {
            if w.len() < 3 {
                None
            } else {
                match celo(w[2]) {
                    Some(x) => Some(
                        VrsticaV::Ukaz(
                            if ime == "ALOC"@ {
                                UkazPodatek::ALOC(x)
                            } else {
                                UkazPodatek::TOP(x)
                            },
                        ),
                    ),
                    None => None,
                }
            }
        } else if je_naslovni(ime) {
            if w.len() < 3 {
                None
            } else {
                match za_znakom(w[2]) {
                    Some(x) => Some(VrsticaV::Ukaz(z_naslovom(ime, x))),
                    None => None,
                }
            }
        } else {
            Some(VrsticaV::Ukaz(brez_argumenta(ime)))
        }
    }
}

/// What one line of assembler text loads.
enum Vrstica {
    Ukaz(UkazPodatek),
    Celo(i32),
    Znak(char),
    Realno(Vec<char>),
}

impl Vrstica {
    spec fn pogled(&self) -> VrsticaV {
        match self {
            Vrstica::Ukaz(u) => VrsticaV::Ukaz(*u),
            Vrstica::Celo(x) => VrsticaV::Celo(*x),
            Vrstica::Znak(c) => VrsticaV::Znak(*c),
            Vrstica::Realno(t) => VrsticaV::Realno(t@),
        }
    }
}

/// Whether `ime` names an instruction whose argument is an address or an
/// offset.
fn naslovni(ime: &str) -> (r: bool)
    ensures
        r == je_naslovni(ime@),
{
    reveal(je_naslovni);
    enaka(ime, "JUMP") || enaka(ime, "JMPC") || enaka(ime, "LOAD") || enaka(ime, "LDOF") || enaka(ime, "LDDY") || enaka(ime, "STOR") || enaka(ime, "STOF") || enaka(ime, "STDY")
}

/// The instruction `ime` with the address or offset `x`.
fn ukaz_z_naslovom(ime: &str, x: i32) -> (r: UkazPodatek)
    ensures
        r == z_naslovom(ime@, x),
{
    reveal(z_naslovom);
    if enaka(ime, "JUMP") {
        UkazPodatek::JUMP(x)
    } else if enaka(ime, "JMPC") {
        UkazPodatek::JMPC(x)
    } else if enaka(ime, "LOAD") {
        UkazPodatek::LOAD(x)
    } else if enaka(ime, "LDOF") {
        UkazPodatek::LDOF(x)
    } else if enaka(ime, "LDDY") {
        UkazPodatek::LDDY(x)
    } else if enaka(ime, "STOR") {
        UkazPodatek::STOR(x)
    } else if enaka(ime, "STOF") {
        UkazPodatek::STOF(x)
    } else {
        UkazPodatek::STDY(x)
    }
}

/// The instruction without argument that `ime` names.
fn ukaz_brez_argumenta(ime: &str) -> (r: UkazPodatek)
    ensures
        r == brez_argumenta(ime@),
{
    reveal(brez_argumenta);
    if enaka(ime, "JMPD") {
        UkazPodatek::JMPD
    } else if enaka(ime, "POS") {
        UkazPodatek::POS
    } else if enaka(ime, "ZERO") {
        UkazPodatek::ZERO
    } else if enaka(ime, "LOFF") {
        UkazPodatek::LOFF
    } else if enaka(ime, "SOFF") {
        UkazPodatek::SOFF
    } else if enaka(ime, "PUTC") || enaka(ime, "PRTC") {
        UkazPodatek::PUTC
    } else if enaka(ime, "GETC") {
        UkazPodatek::GETC
    } else if enaka(ime, "ADDF") {
        UkazPodatek::ADDF
    } else if enaka(ime, "SUBF") {
        UkazPodatek::SUBF
    } else if enaka(ime, "MULF") {
        UkazPodatek::MULF
    } else if enaka(ime, "DIVF") {
        UkazPodatek::DIVF
    } else if enaka(ime, "MODF") {
        UkazPodatek::MODF
    } else if enaka(ime, "POWF") {
        UkazPodatek::POWF
    } else if enaka(ime, "ADDI") {
        UkazPodatek::ADDI
    } else if enaka(ime, "SUBI") {
        UkazPodatek::SUBI
    } else if enaka(ime, "MULI") {
        UkazPodatek::MULI
    } else if enaka(ime, "DIVI") {
        UkazPodatek::DIVI
    } else if enaka(ime, "MODI") {
        UkazPodatek::MODI
    } else if enaka(ime, "POWI") {
        UkazPodatek::POWI
    } else if enaka(ime, "BOR") {
        UkazPodatek::BOR
    } else if enaka(ime, "BXOR") {
        UkazPodatek::BXOR
    } else if enaka(ime, "BAND") {
        UkazPodatek::BAND
    } else if enaka(ime, "FTOI") {
        UkazPodatek::FTOI
    } else if enaka(ime, "ITOF") {
        UkazPodatek::ITOF
    } else {
        UkazPodatek::NOOP
    }
}

/// The whole number that `a` writes.
fn preberi_celo(a: &[char]) -> (r: Option<i32>)
    ensures
        r == celo(a@),
{
    match preberi_i32(a) {
        Ok(x) => Some(x),
        Err(_) => None,
    }
}

/// The characters of `a` after the first.
fn brez_prvega(a: &[char]) -> (r: Vec<char>)
    requires
        a@.len() > 0,
    ensures
        r@ == a@.drop_first(),
{
    let mut r: Vec<char> = Vec::new();
    let mut i: usize = 1;
    while i < a.len()
        invariant
            1 <= i <= a@.len(),
            r@ == a@.subrange(1, i as int),
        decreases a@.len() - i,
    {
        r.push(a[i]);
        i = i + 1;
        assert(r@ =~= a@.subrange(1, i as int));
    }
    assert(a@.subrange(1, a@.len() as int) =~= a@.drop_first());
    r
}

/// The whole number written after the first character of `a`.
fn preberi_za_znakom(a: &[char]) -> (r: Option<i32>)
    requires
        a@.len() > 0,
    ensures
        r == za_znakom(a@),
{
    if sirina(a[0]) == 1 {
        let t = brez_prvega(a);
        preberi_celo(t.as_slice())
    } else {
        None
    }
}

/// Whether `a` holds a `.`.
fn vsebuje_piko(a: &[char]) -> (r: bool)
    ensures
        r == a@.contains('.'),
{
    let mut i: usize = 0;
    while i < a.len()
        invariant
            0 <= i <= a@.len(),
            forall|k: int| 0 <= k < i ==> a@[k] != '.',
        decreases a@.len() - i,
    {
        if a[i] == '.' {
            assert(a@[i as int] == '.');
            return true;
        }
        i = i + 1;
    }
    false
}

/// Replacing pairs leaves a text that is not empty not empty.
proof fn lema_neprazno(s: Seq<char>, a: char, b: char, c: char)
    requires
        s.len() > 0,
    ensures
        zamenjaj_par(s, a, b, c).len() > 0,
{
}

/// The character of the character literal `a`.
fn preberi_znak_literala(a: &[char]) -> (r: Option<char>)
    requires
        a@.len() > 0,
    ensures
        r == znak_literala(a@),
{
    if sirina(a[0]) != 1 || a.len() < 2 {
        return None;
    }
    let mut odsek: Vec<char> = Vec::new();
    if sirina(a[1]) == 2 {
        odsek.push(a[1]);
        assert(odsek@ =~= seq![a@[1]]);
    } else if sirina(a[1]) == 1 && a.len() >= 3 && sirina(a[2]) == 1 {
        odsek.push(a[1]);
        odsek.push(a[2]);
        assert(odsek@ =~= a@.subrange(1, 3));
    } else {
        return None;
    }
    let niz = iz_znakov(odsek.as_slice());
    let s = interpoliraj_niz(niz.as_str());
    proof {
        let o = odsek@;
        let s1 = zamenjaj_par(o, '\\', '\\', '\\');
        let s2 = zamenjaj_par(s1, '\\', 'n', '\n');
        let s3 = zamenjaj_par(s2, '\\', 't', '\t');
        let s4 = zamenjaj_par(s3, '\\', 'r', '\r');
        let s5 = zamenjaj_par(s4, '\\', '"', '"');
        lema_neprazno(o, '\\', '\\', '\\');
        lema_neprazno(s1, '\\', 'n', '\n');
        lema_neprazno(s2, '\\', 't', '\t');
        lema_neprazno(s3, '\\', 'r', '\r');
        lema_neprazno(s4, '\\', '"', '"');
        lema_neprazno(s5, '\\', '\'', '\'');
    }
    let z = znaki(s.as_str());
    Some(z[0])
}

/// What `PUSH` with the argument `a` loads.
fn preberi_potisk(a: &[char]) -> (r: Option<Vrstica>)
    requires
        a@.len() > 0,
    ensures
        match r {
            Some(x) => potisk(a@) == Some(x.pogled()),
            None => potisk(a@) is None,
        },
{
    if a[0] == '#' {
        let t = brez_prvega(a);
        if vsebuje_piko(a) {
            Some(Vrstica::Realno(t))
        } else {
            match preberi_celo(t.as_slice()) {
                Some(x) => Some(Vrstica::Celo(x)),
                None => None,
            }
        }
    } else {
        match preberi_znak_literala(a) {
            Some(c) => Some(Vrstica::Znak(c)),
            None => None,
        }
    }
}

/// What the line `v` loads.
fn preberi_vrstico(v: &[char]) -> (r: Option<Vrstica>)
    ensures
        match r {
            Some(x) => vrstica(v@) == Some(x.pogled()),
            None => vrstica(v@) is None,
        },
{
    let w = razbij(v);
    proof {
        lema_besede(v@);
    }
    if w.len() < 2 {
        return None;
    }
    let ime_niz = iz_znakov(w[1].as_slice());
    let ime = ime_niz.as_str();
    assert(ime@ == besede(v@)[1]);
    if enaka(ime, "PUSH") {
        if w.len() < 3 {
            return None;
        }
        assert(w@[2]@ == besede(v@)[2]);
        preberi_potisk(w[2].as_slice())
    } else if enaka(ime, "ALOC") || enaka(ime, "TOP") {
        if w.len() < 3 {
            return None;
        }
        assert(w@[2]@ == besede(v@)[2]);
        match preberi_celo(w[2].as_slice()) {
            Some(x) => Some(
                Vrstica::Ukaz(
                    if enaka(ime, "ALOC") {
                        UkazPodatek::ALOC(x)
                    } else {
                        UkazPodatek::TOP(x)
                    },
                ),
            ),
            None => None,
        }
    } else if naslovni(ime) {
        if w.len() < 3 {
            return None;
        }
        assert(w@[2]@ == besede(v@)[2]);
        match preberi_za_znakom(w[2].as_slice()) {
            Some(x) => Some(Vrstica::Ukaz(ukaz_z_naslovom(ime, x))),
            None => None,
        }
    } else {
        Some(Vrstica::Ukaz(ukaz_brez_argumenta(ime)))
    }
}

/// A program loaded from assembler text, as values: its instructions, the
/// type of the value of each `PUSH` in order, and for each real number the
/// index of its instruction and the text that writes it.
pub struct NalozenoV {
    pub ukazi: Seq<UkazPodatek>,
    pub push_tipi: Seq<Tip>,
    pub realna: Seq<(int, Seq<char>)>,
}

/// The program `n` with the line `v` loaded after it: an empty line loads
/// nothing; a `PUSH` of a real number pushes zero until the number is read.
pub open spec fn dodaj_vrstico(n: NalozenoV, v: Seq<char>) -> Option<NalozenoV> {
    if v.len() == 0 {
        Some(n)
    } else {
        match vrstica(v) {
            None => None,
            Some(VrsticaV::Ukaz(u)) => Some(
                NalozenoV { ukazi: n.ukazi.push(u), push_tipi: n.push_tipi, realna: n.realna },
            ),
            Some(VrsticaV::Celo(x)) => Some(
                NalozenoV {
                    ukazi: n.ukazi.push(UkazPodatek::PUSH(Podatek { i: x })),
                    push_tipi: n.push_tipi.push(Tip::Celo),
                    realna: n.realna,
                },
            ),
            Some(VrsticaV::Znak(c)) => Some(
                NalozenoV {
                    ukazi: n.ukazi.push(UkazPodatek::PUSH(Podatek { i: (c as u32) as i32 })),
                    push_tipi: n.push_tipi.push(Tip::Znak),
                    realna: n.realna,
                },
            ),
            Some(VrsticaV::Realno(t)) => Some(
                NalozenoV {
                    ukazi: n.ukazi.push(UkazPodatek::PUSH(Podatek { i: 0 })),
                    push_tipi: n.push_tipi.push(Tip::Real),
                    realna: n.realna.push((n.ukazi.len() as int, t)),
                },
            ),
        }
    }
}

/// The program that the lines `v` load one after the other, or `None` if
/// one of them cannot be loaded.
pub open spec fn nalozi(v: Seq<Seq<char>>) -> Option<NalozenoV>
    decreases v.len(),
{
    if v.len() == 0 {
        Some(NalozenoV { ukazi: Seq::empty(), push_tipi: Seq::empty(), realna: Seq::empty() })
    } else {
        match nalozi(v.drop_last()) {
            None => None,
            Some(n) => dodaj_vrstico(n, v.last()),
        }
    }
}

/// A program loaded from assembler text before its real numbers are read:
/// each `PUSH` of a real number pushes zero, and `realna` gives, for each of
/// them in order, the index of its instruction and the text of the number.
pub struct Nalozeno {
    pub program: Program,
    pub realna: Vec<(usize, Vec<char>)>,
}

impl Nalozeno {
    /// The loaded program as values.
    pub open spec fn pogled(&self) -> NalozenoV {
        NalozenoV {
            ukazi: self.program.ukazi@,
            push_tipi: self.program.push_tipi@,
            realna: self.realna@.map_values(|p: (usize, Vec<char>)| (p.0 as int, p.1@)),
        }
    }
}

/// Loads the line `v` after the program `n`; `false` where it cannot be
/// loaded.
fn dodaj(n: &mut Nalozeno, v: &[char]) -> (ok: bool)
    ensures
        ok ==> dodaj_vrstico(old(n).pogled(), v@) == Some(final(n).pogled()),
        !ok ==> dodaj_vrstico(old(n).pogled(), v@) is None,
{
    if v.len() == 0 {
        return true;
    }
    let ghost prej = n.realna@;
    match preberi_vrstico(v) {
        None => false,
        Some(Vrstica::Ukaz(u)) => {
            n.program.ukazi.push(u);
            true
        },
        Some(Vrstica::Celo(x)) => {
            n.program.ukazi.push(UkazPodatek::PUSH(Podatek { i: x }));
            n.program.push_tipi.push(Tip::Celo);
            true
        },
        Some(Vrstica::Znak(c)) => {
            let x = c as u32;
            n.program.ukazi.push(UkazPodatek::PUSH(Podatek { i: x as i32 }));
            n.program.push_tipi.push(Tip::Znak);
            true
        },
        Some(Vrstica::Realno(t)) => {
            let k = n.program.ukazi.len();
            n.program.ukazi.push(UkazPodatek::PUSH(Podatek { i: 0 }));
            n.program.push_tipi.push(Tip::Real);
            n.realna.push((k, t));
            proof {
                let f = |p: (usize, Vec<char>)| (p.0 as int, p.1@);
                assert(n.realna@.map_values(f) =~= prej.map_values(f).push((k as int, t@)));
            }
            true
        },
    }
}

/// Loads a program from the machine's assembler text. Each line that is not
/// empty is an instruction: its second word names it and its third is the
/// argument (see `vrstica`). `None` where a line cannot be loaded. The real
/// numbers of `PUSH` are not read here: their instructions push zero, and
/// `realna` lists them with their text.
pub fn iz_assemblerja(assembler: &str) -> (r: Option<Nalozeno>)
    ensures
        match r {
            Some(n) => nalozi(vrstice(assembler@)) == Some(n.pogled()),
            None => nalozi(vrstice(assembler@)) is None,
        },
{
    let s = znaki(assembler);
    let mut n = Nalozeno {
        program: Program { push_tipi: Vec::new(), ukazi: Vec::new() },
        realna: Vec::new(),
    };
    proof {
        let f = |p: (usize, Vec<char>)| (p.0 as int, p.1@);
        assert(n.realna@.map_values(f) =~= Seq::<(int, Seq<char>)>::empty());
        assert(s@.take(0) =~= Seq::<char>::empty());
        assert(vrstice(s@.take(0)).drop_last() =~= Seq::<Seq<char>>::empty());
    }
    let mut ok = true;
    let mut vrsta: Vec<char> = Vec::new();
    let mut i: usize = 0;
    while i < s.len()
        invariant
            0 <= i <= s@.len(),
            vrstice(s@.take(i as int)).len() >= 1,
            vrsta@ == vrstice(s@.take(i as int)).last(),
            ok ==> nalozi(vrstice(s@.take(i as int)).drop_last()) == Some(n.pogled()),
            !ok ==> nalozi(vrstice(s@.take(i as int)).drop_last()) is None,
        decreases s@.len() - i,
    {
        let c = s[i];
        let ghost l = vrstice(s@.take(i as int));
        proof {
            assert(s@.take(i as int + 1).drop_last() =~= s@.take(i as int));
            assert(s@.take(i as int + 1).last() == c);
            assert(l.drop_last().push(l.last()) =~= l);
        }
        if c == '\n' {
            if ok {
                ok = dodaj(&mut n, vrsta.as_slice());
            }
            vrsta = Vec::new();
            proof {
                let l2 = vrstice(s@.take(i as int + 1));
                assert(l2 == l.push(Seq::<char>::empty()));
                assert(l2.drop_last() =~= l);
                assert(vrsta@ =~= l2.last());
            }
        } else {
            vrsta.push(c);
            proof {
                let l2 = vrstice(s@.take(i as int + 1));
                assert(l2 == l.update(l.len() - 1, l.last().push(c)));
                assert(l2.drop_last() =~= l.drop_last());
                assert(vrsta@ =~= l2.last());
            }
        }
        i = i + 1;
    }
    proof {
        let l = vrstice(s@.take(i as int));
        assert(s@.take(i as int) =~= assembler@);
        assert(l.drop_last().push(l.last()) =~= l);
    }
    if ok {
        ok = dodaj(&mut n, vrsta.as_slice());
    }
    if ok {
        Some(n)
    } else {
        None
    }
}

/// How many of the instructions `u` are `PUSH`.
pub open spec fn stevilo_potiskov(u: Seq<UkazPodatek>) -> nat
    decreases u.len(),
{
    if u.len() == 0 {
        0
    } else {
        stevilo_potiskov(u.drop_last()) + if u.last() is PUSH {
            1nat
        } else {
            0nat
        }
    }
}

/// Whether each real number that `n` lists belongs to a `PUSH` of it that
/// pushes zero.
pub open spec fn realna_na_potiskih(n: NalozenoV) -> bool {
    forall|j: int|
        0 <= j < n.realna.len() ==> 0 <= (#[trigger] n.realna[j]).0 < n.ukazi.len()
            && n.ukazi[n.realna[j].0] == UkazPodatek::PUSH(Podatek { i: 0 })
}

/// A loaded program gives a type for each of its `PUSH` instructions, one
/// for one, and each real number it lists belongs to a `PUSH` of the
/// program, which pushes zero until the number is written in.
pub proof fn zakon_nalozeni_potiski(v: Seq<Seq<char>>)
    requires
        nalozi(v) is Some,
    ensures
        nalozi(v).unwrap().push_tipi.len() == stevilo_potiskov(nalozi(v).unwrap().ukazi),
        realna_na_potiskih(nalozi(v).unwrap()),
    decreases v.len(),
{
    reveal(brez_argumenta);
    reveal(z_naslovom);
    if v.len() > 0 {
        zakon_nalozeni_potiski(v.drop_last());
        let m = nalozi(v.drop_last()).unwrap();
        let n = nalozi(v).unwrap();
        if v.last().len() > 0 {
            assert(n.ukazi.drop_last() =~= m.ukazi);
            assert forall|j: int| 0 <= j < n.realna.len() implies 0 <= (#[trigger] n.realna[j]).0
                < n.ukazi.len() && n.ukazi[n.realna[j].0] == UkazPodatek::PUSH(
                Podatek { i: 0 },
            ) by {
                if j < m.realna.len() {
                    assert(n.realna[j] == m.realna[j]);
                    assert(n.ukazi[m.realna[j].0] == m.ukazi[m.realna[j].0]);
                }
            }
        }
    }
}

} // verus!
