//! Writing a program as the machine's assembler text: one instruction per
//! line, after its index.

use crate::besedilo::{
    desetisko, desetisko_celo, dodaj_desetisko, dodaj_desetisko_celo, dodaj_znak, stevka, znak_iz_stevila,
};
use crate::loci::{zakon_brez_ubezov, zamenjaj_par};
use crate::stevilo::{celo_iz, je_stevka, stevke, zakon_branje_zapisa};
use crate::nalaganje::{
    besede, brez_argumenta, celo, dodaj_vrstico, je_naslovni, je_presledek, lema_beseda, lema_besede_presledek,
    lema_vrstice, lema_vrstice_brez_preloma, lema_vrstice_prelom, nalozi, potisk, sirina_utf8, stevilo_potiskov,
    vrstica, vrstice, z_naslovom, za_znakom, znak_literala, NalozenoV, VrsticaV,
};
use crate::program::{Podatek, Program, UkazPodatek};
use crate::tip::Tip;
use vstd::prelude::*;
use vstd::string::StringExecFns;

verus! {

/// How many of the types `t` are `Real`.
pub open spec fn stevilo_realnih(t: Seq<Tip>) -> nat
    decreases t.len(),
{
    if t.len() == 0 {
        0
    } else {
        stevilo_realnih(t.drop_last()) + if t.last() is Real {
            1nat
        } else {
            0nat
        }
    }
}

/// Whether `x` is the scalar value of a character.
pub open spec fn je_znak(x: i32) -> bool {
    0 <= x <= 0xd7ff || 0xe000 <= x <= 0x10ffff
}

/// How the character `c` is written in a character literal: a backslash, a
/// line break, a tab, a carriage return and either quote are escaped with a
/// backslash (the line break, tab and carriage return as `n`, `t` and `r`).
pub open spec fn ubezi(c: char) -> Seq<char> {
    if c == '\\' {
        seq!['\\', '\\']
    } else if c == '\n' {
        seq!['\\', 'n']
    } else if c == '\t' {
        seq!['\\', 't']
    } else if c == '\r' {
        seq!['\\', 'r']
    } else if c == '"' {
        seq!['\\', '"']
    } else if c == '\'' {
        seq!['\\', '\'']
    } else {
        seq![c]
    }
}

/// The index `k` of an instruction, right-aligned to three places, and a
/// space.
pub open spec fn odmik_indeksa(k: nat) -> Seq<char> {
    let presledki = if k < 10 {
        seq![' ', ' ']
    } else if k < 100 {
        seq![' ']
    } else {
        Seq::empty()
    };
    presledki + desetisko(k) + seq![' ']
}

/// The sign written before a size or an offset: `+` before a positive one,
/// a negative one has its `-`.
pub open spec fn predznak(x: i32) -> Seq<char> {
    if x > 0 {
        seq!['+']
    } else {
        Seq::empty()
    }
}

/// The name of the instruction `u`.
pub open spec fn ime_ukaza(u: UkazPodatek) -> Seq<char> {
    match u {
        UkazPodatek::NOOP => "NOOP"@,
        UkazPodatek::JUMP(_) => "JUMP"@,
        UkazPodatek::JMPC(_) => "JMPC"@,
        UkazPodatek::JMPD => "JMPD"@,
        UkazPodatek::ALOC(_) => "ALOC"@,
        UkazPodatek::PUSH(_) => "PUSH"@,
        UkazPodatek::LOAD(_) => "LOAD"@,
        UkazPodatek::LDOF(_) => "LDOF"@,
        UkazPodatek::LDDY(_) => "LDDY"@,
        UkazPodatek::STOR(_) => "STOR"@,
        UkazPodatek::STOF(_) => "STOF"@,
        UkazPodatek::STDY(_) => "STDY"@,
        UkazPodatek::TOP(_) => "TOP"@,
        UkazPodatek::POS => "POS"@,
        UkazPodatek::ZERO => "ZERO"@,
        UkazPodatek::SOFF => "SOFF"@,
        UkazPodatek::LOFF => "LOFF"@,
        UkazPodatek::PUTC => "PUTC"@,
        UkazPodatek::GETC => "GETC"@,
        UkazPodatek::FLUSH => "FLUSH"@,
        UkazPodatek::ADDF => "ADDF"@,
        UkazPodatek::SUBF => "SUBF"@,
        UkazPodatek::MULF => "MULF"@,
        UkazPodatek::DIVF => "DIVF"@,
        UkazPodatek::MODF => "MODF"@,
        UkazPodatek::POWF => "POWF"@,
        UkazPodatek::ADDI => "ADDI"@,
        UkazPodatek::SUBI => "SUBI"@,
        UkazPodatek::MULI => "MULI"@,
        UkazPodatek::DIVI => "DIVI"@,
        UkazPodatek::MODI => "MODI"@,
        UkazPodatek::POWI => "POWI"@,
        UkazPodatek::BOR => "BOR"@,
        UkazPodatek::BXOR => "BXOR"@,
        UkazPodatek::BAND => "BAND"@,
        UkazPodatek::BSLL => "BSLL"@,
        UkazPodatek::BSLR => "BSLR"@,
        UkazPodatek::FTOI => "FTOI"@,
        UkazPodatek::ITOF => "ITOF"@,
    }
}

/// What follows the name of an instruction `u` other than `PUSH`, before
/// the line break: a jump target after ` #`, an address after ` @`, an
/// offset after ` +`, a size or an offset with its sign.
pub open spec fn argument_ukaza(u: UkazPodatek) -> Seq<char> {
    match u {
        UkazPodatek::JUMP(n) => seq![' ', '#'] + desetisko_celo(n as int),
        UkazPodatek::JMPC(n) => seq![' ', '#'] + desetisko_celo(n as int),
        UkazPodatek::ALOC(n) => seq![' '] + predznak(n) + desetisko_celo(n as int),
        UkazPodatek::LOAD(n) => seq![' ', '@'] + desetisko_celo(n as int),
        UkazPodatek::STOR(n) => seq![' ', '@'] + desetisko_celo(n as int),
        UkazPodatek::LDOF(n) => seq![' ', '+'] + desetisko_celo(n as int),
        UkazPodatek::LDDY(n) => seq![' ', '+'] + desetisko_celo(n as int),
        UkazPodatek::STOF(n) => seq![' ', '+'] + desetisko_celo(n as int),
        UkazPodatek::STDY(n) => seq![' ', '+'] + desetisko_celo(n as int),
        UkazPodatek::TOP(n) => seq![' ', ' '] + predznak(n) + desetisko_celo(n as int),
        UkazPodatek::POS => seq![' '],
        _ => Seq::empty(),
    }
}

/// What follows `PUSH` for the value `x` of type `tip`, other than a real
/// number: a whole number after ` #`, a character literal after a space.
/// `None` for any other type, or a character that is none.
pub open spec fn argument_potiska(tip: Tip, x: i32) -> Option<Seq<char>> {
    match tip {
        Tip::Celo => Some(seq![' ', '#'] + desetisko_celo(x as int)),
        Tip::Znak => if je_znak(x) {
            Some(seq![' ', '\''] + ubezi(x as char) + seq!['\''])
        } else {
            None
        },
        _ => None,
    }
}

/// The line of the instruction at index `k`, with its line break. A `PUSH`
/// takes the next of the types `tipi` and, for a real number, the next of
/// the texts `realna`. `None` where it has no type, or not one of a real
/// number, a whole number or a character, or no text.
pub open spec fn vrstica_zapisa(
    ukazi: Seq<UkazPodatek>,
    tipi: Seq<Tip>,
    realna: Seq<Seq<char>>,
    k: int,
) -> Option<Seq<char>> {
    let u = ukazi[k];
    let argument = if u is PUSH {
        let j = stevilo_potiskov(ukazi.take(k));
        if j >= tipi.len() {
            None
        } else if tipi[j as int] is Real {
            let r = stevilo_realnih(tipi.take(j as int));
            if r < realna.len() {
                Some(seq![' ', '#'] + realna[r as int])
            } else {
                None
            }
        } else {
            argument_potiska(tipi[j as int], u->PUSH_0.i)
        }
    } else {
        Some(argument_ukaza(u))
    };
    match argument {
        Some(a) => Some(odmik_indeksa(k as nat) + ime_ukaza(u) + a + seq!['\n']),
        None => None,
    }
}

/// The assembler text of the first `n` instructions of `ukazi`, or `None`
/// where one of them cannot be written.
pub open spec fn zapis_do(
    ukazi: Seq<UkazPodatek>,
    tipi: Seq<Tip>,
    realna: Seq<Seq<char>>,
    n: nat,
) -> Option<Seq<char>>
    decreases n,
{
    if n == 0 {
        Some(Seq::empty())
    } else {
        match zapis_do(ukazi, tipi, realna, (n - 1) as nat) {
            None => None,
            Some(t) => match vrstica_zapisa(ukazi, tipi, realna, n - 1) {
                None => None,
                Some(v) => Some(t + v),
            },
        }
    }
}

/// Appends how `c` is written in a character literal.
pub(crate) fn dodaj_ubezno(s: &mut String, c: char)
    ensures
        final(s)@ == old(s)@ + ubezi(c),
{
    if c == '\\' {
        dodaj_znak(s, '\\');
        dodaj_znak(s, '\\');
    } else if c == '\n' {
        dodaj_znak(s, '\\');
        dodaj_znak(s, 'n');
    } else if c == '\t' {
        dodaj_znak(s, '\\');
        dodaj_znak(s, 't');
    } else if c == '\r' {
        dodaj_znak(s, '\\');
        dodaj_znak(s, 'r');
    } else if c == '"' {
        dodaj_znak(s, '\\');
        dodaj_znak(s, '"');
    } else if c == '\'' {
        dodaj_znak(s, '\\');
        dodaj_znak(s, '\'');
    } else {
        dodaj_znak(s, c);
    }
    assert(final(s)@ =~= old(s)@ + ubezi(c));
}

/// Appends the index `k`, right-aligned to three places, and a space.
fn dodaj_indeks(s: &mut String, k: usize)
    ensures
        final(s)@ == old(s)@ + odmik_indeksa(k as nat),
{
    if k < 10 {
        dodaj_znak(s, ' ');
        dodaj_znak(s, ' ');
    } else if k < 100 {
        dodaj_znak(s, ' ');
    }
    dodaj_desetisko(s, k as u64);
    dodaj_znak(s, ' ');
    assert(final(s)@ =~= old(s)@ + odmik_indeksa(k as nat));
}

/// The name of the instruction `u`.
fn ime(u: &UkazPodatek) -> (r: &'static str)
    ensures
        r@ == ime_ukaza(*u),
{
    match u {
        UkazPodatek::NOOP => "NOOP",
        UkazPodatek::JUMP(_) => "JUMP",
        UkazPodatek::JMPC(_) => "JMPC",
        UkazPodatek::JMPD => "JMPD",
        UkazPodatek::ALOC(_) => "ALOC",
        UkazPodatek::PUSH(_) => "PUSH",
        UkazPodatek::LOAD(_) => "LOAD",
        UkazPodatek::LDOF(_) => "LDOF",
        UkazPodatek::LDDY(_) => "LDDY",
        UkazPodatek::STOR(_) => "STOR",
        UkazPodatek::STOF(_) => "STOF",
        UkazPodatek::STDY(_) => "STDY",
        UkazPodatek::TOP(_) => "TOP",
        UkazPodatek::POS => "POS",
        UkazPodatek::ZERO => "ZERO",
        UkazPodatek::SOFF => "SOFF",
        UkazPodatek::LOFF => "LOFF",
        UkazPodatek::PUTC => "PUTC",
        UkazPodatek::GETC => "GETC",
        UkazPodatek::FLUSH => "FLUSH",
        UkazPodatek::ADDF => "ADDF",
        UkazPodatek::SUBF => "SUBF",
        UkazPodatek::MULF => "MULF",
        UkazPodatek::DIVF => "DIVF",
        UkazPodatek::MODF => "MODF",
        UkazPodatek::POWF => "POWF",
        UkazPodatek::ADDI => "ADDI",
        UkazPodatek::SUBI => "SUBI",
        UkazPodatek::MULI => "MULI",
        UkazPodatek::DIVI => "DIVI",
        UkazPodatek::MODI => "MODI",
        UkazPodatek::POWI => "POWI",
        UkazPodatek::BOR => "BOR",
        UkazPodatek::BXOR => "BXOR",
        UkazPodatek::BAND => "BAND",
        UkazPodatek::BSLL => "BSLL",
        UkazPodatek::BSLR => "BSLR",
        UkazPodatek::FTOI => "FTOI",
        UkazPodatek::ITOF => "ITOF",
    }
}

/// Appends a number with its sign: `+` before a positive one.
fn dodaj_s_predznakom(s: &mut String, x: i32)
    ensures
        final(s)@ == old(s)@ + predznak(x) + desetisko_celo(x as int),
{
    if x > 0 {
        dodaj_znak(s, '+');
    }
    dodaj_desetisko_celo(s, x as i64);
    assert(final(s)@ =~= old(s)@ + predznak(x) + desetisko_celo(x as int));
}

/// Appends what follows the name of an instruction other than `PUSH`.
fn dodaj_argument(s: &mut String, u: UkazPodatek)
    requires
        !(u is PUSH),
    ensures
        final(s)@ == old(s)@ + argument_ukaza(u),
{
    match u {
        UkazPodatek::JUMP(n) | UkazPodatek::JMPC(n) => {
            dodaj_znak(s, ' ');
            dodaj_znak(s, '#');
            dodaj_desetisko_celo(s, n as i64);
        },
        UkazPodatek::ALOC(n) => {
            dodaj_znak(s, ' ');
            dodaj_s_predznakom(s, n);
        },
        UkazPodatek::LOAD(n) | UkazPodatek::STOR(n) => {
            dodaj_znak(s, ' ');
            dodaj_znak(s, '@');
            dodaj_desetisko_celo(s, n as i64);
        },
        UkazPodatek::LDOF(n) | UkazPodatek::LDDY(n) | UkazPodatek::STOF(n) | UkazPodatek::STDY(
            n,
        ) => {
            dodaj_znak(s, ' ');
            dodaj_znak(s, '+');
            dodaj_desetisko_celo(s, n as i64);
        },
        UkazPodatek::TOP(n) => {
            dodaj_znak(s, ' ');
            dodaj_znak(s, ' ');
            dodaj_s_predznakom(s, n);
        },
        UkazPodatek::POS => {
            dodaj_znak(s, ' ');
        },
        _ => {},
    }
    assert(final(s)@ =~= old(s)@ + argument_ukaza(u));
}

/// The characters of each of the texts `t`.
pub open spec fn besedila_nizov(t: Seq<String>) -> Seq<Seq<char>> {
    t.map_values(|b: String| b@)
}

/// Once an instruction cannot be written, no longer part of the program can.
proof fn lema_zapis_ne_uspe(
    ukazi: Seq<UkazPodatek>,
    tipi: Seq<Tip>,
    realna: Seq<Seq<char>>,
    k: nat,
    n: nat,
)
    requires
        k <= n,
        zapis_do(ukazi, tipi, realna, k) is None,
    ensures
        zapis_do(ukazi, tipi, realna, n) is None,
    decreases n - k,
{
    if k < n {
        lema_zapis_ne_uspe(ukazi, tipi, realna, k, (n - 1) as nat);
    }
}

/// The bits of the value of each `PUSH` of a real number among the first
/// `n` instructions, in order.
pub open spec fn realni_biti(ukazi: Seq<UkazPodatek>, tipi: Seq<Tip>, n: nat) -> Seq<i32>
    decreases n,
{
    if n == 0 {
        Seq::empty()
    } else {
        let p = realni_biti(ukazi, tipi, (n - 1) as nat);
        let u = ukazi[n - 1];
        let j = stevilo_potiskov(ukazi.take(n - 1));
        if u is PUSH && j < tipi.len() && tipi[j as int] is Real {
            p.push(u->PUSH_0.i)
        } else {
            p
        }
    }
}

impl Program {
    /// The bits of the real numbers that the program pushes, in the order of
    /// their `PUSH` instructions.
    pub fn realna_biti(&self) -> (r: Vec<i32>)
        ensures
            r@ == realni_biti(self.ukazi@, self.push_tipi@, self.ukazi@.len()),
    {
        let mut r: Vec<i32> = Vec::new();
        let mut j: usize = 0;
        let mut k: usize = 0;
        while k < self.ukazi.len()
            invariant
                0 <= k <= self.ukazi@.len(),
                j <= k,
                j == stevilo_potiskov(self.ukazi@.take(k as int)),
                r@ == realni_biti(self.ukazi@, self.push_tipi@, k as nat),
            decreases self.ukazi@.len() - k,
        {
            proof {
                assert(self.ukazi@.take(k + 1).drop_last() =~= self.ukazi@.take(k as int));
            }
            match self.ukazi[k] {
                UkazPodatek::PUSH(p) => {
                    if j < self.push_tipi.len() {
                        match &self.push_tipi[j] {
                            Tip::Real => {
                                r.push(p.i);
                            },
                            _ => {},
                        }
                    }
                    j = j + 1;
                },
                _ => {},
            }
            k = k + 1;
        }
        r
    }

    /// The program as the machine's assembler text: each instruction on a
    /// line after its index (see `vrstica_zapisa`). A real number that a
    /// `PUSH` pushes is written as the next of the texts `realna`. `None`
    /// where a `PUSH` has no type, or one that is not a real number, a whole
    /// number or a character, or its value is no character, or `realna` has
    /// too few texts.
    pub fn v_assembler(&self, realna: &[String]) -> (r: Option<String>)
        ensures
            match r {
                Some(s) => zapis_do(
                    self.ukazi@,
                    self.push_tipi@,
                    besedila_nizov(realna@),
                    self.ukazi@.len(),
                ) == Some(s@),
                None => zapis_do(
                    self.ukazi@,
                    self.push_tipi@,
                    besedila_nizov(realna@),
                    self.ukazi@.len(),
                ) is None,
            },
    {
        let ghost ukazi = self.ukazi@;
        let ghost tipi = self.push_tipi@;
        let ghost besedila = besedila_nizov(realna@);
        let mut s = String::new();
        let mut j: usize = 0;
        let mut rr: usize = 0;
        let mut k: usize = 0;
        proof {
            assert(s@ =~= Seq::<char>::empty());
        }
        while k < self.ukazi.len()
            invariant
                ukazi == self.ukazi@,
                tipi == self.push_tipi@,
                besedila == besedila_nizov(realna@),
                0 <= k <= ukazi.len(),
                j == stevilo_potiskov(ukazi.take(k as int)),
                j <= tipi.len(),
                rr == stevilo_realnih(tipi.take(j as int)),
                zapis_do(ukazi, tipi, besedila, k as nat) == Some(s@),
            decreases ukazi.len() - k,
        {
            let u = self.ukazi[k];
            let ghost prej = s@;
            proof {
                assert(ukazi.take(k + 1).drop_last() =~= ukazi.take(k as int));
            }
            let ghost argument: Seq<char>;
            dodaj_indeks(&mut s, k);
            s.append(ime(&u));
            let ghost sredina = s@;
            match u {
                UkazPodatek::PUSH(p) => {
                    if j >= self.push_tipi.len() {
                        proof {
                            lema_zapis_ne_uspe(ukazi, tipi, besedila, k as nat + 1, ukazi.len());
                        }
                        return None;
                    }
                    proof {
                        assert(tipi.take(j + 1).drop_last() =~= tipi.take(j as int));
                    }
                    match &self.push_tipi[j] {
                        Tip::Real => {
                            if rr >= realna.len() {
                                proof {
                                    lema_zapis_ne_uspe(ukazi, tipi, besedila, k as nat + 1, ukazi.len());
                                }
                                return None;
                            }
                            dodaj_znak(&mut s, ' ');
                            dodaj_znak(&mut s, '#');
                            s.append(realna[rr].as_str());
                            proof {
                                argument = seq![' ', '#'] + besedila[rr as int];
                            }
                            rr = rr + 1;
                        },
                        Tip::Celo => {
                            dodaj_znak(&mut s, ' ');
                            dodaj_znak(&mut s, '#');
                            dodaj_desetisko_celo(&mut s, p.i as i64);
                            proof {
                                argument = seq![' ', '#'] + desetisko_celo(p.i as int);
                            }
                        },
                        Tip::Znak => {
                            if p.i < 0 {
                                proof {
                                    lema_zapis_ne_uspe(ukazi, tipi, besedila, k as nat + 1, ukazi.len());
                                }
                                return None;
                            }
                            match znak_iz_stevila(p.i as u32) {
                                Some(c) => {
                                    dodaj_znak(&mut s, ' ');
                                    dodaj_znak(&mut s, '\'');
                                    dodaj_ubezno(&mut s, c);
                                    dodaj_znak(&mut s, '\'');
                                    proof {
                                        argument = seq![' ', '\''] + ubezi(c) + seq!['\''];
                                    }
                                },
                                None => {
                                    proof {
                                        lema_zapis_ne_uspe(ukazi, tipi, besedila, k as nat + 1, ukazi.len());
                                    }
                                    return None;
                                },
                            }
                        },
                        _ => {
                            proof {
                                lema_zapis_ne_uspe(ukazi, tipi, besedila, k as nat + 1, ukazi.len());
                            }
                            return None;
                        },
                    }
                    j = j + 1;
                },
                _ => {
                    dodaj_argument(&mut s, u);
                    proof {
                        argument = argument_ukaza(u);
                    }
                },
            }
            dodaj_znak(&mut s, '\n');
            proof {
                assert(s@ =~= sredina + argument + seq!['\n']);
                assert(vrstica_zapisa(ukazi, tipi, besedila, k as int) == Some(
                    odmik_indeksa(k as nat) + ime_ukaza(u) + argument + seq!['\n'],
                ));
                assert(s@ =~= prej + (odmik_indeksa(k as nat) + ime_ukaza(u) + argument + seq!['\n']));
            }
            k = k + 1;
        }
        Some(s)
    }
}

/// Whether the instruction `u` has an address or an offset after a sign.
pub open spec fn je_naslovni_ukaz(u: UkazPodatek) -> bool {
    u is JUMP
    || u is JMPC
    || u is LOAD
    || u is LDOF
    || u is LDDY
    || u is STOR
    || u is STOF
    || u is STDY
}

/// The number that the instruction `u` carries: an address, an offset, a
/// jump target or a size.
pub open spec fn stevilka_ukaza(u: UkazPodatek) -> i32 {
    match u {
        UkazPodatek::ALOC(x) => x,
        UkazPodatek::TOP(x) => x,
        UkazPodatek::JUMP(x) => x,
        UkazPodatek::JMPC(x) => x,
        UkazPodatek::LOAD(x) => x,
        UkazPodatek::LDOF(x) => x,
        UkazPodatek::LDDY(x) => x,
        UkazPodatek::STOR(x) => x,
        UkazPodatek::STOF(x) => x,
        UkazPodatek::STDY(x) => x,
        _ => 0,
    }
}

/// Whether the characters `s` are capital letters.
pub open spec fn velike_crke(s: Seq<char>) -> bool {
    forall|i: int| 0 <= i < s.len() ==> 'A' <= #[trigger] s[i] <= 'Z'
}

/// A short text whose characters are each a capital letter.
proof fn lema_velike_crke(s: Seq<char>)
    requires
        1 <= s.len() <= 5,
        'A' <= s[0] <= 'Z',
        s.len() > 1 ==> 'A' <= s[1] <= 'Z',
        s.len() > 2 ==> 'A' <= s[2] <= 'Z',
        s.len() > 3 ==> 'A' <= s[3] <= 'Z',
        s.len() > 4 ==> 'A' <= s[4] <= 'Z',
    ensures
        velike_crke(s),
{
    assert forall|i: int| 0 <= i < s.len() implies 'A' <= #[trigger] s[i] <= 'Z' by {
        if i == 0 {
        } else if i == 1 {
        } else if i == 2 {
        } else if i == 3 {
        } else {
        }
    }
}

/// The name that an instruction is written with is read back as that
/// instruction: it is a word of capital letters, and the loader's choice by
/// name gives the instruction back, but for `FLUSH`, `BSLL` and `BSLR`,
/// which it does not know.
proof fn lema_ime(u: UkazPodatek)
    requires
        !(u is FLUSH || u is BSLL || u is BSLR),
    ensures
        ime_ukaza(u).len() > 0,
        velike_crke(ime_ukaza(u)),
        (ime_ukaza(u) == "PUSH"@) == (u is PUSH),
        (ime_ukaza(u) == "ALOC"@) == (u is ALOC),
        (ime_ukaza(u) == "TOP"@) == (u is TOP),
        je_naslovni(ime_ukaza(u)) == je_naslovni_ukaz(u),
        je_naslovni_ukaz(u) ==> z_naslovom(ime_ukaza(u), stevilka_ukaza(u)) == u,
        !(u is PUSH || u is ALOC || u is TOP || je_naslovni_ukaz(u)) ==> brez_argumenta(
            ime_ukaza(u),
        ) == u,
{
    reveal(je_naslovni);
    reveal(z_naslovom);
    reveal(brez_argumenta);
    reveal_strlit("PUSH");
    reveal_strlit("ALOC");
    reveal_strlit("TOP");
    reveal_strlit("JUMP");
    reveal_strlit("JMPC");
    reveal_strlit("LOAD");
    reveal_strlit("LDOF");
    reveal_strlit("LDDY");
    reveal_strlit("STOR");
    reveal_strlit("STOF");
    reveal_strlit("STDY");
    reveal_strlit("JMPD");
    reveal_strlit("POS");
    reveal_strlit("ZERO");
    reveal_strlit("LOFF");
    reveal_strlit("SOFF");
    reveal_strlit("PUTC");
    reveal_strlit("PRTC");
    reveal_strlit("GETC");
    reveal_strlit("ADDF");
    reveal_strlit("SUBF");
    reveal_strlit("MULF");
    reveal_strlit("DIVF");
    reveal_strlit("MODF");
    reveal_strlit("POWF");
    reveal_strlit("ADDI");
    reveal_strlit("SUBI");
    reveal_strlit("MULI");
    reveal_strlit("DIVI");
    reveal_strlit("MODI");
    reveal_strlit("POWI");
    reveal_strlit("BOR");
    reveal_strlit("BXOR");
    reveal_strlit("BAND");
    reveal_strlit("FTOI");
    reveal_strlit("ITOF");
    reveal_strlit("NOOP");
    reveal_strlit("FLUSH");
    reveal_strlit("BSLL");
    reveal_strlit("BSLR");
    assert("PUSH"@.len() == 4);
    assert("PUSH"@[0] == 'P');
    assert("PUSH"@[1] == 'U');
    assert("PUSH"@[2] == 'S');
    assert("PUSH"@[3] == 'H');
    assert("ALOC"@.len() == 4);
    assert("ALOC"@[0] == 'A');
    assert("ALOC"@[1] == 'L');
    assert("ALOC"@[2] == 'O');
    assert("ALOC"@[3] == 'C');
    assert("TOP"@.len() == 3);
    assert("TOP"@[0] == 'T');
    assert("TOP"@[1] == 'O');
    assert("TOP"@[2] == 'P');
    assert("JUMP"@.len() == 4);
    assert("JUMP"@[0] == 'J');
    assert("JUMP"@[1] == 'U');
    assert("JUMP"@[2] == 'M');
    assert("JUMP"@[3] == 'P');
    assert("JMPC"@.len() == 4);
    assert("JMPC"@[0] == 'J');
    assert("JMPC"@[1] == 'M');
    assert("JMPC"@[2] == 'P');
    assert("JMPC"@[3] == 'C');
    assert("LOAD"@.len() == 4);
    assert("LOAD"@[0] == 'L');
    assert("LOAD"@[1] == 'O');
    assert("LOAD"@[2] == 'A');
    assert("LOAD"@[3] == 'D');
    assert("LDOF"@.len() == 4);
    assert("LDOF"@[0] == 'L');
    assert("LDOF"@[1] == 'D');
    assert("LDOF"@[2] == 'O');
    assert("LDOF"@[3] == 'F');
    assert("LDDY"@.len() == 4);
    assert("LDDY"@[0] == 'L');
    assert("LDDY"@[1] == 'D');
    assert("LDDY"@[2] == 'D');
    assert("LDDY"@[3] == 'Y');
    assert("STOR"@.len() == 4);
    assert("STOR"@[0] == 'S');
    assert("STOR"@[1] == 'T');
    assert("STOR"@[2] == 'O');
    assert("STOR"@[3] == 'R');
    assert("STOF"@.len() == 4);
    assert("STOF"@[0] == 'S');
    assert("STOF"@[1] == 'T');
    assert("STOF"@[2] == 'O');
    assert("STOF"@[3] == 'F');
    assert("STDY"@.len() == 4);
    assert("STDY"@[0] == 'S');
    assert("STDY"@[1] == 'T');
    assert("STDY"@[2] == 'D');
    assert("STDY"@[3] == 'Y');
    assert("JMPD"@.len() == 4);
    assert("JMPD"@[0] == 'J');
    assert("JMPD"@[1] == 'M');
    assert("JMPD"@[2] == 'P');
    assert("JMPD"@[3] == 'D');
    assert("POS"@.len() == 3);
    assert("POS"@[0] == 'P');
    assert("POS"@[1] == 'O');
    assert("POS"@[2] == 'S');
    assert("ZERO"@.len() == 4);
    assert("ZERO"@[0] == 'Z');
    assert("ZERO"@[1] == 'E');
    assert("ZERO"@[2] == 'R');
    assert("ZERO"@[3] == 'O');
    assert("LOFF"@.len() == 4);
    assert("LOFF"@[0] == 'L');
    assert("LOFF"@[1] == 'O');
    assert("LOFF"@[2] == 'F');
    assert("LOFF"@[3] == 'F');
    assert("SOFF"@.len() == 4);
    assert("SOFF"@[0] == 'S');
    assert("SOFF"@[1] == 'O');
    assert("SOFF"@[2] == 'F');
    assert("SOFF"@[3] == 'F');
    assert("PUTC"@.len() == 4);
    assert("PUTC"@[0] == 'P');
    assert("PUTC"@[1] == 'U');
    assert("PUTC"@[2] == 'T');
    assert("PUTC"@[3] == 'C');
    assert("PRTC"@.len() == 4);
    assert("PRTC"@[0] == 'P');
    assert("PRTC"@[1] == 'R');
    assert("PRTC"@[2] == 'T');
    assert("PRTC"@[3] == 'C');
    assert("GETC"@.len() == 4);
    assert("GETC"@[0] == 'G');
    assert("GETC"@[1] == 'E');
    assert("GETC"@[2] == 'T');
    assert("GETC"@[3] == 'C');
    assert("ADDF"@.len() == 4);
    assert("ADDF"@[0] == 'A');
    assert("ADDF"@[1] == 'D');
    assert("ADDF"@[2] == 'D');
    assert("ADDF"@[3] == 'F');
    assert("SUBF"@.len() == 4);
    assert("SUBF"@[0] == 'S');
    assert("SUBF"@[1] == 'U');
    assert("SUBF"@[2] == 'B');
    assert("SUBF"@[3] == 'F');
    assert("MULF"@.len() == 4);
    assert("MULF"@[0] == 'M');
    assert("MULF"@[1] == 'U');
    assert("MULF"@[2] == 'L');
    assert("MULF"@[3] == 'F');
    assert("DIVF"@.len() == 4);
    assert("DIVF"@[0] == 'D');
    assert("DIVF"@[1] == 'I');
    assert("DIVF"@[2] == 'V');
    assert("DIVF"@[3] == 'F');
    assert("MODF"@.len() == 4);
    assert("MODF"@[0] == 'M');
    assert("MODF"@[1] == 'O');
    assert("MODF"@[2] == 'D');
    assert("MODF"@[3] == 'F');
    assert("POWF"@.len() == 4);
    assert("POWF"@[0] == 'P');
    assert("POWF"@[1] == 'O');
    assert("POWF"@[2] == 'W');
    assert("POWF"@[3] == 'F');
    assert("ADDI"@.len() == 4);
    assert("ADDI"@[0] == 'A');
    assert("ADDI"@[1] == 'D');
    assert("ADDI"@[2] == 'D');
    assert("ADDI"@[3] == 'I');
    assert("SUBI"@.len() == 4);
    assert("SUBI"@[0] == 'S');
    assert("SUBI"@[1] == 'U');
    assert("SUBI"@[2] == 'B');
    assert("SUBI"@[3] == 'I');
    assert("MULI"@.len() == 4);
    assert("MULI"@[0] == 'M');
    assert("MULI"@[1] == 'U');
    assert("MULI"@[2] == 'L');
    assert("MULI"@[3] == 'I');
    assert("DIVI"@.len() == 4);
    assert("DIVI"@[0] == 'D');
    assert("DIVI"@[1] == 'I');
    assert("DIVI"@[2] == 'V');
    assert("DIVI"@[3] == 'I');
    assert("MODI"@.len() == 4);
    assert("MODI"@[0] == 'M');
    assert("MODI"@[1] == 'O');
    assert("MODI"@[2] == 'D');
    assert("MODI"@[3] == 'I');
    assert("POWI"@.len() == 4);
    assert("POWI"@[0] == 'P');
    assert("POWI"@[1] == 'O');
    assert("POWI"@[2] == 'W');
    assert("POWI"@[3] == 'I');
    assert("BOR"@.len() == 3);
    assert("BOR"@[0] == 'B');
    assert("BOR"@[1] == 'O');
    assert("BOR"@[2] == 'R');
    assert("BXOR"@.len() == 4);
    assert("BXOR"@[0] == 'B');
    assert("BXOR"@[1] == 'X');
    assert("BXOR"@[2] == 'O');
    assert("BXOR"@[3] == 'R');
    assert("BAND"@.len() == 4);
    assert("BAND"@[0] == 'B');
    assert("BAND"@[1] == 'A');
    assert("BAND"@[2] == 'N');
    assert("BAND"@[3] == 'D');
    assert("FTOI"@.len() == 4);
    assert("FTOI"@[0] == 'F');
    assert("FTOI"@[1] == 'T');
    assert("FTOI"@[2] == 'O');
    assert("FTOI"@[3] == 'I');
    assert("ITOF"@.len() == 4);
    assert("ITOF"@[0] == 'I');
    assert("ITOF"@[1] == 'T');
    assert("ITOF"@[2] == 'O');
    assert("ITOF"@[3] == 'F');
    assert("NOOP"@.len() == 4);
    assert("NOOP"@[0] == 'N');
    assert("NOOP"@[1] == 'O');
    assert("NOOP"@[2] == 'O');
    assert("NOOP"@[3] == 'P');
    assert("FLUSH"@.len() == 5);
    assert("FLUSH"@[0] == 'F');
    assert("FLUSH"@[1] == 'L');
    assert("FLUSH"@[2] == 'U');
    assert("FLUSH"@[3] == 'S');
    assert("FLUSH"@[4] == 'H');
    assert("BSLL"@.len() == 4);
    assert("BSLL"@[0] == 'B');
    assert("BSLL"@[1] == 'S');
    assert("BSLL"@[2] == 'L');
    assert("BSLL"@[3] == 'L');
    assert("BSLR"@.len() == 4);
    assert("BSLR"@[0] == 'B');
    assert("BSLR"@[1] == 'S');
    assert("BSLR"@[2] == 'L');
    assert("BSLR"@[3] == 'R');
    lema_velike_crke(ime_ukaza(u));
}

/// Whether the text `t` has no white space.
pub open spec fn brez_presledkov(t: Seq<char>) -> bool {
    forall|i: int| 0 <= i < t.len() ==> !je_presledek(#[trigger] t[i])
}

/// The decimal notation of a number is digits, and not empty.
proof fn lema_cifre(n: nat)
    ensures
        desetisko(n).len() >= 1,
        forall|i: int| 0 <= i < desetisko(n).len() ==> je_stevka(#[trigger] desetisko(n)[i]),
    decreases n,
{
    if n < 10 {
        assert(stevka(n) as int == 48 + n);
    } else {
        lema_cifre(n / 10);
        assert(stevka(n % 10) as int == 48 + n % 10);
        let d = desetisko(n);
        assert forall|i: int| 0 <= i < d.len() implies je_stevka(#[trigger] d[i]) by {
            if i < d.len() - 1 {
                assert(d[i] == desetisko(n / 10)[i]);
            }
        }
    }
}

/// A number written in decimal, with or without the sign of a positive
/// one, is one word without a `.`, and it is read back as the number.
proof fn lema_zapis_stevila(x: i32)
    ensures
        desetisko_celo(x as int).len() >= 1,
        brez_presledkov(desetisko_celo(x as int)),
        !desetisko_celo(x as int).contains('.'),
        celo(desetisko_celo(x as int)) == Some(x),
        (predznak(x) + desetisko_celo(x as int)).len() >= 1,
        brez_presledkov(predznak(x) + desetisko_celo(x as int)),
        celo(predznak(x) + desetisko_celo(x as int)) == Some(x),
{
    zakon_branje_zapisa(x as int);
    let t = desetisko_celo(x as int);
    if x < 0 {
        lema_cifre((-x) as nat);
        let d = desetisko((-x) as nat);
        assert forall|i: int| 0 <= i < t.len() implies !je_presledek(#[trigger] t[i]) && t[i]
            != '.' by {
            if i > 0 {
                assert(t[i] == d[i - 1]);
            }
        }
    } else {
        lema_cifre(x as nat);
        assert forall|i: int| 0 <= i < t.len() implies !je_presledek(#[trigger] t[i]) && t[i]
            != '.' by {
            assert(je_stevka(t[i]));
        }
    }
    let s = predznak(x) + t;
    if x > 0 {
        assert(je_stevka(t[0]));
        assert(s.drop_first() =~= t);
        assert(celo_iz(t) == stevke(t, false));
        assert forall|i: int| 0 <= i < s.len() implies !je_presledek(#[trigger] s[i]) by {
            if i > 0 {
                assert(s[i] == t[i - 1]);
            }
        }
    } else {
        assert(s =~= t);
    }
}

/// Whether the character `c` is read back from its character literal: an
/// escaped one always is; another must be no white space, and take at most
/// two bytes.
pub open spec fn znak_se_nalozi(c: char) -> bool {
    ubezi(c).len() == 2 || (!je_presledek(c) && sirina_utf8(c) <= 2)
}

/// The pair `a b` alone is replaced by `c`.
pub(crate) proof fn lema_par(a: char, b: char, c: char)
    ensures
        zamenjaj_par(seq![a, b], a, b, c) == seq![c],
{
    reveal_with_fuel(zamenjaj_par, 2);
    let s = seq![a, b];
    assert(s[0] == a && s[1] == b);
    assert(s.subrange(2, 2) =~= Seq::<char>::empty());
    assert(zamenjaj_par(Seq::<char>::empty(), a, b, c) =~= Seq::<char>::empty());
    assert(seq![c] + Seq::<char>::empty() =~= seq![c]);
}

/// A pair that is not `a b` stays.
pub(crate) proof fn lema_ni_para(x: char, y: char, a: char, b: char, c: char)
    requires
        !(x == a && y == b),
    ensures
        zamenjaj_par(seq![x, y], a, b, c) == seq![x, y],
{
    reveal_with_fuel(zamenjaj_par, 2);
    let s = seq![x, y];
    assert(s[0] == x && s[1] == y);
    assert(s.subrange(1, 2) =~= seq![y]);
    assert(zamenjaj_par(seq![y], a, b, c) =~= seq![y]);
    assert(seq![x] + seq![y] =~= s);
}

/// A single character stays.
pub(crate) proof fn lema_en_znak(x: char, a: char, b: char, c: char)
    ensures
        zamenjaj_par(seq![x], a, b, c) == seq![x],
{
}

/// A character literal of a character that is read back gives it back; it
/// is one word, and does not begin with `#`.
proof fn lema_zapis_znaka(c: char)
    requires
        znak_se_nalozi(c),
    ensures
        brez_presledkov(seq!['\''] + ubezi(c) + seq!['\'']),
        (seq!['\''] + ubezi(c) + seq!['\''])[0] != '#',
        znak_literala(seq!['\''] + ubezi(c) + seq!['\'']) == Some(c),
{
    let w = seq!['\''] + ubezi(c) + seq!['\''];
    let b = '\\';
    if ubezi(c).len() == 2 {
        let e = ubezi(c)[1];
        assert(w =~= seq!['\'', b, e, '\'']);
        assert(w.subrange(1, 3) =~= seq![b, e]);
        let o = seq![b, e];
        if c == '\\' {
            lema_par(b, b, b);
            lema_en_znak(b, b, 'n', '\n');
            lema_en_znak(b, b, 't', '\t');
            lema_en_znak(b, b, 'r', '\r');
            lema_en_znak(b, b, '"', '"');
            lema_en_znak(b, b, '\'', '\'');
        } else if c == '\n' {
            lema_ni_para(b, e, b, b, b);
            lema_par(b, 'n', '\n');
            lema_en_znak('\n', b, 't', '\t');
            lema_en_znak('\n', b, 'r', '\r');
            lema_en_znak('\n', b, '"', '"');
            lema_en_znak('\n', b, '\'', '\'');
        } else if c == '\t' {
            lema_ni_para(b, e, b, b, b);
            lema_ni_para(b, e, b, 'n', '\n');
            lema_par(b, 't', '\t');
            lema_en_znak('\t', b, 'r', '\r');
            lema_en_znak('\t', b, '"', '"');
            lema_en_znak('\t', b, '\'', '\'');
        } else if c == '\r' {
            lema_ni_para(b, e, b, b, b);
            lema_ni_para(b, e, b, 'n', '\n');
            lema_ni_para(b, e, b, 't', '\t');
            lema_par(b, 'r', '\r');
            lema_en_znak('\r', b, '"', '"');
            lema_en_znak('\r', b, '\'', '\'');
        } else if c == '"' {
            lema_ni_para(b, e, b, b, b);
            lema_ni_para(b, e, b, 'n', '\n');
            lema_ni_para(b, e, b, 't', '\t');
            lema_ni_para(b, e, b, 'r', '\r');
            lema_par(b, '"', '"');
            lema_en_znak('"', b, '\'', '\'');
        } else {
            lema_ni_para(b, e, b, b, b);
            lema_ni_para(b, e, b, 'n', '\n');
            lema_ni_para(b, e, b, 't', '\t');
            lema_ni_para(b, e, b, 'r', '\r');
            lema_ni_para(b, e, b, '"', '"');
            lema_par(b, '\'', '\'');
        }
        assert(brez_presledkov(w)) by {
            assert forall|i: int| 0 <= i < w.len() implies !je_presledek(#[trigger] w[i]) by {
                if i == 0 {
                } else if i == 1 {
                } else if i == 2 {
                } else {
                }
            }
        }
    } else {
        assert(w =~= seq!['\'', c, '\'']);
        if sirina_utf8(c) == 2 {
            assert(!seq![c].contains(b)) by {
                assert(seq![c][0] == c);
            }
            zakon_brez_ubezov(seq![c]);
        } else {
            assert(w.subrange(1, 3) =~= seq![c, '\'']);
            assert(!seq![c, '\''].contains(b)) by {
                let t = seq![c, '\''];
                assert(t[0] == c && t[1] == '\'');
            }
            zakon_brez_ubezov(seq![c, '\'']);
        }
        assert(brez_presledkov(w)) by {
            assert forall|i: int| 0 <= i < w.len() implies !je_presledek(#[trigger] w[i]) by {
                if i == 0 {
                } else if i == 1 {
                } else {
                }
            }
        }
    }
}

/// `n` spaces.
pub open spec fn presledki(n: nat) -> Seq<char> {
    Seq::new(n, |i: int| ' ')
}

/// Spaces before a text add no word.
proof fn lema_besede_za_presledki(n: nat, b: Seq<char>)
    ensures
        besede(presledki(n) + b) == besede(b),
    decreases n,
{
    if n > 0 {
        let m = (n - 1) as nat;
        lema_besede_za_presledki(m, b);
        lema_besede_presledek(Seq::empty(), ' ', presledki(m) + b);
        assert(Seq::<char>::empty() + seq![' '] + (presledki(m) + b) =~= presledki(n) + b);
        assert(besede(Seq::<char>::empty()) + besede(presledki(m) + b) =~= besede(presledki(m) + b));
    } else {
        assert(presledki(0) + b =~= b);
    }
}

/// The words of a written line: spaces, the index `d`, a space, the name,
/// and after `q` spaces the argument `w`, if there is one.
proof fn lema_besede_vrstice(p: nat, d: Seq<char>, ime: Seq<char>, q: nat, w: Seq<char>)
    requires
        d.len() > 0,
        brez_presledkov(d),
        ime.len() > 0,
        brez_presledkov(ime),
        brez_presledkov(w),
        q == 0 ==> w.len() == 0,
    ensures
        besede(presledki(p) + d + presledki(1) + ime + presledki(q) + w) == seq![d, ime] + if w.len()
            > 0 {
            seq![w]
        } else {
            Seq::<Seq<char>>::empty()
        },
{
    let y = ime + presledki(q) + w;
    let x = d + presledki(1) + y;
    assert(presledki(p) + d + presledki(1) + ime + presledki(q) + w =~= presledki(p) + x);
    lema_besede_za_presledki(p, x);
    assert(d + seq![' '] + y =~= x);
    lema_besede_presledek(d, ' ', y);
    lema_beseda(d);
    lema_beseda(ime);
    if q == 0 {
        assert(y =~= ime);
    } else {
        let m = (q - 1) as nat;
        assert(ime + seq![' '] + (presledki(m) + w) =~= y);
        lema_besede_presledek(ime, ' ', presledki(m) + w);
        lema_besede_za_presledki(m, w);
        if w.len() > 0 {
            lema_beseda(w);
        } else {
            assert(besede(w) =~= Seq::<Seq<char>>::empty());
        }
    }
    assert(seq![d] + (seq![ime] + if w.len() > 0 {
        seq![w]
    } else {
        Seq::<Seq<char>>::empty()
    }) =~= seq![d, ime] + if w.len() > 0 {
        seq![w]
    } else {
        Seq::<Seq<char>>::empty()
    });
}

/// Text of spaces and characters that are no white space has no line break.
proof fn lema_brez_preloma(a: Seq<char>, b: Seq<char>)
    requires
        !a.contains('\n'),
        !b.contains('\n'),
    ensures
        !(a + b).contains('\n'),
{
    assert forall|i: int| 0 <= i < (a + b).len() implies (a + b)[i] != '\n' by {
        if i < a.len() {
            assert((a + b)[i] == a[i]);
        } else {
            assert((a + b)[i] == b[i - a.len()]);
        }
    }
}

/// What the line of the instruction at index `k` is read back as: the
/// instruction, or for a `PUSH` the whole number, the character or the text
/// of the real number that it pushes.
pub open spec fn vrstica_nazaj(
    ukazi: Seq<UkazPodatek>,
    tipi: Seq<Tip>,
    realna: Seq<Seq<char>>,
    k: int,
) -> VrsticaV {
    let u = ukazi[k];
    if u is PUSH {
        let j = stevilo_potiskov(ukazi.take(k)) as int;
        let x = u->PUSH_0.i;
        if tipi[j] is Real {
            VrsticaV::Realno(realna[stevilo_realnih(tipi.take(j)) as int])
        } else if tipi[j] is Celo {
            VrsticaV::Celo(x)
        } else {
            VrsticaV::Znak(x as char)
        }
    } else {
        VrsticaV::Ukaz(u)
    }
}

/// Whether the instruction at index `k` is written so that it is read back:
/// the loader knows its name; a character it pushes is read back from its
/// literal; the text of a real number it pushes has a `.` and no white
/// space.
pub open spec fn se_nalozi_nazaj(
    ukazi: Seq<UkazPodatek>,
    tipi: Seq<Tip>,
    realna: Seq<Seq<char>>,
    k: int,
) -> bool {
    let u = ukazi[k];
    let j = stevilo_potiskov(ukazi.take(k)) as int;
    &&& !(u is FLUSH || u is BSLL || u is BSLR)
    &&& u is PUSH && tipi[j] is Znak ==> znak_se_nalozi(u->PUSH_0.i as char)
    &&& u is PUSH && tipi[j] is Real ==> {
        let t = realna[stevilo_realnih(tipi.take(j)) as int];
        t.contains('.') && brez_presledkov(t)
    }
}

/// How many spaces come before the argument of an instruction other than
/// `PUSH`.
pub open spec fn presledki_argumenta(u: UkazPodatek) -> nat {
    match u {
        UkazPodatek::TOP(_) => 2,
        UkazPodatek::POS => 1,
        _ => if je_naslovni_ukaz(u) || u is ALOC {
            1
        } else {
            0
        },
    }
}

/// The argument of an instruction other than `PUSH`, after its spaces.
pub open spec fn beseda_argumenta(u: UkazPodatek) -> Seq<char> {
    match u {
        UkazPodatek::JUMP(n) => seq!['#'] + desetisko_celo(n as int),
        UkazPodatek::JMPC(n) => seq!['#'] + desetisko_celo(n as int),
        UkazPodatek::LOAD(n) => seq!['@'] + desetisko_celo(n as int),
        UkazPodatek::STOR(n) => seq!['@'] + desetisko_celo(n as int),
        UkazPodatek::LDOF(n) => seq!['+'] + desetisko_celo(n as int),
        UkazPodatek::LDDY(n) => seq!['+'] + desetisko_celo(n as int),
        UkazPodatek::STOF(n) => seq!['+'] + desetisko_celo(n as int),
        UkazPodatek::STDY(n) => seq!['+'] + desetisko_celo(n as int),
        UkazPodatek::ALOC(n) => predznak(n) + desetisko_celo(n as int),
        UkazPodatek::TOP(n) => predznak(n) + desetisko_celo(n as int),
        _ => Seq::empty(),
    }
}

/// A number after a one-byte sign is one word, read back as the number.
proof fn lema_za_znakom(z: char, n: i32)
    requires
        z == '#' || z == '@' || z == '+',
    ensures
        brez_presledkov(seq![z] + desetisko_celo(n as int)),
        !(seq![z] + desetisko_celo(n as int)).contains('.'),
        za_znakom(seq![z] + desetisko_celo(n as int)) == Some(n),
        celo((seq![z] + desetisko_celo(n as int)).drop_first()) == Some(n),
{
    lema_zapis_stevila(n);
    let t = desetisko_celo(n as int);
    let w = seq![z] + t;
    assert forall|i: int| 0 <= i < w.len() implies !je_presledek(#[trigger] w[i]) && w[i]
        != '.' by {
        if i > 0 {
            assert(w[i] == t[i - 1]);
        }
    }
    assert(w.drop_first() =~= t);
}

/// The argument of an instruction other than `PUSH`: its spaces and its word,
/// which is read back as the number the instruction carries.
proof fn lema_argument_ukaza(u: UkazPodatek)
    requires
        !(u is PUSH),
    ensures
        argument_ukaza(u) == presledki(presledki_argumenta(u)) + beseda_argumenta(u),
        brez_presledkov(beseda_argumenta(u)),
        presledki_argumenta(u) == 0 ==> beseda_argumenta(u).len() == 0,
        (u is ALOC || u is TOP) ==> celo(beseda_argumenta(u)) == Some(stevilka_ukaza(u)),
        je_naslovni_ukaz(u) ==> za_znakom(beseda_argumenta(u)) == Some(stevilka_ukaza(u)),
        !(u is ALOC || u is TOP || je_naslovni_ukaz(u)) ==> beseda_argumenta(u).len() == 0,
{
    let n = stevilka_ukaza(u);
    let t = desetisko_celo(n as int);
    if u is ALOC || u is TOP {
        lema_zapis_stevila(n);
    } else if u is JUMP || u is JMPC {
        lema_za_znakom('#', n);
    } else if u is LOAD || u is STOR {
        lema_za_znakom('@', n);
    } else if je_naslovni_ukaz(u) {
        lema_za_znakom('+', n);
    }
    assert(argument_ukaza(u) =~= presledki(presledki_argumenta(u)) + beseda_argumenta(u));
}

/// The word that a `PUSH` is written with, after its space.
pub open spec fn beseda_potiska(tip: Tip, x: i32, realno: Seq<char>) -> Seq<char> {
    if tip is Real {
        seq!['#'] + realno
    } else if tip is Celo {
        seq!['#'] + desetisko_celo(x as int)
    } else {
        seq!['\''] + ubezi(x as char) + seq!['\'']
    }
}

/// The word of a `PUSH` of a real number, a whole number or a character that
/// is read back is read back as that value.
proof fn lema_potisk(tip: Tip, x: i32, realno: Seq<char>)
    requires
        tip is Real ==> realno.contains('.') && brez_presledkov(realno),
        tip is Znak ==> znak_se_nalozi(x as char),
        tip is Real || tip is Celo || tip is Znak,
    ensures
        brez_presledkov(beseda_potiska(tip, x, realno)),
        potisk(beseda_potiska(tip, x, realno)) == Some(
            if tip is Real {
                VrsticaV::Realno(realno)
            } else if tip is Celo {
                VrsticaV::Celo(x)
            } else {
                VrsticaV::Znak(x as char)
            },
        ),
{
    let w = beseda_potiska(tip, x, realno);
    if tip is Real {
        assert(brez_presledkov(w)) by {
            assert forall|i: int| 0 <= i < w.len() implies !je_presledek(#[trigger] w[i]) by {
                if i > 0 {
                    assert(w[i] == realno[i - 1]);
                }
            }
        }
        let i0 = choose|i: int| 0 <= i < realno.len() && realno[i] == '.';
        assert(w[i0 + 1] == '.');
        assert(w.drop_first() =~= realno);
    } else if tip is Celo {
        lema_za_znakom('#', x);
    } else {
        lema_zapis_znaka(x as char);
    }
}

/// A line whose words are an index, the name of `u` and its argument `w` is
/// read back as `izid`, when `w` is read back as what `u` carries.
proof fn lema_vrstica_iz_besed(l: Seq<char>, d: Seq<char>, u: UkazPodatek, w: Seq<char>, izid: VrsticaV)
    requires
        !(u is FLUSH || u is BSLL || u is BSLR),
        besede(l) == seq![d, ime_ukaza(u)] + if w.len() > 0 {
            seq![w]
        } else {
            Seq::<Seq<char>>::empty()
        },
        u is PUSH ==> w.len() > 0 && potisk(w) == Some(izid),
        (u is ALOC || u is TOP) ==> w.len() > 0 && celo(w) == Some(stevilka_ukaza(u)),
        je_naslovni_ukaz(u) ==> w.len() > 0 && za_znakom(w) == Some(stevilka_ukaza(u)),
        !(u is PUSH) ==> izid == VrsticaV::Ukaz(u),
    ensures
        vrstica(l) == Some(izid),
{
    lema_ime(u);
    let b = besede(l);
    assert(b[1] == ime_ukaza(u));
    if w.len() > 0 {
        assert(b.len() == 3 && b[2] == w);
    }
}

/// The line of an instruction that is written so that it is read back ends
/// in its line break, has no other, and is read back as the instruction.
#[verifier::rlimit(30)]
proof fn lema_vrstica_nazaj(ukazi: Seq<UkazPodatek>, tipi: Seq<Tip>, realna: Seq<Seq<char>>, k: int)
    requires
        0 <= k < ukazi.len(),
        vrstica_zapisa(ukazi, tipi, realna, k) is Some,
        se_nalozi_nazaj(ukazi, tipi, realna, k),
    ensures
        vrstica_zapisa(ukazi, tipi, realna, k).unwrap().len() > 1,
        vrstica_zapisa(ukazi, tipi, realna, k).unwrap().last() == '\n',
        !vrstica_zapisa(ukazi, tipi, realna, k).unwrap().drop_last().contains('\n'),
        vrstica(vrstica_zapisa(ukazi, tipi, realna, k).unwrap().drop_last()) == Some(
            vrstica_nazaj(ukazi, tipi, realna, k),
        ),
{
    let u = ukazi[k];
    let d = desetisko(k as nat);
    lema_cifre(k as nat);
    lema_ime(u);
    let ime = ime_ukaza(u);
    let pp: nat = if k < 10 {
        2
    } else if k < 100 {
        1
    } else {
        0
    };
    assert(odmik_indeksa(k as nat) =~= presledki(pp) + d + presledki(1));
    assert(brez_presledkov(d)) by {
        assert forall|i: int| 0 <= i < d.len() implies !je_presledek(#[trigger] d[i]) by {
            assert(je_stevka(d[i]));
        }
    }
    assert(brez_presledkov(ime)) by {
        assert forall|i: int| 0 <= i < ime.len() implies !je_presledek(#[trigger] ime[i]) by {
            assert('A' <= ime[i] <= 'Z');
        }
    }
    let j = stevilo_potiskov(ukazi.take(k)) as int;
    let v = vrstica_zapisa(ukazi, tipi, realna, k).unwrap();
    let q: nat;
    let w: Seq<char>;
    if u is PUSH {
        let x = u->PUSH_0.i;
        let t = if tipi[j] is Real {
            realna[stevilo_realnih(tipi.take(j)) as int]
        } else {
            Seq::empty()
        };
        lema_potisk(tipi[j], x, t);
        q = 1;
        w = beseda_potiska(tipi[j], x, t);
        assert(w[0] == '#' || w[0] == '\'');
        assert(v =~= odmik_indeksa(k as nat) + ime + (presledki(1) + w) + seq!['\n']);
    } else {
        lema_argument_ukaza(u);
        q = presledki_argumenta(u);
        w = beseda_argumenta(u);
        if u is ALOC || u is TOP {
            lema_zapis_stevila(stevilka_ukaza(u));
        } else if je_naslovni_ukaz(u) {
            assert(w.len() > 0);
        }
    }
    let l = presledki(pp) + d + presledki(1) + ime + presledki(q) + w;
    assert(v =~= l.push('\n'));
    assert(v.drop_last() =~= l);
    lema_besede_vrstice(pp, d, ime, q, w);
    lema_vrstica_iz_besed(l, d, u, w, vrstica_nazaj(ukazi, tipi, realna, k));
    assert(!presledki(pp).contains('\n'));
    assert(!presledki(1).contains('\n'));
    assert(!presledki(q).contains('\n'));
    lema_brez_preloma(presledki(pp), d);
    lema_brez_preloma(presledki(pp) + d, presledki(1));
    lema_brez_preloma(presledki(pp) + d + presledki(1), ime);
    lema_brez_preloma(presledki(pp) + d + presledki(1) + ime, presledki(q));
    lema_brez_preloma(presledki(pp) + d + presledki(1) + ime + presledki(q), w);
}

/// Whether the instruction at index `k` is a `PUSH` of a real number.
pub open spec fn je_realni_potisk(ukazi: Seq<UkazPodatek>, tipi: Seq<Tip>, k: int) -> bool {
    ukazi[k] is PUSH && tipi[stevilo_potiskov(ukazi.take(k)) as int] is Real
}

/// The instructions `ukazi` with the value of each `PUSH` of a real number
/// replaced by zero.
pub open spec fn brez_realnih(ukazi: Seq<UkazPodatek>, tipi: Seq<Tip>) -> Seq<UkazPodatek> {
    Seq::new(
        ukazi.len(),
        |k: int|
            if je_realni_potisk(ukazi, tipi, k) {
                UkazPodatek::PUSH(Podatek { i: 0 })
            } else {
                ukazi[k]
            },
    )
}

/// For each `PUSH` of a real number among the first `n` instructions, in
/// order, its index and the next of the texts `realna`.
pub open spec fn mesta_realnih(
    ukazi: Seq<UkazPodatek>,
    tipi: Seq<Tip>,
    realna: Seq<Seq<char>>,
    n: nat,
) -> Seq<(int, Seq<char>)>
    decreases n,
{
    if n == 0 {
        Seq::empty()
    } else {
        let p = mesta_realnih(ukazi, tipi, realna, (n - 1) as nat);
        let k = n - 1;
        if je_realni_potisk(ukazi, tipi, k) {
            let j = stevilo_potiskov(ukazi.take(k)) as int;
            p.push((k, realna[stevilo_realnih(tipi.take(j)) as int]))
        } else {
            p
        }
    }
}

/// The text of the first `n` instructions ends in a line break, and loading
/// it gives them back.
proof fn lema_krog(ukazi: Seq<UkazPodatek>, tipi: Seq<Tip>, realna: Seq<Seq<char>>, n: nat)
    requires
        n <= ukazi.len(),
        zapis_do(ukazi, tipi, realna, n) is Some,
        forall|k: int| 0 <= k < n ==> se_nalozi_nazaj(ukazi, tipi, realna, k),
    ensures
        vrstice(zapis_do(ukazi, tipi, realna, n).unwrap()).last() == Seq::<char>::empty(),
        nalozi(vrstice(zapis_do(ukazi, tipi, realna, n).unwrap())) == Some(
            NalozenoV {
                ukazi: brez_realnih(ukazi, tipi).take(n as int),
                push_tipi: tipi.take(stevilo_potiskov(ukazi.take(n as int)) as int),
                realna: mesta_realnih(ukazi, tipi, realna, n),
            },
        ),
    decreases n,
{
    if n == 0 {
        let t = zapis_do(ukazi, tipi, realna, 0).unwrap();
        assert(t =~= Seq::<char>::empty());
        let v = vrstice(t);
        assert(v.drop_last() =~= Seq::<Seq<char>>::empty());
        assert(brez_realnih(ukazi, tipi).take(0) =~= Seq::<UkazPodatek>::empty());
        assert(ukazi.take(0) =~= Seq::<UkazPodatek>::empty());
        assert(stevilo_potiskov(ukazi.take(0)) == 0);
        assert(tipi.take(0) =~= Seq::<Tip>::empty());
        assert(nalozi(v.drop_last()) == Some(
            NalozenoV { ukazi: Seq::empty(), push_tipi: Seq::empty(), realna: Seq::empty() },
        ));
    } else {
        let m = (n - 1) as nat;
        let k = m as int;
        lema_krog(ukazi, tipi, realna, m);
        let t = zapis_do(ukazi, tipi, realna, m).unwrap();
        let vz = vrstica_zapisa(ukazi, tipi, realna, k).unwrap();
        lema_vrstica_nazaj(ukazi, tipi, realna, k);
        let l = vz.drop_last();
        let v = vrstice(t);
        lema_vrstice(t);
        // the lines of the longer text
        lema_vrstice_brez_preloma(t, l);
        assert(v.last() + l =~= l);
        let x = v.drop_last().push(l);
        assert(vrstice(t + l) =~= x);
        lema_vrstice_prelom(t + l);
        assert(zapis_do(ukazi, tipi, realna, n).unwrap() =~= (t + l).push('\n'));
        let v2 = vrstice((t + l).push('\n'));
        assert(v2 == x.push(Seq::<char>::empty()));
        assert(v2.drop_last() =~= x);
        assert(x.drop_last() =~= v.drop_last());
        // loading them
        let sn = NalozenoV {
            ukazi: brez_realnih(ukazi, tipi).take(k),
            push_tipi: tipi.take(stevilo_potiskov(ukazi.take(k)) as int),
            realna: mesta_realnih(ukazi, tipi, realna, m),
        };
        assert(nalozi(v.drop_last()) == Some(sn));
        assert(nalozi(x) == dodaj_vrstico(sn, l));
        let j = stevilo_potiskov(ukazi.take(k)) as int;
        assert(ukazi.take(n as int).drop_last() =~= ukazi.take(k));
        assert(brez_realnih(ukazi, tipi).take(n as int) =~= brez_realnih(ukazi, tipi).take(k).push(
            brez_realnih(ukazi, tipi)[k],
        ));
        let u = ukazi[k];
        let cilj = NalozenoV {
            ukazi: brez_realnih(ukazi, tipi).take(n as int),
            push_tipi: tipi.take(stevilo_potiskov(ukazi.take(n as int)) as int),
            realna: mesta_realnih(ukazi, tipi, realna, n),
        };
        assert(vrstica(l) == Some(vrstica_nazaj(ukazi, tipi, realna, k)));
        assert(l.len() > 0);
        if u is PUSH {
            assert(tipi.take(j + 1) =~= tipi.take(j).push(tipi[j]));
            assert(stevilo_potiskov(ukazi.take(n as int)) == j + 1);
            let p = u->PUSH_0;
            assert(u == UkazPodatek::PUSH(Podatek { i: p.i }));
            if tipi[j] is Real {
                assert(tipi[j] == Tip::Real);
                assert(sn.ukazi.len() == k);
                assert(dodaj_vrstico(sn, l) == Some(cilj));
            } else if tipi[j] is Celo {
                assert(tipi[j] == Tip::Celo);
                assert(dodaj_vrstico(sn, l) == Some(cilj));
            } else {
                let c = p.i;
                assert(je_znak(c));
                assert(((c as char) as u32) as i32 == c);
                assert(tipi[j] == Tip::Znak);
                assert(dodaj_vrstico(sn, l) == Some(cilj));
            }
        } else {
            assert(stevilo_potiskov(ukazi.take(n as int)) == j);
            assert(dodaj_vrstico(sn, l) == Some(cilj));
        }
    }
}

/// Writing a program as assembler text and loading the text gives the
/// program back: its instructions, but for each `PUSH` of a real number,
/// which pushes zero until the number is written in; the types of its
/// `PUSH` instructions; and for each real number its index and its text.
/// This holds of a program whose text can be written, that has a type for
/// each `PUSH` and no more, and whose instructions are read back: the loader
/// knows their names (all but `FLUSH`, `BSLL` and `BSLR`), each character
/// is read back from its literal, and each text of a real number has a `.`
/// and no white space.
pub proof fn zakon_zapis_nalaganje(ukazi: Seq<UkazPodatek>, tipi: Seq<Tip>, realna: Seq<Seq<char>>)
    requires
        zapis_do(ukazi, tipi, realna, ukazi.len()) is Some,
        tipi.len() == stevilo_potiskov(ukazi),
        forall|k: int| 0 <= k < ukazi.len() ==> se_nalozi_nazaj(ukazi, tipi, realna, k),
    ensures
        nalozi(vrstice(zapis_do(ukazi, tipi, realna, ukazi.len()).unwrap())) == Some(
            NalozenoV {
                ukazi: brez_realnih(ukazi, tipi),
                push_tipi: tipi,
                realna: mesta_realnih(ukazi, tipi, realna, ukazi.len()),
            },
        ),
{
    lema_krog(ukazi, tipi, realna, ukazi.len());
    assert(ukazi.take(ukazi.len() as int) =~= ukazi);
    assert(tipi.take(tipi.len() as int) =~= tipi);
    assert(brez_realnih(ukazi, tipi).take(ukazi.len() as int) =~= brez_realnih(ukazi, tipi));
}

} // verus!
