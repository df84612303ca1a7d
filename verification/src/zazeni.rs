//! One step of the stack machine. What needs the outside world (writing and
//! reading characters, flushing the output) and what needs real numbers is
//! handed back to the caller as an action; everything else the step does
//! itself.

use crate::program::{Podatek, UkazPodatek};
use vstd::arithmetic::power::pow;
use vstd::prelude::*;
use vstd::wrapping::i32_specs::{signed_crop, wrapping_add, wrapping_mul, wrapping_sub};

verus! {

/// An operation on real numbers, or a comparison of one with zero.
#[derive(Debug, Clone, Copy, PartialEq, Eq, Structural)]
pub enum RealnaOp {
    Sestej,
    Odstej,
    Zmnozi,
    Deli,
    Ostanek,
    Potenciraj,
    VCelo,
    VReal,
    Pozitivno,
    Nic,
}

/// What the caller has to do after a step.
#[derive(Debug, Clone, Copy, PartialEq, Eq, Structural)]
pub enum Dejanje {
    /// Nothing.
    Naprej,
    /// Write the character in the cell, and flush the output after a line
    /// break.
    Izpisi(Podatek),
    /// Read one character and push it.
    Preberi,
    /// Flush the output.
    Splakni,
    /// Compute the operation on the real numbers in the two cells (the
    /// second is unused by `VCelo`, `VReal`, `Pozitivno` and `Nic`) and put
    /// the result on the top of the stack.
    Realno(RealnaOp, Podatek, Podatek),
}

/// The state of the machine: the stack, the instruction counter and the
/// base address of the current frame.
pub struct Stroj {
    pub sklad: Vec<Podatek>,
    pub pc: i32,
    pub odmik: i32,
}

/// The outcome of a step: the new stack, counter and frame base with the
/// action for the caller; an error that the step reports; or an input on
/// which the step is undefined or panics.
pub ghost enum Korak {
    Naprej(Seq<Podatek>, int, int, Dejanje),
    Napaka,
    Nedoloceno,
}

/// Whether a number fits in `i32`.
pub open spec fn v_i32(x: int) -> bool {
    i32::MIN <= x <= i32::MAX
}

/// The cell that holds the number `x`.
pub open spec fn celica(x: int) -> Podatek {
    Podatek { i: x as i32 }
}

/// The stack made `m` cells long: cut, or filled with zeros.
pub open spec fn na_dolzino(s: Seq<Podatek>, m: int) -> Seq<Podatek> {
    if m <= s.len() {
        s.subrange(0, m)
    } else {
        s + Seq::new((m - s.len()) as nat, |k: int| Podatek { i: 0 })
    }
}

/// Division that truncates toward zero.
pub open spec fn deli_proti_nic(a: int, b: int) -> int {
    let q = (if a < 0 {
        -a
    } else {
        a
    }) / (if b < 0 {
        -b
    } else {
        b
    });
    if (a < 0) == (b < 0) {
        q
    } else {
        -q
    }
}

/// `i32::wrapping_div`, for a divisor that is not zero.
pub open spec fn deli_ovito(a: i32, b: i32) -> i32 {
    if a == i32::MIN && b == -1 {
        i32::MIN
    } else {
        deli_proti_nic(a as int, b as int) as i32
    }
}

/// `i32::wrapping_rem`, for a divisor that is not zero.
pub open spec fn ostanek_ovito(a: i32, b: i32) -> i32 {
    if a == i32::MIN && b == -1 {
        0
    } else {
        (a - b * deli_proti_nic(a as int, b as int)) as i32
    }
}

/// `i32::wrapping_pow`: the power, wrapped around into `i32`.
pub open spec fn potenca_ovito(a: i32, e: u32) -> i32 {
    signed_crop(pow(a as int, e as nat))
}

/// The top two cells replaced by one that holds `v`.
pub open spec fn dvojisko(s: Seq<Podatek>, pc: int, odmik: int, v: int) -> Korak {
    Korak::Naprej(s.drop_last().update(s.len() - 2, celica(v)), pc + 1, odmik, Dejanje::Naprej)
}

/// One step of the machine on the instruction `u`, as the fast run does it.
/// It is undefined where a cell is missing, an address is outside the
/// stack, a division is by zero, a shift is out of range, or arithmetic on
/// addresses leaves `i32`.
pub open spec fn korak_spec(u: UkazPodatek, s: Seq<Podatek>, pc: int, odmik: int) -> Korak {
    let n = s.len() as int;
    let a = if n >= 2 {
        s[n - 2].i
    } else {
        0
    };
    let b = if n >= 1 {
        s[n - 1].i
    } else {
        0
    };
    if pc >= i32::MAX || n > i32::MAX {
        Korak::Nedoloceno
    } else {
        match u {
            UkazPodatek::NOOP => Korak::Naprej(s, pc + 1, odmik, Dejanje::Naprej),
            UkazPodatek::JUMP(c) => Korak::Naprej(s, c as int, odmik, Dejanje::Naprej),
            UkazPodatek::JMPD => if n >= 1 {
                Korak::Naprej(s.drop_last(), b as int, odmik, Dejanje::Naprej)
            } else {
                Korak::Nedoloceno
            },
            UkazPodatek::JMPC(c) => if n >= 1 {
                Korak::Naprej(s.drop_last(), if b != 0 { c as int } else { pc + 1 }, odmik, Dejanje::Naprej)
            } else {
                Korak::Nedoloceno
            },
            UkazPodatek::PUSH(p) => Korak::Naprej(s.push(p), pc + 1, odmik, Dejanje::Naprej),
            UkazPodatek::ALOC(r) => if v_i32(n + r) && n + r >= 0 {
                Korak::Naprej(na_dolzino(s, n + r), pc + 1, odmik, Dejanje::Naprej)
            } else {
                Korak::Nedoloceno
            },
            UkazPodatek::POS => if n >= 1 {
                Korak::Naprej(s.update(n - 1, celica(if b > 0 { 1 } else { 0 })), pc + 1, odmik, Dejanje::Naprej)
            } else {
                Korak::Nedoloceno
            },
            UkazPodatek::ZERO => if n >= 1 {
                Korak::Naprej(s.update(n - 1, celica(if b == 0 { 1 } else { 0 })), pc + 1, odmik, Dejanje::Naprej)
            } else {
                Korak::Nedoloceno
            },
            UkazPodatek::LOAD(c) => if 0 <= c < n {
                Korak::Naprej(s.push(s[c as int]), pc + 1, odmik, Dejanje::Naprej)
            } else {
                Korak::Nedoloceno
            },
            UkazPodatek::LDOF(c) => if v_i32(odmik + c) && 0 <= odmik + c < n {
                Korak::Naprej(s.push(s[odmik + c]), pc + 1, odmik, Dejanje::Naprej)
            } else {
                Korak::Nedoloceno
            },
            UkazPodatek::LDDY(c) => if n >= 1 && v_i32(c + b) && 0 <= c + b < n {
                Korak::Naprej(s.update(n - 1, s[c + b]), pc + 1, odmik, Dejanje::Naprej)
            } else {
                Korak::Nedoloceno
            },
            UkazPodatek::STOR(c) => if n >= 1 && 0 <= c < n - 1 {
                Korak::Naprej(s.drop_last().update(c as int, s[n - 1]), pc + 1, odmik, Dejanje::Naprej)
            } else {
                Korak::Nedoloceno
            },
            UkazPodatek::STOF(c) => if n >= 1 && odmik >= 0 && c >= 0 && odmik + c < n - 1 {
                Korak::Naprej(s.drop_last().update(odmik + c, s[n - 1]), pc + 1, odmik, Dejanje::Naprej)
            } else {
                Korak::Nedoloceno
            },
            UkazPodatek::STDY(c) => if n >= 2 && v_i32(c + b) && 0 <= c + b < n - 2 {
                Korak::Naprej(s.subrange(0, n - 2).update(c + b, s[n - 2]), pc + 1, odmik, Dejanje::Naprej)
            } else {
                Korak::Nedoloceno
            },
            UkazPodatek::TOP(c) => if v_i32(n + c) {
                Korak::Naprej(s, pc + 1, n + c, Dejanje::Naprej)
            } else {
                Korak::Nedoloceno
            },
            UkazPodatek::SOFF => if n >= 1 {
                Korak::Naprej(s.drop_last(), pc + 1, b as int, Dejanje::Naprej)
            } else {
                Korak::Nedoloceno
            },
            UkazPodatek::LOFF => Korak::Naprej(s.push(celica(odmik)), pc + 1, odmik, Dejanje::Naprej),
            UkazPodatek::PUTC => if n >= 1 {
                Korak::Naprej(s.drop_last(), pc + 1, odmik, Dejanje::Izpisi(s[n - 1]))
            } else {
                Korak::Nedoloceno
            },
            UkazPodatek::GETC => Korak::Naprej(s, pc + 1, odmik, Dejanje::Preberi),
            UkazPodatek::FLUSH => Korak::Naprej(s, pc + 1, odmik, Dejanje::Splakni),
            UkazPodatek::ADDF | UkazPodatek::SUBF | UkazPodatek::MULF | UkazPodatek::DIVF | UkazPodatek::MODF
            | UkazPodatek::POWF => if n >= 2 {
                Korak::Naprej(s.drop_last(), pc + 1, odmik, Dejanje::Realno(realna_op(u), s[n - 2], s[n - 1]))
            } else {
                Korak::Nedoloceno
            },
            UkazPodatek::FTOI | UkazPodatek::ITOF => if n >= 1 {
                Korak::Naprej(s, pc + 1, odmik, Dejanje::Realno(realna_op(u), s[n - 1], Podatek { i: 0 }))
            } else {
                Korak::Nedoloceno
            },
            UkazPodatek::ADDI => if n >= 2 {
                dvojisko(s, pc, odmik, wrapping_add(a, b) as int)
            } else {
                Korak::Nedoloceno
            },
            UkazPodatek::SUBI => if n >= 2 {
                dvojisko(s, pc, odmik, wrapping_sub(a, b) as int)
            } else {
                Korak::Nedoloceno
            },
            UkazPodatek::MULI => if n >= 2 {
                dvojisko(s, pc, odmik, wrapping_mul(a, b) as int)
            } else {
                Korak::Nedoloceno
            },
            UkazPodatek::DIVI => if n >= 2 && b != 0 {
                dvojisko(s, pc, odmik, deli_ovito(a, b) as int)
            } else {
                Korak::Nedoloceno
            },
            UkazPodatek::MODI => if n >= 2 && b != 0 {
                dvojisko(s, pc, odmik, ostanek_ovito(a, b) as int)
            } else {
                Korak::Nedoloceno
            },
            UkazPodatek::POWI => if n >= 2 {
                dvojisko(s, pc, odmik, potenca_ovito(a, b as u32) as int)
            } else {
                Korak::Nedoloceno
            },
            UkazPodatek::BOR => if n >= 2 {
                dvojisko(s, pc, odmik, (a | b) as int)
            } else {
                Korak::Nedoloceno
            },
            UkazPodatek::BXOR => if n >= 2 {
                dvojisko(s, pc, odmik, (a ^ b) as int)
            } else {
                Korak::Nedoloceno
            },
            UkazPodatek::BAND => if n >= 2 {
                dvojisko(s, pc, odmik, (a & b) as int)
            } else {
                Korak::Nedoloceno
            },
            UkazPodatek::BSLL => if n >= 2 && 0 <= b < 32 {
                dvojisko(s, pc, odmik, (a << (b as u32)) as int)
            } else {
                Korak::Nedoloceno
            },
            UkazPodatek::BSLR => if n >= 2 && 0 <= b < 32 {
                dvojisko(s, pc, odmik, (a >> (b as u32)) as int)
            } else {
                Korak::Nedoloceno
            },
        }
    }
}

/// The real operation of an instruction on real numbers.
pub open spec fn realna_op(u: UkazPodatek) -> RealnaOp {
    match u {
        UkazPodatek::ADDF => RealnaOp::Sestej,
        UkazPodatek::SUBF => RealnaOp::Odstej,
        UkazPodatek::MULF => RealnaOp::Zmnozi,
        UkazPodatek::DIVF => RealnaOp::Deli,
        UkazPodatek::MODF => RealnaOp::Ostanek,
        UkazPodatek::POWF => RealnaOp::Potenciraj,
        UkazPodatek::FTOI => RealnaOp::VCelo,
        _ => RealnaOp::VReal,
    }
}

/// `i32::wrapping_pow` of std: the power, wrapped around at the bounds of
/// `i32`, as its documentation says.
#[verifier::external_body]
pub(crate) fn potenciraj_ovito(a: i32, e: u32) -> (r: i32)
    ensures
        r == potenca_ovito(a, e),
{
    a.wrapping_pow(e)
}

/// The quotient of truncating division is no larger than the dividend, and
/// the remainder lies between zero and the dividend.
proof fn lema_deljenje(ua: int, ub: int)
    requires
        ua >= 0,
        ub >= 1,
    ensures
        0 <= ua / ub <= ua,
        ub >= 2 ==> ua / ub <= ua / 2,
        0 <= ub * (ua / ub) <= ua,
{
    assert(0 <= ua / ub <= ua) by (nonlinear_arith)
        requires
            ua >= 0,
            ub >= 1,
    ;
    assert(ub >= 2 ==> ua / ub <= ua / 2) by (nonlinear_arith)
        requires
            ua >= 0,
            ub >= 1,
    ;
    assert(0 <= ub * (ua / ub) <= ua) by (nonlinear_arith)
        requires
            ua >= 0,
            ub >= 1,
    ;
}

/// `i32::wrapping_div` for a divisor that is not zero.
pub(crate) fn deli_i32(a: i32, b: i32) -> (r: i32)
    requires
        b != 0,
    ensures
        r == deli_ovito(a, b),
        !(a == i32::MIN && b == -1) ==> r as int == deli_proti_nic(a as int, b as int),
{
    if a == i32::MIN && b == -1 {
        return i32::MIN;
    }
    let ua: u64 = if a < 0 {
        (-(a as i64)) as u64
    } else {
        a as u64
    };
    let ub: u64 = if b < 0 {
        (-(b as i64)) as u64
    } else {
        b as u64
    };
    let q: u64 = ua / ub;
    proof {
        lema_deljenje(ua as int, ub as int);
    }
    let r: i64 = if (a < 0) == (b < 0) {
        q as i64
    } else {
        -(q as i64)
    };
    assert(r == deli_proti_nic(a as int, b as int));
    assert(v_i32(r as int)) by {
        if (a < 0) == (b < 0) && q == 0x8000_0000 {
            assert(ua == 0x8000_0000);
            assert(ub == 1);
        }
    }
    r as i32
}

/// `i32::wrapping_rem` for a divisor that is not zero.
pub(crate) fn ostanek_i32(a: i32, b: i32) -> (r: i32)
    requires
        b != 0,
    ensures
        r == ostanek_ovito(a, b),
{
    if a == i32::MIN && b == -1 {
        return 0;
    }
    let q = deli_i32(a, b);
    let ghost ua: int = if a < 0 { -a } else { a as int };
    let ghost ub: int = if b < 0 { -b } else { b as int };
    proof {
        lema_deljenje(ua, ub);
        let m = ua / ub;
        assert(b * q == if a < 0 { -(ub * m) } else { ub * m }) by (nonlinear_arith)
            requires
                ub == (if b < 0 { -b } else { b as int }),
                q == (if (a < 0) == (b < 0) { m } else { -m }),
                a >= 0 ==> m == (a as int) / ub,
                m >= 0,
                a == 0 ==> m == 0,
        ;
    }
    let r: i64 = a as i64 - (b as i64) * (q as i64);
    r as i32
}

/// The top two cells of the stack, the lower first.
fn vrh_dveh(sklad: &Vec<Podatek>) -> (r: (i32, i32))
    requires
        sklad@.len() >= 2,
    ensures
        r == (sklad@[sklad@.len() - 2].i, sklad@[sklad@.len() - 1].i),
{
    let n = sklad.len();
    (sklad[n - 2].i, sklad[n - 1].i)
}

/// Replaces the top two cells by one that holds `v`.
fn zamenjaj_dva(sklad: &mut Vec<Podatek>, v: i32)
    requires
        old(sklad)@.len() >= 2,
    ensures
        final(sklad)@ == old(sklad)@.drop_last().update(old(sklad)@.len() - 2, Podatek { i: v }),
{
    let _ = sklad.pop();
    let n = sklad.len();
    sklad.set(n - 1, Podatek { i: v });
}

/// Makes the stack `m` cells long: cuts it, or fills it with zeros.
fn na_dolzino_exec(sklad: &mut Vec<Podatek>, m: usize)
    ensures
        final(sklad)@ == na_dolzino(old(sklad)@, m as int),
{
    if m <= sklad.len() {
        sklad.truncate(m);
    } else {
        let ghost zacetek = sklad@;
        while sklad.len() < m
            invariant
                zacetek.len() <= sklad@.len() <= m,
                sklad@ == zacetek + Seq::new((sklad@.len() - zacetek.len()) as nat, |k: int| Podatek { i: 0 }),
            decreases m - sklad@.len(),
        {
            sklad.push(Podatek { i: 0 });
            assert(sklad@ =~= zacetek + Seq::new((sklad@.len() - zacetek.len()) as nat, |k: int| Podatek { i: 0 }));
        }
    }
}

/// The real operation of an instruction on real numbers.
fn realna_op_exec(u: &UkazPodatek) -> (r: RealnaOp)
    ensures
        r == realna_op(*u),
{
    match u {
        UkazPodatek::ADDF => RealnaOp::Sestej,
        UkazPodatek::SUBF => RealnaOp::Odstej,
        UkazPodatek::MULF => RealnaOp::Zmnozi,
        UkazPodatek::DIVF => RealnaOp::Deli,
        UkazPodatek::MODF => RealnaOp::Ostanek,
        UkazPodatek::POWF => RealnaOp::Potenciraj,
        UkazPodatek::FTOI => RealnaOp::VCelo,
        _ => RealnaOp::VReal,
    }
}

impl Stroj {
    /// A machine with an empty stack at the first instruction.
    pub fn new() -> (r: Stroj)
        ensures
            r.sklad@ == Seq::<Podatek>::empty(),
            r.pc == 0,
            r.odmik == 0,
    {
        Stroj { sklad: Vec::new(), pc: 0, odmik: 0 }
    }

    /// Pushes a cell: what the caller does after `Dejanje::Preberi`.
    pub fn potisni(&mut self, p: Podatek)
        ensures
            final(self).sklad@ == old(self).sklad@.push(p),
            final(self).pc == old(self).pc,
            final(self).odmik == old(self).odmik,
    {
        self.sklad.push(p);
    }

    /// Puts a cell on the top of the stack in place of the one there: what
    /// the caller does after `Dejanje::Realno`.
    pub fn nastavi_vrh(&mut self, p: Podatek)
        requires
            old(self).sklad@.len() >= 1,
        ensures
            final(self).sklad@ == old(self).sklad@.update(old(self).sklad@.len() - 1, p),
            final(self).pc == old(self).pc,
            final(self).odmik == old(self).odmik,
    {
        let n = self.sklad.len();
        self.sklad.set(n - 1, p);
    }

    /// One step of the fast run on the instruction `ukaz`; see `korak_spec`.
    pub fn korak(&mut self, ukaz: &UkazPodatek) -> (r: Dejanje)
        requires
            !(korak_spec(*ukaz, old(self).sklad@, old(self).pc as int, old(self).odmik as int) is Nedoloceno),
        ensures
            korak_spec(*ukaz, old(self).sklad@, old(self).pc as int, old(self).odmik as int) == Korak::Naprej(
                final(self).sklad@,
                final(self).pc as int,
                final(self).odmik as int,
                r,
            ),
    {
        let n = self.sklad.len();
        let ghost s = self.sklad@;
        match *ukaz {
            UkazPodatek::NOOP => {
                self.pc = self.pc + 1;
                Dejanje::Naprej
            },
            UkazPodatek::JUMP(c) => {
                self.pc = c;
                Dejanje::Naprej
            },
            UkazPodatek::JMPD => {
                let v = self.sklad[n - 1];
                let _ = self.sklad.pop();
                self.pc = v.i;
                Dejanje::Naprej
            },
            UkazPodatek::JMPC(c) => {
                let v = self.sklad[n - 1];
                let _ = self.sklad.pop();
                self.pc = if v.i != 0 {
                    c
                } else {
                    self.pc + 1
                };
                Dejanje::Naprej
            },
            UkazPodatek::PUSH(p) => {
                self.sklad.push(p);
                self.pc = self.pc + 1;
                Dejanje::Naprej
            },
            UkazPodatek::ALOC(r) => {
                let m = n as i32 + r;
                na_dolzino_exec(&mut self.sklad, m as usize);
                self.pc = self.pc + 1;
                Dejanje::Naprej
            },
            UkazPodatek::POS => {
                let b = self.sklad[n - 1].i;
                self.sklad.set(n - 1, Podatek { i: if b > 0 { 1 } else { 0 } });
                self.pc = self.pc + 1;
                Dejanje::Naprej
            },
            UkazPodatek::ZERO => {
                let b = self.sklad[n - 1].i;
                self.sklad.set(n - 1, Podatek { i: if b == 0 { 1 } else { 0 } });
                self.pc = self.pc + 1;
                Dejanje::Naprej
            },
            UkazPodatek::LOAD(c) => {
                let v = self.sklad[c as usize];
                self.sklad.push(v);
                self.pc = self.pc + 1;
                Dejanje::Naprej
            },
            UkazPodatek::LDOF(c) => {
                let v = self.sklad[(self.odmik + c) as usize];
                self.sklad.push(v);
                self.pc = self.pc + 1;
                Dejanje::Naprej
            },
            UkazPodatek::LDDY(c) => {
                let b = self.sklad[n - 1].i;
                let v = self.sklad[(c + b) as usize];
                self.sklad.set(n - 1, v);
                self.pc = self.pc + 1;
                Dejanje::Naprej
            },
            UkazPodatek::STOR(c) => {
                let v = self.sklad[n - 1];
                let _ = self.sklad.pop();
                self.sklad.set(c as usize, v);
                self.pc = self.pc + 1;
                Dejanje::Naprej
            },
            UkazPodatek::STOF(c) => {
                let v = self.sklad[n - 1];
                let _ = self.sklad.pop();
                self.sklad.set((self.odmik + c) as usize, v);
                self.pc = self.pc + 1;
                Dejanje::Naprej
            },
            UkazPodatek::STDY(c) => {
                let b = self.sklad[n - 1].i;
                let v = self.sklad[n - 2];
                let _ = self.sklad.pop();
                let _ = self.sklad.pop();
                assert(self.sklad@ =~= s.subrange(0, n - 2));
                self.sklad.set((c + b) as usize, v);
                self.pc = self.pc + 1;
                Dejanje::Naprej
            },
            UkazPodatek::TOP(c) => {
                self.odmik = n as i32 + c;
                self.pc = self.pc + 1;
                Dejanje::Naprej
            },
            UkazPodatek::SOFF => {
                let b = self.sklad[n - 1].i;
                let _ = self.sklad.pop();
                self.odmik = b;
                self.pc = self.pc + 1;
                Dejanje::Naprej
            },
            UkazPodatek::LOFF => {
                self.sklad.push(Podatek { i: self.odmik });
                self.pc = self.pc + 1;
                Dejanje::Naprej
            },
            UkazPodatek::PUTC => {
                let v = self.sklad[n - 1];
                let _ = self.sklad.pop();
                self.pc = self.pc + 1;
                Dejanje::Izpisi(v)
            },
            UkazPodatek::GETC => {
                self.pc = self.pc + 1;
                Dejanje::Preberi
            },
            UkazPodatek::FLUSH => {
                self.pc = self.pc + 1;
                Dejanje::Splakni
            },
            UkazPodatek::ADDF | UkazPodatek::SUBF | UkazPodatek::MULF | UkazPodatek::DIVF | UkazPodatek::MODF
            | UkazPodatek::POWF => {
                let a = self.sklad[n - 2];
                let b = self.sklad[n - 1];
                let _ = self.sklad.pop();
                self.pc = self.pc + 1;
                Dejanje::Realno(realna_op_exec(ukaz), a, b)
            },
            UkazPodatek::FTOI | UkazPodatek::ITOF => {
                let a = self.sklad[n - 1];
                self.pc = self.pc + 1;
                Dejanje::Realno(realna_op_exec(ukaz), a, Podatek { i: 0 })
            },
            UkazPodatek::ADDI => {
                let (a, b) = vrh_dveh(&self.sklad);
                zamenjaj_dva(&mut self.sklad, a.wrapping_add(b));
                self.pc = self.pc + 1;
                Dejanje::Naprej
            },
            UkazPodatek::SUBI => {
                let (a, b) = vrh_dveh(&self.sklad);
                zamenjaj_dva(&mut self.sklad, a.wrapping_sub(b));
                self.pc = self.pc + 1;
                Dejanje::Naprej
            },
            UkazPodatek::MULI => {
                let (a, b) = vrh_dveh(&self.sklad);
                zamenjaj_dva(&mut self.sklad, a.wrapping_mul(b));
                self.pc = self.pc + 1;
                Dejanje::Naprej
            },
            UkazPodatek::DIVI => {
                let (a, b) = vrh_dveh(&self.sklad);
                zamenjaj_dva(&mut self.sklad, deli_i32(a, b));
                self.pc = self.pc + 1;
                Dejanje::Naprej
            },
            UkazPodatek::MODI => {
                let (a, b) = vrh_dveh(&self.sklad);
                zamenjaj_dva(&mut self.sklad, ostanek_i32(a, b));
                self.pc = self.pc + 1;
                Dejanje::Naprej
            },
            UkazPodatek::POWI => {
                let (a, b) = vrh_dveh(&self.sklad);
                zamenjaj_dva(&mut self.sklad, potenciraj_ovito(a, b as u32));
                self.pc = self.pc + 1;
                Dejanje::Naprej
            },
            UkazPodatek::BOR => {
                let (a, b) = vrh_dveh(&self.sklad);
                zamenjaj_dva(&mut self.sklad, a | b);
                self.pc = self.pc + 1;
                Dejanje::Naprej
            },
            UkazPodatek::BXOR => {
                let (a, b) = vrh_dveh(&self.sklad);
                zamenjaj_dva(&mut self.sklad, a ^ b);
                self.pc = self.pc + 1;
                Dejanje::Naprej
            },
            UkazPodatek::BAND => {
                let (a, b) = vrh_dveh(&self.sklad);
                zamenjaj_dva(&mut self.sklad, a & b);
                self.pc = self.pc + 1;
                Dejanje::Naprej
            },
            UkazPodatek::BSLL => {
                let (a, b) = vrh_dveh(&self.sklad);
                zamenjaj_dva(&mut self.sklad, a << (b as u32));
                self.pc = self.pc + 1;
                Dejanje::Naprej
            },
            UkazPodatek::BSLR => {
                let (a, b) = vrh_dveh(&self.sklad);
                zamenjaj_dva(&mut self.sklad, a >> (b as u32));
                self.pc = self.pc + 1;
                Dejanje::Naprej
            },
        }
    }
}

/// Where the sum of two offsets, each turned into `usize` as the debugging
/// run does, points: a cell of a stack of `n` cells (`Some`), no cell
/// (`None`: the sum lies past any stack), or an overflow of `usize`, which
/// panics (`Some(-1)`).
pub open spec fn naslov_usize(x: int, y: int, n: int) -> Option<int> {
    if x >= 0 && y >= 0 {
        if x + y < n {
            Some(x + y)
        } else {
            None
        }
    } else if (x < 0 && y < 0) || x + y >= 0 {
        Some(-1)
    } else {
        None
    }
}

/// One step of the debugging run on the instruction `u`. A missing cell
/// (also a missing operand) or an address outside the stack is an error;
/// arithmetic on whole numbers wraps as in the fast step; a division by
/// zero or of the least number by -1, a shift out of range and an
/// overflowing address panic.
pub open spec fn korak_debug_spec(u: UkazPodatek, s: Seq<Podatek>, pc: int, odmik: int) -> Korak {
    let n = s.len() as int;
    let a = if n >= 2 {
        s[n - 2].i
    } else {
        0
    };
    let b = if n >= 1 {
        s[n - 1].i
    } else {
        0
    };
    if pc >= i32::MAX || n > i32::MAX {
        Korak::Nedoloceno
    } else {
        match u {
            UkazPodatek::JMPD | UkazPodatek::JMPC(_) | UkazPodatek::PUTC | UkazPodatek::SOFF | UkazPodatek::FTOI
            | UkazPodatek::ITOF => if n >= 1 {
                korak_spec(u, s, pc, odmik)
            } else {
                Korak::Napaka
            },
            UkazPodatek::POS | UkazPodatek::ZERO => if n >= 1 {
                Korak::Naprej(
                    s,
                    pc + 1,
                    odmik,
                    Dejanje::Realno(
                        if u is POS {
                            RealnaOp::Pozitivno
                        } else {
                            RealnaOp::Nic
                        },
                        s[n - 1],
                        Podatek { i: 0 },
                    ),
                )
            } else {
                Korak::Napaka
            },
            UkazPodatek::LOAD(c) => if 0 <= c < n {
                korak_spec(u, s, pc, odmik)
            } else {
                Korak::Napaka
            },
            UkazPodatek::LDOF(c) => match naslov_usize(odmik, c as int, n) {
                Some(k) => if k < 0 {
                    Korak::Nedoloceno
                } else {
                    Korak::Naprej(s.push(s[k]), pc + 1, odmik, Dejanje::Naprej)
                },
                None => Korak::Napaka,
            },
            UkazPodatek::LDDY(c) => if n < 1 {
                Korak::Napaka
            } else if !v_i32(c + b) {
                Korak::Nedoloceno
            } else if 0 <= c + b < n {
                korak_spec(u, s, pc, odmik)
            } else {
                Korak::Napaka
            },
            UkazPodatek::STOR(c) => if n >= 1 && 0 <= c < n - 1 {
                korak_spec(u, s, pc, odmik)
            } else {
                Korak::Napaka
            },
            UkazPodatek::STOF(c) => if n < 1 {
                Korak::Napaka
            } else {
                match naslov_usize(odmik, c as int, n - 1) {
                    Some(k) => if k < 0 {
                        Korak::Nedoloceno
                    } else {
                        Korak::Naprej(s.drop_last().update(k, s[n - 1]), pc + 1, odmik, Dejanje::Naprej)
                    },
                    None => Korak::Napaka,
                }
            },
            UkazPodatek::STDY(c) => if n < 2 {
                Korak::Napaka
            } else {
                match naslov_usize(c as int, b as int, n - 2) {
                    Some(k) => if k < 0 {
                        Korak::Nedoloceno
                    } else {
                        Korak::Naprej(s.subrange(0, n - 2).update(k, s[n - 2]), pc + 1, odmik, Dejanje::Naprej)
                    },
                    None => Korak::Napaka,
                }
            },
            UkazPodatek::ADDI | UkazPodatek::SUBI | UkazPodatek::MULI | UkazPodatek::POWI | UkazPodatek::ADDF
            | UkazPodatek::SUBF | UkazPodatek::MULF | UkazPodatek::DIVF | UkazPodatek::MODF | UkazPodatek::POWF
            | UkazPodatek::BOR | UkazPodatek::BXOR | UkazPodatek::BAND | UkazPodatek::BSLL | UkazPodatek::BSLR => if n
                >= 2 {
                korak_spec(u, s, pc, odmik)
            } else {
                Korak::Napaka
            },
            UkazPodatek::DIVI | UkazPodatek::MODI => if n < 2 {
                Korak::Napaka
            } else if b != 0 && !(a == i32::MIN && b == -1) {
                korak_spec(u, s, pc, odmik)
            } else {
                Korak::Nedoloceno
            },
            _ => korak_spec(u, s, pc, odmik),
        }
    }
}

impl Stroj {
    /// One step of the debugging run on the instruction `ukaz`; see
    /// `korak_debug_spec`. Nothing for an error (such as a missing operand),
    /// and then the machine stays as it was.
    pub fn korak_debug(&mut self, ukaz: &UkazPodatek) -> (r: Option<Dejanje>)
        requires
            !(korak_debug_spec(*ukaz, old(self).sklad@, old(self).pc as int, old(self).odmik as int) is Nedoloceno),
        ensures
            match korak_debug_spec(*ukaz, old(self).sklad@, old(self).pc as int, old(self).odmik as int) {
                Korak::Naprej(s, pc, odmik, d) => r == Some(d) && final(self).sklad@ == s && final(self).pc == pc
                    && final(self).odmik == odmik,
                Korak::Napaka => r is None && final(self).sklad@ == old(self).sklad@ && final(self).pc == old(self).pc
                    && final(self).odmik == old(self).odmik,
                Korak::Nedoloceno => false,
            },
    {
        let n = self.sklad.len();
        let ghost s = self.sklad@;
        match *ukaz {
            UkazPodatek::JMPD | UkazPodatek::JMPC(_) | UkazPodatek::PUTC | UkazPodatek::SOFF | UkazPodatek::FTOI
            | UkazPodatek::ITOF => {
                if n < 1 {
                    return None;
                }
                Some(self.korak(ukaz))
            },
            UkazPodatek::POS | UkazPodatek::ZERO => {
                if n < 1 {
                    return None;
                }
                let v = self.sklad[n - 1];
                self.pc = self.pc + 1;
                let op = match *ukaz {
                    UkazPodatek::POS => RealnaOp::Pozitivno,
                    _ => RealnaOp::Nic,
                };
                Some(Dejanje::Realno(op, v, Podatek { i: 0 }))
            },
            UkazPodatek::LOAD(c) => {
                if c < 0 || c as usize >= n {
                    return None;
                }
                Some(self.korak(ukaz))
            },
            UkazPodatek::LDOF(c) => {
                if self.odmik < 0 || c < 0 || (self.odmik as i64 + c as i64) as usize >= n {
                    return None;
                }
                let v = self.sklad[(self.odmik + c) as usize];
                self.sklad.push(v);
                self.pc = self.pc + 1;
                Some(Dejanje::Naprej)
            },
            UkazPodatek::LDDY(c) => {
                if n < 1 {
                    return None;
                }
                let b = self.sklad[n - 1].i;
                if c + b < 0 || (c + b) as usize >= n {
                    return None;
                }
                Some(self.korak(ukaz))
            },
            UkazPodatek::STOR(c) => {
                if n < 1 || c < 0 || c as usize >= n - 1 {
                    return None;
                }
                Some(self.korak(ukaz))
            },
            UkazPodatek::STOF(c) => {
                if n < 1 || self.odmik < 0 || c < 0 || (self.odmik as i64 + c as i64) as usize >= n - 1 {
                    return None;
                }
                let v = self.sklad[n - 1];
                let _ = self.sklad.pop();
                self.sklad.set((self.odmik + c) as usize, v);
                self.pc = self.pc + 1;
                Some(Dejanje::Naprej)
            },
            UkazPodatek::STDY(c) => {
                if n < 2 {
                    return None;
                }
                let b = self.sklad[n - 1].i;
                if c < 0 || b < 0 || (c as i64 + b as i64) as usize >= n - 2 {
                    return None;
                }
                let v = self.sklad[n - 2];
                let _ = self.sklad.pop();
                let _ = self.sklad.pop();
                assert(self.sklad@ =~= s.subrange(0, n - 2));
                self.sklad.set((c + b) as usize, v);
                self.pc = self.pc + 1;
                Some(Dejanje::Naprej)
            },
            UkazPodatek::ADDI | UkazPodatek::SUBI | UkazPodatek::MULI | UkazPodatek::POWI | UkazPodatek::ADDF
            | UkazPodatek::SUBF | UkazPodatek::MULF | UkazPodatek::DIVF | UkazPodatek::MODF | UkazPodatek::POWF
            | UkazPodatek::BOR | UkazPodatek::BXOR | UkazPodatek::BAND | UkazPodatek::BSLL | UkazPodatek::BSLR
            | UkazPodatek::DIVI | UkazPodatek::MODI => {
                if n < 2 {
                    return None;
                }
                Some(self.korak(ukaz))
            },
            _ => Some(self.korak(ukaz)),
        }
    }
}

/// Where the debugging step goes on, the fast step does exactly the same,
/// but for `POS` and `ZERO`, which the debugging run asks of the real number
/// in the cell and the fast run of the whole number.
pub proof fn zakon_debug_kot_hitro(u: UkazPodatek, s: Seq<Podatek>, pc: int, odmik: int)
    requires
        !(u is POS || u is ZERO),
        korak_debug_spec(u, s, pc, odmik) is Naprej,
    ensures
        korak_spec(u, s, pc, odmik) == korak_debug_spec(u, s, pc, odmik),
{
}

/// Whether a number of type `i64` fits in `i32`.
fn v_i32_exec(x: i64) -> (r: bool)
    ensures
        r == v_i32(x as int),
{
    i32::MIN as i64 <= x && x <= i32::MAX as i64
}

impl Stroj {
    /// Whether the fast step on `ukaz` is defined in this state.
    pub fn korak_mogoc(&self, ukaz: &UkazPodatek) -> (r: bool)
        ensures
            r == !(korak_spec(*ukaz, self.sklad@, self.pc as int, self.odmik as int) is Nedoloceno),
    {
        let n = self.sklad.len();
        if self.pc == i32::MAX || n > i32::MAX as usize {
            return false;
        }
        let n64 = n as i64;
        let a: i64 = if n >= 2 {
            self.sklad[n - 2].i as i64
        } else {
            0
        };
        let b: i64 = if n >= 1 {
            self.sklad[n - 1].i as i64
        } else {
            0
        };
        let o = self.odmik as i64;
        match *ukaz {
            UkazPodatek::NOOP | UkazPodatek::JUMP(_) | UkazPodatek::PUSH(_) | UkazPodatek::LOFF | UkazPodatek::GETC
            | UkazPodatek::FLUSH => true,
            UkazPodatek::JMPD | UkazPodatek::JMPC(_) | UkazPodatek::POS | UkazPodatek::ZERO | UkazPodatek::SOFF
            | UkazPodatek::PUTC | UkazPodatek::FTOI | UkazPodatek::ITOF => n >= 1,
            UkazPodatek::ALOC(r) => v_i32_exec(n64 + r as i64) && n64 + r as i64 >= 0,
            UkazPodatek::LOAD(c) => 0 <= c && (c as i64) < n64,
            UkazPodatek::LDOF(c) => v_i32_exec(o + c as i64) && 0 <= o + c as i64 && o + (c as i64) < n64,
            UkazPodatek::LDDY(c) => n >= 1 && v_i32_exec(c as i64 + b) && 0 <= c as i64 + b && c as i64 + b < n64,
            UkazPodatek::STOR(c) => n >= 1 && 0 <= c && (c as i64) < n64 - 1,
            UkazPodatek::STOF(c) => n >= 1 && o >= 0 && c >= 0 && o + (c as i64) < n64 - 1,
            UkazPodatek::STDY(c) => n >= 2 && v_i32_exec(c as i64 + b) && 0 <= c as i64 + b && c as i64 + b < n64 - 2,
            UkazPodatek::TOP(c) => v_i32_exec(n64 + c as i64),
            UkazPodatek::DIVI | UkazPodatek::MODI => n >= 2 && b != 0,
            UkazPodatek::BSLL | UkazPodatek::BSLR => n >= 2 && 0 <= b && b < 32,
            _ => n >= 2,
        }
    }

    /// Whether the debugging step on `ukaz` is defined in this state, that
    /// is, does not panic.
    pub fn korak_debug_mogoc(&self, ukaz: &UkazPodatek) -> (r: bool)
        ensures
            r == !(korak_debug_spec(*ukaz, self.sklad@, self.pc as int, self.odmik as int) is Nedoloceno),
    {
        let n = self.sklad.len();
        if self.pc == i32::MAX || n > i32::MAX as usize {
            return false;
        }
        let n64 = n as i64;
        let a: i64 = if n >= 2 {
            self.sklad[n - 2].i as i64
        } else {
            0
        };
        let b: i64 = if n >= 1 {
            self.sklad[n - 1].i as i64
        } else {
            0
        };
        let o = self.odmik as i64;
        match *ukaz {
            UkazPodatek::JMPD | UkazPodatek::JMPC(_) | UkazPodatek::PUTC | UkazPodatek::SOFF | UkazPodatek::FTOI
            | UkazPodatek::ITOF | UkazPodatek::POS | UkazPodatek::ZERO | UkazPodatek::LOAD(_) | UkazPodatek::STOR(_) => {
                true
            },
            UkazPodatek::LDOF(c) => !((o < 0 && c < 0) || ((o < 0 || c < 0) && o + c as i64 >= 0)),
            UkazPodatek::LDDY(c) => n < 1 || v_i32_exec(c as i64 + b),
            UkazPodatek::STOF(c) => n < 1 || !((o < 0 && c < 0) || ((o < 0 || c < 0) && o + c as i64 >= 0)),
            UkazPodatek::STDY(c) => n < 2 || !((c < 0 && b < 0) || ((c < 0 || b < 0) && c as i64 + b >= 0)),
            UkazPodatek::ADDI | UkazPodatek::SUBI | UkazPodatek::MULI | UkazPodatek::POWI | UkazPodatek::ADDF
            | UkazPodatek::SUBF | UkazPodatek::MULF | UkazPodatek::DIVF | UkazPodatek::MODF | UkazPodatek::POWF
            | UkazPodatek::BOR | UkazPodatek::BXOR | UkazPodatek::BAND | UkazPodatek::BSLL | UkazPodatek::BSLR => n < 2
                || self.korak_mogoc(ukaz),
            UkazPodatek::DIVI | UkazPodatek::MODI => n < 2 || (b != 0 && !(a == i32::MIN as i64 && b == -1)),
            _ => self.korak_mogoc(ukaz),
        }
    }
}

} // verus!
