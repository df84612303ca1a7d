//! The instructions of the stack machine that runs compiled programs.

use crate::tip::Tip;
use vstd::prelude::*;

verus! {

/// A cell of the machine's stack: 32 bits that hold a whole number, a real
/// number or a character, by the instruction that reads them.
#[derive(Debug, Clone, Copy, PartialEq, Eq, Structural)]
pub struct Podatek {
    pub i: i32,
}

/// An instruction of the machine. Addresses and offsets count stack cells;
/// jump targets count instructions.
#[derive(Debug, Clone, Copy, PartialEq, Eq, Structural)]
pub enum UkazPodatek {
    NOOP,
    JUMP(i32),
    JMPC(i32),
    JMPD,
    ALOC(i32),
    PUSH(Podatek),
    LOAD(i32),
    LDOF(i32),
    LDDY(i32),
    STOR(i32),
    STOF(i32),
    STDY(i32),
    TOP(i32),
    POS,
    ZERO,
    SOFF,
    LOFF,
    PUTC,
    GETC,
    FLUSH,
    ADDF,
    SUBF,
    MULF,
    DIVF,
    MODF,
    POWF,
    ADDI,
    SUBI,
    MULI,
    DIVI,
    MODI,
    POWI,
    BOR,
    BXOR,
    BAND,
    BSLL,
    BSLR,
    FTOI,
    ITOF,
}

/// A compiled program: its instructions, and for each `PUSH` in order the
/// type of the value it pushes.
pub struct Program {
    pub push_tipi: Vec<Tip>,
    pub ukazi: Vec<UkazPodatek>,
}

} // verus!
