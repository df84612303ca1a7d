//! The native back end: intermediate code turned into x86-64 assembly for
//! FASM. The code is first shortened where a few instructions in a row can
//! be done at once, then each instruction becomes assembly, and the assembly
//! is shortened where a push is followed by a pop.

use crate::fasm::{besedilo_ukaza, pogledi_instr, push, zapisljiva, ArO, Instr, InstrV, Op, Size, R};
use crate::oznake::{formatiraj_oznako, oznaka};
use crate::besedilo::znak_iz_stevila;
use crate::program::UkazPodatek;
use crate::zapis::je_znak;
use crate::zazeni::{deli_i32, deli_ovito};
use crate::vmesna_koda::{pogledi_ukazov, UkazPodatekRelative, UkazRelV};
use crate::fasm::{utf8_kot_i32, v_utf8};
use vstd::prelude::*;
use vstd::string::StringExecFns;
use vstd::wrapping::i32_specs::{wrapping_add, wrapping_mul, wrapping_sub};

verus! {

/// The offset in the stack frame of the cell at the address `a`: `-8 - 8a`,
/// where it fits in `i32`.
pub open spec fn odmik_celice(a: i32) -> Option<i32> {
    if -0x1000_0000 <= a < 0x1000_0000 {
        Some((-8 - 8 * a) as i32)
    } else {
        None
    }
}

/// The instructions that push the constant `data`: an immediate push when it
/// fits in 16 bits, else through `rax`.
pub open spec fn potisk_v(data: u32) -> Seq<InstrV> {
    if data > 0xFFFF {
        seq![InstrV::Mov(Op::Reg(R::Rax), Op::ImmU(data)), InstrV::Push(Op::Reg(R::Rax))]
    } else {
        seq![InstrV::Push(Op::ImmU(data))]
    }
}

/// A memory operand of eight bytes at `r` plus `odmik`.
pub open spec fn qword_pri(r: R, odmik: i32) -> Op {
    Op::Deref(Size::Qword, r, odmik)
}

/// A memory operand of four bytes at `rsp` plus `odmik`.
pub open spec fn dword_na_vrhu(odmik: i32) -> Op {
    Op::Deref(Size::Dword, R::Rsp, odmik)
}

/// The assembly of one instruction of the intermediate code. `None` for an
/// instruction that the back end does not take (a jump to an instruction,
/// a `PUSH`, `FLUSH`, a reference or an indexed access), or an address whose
/// offset does not fit in `i32`.
pub open spec fn izbira(u: UkazRelV) -> Option<Seq<InstrV>> {
    match u {
        UkazRelV::PUSHI(n) => Some(potisk_v(n as u32)),
        UkazRelV::PUSHF(p) => Some(potisk_v(p.i as u32)),
        UkazRelV::PUSHC(c) => Some(potisk_v(utf8_kot_i32(c) as u32)),
        UkazRelV::JUMPRel(l) => Some(seq![InstrV::Jmp(oznaka(l))]),
        UkazRelV::JMPCRel(l) => Some(
            seq![
                InstrV::Pop(Op::Reg(R::Rax)),
                InstrV::Cmp(Op::Reg(R::Rax), Op::ImmS(0)),
                InstrV::Jne(oznaka(l)),
            ],
        ),
        UkazRelV::PC(_) => Some(Seq::empty()),
        UkazRelV::CALL(l) => Some(seq![InstrV::Call(oznaka(l))]),
        UkazRelV::Oznaka(l) => Some(seq![InstrV::Label(oznaka(l))]),
        UkazRelV::STIMM(data, a, r) => match odmik_celice(a) {
            Some(o) => Some(seq![InstrV::Mov(qword_pri(r, o), Op::ImmU(data))]),
            None => None,
        },
        UkazRelV::LDOP(op, r1, r2, a1, a2) => match (odmik_celice(a1), odmik_celice(a2)) {
            (Some(o1), Some(o2)) => Some(
                seq![
                    InstrV::Mov(Op::Reg(R::Rax), qword_pri(r1, o1)),
                    InstrV::Mov(Op::Reg(R::Rbx), qword_pri(r2, o2)),
                    InstrV::ArOp(op, R::Eax, Op::Reg(R::Ebx)),
                    InstrV::Push(Op::Reg(R::Rax)),
                ],
            ),
            _ => None,
        },
        UkazRelV::LDST(r1, r2, src, dst) => match odmik_celice(dst) {
            Some(o) => Some(
                seq![InstrV::Mov(Op::Reg(R::Rax), qword_pri(r1, src)), InstrV::Mov(qword_pri(r2, o), Op::Reg(R::Rax))],
            ),
            None => None,
        },
        UkazRelV::Osnovni(o) => izbira_osnovnega(o),
        _ => None,
    }
}

/// The assembly of an instruction of the machine.
pub open spec fn izbira_osnovnega(u: UkazPodatek) -> Option<Seq<InstrV>> {
    match u {
        UkazPodatek::JMPD => Some(seq![InstrV::Ret]),
        UkazPodatek::NOOP => Some(seq![InstrV::Nop]),
        UkazPodatek::POS => Some(
            seq![
                InstrV::Pop(Op::Reg(R::Rax)),
                InstrV::Cmp(Op::Reg(R::Eax), Op::ImmS(0)),
                InstrV::Mov(Op::Reg(R::Eax), Op::ImmS(0)),
                InstrV::Setg(R::Al),
                InstrV::Push(Op::Reg(R::Rax)),
            ],
        ),
        UkazPodatek::ZERO => Some(
            seq![
                InstrV::Pop(Op::Reg(R::Rax)),
                InstrV::Cmp(Op::Reg(R::Eax), Op::ImmS(0)),
                InstrV::Mov(Op::Reg(R::Eax), Op::ImmS(0)),
                InstrV::Sete(R::Al),
                InstrV::Push(Op::Reg(R::Rax)),
            ],
        ),
        UkazPodatek::LOAD(a) => match odmik_celice(a) {
            Some(o) => Some(seq![InstrV::Push(qword_pri(R::R8, o))]),
            None => None,
        },
        UkazPodatek::LDOF(a) => match odmik_celice(a) {
            Some(o) => Some(seq![InstrV::Push(qword_pri(R::R9, o))]),
            None => None,
        },
        UkazPodatek::LDDY(a) => match odmik_celice(a) {
            Some(o) => Some(
                seq![
                    InstrV::Pop(Op::Reg(R::Rbx)),
                    InstrV::ArOp(ArO::IMul, R::Rbx, Op::ImmS(8)),
                    InstrV::Mov(Op::Reg(R::Rax), Op::Reg(R::R8)),
                    InstrV::ArOp(ArO::Sub, R::Rax, Op::Reg(R::Rbx)),
                    InstrV::Push(qword_pri(R::Rax, o)),
                ],
            ),
            None => None,
        },
        UkazPodatek::STOR(a) => match odmik_celice(a) {
            Some(o) => Some(seq![InstrV::Pop(qword_pri(R::R8, o))]),
            None => None,
        },
        UkazPodatek::STOF(a) => match odmik_celice(a) {
            Some(o) => Some(seq![InstrV::Pop(qword_pri(R::R9, o))]),
            None => None,
        },
        UkazPodatek::STDY(a) => match odmik_celice(a) {
            Some(o) => Some(
                seq![
                    InstrV::Pop(Op::Reg(R::Rbx)),
                    InstrV::ArOp(ArO::IMul, R::Rbx, Op::ImmS(8)),
                    InstrV::Mov(Op::Reg(R::Rax), Op::Reg(R::R8)),
                    InstrV::ArOp(ArO::Sub, R::Rax, Op::Reg(R::Rbx)),
                    InstrV::Pop(qword_pri(R::Rax, o)),
                ],
            ),
            None => None,
        },
        UkazPodatek::TOP(a) => if -0x1000_0000 <= a < 0x1000_0000 {
            Some(
                seq![
                    InstrV::Mov(Op::Reg(R::R9), Op::Reg(R::Rsp)),
                    InstrV::ArOp(ArO::Sub, R::R9, Op::ImmS((8 * a) as i32)),
                ],
            )
        } else {
            None
        },
        UkazPodatek::LOFF => Some(seq![InstrV::Push(Op::Reg(R::R9))]),
        UkazPodatek::SOFF => Some(seq![InstrV::Pop(Op::Reg(R::R9))]),
        UkazPodatek::ADDI => Some(celostevilska(ArO::Add)),
        UkazPodatek::SUBI => Some(celostevilska(ArO::Sub)),
        UkazPodatek::MULI => Some(celostevilska(ArO::IMul)),
        UkazPodatek::DIVI => Some(deljenje(R::Rax)),
        UkazPodatek::MODI => Some(deljenje(R::Rdx)),
        UkazPodatek::POWI => Some(
            seq![
                InstrV::Mov(Op::Reg(R::Rax), Op::ImmS(1)),
                InstrV::Pop(Op::Reg(R::Rcx)),
                InstrV::Pop(Op::Reg(R::Rbx)),
                InstrV::Call("_powi"@),
                InstrV::Push(Op::Reg(R::Rax)),
            ],
        ),
        UkazPodatek::BOR => Some(bitna(ArO::Or, R::Ecx)),
        UkazPodatek::BXOR => Some(bitna(ArO::Xor, R::Ecx)),
        UkazPodatek::BAND => Some(bitna(ArO::And, R::Ecx)),
        UkazPodatek::BSLL => Some(bitna(ArO::Shl, R::Cl)),
        UkazPodatek::BSLR => Some(bitna(ArO::Shr, R::Cl)),
        UkazPodatek::ADDF => Some(realna(InstrV::Fadd(dword_na_vrhu(0)))),
        UkazPodatek::SUBF => Some(realna(InstrV::Fsub(dword_na_vrhu(0)))),
        UkazPodatek::MULF => Some(realna(InstrV::Fmul(dword_na_vrhu(0)))),
        UkazPodatek::DIVF => Some(realna(InstrV::Fdiv(dword_na_vrhu(0)))),
        UkazPodatek::MODF => Some(
            seq![
                InstrV::Fld(dword_na_vrhu(0)),
                InstrV::Fld(dword_na_vrhu(8)),
                InstrV::Fprem,
                InstrV::Pop(qword_pri(R::Rsp, -8i32)),
                InstrV::Fstp(dword_na_vrhu(0)),
            ],
        ),
        UkazPodatek::POWF => Some(seq![InstrV::Macro("powf"@)]),
        UkazPodatek::FTOI => Some(seq![InstrV::Fld(dword_na_vrhu(0)), InstrV::Fistp(dword_na_vrhu(0))]),
        UkazPodatek::ITOF => Some(seq![InstrV::Fild(dword_na_vrhu(0)), InstrV::Fstp(dword_na_vrhu(0))]),
        UkazPodatek::PUTC => Some(seq![InstrV::Pop(Op::Reg(R::Rax)), InstrV::Call("_putc"@)]),
        UkazPodatek::GETC => Some(seq![InstrV::Call("_getc"@), InstrV::Push(Op::Reg(R::Rax))]),
        UkazPodatek::ALOC(m) => Some(seq![InstrV::Aloc(m)]),
        _ => None,
    }
}

/// Whole-number arithmetic on the top two cells.
pub open spec fn celostevilska(op: ArO) -> Seq<InstrV> {
    seq![
        InstrV::Pop(Op::Reg(R::Rbx)),
        InstrV::Pop(Op::Reg(R::Rax)),
        InstrV::ArOp(op, R::Rax, Op::Reg(R::Rbx)),
        InstrV::Push(Op::Reg(R::Rax)),
    ]
}

/// Whole-number division of the top two cells, keeping the quotient (`rax`)
/// or the remainder (`rdx`).
pub open spec fn deljenje(izid: R) -> Seq<InstrV> {
    seq![
        InstrV::Pop(Op::Reg(R::Rbx)),
        InstrV::Pop(Op::Reg(R::Rax)),
        InstrV::Cdq,
        InstrV::IDiv(R::Ebx),
        InstrV::Push(Op::Reg(izid)),
    ]
}

/// A bitwise operation on the top two cells, its second operand in `r`.
pub open spec fn bitna(op: ArO, r: R) -> Seq<InstrV> {
    seq![
        InstrV::Pop(Op::Reg(R::Rcx)),
        InstrV::Pop(Op::Reg(R::Rax)),
        InstrV::ArOp(op, R::Eax, Op::Reg(r)),
        InstrV::Push(Op::Reg(R::Rax)),
    ]
}

/// Real-number arithmetic on the top two cells, by the instruction `op`.
pub open spec fn realna(op: InstrV) -> Seq<InstrV> {
    seq![InstrV::Fld(dword_na_vrhu(8)), op, InstrV::Pop(qword_pri(R::Rsp, -8i32)), InstrV::Fstp(dword_na_vrhu(0))]
}

/// The instructions given, as a vector.
fn iz1(a: Instr) -> (r: Vec<Instr>)
    ensures
        pogledi_instr(r@) == seq![a@],
{
    let r = vec![a];
    assert(pogledi_instr(r@) =~= seq![a@]);
    r
}

/// The instructions given, as a vector.
fn iz2(a: Instr, b: Instr) -> (r: Vec<Instr>)
    ensures
        pogledi_instr(r@) == seq![a@, b@],
{
    let r = vec![a, b];
    assert(pogledi_instr(r@) =~= seq![a@, b@]);
    r
}

/// The instructions given, as a vector.
fn iz3(a: Instr, b: Instr, c: Instr) -> (r: Vec<Instr>)
    ensures
        pogledi_instr(r@) == seq![a@, b@, c@],
{
    let r = vec![a, b, c];
    assert(pogledi_instr(r@) =~= seq![a@, b@, c@]);
    r
}

/// The instructions given, as a vector.
fn iz4(a: Instr, b: Instr, c: Instr, e: Instr) -> (r: Vec<Instr>)
    ensures
        pogledi_instr(r@) == seq![a@, b@, c@, e@],
{
    let r = vec![a, b, c, e];
    assert(pogledi_instr(r@) =~= seq![a@, b@, c@, e@]);
    r
}

/// The instructions given, as a vector.
fn iz5(a: Instr, b: Instr, c: Instr, e: Instr, f: Instr) -> (r: Vec<Instr>)
    ensures
        pogledi_instr(r@) == seq![a@, b@, c@, e@, f@],
{
    let r = vec![a, b, c, e, f];
    assert(pogledi_instr(r@) =~= seq![a@, b@, c@, e@, f@]);
    r
}

/// The instructions that push the constant `data`.
fn potisni(data: u32) -> (r: Vec<Instr>)
    ensures
        pogledi_instr(r@) == potisk_v(data),
{
    let r = push(data);
    assert(pogledi_instr(r@) =~= potisk_v(data));
    r
}

/// The offset in the stack frame of the cell at the address `a`.
fn odmik(a: i32) -> (r: Option<i32>)
    ensures
        r == odmik_celice(a),
{
    if -0x1000_0000 <= a && a < 0x1000_0000 {
        Some(-8 - 8 * a)
    } else {
        None
    }
}

/// The assembly of an instruction of the machine.
fn izberi_osnovni(u: UkazPodatek) -> (r: Option<Vec<Instr>>)
    ensures
        match r {
            Some(v) => izbira_osnovnega(u) == Some(pogledi_instr(v@)),
            None => izbira_osnovnega(u) is None,
        },
{
    let rax = Op::Reg(R::Rax);
    match u {
        UkazPodatek::JMPD => Some(iz1(Instr::Ret)),
        UkazPodatek::NOOP => Some(iz1(Instr::Nop)),
        UkazPodatek::POS => Some(
            iz5(
                Instr::Pop(rax),
                Instr::Cmp(Op::Reg(R::Eax), Op::ImmS(0)),
                Instr::Mov(Op::Reg(R::Eax), Op::ImmS(0)),
                Instr::Setg(R::Al),
                Instr::Push(rax),
            ),
        ),
        UkazPodatek::ZERO => Some(
            iz5(
                Instr::Pop(rax),
                Instr::Cmp(Op::Reg(R::Eax), Op::ImmS(0)),
                Instr::Mov(Op::Reg(R::Eax), Op::ImmS(0)),
                Instr::Sete(R::Al),
                Instr::Push(rax),
            ),
        ),
        UkazPodatek::LOAD(a) => match odmik(a) {
            Some(o) => Some(iz1(Instr::Push(Op::Deref(Size::Qword, R::R8, o)))),
            None => None,
        },
        UkazPodatek::LDOF(a) => match odmik(a) {
            Some(o) => Some(iz1(Instr::Push(Op::Deref(Size::Qword, R::R9, o)))),
            None => None,
        },
        UkazPodatek::LDDY(a) => match odmik(a) {
            Some(o) => Some(
                iz5(
                    Instr::Pop(Op::Reg(R::Rbx)),
                    Instr::ArOp(ArO::IMul, R::Rbx, Op::ImmS(8)),
                    Instr::Mov(rax, Op::Reg(R::R8)),
                    Instr::ArOp(ArO::Sub, R::Rax, Op::Reg(R::Rbx)),
                    Instr::Push(Op::Deref(Size::Qword, R::Rax, o)),
                ),
            ),
            None => None,
        },
        UkazPodatek::STOR(a) => match odmik(a) {
            Some(o) => Some(iz1(Instr::Pop(Op::Deref(Size::Qword, R::R8, o)))),
            None => None,
        },
        UkazPodatek::STOF(a) => match odmik(a) {
            Some(o) => Some(iz1(Instr::Pop(Op::Deref(Size::Qword, R::R9, o)))),
            None => None,
        },
        UkazPodatek::STDY(a) => match odmik(a) {
            Some(o) => Some(
                iz5(
                    Instr::Pop(Op::Reg(R::Rbx)),
                    Instr::ArOp(ArO::IMul, R::Rbx, Op::ImmS(8)),
                    Instr::Mov(rax, Op::Reg(R::R8)),
                    Instr::ArOp(ArO::Sub, R::Rax, Op::Reg(R::Rbx)),
                    Instr::Pop(Op::Deref(Size::Qword, R::Rax, o)),
                ),
            ),
            None => None,
        },
        UkazPodatek::TOP(a) => if -0x1000_0000 <= a && a < 0x1000_0000 {
            Some(
                iz2(
                    Instr::Mov(Op::Reg(R::R9), Op::Reg(R::Rsp)),
                    Instr::ArOp(ArO::Sub, R::R9, Op::ImmS(8 * a)),
                ),
            )
        } else {
            None
        },
        UkazPodatek::LOFF => Some(iz1(Instr::Push(Op::Reg(R::R9)))),
        UkazPodatek::SOFF => Some(iz1(Instr::Pop(Op::Reg(R::R9)))),
        UkazPodatek::ADDI | UkazPodatek::SUBI | UkazPodatek::MULI => {
            let op = match u {
                UkazPodatek::ADDI => ArO::Add,
                UkazPodatek::SUBI => ArO::Sub,
                _ => ArO::IMul,
            };
            Some(
                iz4(
                    Instr::Pop(Op::Reg(R::Rbx)),
                    Instr::Pop(rax),
                    Instr::ArOp(op, R::Rax, Op::Reg(R::Rbx)),
                    Instr::Push(rax),
                ),
            )
        },
        UkazPodatek::DIVI | UkazPodatek::MODI => {
            let izid = match u {
                UkazPodatek::DIVI => R::Rax,
                _ => R::Rdx,
            };
            Some(
                iz5(
                    Instr::Pop(Op::Reg(R::Rbx)),
                    Instr::Pop(rax),
                    Instr::Cdq,
                    Instr::IDiv(R::Ebx),
                    Instr::Push(Op::Reg(izid)),
                ),
            )
        },
        UkazPodatek::POWI => Some(
            iz5(
                Instr::Mov(rax, Op::ImmS(1)),
                Instr::Pop(Op::Reg(R::Rcx)),
                Instr::Pop(Op::Reg(R::Rbx)),
                Instr::Call(String::from_str("_powi")),
                Instr::Push(rax),
            ),
        ),
        UkazPodatek::BOR | UkazPodatek::BXOR | UkazPodatek::BAND | UkazPodatek::BSLL
        | UkazPodatek::BSLR => {
            let (op, r) = match u {
                UkazPodatek::BOR => (ArO::Or, R::Ecx),
                UkazPodatek::BXOR => (ArO::Xor, R::Ecx),
                UkazPodatek::BAND => (ArO::And, R::Ecx),
                UkazPodatek::BSLL => (ArO::Shl, R::Cl),
                _ => (ArO::Shr, R::Cl),
            };
            Some(
                iz4(
                    Instr::Pop(Op::Reg(R::Rcx)),
                    Instr::Pop(rax),
                    Instr::ArOp(op, R::Eax, Op::Reg(r)),
                    Instr::Push(rax),
                ),
            )
        },
        UkazPodatek::ADDF | UkazPodatek::SUBF | UkazPodatek::MULF | UkazPodatek::DIVF => {
            let vrh = Op::Deref(Size::Dword, R::Rsp, 0);
            let op = match u {
                UkazPodatek::ADDF => Instr::Fadd(vrh),
                UkazPodatek::SUBF => Instr::Fsub(vrh),
                UkazPodatek::MULF => Instr::Fmul(vrh),
                _ => Instr::Fdiv(vrh),
            };
            Some(
                iz4(
                    Instr::Fld(Op::Deref(Size::Dword, R::Rsp, 8)),
                    op,
                    Instr::Pop(Op::Deref(Size::Qword, R::Rsp, -8)),
                    Instr::Fstp(vrh),
                ),
            )
        },
        UkazPodatek::MODF => Some(
            iz5(
                Instr::Fld(Op::Deref(Size::Dword, R::Rsp, 0)),
                Instr::Fld(Op::Deref(Size::Dword, R::Rsp, 8)),
                Instr::Fprem,
                Instr::Pop(Op::Deref(Size::Qword, R::Rsp, -8)),
                Instr::Fstp(Op::Deref(Size::Dword, R::Rsp, 0)),
            ),
        ),
        UkazPodatek::POWF => Some(iz1(Instr::Macro("powf"))),
        UkazPodatek::FTOI => Some(
            iz2(
                Instr::Fld(Op::Deref(Size::Dword, R::Rsp, 0)),
                Instr::Fistp(Op::Deref(Size::Dword, R::Rsp, 0)),
            ),
        ),
        UkazPodatek::ITOF => Some(
            iz2(
                Instr::Fild(Op::Deref(Size::Dword, R::Rsp, 0)),
                Instr::Fstp(Op::Deref(Size::Dword, R::Rsp, 0)),
            ),
        ),
        UkazPodatek::PUTC => Some(iz2(Instr::Pop(rax), Instr::Call(String::from_str("_putc")))),
        UkazPodatek::GETC => Some(iz2(Instr::Call(String::from_str("_getc")), Instr::Push(rax))),
        UkazPodatek::ALOC(m) => Some(iz1(Instr::Aloc(m))),
        _ => None,
    }
}

/// The assembly of an instruction of the intermediate code.
fn izberi(u: &UkazPodatekRelative) -> (r: Option<Vec<Instr>>)
    ensures
        match r {
            Some(v) => izbira(u@) == Some(pogledi_instr(v@)),
            None => izbira(u@) is None,
        },
{
    let rax = Op::Reg(R::Rax);
    match u {
        UkazPodatekRelative::PUSHI(n) => Some(potisni(*n as u32)),
        UkazPodatekRelative::PUSHF(p) => Some(potisni(p.i as u32)),
        UkazPodatekRelative::PUSHC(c) => Some(potisni(v_utf8(*c) as u32)),
        UkazPodatekRelative::JUMPRel(l) => Some(iz1(Instr::Jmp(formatiraj_oznako(l.as_str())))),
        UkazPodatekRelative::JMPCRel(l) => Some(
            iz3(
                Instr::Pop(rax),
                Instr::Cmp(rax, Op::ImmS(0)),
                Instr::Jne(formatiraj_oznako(l.as_str())),
            ),
        ),
        UkazPodatekRelative::PC(_) => {
            let v: Vec<Instr> = Vec::new();
            assert(pogledi_instr(v@) =~= Seq::<InstrV>::empty());
            Some(v)
        },
        UkazPodatekRelative::CALL(l) => Some(iz1(Instr::Call(formatiraj_oznako(l.as_str())))),
        UkazPodatekRelative::Oznaka(l) => Some(iz1(Instr::Label(formatiraj_oznako(l.as_str())))),
        UkazPodatekRelative::STIMM(data, a, r) => match odmik(*a) {
            Some(o) => Some(iz1(Instr::Mov(Op::Deref(Size::Qword, *r, o), Op::ImmU(*data)))),
            None => None,
        },
        UkazPodatekRelative::LDOP(op, r1, r2, a1, a2) => match (odmik(*a1), odmik(*a2)) {
            (Some(o1), Some(o2)) => Some(
                iz4(
                    Instr::Mov(rax, Op::Deref(Size::Qword, *r1, o1)),
                    Instr::Mov(Op::Reg(R::Rbx), Op::Deref(Size::Qword, *r2, o2)),
                    Instr::ArOp(*op, R::Eax, Op::Reg(R::Ebx)),
                    Instr::Push(rax),
                ),
            ),
            _ => None,
        },
        UkazPodatekRelative::LDST(r1, r2, src, dst) => match odmik(*dst) {
            Some(o) => Some(
                iz2(
                    Instr::Mov(rax, Op::Deref(Size::Qword, *r1, *src)),
                    Instr::Mov(Op::Deref(Size::Qword, *r2, o), rax),
                ),
            ),
            None => None,
        },
        UkazPodatekRelative::Osnovni(o) => izberi_osnovni(*o),
        _ => None,
    }
}

/// The assembly of all the instructions `o`, one after the other; `None`
/// where one of them has none.
pub open spec fn izbira_vseh(o: Seq<UkazRelV>) -> Option<Seq<InstrV>>
    decreases o.len(),
{
    if o.len() == 0 {
        Some(Seq::empty())
    } else {
        match (izbira_vseh(o.drop_last()), izbira(o.last())) {
            (Some(a), Some(b)) => Some(a + b),
            _ => None,
        }
    }
}

/// The assembly of all the instructions `o`.
fn izberi_vse(o: &Vec<UkazPodatekRelative>) -> (r: Option<Vec<Instr>>)
    ensures
        match r {
            Some(v) => izbira_vseh(pogledi_ukazov(o@)) == Some(pogledi_instr(v@)),
            None => izbira_vseh(pogledi_ukazov(o@)) is None,
        },
{
    let mut zbirka: Vec<Instr> = Vec::new();
    let mut k: usize = 0;
    assert(pogledi_ukazov(o@).take(0) =~= Seq::<UkazRelV>::empty());
    assert(pogledi_instr(zbirka@) =~= Seq::<InstrV>::empty());
    while k < o.len()
        invariant
            0 <= k <= o@.len(),
            izbira_vseh(pogledi_ukazov(o@).take(k as int)) == Some(pogledi_instr(zbirka@)),
        decreases o@.len() - k,
    {
        let ghost p = pogledi_ukazov(o@);
        assert(p.take(k + 1).drop_last() =~= p.take(k as int));
        assert(p.take(k + 1).last() == o@[k as int]@);
        match izberi(&o[k]) {
            Some(mut v) => {
                let ghost prej = zbirka@;
                let ghost dodano = v@;
                zbirka.append(&mut v);
                assert(pogledi_instr(zbirka@) =~= pogledi_instr(prej) + pogledi_instr(dodano));
            },
            None => {
                proof {
                    lema_izbira_ne_uspe(p, k + 1);
                }
                return None;
            },
        }
        k = k + 1;
    }
    assert(pogledi_ukazov(o@).take(k as int) =~= pogledi_ukazov(o@));
    Some(zbirka)
}

/// Once an instruction has no assembly, no longer part of the code has.
proof fn lema_izbira_ne_uspe(o: Seq<UkazRelV>, k: int)
    requires
        0 <= k <= o.len(),
        izbira_vseh(o.take(k)) is None,
    ensures
        izbira_vseh(o) is None,
    decreases o.len() - k,
{
    if k < o.len() {
        assert(o.take(k + 1).drop_last() =~= o.take(k));
        lema_izbira_ne_uspe(o, k + 1);
    } else {
        assert(o.take(k) =~= o);
    }
}

/// The number that a push of a whole number, a character or a real number
/// pushes, as bits: a character as its UTF-8 bytes.
pub open spec fn vrednost_potiska(u: UkazRelV) -> i32 {
    match u {
        UkazRelV::PUSHI(a) => a,
        UkazRelV::PUSHC(c) => utf8_kot_i32(c),
        UkazRelV::PUSHF(p) => p.i,
        _ => 0,
    }
}

/// The arithmetic by which two pushed constants are folded into one: the
/// wrapping sum, difference, product, or (for `DIVF` too) quotient; `None`
/// for a division by zero.
pub open spec fn zlozi(op: UkazPodatek, a: i32, b: i32) -> Option<i32> {
    match op {
        UkazPodatek::ADDI => Some(wrapping_add(a, b)),
        UkazPodatek::SUBI => Some(wrapping_sub(a, b)),
        UkazPodatek::MULI => Some(wrapping_mul(a, b)),
        _ => if b == 0 {
            None
        } else {
            Some(deli_ovito(a, b))
        },
    }
}

/// Whether `u` loads a cell (`LOAD`, `LDOF`).
pub open spec fn nalaga(u: UkazRelV) -> bool {
    u matches UkazRelV::Osnovni(x) && (x is LOAD || x is LDOF)
}

/// Whether `u` stores into a cell (`STOR`, `STOF`).
pub open spec fn shranjuje(u: UkazRelV) -> bool {
    u matches UkazRelV::Osnovni(x) && (x is STOR || x is STOF)
}

/// Whether `u` pushes a constant.
pub open spec fn potiska(u: UkazRelV) -> bool {
    u is PUSHI || u is PUSHC || u is PUSHF
}

/// The address of a load or a store.
pub open spec fn naslov_celice(u: UkazRelV) -> i32 {
    match u {
        UkazRelV::Osnovni(UkazPodatek::LOAD(a)) => a,
        UkazRelV::Osnovni(UkazPodatek::LDOF(a)) => a,
        UkazRelV::Osnovni(UkazPodatek::STOR(a)) => a,
        UkazRelV::Osnovni(UkazPodatek::STOF(a)) => a,
        _ => 0,
    }
}

/// The register that holds the base of the cells of a load or a store: `r8`
/// for an address, `r9` for an offset.
pub open spec fn baza(u: UkazRelV) -> R {
    match u {
        UkazRelV::Osnovni(UkazPodatek::LDOF(_)) => R::R9,
        UkazRelV::Osnovni(UkazPodatek::STOF(_)) => R::R9,
        _ => R::R8,
    }
}

/// Whether `u` is an operation that two pushed constants are folded by.
pub open spec fn zlaga(u: UkazRelV) -> bool {
    u matches UkazRelV::Osnovni(x) && (x is ADDI || x is SUBI || x is MULI || x is DIVF)
}

/// Whether `u` is whole-number arithmetic of two loaded cells.
pub open spec fn racuna(u: UkazRelV) -> bool {
    u matches UkazRelV::Osnovni(x) && (x is ADDI || x is SUBI || x is MULI)
}

/// The operation of the processor for such arithmetic.
pub open spec fn operacija(u: UkazRelV) -> ArO {
    match u {
        UkazRelV::Osnovni(UkazPodatek::ADDI) => ArO::Add,
        UkazRelV::Osnovni(UkazPodatek::SUBI) => ArO::Sub,
        _ => ArO::IMul,
    }
}

/// Whether `u` is real-number arithmetic.
pub open spec fn realno_racuna(u: UkazRelV) -> bool {
    u matches UkazRelV::Osnovni(x) && (x is ADDF || x is SUBF || x is MULF || x is DIVF)
}

/// Looking back from index `j` for the push of a constant over stores of
/// constants: its index, `Some(None)` where something else comes first, and
/// `None` where the search runs past the start.
pub open spec fn poisci_potisk(o: Seq<UkazRelV>, j: int) -> Option<Option<int>>
    decreases j,
{
    if j < 0 {
        None
    } else if potiska(o[j]) {
        Some(Some(j))
    } else if o[j] is STIMM {
        if j == 0 {
            None
        } else {
            poisci_potisk(o, j - 1)
        }
    } else {
        Some(None)
    }
}

/// One step of shortening the code `o` at index `i`: the code after it and
/// the next index. Two pushed whole numbers or characters and an operation
/// become one push; two loads and arithmetic become one instruction; a
/// pushed constant and a store become one store of it; a load and a store
/// become one; a store of a constant and a store take the constant pushed
/// before. `None` where the step fails: a division by zero, a character
/// that is none, or an index before the start.
pub open spec fn korak_optimizacije(o: Seq<UkazRelV>, i: int) -> Option<(Seq<UkazRelV>, int)> {
    let a = o[i];
    let b = o[i + 1];
    let c = o[i + 2];
    let n = o.len() as int;
    if (a is PUSHI || a is PUSHC) && (b is PUSHI || b is PUSHC) && zlaga(c) {
        match zlozi(c->Osnovni_0, vrednost_potiska(a), vrednost_potiska(b)) {
            None => None,
            Some(r) => {
                let nov = if a is PUSHI && b is PUSHI {
                    Some(UkazRelV::PUSHI(r))
                } else if je_znak(r) {
                    Some(UkazRelV::PUSHC((r as u32) as char))
                } else {
                    None
                };
                match nov {
                    Some(u) => Some((o.subrange(0, i).push(u) + o.subrange(i + 3, n), i)),
                    None => None,
                }
            },
        }
    } else if n == i + 3 && a is PUSHF && b is PUSHF && realno_racuna(c) {
        Some((o.subrange(0, i + 1), i))
    } else if nalaga(a) && nalaga(b) && racuna(c) {
        let u = UkazRelV::LDOP(operacija(c), baza(a), baza(b), naslov_celice(a), naslov_celice(b));
        Some((o.subrange(0, i).push(u) + o.subrange(i + 3, n), i))
    } else if potiska(a) && shranjuje(b) {
        if i == 0 {
            None
        } else {
            let u = UkazRelV::STIMM(vrednost_potiska(a) as u32, naslov_celice(b), baza(b));
            Some((o.subrange(0, i).push(u) + o.subrange(i + 2, n), i - 1))
        }
    } else if nalaga(a) && shranjuje(b) {
        let u = UkazRelV::LDST(baza(a), baza(b), naslov_celice(a), naslov_celice(b));
        Some((o.subrange(0, i).push(u) + o.subrange(i + 2, n), i))
    } else if a is STIMM && shranjuje(b) {
        if i == 0 {
            None
        } else {
            match poisci_potisk(o, i - 1) {
                None => None,
                Some(None) => Some((o, i + 1)),
                Some(Some(j)) => {
                    let u = UkazRelV::STIMM(vrednost_potiska(o[j]) as u32, naslov_celice(b), baza(b));
                    Some((o.subrange(0, j) + o.subrange(j + 1, i + 1) + seq![u] + o.subrange(i + 2, n), i))
                },
            }
        }
    } else {
        Some((o, i + 1))
    }
}

/// The search back finds an index at or before where it starts.
pub proof fn lema_poisci_potisk(o: Seq<UkazRelV>, j: int)
    ensures
        poisci_potisk(o, j) matches Some(Some(k)) ==> 0 <= k <= j,
    decreases j,
{
    if j > 0 && !potiska(o[j]) && o[j] is STIMM {
        lema_poisci_potisk(o, j - 1);
    }
}

/// A step either shortens the code or moves on by one.
pub proof fn lema_korak_optimizacije(o: Seq<UkazRelV>, i: int)
    requires
        0 <= i,
        i + 2 < o.len(),
    ensures
        korak_optimizacije(o, i) matches Some((o2, i2)) ==> 0 <= i2 <= o2.len() && (o2.len() < o.len()
            || (o2.len() == o.len() && i2 == i + 1)),
{
    if i > 0 {
        lema_poisci_potisk(o, i - 1);
    }
}

/// The code `o` shortened step by step from index `i` on, while at least
/// three instructions are left from there; `None` where a step fails, or
/// fewer than two instructions are left.
pub open spec fn optimiziraj(o: Seq<UkazRelV>, i: int) -> Option<Seq<UkazRelV>>
    decreases o.len(), o.len() - i,
{
    if o.len() < 2 {
        None
    } else if i < 0 || i + 2 >= o.len() {
        Some(o)
    } else {
        proof {
            lema_korak_optimizacije(o, i);
        }
        match korak_optimizacije(o, i) {
            None => None,
            Some((o2, i2)) => optimiziraj(o2, i2),
        }
    }
}

/// The number that a push of a constant pushes, as bits.
fn vrednost(u: &UkazPodatekRelative) -> (r: i32)
    ensures
        r == vrednost_potiska(u@),
{
    match u {
        UkazPodatekRelative::PUSHI(a) => *a,
        UkazPodatekRelative::PUSHC(c) => v_utf8(*c),
        UkazPodatekRelative::PUSHF(p) => p.i,
        _ => 0,
    }
}

/// The instruction of the machine in `u`, if it is one.
fn osnovni(u: &UkazPodatekRelative) -> (r: Option<UkazPodatek>)
    ensures
        r == (if u@ is Osnovni {
            Some(u@->Osnovni_0)
        } else {
            None
        }),
{
    match u {
        UkazPodatekRelative::Osnovni(x) => Some(*x),
        _ => None,
    }
}

/// Whether `u` pushes a whole number.
fn je_pushi(u: &UkazPodatekRelative) -> (r: bool)
    ensures
        r == u@ is PUSHI,
{
    match u {
        UkazPodatekRelative::PUSHI(_) => true,
        _ => false,
    }
}

/// Whether `u` pushes a character.
fn je_pushc(u: &UkazPodatekRelative) -> (r: bool)
    ensures
        r == u@ is PUSHC,
{
    match u {
        UkazPodatekRelative::PUSHC(_) => true,
        _ => false,
    }
}

/// Whether `u` pushes a real number.
fn je_pushf(u: &UkazPodatekRelative) -> (r: bool)
    ensures
        r == u@ is PUSHF,
{
    match u {
        UkazPodatekRelative::PUSHF(_) => true,
        _ => false,
    }
}

/// Whether `u` stores a constant.
fn je_stimm(u: &UkazPodatekRelative) -> (r: bool)
    ensures
        r == u@ is STIMM,
{
    match u {
        UkazPodatekRelative::STIMM(..) => true,
        _ => false,
    }
}

/// Whether `u` loads a cell.
fn je_nalaganje(u: &UkazPodatekRelative) -> (r: bool)
    ensures
        r == nalaga(u@),
{
    match u {
        UkazPodatekRelative::Osnovni(UkazPodatek::LOAD(_)) => true,
        UkazPodatekRelative::Osnovni(UkazPodatek::LDOF(_)) => true,
        _ => false,
    }
}

/// Whether `u` stores into a cell.
fn je_shranjevanje(u: &UkazPodatekRelative) -> (r: bool)
    ensures
        r == shranjuje(u@),
{
    match u {
        UkazPodatekRelative::Osnovni(UkazPodatek::STOR(_)) => true,
        UkazPodatekRelative::Osnovni(UkazPodatek::STOF(_)) => true,
        _ => false,
    }
}

/// The address of a load or a store.
fn naslov(u: &UkazPodatekRelative) -> (r: i32)
    ensures
        r == naslov_celice(u@),
{
    match u {
        UkazPodatekRelative::Osnovni(UkazPodatek::LOAD(a)) => *a,
        UkazPodatekRelative::Osnovni(UkazPodatek::LDOF(a)) => *a,
        UkazPodatekRelative::Osnovni(UkazPodatek::STOR(a)) => *a,
        UkazPodatekRelative::Osnovni(UkazPodatek::STOF(a)) => *a,
        _ => 0,
    }
}

/// The base register of a load or a store.
fn baza_celic(u: &UkazPodatekRelative) -> (r: R)
    ensures
        r == baza(u@),
{
    match u {
        UkazPodatekRelative::Osnovni(UkazPodatek::LDOF(_)) => R::R9,
        UkazPodatekRelative::Osnovni(UkazPodatek::STOF(_)) => R::R9,
        _ => R::R8,
    }
}

/// Looks back from index `j` for the push of a constant over stores of
/// constants.
fn poisci(o: &Vec<UkazPodatekRelative>, j: usize) -> (r: Option<Option<usize>>)
    requires
        j < o@.len(),
    ensures
        match r {
            None => poisci_potisk(pogledi_ukazov(o@), j as int) is None,
            Some(None) => poisci_potisk(pogledi_ukazov(o@), j as int) == Some(None::<int>),
            Some(Some(k)) => poisci_potisk(pogledi_ukazov(o@), j as int) == Some(Some(k as int)),
        },
{
    let ghost p = pogledi_ukazov(o@);
    let mut k = j;
    loop
        invariant
            k <= j < o@.len(),
            p == pogledi_ukazov(o@),
            poisci_potisk(p, k as int) == poisci_potisk(p, j as int),
        decreases k,
    {
        assert(p[k as int] == o@[k as int]@);
        if je_pushi(&o[k]) || je_pushc(&o[k]) || je_pushf(&o[k]) {
            return Some(Some(k));
        } else if je_stimm(&o[k]) {
            if k == 0 {
                return None;
            }
            k = k - 1;
        } else {
            return Some(None);
        }
    }
}

/// The result of a step of shortening, as the step has it.
pub open spec fn izid_koraka(o: Seq<UkazRelV>, i: int, r: Option<usize>, o2: Seq<UkazRelV>) -> bool {
    match r {
        Some(i2) => korak_optimizacije(o, i) == Some((o2, i2 as int)),
        None => korak_optimizacije(o, i) is None,
    }
}

/// Folds two pushed whole numbers or characters and an operation into one
/// push.
fn zlozi_potiska(o: &mut Vec<UkazPodatekRelative>, i: usize, op: UkazPodatek) -> (r: Option<usize>)
    requires
        i + 2 < old(o)@.len(),
        ({
            let p = pogledi_ukazov(old(o)@);
            &&& (p[i as int] is PUSHI || p[i as int] is PUSHC)
            &&& (p[i + 1] is PUSHI || p[i + 1] is PUSHC)
            &&& zlaga(p[i + 2])
            &&& p[i + 2]->Osnovni_0 == op
        }),
    ensures
        izid_koraka(pogledi_ukazov(old(o)@), i as int, r, pogledi_ukazov(final(o)@)),
{
    let dolzina = o.len();
    let ghost p = pogledi_ukazov(o@);
    let ghost n = p.len() as int;
    assert(p[i as int] == o@[i as int]@);
    assert(p[i + 1] == o@[i + 1]@);
    let x = vrednost(&o[i]);
    let y = vrednost(&o[i + 1]);
    let rez: i32 = match op {
        UkazPodatek::ADDI => x.wrapping_add(y),
        UkazPodatek::SUBI => x.wrapping_sub(y),
        UkazPodatek::MULI => x.wrapping_mul(y),
        _ => {
            if y == 0 {
                return None;
            }
            deli_i32(x, y)
        },
    };
    let nov = if je_pushi(&o[i]) && je_pushi(&o[i + 1]) {
        UkazPodatekRelative::PUSHI(rez)
    } else {
        if rez < 0 {
            return None;
        }
        match znak_iz_stevila(rez as u32) {
            Some(ch) => UkazPodatekRelative::PUSHC(ch),
            None => {
                return None;
            },
        }
    };
    let ghost nv = nov@;
    o.set(i, nov);
    o.remove(i + 1);
    o.remove(i + 1);
    assert(pogledi_ukazov(o@) =~= p.subrange(0, i as int).push(nv) + p.subrange(i + 3, n));
    Some(i)
}

/// Replaces the instructions from `i` to `i + k - 1` by `nov`.
fn zamenjaj(o: &mut Vec<UkazPodatekRelative>, i: usize, k: usize, nov: UkazPodatekRelative)
    requires
        1 <= k <= 3,
        i + k <= old(o)@.len(),
    ensures
        pogledi_ukazov(final(o)@) == pogledi_ukazov(old(o)@).subrange(0, i as int).push(nov@)
            + pogledi_ukazov(old(o)@).subrange(i + k, old(o)@.len() as int),
{
    let dolzina = o.len();
    let ghost p = pogledi_ukazov(o@);
    let ghost nv = nov@;
    o.set(i, nov);
    if k >= 2 {
        o.remove(i + 1);
    }
    if k >= 3 {
        o.remove(i + 1);
    }
    assert(pogledi_ukazov(o@) =~= p.subrange(0, i as int).push(nv) + p.subrange(i + k, p.len() as int));
}

/// Moves a pushed constant found back at `j` into a store of it at `i + 1`,
/// after the store of a constant at `i`.
fn prenesi_potisk(o: &mut Vec<UkazPodatekRelative>, i: usize, j: usize) -> (r: Option<usize>)
    requires
        0 < i,
        i + 2 < old(o)@.len(),
        ({
            let p = pogledi_ukazov(old(o)@);
            &&& p[i as int] is STIMM
            &&& shranjuje(p[i + 1])
            &&& !((p[i as int] is PUSHI || p[i as int] is PUSHC) && (p[i + 1] is PUSHI || p[i + 1] is PUSHC)
                && zlaga(p[i + 2]))
            &&& !(p.len() == i + 3 && p[i as int] is PUSHF && p[i + 1] is PUSHF && realno_racuna(p[i + 2]))
            &&& !(nalaga(p[i as int]) && nalaga(p[i + 1]) && racuna(p[i + 2]))
            &&& poisci_potisk(p, i - 1) == Some(Some(j as int))
        }),
    ensures
        izid_koraka(pogledi_ukazov(old(o)@), i as int, r, pogledi_ukazov(final(o)@)),
{
    let dolzina = o.len();
    let ghost p = pogledi_ukazov(o@);
    let ghost n = p.len() as int;
    proof {
        lema_poisci_potisk(p, i - 1);
    }
    assert(p[j as int] == o@[j as int]@);
    assert(p[i + 1] == o@[i + 1]@);
    let nov = UkazPodatekRelative::STIMM(vrednost(&o[j]) as u32, naslov(&o[i + 1]), baza_celic(&o[i + 1]));
    let ghost nv = nov@;
    o.remove(j);
    o.remove(i);
    o.insert(i, nov);
    assert(pogledi_ukazov(o@) =~= p.subrange(0, j as int) + p.subrange(j + 1, i + 1) + seq![nv]
        + p.subrange(i + 2, n));
    Some(i)
}

/// One step of shortening the code at index `i`; the next index, or `None`
/// where the step fails.
fn korak(o: &mut Vec<UkazPodatekRelative>, i: usize) -> (r: Option<usize>)
    requires
        i + 2 < old(o)@.len(),
    ensures
        izid_koraka(pogledi_ukazov(old(o)@), i as int, r, pogledi_ukazov(final(o)@)),
{
    let dolzina = o.len();
    let ghost p = pogledi_ukazov(o@);
    let ghost n = p.len() as int;
    assert(p[i as int] == o@[i as int]@);
    assert(p[i + 1] == o@[i + 1]@);
    assert(p[i + 2] == o@[i + 2]@);
    let op_c = osnovni(&o[i + 2]);
    let zlaga_c = match op_c {
        Some(UkazPodatek::ADDI) | Some(UkazPodatek::SUBI) | Some(UkazPodatek::MULI) | Some(
            UkazPodatek::DIVF,
        ) => true,
        _ => false,
    };
    if (je_pushi(&o[i]) || je_pushc(&o[i])) && (je_pushi(&o[i + 1]) || je_pushc(&o[i + 1]))
        && zlaga_c {
        let op = match op_c {
            Some(x) => x,
            None => UkazPodatek::NOOP,
        };
        return zlozi_potiska(o, i, op);
    }
    let real_c = match op_c {
        Some(UkazPodatek::ADDF) | Some(UkazPodatek::SUBF) | Some(UkazPodatek::MULF) | Some(
            UkazPodatek::DIVF,
        ) => true,
        _ => false,
    };
    if dolzina == i + 3 && je_pushf(&o[i]) && je_pushf(&o[i + 1]) && real_c {
        o.remove(i + 1);
        o.remove(i + 1);
        assert(pogledi_ukazov(o@) =~= p.subrange(0, i + 1));
        return Some(i);
    }
    let racuna_c = match op_c {
        Some(UkazPodatek::ADDI) | Some(UkazPodatek::SUBI) | Some(UkazPodatek::MULI) => true,
        _ => false,
    };
    if je_nalaganje(&o[i]) && je_nalaganje(&o[i + 1]) && racuna_c {
        let op = match op_c {
            Some(UkazPodatek::ADDI) => ArO::Add,
            Some(UkazPodatek::SUBI) => ArO::Sub,
            _ => ArO::IMul,
        };
        let nov = UkazPodatekRelative::LDOP(
            op,
            baza_celic(&o[i]),
            baza_celic(&o[i + 1]),
            naslov(&o[i]),
            naslov(&o[i + 1]),
        );
        zamenjaj(o, i, 3, nov);
        return Some(i);
    }
    if (je_pushi(&o[i]) || je_pushc(&o[i]) || je_pushf(&o[i])) && je_shranjevanje(&o[i + 1]) {
        if i == 0 {
            return None;
        }
        let nov = UkazPodatekRelative::STIMM(vrednost(&o[i]) as u32, naslov(&o[i + 1]), baza_celic(&o[i + 1]));
        zamenjaj(o, i, 2, nov);
        return Some(i - 1);
    }
    if je_nalaganje(&o[i]) && je_shranjevanje(&o[i + 1]) {
        let nov = UkazPodatekRelative::LDST(
            baza_celic(&o[i]),
            baza_celic(&o[i + 1]),
            naslov(&o[i]),
            naslov(&o[i + 1]),
        );
        zamenjaj(o, i, 2, nov);
        return Some(i);
    }
    if je_stimm(&o[i]) && je_shranjevanje(&o[i + 1]) {
        if i == 0 {
            return None;
        }
        return match poisci(o, i - 1) {
            None => None,
            Some(None) => Some(i + 1),
            Some(Some(j)) => prenesi_potisk(o, i, j),
        };
    }
    Some(i + 1)
}

/// Shortens the code step by step, from its start; `None` where a step
/// fails or fewer than two instructions are left.
fn optimiziraj_kodo(koda: Vec<UkazPodatekRelative>) -> (r: Option<Vec<UkazPodatekRelative>>)
    ensures
        match r {
            Some(v) => optimiziraj(pogledi_ukazov(koda@), 0) == Some(pogledi_ukazov(v@)),
            None => optimiziraj(pogledi_ukazov(koda@), 0) is None,
        },
{
    let ghost zacetek = pogledi_ukazov(koda@);
    let mut o = koda;
    let mut i: usize = 0;
    loop
        invariant
            zacetek == pogledi_ukazov(koda@),
            i <= o@.len(),
            optimiziraj(pogledi_ukazov(o@), i as int) == optimiziraj(zacetek, 0),
        decreases o@.len(), o@.len() - i,
    {
        assert(pogledi_ukazov(o@).len() == o@.len());
        if o.len() < 2 {
            assert(optimiziraj(pogledi_ukazov(o@), i as int) is None);
            return None;
        }
        if i >= o.len() - 2 {
            assert(optimiziraj(pogledi_ukazov(o@), i as int) == Some(pogledi_ukazov(o@)));
            return Some(o);
        }
        proof {
            lema_korak_optimizacije(pogledi_ukazov(o@), i as int);
        }
        match korak(&mut o, i) {
            None => {
                return None;
            },
            Some(i2) => {
                i = i2;
            },
        }
    }
}

/// Looking back from index `j` over moves into registers other than `r8`
/// and `r9` for the push of an immediate: its index and the immediate,
/// `Some(None)` where something else comes first, and `None` where the
/// search runs past the start.
pub open spec fn poisci_takojsnjega(a: Seq<InstrV>, j: int) -> Option<Option<(int, Op)>>
    decreases j,
{
    if j < 0 {
        None
    } else if a[j] is Push && (a[j]->Push_0 is ImmS || a[j]->Push_0 is ImmU) {
        Some(Some((j, a[j]->Push_0)))
    } else if a[j] is Mov && a[j]->Mov_0 is Reg && a[j]->Mov_0->Reg_0 != R::R8 && a[j]->Mov_0->Reg_0
        != R::R9 {
        if j == 0 {
            None
        } else {
            poisci_takojsnjega(a, j - 1)
        }
    } else {
        Some(None)
    }
}

/// One step of shortening the assembly `a` at index `i`: the assembly after
/// it and the next index. A push and a pop of the same operand go; a push
/// and a pop into a register become a move; a move into a register and a pop
/// into a register take the immediate pushed before the moves. `None` where
/// the search runs past the start.
pub open spec fn korak_poenostavitve(a: Seq<InstrV>, i: int) -> Option<(Seq<InstrV>, int)> {
    let x = a[i];
    let y = a[i + 1];
    let n = a.len() as int;
    if x is Push && y is Pop && x->Push_0 == y->Pop_0 {
        Some((a.subrange(0, i) + a.subrange(i + 2, n), i))
    } else if x is Push && y is Pop && y->Pop_0 is Reg {
        Some((a.subrange(0, i).push(InstrV::Mov(y->Pop_0, x->Push_0)) + a.subrange(i + 2, n), i))
    } else if x is Mov && x->Mov_0 is Reg && y is Pop && y->Pop_0 is Reg {
        match poisci_takojsnjega(a, i) {
            None => None,
            Some(None) => Some((a, i + 1)),
            Some(Some((j, v))) => Some(
                (
                    a.subrange(0, j) + a.subrange(j + 1, i + 1) + seq![InstrV::Mov(y->Pop_0, v)]
                        + a.subrange(i + 2, n),
                    i,
                ),
            ),
        }
    } else {
        Some((a, i + 1))
    }
}

/// The search back finds an index before where it starts, when it starts at
/// a move.
pub proof fn lema_poisci_takojsnjega(a: Seq<InstrV>, j: int)
    ensures
        poisci_takojsnjega(a, j) matches Some(Some((k, v))) ==> 0 <= k <= j && a[k] == InstrV::Push(v),
    decreases j,
{
    if j > 0 {
        lema_poisci_takojsnjega(a, j - 1);
    }
}

/// A step either shortens the assembly or moves on by one.
pub proof fn lema_korak_poenostavitve(a: Seq<InstrV>, i: int)
    requires
        0 <= i,
        i + 2 < a.len(),
    ensures
        korak_poenostavitve(a, i) matches Some((a2, i2)) ==> 0 <= i2 <= a2.len() && (a2.len() < a.len()
            || (a2.len() == a.len() && i2 == i + 1)),
{
    lema_poisci_takojsnjega(a, i);
    if a[i] is Mov {
        if let Some(Some((j, v))) = poisci_takojsnjega(a, i) {
            assert(j != i);
        }
    }
}

/// The assembly `a` shortened step by step from index `i` on, while at
/// least three instructions are left from there; `None` where a step fails,
/// or fewer than two instructions are left.
pub open spec fn poenostavi(a: Seq<InstrV>, i: int) -> Option<Seq<InstrV>>
    decreases a.len(), a.len() - i,
{
    if a.len() < 2 {
        None
    } else if i < 0 || i + 2 >= a.len() {
        Some(a)
    } else {
        proof {
            lema_korak_poenostavitve(a, i);
        }
        match korak_poenostavitve(a, i) {
            None => None,
            Some((a2, i2)) => poenostavi(a2, i2),
        }
    }
}

/// The lines of the assembly `a`, one after the other.
pub open spec fn zlepi(a: Seq<InstrV>) -> Seq<char>
    decreases a.len(),
{
    if a.len() == 0 {
        Seq::empty()
    } else {
        zlepi(a.drop_last()) + besedilo_ukaza(a.last())
    }
}

/// What the assembly begins with: the file of the runtime's start.
pub open spec fn glava() -> Seq<char> {
    "\ninclude \"header.asm\"\n\n"@
}

/// What the assembly ends with: the file of the runtime's routines.
pub open spec fn noga() -> Seq<char> {
    "\ninclude \"footer.asm\"\n"@
}

/// The assembly for FASM of the intermediate code `o`: the code shortened,
/// each instruction's assembly, the assembly shortened, and its lines
/// between the start and the routines of the runtime. `None` where a step
/// fails, an instruction has no assembly, or an offset cannot be written.
pub open spec fn v_fasm(o: Seq<UkazRelV>) -> Option<Seq<char>> {
    match optimiziraj(o, 0) {
        None => None,
        Some(o2) => match izbira_vseh(o2) {
            None => None,
            Some(a) => match poenostavi(a, 0) {
                None => None,
                Some(a2) => if forall|k: int| 0 <= k < a2.len() ==> zapisljiva(#[trigger] a2[k]) {
                    Some(glava() + zlepi(a2) + noga())
                } else {
                    None
                },
            },
        },
    }
}

/// The result of a step of shortening the assembly, as the step has it.
pub open spec fn izid_poenostavitve(a: Seq<InstrV>, i: int, r: Option<usize>, a2: Seq<InstrV>) -> bool {
    match r {
        Some(i2) => korak_poenostavitve(a, i) == Some((a2, i2 as int)),
        None => korak_poenostavitve(a, i) is None,
    }
}

/// The operand pushed by `u`, if it is a push.
fn potisnjeni(u: &Instr) -> (r: Option<Op>)
    ensures
        r == (if u@ is Push {
            Some(u@->Push_0)
        } else {
            None
        }),
{
    match u {
        Instr::Push(x) => Some(*x),
        _ => None,
    }
}

/// The operand popped into by `u`, if it is a pop.
fn odvzeti(u: &Instr) -> (r: Option<Op>)
    ensures
        r == (if u@ is Pop {
            Some(u@->Pop_0)
        } else {
            None
        }),
{
    match u {
        Instr::Pop(x) => Some(*x),
        _ => None,
    }
}

/// The register moved into by `u`, if it is a move into a register.
fn premik_v_register(u: &Instr) -> (r: Option<R>)
    ensures
        r == (if u@ is Mov && u@->Mov_0 is Reg {
            Some(u@->Mov_0->Reg_0)
        } else {
            None
        }),
{
    match u {
        Instr::Mov(Op::Reg(g), _) => Some(*g),
        _ => None,
    }
}

/// Looks back from index `j` for the push of an immediate over moves into
/// registers other than `r8` and `r9`.
fn poisci_imm(a: &Vec<Instr>, j: usize) -> (r: Option<Option<(usize, Op)>>)
    requires
        j < a@.len(),
    ensures
        match r {
            None => poisci_takojsnjega(pogledi_instr(a@), j as int) is None,
            Some(None) => poisci_takojsnjega(pogledi_instr(a@), j as int) == Some(None::<(int, Op)>),
            Some(Some((k, v))) => poisci_takojsnjega(pogledi_instr(a@), j as int) == Some(
                Some((k as int, v)),
            ),
        },
{
    let ghost p = pogledi_instr(a@);
    let mut k = j;
    loop
        invariant
            k <= j < a@.len(),
            p == pogledi_instr(a@),
            poisci_takojsnjega(p, k as int) == poisci_takojsnjega(p, j as int),
        decreases k,
    {
        assert(p[k as int] == a@[k as int]@);
        match potisnjeni(&a[k]) {
            Some(x) => {
                match x {
                    Op::ImmS(_) | Op::ImmU(_) => {
                        return Some(Some((k, x)));
                    },
                    _ => {
                        return Some(None);
                    },
                }
            },
            None => {},
        }
        match premik_v_register(&a[k]) {
            Some(g) => {
                if g == R::R8 || g == R::R9 {
                    return Some(None);
                }
                if k == 0 {
                    return None;
                }
                k = k - 1;
            },
            None => {
                return Some(None);
            },
        }
    }
}

/// One step of shortening the assembly at index `i`; the next index, or
/// `None` where the search runs past the start.
fn korak_zbirke(a: &mut Vec<Instr>, i: usize) -> (r: Option<usize>)
    requires
        i + 2 < old(a)@.len(),
    ensures
        izid_poenostavitve(pogledi_instr(old(a)@), i as int, r, pogledi_instr(final(a)@)),
{
    let dolzina = a.len();
    let ghost p = pogledi_instr(a@);
    let ghost n = p.len() as int;
    assert(p[i as int] == a@[i as int]@);
    assert(p[i + 1] == a@[i + 1]@);
    let x = potisnjeni(&a[i]);
    let y = odvzeti(&a[i + 1]);
    match (x, y) {
        (Some(v), Some(w)) => {
            if v == w {
                a.remove(i);
                a.remove(i);
                assert(pogledi_instr(a@) =~= p.subrange(0, i as int) + p.subrange(i + 2, n));
                return Some(i);
            }
            match w {
                Op::Reg(g) => {
                    let nov = Instr::Mov(Op::Reg(g), v);
                    let ghost nv = nov@;
                    a.set(i, nov);
                    a.remove(i + 1);
                    assert(pogledi_instr(a@) =~= p.subrange(0, i as int).push(nv) + p.subrange(i + 2, n));
                    return Some(i);
                },
                _ => {
                    return Some(i + 1);
                },
            }
        },
        _ => {},
    }
    match (premik_v_register(&a[i]), y) {
        (Some(_), Some(Op::Reg(g))) => {
            match poisci_imm(a, i) {
                None => None,
                Some(None) => Some(i + 1),
                Some(Some((j, v))) => {
                    proof {
                        lema_poisci_takojsnjega(p, i as int);
                    }
                    let nov = Instr::Mov(Op::Reg(g), v);
                    let ghost nv = nov@;
                    a.remove(j);
                    a.remove(i);
                    a.insert(i, nov);
                    assert(pogledi_instr(a@) =~= p.subrange(0, j as int) + p.subrange(j + 1, i + 1) + seq![nv]
                        + p.subrange(i + 2, n));
                    Some(i)
                },
            }
        },
        _ => Some(i + 1),
    }
}

/// Shortens the assembly step by step, from its start; `None` where a step
/// fails or fewer than two instructions are left.
fn poenostavi_zbirko(zbirka: Vec<Instr>) -> (r: Option<Vec<Instr>>)
    ensures
        match r {
            Some(v) => poenostavi(pogledi_instr(zbirka@), 0) == Some(pogledi_instr(v@)),
            None => poenostavi(pogledi_instr(zbirka@), 0) is None,
        },
{
    let ghost zacetek = pogledi_instr(zbirka@);
    let mut a = zbirka;
    let mut i: usize = 0;
    loop
        invariant
            zacetek == pogledi_instr(zbirka@),
            i <= a@.len(),
            poenostavi(pogledi_instr(a@), i as int) == poenostavi(zacetek, 0),
        decreases a@.len(), a@.len() - i,
    {
        assert(pogledi_instr(a@).len() == a@.len());
        if a.len() < 2 {
            assert(poenostavi(pogledi_instr(a@), i as int) is None);
            return None;
        }
        if i >= a.len() - 2 {
            assert(poenostavi(pogledi_instr(a@), i as int) == Some(pogledi_instr(a@)));
            return Some(a);
        }
        proof {
            lema_korak_poenostavitve(pogledi_instr(a@), i as int);
        }
        match korak_zbirke(&mut a, i) {
            None => {
                return None;
            },
            Some(i2) => {
                i = i2;
            },
        }
    }
}

/// Whether the operand can be written.
fn zapisljiv_operand(o: Op) -> (r: bool)
    ensures
        r == crate::fasm::zapisljiv(o),
{
    match o {
        Op::Deref(_, _, odmik) => odmik != i32::MIN,
        _ => true,
    }
}

/// Whether every operand of the instruction can be written.
fn zapisljiv_ukaz(u: &Instr) -> (r: bool)
    ensures
        r == zapisljiva(u@),
{
    match u {
        Instr::Mov(a, b) | Instr::Cmp(a, b) => zapisljiv_operand(*a) && zapisljiv_operand(*b),
        Instr::Push(a) | Instr::Pop(a) | Instr::ArOp(_, _, a) | Instr::Fld(a) | Instr::Fild(a) | Instr::Fstp(
            a,
        )
        | Instr::Fistp(a) | Instr::Fadd(a) | Instr::Fsub(a) | Instr::Fmul(a) | Instr::Fdiv(a) => zapisljiv_operand(
            *a,
        ),
        _ => true,
    }
}

/// The assembly of the instructions `a` between the start and the routines
/// of the runtime; `None` where an operand cannot be written.
fn besedilo_zbirke(a: &Vec<Instr>) -> (r: Option<String>)
    ensures
        match r {
            Some(s) => (forall|k: int| 0 <= k < a@.len() ==> zapisljiva(#[trigger] pogledi_instr(a@)[k]))
                && s@ == glava() + zlepi(pogledi_instr(a@)) + noga(),
            None => exists|k: int| 0 <= k < a@.len() && !zapisljiva(#[trigger] pogledi_instr(a@)[k]),
        },
{
    let ghost p = pogledi_instr(a@);
    let mut s = String::from_str("\ninclude \"header.asm\"\n\n");
    let mut k: usize = 0;
    assert(p.take(0) =~= Seq::<InstrV>::empty());
    while k < a.len()
        invariant
            p == pogledi_instr(a@),
            0 <= k <= a@.len(),
            forall|j: int| 0 <= j < k ==> zapisljiva(#[trigger] p[j]),
            s@ == glava() + zlepi(p.take(k as int)),
        decreases a@.len() - k,
    {
        assert(p[k as int] == a@[k as int]@);
        if !zapisljiv_ukaz(&a[k]) {
            return None;
        }
        let vrstica = a[k].to_string();
        s.append(vrstica.as_str());
        assert(p.take(k + 1).drop_last() =~= p.take(k as int));
        assert(s@ =~= glava() + zlepi(p.take(k + 1)));
        k = k + 1;
    }
    assert(p.take(k as int) =~= p);
    s.append("\ninclude \"footer.asm\"\n");
    Some(s)
}

/// A copy of the intermediate code.
fn kopija_kode(o: &Vec<UkazPodatekRelative>) -> (r: Vec<UkazPodatekRelative>)
    ensures
        pogledi_ukazov(r@) == pogledi_ukazov(o@),
{
    let mut r: Vec<UkazPodatekRelative> = Vec::new();
    let mut k: usize = 0;
    while k < o.len()
        invariant
            0 <= k <= o@.len(),
            pogledi_ukazov(r@) == pogledi_ukazov(o@).take(k as int),
        decreases o@.len() - k,
    {
        let ghost prej = r@;
        assert(pogledi_ukazov(prej).len() == prej.len());
        assert(prej.len() == k);
        let c = o[k].kopija();
        let ghost cv = c@;
        r.push(c);
        assert(r@.len() == prej.len() + 1);
        assert(r@[k as int]@ == cv);
        assert(cv == pogledi_ukazov(o@)[k as int]);
        assert(pogledi_ukazov(r@) =~= pogledi_ukazov(prej).push(cv));
        assert(pogledi_ukazov(r@) =~= pogledi_ukazov(o@).take(k + 1));
        k = k + 1;
    }
    assert(pogledi_ukazov(o@).take(k as int) =~= pogledi_ukazov(o@));
    r
}

/// Turning intermediate code into assembly for FASM.
pub trait ToFasmX86 {
    /// The assembly of the code; `None` where it has none.
    fn v_fasm_x86(&self) -> Option<String>;
}

impl ToFasmX86 for Vec<UkazPodatekRelative> {
    /// The assembly for FASM of the intermediate code (see `v_fasm`): the
    /// code shortened, each instruction's assembly, and the assembly
    /// shortened. `None` where a step fails (a division by zero, a folded
    /// character that is none, a search back past the start, fewer than two
    /// instructions left), an instruction has no assembly, or an offset
    /// cannot be written.
    fn v_fasm_x86(&self) -> (r: Option<String>)
        ensures
            match r {
                Some(s) => v_fasm(pogledi_ukazov(self@)) == Some(s@),
                None => v_fasm(pogledi_ukazov(self@)) is None,
            },
    {
        let koda = kopija_kode(self);
        let koda = match optimiziraj_kodo(koda) {
            Some(k) => k,
            None => {
                return None;
            },
        };
        let zbirka = match izberi_vse(&koda) {
            Some(z) => z,
            None => {
                return None;
            },
        };
        let zbirka = match poenostavi_zbirko(zbirka) {
            Some(z) => z,
            None => {
                return None;
            },
        };
        besedilo_zbirke(&zbirka)
    }
}

/// Every listing of the back end begins with the start of the runtime and
/// ends with its routines.
pub proof fn zakon_glava_in_noga(o: Seq<UkazRelV>)
    requires
        v_fasm(o) is Some,
    ensures
        v_fasm(o)->0.len() >= glava().len() + noga().len(),
        v_fasm(o)->0.subrange(0, glava().len() as int) == glava(),
        v_fasm(o)->0.subrange(v_fasm(o)->0.len() - noga().len(), v_fasm(o)->0.len() as int) == noga(),
{
    let a2 = poenostavi(izbira_vseh(optimiziraj(o, 0)->0)->0, 0)->0;
    let s = v_fasm(o)->0;
    assert(s == glava() + zlepi(a2) + noga());
    assert(s.subrange(0, glava().len() as int) =~= glava());
    assert(s.subrange(s.len() - noga().len(), s.len() as int) =~= noga());
}

} // verus!
