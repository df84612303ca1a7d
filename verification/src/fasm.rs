//! The x86-64 instructions that the native back end writes for FASM, and how
//! each is written as a line of assembly.

use crate::besedilo::{desetisko, desetisko_celo, dodaj_desetisko_celo, dodaj_znak};
use vstd::prelude::*;
use vstd::string::StringExecFns;

verus! {

/// A register.
#[derive(Debug, Clone, Copy, PartialEq, Eq, Structural)]
pub enum R {
    Rax,
    Eax,
    Al,
    Rbx,
    Ebx,
    Bl,
    Rcx,
    Ecx,
    Cl,
    Rdx,
    Rdi,
    Rsi,
    R8,
    R9,
    Rsp,
}

/// An arithmetic or logic operation on a register.
#[derive(Debug, Clone, Copy, PartialEq, Eq)]
pub enum ArO {
    Add,
    Sub,
    IMul,
    Or,
    Xor,
    And,
    Shl,
    Shr,
}

/// The size of a memory operand.
#[derive(Debug, Clone, Copy, PartialEq, Eq, Structural)]
pub enum Size {
    Dword,
    Qword,
}

/// An operand: an unsigned or a signed immediate, a register, or memory at
/// a register plus an offset.
#[derive(Debug, Clone, Copy, PartialEq, Eq, Structural)]
pub enum Op {
    ImmU(u32),
    ImmS(i32),
    Reg(R),
    Deref(Size, R, i32),
}

/// An instruction, a label or a macro of the assembly.
#[derive(Debug, Clone, PartialEq)]
pub enum Instr {
    Label(String),
    Macro(&'static str),
    Aloc(i32),
    Nop,
    Ret,
    Mov(Op, Op),
    Push(Op),
    Pop(Op),
    ArOp(ArO, R, Op),
    IDiv(R),
    Cdq,
    Cmp(Op, Op),
    Setg(R),
    Sete(R),
    Setne(R),
    Jmp(String),
    Jne(String),
    Jl(String),
    Call(String),
    Syscall,
    Fld(Op),
    Fild(Op),
    Fstp(Op),
    Fistp(Op),
    Fadd(Op),
    Fsub(Op),
    Fmul(Op),
    Fdiv(Op),
    Fprem,
}

/// The value of an instruction: its labels and macro as characters.
pub ghost enum InstrV {
    Label(Seq<char>),
    Macro(Seq<char>),
    Aloc(i32),
    Nop,
    Ret,
    Mov(Op, Op),
    Push(Op),
    Pop(Op),
    ArOp(ArO, R, Op),
    IDiv(R),
    Cdq,
    Cmp(Op, Op),
    Setg(R),
    Sete(R),
    Setne(R),
    Jmp(Seq<char>),
    Jne(Seq<char>),
    Jl(Seq<char>),
    Call(Seq<char>),
    Syscall,
    Fld(Op),
    Fild(Op),
    Fstp(Op),
    Fistp(Op),
    Fadd(Op),
    Fsub(Op),
    Fmul(Op),
    Fdiv(Op),
    Fprem,
}

impl View for Instr {
    type V = InstrV;

    open spec fn view(&self) -> InstrV {
        match self {
            Instr::Label(l) => InstrV::Label(l@),
            Instr::Macro(t) => InstrV::Macro(t@),
            Instr::Aloc(m) => InstrV::Aloc(*m),
            Instr::Nop => InstrV::Nop,
            Instr::Ret => InstrV::Ret,
            Instr::Mov(a, b) => InstrV::Mov(*a, *b),
            Instr::Push(a) => InstrV::Push(*a),
            Instr::Pop(a) => InstrV::Pop(*a),
            Instr::ArOp(o, r, b) => InstrV::ArOp(*o, *r, *b),
            Instr::IDiv(r) => InstrV::IDiv(*r),
            Instr::Cdq => InstrV::Cdq,
            Instr::Cmp(a, b) => InstrV::Cmp(*a, *b),
            Instr::Setg(r) => InstrV::Setg(*r),
            Instr::Sete(r) => InstrV::Sete(*r),
            Instr::Setne(r) => InstrV::Setne(*r),
            Instr::Jmp(l) => InstrV::Jmp(l@),
            Instr::Jne(l) => InstrV::Jne(l@),
            Instr::Jl(l) => InstrV::Jl(l@),
            Instr::Call(l) => InstrV::Call(l@),
            Instr::Syscall => InstrV::Syscall,
            Instr::Fld(a) => InstrV::Fld(*a),
            Instr::Fild(a) => InstrV::Fild(*a),
            Instr::Fstp(a) => InstrV::Fstp(*a),
            Instr::Fistp(a) => InstrV::Fistp(*a),
            Instr::Fadd(a) => InstrV::Fadd(*a),
            Instr::Fsub(a) => InstrV::Fsub(*a),
            Instr::Fmul(a) => InstrV::Fmul(*a),
            Instr::Fdiv(a) => InstrV::Fdiv(*a),
            Instr::Fprem => InstrV::Fprem,
        }
    }
}

/// The values of the instructions `v`.
pub open spec fn pogledi_instr(v: Seq<Instr>) -> Seq<InstrV> {
    v.map_values(|i: Instr| i@)
}

/// The name of a register.
pub open spec fn ime_registra(r: R) -> Seq<char> {
    match r {
        R::Rax => "rax"@,
        R::Eax => "eax"@,
        R::Al => "al"@,
        R::Rbx => "rbx"@,
        R::Ebx => "ebx"@,
        R::Bl => "bl"@,
        R::Rcx => "rcx"@,
        R::Cl => "cl"@,
        R::Ecx => "ecx"@,
        R::Rdx => "rdx"@,
        R::Rsi => "rsi"@,
        R::Rdi => "rdi"@,
        R::R8 => "r8"@,
        R::R9 => "r9"@,
        R::Rsp => "rsp"@,
    }
}

/// The mnemonic of an operation, padded to four characters.
pub open spec fn ime_operacije(o: ArO) -> Seq<char> {
    match o {
        ArO::Add => "add "@,
        ArO::Sub => "sub "@,
        ArO::IMul => "imul"@,
        ArO::Or => "or  "@,
        ArO::Xor => "xor "@,
        ArO::And => "and "@,
        ArO::Shl => "shl "@,
        ArO::Shr => "shr "@,
    }
}

/// The name of a size.
pub open spec fn ime_velikosti(s: Size) -> Seq<char> {
    match s {
        Size::Dword => "dword"@,
        Size::Qword => "qword"@,
    }
}

/// The hexadecimal digit, in upper case, for a value below sixteen.
pub open spec fn heks_stevka(d: nat) -> char {
    if d < 10 {
        (48 + d) as char
    } else {
        (55 + d) as char
    }
}

/// The hexadecimal notation of a natural number, in upper case, without
/// leading zeros.
pub open spec fn heks(n: nat) -> Seq<char>
    decreases n,
{
    if n < 16 {
        seq![heks_stevka(n)]
    } else {
        heks(n / 16).push(heks_stevka(n % 16))
    }
}

/// How an operand is written: `0x` and upper-case hex for an unsigned
/// immediate, decimal for a signed one, the register's name, and a memory
/// operand as `size [reg + 0xN]` or `size [reg - 0xN]`, or `size [reg]` for
/// no offset.
pub open spec fn besedilo_operanda(o: Op) -> Seq<char> {
    match o {
        Op::ImmU(d) => "0x"@ + heks(d as nat),
        Op::ImmS(d) => desetisko_celo(d as int),
        Op::Reg(r) => ime_registra(r),
        Op::Deref(s, r, odmik) => ime_velikosti(s) + " ["@ + ime_registra(r) + (if odmik == 0 {
            Seq::empty()
        } else if odmik > 0 {
            " + "@ + "0x"@ + heks(odmik as nat)
        } else {
            " - "@ + "0x"@ + heks((-odmik) as nat)
        }) + "]"@,
    }
}

/// Whether the operand can be written: the offset of a memory operand has
/// an absolute value in `i32`.
pub open spec fn zapisljiv(o: Op) -> bool {
    !(o matches Op::Deref(_, _, odmik) && odmik == i32::MIN)
}

/// Whether every operand of the instruction can be written.
pub open spec fn zapisljiva(i: InstrV) -> bool {
    match i {
        InstrV::Mov(a, b) | InstrV::Cmp(a, b) => zapisljiv(a) && zapisljiv(b),
        InstrV::Push(a) | InstrV::Pop(a) | InstrV::ArOp(_, _, a) | InstrV::Fld(a) | InstrV::Fild(a) | InstrV::Fstp(
            a,
        )
        | InstrV::Fistp(a) | InstrV::Fadd(a) | InstrV::Fsub(a) | InstrV::Fmul(a) | InstrV::Fdiv(a) => zapisljiv(a),
        _ => true,
    }
}

/// How an instruction is written: a tab, the mnemonic, its operands and a
/// line break; a label as `name:` on a line of its own.
pub open spec fn besedilo_ukaza(i: InstrV) -> Seq<char> {
    match i {
        InstrV::Label(l) => l + ":\n"@,
        InstrV::Macro(t) => "\t"@ + t + "\n"@,
        InstrV::Aloc(m) => "\taloc "@ + desetisko_celo(m as int) + "\n"@,
        InstrV::Nop => "\tnop\n"@,
        InstrV::Ret => "\tret\n"@,
        InstrV::Mov(a, b) => "\tmov  "@ + besedilo_operanda(a) + ", "@ + besedilo_operanda(b) + "\n"@,
        InstrV::Push(a) => "\tpush "@ + besedilo_operanda(a) + "\n"@,
        InstrV::Pop(a) => "\tpop  "@ + besedilo_operanda(a) + "\n"@,
        InstrV::ArOp(o, r, b) => "\t"@ + ime_operacije(o) + " "@ + ime_registra(r) + ", "@ + besedilo_operanda(b)
            + "\n"@,
        InstrV::IDiv(r) => "\tidiv "@ + ime_registra(r) + "\n"@,
        InstrV::Cdq => "\tcdq\n"@,
        InstrV::Cmp(a, b) => "\tcmp  "@ + besedilo_operanda(a) + ", "@ + besedilo_operanda(b) + "\n"@,
        InstrV::Setg(r) => "\tsetg "@ + ime_registra(r) + "\n"@,
        InstrV::Sete(r) => "\tsete "@ + ime_registra(r) + "\n"@,
        InstrV::Setne(r) => "\tsetne "@ + ime_registra(r) + "\n"@,
        InstrV::Jmp(l) => "\tjmp  "@ + l + "\n"@,
        InstrV::Jne(l) => "\tjne  "@ + l + "\n"@,
        InstrV::Jl(l) => "\tjl   "@ + l + "\n"@,
        InstrV::Call(l) => "\tcall "@ + l + "\n"@,
        InstrV::Syscall => "\tsyscall\n"@,
        InstrV::Fld(a) => "\tfld  "@ + besedilo_operanda(a) + "\n"@,
        InstrV::Fild(a) => "\tfild "@ + besedilo_operanda(a) + "\n"@,
        InstrV::Fstp(a) => "\tfstp "@ + besedilo_operanda(a) + "\n"@,
        InstrV::Fistp(a) => "\tfistp "@ + besedilo_operanda(a) + "\n"@,
        InstrV::Fadd(a) => "\tfadd "@ + besedilo_operanda(a) + "\n"@,
        InstrV::Fsub(a) => "\tfsub "@ + besedilo_operanda(a) + "\n"@,
        InstrV::Fmul(a) => "\tfmul "@ + besedilo_operanda(a) + "\n"@,
        InstrV::Fdiv(a) => "\tfdiv "@ + besedilo_operanda(a) + "\n"@,
        InstrV::Fprem => "\tfprem\n"@,
    }
}

impl R {
    /// The name of the register.
    pub fn ime(&self) -> (r: &'static str)
        ensures
            r@ == ime_registra(*self),
    {
        match self {
            R::Rax => "rax",
            R::Eax => "eax",
            R::Al => "al",
            R::Rbx => "rbx",
            R::Ebx => "ebx",
            R::Bl => "bl",
            R::Rcx => "rcx",
            R::Cl => "cl",
            R::Ecx => "ecx",
            R::Rdx => "rdx",
            R::Rsi => "rsi",
            R::Rdi => "rdi",
            R::R8 => "r8",
            R::R9 => "r9",
            R::Rsp => "rsp",
        }
    }
}

impl ArO {
    /// The mnemonic of the operation, padded to four characters.
    pub fn ime(&self) -> (r: &'static str)
        ensures
            r@ == ime_operacije(*self),
    {
        match self {
            ArO::Add => "add ",
            ArO::Sub => "sub ",
            ArO::IMul => "imul",
            ArO::Or => "or  ",
            ArO::Xor => "xor ",
            ArO::And => "and ",
            ArO::Shl => "shl ",
            ArO::Shr => "shr ",
        }
    }
}

impl Size {
    /// The name of the size.
    pub fn ime(&self) -> (r: &'static str)
        ensures
            r@ == ime_velikosti(*self),
    {
        match self {
            Size::Dword => "dword",
            Size::Qword => "qword",
        }
    }
}

/// Appends the upper-case hexadecimal notation of `n`.
fn dodaj_heks(s: &mut String, n: u32)
    ensures
        final(s)@ == old(s)@ + heks(n as nat),
    decreases n,
{
    if n >= 16 {
        dodaj_heks(s, n / 16);
    }
    let d = (n % 16) as u8;
    let c = if d < 10 {
        (48u8 + d) as char
    } else {
        (55u8 + d) as char
    };
    dodaj_znak(s, c);
    assert(c == heks_stevka((n % 16) as nat));
}

impl Op {
    /// Appends how the operand is written.
    pub fn zapisi(&self, s: &mut String)
        requires
            zapisljiv(*self),
        ensures
            final(s)@ == old(s)@ + besedilo_operanda(*self),
    {
        match self {
            Op::ImmU(d) => {
                s.append("0x");
                dodaj_heks(s, *d);
            },
            Op::ImmS(d) => {
                dodaj_desetisko_celo(s, *d as i64);
            },
            Op::Reg(r) => {
                s.append(r.ime());
            },
            Op::Deref(velikost, r, odmik) => {
                s.append(velikost.ime());
                s.append(" [");
                s.append(r.ime());
                if *odmik > 0 {
                    s.append(" + ");
                    s.append("0x");
                    dodaj_heks(s, *odmik as u32);
                } else if *odmik < 0 {
                    s.append(" - ");
                    s.append("0x");
                    dodaj_heks(s, (-*odmik) as u32);
                }
                s.append("]");
            },
        }
        assert(final(s)@ =~= old(s)@ + besedilo_operanda(*self));
    }

    /// How the operand is written.
    pub fn to_string(&self) -> (r: String)
        requires
            zapisljiv(*self),
        ensures
            r@ == besedilo_operanda(*self),
    {
        let mut s = String::new();
        self.zapisi(&mut s);
        assert(s@ =~= besedilo_operanda(*self));
        s
    }
}

impl Instr {
    /// How the instruction is written, as a line of assembly.
    pub fn to_string(&self) -> (r: String)
        requires
            zapisljiva(self@),
        ensures
            r@ == besedilo_ukaza(self@),
    {
        let mut s = String::new();
        match self {
            Instr::Label(l) => {
                s.append(l.as_str());
                s.append(":\n");
            },
            Instr::Macro(t) => {
                s.append("\t");
                s.append(t);
                s.append("\n");
            },
            Instr::Aloc(m) => {
                s.append("\taloc ");
                dodaj_desetisko_celo(&mut s, *m as i64);
                s.append("\n");
            },
            Instr::Nop => s.append("\tnop\n"),
            Instr::Ret => s.append("\tret\n"),
            Instr::Mov(a, b) => {
                s.append("\tmov  ");
                a.zapisi(&mut s);
                s.append(", ");
                b.zapisi(&mut s);
                s.append("\n");
            },
            Instr::Push(a) => {
                s.append("\tpush ");
                a.zapisi(&mut s);
                s.append("\n");
            },
            Instr::Pop(a) => {
                s.append("\tpop  ");
                a.zapisi(&mut s);
                s.append("\n");
            },
            Instr::ArOp(o, r, b) => {
                s.append("\t");
                s.append(o.ime());
                s.append(" ");
                s.append(r.ime());
                s.append(", ");
                b.zapisi(&mut s);
                s.append("\n");
            },
            Instr::IDiv(r) => {
                s.append("\tidiv ");
                s.append(r.ime());
                s.append("\n");
            },
            Instr::Cdq => s.append("\tcdq\n"),
            Instr::Cmp(a, b) => {
                s.append("\tcmp  ");
                a.zapisi(&mut s);
                s.append(", ");
                b.zapisi(&mut s);
                s.append("\n");
            },
            Instr::Setg(r) => {
                s.append("\tsetg ");
                s.append(r.ime());
                s.append("\n");
            },
            Instr::Sete(r) => {
                s.append("\tsete ");
                s.append(r.ime());
                s.append("\n");
            },
            Instr::Setne(r) => {
                s.append("\tsetne ");
                s.append(r.ime());
                s.append("\n");
            },
            Instr::Jmp(l) => {
                s.append("\tjmp  ");
                s.append(l.as_str());
                s.append("\n");
            },
            Instr::Jne(l) => {
                s.append("\tjne  ");
                s.append(l.as_str());
                s.append("\n");
            },
            Instr::Jl(l) => {
                s.append("\tjl   ");
                s.append(l.as_str());
                s.append("\n");
            },
            Instr::Call(l) => {
                s.append("\tcall ");
                s.append(l.as_str());
                s.append("\n");
            },
            Instr::Syscall => s.append("\tsyscall\n"),
            Instr::Fld(a) => {
                s.append("\tfld  ");
                a.zapisi(&mut s);
                s.append("\n");
            },
            Instr::Fild(a) => {
                s.append("\tfild ");
                a.zapisi(&mut s);
                s.append("\n");
            },
            Instr::Fstp(a) => {
                s.append("\tfstp ");
                a.zapisi(&mut s);
                s.append("\n");
            },
            Instr::Fistp(a) => {
                s.append("\tfistp ");
                a.zapisi(&mut s);
                s.append("\n");
            },
            Instr::Fadd(a) => {
                s.append("\tfadd ");
                a.zapisi(&mut s);
                s.append("\n");
            },
            Instr::Fsub(a) => {
                s.append("\tfsub ");
                a.zapisi(&mut s);
                s.append("\n");
            },
            Instr::Fmul(a) => {
                s.append("\tfmul ");
                a.zapisi(&mut s);
                s.append("\n");
            },
            Instr::Fdiv(a) => {
                s.append("\tfdiv ");
                a.zapisi(&mut s);
                s.append("\n");
            },
            Instr::Fprem => s.append("\tfprem\n"),
        }
        assert(s@ =~= besedilo_ukaza(self@));
        s
    }
}

/// The instructions that push the constant `data`: an immediate push when it
/// fits in 16 bits, else through `rax`.
pub fn push(data: u32) -> (r: Vec<Instr>)
    ensures
        data > 0xFFFF ==> r@ == seq![Instr::Mov(Op::Reg(R::Rax), Op::ImmU(data)), Instr::Push(Op::Reg(R::Rax))],
        data <= 0xFFFF ==> r@ == seq![Instr::Push(Op::ImmU(data))],
{
    if data > 0xFFFF {
        let r = vec![Instr::Mov(Op::Reg(R::Rax), Op::ImmU(data)), Instr::Push(Op::Reg(R::Rax))];
        assert(r@ =~= seq![Instr::Mov(Op::Reg(R::Rax), Op::ImmU(data)), Instr::Push(Op::Reg(R::Rax))]);
        r
    } else {
        let r = vec![Instr::Push(Op::ImmU(data))];
        assert(r@ =~= seq![Instr::Push(Op::ImmU(data))]);
        r
    }
}

/// The byte `i` of the UTF-8 encoding of `c`, and zero past its end.
pub open spec fn bajt_utf8(c: char, i: int) -> u32 {
    let b = vstd::utf8::encode_scalar(c as u32);
    if i < b.len() {
        b[i] as u32
    } else {
        0
    }
}

/// The UTF-8 encoding of `c`, its first byte lowest, read as the bits of an
/// `i32`.
pub open spec fn utf8_kot_i32(c: char) -> i32 {
    (bajt_utf8(c, 0) | (bajt_utf8(c, 1) << 8u32) | (bajt_utf8(c, 2) << 16u32) | (bajt_utf8(c, 3) << 24u32)) as i32
}

/// The UTF-8 bytes of `znak`, its first byte lowest, as the bits of an `i32`.
pub fn v_utf8(znak: char) -> (r: i32)
    ensures
        r == utf8_kot_i32(znak),
{
    let v = znak as u32;
    proof {
        vstd::utf8::char_is_scalar(znak);
    }
    let (b0, b1, b2, b3): (u8, u8, u8, u8) = if v <= 0x7F {
        ((v & 0x7F) as u8, 0, 0, 0)
    } else if v <= 0x7FF {
        (0xC0 | ((v >> 6) & 0x1F) as u8, 0x80 | (v & 0x3F) as u8, 0, 0)
    } else if v <= 0xFFFF {
        (0xE0 | ((v >> 12) & 0x0F) as u8, 0x80 | ((v >> 6) & 0x3F) as u8, 0x80 | (v & 0x3F) as u8, 0)
    } else {
        (
            0xF0 | ((v >> 18) & 0x7) as u8,
            0x80 | ((v >> 12) & 0x3F) as u8,
            0x80 | ((v >> 6) & 0x3F) as u8,
            0x80 | (v & 0x3F) as u8,
        )
    };
    assert(b0 as u32 == bajt_utf8(znak, 0));
    assert(b1 as u32 == bajt_utf8(znak, 1));
    assert(b2 as u32 == bajt_utf8(znak, 2));
    assert(b3 as u32 == bajt_utf8(znak, 3));
    let n: u32 = (b0 as u32) | ((b1 as u32) << 8u32) | ((b2 as u32) << 16u32) | ((b3 as u32) << 24u32);
    n as i32
}

} // verus!
