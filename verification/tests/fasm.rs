use slj::fasm::{push, v_utf8, ArO, Instr, Op, Size, R};
use slj::oznake::{formatiraj_oznako, v_veljavno_ime_funkcije};

#[test]
fn fasm_operandi() {
    assert_eq!(Op::ImmU(0x1FFFF).to_string(), "0x1FFFF");
    assert_eq!(Op::ImmU(0).to_string(), "0x0");
    assert_eq!(Op::ImmS(-5).to_string(), "-5");
    assert_eq!(Op::Reg(R::R8).to_string(), "r8");
    assert_eq!(Op::Deref(Size::Qword, R::Rsp, -16).to_string(), "qword [rsp - 0x10]");
    assert_eq!(Op::Deref(Size::Dword, R::Rbx, 8).to_string(), "dword [rbx + 0x8]");
    assert_eq!(Op::Deref(Size::Qword, R::Rsp, 0).to_string(), "qword [rsp]");
}

#[test]
fn fasm_ukazi() {
    assert_eq!(Instr::Mov(Op::Reg(R::Rax), Op::ImmU(0x1FFFF)).to_string(), "\tmov  rax, 0x1FFFF\n");
    assert_eq!(Instr::ArOp(ArO::IMul, R::Rax, Op::Reg(R::Rbx)).to_string(), "\timul rax, rbx\n");
    assert_eq!(Instr::ArOp(ArO::Or, R::Eax, Op::ImmS(1)).to_string(), "\tor   eax, 1\n");
    assert_eq!(Instr::Label("main".to_string()).to_string(), "main:\n");
    assert_eq!(Instr::Macro("PUTC").to_string(), "\tPUTC\n");
    assert_eq!(Instr::Aloc(-3).to_string(), "\taloc -3\n");
    assert_eq!(Instr::Jl("konec".to_string()).to_string(), "\tjl   konec\n");
    assert_eq!(Instr::Fistp(Op::Deref(Size::Dword, R::Rsp, 0)).to_string(), "\tfistp dword [rsp]\n");
    assert_eq!(Instr::Setne(R::Al).to_string(), "\tsetne al\n");
    assert_eq!(Instr::Fprem.to_string(), "\tfprem\n");
}

#[test]
fn fasm_push() {
    assert_eq!(push(5), vec![Instr::Push(Op::ImmU(5))]);
    assert_eq!(push(0xFFFF), vec![Instr::Push(Op::ImmU(0xFFFF))]);
    assert_eq!(push(0x10000), vec![Instr::Mov(Op::Reg(R::Rax), Op::ImmU(0x10000)), Instr::Push(Op::Reg(R::Rax))]);
}

#[test]
fn fasm_v_utf8() {
    assert_eq!(v_utf8('a'), 0x61);
    assert_eq!(v_utf8('đ'), 37316);
    assert_eq!(v_utf8('😭'), -1382506512);
    for c in ['a', '\n', 'đ', 'ž', '€', '😭', '\u{7FF}', '\u{FFFF}', '\u{10FFFF}'] {
        let mut b = [0u8; 4];
        c.encode_utf8(&mut b);
        assert_eq!(v_utf8(c), i32::from_le_bytes(b));
    }
}

#[test]
fn oznake_imen() {
    assert_eq!(formatiraj_oznako("ena(real, celo)"), ".ena8real__celo9");
    assert_eq!(formatiraj_oznako("f(@[celo])"), ".f8VFceloG9");
    assert_eq!(formatiraj_oznako("main"), ".main");
    assert_eq!(v_veljavno_ime_funkcije("ena(real)"), "ena_real");
    assert_eq!(v_veljavno_ime_funkcije("ena(real, celo)"), "ena_real__celo");
}
