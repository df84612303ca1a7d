use slj::nativno::ToFasmX86;
use slj::program::{Podatek, UkazPodatek};
use slj::vmesna_koda::UkazPodatekRelative::{self, JUMPRel, Osnovni, Oznaka, PUSHC, PUSHF, PUSHI};

const GLAVA: &str = "\ninclude \"header.asm\"\n\n";
const NOGA: &str = "\ninclude \"footer.asm\"\n";

fn v_fasm(koda: Vec<UkazPodatekRelative>) -> Option<String> {
    koda.v_fasm_x86()
}

fn s_glavo(telo: &str) -> String {
    format!("{GLAVA}{telo}{NOGA}")
}

#[test]
fn fasm_zlaganje_stevil() {
    let koda = vec![PUSHI(1), PUSHI(2), Osnovni(UkazPodatek::ADDI), Osnovni(UkazPodatek::PUTC)];
    assert_eq!(v_fasm(koda).unwrap(), s_glavo("\tmov  rax, 0x3\n\tcall _putc\n"));
}

#[test]
fn fasm_zlaganje_znakov() {
    let koda = vec![PUSHC('a'), PUSHI(1), Osnovni(UkazPodatek::ADDI), Osnovni(UkazPodatek::PUTC)];
    assert_eq!(v_fasm(koda).unwrap(), s_glavo("\tmov  rax, 0x62\n\tcall _putc\n"));
    let koda = vec![PUSHI(7), PUSHI(-2), Osnovni(UkazPodatek::DIVF), Osnovni(UkazPodatek::PUTC)];
    assert_eq!(v_fasm(koda).unwrap(), s_glavo("\tmov  rax, 0xFFFFFFFD\n\tcall _putc\n"));
}

#[test]
fn fasm_realno_zlaganje() {
    let ena = Podatek { i: 1.0f32.to_bits() as i32 };
    let dva = Podatek { i: 2.0f32.to_bits() as i32 };
    let koda = vec![Osnovni(UkazPodatek::NOOP), PUSHF(ena), PUSHF(dva), Osnovni(UkazPodatek::ADDF)];
    assert_eq!(v_fasm(koda).unwrap(), s_glavo("\tnop\n\tmov  rax, 0x3F800000\n\tpush rax\n"));
}

#[test]
fn fasm_nalaganje_in_racun() {
    let koda = vec![
        Osnovni(UkazPodatek::LOAD(1)),
        Osnovni(UkazPodatek::LDOF(2)),
        Osnovni(UkazPodatek::ADDI),
        Osnovni(UkazPodatek::PUTC),
    ];
    assert_eq!(
        v_fasm(koda).unwrap(),
        s_glavo("\tmov  rax, qword [r8 - 0x10]\n\tmov  rbx, qword [r9 - 0x18]\n\tadd  eax, ebx\n\tcall _putc\n")
    );
}

#[test]
fn fasm_shranjevanje_konstante() {
    let koda = vec![
        Osnovni(UkazPodatek::NOOP),
        PUSHI(5),
        Osnovni(UkazPodatek::STOR(0)),
        Osnovni(UkazPodatek::NOOP),
    ];
    assert_eq!(v_fasm(koda).unwrap(), s_glavo("\tnop\n\tmov  qword [r8 - 0x8], 0x5\n\tnop\n"));
}

#[test]
fn fasm_prenos_celice() {
    let koda = vec![
        Osnovni(UkazPodatek::NOOP),
        Osnovni(UkazPodatek::LOAD(0)),
        Osnovni(UkazPodatek::STOF(1)),
        Osnovni(UkazPodatek::NOOP),
    ];
    assert_eq!(
        v_fasm(koda).unwrap(),
        s_glavo("\tnop\n\tmov  rax, qword [r8]\n\tmov  qword [r9 - 0x10], rax\n\tnop\n")
    );
}

#[test]
fn fasm_oznake() {
    let koda = vec![Oznaka("main".to_string()), JUMPRel("main".to_string()), Osnovni(UkazPodatek::NOOP)];
    assert_eq!(v_fasm(koda).unwrap(), s_glavo(".main:\n\tjmp  .main\n\tnop\n"));
}

#[test]
fn fasm_bitne_operacije() {
    let koda = vec![PUSHI(0b110), PUSHI(0b011), Osnovni(UkazPodatek::BOR), Osnovni(UkazPodatek::PUTC)];
    assert_eq!(v_fasm(koda).unwrap(), s_glavo("\tmov  rcx, 0x3\n\tmov  rax, 0x6\n\tor   eax, ecx\n\tcall _putc\n"));
}

#[test]
fn fasm_napake() {
    // fewer than two instructions
    assert!(v_fasm(vec![]).is_none());
    assert!(v_fasm(vec![Osnovni(UkazPodatek::NOOP)]).is_none());
    // a division by zero in folding
    let koda = vec![PUSHI(1), PUSHI(0), Osnovni(UkazPodatek::DIVF), Osnovni(UkazPodatek::PUTC)];
    assert!(v_fasm(koda).is_none());
    // a folded character that is none
    let koda = vec![PUSHC('a'), PUSHI(-0x100), Osnovni(UkazPodatek::ADDI), Osnovni(UkazPodatek::PUTC)];
    assert!(v_fasm(koda).is_none());
    // a constant stored at the very start
    let koda = vec![PUSHI(5), Osnovni(UkazPodatek::STOR(0)), Osnovni(UkazPodatek::NOOP)];
    assert!(v_fasm(koda).is_none());
    // an instruction the back end does not take
    let koda = vec![Osnovni(UkazPodatek::FLUSH), Osnovni(UkazPodatek::NOOP)];
    assert!(v_fasm(koda).is_none());
    // an address whose offset does not fit
    let koda = vec![Osnovni(UkazPodatek::LOAD(0x1000_0000)), Osnovni(UkazPodatek::NOOP)];
    assert!(v_fasm(koda).is_none());
}

#[test]
fn fasm_glava_in_noga() {
    let kode = vec![
        vec![PUSHI(1), PUSHI(2), Osnovni(UkazPodatek::ADDI), Osnovni(UkazPodatek::PUTC)],
        vec![PUSHI(7), PUSHI(-2), Osnovni(UkazPodatek::DIVF), Osnovni(UkazPodatek::PUTC)],
    ];
    for koda in kode {
        let s = v_fasm(koda).unwrap();
        assert!(s.starts_with(GLAVA));
        assert!(s.ends_with(NOGA));
    }
}
