use slj::nalaganje::{iz_assemblerja, Nalozeno};
use slj::program::{
    Podatek, Program,
    UkazPodatek::{
        ADDF, ADDI, ALOC, BAND, BOR, BSLL, BXOR, DIVF, DIVI, FLUSH, FTOI, GETC, ITOF, JMPC, JMPD, JUMP, LDDY,
        LDOF, LOAD, LOFF, MODF, MODI, MULF, MULI, NOOP, POS, POWF, POWI, PUSH, PUTC, SOFF, STDY, STOF, STOR, SUBF,
        SUBI, TOP, ZERO,
    },
};
use slj::tip::Tip;

fn f(x: f32) -> Podatek {
    Podatek { i: x.to_bits() as i32 }
}

fn c(x: char) -> Podatek {
    Podatek { i: x as i32 }
}

/// Writes the real numbers of a loaded program in, as the program `slj` does.
fn z_realnimi(n: Nalozeno) -> Program {
    let mut program = n.program;
    for (k, besedilo) in &n.realna {
        let besedilo: String = besedilo.iter().collect();
        let x: f32 = besedilo.parse().unwrap();
        program.ukazi[*k] = PUSH(f(x));
    }
    program
}

/// The assembler text of a program, with its real numbers written as `{:?}`
/// writes an `f32`.
fn v_besedilo(program: &Program) -> Option<String> {
    let besedila: Vec<String> = program
        .realna_biti()
        .iter()
        .map(|b| format!("{:?}", f32::from_bits(*b as u32)))
        .collect();
    program.v_assembler(&besedila)
}

#[test]
fn mod_to_assembler_from_assembler() {
    let program = Program {
        push_tipi: vec![Tip::Real, Tip::Real, Tip::Celo, Tip::Znak, Tip::Znak],
        ukazi: [
            NOOP,
            JUMP(23),
            JMPD,
            JMPC(18),
            PUSH(f(3.14159268)),
            PUSH(f(0.0)),
            PUSH(Podatek { i: 42 }),
            PUSH(c('c')),
            PUSH(c('\n')),
            ALOC(-12),
            POS,
            ZERO,
            LOAD(13),
            LDOF(42),
            STOR(256),
            STOF(200),
            TOP(13),
            TOP(-13),
            SOFF,
            LOFF,
            PUTC,
            GETC,
            ADDF,
            SUBF,
            MULF,
            DIVF,
            MODF,
            POWF,
            ADDI,
            SUBI,
            MULI,
            DIVI,
            MODI,
            POWI,
            FTOI,
            ITOF,
            BOR,
            BXOR,
            BAND,
        ]
        .to_vec(),
    };

    let besedilo = v_besedilo(&program).unwrap();
    let nazaj = z_realnimi(iz_assemblerja(&besedilo).unwrap());
    assert_eq!(program.ukazi, nazaj.ukazi);
    assert_eq!(program.push_tipi, nazaj.push_tipi);
}

#[test]
fn nalozi_vrstice() {
    let besedilo = "  0 PUSH #42\n  1 PUSH #-2.5\n  2 PUSH 'a'\n\n  3 PUSH '\\n'\n  4 ALOC +5\n  5 TOP  -3\n  6 JUMP #7\n  7 LDOF +2\n  8 PRTC\n  9 PUTC\n 10 XYZ\n 11 POS \n";
    let n = iz_assemblerja(besedilo).unwrap();
    assert_eq!(
        n.program.ukazi,
        vec![
            PUSH(Podatek { i: 42 }),
            PUSH(Podatek { i: 0 }),
            PUSH(c('a')),
            PUSH(c('\n')),
            ALOC(5),
            TOP(-3),
            JUMP(7),
            LDOF(2),
            PUTC,
            PUTC,
            NOOP,
            POS,
        ]
    );
    assert_eq!(n.program.push_tipi, vec![Tip::Celo, Tip::Real, Tip::Znak, Tip::Znak]);
    assert_eq!(n.realna.len(), 1);
    assert_eq!(n.realna[0].0, 1);
    assert_eq!(n.realna[0].1, vec!['-', '2', '.', '5']);
    let program = z_realnimi(n);
    assert_eq!(program.ukazi[1], PUSH(f(-2.5)));
}

#[test]
fn nalozi_prazno() {
    let n = iz_assemblerja("").unwrap();
    assert!(n.program.ukazi.is_empty());
    assert!(n.program.push_tipi.is_empty());
    assert!(n.realna.is_empty());
    let n = iz_assemblerja("\n\n").unwrap();
    assert!(n.program.ukazi.is_empty());
}

#[test]
fn nalozi_zadnja_vrstica_brez_preloma() {
    let n = iz_assemblerja("0 ADDI\n1 STDY +4").unwrap();
    assert_eq!(n.program.ukazi, vec![ADDI, STDY(4)]);
}

#[test]
fn nalozi_znaki() {
    let n = iz_assemblerja("0 PUSH 'č'\n1 PUSH '\\\\'\n2 PUSH '\\''\n3 PUSH '\"'").unwrap();
    assert_eq!(n.program.ukazi, vec![PUSH(c('č')), PUSH(c('\\')), PUSH(c('\'')), PUSH(c('"'))]);
    assert_eq!(n.program.push_tipi, vec![Tip::Znak, Tip::Znak, Tip::Znak, Tip::Znak]);
}

#[test]
fn nalozi_napake() {
    // a line of white space alone, or with no instruction after the index
    assert!(iz_assemblerja("0 NOOP\n   \n").is_none());
    assert!(iz_assemblerja("0\n").is_none());
    // an instruction without its argument
    assert!(iz_assemblerja("0 PUSH\n").is_none());
    assert!(iz_assemblerja("0 JUMP\n").is_none());
    assert!(iz_assemblerja("0 ALOC\n").is_none());
    // an argument that is no number
    assert!(iz_assemblerja("0 PUSH #x\n").is_none());
    assert!(iz_assemblerja("0 LOAD @12a\n").is_none());
    assert!(iz_assemblerja("0 TOP +\n").is_none());
    assert!(iz_assemblerja("0 ALOC 99999999999\n").is_none());
    // an address whose first character takes more than one byte
    assert!(iz_assemblerja("0 LOAD č12\n").is_none());
    // a character that takes three bytes, or a literal too short
    assert!(iz_assemblerja("0 PUSH '€'\n").is_none());
    assert!(iz_assemblerja("0 PUSH 'a\n").is_none());
}

#[test]
fn v_assembler_vrstice() {
    let program = Program {
        push_tipi: vec![Tip::Celo, Tip::Znak, Tip::Real],
        ukazi: vec![
            PUSH(Podatek { i: 42 }),
            JUMP(-3),
            POS,
            TOP(5),
            ALOC(0),
            PUSH(c('\n')),
            LDDY(7),
            FLUSH,
            PUSH(f(1.5)),
            NOOP,
            NOOP,
            NOOP,
            BSLL,
        ],
    };
    let besedila = vec!["1.5".to_string()];
    assert_eq!(
        program.v_assembler(&besedila).unwrap(),
        "  0 PUSH #42\n  1 JUMP #-3\n  2 POS \n  3 TOP  +5\n  4 ALOC 0\n  5 PUSH '\\n'\n  6 LDDY +7\n  7 FLUSH\n  8 PUSH #1.5\n  9 NOOP\n 10 NOOP\n 11 NOOP\n 12 BSLL\n"
    );
    assert_eq!(program.realna_biti(), vec![1.5f32.to_bits() as i32]);
}

#[test]
fn v_assembler_napake() {
    // a PUSH without its type
    let p = Program { push_tipi: vec![], ukazi: vec![PUSH(Podatek { i: 1 })] };
    assert!(p.v_assembler(&[]).is_none());
    // a type that is not pushed
    let p = Program { push_tipi: vec![Tip::Bool], ukazi: vec![PUSH(Podatek { i: 1 })] };
    assert!(p.v_assembler(&[]).is_none());
    // a character that is none
    let p = Program { push_tipi: vec![Tip::Znak], ukazi: vec![PUSH(Podatek { i: 0xd800 })] };
    assert!(p.v_assembler(&[]).is_none());
    let p = Program { push_tipi: vec![Tip::Znak], ukazi: vec![PUSH(Podatek { i: -1 })] };
    assert!(p.v_assembler(&[]).is_none());
    // a real number without its text
    let p = Program { push_tipi: vec![Tip::Real], ukazi: vec![PUSH(f(2.0))] };
    assert!(p.v_assembler(&[]).is_none());
    assert_eq!(p.v_assembler(&["2.0".to_string()]).unwrap(), "  0 PUSH #2.0\n");
}

#[test]
fn v_assembler_indeksi() {
    let program = Program { push_tipi: vec![], ukazi: vec![ADDF; 101] };
    let besedilo = program.v_assembler(&[]).unwrap();
    let vrstice: Vec<&str> = besedilo.lines().collect();
    assert_eq!(vrstice[0], "  0 ADDF");
    assert_eq!(vrstice[99], " 99 ADDF");
    assert_eq!(vrstice[100], "100 ADDF");
    let nazaj = iz_assemblerja(&besedilo).unwrap();
    assert_eq!(nazaj.program.ukazi, program.ukazi);
}
