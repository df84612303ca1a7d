use std::io::{Cursor, Read, Write};

use slj::program::{
    Podatek, UkazPodatek,
    UkazPodatek::{
        ADDF, ADDI, ALOC, BAND, BOR, BSLL, BSLR, BXOR, DIVF, DIVI, FLUSH, FTOI, GETC, JMPC, JMPD, JUMP, LDDY, LDOF,
        LOAD, LOFF, MODF, MODI, MULF, MULI, NOOP, POS, POWF, POWI, PUSH, PUTC, SOFF, STDY, STOF, STOR, SUBF, SUBI, TOP,
        ZERO,
    },
};
use slj::vhod::{dekodiraj_znak, dodatni_bajti};
use slj::zazeni::{Dejanje, RealnaOp, Stroj};

fn f(x: f32) -> Podatek {
    Podatek { i: x.to_bits() as i32 }
}

fn c(x: char) -> Podatek {
    Podatek { i: x as i32 }
}

fn realno(op: RealnaOp, a: Podatek, b: Podatek) -> Podatek {
    let x = f32::from_bits(a.i as u32);
    let y = f32::from_bits(b.i as u32);
    match op {
        RealnaOp::Sestej => f(x + y),
        RealnaOp::Odstej => f(x - y),
        RealnaOp::Zmnozi => f(x * y),
        RealnaOp::Deli => f(x / y),
        RealnaOp::Ostanek => f(x % y),
        RealnaOp::Potenciraj => f(x.powf(y)),
        RealnaOp::VCelo => Podatek { i: x as i32 },
        RealnaOp::VReal => f(a.i as f32),
        RealnaOp::Pozitivno => Podatek { i: (x > 0.0) as i32 },
        RealnaOp::Nic => Podatek { i: (x == 0.0) as i32 },
    }
}

fn preberi_znak(vhod: &mut impl Read) -> Option<char> {
    let mut buf = [0u8; 4];
    let _ = vhod.read(&mut buf[..1]).unwrap();
    let n = dodatni_bajti(buf[0]);
    if n > 0 {
        vhod.read(&mut buf[1..1 + n]).ok()?;
    }
    dekodiraj_znak(&buf)
}

fn korak(ukaz: &UkazPodatek, stroj: &mut Stroj, vhod: &mut impl Read, izhod: &mut impl Write) {
    match stroj.korak(ukaz) {
        Dejanje::Naprej => (),
        Dejanje::Izpisi(p) => {
            let z = char::from_u32(p.i as u32).unwrap();
            izhod.write_all(z.to_string().as_bytes()).unwrap();
        },
        Dejanje::Preberi => stroj.potisni(c(preberi_znak(vhod).unwrap_or('\0'))),
        Dejanje::Splakni => izhod.flush().unwrap(),
        Dejanje::Realno(op, a, b) => stroj.nastavi_vrh(realno(op, a, b)),
    }
}

#[test]
fn zazeni_zazeni() {
    let mut m = Stroj::new();
    assert_eq!(m.sklad, []);
    assert_eq!(m.pc, 0);
    assert_eq!(m.odmik, 0);

    let mut vhod = Cursor::new(Vec::<u8>::new());
    let mut izhod = Vec::<u8>::new();

    korak(&PUSH(f(1.0)), &mut m, &mut vhod, &mut izhod);
    assert_eq!(m.sklad, [f(1.0)]);
    assert_eq!((m.pc, m.odmik), (1, 0));

    korak(&PUSH(f(3.14)), &mut m, &mut vhod, &mut izhod);
    assert_eq!(m.sklad, [f(1.0), f(3.14)]);
    assert_eq!((m.pc, m.odmik), (2, 0));

    korak(&LOAD(1), &mut m, &mut vhod, &mut izhod);
    assert_eq!(m.sklad, [f(1.0), f(3.14), f(3.14)]);
    assert_eq!((m.pc, m.odmik), (3, 0));

    korak(&LOAD(0), &mut m, &mut vhod, &mut izhod);
    assert_eq!(m.sklad, [f(1.0), f(3.14), f(3.14), f(1.0)]);
    assert_eq!((m.pc, m.odmik), (4, 0));

    korak(&SUBF, &mut m, &mut vhod, &mut izhod);
    assert_eq!(m.sklad, [f(1.0), f(3.14), f(2.14)]);
    assert_eq!((m.pc, m.odmik), (5, 0));

    korak(&POS, &mut m, &mut vhod, &mut izhod);
    assert_eq!(m.sklad, [f(1.0), f(3.14), Podatek { i: 1 }]);
    assert_eq!((m.pc, m.odmik), (6, 0));

    korak(&NOOP, &mut m, &mut vhod, &mut izhod);
    assert_eq!(m.sklad, [f(1.0), f(3.14), Podatek { i: 1 }]);
    assert_eq!((m.pc, m.odmik), (7, 0));

    korak(&JMPC(0), &mut m, &mut vhod, &mut izhod);
    assert_eq!(m.sklad, [f(1.0), f(3.14)]);
    assert_eq!((m.pc, m.odmik), (0, 0));

    korak(&PUSH(Podatek { i: 8 }), &mut m, &mut vhod, &mut izhod);
    assert_eq!(m.sklad, [f(1.0), f(3.14), Podatek { i: 8 }]);
    assert_eq!((m.pc, m.odmik), (1, 0));

    korak(&JMPD, &mut m, &mut vhod, &mut izhod);
    assert_eq!(m.sklad, [f(1.0), f(3.14)]);
    assert_eq!((m.pc, m.odmik), (8, 0));

    korak(&JUMP(13), &mut m, &mut vhod, &mut izhod);
    assert_eq!(m.sklad, [f(1.0), f(3.14)]);
    assert_eq!((m.pc, m.odmik), (13, 0));

    korak(&PUSH(f(0.0)), &mut m, &mut vhod, &mut izhod);
    assert_eq!(m.sklad, [f(1.0), f(3.14), f(0.0)]);
    assert_eq!((m.pc, m.odmik), (14, 0));

    korak(&ZERO, &mut m, &mut vhod, &mut izhod);
    assert_eq!(m.sklad, [f(1.0), f(3.14), Podatek { i: 1 }]);
    assert_eq!((m.pc, m.odmik), (15, 0));

    korak(&PUSH(c('\n')), &mut m, &mut vhod, &mut izhod);
    assert_eq!(m.sklad, [f(1.0), f(3.14), Podatek { i: 1 }, c('\n')]);
    assert_eq!((m.pc, m.odmik), (16, 0));

    korak(&PUSH(c('c')), &mut m, &mut vhod, &mut izhod);
    assert_eq!(m.sklad, [f(1.0), f(3.14), Podatek { i: 1 }, c('\n'), c('c')]);
    assert_eq!((m.pc, m.odmik), (17, 0));

    korak(&PUTC, &mut m, &mut vhod, &mut izhod);
    korak(&PUTC, &mut m, &mut vhod, &mut izhod);
    assert_eq!(m.sklad, [f(1.0), f(3.14), Podatek { i: 1 }]);
    assert_eq!((m.pc, m.odmik), (19, 0));
    assert_eq!(izhod, b"c\n");

    korak(&ALOC(-1), &mut m, &mut vhod, &mut izhod);
    assert_eq!(m.sklad, [f(1.0), f(3.14)]);
    assert_eq!((m.pc, m.odmik), (20, 0));

    korak(&PUSH(f(1.0)), &mut m, &mut vhod, &mut izhod);
    assert_eq!(m.sklad, [f(1.0), f(3.14), f(1.0)]);
    assert_eq!((m.pc, m.odmik), (21, 0));

    korak(&PUSH(f(0.0)), &mut m, &mut vhod, &mut izhod);
    assert_eq!(m.sklad, [f(1.0), f(3.14), f(1.0), f(0.0)]);
    assert_eq!((m.pc, m.odmik), (22, 0));

    korak(&MULF, &mut m, &mut vhod, &mut izhod);
    assert_eq!(m.sklad, [f(1.0), f(3.14), f(0.0)]);
    assert_eq!((m.pc, m.odmik), (23, 0));

    korak(&STOR(0), &mut m, &mut vhod, &mut izhod);
    assert_eq!(m.sklad, [f(0.0), f(3.14)]);
    assert_eq!((m.pc, m.odmik), (24, 0));

    korak(&LOFF, &mut m, &mut vhod, &mut izhod);
    assert_eq!(m.sklad, [f(0.0), f(3.14), Podatek { i: 0 }]);
    assert_eq!((m.pc, m.odmik), (25, 0));

    korak(&PUSH(f(3.01)), &mut m, &mut vhod, &mut izhod);
    assert_eq!(m.sklad, [f(0.0), f(3.14), Podatek { i: 0 }, f(3.01)]);
    assert_eq!((m.pc, m.odmik), (26, 0));

    korak(&TOP(-3), &mut m, &mut vhod, &mut izhod);
    assert_eq!(m.sklad, [f(0.0), f(3.14), Podatek { i: 0 }, f(3.01)]);
    assert_eq!((m.pc, m.odmik), (27, 1));

    korak(&LDOF(0), &mut m, &mut vhod, &mut izhod);
    assert_eq!(m.sklad, [f(0.0), f(3.14), Podatek { i: 0 }, f(3.01), f(3.14)]);
    assert_eq!((m.pc, m.odmik), (28, 1));

    korak(&ADDF, &mut m, &mut vhod, &mut izhod);
    assert_eq!(m.sklad, [f(0.0), f(3.14), Podatek { i: 0 }, f(3.01 + 3.14)]);
    assert_eq!((m.pc, m.odmik), (29, 1));

    korak(&PUSH(f(1.0)), &mut m, &mut vhod, &mut izhod);
    assert_eq!(m.sklad, [f(0.0), f(3.14), Podatek { i: 0 }, f(3.01 + 3.14), f(1.0)]);
    assert_eq!((m.pc, m.odmik), (30, 1));

    korak(&DIVF, &mut m, &mut vhod, &mut izhod);
    assert_eq!(m.sklad, [f(0.0), f(3.14), Podatek { i: 0 }, f((3.01 + 3.14) / 1.0)]);
    assert_eq!((m.pc, m.odmik), (31, 1));

    korak(&STOF(0), &mut m, &mut vhod, &mut izhod);
    assert_eq!(m.sklad, [f(0.0), f(3.01 + 3.14), Podatek { i: 0 }]);
    assert_eq!((m.pc, m.odmik), (32, 1));

    korak(&SOFF, &mut m, &mut vhod, &mut izhod);
    assert_eq!(m.sklad, [f(0.0), f(3.01 + 3.14)]);
    assert_eq!((m.pc, m.odmik), (33, 0));

    m.sklad[0] = f(5.0);
    m.sklad[1] = f(3.0);

    korak(&MODF, &mut m, &mut vhod, &mut izhod);
    assert_eq!(m.sklad, [f(2.0)]);
    assert_eq!((m.pc, m.odmik), (34, 0));

    m.sklad.push(f(5.0));

    korak(&POWF, &mut m, &mut vhod, &mut izhod);
    assert_eq!(m.sklad, [f(32.0)]);
    assert_eq!((m.pc, m.odmik), (35, 0));

    m.sklad = vec![Podatek { i: 1234 }, Podatek { i: 5678 }];
    korak(&BAND, &mut m, &mut vhod, &mut izhod);
    assert_eq!(m.sklad, [Podatek { i: 1234 & 5678 }]);
    assert_eq!((m.pc, m.odmik), (36, 0));

    m.sklad = vec![Podatek { i: 1234 }, Podatek { i: 5678 }];
    korak(&BXOR, &mut m, &mut vhod, &mut izhod);
    assert_eq!(m.sklad, [Podatek { i: 1234 ^ 5678 }]);
    assert_eq!((m.pc, m.odmik), (37, 0));

    m.sklad = vec![Podatek { i: 1234 }, Podatek { i: 5678 }];
    korak(&BOR, &mut m, &mut vhod, &mut izhod);
    assert_eq!(m.sklad, [Podatek { i: 1234 | 5678 }]);
    assert_eq!((m.pc, m.odmik), (38, 0));
}

fn stroj(sklad: &[i32]) -> Stroj {
    let mut m = Stroj::new();
    for &x in sklad {
        m.potisni(Podatek { i: x });
    }
    m
}

fn vrh(m: &Stroj) -> Vec<i32> {
    m.sklad.iter().map(|p| p.i).collect()
}

#[test]
fn zazeni_cela_stevila() {
    let cases: [(UkazPodatek, [i32; 2], i32); 13] = [
        (ADDI, [2, 3], 5),
        (ADDI, [i32::MAX, 1], i32::MIN),
        (SUBI, [2, 3], -1),
        (MULI, [1 << 20, 1 << 12], 0),
        (DIVI, [-7, 2], -3),
        (DIVI, [i32::MIN, -1], i32::MIN),
        (MODI, [-7, 2], -1),
        (MODI, [7, -2], 1),
        (MODI, [i32::MIN, -1], 0),
        (POWI, [3, 4], 81),
        (POWI, [2, 31], i32::MIN),
        (BSLL, [1, 4], 16),
        (BSLR, [-16, 2], -4),
    ];
    for (ukaz, [a, b], r) in cases {
        let mut m = stroj(&[a, b]);
        assert_eq!(m.korak(&ukaz), Dejanje::Naprej);
        assert_eq!(vrh(&m), vec![r], "{ukaz:?} {a} {b}");
        assert_eq!(m.pc, 1);
    }
}

#[test]
fn zazeni_sklad_in_naslovi() {
    let mut m = stroj(&[10, 20, 30]);
    m.korak(&ALOC(2));
    assert_eq!(vrh(&m), vec![10, 20, 30, 0, 0]);
    m.korak(&ALOC(-4));
    assert_eq!(vrh(&m), vec![10]);

    let mut m = stroj(&[10, 20, 30, 1]);
    m.korak(&LDDY(1));
    assert_eq!(vrh(&m), vec![10, 20, 30, 30]);

    let mut m = stroj(&[10, 20, 30, 99, 1]);
    m.korak(&STDY(0));
    assert_eq!(vrh(&m), vec![10, 99, 30]);

    let mut m = stroj(&[1, 2]);
    m.odmik = 0;
    assert_eq!(m.korak(&GETC), Dejanje::Preberi);
    assert_eq!(m.korak(&FLUSH), Dejanje::Splakni);
    assert_eq!(m.korak(&PUTC), Dejanje::Izpisi(Podatek { i: 2 }));
    assert_eq!(m.korak(&FTOI), Dejanje::Realno(RealnaOp::VCelo, Podatek { i: 1 }, Podatek { i: 0 }));
    assert_eq!(vrh(&m), vec![1]);
    assert_eq!(m.pc, 4);
}

#[test]
fn zazeni_debug_napake() {
    let mut m = Stroj::new();
    assert_eq!(m.korak_debug(&JMPD), None);
    assert_eq!(m.korak_debug(&LOAD(0)), None);
    assert_eq!(m.korak_debug(&SOFF), None);
    assert_eq!(m.pc, 0);

    let mut m = stroj(&[5, 6]);
    assert_eq!(m.korak_debug(&LOAD(2)), None);
    assert_eq!(m.korak_debug(&LOAD(-1)), None);
    assert_eq!(m.korak_debug(&STOR(1)), None);
    assert_eq!(m.pc, 0);

    let mut m = stroj(&[5, 6]);
    assert_eq!(m.korak_debug(&LOAD(1)), Some(Dejanje::Naprej));
    assert_eq!(vrh(&m), vec![5, 6, 6]);
    assert_eq!(m.korak_debug(&POS), Some(Dejanje::Realno(RealnaOp::Pozitivno, Podatek { i: 6 }, Podatek { i: 0 })));
    assert_eq!(m.korak_debug(&DIVI), Some(Dejanje::Naprej));
    assert_eq!(vrh(&m), vec![5, 1]);
    assert_eq!(m.pc, 3);
}

#[test]
fn zazeni_program() {
    let program = [
        PUSH(c('o')), PUSH(c('k')), PUSH(c('\n')),
        STOR(0), PUTC, PUTC, LOAD(0), PUTC,
        GETC, PUTC,
    ];
    let mut m = Stroj::new();
    m.potisni(Podatek { i: 0 });
    let mut vhod = Cursor::new("ž".as_bytes().to_vec());
    let mut izhod = Vec::<u8>::new();
    while (m.pc as usize) < program.len() {
        let ukaz = program[m.pc as usize];
        korak(&ukaz, &mut m, &mut vhod, &mut izhod);
    }
    assert_eq!(String::from_utf8(izhod).unwrap(), "ko\nž");
}

#[test]
fn zazeni_debug_manjkajoc_operand() {
    // an operation that finds too few operands is reported, and the machine stays
    for ukaz in [ADDI, SUBI, MULI, DIVI, MODI, POWI, ADDF, BOR, BSLL] {
        let mut m = stroj(&[1]);
        m.odmik = 3;
        assert_eq!(m.korak_debug(&ukaz), None);
        assert_eq!(vrh(&m), vec![1]);
        assert_eq!(m.pc, 0);
        assert_eq!(m.odmik, 3);
        assert!(m.korak_debug_mogoc(&ukaz));
    }
    // whole-number arithmetic wraps, as in the fast step
    let mut m = stroj(&[i32::MAX, 1]);
    assert_eq!(m.korak_debug(&ADDI), Some(Dejanje::Naprej));
    assert_eq!(vrh(&m), vec![i32::MIN]);
    // a division by zero is not a defined step
    let m = stroj(&[1, 0]);
    assert!(!m.korak_debug_mogoc(&DIVI));
}
