use slj::program::{Podatek, UkazPodatek};
use slj::tip::Tip;
use slj::vmesna_koda::{postprocesiraj, vrni_v_oznake, UkazPodatekRelative};

fn oznaka(s: &str) -> UkazPodatekRelative {
    UkazPodatekRelative::Oznaka(s.to_string())
}

#[test]
fn vmesna_koda_v_program() {
    let bits = Podatek { i: 2.5f32.to_bits() as i32 };
    let koda = vec![
        oznaka("main"),
        UkazPodatekRelative::PUSHI(1),
        UkazPodatekRelative::JUMPRel("x".to_string()),
        oznaka("x"),
        UkazPodatekRelative::PUSHC('a'),
        oznaka("vrni"),
        UkazPodatekRelative::PC(2),
        oznaka("fn_end_f"),
        UkazPodatekRelative::CALL("main".to_string()),
        UkazPodatekRelative::JMPCRel("fn_end_f".to_string()),
        UkazPodatekRelative::PUSHF(bits),
        UkazPodatekRelative::Osnovni(UkazPodatek::PUTC),
    ];
    let koda = vrni_v_oznake(&koda);
    assert!(matches!(&koda[5], UkazPodatekRelative::JUMPRel(l) if l == "fn_end_f"));
    assert!(matches!(&koda[2], UkazPodatekRelative::JUMPRel(l) if l == "x"));

    let (ukazi, tipi) = postprocesiraj(&koda);
    assert_eq!(
        ukazi,
        vec![
            UkazPodatek::PUSH(Podatek { i: 1 }),
            UkazPodatek::PUSH(Podatek { i: 97 }),
            UkazPodatek::JUMP(4),
            UkazPodatek::PUSH(Podatek { i: 5 }),
            UkazPodatek::JUMP(0),
            UkazPodatek::JMPC(4),
            UkazPodatek::PUSH(bits),
            UkazPodatek::PUTC,
        ]
    );
    assert_eq!(tipi, vec![Tip::Celo, Tip::Znak, Tip::Celo, Tip::Real]);
}

#[test]
fn vmesna_koda_zadnja_oznaka_velja() {
    let koda = vec![
        oznaka("a"),
        UkazPodatekRelative::Osnovni(UkazPodatek::NOOP),
        oznaka("a"),
        UkazPodatekRelative::JUMPRel("a".to_string()),
    ];
    let (ukazi, tipi) = postprocesiraj(&koda);
    assert_eq!(ukazi, vec![UkazPodatek::NOOP, UkazPodatek::JUMP(1)]);
    assert!(tipi.is_empty());
}

#[test]
fn vmesna_koda_vrni_brez_spremembe_drugod() {
    let koda = vec![UkazPodatekRelative::PUSHI(3), oznaka("fn_end_g")];
    let nova = vrni_v_oznake(&koda);
    assert!(matches!(nova[0], UkazPodatekRelative::PUSHI(3)));
    assert!(matches!(&nova[1], UkazPodatekRelative::Oznaka(l) if l == "fn_end_g"));
}
