use slj::besede::Token;
use slj::drevo::OdmikIme;
use slj::vhod::{dekodiraj_znak, dodatni_bajti};

#[test]
fn odmik_ime_v_besedilo() {
    assert_eq!(OdmikIme::Odmik(-3).to_string(), "-3");
    assert_eq!(OdmikIme::Odmik(42).to_string(), "42");
    assert_eq!(OdmikIme::Ime(".main".to_string()).to_string(), ".main");
    assert_eq!(OdmikIme::Ime("x".to_string()).clone().to_string(), "x");
}

#[test]
fn token_set() {
    let mut t = Token::Locilo(";".to_string());
    assert_eq!(t.set("\n\n\n"), &Token::Locilo("\n".to_string()));
    assert_eq!(t.set(","), &Token::Locilo(",".to_string()));
    let mut t = Token::Ime(String::new());
    assert_eq!(t.set("\nx"), &Token::Ime("\nx".to_string()));
    let mut t = Token::Stevilo(String::new());
    t.set("-3.5");
    assert_eq!(t, Token::Stevilo("-3.5".to_string()));
}

#[test]
fn vhod_utf8() {
    assert_eq!(dodatni_bajti(b'a'), 0);
    assert_eq!(dodatni_bajti(0xC4), 1);
    assert_eq!(dodatni_bajti(0xE2), 2);
    assert_eq!(dodatni_bajti(0xF0), 3);
    assert_eq!(dodatni_bajti(0x80), 0);
    assert_eq!(dekodiraj_znak(&[0xC4, 0x91, 0, 0]), Some('đ'));
    assert_eq!(dekodiraj_znak(&[b'z', 0, 0, 0]), Some('z'));
    assert_eq!(dekodiraj_znak(&[0xF0, 0x9F, 0x98, 0xAD]), Some('😭'));
    assert_eq!(dekodiraj_znak(&[0xFF, 0, 0, 0]), None);
    assert_eq!(dekodiraj_znak(&[b'a', 0xC4, 0, 0]), None);
    assert_eq!(dekodiraj_znak(&[]), None);
}

#[test]
fn zeton_iz_zajema_mesto() {
    let z = slj::razclenjevanje::zeton_iz_zajema(3, (0, 2, 2, 5), 10, 4, 7);
    assert_eq!((z.vrsta, z.od, z.konec, z.vrstica, z.znak), (3, 12, 15, 4, 9));
}
