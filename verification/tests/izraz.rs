use std::rc::Rc;

use slj::izraz::Parser;
use slj::lekser::{Razcleni, Zeton::{Ime, Literal, Locilo, Neznano, Operator, Tip as TipZeton}, L};
use slj::napaka::OznakaNapake;
use slj::tip::Tip;
use slj::vozlisce::Vozlisce::{
    self, Add, Celo, CeloVReal, Div, Enako, Konjunkcija, Laz, Manjse, ManjseEnako, Mod, Mul, NiEnako, Pow, Preberi,
    Real, RealVCelo, RefSeznama, Referenca, Resnica, Spremenljivka, Sub, Vecje, VecjeEnako, Zanikaj, Znak, ZnakVCelo,
    BitniAli, Dolzina, Indeksiraj,
};

fn prazen() -> Parser {
    Parser::new()
}

fn z_realnimi(besedila: &[&str]) -> Parser {
    Parser {
        realna: besedila.iter().map(|b| (b.to_string(), b.parse::<f32>().unwrap().to_bits())).collect(),
        ..Parser::new()
    }
}

fn drevo(parser: &Parser, izraz: &[slj::lekser::Zeton]) -> Rc<Vozlisce> {
    match parser.drevo(izraz) {
        Some(Ok(d)) => d,
        _ => panic!("ni drevesa"),
    }
}

fn enako(a: &Rc<Vozlisce>, b: Vozlisce) -> bool {
    a.enako(&b)
}

#[test]
fn izraz_pretvorba() {
    let parser = z_realnimi(&["3.0"]);
    assert!(enako(
        &drevo(&parser, &[Literal(L::Celo("3", 1, 1, "")), Operator("kot", 1, 3, ""), TipZeton("real", 1, 7, "")]),
        CeloVReal(Celo(3).rc())
    ));
    assert!(enako(
        &drevo(&parser, &[Literal(L::Real("3.0", 1, 1, "")), Operator("kot", 1, 3, ""), TipZeton("celo", 1, 7, "")]),
        RealVCelo(Real(3.0f32.to_bits()).rc())
    ));
    assert!(enako(
        &drevo(&parser, &[Literal(L::Real("3.0", 1, 1, "")), Operator("kot", 1, 3, ""), TipZeton("real", 1, 7, "")]),
        Real(3.0f32.to_bits())
    ));
}

#[test]
fn izraz_aritmeticni() {
    let parser = prazen();
    let c = |x: &'static str, z: usize| Literal(L::Celo(x, 1, z, ""));
    assert!(enako(&drevo(&parser, &[c("3", 1), Operator("+", 1, 2, ""), c("2", 3)]), Add(Tip::Celo, Celo(3).rc(), Celo(2).rc())));
    assert!(enako(&drevo(&parser, &[c("3", 1), Operator("-", 1, 2, ""), c("2", 3)]), Sub(Tip::Celo, Celo(3).rc(), Celo(2).rc())));
    assert!(enako(&drevo(&parser, &[c("3", 1), Operator("*", 1, 2, ""), c("2", 3)]), Mul(Tip::Celo, Celo(3).rc(), Celo(2).rc())));
    assert!(enako(&drevo(&parser, &[c("3", 1), Operator("/", 1, 2, ""), c("2", 3)]), Div(Tip::Celo, Celo(3).rc(), Celo(2).rc())));
    assert!(enako(&drevo(&parser, &[c("3", 1), Operator("%", 1, 2, ""), c("2", 3)]), Mod(Tip::Celo, Celo(3).rc(), Celo(2).rc())));
    assert!(enako(&drevo(&parser, &[c("3", 1), Operator("**", 1, 2, ""), c("2", 4)]), Pow(Tip::Celo, Celo(3).rc(), Celo(2).rc())));

    assert!(enako(
        &drevo(&parser, "-(3-4)".razcleni("").as_slice()),
        Sub(Tip::Celo, Celo(0).rc(), Sub(Tip::Celo, Celo(3).rc(), Celo(4).rc()).rc())
    ));
    assert!(enako(&drevo(&parser, "-3".razcleni("").as_slice()), Celo(-3)));
    assert!(enako(&drevo(&parser, "-3 * 2".razcleni("").as_slice()), Mul(Tip::Celo, Celo(-3).rc(), Celo(2).rc())));
    assert!(enako(&drevo(&parser, "3 * -2".razcleni("").as_slice()), Mul(Tip::Celo, Celo(3).rc(), Celo(-2).rc())));
    assert!(enako(&drevo(&parser, "--1".razcleni("").as_slice()), Sub(Tip::Celo, Celo(0).rc(), Celo(-1).rc())));
    assert!(enako(&drevo(&parser, "2 + -1".razcleni("").as_slice()), Add(Tip::Celo, Celo(2).rc(), Celo(-1).rc())));
}

#[test]
fn izraz_primerjalni() {
    let parser = prazen();
    let c = |x: &'static str, z: usize| Literal(L::Celo(x, 1, z, ""));
    let p = |izraz: &[slj::lekser::Zeton]| match parser.primerjalni(izraz) {
        Some(Ok(d)) => d,
        _ => panic!("ni drevesa"),
    };
    assert!(enako(&p(&[c("3", 1), Operator("==", 1, 2, ""), c("2", 3)]), Enako(Tip::Celo, Celo(3).rc(), Celo(2).rc())));
    assert!(enako(&p(&[c("3", 1), Operator("!=", 1, 2, ""), c("2", 3)]), NiEnako(Tip::Celo, Celo(3).rc(), Celo(2).rc())));
    assert!(enako(&p(&[c("3", 1), Operator("<=", 1, 2, ""), c("2", 3)]), ManjseEnako(Tip::Celo, Celo(3).rc(), Celo(2).rc())));
    assert!(enako(&p(&[c("3", 1), Operator(">=", 1, 2, ""), c("2", 3)]), VecjeEnako(Tip::Celo, Celo(3).rc(), Celo(2).rc())));
    assert!(enako(&p(&[c("3", 1), Operator("<", 1, 2, ""), c("2", 3)]), Manjse(Tip::Celo, Celo(3).rc(), Celo(2).rc())));
    assert!(enako(&p(&[c("3", 1), Operator(">", 1, 2, ""), c("2", 4)]), Vecje(Tip::Celo, Celo(3).rc(), Celo(2).rc())));
}

fn napaka(parser: &Parser, izraz: &[slj::lekser::Zeton]) -> (OznakaNapake, String) {
    match parser.drevo(izraz) {
        Some(Err(n)) => {
            let n = n.napake();
            assert_eq!(n.len(), 1);
            (n[0].oznaka, n[0].sporocilo.clone())
        },
        _ => panic!("ni napake"),
    }
}

fn spremenljivka(ime: &str, tip: Tip, naslov: i32) -> Rc<Vozlisce> {
    Spremenljivka { tip, ime: ime.to_string(), naslov, z_odmikom: false, spremenljiva: true }.rc()
}

#[test]
fn izraz_literali() {
    let parser = z_realnimi(&["3.125"]);
    assert!(enako(&drevo(&parser, &[Literal(L::Bool("resnica", 1, 1, ""))]), Resnica));
    assert!(enako(&drevo(&parser, &[Literal(L::Bool("laž", 1, 1, ""))]), Laz));
    assert!(enako(&drevo(&parser, &[Operator("!", 1, 1, ""), Literal(L::Bool("laž", 1, 2, ""))]), Zanikaj(Laz.rc())));
    assert!(enako(&drevo(&parser, &[Locilo("(", 1, 1, ""), Literal(L::Bool("laž", 1, 2, "")), Locilo(")", 1, 5, "")]), Laz));
    assert!(enako(&drevo(&parser, &[Literal(L::Celo("3", 1, 1, ""))]), Celo(3)));
    assert!(enako(&drevo(&parser, &[Literal(L::Real("3.125", 1, 1, ""))]), Real(3.125f32.to_bits())));
    assert!(enako(&drevo(&parser, &[Literal(L::Celo("1_000", 1, 1, ""))]), Celo(1000)));
    assert!(enako(&drevo(&parser, &[Literal(L::Znak("'đ'", 1, 1, ""))]), Znak('đ')));
    assert!(enako(&drevo(&parser, &[Operator("-", 1, 1, ""), Literal(L::Real("3.125", 1, 2, ""))]), Real((-3.125f32).to_bits())));
    match parser.drevo(&[Literal(L::Niz("\"angleščina\\n\"", 1, 1, ""))]) {
        Some(Ok(d)) => match &*d {
            Vozlisce::Niz(s) => assert_eq!(s, "angleščina\n"),
            _ => panic!("ni niz"),
        },
        _ => panic!("ni drevesa"),
    }
    // a real literal whose bits are not given, and a call, are left aside
    assert!(prazen().drevo(&[Literal(L::Real("2.5", 1, 1, ""))]).is_none());
    assert!(parser.drevo(&[Ime("fun", 1, 1, ""), Locilo("(", 1, 4, ""), Locilo(")", 1, 5, "")]).is_none());
    assert!(enako(&drevo(&parser, &[]), Vozlisce::Prazno));
}

#[test]
fn izraz_spremenljivke() {
    let a = spremenljivka("a", Tip::Celo, 0);
    let s = spremenljivka("s", Tip::Seznam(Box::new(Tip::Celo), 3), 1);
    let parser = Parser { spremenljivke: vec![("a".to_string(), a.clone()), ("s".to_string(), s.clone())], ..Parser::new() };
    assert!(Rc::ptr_eq(&drevo(&parser, &[Ime("a", 1, 1, "")]), &a));
    assert!(enako(&drevo(&parser, &[Operator("@", 1, 1, ""), Ime("a", 1, 2, "")]), Referenca(a.clone())));
    assert!(matches!(&*drevo(&parser, &[Operator("@", 1, 1, ""), Ime("s", 1, 2, "")]), RefSeznama(x) if Rc::ptr_eq(x, &s)));
    assert!(matches!(&*drevo(&parser, &[Ime("s", 1, 1, ""), Locilo(".", 1, 2, ""), Ime("dolžina", 1, 3, "")]), Dolzina(x) if Rc::ptr_eq(x, &s)));
    let i = drevo(&parser, &[Ime("s", 1, 1, ""), Locilo("[", 1, 2, ""), Literal(L::Celo("1", 1, 3, "")), Locilo("]", 1, 4, "")]);
    match &*i {
        Indeksiraj { seznam_ref, indeks } => {
            assert!(matches!(&**seznam_ref, RefSeznama(x) if Rc::ptr_eq(x, &s)));
            assert!(indeks.enako(&Celo(1)));
        },
        _ => panic!("ni indeksa"),
    }
    assert!(enako(&drevo(&parser, "a + 1".razcleni("").as_slice()), Add(Tip::Celo, a.clone(), Celo(1).rc())));
    assert_eq!(napaka(&parser, &[Ime("b", 2, 5, "")]), (OznakaNapake::E2, "Neznana spremenljivka".to_string()));
    assert_eq!(
        napaka(&parser, &[Ime("a", 1, 1, ""), Locilo(".", 1, 2, ""), Ime("dolžina", 1, 3, "")]),
        (OznakaNapake::E2, "Tip 'celo' nima dolžine".to_string())
    );
    assert_eq!(
        napaka(&parser, &[Ime("a", 1, 1, ""), Operator("@", 1, 2, "")]),
        (OznakaNapake::E2, "Dereferenciramo lahko samo referenco.".to_string())
    );
}

#[test]
fn izraz_napake() {
    let parser = prazen();
    assert_eq!(
        napaka(&parser, "1 + resnica".razcleni("").as_slice()),
        (OznakaNapake::E5, "Nemogoča operacija: celo + bool".to_string())
    );
    assert_eq!(
        napaka(&parser, "1 && resnica".razcleni("").as_slice()),
        (OznakaNapake::E5, "Neveljavna tipa za operacijo: celo && bool".to_string())
    );
    assert_eq!(
        napaka(&parser, "!1".razcleni("").as_slice()),
        (OznakaNapake::E9, "Zanikati je mogoče samo Boolove vrednosti".to_string())
    );
    assert_eq!(
        napaka(&parser, "-resnica".razcleni("").as_slice()),
        (OznakaNapake::E9, "Izraza ni mogoče negirati".to_string())
    );
    assert_eq!(napaka(&parser, &[Neznano("$", 1, 1, "")]), (OznakaNapake::E1, "Neznana beseda".to_string()));
    assert_eq!(
        napaka(&parser, &[Literal(L::Celo("1", 1, 1, "")), Literal(L::Celo("2", 1, 3, ""))]),
        (OznakaNapake::E1, "Neznan izraz: 1 2".to_string())
    );
    assert_eq!(
        napaka(&parser, "resnica kot celo".razcleni("").as_slice()),
        (OznakaNapake::E1, "Tipa bool ni mogoče pretvoriti v celo".to_string())
    );
    assert_eq!(napaka(&parser, "(1 + 2".razcleni("").as_slice()).0, OznakaNapake::E1);
}

#[test]
fn izraz_prednost() {
    let parser = prazen();
    // the operands of `+` and `-` are read at the level of `*`
    assert_eq!(
        napaka(&parser, "1 - 2 - 3".razcleni("").as_slice()),
        (OznakaNapake::E1, "Neznan izraz: 1 - 2".to_string())
    );
    assert!(enako(
        &drevo(&parser, "8 / 4 / 2".razcleni("").as_slice()),
        Div(Tip::Celo, Div(Tip::Celo, Celo(8).rc(), Celo(4).rc()).rc(), Celo(2).rc())
    ));
    assert!(enako(
        &drevo(&parser, "1 + 2 * 3".razcleni("").as_slice()),
        Add(Tip::Celo, Celo(1).rc(), Mul(Tip::Celo, Celo(2).rc(), Celo(3).rc()).rc())
    ));
    assert!(enako(
        &drevo(&parser, "1 < 2 && 2 < 3".razcleni("").as_slice()),
        Konjunkcija(Manjse(Tip::Celo, Celo(1).rc(), Celo(2).rc()).rc(), Manjse(Tip::Celo, Celo(2).rc(), Celo(3).rc()).rc())
    ));
    assert!(enako(&drevo(&parser, "1 | 2".razcleni("").as_slice()), BitniAli(Celo(1).rc(), Celo(2).rc())));
    match &*drevo(&parser, "'a' == 'b'".razcleni("").as_slice()) {
        Enako(Tip::Celo, l, d) => {
            assert!(matches!(&**l, ZnakVCelo(x) if x.enako(&Znak('a'))));
            assert!(matches!(&**d, ZnakVCelo(x) if x.enako(&Znak('b'))));
        },
        _ => panic!("ni primerjave"),
    }
    assert!(matches!(&*drevo(&parser, "asm(\"GETC\")".razcleni("").as_slice()), Preberi));
}

#[test]
fn izraz_tipiziran() {
    let a = spremenljivka("a", Tip::Real, 0);
    let parser = Parser { spremenljivke: vec![("a".to_string(), a)], ..Parser::new() };
    for izraz in ["a * a", "a kot celo + 1", "!(1 < 2)", "@a", "-a"] {
        let d = drevo(&parser, izraz.razcleni("").as_slice());
        assert!(d.tip().is_some());
    }
    assert_eq!(drevo(&parser, "a kot celo + 1".razcleni("").as_slice()).tip().unwrap().to_string(), "celo");
}
