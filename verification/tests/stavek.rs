use std::rc::Rc;

use slj::izraz::Parser;
use slj::lekser::Razcleni;
use slj::napaka::{Napake, OznakaNapake};
use slj::tip::Tip;
use slj::vozlisce::Vozlisce;

fn ena_napaka(r: Option<Result<Rc<Vozlisce>, Napake>>) -> (OznakaNapake, String) {
    match r {
        Some(Err(n)) => {
            let n = n.napake();
            assert_eq!(n.len(), 1);
            (n[0].oznaka, n[0].sporocilo.clone())
        },
        _ => panic!("ni napake"),
    }
}

fn drevo(r: Option<Result<Rc<Vozlisce>, Napake>>) -> Rc<Vozlisce> {
    match r {
        Some(Ok(d)) => d,
        _ => panic!("ni drevesa"),
    }
}

fn spremenljivka(ime: &str, tip: Tip, naslov: i32, z_odmikom: bool) -> Rc<Vozlisce> {
    Vozlisce::Spremenljivka { tip, ime: ime.to_string(), naslov, z_odmikom, spremenljiva: true }.rc()
}

#[test]
fn stavek_deklaracija_in_prirejanje() {
    let mut p = Parser::new();
    let t = "naj a: celo\na = 3\nnaj b = a + 1".razcleni("");
    let d = drevo(p.okvir(t.as_slice()));
    let a = spremenljivka("a", Tip::Celo, 0, false);
    let b = spremenljivka("b", Tip::Celo, 1, false);
    let pricakovano = Vozlisce::Zaporedje(vec![
        Vozlisce::Prazno.rc(),
        Vozlisce::Prirejanje { spremenljivka: a.clone(), izraz: Vozlisce::Celo(3).rc() }.rc(),
        Vozlisce::Prirejanje {
            spremenljivka: b,
            izraz: Vozlisce::Add(Tip::Celo, a, Vozlisce::Celo(1).rc()).rc(),
        }.rc(),
    ]);
    assert!(d.enako(&pricakovano));
    assert!(p.spremenljivke.is_empty());
    assert!(p.okvirji.is_empty());
    assert_eq!(p.prostor, 2);
}

#[test]
fn stavek_deklaracija_seznama() {
    let mut p = Parser::new();
    let t = "naj s: [celo; 4]".razcleni("");
    let d = drevo(p.okvir(t.as_slice()));
    let s = spremenljivka("s", Tip::Seznam(Box::new(Tip::Celo), 4), 0, false);
    let pricakovano = Vozlisce::Zaporedje(vec![
        Vozlisce::Prirejanje { spremenljivka: s, izraz: Vozlisce::Celo(4).rc() }.rc(),
    ]);
    assert!(d.enako(&pricakovano));
}

#[test]
fn stavek_napake_spremenljivk() {
    let mut p = Parser::new();
    let t = "naj a: celo; naj a: real".razcleni("");
    assert_eq!(ena_napaka(p.okvir(t.as_slice())), (OznakaNapake::E2, "Spremenljivka že obstaja".to_string()));

    let mut p = Parser::new();
    let t = "b = 3".razcleni("");
    assert_eq!(ena_napaka(p.okvir(t.as_slice())), (OznakaNapake::E2, "Neznana spremenljivka".to_string()));

    let mut p = Parser::new();
    let t = "naj a = 3; a@ = 4".razcleni("");
    assert_eq!(
        ena_napaka(p.okvir(t.as_slice())),
        (OznakaNapake::E2, "V spremenljivko tipa 'celo' ni mogoče Dereferencirati.".to_string())
    );

    let mut p = Parser::new();
    let t = "naj a = 3; a ! 4".razcleni("");
    assert_eq!(ena_napaka(p.okvir(t.as_slice())), (OznakaNapake::E1, "Neznan izraz".to_string()));
}

#[test]
fn stavek_napake_zbrane() {
    let mut p = Parser::new();
    let t = "b = 3\nc = 4".razcleni("");
    match p.okvir(t.as_slice()) {
        Some(Err(n)) => assert_eq!(n.napake().len(), 2),
        _ => panic!("ni napak"),
    }
}

#[test]
fn stavek_pogoj() {
    let mut p = Parser::new();
    let t = "če 3 { }".razcleni("");
    assert_eq!(ena_napaka(p.okvir(t.as_slice())), (OznakaNapake::E6, "Pogoj mora biti Boolova vrednost".to_string()));

    let mut p = Parser::new();
    let t = "dokler 1 + 2 { }".razcleni("");
    assert_eq!(ena_napaka(p.okvir(t.as_slice())), (OznakaNapake::E6, "Pogoj mora biti Boolova vrednost".to_string()));

    let mut p = Parser::new();
    let t = "če resnica { naj a = 1 } čene { naj b = laž }".razcleni("");
    let d = drevo(p.okvir(t.as_slice()));
    match &*d {
        Vozlisce::Zaporedje(v) => {
            assert_eq!(v.len(), 1);
            assert!(matches!(&*v[0], Vozlisce::PogojniStavek { .. }));
        },
        _ => panic!("ni zaporedje"),
    }
}

#[test]
fn stavek_zanka() {
    let mut p = Parser::new();
    let t = "naj i = 0\ndokler i < 3 {\nnaj j = i + 1\ni = j\n}".razcleni("");
    let d = drevo(p.okvir(t.as_slice()));
    match &*d {
        Vozlisce::Zaporedje(v) => {
            assert_eq!(v.len(), 2);
            match &*v[1] {
                Vozlisce::Okvir { zaporedje, st_spr } => {
                    assert_eq!(*st_spr, 1);
                    assert!(matches!(&**zaporedje, Vozlisce::Zanka { .. }));
                },
                _ => panic!("ni okvir"),
            }
        },
        _ => panic!("ni zaporedje"),
    }
    assert!(p.spremenljivke.is_empty());
}

#[test]
fn stavek_vrni_zunaj_funkcije() {
    let mut p = Parser::new();
    let t = "vrni 3".razcleni("");
    assert_eq!(
        ena_napaka(p.stavek(t.as_slice())),
        (OznakaNapake::E5, "nepričakovana beseda: 'vrni', uprabljena zunaj funkcije".to_string())
    );
}

#[test]
fn stavek_funkcija() {
    let mut p = Parser::new();
    let t = "funkcija f(a: celo, b: celo) -> celo { vrni a + b }".razcleni("");
    let d = drevo(p.stavek(t.as_slice()));
    let a = spremenljivka("a", Tip::Celo, 1, true);
    let b = spremenljivka("b", Tip::Celo, 2, true);
    let vrni = spremenljivka("0_vrni", Tip::Celo, 0, true);
    let pricakovano = Vozlisce::Funkcija {
        tip: Tip::Celo,
        ime: "f(celo, celo)".to_string(),
        parametri: vec![a.clone(), b.clone()],
        telo: Vozlisce::Zaporedje(vec![
            Vozlisce::Vrni(
                Vozlisce::Prirejanje { spremenljivka: vrni, izraz: Vozlisce::Add(Tip::Celo, a, b).rc() }.rc(),
            ).rc(),
        ]).rc(),
        prostor: 0,
    };
    assert!(d.enako(&pricakovano));
    assert_eq!(p.funkcije.len(), 1);
    assert_eq!(p.funkcije[0].0, "f(celo, celo)");
    assert!(p.funkcije[0].1.enako(&pricakovano));
    assert!(p.spremenljivke.is_empty());
    assert!(!p.znotraj_funkcije);
}

#[test]
fn stavek_funkcija_prostor() {
    let mut p = Parser::new();
    let t = "funkcija g() { naj x: celo; naj y: [real; 3] }".razcleni("");
    let d = drevo(p.stavek(t.as_slice()));
    match &*d {
        Vozlisce::Funkcija { ime, parametri, prostor, tip, .. } => {
            assert_eq!(ime, "g()");
            assert!(parametri.is_empty());
            assert_eq!(*prostor, 5);
            assert_eq!(*tip, Tip::Brez);
        },
        _ => panic!("ni funkcija"),
    }
}

#[test]
fn stavek_funkcija_napake() {
    let mut p = Parser::new();
    let t = "funkcija f(a: celo, a: real) { }".razcleni("");
    assert_eq!(
        ena_napaka(p.stavek(t.as_slice())),
        (OznakaNapake::E7, "Imena parametrov morajo biti unikatna".to_string())
    );
    assert!(p.funkcije.is_empty());

    let t = "funkcija f(a celo) { }".razcleni("");
    assert_eq!(ena_napaka(p.stavek(t.as_slice())), (OznakaNapake::E5, "Pričakovano ':'".to_string()));

    let t = "funkcija f(a:) { }".razcleni("");
    assert_eq!(ena_napaka(p.stavek(t.as_slice())), (OznakaNapake::E5, "Za ':' pričakovan tip".to_string()));

    let t = "funkcija f() -> { }".razcleni("");
    assert_eq!(ena_napaka(p.stavek(t.as_slice())), (OznakaNapake::E5, "Za '->' pričakovan tip".to_string()));

    let t = "funkcija f() celo { }".razcleni("");
    assert_eq!(ena_napaka(p.stavek(t.as_slice())), (OznakaNapake::E5, "Pričakovan '-> <tip>'".to_string()));

    let t = "funkcija f() { } 3".razcleni("");
    assert_eq!(
        ena_napaka(p.stavek(t.as_slice())),
        (OznakaNapake::E3, "Izraz funkcije se mora zaključiti z '}'".to_string())
    );

    let t = "funkcija f() -> celo { vrni resnica }".razcleni("");
    assert_eq!(
        ena_napaka(p.stavek(t.as_slice())),
        (OznakaNapake::E3, "Ne morem vrniti spremenljivke tipa 'bool' iz funkcije tipa 'celo'".to_string())
    );

    let t = "funkcija f { }".razcleni("");
    assert_eq!(ena_napaka(p.stavek(t.as_slice())), (OznakaNapake::E5, "Pričakovan '('".to_string()));
    assert!(p.funkcije.is_empty());
}

#[test]
fn stavek_klic_funkcije() {
    let mut p = Parser::new();
    let t = "funkcija f(a: celo) -> celo { vrni a }\nf(3)".razcleni("");
    let d = drevo(p.okvir(t.as_slice()));
    match &*d {
        Vozlisce::Zaporedje(v) => {
            assert_eq!(v.len(), 2);
            assert!(matches!(&*v[0], Vozlisce::Funkcija { .. }));
            match &*v[1] {
                Vozlisce::Zaporedje(k) => {
                    assert_eq!(k.len(), 2);
                    match &*k[0] {
                        Vozlisce::FunkcijskiKlic { funkcija, spremenljivke, argumenti } => {
                            assert!(funkcija.enako(&v[0]));
                            assert!(spremenljivke.enako(&Vozlisce::Zaporedje(vec![Vozlisce::Prazno.rc()])));
                            assert!(argumenti.enako(&Vozlisce::Zaporedje(vec![Vozlisce::Celo(3).rc()])));
                        },
                        _ => panic!("ni klic"),
                    }
                    assert!(k[1].enako(&Vozlisce::Pop(1)));
                    assert_eq!(p.klici, vec!["f(celo)".to_string()]);
                },
                _ => panic!("ni zaporedje"),
            }
        },
        _ => panic!("ni zaporedje"),
    }
}

#[test]
fn stavek_klic_neznane_funkcije() {
    let mut p = Parser::new();
    let t = "g(3, resnica)".razcleni("");
    assert_eq!(
        ena_napaka(p.okvir(t.as_slice())),
        (OznakaNapake::E2, "Funkcija 'g(celo, bool)' ne obstaja".to_string())
    );
}

#[test]
fn stavek_natisni() {
    let mut p = Parser::new();
    let t = "natisni('a')".razcleni("");
    let d = drevo(p.okvir(t.as_slice()));
    match &*d {
        Vozlisce::Zaporedje(v) => {
            assert_eq!(v.len(), 1);
            assert!(matches!(&*v[0], Vozlisce::Natisni(_)));
        },
        _ => panic!("ni zaporedje"),
    }

    let mut p = Parser::new();
    let t = "natisni(1)".razcleni("");
    assert_eq!(
        ena_napaka(p.okvir(t.as_slice())),
        (OznakaNapake::E2, "Funkcija 'natisni(celo)' ne obstaja".to_string())
    );
}

#[test]
fn stavek_multi_klic() {
    let mut p = Parser::new();
    let t = "funkcija f(a: celo) { }\nf!(1, 2)".razcleni("");
    let d = drevo(p.okvir(t.as_slice()));
    match &*d {
        Vozlisce::Zaporedje(v) => {
            assert_eq!(v.len(), 2);
            match &*v[1] {
                Vozlisce::Zaporedje(k) => {
                    assert_eq!(k.len(), 2);
                    assert!(matches!(&*k[0], Vozlisce::FunkcijskiKlic { .. }));
                    assert!(matches!(&*k[1], Vozlisce::FunkcijskiKlic { .. }));
                    assert_eq!(p.klici, vec!["f(celo)".to_string(), "f(celo)".to_string()]);
                },
                _ => panic!("ni zaporedje"),
            }
        },
        _ => panic!("ni zaporedje"),
    }

    let mut p = Parser::new();
    let t = "funkcija f(a: celo) { }\nf!(1, resnica, 'c')".razcleni("");
    match p.okvir(t.as_slice()) {
        Some(Err(n)) => {
            let n = n.napake();
            assert_eq!(n.len(), 2);
            assert_eq!(n[0].sporocilo, "Funkcija 'f(bool)' ne obstaja");
            assert_eq!(n[1].sporocilo, "Funkcija 'f(znak)' ne obstaja");
        },
        _ => panic!("ni napak"),
    }
}

#[test]
fn stavek_argumenti() {
    let mut p = Parser::new();
    p.okvirji.push(0);
    let t = "1, , @3".razcleni("");
    match p.argumenti(t.as_slice()) {
        Some(Ok(a)) => {
            assert_eq!(a.tipi, vec![Tip::Celo, Tip::Brez, Tip::Referenca(Box::new(Tip::Celo))]);
            assert_eq!(a.argumenti.len(), 3);
            let spr = Vozlisce::Spremenljivka {
                tip: Tip::Celo,
                ime: "00".to_string(),
                naslov: 0,
                z_odmikom: false,
                spremenljiva: false,
            }.rc();
            assert!(a.argumenti[0].enako(&Vozlisce::Celo(1)));
            assert!(a.spremenljivke[0].enako(&Vozlisce::Prazno));
            assert!(a.argumenti[1].enako(&Vozlisce::Prazno));
            assert!(a.spremenljivke[1].enako(&Vozlisce::Prazno));
            assert!(a.argumenti[2].enako(&Vozlisce::Referenca(spr.clone())));
            assert!(a.spremenljivke[2].enako(&Vozlisce::Prirejanje { spremenljivka: spr, izraz: Vozlisce::Celo(3).rc() }));
        },
        _ => panic!("ni argumentov"),
    }
    assert_eq!(p.spremenljivke.len(), 1);
    assert_eq!(p.spremenljivke[0].0, "00");
}

#[test]
fn stavek_kombinirano_prirejanje() {
    let mut p = Parser::new();
    let t = "naj a = 1\na += 2".razcleni("");
    let d = drevo(p.okvir(t.as_slice()));
    let a = spremenljivka("a", Tip::Celo, 0, false);
    let pricakovano = Vozlisce::Zaporedje(vec![
        Vozlisce::Prirejanje { spremenljivka: a.clone(), izraz: Vozlisce::Celo(1).rc() }.rc(),
        Vozlisce::Prirejanje {
            spremenljivka: a.clone(),
            izraz: Vozlisce::Add(Tip::Celo, a, Vozlisce::Celo(2).rc()).rc(),
        }.rc(),
    ]);
    assert!(d.enako(&pricakovano));

    let mut p = Parser::new();
    let t = "naj b = resnica\nb &&= laž\nb |= laž".razcleni("");
    assert_eq!(ena_napaka(p.okvir(t.as_slice())), (OznakaNapake::E3, "Nemogoča operacija: bool |= bool".to_string()));

    let mut p = Parser::new();
    let t = "c -= 1".razcleni("");
    assert_eq!(ena_napaka(p.okvir(t.as_slice())), (OznakaNapake::E2, "Neznana spremenljivka".to_string()));

    let mut p = Parser::new();
    let t = "naj c = 1\nc@ += 1".razcleni("");
    assert_eq!(
        ena_napaka(p.okvir(t.as_slice())),
        (OznakaNapake::E3, "Dereferencirati je mogoče samo referenco.".to_string())
    );
}

#[test]
fn stavek_prirejanje_elementu() {
    let mut p = Parser::new();
    let t = "naj s: [celo; 3]\ns[1] = 7".razcleni("");
    let d = drevo(p.okvir(t.as_slice()));
    match &*d {
        Vozlisce::Zaporedje(v) => {
            assert_eq!(v.len(), 2);
            match &*v[1] {
                Vozlisce::PrirejanjeRef { referenca, indeks, izraz } => {
                    assert!(matches!(&**referenca, Vozlisce::RefSeznama(_)));
                    assert!(indeks.as_ref().unwrap().enako(&Vozlisce::Celo(1)));
                    assert!(izraz.enako(&Vozlisce::Celo(7)));
                },
                _ => panic!("ni prirejanje"),
            }
        },
        _ => panic!("ni zaporedje"),
    }

    let mut p = Parser::new();
    let t = "naj s: [celo; 3]\ns[1] = resnica".razcleni("");
    assert_eq!(ena_napaka(p.okvir(t.as_slice())), (OznakaNapake::E3, "Nemogoča operacija: celo = bool".to_string()));

    let mut p = Parser::new();
    let t = "naj s: [celo; 3]\ns['a'] = 1".razcleni("");
    assert_eq!(ena_napaka(p.okvir(t.as_slice())), (OznakaNapake::E3, "Neveljaven tip indeksa: 'znak'".to_string()));

    let mut p = Parser::new();
    let t = "naj s = 3\ns[0] = 1".razcleni("");
    assert_eq!(
        ena_napaka(p.okvir(t.as_slice())),
        (OznakaNapake::E2, "V spremenljivko tipa 'celo' ni mogoče indeksirati.".to_string())
    );

    let mut p = Parser::new();
    let t = "naj s: [celo; 3]\ns[0] 1".razcleni("");
    assert_eq!(ena_napaka(p.okvir(t.as_slice())), (OznakaNapake::E5, "Pričakovan '='".to_string()));
}

#[test]
fn stavek_zanka_za() {
    let mut p = Parser::new();
    let t = "za i = 0, i < 3, i += 1 {\nnaj j = i\n}".razcleni("");
    let d = drevo(p.okvir(t.as_slice()));
    match &*d {
        Vozlisce::Zaporedje(v) => {
            assert_eq!(v.len(), 1);
            match &*v[0] {
                Vozlisce::Okvir { zaporedje, st_spr } => {
                    assert_eq!(*st_spr, 1);
                    match &**zaporedje {
                        Vozlisce::Zaporedje(z) => {
                            assert_eq!(z.len(), 2);
                            assert!(matches!(&*z[0], Vozlisce::Prirejanje { .. }));
                            assert!(matches!(&*z[1], Vozlisce::Zanka { .. }));
                        },
                        _ => panic!("ni zaporedje"),
                    }
                },
                _ => panic!("ni okvir"),
            }
        },
        _ => panic!("ni zaporedje"),
    }
    assert!(p.spremenljivke.is_empty());

    let mut p = Parser::new();
    let t = "za i = 0, i < 3 { }".razcleni("");
    assert_eq!(ena_napaka(p.okvir(t.as_slice())), (OznakaNapake::E5, "Pričakovan ','".to_string()));
}

#[test]
fn stavek_definicija_in_klic() {
    let mut p = Parser::new();
    let t = "funkcija g(x: celo, y: bool) { }\ng(1, resnica)".razcleni("");
    let d = drevo(p.okvir(t.as_slice()));
    assert_eq!(p.funkcije.len(), 1);
    assert_eq!(p.funkcije[0].0, "g(celo, bool)");
    assert_eq!(p.klici, vec!["g(celo, bool)".to_string()]);
    match &*d {
        Vozlisce::Zaporedje(v) => match &*v[1] {
            Vozlisce::Zaporedje(k) => match &*k[0] {
                Vozlisce::FunkcijskiKlic { funkcija, .. } => assert!(funkcija.enako(&p.funkcije[0].1)),
                _ => panic!("ni klic"),
            },
            _ => panic!("ni zaporedje"),
        },
        _ => panic!("ni zaporedje"),
    }
}
