use std::rc::Rc;

use slj::tip::Tip;
use slj::vozlisce::Vozlisce::{
    self, Add, Celo, Dereferenciraj, Dolzina, Enako, Funkcija, FunkcijskiKlic, Indeksiraj, Laz, Mul, NaloziOdmik, Niz,
    PogojniStavek, Pop, Prazno, Preberi, Prirejanje, Push, Real, RefSeznama, Referenca, Resnica, ShraniOdmik,
    Spremenljivka, Vrh, Zanka, Zaporedje, Znak,
};

fn smir(tip: Tip) -> Vozlisce {
    Spremenljivka { tip, ime: "šmir".to_string(), naslov: 0, z_odmikom: false, spremenljiva: false }
}

fn seznam_znakov() -> Tip {
    Tip::Seznam(Box::new(Tip::Znak), 4)
}

#[test]
fn sprememba_stacka() {
    assert_eq!(Prazno.sprememba_stacka(), Some(0));
    assert_eq!(Push(2).sprememba_stacka(), Some(2));
    assert_eq!(Pop(2).sprememba_stacka(), Some(-2));
    assert_eq!(Vrh(-3).sprememba_stacka(), Some(0));
    assert_eq!(NaloziOdmik.sprememba_stacka(), Some(1));
    assert_eq!(ShraniOdmik.sprememba_stacka(), Some(-1));
    assert_eq!(Celo(0).sprememba_stacka(), Some(1));
    assert_eq!(Real(0.0f32.to_bits()).sprememba_stacka(), Some(1));
    assert_eq!(Znak('a').sprememba_stacka(), Some(1));
    assert_eq!(Resnica.sprememba_stacka(), Some(1));
    assert_eq!(Laz.sprememba_stacka(), Some(1));
    assert_eq!(Niz("šipa".to_string()).sprememba_stacka(), Some(4));

    assert_eq!(smir(seznam_znakov()).sprememba_stacka(), Some(5));
    assert_eq!(Referenca(smir(seznam_znakov()).rc()).sprememba_stacka(), Some(1));
    assert_eq!(RefSeznama(smir(seznam_znakov()).rc()).sprememba_stacka(), Some(1));

    assert_eq!(
        Dereferenciraj(smir(Tip::Referenca(Box::new(seznam_znakov()))).rc()).sprememba_stacka(),
        Some(5)
    );
    assert_eq!(Dereferenciraj(Referenca(smir(seznam_znakov()).rc()).rc()).sprememba_stacka(), Some(5));

    assert_eq!(
        Indeksiraj { seznam_ref: smir(seznam_znakov()).rc(), indeks: Celo(0).rc() }.sprememba_stacka(),
        Some(1)
    );
    assert_eq!(
        Indeksiraj { seznam_ref: RefSeznama(smir(seznam_znakov()).rc()).rc(), indeks: Celo(1).rc() }
            .sprememba_stacka(),
        Some(1)
    );
}

#[test]
fn sprememba_stacka_izrazov() {
    // an operation leaves one cell less than its operands
    let vsota = Add(Tip::Celo, Celo(1).rc(), Celo(2).rc());
    assert_eq!(vsota.sprememba_stacka(), Some(1));
    // a branch: the condition less one, and the larger branch
    let pogojni = PogojniStavek { pogoj: Resnica.rc(), resnica: Push(3).rc(), laz: Push(1).rc() };
    assert_eq!(pogojni.sprememba_stacka(), Some(3));
    // a sequence: the sum of its nodes
    let zaporedje = Zaporedje(vec![Push(2).rc(), Pop(1).rc(), Celo(5).rc()]);
    assert_eq!(zaporedje.sprememba_stacka(), Some(2));
    // assignments and loops
    let prirejanje = Prirejanje { spremenljivka: smir(Tip::Celo).rc(), izraz: Celo(1).rc() };
    assert_eq!(prirejanje.sprememba_stacka(), Some(0));
    let zanka = Zanka { pogoj: Laz.rc(), telo: Push(4).rc() };
    assert_eq!(zanka.sprememba_stacka(), Some(4));
}

#[test]
fn sprememba_stacka_napake() {
    // a count that leaves i32
    assert_eq!(Pop(i32::MIN).sprememba_stacka(), None);
    let velika = Zaporedje(vec![Push(i32::MAX).rc(), Push(1).rc()]);
    assert_eq!(velika.sprememba_stacka(), None);
    assert_eq!(smir(Tip::Seznam(Box::new(Tip::Celo), i32::MAX)).sprememba_stacka(), None);
    // a dereference of what is no variable, or of a variable of a plain type
    assert_eq!(Dereferenciraj(Celo(1).rc()).sprememba_stacka(), None);
    assert_eq!(Dereferenciraj(smir(Tip::Celo).rc()).sprememba_stacka(), None);
    // an index into a variable that is no array
    assert_eq!(Indeksiraj { seznam_ref: smir(Tip::Celo).rc(), indeks: Celo(0).rc() }.sprememba_stacka(), None);
}

#[test]
fn tip_vozlisc() {
    assert_eq!(Celo(3).tip(), Some(Tip::Celo));
    assert_eq!(Real(1.5f32.to_bits()).tip(), Some(Tip::Real));
    assert_eq!(Niz("šipa".to_string()).tip(), Some(Tip::Seznam(Box::new(Tip::Znak), 4)));
    assert_eq!(Enako(Tip::Celo, Celo(1).rc(), Celo(2).rc()).tip(), Some(Tip::Bool));
    assert_eq!(Add(Tip::Real, Real(0).rc(), Real(0).rc()).tip(), Some(Tip::Real));
    assert_eq!(Referenca(smir(Tip::Celo).rc()).tip(), Some(Tip::Referenca(Box::new(Tip::Celo))));
    assert_eq!(RefSeznama(smir(seznam_znakov()).rc()).tip(), Some(Tip::RefSeznama(Box::new(Tip::Znak))));
    assert_eq!(
        Dereferenciraj(smir(Tip::Referenca(Box::new(Tip::Bool))).rc()).tip(),
        Some(Tip::Bool)
    );
    assert_eq!(Indeksiraj { seznam_ref: smir(seznam_znakov()).rc(), indeks: Celo(0).rc() }.tip(), Some(Tip::Znak));
    assert_eq!(Preberi.tip(), Some(Tip::Znak));
    assert_eq!(Zaporedje(vec![]).tip(), Some(Tip::Brez));
    let f = Funkcija {
        tip: Tip::Real,
        ime: "f".to_string(),
        parametri: vec![],
        telo: Zaporedje(vec![]).rc(),
        prostor: 0,
    }
    .rc();
    let klic = FunkcijskiKlic { funkcija: f, spremenljivke: Zaporedje(vec![]).rc(), argumenti: Zaporedje(vec![]).rc() };
    assert_eq!(klic.tip(), Some(Tip::Real));
    // what cannot be dereferenced or indexed has no type
    assert_eq!(Dereferenciraj(smir(Tip::Celo).rc()).tip(), None);
    assert_eq!(RefSeznama(smir(Tip::Celo).rc()).tip(), None);
    assert_eq!(Indeksiraj { seznam_ref: Celo(1).rc(), indeks: Celo(0).rc() }.tip(), None);
}

#[test]
fn enakost_vozlisc() {
    assert!(Celo(3).enako(&Celo(3)));
    assert!(!Celo(3).enako(&Celo(4)));
    assert!(!Celo(3).enako(&Znak('3')));
    // real numbers compare as numbers
    assert!(Real(0.0f32.to_bits()).enako(&Real((-0.0f32).to_bits())));
    assert!(!Real(f32::NAN.to_bits()).enako(&Real(f32::NAN.to_bits())));
    assert!(Real(2.5f32.to_bits()).enako(&Real(2.5f32.to_bits())));
    // children, types and names
    let a = Add(Tip::Celo, Celo(1).rc(), smir(Tip::Celo).rc());
    let b = Add(Tip::Celo, Celo(1).rc(), smir(Tip::Celo).rc());
    let c = Add(Tip::Real, Celo(1).rc(), smir(Tip::Celo).rc());
    assert!(a.enako(&b));
    assert!(!a.enako(&c));
    let z1 = Zaporedje(vec![Celo(1).rc(), Niz("a".to_string()).rc()]);
    let z2 = Zaporedje(vec![Celo(1).rc(), Niz("a".to_string()).rc()]);
    let z3 = Zaporedje(vec![Celo(1).rc()]);
    assert!(z1.enako(&z2));
    assert!(!z1.enako(&z3));
    // kinds that are never equal, and functions that always are
    assert!(!Preberi.enako(&Preberi));
    assert!(!Dolzina(Celo(1).rc()).enako(&Dolzina(Celo(1).rc())));
    let f = |ime: &str| Funkcija {
        tip: Tip::Brez,
        ime: ime.to_string(),
        parametri: vec![],
        telo: Prazno.rc(),
        prostor: 0,
    };
    assert!(f("f").enako(&f("g")));
}

#[test]
fn vsebuje_rekurzivna_funkcija() {
    // a function whose body calls it
    let ime = "f".to_string();
    let klic_znotraj = |f: Rc<Vozlisce>| FunkcijskiKlic {
        funkcija: f,
        spremenljivke: Zaporedje(vec![]).rc(),
        argumenti: Zaporedje(vec![]).rc(),
    };
    let prazna = Funkcija { tip: Tip::Brez, ime: ime.clone(), parametri: vec![], telo: Prazno.rc(), prostor: 0 }.rc();
    let rekurzivna_f = Funkcija {
        tip: Tip::Brez,
        ime,
        parametri: vec![],
        telo: Zaporedje(vec![klic_znotraj(prazna.clone()).rc()]).rc(),
        prostor: 0,
    }
    .rc();
    assert_eq!(rekurzivna_f.vsebuje(&klic_znotraj(rekurzivna_f.clone())), Some(true));
    // a recursive function cannot be put in place of its calls
    assert_eq!(rekurzivna_f.lahko_vrinemo(), Some(false));
    // one that only calls another function can
    let g = Funkcija { tip: Tip::Brez, ime: "g()".to_string(), parametri: vec![], telo: Prazno.rc(), prostor: 0 }.rc();
    let klice_g = Funkcija {
        tip: Tip::Brez,
        ime: "f()".to_string(),
        parametri: vec![],
        telo: Zaporedje(vec![klic_znotraj(g.clone()).rc()]).rc(),
        prostor: 0,
    };
    assert_eq!(klice_g.lahko_vrinemo(), Some(true));
    assert!(klice_g.klice_funkcijo("g()"));
    assert!(!klice_g.klice_funkcijo("h()"));
    // a function whose body holds no call can be put in place of its calls
    let preprosta = Funkcija {
        tip: Tip::Celo,
        ime: "g".to_string(),
        parametri: vec![],
        telo: Zaporedje(vec![Celo(1).rc()]).rc(),
        prostor: 0,
    };
    assert_eq!(preprosta.lahko_vrinemo(), Some(true));
    // a call is found where the search goes
    let izraz = Add(Tip::Celo, Celo(1).rc(), Mul(Tip::Celo, Celo(2).rc(), Celo(3).rc()).rc());
    assert_eq!(izraz.vsebuje(&Celo(3)), Some(true));
    assert_eq!(izraz.vsebuje(&Celo(4)), Some(false));
    // not into a reference to an array
    assert_eq!(RefSeznama(Celo(1).rc()).vsebuje(&Celo(1)), Some(false));
    // at a call, what is looked for must be a call
    assert_eq!(klic_znotraj(prazna.clone()).vsebuje(&Celo(1)), None);
    // only a function can be put in place of its calls
    assert_eq!(Celo(1).lahko_vrinemo(), None);
}

#[test]
fn enakost_refleksivna_in_simetricna() {
    let drevo = || Add(Tip::Celo, Celo(1).rc(), Zaporedje(vec![Znak('a').rc(), Real(2.5f32.to_bits()).rc()]).rc());
    assert!(drevo().enako(&drevo()));
    let drugo = Add(Tip::Celo, Celo(2).rc(), Prazno.rc());
    assert_eq!(drevo().enako(&drugo), drugo.enako(&drevo()));
    // a NaN is equal to nothing, not even itself
    let nan = Real(f32::NAN.to_bits());
    assert!(!nan.enako(&Real(f32::NAN.to_bits())));
    // reading is never equal to anything
    assert!(!Preberi.enako(&Preberi));
}
