use slj::tip::Tip;
use slj::vozlisce::Vozlisce::{
    self, Add, CeloVReal, Celo, Dereferenciraj, Dolzina, Funkcija, FunkcijskiKlic, Indeksiraj, Laz, Natisni, Niz,
    Okvir, PogojniStavek, Prazno, Preberi, Prirejanje, Push, Real, RefSeznama, Referenca, Resnica, Splakni,
    Spremenljivka, Vrni, Zanikaj, Zanka, Zaporedje, Znak,
};

fn spr(ime: &str, tip: Tip, naslov: i32, z_odmikom: bool) -> Vozlisce {
    Spremenljivka { tip, ime: ime.to_string(), naslov, z_odmikom, spremenljiva: true }
}

fn brez_realnih() -> Vec<(u32, String)> {
    Vec::new()
}

#[test]
fn izris_vrednosti() {
    let t = brez_realnih();
    assert_eq!(Prazno.to_string(&t), Some("()".to_string()));
    assert_eq!(Celo(-42).to_string(&t), Some("-42".to_string()));
    assert_eq!(Znak('č').to_string(&t), Some("č".to_string()));
    assert_eq!(Resnica.to_string(&t), Some("resnica".to_string()));
    assert_eq!(Laz.to_string(&t), Some("laž".to_string()));
    assert_eq!(Preberi.to_string(&t), Some("preberi()".to_string()));
    assert_eq!(Splakni.to_string(&t), Some("".to_string()));
    assert_eq!(Push(3).to_string(&t), Some("".to_string()));
}

#[test]
fn izris_niza_z_ubezi() {
    let t = brez_realnih();
    assert_eq!(
        Niz("a\"b\\c\nd\te'".to_string()).to_string(&t),
        Some("\"a\\\"b\\\\c\\nd\\te\\'\"".to_string())
    );
}

#[test]
fn izris_realnega_iz_tabele() {
    let t = vec![(1.5f32.to_bits(), "1.5".to_string()), (2.0f32.to_bits(), "2".to_string())];
    assert_eq!(Real(2.0f32.to_bits()).to_string(&t), Some("2".to_string()));
    assert_eq!(Real(1.5f32.to_bits()).to_string(&t), Some("1.5".to_string()));
    // the first pair with the bits gives the text
    let t2 = vec![(1.5f32.to_bits(), "ena".to_string()), (1.5f32.to_bits(), "dve".to_string())];
    assert_eq!(Real(1.5f32.to_bits()).to_string(&t2), Some("ena".to_string()));
    // a real number without a text
    assert_eq!(Real(3.0f32.to_bits()).to_string(&t), None);
    assert_eq!(Zanikaj(Real(3.0f32.to_bits()).rc()).drevo(0, &t), None);
}

#[test]
fn izris_spremenljivk() {
    let t = brez_realnih();
    let a = || spr("a", Tip::Celo, 3, true);
    let b = || spr("b", Tip::Seznam(Box::new(Tip::Znak), 4), -2, false);
    assert_eq!(a().to_string(&t), Some("a: celo (+3)".to_string()));
    assert_eq!(b().to_string(&t), Some("b: [znak; 4] (@-2)".to_string()));
    assert_eq!(Referenca(a().rc()).to_string(&t), Some("@a: celo (+3)".to_string()));
    assert_eq!(RefSeznama(b().rc()).to_string(&t), Some("@b: [znak; 4] (@-2)".to_string()));
    assert_eq!(Dereferenciraj(a().rc()).to_string(&t), Some("a: celo (+3)@".to_string()));
    assert_eq!(Dolzina(b().rc()).to_string(&t), Some("b: [znak; 4] (@-2).dolžina".to_string()));
    assert_eq!(
        Prirejanje { spremenljivka: a().rc(), izraz: Celo(1).rc() }.to_string(&t),
        Some("a: celo (+3) = ".to_string())
    );
}

fn funkcija_f() -> Vozlisce {
    Funkcija {
        tip: Tip::Celo,
        ime: "f".to_string(),
        parametri: vec![spr("x", Tip::Celo, 0, true).rc(), spr("y", Tip::Znak, 1, true).rc()],
        telo: Zaporedje(vec![Vrni(Prirejanje { spremenljivka: spr("f", Tip::Celo, -3, true).rc(), izraz: Celo(7).rc() }.rc()).rc()]).rc(),
        prostor: 2,
    }
}

#[test]
fn izris_funkcije_in_klica() {
    let t = brez_realnih();
    assert_eq!(
        funkcija_f().to_string(&t),
        Some("funkcija f(x: celo (+0), y: znak (+1)) -> celo".to_string())
    );
    let klic = FunkcijskiKlic { funkcija: funkcija_f().rc(), spremenljivke: Prazno.rc(), argumenti: Zaporedje(vec![Celo(1).rc()]).rc() };
    assert_eq!(klic.to_string(&t), Some("f".to_string()));
    assert_eq!(Natisni(Znak('x').rc()).to_string(&t), Some("natisni(x)".to_string()));
}

#[test]
fn drevo_operatorjev() {
    let t = brez_realnih();
    let izraz = Add(Tip::Celo, Celo(1).rc(), Zanikaj(Resnica.rc()).rc());
    assert_eq!(izraz.drevo(0, &t), Some("+\n  1\n  !\n    resnica\n".to_string()));
    assert_eq!(izraz.drevo(1, &t), Some("  +\n    1\n    !\n      resnica\n".to_string()));
    assert_eq!(CeloVReal(Celo(2).rc()).drevo(1, &t), Some("  2\n kot real\n".to_string()));
}

#[test]
fn drevo_stavkov() {
    let t = brez_realnih();
    let pogojni = PogojniStavek {
        pogoj: Resnica.rc(),
        resnica: Okvir { zaporedje: Zaporedje(vec![Natisni(Znak('a').rc()).rc()]).rc(), st_spr: 0 }.rc(),
        laz: Prazno.rc(),
    };
    assert_eq!(
        pogojni.drevo(0, &t),
        Some("če (\n  resnica\n) {\n    a\n}\n".to_string())
    );
    let z_drugo = PogojniStavek { pogoj: Laz.rc(), resnica: Celo(1).rc(), laz: Celo(2).rc() };
    assert_eq!(z_drugo.drevo(1, &t), Some("  če (\n    laž\n  ) 1\n  čene 2\n".to_string()));

    let zanka = Zanka { pogoj: Resnica.rc(), telo: Celo(5).rc() };
    assert_eq!(zanka.drevo(0, &t), Some("dokler(\n  resnica\n) {\n  5\n}\n".to_string()));

    let zaporedje = Zaporedje(vec![Celo(1).rc(), Celo(2).rc(), Push(4).rc()]);
    assert_eq!(zaporedje.drevo(0, &t), Some("  1\n,\n  2\n,\n".to_string()));

    assert_eq!(Preberi.drevo(2, &t), Some("  preberi()".to_string()));
    assert_eq!(Splakni.drevo(2, &t), Some("  ()\n".to_string()));
    assert_eq!(Prazno.drevo(1, &t), Some("  ()\n".to_string()));
}

#[test]
fn drevo_funkcije() {
    let t = brez_realnih();
    assert_eq!(
        funkcija_f().drevo(0, &t),
        Some("funkcija f(x: celo (+0), y: znak (+1)) -> celo {\n    vrni (\n      7\n    )\n}\n".to_string())
    );
}

#[test]
fn drevo_indeksa() {
    let t = brez_realnih();
    let seznam = || spr("s", Tip::Seznam(Box::new(Tip::Celo), 3), 0, true);
    let indeks = Indeksiraj { seznam_ref: seznam().rc(), indeks: Celo(1).rc() };
    assert_eq!(indeks.drevo(1, &t), Some(" s[    1\n ]\n".to_string()));
    let prek_reference = Indeksiraj { seznam_ref: RefSeznama(seznam().rc()).rc(), indeks: Celo(1).rc() };
    assert_eq!(prek_reference.drevo(0, &t), Some("s: [celo; 3] (+0)\n".to_string()));
    // an index into a variable that is not an array
    let napacen = Indeksiraj { seznam_ref: spr("c", Tip::Celo, 0, true).rc(), indeks: Celo(1).rc() };
    assert_eq!(napacen.drevo(0, &t), None);
    let napacen2 = Indeksiraj { seznam_ref: Celo(3).rc(), indeks: Celo(1).rc() };
    assert_eq!(napacen2.drevo(0, &t), None);
}

#[test]
fn drevo_na_najglobljem_nivoju() {
    let t = brez_realnih();
    assert_eq!(Zaporedje(vec![Celo(1).rc()]).drevo(usize::MAX, &t), None);
    assert_eq!(Zaporedje(vec![]).drevo(usize::MAX, &t), Some("".to_string()));
}
