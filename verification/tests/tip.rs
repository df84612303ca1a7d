use slj::lekser::Razcleni;
use slj::napaka::OznakaNapake;
use slj::stevilo::{preberi_i32, NapakaStevila};
use slj::tip::Tip;

fn tip(besedilo: &str) -> Tip {
    Tip::from(besedilo.razcleni("[test]").as_slice()).unwrap()
}

fn sporocila(besedilo: &str) -> Vec<String> {
    let napake = Tip::from(besedilo.razcleni("[test]").as_slice()).unwrap_err();
    napake.napake().iter().map(|n| n.sporocilo.clone()).collect()
}

#[test]
fn from_string_to_string() {
    assert_eq!(tip("brez").to_string(), "brez");
    assert_eq!(tip("bool").to_string(), "bool");
    assert_eq!(tip("celo").to_string(), "celo");
    assert_eq!(tip("real").to_string(), "real");
    assert_eq!(tip("znak").to_string(), "znak");

    assert_eq!(tip("[celo; 6]").to_string(), "[celo; 6]");
    assert_eq!(tip("[[celo; 3]; 6]").to_string(), "[[celo; 3]; 6]");

    assert_eq!(tip("{ x: real, y: real }").to_string(), "{\nx: real,\ny: real,\n}");
    assert_eq!(tip("{ _arr: [celo; 128], len: celo }").to_string(), "{\n_arr: [celo; 128],\nlen: celo,\n}");

    assert_eq!(tip("@celo").to_string(), "@celo");
    assert_eq!(tip("@[real]").to_string(), "@[real]");
}

#[test]
fn tip_polja_urejena_po_imenu() {
    assert_eq!(tip("{ b: celo, a: real; c: bool }").to_string(), "{\na: real,\nb: celo,\nc: bool,\n}");
    assert_eq!(tip("{ y: znak, x: @celo\n w: [bool; 2] }").to_string(), "{\nw: [bool; 2],\nx: @celo,\ny: znak,\n}");
}

#[test]
fn tip_dolzina_s_podcrtaji() {
    let t = tip("[celo; 1_000]");
    assert_eq!(t.dolzina(), 1000);
    assert_eq!(t.to_string(), "[celo; 1000]");
}

#[test]
fn tip_prevelika_dolzina() {
    let napake = Tip::from("[celo; 99999999999]".razcleni("[test]").as_slice()).unwrap_err();
    assert_eq!(napake.napake().len(), 1);
    let n = &napake.napake()[0];
    assert_eq!(n.oznaka, OznakaNapake::E1);
    assert_eq!(n.sporocilo, "Iz vrednosti ni mogoče ustvariti števila: number too large to fit in target type [[test]: 1, 8)");
    assert_eq!(n.datoteka, "[test]");
    assert_eq!(n.zacetek, (1, 8));
    assert_eq!(n.konec, (1, 19));
}

#[test]
fn tip_neznan() {
    assert_eq!(sporocila("neki"), vec!["Neznan tip: 'neki'".to_string()]);
    assert_eq!(sporocila("[celo 3]"), vec!["Neznan tip: '[celo3]'".to_string()]);
    assert_eq!(sporocila("@ niz"), vec!["Neznan tip: 'niz'".to_string()]);
}

#[test]
fn tip_podvojeno_polje() {
    let napake = Tip::from("{ x: celo, x: real }".razcleni("[test]").as_slice()).unwrap_err();
    assert_eq!(napake.napake().len(), 1);
    let n = &napake.napake()[0];
    assert_eq!(n.sporocilo, "Polje s tem imenom že obstaja");
    assert_eq!(n.zacetek, (1, 12));
    assert_eq!(n.konec, (1, 13));
}

#[test]
fn tip_neveljavna_polja() {
    assert_eq!(
        sporocila("{ x celo, 3: real; y: neki }"),
        vec!["Neveljavno polje".to_string(), "Neveljavno polje".to_string(), "Neznan tip: 'neki'".to_string()]
    );
    // after the first field only `;` and line breaks end a field
    assert_eq!(sporocila("{ a: celo, b: celo, c: celo }"), vec!["Neznan tip: 'celo,c:celo'".to_string()]);
}

#[test]
fn tip_neujemajoci_oklepaji() {
    assert_eq!(sporocila("{ x: [celo; 3, y: celo }"), vec!["Oklepaji se ne ujemajo".to_string()]);
    assert_eq!(sporocila("{ x: celo], y: celo }"), vec!["Neujemajoč oklepaj".to_string()]);
}

#[test]
fn tip_velikost_na_skladu() {
    assert_eq!(tip("brez").sprememba_stacka(), 0);
    assert_eq!(tip("celo").sprememba_stacka(), 1);
    assert_eq!(tip("[celo; 6]").sprememba_stacka(), 7);
    assert_eq!(tip("[[celo; 3]; 6]").sprememba_stacka(), 25);
    assert_eq!(tip("{ x: real, y: [znak; 4] }").sprememba_stacka(), 6);
    assert_eq!(tip("@[real]").sprememba_stacka(), 1);
}

#[test]
fn tip_vsebuje_tip() {
    assert_eq!(tip("[[celo; 3]; 6]").vsebuje_tip(), tip("[celo; 3]"));
    assert_eq!(tip("[[celo; 3]; 6]").dolzina(), 6);
    assert_eq!(tip("{ a: celo, b: real }").clone(), tip("{ b: real, a: celo }"));
}

#[test]
fn stevilo_po_pravilih_standardne_knjiznice() {
    let z = |s: &str| s.chars().collect::<Vec<char>>();
    assert_eq!(preberi_i32(&z("")), Err(NapakaStevila::Prazno));
    assert_eq!(preberi_i32(&z("+")), Err(NapakaStevila::NeveljavnaStevka));
    assert_eq!(preberi_i32(&z("-")), Err(NapakaStevila::NeveljavnaStevka));
    assert_eq!(preberi_i32(&z("12a")), Err(NapakaStevila::NeveljavnaStevka));
    assert_eq!(preberi_i32(&z("2147483647")), Ok(2147483647));
    assert_eq!(preberi_i32(&z("2147483648")), Err(NapakaStevila::PreVeliko));
    assert_eq!(preberi_i32(&z("-2147483648")), Ok(-2147483648));
    assert_eq!(preberi_i32(&z("-2147483649")), Err(NapakaStevila::PreMajhno));
    assert_eq!(preberi_i32(&z("+42")), Ok(42));
    assert_eq!(preberi_i32(&z("99999999999x")), Err(NapakaStevila::PreVeliko));
    for s in ["0", "7", "-13", "+8", "1x", "", "-", "99999999999", "-99999999999"] {
        assert_eq!(preberi_i32(&z(s)).ok(), s.parse::<i32>().ok());
    }
}
