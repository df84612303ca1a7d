use slj::izpis::{izpis_napake, log10, povzetek_napak};
use slj::napaka::{Napaka, OznakaNapake};

fn napaka(zacetek: (usize, usize), konec: (usize, usize)) -> Napaka {
    Napaka {
        oznaka: OznakaNapake::E1,
        sporocilo: "Neznan tip".to_string(),
        datoteka: "f.slj".to_string(),
        zacetek,
        konec,
    }
}

fn vrstice(besedilo: &str) -> Vec<String> {
    besedilo.lines().map(String::from).collect()
}

#[test]
fn izpis_ene_vrstice() {
    let v = vrstice("a\nbcdefgh\nij");
    assert_eq!(
        izpis_napake(&napaka((2, 3), (2, 6)), &v),
        "Napaka E1: Neznan tip | f.slj:2:3\n1 | a\n2 | bcdefgh\n  |   ^^^\n3 | ij\n\n"
    );
}

#[test]
fn izpis_prve_vrstice() {
    let v = vrstice("naj x\ndrugo");
    assert_eq!(
        izpis_napake(&napaka((1, 1), (1, 4)), &v),
        "Napaka E1: Neznan tip | f.slj:1:1\n1 | naj x\n  | ^^^\n2 | drugo\n\n"
    );
}

#[test]
fn izpis_vec_vrstic_s_sirino_stevilk() {
    let v: Vec<String> = (1..=12).map(|i| format!("v{i}")).collect();
    assert_eq!(
        izpis_napake(&napaka((9, 2), (10, 5)), &v),
        "Napaka E1: Neznan tip | f.slj:9:2\n 8 | v8\n 9 | v9\n10 | v10\n   |  ^^^\n11 | v11\n\n"
    );
}

#[test]
fn izpis_povzetek() {
    assert_eq!(povzetek_napak(1), "1 napaka, ne morem nadaljevati\n");
    assert_eq!(povzetek_napak(2), "2 napaki, ne morem nadaljevati\n");
    assert_eq!(povzetek_napak(3), "3 napake, ne morem nadaljevati\n");
    assert_eq!(povzetek_napak(4), "4 napake, ne morem nadaljevati\n");
    assert_eq!(povzetek_napak(5), "5 napak, ne morem nadaljevati\n");
    assert_eq!(povzetek_napak(11), "11 napaka, ne morem nadaljevati\n");
    assert_eq!(povzetek_napak(10), "10 napak, ne morem nadaljevati\n");
}

#[test]
fn izpis_log10() {
    assert_eq!(log10(0), 0);
    assert_eq!(log10(1), 0);
    assert_eq!(log10(2), 1);
    assert_eq!(log10(10), 1);
    assert_eq!(log10(11), 2);
    assert_eq!(log10(100), 2);
    assert_eq!(log10(101), 3);
    for x in [2usize, 3, 9, 10, 11, 99, 100, 101, 999, 1000, 1001, 123456] {
        assert_eq!(log10(x), (x as f64).log10().ceil() as usize);
    }
}
