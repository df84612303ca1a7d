use slj::lekser::Razcleni;
use slj::predprocesiraj::predprocesiraj;

fn besedila(vhod: &str) -> Vec<String> {
    predprocesiraj(vhod.razcleni("[test]")).iter().map(|z| z.as_str().to_string()).collect()
}

#[test]
fn predprocesiraj_komentarji_in_vrstice() {
    assert_eq!(besedila("a # b c\n\nče {\nx\n}"), vec!["a", "\n", "če", "{", "x", "}"]);
}

#[test]
fn predprocesiraj_oklepaji_in_cene() {
    assert_eq!(besedila("f(\n1\n)\n\n\nčene\ny"), vec!["f", "(", "1", ")", "čene", "y"]);
    assert_eq!(besedila("# samo komentar\nx"), vec!["\n", "x"]);
}

#[test]
fn predprocesiraj_brez_lojtre_in_ustaljeno() {
    let vhod = "naj a = 1 # prvi\n\n\n{ # drugi\n b\n}\n# tretji\n(c)\n";
    let izhod = besedila(vhod);
    assert!(!izhod.iter().any(|t| t == "#"));
    for par in izhod.windows(2) {
        let a = par[0].as_str();
        let b = par[1].as_str();
        assert!(!(a == "\n" && ["{", "}", "(", ")", "\n", "čene"].contains(&b)));
        assert!(!(["{", "(", "naj"].contains(&a) && b == "\n"));
    }
}

#[test]
fn lekser_zetoni_po_vrsti() {
    let zetoni = "a + b\nc  d".razcleni("[test]");
    let mesta: Vec<(usize, usize)> = zetoni.iter().map(|z| z.lokacija()).collect();
    assert_eq!(mesta, vec![(1, 1), (1, 3), (1, 5), (1, 6), (2, 1), (2, 4)]);
    for par in mesta.windows(2) {
        assert!(par[0] < par[1]);
    }
}
