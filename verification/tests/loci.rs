use slj::lekser::{Razcleni, Zeton::Locilo};
use slj::loci::{interpoliraj_niz, loci_spredaj, loci_zadaj, razdeli};

#[test]
fn loci_poisci() {
    assert_eq!(
        loci_spredaj("{}".razcleni("[test]").as_slice(), &["{"]),
        Some(Ok(([].as_slice(), &Locilo("{", 1, 1, "[test]"), [Locilo("}", 1, 2, "[test]")].as_slice())))
    );
}

#[test]
fn parser_poisci() {
    assert_eq!(
        loci_spredaj("{}".razcleni("[test]").as_slice(), &["{"]),
        Some(Ok(([].as_slice(), &Locilo("{", 1, 1, "[test]"), [Locilo("}", 1, 2, "[test]")].as_slice())))
    );
}

#[test]
fn loci_spredaj_preskoci_oklepaje() {
    let zetoni = "f(a, b), c".razcleni("[test]");
    let (pred, locilo, za) = loci_spredaj(zetoni.as_slice(), &[","]).unwrap().unwrap();
    assert_eq!(pred.len(), 6);
    assert_eq!(locilo, &Locilo(",", 1, 8, "[test]"));
    assert_eq!(za.len(), 1);
    assert_eq!(loci_spredaj(zetoni.as_slice(), &[";"]), None);
}

#[test]
fn loci_zadaj_najde_zadnjega() {
    let zetoni = "a + (b + c) + d".razcleni("[test]");
    let (pred, locilo, za) = loci_zadaj(zetoni.as_slice(), &["+"]).unwrap().unwrap();
    assert_eq!(pred.len(), 7);
    assert_eq!(locilo.as_str(), "+");
    assert_eq!(locilo.lokacija(), (1, 13));
    assert_eq!(za.len(), 1);
}

#[test]
fn loci_napake_oklepajev() {
    let zetoni = "a ) b".razcleni("[test]");
    let napake = loci_spredaj(zetoni.as_slice(), &[","]).unwrap().unwrap_err();
    assert_eq!(napake.napake().len(), 1);
    assert_eq!(napake.napake()[0].sporocilo, "Neujemajoč oklepaj");
    assert_eq!(napake.napake()[0].zacetek, (1, 3));

    let zetoni = "( a b".razcleni("[test]");
    let napake = loci_spredaj(zetoni.as_slice(), &[","]).unwrap().unwrap_err();
    assert_eq!(napake.napake()[0].sporocilo, "Oklepaji se ne ujemajo");
    assert_eq!(napake.napake()[0].zacetek, (1, 1));
    assert_eq!(napake.napake()[0].konec, (1, 6));

    let zetoni = "( a b".razcleni("[test]");
    let napake = loci_zadaj(zetoni.as_slice(), &[","]).unwrap().unwrap_err();
    assert_eq!(napake.napake()[0].sporocilo, "Neujemajoč oklepaj");
}

#[test]
fn loci_razdeli_na_dele() {
    let zetoni = "a, f(b, c), d,".razcleni("[test]");
    let deli = razdeli(zetoni.as_slice(), &[","]).unwrap();
    assert_eq!(deli.len(), 3);
    assert_eq!(deli[0].len(), 1);
    assert_eq!(deli[1].len(), 6);
    assert_eq!(deli[2], [zetoni[9]].as_slice());
    assert_eq!(razdeli(&[], &[","]).unwrap().len(), 0);
    assert!(razdeli("a, (b".razcleni("[test]").as_slice(), &[","]).is_err());
}

#[test]
fn loci_interpoliraj_niz() {
    assert_eq!(interpoliraj_niz(r"a\nb"), "a\nb");
    assert_eq!(interpoliraj_niz(r#"\t\"x\"\r"#), "\t\"x\"\r");
    assert_eq!(interpoliraj_niz(r"\\n"), "\n");
    assert_eq!(interpoliraj_niz(r"\'"), "'");
    assert_eq!(interpoliraj_niz("brez"), "brez");
}

#[test]
fn razdeli_sestavi_nazaj() {
    // the parts with the separators between them make up the tokens again
    let zetoni = "a, f(b, c), d,".razcleni("[test]");
    let deli = razdeli(zetoni.as_slice(), &[","]).unwrap();
    assert_eq!(deli.len(), 3);
    let mut skupaj: Vec<String> = Vec::new();
    let mut k = 0;
    for (j, del) in deli.iter().enumerate() {
        for z in del.iter() {
            skupaj.push(z.as_str().to_string());
        }
        k += del.len();
        if k < zetoni.len() {
            assert_eq!(zetoni[k].as_str(), ",", "part {j} is followed by a separator");
            skupaj.push(zetoni[k].as_str().to_string());
            k += 1;
        }
    }
    let vsi: Vec<String> = zetoni.iter().map(|z| z.as_str().to_string()).collect();
    assert_eq!(skupaj, vsi);
}

#[test]
fn interpoliraj_razveljavi_ubeze() {
    // the escaped form of a string without backslashes reads back as the string
    let niz = "a\nb\tc\rd\"e'f";
    let ubezen = "a\\nb\\tc\\rd\\\"e\\'f";
    assert_eq!(interpoliraj_niz(ubezen), niz);
    // text without backslashes stays as it is
    assert_eq!(interpoliraj_niz("brez ubezov"), "brez ubezov");
}

#[test]
fn loci_zunaj_oklepajev() {
    let z = "a - (b - c) - d".razcleni("[test]");
    match loci_zadaj(z.as_slice(), &["-"]) {
        Some(Ok((l, t, r))) => {
            assert_eq!(l.len(), 7);
            assert_eq!(t.as_str(), "-");
            assert_eq!(r.len(), 1);
        },
        _ => panic!("ni ločila"),
    }
    match loci_spredaj(z.as_slice(), &["-"]) {
        Some(Ok((l, t, r))) => {
            assert_eq!(l.len(), 1);
            assert_eq!(t.as_str(), "-");
            assert_eq!(r.len(), 7);
        },
        _ => panic!("ni ločila"),
    }
    assert!(loci_zadaj("(b - c)".razcleni("[test]").as_slice(), &["-"]).is_none());
    assert!(loci_spredaj("(b - c)".razcleni("[test]").as_slice(), &["-"]).is_none());
}
