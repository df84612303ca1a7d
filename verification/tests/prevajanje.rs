use slj::program::Podatek;
use slj::program::UkazPodatek::{ADDF, ADDI, ALOC, DIVF, JMPD, LDOF, LOAD, LOFF, MODF, MULF, MULI, POS, POWF, PUTC, SOFF, STOF, STOR, SUBF, SUBI, TOP, ZERO};
use slj::tip::Tip;
use slj::vmesna_koda::UkazPodatekRelative::{self, JMPCRel, JUMPRel, Osnovni, Oznaka, PC, PUSHC, PUSHF, PUSHI};
use slj::vozlisce::Vozlisce::{
    Add, Celo, DinamicniSkok, Div, Enako, Funkcija, FunkcijskiKlic, Konjunkcija, Disjunkcija, Laz, Mod, Mul, NaloziOdmik, Natisni,
    Niz, Okvir, PogojniSkok, PogojniStavek, Pop, Pow, Prazno, Prirejanje, ProgramskiStevec, Push, Real, Referenca, Resnica,
    ShraniOdmik, Skok, Spremenljivka, Sub, Vecje, Vrh, Vrni, Zanikaj, Zanka, Zaporedje, Znak,
};

/// Checks that the code is there and is the expected one.
fn koda(dobljena: Option<Vec<UkazPodatekRelative>>, pricakovana: Vec<UkazPodatekRelative>) {
    assert_eq!(format!("{:?}", dobljena.expect("the node has code")), format!("{:?}", pricakovana));
}

#[test]
fn prevedi_prevedi() {
    let mut st: u64 = 0;
        koda(Prazno.prevedi(&mut st, &[]), vec![]);

        koda(Push(0).prevedi(&mut st, &[]), vec![]);
        koda(Push(3).prevedi(&mut st, &[]), vec![
                   Osnovni(ALOC(3)),
        ]);

        koda(Pop(0).prevedi(&mut st, &[]), vec![]);
        koda(Pop(3).prevedi(&mut st, &[]), vec![
                   Osnovni(ALOC(-3)),
        ]);

        koda(Vrh(-13).prevedi(&mut st, &[]), vec![Osnovni(TOP(-13))]);

        koda(ShraniOdmik.prevedi(&mut st, &[]), vec![Osnovni(SOFF)]);
        koda(NaloziOdmik.prevedi(&mut st, &[]), vec![Osnovni(LOFF)]);

        koda(Niz("šipa".to_string()).prevedi(&mut st, &[]), vec![
                   PUSHC('a'),
                   PUSHC('p'),
                   PUSHC('i'),
                   PUSHC('š'),
                   PUSHI(4),
        ]);
        koda(Real((-3.14f32).to_bits()).prevedi(&mut st, &[]), vec![PUSHF(Podatek { i: (-3.14f32).to_bits() as i32 })]);

        koda(Spremenljivka { tip: Tip::Real, ime: "šmir".to_string(), naslov: 55, z_odmikom: true,  spremenljiva: false }.prevedi(&mut st, &[]), vec![Osnovni(LDOF(55))]);
        koda(Spremenljivka { tip: Tip::Celo, ime: "šmir".to_string(), naslov: 55, z_odmikom: false, spremenljiva: false }.prevedi(&mut st, &[]), vec![Osnovni(LOAD(55))]);
        koda(
            Referenca(Spremenljivka { tip: Tip::Celo, ime: "šmir".to_string(), naslov: 55, z_odmikom: true, spremenljiva: false }.rc()).prevedi(&mut st, &[]),
            vec![
                PUSHI(55),
                Osnovni(LOFF),
                Osnovni(ADDI),
            ]);
        koda(
            Referenca(Spremenljivka { tip: Tip::Celo, ime: "šmir".to_string(), naslov: 55, z_odmikom: false, spremenljiva: false }.rc()).prevedi(&mut st, &[]),
            vec![
                PUSHI(55),
            ]);

        koda(Resnica.prevedi(&mut st, &[]), vec![PUSHI(1)]);
        koda(Laz.prevedi(&mut st, &[]), vec![PUSHI(0)]);

        koda(Add(Tip::Real, Real((1.0f32).to_bits()).rc(), Real((2.0f32).to_bits()).rc()).prevedi(&mut st, &[]), vec![
                   PUSHF(Podatek { i: (1.0f32).to_bits() as i32 }),
                   PUSHF(Podatek { i: (2.0f32).to_bits() as i32 }),
                   Osnovni(ADDF),
        ]);
        koda(Sub(Tip::Real, Real((1.0f32).to_bits()).rc(), Real((2.0f32).to_bits()).rc()).prevedi(&mut st, &[]), vec![
                   PUSHF(Podatek { i: (1.0f32).to_bits() as i32 }),
                   PUSHF(Podatek { i: (2.0f32).to_bits() as i32 }),
                   Osnovni(SUBF),
        ]);
        koda(Mul(Tip::Real, Real((1.0f32).to_bits()).rc(), Real((2.0f32).to_bits()).rc()).prevedi(&mut st, &[]), vec![
                   PUSHF(Podatek { i: (1.0f32).to_bits() as i32 }),
                   PUSHF(Podatek { i: (2.0f32).to_bits() as i32 }),
                   Osnovni(MULF),
        ]);
        koda(Div(Tip::Real, Real((1.0f32).to_bits()).rc(), Real((2.0f32).to_bits()).rc()).prevedi(&mut st, &[]), vec![
                   PUSHF(Podatek { i: (1.0f32).to_bits() as i32 }),
                   PUSHF(Podatek { i: (2.0f32).to_bits() as i32 }),
                   Osnovni(DIVF),
        ]);
        koda(Mod(Tip::Real, Real((1.0f32).to_bits()).rc(), Real((2.0f32).to_bits()).rc()).prevedi(&mut st, &[]), vec![
                   PUSHF(Podatek { i: (1.0f32).to_bits() as i32 }),
                   PUSHF(Podatek { i: (2.0f32).to_bits() as i32 }),
                   Osnovni(MODF),
        ]);
        koda(Pow(Tip::Real, Real((1.0f32).to_bits()).rc(), Real((2.0f32).to_bits()).rc()).prevedi(&mut st, &[]), vec![
                   PUSHF(Podatek { i: (1.0f32).to_bits() as i32 }),
                   PUSHF(Podatek { i: (2.0f32).to_bits() as i32 }),
                   Osnovni(POWF),
        ]);

        koda(Zanikaj(Resnica.rc()).prevedi(&mut st, &[]), vec![
                   PUSHI(1),
                   PUSHI(1),
                   Osnovni(SUBI),
        ]);
        koda(Zanikaj(Laz.rc()).prevedi(&mut st, &[]), vec![
                   PUSHI(1),
                   PUSHI(0),
                   Osnovni(SUBI),
        ]);
        koda(Konjunkcija(Laz.rc(), Resnica.rc()).prevedi(&mut st, &[]), vec![
                   PUSHI(0),
                   PUSHI(1),
                   Osnovni(MULI),
        ]);
        koda(Disjunkcija(Laz.rc(), Resnica.rc()).prevedi(&mut st, &[]), vec![
                   PUSHI(0),
                   PUSHI(1),
                   Osnovni(ADDI),
                   Osnovni(POS),
        ]);

        koda(Enako(Tip::Real, Real((3.14f32).to_bits()).rc(), Real((3.14159268f32).to_bits()).rc()).prevedi(&mut st, &[]), vec![
                   PUSHF(Podatek { i: (3.14f32).to_bits() as i32 }),
                   PUSHF(Podatek { i: (3.14159268f32).to_bits() as i32 }),
                   Osnovni(SUBF),
                   Osnovni(ZERO),
        ]);
        koda(Vecje(Tip::Celo, Celo(13).rc(), Celo(42).rc()).prevedi(&mut st, &[]), vec![
                   PUSHI(13),
                   PUSHI(42),
                   Osnovni(SUBI),
                   Osnovni(POS),

        ]);

        koda(ProgramskiStevec(-7).prevedi(&mut st, &[]), vec![PC(-7)]);
        koda(Skok("8zanka".to_string()).prevedi(&mut st, &[]), vec![JUMPRel("8zanka".to_string())]);
        koda(DinamicniSkok.prevedi(&mut st, &[]), vec![Osnovni(JMPD)]);
        koda(PogojniSkok(Resnica.rc(), "8konec".to_string()).prevedi(&mut st, &[]), vec![
                   PUSHI(1),
                   JMPCRel("8konec".to_string()),
        ]);

        koda(PogojniStavek { 
            pogoj: Resnica.rc(),
            resnica: Natisni(Znak('r').rc()).rc(),
            laz: Natisni(Znak('l').rc()).rc(),
        }.prevedi(&mut st, &[]), vec![
            PUSHI(1),
            JMPCRel("8resnica_0".to_string()),
            PUSHC('l'),
            Osnovni(PUTC),
            JUMPRel("8konec_0".to_string()),
            Oznaka("8resnica_0".to_string()),
            PUSHC('r'),
            Osnovni(PUTC),
            Oznaka("8konec_0".to_string()),
        ]);

        koda(Zanka {
            pogoj: Laz.rc(), 
            telo: Prirejanje { 
                spremenljivka: Spremenljivka { tip: Tip::Real, ime: "x".to_string(), naslov: 25, z_odmikom: false, spremenljiva: true }.rc(),
                izraz: Real((27.0f32).to_bits()).rc(),
            }.rc(),
        }.prevedi(&mut st, &[]), vec![
            Oznaka("8zanka_1".to_string()),
            PUSHI(1),
            PUSHI(0),
            Osnovni(SUBI),
            JMPCRel("8konec_1".to_string()),
            PUSHF(Podatek { i: (27.0f32).to_bits() as i32 }),
            Osnovni(STOR(25)),
            JUMPRel("8zanka_1".to_string()),
            Oznaka("8konec_1".to_string()),
        ]);

        koda(Prirejanje {
            spremenljivka: Spremenljivka { tip: Tip::Real, ime: "x".to_string(), naslov: 3, z_odmikom: true, spremenljiva: false }.rc(),
            izraz: Real((-3.14f32).to_bits()).rc(),
        }.prevedi(&mut st, &[]), vec![
            PUSHF(Podatek { i: (-3.14f32).to_bits() as i32 }),
            Osnovni(STOF(3)),
        ]);

        koda(Vrni(Prirejanje {
            spremenljivka: Spremenljivka { tip: Tip::Real, ime: "vrni".to_string(), naslov: 0, z_odmikom: true, spremenljiva: true }.rc(),
            izraz: Real((2.0f32).to_bits()).rc()
        }.rc()).prevedi(&mut st, &[]), vec![
                   PUSHF(Podatek { i: (2.0f32).to_bits() as i32 }),
                   Osnovni(STOF(0)),
                   Oznaka("vrni".to_string()),
        ]);

        koda(Zaporedje(vec![
                             Real((1.0f32).to_bits()).rc(),
                             Real((2.0f32).to_bits()).rc(),
                             Resnica.rc(),
                             Laz.rc(),
        ]).prevedi(&mut st, &[]), vec![
                   PUSHF(Podatek { i: (1.0f32).to_bits() as i32 }),
                   PUSHF(Podatek { i: (2.0f32).to_bits() as i32 }),
                   PUSHI(1),
                   PUSHI(0),
        ]);

        koda(Okvir {
            zaporedje: Zaporedje(vec![
                                 Vrni(Prirejanje {
                                     spremenljivka: Spremenljivka { tip: Tip::Celo, ime: "vrni".to_string(), naslov: 0, z_odmikom: true, spremenljiva: true }.rc(),
                                     izraz: Spremenljivka { tip: Tip::Celo, ime: "x".to_string(), naslov: 1, z_odmikom: true, spremenljiva: false }.rc(),
                                 }.rc()).rc(),
            ]).rc(),
            st_spr: 2
        }.prevedi(&mut st, &[]), vec![
            Osnovni(ALOC(2)),
            Osnovni(LDOF(1)),
            Osnovni(STOF(0)),
            Oznaka("vrni".to_string()),
            Osnovni(ALOC(-2)),
        ]);

        let funkcija = Funkcija {
            tip: Tip::Real,
            ime: "ena(real)".to_string(),
            parametri: vec![
                Spremenljivka { tip: Tip::Celo, ime: "x".to_string(), naslov: 2, z_odmikom: true, spremenljiva: true }.rc(),
                Spremenljivka { tip: Tip::Celo, ime: "y".to_string(), naslov: 3, z_odmikom: true, spremenljiva: false }.rc(),
            ],
            telo: Vrni(Prirejanje {
                spremenljivka: Spremenljivka { tip: Tip::Real, ime: "vrni".to_string(), naslov: 0, z_odmikom: true, spremenljiva: true }.rc(),
                izraz: Real((1.0f32).to_bits()).rc()
            }.rc()).rc(),
            prostor: 0,
        }.rc();

        let klicane = vec!["ena(real)".to_string()];

        koda(funkcija.clone().prevedi(&mut st, &klicane), vec![
            JUMPRel("8preskoci_funkcijo_ena(real)".to_string()),
            Oznaka("8funkcija_ena(real)".to_string()),
            Osnovni(LOFF),
            Osnovni(TOP(-5)),
            PUSHF(Podatek { i: (1.0f32).to_bits() as i32 }),
            Osnovni(STOF(0)),
            Oznaka("vrni".to_string()),
            Oznaka("8konec_funkcije_ena(real)".to_string()),
            Osnovni(SOFF),
            Osnovni(ALOC(-2)),
            Osnovni(JMPD),
            Oznaka("8preskoci_funkcijo_ena(real)".to_string()),
        ]);

        koda(FunkcijskiKlic {
            funkcija: funkcija.clone(),
            spremenljivke: Zaporedje(vec![]).rc(),
            argumenti: Zaporedje(vec![Real((1.0f32).to_bits()).rc(), Real((2.0f32).to_bits()).rc()]).rc(),
        }.prevedi(&mut st, &[]), vec![
            Osnovni(ALOC(1)),
            PC(4),
            PUSHF(Podatek { i: (1.0f32).to_bits() as i32 }),
            PUSHF(Podatek { i: (2.0f32).to_bits() as i32 }),
            JUMPRel("8funkcija_ena(real)".to_string()),
        ]);
}
