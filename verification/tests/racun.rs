use slj::lekser::{celo, Zeton};
use slj::racun::{Izid, RealnaOperacija};
use slj::tip::Tip;
use slj::vozlisce::Vozlisce::{
    self, Add, CeloVReal, CeloVZnak, Celo, Div, Dolzina, Enako, Konjunkcija, Disjunkcija, Laz, Manjse, ManjseEnako, Mod, Mul,
    NiEnako, Niz, Pow, Real, RealVCelo, RefSeznama, Resnica, Spremenljivka, Sub, Vecje, VecjeEnako, Zanikaj, Znak, ZnakVCelo,
    BitniAli, BitniIn, BitniXor, BitniPremikLevo, BitniPremikDesno,
};

/// Does an operation on real numbers as `f32` does it.
fn realno(o: RealnaOperacija, a: u32, b: u32) -> u32 {
    let x = f32::from_bits(a);
    let y = f32::from_bits(b);
    match o {
        RealnaOperacija::Vsota => (x + y).to_bits(),
        RealnaOperacija::Razlika => (x - y).to_bits(),
        RealnaOperacija::Zmnozek => (x * y).to_bits(),
        RealnaOperacija::Kolicnik => (x / y).to_bits(),
        RealnaOperacija::Ostanek => (x % y).to_bits(),
        RealnaOperacija::Potenca => x.powf(y).to_bits(),
        RealnaOperacija::Enako => (x == y) as u32,
        RealnaOperacija::NiEnako => (x != y) as u32,
        RealnaOperacija::Vecje => (x > y) as u32,
        RealnaOperacija::VecjeEnako => (x >= y) as u32,
        RealnaOperacija::Manjse => (x < y) as u32,
        RealnaOperacija::ManjseEnako => (x <= y) as u32,
        RealnaOperacija::IzCelega => (a as i32 as f32).to_bits(),
        RealnaOperacija::VCelo => (x as i32) as u32,
    }
}

/// Evaluates, doing each operation on real numbers that is asked for.
fn izracunaj(v: &Vozlisce, izraz: &[Zeton]) -> Result<Vozlisce, slj::napaka::Napake> {
    let mut t: Vec<(RealnaOperacija, u32, u32, u32)> = Vec::new();
    loop {
        match v.eval(izraz, &t).expect("the evaluation has no result") {
            Izid::Vrednost(x) => return Ok(x),
            Izid::Napaka(n) => return Err(n),
            Izid::Realno(o, a, b) => {
                let r = realno(o, a, b);
                t.push((o, a, b, r));
            }
        }
    }
}

#[test]
fn eval() {
    assert!(izracunaj(&Add(Tip::Celo, Celo(7).rc(), Celo(6).rc()), &[]).unwrap().enako(&Celo(13)));
    assert!(izracunaj(&Celo(42), &[]).unwrap().enako(&Celo(42)));
    assert!(izracunaj(&Real(3.14f32.to_bits()), &[]).unwrap().enako(&Real(3.14f32.to_bits())));
    assert!(izracunaj(&Znak('ć'), &[]).unwrap().enako(&Znak('ć')));
    assert!(izracunaj(&Niz("ribič".to_string()), &[]).unwrap().enako(&Niz("ribič".to_string())));

    assert!(izracunaj(&Dolzina(Spremenljivka { tip: Tip::Seznam(Box::new(Tip::Brez), 14), ime: "".to_string(), naslov: 0, z_odmikom: false, spremenljiva: true }.rc()), &[]).unwrap().enako(&Celo(14)));

    assert!(izracunaj(&Add(Tip::Celo, Celo(7).rc(), Celo(6).rc()), &[]).unwrap().enako(&Celo(13)));
    assert!(izracunaj(&Add(Tip::Real, Real(13.0f32.to_bits()).rc(), Real(29.0f32.to_bits()).rc()), &[]).unwrap().enako(&Real(42.0f32.to_bits())));
    assert!(izracunaj(&Sub(Tip::Celo, Celo(7).rc(), Celo(6).rc()), &[]).unwrap().enako(&Celo(1)));
    assert!(izracunaj(&Sub(Tip::Real, Real(13.0f32.to_bits()).rc(), Real(29.0f32.to_bits()).rc()), &[]).unwrap().enako(&Real((-16.0f32).to_bits())));
    assert!(izracunaj(&Mul(Tip::Celo, Celo(7).rc(), Celo(6).rc()), &[]).unwrap().enako(&Celo(42)));
    assert!(izracunaj(&Mul(Tip::Real, Real(13.0f32.to_bits()).rc(), Real(29.0f32.to_bits()).rc()), &[]).unwrap().enako(&Real(377.0f32.to_bits())));
    assert!(izracunaj(&Div(Tip::Celo, Celo(16).rc(), Celo(6).rc()), &[]).unwrap().enako(&Celo(2)));
    assert!(izracunaj(&Div(Tip::Real, Real(13.0f32.to_bits()).rc(), Real(4.0f32.to_bits()).rc()), &[]).unwrap().enako(&Real(3.25f32.to_bits())));
    assert!(izracunaj(&Mod(Tip::Celo, Celo(16).rc(), Celo(6).rc()), &[]).unwrap().enako(&Celo(4)));
    assert!(izracunaj(&Mod(Tip::Real, Real(13.75f32.to_bits()).rc(), Real(0.5f32.to_bits()).rc()), &[]).unwrap().enako(&Real(0.25f32.to_bits())));
    assert!(izracunaj(&Pow(Tip::Celo, Celo(2).rc(), Celo(6).rc()), &[]).unwrap().enako(&Celo(64)));
    assert!(izracunaj(&Pow(Tip::Real, Real(4.0f32.to_bits()).rc(), Real(0.5f32.to_bits()).rc()), &[]).unwrap().enako(&Real(2.0f32.to_bits())));

    assert!(izracunaj(&CeloVReal(Celo(13).rc()), &[]).unwrap().enako(&Real(13.0f32.to_bits())));
    assert!(izracunaj(&RealVCelo(Real(13.0f32.to_bits()).rc()), &[]).unwrap().enako(&Celo(13)));
    assert!(izracunaj(&RealVCelo(Real(3.14f32.to_bits()).rc()), &[]).unwrap().enako(&Celo(3)));
    assert!(izracunaj(&CeloVZnak(Celo(32).rc()), &[celo("32", 1, 1, "[test]")]).unwrap().enako(&Znak(' ')));
    assert!(izracunaj(&ZnakVCelo(Znak('\n').rc()), &[]).unwrap().enako(&Celo(10)));

    assert!(izracunaj(&Zanikaj(Resnica.rc()), &[]).unwrap().enako(&Laz));
    assert!(izracunaj(&Zanikaj(Laz.rc()), &[]).unwrap().enako(&Resnica));

    assert!(izracunaj(&Konjunkcija(Laz.rc(), Laz.rc()), &[]).unwrap().enako(&Laz));
    assert!(izracunaj(&Konjunkcija(Laz.rc(), Resnica.rc()), &[]).unwrap().enako(&Laz));
    assert!(izracunaj(&Konjunkcija(Resnica.rc(), Laz.rc()), &[]).unwrap().enako(&Laz));
    assert!(izracunaj(&Konjunkcija(Resnica.rc(), Resnica.rc()), &[]).unwrap().enako(&Resnica));

    assert!(izracunaj(&Disjunkcija(Laz.rc(), Laz.rc()), &[]).unwrap().enako(&Laz));
    assert!(izracunaj(&Disjunkcija(Laz.rc(), Resnica.rc()), &[]).unwrap().enako(&Resnica));
    assert!(izracunaj(&Disjunkcija(Resnica.rc(), Laz.rc()), &[]).unwrap().enako(&Resnica));
    assert!(izracunaj(&Disjunkcija(Resnica.rc(), Resnica.rc()), &[]).unwrap().enako(&Resnica));

    assert!(izracunaj(&BitniAli(Celo(0b10).rc(), Celo(0b01).rc()), &[]).unwrap().enako(&Celo(0b11)));
    assert!(izracunaj(&BitniAli(Celo(0b00).rc(), Celo(0b01).rc()), &[]).unwrap().enako(&Celo(0b01)));

    assert!(izracunaj(&BitniIn(Celo(0b10).rc(), Celo(0b01).rc()), &[]).unwrap().enako(&Celo(0b00)));
    assert!(izracunaj(&BitniIn(Celo(0b11).rc(), Celo(0b01).rc()), &[]).unwrap().enako(&Celo(0b01)));

    assert!(izracunaj(&BitniXor(Celo(0b10).rc(), Celo(0b01).rc()), &[]).unwrap().enako(&Celo(0b11)));
    assert!(izracunaj(&BitniXor(Celo(0b11).rc(), Celo(0b01).rc()), &[]).unwrap().enako(&Celo(0b10)));

    assert!(izracunaj(&BitniPremikLevo(Celo(0b10).rc(), Celo(1).rc()), &[]).unwrap().enako(&Celo(0b100)));
    assert!(izracunaj(&BitniPremikLevo(Celo(0b11).rc(), Celo(2).rc()), &[]).unwrap().enako(&Celo(0b1100)));

    assert!(izracunaj(&BitniPremikDesno(Celo(0b10).rc(), Celo(1).rc()), &[]).unwrap().enako(&Celo(0b1)));
    assert!(izracunaj(&BitniPremikDesno(Celo(0b1100).rc(), Celo(2).rc()), &[]).unwrap().enako(&Celo(0b11)));

    assert!(izracunaj(&Enako(Tip::Celo, Celo(12).rc(), Celo(12).rc()), &[]).unwrap().enako(&Resnica));
    assert!(izracunaj(&Enako(Tip::Celo, Celo(13).rc(), Celo(14).rc()), &[]).unwrap().enako(&Laz));
    assert!(izracunaj(&Enako(Tip::Real, Real(3.14f32.to_bits()).rc(), Real(3.14f32.to_bits()).rc()), &[]).unwrap().enako(&Resnica));
    assert!(izracunaj(&Enako(Tip::Real, Real(3.14f32.to_bits()).rc(), Real(3.14159268f32.to_bits()).rc()), &[]).unwrap().enako(&Laz));

    assert!(izracunaj(&NiEnako(Tip::Celo, Celo(12).rc(), Celo(12).rc()), &[]).unwrap().enako(&Laz));
    assert!(izracunaj(&NiEnako(Tip::Celo, Celo(13).rc(), Celo(14).rc()), &[]).unwrap().enako(&Resnica));
    assert!(izracunaj(&NiEnako(Tip::Real, Real(3.14f32.to_bits()).rc(), Real(3.14f32.to_bits()).rc()), &[]).unwrap().enako(&Laz));
    assert!(izracunaj(&NiEnako(Tip::Real, Real(3.14f32.to_bits()).rc(), Real(3.14159268f32.to_bits()).rc()), &[]).unwrap().enako(&Resnica));

    assert!(izracunaj(&Vecje(Tip::Celo, Celo(12).rc(), Celo(12).rc()), &[]).unwrap().enako(&Laz));
    assert!(izracunaj(&Vecje(Tip::Celo, Celo(14).rc(), Celo(13).rc()), &[]).unwrap().enako(&Resnica));
    assert!(izracunaj(&Vecje(Tip::Real, Real(3.14f32.to_bits()).rc(), Real(3.14f32.to_bits()).rc()), &[]).unwrap().enako(&Laz));
    assert!(izracunaj(&Vecje(Tip::Real, Real(3.14159268f32.to_bits()).rc(), Real(3.14f32.to_bits()).rc()), &[]).unwrap().enako(&Resnica));

    assert!(izracunaj(&Vecje(Tip::Celo, Celo(12).rc(), Celo(12).rc()), &[]).unwrap().enako(&Laz));
    assert!(izracunaj(&Vecje(Tip::Celo, Celo(14).rc(), Celo(13).rc()), &[]).unwrap().enako(&Resnica));
    assert!(izracunaj(&Vecje(Tip::Real, Real(3.14f32.to_bits()).rc(), Real(3.14f32.to_bits()).rc()), &[]).unwrap().enako(&Laz));
    assert!(izracunaj(&Vecje(Tip::Real, Real(3.14159268f32.to_bits()).rc(), Real(3.14f32.to_bits()).rc()), &[]).unwrap().enako(&Resnica));

    assert!(izracunaj(&VecjeEnako(Tip::Celo, Celo(12).rc(), Celo(12).rc()), &[]).unwrap().enako(&Resnica));
    assert!(izracunaj(&VecjeEnako(Tip::Celo, Celo(14).rc(), Celo(13).rc()), &[]).unwrap().enako(&Resnica));
    assert!(izracunaj(&VecjeEnako(Tip::Real, Real(3.14f32.to_bits()).rc(), Real(3.14f32.to_bits()).rc()), &[]).unwrap().enako(&Resnica));
    assert!(izracunaj(&VecjeEnako(Tip::Real, Real(3.14159268f32.to_bits()).rc(), Real(3.14f32.to_bits()).rc()), &[]).unwrap().enako(&Resnica));
    assert!(izracunaj(&VecjeEnako(Tip::Real, Real(3.14f32.to_bits()).rc(), Real(3.14159268f32.to_bits()).rc()), &[]).unwrap().enako(&Laz));

    assert!(izracunaj(&Manjse(Tip::Celo, Celo(12).rc(), Celo(12).rc()), &[]).unwrap().enako(&Laz));
    assert!(izracunaj(&Manjse(Tip::Celo, Celo(13).rc(), Celo(14).rc()), &[]).unwrap().enako(&Resnica));
    assert!(izracunaj(&Manjse(Tip::Real, Real(3.14f32.to_bits()).rc(), Real(3.14f32.to_bits()).rc()), &[]).unwrap().enako(&Laz));
    assert!(izracunaj(&Manjse(Tip::Real, Real(3.14159268f32.to_bits()).rc(), Real(3.14f32.to_bits()).rc()), &[]).unwrap().enako(&Laz));
    assert!(izracunaj(&Manjse(Tip::Real, Real(3.14f32.to_bits()).rc(), Real(3.14159268f32.to_bits()).rc()), &[]).unwrap().enako(&Resnica));

    assert!(izracunaj(&ManjseEnako(Tip::Celo, Celo(12).rc(), Celo(12).rc()), &[]).unwrap().enako(&Resnica));
    assert!(izracunaj(&ManjseEnako(Tip::Celo, Celo(13).rc(), Celo(14).rc()), &[]).unwrap().enako(&Resnica));
    assert!(izracunaj(&ManjseEnako(Tip::Real, Real(3.14f32.to_bits()).rc(), Real(3.14f32.to_bits()).rc()), &[]).unwrap().enako(&Resnica));
    assert!(izracunaj(&ManjseEnako(Tip::Real, Real(3.14159268f32.to_bits()).rc(), Real(3.14f32.to_bits()).rc()), &[]).unwrap().enako(&Laz));
    assert!(izracunaj(&ManjseEnako(Tip::Real, Real(3.14f32.to_bits()).rc(), Real(3.14159268f32.to_bits()).rc()), &[]).unwrap().enako(&Resnica));
}

#[test]
fn eval_napake() {
    let izraz = [celo("7", 2, 5, "[test]")];
    let spr = |tip: Tip| Spremenljivka { tip, ime: "a".to_string(), naslov: 0, z_odmikom: false, spremenljiva: true };
    let n = izracunaj(&Add(Tip::Celo, spr(Tip::Celo).rc(), Celo(1).rc()), &izraz).err().unwrap();
    assert_eq!(n.napake().len(), 1);
    assert_eq!(n.napake()[0].sporocilo, "Vrednost spremenljivke a: celo ni znana vnaprej.");
    assert_eq!(n.napake()[0].zacetek, (2, 5));
    assert_eq!(n.napake()[0].konec, (2, 6));
    let n = izracunaj(&Dolzina(spr(Tip::RefSeznama(Box::new(Tip::Celo))).rc()), &izraz).err().unwrap();
    assert_eq!(n.napake()[0].sporocilo, "Dolžina seznama a: @[celo] ni znana vnaprej.");
    let n = izracunaj(&CeloVZnak(Celo(-1).rc()), &izraz).err().unwrap();
    assert_eq!(n.napake()[0].sporocilo, "Ne morem pretovriti št. -1 v znak.");
    // with no tokens to mark, an error cannot be made
    assert!(spr(Tip::Celo).eval(&[], &[]).is_none());
    assert!(CeloVZnak(Celo(65).rc()).eval(&[], &[]).is_none());
}

#[test]
fn eval_brez_izida() {
    // whole-number arithmetic wraps, as the machine's instructions do
    assert!(izracunaj(&Add(Tip::Celo, Celo(i32::MAX).rc(), Celo(1).rc()), &[]).unwrap().enako(&Celo(i32::MIN)));
    assert!(izracunaj(&Sub(Tip::Celo, Celo(i32::MIN).rc(), Celo(1).rc()), &[]).unwrap().enako(&Celo(i32::MAX)));
    assert!(izracunaj(&Mul(Tip::Celo, Celo(0x10000).rc(), Celo(0x10000).rc()), &[]).unwrap().enako(&Celo(0)));
    assert!(Div(Tip::Celo, Celo(1).rc(), Celo(0).rc()).eval(&[], &[]).is_none());
    assert!(Mod(Tip::Celo, Celo(i32::MIN).rc(), Celo(-1).rc()).eval(&[], &[]).is_none());
    assert!(izracunaj(&Pow(Tip::Celo, Celo(2).rc(), Celo(31).rc()), &[]).unwrap().enako(&Celo(i32::MIN)));
    assert!(izracunaj(&Pow(Tip::Celo, Celo(3).rc(), Celo(40).rc()), &[]).unwrap().enako(&Celo(3i32.wrapping_pow(40))));
    assert!(izracunaj(&Pow(Tip::Celo, Celo(-2).rc(), Celo(31).rc()), &[]).unwrap().enako(&Celo(i32::MIN)));
    assert!(izracunaj(&Pow(Tip::Celo, Celo(-1).rc(), Celo(5).rc()), &[]).unwrap().enako(&Celo(-1)));
    assert!(BitniPremikLevo(Celo(1).rc(), Celo(32).rc()).eval(&[], &[]).is_none());
    assert!(Add(Tip::Celo, Celo(1).rc(), Resnica.rc()).eval(&[], &[]).is_none());
    assert!(izracunaj(&Div(Tip::Celo, Celo(-7).rc(), Celo(2).rc()), &[]).unwrap().enako(&Celo(-3)));
    assert!(izracunaj(&Mod(Tip::Celo, Celo(-7).rc(), Celo(2).rc()), &[]).unwrap().enako(&Celo(-1)));
    assert!(izracunaj(&BitniPremikDesno(Celo(-8).rc(), Celo(1).rc()), &[]).unwrap().enako(&Celo(-4)));
    assert!(izracunaj(&RefSeznama(Niz("ab".to_string()).rc()), &[]).unwrap().enako(&Niz("ab".to_string())));
}

#[test]
fn eval_realne_operacije_od_klicatelja() {
    let izraz = Add(Tip::Real, Real(1.0f32.to_bits()).rc(), Real(2.0f32.to_bits()).rc());
    match izraz.eval(&[], &[]) {
        Some(Izid::Realno(o, a, b)) => {
            assert_eq!(o, RealnaOperacija::Vsota);
            assert_eq!(a, 1.0f32.to_bits());
            assert_eq!(b, 2.0f32.to_bits());
        }
        _ => panic!("the sum of reals is asked of the caller"),
    }
    let tabela = [(RealnaOperacija::Vsota, 1.0f32.to_bits(), 2.0f32.to_bits(), 7.0f32.to_bits())];
    match izraz.eval(&[], &tabela) {
        Some(Izid::Vrednost(v)) => assert!(v.enako(&Real(7.0f32.to_bits()))),
        _ => panic!("the table gives the sum"),
    }
}

#[test]
fn racun_ponovni_izracun() {
    let v = izracunaj(&Add(Tip::Celo, Celo(2).rc(), Mul(Tip::Celo, Celo(3).rc(), Celo(4).rc()).rc()), &[]).unwrap();
    assert!(v.enako(&Celo(14)));
    assert!(izracunaj(&v, &[]).unwrap().enako(&Celo(14)));
    let r = izracunaj(&CeloVReal(Celo(2).rc()), &[]).unwrap();
    assert!(r.enako(&Real(2.0f32.to_bits())));
    assert!(izracunaj(&r, &[]).unwrap().enako(&Real(2.0f32.to_bits())));
}
