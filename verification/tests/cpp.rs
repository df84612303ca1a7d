use slj::tip::Tip;
use slj::vozlisce::Vozlisce::{
    Add, Celo, Disjunkcija, Div, Enako, Funkcija, FunkcijskiKlic, Konjunkcija, Laz, Mod, Mul, NaloziOdmik, Natisni, Niz,
    Okvir, PogojniStavek, Pop, Pow, Prazno, Prirejanje, Push, Real, Referenca, Resnica, ShraniOdmik, Spremenljivka, Sub,
    Vecje, Vrh, Vrni, Zanikaj, Zanka, Zaporedje, Znak,
};

const ADDI: &str = "stack.back().i = stack[stack.size() - 2].i + stack.back().i; stack.pop_back();\n";
const ADDF: &str = "stack.back().f = stack[stack.size() - 2].f + stack.back().f; stack.pop_back();\n";
const SUBI: &str = "stack.back().i = stack[stack.size() - 2].i - stack.back().i; stack.pop_back();\n";
const SUBF: &str = "stack.back().f = stack[stack.size() - 2].f - stack.back().f; stack.pop_back();\n";
const MULI: &str = "stack.back().i = stack[stack.size() - 2].i * stack.back().i; stack.pop_back();\n";
const MULF: &str = "stack.back().f = stack[stack.size() - 2].f * stack.back().f; stack.pop_back();\n";
const DIVI: &str = "stack.back().i = stack[stack.size() - 2].i / stack.back().i; stack.pop_back();\n";
const DIVF: &str = "stack.back().f = stack[stack.size() - 2].f / stack.back().f; stack.pop_back();\n";
const MODI: &str = "stack.back().i = stack[stack.size() - 2].i % stack.back().i; stack.pop_back();\n";
const MODF: &str = "stack.back().f = stack[stack.size() - 2].f.modf(stack.back().f); stack.pop_back();\n";
const POWI: &str = "stack.back().i = stack[stack.size() - 2].i.pow(stack.back().i); stack.pop_back();\n";
const POWF: &str = "stack.back().f = stack[stack.size() - 2].f.pow(stack.back().f); stack.pop_back();\n";

const BOR:  &str = "stack.back().i = stack[stack.size() - 2].i |  stack.back().i; stack.pop_back();\n";
const BXOR: &str = "stack.back().i = stack[stack.size() - 2].i ^  stack.back().i; stack.pop_back();\n";
const BAND: &str = "stack.back().i = stack[stack.size() - 2].i &  stack.back().i; stack.pop_back();\n";
const BSLL: &str = "stack.back().i = stack[stack.size() - 2].i << stack.back().i; stack.pop_back();\n";
const BSLD: &str = "stack.back().i = stack[stack.size() - 2].i >> stack.back().i; stack.pop_back();\n";

const POS:  &str = "stack.back().i = stack.back().f >  0.0f\n";
const ZERO: &str = "stack.back().i = stack.back().f == 0.0f\n";

fn aloc(krat: i32) -> String {
    format!("stack.resize(stack.size() + {krat});\n")
}
fn push(podatek: &str) -> String {
    format!("stack.push_back({podatek});\n")
}
const POP:  &str = "stack.pop_back();\n";

fn load(naslov: i32) -> String {
    format!("stack.push_back(stack[{naslov}]);\n")
}
fn ldof(naslov: i32) -> String {
    format!("stack.push_back(stack[addroff + {naslov}]);\n")
}

fn stor(naslov: i32) -> String {
    format!("stack[{naslov}] = stack.back(); stack.pop_back();\n")
}
fn stof(naslov: i32) -> String {
    format!("stack[addroff + {naslov}] = stack.back(); stack.pop_back();\n")
}
fn stdy(naslov: i32) -> String {
    format!("auto dynaddr = stack.back(); stack.pop_back();\nstack[dynaddr + {naslov}] = stack.back(); stack.pop_back();\n")
}

const SOFF: &str = "addroff = stack.back().i; stack.pop_back()\n";
const LOFF: &str = "stack.push_back(Podatek { i: *addroff });\n";

fn top(odmik: i32) -> String {
    format!("addroff = stack.size() + {odmik};\n")
}

const GETC: &str = "stack.push_back('\0'); std::cin >> stack.back().c;\n";
const PUTC: &str = "std::cout << stack.back().c; stack.pop_back();\n";

#[test]
fn v_cpp_prevedi() {
    let mut sk: u64 = 0;
    let mut fu: u64 = 0;
        assert_eq!(Prazno.v_cpp(&mut sk, &mut fu).unwrap(), "");

        assert_eq!(Push(0).v_cpp(&mut sk, &mut fu).unwrap(), "");
        assert_eq!(Push(3).v_cpp(&mut sk, &mut fu).unwrap(), aloc(3));

        assert_eq!(Pop(0).v_cpp(&mut sk, &mut fu).unwrap(), "");
        assert_eq!(Pop(3).v_cpp(&mut sk, &mut fu).unwrap(), aloc(-3));

        assert_eq!(Vrh(-13).v_cpp(&mut sk, &mut fu).unwrap(), top(-13));

        assert_eq!(ShraniOdmik.v_cpp(&mut sk, &mut fu).unwrap(), SOFF);
        assert_eq!(NaloziOdmik.v_cpp(&mut sk, &mut fu).unwrap(), LOFF);

        assert_eq!(Niz("šipa".to_string()).v_cpp(&mut sk, &mut fu).unwrap(),
        "stack.push_back({ 'a' });\nstack.push_back({ 'p' });\nstack.push_back({ 'i' });\nstack.push_back({ 'š' });\nstack.push_back(4);\n");

        assert_eq!(Real((-3.14f32).to_bits()).v_cpp(&mut sk, &mut fu).unwrap(), push(&format!("{{ {} }}", (-3.14f32).to_bits() as i32)));

        assert_eq!(Spremenljivka { tip: Tip::Real, ime: "šmir".to_string(), naslov: 55, z_odmikom: true,  spremenljiva: false }.v_cpp(&mut sk, &mut fu).unwrap(), ldof(55));
        assert_eq!(Spremenljivka { tip: Tip::Celo, ime: "šmir".to_string(), naslov: 55, z_odmikom: false, spremenljiva: false }.v_cpp(&mut sk, &mut fu).unwrap(), load(55));
        assert_eq!(Referenca(Spremenljivka { tip: Tip::Celo, ime: "šmir".to_string(), naslov: 55, z_odmikom: true, spremenljiva: false }.rc()).v_cpp(&mut sk, &mut fu).unwrap(),
            push("{ 55 }")
            + LOFF
            + ADDI
        );
        assert_eq!(
            Referenca(Spremenljivka { tip: Tip::Celo, ime: "šmir".to_string(), naslov: 55, z_odmikom: false, spremenljiva: false }.rc()).v_cpp(&mut sk, &mut fu).unwrap(),
            push("{ 55 }")
        );

        assert_eq!(Resnica.v_cpp(&mut sk, &mut fu).unwrap(), push("{ 1 }"));
        assert_eq!(Laz.v_cpp(&mut sk, &mut fu).unwrap(), push("{ 0 }"));

        assert_eq!(Add(Tip::Real, Real((1.0f32).to_bits()).rc(), Real((2.0f32).to_bits()).rc()).v_cpp(&mut sk, &mut fu).unwrap(),
            push(&format!("{{ {} }}", (1.0f32).to_bits() as i32))
            + &push(&format!("{{ {} }}", (2.0f32).to_bits() as i32))
            + ADDF
        );
        assert_eq!(Sub(Tip::Celo, Celo(1).rc(), Celo(2).rc()).v_cpp(&mut sk, &mut fu).unwrap(),
            push("{ 1 }")
            + &push("{ 2 }")
            + SUBI
        );
        assert_eq!(Mul(Tip::Real, Real((1.0f32).to_bits()).rc(), Real((2.0f32).to_bits()).rc()).v_cpp(&mut sk, &mut fu).unwrap(),
            push(&format!("{{ {} }}", (1.0f32).to_bits() as i32))
            + &push(&format!("{{ {} }}", (2.0f32).to_bits() as i32))
            + MULF
        );
        assert_eq!(Div(Tip::Celo, Celo(1).rc(), Celo(2).rc()).v_cpp(&mut sk, &mut fu).unwrap(),
            push("{ 1 }")
            + &push("{ 2 }")
            + DIVI
        );
        assert_eq!(Mod(Tip::Real, Real((1.0f32).to_bits()).rc(), Real((2.0f32).to_bits()).rc()).v_cpp(&mut sk, &mut fu).unwrap(),
            push(&format!("{{ {} }}", (1.0f32).to_bits() as i32))
            + &push(&format!("{{ {} }}", (2.0f32).to_bits() as i32))
            + MODF
        );
        assert_eq!(Pow(Tip::Celo, Celo(1).rc(), Celo(2).rc()).v_cpp(&mut sk, &mut fu).unwrap(),
            push("{ 1 }")
            + &push("{ 2 }")
            + POWI
        );

        assert_eq!(Zanikaj(Resnica.rc()).v_cpp(&mut sk, &mut fu).unwrap(),
            push("{ 1 }")
            + &push("{ 1 }")
            + SUBI
        );
        assert_eq!(Zanikaj(Laz.rc()).v_cpp(&mut sk, &mut fu).unwrap(),
            push("{ 1 }")
            + &push("{ 0 }")
            + SUBI
        );
        assert_eq!(Konjunkcija(Laz.rc(), Resnica.rc()).v_cpp(&mut sk, &mut fu).unwrap(),
            push("{ 0 }")
            + &push("{ 1 }")
            + MULI
        );
        assert_eq!(Disjunkcija(Laz.rc(), Resnica.rc()).v_cpp(&mut sk, &mut fu).unwrap(),
            push("{ 0 }")
            + &push("{ 1 }")
            + ADDI
            + POS
        );

        assert_eq!(Enako(Tip::Real, Real((3.14f32).to_bits()).rc(), Real((3.14159268f32).to_bits()).rc()).v_cpp(&mut sk, &mut fu).unwrap(),
                   push(&format!("{{ {} }}", (3.14f32).to_bits() as i32))
                   + &push(&format!("{{ {} }}", (3.14159268f32).to_bits() as i32))
                   + SUBF
                   + ZERO
        );
        assert_eq!(Vecje(Tip::Celo, Celo(13).rc(), Celo(42).rc()).v_cpp(&mut sk, &mut fu).unwrap(),
                   push("{ 13 }")
                   + &push("{ 42 }")
                   + SUBI
                   + POS
        );

        assert_eq!(PogojniStavek { 
            pogoj: Resnica.rc(),
            resnica: Natisni(Znak('r').rc()).rc(),
            laz: Natisni(Znak('l').rc()).rc(),
        }.v_cpp(&mut sk, &mut fu).unwrap(),
            push("{ 1 }")
            + "if (stack.back().i != 0) { stack.pop_back(); goto resnica_0; } else stack.pop_back();\n"
            + &push("{ 'l' }")
            + PUTC
            + "goto konec_0;\n"
            + "resnica_0:\n"
            + &push("{ 'r' }")
            + PUTC
            + "konec_0:\n"
        );

        assert_eq!(Zanka {
            pogoj: Laz.rc(), 
            telo: Prirejanje { 
                spremenljivka: Spremenljivka { tip: Tip::Real, ime: "x".to_string(), naslov: 25, z_odmikom: false, spremenljiva: true }.rc(),
                izraz: Real((27.0f32).to_bits()).rc(),
            }.rc(),
        }.v_cpp(&mut sk, &mut fu).unwrap(),
            push("{ 0 }")
            + "zanka_1:\n"
            + "if (stack.back().i == 0) { stack.pop_back(); goto konec_1; } else stack.pop_back();\n"
            + &push("{ 1104674816 }")
            + &stor(25)
            + "goto zanka_1;\n"
        );

        assert_eq!(Prirejanje {
            spremenljivka: Spremenljivka { tip: Tip::Real, ime: "x".to_string(), naslov: 3, z_odmikom: true, spremenljiva: false }.rc(),
            izraz: Real((-3.14f32).to_bits()).rc(),
        }.v_cpp(&mut sk, &mut fu).unwrap(),
            push(&format!("{{ {} }}", (-3.14f32).to_bits() as i32))
            + &stof(3)
        );

        assert_eq!(Vrni(Prirejanje {
            spremenljivka: Spremenljivka { tip: Tip::Real, ime: "vrni".to_string(), naslov: 0, z_odmikom: true, spremenljiva: true }.rc(),
            izraz: Real((2.0f32).to_bits()).rc()
        }.rc()).v_cpp(&mut sk, &mut fu).unwrap(),
            push(&format!("{{ {} }}", (2.0f32).to_bits() as i32))
            + &stof(0)
            + "goto vrni_0;\n"
        );

        assert_eq!(Zaporedje(vec![
                             Real((1.0f32).to_bits()).rc(),
                             Real((2.0f32).to_bits()).rc(),
                             Resnica.rc(),
                             Laz.rc(),
        ]).v_cpp(&mut sk, &mut fu).unwrap(),
            push(&format!("{{ {} }}", (1.0f32).to_bits() as i32))
            + &push(&format!("{{ {} }}", (2.0f32).to_bits() as i32))
            + &push("{ 1 }")
            + &push("{ 0 }")
        );

        assert_eq!(Okvir {
            zaporedje: Zaporedje(vec![
                                 Vrni(Prirejanje {
                                     spremenljivka: Spremenljivka { tip: Tip::Celo, ime: "vrni".to_string(), naslov: 0, z_odmikom: true, spremenljiva: true }.rc(),
                                     izraz: Spremenljivka { tip: Tip::Celo, ime: "x".to_string(), naslov: 1, z_odmikom: true, spremenljiva: false }.rc(),
                                 }.rc()).rc(),
            ]).rc(),
            st_spr: 2
        }.v_cpp(&mut sk, &mut fu).unwrap(),
            aloc(2)
            + &ldof(1)
            + &stof(0)
            + "goto vrni_0;\n"
            + &aloc(-2)
        );

        let funkcija = Funkcija {
            tip: Tip::Real,
            ime: "ena(real)".to_string(),
            parametri: vec![
                Spremenljivka { tip: Tip::Celo, ime: "x".to_string(), naslov: 2, z_odmikom: true, spremenljiva: true }.rc(),
                Spremenljivka { tip: Tip::Celo, ime: "y".to_string(), naslov: 3, z_odmikom: true, spremenljiva: false }.rc(),
            ],
            telo: Vrni(Prirejanje {
                spremenljivka: Spremenljivka { tip: Tip::Real, ime: "vrni".to_string(), naslov: 0, z_odmikom: true, spremenljiva: true }.rc(),
                izraz: Real((1.0f32).to_bits()).rc()
            }.rc()).rc(),
            prostor: 0,
        }.rc();

        assert_eq!(funkcija.clone().v_cpp(&mut sk, &mut fu).unwrap(),
            "void ena_real()\n{\n".to_string()
            + LOFF
            + &top(-5)
            + &push(&format!("{{ {} }}", (1.0f32).to_bits() as i32))
            + &stof(0)
            + "goto vrni_1;\n"
            + "vrni_0:\n"
            + SOFF
            + &aloc(-2)
            + "}\n"
        );

        assert_eq!(FunkcijskiKlic {
            funkcija: funkcija.clone(),
            spremenljivke: Zaporedje(vec![]).rc(),
            argumenti: Zaporedje(vec![Real((1.0f32).to_bits()).rc(), Real((2.0f32).to_bits()).rc()]).rc(),
        }.v_cpp(&mut sk, &mut fu).unwrap(),
            aloc(1)
            + &push(&format!("{{ {} }}", (1.0f32).to_bits() as i32))
            + &push(&format!("{{ {} }}", (2.0f32).to_bits() as i32))
            + "ena_real();\n"
        );
}
