//! Diagnostics: an error names its kind, carries a message, and marks the
//! stretch of the source it is about.

use crate::lekser::Zeton;
use vstd::prelude::*;
use vstd::string::StrSliceExecFns;

verus! {

/// The kind of an error.
#[derive(Debug, Clone, Copy, PartialEq, Eq)]
pub enum OznakaNapake {
    E1,
    E2,
    E3,
    E4,
    E5,
    E6,
    E7,
    E8,
    E9,
}

/// One error: its kind, its message, the file, and the first and the last
/// position (line, column) of the marked stretch.
#[derive(Debug, PartialEq)]
pub struct Napaka {
    pub oznaka: OznakaNapake,
    pub sporocilo: String,
    pub datoteka: String,
    pub zacetek: (usize, usize),
    pub konec: (usize, usize),
}

/// A list of errors.
#[derive(Debug, PartialEq)]
pub struct Napake {
    napake: Vec<Napaka>,
}

/// Whether the column just after the token still fits in `usize`.
pub open spec fn v_mejah(z: Zeton) -> bool {
    z.stolpec() + z.besedilo()@.len() <= usize::MAX
}

/// Whether every token of the sequence is `v_mejah`.
pub open spec fn vsi_v_mejah(zaporedje: Seq<Zeton>) -> bool {
    forall|i: int| 0 <= i < zaporedje.len() ==> v_mejah(#[trigger] zaporedje[i])
}

/// The value of an error: kind, message, file, first and last position.
pub ghost struct OpisNapake {
    pub oznaka: OznakaNapake,
    pub sporocilo: Seq<char>,
    pub datoteka: Seq<char>,
    pub zacetek: (usize, usize),
    pub konec: (usize, usize),
}

impl View for Napaka {
    type V = OpisNapake;

    open spec fn view(&self) -> OpisNapake {
        OpisNapake {
            oznaka: self.oznaka,
            sporocilo: self.sporocilo@,
            datoteka: self.datoteka@,
            zacetek: self.zacetek,
            konec: self.konec,
        }
    }
}

/// The error of kind `oznaka` with message `sporocilo` about the tokens
/// `zaporedje`: it starts at the first token, in that token's file, and ends
/// just after the last one.
pub open spec fn napaka_iz(zaporedje: Seq<Zeton>, oznaka: OznakaNapake, sporocilo: Seq<char>) -> OpisNapake {
    let prvi = zaporedje[0];
    let zadnji = zaporedje.last();
    OpisNapake {
        oznaka,
        sporocilo,
        datoteka: prvi.izvor()@,
        zacetek: (prvi.vrstica(), prvi.stolpec()),
        konec: (zadnji.vrstica(), (zadnji.stolpec() + zadnji.besedilo()@.len()) as usize),
    }
}

/// The values of a list of errors.
pub open spec fn opisi(napake: Seq<Napaka>) -> Seq<OpisNapake> {
    napake.map_values(|n: Napaka| n@)
}

impl Clone for Napaka {
    fn clone(&self) -> (r: Self)
        ensures
            r == *self,
    {
        Napaka {
            oznaka: self.oznaka,
            sporocilo: self.sporocilo.clone(),
            datoteka: self.datoteka.clone(),
            zacetek: self.zacetek,
            konec: self.konec,
        }
    }
}

impl Napaka {
    /// The error of kind `oznaka` with message `sporocilo` about the tokens
    /// `zaporedje`.
    pub fn from_zaporedje(zaporedje: &[Zeton], oznaka: OznakaNapake, sporocilo: &str) -> (r: Napaka)
        requires
            zaporedje@.len() > 0,
            v_mejah(zaporedje@.last()),
        ensures
            r@ == napaka_iz(zaporedje@, oznaka, sporocilo@),
    {
        let prvi = &zaporedje[0];
        let zacetek = prvi.lokacija();
        let datoteka = prvi.datoteka();
        let sporocilo = sporocilo.to_owned();
        let zeton = &zaporedje[zaporedje.len() - 1];
        let (vrstica, znak) = zeton.lokacija();
        let konec = (vrstica, znak + zeton.as_str().unicode_len());
        Napaka { oznaka, datoteka, sporocilo, zacetek, konec }
    }
}

impl View for Napake {
    type V = Seq<OpisNapake>;

    closed spec fn view(&self) -> Seq<OpisNapake> {
        opisi(self.napake@)
    }
}

impl Clone for Napake {
    fn clone(&self) -> (r: Self)
        ensures
            r@ == self@,
    {
        let mut v: Vec<Napaka> = Vec::new();
        let mut i: usize = 0;
        while i < self.napake.len()
            invariant
                0 <= i <= self.napake@.len(),
                v@ == self.napake@.subrange(0, i as int),
            decreases self.napake@.len() - i,
        {
            v.push(self.napake[i].clone());
            i = i + 1;
            assert(v@ =~= self.napake@.subrange(0, i as int));
        }
        assert(self.napake@.subrange(0, i as int) =~= self.napake@);
        assert(opisi(v@) =~= opisi(self.napake@));
        Napake { napake: v }
    }
}

impl Napake {
    /// No errors.
    pub fn new() -> (r: Napake)
        ensures
            r@ == Seq::<OpisNapake>::empty(),
    {
        let r = Napake { napake: Vec::new() };
        assert(opisi(r.napake@) =~= Seq::<OpisNapake>::empty());
        r
    }

    /// The single error of kind `oznaka` with message `sporocilo` about the
    /// tokens `zaporedje`.
    pub fn from_zaporedje(zaporedje: &[Zeton], oznaka: OznakaNapake, sporocilo: &str) -> (r: Napake)
        requires
            zaporedje@.len() > 0,
            v_mejah(zaporedje@.last()),
        ensures
            r@ == seq![napaka_iz(zaporedje@, oznaka, sporocilo@)],
    {
        let mut n = Self::new();
        let _ = n.add_napaka(Napaka::from_zaporedje(zaporedje, oznaka, sporocilo));
        assert(n@ =~= seq![napaka_iz(zaporedje@, oznaka, sporocilo@)]);
        n
    }

    /// Appends an error, and returns a copy of the list that now holds it.
    pub fn add_napaka(&mut self, napaka: Napaka) -> (r: Napake)
        ensures
            final(self)@ == old(self)@.push(napaka@),
            r@ == final(self)@,
    {
        let ghost n = napaka@;
        self.napake.push(napaka);
        assert(opisi(self.napake@) =~= opisi(old(self).napake@).push(n));
        self.clone()
    }

    /// Whether the list holds no error.
    pub fn prazno(&self) -> (r: bool)
        ensures
            r == (self@.len() == 0),
    {
        self.napake.len() == 0
    }

    /// Appends the errors of `other`.
    pub fn razsiri(&mut self, other: Self)
        ensures
            final(self)@ == old(self)@ + other@,
    {
        let mut other = other;
        let ghost dodane = other.napake@;
        self.napake.append(&mut other.napake);
        assert(opisi(self.napake@) =~= opisi(old(self).napake@) + opisi(dodane));
    }

    /// The errors, in order.
    pub fn napake(&self) -> (r: &[Napaka])
        ensures
            opisi(r@) == self@,
    {
        self.napake.as_slice()
    }
}

} // verus!
