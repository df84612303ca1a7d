//! The last pass over assembler text: a `return` becomes a jump to the end
//! of its function, labels are taken out and every jump to a label or by an
//! offset becomes a jump to an absolute line.

use crate::besedilo::{desetisko, desetisko_celo, dodaj_desetisko, dodaj_desetisko_celo, enaki_znaki, iz_znakov, pripni, zacne, zacne_z, znaki};
use crate::stevilo::{celo_iz, preberi_i32};
use vstd::prelude::*;
use vstd::string::StringExecFns;

verus! {

/// The pieces of `s` between the characters `c`, empty pieces included.
pub open spec fn razdeli_znak(s: Seq<char>, c: char) -> Seq<Seq<char>>
    decreases s.len(),
{
    if s.len() == 0 {
        seq![Seq::empty()]
    } else {
        let d = razdeli_znak(s.drop_last(), c);
        if s.last() == c {
            d.push(Seq::empty())
        } else {
            d.update(d.len() - 1, d.last().push(s.last()))
        }
    }
}

/// The first line from `j` on that starts with `.0konec`, or the number of
/// lines when there is none.
pub open spec fn konec_od(v: Seq<Seq<char>>, j: int) -> int
    decreases v.len() - j,
{
    if j < 0 || j >= v.len() {
        v.len() as int
    } else if zacne(v[j], ".0konec"@) {
        j
    } else {
        konec_od(v, j + 1)
    }
}

/// Whether every `return` has a line starting with `.0konec` after it.
pub open spec fn vsak_return_ima_konec(v: Seq<Seq<char>>) -> bool {
    forall|i: int| 0 <= i < v.len() && v[i] == "return"@ ==> konec_od(v, i + 1) < v.len()
}

/// The lines with each `return` turned into a jump to the next `.0konec`
/// label.
pub open spec fn brez_return(v: Seq<Seq<char>>) -> Seq<Seq<char>> {
    Seq::new(
        v.len(),
        |i: int|
            if v[i] == "return"@ && konec_od(v, i + 1) < v.len() {
                "JUMP "@ + v[konec_od(v, i + 1)]
            } else {
                v[i]
            },
    )
}

/// The lines without the labels (those that start with `.`), and each label
/// with the index, among the kept lines, of the line after it.
pub open spec fn preberi_oznake(v: Seq<Seq<char>>) -> (Seq<Seq<char>>, Seq<(Seq<char>, int)>)
    decreases v.len(),
{
    if v.len() == 0 {
        (Seq::empty(), Seq::empty())
    } else {
        let (u, o) = preberi_oznake(v.drop_last());
        if zacne(v.last(), "."@) {
            (u, o.push((v.last(), u.len() as int)))
        } else {
            (u.push(v.last()), o)
        }
    }
}

/// The line of the label `ime`; a label given twice counts where it was
/// given last.
pub open spec fn poisci_oznako(o: Seq<(Seq<char>, int)>, ime: Seq<char>) -> Option<int>
    decreases o.len(),
{
    if o.len() == 0 {
        None
    } else if o.last().0 == ime {
        Some(o.last().1)
    } else {
        poisci_oznako(o.drop_last(), ime)
    }
}

/// A number of type `i32` as the `u32` with the same bits.
pub open spec fn kot_u32(x: int) -> int {
    if x < 0 {
        x + 0x1_0000_0000
    } else {
        x
    }
}

/// Whether a number fits in `i32`.
pub open spec fn v_i32(x: int) -> bool {
    i32::MIN <= x <= i32::MAX
}

/// The output of the line `vrstica`, the `k`-th of the kept lines: nothing
/// for an empty line; `JUMP` and `JMPC` with a label or an offset become a
/// jump to an absolute line, `PC n` pushes the line `k + n`, and any other
/// line stays. None where the pass panics: an unknown label, an offset
/// that is no number or leaves `i32`, a `PC` without an offset.
pub open spec fn izhod_vrstice(vrstica: Seq<char>, k: int, o: Seq<(Seq<char>, int)>) -> Option<Seq<char>> {
    if vrstica.len() == 0 {
        Some(Seq::empty())
    } else {
        let d = razdeli_znak(vrstica, ' ');
        let ukaz = d[0];
        if ukaz == "JUMP"@ || ukaz == "JMPC"@ {
            if d.len() == 1 {
                Some(ukaz + "\n"@)
            } else if zacne(d[1], "."@) {
                match poisci_oznako(o, d[1]) {
                    Some(n) => Some(ukaz + " #"@ + desetisko(kot_u32(n) as nat) + "\n"@),
                    None => None,
                }
            } else {
                match celo_iz(d[1]) {
                    Ok(x) => if v_i32(k + x) {
                        Some(ukaz + " #"@ + desetisko(kot_u32(k + x) as nat) + "\n"@)
                    } else {
                        None
                    },
                    Err(_) => None,
                }
            }
        } else if ukaz == "PC"@ {
            if d.len() < 2 {
                None
            } else {
                match celo_iz(d[1]) {
                    Ok(x) => if v_i32(k + x) {
                        Some("PUSH #"@ + desetisko_celo(k + x) + "\n"@)
                    } else {
                        None
                    },
                    Err(_) => None,
                }
            }
        } else {
            Some(vrstica + "\n"@)
        }
    }
}

/// The output of the lines `u`, one after the other.
pub open spec fn izhod_vrstic(u: Seq<Seq<char>>, o: Seq<(Seq<char>, int)>) -> Option<Seq<char>>
    decreases u.len(),
{
    if u.len() == 0 {
        Some(Seq::empty())
    } else {
        match (izhod_vrstic(u.drop_last(), o), izhod_vrstice(u.last(), u.len() - 1, o)) {
            (Some(a), Some(b)) => Some(a + b),
            _ => None,
        }
    }
}

/// The whole pass over the text `s`; None where it panics.
pub open spec fn postprocesirano(s: Seq<char>) -> Option<Seq<char>> {
    let v = razdeli_znak(s, '\n');
    if vsak_return_ima_konec(v) {
        let (u, o) = preberi_oznake(brez_return(v));
        izhod_vrstic(u, o)
    } else {
        None
    }
}

/// The number of lines of `s`.
pub open spec fn st_vrstic(s: Seq<char>) -> int {
    razdeli_znak(s, '\n').len() as int
}

/// The last pass over assembler text.
pub trait Postprocesiraj {
    /// What the pass gives; None where it panics.
    spec fn izid_postprocesiranja(&self) -> Option<Seq<char>>;

    /// The number of lines.
    spec fn st_vrstic_besedila(&self) -> int;

    /// The text after the pass.
    fn postprocesiraj(&self) -> (r: String)
        requires
            self.izid_postprocesiranja() is Some,
            self.st_vrstic_besedila() <= i32::MAX,
        ensures
            self.izid_postprocesiranja() == Some(r@),
    ;
}

/// The views of lines.
pub open spec fn pogledi(v: Seq<Vec<char>>) -> Seq<Seq<char>> {
    v.map_values(|x: Vec<char>| x@)
}

/// There is always at least one piece.
proof fn lema_razdeli_ni_prazno(s: Seq<char>, c: char)
    ensures
        razdeli_znak(s, c).len() >= 1,
    decreases s.len(),
{
    if s.len() > 0 {
        lema_razdeli_ni_prazno(s.drop_last(), c);
    }
}

/// The search for `.0konec` from `j` ends at `j` or later, on such a line
/// when it finds one.
proof fn lema_konec(v: Seq<Seq<char>>, j: int)
    requires
        0 <= j <= v.len(),
    ensures
        j <= konec_od(v, j) <= v.len(),
        konec_od(v, j) < v.len() ==> zacne(v[konec_od(v, j)], ".0konec"@),
    decreases v.len() - j,
{
    if j < v.len() && !zacne(v[j], ".0konec"@) {
        lema_konec(v, j + 1);
    }
}

/// When the output of all lines succeeds, the output of each line does.
proof fn lema_vrstica_uspe(u: Seq<Seq<char>>, o: Seq<(Seq<char>, int)>, k: int)
    requires
        izhod_vrstic(u, o) is Some,
        0 <= k < u.len(),
    ensures
        izhod_vrstice(u[k], k, o) is Some,
    decreases u.len(),
{
    if k < u.len() - 1 {
        lema_vrstica_uspe(u.drop_last(), o, k);
    }
}

/// The pieces of `s` between the characters `c`.
fn razdeli_po(s: &[char], c: char) -> (r: Vec<Vec<char>>)
    ensures
        pogledi(r@) == razdeli_znak(s@, c),
{
    let mut r: Vec<Vec<char>> = Vec::new();
    let mut trenutna: Vec<char> = Vec::new();
    let mut i: usize = 0;
    assert(pogledi(r@).push(trenutna@) =~= razdeli_znak(s@.subrange(0, 0), c));
    while i < s.len()
        invariant
            0 <= i <= s@.len(),
            pogledi(r@).push(trenutna@) == razdeli_znak(s@.subrange(0, i as int), c),
        decreases s@.len() - i,
    {
        let ghost pred = s@.subrange(0, i as int);
        assert(s@.subrange(0, i + 1).drop_last() =~= pred);
        assert(s@.subrange(0, i + 1).last() == s@[i as int]);
        let ghost d = razdeli_znak(pred, c);
        if s[i] == c {
            r.push(trenutna);
            trenutna = Vec::new();
            assert(pogledi(r@).push(trenutna@) =~= d.push(Seq::empty()));
        } else {
            let ghost staro = trenutna@;
            trenutna.push(s[i]);
            assert(d.last() == staro);
            assert(pogledi(r@).push(trenutna@) =~= d.update(d.len() - 1, d.last().push(s@[i as int])));
        }
        i = i + 1;
    }
    assert(s@.subrange(0, i as int) =~= s@);
    let ghost koncni = pogledi(r@).push(trenutna@);
    r.push(trenutna);
    assert(pogledi(r@) =~= koncni);
    r
}

/// Each `return` turned into a jump to the next `.0konec` label.
fn zamenjaj_return(v: &Vec<Vec<char>>) -> (w: Vec<Vec<char>>)
    requires
        vsak_return_ima_konec(pogledi(v@)),
    ensures
        pogledi(w@) == brez_return(pogledi(v@)),
{
    let ghost pv = pogledi(v@);
    let ret = znaki("return");
    let konec = znaki(".0konec");
    let skok = znaki("JUMP ");
    let mut w: Vec<Vec<char>> = Vec::new();
    let mut i: usize = 0;
    while i < v.len()
        invariant
            0 <= i <= v@.len(),
            pv == pogledi(v@),
            pv.len() == v@.len(),
            vsak_return_ima_konec(pv),
            ret@ == "return"@,
            konec@ == ".0konec"@,
            skok@ == "JUMP "@,
            w@.len() == i,
            forall|m: int| 0 <= m < i ==> (#[trigger] pogledi(w@)[m]) == brez_return(pv)[m],
        decreases v@.len() - i,
    {
        assert(pv[i as int] == v@[i as int]@);
        if enaki_znaki(v[i].as_slice(), ret.as_slice()) {
            let ghost cilj = konec_od(pv, i + 1);
            assert(cilj < pv.len());
            proof {
                lema_konec(pv, i + 1);
            }
            let mut j: usize = i + 1;
            while !zacne_z(v[j].as_slice(), konec.as_slice())
                invariant
                    i + 1 <= j <= cilj,
                    cilj == konec_od(pv, j as int),
                    cilj < pv.len(),
                    pv == pogledi(v@),
                    pv.len() == v@.len(),
                    pv.len() == v.len(),
                    konec@ == ".0konec"@,
                decreases cilj - j,
            {
                assert(pv[j as int] == v@[j as int]@);
                assert(!zacne(pv[j as int], ".0konec"@));
                assert(konec_od(pv, j as int) == konec_od(pv, j + 1));
                proof {
                    lema_konec(pv, j + 1);
                }
                j = j + 1;
            }
            assert(pv[j as int] == v@[j as int]@);
            assert(j == cilj);
            let mut nova: Vec<char> = Vec::new();
            pripni(&mut nova, skok.as_slice());
            pripni(&mut nova, v[j].as_slice());
            assert(nova@ == brez_return(pv)[i as int]);
            let ghost staro = pogledi(w@);
            let ghost nv = nova@;
            w.push(nova);
            assert(pogledi(w@) =~= staro.push(nv));
        } else {
            let mut kopija: Vec<char> = Vec::new();
            pripni(&mut kopija, v[i].as_slice());
            assert(kopija@ =~= v@[i as int]@);
            assert(kopija@ == brez_return(pv)[i as int]);
            let ghost staro = pogledi(w@);
            let ghost kv = kopija@;
            w.push(kopija);
            assert(pogledi(w@) =~= staro.push(kv));
        }
        i = i + 1;
    }
    assert(pogledi(w@) =~= brez_return(pv));
    w
}

/// The lines without labels, and the labels with their lines.
fn loci_oznake(w: &Vec<Vec<char>>) -> (r: (Vec<Vec<char>>, Vec<(Vec<char>, u32)>))
    requires
        w@.len() <= i32::MAX,
    ensures
        pogledi(r.0@) == preberi_oznake(pogledi(w@)).0,
        r.1@.len() == preberi_oznake(pogledi(w@)).1.len(),
        forall|m: int| 0 <= m < r.1@.len() ==> (#[trigger] r.1@[m]).0@ == preberi_oznake(pogledi(w@)).1[m].0
            && r.1@[m].1 as int == preberi_oznake(pogledi(w@)).1[m].1,
{
    let ghost pw = pogledi(w@);
    let pika = znaki(".");
    let mut u: Vec<Vec<char>> = Vec::new();
    let mut o: Vec<(Vec<char>, u32)> = Vec::new();
    let mut i: usize = 0;
    while i < w.len()
        invariant
            0 <= i <= w@.len(),
            w@.len() <= i32::MAX,
            pw == pogledi(w@),
            pw.len() == w@.len(),
            pika@ == "."@,
            u@.len() <= i,
            pogledi(u@) == preberi_oznake(pw.subrange(0, i as int)).0,
            o@.len() == preberi_oznake(pw.subrange(0, i as int)).1.len(),
            forall|m: int| 0 <= m < o@.len() ==> (#[trigger] o@[m]).0@ == preberi_oznake(pw.subrange(0, i as int)).1[m].0
                && o@[m].1 as int == preberi_oznake(pw.subrange(0, i as int)).1[m].1,
        decreases w@.len() - i,
    {
        let ghost pred = pw.subrange(0, i as int);
        assert(pw.subrange(0, i + 1).drop_last() =~= pred);
        assert(pw.subrange(0, i + 1).last() == w@[i as int]@);
        let mut kopija: Vec<char> = Vec::new();
        pripni(&mut kopija, w[i].as_slice());
        if zacne_z(w[i].as_slice(), pika.as_slice()) {
            let mesto = u.len() as u32;
            o.push((kopija, mesto));
        } else {
            let ghost staro = pogledi(u@);
            u.push(kopija);
            assert(pogledi(u@) =~= staro.push(w@[i as int]@));
        }
        i = i + 1;
    }
    assert(pw.subrange(0, i as int) =~= pw);
    (u, o)
}

/// The line of the label `ime`, searching from the last label back.
fn poisci(o: &Vec<(Vec<char>, u32)>, ime: &[char], Ghost(oz): Ghost<Seq<(Seq<char>, int)>>) -> (r: Option<u32>)
    requires
        o@.len() == oz.len(),
        forall|m: int| 0 <= m < o@.len() ==> (#[trigger] o@[m]).0@ == oz[m].0 && o@[m].1 as int == oz[m].1,
    ensures
        match r {
            Some(n) => poisci_oznako(oz, ime@) == Some(n as int),
            None => poisci_oznako(oz, ime@) is None,
        },
{
    let mut k: usize = o.len();
    assert(oz.subrange(0, k as int) =~= oz);
    while k > 0
        invariant
            0 <= k <= o@.len(),
            o@.len() == oz.len(),
            forall|m: int| 0 <= m < o@.len() ==> (#[trigger] o@[m]).0@ == oz[m].0 && o@[m].1 as int == oz[m].1,
            poisci_oznako(oz, ime@) == poisci_oznako(oz.subrange(0, k as int), ime@),
        decreases k,
    {
        let ghost pred = oz.subrange(0, k as int);
        assert(pred.drop_last() =~= oz.subrange(0, k - 1));
        assert(pred.last() == oz[k - 1]);
        assert(o@[k - 1].0@ == oz[k - 1].0);
        if enaki_znaki(o[k - 1].0.as_slice(), ime) {
            return Some(o[k - 1].1);
        }
        k = k - 1;
    }
    None
}

/// Appends the output of one kept line, the `k`-th.
fn izhod_ene_vrstice(
    vrstica: &Vec<char>,
    k: usize,
    o: &Vec<(Vec<char>, u32)>,
    Ghost(oz): Ghost<Seq<(Seq<char>, int)>>,
    izhod: &mut String,
) -> (ok: bool)
    requires
        k <= i32::MAX,
        o@.len() == oz.len(),
        forall|m: int| 0 <= m < o@.len() ==> (#[trigger] o@[m]).0@ == oz[m].0 && o@[m].1 as int == oz[m].1,
        forall|m: int| 0 <= m < oz.len() ==> 0 <= (#[trigger] oz[m]).1 <= i32::MAX,
    ensures
        ok == izhod_vrstice(vrstica@, k as int, oz) is Some,
        ok ==> (izhod_vrstice(vrstica@, k as int, oz) matches Some(x) && final(izhod)@ == old(izhod)@ + x),
{
    let ghost zacetek = izhod@;
    if vrstica.len() == 0 {
        assert(izhod@ =~= zacetek + Seq::<char>::empty());
        return true;
    }
    let d = razdeli_po(vrstica.as_slice(), ' ');
    proof {
        lema_razdeli_ni_prazno(vrstica@, ' ');
    }
    assert(d@[0]@ == pogledi(d@)[0]);
    let ukaz = iz_znakov(d[0].as_slice());
    let jump = znaki("JUMP");
    let jmpc = znaki("JMPC");
    let pc = znaki("PC");
    let pika = znaki(".");
    if enaki_znaki(d[0].as_slice(), jump.as_slice()) || enaki_znaki(d[0].as_slice(), jmpc.as_slice()) {
        izhod.append(ukaz.as_str());
        if d.len() == 1 {
            izhod.append("\n");
        } else {
            assert(d@[1]@ == pogledi(d@)[1]);
            let cilj: u32 = if zacne_z(d[1].as_slice(), pika.as_slice()) {
                match poisci(o, d[1].as_slice(), Ghost(oz)) {
                    Some(n) => n,
                    None => {
                        return false;
                    },
                }
            } else {
                match preberi_i32(d[1].as_slice()) {
                    Ok(x) => {
                        let v: i64 = k as i64 + x as i64;
                        if v < i32::MIN as i64 || v > i32::MAX as i64 {
                            return false;
                        }
                        let v32: i32 = v as i32;
                        assert(v32 < 0 ==> v32 as u32 == v32 + 0x1_0000_0000) by (bit_vector);
                        assert(v32 >= 0 ==> v32 as u32 == v32) by (bit_vector);
                        v32 as u32
                    },
                    Err(_) => {
                        return false;
                    },
                }
            };
            izhod.append(" #");
            dodaj_desetisko(izhod, cilj as u64);
            izhod.append("\n");
        }
    } else if enaki_znaki(d[0].as_slice(), pc.as_slice()) {
        if d.len() < 2 {
            return false;
        }
        assert(d@[1]@ == pogledi(d@)[1]);
        let x = match preberi_i32(d[1].as_slice()) {
            Ok(x) => x,
            Err(_) => {
                return false;
            },
        };
        if (k as i64 + x as i64) > i32::MAX as i64 {
            return false;
        }
        izhod.append("PUSH #");
        dodaj_desetisko_celo(izhod, k as i64 + x as i64);
        izhod.append("\n");
    } else {
        let besedilo = iz_znakov(vrstica.as_slice());
        izhod.append(besedilo.as_str());
        izhod.append("\n");
    }
    assert(izhod@ =~= zacetek + izhod@.subrange(zacetek.len() as int, izhod@.len() as int));
    true
}

impl Postprocesiraj for String {
    open spec fn izid_postprocesiranja(&self) -> Option<Seq<char>> {
        postprocesirano(self@)
    }

    open spec fn st_vrstic_besedila(&self) -> int {
        st_vrstic(self@)
    }

    fn postprocesiraj(&self) -> (r: String) {
        let besedilo = znaki(self.as_str());
        let vrstice = razdeli_po(besedilo.as_slice(), '\n');
        let w = zamenjaj_return(&vrstice);
        let (u, o) = loci_oznake(&w);
        let ghost uz = preberi_oznake(pogledi(w@)).0;
        let ghost oz = preberi_oznake(pogledi(w@)).1;
        proof {
            zakon_oznake_odstranjene(pogledi(w@));
        }
        let mut izhod = String::new();
        let mut k: usize = 0;
        while k < u.len()
            invariant
                0 <= k <= u@.len(),
                u@.len() <= i32::MAX,
                pogledi(u@) == uz,
                o@.len() == oz.len(),
                forall|m: int| 0 <= m < o@.len() ==> (#[trigger] o@[m]).0@ == oz[m].0 && o@[m].1 as int == oz[m].1,
                forall|m: int| 0 <= m < oz.len() ==> 0 <= (#[trigger] oz[m]).1 <= i32::MAX,
                izhod_vrstic(uz, oz) is Some,
                izhod_vrstic(uz.subrange(0, k as int), oz) == Some(izhod@),
            decreases u@.len() - k,
        {
            assert(u@[k as int]@ == uz[k as int]);
            proof {
                lema_vrstica_uspe(uz, oz, k as int);
            }
            let ghost pred = izhod@;
            let _ = izhod_ene_vrstice(&u[k], k, &o, Ghost(oz), &mut izhod);
            proof {
                let p = uz.subrange(0, k + 1);
                assert(p.drop_last() =~= uz.subrange(0, k as int));
                assert(p.last() == uz[k as int]);
            }
            k = k + 1;
        }
        assert(uz.subrange(0, k as int) =~= uz);
        izhod
    }
}

/// Whether every `return` has a line starting with `.0konec` after it.
fn ima_konec(v: &Vec<Vec<char>>) -> (r: bool)
    ensures
        r == vsak_return_ima_konec(pogledi(v@)),
{
    let ghost pv = pogledi(v@);
    let ret = znaki("return");
    let konec = znaki(".0konec");
    let mut i: usize = 0;
    while i < v.len()
        invariant
            0 <= i <= v@.len(),
            pv == pogledi(v@),
            pv.len() == v@.len(),
            ret@ == "return"@,
            konec@ == ".0konec"@,
            forall|m: int| 0 <= m < i && pv[m] == "return"@ ==> konec_od(pv, m + 1) < pv.len(),
        decreases v@.len() - i,
    {
        assert(pv[i as int] == v@[i as int]@);
        if enaki_znaki(v[i].as_slice(), ret.as_slice()) {
            let mut j: usize = i + 1;
            while j < v.len() && !zacne_z(v[j].as_slice(), konec.as_slice())
                invariant
                    i + 1 <= j <= v@.len(),
                    konec_od(pv, j as int) == konec_od(pv, i + 1),
                    pv == pogledi(v@),
                    pv.len() == v@.len(),
                    konec@ == ".0konec"@,
                decreases v@.len() - j,
            {
                assert(pv[j as int] == v@[j as int]@);
                j = j + 1;
            }
            if j == v.len() {
                assert(konec_od(pv, i + 1) == pv.len());
                return false;
            }
            assert(pv[j as int] == v@[j as int]@);
        }
        i = i + 1;
    }
    true
}

/// The last pass over the assembler text `besedilo` (see `postprocesirano`):
/// nothing where the pass panics or the text has more lines than `i32`
/// can count.
pub fn postprocesiraj_preverjeno(besedilo: &str) -> (r: Option<String>)
    ensures
        r is Some <==> (postprocesirano(besedilo@) is Some && st_vrstic(besedilo@) <= i32::MAX),
        r matches Some(x) ==> postprocesirano(besedilo@) == Some(x@),
{
    let znaki_besedila = znaki(besedilo);
    let vrstice = razdeli_po(znaki_besedila.as_slice(), '\n');
    if vrstice.len() > i32::MAX as usize {
        return None;
    }
    if !ima_konec(&vrstice) {
        return None;
    }
    let w = zamenjaj_return(&vrstice);
    assert(pogledi(w@).len() == w@.len());
    let (u, o) = loci_oznake(&w);
    let ghost uz = preberi_oznake(pogledi(w@)).0;
    let ghost oz = preberi_oznake(pogledi(w@)).1;
    proof {
        zakon_oznake_odstranjene(pogledi(w@));
    }
    let mut izhod = String::new();
    let mut k: usize = 0;
    while k < u.len()
        invariant
            0 <= k <= u@.len(),
            u@.len() <= i32::MAX,
            pogledi(u@) == uz,
            o@.len() == oz.len(),
            forall|m: int| 0 <= m < o@.len() ==> (#[trigger] o@[m]).0@ == oz[m].0 && o@[m].1 as int == oz[m].1,
            forall|m: int| 0 <= m < oz.len() ==> 0 <= (#[trigger] oz[m]).1 <= i32::MAX,
            izhod_vrstic(uz.subrange(0, k as int), oz) == Some(izhod@),
            postprocesirano(besedilo@) == izhod_vrstic(uz, oz),
        decreases u@.len() - k,
    {
        assert(u@[k as int]@ == uz[k as int]);
        let ghost pred = izhod@;
        let ok = izhod_ene_vrstice(&u[k], k, &o, Ghost(oz), &mut izhod);
        if !ok {
            proof {
                if izhod_vrstic(uz, oz) is Some {
                    lema_vrstica_uspe(uz, oz, k as int);
                }
            }
            return None;
        }
        proof {
            let p = uz.subrange(0, k + 1);
            assert(p.drop_last() =~= uz.subrange(0, k as int));
            assert(p.last() == uz[k as int]);
        }
        k = k + 1;
    }
    assert(uz.subrange(0, k as int) =~= uz);
    Some(izhod)
}

/// The labels are taken out: no kept line starts with `.`, every label line
/// is remembered, and each label points at a kept line or just past the
/// last one.
pub proof fn zakon_oznake_odstranjene(v: Seq<Seq<char>>)
    ensures
        forall|k: int| 0 <= k < preberi_oznake(v).0.len() ==> !zacne(#[trigger] preberi_oznake(v).0[k], "."@),
        forall|m: int| 0 <= m < preberi_oznake(v).1.len() ==> zacne(#[trigger] preberi_oznake(v).1[m].0, "."@),
        forall|m: int| 0 <= m < preberi_oznake(v).1.len() ==> 0 <= (#[trigger] preberi_oznake(v).1[m]).1 <= preberi_oznake(v).0.len(),
        preberi_oznake(v).0.len() + preberi_oznake(v).1.len() == v.len(),
    decreases v.len(),
{
    if v.len() > 0 {
        zakon_oznake_odstranjene(v.drop_last());
    }
}

} // verus!
