//! Splitting a sequence of tokens at separators that stand outside round,
//! curly and square brackets.

use crate::besedilo::{enaka, iz_znakov, znaki};
use crate::lekser::Zeton;
use crate::napaka::{napaka_iz, vsi_v_mejah, Napake, OpisNapake, OznakaNapake};
use vstd::prelude::*;

verus! {

/// Where a search for a separator ends.
pub ghost enum Izid {
    /// A separator at this index.
    Najdeno(int),
    /// A closing bracket at this index that has no opening one.
    Neujemajoc(int),
    /// The brackets of the whole sequence do not pair up.
    Neuravnotezeno,
    /// No separator, and the brackets pair up.
    Nic,
}

/// The texts of the separators.
pub open spec fn besedila(nizi: Seq<&str>) -> Seq<Seq<char>> {
    nizi.map_values(|s: &str| s@)
}

/// 1 when `b` is the text `oklepaj`, else 0.
pub open spec fn ce(b: Seq<char>, oklepaj: Seq<char>) -> int {
    if b == oklepaj {
        1
    } else {
        0
    }
}

/// The search from the front, from index `i` on, with `n`, `z` and `o` round,
/// curly and square brackets open.
pub open spec fn spredaj_od(izraz: Seq<Zeton>, nizi: Seq<Seq<char>>, i: int, n: int, z: int, o: int) -> Izid
    decreases izraz.len() - i,
{
    if i < 0 || i >= izraz.len() {
        if n != 0 || z != 0 || o != 0 {
            Izid::Neuravnotezeno
        } else {
            Izid::Nic
        }
    } else {
        let b = izraz[i].besedilo()@;
        let n1 = n - ce(b, ")"@);
        let z1 = z - ce(b, "}"@);
        let o1 = o - ce(b, "]"@);
        if n1 <= 0 && z1 <= 0 && o1 <= 0 && nizi.contains(b) {
            Izid::Najdeno(i)
        } else if n1 < 0 || z1 < 0 || o1 < 0 {
            Izid::Neujemajoc(i)
        } else {
            spredaj_od(izraz, nizi, i + 1, n1 + ce(b, "("@), z1 + ce(b, "{"@), o1 + ce(b, "["@))
        }
    }
}

/// The first separator of `nizi` in `izraz` that stands outside all brackets.
pub open spec fn spredaj(izraz: Seq<Zeton>, nizi: Seq<Seq<char>>) -> Izid {
    spredaj_od(izraz, nizi, 0, 0, 0, 0)
}

/// The search from the back, after `j` tokens at the end have been passed,
/// with `n`, `z` and `o` round, curly and square brackets open.
pub open spec fn zadaj_od(izraz: Seq<Zeton>, nizi: Seq<Seq<char>>, j: int, n: int, z: int, o: int) -> Izid
    decreases izraz.len() - j,
{
    if j < 0 || j >= izraz.len() {
        if n != 0 || z != 0 || o != 0 {
            Izid::Neuravnotezeno
        } else {
            Izid::Nic
        }
    } else {
        let i = izraz.len() - 1 - j;
        let b = izraz[i].besedilo()@;
        let n1 = n - ce(b, "("@);
        let z1 = z - ce(b, "{"@);
        let o1 = o - ce(b, "["@);
        if n1 == 0 && z1 == 0 && o1 == 0 && nizi.contains(b) {
            Izid::Najdeno(i)
        } else if n1 < 0 || z1 < 0 || o1 < 0 {
            Izid::Neujemajoc(i)
        } else {
            zadaj_od(izraz, nizi, j + 1, n1 + ce(b, ")"@), z1 + ce(b, "}"@), o1 + ce(b, "]"@))
        }
    }
}

/// The last separator of `nizi` in `izraz` that stands outside all brackets.
pub open spec fn zadaj(izraz: Seq<Zeton>, nizi: Seq<Seq<char>>) -> Izid {
    zadaj_od(izraz, nizi, 0, 0, 0, 0)
}

/// Whether `n` is the error that a failed search with outcome `izid` reports
/// about `izraz`.
pub open spec fn napaka_iskanja(n: OpisNapake, izraz: Seq<Zeton>, izid: Izid) -> bool {
    match izid {
        Izid::Neujemajoc(i) => n == napaka_iz(seq![izraz[i]], OznakaNapake::E1, "Neujemajoč oklepaj"@),
        Izid::Neuravnotezeno => n == napaka_iz(izraz, OznakaNapake::E1, "Oklepaji se ne ujemajo"@),
        _ => false,
    }
}

/// Whether `r` is what a search with outcome `izid` in `izraz` returns.
pub open spec fn izid_iskanja<'a, 'b>(
    r: Option<Result<(&'b [Zeton<'a>], &'b Zeton<'a>, &'b [Zeton<'a>]), Napake>>,
    izraz: Seq<Zeton<'a>>,
    izid: Izid,
) -> bool {
    match izid {
        Izid::Najdeno(i) => r matches Some(Ok((a, t, b))) && a@ == izraz.subrange(0, i) && *t == izraz[i]
            && b@ == izraz.subrange(i + 1, izraz.len() as int),
        Izid::Nic => r is None,
        _ => r matches Some(Err(n)) && n@.len() == 1 && napaka_iskanja(n@[0], izraz, izid),
    }
}

/// A search from the front that stops at a token stops within the sequence,
/// at index `i` or later.
pub proof fn lema_spredaj_meje(izraz: Seq<Zeton>, nizi: Seq<Seq<char>>, i: int, n: int, z: int, o: int)
    requires
        0 <= i <= izraz.len(),
    ensures
        spredaj_od(izraz, nizi, i, n, z, o) matches Izid::Najdeno(k) ==> i <= k < izraz.len(),
        spredaj_od(izraz, nizi, i, n, z, o) matches Izid::Neujemajoc(k) ==> i <= k < izraz.len(),
        spredaj_od(izraz, nizi, i, n, z, o) is Neuravnotezeno ==> izraz.len() > 0 || n != 0 || z != 0 || o != 0,
    decreases izraz.len() - i,
{
    if i < izraz.len() {
        let b = izraz[i].besedilo()@;
        lema_spredaj_meje(
            izraz,
            nizi,
            i + 1,
            n - ce(b, ")"@) + ce(b, "("@),
            z - ce(b, "}"@) + ce(b, "{"@),
            o - ce(b, "]"@) + ce(b, "["@),
        );
    }
}

/// How many tokens of `s` are the bracket `b`.
pub open spec fn stevilo(s: Seq<Zeton>, b: Seq<char>) -> int
    decreases s.len(),
{
    if s.len() == 0 {
        0
    } else {
        ce(s[0].besedilo()@, b) + stevilo(s.drop_first(), b)
    }
}

/// At the token `m`, for one kind of brackets: the closing brackets after
/// it less the opening ones from it on (how deep it stands, seen from the
/// back).
pub open spec fn globina_zadaj(s: Seq<Zeton>, m: int, oklepaj: Seq<char>, zaklepaj: Seq<char>) -> int {
    stevilo(s.subrange(m + 1, s.len() as int), zaklepaj) - stevilo(s.subrange(m, s.len() as int), oklepaj)
}

/// Whether the token `m` stands outside all brackets, seen from the back.
pub open spec fn zunaj_oklepajev(s: Seq<Zeton>, m: int) -> bool {
    &&& globina_zadaj(s, m, "("@, ")"@) == 0
    &&& globina_zadaj(s, m, "{"@, "}"@) == 0
    &&& globina_zadaj(s, m, "["@, "]"@) == 0
}

/// Whether the search from the back passes the token `m`: no kind of
/// bracket is closed there more often than opened after it, and it is no
/// separator outside all brackets.
pub open spec fn preskocen(s: Seq<Zeton>, nizi: Seq<Seq<char>>, m: int) -> bool {
    &&& globina_zadaj(s, m, "("@, ")"@) >= 0
    &&& globina_zadaj(s, m, "{"@, "}"@) >= 0
    &&& globina_zadaj(s, m, "["@, "]"@) >= 0
    &&& !(zunaj_oklepajev(s, m) && nizi.contains(s[m].besedilo()@))
}

/// The count from the token `i` on is that token and the count after it.
proof fn lema_stevilo_od(s: Seq<Zeton>, i: int, b: Seq<char>)
    requires
        0 <= i < s.len(),
    ensures
        stevilo(s.subrange(i, s.len() as int), b) == ce(s[i].besedilo()@, b) + stevilo(
            s.subrange(i + 1, s.len() as int),
            b,
        ),
{
    assert(s.subrange(i, s.len() as int).drop_first() =~= s.subrange(i + 1, s.len() as int));
}

/// The search from the back, after passing the last `j` tokens with the
/// counts of their brackets, finds a separator outside all brackets, and
/// passes every token after it.
proof fn lema_zadaj_globina(s: Seq<Zeton>, nizi: Seq<Seq<char>>, j: int, n: int, z: int, o: int)
    requires
        0 <= j <= s.len(),
        n == stevilo(s.subrange(s.len() - j, s.len() as int), ")"@) - stevilo(
            s.subrange(s.len() - j, s.len() as int),
            "("@,
        ),
        z == stevilo(s.subrange(s.len() - j, s.len() as int), "}"@) - stevilo(
            s.subrange(s.len() - j, s.len() as int),
            "{"@,
        ),
        o == stevilo(s.subrange(s.len() - j, s.len() as int), "]"@) - stevilo(
            s.subrange(s.len() - j, s.len() as int),
            "["@,
        ),
        forall|m: int| s.len() - j <= m < s.len() ==> preskocen(s, nizi, m),
    ensures
        zadaj_od(s, nizi, j, n, z, o) matches Izid::Najdeno(k) ==> 0 <= k < s.len() && zunaj_oklepajev(s, k)
            && forall|m: int| k < m < s.len() ==> preskocen(s, nizi, m),
    decreases s.len() - j,
{
    if j < s.len() {
        let i = s.len() - 1 - j;
        let b = s[i].besedilo()@;
        lema_stevilo_od(s, i, "("@);
        lema_stevilo_od(s, i, ")"@);
        lema_stevilo_od(s, i, "{"@);
        lema_stevilo_od(s, i, "}"@);
        lema_stevilo_od(s, i, "["@);
        lema_stevilo_od(s, i, "]"@);
        assert(s.len() - j == i + 1);
        let n1 = n - ce(b, "("@);
        let z1 = z - ce(b, "{"@);
        let o1 = o - ce(b, "["@);
        assert(n1 == globina_zadaj(s, i, "("@, ")"@));
        assert(z1 == globina_zadaj(s, i, "{"@, "}"@));
        assert(o1 == globina_zadaj(s, i, "["@, "]"@));
        if !(n1 == 0 && z1 == 0 && o1 == 0 && nizi.contains(b)) && !(n1 < 0 || z1 < 0 || o1 < 0) {
            assert(preskocen(s, nizi, i));
            lema_zadaj_globina(s, nizi, j + 1, n1 + ce(b, ")"@), z1 + ce(b, "}"@), o1 + ce(b, "]"@));
        }
    }
}

/// The search from the back finds the last separator outside all brackets:
/// where it finds the token `k`, no kind of bracket is open at `k`, and
/// every token after `k` stands where no kind is closed more often than
/// opened after it and is no separator outside all brackets: `k` is the
/// last separator outside all brackets.
pub proof fn zakon_zadaj_zadnji(s: Seq<Zeton>, nizi: Seq<Seq<char>>)
    ensures
        zadaj(s, nizi) matches Izid::Najdeno(k) ==> 0 <= k < s.len() && zunaj_oklepajev(s, k) && forall|m: int|
            k < m < s.len() ==> preskocen(s, nizi, m),
{
    assert(s.subrange(s.len() as int, s.len() as int) =~= Seq::<Zeton>::empty());
    lema_zadaj_globina(s, nizi, 0, 0, 0, 0);
}

/// Counting the brackets of a sequence with one more token at its end.
proof fn lema_stevilo_dodaj(t: Seq<Zeton>, x: Zeton, b: Seq<char>)
    ensures
        stevilo(t.push(x), b) == stevilo(t, b) + ce(x.besedilo()@, b),
    decreases t.len(),
{
    if t.len() > 0 {
        assert(t.push(x)[0] == t[0]);
        assert(t.push(x).drop_first() =~= t.drop_first().push(x));
        lema_stevilo_dodaj(t.drop_first(), x, b);
    } else {
        assert(t.push(x)[0] == x);
        assert(t.push(x).drop_first() =~= Seq::<Zeton>::empty());
        assert(stevilo(Seq::<Zeton>::empty(), b) == 0);
        assert(stevilo(t, b) == 0);
    }
}

/// At the token `m`, for one kind of brackets: the opening brackets before
/// it less the closing ones up to it (how deep it stands, seen from the
/// front).
pub open spec fn globina_spredaj(s: Seq<Zeton>, m: int, oklepaj: Seq<char>, zaklepaj: Seq<char>) -> int {
    stevilo(s.subrange(0, m), oklepaj) - stevilo(s.subrange(0, m + 1), zaklepaj)
}

/// Whether the search from the front passes the token `m`: no kind of
/// bracket is closed there more often than opened before it, and it is no
/// separator where no kind is open.
pub open spec fn preskocen_spredaj(s: Seq<Zeton>, nizi: Seq<Seq<char>>, m: int) -> bool {
    &&& globina_spredaj(s, m, "("@, ")"@) >= 0
    &&& globina_spredaj(s, m, "{"@, "}"@) >= 0
    &&& globina_spredaj(s, m, "["@, "]"@) >= 0
    &&& !(globina_spredaj(s, m, "("@, ")"@) <= 0 && globina_spredaj(s, m, "{"@, "}"@) <= 0 && globina_spredaj(
        s,
        m,
        "["@,
        "]"@,
    ) <= 0 && nizi.contains(s[m].besedilo()@))
}

/// The search from the front, after passing the first `i` tokens with the
/// counts of their brackets, finds a separator where no kind of bracket is
/// open, and passes every token before it.
proof fn lema_spredaj_globina(s: Seq<Zeton>, nizi: Seq<Seq<char>>, i: int, n: int, z: int, o: int)
    requires
        0 <= i <= s.len(),
        n == stevilo(s.subrange(0, i), "("@) - stevilo(s.subrange(0, i), ")"@),
        z == stevilo(s.subrange(0, i), "{"@) - stevilo(s.subrange(0, i), "}"@),
        o == stevilo(s.subrange(0, i), "["@) - stevilo(s.subrange(0, i), "]"@),
        forall|m: int| 0 <= m < i ==> preskocen_spredaj(s, nizi, m),
    ensures
        spredaj_od(s, nizi, i, n, z, o) matches Izid::Najdeno(k) ==> 0 <= k < s.len() && globina_spredaj(
            s,
            k,
            "("@,
            ")"@,
        ) <= 0 && globina_spredaj(s, k, "{"@, "}"@) <= 0 && globina_spredaj(s, k, "["@, "]"@) <= 0
            && forall|m: int| 0 <= m < k ==> preskocen_spredaj(s, nizi, m),
    decreases s.len() - i,
{
    if i < s.len() {
        let b = s[i].besedilo()@;
        assert(s.subrange(0, i + 1) =~= s.subrange(0, i).push(s[i]));
        lema_stevilo_dodaj(s.subrange(0, i), s[i], "("@);
        lema_stevilo_dodaj(s.subrange(0, i), s[i], ")"@);
        lema_stevilo_dodaj(s.subrange(0, i), s[i], "{"@);
        lema_stevilo_dodaj(s.subrange(0, i), s[i], "}"@);
        lema_stevilo_dodaj(s.subrange(0, i), s[i], "["@);
        lema_stevilo_dodaj(s.subrange(0, i), s[i], "]"@);
        let n1 = n - ce(b, ")"@);
        let z1 = z - ce(b, "}"@);
        let o1 = o - ce(b, "]"@);
        assert(n1 == globina_spredaj(s, i, "("@, ")"@));
        assert(z1 == globina_spredaj(s, i, "{"@, "}"@));
        assert(o1 == globina_spredaj(s, i, "["@, "]"@));
        if !(n1 <= 0 && z1 <= 0 && o1 <= 0 && nizi.contains(b)) && !(n1 < 0 || z1 < 0 || o1 < 0) {
            assert(preskocen_spredaj(s, nizi, i));
            lema_spredaj_globina(s, nizi, i + 1, n1 + ce(b, "("@), z1 + ce(b, "{"@), o1 + ce(b, "["@));
        }
    }
}

/// The search from the front finds the first separator where no kind of
/// bracket is open: where it finds the token `k`, no kind is open at `k`,
/// and every token before `k` stands where no kind is closed more often
/// than opened before it and is no separator where none is open.
pub proof fn zakon_spredaj_prvi(s: Seq<Zeton>, nizi: Seq<Seq<char>>)
    ensures
        spredaj(s, nizi) matches Izid::Najdeno(k) ==> 0 <= k < s.len() && globina_spredaj(s, k, "("@, ")"@) <= 0
            && globina_spredaj(s, k, "{"@, "}"@) <= 0 && globina_spredaj(s, k, "["@, "]"@) <= 0 && forall|m: int|
            0 <= m < k ==> preskocen_spredaj(s, nizi, m),
{
    assert(s.subrange(0, 0) =~= Seq::<Zeton>::empty());
    lema_spredaj_globina(s, nizi, 0, 0, 0, 0);
}

/// Whether the text `b` is one of the separators.
fn med_nizi(nizi: &[&str], b: &str) -> (r: bool)
    ensures
        r == besedila(nizi@).contains(b@),
{
    let ghost bs = besedila(nizi@);
    let mut k: usize = 0;
    while k < nizi.len()
        invariant
            0 <= k <= nizi@.len(),
            bs == besedila(nizi@),
            forall|m: int| 0 <= m < k ==> bs[m] != b@,
        decreases nizi@.len() - k,
    {
        if enaka(nizi[k], b) {
            assert(bs[k as int] == b@);
            return true;
        }
        k = k + 1;
    }
    false
}

/// 1 when the text `b` is `oklepaj`, else 0.
fn stej(b: &str, oklepaj: &str) -> (r: i128)
    ensures
        r == ce(b@, oklepaj@),
{
    if enaka(b, oklepaj) {
        1
    } else {
        0
    }
}

/// Finds the first separator of `nizi` in `izraz` that stands outside all
/// brackets, and splits `izraz` there. A closing bracket without an opening
/// one, or brackets that do not pair up, give an error; no separator gives
/// nothing.
pub fn loci_spredaj<'a, 'b>(izraz: &'b [Zeton<'a>], nizi: &[&str]) -> (r: Option<
    Result<(&'b [Zeton<'a>], &'b Zeton<'a>, &'b [Zeton<'a>]), Napake>,
>)
    requires
        vsi_v_mejah(izraz@),
    ensures
        izid_iskanja(r, izraz@, spredaj(izraz@, besedila(nizi@))),
{
    let ghost nz = besedila(nizi@);
    let mut navadnih: i128 = 0;
    let mut zavitih: i128 = 0;
    let mut oglatih: i128 = 0;
    let mut i: usize = 0;
    while i < izraz.len()
        invariant
            0 <= i <= izraz@.len(),
            nz == besedila(nizi@),
            vsi_v_mejah(izraz@),
            0 <= navadnih <= i,
            0 <= zavitih <= i,
            0 <= oglatih <= i,
            spredaj(izraz@, nz) == spredaj_od(izraz@, nz, i as int, navadnih as int, zavitih as int, oglatih as int),
        decreases izraz@.len() - i,
    {
        let tok = &izraz[i];
        let b = tok.as_str();
        navadnih = navadnih - stej(b, ")");
        zavitih = zavitih - stej(b, "}");
        oglatih = oglatih - stej(b, "]");
        if navadnih <= 0 && zavitih <= 0 && oglatih <= 0 && med_nizi(nizi, b) {
            return Some(Ok((&izraz[0..i], tok, &izraz[i + 1..izraz.len()])));
        }
        if navadnih < 0 || zavitih < 0 || oglatih < 0 {
            let samo = [*tok];
            assert(samo@ == seq![izraz@[i as int]]);
            assert(samo@.last() == izraz@[i as int]);
            return Some(Err(Napake::from_zaporedje(&samo, OznakaNapake::E1, "Neujemajoč oklepaj")));
        }
        navadnih = navadnih + stej(b, "(");
        zavitih = zavitih + stej(b, "{");
        oglatih = oglatih + stej(b, "[");
        i = i + 1;
    }
    if navadnih != 0 || zavitih != 0 || oglatih != 0 {
        return Some(Err(Napake::from_zaporedje(izraz, OznakaNapake::E1, "Oklepaji se ne ujemajo")));
    }
    None
}

/// Finds the last separator of `nizi` in `izraz` that stands outside all
/// brackets, and splits `izraz` there. An opening bracket without a closing
/// one, or brackets that do not pair up, give an error; no separator gives
/// nothing.
pub fn loci_zadaj<'a, 'b>(izraz: &'b [Zeton<'a>], nizi: &[&str]) -> (r: Option<
    Result<(&'b [Zeton<'a>], &'b Zeton<'a>, &'b [Zeton<'a>]), Napake>,
>)
    requires
        vsi_v_mejah(izraz@),
    ensures
        izid_iskanja(r, izraz@, zadaj(izraz@, besedila(nizi@))),
{
    let ghost nz = besedila(nizi@);
    let mut navadnih: i128 = 0;
    let mut zavitih: i128 = 0;
    let mut oglatih: i128 = 0;
    let mut j: usize = 0;
    while j < izraz.len()
        invariant
            0 <= j <= izraz@.len(),
            nz == besedila(nizi@),
            vsi_v_mejah(izraz@),
            0 <= navadnih <= j,
            0 <= zavitih <= j,
            0 <= oglatih <= j,
            zadaj(izraz@, nz) == zadaj_od(izraz@, nz, j as int, navadnih as int, zavitih as int, oglatih as int),
        decreases izraz@.len() - j,
    {
        let i = izraz.len() - 1 - j;
        let tok = &izraz[i];
        let b = tok.as_str();
        navadnih = navadnih - stej(b, "(");
        zavitih = zavitih - stej(b, "{");
        oglatih = oglatih - stej(b, "[");
        if navadnih == 0 && zavitih == 0 && oglatih == 0 && med_nizi(nizi, b) {
            return Some(Ok((&izraz[0..i], tok, &izraz[i + 1..izraz.len()])));
        }
        if navadnih < 0 || zavitih < 0 || oglatih < 0 {
            let samo = [*tok];
            assert(samo@ == seq![izraz@[i as int]]);
            assert(samo@.last() == izraz@[i as int]);
            return Some(Err(Napake::from_zaporedje(&samo, OznakaNapake::E1, "Neujemajoč oklepaj")));
        }
        navadnih = navadnih + stej(b, ")");
        zavitih = zavitih + stej(b, "}");
        oglatih = oglatih + stej(b, "]");
        j = j + 1;
    }
    if navadnih != 0 || zavitih != 0 || oglatih != 0 {
        return Some(Err(Napake::from_zaporedje(izraz, OznakaNapake::E1, "Oklepaji se ne ujemajo")));
    }
    None
}

/// What splitting `izraz` at every separator of `nizi` gives: the parts
/// between the separators, without an empty last part; or, when a search
/// fails, the part that was being searched and the outcome of that search.
pub open spec fn razdeli_spec<'a>(izraz: Seq<Zeton<'a>>, nizi: Seq<Seq<char>>) -> Result<Seq<Seq<Zeton<'a>>>, (Seq<Zeton<'a>>, Izid)>
    decreases izraz.len(),
{
    match spredaj(izraz, nizi) {
        Izid::Najdeno(i) => if 0 <= i < izraz.len() {
            match razdeli_spec(izraz.subrange(i + 1, izraz.len() as int), nizi) {
                Ok(deli) => Ok(seq![izraz.subrange(0, i)] + deli),
                Err(e) => Err(e),
            }
        } else {
            Err((izraz, Izid::Najdeno(i)))
        },
        Izid::Nic => Ok(
            if izraz.len() == 0 {
                Seq::empty()
            } else {
                seq![izraz]
            },
        ),
        izid => Err((izraz, izid)),
    }
}

/// `deli` put before the parts of `r`, when `r` is a success.
pub open spec fn predpni<'a>(deli: Seq<Seq<Zeton<'a>>>, r: Result<Seq<Seq<Zeton<'a>>>, (Seq<Zeton<'a>>, Izid)>) -> Result<
    Seq<Seq<Zeton<'a>>>,
    (Seq<Zeton<'a>>, Izid),
> {
    match r {
        Ok(d) => Ok(deli + d),
        Err(e) => Err(e),
    }
}

/// Splits `izraz` at every separator of `nizi` that stands outside all
/// brackets.
pub fn razdeli<'a, 'b>(izraz: &'b [Zeton<'a>], nizi: &[&str]) -> (r: Result<Vec<&'b [Zeton<'a>]>, Napake>)
    requires
        vsi_v_mejah(izraz@),
    ensures
        match razdeli_spec(izraz@, besedila(nizi@)) {
            Ok(deli) => r matches Ok(v) && v@.len() == deli.len() && forall|j: int| 0 <= j < deli.len() ==> (#[trigger] v@[j])@ == deli[j],
            Err((del, izid)) => r matches Err(n) && n@.len() == 1 && napaka_iskanja(n@[0], del, izid),
        },
{
    let ghost nz = besedila(nizi@);
    let mut ostanek: &'b [Zeton<'a>] = izraz;
    let mut v: Vec<&'b [Zeton<'a>]> = Vec::new();
    loop
        invariant
            nz == besedila(nizi@),
            vsi_v_mejah(ostanek@),
            razdeli_spec(izraz@, nz) == predpni(v@.map_values(|d: &[Zeton<'a>]| d@), razdeli_spec(ostanek@, nz)),
        decreases ostanek@.len(),
    {
        let ghost pred = v@.map_values(|d: &[Zeton<'a>]| d@);
        proof {
            lema_spredaj_meje(ostanek@, nz, 0, 0, 0, 0);
        }
        match loci_spredaj(ostanek, nizi) {
            Some(Ok((prvi, _, rest))) => {
                v.push(prvi);
                proof {
                    assert(v@.map_values(|d: &[Zeton<'a>]| d@) =~= pred.push(prvi@));
                    let naprej = razdeli_spec(rest@, nz);
                    match naprej {
                        Ok(d) => {
                            assert(pred + (seq![prvi@] + d) =~= pred.push(prvi@) + d);
                        },
                        Err(_) => {},
                    }
                }
                ostanek = rest;
            },
            Some(Err(e)) => {
                return Err(e);
            },
            None => {
                if ostanek.len() != 0 {
                    v.push(ostanek);
                    proof {
                        assert(v@.map_values(|d: &[Zeton<'a>]| d@) =~= pred + seq![ostanek@]);
                    }
                } else {
                    proof {
                        assert(pred + Seq::empty() =~= pred);
                    }
                }
                return Ok(v);
            },
        }
    }
}

/// The characters of `s` with each non-overlapping pair `a b`, taken from the
/// left, turned into `c`.
pub open spec fn zamenjaj_par(s: Seq<char>, a: char, b: char, c: char) -> Seq<char>
    decreases s.len(),
{
    if s.len() < 2 {
        s
    } else if s[0] == a && s[1] == b {
        seq![c] + zamenjaj_par(s.subrange(2, s.len() as int), a, b, c)
    } else {
        seq![s[0]] + zamenjaj_par(s.subrange(1, s.len() as int), a, b, c)
    }
}

fn zamenjaj_par_exec(s: &Vec<char>, a: char, b: char, c: char) -> (r: Vec<char>)
    ensures
        r@ == zamenjaj_par(s@, a, b, c),
{
    let mut r: Vec<char> = Vec::new();
    let mut i: usize = 0;
    assert(s@.subrange(0, s@.len() as int) =~= s@);
    assert(r@ + zamenjaj_par(s@, a, b, c) =~= zamenjaj_par(s@, a, b, c));
    while i < s.len()
        invariant
            0 <= i <= s@.len(),
            r@ + zamenjaj_par(s@.subrange(i as int, s@.len() as int), a, b, c) == zamenjaj_par(s@, a, b, c),
        decreases s@.len() - i,
    {
        let ghost t = s@.subrange(i as int, s@.len() as int);
        let ghost r0 = r@;
        if i + 1 < s.len() && s[i] == a && s[i + 1] == b {
            r.push(c);
            i = i + 2;
            assert(t.subrange(2, t.len() as int) =~= s@.subrange(i as int, s@.len() as int));
            assert(r0 + (seq![c] + zamenjaj_par(s@.subrange(i as int, s@.len() as int), a, b, c)) =~= r@
                + zamenjaj_par(s@.subrange(i as int, s@.len() as int), a, b, c));
        } else if i + 1 < s.len() {
            r.push(s[i]);
            i = i + 1;
            assert(t.subrange(1, t.len() as int) =~= s@.subrange(i as int, s@.len() as int));
            assert(r0 + (seq![t[0]] + zamenjaj_par(s@.subrange(i as int, s@.len() as int), a, b, c)) =~= r@
                + zamenjaj_par(s@.subrange(i as int, s@.len() as int), a, b, c));
        } else {
            r.push(s[i]);
            i = i + 1;
            assert(r0 + t =~= r@);
            assert(s@.subrange(i as int, s@.len() as int) =~= Seq::<char>::empty());
            assert(r@ + Seq::<char>::empty() =~= r@);
        }
    }
    assert(s@.subrange(i as int, s@.len() as int) =~= Seq::<char>::empty());
    assert(r@ + Seq::<char>::empty() =~= r@);
    r
}

/// The text of a string literal with its escapes replaced, one kind after the
/// other: `\\`, then `\n`, `\t`, `\r`, `\"` and `\'`.
pub open spec fn interpoliraj(s: Seq<char>) -> Seq<char> {
    let s1 = zamenjaj_par(s, '\\', '\\', '\\');
    let s2 = zamenjaj_par(s1, '\\', 'n', '\n');
    let s3 = zamenjaj_par(s2, '\\', 't', '\t');
    let s4 = zamenjaj_par(s3, '\\', 'r', '\r');
    let s5 = zamenjaj_par(s4, '\\', '"', '"');
    zamenjaj_par(s5, '\\', '\'', '\'')
}

/// Replaces the escapes of a string literal by the characters they stand for.
pub fn interpoliraj_niz(niz: &str) -> (r: String)
    ensures
        r@ == interpoliraj(niz@),
{
    let s0 = znaki(niz);
    let s1 = zamenjaj_par_exec(&s0, '\\', '\\', '\\');
    let s2 = zamenjaj_par_exec(&s1, '\\', 'n', '\n');
    let s3 = zamenjaj_par_exec(&s2, '\\', 't', '\t');
    let s4 = zamenjaj_par_exec(&s3, '\\', 'r', '\r');
    let s5 = zamenjaj_par_exec(&s4, '\\', '"', '"');
    let s6 = zamenjaj_par_exec(&s5, '\\', '\'', '\'');
    iz_znakov(s6.as_slice())
}

/// Text without the character `a` has no pair to replace.
proof fn lema_brez_para(s: Seq<char>, a: char, b: char, c: char)
    requires
        !s.contains(a),
    ensures
        zamenjaj_par(s, a, b, c) == s,
    decreases s.len(),
{
    if s.len() >= 2 {
        let t = s.subrange(1, s.len() as int);
        assert forall|k: int| 0 <= k < t.len() implies t[k] != a by {
            assert(t[k] == s[k + 1]);
        }
        lema_brez_para(t, a, b, c);
        assert(s[0] != a);
        assert(seq![s[0]] + t =~= s);
    }
}

/// A string literal without backslashes has no escapes: it stays as it is.
pub proof fn zakon_brez_ubezov(s: Seq<char>)
    requires
        !s.contains('\\'),
    ensures
        interpoliraj(s) == s,
{
    lema_brez_para(s, '\\', '\\', '\\');
    lema_brez_para(s, '\\', 'n', '\n');
    lema_brez_para(s, '\\', 't', '\t');
    lema_brez_para(s, '\\', 'r', '\r');
    lema_brez_para(s, '\\', '"', '"');
    lema_brez_para(s, '\\', '\'', '\'');
}

/// A search from index `i` that finds something finds a separator of `nizi`
/// at index `i` or later.
proof fn lema_spredaj_locilo(izraz: Seq<Zeton>, nizi: Seq<Seq<char>>, i: int, n: int, z: int, o: int)
    requires
        0 <= i <= izraz.len(),
    ensures
        spredaj_od(izraz, nizi, i, n, z, o) matches Izid::Najdeno(k) ==> i <= k < izraz.len() && nizi.contains(
            izraz[k].besedilo()@,
        ),
    decreases izraz.len() - i,
{
    if i < izraz.len() {
        let b = izraz[i].besedilo()@;
        lema_spredaj_locilo(
            izraz,
            nizi,
            i + 1,
            n - ce(b, ")"@) + ce(b, "("@),
            z - ce(b, "}"@) + ce(b, "{"@),
            o - ce(b, "]"@) + ce(b, "["@),
        );
    }
}

/// A search from the back that has passed `j` tokens and finds something
/// finds a separator of `nizi` before them.
proof fn lema_zadaj_locilo(izraz: Seq<Zeton>, nizi: Seq<Seq<char>>, j: int, n: int, z: int, o: int)
    requires
        0 <= j <= izraz.len(),
    ensures
        zadaj_od(izraz, nizi, j, n, z, o) matches Izid::Najdeno(k) ==> 0 <= k < izraz.len() - j && nizi.contains(
            izraz[k].besedilo()@,
        ),
    decreases izraz.len() - j,
{
    if j < izraz.len() {
        let i = izraz.len() - 1 - j;
        let b = izraz[i].besedilo()@;
        lema_zadaj_locilo(
            izraz,
            nizi,
            j + 1,
            n - ce(b, "("@) + ce(b, ")"@),
            z - ce(b, "{"@) + ce(b, "}"@),
            o - ce(b, "["@) + ce(b, "]"@),
        );
    }
}

/// What a search from the front or from the back finds is one of the
/// separators: the sequence falls apart into the part before it, the
/// separator and the part after it.
pub proof fn zakon_najdeno_locilo(izraz: Seq<Zeton>, nizi: Seq<Seq<char>>)
    ensures
        spredaj(izraz, nizi) matches Izid::Najdeno(k) ==> 0 <= k < izraz.len() && nizi.contains(
            izraz[k].besedilo()@,
        ) && izraz == izraz.subrange(0, k) + seq![izraz[k]] + izraz.subrange(k + 1, izraz.len() as int),
        zadaj(izraz, nizi) matches Izid::Najdeno(k) ==> 0 <= k < izraz.len() && nizi.contains(
            izraz[k].besedilo()@,
        ) && izraz == izraz.subrange(0, k) + seq![izraz[k]] + izraz.subrange(k + 1, izraz.len() as int),
{
    lema_spredaj_locilo(izraz, nizi, 0, 0, 0, 0);
    lema_zadaj_locilo(izraz, nizi, 0, 0, 0, 0);
    if let Izid::Najdeno(k) = spredaj(izraz, nizi) {
        assert(izraz =~= izraz.subrange(0, k) + seq![izraz[k]] + izraz.subrange(k + 1, izraz.len() as int));
    }
    if let Izid::Najdeno(k) = zadaj(izraz, nizi) {
        assert(izraz =~= izraz.subrange(0, k) + seq![izraz[k]] + izraz.subrange(k + 1, izraz.len() as int));
    }
}

/// The parts with the separators between them, in order: each part is
/// followed by the next separator, where one is left.
pub open spec fn zlozi<'a>(deli: Seq<Seq<Zeton<'a>>>, locila: Seq<Zeton<'a>>) -> Seq<Zeton<'a>>
    decreases deli.len(),
{
    if deli.len() == 0 {
        Seq::empty()
    } else if locila.len() > 0 {
        deli[0] + seq![locila[0]] + zlozi(deli.drop_first(), locila.drop_first())
    } else {
        deli[0] + zlozi(deli.drop_first(), locila)
    }
}

/// The separators at which a successful split cut the sequence: one fewer
/// than the parts, or as many where the sequence ends in a separator.
proof fn locila_razdelitve<'a>(izraz: Seq<Zeton<'a>>, nizi: Seq<Seq<char>>) -> (locila: Seq<Zeton<'a>>)
    requires
        razdeli_spec(izraz, nizi) is Ok,
    ensures
        locila.len() == razdeli_spec(izraz, nizi)->Ok_0.len()
            || locila.len() + 1 == razdeli_spec(izraz, nizi)->Ok_0.len(),
        zlozi(razdeli_spec(izraz, nizi)->Ok_0, locila) == izraz,
        forall|k: int| 0 <= k < locila.len() ==> nizi.contains(#[trigger] locila[k].besedilo()@),
    decreases izraz.len(),
{
    zakon_najdeno_locilo(izraz, nizi);
    match spredaj(izraz, nizi) {
        Izid::Najdeno(i) => {
            let ostanek = izraz.subrange(i + 1, izraz.len() as int);
            let l2 = locila_razdelitve(ostanek, nizi);
            let d2 = razdeli_spec(ostanek, nizi)->Ok_0;
            let deli = seq![izraz.subrange(0, i)] + d2;
            let locila = seq![izraz[i]] + l2;
            assert(deli.drop_first() =~= d2);
            assert(locila.drop_first() =~= l2);
            assert(locila[0] == izraz[i]);
            assert(razdeli_spec(izraz, nizi)->Ok_0 == deli);
            assert(zlozi(deli, locila) == deli[0] + seq![locila[0]] + zlozi(d2, l2));
            assert(izraz.subrange(0, i) + seq![izraz[i]] + ostanek =~= izraz);
            assert forall|k: int| 0 <= k < locila.len() implies nizi.contains(#[trigger] locila[k].besedilo()@) by {
                if k > 0 {
                    assert(locila[k] == l2[k - 1]);
                }
            }
            locila
        },
        _ => {
            let deli = razdeli_spec(izraz, nizi)->Ok_0;
            if izraz.len() > 0 {
                assert(deli == seq![izraz]);
                assert(deli.drop_first() =~= Seq::<Seq<Zeton<'a>>>::empty());
                assert(zlozi(deli, Seq::empty()) == izraz + zlozi(deli.drop_first(), Seq::empty()));
                assert(izraz + Seq::<Zeton<'a>>::empty() =~= izraz);
            } else {
                assert(deli.len() == 0);
                assert(izraz =~= Seq::<Zeton<'a>>::empty());
            }
            Seq::empty()
        },
    }
}

/// A split that succeeds loses nothing: the parts with the separators
/// between them make up the sequence again, each separator is one of
/// `nizi`, and there is one separator fewer than there are parts, or as
/// many where the sequence ends in a separator.
pub proof fn zakon_razdeli_sestavi<'a>(izraz: Seq<Zeton<'a>>, nizi: Seq<Seq<char>>)
    requires
        razdeli_spec(izraz, nizi) is Ok,
    ensures
        exists|locila: Seq<Zeton<'a>>|
            (locila.len() == razdeli_spec(izraz, nizi)->Ok_0.len() || locila.len() + 1
                == razdeli_spec(izraz, nizi)->Ok_0.len()) && #[trigger] zlozi(razdeli_spec(izraz, nizi)->Ok_0, locila)
                == izraz && forall|k: int| 0 <= k < locila.len() ==> nizi.contains(#[trigger] locila[k].besedilo()@),
{
    let locila = locila_razdelitve(izraz, nizi);
    assert(zlozi(razdeli_spec(izraz, nizi)->Ok_0, locila) == izraz);
}

} // verus!
