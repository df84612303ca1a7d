//! The command-line options of the programs: `--pomoč` or `-p` for help,
//! `--debug` or `-d` for a run that shows every instruction.

use crate::besedilo::{enaki_znaki, iz_znakov, pripni, zacne, zacne_z, znaki};
use vstd::prelude::*;
use vstd::string::StringExecFns;

verus! {

/// The options that were given.
#[derive(Debug, Clone, Copy, PartialEq, Eq)]
pub struct Moznosti {
    pub pomoc: bool,
    pub debug: bool,
}

/// No option given.
pub open spec fn brez_moznosti() -> Moznosti {
    Moznosti { pomoc: false, debug: false }
}

/// The message about an unknown option.
pub open spec fn neznana(kaj: Seq<char>) -> Seq<char> {
    "Neznana možnost: '"@ + kaj + "'"@
}

/// The short options `z`, one letter each, added to `m`: `p` and `d`; any
/// other letter is unknown.
pub open spec fn kratke_moznosti(z: Seq<char>, m: Moznosti) -> Result<Moznosti, Seq<char>>
    decreases z.len(),
{
    if z.len() == 0 {
        Ok(m)
    } else {
        match kratke_moznosti(z.drop_last(), m) {
            Err(e) => Err(e),
            Ok(m1) => {
                let c = z.last();
                if c == 'p' {
                    Ok(Moznosti { pomoc: true, ..m1 })
                } else if c == 'd' {
                    Ok(Moznosti { debug: true, ..m1 })
                } else {
                    Err(neznana(seq![c]))
                }
            },
        }
    }
}

/// One argument added to `m`: a long option, a group of short options after
/// `-`, or anything else, which is no option.
pub open spec fn ena_moznost(arg: Seq<char>, m: Moznosti) -> Result<Moznosti, Seq<char>> {
    if arg == "--pomoč"@ {
        Ok(Moznosti { pomoc: true, ..m })
    } else if arg == "--debug"@ {
        Ok(Moznosti { debug: true, ..m })
    } else if zacne(arg, "--"@) {
        Err(neznana(arg))
    } else if zacne(arg, "-"@) {
        kratke_moznosti(arg.drop_first(), m)
    } else {
        Ok(m)
    }
}

/// The options of the arguments, read from the first on; the message about
/// the first unknown option, if there is one.
pub open spec fn moznosti_iz(args: Seq<Seq<char>>) -> Result<Moznosti, Seq<char>>
    decreases args.len(),
{
    if args.len() == 0 {
        Ok(brez_moznosti())
    } else {
        match moznosti_iz(args.drop_last()) {
            Err(e) => Err(e),
            Ok(m) => ena_moznost(args.last(), m),
        }
    }
}

/// The texts of the arguments.
pub open spec fn besedila_argumentov(args: Seq<String>) -> Seq<Seq<char>> {
    args.map_values(|a: String| a@)
}

impl Moznosti {
    /// No option given.
    pub fn new() -> (r: Moznosti)
        ensures
            r == brez_moznosti(),
    {
        Moznosti { pomoc: false, debug: false }
    }
}

/// The message about an unknown option.
fn sporocilo_neznane(kaj: &[char]) -> (r: String)
    ensures
        r@ == neznana(kaj@),
{
    let mut s = String::new();
    s.append("Neznana možnost: '");
    let k = iz_znakov(kaj);
    s.append(k.as_str());
    s.append("'");
    s
}

/// Reads the options of the arguments; the message about the first unknown
/// option, if there is one.
pub fn preveri_moznosti(args: &[String]) -> (r: Result<Moznosti, String>)
    ensures
        match r {
            Ok(m) => moznosti_iz(besedila_argumentov(args@)) == Ok::<Moznosti, Seq<char>>(m),
            Err(e) => moznosti_iz(besedila_argumentov(args@)) == Err::<Moznosti, Seq<char>>(e@),
        },
{
    let ghost a = besedila_argumentov(args@);
    let pomoc = znaki("--pomoč");
    let debug = znaki("--debug");
    let dolga = znaki("--");
    let kratka = znaki("-");
    let mut m = Moznosti::new();
    let mut i: usize = 0;
    while i < args.len()
        invariant
            0 <= i <= args@.len(),
            a == besedila_argumentov(args@),
            pomoc@ == "--pomoč"@,
            debug@ == "--debug"@,
            dolga@ == "--"@,
            kratka@ == "-"@,
            moznosti_iz(a.subrange(0, i as int)) == Ok::<Moznosti, Seq<char>>(m),
        decreases args@.len() - i,
    {
        assert(a.subrange(0, i + 1).drop_last() =~= a.subrange(0, i as int));
        assert(a.subrange(0, i + 1).last() == args@[i as int]@);
        let arg = znaki(args[i].as_str());
        if enaki_znaki(arg.as_slice(), pomoc.as_slice()) {
            m.pomoc = true;
        } else if enaki_znaki(arg.as_slice(), debug.as_slice()) {
            m.debug = true;
        } else if zacne_z(arg.as_slice(), dolga.as_slice()) {
            proof {
                lema_napaka_ostane(a, i + 1);
            }
            return Err(sporocilo_neznane(arg.as_slice()));
        } else if zacne_z(arg.as_slice(), kratka.as_slice()) {
            proof {
                reveal_strlit("-");
            }
            let ghost z = arg@.drop_first();
            let ghost m0 = m;
            let mut j: usize = 1;
            assert(z.subrange(0, 0) =~= Seq::<char>::empty());
            assert(arg@ == a[i as int]);
            assert(moznosti_iz(a.subrange(0, i + 1)) == kratke_moznosti(z, m0));
            while j < arg.len()
                invariant
                    1 <= j <= arg@.len(),
                    z == arg@.drop_first(),
                    0 <= i < args@.len(),
                    a == besedila_argumentov(args@),
                    a.len() == args@.len(),
                    moznosti_iz(a.subrange(0, i + 1)) == kratke_moznosti(z, m0),
                    kratke_moznosti(z.subrange(0, j - 1), m0) == Ok::<Moznosti, Seq<char>>(m),
                decreases arg@.len() - j,
            {
                assert(z.subrange(0, j as int).drop_last() =~= z.subrange(0, j - 1));
                assert(z.subrange(0, j as int).last() == arg@[j as int]);
                let c = arg[j];
                if c == 'p' {
                    m.pomoc = true;
                } else if c == 'd' {
                    m.debug = true;
                } else {
                    proof {
                        lema_kratke_napaka(z, j as int, m0);
                        lema_napaka_ostane(a, i + 1);
                    }
                    let samo = [c];
                    assert(samo@ =~= seq![c]);
                    return Err(sporocilo_neznane(&samo));
                }
                j = j + 1;
            }
            assert(z.subrange(0, j - 1) =~= z);
        }
        i = i + 1;
    }
    assert(a.subrange(0, i as int) =~= a);
    Ok(m)
}

/// Once the short options up to `k` fail, all of them fail the same way.
proof fn lema_kratke_napaka(z: Seq<char>, k: int, m: Moznosti)
    requires
        0 <= k <= z.len(),
        kratke_moznosti(z.subrange(0, k), m) is Err,
    ensures
        kratke_moznosti(z, m) == kratke_moznosti(z.subrange(0, k), m),
    decreases z.len(),
{
    if k == z.len() {
        assert(z.subrange(0, k) =~= z);
    } else {
        assert(z.drop_last().subrange(0, k) =~= z.subrange(0, k));
        lema_kratke_napaka(z.drop_last(), k, m);
    }
}

/// Once the arguments up to `k` fail, all of them fail the same way.
proof fn lema_napaka_ostane(a: Seq<Seq<char>>, k: int)
    requires
        0 <= k <= a.len(),
        moznosti_iz(a.subrange(0, k)) is Err,
    ensures
        moznosti_iz(a) == moznosti_iz(a.subrange(0, k)),
    decreases a.len(),
{
    if k == a.len() {
        assert(a.subrange(0, k) =~= a);
    } else {
        assert(a.drop_last().subrange(0, k) =~= a.subrange(0, k));
        lema_napaka_ostane(a.drop_last(), k);
    }
}

/// The options of the arguments, which hold no unknown option.
pub fn analiziraj_moznosti(args: &[String]) -> (r: Moznosti)
    requires
        moznosti_iz(besedila_argumentov(args@)) is Ok,
    ensures
        moznosti_iz(besedila_argumentov(args@)) == Ok::<Moznosti, Seq<char>>(r),
{
    match preveri_moznosti(args) {
        Ok(m) => m,
        Err(_) => Moznosti::new(),
    }
}

} // verus!
