use slj::lekser::{bool, niz, Razcleni, Zeton::{Ime, Literal, Locilo, Neznano, Operator, Rezerviranka, Tip}, L::{Bool, Celo, Niz, Real, Znak}};


#[test]
fn lekser_rezervirane_besede() {
    assert_eq!("naj".razcleni("[test]"), [Rezerviranka("naj", 1, 1, "[test]")]);
    assert_eq!("čene".razcleni("[test]"), [Rezerviranka("čene", 1, 1, "[test]")]);
    assert_eq!("če".razcleni("[test]"), [Rezerviranka("če", 1, 1, "[test]")]);
    assert_eq!("dokler".razcleni("[test]"), [Rezerviranka("dokler", 1, 1, "[test]")]);
    assert_eq!("za".razcleni("[test]"), [Rezerviranka("za", 1, 1, "[test]")]);
    assert_eq!("funkcija".razcleni("[test]"), [Rezerviranka("funkcija", 1, 1, "[test]")]);
    assert_eq!("vrni".razcleni("[test]"), [Rezerviranka("vrni", 1, 1, "[test]")]);
    assert_eq!("prekini".razcleni("[test]"), [Rezerviranka("prekini", 1, 1, "[test]")]);
}

#[test]
fn lekser_literali() {
    assert_eq!("resnica".razcleni("[test]"), [Literal(Bool("resnica", 1, 1, "[test]"))]);
    assert_eq!("laž".razcleni("[test]"), [Literal(Bool("laž", 1, 1, "[test]"))]);

    assert_eq!("'a'".razcleni("[test]"), [Literal(Znak("'a'", 1, 1, "[test]"))]);
    assert_eq!("'đ'".razcleni("[test]"), [Literal(Znak("'đ'", 1, 1, "[test]"))]);
    assert_eq!(r"'\n'".razcleni("[test]"), [Literal(Znak(r"'\n'", 1, 1, "[test]"))]);
    assert_eq!(r"'\\'".razcleni("[test]"), [Literal(Znak(r"'\\'", 1, 1, "[test]"))]);
    assert_eq!(r"'\r'".razcleni("[test]"), [Literal(Znak(r"'\r'", 1, 1, "[test]"))]);
    assert_eq!(r"'\f'".razcleni("[test]"), [Neznano(r"'\f'", 1, 1, "[test]")]);

    assert_eq!("\"\"".razcleni("[test]"), [Literal(Niz("\"\"", 1, 1, "[test]"))]);
    assert_eq!("\"niz\"".razcleni("[test]"), [Literal(Niz("\"niz\"", 1, 1, "[test]"))]);
    assert_eq!("\"3.14\"".razcleni("[test]"), [Literal(Niz("\"3.14\"", 1, 1, "[test]"))]);
    assert_eq!("\"{}\\n\"".razcleni("[test]"), [Literal(Niz("\"{}\\n\"", 1, 1, "[test]"))]);
    assert_eq!("\"{}\\n\" \"smola\"".razcleni("[test]"), [Literal(Niz("\"{}\\n\"", 1, 1, "[test]")), Literal(Niz("\"smola\"", 1, 8, "[test]"))]);

    assert_eq!("0".razcleni("[test]"), [Literal(Celo("0", 1, 1, "[test]"))]);
    assert_eq!("13".razcleni("[test]"), [Literal(Celo("13", 1, 1, "[test]"))]);
    assert_eq!("1_000_000".razcleni("[test]"), [Literal(Celo("1_000_000", 1, 1, "[test]"))]);

    assert_eq!("0.5".razcleni("[test]"), [Literal(Real("0.5", 1, 1, "[test]"))]);
    assert_eq!("3.14".razcleni("[test]"), [Literal(Real("3.14", 1, 1, "[test]"))]);
}

#[test]
fn lekser_ime() {
    assert_eq!("a".razcleni("[test]"), [Ime("a", 1, 1, "[test]")]);
    assert_eq!("švajs".razcleni("[test]"), [Ime("švajs", 1, 1, "[test]")]);
    assert_eq!("švajs  mašina".razcleni("[test]"), [Ime("švajs", 1, 1, "[test]"), Ime("mašina", 1, 8, "[test]")]);
    assert_eq!("__groot__".razcleni("[test]"), [Ime("__groot__", 1, 1, "[test]")]);
    assert_eq!("kamelskaTelewizje".razcleni("[test]"), [Ime("kamelskaTelewizje", 1, 1, "[test]")]);
    assert_eq!("RabeljskoJezero123".razcleni("[test]"), [Ime("RabeljskoJezero123", 1, 1, "[test]")]);
    assert_eq!("0cyka".razcleni("[test]"), [Neznano("0cyka", 1, 1, "[test]")]);
}

#[test]
fn lekser_operatorji() {
    assert_eq!("a kot real".razcleni("[test]"), [Ime("a", 1, 1, "[test]"), Operator("kot", 1, 3, "[test]"), Tip("real", 1, 7, "[test]")]);

    assert_eq!("a<<=b".razcleni("[test]"), [Ime("a", 1, 1, "[test]"), Operator("<<=", 1, 2, "[test]"), Ime("b", 1, 5, "[test]")]);
    assert_eq!("a<< b".razcleni("[test]"), [Ime("a", 1, 1, "[test]"), Operator("<<",  1, 2, "[test]"), Ime("b", 1, 5, "[test]")]);
    assert_eq!("a>>=b".razcleni("[test]"), [Ime("a", 1, 1, "[test]"), Operator(">>=", 1, 2, "[test]"), Ime("b", 1, 5, "[test]")]);
    assert_eq!("a >>b".razcleni("[test]"), [Ime("a", 1, 1, "[test]"), Operator(">>",  1, 3, "[test]"), Ime("b", 1, 5, "[test]")]);

    assert_eq!("a==b".razcleni("[test]"), [Ime("a", 1, 1, "[test]"), Operator("==", 1, 2, "[test]"), Ime("b", 1, 4, "[test]")]);
    assert_eq!("a!=b".razcleni("[test]"), [Ime("a", 1, 1, "[test]"), Operator("!=", 1, 2, "[test]"), Ime("b", 1, 4, "[test]")]);
    assert_eq!("a<=b".razcleni("[test]"), [Ime("a", 1, 1, "[test]"), Operator("<=", 1, 2, "[test]"), Ime("b", 1, 4, "[test]")]);
    assert_eq!("a>=b".razcleni("[test]"), [Ime("a", 1, 1, "[test]"), Operator(">=", 1, 2, "[test]"), Ime("b", 1, 4, "[test]")]);
    assert_eq!("a<b".razcleni("[test]"), [Ime("a",  1, 1, "[test]"), Operator("<",  1, 2, "[test]"), Ime("b", 1, 3, "[test]")]);
    assert_eq!("a>b".razcleni("[test]"), [Ime("a",  1, 1, "[test]"), Operator(">",  1, 2, "[test]"), Ime("b", 1, 3, "[test]")]);

    assert_eq!("a+b".razcleni("[test]"), [Ime("a", 1, 1, "[test]"), Operator("+", 1, 2, "[test]"), Ime("b", 1, 3, "[test]")]);
    assert_eq!("a-b".razcleni("[test]"), [Ime("a", 1, 1, "[test]"), Operator("-", 1, 2, "[test]"), Ime("b", 1, 3, "[test]")]);
    assert_eq!("a*b".razcleni("[test]"), [Ime("a", 1, 1, "[test]"), Operator("*", 1, 2, "[test]"), Ime("b", 1, 3, "[test]")]);
    assert_eq!("a/b".razcleni("[test]"), [Ime("a", 1, 1, "[test]"), Operator("/", 1, 2, "[test]"), Ime("b", 1, 3, "[test]")]);
    assert_eq!("a%b".razcleni("[test]"), [Ime("a", 1, 1, "[test]"), Operator("%", 1, 2, "[test]"), Ime("b", 1, 3, "[test]")]);

    assert_eq!("3+2".razcleni("[test]"), [Literal(Celo("3", 1, 1, "[test]")), Operator("+", 1, 2, "[test]"), Literal(Celo("2", 1, 3, "[test]"))]);
    assert_eq!("3-2".razcleni("[test]"), [Literal(Celo("3", 1, 1, "[test]")), Operator("-", 1, 2, "[test]"), Literal(Celo("2", 1, 3, "[test]"))]);
    assert_eq!("3*2".razcleni("[test]"), [Literal(Celo("3", 1, 1, "[test]")), Operator("*", 1, 2, "[test]"), Literal(Celo("2", 1, 3, "[test]"))]);
    assert_eq!("3/2".razcleni("[test]"), [Literal(Celo("3", 1, 1, "[test]")), Operator("/", 1, 2, "[test]"), Literal(Celo("2", 1, 3, "[test]"))]);
    assert_eq!("3%2".razcleni("[test]"), [Literal(Celo("3", 1, 1, "[test]")), Operator("%", 1, 2, "[test]"), Literal(Celo("2", 1, 3, "[test]"))]);
}

#[test]
fn lekser_locila() {
    assert_eq!("a,b".razcleni("[test]"),  [Ime("a", 1, 1, "[test]"), Locilo(",",  1, 2, "[test]"), Ime("b", 1, 3, "[test]")]);
    assert_eq!("a;b".razcleni("[test]"),  [Ime("a", 1, 1, "[test]"), Locilo(";",  1, 2, "[test]"), Ime("b", 1, 3, "[test]")]);
    assert_eq!("a:b".razcleni("[test]"),  [Ime("a", 1, 1, "[test]"), Locilo(":",  1, 2, "[test]"), Ime("b", 1, 3, "[test]")]);
    assert_eq!("a#b".razcleni("[test]"),  [Ime("a", 1, 1, "[test]"), Locilo("#",  1, 2, "[test]"), Ime("b", 1, 3, "[test]")]);
    assert_eq!("a(b".razcleni("[test]"),  [Ime("a", 1, 1, "[test]"), Locilo("(",  1, 2, "[test]"), Ime("b", 1, 3, "[test]")]);
    assert_eq!("a)b".razcleni("[test]"),  [Ime("a", 1, 1, "[test]"), Locilo(")",  1, 2, "[test]"), Ime("b", 1, 3, "[test]")]);
    assert_eq!("a)b".razcleni("[test]"),  [Ime("a", 1, 1, "[test]"), Locilo(")",  1, 2, "[test]"), Ime("b", 1, 3, "[test]")]);
    assert_eq!("a{b".razcleni("[test]"),  [Ime("a", 1, 1, "[test]"), Locilo("{",  1, 2, "[test]"), Ime("b", 1, 3, "[test]")]);
    assert_eq!("a}b".razcleni("[test]"),  [Ime("a", 1, 1, "[test]"), Locilo("}",  1, 2, "[test]"), Ime("b", 1, 3, "[test]")]);
    assert_eq!("a[b".razcleni("[test]"),  [Ime("a", 1, 1, "[test]"), Locilo("[",  1, 2, "[test]"), Ime("b", 1, 3, "[test]")]);
    assert_eq!("a]b".razcleni("[test]"),  [Ime("a", 1, 1, "[test]"), Locilo("]",  1, 2, "[test]"), Ime("b", 1, 3, "[test]")]);
    assert_eq!("a\nb".razcleni("[test]"), [Ime("a", 1, 1, "[test]"), Locilo("\n", 1, 2, "[test]"), Ime("b", 2, 1, "[test]")]);
}

#[test]
fn lekser_preprost() {
    assert_eq!("če čene".razcleni("[test]"), [Rezerviranka("če", 1, 1, "[test]"), Rezerviranka("čene", 1, 4, "[test]")]);
}

#[test]
fn lekser_napreden() {
    assert_eq!(
        "če\nresnica{dokler laž{natisni(\"nemogoče\")}}".razcleni("[test]"),
        [ Rezerviranka("če", 1, 1, "[test]"), Locilo("\n", 1, 3, "[test]"), 
          bool("resnica", 2, 1, "[test]"), Locilo("{", 2, 8, "[test]"), Rezerviranka("dokler", 2, 9, "[test]"), bool("laž", 2, 16, "[test]"),
          Locilo("{", 2, 19, "[test]"), Ime("natisni", 2, 20, "[test]"), Locilo("(", 2, 27, "[test]"), niz("\"nemogoče\"", 2, 28, "[test]"), Locilo(")", 2, 38, "[test]"),
          Locilo("}", 2, 39, "[test]"), Locilo("}", 2, 40, "[test]") ]
    );
}
