use slj::tokenizer::{bool, niz, Tokenize, Token::{Ime, Literal, Locilo, Neznano, Operator, Rezerviranka}, L::{Bool, Celo, Niz, Real}};


#[test]
fn tokenizer_rezervirane_besede() {
    assert_eq!("naj".to_owned().tokenize(), [Rezerviranka("naj", 1, 1)]);
    assert_eq!("čene".to_owned().tokenize(), [Rezerviranka("čene", 1, 1)]);
    assert_eq!("če".to_owned().tokenize(), [Rezerviranka("če", 1, 1)]);
    assert_eq!("dokler".to_owned().tokenize(), [Rezerviranka("dokler", 1, 1)]);
    assert_eq!("za".to_owned().tokenize(), [Rezerviranka("za", 1, 1)]);
    assert_eq!("funkcija".to_owned().tokenize(), [Rezerviranka("funkcija", 1, 1)]);
    assert_eq!("vrni".to_owned().tokenize(), [Rezerviranka("vrni", 1, 1)]);
    assert_eq!("prekini".to_owned().tokenize(), [Rezerviranka("prekini", 1, 1)]);
}

#[test]
fn tokenizer_literali() {
    assert_eq!("resnica".to_owned().tokenize(), [Literal(Bool("resnica", 1, 1))]);
    assert_eq!("laž".to_owned().tokenize(), [Literal(Bool("laž", 1, 1))]);

    assert_eq!("\"\"".to_owned().tokenize(), [Literal(Niz("\"\"", 1, 1))]);
    assert_eq!("\"niz\"".to_owned().tokenize(), [Literal(Niz("\"niz\"", 1, 1))]);
    assert_eq!("\"3.14\"".to_owned().tokenize(), [Literal(Niz("\"3.14\"", 1, 1))]);
    assert_eq!("\"{}\\n\"".to_owned().tokenize(), [Literal(Niz("\"{}\\n\"", 1, 1))]);
    assert_eq!("\"{}\\n\" \"smola\"".to_owned().tokenize(), [Literal(Niz("\"{}\\n\"", 1, 1)), Literal(Niz("\"smola\"", 1, 8))]);

    assert_eq!("0".to_owned().tokenize(), [Literal(Celo("0", 1, 1))]);
    assert_eq!("13".to_owned().tokenize(), [Literal(Celo("13", 1, 1))]);
    assert_eq!("1_000_000".to_owned().tokenize(), [Literal(Celo("1_000_000", 1, 1))]);

    assert_eq!("0.5".to_owned().tokenize(), [Literal(Real("0.5", 1, 1))]);
    assert_eq!("3.14".to_owned().tokenize(), [Literal(Real("3.14", 1, 1))]);
}

#[test]
fn tokenizer_ime() {
    assert_eq!("a".to_owned().tokenize(), [Ime("a", 1, 1)]);
    assert_eq!("švajs".to_owned().tokenize(), [Ime("švajs", 1, 1)]);
    assert_eq!("švajs  mašina".to_owned().tokenize(), [Ime("švajs", 1, 1), Ime("mašina", 1, 8)]);
    assert_eq!("__groot__".to_owned().tokenize(), [Ime("__groot__", 1, 1)]);
    assert_eq!("kamelskaTelewizje".to_owned().tokenize(), [Ime("kamelskaTelewizje", 1, 1)]);
    assert_eq!("RabeljskoJezero123".to_owned().tokenize(), [Ime("RabeljskoJezero123", 1, 1)]);
    assert_eq!("0cyka".to_owned().tokenize(), [Neznano("0cyka", 1, 1)]);
}

#[test]
fn tokenizer_operatorji() {
    assert_eq!("a<<=b".to_owned().tokenize(), [Ime("a", 1, 1), Operator("<<=", 1, 2), Ime("b", 1, 5)]);
    assert_eq!("a<< b".to_owned().tokenize(), [Ime("a", 1, 1), Operator("<<", 1, 2), Ime("b", 1, 5)]);
    assert_eq!("a>>=b".to_owned().tokenize(), [Ime("a", 1, 1), Operator(">>=", 1, 2), Ime("b", 1, 5)]);
    assert_eq!("a >>b".to_owned().tokenize(), [Ime("a", 1, 1), Operator(">>", 1, 3), Ime("b", 1, 5)]);

    assert_eq!("a==b".to_owned().tokenize(), [Ime("a", 1, 1), Operator("==", 1, 2), Ime("b", 1, 4)]);
    assert_eq!("a!=b".to_owned().tokenize(), [Ime("a", 1, 1), Operator("!=", 1, 2), Ime("b", 1, 4)]);
    assert_eq!("a<=b".to_owned().tokenize(), [Ime("a", 1, 1), Operator("<=", 1, 2), Ime("b", 1, 4)]);
    assert_eq!("a>=b".to_owned().tokenize(), [Ime("a", 1, 1), Operator(">=", 1, 2), Ime("b", 1, 4)]);
    assert_eq!("a<b".to_owned().tokenize(), [Ime("a", 1, 1), Operator("<", 1, 2), Ime("b", 1, 3)]);
    assert_eq!("a>b".to_owned().tokenize(), [Ime("a", 1, 1), Operator(">", 1, 2), Ime("b", 1, 3)]);

    assert_eq!("a+b".to_owned().tokenize(), [Ime("a", 1, 1), Operator("+", 1, 2), Ime("b", 1, 3)]);
    assert_eq!("a-b".to_owned().tokenize(), [Ime("a", 1, 1), Operator("-", 1, 2), Ime("b", 1, 3)]);
    assert_eq!("a*b".to_owned().tokenize(), [Ime("a", 1, 1), Operator("*", 1, 2), Ime("b", 1, 3)]);
    assert_eq!("a/b".to_owned().tokenize(), [Ime("a", 1, 1), Operator("/", 1, 2), Ime("b", 1, 3)]);
    assert_eq!("a%b".to_owned().tokenize(), [Ime("a", 1, 1), Operator("%", 1, 2), Ime("b", 1, 3)]);

    assert_eq!("3+2".to_owned().tokenize(), [Literal(Celo("3", 1, 1)), Operator("+", 1, 2), Literal(Celo("2", 1, 3))]);
    assert_eq!("3-2".to_owned().tokenize(), [Literal(Celo("3", 1, 1)), Operator("-", 1, 2), Literal(Celo("2", 1, 3))]);
    assert_eq!("3*2".to_owned().tokenize(), [Literal(Celo("3", 1, 1)), Operator("*", 1, 2), Literal(Celo("2", 1, 3))]);
    assert_eq!("3/2".to_owned().tokenize(), [Literal(Celo("3", 1, 1)), Operator("/", 1, 2), Literal(Celo("2", 1, 3))]);
    assert_eq!("3%2".to_owned().tokenize(), [Literal(Celo("3", 1, 1)), Operator("%", 1, 2), Literal(Celo("2", 1, 3))]);
}

#[test]
fn tokenizer_locila() {
    assert_eq!("a,b".to_owned().tokenize(),  [Ime("a", 1, 1), Locilo(",",  1, 2), Ime("b", 1, 3)]);
    assert_eq!("a;b".to_owned().tokenize(),  [Ime("a", 1, 1), Locilo(";",  1, 2), Ime("b", 1, 3)]);
    assert_eq!("a:b".to_owned().tokenize(),  [Ime("a", 1, 1), Locilo(":",  1, 2), Ime("b", 1, 3)]);
    assert_eq!("a#b".to_owned().tokenize(),  [Ime("a", 1, 1), Locilo("#",  1, 2), Ime("b", 1, 3)]);
    assert_eq!("a(b".to_owned().tokenize(),  [Ime("a", 1, 1), Locilo("(",  1, 2), Ime("b", 1, 3)]);
    assert_eq!("a)b".to_owned().tokenize(),  [Ime("a", 1, 1), Locilo(")",  1, 2), Ime("b", 1, 3)]);
    assert_eq!("a)b".to_owned().tokenize(),  [Ime("a", 1, 1), Locilo(")",  1, 2), Ime("b", 1, 3)]);
    assert_eq!("a{b".to_owned().tokenize(),  [Ime("a", 1, 1), Locilo("{",  1, 2), Ime("b", 1, 3)]);
    assert_eq!("a}b".to_owned().tokenize(),  [Ime("a", 1, 1), Locilo("}",  1, 2), Ime("b", 1, 3)]);
    assert_eq!("a[b".to_owned().tokenize(),  [Ime("a", 1, 1), Locilo("[",  1, 2), Ime("b", 1, 3)]);
    assert_eq!("a]b".to_owned().tokenize(),  [Ime("a", 1, 1), Locilo("]",  1, 2), Ime("b", 1, 3)]);
    assert_eq!("a\nb".to_owned().tokenize(), [Ime("a", 1, 1), Locilo("\n", 1, 2), Ime("b", 2, 1)]);
}

#[test]
fn tokenizer_preprost() {
    assert_eq!("če čene".to_owned().tokenize(), [Rezerviranka("če", 1, 1), Rezerviranka("čene", 1, 4)]);
}

#[test]
fn tokenizer_napreden() {
    assert_eq!(
        "če\nresnica{dokler laž{natisni(\"nemogoče\")}}".to_owned().tokenize(),
        [ Rezerviranka("če", 1, 1), Locilo("\n", 1, 3), 
          bool("resnica", 2, 1), Locilo("{", 2, 8), Rezerviranka("dokler", 2, 9), bool("laž", 2, 16),
          Locilo("{", 2, 19), Ime("natisni", 2, 20), Locilo("(", 2, 27), niz("\"nemogoče\"", 2, 28), Locilo(")", 2, 38),
          Locilo("}", 2, 39), Locilo("}", 2, 40) ]
    );
}
