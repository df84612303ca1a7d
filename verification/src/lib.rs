//! SLJ: a small programming language in Slovenian.
//!
//! The crate holds the lexers and the preparation of their tokens, the
//! helpers that split token sequences on separators outside brackets, the
//! diagnostics and how they are shown, the types of the language and how
//! they are read, reading expressions and statements into the syntax tree, what is read off
//! its nodes and how they are written, evaluating constant expressions,
//! compiling the tree to the intermediate code and to C++, the stack machine that runs compiled programs, loading a
//! program from the machine's assembler text and writing it as that text,
//! the passes over assembler text, the native back end for x86-64, the
//! command-line options, and the laws that tie these stages together (what
//! an operator means to the reader, the evaluator, the machine, and the
//! C++ and x86 back ends).

pub mod besedilo;
pub mod vzorec;
pub mod razclenjevanje;
pub mod lekser;
pub mod tokenizer;
pub mod napaka;
pub mod loci;
pub mod urejanje;
pub mod stevilo;
pub mod tip;
pub mod branje_tipa;
pub mod prevajanik;
pub mod izpis;
pub mod fasm;
pub mod oznake;
pub mod moznosti;
pub mod drevo;
pub mod besede;
pub mod vhod;
pub mod predprocesiraj;
pub mod program;
pub mod zazeni;
pub mod vmesna_koda;
pub mod nalaganje;
pub mod zapis;
pub mod nativno;
pub mod vozlisce;
pub mod izris;
pub mod racun;
pub mod prevajanje;
pub mod cpp;
pub mod izraz;
pub mod pogled;
pub mod stavek;
pub mod klic;
pub mod kombinirano;
pub mod interpolacija;
pub mod skladnost;
