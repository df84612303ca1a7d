# SLJ

SLJ is a small interpreted programming language in Slovenian. This crate
holds, written in Verus, the parts of its implementation that are verified:
every function in `src/` carries a contract that Verus proves. Of the
parser, the readers of expressions and of statements are here: variables
and their scopes, assignments (also combined ones, through references and
to elements of arrays), calls of functions, returns, conditionals,
`dokler` and `za` loops and function definitions, with the language's
errors about them. Nothing yet puts the reader, the compiler and the
machine together (the language's own library of functions is not read
here), so the `slj` program here runs programs already written in the
machine's assembler text; a syntax tree can also be built by calls.

## Layout

- `src/` — the library:
  - `lekser`, `tokenizer`, `razclenjevanje`, `vzorec`: the two lexers, the
    lexing loop they share, and the compiled regular expressions they use;
  - `predprocesiraj`: comments and superfluous line breaks taken out of the
    tokens;
  - `loci`: splitting token sequences at separators outside brackets, and
    the escapes of string literals;
  - `napaka`, `izpis`: errors, and how they are shown with the source lines;
  - `tip`, `branje_tipa`, `stevilo`, `urejanje`: the types of the language,
    reading a type from its tokens, reading numbers, and the order of names;
  - `vozlisce`, `izris`: the syntax tree, what is read off a node (its
    type, the stack cells it leaves, equality, and whether it holds
    another), and how a node is written alone and as an indented tree (the
    texts of real numbers come from the caller);
  - `racun`: evaluating constant expressions ahead of time (operations on
    real numbers are done by the caller);
  - `izraz`: reading an expression from its tokens into a typed node, or
    the errors about it (the bits of real literals come from the caller);
  - `pogled`: the syntax tree as a mathematical value, which the contracts
    of the readers speak of;
  - `stavek`, `klic`, `kombinirano`: reading statements, sequences of
    them, scopes and function definitions; calls of functions with their
    arguments; combined assignments and assignments to elements;
  - `prevajanje`: compiling the syntax tree to the intermediate code;
  - `cpp`: the C++ back end, the source of a syntax tree in C++;
  - `program`, `zazeni`, `vhod`: the instructions of the stack machine, one
    step of it, and decoding its input;
  - `nalaganje`, `zapis`: loading a program from the machine's assembler
    text and writing it as that text (real numbers are read and written
    as text by the caller);
  - `prevajanik`: the last pass over assembler text (labels and jumps);
  - `fasm`, `oznake`, `nativno`: the x86-64 instructions of the native back
    end, the names of labels and functions, and the back end itself
    (intermediate code shortened, turned into assembly, and the assembly
    shortened);
  - `moznosti`, `drevo`, `besede`, `besedilo`: command-line options, jump
    targets, the tokens of the word-based reader, and string helpers.
- `tests/` — tests of the library.
- `app/` — the `slj` program: it loads a program written in the machine's
  assembler text with the library, reads its real numbers, and runs it on
  the machine of the library, doing the input, output and real arithmetic
  that the steps hand back.
