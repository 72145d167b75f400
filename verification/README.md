# jsparse

A JavaScript tokenizer, parser front end and syntax-tree printer, written in
Verus: each function carries a contract and Verus proves the code meets it.

Layout:

- `src/tokenizer/`: the byte-level lexer (`lex.rs` states what each token is,
  `scan.rs` the scanning helpers), the slice tokenizer and the token types.
- `src/tokenstate.rs`: a character-at-a-time lexical state machine and the
  token stream built on it.
- `src/oldtok/`: a character tokenizer over a four-character window.
- `src/parser/`: a recursive-descent recognizer for scripts and modules.
  Each production reports whether it starts at the next token; the contracts
  state that success keeps the source and the grammar flags, that a found
  production takes input, and which token each keyword-led production needs.
  The steps that take single tokens (punctuators, keywords, names, literals,
  assignment operators) and what may follow the conditional expression of an
  assignment are stated exactly. The parser keeps the tokens it has taken:
  the expression productions state which next tokens begin them (and take
  nothing where they report no start), the statements that end in a fixed
  token say so, and every production reports no start at the end of input,
  so a source with nothing but whitespace and comments parses.
- `src/ast/`: the syntax tree and its printer. The printer's effect is stated
  over a model of the formatter (`FormatterView`), and each node states what
  it prints.
- `app/main.rs`: the command-line program that reads a file, parses it and
  reports the time taken.
- `tests/`: examples run against the compiled library.
