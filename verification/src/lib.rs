pub mod ast;
pub mod oldtok;
pub mod parser;
pub mod tokenizer;
pub mod tokenstate;
