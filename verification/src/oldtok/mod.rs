//! An earlier tokenizer over characters, which reads each token from a
//! window of the next four characters.
pub mod peek4;
pub mod tokenizer;
