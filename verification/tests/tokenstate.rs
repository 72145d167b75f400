use jsparse::tokenstate::{TState, TokenFlags, TokenStream, UnexpectedEnd};

#[test]
fn it_works() {
    let mut s = TokenStream::new("one;'foo';`foo`;0.3;08.2;".chars().collect());
    let states = s.states().unwrap();
    assert_eq!(
        states,
        vec![
            TState::Ident,
            TState::Semicolon,
            TState::SCharEnd,
            TState::Semicolon,
            TState::TemplateCharEnd,
            TState::Semicolon,
            TState::Decimal,
            TState::Semicolon,
            TState::Decimal,
            TState::Semicolon,
        ]
    );
}
