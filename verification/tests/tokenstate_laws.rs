use jsparse::tokenstate::{EscapeReturnState, TState, TokenFlags, TokenStream, UnexpectedEnd};

#[test]
fn start_never_steps_to_start() {
    let flags = TokenFlags::new(true);
    for c in ['a', '1', ';', ' ', '\n', '"', '/', '}', '\\', '~', '\u{3000}'] {
        let s = TState::new().step(c, flags);
        assert_ne!(s, TState::Start);
        assert_ne!(s, TState::Unknown);
    }
}

#[test]
fn unknown_restarts_and_escape_returns() {
    let flags = TokenFlags::default();
    assert_eq!(TState::Unknown.step('x', flags), TState::Start);
    assert_eq!(TState::EscapeSequenceDone(EscapeReturnState::SingleString).step('x', flags), TState::SChars);
    assert_eq!(TState::EscapeSequenceDone(EscapeReturnState::IdentifierPart).step('x', flags), TState::Ident);
}

#[test]
fn flags_choose_states() {
    let mut flags = TokenFlags::new(false);
    assert_eq!(TState::Start.step('/', flags), TState::ExpressionSlash);
    flags.operator = true;
    assert_eq!(TState::Start.step('/', flags), TState::OperatorSlash);
    assert_eq!(TState::Start.step('}', flags), TState::RCurly);
    flags.template = true;
    assert_eq!(TState::Start.step('}', flags), TState::TemplateChars);
    assert_eq!(TState::Zero.step('7', TokenFlags::new(false)), TState::Start);
    assert_eq!(TState::Zero.step('7', TokenFlags::new(true)), TState::LegacyOctal);
    assert_eq!(TState::Zero.step('x', TokenFlags::new(false)), TState::Hex);
    assert_eq!(TState::Zero.step('X', TokenFlags::new(false)), TState::Hex);
    assert_eq!(TState::Zero.step('h', TokenFlags::new(false)), TState::Start);
}

#[test]
fn stream_ends_inside_a_token() {
    let mut s = TokenStream::new("abc".chars().collect());
    assert_eq!(s.try_next(), Err(UnexpectedEnd { from: TState::Ident, to: TState::Ident }));
}

#[test]
fn stream_hands_out_unknown() {
    let mut s = TokenStream::new("1e;".chars().collect());
    assert_eq!(s.try_next(), Ok(Some(TState::Unknown)));
}
