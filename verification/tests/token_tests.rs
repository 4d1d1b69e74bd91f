use leierkasten_client::token::{
    session_token, AtomicFlag, Cancelable, CancelableToken, CommonToken, Completable,
    CompletableToken, ResetError, SessionToken, Token, TokenCompleter, ValueToken,
};

#[test]
fn flag_starts_as_given() {
    assert!(AtomicFlag::new(true).is_set());
    assert!(!AtomicFlag::new(false).is_set());
    assert!(!AtomicFlag::unset().is_set());
}

#[test]
fn flag_set_and_reset() {
    let mut flag = AtomicFlag::unset();
    flag.set();
    assert!(flag.is_set());
    flag.set();
    assert!(flag.is_set());
    flag.reset();
    assert!(!flag.is_set());
}

#[test]
fn value_token_holds_its_value_and_always_resets() {
    let mut token = ValueToken::new(7u32);
    assert_eq!(*token.value(), 7);
    assert!(token.can_reset());
    assert_eq!(token.reset(), Ok(()));
    assert_eq!(*token.value(), 7);
}

#[test]
fn cancel_is_idempotent() {
    let mut token: SessionToken<()> = session_token(());
    assert!(!token.is_canceled());
    token.cancel();
    assert!(token.is_canceled());
    token.cancel();
    assert!(token.is_canceled());
    assert!(!token.is_completed());
}

#[test]
fn flags_are_independent() {
    let mut token: SessionToken<u8> = session_token(3);
    token.complete();
    assert!(token.is_completed());
    assert!(!token.is_canceled());
    token.cancel();
    assert!(token.is_completed());
    assert!(token.is_canceled());
    assert_eq!(*token.value(), 3);
}

#[test]
fn reset_before_completion_is_rejected() {
    let mut token: SessionToken<()> = session_token(());
    token.cancel();
    assert!(!token.can_reset());
    assert_eq!(token.reset(), Err(ResetError::NotCompleted));
    assert!(token.is_canceled());
    assert!(!token.is_completed());
}

#[test]
fn reset_after_completion_clears_both_flags() {
    let mut token: SessionToken<u8> = session_token(9);
    token.cancel();
    token.complete();
    assert!(token.can_reset());
    assert_eq!(token.reset(), Ok(()));
    assert!(!token.is_canceled());
    assert!(!token.is_completed());
    assert_eq!(*token.value(), 9);
    assert_eq!(token.reset(), Err(ResetError::NotCompleted));
}

#[test]
fn layers_in_the_other_order_behave_alike() {
    let mut token = CompletableToken::new(CancelableToken::new(ValueToken::new(1u8)));
    token.cancel();
    assert!(token.is_canceled());
    assert_eq!(token.reset(), Err(ResetError::NotCompleted));
    assert!(token.is_canceled());
    token.complete();
    assert_eq!(token.reset(), Ok(()));
    assert!(!token.is_canceled());
    assert!(!token.is_completed());
}

#[test]
fn cancelable_token_without_completion_always_resets() {
    let mut token = CancelableToken::new(ValueToken::new(()));
    token.cancel();
    assert_eq!(token.reset(), Ok(()));
    assert!(!token.is_canceled());
}

#[test]
fn handle_gives_access_to_the_layers() {
    let token = Token::new(CompletableToken::new(ValueToken::new(5u8)));
    assert!(!token.state().is_completed());
    assert_eq!(*token.value(), 5);
}

#[test]
fn completer_marks_the_token_completed() {
    let mut token: SessionToken<()> = session_token(());
    token.cancel();
    let guard = TokenCompleter::new(token);
    assert!(!guard.token().is_completed());
    assert!(guard.token().is_canceled());
    let token = guard.finish();
    assert!(token.is_completed());
    assert!(token.is_canceled());
}

#[test]
fn default_tokens_have_no_flag_raised() {
    let token: SessionToken<u32> = Default::default();
    assert!(!token.is_canceled());
    assert!(!token.is_completed());
    assert_eq!(*token.value(), 0);
}

#[test]
fn cancel_on_bare_layers_leaves_completion_and_value() {
    let mut token = CancelableToken::new(CompletableToken::new(ValueToken::new(4u8)));
    token.cancel();
    assert!(token.is_canceled());
    assert!(!token.is_completed());
    token.cancel();
    assert!(token.is_canceled());
    assert!(!token.is_completed());
    assert_eq!(*token.value(), 4);
    token.complete();
    token.cancel();
    assert!(token.is_completed());
}

#[test]
fn complete_on_bare_layers_leaves_cancellation_and_value() {
    let mut token = CompletableToken::new(CancelableToken::new(ValueToken::new(4u8)));
    token.complete();
    assert!(token.is_completed());
    assert!(!token.is_canceled());
    token.complete();
    assert!(token.is_completed());
    assert!(!token.is_canceled());
    assert_eq!(*token.value(), 4);
}
