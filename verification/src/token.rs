//! Cancellation and completion flags shared by a controller and its task.
//!
//! A token is a value wrapped in layers, each of which adds one flag. The
//! controller raises the cancel flag; the task raises the completion flag
//! when it ends, whatever the reason; only then may the controller clear
//! both for the next session.

use vstd::prelude::*;

verus! {

/// A flag that is raised, lowered and read as a whole.
pub struct AtomicFlag {
    raised: bool,
}

impl AtomicFlag {
    /// Whether the flag is raised.
    pub closed spec fn view(&self) -> bool {
        self.raised
    }

    pub fn new(value: bool) -> (flag: Self)
        ensures
            flag@ == value,
    {
        AtomicFlag { raised: value }
    }

    pub fn unset() -> (flag: Self)
        ensures
            !flag@,
    {
        Self::new(false)
    }

    pub fn set(&mut self)
        ensures
            final(self)@,
    {
        self.raised = true;
    }

    pub fn reset(&mut self)
        ensures
            !final(self)@,
    {
        self.raised = false;
    }

    pub fn is_set(&self) -> (raised: bool)
        ensures
            raised == self@,
    {
        self.raised
    }
}

/// Why a token refused to be cleared.
#[derive(Clone, Copy, Debug, PartialEq, Eq, Structural)]
pub enum ResetError {
    /// The task that owns the token has not marked it completed.
    NotCompleted,
}

/// What every layer of a token offers: the wrapped value, and clearing.
pub trait CommonToken: Sized {
    type Value;

    /// The value at the core of the token.
    spec fn inner_value(&self) -> Self::Value;

    /// Every completion flag in the token is raised, so it may be cleared.
    spec fn resettable(&self) -> bool;

    /// No flag in the token is raised.
    spec fn pristine(&self) -> bool;

    fn value(&self) -> (v: &Self::Value)
        ensures
            *v == self.inner_value(),
    ;

    /// Whether `reset` would clear the token.
    fn can_reset(&self) -> (ok: bool)
        ensures
            ok == self.resettable(),
    ;

    /// Clears every flag, provided that the token is completed. A token that
    /// is not stays as it is.
    fn reset(&mut self) -> (res: Result<(), ResetError>)
        ensures
            res is Ok <==> old(self).resettable(),
            res is Ok ==> final(self).pristine() && final(self).inner_value() == old(
                self,
            ).inner_value(),
            res is Err ==> *final(self) == *old(self),
    ;
}

/// A token whose task reports that it has ended.
pub trait Completable: CommonToken {
    spec fn completed(&self) -> bool;

    /// This token with its completion flag lowered.
    spec fn without_completion(&self) -> Self;

    /// A token that may be cleared is completed.
    proof fn lemma_resettable_completed(&self)
        ensures
            self.resettable() ==> self.completed(),
    ;

    /// Raises the completion flag and changes nothing else. Raising it again
    /// has no further effect.
    fn complete(&mut self)
        ensures
            final(self).completed(),
            final(self).without_completion() == old(self).without_completion(),
            final(self).inner_value() == old(self).inner_value(),
    ;

    fn is_completed(&self) -> (done: bool)
        ensures
            done == self.completed(),
    ;
}

/// A token whose controller can ask the task to stop.
pub trait Cancelable: CommonToken {
    spec fn canceled(&self) -> bool;

    /// This token with its cancel flag lowered.
    spec fn without_cancel(&self) -> Self;

    /// Raises the cancel flag and changes nothing else: neither the value
    /// nor whether the token may be cleared. Raising it again has no further
    /// effect.
    fn cancel(&mut self)
        ensures
            final(self).canceled(),
            final(self).without_cancel() == old(self).without_cancel(),
            final(self).inner_value() == old(self).inner_value(),
            final(self).resettable() == old(self).resettable(),
    ;

    fn is_canceled(&self) -> (stop: bool)
        ensures
            stop == self.canceled(),
    ;
}

/// The innermost layer: a value and no flag.
pub struct ValueToken<Value> {
    value: Value,
}

impl<Value> ValueToken<Value> {
    pub fn new(value: Value) -> (token: Self)
        ensures
            token.inner_value() == value,
    {
        ValueToken { value }
    }
}

impl<Value> CommonToken for ValueToken<Value> {
    type Value = Value;

    closed spec fn inner_value(&self) -> Value {
        self.value
    }

    open spec fn resettable(&self) -> bool {
        true
    }

    open spec fn pristine(&self) -> bool {
        true
    }

    fn value(&self) -> (v: &Value) {
        &self.value
    }

    fn can_reset(&self) -> (ok: bool) {
        true
    }

    fn reset(&mut self) -> (res: Result<(), ResetError>) {
        Ok(())
    }
}

/// The layer that adds the cancel flag.
pub struct CancelableToken<Token: CommonToken> {
    token: Token,
    canceled: AtomicFlag,
}

impl<Token: CommonToken> CancelableToken<Token> {
    /// The token under this layer.
    pub closed spec fn inner(&self) -> Token {
        self.token
    }

    /// This layer's own flag.
    pub closed spec fn cancel_flag(&self) -> bool {
        self.canceled@
    }

    pub fn new(token: Token) -> (outer: Self)
        ensures
            outer.inner() == token,
            !outer.canceled(),
    {
        CancelableToken { token, canceled: AtomicFlag::unset() }
    }
}

impl<Token: CommonToken> CommonToken for CancelableToken<Token> {
    type Value = Token::Value;

    open spec fn inner_value(&self) -> Token::Value {
        self.inner().inner_value()
    }

    open spec fn resettable(&self) -> bool {
        self.inner().resettable()
    }

    open spec fn pristine(&self) -> bool {
        !self.cancel_flag() && self.inner().pristine()
    }

    fn value(&self) -> (v: &Token::Value) {
        self.token.value()
    }

    fn can_reset(&self) -> (ok: bool) {
        self.token.can_reset()
    }

    fn reset(&mut self) -> (res: Result<(), ResetError>) {
        match self.token.reset() {
            Ok(()) => {
                self.canceled.reset();
                Ok(())
            },
            Err(e) => Err(e),
        }
    }
}

impl<T: CommonToken> Cancelable for CancelableToken<T> {
    open spec fn canceled(&self) -> bool {
        self.cancel_flag()
    }

    closed spec fn without_cancel(&self) -> Self {
        CancelableToken { token: self.token, canceled: AtomicFlag { raised: false } }
    }

    /// Raises this layer's flag. The token under the layer stays as it is,
    /// and with it its completion.
    fn cancel(&mut self)
        ensures
            final(self).inner() == old(self).inner(),
    {
        self.canceled.set();
    }

    fn is_canceled(&self) -> (stop: bool) {
        self.canceled.is_set()
    }
}

impl<T: CommonToken + Completable> Completable for CancelableToken<T> {
    open spec fn completed(&self) -> bool {
        self.inner().completed()
    }

    closed spec fn without_completion(&self) -> Self {
        CancelableToken { token: self.token.without_completion(), canceled: self.canceled }
    }

    proof fn lemma_resettable_completed(&self) {
        self.token.lemma_resettable_completed();
    }

    /// Completes the token under this layer. The layer's cancel flag stays
    /// as it is.
    fn complete(&mut self)
        ensures
            final(self).canceled() == old(self).canceled(),
            final(self).inner().without_completion() == old(self).inner().without_completion(),
    {
        self.token.complete();
    }

    fn is_completed(&self) -> (done: bool) {
        self.token.is_completed()
    }
}

/// The layer that adds the completion flag.
pub struct CompletableToken<Token: CommonToken> {
    token: Token,
    completed: AtomicFlag,
}

impl<Token: CommonToken> CompletableToken<Token> {
    /// The token under this layer.
    pub closed spec fn inner(&self) -> Token {
        self.token
    }

    /// This layer's own flag.
    pub closed spec fn completion_flag(&self) -> bool {
        self.completed@
    }

    pub fn new(token: Token) -> (outer: Self)
        ensures
            outer.inner() == token,
            !outer.completed(),
    {
        CompletableToken { token, completed: AtomicFlag::unset() }
    }
}

impl<Token: CommonToken> CommonToken for CompletableToken<Token> {
    type Value = Token::Value;

    open spec fn inner_value(&self) -> Token::Value {
        self.inner().inner_value()
    }

    open spec fn resettable(&self) -> bool {
        self.completion_flag() && self.inner().resettable()
    }

    open spec fn pristine(&self) -> bool {
        !self.completion_flag() && self.inner().pristine()
    }

    fn value(&self) -> (v: &Token::Value) {
        self.token.value()
    }

    fn can_reset(&self) -> (ok: bool) {
        self.completed.is_set() && self.token.can_reset()
    }

    fn reset(&mut self) -> (res: Result<(), ResetError>) {
        if !self.completed.is_set() {
            return Err(ResetError::NotCompleted);
        }
        match self.token.reset() {
            Ok(()) => {
                self.completed.reset();
                Ok(())
            },
            Err(e) => Err(e),
        }
    }
}

impl<T: CommonToken + Cancelable> Cancelable for CompletableToken<T> {
    open spec fn canceled(&self) -> bool {
        self.inner().canceled()
    }

    closed spec fn without_cancel(&self) -> Self {
        CompletableToken { token: self.token.without_cancel(), completed: self.completed }
    }

    /// Cancels the token under this layer. The layer's completion flag
    /// stays as it is.
    fn cancel(&mut self)
        ensures
            final(self).completed() == old(self).completed(),
            final(self).inner().without_cancel() == old(self).inner().without_cancel(),
    {
        self.token.cancel();
    }

    fn is_canceled(&self) -> (stop: bool) {
        self.token.is_canceled()
    }
}

impl<T: CommonToken> Completable for CompletableToken<T> {
    open spec fn completed(&self) -> bool {
        self.completion_flag()
    }

    closed spec fn without_completion(&self) -> Self {
        CompletableToken { token: self.token, completed: AtomicFlag { raised: false } }
    }

    proof fn lemma_resettable_completed(&self) {
    }

    /// Raises this layer's flag. The token under the layer stays as it is,
    /// and with it its cancellation.
    fn complete(&mut self)
        ensures
            final(self).inner() == old(self).inner(),
    {
        self.completed.set();
    }

    fn is_completed(&self) -> (done: bool) {
        self.completed.is_set()
    }
}

/// The handle by which a token is held.
pub struct Token<S> {
    state: S,
}

impl<S> Token<S> {
    /// The layers behind the handle.
    pub closed spec fn view(&self) -> S {
        self.state
    }

    pub fn new(state: S) -> (token: Self)
        ensures
            token@ == state,
    {
        Token { state }
    }

    /// The layers behind the handle.
    pub fn state(&self) -> (state: &S)
        ensures
            *state == self@,
    {
        &self.state
    }
}

impl<S: CommonToken> CommonToken for Token<S> {
    type Value = S::Value;

    open spec fn inner_value(&self) -> S::Value {
        self@.inner_value()
    }

    open spec fn resettable(&self) -> bool {
        self@.resettable()
    }

    open spec fn pristine(&self) -> bool {
        self@.pristine()
    }

    fn value(&self) -> (v: &S::Value) {
        self.state.value()
    }

    fn can_reset(&self) -> (ok: bool) {
        self.state.can_reset()
    }

    fn reset(&mut self) -> (res: Result<(), ResetError>) {
        self.state.reset()
    }
}

impl<S: Cancelable> Cancelable for Token<S> {
    open spec fn canceled(&self) -> bool {
        self@.canceled()
    }

    closed spec fn without_cancel(&self) -> Self {
        Token { state: self.state.without_cancel() }
    }

    /// Cancels the layers behind the handle.
    fn cancel(&mut self)
        ensures
            final(self)@.without_cancel() == old(self)@.without_cancel(),
    {
        self.state.cancel();
    }

    fn is_canceled(&self) -> (stop: bool) {
        self.state.is_canceled()
    }
}

impl<S: Completable> Completable for Token<S> {
    open spec fn completed(&self) -> bool {
        self@.completed()
    }

    closed spec fn without_completion(&self) -> Self {
        Token { state: self.state.without_completion() }
    }

    proof fn lemma_resettable_completed(&self) {
        self.state.lemma_resettable_completed();
    }

    /// Completes the layers behind the handle.
    fn complete(&mut self)
        ensures
            final(self)@.without_completion() == old(self)@.without_completion(),
    {
        self.state.complete();
    }

    fn is_completed(&self) -> (done: bool) {
        self.state.is_completed()
    }
}

/// Holds a token for the length of a task and marks it completed when the
/// task lets go of it.
pub struct TokenCompleter<T: Completable> {
    token: Token<T>,
}

impl<T: Completable> TokenCompleter<T> {
    pub closed spec fn view(&self) -> Token<T> {
        self.token
    }

    pub fn new(token: Token<T>) -> (guard: Self)
        ensures
            guard@ == token,
    {
        TokenCompleter { token }
    }

    pub fn token(&self) -> (state: &T)
        ensures
            *state == self@@,
    {
        self.token.state()
    }

    /// Ends the task's hold on the token: marks it completed and hands it
    /// back.
    pub fn finish(self) -> (token: Token<T>)
        ensures
            token.completed(),
            token.without_completion() == self@.without_completion(),
    {
        let mut token = self.token;
        token.complete();
        token
    }
}

/// Two cancel layers that differ at most in their own flag hold the same
/// token.
pub proof fn lemma_cancel_layer<T: CommonToken>(a: CancelableToken<T>, b: CancelableToken<T>)
    ensures
        a.without_cancel() == b.without_cancel() <==> a.inner() == b.inner(),
{
}

/// Two completion layers that differ at most in their own flag hold the
/// same token.
pub proof fn lemma_completion_layer<T: CommonToken>(
    a: CompletableToken<T>,
    b: CompletableToken<T>,
)
    ensures
        a.without_completion() == b.without_completion() <==> a.inner() == b.inner(),
{
}

/// Two completion layers over cancelable tokens differ at most in a cancel
/// flag exactly if they agree on completion and the tokens under them
/// differ at most in a cancel flag.
pub proof fn lemma_cancel_under_completion<T: CommonToken + Cancelable>(
    a: CompletableToken<T>,
    b: CompletableToken<T>,
)
    ensures
        a.without_cancel() == b.without_cancel() <==> a.completed() == b.completed()
            && a.inner().without_cancel() == b.inner().without_cancel(),
{
}

/// Two cancel layers over completable tokens differ at most in a completion
/// flag exactly if they agree on cancellation and the tokens under them
/// differ at most in a completion flag.
pub proof fn lemma_completion_under_cancel<T: CommonToken + Completable>(
    a: CancelableToken<T>,
    b: CancelableToken<T>,
)
    ensures
        a.without_completion() == b.without_completion() <==> a.canceled() == b.canceled()
            && a.inner().without_completion() == b.inner().without_completion(),
{
}

/// Two handles differ at most in a cancel flag exactly if the layers behind
/// them do.
pub proof fn lemma_cancel_behind_handle<S: Cancelable>(a: Token<S>, b: Token<S>)
    ensures
        a.without_cancel() == b.without_cancel() <==> a@.without_cancel() == b@.without_cancel(),
{
}

/// Two handles differ at most in a completion flag exactly if the layers
/// behind them do.
pub proof fn lemma_completion_behind_handle<S: Completable>(a: Token<S>, b: Token<S>)
    ensures
        a.without_completion() == b.without_completion() <==> a@.without_completion()
            == b@.without_completion(),
{
}

/// Clearing before completion is refused, whatever the layers are: a token
/// that is not completed may not be cleared, so `reset` returns the error
/// and leaves every flag as it is.
pub proof fn lemma_reset_needs_completion<T: Completable>(token: T)
    ensures
        !token.completed() ==> !token.resettable(),
{
    token.lemma_resettable_completed();
}

/// A token with one cancel flag over one completion flag: what a session
/// shares with its controller.
pub type SessionToken<V> = Token<CancelableToken<CompletableToken<ValueToken<V>>>>;

/// A session token with both flags lowered.
pub fn session_token<V>(value: V) -> (token: SessionToken<V>)
    ensures
        token.inner_value() == value,
        !token.canceled(),
        !token.completed(),
        token.pristine(),
{
    Token::new(CancelableToken::new(CompletableToken::new(ValueToken::new(value))))
}

/// The two flags of a session token are independent: two tokens that
/// differ at most in the cancel flag agree on completion and on the value,
/// and two that differ at most in the completion flag agree on cancellation
/// and on the value.
pub proof fn lemma_flags_independent<V>(a: SessionToken<V>, b: SessionToken<V>)
    ensures
        a.without_cancel() == b.without_cancel() ==> a.completed() == b.completed()
            && a.inner_value() == b.inner_value(),
        a.without_completion() == b.without_completion() ==> a.canceled() == b.canceled()
            && a.inner_value() == b.inner_value(),
{
}

/// A session token may be cleared exactly when it is completed, and it is
/// clear exactly when neither flag is raised.
pub proof fn lemma_session_flags<V>(token: SessionToken<V>)
    ensures
        token.resettable() == token.completed(),
        token.pristine() == (!token.canceled() && !token.completed()),
{
}

impl<Value: Default> Default for ValueToken<Value> {
    fn default() -> (token: Self)
        ensures
            token.pristine(),
            call_ensures(Value::default, (), token.inner_value()),
    {
        Self::new(Value::default())
    }
}

impl<Token: CommonToken + Default> Default for CancelableToken<Token> {
    fn default() -> (token: Self)
        ensures
            !token.canceled(),
            call_ensures(Token::default, (), token.inner()),
    {
        Self::new(Token::default())
    }
}

impl<Token: CommonToken + Default> Default for CompletableToken<Token> {
    fn default() -> (token: Self)
        ensures
            !token.completed(),
            call_ensures(Token::default, (), token.inner()),
    {
        Self::new(Token::default())
    }
}

impl<S: Default> Default for Token<S> {
    fn default() -> (token: Self)
        ensures
            call_ensures(S::default, (), token@),
    {
        Token::new(S::default())
    }
}

} // verus!
