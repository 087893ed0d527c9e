//! Early-return helpers for two-state wrapper values.
//!
//! A value such as a `Result` or an `Option` represents a binary outcome:
//! either it is what the caller wants (success, presence) or it is not
//! (failure, absence). The [`WhatIwant`] trait reduces any such value to that
//! boolean, and the rule functions below turn "unwrap or bail out" into a
//! single call: they evaluate the value once, classify it, and either hand
//! back the payload or signal the caller to take its fallback path.
//!
//! Non-local exits (`continue`, `return`) cannot happen inside a callee, so
//! the rules that would perform one return a [`Flow`] signal instead; the
//! caller matches on it immediately and performs the jump itself.

use vstd::prelude::*;
use vstd::pervasive::unreached;

verus! {

/// The outcome classifier: implement it to say which state of a two-state
/// wrapper type is the one you want, and what payload that state carries.
///
/// `is_wanted` and `payload` are the mathematical model; `is_i_want` and
/// `extract` are their executable counterparts, and every implementation
/// must meet their contracts. `extract` is only ever invoked on a value
/// already classified as wanted, so an implementation never needs to
/// produce a payload for the other state.
pub trait WhatIwant: Sized {
    /// The type of the value carried by the wanted state.
    type Payload;

    /// Whether this value is in the wanted state.
    spec fn is_wanted(&self) -> bool;

    /// The payload carried by the wanted state; meaningful only when
    /// `is_wanted()` holds.
    spec fn payload(&self) -> Self::Payload;

    /// Classify the value: `true` exactly when it is in the wanted state.
    fn is_i_want(&self) -> (r: bool)
        ensures
            r == self.is_wanted(),
    ;

    /// Extract the payload of a value known to be in the wanted state.
    fn extract(self) -> (r: Self::Payload)
        requires
            self.is_wanted(),
        ensures
            r == self.payload(),
    ;
}

impl<T, E> WhatIwant for Result<T, E> {
    type Payload = T;

    open spec fn is_wanted(&self) -> bool {
        self is Ok
    }

    open spec fn payload(&self) -> T {
        self->Ok_0
    }

    fn is_i_want(&self) -> (r: bool) {
        self.is_ok()
    }

    fn extract(self) -> (r: T) {
        match self {
            Ok(t) => t,
            Err(_) => unreached(),
        }
    }
}

impl<T> WhatIwant for Option<T> {
    type Payload = T;

    open spec fn is_wanted(&self) -> bool {
        self is Some
    }

    open spec fn payload(&self) -> T {
        self->0
    }

    fn is_i_want(&self) -> (r: bool) {
        self.is_some()
    }

    fn extract(self) -> (r: T) {
        match self {
            Some(t) => t,
            None => unreached(),
        }
    }
}

/// A value of an "ok/err" type is wanted exactly when it is in the success
/// state, whatever the error payload is.
pub proof fn lemma_result_classification<T, E>(v: Result<T, E>)
    ensures
        v.is_wanted() <==> v is Ok,
{
}

/// A value of a "present/absent" type is wanted exactly when a value is
/// present, whatever that value is.
pub proof fn lemma_option_classification<T>(v: Option<T>)
    ensures
        v.is_wanted() <==> v is Some,
{
}

/// The control-flow signal a rule hands back to its caller.
///
/// A callee cannot `continue` a loop of its caller or `return` from it, so
/// a rule whose fallback is such a jump returns this signal instead. The
/// caller matches on it right after the call: on `Proceed` it uses the
/// payload, on `NextIteration` it writes `continue`, on `Exit` it returns
/// the carried value from the enclosing function (`()` standing for a plain
/// `return`).
#[derive(Debug, PartialEq, Eq)]
pub enum Flow<T, R> {
    /// The value was wanted: here is its payload; keep going.
    Proceed(T),
    /// Skip to the next iteration of the enclosing loop.
    NextIteration,
    /// Return the carried value from the enclosing function.
    Exit(R),
}

/// Model of every rule whose fallback is `return fallback`: a wanted value
/// proceeds with its payload, any other exits with the fallback value.
pub open spec fn exit_rule<W: WhatIwant, R>(value: W, fallback: R) -> Flow<W::Payload, R> {
    if value.is_wanted() {
        Flow::Proceed(value.payload())
    } else {
        Flow::Exit(fallback)
    }
}

/// Model of the rule whose fallback is `continue`: a wanted value proceeds
/// with its payload, any other skips to the next iteration.
pub open spec fn continue_rule<W: WhatIwant>(value: W) -> Flow<W::Payload, ()> {
    if value.is_wanted() {
        Flow::Proceed(value.payload())
    } else {
        Flow::NextIteration
    }
}

/// Model of the guard: a true condition proceeds, a false one exits with
/// the fallback value.
pub open spec fn guard_rule<R>(condition: bool, fallback: R) -> Flow<(), R> {
    if condition {
        Flow::Proceed(())
    } else {
        Flow::Exit(fallback)
    }
}

/// The base rule: classify `value`, and either hand back its payload or the
/// result of running `fallback`. The value is evaluated by the caller
/// exactly once, at the call; `fallback` runs only in the not-wanted branch,
/// where extraction is never attempted.
pub fn unwrap_or_do<W: WhatIwant, F: FnOnce() -> W::Payload>(value: W, fallback: F) -> (r:
    W::Payload)
    requires
        !value.is_wanted() ==> call_requires(fallback, ()),
    ensures
        value.is_wanted() ==> r == value.payload(),
        !value.is_wanted() ==> call_ensures(fallback, (), r),
{
    if value.is_i_want() {
        value.extract()
    } else {
        fallback()
    }
}

/// The "continue" rule: a wanted value proceeds with its payload, any other
/// signals the caller to skip to the next loop iteration.
pub fn unwrap_or_continue<W: WhatIwant>(value: W) -> (r: Flow<W::Payload, ()>)
    ensures
        r == continue_rule(value),
{
    if value.is_i_want() {
        Flow::Proceed(value.extract())
    } else {
        Flow::NextIteration
    }
}

/// The "return" rule: a wanted value proceeds with its payload, any other
/// signals the caller to return with no value.
pub fn unwrap_or_return<W: WhatIwant>(value: W) -> (r: Flow<W::Payload, ()>)
    ensures
        r == exit_rule(value, ()),
{
    if value.is_i_want() {
        Flow::Proceed(value.extract())
    } else {
        Flow::Exit(())
    }
}

/// The "return false" rule: a wanted value proceeds with its payload, any
/// other signals the caller to return `false`.
pub fn unwrap_or_false<W: WhatIwant>(value: W) -> (r: Flow<W::Payload, bool>)
    ensures
        r == exit_rule(value, false),
{
    if value.is_i_want() {
        Flow::Proceed(value.extract())
    } else {
        Flow::Exit(false)
    }
}

/// The "return true" rule: a wanted value proceeds with its payload, any
/// other signals the caller to return `true`.
pub fn unwrap_or_true<W: WhatIwant>(value: W) -> (r: Flow<W::Payload, bool>)
    ensures
        r == exit_rule(value, true),
{
    if value.is_i_want() {
        Flow::Proceed(value.extract())
    } else {
        Flow::Exit(true)
    }
}

/// The "return value" rule: a wanted value proceeds with its payload, any
/// other signals the caller to return the supplied fallback value.
pub fn unwrap_or_val<W: WhatIwant, R>(value: W, fallback: R) -> (r: Flow<W::Payload, R>)
    ensures
        r == exit_rule(value, fallback),
{
    if value.is_i_want() {
        Flow::Proceed(value.extract())
    } else {
        Flow::Exit(fallback)
    }
}

/// The one-argument guard: a true condition proceeds, a false one signals
/// the caller to return with no value.
pub fn require(condition: bool) -> (r: Flow<(), ()>)
    ensures
        r == guard_rule(condition, ()),
{
    if condition {
        Flow::Proceed(())
    } else {
        Flow::Exit(())
    }
}

/// The two-argument guard: a true condition proceeds, a false one signals
/// the caller to return the supplied fallback value.
pub fn require_val<R>(condition: bool, fallback: R) -> (r: Flow<(), R>)
    ensures
        r == guard_rule(condition, fallback),
{
    if condition {
        Flow::Proceed(())
    } else {
        Flow::Exit(fallback)
    }
}

/// The "return true" rule and the "return false" rule agree exactly on
/// wanted values, where both proceed with the payload; on a not-wanted
/// value the first exits with `true`, the second with `false`, and the two
/// signals differ: the rules live up to their names and are not
/// interchangeable.
pub proof fn lemma_true_and_false_rules_differ<W: WhatIwant>(value: W)
    ensures
        !value.is_wanted() ==> exit_rule(value, true) == Flow::<W::Payload, bool>::Exit(true),
        !value.is_wanted() ==> exit_rule(value, false) == Flow::<W::Payload, bool>::Exit(false),
        (exit_rule(value, true) == exit_rule(value, false)) <==> value.is_wanted(),
{
}

} // verus!
