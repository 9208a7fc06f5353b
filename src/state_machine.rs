//! The lifecycle every guarded contract goes through:
//! Uninitialized -> Active <-> Paused, Active <-> Migrating, and any
//! initialized state -> Terminated, which has no way out.

use vstd::prelude::*;
use crate::error::StateError;

verus! {

#[derive(Clone, Copy, Debug, PartialEq, Eq)]
pub enum State<T> {
    Uninitialized,
    Active(T),
    Paused(T),
    Migrating(T),
    Terminated(T),
}

/// The transitions the lifecycle allows.
pub open spec fn transition_allowed<T>(from: State<T>, to: State<T>) -> bool {
    match (from, to) {
        (State::Uninitialized, State::Active(_)) => true,
        (State::Active(_), State::Paused(_)) => true,
        (State::Paused(_), State::Active(_)) => true,
        (State::Active(_), State::Migrating(_)) => true,
        (State::Migrating(_), State::Active(_)) => true,
        (State::Active(_), State::Terminated(_)) => true,
        (State::Paused(_), State::Terminated(_)) => true,
        (State::Migrating(_), State::Terminated(_)) => true,
        _ => false,
    }
}

/// Active, Paused or Migrating.
pub open spec fn is_initialized_state<T>(s: State<T>) -> bool {
    s is Active || s is Paused || s is Migrating
}

impl<T> State<T> {
    /// The data that every state but Uninitialized carries.
    pub open spec fn data(&self) -> Option<T> {
        match *self {
            State::Uninitialized => None,
            State::Active(t) => Some(t),
            State::Paused(t) => Some(t),
            State::Migrating(t) => Some(t),
            State::Terminated(t) => Some(t),
        }
    }

    pub fn is_uninitialized(&self) -> (r: bool)
        ensures
            r == (*self is Uninitialized),
    {
        match self {
            State::Uninitialized => true,
            _ => false,
        }
    }

    pub fn is_active(&self) -> (r: bool)
        ensures
            r == (*self is Active),
    {
        match self {
            State::Active(_) => true,
            _ => false,
        }
    }

    pub fn is_paused(&self) -> (r: bool)
        ensures
            r == (*self is Paused),
    {
        match self {
            State::Paused(_) => true,
            _ => false,
        }
    }

    pub fn is_migrating(&self) -> (r: bool)
        ensures
            r == (*self is Migrating),
    {
        match self {
            State::Migrating(_) => true,
            _ => false,
        }
    }

    pub fn is_terminated(&self) -> (r: bool)
        ensures
            r == (*self is Terminated),
    {
        match self {
            State::Terminated(_) => true,
            _ => false,
        }
    }

    pub fn get_data(&self) -> (r: Option<&T>)
        ensures
            r matches Some(t) ==> self.data() == Some(*t),
            r is None <==> self.data() is None,
    {
        match self {
            State::Uninitialized => None,
            State::Active(t) => Some(t),
            State::Paused(t) => Some(t),
            State::Migrating(t) => Some(t),
            State::Terminated(t) => Some(t),
        }
    }
}

/// Whether the lifecycle allows moving from `from` to `to`.
pub fn can_transition<T>(from: &State<T>, to: &State<T>) -> (r: bool)
    ensures
        r == transition_allowed(*from, *to),
{
    match (from, to) {
        (State::Uninitialized, State::Active(_)) => true,
        (State::Active(_), State::Paused(_)) => true,
        (State::Paused(_), State::Active(_)) => true,
        (State::Active(_), State::Migrating(_)) => true,
        (State::Migrating(_), State::Active(_)) => true,
        (State::Active(_), State::Terminated(_)) => true,
        (State::Paused(_), State::Terminated(_)) => true,
        (State::Migrating(_), State::Terminated(_)) => true,
        _ => false,
    }
}

/// Guard for operations that need the contract Active.
pub fn require_active<T>(s: &State<T>) -> (r: Result<(), StateError>)
    ensures
        r is Ok <==> *s is Active,
        *s is Uninitialized ==> r == Err::<(), StateError>(StateError::NotInitialized),
        (*s is Paused || *s is Migrating || *s is Terminated) ==> r == Err::<(), StateError>(
            StateError::InvalidState,
        ),
{
    match s {
        State::Active(_) => Ok(()),
        State::Uninitialized => Err(StateError::NotInitialized),
        _ => Err(StateError::InvalidState),
    }
}

/// Guard for operations that need the contract Active, Paused or Migrating.
pub fn require_initialized<T>(s: &State<T>) -> (r: Result<(), StateError>)
    ensures
        r is Ok <==> is_initialized_state(*s),
        *s is Uninitialized ==> r == Err::<(), StateError>(StateError::NotInitialized),
        *s is Terminated ==> r == Err::<(), StateError>(StateError::InvalidState),
{
    match s {
        State::Uninitialized => Err(StateError::NotInitialized),
        State::Terminated(_) => Err(StateError::InvalidState),
        _ => Ok(()),
    }
}

/// Moves `current` to `next` when the lifecycle allows it; otherwise leaves it.
pub fn transition_to<T>(current: &mut State<T>, next: State<T>) -> (r: Result<(), StateError>)
    ensures
        r is Ok <==> transition_allowed(*old(current), next),
        r is Ok ==> *final(current) == next,
        r is Err ==> *final(current) == *old(current),
        r is Err ==> r == Err::<(), StateError>(StateError::InvalidState),
{
    if can_transition(current, &next) {
        *current = next;
        Ok(())
    } else {
        Err(StateError::InvalidState)
    }
}

/// A terminated contract stays terminated: no transition leaves it.
pub proof fn terminated_is_final<T>(data: T, to: State<T>)
    ensures
        !transition_allowed(State::Terminated(data), to),
{
}

/// Only Uninitialized may move into Active by initialization; once initialized,
/// the lifecycle never returns to Uninitialized.
pub proof fn no_return_to_uninitialized<T>(from: State<T>)
    ensures
        !transition_allowed(from, State::Uninitialized),
{
}

} // verus!
