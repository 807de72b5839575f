//! The life of one asynchronous query: loading, then a value or an error,
//! and loading again when the query is restarted.

use vstd::prelude::*;

verus! {

/// State of an asynchronous query for a `T`.
#[derive(Copy, Debug, PartialEq, Eq)]
pub enum AsyncResult<T, E> {
    /// The query runs and has not answered.
    Loading,
    /// The query answered with a value.
    Loaded(T),
    /// The query failed.
    Error(E),
}

impl<T: Clone, E: Clone> Clone for AsyncResult<T, E> {
    fn clone(&self) -> (copy: AsyncResult<T, E>)
        ensures
            *self is Loading <==> copy is Loading,
            *self is Loaded <==> copy is Loaded,
            *self is Error <==> copy is Error,
    {
        match self {
            AsyncResult::Loading => AsyncResult::Loading,
            AsyncResult::Loaded(value) => AsyncResult::Loaded(value.clone()),
            AsyncResult::Error(error) => AsyncResult::Error(error.clone()),
        }
    }
}

impl<T, E> AsyncResult<T, E> {
    /// The state after the query answered with `outcome`. Only a loading
    /// query takes an answer, so that each run is answered once.
    pub open spec fn resolved(self, outcome: Result<T, E>) -> AsyncResult<T, E> {
        match self {
            AsyncResult::Loading => match outcome {
                Ok(value) => AsyncResult::Loaded(value),
                Err(error) => AsyncResult::Error(error),
            },
            _ => self,
        }
    }

    /// The value, where the query answered with one.
    pub open spec fn value(self) -> Option<T> {
        match self {
            AsyncResult::Loaded(value) => Some(value),
            _ => None,
        }
    }

    /// A query that was just started.
    pub fn start() -> (query: AsyncResult<T, E>)
        ensures
            query is Loading,
    {
        AsyncResult::Loading
    }

    /// Folds the answer of the running query into the state. Returns whether
    /// the answer was taken: a second answer to one run is dropped.
    pub fn resolve(&mut self, outcome: Result<T, E>) -> (taken: bool)
        ensures
            *final(self) == old(self).resolved(outcome),
            taken <==> *old(self) is Loading,
            taken ==> !(*final(self) is Loading),
            !taken ==> *final(self) == *old(self),
    {
        match self {
            AsyncResult::Loading => {
                match outcome {
                    Ok(value) => {
                        *self = AsyncResult::Loaded(value);
                    },
                    Err(error) => {
                        *self = AsyncResult::Error(error);
                    },
                }
                true
            },
            _ => false,
        }
    }

    /// Runs the query anew: whatever it held, it is loading again.
    pub fn restart(&mut self)
        ensures
            *final(self) is Loading,
    {
        *self = AsyncResult::Loading;
    }

    pub fn is_loading(&self) -> (loading: bool)
        ensures
            loading <==> *self is Loading,
    {
        match self {
            AsyncResult::Loading => true,
            _ => false,
        }
    }

    /// The value, where the query answered with one.
    pub fn get(&self) -> (value: Option<&T>)
        ensures
            match value {
                Some(v) => self.value() == Some(*v),
                None => self.value() is None,
            },
    {
        match self {
            AsyncResult::Loaded(value) => Some(value),
            _ => None,
        }
    }
}

/// One run of a query is answered once: after the first answer is folded
/// in, a second changes nothing, and a restart makes the query loading again
/// whatever it held.
pub proof fn law_answered_once<T, E>(first: Result<T, E>, second: Result<T, E>)
    ensures
        ({
            let once = AsyncResult::<T, E>::Loading.resolved(first);
            &&& !(once is Loading)
            &&& (once is Loaded) != (once is Error)
            &&& first matches Ok(value) ==> once == AsyncResult::<T, E>::Loaded(value)
            &&& first matches Err(error) ==> once == AsyncResult::<T, E>::Error(error)
            &&& once.resolved(second) == once
        }),
{
}

} // verus!
