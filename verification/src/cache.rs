//! Answers of the node that are kept for a while.
use crate::time::{seconds, Timestamp};
use vstd::prelude::*;

verus! {

/// How long an answer is kept, in seconds: a day.
pub const CACHE_LIFETIME: i64 = 86_400;

/// An answer, and when it was given; nothing before the first.
#[derive(Debug)]
pub struct Cached<T> {
    pub entry: Option<(Timestamp, T)>,
}

/// The answer that still holds at `now`.
pub open spec fn fresh_value<T>(cache: Cached<T>, now: int) -> Option<T> {
    match cache.entry {
        Some((updated_at, value)) => if now - updated_at@ > seconds(CACHE_LIFETIME as int) {
            None
        } else {
            Some(value)
        },
        None => None,
    }
}

impl<T> Cached<T> {
    /// A cache without an answer.
    pub fn new() -> (r: Cached<T>)
        ensures
            r.entry is None,
    {
        Cached { entry: None }
    }

    /// The answer that still holds at `now`; nothing where a new one is needed.
    pub fn fresh(&self, now: &Timestamp) -> (r: Option<&T>)
        ensures
            match fresh_value(*self, now@) {
                Some(value) => r == Some(&value),
                None => r is None,
            },
    {
        match &self.entry {
            Some((updated_at, value)) => if now.is_later_by_more_than(
                updated_at,
                CACHE_LIFETIME,
            ) {
                None
            } else {
                Some(value)
            },
            None => None,
        }
    }

    /// Takes the outcome of asking anew, at `now`: an answer is kept and given
    /// back, a failure leaves the cache as it is and is given back.
    pub fn refresh<E>(&mut self, now: Timestamp, outcome: Result<T, E>) -> (r: Result<&T, E>)
        ensures
            match outcome {
                Ok(value) => r matches Ok(kept) && *kept == value && final(self).entry == Some(
                    (now, value),
                ),
                Err(e) => r == Err::<&T, E>(e) && *final(self) == *old(self),
            },
    {
        match outcome {
            Ok(value) => {
                self.entry = Some((now, value));
                Ok(&self.entry.as_ref().unwrap().1)
            },
            Err(e) => Err(e),
        }
    }
}

/// An answer that was kept is given back for a day, and not for longer.
pub proof fn law_answers_are_kept_for_a_day<T>(cache: Cached<T>, at: Timestamp, value: T, now: int)
    requires
        cache.entry == Some((at, value)),
    ensures
        now - at@ <= seconds(CACHE_LIFETIME as int) ==> fresh_value(cache, now) == Some(value),
        now - at@ > seconds(CACHE_LIFETIME as int) ==> fresh_value(cache, now) is None,
{
}

/// A cache without an answer gives none. One with an answer gives that answer, and
/// no other, until 86,400 seconds after it was given, to the nanosecond.
pub proof fn law_answers_age<T>(cache: Cached<T>, now: int)
    ensures
        cache.entry is None ==> fresh_value(cache, now) is None,
        cache.entry matches Some((at, value)) ==> (fresh_value(cache, now) == Some(value) <==> now
            <= at@ + 86_400_000_000_000) && (fresh_value(cache, now) is None <==> now > at@
            + 86_400_000_000_000),
{
}

} // verus!
