use vstd::prelude::*;

verus! {

/// Where a run of the program stands.
#[derive(Clone, Copy, Debug, PartialEq, Eq, Structural)]
pub enum Stage {
    /// Checking the country code against the recognized ones.
    Validate,
    /// Resetting the cache if it belongs to another day.
    Reset,
    /// Looking for today's entry for the country.
    Lookup,
    /// Asking the holiday service.
    Fetch,
    /// Storing what the service answered.
    Write,
    /// Showing the upcoming holidays.
    Present,
    /// The run is over, with this exit code.
    Done(i32),
}

/// What the work of a stage came to.
#[derive(Clone, Copy, Debug, PartialEq, Eq, Structural)]
pub enum Event {
    /// Whether the country code was recognized.
    Validated(bool),
    /// Whether the reset, when one was due, was written.
    ResetDone(bool),
    /// Whether the cache held today's entry for the country.
    LookedUp(bool),
    /// Whether the service answered with holidays.
    Fetched(bool),
    /// Whether the cache write went through.
    Written(bool),
    Presented,
}

/// The stage after `stage` once its work came to `event`. Any failure ends
/// the run with exit code 1; so does an event that does not belong to the
/// stage. A finished run stays finished.
pub open spec fn next_stage(stage: Stage, event: Event) -> Stage {
    match (stage, event) {
        (Stage::Done(c), _) => Stage::Done(c),
        (Stage::Validate, Event::Validated(ok)) => if ok {
            Stage::Reset
        } else {
            Stage::Done(1)
        },
        (Stage::Reset, Event::ResetDone(ok)) => if ok {
            Stage::Lookup
        } else {
            Stage::Done(1)
        },
        (Stage::Lookup, Event::LookedUp(hit)) => if hit {
            Stage::Present
        } else {
            Stage::Fetch
        },
        (Stage::Fetch, Event::Fetched(ok)) => if ok {
            Stage::Write
        } else {
            Stage::Done(1)
        },
        (Stage::Write, Event::Written(ok)) => if ok {
            Stage::Present
        } else {
            Stage::Done(1)
        },
        (Stage::Present, Event::Presented) => Stage::Done(0),
        _ => Stage::Done(1),
    }
}

/// Whether the work of a stage may change the persisted cache.
pub open spec fn writes_cache(stage: Stage) -> bool {
    stage == Stage::Reset || stage == Stage::Write
}

/// Decides the stage that follows `stage` once its work came to `event`.
pub fn step(stage: Stage, event: Event) -> (r: Stage)
    ensures
        r == next_stage(stage, event),
{
    match (stage, event) {
        (Stage::Done(c), _) => Stage::Done(c),
        (Stage::Validate, Event::Validated(ok)) => if ok {
            Stage::Reset
        } else {
            Stage::Done(1)
        },
        (Stage::Reset, Event::ResetDone(ok)) => if ok {
            Stage::Lookup
        } else {
            Stage::Done(1)
        },
        (Stage::Lookup, Event::LookedUp(hit)) => if hit {
            Stage::Present
        } else {
            Stage::Fetch
        },
        (Stage::Fetch, Event::Fetched(ok)) => if ok {
            Stage::Write
        } else {
            Stage::Done(1)
        },
        (Stage::Write, Event::Written(ok)) => if ok {
            Stage::Present
        } else {
            Stage::Done(1)
        },
        (Stage::Present, Event::Presented) => Stage::Done(0),
        _ => Stage::Done(1),
    }
}

/// A run whose country code is not recognized ends with exit code 1 at once,
/// before any stage that may change the cache, and stays ended whatever
/// follows.
pub proof fn lemma_unknown_code_exits(later: Event)
    ensures
        next_stage(Stage::Validate, Event::Validated(false)) == Stage::Done(1),
        !writes_cache(next_stage(Stage::Validate, Event::Validated(false))),
        next_stage(next_stage(Stage::Validate, Event::Validated(false)), later) == Stage::Done(1),
{
}

/// A run with a recognized country code goes through the cache reset before
/// it looks the cache up, and looks it up only once the reset went through.
pub proof fn lemma_reset_precedes_lookup(reset_ok: bool)
    ensures
        next_stage(Stage::Validate, Event::Validated(true)) == Stage::Reset,
        next_stage(Stage::Reset, Event::ResetDone(reset_ok)) == if reset_ok {
            Stage::Lookup
        } else {
            Stage::Done(1)
        },
{
}

} // verus!
