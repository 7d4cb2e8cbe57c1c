//! The bounded-polling primitive and the capability ports the manager is
//! constructed with.

use vstd::prelude::*;

verus! {

/// A source of time and of bounded pauses.
///
/// Supplied at construction so the polling logic stays free of any direct
/// tie to the machine clock; a deterministic impl can drive it in a test.
/// No contract is stated: the wait logic must hold up under any clock.
pub trait Clock {
    /// The current time, in microseconds from an arbitrary fixed origin.
    fn now_micros(&self) -> u64;

    /// Pauses the calling thread for about the given number of microseconds.
    fn sleep_micros(&self, micros: u64);
}

/// A user-facing surface for failures that no programmatic consumer can
/// receive any more. Supplied at construction, so the core needs no display
/// of its own.
pub trait ErrorReporter {
    /// Shows the pair to a human; best effort, no result.
    fn report(&self, title: &str, message: &str);
}

/// Bounded polling: evaluates `what` until it holds or the deadline passes,
/// sleeping the rest of the check period between attempts.
///
/// The predicate is always evaluated at least once, and is evaluated before
/// the deadline is looked at, so a predicate that holds at the first check
/// succeeds even with a zero timeout. `None` stands for no deadline. When an
/// evaluation alone exceeded the check period, the next one follows with no
/// sleep. The loop carries an explicit bound on the number of checks, two
/// more than the timeout holds periods, so that it terminates even under a
/// clock that stands still; under a running clock the deadline is reached
/// first.
pub fn wait_for<F: Fn() -> bool, C: Clock>(
    what: F,
    clock: &C,
    timeout_micros: Option<u64>,
    check_period_micros: u64,
) -> (r: bool)
    requires
        call_requires(what, ()),
    ensures
        r ==> call_ensures(what, (), true),
        !r ==> call_ensures(what, (), false),
{
    let timeout: u64 = match timeout_micros {
        Some(t) => t,
        None => u64::MAX,
    };
    let now = clock.now_micros();
    let deadline: u64 = if now > u64::MAX - timeout {
        u64::MAX
    } else {
        now + timeout
    };
    let periods: u64 = if check_period_micros == 0 {
        timeout
    } else {
        timeout / check_period_micros
    };
    let max_checks: u64 = if periods > u64::MAX - 2 {
        u64::MAX
    } else {
        periods + 2
    };
    let mut checks: u64 = 0;
    loop
        invariant
            call_requires(what, ()),
            checks < max_checks,
        decreases max_checks - checks,
    {
        let start_check = clock.now_micros();
        if what() {
            return true;
        }
        let end_check = clock.now_micros();
        if end_check > deadline {
            return false;
        }
        checks = checks + 1;
        if checks == max_checks {
            return false;
        }
        let check_time: u64 = if end_check >= start_check {
            end_check - start_check
        } else {
            0
        };
        if check_time < check_period_micros {
            clock.sleep_micros(check_period_micros - check_time);
        }
    }
}

/// Law: under a predicate that can only ever yield `true` — no competing
/// holder exists, say, so the holder count check cannot come out false —
/// any result that `wait_for`'s contract admits is `true`: the wait
/// succeeds at the first check and no timeout is incurred.
pub proof fn lemma_wait_for_certain_predicate<F: Fn() -> bool>(what: F, r: bool)
    requires
        forall|b: bool| call_ensures(what, (), b) ==> b,
        r ==> call_ensures(what, (), true),
        !r ==> call_ensures(what, (), false),
    ensures
        r,
{
    if !r {
        assert(call_ensures(what, (), false));
        assert(false);
    }
}

} // verus!
