//! How a script of calls to a driver is run: one call after the other, and
//! no call after one that failed.

use vstd::prelude::*;

verus! {

/// What to do next while a script is run.
#[derive(Clone, Copy, Debug, PartialEq, Eq, Structural)]
pub enum ScriptStep {
    /// Make the call at this place.
    Call(usize),
    /// Close the session that is open, then report the failure.
    CloseThenReport,
    /// Report the failure; no session is open.
    Report,
    /// Every call was made and succeeded.
    Finished,
}

/// How a script of so many calls begins.
pub open spec fn first_step(len: nat) -> ScriptStep {
    if len > 0 {
        ScriptStep::Call(0)
    } else {
        ScriptStep::Finished
    }
}

/// What follows the call at a place: after a success the next call, or the
/// end after the last; after a failure no call, only the report, with the
/// session closed before it where one is open.
pub open spec fn step_after(len: nat, at: int, succeeded: bool, session_open: bool) -> ScriptStep {
    if succeeded {
        if at + 1 < len {
            ScriptStep::Call((at + 1) as usize)
        } else {
            ScriptStep::Finished
        }
    } else if session_open {
        ScriptStep::CloseThenReport
    } else {
        ScriptStep::Report
    }
}

/// Where a script stands after `n` moves, when `results` says of each call
/// whether it succeeds and `open_at` whether a session is open while it is
/// made. Once the script has ended it stays where it ended.
pub open spec fn position(open_at: Seq<bool>, results: Seq<bool>, n: nat) -> ScriptStep
    decreases n,
{
    if n == 0 {
        first_step(open_at.len())
    } else {
        match position(open_at, results, (n - 1) as nat) {
            ScriptStep::Call(at) => step_after(
                open_at.len(),
                at as int,
                results[at as int],
                open_at[at as int],
            ),
            ended => ended,
        }
    }
}

/// How a script of so many calls begins.
pub fn begin_script(len: usize) -> (step: ScriptStep)
    ensures
        step == first_step(len as nat),
{
    if len > 0 {
        ScriptStep::Call(0)
    } else {
        ScriptStep::Finished
    }
}

/// What follows the call at a place of a script of so many calls.
pub fn after_call(len: usize, at: usize, succeeded: bool, session_open: bool) -> (step: ScriptStep)
    requires
        at < len,
    ensures
        step == step_after(len as nat, at as int, succeeded, session_open),
{
    if succeeded {
        if at + 1 < len {
            ScriptStep::Call(at + 1)
        } else {
            ScriptStep::Finished
        }
    } else if session_open {
        ScriptStep::CloseThenReport
    } else {
        ScriptStep::Report
    }
}

/// A call is made only in its turn, and only when every call before it
/// succeeded: after `n` moves the script makes call number `n`, or has ended.
pub proof fn law_call_follows_successes(open_at: Seq<bool>, results: Seq<bool>, n: nat)
    requires
        results.len() == open_at.len(),
        open_at.len() <= usize::MAX,
    ensures
        position(open_at, results, n) matches ScriptStep::Call(at) ==> at == n && at < open_at.len()
            && forall|j: int| 0 <= j < at ==> results[j],
    decreases n,
{
    if n > 0 {
        law_call_follows_successes(open_at, results, (n - 1) as nat);
    }
}

/// After a call that failed no call is made, however long the script is
/// run on.
pub proof fn law_nothing_follows_a_failure(
    open_at: Seq<bool>,
    results: Seq<bool>,
    failed: int,
    n: nat,
)
    requires
        results.len() == open_at.len(),
        open_at.len() <= usize::MAX,
        0 <= failed < results.len(),
        !results[failed],
        n > failed,
    ensures
        !(position(open_at, results, n) is Call),
{
    law_call_follows_successes(open_at, results, n);
}

/// A script whose calls all succeed makes each of them and then ends.
pub proof fn law_successes_finish_the_script(open_at: Seq<bool>, results: Seq<bool>, n: nat)
    requires
        results.len() == open_at.len(),
        open_at.len() <= usize::MAX,
        forall|j: int| 0 <= j < results.len() ==> results[j],
    ensures
        n < open_at.len() ==> position(open_at, results, n) == ScriptStep::Call(n as usize),
        n >= open_at.len() ==> position(open_at, results, n) == ScriptStep::Finished,
    decreases n,
{
    if n > 0 {
        law_successes_finish_the_script(open_at, results, (n - 1) as nat);
    }
}

/// A script that fails at a call reports the failure right after it, having
/// closed the session exactly where one was open, and stays there.
pub proof fn law_failure_is_reported(open_at: Seq<bool>, results: Seq<bool>, failed: int, n: nat)
    requires
        results.len() == open_at.len(),
        open_at.len() <= usize::MAX,
        0 <= failed < results.len(),
        !results[failed],
        forall|j: int| 0 <= j < failed ==> results[j],
        n > failed,
    ensures
        position(open_at, results, n) == if open_at[failed] {
            ScriptStep::CloseThenReport
        } else {
            ScriptStep::Report
        },
    decreases n,
{
    lemma_successes_reach(open_at, results, failed as nat);
    if n > failed + 1 {
        law_failure_is_reported(open_at, results, failed, (n - 1) as nat);
    }
}

/// A script reaches a call when every call before it succeeds.
pub proof fn lemma_successes_reach(open_at: Seq<bool>, results: Seq<bool>, n: nat)
    requires
        results.len() == open_at.len(),
        open_at.len() <= usize::MAX,
        n < open_at.len(),
        forall|j: int| 0 <= j < n ==> results[j],
    ensures
        position(open_at, results, n) == ScriptStep::Call(n as usize),
    decreases n,
{
    if n > 0 {
        lemma_successes_reach(open_at, results, (n - 1) as nat);
    }
}

} // verus!
