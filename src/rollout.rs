//! Waiting for an app to serve its newest version.
use vstd::prelude::*;

verus! {

/// Whether a wait that began `elapsed_secs` seconds ago, with a budget of
/// `budget_secs`, has run out.
pub fn wait_expired(elapsed_secs: u64, budget_secs: u64) -> (r: bool)
    ensures
        r == (elapsed_secs > budget_secs),
{
    elapsed_secs > budget_secs
}

/// Whether a response shows the app at version `latest`: it succeeded and
/// its version header names `latest`.
pub fn serves_version(success: bool, version_header: Option<&str>, latest: &str) -> (r: bool)
    ensures
        r == (success && version_header is Some && version_header->0@ == latest@),
{
    if !success {
        return false;
    }
    match version_header {
        Some(v) => same_text(v, latest),
        None => false,
    }
}

/// Whether `a` and `b` hold the same characters.
fn same_text(a: &str, b: &str) -> (r: bool)
    ensures
        r == (a@ == b@),
{
    let n = a.unicode_len();
    if n != b.unicode_len() {
        return false;
    }
    let mut i: usize = 0;
    while i < n
        invariant
            n == a@.len(),
            n == b@.len(),
            i <= n,
            forall|k: int| 0 <= k < i ==> a@[k] == b@[k],
        decreases n - i,
    {
        if a.get_char(i) != b.get_char(i) {
            return false;
        }
        i = i + 1;
    }
    assert(a@ =~= b@);
    true
}

/// Longest wait, in seconds, for an app to serve its newest version.
pub const ROLLOUT_BUDGET_SECS: u64 = 240;

/// What to do next while waiting for an app to serve its newest version.
#[derive(Clone, Copy, Debug, PartialEq, Eq, Structural)]
pub enum RolloutStep {
    /// Send a request to the app.
    Probe,
    /// The app answered with an older version or an error: pause, then
    /// decide again.
    Pause,
    /// The app serves the newest version: the wait is over.
    Serving,
    /// The budget ran out before the app served the newest version.
    Expired,
}

/// One decision of the wait. Before a request (`response` is `None`), the
/// wait expires once `elapsed_secs` exceeds `budget_secs`, else a request is
/// sent. After a request (`response` holds whether it succeeded and its
/// version header), the wait is over if the app serves `latest`, else it
/// pauses.
pub fn rollout_step(
    elapsed_secs: u64,
    budget_secs: u64,
    response: Option<(bool, Option<&str>)>,
    latest: &str,
) -> (r: RolloutStep)
    ensures
        r == match response {
            None => if elapsed_secs > budget_secs {
                RolloutStep::Expired
            } else {
                RolloutStep::Probe
            },
            Some((success, header)) => if success && header is Some && header->0@ == latest@ {
                RolloutStep::Serving
            } else {
                RolloutStep::Pause
            },
        },
{
    match response {
        None => if wait_expired(elapsed_secs, budget_secs) {
            RolloutStep::Expired
        } else {
            RolloutStep::Probe
        },
        Some((success, header)) => if serves_version(success, header, latest) {
            RolloutStep::Serving
        } else {
            RolloutStep::Pause
        },
    }
}

} // verus!
