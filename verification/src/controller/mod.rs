//! The controllers of Deployments and HelmReleases: what they decide.

pub mod deployment;
pub mod helm;

use vstd::prelude::*;

verus! {

/// The longest pause, in seconds, before a stopped controller starts again.
pub const MAX_RESTART_BACKOFF: u64 = 60;

/// The pause before the next restart of a controller whose watch stream
/// ended after a pause of `seconds`: twice as long, at most a minute.
pub fn next_restart_backoff(seconds: u64) -> (r: u64)
    ensures
        r == if 2 * seconds <= MAX_RESTART_BACKOFF {
            2 * seconds
        } else {
            MAX_RESTART_BACKOFF as int
        },
{
    if seconds <= MAX_RESTART_BACKOFF / 2 {
        seconds * 2
    } else {
        MAX_RESTART_BACKOFF
    }
}

} // verus!
