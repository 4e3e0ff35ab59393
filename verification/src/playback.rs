//! The playback engine's plan: a finalized recording log, turned into the
//! exact sequence of waits and raw sends that reproduces the original
//! message stream byte for byte and with its original pacing. No event
//! interpretation happens here — bytes are replayed verbatim, including
//! control messages that were never exposed as structured events.
//!
//! The caller that owns the output device walks the plan in order,
//! suspending for each wait and writing each send to the device, then
//! closes the device.

use vstd::prelude::*;
use crate::recording::Recording;

verus! {

/// How long to keep the output device open after the last message, in
/// nanoseconds.
pub const TRAILING_DELAY_NANOS: u64 = 150_000_000;

/// One step of a replay: suspend for a number of nanoseconds, or write
/// raw bytes to the output device.
#[derive(Clone, Debug, PartialEq)]
pub enum PlayStep {
    Wait(u64),
    Send(Vec<u8>),
}

/// Turn a finalized log into its replay plan: for each entry, in log
/// order, a wait of exactly the recorded gap followed by a send of
/// exactly the recorded bytes; after the last entry, one trailing wait.
pub fn replay_plan(log: &Recording) -> (plan: Vec<PlayStep>)
    requires
        2 * log@.len() < usize::MAX,
    ensures
        plan@.len() == 2 * log@.len() + 1,
        forall|i: int|
            0 <= i < log@.len() ==> (#[trigger] plan@[2 * i]) == PlayStep::Wait(log@[i].0),
        forall|i: int|
            0 <= i < log@.len() ==> ((#[trigger] plan@[2 * i + 1]) matches PlayStep::Send(m)
                && m@ == log@[i].1),
        plan@[2 * log@.len() as int] == PlayStep::Wait(TRAILING_DELAY_NANOS),
{
    let mut plan: Vec<PlayStep> = Vec::new();
    let n = log.recording.len();
    let mut i: usize = 0;
    while i < n
        invariant
            n == log@.len(),
            2 * n < usize::MAX,
            i <= n,
            plan@.len() == 2 * i,
            forall|j: int|
                0 <= j < i ==> (#[trigger] plan@[2 * j]) == PlayStep::Wait(log@[j].0),
            forall|j: int|
                0 <= j < i ==> ((#[trigger] plan@[2 * j + 1]) matches PlayStep::Send(m)
                    && m@ == log@[j].1),
        decreases n - i,
    {
        let gap = log.recording[i].0;
        let message = &log.recording[i].1;
        let mut bytes: Vec<u8> = Vec::new();
        let mut j: usize = 0;
        while j < message.len()
            invariant
                j <= message@.len(),
                bytes@ == message@.take(j as int),
            decreases message@.len() - j,
        {
            bytes.push(message[j]);
            j += 1;
            proof {
                assert(bytes@ =~= message@.take(j as int));
            }
        }
        proof {
            assert(bytes@ =~= message@);
        }
        plan.push(PlayStep::Wait(gap));
        plan.push(PlayStep::Send(bytes));
        i += 1;
    }
    plan.push(PlayStep::Wait(TRAILING_DELAY_NANOS));
    plan
}

} // verus!
