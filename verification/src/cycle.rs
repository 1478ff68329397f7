//! The per-cycle decisions of the transport loop. Each cycle either has a
//! fresh snapshot or finds the source unavailable; this module decides what
//! to send, what the next baseline is, and when the presence transition is
//! announced — the surrounding loop only performs the resulting I/O.

use vstd::prelude::*;

use crate::vehicle::VehicleState;
use crate::vehicle::compare_vehicle_states;
use crate::vehicle::diff_bytes;

verus! {

/// Whether the external snapshot source was reachable last time: undecided
/// before the first cycle, then absent or present.
#[derive(Clone, Copy, PartialEq, Eq, Structural, Debug)]
pub enum Presence {
    Unknown,
    Absent,
    Present,
}

/// What one cycle decided: the baseline the next cycle diffs against, the
/// source's presence after this cycle, the bytes to write (none when empty),
/// and whether the presence changed and is announced once, edge-triggered.
pub struct CycleOutcome {
    pub baseline: VehicleState,
    pub presence: Presence,
    pub command_buffer: Vec<u8>,
    pub presence_changed: bool,
}

/// One cycle's decisions, given the previous baseline, the presence after
/// the previous cycle, and this cycle's snapshot if the source delivered
/// one. Without a snapshot nothing is written and the baseline stays; with
/// one, the diff against the previous baseline is written and the snapshot
/// becomes the baseline, whether or not any bytes are sent. A presence
/// transition is reported only on the cycle it happens.
pub fn cycle_step(prev: VehicleState, presence: Presence, snapshot: Option<VehicleState>) -> (o: CycleOutcome)
    ensures
        match snapshot {
            Option::None => o.baseline == prev && o.presence == Presence::Absent
                && o.command_buffer@ == Seq::<u8>::empty()
                && o.presence_changed == (presence != Presence::Absent),
            Option::Some(s) => o.baseline == s && o.presence == Presence::Present
                && o.command_buffer@ == diff_bytes(prev, s, false)
                && o.presence_changed == (presence != Presence::Present),
        },
{
    match snapshot {
        Option::None => CycleOutcome {
            baseline: prev,
            presence: Presence::Absent,
            command_buffer: Vec::new(),
            presence_changed: presence != Presence::Absent,
        },
        Option::Some(s) => {
            let command_buffer = compare_vehicle_states(&prev, &s, false);
            CycleOutcome {
                baseline: s,
                presence: Presence::Present,
                command_buffer,
                presence_changed: presence != Presence::Present,
            }
        },
    }
}

} // verus!
