//! Heartbeat emitter: a background task that wakes on a fixed interval
//! and pushes a liveness event to the main window. The decision taken
//! at each wake-up is here; the task loop and its sleep live with the
//! shell. A tick with no window is skipped silently and the loop goes
//! on; it never stops on a missed emission.

use vstd::prelude::*;

verus! {

/// Seconds between two heartbeat ticks.
pub const HEARTBEAT_INTERVAL_SECS: u64 = 2;

/// Payload of one `longRunningThread` event.
#[derive(Clone, Debug)]
pub struct HeartbeatMessage {
    pub message: String,
}

#[verifier::ext_equal]
pub ghost struct HeartbeatMessageView {
    pub message: Seq<char>,
}

impl View for HeartbeatMessage {
    type V = HeartbeatMessageView;

    open spec fn view(&self) -> HeartbeatMessageView {
        HeartbeatMessageView { message: self.message@ }
    }
}

/// What one tick emits, given whether the main window existed at the
/// tick: the fixed liveness message exactly when it did.
pub open spec fn spec_heartbeat_tick(window_exists: bool) -> Option<HeartbeatMessageView> {
    if window_exists {
        Some(HeartbeatMessageView { message: "LRT Message"@ })
    } else {
        None
    }
}

/// Decides one heartbeat tick: emit the liveness message if and only if
/// the main window exists right now.
pub fn heartbeat_tick(window_exists: bool) -> (r: Option<HeartbeatMessage>)
    ensures
        (match r {
            Some(m) => Some(m@),
            None => None,
        }) == spec_heartbeat_tick(window_exists),
{
    if window_exists {
        Some(HeartbeatMessage { message: "LRT Message".to_owned() })
    } else {
        None
    }
}

/// One scheduling step of the emitter task: a raised stop signal ends
/// the loop without emitting; otherwise the tick decides its emission
/// and the loop goes on. The task itself never raises the signal — it
/// runs for the life of the process — but a caller that owns the loop
/// can.
pub fn heartbeat_step(stop: bool, window_exists: bool) -> (r: (bool, Option<HeartbeatMessage>))
    ensures
        r.0 == !stop,
        stop ==> r.1 is None,
        !stop ==> (match r.1 {
            Some(m) => Some(m@),
            None => None,
        }) == spec_heartbeat_tick(window_exists),
{
    if stop {
        (false, None)
    } else {
        (true, heartbeat_tick(window_exists))
    }
}

/// How many events a run of ticks emits, given whether the window
/// existed at each tick.
pub open spec fn emission_count(ticks: Seq<bool>) -> nat
    decreases ticks.len(),
{
    if ticks.len() == 0 {
        0
    } else {
        emission_count(ticks.drop_last()) + if spec_heartbeat_tick(ticks.last()) is Some {
            1nat
        } else {
            0nat
        }
    }
}

/// Law (liveness half): a stretch of ticks during which the main window
/// existed at least once emits at least one event. Ticks are two
/// seconds apart, so any three-second window of continuous operation
/// contains a tick; while the window exists throughout, that tick
/// emits.
pub proof fn lemma_heartbeat_liveness(ticks: Seq<bool>)
    requires
        exists|i: int| 0 <= i < ticks.len() && ticks[i],
    ensures
        emission_count(ticks) >= 1,
    decreases ticks.len(),
{
    let i = choose|i: int| 0 <= i < ticks.len() && ticks[i];
    if i < ticks.len() - 1 {
        assert(ticks.drop_last()[i]);
        lemma_heartbeat_liveness(ticks.drop_last());
    }
}

/// Law (silence half): a stretch of ticks during which the main window
/// never existed emits nothing.
pub proof fn lemma_heartbeat_silence(ticks: Seq<bool>)
    requires
        forall|i: int| 0 <= i < ticks.len() ==> !ticks[i],
    ensures
        emission_count(ticks) == 0,
    decreases ticks.len(),
{
    if ticks.len() > 0 {
        assert(forall|i: int| 0 <= i < ticks.drop_last().len() ==> !ticks.drop_last()[i]);
        lemma_heartbeat_silence(ticks.drop_last());
        assert(!ticks.last());
    }
}

} // verus!
