//! The event bridge: a bounded FIFO of typed events shared between the
//! external producer and the per-frame consumer, with a drop-oldest overflow
//! policy and a side table for the latest permission status.

use vstd::prelude::*;

use std::collections::VecDeque;

use crate::tilt::{InputSource, TiltInput};

verus! {

/// How many events the bridge holds at most: about two seconds of samples at
/// 60 Hz.
pub const BRIDGE_CAPACITY: usize = 120;

/// One raw orientation sample, angles in millidegrees, timestamp in
/// monotonic milliseconds.
#[derive(Debug, Clone, Copy, PartialEq, Eq, Structural)]
pub struct DeviceOrientationData {
    /// Z-axis rotation (compass heading).
    pub alpha: i32,
    /// X-axis rotation (front-to-back tilt).
    pub beta: i32,
    /// Y-axis rotation (left-to-right tilt).
    pub gamma: i32,
    /// When the sample was taken, milliseconds.
    pub timestamp: u64,
}

/// The sensor-permission state as last reported by the platform;
/// last-writer-wins.
#[derive(Debug, Clone, Copy, PartialEq, Eq, Structural)]
pub struct PermissionStatus {
    pub granted: bool,
    pub requested: bool,
    pub available: bool,
}

impl Default for PermissionStatus {
    /// Nothing granted, requested or available until the platform says so.
    fn default() -> (r: PermissionStatus)
        ensures
            r == (PermissionStatus { granted: false, requested: false, available: false }),
    {
        PermissionStatus { granted: false, requested: false, available: false }
    }
}

/// One event carried across the bridge; created by the producer, consumed by
/// the per-frame drain.
#[derive(Debug, Clone)]
pub enum BridgeEvent {
    DeviceOrientation(DeviceOrientationData),
    PermissionStatusChanged(PermissionStatus),
    GameStateRequest { state: String },
    GameStateResponse { state: String, data: String },
}

/// The bounded event queue plus the last-known permission status.
pub struct EventBridge {
    event_queue: VecDeque<BridgeEvent>,
    permission_status: PermissionStatus,
}

/// What one push leaves in a queue that respects the capacity: the event goes
/// to the tail, and when the queue is full the head is evicted first.
pub open spec fn push_result(q: Seq<BridgeEvent>, event: BridgeEvent) -> Seq<BridgeEvent> {
    if q.len() < BRIDGE_CAPACITY {
        q.push(event)
    } else {
        q.skip(1).push(event)
    }
}

/// The events a bridge retains out of a whole push history: the most recent
/// `BRIDGE_CAPACITY` of them, in their original order.
pub open spec fn retained(history: Seq<BridgeEvent>) -> Seq<BridgeEvent> {
    if history.len() <= BRIDGE_CAPACITY {
        history
    } else {
        history.skip(history.len() - (BRIDGE_CAPACITY as int))
    }
}

impl EventBridge {
    /// The queue's contents, oldest first.
    pub closed spec fn queue(&self) -> Seq<BridgeEvent> {
        self.event_queue@
    }

    /// The last permission status stored.
    pub closed spec fn permission(&self) -> PermissionStatus {
        self.permission_status
    }

    /// The invariant: the queue never exceeds the capacity.
    pub open spec fn wf(&self) -> bool {
        self.queue().len() <= BRIDGE_CAPACITY
    }

    /// An empty bridge with no permission yet granted.
    pub fn new() -> (r: EventBridge)
        ensures
            r.wf(),
            r.queue() == Seq::<BridgeEvent>::empty(),
            r.permission() == (PermissionStatus {
                granted: false,
                requested: false,
                available: false,
            }),
    {
        EventBridge {
            event_queue: VecDeque::new(),
            permission_status: PermissionStatus { granted: false, requested: false, available: false },
        }
    }

    /// Insert at the tail; when full, silently drop the oldest event first.
    /// Never blocks, never grows past the capacity, never fails.
    pub fn push_event(&mut self, event: BridgeEvent)
        requires
            old(self).wf(),
        ensures
            final(self).wf(),
            final(self).queue() == push_result(old(self).queue(), event),
            final(self).permission() == old(self).permission(),
    {
        if self.event_queue.len() >= BRIDGE_CAPACITY {
            self.event_queue.pop_front();
        }
        self.event_queue.push_back(event);
        proof {
            assert(self.queue() =~= push_result(old(self).queue(), event));
        }
    }

    /// Remove and return the oldest event, or `None` when the queue is empty
    /// (a normal steady state, not an error).
    pub fn pop_event(&mut self) -> (r: Option<BridgeEvent>)
        requires
            old(self).wf(),
        ensures
            final(self).wf(),
            final(self).permission() == old(self).permission(),
            old(self).queue().len() == 0 ==> r is None && final(self).queue() == old(self).queue(),
            old(self).queue().len() > 0 ==> r == Some(old(self).queue()[0]) && final(self).queue()
                == old(self).queue().skip(1),
    {
        let r = self.event_queue.pop_front();
        proof {
            if old(self).queue().len() > 0 {
                assert(self.queue() =~= old(self).queue().skip(1));
            }
        }
        r
    }

    /// The last stored permission status; reads the side table only, not the
    /// queue.
    pub fn get_permission_status(&self) -> (r: &PermissionStatus)
        ensures
            *r == self.permission(),
    {
        &self.permission_status
    }

    /// Overwrite the stored status and enqueue the change, so consumers
    /// observe the transition exactly once, in order with other events.
    pub fn set_permission_status(&mut self, status: PermissionStatus)
        requires
            old(self).wf(),
        ensures
            final(self).wf(),
            final(self).permission() == status,
            final(self).queue() == push_result(
                old(self).queue(),
                BridgeEvent::PermissionStatusChanged(status),
            ),
    {
        self.permission_status = status;
        self.push_event(BridgeEvent::PermissionStatusChanged(status));
    }
}

/// What the retained view holds: never more than the capacity, and exactly
/// the most recently pushed events of the history, in their original
/// relative order.
pub proof fn lemma_retained_is_most_recent(history: Seq<BridgeEvent>)
    ensures
        retained(history).len() == if history.len() <= BRIDGE_CAPACITY {
            history.len() as int
        } else {
            BRIDGE_CAPACITY as int
        },
        forall|i: int|
            0 <= i < retained(history).len() ==> retained(history)[i] == history[history.len()
                - retained(history).len() + i],
{
}

/// A bridge whose queue shows the retained view of some push history keeps
/// showing it as the history grows: one more push on the bridge matches one
/// more event in the history.
pub proof fn lemma_push_retains_latest(history: Seq<BridgeEvent>, event: BridgeEvent)
    ensures
        push_result(retained(history), event) == retained(history.push(event)),
{
    assert(push_result(retained(history), event) =~= retained(history.push(event)));
}

/// The payload of the last orientation event of `events`, or `prior` when
/// there is none.
pub open spec fn last_orientation_in(
    events: Seq<BridgeEvent>,
    prior: Option<DeviceOrientationData>,
) -> Option<DeviceOrientationData>
    decreases events.len(),
{
    if events.len() == 0 {
        prior
    } else {
        match events.last() {
            BridgeEvent::DeviceOrientation(data) => Some(data),
            _ => last_orientation_in(events.drop_last(), prior),
        }
    }
}

/// The payload of the last permission-change event of `events`, or `prior`
/// when there is none.
pub open spec fn last_permission_in(
    events: Seq<BridgeEvent>,
    prior: PermissionStatus,
) -> PermissionStatus
    decreases events.len(),
{
    if events.len() == 0 {
        prior
    } else {
        match events.last() {
            BridgeEvent::PermissionStatusChanged(status) => status,
            _ => last_permission_in(events.drop_last(), prior),
        }
    }
}

/// The consumer-side record of what has come over the bridge: the most recent
/// orientation sample and permission status, and how many events were ever
/// drained.
pub struct JsRustBridge {
    /// The last orientation sample seen, if any.
    pub last_orientation: Option<DeviceOrientationData>,
    /// The last permission status seen.
    pub permission_status: PermissionStatus,
    /// How many events have been drained; held at `u32::MAX` rather than
    /// wrapping.
    pub events_processed: u32,
}

impl Default for JsRustBridge {
    /// No events seen yet.
    fn default() -> (r: JsRustBridge)
        ensures
            r.last_orientation is None,
            r.permission_status == (PermissionStatus {
                granted: false,
                requested: false,
                available: false,
            }),
            r.events_processed == 0,
    {
        JsRustBridge {
            last_orientation: None,
            permission_status: PermissionStatus {
                granted: false,
                requested: false,
                available: false,
            },
            events_processed: 0,
        }
    }
}

impl JsRustBridge {
    /// Drain every queued event, recording the latest orientation and
    /// permission payloads, and return the events in the order they were
    /// pushed.
    pub fn process_events(&mut self, bridge: &mut EventBridge) -> (events: Vec<BridgeEvent>)
        requires
            old(bridge).wf(),
        ensures
            final(bridge).wf(),
            final(bridge).queue() == Seq::<BridgeEvent>::empty(),
            final(bridge).permission() == old(bridge).permission(),
            events@ == old(bridge).queue(),
            final(self).last_orientation == last_orientation_in(
                old(bridge).queue(),
                old(self).last_orientation,
            ),
            final(self).permission_status == last_permission_in(
                old(bridge).queue(),
                old(self).permission_status,
            ),
            final(self).events_processed as int == if old(self).events_processed + old(
                bridge,
            ).queue().len() <= u32::MAX {
                old(self).events_processed + old(bridge).queue().len()
            } else {
                u32::MAX as int
            },
    {
        let mut events: Vec<BridgeEvent> = Vec::new();
        loop
            invariant
                bridge.wf(),
                bridge.permission() == old(bridge).permission(),
                old(bridge).queue() == events@ + bridge.queue(),
                self.last_orientation == last_orientation_in(events@, old(self).last_orientation),
                self.permission_status == last_permission_in(events@, old(self).permission_status),
                self.events_processed as int == if old(self).events_processed + events@.len()
                    <= u32::MAX {
                    old(self).events_processed + events@.len()
                } else {
                    u32::MAX as int
                },
            ensures
                bridge.wf(),
                bridge.queue().len() == 0,
                bridge.permission() == old(bridge).permission(),
                old(bridge).queue() == events@ + bridge.queue(),
                self.last_orientation == last_orientation_in(events@, old(self).last_orientation),
                self.permission_status == last_permission_in(events@, old(self).permission_status),
                self.events_processed as int == if old(self).events_processed + events@.len()
                    <= u32::MAX {
                    old(self).events_processed + events@.len()
                } else {
                    u32::MAX as int
                },
            decreases bridge.queue().len(),
        {
            let ghost prev_events = events@;
            let popped = bridge.pop_event();
            match popped {
                None => {
                    break ;
                },
                Some(event) => {
                    match &event {
                        BridgeEvent::DeviceOrientation(data) => {
                            self.last_orientation = Some(*data);
                        },
                        BridgeEvent::PermissionStatusChanged(status) => {
                            self.permission_status = *status;
                        },
                        _ => {},
                    }
                    events.push(event);
                    if self.events_processed < u32::MAX {
                        self.events_processed = self.events_processed + 1;
                    }
                    proof {
                        assert(events@.drop_last() =~= prev_events);
                        assert(old(bridge).queue() =~= events@ + bridge.queue());
                    }
                },
            }
        }
        proof {
            assert(events@ =~= old(bridge).queue());
        }
        events
    }

    /// Queue a game-state reply for the producer side to read.
    pub fn send_game_state_response(&self, bridge: &mut EventBridge, state: String, data: String)
        requires
            old(bridge).wf(),
        ensures
            final(bridge).wf(),
            final(bridge).permission() == old(bridge).permission(),
            final(bridge).queue() == push_result(
                old(bridge).queue(),
                BridgeEvent::GameStateResponse { state, data },
            ),
    {
        bridge.push_event(BridgeEvent::GameStateResponse { state, data });
    }
}

/// What one drained event does to the tilt state, `granted` being the
/// consumer's latest permission: an orientation sample runs through the
/// pipeline (and, while the device is the input source, refreshes
/// `enabled`), a permission change refreshes `enabled` in that mode, and
/// game-state traffic leaves the state alone.
pub open spec fn apply_event(t: TiltInput, event: BridgeEvent, granted: bool) -> TiltInput {
    match event {
        BridgeEvent::DeviceOrientation(data) => {
            let updated = TiltInput::update_spec(t, data.alpha, data.beta, data.gamma, data.timestamp);
            if t.input_source == InputSource::Device {
                TiltInput { enabled: granted, ..updated }
            } else {
                updated
            }
        },
        BridgeEvent::PermissionStatusChanged(status) => {
            if t.input_source == InputSource::Device {
                TiltInput { enabled: status.granted, ..t }
            } else {
                t
            }
        },
        BridgeEvent::GameStateRequest { .. } => t,
        BridgeEvent::GameStateResponse { .. } => t,
    }
}

/// The tilt state after a whole drain cycle, the events folded in push
/// order.
pub open spec fn apply_events(t: TiltInput, events: Seq<BridgeEvent>, granted: bool) -> TiltInput
    decreases events.len(),
{
    if events.len() == 0 {
        t
    } else {
        apply_event(apply_events(t, events.drop_last(), granted), events.last(), granted)
    }
}

/// Folding one event in preserves the tilt invariant.
pub proof fn lemma_apply_event_wf(t: TiltInput, event: BridgeEvent, granted: bool)
    requires
        t.wf(),
    ensures
        apply_event(t, event, granted).wf(),
{
    match event {
        BridgeEvent::DeviceOrientation(data) => {
            crate::tilt::lemma_update_spec_wf(t, data.alpha, data.beta, data.gamma, data.timestamp);
        },
        _ => {},
    }
}

/// Per-frame consumer: drain the bridge through `bridge` and fold every event
/// into the tilt state, `enabled` following the latest permission while the
/// device is the input source.
pub fn process_bridge_events(
    bridge: &mut JsRustBridge,
    event_bridge: &mut EventBridge,
    tilt_input: &mut TiltInput,
)
    requires
        old(event_bridge).wf(),
        old(tilt_input).wf(),
    ensures
        final(event_bridge).wf(),
        final(event_bridge).queue().len() == 0,
        final(event_bridge).permission() == old(event_bridge).permission(),
        final(bridge).last_orientation == last_orientation_in(
            old(event_bridge).queue(),
            old(bridge).last_orientation,
        ),
        final(bridge).permission_status == last_permission_in(
            old(event_bridge).queue(),
            old(bridge).permission_status,
        ),
        final(tilt_input).wf(),
        *final(tilt_input) == apply_events(
            *old(tilt_input),
            old(event_bridge).queue(),
            last_permission_in(old(event_bridge).queue(), old(bridge).permission_status).granted,
        ),
{
    let events = bridge.process_events(event_bridge);
    let granted = bridge.permission_status.granted;
    let ghost q = events@;
    let mut i: usize = 0;
    while i < events.len()
        invariant
            tilt_input.wf(),
            i <= events.len(),
            events@ == q,
            *tilt_input == apply_events(*old(tilt_input), q.take(i as int), granted),
        decreases events.len() - i,
    {
        proof {
            assert(q.take(i + 1).drop_last() =~= q.take(i as int));
            assert(q.take(i + 1).last() == q[i as int]);
        }
        let event = &events[i];
        match event {
            BridgeEvent::DeviceOrientation(data) => {
                let from_device = tilt_input.input_source == InputSource::Device;
                tilt_input.update_orientation(data.alpha, data.beta, data.gamma, data.timestamp);
                if from_device {
                    tilt_input.set_enabled(granted);
                }
            },
            BridgeEvent::PermissionStatusChanged(status) => {
                if tilt_input.input_source == InputSource::Device {
                    tilt_input.set_enabled(status.granted);
                }
            },
            _ => {},
        }
        i = i + 1;
    }
    proof {
        assert(q.take(events@.len() as int) =~= q);
    }
}

} // verus!
