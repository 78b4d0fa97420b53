//! Device liveness monitor: tracks whether one monitored device is still
//! running, from property-change callbacks delivered by the platform.
//!
//! The monitor walks `Unregistered -> Registered -> Unregistered`; while
//! registered, each callback re-queries the "is running" property and the
//! monitor publishes the new value exactly when it differs from the one
//! held — one notification per transition, none for a repeated value.
//! `unregister` is idempotent so teardown may always call it.
use vstd::prelude::*;

verus! {

/// The liveness state kept for one monitored device.
pub struct ActiveListener {
    /// Latest "is running" value delivered while registered.
    pub alive: bool,
    /// Whether a property listener is currently installed.
    pub registered: bool,
    /// The device being monitored, while registered.
    pub device_id: Option<u32>,
}

/// The values published for a run of callbacks, given the value held
/// before: one entry per change, each carrying the new value.
pub open spec fn spec_notifications(alive0: bool, events: Seq<bool>) -> Seq<bool>
    decreases events.len(),
{
    if events.len() == 0 {
        Seq::empty()
    } else if alive0 != events[0] {
        seq![events[0]] + spec_notifications(events[0], events.drop_first())
    } else {
        spec_notifications(events[0], events.drop_first())
    }
}

/// Number of liveness transitions in a run of callbacks: the positions
/// whose value differs from the value held just before them.
pub open spec fn spec_transition_count(alive0: bool, events: Seq<bool>) -> nat
    decreases events.len(),
{
    if events.len() == 0 {
        0
    } else if alive0 != events[0] {
        1 + spec_transition_count(events[0], events.drop_first())
    } else {
        spec_transition_count(events[0], events.drop_first())
    }
}

impl ActiveListener {
    /// A fresh monitor: unregistered, not attached, and reporting a device
    /// that is not alive until a callback says otherwise.
    pub fn new() -> (l: ActiveListener)
        ensures
            !l.alive,
            !l.registered,
            l.device_id is None,
    {
        ActiveListener { alive: false, registered: false, device_id: None }
    }

    /// Attaches the monitor to `device_id`. A monitor watches one device
    /// at a time, so it must not already be registered.
    pub fn register(&mut self, device_id: u32)
        requires
            !old(self).registered,
        ensures
            final(self).registered,
            final(self).device_id == Some(device_id),
            final(self).alive == old(self).alive,
    {
        self.device_id = Some(device_id);
        self.registered = true;
    }

    /// Detaches the monitor. Idempotent: safe to call whether or not a
    /// listener is installed, so every teardown path may invoke it.
    pub fn unregister(&mut self)
        ensures
            !final(self).registered,
            final(self).alive == old(self).alive,
            final(self).device_id == old(self).device_id,
    {
        self.registered = false;
    }

    /// A non-blocking snapshot of the latest "is running" value.
    pub fn is_alive(&self) -> (alive: bool)
        ensures
            alive == self.alive,
    {
        self.alive
    }

    /// Applies one property-change callback: the monitor now holds
    /// `is_running`, and publishes it exactly when it differs from the
    /// value held before — one notification per transition.
    pub fn on_property_event(&mut self, is_running: bool) -> (note: Option<bool>)
        requires
            old(self).registered,
        ensures
            final(self).alive == is_running,
            final(self).registered == old(self).registered,
            final(self).device_id == old(self).device_id,
            note == if old(self).alive != is_running {
                Some(is_running)
            } else {
                None::<bool>
            },
    {
        let changed = self.alive != is_running;
        self.alive = is_running;
        if changed {
            Some(is_running)
        } else {
            None
        }
    }
}

/// Law: a run of property-change callbacks publishes exactly one
/// notification per liveness transition — a repeated value publishes
/// nothing.
pub proof fn lemma_one_notification_per_transition(alive0: bool, events: Seq<bool>)
    ensures
        spec_notifications(alive0, events).len() == spec_transition_count(alive0, events),
    decreases events.len(),
{
    if events.len() > 0 {
        lemma_one_notification_per_transition(events[0], events.drop_first());
    }
}

} // verus!
