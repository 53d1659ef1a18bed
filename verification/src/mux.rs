//! The event-correlation core of the multiplexer loop.
//!
//! The long-running loop itself — waiting on the device descriptor and on
//! the message subscriptions — is I/O and lives outside the library. What
//! the library owns is the decision per ready event: a key transition goes
//! through the tracker, a decoded bus message goes through the classifier
//! and, when relevant, into the binding table; a message that failed to
//! decode is dropped. [`Multiplexer::step`] makes exactly that decision and
//! reports the action the loop should surface.

use vstd::prelude::*;

use crate::binding::opt_path_view;
use crate::binding::spec_update;
use crate::binding::BindingTable;
use crate::classifier::classify;
use crate::classifier::spec_is_focus_signal;
use crate::tracker::key_event_view;
use crate::tracker::notif_view;
use crate::tracker::state_of;
use crate::tracker::tracker_step_notif;
use crate::tracker::tracker_step_table;
use crate::tracker::DeviceTable;
use crate::tracker::KeyState;
use crate::tracker::Notification;

verus! {

/// One ready event, as plain values: a key transition read off a device, a
/// decoded bus message's header fields, or a message that failed to decode.
pub enum MuxEvent {
    DeviceKey {
        device_id: u32,
        device_name: String,
        vendor_id: u32,
        key_code: u32,
        key_state: KeyState,
    },
    BusMessage { interface: String, member: String, path: String },
    DecodeFailed,
}

/// What the loop should do with the event it handed in: surface a modifier
/// notification, log the binding table's new contents, or nothing.
pub enum MuxAction {
    Notify(Notification),
    BindingsUpdated { primary: Option<String>, secondary: Option<String> },
    Ignored,
}

/// The state the loop owns: the per-device modifier table and the two-slot
/// binding table. Exclusively owned — handlers run to completion, one event
/// at a time.
pub struct Multiplexer {
    pub devices: DeviceTable,
    pub bindings: BindingTable,
}

impl Multiplexer {
    /// A fresh correlation state: no device observed, both binding slots
    /// empty, over the default slot identifiers.
    pub fn new() -> (m: Self)
        ensures
            m.devices@ == Map::<u32, crate::tracker::StateView>::empty(),
            m.bindings@.primary_slot == crate::binding::PRIMARY_SLOT,
            m.bindings@.secondary_slot == crate::binding::SECONDARY_SLOT,
            m.bindings@.primary is None,
            m.bindings@.secondary is None,
    {
        Multiplexer { devices: DeviceTable::new(), bindings: BindingTable::new() }
    }

    /// Dispatch one ready event. A key transition feeds the tracker and
    /// leaves the binding table alone; a decoded message feeds the
    /// classifier and, exactly when it is focus-relevant, the binding
    /// table; a failed decode changes nothing. The returned action tells
    /// the loop what to log.
    pub fn step(&mut self, event: MuxEvent) -> (action: MuxAction)
        ensures
            match event {
                MuxEvent::DeviceKey { device_id, device_name, vendor_id, key_code, key_state } => {
                    &&& final(self).bindings == old(self).bindings
                    &&& final(self).devices@ == tracker_step_table(
                        old(self).devices@,
                        key_event_view(device_id, device_name@, vendor_id, key_code, key_state),
                    )
                    &&& match action {
                        MuxAction::Notify(n) => notif_view(Some(n)) == tracker_step_notif(
                            state_of(old(self).devices@, device_id),
                            key_event_view(device_id, device_name@, vendor_id, key_code, key_state),
                        ),
                        MuxAction::Ignored => tracker_step_notif(
                            state_of(old(self).devices@, device_id),
                            key_event_view(device_id, device_name@, vendor_id, key_code, key_state),
                        ) is None,
                        _ => false,
                    }
                },
                MuxEvent::BusMessage { interface, member, path } => {
                    &&& final(self).devices == old(self).devices
                    &&& final(self).bindings@.primary_slot == old(self).bindings@.primary_slot
                    &&& final(self).bindings@.secondary_slot == old(self).bindings@.secondary_slot
                    &&& if spec_is_focus_signal(interface@, member@) {
                        &&& (final(self).bindings@.primary, final(self).bindings@.secondary)
                            == spec_update(
                            old(self).bindings@.primary,
                            old(self).bindings@.secondary,
                            path@,
                        )
                        &&& action matches MuxAction::BindingsUpdated { primary, secondary }
                            && opt_path_view(primary) == final(self).bindings@.primary
                            && opt_path_view(secondary) == final(self).bindings@.secondary
                    } else {
                        &&& final(self).bindings == old(self).bindings
                        &&& action is Ignored
                    }
                },
                MuxEvent::DecodeFailed => {
                    &&& *final(self) == *old(self)
                    &&& action is Ignored
                },
            },
    {
        match event {
            MuxEvent::DeviceKey { device_id, device_name, vendor_id, key_code, key_state } => {
                let n = self.devices.observe(
                    device_id,
                    device_name.as_str(),
                    vendor_id,
                    key_code,
                    key_state,
                );
                match n {
                    Some(notification) => MuxAction::Notify(notification),
                    None => MuxAction::Ignored,
                }
            },
            MuxEvent::BusMessage { interface, member, path } => {
                match classify(interface.as_str(), member.as_str(), path.as_str()) {
                    Some(subject_path) => {
                        let (primary, secondary) = self.bindings.update(subject_path);
                        MuxAction::BindingsUpdated { primary, secondary }
                    },
                    None => MuxAction::Ignored,
                }
            },
            MuxEvent::DecodeFailed => MuxAction::Ignored,
        }
    }
}

} // verus!
