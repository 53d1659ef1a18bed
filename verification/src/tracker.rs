//! Per-device keyboard modifier state.
//!
//! The tracker keeps one [`KeyboardState`] per observed device identifier
//! and turns raw key-state transitions into discrete "modifier engaged" /
//! "modifier released" notifications. Repeated presses while the modifier
//! is already engaged are debounced: they change nothing and notify nobody.

use std::collections::HashMap;
use vstd::prelude::*;

use crate::keys::is_modifier_code;
use crate::keys::Key;

verus! {

broadcast use vstd::std_specs::hash::group_hash_axioms;

/// Whether a key went down or came up.
#[derive(Clone, Copy, Debug, PartialEq, Eq, Structural)]
pub enum KeyState {
    Pressed,
    Released,
}

/// Tracked state of one keyboard device.
pub struct KeyboardState {
    /// True while a tracked modifier key is held down on this device.
    pub ctrl_pressed: bool,
    /// Human-readable device name as of the most recent engagement.
    pub last_device_name: String,
}

/// Mathematical view of one device's tracked state.
pub ghost struct StateView {
    pub ctrl_pressed: bool,
    pub last_device_name: Seq<char>,
}

impl View for KeyboardState {
    type V = StateView;

    open spec fn view(&self) -> StateView {
        StateView { ctrl_pressed: self.ctrl_pressed, last_device_name: self.last_device_name@ }
    }
}

/// The state a device is in before any of its key events have been seen:
/// modifier not engaged, no device name recorded yet.
pub open spec fn init_state() -> StateView {
    StateView { ctrl_pressed: false, last_device_name: Seq::empty() }
}

impl KeyboardState {
    /// A fresh, disengaged state for a device seen for the first time.
    pub fn new() -> (s: Self)
        ensures
            s@ == init_state(),
    {
        KeyboardState { ctrl_pressed: false, last_device_name: String::new() }
    }
}

/// One key event, as plain values read off a device: which device fired it,
/// what the device calls itself, its vendor identifier, the scan code, and
/// the transition direction.
pub ghost struct KeyEventView {
    pub device_id: u32,
    pub device_name: Seq<char>,
    pub vendor_id: u32,
    pub key_code: u32,
    pub key_state: KeyState,
}

pub open spec fn key_event_view(
    device_id: u32,
    device_name: Seq<char>,
    vendor_id: u32,
    key_code: u32,
    key_state: KeyState,
) -> KeyEventView {
    KeyEventView { device_id, device_name, vendor_id, key_code, key_state }
}

/// An operator-facing notification of a modifier transition.
pub enum Notification {
    /// The modifier was engaged on a device.
    Engaged { device_name: String, vendor_id: u32, product_id: u32 },
    /// The modifier was released; carries the name stored at engagement time.
    Released { device_name: String },
}

/// Mathematical view of a [`Notification`].
pub ghost enum NotifView {
    Engaged { device_name: Seq<char>, vendor_id: u32, product_id: u32 },
    Released { device_name: Seq<char> },
}

impl View for Notification {
    type V = NotifView;

    open spec fn view(&self) -> NotifView {
        match self {
            Notification::Engaged { device_name, vendor_id, product_id } => NotifView::Engaged {
                device_name: device_name@,
                vendor_id: *vendor_id,
                product_id: *product_id,
            },
            Notification::Released { device_name } => NotifView::Released {
                device_name: device_name@,
            },
        }
    }
}

pub open spec fn notif_view(n: Option<Notification>) -> Option<NotifView> {
    match n {
        Some(x) => Some(x@),
        None => None,
    }
}

/// The state a table records for a device: the stored entry, or the initial
/// state for a device not seen yet.
pub open spec fn state_of(m: Map<u32, StateView>, device_id: u32) -> StateView {
    if m.contains_key(device_id) {
        m[device_id]
    } else {
        init_state()
    }
}

/// How one key event changes one device's state.
pub open spec fn tracker_step_state(prev: StateView, ev: KeyEventView) -> StateView {
    if ev.key_state is Pressed && is_modifier_code(ev.key_code) && !prev.ctrl_pressed {
        StateView { ctrl_pressed: true, last_device_name: ev.device_name }
    } else if ev.key_state is Released && is_modifier_code(ev.key_code) && prev.ctrl_pressed {
        StateView { ctrl_pressed: false, last_device_name: prev.last_device_name }
    } else {
        prev
    }
}

/// Which notification, if any, one key event produces.
pub open spec fn tracker_step_notif(prev: StateView, ev: KeyEventView) -> Option<NotifView> {
    if ev.key_state is Pressed && is_modifier_code(ev.key_code) && !prev.ctrl_pressed {
        Some(
            NotifView::Engaged {
                device_name: ev.device_name,
                vendor_id: ev.vendor_id,
                product_id: ev.device_id,
            },
        )
    } else if ev.key_state is Released && is_modifier_code(ev.key_code) && prev.ctrl_pressed {
        Some(NotifView::Released { device_name: prev.last_device_name })
    } else {
        None
    }
}

/// How one key event changes the whole table: only the firing device's entry
/// moves; a previously unseen device gets an entry.
pub open spec fn tracker_step_table(m: Map<u32, StateView>, ev: KeyEventView) -> Map<
    u32,
    StateView,
> {
    m.insert(ev.device_id, tracker_step_state(state_of(m, ev.device_id), ev))
}

/// The per-device modifier state table, created lazily: a device gets an
/// entry on its first observed key event and keeps it for the process
/// lifetime.
pub struct DeviceTable {
    map: HashMap<u32, KeyboardState>,
}

impl View for DeviceTable {
    type V = Map<u32, StateView>;

    closed spec fn view(&self) -> Map<u32, StateView> {
        self.map@.map_values(|s: KeyboardState| s@)
    }
}

impl DeviceTable {
    /// An empty table: no device observed yet.
    pub fn new() -> (t: Self)
        ensures
            t@ == Map::<u32, StateView>::empty(),
    {
        let t = DeviceTable { map: HashMap::new() };
        proof {
            assert(t@ =~= Map::<u32, StateView>::empty());
        }
        t
    }

    /// Feed one raw key transition through the tracker. Returns the
    /// notification the transition produces, if any: engaged on a press of a
    /// modifier key while disengaged, released on a release of a modifier
    /// key while engaged, nothing otherwise.
    pub fn observe(
        &mut self,
        device_id: u32,
        device_name: &str,
        vendor_id: u32,
        key_code: u32,
        key_state: KeyState,
    ) -> (n: Option<Notification>)
        ensures
            final(self)@ == tracker_step_table(
                old(self)@,
                key_event_view(device_id, device_name@, vendor_id, key_code, key_state),
            ),
            notif_view(n) == tracker_step_notif(
                state_of(old(self)@, device_id),
                key_event_view(device_id, device_name@, vendor_id, key_code, key_state),
            ),
    {
        let is_modifier = key_code == Key::LeftCtrl.key() || key_code == Key::RightCtrl.key();
        let prev: KeyboardState = match self.map.get(&device_id) {
            Some(s) => KeyboardState {
                ctrl_pressed: s.ctrl_pressed,
                last_device_name: s.last_device_name.clone(),
            },
            None => KeyboardState::new(),
        };
        let (next, n): (KeyboardState, Option<Notification>) = match key_state {
            KeyState::Pressed => {
                if is_modifier && !prev.ctrl_pressed {
                    (
                        KeyboardState {
                            ctrl_pressed: true,
                            last_device_name: device_name.to_owned(),
                        },
                        Some(
                            Notification::Engaged {
                                device_name: device_name.to_owned(),
                                vendor_id,
                                product_id: device_id,
                            },
                        ),
                    )
                } else {
                    (prev, None)
                }
            },
            KeyState::Released => {
                if is_modifier && prev.ctrl_pressed {
                    let name = prev.last_device_name;
                    (
                        KeyboardState { ctrl_pressed: false, last_device_name: name.clone() },
                        Some(Notification::Released { device_name: name }),
                    )
                } else {
                    (prev, None)
                }
            },
        };
        let ghost next_view = next@;
        self.map.insert(device_id, next);
        proof {
            assert(self@ =~= old(self)@.insert(device_id, next_view));
        }
        n
    }
}

/// The state table after a whole sequence of key events, oldest first.
pub open spec fn run_tracker(m: Map<u32, StateView>, evs: Seq<KeyEventView>) -> Map<u32, StateView>
    decreases evs.len(),
{
    if evs.len() == 0 {
        m
    } else {
        run_tracker(tracker_step_table(m, evs[0]), evs.drop_first())
    }
}

/// Every notification a sequence of key events produces, in order.
pub open spec fn run_notifs(m: Map<u32, StateView>, evs: Seq<KeyEventView>) -> Seq<NotifView>
    decreases evs.len(),
{
    if evs.len() == 0 {
        Seq::empty()
    } else {
        let first = match tracker_step_notif(state_of(m, evs[0].device_id), evs[0]) {
            Some(n) => seq![n],
            None => Seq::empty(),
        };
        first + run_notifs(tracker_step_table(m, evs[0]), evs.drop_first())
    }
}

/// The kinds of the notifications that the events of device `d` produce, in
/// order: true for engaged, false for released.
pub open spec fn run_notif_kinds_for(
    m: Map<u32, StateView>,
    evs: Seq<KeyEventView>,
    d: u32,
) -> Seq<bool>
    decreases evs.len(),
{
    if evs.len() == 0 {
        Seq::empty()
    } else {
        let first = if evs[0].device_id == d {
            match tracker_step_notif(state_of(m, d), evs[0]) {
                Some(n) => seq![n is Engaged],
                None => Seq::empty(),
            }
        } else {
            Seq::empty()
        };
        first + run_notif_kinds_for(tracker_step_table(m, evs[0]), evs.drop_first(), d)
    }
}

/// Law: a sequence of key events none of whose key codes is a modifier code
/// produces no notification at all, and leaves every device's tracked state
/// — its engagement in particular — exactly as it was.
pub proof fn lemma_non_modifier_events_inert(
    m: Map<u32, StateView>,
    evs: Seq<KeyEventView>,
    d: u32,
)
    requires
        forall|i: int| 0 <= i < evs.len() ==> !is_modifier_code((#[trigger] evs[i]).key_code),
    ensures
        run_notifs(m, evs).len() == 0,
        state_of(run_tracker(m, evs), d) == state_of(m, d),
    decreases evs.len(),
{
    if evs.len() != 0 {
        let e = evs[0];
        let m1 = tracker_step_table(m, e);
        assert(state_of(m1, d) == state_of(m, d));
        assert(forall|i: int|
            0 <= i < evs.drop_first().len() ==> !is_modifier_code(
                (#[trigger] evs.drop_first()[i]).key_code,
            ));
        lemma_non_modifier_events_inert(m1, evs.drop_first(), d);
    }
}

/// The engagement a device's notifications encode: each notification flips
/// it, so notification `i` is an engaged one exactly when the engagement at
/// the start together with the parity of `i` says so.
proof fn lemma_notif_kinds_alternate_general(
    m: Map<u32, StateView>,
    evs: Seq<KeyEventView>,
    d: u32,
)
    ensures
        forall|i: int|
            0 <= i < run_notif_kinds_for(m, evs, d).len() ==> run_notif_kinds_for(m, evs, d)[i] == (
            state_of(m, d).ctrl_pressed <==> i % 2 == 1),
        state_of(run_tracker(m, evs), d).ctrl_pressed == (state_of(m, d).ctrl_pressed
            <==> run_notif_kinds_for(m, evs, d).len() % 2 == 0),
    decreases evs.len(),
{
    if evs.len() != 0 {
        let e = evs[0];
        let m1 = tracker_step_table(m, e);
        lemma_notif_kinds_alternate_general(m1, evs.drop_first(), d);
        let ks = run_notif_kinds_for(m, evs, d);
        let rest = run_notif_kinds_for(m1, evs.drop_first(), d);
        if e.device_id == d && tracker_step_notif(state_of(m, d), e) is Some {
            assert(state_of(m1, d).ctrl_pressed == !state_of(m, d).ctrl_pressed);
            assert forall|i: int| 0 <= i < ks.len() implies ks[i] == (state_of(m, d).ctrl_pressed
                <==> i % 2 == 1) by {
                if i > 0 {
                    assert(ks[i] == rest[i - 1]);
                    assert(rest[i - 1] == (state_of(m1, d).ctrl_pressed <==> (i - 1) % 2 == 1));
                }
            }
        } else {
            assert(state_of(m1, d) == state_of(m, d));
            assert(ks =~= rest);
        }
    }
}

/// Law: per device, engaged and released notifications strictly alternate
/// starting with engaged, provided the device starts disengaged. In
/// particular, two consecutive presses without an intervening release
/// produce at most one engaged notification.
pub proof fn lemma_notifications_alternate(m: Map<u32, StateView>, evs: Seq<KeyEventView>, d: u32)
    requires
        !state_of(m, d).ctrl_pressed,
    ensures
        forall|i: int|
            0 <= i < run_notif_kinds_for(m, evs, d).len() ==> run_notif_kinds_for(m, evs, d)[i] == (
            i % 2 == 0),
{
    lemma_notif_kinds_alternate_general(m, evs, d);
}

} // verus!
