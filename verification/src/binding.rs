//! The two-slot binding table.
//!
//! A fixed associative structure of exactly two slots, keyed by the product
//! identifiers of the two keyboards the deployment targets. Each slot holds
//! the most recently associated focus-subject path, or nothing. Updates
//! follow a fixed push-down policy driven purely by the order in which
//! focus signals arrive.

use vstd::prelude::*;

verus! {

/// Default identifier of the primary slot: the built-in keyboard's product
/// identifier.
pub const PRIMARY_SLOT: u32 = 1;

/// Default identifier of the secondary slot: the external keyboard's
/// product identifier.
pub const SECONDARY_SLOT: u32 = 8195;

/// Mathematical view of the table: the two slot identifiers and the path,
/// if any, each slot holds.
pub ghost struct BindingView {
    pub primary_slot: u32,
    pub secondary_slot: u32,
    pub primary: Option<Seq<char>>,
    pub secondary: Option<Seq<char>>,
}

pub open spec fn opt_path_view(p: Option<String>) -> Option<Seq<char>> {
    match p {
        Some(s) => Some(s@),
        None => None,
    }
}

/// The update policy, on the pair of slot contents. Mutually exclusive
/// branches, applied in this order:
/// 1. both slots occupied: the secondary slot takes the primary slot's old
///    value and the new path lands in the primary slot (a push-down queue of
///    depth two — the old secondary value is discarded);
/// 2. both slots empty: the new path lands in the secondary slot and the
///    primary slot stays empty (deliberately asymmetric bootstrap);
/// 3. exactly one slot occupied: the new path lands in the primary slot,
///    overwriting it if it was the occupied one.
pub open spec fn spec_update(
    primary: Option<Seq<char>>,
    secondary: Option<Seq<char>>,
    path: Seq<char>,
) -> (Option<Seq<char>>, Option<Seq<char>>) {
    if primary is Some && secondary is Some {
        (Some(path), primary)
    } else if primary is None && secondary is None {
        (None, Some(path))
    } else {
        (Some(path), secondary)
    }
}

/// The two-slot binding table. Exactly two slots exist at all times.
pub struct BindingTable {
    primary_slot: u32,
    secondary_slot: u32,
    primary: Option<String>,
    secondary: Option<String>,
}

impl View for BindingTable {
    type V = BindingView;

    closed spec fn view(&self) -> BindingView {
        BindingView {
            primary_slot: self.primary_slot,
            secondary_slot: self.secondary_slot,
            primary: opt_path_view(self.primary),
            secondary: opt_path_view(self.secondary),
        }
    }
}

impl BindingTable {
    /// An empty table over the default slot identifiers.
    pub fn new() -> (t: Self)
        ensures
            t@.primary_slot == PRIMARY_SLOT,
            t@.secondary_slot == SECONDARY_SLOT,
            t@.primary is None,
            t@.secondary is None,
    {
        BindingTable {
            primary_slot: PRIMARY_SLOT,
            secondary_slot: SECONDARY_SLOT,
            primary: None,
            secondary: None,
        }
    }

    /// An empty table over caller-chosen slot identifiers.
    pub fn with_slots(primary_slot: u32, secondary_slot: u32) -> (t: Self)
        ensures
            t@.primary_slot == primary_slot,
            t@.secondary_slot == secondary_slot,
            t@.primary is None,
            t@.secondary is None,
    {
        BindingTable { primary_slot, secondary_slot, primary: None, secondary: None }
    }

    /// Apply the update policy to a newly observed focus-subject path and
    /// return the resulting pair of slot contents, primary first.
    pub fn update(&mut self, subject_path: String) -> (snapshot: (Option<String>, Option<String>))
        ensures
            final(self)@.primary_slot == old(self)@.primary_slot,
            final(self)@.secondary_slot == old(self)@.secondary_slot,
            (final(self)@.primary, final(self)@.secondary) == spec_update(
                old(self)@.primary,
                old(self)@.secondary,
                subject_path@,
            ),
            opt_path_view(snapshot.0) == final(self)@.primary,
            opt_path_view(snapshot.1) == final(self)@.secondary,
    {
        if self.primary.is_some() && self.secondary.is_some() {
            let old_primary = match &self.primary {
                Some(p) => Some(p.clone()),
                None => None,
            };
            self.secondary = old_primary;
            self.primary = Some(subject_path);
        } else if self.primary.is_none() && self.secondary.is_none() {
            self.secondary = Some(subject_path);
        } else {
            self.primary = Some(subject_path);
        }
        self.snapshot()
    }

    /// The current pair of slot contents, primary first.
    pub fn snapshot(&self) -> (snapshot: (Option<String>, Option<String>))
        ensures
            opt_path_view(snapshot.0) == self@.primary,
            opt_path_view(snapshot.1) == self@.secondary,
    {
        let primary = match &self.primary {
            Some(p) => Some(p.clone()),
            None => None,
        };
        let secondary = match &self.secondary {
            Some(p) => Some(p.clone()),
            None => None,
        };
        (primary, secondary)
    }

    /// The identifier of the primary slot.
    pub fn primary_slot(&self) -> (id: u32)
        ensures
            id == self@.primary_slot,
    {
        self.primary_slot
    }

    /// The identifier of the secondary slot.
    pub fn secondary_slot(&self) -> (id: u32)
        ensures
            id == self@.secondary_slot,
    {
        self.secondary_slot
    }
}

/// Law: repeated identical input while both slots are empty. The first
/// update fills the secondary slot only; the second, with exactly one slot
/// now occupied, fills the primary slot.
pub proof fn lemma_update_from_empty_twice(p: Seq<char>)
    ensures
        spec_update(None, None, p) == (None::<Seq<char>>, Some(p)),
        spec_update(None, Some(p), p) == (Some(p), Some(p)),
{
}

/// Law: the three update branches, walked from an empty table. The first
/// path lands in the secondary slot; the second, with only the secondary
/// slot occupied, lands in the primary slot; the third, with both slots
/// occupied, pushes the primary value down to the secondary slot.
pub proof fn lemma_update_branch_coverage(a: Seq<char>, b: Seq<char>, c: Seq<char>)
    ensures
        spec_update(None, None, a) == (None::<Seq<char>>, Some(a)),
        spec_update(None, Some(a), b) == (Some(b), Some(a)),
        spec_update(Some(b), Some(a), c) == (Some(c), Some(b)),
{
}

} // verus!
