//! The polarity of an output: how a logical "active" value maps onto a
//! physical pin level, and back.
use vstd::prelude::*;

verus! {

/// The physical level (`true` for high) that drives a device to the logical
/// `value`, when the device is active-high exactly if `active_high`.
pub open spec fn logical_to_state(active_high: bool, value: bool) -> bool {
    if value {
        active_high
    } else {
        !active_high
    }
}

/// The logical value that the physical level `state` stands for.
pub open spec fn state_to_logical(active_high: bool, state: bool) -> bool {
    state == active_high
}

/// The physical level that a toggle drives, given the level read before it.
pub open spec fn toggled_state(active_high: bool, state: bool) -> bool {
    logical_to_state(active_high, !state_to_logical(active_high, state))
}

/// A single polarity bit, kept both as the active and the inactive level.
#[derive(Clone, Copy)]
pub struct Polarity {
    active_state: bool,
    inactive_state: bool,
}

impl View for Polarity {
    type V = bool;

    /// `true` when the device is active-high.
    closed spec fn view(&self) -> bool {
        self.active_state
    }
}

impl Polarity {
    #[verifier::type_invariant]
    spec fn inv(self) -> bool {
        self.active_state == !self.inactive_state
    }

    /// Active-high polarity: logical `true` is a high level.
    pub fn new() -> (r: Polarity)
        ensures
            r@,
    {
        Polarity { active_state: true, inactive_state: false }
    }

    /// Sets the polarity to active-high when `value`, else to active-low.
    pub fn set_active_high(&mut self, value: bool)
        ensures
            final(self)@ == value,
    {
        if value {
            *self = Polarity { active_state: true, inactive_state: false };
        } else {
            *self = Polarity { active_state: false, inactive_state: true };
        }
    }

    /// Whether logical `true` is a high level.
    pub fn active_high(&self) -> (r: bool)
        ensures
            r == self@,
    {
        self.active_state
    }

    /// The physical level that stands for the logical `value`.
    pub fn value_to_state(&self, value: bool) -> (r: bool)
        ensures
            r == logical_to_state(self@, value),
    {
        proof {
            use_type_invariant(self);
        }
        if value {
            self.active_state
        } else {
            self.inactive_state
        }
    }

    /// The logical value that the physical level `state` stands for.
    pub fn state_to_value(&self, state: bool) -> (r: bool)
        ensures
            r == state_to_logical(self@, state),
    {
        state == self.active_state
    }
}

/// The two mappings are inverse to each other, for either polarity: a level
/// read back as a value and written again is the same level, and a value
/// written as a level and read back is the same value.
pub proof fn lemma_polarity_inverse(active_high: bool, state: bool, value: bool)
    ensures
        logical_to_state(active_high, state_to_logical(active_high, state)) == state,
        state_to_logical(active_high, logical_to_state(active_high, value)) == value,
{
}

/// Toggling twice drives the level that was there before, so the logical
/// value comes back to what it was.
pub proof fn lemma_toggle_involution(active_high: bool, state: bool)
    ensures
        toggled_state(active_high, state) == !state,
        toggled_state(active_high, toggled_state(active_high, state)) == state,
        state_to_logical(active_high, toggled_state(active_high, toggled_state(active_high, state)))
            == state_to_logical(active_high, state),
{
}

/// Changing the polarity without touching the pin inverts the value that
/// the level on it stands for; setting the polarity it already has changes
/// nothing.
pub proof fn lemma_polarity_change_inverts_value(active_high: bool, new_active_high: bool, state: bool)
    ensures
        new_active_high != active_high ==> state_to_logical(new_active_high, state)
            == !state_to_logical(active_high, state),
        new_active_high == active_high ==> state_to_logical(new_active_high, state)
            == state_to_logical(active_high, state),
{
}

} // verus!
