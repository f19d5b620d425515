//! Priority ordering of action intents: a higher priority acts first; among
//! equal priorities, the cheaper action acts first.

use vstd::prelude::*;

use core::cmp::Ordering;
use vstd::std_specs::cmp::PartialEqSpecImpl;
use vstd::std_specs::cmp::PartialOrdSpecImpl;

use crate::turn_system::ActionIntent;

verus! {

/// Comparison of two intents: by priority, then by energy cost reversed.
pub open spec fn intent_precedence(a: ActionIntent, b: ActionIntent) -> Ordering {
    if a.priority < b.priority {
        Ordering::Less
    } else if a.priority > b.priority {
        Ordering::Greater
    } else if a.energy_cost > b.energy_cost {
        Ordering::Less
    } else if a.energy_cost < b.energy_cost {
        Ordering::Greater
    } else {
        Ordering::Equal
    }
}

/// Executable comparison of two intents.
pub fn compare_intents(a: &ActionIntent, b: &ActionIntent) -> (r: Ordering)
    ensures
        r == intent_precedence(*a, *b),
{
    if a.priority < b.priority {
        Ordering::Less
    } else if a.priority > b.priority {
        Ordering::Greater
    } else if a.energy_cost > b.energy_cost {
        Ordering::Less
    } else if a.energy_cost < b.energy_cost {
        Ordering::Greater
    } else {
        Ordering::Equal
    }
}

/// `a` comes strictly after `b` in precedence: lower priority, or equal
/// priority and a dearer action.
pub open spec fn ranks_below(a: ActionIntent, b: ActionIntent) -> bool {
    intent_precedence(a, b) == Ordering::Less
}

/// Whether `a` comes strictly after `b` in precedence.
pub fn intent_ranks_below(a: &ActionIntent, b: &ActionIntent) -> (r: bool)
    ensures
        r == ranks_below(*a, *b),
{
    match compare_intents(a, b) {
        Ordering::Less => true,
        _ => false,
    }
}

impl PartialEq for ActionIntent {
    fn eq(&self, other: &Self) -> (r: bool) {
        self.priority == other.priority && self.energy_cost == other.energy_cost
    }
}

impl PartialEqSpecImpl for ActionIntent {
    open spec fn obeys_eq_spec() -> bool {
        true
    }

    open spec fn eq_spec(&self, other: &Self) -> bool {
        self.priority == other.priority && self.energy_cost == other.energy_cost
    }
}

impl Eq for ActionIntent {}

impl PartialOrd for ActionIntent {
    fn partial_cmp(&self, other: &Self) -> (r: Option<Ordering>) {
        Some(compare_intents(self, other))
    }
}

impl PartialOrdSpecImpl for ActionIntent {
    open spec fn obeys_partial_cmp_spec() -> bool {
        true
    }

    open spec fn partial_cmp_spec(&self, other: &Self) -> Option<Ordering> {
        Some(intent_precedence(*self, *other))
    }
}

} // verus!
