//! The severity of a notification, and the order of the severities.

use core::cmp::Ordering;
use vstd::prelude::*;
use vstd::std_specs::cmp::PartialOrdSpec;

verus! {

/// How prominently a notification should be shown. The variants are listed
/// from the least to the most severe: `Verbose < Info < Warn < Error`.
#[derive(Clone, Copy, Debug, PartialEq, Eq, Structural, Ord, Hash)]
pub enum NotificationLevel {
    Verbose,
    Info,
    Warn,
    Error,
}

impl NotificationLevel {
    /// The position of a level in the order of severities, from 0 for
    /// `Verbose` to 3 for `Error`.
    pub open spec fn rank(self) -> int {
        match self {
            NotificationLevel::Verbose => 0,
            NotificationLevel::Info => 1,
            NotificationLevel::Warn => 2,
            NotificationLevel::Error => 3,
        }
    }

    /// The position of this level in the order of severities.
    pub fn ordinal(self) -> (r: u8)
        ensures
            r == self.rank(),
    {
        match self {
            NotificationLevel::Verbose => 0,
            NotificationLevel::Info => 1,
            NotificationLevel::Warn => 2,
            NotificationLevel::Error => 3,
        }
    }
}

impl PartialOrd for NotificationLevel {
    fn partial_cmp(&self, other: &Self) -> (r: Option<Ordering>) {
        let a: u8 = self.ordinal();
        let b: u8 = other.ordinal();
        if a < b {
            Some(Ordering::Less)
        } else if a == b {
            Some(Ordering::Equal)
        } else {
            Some(Ordering::Greater)
        }
    }
}

impl vstd::std_specs::cmp::PartialOrdSpecImpl for NotificationLevel {
    open spec fn obeys_partial_cmp_spec() -> bool {
        true
    }

    open spec fn partial_cmp_spec(&self, other: &Self) -> Option<Ordering> {
        if self.rank() < other.rank() {
            Some(Ordering::Less)
        } else if self.rank() == other.rank() {
            Some(Ordering::Equal)
        } else {
            Some(Ordering::Greater)
        }
    }
}

/// The severities ascend from `Verbose` over `Info` and `Warn` to `Error`.
pub proof fn lemma_levels_ascend()
    ensures
        NotificationLevel::Verbose.partial_cmp_spec(&NotificationLevel::Info) == Some(
            Ordering::Less,
        ),
        NotificationLevel::Info.partial_cmp_spec(&NotificationLevel::Warn) == Some(Ordering::Less),
        NotificationLevel::Warn.partial_cmp_spec(&NotificationLevel::Error) == Some(
            Ordering::Less,
        ),
{
}

/// The order of the levels is a strict total order that goes by the rank:
/// any two levels can be compared, of two levels exactly one is the lesser
/// unless they are equal, and a level that is less than a second one is less
/// than every level above the second. So a threshold lets through whatever a
/// higher threshold lets through.
pub proof fn lemma_level_order_is_total(
    a: NotificationLevel,
    b: NotificationLevel,
    c: NotificationLevel,
)
    ensures
        a.partial_cmp_spec(&b) is Some,
        a.partial_cmp_spec(&b) == Some(Ordering::Less) <==> a.rank() < b.rank(),
        a.partial_cmp_spec(&b) == Some(Ordering::Equal) <==> a == b,
        a.partial_cmp_spec(&b) == Some(Ordering::Greater) <==> b.partial_cmp_spec(&a) == Some(
            Ordering::Less,
        ),
        a.partial_cmp_spec(&b) == Some(Ordering::Less) && b.partial_cmp_spec(&c) == Some(
            Ordering::Less,
        ) ==> a.partial_cmp_spec(&c) == Some(Ordering::Less),
{
}

} // verus!
