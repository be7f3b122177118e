//! Which rows a retrieval may return, by their `active` flag.

use vstd::prelude::*;

verus! {

/// Restricts a retrieval to active rows, to inactive rows, or not at all.
#[derive(Clone, Copy, Debug, PartialEq, Eq, Structural)]
pub enum DisplayFilter {
    True,
    False,
    Any,
}

impl DisplayFilter {
    /// Whether a row with the given `active` flag passes the filter.
    pub open spec fn admits(self, active: bool) -> bool {
        match self {
            DisplayFilter::True => active,
            DisplayFilter::False => !active,
            DisplayFilter::Any => true,
        }
    }

    /// The values of `active` that pass the filter, in the order in which
    /// [`DisplayFilter::filter`] lists them.
    pub open spec fn values(self) -> Seq<bool> {
        match self {
            DisplayFilter::True => seq![true],
            DisplayFilter::False => seq![false],
            DisplayFilter::Any => seq![true, false],
        }
    }

    /// The values of `active` that pass the filter.
    pub fn filter(&self) -> (values: &[bool])
        ensures
            values@ == self.values(),
    {
        match self {
            DisplayFilter::True => &[true],
            DisplayFilter::False => &[false],
            DisplayFilter::Any => &[true, false],
        }
    }

    /// A flag is listed by [`DisplayFilter::values`] exactly when the filter
    /// admits it, and no flag is listed twice.
    pub proof fn lemma_values_are_admitted(self, active: bool)
        ensures
            self.values().contains(active) <==> self.admits(active),
            self.values().no_duplicates(),
    {
        let values = self.values();
        if self.admits(active) {
            if values[0] != active {
                assert(values[1] == active);
            }
        }
    }
}

} // verus!
