use vstd::prelude::*;

verus! {

/// Which end of a scale comes first when the list is sorted.
#[derive(Debug, Clone, Copy, PartialEq, Eq, Structural)]
pub enum SortOrder {
    High,
    Low,
}

impl SortOrder {
    /// The other order.
    pub open spec fn flipped(self) -> SortOrder {
        match self {
            SortOrder::High => SortOrder::Low,
            SortOrder::Low => SortOrder::High,
        }
    }

    /// The other order.
    pub fn toggled(&self) -> (r: SortOrder)
        ensures
            r == self.flipped(),
    {
        match self {
            SortOrder::High => SortOrder::Low,
            SortOrder::Low => SortOrder::High,
        }
    }
}

} // verus!
