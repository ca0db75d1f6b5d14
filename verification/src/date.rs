use vstd::prelude::*;

verus! {

/// A calendar date at day granularity: the creation stamp carried by every
/// trophy record. The substrate's clock is outside this library; callers hand
/// the current date in, already truncated to a day.
#[derive(Clone, Copy, PartialEq, Eq, Structural, Debug)]
pub struct Date {
    pub year: u32,
    pub month: u32,
    pub day: u32,
}

impl Date {
    /// Chronological order: by year, then month, then day.
    pub open spec fn spec_le(self, other: Date) -> bool {
        if self.year != other.year {
            self.year < other.year
        } else if self.month != other.month {
            self.month < other.month
        } else {
            self.day <= other.day
        }
    }

    pub open spec fn spec_lt(self, other: Date) -> bool {
        self.spec_le(other) && self != other
    }

    /// Strict chronological comparison, used by the merge scan to keep the
    /// earliest creation date.
    pub fn lt(&self, other: &Date) -> (r: bool)
        ensures
            r == self.spec_lt(*other),
    {
        if self.year != other.year {
            self.year < other.year
        } else if self.month != other.month {
            self.month < other.month
        } else {
            self.day < other.day
        }
    }
}

/// Chronological order is total: any two dates compare one way or the other.
pub proof fn lemma_date_order_total(a: Date, b: Date)
    ensures
        a.spec_le(b) || b.spec_le(a),
        a.spec_le(b) && b.spec_le(a) ==> a == b,
{
}

/// Chronological order is transitive.
pub proof fn lemma_date_order_transitive(a: Date, b: Date, c: Date)
    requires
        a.spec_le(b),
        b.spec_le(c),
    ensures
        a.spec_le(c),
{
}

} // verus!
