use vstd::prelude::*;

verus! {

/// How a direction reads the station orders: direction 1 travels towards higher
/// orders, every other direction towards lower ones.
#[derive(PartialEq, Eq, Structural, Clone, Copy, Debug)]
pub enum Orientation {
    Ascending,
    Descending,
}

impl Orientation {
    pub open spec fn of_spec(direction: u8) -> Orientation {
        if direction == 1 {
            Orientation::Ascending
        } else {
            Orientation::Descending
        }
    }

    /// The orientation of a direction id.
    pub fn of(direction: u8) -> (r: Orientation)
        ensures
            r == Orientation::of_spec(direction),
    {
        if direction == 1 {
            Orientation::Ascending
        } else {
            Orientation::Descending
        }
    }

    /// Order `a` is reached no later than order `b` when travelling this way.
    pub open spec fn precedes_spec(self, a: i64, b: i64) -> bool {
        match self {
            Orientation::Ascending => a <= b,
            Orientation::Descending => a >= b,
        }
    }

    pub fn precedes(&self, a: i64, b: i64) -> (r: bool)
        ensures
            r == self.precedes_spec(a, b),
    {
        match self {
            Orientation::Ascending => a <= b,
            Orientation::Descending => a >= b,
        }
    }

    /// Order `x` lies strictly beyond order `from` when travelling this way.
    pub open spec fn beyond_spec(self, from: i64, x: i64) -> bool {
        match self {
            Orientation::Ascending => x > from,
            Orientation::Descending => x < from,
        }
    }

    pub fn beyond(&self, from: i64, x: i64) -> (r: bool)
        ensures
            r == self.beyond_spec(from, x),
    {
        match self {
            Orientation::Ascending => x > from,
            Orientation::Descending => x < from,
        }
    }

    /// A trip from order `enter` to order `exit` covers the span `(first, second)`.
    pub open spec fn contains_spec(self, first: i64, second: i64, enter: i64, exit: i64) -> bool {
        self.precedes_spec(enter, first) && self.precedes_spec(second, exit)
    }

    pub fn contains(&self, first: i64, second: i64, enter: i64, exit: i64) -> (r: bool)
        ensures
            r == self.contains_spec(first, second, enter, exit),
    {
        self.precedes(enter, first) && self.precedes(second, exit)
    }
}

} // verus!
