//! Numbers as a division gives them.

use vstd::prelude::*;

use crate::fixed::magnitude;

verus! {

/// A number, or what a division by zero gives: more than every number, less than
/// every number, or none at all.
#[derive(Debug, Clone, Copy, PartialEq, Eq, Structural)]
pub enum Extended {
    Number(i128),
    Above,
    Below,
    Undefined,
}

impl Extended {
    /// Whether the number, if it is one, is within a limit.
    pub open spec fn within(self, limit: int) -> bool {
        self matches Extended::Number(v) ==> -limit <= v <= limit
    }

    /// The difference. What has no bound less what has none in the same direction
    /// is undefined.
    pub open spec fn less(self, other: Extended) -> Extended {
        match (self, other) {
            (Extended::Number(a), Extended::Number(b)) => Extended::Number((a - b) as i128),
            (Extended::Undefined, _) => Extended::Undefined,
            (_, Extended::Undefined) => Extended::Undefined,
            (Extended::Number(_), Extended::Above) => Extended::Below,
            (Extended::Number(_), Extended::Below) => Extended::Above,
            (Extended::Above, Extended::Above) => Extended::Undefined,
            (Extended::Below, Extended::Below) => Extended::Undefined,
            (x, _) => x,
        }
    }

    /// Whether it is above a number. Nothing undefined is.
    pub open spec fn exceeds(self, limit: int) -> bool {
        match self {
            Extended::Number(v) => v > limit,
            Extended::Above => true,
            _ => false,
        }
    }

    /// Whether it is below a number. Nothing undefined is.
    pub open spec fn falls_below(self, limit: int) -> bool {
        match self {
            Extended::Number(v) => v < limit,
            Extended::Below => true,
            _ => false,
        }
    }

    /// Whether its magnitude is below a number. Only that of a number can be.
    pub open spec fn smaller_than(self, limit: int) -> bool {
        match self {
            Extended::Number(v) => magnitude(v as int) < limit,
            _ => false,
        }
    }

    /// The opposite.
    pub open spec fn opposite(self) -> Extended {
        match self {
            Extended::Number(v) => Extended::Number((-v) as i128),
            Extended::Above => Extended::Below,
            Extended::Below => Extended::Above,
            Extended::Undefined => Extended::Undefined,
        }
    }

    /// Subtracts.
    pub fn minus(self, other: Extended) -> (r: Extended)
        requires
            (match (self, other) {
                (Extended::Number(a), Extended::Number(b)) => i128::MIN <= a - b <= i128::MAX,
                _ => true,
            }),
        ensures
            r == self.less(other),
    {
        match (self, other) {
            (Extended::Number(a), Extended::Number(b)) => Extended::Number(a - b),
            (Extended::Undefined, _) => Extended::Undefined,
            (_, Extended::Undefined) => Extended::Undefined,
            (Extended::Number(_), Extended::Above) => Extended::Below,
            (Extended::Number(_), Extended::Below) => Extended::Above,
            (Extended::Above, Extended::Above) => Extended::Undefined,
            (Extended::Below, Extended::Below) => Extended::Undefined,
            (x, _) => x,
        }
    }

    /// Whether it is above a number.
    pub fn is_above(self, limit: i128) -> (r: bool)
        ensures
            r == self.exceeds(limit as int),
    {
        match self {
            Extended::Number(v) => v > limit,
            Extended::Above => true,
            _ => false,
        }
    }

    /// Whether it is below a number.
    pub fn is_below(self, limit: i128) -> (r: bool)
        ensures
            r == self.falls_below(limit as int),
    {
        match self {
            Extended::Number(v) => v < limit,
            Extended::Below => true,
            _ => false,
        }
    }

    /// Whether its magnitude is below a number.
    pub fn is_smaller_than(self, limit: i128) -> (r: bool)
        requires
            self matches Extended::Number(v) ==> v > i128::MIN,
        ensures
            r == self.smaller_than(limit as int),
    {
        match self {
            Extended::Number(v) => crate::fixed::abs(v) < limit,
            _ => false,
        }
    }
}

/// Nothing is both above and below a number, and the undefined is neither; the
/// opposite of what is above a number is below the opposite number.
pub proof fn extended_numbers_are_ordered(x: Extended, limit: int)
    requires
        x matches Extended::Number(v) ==> v > i128::MIN,
    ensures
        !(x.exceeds(limit) && x.falls_below(limit)),
        x is Undefined ==> !x.exceeds(limit) && !x.falls_below(limit),
        x.exceeds(limit) <==> x.opposite().falls_below(-limit),
        x.less(x) == if x is Number {
            Extended::Number(0)
        } else {
            Extended::Undefined
        },
{
}

impl Extended {
    /// Whether it is at most another; nothing undefined is.
    pub open spec fn at_most(self, other: Extended) -> bool {
        match (self, other) {
            (Extended::Undefined, _) => false,
            (_, Extended::Undefined) => false,
            (Extended::Number(a), Extended::Number(b)) => a <= b,
            (Extended::Below, _) => true,
            (_, Extended::Above) => true,
            _ => false,
        }
    }
}

/// Numbers are subtracted and compared as numbers; what lies above all numbers stays
/// there when a number is taken from it, and takes a number below all when it is
/// taken from it.
pub proof fn numbers_behave_as_numbers(a: i128, b: i128)
    requires
        i128::MIN <= a - b <= i128::MAX,
    ensures
        Extended::Number(a).less(Extended::Number(b)) == Extended::Number((a - b) as i128),
        Extended::Number(a).exceeds(b as int) <==> a > b,
        Extended::Number(a).falls_below(b as int) <==> a < b,
        Extended::Number(a).smaller_than(b as int) <==> -b < a < b,
        Extended::Above.less(Extended::Number(b)) == Extended::Above,
        Extended::Below.less(Extended::Number(b)) == Extended::Below,
        Extended::Number(a).less(Extended::Above) == Extended::Below,
        Extended::Number(a).less(Extended::Below) == Extended::Above,
        Extended::Above.less(Extended::Below) == Extended::Above,
        Extended::Below.less(Extended::Above) == Extended::Below,
        !Extended::Above.smaller_than(b as int) && !Extended::Below.smaller_than(b as int),
        Extended::Above.exceeds(b as int) && Extended::Below.falls_below(b as int),
{
}

} // verus!
