//! The atom record: an integer charge tag and a 3-D position.
//!
//! Each coordinate is carried as the bit pattern of an IEEE-754 double
//! (`u64`), so positions can be stored, compared and handed back without any
//! real arithmetic. The one comparison the geometry core needs — do two
//! atoms sit at the same position? — is decided on the patterns themselves:
//! two coordinates denote the same value exactly when their patterns are
//! identical or both denote a zero (`+0.0` or `-0.0`).

use vstd::prelude::*;

verus! {

/// An atom: charge tag `z_val` (a negative value is reserved by callers to
/// mark an uninitialized record) and coordinates `x`, `y`, `z` as IEEE-754
/// double bit patterns.
#[derive(Clone, Copy, Debug, PartialEq, Eq, Structural)]
pub struct Ion {
    pub z_val: i32,
    pub x: u64,
    pub y: u64,
    pub z: u64,
}

/// The coordinate pattern denotes a zero: `+0.0` or `-0.0`.
pub open spec fn coord_is_zero(c: u64) -> bool {
    c == 0u64 || c == 0x8000_0000_0000_0000u64
}

/// Two coordinate patterns denote the same value: identical, or both zeros.
/// (Patterns that denote NaN compare like any others here: equal patterns
/// count as the same coordinate.)
pub open spec fn coord_eq(a: u64, b: u64) -> bool {
    a == b || (coord_is_zero(a) && coord_is_zero(b))
}

/// The two atoms sit at the same position, coordinate by coordinate. The
/// charge tags play no part: coincidence is purely geometric.
pub open spec fn coincides_spec(a: Ion, b: Ion) -> bool {
    coord_eq(a.x, b.x) && coord_eq(a.y, b.y) && coord_eq(a.z, b.z)
}

fn coord_eq_exec(a: u64, b: u64) -> (r: bool)
    ensures
        r == coord_eq(a, b),
{
    a == b || ((a == 0u64 || a == 0x8000_0000_0000_0000u64) && (b == 0u64 || b
        == 0x8000_0000_0000_0000u64))
}

impl Ion {
    /// Whether the two atoms sit at the same position — the condition under
    /// which an arm between them has zero length and an angle through them
    /// is undefined.
    pub fn coincides(&self, other: &Ion) -> (r: bool)
        ensures
            r == coincides_spec(*self, *other),
    {
        coord_eq_exec(self.x, other.x) && coord_eq_exec(self.y, other.y) && coord_eq_exec(
            self.z,
            other.z,
        )
    }
}

} // verus!
