//! Normalized angles with wraparound arithmetic.
//!
//! An [`Angle`] is measured in thousandths of a degree and is always kept in
//! the range `[0, 360)` degrees.  The fixed-point unit keeps every operation
//! exact: addition and subtraction wrap modulo a full turn, and negation
//! mirrors the angle as `360 - value`.

use vstd::prelude::*;

use vstd::arithmetic::div_mod::lemma_sub_mod_noop;

verus! {

/// Thousandths of a degree in one full turn.
pub const MD_PER_TURN: u32 = 360_000;

/// `v` brought into `[0, MD_PER_TURN)` by wraparound.
pub open spec fn norm_md(v: int) -> int {
    v % (MD_PER_TURN as int)
}

/// An angle in thousandths of a degree, normalized into `[0, 360)` degrees.
#[derive(Debug, Clone, Copy, PartialEq, Eq, Structural)]
pub struct Angle {
    md: u32,
}

impl View for Angle {
    type V = int;

    closed spec fn view(&self) -> int {
        self.md as int
    }
}

impl Angle {
    #[verifier::type_invariant]
    spec fn wf(self) -> bool {
        self.md < MD_PER_TURN
    }

    /// Builds the angle `value` thousandths of a degree, normalized by
    /// wraparound into `[0, 360)` degrees.
    pub fn new(value: i64) -> (a: Angle)
        ensures
            a@ == norm_md(value as int),
            0 <= a@ < MD_PER_TURN,
    {
        let mut r: i64 = value % MD_PER_TURN as i64;
        if r < 0 {
            r += MD_PER_TURN as i64;
        }
        Angle { md: r as u32 }
    }

    /// Brings the stored value back into range; on an already constructed
    /// angle this is the identity.
    pub fn normalize(&mut self)
        ensures
            final(self)@ == norm_md(old(self)@),
    {
        proof {
            use_type_invariant(&*self);
        }
        self.md = self.md % MD_PER_TURN;
    }

    /// Replaces the stored value with `value`, normalized by wraparound.
    pub fn update(&mut self, value: i64)
        ensures
            final(self)@ == norm_md(value as int),
    {
        *self = Angle::new(value);
    }

    /// Wraparound sum of the two angles.
    pub fn add(self, rhs: Angle) -> (r: Angle)
        ensures
            r@ == norm_md(self@ + rhs@),
            0 <= r@ < MD_PER_TURN,
    {
        proof {
            use_type_invariant(&self);
            use_type_invariant(&rhs);
        }
        Angle { md: (self.md + rhs.md) % MD_PER_TURN }
    }

    /// Wraparound sum, stored in place.
    pub fn add_assign(&mut self, rhs: Angle)
        ensures
            final(self)@ == norm_md(old(self)@ + rhs@),
    {
        *self = self.add(rhs);
    }

    /// Wraparound difference of the two angles.
    pub fn sub(self, rhs: Angle) -> (r: Angle)
        ensures
            r@ == norm_md(self@ - rhs@),
            0 <= r@ < MD_PER_TURN,
    {
        proof {
            use_type_invariant(&self);
            use_type_invariant(&rhs);
        }
        if self.md >= rhs.md {
            Angle { md: self.md - rhs.md }
        } else {
            Angle { md: MD_PER_TURN - rhs.md + self.md }
        }
    }

    /// Wraparound difference, stored in place.
    pub fn sub_assign(&mut self, rhs: Angle)
        ensures
            final(self)@ == norm_md(old(self)@ - rhs@),
    {
        *self = self.sub(rhs);
    }

    /// The mirrored angle `360 - value`, wrapped back to `0` for a zero
    /// input.  This mirrors the angle across the zero direction rather than
    /// negating the number.
    pub fn neg(self) -> (r: Angle)
        ensures
            r@ == norm_md(MD_PER_TURN - self@),
            0 <= r@ < MD_PER_TURN,
    {
        proof {
            use_type_invariant(&self);
        }
        Angle { md: (MD_PER_TURN - self.md) % MD_PER_TURN }
    }

    /// The stored value, in thousandths of a degree.
    pub fn millidegrees(self) -> (r: u32)
        ensures
            r == self@,
            r < MD_PER_TURN,
    {
        proof {
            use_type_invariant(&self);
        }
        self.md
    }
}

impl PartialOrd for Angle {
    fn partial_cmp(&self, other: &Angle) -> (r: Option<core::cmp::Ordering>) {
        if self.md < other.md {
            Some(core::cmp::Ordering::Less)
        } else if self.md == other.md {
            Some(core::cmp::Ordering::Equal)
        } else {
            Some(core::cmp::Ordering::Greater)
        }
    }
}

impl vstd::std_specs::cmp::PartialOrdSpecImpl for Angle {
    open spec fn obeys_partial_cmp_spec() -> bool {
        true
    }

    open spec fn partial_cmp_spec(&self, other: &Angle) -> Option<core::cmp::Ordering> {
        if self@ < other@ {
            Some(core::cmp::Ordering::Less)
        } else if self@ == other@ {
            Some(core::cmp::Ordering::Equal)
        } else {
            Some(core::cmp::Ordering::Greater)
        }
    }
}

/// Adding an angle and then subtracting it is the identity: for all inputs
/// `a` and `b`, the angle built from `a + b`, minus the angle built from
/// `b`, equals the angle built from `a`; here stated over the normalized
/// values that `Angle::new`, `Angle::sub` and `Angle::add` ensure.
pub proof fn lemma_angle_add_sub(a: int, b: int)
    ensures
        norm_md(norm_md(a + b) - norm_md(b)) == norm_md(a),
{
    lemma_sub_mod_noop(a + b, b, MD_PER_TURN as int);
}

} // verus!
