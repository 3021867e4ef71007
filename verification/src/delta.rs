//! The signed difference between two clock readings, and what is left of it
//! once the fixed offset between atomic time and the wall clock is taken out.

use crate::reading::{distance, ClockReading};
use vstd::prelude::*;

verus! {

/// The seconds by which atomic time is ahead of the wall clock.
pub const TAI_OFFSET_SECS: u64 = 37;

/// The offset between atomic time and the wall clock, in nanoseconds.
pub open spec fn tai_offset_nanos() -> nat {
    37_000_000_000
}

/// The offset between atomic time and the wall clock, as a reading.
pub fn tai_offset() -> (r: ClockReading)
    ensures
        r@ == tai_offset_nanos(),
{
    ClockReading::from_secs(TAI_OFFSET_SECS)
}

/// Which of two readings is the longer.
#[derive(Clone, Copy, Debug, PartialEq, Eq, Structural)]
pub enum Sign {
    /// The first is shorter than the second.
    Negative,
    /// The two are equal.
    Neutral,
    /// The first is longer than the second.
    Positive,
}

impl Sign {
    /// The sign of the same difference taken the other way round.
    pub open spec fn opposite(self) -> Sign {
        match self {
            Sign::Negative => Sign::Positive,
            Sign::Neutral => Sign::Neutral,
            Sign::Positive => Sign::Negative,
        }
    }

    /// The text that stands before a magnitude of this sign.
    pub open spec fn spec_symbol(self) -> Seq<char> {
        match self {
            Sign::Negative => seq!['-'],
            _ => seq![' '],
        }
    }

    /// The text that stands before a magnitude of this sign: a minus for a
    /// negative difference, a blank for any other.
    pub fn symbol(&self) -> (s: &'static str)
        ensures
            s@ == self.spec_symbol(),
    {
        proof {
            reveal_strlit("-");
            reveal_strlit(" ");
        }
        match self {
            Sign::Negative => {
                assert("-"@ =~= seq!['-']);
                "-"
            },
            _ => {
                assert(" "@ =~= seq![' ']);
                " "
            },
        }
    }
}

/// The sign of `a - b`.
pub open spec fn sign_of(a: nat, b: nat) -> Sign {
    if a > b {
        Sign::Positive
    } else if a < b {
        Sign::Negative
    } else {
        Sign::Neutral
    }
}

/// A difference between two readings: how far apart they are, and which way.
#[derive(Clone, Copy, Debug, PartialEq, Eq, Structural)]
pub struct SignedDelta {
    magnitude: ClockReading,
    sign: Sign,
}

impl View for SignedDelta {
    type V = int;

    /// The difference in nanoseconds, below zero where the sign is negative.
    open spec fn view(&self) -> int {
        match self.spec_sign() {
            Sign::Negative => -(self.spec_magnitude()@ as int),
            _ => self.spec_magnitude()@ as int,
        }
    }
}

impl SignedDelta {
    /// How far apart the two readings are.
    pub closed spec fn spec_magnitude(&self) -> ClockReading {
        self.magnitude
    }

    /// Which way the difference goes.
    pub closed spec fn spec_sign(&self) -> Sign {
        self.sign
    }

    /// The magnitude is a well-formed reading, and the sign is neutral
    /// exactly where the magnitude is zero.
    #[verifier::type_invariant]
    pub open spec fn wf(&self) -> bool {
        &&& self.spec_magnitude().wf()
        &&& (self.spec_sign() == Sign::Neutral <==> self.spec_magnitude()@ == 0)
    }

    /// How far apart the two readings are.
    pub fn magnitude(&self) -> (m: ClockReading)
        ensures
            m == self.spec_magnitude(),
    {
        self.magnitude
    }

    /// Which way the difference goes.
    pub fn sign(&self) -> (s: Sign)
        ensures
            s == self.spec_sign(),
    {
        self.sign
    }

    /// Whether the first reading was the shorter one.
    pub fn is_negative(&self) -> (b: bool)
        ensures
            b == (self.spec_sign() == Sign::Negative),
            b == (self@ < 0),
    {
        proof {
            use_type_invariant(self);
        }
        match self.sign {
            Sign::Negative => true,
            _ => false,
        }
    }

    /// The difference as one signed number of nanoseconds.
    pub fn signed_nanos(&self) -> (n: i128)
        ensures
            n == self@,
    {
        proof {
            use_type_invariant(self);
            self.magnitude.lemma_view_parts();
        }
        let m: u128 = self.magnitude.as_nanos();
        match self.sign {
            Sign::Negative => -(m as i128),
            _ => m as i128,
        }
    }
}

/// The signed difference `realtime - tai`: its magnitude is taken by
/// subtracting the shorter reading from the longer, and its sign is negative
/// exactly where `tai` is the longer.
pub fn delta(realtime: &ClockReading, tai: &ClockReading) -> (d: SignedDelta)
    ensures
        d.spec_magnitude()@ == distance(realtime@, tai@),
        d.spec_sign() == sign_of(realtime@, tai@),
        d@ == realtime@ - tai@,
{
    let magnitude = realtime.abs_diff(tai);
    let sign = if !realtime.at_least(tai) {
        Sign::Negative
    } else if tai.at_least(realtime) {
        Sign::Neutral
    } else {
        Sign::Positive
    };
    proof {
        use_type_invariant(&magnitude);
    }
    SignedDelta { magnitude, sign }
}

/// What is left of a difference once the fixed offset is taken out: the
/// difference between its magnitude and the offset, negative exactly where
/// the offset is the larger. The sign of `d` itself plays no part.
pub fn less_offset(d: &SignedDelta) -> (r: SignedDelta)
    ensures
        r.spec_magnitude()@ == distance(d.spec_magnitude()@, tai_offset_nanos()),
        r.spec_sign() == sign_of(d.spec_magnitude()@, tai_offset_nanos()),
        r@ == d.spec_magnitude()@ - tai_offset_nanos(),
{
    let magnitude = d.magnitude();
    let offset = tai_offset();
    delta(&magnitude, &offset)
}

/// Taking a difference the other way round keeps its magnitude and turns its
/// sign; two equal readings differ by nothing, with a neutral sign either way.
pub proof fn lemma_delta_swap(r: ClockReading, t: ClockReading)
    requires
        r.wf(),
        t.wf(),
    ensures
        distance(r@, t@) == distance(t@, r@),
        sign_of(r@, t@) == sign_of(t@, r@).opposite(),
        r != t ==> sign_of(r@, t@) != sign_of(t@, r@),
        r == t ==> sign_of(r@, t@) == Sign::Neutral && sign_of(t@, r@) == Sign::Neutral,
{
    if r@ == t@ {
        ClockReading::lemma_view_injective(r, t);
    }
}

/// A reading differs from itself by nothing, and the sign of that difference
/// is neutral.
pub proof fn lemma_delta_self(x: ClockReading)
    ensures
        distance(x@, x@) == 0,
        sign_of(x@, x@) == Sign::Neutral,
{
}

/// Whatever the magnitude of a difference, at least the offset or below it,
/// what is left once the offset is taken out is a magnitude that a reading
/// can hold: the larger of the two less the smaller.
pub proof fn lemma_less_offset_fits(d: ClockReading)
    requires
        d.wf(),
    ensures
        distance(d@, tai_offset_nanos()) <= ClockReading::max_nanos(),
        d@ >= tai_offset_nanos() ==> distance(d@, tai_offset_nanos()) == d@ - tai_offset_nanos(),
        d@ < tai_offset_nanos() ==> distance(d@, tai_offset_nanos()) == tai_offset_nanos() - d@,
{
    d.lemma_view_parts();
}

} // verus!
