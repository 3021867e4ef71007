//! A clock reading: the time elapsed since a fixed epoch, held as whole
//! seconds and a sub-second count of nanoseconds.

use vstd::prelude::*;

verus! {

/// Nanoseconds in one second.
pub const NANOS_PER_SEC: u32 = 1_000_000_000;

/// What a signed 64-bit field is when its bits are read as an unsigned
/// 64-bit number.
pub open spec fn unsigned_64(v: int) -> int {
    if v >= 0 {
        v
    } else {
        v + 0x1_0000_0000_0000_0000
    }
}

/// What a signed 64-bit field is when its low 32 bits are read as an
/// unsigned number.
pub open spec fn unsigned_32(v: int) -> int {
    v % 0x1_0000_0000
}

/// Whether a time record can be held as a reading: the carry from its
/// nanoseconds must not take the seconds past 64 bits.
pub open spec fn timespec_fits(tv_sec: int, tv_nsec: int) -> bool {
    unsigned_64(tv_sec) + unsigned_32(tv_nsec) / 1_000_000_000 <= u64::MAX
}

/// The number of nanoseconds that a time record stands for.
pub open spec fn timespec_nanos(tv_sec: int, tv_nsec: int) -> int {
    unsigned_64(tv_sec) * 1_000_000_000 + unsigned_32(tv_nsec)
}

/// The bits of a signed 64-bit number, read as an unsigned one.
fn bits_64(v: i64) -> (u: u64)
    ensures
        u == unsigned_64(v as int),
{
    if v >= 0 {
        v as u64
    } else {
        u64::MAX - ((-(v + 1)) as u64)
    }
}

/// The low 32 bits of a signed 64-bit number, read as an unsigned one.
fn low_bits_32(v: i64) -> (u: u32)
    ensures
        u == unsigned_32(v as int),
{
    if v >= 0 {
        (v % 0x1_0000_0000) as u32
    } else {
        let below: i64 = (-(v + 1)) % 0x1_0000_0000;
        proof {
            let w = -(v + 1) as int;
            vstd::arithmetic::div_mod::lemma_fundamental_div_mod(w, 0x1_0000_0000);
            let q = w / 0x1_0000_0000;
            assert(v == 0x1_0000_0000 * (-q - 1) + (0xFFFF_FFFF - below)) by (nonlinear_arith)
                requires
                    w == 0x1_0000_0000 * q + below,
                    w == -(v + 1),
            ;
            vstd::arithmetic::div_mod::lemma_fundamental_div_mod_converse(
                v as int,
                0x1_0000_0000,
                -q - 1,
                0xFFFF_FFFF - below,
            );
        }
        (0xFFFF_FFFF - below) as u32
    }
}

/// The distance between two numbers of nanoseconds.
pub open spec fn distance(a: nat, b: nat) -> nat {
    if a >= b {
        (a - b) as nat
    } else {
        (b - a) as nat
    }
}

/// Time elapsed since a reference epoch, as one clock source reported it.
#[derive(Clone, Copy, Debug, PartialEq, Eq, Structural)]
pub struct ClockReading {
    secs: u64,
    nanos: u32,
}

impl View for ClockReading {
    type V = nat;

    /// The reading in nanoseconds.
    open spec fn view(&self) -> nat {
        (self.spec_secs() * 1_000_000_000 + self.spec_nanos()) as nat
    }
}

impl ClockReading {
    /// The whole seconds of the reading.
    pub closed spec fn spec_secs(&self) -> nat {
        self.secs as nat
    }

    /// The nanoseconds past the last whole second.
    pub closed spec fn spec_nanos(&self) -> nat {
        self.nanos as nat
    }

    /// The sub-second part is less than one second.
    #[verifier::type_invariant]
    pub open spec fn wf(&self) -> bool {
        self.spec_nanos() < 1_000_000_000
    }

    /// The largest number of nanoseconds a reading can hold.
    pub open spec fn max_nanos() -> nat {
        (u64::MAX * 1_000_000_000 + 999_999_999) as nat
    }

    /// Two well-formed readings of the same length are the same reading.
    pub proof fn lemma_view_injective(a: ClockReading, b: ClockReading)
        requires
            a.wf(),
            b.wf(),
            a@ == b@,
        ensures
            a == b,
    {
        assert(a.secs == b.secs && a.nanos == b.nanos) by (nonlinear_arith)
            requires
                a.secs * 1_000_000_000 + a.nanos == b.secs * 1_000_000_000 + b.nanos,
                a.nanos < 1_000_000_000,
                b.nanos < 1_000_000_000,
        ;
    }

    /// A well-formed reading fits the range of the type, and its two parts are
    /// the quotient and remainder of its nanoseconds by one second.
    pub proof fn lemma_view_parts(self)
        requires
            self.wf(),
        ensures
            self@ <= Self::max_nanos(),
            self.spec_secs() == self@ / 1_000_000_000,
            self.spec_nanos() == self@ % 1_000_000_000,
            self.spec_secs() <= u64::MAX,
    {
        let s = self.secs as int;
        let n = self.nanos as int;
        assert(s * 1_000_000_000 + n <= u64::MAX * 1_000_000_000 + 999_999_999) by (nonlinear_arith)
            requires
                s <= u64::MAX,
                n < 1_000_000_000,
        ;
        vstd::arithmetic::div_mod::lemma_fundamental_div_mod_converse(
            s * 1_000_000_000 + n,
            1_000_000_000,
            s,
            n,
        );
    }

    /// The reading of `secs` seconds and `nanos` nanoseconds. A nanosecond
    /// count of a second or more carries over into the seconds.
    pub fn new(secs: u64, nanos: u32) -> (r: ClockReading)
        requires
            secs + nanos / 1_000_000_000 <= u64::MAX,
        ensures
            r@ == secs * 1_000_000_000 + nanos,
    {
        let carry: u32 = nanos / NANOS_PER_SEC;
        let rest: u32 = nanos % NANOS_PER_SEC;
        assert(nanos == carry * 1_000_000_000 + rest) by {
            vstd::arithmetic::div_mod::lemma_fundamental_div_mod(nanos as int, 1_000_000_000);
        }
        let whole: u64 = secs + carry as u64;
        assert(whole * 1_000_000_000 + rest == secs * 1_000_000_000 + nanos) by (nonlinear_arith)
            requires
                whole == secs + carry,
                nanos == carry * 1_000_000_000 + rest,
        ;
        ClockReading { secs: whole, nanos: rest }
    }

    /// The reading of a whole number of seconds.
    pub fn from_secs(secs: u64) -> (r: ClockReading)
        ensures
            r@ == secs * 1_000_000_000,
    {
        ClockReading { secs, nanos: 0 }
    }

    /// The whole seconds of the reading.
    pub fn secs(&self) -> (s: u64)
        ensures
            s == self@ / 1_000_000_000,
            s == self.spec_secs(),
    {
        proof {
            use_type_invariant(self);
            self.lemma_view_parts();
        }
        self.secs
    }

    /// The nanoseconds past the last whole second.
    pub fn subsec_nanos(&self) -> (n: u32)
        ensures
            n == self@ % 1_000_000_000,
            n == self.spec_nanos(),
            n < 1_000_000_000,
    {
        proof {
            use_type_invariant(self);
            self.lemma_view_parts();
        }
        self.nanos
    }
    /// The reading that a kernel time record stands for. Each field is a
    /// signed 64-bit number; the seconds are read as an unsigned 64-bit
    /// number, the low 32 bits of the nanoseconds as an unsigned 32-bit
    /// number, and the two are combined without rounding.
    pub fn from_timespec(tv_sec: i64, tv_nsec: i64) -> (r: ClockReading)
        requires
            timespec_fits(tv_sec as int, tv_nsec as int),
        ensures
            r@ == timespec_nanos(tv_sec as int, tv_nsec as int),
    {
        ClockReading::new(bits_64(tv_sec), low_bits_32(tv_nsec))
    }

    /// Whether a kernel time record can be held as a reading.
    pub fn fits_timespec(tv_sec: i64, tv_nsec: i64) -> (b: bool)
        ensures
            b == timespec_fits(tv_sec as int, tv_nsec as int),
    {
        let carry: u32 = low_bits_32(tv_nsec) / NANOS_PER_SEC;
        bits_64(tv_sec) <= u64::MAX - carry as u64
    }

    /// The reading in nanoseconds.
    pub fn as_nanos(&self) -> (n: u128)
        ensures
            n == self@,
    {
        proof {
            use_type_invariant(self);
        }
        let whole: u128 = self.secs as u128 * 1_000_000_000;
        whole + self.nanos as u128
    }

    /// Whether this reading is as long as `other`, or longer.
    pub fn at_least(&self, other: &ClockReading) -> (b: bool)
        ensures
            b == (self@ >= other@),
    {
        proof {
            use_type_invariant(self);
            use_type_invariant(other);
            assert((self.secs > other.secs) ==> self@ > other@) by (nonlinear_arith)
                requires
                    self@ == self.secs * 1_000_000_000 + self.nanos,
                    other@ == other.secs * 1_000_000_000 + other.nanos,
                    other.nanos < 1_000_000_000,
            ;
            assert((self.secs < other.secs) ==> self@ < other@) by (nonlinear_arith)
                requires
                    self@ == self.secs * 1_000_000_000 + self.nanos,
                    other@ == other.secs * 1_000_000_000 + other.nanos,
                    self.nanos < 1_000_000_000,
            ;
        }
        self.secs > other.secs || (self.secs == other.secs && self.nanos >= other.nanos)
    }

    /// This reading less `other`, where `other` is not the longer one.
    pub fn checked_sub(&self, other: &ClockReading) -> (d: Option<ClockReading>)
        ensures
            self@ >= other@ ==> d.is_some() && d.unwrap()@ == self@ - other@,
            self@ < other@ ==> d.is_none(),
    {
        if !self.at_least(other) {
            return None;
        }
        proof {
            use_type_invariant(self);
            use_type_invariant(other);
            assert(self.secs >= other.secs) by (nonlinear_arith)
                requires
                    self.secs * 1_000_000_000 + self.nanos >= other.secs * 1_000_000_000
                        + other.nanos,
                    self.nanos < 1_000_000_000,
            ;
        }
        if self.nanos >= other.nanos {
            let secs: u64 = self.secs - other.secs;
            let nanos: u32 = self.nanos - other.nanos;
            assert(secs * 1_000_000_000 + nanos == self@ - other@) by (nonlinear_arith)
                requires
                    secs == self.secs - other.secs,
                    nanos == self.nanos - other.nanos,
                    self@ == self.secs * 1_000_000_000 + self.nanos,
                    other@ == other.secs * 1_000_000_000 + other.nanos,
            ;
            Some(ClockReading { secs, nanos })
        } else {
            let secs: u64 = self.secs - other.secs - 1;
            let nanos: u32 = self.nanos + NANOS_PER_SEC - other.nanos;
            assert(secs * 1_000_000_000 + nanos == self@ - other@) by (nonlinear_arith)
                requires
                    secs == self.secs - other.secs - 1,
                    nanos == self.nanos + 1_000_000_000 - other.nanos,
                    self@ == self.secs * 1_000_000_000 + self.nanos,
                    other@ == other.secs * 1_000_000_000 + other.nanos,
            ;
            Some(ClockReading { secs, nanos })
        }
    }

    /// The distance between two readings, whichever is the longer.
    pub fn abs_diff(&self, other: &ClockReading) -> (d: ClockReading)
        ensures
            d@ == distance(self@, other@),
    {
        match self.checked_sub(other) {
            Some(d) => d,
            None => {
                let d = other.checked_sub(self);
                d.unwrap()
            },
        }
    }
}

} // verus!
