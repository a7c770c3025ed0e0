//! Presentation timestamps: the frame's index over the frame rate.

use vstd::prelude::*;

verus! {

/// The number of nanoseconds in a second.
pub const NANOS_PER_SECOND: u64 = 1_000_000_000;

/// The time, in whole nanoseconds, at which frame `index` of a stream of
/// `rate` frames per second is shown: `index / rate` seconds, rounded down.
pub open spec fn nanos_at(index: nat, rate: nat) -> nat {
    (index * 1_000_000_000) / rate
}

/// The moment at which a frame is to be shown: `index / rate` seconds.
#[derive(Clone, Copy, Debug, PartialEq, Eq, Structural)]
pub struct Timestamp {
    index: u64,
    rate: u64,
}

impl Timestamp {
    pub closed spec fn spec_index(&self) -> u64 {
        self.index
    }

    pub closed spec fn spec_rate(&self) -> u64 {
        self.rate
    }

    /// The rate is positive.
    pub open spec fn wf(&self) -> bool {
        self.spec_rate() >= 1
    }

    /// The timestamp of frame `index` at `rate` frames per second; there is
    /// none at a rate of zero.
    pub fn new(index: u64, rate: u64) -> (r: Option<Timestamp>)
        ensures
            rate == 0 ==> r is None,
            rate > 0 ==> r is Some && r->Some_0.wf() && r->Some_0.spec_index() == index
                && r->Some_0.spec_rate() == rate,
    {
        if rate == 0 {
            None
        } else {
            Some(Timestamp { index, rate })
        }
    }

    /// As `new`, for a rate known to be positive.
    pub(crate) fn at(index: u64, rate: u64) -> (t: Timestamp)
        requires
            rate >= 1,
        ensures
            t.wf(),
            t.spec_index() == index,
            t.spec_rate() == rate,
    {
        Timestamp { index, rate }
    }

    /// The index of the frame, counted from one.
    #[verifier::when_used_as_spec(spec_index)]
    pub fn index(&self) -> (i: u64)
        ensures
            i == self.spec_index(),
    {
        self.index
    }

    /// The frames per second of the stream.
    #[verifier::when_used_as_spec(spec_rate)]
    pub fn rate(&self) -> (r: u64)
        ensures
            r == self.spec_rate(),
    {
        self.rate
    }

    /// The timestamp in whole nanoseconds, rounded down.
    pub fn nanos(&self) -> (n: u128)
        requires
            self.wf(),
        ensures
            n == nanos_at(self.spec_index() as nat, self.spec_rate() as nat),
    {
        let scaled: u128 = (self.index as u128) * (NANOS_PER_SECOND as u128);
        scaled / (self.rate as u128)
    }

    /// Whether this moment lies before `other`, by exact comparison of the
    /// two fractions.
    pub fn earlier_than(&self, other: &Timestamp) -> (b: bool)
        ensures
            b == (self.spec_index() * other.spec_rate() < other.spec_index() * self.spec_rate()),
    {
        proof {
            lemma_product_fits(self.index, other.rate);
            lemma_product_fits(other.index, self.rate);
        }
        (self.index as u128) * (other.rate as u128) < (other.index as u128) * (self.rate as u128)
    }
}

/// The product of two 64-bit numbers fits in 128 bits.
proof fn lemma_product_fits(a: u64, b: u64)
    ensures
        a * b <= u128::MAX,
{
    assert(a * b <= 0xffff_ffff_ffff_ffff * 0xffff_ffff_ffff_ffff) by (nonlinear_arith)
        requires
            0 <= a <= 0xffff_ffff_ffff_ffff,
            0 <= b <= 0xffff_ffff_ffff_ffff,
    ;
}

/// Later frames are never shown earlier, and at up to a thousand million
/// frames per second they are shown strictly later.
pub proof fn law_timestamps_increase(i: nat, j: nat, rate: nat)
    requires
        rate >= 1,
        i < j,
    ensures
        nanos_at(i, rate) <= nanos_at(j, rate),
        rate <= 1_000_000_000 ==> nanos_at(i, rate) < nanos_at(j, rate),
{
    let a: int = (i * 1_000_000_000) as int;
    let b: int = (j * 1_000_000_000) as int;
    assert(a + 1_000_000_000 <= b);
    vstd::arithmetic::div_mod::lemma_div_is_ordered(a, b, rate as int);
    if rate <= 1_000_000_000 {
        assert(a + rate <= b);
        vstd::arithmetic::div_mod::lemma_div_is_ordered(a + rate, b, rate as int);
        vstd::arithmetic::div_mod::lemma_div_plus_one(a, rate as int);
    }
}

/// Two frames that follow each other are one frame period apart: in whole
/// nanoseconds, the period rounded down, or one more than that.
pub proof fn law_timestamps_are_evenly_spaced(i: nat, rate: nat)
    requires
        rate >= 1,
    ensures
        nanos_at(i + 1, rate) - nanos_at(i, rate) == 1_000_000_000int / (rate as int)
            || nanos_at(i + 1, rate) - nanos_at(i, rate) == 1_000_000_000int / (rate as int) + 1,
{
    let a: int = (i * 1_000_000_000) as int;
    let n: int = 1_000_000_000;
    let d: int = rate as int;
    assert((i + 1) * 1_000_000_000 == a + n);
    vstd::arithmetic::div_mod::lemma_fundamental_div_mod(a, d);
    vstd::arithmetic::div_mod::lemma_fundamental_div_mod(n, d);
    vstd::arithmetic::div_mod::lemma_fundamental_div_mod(a + n, d);
    vstd::arithmetic::div_mod::lemma_mod_bound(a, d);
    vstd::arithmetic::div_mod::lemma_mod_bound(n, d);
    vstd::arithmetic::div_mod::lemma_mod_bound(a + n, d);
    let qa = a / d;
    let qn = n / d;
    let qs = (a + n) / d;
    let ra = a % d;
    let rn = n % d;
    let rs = (a + n) % d;
    assert(d * qs + rs == d * qa + ra + d * qn + rn);
    assert(d * (qs - qa - qn) == ra + rn - rs) by (nonlinear_arith)
        requires
            d * qs + rs == d * qa + ra + d * qn + rn,
    ;
    let k = qs - qa - qn;
    assert(-d < d * k < 2 * d);
    assert(k == 0 || k == 1) by (nonlinear_arith)
        requires
            d > 0,
            -d < d * k < 2 * d,
    ;
}

} // verus!
