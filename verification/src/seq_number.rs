//! Sequence numbers: integers modulo 2^32, ordered the way serial numbers are,
//! across the point where they wrap.

use vstd::prelude::*;

verus! {

/// A sequence number. The number after `4294967295` is `0`.
#[derive(Clone, Copy, Debug, PartialEq, Eq, Structural)]
pub struct SeqNumber(pub u32);

impl SeqNumber {
    /// The sequence number `n` places further on: `(self + n) mod 2^32`.
    pub open spec fn plus(self, n: int) -> SeqNumber {
        SeqNumber(((self.0 as int + n) % 0x1_0000_0000) as u32)
    }

    /// How many places further on `other` is: `(other - self) mod 2^32`.
    pub open spec fn distance_to(self, other: SeqNumber) -> int {
        (other.0 as int - self.0 as int) % 0x1_0000_0000
    }

    /// Whether this number comes before `other`: `other` is further on by more
    /// than zero and less than half of the number space.
    pub open spec fn precedes(self, other: SeqNumber) -> bool {
        0 < self.distance_to(other) < 0x8000_0000
    }

    /// Whether this number lies in the window of `len` numbers that starts at
    /// `start`.
    pub open spec fn within(self, start: SeqNumber, len: int) -> bool {
        start.distance_to(self) < len
    }

    /// The sequence number `n` places further on.
    pub fn advance(self, n: u32) -> (r: SeqNumber)
        ensures
            r == self.plus(n as int),
    {
        SeqNumber(self.0.wrapping_add(n))
    }

    /// How many places further on `other` is.
    pub fn distance(self, other: SeqNumber) -> (d: u32)
        ensures
            d == self.distance_to(other),
    {
        other.0.wrapping_sub(self.0)
    }

    /// Whether this number comes before `other`.
    pub fn is_before(self, other: SeqNumber) -> (before: bool)
        ensures
            before == self.precedes(other),
    {
        let d = self.distance(other);
        0 < d && d < 0x8000_0000
    }

    /// Whether this number lies in the window of `len` numbers that starts at
    /// `start`.
    pub fn in_window(self, start: SeqNumber, len: u32) -> (inside: bool)
        ensures
            inside == self.within(start, len as int),
    {
        start.distance(self) < len
    }
}

/// Going on by `a` and then by `b` is going on by `a + b`.
pub proof fn lemma_plus_plus(x: SeqNumber, a: int, b: int)
    requires
        0 <= a,
        0 <= b,
    ensures
        x.plus(a).plus(b) == x.plus(a + b),
{
    let m = 0x1_0000_0000int;
    let s = x.0 as int + a;
    assert(((s % m) + b) % m == (s + b) % m) by {
        vstd::arithmetic::div_mod::lemma_add_mod_noop(s, b, m);
        vstd::arithmetic::div_mod::lemma_add_mod_noop(s % m, b, m);
        vstd::arithmetic::div_mod::lemma_mod_twice(s, m);
    }
}

/// A number that is `n` places further on is at distance `n mod 2^32`.
pub proof fn lemma_distance_of_plus(x: SeqNumber, n: int)
    requires
        0 <= n,
    ensures
        x.distance_to(x.plus(n)) == n % 0x1_0000_0000,
{
    let m = 0x1_0000_0000int;
    let s = x.0 as int + n;
    assert(((s % m) - x.0 as int) % m == (s - x.0 as int) % m) by {
        vstd::arithmetic::div_mod::lemma_sub_mod_noop(s, x.0 as int, m);
        vstd::arithmetic::div_mod::lemma_sub_mod_noop(s % m, x.0 as int, m);
        vstd::arithmetic::div_mod::lemma_mod_twice(s, m);
    }
}

/// A number comes before every number that is less than half of the number space
/// further on, also across the point where the numbers wrap.
pub proof fn lemma_precedes_what_follows(x: SeqNumber, n: int)
    requires
        0 < n < 0x8000_0000,
    ensures
        x.precedes(x.plus(n)),
{
    lemma_distance_of_plus(x, n);
}

/// Of two numbers at most one comes before the other, and no number comes before
/// itself.
pub proof fn lemma_precedes_one_way(a: SeqNumber, b: SeqNumber)
    ensures
        !(a.precedes(b) && b.precedes(a)),
        !a.precedes(a),
{
}

} // verus!
