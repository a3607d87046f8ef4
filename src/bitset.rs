//! Small fixed-width bit sets, used to describe sets of log2 widths and lane counts.

use vstd::prelude::*;

verus! {

/// Setting bit `i` of `b` adds exactly `i` to the set of bits that are set.
proof fn lemma_set_bit8(b: u8, i: u8, j: u8)
    by (bit_vector)
    requires
        i < 8,
        j < 8,
    ensures
        ((b | (1u8 << i)) >> j) & 1u8 == 1u8 <==> (((b >> j) & 1u8 == 1u8) || i == j),
{
}

proof fn lemma_empty_bits8(j: u8)
    by (bit_vector)
    requires
        j < 8,
    ensures
        (0u8 >> j) & 1u8 != 1u8,
{
}

proof fn lemma_set_bit16(b: u16, i: u16, j: u16)
    by (bit_vector)
    requires
        i < 16,
        j < 16,
    ensures
        ((b | (1u16 << i)) >> j) & 1u16 == 1u16 <==> (((b >> j) & 1u16 == 1u16) || i == j),
{
}

proof fn lemma_empty_bits16(j: u16)
    by (bit_vector)
    requires
        j < 16,
    ensures
        (0u16 >> j) & 1u16 != 1u16,
{
}

/// A set of numbers in `0..8`, one bit each.
#[derive(Clone, Copy, Debug, PartialEq, Eq, Structural)]
pub struct BitSet8(pub u8);

impl BitSet8 {
    /// Is `i` a member of the set?
    pub open spec fn has(self, i: int) -> bool {
        0 <= i < 8 && (self.0 >> (i as u8)) & 1u8 == 1u8
    }

    /// The set `{lo, lo + 1, ..., hi - 1}`.
    pub fn from_range(lo: u8, hi: u8) -> (r: BitSet8)
        requires
            lo <= hi <= 8,
        ensures
            forall|i: int| #[trigger] r.has(i) <==> lo <= i < hi,
    {
        let mut bits: u8 = 0;
        let mut k: u8 = lo;
        proof {
            assert forall|j: u8| j < 8 implies (bits >> j) & 1u8 != 1u8 by {
                lemma_empty_bits8(j);
            }
        }
        while k < hi
            invariant
                lo <= k <= hi <= 8,
                forall|j: u8| j < 8 ==> (((bits >> j) & 1u8 == 1u8) <==> (lo <= j < k)),
            decreases hi - k,
        {
            let ghost prev = bits;
            bits = bits | (1u8 << k);
            proof {
                assert forall|j: u8| j < 8 implies (((bits >> j) & 1u8 == 1u8) <==> (lo <= j
                    < k + 1)) by {
                    lemma_set_bit8(prev, k, j);
                }
            }
            k = k + 1;
        }
        let r = BitSet8(bits);
        assert forall|i: int| #[trigger] r.has(i) <==> lo <= i < hi by {
            if 0 <= i < 8 {
                assert(((bits >> (i as u8)) & 1u8 == 1u8) <==> (lo <= (i as u8) < k));
            }
        }
        r
    }

    /// Is `i` a member of the set?
    pub fn contains(&self, i: u8) -> (r: bool)
        ensures
            r == self.has(i as int),
    {
        i < 8 && (self.0 >> i) & 1u8 == 1u8
    }

    /// The largest member, or `None` for the empty set.
    pub fn max(&self) -> (r: Option<u8>)
        ensures
            match r {
                Some(m) => self.has(m as int) && forall|j: int| m < j ==> !#[trigger] self.has(j),
                None => forall|j: int| !#[trigger] self.has(j),
            },
    {
        let mut k: u8 = 8;
        while k > 0
            invariant
                k <= 8,
                forall|j: int| k <= j ==> !#[trigger] self.has(j),
            decreases k,
        {
            if self.contains(k - 1) {
                return Some(k - 1);
            }
            k = k - 1;
        }
        None
    }

    /// The smallest member, or `None` for the empty set.
    pub fn min(&self) -> (r: Option<u8>)
        ensures
            match r {
                Some(m) => self.has(m as int) && forall|j: int| j < m ==> !#[trigger] self.has(j),
                None => forall|j: int| !#[trigger] self.has(j),
            },
    {
        let mut k: u8 = 0;
        while k < 8
            invariant
                k <= 8,
                forall|j: int| j < k ==> !#[trigger] self.has(j),
            decreases 8 - k,
        {
            if self.contains(k) {
                return Some(k);
            }
            k = k + 1;
        }
        None
    }
}

/// A set of numbers in `0..16`, one bit each.
#[derive(Clone, Copy, Debug, PartialEq, Eq, Structural)]
pub struct BitSet16(pub u16);

impl BitSet16 {
    /// Is `i` a member of the set?
    pub open spec fn has(self, i: int) -> bool {
        0 <= i < 16 && (self.0 >> (i as u16)) & 1u16 == 1u16
    }

    /// The set `{lo, lo + 1, ..., hi - 1}`.
    pub fn from_range(lo: u8, hi: u8) -> (r: BitSet16)
        requires
            lo <= hi <= 16,
        ensures
            forall|i: int| #[trigger] r.has(i) <==> lo <= i < hi,
    {
        let mut bits: u16 = 0;
        let mut k: u16 = lo as u16;
        proof {
            assert forall|j: u16| j < 16 implies (bits >> j) & 1u16 != 1u16 by {
                lemma_empty_bits16(j);
            }
        }
        while k < hi as u16
            invariant
                lo <= k <= hi <= 16,
                forall|j: u16| j < 16 ==> (((bits >> j) & 1u16 == 1u16) <==> (lo <= j < k)),
            decreases hi - k,
        {
            let ghost prev = bits;
            bits = bits | (1u16 << k);
            proof {
                assert forall|j: u16| j < 16 implies (((bits >> j) & 1u16 == 1u16) <==> (lo <= j
                    < k + 1)) by {
                    lemma_set_bit16(prev, k, j);
                }
            }
            k = k + 1;
        }
        let r = BitSet16(bits);
        assert forall|i: int| #[trigger] r.has(i) <==> lo <= i < hi by {
            if 0 <= i < 16 {
                assert(((bits >> (i as u16)) & 1u16 == 1u16) <==> (lo <= (i as u16) < k));
            }
        }
        r
    }

    /// Is `i` a member of the set?
    pub fn contains(&self, i: u8) -> (r: bool)
        ensures
            r == self.has(i as int),
    {
        i < 16 && (self.0 >> (i as u16)) & 1u16 == 1u16
    }

    /// The largest member, or `None` for the empty set.
    pub fn max(&self) -> (r: Option<u8>)
        ensures
            match r {
                Some(m) => self.has(m as int) && forall|j: int| m < j ==> !#[trigger] self.has(j),
                None => forall|j: int| !#[trigger] self.has(j),
            },
    {
        let mut k: u8 = 16;
        while k > 0
            invariant
                k <= 16,
                forall|j: int| k <= j ==> !#[trigger] self.has(j),
            decreases k,
        {
            if self.contains(k - 1) {
                return Some(k - 1);
            }
            k = k - 1;
        }
        None
    }

    /// The smallest member, or `None` for the empty set.
    pub fn min(&self) -> (r: Option<u8>)
        ensures
            match r {
                Some(m) => self.has(m as int) && forall|j: int| j < m ==> !#[trigger] self.has(j),
                None => forall|j: int| !#[trigger] self.has(j),
            },
    {
        let mut k: u8 = 0;
        while k < 16
            invariant
                k <= 16,
                forall|j: int| j < k ==> !#[trigger] self.has(j),
            decreases 16 - k,
        {
            if self.contains(k) {
                return Some(k);
            }
            k = k + 1;
        }
        None
    }
}

/// Reads off the members of a concrete 8-bit set from a fact about its bits.
pub proof fn lemma_members8(m: u8, lo: int, hi: int)
    requires
        forall|j: u8| j < 8 ==> (((m >> j) & 1u8 == 1u8) <==> lo <= j < hi),
    ensures
        forall|j: int| #[trigger] BitSet8(m).has(j) <==> 0 <= j < 8 && lo <= j < hi,
{
    assert forall|j: int| #[trigger] BitSet8(m).has(j) <==> 0 <= j < 8 && lo <= j < hi by {
        if 0 <= j < 8 {
            let u = j as u8;
            assert(((m >> u) & 1u8 == 1u8) <==> lo <= u < hi);
        }
    }
}

/// Reads off the members of a concrete 16-bit set from a fact about its bits.
pub proof fn lemma_members16(m: u16, lo: int, hi: int)
    requires
        forall|j: u16| j < 16 ==> (((m >> j) & 1u16 == 1u16) <==> lo <= j < hi),
    ensures
        forall|j: int| #[trigger] BitSet16(m).has(j) <==> 0 <= j < 16 && lo <= j < hi,
{
    assert forall|j: int| #[trigger] BitSet16(m).has(j) <==> 0 <= j < 16 && lo <= j < hi by {
        if 0 <= j < 16 {
            let u = j as u16;
            assert(((m >> u) & 1u16 == 1u16) <==> lo <= u < hi);
        }
    }
}

} // verus!
