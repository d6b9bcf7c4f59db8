//! Identifiers: 256-bit hashes and counters, each standing for one integer by
//! which tables are ordered and searched.

use vstd::prelude::*;

verus! {

/// A value that stands for exactly one integer, its rank. Tables are ordered
/// by rank.
pub trait Key: Copy {
    /// The integer this key stands for.
    spec fn rank(&self) -> int;

    /// Two keys of the same rank are the same key.
    proof fn rank_identifies(a: Self, b: Self)
        requires
            a.rank() == b.rank(),
        ensures
            a == b,
    ;

    /// Whether both keys are the same.
    fn same(&self, other: &Self) -> (r: bool)
        ensures
            r == (self.rank() == other.rank()),
    ;

    /// Whether this key comes strictly before the other.
    fn precedes(&self, other: &Self) -> (r: bool)
        ensures
            r == (self.rank() < other.rank()),
    ;
}

/// A 256-bit value, read as a big-endian number in two halves.
#[derive(Copy, Clone, PartialEq, Eq, Structural, Debug)]
pub struct Hash32 {
    pub hi: u128,
    pub lo: u128,
}

/// Two to the power of 128.
pub open spec fn half_span() -> int {
    0x1_0000_0000_0000_0000_0000_0000_0000_0000int
}

/// The number that sixteen bytes spell, most significant first, starting at
/// position `at`.
pub open spec fn spelled(bytes: Seq<u8>, at: int) -> int {
    bytes[at] as int * 0x1_00_0000_0000_0000_0000_0000_0000_0000int
        + bytes[at + 1] as int * 0x1_0000_0000_0000_0000_0000_0000_0000int
        + bytes[at + 2] as int * 0x1_00_0000_0000_0000_0000_0000_0000int
        + bytes[at + 3] as int * 0x1_0000_0000_0000_0000_0000_0000int
        + bytes[at + 4] as int * 0x1_00_0000_0000_0000_0000_0000int
        + bytes[at + 5] as int * 0x1_0000_0000_0000_0000_0000int
        + bytes[at + 6] as int * 0x1_00_0000_0000_0000_0000int
        + bytes[at + 7] as int * 0x1_0000_0000_0000_0000int
        + bytes[at + 8] as int * 0x1_00_0000_0000_0000int
        + bytes[at + 9] as int * 0x1_0000_0000_0000int
        + bytes[at + 10] as int * 0x1_00_0000_0000int
        + bytes[at + 11] as int * 0x1_0000_0000int
        + bytes[at + 12] as int * 0x1_00_0000int
        + bytes[at + 13] as int * 0x1_0000int
        + bytes[at + 14] as int * 0x1_00int
        + bytes[at + 15] as int
}

fn half(bytes: &[u8; 32], at: usize) -> (r: u128)
    requires
        at <= 16,
    ensures
        r == spelled(bytes@, at as int),
{
    bytes[at] as u128 * 0x1_00_0000_0000_0000_0000_0000_0000_0000u128
        + bytes[at + 1] as u128 * 0x1_0000_0000_0000_0000_0000_0000_0000u128
        + bytes[at + 2] as u128 * 0x1_00_0000_0000_0000_0000_0000_0000u128
        + bytes[at + 3] as u128 * 0x1_0000_0000_0000_0000_0000_0000u128
        + bytes[at + 4] as u128 * 0x1_00_0000_0000_0000_0000_0000u128
        + bytes[at + 5] as u128 * 0x1_0000_0000_0000_0000_0000u128
        + bytes[at + 6] as u128 * 0x1_00_0000_0000_0000_0000u128
        + bytes[at + 7] as u128 * 0x1_0000_0000_0000_0000u128
        + bytes[at + 8] as u128 * 0x1_00_0000_0000_0000u128
        + bytes[at + 9] as u128 * 0x1_0000_0000_0000u128
        + bytes[at + 10] as u128 * 0x1_00_0000_0000u128
        + bytes[at + 11] as u128 * 0x1_0000_0000u128
        + bytes[at + 12] as u128 * 0x1_00_0000u128
        + bytes[at + 13] as u128 * 0x1_0000u128
        + bytes[at + 14] as u128 * 0x1_00u128
        + bytes[at + 15] as u128
}

impl Hash32 {
    /// The value that 32 bytes spell: the first sixteen give the upper half,
    /// the last sixteen the lower, each most significant byte first.
    pub fn from_bytes(bytes: &[u8; 32]) -> (r: Self)
        ensures
            r.hi == spelled(bytes@, 0),
            r.lo == spelled(bytes@, 16),
    {
        Hash32 { hi: half(bytes, 0), lo: half(bytes, 16) }
    }

    /// The number that the 32 bytes spell.
    pub open spec fn number(self) -> int {
        self.hi as int * half_span() + self.lo as int
    }

    /// The value with these halves.
    pub fn new(hi: u128, lo: u128) -> (r: Self)
        ensures
            r == (Hash32 { hi, lo }),
    {
        Hash32 { hi, lo }
    }

    /// Whether both are the same value.
    pub fn same(&self, other: &Self) -> (r: bool)
        ensures
            r == (*self == *other),
            r == (self.number() == other.number()),
    {
        self.hi == other.hi && self.lo == other.lo
    }

    /// Whether this value spells the smaller number.
    pub fn precedes(&self, other: &Self) -> (r: bool)
        ensures
            r == (self.number() < other.number()),
    {
        self.hi < other.hi || (self.hi == other.hi && self.lo < other.lo)
    }

    /// Distinct values spell distinct numbers.
    pub proof fn number_identifies(a: Self, b: Self)
        requires
            a.number() == b.number(),
        ensures
            a == b,
    {
    }
}

/// Identifier of an asset.
#[derive(Copy, Clone, PartialEq, Eq, Structural, Debug)]
pub struct AssetId(pub Hash32);

/// Identifier of a transaction.
#[derive(Copy, Clone, PartialEq, Eq, Structural, Debug)]
pub struct Txid(pub Hash32);

/// Identifier of a peg order on the market server.
#[derive(Copy, Clone, PartialEq, Eq, Structural, Debug)]
pub struct OrderId(pub Hash32);

/// Identifier of a quote on the market server.
#[derive(Copy, Clone, PartialEq, Eq, Structural, Debug)]
pub struct QuoteId(pub u64);

/// A transaction output, named by its transaction and position.
#[derive(Copy, Clone, PartialEq, Eq, Structural, Debug)]
pub struct OutPoint {
    pub txid: Txid,
    pub vout: u32,
}

impl AssetId {
    /// Whether both name the same asset.
    pub fn same(&self, other: &Self) -> (r: bool)
        ensures
            r == (*self == *other),
    {
        self.0.same(&other.0)
    }
}

impl OutPoint {
    /// Whether both name the same output.
    pub fn same(&self, other: &Self) -> (r: bool)
        ensures
            r == (*self == *other),
    {
        self.txid.0.same(&other.txid.0) && self.vout == other.vout
    }
}

impl Key for Txid {
    open spec fn rank(&self) -> int {
        self.0.number()
    }

    proof fn rank_identifies(a: Self, b: Self) {
        Hash32::number_identifies(a.0, b.0);
    }

    fn same(&self, other: &Self) -> (r: bool) {
        self.0.same(&other.0)
    }

    fn precedes(&self, other: &Self) -> (r: bool) {
        self.0.precedes(&other.0)
    }
}

impl Key for OrderId {
    open spec fn rank(&self) -> int {
        self.0.number()
    }

    proof fn rank_identifies(a: Self, b: Self) {
        Hash32::number_identifies(a.0, b.0);
    }

    fn same(&self, other: &Self) -> (r: bool) {
        self.0.same(&other.0)
    }

    fn precedes(&self, other: &Self) -> (r: bool) {
        self.0.precedes(&other.0)
    }
}

impl Key for QuoteId {
    open spec fn rank(&self) -> int {
        self.0 as int
    }

    proof fn rank_identifies(a: Self, b: Self) {
    }

    fn same(&self, other: &Self) -> (r: bool) {
        self.0 == other.0
    }

    fn precedes(&self, other: &Self) -> (r: bool) {
        self.0 < other.0
    }
}

impl Key for u32 {
    open spec fn rank(&self) -> int {
        *self as int
    }

    proof fn rank_identifies(a: Self, b: Self) {
    }

    fn same(&self, other: &Self) -> (r: bool) {
        *self == *other
    }

    fn precedes(&self, other: &Self) -> (r: bool) {
        *self < *other
    }
}

} // verus!
