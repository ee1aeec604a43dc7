//! Counters for reentrant locks: how many extra times the owner holds the lock
use vstd::prelude::*;

verus! {

/// A small unsigned counter that converts to and from `usize`
pub trait Scalar: Copy + Sized {
    /// The number the counter stands for
    spec fn value(&self) -> nat;

    /// Whether `word` can be stored in the counter
    spec fn in_bounds(word: usize) -> bool;

    /// The counter can hold every number up to one it can hold, and 0
    proof fn lemma_in_bounds_down(word: usize, smaller: usize)
        requires
            Self::in_bounds(word),
            smaller <= word,
        ensures
            Self::in_bounds(smaller),
    ;

    /// The zero counter
    spec fn zero_spec() -> Self;

    /// Zero is in bounds
    proof fn lemma_zero_in_bounds()
        ensures
            Self::in_bounds(0),
            Self::zero_spec().value() == 0,
    ;

    /// A counter can always count one lock
    proof fn lemma_one_in_bounds()
        ensures
            Self::in_bounds(1),
    ;

    /// A value representing zero
    fn zero() -> (r: Self)
        ensures
            r.value() == 0,
            r == Self::zero_spec(),
    ;

    /// The number as a `usize`
    fn to_usize(self) -> (r: usize)
        requires
            self.value() <= usize::MAX,
        ensures
            r == self.value(),
    ;

    /// Whether `word` can be stored in the counter
    fn is_in_bounds(word: usize) -> (r: bool)
        ensures
            r == Self::in_bounds(word),
    ;

    /// The counter for `word`, which must be in bounds to be kept exactly
    fn from_usize_unchecked(word: usize) -> (r: Self)
        ensures
            Self::in_bounds(word) ==> r.value() == word,
    ;
}

impl Scalar for u8 {
    open spec fn value(&self) -> nat {
        *self as nat
    }

    open spec fn in_bounds(word: usize) -> bool {
        word <= u8::MAX
    }

    proof fn lemma_in_bounds_down(word: usize, smaller: usize) {
    }

    open spec fn zero_spec() -> Self {
        0
    }

    proof fn lemma_zero_in_bounds() {
    }

    proof fn lemma_one_in_bounds() {
    }

    fn zero() -> (r: Self) {
        0
    }

    fn to_usize(self) -> (r: usize) {
        self as usize
    }

    fn is_in_bounds(word: usize) -> (r: bool) {
        word <= u8::MAX as usize
    }

    fn from_usize_unchecked(word: usize) -> (r: Self) {
        word as u8
    }
}

impl Scalar for u16 {
    open spec fn value(&self) -> nat {
        *self as nat
    }

    open spec fn in_bounds(word: usize) -> bool {
        word <= u16::MAX
    }

    proof fn lemma_in_bounds_down(word: usize, smaller: usize) {
    }

    open spec fn zero_spec() -> Self {
        0
    }

    proof fn lemma_zero_in_bounds() {
    }

    proof fn lemma_one_in_bounds() {
    }

    fn zero() -> (r: Self) {
        0
    }

    fn to_usize(self) -> (r: usize) {
        self as usize
    }

    fn is_in_bounds(word: usize) -> (r: bool) {
        word <= u16::MAX as usize
    }

    fn from_usize_unchecked(word: usize) -> (r: Self) {
        word as u16
    }
}

impl Scalar for u32 {
    open spec fn value(&self) -> nat {
        *self as nat
    }

    open spec fn in_bounds(word: usize) -> bool {
        word <= u32::MAX
    }

    proof fn lemma_in_bounds_down(word: usize, smaller: usize) {
    }

    open spec fn zero_spec() -> Self {
        0
    }

    proof fn lemma_zero_in_bounds() {
    }

    proof fn lemma_one_in_bounds() {
    }

    fn zero() -> (r: Self) {
        0
    }

    /// on targets where `usize` is narrower than the counter, a counter
    /// above `usize::MAX` would not convert
    fn to_usize(self) -> (r: usize) {
        self as usize
    }

    fn is_in_bounds(word: usize) -> (r: bool) {
        (word as u64) <= (u32::MAX as u64)
    }

    fn from_usize_unchecked(word: usize) -> (r: Self) {
        word as u32
    }
}

impl Scalar for u64 {
    open spec fn value(&self) -> nat {
        *self as nat
    }

    open spec fn in_bounds(word: usize) -> bool {
        word <= u64::MAX
    }

    proof fn lemma_in_bounds_down(word: usize, smaller: usize) {
    }

    open spec fn zero_spec() -> Self {
        0
    }

    proof fn lemma_zero_in_bounds() {
    }

    proof fn lemma_one_in_bounds() {
    }

    fn zero() -> (r: Self) {
        0
    }

    /// on targets where `usize` is narrower than the counter, a counter
    /// above `usize::MAX` would not convert
    fn to_usize(self) -> (r: usize) {
        self as usize
    }

    fn is_in_bounds(word: usize) -> (r: bool) {
        true
    }

    fn from_usize_unchecked(word: usize) -> (r: Self) {
        word as u64
    }
}

/// The number of bytes in a [`SubWord`]: one less than a 64-bit word
pub const SUB_WORD_SIZE: usize = 7;

/// A counter one byte narrower than a 64-bit word, stored little-endian
#[derive(Clone, Copy, PartialEq, Eq)]
pub struct SubWord(pub [u8; 7]);

/// The number stored little-endian in seven bytes
pub open spec fn le_value(b: [u8; 7]) -> nat {
    (b[0] as nat) + 0x100 * (b[1] as nat) + 0x1_0000 * (b[2] as nat) + 0x100_0000 * (b[3] as nat)
        + 0x1_0000_0000 * (b[4] as nat) + 0x100_0000_0000 * (b[5] as nat) + 0x1_0000_0000_0000 * (b[6] as nat)
}

/// Seven bytes put together little-endian in a 64-bit word, and a word below
/// `1 << 56` taken apart into its seven low bytes
pub proof fn lemma_le_bytes(b0: u8, b1: u8, b2: u8, b3: u8, b4: u8, b5: u8, b6: u8, w: u64)
    by (bit_vector)
    ensures
        (b0 as u64) | ((b1 as u64) << 8u64) | ((b2 as u64) << 16u64) | ((b3 as u64) << 24u64)
            | ((b4 as u64) << 32u64) | ((b5 as u64) << 40u64) | ((b6 as u64) << 48u64)
            == (b0 as u64) + 0x100u64 * (b1 as u64) + 0x1_0000u64 * (b2 as u64) + 0x100_0000u64 * (b3 as u64)
            + 0x1_0000_0000u64 * (b4 as u64) + 0x100_0000_0000u64 * (b5 as u64)
            + 0x1_0000_0000_0000u64 * (b6 as u64),
        w < 0x100_0000_0000_0000u64 ==> w == ((w & 0xff) as u8) as u64
            + 0x100u64 * (((w >> 8u64) & 0xff) as u8) as u64
            + 0x1_0000u64 * (((w >> 16u64) & 0xff) as u8) as u64
            + 0x100_0000u64 * (((w >> 24u64) & 0xff) as u8) as u64
            + 0x1_0000_0000u64 * (((w >> 32u64) & 0xff) as u8) as u64
            + 0x100_0000_0000u64 * (((w >> 40u64) & 0xff) as u8) as u64
            + 0x1_0000_0000_0000u64 * (((w >> 48u64) & 0xff) as u8) as u64,
{
}

impl Scalar for SubWord {
    open spec fn value(&self) -> nat {
        le_value(self.0)
    }

    open spec fn in_bounds(word: usize) -> bool {
        word < 0x100_0000_0000_0000
    }

    proof fn lemma_in_bounds_down(word: usize, smaller: usize) {
    }

    open spec fn zero_spec() -> Self {
        SubWord([0u8, 0u8, 0u8, 0u8, 0u8, 0u8, 0u8])
    }

    proof fn lemma_zero_in_bounds() {
    }

    proof fn lemma_one_in_bounds() {
    }

    fn zero() -> (r: Self) {
        SubWord([0u8, 0u8, 0u8, 0u8, 0u8, 0u8, 0u8])
    }

    fn to_usize(self) -> (r: usize) {
        let b: [u8; 7] = self.0;
        let (b0, b1, b2, b3, b4, b5, b6) = (b[0], b[1], b[2], b[3], b[4], b[5], b[6]);
        let v: u64 = (b0 as u64) | ((b1 as u64) << 8u64) | ((b2 as u64) << 16u64) | ((b3 as u64) << 24u64)
            | ((b4 as u64) << 32u64) | ((b5 as u64) << 40u64) | ((b6 as u64) << 48u64);
        proof {
            lemma_le_bytes(b0, b1, b2, b3, b4, b5, b6, 0u64);
        }
        v as usize
    }

    fn is_in_bounds(word: usize) -> (r: bool) {
        (word as u64) < 0x100_0000_0000_0000u64
    }

    fn from_usize_unchecked(word: usize) -> (r: Self) {
        let w: u64 = word as u64;
        let b: [u8; 7] = [
            (w & 0xff) as u8,
            ((w >> 8u64) & 0xff) as u8,
            ((w >> 16u64) & 0xff) as u8,
            ((w >> 24u64) & 0xff) as u8,
            ((w >> 32u64) & 0xff) as u8,
            ((w >> 40u64) & 0xff) as u8,
            ((w >> 48u64) & 0xff) as u8,
        ];
        proof {
            lemma_le_bytes(0u8, 0u8, 0u8, 0u8, 0u8, 0u8, 0u8, w);
        }
        SubWord(b)
    }
}

} // verus!
