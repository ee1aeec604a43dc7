//! a local (single-threaded) tagged lock
use vstd::prelude::*;

verus! {

/// A raw local tagged mutex
pub type RawMutex = crate::mutex::raw::Mutex<LocalTaggedLock>;

/// A local tagged mutex
pub type Mutex<T> = crate::mutex::Mutex<LocalTaggedLock, T>;

/// The lock bit of a [`LocalTaggedLock`] word
pub const LOCAL_LOCK_BIT: u8 = 1;

/// The lock bit stands below the tag, which fills the other seven bits
pub const LOCAL_TAG_SHIFT: u8 = 1;

/// The bit facts about local tagged lock words that the operations rely on:
/// `s` is a word, `t` a tag
pub proof fn lemma_local_tagged_bits(s: u8, t: u8, o: u8)
    by (bit_vector)
    ensures
        s >> 1u8 < 128u8,
        ((s & 1u8 != 0u8) == (o & 1u8 != 0u8) && s >> 1u8 == o >> 1u8) ==> s == o,
        0u8 & 1u8 == 0u8,
        0u8 >> 1u8 == 0u8,
        (t << 1u8) & 1u8 == 0u8,
        (t << 1u8) >> 1u8 == t & 0x7fu8,
        (s & ((t << 1u8) | 1u8)) >> 1u8 == (s >> 1u8) & t,
        ((s & ((t << 1u8) | 1u8)) & 1u8 != 0u8) == (s & 1u8 != 0u8),
        (s | (t << 1u8)) >> 1u8 == (s >> 1u8) | (t & 0x7fu8),
        ((s | (t << 1u8)) & 1u8 != 0u8) == (s & 1u8 != 0u8),
        ((s & 1u8) | (t << 1u8)) >> 1u8 == t & 0x7fu8,
        (((s & 1u8) | (t << 1u8)) & 1u8 != 0u8) == (s & 1u8 != 0u8),
        (s | 1u8) & 1u8 != 0u8,
        (s | 1u8) >> 1u8 == s >> 1u8,
        (s & 1u8 != 0u8) ==> (s | 1u8) == s,
        (s & !1u8) & 1u8 == 0u8,
        (s & !1u8) >> 1u8 == s >> 1u8,
{
}

/// a local (single-threaded) tagged lock
///
/// The lowest bit of the word is the lock bit, the upper seven bits store a tag.
pub struct LocalTaggedLock {
    state: u8,
}

impl LocalTaggedLock {
    /// The number of bits that this mutex can store
    ///
    /// This is guaranteed to be exactly 7
    pub const TAG_BITS: u8 = 7;

    /// Whether the lock is held
    pub closed spec fn locked(&self) -> bool {
        self.state & LOCAL_LOCK_BIT != 0
    }

    /// The stored tag, always below `1 << TAG_BITS`
    pub closed spec fn tag_value(&self) -> u8 {
        self.state >> LOCAL_TAG_SHIFT
    }

    /// The tag is a seven bit number
    pub proof fn lemma_tag_bound(&self)
        ensures
            self.tag_value() < 128,
    {
        lemma_local_tagged_bits(self.state, 0u8, self.state);
    }

    /// Two tagged locks with the same lock bit and tag are the same lock word
    pub proof fn lemma_view_determines(&self, other: &Self)
        requires
            self.locked() == other.locked(),
            self.tag_value() == other.tag_value(),
        ensures
            *self == *other,
    {
        lemma_local_tagged_bits(self.state, 0u8, other.state);
    }

    /// create a local (single-threaded) tagged lock
    pub fn new() -> (r: Self)
        ensures
            !r.locked(),
            r.tag_value() == 0,
    {
        proof {
            lemma_local_tagged_bits(0u8, 0u8, 0u8);
        }
        Self { state: 0 }
    }

    /// create a local (single-threaded) tagged lock with the given tag
    ///
    /// Only the lower seven bits of the tag are kept.
    pub fn with_tag(tag: u8) -> (r: Self)
        ensures
            !r.locked(),
            r.tag_value() == tag & 0x7f,
    {
        let state: u8 = tag << LOCAL_TAG_SHIFT;
        proof {
            lemma_local_tagged_bits(0u8, tag, 0u8);
        }
        Self { state }
    }

    /// Get the tag
    pub fn tag(&self) -> (r: u8)
        ensures
            r == self.tag_value(),
    {
        self.state >> LOCAL_TAG_SHIFT
    }

    /// perform a bit-wise and with the given tag and the stored tag
    ///
    /// returns the old tag
    pub fn and_tag(&mut self, tag: u8) -> (r: u8)
        ensures
            r == old(self).tag_value(),
            final(self).tag_value() == old(self).tag_value() & tag,
            final(self).locked() == old(self).locked(),
    {
        let mask: u8 = (tag << LOCAL_TAG_SHIFT) | LOCAL_LOCK_BIT;
        let state: u8 = self.state;
        self.state = state & mask;
        proof {
            lemma_local_tagged_bits(state, tag, state);
        }
        state >> LOCAL_TAG_SHIFT
    }

    /// perform a bit-wise or with the given tag and the stored tag
    ///
    /// returns the old tag; only the lower seven bits of `tag` can be set
    pub fn or_tag(&mut self, tag: u8) -> (r: u8)
        ensures
            r == old(self).tag_value(),
            final(self).tag_value() == old(self).tag_value() | (tag & 0x7f),
            final(self).locked() == old(self).locked(),
    {
        let bits: u8 = tag << LOCAL_TAG_SHIFT;
        let state: u8 = self.state;
        self.state = state | bits;
        proof {
            lemma_local_tagged_bits(state, tag, state);
        }
        state >> LOCAL_TAG_SHIFT
    }

    /// swap the tag with the given tag
    ///
    /// returns the old tag; only the lower seven bits of `tag` are stored
    pub fn replace_tag(&mut self, tag: u8) -> (r: u8)
        ensures
            r == old(self).tag_value(),
            final(self).tag_value() == tag & 0x7f,
            final(self).locked() == old(self).locked(),
    {
        let state: u8 = self.state;
        let bits: u8 = tag << LOCAL_TAG_SHIFT;
        self.state = (state & LOCAL_LOCK_BIT) | bits;
        proof {
            lemma_local_tagged_bits(state, tag, state);
        }
        state >> LOCAL_TAG_SHIFT
    }

    /// set the tag with the given tag
    pub fn set_tag(&mut self, tag: u8)
        ensures
            final(self).tag_value() == tag & 0x7f,
            final(self).locked() == old(self).locked(),
    {
        self.replace_tag(tag);
    }

    /// Create a new raw local tagged mutex
    pub fn raw_mutex() -> (r: RawMutex)
        ensures
            !r.lock_view().locked(),
            r.lock_view().tag_value() == 0,
    {
        crate::mutex::raw::Mutex::from_raw(Self::new())
    }

    /// Create a new local tagged mutex
    pub fn mutex<T>(value: T) -> (r: Mutex<T>)
        ensures
            !r.lock_view().locked(),
            r.lock_view().tag_value() == 0,
            r.value_view() == value,
    {
        crate::mutex::Mutex::from_raw_parts(Self::raw_mutex(), value)
    }
}

impl crate::Init for LocalTaggedLock {
    open spec fn is_init(&self) -> bool {
        !self.locked() && self.tag_value() == 0
    }

    fn init() -> (r: Self) {
        proof {
            lemma_local_tagged_bits(0u8, 0u8, 0u8);
        }
        LocalTaggedLock { state: 0 }
    }
}

impl crate::RawLockInfo for LocalTaggedLock {
    type ExclusiveGuardTraits = ();
    type ShareGuardTraits = ();
}

impl crate::mutex::RawMutex for LocalTaggedLock {
    proof fn lemma_init_available(&self) {
    }
}

impl crate::exclusive_lock::RawExclusiveLock for LocalTaggedLock {
    open spec fn exc_wf(&self) -> bool {
        true
    }

    open spec fn exc_count(&self) -> nat {
        if self.locked() { 1 } else { 0 }
    }

    open spec fn exc_available(&self) -> bool {
        !self.locked()
    }

    proof fn lemma_available_unheld(&self) {
    }

    /// Bumping leaves the lock word as it is
    open spec fn exc_bumped(&self) -> Self {
        *self
    }

    fn exc_lock(&mut self)
        ensures
            final(self).locked(),
            final(self).tag_value() == old(self).tag_value(),
    {
        let state: u8 = self.state;
        self.state = state | LOCAL_LOCK_BIT;
        proof {
            lemma_local_tagged_bits(state, 0u8, state);
        }
    }

    fn exc_try_lock(&mut self) -> (r: bool)
        ensures
            final(self).locked(),
            final(self).tag_value() == old(self).tag_value(),
    {
        let state: u8 = self.state;
        self.state = state | LOCAL_LOCK_BIT;
        proof {
            lemma_local_tagged_bits(state, 0u8, state);
        }
        state & LOCAL_LOCK_BIT == 0
    }

    fn exc_unlock(&mut self)
        ensures
            !final(self).locked(),
            final(self).tag_value() == old(self).tag_value(),
    {
        let state: u8 = self.state;
        self.state = state & !LOCAL_LOCK_BIT;
        proof {
            lemma_local_tagged_bits(state, 0u8, state);
        }
    }

    fn exc_bump(&mut self)
        ensures
            *final(self) == *old(self),
    {
    }
}

} // verus!
