//! A slab: a vector of slots whose free slots form a linked list
use vstd::prelude::*;

verus! {

/// A slot of a [`Slab`]
pub enum Entry<T> {
    /// A free slot, holding the next free slot of the list
    Vacant(usize),
    /// A slot holding a value
    Occupied(T),
}

/// The number of occupied slots in `s`
pub open spec fn occupied_count<T>(s: Seq<Entry<T>>) -> nat
    decreases s.len(),
{
    if s.len() == 0 {
        0
    } else {
        occupied_count(s.drop_last()) + if s.last() is Occupied { 1nat } else { 0nat }
    }
}

/// A sequence of slots holds no more values than it has slots
proof fn lemma_occupied_bound<T>(s: Seq<Entry<T>>)
    ensures
        occupied_count(s) <= s.len(),
    decreases s.len(),
{
    if s.len() > 0 {
        lemma_occupied_bound(s.drop_last());
    }
}

/// Adding a slot adds one to the count exactly when the slot is occupied
/// A slot sequence with a vacant slot has fewer occupied slots than slots
proof fn lemma_occupied_vacant<T>(s: Seq<Entry<T>>, i: int)
    requires
        0 <= i < s.len(),
        s[i] is Vacant,
    ensures
        occupied_count(s) < s.len(),
    decreases s.len(),
{
    if i == s.len() - 1 {
        lemma_occupied_bound(s.drop_last());
    } else {
        lemma_occupied_vacant(s.drop_last(), i);
    }
}

proof fn lemma_occupied_push<T>(s: Seq<Entry<T>>, e: Entry<T>)
    ensures
        occupied_count(s.push(e)) == occupied_count(s) + if e is Occupied { 1nat } else { 0nat },
{
    assert(s.push(e).drop_last() =~= s);
}

/// Two sequences of slots that are occupied at the same places hold the
/// same number of values
proof fn lemma_occupied_shape<T>(s1: Seq<Entry<T>>, s2: Seq<Entry<T>>)
    requires
        s1.len() == s2.len(),
        forall|i: int| 0 <= i < s1.len() ==> (s1[i] is Occupied <==> s2[i] is Occupied),
    ensures
        occupied_count(s1) == occupied_count(s2),
    decreases s1.len(),
{
    if s1.len() > 0 {
        lemma_occupied_shape(s1.drop_last(), s2.drop_last());
    }
}

/// Replacing one slot changes the count by what the old and new slot hold
proof fn lemma_occupied_update<T>(s: Seq<Entry<T>>, i: int, e: Entry<T>)
    requires
        0 <= i < s.len(),
    ensures
        occupied_count(s.update(i, e)) + (if s[i] is Occupied { 1nat } else { 0nat })
            == occupied_count(s) + (if e is Occupied { 1nat } else { 0nat }),
    decreases s.len(),
{
    let t = s.update(i, e);
    if i == s.len() - 1 {
        assert(t.drop_last() =~= s.drop_last());
    } else {
        assert(t.drop_last() =~= s.drop_last().update(i, e));
        lemma_occupied_update(s.drop_last(), i, e);
    }
}

/// The key of a value stored in a [`Slab`]
#[derive(Clone, Copy, PartialEq, Eq, Structural)]
pub struct Index(pub usize);

/// A vector of slots; a removed value leaves a free slot that the next
/// insertion reuses
pub struct Slab<T> {
    entries: Vec<Entry<T>>,
    len: usize,
    next: usize,
    free: Ghost<Seq<usize>>,
}

impl<T> Slab<T> {
    /// The stored values, by slot
    pub closed spec fn view(&self) -> Map<usize, T> {
        Map::new(
            |i: usize| i < self.entries@.len() && self.entries@[i as int] is Occupied,
            |i: usize| self.entries@[i as int]->Occupied_0,
        )
    }

    /// The number of slots, free or not
    pub closed spec fn slots(&self) -> nat {
        self.entries@.len()
    }

    /// The free slots, in the order the next insertions will take them
    pub closed spec fn free_list(&self) -> Seq<usize> {
        self.free@
    }

    /// The number of stored values
    pub closed spec fn stored(&self) -> nat {
        occupied_count(self.entries@)
    }

    /// The link stored in the free slot at position `k` of the free list
    spec fn link_after(&self, k: int) -> usize {
        if k + 1 < self.free@.len() { self.free@[k + 1] } else { self.entries@.len() as usize }
    }

    /// The free list starts at `next`, visits every free slot exactly once,
    /// each free slot links to the next one, and the last links past the end
    pub closed spec fn wf(&self) -> bool {
        &&& self.entries@.len() <= usize::MAX
        &&& self.len == occupied_count(self.entries@)
        &&& self.free@.no_duplicates()
        &&& self.next == (if self.free@.len() == 0 { self.entries@.len() as usize } else { self.free@[0] })
        &&& forall|k: int| 0 <= k < self.free@.len() ==> #[trigger] self.free@[k] < self.entries@.len()
        &&& forall|k: int| 0 <= k < self.free@.len()
            ==> self.entries@[#[trigger] self.free@[k] as int] == Entry::<T>::Vacant(self.link_after(k))
        &&& forall|i: int| 0 <= i < self.entries@.len() && #[trigger] self.entries@[i] is Vacant
            ==> self.free@.contains(i as usize)
    }

    /// Create an empty slab
    pub fn new() -> (r: Self)
        ensures
            r.wf(),
            r.view() == Map::<usize, T>::empty(),
            r.slots() == 0,
            r.stored() == 0,
            r.free_list().len() == 0,
    {
        let r = Slab { entries: Vec::new(), len: 0, next: 0, free: Ghost(Seq::empty()) };
        assert(r.view() =~= Map::<usize, T>::empty());
        r
    }

    /// The number of stored values
    pub fn len(&self) -> (r: usize)
        requires
            self.wf(),
        ensures
            r == self.stored(),
    {
        self.len
    }

    /// Stores a value in the first free slot, or in a new slot when none is free
    pub fn insert(&mut self, value: T) -> (r: Index)
        requires
            old(self).wf(),
            old(self).free_list().len() > 0 || old(self).slots() < usize::MAX,
        ensures
            final(self).wf(),
            !old(self).view().contains_key(r.0),
            final(self).view() == old(self).view().insert(r.0, value),
            final(self).stored() == old(self).stored() + 1,
            old(self).free_list().len() > 0 ==> r.0 == old(self).free_list()[0]
                && final(self).free_list() == old(self).free_list().drop_first()
                && final(self).slots() == old(self).slots(),
            old(self).free_list().len() == 0 ==> r.0 == old(self).slots()
                && final(self).slots() == old(self).slots() + 1
                && final(self).free_list().len() == 0,
    {
        let index: usize = self.next;
        proof {
            lemma_occupied_bound(self.entries@);
            if self.free@.len() > 0 {
                lemma_occupied_vacant(self.entries@, self.free@[0] as int);
            }
        }
        self.len = self.len + 1;
        if index < self.entries.len() {
            let ghost old_free = self.free@;
            proof {
                assert(self.free@.len() > 0);
                assert(self.entries@[old_free[0] as int] == Entry::<T>::Vacant(self.link_after(0)));
            }
            let next: usize = match &self.entries[index] {
                Entry::Vacant(n) => *n,
                Entry::Occupied(_) => index,
            };
            self.next = next;
            self.entries.set(index, Entry::Occupied(value));
            proof {
                lemma_occupied_update(old(self).entries@, index as int, Entry::Occupied(value));
                self.free = Ghost(old_free.drop_first());
                assert forall|k: int| 0 <= k < self.free@.len() implies
                    self.entries@[#[trigger] self.free@[k] as int] == Entry::<T>::Vacant(self.link_after(k)) by {
                    assert(self.free@[k] == old_free[k + 1]);
                    assert(old_free[k + 1] != old_free[0]);
                }
                assert forall|i: int| 0 <= i < self.entries@.len() && #[trigger] self.entries@[i] is Vacant
                    implies self.free@.contains(i as usize) by {
                    assert(i != index);
                    assert(old(self).entries@[i] is Vacant);
                    let k = choose|k: int| 0 <= k < old_free.len() && old_free[k] == i as usize;
                    assert(k != 0);
                    assert(self.free@[k - 1] == i as usize);
                }
                assert(self.view() =~= old(self).view().insert(index, value));
            }
        } else {
            proof {
                assert(self.free@.len() == 0) by {
                    if self.free@.len() > 0 {
                        assert(self.free@[0] < self.entries@.len());
                    }
                }
            }
            self.entries.push(Entry::Occupied(value));
            self.next = self.entries.len();
            proof {
                lemma_occupied_push(old(self).entries@, Entry::Occupied(value));
                assert(self.view() =~= old(self).view().insert(index, value));
                assert forall|i: int| 0 <= i < self.entries@.len() && #[trigger] self.entries@[i] is Vacant
                    implies self.free@.contains(i as usize) by {
                    assert(i < old(self).entries@.len());
                    assert(old(self).entries@[i] is Vacant);
                }
            }
        }
        Index(index)
    }

    /// Takes the value out of a slot, which joins the front of the free list
    ///
    /// Removing from a free slot or from past the end panics.
    pub fn remove(&mut self, index: Index) -> (r: T)
        requires
            old(self).wf(),
            old(self).view().contains_key(index.0),
        ensures
            final(self).wf(),
            r == old(self).view()[index.0],
            final(self).view() == old(self).view().remove(index.0),
            final(self).stored() + 1 == old(self).stored(),
            final(self).slots() == old(self).slots(),
            final(self).free_list() == seq![index.0].add(old(self).free_list()),
    {
        let Index(i) = index;
        let ghost old_free = self.free@;
        let mut entry = Entry::Vacant(self.next);
        core::mem::swap(&mut self.entries[i], &mut entry);
        self.next = i;
        proof {
            lemma_occupied_update(old(self).entries@, i as int, Entry::Vacant(old(self).next));
            assert(self.entries@ == old(self).entries@.update(i as int, Entry::Vacant(old(self).next)));
        }
        self.len = self.len - 1;
        proof {
            self.free = Ghost(seq![i].add(old_free));
            assert(!old_free.contains(i)) by {
                if old_free.contains(i) {
                    let k = choose|k: int| 0 <= k < old_free.len() && old_free[k] == i;
                    assert(old(self).entries@[i as int] is Vacant);
                }
            }
            assert forall|k: int| 0 <= k < self.free@.len() implies
                self.entries@[#[trigger] self.free@[k] as int] == Entry::<T>::Vacant(self.link_after(k)) by {
                if k > 0 {
                    assert(self.free@[k] == old_free[k - 1]);
                    assert(old_free[k - 1] != i);
                }
            }
            assert forall|a: int| 0 <= a < self.entries@.len() && #[trigger] self.entries@[a] is Vacant
                implies self.free@.contains(a as usize) by {
                if a != i as int {
                    assert(old(self).entries@[a] is Vacant);
                    let k = choose|k: int| 0 <= k < old_free.len() && old_free[k] == a as usize;
                    assert(self.free@[k + 1] == a as usize);
                } else {
                    assert(self.free@[0] == i);
                }
            }
            assert(self.view() =~= old(self).view().remove(i));
        }
        match entry {
            Entry::Occupied(value) => value,
            Entry::Vacant(_) => vstd::pervasive::unreached(),
        }
    }
}

impl<T> Slab<T> {
    /// An iterator over the stored values, from the first slot on
    pub fn iter_mut(&self) -> (r: IterMut)
        ensures
            r.pos() == 0,
    {
        IterMut { pos: 0 }
    }

    /// The first stored value at slot `pos` or after it, with its key
    fn next_from(&mut self, pos: usize) -> (r: Option<(Index, &mut T)>)
        requires
            old(self).wf(),
        ensures
            r is None ==> *final(self) == *old(self)
                && forall|i: usize| pos <= i ==> !old(self).view().contains_key(i),
            r matches Some(e) ==> pos <= e.0.0
                && old(self).view().contains_key(e.0.0)
                && *e.1 == old(self).view()[e.0.0]
                && (forall|i: usize| pos <= i < e.0.0 ==> !old(self).view().contains_key(i))
                && final(self).wf()
                && final(self).view() == old(self).view().insert(e.0.0, *final(e.1))
                && final(self).slots() == old(self).slots()
                && final(self).stored() == old(self).stored()
                && final(self).free_list() == old(self).free_list(),
    {
        let mut i: usize = pos;
        while i < self.entries.len() && !self.is_occupied(i)
            invariant
                pos <= i,
                forall|j: usize| pos <= j < i ==> !self.view().contains_key(j),
            decreases self.entries@.len() - i,
        {
            i = i + 1;
        }
        if i >= self.entries.len() {
            return None;
        }
        let ghost before = *self;
        proof {
            assert forall|s2: Seq<Entry<T>>| s2.len() == before.entries@.len()
                && (forall|j: int| 0 <= j < s2.len() ==> (before.entries@[j] is Occupied <==> s2[j] is Occupied))
                implies #[trigger] occupied_count(s2) == before.len by {
                lemma_occupied_shape(before.entries@, s2);
            }
        }
        let entry = &mut self.entries[i];
        match entry {
            Entry::Occupied(v) => {
                proof {
                    assert(before.view().contains_key(i));
                }
                Some((Index(i), v))
            },
            Entry::Vacant(_) => vstd::pervasive::unreached(),
        }
    }

    /// Whether slot `i` holds a value
    fn is_occupied(&self, i: usize) -> (r: bool)
        requires
            i < self.entries@.len(),
        ensures
            r == self.entries@[i as int] is Occupied,
    {
        match &self.entries[i] {
            Entry::Occupied(_) => true,
            Entry::Vacant(_) => false,
        }
    }
}

/// An iterator over the values of a [`Slab`], by key
///
/// It keeps the slot it has reached; each step is handed the slab it walks.
pub struct IterMut {
    pos: usize,
}

impl IterMut {
    /// The slot the next step starts from
    pub closed spec fn pos(&self) -> usize {
        self.pos
    }

    /// The next stored value of `slab`, with its key
    pub fn next<'b, T>(&mut self, slab: &'b mut Slab<T>) -> (r: Option<(Index, &'b mut T)>)
        requires
            old(slab).wf(),
        ensures
            r is None ==> *final(slab) == *old(slab)
                && forall|i: usize| old(self).pos() <= i ==> !old(slab).view().contains_key(i),
            r matches Some(e) ==> old(self).pos() <= e.0.0
                && old(slab).view().contains_key(e.0.0)
                && *e.1 == old(slab).view()[e.0.0]
                && (forall|i: usize| old(self).pos() <= i < e.0.0 ==> !old(slab).view().contains_key(i))
                && final(self).pos() == e.0.0 + 1
                && final(slab).wf()
                && final(slab).view() == old(slab).view().insert(e.0.0, *final(e.1))
                && final(slab).slots() == old(slab).slots()
                && final(slab).stored() == old(slab).stored(),
    {
        match slab.next_from(self.pos) {
            Some((index, v)) => {
                self.pos = index.0 + 1;
                Some((index, v))
            },
            None => None,
        }
    }
}

/// Inserting a value and removing it again by the key it got gives the value
/// back and leaves the stored values as they were: `m` is the view of a slab,
/// `k` the key [`Slab::insert`] picks, which no stored value has
pub proof fn insert_then_remove_restores<T>(m: Map<usize, T>, k: usize, v: T)
    requires
        !m.contains_key(k),
    ensures
        m.insert(k, v)[k] == v,
        m.insert(k, v).remove(k) == m,
{
    assert(m.insert(k, v).remove(k) =~= m);
}

/// The number of inserts among `ops` less the number of removes: `true`
/// stands for an insert, `false` for a remove
pub open spec fn net_inserts(ops: Seq<bool>) -> int
    decreases ops.len(),
{
    if ops.len() == 0 {
        0
    } else {
        net_inserts(ops.drop_last()) + if ops.last() { 1int } else { -1int }
    }
}

/// Over any run of inserts and removes, the number of stored values grows by
/// the inserts and shrinks by the removes: `slabs` is the run of slabs, and
/// `ops[i]` tells whether `slabs[i + 1]` came from `slabs[i]` by an insert
/// (`true`) or a remove (`false`); from an empty slab, `len` is then the
/// number of inserts less the number of removes
pub proof fn stored_counts_inserts_and_removes<T>(slabs: Seq<Slab<T>>, ops: Seq<bool>)
    requires
        slabs.len() == ops.len() + 1,
        forall|i: int| 0 <= i < ops.len() ==> (#[trigger] ops[i] ==> slabs[i + 1].stored() == slabs[i].stored() + 1),
        forall|i: int| 0 <= i < ops.len() ==> (!#[trigger] ops[i] ==> slabs[i + 1].stored() + 1 == slabs[i].stored()),
    ensures
        slabs.last().stored() == slabs[0].stored() + net_inserts(ops),
    decreases ops.len(),
{
    if ops.len() > 0 {
        let n: int = ops.len() - 1;
        let s2 = slabs.drop_last();
        let o2 = ops.drop_last();
        assert forall|i: int| 0 <= i < o2.len() && #[trigger] o2[i] implies s2[i + 1].stored() == s2[i].stored() + 1 by {
            assert(o2[i] == ops[i]);
        }
        assert forall|i: int| 0 <= i < o2.len() && !#[trigger] o2[i] implies s2[i + 1].stored() + 1 == s2[i].stored() by {
            assert(o2[i] == ops[i]);
        }
        stored_counts_inserts_and_removes(s2, o2);
        assert(ops[n] ==> slabs[n + 1].stored() == slabs[n].stored() + 1);
        assert(!ops[n] ==> slabs[n + 1].stored() + 1 == slabs[n].stored());
    }
}

} // verus!
