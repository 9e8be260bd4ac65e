//! Fixed-size pool of presentable buffers and their free/in-use bitmap.
//!
//! A buffer is identified by its index in the pool.  Acquisition hands out
//! the first free index in pool order and marks it in use; release marks an
//! index free again.  A frame is either produced immediately from a free
//! buffer or dropped: the pool never queues requests.

use vstd::prelude::*;

verus! {

/// Number of buffers the harness allocates: triple buffering.
pub const BUFFER_COUNT: usize = 3;

/// The first free index of the bitmap `s` at or after position `i`.
pub open spec fn first_free_from(s: Seq<bool>, i: int) -> Option<int>
    decreases s.len() - i,
{
    if i < 0 || i >= s.len() {
        None
    } else if s[i] {
        Some(i)
    } else {
        first_free_from(s, i + 1)
    }
}

/// The first free index of the bitmap `s` in pool order.
pub open spec fn first_free(s: Seq<bool>) -> Option<int> {
    first_free_from(s, 0)
}

/// How many slots of the bitmap `s` are in use (marked `false`).
pub open spec fn in_use_count(s: Seq<bool>) -> int
    decreases s.len(),
{
    if s.len() == 0 {
        0
    } else {
        in_use_count(s.drop_last()) + if s.last() {
            0int
        } else {
            1int
        }
    }
}

/// Ordered fixed-size collection of buffers, all backed by the same
/// constant fill color, with a parallel free/in-use bitmap.
pub struct BufferPool {
    free: Vec<bool>,
    fill_color: u32,
}

impl BufferPool {
    /// The free/in-use bitmap: `true` at an index means the slot is free.
    pub closed spec fn free_map(self) -> Seq<bool> {
        self.free@
    }

    /// The constant ARGB color every buffer of the pool was filled with.
    pub closed spec fn spec_fill_color(self) -> u32 {
        self.fill_color
    }

    /// Construct a pool of `count` buffers, all free, each to be backed by
    /// a single pixel of the constant color `fill_color`.
    pub fn allocate(count: usize, fill_color: u32) -> (pool: BufferPool)
        ensures
            pool.free_map().len() == count,
            forall|j: int| 0 <= j < count ==> pool.free_map()[j],
            pool.spec_fill_color() == fill_color,
    {
        let mut free: Vec<bool> = Vec::new();
        let mut i: usize = 0;
        while i < count
            invariant
                i <= count,
                free@.len() == i,
                forall|j: int| 0 <= j < i ==> free@[j],
            decreases count - i,
        {
            free.push(true);
            i += 1;
        }
        BufferPool { free, fill_color }
    }

    /// Number of slots in the pool.
    pub fn slot_count(&self) -> (n: usize)
        ensures
            n == self.free_map().len(),
    {
        self.free.len()
    }

    /// The constant ARGB color every buffer of the pool was filled with.
    pub fn fill_color(&self) -> (c: u32)
        ensures
            c == self.spec_fill_color(),
    {
        self.fill_color
    }

    /// Whether the slot at `index` is currently free.
    pub fn is_free(&self, index: usize) -> (r: bool)
        requires
            index < self.free_map().len(),
        ensures
            r == self.free_map()[index as int],
    {
        self.free[index]
    }

    /// Return the first free index in pool order and mark it in use, or
    /// return nothing when every slot is in use.  The caller must then
    /// skip frame production entirely: this is the backpressure signal.
    pub fn acquire_free(&mut self) -> (r: Option<usize>)
        ensures
            final(self).spec_fill_color() == old(self).spec_fill_color(),
            match r {
                Some(index) => {
                    &&& first_free(old(self).free_map()) == Some(index as int)
                    &&& index < old(self).free_map().len()
                    &&& old(self).free_map()[index as int]
                    &&& final(self).free_map() =~= old(self).free_map().update(
                        index as int,
                        false,
                    )
                },
                None => {
                    &&& first_free(old(self).free_map()) is None
                    &&& final(self).free_map() == old(self).free_map()
                },
            },
    {
        let n = self.free.len();
        let mut i: usize = 0;
        while i < n
            invariant
                n == self.free@.len(),
                i <= n,
                forall|j: int| 0 <= j < i ==> !self.free@[j],
                self == old(self),
            decreases n - i,
        {
            if self.free[i] {
                proof {
                    lemma_first_free_scan(self.free@, 0, i as int);
                }
                self.free.set(i, false);
                return Some(i);
            }
            i += 1;
        }
        proof {
            lemma_first_free_scan(self.free@, 0, n as int);
        }
        None
    }

    /// Mark `index` free.  Releasing an index that is already free leaves
    /// the bitmap as it was: the pool keeps no other state per slot.
    pub fn release(&mut self, index: usize)
        requires
            index < old(self).free_map().len(),
        ensures
            final(self).free_map() =~= old(self).free_map().update(index as int, true),
            final(self).spec_fill_color() == old(self).spec_fill_color(),
    {
        self.free.set(index, true);
    }
}

/// Scanning the bitmap past a prefix of in-use slots does not change which
/// index is the first free one.
proof fn lemma_first_free_scan(s: Seq<bool>, a: int, b: int)
    requires
        0 <= a <= b <= s.len(),
        forall|j: int| a <= j < b ==> !s[j],
    ensures
        first_free_from(s, a) == first_free_from(s, b),
    decreases b - a,
{
    if a < b {
        assert(!s[a]);
        lemma_first_free_scan(s, a + 1, b);
    }
}

/// An index the pool hands out is a valid, free slot.
pub proof fn lemma_first_free_valid(s: Seq<bool>, i: int)
    requires
        first_free(s) == Some(i),
    ensures
        0 <= i < s.len(),
        s[i],
{
    lemma_first_free_from_valid(s, 0, i);
}

proof fn lemma_first_free_from_valid(s: Seq<bool>, a: int, i: int)
    requires
        0 <= a,
        first_free_from(s, a) == Some(i),
    ensures
        a <= i < s.len(),
        s[i],
    decreases s.len() - a,
{
    if a < s.len() && !s[a] {
        lemma_first_free_from_valid(s, a + 1, i);
    }
}

/// However many slots a pool has, the number of buffers simultaneously in
/// use never exceeds that size.
pub proof fn lemma_in_use_bounded(s: Seq<bool>)
    ensures
        0 <= in_use_count(s) <= s.len(),
    decreases s.len(),
{
    if s.len() > 0 {
        lemma_in_use_bounded(s.drop_last());
    }
}

/// Acquiring the first free slot and then releasing that same index
/// restores the free bitmap to exactly its prior content: index identity
/// is stable and no other slot is touched.
pub proof fn lemma_acquire_release_restores(s: Seq<bool>, i: int)
    requires
        first_free(s) == Some(i),
    ensures
        s.update(i, false).update(i, true) =~= s,
{
    lemma_first_free_valid(s, i);
}

/// Acquiring a free slot puts exactly one more buffer in use.
pub proof fn lemma_acquire_uses_one_slot(s: Seq<bool>, i: int)
    requires
        0 <= i < s.len(),
        s[i],
    ensures
        in_use_count(s.update(i, false)) == in_use_count(s) + 1,
    decreases s.len(),
{
    if i == s.len() - 1 {
        assert(s.update(i, false).drop_last() =~= s.drop_last());
    } else {
        assert(s.update(i, false).drop_last() =~= s.drop_last().update(i, false));
        lemma_acquire_uses_one_slot(s.drop_last(), i);
    }
}

/// Releasing an in-use slot returns exactly one buffer to the pool.
pub proof fn lemma_release_frees_one_slot(s: Seq<bool>, i: int)
    requires
        0 <= i < s.len(),
        !s[i],
    ensures
        in_use_count(s.update(i, true)) == in_use_count(s) - 1,
    decreases s.len(),
{
    if i == s.len() - 1 {
        assert(s.update(i, true).drop_last() =~= s.drop_last());
    } else {
        assert(s.update(i, true).drop_last() =~= s.drop_last().update(i, true));
        lemma_release_frees_one_slot(s.drop_last(), i);
    }
}

} // verus!
