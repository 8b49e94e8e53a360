//! Forward, finite producers of handles over a slice handle.

use core::marker::PhantomData;
use vstd::prelude::*;

use crate::slice::SliceExists;
use crate::Exists;

verus! {

/// A forward producer of read handles, one per certified position of a slice
/// handle, in address order.
///
/// The cursor starts at the slice handle's first position and its end is
/// fixed at creation, one past the last position; each step yields the
/// handle at the cursor and moves one position forward.
pub struct Iter<T> {
    /// The position the next yielded handle will certify.
    pub cur: usize,
    /// One past the last position to yield.
    pub end: usize,
    /// The element type of the yielded handles.
    pub marker: PhantomData<T>,
}

impl<T> Iter<T> {
    /// The positions this producer has yet to yield, in order.
    pub open spec fn yields(&self) -> Seq<usize> {
        if self.cur <= self.end {
            Seq::new((self.end - self.cur) as nat, |i: int| (self.cur + i) as usize)
        } else {
            Seq::empty()
        }
    }

    /// Yields the read handle at the cursor and advances, or `None` exactly
    /// when the cursor has reached the end.
    pub fn next(&mut self) -> (r: Option<Exists<T>>)
        ensures
            final(self).end == old(self).end,
            r.is_some() <==> old(self).yields().len() > 0,
            r.is_some() ==> (r == Some(
                (Exists::<T> { addr: old(self).cur, writable: false, marker: PhantomData }),
            ) && final(self).cur == old(self).cur + 1 && final(self).yields() == old(
                self,
            ).yields().drop_first()),
            r.is_none() ==> *final(self) == *old(self),
    {
        if self.cur < self.end {
            let p = self.cur;
            self.cur = p + 1;
            proof {
                assert(self.yields() =~= old(self).yields().drop_first());
            }
            Some(Exists { addr: p, writable: false, marker: PhantomData })
        } else {
            None
        }
    }
}

/// A forward producer of write handles, one per certified position of a
/// slice handle, in address order.
///
/// Identical to [`Iter`], but the yielded handles carry the write
/// capability.  Yielding successive handles from one pass is always sound,
/// since a handle never asserts exclusivity; each write made through them
/// borrows the storage in turn.
pub struct IterMut<T> {
    /// The position the next yielded handle will certify.
    pub cur: usize,
    /// One past the last position to yield.
    pub end: usize,
    /// The element type of the yielded handles.
    pub marker: PhantomData<T>,
}

impl<T> IterMut<T> {
    /// The positions this producer has yet to yield, in order.
    pub open spec fn yields(&self) -> Seq<usize> {
        if self.cur <= self.end {
            Seq::new((self.end - self.cur) as nat, |i: int| (self.cur + i) as usize)
        } else {
            Seq::empty()
        }
    }

    /// Yields the write handle at the cursor and advances, or `None` exactly
    /// when the cursor has reached the end.
    pub fn next(&mut self) -> (r: Option<Exists<T>>)
        ensures
            final(self).end == old(self).end,
            r.is_some() <==> old(self).yields().len() > 0,
            r.is_some() ==> (r == Some(
                (Exists::<T> { addr: old(self).cur, writable: true, marker: PhantomData }),
            ) && final(self).cur == old(self).cur + 1 && final(self).yields() == old(
                self,
            ).yields().drop_first()),
            r.is_none() ==> *final(self) == *old(self),
    {
        if self.cur < self.end {
            let p = self.cur;
            self.cur = p + 1;
            proof {
                assert(self.yields() =~= old(self).yields().drop_first());
            }
            Some(Exists { addr: p, writable: true, marker: PhantomData })
        } else {
            None
        }
    }
}

/// Iteration completeness and order: a producer made by
/// [`SliceExists::iter`] over a slice handle of length `L` has exactly `L`
/// positions to yield (that constructor's contract states so), and the
/// positions still to yield always grow strictly, by one step each, until
/// none is left and the producer stops.
pub proof fn lemma_iteration_order<T>(it: Iter<T>)
    ensures
        forall|i: int, j: int|
            0 <= i < j < it.yields().len() ==> it.yields()[i] < it.yields()[j],
        forall|i: int|
            0 <= i < it.yields().len() ==> it.yields()[i] == it.cur + i,
{
}

/// A forward producer of slice handles over consecutive chunks of a slice
/// handle.
///
/// Each step splits the remaining run after at most `chunk_size` positions,
/// yields the front portion and keeps the remainder; the last yielded chunk
/// may be shorter than `chunk_size`.  It terminates when the remainder is
/// empty (with a chunk size of zero it never shrinks the remainder, as every
/// yielded chunk is then empty).
pub struct Chunks<T> {
    /// The remainder still to be chunked.
    pub v: SliceExists<T>,
    /// The number of positions each yielded chunk covers, except a shorter
    /// final one.
    pub chunk_size: usize,
}

impl<T> Chunks<T> {
    /// How many positions the next yielded chunk covers.
    pub open spec fn next_chunk_len(&self) -> usize {
        if self.chunk_size < self.v.len {
            self.chunk_size
        } else {
            self.v.len
        }
    }

    /// Yields a slice handle over the front of the remainder and retains the
    /// rest, or `None` exactly when the remainder is empty.  The yielded
    /// chunk and the new remainder together cover the old remainder with no
    /// overlap.
    pub fn next(&mut self) -> (r: Option<SliceExists<T>>)
        requires
            old(self).v.addressable(),
        ensures
            final(self).chunk_size == old(self).chunk_size,
            final(self).v.addressable(),
            r.is_some() <==> old(self).v.len > 0,
            r.is_some() ==> (r == Some(
                (SliceExists::<T> {
                    addr: old(self).v.addr,
                    len: old(self).next_chunk_len(),
                    writable: old(self).v.writable,
                    marker: PhantomData,
                }),
            ) && final(self).v == (SliceExists::<T> {
                addr: (old(self).v.addr + old(self).next_chunk_len()) as usize,
                len: (old(self).v.len - old(self).next_chunk_len()) as usize,
                writable: old(self).v.writable,
                marker: PhantomData,
            })),
            r.is_none() ==> *final(self) == *old(self),
    {
        if self.v.is_empty() {
            None
        } else {
            let k = if self.v.len() < self.chunk_size {
                self.v.len()
            } else {
                self.chunk_size
            };
            let (before, after) = self.v.split_at(k);
            self.v = after;
            Some(before)
        }
    }
}

} // verus!
