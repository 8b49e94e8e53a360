//! [`Exists<T>`] but for a contiguous run of elements, and operations on
//! slice handles.

use core::marker::PhantomData;
use vstd::prelude::*;

use crate::Exists;

mod index;
mod iter;

pub use index::Sealed;
pub use index::SliceExistsIndex;
pub use index::slice_end_index_len_fail;
pub use index::slice_index_order_fail;
pub use index::slice_index_past_end;
pub use index::slice_start_index_len_fail;
pub use iter::Chunks;
pub use iter::Iter;
pub use iter::IterMut;

verus! {

/// A marker certifying that a contiguous run of values of type `T` is
/// present in some caller-owned storage.
///
/// This operates like [`Exists<T>`], but certifies `len` consecutive
/// positions starting at `addr`.  It decomposes into `len` scalar handles,
/// each individually valid; indexing and iteration carve such handles out by
/// address arithmetic alone.
pub struct SliceExists<T> {
    /// The first certified position within the storage.
    pub addr: usize,
    /// How many consecutive positions are certified.
    pub len: usize,
    /// Whether this handle grants write access.
    pub writable: bool,
    /// The element type only tags the handle, as for [`Exists<T>`].
    pub marker: PhantomData<T>,
}

impl<T> SliceExists<T> {
    /// True when every certified position lies inside storage with
    /// contents `m`.
    pub open spec fn valid_for(&self, m: Seq<T>) -> bool {
        self.addr + self.len <= m.len()
    }

    /// True when the certified run fits in the address space; every handle
    /// carved from real storage does, since the storage itself fits.
    pub open spec fn addressable(&self) -> bool {
        self.addr + self.len <= usize::MAX
    }

    /// Certifies read access to the run of positions `[addr, addr + len)` of
    /// the storage `m`.
    pub fn from_ref(m: &Vec<T>, addr: usize, len: usize) -> (h: Self)
        requires
            addr + len <= m@.len(),
        ensures
            h.addr == addr,
            h.len == len,
            !h.writable,
    {
        SliceExists { addr, len, writable: false, marker: PhantomData }
    }

    /// Certifies write access to the run, on the strength of shared,
    /// interior-mutable access to the whole of it.
    pub fn from_cell(m: &Vec<T>, addr: usize, len: usize) -> (h: Self)
        requires
            addr + len <= m@.len(),
        ensures
            h.addr == addr,
            h.len == len,
            h.writable,
    {
        SliceExists { addr, len, writable: true, marker: PhantomData }
    }

    /// Certifies write access to the run, on the strength of shared access
    /// to a run of interior-mutable cells.
    pub fn from_cell_slice(m: &Vec<T>, addr: usize, len: usize) -> (h: Self)
        requires
            addr + len <= m@.len(),
        ensures
            h.addr == addr,
            h.len == len,
            h.writable,
    {
        SliceExists { addr, len, writable: true, marker: PhantomData }
    }

    /// Certifies write access to the run, on the strength of exclusive
    /// access to it.
    pub fn from_mut(m: &Vec<T>, addr: usize, len: usize) -> (h: Self)
        requires
            addr + len <= m@.len(),
        ensures
            h.addr == addr,
            h.len == len,
            h.writable,
    {
        SliceExists { addr, len, writable: true, marker: PhantomData }
    }

    /// Certifies read access to a bare run of positions, with no storage
    /// presented; the caller asserts validity, and each access still demands
    /// it in its own contract.
    pub fn from_ptr(addr: usize, len: usize) -> (h: Self)
        ensures
            h.addr == addr,
            h.len == len,
            !h.writable,
    {
        SliceExists { addr, len, writable: false, marker: PhantomData }
    }

    /// Certifies write access to a bare run of positions, with no storage
    /// presented; the caller asserts validity.
    pub fn from_mut_ptr(addr: usize, len: usize) -> (h: Self)
        ensures
            h.addr == addr,
            h.len == len,
            h.writable,
    {
        SliceExists { addr, len, writable: true, marker: PhantomData }
    }

    /// Upgrades a read handle to a write handle over the same run, without
    /// any check; the caller must independently know the run may be written.
    pub fn assume_mutable(&self) -> (h: Self)
        ensures
            h.addr == self.addr,
            h.len == self.len,
            h.writable,
    {
        SliceExists { addr: self.addr, len: self.len, writable: true, marker: PhantomData }
    }

    /// Duplicates a write handle into `n` handles that all certify the same
    /// run, as [`Exists::copy_mut`] does for one position.
    pub fn copy_mut(&self, n: usize) -> (r: Vec<Self>)
        requires
            self.writable,
        ensures
            r@.len() == n,
            forall|i: int| 0 <= i < n ==> r@[i] == *self,
    {
        let mut r: Vec<Self> = Vec::new();
        let mut k: usize = 0;
        while k < n
            invariant
                k <= n,
                r@.len() == k,
                forall|i: int| 0 <= i < k ==> r@[i] == *self,
            decreases n - k,
        {
            r.push(
                SliceExists {
                    addr: self.addr,
                    len: self.len,
                    writable: self.writable,
                    marker: PhantomData,
                },
            );
            k = k + 1;
        }
        r
    }

    /// The number of certified positions.  No element is read to answer.
    pub fn len(&self) -> (r: usize)
        ensures
            r == self.len,
    {
        self.len
    }

    /// The first certified position.
    pub fn as_ptr(&self) -> (r: usize)
        ensures
            r == self.addr,
    {
        self.addr
    }

    /// The first certified position; demands the write capability.
    pub fn as_mut_ptr(&self) -> (r: usize)
        requires
            self.writable,
        ensures
            r == self.addr,
    {
        self.addr
    }

    /// The sub-handle at `index`, or `None` exactly when the index is out
    /// of bounds.
    ///
    /// A position yields a scalar read handle, a range a slice read handle
    /// over the selected sub-run; either is carved out by address arithmetic
    /// alone.
    pub fn get<I: SliceExistsIndex<T>>(&self, index: I) -> (r: Option<I::Output>)
        requires
            self.addressable(),
        ensures
            r == if index.in_bounds(*self) {
                Some(index.sub_handle(*self, false))
            } else {
                None::<I::Output>
            },
    {
        index.get(self)
    }

    /// The write sub-handle at `index`, or `None` exactly when the index is
    /// out of bounds; demands this handle's write capability.
    pub fn get_mut<I: SliceExistsIndex<T>>(&self, index: I) -> (r: Option<I::Output>)
        requires
            self.addressable(),
            self.writable,
        ensures
            r == if index.in_bounds(*self) {
                Some(index.sub_handle(*self, true))
            } else {
                None::<I::Output>
            },
    {
        index.get_mut(self)
    }

    /// The sub-handle at `index`, with the bounds check demanded of the
    /// caller instead of performed.
    pub fn get_unchecked<I: SliceExistsIndex<T>>(&self, index: I) -> (r: I::Output)
        requires
            self.addressable(),
            index.in_bounds(*self),
        ensures
            r == index.sub_handle(*self, false),
    {
        index.get_unchecked(self)
    }

    /// The write sub-handle at `index`, with the bounds check demanded of
    /// the caller instead of performed; demands the write capability.
    pub fn get_unchecked_mut<I: SliceExistsIndex<T>>(&self, index: I) -> (r: I::Output)
        requires
            self.addressable(),
            self.writable,
            index.in_bounds(*self),
        ensures
            r == index.sub_handle(*self, true),
    {
        index.get_unchecked_mut(self)
    }

    /// The sub-handle at `index`.  An out-of-bounds index is the fatal tier
    /// of the indexing protocol and is excluded here; see the message
    /// functions of this module for the diagnostics it carries.
    pub fn index<I: SliceExistsIndex<T>>(&self, index: I) -> (r: I::Output)
        requires
            self.addressable(),
            index.in_bounds(*self),
        ensures
            r == index.sub_handle(*self, false),
    {
        index.index(self)
    }

    /// The write sub-handle at `index`, under the same exclusions as
    /// [`SliceExists::index`]; demands the write capability.
    pub fn index_mut<I: SliceExistsIndex<T>>(&self, index: I) -> (r: I::Output)
        requires
            self.addressable(),
            self.writable,
            index.in_bounds(*self),
        ensures
            r == index.sub_handle(*self, true),
    {
        index.index_mut(self)
    }

    /// A producer of the read handles of this run, one per position, in
    /// address order; its end is fixed here, one past the last position.
    pub fn iter(&self) -> (it: Iter<T>)
        requires
            self.addressable(),
        ensures
            it.cur == self.addr,
            it.end == self.addr + self.len,
            it.yields().len() == self.len,
            forall|i: int| 0 <= i < self.len ==> it.yields()[i] == self.addr + i,
    {
        Iter { cur: self.addr, end: self.addr + self.len, marker: PhantomData }
    }

    /// A producer of the write handles of this run, one per position, in
    /// address order; demands this handle's write capability.
    pub fn iter_mut(&self) -> (it: IterMut<T>)
        requires
            self.addressable(),
            self.writable,
        ensures
            it.cur == self.addr,
            it.end == self.addr + self.len,
            it.yields().len() == self.len,
            forall|i: int| 0 <= i < self.len ==> it.yields()[i] == self.addr + i,
    {
        IterMut { cur: self.addr, end: self.addr + self.len, marker: PhantomData }
    }

    /// A producer of slice handles over consecutive chunks of this run,
    /// each covering `chunk_size` positions except a shorter final one.
    pub fn chunks(&self, chunk_size: usize) -> (c: Chunks<T>)
        ensures
            c.v == *self,
            c.chunk_size == chunk_size,
    {
        Chunks {
            v: SliceExists {
                addr: self.addr,
                len: self.len,
                writable: self.writable,
                marker: PhantomData,
            },
            chunk_size,
        }
    }

    /// True when no position is certified.
    pub fn is_empty(&self) -> (r: bool)
        ensures
            r == (self.len == 0),
    {
        self.len == 0
    }

    /// Splits the run at `index`, yielding handles over `[0, index)` and
    /// `[index, len)` of it.
    pub fn split_at(&self, index: usize) -> (r: (Self, Self))
        requires
            index <= self.len,
            self.addressable(),
        ensures
            r.0.addr == self.addr,
            r.0.len == index,
            r.1.addr == self.addr + index,
            r.1.len == self.len - index,
            r.0.writable == self.writable,
            r.1.writable == self.writable,
    {
        (
            SliceExists {
                addr: self.addr,
                len: index,
                writable: self.writable,
                marker: PhantomData,
            },
            SliceExists {
                addr: self.addr + index,
                len: self.len - index,
                writable: self.writable,
                marker: PhantomData,
            },
        )
    }
}

} // verus!
