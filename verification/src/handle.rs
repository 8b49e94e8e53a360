use core::marker::PhantomData;
use vstd::pervasive::VecAdditionalExecFns;
use vstd::prelude::*;

verus! {

/// A marker certifying that a value of type `T` is present at one position
/// of some caller-owned storage.
///
/// A handle is a plain value: it holds the position it certifies and whether
/// it grants write access.  It deliberately does *not* assert exclusivity:
/// any number of handles over the same position may be alive at once, and
/// `copy_mut` hands out such duplicates on purpose.  The caller alone
/// sequences the reads and writes made through them, by choosing when to
/// lend the storage to each access.
///
/// Every access presents the storage explicitly, and its contract demands
/// that the certified position lie inside it; nothing is read or written to
/// create, copy or retire a handle.
pub struct Exists<T> {
    /// The certified position within the storage.
    pub addr: usize,
    /// Whether this handle grants write access.
    pub writable: bool,
    /// Handles occupy no storage of their own; the element type only tags
    /// the handle so that it can be presented solely to storage of that type.
    pub marker: PhantomData<T>,
}

impl<T> Exists<T> {
    /// True when the certified position lies inside storage with contents `m`.
    pub open spec fn valid_for(&self, m: Seq<T>) -> bool {
        self.addr < m.len()
    }

    /// Certifies read access to position `addr` of the storage `m`.
    ///
    /// This is the read-only construction path: the resulting handle grants
    /// no write access.
    pub fn from_ref(m: &Vec<T>, addr: usize) -> (h: Self)
        requires
            addr < m@.len(),
        ensures
            h.addr == addr,
            !h.writable,
    {
        Exists { addr, writable: false, marker: PhantomData }
    }

    /// Certifies write access to position `addr` of the storage `m`, on the
    /// strength of shared, interior-mutable access to it.
    ///
    /// Handles made this way may freely alias one another, mirroring the
    /// sharing rules of an interior-mutable cell.
    pub fn from_cell(m: &Vec<T>, addr: usize) -> (h: Self)
        requires
            addr < m@.len(),
        ensures
            h.addr == addr,
            h.writable,
    {
        Exists { addr, writable: true, marker: PhantomData }
    }

    /// Certifies write access to position `addr` of the storage `m`, on the
    /// strength of exclusive access to it.
    pub fn from_mut(m: &Vec<T>, addr: usize) -> (h: Self)
        requires
            addr < m@.len(),
        ensures
            h.addr == addr,
            h.writable,
    {
        Exists { addr, writable: true, marker: PhantomData }
    }

    /// Certifies read access to a bare position, with no storage presented.
    ///
    /// The caller asserts that the position will be valid for whatever
    /// storage is later lent to the handle's accesses; each access still
    /// demands that validity in its own contract.
    pub fn from_ptr(addr: usize) -> (h: Self)
        ensures
            h.addr == addr,
            !h.writable,
    {
        Exists { addr, writable: false, marker: PhantomData }
    }

    /// Certifies write access to a bare position, with no storage presented.
    ///
    /// The caller asserts validity, as for [`Exists::from_ptr`].
    pub fn from_mut_ptr(addr: usize) -> (h: Self)
        ensures
            h.addr == addr,
            h.writable,
    {
        Exists { addr, writable: true, marker: PhantomData }
    }

    /// Upgrades a read handle to a write handle at the same position, without
    /// any check.
    ///
    /// The caller must independently know that writing the certified position
    /// is legitimate — typically because the handle was first made from an
    /// exclusive or interior-mutable access path and the write capability was
    /// since narrowed away.
    pub fn assume_mut(&self) -> (h: Self)
        ensures
            h.addr == self.addr,
            h.writable,
    {
        Exists { addr: self.addr, writable: true, marker: PhantomData }
    }

    /// Duplicates a write handle into `n` handles that all certify the same
    /// position.
    ///
    /// This is sound precisely because a handle never asserts exclusivity:
    /// only the accesses made through the copies need sequencing, and each of
    /// those borrows the storage in turn.
    pub fn copy_mut(&self, n: usize) -> (r: Vec<Self>)
        requires
            self.writable,
        ensures
            r@.len() == n,
            forall|i: int| 0 <= i < n ==> r@[i] == *self,
    {
        let mut r: Vec<Self> = Vec::new();
        let mut k: usize = 0;
        while k < n
            invariant
                k <= n,
                r@.len() == k,
                forall|i: int| 0 <= i < k ==> r@[i] == *self,
            decreases n - k,
        {
            r.push(Exists { addr: self.addr, writable: self.writable, marker: PhantomData });
            k = k + 1;
        }
        r
    }

    /// The position this handle certifies.
    pub fn as_ptr(&self) -> (r: usize)
        ensures
            r == self.addr,
    {
        self.addr
    }

    /// The position this handle certifies; demands the write capability, as
    /// the position is then fit for writing through.
    pub fn as_mut_ptr(&self) -> (r: usize)
        requires
            self.writable,
        ensures
            r == self.addr,
    {
        self.addr
    }

    /// Lends the certified element itself, re-entering ordinary
    /// reference-based code.
    ///
    /// The storage borrow rules then govern the element for the lifetime of
    /// the result; no handle access can intervene while it is held.
    pub fn as_ref_unchecked<'a>(&self, m: &'a Vec<T>) -> (r: &'a T)
        requires
            self.valid_for(m@),
        ensures
            *r == m@[self.addr as int],
    {
        &m[self.addr]
    }

    /// Lends the certified element for writing, re-entering ordinary
    /// reference-based code.
    ///
    /// The storage borrow rules then govern the element for the lifetime of
    /// the result; no handle access can intervene while it is held, and the
    /// storage afterwards holds whatever was left in the lent element.
    pub fn as_mut_unchecked<'a>(&self, m: &'a mut Vec<T>) -> (r: &'a mut T)
        requires
            self.writable,
            self.valid_for(old(m)@),
        ensures
            *r == old(m)@[self.addr as int],
            final(m)@ == old(m)@.update(self.addr as int, *final(r)),
    {
        vstd::std_specs::vec::vec_index_mut(m, self.addr)
    }

    /// The interior-mutable view of the certified position.
    ///
    /// Shared, interior-mutable access is what a write handle already
    /// models — write handles alias freely, exactly as references to an
    /// interior-mutable cell do — so this view is a write handle at the same
    /// position.  The caller must independently know that writing the
    /// position is legitimate, as for [`Exists::assume_mut`].
    pub fn as_cell_unchecked(&self) -> (h: Self)
        ensures
            h.addr == self.addr,
            h.writable,
    {
        Exists { addr: self.addr, writable: true, marker: PhantomData }
    }

    /// Exchanges the contents of the two certified positions.
    ///
    /// The two handles may certify the same position: the value there is then
    /// left unchanged, unlike a naive exchange through two temporaries.
    pub fn swap(&self, other: &Exists<T>, m: &mut Vec<T>)
        requires
            self.writable,
            other.writable,
            self.valid_for(old(m)@),
            other.valid_for(old(m)@),
        ensures
            final(m)@ == old(m)@.update(self.addr as int, old(m)@[other.addr as int]).update(
                other.addr as int,
                old(m)@[self.addr as int],
            ),
    {
        swap_in(m, self.addr, other.addr);
    }

    /// Writes `val` at the certified position and returns the value held
    /// there immediately before.
    pub fn replace(&self, m: &mut Vec<T>, val: T) -> (r: T)
        requires
            self.writable,
            self.valid_for(old(m)@),
        ensures
            r == old(m)@[self.addr as int],
            final(m)@ == old(m)@.update(self.addr as int, val),
    {
        let mut v = val;
        m.set_and_swap(self.addr, &mut v);
        v
    }
}

impl<T: Copy> Exists<T> {
    /// Reads the value at the certified position.
    pub fn get(&self, m: &Vec<T>) -> (r: T)
        requires
            self.valid_for(m@),
        ensures
            r == m@[self.addr as int],
    {
        m[self.addr]
    }

    /// Writes `src` at the certified position.
    pub fn set(&self, m: &mut Vec<T>, src: T)
        requires
            self.writable,
            self.valid_for(old(m)@),
        ensures
            final(m)@ == old(m)@.update(self.addr as int, src),
    {
        m.set(self.addr, src);
    }
}

impl<T: Default> Exists<T> {
    /// Takes the value out of the certified position, leaving the default
    /// value of `T` in its place.
    pub fn take(&self, m: &mut Vec<T>) -> (r: T)
        requires
            self.writable,
            self.valid_for(old(m)@),
        ensures
            r == old(m)@[self.addr as int],
            exists|d: T|
                #[trigger] call_ensures(<T as core::default::Default>::default, (), d)
                    && final(m)@ == old(m)@.update(self.addr as int, d),
    {
        let d = T::default();
        self.replace(m, d)
    }
}

/// Round trip: writing a value at a handle's position and then reading that
/// position yields the written value.  The left side is the storage after
/// [`Exists::set`], read as [`Exists::get`] reads it.
pub proof fn lemma_set_get_round_trip<T>(m: Seq<T>, h: Exists<T>, v: T)
    requires
        h.valid_for(m),
    ensures
        m.update(h.addr as int, v)[h.addr as int] == v,
{
}

/// Replace law: [`Exists::replace`] returns the value held immediately
/// before the call (its own contract states so), and a [`Exists::get`] after
/// it yields the newly written value.
pub proof fn lemma_replace_then_get<T>(m: Seq<T>, h: Exists<T>, v: T)
    requires
        h.valid_for(m),
    ensures
        m.update(h.addr as int, v)[h.addr as int] == v,
{
}

/// Take law: [`Exists::take`] returns the prior value (its own contract
/// states so) and leaves a value meeting the contract of the default; a
/// [`Exists::get`] after it yields that value.
pub proof fn lemma_take_then_get<T>(m: Seq<T>, h: Exists<T>, d: T)
    requires
        h.valid_for(m),
    ensures
        m.update(h.addr as int, d)[h.addr as int] == d,
{
}

/// For storage of machine words the default value is zero, so after
/// [`Exists::take`] a read yields zero.
pub proof fn lemma_take_default_u64(d: u64)
    requires
        call_ensures(<u64 as core::default::Default>::default, (), d),
    ensures
        d == 0,
{
}

/// Self-swap identity: exchanging a position with itself, as
/// [`Exists::swap`] on two handles of one address does, leaves the storage
/// unchanged.
pub proof fn lemma_swap_self_identity<T>(m: Seq<T>, h: Exists<T>)
    requires
        h.valid_for(m),
    ensures
        m.update(h.addr as int, m[h.addr as int]).update(h.addr as int, m[h.addr as int]) == m,
{
    assert(m.update(h.addr as int, m[h.addr as int]).update(h.addr as int, m[h.addr as int])
        =~= m);
}

/// Disjoint swap: after [`Exists::swap`] on handles of two different
/// addresses, the first position holds what the second held, the second what
/// the first held, and every other position is unchanged.
pub proof fn lemma_swap_disjoint<T>(m: Seq<T>, g: Exists<T>, h: Exists<T>)
    requires
        g.valid_for(m),
        h.valid_for(m),
        g.addr != h.addr,
    ensures
        m.update(g.addr as int, m[h.addr as int]).update(h.addr as int, m[g.addr as int])[g.addr
            as int] == m[h.addr as int],
        m.update(g.addr as int, m[h.addr as int]).update(h.addr as int, m[g.addr as int])[h.addr
            as int] == m[g.addr as int],
        forall|i: int|
            0 <= i < m.len() && i != g.addr && i != h.addr ==> m.update(
                g.addr as int,
                m[h.addr as int],
            ).update(h.addr as int, m[g.addr as int])[i] == m[i],
{
}

/// Aliasing visibility: the copies [`Exists::copy_mut`] yields certify one
/// and the same position (its contract states they equal the handle they
/// were copied from), so a write through one copy is read back at once
/// through any other.
pub proof fn lemma_alias_visibility<T>(m: Seq<T>, g: Exists<T>, h: Exists<T>, v: T)
    requires
        g.valid_for(m),
        g.addr == h.addr,
    ensures
        m.update(g.addr as int, v)[h.addr as int] == v,
{
}

/// Relies on `slice::swap` (through the vector's buffer): the elements at the
/// two positions are exchanged, and exchanging a position with itself leaves
/// the contents unchanged.
#[verifier::external_body]
fn swap_in<T>(m: &mut Vec<T>, i: usize, j: usize)
    requires
        i < old(m)@.len(),
        j < old(m)@.len(),
    ensures
        final(m)@ == old(m)@.update(i as int, old(m)@[j as int]).update(
            j as int,
            old(m)@[i as int],
        ),
{
    m.swap(i, j);
}

} // verus!
