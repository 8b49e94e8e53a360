use core::marker::PhantomData;
use core::ops::{Range, RangeFrom, RangeFull, RangeInclusive, RangeTo, RangeToInclusive};
use vstd::prelude::*;
use vstd::string::StringExecFns;

use crate::slice::SliceExists;
use crate::Exists;

verus! {

/// Declares `RangeTo` to the verifier; its one public field `end` is then
/// readable in contracts.
#[verifier::external_type_specification]
#[verifier::reject_recursive_types(Idx)]
pub struct ExRangeTo<Idx>(RangeTo<Idx>);

/// Declares `RangeFrom` to the verifier; its one public field `start` is
/// then readable in contracts.
#[verifier::external_type_specification]
#[verifier::reject_recursive_types(Idx)]
pub struct ExRangeFrom<Idx>(RangeFrom<Idx>);

/// Declares `RangeFull`, a unit type, to the verifier.
#[verifier::external_type_specification]
pub struct ExRangeFull(RangeFull);

/// Declares `RangeToInclusive` to the verifier; its one public field `end`
/// is then readable in contracts.
#[verifier::external_type_specification]
#[verifier::reject_recursive_types(Idx)]
pub struct ExRangeToInclusive<Idx>(RangeToInclusive<Idx>);

/// The indexing protocol is closed: only the index kinds named here take
/// part, and no outside extension is intended.
pub trait Sealed {}

impl Sealed for usize {}

impl Sealed for Range<usize> {}

impl Sealed for RangeTo<usize> {}

impl Sealed for RangeFrom<usize> {}

impl Sealed for RangeFull {}

impl Sealed for RangeInclusive<usize> {}

impl Sealed for RangeToInclusive<usize> {}

/// A valid index on a slice handle.
///
/// An index kind maps a position or range to a sub-handle of a slice handle:
/// a position yields a scalar handle, a range a slice handle over the
/// selected sub-run.  The mapping is pure address arithmetic; no element is
/// read or copied.  Each kind tells which indexes are in bounds
/// ([`Self::in_bounds`]) and which sub-handle an in-bounds index carves out
/// ([`Self::sub_handle`]); the six access forms are all pinned to those two
/// descriptions.
///
/// Every form demands that the slice handle's run fits in the address space
/// (`slice.addressable()`); every handle carved from real storage does.
pub trait SliceExistsIndex<T>: Sealed + Sized {
    /// The sub-handle type this index kind yields.
    type Output;

    /// Whether this index designates a run or position inside a slice handle
    /// of the given extent.
    spec fn in_bounds(self, slice: SliceExists<T>) -> bool;

    /// The sub-handle this index carves out of `slice`, carrying the given
    /// write capability.
    spec fn sub_handle(self, slice: SliceExists<T>, writable: bool) -> Self::Output;

    /// The read sub-handle at this index, or `None` exactly when the index
    /// is out of bounds.
    fn get(self, slice: &SliceExists<T>) -> (r: Option<Self::Output>)
        requires
            slice.addressable(),
        ensures
            r == if self.in_bounds(*slice) {
                Some(self.sub_handle(*slice, false))
            } else {
                None::<Self::Output>
            },
    ;

    /// The write sub-handle at this index, or `None` exactly when the index
    /// is out of bounds; demands the slice handle's write capability.
    fn get_mut(self, slice: &SliceExists<T>) -> (r: Option<Self::Output>)
        requires
            slice.addressable(),
            slice.writable,
        ensures
            r == if self.in_bounds(*slice) {
                Some(self.sub_handle(*slice, true))
            } else {
                None::<Self::Output>
            },
    ;

    /// The read sub-handle at this index, with the bounds check demanded of
    /// the caller instead of performed.
    fn get_unchecked(self, slice: &SliceExists<T>) -> (r: Self::Output)
        requires
            slice.addressable(),
            self.in_bounds(*slice),
        ensures
            r == self.sub_handle(*slice, false),
    ;

    /// The write sub-handle at this index, with the bounds check demanded of
    /// the caller instead of performed.
    fn get_unchecked_mut(self, slice: &SliceExists<T>) -> (r: Self::Output)
        requires
            slice.addressable(),
            slice.writable,
            self.in_bounds(*slice),
        ensures
            r == self.sub_handle(*slice, true),
    ;

    /// The read sub-handle at this index.  An out-of-bounds index is the
    /// fatal tier of the protocol and is excluded here; the exact diagnostic
    /// it carries is built by the message functions of this module.
    fn index(self, slice: &SliceExists<T>) -> (r: Self::Output)
        requires
            slice.addressable(),
            self.in_bounds(*slice),
        ensures
            r == self.sub_handle(*slice, false),
    ;

    /// The write sub-handle at this index, under the same exclusions as
    /// [`Self::index`].
    fn index_mut(self, slice: &SliceExists<T>) -> (r: Self::Output)
        requires
            slice.addressable(),
            slice.writable,
            self.in_bounds(*slice),
        ensures
            r == self.sub_handle(*slice, true),
    ;
}

impl<T> SliceExistsIndex<T> for usize {
    type Output = Exists<T>;

    open spec fn in_bounds(self, slice: SliceExists<T>) -> bool {
        self < slice.len
    }

    open spec fn sub_handle(self, slice: SliceExists<T>, writable: bool) -> Exists<T> {
        Exists { addr: (slice.addr + self) as usize, writable, marker: PhantomData }
    }

    fn get(self, slice: &SliceExists<T>) -> (r: Option<Exists<T>>) {
        if self < slice.len {
            Some(Exists { addr: slice.addr + self, writable: false, marker: PhantomData })
        } else {
            None
        }
    }

    fn get_mut(self, slice: &SliceExists<T>) -> (r: Option<Exists<T>>) {
        if self < slice.len {
            Some(Exists { addr: slice.addr + self, writable: true, marker: PhantomData })
        } else {
            None
        }
    }

    fn get_unchecked(self, slice: &SliceExists<T>) -> (r: Exists<T>) {
        Exists { addr: slice.addr + self, writable: false, marker: PhantomData }
    }

    fn get_unchecked_mut(self, slice: &SliceExists<T>) -> (r: Exists<T>) {
        Exists { addr: slice.addr + self, writable: true, marker: PhantomData }
    }

    fn index(self, slice: &SliceExists<T>) -> (r: Exists<T>) {
        Exists { addr: slice.addr + self, writable: false, marker: PhantomData }
    }

    fn index_mut(self, slice: &SliceExists<T>) -> (r: Exists<T>) {
        Exists { addr: slice.addr + self, writable: true, marker: PhantomData }
    }
}

impl<T> SliceExistsIndex<T> for Range<usize> {
    type Output = SliceExists<T>;

    open spec fn in_bounds(self, slice: SliceExists<T>) -> bool {
        self.start <= self.end && self.end <= slice.len
    }

    open spec fn sub_handle(self, slice: SliceExists<T>, writable: bool) -> SliceExists<T> {
        SliceExists {
            addr: (slice.addr + self.start) as usize,
            len: (self.end - self.start) as usize,
            writable,
            marker: PhantomData,
        }
    }

    fn get(self, slice: &SliceExists<T>) -> (r: Option<SliceExists<T>>) {
        if self.start <= self.end && self.end <= slice.len {
            Some(
                SliceExists {
                    addr: slice.addr + self.start,
                    len: self.end - self.start,
                    writable: false,
                    marker: PhantomData,
                },
            )
        } else {
            None
        }
    }

    fn get_mut(self, slice: &SliceExists<T>) -> (r: Option<SliceExists<T>>) {
        if self.start <= self.end && self.end <= slice.len {
            Some(
                SliceExists {
                    addr: slice.addr + self.start,
                    len: self.end - self.start,
                    writable: true,
                    marker: PhantomData,
                },
            )
        } else {
            None
        }
    }

    fn get_unchecked(self, slice: &SliceExists<T>) -> (r: SliceExists<T>) {
        SliceExists {
            addr: slice.addr + self.start,
            len: self.end - self.start,
            writable: false,
            marker: PhantomData,
        }
    }

    fn get_unchecked_mut(self, slice: &SliceExists<T>) -> (r: SliceExists<T>) {
        SliceExists {
            addr: slice.addr + self.start,
            len: self.end - self.start,
            writable: true,
            marker: PhantomData,
        }
    }

    fn index(self, slice: &SliceExists<T>) -> (r: SliceExists<T>) {
        SliceExists {
            addr: slice.addr + self.start,
            len: self.end - self.start,
            writable: false,
            marker: PhantomData,
        }
    }

    fn index_mut(self, slice: &SliceExists<T>) -> (r: SliceExists<T>) {
        SliceExists {
            addr: slice.addr + self.start,
            len: self.end - self.start,
            writable: true,
            marker: PhantomData,
        }
    }
}

impl<T> SliceExistsIndex<T> for RangeTo<usize> {
    type Output = SliceExists<T>;

    open spec fn in_bounds(self, slice: SliceExists<T>) -> bool {
        self.end <= slice.len
    }

    open spec fn sub_handle(self, slice: SliceExists<T>, writable: bool) -> SliceExists<T> {
        SliceExists { addr: slice.addr, len: self.end, writable, marker: PhantomData }
    }

    fn get(self, slice: &SliceExists<T>) -> (r: Option<SliceExists<T>>) {
        (0..self.end).get(slice)
    }

    fn get_mut(self, slice: &SliceExists<T>) -> (r: Option<SliceExists<T>>) {
        (0..self.end).get_mut(slice)
    }

    fn get_unchecked(self, slice: &SliceExists<T>) -> (r: SliceExists<T>) {
        (0..self.end).get_unchecked(slice)
    }

    fn get_unchecked_mut(self, slice: &SliceExists<T>) -> (r: SliceExists<T>) {
        (0..self.end).get_unchecked_mut(slice)
    }

    fn index(self, slice: &SliceExists<T>) -> (r: SliceExists<T>) {
        (0..self.end).index(slice)
    }

    fn index_mut(self, slice: &SliceExists<T>) -> (r: SliceExists<T>) {
        (0..self.end).index_mut(slice)
    }
}

impl<T> SliceExistsIndex<T> for RangeFrom<usize> {
    type Output = SliceExists<T>;

    open spec fn in_bounds(self, slice: SliceExists<T>) -> bool {
        self.start <= slice.len
    }

    open spec fn sub_handle(self, slice: SliceExists<T>, writable: bool) -> SliceExists<T> {
        SliceExists {
            addr: (slice.addr + self.start) as usize,
            len: (slice.len - self.start) as usize,
            writable,
            marker: PhantomData,
        }
    }

    fn get(self, slice: &SliceExists<T>) -> (r: Option<SliceExists<T>>) {
        (self.start..slice.len()).get(slice)
    }

    fn get_mut(self, slice: &SliceExists<T>) -> (r: Option<SliceExists<T>>) {
        (self.start..slice.len()).get_mut(slice)
    }

    fn get_unchecked(self, slice: &SliceExists<T>) -> (r: SliceExists<T>) {
        (self.start..slice.len()).get_unchecked(slice)
    }

    fn get_unchecked_mut(self, slice: &SliceExists<T>) -> (r: SliceExists<T>) {
        (self.start..slice.len()).get_unchecked_mut(slice)
    }

    fn index(self, slice: &SliceExists<T>) -> (r: SliceExists<T>) {
        (self.start..slice.len()).index(slice)
    }

    fn index_mut(self, slice: &SliceExists<T>) -> (r: SliceExists<T>) {
        (self.start..slice.len()).index_mut(slice)
    }
}

impl<T> SliceExistsIndex<T> for RangeFull {
    type Output = SliceExists<T>;

    open spec fn in_bounds(self, slice: SliceExists<T>) -> bool {
        true
    }

    open spec fn sub_handle(self, slice: SliceExists<T>, writable: bool) -> SliceExists<T> {
        SliceExists { addr: slice.addr, len: slice.len, writable, marker: PhantomData }
    }

    fn get(self, slice: &SliceExists<T>) -> (r: Option<SliceExists<T>>) {
        Some(
            SliceExists {
                addr: slice.addr,
                len: slice.len,
                writable: false,
                marker: PhantomData,
            },
        )
    }

    fn get_mut(self, slice: &SliceExists<T>) -> (r: Option<SliceExists<T>>) {
        Some(
            SliceExists { addr: slice.addr, len: slice.len, writable: true, marker: PhantomData },
        )
    }

    fn get_unchecked(self, slice: &SliceExists<T>) -> (r: SliceExists<T>) {
        SliceExists { addr: slice.addr, len: slice.len, writable: false, marker: PhantomData }
    }

    fn get_unchecked_mut(self, slice: &SliceExists<T>) -> (r: SliceExists<T>) {
        SliceExists { addr: slice.addr, len: slice.len, writable: true, marker: PhantomData }
    }

    fn index(self, slice: &SliceExists<T>) -> (r: SliceExists<T>) {
        SliceExists { addr: slice.addr, len: slice.len, writable: false, marker: PhantomData }
    }

    fn index_mut(self, slice: &SliceExists<T>) -> (r: SliceExists<T>) {
        SliceExists { addr: slice.addr, len: slice.len, writable: true, marker: PhantomData }
    }
}

/// Relies on `RangeInclusive::start`: it returns the lower bound of the
/// range, the `start` the range was built with.
pub assume_specification<Idx>[ RangeInclusive::<Idx>::start ](
    r: &RangeInclusive<Idx>,
) -> (ret: &Idx)
    ensures
        *ret == r@.start,
;

/// Relies on `RangeInclusive::end`: it returns the upper bound of the
/// range, the `end` the range was built with.
pub assume_specification<Idx>[ RangeInclusive::<Idx>::end ](r: &RangeInclusive<Idx>) -> (ret: &Idx)
    ensures
        *ret == r@.end,
;

impl<T> SliceExistsIndex<T> for RangeInclusive<usize> {
    type Output = SliceExists<T>;

    open spec fn in_bounds(self, slice: SliceExists<T>) -> bool {
        self@.start <= self@.end + 1 && self@.end + 1 <= slice.len
    }

    open spec fn sub_handle(self, slice: SliceExists<T>, writable: bool) -> SliceExists<T> {
        SliceExists {
            addr: (slice.addr + self@.start) as usize,
            len: (self@.end + 1 - self@.start) as usize,
            writable,
            marker: PhantomData,
        }
    }

    fn get(self, slice: &SliceExists<T>) -> (r: Option<SliceExists<T>>) {
        let s = *self.start();
        let e = *self.end();
        if e < slice.len && (s <= e || s == e + 1) {
            (s..e + 1).get(slice)
        } else {
            None
        }
    }

    fn get_mut(self, slice: &SliceExists<T>) -> (r: Option<SliceExists<T>>) {
        let s = *self.start();
        let e = *self.end();
        if e < slice.len && (s <= e || s == e + 1) {
            (s..e + 1).get_mut(slice)
        } else {
            None
        }
    }

    fn get_unchecked(self, slice: &SliceExists<T>) -> (r: SliceExists<T>) {
        let s = *self.start();
        let e = *self.end();
        (s..e + 1).get_unchecked(slice)
    }

    fn get_unchecked_mut(self, slice: &SliceExists<T>) -> (r: SliceExists<T>) {
        let s = *self.start();
        let e = *self.end();
        (s..e + 1).get_unchecked_mut(slice)
    }

    fn index(self, slice: &SliceExists<T>) -> (r: SliceExists<T>) {
        let s = *self.start();
        let e = *self.end();
        (s..e + 1).index(slice)
    }

    fn index_mut(self, slice: &SliceExists<T>) -> (r: SliceExists<T>) {
        let s = *self.start();
        let e = *self.end();
        (s..e + 1).index_mut(slice)
    }
}

impl<T> SliceExistsIndex<T> for RangeToInclusive<usize> {
    type Output = SliceExists<T>;

    open spec fn in_bounds(self, slice: SliceExists<T>) -> bool {
        self.end + 1 <= slice.len
    }

    open spec fn sub_handle(self, slice: SliceExists<T>, writable: bool) -> SliceExists<T> {
        SliceExists {
            addr: slice.addr,
            len: (self.end + 1) as usize,
            writable,
            marker: PhantomData,
        }
    }

    fn get(self, slice: &SliceExists<T>) -> (r: Option<SliceExists<T>>) {
        if self.end < slice.len {
            (0..self.end + 1).get(slice)
        } else {
            None
        }
    }

    fn get_mut(self, slice: &SliceExists<T>) -> (r: Option<SliceExists<T>>) {
        if self.end < slice.len {
            (0..self.end + 1).get_mut(slice)
        } else {
            None
        }
    }

    fn get_unchecked(self, slice: &SliceExists<T>) -> (r: SliceExists<T>) {
        (0..self.end + 1).get_unchecked(slice)
    }

    fn get_unchecked_mut(self, slice: &SliceExists<T>) -> (r: SliceExists<T>) {
        (0..self.end + 1).get_unchecked_mut(slice)
    }

    fn index(self, slice: &SliceExists<T>) -> (r: SliceExists<T>) {
        (0..self.end + 1).index(slice)
    }

    fn index_mut(self, slice: &SliceExists<T>) -> (r: SliceExists<T>) {
        (0..self.end + 1).index_mut(slice)
    }
}

/// Indexing totality: a position is accepted exactly when it lies before the
/// slice handle's length, and a half-open range exactly when its start does
/// not pass its end nor its end the length.
pub proof fn lemma_indexing_totality<T>(slice: SliceExists<T>, p: usize, r: Range<usize>)
    ensures
        p.in_bounds(slice) <==> p < slice.len,
        r.in_bounds(slice) <==> r.start <= r.end && r.end <= slice.len,
{
}

/// The digit character of `d`.
pub open spec fn spec_digit(d: nat) -> char {
    if d == 0 {
        '0'
    } else if d == 1 {
        '1'
    } else if d == 2 {
        '2'
    } else if d == 3 {
        '3'
    } else if d == 4 {
        '4'
    } else if d == 5 {
        '5'
    } else if d == 6 {
        '6'
    } else if d == 7 {
        '7'
    } else if d == 8 {
        '8'
    } else {
        '9'
    }
}

/// The decimal digits of `n`, most significant first.
pub open spec fn spec_decimal(n: nat) -> Seq<char>
    decreases n,
{
    if n < 10 {
        seq![spec_digit(n)]
    } else {
        spec_decimal(n / 10).push(spec_digit(n % 10))
    }
}

/// The diagnostic carried by the fatal tier when a position lies at or past
/// the end of the slice handle.
pub open spec fn past_end_message(index: nat, len: nat) -> Seq<char> {
    "index "@ + spec_decimal(index) + " out of range for slice of length "@ + spec_decimal(len)
}

/// The diagnostic carried by the fatal tier when a range's start passes its
/// end.
pub open spec fn order_fail_message(index: nat, end: nat) -> Seq<char> {
    "slice index starts at "@ + spec_decimal(index) + " but ends at "@ + spec_decimal(end)
}

/// The diagnostic carried by the fatal tier when a range's start passes the
/// slice handle's length.
pub open spec fn start_len_fail_message(index: nat, len: nat) -> Seq<char> {
    "range start index "@ + spec_decimal(index) + " out of range for slice of length "@
        + spec_decimal(len)
}

/// The diagnostic carried by the fatal tier when a range's end passes the
/// slice handle's length.
pub open spec fn end_len_fail_message(index: nat, len: nat) -> Seq<char> {
    "range end index "@ + spec_decimal(index) + " out of range for slice of length "@
        + spec_decimal(len)
}

fn digit_str(d: usize) -> (r: &'static str)
    requires
        d < 10,
    ensures
        r@ == seq![spec_digit(d as nat)],
{
    let r: &'static str = if d == 0 {
        "0"
    } else if d == 1 {
        "1"
    } else if d == 2 {
        "2"
    } else if d == 3 {
        "3"
    } else if d == 4 {
        "4"
    } else if d == 5 {
        "5"
    } else if d == 6 {
        "6"
    } else if d == 7 {
        "7"
    } else if d == 8 {
        "8"
    } else {
        "9"
    };
    proof {
        reveal_strlit("0");
        reveal_strlit("1");
        reveal_strlit("2");
        reveal_strlit("3");
        reveal_strlit("4");
        reveal_strlit("5");
        reveal_strlit("6");
        reveal_strlit("7");
        reveal_strlit("8");
        reveal_strlit("9");
        assert(r@ =~= seq![spec_digit(d as nat)]);
    }
    r
}

fn append_decimal(s: &mut String, n: usize)
    ensures
        final(s)@ == old(s)@ + spec_decimal(n as nat),
    decreases n,
{
    if n >= 10 {
        append_decimal(s, n / 10);
    }
    let d = digit_str(n % 10);
    s.append(d);
    proof {
        assert(s@ =~= old(s)@ + spec_decimal(n as nat));
    }
}

/// The message of the fatal tier for a position at or past the end:
/// `index {index} out of range for slice of length {len}`.
pub fn slice_index_past_end(index: usize, len: usize) -> (r: String)
    ensures
        r@ == past_end_message(index as nat, len as nat),
{
    let mut s = "index ".to_owned();
    append_decimal(&mut s, index);
    s.append(" out of range for slice of length ");
    append_decimal(&mut s, len);
    proof {
        assert(s@ =~= past_end_message(index as nat, len as nat));
    }
    s
}

/// The message of the fatal tier for an inverted range:
/// `slice index starts at {index} but ends at {end}`.
pub fn slice_index_order_fail(index: usize, end: usize) -> (r: String)
    ensures
        r@ == order_fail_message(index as nat, end as nat),
{
    let mut s = "slice index starts at ".to_owned();
    append_decimal(&mut s, index);
    s.append(" but ends at ");
    append_decimal(&mut s, end);
    proof {
        assert(s@ =~= order_fail_message(index as nat, end as nat));
    }
    s
}

/// The message of the fatal tier for a range start past the end:
/// `range start index {index} out of range for slice of length {len}`.
pub fn slice_start_index_len_fail(index: usize, len: usize) -> (r: String)
    ensures
        r@ == start_len_fail_message(index as nat, len as nat),
{
    let mut s = "range start index ".to_owned();
    append_decimal(&mut s, index);
    s.append(" out of range for slice of length ");
    append_decimal(&mut s, len);
    proof {
        assert(s@ =~= start_len_fail_message(index as nat, len as nat));
    }
    s
}

/// The message of the fatal tier for a range end past the end:
/// `range end index {index} out of range for slice of length {len}`.
pub fn slice_end_index_len_fail(index: usize, len: usize) -> (r: String)
    ensures
        r@ == end_len_fail_message(index as nat, len as nat),
{
    let mut s = "range end index ".to_owned();
    append_decimal(&mut s, index);
    s.append(" out of range for slice of length ");
    append_decimal(&mut s, len);
    proof {
        assert(s@ =~= end_len_fail_message(index as nat, len as nat));
    }
    s
}

} // verus!

