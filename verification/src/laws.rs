//! Laws of the memory state: what creation, reads, writes and growth
//! guarantee of one another. Each is stated over the same functions of
//! [`MemoryState`] that the contracts of [`crate::Memory`] use.

use vstd::prelude::*;

use crate::model::{zeros, MemoryState, PAGE_SIZE};

verus! {

/// A fresh memory is well formed, and its size is the minimum of its range.
pub proof fn lemma_fresh_has_min_pages(min: nat, max: nat)
    requires
        min <= max <= u32::MAX,
    ensures
        MemoryState::fresh(min, max).wf(),
        MemoryState::fresh(min, max).pages == min,
        MemoryState::fresh(min, max).max == max,
{
}

/// Every in-bounds read of a fresh memory returns zero bytes only; so does,
/// in particular, a read of its first `len` bytes.
pub proof fn lemma_fresh_reads_zero(min: nat, max: nat, offset: int, len: int)
    requires
        min <= max <= u32::MAX,
        MemoryState::fresh(min, max).in_bounds(offset, len),
    ensures
        MemoryState::fresh(min, max).window(offset, len) == zeros(len as nat),
{
    assert(MemoryState::fresh(min, max).window(offset, len) =~= zeros(len as nat));
}

/// A write keeps the memory well formed and changes neither its size nor
/// its bounds.
pub proof fn lemma_write_keeps_shape(s: MemoryState, data: Seq<u8>, offset: int)
    requires
        s.wf(),
    ensures
        s.written(data, offset).wf(),
        s.written(data, offset).pages == s.pages,
        s.written(data, offset).min == s.min,
        s.written(data, offset).max == s.max,
{
}

/// Reading back the range that was just written returns the written data.
pub proof fn lemma_write_then_read(s: MemoryState, data: Seq<u8>, offset: int)
    requires
        s.wf(),
        s.in_bounds(offset, data.len() as int),
    ensures
        s.written(data, offset).in_bounds(offset, data.len() as int),
        s.written(data, offset).window(offset, data.len() as int) == data,
{
    assert(s.written(data, offset).window(offset, data.len() as int) =~= data);
}

/// Storing what a range already holds changes nothing; so a view that is
/// handed out and left untouched leaves the memory as it was.
pub proof fn lemma_write_back_changes_nothing(s: MemoryState, offset: int, len: int)
    requires
        s.wf(),
        s.in_bounds(offset, len),
    ensures
        s.written(s.window(offset, len), offset) == s,
{
    assert(s.written(s.window(offset, len), offset).bytes =~= s.bytes);
}

/// A write leaves every range that does not meet the written one as it was.
pub proof fn lemma_write_keeps_disjoint(
    s: MemoryState,
    data: Seq<u8>,
    offset: int,
    other: int,
    len: int,
)
    requires
        s.wf(),
        s.in_bounds(offset, data.len() as int),
        s.in_bounds(other, len),
        other + len <= offset || offset + data.len() <= other,
    ensures
        s.written(data, offset).window(other, len) == s.window(other, len),
{
    assert(s.written(data, offset).window(other, len) =~= s.window(other, len));
}

/// A range is out of bounds exactly when it ends beyond the last byte of the
/// last page, whatever the size of its two parts.
pub proof fn lemma_bounds_by_pages(s: MemoryState, offset: nat, len: nat)
    requires
        s.wf(),
    ensures
        s.in_bounds(offset as int, len as int) <==> offset + len <= s.pages * PAGE_SIZE,
        s.in_bounds(offset as int, len as int) ==> s.window(offset as int, len as int).len()
            == len,
{
}

/// Handing a memory to a host keeps it well formed and changes neither its
/// size, its bounds nor its contents.
pub proof fn lemma_hand_over_keeps_state(s: MemoryState)
    requires
        s.wf(),
    ensures
        s.handed_to_host().wf(),
        s.handed_to_host().pages == s.pages,
        s.handed_to_host().min == s.min,
        s.handed_to_host().max == s.max,
        s.handed_to_host().bytes == s.bytes,
{
}

/// Growth within the maximum keeps the memory well formed, adds exactly the
/// pages asked for, keeps the old contents and fills the new pages with
/// zeros.
pub proof fn lemma_grow_adds_zero_pages(s: MemoryState, delta: nat)
    requires
        s.wf(),
        s.can_grow(delta),
    ensures
        s.grown(delta).wf(),
        s.grown(delta).pages == s.pages + delta,
        s.grown(delta).min == s.min,
        s.grown(delta).max == s.max,
        s.grown(delta).window(0, s.byte_len() as int) == s.bytes,
        s.grown(delta).window(s.byte_len() as int, delta * PAGE_SIZE) == zeros(
            delta * PAGE_SIZE as nat,
        ),
{
    assert((s.pages + delta) * PAGE_SIZE == s.pages * PAGE_SIZE + delta * PAGE_SIZE)
        by (nonlinear_arith);
    assert(s.grown(delta).window(0, s.byte_len() as int) =~= s.bytes);
    assert(s.grown(delta).window(s.byte_len() as int, delta * PAGE_SIZE) =~= zeros(
        delta * PAGE_SIZE as nat,
    ));
}

/// Every in-bounds read inside the pages added by a growth returns zero
/// bytes only.
pub proof fn lemma_grown_pages_read_zero(s: MemoryState, delta: nat, offset: int, len: int)
    requires
        s.wf(),
        s.can_grow(delta),
        s.byte_len() <= offset,
        s.grown(delta).in_bounds(offset, len),
    ensures
        s.grown(delta).window(offset, len) == zeros(len as nat),
{
    assert((s.pages + delta) * PAGE_SIZE == s.pages * PAGE_SIZE + delta * PAGE_SIZE)
        by (nonlinear_arith);
    assert(s.grown(delta).window(offset, len) =~= zeros(len as nat));
}

/// The size never shrinks: a memory that has grown holds at least the pages
/// it held before, and what was in bounds stays in bounds and reads the
/// same.
pub proof fn lemma_grow_is_monotonic(s: MemoryState, delta: nat, offset: int, len: int)
    requires
        s.wf(),
        s.can_grow(delta),
        s.in_bounds(offset, len),
    ensures
        s.grown(delta).pages >= s.pages,
        s.grown(delta).in_bounds(offset, len),
        s.grown(delta).window(offset, len) == s.window(offset, len),
{
    assert((s.pages + delta) * PAGE_SIZE == s.pages * PAGE_SIZE + delta * PAGE_SIZE)
        by (nonlinear_arith);
    assert(s.grown(delta).window(offset, len) =~= s.window(offset, len));
}

} // verus!
