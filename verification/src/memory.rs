//! The memory instance: a zero-initialised buffer of whole pages with
//! bounds-checked reads and writes and growth up to a fixed maximum.

use vstd::prelude::*;
use vstd::slice::{slice_subrange, slice_to_vec};

use crate::error::MemoryError;
use crate::limit::{MemType, Ownership};
use crate::model::{zeros, MemoryState, PAGE_SIZE};

verus! {

/// A linear memory. Its buffer always spans exactly `size()` pages.
#[derive(Debug)]
pub struct Memory {
    min: u32,
    max: u32,
    pages: u32,
    data: Vec<u8>,
    ownership: Ownership,
}

impl View for Memory {
    type V = MemoryState;

    closed spec fn view(&self) -> MemoryState {
        MemoryState {
            min: self.min as nat,
            max: self.max as nat,
            pages: self.pages as nat,
            bytes: self.data@,
            ownership: self.ownership,
        }
    }
}

/// The byte length of `pages` pages, where a `usize` can hold it.
fn page_bytes(pages: u32) -> (r: Option<usize>)
    ensures
        pages * PAGE_SIZE <= usize::MAX ==> r == Some((pages * PAGE_SIZE) as usize),
        pages * PAGE_SIZE > usize::MAX ==> r == None::<usize>,
{
    let wide: u64 = pages as u64 * PAGE_SIZE as u64;
    if wide > usize::MAX as u64 {
        None
    } else {
        Some(wide as usize)
    }
}

/// Appends `additional` zero bytes to `buf`, or leaves it as it is where the
/// allocator has no room for them. Nothing is asked of the allocator when
/// `additional` is 0.
fn extend_zeroed(buf: &mut Vec<u8>, additional: usize) -> (done: bool)
    requires
        old(buf).len() + additional <= usize::MAX,
    ensures
        done ==> final(buf)@ == old(buf)@ + zeros(additional as nat),
        !done ==> final(buf)@ == old(buf)@,
        additional == 0 ==> done,
{
    if additional == 0 {
        assert(buf@ =~= buf@ + zeros(0));
        return true;
    }
    if buf.try_reserve(additional).is_err() {
        return false;
    }
    let target: usize = buf.len() + additional;
    buf.resize(target, 0u8);
    assert(buf@ =~= old(buf)@ + zeros(additional as nat));
    true
}

/// Copies `data` over the bytes of `buf` that start at `offset`.
fn overwrite(buf: &mut Vec<u8>, offset: usize, data: &Vec<u8>)
    requires
        offset + data.len() <= old(buf).len(),
    ensures
        final(buf)@.len() == old(buf)@.len(),
        forall|i: int|
            offset <= i < offset + data.len() ==> #[trigger] final(buf)@[i] == data@[i - offset],
        forall|i: int|
            0 <= i < offset || offset + data.len() <= i < old(buf)@.len()
                ==> #[trigger] final(buf)@[i] == old(buf)@[i],
{
    let mut k: usize = 0;
    while k < data.len()
        invariant
            k <= data.len(),
            offset + data.len() <= buf.len(),
            buf@.len() == old(buf)@.len(),
            forall|i: int| offset <= i < offset + k ==> #[trigger] buf@[i] == data@[i - offset],
            forall|i: int|
                0 <= i < offset || offset + k <= i < buf@.len()
                    ==> #[trigger] buf@[i] == old(buf)@[i],
        decreases data.len() - k,
    {
        buf[offset + k] = data[k];
        k += 1;
    }
}

/// The part of a vector between `start` and `end`, borrowed mutably:
/// `IndexMut::index_mut` of `Vec` with a `Range<usize>`.
///
/// The contract is taken on trust, not proved. It claims that the borrow
/// shows the elements in that range, that a slice keeps its length for as
/// long as it is borrowed, and that, when the borrow ends, the vector holds
/// what the borrow then holds in that range and its old elements everywhere
/// else.
#[verifier::external_body]
fn range_mut(buf: &mut Vec<u8>, start: usize, end: usize) -> (part: &mut [u8])
    requires
        start <= end <= old(buf).len(),
    ensures
        part@ == old(buf)@.subrange(start as int, end as int),
        final(part)@.len() == part@.len(),
        final(buf)@ == old(buf)@.subrange(0, start as int) + final(part)@ + old(buf)@.subrange(
            end as int,
            old(buf)@.len() as int,
        ),
{
    &mut buf[start..end]
}

impl Memory {
    /// The instance is well formed when its state is.
    pub open spec fn wf(&self) -> bool {
        self@.wf()
    }

    /// The current page count.
    pub open spec fn spec_size(&self) -> u32 {
        self@.pages as u32
    }

    /// Creates a memory of `ty.limit().0` pages, all bytes zero.
    ///
    /// Whether the buffer can be had is up to the allocator, so a failure
    /// with `AllocationFailed` is possible for every non-empty memory; it is
    /// certain where the byte length does not fit the address space, and
    /// excluded for an empty memory.
    pub fn create(ty: &MemType) -> (r: Result<Memory, MemoryError>)
        requires
            ty.wf(),
        ensures
            (match r {
                Ok(m) => {
                    &&& m.wf()
                    &&& m.size() == ty.limit().0
                    &&& m@ == MemoryState::fresh(ty.limit().0 as nat, ty.limit().1 as nat)
                },
                Err(e) => e == MemoryError::AllocationFailed && ty.limit().0 > 0,
            }),
            ty.limit().0 * PAGE_SIZE > usize::MAX ==> r is Err,
    {
        let (min, max) = ty.limit();
        let len: usize = match page_bytes(min) {
            Some(len) => len,
            None => {
                return Err(MemoryError::AllocationFailed);
            },
        };
        let mut data: Vec<u8> = Vec::new();
        if !extend_zeroed(&mut data, len) {
            return Err(MemoryError::AllocationFailed);
        }
        assert(data@ =~= zeros(min as nat * PAGE_SIZE as nat));
        Ok(Memory { min, max, pages: min, data, ownership: Ownership::Owned })
    }

    /// Returns a descriptor of the range this memory was created with. The
    /// descriptor refers to the memory's own bounds and is marked as
    /// borrowed.
    pub fn ty(&self) -> (r: Result<MemType, MemoryError>)
        requires
            self.wf(),
        ensures
            r is Ok,
            r.unwrap().wf(),
            r.unwrap().limit().0 == self@.min,
            r.unwrap().limit().1 == self@.max,
            r.unwrap().ownership() == Ownership::BorrowedFromHost,
    {
        Ok(MemType::borrowed(self.min, self.max))
    }

    /// Returns the current size in pages.
    #[verifier::when_used_as_spec(spec_size)]
    pub fn size(&self) -> (r: u32)
        ensures
            r == self@.pages,
            r == self.spec_size(),
    {
        self.pages
    }

    /// Returns the ownership tag.
    pub fn ownership(&self) -> (r: Ownership)
        ensures
            r == self@.ownership,
    {
        self.ownership
    }

    /// Returns whether a host registry owns the memory.
    pub fn registered(&self) -> (r: bool)
        ensures
            r == (self@.ownership == Ownership::BorrowedFromHost),
    {
        match self.ownership {
            Ownership::Owned => false,
            Ownership::BorrowedFromHost => true,
        }
    }

    /// Hands the memory to a host registry: from now on the registry owns it.
    /// Size, bounds and contents are left as they are.
    pub fn register(&mut self)
        ensures
            final(self)@ == old(self)@.handed_to_host(),
    {
        self.ownership = Ownership::BorrowedFromHost;
    }

    /// Returns a copy of the `len` bytes that start at `offset`, or
    /// `OutOfBounds` where that range does not lie inside the memory.
    pub fn get_data(&self, offset: u32, len: u32) -> (r: Result<Vec<u8>, MemoryError>)
        requires
            self.wf(),
        ensures
            (match r {
                Ok(bytes) => {
                    &&& self@.in_bounds(offset as int, len as int)
                    &&& bytes@ == self@.window(offset as int, len as int)
                },
                Err(e) => {
                    &&& !self@.in_bounds(offset as int, len as int)
                    &&& e == MemoryError::OutOfBounds
                },
            }),
    {
        match self.data_pointer(offset, len) {
            Ok(part) => Ok(slice_to_vec(part)),
            Err(e) => Err(e),
        }
    }

    /// Stores `data` from `offset` on, or fails with `OutOfBounds` where the
    /// range does not lie inside the memory. A failed call changes nothing.
    pub fn set_data(&mut self, data: Vec<u8>, offset: u32) -> (r: Result<(), MemoryError>)
        requires
            old(self).wf(),
        ensures
            final(self).wf(),
            (match r {
                Ok(()) => {
                    &&& old(self)@.in_bounds(offset as int, data@.len() as int)
                    &&& final(self)@ == old(self)@.written(data@, offset as int)
                },
                Err(e) => {
                    &&& !old(self)@.in_bounds(offset as int, data@.len() as int)
                    &&& e == MemoryError::OutOfBounds
                    &&& final(self)@ == old(self)@
                },
            }),
    {
        let total: usize = self.data.len();
        if data.len() > total || offset as usize > total - data.len() {
            return Err(MemoryError::OutOfBounds);
        }
        overwrite(&mut self.data, offset as usize, &data);
        assert(self@.bytes =~= old(self)@.written(data@, offset as int).bytes);
        Ok(())
    }

    /// Returns a read-only view of the `len` bytes that start at `offset`, or
    /// `OutOfBounds` where that range does not lie inside the memory.
    pub fn data_pointer(&self, offset: u32, len: u32) -> (r: Result<&[u8], MemoryError>)
        requires
            self.wf(),
        ensures
            (match r {
                Ok(part) => {
                    &&& self@.in_bounds(offset as int, len as int)
                    &&& part@ == self@.window(offset as int, len as int)
                },
                Err(e) => {
                    &&& !self@.in_bounds(offset as int, len as int)
                    &&& e == MemoryError::OutOfBounds
                },
            }),
    {
        let total: usize = self.data.len();
        if len as usize > total || offset as usize > total - len as usize {
            return Err(MemoryError::OutOfBounds);
        }
        let start: usize = offset as usize;
        Ok(slice_subrange(self.data.as_slice(), start, start + len as usize))
    }

    /// Returns an exclusive view of the `len` bytes that start at `offset`,
    /// or `OutOfBounds` where that range does not lie inside the memory.
    /// What is stored through the view is stored in the memory, as by
    /// `set_data` at `offset`.
    pub fn data_pointer_mut(&mut self, offset: u32, len: u32) -> (r: Result<
        &mut [u8],
        MemoryError,
    >)
        requires
            old(self).wf(),
        ensures
            final(self).wf(),
            (match r {
                Ok(part) => {
                    &&& old(self)@.in_bounds(offset as int, len as int)
                    &&& part@ == old(self)@.window(offset as int, len as int)
                    &&& final(part)@.len() == len
                    &&& final(self)@ == old(self)@.written(final(part)@, offset as int)
                },
                Err(e) => {
                    &&& !old(self)@.in_bounds(offset as int, len as int)
                    &&& e == MemoryError::OutOfBounds
                    &&& final(self)@ == old(self)@
                },
            }),
    {
        let total: usize = self.data.len();
        if len as usize > total || offset as usize > total - len as usize {
            return Err(MemoryError::OutOfBounds);
        }
        let start: usize = offset as usize;
        let part = range_mut(&mut self.data, start, start + len as usize);
        Ok(part)
    }

    /// Grows the memory by `count` zero pages.
    ///
    /// Fails with `OutOfBounds` exactly where the new page count would pass
    /// the maximum, and with `AllocationFailed` where the buffer cannot be
    /// enlarged. A failed call changes nothing.
    pub fn grow(&mut self, count: u32) -> (r: Result<(), MemoryError>)
        requires
            old(self).wf(),
        ensures
            final(self).wf(),
            (match r {
                Ok(()) => {
                    &&& old(self)@.can_grow(count as nat)
                    &&& final(self).size() == old(self).size() + count
                    &&& final(self)@ == old(self)@.grown(count as nat)
                },
                Err(e) => {
                    &&& final(self).size() == old(self).size()
                    &&& final(self)@ == old(self)@
                    &&& !old(self)@.can_grow(count as nat) ==> e == MemoryError::OutOfBounds
                    &&& old(self)@.can_grow(count as nat) ==> e == MemoryError::AllocationFailed
                        && count > 0
                },
            }),
            !old(self)@.can_grow(count as nat) ==> r is Err,
            old(self)@.can_grow(count as nat) && (old(self)@.pages + count) * PAGE_SIZE
                > usize::MAX ==> r is Err,
    {
        let target: u32 = match self.pages.checked_add(count) {
            Some(target) => target,
            None => {
                return Err(MemoryError::OutOfBounds);
            },
        };
        if target > self.max {
            return Err(MemoryError::OutOfBounds);
        }
        let additional: usize = match page_bytes(count) {
            Some(additional) => additional,
            None => {
                return Err(MemoryError::AllocationFailed);
            },
        };
        if additional > usize::MAX - self.data.len() {
            return Err(MemoryError::AllocationFailed);
        }
        if !extend_zeroed(&mut self.data, additional) {
            return Err(MemoryError::AllocationFailed);
        }
        self.pages = target;
        assert(self@.bytes =~= old(self)@.grown(count as nat).bytes);
        Ok(())
    }
}

} // verus!
