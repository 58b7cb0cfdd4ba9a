//! The ghost state of a memory instance and the effect of each operation on
//! it.

use vstd::prelude::*;

use crate::limit::Ownership;

verus! {

/// The number of bytes in one page.
pub const PAGE_SIZE: u32 = 65536;

/// `n` zero bytes.
pub open spec fn zeros(n: nat) -> Seq<u8> {
    Seq::new(n, |i: int| 0u8)
}

/// The abstract state of a memory instance.
#[verifier::ext_equal]
pub struct MemoryState {
    /// The page count the instance started with.
    pub min: nat,
    /// The page count the instance may grow to.
    pub max: nat,
    /// The current page count.
    pub pages: nat,
    /// The contents, one entry per byte.
    pub bytes: Seq<u8>,
    /// Who releases the instance.
    pub ownership: Ownership,
}

impl MemoryState {
    /// The current page count lies between the two bounds, and the contents
    /// span exactly that many pages.
    pub open spec fn wf(self) -> bool {
        &&& self.min <= self.pages <= self.max <= u32::MAX
        &&& self.bytes.len() == self.pages * PAGE_SIZE
    }

    /// The state right after creation: `min` pages of zero bytes.
    pub open spec fn fresh(min: nat, max: nat) -> MemoryState {
        MemoryState {
            min,
            max,
            pages: min,
            bytes: zeros(min * PAGE_SIZE as nat),
            ownership: Ownership::Owned,
        }
    }

    /// The number of bytes currently addressable.
    pub open spec fn byte_len(self) -> nat {
        self.pages * PAGE_SIZE as nat
    }

    /// Whether the `len` bytes from `offset` on lie inside the memory. The
    /// sum is taken over the integers, so it cannot wrap.
    pub open spec fn in_bounds(self, offset: int, len: int) -> bool {
        0 <= offset && 0 <= len && offset + len <= self.byte_len()
    }

    /// The `len` bytes from `offset` on.
    pub open spec fn window(self, offset: int, len: int) -> Seq<u8> {
        self.bytes.subrange(offset, offset + len)
    }

    /// The state after `data` has been stored from `offset` on: bytes under
    /// the stored range take their value from `data`, all others keep theirs.
    pub open spec fn written(self, data: Seq<u8>, offset: int) -> MemoryState {
        MemoryState {
            bytes: Seq::new(
                self.bytes.len(),
                |i: int|
                    if offset <= i < offset + data.len() {
                        data[i - offset]
                    } else {
                        self.bytes[i]
                    },
            ),
            ..self
        }
    }

    /// Whether `delta` more pages still fit under the maximum.
    pub open spec fn can_grow(self, delta: nat) -> bool {
        self.pages + delta <= self.max
    }

    /// The state after `delta` zero pages have been appended.
    pub open spec fn grown(self, delta: nat) -> MemoryState {
        MemoryState {
            pages: self.pages + delta,
            bytes: self.bytes + zeros(delta * PAGE_SIZE as nat),
            ..self
        }
    }

    /// The state after the instance has been handed to a host registry.
    pub open spec fn handed_to_host(self) -> MemoryState {
        MemoryState { ownership: Ownership::BorrowedFromHost, ..self }
    }
}

} // verus!
