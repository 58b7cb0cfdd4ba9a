//! The descriptor of a memory: the range of page counts it may occupy.

use vstd::prelude::*;

use crate::error::LimitError;

verus! {

/// Who is responsible for releasing a value.
#[derive(Clone, Copy, Debug, PartialEq, Eq, Structural)]
pub enum Ownership {
    /// The holder of the value owns it.
    Owned,
    /// A host registry owns the value; the holder only refers to it.
    BorrowedFromHost,
}

/// The page-count range of a memory: it starts at the minimum and may grow up
/// to the maximum. The range never changes after creation.
#[derive(Debug)]
pub struct MemType {
    min: u32,
    max: u32,
    ownership: Ownership,
}

impl MemType {
    /// The range `(min, max)` held by the descriptor.
    pub closed spec fn spec_limit(&self) -> (u32, u32) {
        (self.min, self.max)
    }

    /// The ownership tag carried by the descriptor.
    pub closed spec fn spec_ownership(&self) -> Ownership {
        self.ownership
    }

    /// Whether a host registry owns the descriptor.
    pub open spec fn spec_registered(&self) -> bool {
        self.spec_ownership() == Ownership::BorrowedFromHost
    }

    /// A descriptor is well formed when its minimum does not exceed its
    /// maximum.
    pub open spec fn wf(&self) -> bool {
        self.spec_limit().0 <= self.spec_limit().1
    }

    /// Creates a descriptor for the range `min..=max`. Every range with
    /// `min <= max` is accepted, up to and including `max == u32::MAX`.
    pub fn create(min: u32, max: u32) -> (r: Result<MemType, LimitError>)
        ensures
            min <= max ==> r is Ok,
            min > max ==> r == Err::<MemType, LimitError>(LimitError::InvalidRange),
            r matches Ok(ty) ==> ty.wf() && ty.limit() == (min, max) && ty.ownership()
                == Ownership::Owned,
    {
        if min > max {
            return Err(LimitError::InvalidRange);
        }
        Ok(MemType { min, max, ownership: Ownership::Owned })
    }

    /// A descriptor that refers to a range owned elsewhere.
    pub(crate) fn borrowed(min: u32, max: u32) -> (ty: MemType)
        requires
            min <= max,
        ensures
            ty.wf(),
            ty.limit() == (min, max),
            ty.ownership() == Ownership::BorrowedFromHost,
    {
        MemType { min, max, ownership: Ownership::BorrowedFromHost }
    }

    /// Returns the range `(min, max)`.
    #[verifier::when_used_as_spec(spec_limit)]
    pub fn limit(&self) -> (r: (u32, u32))
        ensures
            r == self.spec_limit(),
    {
        (self.min, self.max)
    }

    /// Returns the ownership tag.
    #[verifier::when_used_as_spec(spec_ownership)]
    pub fn ownership(&self) -> (r: Ownership)
        ensures
            r == self.spec_ownership(),
    {
        self.ownership
    }

    /// Returns whether a host registry owns the descriptor.
    #[verifier::when_used_as_spec(spec_registered)]
    pub fn registered(&self) -> (r: bool)
        ensures
            r == self.spec_registered(),
    {
        match self.ownership {
            Ownership::Owned => false,
            Ownership::BorrowedFromHost => true,
        }
    }

    /// Hands the descriptor to a host registry: from now on the registry owns
    /// it. The range is left as it is.
    pub fn register(&mut self)
        ensures
            final(self).limit() == old(self).limit(),
            final(self).ownership() == Ownership::BorrowedFromHost,
    {
        self.ownership = Ownership::BorrowedFromHost;
    }
}

} // verus!
