//! Typed access into opaque, host-owned records.
//!
//! The host hands out blocks of memory whose total layout is unknown; all
//! this engine knows is that a field of a known primitive type lives at a
//! fixed byte offset inside such a block. The accessor computes the field's
//! address by plain pointer arithmetic; the dereference itself is performed
//! by the unverified layer, since the memory is owned by the host.

use vstd::prelude::*;

verus! {

/// An externally-owned record: a block of host memory of unknown layout,
/// identified by its base address. The engine never allocates or frees it.
pub struct OpaqueRecord {
    pub base: u64,
}

impl OpaqueRecord {
    /// Wrap the base address of a host-owned record.
    pub fn new(base: u64) -> (r: OpaqueRecord)
        ensures
            r.base == base,
    {
        OpaqueRecord { base }
    }

    /// Address of the field that lives `offset` bytes into the record:
    /// exactly `base + offset`, independent of the field's type.
    pub fn field_address(&self, offset: u64) -> (r: u64)
        requires
            self.base + offset <= u64::MAX,
        ensures
            r == self.base + offset,
    {
        self.base + offset
    }
}

} // verus!
