//! Shard identifiers: the unit the transport partitions on.

use vstd::prelude::*;

verus! {

/// A 64-bit id used purely as a routing partition key.
#[derive(Clone, Copy, Debug, PartialEq, Eq, Structural)]
pub struct InstaId(pub u64);

impl InstaId {
    /// Wraps a raw id.
    pub fn new(id: u64) -> (r: InstaId)
        ensures
            r.0 == id,
    {
        InstaId(id)
    }

    /// The wrapped id.
    pub fn id(&self) -> (r: u64)
        ensures
            r == self.0,
    {
        self.0
    }

    /// Selects one of `shard_count` shards; depends on the wrapped value alone.
    pub fn shard(&self, shard_count: u64) -> (r: u64)
        requires
            shard_count > 0,
        ensures
            r == self.0 % shard_count,
            r < shard_count,
    {
        self.0 % shard_count
    }
}

} // verus!
