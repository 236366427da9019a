//! The bounds of the connection pool. Both are supplied from outside; the
//! service derives neither.

use vstd::prelude::*;

verus! {

/// What a [`PoolConfig`] is, mathematically.
pub struct PoolConfigView {
    pub max_size: u32,
    pub timeout_seconds: u64,
}

impl PoolConfigView {
    /// A pool holds one connection at least, and waits for one a second at
    /// least.
    pub open spec fn well_formed(self) -> bool {
        self.max_size > 0 && self.timeout_seconds > 0
    }
}

/// How many connections the pool may hold at most, and how long a request
/// waits for one before it fails as unavailable.
#[derive(Clone, Copy, Debug)]
pub struct PoolConfig {
    max_size: u32,
    timeout_seconds: u64,
}

impl View for PoolConfig {
    type V = PoolConfigView;

    closed spec fn view(&self) -> PoolConfigView {
        PoolConfigView { max_size: self.max_size, timeout_seconds: self.timeout_seconds }
    }
}

impl PoolConfig {
    #[verifier::type_invariant]
    spec fn bounds_positive(self) -> bool {
        self@.well_formed()
    }

    /// The configuration with these bounds, where both are positive; none
    /// otherwise.
    pub fn new(max_size: u32, timeout_seconds: u64) -> (config: Option<PoolConfig>)
        ensures
            config is Some == (PoolConfigView { max_size, timeout_seconds }).well_formed(),
            config matches Some(made) ==> made@ == (PoolConfigView { max_size, timeout_seconds }),
    {
        if max_size > 0 && timeout_seconds > 0 {
            Some(PoolConfig { max_size, timeout_seconds })
        } else {
            None
        }
    }

    /// The greatest number of connections, never 0.
    pub fn max_size(&self) -> (max_size: u32)
        ensures
            max_size == self@.max_size,
            max_size > 0,
    {
        proof {
            use_type_invariant(self);
        }
        self.max_size
    }

    /// The seconds to wait for a connection, never 0.
    pub fn timeout_seconds(&self) -> (seconds: u64)
        ensures
            seconds == self@.timeout_seconds,
            seconds > 0,
    {
        proof {
            use_type_invariant(self);
        }
        self.timeout_seconds
    }
}

} // verus!
