//! Deterministic cache errors.
//!
//! Every operational failure is reported with a short, fixed description.
//! Raw operating-system error text never enters an error value, so the same
//! failure looks identical on every machine — a requirement when the cache
//! backs a determinism-sensitive execution engine.

use vstd::prelude::*;

verus! {

/// Operational failure of a cache operation. Non-fatal: the caller decides
/// how to recover (typically by recompiling).
#[derive(Debug)]
pub enum VmError {
    /// Generic cache error with a platform-independent description.
    CacheErr { msg: String },
}

/// Result of a cache operation.
pub type VmResult<T> = Result<T, VmError>;

impl VmError {
    /// The description this error carries.
    pub open spec fn spec_message(self) -> Seq<char> {
        match self {
            VmError::CacheErr { msg } => msg@,
        }
    }

    /// Generic cache error with the given description.
    pub fn cache_err(msg: &str) -> (r: VmError)
        ensures
            r.spec_message() == msg@,
    {
        VmError::CacheErr { msg: msg.to_owned() }
    }

    /// The description of this error.
    pub fn message(&self) -> (r: &str)
        ensures
            r@ == self.spec_message(),
    {
        match self {
            VmError::CacheErr { msg } => msg.as_str(),
        }
    }
}

} // verus!
