//! Error types for registry construction and cache operations.

use vstd::prelude::*;

verus! {

/// Why building a permission registry from raw configuration entries failed.
/// Construction is all-or-nothing: no partial registry is published.
#[derive(Clone, Copy, PartialEq, Eq, Structural, Debug)]
pub enum RegistryError {
    /// An entry names a role that is not one of the known roles.
    UnknownRole,
    /// An entry names a verdict that is not one of the known rule verdicts.
    UnknownVerdict,
    /// An entry has an empty capability name, which is structurally invalid.
    EmptyCapability,
    /// Two entries share the same (role, capability) key.
    DuplicateRule,
}

/// Why a cache operation was rejected. Cache errors are local to the
/// operation and never surface as authorization failures.
#[derive(Clone, Copy, PartialEq, Eq, Structural, Debug)]
pub enum CacheError {
    /// A time-to-live of zero: such a grant is not cacheable.
    InvalidTtl,
}

} // verus!
