//! The resolved permission policy, as the launcher consumes it.
//!
//! The policy is decided and serialized elsewhere; by the time it reaches the
//! launcher it answers exactly three questions: is network access
//! unrestricted, is disk-write access unrestricted, and which roots may be
//! written to. It is immutable for the run.

use vstd::prelude::*;

verus! {

/// The permission policy, reduced to the three facts the launcher acts on.
pub struct SandboxPolicy {
    /// Whether the process may use the network freely. When this is false a
    /// network filter must be installed before execution.
    pub full_network_access: bool,
    /// Whether the process may write to the whole filesystem. When this is
    /// false write access is confined to the writable roots.
    pub full_disk_write_access: bool,
    /// The paths the process may write to, in the order the policy declares
    /// them. Later steps rely on this order staying stable.
    pub writable_roots: Vec<String>,
}

impl SandboxPolicy {
    pub fn new(
        full_network_access: bool,
        full_disk_write_access: bool,
        writable_roots: Vec<String>,
    ) -> (p: SandboxPolicy)
        ensures
            p.full_network_access == full_network_access,
            p.full_disk_write_access == full_disk_write_access,
            p.writable_roots@ == writable_roots@,
    {
        SandboxPolicy { full_network_access, full_disk_write_access, writable_roots }
    }

    pub fn has_full_network_access(&self) -> (b: bool)
        ensures
            b == self.full_network_access,
    {
        self.full_network_access
    }

    pub fn has_full_disk_write_access(&self) -> (b: bool)
        ensures
            b == self.full_disk_write_access,
    {
        self.full_disk_write_access
    }
}

/// The writable roots of the policy, as an owned list, one path per declared
/// root, order preserved. The bind list of the fallback wrapper is built from
/// this list, so a stable order here makes that list reproducible.
pub fn resolve_writable_roots(policy: &SandboxPolicy) -> (roots: Vec<String>)
    ensures
        roots@.len() == policy.writable_roots@.len(),
        forall|i: int|
            0 <= i < roots@.len() ==> roots@[i]@ == policy.writable_roots@[i]@,
{
    let mut roots: Vec<String> = Vec::new();
    let n = policy.writable_roots.len();
    for k in 0..n
        invariant
            n == policy.writable_roots@.len(),
            roots@.len() == k,
            forall|i: int| 0 <= i < k ==> roots@[i]@ == policy.writable_roots@[i]@,
    {
        roots.push(policy.writable_roots[k].clone());
    }
    roots
}

} // verus!
