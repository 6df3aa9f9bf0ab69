//! The argument builder for the namespace-isolation fallback wrapper.
//!
//! When native filesystem confinement is unavailable, the command runs under
//! an external helper that unshares every namespace, re-shares the network
//! namespace (a restrictive network policy was already enforced by the
//! filter before this point), binds the root filesystem read-only onto
//! itself, binds the device directory, and then bind-mounts each writable
//! root read-write onto itself. The full argument vector is the fixed
//! seven-token prefix, one bind pair per writable root in order, and the
//! original command unchanged.

use vstd::prelude::*;

use crate::error::LaunchError;

verus! {

/// The fixed seven-token prefix of every wrapper invocation.
pub open spec fn bwrap_prefix_matches(argv: Seq<String>) -> bool {
    &&& argv.len() >= 7
    &&& argv[0]@ == "--unshare-all"@
    &&& argv[1]@ == "--share-net"@
    &&& argv[2]@ == "--ro-bind"@
    &&& argv[3]@ == "/"@
    &&& argv[4]@ == "/"@
    &&& argv[5]@ == "--dev"@
    &&& argv[6]@ == "/dev"@
}

/// The position, in the wrapper argument vector, of the bind flag of root
/// `i`: each root owns three consecutive tokens after the seven-token
/// prefix.
pub open spec fn bind_slot(i: int) -> int {
    7 + 3 * i
}

/// The whole wrapper argument vector: the fixed prefix, then exactly one
/// read-write bind pair per root (mapping each root onto itself, no
/// remapping), in root order, then the command tokens in their original
/// order.
pub open spec fn bwrap_argv_matches(
    roots: Seq<String>,
    command: Seq<String>,
    argv: Seq<String>,
) -> bool {
    &&& argv.len() == 7 + 3 * roots.len() + command.len()
    &&& bwrap_prefix_matches(argv)
    &&& forall|i: int|
        #![trigger roots[i]]
        #![trigger bind_slot(i)]
        0 <= i < roots.len() ==> (argv[bind_slot(i)]@ == "--bind"@
            && argv[bind_slot(i) + 1]@ == roots[i]@
            && argv[bind_slot(i) + 2]@ == roots[i]@)
    &&& forall|i: int|
        0 <= i < command.len() ==> argv[7 + 3 * roots.len() + i]@ == (#[trigger] command[i])@
}

/// Builds the wrapper argument vector for the given canonical writable roots
/// and command.
pub fn build_bwrap_argv(canonical_roots: &Vec<String>, command: &Vec<String>) -> (argv: Vec<
    String,
>)
    ensures
        bwrap_argv_matches(canonical_roots@, command@, argv@),
{
    let mut argv: Vec<String> = Vec::new();
    argv.push("--unshare-all".to_owned());
    argv.push("--share-net".to_owned());
    argv.push("--ro-bind".to_owned());
    argv.push("/".to_owned());
    argv.push("/".to_owned());
    argv.push("--dev".to_owned());
    argv.push("/dev".to_owned());
    let nroots = canonical_roots.len();
    let mut k: usize = 0;
    while k < nroots
        invariant
            nroots == canonical_roots@.len(),
            k <= nroots,
            argv@.len() == 7 + 3 * k,
            bwrap_prefix_matches(argv@),
            forall|i: int|
                #![trigger canonical_roots@[i]]
                #![trigger bind_slot(i)]
                0 <= i < k ==> (argv@[bind_slot(i)]@ == "--bind"@
                    && argv@[bind_slot(i) + 1]@ == canonical_roots@[i]@
                    && argv@[bind_slot(i) + 2]@ == canonical_roots@[i]@),
        decreases nroots - k,
    {
        argv.push("--bind".to_owned());
        argv.push(canonical_roots[k].clone());
        argv.push(canonical_roots[k].clone());
        k = k + 1;
    }
    let ncmd = command.len();
    let mut j: usize = 0;
    while j < ncmd
        invariant
            nroots == canonical_roots@.len(),
            ncmd == command@.len(),
            j <= ncmd,
            argv@.len() == 7 + 3 * nroots + j,
            bwrap_prefix_matches(argv@),
            forall|i: int|
                #![trigger canonical_roots@[i]]
                #![trigger bind_slot(i)]
                0 <= i < nroots ==> (argv@[bind_slot(i)]@ == "--bind"@
                    && argv@[bind_slot(i) + 1]@ == canonical_roots@[i]@
                    && argv@[bind_slot(i) + 2]@ == canonical_roots@[i]@),
            forall|i: int|
                0 <= i < j ==> argv@[7 + 3 * nroots + i]@ == (#[trigger] command@[i])@,
        decreases ncmd - j,
    {
        argv.push(command[j].clone());
        j = j + 1;
    }
    argv
}

/// Gathers the canonicalization outcomes of the writable roots, in order.
/// Every root must have canonicalized; one failure makes the whole launch
/// fatal, before any execution attempt.
pub fn collect_canonical_roots(outcomes: &Vec<Option<String>>) -> (r: Result<
    Vec<String>,
    LaunchError,
>)
    ensures
        r is Ok <==> (forall|i: int| 0 <= i < outcomes@.len() ==> (#[trigger] outcomes@[i]) is Some),
        r is Ok ==> {
            &&& r->Ok_0@.len() == outcomes@.len()
            &&& forall|i: int|
                0 <= i < outcomes@.len() ==> r->Ok_0@[i]@ == (#[trigger] outcomes@[i])->0@
        },
        r is Err ==> r->Err_0 == LaunchError::RootNotCanonicalizable,
{
    let mut roots: Vec<String> = Vec::new();
    let n = outcomes.len();
    for k in 0..n
        invariant
            n == outcomes@.len(),
            roots@.len() == k,
            forall|i: int| 0 <= i < k ==> (#[trigger] outcomes@[i]) is Some,
            forall|i: int| 0 <= i < k ==> roots@[i]@ == (#[trigger] outcomes@[i])->0@,
    {
        match &outcomes[k] {
            Some(root) => {
                roots.push(root.clone());
            },
            None => {
                return Err(LaunchError::RootNotCanonicalizable);
            },
        }
    }
    Ok(roots)
}

} // verus!
