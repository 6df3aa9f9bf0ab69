//! The front half of the process-image replacer: choosing the final program
//! and argument vector from the selector's decision, validating that no
//! argument holds an embedded NUL byte, and encoding every argument as an
//! owned NUL-terminated byte buffer.
//!
//! The replacing execution call itself is left to the thin binary around the
//! crate; it must treat any return from that call as fatal and never retry
//! it.

use vstd::prelude::*;

use vstd::string::StrSliceExecFns;
use vstd::utf8::encode_utf8;

use crate::bwrap::build_bwrap_argv;
use crate::bwrap::bwrap_argv_matches;
use crate::error::LaunchError;
use crate::strategy::Phase;

verus! {

/// The final, fully decided execution: which program to look up on the
/// search path, and the argument vector to hand it.
pub struct ExecPlan {
    /// The program name handed to the search-path execution call: the
    /// command's first token for a direct run, the fallback tool's name for
    /// a wrapped run.
    pub program: String,
    /// The argument vector handed alongside it, in final order.
    pub argv: Vec<String>,
}

/// Whether a text's byte encoding is free of NUL bytes, so that it can be
/// handed to the execution call as a NUL-terminated buffer.
pub open spec fn nul_free(s: Seq<char>) -> bool {
    !encode_utf8(s).contains(0u8)
}

/// The plan of a direct run: the command's first token is the program, and
/// the whole command, unmodified and in original order, is the argument
/// vector.
pub fn direct_exec_plan(command: &Vec<String>) -> (plan: ExecPlan)
    requires
        command@.len() >= 1,
    ensures
        plan.program@ == command@[0]@,
        plan.argv@.len() == command@.len(),
        forall|i: int| 0 <= i < command@.len() ==> plan.argv@[i]@ == (#[trigger] command@[i])@,
{
    let program = command[0].clone();
    let mut argv: Vec<String> = Vec::new();
    let n = command.len();
    for k in 0..n
        invariant
            n == command@.len(),
            argv@.len() == k,
            forall|i: int| 0 <= i < k ==> argv@[i]@ == (#[trigger] command@[i])@,
    {
        argv.push(command[k].clone());
    }
    ExecPlan { program, argv }
}

/// The plan of a wrapped run: the fallback tool is the program (the command
/// itself is not executed directly), and the argument vector is the wrapper
/// invocation built from the canonical writable roots and the command.
pub fn wrapped_exec_plan(canonical_roots: &Vec<String>, command: &Vec<String>) -> (plan: ExecPlan)
    ensures
        plan.program@ == "bwrap"@,
        bwrap_argv_matches(canonical_roots@, command@, plan.argv@),
{
    ExecPlan { program: "bwrap".to_owned(), argv: build_bwrap_argv(canonical_roots, command) }
}

/// The execution plan that a settled selector phase calls for: the direct
/// plan for a direct run, the wrapper plan for a wrapped run, and the
/// abort's own error when the launch was aborted — in that case no plan
/// exists and nothing may be executed.
pub fn plan_for_phase(phase: Phase, command: &Vec<String>, canonical_roots: &Vec<String>) -> (r:
    Result<ExecPlan, LaunchError>)
    requires
        command@.len() >= 1,
        phase is RunDirect || phase is RunWrapped || phase is Aborted,
    ensures
        phase is RunDirect ==> {
            &&& r is Ok
            &&& r->Ok_0.program@ == command@[0]@
            &&& r->Ok_0.argv@.len() == command@.len()
            &&& forall|i: int|
                0 <= i < command@.len() ==> r->Ok_0.argv@[i]@ == (#[trigger] command@[i])@
        },
        phase is RunWrapped ==> {
            &&& r is Ok
            &&& r->Ok_0.program@ == "bwrap"@
            &&& bwrap_argv_matches(canonical_roots@, command@, r->Ok_0.argv@)
        },
        phase matches Phase::Aborted(e) ==> r == Result::<ExecPlan, LaunchError>::Err(e),
{
    match phase {
        Phase::RunDirect => Ok(direct_exec_plan(command)),
        Phase::RunWrapped => Ok(wrapped_exec_plan(canonical_roots, command)),
        Phase::Aborted(e) => Err(e),
        _ => vstd::pervasive::unreached(),
    }
}

/// Validates that the text holds no embedded NUL byte and encodes it as an
/// owned byte buffer: its UTF-8 bytes followed by exactly one terminating
/// NUL.
pub fn encode_nul_terminated(s: &String) -> (r: Result<Vec<u8>, LaunchError>)
    ensures
        r is Ok <==> nul_free(s@),
        r is Ok ==> r->Ok_0@ == encode_utf8(s@).push(0u8),
        r is Ok ==> {
            &&& r->Ok_0@.len() == encode_utf8(s@).len() + 1
            &&& r->Ok_0@[r->Ok_0@.len() - 1] == 0u8
            &&& forall|j: int| 0 <= j < r->Ok_0@.len() - 1 ==> (#[trigger] r->Ok_0@[j]) != 0u8
        },
        r is Err ==> r->Err_0 == LaunchError::NulByteInArgument,
{
    let mut bytes = s.as_str().as_bytes_vec();
    let n = bytes.len();
    for k in 0..n
        invariant
            bytes@ == encode_utf8(s@),
            n == bytes@.len(),
            forall|i: int| 0 <= i < k ==> (#[trigger] bytes@[i]) != 0u8,
    {
        if bytes[k] == 0 {
            return Err(LaunchError::NulByteInArgument);
        }
    }
    bytes.push(0);
    Ok(bytes)
}

/// Validates and encodes a whole argument vector, in order. One embedded
/// NUL anywhere rejects the whole vector, before any execution attempt.
pub fn encode_argv(argv: &Vec<String>) -> (r: Result<Vec<Vec<u8>>, LaunchError>)
    ensures
        r is Ok <==> (forall|i: int| 0 <= i < argv@.len() ==> nul_free((#[trigger] argv@[i])@)),
        r is Ok ==> {
            &&& r->Ok_0@.len() == argv@.len()
            &&& forall|i: int|
                0 <= i < argv@.len() ==> r->Ok_0@[i]@ == encode_utf8(
                    (#[trigger] argv@[i])@,
                ).push(0u8)
        },
        r is Err ==> r->Err_0 == LaunchError::NulByteInArgument,
{
    let mut buffers: Vec<Vec<u8>> = Vec::new();
    let n = argv.len();
    for k in 0..n
        invariant
            n == argv@.len(),
            buffers@.len() == k,
            forall|i: int| 0 <= i < k ==> nul_free((#[trigger] argv@[i])@),
            forall|i: int|
                0 <= i < k ==> buffers@[i]@ == encode_utf8((#[trigger] argv@[i])@).push(0u8),
    {
        match encode_nul_terminated(&argv[k]) {
            Ok(buffer) => {
                buffers.push(buffer);
            },
            Err(e) => {
                return Err(e);
            },
        }
    }
    Ok(buffers)
}

} // verus!
