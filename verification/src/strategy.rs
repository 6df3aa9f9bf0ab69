//! The enforcement strategy selector: a small state machine that decides,
//! from the policy and the outcome of each installation step, whether the
//! command runs directly under native kernel confinement or degrades to the
//! namespace-isolating fallback wrapper, and when the launch must abort.
//!
//! The driver owns the side effects: it performs the installation that the
//! current phase prescribes on the one thread that will also perform the
//! replacing execution, and feeds the outcome back in as an event. The
//! decision itself lives here and is verified.

use vstd::prelude::*;

use crate::error::LaunchError;
use crate::policy::SandboxPolicy;

verus! {

/// Where the launch stands. `Start` is the initial phase; `RunDirect`,
/// `RunWrapped` and `Aborted` are terminal. The two installation phases
/// prescribe exactly one enforcement call each, and no enforcement call is
/// ever made outside them.
#[derive(Clone, Copy, Debug, PartialEq, Eq, Structural)]
pub enum Phase {
    /// Nothing has happened yet.
    Start,
    /// The network filter must be installed now, on the current thread.
    InstallNetworkFilter,
    /// The native filesystem rules must be installed now, on the current
    /// thread, for the resolved writable roots.
    InstallFilesystemRules,
    /// Enforcement is in place (or none was required): replace the process
    /// image with the command itself.
    RunDirect,
    /// Native filesystem confinement is unavailable: replace the process
    /// image with the fallback wrapper around the command.
    RunWrapped,
    /// The launch failed; the process terminates abnormally with this error.
    Aborted(LaunchError),
}

/// What the driver reports back after acting on a phase.
#[derive(Clone, Copy, Debug, PartialEq, Eq, Structural)]
pub enum Event {
    /// The run begins; nothing has been attempted.
    Begin,
    /// The network filter installation finished with this outcome.
    NetworkFilterInstalled { success: bool },
    /// The native filesystem rules installation finished with this outcome,
    /// and the fallback tool was or was not found on the search path.
    FilesystemRulesInstalled { success: bool, fallback_available: bool },
}

/// After network enforcement is settled: install filesystem rules if disk
/// writes are restricted, otherwise run directly.
pub open spec fn fs_step_spec(policy: SandboxPolicy) -> Phase {
    if !policy.full_disk_write_access {
        Phase::InstallFilesystemRules
    } else {
        Phase::RunDirect
    }
}

/// The outcome of the filesystem-rules installation: success runs directly;
/// failure degrades to the wrapper when the fallback tool is available and
/// aborts when it is not.
pub open spec fn rules_outcome_spec(success: bool, fallback_available: bool) -> Phase {
    if success {
        Phase::RunDirect
    } else if fallback_available {
        Phase::RunWrapped
    } else {
        Phase::Aborted(LaunchError::FilesystemRulesFailed)
    }
}

/// The full transition relation of the selector. Terminal phases absorb every
/// event; an event that does not belong to the current phase changes nothing.
pub open spec fn step_spec(
    policy: SandboxPolicy,
    command_len: nat,
    phase: Phase,
    event: Event,
) -> Phase {
    match (phase, event) {
        (Phase::Start, Event::Begin) => {
            if command_len == 0 {
                Phase::Aborted(LaunchError::EmptyCommand)
            } else if !policy.full_network_access {
                Phase::InstallNetworkFilter
            } else {
                fs_step_spec(policy)
            }
        },
        (Phase::InstallNetworkFilter, Event::NetworkFilterInstalled { success }) => {
            if !success {
                Phase::Aborted(LaunchError::NetworkFilterFailed)
            } else {
                fs_step_spec(policy)
            }
        },
        (
            Phase::InstallFilesystemRules,
            Event::FilesystemRulesInstalled { success, fallback_available },
        ) => rules_outcome_spec(success, fallback_available),
        _ => phase,
    }
}

/// One transition of the selector, exactly as `step_spec` describes it.
pub fn advance(policy: &SandboxPolicy, command: &Vec<String>, phase: Phase, event: Event) -> (next:
    Phase)
    ensures
        next == step_spec(*policy, command@.len(), phase, event),
{
    match (phase, event) {
        (Phase::Start, Event::Begin) => {
            if command.len() == 0 {
                Phase::Aborted(LaunchError::EmptyCommand)
            } else if !policy.full_network_access {
                Phase::InstallNetworkFilter
            } else if !policy.full_disk_write_access {
                Phase::InstallFilesystemRules
            } else {
                Phase::RunDirect
            }
        },
        (Phase::InstallNetworkFilter, Event::NetworkFilterInstalled { success }) => {
            if !success {
                Phase::Aborted(LaunchError::NetworkFilterFailed)
            } else if !policy.full_disk_write_access {
                Phase::InstallFilesystemRules
            } else {
                Phase::RunDirect
            }
        },
        (
            Phase::InstallFilesystemRules,
            Event::FilesystemRulesInstalled { success, fallback_available },
        ) => {
            if success {
                Phase::RunDirect
            } else if fallback_available {
                Phase::RunWrapped
            } else {
                Phase::Aborted(LaunchError::FilesystemRulesFailed)
            }
        },
        (p, _) => p,
    }
}

/// Relies on pathsearch::find_executable_in_path: walks the entries of the
/// PATH environment variable and reports whether one holds an executable file
/// of the given name. The result depends on the process environment, so
/// nothing is stated of it.
#[verifier::external_body]
fn fallback_tool_on_path() -> bool {
    pathsearch::find_executable_in_path("bwrap").is_some()
}

/// The filesystem-rules transition as the driver takes it: on failure the
/// fallback tool is looked up on the search path, on success nothing is
/// looked up at all. The lookup stands on a path the machine passes at most
/// once per run, so the availability is computed at most once. Whatever the
/// lookup returns, the result is one step of `rules_outcome_spec`.
pub fn resolve_rules_outcome(success: bool) -> (next: Phase)
    ensures
        success ==> next == Phase::RunDirect,
        !success ==> next == Phase::RunWrapped || next == Phase::Aborted(
            LaunchError::FilesystemRulesFailed,
        ),
        exists|avail: bool| next == rules_outcome_spec(success, avail),
{
    if success {
        proof {
            assert(Phase::RunDirect == rules_outcome_spec(true, true));
        }
        Phase::RunDirect
    } else {
        let avail = fallback_tool_on_path();
        proof {
            assert(rules_outcome_spec(false, avail) == if avail {
                Phase::RunWrapped
            } else {
                Phase::Aborted(LaunchError::FilesystemRulesFailed)
            });
        }
        if avail {
            Phase::RunWrapped
        } else {
            Phase::Aborted(LaunchError::FilesystemRulesFailed)
        }
    }
}

/// What holds of every phase the selector can be in, for a given policy and
/// command length.
pub open spec fn phase_invariant(policy: SandboxPolicy, command_len: nat, phase: Phase) -> bool {
    &&& policy.full_network_access ==> phase !is InstallNetworkFilter
    &&& policy.full_disk_write_access ==> phase !is InstallFilesystemRules && phase !is RunWrapped
    &&& command_len == 0 ==> phase is Start || phase == Phase::Aborted(LaunchError::EmptyCommand)
}

pub proof fn lemma_start_satisfies_invariant(policy: SandboxPolicy, command_len: nat)
    ensures
        phase_invariant(policy, command_len, Phase::Start),
{
}

pub proof fn lemma_step_preserves_invariant(
    policy: SandboxPolicy,
    command_len: nat,
    phase: Phase,
    event: Event,
)
    requires
        phase_invariant(policy, command_len, phase),
    ensures
        phase_invariant(policy, command_len, step_spec(policy, command_len, phase, event)),
{
}

/// The phase after feeding a whole sequence of events, in order, from a given
/// phase.
pub open spec fn run_from(
    policy: SandboxPolicy,
    command_len: nat,
    phase: Phase,
    events: Seq<Event>,
) -> Phase
    decreases events.len(),
{
    if events.len() == 0 {
        phase
    } else {
        run_from(
            policy,
            command_len,
            step_spec(policy, command_len, phase, events[0]),
            events.drop_first(),
        )
    }
}

/// A phase is reachable when some event sequence leads to it from `Start`.
pub open spec fn reachable(policy: SandboxPolicy, command_len: nat, phase: Phase) -> bool {
    exists|events: Seq<Event>| phase == run_from(policy, command_len, Phase::Start, events)
}

pub proof fn lemma_run_from_preserves_invariant(
    policy: SandboxPolicy,
    command_len: nat,
    phase: Phase,
    events: Seq<Event>,
)
    requires
        phase_invariant(policy, command_len, phase),
    ensures
        phase_invariant(policy, command_len, run_from(policy, command_len, phase, events)),
    decreases events.len(),
{
    if events.len() > 0 {
        lemma_step_preserves_invariant(policy, command_len, phase, events[0]);
        lemma_run_from_preserves_invariant(
            policy,
            command_len,
            step_spec(policy, command_len, phase, events[0]),
            events.drop_first(),
        );
    }
}

/// Law: every phase the selector can reach satisfies the phase invariant.
pub proof fn lemma_reachable_satisfies_invariant(
    policy: SandboxPolicy,
    command_len: nat,
    phase: Phase,
)
    requires
        reachable(policy, command_len, phase),
    ensures
        phase_invariant(policy, command_len, phase),
{
    let events = choose|events: Seq<Event>|
        phase == run_from(policy, command_len, Phase::Start, events);
    lemma_start_satisfies_invariant(policy, command_len);
    lemma_run_from_preserves_invariant(policy, command_len, Phase::Start, events);
}

/// Law: an empty command is rejected before any enforcement step. The only
/// phases the selector can reach are the start and the abort on the empty
/// command; in particular no installation phase and no run phase is reached.
pub proof fn lemma_empty_command_rejected(policy: SandboxPolicy, phase: Phase)
    requires
        reachable(policy, 0, phase),
    ensures
        phase is Start || phase == Phase::Aborted(LaunchError::EmptyCommand),
        phase !is InstallNetworkFilter,
        phase !is InstallFilesystemRules,
        phase !is RunDirect,
        phase !is RunWrapped,
{
    lemma_reachable_satisfies_invariant(policy, 0, phase);
}

/// Law: when the policy grants full network access, no reachable phase
/// prescribes the network-filter installation, so that call is never made.
pub proof fn lemma_full_network_access_skips_filter(
    policy: SandboxPolicy,
    command_len: nat,
    phase: Phase,
)
    requires
        policy.full_network_access,
        reachable(policy, command_len, phase),
    ensures
        phase !is InstallNetworkFilter,
{
    lemma_reachable_satisfies_invariant(policy, command_len, phase);
}

/// Law: when the policy grants full disk-write access, no reachable phase
/// prescribes the filesystem-rules installation and none prescribes the
/// fallback wrapper, whatever the fallback tool's availability.
pub proof fn lemma_full_disk_access_skips_rules_and_fallback(
    policy: SandboxPolicy,
    command_len: nat,
    phase: Phase,
)
    requires
        policy.full_disk_write_access,
        reachable(policy, command_len, phase),
    ensures
        phase !is InstallFilesystemRules,
        phase !is RunWrapped,
{
    lemma_reachable_satisfies_invariant(policy, command_len, phase);
}

/// Law: when the filesystem-rules installation fails and the fallback tool
/// is unavailable, the selector aborts, and the abort absorbs every further
/// event, so no execution phase can follow.
pub proof fn lemma_rules_failure_without_fallback_aborts(
    policy: SandboxPolicy,
    command_len: nat,
    later: Event,
)
    ensures
        step_spec(
            policy,
            command_len,
            Phase::InstallFilesystemRules,
            Event::FilesystemRulesInstalled { success: false, fallback_available: false },
        ) == Phase::Aborted(LaunchError::FilesystemRulesFailed),
        step_spec(
            policy,
            command_len,
            Phase::Aborted(LaunchError::FilesystemRulesFailed),
            later,
        ) == Phase::Aborted(LaunchError::FilesystemRulesFailed),
{
}

/// Law: a terminal phase absorbs every event: the decision between direct
/// and wrapped execution, and an abort, are taken once and never revisited.
pub proof fn lemma_terminal_phases_absorb(
    policy: SandboxPolicy,
    command_len: nat,
    phase: Phase,
    event: Event,
)
    requires
        phase is RunDirect || phase is RunWrapped || phase is Aborted,
    ensures
        step_spec(policy, command_len, phase, event) == phase,
{
}

/// Law: when the filesystem-rules installation fails and the fallback tool
/// is available, the selector moves to the wrapped run, not to the direct
/// one.
pub proof fn lemma_rules_failure_with_fallback_wraps(policy: SandboxPolicy, command_len: nat)
    ensures
        step_spec(
            policy,
            command_len,
            Phase::InstallFilesystemRules,
            Event::FilesystemRulesInstalled { success: false, fallback_available: true },
        ) == Phase::RunWrapped,
{
}

} // verus!
