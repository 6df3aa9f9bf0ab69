use sandbox_launcher::bwrap::{build_bwrap_argv, collect_canonical_roots};
use sandbox_launcher::error::LaunchError;
use sandbox_launcher::policy::{resolve_writable_roots, SandboxPolicy};
use sandbox_launcher::replacer::{
    direct_exec_plan, encode_argv, encode_nul_terminated, plan_for_phase, wrapped_exec_plan,
};
use sandbox_launcher::strategy::{advance, resolve_rules_outcome, Event, Phase};

fn command_of(args: &[&str]) -> Vec<String> {
    args.iter().map(|a| a.to_string()).collect()
}

fn roots_of(roots: &[&str]) -> Vec<String> {
    roots.iter().map(|r| r.to_string()).collect()
}

#[test]
fn empty_command_is_rejected_before_any_enforcement() {
    let policy = SandboxPolicy::new(false, false, roots_of(&["/tmp/work"]));
    let command: Vec<String> = Vec::new();
    let phase = advance(&policy, &command, Phase::Start, Event::Begin);
    assert_eq!(phase, Phase::Aborted(LaunchError::EmptyCommand));
}

#[test]
fn empty_command_abort_absorbs_every_event() {
    let policy = SandboxPolicy::new(false, false, Vec::new());
    let command: Vec<String> = Vec::new();
    let phase = advance(&policy, &command, Phase::Start, Event::Begin);
    let after = advance(
        &policy,
        &command,
        phase,
        Event::NetworkFilterInstalled { success: true },
    );
    assert_eq!(after, Phase::Aborted(LaunchError::EmptyCommand));
}

#[test]
fn full_network_access_skips_the_filter() {
    let policy = SandboxPolicy::new(true, false, roots_of(&["/tmp/work"]));
    let command = command_of(&["ls"]);
    let phase = advance(&policy, &command, Phase::Start, Event::Begin);
    assert_eq!(phase, Phase::InstallFilesystemRules);
}

#[test]
fn full_disk_access_skips_rules_and_fallback() {
    let policy = SandboxPolicy::new(false, true, Vec::new());
    let command = command_of(&["ls"]);
    let phase = advance(&policy, &command, Phase::Start, Event::Begin);
    assert_eq!(phase, Phase::InstallNetworkFilter);
    let phase = advance(
        &policy,
        &command,
        phase,
        Event::NetworkFilterInstalled { success: true },
    );
    assert_eq!(phase, Phase::RunDirect);
}

#[test]
fn network_filter_failure_is_fatal() {
    let policy = SandboxPolicy::new(false, true, Vec::new());
    let command = command_of(&["ls"]);
    let phase = advance(&policy, &command, Phase::Start, Event::Begin);
    let phase = advance(
        &policy,
        &command,
        phase,
        Event::NetworkFilterInstalled { success: false },
    );
    assert_eq!(phase, Phase::Aborted(LaunchError::NetworkFilterFailed));
}

#[test]
fn rules_failure_without_fallback_aborts() {
    let policy = SandboxPolicy::new(true, false, roots_of(&["/tmp/work"]));
    let command = command_of(&["ls"]);
    let phase = advance(&policy, &command, Phase::Start, Event::Begin);
    assert_eq!(phase, Phase::InstallFilesystemRules);
    let phase = advance(
        &policy,
        &command,
        phase,
        Event::FilesystemRulesInstalled { success: false, fallback_available: false },
    );
    assert_eq!(phase, Phase::Aborted(LaunchError::FilesystemRulesFailed));
    let after = advance(
        &policy,
        &command,
        phase,
        Event::FilesystemRulesInstalled { success: false, fallback_available: true },
    );
    assert_eq!(after, Phase::Aborted(LaunchError::FilesystemRulesFailed));
}

#[test]
fn rules_failure_with_fallback_wraps() {
    let policy = SandboxPolicy::new(true, false, roots_of(&["/tmp/work"]));
    let command = command_of(&["ls"]);
    let phase = advance(&policy, &command, Phase::Start, Event::Begin);
    let phase = advance(
        &policy,
        &command,
        phase,
        Event::FilesystemRulesInstalled { success: false, fallback_available: true },
    );
    assert_eq!(phase, Phase::RunWrapped);
}

#[test]
fn scenario_full_access_runs_echo_directly() {
    let policy = SandboxPolicy::new(true, true, Vec::new());
    let command = command_of(&["echo", "hi"]);
    let phase = advance(&policy, &command, Phase::Start, Event::Begin);
    assert_eq!(phase, Phase::RunDirect);
    let plan = plan_for_phase(phase, &command, &Vec::new()).unwrap();
    assert_eq!(plan.program, "echo");
    assert_eq!(plan.argv, command_of(&["echo", "hi"]));
}

#[test]
fn scenario_restricted_network_installs_filter_then_runs_direct() {
    let policy = SandboxPolicy::new(false, true, Vec::new());
    let command = command_of(&["ls"]);
    let phase = advance(&policy, &command, Phase::Start, Event::Begin);
    assert_eq!(phase, Phase::InstallNetworkFilter);
    let phase = advance(
        &policy,
        &command,
        phase,
        Event::NetworkFilterInstalled { success: true },
    );
    assert_eq!(phase, Phase::RunDirect);
    let plan = plan_for_phase(phase, &command, &Vec::new()).unwrap();
    assert_eq!(plan.program, "ls");
    assert_eq!(plan.argv, command_of(&["ls"]));
}

#[test]
fn scenario_native_rules_success_runs_direct() {
    let policy = SandboxPolicy::new(true, false, roots_of(&["/tmp/work"]));
    let command = command_of(&["ls"]);
    let phase = advance(&policy, &command, Phase::Start, Event::Begin);
    assert_eq!(phase, Phase::InstallFilesystemRules);
    // The outcome of a successful installation does not depend on whether
    // the fallback tool exists.
    for fallback_available in [false, true] {
        let next = advance(
            &policy,
            &command,
            phase,
            Event::FilesystemRulesInstalled { success: true, fallback_available },
        );
        assert_eq!(next, Phase::RunDirect);
    }
}

#[test]
fn scenario_rules_failure_executes_fallback_tool() {
    let policy = SandboxPolicy::new(true, false, roots_of(&["/tmp/work"]));
    let command = command_of(&["ls"]);
    let phase = advance(&policy, &command, Phase::Start, Event::Begin);
    let phase = advance(
        &policy,
        &command,
        phase,
        Event::FilesystemRulesInstalled { success: false, fallback_available: true },
    );
    assert_eq!(phase, Phase::RunWrapped);
    let outcomes = vec![Some("/tmp/work".to_string())];
    let canonical = collect_canonical_roots(&outcomes).unwrap();
    let plan = plan_for_phase(phase, &command, &canonical).unwrap();
    assert_eq!(plan.program, "bwrap");
    assert_eq!(
        plan.argv,
        command_of(&[
            "--unshare-all",
            "--share-net",
            "--ro-bind",
            "/",
            "/",
            "--dev",
            "/dev",
            "--bind",
            "/tmp/work",
            "/tmp/work",
            "ls",
        ])
    );
}

#[test]
fn scenario_non_canonicalizable_root_is_fatal() {
    let outcomes: Vec<Option<String>> = vec![None];
    assert_eq!(
        collect_canonical_roots(&outcomes),
        Err(LaunchError::RootNotCanonicalizable)
    );
    let outcomes = vec![Some("/a".to_string()), None, Some("/b".to_string())];
    assert_eq!(
        collect_canonical_roots(&outcomes),
        Err(LaunchError::RootNotCanonicalizable)
    );
}

#[test]
fn collect_canonical_roots_preserves_values_and_order() {
    let outcomes = vec![Some("/b".to_string()), Some("/a".to_string())];
    assert_eq!(collect_canonical_roots(&outcomes).unwrap(), roots_of(&["/b", "/a"]));
    let empty: Vec<Option<String>> = Vec::new();
    assert_eq!(collect_canonical_roots(&empty).unwrap(), Vec::<String>::new());
}

#[test]
fn bwrap_argv_holds_one_bind_pair_per_root_in_order() {
    let roots = roots_of(&["/one", "/two", "/three"]);
    let command = command_of(&["prog", "arg"]);
    let argv = build_bwrap_argv(&roots, &command);
    assert_eq!(argv.len(), 7 + 3 * roots.len() + command.len());
    assert_eq!(
        &argv[..7],
        &command_of(&["--unshare-all", "--share-net", "--ro-bind", "/", "/", "--dev", "/dev"])[..]
    );
    for (i, root) in roots.iter().enumerate() {
        assert_eq!(argv[7 + 3 * i], "--bind");
        assert_eq!(&argv[7 + 3 * i + 1], root);
        assert_eq!(&argv[7 + 3 * i + 2], root);
    }
    assert_eq!(&argv[7 + 3 * roots.len()..], &command[..]);
}

#[test]
fn bwrap_argv_with_no_roots_is_prefix_plus_command() {
    let argv = build_bwrap_argv(&Vec::new(), &command_of(&["ls"]));
    assert_eq!(
        argv,
        command_of(&["--unshare-all", "--share-net", "--ro-bind", "/", "/", "--dev", "/dev", "ls"])
    );
}

#[test]
fn direct_plan_keeps_the_command_unchanged() {
    let command = command_of(&["cat", "-n", "file"]);
    let plan = direct_exec_plan(&command);
    assert_eq!(plan.program, "cat");
    assert_eq!(plan.argv, command);
}

#[test]
fn wrapped_plan_names_the_fallback_tool() {
    let plan = wrapped_exec_plan(&roots_of(&["/tmp/work"]), &command_of(&["ls"]));
    assert_eq!(plan.program, "bwrap");
    assert_eq!(plan.argv[7], "--bind");
}

#[test]
fn aborted_phase_yields_its_own_error_and_no_plan() {
    let command = command_of(&["ls"]);
    let r = plan_for_phase(
        Phase::Aborted(LaunchError::NetworkFilterFailed),
        &command,
        &Vec::new(),
    );
    assert_eq!(r.err(), Some(LaunchError::NetworkFilterFailed));
}

#[test]
fn encoding_appends_exactly_one_nul() {
    assert_eq!(encode_nul_terminated(&"ab".to_string()).unwrap(), vec![97u8, 98, 0]);
    assert_eq!(encode_nul_terminated(&String::new()).unwrap(), vec![0u8]);
}

#[test]
fn encoding_uses_utf8_bytes() {
    assert_eq!(
        encode_nul_terminated(&"\u{e9}".to_string()).unwrap(),
        vec![0xc3u8, 0xa9, 0]
    );
}

#[test]
fn embedded_nul_is_rejected() {
    assert_eq!(
        encode_nul_terminated(&"a\0b".to_string()),
        Err(LaunchError::NulByteInArgument)
    );
    assert_eq!(
        encode_argv(&vec!["ok".to_string(), "a\0b".to_string()]),
        Err(LaunchError::NulByteInArgument)
    );
}

#[test]
fn encoding_a_vector_keeps_order() {
    let bufs = encode_argv(&command_of(&["hi", ""])).unwrap();
    assert_eq!(bufs, vec![vec![104u8, 105, 0], vec![0u8]]);
}

#[test]
fn resolver_preserves_declared_root_order() {
    let policy = SandboxPolicy::new(true, false, roots_of(&["/z", "/a", "/m"]));
    assert_eq!(resolve_writable_roots(&policy), roots_of(&["/z", "/a", "/m"]));
    assert!(policy.has_full_network_access());
    assert!(!policy.has_full_disk_write_access());
}

#[test]
fn rules_outcome_success_never_probes_or_wraps() {
    assert_eq!(resolve_rules_outcome(true), Phase::RunDirect);
}

#[test]
fn rules_outcome_failure_wraps_or_aborts() {
    let next = resolve_rules_outcome(false);
    assert!(
        next == Phase::RunWrapped || next == Phase::Aborted(LaunchError::FilesystemRulesFailed)
    );
}

#[test]
fn every_error_has_its_own_diagnostic() {
    assert_eq!(LaunchError::EmptyCommand.message(), "no command specified to execute");
    assert_eq!(LaunchError::NulByteInArgument.message(), "argument holds an embedded NUL byte");
    assert_eq!(LaunchError::NetworkFilterFailed.message(), "error installing the network filter");
    assert_eq!(
        LaunchError::FilesystemRulesFailed.message(),
        "error installing filesystem rules and the fallback tool is not available"
    );
    assert_eq!(
        LaunchError::RootNotCanonicalizable.message(),
        "error canonicalizing a writable root"
    );
    assert_eq!(LaunchError::ExecFailed.message(), "failed to execute the final command");
}
