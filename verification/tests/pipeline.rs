use rye_bootstrap::bootstrap::{
    advance, cache_outcome, gate_outcome, install_is_complete, self_python_request,
    verification_phase_outcome, Phase, PhaseOutcome,
};
use rye_bootstrap::envbuild::{
    env_step_result, get_pip_module, get_pip_runner, pip_install_requirements_command,
    pip_upgrade_command, self_requirements, venv_create_command,
};
use rye_bootstrap::gate::{
    current_marker_text, stale_cleanup_plan, CleanupAction, GateStatus, SelfUpdateGate,
    SELF_VERSION,
};
use rye_bootstrap::resolver::{resolve, KnownBuild};
use rye_bootstrap::shims::{
    link_strategies, link_fallback_decision, shim_names, shim_steps, LinkDecision, LinkStrategy,
    Platform, ShimAction, ShimSet,
};
use rye_bootstrap::version::VersionRequest;
use rye_bootstrap::BootstrapError;
use rye_bootstrap::CommandOutput;
use rye_bootstrap::SetupStep;

const HELLO_DIGEST: &str = "b94d27b9934d3e08a52e52d7da7dabfac484efe37a5380ee9088f7ace2efcde9";

fn build(minor: u64, patch: u64, digest: Option<&str>) -> KnownBuild {
    KnownBuild {
        kind: "cpython".to_string(),
        major: 3,
        minor,
        patch,
        suffix: None,
        os: "linux".to_string(),
        arch: "x86_64".to_string(),
        url: format!("https://builds.example/cpython-3.{}.{}.tgz", minor, patch),
        digest: digest.map(|d| d.to_string()),
    }
}

fn request(major: u64, minor: Option<u64>) -> VersionRequest {
    VersionRequest {
        kind: Some("cpython".to_string()),
        major,
        minor,
        patch: None,
        suffix: None,
    }
}

#[test]
fn gate_current_marker_short_circuits() {
    let gate = SelfUpdateGate::new();
    let marker = Some(current_marker_text());
    assert_eq!(gate.status(&marker), GateStatus::Current);
    assert_eq!(advance(Phase::GateCheck, gate_outcome(GateStatus::Current)), Phase::Complete);
}

#[test]
fn gate_second_check_uses_in_process_flag() {
    let mut gate = SelfUpdateGate::new();
    assert_eq!(gate.status(&None), GateStatus::Stale);
    gate.record_success();
    assert_eq!(gate.status(&None), GateStatus::Current);
}

#[test]
fn stale_marker_forces_full_rebuild() {
    let gate = SelfUpdateGate::new();
    let marker = Some(format!("{}", SELF_VERSION + 1));
    assert_eq!(gate.status(&marker), GateStatus::Stale);
    assert_eq!(gate.status(&Some("not a number".to_string())), GateStatus::Stale);
    assert_eq!(gate.status(&None), GateStatus::Stale);
    assert_eq!(advance(Phase::GateCheck, gate_outcome(GateStatus::Stale)), Phase::Cleanup);
    let plan = stale_cleanup_plan(true);
    assert_eq!(
        plan,
        vec![CleanupAction::RemoveSelfDir, CleanupAction::RemovePipToolsDir]
    );
    assert_eq!(stale_cleanup_plan(false), vec![CleanupAction::RemoveSelfDir]);
}

#[test]
fn fully_qualified_request_names_its_version() {
    let mut req = request(3, Some(10));
    assert!(req.qualified().is_none());
    req.patch = Some(11);
    let v = req.qualified().unwrap();
    assert_eq!(v.key(), "cpython@3.10.11");
    req.kind = None;
    assert_eq!(req.qualified().unwrap().kind, "cpython");
}

#[test]
fn resolver_prefers_newest_matching_build() {
    let table = vec![
        build(8, 16, None),
        build(10, 9, Some("aaa")),
        build(10, 11, Some(HELLO_DIGEST)),
        build(11, 2, Some("bbb")),
    ];
    let (v, d) = resolve(
        &request(3, Some(10)),
        &"linux".to_string(),
        &"x86_64".to_string(),
        &table,
    )
    .unwrap();
    assert_eq!(v.minor, 10);
    assert_eq!(v.patch, 11);
    assert_eq!(v.key(), "cpython@3.10.11");
    assert_eq!(d.url, "https://builds.example/cpython-3.10.11.tgz");
    assert_eq!(d.expected_digest.as_deref(), Some(HELLO_DIGEST));
}

#[test]
fn resolver_wildcard_minor_takes_newest() {
    let table = vec![build(8, 16, None), build(11, 2, None), build(10, 11, None)];
    let (v, _) = resolve(
        &request(3, None),
        &"linux".to_string(),
        &"x86_64".to_string(),
        &table,
    )
    .unwrap();
    assert_eq!((v.minor, v.patch), (11, 2));
}

#[test]
fn resolver_unknown_version_is_terminal() {
    let table = vec![build(10, 11, None)];
    assert!(matches!(
        resolve(&request(4, None), &"linux".to_string(), &"x86_64".to_string(), &table),
        Err(BootstrapError::UnknownVersion)
    ));
    assert!(matches!(
        resolve(&request(3, Some(10)), &"macos".to_string(), &"x86_64".to_string(), &table),
        Err(BootstrapError::UnknownVersion)
    ));
}

#[test]
fn completion_signal_requires_directory_and_binary() {
    assert!(install_is_complete(true, true));
    assert!(!install_is_complete(true, false));
    assert!(!install_is_complete(false, true));
    assert!(!install_is_complete(false, false));
    assert_eq!(cache_outcome(true, true), PhaseOutcome::Skip);
    assert_eq!(cache_outcome(true, false), PhaseOutcome::Proceed);
}

#[test]
fn integrity_mismatch_aborts_before_extraction() {
    let content = b"tampered bytes".to_vec();
    let (outcome, result) = verification_phase_outcome(&content, &Some(HELLO_DIGEST.to_string()));
    assert_eq!(outcome, PhaseOutcome::Fail);
    assert!(result.is_err());
    assert_eq!(advance(Phase::Verify, outcome), Phase::Aborted);
    assert_eq!(advance(Phase::Aborted, PhaseOutcome::Proceed), Phase::Aborted);
}

#[test]
fn missing_digest_still_installs() {
    let content = b"whatever".to_vec();
    let (outcome, result) = verification_phase_outcome(&content, &None);
    assert_eq!(outcome, PhaseOutcome::Skip);
    assert_eq!(result.unwrap(), rye_bootstrap::integrity::VerificationOutcome::Skipped);
    assert_eq!(advance(Phase::Verify, outcome), Phase::Extract);
}

#[test]
fn shim_names_per_platform() {
    assert_eq!(shim_names(Platform::Linux), vec!["python".to_string(), "python3".to_string()]);
    assert_eq!(
        shim_names(Platform::Windows),
        vec!["python.exe".to_string(), "pythonw.exe".to_string()]
    );
}

#[test]
fn link_strategy_fallback_order() {
    assert_eq!(
        link_strategies(Platform::Linux),
        vec![LinkStrategy::HardLink, LinkStrategy::Symlink]
    );
    assert_eq!(
        link_strategies(Platform::Windows),
        vec![LinkStrategy::Symlink, LinkStrategy::HardLink]
    );
    let steps = shim_steps(Platform::Mac);
    assert_eq!(
        steps,
        vec![
            ShimAction::RemoveExisting,
            ShimAction::Link(LinkStrategy::Symlink),
            ShimAction::Link(LinkStrategy::HardLink),
        ]
    );
}

#[test]
fn link_fallback_gives_up_after_last_strategy() {
    let strategies = link_strategies(Platform::Windows);
    assert_eq!(link_fallback_decision(&strategies, 0, true), LinkDecision::Published);
    assert_eq!(link_fallback_decision(&strategies, 0, false), LinkDecision::TryNext { next: 1 });
    assert_eq!(link_fallback_decision(&strategies, 1, false), LinkDecision::GiveUp);
    assert!(rye_bootstrap::shims::shim_publish_result(LinkDecision::Published).is_ok());
    assert!(matches!(
        rye_bootstrap::shims::shim_publish_result(LinkDecision::GiveUp),
        Err(BootstrapError::ShimPublishFailed)
    ));
}

#[test]
fn environment_step_failure_names_the_step() {
    assert!(env_step_result(SetupStep::CreateEnv, true).is_ok());
    assert!(matches!(
        env_step_result(SetupStep::UpgradeInstaller, false),
        Err(BootstrapError::EnvironmentSetupFailed { step: SetupStep::UpgradeInstaller })
    ));
    assert!(matches!(
        env_step_result(SetupStep::InstallDeps, false),
        Err(BootstrapError::EnvironmentSetupFailed { step: SetupStep::InstallDeps })
    ));
}

#[test]
fn shim_publication_is_idempotent() {
    let names = shim_names(Platform::Linux);
    let exe = "/app/shims/rye".to_string();
    let mut set = ShimSet::new();
    set.publish_one(&"python".to_string(), &"/old/location/rye".to_string());
    set.publish_all(&names, &exe);
    let first = set.entries.clone();
    set.publish_all(&names, &exe);
    assert_eq!(set.entries, first);
    assert_eq!(set.entries.len(), 2);
    for (_, target) in &set.entries {
        assert_eq!(target, &exe);
    }
}

#[test]
fn venv_command_arguments() {
    let cmd = venv_create_command(
        &"/installs/cpython@3.10.11/install/bin/python3".to_string(),
        &"/app/self".to_string(),
        Platform::Linux,
        true,
        &Some("https://proxy:8080".to_string()),
    );
    assert_eq!(cmd.program, "/installs/cpython@3.10.11/install/bin/python3");
    assert_eq!(cmd.args, vec!["-mvenv", "--upgrade-deps", "/app/self"]);
    assert_eq!(
        cmd.env,
        vec![("https_proxy".to_string(), "https://proxy:8080".to_string())]
    );
    let win = venv_create_command(
        &"python.exe".to_string(),
        &"self".to_string(),
        Platform::Windows,
        true,
        &None,
    );
    assert_eq!(win.args, vec!["-mvenv", "--upgrade-deps", "--symlinks", "self"]);
    assert!(win.env.is_empty());
}

#[test]
fn pip_commands_respect_verbosity() {
    let quiet = pip_upgrade_command(&"/app/self/bin/pip".to_string(), CommandOutput::Normal);
    assert_eq!(quiet.args, vec!["install", "--upgrade", "pip", "--quiet"]);
    assert_eq!(quiet.env, vec![("PYTHONWARNINGS".to_string(), "ignore".to_string())]);
    let verbose = pip_upgrade_command(&"pip".to_string(), CommandOutput::Verbose);
    assert_eq!(verbose.args, vec!["install", "--upgrade", "pip", "--verbose"]);
    assert!(verbose.env.is_empty());

    let install = pip_install_requirements_command(
        &"pip".to_string(),
        &"/tmp/reqs.txt".to_string(),
        CommandOutput::Quiet,
        &Some("https://proxy".to_string()),
    );
    assert_eq!(install.args, vec!["install", "-r", "/tmp/reqs.txt", "--quiet"]);
    assert_eq!(
        install.env,
        vec![
            ("PYTHONWARNINGS".to_string(), "ignore".to_string()),
            ("https_proxy".to_string(), "https://proxy".to_string()),
        ]
    );
}

#[test]
fn pinned_requirements_are_version_locked() {
    let text = self_requirements();
    assert!(text.contains("pip-tools==6.13.0"));
    assert!(text.contains("virtualenv==20.22.0"));
    for line in text.lines().filter(|l| !l.is_empty()) {
        assert!(line.contains("=="), "unpinned requirement: {}", line);
    }
}

#[test]
fn pip_paths_per_platform() {
    assert_eq!(
        get_pip_module("/app/self", Platform::Linux),
        "/app/self/lib/python3.10/site-packages/pip"
    );
    assert_eq!(
        get_pip_runner("/app/self", Platform::Linux),
        "/app/self/lib/python3.10/site-packages/pip/__pip-runner__.py"
    );
    assert_eq!(get_pip_module("self", Platform::Windows), "self\\lib\\site-packages\\pip");
}

#[test]
fn end_to_end_bootstrap_scenario() {
    // a stale gate starts the full pass
    let gate = SelfUpdateGate::new();
    assert_eq!(gate.status(&None), GateStatus::Stale);
    let mut phase = advance(Phase::GateCheck, gate_outcome(GateStatus::Stale));
    assert_eq!(phase, Phase::Cleanup);
    phase = advance(phase, PhaseOutcome::Proceed);
    assert_eq!(phase, Phase::Resolve);

    // the request pins major 3, minor 10; the most specific newest entry wins
    let req = self_python_request();
    assert_eq!((req.major, req.minor), (3, Some(10)));
    let table = vec![
        build(10, 9, Some("aaa")),
        build(10, 11, Some(HELLO_DIGEST)),
        build(11, 2, Some("bbb")),
    ];
    let (version, descriptor) = resolve(
        &req,
        &"linux".to_string(),
        &"x86_64".to_string(),
        &table,
    )
    .unwrap();
    assert_eq!(version.key(), "cpython@3.10.11");
    phase = advance(phase, PhaseOutcome::Proceed);
    assert_eq!(phase, Phase::CacheCheck);

    // no cached install: fetch over the secure transport
    phase = advance(phase, cache_outcome(false, false));
    assert_eq!(phase, Phase::Download);
    let dl = prepare_and_fetch(&descriptor.url);
    phase = advance(phase, PhaseOutcome::Proceed);
    assert_eq!(phase, Phase::Verify);

    // the simulated body matches the known digest
    let (outcome, result) = verification_phase_outcome(&dl, &descriptor.expected_digest);
    assert_eq!(outcome, PhaseOutcome::Proceed);
    result.unwrap();
    phase = advance(phase, outcome);
    assert_eq!(phase, Phase::Extract);

    // extraction populates the expected binary path
    let entries = vec![
        rye_bootstrap::archive::ArchiveEntry {
            segments: vec!["python".to_string(), "install".to_string(), "bin".to_string()],
            is_dir: true,
            executable: false,
            data: vec![],
        },
        rye_bootstrap::archive::ArchiveEntry {
            segments: vec![
                "python".to_string(),
                "install".to_string(),
                "bin".to_string(),
                "python3".to_string(),
            ],
            is_dir: false,
            executable: true,
            data: dl.clone(),
        },
    ];
    let plan = plan_with_binary(&entries);
    assert!(plan
        .iter()
        .any(|p| p.segments == vec!["install".to_string(), "bin".to_string(), "python3".to_string()]
            && p.executable));
    for p in [
        Phase::ValidateLibraries,
        Phase::CreateEnv,
        Phase::UpgradeInstaller,
        Phase::InstallDeps,
        Phase::PublishShims,
    ] {
        phase = advance(phase, PhaseOutcome::Proceed);
        assert_eq!(phase, p);
    }

    // both entrypoints resolve to the managing executable
    let mut shims = ShimSet::new();
    let exe = "/app/shims/rye".to_string();
    shims.publish_all(&shim_names(Platform::Linux), &exe);
    assert_eq!(shims.entries.len(), 2);
    assert!(shims.entries.iter().all(|(_, t)| t == &exe));

    phase = advance(phase, PhaseOutcome::Proceed);
    assert_eq!(phase, Phase::RecordMarker);
    assert_eq!(current_marker_text(), format!("{}", SELF_VERSION));
    phase = advance(phase, PhaseOutcome::Proceed);
    assert_eq!(phase, Phase::Complete);

    // the second pass sees the written marker and does nothing
    let gate_after = SelfUpdateGate::new();
    let status = gate_after.status(&Some(current_marker_text()));
    assert_eq!(status, GateStatus::Current);
    assert_eq!(advance(Phase::GateCheck, gate_outcome(status)), Phase::Complete);
}

fn prepare_and_fetch(url: &str) -> Vec<u8> {
    let req = rye_bootstrap::download::prepare_download(url, &None).unwrap();
    assert!(req.url.starts_with("https://"));
    // a simulated transfer: the body whose digest the table names
    rye_bootstrap::download::accept_response(200, b"hello world".to_vec()).unwrap()
}

fn plan_with_binary(
    entries: &Vec<rye_bootstrap::archive::ArchiveEntry>,
) -> Vec<rye_bootstrap::archive::PlannedEntry> {
    rye_bootstrap::archive::plan_extraction(entries, 1)
}
