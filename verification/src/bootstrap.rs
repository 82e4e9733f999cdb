//! The self-bootstrap sequence as a phase machine, and the plans for the
//! subprocesses it drives.
//!
//! Each phase performs one outside action (read the marker, fetch, run a
//! subprocess); the machine decides from the reported outcome which phase
//! comes next.  The surrounding binary performs the actions; every
//! decision is made and proved here.

use vstd::prelude::*;
use vstd::string::StringExecFns;
use crate::gate::{GateStatus, SELF_VERSION};
use crate::integrity::hex_digest_of;
use crate::version::VersionRequest;

verus! {

/// The phases of one self-bootstrap pass, in pipeline order.
#[derive(Clone, Copy, Debug, PartialEq, Eq, Structural)]
pub enum Phase {
    /// Compare the persisted marker to the running tool version.
    GateCheck,
    /// Remove the stale self-environment entirely.
    Cleanup,
    /// Resolve the pinned internal runtime version.
    Resolve,
    /// Look for a complete install of the resolved version.
    CacheCheck,
    /// Fetch the archive bytes.
    Download,
    /// Check the digest of the fetched bytes.
    Verify,
    /// Unpack the archive into the versioned install directory.
    Extract,
    /// Inspect the installed binary's dynamic dependencies.
    ValidateLibraries,
    /// Create the isolated environment.
    CreateEnv,
    /// Upgrade the environment's package-installation tool.
    UpgradeInstaller,
    /// Install the pinned internal dependencies.
    InstallDeps,
    /// Republish the shim entrypoints.
    PublishShims,
    /// Persist the tool-version marker; only now does the update gate turn
    /// Current.
    RecordMarker,
    /// The environment is ready.
    Complete,
    /// A step failed; the marker is untouched and the next invocation
    /// starts over.
    Aborted,
}

/// How a phase's action went.
#[derive(Clone, Copy, Debug, PartialEq, Eq, Structural)]
pub enum PhaseOutcome {
    /// The action succeeded; go on.
    Proceed,
    /// The phase does not apply and its work is skipped: a Current gate,
    /// a complete cached install, a missing digest, a platform without
    /// the library check.
    Skip,
    /// The action failed; the pass is abandoned.
    Fail,
}

/// The successor of each phase for each outcome.
pub open spec fn next_phase_spec(p: Phase, o: PhaseOutcome) -> Phase {
    match (p, o) {
        (Phase::GateCheck, PhaseOutcome::Skip) => Phase::Complete,
        (Phase::GateCheck, _) => Phase::Cleanup,
        (Phase::Cleanup, PhaseOutcome::Fail) => Phase::Aborted,
        (Phase::Cleanup, _) => Phase::Resolve,
        (Phase::Resolve, PhaseOutcome::Fail) => Phase::Aborted,
        (Phase::Resolve, _) => Phase::CacheCheck,
        (Phase::CacheCheck, PhaseOutcome::Skip) => Phase::ValidateLibraries,
        (Phase::CacheCheck, PhaseOutcome::Fail) => Phase::Aborted,
        (Phase::CacheCheck, _) => Phase::Download,
        (Phase::Download, PhaseOutcome::Fail) => Phase::Aborted,
        (Phase::Download, _) => Phase::Verify,
        (Phase::Verify, PhaseOutcome::Fail) => Phase::Aborted,
        (Phase::Verify, _) => Phase::Extract,
        (Phase::Extract, PhaseOutcome::Fail) => Phase::Aborted,
        (Phase::Extract, _) => Phase::ValidateLibraries,
        (Phase::ValidateLibraries, PhaseOutcome::Fail) => Phase::Aborted,
        (Phase::ValidateLibraries, _) => Phase::CreateEnv,
        (Phase::CreateEnv, PhaseOutcome::Fail) => Phase::Aborted,
        (Phase::CreateEnv, _) => Phase::UpgradeInstaller,
        (Phase::UpgradeInstaller, PhaseOutcome::Fail) => Phase::Aborted,
        (Phase::UpgradeInstaller, _) => Phase::InstallDeps,
        (Phase::InstallDeps, PhaseOutcome::Fail) => Phase::Aborted,
        (Phase::InstallDeps, _) => Phase::PublishShims,
        (Phase::PublishShims, PhaseOutcome::Fail) => Phase::Aborted,
        (Phase::PublishShims, _) => Phase::RecordMarker,
        (Phase::RecordMarker, PhaseOutcome::Fail) => Phase::Aborted,
        (Phase::RecordMarker, _) => Phase::Complete,
        (Phase::Complete, _) => Phase::Complete,
        (Phase::Aborted, _) => Phase::Aborted,
    }
}

/// Advances the machine by one reported outcome.
pub fn advance(p: Phase, o: PhaseOutcome) -> (r: Phase)
    ensures
        r == next_phase_spec(p, o),
{
    match (p, o) {
        (Phase::GateCheck, PhaseOutcome::Skip) => Phase::Complete,
        (Phase::GateCheck, _) => Phase::Cleanup,
        (Phase::Cleanup, PhaseOutcome::Fail) => Phase::Aborted,
        (Phase::Cleanup, _) => Phase::Resolve,
        (Phase::Resolve, PhaseOutcome::Fail) => Phase::Aborted,
        (Phase::Resolve, _) => Phase::CacheCheck,
        (Phase::CacheCheck, PhaseOutcome::Skip) => Phase::ValidateLibraries,
        (Phase::CacheCheck, PhaseOutcome::Fail) => Phase::Aborted,
        (Phase::CacheCheck, _) => Phase::Download,
        (Phase::Download, PhaseOutcome::Fail) => Phase::Aborted,
        (Phase::Download, _) => Phase::Verify,
        (Phase::Verify, PhaseOutcome::Fail) => Phase::Aborted,
        (Phase::Verify, _) => Phase::Extract,
        (Phase::Extract, PhaseOutcome::Fail) => Phase::Aborted,
        (Phase::Extract, _) => Phase::ValidateLibraries,
        (Phase::ValidateLibraries, PhaseOutcome::Fail) => Phase::Aborted,
        (Phase::ValidateLibraries, _) => Phase::CreateEnv,
        (Phase::CreateEnv, PhaseOutcome::Fail) => Phase::Aborted,
        (Phase::CreateEnv, _) => Phase::UpgradeInstaller,
        (Phase::UpgradeInstaller, PhaseOutcome::Fail) => Phase::Aborted,
        (Phase::UpgradeInstaller, _) => Phase::InstallDeps,
        (Phase::InstallDeps, PhaseOutcome::Fail) => Phase::Aborted,
        (Phase::InstallDeps, _) => Phase::PublishShims,
        (Phase::PublishShims, PhaseOutcome::Fail) => Phase::Aborted,
        (Phase::PublishShims, _) => Phase::RecordMarker,
        (Phase::RecordMarker, PhaseOutcome::Fail) => Phase::Aborted,
        (Phase::RecordMarker, _) => Phase::Complete,
        (Phase::Complete, _) => Phase::Complete,
        (Phase::Aborted, _) => Phase::Aborted,
    }
}

/// Phases whose action touches the network or mutates the filesystem.
pub open spec fn fetches_or_mutates(p: Phase) -> bool {
    match p {
        Phase::Cleanup => true,
        Phase::Download => true,
        Phase::Extract => true,
        Phase::CreateEnv => true,
        Phase::UpgradeInstaller => true,
        Phase::InstallDeps => true,
        Phase::PublishShims => true,
        Phase::RecordMarker => true,
        _ => false,
    }
}

/// The phases a run visits, starting at `p`, one outcome per step.
pub open spec fn trace_from(p: Phase, outcomes: Seq<PhaseOutcome>) -> Seq<Phase>
    decreases outcomes.len(),
{
    if outcomes.len() == 0 {
        seq![p]
    } else {
        seq![p] + trace_from(next_phase_spec(p, outcomes.first()), outcomes.drop_first())
    }
}

/// A terminal phase is never left.
proof fn lemma_terminal_stays(p: Phase, outcomes: Seq<PhaseOutcome>)
    requires
        p == Phase::Complete || p == Phase::Aborted,
    ensures
        forall|i: int|
            0 <= i < trace_from(p, outcomes).len() ==> #[trigger] trace_from(p, outcomes)[i] == p,
    decreases outcomes.len(),
{
    if outcomes.len() > 0 {
        lemma_terminal_stays(p, outcomes.drop_first());
        assert(next_phase_spec(p, outcomes.first()) == p);
        assert forall|i: int| 0 <= i < trace_from(p, outcomes).len() implies #[trigger] trace_from(
            p,
            outcomes,
        )[i] == p by {
            if i > 0 {
                assert(trace_from(p, outcomes)[i] == trace_from(p, outcomes.drop_first())[i - 1]);
            }
        }
    }
}

/// The update gate's answer as a phase outcome.
pub open spec fn gate_outcome_spec(st: GateStatus) -> PhaseOutcome {
    if st == GateStatus::Current {
        PhaseOutcome::Skip
    } else {
        PhaseOutcome::Proceed
    }
}

/// Maps the update gate's answer to the first phase outcome.
pub fn gate_outcome(st: GateStatus) -> (r: PhaseOutcome)
    ensures
        r == gate_outcome_spec(st),
{
    match st {
        GateStatus::Current => PhaseOutcome::Skip,
        GateStatus::Stale => PhaseOutcome::Proceed,
    }
}

/// A second bootstrap pass after a successful one is a no-op: the marker
/// written on success makes the update gate Current, and a run whose gate is
/// Current visits no phase that fetches from the network or mutates the
/// filesystem.
pub proof fn lemma_second_run_is_noop(outcomes: Seq<PhaseOutcome>)
    requires
        outcomes.len() > 0,
        outcomes.first() == gate_outcome_spec(
            crate::gate::gate_status_spec(
                Some(crate::text::dec_digits(SELF_VERSION as nat)),
                false,
            ),
        ),
    ensures
        forall|i: int|
            0 <= i < trace_from(Phase::GateCheck, outcomes).len() ==> !fetches_or_mutates(
                #[trigger] trace_from(Phase::GateCheck, outcomes)[i],
            ),
{
    crate::gate::lemma_fresh_marker_is_current(false);
    assert(outcomes.first() == PhaseOutcome::Skip);
    assert(next_phase_spec(Phase::GateCheck, PhaseOutcome::Skip) == Phase::Complete);
    lemma_terminal_stays(Phase::Complete, outcomes.drop_first());
    assert forall|i: int|
        0 <= i < trace_from(Phase::GateCheck, outcomes).len() implies !fetches_or_mutates(
        #[trigger] trace_from(Phase::GateCheck, outcomes)[i],
    ) by {
        if i > 0 {
            assert(trace_from(Phase::GateCheck, outcomes)[i] == trace_from(
                Phase::Complete,
                outcomes.drop_first(),
            )[i - 1]);
        }
    }
}

/// A marker naming any other tool version leaves the update gate Stale, and a
/// stale gate's first step is the removal of the prior self-environment:
/// the machine enters Cleanup before any phase that rebuilds.
pub proof fn lemma_stale_marker_forces_rebuild(m: Seq<char>)
    requires
        crate::text::dec_value(m) != SELF_VERSION,
    ensures
        crate::gate::gate_status_spec(Some(m), false) == GateStatus::Stale,
        next_phase_spec(
            Phase::GateCheck,
            gate_outcome_spec(crate::gate::gate_status_spec(Some(m), false)),
        ) == Phase::Cleanup,
{
    crate::gate::lemma_changed_marker_is_stale(m);
}

/// How verification answers the machine: a missing digest skips the
/// check (reported, not silent), a matching digest proceeds, a mismatch
/// fails the pass.
pub open spec fn verify_outcome_spec(bytes: Seq<u8>, expected: Option<Seq<char>>) -> PhaseOutcome {
    match expected {
        Some(e) => if hex_digest_of(bytes) == e {
            PhaseOutcome::Proceed
        } else {
            PhaseOutcome::Fail
        },
        None => PhaseOutcome::Skip,
    }
}

/// Verifies the fetched bytes and reports the machine outcome together
/// with how integrity was established (or the mismatch error).
pub fn verification_phase_outcome(content: &Vec<u8>, expected: &Option<String>) -> (r: (
    PhaseOutcome,
    Result<crate::integrity::VerificationOutcome, crate::BootstrapError>,
))
    ensures
        r.0 == verify_outcome_spec(
            content@,
            match *expected {
                Some(ref e) => Some(e@),
                None => None,
            },
        ),
        r.1 is Err <==> r.0 == PhaseOutcome::Fail,
{
    match crate::integrity::verify_download(content, expected) {
        Ok(crate::integrity::VerificationOutcome::Verified) => (
            PhaseOutcome::Proceed,
            Ok(crate::integrity::VerificationOutcome::Verified),
        ),
        Ok(crate::integrity::VerificationOutcome::Skipped) => (
            PhaseOutcome::Skip,
            Ok(crate::integrity::VerificationOutcome::Skipped),
        ),
        Err(e) => (PhaseOutcome::Fail, Err(e)),
    }
}

/// A digest mismatch aborts the pass before anything is installed: the
/// run never reaches extraction and never writes the marker.
pub proof fn lemma_integrity_failure_blocks_install(
    bytes: Seq<u8>,
    e: Seq<char>,
    rest: Seq<PhaseOutcome>,
)
    requires
        hex_digest_of(bytes) != e,
    ensures
        forall|i: int|
            0 <= i < trace_from(Phase::Verify, seq![verify_outcome_spec(bytes, Some(e))] + rest).len()
                ==> #[trigger] trace_from(
                Phase::Verify,
                seq![verify_outcome_spec(bytes, Some(e))] + rest,
            )[i] != Phase::Extract && trace_from(
                Phase::Verify,
                seq![verify_outcome_spec(bytes, Some(e))] + rest,
            )[i] != Phase::RecordMarker,
{
    let outcomes = seq![verify_outcome_spec(bytes, Some(e))] + rest;
    assert(outcomes.first() == PhaseOutcome::Fail);
    assert(outcomes.drop_first() =~= rest);
    assert(next_phase_spec(Phase::Verify, PhaseOutcome::Fail) == Phase::Aborted);
    lemma_terminal_stays(Phase::Aborted, rest);
    assert forall|i: int| 0 <= i < trace_from(Phase::Verify, outcomes).len() implies #[trigger]
        trace_from(Phase::Verify, outcomes)[i] != Phase::Extract && trace_from(
        Phase::Verify,
        outcomes,
    )[i] != Phase::RecordMarker by {
        if i > 0 {
            assert(trace_from(Phase::Verify, outcomes)[i] == trace_from(Phase::Aborted, rest)[i
                - 1]);
        }
    }
}

/// A missing digest does not block installation: verification reports a
/// skip and the machine still moves on to extraction.
pub proof fn lemma_missing_digest_does_not_block(bytes: Seq<u8>)
    ensures
        verify_outcome_spec(bytes, None) == PhaseOutcome::Skip,
        next_phase_spec(Phase::Verify, PhaseOutcome::Skip) == Phase::Extract,
{
}

/// An install directory counts as a complete, trusted install exactly
/// when both the directory and the expected binary inside it exist; a
/// directory without the binary is never a cache hit.
pub fn install_is_complete(dir_exists: bool, binary_exists: bool) -> (r: bool)
    ensures
        r == (dir_exists && binary_exists),
{
    dir_exists && binary_exists
}

/// The cache answer as a phase outcome: a complete install skips the
/// fetch, anything less downloads from byte zero.
pub fn cache_outcome(dir_exists: bool, binary_exists: bool) -> (r: PhaseOutcome)
    ensures
        r == (if dir_exists && binary_exists {
            PhaseOutcome::Skip
        } else {
            PhaseOutcome::Proceed
        }),
{
    if install_is_complete(dir_exists, binary_exists) {
        PhaseOutcome::Skip
    } else {
        PhaseOutcome::Proceed
    }
}

/// The pinned internal runtime the manager bootstraps itself with.
pub fn self_python_request() -> (r: VersionRequest)
    ensures
        r.kind matches Some(k) && k@ == "cpython"@,
        r.major == 3,
        r.minor == Some(10u64),
        r.patch is None,
        r.suffix is None,
{
    VersionRequest {
        kind: Some(String::from_str("cpython")),
        major: 3,
        minor: Some(10),
        patch: None,
        suffix: None,
    }
}

} // verus!
