//! The self-update gate: a persisted tool-version marker decides whether
//! the self-environment must be rebuilt.
//!
//! The marker file holds a plain decimal integer.  An absent marker, or
//! one whose value differs from the running tool version, means the
//! environment is stale and is rebuilt from scratch; the marker is
//! written only after every downstream step has succeeded.  An in-process
//! flag short-circuits repeated checks after a successful rebuild.

use vstd::prelude::*;
use crate::text::{all_dec_digits, dec_digits, dec_value};

verus! {

/// The running internal tool version; bumped on each internal breaking
/// change.
pub const SELF_VERSION: u64 = 3;

/// The two states of the update gate.
#[derive(Clone, Copy, Debug, PartialEq, Eq, Structural)]
pub enum GateStatus {
    /// The self-environment was built by this tool version.
    Current,
    /// The self-environment is missing or was built by another version:
    /// a full rebuild is required before first use.
    Stale,
}

/// Whether a persisted marker text names the running tool version.
pub open spec fn marker_is_current(marker: Option<Seq<char>>) -> bool {
    marker matches Some(m) && m.len() > 0 && all_dec_digits(m) && dec_value(m) <= u64::MAX
        && dec_value(m) == SELF_VERSION
}

/// What the update gate answers for a marker and the in-process flag.
pub open spec fn gate_status_spec(marker: Option<Seq<char>>, forced: bool) -> GateStatus {
    if forced || marker_is_current(marker) {
        GateStatus::Current
    } else {
        GateStatus::Stale
    }
}

/// The in-process fast path: set once a rebuild has succeeded in this
/// process, so later checks need not re-read the marker.
pub struct SelfUpdateGate {
    pub forced: bool,
}

impl SelfUpdateGate {
    /// A gate that has not seen a successful rebuild in this process.
    pub fn new() -> (r: SelfUpdateGate)
        ensures
            !r.forced,
    {
        SelfUpdateGate { forced: false }
    }

    /// Decides staleness from the marker file's content, if it could be
    /// read, and from the in-process flag.
    pub fn status(&self, marker: &Option<String>) -> (r: GateStatus)
        ensures
            r == gate_status_spec(
                match *marker {
                    Some(ref m) => Some(m@),
                    None => None,
                },
                self.forced,
            ),
    {
        if self.forced {
            return GateStatus::Current;
        }
        match marker {
            Some(m) => match crate::text::parse_u64(m.as_str()) {
                Some(v) => if v == SELF_VERSION {
                    GateStatus::Current
                } else {
                    GateStatus::Stale
                },
                None => GateStatus::Stale,
            },
            None => GateStatus::Stale,
        }
    }

    /// Records that the rebuild, marker write included, has succeeded;
    /// every later check in this process is Current.
    pub fn record_success(&mut self)
        ensures
            final(self).forced,
    {
        self.forced = true;
    }
}

/// The marker text a successful rebuild persists: the running tool
/// version in canonical decimal form.
pub fn current_marker_text() -> (r: String)
    ensures
        r@ == dec_digits(SELF_VERSION as nat),
{
    crate::text::format_u64(SELF_VERSION)
}

/// The filesystem removals a stale gate demands before reconstruction.
#[derive(Clone, Copy, Debug, PartialEq, Eq, Structural)]
pub enum CleanupAction {
    /// Delete the whole self-environment directory.
    RemoveSelfDir,
    /// Delete the auxiliary pip-tools directory.
    RemovePipToolsDir,
}

/// The rebuild is all-or-nothing: the prior environment directory is
/// removed first, never patched in place; the auxiliary directory goes
/// with it when present.
pub fn stale_cleanup_plan(pip_tools_exists: bool) -> (r: Vec<CleanupAction>)
    ensures
        r@[0] == CleanupAction::RemoveSelfDir,
        pip_tools_exists ==> r@ =~= seq![
            CleanupAction::RemoveSelfDir,
            CleanupAction::RemovePipToolsDir,
        ],
        !pip_tools_exists ==> r@ =~= seq![CleanupAction::RemoveSelfDir],
{
    let mut out: Vec<CleanupAction> = Vec::new();
    out.push(CleanupAction::RemoveSelfDir);
    if pip_tools_exists {
        out.push(CleanupAction::RemovePipToolsDir);
    }
    out
}

/// The marker written by a successful rebuild makes the update gate Current, so
/// a repeated bootstrap with no version bump is a no-op.
pub proof fn lemma_fresh_marker_is_current(forced: bool)
    ensures
        gate_status_spec(Some(dec_digits(SELF_VERSION as nat)), forced) == GateStatus::Current,
{
    crate::text::lemma_dec_digits_are_digits(SELF_VERSION as nat);
    crate::text::lemma_dec_round_trip(SELF_VERSION as nat);
}

/// A marker holding any decimal value other than the running tool version
/// leaves the update gate Stale, which forces the full rebuild.
pub proof fn lemma_changed_marker_is_stale(m: Seq<char>)
    requires
        dec_value(m) != SELF_VERSION,
    ensures
        gate_status_spec(Some(m), false) == GateStatus::Stale,
{
}

/// An absent marker leaves the update gate Stale.
pub proof fn lemma_absent_marker_is_stale()
    ensures
        gate_status_spec(None, false) == GateStatus::Stale,
{
}

} // verus!
