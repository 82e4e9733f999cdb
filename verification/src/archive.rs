//! Planning the extraction of a verified archive.
//!
//! The library decides, entry by entry, where each archive member lands:
//! a fixed number of leading path components is stripped, relative
//! structure and the executable bit are preserved, and members whose whole
//! path is stripped away are not extracted.  The surrounding binary
//! creates the destination directory and writes the planned entries.

use vstd::prelude::*;

verus! {

/// One member of an archive, as parsed by the unpacker: its path split
/// into components, whether it is a directory, whether it is executable,
/// and its contents.
pub struct ArchiveEntry {
    pub segments: Vec<String>,
    pub is_dir: bool,
    pub executable: bool,
    pub data: Vec<u8>,
}

/// One write the installer will perform under the destination directory.
pub struct PlannedEntry {
    pub segments: Vec<String>,
    pub is_dir: bool,
    pub executable: bool,
    pub data: Vec<u8>,
}

/// The content of a planned entry, for stating what a plan holds.
pub open spec fn planned_view(p: PlannedEntry) -> (Seq<String>, bool, bool, Seq<u8>) {
    (p.segments@, p.is_dir, p.executable, p.data@)
}

/// What extraction with `strip` leading components removed makes of the
/// entries: members with more than `strip` components keep the rest of
/// their path, their kind, executable bit and contents; shorter members
/// are dropped.
pub open spec fn plan_spec(entries: Seq<ArchiveEntry>, strip: int) -> Seq<
    (Seq<String>, bool, bool, Seq<u8>),
>
    decreases entries.len(),
{
    if entries.len() == 0 {
        Seq::empty()
    } else {
        let e = entries.last();
        let rest = plan_spec(entries.drop_last(), strip);
        if e.segments@.len() > strip {
            rest + seq![
                (
                    e.segments@.subrange(strip, e.segments@.len() as int),
                    e.is_dir,
                    e.executable,
                    e.data@,
                ),
            ]
        } else {
            rest
        }
    }
}

/// The stripped copy of one kept entry.
fn strip_entry(e: &ArchiveEntry, strip: usize) -> (r: PlannedEntry)
    requires
        strip < e.segments@.len(),
    ensures
        r.segments@ == e.segments@.subrange(strip as int, e.segments@.len() as int),
        r.is_dir == e.is_dir,
        r.executable == e.executable,
        r.data@ == e.data@,
{
    let n = e.segments.len();
    let mut segs: Vec<String> = Vec::new();
    let mut j: usize = strip;
    while j < n
        invariant
            strip <= j <= n,
            n == e.segments@.len(),
            segs@ =~= e.segments@.subrange(strip as int, j as int),
        decreases n - j,
    {
        segs.push(e.segments[j].clone());
        proof {
            assert(segs@ =~= e.segments@.subrange(strip as int, j + 1));
        }
        j = j + 1;
    }
    PlannedEntry { segments: segs, is_dir: e.is_dir, executable: e.executable, data: e.data.clone() }
}

/// Plans the extraction of `entries` with `strip` leading components
/// removed from each member's path.
pub fn plan_extraction(entries: &Vec<ArchiveEntry>, strip: usize) -> (r: Vec<PlannedEntry>)
    ensures
        r@.map_values(|p: PlannedEntry| planned_view(p)) =~= plan_spec(entries@, strip as int),
{
    let n = entries.len();
    let mut out: Vec<PlannedEntry> = Vec::new();
    let mut i: usize = 0;
    while i < n
        invariant
            0 <= i <= n,
            n == entries@.len(),
            out@.map_values(|p: PlannedEntry| planned_view(p)) =~= plan_spec(
                entries@.subrange(0, i as int),
                strip as int,
            ),
        decreases n - i,
    {
        proof {
            assert(entries@.subrange(0, i + 1).drop_last() =~= entries@.subrange(0, i as int));
            assert(entries@.subrange(0, i + 1).last() == entries@[i as int]);
        }
        if entries[i].segments.len() > strip {
            let p = strip_entry(&entries[i], strip);
            out.push(p);
        }
        proof {
            assert(out@.map_values(|p: PlannedEntry| planned_view(p)) =~= plan_spec(
                entries@.subrange(0, i + 1),
                strip as int,
            ));
        }
        i = i + 1;
    }
    proof {
        assert(entries@.subrange(0, n as int) =~= entries@);
    }
    out
}

/// Judges the unpacker's report: a failed or partial extraction is fatal,
/// so the destination never passes for a complete install.
pub fn extraction_result(unpack_succeeded: bool) -> (r: Result<(), crate::BootstrapError>)
    ensures
        r is Ok <==> unpack_succeeded,
        r is Err ==> r->Err_0 is ExtractionFailed,
{
    if unpack_succeeded {
        Ok(())
    } else {
        Err(crate::BootstrapError::ExtractionFailed)
    }
}

} // verus!
