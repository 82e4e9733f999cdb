//! Resolution of a partial version request against the known-builds table.
//!
//! The table is an external, read-only data source; each entry names a
//! fully qualified version together with the platform it was built for,
//! its URL and, when published, its digest.  Resolution selects among the
//! entries matching every specified field of the request, preferring the
//! newest minor/patch.

use vstd::prelude::*;
use crate::version::{DownloadDescriptor, Version, VersionRequest, opt_text_eq};

verus! {

/// One entry of the known-builds table.
pub struct KnownBuild {
    pub kind: String,
    pub major: u64,
    pub minor: u64,
    pub patch: u64,
    pub suffix: Option<String>,
    pub os: String,
    pub arch: String,
    pub url: String,
    pub digest: Option<String>,
}

/// Whether `b` satisfies every field the request specifies; unspecified
/// fields are wildcards.
pub open spec fn request_matches(req: VersionRequest, b: KnownBuild) -> bool {
    b.major == req.major && (req.kind matches Some(k) ==> k@ == b.kind@) && (req.minor matches Some(
        m,
    ) ==> m == b.minor) && (req.patch matches Some(p) ==> p == b.patch) && (req.suffix matches Some(
        s,
    ) ==> b.suffix matches Some(t) && t@ == s@)
}

/// Whether `b` was built for the given platform.
pub open spec fn platform_matches(b: KnownBuild, os: Seq<char>, arch: Seq<char>) -> bool {
    b.os@ == os && b.arch@ == arch
}

/// A build that matches both the request and the platform.
pub open spec fn is_candidate(req: VersionRequest, b: KnownBuild, os: Seq<char>, arch: Seq<
    char,
>) -> bool {
    request_matches(req, b) && platform_matches(b, os, arch)
}

/// Whether `a` is a newer build than `b`: later minor, or same minor and
/// later patch.  The request pins the major, so candidates share it.
pub open spec fn newer_build(a: KnownBuild, b: KnownBuild) -> bool {
    a.minor > b.minor || (a.minor == b.minor && a.patch > b.patch)
}

/// The fully qualified version an entry describes.
pub open spec fn entry_version(b: KnownBuild, v: Version) -> bool {
    v.kind@ == b.kind@ && v.major == b.major && v.minor == b.minor && v.patch == b.patch
        && opt_text_eq(v.suffix, b.suffix)
}

/// The download descriptor an entry describes.
pub open spec fn entry_descriptor(b: KnownBuild, d: DownloadDescriptor) -> bool {
    d.url@ == b.url@ && opt_text_eq(d.expected_digest, b.digest)
}

/// Whether the request's kind field accepts this entry.
fn kind_accepts(req: &VersionRequest, b: &KnownBuild) -> (r: bool)
    ensures
        r == (req.kind matches Some(k) ==> k@ == b.kind@),
{
    match &req.kind {
        Some(k) => *k == b.kind,
        None => true,
    }
}

/// Whether the request's suffix field accepts this entry.
fn suffix_accepts(req: &VersionRequest, b: &KnownBuild) -> (r: bool)
    ensures
        r == (req.suffix matches Some(s) ==> b.suffix matches Some(t) && t@ == s@),
{
    match &req.suffix {
        Some(s) => match &b.suffix {
            Some(t) => *t == *s,
            None => false,
        },
        None => true,
    }
}

/// Whether `b` is a candidate for the request on the given platform.
fn entry_is_candidate(req: &VersionRequest, b: &KnownBuild, os: &String, arch: &String) -> (r: bool)
    ensures
        r == is_candidate(*req, *b, os@, arch@),
{
    let kind_ok = kind_accepts(req, b);
    let major_ok = b.major == req.major;
    let minor_ok = match req.minor {
        Some(m) => m == b.minor,
        None => true,
    };
    let patch_ok = match req.patch {
        Some(p) => p == b.patch,
        None => true,
    };
    let suffix_ok = suffix_accepts(req, b);
    let os_ok = b.os == *os;
    let arch_ok = b.arch == *arch;
    kind_ok && major_ok && minor_ok && patch_ok && suffix_ok && os_ok && arch_ok
}

/// Resolves `req` for the given platform against `table`.
///
/// Succeeds exactly when some entry matches every specified field of the
/// request on that platform; the result is such an entry's version and
/// descriptor, and no matching entry is newer than the chosen one.
/// Otherwise the request names an unknown version, a terminal error.
pub fn resolve(req: &VersionRequest, os: &String, arch: &String, table: &Vec<KnownBuild>) -> (r:
    Result<(Version, DownloadDescriptor), crate::BootstrapError>)
    ensures
        r is Ok <==> exists|i: int|
            0 <= i < table@.len() && is_candidate(*req, table@[i], os@, arch@),
        r matches Ok((v, d)) ==> exists|i: int|
            0 <= i < table@.len() && is_candidate(*req, table@[i], os@, arch@) && entry_version(
                table@[i],
                v,
            ) && entry_descriptor(table@[i], d) && (forall|j: int|
                0 <= j < table@.len() && is_candidate(*req, table@[j], os@, arch@)
                    ==> !newer_build(table@[j], table@[i])),
        r is Err ==> r->Err_0 is UnknownVersion,
{
    let n = table.len();
    let mut best: Option<usize> = None;
    let mut i: usize = 0;
    while i < n
        invariant
            n == table@.len(),
            0 <= i <= n,
            match best {
                Some(bi) => bi < i && is_candidate(*req, table@[bi as int], os@, arch@) && (forall|
                    j: int,
                |
                    0 <= j < i && is_candidate(*req, table@[j], os@, arch@) ==> !newer_build(
                        table@[j],
                        table@[bi as int],
                    )),
                None => forall|j: int|
                    0 <= j < i ==> !is_candidate(*req, table@[j], os@, arch@),
            },
        decreases n - i,
    {
        if entry_is_candidate(req, &table[i], os, arch) {
            match best {
                Some(bi) => {
                    let b = &table[bi];
                    let c = &table[i];
                    if c.minor > b.minor || (c.minor == b.minor && c.patch > b.patch) {
                        best = Some(i);
                    }
                },
                None => {
                    best = Some(i);
                },
            }
        }
        i = i + 1;
    }
    match best {
        Some(bi) => {
            let b = &table[bi];
            let v = Version {
                kind: b.kind.clone(),
                major: b.major,
                minor: b.minor,
                patch: b.patch,
                suffix: match &b.suffix {
                    Some(s) => Some(s.clone()),
                    None => None,
                },
            };
            let d = DownloadDescriptor {
                url: b.url.clone(),
                expected_digest: match &b.digest {
                    Some(s) => Some(s.clone()),
                    None => None,
                },
            };
            Ok((v, d))
        },
        None => Err(crate::BootstrapError::UnknownVersion),
    }
}

} // verus!
