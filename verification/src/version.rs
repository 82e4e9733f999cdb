//! Version requests, fully qualified versions, and the canonical version
//! string that keys install directories.

use vstd::prelude::*;
use vstd::string::StringExecFns;

verus! {

/// A caller-supplied, possibly partial specification of a desired build.
/// Unspecified fields act as wildcards during resolution.
pub struct VersionRequest {
    pub kind: Option<String>,
    pub major: u64,
    pub minor: Option<u64>,
    pub patch: Option<u64>,
    pub suffix: Option<String>,
}

/// A fully qualified version; its canonical string form keys the install
/// directory.
pub struct Version {
    pub kind: String,
    pub major: u64,
    pub minor: u64,
    pub patch: u64,
    pub suffix: Option<String>,
}

/// Where to fetch a resolved build and, when known, the digest its bytes
/// must have.  A missing digest is legal but downgrades verification to
/// "skipped, reported as such".
pub struct DownloadDescriptor {
    pub url: String,
    pub expected_digest: Option<String>,
}

/// View equality of optional strings.
pub open spec fn opt_text_eq(a: Option<String>, b: Option<String>) -> bool {
    match a {
        Some(x) => b matches Some(y) && x@ == y@,
        None => b is None,
    }
}

/// Free of path separators, so it can serve as a directory name.
pub open spec fn path_safe_text(s: Seq<char>) -> bool {
    forall|i: int| 0 <= i < s.len() ==> #[trigger] s[i] != '/' && s[i] != '\\'
}

impl Version {
    /// Kind and suffix are the only free-form parts of the canonical
    /// string; a well-formed version keeps path separators out of them.
    pub open spec fn wf(self) -> bool {
        path_safe_text(self.kind@) && (self.suffix matches Some(s) ==> path_safe_text(s@))
    }
}

/// The canonical string of `v`: `kind@major.minor.patch`, with `.suffix`
/// appended when a suffix is present.
pub open spec fn version_key_spec(v: Version) -> Seq<char> {
    v.kind@ + seq!['@'] + crate::text::dec_digits(v.major as nat) + seq!['.']
        + crate::text::dec_digits(v.minor as nat) + seq!['.'] + crate::text::dec_digits(
        v.patch as nat,
    ) + (match v.suffix {
        Some(s) => seq!['.'] + s@,
        None => Seq::<char>::empty(),
    })
}

impl VersionRequest {
    /// The version a request names outright, when it pins every numeric
    /// field; such a request can be answered from the install cache
    /// without consulting the known-builds table.  The kind defaults to
    /// `cpython`.
    pub fn qualified(&self) -> (r: Option<Version>)
        ensures
            r is Some <==> self.minor is Some && self.patch is Some,
            r matches Some(v) ==> v.major == self.major && self.minor == Some(v.minor)
                && self.patch == Some(v.patch) && opt_text_eq(v.suffix, self.suffix) && (match self.kind {
                Some(ref k) => v.kind@ == k@,
                None => v.kind@ == "cpython"@,
            }),
    {
        match (&self.minor, &self.patch) {
            (Some(minor), Some(patch)) => Some(
                Version {
                    kind: match &self.kind {
                        Some(k) => k.clone(),
                        None => String::from_str("cpython"),
                    },
                    major: self.major,
                    minor: *minor,
                    patch: *patch,
                    suffix: match &self.suffix {
                        Some(s) => Some(s.clone()),
                        None => None,
                    },
                },
            ),
            _ => None,
        }
    }
}

impl Version {
    /// The canonical, filesystem-path-safe string form of this version.
    pub fn key(&self) -> (r: String)
        ensures
            r@ == version_key_spec(*self),
    {
        proof {
            reveal_strlit("@");
            reveal_strlit(".");
        }
        let mut out = String::new();
        out.append(self.kind.as_str());
        out.append("@");
        let major_text = crate::text::format_u64(self.major);
        out.append(major_text.as_str());
        out.append(".");
        let minor_text = crate::text::format_u64(self.minor);
        out.append(minor_text.as_str());
        out.append(".");
        let patch_text = crate::text::format_u64(self.patch);
        out.append(patch_text.as_str());
        match &self.suffix {
            Some(s) => {
                out.append(".");
                out.append(s.as_str());
            },
            None => {},
        }
        proof {
            assert(out@ =~= version_key_spec(*self));
        }
        out
    }
}

/// The canonical string of a well-formed version is filesystem-path-safe:
/// decimal digits, `@` and `.` contain no separator, and the free-form
/// parts are clean by well-formedness.
pub proof fn lemma_version_key_path_safe(v: Version)
    requires
        v.wf(),
    ensures
        path_safe_text(version_key_spec(v)),
{
    crate::text::lemma_dec_digits_are_digits(v.major as nat);
    crate::text::lemma_dec_digits_are_digits(v.minor as nat);
    crate::text::lemma_dec_digits_are_digits(v.patch as nat);
    let key = version_key_spec(v);
    assert forall|i: int| 0 <= i < key.len() implies #[trigger] key[i] != '/' && key[i] != '\\' by {
        let c = key[i];
        let k = v.kind@.len() as int;
        let d1 = crate::text::dec_digits(v.major as nat).len() as int;
        let d2 = crate::text::dec_digits(v.minor as nat).len() as int;
        let d3 = crate::text::dec_digits(v.patch as nat).len() as int;
        if i < k {
            assert(c == v.kind@[i]);
        } else if i == k {
            assert(c == '@');
        } else if i < k + 1 + d1 {
            assert(c == crate::text::dec_digits(v.major as nat)[i - (k + 1)]);
            assert(crate::text::is_dec_digit(c));
        } else if i == k + 1 + d1 {
            assert(c == '.');
        } else if i < k + 2 + d1 + d2 {
            assert(c == crate::text::dec_digits(v.minor as nat)[i - (k + 2 + d1)]);
            assert(crate::text::is_dec_digit(c));
        } else if i == k + 2 + d1 + d2 {
            assert(c == '.');
        } else if i < k + 3 + d1 + d2 + d3 {
            assert(c == crate::text::dec_digits(v.patch as nat)[i - (k + 3 + d1 + d2)]);
            assert(crate::text::is_dec_digit(c));
        } else {
            match v.suffix {
                Some(s) => {
                    if i == k + 3 + d1 + d2 + d3 {
                        assert(c == '.');
                    } else {
                        assert(c == s@[i - (k + 4 + d1 + d2 + d3)]);
                    }
                },
                None => {
                    assert(false);
                },
            }
        }
    }
}

} // verus!
