//! Download decisions: the secure-transport gate, response acceptance,
//! and the progress-display state machine.
//!
//! The actual transfer is performed outside the library; it must obtain a
//! `DownloadRequest` here first, so an insecure URL is rejected before any
//! network traffic, and hand the response back to `accept_response`.

use vstd::prelude::*;
use vstd::string::StrSliceExecFns;

verus! {

/// Whether `s` starts with the secure transport scheme `https://`.
pub open spec fn is_secure_url(s: Seq<char>) -> bool {
    s.len() >= 8 && s[0] == 'h' && s[1] == 't' && s[2] == 't' && s[3] == 'p' && s[4] == 's' && s[5]
        == ':' && s[6] == '/' && s[7] == '/'
}

/// A transfer the downloader has agreed to make: only ever built for a
/// secure URL.
pub struct DownloadRequest {
    pub url: String,
    /// Redirects are followed.
    pub follow_redirects: bool,
    /// An externally supplied proxy for the secure scheme, if configured.
    pub proxy: Option<String>,
}

/// Checks the transport scheme of `url` and, when it is secure, fixes the
/// transfer settings: redirects followed, the given proxy applied.
///
/// An insecure URL is refused here, before any network activity.
pub fn prepare_download(url: &str, proxy: &Option<String>) -> (r: Result<
    DownloadRequest,
    crate::BootstrapError,
>)
    ensures
        r is Ok <==> is_secure_url(url@),
        r matches Ok(req) ==> req.url@ == url@ && req.follow_redirects && (match *proxy {
            Some(ref p) => req.proxy matches Some(q) && q@ == p@,
            None => req.proxy is None,
        }),
        r is Err ==> r->Err_0 is InsecureUrl,
{
    if url.unicode_len() < 8 {
        return Err(crate::BootstrapError::InsecureUrl);
    }
    if url.get_char(0) == 'h' && url.get_char(1) == 't' && url.get_char(2) == 't' && url.get_char(3)
        == 'p' && url.get_char(4) == 's' && url.get_char(5) == ':' && url.get_char(6) == '/'
        && url.get_char(7) == '/' {
        let p = match proxy {
            Some(p) => Some(p.clone()),
            None => None,
        };
        Ok(DownloadRequest { url: url.to_owned(), follow_redirects: true, proxy: p })
    } else {
        Err(crate::BootstrapError::InsecureUrl)
    }
}

/// Accepts a completed transfer exactly when the response status is 2xx;
/// the body is handed back unchanged.  Any other status is a download
/// failure carrying that status.
pub fn accept_response(status: u32, body: Vec<u8>) -> (r: Result<Vec<u8>, crate::BootstrapError>)
    ensures
        r is Ok <==> 200 <= status < 300,
        r matches Ok(b) ==> b@ == body@,
        r is Err ==> (r->Err_0 matches crate::BootstrapError::DownloadFailed { status: s } && s
            == status),
{
    if 200 <= status && status < 300 {
        Ok(body)
    } else {
        Err(crate::BootstrapError::DownloadFailed { status })
    }
}

/// What the display should do after one progress report.
#[derive(Clone, Copy, Debug, PartialEq, Eq, Structural)]
pub enum ProgressAction {
    /// Nothing to show.
    Idle,
    /// Create the bar with the given total and show the given position.
    Begin { total: u64, pos: u64 },
    /// Move the existing bar to the given position.
    Advance { pos: u64 },
    /// Remove the finished bar from the display.
    Clear,
}

/// Whether a progress bar is currently displayed.
pub struct ProgressTracker {
    pub active: bool,
}

impl ProgressTracker {
    /// A tracker with no bar shown yet.
    pub fn new() -> (r: ProgressTracker)
        ensures
            !r.active,
    {
        ProgressTracker { active: false }
    }

    /// Decides the display action for one progress report.
    ///
    /// Quiet output shows nothing; an unknown total (zero) omits the bar;
    /// a position short of the total starts or advances the bar; reaching
    /// the total clears it.  The bar is active afterwards exactly when it
    /// is mid-transfer and output is not suppressed.
    pub fn step(&mut self, total: u64, pos: u64, output: crate::CommandOutput) -> (a:
        ProgressAction)
        ensures
            output == crate::CommandOutput::Quiet ==> a == ProgressAction::Idle
                && final(self).active == old(self).active,
            output != crate::CommandOutput::Quiet && total > 0 && pos < total
                ==> final(self).active && a == (if old(self).active {
                ProgressAction::Advance { pos }
            } else {
                ProgressAction::Begin { total, pos }
            }),
            output != crate::CommandOutput::Quiet && total > 0 && pos >= total
                ==> !final(self).active && a == (if old(self).active {
                ProgressAction::Clear
            } else {
                ProgressAction::Idle
            }),
            output != crate::CommandOutput::Quiet && total == 0 ==> a == ProgressAction::Idle
                && final(self).active == old(self).active,
    {
        if output == crate::CommandOutput::Quiet {
            return ProgressAction::Idle;
        }
        if total > 0 {
            if pos < total {
                let was_active = self.active;
                self.active = true;
                if was_active {
                    ProgressAction::Advance { pos }
                } else {
                    ProgressAction::Begin { total, pos }
                }
            } else {
                let was_active = self.active;
                self.active = false;
                if was_active {
                    ProgressAction::Clear
                } else {
                    ProgressAction::Idle
                }
            }
        } else {
            ProgressAction::Idle
        }
    }
}

} // verus!
