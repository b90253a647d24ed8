//! Where the inference engine and the model come from, and the bookkeeping
//! of a resumable download and of fetching everything that is missing.

use vstd::prelude::*;
use crate::text::{contains_seq, contains_str, decimal, push_decimal, str_eq};

verus! {

/// The target triple of a platform, given its operating system and
/// architecture names as `std::env::consts` spells them.
pub open spec fn target_triple_of(os: Seq<char>, arch: Seq<char>) -> Seq<char> {
    if os == "linux"@ && arch == "x86_64"@ {
        "x86_64-unknown-linux-gnu"@
    } else if os == "linux"@ && arch == "aarch64"@ {
        "aarch64-unknown-linux-gnu"@
    } else if os == "macos"@ && arch == "x86_64"@ {
        "x86_64-apple-darwin"@
    } else if os == "macos"@ && arch == "aarch64"@ {
        "aarch64-apple-darwin"@
    } else if os == "windows"@ && arch == "x86_64"@ {
        "x86_64-pc-windows-msvc"@
    } else if os == "windows"@ && arch == "aarch64"@ {
        "aarch64-pc-windows-msvc"@
    } else {
        "unknown"@
    }
}

/// The target triple of the platform with this operating system and
/// architecture, or "unknown" for a platform without a supported engine.
pub fn current_target_triple(os: &str, arch: &str) -> (r: &'static str)
    ensures
        r@ == target_triple_of(os@, arch@),
{
    let linux = str_eq(os, "linux");
    let macos = str_eq(os, "macos");
    let windows = str_eq(os, "windows");
    let x86 = str_eq(arch, "x86_64");
    let arm = str_eq(arch, "aarch64");
    if linux && x86 {
        "x86_64-unknown-linux-gnu"
    } else if linux && arm {
        "aarch64-unknown-linux-gnu"
    } else if macos && x86 {
        "x86_64-apple-darwin"
    } else if macos && arm {
        "aarch64-apple-darwin"
    } else if windows && x86 {
        "x86_64-pc-windows-msvc"
    } else if windows && arm {
        "aarch64-pc-windows-msvc"
    } else {
        "unknown"
    }
}

/// The name of the engine's release asset for a target triple: with ".exe"
/// where the triple names Windows.
pub open spec fn asset_name_of(triple: Seq<char>) -> Seq<char> {
    if contains_seq(triple, "windows"@) {
        "llama-server-"@ + triple + ".exe"@
    } else {
        "llama-server-"@ + triple
    }
}

/// The name of the engine's release asset for a target triple.
pub fn llama_server_asset_name(target_triple: &str) -> (r: String)
    ensures
        r@ == asset_name_of(target_triple@),
{
    let mut r = String::from_str("llama-server-");
    r.append(target_triple);
    if contains_str(target_triple, "windows") {
        r.append(".exe");
    }
    r
}

/// Where the latest release assets of the engine are downloaded from.
pub const RELEASE_DOWNLOAD_BASE: &'static str = "https://github.com/ggerganov/llama.cpp/releases/latest/download/";

/// The download URL of the engine for a target triple.
pub fn llama_server_release_url(target_triple: &str) -> (r: String)
    ensures
        r@ == RELEASE_DOWNLOAD_BASE@ + asset_name_of(target_triple@),
{
    let asset = llama_server_asset_name(target_triple);
    let mut r = String::from_str(RELEASE_DOWNLOAD_BASE);
    r.append(asset.as_str());
    r
}

/// The `Range` header value that resumes a download after `existing` bytes.
pub open spec fn range_header_of(existing: u64) -> Option<Seq<char>> {
    if existing == 0 {
        None
    } else {
        Some("bytes="@ + decimal(existing as nat) + "-"@)
    }
}

/// The `Range` header that resumes a download after the bytes already in
/// the partial file; none when the partial file is empty or absent.
pub fn range_header(existing: u64) -> (r: Option<String>)
    ensures
        match range_header_of(existing) {
            Some(h) => r matches Some(x) && x@ == h,
            None => r is None,
        },
{
    if existing == 0 {
        None
    } else {
        let mut r = String::from_str("bytes=");
        push_decimal(&mut r, existing);
        r.append("-");
        Some(r)
    }
}

/// HTTP status of a partial answer to a ranged request.
pub const STATUS_PARTIAL_CONTENT: u16 = 206;

/// A download in progress: whether the partial file is appended to, how many
/// bytes it holds, and how many the whole file has (0 when unknown).
pub struct DownloadSession {
    pub append: bool,
    pub downloaded: u64,
    pub total: u64,
}

/// Starts a download once the server has answered: a partial answer resumes
/// after the existing bytes; any other success restarts from nothing; any
/// other status is refused and given back.
pub fn begin_download(existing: u64, status: u16, content_length: Option<u64>) -> (r: Result<DownloadSession, u16>)
    requires
        status == STATUS_PARTIAL_CONTENT ==> existing + content_length.unwrap_or(0) <= u64::MAX,
    ensures
        status == STATUS_PARTIAL_CONTENT ==> (r matches Ok(s) && s.append && s.downloaded == existing
            && s.total == existing + content_length.unwrap_or(0)),
        status != STATUS_PARTIAL_CONTENT && 200 <= status <= 299 ==> (r matches Ok(s) && !s.append
            && s.downloaded == 0 && s.total == content_length.unwrap_or(0)),
        status != STATUS_PARTIAL_CONTENT && !(200 <= status <= 299) ==> r == Err::<DownloadSession, u16>(
            status,
        ),
{
    let len = match content_length {
        Some(n) => n,
        None => 0,
    };
    if status == STATUS_PARTIAL_CONTENT {
        Ok(DownloadSession { append: true, downloaded: existing, total: existing + len })
    } else if 200 <= status && status <= 299 {
        Ok(DownloadSession { append: false, downloaded: 0, total: len })
    } else {
        Err(status)
    }
}

impl DownloadSession {
    /// Counts a chunk of `len` bytes written to the partial file.
    pub fn record_chunk(&mut self, len: u64)
        requires
            old(self).downloaded + len <= u64::MAX,
        ensures
            final(self).downloaded == old(self).downloaded + len,
            final(self).total == old(self).total,
            final(self).append == old(self).append,
    {
        self.downloaded = self.downloaded + len;
    }

    /// Whether the size of the whole file is known, so that progress is the
    /// share downloaded (else it is reported as half way).
    pub fn size_known(&self) -> (r: bool)
        ensures
            r == (self.total > 0),
    {
        self.total > 0
    }
}

/// Where fetching the missing engine and model stands.
#[derive(Debug, Clone, Copy, PartialEq, Eq, Structural)]
pub enum FetchPhase {
    /// Not begun.
    Idle,
    /// The engine is being downloaded.
    FetchingSidecar,
    /// The model file is being looked for.
    CheckingModel,
    /// The model is being downloaded.
    FetchingModel,
    /// Fetching has ended.
    Done,
}

/// What fetching is told as it goes.
#[derive(Debug, PartialEq, Eq)]
pub enum FetchEvent {
    /// Fetching is requested; whether the engine is already present.
    Begin { sidecar_present: bool },
    /// The outcome of downloading the engine.
    SidecarFetched(Result<(), String>),
    /// Whether the model is present.
    ModelChecked(bool),
    /// The outcome of downloading the model.
    ModelFetched(Result<(), String>),
}

/// What fetching asks to be done next.
#[derive(Debug, PartialEq, Eq)]
pub enum FetchAction {
    /// Download the engine.
    FetchSidecar,
    /// Report a failed engine download as a warning and go on.
    WarnAndCheckModel(String),
    /// Look for the model file.
    CheckModel,
    /// Download the model.
    FetchModel,
    /// Everything is present: report completion.
    Complete,
    /// The model download failed: report the error.
    Fail(String),
    /// The event was not one fetching waits for; nothing is to be done.
    Ignore,
}

/// Fetches what is missing: the engine when it is not present, where a
/// failure is only a warning; then the model when it is not present, where a
/// failure ends fetching with that error; then reports completion.
pub fn fetch_step(phase: FetchPhase, event: FetchEvent) -> (out: (FetchPhase, FetchAction))
    ensures
        match (phase, event) {
            (FetchPhase::Idle, FetchEvent::Begin { sidecar_present }) => if sidecar_present {
                out.0 == FetchPhase::CheckingModel && out.1 == FetchAction::CheckModel
            } else {
                out.0 == FetchPhase::FetchingSidecar && out.1 == FetchAction::FetchSidecar
            },
            (FetchPhase::FetchingSidecar, FetchEvent::SidecarFetched(res)) => out.0
                == FetchPhase::CheckingModel && match res {
                Ok(()) => out.1 == FetchAction::CheckModel,
                Err(e) => out.1 == FetchAction::WarnAndCheckModel(e),
            },
            (FetchPhase::CheckingModel, FetchEvent::ModelChecked(present)) => if present {
                out.0 == FetchPhase::Done && out.1 == FetchAction::Complete
            } else {
                out.0 == FetchPhase::FetchingModel && out.1 == FetchAction::FetchModel
            },
            (FetchPhase::FetchingModel, FetchEvent::ModelFetched(res)) => out.0 == FetchPhase::Done
                && match res {
                Ok(()) => out.1 == FetchAction::Complete,
                Err(e) => out.1 == FetchAction::Fail(e),
            },
            _ => out.0 == phase && out.1 == FetchAction::Ignore,
        },
{
    match (phase, event) {
        (FetchPhase::Idle, FetchEvent::Begin { sidecar_present }) => {
            if sidecar_present {
                (FetchPhase::CheckingModel, FetchAction::CheckModel)
            } else {
                (FetchPhase::FetchingSidecar, FetchAction::FetchSidecar)
            }
        },
        (FetchPhase::FetchingSidecar, FetchEvent::SidecarFetched(res)) => match res {
            Ok(()) => (FetchPhase::CheckingModel, FetchAction::CheckModel),
            Err(e) => (FetchPhase::CheckingModel, FetchAction::WarnAndCheckModel(e)),
        },
        (FetchPhase::CheckingModel, FetchEvent::ModelChecked(present)) => {
            if present {
                (FetchPhase::Done, FetchAction::Complete)
            } else {
                (FetchPhase::FetchingModel, FetchAction::FetchModel)
            }
        },
        (FetchPhase::FetchingModel, FetchEvent::ModelFetched(res)) => match res {
            Ok(()) => (FetchPhase::Done, FetchAction::Complete),
            Err(e) => (FetchPhase::Done, FetchAction::Fail(e)),
        },
        (p, _) => (p, FetchAction::Ignore),
    }
}

} // verus!
