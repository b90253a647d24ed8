//! Application settings and the paths of the files the application keeps:
//! the cache database, the model, and the inference engine executable.

use vstd::prelude::*;
use crate::llm::local_url_of;
use crate::model::{asset_name_of, current_target_triple, target_triple_of, RELEASE_DOWNLOAD_BASE};
use crate::sync::shard_url_of;
use crate::text::is_prefix_of;
use crate::text::{chars_of, push_char, str_eq};

verus! {

/// `c` separates path components: '/' always, and also the platform's own
/// separator `sep`.
pub open spec fn is_separator(c: char, sep: char) -> bool {
    c == '/' || c == sep
}

/// `p` is an absolute path on a platform whose separator is `sep`. Where the
/// separator is a backslash, that is a drive letter, ':' and a separator, or
/// two separators (a network share); elsewhere it is a leading '/'.
pub open spec fn is_rooted(p: Seq<char>, sep: char) -> bool {
    if sep == '\\' {
        (p.len() >= 3 && p[1] == ':' && is_separator(p[2], sep)) || (p.len() >= 2 && is_separator(
            p[0],
            sep,
        ) && is_separator(p[1], sep))
    } else {
        p.len() > 0 && is_separator(p[0], sep)
    }
}

/// `part` added to the path `base` on a platform whose separator is `sep`:
/// a part that is itself absolute replaces the base; any other part follows
/// the base, after `sep` unless the base is empty, the base ends with a
/// separator or the part starts with one.
pub open spec fn join_path(base: Seq<char>, part: Seq<char>, sep: char) -> Seq<char> {
    if is_rooted(part, sep) {
        part
    } else if base.len() == 0 {
        part
    } else if is_separator(base[base.len() - 1], sep) || (part.len() > 0 && is_separator(part[0], sep)) {
        base + part
    } else {
        base + seq![sep] + part
    }
}

/// Whether `p` is an absolute path on a platform whose separator is `sep`.
pub fn path_is_rooted(p: &str, sep: char) -> (r: bool)
    ensures
        r == is_rooted(p@, sep),
{
    let v = chars_of(p);
    if sep == '\\' {
        (v.len() >= 3 && v[1] == ':' && (v[2] == '/' || v[2] == sep)) || (v.len() >= 2 && (v[0]
            == '/' || v[0] == sep) && (v[1] == '/' || v[1] == sep))
    } else {
        v.len() > 0 && (v[0] == '/' || v[0] == sep)
    }
}

/// Adding a part to an absolute path gives an absolute path.
pub proof fn law_join_keeps_rooted(base: Seq<char>, part: Seq<char>, sep: char)
    requires
        is_rooted(base, sep),
    ensures
        is_rooted(join_path(base, part, sep), sep),
{
    let j = join_path(base, part, sep);
    if !is_rooted(part, sep) {
        if is_separator(base[base.len() - 1], sep) || (part.len() > 0 && is_separator(part[0], sep)) {
            assert(j == base + part);
        } else {
            assert(j == base + seq![sep] + part);
        }
        assert(j[0] == base[0]);
        if base.len() >= 2 {
            assert(j[1] == base[1]);
        }
        if base.len() >= 3 {
            assert(j[2] == base[2]);
        }
    }
}

/// `part` added to the path `base`, as [`join_path`] describes.
pub fn join_path_str(base: &str, part: &str, sep: char) -> (r: String)
    ensures
        r@ == join_path(base@, part@, sep),
{
    if path_is_rooted(part, sep) {
        return String::from_str(part);
    }
    let b = chars_of(base);
    if b.len() == 0 {
        return String::from_str(part);
    }
    let p = chars_of(part);
    let mut r = String::from_str(base);
    let last = b[b.len() - 1];
    let part_starts_with_separator = p.len() > 0 && (p[0] == '/' || p[0] == sep);
    if !(last == '/' || last == sep) && !part_starts_with_separator {
        push_char(&mut r, sep);
    }
    r.append(part);
    assert(r@ =~= join_path(base@, part@, sep));
    r
}

/// Port of the local API that the browser extension calls.
pub const DEFAULT_SERVER_PORT: u16 = 4343;

/// Port the inference engine listens on.
pub const DEFAULT_LLAMA_SERVER_PORT: u16 = 4344;

/// Repository that publishes the model.
pub const DEFAULT_MODEL_REPO: &'static str = "bartowski/Llama-3.2-3B-Instruct-GGUF";

/// File name of the model.
pub const DEFAULT_MODEL_FILENAME: &'static str = "Llama-3.2-3B-Instruct-Q4_K_M.gguf";

/// The other spelling of the model's file name that is accepted.
pub const ALT_MODEL_FILENAME: &'static str = "Llama-3.2-3B-Instruct.Q4_K_M.gguf";

/// Where the model is downloaded from.
pub const DEFAULT_MODEL_URL: &'static str = "https://huggingface.co/bartowski/Llama-3.2-3B-Instruct-GGUF/resolve/main/Llama-3.2-3B-Instruct-Q4_K_M.gguf";

/// Where cache shards are fetched from.
pub const DEFAULT_CDN_SHARD_BASE_URL: &'static str = "https://cdn.jsdelivr.net/gh/Lophostrix/crixata-cache@main/shards";

/// Hours between background cache synchronisations.
pub const DEFAULT_SYNC_INTERVAL_HOURS: u64 = 24;

/// The data directory used when the platform names none.
pub const FALLBACK_DATA_ROOT: &'static str = "./data";

/// The application's directory inside the data directory.
pub const APP_DIR_NAME: &'static str = "crixata";

/// The repository-local directory that may hold engine executables.
pub const SIDECARS_DIR: &'static str = "sidecars";

/// Application settings. The data directory is always an absolute path.
pub struct AppConfig {
    server_port: u16,
    llama_server_port: u16,
    model_repo: String,
    model_filename: String,
    model_url: String,
    cdn_shard_base_url: String,
    data_dir: String,
    sync_interval_hours: u64,
    path_separator: char,
}

/// The contents of an [`AppConfig`] as mathematical values.
pub struct ConfigView {
    pub server_port: u16,
    pub llama_server_port: u16,
    pub model_repo: Seq<char>,
    pub model_filename: Seq<char>,
    pub model_url: Seq<char>,
    pub cdn_shard_base_url: Seq<char>,
    pub data_dir: Seq<char>,
    pub sync_interval_hours: u64,
    pub path_separator: char,
}

impl AppConfig {
    /// The settings as mathematical values.
    pub closed spec fn config_view(&self) -> ConfigView {
        ConfigView {
            server_port: self.server_port,
            llama_server_port: self.llama_server_port,
            model_repo: self.model_repo@,
            model_filename: self.model_filename@,
            model_url: self.model_url@,
            cdn_shard_base_url: self.cdn_shard_base_url@,
            data_dir: self.data_dir@,
            sync_interval_hours: self.sync_interval_hours,
            path_separator: self.path_separator,
        }
    }

    /// The data directory is absolute.
    #[verifier::type_invariant]
    closed spec fn wf(self) -> bool {
        is_rooted(self.data_dir@, self.path_separator)
    }
}

impl View for AppConfig {
    type V = ConfigView;

    open spec fn view(&self) -> ConfigView {
        self.config_view()
    }
}

/// The data directory: the local data directory, else the data directory,
/// else "./data", taken relative to the working directory where it is not
/// absolute; then the application's directory inside it.
pub open spec fn data_dir_of(
    local: Option<Seq<char>>,
    roaming: Option<Seq<char>>,
    working_dir: Seq<char>,
    sep: char,
) -> Seq<char> {
    let root = match local {
        Some(l) => l,
        None => match roaming {
            Some(d) => d,
            None => FALLBACK_DATA_ROOT@,
        },
    };
    let absolute_root = if is_rooted(root, sep) {
        root
    } else {
        join_path(working_dir, root, sep)
    };
    join_path(absolute_root, APP_DIR_NAME@, sep)
}

/// The settings other than the data directory and the separator hold their
/// defaults.
pub open spec fn has_default_settings(c: ConfigView) -> bool {
    &&& c.server_port == DEFAULT_SERVER_PORT
    &&& c.llama_server_port == DEFAULT_LLAMA_SERVER_PORT
    &&& c.model_repo == DEFAULT_MODEL_REPO@
    &&& c.model_filename == DEFAULT_MODEL_FILENAME@
    &&& c.model_url == DEFAULT_MODEL_URL@
    &&& c.cdn_shard_base_url == DEFAULT_CDN_SHARD_BASE_URL@
    &&& c.sync_interval_hours == DEFAULT_SYNC_INTERVAL_HOURS
}

/// The user's local data directory as `dirs::data_local_dir` gives it, read
/// as text (bytes that are not valid UTF-8 are replaced); it depends on the
/// platform and the environment, so nothing is promised of it.
#[verifier::external_body]
fn user_local_data_dir() -> Option<String> {
    match dirs::data_local_dir() {
        Some(p) => Some(p.to_string_lossy().into_owned()),
        None => None,
    }
}

/// The user's data directory as `dirs::data_dir` gives it, read as text
/// (bytes that are not valid UTF-8 are replaced); it depends on the platform
/// and the environment, so nothing is promised of it.
#[verifier::external_body]
fn user_data_dir() -> Option<String> {
    match dirs::data_dir() {
        Some(p) => Some(p.to_string_lossy().into_owned()),
        None => None,
    }
}

/// The engine executable's file name on an operating system.
pub open spec fn bin_name_of(os: Seq<char>) -> Seq<char> {
    if os == "windows"@ {
        "llama-server.exe"@
    } else {
        "llama-server"@
    }
}

/// The name of the engine executable for a target triple in the sidecars
/// directory.
pub open spec fn triple_bin_name_of(os: Seq<char>, arch: Seq<char>) -> Seq<char> {
    if os == "windows"@ {
        "llama-server-"@ + target_triple_of(os, arch) + ".exe"@
    } else {
        "llama-server-"@ + target_triple_of(os, arch)
    }
}

/// Which of the places that may hold the engine executable exist.
pub struct BinaryProbe {
    /// The executable in the application's bin directory.
    pub standard_exists: bool,
    /// The sidecars directory.
    pub sidecars_dir_exists: bool,
    /// The plainly named executable in the sidecars directory.
    pub plain_exists: bool,
    /// The executable named after the target triple in the sidecars directory.
    pub triple_exists: bool,
}

/// The engine executable that is used: the one in the application's bin
/// directory where it exists; else, where the sidecars directory exists,
/// its plainly named one or else its one named after the target triple,
/// whichever exists first; else the bin directory's path.
pub open spec fn resolved_bin_of(
    standard: Seq<char>,
    plain: Seq<char>,
    triple: Seq<char>,
    probe: BinaryProbe,
) -> Seq<char> {
    if probe.standard_exists {
        standard
    } else if probe.sidecars_dir_exists && probe.plain_exists {
        plain
    } else if probe.sidecars_dir_exists && probe.triple_exists {
        triple
    } else {
        standard
    }
}

impl AppConfig {
    /// The settings with their defaults, for a platform whose path separator
    /// is `separator`, with the data directory found under the given local
    /// and roaming data directories; a relative one is taken relative to the
    /// working directory, so the data directory is always absolute.
    pub fn from_data_roots(
        local: Option<String>,
        roaming: Option<String>,
        working_dir: &str,
        separator: char,
    ) -> (r: AppConfig)
        requires
            is_rooted(working_dir@, separator),
        ensures
            has_default_settings(r@),
            r@.path_separator == separator,
            r@.data_dir == data_dir_of(
                match local {
                    Some(l) => Some(l@),
                    None => None,
                },
                match roaming {
                    Some(d) => Some(d@),
                    None => None,
                },
                working_dir@,
                separator,
            ),
            is_rooted(r@.data_dir, separator),
    {
        let root = match local {
            Some(l) => l,
            None => match roaming {
                Some(d) => d,
                None => String::from_str(FALLBACK_DATA_ROOT),
            },
        };
        let absolute_root = if path_is_rooted(root.as_str(), separator) {
            root
        } else {
            proof {
                law_join_keeps_rooted(working_dir@, root@, separator);
            }
            join_path_str(working_dir, root.as_str(), separator)
        };
        proof {
            law_join_keeps_rooted(absolute_root@, APP_DIR_NAME@, separator);
        }
        AppConfig {
            server_port: DEFAULT_SERVER_PORT,
            llama_server_port: DEFAULT_LLAMA_SERVER_PORT,
            model_repo: String::from_str(DEFAULT_MODEL_REPO),
            model_filename: String::from_str(DEFAULT_MODEL_FILENAME),
            model_url: String::from_str(DEFAULT_MODEL_URL),
            cdn_shard_base_url: String::from_str(DEFAULT_CDN_SHARD_BASE_URL),
            data_dir: join_path_str(absolute_root.as_str(), APP_DIR_NAME, separator),
            sync_interval_hours: DEFAULT_SYNC_INTERVAL_HOURS,
            path_separator: separator,
        }
    }

    /// The default settings for a platform whose path separator is
    /// `separator`, with the data directory found in the user's local data
    /// directory, else data directory, else "./data", resolved against the
    /// working directory.
    pub fn with_working_dir(working_dir: &str, separator: char) -> (r: AppConfig)
        requires
            is_rooted(working_dir@, separator),
        ensures
            has_default_settings(r@),
            r@.path_separator == separator,
            is_rooted(r@.data_dir, separator),
            exists|local: Option<Seq<char>>, roaming: Option<Seq<char>>|
                r@.data_dir == #[trigger] data_dir_of(local, roaming, working_dir@, separator),
    {
        let local = user_local_data_dir();
        let roaming = match local {
            Some(_) => None,
            None => user_data_dir(),
        };
        let ghost lv = match &local { Some(l) => Some(l@), None => None };
        let ghost rv = match &roaming { Some(d) => Some(d@), None => None };
        let r = AppConfig::from_data_roots(local, roaming, working_dir, separator);
        assert(r@.data_dir == data_dir_of(lv, rv, working_dir@, separator));
        r
    }

    /// A copy of the settings.
    pub fn duplicate(&self) -> (r: AppConfig)
        ensures
            r@ == self@,
    {
        proof {
            use_type_invariant(self);
        }
        AppConfig {
            server_port: self.server_port,
            llama_server_port: self.llama_server_port,
            model_repo: self.model_repo.clone(),
            model_filename: self.model_filename.clone(),
            model_url: self.model_url.clone(),
            cdn_shard_base_url: self.cdn_shard_base_url.clone(),
            data_dir: self.data_dir.clone(),
            sync_interval_hours: self.sync_interval_hours,
            path_separator: self.path_separator,
        }
    }

    /// Port of the local API.
    pub fn server_port(&self) -> (r: u16)
        ensures
            r == self@.server_port,
    {
        self.server_port
    }

    /// Port of the inference engine.
    pub fn llama_server_port(&self) -> (r: u16)
        ensures
            r == self@.llama_server_port,
    {
        self.llama_server_port
    }

    /// Repository that publishes the model.
    pub fn model_repo(&self) -> (r: &str)
        ensures
            r@ == self@.model_repo,
    {
        self.model_repo.as_str()
    }

    /// File name of the model.
    pub fn model_filename(&self) -> (r: &str)
        ensures
            r@ == self@.model_filename,
    {
        self.model_filename.as_str()
    }

    /// Where the model is downloaded from.
    pub fn model_url(&self) -> (r: &str)
        ensures
            r@ == self@.model_url,
    {
        self.model_url.as_str()
    }

    /// Where cache shards are fetched from.
    pub fn cdn_shard_base_url(&self) -> (r: &str)
        ensures
            r@ == self@.cdn_shard_base_url,
    {
        self.cdn_shard_base_url.as_str()
    }

    /// The data directory, an absolute path.
    pub fn data_dir(&self) -> (r: &str)
        ensures
            r@ == self@.data_dir,
            is_rooted(r@, self@.path_separator),
    {
        proof {
            use_type_invariant(self);
        }
        self.data_dir.as_str()
    }

    /// Hours between background cache synchronisations.
    pub fn sync_interval_hours(&self) -> (r: u64)
        ensures
            r == self@.sync_interval_hours,
    {
        self.sync_interval_hours
    }

    /// The platform's path separator.
    pub fn path_separator(&self) -> (r: char)
        ensures
            r == self@.path_separator,
    {
        self.path_separator
    }

    /// Sets the hours between background cache synchronisations.
    pub fn set_sync_interval_hours(&mut self, hours: u64)
        ensures
            final(self)@ == (ConfigView { sync_interval_hours: hours, ..old(self)@ }),
    {
        proof {
            use_type_invariant(&*self);
        }
        self.sync_interval_hours = hours;
    }

    /// Path of the cache database, an absolute path.
    pub fn cache_db_path(&self) -> (r: String)
        ensures
            r@ == join_path(self@.data_dir, "cache.sqlite"@, self@.path_separator),
            is_rooted(r@, self@.path_separator),
    {
        proof {
            use_type_invariant(self);
            law_join_keeps_rooted(self@.data_dir, "cache.sqlite"@, self@.path_separator);
        }
        join_path_str(self.data_dir.as_str(), "cache.sqlite", self.path_separator)
    }

    /// Directory of downloaded models.
    pub fn model_dir(&self) -> (r: String)
        ensures
            r@ == join_path(self@.data_dir, "models"@, self@.path_separator),
    {
        join_path_str(self.data_dir.as_str(), "models", self.path_separator)
    }

    /// Directory of downloaded models (another name for [`AppConfig::model_dir`]).
    pub fn models_dir(&self) -> (r: String)
        ensures
            r@ == join_path(self@.data_dir, "models"@, self@.path_separator),
    {
        self.model_dir()
    }

    /// Directory of the downloaded engine executable.
    pub fn bin_dir(&self) -> (r: String)
        ensures
            r@ == join_path(self@.data_dir, "bin"@, self@.path_separator),
    {
        join_path_str(self.data_dir.as_str(), "bin", self.path_separator)
    }

    /// The directories that must exist: the data directory, its models
    /// directory and its bin directory.
    pub fn required_dirs(&self) -> (r: Vec<String>)
        ensures
            r@.len() == 3,
            r@[0]@ == self@.data_dir,
            r@[1]@ == join_path(self@.data_dir, "models"@, self@.path_separator),
            r@[2]@ == join_path(self@.data_dir, "bin"@, self@.path_separator),
    {
        let mut r: Vec<String> = Vec::new();
        r.push(self.data_dir.clone());
        r.push(self.model_dir());
        r.push(self.bin_dir());
        r
    }

    /// Where the model is looked for first: its file name in the models directory.
    pub fn model_primary_path(&self) -> (r: String)
        ensures
            r@ == join_path(
                join_path(self@.data_dir, "models"@, self@.path_separator),
                self@.model_filename,
                self@.path_separator,
            ),
    {
        let dir = self.model_dir();
        join_path_str(dir.as_str(), self.model_filename.as_str(), self.path_separator)
    }

    /// Where the model is looked for next: the other spelling of its file name.
    pub fn model_alt_path(&self) -> (r: String)
        ensures
            r@ == join_path(
                join_path(self@.data_dir, "models"@, self@.path_separator),
                ALT_MODEL_FILENAME@,
                self@.path_separator,
            ),
    {
        let dir = self.model_dir();
        join_path_str(dir.as_str(), ALT_MODEL_FILENAME, self.path_separator)
    }

    /// Absolute path to the model file: the primary path where it exists,
    /// else the other spelling where that exists, else the primary path.
    pub fn model_path(&self, primary_exists: bool, alt_exists: bool) -> (r: String)
        ensures
            r@ == if !primary_exists && alt_exists {
                join_path(
                    join_path(self@.data_dir, "models"@, self@.path_separator),
                    ALT_MODEL_FILENAME@,
                    self@.path_separator,
                )
            } else {
                join_path(
                    join_path(self@.data_dir, "models"@, self@.path_separator),
                    self@.model_filename,
                    self@.path_separator,
                )
            },
            is_rooted(r@, self@.path_separator),
    {
        proof {
            use_type_invariant(self);
            law_data_paths_are_absolute(
                self@.data_dir,
                self@.model_filename,
                "llama-server"@,
                self@.path_separator,
            );
        }
        if !primary_exists && alt_exists {
            self.model_alt_path()
        } else {
            self.model_primary_path()
        }
    }

    /// Absolute path of the downloaded engine executable in the bin directory.
    pub fn llama_server_bin_path(&self, os: &str) -> (r: String)
        ensures
            r@ == join_path(
                join_path(self@.data_dir, "bin"@, self@.path_separator),
                bin_name_of(os@),
                self@.path_separator,
            ),
            is_rooted(r@, self@.path_separator),
    {
        proof {
            use_type_invariant(self);
            law_data_paths_are_absolute(
                self@.data_dir,
                self@.model_filename,
                bin_name_of(os@),
                self@.path_separator,
            );
        }
        let dir = self.bin_dir();
        if str_eq(os, "windows") {
            join_path_str(dir.as_str(), "llama-server.exe", self.path_separator)
        } else {
            join_path_str(dir.as_str(), "llama-server", self.path_separator)
        }
    }

    /// Path of the plainly named engine executable in the sidecars directory.
    pub fn sidecar_plain_candidate(&self, os: &str) -> (r: String)
        ensures
            r@ == join_path(SIDECARS_DIR@, bin_name_of(os@), self@.path_separator),
    {
        if str_eq(os, "windows") {
            join_path_str(SIDECARS_DIR, "llama-server.exe", self.path_separator)
        } else {
            join_path_str(SIDECARS_DIR, "llama-server", self.path_separator)
        }
    }

    /// Path of the engine executable named after the target triple in the
    /// sidecars directory.
    pub fn sidecar_triple_candidate(&self, os: &str, arch: &str) -> (r: String)
        ensures
            r@ == join_path(SIDECARS_DIR@, triple_bin_name_of(os@, arch@), self@.path_separator),
    {
        let triple = current_target_triple(os, arch);
        let mut name = String::from_str("llama-server-");
        name.append(triple);
        if str_eq(os, "windows") {
            name.append(".exe");
        }
        join_path_str(SIDECARS_DIR, name.as_str(), self.path_separator)
    }

    /// The engine executable that is used, given which candidate places exist.
    pub fn resolve_llama_server_bin(&self, os: &str, arch: &str, probe: &BinaryProbe) -> (r: String)
        ensures
            r@ == resolved_bin_of(
                join_path(
                    join_path(self@.data_dir, "bin"@, self@.path_separator),
                    bin_name_of(os@),
                    self@.path_separator,
                ),
                join_path(SIDECARS_DIR@, bin_name_of(os@), self@.path_separator),
                join_path(SIDECARS_DIR@, triple_bin_name_of(os@, arch@), self@.path_separator),
                *probe,
            ),
    {
        if probe.standard_exists {
            self.llama_server_bin_path(os)
        } else if probe.sidecars_dir_exists && probe.plain_exists {
            self.sidecar_plain_candidate(os)
        } else if probe.sidecars_dir_exists && probe.triple_exists {
            self.sidecar_triple_candidate(os, arch)
        } else {
            self.llama_server_bin_path(os)
        }
    }

    /// Seconds between background cache synchronisations: the configured
    /// hours, at least one, in seconds.
    pub fn sync_interval_secs(&self) -> (r: u64)
        requires
            (if self@.sync_interval_hours > 1 { self@.sync_interval_hours as int } else { 1 }) * 3600 <= u64::MAX,
        ensures
            r == (if self@.sync_interval_hours > 1 { self@.sync_interval_hours as int } else { 1 }) * 3600,
    {
        let hours = if self.sync_interval_hours > 1 { self.sync_interval_hours } else { 1 };
        hours * 3600
    }
}

/// The files the application keeps under an absolute data directory are at
/// absolute paths: the cache database, the model (under either spelling of
/// its name) and the downloaded engine executable.
pub proof fn law_data_paths_are_absolute(data_dir: Seq<char>, model_filename: Seq<char>, bin_name: Seq<char>, sep: char)
    requires
        is_rooted(data_dir, sep),
    ensures
        is_rooted(join_path(data_dir, "cache.sqlite"@, sep), sep),
        is_rooted(join_path(join_path(data_dir, "models"@, sep), model_filename, sep), sep),
        is_rooted(join_path(join_path(data_dir, "models"@, sep), ALT_MODEL_FILENAME@, sep), sep),
        is_rooted(join_path(join_path(data_dir, "bin"@, sep), bin_name, sep), sep),
{
    law_join_keeps_rooted(data_dir, "cache.sqlite"@, sep);
    law_join_keeps_rooted(data_dir, "models"@, sep);
    law_join_keeps_rooted(join_path(data_dir, "models"@, sep), model_filename, sep);
    law_join_keeps_rooted(join_path(data_dir, "models"@, sep), ALT_MODEL_FILENAME@, sep);
    law_join_keeps_rooted(data_dir, "bin"@, sep);
    law_join_keeps_rooted(join_path(data_dir, "bin"@, sep), bin_name, sep);
}

/// The network destinations the application reaches with its settings as
/// built here: the model is downloaded from huggingface.co, the engine from
/// the llama.cpp releases on github.com, cache shards from the jsDelivr copy
/// of the public cache repository, and inference goes to the loopback
/// address.
pub proof fn law_network_destinations(c: ConfigView, target_triple: Seq<char>, shard_id: Seq<char>, port: u16, path: Seq<char>)
    requires
        has_default_settings(c),
    ensures
        is_prefix_of("https://huggingface.co/"@, c.model_url),
        is_prefix_of(
            "https://github.com/ggerganov/llama.cpp/releases/"@,
            RELEASE_DOWNLOAD_BASE@ + asset_name_of(target_triple),
        ),
        is_prefix_of(
            "https://cdn.jsdelivr.net/gh/Lophostrix/crixata-cache"@,
            shard_url_of(c.cdn_shard_base_url, shard_id),
        ),
        is_prefix_of("http://127.0.0.1:"@, local_url_of(port, path)),
{
    reveal_strlit("https://huggingface.co/");
    reveal_strlit("https://huggingface.co/bartowski/Llama-3.2-3B-Instruct-GGUF/resolve/main/Llama-3.2-3B-Instruct-Q4_K_M.gguf");
    reveal_strlit("https://github.com/ggerganov/llama.cpp/releases/");
    reveal_strlit("https://github.com/ggerganov/llama.cpp/releases/latest/download/");
    reveal_strlit("https://cdn.jsdelivr.net/gh/Lophostrix/crixata-cache");
    reveal_strlit("https://cdn.jsdelivr.net/gh/Lophostrix/crixata-cache@main/shards");
    let rel = RELEASE_DOWNLOAD_BASE@ + asset_name_of(target_triple);
    assert(rel.subrange(0, 48) =~= "https://github.com/ggerganov/llama.cpp/releases/"@);
    let sh = shard_url_of(c.cdn_shard_base_url, shard_id);
    assert(sh.subrange(0, 52) =~= "https://cdn.jsdelivr.net/gh/Lophostrix/crixata-cache"@);
    assert(c.model_url.subrange(0, 23) =~= "https://huggingface.co/"@);
    crate::llm::law_inference_stays_local(port, path);
}

} // verus!
