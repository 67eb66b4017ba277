//! Settings read from `config.toml`: their defaults, the defaults written next
//! to a fresh config file (as absolute paths), where logs go and which shader
//! is used (relative paths are read from the config file's directory), and
//! where the config file lives.
//!
//! Paths are held as strings. Splitting off a path's parent and joining a
//! component onto a path are done by `std::path`, whose results are named
//! below rather than restated: they follow the platform's path rules.

use vstd::prelude::*;

use crate::floating::PlacementChoice;

verus! {

/// `std::path::Path::parent` of `path` on this platform: the path without its
/// final component, if there is one.
pub uninterp spec fn path_parent_of(path: Seq<char>) -> Option<Seq<char>>;

/// `std::path::Path::join` of `base` and `part` on this platform.
pub uninterp spec fn path_joined(base: Seq<char>, part: Seq<char>) -> Seq<char>;

/// `std::path::Path::is_absolute` of `path` on this platform.
pub uninterp spec fn path_absolute(path: Seq<char>) -> bool;

/// Calls `std::path::Path::parent`. The contract claims only that the result,
/// as text, is `path_parent_of` of the argument; the parent of a path given
/// as a `str` is a prefix of it ending at a component boundary, so converting
/// it back to a `String` loses nothing.
#[verifier::external_body]
fn path_parent(path: &str) -> (r: Option<String>)
    ensures
        match r {
            Some(p) => path_parent_of(path@) == Some(p@),
            None => path_parent_of(path@) is None,
        },
{
    match std::path::Path::new(path).parent() {
        Some(p) => Some(p.to_string_lossy().into_owned()),
        None => None,
    }
}

/// A character of a plain file name: ASCII letter, digit, `.`, `_` or `-`.
pub open spec fn is_name_char(c: char) -> bool {
    ('a' <= c <= 'z') || ('A' <= c <= 'Z') || ('0' <= c <= '9') || c == '.' || c == '_' || c
        == '-'
}

/// A single ordinary path component on every platform: non-empty, made of
/// plain name characters (no separator, no drive colon), and neither `.` nor
/// `..`.
pub open spec fn is_plain_name(s: Seq<char>) -> bool {
    &&& s.len() > 0
    &&& s != seq!['.']
    &&& s != seq!['.', '.']
    &&& forall|i: int| 0 <= i < s.len() ==> is_name_char(#[trigger] s[i])
}

/// Calls `std::path::Path::join`. The contract claims that the result, as
/// text, is `path_joined` of the arguments, and two facts the documentation
/// of `PathBuf::push` gives: an absolute `part` replaces `base` entirely, and
/// a relative `part` with no prefix and no root (here: a plain name) is
/// appended to `base`, so an absolute `base` stays absolute. Joining two
/// UTF-8 paths gives UTF-8, so converting it to a `String` loses nothing.
#[verifier::external_body]
fn path_join(base: &str, part: &str) -> (r: String)
    ensures
        r@ == path_joined(base@, part@),
        path_absolute(part@) ==> r@ == part@,
        path_absolute(base@) && is_plain_name(part@) ==> path_absolute(r@),
{
    std::path::Path::new(base).join(part).to_string_lossy().into_owned()
}

/// Calls `std::path::Path::is_absolute`. The contract claims only that the
/// result is `path_absolute` of the argument.
#[verifier::external_body]
fn path_is_absolute(path: &str) -> (r: bool)
    ensures
        r == path_absolute(path@),
{
    std::path::Path::new(path).is_absolute()
}

/// Calls `dirs::config_dir`, the user's configuration directory, which the
/// crate reads from the environment (on Windows, the roaming AppData folder).
/// Nothing is claimed of the result. A directory that is not valid Unicode is
/// converted lossily.
#[verifier::external_body]
fn user_config_dir() -> (r: Option<String>) {
    match dirs::config_dir() {
        Some(p) => Some(p.to_string_lossy().into_owned()),
        None => None,
    }
}

/// Logging settings.
#[derive(Debug, Clone)]
pub struct LoggingConfig {
    /// Directory of the log files; empty means `logs/` beside the config file.
    pub directory: String,
    /// How many days of log files are kept (0 disables the clean-up).
    pub retention_days: u32,
}

/// Settings of the floating-window mode.
#[derive(Debug, Clone)]
pub struct FloatingConfig {
    /// Start in floating mode.
    pub enabled: bool,
    /// Opacity of the whole window, 0 (transparent) to 255 (opaque).
    pub alpha: u8,
    /// Window width in physical pixels (corner placements).
    pub width: u32,
    /// Window height in physical pixels (also the thickness of edge placements).
    pub height: u32,
    /// Distance to the work area's edges in physical pixels.
    pub margin: i32,
    /// Where the window goes.
    pub placement: PlacementChoice,
    /// Win32 device name of the monitor; empty means the primary monitor.
    pub monitor: String,
}

/// The whole configuration.
#[derive(Debug, Clone)]
pub struct Config {
    /// Part of the friendly name of the capture device (empty: no capture).
    pub device: String,
    /// The WGSL shader file.
    pub shader: String,
    pub floating: FloatingConfig,
    pub logging: LoggingConfig,
}

/// The default logging settings: no directory set, seven days kept.
pub open spec fn is_default_logging(l: LoggingConfig) -> bool {
    &&& l.directory@.len() == 0
    &&& l.retention_days == 7
}

/// The default floating settings: off, alpha 153, 320 x 64, no margin,
/// bottom-right corner, primary monitor.
pub open spec fn is_default_floating(f: FloatingConfig) -> bool {
    &&& !f.enabled
    &&& f.alpha == 153
    &&& f.width == 320
    &&& f.height == 64
    &&& f.margin == 0
    &&& f.placement == PlacementChoice::BottomRight
    &&& f.monitor@.len() == 0
}

impl Default for LoggingConfig {
    fn default() -> (r: Self)
        ensures
            is_default_logging(r),
    {
        LoggingConfig { directory: String::new(), retention_days: 7 }
    }
}

impl Default for FloatingConfig {
    fn default() -> (r: Self)
        ensures
            is_default_floating(r),
    {
        FloatingConfig {
            enabled: false,
            alpha: 153,
            width: 320,
            height: 64,
            margin: 0,
            placement: PlacementChoice::default(),
            monitor: String::new(),
        }
    }
}

impl Default for Config {
    /// Defaults for keys a config file leaves out: no device, the shader
    /// `assets/spectrum.wgsl` relative to the working directory.
    fn default() -> (r: Self)
        ensures
            r.device@.len() == 0,
            r.shader@ == "assets/spectrum.wgsl"@,
            is_default_floating(r.floating),
            is_default_logging(r.logging),
    {
        Config {
            device: String::new(),
            shader: String::from_str("assets/spectrum.wgsl"),
            floating: FloatingConfig::default(),
            logging: LoggingConfig::default(),
        }
    }
}

/// A directory taken as it stands when absolute, and otherwise relative to
/// `working_dir`.
pub open spec fn anchored(dir: Seq<char>, working_dir: Seq<char>) -> Seq<char> {
    if path_absolute(dir) {
        dir
    } else {
        path_joined(working_dir, dir)
    }
}

/// Directory of the config file (`.` when the path has no parent), made
/// absolute against `working_dir` when it is relative.
pub open spec fn config_base(config_path: Seq<char>, working_dir: Seq<char>) -> Seq<char> {
    let dir = match path_parent_of(config_path) {
        Some(d) => d,
        None => "."@,
    };
    anchored(dir, working_dir)
}

/// Shader written into a fresh config: `assets/spectrum.wgsl` in the config
/// file's directory.
pub open spec fn default_shader_for(config_path: Seq<char>, working_dir: Seq<char>) -> Seq<char> {
    path_joined(path_joined(config_base(config_path, working_dir), "assets"@), "spectrum.wgsl"@)
}

/// Log directory written into a fresh config: `logs` in the config file's
/// directory.
pub open spec fn default_log_dir_for(config_path: Seq<char>, working_dir: Seq<char>) -> Seq<char> {
    path_joined(config_base(config_path, working_dir), "logs"@)
}

/// A path from the config file read relative to the config file's
/// directory; taken as it stands when the config path has no parent. (An
/// absolute path joined onto a directory is the path itself, which the
/// contracts below state where they need it.)
pub open spec fn beside_config(path: Seq<char>, config_path: Seq<char>) -> Seq<char> {
    match path_parent_of(config_path) {
        Some(d) => path_joined(d, path),
        None => path,
    }
}

/// Log directory in effect: the configured one, or `logs` when none is set,
/// read relative to the config file's directory.
pub open spec fn resolved_log_dir_of(directory: Seq<char>, config_path: Seq<char>) -> Seq<char> {
    if directory.len() == 0 {
        beside_config("logs"@, config_path)
    } else {
        beside_config(directory, config_path)
    }
}

/// Config file under a configuration directory (`.` when there is none):
/// `chryth/config.toml`.
pub open spec fn config_file_under(config_dir: Option<Seq<char>>) -> Seq<char> {
    let base = match config_dir {
        Some(d) => d,
        None => "."@,
    };
    path_joined(path_joined(base, "chryth"@), "config.toml"@)
}

/// The config file's directory as `Path::parent` gave it, or `.` when the
/// path has none.
pub fn config_dir_or_dot(parent: Option<String>) -> (r: String)
    ensures
        r@ == match opt_text(parent) {
            Some(d) => d,
            None => "."@,
        },
{
    match parent {
        Some(d) => d,
        None => String::from_str("."),
    }
}

/// The directory fresh defaults go into: `dir` when `Path::is_absolute`
/// said it is absolute, otherwise `dir` joined onto the working directory.
pub fn anchor_dir(dir: String, dir_is_absolute: bool, dir_in_working_dir: String) -> (r: String)
    ensures
        r@ == if dir_is_absolute {
            dir@
        } else {
            dir_in_working_dir@
        },
{
    if dir_is_absolute {
        dir
    } else {
        dir_in_working_dir
    }
}

/// The log directory named in a config: `logs` when none is set.
pub fn log_dir_entry(directory: &str) -> (r: &str)
    ensures
        r@ == if directory@.len() == 0 {
            "logs"@
        } else {
            directory@
        },
{
    if directory.is_empty() {
        "logs"
    } else {
        directory
    }
}

/// A path from the config read beside the config file: the path joined onto
/// the config file's directory when it has one, the path itself otherwise.
pub fn beside_config_from(path: &str, joined_onto_config_dir: Option<String>) -> (r: String)
    ensures
        r@ == match opt_text(joined_onto_config_dir) {
            Some(j) => j,
            None => path@,
        },
{
    match joined_onto_config_dir {
        Some(j) => j,
        None => String::from_str(path),
    }
}

impl Config {
    /// Defaults for a config file created at `config_path`: the shader and the
    /// log directory are put in the config file's directory, written as
    /// absolute paths (a relative directory is taken from `working_dir`);
    /// everything else is `Config::default`.
    pub fn defaults_for(config_path: &str, working_dir: &str) -> (r: Self)
        ensures
            r.device@.len() == 0,
            r.shader@ == default_shader_for(config_path@, working_dir@),
            is_default_floating(r.floating),
            r.logging.directory@ == default_log_dir_for(config_path@, working_dir@),
            r.logging.retention_days == 7,
            path_absolute(config_base(config_path@, working_dir@)) ==> path_absolute(r.shader@)
                && path_absolute(r.logging.directory@),
    {
        let dir = config_dir_or_dot(path_parent(config_path));
        let dir_is_absolute = path_is_absolute(dir.as_str());
        let dir_in_working_dir = path_join(working_dir, dir.as_str());
        let base = anchor_dir(dir, dir_is_absolute, dir_in_working_dir);
        proof {
            reveal_strlit("assets");
            reveal_strlit("spectrum.wgsl");
            reveal_strlit("logs");
            assert("assets"@ =~= seq!['a', 's', 's', 'e', 't', 's']);
            assert(is_plain_name("assets"@));
            assert("spectrum.wgsl"@ =~= seq![
                's', 'p', 'e', 'c', 't', 'r', 'u', 'm', '.', 'w', 'g', 's', 'l'
            ]);
            assert(is_plain_name("spectrum.wgsl"@));
            assert(is_plain_name("logs"@));
        }
        let assets = path_join(base.as_str(), "assets");
        let shader = path_join(assets.as_str(), "spectrum.wgsl");
        let directory = path_join(base.as_str(), "logs");
        Config {
            device: String::new(),
            shader,
            floating: FloatingConfig::default(),
            logging: LoggingConfig { directory, retention_days: 7 },
        }
    }

    /// The log directory: `logging.directory`, or `logs` when it is empty,
    /// read relative to the config file's directory; an absolute directory is
    /// used as it stands.
    pub fn resolved_log_dir(&self, config_path: &str) -> (r: String)
        ensures
            r@ == resolved_log_dir_of(self.logging.directory@, config_path@),
            self.logging.directory@.len() > 0 && path_absolute(self.logging.directory@) ==> r@
                == self.logging.directory@,
    {
        let dir = log_dir_entry(self.logging.directory.as_str());
        let joined = match path_parent(config_path) {
            Some(d) => Some(path_join(d.as_str(), dir)),
            None => None,
        };
        beside_config_from(dir, joined)
    }

    /// The shader file: `shader` read relative to the config file's
    /// directory; an absolute path is used as it stands.
    pub fn resolved_shader_path(&self, config_path: &str) -> (r: String)
        ensures
            r@ == beside_config(self.shader@, config_path@),
            path_absolute(self.shader@) ==> r@ == self.shader@,
    {
        let joined = match path_parent(config_path) {
            Some(d) => Some(path_join(d.as_str(), self.shader.as_str())),
            None => None,
        };
        beside_config_from(self.shader.as_str(), joined)
    }
}

/// Text of an optional string.
pub open spec fn opt_text(o: Option<String>) -> Option<Seq<char>> {
    match o {
        Some(s) => Some(s@),
        None => None,
    }
}

/// Where the config file lives given the user's configuration directory.
pub fn default_path_in(config_dir: Option<String>) -> (r: String)
    ensures
        r@ == config_file_under(opt_text(config_dir)),
{
    let base = match config_dir {
        Some(d) => d,
        None => String::from_str("."),
    };
    let dir = path_join(base.as_str(), "chryth");
    path_join(dir.as_str(), "config.toml")
}

/// The default config file: `chryth/config.toml` under the user's
/// configuration directory, or under `.` when there is none.
pub fn default_path() -> (r: String)
    ensures
        exists|d: Option<Seq<char>>| r@ == config_file_under(d),
{
    let dir = user_config_dir();
    let ghost d = opt_text(dir);
    let r = default_path_in(dir);
    assert(r@ == config_file_under(d));
    r
}

/// A config with no log directory set logs to the same directory that a
/// freshly created config at the same path names explicitly, when the config
/// file's directory is absolute.
pub proof fn law_unset_log_dir_matches_fresh_default(
    directory: Seq<char>,
    config_path: Seq<char>,
    working_dir: Seq<char>,
)
    requires
        directory.len() == 0,
        path_parent_of(config_path) is Some,
        path_absolute(path_parent_of(config_path)->0),
    ensures
        resolved_log_dir_of(directory, config_path) == default_log_dir_for(config_path, working_dir),
{
}

/// With no log directory set, logs go to `logs` in the config file's
/// directory, whether that directory is absolute or relative; a config path
/// with no parent gives plain `logs`.
pub proof fn law_unset_log_dir_is_logs_beside_config(directory: Seq<char>, config_path: Seq<char>)
    requires
        directory.len() == 0,
    ensures
        path_parent_of(config_path) is Some ==> resolved_log_dir_of(directory, config_path)
            == path_joined(path_parent_of(config_path)->0, "logs"@),
        path_parent_of(config_path) is None ==> resolved_log_dir_of(directory, config_path)
            == "logs"@,
{
}

/// A log directory that is set is read from the config file's directory, and
/// is used as it stands when the config path has no parent.
pub proof fn law_set_log_dir_is_taken_from_config_dir(directory: Seq<char>, config_path: Seq<char>)
    requires
        directory.len() > 0,
    ensures
        resolved_log_dir_of(directory, config_path) == match path_parent_of(config_path) {
            Some(d) => path_joined(d, directory),
            None => directory,
        },
{
}

/// For a config file in an absolute directory, a freshly created config's
/// log directory resolves to itself, and to the same directory as a config
/// that leaves the log directory unset. It rests on what `Path::join` does
/// with an absolute part (it replaces the base), which `defaults_for` and
/// `resolved_log_dir` carry over from the trusted `path_join`.
pub proof fn law_fresh_log_dir_resolves_to_itself(
    config_path: Seq<char>,
    working_dir: Seq<char>,
    unset: Seq<char>,
)
    requires
        path_parent_of(config_path) is Some,
        path_absolute(path_parent_of(config_path)->0),
        path_joined(
            path_parent_of(config_path)->0,
            default_log_dir_for(config_path, working_dir),
        ) == default_log_dir_for(config_path, working_dir),
        unset.len() == 0,
    ensures
        resolved_log_dir_of(default_log_dir_for(config_path, working_dir), config_path)
            == default_log_dir_for(config_path, working_dir),
        resolved_log_dir_of(default_log_dir_for(config_path, working_dir), config_path)
            == resolved_log_dir_of(unset, config_path),
{
}

/// For a config file in an absolute directory, the fresh defaults are the
/// same whatever the working directory: they lie in the config's directory.
pub proof fn law_fresh_defaults_ignore_working_dir_for_absolute_config(
    config_path: Seq<char>,
    working_dir: Seq<char>,
    other_working_dir: Seq<char>,
)
    requires
        path_parent_of(config_path) is Some,
        path_absolute(path_parent_of(config_path)->0),
    ensures
        default_shader_for(config_path, working_dir) == default_shader_for(
            config_path,
            other_working_dir,
        ),
        default_log_dir_for(config_path, working_dir) == default_log_dir_for(
            config_path,
            other_working_dir,
        ),
        config_base(config_path, working_dir) == path_parent_of(config_path)->0,
{
}

} // verus!
