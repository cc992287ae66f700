pub mod config;
pub mod install;
pub mod json_doc;
pub mod kv;
pub mod plist_doc;
pub mod roo_code;
pub mod text;
pub mod toml_doc;
pub mod yaml_doc;
pub mod zed;

pub use config::ConfigMerger;
pub use install::InstallResult;
pub use roo_code::RooCodePlugin;
pub use zed::ZedPlugin;

use vstd::prelude::*;

verus! {

/// Serialized-document formats the merge engine understands.
#[derive(Clone, Copy, PartialEq, Eq, Structural, Debug)]
pub enum ConfigFormat {
    Json,
    Toml,
    Yaml,
    Plist,
}

/// The operating system a configuration location belongs to.
#[derive(Clone, Copy, PartialEq, Eq, Structural, Debug)]
pub enum Platform {
    Windows,
    MacOS,
    Linux,
    All,
}

/// One candidate configuration file location reported by a client plugin.
#[derive(Clone, Debug)]
pub struct ConfigPath {
    pub path: String,
    pub format: ConfigFormat,
    pub platform: Platform,
}

/// Why a merge failed: the document did not parse, the updated tree could not
/// be rendered, or the format needs a platform capability that is absent.
#[derive(Debug)]
pub enum MergeError {
    Parse(ConfigFormat, String),
    Serialize(ConfigFormat, String),
    Unsupported(ConfigFormat),
}

impl MergeError {
    /// The format the failing merge was asked for.
    pub fn format(&self) -> (r: ConfigFormat)
        ensures
            r == self.spec_format(),
    {
        match self {
            MergeError::Parse(f, _) => *f,
            MergeError::Serialize(f, _) => *f,
            MergeError::Unsupported(f) => *f,
        }
    }

    pub open spec fn spec_format(&self) -> ConfigFormat {
        match self {
            MergeError::Parse(f, _) => *f,
            MergeError::Serialize(f, _) => *f,
            MergeError::Unsupported(f) => *f,
        }
    }
}

/// Relies on directories::BaseDirs::new and home_dir: the user's home
/// directory as text, if the platform reports one. The result depends on the
/// environment, so nothing is promised of it.
#[verifier::external_body]
pub(crate) fn base_dirs_home() -> (r: Option<String>) {
    directories::BaseDirs::new().map(|b| b.home_dir().to_string_lossy().into_owned())
}

/// Relies on directories::BaseDirs::new and config_dir: the user's
/// configuration directory as text (the roaming application-data directory on
/// Windows), if the platform reports one. The result depends on the
/// environment, so nothing is promised of it.
#[verifier::external_body]
pub(crate) fn base_dirs_config() -> (r: Option<String>) {
    directories::BaseDirs::new().map(|b| b.config_dir().to_string_lossy().into_owned())
}

/// The platform a home directory's shape points at: backslashes or a drive
/// colon mean Windows, `/Users/` means macOS, another absolute path means
/// Linux, anything else is indeterminate.
pub open spec fn spec_platform_for_home(home: Option<Seq<char>>) -> Platform {
    match home {
        Option::None => Platform::All,
        Option::Some(h) => if text::spec_contains(h, "\\"@) || text::spec_contains(h, ":"@) {
            Platform::Windows
        } else if text::match_at(h, "/Users/"@, 0) {
            Platform::MacOS
        } else if h.len() > 0 && h[0] == '/' {
            Platform::Linux
        } else {
            Platform::All
        },
    }
}

/// Classifies a home directory string.
pub fn platform_for_home(home: &Option<String>) -> (r: Platform)
    ensures
        r == spec_platform_for_home(match home {
            Option::Some(h) => Option::Some(h@),
            Option::None => Option::None,
        }),
{
    match home {
        Option::None => Platform::All,
        Option::Some(h) => {
            if text::contains_text(h.as_str(), "\\") || text::contains_text(h.as_str(), ":") {
                Platform::Windows
            } else if text::starts_with_text(h.as_str(), "/Users/") {
                Platform::MacOS
            } else {
                let cs = text::chars_of(h.as_str());
                if cs.len() > 0 && cs[0] == '/' {
                    Platform::Linux
                } else {
                    Platform::All
                }
            }
        },
    }
}

impl Platform {
    /// The platform this process runs on, inferred from the shape of the home
    /// directory the environment reports. The result depends on the
    /// environment alone.
    pub fn current() -> (r: Platform) {
        let home = base_dirs_home();
        platform_for_home(&home)
    }
}

/// The canonical service registration: the command to launch, its arguments,
/// and an optional environment value.
pub struct KodegenConfig {
    pub command: String,
    pub args: Vec<String>,
    pub env: Option<serde_json::Value>,
}

impl Default for KodegenConfig {
    /// `kodegen --stdio` with no environment.
    fn default() -> (r: Self)
        ensures
            r.command@ == "kodegen"@,
            r.args@.len() == 1 && r.args@[0]@ == "--stdio"@,
            r.env is None,
    {
        let mut args: Vec<String> = Vec::new();
        args.push("--stdio".to_owned());
        KodegenConfig { command: "kodegen".to_owned(), args, env: Option::None }
    }
}

/// The alternative HTTP transport registration for clients that support it.
pub struct KodegenHttpConfig {
    pub transport_type: String,
    pub url: String,
}

impl Default for KodegenHttpConfig {
    /// Streamable HTTP against the hosted endpoint.
    fn default() -> (r: Self)
        ensures
            r.transport_type@ == "streamable-http"@,
            r.url@ == "https://kodegen.kodegen.dev:8443"@,
    {
        KodegenHttpConfig {
            transport_type: "streamable-http".to_owned(),
            url: "https://kodegen.kodegen.dev:8443".to_owned(),
        }
    }
}

/// The capability set every supported client implements: identity, where its
/// configuration lives, how installation is detected, and how the service
/// registration is injected into its configuration text.
pub trait ClientConfigPlugin: Sized {
    /// The stable identifier.
    spec fn spec_client_id(&self) -> Seq<char>;

    /// The human-readable name.
    spec fn spec_client_name(&self) -> Seq<char>;

    /// The subpath under a watch path whose presence marks a real
    /// installation, if the client needs one beyond the directory itself.
    spec fn spec_marker(&self) -> Option<Seq<char>>;

    /// Whether the client counts as installed given what the filesystem
    /// probe of a watch path (and of its marker subpath) found.
    spec fn spec_installed(&self, base_is_dir: bool, marker_is_dir: bool) -> bool;

    /// The client's preferred configuration format.
    spec fn spec_format(&self) -> ConfigFormat;

    /// When this client's injection succeeds.
    spec fn spec_inject_ok(&self, content: Seq<char>, format: ConfigFormat, platform: Platform) -> bool;

    /// What a successful injection returned.
    spec fn spec_inject_post(
        &self,
        content: Seq<char>,
        format: ConfigFormat,
        platform: Platform,
        out: Seq<char>,
    ) -> bool;

    fn client_id(&self) -> (r: String)
        ensures
            r@ == self.spec_client_id(),
    ;

    fn client_name(&self) -> (r: String)
        ensures
            r@ == self.spec_client_name(),
    ;

    /// The directories to watch for this client; computed fresh from the
    /// environment on every call.
    fn watch_paths(&self) -> (r: Vec<String>);

    /// The candidate configuration file locations; computed fresh from the
    /// environment on every call. Every candidate carries the client's own
    /// format.
    fn config_paths(&self) -> (r: Vec<ConfigPath>)
        ensures
            forall|i: int| 0 <= i < r@.len() ==> (#[trigger] r@[i]).format == self.spec_format(),
    ;

    /// The marker subpath a prober should check under each watch path.
    fn install_marker(&self) -> (r: Option<String>)
        ensures
            (r is Some) == (self.spec_marker() is Some),
            r matches Some(m) ==> (self.spec_marker() matches Option::Some(ms) && ms == m@),
    ;

    /// Decides installation from what a filesystem probe found: whether the
    /// watch path is a directory, and whether its marker subpath is one.
    fn is_installed(&self, base_is_dir: bool, marker_is_dir: bool) -> (r: bool)
        ensures
            r == self.spec_installed(base_is_dir, marker_is_dir),
    ;

    /// Injects the service registration into configuration text.
    fn inject_kodegen(&self, config_content: &str, format: ConfigFormat, platform: Platform) -> (r:
        Result<String, MergeError>)
        ensures
            (r is Ok) == self.spec_inject_ok(config_content@, format, platform),
            r matches Ok(out) ==> self.spec_inject_post(config_content@, format, platform, out@),
    ;

    fn config_format(&self) -> (r: ConfigFormat)
        ensures
            r == self.spec_format(),
    ;
}

} // verus!
