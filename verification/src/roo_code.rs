use vstd::prelude::*;

use crate::base_dirs_config;
use crate::base_dirs_home;
use crate::config;
use crate::config::ConfigMerger;
use crate::text;
use crate::ClientConfigPlugin;
use crate::ConfigFormat;
use crate::ConfigPath;
use crate::MergeError;
use crate::Platform;

verus! {

/// The Roo Code extension for Visual Studio Code: its settings live in the
/// editor's `settings.json`, and its presence shows as a global-storage
/// directory that only exists once the extension has run.
pub struct RooCodePlugin;

/// Where Roo Code's editor keeps its data, one directory per platform:
/// the roaming configuration directory plus `/Code` on Windows and Linux,
/// the application-support directory on macOS.
pub open spec fn spec_roo_base_dirs(
    platform: Platform,
    home: Option<Seq<char>>,
    config: Option<Seq<char>>,
) -> Seq<Seq<char>> {
    match platform {
        Platform::Windows | Platform::Linux => match config {
            Option::Some(c) => seq![c + "/Code"@],
            Option::None => Seq::empty(),
        },
        Platform::MacOS => match home {
            Option::Some(h) => seq![h + "/Library/Application Support/Code"@],
            Option::None => Seq::empty(),
        },
        Platform::All => Seq::empty(),
    }
}

impl RooCodePlugin {
    /// The editor data directories for given environment values.
    pub fn base_dirs_for(
        &self,
        platform: Platform,
        home: &Option<String>,
        config: &Option<String>,
    ) -> (r: Vec<String>)
        ensures
            r@.map_values(|s: String| s@) == spec_roo_base_dirs(
                platform,
                match home {
                    Option::Some(h) => Option::Some(h@),
                    Option::None => Option::None,
                },
                match config {
                    Option::Some(c) => Option::Some(c@),
                    Option::None => Option::None,
                },
            ),
    {
        let mut r: Vec<String> = Vec::new();
        match platform {
            Platform::Windows | Platform::Linux => {
                match config {
                    Option::Some(c) => {
                        r.push(text::concat_text(c.as_str(), "/Code"));
                    },
                    Option::None => {},
                }
            },
            Platform::MacOS => {
                match home {
                    Option::Some(h) => {
                        r.push(text::concat_text(h.as_str(), "/Library/Application Support/Code"));
                    },
                    Option::None => {},
                }
            },
            Platform::All => {},
        }
        proof {
            assert(r@.map_values(|s: String| s@) =~= spec_roo_base_dirs(
                platform,
                match home {
                    Option::Some(h) => Option::Some(h@),
                    Option::None => Option::None,
                },
                match config {
                    Option::Some(c) => Option::Some(c@),
                    Option::None => Option::None,
                },
            ));
        }
        r
    }
}

/// The candidate configuration files: each editor data directory with
/// `/User/settings.json` appended, each tagged JSON and with the platform.
pub open spec fn spec_roo_config_paths(
    platform: Platform,
    home: Option<Seq<char>>,
    config: Option<Seq<char>>,
) -> Seq<Seq<char>> {
    spec_roo_base_dirs(platform, home, config).map_values(
        |b: Seq<char>| b + "/User/settings.json"@,
    )
}

impl RooCodePlugin {
    /// Assembles the candidate configuration paths for given environment
    /// values.
    pub fn config_paths_for(
        &self,
        platform: Platform,
        home: &Option<String>,
        config: &Option<String>,
    ) -> (r: Vec<ConfigPath>)
        ensures
            ({
                let paths = spec_roo_config_paths(
                    platform,
                    match home {
                        Option::Some(h) => Option::Some(h@),
                        Option::None => Option::None,
                    },
                    match config {
                        Option::Some(c) => Option::Some(c@),
                        Option::None => Option::None,
                    },
                );
                &&& r@.len() == paths.len()
                &&& forall|i: int|
                    0 <= i < r@.len() ==> (#[trigger] r@[i]).path@ == paths[i]
                        && r@[i].format == ConfigFormat::Json && r@[i].platform == platform
            }),
    {
        let ghost gh = match home {
            Option::Some(h) => Option::Some(h@),
            Option::None => Option::<Seq<char>>::None,
        };
        let ghost gc = match config {
            Option::Some(c) => Option::Some(c@),
            Option::None => Option::<Seq<char>>::None,
        };
        let bases = self.base_dirs_for(platform, home, config);
        let mut r: Vec<ConfigPath> = Vec::new();
        let mut i: usize = 0;
        while i < bases.len()
            invariant
                0 <= i <= bases@.len(),
                bases@.map_values(|s: String| s@) == spec_roo_base_dirs(platform, gh, gc),
                r@.len() == i,
                forall|j: int|
                    0 <= j < i ==> (#[trigger] r@[j]).path@ == spec_roo_config_paths(
                        platform,
                        gh,
                        gc,
                    )[j] && r@[j].format == ConfigFormat::Json && r@[j].platform == platform,
            decreases bases@.len() - i,
        {
            let path = text::concat_text(bases[i].as_str(), "/User/settings.json");
            proof {
                assert(bases@.map_values(|s: String| s@)[i as int] == bases@[i as int]@);
                assert(spec_roo_config_paths(platform, gh, gc)[i as int] == spec_roo_base_dirs(
                    platform,
                    gh,
                    gc,
                )[i as int] + "/User/settings.json"@);
            }
            r.push(ConfigPath { path, format: ConfigFormat::Json, platform });
            i = i + 1;
        }
        r
    }
}

impl ClientConfigPlugin for RooCodePlugin {
    open spec fn spec_client_id(&self) -> Seq<char> {
        "roo-code"@
    }

    open spec fn spec_client_name(&self) -> Seq<char> {
        "Roo Code"@
    }

    open spec fn spec_marker(&self) -> Option<Seq<char>> {
        Option::Some("User/globalStorage/rooveterinaryinc.roo-cline"@)
    }

    open spec fn spec_installed(&self, base_is_dir: bool, marker_is_dir: bool) -> bool {
        base_is_dir && marker_is_dir
    }

    open spec fn spec_format(&self) -> ConfigFormat {
        ConfigFormat::Json
    }

    open spec fn spec_inject_ok(
        &self,
        content: Seq<char>,
        format: ConfigFormat,
        platform: Platform,
    ) -> bool {
        config::merge_ok_for(platform, format, content)
    }

    open spec fn spec_inject_post(
        &self,
        content: Seq<char>,
        format: ConfigFormat,
        platform: Platform,
        out: Seq<char>,
    ) -> bool {
        config::merge_post_for(format, content, out)
    }

    fn client_id(&self) -> (r: String) {
        "roo-code".to_owned()
    }

    fn client_name(&self) -> (r: String) {
        "Roo Code".to_owned()
    }

    fn watch_paths(&self) -> (r: Vec<String>) {
        let platform = Platform::current();
        let home = base_dirs_home();
        let config_dir = base_dirs_config();
        self.base_dirs_for(platform, &home, &config_dir)
    }

    fn config_paths(&self) -> (r: Vec<ConfigPath>) {
        let platform = Platform::current();
        let home = base_dirs_home();
        let config_dir = base_dirs_config();
        self.config_paths_for(platform, &home, &config_dir)
    }

    fn install_marker(&self) -> (r: Option<String>) {
        Option::Some("User/globalStorage/rooveterinaryinc.roo-cline".to_owned())
    }

    fn is_installed(&self, base_is_dir: bool, marker_is_dir: bool) -> (r: bool) {
        base_is_dir && marker_is_dir
    }

    fn inject_kodegen(&self, config_content: &str, format: ConfigFormat, platform: Platform) -> (r:
        Result<String, MergeError>) {
        let merger = ConfigMerger::new(platform);
        merger.merge(config_content, format)
    }

    fn config_format(&self) -> (r: ConfigFormat) {
        ConfigFormat::Json
    }
}

} // verus!
