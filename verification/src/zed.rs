use vstd::prelude::*;

use crate::base_dirs_config;
use crate::base_dirs_home;
use crate::json_doc;
use crate::text;
use crate::ClientConfigPlugin;
use crate::ConfigFormat;
use crate::ConfigPath;
use crate::MergeError;
use crate::Platform;

verus! {

/// The Zed editor: it registers external tools under `context_servers` with
/// a `source`/`command`/`args` record instead of the generic shape, so its
/// injection performs its own fast-path-check-then-insert against the same
/// idempotency and untouched-siblings invariant.
pub struct ZedPlugin;

/// The members of Zed's registration entry:
/// `{"source": "custom", "command": "kodegen", "args": ["--stdio"]}`.
pub open spec fn zed_template_entries() -> Map<Seq<char>, serde_json::Value> {
    Map::<Seq<char>, serde_json::Value>::empty().insert(
        "source"@,
        json_doc::json_string_of("custom"@),
    ).insert("command"@, json_doc::json_string_of("kodegen"@)).insert(
        "args"@,
        json_doc::json_string_array_of(seq!["--stdio"@]),
    )
}

/// Zed's registration entry as a JSON value.
pub open spec fn spec_zed_template() -> serde_json::Value {
    json_doc::json_map_of(zed_template_entries())
}

/// The contract of a Zed injection that returned `out` for input `s`: the
/// generic JSON injection, under `context_servers` with Zed's entry.
pub open spec fn zed_merge_post(s: Seq<char>, out: Seq<char>) -> bool {
    json_doc::json_merge_post_in(s, out, "context_servers"@, spec_zed_template())
}

/// Builds Zed's registration entry.
pub fn zed_template() -> (r: serde_json::Value)
    ensures
        r == spec_zed_template(),
        json_doc::json_is_map(r),
        json_doc::json_entries_of(r) == zed_template_entries(),
{
    let mut t = json_doc::json_new_map();
    let source = json_doc::json_string("custom");
    json_doc::json_set(&mut t, "source", &source);
    let cmd = json_doc::json_string("kodegen");
    json_doc::json_set(&mut t, "command", &cmd);
    let mut args: Vec<String> = Vec::new();
    args.push("--stdio".to_owned());
    proof {
        assert(args@.map_values(|s: String| s@) =~= seq!["--stdio"@]);
    }
    let arr = json_doc::json_string_array(&args);
    json_doc::json_set(&mut t, "args", &arr);
    t
}

/// Where Zed keeps its settings, per platform: `~/.config/zed` (and the
/// application-support directory) on macOS, the configuration directory plus
/// `/zed` on Linux; Zed does not support Windows.
pub open spec fn spec_zed_base_dirs(
    platform: Platform,
    home: Option<Seq<char>>,
    config: Option<Seq<char>>,
) -> Seq<Seq<char>> {
    match platform {
        Platform::MacOS => match home {
            Option::Some(h) => seq![
                h + "/.config/zed"@,
                h + "/Library/Application Support/Zed"@,
            ],
            Option::None => Seq::empty(),
        },
        Platform::Linux => match config {
            Option::Some(c) => seq![c + "/zed"@],
            Option::None => Seq::empty(),
        },
        Platform::Windows | Platform::All => Seq::empty(),
    }
}

impl ZedPlugin {
    /// The settings directories for given environment values.
    pub fn base_dirs_for(
        &self,
        platform: Platform,
        home: &Option<String>,
        config: &Option<String>,
    ) -> (r: Vec<String>)
        ensures
            r@.map_values(|s: String| s@) == spec_zed_base_dirs(
                platform,
                match home {
                    Option::Some(h) => Option::Some(h@),
                    Option::None => Option::None,
                },
                match config {
                    Option::Some(c) => Option::Some(c@),
                    Option::None => Option::None,
                },
            ),
    {
        let mut r: Vec<String> = Vec::new();
        match platform {
            Platform::MacOS => {
                match home {
                    Option::Some(h) => {
                        r.push(text::concat_text(h.as_str(), "/.config/zed"));
                        r.push(text::concat_text(h.as_str(), "/Library/Application Support/Zed"));
                    },
                    Option::None => {},
                }
            },
            Platform::Linux => {
                match config {
                    Option::Some(c) => {
                        r.push(text::concat_text(c.as_str(), "/zed"));
                    },
                    Option::None => {},
                }
            },
            Platform::Windows | Platform::All => {},
        }
        proof {
            assert(r@.map_values(|s: String| s@) =~= spec_zed_base_dirs(
                platform,
                match home {
                    Option::Some(h) => Option::Some(h@),
                    Option::None => Option::None,
                },
                match config {
                    Option::Some(c) => Option::Some(c@),
                    Option::None => Option::None,
                },
            ));
        }
        r
    }
}

/// The candidate configuration files: each settings directory with
/// `/settings.json` appended, each tagged JSON and with the platform; on
/// macOS the `~/.config` location comes first.
pub open spec fn spec_zed_config_paths(
    platform: Platform,
    home: Option<Seq<char>>,
    config: Option<Seq<char>>,
) -> Seq<Seq<char>> {
    spec_zed_base_dirs(platform, home, config).map_values(
        |b: Seq<char>| b + "/settings.json"@,
    )
}

impl ZedPlugin {
    /// Assembles the candidate configuration paths for given environment
    /// values.
    pub fn config_paths_for(
        &self,
        platform: Platform,
        home: &Option<String>,
        config: &Option<String>,
    ) -> (r: Vec<ConfigPath>)
        ensures
            ({
                let paths = spec_zed_config_paths(
                    platform,
                    match home {
                        Option::Some(h) => Option::Some(h@),
                        Option::None => Option::None,
                    },
                    match config {
                        Option::Some(c) => Option::Some(c@),
                        Option::None => Option::None,
                    },
                );
                &&& r@.len() == paths.len()
                &&& forall|i: int|
                    0 <= i < r@.len() ==> (#[trigger] r@[i]).path@ == paths[i]
                        && r@[i].format == ConfigFormat::Json && r@[i].platform == platform
            }),
    {
        let ghost gh = match home {
            Option::Some(h) => Option::Some(h@),
            Option::None => Option::<Seq<char>>::None,
        };
        let ghost gc = match config {
            Option::Some(c) => Option::Some(c@),
            Option::None => Option::<Seq<char>>::None,
        };
        let bases = self.base_dirs_for(platform, home, config);
        let mut r: Vec<ConfigPath> = Vec::new();
        let mut i: usize = 0;
        while i < bases.len()
            invariant
                0 <= i <= bases@.len(),
                bases@.map_values(|s: String| s@) == spec_zed_base_dirs(platform, gh, gc),
                r@.len() == i,
                forall|j: int|
                    0 <= j < i ==> (#[trigger] r@[j]).path@ == spec_zed_config_paths(
                        platform,
                        gh,
                        gc,
                    )[j] && r@[j].format == ConfigFormat::Json && r@[j].platform == platform,
            decreases bases@.len() - i,
        {
            let path = text::concat_text(bases[i].as_str(), "/settings.json");
            proof {
                assert(bases@.map_values(|s: String| s@)[i as int] == bases@[i as int]@);
                assert(spec_zed_config_paths(platform, gh, gc)[i as int] == spec_zed_base_dirs(
                    platform,
                    gh,
                    gc,
                )[i as int] + "/settings.json"@);
            }
            r.push(ConfigPath { path, format: ConfigFormat::Json, platform });
            i = i + 1;
        }
        r
    }
}

impl ClientConfigPlugin for ZedPlugin {
    open spec fn spec_client_id(&self) -> Seq<char> {
        "zed"@
    }

    open spec fn spec_client_name(&self) -> Seq<char> {
        "Zed"@
    }

    open spec fn spec_marker(&self) -> Option<Seq<char>> {
        Option::None
    }

    open spec fn spec_installed(&self, base_is_dir: bool, marker_is_dir: bool) -> bool {
        base_is_dir
    }

    open spec fn spec_format(&self) -> ConfigFormat {
        ConfigFormat::Json
    }

    open spec fn spec_inject_ok(
        &self,
        content: Seq<char>,
        format: ConfigFormat,
        platform: Platform,
    ) -> bool {
        text::spec_blank(content) || json_doc::json_parses(content)
    }

    open spec fn spec_inject_post(
        &self,
        content: Seq<char>,
        format: ConfigFormat,
        platform: Platform,
        out: Seq<char>,
    ) -> bool {
        zed_merge_post(content, out)
    }

    fn client_id(&self) -> (r: String) {
        "zed".to_owned()
    }

    fn client_name(&self) -> (r: String) {
        "Zed".to_owned()
    }

    fn watch_paths(&self) -> (r: Vec<String>) {
        let platform = Platform::current();
        let home = base_dirs_home();
        let config_dir = base_dirs_config();
        self.base_dirs_for(platform, &home, &config_dir)
    }

    fn config_paths(&self) -> (r: Vec<ConfigPath>) {
        let platform = Platform::current();
        let home = base_dirs_home();
        let config_dir = base_dirs_config();
        self.config_paths_for(platform, &home, &config_dir)
    }

    fn install_marker(&self) -> (r: Option<String>) {
        Option::None
    }

    fn is_installed(&self, base_is_dir: bool, _marker_is_dir: bool) -> (r: bool) {
        base_is_dir
    }

    /// Zed's own fast-path-check-then-insert: the declared format is ignored,
    /// its settings are always JSON.
    fn inject_kodegen(&self, config_content: &str, _format: ConfigFormat, _platform: Platform) -> (
        r: Result<String, MergeError>) {
        let template = zed_template();
        json_doc::inject_json_entry(&template, "context_servers", config_content)
    }

    fn config_format(&self) -> (r: ConfigFormat) {
        ConfigFormat::Json
    }
}

/// Law (Zed fast-path purity): a document that already carries Zed's entry
/// comes back byte-identical.
pub proof fn lemma_zed_fast_path(s: Seq<char>, out: Seq<char>)
    requires
        !text::spec_blank(s),
        json_doc::json_parses(s),
        json_doc::json_has_entry_in(json_doc::json_value_of(s), "context_servers"@),
        zed_merge_post(s, out),
    ensures
        out == s,
{
}

/// Law (Zed non-destructiveness): every top-level member other than
/// `context_servers` keeps its value across Zed's injection.
pub proof fn lemma_zed_inject_keeps_others(s: Seq<char>, out: Seq<char>, k: Seq<char>)
    requires
        !text::spec_blank(s),
        json_doc::json_parses(s),
        zed_merge_post(s, out),
        k != "context_servers"@,
        json_doc::json_entries_of(json_doc::json_value_of(s)).contains_key(k),
    ensures
        json_doc::json_parses(out),
        json_doc::json_entries_of(json_doc::json_value_of(out)).contains_key(k),
        json_doc::json_entries_of(json_doc::json_value_of(out))[k]
            == json_doc::json_entries_of(json_doc::json_value_of(s))[k],
{
}

/// Law (Zed idempotence): Zed's injection guarantees of each output that
/// injecting again returns it unchanged, and its output is a function of the
/// input document.
pub proof fn lemma_zed_inject_idempotent(s: Seq<char>, o1: Seq<char>, o2: Seq<char>)
    requires
        zed_merge_post(s, o1),
        zed_merge_post(o1, o1),
        zed_merge_post(o1, o2),
    ensures
        o2 == o1,
{
}

} // verus!
