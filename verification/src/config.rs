use vstd::prelude::*;

use crate::json_doc;
use crate::kv::find_pair;
use crate::kv::lemma_find_upsert_other;
use crate::kv::upsert_pair;
use crate::plist_doc;
use crate::text;
use crate::toml_doc;
use crate::yaml_doc;
use crate::ConfigFormat;
use crate::MergeError;
use crate::Platform;

verus! {

/// The multi-format merge engine, holding one pre-built canonical
/// registration template per format and the platform it runs on.
pub struct ConfigMerger {
    platform: Platform,
    json_template: serde_json::Value,
    toml_template: toml::Value,
    yaml_template: serde_yaml::Value,
    plist_template: plist::Value,
}

/// Whether a merge succeeds, per format: a blank or parsable document does,
/// except that Plist needs macOS and a tree that XML rendering accepts.
pub open spec fn merge_ok_for(platform: Platform, format: ConfigFormat, s: Seq<char>) -> bool {
    match format {
        ConfigFormat::Json => text::spec_blank(s) || json_doc::json_parses(s),
        ConfigFormat::Toml => text::spec_blank(s) || toml_doc::toml_parses(s),
        ConfigFormat::Yaml => text::spec_blank(s) || yaml_doc::yaml_parses(s),
        ConfigFormat::Plist => platform == Platform::MacOS && (text::spec_blank(s)
            || plist_doc::plist_merge_ok(s)),
    }
}

/// What a successful merge returned, per format.
pub open spec fn merge_post_for(format: ConfigFormat, s: Seq<char>, out: Seq<char>) -> bool {
    match format {
        ConfigFormat::Json => json_doc::json_merge_post(s, out),
        ConfigFormat::Toml => toml_doc::toml_merge_post(s, out),
        ConfigFormat::Yaml => yaml_doc::yaml_merge_post(s, out),
        ConfigFormat::Plist => plist_doc::plist_merge_post(s, out),
    }
}

/// Which error a failed merge returned, per format and input.
pub open spec fn merge_err_for(
    platform: Platform,
    format: ConfigFormat,
    s: Seq<char>,
    e: MergeError,
) -> bool {
    if format == ConfigFormat::Plist && platform != Platform::MacOS {
        e matches MergeError::Unsupported(f) && f == ConfigFormat::Plist
    } else {
        match format {
            ConfigFormat::Json => e matches MergeError::Parse(f, _) && f == ConfigFormat::Json,
            ConfigFormat::Toml => e matches MergeError::Parse(f, _) && f == ConfigFormat::Toml,
            ConfigFormat::Yaml => e matches MergeError::Parse(f, _) && f == ConfigFormat::Yaml,
            ConfigFormat::Plist => if !text::spec_blank(s) && !plist_doc::plist_parses(s) {
                e matches MergeError::Parse(f, _) && f == ConfigFormat::Plist
            } else {
                e matches MergeError::Serialize(f, _) && f == ConfigFormat::Plist
            },
        }
    }
}

/// The document already carries the registration for this format.
pub open spec fn already_registered(format: ConfigFormat, s: Seq<char>) -> bool {
    match format {
        ConfigFormat::Json => json_doc::json_parses(s) && json_doc::json_has_entry(
            json_doc::json_value_of(s),
        ),
        ConfigFormat::Toml => toml_doc::toml_parses(s) && toml_doc::toml_has_entry(
            toml_doc::toml_value_of(s),
        ),
        ConfigFormat::Yaml => yaml_doc::yaml_parses(s) && yaml_doc::yaml_has_entry(
            yaml_doc::yaml_value_of(s),
        ),
        ConfigFormat::Plist => plist_doc::plist_parses(s) && plist_doc::plist_has_entry(
            plist_doc::plist_value_of(s),
        ),
    }
}

impl ConfigMerger {
    /// The templates are the canonical ones.
    pub closed spec fn wf(self) -> bool {
        &&& self.json_template == json_doc::spec_json_template()
        &&& self.toml_template == toml_doc::spec_toml_template()
        &&& self.yaml_template == yaml_doc::spec_yaml_template()
        &&& self.plist_template == plist_doc::spec_plist_template()
        &&& plist_doc::plist_renders(self.plist_template)
    }

    /// The platform the merger was built for.
    pub closed spec fn spec_platform(self) -> Platform {
        self.platform
    }

    /// Builds the merger for a platform, with the canonical registration
    /// template of every format pre-built once.
    pub fn new(platform: Platform) -> (r: Self)
        ensures
            r.wf(),
            r.spec_platform() == platform,
    {
        ConfigMerger {
            platform,
            json_template: json_doc::json_template(),
            toml_template: toml_doc::toml_template(),
            yaml_template: yaml_doc::yaml_template(),
            plist_template: plist_doc::plist_template(),
        }
    }

    /// Merges the canonical registration into `existing` under `format`: a
    /// blank document becomes a fresh one holding only the registration; a
    /// document that already carries it comes back unchanged, byte for byte;
    /// any other parsable document gains the entry and is re-rendered; a
    /// malformed document is rejected, as is Plist anywhere but on macOS.
    pub fn merge(&self, existing: &str, format: ConfigFormat) -> (r: Result<String, MergeError>)
        requires
            self.wf(),
        ensures
            r is Ok <==> merge_ok_for(self.spec_platform(), format, existing@),
            r matches Ok(out) ==> merge_post_for(format, existing@, out@) && merge_post_for(
                format,
                out@,
                out@,
            ),
            r matches Err(e) ==> merge_err_for(self.spec_platform(), format, existing@, e),
    {
        match format {
            ConfigFormat::Json => json_doc::merge_json_doc(&self.json_template, existing),
            ConfigFormat::Toml => toml_doc::merge_toml_doc(&self.toml_template, existing),
            ConfigFormat::Yaml => yaml_doc::merge_yaml_doc(&self.yaml_template, existing),
            ConfigFormat::Plist => {
                if self.platform == Platform::MacOS {
                    plist_doc::merge_plist_doc(&self.plist_template, existing)
                } else {
                    Err(MergeError::Unsupported(ConfigFormat::Plist))
                }
            },
        }
    }
}

impl Default for ConfigMerger {
    /// A merger for the platform this process runs on.
    fn default() -> (r: Self)
        ensures
            r.wf(),
    {
        ConfigMerger::new(Platform::current())
    }
}

/// Law: a merge's output is a function of its input — two outputs that both
/// satisfy the merge contract for the same document coincide.
pub proof fn lemma_merge_deterministic(
    format: ConfigFormat,
    s: Seq<char>,
    a: Seq<char>,
    b: Seq<char>,
)
    requires
        merge_post_for(format, s, a),
        merge_post_for(format, s, b),
    ensures
        a == b,
{
}

/// Law (idempotence): `merge` guarantees of each output that merging it again
/// satisfies the same contract with the output unchanged; with determinism
/// this makes merge(merge(doc)) == merge(doc), byte for byte.
pub proof fn lemma_merge_idempotent(format: ConfigFormat, s: Seq<char>, o1: Seq<char>, o2: Seq<char>)
    requires
        merge_post_for(format, s, o1),
        merge_post_for(format, o1, o1),
        merge_post_for(format, o1, o2),
    ensures
        o2 == o1,
{
    lemma_merge_deterministic(format, o1, o1, o2);
}

/// Law (fast-path purity): a non-blank document that already carries the
/// registration comes back byte-identical — no re-rendering touches it.
pub proof fn lemma_merge_fast_path(format: ConfigFormat, s: Seq<char>, out: Seq<char>)
    requires
        !text::spec_blank(s),
        already_registered(format, s),
        merge_post_for(format, s, out),
    ensures
        out == s,
{
}

/// Law (non-destructive merge, JSON): every top-level member other than
/// `mcpServers` keeps its value, and none is dropped.
pub proof fn lemma_merge_keeps_others_json(s: Seq<char>, out: Seq<char>, k: Seq<char>)
    requires
        !text::spec_blank(s),
        json_doc::json_parses(s),
        json_doc::json_merge_post(s, out),
        k != "mcpServers"@,
        json_doc::json_entries_of(json_doc::json_value_of(s)).contains_key(k),
    ensures
        json_doc::json_parses(out),
        json_doc::json_entries_of(json_doc::json_value_of(out)).contains_key(k),
        json_doc::json_entries_of(json_doc::json_value_of(out))[k] == json_doc::json_entries_of(
            json_doc::json_value_of(s),
        )[k],
{
}

/// Law (non-destructive merge, TOML): every top-level entry other than
/// `mcpServers` keeps its value, and none is dropped.
pub proof fn lemma_merge_keeps_others_toml(s: Seq<char>, out: Seq<char>, k: Seq<char>)
    requires
        !text::spec_blank(s),
        toml_doc::toml_parses(s),
        toml_doc::toml_merge_post(s, out),
        k != "mcpServers"@,
        toml_doc::toml_entries_of(toml_doc::toml_value_of(s)).contains_key(k),
    ensures
        toml_doc::toml_parses(out),
        toml_doc::toml_entries_of(toml_doc::toml_value_of(out)).contains_key(k),
        toml_doc::toml_entries_of(toml_doc::toml_value_of(out))[k] == toml_doc::toml_entries_of(
            toml_doc::toml_value_of(s),
        )[k],
{
}

/// Law (non-destructive merge, YAML): every top-level entry under a key other
/// than the `mcpServers` string keeps its binding.
pub proof fn lemma_merge_keeps_others_yaml(s: Seq<char>, out: Seq<char>, q: serde_yaml::Value)
    requires
        !text::spec_blank(s),
        yaml_doc::yaml_parses(s),
        yaml_doc::yaml_is_map(yaml_doc::yaml_value_of(s)),
        yaml_doc::yaml_merge_post(s, out),
        q != yaml_doc::yaml_string_of("mcpServers"@),
    ensures
        yaml_doc::yaml_parses(out),
        find_pair(yaml_doc::yaml_pairs_of(yaml_doc::yaml_value_of(out)), q) == find_pair(
            yaml_doc::yaml_pairs_of(yaml_doc::yaml_value_of(s)),
            q,
        ),
{
    let v0 = yaml_doc::yaml_value_of(s);
    if !yaml_doc::yaml_has_entry(v0) {
        let inner1 = yaml_doc::yaml_map_of(
            upsert_pair(
                yaml_doc::yaml_inner0(v0),
                yaml_doc::yaml_string_of("kodegen"@),
                yaml_doc::spec_yaml_template(),
            ),
        );
        if match find_pair(
            yaml_doc::yaml_pairs_of(v0),
            yaml_doc::yaml_string_of("mcpServers"@),
        ) {
            Option::Some(inner) => yaml_doc::yaml_is_map(inner),
            Option::None => true,
        } {
            lemma_find_upsert_other(
                yaml_doc::yaml_pairs_of(v0),
                yaml_doc::yaml_string_of("mcpServers"@),
                inner1,
                q,
            );
        }
    }
}

/// Law (non-destructive merge, Plist): every top-level entry under a key
/// other than `mcpServers` keeps its binding.
pub proof fn lemma_merge_keeps_others_plist(s: Seq<char>, out: Seq<char>, q: Seq<char>)
    requires
        !text::spec_blank(s),
        plist_doc::plist_parses(s),
        plist_doc::plist_is_map(plist_doc::plist_value_of(s)),
        plist_doc::plist_merge_post(s, out),
        q != "mcpServers"@,
    ensures
        plist_doc::plist_parses(out),
        find_pair(plist_doc::plist_pairs_of(plist_doc::plist_value_of(out)), q) == find_pair(
            plist_doc::plist_pairs_of(plist_doc::plist_value_of(s)),
            q,
        ),
{
    let v0 = plist_doc::plist_value_of(s);
    if !plist_doc::plist_has_entry(v0) {
        let inner1 = plist_doc::plist_map_of(
            upsert_pair(
                plist_doc::plist_inner0(v0),
                "kodegen"@,
                plist_doc::spec_plist_template(),
            ),
        );
        if match find_pair(plist_doc::plist_pairs_of(v0), "mcpServers"@) {
            Option::Some(inner) => plist_doc::plist_is_map(inner),
            Option::None => true,
        } {
            lemma_find_upsert_other(plist_doc::plist_pairs_of(v0), "mcpServers"@, inner1, q);
        }
    }
}

/// Law (empty input, JSON): a blank document merges into one holding exactly
/// the registration subtree with the one canonical entry.
pub proof fn lemma_merge_empty_json(s: Seq<char>, out: Seq<char>)
    requires
        text::spec_blank(s),
        json_doc::json_merge_post(s, out),
    ensures
        json_doc::json_parses(out),
        json_doc::json_is_map(json_doc::json_value_of(out)),
        json_doc::json_entries_of(json_doc::json_value_of(out)).dom() =~= set!["mcpServers"@],
        json_doc::json_is_map(
            json_doc::json_entries_of(json_doc::json_value_of(out))["mcpServers"@],
        ),
        json_doc::json_entries_of(
            json_doc::json_entries_of(json_doc::json_value_of(out))["mcpServers"@],
        ).dom() =~= set!["kodegen"@],
        json_doc::json_entries_of(
            json_doc::json_entries_of(json_doc::json_value_of(out))["mcpServers"@],
        )["kodegen"@] == json_doc::spec_json_template(),
{
}

/// Law (empty input, TOML): a blank document merges into one holding exactly
/// the registration subtree with the one canonical entry.
pub proof fn lemma_merge_empty_toml(s: Seq<char>, out: Seq<char>)
    requires
        text::spec_blank(s),
        toml_doc::toml_merge_post(s, out),
    ensures
        toml_doc::toml_parses(out),
        toml_doc::toml_is_map(toml_doc::toml_value_of(out)),
        toml_doc::toml_entries_of(toml_doc::toml_value_of(out)).dom() =~= set!["mcpServers"@],
        toml_doc::toml_is_map(
            toml_doc::toml_entries_of(toml_doc::toml_value_of(out))["mcpServers"@],
        ),
        toml_doc::toml_entries_of(
            toml_doc::toml_entries_of(toml_doc::toml_value_of(out))["mcpServers"@],
        ).dom() =~= set!["kodegen"@],
        toml_doc::toml_entries_of(
            toml_doc::toml_entries_of(toml_doc::toml_value_of(out))["mcpServers"@],
        )["kodegen"@] == toml_doc::spec_toml_template(),
{
}

/// Law (empty input, YAML): a blank document merges into one holding exactly
/// the registration subtree with the one canonical entry.
pub proof fn lemma_merge_empty_yaml(s: Seq<char>, out: Seq<char>)
    requires
        text::spec_blank(s),
        yaml_doc::yaml_merge_post(s, out),
    ensures
        yaml_doc::yaml_parses(out),
        yaml_doc::yaml_is_map(yaml_doc::yaml_value_of(out)),
        yaml_doc::yaml_pairs_of(yaml_doc::yaml_value_of(out)) =~= seq![
            (
                yaml_doc::yaml_string_of("mcpServers"@),
                yaml_doc::yaml_map_of(
                    seq![
                        (
                            yaml_doc::yaml_string_of("kodegen"@),
                            yaml_doc::spec_yaml_template(),
                        ),
                    ],
                ),
            ),
        ],
{
    let base = yaml_doc::yaml_map_of(yaml_doc::yaml_empty_pairs());
    let inner1 = yaml_doc::yaml_map_of(
        upsert_pair(
            yaml_doc::yaml_inner0(base),
            yaml_doc::yaml_string_of("kodegen"@),
            yaml_doc::spec_yaml_template(),
        ),
    );
    assert(upsert_pair(
        yaml_doc::yaml_inner0(base),
        yaml_doc::yaml_string_of("kodegen"@),
        yaml_doc::spec_yaml_template(),
    ) =~= seq![(yaml_doc::yaml_string_of("kodegen"@), yaml_doc::spec_yaml_template())]);
    assert(upsert_pair(
        yaml_doc::yaml_pairs_of(base),
        yaml_doc::yaml_string_of("mcpServers"@),
        inner1,
    ) =~= seq![(yaml_doc::yaml_string_of("mcpServers"@), inner1)]);
}

/// Law (empty input, Plist): a blank document merges into one holding exactly
/// the registration subtree with the one canonical entry.
pub proof fn lemma_merge_empty_plist(s: Seq<char>, out: Seq<char>)
    requires
        text::spec_blank(s),
        plist_doc::plist_merge_post(s, out),
    ensures
        plist_doc::plist_parses(out),
        plist_doc::plist_is_map(plist_doc::plist_value_of(out)),
        plist_doc::plist_pairs_of(plist_doc::plist_value_of(out)) =~= seq![
            (
                "mcpServers"@,
                plist_doc::plist_map_of(
                    seq![("kodegen"@, plist_doc::spec_plist_template())],
                ),
            ),
        ],
{
    let base = plist_doc::plist_map_of(plist_doc::plist_empty_pairs());
    let inner1 = plist_doc::plist_map_of(
        upsert_pair(
            plist_doc::plist_inner0(base),
            "kodegen"@,
            plist_doc::spec_plist_template(),
        ),
    );
    assert(upsert_pair(
        plist_doc::plist_inner0(base),
        "kodegen"@,
        plist_doc::spec_plist_template(),
    ) =~= seq![("kodegen"@, plist_doc::spec_plist_template())]);
    assert(upsert_pair(plist_doc::plist_pairs_of(base), "mcpServers"@, inner1) =~= seq![
        ("mcpServers"@, inner1),
    ]);
}

/// Law (cross-format equivalence): the canonical entries injected into JSON,
/// TOML and YAML carry the same command text, the same argument texts, and an
/// empty environment mapping.
pub proof fn lemma_templates_agree()
    ensures
        json_doc::json_template_entries()["command"@] == json_doc::json_string_of("kodegen"@),
        json_doc::json_template_entries()["args"@] == json_doc::json_string_array_of(
            seq!["--stdio"@],
        ),
        json_doc::json_template_entries()["env"@] == json_doc::json_map_of(
            json_doc::json_empty_entries(),
        ),
        json_doc::json_template_entries().dom() =~= set!["command"@, "args"@, "env"@],
        toml_doc::toml_template_entries()["command"@] == toml_doc::toml_string_of("kodegen"@),
        toml_doc::toml_template_entries()["args"@] == toml_doc::toml_string_array_of(
            seq!["--stdio"@],
        ),
        toml_doc::toml_template_entries()["env"@] == toml_doc::toml_map_of(
            toml_doc::toml_empty_entries(),
        ),
        toml_doc::toml_template_entries().dom() =~= set!["command"@, "args"@, "env"@],
        yaml_doc::yaml_template_pairs() =~= seq![
            (yaml_doc::yaml_string_of("command"@), yaml_doc::yaml_string_of("kodegen"@)),
            (
                yaml_doc::yaml_string_of("args"@),
                yaml_doc::yaml_string_array_of(seq!["--stdio"@]),
            ),
            (
                yaml_doc::yaml_string_of("env"@),
                yaml_doc::yaml_map_of(yaml_doc::yaml_empty_pairs()),
            ),
        ],
{
    reveal_strlit("command");
    reveal_strlit("args");
    reveal_strlit("env");
    assert("command"@.len() == 7);
    assert("args"@.len() == 4);
    assert("env"@.len() == 3);
}

} // verus!
