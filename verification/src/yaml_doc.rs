use vstd::prelude::*;

use crate::kv::find_pair;
use crate::kv::lemma_find_upsert_same;
use crate::kv::lemma_upsert_absent;
use crate::kv::upsert_pair;
use crate::text;
use crate::ConfigFormat;
use crate::MergeError;

verus! {

#[verifier::external_type_specification]
#[verifier::external_body]
pub struct ExYamlValue(serde_yaml::Value);

/// Whether `serde_yaml::from_str::<Value>` accepts this text.
pub uninterp spec fn yaml_parses(s: Seq<char>) -> bool;

/// The value `serde_yaml::from_str::<Value>` yields for this text.
pub uninterp spec fn yaml_value_of(s: Seq<char>) -> serde_yaml::Value;

/// The text `serde_yaml::to_string` renders this value as.
pub uninterp spec fn yaml_text_of(v: serde_yaml::Value) -> Seq<char>;

/// Whether the value is a YAML mapping.
pub uninterp spec fn yaml_is_map(v: serde_yaml::Value) -> bool;

/// The key/value pairs of a YAML mapping, in order; a mapping preserves
/// insertion order and its keys may be arbitrary YAML values.
pub uninterp spec fn yaml_pairs_of(v: serde_yaml::Value) -> Seq<
    (serde_yaml::Value, serde_yaml::Value),
>;

/// The YAML mapping holding exactly these pairs, in order.
pub uninterp spec fn yaml_map_of(pairs: Seq<(serde_yaml::Value, serde_yaml::Value)>) -> serde_yaml::Value;

/// The YAML string value holding this text.
pub uninterp spec fn yaml_string_of(s: Seq<char>) -> serde_yaml::Value;

/// The YAML sequence of string values holding these texts.
pub uninterp spec fn yaml_string_array_of(items: Seq<Seq<char>>) -> serde_yaml::Value;

/// The pairs of the empty YAML mapping.
pub open spec fn yaml_empty_pairs() -> Seq<(serde_yaml::Value, serde_yaml::Value)> {
    Seq::empty()
}

/// Relies on serde_yaml::from_str::<Value>: whether a text parses, and the
/// value it parses to, are functions of the text alone.
#[verifier::external_body]
pub(crate) fn yaml_parse(s: &str) -> (r: Result<serde_yaml::Value, String>)
    ensures
        r is Ok <==> yaml_parses(s@),
        r matches Ok(v) ==> v == yaml_value_of(s@),
{
    serde_yaml::from_str(s).map_err(|e| e.to_string())
}

/// Relies on serde_yaml::to_string::<Value>: rendering a Value cannot fail
/// (it writes to a string), is a function of the value, yields non-blank
/// text, and parsing the rendered text yields the same value, order included.
#[verifier::external_body]
pub(crate) fn yaml_render(v: &serde_yaml::Value) -> (r: String)
    ensures
        r@ == yaml_text_of(*v),
        yaml_parses(r@),
        yaml_value_of(r@) == *v,
        !text::spec_blank(r@),
{
    serde_yaml::to_string(v).expect("rendering a YAML value cannot fail")
}

/// Relies on serde_yaml::Mapping::get with a string key: on a mapping it
/// looks the key up; on anything else it returns None.
#[verifier::external_body]
pub(crate) fn yaml_get(v: &serde_yaml::Value, key: &str) -> (r: Option<serde_yaml::Value>)
    ensures
        r == (if yaml_is_map(*v) {
            find_pair(yaml_pairs_of(*v), yaml_string_of(key@))
        } else {
            Option::None
        }),
{
    match v.as_mapping() {
        Some(m) => m.get(serde_yaml::Value::String(key.to_string())).cloned(),
        None => None,
    }
}

/// Relies on serde_yaml::Value::is_mapping.
#[verifier::external_body]
pub(crate) fn yaml_is_mapping(v: &serde_yaml::Value) -> (r: bool)
    ensures
        r == yaml_is_map(*v),
{
    v.is_mapping()
}

/// Relies on serde_yaml::Mapping::insert with a string key: a present key is
/// rebound in place, an absent one is appended; any other value stays
/// unchanged.
#[verifier::external_body]
pub(crate) fn yaml_set(v: &mut serde_yaml::Value, key: &str, val: &serde_yaml::Value)
    ensures
        yaml_is_map(*old(v)) ==> *final(v) == yaml_map_of(
            upsert_pair(yaml_pairs_of(*old(v)), yaml_string_of(key@), *val),
        ),
        yaml_is_map(*old(v)) ==> yaml_is_map(*final(v)) && yaml_pairs_of(*final(v))
            == upsert_pair(yaml_pairs_of(*old(v)), yaml_string_of(key@), *val),
        !yaml_is_map(*old(v)) ==> *final(v) == *old(v),
{
    if let serde_yaml::Value::Mapping(m) = v {
        m.insert(serde_yaml::Value::String(key.to_string()), val.clone());
    }
}

/// Relies on serde_yaml::Mapping::new: the empty YAML mapping.
#[verifier::external_body]
pub(crate) fn yaml_new_map() -> (r: serde_yaml::Value)
    ensures
        r == yaml_map_of(yaml_empty_pairs()),
        yaml_is_map(r),
        yaml_pairs_of(r) == yaml_empty_pairs(),
{
    serde_yaml::Value::Mapping(serde_yaml::Mapping::new())
}

/// Relies on serde_yaml::Value::String: the string value for this text;
/// string values of different texts are different values.
#[verifier::external_body]
pub(crate) fn yaml_string(s: &str) -> (r: serde_yaml::Value)
    ensures
        r == yaml_string_of(s@),
        forall|t: Seq<char>| t != s@ ==> r != yaml_string_of(t),
{
    serde_yaml::Value::String(s.to_string())
}

/// Relies on serde_yaml::Value::Sequence over Value::String items: the
/// sequence of string values for these texts.
#[verifier::external_body]
pub(crate) fn yaml_string_array(items: &Vec<String>) -> (r: serde_yaml::Value)
    ensures
        r == yaml_string_array_of(items@.map_values(|s: String| s@)),
{
    serde_yaml::Value::Sequence(
        items.iter().map(|s| serde_yaml::Value::String(s.clone())).collect(),
    )
}

/// The pairs of the canonical YAML registration entry, in order.
pub open spec fn yaml_template_pairs() -> Seq<(serde_yaml::Value, serde_yaml::Value)> {
    seq![
        (yaml_string_of("command"@), yaml_string_of("kodegen"@)),
        (yaml_string_of("args"@), yaml_string_array_of(seq!["--stdio"@])),
        (yaml_string_of("env"@), yaml_map_of(yaml_empty_pairs())),
    ]
}

/// The canonical service registration entry in YAML:
/// `command: kodegen`, `args: [--stdio]`, `env: {}`.
pub open spec fn spec_yaml_template() -> serde_yaml::Value {
    yaml_map_of(yaml_template_pairs())
}

/// Builds the canonical YAML registration entry.
pub fn yaml_template() -> (r: serde_yaml::Value)
    ensures
        r == spec_yaml_template(),
        yaml_is_map(r),
{
    let mut t = yaml_new_map();
    let k_cmd = yaml_string("command");
    let k_args = yaml_string("args");
    let cmdv = yaml_string("kodegen");
    yaml_set(&mut t, "command", &cmdv);
    let mut args: Vec<String> = Vec::new();
    args.push("--stdio".to_owned());
    proof {
        assert(args@.map_values(|s: String| s@) =~= seq!["--stdio"@]);
        reveal_strlit("command");
        reveal_strlit("args");
        reveal_strlit("env");
        assert("command"@.len() == 7);
        assert("args"@.len() == 4);
        assert("env"@.len() == 3);
        assert("command"@ != "args"@);
        assert("command"@ != "env"@);
        assert("args"@ != "env"@);
    }
    let arr = yaml_string_array(&args);
    yaml_set(&mut t, "args", &arr);
    let env = yaml_new_map();
    yaml_set(&mut t, "env", &env);
    proof {
        let ck = yaml_string_of("command"@);
        let ak = yaml_string_of("args"@);
        let ek = yaml_string_of("env"@);
        let cv = yaml_string_of("kodegen"@);
        let av = yaml_string_array_of(seq!["--stdio"@]);
        let ev = yaml_map_of(yaml_empty_pairs());
        assert(ck != ak && ck != ek) by {
            assert(k_cmd == ck);
        }
        assert(ak != ek) by {
            assert(k_args == ak);
        }
        let p1 = upsert_pair(yaml_empty_pairs(), ck, cv);
        lemma_upsert_absent(yaml_empty_pairs(), ck, cv);
        assert(p1 =~= seq![(ck, cv)]);
        let p2 = upsert_pair(p1, ak, av);
        lemma_upsert_absent(p1, ak, av);
        assert(p2 =~= seq![(ck, cv), (ak, av)]);
        let p3 = upsert_pair(p2, ek, ev);
        lemma_upsert_absent(p2, ek, ev);
        assert(p3 =~= yaml_template_pairs());
        assert(yaml_pairs_of(t) == p3);
        assert(t == yaml_map_of(p3));
        assert(yaml_map_of(p3) == spec_yaml_template()) by {
            assert(p3 =~= yaml_template_pairs());
        }
    }
    t
}

/// The registration is already present: a top-level mapping whose
/// `mcpServers` entry is a mapping with a `kodegen` entry.
pub open spec fn yaml_has_entry(v: serde_yaml::Value) -> bool {
    &&& yaml_is_map(v)
    &&& find_pair(yaml_pairs_of(v), yaml_string_of("mcpServers"@)) matches Option::Some(inner)
        && yaml_is_map(inner) && find_pair(
        yaml_pairs_of(inner),
        yaml_string_of("kodegen"@),
    ) is Some
}

/// The value after the slow-path merge: unchanged unless the top level is a
/// mapping whose `mcpServers` entry is absent or a mapping; then `mcpServers`
/// gains (or becomes) a mapping with `kodegen` bound to the canonical entry.
pub open spec fn yaml_merged_v(v: serde_yaml::Value) -> serde_yaml::Value {
    if !yaml_is_map(v) {
        v
    } else {
        match find_pair(yaml_pairs_of(v), yaml_string_of("mcpServers"@)) {
            Option::Some(inner) => if !yaml_is_map(inner) {
                v
            } else {
                yaml_map_of(
                    upsert_pair(
                        yaml_pairs_of(v),
                        yaml_string_of("mcpServers"@),
                        yaml_map_of(
                            upsert_pair(
                                yaml_pairs_of(inner),
                                yaml_string_of("kodegen"@),
                                spec_yaml_template(),
                            ),
                        ),
                    ),
                )
            },
            Option::None => yaml_map_of(
                upsert_pair(
                    yaml_pairs_of(v),
                    yaml_string_of("mcpServers"@),
                    yaml_map_of(
                        upsert_pair(
                            yaml_empty_pairs(),
                            yaml_string_of("kodegen"@),
                            spec_yaml_template(),
                        ),
                    ),
                ),
            ),
        }
    }
}

/// The inner pairs the slow path starts from.
pub open spec fn yaml_inner0(v: serde_yaml::Value) -> Seq<(serde_yaml::Value, serde_yaml::Value)> {
    match find_pair(yaml_pairs_of(v), yaml_string_of("mcpServers"@)) {
        Option::Some(inner) => yaml_pairs_of(inner),
        Option::None => yaml_empty_pairs(),
    }
}

/// The observable shape of `yaml_merged_v(v)` whenever an insertion happens.
pub open spec fn yaml_merged_facts(v: serde_yaml::Value) -> bool {
    if yaml_is_map(v) && (match find_pair(yaml_pairs_of(v), yaml_string_of("mcpServers"@)) {
        Option::Some(inner) => yaml_is_map(inner),
        Option::None => true,
    }) {
        let inner1 = yaml_map_of(
            upsert_pair(yaml_inner0(v), yaml_string_of("kodegen"@), spec_yaml_template()),
        );
        &&& yaml_is_map(yaml_merged_v(v))
        &&& yaml_pairs_of(yaml_merged_v(v)) == upsert_pair(
            yaml_pairs_of(v),
            yaml_string_of("mcpServers"@),
            inner1,
        )
        &&& yaml_is_map(inner1)
        &&& yaml_pairs_of(inner1) == upsert_pair(
            yaml_inner0(v),
            yaml_string_of("kodegen"@),
            spec_yaml_template(),
        )
        &&& yaml_has_entry(yaml_merged_v(v))
    } else {
        true
    }
}

/// Everything the slow path guarantees of its output text.
pub open spec fn yaml_out_facts(v0: serde_yaml::Value, out: Seq<char>) -> bool {
    &&& out == yaml_text_of(yaml_merged_v(v0))
    &&& yaml_parses(out)
    &&& yaml_value_of(out) == yaml_merged_v(v0)
    &&& !text::spec_blank(out)
    &&& yaml_merged_facts(v0)
}

/// The full contract of a YAML merge that returned `out` for input `s`.
pub open spec fn yaml_merge_post(s: Seq<char>, out: Seq<char>) -> bool {
    if text::spec_blank(s) {
        let base = yaml_map_of(yaml_empty_pairs());
        &&& yaml_is_map(base)
        &&& yaml_pairs_of(base) == yaml_empty_pairs()
        &&& yaml_out_facts(base, out)
    } else if yaml_parses(s) {
        if yaml_has_entry(yaml_value_of(s)) {
            out == s
        } else {
            yaml_out_facts(yaml_value_of(s), out)
        }
    } else {
        false
    }
}

/// Merges the canonical registration into a YAML document. A blank document
/// counts as an empty mapping; if the registration is already present the
/// input comes back unchanged, byte for byte; otherwise the updated tree is
/// rendered afresh. A non-blank document that does not parse is rejected.
pub fn merge_yaml_doc(template: &serde_yaml::Value, existing: &str) -> (r: Result<
    String,
    MergeError,
>)
    requires
        *template == spec_yaml_template(),
    ensures
        r is Ok <==> (text::spec_blank(existing@) || yaml_parses(existing@)),
        r matches Ok(out) ==> yaml_merge_post(existing@, out@) && yaml_merge_post(out@, out@),
        r matches Err(e) ==> e matches MergeError::Parse(ConfigFormat::Yaml, _),
{
    if text::is_blank(existing) {
        let mut inner = yaml_new_map();
        yaml_set(&mut inner, "kodegen", template);
        let mut v = yaml_new_map();
        yaml_set(&mut v, "mcpServers", &inner);
        proof {
            lemma_find_upsert_same(yaml_empty_pairs(), yaml_string_of("mcpServers"@), inner);
            lemma_find_upsert_same(
                yaml_empty_pairs(),
                yaml_string_of("kodegen"@),
                spec_yaml_template(),
            );
        }
        let out = yaml_render(&v);
        Ok(out)
    } else {
        match yaml_parse(existing) {
            Err(msg) => Err(MergeError::Parse(ConfigFormat::Yaml, msg)),
            Ok(v0) => {
                let mut v = v0;
                match yaml_get(&v, "mcpServers") {
                    Some(servers) => {
                        match yaml_get(&servers, "kodegen") {
                            Some(_) => {
                                return Ok(existing.to_owned());
                            },
                            None => {},
                        }
                        if yaml_is_mapping(&servers) {
                            let mut i2 = servers;
                            yaml_set(&mut i2, "kodegen", template);
                            yaml_set(&mut v, "mcpServers", &i2);
                            proof {
                                lemma_find_upsert_same(
                                    yaml_pairs_of(v0),
                                    yaml_string_of("mcpServers"@),
                                    i2,
                                );
                                lemma_find_upsert_same(
                                    yaml_inner0(v0),
                                    yaml_string_of("kodegen"@),
                                    spec_yaml_template(),
                                );
                            }
                        }
                    },
                    None => {
                        if yaml_is_mapping(&v) {
                            let mut i2 = yaml_new_map();
                            yaml_set(&mut i2, "kodegen", template);
                            yaml_set(&mut v, "mcpServers", &i2);
                            proof {
                                lemma_find_upsert_same(
                                    yaml_pairs_of(v0),
                                    yaml_string_of("mcpServers"@),
                                    i2,
                                );
                                lemma_find_upsert_same(
                                    yaml_empty_pairs(),
                                    yaml_string_of("kodegen"@),
                                    spec_yaml_template(),
                                );
                            }
                        }
                    },
                }
                let out = yaml_render(&v);
                Ok(out)
            },
        }
    }
}

} // verus!
