use vstd::prelude::*;

use crate::text;
use crate::ConfigFormat;
use crate::MergeError;

verus! {

#[verifier::external_type_specification]
#[verifier::external_body]
pub struct ExJsonValue(serde_json::Value);

/// Whether `serde_json::from_str::<Value>` accepts this text.
pub uninterp spec fn json_parses(s: Seq<char>) -> bool;

/// The value `serde_json::from_str::<Value>` yields for this text.
pub uninterp spec fn json_value_of(s: Seq<char>) -> serde_json::Value;

/// The text `serde_json::to_string_pretty` renders this value as.
pub uninterp spec fn json_text_of(v: serde_json::Value) -> Seq<char>;

/// Whether the value is a JSON object.
pub uninterp spec fn json_is_map(v: serde_json::Value) -> bool;

/// The entries of a JSON object, keyed by member name.
pub uninterp spec fn json_entries_of(v: serde_json::Value) -> Map<Seq<char>, serde_json::Value>;

/// The JSON object holding exactly these entries.
pub uninterp spec fn json_map_of(m: Map<Seq<char>, serde_json::Value>) -> serde_json::Value;

/// The JSON string value holding this text.
pub uninterp spec fn json_string_of(s: Seq<char>) -> serde_json::Value;

/// The JSON array of string values holding these texts.
pub uninterp spec fn json_string_array_of(items: Seq<Seq<char>>) -> serde_json::Value;

/// The entries of the empty JSON object.
pub open spec fn json_empty_entries() -> Map<Seq<char>, serde_json::Value> {
    Map::empty()
}

/// Relies on serde_json::from_str::<Value>: whether a text parses, and the
/// value it parses to, are functions of the text alone.
#[verifier::external_body]
pub(crate) fn json_parse(s: &str) -> (r: Result<serde_json::Value, String>)
    ensures
        r is Ok <==> json_parses(s@),
        r matches Ok(v) ==> v == json_value_of(s@),
{
    serde_json::from_str(s).map_err(|e| e.to_string())
}

/// Relies on serde_json::to_string_pretty::<Value>: rendering a Value cannot
/// fail (its maps have string keys), is a function of the value, yields
/// non-blank text, and parsing the rendered text yields the value again.
#[verifier::external_body]
pub(crate) fn json_render(v: &serde_json::Value) -> (r: String)
    ensures
        r@ == json_text_of(*v),
        json_parses(r@),
        json_value_of(r@) == *v,
        !text::spec_blank(r@),
{
    serde_json::to_string_pretty(v).expect("rendering a JSON value cannot fail")
}

/// Relies on serde_json::Value::get: on an object it looks the member up; on
/// anything else it returns None.
#[verifier::external_body]
pub(crate) fn json_get(v: &serde_json::Value, key: &str) -> (r: Option<serde_json::Value>)
    ensures
        r is Some <==> (json_is_map(*v) && json_entries_of(*v).contains_key(key@)),
        r matches Some(w) ==> w == json_entries_of(*v)[key@],
{
    v.get(key).cloned()
}

/// Relies on serde_json::Value::is_object.
#[verifier::external_body]
pub(crate) fn json_is_object(v: &serde_json::Value) -> (r: bool)
    ensures
        r == json_is_map(*v),
{
    v.is_object()
}

/// Relies on serde_json::Map::insert: on an object the entries afterwards are
/// the old entries with `key` bound to `val`; any other value stays unchanged.
#[verifier::external_body]
pub(crate) fn json_set(v: &mut serde_json::Value, key: &str, val: &serde_json::Value)
    ensures
        json_is_map(*old(v)) ==> *final(v) == json_map_of(
            json_entries_of(*old(v)).insert(key@, *val),
        ),
        json_is_map(*old(v)) ==> json_is_map(*final(v)) && json_entries_of(*final(v))
            == json_entries_of(*old(v)).insert(key@, *val),
        !json_is_map(*old(v)) ==> *final(v) == *old(v),
{
    if let serde_json::Value::Object(m) = v {
        m.insert(key.to_string(), val.clone());
    }
}

/// Relies on serde_json::Map::new: the empty JSON object.
#[verifier::external_body]
pub(crate) fn json_new_map() -> (r: serde_json::Value)
    ensures
        r == json_map_of(json_empty_entries()),
        json_is_map(r),
        json_entries_of(r) == json_empty_entries(),
{
    serde_json::Value::Object(serde_json::Map::new())
}

/// Relies on serde_json::Value::String: the string value for this text.
#[verifier::external_body]
pub(crate) fn json_string(s: &str) -> (r: serde_json::Value)
    ensures
        r == json_string_of(s@),
{
    serde_json::Value::String(s.to_string())
}

/// Relies on serde_json::Value::Array over Value::String items: the array of
/// string values for these texts.
#[verifier::external_body]
pub(crate) fn json_string_array(items: &Vec<String>) -> (r: serde_json::Value)
    ensures
        r == json_string_array_of(items@.map_values(|s: String| s@)),
{
    serde_json::Value::Array(
        items.iter().map(|s| serde_json::Value::String(s.clone())).collect(),
    )
}

/// The members of the canonical JSON registration entry.
pub open spec fn json_template_entries() -> Map<Seq<char>, serde_json::Value> {
    Map::<Seq<char>, serde_json::Value>::empty().insert(
        "command"@,
        json_string_of("kodegen"@),
    ).insert("args"@, json_string_array_of(seq!["--stdio"@])).insert(
        "env"@,
        json_map_of(json_empty_entries()),
    )
}

/// The canonical service registration entry in JSON:
/// `{"command": "kodegen", "args": ["--stdio"], "env": {}}`.
pub open spec fn spec_json_template() -> serde_json::Value {
    json_map_of(json_template_entries())
}

/// Builds the canonical JSON registration entry.
pub fn json_template() -> (r: serde_json::Value)
    ensures
        r == spec_json_template(),
        json_is_map(r),
        json_entries_of(r) == json_template_entries(),
{
    let mut t = json_new_map();
    let cmd = json_string("kodegen");
    json_set(&mut t, "command", &cmd);
    let mut args: Vec<String> = Vec::new();
    args.push("--stdio".to_owned());
    proof {
        assert(args@.map_values(|s: String| s@) =~= seq!["--stdio"@]);
    }
    let arr = json_string_array(&args);
    json_set(&mut t, "args", &arr);
    let env = json_new_map();
    json_set(&mut t, "env", &env);
    t
}

/// The registration is already present: a top-level object whose `outer`
/// member is an object with a `kodegen` member.
pub open spec fn json_has_entry_in(v: serde_json::Value, outer: Seq<char>) -> bool {
    &&& json_is_map(v)
    &&& json_entries_of(v).contains_key(outer)
    &&& json_is_map(json_entries_of(v)[outer])
    &&& json_entries_of(json_entries_of(v)[outer]).contains_key("kodegen"@)
}

/// `json_has_entry_in` at the generic registrations key.
pub open spec fn json_has_entry(v: serde_json::Value) -> bool {
    json_has_entry_in(v, "mcpServers"@)
}

/// The value after the slow-path merge: unchanged unless the top level is an
/// object whose `outer` member is absent or an object; then `outer` gains (or
/// becomes) an object with `kodegen` bound to the template `t`.
pub open spec fn json_merged_v_in(v: serde_json::Value, outer: Seq<char>, t: serde_json::Value) -> serde_json::Value {
    if !json_is_map(v) {
        v
    } else if json_entries_of(v).contains_key(outer) && !json_is_map(
        json_entries_of(v)[outer],
    ) {
        v
    } else {
        let inner0 = if json_entries_of(v).contains_key(outer) {
            json_entries_of(json_entries_of(v)[outer])
        } else {
            Map::<Seq<char>, serde_json::Value>::empty()
        };
        json_map_of(
            json_entries_of(v).insert(
                outer,
                json_map_of(inner0.insert("kodegen"@, t)),
            ),
        )
    }
}

/// `json_merged_v_in` at the generic registrations key and canonical entry.
pub open spec fn json_merged_v(v: serde_json::Value) -> serde_json::Value {
    json_merged_v_in(v, "mcpServers"@, spec_json_template())
}

/// The observable shape of `json_merged_v_in(v, outer, t)` whenever an
/// insertion happens.
pub open spec fn json_merged_facts_in(v: serde_json::Value, outer: Seq<char>, t: serde_json::Value) -> bool {
    if json_is_map(v) && (json_entries_of(v).contains_key(outer) ==> json_is_map(
        json_entries_of(v)[outer],
    )) {
        let inner0 = if json_entries_of(v).contains_key(outer) {
            json_entries_of(json_entries_of(v)[outer])
        } else {
            Map::<Seq<char>, serde_json::Value>::empty()
        };
        let inner1 = json_map_of(inner0.insert("kodegen"@, t));
        &&& json_is_map(json_merged_v_in(v, outer, t))
        &&& json_entries_of(json_merged_v_in(v, outer, t)) == json_entries_of(v).insert(outer, inner1)
        &&& json_is_map(inner1)
        &&& json_entries_of(inner1) == inner0.insert("kodegen"@, t)
    } else {
        true
    }
}

/// Everything the slow path guarantees of its output text.
pub open spec fn json_out_facts_in(
    v0: serde_json::Value,
    out: Seq<char>,
    outer: Seq<char>,
    t: serde_json::Value,
) -> bool {
    &&& out == json_text_of(json_merged_v_in(v0, outer, t))
    &&& json_parses(out)
    &&& json_value_of(out) == json_merged_v_in(v0, outer, t)
    &&& !text::spec_blank(out)
    &&& json_merged_facts_in(v0, outer, t)
}

/// The full contract of a JSON injection under `outer` with template `t`
/// that returned `out` for input `s`.
pub open spec fn json_merge_post_in(
    s: Seq<char>,
    out: Seq<char>,
    outer: Seq<char>,
    t: serde_json::Value,
) -> bool {
    if text::spec_blank(s) {
        let base = json_map_of(Map::<Seq<char>, serde_json::Value>::empty());
        &&& json_is_map(base)
        &&& json_entries_of(base) == Map::<Seq<char>, serde_json::Value>::empty()
        &&& json_out_facts_in(base, out, outer, t)
    } else if json_parses(s) {
        if json_has_entry_in(json_value_of(s), outer) {
            out == s
        } else {
            json_out_facts_in(json_value_of(s), out, outer, t)
        }
    } else {
        false
    }
}

/// `json_merge_post_in` at the generic registrations key and canonical entry.
pub open spec fn json_merge_post(s: Seq<char>, out: Seq<char>) -> bool {
    json_merge_post_in(s, out, "mcpServers"@, spec_json_template())
}

/// Injects a `kodegen` entry holding `template` into the object under
/// `outer_key` of a JSON document. A blank document counts as an empty
/// object; if the entry is already present the input comes back unchanged,
/// byte for byte; otherwise the updated tree is rendered afresh. A non-blank
/// document that does not parse is rejected.
pub fn inject_json_entry(template: &serde_json::Value, outer_key: &str, existing: &str) -> (r:
    Result<String, MergeError>)
    ensures
        r is Ok <==> (text::spec_blank(existing@) || json_parses(existing@)),
        r matches Ok(out) ==> json_merge_post_in(existing@, out@, outer_key@, *template)
            && json_merge_post_in(out@, out@, outer_key@, *template),
        r matches Err(e) ==> e matches MergeError::Parse(ConfigFormat::Json, _),
{
    if text::is_blank(existing) {
        let mut inner = json_new_map();
        json_set(&mut inner, "kodegen", template);
        let mut v = json_new_map();
        json_set(&mut v, outer_key, &inner);
        let out = json_render(&v);
        Ok(out)
    } else {
        match json_parse(existing) {
            Err(msg) => Err(MergeError::Parse(ConfigFormat::Json, msg)),
            Ok(v0) => {
                let mut v = v0;
                match json_get(&v, outer_key) {
                    Some(servers) => {
                        match json_get(&servers, "kodegen") {
                            Some(_) => {
                                return Ok(existing.to_owned());
                            },
                            None => {},
                        }
                        if json_is_object(&servers) {
                            let mut i2 = servers;
                            json_set(&mut i2, "kodegen", template);
                            json_set(&mut v, outer_key, &i2);
                        }
                    },
                    None => {
                        if json_is_object(&v) {
                            let mut i2 = json_new_map();
                            json_set(&mut i2, "kodegen", template);
                            json_set(&mut v, outer_key, &i2);
                        }
                    },
                }
                let out = json_render(&v);
                Ok(out)
            },
        }
    }
}

/// Merges the canonical registration into a JSON document under the generic
/// registrations key.
pub fn merge_json_doc(template: &serde_json::Value, existing: &str) -> (r: Result<
    String,
    MergeError,
>)
    requires
        *template == spec_json_template(),
    ensures
        r is Ok <==> (text::spec_blank(existing@) || json_parses(existing@)),
        r matches Ok(out) ==> json_merge_post(existing@, out@) && json_merge_post(out@, out@),
        r matches Err(e) ==> e matches MergeError::Parse(ConfigFormat::Json, _),
{
    inject_json_entry(template, "mcpServers", existing)
}

} // verus!
