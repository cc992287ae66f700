use vstd::prelude::*;

use crate::text;
use crate::ConfigFormat;
use crate::MergeError;

verus! {

#[verifier::external_type_specification]
#[verifier::external_body]
pub struct ExTomlValue(toml::Value);

/// Whether `toml::from_str::<Value>` accepts this text.
pub uninterp spec fn toml_parses(s: Seq<char>) -> bool;

/// The value `toml::from_str::<Value>` yields for this text.
pub uninterp spec fn toml_value_of(s: Seq<char>) -> toml::Value;

/// The text `toml::to_string_pretty` renders this value as.
pub uninterp spec fn toml_text_of(v: toml::Value) -> Seq<char>;

/// Whether the value is a TOML table.
pub uninterp spec fn toml_is_map(v: toml::Value) -> bool;

/// The entries of a TOML table, keyed by key text.
pub uninterp spec fn toml_entries_of(v: toml::Value) -> Map<Seq<char>, toml::Value>;

/// The TOML table holding exactly these entries.
pub uninterp spec fn toml_map_of(m: Map<Seq<char>, toml::Value>) -> toml::Value;

/// The TOML string value holding this text.
pub uninterp spec fn toml_string_of(s: Seq<char>) -> toml::Value;

/// The TOML array of string values holding these texts.
pub uninterp spec fn toml_string_array_of(items: Seq<Seq<char>>) -> toml::Value;

/// The entries of the empty TOML table.
pub open spec fn toml_empty_entries() -> Map<Seq<char>, toml::Value> {
    Map::empty()
}

/// Relies on toml::from_str::<Value>: whether a text parses, and the value it
/// parses to, are functions of the text alone; a TOML document is always a
/// table at the top level.
#[verifier::external_body]
pub(crate) fn toml_parse(s: &str) -> (r: Result<toml::Value, String>)
    ensures
        r is Ok <==> toml_parses(s@),
        r matches Ok(v) ==> v == toml_value_of(s@),
        r matches Ok(v) ==> toml_is_map(v),
{
    toml::from_str(s).map_err(|e| e.to_string())
}

/// Relies on toml::to_string_pretty::<Value>: rendering a table cannot fail
/// (its keys are strings and every TOML value is representable), is a function
/// of the value, yields non-blank text whenever the table has a key, and
/// parsing the rendered text yields the value again.
#[verifier::external_body]
pub(crate) fn toml_render(v: &toml::Value) -> (r: String)
    requires
        toml_is_map(*v),
    ensures
        r@ == toml_text_of(*v),
        toml_parses(r@),
        toml_value_of(r@) == *v,
        toml_entries_of(*v).dom() != Set::<Seq<char>>::empty() ==> !text::spec_blank(r@),
{
    toml::to_string_pretty(v).expect("rendering a TOML table cannot fail")
}

/// Relies on toml::Value::get: on a table it looks the key up; on anything
/// else it returns None.
#[verifier::external_body]
pub(crate) fn toml_get(v: &toml::Value, key: &str) -> (r: Option<toml::Value>)
    ensures
        r is Some <==> (toml_is_map(*v) && toml_entries_of(*v).contains_key(key@)),
        r matches Some(w) ==> w == toml_entries_of(*v)[key@],
{
    v.get(key).cloned()
}

/// Relies on toml::Value::is_table.
#[verifier::external_body]
pub(crate) fn toml_is_table(v: &toml::Value) -> (r: bool)
    ensures
        r == toml_is_map(*v),
{
    v.is_table()
}

/// Relies on toml::map::Map::insert: on a table the entries afterwards are the
/// old entries with `key` bound to `val`; any other value stays unchanged.
#[verifier::external_body]
pub(crate) fn toml_set(v: &mut toml::Value, key: &str, val: &toml::Value)
    ensures
        toml_is_map(*old(v)) ==> *final(v) == toml_map_of(
            toml_entries_of(*old(v)).insert(key@, *val),
        ),
        toml_is_map(*old(v)) ==> toml_is_map(*final(v)) && toml_entries_of(*final(v))
            == toml_entries_of(*old(v)).insert(key@, *val),
        !toml_is_map(*old(v)) ==> *final(v) == *old(v),
{
    if let toml::Value::Table(m) = v {
        m.insert(key.to_string(), val.clone());
    }
}

/// Relies on toml::map::Map::new: the empty TOML table.
#[verifier::external_body]
pub(crate) fn toml_new_map() -> (r: toml::Value)
    ensures
        r == toml_map_of(toml_empty_entries()),
        toml_is_map(r),
        toml_entries_of(r) == toml_empty_entries(),
{
    toml::Value::Table(toml::map::Map::new())
}

/// Relies on toml::Value::String: the string value for this text.
#[verifier::external_body]
pub(crate) fn toml_string(s: &str) -> (r: toml::Value)
    ensures
        r == toml_string_of(s@),
{
    toml::Value::String(s.to_string())
}

/// Relies on toml::Value::Array over Value::String items: the array of string
/// values for these texts.
#[verifier::external_body]
pub(crate) fn toml_string_array(items: &Vec<String>) -> (r: toml::Value)
    ensures
        r == toml_string_array_of(items@.map_values(|s: String| s@)),
{
    toml::Value::Array(
        items.iter().map(|s| toml::Value::String(s.clone())).collect(),
    )
}

/// The entries of the canonical TOML registration entry.
pub open spec fn toml_template_entries() -> Map<Seq<char>, toml::Value> {
    Map::<Seq<char>, toml::Value>::empty().insert(
        "command"@,
        toml_string_of("kodegen"@),
    ).insert("args"@, toml_string_array_of(seq!["--stdio"@])).insert(
        "env"@,
        toml_map_of(toml_empty_entries()),
    )
}

/// The canonical service registration entry in TOML: `command = "kodegen"`,
/// `args = ["--stdio"]`, and an empty `env` table — the same nesting as the
/// other formats.
pub open spec fn spec_toml_template() -> toml::Value {
    toml_map_of(toml_template_entries())
}

/// Builds the canonical TOML registration entry.
pub fn toml_template() -> (r: toml::Value)
    ensures
        r == spec_toml_template(),
        toml_is_map(r),
        toml_entries_of(r) == toml_template_entries(),
{
    let mut t = toml_new_map();
    let cmd = toml_string("kodegen");
    toml_set(&mut t, "command", &cmd);
    let mut args: Vec<String> = Vec::new();
    args.push("--stdio".to_owned());
    proof {
        assert(args@.map_values(|s: String| s@) =~= seq!["--stdio"@]);
    }
    let arr = toml_string_array(&args);
    toml_set(&mut t, "args", &arr);
    let env = toml_new_map();
    toml_set(&mut t, "env", &env);
    t
}

/// The registration is already present: a top-level table whose `mcpServers`
/// entry is a table with a `kodegen` entry.
pub open spec fn toml_has_entry(v: toml::Value) -> bool {
    &&& toml_is_map(v)
    &&& toml_entries_of(v).contains_key("mcpServers"@)
    &&& toml_is_map(toml_entries_of(v)["mcpServers"@])
    &&& toml_entries_of(toml_entries_of(v)["mcpServers"@]).contains_key("kodegen"@)
}

/// The value after the slow-path merge: unchanged unless the top level is a
/// table whose `mcpServers` entry is absent or a table; then `mcpServers`
/// gains (or becomes) a table with `kodegen` bound to the canonical entry.
pub open spec fn toml_merged_v(v: toml::Value) -> toml::Value {
    if !toml_is_map(v) {
        v
    } else if toml_entries_of(v).contains_key("mcpServers"@) && !toml_is_map(
        toml_entries_of(v)["mcpServers"@],
    ) {
        v
    } else {
        let inner0 = if toml_entries_of(v).contains_key("mcpServers"@) {
            toml_entries_of(toml_entries_of(v)["mcpServers"@])
        } else {
            Map::<Seq<char>, toml::Value>::empty()
        };
        toml_map_of(
            toml_entries_of(v).insert(
                "mcpServers"@,
                toml_map_of(inner0.insert("kodegen"@, spec_toml_template())),
            ),
        )
    }
}

/// The observable shape of `toml_merged_v(v)` whenever an insertion happens.
pub open spec fn toml_merged_facts(v: toml::Value) -> bool {
    if toml_is_map(v) && (toml_entries_of(v).contains_key("mcpServers"@) ==> toml_is_map(
        toml_entries_of(v)["mcpServers"@],
    )) {
        let inner0 = if toml_entries_of(v).contains_key("mcpServers"@) {
            toml_entries_of(toml_entries_of(v)["mcpServers"@])
        } else {
            Map::<Seq<char>, toml::Value>::empty()
        };
        let inner1 = toml_map_of(inner0.insert("kodegen"@, spec_toml_template()));
        &&& toml_is_map(toml_merged_v(v))
        &&& toml_entries_of(toml_merged_v(v)) == toml_entries_of(v).insert("mcpServers"@, inner1)
        &&& toml_is_map(inner1)
        &&& toml_entries_of(inner1) == inner0.insert("kodegen"@, spec_toml_template())
    } else {
        true
    }
}

/// Everything the slow path guarantees of its output text.
pub open spec fn toml_out_facts(v0: toml::Value, out: Seq<char>) -> bool {
    &&& out == toml_text_of(toml_merged_v(v0))
    &&& toml_parses(out)
    &&& toml_value_of(out) == toml_merged_v(v0)
    &&& !text::spec_blank(out)
    &&& toml_merged_facts(v0)
}

/// The full contract of a TOML merge that returned `out` for input `s`.
pub open spec fn toml_merge_post(s: Seq<char>, out: Seq<char>) -> bool {
    if text::spec_blank(s) {
        let base = toml_map_of(Map::<Seq<char>, toml::Value>::empty());
        &&& toml_is_map(base)
        &&& toml_entries_of(base) == Map::<Seq<char>, toml::Value>::empty()
        &&& toml_out_facts(base, out)
    } else if toml_parses(s) {
        if toml_has_entry(toml_value_of(s)) {
            out == s
        } else {
            toml_out_facts(toml_value_of(s), out)
        }
    } else {
        false
    }
}

/// Merges the canonical registration into a TOML document. A blank document
/// counts as an empty table; if the registration is already present the input
/// comes back unchanged, byte for byte; otherwise the updated tree is rendered
/// afresh. A non-blank document that does not parse is rejected.
pub fn merge_toml_doc(template: &toml::Value, existing: &str) -> (r: Result<String, MergeError>)
    requires
        *template == spec_toml_template(),
    ensures
        r is Ok <==> (text::spec_blank(existing@) || toml_parses(existing@)),
        r matches Ok(out) ==> toml_merge_post(existing@, out@) && toml_merge_post(out@, out@),
        r matches Err(e) ==> e matches MergeError::Parse(ConfigFormat::Toml, _),
{
    if text::is_blank(existing) {
        let mut inner = toml_new_map();
        toml_set(&mut inner, "kodegen", template);
        let mut v = toml_new_map();
        toml_set(&mut v, "mcpServers", &inner);
        proof {
            assert(toml_entries_of(v).dom().contains("mcpServers"@));
        }
        let out = toml_render(&v);
        Ok(out)
    } else {
        match toml_parse(existing) {
            Err(msg) => Err(MergeError::Parse(ConfigFormat::Toml, msg)),
            Ok(v0) => {
                let mut v = v0;
                match toml_get(&v, "mcpServers") {
                    Some(servers) => {
                        match toml_get(&servers, "kodegen") {
                            Some(_) => {
                                return Ok(existing.to_owned());
                            },
                            None => {},
                        }
                        if toml_is_table(&servers) {
                            let mut i2 = servers;
                            toml_set(&mut i2, "kodegen", template);
                            toml_set(&mut v, "mcpServers", &i2);
                        }
                    },
                    None => {
                        if toml_is_table(&v) {
                            let mut i2 = toml_new_map();
                            toml_set(&mut i2, "kodegen", template);
                            toml_set(&mut v, "mcpServers", &i2);
                        }
                    },
                }
                proof {
                    assert(toml_entries_of(v).dom().contains("mcpServers"@));
                }
                let out = toml_render(&v);
                Ok(out)
            },
        }
    }
}

} // verus!
