use vstd::prelude::*;

use crate::kv::find_pair;
use crate::kv::lemma_find_upsert_same;
use crate::kv::lemma_upsert_absent;
use crate::kv::upsert_pair;
use crate::text;
use crate::ConfigFormat;
use crate::MergeError;

verus! {

#[verifier::external_type_specification]
#[verifier::external_body]
pub struct ExPlistValue(plist::Value);

/// Whether `plist::Value::from_reader` accepts this text.
pub uninterp spec fn plist_parses(s: Seq<char>) -> bool;

/// The value `plist::Value::from_reader` yields for this text.
pub uninterp spec fn plist_value_of(s: Seq<char>) -> plist::Value;

/// The XML text `plist::Value::to_writer_xml` renders this value as.
pub uninterp spec fn plist_text_of(v: plist::Value) -> Seq<char>;

/// Whether `plist::Value::to_writer_xml` accepts this value; it refuses a
/// value holding a UID, which XML property lists cannot carry.
pub uninterp spec fn plist_renders(v: plist::Value) -> bool;

/// Whether the value is a plist dictionary.
pub uninterp spec fn plist_is_map(v: plist::Value) -> bool;

/// The key/value pairs of a plist dictionary, in order; a dictionary
/// preserves insertion order and its keys are strings.
pub uninterp spec fn plist_pairs_of(v: plist::Value) -> Seq<(Seq<char>, plist::Value)>;

/// The plist dictionary holding exactly these pairs, in order.
pub uninterp spec fn plist_map_of(pairs: Seq<(Seq<char>, plist::Value)>) -> plist::Value;

/// The plist string value holding this text.
pub uninterp spec fn plist_string_of(s: Seq<char>) -> plist::Value;

/// The plist array of string values holding these texts.
pub uninterp spec fn plist_string_array_of(items: Seq<Seq<char>>) -> plist::Value;

/// The pairs of the empty plist dictionary.
pub open spec fn plist_empty_pairs() -> Seq<(Seq<char>, plist::Value)> {
    Seq::empty()
}

/// Relies on plist::Value::from_reader over the text's bytes: whether a text
/// parses (as XML or binary property list), and the value it parses to, are
/// functions of the text alone.
#[verifier::external_body]
pub(crate) fn plist_parse(s: &str) -> (r: Result<plist::Value, String>)
    ensures
        r is Ok <==> plist_parses(s@),
        r matches Ok(v) ==> v == plist_value_of(s@),
{
    plist::Value::from_reader(std::io::Cursor::new(s.as_bytes())).map_err(|e| e.to_string())
}

/// Relies on plist::Value::to_writer_xml into a byte buffer: it succeeds
/// exactly on values it accepts, the XML text is a function of the value and
/// non-blank, and parsing the rendered text yields the same value, order
/// included.
#[verifier::external_body]
pub(crate) fn plist_render(v: &plist::Value) -> (r: Result<String, String>)
    ensures
        r is Ok <==> plist_renders(*v),
        r matches Ok(t) ==> t@ == plist_text_of(*v),
        r matches Ok(t) ==> plist_parses(t@),
        r matches Ok(t) ==> plist_value_of(t@) == *v,
        r matches Ok(t) ==> !text::spec_blank(t@),
{
    let mut buf: Vec<u8> = Vec::new();
    match v.to_writer_xml(&mut buf) {
        Ok(()) => String::from_utf8(buf).map_err(|e| e.to_string()),
        Err(e) => Err(e.to_string()),
    }
}

/// Relies on plist::Dictionary::get: on a dictionary it looks the key up; on
/// anything else it returns None.
#[verifier::external_body]
pub(crate) fn plist_get(v: &plist::Value, key: &str) -> (r: Option<plist::Value>)
    ensures
        r == (if plist_is_map(*v) {
            find_pair(plist_pairs_of(*v), key@)
        } else {
            Option::None
        }),
{
    match v.as_dictionary() {
        Some(d) => d.get(key).cloned(),
        None => None,
    }
}

/// Relies on plist::Value::as_dictionary being Some exactly on dictionaries.
#[verifier::external_body]
pub(crate) fn plist_is_dict(v: &plist::Value) -> (r: bool)
    ensures
        r == plist_is_map(*v),
{
    v.as_dictionary().is_some()
}

/// Relies on plist::Dictionary::insert: a present key is rebound in place, an
/// absent one is appended; any other value stays unchanged; a dictionary of
/// renderable values with a renderable value inserted stays renderable.
#[verifier::external_body]
pub(crate) fn plist_set(v: &mut plist::Value, key: &str, val: &plist::Value)
    ensures
        plist_is_map(*old(v)) ==> *final(v) == plist_map_of(
            upsert_pair(plist_pairs_of(*old(v)), key@, *val),
        ),
        plist_is_map(*old(v)) ==> plist_is_map(*final(v)) && plist_pairs_of(*final(v))
            == upsert_pair(plist_pairs_of(*old(v)), key@, *val),
        !plist_is_map(*old(v)) ==> *final(v) == *old(v),
        (plist_renders(*old(v)) && plist_renders(*val)) ==> plist_renders(*final(v)),
{
    if let plist::Value::Dictionary(d) = v {
        d.insert(key.to_string(), val.clone());
    }
}

/// Relies on plist::Dictionary::new: the empty plist dictionary, which XML
/// rendering accepts.
#[verifier::external_body]
pub(crate) fn plist_new_map() -> (r: plist::Value)
    ensures
        r == plist_map_of(plist_empty_pairs()),
        plist_is_map(r),
        plist_pairs_of(r) == plist_empty_pairs(),
        plist_renders(r),
{
    plist::Value::Dictionary(plist::Dictionary::new())
}

/// Relies on plist::Value::String: the string value for this text, which XML
/// rendering accepts.
#[verifier::external_body]
pub(crate) fn plist_string(s: &str) -> (r: plist::Value)
    ensures
        r == plist_string_of(s@),
        plist_renders(r),
{
    plist::Value::String(s.to_string())
}

/// Relies on plist::Value::Array over Value::String items: the array of
/// string values for these texts, which XML rendering accepts.
#[verifier::external_body]
pub(crate) fn plist_string_array(items: &Vec<String>) -> (r: plist::Value)
    ensures
        r == plist_string_array_of(items@.map_values(|s: String| s@)),
        plist_renders(r),
{
    plist::Value::Array(
        items.iter().map(|s| plist::Value::String(s.clone())).collect(),
    )
}

/// The pairs of the canonical plist registration entry, in order.
pub open spec fn plist_template_pairs() -> Seq<(Seq<char>, plist::Value)> {
    seq![
        ("command"@, plist_string_of("kodegen"@)),
        ("args"@, plist_string_array_of(seq!["--stdio"@])),
        ("env"@, plist_map_of(plist_empty_pairs())),
    ]
}

/// The canonical service registration entry as a plist dictionary:
/// `command`, `args`, and an empty `env` dictionary.
pub open spec fn spec_plist_template() -> plist::Value {
    plist_map_of(plist_template_pairs())
}

/// Builds the canonical plist registration entry.
pub fn plist_template() -> (r: plist::Value)
    ensures
        r == spec_plist_template(),
        plist_is_map(r),
        plist_renders(r),
{
    let mut t = plist_new_map();
    let cmd = plist_string("kodegen");
    plist_set(&mut t, "command", &cmd);
    let mut args: Vec<String> = Vec::new();
    args.push("--stdio".to_owned());
    proof {
        assert(args@.map_values(|s: String| s@) =~= seq!["--stdio"@]);
        reveal_strlit("command");
        reveal_strlit("args");
        reveal_strlit("env");
        assert("command"@.len() == 7);
        assert("args"@.len() == 4);
        assert("env"@.len() == 3);
    }
    let arr = plist_string_array(&args);
    plist_set(&mut t, "args", &arr);
    let env = plist_new_map();
    plist_set(&mut t, "env", &env);
    proof {
        let cv = plist_string_of("kodegen"@);
        let av = plist_string_array_of(seq!["--stdio"@]);
        let ev = plist_map_of(plist_empty_pairs());
        let p1 = upsert_pair(plist_empty_pairs(), "command"@, cv);
        lemma_upsert_absent(plist_empty_pairs(), "command"@, cv);
        assert(p1 =~= seq![("command"@, cv)]);
        let p2 = upsert_pair(p1, "args"@, av);
        lemma_upsert_absent(p1, "args"@, av);
        assert(p2 =~= seq![("command"@, cv), ("args"@, av)]);
        let p3 = upsert_pair(p2, "env"@, ev);
        lemma_upsert_absent(p2, "env"@, ev);
        assert(p3 =~= plist_template_pairs());
        assert(t == plist_map_of(p3));
        assert(plist_map_of(p3) == spec_plist_template()) by {
            assert(p3 =~= plist_template_pairs());
        }
    }
    t
}

/// The registration is already present: a top-level dictionary whose
/// `mcpServers` entry is a dictionary with a `kodegen` entry.
pub open spec fn plist_has_entry(v: plist::Value) -> bool {
    &&& plist_is_map(v)
    &&& find_pair(plist_pairs_of(v), "mcpServers"@) matches Option::Some(inner) && plist_is_map(
        inner,
    ) && find_pair(plist_pairs_of(inner), "kodegen"@) is Some
}

/// The value after the slow-path merge: unchanged unless the top level is a
/// dictionary whose `mcpServers` entry is absent or a dictionary; then
/// `mcpServers` gains (or becomes) a dictionary with `kodegen` bound to the
/// canonical entry.
pub open spec fn plist_merged_v(v: plist::Value) -> plist::Value {
    if !plist_is_map(v) {
        v
    } else {
        match find_pair(plist_pairs_of(v), "mcpServers"@) {
            Option::Some(inner) => if !plist_is_map(inner) {
                v
            } else {
                plist_map_of(
                    upsert_pair(
                        plist_pairs_of(v),
                        "mcpServers"@,
                        plist_map_of(
                            upsert_pair(plist_pairs_of(inner), "kodegen"@, spec_plist_template()),
                        ),
                    ),
                )
            },
            Option::None => plist_map_of(
                upsert_pair(
                    plist_pairs_of(v),
                    "mcpServers"@,
                    plist_map_of(
                        upsert_pair(plist_empty_pairs(), "kodegen"@, spec_plist_template()),
                    ),
                ),
            ),
        }
    }
}

/// The inner pairs the slow path starts from.
pub open spec fn plist_inner0(v: plist::Value) -> Seq<(Seq<char>, plist::Value)> {
    match find_pair(plist_pairs_of(v), "mcpServers"@) {
        Option::Some(inner) => plist_pairs_of(inner),
        Option::None => plist_empty_pairs(),
    }
}

/// The observable shape of `plist_merged_v(v)` whenever an insertion happens.
pub open spec fn plist_merged_facts(v: plist::Value) -> bool {
    if plist_is_map(v) && (match find_pair(plist_pairs_of(v), "mcpServers"@) {
        Option::Some(inner) => plist_is_map(inner),
        Option::None => true,
    }) {
        let inner1 = plist_map_of(
            upsert_pair(plist_inner0(v), "kodegen"@, spec_plist_template()),
        );
        &&& plist_is_map(plist_merged_v(v))
        &&& plist_pairs_of(plist_merged_v(v)) == upsert_pair(
            plist_pairs_of(v),
            "mcpServers"@,
            inner1,
        )
        &&& plist_is_map(inner1)
        &&& plist_pairs_of(inner1) == upsert_pair(
            plist_inner0(v),
            "kodegen"@,
            spec_plist_template(),
        )
        &&& plist_has_entry(plist_merged_v(v))
    } else {
        true
    }
}

/// Everything the slow path guarantees of its output text.
pub open spec fn plist_out_facts(v0: plist::Value, out: Seq<char>) -> bool {
    &&& out == plist_text_of(plist_merged_v(v0))
    &&& plist_parses(out)
    &&& plist_value_of(out) == plist_merged_v(v0)
    &&& !text::spec_blank(out)
    &&& plist_merged_facts(v0)
}

/// The full contract of a plist merge that returned `out` for input `s`.
pub open spec fn plist_merge_post(s: Seq<char>, out: Seq<char>) -> bool {
    if text::spec_blank(s) {
        let base = plist_map_of(plist_empty_pairs());
        &&& plist_is_map(base)
        &&& plist_pairs_of(base) == plist_empty_pairs()
        &&& plist_out_facts(base, out)
    } else if plist_parses(s) {
        if plist_has_entry(plist_value_of(s)) {
            out == s
        } else {
            plist_out_facts(plist_value_of(s), out)
        }
    } else {
        false
    }
}

/// When a plist merge succeeds: a blank document always does; a parsed one
/// does when the registration is already present or the updated tree renders.
pub open spec fn plist_merge_ok(s: Seq<char>) -> bool {
    if text::spec_blank(s) {
        plist_renders(plist_merged_v(plist_map_of(plist_empty_pairs())))
    } else if plist_parses(s) {
        plist_has_entry(plist_value_of(s)) || plist_renders(plist_merged_v(plist_value_of(s)))
    } else {
        false
    }
}

/// Merges the canonical registration into an XML property list. A blank
/// document counts as an empty dictionary; if the registration is already
/// present the input comes back unchanged, byte for byte; otherwise the
/// updated tree is rendered afresh as XML. A non-blank document that does not
/// parse is rejected, and a tree that XML rendering refuses is reported as a
/// rendering failure.
pub fn merge_plist_doc(template: &plist::Value, existing: &str) -> (r: Result<String, MergeError>)
    requires
        *template == spec_plist_template(),
        plist_renders(*template),
    ensures
        text::spec_blank(existing@) ==> r is Ok,
        r is Ok <==> plist_merge_ok(existing@),
        r matches Ok(out) ==> plist_merge_post(existing@, out@) && plist_merge_post(out@, out@),
        r matches Err(e) ==> (if !text::spec_blank(existing@) && !plist_parses(existing@) {
            e matches MergeError::Parse(ConfigFormat::Plist, _)
        } else {
            e matches MergeError::Serialize(ConfigFormat::Plist, _)
        }),
{
    if text::is_blank(existing) {
        let mut inner = plist_new_map();
        plist_set(&mut inner, "kodegen", template);
        let mut v = plist_new_map();
        plist_set(&mut v, "mcpServers", &inner);
        proof {
            lemma_find_upsert_same(plist_empty_pairs(), "mcpServers"@, inner);
            lemma_find_upsert_same(plist_empty_pairs(), "kodegen"@, spec_plist_template());
        }
        match plist_render(&v) {
            Ok(out) => Ok(out),
            Err(msg) => Err(MergeError::Serialize(ConfigFormat::Plist, msg)),
        }
    } else {
        match plist_parse(existing) {
            Err(msg) => Err(MergeError::Parse(ConfigFormat::Plist, msg)),
            Ok(v0) => {
                let mut v = v0;
                let mut fast = false;
                match plist_get(&v, "mcpServers") {
                    Some(servers) => {
                        match plist_get(&servers, "kodegen") {
                            Some(_) => {
                                fast = true;
                            },
                            None => {},
                        }
                        if !fast && plist_is_dict(&servers) {
                            let mut i2 = servers;
                            plist_set(&mut i2, "kodegen", template);
                            plist_set(&mut v, "mcpServers", &i2);
                            proof {
                                lemma_find_upsert_same(plist_pairs_of(v0), "mcpServers"@, i2);
                                lemma_find_upsert_same(
                                    plist_inner0(v0),
                                    "kodegen"@,
                                    spec_plist_template(),
                                );
                            }
                        }
                    },
                    None => {
                        if plist_is_dict(&v) {
                            let mut i2 = plist_new_map();
                            plist_set(&mut i2, "kodegen", template);
                            plist_set(&mut v, "mcpServers", &i2);
                            proof {
                                lemma_find_upsert_same(plist_pairs_of(v0), "mcpServers"@, i2);
                                lemma_find_upsert_same(
                                    plist_empty_pairs(),
                                    "kodegen"@,
                                    spec_plist_template(),
                                );
                            }
                        }
                    },
                }
                if fast {
                    return Ok(existing.to_owned());
                }
                match plist_render(&v) {
                    Ok(out) => Ok(out),
                    Err(msg) => Err(MergeError::Serialize(ConfigFormat::Plist, msg)),
                }
            },
        }
    }
}

} // verus!
