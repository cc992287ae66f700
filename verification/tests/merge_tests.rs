use kodegen_install::config::ConfigMerger;
use kodegen_install::ConfigFormat;
use kodegen_install::MergeError;
use kodegen_install::Platform;

fn merger() -> ConfigMerger {
    ConfigMerger::new(Platform::Linux)
}

fn mac_merger() -> ConfigMerger {
    ConfigMerger::new(Platform::MacOS)
}

fn json_of(s: &str) -> serde_json::Value {
    serde_json::from_str(s).expect("test document must parse")
}

#[test]
fn json_empty_input_yields_exactly_the_registration() {
    let out = merger().merge("", ConfigFormat::Json).unwrap();
    let v = json_of(&out);
    let expected = json_of(
        "{\"mcpServers\":{\"kodegen\":{\"command\":\"kodegen\",\"args\":[\"--stdio\"],\"env\":{}}}}",
    );
    assert_eq!(v, expected);
}

#[test]
fn json_whitespace_input_counts_as_empty() {
    let out = merger().merge("  \n\t ", ConfigFormat::Json).unwrap();
    let v = json_of(&out);
    assert!(v.get("mcpServers").and_then(|s| s.get("kodegen")).is_some());
}

#[test]
fn json_empty_object_gains_canonical_entry() {
    let out = merger().merge("{}", ConfigFormat::Json).unwrap();
    let v = json_of(&out);
    let entry = v["mcpServers"]["kodegen"].clone();
    assert_eq!(entry["command"], json_of("\"kodegen\""));
    assert_eq!(entry["args"], json_of("[\"--stdio\"]"));
    assert_eq!(entry["env"], json_of("{}"));
}

#[test]
fn json_sibling_entries_survive_the_merge() {
    let input = "{\"mcpServers\":{\"other\":{\"command\":\"x\"}},\"top\":7}";
    let out = merger().merge(input, ConfigFormat::Json).unwrap();
    let v = json_of(&out);
    assert_eq!(v["mcpServers"]["other"], json_of("{\"command\":\"x\"}"));
    assert_eq!(v["top"], json_of("7"));
    assert!(v["mcpServers"].get("kodegen").is_some());
}

#[test]
fn json_merge_is_idempotent_byte_for_byte() {
    let o1 = merger().merge("{\"a\":1}", ConfigFormat::Json).unwrap();
    let o2 = merger().merge(&o1, ConfigFormat::Json).unwrap();
    assert_eq!(o1, o2);
}

#[test]
fn json_fast_path_returns_the_input_unchanged() {
    let input = "{\n    \"mcpServers\" : { \"kodegen\" : {} },   \"keep\":true\n}\n";
    let out = merger().merge(input, ConfigFormat::Json).unwrap();
    assert_eq!(out, input);
}

#[test]
fn json_malformed_input_is_a_parse_error() {
    let r = merger().merge("{nope", ConfigFormat::Json);
    match r {
        Err(MergeError::Parse(f, _)) => assert_eq!(f, ConfigFormat::Json),
        _ => panic!("expected a parse error"),
    }
}

#[test]
fn toml_empty_input_yields_exactly_the_registration() {
    let out = merger().merge("", ConfigFormat::Toml).unwrap();
    let v: toml::Value = toml::from_str(&out).unwrap();
    let entry = v.get("mcpServers").unwrap().get("kodegen").unwrap();
    assert_eq!(entry.get("command").unwrap().as_str(), Some("kodegen"));
    let args = entry.get("args").unwrap().as_array().unwrap();
    assert_eq!(args.len(), 1);
    assert_eq!(args[0].as_str(), Some("--stdio"));
    let env = entry.get("env").unwrap().as_table().unwrap();
    assert!(env.is_empty());
    let top = v.as_table().unwrap();
    assert_eq!(top.len(), 1);
}

#[test]
fn toml_sibling_entries_survive_the_merge() {
    let out = merger().merge("title = \"x\"\n", ConfigFormat::Toml).unwrap();
    let v: toml::Value = toml::from_str(&out).unwrap();
    assert_eq!(v.get("title").unwrap().as_str(), Some("x"));
    assert!(v.get("mcpServers").unwrap().get("kodegen").is_some());
}

#[test]
fn toml_merge_is_idempotent_byte_for_byte() {
    let o1 = merger().merge("title = \"x\"\n", ConfigFormat::Toml).unwrap();
    let o2 = merger().merge(&o1, ConfigFormat::Toml).unwrap();
    assert_eq!(o1, o2);
}

#[test]
fn toml_fast_path_returns_the_input_unchanged() {
    let input = "# my config\n[mcpServers.kodegen]\ncommand = \"kodegen\"\n";
    let out = merger().merge(input, ConfigFormat::Toml).unwrap();
    assert_eq!(out, input);
}

#[test]
fn toml_malformed_input_is_a_parse_error() {
    let r = merger().merge("= nope", ConfigFormat::Toml);
    match r {
        Err(MergeError::Parse(f, _)) => assert_eq!(f, ConfigFormat::Toml),
        _ => panic!("expected a parse error"),
    }
}

#[test]
fn yaml_empty_input_yields_exactly_the_registration() {
    let out = merger().merge("", ConfigFormat::Yaml).unwrap();
    let v: serde_yaml::Value = serde_yaml::from_str(&out).unwrap();
    let entry = v.get("mcpServers").unwrap().get("kodegen").unwrap();
    assert_eq!(entry.get("command").unwrap().as_str(), Some("kodegen"));
    let args = entry.get("args").unwrap().as_sequence().unwrap();
    assert_eq!(args.len(), 1);
    assert_eq!(args[0].as_str(), Some("--stdio"));
    assert!(entry.get("env").unwrap().as_mapping().unwrap().is_empty());
}

#[test]
fn yaml_sibling_entries_survive_the_merge() {
    let out = merger().merge("other: 1\n", ConfigFormat::Yaml).unwrap();
    let v: serde_yaml::Value = serde_yaml::from_str(&out).unwrap();
    assert_eq!(v.get("other").unwrap().as_i64(), Some(1));
    assert!(v.get("mcpServers").unwrap().get("kodegen").is_some());
}

#[test]
fn yaml_merge_is_idempotent_byte_for_byte() {
    let o1 = merger().merge("other: 1\n", ConfigFormat::Yaml).unwrap();
    let o2 = merger().merge(&o1, ConfigFormat::Yaml).unwrap();
    assert_eq!(o1, o2);
}

#[test]
fn yaml_fast_path_returns_the_input_unchanged() {
    let input = "# kept comment\nmcpServers:\n  kodegen:\n    command: kodegen\n";
    let out = merger().merge(input, ConfigFormat::Yaml).unwrap();
    assert_eq!(out, input);
}

#[test]
fn yaml_malformed_input_is_a_parse_error() {
    let r = merger().merge("{", ConfigFormat::Yaml);
    match r {
        Err(MergeError::Parse(f, _)) => assert_eq!(f, ConfigFormat::Yaml),
        _ => panic!("expected a parse error"),
    }
}

#[test]
fn plist_empty_input_yields_exactly_the_registration() {
    let out = mac_merger().merge("", ConfigFormat::Plist).unwrap();
    let v = plist::Value::from_reader(std::io::Cursor::new(out.as_bytes())).unwrap();
    let top = v.as_dictionary().unwrap();
    assert_eq!(top.len(), 1);
    let entry = top
        .get("mcpServers")
        .unwrap()
        .as_dictionary()
        .unwrap()
        .get("kodegen")
        .unwrap()
        .as_dictionary()
        .unwrap();
    assert_eq!(entry.get("command").unwrap().as_string(), Some("kodegen"));
    let args = entry.get("args").unwrap().as_array().unwrap();
    assert_eq!(args.len(), 1);
    assert_eq!(args[0].as_string(), Some("--stdio"));
    assert!(entry.get("env").unwrap().as_dictionary().unwrap().is_empty());
}

#[test]
fn plist_sibling_entries_survive_the_merge() {
    let input = mac_merger().merge("", ConfigFormat::Plist).unwrap();
    let with_other = input.replace("mcpServers", "otherTool");
    let out = mac_merger().merge(&with_other, ConfigFormat::Plist).unwrap();
    let v = plist::Value::from_reader(std::io::Cursor::new(out.as_bytes())).unwrap();
    let top = v.as_dictionary().unwrap();
    assert!(top.get("otherTool").is_some());
    assert!(top.get("mcpServers").unwrap().as_dictionary().unwrap().get("kodegen").is_some());
}

#[test]
fn plist_merge_is_idempotent_byte_for_byte() {
    let o1 = mac_merger().merge("", ConfigFormat::Plist).unwrap();
    let o2 = mac_merger().merge(&o1, ConfigFormat::Plist).unwrap();
    assert_eq!(o1, o2);
}

#[test]
fn plist_malformed_input_is_a_parse_error() {
    let r = mac_merger().merge("not a plist", ConfigFormat::Plist);
    match r {
        Err(MergeError::Parse(f, _)) => assert_eq!(f, ConfigFormat::Plist),
        _ => panic!("expected a parse error"),
    }
}

#[test]
fn plist_is_unsupported_off_macos() {
    let r = merger().merge("", ConfigFormat::Plist);
    match r {
        Err(MergeError::Unsupported(f)) => assert_eq!(f, ConfigFormat::Plist),
        _ => panic!("expected an unsupported-format error"),
    }
}

#[test]
fn cross_format_registrations_carry_the_same_semantics() {
    let m = merger();
    let j = json_of(&m.merge("", ConfigFormat::Json).unwrap());
    let t: toml::Value = toml::from_str(&m.merge("", ConfigFormat::Toml).unwrap()).unwrap();
    let y: serde_yaml::Value =
        serde_yaml::from_str(&m.merge("", ConfigFormat::Yaml).unwrap()).unwrap();

    let jc = j["mcpServers"]["kodegen"]["command"].as_str().unwrap();
    let tc = t.get("mcpServers").unwrap().get("kodegen").unwrap().get("command").unwrap()
        .as_str()
        .unwrap();
    let yc = y.get("mcpServers").unwrap().get("kodegen").unwrap().get("command").unwrap()
        .as_str()
        .unwrap();
    assert_eq!(jc, "kodegen");
    assert_eq!(jc, tc);
    assert_eq!(jc, yc);

    let ja: Vec<&str> = j["mcpServers"]["kodegen"]["args"]
        .as_array()
        .unwrap()
        .iter()
        .map(|x| x.as_str().unwrap())
        .collect();
    let ta: Vec<&str> = t
        .get("mcpServers").unwrap().get("kodegen").unwrap().get("args").unwrap()
        .as_array()
        .unwrap()
        .iter()
        .map(|x| x.as_str().unwrap())
        .collect();
    let ya: Vec<&str> = y
        .get("mcpServers").unwrap().get("kodegen").unwrap().get("args").unwrap()
        .as_sequence()
        .unwrap()
        .iter()
        .map(|x| x.as_str().unwrap())
        .collect();
    assert_eq!(ja, vec!["--stdio"]);
    assert_eq!(ja, ta);
    assert_eq!(ja, ya);

    assert!(j["mcpServers"]["kodegen"]["env"].as_object().unwrap().is_empty());
    assert!(t
        .get("mcpServers").unwrap().get("kodegen").unwrap().get("env").unwrap()
        .as_table()
        .unwrap()
        .is_empty());
    assert!(y
        .get("mcpServers").unwrap().get("kodegen").unwrap().get("env").unwrap()
        .as_mapping()
        .unwrap()
        .is_empty());
}

#[test]
fn merge_error_reports_its_format() {
    let e = merger().merge("{nope", ConfigFormat::Json).unwrap_err();
    assert_eq!(e.format(), ConfigFormat::Json);
    let e = merger().merge("", ConfigFormat::Plist).unwrap_err();
    assert_eq!(e.format(), ConfigFormat::Plist);
}
