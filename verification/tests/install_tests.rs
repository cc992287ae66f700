use kodegen_install::install::backup_path_for;
use kodegen_install::install::content_is_configured;
use kodegen_install::install::plan_config_update;
use kodegen_install::install::ConfigPlan;
use kodegen_install::platform_for_home;
use kodegen_install::ClientConfigPlugin;
use kodegen_install::ConfigFormat;
use kodegen_install::InstallResult;
use kodegen_install::KodegenConfig;
use kodegen_install::KodegenHttpConfig;
use kodegen_install::MergeError;
use kodegen_install::Platform;
use kodegen_install::RooCodePlugin;
use kodegen_install::ZedPlugin;

#[test]
fn missing_file_is_created_fresh_without_backup() {
    let plan = plan_config_update(&RooCodePlugin, ConfigFormat::Json, Platform::Linux, &None);
    match plan {
        ConfigPlan::CreateNew(text) => {
            let v: serde_json::Value = serde_json::from_str(&text).unwrap();
            assert!(v.get("mcpServers").and_then(|s| s.get("kodegen")).is_some());
        }
        _ => panic!("a missing file must yield a fresh document, never a backup"),
    }
}

#[test]
fn substring_signal_skips_rewriting() {
    let existing = Some("// kodegen is mentioned in a comment only".to_owned());
    let plan = plan_config_update(&RooCodePlugin, ConfigFormat::Json, Platform::Linux, &existing);
    assert!(matches!(plan, ConfigPlan::AlreadyConfigured));
}

#[test]
fn malformed_candidate_is_abandoned() {
    let existing = Some("{nope".to_owned());
    let plan = plan_config_update(&RooCodePlugin, ConfigFormat::Json, Platform::Linux, &existing);
    match plan {
        ConfigPlan::Abandon(MergeError::Parse(f, _)) => assert_eq!(f, ConfigFormat::Json),
        _ => panic!("a malformed document must abandon the candidate path"),
    }
}

#[test]
fn valid_candidate_is_written_after_backup() {
    let existing = Some("{\"editor\":{\"fontSize\":14}}".to_owned());
    let plan = plan_config_update(&RooCodePlugin, ConfigFormat::Json, Platform::Linux, &existing);
    match plan {
        ConfigPlan::WriteWithBackup(text) => {
            let v: serde_json::Value = serde_json::from_str(&text).unwrap();
            assert_eq!(v["editor"]["fontSize"].as_i64(), Some(14));
            assert!(v["mcpServers"].get("kodegen").is_some());
        }
        _ => panic!("a valid unconfigured document must be rewritten after a backup"),
    }
}

#[test]
fn backup_path_appends_the_fixed_suffix() {
    assert_eq!(
        backup_path_for("/home/j/.config/Code/User/settings.json"),
        "/home/j/.config/Code/User/settings.json.backup"
    );
}

#[test]
fn substring_signal_matches_anywhere() {
    assert!(content_is_configured("{\"mcpServers\":{\"kodegen\":{}}}"));
    assert!(content_is_configured("prefix kodegen suffix"));
    assert!(!content_is_configured("{\"mcpServers\":{\"other\":{}}}"));
    assert!(!content_is_configured(""));
}

#[test]
fn install_results_carry_their_outcome() {
    let r = InstallResult::not_installed("Zed".to_owned(), "zed".to_owned());
    assert!(!r.success);
    assert_eq!(r.message, "Not installed");
    assert!(r.config_path.is_none());

    let r = InstallResult::failed("Zed".to_owned(), "zed".to_owned());
    assert!(!r.success);
    assert_eq!(r.message, "Failed to configure");

    let r = InstallResult::created("Zed".to_owned(), "zed".to_owned(), "/tmp/s.json".to_owned());
    assert!(r.success);
    assert_eq!(r.message, "Created new config");
    assert_eq!(r.config_path.as_deref(), Some("/tmp/s.json"));

    let r = InstallResult::already_configured(
        "Zed".to_owned(),
        "zed".to_owned(),
        "/tmp/s.json".to_owned(),
    );
    assert_eq!(r.message, "Already configured");

    let r = InstallResult::configured("Zed".to_owned(), "zed".to_owned(), "/tmp/s.json".to_owned());
    assert_eq!(r.message, "Configured successfully");
}

#[test]
fn platform_is_classified_from_the_home_directory() {
    assert_eq!(platform_for_home(&None), Platform::All);
    assert_eq!(platform_for_home(&Some("/Users/jane".to_owned())), Platform::MacOS);
    assert_eq!(platform_for_home(&Some("/home/jane".to_owned())), Platform::Linux);
    assert_eq!(platform_for_home(&Some("/root".to_owned())), Platform::Linux);
    assert_eq!(platform_for_home(&Some("C:\\Users\\jane".to_owned())), Platform::Windows);
    assert_eq!(platform_for_home(&Some("".to_owned())), Platform::All);
}

#[test]
fn roo_code_reports_its_identity_and_detection() {
    let p = RooCodePlugin;
    assert_eq!(p.client_id(), "roo-code");
    assert_eq!(p.client_name(), "Roo Code");
    assert_eq!(p.config_format(), ConfigFormat::Json);
    assert_eq!(
        p.install_marker().as_deref(),
        Some("User/globalStorage/rooveterinaryinc.roo-cline")
    );
    assert!(p.is_installed(true, true));
    assert!(!p.is_installed(true, false));
    assert!(!p.is_installed(false, true));
}

#[test]
fn roo_code_locates_the_editor_per_platform() {
    let p = RooCodePlugin;
    let home = Some("/home/j".to_owned());
    let config = Some("/home/j/.config".to_owned());
    assert_eq!(
        p.base_dirs_for(Platform::Linux, &home, &config),
        vec!["/home/j/.config/Code".to_owned()]
    );
    let mac_home = Some("/Users/j".to_owned());
    assert_eq!(
        p.base_dirs_for(Platform::MacOS, &mac_home, &None),
        vec!["/Users/j/Library/Application Support/Code".to_owned()]
    );
    assert!(p.base_dirs_for(Platform::Linux, &home, &None).is_empty());
    assert!(p.base_dirs_for(Platform::All, &home, &config).is_empty());
}

#[test]
fn roo_code_assembles_config_paths_per_platform() {
    let p = RooCodePlugin;
    let config = Some("/home/j/.config".to_owned());
    let paths = p.config_paths_for(Platform::Linux, &None, &config);
    assert_eq!(paths.len(), 1);
    assert_eq!(paths[0].path, "/home/j/.config/Code/User/settings.json");
    assert_eq!(paths[0].format, ConfigFormat::Json);
    assert_eq!(paths[0].platform, Platform::Linux);

    let mac_home = Some("/Users/j".to_owned());
    let paths = p.config_paths_for(Platform::MacOS, &mac_home, &None);
    assert_eq!(paths.len(), 1);
    assert_eq!(paths[0].path, "/Users/j/Library/Application Support/Code/User/settings.json");
    assert_eq!(paths[0].platform, Platform::MacOS);

    let win_config = Some("C:\\Users\\j\\AppData\\Roaming".to_owned());
    let paths = p.config_paths_for(Platform::Windows, &None, &win_config);
    assert_eq!(paths.len(), 1);
    assert_eq!(paths[0].path, "C:\\Users\\j\\AppData\\Roaming/Code/User/settings.json");

    assert!(p.config_paths_for(Platform::All, &mac_home, &config).is_empty());
    assert!(p.config_paths_for(Platform::Linux, &mac_home, &None).is_empty());
}

#[test]
fn zed_assembles_config_paths_per_platform() {
    let p = ZedPlugin;
    let mac_home = Some("/Users/j".to_owned());
    let paths = p.config_paths_for(Platform::MacOS, &mac_home, &None);
    assert_eq!(paths.len(), 2);
    assert_eq!(paths[0].path, "/Users/j/.config/zed/settings.json");
    assert_eq!(paths[1].path, "/Users/j/Library/Application Support/Zed/settings.json");
    assert!(paths.iter().all(|c| c.format == ConfigFormat::Json));
    assert!(paths.iter().all(|c| c.platform == Platform::MacOS));

    let config = Some("/home/j/.config".to_owned());
    let paths = p.config_paths_for(Platform::Linux, &None, &config);
    assert_eq!(paths.len(), 1);
    assert_eq!(paths[0].path, "/home/j/.config/zed/settings.json");

    assert!(p.config_paths_for(Platform::Windows, &mac_home, &config).is_empty());
}

#[test]
fn zed_reports_its_identity_and_detection() {
    let p = ZedPlugin;
    assert_eq!(p.client_id(), "zed");
    assert_eq!(p.client_name(), "Zed");
    assert_eq!(p.config_format(), ConfigFormat::Json);
    assert!(p.install_marker().is_none());
    assert!(p.is_installed(true, false));
    assert!(!p.is_installed(false, false));
}

#[test]
fn zed_locates_its_settings_per_platform() {
    let p = ZedPlugin;
    let mac_home = Some("/Users/j".to_owned());
    assert_eq!(
        p.base_dirs_for(Platform::MacOS, &mac_home, &None),
        vec![
            "/Users/j/.config/zed".to_owned(),
            "/Users/j/Library/Application Support/Zed".to_owned(),
        ]
    );
    let config = Some("/home/j/.config".to_owned());
    assert_eq!(
        p.base_dirs_for(Platform::Linux, &None, &config),
        vec!["/home/j/.config/zed".to_owned()]
    );
    assert!(p.base_dirs_for(Platform::Windows, &mac_home, &config).is_empty());
}

#[test]
fn zed_injects_its_own_record_shape() {
    let p = ZedPlugin;
    let out = p.inject_kodegen("{}", ConfigFormat::Json, Platform::Linux).unwrap();
    let v: serde_json::Value = serde_json::from_str(&out).unwrap();
    let entry = &v["context_servers"]["kodegen"];
    assert_eq!(entry["source"].as_str(), Some("custom"));
    assert_eq!(entry["command"].as_str(), Some("kodegen"));
    let args: Vec<&str> =
        entry["args"].as_array().unwrap().iter().map(|x| x.as_str().unwrap()).collect();
    assert_eq!(args, vec!["--stdio"]);
    assert!(entry.get("env").is_none());
}

#[test]
fn zed_injection_preserves_siblings_and_is_idempotent() {
    let p = ZedPlugin;
    let input = "{\"theme\":\"dark\",\"context_servers\":{\"other\":{\"command\":\"x\"}}}";
    let o1 = p.inject_kodegen(input, ConfigFormat::Json, Platform::Linux).unwrap();
    let v: serde_json::Value = serde_json::from_str(&o1).unwrap();
    assert_eq!(v["theme"].as_str(), Some("dark"));
    assert_eq!(v["context_servers"]["other"]["command"].as_str(), Some("x"));
    assert!(v["context_servers"].get("kodegen").is_some());
    let o2 = p.inject_kodegen(&o1, ConfigFormat::Json, Platform::Linux).unwrap();
    assert_eq!(o1, o2);
}

#[test]
fn zed_fast_path_returns_the_input_unchanged() {
    let p = ZedPlugin;
    let input = "{ \"context_servers\": { \"kodegen\": {} } }";
    let out = p.inject_kodegen(input, ConfigFormat::Json, Platform::Linux).unwrap();
    assert_eq!(out, input);
}

#[test]
fn roo_code_injection_delegates_to_the_generic_merge() {
    let p = RooCodePlugin;
    let out = p.inject_kodegen("{}", ConfigFormat::Json, Platform::Linux).unwrap();
    let v: serde_json::Value = serde_json::from_str(&out).unwrap();
    assert_eq!(v["mcpServers"]["kodegen"]["command"].as_str(), Some("kodegen"));
    let toml_out = p.inject_kodegen("", ConfigFormat::Toml, Platform::Linux).unwrap();
    let t: toml::Value = toml::from_str(&toml_out).unwrap();
    assert!(t.get("mcpServers").unwrap().get("kodegen").is_some());
}

#[test]
fn canonical_registration_record_defaults() {
    let c = KodegenConfig::default();
    assert_eq!(c.command, "kodegen");
    assert_eq!(c.args, vec!["--stdio".to_owned()]);
    assert!(c.env.is_none());

    let h = KodegenHttpConfig::default();
    assert_eq!(h.transport_type, "streamable-http");
    assert_eq!(h.url, "https://kodegen.kodegen.dev:8443");
}
