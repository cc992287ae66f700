use vstd::prelude::*;
use vstd::string::StringExecFns;

use crate::text;
use crate::ClientConfigPlugin;
use crate::ConfigFormat;
use crate::MergeError;
use crate::Platform;

verus! {

/// The outcome of configuring one client: purely informational, produced
/// once per plugin per installer run.
pub struct InstallResult {
    pub client_name: String,
    pub client_id: String,
    pub success: bool,
    pub message: String,
    pub config_path: Option<String>,
}

impl InstallResult {
    /// The client was not detected.
    pub fn not_installed(client_name: String, client_id: String) -> (r: Self)
        ensures
            r.client_name@ == client_name@,
            r.client_id@ == client_id@,
            !r.success,
            r.message@ == "Not installed"@,
            r.config_path is None,
    {
        InstallResult {
            client_name,
            client_id,
            success: false,
            message: "Not installed".to_owned(),
            config_path: Option::None,
        }
    }

    /// Every candidate configuration path failed.
    pub fn failed(client_name: String, client_id: String) -> (r: Self)
        ensures
            r.client_name@ == client_name@,
            r.client_id@ == client_id@,
            !r.success,
            r.message@ == "Failed to configure"@,
            r.config_path is None,
    {
        InstallResult {
            client_name,
            client_id,
            success: false,
            message: "Failed to configure".to_owned(),
            config_path: Option::None,
        }
    }

    /// A missing configuration file was created afresh.
    pub fn created(client_name: String, client_id: String, path: String) -> (r: Self)
        ensures
            r.client_name@ == client_name@,
            r.client_id@ == client_id@,
            r.success,
            r.message@ == "Created new config"@,
            r.config_path matches Some(p) && p@ == path@,
    {
        InstallResult {
            client_name,
            client_id,
            success: true,
            message: "Created new config".to_owned(),
            config_path: Option::Some(path),
        }
    }

    /// The file already carried the registration; nothing was written.
    pub fn already_configured(client_name: String, client_id: String, path: String) -> (r: Self)
        ensures
            r.client_name@ == client_name@,
            r.client_id@ == client_id@,
            r.success,
            r.message@ == "Already configured"@,
            r.config_path matches Some(p) && p@ == path@,
    {
        InstallResult {
            client_name,
            client_id,
            success: true,
            message: "Already configured".to_owned(),
            config_path: Option::Some(path),
        }
    }

    /// The registration was injected and written back.
    pub fn configured(client_name: String, client_id: String, path: String) -> (r: Self)
        ensures
            r.client_name@ == client_name@,
            r.client_id@ == client_id@,
            r.success,
            r.message@ == "Configured successfully"@,
            r.config_path matches Some(p) && p@ == path@,
    {
        InstallResult {
            client_name,
            client_id,
            success: true,
            message: "Configured successfully".to_owned(),
            config_path: Option::Some(path),
        }
    }
}

/// What to do with one candidate configuration file, decided from its
/// contents alone; the caller performs the filesystem work.
pub enum ConfigPlan {
    /// The file is missing: create parent directories and write this text.
    CreateNew(String),
    /// The file already mentions the service: leave it untouched.
    AlreadyConfigured,
    /// Copy the file to its backup path first, then write this text.
    WriteWithBackup(String),
    /// Injection failed: abandon this path and try the next candidate.
    Abandon(MergeError),
}

/// The sibling backup path: the original path with the fixed suffix appended.
pub fn backup_path_for(path: &str) -> (r: String)
    ensures
        r@ == path@ + ".backup"@,
{
    let mut r = path.to_owned();
    r.append(".backup");
    r
}

/// The substring signal the orchestrator checks before parsing: any document
/// mentioning the service name counts as already configured.
pub fn content_is_configured(content: &str) -> (r: bool)
    ensures
        r == text::spec_contains(content@, "kodegen"@),
{
    text::contains_text(content, "kodegen")
}

/// Decides the read→check→backup→inject→write sequence for one candidate
/// path, given what reading the file produced (`None` means the file is
/// missing). A missing file is synthesized from an empty JSON object; a file
/// whose text mentions the service is left untouched; otherwise the plugin's
/// injection runs and its output is to be written after a backup.
pub fn plan_config_update<P: ClientConfigPlugin>(
    plugin: &P,
    format: ConfigFormat,
    platform: Platform,
    existing: &Option<String>,
) -> (r: ConfigPlan)
    ensures
        existing is None && plugin.spec_inject_ok("{}"@, format, platform) ==> (r matches
            ConfigPlan::CreateNew(t) && plugin.spec_inject_post("{}"@, format, platform, t@)),
        existing is None && !plugin.spec_inject_ok("{}"@, format, platform) ==> r matches
            ConfigPlan::Abandon(_),
        existing matches Some(c) ==> (if text::spec_contains(c@, "kodegen"@) {
            r matches ConfigPlan::AlreadyConfigured
        } else if plugin.spec_inject_ok(c@, format, platform) {
            r matches ConfigPlan::WriteWithBackup(t) && plugin.spec_inject_post(
                c@,
                format,
                platform,
                t@,
            )
        } else {
            r matches ConfigPlan::Abandon(_)
        }),
{
    match existing {
        Option::None => {
            match plugin.inject_kodegen("{}", format, platform) {
                Ok(t) => ConfigPlan::CreateNew(t),
                Err(e) => ConfigPlan::Abandon(e),
            }
        },
        Option::Some(c) => {
            if content_is_configured(c.as_str()) {
                ConfigPlan::AlreadyConfigured
            } else {
                match plugin.inject_kodegen(c.as_str(), format, platform) {
                    Ok(t) => ConfigPlan::WriteWithBackup(t),
                    Err(e) => ConfigPlan::Abandon(e),
                }
            }
        },
    }
}

} // verus!
