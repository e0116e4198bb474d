//! Client-side configuration and command state: regions, stored credentials,
//! runtime context, feature toggles, and the data carried by the upgrade and
//! authentication commands.  All ambient state of the surrounding program is
//! modeled as explicit values passed in.

use vstd::prelude::*;
use vstd::string::StringExecFns;
use crate::config::{Config as RegionConfig, ConfigName};
use crate::model::EnsureSecret;

verus! {

/// An API region.
#[derive(Debug, Clone, Copy, PartialEq, Eq, Structural)]
pub enum Region {
    EU,
    CA,
}

impl Region {
    /// The region's display name.
    pub fn as_str(&self) -> (r: &'static str)
        ensures
            *self == Region::EU ==> r@ == "OVH-EU"@,
            *self == Region::CA ==> r@ == "OVH-CA"@,
    {
        match self {
            Region::EU => "OVH-EU",
            Region::CA => "OVH-CA",
        }
    }
}

/// The credential tuple as stored on behalf of a user.
#[derive(Debug, Clone, PartialEq)]
pub struct Ovhapiv6Credentials {
    pub application_key: Option<String>,
    pub application_secret: Option<String>,
    pub consumer_key: Option<String>,
}

impl EnsureSecret<Ovhapiv6Credentials> for Ovhapiv6Credentials {
    /// A copy fit for display: the application secret is always masked.
    fn hide_secrets(&self) -> (r: Ovhapiv6Credentials)
        ensures
            r.application_key == self.application_key,
            r.consumer_key == self.consumer_key,
            r.application_secret matches Some(s) && s@ == "[hidden_secret]"@,
    {
        Ovhapiv6Credentials {
            application_key: clone_opt_string(&self.application_key),
            application_secret: Some(String::from_str("[hidden_secret]")),
            consumer_key: clone_opt_string(&self.consumer_key),
        }
    }
}

fn clone_opt_string(o: &Option<String>) -> (r: Option<String>)
    ensures
        r == *o,
{
    match o {
        Some(s) => Some(s.clone()),
        None => None,
    }
}

/// The runtime context attached to a configuration.
#[derive(Debug, Clone, PartialEq)]
pub struct RuntimeContext {
    pub service_name: Option<String>,
}

/// Optional behaviours a user can switch off.
#[derive(Debug, Clone, PartialEq)]
pub struct Features {
    pub auto_upgrade: bool,
    pub confirm_before_upgrade: bool,
    pub app_beta_banner: bool,
}

impl Default for Features {
    /// Every feature starts enabled.
    fn default() -> (r: Features)
        ensures
            r.auto_upgrade && r.confirm_before_upgrade && r.app_beta_banner,
    {
        Features { auto_upgrade: true, confirm_before_upgrade: true, app_beta_banner: true }
    }
}

/// The default for a feature flag that is absent from a stored context.
pub fn default_as_true() -> (r: bool)
    ensures
        r,
{
    true
}

/// A one-way flag remembered across runs.
#[derive(Debug, Clone, Copy, PartialEq, Eq, Structural)]
pub enum Toggle {
    NoToggle,
    HelpLogin,
}

/// Identifiers attached to every structured log line.
#[derive(Debug, Clone, PartialEq)]
pub struct DataLogContext {
    pub project_uuid: String,
    pub datasync_uuid: String,
    pub volume_uuid: String,
    pub worker_id: String,
}

impl Default for DataLogContext {
    /// Every identifier starts as the literal `null`.
    fn default() -> (r: DataLogContext)
        ensures
            r.project_uuid@ == "null"@,
            r.datasync_uuid@ == "null"@,
            r.volume_uuid@ == "null"@,
            r.worker_id@ == "null"@,
    {
        DataLogContext {
            project_uuid: String::from_str("null"),
            datasync_uuid: String::from_str("null"),
            volume_uuid: String::from_str("null"),
            worker_id: String::from_str("null"),
        }
    }
}

impl DataLogContext {
    /// The same context with the project identifier set.
    pub fn with_project_uuid(self, project_uuid: String) -> (r: Self)
        ensures
            r.project_uuid == project_uuid,
            r.datasync_uuid == self.datasync_uuid,
            r.volume_uuid == self.volume_uuid,
            r.worker_id == self.worker_id,
    {
        DataLogContext { project_uuid, ..self }
    }

    /// The same context with the synchronisation identifier set.
    pub fn with_datasync_uuid(self, datasync_uuid: String) -> (r: Self)
        ensures
            r.datasync_uuid == datasync_uuid,
            r.project_uuid == self.project_uuid,
            r.volume_uuid == self.volume_uuid,
            r.worker_id == self.worker_id,
    {
        DataLogContext { datasync_uuid, ..self }
    }

    /// The same context with the volume identifier set.
    pub fn with_volume_uuid(self, progress_uuid: String) -> (r: Self)
        ensures
            r.volume_uuid == progress_uuid,
            r.project_uuid == self.project_uuid,
            r.datasync_uuid == self.datasync_uuid,
            r.worker_id == self.worker_id,
    {
        DataLogContext { volume_uuid: progress_uuid, ..self }
    }

    /// The same context with the worker number set, rendered in decimal.
    pub fn with_worker_id(self, worker_id: u32) -> (r: Self)
        ensures
            r.worker_id@ == crate::strutil::dec_str(worker_id as int),
            r.project_uuid == self.project_uuid,
            r.datasync_uuid == self.datasync_uuid,
            r.volume_uuid == self.volume_uuid,
    {
        DataLogContext { worker_id: crate::strutil::u64_to_dec(worker_id as u64), ..self }
    }
}

/// A region configuration as the command layer sees it: its name, the
/// configuration proper, and the runtime context, if any.
#[derive(Debug, Clone, PartialEq)]
pub struct Config {
    pub name: ConfigName,
    pub config: RegionConfig,
    pub context: Option<RuntimeContext>,
}

impl Config {
    /// Bundles a named configuration with its context.
    pub fn new(name: ConfigName, config: RegionConfig, context: Option<RuntimeContext>) -> (r:
        Config)
        ensures
            r.name == name,
            r.config == config,
            r.context == context,
    {
        Config { name, config, context }
    }
}

/// A configuration row of an interactive selection list.
pub struct SelectableItem {
    pub item: Config,
    pub is_selected: bool,
}

impl SelectableItem {
    /// Bundles a row with its selection state.
    pub fn new(item: Config, is_selected: bool) -> (r: SelectableItem)
        ensures
            r.item == item,
            r.is_selected == is_selected,
    {
        SelectableItem { item, is_selected }
    }
}

/// One downloadable artifact of a release.
#[derive(Debug, Clone, PartialEq)]
pub struct GithubAsset {
    pub name: String,
    pub browser_download_url: String,
}

/// A published release of the client.
#[derive(Debug, Clone, PartialEq)]
pub struct GithubRelease {
    pub tag_name: String,
    pub created_at: Option<String>,
    pub published_at: Option<String>,
    pub assets: Vec<GithubAsset>,
}

/// The authentication command: logs in and out against a configuration.
pub struct Auth {
    pub config: Config,
}

impl Auth {
    /// An authentication command over the given configuration.
    pub fn new(config: Config) -> (r: Auth)
        ensures
            r.config == config,
    {
        Auth { config }
    }
}

/// The shell-completion command.
pub struct CompletionCommand {}

impl CompletionCommand {
    /// A completion command.
    pub fn new() -> CompletionCommand {
        CompletionCommand {  }
    }
}

/// The log-replay command.
pub struct DebugCommand {}

impl DebugCommand {
    /// A log-replay command.
    pub fn new() -> DebugCommand {
        DebugCommand {  }
    }
}

/// The self-upgrade command.
pub struct Upgrade {}

impl Upgrade {
    /// An upgrade command.
    pub fn new() -> Upgrade {
        Upgrade {  }
    }
}

} // verus!
