//! The option records of every subcommand, as the argument parser fills
//! them: plain data handed from the surrounding application into the command
//! layer.

use vstd::prelude::*;
use crate::options::{NameValue, OutputList, OutputObject};

verus! {

/// Top of the command tree: one subcommand per run.
pub enum SubCommand {
    Config(ConfigShim),
    Upgrade(Upgrade),
    Debug(Debug),
    Di(DiShim),
    Login(Login),
    Logout(Logout),
    Me(Me),
}

/// The logout command takes nothing.
pub struct Logout {}

/// Credentials offered on the command line when logging in.
pub struct Login {
    pub application_key: Option<String>,
    pub consumer_key: Option<String>,
    pub secret: Option<String>,
    pub output: Option<OutputObject>,
}

/// Options of the self-upgrade command.
pub struct Upgrade {
    pub force: bool,
}

/// Options of the log-replay command.
pub struct Debug {
    pub session_id: String,
}

/// Options of the identity command.
pub struct Me {
    pub output: Option<OutputObject>,
}

/// A command whose only option is a single-object output format.
pub struct SingleOutputObject {
    pub output: Option<OutputObject>,
}

/// A command whose only option is a listing output format.
pub struct SingleOutputList {
    pub output: Option<OutputList>,
}

/// The configuration subcommand tree.
pub struct ConfigShim {
    pub subcmd: ConfigSubCommand,
}

/// What the configuration command can do.
pub enum ConfigSubCommand {
    List(ConfigList),
    Get(ConfigGet),
    SetConfig(ConfigSet),
    SetServiceName(ConfigServiceName),
}

/// Options of the configuration listing.
pub struct ConfigList {
    pub output: Option<OutputList>,
}

/// Options of setting the current configuration.
pub struct ConfigSet {
    pub config_name: Option<String>,
    pub output: Option<OutputObject>,
}

/// Options of showing one configuration.
pub struct ConfigGet {
    pub config_name: Option<String>,
    pub output: Option<OutputObject>,
}

/// Options of setting the default service name.
pub struct ConfigServiceName {
    pub service_name: Option<String>,
}

/// The data-integration subcommand tree.
pub struct DiShim {
    pub subcmd: DiSubCommands,
}

/// The product areas of the data-integration command.
pub enum DiSubCommands {
    Source(DiSubSourceCommands),
    Destination(DiSubDestCommands),
    SourceConnector(DiSubSourceConnectorCommands),
    DestinationConnector(DiSubDestConnectorCommands),
    Workflow(DiSubWorkflowCommands),
    Job(DiSubJobCommands),
}

/// What the source command can do.
pub enum DiSubSourceCommands {
    List(SourceList),
    Get(SourceGet),
    Status(SourceGet),
    Metadata(SourceSubMetaCommands),
    Create(SourceCreate),
    Update(SourceUpdate),
    Delete(SourceDelete),
}

/// What the source metadata command can do.
pub enum SourceSubMetaCommands {
    Get(SourceGet),
    Extract(SourceGet),
}

/// Options of the source listing.
pub struct SourceList {
    pub filter: Option<String>,
    pub sort: Option<String>,
    pub desc: bool,
    pub output: Option<OutputList>,
    pub script: bool,
}

/// Options of reading one source.
pub struct SourceGet {
    pub id: Option<String>,
    pub output: Option<OutputObject>,
}

/// Options of deleting a source.
pub struct SourceDelete {
    pub id: Option<String>,
    pub script: bool,
}

/// Options of creating a source.
pub struct SourceCreate {
    pub name: String,
    pub connector_id: Option<String>,
    pub parameters: Vec<NameValue>,
    pub output: Option<OutputObject>,
}

/// Options of updating a source.
pub struct SourceUpdate {
    pub id: Option<String>,
    pub name: Option<String>,
    pub parameters: Vec<NameValue>,
    pub output: Option<OutputObject>,
}

/// What the destination command can do.
pub enum DiSubDestCommands {
    List(DestList),
    Get(DestGet),
    Status(DestGet),
    Create(DestCreate),
    Update(DestUpdate),
    Delete(DestDelete),
}

/// Options of the destination listing.
pub struct DestList {
    pub filter: Option<String>,
    pub sort: Option<String>,
    pub desc: bool,
    pub output: Option<OutputList>,
    pub script: bool,
}

/// Options of reading one destination.
pub struct DestGet {
    pub id: Option<String>,
    pub output: Option<OutputObject>,
}

/// Options of deleting a destination.
pub struct DestDelete {
    pub id: Option<String>,
    pub script: bool,
}

/// Options of creating a destination.
pub struct DestCreate {
    pub name: String,
    pub connector_id: Option<String>,
    pub parameters: Vec<NameValue>,
    pub output: Option<OutputObject>,
}

/// Options of updating a destination.
pub struct DestUpdate {
    pub id: Option<String>,
    pub name: Option<String>,
    pub parameters: Vec<NameValue>,
    pub output: Option<OutputObject>,
}

/// What the workflow command can do.
pub enum DiSubWorkflowCommands {
    List(WorkflowList),
    Get(WorkflowGet),
    Create(WorkflowCreate),
    Delete(WorkflowDelete),
    Run(WorkflowRun),
    Update(WorkflowUpdate),
    Enable(WorkflowGet),
    Disable(WorkflowGet),
}

/// Options of the workflow listing.
pub struct WorkflowList {
    pub filter: Option<String>,
    pub sort: Option<String>,
    pub desc: bool,
    pub output: Option<OutputList>,
    pub script: bool,
}

/// Options of reading one workflow.
pub struct WorkflowGet {
    pub id: Option<String>,
    pub output: Option<OutputObject>,
}

/// Options of running a workflow once.
pub struct WorkflowRun {
    pub id: Option<String>,
    pub output: Option<OutputObject>,
}

/// Options of creating a workflow.
pub struct WorkflowCreate {
    pub name: String,
    pub source_id: Option<String>,
    pub destination_id: Option<String>,
    pub description: Option<String>,
    pub schedule: Option<String>,
    pub region: String,
    pub disabled: bool,
    pub output: Option<OutputObject>,
}

/// Options of deleting a workflow.
pub struct WorkflowDelete {
    pub id: Option<String>,
    pub script: bool,
}

/// Options of updating a workflow.
pub struct WorkflowUpdate {
    pub id: Option<String>,
    pub name: Option<String>,
    pub description: Option<String>,
    pub schedule: Option<String>,
    pub enabled: Option<bool>,
    pub output: Option<OutputObject>,
}

/// What the job command can do.
pub enum DiSubJobCommands {
    List(JobList),
    Get(JobGet),
    Stop(JobStop),
}

/// Options of the job listing.
pub struct JobList {
    pub workflow_id: Option<String>,
    pub filter: Option<String>,
    pub sort: Option<String>,
    pub desc: bool,
    pub output: Option<OutputList>,
    pub script: bool,
}

/// Options of reading one job.
pub struct JobGet {
    pub id: Option<String>,
    pub workflow_id: Option<String>,
    pub output: Option<OutputObject>,
}

/// Options of stopping a job.
pub struct JobStop {
    pub id: Option<String>,
    pub workflow_id: Option<String>,
}

/// What the source connector command can do.
pub enum DiSubSourceConnectorCommands {
    List(SourceConnectorList),
    Get(SourceConnectorGet),
}

/// Options of the source connector listing.
pub struct SourceConnectorList {
    pub output: Option<OutputList>,
}

/// Options of reading one source connector.
pub struct SourceConnectorGet {
    pub id: Option<String>,
    pub output: Option<OutputObject>,
}

/// What the destination connector command can do.
pub enum DiSubDestConnectorCommands {
    List(DestConnectorList),
    Get(DestConnectorGet),
}

/// Options of the destination connector listing.
pub struct DestConnectorList {
    pub output: Option<OutputList>,
}

/// Options of reading one destination connector.
pub struct DestConnectorGet {
    pub id: Option<String>,
    pub output: Option<OutputObject>,
}

} // verus!
