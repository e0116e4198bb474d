//! Domain records of the Data Integration product: sources, destinations,
//! connectors, workflows, jobs and source metadata, plus the specification
//! types sent when creating or updating them.
//!
//! Instants are seconds since the Unix epoch.

use vstd::prelude::*;
use crate::model::{ErrorDetails, Parameter};

verus! {

/// A source connector: a catalog entry describing one kind of source.
#[derive(Debug, Clone, PartialEq)]
pub struct SourceConnector {
    pub id: String,
    pub name: String,
    pub version: String,
    pub description: String,
    pub documentation_url: Option<String>,
    pub parameters: Vec<ConnectorParameter>,
}

/// A destination connector: a catalog entry describing one kind of
/// destination.
#[derive(Debug, Clone, PartialEq)]
pub struct DestinationConnector {
    pub id: String,
    pub name: String,
    pub version: String,
    pub description: String,
    pub documentation_url: Option<String>,
    pub parameters: Vec<ConnectorParameter>,
}

/// One parameter a connector accepts.
#[derive(Debug, Clone, PartialEq)]
pub struct ConnectorParameter {
    pub name: String,
    pub default: Option<String>,
    pub mandatory: bool,
    pub value_type: String,
    pub validator: Option<ConnectorValidator>,
    pub description: String,
}

/// The validation bounds of an integer connector parameter.
#[derive(Debug, Clone, PartialEq)]
pub struct ConnectorValidator {
    pub min: i64,
    pub max: i64,
    pub regex: Option<String>,
}

/// A configured source.
#[derive(Debug, Clone, PartialEq)]
pub struct Source {
    pub id: String,
    pub name: String,
    pub status: String,
    pub creation_date: i64,
    pub last_update_date: Option<i64>,
    pub connector_id: String,
    pub parameters: Vec<Parameter>,
}

/// What a caller sends to create or update a source.
#[derive(Debug, Clone, PartialEq)]
pub struct SourceSpec {
    pub name: String,
    pub connector_id: Option<String>,
    pub parameters: Vec<Parameter>,
}

/// A configured destination.
#[derive(Debug, Clone, PartialEq)]
pub struct Destination {
    pub name: String,
    pub id: String,
    pub status: String,
    pub creation_date: i64,
    pub last_update_date: Option<i64>,
    pub connector_id: String,
    pub parameters: Vec<Parameter>,
}

/// What a caller sends to create or update a destination.
#[derive(Debug, Clone, PartialEq)]
pub struct DestinationSpec {
    pub name: String,
    pub connector_id: Option<String>,
    pub parameters: Vec<Parameter>,
}

/// A workflow binding a source to a destination on a schedule.
#[derive(Debug, Clone, PartialEq)]
pub struct Workflow {
    pub id: String,
    pub name: String,
    pub description: Option<String>,
    pub region: String,
    pub source_id: Option<String>,
    pub source_name: Option<String>,
    pub destination_id: Option<String>,
    pub destination_name: Option<String>,
    pub parameters: Vec<Parameter>,
    pub last_execution_date: Option<i64>,
    pub schedule: Option<String>,
    pub enabled: bool,
    pub status: Option<String>,
    pub error_details: Option<ErrorDetails>,
}

/// What a caller sends to create a workflow.
#[derive(Debug, Clone, PartialEq)]
pub struct WorkflowSpec {
    pub name: String,
    pub region: String,
    pub description: Option<String>,
    pub source_id: String,
    pub destination_id: String,
    pub schedule: Option<String>,
    pub enabled: bool,
}

/// What a caller sends to update a workflow; absent fields stay unchanged.
#[derive(Debug, Clone, PartialEq)]
pub struct WorkflowPatch {
    pub name: Option<String>,
    pub description: Option<String>,
    pub schedule: Option<String>,
    pub enabled: Option<bool>,
}

/// One run of a workflow.
#[derive(Debug, Clone, PartialEq)]
pub struct Job {
    pub id: String,
    pub status: String,
    pub created_at: i64,
    pub started_at: Option<i64>,
    pub ended_at: Option<i64>,
}

/// What a caller sends to start a job.
#[derive(Debug, Clone, PartialEq)]
pub struct JobPost {
    pub parameters: Vec<String>,
}

/// Metadata extracted from one table of a source.
#[derive(Debug, Clone, PartialEq)]
pub struct TableMeta {
    pub table_name: String,
    pub status: String,
    pub error: Option<String>,
    pub error_code: Option<String>,
    pub started_at: Option<i64>,
    pub ended_at: Option<i64>,
    pub metadata: Vec<Metadata>,
}

/// The list of per-table metadata of a source.
pub type TablesMeta = Vec<TableMeta>;

/// Column-level metadata of a table.
#[derive(Debug, Clone, PartialEq)]
pub struct Metadata {
    pub name: String,
    pub value_type: String,
    pub cardinality: i64,
    pub min: i64,
    pub max: i64,
}

} // verus!
