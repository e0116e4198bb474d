//! Common model types shared by the domain records: connector parameters,
//! statuses, error bodies, pagination, and the secret-hiding discipline.
//!
//! Instants are carried as seconds since the Unix epoch; the surrounding
//! application converts to and from its calendar types at the boundary.

pub mod di;
pub mod auth;
pub mod me;
pub mod project;

use vstd::prelude::*;
use vstd::string::StringExecFns;

verus! {

/// Implemented by types that may carry secrets: `hide_secrets` returns a copy
/// fit for display, with every secret value masked.  Secrets must never
/// appear in any diagnostic string.
pub trait EnsureSecret<T> {
    fn hide_secrets(&self) -> T;
}

/// One connector parameter: name, value, and whether the value is secret.
/// The secret flag is for internal use only and never travels to the API.
#[derive(Debug, Clone, PartialEq)]
pub struct Parameter {
    pub name: String,
    pub value: String,
    pub secret: bool,
}

impl EnsureSecret<Parameter> for Parameter {
    /// A copy whose value is masked when the parameter is secret.
    fn hide_secrets(&self) -> (r: Parameter)
        ensures
            r.name@ == self.name@,
            r.secret == self.secret,
            self.secret ==> r.value@ == "[secret_hidden]"@,
            !self.secret ==> r.value@ == self.value@,
    {
        let value = if self.secret {
            String::from_str("[secret_hidden]")
        } else {
            self.value.clone()
        };
        Parameter { name: self.name.clone(), value, secret: self.secret }
    }
}

/// A parameter list as rendered on a command line.
pub struct ParametersWrapper(pub Vec<Parameter>);

/// A connection status probe result: status text and the probe instant.
#[derive(Debug, Clone, PartialEq)]
pub struct Status {
    pub status: String,
    pub date: Option<i64>,
}

/// Structured error details attached to a workflow.
#[derive(Debug, Clone, PartialEq)]
pub struct ErrorDetails {
    pub code: String,
    pub description: String,
}

/// The best-effort structured error body: a JSON object with a `message`.
#[derive(Debug, Clone, PartialEq)]
pub struct ResponseError {
    pub message: String,
}

/// Transfer direction of a connector.
#[derive(Debug, Clone, PartialEq, Eq, Structural)]
pub enum Direction {
    Pull,
    Push,
}

/// A generic informational response body.
#[derive(Debug, Clone, PartialEq)]
pub struct Info {
    pub message: String,
}

/// A generic message response body.
#[derive(Debug, Clone, PartialEq)]
pub struct GenericResponse {
    pub message: String,
}

/// One page of a paged listing.
pub struct Page<T> {
    pub items: Vec<T>,
    pub metadata: PageMetadata,
}

/// Paging metadata for a listing response.
#[derive(Debug, Clone, PartialEq)]
pub struct PageMetadata {
    pub current_page: u32,
    pub page_count: u32,
    pub total: u32,
    pub links: PageMetadataLinks,
}

/// Links to further pages, when any.
#[derive(Debug, Clone, PartialEq)]
pub struct PageMetadataLinks {
    pub next: Option<String>,
}

impl<T> Page<T> {
    /// Wraps a full item list as its own single page.
    pub fn new_unique(items: Vec<T>) -> (r: Page<T>)
        ensures
            r.items@ == items@,
            r.metadata.current_page == 0,
            r.metadata.page_count == 1,
            r.metadata.total == items@.len() as u32,
            r.metadata.links.next is None,
    {
        let total = items.len() as u32;
        Page {
            items,
            metadata: PageMetadata {
                current_page: 0,
                page_count: 1,
                total,
                links: PageMetadataLinks { next: None },
            },
        }
    }
}

/// Age and duration summary columns derived from a record's instants.
#[derive(Debug, Clone, PartialEq)]
pub struct AgeEntity {
    pub age: Option<String>,
    pub last_update: Option<String>,
    pub duration: Option<String>,
    pub last_execution: Option<String>,
}

} // verus!
