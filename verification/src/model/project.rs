//! Cloud projects as the project endpoints report them.

use vstd::prelude::*;

verus! {

/// One cloud project: its service name and description.
#[derive(Debug, Clone, PartialEq)]
pub struct Project {
    pub project_id: String,
    pub description: String,
}

} // verus!
