//! The logged-in account as the identity endpoint reports it.

use vstd::prelude::*;

verus! {

/// The logged-in user: name, description, and granted roles.
#[derive(Debug, Clone, PartialEq)]
pub struct Me {
    pub user: Option<String>,
    pub description: Option<String>,
    pub roles: Vec<String>,
}

} // verus!
