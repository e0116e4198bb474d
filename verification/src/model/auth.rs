//! Credential details as the authentication endpoints report them.

use vstd::prelude::*;

verus! {

/// The server's view of the credential behind the current consumer key.
#[derive(Debug, Clone, PartialEq)]
pub struct CredentialDetails {
    pub allowed_ips: Vec<String>,
    pub application_id: u64,
    pub creation: String,
    pub credential_id: u64,
    pub expiration: Option<String>,
    pub last_use: Option<String>,
    pub ovh_support: bool,
    pub status: String,
    pub rules: Vec<AccessRule>,
}

/// One access rule granted to a credential.
#[derive(Debug, Clone, PartialEq)]
pub struct AccessRule {
    pub method: String,
    pub path: String,
}

} // verus!
