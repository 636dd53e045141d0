//! Which credentials to offer when a remote asks for authentication.

use vstd::prelude::*;

verus! {

/// Where the credentials for a remote come from.
#[derive(Debug)]
pub enum CredentialPlan {
    /// Ask the SSH agent for a key of this user.
    SshAgent(String),
    /// SSH was asked for but the URL names no user: refuse.
    NoUsername,
    /// Try the configured credential helpers, then the default credentials.
    HelperThenDefault,
    /// Offer the default credentials.
    Default,
}

/// The plan for one request: an SSH key from the agent when SSH keys are
/// allowed (which needs a user name), else the credential helpers when a
/// user name and password are allowed, else the default credentials.
pub fn credential_plan(ssh_key_allowed: bool, user_pass_allowed: bool, username: Option<&str>) -> (r:
    CredentialPlan)
    ensures
        ssh_key_allowed && username is Some ==> (r matches CredentialPlan::SshAgent(u) && u@
            == username->0@),
        ssh_key_allowed && username is None ==> (r is NoUsername),
        !ssh_key_allowed && user_pass_allowed ==> (r is HelperThenDefault),
        !ssh_key_allowed && !user_pass_allowed ==> (r is Default),
{
    if ssh_key_allowed {
        match username {
            Some(u) => CredentialPlan::SshAgent(String::from_str(u)),
            None => CredentialPlan::NoUsername,
        }
    } else if user_pass_allowed {
        CredentialPlan::HelperThenDefault
    } else {
        CredentialPlan::Default
    }
}

} // verus!
