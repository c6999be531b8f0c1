//! The role of a remote.

use vstd::prelude::*;

verus! {

/// The roles that a remote reports of itself.
#[derive(Clone, Copy, Debug, PartialEq, Eq, Structural)]
pub struct Roles {
    /// Whether the remote acts as an authority.
    pub authority: bool,
    /// Whether the remote holds the full chain.
    pub full: bool,
}

/// Role of a remote, as the node sees it.
#[derive(Clone, Copy, Debug, PartialEq, Eq, Structural)]
pub enum ObservedRole {
    /// Full node.
    Full,
    /// Light node.
    Light,
    /// Authority.
    Authority,
}

/// The role that the reported `roles` amount to: an authority is one whatever else it reports,
/// and a node that is neither an authority nor full is a light node.
pub open spec fn observed_role(roles: Roles) -> ObservedRole {
    if roles.authority {
        ObservedRole::Authority
    } else if roles.full {
        ObservedRole::Full
    } else {
        ObservedRole::Light
    }
}

impl Roles {
    /// Whether the remote acts as an authority.
    pub fn is_authority(&self) -> (res: bool)
        ensures
            res == self.authority,
    {
        self.authority
    }

    /// Whether the remote holds the full chain.
    pub fn is_full(&self) -> (res: bool)
        ensures
            res == self.full,
    {
        self.full
    }
}

/// Turns the roles that a remote reports into the role under which it is announced.
pub fn reported_roles_to_observed_role(roles: Roles) -> (res: ObservedRole)
    ensures
        res == observed_role(roles),
{
    if roles.is_authority() {
        ObservedRole::Authority
    } else if roles.is_full() {
        ObservedRole::Full
    } else {
        ObservedRole::Light
    }
}

} // verus!
