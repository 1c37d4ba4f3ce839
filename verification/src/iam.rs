//! Authorization probe: roles form a total order and a caller may act on an
//! application iff the role the store resolved for it meets the required one.

use vstd::prelude::*;

verus! {

/// A caller's role on an application, from weakest to strongest.
#[derive(Clone, Copy, Debug, PartialEq, Eq, Structural)]
pub enum Role {
    Viewer,
    Editor,
    Owner,
}

impl Role {
    /// Rank of the role in the total order Viewer <= Editor <= Owner.
    pub open spec fn level_spec(&self) -> int {
        match self {
            Role::Viewer => 0,
            Role::Editor => 1,
            Role::Owner => 2,
        }
    }

    /// Rank of the role in the total order Viewer <= Editor <= Owner.
    pub fn level(&self) -> (r: u8)
        ensures
            r == self.level_spec(),
    {
        match self {
            Role::Viewer => 0,
            Role::Editor => 1,
            Role::Owner => 2,
        }
    }
}

/// The decision of the authorization probe: the store is the single source of
/// truth, so the caller passes iff the store resolved a role for it on the
/// application and that role meets or exceeds the required one. Absence of a
/// role mapping denies.
pub open spec fn access_allowed(resolved_role: Option<Role>, required_role: Role) -> bool {
    match resolved_role {
        Some(role) => role.level_spec() >= required_role.level_spec(),
        None => false,
    }
}

/// Decide whether a caller holding `resolved_role` (the role the store
/// resolved for the claims principal, if any) may act on the application with
/// `required_role`.
pub fn can_access_application(resolved_role: Option<Role>, required_role: Role) -> (r: bool)
    ensures
        r == access_allowed(resolved_role, required_role),
{
    match resolved_role {
        Some(role) => role.level() >= required_role.level(),
        None => false,
    }
}

} // verus!
