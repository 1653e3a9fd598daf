//! Who may run which command: the permissions of the member, helper and administrator roles.
use vstd::prelude::*;

verus! {

/// Every permission that serenity's `Permissions` defines, as bits.
pub open spec fn all_permission_bits() -> u64 {
    0x7_7fff_ffff_ffff
}

/// `serenity::model::Permissions::all().bits()`: every permission flag serenity 0.12 defines
/// (bits 0 to 46 and 48 to 50), as its source lists them.
#[verifier::external_body]
fn all_permissions() -> (r: u64)
    ensures
        r == all_permission_bits(),
{
    serenity::model::Permissions::all().bits()
}

/// The permissions of the three staff levels, as permission bits.
#[derive(Clone, Copy, PartialEq, Eq, Structural, Debug, Default)]
pub struct PermissionData {
    pub member_permissions: u64,
    pub helper_permissions: u64,
    pub administrator_permissions: u64,
}

/// Whether every permission of `required` is in `held`.
pub open spec fn contains_permissions(held: u64, required: u64) -> bool {
    held & required == required
}

impl PermissionData {
    /// Permissions needed for administrator commands.
    pub fn at_least_admin(&self) -> (r: u64)
        ensures
            r == self.administrator_permissions,
    {
        self.administrator_permissions
    }

    /// Permissions needed for helper commands: those that helpers and administrators share.
    pub fn at_least_helper(&self) -> (r: u64)
        ensures
            r == self.helper_permissions & self.administrator_permissions,
    {
        self.helper_permissions & self.administrator_permissions
    }

    /// Permissions needed for member commands: those that all three levels share.
    pub fn at_least_member(&self) -> (r: u64)
        ensures
            r == self.member_permissions & (self.helper_permissions & self.administrator_permissions),
    {
        self.member_permissions & (self.helper_permissions & self.administrator_permissions)
    }

    /// The permissions taken from the three roles; two roles with the same permissions both get
    /// every permission, so that no command meant for one level opens to the other.
    pub fn from_roles(member: u64, helper: u64, admin: u64) -> (r: PermissionData)
        ensures
            r == role_permissions_spec(member, helper, admin),
    {
        let all = all_permissions();
        let mut p = PermissionData { member_permissions: member, helper_permissions: helper, administrator_permissions: admin };
        if member == admin {
            p.member_permissions = all;
            p.administrator_permissions = all;
        }
        if helper == admin {
            p.helper_permissions = all;
            p.administrator_permissions = all;
        }
        if member == helper {
            p.member_permissions = all;
            p.helper_permissions = all;
        }
        p
    }
}

/// The permissions taken from the member, helper and administrator roles.
pub open spec fn role_permissions_spec(member: u64, helper: u64, admin: u64) -> PermissionData {
    let all = all_permission_bits();
    PermissionData {
        member_permissions: if member == admin || member == helper { all } else { member },
        helper_permissions: if helper == admin || member == helper { all } else { helper },
        administrator_permissions: if member == admin || helper == admin { all } else { admin },
    }
}

/// The requirement of each level is part of the one above it: whoever may run administrator
/// commands may run helper commands, and whoever may run helper commands may run member commands.
pub proof fn lemma_permission_levels_nested(p: PermissionData)
    ensures
        contains_permissions(p.administrator_permissions, p.helper_permissions & p.administrator_permissions),
        contains_permissions(
            p.helper_permissions & p.administrator_permissions,
            p.member_permissions & (p.helper_permissions & p.administrator_permissions),
        ),
{
    let m = p.member_permissions;
    let h = p.helper_permissions;
    let a = p.administrator_permissions;
    assert(a & (h & a) == h & a) by (bit_vector);
    assert((h & a) & (m & (h & a)) == m & (h & a)) by (bit_vector);
}

/// Whether a user holding `held` may use a command that asks for `required`.
pub fn has_permissions(held: u64, required: u64) -> (r: bool)
    ensures
        r == contains_permissions(held, required),
{
    held & required == required
}

/// The kinds of command the help lists apart.
#[derive(PartialEq, Eq, Structural, Clone, Copy, Debug)]
pub enum CommandKind {
    ChatInput,
    User,
    Message,
    Other,
}

/// Whether the help shows a command to a user: the user holds the command's default permissions,
/// and the command is a slash command or has no kind set.
pub open spec fn shown_in_help_spec(user_permissions: u64, required: Option<u64>, kind: Option<CommandKind>) -> bool {
    &&& (match required {
        Some(perms) => contains_permissions(user_permissions, perms),
        None => true,
    })
    &&& (match kind {
        Some(k) => k == CommandKind::ChatInput,
        None => true,
    })
}

/// Whether the help shows a command to a user.
pub fn shown_in_help(user_permissions: u64, required: Option<u64>, kind: Option<CommandKind>) -> (r: bool)
    ensures
        r == shown_in_help_spec(user_permissions, required, kind),
{
    match required {
        Some(perms) => {
            if !has_permissions(user_permissions, perms) {
                return false;
            }
        },
        None => {},
    }
    match kind {
        Some(k) => k == CommandKind::ChatInput,
        None => true,
    }
}

} // verus!
