//! Permission atoms and their explicit containment table.

use vstd::prelude::*;

verus! {

/// A permission group of an account.
#[derive(Debug, Clone, Copy, PartialEq, Eq, Hash, Structural)]
#[non_exhaustive]
pub enum Permission {
    /// Post postings. Contains `GetPubPost`.
    Post,
    /// Get public posts.
    GetPubPost,
    /// View, approve or reject posts. Contains `GetPubPost`.
    ReviewPost,
    /// Remove posts. Contains `GetPubPost` and `ReviewPost`.
    RemovePost,
    /// Append or remove permissions of an account.
    /// Contains `ViewSimpleAccount` and `ViewFullAccount`.
    SetPermissions,
    /// Get full information of an account. Contains `ViewSimpleAccount`.
    ViewFullAccount,
    /// Get simple information of an account.
    ViewSimpleAccount,
    /// Manage notifications. Contains `GetPubNotifications`.
    ManageNotifications,
    /// Get public notifications.
    GetPubNotifications,
    /// Upload resources.
    UploadResource,
    /// Maintain this system.
    Maintain,
}

/// The declared containment table: holding `a` implies holding `b`.
/// Every implication is listed; nothing is derived by closure.
pub open spec fn permission_contains(a: Permission, b: Permission) -> bool {
    match (a, b) {
        (Permission::Post, Permission::GetPubPost) => true,
        (Permission::SetPermissions, Permission::ViewFullAccount) => true,
        (Permission::SetPermissions, Permission::ViewSimpleAccount) => true,
        (Permission::ViewFullAccount, Permission::ViewSimpleAccount) => true,
        (Permission::ReviewPost, Permission::GetPubPost) => true,
        (Permission::RemovePost, Permission::GetPubPost) => true,
        (Permission::RemovePost, Permission::ReviewPost) => true,
        (Permission::ManageNotifications, Permission::GetPubNotifications) => true,
        _ => false,
    }
}

/// The permissions that every new account holds.
pub open spec fn in_default_set(p: Permission) -> bool {
    p == Permission::Post || p == Permission::GetPubPost || p == Permission::ViewSimpleAccount
        || p == Permission::UploadResource || p == Permission::GetPubNotifications
}

impl Permission {
    /// The permissions granted to a newly created account, each once.
    pub fn default_set() -> (r: Vec<Permission>)
        ensures
            r@ == seq![
                Permission::Post,
                Permission::GetPubPost,
                Permission::ViewSimpleAccount,
                Permission::UploadResource,
                Permission::GetPubNotifications,
            ],
            forall|p: Permission| r@.contains(p) <==> in_default_set(p),
            r@.no_duplicates(),
    {
        let r = vec![
            Permission::Post,
            Permission::GetPubPost,
            Permission::ViewSimpleAccount,
            Permission::UploadResource,
            Permission::GetPubNotifications,
        ];
        proof {
            assert forall|p: Permission| r@.contains(p) <==> in_default_set(p) by {
                if in_default_set(p) {
                    if p == Permission::Post {
                        assert(r@[0] == p);
                    } else if p == Permission::GetPubPost {
                        assert(r@[1] == p);
                    } else if p == Permission::ViewSimpleAccount {
                        assert(r@[2] == p);
                    } else if p == Permission::UploadResource {
                        assert(r@[3] == p);
                    } else {
                        assert(r@[4] == p);
                    }
                }
            }
        }
        r
    }

    /// Whether holding `self` implies holding `permission`, by exact lookup
    /// in the containment table.
    pub fn contains(&self, permission: &Permission) -> (r: bool)
        ensures
            r == permission_contains(*self, *permission),
    {
        match (self, permission) {
            (Permission::Post, Permission::GetPubPost) => true,
            (Permission::SetPermissions, Permission::ViewFullAccount) => true,
            (Permission::SetPermissions, Permission::ViewSimpleAccount) => true,
            (Permission::ViewFullAccount, Permission::ViewSimpleAccount) => true,
            (Permission::ReviewPost, Permission::GetPubPost) => true,
            (Permission::RemovePost, Permission::GetPubPost) => true,
            (Permission::RemovePost, Permission::ReviewPost) => true,
            (Permission::ManageNotifications, Permission::GetPubNotifications) => true,
            _ => false,
        }
    }
}

/// No permission contains itself, and containment never runs both ways.
pub proof fn lemma_contains_irreflexive_antisymmetric(a: Permission, b: Permission)
    ensures
        !permission_contains(a, a),
        permission_contains(a, b) ==> !permission_contains(b, a),
{
}

/// Every implication that follows by two steps of the table is listed in it.
pub proof fn lemma_contains_closed(a: Permission, b: Permission, c: Permission)
    requires
        permission_contains(a, b),
        permission_contains(b, c),
    ensures
        permission_contains(a, c),
{
}

} // verus!
