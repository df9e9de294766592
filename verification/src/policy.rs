//! Role-based access policy: one table mapping (caller role, action) to a
//! permit/deny decision, shared by every administrative entry point.

use vstd::prelude::*;

verus! {

/// The administrative actions this backend gates on the caller's role.
#[derive(Clone, Copy, Debug, PartialEq, Eq, Structural)]
pub enum Action {
    AdminCreateUser,
    ToggleActivation,
    EditProfile,
    DeleteAccount,
    ListAccounts,
}

/// True exactly for the privileged role tiers: the super-admin (0) and the
/// two admin tiers (1 and 2).
pub open spec fn spec_role_permitted(role: i32) -> bool {
    role == 0 || role == 1 || role == 2
}

/// Access decision for an administrative action: permitted only to the roles
/// 0, 1 and 2; every other role, including any negative role, is denied.
pub fn permit(role: i32, action: Action) -> (r: bool)
    ensures
        r == spec_role_permitted(role),
        r <==> 0 <= role <= 2,
{
    match action {
        Action::AdminCreateUser => role == 0 || role == 1 || role == 2,
        Action::ToggleActivation => role == 0 || role == 1 || role == 2,
        Action::EditProfile => role == 0 || role == 1 || role == 2,
        Action::DeleteAccount => role == 0 || role == 1 || role == 2,
        Action::ListAccounts => role == 0 || role == 1 || role == 2,
    }
}

/// Law: the role gate admits exactly the roles 0, 1 and 2, whatever the
/// administrative action.
pub proof fn lemma_role_gate(role: i32)
    ensures
        spec_role_permitted(role) <==> (role == 0 || role == 1 || role == 2),
        role < 0 ==> !spec_role_permitted(role),
        role > 2 ==> !spec_role_permitted(role),
{
}

} // verus!
