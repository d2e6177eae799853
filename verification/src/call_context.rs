//! The access control evaluator: given the caller of a call and the name of
//! a permission, grant or deny.

use crate::access::{
    any_role_held, contains_role, find_permission, first_owned, roles_intersect, AccessRole,
    Account, CanisterState, Permission,
};
use crate::identity::{principal_text, Identity};
use crate::repository::records;
use vstd::prelude::*;
use vstd::string::StringExecFns;

verus! {

/// The caller of one inbound call, captured at call entry.
#[derive(Clone, Debug)]
pub struct CallContext {
    caller: Identity,
}

/// A refusal: the caller may not exercise the permission. It ends the call.
#[derive(Clone, Debug, PartialEq, Eq)]
pub struct Denied {
    pub caller: Identity,
}

/// Built from the context of the call that it serves.
pub trait WithCallContext: Sized {
    fn with_call_context(call_context: CallContext) -> Self;
}

/// Whether `caller` passes every gate: the system itself, one of its
/// controllers, or the owner of an account with the Admin role.
pub open spec fn is_admin_caller(state: CanisterState, caller: Seq<u8>) -> bool {
    state.deployment.is_system_caller(caller) || match first_owned(records(state.accounts@), caller) {
        Some(account) => account.has_role(AccessRole::Admin),
        None => false,
    }
}

/// Whether a configured permission lets the owner of `account` pass: anyone
/// where Guest is allowed, else an account that is Admin or shares a role with
/// the permission.
pub open spec fn permission_grants(permission: Permission, account: Option<Account>) -> bool {
    permission.allows(AccessRole::Guest) || match account {
        Some(account) => account.has_role(AccessRole::Admin) || roles_intersect(
            permission.access_roles@,
            account.access_roles@,
        ),
        None => false,
    }
}

/// Whether `caller` may exercise the permission named `permission`.
pub open spec fn authorized(state: CanisterState, caller: Seq<u8>, permission: Seq<char>) -> bool {
    is_admin_caller(state, caller) || match find_permission(
        state.config.permissions@,
        permission,
    ) {
        Some(configured) => permission_grants(
            configured,
            first_owned(records(state.accounts@), caller),
        ),
        None => false,
    }
}

/// The text of a refusal for the caller whose textual identity is `caller`.
pub open spec fn denied_text(caller: Seq<char>) -> Seq<char> {
    "Access denied for user with principal `"@ + caller + "`"@
}

/// The text that reports a permission missing from the configuration.
pub open spec fn permission_not_found_text(permission: Seq<char>) -> Seq<char> {
    "Permission "@ + permission + " not found"@
}

/// The message of a refusal, given the caller's textual identity.
pub fn denied_message(caller_text: &str) -> (message: String)
    ensures
        message@ == denied_text(caller_text@),
{
    let mut message = String::from_str("Access denied for user with principal `");
    message.append(caller_text);
    message.append("`");
    message
}

/// The message for a permission that the configuration does not hold.
pub fn permission_not_found_message(permission: &str) -> (message: String)
    ensures
        message@ == permission_not_found_text(permission@),
{
    let mut message = String::from_str("Permission ");
    message.append(permission);
    message.append(" not found");
    message
}

impl Denied {
    /// The message with which the call is ended.
    pub fn message(&self) -> (message: String)
        ensures
            message@ == denied_text(principal_text(self.caller@)),
    {
        let text = self.caller.to_text();
        denied_message(text.as_str())
    }
}

impl Default for CallContext {
    fn default() -> (context: CallContext)
        ensures
            context.caller_bytes() == seq![4u8],
    {
        CallContext { caller: Identity::anonymous() }
    }
}

impl CallContext {
    /// The bytes of the caller's identity.
    pub closed spec fn caller_bytes(&self) -> Seq<u8> {
        self.caller@
    }

    /// The context of a call made by `caller`.
    pub fn new(caller: Identity) -> (context: CallContext)
        ensures
            context.caller_bytes() == caller@,
    {
        CallContext { caller }
    }

    /// The identity that made the call.
    pub fn caller(&self) -> (caller: Identity)
        ensures
            caller@ == self.caller_bytes(),
    {
        self.caller
    }

    /// Checks if the caller is an admin: the system itself, a controller, or
    /// the owner of an account with the Admin role.
    pub fn is_admin(&self, state: &CanisterState) -> (admin: bool)
        ensures
            admin == is_admin_caller(*state, self.caller_bytes()),
    {
        if self.caller.equals(&state.deployment.canister_id) || state.deployment.is_controller(
            &self.caller,
        ) {
            return true;
        }
        match state.accounts.find_account_by_identity(&self.caller) {
            Some(account) => contains_role(&account.access_roles, AccessRole::Admin),
            None => false,
        }
    }

    /// Checks if the caller has the required access role to perform the
    /// given action. A permission that is not configured is a fatal
    /// misconfiguration, so for callers that are no admins it must exist.
    pub fn check_access(&self, state: &CanisterState, permission: &str) -> (decision: Result<
        (),
        Denied,
    >)
        requires
            is_admin_caller(*state, self.caller_bytes()) || find_permission(
                state.config.permissions@,
                permission@,
            ) is Some,
        ensures
            decision is Ok <==> authorized(*state, self.caller_bytes(), permission@),
            decision matches Err(denied) ==> denied.caller@ == self.caller_bytes(),
    {
        if !self.is_admin(state) {
            check_access(permission, self.caller, state)
        } else {
            Ok(())
        }
    }
}

/// Checks a caller against a configured permission: granted to anyone where
/// the permission allows Guest, else only to the owner of an account that is
/// Admin or holds one of the permission's roles.
pub fn check_access(permission: &str, caller: Identity, state: &CanisterState) -> (decision: Result<
    (),
    Denied,
>)
    requires
        find_permission(state.config.permissions@, permission@) is Some,
    ensures
        decision is Ok <==> permission_grants(
            find_permission(state.config.permissions@, permission@)->0,
            first_owned(records(state.accounts@), caller@),
        ),
        decision matches Err(denied) ==> denied.caller@ == caller@,
{
    let configured = state.config.find_permission(permission).unwrap();
    if contains_role(&configured.access_roles, AccessRole::Guest) {
        return Ok(());
    }
    let account = match state.accounts.find_account_by_identity(&caller) {
        Some(account) => account,
        None => {
            return Err(Denied { caller });
        },
    };
    if contains_role(&account.access_roles, AccessRole::Admin) {
        return Ok(());
    }
    if any_role_held(&configured.access_roles, &account.access_roles) {
        Ok(())
    } else {
        Err(Denied { caller })
    }
}

/// The system itself and its controllers are granted every permission, also
/// one that allows no role and one that is not configured.
pub proof fn lemma_system_caller_is_authorized(
    state: CanisterState,
    caller: Seq<u8>,
    permission: Seq<char>,
)
    requires
        state.deployment.is_system_caller(caller),
    ensures
        authorized(state, caller, permission),
{
}

/// The owner of an account with the Admin role is granted every permission,
/// whatever roles the permission allows.
pub proof fn lemma_admin_account_is_authorized(
    state: CanisterState,
    caller: Seq<u8>,
    account: Account,
    permission: Seq<char>,
)
    requires
        first_owned(records(state.accounts@), caller) == Some(account),
        account.has_role(AccessRole::Admin),
    ensures
        authorized(state, caller, permission),
{
}

/// A permission that allows Guest is granted to every caller, also to one
/// that owns no account.
pub proof fn lemma_guest_permission_is_open(
    state: CanisterState,
    caller: Seq<u8>,
    permission: Seq<char>,
    configured: Permission,
)
    requires
        find_permission(state.config.permissions@, permission) == Some(configured),
        configured.allows(AccessRole::Guest),
    ensures
        authorized(state, caller, permission),
{
}

/// A permission that does not allow Guest is denied to a caller that owns no
/// account, unless the caller is the system itself or one of its controllers.
pub proof fn lemma_unknown_caller_is_denied(
    state: CanisterState,
    caller: Seq<u8>,
    permission: Seq<char>,
    configured: Permission,
)
    requires
        find_permission(state.config.permissions@, permission) == Some(configured),
        !configured.allows(AccessRole::Guest),
        first_owned(records(state.accounts@), caller) is None,
        !state.deployment.is_system_caller(caller),
    ensures
        !authorized(state, caller, permission),
{
}

/// An account that shares a role with the permission is granted it; in
/// particular an account with exactly one role and a permission that allows
/// exactly that role.
pub proof fn lemma_shared_role_is_authorized(
    state: CanisterState,
    caller: Seq<u8>,
    account: Account,
    permission: Seq<char>,
    configured: Permission,
    role: AccessRole,
)
    requires
        first_owned(records(state.accounts@), caller) == Some(account),
        find_permission(state.config.permissions@, permission) == Some(configured),
        account.has_role(role),
        configured.allows(role),
    ensures
        authorized(state, caller, permission),
{
    assert(roles_intersect(configured.access_roles@, account.access_roles@));
}

/// An account whose roles are disjoint from the permission's is denied it,
/// unless one of the unconditional grants applies: the caller is the system
/// or a controller, the account is Admin, or the permission allows Guest.
pub proof fn lemma_disjoint_roles_are_denied(
    state: CanisterState,
    caller: Seq<u8>,
    account: Account,
    permission: Seq<char>,
    configured: Permission,
)
    requires
        first_owned(records(state.accounts@), caller) == Some(account),
        find_permission(state.config.permissions@, permission) == Some(configured),
        !roles_intersect(configured.access_roles@, account.access_roles@),
        !state.deployment.is_system_caller(caller),
        !account.has_role(AccessRole::Admin),
        !configured.allows(AccessRole::Guest),
    ensures
        !authorized(state, caller, permission),
{
}

} // verus!
