//! The identity of the caller on whose account a fleet is provisioned.

use vstd::prelude::*;

verus! {

/// Who the caller is, as resolved from the environment's credentials.
#[derive(Clone, Debug, PartialEq, Eq)]
pub struct Identity {
    pub account_id: String,
    pub role_arn: String,
    pub user_id: String,
}

/// The mathematical value of [`Identity`].
pub struct IdentityView {
    pub account_id: Seq<char>,
    pub role_arn: Seq<char>,
    pub user_id: Seq<char>,
}

impl View for Identity {
    type V = IdentityView;

    open spec fn view(&self) -> IdentityView {
        IdentityView {
            account_id: self.account_id@,
            role_arn: self.role_arn@,
            user_id: self.user_id@,
        }
    }
}

/// The view of an optional identity.
pub open spec fn identity_of(i: Option<Identity>) -> Option<IdentityView> {
    match i {
        Some(id) => Some(id@),
        None => None,
    }
}

impl Identity {
    /// The identity of the given account, principal and user.
    pub fn new(account_id: String, role_arn: String, user_id: String) -> (r: Identity)
        ensures
            r@ == (IdentityView {
                account_id: account_id@,
                role_arn: role_arn@,
                user_id: user_id@,
            }),
    {
        Identity { account_id, role_arn, user_id }
    }

    /// A copy with the same contents.
    pub fn copy(&self) -> (r: Identity)
        ensures
            r@ == self@,
    {
        Identity {
            account_id: self.account_id.clone(),
            role_arn: self.role_arn.clone(),
            user_id: self.user_id.clone(),
        }
    }
}

} // verus!
