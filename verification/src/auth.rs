//! The authorization model.
//!
//! Every mutating operation is guarded by one of three policies, evaluated
//! before the operation body runs. The host environment has already
//! authenticated each identity; this module only compares them.

use vstd::prelude::*;

use crate::errors::ErrorCode;
use crate::state::Pubkey;

verus! {

/// Which identities must match for an operation to proceed.
#[derive(Clone, Copy, Debug, PartialEq, Eq, Structural)]
pub enum AuthPolicy {
    /// The caller must be the subledger's stored owner.
    OwnerDirect { stored_owner: Pubkey, caller: Pubkey },
    /// A cosigning controller must equal the subledger's stored owner; the
    /// beneficiary's own signature is checked by the host environment.
    DualSigner { stored_owner: Pubkey, cosigner: Pubkey },
    /// The caller must administer both the base-asset vault and the token
    /// custody, and then acts on a target user's records directly.
    AdminOnBehalf { vault_authority: Pubkey, custody_authority: Pubkey, caller: Pubkey },
}

impl AuthPolicy {
    /// Whether the policy's identity comparisons all hold.
    pub open spec fn authorized(self) -> bool {
        match self {
            AuthPolicy::OwnerDirect { stored_owner, caller } => caller == stored_owner,
            AuthPolicy::DualSigner { stored_owner, cosigner } => cosigner == stored_owner,
            AuthPolicy::AdminOnBehalf { vault_authority, custody_authority, caller } => {
                caller == vault_authority && caller == custody_authority
            },
        }
    }
}

/// Evaluates an authorization policy: `Ok` exactly when the policy's
/// identity comparisons hold, and `UnauthorizedWithdrawal` otherwise.
pub fn check_authorized(policy: AuthPolicy) -> (r: Result<(), ErrorCode>)
    ensures
        r is Ok <==> policy.authorized(),
        !policy.authorized() ==> r == Err::<(), ErrorCode>(ErrorCode::UnauthorizedWithdrawal),
{
    match policy {
        AuthPolicy::OwnerDirect { stored_owner, caller } => {
            if caller == stored_owner {
                Ok(())
            } else {
                Err(ErrorCode::UnauthorizedWithdrawal)
            }
        },
        AuthPolicy::DualSigner { stored_owner, cosigner } => {
            if cosigner == stored_owner {
                Ok(())
            } else {
                Err(ErrorCode::UnauthorizedWithdrawal)
            }
        },
        AuthPolicy::AdminOnBehalf { vault_authority, custody_authority, caller } => {
            if caller == vault_authority && caller == custody_authority {
                Ok(())
            } else {
                Err(ErrorCode::UnauthorizedWithdrawal)
            }
        },
    }
}

} // verus!
