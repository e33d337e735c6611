//! The account behind a credential.

use vstd::prelude::*;
use crate::api::types::AccountStatus;
use crate::error::{ApiError, Reply};

verus! {

/// The account's number, as a reply to the status request gives it.
pub open spec fn uid_of(reply: Reply<AccountStatus>) -> Result<u64, ApiError> {
    match reply.outcome() {
        Ok(account) => Ok(account.uid),
        Err(error) => Err(error),
    }
}

/// Reads the account's number from the reply to the status request. A refused
/// credential is an authorization error, a request that did not get through a
/// transport error.
pub fn account_uid(reply: Reply<AccountStatus>) -> (result: Result<u64, ApiError>)
    ensures
        result == uid_of(reply),
{
    match reply.into_result() {
        Ok(account) => Ok(account.uid),
        Err(error) => Err(error),
    }
}

} // verus!
