//! What the library asks of the host that runs it.

use near_sdk::AccountId;
use vstd::prelude::*;

verus! {

/// `near_sdk::env::predecessor_account_id`: the account on whose behalf the
/// current call is made. The answer belongs to the call in progress and not to
/// any argument, so nothing is claimed of it.
#[verifier::external_body]
pub(crate) fn calling_account() -> AccountId {
    near_sdk::env::predecessor_account_id()
}

} // verus!
