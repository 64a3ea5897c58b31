//! The stage that lets only clients pass that may perform an action.
use vstd::prelude::*;

use crate::client::{ClientAction, ConfidentialClient};
use crate::http::StatusCode;

verus! {

/// Lets a request pass only if its client may perform `action`; any other is answered
/// with 403.
pub fn require_confidential_client_action(client: &ConfidentialClient, action: &ClientAction) -> (allowed:
    Result<(), StatusCode>)
    ensures
        allowed == if client@.allowed_actions.contains(*action) {
            Ok::<(), StatusCode>(())
        } else {
            Err::<(), StatusCode>(StatusCode::Forbidden)
        },
{
    if client.can_perform_action(action) {
        Ok(())
    } else {
        Err(StatusCode::Forbidden)
    }
}

} // verus!
