use vstd::prelude::*;
use crate::errors::WsError;

verus! {

/// The error for a push to `connection_id` that the gateway refused: the
/// connection is gone when the gateway says so; any other refusal is a
/// management API error with the gateway's description.
pub fn post_failure(connection_id: &str, gone: bool, detail: String) -> (e: WsError)
    ensures
        gone ==> (e matches WsError::ConnectionGone(c) && c@ == connection_id@),
        !gone ==> e == WsError::ManagementApi(detail),
{
    if gone {
        WsError::ConnectionGone(connection_id.to_owned())
    } else {
        WsError::ManagementApi(detail)
    }
}

/// Whether a push reached its connection: true on success, false when the
/// connection was gone or the push failed for any other reason.
pub fn delivered(outcome: &Result<(), WsError>) -> (r: bool)
    ensures
        r == outcome is Ok,
{
    match outcome {
        Ok(_) => true,
        Err(WsError::ConnectionGone(_)) => false,
        Err(_) => false,
    }
}

} // verus!
