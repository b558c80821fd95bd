use vstd::prelude::*;
use vstd::string::*;
use crate::errors::WsError;
use crate::utils::{clock_text, now_rfc3339, representable_unix_time, ttl_hours};

verus! {

/// A live WebSocket connection and the user it belongs to.
#[derive(Debug, Clone, PartialEq, Eq)]
pub struct WsConnection {
    pub connection_id: String,
    pub user_id: String,
    pub connected_at: String,
    /// Unix time after which the record expires.
    pub ttl: i64,
}

/// The record of a new connection, stamped with the current time and set to
/// expire 24 hours from now.
pub fn new_connection(connection_id: &str, user_id: &str) -> (conn: WsConnection)
    ensures
        conn.connection_id@ == connection_id@,
        conn.user_id@ == user_id@,
        exists|first: i128, second: i128| conn.connected_at@ == clock_text(first, second),
        exists|now: int| representable_unix_time(now) && conn.ttl == now + 24 * 3600,
{
    let connected_at = now_rfc3339();
    let ttl = ttl_hours(24);
    WsConnection {
        connection_id: connection_id.to_owned(),
        user_id: user_id.to_owned(),
        connected_at,
        ttl,
    }
}

/// The message of the error for a connection that has no record.
pub open spec fn connection_missing_text(connection_id: Seq<char>) -> Seq<char> {
    "connection "@ + connection_id + " not found"@
}

/// The outcome of looking a connection up, given what the lookup found:
/// nothing (not found), an item that did not decode (its decoding error), or
/// the connection.
pub fn resolve_connection(
    connection_id: &str,
    found: Option<Result<WsConnection, String>>,
) -> (r: Result<WsConnection, WsError>)
    ensures
        match found {
            None => r matches Err(WsError::NotFound(m)) && m@ == connection_missing_text(
                connection_id@,
            ),
            Some(Err(e)) => r == Err::<WsConnection, WsError>(WsError::Serialization(e)),
            Some(Ok(c)) => r == Ok::<WsConnection, WsError>(c),
        },
{
    match found {
        None => Err(
            WsError::NotFound(
                String::from_str("connection ").concat(connection_id).concat(" not found"),
            ),
        ),
        Some(Err(e)) => Err(WsError::Serialization(e)),
        Some(Ok(c)) => Ok(c),
    }
}

} // verus!
