use vstd::prelude::*;
use vstd::string::*;
use crate::connection::WsConnection;
use crate::errors::WsError;
use crate::types::ClientMessage;

verus! {

/// A value of the request context, or `unknown` where the request lacks it.
pub open spec fn value_or_unknown(v: Option<String>) -> Seq<char> {
    match v {
        Some(s) => s@,
        None => "unknown"@,
    }
}

/// A value of the request context, or `unknown` where the request lacks it.
pub fn or_unknown(v: Option<String>) -> (s: String)
    ensures
        s@ == value_or_unknown(v),
{
    match v {
        Some(s) => s,
        None => String::from_str("unknown"),
    }
}

/// The reply status of every WebSocket route handler: route errors are
/// reported by pushes, never by the status.
pub open spec fn route_ok() -> u16 {
    200
}

/// The outcome of an operation that a WebSocket route handler asked for.
#[derive(Debug, PartialEq, Eq)]
pub enum RouteEvent {
    /// The request body was read as a client message, or could not be read
    /// (with the reader's description).
    BodyParsed(Result<ClientMessage, String>),
    /// The connection record was looked up.
    ConnectionFound(Result<WsConnection, WsError>),
    /// The membership check ran.
    MembershipChecked(Result<(), WsError>),
    /// A push was attempted; its outcome does not matter.
    Pushed,
    /// The subscription record was written, or not.
    SubscriptionPut(Result<(), WsError>),
    /// The subscription record was deleted, or not.
    SubscriptionDeleted(Result<(), WsError>),
}

} // verus!
