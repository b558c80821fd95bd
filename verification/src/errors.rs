use vstd::prelude::*;
use vstd::string::*;

verus! {

/// Errors raised by the chat service. Each variant carries a free-form detail text.
#[derive(Debug, Clone, PartialEq, Eq)]
pub enum WsError {
    Unauthorized(String),
    Forbidden(String),
    BadRequest(String),
    NotFound(String),
    DynamoDB(String),
    ConnectionGone(String),
    ManagementApi(String),
    Serialization(String),
    Internal(String),
}

impl WsError {
    /// The HTTP status code that each kind of error maps to.
    pub open spec fn spec_status_code(&self) -> u16 {
        match self {
            WsError::Unauthorized(_) => 401,
            WsError::Forbidden(_) => 403,
            WsError::BadRequest(_) => 400,
            WsError::NotFound(_) => 404,
            _ => 500,
        }
    }

    /// The detail text carried by the error.
    pub open spec fn detail(&self) -> Seq<char> {
        match self {
            WsError::Unauthorized(s) => s@,
            WsError::Forbidden(s) => s@,
            WsError::BadRequest(s) => s@,
            WsError::NotFound(s) => s@,
            WsError::DynamoDB(s) => s@,
            WsError::ConnectionGone(s) => s@,
            WsError::ManagementApi(s) => s@,
            WsError::Serialization(s) => s@,
            WsError::Internal(s) => s@,
        }
    }

    /// The human-readable label that precedes the detail text in the error's message.
    pub open spec fn label(&self) -> Seq<char> {
        match self {
            WsError::Unauthorized(_) => "Unauthorized: "@,
            WsError::Forbidden(_) => "Forbidden: "@,
            WsError::BadRequest(_) => "Bad request: "@,
            WsError::NotFound(_) => "Not found: "@,
            WsError::DynamoDB(_) => "DynamoDB error: "@,
            WsError::ConnectionGone(_) => "Connection gone: "@,
            WsError::ManagementApi(_) => "Management API error: "@,
            WsError::Serialization(_) => "Serialization error: "@,
            WsError::Internal(_) => "Internal error: "@,
        }
    }

    /// HTTP status code for `$connect` rejection. Route handler errors
    /// always answer 200 and push the error over the management API instead.
    pub fn status_code(&self) -> (code: u16)
        ensures
            code == self.spec_status_code(),
    {
        match self {
            WsError::Unauthorized(_) => 401,
            WsError::Forbidden(_) => 403,
            WsError::BadRequest(_) => 400,
            WsError::NotFound(_) => 404,
            _ => 500,
        }
    }

    /// The error's message: its label followed by its detail text.
    pub fn to_message(&self) -> (text: String)
        ensures
            text@ == self.label() + self.detail(),
    {
        match self {
            WsError::Unauthorized(s) => String::from_str("Unauthorized: ").concat(s.as_str()),
            WsError::Forbidden(s) => String::from_str("Forbidden: ").concat(s.as_str()),
            WsError::BadRequest(s) => String::from_str("Bad request: ").concat(s.as_str()),
            WsError::NotFound(s) => String::from_str("Not found: ").concat(s.as_str()),
            WsError::DynamoDB(s) => String::from_str("DynamoDB error: ").concat(s.as_str()),
            WsError::ConnectionGone(s) => String::from_str("Connection gone: ").concat(s.as_str()),
            WsError::ManagementApi(s) => String::from_str("Management API error: ").concat(s.as_str()),
            WsError::Serialization(s) => String::from_str("Serialization error: ").concat(s.as_str()),
            WsError::Internal(s) => String::from_str("Internal error: ").concat(s.as_str()),
        }
    }
}

/// The error returned by the HTTP endpoints: every service error is answered
/// as a bad request.
#[derive(Debug, Clone, PartialEq, Eq)]
pub enum ResponseError {
    BadRequest(WsError),
}

impl From<WsError> for ResponseError {
    fn from(err: WsError) -> (res: ResponseError) {
        ResponseError::BadRequest(err)
    }
}

impl vstd::std_specs::convert::FromSpecImpl<WsError> for ResponseError {
    open spec fn obeys_from_spec() -> bool {
        true
    }

    open spec fn from_spec(v: WsError) -> ResponseError {
        ResponseError::BadRequest(v)
    }
}

/// The status, error code and message of an HTTP error reply.
#[derive(Debug, Clone, PartialEq, Eq)]
pub struct ErrorReply {
    pub status: u16,
    pub code: String,
    pub message: String,
}

impl ResponseError {
    /// The error carried inside.
    pub open spec fn cause(&self) -> WsError {
        match self {
            ResponseError::BadRequest(e) => *e,
        }
    }

    /// The reply sent for this error: status 400 with a fixed code and a fixed
    /// message that does not reveal the cause.
    pub fn reply(&self) -> (r: ErrorReply)
        ensures
            r.status == 400,
            r.code@ == "korabo_noti_401"@,
            r.message@ == "An unexpected error occurred"@,
    {
        match self {
            ResponseError::BadRequest(_) => ErrorReply {
                status: 400,
                code: String::from_str("korabo_noti_401"),
                message: String::from_str("An unexpected error occurred"),
            },
        }
    }
}

} // verus!
