//! What can go wrong before a request leaves or after a reply arrives.

use vstd::prelude::*;
use vstd::string::*;

verus! {

/// A failure raised by this library.
#[derive(Debug, Clone)]
pub enum MexcError {
    /// The operation needs an API key and the client holds none.
    MissingApiKey,
    /// The operation needs an API secret and the client holds none.
    MissingSecretKey,
    /// The operation needs a web session token and the client holds none.
    MissingWebUserToken,
    /// A batch was asked for with no order in it.
    NoOrders,
    /// The exchange answered with a non-success envelope; its message, if
    /// any, is carried along.
    Rejected { message: Option<String> },
    /// The exchange reported success but sent no payload.
    MissingData,
    /// The request did not reach the exchange, or no reply came back.
    Transport { detail: String },
    /// A reply came back and did not have the expected shape.
    Decode { detail: String },
}

/// The kinds of failure, as a caller tells them apart.
#[derive(Debug, Clone, Copy, PartialEq, Eq, Structural)]
pub enum ErrorKind {
    /// A credential that the chosen signing scheme needs is absent. Trying
    /// again does not help.
    Configuration,
    /// What was asked for cannot be put into a request.
    Request,
    /// The network failed.
    Transport,
    /// The exchange said no.
    Protocol,
    /// The reply was not understood.
    Decoding,
}

/// The kind of each failure.
pub open spec fn kind_of(e: MexcError) -> ErrorKind {
    match e {
        MexcError::MissingApiKey => ErrorKind::Configuration,
        MexcError::MissingSecretKey => ErrorKind::Configuration,
        MexcError::MissingWebUserToken => ErrorKind::Configuration,
        MexcError::NoOrders => ErrorKind::Request,
        MexcError::Rejected { .. } => ErrorKind::Protocol,
        MexcError::MissingData => ErrorKind::Decoding,
        MexcError::Transport { .. } => ErrorKind::Transport,
        MexcError::Decode { .. } => ErrorKind::Decoding,
    }
}

/// The fixed description of each kind of failure.
pub open spec fn description(e: MexcError) -> Seq<char> {
    match e {
        MexcError::MissingApiKey => "Missing api key"@,
        MexcError::MissingSecretKey => "Missing secret key"@,
        MexcError::MissingWebUserToken => "Missing web user token"@,
        MexcError::NoOrders => "No orders in vector"@,
        MexcError::Rejected { message: Some(m) } => "mexc futures err resp: "@ + m@,
        MexcError::Rejected { message: None } => "mexc futures err resp"@,
        MexcError::MissingData => "Expected data field"@,
        MexcError::Transport { detail } => detail@,
        MexcError::Decode { detail } => detail@,
    }
}

impl MexcError {
    /// The kind of the failure.
    pub fn kind(&self) -> (k: ErrorKind)
        ensures
            k == kind_of(*self),
    {
        match self {
            MexcError::MissingApiKey => ErrorKind::Configuration,
            MexcError::MissingSecretKey => ErrorKind::Configuration,
            MexcError::MissingWebUserToken => ErrorKind::Configuration,
            MexcError::NoOrders => ErrorKind::Request,
            MexcError::Rejected { .. } => ErrorKind::Protocol,
            MexcError::MissingData => ErrorKind::Decoding,
            MexcError::Transport { .. } => ErrorKind::Transport,
            MexcError::Decode { .. } => ErrorKind::Decoding,
        }
    }

    /// Human-readable text of the failure. A rejection ends in the
    /// exchange's own message.
    pub fn message(&self) -> (text: String)
        ensures
            text@ == description(*self),
    {
        match self {
            MexcError::MissingApiKey => String::from_str("Missing api key"),
            MexcError::MissingSecretKey => String::from_str("Missing secret key"),
            MexcError::MissingWebUserToken => String::from_str("Missing web user token"),
            MexcError::NoOrders => String::from_str("No orders in vector"),
            MexcError::Rejected { message: Some(m) } => {
                String::from_str("mexc futures err resp: ").concat(m.as_str())
            },
            MexcError::Rejected { message: None } => String::from_str("mexc futures err resp"),
            MexcError::MissingData => String::from_str("Expected data field"),
            MexcError::Transport { detail } => detail.clone(),
            MexcError::Decode { detail } => detail.clone(),
        }
    }
}

} // verus!
