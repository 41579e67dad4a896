//! The success value, the error taxonomy, and the response interpreter that
//! classifies a raw HTTP outcome into exactly one of them.

use crate::codec::{dec_chars, u64_to_dec};
use vstd::prelude::*;
use vstd::string::StringExecFns;

verus! {

/// The success value of one send: the HTTP status (from the success range)
/// and the response body text.
#[derive(Debug)]
pub struct InteractResponse {
    pub status: u16,
    pub response_body: String,
}

/// The abstract content of an [`InteractResponse`].
pub ghost struct ResponseView {
    pub status: u16,
    pub response_body: Seq<char>,
}

impl View for InteractResponse {
    type V = ResponseView;

    open spec fn view(&self) -> ResponseView {
        ResponseView { status: self.status, response_body: self.response_body@ }
    }
}

/// The failure value of one send: a human-readable description, and the raw
/// response body when the gateway answered with a failure status and a
/// readable body.
#[derive(Debug)]
pub enum InteractError {
    Error { message: String, data: Option<String> },
}

/// The abstract content of an [`InteractError`].
pub ghost struct ErrorView {
    pub message: Seq<char>,
    pub data: Option<Seq<char>>,
}

impl View for InteractError {
    type V = ErrorView;

    open spec fn view(&self) -> ErrorView {
        match self {
            InteractError::Error { message, data } => ErrorView {
                message: message@,
                data: data.deep_view(),
            },
        }
    }
}

impl InteractError {
    /// The raw response body carried by the error, when there is one.
    pub fn get_data(&self) -> (r: Option<String>)
        ensures
            r.deep_view() == self@.data,
    {
        match self {
            InteractError::Error { message: _, data } => match data {
                Some(d) => Some(d.clone()),
                None => None,
            },
        }
    }

    /// The human-readable description of the error: its message followed by
    /// a full stop.
    pub fn message_text(&self) -> (r: String)
        ensures
            r@ == self@.message + "."@,
    {
        match self {
            InteractError::Error { message, data: _ } => {
                let mut m = message.clone();
                m.append(".");
                m
            },
        }
    }
}

/// The raw outcome of one HTTP exchange, as the transport reports it: either
/// the exchange could not be completed, or a response arrived with its status
/// code and its body text — `None` standing for a body that could not be
/// decoded as text.
pub enum TransportOutcome {
    Failed { reason: String },
    Received { status: u16, body: Option<String> },
}

/// The status codes the gateway's answer counts as success.
pub open spec fn is_success_status(status: u16) -> bool {
    200 <= status < 300
}

/// Classifies a raw HTTP outcome into the caller-visible result: transport
/// failures and unreadable bodies become errors with fixed messages, a
/// failure status with a readable body becomes an error carrying that body,
/// and only a success status with a readable body succeeds.
pub fn interpret_response(outcome: TransportOutcome) -> (r: Result<
    InteractResponse,
    InteractError,
>)
    ensures
        (match outcome {
            TransportOutcome::Failed { reason } => r matches Err(e) && e@.message
                == "Fatal Error: "@ + reason@ && e@.data is None,
            TransportOutcome::Received { status, body } => match body {
                None => r matches Err(e) && e@.data is None && e@.message == (
                if is_success_status(status) {
                    "API call successful, but unable to parse response body"@
                } else {
                    "API call was unsuccessful, and unable to parse response body"@
                }),
                Some(text) => if is_success_status(status) {
                    r matches Ok(resp) && resp@.status == status && resp@.response_body == text@
                } else {
                    r matches Err(e) && e@.message == "API returned error "@ + dec_chars(
                        status as int,
                    ) && e@.data == Some(text@)
                },
            },
        }),
{
    match outcome {
        TransportOutcome::Failed { reason } => {
            let mut m = "Fatal Error: ".to_owned();
            m.append(reason.as_str());
            Err(InteractError::Error { message: m, data: None })
        },
        TransportOutcome::Received { status, body } => {
            let success = 200 <= status && status < 300;
            match body {
                None => {
                    if success {
                        Err(
                            InteractError::Error {
                                message: "API call successful, but unable to parse response body".to_owned(),
                                data: None,
                            },
                        )
                    } else {
                        Err(
                            InteractError::Error {
                                message: "API call was unsuccessful, and unable to parse response body".to_owned(),
                                data: None,
                            },
                        )
                    }
                },
                Some(text) => {
                    if success {
                        Ok(InteractResponse { status, response_body: text })
                    } else {
                        let mut m = "API returned error ".to_owned();
                        let code = u64_to_dec(status as u64);
                        m.append(code.as_str());
                        Err(InteractError::Error { message: m, data: Some(text) })
                    }
                },
            }
        },
    }
}

} // verus!
