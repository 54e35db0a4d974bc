//! What the dispatcher answers: one reply per button press that does not
//! succeed, and nothing more.
use vstd::prelude::*;

use crate::action::{decode_spec, BotCallback, DecodeError};
use crate::number::{digits_of, push_digits};

verus! {

/// Why a handler failed.
#[derive(Clone, PartialEq, Eq, Debug)]
pub enum HandlerError {
    /// The entity asked for does not exist; the message says which.
    NotFound(String),
    /// The request does not make sense; the message says why.
    ValidationError(String),
    /// The store failed.
    RepositoryFailure(String),
    /// The platform failed.
    TransportFailure(String),
}

pub open spec fn failure_text(e: HandlerError) -> Seq<char> {
    match e {
        HandlerError::NotFound(m) => "❌ "@ + m@,
        HandlerError::ValidationError(m) => "⚠️ "@ + m@,
        HandlerError::RepositoryFailure(_) => "❌ A database error occurred. Please try again later."@,
        HandlerError::TransportFailure(_) => "❌ A communication error occurred. Please try again later."@,
    }
}

/// The message shown for a failed handler: the specific message of a
/// missing entity or an invalid request, and a retry-later notice for a
/// failure of the store or of the platform.
pub fn failure_reply(e: &HandlerError) -> (r: String)
    ensures
        r@ == failure_text(*e),
{
    match e {
        HandlerError::NotFound(m) => {
            let mut r = String::from_str("❌ ");
            r.append(m.as_str());
            r
        },
        HandlerError::ValidationError(m) => {
            let mut r = String::from_str("⚠️ ");
            r.append(m.as_str());
            r
        },
        HandlerError::RepositoryFailure(_) => String::from_str(
            "❌ A database error occurred. Please try again later.",
        ),
        HandlerError::TransportFailure(_) => String::from_str(
            "❌ A communication error occurred. Please try again later.",
        ),
    }
}

pub open spec fn invalid_request_text() -> Seq<char> {
    "⚠️ Invalid request"@
}

/// What to do with the token of a button press, after acknowledging it.
pub enum Route {
    /// Run the handler of this action.
    Run(BotCallback),
    /// Send this reply; no handler runs.
    Reject(String),
}

/// Routes a token: a token that decodes runs exactly the handler of its
/// action; one that does not is answered with the invalid-request reply.
pub fn route(token: &str) -> (r: Route)
    ensures
        match decode_spec(token@) {
            Ok(a) => r == Route::Run(a),
            Err(_) => r matches Route::Reject(m) && m@ == invalid_request_text(),
        },
{
    match BotCallback::decode(token) {
        Ok(a) => Route::Run(a),
        Err(_) => Route::Reject(String::from_str("⚠️ Invalid request")),
    }
}

/// The reply owed after a handler ran: none when it succeeded (it has
/// replied itself), the failure message when it failed.
pub fn outcome_reply(result: &Result<(), HandlerError>) -> (r: Option<String>)
    ensures
        match result {
            Ok(_) => r is None,
            Err(e) => r is Some && r->0@ == failure_text(*e),
        },
{
    match result {
        Ok(_) => None,
        Err(e) => Some(failure_reply(e)),
    }
}

/// The message that describes a refused token, for the log.
pub fn describe_decode_error(e: &DecodeError) -> (r: String)
    ensures
        r@ == match e {
            DecodeError::TooLong { length } => "token of "@ + digits_of(*length as nat)
                + " characters"@,
            DecodeError::UnknownAction(raw) => "unknown action: "@ + raw@,
            DecodeError::ArityMismatch { expected, actual } => "expected "@ + digits_of(
                *expected as nat,
            ) + " fields, got "@ + digits_of(*actual as nat),
            DecodeError::FieldParse { position } => "field "@ + digits_of(*position as nat)
                + " is not a number"@,
        },
{
    match e {
        DecodeError::TooLong { length } => {
            let mut r = String::from_str("token of ");
            push_digits(*length as u64, &mut r);
            r.append(" characters");
            r
        },
        DecodeError::UnknownAction(raw) => {
            let mut r = String::from_str("unknown action: ");
            r.append(raw.as_str());
            r
        },
        DecodeError::ArityMismatch { expected, actual } => {
            let mut r = String::from_str("expected ");
            push_digits(*expected as u64, &mut r);
            r.append(" fields, got ");
            push_digits(*actual as u64, &mut r);
            r
        },
        DecodeError::FieldParse { position } => {
            let mut r = String::from_str("field ");
            push_digits(*position as u64, &mut r);
            r.append(" is not a number");
            r
        },
    }
}

} // verus!
