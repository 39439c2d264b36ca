//! What a reply means: the decisions that follow the sending of a request.
//!
//! An exchange ends at the first of these that applies: the transport
//! fails; the status is outside 200..=299; the body does not decode; the
//! envelope reports failure; the envelope lacks the data that the operation
//! returns. Otherwise the operation succeeds. [`after_send`] decides on what
//! the transport reports, and tells whether the body is to be read; the
//! function named after the operation decides on what the codec made of the
//! body.

use crate::error::{Failure, GoIamError};
use crate::status::{is_success, status_is_success, status_text, status_text_of};
use crate::text::decimal;
use crate::types::{AuthCallbackResponse, ResourceResponse, User, UserResponse};
use vstd::prelude::*;

verus! {

/// The operations of the protocol.
#[derive(Debug, Clone, Copy, PartialEq, Eq, Structural)]
pub enum Operation {
    Verify,
    Me,
    CreateResource,
    DeleteResource,
}

impl Operation {
    /// What a refusal of the operation is called in an error message.
    pub open spec fn refusal(self) -> Seq<char> {
        match self {
            Operation::Verify => "Failed to verify code"@,
            Operation::Me => "Failed to fetch user information"@,
            Operation::CreateResource => "Failed to create resource"@,
            Operation::DeleteResource => "Failed to delete resource"@,
        }
    }

    /// The message of a failure for which the server gave none.
    pub open spec fn fallback(self) -> Seq<char> {
        match self {
            Operation::Verify => "Authentication failed"@,
            Operation::Me => "User fetch failed"@,
            Operation::CreateResource => "Resource creation failed"@,
            Operation::DeleteResource => "Resource deletion failed"@,
        }
    }

    /// See [`Operation::refusal`].
    pub fn refusal_text(self) -> (text: &'static str)
        ensures
            text@ == self.refusal(),
    {
        match self {
            Operation::Verify => "Failed to verify code",
            Operation::Me => "Failed to fetch user information",
            Operation::CreateResource => "Failed to create resource",
            Operation::DeleteResource => "Failed to delete resource",
        }
    }

    /// See [`Operation::fallback`].
    pub fn fallback_text(self) -> (text: &'static str)
        ensures
            text@ == self.fallback(),
    {
        match self {
            Operation::Verify => "Authentication failed",
            Operation::Me => "User fetch failed",
            Operation::CreateResource => "Resource creation failed",
            Operation::DeleteResource => "Resource deletion failed",
        }
    }
}

/// A result with its error as a [`Failure`].
pub open spec fn result_view<T>(result: Result<T, GoIamError>) -> Result<T, Failure> {
    match result {
        Ok(value) => Ok(value),
        Err(error) => Err(error@),
    }
}

/// Whether `part` stands somewhere in `text`.
pub open spec fn occurs_in(part: Seq<char>, text: Seq<char>) -> bool {
    exists|at: int|
        0 <= at && at + part.len() <= text.len() && #[trigger] text.subrange(
            at,
            at + part.len(),
        ) == part
}

/// The failure that a status outside 200..=299 stands for: it carries the
/// status, and a message that names the operation and gives the status.
pub open spec fn refused(operation: Operation, status: u16) -> Failure {
    Failure::Api { message: operation.refusal() + ": "@ + status_text(status), status }
}

/// What follows from the sending of a request, of which the transport
/// reports its own failure, or the status of the response together with the
/// response. `Ok` means that the status is one of success, and hands out
/// the response, whose body is to be read.
pub open spec fn sent_outcome<R>(
    operation: Operation,
    sent: Result<(u16, R), reqwest::Error>,
) -> Result<R, Failure> {
    match sent {
        Err(cause) => Err(Failure::Transport(cause)),
        Ok((status, response)) => if is_success(status) {
            Ok(response)
        } else {
            Err(refused(operation, status))
        },
    }
}

/// What follows from an envelope: the data it carries, if it reports
/// success; else the failure with the server's message, or with `fallback`
/// where the server gave none.
pub open spec fn envelope_outcome<T>(
    success: bool,
    message: Option<String>,
    data: Option<T>,
    fallback: Seq<char>,
) -> Result<Option<T>, Failure> {
    if success {
        Ok(data)
    } else {
        Err(
            Failure::Auth {
                message: match message {
                    Some(text) => text@,
                    None => fallback,
                },
            },
        )
    }
}

/// The data of an envelope that must carry some.
pub open spec fn required<T>(data: Option<T>, missing: Seq<char>) -> Result<T, Failure> {
    match data {
        Some(value) => Ok(value),
        None => Err(Failure::InvalidResponse { message: missing }),
    }
}

/// What a verification returns, given what the codec made of the body.
pub open spec fn verify_outcome(decoded: Result<AuthCallbackResponse, serde_json::Error>) -> Result<
    String,
    Failure,
> {
    match decoded {
        Err(cause) => Err(Failure::Decode(cause)),
        Ok(envelope) => match envelope_outcome(
            envelope.success,
            envelope.message,
            envelope.data,
            Operation::Verify.fallback(),
        ) {
            Err(failure) => Err(failure),
            Ok(data) => match required(data, "No access token received"@) {
                Err(failure) => Err(failure),
                Ok(grant) => Ok(grant.access_token),
            },
        },
    }
}

/// What a profile request returns, given what the codec made of the body.
pub open spec fn me_outcome(decoded: Result<UserResponse, serde_json::Error>) -> Result<
    User,
    Failure,
> {
    match decoded {
        Err(cause) => Err(Failure::Decode(cause)),
        Ok(envelope) => match envelope_outcome(
            envelope.success,
            envelope.message,
            envelope.data,
            Operation::Me.fallback(),
        ) {
            Err(failure) => Err(failure),
            Ok(data) => required(data, "No user data received"@),
        },
    }
}

/// What a request on a resource returns, given what the codec made of the
/// body. The data of the envelope plays no part.
pub open spec fn resource_outcome(
    operation: Operation,
    decoded: Result<ResourceResponse, serde_json::Error>,
) -> Result<(), Failure> {
    match decoded {
        Err(cause) => Err(Failure::Decode(cause)),
        Ok(envelope) => match envelope_outcome(
            envelope.success,
            envelope.message,
            envelope.data,
            operation.fallback(),
        ) {
            Err(failure) => Err(failure),
            Ok(_) => Ok(()),
        },
    }
}

/// A failure of the transport ends every operation as that failure, and so
/// never as a failure to decode or as one that the server reported.
pub proof fn lemma_transport_failure_is_kept<R>(operation: Operation, cause: reqwest::Error)
    ensures
        sent_outcome::<R>(operation, Err(cause)) == Err::<R, Failure>(Failure::Transport(cause)),
{
}

/// A status outside 200..=299 ends every operation with a failure that
/// carries exactly that status, and a status within lets it go on.
pub proof fn lemma_refusal_carries_status<R>(operation: Operation, status: u16, response: R)
    ensures
        is_success(status) ==> sent_outcome(operation, Ok((status, response))) == Ok::<
            R,
            Failure,
        >(response),
        !is_success(status) ==> (sent_outcome(operation, Ok((status, response))) matches Err(
            Failure::Api { status: carried, .. },
        ) && carried == status),
{
}

/// The message of a refusal begins with the name of the operation's failure
/// and holds the status in decimal.
pub proof fn lemma_refusal_message_names_status(operation: Operation, status: u16)
    ensures
        refused(operation, status) matches Failure::Api { message, .. } && operation.refusal()
            =~= message.subrange(0, operation.refusal().len() as int) && occurs_in(
            decimal(status as nat),
            message,
        ),
{
    let message = operation.refusal() + ": "@ + status_text(status);
    let start = (operation.refusal() + ": "@).len() as int;
    let number = decimal(status as nat);
    assert(message.subrange(start, start + number.len()) =~= number);
}

/// A body that does not decode ends every operation as that failure of the
/// codec.
pub proof fn lemma_undecodable_body_is_kept(operation: Operation, cause: serde_json::Error)
    ensures
        verify_outcome(Err(cause)) == Err::<String, Failure>(Failure::Decode(cause)),
        me_outcome(Err(cause)) == Err::<User, Failure>(Failure::Decode(cause)),
        resource_outcome(operation, Err(cause)) == Err::<(), Failure>(Failure::Decode(cause)),
{
}

/// An envelope that reports failure with a message ends a verification with
/// that message, unchanged.
pub proof fn lemma_server_message_is_kept(envelope: AuthCallbackResponse)
    requires
        !envelope.success,
        envelope.message is Some,
    ensures
        verify_outcome(Ok(envelope)) == Err::<String, Failure>(
            Failure::Auth { message: envelope.message->0@ },
        ),
{
}

/// An envelope that reports success gives a verification the access token
/// that it carries, unchanged, and fails it where it carries none.
pub proof fn lemma_token_is_returned(envelope: AuthCallbackResponse)
    requires
        envelope.success,
    ensures
        envelope.data matches Some(grant) ==> verify_outcome(Ok(envelope)) == Ok::<
            String,
            Failure,
        >(grant.access_token),
        envelope.data is None ==> verify_outcome(Ok(envelope)) == Err::<String, Failure>(
            Failure::InvalidResponse { message: "No access token received"@ },
        ),
{
}

/// Decides on what the transport reports for a request that was sent: a
/// failure of its own, or the status of the response together with the
/// response, which may be of any type. On `Ok` the caller reads the body of
/// the response that it gets back, has it decoded, and hands the result to
/// the function of the operation.
pub fn after_send<R>(operation: Operation, sent: Result<(u16, R), reqwest::Error>) -> (next:
    Result<R, GoIamError>)
    ensures
        result_view(next) == sent_outcome(operation, sent),
{
    match sent {
        Err(cause) => Err(GoIamError::HttpError(cause)),
        Ok((status, response)) => {
            if status_is_success(status) {
                Ok(response)
            } else {
                let line = status_text_of(status);
                let message = String::from_str(operation.refusal_text()).concat(": ").concat(
                    line.as_str(),
                );
                Err(GoIamError::ApiError { message, status })
            }
        },
    }
}

/// Applies an envelope's success flag: the data on success, else the
/// failure with the server's message or `fallback`.
pub fn open_envelope<T>(
    success: bool,
    message: Option<String>,
    data: Option<T>,
    fallback: &str,
) -> (opened: Result<Option<T>, GoIamError>)
    ensures
        result_view(opened) == envelope_outcome(success, message, data, fallback@),
{
    if success {
        Ok(data)
    } else {
        let message = match message {
            Some(text) => text,
            None => String::from_str(fallback),
        };
        Err(GoIamError::AuthError { message })
    }
}

/// Takes the data out of an envelope that must carry some.
pub fn require_data<T>(data: Option<T>, missing: &str) -> (found: Result<T, GoIamError>)
    ensures
        result_view(found) == required(data, missing@),
{
    match data {
        Some(value) => Ok(value),
        None => Err(GoIamError::InvalidResponse { message: String::from_str(missing) }),
    }
}

/// Ends a verification: the access token of the envelope, as the server
/// wrote it.
pub fn verify(decoded: Result<AuthCallbackResponse, serde_json::Error>) -> (token: Result<
    String,
    GoIamError,
>)
    ensures
        result_view(token) == verify_outcome(decoded),
{
    match decoded {
        Err(cause) => Err(GoIamError::JsonError(cause)),
        Ok(envelope) => {
            match open_envelope(
                envelope.success,
                envelope.message,
                envelope.data,
                Operation::Verify.fallback_text(),
            ) {
                Err(error) => Err(error),
                Ok(data) => match require_data(data, "No access token received") {
                    Err(error) => Err(error),
                    Ok(grant) => Ok(grant.access_token),
                },
            }
        },
    }
}

/// Ends a profile request: the user of the envelope.
pub fn me(decoded: Result<UserResponse, serde_json::Error>) -> (user: Result<User, GoIamError>)
    ensures
        result_view(user) == me_outcome(decoded),
{
    match decoded {
        Err(cause) => Err(GoIamError::JsonError(cause)),
        Ok(envelope) => {
            match open_envelope(
                envelope.success,
                envelope.message,
                envelope.data,
                Operation::Me.fallback_text(),
            ) {
                Err(error) => Err(error),
                Ok(data) => require_data(data, "No user data received"),
            }
        },
    }
}

/// Ends a request on a resource, which returns nothing.
fn resource_done(operation: Operation, decoded: Result<ResourceResponse, serde_json::Error>) -> (done:
    Result<(), GoIamError>)
    ensures
        result_view(done) == resource_outcome(operation, decoded),
{
    match decoded {
        Err(cause) => Err(GoIamError::JsonError(cause)),
        Ok(envelope) => {
            match open_envelope(
                envelope.success,
                envelope.message,
                envelope.data,
                operation.fallback_text(),
            ) {
                Err(error) => Err(error),
                Ok(_) => Ok(()),
            }
        },
    }
}

/// Ends the creation of a resource. The resource that the server may send
/// back is dropped.
pub fn create_resource(decoded: Result<ResourceResponse, serde_json::Error>) -> (done: Result<
    (),
    GoIamError,
>)
    ensures
        result_view(done) == resource_outcome(Operation::CreateResource, decoded),
{
    resource_done(Operation::CreateResource, decoded)
}

/// Ends the deletion of a resource. Whatever the envelope carries is
/// dropped.
pub fn delete_resource(decoded: Result<ResourceResponse, serde_json::Error>) -> (done: Result<
    (),
    GoIamError,
>)
    ensures
        result_view(done) == resource_outcome(Operation::DeleteResource, decoded),
{
    resource_done(Operation::DeleteResource, decoded)
}

} // verus!
