//! The uniform failure handling: map an API error and a description of
//! the attempted action to a notification, and force a logout when the
//! server reports the credential invalid.

use crate::api::{ApiError, ApiInternalError};
use crate::numtext::{spec_dec_str, u16_to_string};
use crate::session::{CurrentLogin, StorageCommand, StorageModel};
use crate::toasts::{push_toast, Toast, Toasts};
use vstd::prelude::*;

verus! {

/// The status with which the server reports an invalid or expired
/// credential.
pub const UNAUTHORIZED_STATUS: u16 = 401;

/// Whether an error is the server's credential-invalid answer.
pub open spec fn spec_is_unauthorized(error: ApiError) -> bool {
    error matches ApiError::Response(e) && e.status_code == UNAUTHORIZED_STATUS
}

/// The notification message for an error, with `when` describing the
/// action that failed: a connection failure, any other internal failure,
/// a missing resource, and any other server status each get their own
/// wording.
pub open spec fn spec_toast_message(error: ApiError, when: Seq<char>) -> Seq<char> {
    match error {
        ApiError::Internal(ApiInternalError::Connection) => {
            "Action failed as could not connect to server, when "@ + when
        },
        ApiError::Internal(_) => "Internal error occurred; action failed, when "@ + when,
        ApiError::Response(e) => {
            if e.status_code == 404 {
                "Action failed as resource was not found, when "@ + when
            } else {
                "Action failed received status code '"@ + spec_dec_str(e.status_code as nat)
                    + "', when "@ + when
            }
        },
    }
}

/// Convert an API error to a notification; `when` describes the action
/// that failed and is embedded in the message.
pub fn api_error_to_toast(error: &ApiError, when: &str) -> (t: Toast)
    ensures
        t@ == spec_toast_message(*error, when@),
{
    match error {
        ApiError::Internal(e) => match e {
            ApiInternalError::Connection => {
                let message = String::from_str(
                    "Action failed as could not connect to server, when ",
                ).concat(when);
                Toast { message }
            },
            _ => {
                let message = String::from_str("Internal error occurred; action failed, when ")
                    .concat(when);
                Toast { message }
            },
        },
        ApiError::Response(e) => {
            if e.status_code == 404 {
                let message = String::from_str(
                    "Action failed as resource was not found, when ",
                ).concat(when);
                Toast { message }
            } else {
                let code = u16_to_string(e.status_code);
                let message = String::from_str("Action failed received status code '").concat(
                    code.as_str(),
                ).concat("', when ").concat(when);
                assert(message@ =~= spec_toast_message(*error, when@));
                Toast { message }
            }
        },
    }
}

/// Clear the session if the server reported the credential invalid: on
/// exactly a 401 answer the store empties and the returned command
/// deletes the stored record; any other error leaves both untouched.
pub fn logout_on_401(error: &ApiError, login_ctx: &mut CurrentLogin) -> (cmd: Option<
    StorageCommand,
>)
    ensures
        spec_is_unauthorized(*error) ==> {
            &&& final(login_ctx).login is None
            &&& final(login_ctx).wf()
            &&& cmd matches Some(c) && c@ is None
        },
        !spec_is_unauthorized(*error) ==> {
            &&& *final(login_ctx) == *old(login_ctx)
            &&& cmd is None
        },
{
    match error {
        ApiError::Response(e) => {
            if e.status_code == UNAUTHORIZED_STATUS {
                Some(login_ctx.reduce(None))
            } else {
                None
            }
        },
        _ => None,
    }
}

/// The uniform treatment of every failed call: push a notification built
/// from the error and the attempted action, and, exactly when the error
/// is the credential-invalid answer, clear the session store and return
/// the command that clears persistent storage.
pub fn handle_api_failure(
    error: &ApiError,
    when: &str,
    toasts: &mut Toasts,
    login_ctx: &mut CurrentLogin,
) -> (cmd: Option<StorageCommand>)
    ensures
        final(toasts).messages() == old(toasts).messages().push(
            spec_toast_message(*error, when@),
        ),
        spec_is_unauthorized(*error) ==> {
            &&& final(login_ctx).login is None
            &&& final(login_ctx).wf()
            &&& cmd matches Some(c) && c@ is None
        },
        !spec_is_unauthorized(*error) ==> {
            &&& *final(login_ctx) == *old(login_ctx)
            &&& cmd is None
        },
{
    let toast = api_error_to_toast(error, when);
    push_toast(toasts, toast);
    logout_on_401(error, login_ctx)
}

/// The forced-logout cascade, end to end: handling the server's
/// credential-invalid answer leaves the session store empty and, once
/// the returned command has run, persistent storage holds no record,
/// whatever either held before; the notification for the failed action
/// is pushed as for any other failure.
pub fn unauthorized_forces_logout(
    error: &ApiError,
    when: &str,
    toasts: &mut Toasts,
    login_ctx: &mut CurrentLogin,
    storage: &mut StorageModel,
)
    requires
        spec_is_unauthorized(*error),
    ensures
        final(login_ctx).login is None,
        final(login_ctx).wf(),
        final(storage).view_record() is None,
        final(toasts).messages() == old(toasts).messages().push(
            spec_toast_message(*error, when@),
        ),
{
    let cmd = handle_api_failure(error, when, toasts, login_ctx);
    match cmd {
        Some(c) => storage.apply(c),
        None => (),
    }
}

} // verus!
