//! Invite-link arithmetic: the endpoint paths the outbound call uses and
//! the reading of its response.
//!
//! The HTTP call itself is the host's; the library fixes what URL is
//! called and what the response body's fields mean.

use vstd::prelude::*;
use vstd::string::StringExecFns;

verus! {

/// Why no invite link came out of a response.
#[derive(Clone, Copy, PartialEq, Eq, Structural, Debug)]
pub enum InviteError {
    /// The remote end answered with a non-success status.
    ApiError,
    /// The response succeeded but carried no invite code.
    MissingCode,
}

/// The full URL of an API route.
pub fn full_endpoint(path: &str) -> (r: String)
    ensures
        r@ == "https://discord.com/api/v10"@ + path@,
{
    String::from_str("https://discord.com/api/v10").concat(path)
}

/// The route that mints an invite for a channel.
pub fn invites_path(channel_id: &str) -> (r: String)
    ensures
        r@ == "/channels/"@ + channel_id@ + "/invites"@,
{
    String::from_str("/channels/").concat(channel_id).concat("/invites")
}

/// The public link an invite code stands for.
pub fn invite_url(code: &str) -> (r: String)
    ensures
        r@ == "https://discord.gg/"@ + code@,
{
    String::from_str("https://discord.gg/").concat(code)
}

/// Reads an invite response: a success status with a code yields the
/// public link; a success without a code and a failure status are the two
/// errors, each exactly when stated.
pub fn invite_from_response(status_success: bool, code: Option<&str>) -> (r: Result<
    String,
    InviteError,
>)
    ensures
        status_success && code is Some ==> (r matches Ok(u) && u@ == "https://discord.gg/"@
            + code->0@),
        status_success && code is None ==> r == Err::<String, InviteError>(
            InviteError::MissingCode,
        ),
        !status_success ==> r == Err::<String, InviteError>(InviteError::ApiError),
{
    if !status_success {
        Err(InviteError::ApiError)
    } else {
        match code {
            Some(c) => Ok(invite_url(c)),
            None => Err(InviteError::MissingCode),
        }
    }
}

} // verus!
