//! The decisions of requests that carry the user's login.

use vstd::prelude::*;
use crate::mangadex::models::TokenResponse;
use crate::model::{SourceError, SourceErrorView};
use crate::text::{append_str, chars_of, join2, string_of};

verus! {

/// The client that the login is made as.
pub const CLIENT_ID: &'static str = "neko";

/// Where logins are made.
pub const AUTH_URL: &'static str = "https://auth.mangadex.org";

/// Where a login leads back to.
pub const REDIRECT_URI: &'static str = "neko://mangadex-auth";

/// The address that renews tokens.
pub fn get_refresh_url() -> (url: String)
    ensures
        url@ == AUTH_URL@ + "/realms/mangadex/protocol/openid-connect/token"@,
{
    join2(AUTH_URL, "/realms/mangadex/protocol/openid-connect/token")
}

/// The form body that asks for new tokens. The stored tokens are dropped
/// whatever comes of it. Without stored tokens, or without a token to
/// renew them with, there is nothing to ask.
pub fn refresh_access_token(stored: &Option<TokenResponse>, code_verifier: &Option<String>) -> (r:
    Result<String, SourceError>)
    ensures
        match stored {
            None => r is Err && r->Err_0@ == SourceErrorView::Message("Not logged in"@),
            Some(t) => match t.refresh_token {
                None => r is Err && r->Err_0@ == SourceErrorView::Message(
                    "Missing refresh token"@,
                ),
                Some(token) => r is Ok && r->Ok_0@ == "client_id="@ + CLIENT_ID@
                    + "&grant_type=refresh_token&refresh_token="@ + token@ + "&code_verifier="@
                    + (match code_verifier {
                    Some(v) => v@,
                    None => Seq::<char>::empty(),
                }) + "&redirect_uri="@ + REDIRECT_URI@,
            },
        },
{
    let tokens = match stored {
        Some(t) => t,
        None => {
            return Err(SourceError::Message(String::from_str("Not logged in")));
        },
    };
    let token = match &tokens.refresh_token {
        Some(t) => t,
        None => {
            return Err(SourceError::Message(String::from_str("Missing refresh token")));
        },
    };
    let mut body = chars_of("client_id=");
    append_str(&mut body, CLIENT_ID);
    append_str(&mut body, "&grant_type=refresh_token&refresh_token=");
    append_str(&mut body, token.as_str());
    append_str(&mut body, "&code_verifier=");
    match code_verifier {
        Some(v) => {
            append_str(&mut body, v.as_str());
        },
        None => {
            assert(body@ + Seq::<char>::empty() == body@);
        },
    }
    append_str(&mut body, "&redirect_uri=");
    append_str(&mut body, REDIRECT_URI);
    Ok(string_of(&body))
}

/// The new tokens from the answer to the request for them: `text` is the
/// answer where it reads as text, and `tokens` what it decodes to where
/// it does. An answer that is no text, or decodes to nothing, is an error;
/// else the answer is to be stored as it is.
pub fn accept_refresh(text: &Option<String>, tokens: Option<TokenResponse>) -> (r: Result<
    TokenResponse,
    SourceError,
>)
    ensures
        match text {
            None => r is Err && r->Err_0@ == SourceErrorView::Message(
                "Failed to refresh token"@,
            ),
            Some(_) => match tokens {
                None => r == Err::<TokenResponse, SourceError>(SourceError::JsonParseError),
                Some(t) => r == Ok::<TokenResponse, SourceError>(t),
            },
        },
{
    if text.is_none() {
        return Err(SourceError::Message(String::from_str("Failed to refresh token")));
    }
    match tokens {
        Some(t) => Ok(t),
        None => Err(SourceError::JsonParseError),
    }
}

/// The value of the authorization header for the tokens; tokens without
/// an access token are dropped and make an error.
pub fn bearer(tokens: &TokenResponse) -> (r: Result<String, SourceError>)
    ensures
        match tokens.access_token {
            Some(t) => r is Ok && r->Ok_0@ == "Bearer "@ + t@,
            None => r is Err && r->Err_0@ == SourceErrorView::Message("Missing access token"@),
        },
{
    match &tokens.access_token {
        Some(t) => Ok(join2("Bearer ", t.as_str())),
        None => Err(SourceError::Message(String::from_str("Missing access token"))),
    }
}

/// What to do with the answer to a request that carried the login.
#[derive(Clone, Copy, Debug, PartialEq, Eq, Structural)]
pub enum AfterSend {
    /// Hand the answer on.
    Deliver,
    /// Renew the tokens and send the request once more.
    RefreshAndRetry,
    /// Give up: the login was refused again after it was renewed.
    Refused,
}

/// What to do with an answer of the given status: a refusal of the login,
/// status 401, has the tokens renewed and the request sent once more, and
/// is final when it answers that second request. Any other answer is
/// handed on.
pub open spec fn after_send(status: i32, retried: bool) -> AfterSend {
    if status != 401 {
        AfterSend::Deliver
    } else if retried {
        AfterSend::Refused
    } else {
        AfterSend::RefreshAndRetry
    }
}

/// Decides what to do with the answer to a request that carried the
/// login; `retried` tells whether the request was sent a second time
/// already.
pub fn authed_send(status: i32, retried: bool) -> (r: AfterSend)
    ensures
        r == after_send(status, retried),
{
    if status != 401 {
        AfterSend::Deliver
    } else if retried {
        AfterSend::Refused
    } else {
        AfterSend::RefreshAndRetry
    }
}

/// A request is sent twice at most: what follows the answer to a second
/// sending is never another sending.
pub proof fn lemma_one_retry(status: i32)
    ensures
        after_send(status, true) != AfterSend::RefreshAndRetry,
        after_send(status, false) == AfterSend::RefreshAndRetry <==> status == 401,
{
}

/// The error for a login that is refused after it was renewed.
pub fn refused_error() -> (e: SourceError)
    ensures
        e@ == SourceErrorView::Message("Unauthorized"@),
{
    SourceError::Message(String::from_str("Unauthorized"))
}

} // verus!
