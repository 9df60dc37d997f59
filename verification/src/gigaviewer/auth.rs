//! The decisions of the login flow.

use vstd::prelude::*;
use crate::text::{join2, join3};

verus! {

/// The setting under which the user name is stored.
pub const EMAIL_KEY: &'static str = "login.username";

/// The setting under which the session cookie is stored.
pub const COOKIE_KEY: &'static str = "login.cookie";

/// The address that takes a login.
pub fn login_url(base_url: &str) -> (url: String)
    ensures
        url@ == base_url@ + "/user_account/login"@,
{
    join2(base_url, "/user_account/login")
}

/// The form body of a login, from the address and password as they are
/// after encoding for a URI component.
pub fn login_body(encoded_email: &str, encoded_password: &str) -> (body: String)
    ensures
        body@ == "email_address="@ + encoded_email@ + "&password="@ + encoded_password@
            + "&return_location_path=/"@,
{
    let mut body = join3("email_address=", encoded_email, "&password=");
    body.append(encoded_password);
    body.append("&return_location_path=/");
    body
}

/// The cookie to store after a login request: the one that the answer
/// sets, when the answer's status is 200. Without one the login failed.
pub fn login(status_code: i32, cookie: Option<String>) -> (stored: Option<String>)
    ensures
        stored.deep_view() == if status_code == 200 {
            cookie.deep_view()
        } else {
            None
        },
{
    if status_code == 200 {
        cookie
    } else {
        None
    }
}

/// Whether a user is logged in: whether a user name is stored.
pub fn is_logged_in(stored_email: &Option<String>) -> (r: bool)
    ensures
        r == stored_email is Some,
{
    stored_email.is_some()
}

/// The header that a request carries for the stored session, if any.
pub fn authed(stored_cookie: &Option<String>) -> (header: Option<(String, String)>)
    ensures
        header.deep_view() == match stored_cookie.deep_view() {
            Some(c) => Some(("Cookie"@, c)),
            None => None,
        },
{
    match stored_cookie {
        Some(c) => Some((String::from_str("Cookie"), c.clone())),
        None => None,
    }
}

} // verus!
