//! The user's settings, and the query parameters that they make.

use vstd::prelude::*;
use crate::mangadex::models::TokenResponse;
use crate::model::{SourceError, SourceErrorView};
use crate::text::{append_str, clone_strings, string_of};

verus! {

/// The setting that holds the languages to read.
pub const LANGUAGES_KEY: &'static str = "languages";

/// The setting that holds the suffix of the cover quality.
pub const COVER_QUALITY_KEY: &'static str = "coverQuality";

/// The setting that holds the content ratings to show.
pub const CONTENT_RATING_KEY: &'static str = "contentRating";

/// The setting that holds the groups and uploaders to leave out.
pub const BLOCKED_UUIDS_KEY: &'static str = "blockedUUIDs";

/// The setting that asks for the standard port.
pub const FORCE_PORT_KEY: &'static str = "standardHttpsPort";

/// The setting that asks for images of reduced quality.
pub const DATA_SAVER_KEY: &'static str = "dataSaver";

/// The setting that holds the tokens of the login.
pub const TOKEN_KEY: &'static str = "login";

/// The setting that holds the code verifier of the login.
pub const CODE_VERIFIER_KEY: &'static str = "login.codeVerifier";

/// The parameters that give every value under the one key, as `&`, the
/// key, `[]=` and the value.
pub open spec fn keyed(values: Seq<Seq<char>>, key: Seq<char>) -> Seq<char>
    decreases values.len(),
{
    if values.len() == 0 {
        Seq::empty()
    } else {
        keyed(values.drop_last(), key) + "&"@ + key + "[]="@ + values.last()
    }
}

/// The parameters that leave out every value as a group and as an
/// uploader.
pub open spec fn blocked(values: Seq<Seq<char>>) -> Seq<char>
    decreases values.len(),
{
    if values.len() == 0 {
        Seq::empty()
    } else {
        blocked(values.drop_last()) + "&excludedGroups[]="@ + values.last()
            + "&excludedUploaders[]="@ + values.last()
    }
}

/// The parameters that give every value under the one key.
pub fn keyed_params(values: &Vec<String>, key: &str) -> (out: String)
    ensures
        out@ == keyed(values.deep_view(), key@),
{
    let mut out: Vec<char> = Vec::new();
    let mut i: usize = 0;
    assert(values.deep_view().take(0) == Seq::<Seq<char>>::empty());
    while i < values.len()
        invariant
            i <= values.len(),
            out@ == keyed(values.deep_view().take(i as int), key@),
        decreases values.len() - i,
    {
        assert(values.deep_view().take(i + 1).drop_last() == values.deep_view().take(i as int));
        assert(values.deep_view().take(i + 1).last() == values[i as int]@);
        append_str(&mut out, "&");
        append_str(&mut out, key);
        append_str(&mut out, "[]=");
        append_str(&mut out, values[i].as_str());
        i += 1;
    }
    assert(values.deep_view().take(values.len() as int) == values.deep_view());
    string_of(&out)
}

/// The languages to read, or the error for a setting that is not there.
pub fn get_languages(stored: &Option<Vec<String>>) -> (r: Result<Vec<String>, SourceError>)
    ensures
        match stored {
            Some(list) => r is Ok && r->Ok_0.deep_view() == list.deep_view(),
            None => r is Err && r->Err_0@ == SourceErrorView::Message(
                "Unable to fetch languages"@,
            ),
        },
{
    match stored {
        Some(list) => Ok(clone_strings(list)),
        None => Err(SourceError::Message(String::from_str("Unable to fetch languages"))),
    }
}

/// The languages to read as query parameters under `key`, or the error
/// for a setting that is not there.
pub fn get_languages_with_key(stored: &Option<Vec<String>>, key: &str) -> (r: Result<
    String,
    SourceError,
>)
    ensures
        match stored {
            Some(list) => r is Ok && r->Ok_0@ == keyed(list.deep_view(), key@),
            None => r is Err && r->Err_0@ == SourceErrorView::Message(
                "Unable to fetch languages"@,
            ),
        },
{
    match stored {
        Some(list) => Ok(keyed_params(list, key)),
        None => Err(SourceError::Message(String::from_str("Unable to fetch languages"))),
    }
}

/// The content ratings to show as query parameters, or the error for a
/// setting that is not there.
pub fn get_content_ratings(stored: &Option<Vec<String>>) -> (r: Result<String, SourceError>)
    ensures
        match stored {
            Some(list) => r is Ok && r->Ok_0@ == keyed(list.deep_view(), "contentRating"@),
            None => r is Err && r->Err_0@ == SourceErrorView::Message(
                "Unable to fetch default content ratings"@,
            ),
        },
{
    match stored {
        Some(list) => Ok(keyed_params(list, "contentRating")),
        None => Err(
            SourceError::Message(String::from_str("Unable to fetch default content ratings")),
        ),
    }
}

/// The content ratings to show, or the error for a setting that is not
/// there.
pub fn get_content_ratings_list(stored: &Option<Vec<String>>) -> (r: Result<
    Vec<String>,
    SourceError,
>)
    ensures
        match stored {
            Some(list) => r is Ok && r->Ok_0.deep_view() == list.deep_view(),
            None => r is Err && r->Err_0@ == SourceErrorView::Message(
                "Unable to fetch default content ratings"@,
            ),
        },
{
    match stored {
        Some(list) => Ok(clone_strings(list)),
        None => Err(
            SourceError::Message(String::from_str("Unable to fetch default content ratings")),
        ),
    }
}

/// The groups and uploaders to leave out, as query parameters; none where
/// the setting is not there.
pub fn get_blocked_uuids(stored: &Option<Vec<String>>) -> (out: String)
    ensures
        out@ == blocked(
            match stored {
                Some(list) => list.deep_view(),
                None => Seq::empty(),
            },
        ),
{
    let mut out: Vec<char> = Vec::new();
    match stored {
        Some(values) => {
            let mut i: usize = 0;
            assert(values.deep_view().take(0) == Seq::<Seq<char>>::empty());
            while i < values.len()
                invariant
                    i <= values.len(),
                    out@ == blocked(values.deep_view().take(i as int)),
                decreases values.len() - i,
            {
                assert(values.deep_view().take(i + 1).drop_last() == values.deep_view().take(
                    i as int,
                ));
                assert(values.deep_view().take(i + 1).last() == values[i as int]@);
                append_str(&mut out, "&excludedGroups[]=");
                append_str(&mut out, values[i].as_str());
                append_str(&mut out, "&excludedUploaders[]=");
                append_str(&mut out, values[i].as_str());
                i += 1;
            }
            assert(values.deep_view().take(values.len() as int) == values.deep_view());
        },
        None => {},
    }
    string_of(&out)
}

/// Whether the standard port is asked for; not unless the setting says so.
pub fn get_force_port(stored: Option<bool>) -> (r: bool)
    ensures
        r == (stored == Some(true)),
{
    match stored {
        Some(b) => b,
        None => false,
    }
}

/// Whether images of reduced quality are asked for; not unless the
/// setting says so.
pub fn get_data_saver(stored: Option<bool>) -> (r: bool)
    ensures
        r == (stored == Some(true)),
{
    match stored {
        Some(b) => b,
        None => false,
    }
}

/// The suffix of the cover quality; empty where the setting is not there.
pub fn get_cover_quality(stored: Option<String>) -> (r: String)
    ensures
        r@ == match stored.deep_view() {
            Some(q) => q,
            None => Seq::empty(),
        },
{
    match stored {
        Some(q) => q,
        None => String::new(),
    }
}

/// Whether a user is logged in: whether tokens are stored that can be
/// read.
pub fn is_logged_in(stored: &Option<TokenResponse>) -> (r: bool)
    ensures
        r == stored is Some,
{
    stored.is_some()
}

/// The tokens of the login, or the error for a user who is not logged in.
pub fn get_token(stored: Option<TokenResponse>) -> (r: Result<TokenResponse, SourceError>)
    ensures
        match stored {
            Some(t) => r is Ok && r->Ok_0 == t,
            None => r is Err && r->Err_0@ == SourceErrorView::Message("Not logged in"@),
        },
{
    match stored {
        Some(t) => Ok(t),
        None => Err(SourceError::Message(String::from_str("Not logged in"))),
    }
}

} // verus!
