//! The bot challenge, as far as it can be decided without the network: what
//! is sent to the verification service, and what its answer means.

use crate::error::{Error, ErrorView};
use crate::kv_store::text_option;
use vstd::prelude::*;
use vstd::string::StringExecFns;

verus! {

/// The form body that asks the verification service about `token`.
pub open spec fn form_of(token: Seq<char>, secret: Seq<char>) -> Seq<char> {
    "secret="@ + secret + "&response="@ + token
}

/// What is to be sent for a request that carried `token` when the
/// configuration holds `secret`: the form body, or the failure if the token
/// or, after that, the secret is missing.
pub open spec fn request_of(token: Option<Seq<char>>, secret: Option<Seq<char>>) -> Result<
    Seq<char>,
    ErrorView,
> {
    match token {
        None => Err(ErrorView::MissingTurnstileToken),
        Some(t) => match secret {
            None => Err(ErrorView::MissingTurnstileSecret),
            Some(s) => Ok(form_of(t, s)),
        },
    }
}

/// Builds the form body that asks the verification service about `token`.
pub fn turnstile_request(token: Option<&str>, secret: Option<&str>) -> (result: Result<
    String,
    Error,
>)
    ensures
        match result {
            Ok(form) => request_of(text_option(token), text_option(secret)) == Ok::<
                Seq<char>,
                ErrorView,
            >(form@),
            Err(e) => request_of(text_option(token), text_option(secret)) == Err::<
                Seq<char>,
                ErrorView,
            >(e@),
        },
{
    let token = match token {
        Some(token) => token,
        None => {
            return Err(Error::MissingTurnstileToken);
        },
    };
    let secret = match secret {
        Some(secret) => secret,
        None => {
            return Err(Error::MissingTurnstileSecret);
        },
    };
    Ok("secret=".to_owned().concat(secret).concat("&response=").concat(token))
}

/// Reads the answer of the verification service: the challenge is passed
/// exactly when the service says so.
pub fn turnstile_result(success: bool) -> (result: Result<(), Error>)
    ensures
        success ==> result is Ok,
        !success ==> result is Err && result->Err_0@ == ErrorView::InvalidTurnstileToken,
{
    if success {
        Ok(())
    } else {
        Err(Error::InvalidTurnstileToken)
    }
}

} // verus!
