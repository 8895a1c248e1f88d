//! Requests to the remote API whose payload is only known at run time.

use vstd::prelude::*;
use vstd::string::StringExecFns;

verus! {

/// `reqwest::multipart::Form`, carried as an opaque value.
#[verifier::external_type_specification]
#[verifier::external_body]
pub struct ExForm(reqwest::multipart::Form);

/// How a payload travels.
pub enum Kind {
    /// Without a body.
    Simple,
    /// As this JSON text.
    Json(String),
    /// As this multipart form.
    Multipart(reqwest::multipart::Form),
}

/// What a request carries to the remote API.
pub trait Payload {
    /// What the remote API answers with.
    type Output;

    /// The name of the method to call.
    fn method(&self) -> &str;

    /// The payload, in the form in which it travels.
    fn kind(&self) -> Kind;
}

/// The account that requests are made for.
pub struct Bot {
    token: String,
}

impl Bot {
    /// The account's token.
    pub closed spec fn token_text(&self) -> Seq<char> {
        self.token@
    }

    /// The account with this token.
    pub fn new(token: String) -> (bot: Self)
        ensures
            bot.token_text() == token@,
    {
        Bot { token }
    }

    /// The account's token.
    pub fn token(&self) -> (token: &str)
        ensures
            token@ == self.token_text(),
    {
        self.token.as_str()
    }
}

/// The address that a call of `method` is posted to, for the account with
/// `token`, at the API that is reached under `api_url`.
pub fn method_url(api_url: &str, token: &str, method: &str) -> (url: String)
    ensures
        url@ == api_url@ + "/bot"@ + token@ + "/"@ + method@,
{
    String::from_str(api_url).concat("/bot").concat(token).concat("/").concat(method)
}

/// A request that is ready to be sent, whatever its payload.
///
/// A request does nothing until it is sent.
#[must_use]
pub struct Request<'b, P> {
    bot: &'b Bot,
    payload: P,
}

impl<'b, P: Payload> Request<'b, P> {
    /// The account that the request is made for.
    pub closed spec fn bot_of(&self) -> Bot {
        *self.bot
    }

    /// What the request carries.
    pub closed spec fn payload_of(&self) -> P {
        self.payload
    }

    /// A request that carries `payload` for `bot`.
    pub fn new(bot: &'b Bot, payload: P) -> (request: Self)
        ensures
            request.bot_of() == *bot,
            request.payload_of() == payload,
    {
        Request { bot, payload }
    }

    /// The account that the request is made for.
    pub fn bot(&self) -> (bot: &'b Bot)
        ensures
            *bot == self.bot_of(),
    {
        self.bot
    }

    /// What the request carries.
    pub fn payload(&self) -> (payload: &P)
        ensures
            *payload == self.payload_of(),
    {
        &self.payload
    }
}

} // verus!
