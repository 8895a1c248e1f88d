//! Configuration of a webhook, and the parts that serving it is made of.

use crate::channel::open_channel;
use crate::endpoint::Endpoint;
use crate::handler::WebhookState;
use crate::listener::{Listener, Sequence};
use crate::secret::{check_secret, well_formed, SecretError, MAX_SECRET_LEN};
use crate::transport::Location;
use vstd::prelude::*;

verus! {

/// How a webhook is set up. Options are put together once, before serving
/// starts.
#[derive(Clone, Debug)]
pub struct Options {
    /// Where the endpoint listens.
    pub location: Location,
    /// The address under which the sender of updates reaches the endpoint.
    pub url: String,
    /// The path, within that address, that updates are posted to.
    pub path: String,
    /// The secret that each request has to carry, if one is asked for.
    pub secret_token: Option<Vec<u8>>,
}

impl Options {
    /// Options for an endpoint without a secret.
    pub fn new(location: Location, url: String, path: String) -> (options: Self)
        ensures
            options.location == location,
            options.url == url,
            options.path == path,
            options.secret_token is None,
    {
        Options { location, url, path, secret_token: None }
    }

    /// The same options with `token` as the secret, provided that `token` has
    /// the shape of a secret: a request could not carry any other.
    pub fn secret_token(self, token: Vec<u8>) -> (r: Result<Self, SecretError>)
        ensures
            well_formed(token@) <==> r is Ok,
            r matches Ok(options) ==> options == (Options { secret_token: Some(token), ..self }),
            r matches Err(error) ==> error == if token@.len() > MAX_SECRET_LEN {
                SecretError::TooLong
            } else {
                SecretError::ForbiddenByte
            },
    {
        match check_secret(token.as_slice()) {
            Ok(_) => Ok(Options { secret_token: Some(token), ..self }),
            Err(error) => Err(error),
        }
    }
}

/// The two halves of a webhook that is not registered anywhere: the
/// consumer's listener and the state that request handling works on, joined
/// by a new queue.
///
/// The endpoint starts open and running, asks for the secret of `options`,
/// and has put nothing on the queue. Binding a server to the location of
/// `options`, and routing its requests to the endpoint, is the caller's.
pub fn axum_no_setup<U>(options: Options) -> (parts: (Listener<U>, WebhookState<U>))
    ensures
        parts.0@ == (Sequence::<U> { delivered: Seq::empty(), finished: false }),
        parts.1@ == (Endpoint::<U> {
            secret: match options.secret_token {
                Some(bytes) => Some(bytes@),
                None => None,
            },
            open: true,
            stopped: false,
            enqueued: Seq::empty(),
        }),
{
    let (tx, rx) = open_channel();
    (Listener::new(rx), WebhookState::new(tx, options.secret_token))
}

} // verus!
