use serde_json::Value;
use webhook_listener::endpoint::Outcome;
use webhook_listener::listener::Polled;
use webhook_listener::secret::SecretError;
use webhook_listener::stop::StopEffect;
use webhook_listener::transport::{IpAddress, Location, SocketAddress};
use webhook_listener::webhook::{axum_no_setup, Options};

fn options() -> Options {
    Options::new(
        Location::Ip(SocketAddress { ip: IpAddress::V4(0, 0, 0, 0), port: 8443 }),
        String::from("https://bot.example/webhook"),
        String::from("/webhook"),
    )
}

#[test]
fn new_options_ask_for_no_secret() {
    let options = options();
    assert_eq!(options.url, "https://bot.example/webhook");
    assert_eq!(options.path, "/webhook");
    assert_eq!(options.secret_token, None);
    assert!(matches!(options.location, Location::Ip(SocketAddress { port: 8443, .. })));
}

#[test]
fn a_secret_is_taken_if_a_request_could_carry_it() {
    let with_secret = options().secret_token(b"abc123".to_vec()).unwrap();
    assert_eq!(with_secret.secret_token, Some(b"abc123".to_vec()));
    assert_eq!(with_secret.url, "https://bot.example/webhook");
    assert_eq!(with_secret.path, "/webhook");

    assert_eq!(
        options().secret_token(b"abc 123".to_vec()).err(),
        Some(SecretError::ForbiddenByte)
    );
    assert_eq!(options().secret_token(vec![b'a'; 257]).err(), Some(SecretError::TooLong));
    assert_eq!(options().secret_token(vec![b' '; 257]).err(), Some(SecretError::TooLong));
}

#[test]
fn the_two_halves_are_joined_by_one_queue() {
    let options = options().secret_token(b"abc123".to_vec()).unwrap();
    let (mut listener, mut state) = axum_no_setup::<Value>(options);
    assert!(!state.is_stopped());
    assert_eq!(listener.try_next(), Polled::Pending);

    let first: Value = serde_json::from_str(r#"{"update_id": 1}"#).unwrap();
    let second: Value = serde_json::from_str(r#"{"update_id": 2}"#).unwrap();
    assert_eq!(state.handle(Some(b"abc123"), Some(first.clone())), Outcome::Enqueued);
    assert_eq!(state.handle(Some(b"nope"), Some(second.clone())), Outcome::Unauthorized);
    assert_eq!(state.handle(Some(b"abc123"), None), Outcome::Unparsable);
    assert_eq!(state.handle(Some(b"abc123"), Some(second.clone())), Outcome::Enqueued);

    assert_eq!(listener.try_next(), Polled::Item(Ok(first)));
    assert_eq!(listener.try_next(), Polled::Item(Ok(second)));
    assert_eq!(listener.try_next(), Polled::Pending);
}

#[test]
fn stopping_ends_the_sequence_with_the_next_request() {
    let (mut listener, mut state) = axum_no_setup::<u32>(options());
    assert_eq!(state.handle(None, Some(1)), Outcome::Enqueued);
    assert_eq!(state.stop(), StopEffect::Stopped);
    // The endpoint gives up its producer when the next request sees the stop.
    assert_eq!(state.handle(None, Some(2)), Outcome::Stopped);
    assert_eq!(listener.try_next(), Polled::Item(Ok(1)));
    assert_eq!(listener.try_next(), Polled::Finished);
    assert_eq!(state.handle(None, Some(3)), Outcome::Closed);
    assert_eq!(listener.try_next(), Polled::Finished);
}

#[test]
fn a_dropped_listener_makes_the_queue_refuse() {
    let (listener, mut state) = axum_no_setup::<u32>(options());
    drop(listener);
    assert_eq!(state.handle(None, Some(1)), Outcome::ReceiverGone(1));
}
