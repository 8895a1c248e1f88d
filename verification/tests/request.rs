use webhook_listener::request::{method_url, Bot, Kind, Payload, Request};

struct GetMe;

impl Payload for GetMe {
    type Output = String;

    fn method(&self) -> &str {
        "getMe"
    }

    fn kind(&self) -> Kind {
        Kind::Simple
    }
}

struct SendText {
    text: String,
}

impl Payload for SendText {
    type Output = u32;

    fn method(&self) -> &str {
        "sendMessage"
    }

    fn kind(&self) -> Kind {
        Kind::Json(format!("{{\"text\":\"{}\"}}", self.text))
    }
}

struct SendFile;

impl Payload for SendFile {
    type Output = ();

    fn method(&self) -> &str {
        "sendDocument"
    }

    fn kind(&self) -> Kind {
        Kind::Multipart(reqwest::multipart::Form::new().text("chat_id", "1"))
    }
}

#[test]
fn a_bot_keeps_its_token() {
    let bot = Bot::new(String::from("123:abc"));
    assert_eq!(bot.token(), "123:abc");
}

#[test]
fn a_request_keeps_its_bot_and_payload() {
    let bot = Bot::new(String::from("123:abc"));
    let request = Request::new(&bot, SendText { text: String::from("hi") });
    assert!(std::ptr::eq(request.bot(), &bot));
    assert_eq!(request.bot().token(), "123:abc");
    assert_eq!(request.payload().text, "hi");
    assert_eq!(request.payload().method(), "sendMessage");
    assert!(matches!(request.payload().kind(), Kind::Json(text) if text == r#"{"text":"hi"}"#));
}

#[test]
fn payloads_travel_in_three_ways() {
    let bot = Bot::new(String::from("t"));
    assert!(matches!(Request::new(&bot, GetMe).payload().kind(), Kind::Simple));
    assert!(matches!(Request::new(&bot, SendFile).payload().kind(), Kind::Multipart(_)));
}

#[test]
fn method_url_joins_address_token_and_method() {
    assert_eq!(
        method_url("https://api.telegram.org", "123:abc", "getMe"),
        "https://api.telegram.org/bot123:abc/getMe"
    );
    assert_eq!(method_url("", "", ""), "/bot/");
    let bot = Bot::new(String::from("42:x"));
    let request = Request::new(&bot, SendFile);
    assert_eq!(
        method_url("http://localhost:8081", request.bot().token(), request.payload().method()),
        "http://localhost:8081/bot42:x/sendDocument"
    );
}
