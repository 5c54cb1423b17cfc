use mimo_bridge::{
    build_headers, cookie_shape, Action, AuthSnapshot, AuthState, BridgeError, Event, Exchange,
    Method, MimoClient, RefreshAction, RefreshEvent, Request, Session, Status, TokenRefresh,
    PATH_CHAT, PATH_QUOTA,
};
use reqwest::header::{HeaderMap, HeaderValue};
use serde_json::Value;

fn session(cookie: &str) -> Session {
    Session {
        authenticated: true,
        cookie_header: Some(cookie.into()),
        pass_token: Some("long-lived".into()),
        nick: Some("nick".into()),
        user_id: Some("123".into()),
        refreshed_at: Some(17),
    }
}

fn logged_out() -> Session {
    Session {
        authenticated: false,
        cookie_header: None,
        pass_token: None,
        nick: None,
        user_id: None,
        refreshed_at: None,
    }
}

fn client(session: Session) -> MimoClient {
    MimoClient::new(AuthState { session }, None)
}

fn body() -> Value {
    Value::String("hi".into())
}

fn replied(code: u16) -> Event {
    Event::Replied { status: Status::from_u16(code).unwrap() }
}

fn sent(action: Action) -> Request {
    match action {
        Action::Send { request } => request,
        other => panic!("{other:?}"),
    }
}

#[test]
fn headers_are_those_of_the_official_client() {
    let headers = build_headers(&session("serviceToken=abc; userId=123")).unwrap();
    assert_eq!(headers.len(), 6);
    assert_eq!(headers.get("user-agent").unwrap(), "node");
    assert_eq!(headers.get("accept").unwrap(), "*/*");
    assert_eq!(headers.get("accept-language").unwrap(), "*");
    assert_eq!(headers.get("sec-fetch-mode").unwrap(), "cors");
    assert_eq!(headers.get("accept-encoding").unwrap(), "gzip");
    assert_eq!(headers.get("cookie").unwrap(), "serviceToken=abc; userId=123");
}

#[test]
fn headers_need_a_cookie() {
    assert_eq!(build_headers(&logged_out()), Err(BridgeError::NotAuthenticated));
}

#[test]
fn cookie_must_be_a_header_value() {
    let refused = BridgeError::Other("failed to parse header value".into());
    assert_eq!(build_headers(&session("a=1\n")), Err(refused.clone()));
    assert_eq!(build_headers(&session("a=\u{7f}")), Err(refused.clone()));
    let said = HeaderValue::from_str("a=1\n").unwrap_err().to_string();
    assert_eq!(refused, BridgeError::Other(said));
    assert!(build_headers(&session("a=\t1")).is_ok());
    let headers = build_headers(&session("a=é")).unwrap();
    assert_eq!(headers.get("cookie").unwrap().as_bytes(), "a=é".as_bytes());
}

#[test]
fn cookie_shape_shows_names_and_lengths() {
    let shape = |cookie: &str| cookie_shape(&build_headers(&session(cookie)).unwrap());
    assert_eq!(
        shape("serviceToken=abcdefghijkl; userId=123").as_deref(),
        Some("serviceToken(len=12), userId(len=3)")
    );
    assert_eq!(shape("a=b=c;d").as_deref(), Some("a(len=3), d(len=0)"));
    assert_eq!(shape("\t a = 1 ;").as_deref(), Some("a (len=2), (len=0)"));
    assert_eq!(shape("").as_deref(), Some("(len=0)"));
    assert_eq!(shape("=x").as_deref(), Some("(len=1)"));
    assert_eq!(shape("a=é"), None);
}

#[test]
fn cookie_shape_hides_values() {
    let shape = |cookie: &str| cookie_shape(&build_headers(&session(cookie)).unwrap());
    assert_eq!(shape("a=secret; b=xy"), shape("a=public; b=zz"));
    assert_ne!(shape("a=secret"), shape("a=secrets"));
}

#[test]
fn cookie_shape_needs_a_cookie() {
    assert_eq!(cookie_shape(&HeaderMap::new()), None);
    let mut headers = HeaderMap::new();
    headers.append("cookie", HeaderValue::from_static("first=1"));
    headers.append("cookie", HeaderValue::from_static("second=22"));
    assert_eq!(cookie_shape(&headers).as_deref(), Some("first(len=1)"));
}

#[test]
fn posts_log_the_shape_of_their_cookie() {
    let line = |cookie: &str| {
        let client = client(session(cookie));
        sent(client.post_json("/path", body()).step(client.ready(None))).log_line()
    };
    assert_eq!(
        line("serviceToken=abc; userId=a=b=c").as_deref(),
        Some("cookie shape: [serviceToken(len=3), userId(len=5)]")
    );
    assert_eq!(line("a=secret; b=xy"), line("a=public; b=zz"));
    assert_eq!(line("a=é"), None);
}

#[test]
fn fetches_log_no_cookie() {
    let client = client(session("a=b"));
    let request = sent(client.get("/path").step(client.ready(None)));
    assert_eq!(request.log_line(), None);
}

#[test]
fn post_is_sent_and_its_answer_delivered() {
    let client = client(session("t=1"));
    let mut exchange = client.post_json("/path", body());
    let request = sent(exchange.step(client.ready(None)));
    assert_eq!(request.method, Method::Post);
    assert_eq!(request.url, "https://api.miclaw.xiaomi.net/path");
    assert_eq!(request.headers.get("cookie").unwrap(), "t=1");
    assert_eq!(exchange.body(), Some(&body()));
    assert!(matches!(exchange.step(replied(500)), Action::Deliver));
    assert!(matches!(exchange.step(replied(401)), Action::Ignore));
}

#[test]
fn refused_token_is_refreshed_and_the_call_replayed() {
    let mut client = client(session("t=old"));
    let mut exchange = client.post_json("/path", body());
    let first = sent(exchange.step(client.ready(Some("http://mock".into()))));
    assert!(matches!(exchange.step(replied(401)), Action::Refresh));
    let mut refresh = TokenRefresh::new(true);
    match refresh.step(&mut client.auth, RefreshEvent::Begin) {
        RefreshAction::Mint { session: source } => assert_eq!(source, session("t=old")),
        other => panic!("{other:?}"),
    }
    let minted = RefreshEvent::Minted { session: session("t=new") };
    assert!(matches!(refresh.step(&mut client.auth, minted), RefreshAction::Save));
    assert!(matches!(
        refresh.step(&mut client.auth, RefreshEvent::SaveFailed),
        RefreshAction::Succeed
    ));
    assert_eq!(client.auth.session, session("t=new"));
    let second = sent(exchange.step(client.ready(Some("http://mock".into()))));
    assert_eq!(first.url, "http://mock/path");
    assert_eq!(second.url, first.url);
    assert_eq!(second.method, first.method);
    assert_eq!(first.headers.get("cookie").unwrap(), "t=old");
    assert_eq!(second.headers.get("cookie").unwrap(), "t=new");
    assert_eq!(exchange.body(), Some(&body()));
    assert!(matches!(exchange.step(replied(401)), Action::Deliver));
}

#[test]
fn failed_refresh_fails_the_call() {
    let mut client = client(session("t=old"));
    let mut exchange = client.get("/path");
    sent(exchange.step(client.ready(None)));
    assert!(matches!(exchange.step(replied(401)), Action::Refresh));
    let mut refresh = TokenRefresh::new(true);
    refresh.step(&mut client.auth, RefreshEvent::Begin);
    assert!(matches!(
        refresh.step(&mut client.auth, RefreshEvent::MintFailed),
        RefreshAction::Raise
    ));
    assert_eq!(client.auth.session, session("t=old"));
    assert!(matches!(
        exchange.step(Event::RefreshFailed),
        Action::Fail { error: BridgeError::NotAuthenticated }
    ));
    assert!(matches!(exchange.step(client.ready(None)), Action::Ignore));
}

#[test]
fn refresh_takes_the_long_lived_token() {
    let mut bare = session("t=1");
    bare.pass_token = None;
    let mut auth = AuthState { session: bare };
    let mut refresh = TokenRefresh::new(false);
    assert!(matches!(
        refresh.step(&mut auth, RefreshEvent::Begin),
        RefreshAction::Fail { error: BridgeError::NotAuthenticated }
    ));
    assert!(matches!(refresh.step(&mut auth, RefreshEvent::Begin), RefreshAction::Ignore));
}

#[test]
fn refresh_saves_only_where_there_is_a_store() {
    let mut auth = AuthState { session: session("t=1") };
    let mut refresh = TokenRefresh::new(false);
    refresh.step(&mut auth, RefreshEvent::Begin);
    let minted = RefreshEvent::Minted { session: session("t=2") };
    assert!(matches!(refresh.step(&mut auth, minted), RefreshAction::Succeed));
    assert_eq!(auth.session, session("t=2"));

    let mut refresh = TokenRefresh::new(true);
    refresh.step(&mut auth, RefreshEvent::Begin);
    let minted = RefreshEvent::Minted { session: session("t=3") };
    assert!(matches!(refresh.step(&mut auth, minted), RefreshAction::Save));
    assert!(matches!(refresh.step(&mut auth, RefreshEvent::Saved), RefreshAction::Succeed));
    assert_eq!(auth.session, session("t=3"));
}

#[test]
fn misplaced_refresh_events_are_ignored() {
    let mut auth = AuthState { session: session("t=1") };
    let mut refresh = TokenRefresh::new(true);
    let minted = RefreshEvent::Minted { session: session("t=2") };
    assert!(matches!(refresh.step(&mut auth, minted), RefreshAction::Ignore));
    assert!(matches!(refresh.step(&mut auth, RefreshEvent::Saved), RefreshAction::Ignore));
    assert_eq!(auth.session, session("t=1"));
}

#[test]
fn refreshed_session_may_still_not_be_usable() {
    let client = client(session("t=old"));
    let mut exchange = client.get("/path");
    sent(exchange.step(client.ready(None)));
    assert!(matches!(exchange.step(replied(401)), Action::Refresh));
    let broken = Event::Ready { session: session("t=\u{1}"), host: "h".into() };
    match exchange.step(broken) {
        Action::Fail { error } => {
            assert_eq!(error, BridgeError::Other("failed to parse header value".into()));
        }
        other => panic!("{other:?}"),
    }
}

#[test]
fn transport_errors_are_raised() {
    let client = client(session("t=1"));
    let mut exchange = client.get("/path");
    sent(exchange.step(client.ready(None)));
    assert!(matches!(exchange.step(Event::SendFailed), Action::Raise));
    let mut exchange = client.get("/path");
    sent(exchange.step(client.ready(None)));
    assert!(matches!(exchange.step(replied(401)), Action::Refresh));
    sent(exchange.step(client.ready(None)));
    assert!(matches!(exchange.step(Event::SendFailed), Action::Raise));
}

#[test]
fn logged_out_session_sends_nothing() {
    let client = client(logged_out());
    let mut exchange = client.get("/path");
    assert!(matches!(
        exchange.step(client.ready(None)),
        Action::Fail { error: BridgeError::NotAuthenticated }
    ));
    let mut forgotten = session("t=1");
    forgotten.authenticated = false;
    assert_eq!(forgotten.snapshot(), Err(BridgeError::NotAuthenticated));
    assert_eq!(session("t=1").snapshot(), Ok(session("t=1")));
}

#[test]
fn misplaced_events_are_ignored() {
    let mut exchange = Exchange::new(Method::Get, "/path", None);
    assert!(matches!(exchange.step(replied(200)), Action::Ignore));
    assert!(matches!(exchange.step(Event::RefreshFailed), Action::Ignore));
    assert!(matches!(exchange.step(Event::SendFailed), Action::Ignore));
    assert_eq!(exchange.path(), "/path");
    assert_eq!(exchange.body(), None);
}

#[test]
fn chat_and_quota_call_their_endpoints() {
    let client = client(session("t=1"));
    let mut chat = client.chat(body());
    assert_eq!(chat.path(), PATH_CHAT);
    assert_eq!(sent(chat.step(client.ready(None))).method, Method::Post);
    assert_eq!(chat.body(), Some(&body()));
    let mut quota = client.quota();
    assert_eq!(quota.path(), PATH_QUOTA);
    let request = sent(quota.step(client.ready(None)));
    assert_eq!(request.method, Method::Get);
    assert_eq!(
        request.url,
        "https://api.miclaw.xiaomi.net/osbot/pc/user/v2/status?bizId=xiaoai_pc&featureId=common"
    );
    assert_eq!(quota.body(), None);
}

#[test]
fn quick_status_shows_the_session() {
    assert_eq!(
        client(session("t=1")).quick_status(),
        AuthSnapshot {
            authenticated: true,
            nick: Some("nick".into()),
            user_id: Some("123".into()),
            refreshed_at: Some(17),
        }
    );
    assert!(!client(logged_out()).quick_status().authenticated);
    assert_eq!(client(session("t=1")).config.timeout_secs, 600);
}
