//! What is asked of Hugging Face, and what its answers mean.

use hf_robot_account::{
    classify, device_code_request, poll_request, poll_status, poll_token, refresh,
    refresh_request, request_device_code, userinfo, userinfo_request, Config, DeviceCode,
    DeviceCodeResponse, Error, Method, OAuthError, Poll, Reply, Request, Span, TokenAnswer,
    TokenResponse, UserInfo, DEFAULT_EXPIRES_IN, DEFAULT_POLL_INTERVAL, HUGGINGFACE_CLIENT_ID,
};
use serde_json::Value;

fn config() -> Config {
    Config::at("http://hf".to_string())
}

fn text(value: &Value, key: &str) -> Option<String> {
    value.get(key).and_then(Value::as_str).map(str::to_string)
}

fn token(access: &str) -> TokenResponse {
    TokenResponse {
        access_token: access.to_string(),
        refresh_token: Some("refresh-1".to_string()),
        expires_in: Some(2_591_999),
    }
}

fn error(code: &str, description: Option<&str>) -> OAuthError {
    OAuthError {
        error: code.to_string(),
        error_description: description.map(str::to_string),
    }
}

fn answered(status: u16, body: &str, parsed: TokenAnswer) -> Reply<TokenAnswer> {
    Reply::Read { status, body: body.to_string(), parsed }
}

fn nothing() -> TokenAnswer {
    TokenAnswer { token: None, error: None }
}

/// Hugging Face sends neither `interval` nor `verification_uri_complete`. Both are synthesised so
/// nothing downstream has to know that.
#[test]
fn a_device_code_response_is_normalised() {
    // Exactly what huggingface.co answered on 2026-09-02, field for field.
    let body = r#"{"device_code":"41ad39ae","user_code":"A6MY-0314",
                "verification_uri":"https://hf.co/oauth/device","expires_in":300}"#;
    let raw: Value = serde_json::from_str(body).unwrap();
    let reply = Reply::Read {
        status: 200,
        body: body.to_string(),
        parsed: Ok(DeviceCodeResponse {
            device_code: text(&raw, "device_code").unwrap(),
            user_code: text(&raw, "user_code").unwrap(),
            verification_uri: text(&raw, "verification_uri").unwrap(),
            verification_uri_complete: text(&raw, "verification_uri_complete"),
            expires_in: raw.get("expires_in").and_then(Value::as_u64),
            interval: raw.get("interval").and_then(Value::as_u64),
        }),
    };

    let code = request_device_code(&config(), reply).unwrap();

    assert_eq!(code.device_code, "41ad39ae");
    assert_eq!(code.user_code, "A6MY-0314");
    assert_eq!(code.expires_in, 300);
    assert_eq!(
        code.interval, DEFAULT_POLL_INTERVAL,
        "RFC 8628's fallback, because HF sends no interval"
    );
    assert_eq!(
        code.verification_uri_complete, "https://hf.co/oauth/device",
        "the plain URI when the server sends none — HF's device page ignores a `?user_code=` \
         query, so inventing one would promise a prefill that does not happen"
    );
    assert_eq!(code.clone(), code);
}

#[test]
fn what_the_server_sent_is_kept() {
    let raw = DeviceCodeResponse {
        device_code: "d".to_string(),
        user_code: "u".to_string(),
        verification_uri: "https://x".to_string(),
        verification_uri_complete: Some("https://x?c=u".to_string()),
        expires_in: None,
        interval: Some(0),
    };
    let reply = Reply::Read { status: 299, body: String::new(), parsed: Ok(raw) };
    assert_eq!(
        request_device_code(&config(), reply).unwrap(),
        DeviceCode {
            device_code: "d".to_string(),
            user_code: "u".to_string(),
            verification_uri: "https://x".to_string(),
            verification_uri_complete: "https://x?c=u".to_string(),
            expires_in: DEFAULT_EXPIRES_IN,
            interval: 0,
        }
    );
    assert_eq!((DEFAULT_EXPIRES_IN, DEFAULT_POLL_INTERVAL), (900, 5));
}

#[test]
fn a_device_code_that_does_not_come_says_why() {
    let why = |reply| request_device_code(&config(), reply).unwrap_err();
    assert_eq!(
        why(Reply::Unsent("no route".to_string())),
        Error::Network("POST http://hf/oauth/device: no route".to_string())
    );
    assert_eq!(
        why(Reply::Unread { status: 200, why: "cut off".to_string() }),
        Error::Network("reading http://hf/oauth/device: cut off".to_string())
    );
    assert_eq!(
        why(Reply::Read {
            status: 403,
            body: "é".repeat(400),
            parsed: Err("not JSON".to_string())
        }),
        Error::Network(format!(
            "POST http://hf/oauth/device: HTTP 403 Forbidden: {}",
            "é".repeat(300)
        ))
    );
    assert_eq!(
        why(Reply::Read {
            status: 200,
            body: "<html>".to_string(),
            parsed: Err("expected value at line 1".to_string())
        }),
        Error::Network(
            "POST http://hf/oauth/device: could not parse the device code response: expected \
             value at line 1"
                .to_string()
        )
    );
}

#[test]
fn the_four_requests() {
    let config = config();
    let field = |name: &str, value: &str| (name.to_string(), value.to_string());
    let post = |path: &str, form| Request {
        method: Method::Post,
        url: format!("http://hf{path}"),
        form,
        bearer: None,
        timeout: Span::from_secs(20),
    };
    assert_eq!(
        device_code_request(&config),
        post("/oauth/device", vec![field("client_id", HUGGINGFACE_CLIENT_ID)])
    );
    assert_eq!(
        poll_request(&config, "device-abc"),
        post(
            "/oauth/token",
            vec![
                field("grant_type", "urn:ietf:params:oauth:grant-type:device_code"),
                field("client_id", HUGGINGFACE_CLIENT_ID),
                field("device_code", "device-abc"),
            ]
        )
    );
    assert_eq!(
        refresh_request(&config, "refresh-1"),
        post(
            "/oauth/token",
            vec![
                field("grant_type", "refresh_token"),
                field("client_id", HUGGINGFACE_CLIENT_ID),
                field("refresh_token", "refresh-1"),
            ]
        )
    );
    assert_eq!(
        userinfo_request(&config, "hf_abc"),
        Request {
            method: Method::Get,
            url: "http://hf/oauth/userinfo".to_string(),
            form: Vec::new(),
            bearer: Some("hf_abc".to_string()),
            timeout: Span::from_secs(20),
        }
    );
}

/// Which OAuth errors end a login, and which are it working normally.
///
/// The two in the middle are the ones worth pinning: treating `slow_down` as a failure would
/// abandon a login that was about to succeed, and treating `expired_token` as transient would
/// poll a dead code until the deadline.
#[test]
fn oauth_errors_are_classified() {
    let of = |error: &str| {
        classify(&OAuthError {
            error: error.to_string(),
            error_description: None,
        })
    };
    assert_eq!(of("authorization_pending"), Poll::Pending);
    assert_eq!(of("slow_down"), Poll::SlowDown);
    assert!(matches!(of("expired_token"), Poll::Refused(_)));
    assert!(matches!(of("access_denied"), Poll::Refused(_)));
    // An error we have never seen is still an answer about this login: `invalid_client` will
    // not fix itself by being asked again, and polling it for five minutes hides the cause.
    assert!(matches!(of("invalid_client"), Poll::Refused(_)));
}

#[test]
fn a_refusal_says_why() {
    let why = |e: OAuthError| match classify(&e) {
        Poll::Refused(why) => why,
        other => panic!("{other:?}"),
    };
    assert_eq!(
        why(error("expired_token", Some("x"))),
        "the code expired before it was approved — start the login again"
    );
    assert_eq!(why(error("access_denied", None)), "the login was refused on Hugging Face");
    assert_eq!(
        why(error("invalid_client", None)),
        "Hugging Face said invalid_client: invalid_client"
    );
    assert_eq!(
        why(error("invalid_grant", Some("already used"))),
        "Hugging Face said invalid_grant: already used"
    );
}

#[test]
fn an_approved_poll_brings_the_token() {
    let both = TokenAnswer { token: Some(token("t")), error: Some(error("slow_down", None)) };
    assert_eq!(
        poll_token(&config(), answered(200, "", both)),
        Poll::Token(Box::new(token("t"))),
        "a token is a token, whatever else is in the answer"
    );
    let early = TokenAnswer { token: Some(token("t")), error: None };
    assert_eq!(
        poll_token(&config(), answered(400, "", early)),
        Poll::Token(Box::new(token("t"))),
        "and whatever status it comes with, short of a server error"
    );
    for poll in [
        Poll::Pending,
        Poll::SlowDown,
        Poll::Token(Box::new(token("t"))),
        Poll::Refused("no".to_string()),
        Poll::Inconclusive("502".to_string()),
    ] {
        assert_eq!(poll.clone(), poll);
    }
    assert_ne!(token("t"), token("u"));
    assert_eq!(token("t").clone(), token("t"));
}

#[test]
fn a_poll_that_says_nothing_about_the_login_is_inconclusive() {
    let inconclusive = |reply| match poll_token(&config(), reply) {
        Poll::Inconclusive(why) => why,
        other => panic!("{other:?}"),
    };
    assert_eq!(
        inconclusive(Reply::Unsent("timed out".to_string())),
        "POST http://hf/oauth/token: timed out"
    );
    assert_eq!(
        inconclusive(Reply::Unread { status: 200, why: "cut off".to_string() }),
        "reading http://hf/oauth/token: cut off"
    );
    assert_eq!(
        inconclusive(Reply::Unread { status: 500, why: "cut off".to_string() }),
        "POST http://hf/oauth/token: HTTP 500 Internal Server Error"
    );
    assert_eq!(
        inconclusive(answered(200, &"x".repeat(201), nothing())),
        format!("POST http://hf/oauth/token: unexpected answer: {}", "x".repeat(200))
    );
    // A 5xx, whatever its body says.
    for status in [500, 502, 599] {
        let refused = TokenAnswer { token: None, error: Some(error("access_denied", None)) };
        assert!(matches!(
            poll_token(&config(), answered(status, "", refused)),
            Poll::Inconclusive(_)
        ));
        let approved = TokenAnswer { token: Some(token("t")), error: None };
        assert!(matches!(
            poll_token(&config(), answered(status, "", approved)),
            Poll::Inconclusive(_)
        ));
    }
}

#[test]
fn a_status_decides_a_poll_before_its_body_is_read() {
    assert_eq!(
        poll_status(&config(), 502),
        Some(Poll::Inconclusive(
            "POST http://hf/oauth/token: HTTP 502 Bad Gateway".to_string()
        ))
    );
    assert_eq!(
        poll_status(&config(), 599),
        Some(Poll::Inconclusive(
            "POST http://hf/oauth/token: HTTP 599 <unknown status code>".to_string()
        ))
    );
    assert_eq!(poll_status(&config(), 499), None);
    assert_eq!(poll_status(&config(), 600), None);
    assert_eq!(poll_status(&config(), 200), None);
}

#[test]
fn a_refusing_poll_is_classified() {
    let pending = TokenAnswer { token: None, error: Some(error("authorization_pending", None)) };
    assert_eq!(poll_token(&config(), answered(400, "", pending)), Poll::Pending);
    let denied = TokenAnswer { token: None, error: Some(error("access_denied", None)) };
    assert_eq!(
        poll_token(&config(), answered(400, "", denied)),
        Poll::Refused("the login was refused on Hugging Face".to_string())
    );
}

#[test]
fn a_refresh_brings_a_pair_or_says_why() {
    let good = TokenAnswer { token: Some(token("t")), error: None };
    assert_eq!(refresh(&config(), answered(503, "", good)), Ok(token("t")));

    let why = |reply| refresh(&config(), reply).unwrap_err().message();
    assert_eq!(
        why(Reply::Unsent("no route".to_string())),
        "POST http://hf/oauth/token: no route"
    );
    assert_eq!(
        why(Reply::Unread { status: 200, why: "cut off".to_string() }),
        "reading http://hf/oauth/token: cut off"
    );
    let refused = |description| TokenAnswer {
        token: None,
        error: Some(error("invalid_grant", description)),
    };
    assert_eq!(
        why(answered(400, "", refused(Some("refresh token is expired")))),
        "could not refresh the account token: invalid_grant: refresh token is expired"
    );
    assert_eq!(
        why(answered(400, "", refused(None))),
        "could not refresh the account token: invalid_grant: "
    );
    assert_eq!(
        why(answered(502, &"<html>".repeat(100), nothing())),
        format!("could not refresh the account token: {}", &"<html>".repeat(100)[..200])
    );
}

#[test]
fn a_name_is_the_handle_or_else_the_display_name() {
    let read = |status, preferred: Option<&str>, name: Option<&str>| {
        userinfo(
            &config(),
            Reply::Read {
                status,
                body: String::new(),
                parsed: Ok(UserInfo {
                    preferred_username: preferred.map(str::to_string),
                    name: name.map(str::to_string),
                }),
            },
        )
    };
    assert_eq!(
        read(200, Some("PierreRouanet"), Some("Pierre")),
        Ok("PierreRouanet".to_string())
    );
    assert_eq!(read(200, None, Some("Pierre")), Ok("Pierre".to_string()));
    assert_eq!(
        read(200, None, None),
        Err(Error::Network(
            "GET http://hf/oauth/userinfo: no username in the answer".to_string()
        ))
    );
    assert_eq!(
        read(502, Some("PierreRouanet"), None),
        Err(Error::Network(
            "GET http://hf/oauth/userinfo: HTTP 502 Bad Gateway".to_string()
        ))
    );

    let why = |reply| userinfo(&config(), reply).unwrap_err().message();
    assert_eq!(
        why(Reply::Unsent("no route".to_string())),
        "GET http://hf/oauth/userinfo: no route"
    );
    assert_eq!(
        why(Reply::Unread { status: 200, why: "cut off".to_string() }),
        "reading http://hf/oauth/userinfo: cut off"
    );
    assert_eq!(
        why(Reply::Read {
            status: 200,
            body: String::new(),
            parsed: Err("EOF".to_string())
        }),
        "GET http://hf/oauth/userinfo: could not parse the answer: EOF"
    );
}
