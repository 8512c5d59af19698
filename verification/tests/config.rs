//! What a login is configured with, what is said when it goes wrong, and the clock.

use hf_robot_account::{
    built_client, client_settings, http_client, now_secs, ClientSettings, Config, Error, Moment, Span, Status, ENDPOINT_VAR,
    HUGGINGFACE, HUGGINGFACE_CLIENT_ID, MAX_REDIRECTS, USER_AGENT,
};

#[test]
fn the_defaults() {
    let config = Config::default();
    assert_eq!(config.endpoint, "https://huggingface.co");
    assert_eq!(config.endpoint, HUGGINGFACE);
    assert_eq!(config.client_id, "26be6b09-91c5-47da-9861-d2d2bb7a7e36");
    assert_eq!(config.client_id, HUGGINGFACE_CLIENT_ID);
    assert_eq!(config.user_agent, "hf-robot-account/0.1.0");
    assert_eq!(config.user_agent, USER_AGENT);
    assert_eq!(config.http_timeout, Span::from_secs(20));
    assert_eq!(config.refresh_when_under, Span { secs: 604_800, nanos: 0 });
    assert_eq!(config.maintain_interval, Span { secs: 21_600, nanos: 0 });
    assert_eq!(config.clone(), config);
    assert_eq!(ENDPOINT_VAR, "HF_ENDPOINT");
    assert_eq!(MAX_REDIRECTS, 5);
}

#[test]
fn an_endpoint_changes_nothing_else() {
    let mirror = Config::at("http://127.0.0.1:1".to_string());
    assert_eq!(
        mirror,
        Config { endpoint: "http://127.0.0.1:1".to_string(), ..Config::default() }
    );
}

/// The environment is honoured if it names something that is not blank, and taken as it is.
#[test]
fn the_environment_is_honoured_unless_blank() {
    let from = |endpoint: &str| Config::from_env(Some(endpoint.to_string())).endpoint;
    assert_eq!(Config::from_env(None), Config::default());
    assert_eq!(from("https://mirror.example"), "https://mirror.example");
    assert_eq!(from(" https://mirror.example"), " https://mirror.example");
    assert_eq!(from(""), HUGGINGFACE);
    assert_eq!(from(" \t\n"), HUGGINGFACE);
    assert_eq!(from("\u{2003}\u{3000}\u{85}"), HUGGINGFACE);
    assert_eq!(from("\u{200b}"), "\u{200b}", "a zero-width space is no white space");
}

/// White space is what std's `trim` takes off, for every character there is.
#[test]
fn blank_is_what_trims_to_nothing() {
    for c in '\0'..=char::MAX {
        let honoured = Config::from_env(Some(c.to_string())).endpoint == c.to_string();
        assert_eq!(honoured, !c.is_whitespace(), "{c:?}");
    }
}

#[test]
fn every_error_says_something() {
    let said = |error: Error| error.message();
    assert_eq!(said(Error::Network("POST x: refused".to_string())), "POST x: refused");
    assert_eq!(
        said(Error::Io { path: "/etc/x".to_string(), source: "denied".to_string() }),
        "/etc/x: denied"
    );
    assert_eq!(
        said(Error::LoginInFlight),
        "a login is already waiting for approval — `account status` has the code, or force to \
         start a new one"
    );
    assert_eq!(
        said(Error::AlreadySignedIn("PierreRouanet".to_string())),
        "this robot already belongs to PierreRouanet. Sign that account out first, or force to \
         replace it"
    );
}

/// The two refusals name the way past them, whoever the robot belongs to.
#[test]
fn a_refusal_names_the_way_past_it() {
    for who in ["PierreRouanet", "", "force"] {
        let message = Error::AlreadySignedIn(who.to_string()).message();
        assert!(message.contains(who) && message.contains("or force"));
    }
    let message = Error::LoginInFlight.message();
    assert!(message.contains("force") && message.contains("account status"));
}

/// A client sends the configured name, and does not chase redirects.
#[test]
fn what_a_client_is_built_with() {
    let config = Config { user_agent: "duck/1".to_string(), ..Config::default() };
    assert_eq!(
        client_settings(&config),
        ClientSettings { user_agent: "duck/1".to_string(), redirects: 5 }
    );
}

#[test]
fn a_client_is_built_of_the_defaults() {
    assert!(http_client(&Config::default()).is_ok());
}

/// A name that no header can carry is refused, and the refusal says what was not built.
#[test]
fn a_client_needs_a_user_agent_that_can_be_sent() {
    let odd = Config { user_agent: "a\nb".to_string(), ..Config::default() };
    let error = http_client(&odd).expect_err("no header carries a newline");
    assert_eq!(error.message(), "could not build HTTP client: builder error");

    assert_eq!(built_client::<u8>(Ok(7)), Ok(7));
    assert_eq!(
        built_client::<u8>(Err("no TLS".to_string())),
        Err(Error::Network("could not build HTTP client: no TLS".to_string()))
    );
}

#[test]
fn moments_count_in_nanoseconds_and_show_whole_seconds() {
    let moment = Moment::at(100, 500_000_000);
    assert_eq!(moment.unix_secs(), 100);
    assert_eq!(moment.plus(60), Moment::at(160, 500_000_000));
    assert!(moment.plus(1).is_after(&moment));
    assert!(!moment.is_after(&moment));

    assert_eq!(moment.secs_until(&Moment::at(101, 499_999_999)), Some(0));
    assert_eq!(moment.secs_until(&Moment::at(101, 500_000_000)), Some(1));
    assert_eq!(moment.secs_until(&moment), Some(0));
    assert_eq!(moment.secs_until(&Moment::at(100, 499_999_999)), None);

    assert_eq!(Moment::at(-1, 0).unix_secs(), 0, "a clock that predates the epoch");
    assert_eq!(Moment::at(-1, 999_999_999).unix_secs(), 0);
    assert_eq!(Moment::at(i64::MAX, 999_999_999).unix_secs(), i64::MAX);
    assert!(Moment::at(i64::MAX, 0).reaches(0));
    assert!(!Moment::at(i64::MAX, 0).reaches(1));
    assert!(Moment::at(-1, 0).reaches(i64::MAX as u64 + 1));
    assert!(Moment::at(i64::MIN, 0).reaches(u64::MAX));
}

/// A clock past the epoch, one before it, and one further off than a clock can show.
#[test]
fn a_clock_stands_somewhere() {
    assert_eq!(Moment::from_epoch(true, 100, 5), Moment::at(100, 5));
    assert_eq!(Moment::from_epoch(true, 100, 5).unix_secs(), 100);
    assert_eq!(Moment::from_epoch(false, 1, 250_000_000), Moment::at(-2, 750_000_000));
    assert_eq!(Moment::from_epoch(false, 1, 250_000_000).unix_secs(), 0);
    assert_eq!(Moment::from_epoch(true, 0, 0), Moment::from_epoch(false, 0, 0));
    assert_eq!(
        Moment::from_epoch(true, u64::MAX, 0),
        Moment::at(i64::MAX, 999_999_999)
    );
    assert_eq!(Moment::from_epoch(false, u64::MAX, 0), Moment::at(i64::MIN, 0));
}

/// The clock shows a time after this was written, and goes forward.
#[test]
fn the_clock_is_read() {
    let before = std::time::SystemTime::now()
        .duration_since(std::time::UNIX_EPOCH)
        .unwrap()
        .as_secs() as i64;
    let now = now_secs();
    let after = Moment::now();
    assert!(before <= now && now <= after.unix_secs());
    assert!(now - before < 20);
    assert!(after.is_after(&Moment::at(1_600_000_000, 0)));
}

#[test]
fn a_status_out_of_the_box() {
    let status = Status::default();
    assert_eq!(status, Status { account: None, login: None, last_error: None });
    assert_eq!(status.clone(), status);
}
