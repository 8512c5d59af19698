//! The account, driven the way a daemon drives it, against a Hugging Face that is played here.

use hf_robot_account::{
    maintain, now_secs, poll_token, read_access_token, refresh, request_device_code, userinfo,
    Account, Config, Contents, Credential, DeviceCode, DeviceCodeResponse, Error, FileStore, Flow,
    FlowAction, FlowEvent, LoginCode, MaintainAction, MaintainEvent, Method, Moment, NamingEvent,
    OAuthError, Poll, Removed, RenewalEvent, Reply, Request, Span, Status, Stored, TokenAnswer,
    TokenResponse, UpkeepAction, UserInfo,
};
use serde_json::Value;

fn store() -> FileStore {
    FileStore::at("/etc/robot/hf-token".to_string())
}

fn token(access: &str) -> Stored {
    Stored {
        access_token: access.to_string(),
        refresh_token: Some("refresh-1".to_string()),
        expires_at: Some(now_secs() + 30 * 24 * 60 * 60),
        username: Some("PierreRouanet".to_string()),
    }
}

fn account_at(base: &str) -> Account {
    Account::new(store(), Config::at(base.to_string()))
}

// ── a stand-in for huggingface.co ────────────────────────────────────────────

/// What each route answers, and what it was asked.
struct Hf {
    device: &'static str,
    /// How many polls to put off before the token is given.
    approve_after: usize,
    token: &'static str,
    userinfo: (u16, &'static str),
    /// How often a device code was asked for.
    devices: usize,
    /// How often the token endpoint was polled.
    polls: usize,
    /// Every `grant_type` the token endpoint was asked for, in order.
    grants: Vec<String>,
}

fn hf() -> Hf {
    Hf {
        device: r#"{"device_code":"device-abc","user_code":"A6MY-0314",
                    "verification_uri":"https://hf.co/oauth/device",
                    "expires_in":60,"interval":1}"#,
        approve_after: 0,
        token: r#"{"access_token":"approved","refresh_token":"refresh-1","expires_in":2591999}"#,
        userinfo: (200, r#"{"preferred_username":"PierreRouanet"}"#),
        devices: 0,
        polls: 0,
        grants: Vec::new(),
    }
}

fn text(value: &Value, key: &str) -> Option<String> {
    value.get(key).and_then(Value::as_str).map(str::to_string)
}

fn json(body: &str) -> Value {
    serde_json::from_str(body).unwrap_or(Value::Null)
}

fn field<'a>(request: &'a Request, name: &str) -> &'a str {
    &request.form.iter().find(|(key, _)| key == name).expect("a field").1
}

impl Hf {
    fn ask_device(&mut self, request: &Request) -> Reply<Result<DeviceCodeResponse, String>> {
        assert_eq!(request.method, Method::Post);
        assert!(request.url.ends_with("/oauth/device"));
        self.devices += 1;
        let raw = json(self.device);
        Reply::Read {
            status: 200,
            body: self.device.to_string(),
            parsed: Ok(DeviceCodeResponse {
                device_code: text(&raw, "device_code").unwrap(),
                user_code: text(&raw, "user_code").unwrap(),
                verification_uri: text(&raw, "verification_uri").unwrap(),
                verification_uri_complete: text(&raw, "verification_uri_complete"),
                expires_in: raw.get("expires_in").and_then(Value::as_u64),
                interval: raw.get("interval").and_then(Value::as_u64),
            }),
        }
    }

    fn ask_token(&mut self, request: &Request) -> Reply<TokenAnswer> {
        assert_eq!(request.method, Method::Post);
        assert!(request.url.ends_with("/oauth/token"));
        self.grants.push(field(request, "grant_type").to_string());
        let body = if self.polls < self.approve_after {
            r#"{"error":"authorization_pending"}"#
        } else {
            self.token
        };
        self.polls += 1;
        let raw = json(body);
        Reply::Read {
            status: 200,
            body: body.to_string(),
            parsed: TokenAnswer {
                token: text(&raw, "access_token").map(|access_token| TokenResponse {
                    access_token,
                    refresh_token: text(&raw, "refresh_token"),
                    expires_in: raw.get("expires_in").and_then(Value::as_u64),
                }),
                error: text(&raw, "error").map(|error| OAuthError {
                    error,
                    error_description: text(&raw, "error_description"),
                }),
            },
        }
    }

    fn ask_userinfo(&mut self, request: &Request) -> Reply<Result<UserInfo, String>> {
        assert_eq!(request.method, Method::Get);
        assert!(request.url.ends_with("/oauth/userinfo"));
        let (status, body) = self.userinfo;
        let raw = json(body);
        Reply::Read {
            status,
            body: body.to_string(),
            parsed: if raw.is_object() {
                Ok(UserInfo {
                    preferred_username: text(&raw, "preferred_username"),
                    name: text(&raw, "name"),
                })
            } else {
                Err("expected value at line 1 column 1".to_string())
            },
        }
    }
}

// ── a robot around the account ───────────────────────────────────────────────

/// An account, what its store holds, and the time.
struct Robot {
    account: Account,
    stored: Option<Stored>,
    secs: i64,
}

fn robot(base: &str) -> Robot {
    Robot { account: account_at(base), stored: None, secs: now_secs() }
}

impl Robot {
    fn now(&self) -> Moment {
        Moment::at(self.secs, 0)
    }

    fn login(&mut self, hf: &mut Hf, force: bool) -> Result<(LoginCode, Flow), Error> {
        let request = self.account.login(self.stored.clone(), force, self.now())?;
        self.answer(hf, request)
    }

    fn answer(&mut self, hf: &mut Hf, request: Request) -> Result<(LoginCode, Flow), Error> {
        let answer = request_device_code(self.account.config(), hf.ask_device(&request));
        let now = self.now();
        assert!(self.account.can_answer(&answer, &now, &now));
        self.account.login_answered(answer, now, now)
    }

    /// Do one thing a flow wants done, and hear what it wants next.
    fn step(&mut self, hf: &mut Hf, flow: &mut Flow, action: FlowAction) -> FlowAction {
        let event = match action {
            FlowAction::Sleep(secs) => {
                self.secs += secs as i64;
                FlowEvent::Woke(self.now())
            }
            FlowAction::Poll(request) => {
                assert_eq!(field(&request, "device_code"), flow.code().device_code);
                FlowEvent::Polled(poll_token(self.account.config(), hf.ask_token(&request)))
            }
            FlowAction::AskName(request) => FlowEvent::Named(
                userinfo(self.account.config(), hf.ask_userinfo(&request)),
                self.secs,
            ),
            FlowAction::Save(record) => {
                self.stored = Some(record);
                FlowEvent::Saved(Ok(()))
            }
            FlowAction::Discard(record) => {
                self.discard(&record);
                FlowEvent::Discarded
            }
            FlowAction::Stop => panic!("the flow is over"),
        };
        assert!(flow.accepts(&event));
        self.account.wait_for_approval(flow, event)
    }

    /// Take a record back, if it is still the one that is stored.
    fn discard(&mut self, record: &Stored) {
        let contents = match self.stored.clone() {
            Some(stored) => Contents::Record(stored),
            None => Contents::Missing,
        };
        if self.account.store().still_holds(contents, record) {
            self.stored = None;
        }
    }

    /// Run a flow to its end.
    fn run(&mut self, hf: &mut Hf, mut flow: Flow) {
        let mut action = flow.first();
        while !matches!(action, FlowAction::Stop) {
            action = self.step(hf, &mut flow, action);
        }
    }

    fn status(&self) -> Status {
        self.account.status(self.stored.clone(), self.now())
    }

    fn logout(&mut self) -> Result<Option<String>, Error> {
        self.account.logout();
        let (contents, removed) = match self.stored.take() {
            Some(stored) => (Contents::Record(stored), Removed::Gone),
            None => (Contents::Missing, Removed::NotFound),
        };
        let cleared = self.account.store().clear(contents, removed);
        self.account.logged_out(cleared)
    }

    fn refresh_if_due(&mut self, hf: &mut Hf) -> Result<bool, Error> {
        let (mut renewal, mut action) = self.account.refresh_if_due(self.stored.clone(), self.secs);
        loop {
            let event = match action {
                UpkeepAction::Send(request) => RenewalEvent::Answered(
                    refresh(self.account.config(), hf.ask_token(&request)),
                    self.secs,
                ),
                UpkeepAction::Save(record) => {
                    self.stored = Some(record);
                    RenewalEvent::Saved(Ok(()))
                }
                UpkeepAction::Discard(record) => {
                    self.discard(&record);
                    RenewalEvent::Discarded
                }
                UpkeepAction::Finish(done) => return done,
            };
            assert!(renewal.accepts(&event));
            action = renewal.step(&self.account, event);
        }
    }

    fn name_if_unknown(&mut self, hf: &mut Hf) -> Result<bool, Error> {
        let (mut naming, mut action) = self.account.name_if_unknown(self.stored.clone());
        loop {
            let event = match action {
                UpkeepAction::Send(request) => {
                    assert_eq!(
                        request.bearer.as_deref(),
                        self.stored.as_ref().map(|stored| stored.access_token.as_str())
                    );
                    NamingEvent::Answered(userinfo(
                        self.account.config(),
                        hf.ask_userinfo(&request),
                    ))
                }
                UpkeepAction::Save(record) => {
                    self.stored = Some(record);
                    NamingEvent::Saved(Ok(()))
                }
                UpkeepAction::Discard(record) => {
                    self.discard(&record);
                    NamingEvent::Discarded
                }
                UpkeepAction::Finish(done) => return done,
            };
            assert!(naming.accepts(&event));
            action = naming.step(&self.account, event);
        }
    }

    fn read_access_token(&self) -> Option<String> {
        read_access_token(match &self.stored {
            Some(stored) => Contents::Record(Credential {
                access_token: stored.access_token.clone(),
            }),
            None => Contents::Missing,
        })
    }
}

// ── the operations ───────────────────────────────────────────────────────────

/// A robot that already belongs to somebody refuses without `force`, and says who.
#[test]
fn signing_in_over_an_existing_account_is_refused_by_name() {
    let mut robot = robot("http://127.0.0.1:1");
    robot.stored = Some(token("already-here"));

    let mut hf = hf();
    let error = robot.login(&mut hf, false).expect_err("must refuse");
    assert!(
        matches!(&error, Error::AlreadySignedIn(who) if who == "PierreRouanet"),
        "{error:?}"
    );
    assert!(
        error.message().contains("force"),
        "the message must name the way past it: {error:?}"
    );
    assert_eq!(hf.devices, 0, "no code was burned to arrive at the refusal");
}

/// An account without a name is refused as one, too.
#[test]
fn signing_in_over_an_account_without_a_name() {
    let mut robot = robot("http://127.0.0.1:1");
    robot.stored = Some(Stored { username: None, ..token("t") });
    assert_eq!(
        robot.login(&mut hf(), false).unwrap_err(),
        Error::AlreadySignedIn("another account".to_string())
    );
    assert!(robot.login(&mut hf(), true).is_ok());
}

/// `status` on a robot that belongs to nobody, which is every robot out of the box.
#[test]
fn status_of_a_robot_that_belongs_to_nobody() {
    let account = Account::new(store(), Config::default());
    let status = account.status(None, Moment::now());
    assert!(status.account.is_none());
    assert!(status.login.is_none());
    assert!(status.last_error.is_none());
    assert_eq!(status, Status::default());
    assert_eq!(account.store(), &store());
    assert_eq!(account.config(), &Config::default());
}

/// `status` reports the account from disk, with no network call.
#[test]
fn status_names_the_account_without_asking_anybody() {
    let account = account_at("http://127.0.0.1:1");
    let status = account.status(Some(token("stored")), Moment::now());
    let account = status.account.expect("signed in");
    assert_eq!(account.username, "PierreRouanet");
    assert!(account.refreshable, "a refresh token was stored");
    assert!(
        account.token_expires_in > 29 * 24 * 60 * 60,
        "about thirty days: {}",
        account.token_expires_in
    );
}

/// A token with a month left is not renewed, and a robot with no token is not renewed either.
#[test]
fn a_fresh_token_is_left_alone() {
    let mut robot = robot("http://127.0.0.1:1");
    let mut hf = hf();

    assert!(!robot.refresh_if_due(&mut hf).unwrap(), "signed out");

    robot.stored = Some(token("fresh"));
    assert!(!robot.refresh_if_due(&mut hf).unwrap(), "plenty of time");

    // No refresh token: nothing to renew with, and it must not be an error — the robot is signed
    // in and working, it just cannot renew unattended.
    robot.stored = Some(Stored {
        refresh_token: None,
        expires_at: Some(now_secs() + 60),
        ..token("expiring")
    });
    assert!(!robot.refresh_if_due(&mut hf).unwrap());
    assert!(hf.grants.is_empty(), "and nobody was asked");
}

/// Two logins arriving together: one starts, the other is told the robot is busy.
#[test]
fn two_logins_at_once_do_not_both_reach_hugging_face() {
    let mut robot = robot("http://hf");
    let mut hf = hf();

    // The second arrives while the first waits for its code.
    let request = robot.account.login(None, false, robot.now()).expect("the first one starts");
    let refusal = robot.login(&mut hf, false).expect_err("the other is refused");
    assert_eq!(
        robot.login(&mut hf, true).unwrap_err(),
        Error::LoginInFlight,
        "even a forced one"
    );
    robot.answer(&mut hf, request).expect("exactly one login starts");

    assert!(
        matches!(refusal, Error::LoginInFlight),
        "and refused as busy, which is a state that passes: {refusal:?}"
    );
    assert!(
        refusal.message().contains("account status"),
        "and it says where the code that already exists can be read: {refusal:?}"
    );
    assert_eq!(
        hf.devices, 1,
        "one device code asked for, so there is only one code to read"
    );
}

/// A login that gets no code, or is given up, lets the next one start.
#[test]
fn a_login_that_comes_to_nothing_is_out_of_the_way() {
    let mut robot = robot("http://hf");
    let mut hf = hf();

    robot.account.login(None, false, robot.now()).unwrap();
    let now = robot.now();
    let failed = robot
        .account
        .login_answered(Err(Error::Network("POST x: down".to_string())), now, now)
        .unwrap_err();
    assert_eq!(failed, Error::Network("POST x: down".to_string()));
    assert_eq!(robot.status(), Status::default(), "the caller was told; nothing waits");

    robot.account.login(None, false, robot.now()).unwrap();
    robot.account.login_abandoned();
    robot.login(&mut hf, false).expect("the next one starts");
}

/// A `logout` abandons a login that still waits for its code, too.
#[test]
fn a_login_signed_out_before_its_code_came_is_withdrawn() {
    let mut robot = robot("http://hf");
    let mut hf = hf();

    let request = robot.account.login(None, false, robot.now()).unwrap();
    robot.logout().unwrap();
    assert_eq!(
        robot.answer(&mut hf, request).unwrap_err(),
        Error::Network("the robot was signed out before the login got its code".to_string())
    );
    assert_eq!(robot.status(), Status::default(), "no code is shown, and none waited for");
    robot.login(&mut hf, false).expect("the next one starts");
}

/// A login replaced while it asks for the name writes nothing, and leaves what the one that
/// replaced it has stored.
#[test]
fn a_login_replaced_while_it_is_named_does_nothing() {
    let mut robot = robot("http://hf");
    let mut hf = hf();
    let (_, mut old) = robot.login(&mut hf, false).unwrap();
    let mut action = old.first();
    while !matches!(action, FlowAction::AskName(_)) {
        action = robot.step(&mut hf, &mut old, action);
    }

    let (_, new) = robot.login(&mut hf, true).unwrap();
    hf.token = r#"{"access_token":"newer","refresh_token":"refresh-9","expires_in":2591999}"#;
    robot.run(&mut hf, new);
    let stored = robot.stored.clone();
    assert_eq!(stored.as_ref().unwrap().access_token, "newer");

    action = robot.step(&mut hf, &mut old, action);
    assert!(matches!(action, FlowAction::Stop));
    assert_eq!(robot.stored, stored);
}

/// A login replaced while it writes takes back its own record, and no other.
#[test]
fn a_login_replaced_while_it_writes_takes_back_its_own() {
    let mut robot = robot("http://hf");
    let mut hf = hf();
    let (_, mut old) = robot.login(&mut hf, false).unwrap();
    let mut action = old.first();
    while !matches!(action, FlowAction::Save(_)) {
        action = robot.step(&mut hf, &mut old, action);
    }
    robot.login(&mut hf, true).unwrap();
    action = robot.step(&mut hf, &mut old, action);
    assert!(matches!(action, FlowAction::Discard(_)));
    // By the time it does so, somebody else has written.
    robot.stored = Some(token("newer"));
    action = robot.step(&mut hf, &mut old, action);
    assert!(matches!(action, FlowAction::Stop));
    assert_eq!(robot.stored.unwrap().access_token, "newer");
}

/// `force` abandons a code nobody is going to approve.
#[test]
fn force_replaces_a_login_that_is_still_waiting() {
    let mut robot = robot("http://hf");
    let mut hf = hf();

    let (first, old) = robot.login(&mut hf, false).expect("the first login starts");
    assert_eq!(hf.devices, 1);

    let refused = robot
        .login(&mut hf, false)
        .expect_err("a live code refuses a second login");
    assert!(matches!(refused, Error::LoginInFlight), "{refused:?}");
    assert!(
        refused.message().contains("force"),
        "and says how to get past itself: {refused:?}"
    );

    robot.login(&mut hf, true).expect("`force` gets past it");
    assert_eq!(hf.devices, 2, "a new code was asked for");
    let waiting = robot.status().login.expect("one login is in flight");
    assert_eq!(waiting.user_code, first.user_code);

    // What the abandoned one is answered later changes nothing.
    robot.run(&mut hf, old);
    assert!(robot.stored.is_none());
    assert!(robot.status().login.is_some(), "the login that replaced it still waits");
}

/// A code that ran out no longer holds the robot.
#[test]
fn a_code_that_ran_out_holds_nothing() {
    let mut robot = robot("http://hf");
    let mut hf = hf();
    robot.login(&mut hf, false).unwrap();

    robot.secs += 59;
    assert_eq!(robot.login(&mut hf, false).unwrap_err(), Error::LoginInFlight);
    assert_eq!(robot.status().login.unwrap().expires_in, 1);
    robot.secs += 1;
    assert_eq!(robot.status().login.unwrap().expires_in, 0);
    robot.login(&mut hf, false).expect("its time is up");
    robot.secs += 61;
    assert!(robot.status().login.is_none());
}

/// An approval that lands after `logout` is dropped, not written.
#[test]
fn a_login_approved_after_logout_is_discarded() {
    let mut robot = robot("http://hf");
    let mut hf = hf();

    let (_, flow) = robot.login(&mut hf, false).expect("a login starts");
    robot.logout().expect("and is signed out under it");

    // The fake approves on the first poll, one second in.
    robot.run(&mut hf, flow);
    assert!(hf.polls >= 1, "the abandoned flow did reach the token endpoint");
    assert!(robot.stored.is_none(), "a robot signed out must stay signed out");
    let status = robot.status();
    assert!(status.account.is_none());
    assert!(status.login.is_none());
}

/// A `logout` that lands while the token is being stored takes the record with it.
#[test]
fn a_login_withdrawn_during_the_write_is_taken_back() {
    let mut robot = robot("http://hf");
    let mut hf = hf();

    let (_, mut flow) = robot.login(&mut hf, false).unwrap();
    let mut action = flow.first();
    while !matches!(action, FlowAction::Save(_)) {
        action = robot.step(&mut hf, &mut flow, action);
    }
    robot.logout().unwrap();
    action = robot.step(&mut hf, &mut flow, action);
    assert!(matches!(action, FlowAction::Discard(_)));
    assert!(robot.stored.is_some(), "the write had landed");
    action = robot.step(&mut hf, &mut flow, action);
    assert!(matches!(action, FlowAction::Stop));
    assert!(robot.stored.is_none(), "and was taken back");
    assert_eq!(robot.status(), Status::default());
}

/// An approved token is not thrown away because `/oauth/userinfo` failed.
#[test]
fn an_approved_token_survives_a_userinfo_failure() {
    let mut robot = robot("http://hf");
    let mut broken = hf();
    broken.userinfo = (502, "<html>502 Bad Gateway</html>");
    let (_, flow) = robot.login(&mut broken, false).unwrap();
    robot.run(&mut broken, flow);
    assert!(
        robot.status().last_error.is_none(),
        "a name that cannot be read is not a failed login"
    );

    let stored = robot.stored.clone().expect("the credential is on disk regardless");
    assert_eq!(stored.access_token, "approved");
    assert_eq!(stored.refresh_token.as_deref(), Some("refresh-1"));
    assert_eq!(stored.expires_at, Some(robot.secs + 2_591_999));
    assert!(stored.username.is_none(), "the name is what is missing");
    assert_eq!(
        robot.status().account.unwrap().username,
        "unknown",
        "a client is told the robot belongs to somebody it cannot name, not that it is signed out"
    );

    // And the next pass names it, without touching the credential.
    assert!(robot.name_if_unknown(&mut broken).is_err());
    assert_eq!(robot.stored.as_ref(), Some(&stored));
    let mut working = hf();
    assert!(robot.name_if_unknown(&mut working).unwrap());
    let named = robot.stored.clone().unwrap();
    assert_eq!(named.username.as_deref(), Some("PierreRouanet"));
    assert_eq!(
        named.access_token, "approved",
        "the backfill writes the name and nothing else"
    );
    assert_eq!(named, Stored { username: named.username.clone(), ..stored });
    assert!(
        !robot.name_if_unknown(&mut working).unwrap(),
        "and asks nobody once it knows — this runs every six hours forever"
    );
}

/// A robot that belongs to nobody has no name to fill in.
#[test]
fn nobody_is_not_asked_for_a_name() {
    assert_eq!(robot("http://hf").name_if_unknown(&mut hf()), Ok(false));
}

/// A token near the end of its life is renewed, and **the rotated refresh token replaces the one
/// that was spent**.
#[test]
fn a_due_token_is_renewed_and_the_rotation_lands_on_disk() {
    let mut robot = robot("http://hf");
    // Six days left: inside the default `refresh_when_under`.
    robot.stored = Some(Stored {
        expires_at: Some(now_secs() + 6 * 24 * 60 * 60),
        ..token("spent")
    });
    let mut hf = hf();
    hf.token = r#"{"access_token":"renewed","refresh_token":"refresh-2","expires_in":2591999}"#;

    assert!(
        robot.refresh_if_due(&mut hf).unwrap(),
        "a token with six days left is due"
    );

    let stored = robot.stored.clone().unwrap();
    assert_eq!(stored.access_token, "renewed");
    assert_eq!(
        stored.refresh_token.as_deref(),
        Some("refresh-2"),
        "the answer's refresh token, not the one it was traded for"
    );
    assert_eq!(
        stored.username.as_deref(),
        Some("PierreRouanet"),
        "kept rather than re-asked: a refresh cannot change who a token belongs to, and this \
         path runs unattended"
    );
    assert!(
        stored.expires_in() > 29 * 24 * 60 * 60,
        "the new expiry is absolute and thirty days out: {}",
        stored.expires_in()
    );
    assert_eq!(
        hf.grants,
        vec!["refresh_token".to_string()],
        "one refresh, sent as a refresh"
    );

    // And now it is not due again, which is what stops `maintain` renewing on every tick.
    assert!(!robot.refresh_if_due(&mut hf).unwrap());
    assert_eq!(hf.grants.len(), 1, "no second round trip");
}

/// A token is due with less than a week left, and not with a week.
#[test]
fn a_token_is_due_in_its_last_week() {
    let now = 1_800_000_000;
    let due = |limit: Span, expires_at: Option<i64>| {
        let account = Account::new(
            store(),
            Config { refresh_when_under: limit, ..Config::at("http://hf".to_string()) },
        );
        let record = Stored { expires_at, ..token("t") };
        matches!(account.refresh_if_due(Some(record), now).1, UpkeepAction::Send(_))
    };
    let week = Span::from_secs(604_800);
    assert!(!due(week, Some(now + 604_801)));
    assert!(!due(week, Some(now + 604_800)), "exactly that much is not less");
    assert!(due(week, Some(now + 604_799)));
    assert!(due(week, Some(now - 1)), "an expired one too");
    assert!(due(Span { secs: 604_800, nanos: 1 }, Some(now + 604_800)), "to the nanosecond");

    // However much the configuration asks for.
    let forever = Span { secs: u64::MAX, nanos: 999_999_999 };
    assert!(due(forever, Some(now + 60)));
    assert!(due(forever, Some(i64::MAX)));
    for limit in [week, Span::from_secs(i64::MAX as u64), forever] {
        assert!(!due(limit, None), "what does not expire is not renewed");
    }
}

/// What is answered after the robot was signed out signs it in again by no way: neither a renewal
/// nor a name is written. What fails is still said to have failed.
#[test]
fn a_renewal_answered_after_logout_is_discarded() {
    let mut robot = robot("http://hf");
    let due = Stored { expires_at: Some(robot.secs + 60), username: None, ..token("spent") };
    robot.stored = Some(due.clone());
    let (mut renewal, action) = robot.account.refresh_if_due(robot.stored.clone(), robot.secs);
    assert!(matches!(action, UpkeepAction::Send(_)));
    let (mut naming, action) = robot.account.name_if_unknown(robot.stored.clone());
    assert!(matches!(action, UpkeepAction::Send(_)));
    let (mut refused, _) = robot.account.refresh_if_due(robot.stored.clone(), robot.secs);
    let (mut unnamed, _) = robot.account.name_if_unknown(robot.stored.clone());

    robot.logout().unwrap();
    let fresh = TokenResponse {
        access_token: "renewed".to_string(),
        refresh_token: Some("refresh-2".to_string()),
        expires_in: None,
    };
    assert!(matches!(
        renewal.step(&robot.account, RenewalEvent::Answered(Ok(fresh), robot.secs)),
        UpkeepAction::Finish(Ok(false))
    ));
    assert!(matches!(
        naming.step(&robot.account, NamingEvent::Answered(Ok("who".to_string()))),
        UpkeepAction::Finish(Ok(false))
    ));
    assert_eq!(robot.status(), Status::default());

    let gone = || Error::Network("gone".to_string());
    let failed = match refused.step(&robot.account, RenewalEvent::Answered(Err(gone()), robot.secs))
    {
        UpkeepAction::Finish(done) => done,
        other => panic!("{other:?}"),
    };
    assert_eq!(failed, Err(gone()));
    maintain(&mut robot.account, MaintainEvent::Refreshed(failed));
    assert_eq!(robot.status().last_error.as_deref(), Some("gone"));
    assert!(matches!(
        unnamed.step(&robot.account, NamingEvent::Answered(Err(gone()))),
        UpkeepAction::Finish(Err(e)) if e == gone()
    ));
    assert!(!renewal.accepts(&RenewalEvent::Saved(Ok(()))));
    assert!(!naming.accepts(&NamingEvent::Saved(Ok(()))));
    assert!(robot.stored.is_none());
}

/// A write that fails under a `logout` is taken back, as far as it came, and then reported.
#[test]
fn a_failed_write_is_taken_back_and_reported() {
    let mut robot = robot("http://hf");
    let due = Stored { expires_at: Some(robot.secs + 60), username: None, ..token("spent") };
    let (mut renewal, _) = robot.account.refresh_if_due(Some(due.clone()), robot.secs);
    let (mut naming, _) = robot.account.name_if_unknown(Some(due));
    let fresh = TokenResponse {
        access_token: "renewed".to_string(),
        refresh_token: None,
        expires_in: None,
    };
    renewal.step(&robot.account, RenewalEvent::Answered(Ok(fresh), robot.secs));
    naming.step(&robot.account, NamingEvent::Answered(Ok("who".to_string())));
    robot.logout().unwrap();

    let denied = || Error::Io { path: "/etc".to_string(), source: "denied".to_string() };
    assert!(matches!(
        renewal.step(&robot.account, RenewalEvent::Saved(Err(denied()))),
        UpkeepAction::Discard(_)
    ));
    assert!(matches!(
        renewal.step(&robot.account, RenewalEvent::Discarded),
        UpkeepAction::Finish(Err(e)) if e == denied()
    ));
    assert!(matches!(
        naming.step(&robot.account, NamingEvent::Saved(Err(denied()))),
        UpkeepAction::Discard(_)
    ));
    assert!(matches!(
        naming.step(&robot.account, NamingEvent::Discarded),
        UpkeepAction::Finish(Err(e)) if e == denied()
    ));
}

/// A `logout` that lands while a renewal or a name is being written has it taken back.
#[test]
fn a_renewal_withdrawn_during_the_write_is_taken_back() {
    let mut robot = robot("http://hf");
    let due = Stored { expires_at: Some(robot.secs + 60), username: None, ..token("spent") };
    let (mut renewal, _) = robot.account.refresh_if_due(Some(due.clone()), robot.secs);
    let (mut naming, _) = robot.account.name_if_unknown(Some(due));
    let fresh = TokenResponse {
        access_token: "renewed".to_string(),
        refresh_token: None,
        expires_in: None,
    };
    let renewing = renewal.step(&robot.account, RenewalEvent::Answered(Ok(fresh), robot.secs));
    let naming_it = naming.step(&robot.account, NamingEvent::Answered(Ok("who".to_string())));
    robot.logout().unwrap();

    let (UpkeepAction::Save(first), UpkeepAction::Save(second)) = (renewing, naming_it) else {
        panic!("both are written");
    };
    robot.stored = Some(first.clone());
    let action = renewal.step(&robot.account, RenewalEvent::Saved(Ok(())));
    robot.stored = Some(second.clone());
    match action {
        UpkeepAction::Discard(record) => {
            assert_eq!(record, first);
            robot.discard(&record);
        }
        other => panic!("{other:?}"),
    }
    assert_eq!(robot.stored, Some(second), "not its own");
    assert!(renewal.accepts(&RenewalEvent::Discarded));
    assert!(matches!(
        renewal.step(&robot.account, RenewalEvent::Discarded),
        UpkeepAction::Finish(Ok(false))
    ));
    match naming.step(&robot.account, NamingEvent::Saved(Ok(()))) {
        UpkeepAction::Discard(record) => robot.discard(&record),
        other => panic!("{other:?}"),
    }
    assert!(naming.accepts(&NamingEvent::Discarded));
    assert!(matches!(
        naming.step(&robot.account, NamingEvent::Discarded),
        UpkeepAction::Finish(Ok(false))
    ));
    assert!(robot.stored.is_none());
}

/// A login that merely waits costs the account that is there nothing; one that is approved does.
#[test]
fn a_renewal_outlives_a_login_that_waits() {
    let mut robot = robot("http://hf");
    let mut hf = hf();
    let due = Stored { expires_at: Some(robot.secs + 60), ..token("spent") };
    robot.stored = Some(due.clone());
    let (mut early, _) = robot.account.refresh_if_due(Some(due.clone()), robot.secs);
    let (mut late, _) = robot.account.refresh_if_due(Some(due), robot.secs);
    let fresh = || {
        Ok(TokenResponse {
            access_token: "renewed".to_string(),
            refresh_token: Some("refresh-2".to_string()),
            expires_in: None,
        })
    };

    let (_, flow) = robot.login(&mut hf, true).unwrap();
    assert!(matches!(
        early.step(&robot.account, RenewalEvent::Answered(fresh(), robot.secs)),
        UpkeepAction::Save(_)
    ));
    robot.run(&mut hf, flow);
    assert_eq!(robot.stored.as_ref().unwrap().access_token, "approved");
    assert!(matches!(
        late.step(&robot.account, RenewalEvent::Answered(fresh(), robot.secs)),
        UpkeepAction::Finish(Ok(false))
    ));
}

/// A record that cannot be written is the error of the pass it was for.
#[test]
fn an_unwritten_renewal_is_an_error() {
    let account = account_at("http://hf");
    let record = Stored { expires_at: Some(10), username: None, ..token("t") };
    let denied = || Error::Io { path: "/etc/x".to_string(), source: "denied".to_string() };

    let (mut renewal, _) = account.refresh_if_due(Some(record.clone()), 5);
    let fresh = TokenResponse {
        access_token: "n".to_string(),
        refresh_token: None,
        expires_in: Some(100),
    };
    let event = RenewalEvent::Answered(Ok(fresh), 5);
    assert!(renewal.accepts(&event));
    match renewal.step(&account, event) {
        UpkeepAction::Save(stored) => {
            assert_eq!(stored.expires_at, Some(105));
            assert_eq!(stored.refresh_token, None);
            assert_eq!(stored.username, None);
        }
        other => panic!("{other:?}"),
    }
    assert!(matches!(
        renewal.step(&account, RenewalEvent::Saved(Err(denied()))),
        UpkeepAction::Finish(Err(e)) if e == denied()
    ));
    assert!(!renewal.accepts(&RenewalEvent::Saved(Ok(()))));

    let (mut naming, _) = account.name_if_unknown(Some(record));
    naming.step(&account, NamingEvent::Answered(Ok("who".to_string())));
    assert!(matches!(
        naming.step(&account, NamingEvent::Saved(Err(denied()))),
        UpkeepAction::Finish(Err(e)) if e == denied()
    ));
}

/// A refresh Hugging Face refuses leaves the credential alone and says so in `status`.
#[test]
fn a_refused_refresh_is_left_alone_and_reported() {
    let mut robot = robot("http://hf");
    robot.account = Account::new(
        store(),
        Config {
            maintain_interval: Span { secs: 0, nanos: 10_000_000 },
            ..Config::at("http://hf".to_string())
        },
    );
    robot.stored = Some(Stored {
        expires_at: Some(now_secs() + 60 * 60),
        ..token("spent")
    });
    let mut hf = hf();
    hf.token = r#"{"error":"invalid_grant","error_description":"refresh token is expired"}"#;

    let error = robot
        .refresh_if_due(&mut hf)
        .expect_err("a refused refresh is an error");
    assert!(
        error.message().contains("invalid_grant"),
        "the reason has to survive to the surface: {error:?}"
    );
    assert_eq!(
        robot.stored.as_ref().unwrap().access_token,
        "spent",
        "the stored credential is untouched — an hour of access left is worth more than a record \
         half-replaced by a failed refresh"
    );
    assert!(robot.status().last_error.is_none());

    assert_eq!(maintain(&mut robot.account, MaintainEvent::Woke), MaintainAction::Refresh);
    let refreshed = robot.refresh_if_due(&mut hf);
    assert_eq!(
        maintain(&mut robot.account, MaintainEvent::Refreshed(refreshed)),
        MaintainAction::Name
    );
    let reported = robot
        .status()
        .last_error
        .expect("`maintain` must put the failure where a client can see it");
    assert!(
        reported.contains("invalid_grant"),
        "`status` is where somebody asks why remote access stopped: {reported}"
    );
    let named = robot.name_if_unknown(&mut hf);
    assert_eq!(named, Ok(false));
    assert_eq!(
        maintain(&mut robot.account, MaintainEvent::Named(named)),
        MaintainAction::Sleep(Span { secs: 0, nanos: 10_000_000 })
    );
    assert_eq!(robot.status().last_error, Some(reported));
}

/// What failed is forgotten once something works, and a missing name never gets there.
#[test]
fn upkeep_reports_what_stopped_remote_access() {
    let mut account = account_at("http://hf");
    let reported = |account: &Account| account.status(None, Moment::at(0, 0)).last_error;
    let fail = || Err(Error::Network("down".to_string()));

    maintain(&mut account, MaintainEvent::Named(fail()));
    assert_eq!(reported(&account), None);
    maintain(&mut account, MaintainEvent::Refreshed(fail()));
    assert_eq!(reported(&account).as_deref(), Some("down"));
    maintain(&mut account, MaintainEvent::Refreshed(Ok(false)));
    assert_eq!(reported(&account).as_deref(), Some("down"), "nothing was tried");
    maintain(&mut account, MaintainEvent::Refreshed(Ok(true)));
    assert_eq!(reported(&account), None);
}

/// However slow the pace, the code's life bounds the polls.
#[test]
fn the_deadline_bounds_the_polls() {
    let polls = |device: &'static str| {
        let mut robot = robot("http://hf");
        let mut never = hf();
        never.approve_after = usize::MAX;
        never.device = device;
        let (_, flow) = robot.login(&mut never, false).unwrap();
        robot.run(&mut never, flow);
        never.polls
    };
    assert_eq!(
        polls(
            r#"{"device_code":"d","user_code":"u","verification_uri":"v",
                "expires_in":300,"interval":7}"#
        ),
        42,
        "forty-two times seven is less than three hundred, forty-three times is not"
    );
    assert_eq!(
        polls(
            r#"{"device_code":"d","user_code":"u","verification_uri":"v",
                "expires_in":300,"interval":300}"#
        ),
        0
    );
}

/// A login is refused, or runs out, and `status` says which.
#[test]
fn a_login_that_fails_says_why() {
    let mut refused = robot("http://hf");
    let mut no = hf();
    no.token = r#"{"error":"access_denied"}"#;
    let (_, flow) = refused.login(&mut no, false).unwrap();
    refused.run(&mut no, flow);
    assert_eq!(
        refused.status(),
        Status {
            last_error: Some("the login was refused on Hugging Face".to_string()),
            ..Status::default()
        }
    );

    let mut expired = robot("http://hf");
    let mut never = hf();
    never.approve_after = usize::MAX;
    let (_, flow) = expired.login(&mut never, false).unwrap();
    expired.run(&mut never, flow);
    assert_eq!(
        expired.status().last_error.as_deref(),
        Some("the code expired before it was approved")
    );
    assert_eq!(never.polls, 59, "every second but the one it ran out in");

    // And the next login clears it.
    expired.login(&mut never, false).unwrap();
    assert_eq!(expired.status().last_error, None);
}

/// A record that cannot be written ends the login, and says so.
#[test]
fn a_login_that_cannot_be_stored_says_why() {
    let mut robot = robot("http://hf");
    let mut hf = hf();
    let (_, mut flow) = robot.login(&mut hf, false).unwrap();
    let mut action = flow.first();
    while !matches!(action, FlowAction::Save(_)) {
        action = robot.step(&mut hf, &mut flow, action);
    }
    let full = Error::Io { path: "/etc/x.tmp".to_string(), source: "disk full".to_string() };
    let event = FlowEvent::Saved(Err(full));
    assert!(flow.accepts(&event));
    assert!(matches!(robot.account.wait_for_approval(&mut flow, event), FlowAction::Stop));
    assert_eq!(robot.status().last_error.as_deref(), Some("/etc/x.tmp: disk full"));
    assert!(robot.status().login.is_none());
}

/// The pace of a flow: what the server asked for, a second at least, five more when told to slow
/// down, and the same again after an answer that says nothing.
#[test]
fn a_flow_keeps_its_distance() {
    let mut account = account_at("http://hf");
    let zero = Moment::at(0, 0);
    let code = DeviceCode {
        device_code: "d".to_string(),
        user_code: "u".to_string(),
        verification_uri: "v".to_string(),
        verification_uri_complete: "v".to_string(),
        expires_in: 100,
        interval: 0,
    };
    account.login(None, false, zero).unwrap();
    let (login, mut flow) = account.login_answered(Ok(code), zero, zero).unwrap();
    assert_eq!(login.interval, 0, "reported as the server asked");
    assert!(matches!(flow.first(), FlowAction::Sleep(1)));

    let waits = |account: &mut Account, flow: &mut Flow, poll: Poll| {
        let woke = account.wait_for_approval(flow, FlowEvent::Woke(Moment::at(99, 999_999_999)));
        assert!(matches!(woke, FlowAction::Poll(_)));
        assert!(!flow.accepts(&FlowEvent::Woke(Moment::at(0, 0))));
        match account.wait_for_approval(flow, FlowEvent::Polled(poll)) {
            FlowAction::Sleep(secs) => secs,
            other => panic!("{other:?}"),
        }
    };
    assert_eq!(waits(&mut account, &mut flow, Poll::Pending), 1);
    assert_eq!(waits(&mut account, &mut flow, Poll::SlowDown), 6);
    assert_eq!(waits(&mut account, &mut flow, Poll::Inconclusive("502".to_string())), 6);
    assert_eq!(waits(&mut account, &mut flow, Poll::SlowDown), 11);
    assert!(account.is_current(1) && !account.is_current(0));
    assert!(matches!(
        account.wait_for_approval(&mut flow, FlowEvent::Woke(Moment::at(100, 0))),
        FlowAction::Stop
    ));
}

/// What no login can be made of is known before it is tried.
#[test]
fn an_answer_no_clock_can_hold() {
    let mut account = account_at("http://hf");
    let code = |expires_in| {
        Ok(DeviceCode {
            device_code: "d".to_string(),
            user_code: "u".to_string(),
            verification_uri: "v".to_string(),
            verification_uri_complete: "v".to_string(),
            expires_in,
            interval: 5,
        })
    };
    let now = Moment::at(1_788_000_000, 0);
    account.login(None, false, now).unwrap();
    assert!(account.can_answer(&code(900), &now, &now));
    assert!(!account.can_answer(&code(u64::MAX), &now, &now));
    assert!(account.can_answer(&Err(Error::LoginInFlight), &now, &now));
}

/// A sign-out whose file could not be removed disowns the flow in flight, and keeps the rest.
#[test]
fn a_sign_out_that_fails() {
    let mut robot = robot("http://hf");
    let mut hf = hf();
    let (_, flow) = robot.login(&mut hf, false).unwrap();
    let before = robot.status();

    robot.account.logout();
    let failed = robot
        .account
        .store()
        .clear(Contents::Missing, Removed::Failed("denied".to_string()));
    let told = robot.account.logged_out(failed).unwrap_err();
    assert_eq!(told.message(), "/etc/robot/hf-token: denied");
    assert_eq!(robot.status(), before);

    robot.run(&mut hf, flow);
    assert!(robot.stored.is_none());
}

/// The shape a daemon serves: hand back a code, hang up, come back to `status`.
#[test]
fn a_client_gets_a_code_hangs_up_and_comes_back_to_status() {
    let mut robot = robot("http://hf");
    let mut hf = hf();
    hf.approve_after = 2;

    // The client asks. It gets something to show a person, and nothing else.
    let (code, flow) = robot.login(&mut hf, false).expect("a login starts");
    assert_eq!(code.user_code, "A6MY-0314");
    assert_eq!(code.verification_uri, "https://hf.co/oauth/device");
    assert_eq!(
        code.verification_uri_complete, code.verification_uri,
        "no URL carries the code, so the caller must show it"
    );
    assert!(robot.stored.is_none(), "nothing is stored until somebody approves");

    // The client is gone. Something else asks, which is what a wizard does.
    let waiting = robot.status();
    assert!(waiting.account.is_none(), "not signed in yet");
    let rejoined = waiting
        .login
        .expect("the code is in `status` so a client can rejoin it");
    assert_eq!(rejoined.user_code, code.user_code);
    assert!(rejoined.expires_in <= code.expires_in, "counted down, not repeated");
    assert_eq!(rejoined, code, "and all of it at the start");

    // Somebody approves it on their phone. The fake says yes on the third poll.
    robot.run(&mut hf, flow);
    assert_eq!(hf.polls, 3);
    let signed_in = robot.status();

    let who = signed_in.account.expect("signed in");
    assert_eq!(who.username, "PierreRouanet");
    assert!(who.refreshable, "a refresh token came with it");
    assert!(who.token_expires_in > 29 * 24 * 60 * 60, "about thirty days");
    assert!(signed_in.login.is_none(), "and the code is spent");
    assert!(signed_in.last_error.is_none());

    // The other half of the contract: a second process reads the token out of the file.
    assert_eq!(
        robot.read_access_token().as_deref(),
        Some("approved"),
        "an unprivileged reader gets the token without linking any of this"
    );

    // And signing out forgets it.
    let was = robot.logout().expect("logout");
    assert_eq!(was.as_deref(), Some("PierreRouanet"), "it says who it forgot");
    assert_eq!(robot.read_access_token(), None);
    assert!(robot.status().account.is_none());

    // None of which moved the store or changed what the account was configured with.
    assert_eq!(robot.account.store(), &store());
    assert_eq!(robot.account.config(), &Config::at("http://hf".to_string()));
}
