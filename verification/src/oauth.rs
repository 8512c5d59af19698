//! The Hugging Face half: four requests, and the normalisation their answers need.
//!
//! Nothing here talks to anybody. A request is described by [`Request`], whoever holds the
//! connection sends it and says how that went in a [`Reply`], and the functions below read the
//! reply.

use crate::config::{Config, ConfigView};
use crate::error::{Error, ErrorView};
use crate::text::{copy_opt, first_chars, first_of, join2, join3, join4, opt_view, result_view, same, same_opt};
use crate::time::Span;
use vstd::prelude::*;
use vstd::string::*;

verus! {

/// RFC 8628's fallback when the server sends no `interval`. Hugging Face sends none.
pub const DEFAULT_POLL_INTERVAL: u64 = 5;

/// RFC 8628 requires `expires_in`; defaulted defensively so a poll loop stays bounded.
pub const DEFAULT_EXPIRES_IN: u64 = 900;

/// Redirects are followed, but not indefinitely: a redirect loop is a misconfigured mirror, not
/// something to chase.
pub const MAX_REDIRECTS: usize = 5;

// ── requests ─────────────────────────────────────────────────────────────────

/// The two methods a login uses.
#[derive(Debug, Clone, Copy, PartialEq, Eq, Structural)]
pub enum Method {
    Get,
    Post,
}

/// One HTTP request, described.
#[derive(Debug, PartialEq, Eq)]
pub struct Request {
    /// How.
    pub method: Method,
    /// Where to.
    pub url: String,
    /// The fields of a URL-encoded form, in order. Empty for a request without a body.
    pub form: Vec<(String, String)>,
    /// The token to present, where one is.
    pub bearer: Option<String>,
    /// How long the round trip gets.
    pub timeout: Span,
}

/// A [`Request`], with its texts as sequences of characters.
pub struct RequestView {
    pub method: Method,
    pub url: Seq<char>,
    pub form: Seq<(Seq<char>, Seq<char>)>,
    pub bearer: Option<Seq<char>>,
    pub timeout: Span,
}

/// The fields of a form, as sequences of characters.
pub open spec fn form_view(form: Seq<(String, String)>) -> Seq<(Seq<char>, Seq<char>)> {
    form.map_values(|field: (String, String)| (field.0@, field.1@))
}

impl View for Request {
    type V = RequestView;

    open spec fn view(&self) -> RequestView {
        RequestView {
            method: self.method,
            url: self.url@,
            form: form_view(self.form@),
            bearer: opt_view(self.bearer),
            timeout: self.timeout,
        }
    }
}

impl RequestView {
    /// A form posted to a path below the endpoint.
    pub open spec fn post(
        config: ConfigView,
        path: Seq<char>,
        form: Seq<(Seq<char>, Seq<char>)>,
    ) -> RequestView {
        RequestView {
            method: Method::Post,
            url: config.endpoint + path,
            form,
            bearer: None,
            timeout: config.http_timeout,
        }
    }

    /// What starts a device authorization.
    pub open spec fn device_code(config: ConfigView) -> RequestView {
        RequestView::post(config, "/oauth/device"@, seq![("client_id"@, config.client_id)])
    }

    /// One poll of the token endpoint.
    pub open spec fn poll(config: ConfigView, device_code: Seq<char>) -> RequestView {
        RequestView::post(
            config,
            "/oauth/token"@,
            seq![
                ("grant_type"@, "urn:ietf:params:oauth:grant-type:device_code"@),
                ("client_id"@, config.client_id),
                ("device_code"@, device_code),
            ],
        )
    }

    /// A refresh token offered for a new pair.
    pub open spec fn refresh(config: ConfigView, refresh_token: Seq<char>) -> RequestView {
        RequestView::post(
            config,
            "/oauth/token"@,
            seq![
                ("grant_type"@, "refresh_token"@),
                ("client_id"@, config.client_id),
                ("refresh_token"@, refresh_token),
            ],
        )
    }

    /// The question who a token belongs to.
    pub open spec fn userinfo(config: ConfigView, access_token: Seq<char>) -> RequestView {
        RequestView {
            method: Method::Get,
            url: config.endpoint + "/oauth/userinfo"@,
            form: seq![],
            bearer: Some(access_token),
            timeout: config.http_timeout,
        }
    }
}

fn field(name: &str, value: &str) -> (r: (String, String))
    ensures
        (r.0@, r.1@) == (name@, value@),
{
    (name.to_owned(), value.to_owned())
}

/// What starts a device authorization.
pub fn device_code_request(config: &Config) -> (r: Request)
    ensures
        r@ == RequestView::device_code(config@),
{
    let mut form: Vec<(String, String)> = Vec::new();
    form.push(field("client_id", config.client_id.as_str()));
    assert(form_view(form@) =~= seq![("client_id"@, config@.client_id)]);
    Request {
        method: Method::Post,
        url: join2(config.endpoint.as_str(), "/oauth/device"),
        form,
        bearer: None,
        timeout: config.http_timeout,
    }
}

/// One poll of the token endpoint for the login that `device_code` stands for.
pub fn poll_request(config: &Config, device_code: &str) -> (r: Request)
    ensures
        r@ == RequestView::poll(config@, device_code@),
{
    let mut form: Vec<(String, String)> = Vec::new();
    form.push(field("grant_type", "urn:ietf:params:oauth:grant-type:device_code"));
    form.push(field("client_id", config.client_id.as_str()));
    form.push(field("device_code", device_code));
    assert(form_view(form@) =~= RequestView::poll(config@, device_code@).form);
    Request {
        method: Method::Post,
        url: join2(config.endpoint.as_str(), "/oauth/token"),
        form,
        bearer: None,
        timeout: config.http_timeout,
    }
}

/// A refresh token offered for a new pair.
pub fn refresh_request(config: &Config, refresh_token: &str) -> (r: Request)
    ensures
        r@ == RequestView::refresh(config@, refresh_token@),
{
    let mut form: Vec<(String, String)> = Vec::new();
    form.push(field("grant_type", "refresh_token"));
    form.push(field("client_id", config.client_id.as_str()));
    form.push(field("refresh_token", refresh_token));
    assert(form_view(form@) =~= RequestView::refresh(config@, refresh_token@).form);
    Request {
        method: Method::Post,
        url: join2(config.endpoint.as_str(), "/oauth/token"),
        form,
        bearer: None,
        timeout: config.http_timeout,
    }
}

/// The question who a token belongs to.
pub fn userinfo_request(config: &Config, access_token: &str) -> (r: Request)
    ensures
        r@ == RequestView::userinfo(config@, access_token@),
{
    let form: Vec<(String, String)> = Vec::new();
    assert(form_view(form@) =~= seq![]);
    Request {
        method: Method::Get,
        url: join2(config.endpoint.as_str(), "/oauth/userinfo"),
        form,
        bearer: Some(access_token.to_owned()),
        timeout: config.http_timeout,
    }
}

// ── the client ───────────────────────────────────────────────────────────────

/// `reqwest::Client`, carried through and never looked into.
#[verifier::external_type_specification]
#[verifier::external_body]
pub struct ExClient(reqwest::Client);

/// Whether a text can be sent as a header: it holds no control character but the tab.
pub open spec fn header_text(text: Seq<char>) -> bool {
    forall|i: int|
        0 <= i < text.len() ==> {
            let c = #[trigger] text[i] as u32;
            c == 0x09 || c >= 0x20 && c != 0x7f
        }
}

/// What a client is built with.
#[derive(Debug, PartialEq, Eq)]
pub struct ClientSettings {
    /// What it sends as its name.
    pub user_agent: String,
    /// How many redirects it follows, one after the other.
    pub redirects: usize,
}

/// What the client that every request here expects is built with: the name the configuration
/// gives, and a limit on redirects.
pub fn client_settings(config: &Config) -> (r: ClientSettings)
    ensures
        r.user_agent@ == config@.user_agent,
        r.redirects == MAX_REDIRECTS,
{
    ClientSettings { user_agent: config.user_agent.clone(), redirects: MAX_REDIRECTS }
}

/// `reqwest::ClientBuilder::build`, on a builder with a user agent and a limit on redirects.
///
/// A user agent that no header can carry is refused, with an error that displays as
/// `builder error`, before anything else is looked at. Beyond that nothing is claimed: whether a
/// client comes of it depends on the machine, and what it does with the two settings shows only
/// on the network. The error is handed on as the text it displays as.
#[verifier::external_body]
fn build_client(settings: ClientSettings) -> (r: Result<reqwest::Client, String>)
    ensures
        !header_text(settings.user_agent@) ==> r is Err && r->Err_0@ == "builder error"@,
{
    reqwest::Client::builder()
        .user_agent(settings.user_agent)
        .redirect(reqwest::redirect::Policy::limited(settings.redirects))
        .build()
        .map_err(|fault| fault.to_string())
}

/// A client that was built, or the error to report of one that was not.
pub fn built_client<C>(built: Result<C, String>) -> (r: Result<C, Error>)
    ensures
        match built {
            Ok(client) => r == Ok::<C, Error>(client),
            Err(why) => r is Err && r->Err_0@ == ErrorView::Network(
                "could not build HTTP client: "@ + why@,
            ),
        },
{
    match built {
        Ok(client) => Ok(client),
        Err(why) => Err(Error::Network(join2("could not build HTTP client: ", why.as_str()))),
    }
}

/// An HTTP client configured the way every request here expects: built with [`client_settings`],
/// and reported on by [`built_client`].
///
/// Built per operation rather than held: `status` and `logout` need none at all, and the one
/// operation that polls in a loop wants a client that lives exactly as long as the loop.
pub fn http_client(config: &Config) -> (r: Result<reqwest::Client, Error>)
    ensures
        !header_text(config@.user_agent) ==> r is Err && r->Err_0@ == ErrorView::Network(
            "could not build HTTP client: "@ + "builder error"@,
        ),
        r matches Err(e) ==> exists|why: Seq<char>|
            e@ == ErrorView::Network("could not build HTTP client: "@ + why),
{
    built_client(build_client(client_settings(config)))
}

// ── what comes back ──────────────────────────────────────────────────────────

/// A started device authorization, with the fields Hugging Face omits filled in.
#[derive(Debug, PartialEq, Eq)]
pub struct DeviceCode {
    /// The robot's half of the pair. Never shown to anybody; this is what is polled with.
    pub device_code: String,
    /// The person's half. Eight characters, typed into a browser somewhere else.
    pub user_code: String,
    /// Where to type it.
    pub verification_uri: String,
    /// See [`crate::LoginCode::verification_uri_complete`].
    pub verification_uri_complete: String,
    /// Seconds the code is good for.
    pub expires_in: u64,
    /// Seconds between polls.
    pub interval: u64,
}

/// A [`DeviceCode`], with its texts as sequences of characters.
pub struct DeviceCodeView {
    pub device_code: Seq<char>,
    pub user_code: Seq<char>,
    pub verification_uri: Seq<char>,
    pub verification_uri_complete: Seq<char>,
    pub expires_in: u64,
    pub interval: u64,
}

impl View for DeviceCode {
    type V = DeviceCodeView;

    open spec fn view(&self) -> DeviceCodeView {
        DeviceCodeView {
            device_code: self.device_code@,
            user_code: self.user_code@,
            verification_uri: self.verification_uri@,
            verification_uri_complete: self.verification_uri_complete@,
            expires_in: self.expires_in,
            interval: self.interval,
        }
    }
}

impl Clone for DeviceCode {
    fn clone(&self) -> (r: DeviceCode)
        ensures
            r == *self,
    {
        DeviceCode {
            device_code: self.device_code.clone(),
            user_code: self.user_code.clone(),
            verification_uri: self.verification_uri.clone(),
            verification_uri_complete: self.verification_uri_complete.clone(),
            expires_in: self.expires_in,
            interval: self.interval,
        }
    }
}

/// What `POST /oauth/device` answers, before normalisation.
#[derive(Debug, PartialEq, Eq)]
pub struct DeviceCodeResponse {
    pub device_code: String,
    pub user_code: String,
    pub verification_uri: String,
    pub verification_uri_complete: Option<String>,
    pub expires_in: Option<u64>,
    pub interval: Option<u64>,
}

/// A [`DeviceCodeResponse`], with its texts as sequences of characters.
pub struct DeviceCodeResponseView {
    pub device_code: Seq<char>,
    pub user_code: Seq<char>,
    pub verification_uri: Seq<char>,
    pub verification_uri_complete: Option<Seq<char>>,
    pub expires_in: Option<u64>,
    pub interval: Option<u64>,
}

impl View for DeviceCodeResponse {
    type V = DeviceCodeResponseView;

    open spec fn view(&self) -> DeviceCodeResponseView {
        DeviceCodeResponseView {
            device_code: self.device_code@,
            user_code: self.user_code@,
            verification_uri: self.verification_uri@,
            verification_uri_complete: opt_view(self.verification_uri_complete),
            expires_in: self.expires_in,
            interval: self.interval,
        }
    }
}

impl DeviceCodeResponseView {
    /// The answer with what the server left out filled in: the plain URI where it sent none that
    /// carries the code, and the protocol's fallbacks for the two numbers.
    pub open spec fn normalised(self) -> DeviceCodeView {
        DeviceCodeView {
            device_code: self.device_code,
            user_code: self.user_code,
            verification_uri: self.verification_uri,
            verification_uri_complete: match self.verification_uri_complete {
                Some(uri) => uri,
                None => self.verification_uri,
            },
            expires_in: match self.expires_in {
                Some(secs) => secs,
                None => DEFAULT_EXPIRES_IN,
            },
            interval: match self.interval {
                Some(secs) => secs,
                None => DEFAULT_POLL_INTERVAL,
            },
        }
    }
}

/// What `POST /oauth/token` answers on success.
#[derive(Debug)]
pub struct TokenResponse {
    /// The bearer token.
    pub access_token: String,
    /// Absent when Hugging Face issues none, which makes the token unrenewable rather than broken.
    pub refresh_token: Option<String>,
    /// Seconds from now. Absent means the server did not say.
    pub expires_in: Option<u64>,
}

/// A [`TokenResponse`], with its texts as sequences of characters.
pub struct TokenView {
    pub access_token: Seq<char>,
    pub refresh_token: Option<Seq<char>>,
    pub expires_in: Option<u64>,
}

impl View for TokenResponse {
    type V = TokenView;

    open spec fn view(&self) -> TokenView {
        TokenView {
            access_token: self.access_token@,
            refresh_token: opt_view(self.refresh_token),
            expires_in: self.expires_in,
        }
    }
}

impl Clone for TokenResponse {
    fn clone(&self) -> (r: TokenResponse)
        ensures
            r == *self,
    {
        TokenResponse {
            access_token: self.access_token.clone(),
            refresh_token: copy_opt(&self.refresh_token),
            expires_in: self.expires_in,
        }
    }
}

fn same_number(a: Option<u64>, b: Option<u64>) -> (r: bool)
    ensures
        r == (a == b),
{
    match (a, b) {
        (Some(x), Some(y)) => x == y,
        (None, None) => true,
        _ => false,
    }
}

impl PartialEq for TokenResponse {
    fn eq(&self, other: &TokenResponse) -> (r: bool) {
        self.access_token == other.access_token && same_opt(
            &self.refresh_token,
            &other.refresh_token,
        ) && same_number(self.expires_in, other.expires_in)
    }
}

impl vstd::std_specs::cmp::PartialEqSpecImpl for TokenResponse {
    open spec fn obeys_eq_spec() -> bool {
        true
    }

    open spec fn eq_spec(&self, other: &TokenResponse) -> bool {
        self@ == other@
    }
}

impl Eq for TokenResponse {

}

/// What `POST /oauth/token` answers while nobody has approved yet.
#[derive(Debug, PartialEq, Eq)]
pub struct OAuthError {
    pub error: String,
    pub error_description: Option<String>,
}

/// An [`OAuthError`], with its texts as sequences of characters.
pub struct OAuthErrorView {
    pub error: Seq<char>,
    pub error_description: Option<Seq<char>>,
}

impl View for OAuthError {
    type V = OAuthErrorView;

    open spec fn view(&self) -> OAuthErrorView {
        OAuthErrorView {
            error: self.error@,
            error_description: opt_view(self.error_description),
        }
    }
}

/// One poll of the token endpoint.
#[derive(Debug, PartialEq, Eq)]
pub enum Poll {
    /// Nobody has approved it yet.
    Pending,
    /// The server wants a longer interval. RFC 8628 §3.5: add five seconds.
    SlowDown,
    /// Approved.
    Token(Box<TokenResponse>),
    /// The user said no, or the code ran out. Either way, start again.
    Refused(String),
    /// Anything inconclusive — a 5xx, a proxy's error page, a network blip. **Not** a failure:
    /// RFC 8628 §3.5 says keep polling until the code expires, and the deadline bounds the wait.
    Inconclusive(String),
}

/// A [`Poll`], with its texts as sequences of characters.
pub enum PollView {
    Pending,
    SlowDown,
    Token(TokenView),
    Refused(Seq<char>),
    Inconclusive(Seq<char>),
}

impl View for Poll {
    type V = PollView;

    open spec fn view(&self) -> PollView {
        match self {
            Poll::Pending => PollView::Pending,
            Poll::SlowDown => PollView::SlowDown,
            Poll::Token(token) => PollView::Token((**token)@),
            Poll::Refused(why) => PollView::Refused(why@),
            Poll::Inconclusive(why) => PollView::Inconclusive(why@),
        }
    }
}

impl Clone for Poll {
    fn clone(&self) -> (r: Poll)
        ensures
            r == *self,
    {
        match self {
            Poll::Pending => Poll::Pending,
            Poll::SlowDown => Poll::SlowDown,
            Poll::Token(token) => Poll::Token(Box::new((**token).clone())),
            Poll::Refused(why) => Poll::Refused(why.clone()),
            Poll::Inconclusive(why) => Poll::Inconclusive(why.clone()),
        }
    }
}

// ── reading an answer ────────────────────────────────────────────────────────

/// How sending a [`Request`] went. `T` is what the body says, where there is one.
#[derive(Debug, PartialEq, Eq)]
pub enum Reply<T> {
    /// It could not be sent, or nothing came back.
    Unsent(String),
    /// An answer came, and its body could not be read.
    Unread {
        /// The HTTP status it came with.
        status: u16,
        /// What went wrong.
        why: String,
    },
    /// An answer came, whole.
    Read {
        /// The HTTP status it came with.
        status: u16,
        /// The body, as text.
        body: String,
        /// What the body says.
        parsed: T,
    },
}

impl<T> Reply<T> {
    /// Whether the status is one that HTTP has: three digits, the first of them not a zero.
    pub open spec fn valid(self) -> bool {
        match self {
            Reply::Unsent(_) => true,
            Reply::Unread { status, .. } => 100 <= status <= 999,
            Reply::Read { status, .. } => 100 <= status <= 999,
        }
    }
}

/// What the token endpoint's body says: a token where it parses as one, an OAuth error where it
/// parses as one.
#[derive(Debug, PartialEq, Eq)]
pub struct TokenAnswer {
    pub token: Option<TokenResponse>,
    pub error: Option<OAuthError>,
}

/// What `/oauth/userinfo` answers, as far as it is read.
#[derive(Debug, PartialEq, Eq)]
pub struct UserInfo {
    /// The handle.
    pub preferred_username: Option<String>,
    /// A display name, which can be anything.
    pub name: Option<String>,
}

/// A status from 200 to 299.
pub open spec fn is_success(status: u16) -> bool {
    200 <= status < 300
}

/// A status from 500 to 599.
pub open spec fn is_server_error(status: u16) -> bool {
    500 <= status < 600
}

/// A status as it is shown: the number, and the reason that goes with it. What
/// `reqwest::StatusCode` displays as.
pub uninterp spec fn status_text(status: u16) -> Seq<char>;

/// `reqwest::StatusCode::from_u16`, displayed: [`status_text`] names the text, which depends on
/// the number alone. The number has three digits, as any status that arrived has; `from_u16`
/// refuses others.
#[verifier::external_body]
fn status_line(status: u16) -> (r: String)
    requires
        100 <= status <= 999,
    ensures
        r@ == status_text(status),
{
    reqwest::StatusCode::from_u16(status).unwrap().to_string()
}

/// What [`request_device_code`] makes of an answer.
pub open spec fn device_code_of(
    config: ConfigView,
    reply: Reply<Result<DeviceCodeResponse, String>>,
) -> Result<DeviceCodeView, ErrorView> {
    let url = config.endpoint + "/oauth/device"@;
    match reply {
        Reply::Unsent(why) => Err(ErrorView::Network("POST "@ + url + ": "@ + why@)),
        Reply::Unread { why, .. } => Err(ErrorView::Network("reading "@ + url + ": "@ + why@)),
        Reply::Read { status, body, parsed } => if !is_success(status) {
            Err(
                ErrorView::Network(
                    "POST "@ + url + ": HTTP "@ + status_text(status) + ": "@ + first_of(body@, 300),
                ),
            )
        } else {
            match parsed {
                Ok(raw) => Ok(raw@.normalised()),
                Err(why) => Err(
                    ErrorView::Network(
                        "POST "@ + url + ": could not parse the device code response: "@ + why@,
                    ),
                ),
            }
        },
    }
}

/// Read the answer to [`device_code_request`].
///
/// Hugging Face sends neither `interval` nor `verification_uri_complete`, so both are defaulted
/// here, and nothing downstream has to know which fields a server bothered with. **The fallback
/// is the plain URI, and the code still has to be typed**: Hugging Face's device page ignores a
/// `?user_code=` query, and a URL carrying one reads like a promise the page then breaks.
pub fn request_device_code(
    config: &Config,
    reply: Reply<Result<DeviceCodeResponse, String>>,
) -> (r: Result<DeviceCode, Error>)
    requires
        reply.valid(),
    ensures
        result_view(r) == device_code_of(config@, reply),
{
    let url = join2(config.endpoint.as_str(), "/oauth/device");
    match reply {
        Reply::Unsent(why) => Err(Error::Network(join4("POST ", url.as_str(), ": ", why.as_str()))),
        Reply::Unread { status: _, why } => Err(
            Error::Network(join4("reading ", url.as_str(), ": ", why.as_str())),
        ),
        Reply::Read { status, body, parsed } => {
            if !(200 <= status && status < 300) {
                let quoted = first_chars(body.as_str(), 300);
                let mut text = join4("POST ", url.as_str(), ": HTTP ", status_line(status).as_str());
                text.append(": ");
                text.append(quoted.as_str());
                return Err(Error::Network(text));
            }
            match parsed {
                Ok(raw) => Ok(normalise(raw)),
                Err(why) => Err(
                    Error::Network(
                        join4(
                            "POST ",
                            url.as_str(),
                            ": could not parse the device code response: ",
                            why.as_str(),
                        ),
                    ),
                ),
            }
        },
    }
}

fn normalise(raw: DeviceCodeResponse) -> (r: DeviceCode)
    ensures
        r@ == raw@.normalised(),
{
    let verification_uri_complete = match raw.verification_uri_complete {
        Some(uri) => uri,
        None => raw.verification_uri.clone(),
    };
    DeviceCode {
        device_code: raw.device_code,
        user_code: raw.user_code,
        verification_uri: raw.verification_uri,
        verification_uri_complete,
        expires_in: match raw.expires_in {
            Some(secs) => secs,
            None => DEFAULT_EXPIRES_IN,
        },
        interval: match raw.interval {
            Some(secs) => secs,
            None => DEFAULT_POLL_INTERVAL,
        },
    }
}

/// What [`classify`] makes of an OAuth error.
pub open spec fn classified(err: OAuthErrorView) -> PollView {
    if err.error == "authorization_pending"@ {
        PollView::Pending
    } else if err.error == "slow_down"@ {
        PollView::SlowDown
    } else if err.error == "expired_token"@ {
        PollView::Refused("the code expired before it was approved — start the login again"@)
    } else if err.error == "access_denied"@ {
        PollView::Refused("the login was refused on Hugging Face"@)
    } else {
        PollView::Refused(
            "Hugging Face said "@ + err.error + ": "@ + (match err.error_description {
                Some(detail) => detail,
                None => err.error,
            }),
        )
    }
}

/// Which OAuth errors end a login and which are the login working normally.
///
/// An OAuth error nobody has heard of is still an answer about this login rather than a blip:
/// `invalid_client` and `invalid_grant` will not fix themselves by being asked again.
pub fn classify(err: &OAuthError) -> (r: Poll)
    ensures
        r@ == classified(err@),
{
    if same(&err.error, "authorization_pending") {
        Poll::Pending
    } else if same(&err.error, "slow_down") {
        Poll::SlowDown
    } else if same(&err.error, "expired_token") {
        Poll::Refused(
            "the code expired before it was approved — start the login again".to_owned(),
        )
    } else if same(&err.error, "access_denied") {
        Poll::Refused("the login was refused on Hugging Face".to_owned())
    } else {
        let detail = match &err.error_description {
            Some(detail) => detail.as_str(),
            None => err.error.as_str(),
        };
        Poll::Refused(join4("Hugging Face said ", err.error.as_str(), ": ", detail))
    }
}

/// What a poll that met a server error says.
pub open spec fn server_trouble(config: ConfigView, status: u16) -> PollView {
    PollView::Inconclusive(
        "POST "@ + config.endpoint + "/oauth/token"@ + ": HTTP "@ + status_text(status),
    )
}

/// What [`poll_token`] makes of an answer.
pub open spec fn poll_of(config: ConfigView, reply: Reply<TokenAnswer>) -> PollView {
    let url = config.endpoint + "/oauth/token"@;
    match reply {
        Reply::Unsent(why) => PollView::Inconclusive("POST "@ + url + ": "@ + why@),
        Reply::Unread { status, why } => if is_server_error(status) {
            server_trouble(config, status)
        } else {
            PollView::Inconclusive("reading "@ + url + ": "@ + why@)
        },
        Reply::Read { status, body, parsed } => if is_server_error(status) {
            server_trouble(config, status)
        } else {
            match parsed.token {
                Some(token) => PollView::Token(token@),
                None => match parsed.error {
                    Some(err) => classified(err@),
                    None => PollView::Inconclusive(
                        "POST "@ + url + ": unexpected answer: "@ + first_of(body@, 200),
                    ),
                },
            }
        },
    }
}

/// Whether a poll is decided by its status alone, before the body is read: a 5xx is a Hugging
/// Face problem, not an answer about this login.
pub fn poll_status(config: &Config, status: u16) -> (r: Option<Poll>)
    requires
        100 <= status <= 999,
    ensures
        opt_view(r) == (if is_server_error(status) {
            Some(server_trouble(config@, status))
        } else {
            None
        }),
{
    if 500 <= status && status < 600 {
        let url = join2(config.endpoint.as_str(), "/oauth/token");
        let text = join4("POST ", url.as_str(), ": HTTP ", status_line(status).as_str());
        assert("POST "@ + (config@.endpoint + "/oauth/token"@) =~= "POST "@ + config@.endpoint
            + "/oauth/token"@);
        Some(Poll::Inconclusive(text))
    } else {
        None
    }
}

/// Read the answer to [`poll_request`].
///
/// Infallible by design: every way this can go wrong is one of the [`Poll`] variants, because a
/// caller polling in a loop has to decide "keep going" or "stop" and a `Result` does not carry
/// that distinction. A 5xx is not an answer about this login; `access_denied` is.
pub fn poll_token(config: &Config, reply: Reply<TokenAnswer>) -> (r: Poll)
    requires
        reply.valid(),
    ensures
        r@ == poll_of(config@, reply),
{
    let url = join2(config.endpoint.as_str(), "/oauth/token");
    match reply {
        Reply::Unsent(why) => Poll::Inconclusive(join4("POST ", url.as_str(), ": ", why.as_str())),
        Reply::Unread { status, why } => match poll_status(config, status) {
            Some(poll) => poll,
            None => Poll::Inconclusive(join4("reading ", url.as_str(), ": ", why.as_str())),
        },
        Reply::Read { status, body, parsed } => match poll_status(config, status) {
            Some(poll) => poll,
            None => match parsed.token {
                Some(token) => Poll::Token(Box::new(token)),
                None => match parsed.error {
                    Some(err) => classify(&err),
                    None => {
                        let quoted = first_chars(body.as_str(), 200);
                        Poll::Inconclusive(
                            join4(
                                "POST ",
                                url.as_str(),
                                ": unexpected answer: ",
                                quoted.as_str(),
                            ),
                        )
                    },
                },
            },
        },
    }
}

/// What [`refresh`] makes of an answer.
pub open spec fn refresh_of(config: ConfigView, reply: Reply<TokenAnswer>) -> Result<
    TokenView,
    ErrorView,
> {
    let url = config.endpoint + "/oauth/token"@;
    match reply {
        Reply::Unsent(why) => Err(ErrorView::Network("POST "@ + url + ": "@ + why@)),
        Reply::Unread { why, .. } => Err(ErrorView::Network("reading "@ + url + ": "@ + why@)),
        Reply::Read { body, parsed, .. } => match parsed.token {
            Some(token) => Ok(token@),
            None => Err(
                ErrorView::Network(
                    "could not refresh the account token: "@ + (match parsed.error {
                        Some(err) => err@.error + ": "@ + (match err@.error_description {
                            Some(detail) => detail,
                            None => seq![],
                        }),
                        None => first_of(body@, 200),
                    }),
                ),
            ),
        },
    }
}

/// Read the answer to [`refresh_request`].
///
/// **Hugging Face rotates the refresh token**, so the answer's is the one to keep.
pub fn refresh(config: &Config, reply: Reply<TokenAnswer>) -> (r: Result<TokenResponse, Error>)
    requires
        reply.valid(),
    ensures
        result_view(r) == refresh_of(config@, reply),
{
    let url = join2(config.endpoint.as_str(), "/oauth/token");
    match reply {
        Reply::Unsent(why) => Err(Error::Network(join4("POST ", url.as_str(), ": ", why.as_str()))),
        Reply::Unread { status: _, why } => Err(
            Error::Network(join4("reading ", url.as_str(), ": ", why.as_str())),
        ),
        Reply::Read { status: _, body, parsed } => match parsed.token {
            Some(token) => Ok(token),
            None => {
                let detail = match parsed.error {
                    Some(err) => match err.error_description {
                        Some(detail) => join3(err.error.as_str(), ": ", detail.as_str()),
                        None => {
                            let text = join2(err.error.as_str(), ": ");
                            assert(text@ =~= text@ + Seq::<char>::empty());
                            text
                        },
                    },
                    None => first_chars(body.as_str(), 200),
                };
                Err(Error::Network(join2("could not refresh the account token: ", detail.as_str())))
            },
        },
    }
}

/// What [`userinfo`] makes of an answer.
pub open spec fn username_of(
    config: ConfigView,
    reply: Reply<Result<UserInfo, String>>,
) -> Result<Seq<char>, ErrorView> {
    let url = config.endpoint + "/oauth/userinfo"@;
    match reply {
        Reply::Unsent(why) => Err(ErrorView::Network("GET "@ + url + ": "@ + why@)),
        Reply::Unread { why, .. } => Err(ErrorView::Network("reading "@ + url + ": "@ + why@)),
        Reply::Read { status, parsed, .. } => if !is_success(status) {
            Err(ErrorView::Network("GET "@ + url + ": HTTP "@ + status_text(status)))
        } else {
            match parsed {
                Err(why) => Err(
                    ErrorView::Network("GET "@ + url + ": could not parse the answer: "@ + why@),
                ),
                Ok(info) => match (info.preferred_username, info.name) {
                    (Some(handle), _) => Ok(handle@),
                    (None, Some(name)) => Ok(name@),
                    (None, None) => Err(
                        ErrorView::Network("GET "@ + url + ": no username in the answer"@),
                    ),
                },
            }
        },
    }
}

/// Read the answer to [`userinfo_request`].
///
/// `preferred_username` is the handle, and `name` is a display name that can be anything, so the
/// handle is preferred and `name` is the fallback.
pub fn userinfo(config: &Config, reply: Reply<Result<UserInfo, String>>) -> (r: Result<
    String,
    Error,
>)
    requires
        reply.valid(),
    ensures
        result_view(r) == username_of(config@, reply),
{
    let url = join2(config.endpoint.as_str(), "/oauth/userinfo");
    match reply {
        Reply::Unsent(why) => Err(Error::Network(join4("GET ", url.as_str(), ": ", why.as_str()))),
        Reply::Unread { status: _, why } => Err(
            Error::Network(join4("reading ", url.as_str(), ": ", why.as_str())),
        ),
        Reply::Read { status, body: _, parsed } => {
            if !(200 <= status && status < 300) {
                return Err(
                    Error::Network(
                        join4("GET ", url.as_str(), ": HTTP ", status_line(status).as_str()),
                    ),
                );
            }
            match parsed {
                Err(why) => Err(
                    Error::Network(
                        join4(
                            "GET ",
                            url.as_str(),
                            ": could not parse the answer: ",
                            why.as_str(),
                        ),
                    ),
                ),
                Ok(info) => match info.preferred_username {
                    Some(handle) => Ok(handle),
                    None => match info.name {
                        Some(name) => Ok(name),
                        None => Err(
                            Error::Network(
                                join3("GET ", url.as_str(), ": no username in the answer"),
                            ),
                        ),
                    },
                },
            }
        },
    }
}

} // verus!
