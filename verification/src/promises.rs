//! What each operation does, said of what goes in and what comes out.
//!
//! [`laws`](crate::laws) and [`disk`](crate::disk) speak of whole conversations. Here stands what
//! a single question is answered with: which fields a request carries, which answers mean what,
//! what a record says of a token, what `status` shows.

use crate::account::{answerable, login_of, AccountView, FlowAction, FlowActionView, FlowEvent, FlowEventView, FlowView, MaintainAction, MaintainEvent, MaintainEventView, NamingEvent, NamingEventView, NamingView, PhaseView, RenewalEvent, RenewalEventView, RenewalView, UpkeepAction, UpkeepActionView, UpkeepPhase};
use crate::config::{Config, ConfigView};
use crate::error::{Error, ErrorView};
use crate::oauth::{classified, device_code_of, header_text, poll_of, refresh_of, status_text, username_of, DeviceCode, DeviceCodeResponse, DeviceCodeView, Method, OAuthError, OAuthErrorView, Poll, PollView, Reply, Request, RequestView, TokenAnswer, TokenResponse, TokenView, UserInfo, MAX_REDIRECTS};
use crate::status::{Identity, LoginCode, Status};
use crate::store::{expiry, path_parent, path_with_extension, usable, Contents, Credential, Directory, FileStoreView, SaveAction, SaveActionView, SaveEvent, SaveEventView, SavePhase, SavingView, Stored, StoredView, Temp};
use crate::text::{blank, first_of, is_white_space};
use crate::time::{clock_at, reaches, secs_at, secs_left, Span, EARLIEST, LATEST};
use vstd::prelude::*;
use vstd::std_specs::cmp::PartialEqSpec;
use vstd::string::*;

verus! {

// ── the configuration ────────────────────────────────────────────────────────

/// **An endpoint is taken as it is, and changes nothing else.** The rest are the defaults: twenty
/// seconds for a round trip, renewal in a token's last week, a look at it every six hours, as
/// Hugging Face's own client.
pub proof fn an_endpoint_changes_nothing_else(a: Seq<char>, b: Seq<char>)
    ensures
        ConfigView::at(a).endpoint == a,
        ConfigView::at(b) == (ConfigView { endpoint: b, ..ConfigView::at(a) }),
        ConfigView::at(a).client_id == "26be6b09-91c5-47da-9861-d2d2bb7a7e36"@,
        ConfigView::at(a).user_agent == "hf-robot-account/0.1.0"@,
        ConfigView::at(a).http_timeout.in_nanos() == 20 * 1_000_000_000,
        ConfigView::at(a).refresh_when_under.in_nanos() == 7 * 24 * 60 * 60 * 1_000_000_000,
        ConfigView::at(a).maintain_interval.in_nanos() == 6 * 60 * 60 * 1_000_000_000,
        ConfigView::standard() == ConfigView::at("https://huggingface.co"@),
{
}

/// **The environment's endpoint is honoured if anything is in it but white space.** Otherwise, and
/// where there is none, it is Hugging Face.
pub proof fn the_environment_is_honoured_unless_blank(endpoint: Seq<char>, i: int)
    ensures
        ConfigView::from_env(None) == ConfigView::at("https://huggingface.co"@),
        0 <= i < endpoint.len() && !is_white_space(endpoint[i]) ==> ConfigView::from_env(
            Some(endpoint),
        ) == ConfigView::at(endpoint),
        (forall|k: int| 0 <= k < endpoint.len() ==> is_white_space(#[trigger] endpoint[k]))
            ==> ConfigView::from_env(Some(endpoint)) == ConfigView::at("https://huggingface.co"@),
        blank(endpoint) <==> (forall|k: int|
            0 <= k < endpoint.len() ==> is_white_space(#[trigger] endpoint[k])),
{
}

/// **White space is what a keyboard makes of it,** among the characters it has.
pub proof fn white_space_as_typed(c: char)
    requires
        c as u32 <= 0x7e,
    ensures
        is_white_space(c) <==> c == ' ' || c == '\t' || c == '\n' || c == '\r' || c as u32 == 0x0b
            || c as u32 == 0x0c,
{
}

// ── what is said ─────────────────────────────────────────────────────────────

/// **What a person is told is what went wrong, whole.** A network failure is its own text, a file
/// that failed is named before what the filesystem said, and an account is named between the two
/// halves of its refusal.
pub proof fn a_message_says_what_went_wrong(a: Seq<char>, b: Seq<char>)
    ensures
        ErrorView::Network(a).message() == a,
        (ErrorView::Io { path: a, source: b }).message() == a + seq![':', ' '] + b,
        ErrorView::AlreadySignedIn(a).message() == "this robot already belongs to "@ + a
            + ". Sign that account out first, or force to replace it"@,
        ErrorView::LoginInFlight.message()
            == "a login is already waiting for approval — `account status` has the code, or force to start a new one"@,
{
    reveal_strlit(": ");
    assert(": "@ =~= seq![':', ' ']);
}

/// **A text is quoted from its beginning,** as much of it as there is, and no more than was asked
/// for.
pub proof fn a_quote_is_a_beginning(text: Seq<char>, n: nat)
    ensures
        first_of(text, n).len() == (if text.len() < n {
            text.len()
        } else {
            n
        }),
        forall|i: int| 0 <= i < first_of(text, n).len() ==> first_of(text, n)[i] == text[i],
{
}

// ── what is asked of Hugging Face ────────────────────────────────────────────

/// **A login is started as the client that was configured.** The request is a form posted to the
/// endpoint's `/oauth/device`, and the client is the one thing in it: two configurations with
/// different clients ask for different things.
pub proof fn a_login_is_started_as_the_configured_client(config: ConfigView, other: ConfigView)
    ensures
        ({
            let request = RequestView::device_code(config);
            &&& request.method == Method::Post
            &&& request.url == config.endpoint + "/oauth/device"@
            &&& request.form.len() == 1
            &&& request.form[0].0 == "client_id"@
            &&& request.form[0].1 == config.client_id
            &&& request.bearer is None
            &&& request.timeout == config.http_timeout
        }),
        config.client_id != other.client_id ==> RequestView::device_code(config).form
            != RequestView::device_code(other).form,
{
    if config.client_id != other.client_id {
        assert(RequestView::device_code(config).form[0] != RequestView::device_code(other).form[0]);
    }
}

/// **A poll names the code it waits for, and the client that asked for it.** The same one that
/// started the login, by the same endpoint.
pub proof fn a_poll_names_its_code_and_its_client(
    config: ConfigView,
    device_code: Seq<char>,
    other: Seq<char>,
)
    ensures
        ({
            let request = RequestView::poll(config, device_code);
            &&& request.method == Method::Post
            &&& request.url == config.endpoint + "/oauth/token"@
            &&& request.form.len() == 3
            &&& request.form[0] == ("grant_type"@, "urn:ietf:params:oauth:grant-type:device_code"@)
            &&& request.form[1].0 == "client_id"@
            &&& request.form[1].1 == config.client_id
            &&& request.form[1] == RequestView::device_code(config).form[0]
            &&& request.form[2].0 == "device_code"@
            &&& request.form[2].1 == device_code
            &&& request.bearer is None
            &&& request.timeout == config.http_timeout
        }),
        device_code != other ==> RequestView::poll(config, device_code).form != RequestView::poll(
            config,
            other,
        ).form,
{
    if device_code != other {
        assert(RequestView::poll(config, device_code).form[2] != RequestView::poll(
            config,
            other,
        ).form[2]);
    }
}

/// **A refresh offers the refresh token, as a refresh,** by the client that the token was issued
/// to, and never as a poll.
pub proof fn a_refresh_offers_the_refresh_token(
    config: ConfigView,
    refresh_token: Seq<char>,
    device_code: Seq<char>,
)
    ensures
        ({
            let request = RequestView::refresh(config, refresh_token);
            &&& request.method == Method::Post
            &&& request.url == config.endpoint + "/oauth/token"@
            &&& request.form.len() == 3
            &&& request.form[0] == ("grant_type"@, "refresh_token"@)
            &&& request.form[0] != RequestView::poll(config, device_code).form[0]
            &&& request.form[1] == ("client_id"@, config.client_id)
            &&& request.form[2].0 == "refresh_token"@
            &&& request.form[2].1 == refresh_token
            &&& request.bearer is None
            &&& request.timeout == config.http_timeout
        }),
{
    reveal_strlit("refresh_token");
    reveal_strlit("urn:ietf:params:oauth:grant-type:device_code");
    assert("refresh_token"@.len() != "urn:ietf:params:oauth:grant-type:device_code"@.len());
}

/// **The question for a name presents the token it is about,** and sends nothing else.
pub proof fn a_question_for_a_name_presents_its_token(
    config: ConfigView,
    access_token: Seq<char>,
)
    ensures
        ({
            let request = RequestView::userinfo(config, access_token);
            &&& request.method == Method::Get
            &&& request.url == config.endpoint + "/oauth/userinfo"@
            &&& request.form.len() == 0
            &&& request.bearer == Some(access_token)
            &&& request.timeout == config.http_timeout
        }),
{
}

// ── what the answers mean ────────────────────────────────────────────────────

/// **What a poll comes to.** Of an answer that was read and is no 5xx: a token where there is one,
/// whatever else is there; otherwise what its OAuth error says — `authorization_pending` to wait
/// on, `slow_down` to wait longer, any other that the login is refused. Everything else is
/// inconclusive.
pub proof fn what_a_poll_comes_to(config: ConfigView, reply: Reply<TokenAnswer>)
    ensures
        ({
            let poll = poll_of(config, reply);
            let answered = reply is Read && !(500 <= reply->Read_status <= 599);
            let token = reply->parsed.token;
            let error = reply->parsed.error;
            let code = error->0.error@;
            let waits = code == "authorization_pending"@;
            let slows = code == "slow_down"@;
            &&& poll is Token <==> answered && token is Some
            &&& poll is Token ==> {
                &&& poll->Token_0.access_token == token->0.access_token@
                &&& poll->Token_0.refresh_token is Some <==> token->0.refresh_token is Some
                &&& token->0.refresh_token is Some ==> poll->Token_0.refresh_token->0
                    == token->0.refresh_token->0@
                &&& poll->Token_0.expires_in == token->0.expires_in
            }
            &&& poll is Pending <==> answered && token is None && error is Some && waits
            &&& poll is SlowDown <==> answered && token is None && error is Some && slows
            &&& poll is Refused <==> answered && token is None && error is Some && !waits && !slows
            &&& poll is Inconclusive <==> !answered || token is None && error is None
        }),
{
    reveal_strlit("authorization_pending");
    reveal_strlit("slow_down");
    reveal_strlit("expired_token");
    reveal_strlit("access_denied");
    assert("slow_down"@.len() != "authorization_pending"@.len());
}

/// **What an OAuth error means does not depend on how it is described,** but for the words of a
/// refusal: those name the error, and say what the server said of it, or the error again.
pub proof fn what_an_oauth_error_means(err: OAuthErrorView, described: Option<Seq<char>>)
    ensures
        ({
            let poll = classified(err);
            let again = classified(OAuthErrorView { error_description: described, ..err });
            let code = err.error;
            &&& poll is Pending <==> code == "authorization_pending"@
            &&& poll is SlowDown <==> code == "slow_down"@
            &&& poll is Refused <==> !(poll is Pending) && !(poll is SlowDown)
            &&& poll is Pending <==> again is Pending
            &&& poll is SlowDown <==> again is SlowDown
            &&& code == "expired_token"@ ==> poll == PollView::Refused(
                "the code expired before it was approved — start the login again"@,
            )
            &&& code == "access_denied"@ ==> poll == PollView::Refused(
                "the login was refused on Hugging Face"@,
            )
            &&& (poll is Refused && code != "expired_token"@ && code != "access_denied"@)
                ==> poll->Refused_0 == "Hugging Face said "@ + code + ": "@ + (
            if err.error_description is Some {
                err.error_description->0
            } else {
                code
            })
        }),
{
    reveal_strlit("authorization_pending");
    reveal_strlit("slow_down");
    reveal_strlit("expired_token");
    reveal_strlit("access_denied");
    assert("slow_down"@.len() != "authorization_pending"@.len());
    assert("expired_token"@[0] != "access_denied"@[0]);
    assert("expired_token"@.len() != "slow_down"@.len());
    assert("expired_token"@.len() != "authorization_pending"@.len());
    assert("access_denied"@.len() != "slow_down"@.len());
    assert("access_denied"@.len() != "authorization_pending"@.len());
}

/// **An inconclusive poll says where and why,** for the log it goes to.
pub proof fn an_inconclusive_poll_says_why(config: ConfigView, reply: Reply<TokenAnswer>)
    ensures
        ({
            let url = config.endpoint + "/oauth/token"@;
            let poll = poll_of(config, reply);
            &&& reply matches Reply::Unsent(why) ==> poll == PollView::Inconclusive(
                "POST "@ + url + ": "@ + why@,
            )
            &&& reply matches Reply::Unread { status, why } ==> if 500 <= status <= 599 {
                poll->Inconclusive_0 =~= "POST "@ + url + ": HTTP "@ + status_text(status)
            } else {
                poll->Inconclusive_0 == "reading "@ + url + ": "@ + why@
            }
            &&& reply matches Reply::Read { status, body, parsed } ==> {
                &&& 500 <= status <= 599 ==> poll->Inconclusive_0 =~= "POST "@ + url + ": HTTP "@
                    + status_text(status)
                &&& poll is Inconclusive && !(500 <= status <= 599) ==> poll->Inconclusive_0
                    == "POST "@ + url + ": unexpected answer: "@ + (if body@.len() <= 200 {
                    body@
                } else {
                    body@.take(200)
                })
            }
        }),
{
}

/// **A device code comes of an answer that was read, is a success and parses,** and of no other;
/// each other says where and why it came to nothing. What the server left out is nine hundred
/// seconds, five seconds and the plain address.
pub proof fn what_a_code_request_comes_to(
    config: ConfigView,
    reply: Reply<Result<DeviceCodeResponse, String>>,
)
    ensures
        ({
            let url = config.endpoint + "/oauth/device"@;
            let result = device_code_of(config, reply);
            let success = reply is Read && 200 <= reply->Read_status <= 299;
            let raw = reply->parsed->Ok_0;
            &&& result is Ok <==> success && reply->parsed is Ok
            &&& result is Ok ==> {
                let code = result->Ok_0;
                &&& code.device_code == raw.device_code@
                &&& code.user_code == raw.user_code@
                &&& code.verification_uri == raw.verification_uri@
                &&& code.verification_uri_complete == (
                if raw.verification_uri_complete is Some {
                    raw.verification_uri_complete->0@
                } else {
                    raw.verification_uri@
                })
                &&& code.expires_in == (if raw.expires_in is Some {
                    raw.expires_in->0
                } else {
                    900
                })
                &&& code.interval == (if raw.interval is Some {
                    raw.interval->0
                } else {
                    5
                })
            }
            &&& reply matches Reply::Unsent(why) ==> result == Err::<DeviceCodeView, ErrorView>(
                ErrorView::Network("POST "@ + url + ": "@ + why@),
            )
            &&& reply matches Reply::Unread { status: _, why } ==> result == Err::<
                DeviceCodeView,
                ErrorView,
            >(ErrorView::Network("reading "@ + url + ": "@ + why@))
            &&& reply matches Reply::Read { status, body, parsed } ==> {
                &&& !(200 <= status <= 299) ==> result == Err::<DeviceCodeView, ErrorView>(
                    ErrorView::Network(
                        "POST "@ + url + ": HTTP "@ + status_text(status) + ": "@ + (
                        if body@.len() <= 300 {
                            body@
                        } else {
                            body@.take(300)
                        }),
                    ),
                )
                &&& 200 <= status <= 299 && parsed is Err ==> result == Err::<
                    DeviceCodeView,
                    ErrorView,
                >(
                    ErrorView::Network(
                        "POST "@ + url + ": could not parse the device code response: "@
                            + parsed->Err_0@,
                    ),
                )
            }
        }),
{
}

/// **A refresh brings the pair that was answered, whatever status it came with,** and otherwise
/// says why there is none.
pub proof fn what_a_refresh_comes_to(config: ConfigView, reply: Reply<TokenAnswer>)
    ensures
        ({
            let url = config.endpoint + "/oauth/token"@;
            let result = refresh_of(config, reply);
            let token = reply->parsed.token;
            let error = reply->parsed.error;
            &&& result is Ok <==> reply is Read && token is Some
            &&& result is Ok ==> {
                &&& result->Ok_0.access_token == token->0.access_token@
                &&& result->Ok_0.refresh_token is Some <==> token->0.refresh_token is Some
                &&& token->0.refresh_token is Some ==> result->Ok_0.refresh_token->0
                    == token->0.refresh_token->0@
                &&& result->Ok_0.expires_in == token->0.expires_in
            }
            &&& reply matches Reply::Unsent(why) ==> result->Err_0 == ErrorView::Network(
                "POST "@ + url + ": "@ + why@,
            )
            &&& reply matches Reply::Unread { status: _, why } ==> result->Err_0
                == ErrorView::Network("reading "@ + url + ": "@ + why@)
            &&& reply matches Reply::Read { status: _, body, parsed } ==> token is None
                ==> result->Err_0 == ErrorView::Network(
                "could not refresh the account token: "@ + (if error is Some {
                    error->0.error@ + ": "@ + (if error->0.error_description is Some {
                        error->0.error_description->0@
                    } else {
                        Seq::empty()
                    })
                } else if body@.len() <= 200 {
                    body@
                } else {
                    body@.take(200)
                }),
            )
        }),
{
}

/// **A name is the handle, or else the display name,** of an answer that was read, is a success
/// and parses; each other says where and why there is none.
pub proof fn what_a_question_for_a_name_comes_to(
    config: ConfigView,
    reply: Reply<Result<UserInfo, String>>,
)
    ensures
        ({
            let url = config.endpoint + "/oauth/userinfo"@;
            let result = username_of(config, reply);
            let success = reply is Read && 200 <= reply->Read_status <= 299 && reply->parsed is Ok;
            let info = reply->parsed->Ok_0;
            let handle = info.preferred_username;
            let name = info.name;
            &&& result is Ok <==> success && (handle is Some || name is Some)
            &&& result is Ok && handle is Some ==> result->Ok_0 == handle->0@
            &&& result is Ok && handle is None ==> result->Ok_0 == name->0@
            &&& success && result is Err ==> result->Err_0 == ErrorView::Network(
                "GET "@ + url + ": no username in the answer"@,
            )
            &&& reply matches Reply::Unsent(why) ==> result->Err_0 == ErrorView::Network(
                "GET "@ + url + ": "@ + why@,
            )
            &&& reply matches Reply::Unread { status: _, why } ==> result->Err_0
                == ErrorView::Network("reading "@ + url + ": "@ + why@)
            &&& reply matches Reply::Read { status, body: _, parsed } ==> {
                &&& !(200 <= status <= 299) ==> result->Err_0 == ErrorView::Network(
                    "GET "@ + url + ": HTTP "@ + status_text(status),
                )
                &&& 200 <= status <= 299 && parsed is Err ==> result->Err_0
                    == ErrorView::Network(
                    "GET "@ + url + ": could not parse the answer: "@ + parsed->Err_0@,
                )
            }
        }),
{
}

/// **What a client can be named, and what it is held to.** A name can be sent unless it has a
/// control character in it that is no tab; and five redirects are followed, not more.
pub proof fn what_a_client_can_be_named(text: Seq<char>, c: char, i: int)
    ensures
        0 <= i < text.len() && text[i] == c && (c as u32 <= 0x1f && c != '\t' || c as u32 == 0x7f)
            ==> !header_text(text),
        header_text(Seq::empty()),
        header_text(text) ==> (header_text(text.push(c)) <==> c == '\t' || c as u32 >= 0x20
            && c as u32 != 0x7f),
        MAX_REDIRECTS == 5,
{
    let longer = text.push(c);
    assert(longer[text.len() as int] == c);
    if header_text(text) && (c == '\t' || c as u32 >= 0x20 && c as u32 != 0x7f) {
        assert forall|k: int| 0 <= k < longer.len() implies {
            let u = #[trigger] longer[k] as u32;
            u == 0x09 || u >= 0x20 && u != 0x7f
        } by {
            if k < text.len() {
                assert(longer[k] == text[k]);
            }
        }
    }
}

/// **Two token answers are the same if all that they say is.**
pub proof fn token_answers_are_the_same_if_all_is(a: TokenResponse, b: TokenResponse)
    ensures
        a.eq_spec(&b) <==> {
            &&& a.access_token@ == b.access_token@
            &&& a.refresh_token is Some <==> b.refresh_token is Some
            &&& a.refresh_token is Some ==> a.refresh_token->0@ == b.refresh_token->0@
            &&& a.expires_in == b.expires_in
        },
{
}

// ── time ─────────────────────────────────────────────────────────────────────

/// **Whole seconds are counted down, never up.** Seconds since the epoch, and seconds until a
/// deadline, are as many as have been completed; a clock before the epoch shows none, and a
/// deadline that has passed has none.
pub proof fn whole_seconds_are_completed_ones(at: int, from: int, until: int)
    ensures
        at >= 0 ==> secs_at(at) * 1_000_000_000 <= at < (secs_at(at) + 1) * 1_000_000_000,
        at < 0 ==> secs_at(at) == 0,
        secs_left(from, until) is Some <==> from <= until,
        from <= until ==> secs_left(from, until)->0 * 1_000_000_000 <= until - from < (secs_left(
            from,
            until,
        )->0 + 1) * 1_000_000_000,
{
}

/// **A clock is where it stands,** as far as a clock can show it: the same distance before the
/// epoch as past it.
pub proof fn a_clock_is_where_it_stands(secs: u64, nanos: u32)
    requires
        secs < i64::MAX,
        nanos < 1_000_000_000,
    ensures
        clock_at(true, secs, nanos) == secs * 1_000_000_000 + nanos,
        clock_at(false, secs, nanos) == -(secs * 1_000_000_000 + nanos),
{
}

/// **A clock never shows more than it can.**
pub proof fn a_clock_shows_what_it_can(past: bool, secs: u64, nanos: u32, from: int, wait: u64)
    ensures
        EARLIEST <= clock_at(past, secs, nanos) <= LATEST,
        past ==> clock_at(past, secs, nanos) >= 0,
        !past ==> clock_at(past, secs, nanos) <= 0,
        reaches(from, wait) <==> from + wait * 1_000_000_000 <= LATEST,
        LATEST == i64::MAX * 1_000_000_000 + 999_999_999,
        EARLIEST == i64::MIN * 1_000_000_000,
{
}

/// **A length of time is its seconds and what is left of the last one.**
pub proof fn a_length_is_its_seconds_and_the_rest(span: Span)
    ensures
        span.in_nanos() == span.secs * 1_000_000_000 + span.nanos,
{
}

// ── the record ───────────────────────────────────────────────────────────────

/// The nearest of the numbers that sixty-four bits hold.
pub open spec fn held(n: int) -> int {
    if n > i64::MAX {
        i64::MAX as int
    } else if n < i64::MIN {
        i64::MIN as int
    } else {
        n
    }
}

/// **A record says of a token what was issued, to whom and until when.** The expiry is absolute:
/// when it was issued, and what it is good for, as late as a record can say. It is left out only
/// if the server did not say; whose the token is makes no difference to it.
pub proof fn a_record_says_what_was_issued(
    token: TokenView,
    now: i64,
    username: Option<Seq<char>>,
    other: Option<Seq<char>>,
)
    ensures
        ({
            let record = StoredView::of(token, now, username);
            &&& record.access_token == token.access_token
            &&& record.refresh_token == token.refresh_token
            &&& record.username == username
            &&& record.expires_at is Some <==> token.expires_in is Some
            &&& token.expires_in is Some ==> record.expires_at->0 == held(
                now + token.expires_in->0,
            )
            &&& record.expires_at == StoredView::of(token, now, other).expires_at
            &&& expiry(token.expires_in, now) == record.expires_at
        }),
{
}

/// **What is left of a token is its expiry less the time,** and so negative exactly if the expiry
/// lies in the past; nothing is known of one without an expiry, and everything has expired on a
/// clock that has not been set.
pub proof fn what_is_left_of_a_token(record: StoredView, now: i64, later: i64)
    ensures
        record.expires_at is None ==> record.expires_in(now) == i64::MAX,
        record.expires_at is Some && now > 0 ==> {
            &&& record.expires_in(now) == held(record.expires_at->0 - now)
            &&& record.expires_in(now) < 0 <==> record.expires_at->0 < now
            &&& now <= later ==> record.expires_in(later) <= record.expires_in(now)
        },
        record.expires_at is Some && now <= 0 ==> record.expires_in(now) < 0,
{
}

/// **A caller is told how long the token lasts, and no longer.** The seconds left are the expiry
/// less the time: negative once it has passed, so that a caller can say that the robot needs
/// signing in again; the most there is where the server named none. The name is the record's, or
/// `unknown`.
pub proof fn what_a_caller_is_told_of_a_credential(record: StoredView, now: i64)
    ensures
        ({
            let told = record.identity(now);
            &&& record.username is Some ==> told.username == record.username->0
            &&& record.username is None ==> told.username == "unknown"@
            &&& told.refreshable <==> record.refresh_token is Some
            &&& record.expires_at is None ==> told.token_expires_in == i64::MAX
            &&& record.expires_at is Some && now > 0 ==> {
                &&& told.token_expires_in == held(record.expires_at->0 - now)
                &&& told.token_expires_in < 0 <==> record.expires_at->0 < now
            }
            &&& record.expires_at is Some && now <= 0 ==> told.token_expires_in < 0
        }),
{
}

/// **A file that is missing or does not parse is no credential,** and a record is all of itself;
/// of a reader's one field, the token is what it says unless it says nothing.
pub proof fn what_is_found_is_what_is_there(
    stored: Stored,
    credential: Credential,
    why: String,
    token: Seq<char>,
)
    ensures
        Contents::<Stored>::Missing.record() is None,
        Contents::<Stored>::Unparsed(why).record() is None,
        Contents::Record(stored).record() == Some(stored@),
        Contents::<Credential>::Missing.record() is None,
        Contents::<Credential>::Unparsed(why).record() is None,
        Contents::Record(credential).record() == Some(credential.access_token@),
        usable(None) is None,
        usable(Some(token)) is Some <==> token.len() > 0,
        token.len() > 0 ==> usable(Some(token))->0 == token,
        stored@.access_token == stored.access_token@,
        stored@.expires_at == stored.expires_at,
        stored@.refresh_token is Some <==> stored.refresh_token is Some,
        stored.refresh_token is Some ==> stored@.refresh_token->0 == stored.refresh_token->0@,
        stored@.username is Some <==> stored.username is Some,
        stored.username is Some ==> stored@.username->0 == stored.username->0@,
{
}

// ── the way to the disk ──────────────────────────────────────────────────────

/// **The temporary file is named after the credential:** with the extension `tmp` in place of its
/// own, or behind the whole name where it has that already.
pub proof fn how_the_temporary_file_is_named(store: FileStoreView)
    ensures
        ({
            let swapped = path_with_extension(store.path, "tmp"@);
            &&& swapped != store.path ==> store.temp() == swapped && store.temp_kind()
                == Temp::Extension
            &&& swapped == store.path ==> store.temp() == store.path + ".tmp"@ && store.temp_kind()
                == Temp::Suffix
        }),
{
}

/// What sharing a credential begins with.
pub open spec fn shares(store: FileStoreView, action: SaveActionView) -> bool {
    &&& store.group is None ==> action == SaveActionView::SetMode(store.mode)
    &&& (store.group is Some && !store.group->0.contains('\0')) ==> action
        == SaveActionView::FindGroup(store.group->0)
    &&& (store.group is Some && store.group->0.contains('\0')) ==> action
        == SaveActionView::Finish(Ok(Some("no such group on this system"@)))
}

/// **What follows what is done, on the way to the disk.** The stale file is removed, a private one
/// created, filled, flushed and renamed; the directory it is in is flushed, where it has one; then
/// it is shared: at once where no group is named, and with that group once it was found and has
/// been given the file.
pub proof fn what_follows_what_is_done(saving: SavingView, gid: u32)
    ensures
        ({
            let store = saving.store;
            let done = saving.next(SaveEventView::Done);
            let found = saving.next(SaveEventView::Group(Some(gid)));
            let dir = path_parent(store.path);
            let complaint = "this process may not give a file to that group"@;
            &&& store.begin(Ok(saving.bytes)) == (
                SavePhase::RemovingTemp,
                SaveActionView::RemoveTemp,
            )
            &&& saving.phase == SavePhase::RemovingTemp ==> done == (
                SavePhase::Creating,
                SaveActionView::Create(0o600),
            )
            &&& saving.phase == SavePhase::Creating ==> done == (
                SavePhase::Writing,
                SaveActionView::Write,
            )
            &&& saving.phase == SavePhase::Writing ==> done == (
                SavePhase::SyncingFile,
                SaveActionView::SyncFile,
            )
            &&& saving.phase == SavePhase::SyncingFile ==> done == (
                SavePhase::Renaming,
                SaveActionView::Rename,
            )
            &&& saving.phase == SavePhase::Renaming ==> {
                &&& dir is None ==> shares(store, done.1)
                &&& dir is Some && dir->0.len() == 0 ==> done == (
                    SavePhase::OpeningDir,
                    SaveActionView::OpenDir(Directory::Working),
                )
                &&& dir is Some && dir->0.len() > 0 ==> done == (
                    SavePhase::OpeningDir,
                    SaveActionView::OpenDir(Directory::Parent),
                )
            }
            &&& saving.phase == SavePhase::OpeningDir ==> done == (
                SavePhase::SyncingDir,
                SaveActionView::SyncDir,
            )
            &&& saving.phase == SavePhase::SyncingDir ==> shares(store, done.1)
            &&& saving.phase == SavePhase::GivingGroup ==> done == (
                SavePhase::SettingMode,
                SaveActionView::SetMode(store.mode),
            )
            &&& saving.phase == SavePhase::SettingMode ==> done == (
                SavePhase::Finished,
                SaveActionView::Finish(Ok(None)),
            )
            &&& !store.path.contains('\0') ==> found == (
                SavePhase::GivingGroup,
                SaveActionView::GiveGroup(gid),
            )
            &&& store.path.contains('\0') ==> found.1 == SaveActionView::Finish(
                Ok(Some(complaint)),
            )
            &&& saving.next(SaveEventView::Group(None)).1 == SaveActionView::Finish(
                Ok(Some("no such group on this system"@)),
            )
        }),
{
}

/// **What fails names the file it failed on, and what was said of it.** The temporary one while
/// that is made, the directory while that is flushed, and else the credential; but for the group,
/// which is a complaint.
pub proof fn what_fails_names_its_file(saving: SavingView, why: Seq<char>)
    ensures
        ({
            let store = saving.store;
            let failed = saving.next(SaveEventView::Failed(why));
            let dir = path_parent(store.path);
            let on = |path: Seq<char>|
                SaveActionView::Finish(Err(ErrorView::Io { path, source: why }));
            &&& store.begin(Err(why)).1 == on(store.path)
            &&& failed.0 == SavePhase::Finished
            &&& (saving.phase == SavePhase::RemovingTemp || saving.phase == SavePhase::Creating
                || saving.phase == SavePhase::Writing || saving.phase == SavePhase::SyncingFile)
                ==> failed.1 == on(store.temp())
            &&& (saving.phase == SavePhase::Renaming || saving.phase == SavePhase::SettingMode)
                ==> failed.1 == on(store.path)
            &&& (saving.phase == SavePhase::OpeningDir || saving.phase == SavePhase::SyncingDir)
                && dir is Some ==> failed.1 == on(
                if dir->0.len() == 0 {
                    "."@
                } else {
                    dir->0
                },
            )
            &&& saving.phase == SavePhase::GivingGroup ==> failed.1 == SaveActionView::Finish(
                Ok(Some("this process may not give a file to that group"@)),
            )
        }),
{
}

/// **A save hears of what it asked for, until it is over,** and writes what it was given to where
/// it was told to all along.
pub proof fn a_save_hears_of_what_it_asked_for(saving: SavingView, event: SaveEventView)
    ensures
        saving.accepts(event) <==> {
            &&& saving.phase != SavePhase::Finished
            &&& event is Group <==> saving.phase == SavePhase::FindingGroup
        },
        saving.after(event).store == saving.store,
        saving.after(event).bytes == saving.bytes,
        saving.after(event).phase == saving.next(event).0,
{
}

// ── starting a login ─────────────────────────────────────────────────────────

/// **When a login starts, and when it is refused.** Over an account only if forced, which is said
/// with whose it is; never while another is being started; and over a code that is still good only
/// if forced.
pub proof fn when_a_login_starts(
    account: AccountView,
    stored: Option<StoredView>,
    force: bool,
    now: int,
)
    ensures
        ({
            let gate = account.login_gate(stored, force, now);
            let owned = stored is Some && !force;
            let waits = account.pending is Some && account.pending->0.deadline > now;
            let busy = account.starting is Some || waits && !force;
            &&& gate is Ok <==> !owned && !busy
            &&& owned && stored->0.username is Some ==> gate == Err::<(), ErrorView>(
                ErrorView::AlreadySignedIn(stored->0.username->0),
            )
            &&& owned && stored->0.username is None ==> gate == Err::<(), ErrorView>(
                ErrorView::AlreadySignedIn("another account"@),
            )
            &&& !owned && busy ==> gate == Err::<(), ErrorView>(ErrorView::LoginInFlight)
        }),
{
}

/// **What is shown of a code is what there is to see,** and not the half that the robot polls
/// with; the login lasts as long as the code does.
pub proof fn what_a_code_starts(account: AccountView, code: DeviceCodeView, now: int, ticks: int)
    requires
        account.generation < u64::MAX,
    ensures
        ({
            let shown = login_of(code);
            let waiting = account.with_login(code, now);
            let flow = FlowView::started(code, waiting.generation, ticks);
            &&& shown.user_code == code.user_code
            &&& shown.verification_uri == code.verification_uri
            &&& shown.verification_uri_complete == code.verification_uri_complete
            &&& shown.expires_in == code.expires_in
            &&& shown.interval == code.interval
            &&& waiting.pending is Some
            &&& waiting.pending->0.login == shown
            &&& waiting.pending->0.deadline == now + code.expires_in * 1_000_000_000
            &&& waiting.generation == account.generation + 1
            &&& waiting.holder == account.holder
            &&& waiting.starting is None
            &&& waiting.last_error is None
            &&& waiting.store == account.store
            &&& waiting.config == account.config
            &&& flow.code == code
            &&& flow.generation == waiting.generation
            &&& flow.deadline == ticks + code.expires_in * 1_000_000_000
            &&& flow.interval >= 1
            &&& code.interval >= 1 ==> flow.interval == code.interval
            &&& code.interval == 0 ==> flow.interval == 1
            &&& flow.phase is Sleeping
        }),
{
}

/// **A login can be made of an answer that both clocks can count down,** while there are numbers;
/// any other answer, and one to a login that was withdrawn, makes none and needs neither.
pub proof fn what_a_login_can_be_made_of(
    account: AccountView,
    code: DeviceCodeView,
    e: ErrorView,
    now: int,
    ticks: int,
)
    ensures
        answerable(account, Err(e), now, ticks),
        account.starting != Some(account.generation) ==> answerable(account, Ok(code), now, ticks),
        account.starting == Some(account.generation) ==> (answerable(account, Ok(code), now, ticks)
            <==> {
            &&& account.generation < u64::MAX
            &&& now + code.expires_in * 1_000_000_000 <= LATEST
            &&& ticks + code.expires_in * 1_000_000_000 <= LATEST
        }),
        account.starts() <==> account.starting == Some(account.generation),
{
}

/// **What ends a login, and what disowns it, touch nothing else.**
pub proof fn what_ends_and_what_disowns(account: AccountView, failure: Option<Seq<char>>)
    ensures
        account.settled(failure) == (AccountView {
            pending: None,
            last_error: failure,
            ..account
        }),
        account.superseded().generation != account.generation,
        account.superseded().holder != account.holder,
        account.superseded() == (AccountView {
            generation: account.superseded().generation,
            holder: account.superseded().holder,
            ..account
        }),
        account.handed_over().holder != account.holder,
        account.handed_over() == (AccountView { holder: account.handed_over().holder, ..account }),
        account.generation < u64::MAX ==> account.superseded().generation == account.generation + 1,
        account.holder < u64::MAX ==> account.handed_over().holder == account.holder + 1,
{
}

// ── waiting for approval ─────────────────────────────────────────────────────

/// **What a flow can hear, by what it waits for.**
pub proof fn what_a_flow_can_hear(flow: FlowView, event: FlowEventView)
    ensures
        flow.accepts(event) <==> {
            ||| flow.phase is Sleeping && event is Woke
            ||| flow.phase is Polling && event is Polled && !(event->Polled_0 is SlowDown
                && flow.interval > u64::MAX - 5)
            ||| flow.phase is Naming && event is Named
            ||| flow.phase is Saving && event is Saved
            ||| flow.phase is Discarding && event is Discarded
        },
{
}

/// **A flow polls whenever it wakes, for as long as its code is good,** and with that code; it
/// waits on as long as it is told to wait, and five seconds longer each time it is told to slow
/// down.
pub proof fn a_flow_polls_while_its_code_is_good(
    account: AccountView,
    flow: FlowView,
    now: int,
    why: Seq<char>,
)
    requires
        flow.interval <= u64::MAX - 5,
    ensures
        ({
            let woke = flow.next(account, FlowEventView::Woke(now));
            let pending = flow.next(account, FlowEventView::Polled(PollView::Pending));
            let slowed = flow.next(account, FlowEventView::Polled(PollView::SlowDown));
            let unsure = flow.next(account, FlowEventView::Polled(PollView::Inconclusive(why)));
            &&& now < flow.deadline ==> {
                &&& woke.action is Poll
                &&& woke.action->Poll_0.url == account.config.endpoint + "/oauth/token"@
                &&& woke.action->Poll_0.form[1].1 == account.config.client_id
                &&& woke.action->Poll_0.form[2].1 == flow.code.device_code
                &&& woke.flow == FlowView { phase: PhaseView::Polling, ..flow }
                &&& woke.account == account
            }
            &&& now >= flow.deadline ==> woke.action is Stop && woke.flow == FlowView {
                phase: PhaseView::Over,
                ..flow
            }
            &&& pending.action == FlowActionView::Sleep(flow.interval)
            &&& pending.flow == FlowView { phase: PhaseView::Sleeping, ..flow }
            &&& pending.account == account
            &&& slowed.action is Sleep
            &&& slowed.action->Sleep_0 == flow.interval + 5
            &&& slowed.flow.interval == flow.interval + 5
            &&& slowed.flow == FlowView {
                interval: slowed.flow.interval,
                phase: PhaseView::Sleeping,
                ..flow
            }
            &&& slowed.account == account
            &&& unsure == pending
        }),
{
}

/// **How the polling ends.** A token makes a flow that is current ask whose it is; a refusal, and
/// a code that ran out, settle the login with the reason. A flow that was superseded just stops.
pub proof fn how_the_polling_ends(
    account: AccountView,
    flow: FlowView,
    token: TokenView,
    why: Seq<char>,
    now: int,
)
    requires
        now >= flow.deadline,
    ensures
        ({
            let approved = flow.next(account, FlowEventView::Polled(PollView::Token(token)));
            let refused = flow.next(account, FlowEventView::Polled(PollView::Refused(why)));
            let expired = flow.next(account, FlowEventView::Woke(now));
            let over = FlowView { phase: PhaseView::Over, ..flow };
            &&& account.generation == flow.generation ==> {
                &&& approved.action is AskName
                &&& approved.action->AskName_0.url == account.config.endpoint + "/oauth/userinfo"@
                &&& approved.action->AskName_0.bearer == Some(token.access_token)
                &&& approved.flow == FlowView { phase: PhaseView::Naming(token), ..flow }
                &&& approved.account == account
                &&& refused.action is Stop
                &&& refused.flow == over
                &&& refused.account.pending is None
                &&& refused.account.last_error == Some(why)
                &&& expired.action is Stop
                &&& expired.flow == over
                &&& expired.account.pending is None
                &&& expired.account.last_error == Some("the code expired before it was approved"@)
            }
            &&& account.generation != flow.generation ==> {
                &&& approved.action is Stop
                &&& approved.flow == over
                &&& approved.account == account
                &&& refused == approved
                &&& expired == approved
            }
        }),
{
}

/// **What becomes of what was approved.** A flow that is current stores the token under the name
/// it was told, or under none; once that is written the login is settled, and where it could not
/// be, with why. A flow that was superseded stores nothing, and takes back what it was storing.
pub proof fn what_becomes_of_what_was_approved(
    account: AccountView,
    flow: FlowView,
    token: TokenView,
    record: StoredView,
    name: Result<Seq<char>, ErrorView>,
    saved: Result<(), ErrorView>,
    now: i64,
)
    ensures
        ({
            let asked = FlowView { phase: PhaseView::Naming(token), ..flow };
            let writing = FlowView { phase: PhaseView::Saving(record), ..flow };
            let discarding = FlowView { phase: PhaseView::Discarding(record), ..flow };
            let over = FlowView { phase: PhaseView::Over, ..flow };
            let named = asked.next(account, FlowEventView::Named(name, now));
            let wrote = writing.next(account, FlowEventView::Saved(saved));
            let cleared = discarding.next(account, FlowEventView::Discarded);
            &&& account.generation == flow.generation ==> {
                let kept = named.action->Save_0;
                &&& named.action is Save
                &&& kept.access_token == token.access_token
                &&& kept.refresh_token == token.refresh_token
                &&& kept.expires_at is Some <==> token.expires_in is Some
                &&& token.expires_in is Some ==> kept.expires_at->0 == held(
                    now + token.expires_in->0,
                )
                &&& name is Ok ==> kept.username == Some(name->Ok_0)
                &&& name is Err ==> kept.username is None
                &&& named.flow == FlowView { phase: PhaseView::Saving(kept), ..flow }
                &&& named.account.pending == account.pending
                &&& named.account.generation == account.generation
                &&& named.account.holder != account.holder
                &&& named.account.last_error == account.last_error
                &&& wrote.action is Stop
                &&& wrote.flow == over
                &&& wrote.account.pending is None
                &&& saved is Ok ==> wrote.account.last_error is None
                &&& saved is Err ==> wrote.account.last_error == Some(saved->Err_0.message())
                &&& wrote.account == AccountView {
                    pending: None,
                    last_error: wrote.account.last_error,
                    ..account
                }
            }
            &&& account.generation != flow.generation ==> {
                &&& named.action is Stop
                &&& named.flow == over
                &&& named.account == account
                &&& wrote.action == FlowActionView::Discard(record)
                &&& wrote.flow == discarding
                &&& wrote.account == account
            }
            &&& cleared.action is Stop
            &&& cleared.flow == over
            &&& cleared.account == account
        }),
{
}

// ── status ───────────────────────────────────────────────────────────────────

/// **`status` says what is.** Whose the robot is and how long its token lasts, seen from the whole
/// second the clock is in; the login in flight, with the whole seconds left to it, until its time
/// is up; and what last failed.
pub proof fn status_says_what_is(account: AccountView, stored: Option<StoredView>, now: int)
    requires
        EARLIEST <= now <= LATEST,
        account.pending is Some ==> account.pending->0.deadline <= LATEST,
    ensures
        ({
            let status = account.status(stored, now);
            let told = status.account->0;
            let record = stored->0;
            let pending = account.pending->0;
            let shown = status.login->0;
            &&& status.account is Some <==> stored is Some
            &&& stored is Some ==> {
                &&& record.username is Some ==> told.username == record.username->0
                &&& record.username is None ==> told.username == "unknown"@
                &&& told.refreshable <==> record.refresh_token is Some
                &&& record.expires_at is None ==> told.token_expires_in == i64::MAX
                &&& record.expires_at is Some && now >= 1_000_000_000 ==> {
                    let second = now / 1_000_000_000;
                    &&& told.token_expires_in == held(record.expires_at->0 - second)
                    &&& told.token_expires_in < 0 <==> record.expires_at->0 < second
                }
                &&& record.expires_at is Some && now < 1_000_000_000 ==> told.token_expires_in < 0
            }
            &&& status.login is Some <==> account.pending is Some && now <= pending.deadline
            &&& status.login is Some ==> {
                &&& shown.user_code == pending.login.user_code
                &&& shown.verification_uri == pending.login.verification_uri
                &&& shown.verification_uri_complete == pending.login.verification_uri_complete
                &&& shown.interval == pending.login.interval
                &&& shown.expires_in * 1_000_000_000 <= pending.deadline - now
                &&& pending.deadline - now < (shown.expires_in + 1) * 1_000_000_000
            }
            &&& status.last_error == account.last_error
        }),
{
}

// ── keeping the token fresh ──────────────────────────────────────────────────

/// **When a token is renewed.** When it can be, when it expires, and when less of its time is left
/// than the configuration asks for: exactly then.
pub proof fn when_a_token_is_renewed(config: ConfigView, record: StoredView, now: i64)
    requires
        now > 0,
    ensures
        config.renews(record, now) <==> {
            &&& record.refresh_token is Some
            &&& record.expires_at is Some
            &&& held(record.expires_at->0 - now) * 1_000_000_000
                < config.refresh_when_under.secs * 1_000_000_000 + config.refresh_when_under.nanos
        },
{
}

/// **How a renewal begins.** With the record's refresh token offered, for the holder the robot has
/// and under the name it is known by; or with nothing at all.
pub proof fn how_a_renewal_begins(
    account: AccountView,
    stored: Option<StoredView>,
    now: i64,
    event: RenewalEventView,
)
    ensures
        ({
            let begun = account.renewal(stored, now);
            let due = stored is Some && account.config.renews(stored->0, now);
            &&& due ==> {
                &&& begun.1 is Send
                &&& begun.1->Send_0.url == account.config.endpoint + "/oauth/token"@
                &&& begun.1->Send_0.form[0].1 == "refresh_token"@
                &&& begun.1->Send_0.form[1].1 == account.config.client_id
                &&& begun.1->Send_0.form[2].1 == stored->0.refresh_token->0
                &&& begun.0.holder == account.holder
                &&& begun.0.username == stored->0.username
                &&& begun.0.accepts(event) <==> event is Answered
            }
            &&& !due ==> begun.1 == UpkeepActionView::Finish(Ok(false)) && !begun.0.accepts(event)
        }),
{
}

/// **What a renewal stores is what was answered, until when it was answered to be good.** For the
/// holder it was begun for: the tokens of the answer, the name that was there, and an absolute
/// expiry, left out only if the server named none — whoever the robot belongs to. For another it
/// stores nothing.
pub proof fn what_a_renewal_stores(
    account: AccountView,
    renewal: RenewalView,
    token: TokenView,
    now: i64,
    due: i64,
    config: ConfigView,
)
    ensures
        ({
            let next = renewal.next(account, RenewalEventView::Answered(Ok(token), now));
            let kept = next.1->Save_0;
            &&& account.holder == renewal.holder ==> {
                &&& next.1 is Save
                &&& kept.access_token == token.access_token
                &&& kept.refresh_token == token.refresh_token
                &&& kept.username == renewal.username
                &&& kept.expires_at is Some <==> token.expires_in is Some
                &&& token.expires_in is Some ==> kept.expires_at->0 == held(
                    now + token.expires_in->0,
                )
                &&& next.0.phase == UpkeepPhase::Saving
                &&& next.0.record == Some(kept)
                &&& next.0.holder == renewal.holder
            }
            &&& account.holder != renewal.holder ==> {
                &&& next.1 == UpkeepActionView::Finish(Ok(false))
                &&& next.0.phase == UpkeepPhase::Over
            }
            // So a token that can be renewed and expires falls due again, in time.
            &&& (account.holder == renewal.holder && token.refresh_token is Some
                && token.expires_in is Some && now + token.expires_in->0 <= i64::MAX && due > 0
                && now + token.expires_in->0 - due < config.refresh_when_under.secs
                && now + token.expires_in->0 - due >= i64::MIN) ==> config.renews(kept, due)
        }),
{
}

/// **How a renewal goes on.** A refusal ends it with the reason; a record that was written ends it
/// with success, one that was not with the reason; one that was written for a holder the robot no
/// longer has is taken back, and then nothing was written.
pub proof fn how_a_renewal_goes_on(
    account: AccountView,
    renewal: RenewalView,
    e: ErrorView,
    now: i64,
    event: RenewalEventView,
)
    ensures
        ({
            let current = account.holder == renewal.holder;
            let refused = renewal.next(account, RenewalEventView::Answered(Err(e), now));
            let written = renewal.next(account, RenewalEventView::Saved(Ok(())));
            let unwritten = renewal.next(account, RenewalEventView::Saved(Err(e)));
            let discarded = renewal.next(account, RenewalEventView::Discarded);
            &&& renewal.accepts(event) <==> {
                ||| event is Answered && renewal.phase == UpkeepPhase::Asking
                ||| event is Saved && renewal.phase == UpkeepPhase::Saving && renewal.record is Some
                ||| event is Discarded && renewal.phase == UpkeepPhase::Discarding
            }
            &&& refused.1 == UpkeepActionView::Finish(Err(e))
            &&& refused.0.phase == UpkeepPhase::Over
            &&& current ==> {
                &&& written.1 == UpkeepActionView::Finish(Ok(true))
                &&& written.0.phase == UpkeepPhase::Over
                &&& unwritten.1 == UpkeepActionView::Finish(Err(e))
                &&& unwritten.0.phase == UpkeepPhase::Over
            }
            &&& !current ==> {
                &&& written.1 == UpkeepActionView::Discard(renewal.record->0)
                &&& written.0.phase == UpkeepPhase::Discarding
                &&& written.0.fault is None
                &&& unwritten.1 == written.1
                &&& unwritten.0.phase == UpkeepPhase::Discarding
                &&& unwritten.0.fault == Some(e)
            }
            &&& renewal.fault is None ==> discarded.1 == UpkeepActionView::Finish(Ok(false))
            &&& renewal.fault is Some ==> discarded.1 == UpkeepActionView::Finish(
                Err(renewal.fault->0),
            )
            &&& discarded.0.phase == UpkeepPhase::Over
            &&& renewal.next(account, event).0.holder == renewal.holder
            &&& renewal.next(account, event).0.username == renewal.username
        }),
{
}

/// **How a name is filled in.** It is asked for of a record without one, with that record's token;
/// what is written is the record with the name in it. A failure ends it with the reason, and what
/// was written for a holder the robot no longer has is taken back.
pub proof fn how_a_name_is_filled_in(
    account: AccountView,
    stored: Option<StoredView>,
    naming: NamingView,
    name: Seq<char>,
    e: ErrorView,
    event: NamingEventView,
)
    ensures
        ({
            let begun = account.naming(stored);
            let missing = stored is Some && stored->0.username is None;
            let current = account.holder == naming.holder;
            let answered = naming.next(account, NamingEventView::Answered(Ok(name)));
            let failed = naming.next(account, NamingEventView::Answered(Err(e)));
            let written = naming.next(account, NamingEventView::Saved(Ok(())));
            let unwritten = naming.next(account, NamingEventView::Saved(Err(e)));
            let discarded = naming.next(account, NamingEventView::Discarded);
            &&& missing ==> {
                &&& begun.1 is Send
                &&& begun.1->Send_0.url == account.config.endpoint + "/oauth/userinfo"@
                &&& begun.1->Send_0.bearer == Some(stored->0.access_token)
                &&& begun.0.holder == account.holder
                &&& begun.0.record == stored
                &&& begun.0.accepts(event) <==> event is Answered
            }
            &&& !missing ==> begun.1 == UpkeepActionView::Finish(Ok(false)) && !begun.0.accepts(
                event,
            )
            &&& naming.accepts(event) <==> naming.record is Some && {
                ||| event is Answered && naming.phase == UpkeepPhase::Asking
                ||| event is Saved && naming.phase == UpkeepPhase::Saving
                ||| event is Discarded && naming.phase == UpkeepPhase::Discarding
            }
            &&& failed.1 == UpkeepActionView::Finish(Err(e))
            &&& failed.0.phase == UpkeepPhase::Over
            &&& current ==> {
                let kept = answered.1->Save_0;
                &&& answered.1 is Save
                &&& kept.username == Some(name)
                &&& kept.access_token == naming.record->0.access_token
                &&& kept.refresh_token == naming.record->0.refresh_token
                &&& kept.expires_at == naming.record->0.expires_at
                &&& answered.0.phase == UpkeepPhase::Saving
                &&& answered.0.record == Some(kept)
                &&& written.1 == UpkeepActionView::Finish(Ok(true))
                &&& written.0.phase == UpkeepPhase::Over
                &&& unwritten.1 == UpkeepActionView::Finish(Err(e))
                &&& unwritten.0.phase == UpkeepPhase::Over
            }
            &&& !current ==> {
                &&& answered.1 == UpkeepActionView::Finish(Ok(false))
                &&& answered.0.phase == UpkeepPhase::Over
                &&& written.1 == UpkeepActionView::Discard(naming.record->0)
                &&& written.0.phase == UpkeepPhase::Discarding
                &&& written.0.fault is None
                &&& unwritten.1 == written.1
                &&& unwritten.0.phase == UpkeepPhase::Discarding
                &&& unwritten.0.fault == Some(e)
            }
            &&& naming.fault is None ==> discarded.1 == UpkeepActionView::Finish(Ok(false))
            &&& naming.fault is Some ==> discarded.1 == UpkeepActionView::Finish(
                Err(naming.fault->0),
            )
            &&& discarded.0.phase == UpkeepPhase::Over
            &&& naming.next(account, event).0.holder == naming.holder
        }),
{
}

/// **Every pass renews, then names, then sleeps.** Whatever the renewal came to, the missing name
/// is asked for next; whatever that came to, the wait is as long as was configured; and nothing
/// else leads to either.
pub proof fn every_pass_renews_then_names_then_sleeps(
    account: AccountView,
    event: MaintainEventView,
    done: Result<bool, ErrorView>,
    other: Result<bool, ErrorView>,
)
    ensures
        account.upkeep(MaintainEventView::Woke) == MaintainAction::Refresh,
        account.upkeep(MaintainEventView::Refreshed(done)) == MaintainAction::Name,
        account.upkeep(MaintainEventView::Named(done)) == MaintainAction::Sleep(
            account.config.maintain_interval,
        ),
        account.upkeep(MaintainEventView::Refreshed(done)) == account.upkeep(
            MaintainEventView::Refreshed(other),
        ),
        account.upkeep(event) == MaintainAction::Refresh <==> event is Woke,
        account.upkeep(event) == MaintainAction::Name <==> event is Refreshed,
        account.upkeep(event) is Sleep <==> event is Named,
{
}

/// **What a pass leaves in the account.** The reason of a renewal that failed, no reason after one
/// that worked, and nothing else at all.
pub proof fn what_a_pass_leaves(account: AccountView, event: MaintainEventView)
    ensures
        ({
            let left = account.maintained(event);
            &&& left == AccountView { last_error: left.last_error, ..account }
            &&& event matches MaintainEventView::Refreshed(done) ==> {
                &&& done is Err ==> left.last_error == Some(done->Err_0.message())
                &&& done == Ok::<bool, ErrorView>(true) ==> left.last_error is None
                &&& done == Ok::<bool, ErrorView>(false) ==> left.last_error == account.last_error
            }
            &&& !(event is Refreshed) ==> left.last_error == account.last_error
        }),
{
}

// ── what is seen of a value ──────────────────────────────────────────────────

/// **What is seen of a configuration, a code, an answer and a status is all there is of it.**
pub proof fn nothing_is_left_out_of_what_is_seen(
    config: Config,
    code: DeviceCode,
    login: LoginCode,
    identity: Identity,
    status: Status,
    err: OAuthError,
    token: TokenResponse,
)
    ensures
        config@.endpoint == config.endpoint@ && config@.client_id == config.client_id@
            && config@.user_agent == config.user_agent@ && config@.http_timeout
            == config.http_timeout && config@.refresh_when_under == config.refresh_when_under
            && config@.maintain_interval == config.maintain_interval,
        code@.device_code == code.device_code@ && code@.user_code == code.user_code@
            && code@.verification_uri == code.verification_uri@ && code@.verification_uri_complete
            == code.verification_uri_complete@ && code@.expires_in == code.expires_in
            && code@.interval == code.interval,
        login@.user_code == login.user_code@ && login@.verification_uri == login.verification_uri@
            && login@.verification_uri_complete == login.verification_uri_complete@
            && login@.expires_in == login.expires_in && login@.interval == login.interval,
        identity@.username == identity.username@ && identity@.token_expires_in
            == identity.token_expires_in && identity@.refreshable == identity.refreshable,
        status@.account is Some <==> status.account is Some,
        status.account is Some ==> status@.account->0 == status.account->0@,
        status@.login is Some <==> status.login is Some,
        status.login is Some ==> status@.login->0 == status.login->0@,
        status@.last_error is Some <==> status.last_error is Some,
        status.last_error is Some ==> status@.last_error->0 == status.last_error->0@,
        err@.error == err.error@,
        err@.error_description is Some <==> err.error_description is Some,
        err.error_description is Some ==> err@.error_description->0 == err.error_description->0@,
        token@.access_token == token.access_token@ && token@.expires_in == token.expires_in,
        token@.refresh_token is Some <==> token.refresh_token is Some,
        token.refresh_token is Some ==> token@.refresh_token->0 == token.refresh_token->0@,
{
}

/// **What is seen of a request is what is sent,** field by field and in order.
pub proof fn what_is_seen_of_a_request_is_sent(request: Request, i: int)
    ensures
        request@.method == request.method,
        request@.url == request.url@,
        request@.form.len() == request.form@.len(),
        0 <= i < request.form@.len() ==> request@.form[i].0 == request.form@[i].0@
            && request@.form[i].1 == request.form@[i].1@,
        request@.bearer is Some <==> request.bearer is Some,
        request.bearer is Some ==> request@.bearer->0 == request.bearer->0@,
        request@.timeout == request.timeout,
{
}

/// **What is seen of an error and of a poll is which it is, and why.**
pub proof fn what_is_seen_of_an_outcome_is_what_it_is(error: Error, poll: Poll)
    ensures
        match error {
            Error::Network(why) => error@ == ErrorView::Network(why@),
            Error::Io { path, source } => error@ == (ErrorView::Io {
                path: path@,
                source: source@,
            }),
            Error::LoginInFlight => error@ is LoginInFlight,
            Error::AlreadySignedIn(who) => error@ == ErrorView::AlreadySignedIn(who@),
        },
        match poll {
            Poll::Pending => poll@ is Pending,
            Poll::SlowDown => poll@ is SlowDown,
            Poll::Token(token) => poll@ == PollView::Token((*token)@),
            Poll::Refused(why) => poll@ == PollView::Refused(why@),
            Poll::Inconclusive(why) => poll@ == PollView::Inconclusive(why@),
        },
{
}

/// **What is seen of what is wanted done is what is done:** by a flow, by upkeep and by a save.
pub proof fn what_is_wanted_is_what_is_seen(
    flow: FlowAction,
    upkeep: UpkeepAction,
    save: SaveAction,
)
    ensures
        match flow {
            FlowAction::Sleep(secs) => flow@ == FlowActionView::Sleep(secs),
            FlowAction::Poll(request) => flow@ == FlowActionView::Poll(request@),
            FlowAction::AskName(request) => flow@ == FlowActionView::AskName(request@),
            FlowAction::Save(record) => flow@ == FlowActionView::Save(record@),
            FlowAction::Discard(record) => flow@ == FlowActionView::Discard(record@),
            FlowAction::Stop => flow@ is Stop,
        },
        match upkeep {
            UpkeepAction::Send(request) => upkeep@ == UpkeepActionView::Send(request@),
            UpkeepAction::Save(record) => upkeep@ == UpkeepActionView::Save(record@),
            UpkeepAction::Discard(record) => upkeep@ == UpkeepActionView::Discard(record@),
            UpkeepAction::Finish(Ok(wrote)) => upkeep@ == UpkeepActionView::Finish(Ok(wrote)),
            UpkeepAction::Finish(Err(e)) => upkeep@ == UpkeepActionView::Finish(Err(e@)),
        },
        match save {
            SaveAction::RemoveTemp => save@ is RemoveTemp,
            SaveAction::Create(mode) => save@ == SaveActionView::Create(mode),
            SaveAction::Write => save@ is Write,
            SaveAction::SyncFile => save@ is SyncFile,
            SaveAction::Rename => save@ is Rename,
            SaveAction::OpenDir(dir) => save@ == SaveActionView::OpenDir(dir),
            SaveAction::SyncDir => save@ is SyncDir,
            SaveAction::FindGroup(name) => save@ == SaveActionView::FindGroup(name@),
            SaveAction::GiveGroup(gid) => save@ == SaveActionView::GiveGroup(gid),
            SaveAction::SetMode(mode) => save@ == SaveActionView::SetMode(mode),
            SaveAction::Finish(Ok(None)) => save@ == SaveActionView::Finish(Ok(None)),
            SaveAction::Finish(Ok(Some(why))) => save@ == SaveActionView::Finish(Ok(Some(why@))),
            SaveAction::Finish(Err(e)) => save@ == SaveActionView::Finish(Err(e@)),
        },
{
}

/// **What is seen of what is heard is what happened:** to a flow, a renewal, a name, a save and a
/// pass.
pub proof fn what_is_heard_is_what_is_seen(
    flow: FlowEvent,
    renewal: RenewalEvent,
    naming: NamingEvent,
    save: SaveEvent,
    pass: MaintainEvent,
)
    ensures
        match flow {
            FlowEvent::Woke(now) => flow@ == FlowEventView::Woke(now@),
            FlowEvent::Polled(poll) => flow@ == FlowEventView::Polled(poll@),
            FlowEvent::Named(Ok(name), now) => flow@ == FlowEventView::Named(Ok(name@), now),
            FlowEvent::Named(Err(e), now) => flow@ == FlowEventView::Named(Err(e@), now),
            FlowEvent::Saved(Ok(_)) => flow@ == FlowEventView::Saved(Ok(())),
            FlowEvent::Saved(Err(e)) => flow@ == FlowEventView::Saved(Err(e@)),
            FlowEvent::Discarded => flow@ is Discarded,
        },
        match renewal {
            RenewalEvent::Answered(Ok(token), now) => renewal@ == RenewalEventView::Answered(
                Ok(token@),
                now,
            ),
            RenewalEvent::Answered(Err(e), now) => renewal@ == RenewalEventView::Answered(
                Err(e@),
                now,
            ),
            RenewalEvent::Saved(Ok(_)) => renewal@ == RenewalEventView::Saved(Ok(())),
            RenewalEvent::Saved(Err(e)) => renewal@ == RenewalEventView::Saved(Err(e@)),
            RenewalEvent::Discarded => renewal@ is Discarded,
        },
        match naming {
            NamingEvent::Answered(Ok(name)) => naming@ == NamingEventView::Answered(Ok(name@)),
            NamingEvent::Answered(Err(e)) => naming@ == NamingEventView::Answered(Err(e@)),
            NamingEvent::Saved(Ok(_)) => naming@ == NamingEventView::Saved(Ok(())),
            NamingEvent::Saved(Err(e)) => naming@ == NamingEventView::Saved(Err(e@)),
            NamingEvent::Discarded => naming@ is Discarded,
        },
        match save {
            SaveEvent::Done => save@ is Done,
            SaveEvent::Failed(why) => save@ == SaveEventView::Failed(why@),
            SaveEvent::Group(gid) => save@ == SaveEventView::Group(gid),
        },
        match pass {
            MaintainEvent::Woke => pass@ is Woke,
            MaintainEvent::Refreshed(Ok(wrote)) => pass@ == MaintainEventView::Refreshed(Ok(wrote)),
            MaintainEvent::Refreshed(Err(e)) => pass@ == MaintainEventView::Refreshed(Err(e@)),
            MaintainEvent::Named(Ok(wrote)) => pass@ == MaintainEventView::Named(Ok(wrote)),
            MaintainEvent::Named(Err(e)) => pass@ == MaintainEventView::Named(Err(e@)),
        },
{
}

} // verus!
