//! What comes back of a call, said of the very values that went in.
//!
//! [`promises`](crate::promises) says what each operation is for, over views. Here the same is
//! said of the functions themselves: whatever a call of one is answered with, and whatever it
//! leaves behind, satisfies what follows.

use crate::account::{maintain, Account, AccountView, Flow, FlowAction, FlowEvent, MaintainAction, MaintainEvent, Naming, NamingEvent, Renewal, RenewalEvent, UpkeepAction, UpkeepPhase};
use crate::config::{Config, ConfigView};
use crate::error::{Error, ErrorView};
use crate::oauth::{built_client, classify, client_settings, device_code_of, device_code_request, poll_of, poll_request, poll_status, poll_token, refresh, refresh_of, refresh_request, request_device_code, status_text, userinfo, userinfo_request, username_of, ClientSettings, DeviceCode, DeviceCodeResponse, Method, OAuthError, Poll, Reply, Request, TokenAnswer, TokenResponse, UserInfo};
use crate::promises::held;
use crate::status::{Identity, LoginCode, Status};
use crate::store::{read_access_token, Contents, Credential, FileStore, Removed, SaveAction, SaveEvent, SavePhase, Saving, Stored, StoredView};
use crate::text::{blank, result_view};
use crate::time::{Moment, Span, EARLIEST, LATEST};
use vstd::prelude::*;
use vstd::string::*;

verus! {

// ── the configuration and the errors ─────────────────────────────────────────

/// **A configuration against an endpoint has that endpoint, and the defaults.**
pub proof fn a_configuration_has_its_endpoint(endpoint: String, r: Config)
    requires
        call_ensures(Config::at, (endpoint,), r),
    ensures
        r.endpoint@ == endpoint@,
        r.client_id@ == "26be6b09-91c5-47da-9861-d2d2bb7a7e36"@,
        r.user_agent@ == "hf-robot-account/0.1.0"@,
        r.http_timeout == (Span { secs: 20, nanos: 0 }),
        r.refresh_when_under == (Span { secs: 604_800, nanos: 0 }),
        r.maintain_interval == (Span { secs: 21_600, nanos: 0 }),
{
}

/// **The environment names the endpoint unless it names none, or a blank one;** the rest are the
/// defaults either way.
pub proof fn the_environment_names_the_endpoint(endpoint: Option<String>, r: Config)
    requires
        call_ensures(Config::from_env, (endpoint,), r),
    ensures
        endpoint is Some && !blank(endpoint->0@) ==> r.endpoint@ == endpoint->0@,
        endpoint is None || blank(endpoint->0@) ==> r.endpoint@ == "https://huggingface.co"@,
        r@ == (ConfigView { endpoint: r.endpoint@, ..ConfigView::at(Seq::empty()) }),
{
}

/// **An error says what it is about.**
pub proof fn an_error_says_what_it_is_about(error: &Error, r: String)
    requires
        call_ensures(Error::message, (error,), r),
    ensures
        error matches Error::Network(why) ==> r@ == why@,
        error matches Error::Io { path, source } ==> r@ == path@ + ": "@ + source@,
        error matches Error::AlreadySignedIn(who) ==> r@ == "this robot already belongs to "@
            + who@ + ". Sign that account out first, or force to replace it"@,
        *error is LoginInFlight ==> r@
            == "a login is already waiting for approval — `account status` has the code, or force to start a new one"@,
{
}

// ── what is asked of Hugging Face ────────────────────────────────────────────

/// **A device authorization is asked for as the configured client,** and so are the polls and the
/// refreshes of what came of it.
pub proof fn every_request_is_made_as_the_configured_client(
    config: &Config,
    device_code: &str,
    refresh_token: &str,
    started: Request,
    polled: Request,
    refreshed: Request,
)
    requires
        call_ensures(device_code_request, (config,), started),
        call_ensures(poll_request, (config, device_code), polled),
        call_ensures(refresh_request, (config, refresh_token), refreshed),
    ensures
        started.form@.len() == 1,
        started.form@[0].0@ == "client_id"@,
        started.form@[0].1@ == config.client_id@,
        polled.form@.len() == 3,
        polled.form@[1].0@ == "client_id"@,
        polled.form@[1].1@ == config.client_id@,
        polled.form@[1].1@ == started.form@[0].1@,
        refreshed.form@.len() == 3,
        refreshed.form@[1].0@ == "client_id"@,
        refreshed.form@[1].1@ == config.client_id@,
        polled.form@[0].0@ == "grant_type"@,
        polled.form@[0].1@ == "urn:ietf:params:oauth:grant-type:device_code"@,
        polled.form@[2].0@ == "device_code"@,
        polled.form@[2].1@ == device_code@,
        refreshed.form@[0].0@ == "grant_type"@,
        refreshed.form@[0].1@ == "refresh_token"@,
        refreshed.form@[2].0@ == "refresh_token"@,
        refreshed.form@[2].1@ == refresh_token@,
{
    assert(started@.form.len() == started.form@.len());
    assert(started@.form[0] == (started.form@[0].0@, started.form@[0].1@));
    assert(polled@.form.len() == polled.form@.len());
    assert(polled@.form[0] == (polled.form@[0].0@, polled.form@[0].1@));
    assert(polled@.form[1] == (polled.form@[1].0@, polled.form@[1].1@));
    assert(polled@.form[2] == (polled.form@[2].0@, polled.form@[2].1@));
    assert(refreshed@.form.len() == refreshed.form@.len());
    assert(refreshed@.form[0] == (refreshed.form@[0].0@, refreshed.form@[0].1@));
    assert(refreshed@.form[1] == (refreshed.form@[1].0@, refreshed.form@[1].1@));
    assert(refreshed@.form[2] == (refreshed.form@[2].0@, refreshed.form@[2].1@));
}

/// **Every request goes to the configured endpoint, with the configured patience;** only the
/// question for a name presents a token, and that one is a question and not a form.
pub proof fn every_request_goes_to_the_configured_endpoint(
    config: &Config,
    text: &str,
    started: Request,
    polled: Request,
    refreshed: Request,
    named: Request,
)
    requires
        call_ensures(device_code_request, (config,), started),
        call_ensures(poll_request, (config, text), polled),
        call_ensures(refresh_request, (config, text), refreshed),
        call_ensures(userinfo_request, (config, text), named),
    ensures
        started.url@ == config.endpoint@ + "/oauth/device"@,
        polled.url@ == config.endpoint@ + "/oauth/token"@,
        refreshed.url@ == config.endpoint@ + "/oauth/token"@,
        named.url@ == config.endpoint@ + "/oauth/userinfo"@,
        started.method == Method::Post && polled.method == Method::Post && refreshed.method
            == Method::Post && named.method == Method::Get,
        started.bearer is None && polled.bearer is None && refreshed.bearer is None,
        named.bearer is Some && named.bearer->0@ == text@,
        named.form@.len() == 0,
        started.timeout == config.http_timeout && polled.timeout == config.http_timeout
            && refreshed.timeout == config.http_timeout && named.timeout == config.http_timeout,
{
    assert(named@.form.len() == named.form@.len());
}

/// **A client is built with the configured name and five redirects,** and what was built is handed
/// on, or why nothing was.
pub proof fn what_a_client_is_built_with(
    config: &Config,
    settings: ClientSettings,
    built: Result<u8, String>,
    handed: Result<u8, Error>,
)
    requires
        call_ensures(client_settings, (config,), settings),
        call_ensures(built_client::<u8>, (built,), handed),
    ensures
        settings.user_agent@ == config.user_agent@,
        settings.redirects == 5,
        handed is Ok <==> built is Ok,
        built is Ok ==> handed->Ok_0 == built->Ok_0,
        built is Err ==> handed->Err_0@ == ErrorView::Network(
            "could not build HTTP client: "@ + built->Err_0@,
        ),
{
}

// ── what the answers mean ────────────────────────────────────────────────────

/// **A poll that was answered is classified by its token, and then by its error.** `slow_down` is
/// to slow down and `authorization_pending` to wait on, and nothing else is either.
pub proof fn an_answered_poll_is_classified(
    config: &Config,
    reply: Reply<TokenAnswer>,
    poll: Poll,
)
    requires
        call_ensures(poll_token, (config, reply), poll),
    ensures
        ({
            let answered = reply is Read && !(500 <= reply->Read_status <= 599);
            let token = reply->parsed.token;
            let error = reply->parsed.error;
            let code = error->0.error@;
            &&& poll is Token <==> answered && token is Some
            &&& poll matches Poll::Token(brought) ==> {
                &&& brought.access_token@ == token->0.access_token@
                &&& brought@ == token->0@
            }
            &&& poll is Pending <==> answered && token is None && error is Some && code
                == "authorization_pending"@
            &&& poll is SlowDown <==> answered && token is None && error is Some && code
                == "slow_down"@
            &&& poll is Refused <==> answered && token is None && error is Some && code
                != "authorization_pending"@ && code != "slow_down"@
            &&& poll is Inconclusive <==> !answered || token is None && error is None
            &&& poll@ == poll_of(config@, reply)
        }),
{
    crate::promises::what_a_poll_comes_to(config@, reply);
}

/// **An OAuth error says to wait, to wait longer, or that the login is refused, and why.**
pub proof fn an_oauth_error_is_classified(err: &OAuthError, poll: Poll)
    requires
        call_ensures(classify, (err,), poll),
    ensures
        ({
            let code = err.error@;
            let said = if err.error_description is Some {
                err.error_description->0@
            } else {
                code
            };
            &&& poll is Pending <==> code == "authorization_pending"@
            &&& poll is SlowDown <==> code == "slow_down"@
            &&& poll is Refused <==> code != "authorization_pending"@ && code != "slow_down"@
            &&& poll matches Poll::Refused(why) ==> {
                &&& code == "expired_token"@ ==> why@
                    == "the code expired before it was approved — start the login again"@
                &&& code == "access_denied"@ ==> why@ == "the login was refused on Hugging Face"@
                &&& code != "expired_token"@ && code != "access_denied"@ ==> why@
                    == "Hugging Face said "@ + code + ": "@ + said
            }
        }),
{
    crate::promises::what_an_oauth_error_means(err@, None);
}

/// **A status decides a poll exactly if the server is in trouble,** and then it is inconclusive.
pub proof fn a_status_decides_a_poll(config: &Config, status: u16, r: Option<Poll>)
    requires
        call_ensures(poll_status, (config, status), r),
    ensures
        r is Some <==> 500 <= status <= 599,
        r is Some ==> r->0 is Inconclusive,
        r matches Some(Poll::Inconclusive(why)) ==> why@ =~= "POST "@ + config.endpoint@
            + "/oauth/token"@ + ": HTTP "@ + status_text(status),
{
}

/// **A device code comes of an answer that was read, is a success and parses,** with what the
/// server sent kept and what it left out filled in.
pub proof fn a_code_comes_of_a_good_answer(
    config: &Config,
    reply: Reply<Result<DeviceCodeResponse, String>>,
    r: Result<DeviceCode, Error>,
)
    requires
        call_ensures(request_device_code, (config, reply), r),
    ensures
        ({
            let raw = reply->parsed->Ok_0;
            &&& r is Ok <==> reply is Read && 200 <= reply->Read_status <= 299
                && reply->parsed is Ok
            &&& r matches Ok(code) ==> {
                &&& code.device_code@ == raw.device_code@
                &&& code.user_code@ == raw.user_code@
                &&& code.verification_uri@ == raw.verification_uri@
                &&& raw.verification_uri_complete is Some ==> code.verification_uri_complete@
                    == raw.verification_uri_complete->0@
                &&& raw.verification_uri_complete is None ==> code.verification_uri_complete@
                    == raw.verification_uri@
                &&& raw.expires_in is Some ==> code.expires_in == raw.expires_in->0
                &&& raw.expires_in is None ==> code.expires_in == 900
                &&& raw.interval is Some ==> code.interval == raw.interval->0
                &&& raw.interval is None ==> code.interval == 5
            }
            &&& r matches Err(e) ==> e is Network
            &&& result_view(r) == device_code_of(config@, reply)
        }),
{
}

/// **A refresh brings the answer's pair,** whatever the status, and otherwise fails.
pub proof fn a_refresh_brings_the_answers_pair(
    config: &Config,
    reply: Reply<TokenAnswer>,
    r: Result<TokenResponse, Error>,
)
    requires
        call_ensures(refresh, (config, reply), r),
    ensures
        ({
            let token = reply->parsed.token;
            &&& r is Ok <==> reply is Read && token is Some
            &&& r matches Ok(pair) ==> {
                &&& pair.access_token@ == token->0.access_token@
                &&& pair.refresh_token is Some <==> token->0.refresh_token is Some
                &&& pair.refresh_token is Some ==> pair.refresh_token->0@
                    == token->0.refresh_token->0@
                &&& pair.expires_in == token->0.expires_in
            }
            &&& r matches Err(e) ==> e is Network
            &&& result_view(r) == refresh_of(config@, reply)
        }),
{
    if r is Ok {
        let pair = r->Ok_0;
        assert(pair@ == reply->parsed.token->0@);
        assert(pair.access_token@ == pair@.access_token);
        assert(pair.expires_in == pair@.expires_in);
    }
}

/// **A name is the handle where there is one, and else the display name.**
pub proof fn a_name_is_the_handle_first(
    config: &Config,
    reply: Reply<Result<UserInfo, String>>,
    r: Result<String, Error>,
)
    requires
        call_ensures(userinfo, (config, reply), r),
    ensures
        ({
            let success = reply is Read && 200 <= reply->Read_status <= 299 && reply->parsed is Ok;
            let handle = reply->parsed->Ok_0.preferred_username;
            let name = reply->parsed->Ok_0.name;
            &&& r is Ok <==> success && (handle is Some || name is Some)
            &&& r is Ok && handle is Some ==> r->Ok_0@ == handle->0@
            &&& r is Ok && handle is None ==> r->Ok_0@ == name->0@
            &&& r matches Err(e) ==> e is Network
            &&& result_view(r) == username_of(config@, reply)
        }),
{
}

// ── time ─────────────────────────────────────────────────────────────────────

/// **Points in time are nanoseconds, and what is asked of them is arithmetic.**
pub proof fn points_in_time_are_numbers(
    secs: i64,
    nanos: u32,
    at: Moment,
    past: bool,
    away: u64,
    rest: u32,
    stood: Moment,
    wait: u64,
    fits: bool,
    later: Moment,
    is_after: bool,
    span: Span,
)
    requires
        call_ensures(Moment::at, (secs, nanos), at),
        call_ensures(Moment::from_epoch, (past, away, rest), stood),
        call_ensures(Moment::reaches, (&at, wait), fits),
        call_ensures(Moment::plus, (&at, wait), later),
        call_ensures(Moment::is_after, (&later, &stood), is_after),
        call_ensures(Span::from_secs, (wait,), span),
    ensures
        at@ == secs * 1_000_000_000 + nanos,
        away < i64::MAX && rest < 1_000_000_000 ==> stood@ == if past {
            away * 1_000_000_000 + rest
        } else {
            -(away * 1_000_000_000 + rest)
        },
        fits <==> at@ + wait * 1_000_000_000 <= i64::MAX * 1_000_000_000 + 999_999_999,
        later@ == at@ + wait * 1_000_000_000,
        is_after <==> later@ > stood@,
        span.secs == wait && span.nanos == 0,
{
}

/// **Seconds are whole ones:** since the epoch, and until a deadline.
pub proof fn seconds_are_whole_ones(
    now: &Moment,
    deadline: &Moment,
    secs: i64,
    left: Option<u64>,
)
    requires
        call_ensures(Moment::unix_secs, (now,), secs),
        call_ensures(Moment::secs_until, (now, deadline), left),
    ensures
        now@ >= 0 ==> secs * 1_000_000_000 <= now@ < (secs + 1) * 1_000_000_000,
        now@ < 0 ==> secs == 0,
        left is Some <==> now@ <= deadline@,
        left is Some ==> left->0 * 1_000_000_000 <= deadline@ - now@ < (left->0 + 1)
            * 1_000_000_000,
{
}

// ── the record and the file ──────────────────────────────────────────────────

/// **A record holds what was issued, until when, and whose it is.**
pub proof fn a_record_holds_what_was_issued(
    token: TokenResponse,
    now: i64,
    username: Option<String>,
    r: Stored,
)
    requires
        call_ensures(Stored::of, (token, now, username), r),
    ensures
        r.access_token@ == token.access_token@,
        r.refresh_token is Some <==> token.refresh_token is Some,
        r.refresh_token is Some ==> r.refresh_token->0@ == token.refresh_token->0@,
        r.username is Some <==> username is Some,
        r.username is Some ==> r.username->0@ == username->0@,
        r.expires_at is Some <==> token.expires_in is Some,
        r.expires_at is Some ==> r.expires_at->0 == held(now + token.expires_in->0),
{
    assert(r@.access_token == r.access_token@);
    assert(r@.refresh_token is Some <==> r.refresh_token is Some);
    assert(r@.username is Some <==> r.username is Some);
}

/// **What is left of a token, and what a caller is told of it, is the expiry less the time:**
/// negative exactly once it has passed.
pub proof fn what_is_told_of_a_token(record: &Stored, now: i64, left: i64, told: Identity)
    requires
        call_ensures(Stored::expires_in_at, (record, now), left),
        call_ensures(Stored::identity_at, (record, now), told),
    ensures
        told.token_expires_in == left,
        record.expires_at is None ==> left == i64::MAX,
        record.expires_at is Some && now > 0 ==> left == held(record.expires_at->0 - now),
        record.expires_at is Some && now > 0 ==> (left < 0 <==> record.expires_at->0 < now),
        record.expires_at is Some && now <= 0 ==> left < 0,
        record.username is Some ==> told.username@ == record.username->0@,
        record.username is None ==> told.username@ == "unknown"@,
        told.refreshable <==> record.refresh_token is Some,
{
}

/// **Two records are the same if all their fields are,** and a store still holds a record exactly
/// if what is found there is the same.
pub proof fn a_store_still_holds_what_is_found_there(
    store: &FileStore,
    stored: Stored,
    record: &Stored,
    why: String,
    same: bool,
    held_still: bool,
    held_missing: bool,
    held_unparsed: bool,
)
    requires
        call_ensures(Stored::same, (&stored, record), same),
        call_ensures(FileStore::still_holds, (store, Contents::Record(stored), record), held_still),
        call_ensures(FileStore::still_holds, (store, Contents::Missing, record), held_missing),
        call_ensures(FileStore::still_holds, (store, Contents::Unparsed(why), record), held_unparsed),
    ensures
        held_still == same,
        !held_missing,
        !held_unparsed,
        same ==> stored.access_token@ == record.access_token@ && stored.expires_at
            == record.expires_at && (stored.refresh_token is Some <==> record.refresh_token is Some)
            && (stored.username is Some <==> record.username is Some),
        same && stored.refresh_token is Some ==> stored.refresh_token->0@
            == record.refresh_token->0@,
        same && stored.username is Some ==> stored.username->0@ == record.username->0@,
        stored@ == record@ ==> same,
{
    if same {
        assert(stored@ == record@);
        assert(stored@.access_token == stored.access_token@);
        assert(record@.access_token == record.access_token@);
    }
}

/// **A store is private until it is told otherwise:** by a group, which may then read, or by a
/// mode. The path stays.
pub proof fn a_store_is_private_until_told_otherwise(
    path: String,
    group: String,
    mode: u32,
    plain: FileStore,
    shared: FileStore,
    odd: FileStore,
    shown: &String,
)
    requires
        call_ensures(FileStore::at, (path,), plain),
        call_ensures(FileStore::readable_by_group, (plain, group), shared),
        call_ensures(FileStore::mode, (shared, mode), odd),
        call_ensures(FileStore::path, (&odd,), shown),
    ensures
        plain@.path == path@ && plain@.group is None && plain@.mode == 0o600,
        shared@.path == path@ && shared@.group == Some(group@) && shared@.mode == 0o640,
        odd@.path == path@ && odd@.group == Some(group@) && odd@.mode == mode,
        shown@ == path@,
{
}

/// **What is found is what is loaded,** and nothing where nothing was found or nothing parses; and
/// the token is read out of it unless it is empty.
pub proof fn what_is_found_is_loaded(
    store: &FileStore,
    contents: Contents<Stored>,
    loaded: Option<Stored>,
    seen: Contents<Credential>,
    token: Option<String>,
)
    requires
        call_ensures(FileStore::load, (store, contents), loaded),
        call_ensures(read_access_token, (seen,), token),
    ensures
        loaded is Some <==> contents is Record,
        contents matches Contents::Record(record) ==> loaded->0@ == record@,
        token is Some <==> (seen matches Contents::Record(found) && found.access_token@.len() > 0),
        seen matches Contents::Record(found) ==> token is Some ==> token->0@ == found.access_token@,
{
}

/// **What was cleared is named, where it was there and had a name;** that there was nothing is no
/// failure; and a file that stays is one.
pub proof fn what_was_cleared_is_named(
    store: &FileStore,
    contents: Contents<Stored>,
    removed: Removed,
    r: Result<Option<String>, Error>,
)
    requires
        call_ensures(FileStore::clear, (store, contents, removed), r),
    ensures
        r is Ok <==> !(removed is Failed),
        removed is NotFound ==> r->Ok_0 is None,
        removed is Gone && !(contents is Record) ==> r->Ok_0 is None,
        (removed is Gone && contents is Record) ==> {
            let name = contents->Record_0.username;
            &&& r->Ok_0 is Some <==> name is Some
            &&& name is Some ==> r->Ok_0->0@ == name->0@
        },
        removed matches Removed::Failed(why) ==> r->Err_0@ == (ErrorView::Io {
            path: store@.path,
            source: why@,
        }),
{
}

/// **A save begins by removing what is in its way, and writes the bytes it was given;** one whose
/// record could not be encoded ends before it touches anything.
pub proof fn how_a_save_begins(
    store: &FileStore,
    encoded: Result<Vec<u8>, String>,
    r: (Saving, SaveAction),
    bytes: &Vec<u8>,
    temp: String,
)
    requires
        call_ensures(FileStore::save, (store, encoded), r),
        call_ensures(Saving::bytes, (&r.0,), bytes),
        call_ensures(FileStore::temp, (store,), temp),
    ensures
        r.0@.store == store@,
        encoded is Ok ==> r.1 is RemoveTemp && bytes@ == encoded->Ok_0@ && r.0@.phase
            == SavePhase::RemovingTemp,
        encoded is Err ==> r.0@.phase == SavePhase::Finished,
        encoded matches Err(why) ==> r.1@ == crate::store::SaveActionView::Finish(
            Err(ErrorView::Io { path: store@.path, source: why@ }),
        ),
        temp@ != store@.path,
{
}

/// **A save goes on from what it hears,** to where it was told to and with what it was given.
pub proof fn how_a_save_goes_on(saving: &mut Saving, event: SaveEvent, r: SaveAction)
    requires
        call_ensures(Saving::step, (saving, event), r),
    ensures
        final(saving)@.store == old(saving)@.store,
        final(saving)@.bytes == old(saving)@.bytes,
        (final(saving)@.phase, r@) == old(saving)@.next(event@),
        old(saving)@.phase == SavePhase::RemovingTemp && event is Done ==> r
            == SaveAction::Create(0o600),
        old(saving)@.phase == SavePhase::Creating && event is Done ==> r is Write,
        old(saving)@.phase == SavePhase::Writing && event is Done ==> r is SyncFile,
        old(saving)@.phase == SavePhase::SyncingFile && event is Done ==> r is Rename,
        old(saving)@.phase == SavePhase::GivingGroup && event is Done ==> r
            == SaveAction::SetMode(old(saving)@.store.mode),
        old(saving)@.phase == SavePhase::OpeningDir && event is Done ==> r is SyncDir,
{
}

// ── the account ──────────────────────────────────────────────────────────────

/// **An account begins with nothing in flight,** at the store and with the configuration it was
/// given.
pub proof fn an_account_begins_with_nothing_in_flight(
    store: FileStore,
    config: Config,
    r: Account,
    its_store: &FileStore,
    its_config: &Config,
)
    requires
        call_ensures(Account::new, (store, config), r),
        call_ensures(Account::store, (&r,), its_store),
        call_ensures(Account::config, (&r,), its_config),
    ensures
        r@.pending is None && r@.starting is None && r@.last_error is None,
        its_store@ == store@,
        its_config@ == config@,
{
}

/// **When a login starts, it asks for a code as the configured client;** when it is refused,
/// nothing changes.
pub proof fn how_a_login_starts(
    account: &mut Account,
    stored: Option<Stored>,
    force: bool,
    now: Moment,
    r: Result<Request, Error>,
)
    requires
        call_ensures(Account::login, (account, stored, force, now), r),
    ensures
        ({
            let before = old(account)@;
            let after = final(account)@;
            let owned = stored is Some && !force;
            let waits = before.pending is Some && before.pending->0.deadline > now@;
            let busy = before.starting is Some || waits && !force;
            &&& r is Ok <==> !owned && !busy
            &&& r matches Ok(request) ==> {
                &&& request.url@ == before.config.endpoint + "/oauth/device"@
                &&& request.form@.len() == 1
                &&& request.form@[0].0@ == "client_id"@
                &&& request.form@[0].1@ == before.config.client_id
                &&& request.method == Method::Post
                &&& after == AccountView { starting: Some(before.generation), ..before }
            }
            &&& r is Err ==> after == before
            &&& owned ==> r->Err_0 is AlreadySignedIn
            &&& owned && stored->0.username is Some ==> r->Err_0->AlreadySignedIn_0@
                == stored->0.username->0@
            &&& owned && stored->0.username is None ==> r->Err_0->AlreadySignedIn_0@
                == "another account"@
            &&& !owned && busy ==> r->Err_0 is LoginInFlight
        }),
{
    if r is Ok {
        let request = r->Ok_0;
        assert(request@.form.len() == request.form@.len());
        assert(request@.form[0] == (request.form@[0].0@, request.form@[0].1@));
    }
}

/// **An answered login shows its code and starts its flow;** one that was withdrawn, or was
/// answered with a failure, does neither, and lets the next one start.
pub proof fn how_a_login_is_answered(
    account: &mut Account,
    answer: Result<DeviceCode, Error>,
    now: Moment,
    ticks: Moment,
    r: Result<(LoginCode, Flow), Error>,
)
    requires
        call_ensures(Account::login_answered, (account, answer, now, ticks), r),
    ensures
        ({
            let before = old(account)@;
            let after = final(account)@;
            let starts = before.starting == Some(before.generation);
            &&& r is Ok <==> answer is Ok && starts
            &&& after.starting is None
            &&& after.store == before.store
            &&& after.config == before.config
            &&& after.holder == before.holder
            &&& (r is Ok && before.generation < u64::MAX) ==> {
                let code = answer->Ok_0;
                let shown = r->Ok_0.0;
                let flow = r->Ok_0.1@;
                &&& shown.user_code@ == code.user_code@
                &&& shown.verification_uri@ == code.verification_uri@
                &&& shown.verification_uri_complete@ == code.verification_uri_complete@
                &&& shown.expires_in == code.expires_in
                &&& shown.interval == code.interval
                &&& after.pending is Some
                &&& after.pending->0.login == shown@
                &&& after.pending->0.deadline == now@ + code.expires_in * 1_000_000_000
                &&& after.generation == before.generation + 1
                &&& after.last_error is None
                &&& flow.generation == after.generation
                &&& flow.code == code@
                &&& flow.deadline == ticks@ + code.expires_in * 1_000_000_000
                &&& flow.phase is Sleeping
                &&& flow.interval >= 1 && flow.interval >= code.interval
            }
            &&& r is Err ==> after == AccountView { starting: None, ..before }
            &&& answer is Err ==> r->Err_0 == answer->Err_0
            &&& answer is Ok && !starts ==> r->Err_0@ == ErrorView::Network(
                "the robot was signed out before the login got its code"@,
            )
        }),
{
}

/// **A sign-out disowns what is in flight, and forgets it once the store is cleared;** a login
/// that is given up lets the next one start, and nothing else.
pub proof fn how_a_sign_out_goes(
    account: &mut Account,
    told: &mut Account,
    given_up: &mut Account,
    cleared: Result<Option<String>, Error>,
    r: Result<Option<String>, Error>,
)
    requires
        call_ensures(Account::logout, (account,), ()),
        call_ensures(Account::logged_out, (told, cleared), r),
        call_ensures(Account::login_abandoned, (given_up,), ()),
    ensures
        final(account)@.generation != old(account)@.generation,
        final(account)@.holder != old(account)@.holder,
        final(account)@.pending == old(account)@.pending,
        final(account)@.last_error == old(account)@.last_error,
        r == cleared,
        cleared is Ok ==> final(told)@ == (AccountView {
            pending: None,
            last_error: None,
            ..old(told)@
        }),
        cleared is Err ==> final(told)@ == old(told)@,
        final(given_up)@ == (AccountView { starting: None, ..old(given_up)@ }),
{
}

/// **`status` shows whose the robot is and for how long, the login in flight with the time that is
/// left to it, and what last failed.**
pub proof fn what_status_shows(account: &Account, stored: Option<Stored>, now: Moment, r: Status)
    requires
        call_ensures(Account::status, (account, stored, now), r),
        EARLIEST <= now@ <= LATEST,
        account@.pending is Some ==> account@.pending->0.deadline <= LATEST,
    ensures
        ({
            let pending = account@.pending->0;
            let second = now@ / 1_000_000_000;
            &&& r.account is Some <==> stored is Some
            &&& r.account matches Some(told) ==> {
                let record = stored->0;
                &&& record.username is Some ==> told.username@ == record.username->0@
                &&& record.username is None ==> told.username@ == "unknown"@
                &&& told.refreshable <==> record.refresh_token is Some
                &&& record.expires_at is None ==> told.token_expires_in == i64::MAX
                &&& record.expires_at is Some && second > 0 ==> told.token_expires_in == held(
                    record.expires_at->0 - second,
                )
                &&& record.expires_at is Some && second <= 0 ==> told.token_expires_in < 0
            }
            &&& r.login is Some <==> account@.pending is Some && now@ <= pending.deadline
            &&& r.login matches Some(shown) ==> {
                &&& shown.user_code@ == pending.login.user_code
                &&& shown.verification_uri@ == pending.login.verification_uri
                &&& shown.verification_uri_complete@ == pending.login.verification_uri_complete
                &&& shown.interval == pending.login.interval
                &&& shown.expires_in * 1_000_000_000 <= pending.deadline - now@
                &&& pending.deadline - now@ < (shown.expires_in + 1) * 1_000_000_000
            }
            &&& r.last_error is Some <==> account@.last_error is Some
            &&& r.last_error is Some ==> r.last_error->0@ == account@.last_error->0
        }),
{
    let stored_view = crate::text::opt_view(stored);
    crate::promises::status_says_what_is(account@, stored_view, now@);
    assert(r@ == account@.status(stored_view, now@));
    assert(r@.account is Some <==> r.account is Some);
    assert(r@.login is Some <==> r.login is Some);
    assert(r@.last_error is Some <==> r.last_error is Some);
    if stored is Some {
        assert(stored_view->0 == stored->0@);
        assert(r@.account->0 == r.account->0@);
    }
    if r.login is Some {
        assert(r@.login->0 == r.login->0@);
    }
}

// ── waiting for approval ─────────────────────────────────────────────────────

/// **A flow goes on from what it hears.** It polls while its code is good, waits on as long as it
/// is told to, asks whose a token is, and stores it with its absolute expiry — as long as it is
/// current; and where it is not, it stops, and takes back what it was storing.
pub proof fn how_a_flow_goes_on(
    account: &mut Account,
    flow: &mut Flow,
    event: FlowEvent,
    r: FlowAction,
)
    requires
        call_ensures(Account::wait_for_approval, (account, flow, event), r),
        old(flow)@.accepts(event@),
    ensures
        ({
            let before = old(account)@;
            let after = final(account)@;
            let was = old(flow)@;
            let is = final(flow)@;
            let current = before.generation == was.generation;
            &&& is.generation == was.generation
            &&& is.code == was.code
            &&& is.deadline == was.deadline
            &&& !current ==> after == before
            &&& event matches FlowEvent::Woke(now) ==> {
                &&& now@ < was.deadline ==> r is Poll && r@->Poll_0.form[2].1
                    == was.code.device_code && r@->Poll_0.form[1].1 == before.config.client_id
                &&& now@ >= was.deadline ==> r is Stop
                &&& now@ >= was.deadline && current ==> after.pending is None && after.last_error
                    == Some("the code expired before it was approved"@)
            }
            &&& event matches FlowEvent::Polled(poll) ==> {
                &&& poll is Pending || poll is Inconclusive ==> r == FlowAction::Sleep(was.interval)
                &&& poll is SlowDown ==> r is Sleep && r->Sleep_0 == was.interval + 5
                    && is.interval == was.interval + 5
                &&& poll is Refused || poll is Token && !current ==> r is Stop
                &&& poll matches Poll::Refused(why) ==> current ==> after.pending is None
                    && after.last_error == Some(why@)
                &&& poll matches Poll::Token(token) ==> current ==> {
                    &&& r is AskName
                    &&& r@->AskName_0.bearer == Some(token.access_token@)
                    &&& is.phase == crate::account::PhaseView::Naming((*token)@)
                }
            }
            &&& event matches FlowEvent::Named(name, now) ==> {
                let token = was.phase->Naming_0;
                &&& !current ==> r is Stop
                &&& current ==> r is Save
                &&& r matches FlowAction::Save(kept) ==> {
                    &&& kept@.access_token == token.access_token
                    &&& kept@.refresh_token == token.refresh_token
                    &&& kept.expires_at is Some <==> token.expires_in is Some
                    &&& token.expires_in is Some ==> kept.expires_at->0 == held(
                        now + token.expires_in->0,
                    )
                    &&& name is Ok ==> kept@.username == Some(name->Ok_0@)
                    &&& name is Err ==> kept@.username is None
                }
            }
            &&& event matches FlowEvent::Saved(saved) ==> {
                &&& current ==> r is Stop && after.pending is None
                &&& current && saved is Ok ==> after.last_error is None
                &&& current && saved is Err ==> after.last_error == Some(saved->Err_0@.message())
                &&& !current ==> r is Discard && r@->Discard_0 == was.phase->Saving_0
            }
            &&& event is Discarded ==> r is Stop && after == before
        }),
{
    if let FlowEvent::Named(_, _) = event {
        if let FlowAction::Save(kept) = r {
            assert(kept@.expires_at == kept.expires_at);
        }
    }
}

/// **A flow begins with a wait, of its interval.**
pub proof fn how_a_flow_begins(
    flow: &Flow,
    code: &DeviceCode,
    generation: u64,
    first: FlowAction,
    account: &Account,
    number: u64,
    current: bool,
    holds: bool,
)
    requires
        call_ensures(Flow::code, (flow,), code),
        call_ensures(Flow::generation, (flow,), generation),
        call_ensures(Flow::first, (flow,), first),
        call_ensures(Account::is_current, (account, number), current),
        call_ensures(Account::is_held_by, (account, number), holds),
    ensures
        code@ == flow@.code,
        generation == flow@.generation,
        first == FlowAction::Sleep(flow@.interval),
        current <==> account@.generation == number,
        holds <==> account@.holder == number,
{
}

// ── keeping the token fresh ──────────────────────────────────────────────────

/// **A token is renewed when it can be, expires, and has less left than was configured;** then its
/// refresh token is offered, as the configured client. It is named when it has no name.
pub proof fn when_upkeep_asks(
    account: &Account,
    record: Stored,
    now: i64,
    renewal: (Renewal, UpkeepAction),
    naming: (Naming, UpkeepAction),
    idle: (Renewal, UpkeepAction),
    nameless: (Naming, UpkeepAction),
)
    requires
        call_ensures(Account::refresh_if_due, (account, Some(record), now), renewal),
        call_ensures(Account::name_if_unknown, (account, Some(record)), naming),
        call_ensures(Account::refresh_if_due, (account, None::<Stored>, now), idle),
        call_ensures(Account::name_if_unknown, (account, None::<Stored>), nameless),
        now > 0,
    ensures
        ({
            let limit = account@.config.refresh_when_under;
            let due = record.refresh_token is Some && record.expires_at is Some && held(
                record.expires_at->0 - now,
            ) * 1_000_000_000 < limit.secs * 1_000_000_000 + limit.nanos;
            &&& renewal.1 is Send <==> due
            &&& due ==> {
                &&& renewal.1@->Send_0.url == account@.config.endpoint + "/oauth/token"@
                &&& renewal.1@->Send_0.form[0].1 == "refresh_token"@
                &&& renewal.1@->Send_0.form[1].1 == account@.config.client_id
                &&& renewal.1@->Send_0.form[2].1 == record.refresh_token->0@
                &&& renewal.0@.holder == account@.holder
                &&& renewal.0@.phase == UpkeepPhase::Asking
                &&& renewal.0@.username is Some <==> record.username is Some
                &&& record.username is Some ==> renewal.0@.username->0 == record.username->0@
            }
            &&& !due ==> renewal.1 == UpkeepAction::Finish(Ok(false))
            &&& naming.1 is Send <==> record.username is None
            &&& record.username is None ==> {
                &&& naming.1@->Send_0.url == account@.config.endpoint + "/oauth/userinfo"@
                &&& naming.1@->Send_0.bearer == Some(record.access_token@)
                &&& naming.0@.holder == account@.holder
                &&& naming.0@.record == Some(record@)
            }
            &&& record.username is Some ==> naming.1 == UpkeepAction::Finish(Ok(false))
            &&& idle.1 == UpkeepAction::Finish(Ok(false))
            &&& nameless.1 == UpkeepAction::Finish(Ok(false))
        }),
{
    let some = Some(record);
    assert(crate::text::opt_view(some) == Some(record@));
    assert(record@.expires_at == record.expires_at);
    assert(record@.refresh_token is Some <==> record.refresh_token is Some);
    assert(record@.username is Some <==> record.username is Some);
    crate::promises::when_a_token_is_renewed(account@.config, record@, now);
}

/// **What a renewal stores has the answer's tokens and expiry, and the name that was there;** a
/// failure is reported, and what is no longer wanted is not written, or taken back.
pub proof fn how_a_renewal_is_stepped(
    renewal: &mut Renewal,
    account: &Account,
    event: RenewalEvent,
    r: UpkeepAction,
)
    requires
        call_ensures(Renewal::step, (renewal, account, event), r),
    ensures
        ({
            let was = old(renewal)@;
            let is = final(renewal)@;
            let current = account@.holder == was.holder;
            &&& is.holder == was.holder
            &&& is.username == was.username
            &&& event matches RenewalEvent::Answered(Err(e), _) ==> r@
                == crate::account::UpkeepActionView::Finish(Err(e@))
            &&& event matches RenewalEvent::Answered(Ok(token), now) ==> {
                &&& r is Save <==> current
                &&& !current ==> r == UpkeepAction::Finish(Ok(false))
                &&& r matches UpkeepAction::Save(kept) ==> {
                    &&& kept@.access_token == token.access_token@
                    &&& kept@.refresh_token == token@.refresh_token
                    &&& kept@.username == was.username
                    &&& kept.expires_at is Some <==> token.expires_in is Some
                    &&& token.expires_in is Some ==> kept.expires_at->0 == held(
                        now + token.expires_in->0,
                    )
                }
            }
            &&& event matches RenewalEvent::Saved(saved) ==> {
                &&& current && saved is Ok ==> r == UpkeepAction::Finish(Ok(true))
                &&& current && saved is Err ==> r@ == crate::account::UpkeepActionView::Finish(
                    Err(saved->Err_0@),
                )
                &&& !current ==> r is Discard && r@->Discard_0 == was.record->0
            }
            &&& event is Discarded && was.fault is None ==> r == UpkeepAction::Finish(Ok(false))
            &&& event is Discarded && was.fault is Some ==> r@
                == crate::account::UpkeepActionView::Finish(Err(was.fault->0))
        }),
{
    if let RenewalEvent::Answered(Ok(token), now) = event {
        assert(token@.access_token == token.access_token@);
        assert(token@.expires_in == token.expires_in);
        if let UpkeepAction::Save(kept) = r {
            assert(kept@.expires_at == kept.expires_at);
        }
    }
}

/// **What a name is written into is the record it was missing from,** and nothing else of it
/// changes; a failure is reported, and what is no longer wanted is not written, or taken back.
pub proof fn how_a_name_is_stepped(
    naming: &mut Naming,
    account: &Account,
    event: NamingEvent,
    r: UpkeepAction,
)
    requires
        call_ensures(Naming::step, (naming, account, event), r),
    ensures
        ({
            let was = old(naming)@;
            let is = final(naming)@;
            let current = account@.holder == was.holder;
            &&& is.holder == was.holder
            &&& event matches NamingEvent::Answered(Err(e)) ==> r@
                == crate::account::UpkeepActionView::Finish(Err(e@))
            &&& event matches NamingEvent::Answered(Ok(name)) ==> {
                &&& r is Save <==> current
                &&& !current ==> r == UpkeepAction::Finish(Ok(false))
                &&& r matches UpkeepAction::Save(kept) ==> kept@ == (StoredView {
                    username: Some(name@),
                    ..was.record->0
                })
            }
            &&& event matches NamingEvent::Saved(saved) ==> {
                &&& current && saved is Ok ==> r == UpkeepAction::Finish(Ok(true))
                &&& current && saved is Err ==> r@ == crate::account::UpkeepActionView::Finish(
                    Err(saved->Err_0@),
                )
                &&& !current ==> r is Discard && r@->Discard_0 == was.record->0
            }
            &&& event is Discarded && was.fault is None ==> r == UpkeepAction::Finish(Ok(false))
            &&& event is Discarded && was.fault is Some ==> r@
                == crate::account::UpkeepActionView::Finish(Err(was.fault->0))
        }),
{
}

/// **A pass renews, names and sleeps, in that order and whatever each came to,** and remembers why
/// a renewal failed until one works.
pub proof fn how_a_pass_goes(account: &mut Account, event: MaintainEvent, r: MaintainAction)
    requires
        call_ensures(maintain, (account, event), r),
    ensures
        r == MaintainAction::Refresh <==> event is Woke,
        r == MaintainAction::Name <==> event is Refreshed,
        r is Sleep <==> event is Named,
        r is Sleep ==> r->Sleep_0 == old(account)@.config.maintain_interval,
        final(account)@ == (AccountView {
            last_error: final(account)@.last_error,
            ..old(account)@
        }),
        event matches MaintainEvent::Refreshed(Err(e)) ==> final(account)@.last_error == Some(
            e@.message(),
        ),
        event matches MaintainEvent::Refreshed(Ok(wrote)) ==> final(account)@.last_error == if wrote {
            None
        } else {
            old(account)@.last_error
        },
        !(event is Refreshed) ==> final(account)@.last_error == old(account)@.last_error,
{
}

/// **What is accepted is what is waited for:** `accepts` and `can_answer` say so before a call.
pub proof fn what_is_accepted_is_what_is_waited_for(
    flow: &Flow,
    heard: &FlowEvent,
    a: bool,
    renewal: &Renewal,
    answered: &RenewalEvent,
    b: bool,
    naming: &Naming,
    told: &NamingEvent,
    c: bool,
    saving: &Saving,
    done: &SaveEvent,
    d: bool,
)
    requires
        call_ensures(Flow::accepts, (flow, heard), a),
        call_ensures(Renewal::accepts, (renewal, answered), b),
        call_ensures(Naming::accepts, (naming, told), c),
        call_ensures(Saving::accepts, (saving, done), d),
    ensures
        a <==> flow@.accepts(heard@),
        b <==> renewal@.accepts(answered@),
        c <==> naming@.accepts(told@),
        d <==> saving@.phase != SavePhase::Finished && (done is Group <==> saving@.phase
            == SavePhase::FindingGroup),
{
}

/// **A login can be made of an answer whose time both clocks can count,** while there are numbers
/// and nothing has withdrawn it; anything else is answered without.
pub proof fn what_can_be_answered(
    account: &Account,
    answer: &Result<DeviceCode, Error>,
    now: &Moment,
    ticks: &Moment,
    r: bool,
)
    requires
        call_ensures(Account::can_answer, (account, answer, now, ticks), r),
    ensures
        answer is Err ==> r,
        account@.starting != Some(account@.generation) ==> r,
        (answer is Ok && account@.starting == Some(account@.generation)) ==> (r <==> {
            let last = i64::MAX * 1_000_000_000 + 999_999_999;
            &&& account@.generation < u64::MAX
            &&& now@ + answer->Ok_0.expires_in * 1_000_000_000 <= last
            &&& ticks@ + answer->Ok_0.expires_in * 1_000_000_000 <= last
        }),
{
}

/// **Seen from whatever the clock shows, a token has less left than its whole expiry,** and the
/// most there is if it has none.
pub proof fn what_is_left_by_the_clock(record: &Stored, left: i64, told: Identity)
    requires
        call_ensures(Stored::expires_in, (record,), left),
        call_ensures(Stored::identity, (record,), told),
    ensures
        record.expires_at is None ==> left == i64::MAX && told.token_expires_in == i64::MAX,
        record.expires_at is Some ==> left < 0 || left < record.expires_at->0,
        record.expires_at is Some ==> told.token_expires_in < 0 || told.token_expires_in
            < record.expires_at->0,
        record.username is Some ==> told.username@ == record.username->0@,
        record.username is None ==> told.username@ == "unknown"@,
        told.refreshable <==> record.refresh_token is Some,
{
    let now = choose|now: i64| now >= 0 && left == #[trigger] record@.expires_in(now);
    assert(record@.expires_at == record.expires_at);
    crate::promises::what_is_left_of_a_token(record@, now, now);
    let then = choose|then: i64| then >= 0 && told@ == #[trigger] record@.identity(then);
    crate::promises::what_a_caller_is_told_of_a_credential(record@, then);
}

/// **The defaults are Hugging Face, and a robot out of the box is nobody's.**
pub proof fn what_the_defaults_are(config: Config, status: Status)
    requires
        call_ensures(<Config as Default>::default, (), config),
        call_ensures(<Status as Default>::default, (), status),
    ensures
        config.endpoint@ == "https://huggingface.co"@,
        config@ == ConfigView::at("https://huggingface.co"@),
        status.account is None && status.login is None && status.last_error is None,
{
    assert(status@.account is Some <==> status.account is Some);
    assert(status@.login is Some <==> status.login is Some);
    assert(status@.last_error is Some <==> status.last_error is Some);
}

/// **The temporary file has the extension `tmp`, or that behind its name.**
pub proof fn what_the_temporary_file_is_called(store: &FileStore, temp: String)
    requires
        call_ensures(FileStore::temp, (store,), temp),
    ensures
        ({
            let swapped = crate::store::path_with_extension(store@.path, "tmp"@);
            &&& swapped != store@.path ==> temp@ == swapped
            &&& swapped == store@.path ==> temp@ == store@.path + ".tmp"@
        }),
{
}

} // verus!
