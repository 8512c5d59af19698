//! The part that owns the waiting.
//!
//! A device flow is four HTTP requests and a loop, and [`crate::oauth`] has the requests. What is
//! here is everything that follows from the loop outliving the call that started it: a login
//! answers with a code and a caller comes back later, so *something* has to hold the flow, refuse
//! a second one, and be able to disown one that has been replaced.
//!
//! Each operation is a conversation. The account says what to ask of the network, the disk or the
//! clock, whoever runs it does that without holding the account, and hands the answer back. What
//! the store holds is read, and written, with nobody else at it: the rest of the robot may change
//! while a request is out, and each conversation asks again whether it is still wanted.

use crate::config::{Config, ConfigView};
use crate::error::{Error, ErrorView};
use crate::oauth::{device_code_request, poll_request, refresh_request, userinfo_request, DeviceCode, DeviceCodeView, Poll, PollView, Request, RequestView, TokenResponse, TokenView};
use crate::status::{LoginCode, LoginCodeView, Status, StatusView};
use crate::store::{FileStore, FileStoreView, Stored, StoredView};
use crate::text::{copy_opt, opt_view, result_view};
use crate::time::{reaches, secs_at, secs_left, Moment, Span, NANOS_PER_SEC};
use vstd::prelude::*;
use vstd::string::*;

verus! {

// ── the account ──────────────────────────────────────────────────────────────

/// A login in flight.
#[derive(Debug)]
struct Pending {
    login: LoginCode,
    /// When the code stops being good for anything, so `status` can count down.
    deadline: Moment,
}

/// A login in flight: the code to show, and when it stops being good for anything.
pub struct PendingView {
    pub login: LoginCodeView,
    pub deadline: int,
}

impl View for Pending {
    type V = PendingView;

    closed spec fn view(&self) -> PendingView {
        PendingView { login: self.login@, deadline: self.deadline@ }
    }
}

/// The account, as the four operations on it see it.
#[derive(Debug)]
pub struct Account {
    store: FileStore,
    config: Config,
    pending: Option<Pending>,
    /// Which login is the current one.
    ///
    /// A flow outlives the call that started it, and two things can happen to it while it waits:
    /// a forced login starts another, or `logout` says the robot belongs to nobody. In both cases
    /// the old flow is still holding a device code Hugging Face will happily approve, and without
    /// this it would write that approval to the store. Each flow carries the number it was
    /// started with and does nothing at all if it is no longer the current one.
    generation: u64,
    /// Which holder this robot has: the next one each time it is signed out, and each time an
    /// approval goes to the store.
    ///
    /// A renewal, and a question for a name, outlive the call that started them too. Each carries
    /// the number of the holder it was started for, and writes nothing for a later one. Not
    /// `generation`: a login that merely waits for its approval must not cost the account that is
    /// there the token it was just issued.
    holder: u64,
    /// The login that is between its first check and the code it asked for, by the number that
    /// was current then. A `logout` in between changes that, and the code is not waited for.
    ///
    /// Two callers arriving together would both see no login in flight, both ask Hugging Face for
    /// a code, and both start a flow; the store would then hold whichever approval landed last.
    starting: Option<u64>,
    last_error: Option<String>,
}

/// An [`Account`], with its texts as sequences of characters.
pub struct AccountView {
    pub store: FileStoreView,
    pub config: ConfigView,
    /// The login in flight.
    pub pending: Option<PendingView>,
    /// The number of the login that is current.
    pub generation: u64,
    /// The number of the robot's holder.
    pub holder: u64,
    /// The login between its first check and the code it asked for, by the number that was
    /// current then.
    pub starting: Option<u64>,
    /// Why the last thing that failed, failed.
    pub last_error: Option<Seq<char>>,
}

impl View for Account {
    type V = AccountView;

    closed spec fn view(&self) -> AccountView {
        AccountView {
            store: self.store@,
            config: self.config@,
            pending: opt_view(self.pending),
            generation: self.generation,
            holder: self.holder,
            starting: self.starting,
            last_error: opt_view(self.last_error),
        }
    }
}

impl AccountView {
    /// Whether a login may start: not over an account the robot already belongs to and not over
    /// a code that is still good, unless forced; and never while another is being started.
    pub open spec fn login_gate(self, stored: Option<StoredView>, force: bool, now: int) -> Result<
        (),
        ErrorView,
    > {
        if stored is Some && !force {
            Err(
                ErrorView::AlreadySignedIn(
                    match stored->0.username {
                        Some(who) => who,
                        None => "another account"@,
                    },
                ),
            )
        } else if self.starting is Some {
            Err(ErrorView::LoginInFlight)
        } else if !force && self.pending is Some && self.pending->0.deadline > now {
            Err(ErrorView::LoginInFlight)
        } else {
            Ok(())
        }
    }

    /// The account once a device code has come back: a login in flight, under the next number,
    /// and nothing to complain of.
    pub open spec fn with_login(self, code: DeviceCodeView, now: int) -> AccountView {
        AccountView {
            pending: Some(
                PendingView {
                    login: login_of(code),
                    deadline: now + code.expires_in * NANOS_PER_SEC,
                },
            ),
            generation: (self.generation + 1) as u64,
            starting: None,
            last_error: None,
            ..self
        }
    }

    /// Whether the login that is being started is one that nothing has withdrawn since.
    pub open spec fn starts(self) -> bool {
        self.starting == Some(self.generation)
    }

    /// The account once a flow has come to its end: no login in flight, and why it failed if it
    /// did.
    pub open spec fn settled(self, failure: Option<Seq<char>>) -> AccountView {
        AccountView { pending: None, last_error: failure, ..self }
    }

    /// The account that no flow, no renewal and no question for a name started before now is
    /// current in.
    pub open spec fn superseded(self) -> AccountView {
        AccountView { generation: next_number(self.generation), ..self.handed_over() }
    }

    /// The account that no renewal and no question for a name started before now is current in.
    pub open spec fn handed_over(self) -> AccountView {
        AccountView { holder: next_number(self.holder), ..self }
    }

    /// What [`Account::status`] answers.
    pub open spec fn status(self, stored: Option<StoredView>, now: int) -> StatusView {
        StatusView {
            account: match stored {
                Some(record) => Some(record.identity(secs_at(now) as i64)),
                None => None,
            },
            login: match self.pending {
                Some(pending) => match secs_left(now, pending.deadline) {
                    Some(left) => Some(LoginCodeView { expires_in: left as u64, ..pending.login }),
                    None => None,
                },
                None => None,
            },
            last_error: self.last_error,
        }
    }
}

/// The number after another, of which there are as many as sixty-four bits hold.
pub open spec fn next_number(n: u64) -> u64 {
    if n == u64::MAX {
        0
    } else {
        (n + 1) as u64
    }
}

/// What is said of a login whose code came after the robot was signed out under it.
pub const WITHDRAWN: &'static str = "the robot was signed out before the login got its code";

/// What of a device code is shown.
pub open spec fn login_of(code: DeviceCodeView) -> LoginCodeView {
    LoginCodeView {
        user_code: code.user_code,
        verification_uri: code.verification_uri,
        verification_uri_complete: code.verification_uri_complete,
        expires_in: code.expires_in,
        interval: code.interval,
    }
}

impl Account {
    /// An account that belongs to whoever the store says, with no login in flight.
    pub fn new(store: FileStore, config: Config) -> (r: Account)
        ensures
            r@ == (AccountView {
                store: store@,
                config: config@,
                pending: None,
                generation: 0,
                holder: 0,
                starting: None,
                last_error: None,
            }),
    {
        Account {
            store,
            config,
            pending: None,
            generation: 0,
            holder: 0,
            starting: None,
            last_error: None,
        }
    }

    /// Where the credential lives.
    pub fn store(&self) -> (r: &FileStore)
        ensures
            r@ == self@.store,
    {
        &self.store
    }

    /// What this account was configured with.
    pub fn config(&self) -> (r: &Config)
        ensures
            r@ == self@.config,
    {
        &self.config
    }

    /// Start a device-code login: the request to send for a code, or why not.
    ///
    /// `stored` is what the store holds, `now` what the clock shows. From here until
    /// [`Account::login_answered`] or [`Account::login_abandoned`] no other login starts.
    ///
    /// `force` is what it takes to replace an account the robot already belongs to, **and** to
    /// abandon a code nobody is going to approve. The second matters more than it looks: without
    /// it, a login somebody started and walked away from holds the robot for the life of the
    /// code, and the only remedy is `logout` — which destroys a working credential to clear a
    /// pending one.
    pub fn login(&mut self, stored: Option<Stored>, force: bool, now: Moment) -> (r: Result<
        Request,
        Error,
    >)
        ensures
            match old(self)@.login_gate(opt_view(stored), force, now@) {
                Ok(_) => {
                    &&& r is Ok
                    &&& r->Ok_0@ == RequestView::device_code(old(self)@.config)
                    &&& final(self)@ == AccountView {
                        starting: Some(old(self)@.generation),
                        ..old(self)@
                    }
                },
                Err(e) => {
                    &&& r is Err
                    &&& r->Err_0@ == e
                    &&& final(self)@ == old(self)@
                },
            },
    {
        if let Some(record) = stored {
            if !force {
                let who = match record.username {
                    Some(who) => who,
                    None => "another account".to_owned(),
                };
                return Err(Error::AlreadySignedIn(who));
            }
        }
        if self.starting.is_some() {
            return Err(Error::LoginInFlight);
        }
        if !force {
            if let Some(pending) = &self.pending {
                if pending.deadline.is_after(&now) {
                    return Err(Error::LoginInFlight);
                }
            }
        }
        let request = device_code_request(&self.config);
        self.starting = Some(self.generation);
        Ok(request)
    }

    /// Whether the answer to a login's request is one that a login can be made of: its code runs
    /// out at a point both clocks can show, and there is a number left to give it.
    pub fn can_answer(&self, answer: &Result<DeviceCode, Error>, now: &Moment, ticks: &Moment) -> (r:
        bool)
        ensures
            r == answerable(self@, result_view(*answer), now@, ticks@),
    {
        match answer {
            Ok(code) => !self.is_starting() || self.generation < u64::MAX && now.reaches(
                code.expires_in,
            ) && ticks.reaches(code.expires_in),
            Err(_) => true,
        }
    }

    fn is_starting(&self) -> (r: bool)
        ensures
            r == self@.starts(),
    {
        match self.starting {
            Some(generation) => generation == self.generation,
            None => false,
        }
    }

    /// The answer to a login's request: the code to show somebody, and the flow that waits for
    /// its approval. A login that was withdrawn by a `logout` meanwhile has neither.
    ///
    /// `now` is what the clock shows, `ticks` what the clock the flow sleeps by shows.
    pub fn login_answered(
        &mut self,
        answer: Result<DeviceCode, Error>,
        now: Moment,
        ticks: Moment,
    ) -> (r: Result<(LoginCode, Flow), Error>)
        requires
            answerable(old(self)@, result_view(answer), now@, ticks@),
        ensures
            match answer {
                Ok(code) => if old(self)@.starts() {
                    &&& r is Ok
                    &&& r->Ok_0.0@ == login_of(code@)
                    &&& r->Ok_0.1@ == FlowView::started(
                        code@,
                        (old(self)@.generation + 1) as u64,
                        ticks@,
                    )
                    &&& final(self)@ == old(self)@.with_login(code@, now@)
                } else {
                    &&& r is Err
                    &&& r->Err_0@ == ErrorView::Network(WITHDRAWN@)
                    &&& final(self)@ == AccountView { starting: None, ..old(self)@ }
                },
                Err(e) => {
                    &&& r == Err::<(LoginCode, Flow), Error>(e)
                    &&& final(self)@ == AccountView { starting: None, ..old(self)@ }
                },
            },
    {
        let starts = self.is_starting();
        self.starting = None;
        match answer {
            Ok(code) => {
                if !starts {
                    return Err(Error::Network(WITHDRAWN.to_owned()));
                }
                let login = LoginCode {
                    user_code: code.user_code.clone(),
                    verification_uri: code.verification_uri.clone(),
                    verification_uri_complete: code.verification_uri_complete.clone(),
                    expires_in: code.expires_in,
                    interval: code.interval,
                };
                // Claimed before the old flow can be told it has been replaced, so there is no
                // instant in which two flows both believe they are current.
                self.generation = self.generation + 1;
                self.pending = Some(
                    Pending { login: login.clone(), deadline: now.plus(code.expires_in) },
                );
                self.last_error = None;
                let flow = Flow::started(code, self.generation, ticks);
                Ok((login, flow))
            },
            Err(e) => Err(e),
        }
    }

    /// A login that was given up before its request was answered.
    pub fn login_abandoned(&mut self)
        ensures
            final(self)@ == (AccountView { starting: None, ..old(self)@ }),
    {
        self.starting = None;
    }

    /// Whether the flow started as `generation` is still the one this robot is waiting on.
    pub fn is_current(&self, generation: u64) -> (r: bool)
        ensures
            r == (self@.generation == generation),
    {
        self.generation == generation
    }

    /// Who this robot belongs to, and whether a login is in flight.
    ///
    /// `stored` is what the store holds. No network call, so it stays answerable on a robot whose
    /// wifi has gone — and can be polled during a login without queueing behind one. The code's
    /// remaining life rather than its whole one: a client polling this wants a countdown.
    pub fn status(&self, stored: Option<Stored>, now: Moment) -> (r: Status)
        ensures
            r@ == self@.status(opt_view(stored), now@),
    {
        let account = match stored {
            Some(record) => Some(record.identity_at(now.unix_secs())),
            None => None,
        };
        let login = match &self.pending {
            Some(pending) => match now.secs_until(&pending.deadline) {
                Some(left) => {
                    let login = pending.login.clone();
                    Some(LoginCode { expires_in: left, ..login })
                },
                None => None,
            },
            None => None,
        };
        Status { account, login, last_error: copy_opt(&self.last_error) }
    }

    /// Forget the account, first half: no login, no renewal and no question for a name started
    /// before now is current any more.
    ///
    /// Before the file goes, so a flow that is approved meanwhile sees itself superseded rather
    /// than writing a token into a robot that has just been signed out. What follows is clearing
    /// the store, and [`Account::logged_out`].
    ///
    /// **Forgets rather than revokes.** The token itself stays valid at Hugging Face until it
    /// expires, for anything that read the file while it was there.
    pub fn logout(&mut self)
        ensures
            final(self)@ == old(self)@.superseded(),
    {
        self.generation = self.generation.wrapping_add(1);
        self.holder = self.holder.wrapping_add(1);
    }

    /// Forget the account, second half: a login in flight is abandoned with it. Returns who it
    /// was. `cleared` is what clearing the store gave.
    pub fn logged_out(&mut self, cleared: Result<Option<String>, Error>) -> (r: Result<
        Option<String>,
        Error,
    >)
        ensures
            r == cleared,
            final(self)@ == (match cleared {
                Ok(_) => old(self)@.settled(None),
                Err(_) => old(self)@,
            }),
    {
        if cleared.is_ok() {
            self.pending = None;
            self.last_error = None;
        }
        cleared
    }
}

/// Whether an answer to a login's request is one that a login can be made of: its code runs out
/// at a point both clocks can show, and there is a number left to give it.
pub open spec fn answerable(
    account: AccountView,
    answer: Result<DeviceCodeView, ErrorView>,
    now: int,
    ticks: int,
) -> bool {
    match answer {
        Ok(code) => account.starts() ==> {
            &&& account.generation < u64::MAX
            &&& reaches(now, code.expires_in)
            &&& reaches(ticks, code.expires_in)
        },
        Err(_) => true,
    }
}

// ── waiting for approval ─────────────────────────────────────────────────────

/// How far a flow has come: what it waits to hear of.
#[derive(Debug)]
enum Phase {
    Sleeping,
    Polling,
    Naming(TokenResponse),
    Saving(Stored),
    Discarding(Stored),
    Over,
}

/// How far a flow has come: what it waits to hear of.
pub enum PhaseView {
    /// The end of a wait between two polls.
    Sleeping,
    /// The answer to a poll.
    Polling,
    /// Who this token belongs to.
    Naming(TokenView),
    /// This record's way to the disk.
    Saving(StoredView),
    /// The removal of this record, which should not have been written.
    Discarding(StoredView),
    /// Nothing.
    Over,
}

impl View for Phase {
    type V = PhaseView;

    closed spec fn view(&self) -> PhaseView {
        match self {
            Phase::Sleeping => PhaseView::Sleeping,
            Phase::Polling => PhaseView::Polling,
            Phase::Naming(token) => PhaseView::Naming(token@),
            Phase::Saving(record) => PhaseView::Saving(record@),
            Phase::Discarding(record) => PhaseView::Discarding(record@),
            Phase::Over => PhaseView::Over,
        }
    }
}

/// A login waiting for its approval, which outlives the call that started it.
#[derive(Debug)]
pub struct Flow {
    code: DeviceCode,
    generation: u64,
    deadline: Moment,
    interval: u64,
    phase: Phase,
}

/// A [`Flow`], with its texts as sequences of characters.
pub struct FlowView {
    pub code: DeviceCodeView,
    /// The number it was started with.
    pub generation: u64,
    /// When the code runs out, by the clock the flow sleeps by.
    pub deadline: int,
    /// Seconds between two polls.
    pub interval: u64,
    pub phase: PhaseView,
}

impl View for Flow {
    type V = FlowView;

    closed spec fn view(&self) -> FlowView {
        FlowView {
            code: self.code@,
            generation: self.generation,
            deadline: self.deadline@,
            interval: self.interval,
            phase: self.phase@,
        }
    }
}

/// What a flow hears.
#[derive(Debug)]
pub enum FlowEvent {
    /// The wait is over, and this is what the clock shows.
    Woke(Moment),
    /// A poll was answered.
    Polled(Poll),
    /// The question who the token belongs to was answered, at this many seconds since the epoch.
    Named(Result<String, Error>, i64),
    /// The record was written, or could not be.
    Saved(Result<(), Error>),
    /// The record was taken back, was not there any more, or could not be removed.
    Discarded,
}

/// A [`FlowEvent`], with its texts as sequences of characters.
pub enum FlowEventView {
    Woke(int),
    Polled(PollView),
    Named(Result<Seq<char>, ErrorView>, i64),
    Saved(Result<(), ErrorView>),
    Discarded,
}

impl View for FlowEvent {
    type V = FlowEventView;

    open spec fn view(&self) -> FlowEventView {
        match self {
            FlowEvent::Woke(now) => FlowEventView::Woke(now@),
            FlowEvent::Polled(poll) => FlowEventView::Polled(poll@),
            FlowEvent::Named(name, now) => FlowEventView::Named(result_view(*name), *now),
            FlowEvent::Saved(saved) => FlowEventView::Saved(result_view(*saved)),
            FlowEvent::Discarded => FlowEventView::Discarded,
        }
    }
}

/// What a flow wants done.
#[derive(Debug)]
pub enum FlowAction {
    /// Wait this many seconds.
    Sleep(u64),
    /// Poll the token endpoint.
    Poll(Request),
    /// Ask who the token belongs to.
    AskName(Request),
    /// Write this record to the store.
    Save(Stored),
    /// Clear the store if it still holds this record.
    Discard(Stored),
    /// Nothing more.
    Stop,
}

/// A [`FlowAction`], with its texts as sequences of characters.
pub enum FlowActionView {
    Sleep(u64),
    Poll(RequestView),
    AskName(RequestView),
    Save(StoredView),
    Discard(StoredView),
    Stop,
}

impl View for FlowAction {
    type V = FlowActionView;

    open spec fn view(&self) -> FlowActionView {
        match self {
            FlowAction::Sleep(secs) => FlowActionView::Sleep(*secs),
            FlowAction::Poll(request) => FlowActionView::Poll(request@),
            FlowAction::AskName(request) => FlowActionView::AskName(request@),
            FlowAction::Save(stored) => FlowActionView::Save(stored@),
            FlowAction::Discard(stored) => FlowActionView::Discard(stored@),
            FlowAction::Stop => FlowActionView::Stop,
        }
    }
}

/// An account, a flow in it, and what that flow wants done: where a step of a flow leads.
pub struct FlowStep {
    pub account: AccountView,
    pub flow: FlowView,
    pub action: FlowActionView,
}

impl FlowView {
    /// A flow for a code that came back at `ticks`. The first thing it does is wait.
    pub open spec fn started(code: DeviceCodeView, generation: u64, ticks: int) -> FlowView {
        FlowView {
            code,
            generation,
            deadline: ticks + code.expires_in * NANOS_PER_SEC,
            interval: if code.interval < 1 {
                1
            } else {
                code.interval
            },
            phase: PhaseView::Sleeping,
        }
    }

    /// Whether an event is one this phase can hear, and can act on: a wait that five seconds can
    /// be added to where they are asked for.
    pub open spec fn accepts(self, event: FlowEventView) -> bool {
        match event {
            FlowEventView::Woke(_) => self.phase is Sleeping,
            FlowEventView::Polled(poll) => self.phase is Polling && (poll is SlowDown
                ==> self.interval + 5 <= u64::MAX),
            FlowEventView::Named(_, _) => self.phase is Naming,
            FlowEventView::Saved(_) => self.phase is Saving,
            FlowEventView::Discarded => self.phase is Discarding,
        }
    }

    /// The same flow, further on.
    pub open spec fn at(self, phase: PhaseView) -> FlowView {
        FlowView { phase, ..self }
    }

    /// Where the end of the polling leads. A flow that has been superseded is silent: an approval
    /// that arrives now is an answer to a question that has been withdrawn.
    pub open spec fn concluded(
        self,
        account: AccountView,
        outcome: Result<TokenView, Seq<char>>,
    ) -> FlowStep {
        if account.generation != self.generation {
            FlowStep { account, flow: self.at(PhaseView::Over), action: FlowActionView::Stop }
        } else {
            match outcome {
                Ok(token) => FlowStep {
                    account,
                    flow: self.at(PhaseView::Naming(token)),
                    action: FlowActionView::AskName(
                        RequestView::userinfo(account.config, token.access_token),
                    ),
                },
                Err(why) => FlowStep {
                    account: account.settled(Some(why)),
                    flow: self.at(PhaseView::Over),
                    action: FlowActionView::Stop,
                },
            }
        }
    }

    /// Where waiting on leads.
    pub open spec fn waiting(self, account: AccountView, interval: u64) -> FlowStep {
        FlowStep {
            account,
            flow: FlowView { interval, phase: PhaseView::Sleeping, ..self },
            action: FlowActionView::Sleep(interval),
        }
    }

    /// Where the end of a wait leads: a poll, or the end of a code that ran out.
    pub open spec fn woken(self, account: AccountView, now: int) -> FlowStep {
        if now >= self.deadline {
            self.concluded(account, Err("the code expired before it was approved"@))
        } else {
            FlowStep {
                account,
                flow: self.at(PhaseView::Polling),
                action: FlowActionView::Poll(
                    RequestView::poll(account.config, self.code.device_code),
                ),
            }
        }
    }

    /// Where the answer to a poll leads.
    pub open spec fn polled(self, account: AccountView, poll: PollView) -> FlowStep {
        match poll {
            PollView::Pending => self.waiting(account, self.interval),
            PollView::SlowDown => self.waiting(account, (self.interval + 5) as u64),
            PollView::Inconclusive(_) => self.waiting(account, self.interval),
            PollView::Refused(why) => self.concluded(account, Err(why)),
            PollView::Token(token) => self.concluded(account, Ok(token)),
        }
    }

    /// Where the answer who the token belongs to leads: to the disk, with the name or without —
    /// and to a new holder of the robot. To nothing at all, if the flow was superseded meanwhile.
    pub open spec fn named(
        self,
        account: AccountView,
        token: TokenView,
        name: Result<Seq<char>, ErrorView>,
        now: i64,
    ) -> FlowStep {
        if account.generation != self.generation {
            FlowStep { account, flow: self.at(PhaseView::Over), action: FlowActionView::Stop }
        } else {
            let username = match name {
                Ok(name) => Some(name),
                Err(_) => None,
            };
            let record = StoredView::of(token, now, username);
            FlowStep {
                account: account.handed_over(),
                flow: self.at(PhaseView::Saving(record)),
                action: FlowActionView::Save(record),
            }
        }
    }

    /// Where the end of the write leads. A withdrawal that landed during it takes the record that
    /// was left behind with it, and no other.
    pub open spec fn saved(
        self,
        account: AccountView,
        record: StoredView,
        saved: Result<(), ErrorView>,
    ) -> FlowStep {
        if account.generation != self.generation {
            FlowStep {
                account,
                flow: self.at(PhaseView::Discarding(record)),
                action: FlowActionView::Discard(record),
            }
        } else {
            FlowStep {
                account: account.settled(
                    match saved {
                        Ok(_) => None,
                        Err(e) => Some(e.message()),
                    },
                ),
                flow: self.at(PhaseView::Over),
                action: FlowActionView::Stop,
            }
        }
    }

    /// Where an event leads.
    pub open spec fn next(self, account: AccountView, event: FlowEventView) -> FlowStep {
        match event {
            FlowEventView::Woke(now) => self.woken(account, now),
            FlowEventView::Polled(poll) => self.polled(account, poll),
            FlowEventView::Named(name, now) => self.named(
                account,
                self.phase->Naming_0,
                name,
                now,
            ),
            FlowEventView::Saved(saved) => self.saved(account, self.phase->Saving_0, saved),
            FlowEventView::Discarded => FlowStep {
                account,
                flow: self.at(PhaseView::Over),
                action: FlowActionView::Stop,
            },
        }
    }
}

impl Flow {
    fn started(code: DeviceCode, generation: u64, ticks: Moment) -> (r: Flow)
        requires
            reaches(ticks@, code@.expires_in),
        ensures
            r@ == FlowView::started(code@, generation, ticks@),
    {
        let deadline = ticks.plus(code.expires_in);
        let interval: u64 = if code.interval < 1 {
            1
        } else {
            code.interval
        };
        Flow { code, generation, deadline, interval, phase: Phase::Sleeping }
    }

    /// The code that is waited for, so that whoever runs the flow can speak of it.
    pub fn code(&self) -> (r: &DeviceCode)
        ensures
            r@ == self@.code,
    {
        &self.code
    }

    /// The number it was started with, for [`Account::is_current`].
    pub fn generation(&self) -> (r: u64)
        ensures
            r == self@.generation,
    {
        self.generation
    }

    /// The first thing to do: wait.
    pub fn first(&self) -> (r: FlowAction)
        ensures
            r@ == FlowActionView::Sleep(self@.interval),
    {
        FlowAction::Sleep(self.interval)
    }

    /// Whether an event is one that is waited for, and can be acted on.
    pub fn accepts(&self, event: &FlowEvent) -> (r: bool)
        ensures
            r == self@.accepts(event@),
    {
        match event {
            FlowEvent::Woke(_) => match &self.phase {
                Phase::Sleeping => true,
                _ => false,
            },
            FlowEvent::Polled(poll) => match &self.phase {
                Phase::Polling => match poll {
                    Poll::SlowDown => self.interval <= u64::MAX - 5,
                    _ => true,
                },
                _ => false,
            },
            FlowEvent::Named(_, _) => match &self.phase {
                Phase::Naming(_) => true,
                _ => false,
            },
            FlowEvent::Saved(_) => match &self.phase {
                Phase::Saving(_) => true,
                _ => false,
            },
            FlowEvent::Discarded => match &self.phase {
                Phase::Discarding(_) => true,
                _ => false,
            },
        }
    }
}

impl Account {
    /// One step of a login waiting for its approval: polls Hugging Face until the code is
    /// approved, refused, or out of time, and stores what was approved.
    ///
    /// Hear what `event` says, and say what to do next. Whoever runs the flow starts with
    /// [`Flow::first`], does each action without holding the account, and comes back with how it
    /// went until the answer is [`FlowAction::Stop`].
    ///
    /// **A failure to read the name must not lose the token.** By then somebody has approved a
    /// code on their phone; throwing the credential away because `/oauth/userinfo` answered a 502
    /// would make them do the whole flow again for a field that is a label. So the record lands
    /// either way, and [`maintain`] fills the name in.
    pub fn wait_for_approval(&mut self, flow: &mut Flow, event: FlowEvent) -> (r: FlowAction)
        requires
            old(flow)@.accepts(event@),
        ensures
            ({
                let step = old(flow)@.next(old(self)@, event@);
                &&& final(self)@ == step.account
                &&& final(flow)@ == step.flow
                &&& r@ == step.action
            }),
    {
        match event {
            FlowEvent::Woke(now) => if flow.deadline.is_after(&now) {
                let request = poll_request(&self.config, flow.code.device_code.as_str());
                flow.phase = Phase::Polling;
                FlowAction::Poll(request)
            } else {
                self.conclude(flow, Err("the code expired before it was approved".to_owned()))
            },
            FlowEvent::Polled(poll) => match poll {
                Poll::Pending => {
                    flow.phase = Phase::Sleeping;
                    FlowAction::Sleep(flow.interval)
                },
                Poll::SlowDown => {
                    flow.phase = Phase::Sleeping;
                    flow.interval = flow.interval + 5;
                    FlowAction::Sleep(flow.interval)
                },
                Poll::Inconclusive(_) => {
                    flow.phase = Phase::Sleeping;
                    FlowAction::Sleep(flow.interval)
                },
                Poll::Refused(why) => self.conclude(flow, Err(why)),
                Poll::Token(token) => self.conclude(flow, Ok(*token)),
            },
            FlowEvent::Named(name, now) => self.persist(flow, name, now),
            FlowEvent::Saved(saved) => self.settle(flow, saved),
            FlowEvent::Discarded => {
                flow.phase = Phase::Over;
                FlowAction::Stop
            },
        }
    }

    /// The end of the polling. Whether the flow has been superseded is asked *before* the store
    /// is touched: writing now would sign the robot into the account somebody just replaced or
    /// signed out of.
    fn conclude(&mut self, flow: &mut Flow, outcome: Result<TokenResponse, String>) -> (r: FlowAction)
        ensures
            ({
                let step = old(flow)@.concluded(old(self)@, result_view(outcome));
                &&& final(self)@ == step.account
                &&& final(flow)@ == step.flow
                &&& r@ == step.action
            }),
    {
        if !self.is_current(flow.generation) {
            flow.phase = Phase::Over;
            return FlowAction::Stop;
        }
        match outcome {
            Ok(token) => {
                let request = userinfo_request(&self.config, token.access_token.as_str());
                flow.phase = Phase::Naming(token);
                FlowAction::AskName(request)
            },
            Err(why) => {
                self.pending = None;
                self.last_error = Some(why);
                flow.phase = Phase::Over;
                FlowAction::Stop
            },
        }
    }

    /// The record to store of a fresh token, with the username it belongs to if the name could be
    /// had. Stored together, so `status` never needs the network. Whether the flow has been
    /// superseded is asked again, because the question took time.
    fn persist(&mut self, flow: &mut Flow, name: Result<String, Error>, now: i64) -> (r: FlowAction)
        requires
            old(flow)@.phase is Naming,
        ensures
            ({
                let step = old(flow)@.named(
                    old(self)@,
                    old(flow)@.phase->Naming_0,
                    result_view(name),
                    now,
                );
                &&& final(self)@ == step.account
                &&& final(flow)@ == step.flow
                &&& r@ == step.action
            }),
    {
        if !self.is_current(flow.generation) {
            flow.phase = Phase::Over;
            return FlowAction::Stop;
        }
        let username = match name {
            Ok(name) => Some(name),
            Err(_) => None,
        };
        let record = match &flow.phase {
            Phase::Naming(token) => Stored::of(token.clone(), now, username),
            _ => return FlowAction::Stop,
        };
        self.holder = self.holder.wrapping_add(1);
        flow.phase = Phase::Saving(record.clone());
        FlowAction::Save(record)
    }

    /// The end of the write. Asked again, because writing takes time: a `logout` landing during it
    /// is the same withdrawal, and the record it left behind has to go with it.
    fn settle(&mut self, flow: &mut Flow, saved: Result<(), Error>) -> (r: FlowAction)
        requires
            old(flow)@.phase is Saving,
        ensures
            ({
                let step = old(flow)@.saved(
                    old(self)@,
                    old(flow)@.phase->Saving_0,
                    result_view(saved),
                );
                &&& final(self)@ == step.account
                &&& final(flow)@ == step.flow
                &&& r@ == step.action
            }),
    {
        if !self.is_current(flow.generation) {
            let record = match &flow.phase {
                Phase::Saving(record) => record.clone(),
                _ => return FlowAction::Stop,
            };
            flow.phase = Phase::Discarding(record.clone());
            return FlowAction::Discard(record);
        }
        self.pending = None;
        self.last_error = match saved {
            Ok(_) => None,
            Err(e) => Some(e.message()),
        };
        flow.phase = Phase::Over;
        FlowAction::Stop
    }
}

// ── keeping the token fresh ──────────────────────────────────────────────────

/// What keeping the credential up to date wants done.
#[derive(Debug)]
pub enum UpkeepAction {
    /// Send this to Hugging Face.
    Send(Request),
    /// Write this record to the store.
    Save(Stored),
    /// Clear the store if it still holds this record.
    Discard(Stored),
    /// Nothing more: whether a record was written, or why not.
    Finish(Result<bool, Error>),
}

/// An [`UpkeepAction`], with its texts as sequences of characters.
pub enum UpkeepActionView {
    Send(RequestView),
    Save(StoredView),
    Discard(StoredView),
    Finish(Result<bool, ErrorView>),
}

impl View for UpkeepAction {
    type V = UpkeepActionView;

    open spec fn view(&self) -> UpkeepActionView {
        match self {
            UpkeepAction::Send(request) => UpkeepActionView::Send(request@),
            UpkeepAction::Save(stored) => UpkeepActionView::Save(stored@),
            UpkeepAction::Discard(stored) => UpkeepActionView::Discard(stored@),
            UpkeepAction::Finish(done) => UpkeepActionView::Finish(result_view(*done)),
        }
    }
}

/// What keeping the credential up to date waits to hear of.
#[derive(Debug, Clone, Copy, PartialEq, Eq, Structural)]
pub enum UpkeepPhase {
    /// What Hugging Face answers.
    Asking,
    /// The record's way to the disk.
    Saving,
    /// The removal of a record that should not have been written.
    Discarding,
    /// Nothing.
    Over,
}

/// A token being renewed.
#[derive(Debug)]
pub struct Renewal {
    /// The number of the holder it is renewed for.
    holder: u64,
    /// Who the token belongs to, which a refresh cannot change.
    username: Option<String>,
    /// The record that is written.
    record: Option<Stored>,
    /// Why it could not be, while it is taken back.
    fault: Option<Error>,
    phase: UpkeepPhase,
}

/// A [`Renewal`], with its texts as sequences of characters.
pub struct RenewalView {
    pub holder: u64,
    pub username: Option<Seq<char>>,
    pub record: Option<StoredView>,
    pub fault: Option<ErrorView>,
    pub phase: UpkeepPhase,
}

impl View for Renewal {
    type V = RenewalView;

    closed spec fn view(&self) -> RenewalView {
        RenewalView {
            holder: self.holder,
            username: opt_view(self.username),
            record: opt_view(self.record),
            fault: opt_view(self.fault),
            phase: self.phase,
        }
    }
}

/// What a [`Renewal`] hears.
#[derive(Debug)]
pub enum RenewalEvent {
    /// What the token endpoint answered, at this many seconds since the epoch.
    Answered(Result<TokenResponse, Error>, i64),
    /// The record was written, or could not be.
    Saved(Result<(), Error>),
    /// The record was taken back, was not there any more, or could not be removed.
    Discarded,
}

/// A [`RenewalEvent`], with its texts as sequences of characters.
pub enum RenewalEventView {
    Answered(Result<TokenView, ErrorView>, i64),
    Saved(Result<(), ErrorView>),
    Discarded,
}

impl View for RenewalEvent {
    type V = RenewalEventView;

    open spec fn view(&self) -> RenewalEventView {
        match self {
            RenewalEvent::Answered(token, now) => RenewalEventView::Answered(
                result_view(*token),
                *now,
            ),
            RenewalEvent::Saved(saved) => RenewalEventView::Saved(result_view(*saved)),
            RenewalEvent::Discarded => RenewalEventView::Discarded,
        }
    }
}

/// What failed in a result, if anything did.
pub open spec fn fault_of(saved: Result<(), ErrorView>) -> Option<ErrorView> {
    match saved {
        Ok(_) => None,
        Err(e) => Some(e),
    }
}

/// What taking a record back comes to: nothing was written, or why it could not be.
pub open spec fn withdrawn(fault: Option<ErrorView>) -> Result<bool, ErrorView> {
    match fault {
        Some(e) => Err(e),
        None => Ok(false),
    }
}

/// What the end of the write comes to.
pub open spec fn written(saved: Result<(), ErrorView>) -> Result<bool, ErrorView> {
    match saved {
        Ok(_) => Ok(true),
        Err(e) => Err(e),
    }
}

impl RenewalView {
    /// The renewal that comes to nothing, because there is nothing to renew.
    pub open spec fn idle() -> RenewalView {
        RenewalView {
            holder: 0,
            username: None,
            record: None,
            fault: None,
            phase: UpkeepPhase::Over,
        }
    }

    /// The same renewal, further on.
    pub open spec fn at(self, phase: UpkeepPhase) -> RenewalView {
        RenewalView { phase, ..self }
    }

    /// Whether an event is one this phase can hear.
    pub open spec fn accepts(self, event: RenewalEventView) -> bool {
        match event {
            RenewalEventView::Answered(_, _) => self.phase == UpkeepPhase::Asking,
            RenewalEventView::Saved(_) => self.phase == UpkeepPhase::Saving && self.record is Some,
            RenewalEventView::Discarded => self.phase == UpkeepPhase::Discarding,
        }
    }

    /// Where an event leads. What is stored of an answer is the answer's tokens — the refresh
    /// token rotates — under the name that was there; a refusal writes nothing, and is reported.
    /// A robot that has changed hands meanwhile has no use for the token, and a record that was
    /// written for its last holder is taken back.
    pub open spec fn next(self, account: AccountView, event: RenewalEventView) -> (
        RenewalView,
        UpkeepActionView,
    ) {
        let superseded = account.holder != self.holder;
        match event {
            RenewalEventView::Answered(Err(e), _) => (
                self.at(UpkeepPhase::Over),
                UpkeepActionView::Finish(Err(e)),
            ),
            RenewalEventView::Answered(Ok(token), now) => if superseded {
                (self.at(UpkeepPhase::Over), UpkeepActionView::Finish(Ok(false)))
            } else {
                let record = StoredView::of(token, now, self.username);
                (
                    RenewalView { record: Some(record), phase: UpkeepPhase::Saving, ..self },
                    UpkeepActionView::Save(record),
                )
            },
            RenewalEventView::Saved(saved) => if superseded {
                (
                    RenewalView {
                        fault: fault_of(saved),
                        phase: UpkeepPhase::Discarding,
                        ..self
                    },
                    UpkeepActionView::Discard(self.record->0),
                )
            } else {
                (self.at(UpkeepPhase::Over), UpkeepActionView::Finish(written(saved)))
            },
            RenewalEventView::Discarded => (
                RenewalView { fault: None, phase: UpkeepPhase::Over, ..self },
                UpkeepActionView::Finish(withdrawn(self.fault)),
            ),
        }
    }
}

/// A name being asked for.
#[derive(Debug)]
pub struct Naming {
    /// The number of the holder it is asked for.
    holder: u64,
    /// The record it is missing from, and then the record that is written.
    record: Option<Stored>,
    /// Why it could not be, while it is taken back.
    fault: Option<Error>,
    phase: UpkeepPhase,
}

/// A [`Naming`], with its texts as sequences of characters.
pub struct NamingView {
    pub holder: u64,
    pub record: Option<StoredView>,
    pub fault: Option<ErrorView>,
    pub phase: UpkeepPhase,
}

impl View for Naming {
    type V = NamingView;

    closed spec fn view(&self) -> NamingView {
        NamingView {
            holder: self.holder,
            record: opt_view(self.record),
            fault: opt_view(self.fault),
            phase: self.phase,
        }
    }
}

/// What a [`Naming`] hears.
#[derive(Debug)]
pub enum NamingEvent {
    /// Who the token belongs to, or why that could not be read.
    Answered(Result<String, Error>),
    /// The record was written, or could not be.
    Saved(Result<(), Error>),
    /// The record was taken back, was not there any more, or could not be removed.
    Discarded,
}

/// A [`NamingEvent`], with its texts as sequences of characters.
pub enum NamingEventView {
    Answered(Result<Seq<char>, ErrorView>),
    Saved(Result<(), ErrorView>),
    Discarded,
}

impl View for NamingEvent {
    type V = NamingEventView;

    open spec fn view(&self) -> NamingEventView {
        match self {
            NamingEvent::Answered(name) => NamingEventView::Answered(result_view(*name)),
            NamingEvent::Saved(saved) => NamingEventView::Saved(result_view(*saved)),
            NamingEvent::Discarded => NamingEventView::Discarded,
        }
    }
}

impl NamingView {
    /// The question that is not asked, because no name is missing.
    pub open spec fn idle() -> NamingView {
        NamingView { holder: 0, record: None, fault: None, phase: UpkeepPhase::Over }
    }

    /// The same question, further on.
    pub open spec fn at(self, phase: UpkeepPhase) -> NamingView {
        NamingView { phase, ..self }
    }

    /// Whether an event is one this phase can hear.
    pub open spec fn accepts(self, event: NamingEventView) -> bool {
        self.record is Some && match event {
            NamingEventView::Answered(_) => self.phase == UpkeepPhase::Asking,
            NamingEventView::Saved(_) => self.phase == UpkeepPhase::Saving,
            NamingEventView::Discarded => self.phase == UpkeepPhase::Discarding,
        }
    }

    /// Where an event leads. What is stored of an answer is the name, and nothing else changed; a
    /// failure is reported. A robot that has changed hands meanwhile has no use for the name, and a
    /// record that was written for its last holder is taken back.
    pub open spec fn next(self, account: AccountView, event: NamingEventView) -> (
        NamingView,
        UpkeepActionView,
    ) {
        let superseded = account.holder != self.holder;
        match event {
            NamingEventView::Answered(Err(e)) => (
                self.at(UpkeepPhase::Over),
                UpkeepActionView::Finish(Err(e)),
            ),
            NamingEventView::Answered(Ok(name)) => if superseded {
                (self.at(UpkeepPhase::Over), UpkeepActionView::Finish(Ok(false)))
            } else {
                let record = StoredView { username: Some(name), ..self.record->0 };
                (
                    NamingView { record: Some(record), phase: UpkeepPhase::Saving, ..self },
                    UpkeepActionView::Save(record),
                )
            },
            NamingEventView::Saved(saved) => if superseded {
                (
                    NamingView { fault: fault_of(saved), phase: UpkeepPhase::Discarding, ..self },
                    UpkeepActionView::Discard(self.record->0),
                )
            } else {
                (self.at(UpkeepPhase::Over), UpkeepActionView::Finish(written(saved)))
            },
            NamingEventView::Discarded => (
                NamingView { fault: None, phase: UpkeepPhase::Over, ..self },
                UpkeepActionView::Finish(withdrawn(self.fault)),
            ),
        }
    }
}

impl ConfigView {
    /// Whether a record is to be renewed now: it can be, it expires, and less of its time is left
    /// than the configuration asks for.
    pub open spec fn renews(self, stored: StoredView, now: i64) -> bool {
        &&& stored.refresh_token is Some
        &&& stored.expires_at is Some
        &&& stored.expires_in(now) * NANOS_PER_SEC < self.refresh_when_under.in_nanos()
    }
}

impl AccountView {
    /// How a renewal begins: with a refresh, where one is due.
    pub open spec fn renewal(self, stored: Option<StoredView>, now: i64) -> (
        RenewalView,
        UpkeepActionView,
    ) {
        match stored {
            Some(record) => if self.config.renews(record, now) {
                (
                    RenewalView {
                        holder: self.holder,
                        username: record.username,
                        record: None,
                        fault: None,
                        phase: UpkeepPhase::Asking,
                    },
                    UpkeepActionView::Send(
                        RequestView::refresh(self.config, record.refresh_token->0),
                    ),
                )
            } else {
                (RenewalView::idle(), UpkeepActionView::Finish(Ok(false)))
            },
            None => (RenewalView::idle(), UpkeepActionView::Finish(Ok(false))),
        }
    }

    /// How filling in a name begins: with a question, where a record is without one.
    pub open spec fn naming(self, stored: Option<StoredView>) -> (NamingView, UpkeepActionView) {
        match stored {
            Some(record) => if record.username is None {
                (
                    NamingView {
                        holder: self.holder,
                        record: Some(record),
                        fault: None,
                        phase: UpkeepPhase::Asking,
                    },
                    UpkeepActionView::Send(
                        RequestView::userinfo(self.config, record.access_token),
                    ),
                )
            } else {
                (NamingView::idle(), UpkeepActionView::Finish(Ok(false)))
            },
            None => (NamingView::idle(), UpkeepActionView::Finish(Ok(false))),
        }
    }
}

impl Account {
    /// Whether the renewal or the question started for `holder` is for the holder this robot still
    /// has.
    pub fn is_held_by(&self, holder: u64) -> (r: bool)
        ensures
            r == (self@.holder == holder),
    {
        self.holder == holder
    }

    fn is_due(&self, stored: &Stored, now: i64) -> (r: bool)
        requires
            stored@.refresh_token is Some,
        ensures
            r == self@.config.renews(stored@, now),
    {
        let limit = self.config.refresh_when_under;
        let left: i128 = stored.expires_in_at(now) as i128 * NANOS_PER_SEC;
        let under: i128 = limit.secs as i128 * NANOS_PER_SEC + limit.nanos as i128;
        stored.expires_at.is_some() && left < under
    }

    /// Renew the token before it expires. One pass; [`maintain`] is the loop.
    ///
    /// `stored` is what the store holds, `now` seconds since the epoch. The answer is a renewal
    /// and the first thing to do; [`Renewal::step`] says what follows. It comes to `true` when a
    /// new token was written. Does nothing when the robot is signed out, when there is no refresh
    /// token, or when there is plenty of time left — each would otherwise be an HTTP request on
    /// every tick of the loop, on a board whose network may not be there.
    pub fn refresh_if_due(&self, stored: Option<Stored>, now: i64) -> (r: (Renewal, UpkeepAction))
        ensures
            (r.0@, r.1@) == self@.renewal(opt_view(stored), now),
    {
        if let Some(stored) = stored {
            if let Some(refresh_token) = &stored.refresh_token {
                if self.is_due(&stored, now) {
                    let request = refresh_request(&self.config, refresh_token.as_str());
                    return (
                        Renewal {
                            holder: self.holder,
                            username: stored.username,
                            record: None,
                            fault: None,
                            phase: UpkeepPhase::Asking,
                        },
                        UpkeepAction::Send(request),
                    );
                }
            }
        }
        (
            Renewal {
                holder: 0,
                username: None,
                record: None,
                fault: None,
                phase: UpkeepPhase::Over,
            },
            UpkeepAction::Finish(Ok(false)),
        )
    }

    /// Ask who the token belongs to, when the stored record cannot say.
    ///
    /// The answer is a [`Naming`] and the first thing to do; [`Naming::step`] says what follows.
    /// It comes to `true` when a name was written. Only ever the case after a login whose
    /// `/oauth/userinfo` call failed. Left alone, `status` would answer `unknown` until somebody
    /// signed in again.
    pub fn name_if_unknown(&self, stored: Option<Stored>) -> (r: (Naming, UpkeepAction))
        ensures
            (r.0@, r.1@) == self@.naming(opt_view(stored)),
    {
        if let Some(stored) = stored {
            if stored.username.is_none() {
                let request = userinfo_request(&self.config, stored.access_token.as_str());
                return (
                    Naming {
                        holder: self.holder,
                        record: Some(stored),
                        fault: None,
                        phase: UpkeepPhase::Asking,
                    },
                    UpkeepAction::Send(request),
                );
            }
        }
        (
            Naming { holder: 0, record: None, fault: None, phase: UpkeepPhase::Over },
            UpkeepAction::Finish(Ok(false)),
        )
    }
}

fn failed(saved: Result<(), Error>) -> (r: Option<Error>)
    ensures
        opt_view(r) == fault_of(result_view(saved)),
{
    match saved {
        Ok(_) => None,
        Err(e) => Some(e),
    }
}

fn taken_back(fault: Option<Error>) -> (r: UpkeepAction)
    ensures
        r@ == UpkeepActionView::Finish(withdrawn(opt_view(fault))),
{
    match fault {
        Some(e) => UpkeepAction::Finish(Err(e)),
        None => UpkeepAction::Finish(Ok(false)),
    }
}

fn finish(saved: Result<(), Error>) -> (r: UpkeepAction)
    ensures
        r@ == UpkeepActionView::Finish(written(result_view(saved))),
{
    match saved {
        Ok(_) => UpkeepAction::Finish(Ok(true)),
        Err(e) => UpkeepAction::Finish(Err(e)),
    }
}

impl Renewal {
    /// Whether an event is one that is waited for.
    pub fn accepts(&self, event: &RenewalEvent) -> (r: bool)
        ensures
            r == self@.accepts(event@),
    {
        match event {
            RenewalEvent::Answered(_, _) => self.phase == UpkeepPhase::Asking,
            RenewalEvent::Saved(_) => self.phase == UpkeepPhase::Saving && self.record.is_some(),
            RenewalEvent::Discarded => self.phase == UpkeepPhase::Discarding,
        }
    }

    /// Hear how the last action went, and say what to do next.
    ///
    /// The rotated refresh token replaces the one that was spent. A refusal leaves the credential
    /// alone: an hour of access left is worth more than a record half-replaced by a failed
    /// refresh. A token that arrives after the robot changed hands is an answer to a question that
    /// has been withdrawn; a failure is one whenever it comes.
    pub fn step(&mut self, account: &Account, event: RenewalEvent) -> (r: UpkeepAction)
        requires
            old(self)@.accepts(event@),
        ensures
            (final(self)@, r@) == old(self)@.next(account@, event@),
    {
        let superseded = !account.is_held_by(self.holder);
        match event {
            RenewalEvent::Answered(Err(e), _) => {
                self.phase = UpkeepPhase::Over;
                UpkeepAction::Finish(Err(e))
            },
            RenewalEvent::Answered(Ok(token), now) => {
                if superseded {
                    self.phase = UpkeepPhase::Over;
                    return UpkeepAction::Finish(Ok(false));
                }
                let record = Stored::of(token, now, copy_opt(&self.username));
                self.record = Some(record.clone());
                self.phase = UpkeepPhase::Saving;
                UpkeepAction::Save(record)
            },
            RenewalEvent::Saved(saved) => {
                if superseded {
                    self.fault = failed(saved);
                    self.phase = UpkeepPhase::Discarding;
                    return UpkeepAction::Discard(self.record.as_ref().unwrap().clone());
                }
                self.phase = UpkeepPhase::Over;
                finish(saved)
            },
            RenewalEvent::Discarded => {
                self.phase = UpkeepPhase::Over;
                taken_back(self.fault.take())
            },
        }
    }
}

impl Naming {
    /// Whether an event is one that is waited for.
    pub fn accepts(&self, event: &NamingEvent) -> (r: bool)
        ensures
            r == self@.accepts(event@),
    {
        self.record.is_some() && match event {
            NamingEvent::Answered(_) => self.phase == UpkeepPhase::Asking,
            NamingEvent::Saved(_) => self.phase == UpkeepPhase::Saving,
            NamingEvent::Discarded => self.phase == UpkeepPhase::Discarding,
        }
    }

    /// Hear how the last action went, and say what to do next.
    pub fn step(&mut self, account: &Account, event: NamingEvent) -> (r: UpkeepAction)
        requires
            old(self)@.accepts(event@),
        ensures
            (final(self)@, r@) == old(self)@.next(account@, event@),
    {
        let superseded = !account.is_held_by(self.holder);
        match event {
            NamingEvent::Answered(Err(e)) => {
                self.phase = UpkeepPhase::Over;
                UpkeepAction::Finish(Err(e))
            },
            NamingEvent::Answered(Ok(name)) => {
                if superseded {
                    self.phase = UpkeepPhase::Over;
                    return UpkeepAction::Finish(Ok(false));
                }
                let nameless = self.record.as_ref().unwrap().clone();
                let record = Stored { username: Some(name), ..nameless };
                self.record = Some(record.clone());
                self.phase = UpkeepPhase::Saving;
                UpkeepAction::Save(record)
            },
            NamingEvent::Saved(saved) => {
                if superseded {
                    self.fault = failed(saved);
                    self.phase = UpkeepPhase::Discarding;
                    return UpkeepAction::Discard(self.record.as_ref().unwrap().clone());
                }
                self.phase = UpkeepPhase::Over;
                finish(saved)
            },
            NamingEvent::Discarded => {
                self.phase = UpkeepPhase::Over;
                taken_back(self.fault.take())
            },
        }
    }
}

/// What [`maintain`] hears.
#[derive(Debug)]
pub enum MaintainEvent {
    /// The process started, or the wait between two passes is over.
    Woke,
    /// A renewal wrote a new token, had nothing to do, or failed.
    Refreshed(Result<bool, Error>),
    /// The missing name was written, none was missing, or it could not be had.
    Named(Result<bool, Error>),
}

/// A [`MaintainEvent`], with its texts as sequences of characters.
pub enum MaintainEventView {
    Woke,
    Refreshed(Result<bool, ErrorView>),
    Named(Result<bool, ErrorView>),
}

impl View for MaintainEvent {
    type V = MaintainEventView;

    open spec fn view(&self) -> MaintainEventView {
        match self {
            MaintainEvent::Woke => MaintainEventView::Woke,
            MaintainEvent::Refreshed(done) => MaintainEventView::Refreshed(result_view(*done)),
            MaintainEvent::Named(done) => MaintainEventView::Named(result_view(*done)),
        }
    }
}

/// What [`maintain`] wants done.
#[derive(Debug, Clone, Copy, PartialEq, Eq, Structural)]
pub enum MaintainAction {
    /// Renew the token if it is due.
    Refresh,
    /// Fill in the name if it is missing.
    Name,
    /// Wait this long.
    Sleep(Span),
}

impl AccountView {
    /// The account after an event of [`maintain`]: a renewal that failed is remembered, one that
    /// worked forgets what failed before it.
    pub open spec fn maintained(self, event: MaintainEventView) -> AccountView {
        match event {
            MaintainEventView::Refreshed(Err(e)) => AccountView {
                last_error: Some(e.message()),
                ..self
            },
            MaintainEventView::Refreshed(Ok(true)) => AccountView { last_error: None, ..self },
            _ => self,
        }
    }

    /// What follows an event of [`maintain`].
    pub open spec fn upkeep(self, event: MaintainEventView) -> MaintainAction {
        match event {
            MaintainEventView::Woke => MaintainAction::Refresh,
            MaintainEventView::Refreshed(_) => MaintainAction::Name,
            MaintainEventView::Named(_) => MaintainAction::Sleep(self.config.maintain_interval),
        }
    }
}

/// Keep the token fresh for as long as this process runs: hear what happened, and say what to do
/// next.
///
/// Begun once at startup, whatever the account state — a robot signed in later is picked up on
/// the next pass. A renewal that fails is not fatal and not silent: a week of retries is left,
/// and `status` carries the reason for anyone asking why remote access stopped. A missing name is
/// cosmetic, so its failure stays out of there.
pub fn maintain(account: &mut Account, event: MaintainEvent) -> (r: MaintainAction)
    ensures
        final(account)@ == old(account)@.maintained(event@),
        r == old(account)@.upkeep(event@),
{
    match event {
        MaintainEvent::Woke => MaintainAction::Refresh,
        MaintainEvent::Refreshed(done) => {
            match done {
                Ok(true) => {
                    account.last_error = None;
                },
                Ok(false) => {},
                Err(e) => {
                    account.last_error = Some(e.message());
                },
            }
            MaintainAction::Name
        },
        MaintainEvent::Named(_) => MaintainAction::Sleep(account.config.maintain_interval),
    }
}

} // verus!
