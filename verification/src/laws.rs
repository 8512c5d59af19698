//! What holds of the account as a whole: over several calls, over every run of a flow, whatever
//! else happens to the robot meanwhile.

use crate::account::{answerable, login_of, AccountView, FlowActionView, FlowEventView, FlowView, MaintainEventView, NamingEventView, NamingView, PhaseView, RenewalEventView, RenewalView, UpkeepActionView, UpkeepPhase};
use crate::config::ConfigView;
use crate::error::ErrorView;
use crate::oauth::{is_server_error, poll_of, DeviceCodeResponseView, DeviceCodeView, PollView, Reply, RequestView, TokenAnswer, TokenView};
use crate::status::StatusView;
use crate::store::{FileStoreView, StoredView};
use crate::time::{secs_at, NANOS_PER_SEC};
use vstd::prelude::*;
use vstd::string::*;

verus! {

// ── everything that can happen to an account ─────────────────────────────────

/// One call on an account.
pub enum AccountOp {
    /// [`Account::login`](crate::Account::login): what the store holds, `force`, and the time.
    Login(Option<StoredView>, bool, int),
    /// [`Account::login_answered`](crate::Account::login_answered): the answer, and the time by
    /// both clocks.
    Answered(Result<DeviceCodeView, ErrorView>, int, int),
    /// [`Account::login_abandoned`](crate::Account::login_abandoned).
    Abandoned,
    /// [`Account::logout`](crate::Account::logout).
    Logout,
    /// [`Account::logged_out`](crate::Account::logged_out): what clearing the store gave.
    LoggedOut(Result<Option<Seq<char>>, ErrorView>),
    /// [`Account::wait_for_approval`](crate::Account::wait_for_approval): a flow, and what it
    /// hears.
    Heard(FlowView, FlowEventView),
    /// [`maintain`](crate::maintain): what it hears.
    Maintained(MaintainEventView),
}

/// Whether a call may be made.
pub open spec fn may(account: AccountView, op: AccountOp) -> bool {
    match op {
        AccountOp::Answered(answer, now, ticks) => answerable(account, answer, now, ticks),
        AccountOp::Heard(flow, event) => flow.accepts(event),
        _ => true,
    }
}

/// The account after a call.
pub open spec fn after(account: AccountView, op: AccountOp) -> AccountView {
    match op {
        AccountOp::Login(stored, force, now) => match account.login_gate(stored, force, now) {
            Ok(_) => AccountView { starting: Some(account.generation), ..account },
            Err(_) => account,
        },
        AccountOp::Answered(Ok(code), now, _) => if account.starts() {
            account.with_login(code, now)
        } else {
            AccountView { starting: None, ..account }
        },
        AccountOp::Answered(Err(_), _, _) => AccountView { starting: None, ..account },
        AccountOp::Abandoned => AccountView { starting: None, ..account },
        AccountOp::Logout => account.superseded(),
        AccountOp::LoggedOut(Ok(_)) => account.settled(None),
        AccountOp::LoggedOut(Err(_)) => account,
        AccountOp::Heard(flow, event) => flow.next(account, event).account,
        AccountOp::Maintained(event) => account.maintained(event),
    }
}

/// The account after one call after another.
pub open spec fn after_all(account: AccountView, ops: Seq<AccountOp>) -> AccountView
    decreases ops.len(),
{
    if ops.len() == 0 {
        account
    } else {
        after(after_all(account, ops.drop_last()), ops.last())
    }
}

/// Whether one call after another may be made.
pub open spec fn may_all(account: AccountView, ops: Seq<AccountOp>) -> bool
    decreases ops.len(),
{
    ops.len() > 0 ==> may_all(account, ops.drop_last()) && may(
        after_all(account, ops.drop_last()),
        ops.last(),
    )
}

/// **Nothing changes where the credential lives or what the account was configured with.**
pub proof fn store_and_config_never_change(account: AccountView, ops: Seq<AccountOp>)
    ensures
        after_all(account, ops).store == account.store,
        after_all(account, ops).config == account.config,
    decreases ops.len(),
{
    if ops.len() > 0 {
        store_and_config_never_change(account, ops.drop_last());
    }
}

// ── starting a login ─────────────────────────────────────────────────────────

/// Whether none of some calls answers a login that is being started, or gives it up.
pub open spec fn untouched(ops: Seq<AccountOp>) -> bool {
    forall|k: int| 0 <= k < ops.len() ==> !((#[trigger] ops[k]) is Answered || ops[k] is Abandoned)
}

/// **One login at a time.** From the moment a login starts until its request is answered or it is
/// given up, every other login is refused, forced or not, whatever else happens meanwhile.
pub proof fn one_login_at_a_time(
    account: AccountView,
    ops: Seq<AccountOp>,
    stored: Option<StoredView>,
    force: bool,
    now: int,
)
    requires
        account.starting is Some,
        untouched(ops),
    ensures
        after_all(account, ops).starting == account.starting,
        after_all(account, ops).login_gate(stored, force, now) is Err,
        stored is None || force ==> after_all(account, ops).login_gate(stored, force, now) == Err::<
            (),
            ErrorView,
        >(ErrorView::LoginInFlight),
    decreases ops.len(),
{
    if ops.len() > 0 {
        let before = ops.drop_last();
        assert forall|k: int| 0 <= k < before.len() implies !((#[trigger] before[k]) is Answered
            || before[k] is Abandoned) by {
            assert(before[k] == ops[k]);
        }
        one_login_at_a_time(account, before, stored, force, now);
        assert(ops.last() == ops[ops.len() - 1]);
    }
}

/// **An account is not replaced unless that is forced,** and the refusal comes before anything
/// else is looked at, so that no code is asked for to arrive at it.
pub proof fn an_account_is_not_replaced_unforced(account: AccountView, stored: StoredView, now: int)
    ensures
        account.login_gate(Some(stored), false, now) == Err::<(), ErrorView>(
            ErrorView::AlreadySignedIn(
                match stored.username {
                    Some(who) => who,
                    None => "another account"@,
                },
            ),
        ),
{
}

/// **`force` gets past everything but a login that is being started this instant:** an account
/// the robot belongs to, and a code nobody is going to approve.
pub proof fn force_gets_past(account: AccountView, stored: Option<StoredView>, now: int)
    requires
        account.starting is None,
    ensures
        account.login_gate(stored, true, now) is Ok,
{
}

/// **A code holds the robot for as long as it is good, and no longer.** While it is, a login that
/// is not forced is refused; from the instant it runs out, one on a robot that belongs to nobody
/// starts.
pub proof fn a_code_holds_the_robot_while_it_lasts(
    account: AccountView,
    code: DeviceCodeView,
    started: int,
    now: int,
)
    requires
        account.starts(),
        answerable(account, Ok(code), started, started),
    ensures
        account.with_login(code, started).login_gate(None, false, now) == (if now < started
            + code.expires_in * NANOS_PER_SEC {
            Err::<(), ErrorView>(ErrorView::LoginInFlight)
        } else {
            Ok(())
        }),
{
}

// ── superseding what is in flight ────────────────────────────────────────────

/// How many of some calls give the next number to the current login.
pub open spec fn bumps(account: AccountView, ops: Seq<AccountOp>) -> nat
    decreases ops.len(),
{
    if ops.len() == 0 {
        0
    } else {
        bumps(account, ops.drop_last()) + (match ops.last() {
            AccountOp::Answered(Ok(_), _, _) => if after_all(account, ops.drop_last()).starts() {
                1nat
            } else {
                0nat
            },
            AccountOp::Logout => 1nat,
            _ => 0nat,
        })
    }
}

/// **The number of the current login only ever grows,** by one for each login that gets a code
/// and each logout. The number is one of sixty-four bits; the law is of what happens before the
/// last of them is used.
pub proof fn numbers_only_grow(account: AccountView, ops: Seq<AccountOp>)
    requires
        may_all(account, ops),
        account.generation + bumps(account, ops) <= u64::MAX,
    ensures
        after_all(account, ops).generation == account.generation + bumps(account, ops),
    decreases ops.len(),
{
    if ops.len() > 0 {
        numbers_only_grow(account, ops.drop_last());
    }
}

/// How many of some calls hand the robot over: a logout, and an approval on its way to the store.
pub open spec fn hand_overs(account: AccountView, ops: Seq<AccountOp>) -> nat
    decreases ops.len(),
{
    if ops.len() == 0 {
        0
    } else {
        hand_overs(account, ops.drop_last()) + (match ops.last() {
            AccountOp::Logout => 1nat,
            AccountOp::Heard(flow, FlowEventView::Named(_, _)) => if flow.generation == after_all(
                account,
                ops.drop_last(),
            ).generation {
                1nat
            } else {
                0nat
            },
            _ => 0nat,
        })
    }
}

/// **The number of the holder only ever grows,** by one for each logout and each approval on its
/// way to the store.
pub proof fn holders_only_grow(account: AccountView, ops: Seq<AccountOp>)
    requires
        may_all(account, ops),
        account.holder + hand_overs(account, ops) <= u64::MAX,
    ensures
        after_all(account, ops).holder == account.holder + hand_overs(account, ops),
    decreases ops.len(),
{
    if ops.len() > 0 {
        holders_only_grow(account, ops.drop_last());
    }
}

/// **Once superseded, always superseded.** A flow that a logout or another login has disowned is
/// never current again, whatever follows; and neither is a renewal or a question for a name once
/// the robot has changed hands.
pub proof fn once_superseded_always_superseded(
    account: AccountView,
    flow: FlowView,
    holder: u64,
    ops: Seq<AccountOp>,
)
    requires
        may_all(account, ops),
    ensures
        flow.generation < account.generation && account.generation + bumps(account, ops) <= u64::MAX
            ==> after_all(account, ops).generation != flow.generation,
        holder < account.holder && account.holder + hand_overs(account, ops) <= u64::MAX
            ==> after_all(account, ops).holder != holder,
{
    if account.generation + bumps(account, ops) <= u64::MAX {
        numbers_only_grow(account, ops);
    }
    if account.holder + hand_overs(account, ops) <= u64::MAX {
        holders_only_grow(account, ops);
    }
}

/// **A flow is current from its start, until a logout or another login that gets a code.** Each
/// disowns it. A logout disowns renewals and questions for a name with it; a login that waits for
/// its approval does not, and its approval does.
pub proof fn what_supersedes(
    account: AccountView,
    code: DeviceCodeView,
    now: int,
    ticks: int,
    next: DeviceCodeView,
    later: int,
)
    requires
        account.starts(),
        answerable(account, Ok(code), now, ticks),
        account.generation < u64::MAX - 1,
    ensures
        ({
            let waiting = account.with_login(code, now);
            let flow = FlowView::started(code, waiting.generation, ticks);
            &&& waiting.generation == flow.generation
            &&& waiting.superseded().generation > flow.generation
            &&& waiting.with_login(next, later).generation > flow.generation
            &&& waiting.holder == account.holder
            &&& waiting.superseded().holder != waiting.holder
            &&& waiting.handed_over().holder != waiting.holder
        }),
{
}

/// **A logout abandons a login that is being started.** Whatever else happens between, a code that
/// comes back after a logout starts no flow and is shown to nobody, and the account is left as it
/// is but for letting the next login start.
pub proof fn a_logout_abandons_a_login_being_started(
    account: AccountView,
    ops: Seq<AccountOp>,
    k: int,
    answer: Result<DeviceCodeView, ErrorView>,
    now: int,
    ticks: int,
)
    requires
        account.starts(),
        may_all(account, ops),
        untouched(ops),
        0 <= k < ops.len(),
        ops[k] is Logout,
        account.generation + bumps(account, ops) <= u64::MAX,
    ensures
        ({
            let reached = after_all(account, ops);
            &&& !reached.starts()
            &&& after(reached, AccountOp::Answered(answer, now, ticks)) == AccountView {
                starting: None,
                ..reached
            }
        }),
{
    one_login_at_a_time(account, ops, None, false, 0);
    numbers_only_grow(account, ops);
    lemma_a_logout_bumps(account, ops, k);
}

proof fn lemma_a_logout_bumps(account: AccountView, ops: Seq<AccountOp>, k: int)
    requires
        0 <= k < ops.len(),
        ops[k] is Logout,
    ensures
        bumps(account, ops) >= 1,
    decreases ops.len(),
{
    if k < ops.len() - 1 {
        assert(ops.drop_last()[k] == ops[k]);
        lemma_a_logout_bumps(account, ops.drop_last(), k);
    }
}

proof fn lemma_a_logout_hands_over(account: AccountView, ops: Seq<AccountOp>, k: int)
    requires
        0 <= k < ops.len(),
        ops[k] is Logout,
    ensures
        hand_overs(account, ops) >= 1,
    decreases ops.len(),
{
    if k < ops.len() - 1 {
        assert(ops.drop_last()[k] == ops[k]);
        lemma_a_logout_hands_over(account, ops.drop_last(), k);
    }
}

/// Whether some calls can be made one after another without the last of the numbers being used.
pub open spec fn within_numbers(account: AccountView, ops: Seq<AccountOp>) -> bool {
    &&& may_all(account, ops)
    &&& account.generation + bumps(account, ops) <= u64::MAX
    &&& account.holder + hand_overs(account, ops) <= u64::MAX
}

/// **A superseded flow leaves the account alone,** whatever it hears: neither the login that
/// replaced it nor what went wrong before is touched.
pub proof fn a_superseded_flow_leaves_the_account_alone(
    account: AccountView,
    flow: FlowView,
    event: FlowEventView,
)
    requires
        flow.accepts(event),
        account.generation != flow.generation,
    ensures
        flow.next(account, event).account == account,
{
}

// ── everybody on one store ───────────────────────────────────────────────────

/// Somebody who writes to the store.
pub enum Party {
    Flow(FlowView),
    Renewal(RenewalView),
    Naming(NamingView),
}

/// What one of them hears.
pub enum PartyEvent {
    Flow(FlowEventView),
    Renewal(RenewalEventView),
    Naming(NamingEventView),
}

/// What one of them asks of the store.
pub enum Asked {
    Nothing,
    Save(StoredView),
    Discard(StoredView),
}

/// What an action of a flow asks of the store.
pub open spec fn flow_asks(action: FlowActionView) -> Asked {
    match action {
        FlowActionView::Save(record) => Asked::Save(record),
        FlowActionView::Discard(record) => Asked::Discard(record),
        _ => Asked::Nothing,
    }
}

/// What an action of a renewal, or of the question for a name, asks of the store.
pub open spec fn upkeep_asks(action: UpkeepActionView) -> Asked {
    match action {
        UpkeepActionView::Save(record) => Asked::Save(record),
        UpkeepActionView::Discard(record) => Asked::Discard(record),
        _ => Asked::Nothing,
    }
}

/// What a phase of a renewal, or of the question for a name, waits to hear of.
pub open spec fn upkeep_waits(phase: UpkeepPhase, record: Option<StoredView>) -> Asked {
    match phase {
        UpkeepPhase::Saving => Asked::Save(record->0),
        UpkeepPhase::Discarding => Asked::Discard(record->0),
        _ => Asked::Nothing,
    }
}

impl Party {
    /// Whether it was withdrawn, in the account as it is by then.
    pub open spec fn superseded(self, account: AccountView) -> bool {
        match self {
            Party::Flow(flow) => account.generation != flow.generation,
            Party::Renewal(renewal) => account.holder != renewal.holder,
            Party::Naming(naming) => account.holder != naming.holder,
        }
    }

    /// Whether it was started in this account or before: its number is not a later one.
    pub open spec fn is_of(self, account: AccountView) -> bool {
        match self {
            Party::Flow(flow) => flow.generation <= account.generation,
            Party::Renewal(renewal) => renewal.holder <= account.holder,
            Party::Naming(naming) => naming.holder <= account.holder,
        }
    }

    /// What of the store it waits to hear of.
    pub open spec fn waits(self) -> Asked {
        match self {
            Party::Flow(flow) => match flow.phase {
                PhaseView::Saving(record) => Asked::Save(record),
                PhaseView::Discarding(record) => Asked::Discard(record),
                _ => Asked::Nothing,
            },
            Party::Renewal(renewal) => upkeep_waits(renewal.phase, renewal.record),
            Party::Naming(naming) => upkeep_waits(naming.phase, naming.record),
        }
    }

    /// Whether it has come to its end.
    pub open spec fn is_over(self) -> bool {
        match self {
            Party::Flow(flow) => flow.phase is Over,
            Party::Renewal(renewal) => renewal.phase == UpkeepPhase::Over,
            Party::Naming(naming) => naming.phase == UpkeepPhase::Over,
        }
    }

    /// Whether it can hear an event.
    pub open spec fn accepts(self, event: PartyEvent) -> bool {
        match (self, event) {
            (Party::Flow(flow), PartyEvent::Flow(event)) => flow.accepts(event),
            (Party::Renewal(renewal), PartyEvent::Renewal(event)) => renewal.accepts(event),
            (Party::Naming(naming), PartyEvent::Naming(event)) => naming.accepts(event),
            _ => false,
        }
    }

    /// Where an event leads, and what is asked of the store then.
    pub open spec fn next(self, account: AccountView, event: PartyEvent) -> (Party, Asked) {
        match (self, event) {
            (Party::Flow(flow), PartyEvent::Flow(event)) => {
                let step = flow.next(account, event);
                (Party::Flow(step.flow), flow_asks(step.action))
            },
            (Party::Renewal(renewal), PartyEvent::Renewal(event)) => {
                let step = renewal.next(account, event);
                (Party::Renewal(step.0), upkeep_asks(step.1))
            },
            (Party::Naming(naming), PartyEvent::Naming(event)) => {
                let step = naming.next(account, event);
                (Party::Naming(step.0), upkeep_asks(step.1))
            },
            _ => (self, Asked::Nothing),
        }
    }
}

/// Whether an event says that a record was written.
pub open spec fn says_written(event: PartyEvent) -> bool {
    match event {
        PartyEvent::Flow(FlowEventView::Saved(saved)) => saved is Ok,
        PartyEvent::Renewal(RenewalEventView::Saved(saved)) => saved is Ok,
        PartyEvent::Naming(NamingEventView::Saved(saved)) => saved is Ok,
        _ => false,
    }
}

/// One of those who write to the store, what it asks of it, and whether that has been done yet:
/// `Some(false)` if it failed without a trace.
pub struct Member {
    pub party: Party,
    pub asked: Asked,
    pub done: Option<bool>,
}

/// All who write to one store, and what it holds.
pub struct World {
    pub members: Seq<Member>,
    pub stored: Option<StoredView>,
}

/// One thing that happens. What is asked of the store is done at one time, and heard of at
/// another; any of the others may come between.
pub enum Turn {
    /// What this one asked of the store is done, or fails.
    Acts { who: int, works: bool },
    /// This one hears something, in the account as it is by then.
    Hears { who: int, account: AccountView, event: PartyEvent },
}

/// Whether a turn can come: a record is taken back where it is, and nobody hears of what was not
/// done.
pub open spec fn can(world: World, turn: Turn) -> bool {
    match turn {
        Turn::Acts { who, works } => {
            &&& 0 <= who < world.members.len()
            &&& world.members[who].done is None
            &&& !(world.members[who].asked is Nothing)
            &&& world.members[who].asked is Discard ==> works
        },
        Turn::Hears { who, account: _, event } => {
            &&& 0 <= who < world.members.len()
            &&& world.members[who].party.accepts(event)
            &&& !(world.members[who].asked is Nothing) ==> world.members[who].done is Some
            &&& says_written(event) ==> world.members[who].done == Some(true)
        },
    }
}

/// The world after a turn. Taking a record back leaves any other alone.
pub open spec fn turned(world: World, turn: Turn) -> World {
    match turn {
        Turn::Acts { who, works } => {
            let member = world.members[who];
            World {
                members: world.members.update(who, Member { done: Some(works), ..member }),
                stored: match member.asked {
                    Asked::Save(record) => if works {
                        Some(record)
                    } else {
                        world.stored
                    },
                    Asked::Discard(record) => if world.stored == Some(record) {
                        None
                    } else {
                        world.stored
                    },
                    Asked::Nothing => world.stored,
                },
            }
        },
        Turn::Hears { who, account, event } => {
            let next = world.members[who].party.next(account, event);
            World {
                members: world.members.update(
                    who,
                    Member { party: next.0, asked: next.1, done: None },
                ),
                ..world
            }
        },
    }
}

/// The world after one turn after another.
pub open spec fn turned_all(world: World, turns: Seq<Turn>) -> World
    decreases turns.len(),
{
    if turns.len() == 0 {
        world
    } else {
        turned(turned_all(world, turns.drop_last()), turns.last())
    }
}

/// Whether one turn after another can come, with everybody superseded whenever they hear
/// something.
pub open spec fn all_superseded(world: World, turns: Seq<Turn>) -> bool
    decreases turns.len(),
{
    turns.len() > 0 ==> {
        let reached = turned_all(world, turns.drop_last());
        &&& all_superseded(world, turns.drop_last())
        &&& can(reached, turns.last())
        &&& match turns.last() {
            Turn::Hears { who, account, event: _ } => reached.members[who].party.superseded(
                account,
            ),
            _ => true,
        }
    }
}

/// Whether everybody asks of the store what they wait to hear of.
pub open spec fn is_consistent(world: World) -> bool {
    forall|i: int|
        0 <= i < world.members.len() ==> (#[trigger] world.members[i]).asked
            == world.members[i].party.waits()
}

/// Whether the store holds a record that this one has written and not yet taken back.
spec fn owns(member: Member, stored: Option<StoredView>) -> bool {
    ||| member.asked matches Asked::Save(record) && stored == Some(record) && member.done == Some(true)
    ||| member.asked matches Asked::Discard(record) && stored == Some(record) && member.done is None
}

/// What somebody superseded asks of the store after an event: nothing, but to take back what they
/// had asked to be written.
proof fn lemma_superseded_asks(party: Party, account: AccountView, event: PartyEvent)
    requires
        party.accepts(event),
        party.superseded(account),
    ensures
        party.next(account, event).1 == party.next(account, event).0.waits(),
        match party.waits() {
            Asked::Save(record) => party.next(account, event).1 == Asked::Discard(record),
            _ => party.next(account, event).1 is Nothing,
        },
{
}

proof fn lemma_everybody(world: World, turns: Seq<Turn>)
    requires
        is_consistent(world),
        all_superseded(world, turns),
    ensures
        ({
            let reached = turned_all(world, turns);
            &&& reached.members.len() == world.members.len()
            &&& is_consistent(reached)
            &&& world.stored is None && reached.stored is Some ==> exists|i: int|
                0 <= i < reached.members.len() && owns(
                    #[trigger] reached.members[i],
                    reached.stored,
                )
            &&& quiet(world) ==> quiet(reached) && reached.stored == world.stored
        }),
    decreases turns.len(),
{
    if turns.len() > 0 {
        let before = turned_all(world, turns.drop_last());
        let reached = turned_all(world, turns);
        lemma_everybody(world, turns.drop_last());
        match turns.last() {
            Turn::Acts { who, works } => {
                if world.stored is None && reached.stored is Some {
                    if before.members[who].asked is Save && works {
                        assert(owns(reached.members[who], reached.stored));
                    } else {
                        let i = choose|i: int|
                            0 <= i < before.members.len() && owns(
                                #[trigger] before.members[i],
                                before.stored,
                            );
                        assert(i != who);
                        assert(owns(reached.members[i], reached.stored));
                    }
                }
            },
            Turn::Hears { who, account, event } => {
                lemma_superseded_asks(before.members[who].party, account, event);
                if world.stored is None && reached.stored is Some {
                    let i = choose|i: int|
                        0 <= i < before.members.len() && owns(
                            #[trigger] before.members[i],
                            before.stored,
                        );
                    assert(owns(reached.members[i], reached.stored));
                }
            },
        }
    }
}

/// Whether nobody asks anything of the store.
pub open spec fn quiet(world: World) -> bool {
    forall|i: int| 0 <= i < world.members.len() ==> (#[trigger] world.members[i]).asked is Nothing
}

/// **A robot signed out stays signed out.** However many logins, renewals and questions for a name
/// were in flight when it was, however far each had come, however they go on and in whatever
/// order: whatever one of them still writes it takes back, and once all have come to their end the
/// store is empty.
pub proof fn signed_out_stays_signed_out(world: World, turns: Seq<Turn>)
    requires
        is_consistent(world),
        all_superseded(world, turns),
        world.stored is None,
        forall|i: int|
            0 <= i < world.members.len() ==> (#[trigger] turned_all(
                world,
                turns,
            ).members[i]).party.is_over(),
    ensures
        turned_all(world, turns).stored is None,
{
    lemma_everybody(world, turns);
}

/// **A logout supersedes everybody.** Whoever was in flight when the robot was signed out — a
/// login, a renewal, a question for a name — is superseded from then on, whatever follows.
pub proof fn a_logout_supersedes_everybody(
    account: AccountView,
    ops: Seq<AccountOp>,
    k: int,
    party: Party,
)
    requires
        within_numbers(account, ops),
        0 <= k < ops.len(),
        ops[k] is Logout,
        party.is_of(account),
    ensures
        party.superseded(after_all(account, ops)),
{
    lemma_a_logout_bumps(account, ops, k);
    lemma_a_logout_hands_over(account, ops, k);
    numbers_only_grow(account, ops);
    holders_only_grow(account, ops);
}

proof fn lemma_within_numbers_before(account: AccountView, ops: Seq<AccountOp>, n: int)
    requires
        within_numbers(account, ops),
        0 <= n <= ops.len(),
    ensures
        within_numbers(account, ops.take(n)),
    decreases ops.len(),
{
    if n == ops.len() {
        assert(ops.take(n) =~= ops);
    } else {
        lemma_within_numbers_before(account, ops.drop_last(), n);
        assert(ops.drop_last().take(n) =~= ops.take(n));
    }
}

/// Whether one turn after another can come while some calls are made on the account, the first of
/// them a logout: whoever hears something hears it after that, at whatever point.
pub open spec fn all_after_logout(
    account: AccountView,
    ops: Seq<AccountOp>,
    world: World,
    turns: Seq<Turn>,
) -> bool
    decreases turns.len(),
{
    turns.len() > 0 ==> {
        &&& all_after_logout(account, ops, world, turns.drop_last())
        &&& can(turned_all(world, turns.drop_last()), turns.last())
        &&& match turns.last() {
            Turn::Hears { who: _, account: then, event: _ } => exists|n: int|
                1 <= n <= ops.len() && then == #[trigger] after_all(account, ops.take(n)),
            _ => true,
        }
    }
}

proof fn lemma_all_are_superseded(
    account: AccountView,
    ops: Seq<AccountOp>,
    world: World,
    turns: Seq<Turn>,
)
    requires
        within_numbers(account, ops),
        ops.len() > 0,
        ops[0] is Logout,
        all_after_logout(account, ops, world, turns),
        forall|i: int| 0 <= i < world.members.len() ==> (#[trigger] world.members[i]).party.is_of(account),
    ensures
        all_superseded(world, turns),
        turned_all(world, turns).members.len() == world.members.len(),
        forall|i: int|
            0 <= i < world.members.len() ==> (#[trigger] turned_all(
                world,
                turns,
            ).members[i]).party.is_of(account),
    decreases turns.len(),
{
    if turns.len() > 0 {
        lemma_all_are_superseded(account, ops, world, turns.drop_last());
        let before = turned_all(world, turns.drop_last());
        match turns.last() {
            Turn::Hears { who, account: then, event: _ } => {
                let n = choose|n: int|
                    1 <= n <= ops.len() && then == #[trigger] after_all(account, ops.take(n));
                lemma_within_numbers_before(account, ops, n);
                assert(ops.take(n)[0] == ops[0]);
                a_logout_supersedes_everybody(account, ops.take(n), 0, before.members[who].party);
            },
            _ => {},
        }
    }
}

/// **After a logout the store stays empty.** Whoever was in flight when the robot was signed out,
/// however far each had come and whatever is done with the account afterwards: once all of them
/// have come to their end, the store, which the logout has cleared, is empty.
pub proof fn after_a_logout_the_store_stays_empty(
    account: AccountView,
    ops: Seq<AccountOp>,
    world: World,
    turns: Seq<Turn>,
)
    requires
        within_numbers(account, ops),
        ops.len() > 0,
        ops[0] is Logout,
        all_after_logout(account, ops, world, turns),
        is_consistent(world),
        world.stored is None,
        forall|i: int| 0 <= i < world.members.len() ==> (#[trigger] world.members[i]).party.is_of(account),
        forall|i: int|
            0 <= i < world.members.len() ==> (#[trigger] turned_all(
                world,
                turns,
            ).members[i]).party.is_over(),
    ensures
        turned_all(world, turns).stored is None,
{
    lemma_all_are_superseded(account, ops, world, turns);
    signed_out_stays_signed_out(world, turns);
}

/// **Who is no longer current does nothing at all.** Logins, renewals and questions for a name
/// that were superseded before they came to write leave the store as it is at every instant,
/// whatever it holds: what a newer login has stored is neither written over nor removed.
pub proof fn the_superseded_leave_the_store_alone(world: World, turns: Seq<Turn>)
    requires
        is_consistent(world),
        all_superseded(world, turns),
        quiet(world),
    ensures
        turned_all(world, turns).stored == world.stored,
        quiet(turned_all(world, turns)),
{
    lemma_everybody(world, turns);
}

// ── waiting for approval ─────────────────────────────────────────────────────

/// A flow at some instant, and what it wants done.
pub struct FlowPoint {
    pub flow: FlowView,
    pub action: FlowActionView,
}

/// What a flow has come to after some steps: each the account as it was by then, and what the flow
/// heard.
pub open spec fn flow_point(start: FlowPoint, steps: Seq<(AccountView, FlowEventView)>) -> FlowPoint
    decreases steps.len(),
{
    if steps.len() == 0 {
        start
    } else {
        let (account, event) = steps.last();
        let step = flow_point(start, steps.drop_last()).flow.next(account, event);
        FlowPoint { flow: step.flow, action: step.action }
    }
}

/// Whether some steps can happen to a flow.
pub open spec fn flow_happens(start: FlowPoint, steps: Seq<(AccountView, FlowEventView)>) -> bool
    decreases steps.len(),
{
    steps.len() > 0 ==> {
        &&& flow_happens(start, steps.drop_last())
        &&& flow_point(start, steps.drop_last()).flow.accepts(steps.last().1)
    }
}

proof fn lemma_flow_keeps(start: FlowPoint, steps: Seq<(AccountView, FlowEventView)>)
    requires
        flow_happens(start, steps),
    ensures
        ({
            let point = flow_point(start, steps);
            &&& point.flow.generation == start.flow.generation
            &&& point.flow.code == start.flow.code
            &&& point.flow.deadline == start.flow.deadline
        }),
    decreases steps.len(),
{
    if steps.len() > 0 {
        lemma_flow_keeps(start, steps.drop_last());
    }
}

/// How often a flow was told to slow down.
pub open spec fn slow_downs(steps: Seq<(AccountView, FlowEventView)>) -> nat
    decreases steps.len(),
{
    if steps.len() == 0 {
        0
    } else {
        slow_downs(steps.drop_last()) + (if steps.last().1 == FlowEventView::Polled(
            PollView::SlowDown,
        ) {
            1nat
        } else {
            0nat
        })
    }
}

/// **A flow never polls faster than it was asked to.** Its interval is the server's, at least a
/// second, and five seconds more for each time it was told to slow down; and every wait is that
/// long.
pub proof fn polling_keeps_its_distance(
    code: DeviceCodeView,
    generation: u64,
    ticks: int,
    steps: Seq<(AccountView, FlowEventView)>,
)
    requires
        flow_happens(flow_start(code, generation, ticks), steps),
    ensures
        ({
            let point = flow_point(flow_start(code, generation, ticks), steps);
            &&& point.flow.interval == (if code.interval < 1 {
                1
            } else {
                code.interval
            }) + 5 * slow_downs(steps)
            &&& point.action matches FlowActionView::Sleep(secs) ==> secs == point.flow.interval
        }),
    decreases steps.len(),
{
    if steps.len() > 0 {
        polling_keeps_its_distance(code, generation, ticks, steps.drop_last());
    }
}

/// A flow at its start, which begins with a wait.
pub open spec fn flow_start(code: DeviceCodeView, generation: u64, ticks: int) -> FlowPoint {
    let flow = FlowView::started(code, generation, ticks);
    FlowPoint { flow, action: FlowActionView::Sleep(flow.interval) }
}

/// **A flow polls with its own code, and only while that is good.** Whatever it has heard, a poll
/// follows the end of a wait before the code has run out, and names the code; the end of a wait
/// after that ends the flow.
pub proof fn polling_ends_with_the_code(
    code: DeviceCodeView,
    generation: u64,
    ticks: int,
    steps: Seq<(AccountView, FlowEventView)>,
    account: AccountView,
    event: FlowEventView,
)
    requires
        flow_happens(flow_start(code, generation, ticks), steps),
        flow_point(flow_start(code, generation, ticks), steps).flow.accepts(event),
    ensures
        ({
            let flow = flow_point(flow_start(code, generation, ticks), steps).flow;
            let step = flow.next(account, event);
            let deadline = ticks + code.expires_in * NANOS_PER_SEC;
            &&& step.action matches FlowActionView::Poll(request) ==> {
                &&& event matches FlowEventView::Woke(now) && now < deadline
                &&& request == RequestView::poll(account.config, code.device_code)
            }
            &&& (event matches FlowEventView::Woke(now) && now >= deadline) ==> step.action is Stop
                && step.flow.phase is Over
        }),
{
    lemma_flow_keeps(flow_start(code, generation, ticks), steps);
}

/// How often a flow has polled.
pub open spec fn polls(start: FlowPoint, steps: Seq<(AccountView, FlowEventView)>) -> nat
    decreases steps.len(),
{
    if steps.len() == 0 {
        0
    } else {
        polls(start, steps.drop_last()) + (if flow_point(start, steps).action is Poll {
            1nat
        } else {
            0nat
        })
    }
}

/// When a flow last woke, or was started.
pub open spec fn last_woke(ticks: int, steps: Seq<(AccountView, FlowEventView)>) -> int
    decreases steps.len(),
{
    if steps.len() == 0 {
        ticks
    } else {
        match steps.last().1 {
            FlowEventView::Woke(now) => now,
            _ => last_woke(ticks, steps.drop_last()),
        }
    }
}

/// Whether a flow that was started at `ticks` never woke before the wait it asked for was over.
pub open spec fn sleeps_enough(
    start: FlowPoint,
    ticks: int,
    steps: Seq<(AccountView, FlowEventView)>,
) -> bool
    decreases steps.len(),
{
    steps.len() > 0 ==> {
        &&& sleeps_enough(start, ticks, steps.drop_last())
        &&& match (steps.last().1, flow_point(start, steps.drop_last()).action) {
            (FlowEventView::Woke(now), FlowActionView::Sleep(secs)) => now >= last_woke(
                ticks,
                steps.drop_last(),
            ) + secs * NANOS_PER_SEC,
            _ => true,
        }
    }
}

/// How many steps a flow has taken that has polled `polls` times, by how far it has come.
spec fn steps_taken(flow: FlowView, polls: nat, steps: nat) -> bool {
    match flow.phase {
        PhaseView::Sleeping => steps == 2 * polls,
        PhaseView::Polling => steps + 1 == 2 * polls,
        PhaseView::Naming(_) => steps == 2 * polls,
        PhaseView::Saving(_) => steps == 2 * polls + 1,
        PhaseView::Discarding(_) => steps == 2 * polls + 2,
        PhaseView::Over => steps <= 2 * polls + 3,
    }
}

/// The seconds between two polls that a server asked for, at least one.
pub open spec fn least_interval(code: DeviceCodeView) -> int {
    if code.interval < 1 {
        1
    } else {
        code.interval as int
    }
}

proof fn lemma_polls(
    code: DeviceCodeView,
    generation: u64,
    ticks: int,
    steps: Seq<(AccountView, FlowEventView)>,
)
    requires
        flow_happens(flow_start(code, generation, ticks), steps),
        sleeps_enough(flow_start(code, generation, ticks), ticks, steps),
    ensures
        ({
            let start = flow_start(code, generation, ticks);
            let point = flow_point(start, steps);
            let n = polls(start, steps);
            &&& n == 0 || n * least_interval(code) < code.expires_in
            &&& last_woke(ticks, steps) >= ticks + n * least_interval(code) * NANOS_PER_SEC
            &&& point.flow.phase is Sleeping ==> point.action is Sleep
            &&& steps_taken(point.flow, n, steps.len())
        }),
    decreases steps.len(),
{
    let start = flow_start(code, generation, ticks);
    let least = least_interval(code);
    if steps.len() > 0 {
        let before = steps.drop_last();
        lemma_polls(code, generation, ticks, before);
        lemma_flow_keeps(start, before);
        polling_keeps_its_distance(code, generation, ticks, before);
        let point = flow_point(start, before);
        let n = polls(start, before);
        if let FlowEventView::Woke(now) = steps.last().1 {
            assert((n + 1) * least == n * least + least) by (nonlinear_arith);
            assert(point.flow.interval >= least);
            assert(now >= ticks + (n + 1) * least * NANOS_PER_SEC);
            if flow_point(start, steps).action is Poll {
                assert(now < point.flow.deadline);
                assert((n + 1) * least < code.expires_in);
            }
        }
    }
}

/// **The deadline bounds the wait.** However a flow is answered, as long as it never wakes before
/// the wait it asked for is over: it polls so often at most that the waits between fit in the
/// code's life, it takes two steps for each poll and three more, and a wake-up at the deadline or
/// after it ends it.
pub proof fn a_flow_ends_and_its_polls_are_bounded(
    code: DeviceCodeView,
    generation: u64,
    ticks: int,
    steps: Seq<(AccountView, FlowEventView)>,
    account: AccountView,
    now: int,
)
    requires
        flow_happens(flow_start(code, generation, ticks), steps),
        sleeps_enough(flow_start(code, generation, ticks), ticks, steps),
    ensures
        ({
            let start = flow_start(code, generation, ticks);
            let k = polls(start, steps);
            let flow = flow_point(start, steps).flow;
            &&& k == 0 || k * least_interval(code) < code.expires_in
            &&& steps.len() <= 2 * k + 3
            &&& flow.accepts(FlowEventView::Woke(now)) && now >= ticks + code.expires_in
                * NANOS_PER_SEC ==> {
                let step = flow.next(account, FlowEventView::Woke(now));
                step.action is Stop && step.flow.phase is Over
            }
            &&& flow.phase is Over ==> forall|event: FlowEventView| !#[trigger] flow.accepts(event)
        }),
{
    lemma_polls(code, generation, ticks, steps);
    lemma_flow_keeps(flow_start(code, generation, ticks), steps);
}

/// **Only an answer about a login ends it.** Nobody having approved yet, a server that wants
/// longer intervals and a server that is in trouble do not: the flow waits on, and nothing is said
/// of it.
pub proof fn only_an_answer_ends_a_login(account: AccountView, flow: FlowView, poll: PollView)
    requires
        flow.accepts(FlowEventView::Polled(poll)),
        poll is Pending || poll is SlowDown || poll is Inconclusive,
    ensures
        ({
            let step = flow.next(account, FlowEventView::Polled(poll));
            &&& step.account == account
            &&& step.flow.phase is Sleeping
            &&& step.action == FlowActionView::Sleep(
                (if poll is SlowDown {
                    (flow.interval + 5) as u64
                } else {
                    flow.interval
                }),
            )
        }),
{
}

/// **A login that fails says why, and lets the robot go.** A refusal, and a code that ran out, end
/// the login in flight and are what `status` then reports.
pub proof fn a_failed_login_says_why(account: AccountView, flow: FlowView, why: Seq<char>, now: int)
    requires
        account.generation == flow.generation,
        now >= flow.deadline,
    ensures
        ({
            let refused = flow.next(account, FlowEventView::Polled(PollView::Refused(why)));
            let expired = flow.next(account, FlowEventView::Woke(now));
            &&& refused.action is Stop
            &&& refused.account == AccountView { pending: None, last_error: Some(why), ..account }
            &&& expired.action is Stop
            &&& expired.account == AccountView {
                pending: None,
                last_error: Some("the code expired before it was approved"@),
                ..account
            }
        }),
{
}

/// **What is approved is what is stored, name or no name.** Once a poll brings a token to a flow
/// that is current, the flow asks who it belongs to, stores the token whatever the answer — under
/// the name, or under none — and settles the login once that is written: `status` then names the
/// account, shows no login and has nothing to complain of. Whatever else has happened to the
/// account between the steps does not matter, as long as the flow is current.
pub proof fn what_is_approved_is_what_is_stored(
    flow: FlowView,
    token: TokenView,
    name: Result<Seq<char>, ErrorView>,
    now: i64,
    approved: AccountView,
    named: AccountView,
    written: AccountView,
    later: int,
)
    requires
        flow.phase is Polling,
        approved.generation == flow.generation,
        named.generation == flow.generation,
        written.generation == flow.generation,
    ensures
        ({
            let asking = flow.next(approved, FlowEventView::Polled(PollView::Token(token)));
            let storing = asking.flow.next(named, FlowEventView::Named(name, now));
            let over = storing.flow.next(written, FlowEventView::Saved(Ok(())));
            let record = storing.action->Save_0;
            &&& asking.action == FlowActionView::AskName(
                RequestView::userinfo(approved.config, token.access_token),
            )
            &&& asking.flow.accepts(FlowEventView::Named(name, now))
            &&& storing.action is Save
            &&& record.access_token == token.access_token
            &&& record.refresh_token == token.refresh_token
            &&& record.expires_at == (match token.expires_in {
                Some(secs) if now + secs <= i64::MAX => Some((now + secs) as i64),
                Some(_) => Some(i64::MAX),
                None => None,
            })
            &&& record.username == (match name {
                Ok(name) => Some(name),
                Err(_) => None,
            })
            &&& over.action is Stop
            &&& over.account == AccountView { pending: None, last_error: None, ..written }
            &&& over.account.status(Some(record), later).login is None
            &&& over.account.status(Some(record), later).last_error is None
            &&& over.account.status(Some(record), later).account is Some
            &&& over.account.status(Some(record), later).account->0.username == (match name {
                Ok(name) => name,
                Err(_) => "unknown"@,
            })
            &&& over.account.status(Some(record), later).account->0.refreshable == (
            token.refresh_token is Some)
        }),
{
}

// ── status ───────────────────────────────────────────────────────────────────

/// **A client that lost track of a code finds it in `status`, counted down.** For as long as the
/// code is good, `status` shows the login with everything it was started with, and the whole
/// seconds that are left: all of them at the start, never more than before, none once it has run
/// out.
pub proof fn a_login_can_be_rejoined(
    account: AccountView,
    code: DeviceCodeView,
    started: int,
    stored: Option<StoredView>,
    earlier: int,
    later: int,
)
    requires
        account.starts(),
        answerable(account, Ok(code), started, started),
        started <= earlier <= later,
    ensures
        ({
            let waiting = account.with_login(code, started);
            let deadline = started + code.expires_in * NANOS_PER_SEC;
            let at_start = waiting.status(stored, started).login;
            let at_first = waiting.status(stored, earlier).login;
            let at_last = waiting.status(stored, later).login;
            &&& at_start == Some(login_of(code))
            &&& at_last is Some <==> later <= deadline
            &&& at_last is Some ==> {
                &&& at_last->0.user_code == code.user_code
                &&& at_last->0.verification_uri == code.verification_uri
                &&& at_last->0.verification_uri_complete == code.verification_uri_complete
                &&& at_last->0.interval == code.interval
                &&& at_first is Some
                &&& at_last->0.expires_in <= at_first->0.expires_in <= code.expires_in
            }
        }),
{
    let deadline = started + code.expires_in * NANOS_PER_SEC;
    let n = NANOS_PER_SEC as int;
    let whole = code.expires_in as int;
    assert((deadline - started) / n == whole) by (nonlinear_arith)
        requires
            deadline - started == whole * n,
            n == 1_000_000_000,
    ;
    if later <= deadline {
        assert(0 <= (deadline - later) / n <= (deadline - earlier) / n <= whole)
            by (nonlinear_arith)
            requires
                deadline - started == whole * n,
                started <= earlier <= later <= deadline,
                n == 1_000_000_000,
        ;
    }
}

/// **A robot out of the box, and one that was signed out, belong to nobody:** `status` has nobody
/// to name, no login to show and nothing to complain of.
pub proof fn a_robot_that_belongs_to_nobody(
    store: FileStoreView,
    config: ConfigView,
    account: AccountView,
    was: Option<Seq<char>>,
    now: int,
)
    ensures
        ({
            let nobody = StatusView { account: None, login: None, last_error: None };
            let fresh = AccountView {
                store,
                config,
                pending: None,
                generation: 0,
                holder: 0,
                starting: None,
                last_error: None,
            };
            let out = after(after(account, AccountOp::Logout), AccountOp::LoggedOut(Ok(was)));
            &&& fresh.status(None, now) == nobody
            &&& out.status(None, now) == nobody
        }),
{
}

/// **A sign-out that failed has not happened,** but for what is in flight: a login, a renewal and
/// a question for a name are disowned before the file is touched.
pub proof fn a_failed_sign_out_keeps_the_rest(account: AccountView, e: ErrorView)
    ensures
        after(after(account, AccountOp::Logout), AccountOp::LoggedOut(Err(e)))
            == account.superseded(),
{
}

// ── keeping the token fresh ──────────────────────────────────────────────────

/// **The rotated refresh token replaces the one that was spent, under the name that was there.**
/// A renewal offers the record's refresh token, and stores the answer's tokens and expiry with the
/// record's name, as long as the robot has not changed hands. A login that merely waits does not
/// matter.
pub proof fn a_renewal_keeps_the_name_and_takes_the_rotation(
    account: AccountView,
    record: StoredView,
    due: i64,
    token: TokenView,
    now: i64,
    answered: AccountView,
    saved: AccountView,
)
    requires
        account.config.renews(record, due),
        answered.holder == account.holder,
        saved.holder == account.holder,
    ensures
        ({
            let begun = account.renewal(Some(record), due);
            let event = RenewalEventView::Answered(Ok(token), now);
            let next = begun.0.next(answered, event);
            &&& begun.1 == UpkeepActionView::Send(
                RequestView::refresh(account.config, record.refresh_token->0),
            )
            &&& begun.0.accepts(event)
            &&& next.1 is Save
            &&& next.1->Save_0.access_token == token.access_token
            &&& next.1->Save_0.refresh_token == token.refresh_token
            &&& next.1->Save_0.username == record.username
            &&& next.0.accepts(RenewalEventView::Saved(Ok(())))
            &&& next.0.next(saved, RenewalEventView::Saved(Ok(()))).1 == UpkeepActionView::Finish(
                Ok(true),
            )
        }),
{
}

/// **A refused refresh leaves the credential alone.** It is reported, and nothing is written: the
/// renewal is over.
pub proof fn a_refused_refresh_writes_nothing(
    account: AccountView,
    stored: Option<StoredView>,
    due: i64,
    e: ErrorView,
    now: i64,
    answered: AccountView,
    event: RenewalEventView,
)
    requires
        account.renewal(stored, due).0.accepts(RenewalEventView::Answered(Err(e), now)),
    ensures
        ({
            let begun = account.renewal(stored, due).0;
            let refused = begun.next(answered, RenewalEventView::Answered(Err(e), now));
            &&& refused.1 == UpkeepActionView::Finish(Err(e))
            &&& !refused.0.accepts(event)
        }),
{
}

/// **What was asked for a robot that has changed hands since is not written.** A token or a name
/// that arrives after a logout, or after another approval was stored, comes to nothing.
pub proof fn withdrawn_upkeep_comes_to_nothing(
    account: AccountView,
    renewal: RenewalView,
    naming: NamingView,
    token: TokenView,
    name: Seq<char>,
    now: i64,
    later: RenewalEventView,
    latest: NamingEventView,
)
    requires
        account.holder != renewal.holder,
        account.holder != naming.holder,
    ensures
        ({
            let renewed = renewal.next(account, RenewalEventView::Answered(Ok(token), now));
            let named = naming.next(account, NamingEventView::Answered(Ok(name)));
            &&& renewed.1 == UpkeepActionView::Finish(Ok(false))
            &&& !renewed.0.accepts(later)
            &&& named.1 == UpkeepActionView::Finish(Ok(false))
            &&& !named.0.accepts(latest)
        }),
{
}

/// **A failure is reported whenever it comes.** A renewal, or a question for a name, that fails
/// says why, whether the robot has changed hands meanwhile or not: at once where the request
/// failed, and where the write did, once what it may have left has been taken back.
pub proof fn failed_upkeep_says_why(
    account: AccountView,
    later: AccountView,
    renewal: RenewalView,
    naming: NamingView,
    e: ErrorView,
    now: i64,
)
    ensures
        ({
            let saved = renewal.next(account, RenewalEventView::Saved(Err(e)));
            let named = naming.next(account, NamingEventView::Saved(Err(e)));
            &&& renewal.next(account, RenewalEventView::Answered(Err(e), now)).1
                == UpkeepActionView::Finish(Err(e))
            &&& naming.next(account, NamingEventView::Answered(Err(e))).1
                == UpkeepActionView::Finish(Err(e))
            &&& if account.holder == renewal.holder {
                saved.1 == UpkeepActionView::Finish(Err(e))
            } else {
                &&& saved.1 is Discard
                &&& saved.0.next(later, RenewalEventView::Discarded).1
                    == UpkeepActionView::Finish(Err(e))
            }
            &&& if account.holder == naming.holder {
                named.1 == UpkeepActionView::Finish(Err(e))
            } else {
                &&& named.1 is Discard
                &&& named.0.next(later, NamingEventView::Discarded).1
                    == UpkeepActionView::Finish(Err(e))
            }
        }),
{
}

/// **Nobody is asked for nothing.** A robot that is signed out, a record without a refresh token,
/// one without an expiry, and one with no less time left than the configuration asks for, are left
/// alone.
pub proof fn a_fresh_token_is_left_alone(
    account: AccountView,
    stored: Option<StoredView>,
    now: i64,
    event: RenewalEventView,
)
    requires
        stored is None || stored->0.refresh_token is None || stored->0.expires_at is None
            || stored->0.expires_in(now) * NANOS_PER_SEC
            >= account.config.refresh_when_under.in_nanos(),
    ensures
        account.renewal(stored, now).1 == UpkeepActionView::Finish(Ok(false)),
        !account.renewal(stored, now).0.accepts(event),
{
}

/// **A token is renewed once it has less left than the configuration asks for,** however much that
/// is: any record that expires and can be renewed.
pub proof fn a_token_with_less_left_is_due(
    account: AccountView,
    record: StoredView,
    now: i64,
)
    requires
        record.refresh_token is Some,
        record.expires_at is Some,
        record.expires_in(now) * NANOS_PER_SEC < account.config.refresh_when_under.in_nanos(),
    ensures
        account.renewal(Some(record), now).1 is Send,
{
}

/// **A record without an expiry never falls due.**
pub proof fn no_expiry_is_never_due(config: ConfigView, record: StoredView, now: i64)
    requires
        record.expires_at is None,
    ensures
        !config.renews(record, now),
{
}

/// **A renewed token is not due again,** for as long as it has no less left than the configuration
/// asks for — which is what stops a renewal on every pass. The new expiry is absolute: the time it
/// was issued, and what it is good for.
pub proof fn a_renewed_token_is_not_due_again(
    config: ConfigView,
    token: TokenView,
    username: Option<Seq<char>>,
    now: i64,
    later: i64,
)
    requires
        token.expires_in is Some,
        now + token.expires_in->0 <= i64::MAX,
        0 <= now <= later,
        0 < later,
        (token.expires_in->0 - (later - now)) * NANOS_PER_SEC
            >= config.refresh_when_under.in_nanos(),
    ensures
        ({
            let record = StoredView::of(token, now, username);
            &&& record.expires_in(later) == token.expires_in->0 - (later - now)
            &&& !config.renews(record, later)
        }),
{
}

/// **What a token is good for is never cut short.** However long that is, the record of a token
/// that is good for any time at all has not expired when it was issued.
pub proof fn a_new_token_has_not_expired(
    token: TokenView,
    username: Option<Seq<char>>,
    now: i64,
)
    requires
        token.expires_in is Some ==> token.expires_in->0 > 0,
        0 < now < i64::MAX,
    ensures
        StoredView::of(token, now, username).expires_in(now) > 0,
{
}

/// **On a clock that has not been set, everything has expired.** A clock before the epoch reads as
/// its first second, and from there no expiry lies ahead.
pub proof fn an_unset_clock_reads_as_expired(record: StoredView, at: int)
    requires
        at < 0,
        record.expires_at is Some,
    ensures
        record.expires_in(secs_at(at) as i64) < 0,
        record.identity(secs_at(at) as i64).token_expires_in < 0,
{
}

/// **Filling in a name changes the name and nothing else, once.** The record is written as it was
/// with the name in it, and nobody is asked again.
pub proof fn a_name_is_filled_in_once(
    account: AccountView,
    record: StoredView,
    name: Seq<char>,
    answered: AccountView,
)
    requires
        record.username is None,
        answered.holder == account.holder,
    ensures
        ({
            let begun = account.naming(Some(record));
            let event = NamingEventView::Answered(Ok(name));
            let next = begun.0.next(answered, event);
            &&& begun.1 == UpkeepActionView::Send(
                RequestView::userinfo(account.config, record.access_token),
            )
            &&& begun.0.accepts(event)
            &&& next.1 == UpkeepActionView::Save(StoredView { username: Some(name), ..record })
            &&& account.naming(Some(next.1->Save_0)).1 == UpkeepActionView::Finish(Ok(false))
        }),
{
}

/// **`status` carries what stopped remote access, and only that.** A renewal that failed is
/// reported until one works; a name that could not be read never is; and neither touches a login
/// in flight.
pub proof fn upkeep_reports_what_matters(
    account: AccountView,
    e: ErrorView,
    done: Result<bool, ErrorView>,
    stored: Option<StoredView>,
    now: int,
)
    ensures
        ({
            let failed = account.maintained(MaintainEventView::Refreshed(Err(e)));
            let idle = failed.maintained(MaintainEventView::Refreshed(Ok(false)));
            let worked = failed.maintained(MaintainEventView::Refreshed(Ok(true)));
            &&& failed.status(stored, now).last_error == Some(e.message())
            &&& idle == failed
            &&& worked.status(stored, now).last_error is None
            &&& account.maintained(MaintainEventView::Named(done)) == account
            &&& failed == AccountView { last_error: Some(e.message()), ..account }
            &&& worked == AccountView { last_error: None, ..account }
        }),
{
}

// ── what Hugging Face says ───────────────────────────────────────────────────

/// **A server in trouble says nothing about a login.** Whatever came with it, a 5xx is
/// inconclusive, and so is an answer that could not be sent for or read.
pub proof fn a_server_in_trouble_ends_no_login(config: ConfigView, reply: Reply<TokenAnswer>)
    requires
        match reply {
            Reply::Unsent(_) => true,
            Reply::Unread { .. } => true,
            Reply::Read { status, .. } => is_server_error(status),
        },
    ensures
        poll_of(config, reply) is Inconclusive,
{
}

/// **A login is refused only by an OAuth error,** and by any but the two that say to wait on.
pub proof fn only_an_oauth_error_refuses(config: ConfigView, reply: Reply<TokenAnswer>)
    ensures
        poll_of(config, reply) is Refused <==> {
            &&& reply is Read
            &&& !is_server_error(reply->Read_status)
            &&& reply->parsed.token is None
            &&& reply->parsed.error is Some
            &&& reply->parsed.error->0.error@ != "authorization_pending"@
            &&& reply->parsed.error->0.error@ != "slow_down"@
        },
{
}

/// **What a server sent of a device code is used as it is;** only what it left out is filled in,
/// and never with an address that carries the code.
pub proof fn what_the_server_sent_is_kept(raw: DeviceCodeResponseView)
    ensures
        ({
            let code = raw.normalised();
            &&& code.device_code == raw.device_code
            &&& code.user_code == raw.user_code
            &&& code.verification_uri == raw.verification_uri
            &&& raw.verification_uri_complete is Some ==> code.verification_uri_complete
                == raw.verification_uri_complete->0
            &&& raw.verification_uri_complete is None ==> code.verification_uri_complete
                == raw.verification_uri
            &&& raw.expires_in is Some ==> code.expires_in == raw.expires_in->0
            &&& raw.interval is Some ==> code.interval == raw.interval->0
        }),
{
}

// ── what a person is told ────────────────────────────────────────────────────

/// Whether a text says something, somewhere.
pub open spec fn says(text: Seq<char>, part: Seq<char>) -> bool {
    exists|i: int|
        0 <= i && i + part.len() <= text.len() && #[trigger] text.subrange(i, i + part.len()) == part
}

/// **A refusal names the way past it.** One over a login that is waiting says where its code can
/// be read; one over an account says whose it is, whoever that is; and both name `force`.
pub proof fn a_refusal_names_the_way_past_it(who: Seq<char>)
    ensures
        says(ErrorView::LoginInFlight.message(), "account status"@),
        says(ErrorView::LoginInFlight.message(), "force"@),
        says(ErrorView::AlreadySignedIn(who).message(), who),
        says(ErrorView::AlreadySignedIn(who).message(), "force"@),
{
    reveal_strlit(
        "a login is already waiting for approval — `account status` has the code, or force to start a new one",
    );
    reveal_strlit("account status");
    reveal_strlit("force");
    reveal_strlit("this robot already belongs to ");
    reveal_strlit(". Sign that account out first, or force to replace it");
    let waiting = ErrorView::LoginInFlight.message();
    assert(waiting.subrange(43, 43int + "account status"@.len()) =~= "account status"@);
    assert(waiting.subrange(76, 76int + "force"@.len()) =~= "force"@);
    let owned = ErrorView::AlreadySignedIn(who).message();
    assert(owned.subrange(30, 30 + who.len() as int) =~= who);
    let at = 30 + who.len() as int + 34;
    assert(owned.subrange(at, at + "force"@.len()) =~= "force"@);
}

} // verus!
