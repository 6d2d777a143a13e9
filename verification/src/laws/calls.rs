//! What the functions of the library give back, as far as that is said with
//! them alone.

use crate::client_to_server::{DrawnFees, Draws, State, Upward, UpwardEvent, UpwardStep};
use crate::client_to_server;
use crate::error::StreamError;
use crate::fee::FeeLane;
use crate::fee;
use crate::framing::WriteOutcome;
use crate::handle_stream;
use crate::protocol::ServerRpc;
use crate::server_to_client::{Downward, DownwardEvent, DownwardStep};
use crate::server_to_client;
use crate::session::{Action, Event, Session, Settings};
use crate::session;
use crate::string_map::StringMap;
use vstd::prelude::*;

verus! {

/// Taking a session through an event makes it what the event makes of it, and
/// gives back, in order, what it then asks for.
pub proof fn law_sessions_take_their_steps(
    session: &mut Session,
    settings: Settings,
    event: Event,
    actions: Vec<Action>,
)
    requires
        call_ensures(handle_stream::handle_stream, (session, &settings, event), actions),
    ensures
        ({
            let (after, asked) = handle_stream::step(old(session)@, settings, event@);
            &&& final(session)@ == after
            &&& actions@.len() == asked.len()
            &&& forall|i: int| 0 <= i < asked.len() ==> (#[trigger] actions@[i])@ == asked[i]
        }),
{
    let asked = handle_stream::step(session@, settings, event@).1;
    assert(session::action_views(actions@) == asked);
    assert forall|i: int| 0 <= i < asked.len() implies (#[trigger] actions@[i])@ == asked[i] by {
        assert(session::action_views(actions@)[i] == actions@[i]@);
    }
}

/// Taking a relay through an event, upward with given numbers or downward, makes
/// it what the event makes of it, and gives back what it then asks for.
pub proof fn law_relays_take_their_steps(
    up: &mut Upward,
    shared: &mut State,
    fees: DrawnFees,
    draws: Draws,
    up_event: UpwardEvent,
    up_step: UpwardStep,
    down: &mut Downward,
    down_event: DownwardEvent,
    down_step: DownwardStep,
)
    requires
        call_ensures(
            client_to_server::client_to_server_drawn,
            (up, shared, &fees, draws, up_event),
            up_step,
        ),
        call_ensures(server_to_client::server_to_client, (down, down_event), down_step),
    ensures
        ({
            let (relay, state, step) = client_to_server::upward_step(
                old(up)@,
                old(shared)@,
                fees,
                draws,
                up_event@,
            );
            final(up)@ == relay && final(shared)@ == state && up_step@ == step
        }),
        ({
            let (relay, notice, action) = server_to_client::downward_step(*old(down), down_event@);
            *final(down) == relay && down_step.notice == notice && down_step.action@ == action
        }),
{
}

/// Whether a session has room for an event, whether an action's write may fail,
/// and what a write then means, is told as it is.
pub proof fn law_sessions_are_judged_rightly(
    session: Session,
    settings: Settings,
    event: Event,
    room: bool,
    action: Action,
    tolerated: bool,
    outcome: WriteOutcome,
    name: String,
    r: Result<(), StreamError>,
)
    requires
        call_ensures(handle_stream::has_room, (&session, &settings, &event), room),
        call_ensures(handle_stream::tolerates, (&action,), tolerated),
        call_ensures(handle_stream::after_write, (tolerated, outcome, &name), r),
    ensures
        room == handle_stream::can_take(session@, settings, event@),
        tolerated == !(action is PlainToPool || (action matches Action::NamedToPool {
            tolerant,
            ..
        } && !tolerant)),
        r is Ok <==> tolerated || (outcome matches WriteOutcome::Written { len } && len > 0),
{
}

/// A relay starts waiting for its machine, whose name it does not know; a
/// downward one starts before the login; and relays share nothing at first.
pub proof fn law_relays_start_with_nothing(up: Upward, down: Downward, state: State)
    requires
        call_ensures(Upward::new, (), up),
        call_ensures(Downward::new, (), down),
        call_ensures(State::new, (), state),
    ensures
        up@.worker.len() == 0,
        up@.stage is Reading,
        !down.is_login,
        down.stage is Waiting,
        state@.proxy_share == 0,
        state@.mine_jobs == Set::<Seq<char>>::empty(),
        state@.report_hashrate == Map::<Seq<char>, Seq<char>>::empty(),
{
}

/// Noting a job of the proxy's own adds it, and changes nothing else.
pub proof fn law_own_jobs_are_noted(state: &mut State, job: String)
    requires
        call_ensures(State::note_mine_job, (state, job), ()),
    ensures
        final(state)@.mine_jobs == old(state)@.mine_jobs.insert(job@),
        final(state)@.proxy_share == old(state)@.proxy_share,
        final(state)@.report_hashrate == old(state)@.report_hashrate,
{
}

/// Rates are told to be within the whole exactly when none that is used passes
/// a thousand thousandths; a draw is told to fall under a rate exactly when the
/// two come to a thousand; and a number that is drawn came out of the generator
/// and lies between one and a thousand.
pub proof fn law_draws_are_told_rightly(
    fees: DrawnFees,
    within: bool,
    draw: u32,
    permille: u32,
    hit: bool,
    drawn: u32,
)
    requires
        call_ensures(DrawnFees::within_whole, (&fees,), within),
        call_ensures(fee::is_fee_draw, (draw, permille), hit),
        call_ensures(fee::draw_secret_number, (), drawn),
    ensures
        within <==> (fees.develop ==> fees.develop_permille <= 1000) && (fees.share != 0
            ==> fees.share_permille <= 1000),
        hit <==> draw + permille >= 1000,
        1 <= drawn < 1000,
        fee::is_drawn(drawn),
{
}

/// Taking a fee, for the proxy or for the developer, is said to have worked out
/// exactly when the fee was due, a job waited and none of its name was noted; a
/// fee that is not due leaves lane and job alone.
pub proof fn law_fees_are_told_rightly<T: ServerRpc>(
    due: bool,
    lane: &mut FeeLane,
    job: &mut T,
    r: Option<()>,
)
    requires
        call_ensures(fee::fee_job_process::<T>, (due, lane, job), r) || call_ensures(
            fee::develop_job_process::<T>,
            (due, lane, job),
            r,
        ),
    ensures
        r is Some <==> due && old(lane)@.unsent.len() > 0 && !old(lane)@.sent.contains_key(
            old(lane)@.unsent.last().job_id,
        ),
        !due || old(lane)@.unsent.len() == 0 ==> final(lane)@ == old(lane)@ && final(job).job()
            == old(job).job(),
        due && old(lane)@.unsent.len() > 0 ==> {
            let newest = old(lane)@.unsent.last();
            &&& final(job).job().result == newest.rpc.result
            &&& final(job).job().id == old(job).job().id
            &&& final(job).job().form == old(job).job().form
            &&& final(lane)@.unsent == old(lane)@.unsent.drop_last()
            &&& final(lane)@.sent == old(lane)@.sent.insert(newest.job_id, newest.thread_id)
        },
{
}

/// Looking a name up finds what is there and nothing else; setting it makes it
/// so and tells whether it was new; dropping it leaves all others.
pub proof fn law_names_are_looked_up_rightly(
    map: StringMap<u64>,
    key: &str,
    there: bool,
    found: Option<&u64>,
    grown: &mut StringMap<u64>,
    name: String,
    value: u64,
    fresh: bool,
    shrunk: &mut StringMap<u64>,
)
    requires
        call_ensures(StringMap::<u64>::contains_key, (&map, key), there),
        call_ensures(StringMap::<u64>::get, (&map, key), found),
        call_ensures(StringMap::<u64>::insert, (grown, name, value), fresh),
        call_ensures(StringMap::<u64>::remove, (shrunk, key), ()),
    ensures
        there == map@.contains_key(key@),
        found is Some <==> map@.contains_key(key@),
        found matches Some(v) ==> *v == map@[key@],
        final(grown)@ == old(grown)@.insert(name@, value),
        fresh == !old(grown)@.contains_key(name@),
        final(shrunk)@ == old(shrunk)@.remove(key@),
{
}

} // verus!
