//! What holds of relays, upward and downward.

use crate::client_to_server::{
    Draws, DrawnFees, StageView, State, StateView, Upward, UpwardActionView, UpwardEvent,
    UpwardEventView, UpwardStep, UpwardView,
};
use crate::client_to_server;
use crate::fee;
use crate::outside;
use crate::protocol::{ClientView, ServerId1View};
use crate::protocol;
use crate::server_to_client::{
    Downward, DownwardActionView, DownwardEventView, DownwardStage, Notice,
};
use crate::server_to_client;
use vstd::prelude::*;

verus! {

/// Where offers lead from where a relay stands; each comes with the numbers
/// drawn for it and with whether it was taken. The relay's first action is
/// `action`.
pub open spec fn after_offers(
    stage: StageView,
    action: UpwardActionView,
    fees: DrawnFees,
    offers: Seq<(Draws, bool)>,
) -> (StageView, UpwardActionView)
    decreases offers.len(),
{
    if offers.len() == 0 {
        (stage, action)
    } else {
        let (before, _) = after_offers(stage, action, fees, offers.drop_last());
        client_to_server::turn(
            before,
            fees,
            offers.last().0,
            UpwardEventView::Offered { taken: offers.last().1 },
        )
    }
}

/// Whether a relay waits for each of the offers' outcomes when it comes.
pub open spec fn awaits_offers(
    stage: StageView,
    action: UpwardActionView,
    fees: DrawnFees,
    offers: Seq<(Draws, bool)>,
) -> bool
    decreases offers.len(),
{
    offers.len() == 0 || {
        &&& awaits_offers(stage, action, fees, offers.drop_last())
        &&& client_to_server::awaits(
            after_offers(stage, action, fees, offers.drop_last()).0,
            UpwardEventView::Offered { taken: offers.last().1 },
        )
    }
}

/// However often a share is offered, what then reaches the pool is exactly
/// what was read, what is offered is the share itself, and the answer that the
/// machine gets instead is under the share's identifier.
pub proof fn law_reads_pass_unchanged(
    fees: DrawnFees,
    draws: Draws,
    data: Seq<u8>,
    client: Option<ClientView>,
    get_work: bool,
    offers: Seq<(Draws, bool)>,
)
    requires
        ({
            let (stage, action) = client_to_server::read_turn(fees, draws, data, client, get_work);
            awaits_offers(stage, action, fees, offers)
        }),
    ensures
        ({
            let (first, action) = client_to_server::read_turn(fees, draws, data, client, get_work);
            let (stage, last) = after_offers(first, action, fees, offers);
            &&& last matches UpwardActionView::Forward { data: passed } ==> passed == data
            &&& last matches UpwardActionView::OfferDevelop { rpc } ==> client == Some(rpc)
            &&& last matches UpwardActionView::OfferProxy { rpc } ==> client == Some(rpc)
            &&& last matches UpwardActionView::Accept { reply } ==> client matches Some(rpc)
                && reply.id == rpc.id && reply.result
            &&& stage matches StageView::OfferedDevelop { rpc, data: held } ==> client == Some(rpc)
                && held == data
            &&& stage matches StageView::OfferedProxy { rpc, data: held } ==> client == Some(rpc)
                && held == data
        }),
    decreases offers.len(),
{
    if offers.len() > 0 {
        law_reads_pass_unchanged(fees, draws, data, client, get_work, offers.drop_last());
    }
}

/// A share is offered twice at most, and then it has ended in one of two ways:
/// it was taken, the machine was told so, and the pool does not get it; or it
/// went to the pool, and the machine was told nothing.
pub proof fn law_shares_end_in_one_way(
    fees: DrawnFees,
    draws: Draws,
    data: Seq<u8>,
    share: ClientView,
    offers: Seq<(Draws, bool)>,
)
    requires
        data.len() > client_to_server::LONGEST_NOISE,
        share.method == "eth_submitWork"@,
        ({
            let (stage, action) = client_to_server::read_turn(
                fees,
                draws,
                data,
                Some(share),
                false,
            );
            awaits_offers(stage, action, fees, offers)
        }),
    ensures
        ({
            let (first, action) = client_to_server::read_turn(
                fees,
                draws,
                data,
                Some(share),
                false,
            );
            let (stage, last) = after_offers(first, action, fees, offers);
            &&& offers.len() <= 2
            &&& offers.len() == 2 ==> stage is Reading || stage is Forwarding
            &&& match stage {
                StageView::OfferedDevelop { .. } => last is OfferDevelop && offers.len() == 0,
                StageView::OfferedProxy { .. } => last is OfferProxy && offers.len() <= 1,
                StageView::Reading => last is Accept && offers.len() > 0 && offers.last().1,
                StageView::Forwarding => last is Forward && (offers.len() > 0
                    ==> !offers.last().1),
                StageView::Closed => false,
            }
        }),
    decreases offers.len(),
{
    if offers.len() > 0 {
        law_shares_end_in_one_way(fees, draws, data, share, offers.drop_last());
    }
}

/// Nothing but a share is ever kept: any other request that is long enough to
/// be one goes to the pool at once, as it was read; and so does a request for
/// work.
pub proof fn law_only_shares_are_kept(
    fees: DrawnFees,
    draws: Draws,
    data: Seq<u8>,
    client: Option<ClientView>,
    get_work: bool,
)
    requires
        data.len() > client_to_server::LONGEST_NOISE,
        client matches Some(rpc) ==> rpc.method != "eth_submitWork"@,
        client is Some || get_work,
    ensures
        client_to_server::read_turn(fees, draws, data, client, get_work) == (
            StageView::Forwarding,
            UpwardActionView::Forward { data },
        ),
{
}

/// Where no fee is taken, or only at a rate of nothing, every share goes to the
/// pool at once, whatever is drawn.
pub proof fn law_without_fees_shares_pass(
    fees: DrawnFees,
    draws: Draws,
    data: Seq<u8>,
    share: ClientView,
)
    requires
        data.len() > client_to_server::LONGEST_NOISE,
        fees.develop ==> fees.develop_permille == 0,
        fees.share != 0 ==> fees.share_permille == 0,
        client_to_server::drawn_for(fees, draws),
    ensures
        client_to_server::read_turn(fees, draws, data, Some(share), false) == (
            StageView::Forwarding,
            UpwardActionView::Forward { data },
        ),
{
}

/// A share is counted once, and nothing else is; a job of the proxy's own that
/// it is for is taken back, so that a second share for it is not; and no
/// request touches the hashrates of other machines.
pub proof fn law_requests_are_filed(
    relay: UpwardView,
    shared: StateView,
    fees: DrawnFees,
    draws: Draws,
    event: UpwardEventView,
    other: Seq<char>,
)
    requires
        client_to_server::can_count(shared, event),
        other != relay.worker,
    ensures
        ({
            let (_, after, step) = client_to_server::upward_step(
                relay,
                shared,
                fees,
                draws,
                event,
            );
            &&& after.proxy_share == shared.proxy_share + (if is_share(event) {
                1int
            } else {
                0
            })
            &&& step.claimed matches Some(rpc) ==> client_to_server::is_mine(shared, rpc)
                && !client_to_server::is_mine(after, rpc)
            &&& after.report_hashrate.contains_key(other) == shared.report_hashrate.contains_key(
                other,
            )
            &&& shared.report_hashrate.contains_key(other) ==> after.report_hashrate[other]
                == shared.report_hashrate[other]
        }),
{
}

/// One event of an upward relay, among several relays that share one state.
pub struct UpwardMoment {
    /// The relay that it happens to.
    pub who: nat,
    pub fees: DrawnFees,
    pub draws: Draws,
    pub event: UpwardEventView,
}

/// Upward relays and what they share after a course of events.
pub open spec fn run_up(
    relays: Map<nat, UpwardView>,
    shared: StateView,
    course: Seq<UpwardMoment>,
) -> (Map<nat, UpwardView>, StateView)
    decreases course.len(),
{
    if course.len() == 0 {
        (relays, shared)
    } else {
        let (before, shared_before) = run_up(relays, shared, course.drop_last());
        let last = course.last();
        let (relay, after, _) = client_to_server::upward_step(
            before[last.who],
            shared_before,
            last.fees,
            last.draws,
            last.event,
        );
        (before.insert(last.who, relay), after)
    }
}

/// Whether an event is a login that names a wallet.
pub open spec fn is_login(event: UpwardEventView) -> bool {
    client_to_server::request_in(event) matches Some(rpc) && rpc.method == "eth_submitLogin"@
        && rpc.params.len() > 0
}

/// Whether an event is a report of a hashrate.
pub open spec fn is_report(event: UpwardEventView) -> bool {
    client_to_server::request_in(event) matches Some(rpc) && rpc.method == "eth_submitHashrate"@
        && rpc.params.len() > 0
}

/// Whether an event is a share.
pub open spec fn is_share(event: UpwardEventView) -> bool {
    client_to_server::request_in(event) matches Some(rpc) && rpc.method == "eth_submitWork"@
}

/// The full name that the last login of `who` in a course gave, or `name` if
/// there was none.
pub open spec fn logged_in_as(name: Seq<char>, course: Seq<UpwardMoment>, who: nat) -> Seq<char>
    decreases course.len(),
{
    if course.len() == 0 {
        name
    } else if course.last().who == who && is_login(course.last().event) {
        let login = client_to_server::request_in(course.last().event)->0;
        login.params[0] + "."@ + login.worker
    } else {
        logged_in_as(name, course.drop_last(), who)
    }
}

/// A machine goes by the full name of its last login that named a wallet, and a
/// hashrate that it reports is filed under that name, in place of an older one
/// if there is one; no other hashrate changes. That holds whatever other
/// requests came since the login, from this machine or from others.
pub proof fn law_hashrates_are_filed_under_the_login(
    relays: Map<nat, UpwardView>,
    shared: StateView,
    course: Seq<UpwardMoment>,
    report: UpwardMoment,
)
    requires
        is_report(report.event),
    ensures
        ({
            let (now, shared_now) = run_up(relays, shared, course);
            let name = logged_in_as(relays[report.who].worker, course, report.who);
            let rate = client_to_server::request_in(report.event)->0.params[0];
            let after = client_to_server::upward_step(
                now[report.who],
                shared_now,
                report.fees,
                report.draws,
                report.event,
            ).1;
            &&& now[report.who].worker == name
            &&& after == (StateView {
                report_hashrate: shared_now.report_hashrate.insert(name, rate),
                ..shared_now
            })
        }),
    decreases course.len(),
{
    protocol::lemma_methods_differ();
    if course.len() > 0 {
        law_hashrates_are_filed_under_the_login(relays, shared, course.drop_last(), report);
    }
}

/// The hashrate that was last reported in a course under a full name, if any
/// was.
pub open spec fn last_reported(
    relays: Map<nat, UpwardView>,
    course: Seq<UpwardMoment>,
    name: Seq<char>,
) -> Option<Seq<char>>
    decreases course.len(),
{
    if course.len() == 0 {
        None
    } else {
        let last = course.last();
        let prior = course.drop_last();
        if is_report(last.event) && logged_in_as(relays[last.who].worker, prior, last.who)
            == name {
            Some(client_to_server::request_in(last.event)->0.params[0])
        } else {
            last_reported(relays, prior, name)
        }
    }
}

/// What is on file under a full name after a course is the hashrate that was
/// last reported under it; if none was, it is what was on file before.
pub proof fn law_the_last_report_is_on_file(
    relays: Map<nat, UpwardView>,
    shared: StateView,
    course: Seq<UpwardMoment>,
    name: Seq<char>,
)
    ensures
        ({
            let filed = run_up(relays, shared, course).1.report_hashrate;
            match last_reported(relays, course, name) {
                Some(rate) => filed.contains_key(name) && filed[name] == rate,
                None => {
                    &&& filed.contains_key(name) == shared.report_hashrate.contains_key(name)
                    &&& filed.contains_key(name) ==> filed[name] == shared.report_hashrate[name]
                },
            }
        }),
    decreases course.len(),
{
    protocol::lemma_methods_differ();
    if course.len() > 0 {
        let last = course.last();
        law_the_last_report_is_on_file(relays, shared, course.drop_last(), name);
        if is_report(last.event) {
            law_hashrates_are_filed_under_the_login(relays, shared, course.drop_last(), last);
        }
    }
}

/// How many shares a course holds.
pub open spec fn shares_passed(course: Seq<UpwardMoment>) -> nat
    decreases course.len(),
{
    if course.len() == 0 {
        0
    } else {
        shares_passed(course.drop_last()) + (if is_share(course.last().event) {
            1nat
        } else {
            0
        })
    }
}

/// Over a course, the count of shares grows by one with each share of any
/// relay and with nothing else, as long as it has room.
pub proof fn law_shares_are_counted(
    relays: Map<nat, UpwardView>,
    shared: StateView,
    course: Seq<UpwardMoment>,
)
    requires
        shared.proxy_share + shares_passed(course) <= u64::MAX,
    ensures
        run_up(relays, shared, course).1.proxy_share == shared.proxy_share + shares_passed(course),
    decreases course.len(),
{
    if course.len() > 0 {
        law_shares_are_counted(relays, shared, course.drop_last());
    }
}

/// Whether a moment brings a share for the job `id`.
pub open spec fn is_share_of(moment: UpwardMoment, id: Seq<char>) -> bool {
    is_share(moment.event) && {
        let rpc = client_to_server::request_in(moment.event)->0;
        rpc.params.len() > 1 && rpc.params[1] == id
    }
}

/// Requests never add to the jobs of the proxy's own: one is there after a
/// course if and only if it was there before and no share for it came.
pub proof fn law_own_jobs_go_with_their_share(
    relays: Map<nat, UpwardView>,
    shared: StateView,
    course: Seq<UpwardMoment>,
    id: Seq<char>,
)
    ensures
        run_up(relays, shared, course).1.mine_jobs.contains(id) <==> {
            &&& shared.mine_jobs.contains(id)
            &&& forall|i: int| 0 <= i < course.len() ==> !is_share_of(#[trigger] course[i], id)
        },
    decreases course.len(),
{
    if course.len() > 0 {
        let prior = course.drop_last();
        law_own_jobs_go_with_their_share(relays, shared, prior, id);
        assert(forall|i: int| 0 <= i < prior.len() ==> #[trigger] course[i] == prior[i]);
        assert(forall|i: int| 0 <= i < prior.len() ==> #[trigger] prior[i] == course[i]);
        assert(course[course.len() - 1] == course.last());
    }
}

/// A share is handed out as one for a job of the proxy's own if and only if the
/// job was noted before the course and no share for it, from any machine, came
/// in the course: of two shares for one job, the second is not.
pub proof fn law_own_jobs_are_claimed_once(
    relays: Map<nat, UpwardView>,
    shared: StateView,
    course: Seq<UpwardMoment>,
    share: UpwardMoment,
    id: Seq<char>,
)
    requires
        is_share_of(share, id),
    ensures
        ({
            let (now, shared_now) = run_up(relays, shared, course);
            let claimed = client_to_server::upward_step(
                now[share.who],
                shared_now,
                share.fees,
                share.draws,
                share.event,
            ).2.claimed;
            claimed == (if shared.mine_jobs.contains(id) && (forall|i: int|
                0 <= i < course.len() ==> !is_share_of(#[trigger] course[i], id)) {
                client_to_server::request_in(share.event)
            } else {
                None
            })
        }),
{
    law_own_jobs_go_with_their_share(relays, shared, course, id);
}

/// A relay that is over waits for nothing, upward or downward; and it is over
/// exactly when it has asked for its connection to be closed.
pub proof fn law_closed_is_the_end(
    fees: DrawnFees,
    draws: Draws,
    stage: StageView,
    up: UpwardEventView,
    relay: Downward,
    down: DownwardEventView,
)
    ensures
        stage is Closed ==> !client_to_server::awaits(stage, up),
        client_to_server::awaits(stage, up) ==> (client_to_server::turn(
            stage,
            fees,
            draws,
            up,
        ).0 is Closed <==> client_to_server::turn(stage, fees, draws, up).1 is Shutdown),
        relay.stage is Closed ==> !server_to_client::awaits(relay.stage, down),
        server_to_client::downward_step(relay, down).0.stage is Closed
            <==> server_to_client::downward_step(relay, down).2 is Shutdown,
{
}

/// A downward relay after a course of events.
pub open spec fn run_down(relay: Downward, events: Seq<DownwardEventView>) -> Downward
    decreases events.len(),
{
    if events.len() == 0 {
        relay
    } else {
        server_to_client::downward_step(run_down(relay, events.drop_last()), events.last()).0
    }
}

/// Whether an event is an answer of the pool.
pub open spec fn is_answer(event: DownwardEventView) -> bool {
    event matches DownwardEventView::Received { data, answer, .. } && data.len() > 0 && answer
        is Some
}

/// A new relay's machine counts as logged in once the pool has sent an answer,
/// and not before; it never stops counting so; and of what the pool sends
/// before that, nothing but an answer is passed on.
pub proof fn law_nothing_passes_before_the_login(events: Seq<DownwardEventView>, next: DownwardEventView)
    requires
        forall|i: int| 0 <= i < events.len() ==> !is_answer(#[trigger] events[i]),
    ensures
        ({
            let fresh = Downward { is_login: false, stage: DownwardStage::Waiting };
            let relay = run_down(fresh, events);
            let (after, notice, action) = server_to_client::downward_step(relay, next);
            &&& !relay.is_login
            &&& action is Forward ==> is_answer(next) && notice == Some(Notice::LoginAccepted)
            &&& after.is_login <==> is_answer(next)
        }),
    decreases events.len(),
{
    let fresh = Downward { is_login: false, stage: DownwardStage::Waiting };
    if events.len() > 0 {
        let prior = events.drop_last();
        assert forall|i: int| 0 <= i < prior.len() implies !is_answer(#[trigger] prior[i]) by {
            assert(prior[i] == events[i]);
        }
        law_nothing_passes_before_the_login(prior, events[events.len() - 1]);
    }
}

/// Once the machine is logged in, everything that the pool sends is passed on
/// exactly as it was read, and the machine stays logged in.
pub proof fn law_everything_passes_after_the_login(relay: Downward, event: DownwardEventView)
    requires
        relay.is_login,
    ensures
        server_to_client::downward_step(relay, event).0.is_login,
        event matches DownwardEventView::Received { data, .. } ==> data.len() > 0
            ==> server_to_client::downward_step(relay, event).2 == (DownwardActionView::Forward {
            data,
        }),
{
}

/// What the proxy has to say to the machine goes out whether or not the machine
/// is logged in: its own answer as it is, and a job as a JSON string, each with
/// one newline behind it and nothing else. The relay then waits for the write,
/// and whether the machine is logged in stays as it was.
pub proof fn law_the_proxys_words_go_out(relay: Downward, message: Seq<u8>, job: Seq<char>)
    ensures
        ({
            let (replied, no_notice, reply) = server_to_client::downward_step(
                relay,
                DownwardEventView::Reply { message },
            );
            let (assigned, none, assignment) = server_to_client::downward_step(
                relay,
                DownwardEventView::Job { job },
            );
            let text = outside::json_string(job);
            &&& reply matches DownwardActionView::Send { line }
            &&& line.len() == message.len() + 1
            &&& line.take(message.len() as int) == message
            &&& line.last() == 10
            &&& replied.stage is Writing
            &&& replied.is_login == relay.is_login
            &&& no_notice is None
            &&& assignment matches DownwardActionView::Send { line: job_line }
            &&& job_line.len() == text.len() + 1
            &&& job_line.take(text.len() as int) == text
            &&& job_line.last() == 10
            &&& assigned.stage is Writing
            &&& assigned.is_login == relay.is_login
            &&& none is None
        }),
{
    let text = outside::json_string(job);
    assert(message.push(10u8).take(message.len() as int) =~= message);
    assert(text.push(10u8).take(text.len() as int) =~= text);
}

/// What the pool sends is passed on as it was read, once the machine is logged
/// in or if it is an answer, which logs the machine in; else, and if the pool
/// has hung up, the relay ends. The notice tells an answer to a login, to a
/// hashrate report, which has the identifier six, and to a share apart, and a
/// job from anything else.
pub proof fn law_what_the_pool_sends(
    relay: Downward,
    data: Seq<u8>,
    answer: Option<ServerId1View>,
    is_job: bool,
)
    ensures
        ({
            let (after, notice, action) = server_to_client::downward_step(
                relay,
                DownwardEventView::Received { data, answer, is_job },
            );
            if data.len() == 0 {
                &&& action == DownwardActionView::Shutdown
                &&& notice is None
                &&& after.stage is Closed && after.is_login == relay.is_login
            } else if !relay.is_login && answer is None {
                &&& action == DownwardActionView::Shutdown
                &&& notice == Some(Notice::LoginRefused)
                &&& after.stage is Closed && !after.is_login
            } else {
                &&& action == (DownwardActionView::Forward { data })
                &&& after.stage is Writing && after.is_login
                &&& !relay.is_login ==> notice == Some(Notice::LoginAccepted)
                &&& relay.is_login && answer is Some && answer->0.id == 6 ==> notice == Some(
                    Notice::HashrateAccepted,
                )
                &&& relay.is_login && answer is Some && answer->0.id != 6 ==> notice == Some(
                    Notice::ShareAccepted,
                )
                &&& relay.is_login && answer is None && is_job ==> notice == Some(Notice::Job)
                &&& relay.is_login && answer is None && !is_job ==> notice == Some(Notice::Unknown)
            }
        }),
{
}

/// A write of which something was taken lets a relay go on, downward or upward,
/// and one of which nothing was taken ends it; nothing else changes by it.
pub proof fn law_writes_let_relays_go_on(
    down: Downward,
    up: UpwardView,
    shared: StateView,
    fees: DrawnFees,
    draws: Draws,
    written: usize,
)
    requires
        up.stage is Forwarding,
    ensures
        ({
            let (after, notice, action) = server_to_client::downward_step(
                down,
                DownwardEventView::Written { written },
            );
            let (up_after, shared_after, step) = client_to_server::upward_step(
                up,
                shared,
                fees,
                draws,
                UpwardEventView::Forwarded { written },
            );
            &&& after.is_login == down.is_login
            &&& notice is None
            &&& up_after.worker == up.worker
            &&& shared_after == shared
            &&& step.claimed is None
            &&& if written == 0 {
                &&& after.stage is Closed && action == DownwardActionView::Shutdown
                &&& up_after.stage is Closed && step.action == UpwardActionView::Shutdown
            } else {
                &&& after.stage is Waiting && action == DownwardActionView::Wait
                &&& up_after.stage is Reading && step.action == UpwardActionView::Read
            }
        }),
{
}

/// What a read of the machine leads to, if it is no share: nothing read ends
/// the relay, five bytes or fewer are passed over, and so is what is neither a
/// request nor a request for work; anything else goes to the pool as it was
/// read.
pub proof fn law_what_the_machine_sends(
    relay: UpwardView,
    shared: StateView,
    fees: DrawnFees,
    draws: Draws,
    data: Seq<u8>,
    client: Option<ClientView>,
    get_work: bool,
)
    requires
        relay.stage is Reading,
        data.len() > 5 && client is Some ==> client->0.method != "eth_submitWork"@,
    ensures
        ({
            let (after, shared_after, step) = client_to_server::upward_step(
                relay,
                shared,
                fees,
                draws,
                UpwardEventView::Received { data, client, get_work },
            );
            &&& step.claimed is None
            &&& data.len() <= 5 || client is None ==> after.worker == relay.worker && shared_after
                == shared
            &&& if data.len() == 0 {
                step.action == UpwardActionView::Shutdown && after.stage is Closed
            } else if data.len() <= 5 || (client is None && !get_work) {
                step.action == UpwardActionView::Read && after.stage is Reading
            } else {
                step.action == (UpwardActionView::Forward { data }) && after.stage is Forwarding
            }
        }),
{
}

/// A share is offered to the developer if the developer takes fees and the
/// number drawn for the developer, with the developer's rate in thousandths,
/// comes to a thousand or more. If not, the same holds of the proxy. If neither
/// gets it, it goes to the pool as it was read. The share that is offered is
/// the one that was read, and what was read is kept with it.
pub proof fn law_draws_decide(
    relay: UpwardView,
    shared: StateView,
    fees: DrawnFees,
    draws: Draws,
    data: Seq<u8>,
    share: ClientView,
    get_work: bool,
)
    requires
        relay.stage is Reading,
        data.len() > 5,
        share.method == "eth_submitWork"@,
    ensures
        ({
            let (after, _, step) = client_to_server::upward_step(
                relay,
                shared,
                fees,
                draws,
                UpwardEventView::Received { data, client: Some(share), get_work },
            );
            let to_developer = fees.develop && draws.develop + fees.develop_permille >= 1000;
            let to_proxy = !to_developer && fees.share != 0 && draws.share + fees.share_permille
                >= 1000;
            &&& after.worker == relay.worker
            &&& to_developer ==> {
                &&& step.action == (UpwardActionView::OfferDevelop { rpc: share })
                &&& after.stage == (StageView::OfferedDevelop { rpc: share, data })
            }
            &&& to_proxy ==> {
                &&& step.action == (UpwardActionView::OfferProxy { rpc: share })
                &&& after.stage == (StageView::OfferedProxy { rpc: share, data })
            }
            &&& !to_developer && !to_proxy ==> {
                &&& step.action == (UpwardActionView::Forward { data })
                &&& after.stage is Forwarding
            }
        }),
{
    protocol::lemma_methods_differ();
}

/// A share that was taken is answered at once: yes, under its own identifier
/// and with the protocol's version, and the pool does not get it. One that the
/// developer did not take is offered to the proxy if the number drawn for the
/// proxy says so, by the proxy's rate in thousandths; one that nobody takes
/// goes to the pool as it was read. Nothing is counted or filed again.
pub proof fn law_what_becomes_of_offers(
    relay: UpwardView,
    shared: StateView,
    fees: DrawnFees,
    draws: Draws,
    share: ClientView,
    data: Seq<u8>,
    taken: bool,
)
    requires
        relay.stage == (StageView::OfferedDevelop { rpc: share, data }) || relay.stage == (
        StageView::OfferedProxy { rpc: share, data }),
    ensures
        ({
            let (after, shared_after, step) = client_to_server::upward_step(
                relay,
                shared,
                fees,
                draws,
                UpwardEventView::Offered { taken },
            );
            let to_proxy = relay.stage is OfferedDevelop && fees.share != 0 && draws.share
                + fees.share_permille >= 1000;
            &&& after.worker == relay.worker
            &&& shared_after == shared
            &&& step.claimed is None
            &&& if taken {
                &&& step.action matches UpwardActionView::Accept { reply }
                &&& reply.id == share.id
                &&& reply.jsonrpc == Some(seq!['2', '.', '0'])
                &&& reply.result
                &&& after.stage is Reading
            } else if to_proxy {
                &&& step.action == (UpwardActionView::OfferProxy { rpc: share })
                &&& after.stage == (StageView::OfferedProxy { rpc: share, data })
            } else {
                &&& step.action == (UpwardActionView::Forward { data })
                &&& after.stage is Forwarding
            }
        }),
{
    reveal_strlit("2.0");
    assert("2.0"@ =~= seq!['2', '.', '0']);
}

/// What a request leaves behind. A share adds one to the count and takes back
/// the job that it names, its second parameter, and is handed out if that job
/// was there; a report files its first parameter under the machine's full name;
/// a login that names a wallet makes the full name of the wallet, a dot and the
/// machine's name. Nothing else comes of a request, and nothing at all of one
/// of five bytes or fewer.
pub proof fn law_what_requests_leave(
    relay: UpwardView,
    shared: StateView,
    fees: DrawnFees,
    draws: Draws,
    data: Seq<u8>,
    rpc: ClientView,
    get_work: bool,
)
    requires
        relay.stage is Reading,
        rpc.method == "eth_submitWork"@ ==> shared.proxy_share < u64::MAX,
    ensures
        ({
            let (after, shared_after, step) = client_to_server::upward_step(
                relay,
                shared,
                fees,
                draws,
                UpwardEventView::Received { data, client: Some(rpc), get_work },
            );
            if data.len() <= 5 {
                &&& shared_after == shared
                &&& after.worker == relay.worker
                &&& step.claimed is None
            } else if rpc.method == "eth_submitWork"@ {
                let was_there = rpc.params.len() > 1 && shared.mine_jobs.contains(rpc.params[1]);
                &&& shared_after.proxy_share == shared.proxy_share + 1
                &&& was_there ==> step.claimed == Some(rpc) && shared_after.mine_jobs
                    == shared.mine_jobs.remove(rpc.params[1])
                &&& !was_there ==> step.claimed is None && shared_after.mine_jobs
                    == shared.mine_jobs
                &&& shared_after.report_hashrate == shared.report_hashrate
                &&& after.worker == relay.worker
            } else if rpc.method == "eth_submitHashrate"@ && rpc.params.len() > 0 {
                &&& shared_after.proxy_share == shared.proxy_share
                &&& shared_after.mine_jobs == shared.mine_jobs
                &&& shared_after.report_hashrate == shared.report_hashrate.insert(
                    relay.worker,
                    rpc.params[0],
                )
                &&& after.worker == relay.worker
                &&& step.claimed is None
            } else {
                &&& shared_after == shared
                &&& step.claimed is None
                &&& after.worker == (if rpc.method == "eth_submitLogin"@ && rpc.params.len() > 0 {
                    rpc.params[0] + seq!['.'] + rpc.worker
                } else {
                    relay.worker
                })
            }
        }),
{
    protocol::lemma_methods_differ();
    reveal_strlit(".");
    assert("."@ =~= seq!['.']);
    if rpc.params.len() > 1 && !shared.mine_jobs.contains(rpc.params[1]) {
        assert(shared.mine_jobs.remove(rpc.params[1]) =~= shared.mine_jobs);
    }
}

/// Numbers and rates decide over shares and over nothing else: where an event
/// calls for no draw, all numbers and all fees lead to the same.
pub proof fn law_draws_concern_shares_alone(
    relay: UpwardView,
    shared: StateView,
    event: UpwardEventView,
    fees: DrawnFees,
    draws: Draws,
    other_fees: DrawnFees,
    other_draws: Draws,
)
    requires
        event is Received ==> !is_share(event),
        event matches UpwardEventView::Offered { taken } ==> taken,
    ensures
        client_to_server::upward_step(relay, shared, fees, draws, event)
            == client_to_server::upward_step(relay, shared, other_fees, other_draws, event),
        !client_to_server::weighs_fees(event),
{
}

/// What a relay makes of a share rests on numbers that the generator gave: one
/// that it offers to the developer, or to the proxy, is one for which such a
/// number, with the rate, comes to a thousand or more; and one that it sends to
/// the pool is one for which the numbers of all the fees that are taken stay
/// below.
pub proof fn law_offers_rest_on_the_generator(
    relay: &mut Upward,
    shared: &mut State,
    fees: DrawnFees,
    event: UpwardEvent,
    step: UpwardStep,
)
    requires
        relay@.stage is Reading,
        is_share(event@),
        call_ensures(client_to_server::client_to_server, (relay, shared, &fees, event), step),
    ensures
        step@.action is OfferDevelop || step@.action is OfferProxy || step@.action is Forward,
        step@.action is OfferDevelop ==> fees.develop && exists|n: u32| #[trigger]
            fee::is_drawn(n) && 1 <= n < 1000 && n + fees.develop_permille >= 1000,
        step@.action is OfferProxy ==> fees.share != 0 && exists|n: u32| #[trigger]
            fee::is_drawn(n) && 1 <= n < 1000 && n + fees.share_permille >= 1000,
        !(step@.action is OfferDevelop) && fees.develop ==> exists|n: u32| #[trigger]
            fee::is_drawn(n) && 1 <= n < 1000 && n + fees.develop_permille < 1000,
        step@.action is Forward && fees.share != 0 ==> exists|n: u32| #[trigger]
            fee::is_drawn(n) && 1 <= n < 1000 && n + fees.share_permille < 1000,
{
    protocol::lemma_methods_differ();
    let draws = choose|draws: Draws|
        #[trigger] client_to_server::drawn_for(fees, draws)
            && client_to_server::come_from_generator(fees, draws) && step@
            == client_to_server::upward_step(relay@, shared@, fees, draws, event@).2;
    assert(fees.develop ==> fee::is_drawn(draws.develop));
    assert(fees.share != 0 ==> fee::is_drawn(draws.share));
}

/// A share that the developer did not take is offered to the proxy, or sent to
/// the pool, by a number that the generator gave anew: one that, with the
/// proxy's rate, comes to a thousand or more, or one that stays below.
pub proof fn law_second_offers_rest_on_the_generator(
    relay: &mut Upward,
    shared: &mut State,
    fees: DrawnFees,
    event: UpwardEvent,
    step: UpwardStep,
)
    requires
        relay@.stage is OfferedDevelop,
        event@ == (UpwardEventView::Offered { taken: false }),
        call_ensures(client_to_server::client_to_server, (relay, shared, &fees, event), step),
    ensures
        step@.action is OfferProxy || step@.action is Forward,
        step@.action is OfferProxy ==> fees.share != 0 && exists|n: u32| #[trigger]
            fee::is_drawn(n) && 1 <= n < 1000 && n + fees.share_permille >= 1000,
        step@.action is Forward && fees.share != 0 ==> exists|n: u32| #[trigger]
            fee::is_drawn(n) && 1 <= n < 1000 && n + fees.share_permille < 1000,
{
    let draws = choose|draws: Draws|
        #[trigger] client_to_server::drawn_for(fees, draws)
            && client_to_server::come_from_generator(fees, draws) && step@
            == client_to_server::upward_step(relay@, shared@, fees, draws, event@).2;
    assert(fees.share != 0 ==> fee::is_drawn(draws.share));
}

/// A draw is called for by every share that comes in and by every offer that
/// was not taken.
pub proof fn law_shares_call_for_draws(event: UpwardEventView)
    ensures
        client_to_server::weighs_fees(event) <==> match event {
            UpwardEventView::Received { data, client: Some(rpc), .. } => data.len() > 5
                && rpc.method == "eth_submitWork"@,
            UpwardEventView::Offered { taken } => !taken,
            _ => false,
        },
{
}

/// A relay waits for each event where it makes sense, and the only share that
/// it cannot count is one for which the count is full.
pub proof fn law_what_relays_wait_for(
    stage: StageView,
    shared: StateView,
    event: UpwardEventView,
    down: Downward,
    down_event: DownwardEventView,
)
    ensures
        client_to_server::awaits(stage, event) <==> match stage {
            StageView::Reading => event is Received,
            StageView::OfferedDevelop { .. } => event is Offered,
            StageView::OfferedProxy { .. } => event is Offered,
            StageView::Forwarding => event is Forwarded,
            StageView::Closed => false,
        },
        shared.proxy_share < u64::MAX ==> client_to_server::can_count(shared, event),
        !is_share(event) ==> client_to_server::can_count(shared, event),
        down.stage is Waiting ==> (server_to_client::awaits(down.stage, down_event) <==> !(
        down_event is Written)),
        down.stage is Writing ==> (server_to_client::awaits(down.stage, down_event)
            <==> down_event is Written),
        down_event is Received || down_event is Written ==> server_to_client::fits(down_event),
        down_event matches DownwardEventView::Reply { message } ==> (server_to_client::fits(
            down_event,
        ) <==> 2 * message.len() + 2 <= isize::MAX),
{
}

} // verus!
