//! What holds of every session, whatever happens to it.

use crate::fee::{FeeJobView, FeeLaneView};
use crate::fee;
use crate::framing::WriteOutcome;
use crate::handle_stream;
use crate::protocol::{ClientView, JobView, ServerId1View};
use crate::protocol;
use crate::session::{
    ActionView, EventView, FeeDue, PoolMessageView, SessionView, Settings, Taker,
    FIRST_TIMEOUT_SEC, LATER_TIMEOUT_SEC,
};
use crate::session;
use crate::worker::WorkerView;
use vstd::prelude::*;

verus! {

/// A session after a course of events.
pub open spec fn run(s: SessionView, settings: Settings, events: Seq<EventView>) -> SessionView
    decreases events.len(),
{
    if events.len() == 0 {
        s
    } else {
        handle_stream::step(run(s, settings, events.drop_last()), settings, events.last()).0
    }
}

/// Whether a session can take each event of a course when it comes.
pub open spec fn can_run(s: SessionView, settings: Settings, events: Seq<EventView>) -> bool
    decreases events.len(),
{
    events.len() == 0 || {
        &&& can_run(s, settings, events.drop_last())
        &&& handle_stream::can_take(
            run(s, settings, events.drop_last()),
            settings,
            events.last(),
        )
    }
}

/// Whether every waiting job of a lane is known by the first entry of its
/// result.
pub open spec fn lane_inv(lane: FeeLaneView) -> bool {
    forall|i: int|
        0 <= i < lane.unsent.len() ==> {
            &&& (#[trigger] lane.unsent[i]).rpc.result.len() > 0
            &&& lane.unsent[i].job_id == lane.unsent[i].rpc.result[0]
        }
}

/// What holds of a session at all times.
pub open spec fn session_inv(s: SessionView) -> bool {
    &&& lane_inv(s.mine)
    &&& lane_inv(s.develop)
    &&& s.worker_name == s.worker.worker
    &&& s.worker_name == Seq::<char>::empty() || s.worker_name == handle_stream::full_name(
        s.worker.worker_wallet,
        s.worker.worker_name,
    )
    &&& s.client_timeout_sec == (if s.worker.online {
        LATER_TIMEOUT_SEC
    } else {
        FIRST_TIMEOUT_SEC
    })
}

/// A new session is in order: no job waits, and the machine has the short time
/// to speak up.
pub proof fn law_new_session_in_order()
    ensures
        session_inv(session::new_session()),
{
}

/// Every event leaves a session in order that was: waiting jobs stay known by
/// the first entry of their result, the machine's full name stays made of its
/// wallet and its name, and it has the longer time exactly when its login was
/// answered.
pub proof fn law_events_keep_order(s: SessionView, settings: Settings, event: EventView)
    requires
        session_inv(s),
        handle_stream::can_take(s, settings, event),
    ensures
        session_inv(handle_stream::step(s, settings, event).0),
{
}

/// Whatever the course of events, a session stays in order.
pub proof fn law_sessions_stay_in_order(s: SessionView, settings: Settings, events: Seq<EventView>)
    requires
        session_inv(s),
        can_run(s, settings, events),
    ensures
        session_inv(run(s, settings, events)),
    decreases events.len(),
{
    if events.len() > 0 {
        law_sessions_stay_in_order(s, settings, events.drop_last());
        law_events_keep_order(
            run(s, settings, events.drop_last()),
            settings,
            events.last(),
        );
    }
}

/// The lane of a taker of fees.
pub open spec fn lane_of(s: SessionView, taker: Taker) -> FeeLaneView {
    match taker {
        Taker::Proxy => s.mine,
        Taker::Developer => s.develop,
    }
}

/// The other taker of fees.
pub open spec fn other(taker: Taker) -> Taker {
    match taker {
        Taker::Proxy => Taker::Developer,
        Taker::Developer => Taker::Proxy,
    }
}

/// Whether an event is a share for the job `id`.
pub open spec fn is_share_for(event: EventView, id: Seq<char>) -> bool {
    event matches EventView::NamedRequest { rpc } && rpc.method == "eth_submitWork"@
        && rpc.params.len() > 1 && rpc.params[1] == id
}

/// Whether an event brings in a job of the proxy's own that is known as `id`.
pub open spec fn is_own_job_as(event: EventView, id: Seq<char>) -> bool {
    event matches EventView::OwnJob { rpc: Ok(job), .. } && job.result[0] == id
}

/// Whether no event of a course is about the job `id`.
pub open spec fn silent_on(events: Seq<EventView>, id: Seq<char>) -> bool {
    forall|i: int|
        0 <= i < events.len() ==> !is_share_for(#[trigger] events[i], id) && !is_own_job_as(
            events[i],
            id,
        )
}

/// Whether no job that waits in a lane is known as `id`.
pub open spec fn none_waits_as(lane: FeeLaneView, id: Seq<char>) -> bool {
    forall|i: int| 0 <= i < lane.unsent.len() ==> (#[trigger] lane.unsent[i]).job_id != id
}

/// The note that a lane keeps of a job in the hands of a machine stays as it
/// is, there or not, until its share or another job of the same name comes.
pub proof fn law_notes_stay(
    s: SessionView,
    settings: Settings,
    events: Seq<EventView>,
    taker: Taker,
    id: Seq<char>,
)
    requires
        none_waits_as(lane_of(s, taker), id),
        silent_on(events, id),
    ensures
        none_waits_as(lane_of(run(s, settings, events), taker), id),
        fee::claimed_thread(lane_of(run(s, settings, events), taker), id) == fee::claimed_thread(
            lane_of(s, taker),
            id,
        ),
    decreases events.len(),
{
    if events.len() > 0 {
        let prior = events.drop_last();
        assert forall|i: int| 0 <= i < prior.len() implies !is_share_for(#[trigger] prior[i], id)
            && !is_own_job_as(prior[i], id) by {
            assert(prior[i] == events[i]);
        }
        law_notes_stay(s, settings, prior, taker, id);
        assert(!is_share_for(events[events.len() - 1], id));
    }
}

/// The job that a machine gets when a taker's fee is due is the taker's newest,
/// and the share that the machine finds for it goes back to the connection
/// that the job came from, whatever happens in between; the machine is told
/// that it was accepted. The share takes the note of the job with it, and no
/// other: if it is the first thing to happen and no machine had a job of that
/// name before, the taker's notes are what they were before the job was given
/// out.
///
/// Of two fees that are due on one job the developer's wins: the law says
/// nothing of the proxy's then. And where both have given out a job of one
/// name, the share goes to the proxy.
pub proof fn law_fee_jobs_come_back(
    s: SessionView,
    settings: Settings,
    taker: Taker,
    line: Seq<char>,
    job: JobView,
    due: FeeDue,
    between: Seq<EventView>,
    share: ClientView,
)
    requires
        session_inv(s),
        lane_of(s, taker).unsent.len() > 0,
        taker is Proxy ==> handle_stream::takes(settings, due.proxy) && !(handle_stream::takes(
            settings,
            due.developer,
        ) && s.develop.unsent.len() > 0),
        taker is Developer ==> handle_stream::takes(settings, due.developer),
        ({
            let id = lane_of(s, taker).unsent.last().job_id;
            &&& between.len() > 0 ==> none_waits_as(
                fee::lane_after_assign(lane_of(s, taker)),
                id,
            )
            &&& taker is Developer ==> {
                let mine = if handle_stream::takes(settings, due.proxy) {
                    fee::lane_after_assign(s.mine)
                } else {
                    s.mine
                };
                &&& !mine.sent.contains_key(id)
                &&& between.len() > 0 ==> none_waits_as(mine, id)
            }
            &&& silent_on(between, id)
            &&& share.method == "eth_submitWork"@
            &&& share.params.len() > 1
            &&& share.params[1] == id
        }),
    ensures
        ({
            let newest = lane_of(s, taker).unsent.last();
            let (given, actions) = handle_stream::step(
                s,
                settings,
                EventView::PoolLine { line, message: PoolMessageView::Job { job }, due },
            );
            &&& actions.len() == 1
            &&& actions[0] matches ActionView::JobToWorker { job: received }
            &&& received.result == newest.rpc.result
            &&& received.result.len() > 0
            &&& received.result[0] == share.params[1]
            &&& ({
                let before = run(given, settings, between);
                let (after, answered) = handle_stream::step(
                    before,
                    settings,
                    EventView::NamedRequest { rpc: share },
                );
                &&& answered == handle_stream::diverted(taker, newest.thread_id, share)
                &&& lane_of(after, taker).sent == lane_of(before, taker).sent.remove(
                    newest.job_id,
                )
                &&& lane_of(after, other(taker)) == lane_of(before, other(taker))
                &&& between.len() == 0 && fee::assigns_fresh(lane_of(s, taker)) ==> lane_of(
                    after,
                    taker,
                ).sent == lane_of(s, taker).sent
            })
        }),
{
    let newest = lane_of(s, taker).unsent.last();
    let id = newest.job_id;
    let given = handle_stream::step(
        s,
        settings,
        EventView::PoolLine { line, message: PoolMessageView::Job { job }, due },
    ).0;
    assert(lane_of(s, taker).unsent[lane_of(s, taker).unsent.len() - 1] == newest);
    assert(lane_of(given, taker) == fee::lane_after_assign(lane_of(s, taker)));
    if between.len() > 0 {
        law_notes_stay(given, settings, between, taker, id);
        if taker is Developer {
            law_notes_stay(given, settings, between, Taker::Proxy, id);
        }
    }
    if fee::assigns_fresh(lane_of(s, taker)) {
        assert(lane_of(given, taker).sent.remove(id) =~= lane_of(s, taker).sent);
    }
    protocol::lemma_methods_differ();
}

/// Once its share has come, a job is no longer noted: a second share for it
/// does not go to the same taker, unless the job is given out again.
pub proof fn law_fee_jobs_are_claimed_once(
    s: SessionView,
    settings: Settings,
    taker: Taker,
    share: ClientView,
    events: Seq<EventView>,
)
    requires
        share.method == "eth_submitWork"@,
        handle_stream::is_for(lane_of(s, taker), share),
        taker is Developer ==> !handle_stream::is_for(s.mine, share),
        events.len() > 0 ==> none_waits_as(lane_of(s, taker), share.params[1]),
        silent_on(events, share.params[1]),
    ensures
        ({
            let claimed = handle_stream::step(
                s,
                settings,
                EventView::NamedRequest { rpc: share },
            ).0;
            !handle_stream::is_for(lane_of(run(claimed, settings, events), taker), share)
        }),
{
    let claimed = handle_stream::step(s, settings, EventView::NamedRequest { rpc: share }).0;
    protocol::lemma_methods_differ();
    if events.len() > 0 {
        law_notes_stay(claimed, settings, events, taker, share.params[1]);
    }
}

/// A second share for a job goes to the pool under its number, as the next of
/// the machine's shares, and no taker hears of it; the notes stay as the first
/// share left them. That holds whatever comes between the two, unless the job
/// is given out again.
///
/// Where both takers have given out a job of one name, the second share goes
/// to the developer: the law speaks of jobs that one taker alone has given
/// out.
pub proof fn law_second_share_goes_to_the_pool(
    s: SessionView,
    settings: Settings,
    taker: Taker,
    share: ClientView,
    between: Seq<EventView>,
    second: ClientView,
)
    requires
        share.method == "eth_submitWork"@,
        handle_stream::is_for(lane_of(s, taker), share),
        !handle_stream::is_for(lane_of(s, other(taker)), share),
        between.len() > 0 ==> none_waits_as(s.mine, share.params[1]) && none_waits_as(
            s.develop,
            share.params[1],
        ),
        silent_on(between, share.params[1]),
        second.method == "eth_submitWork"@,
        second.params.len() > 1,
        second.params[1] == share.params[1],
        ({
            let claimed = handle_stream::step(
                s,
                settings,
                EventView::NamedRequest { rpc: share },
            ).0;
            run(claimed, settings, between).worker.share_index < u64::MAX
        }),
    ensures
        ({
            let claimed = handle_stream::step(
                s,
                settings,
                EventView::NamedRequest { rpc: share },
            ).0;
            let before = run(claimed, settings, between);
            let (after, actions) = handle_stream::step(
                before,
                settings,
                EventView::NamedRequest { rpc: second },
            );
            &&& after.mine == before.mine
            &&& after.develop == before.develop
            &&& after.worker.share_index == before.worker.share_index + 1
            &&& actions == seq![
                ActionView::NamedToPool {
                    rpc: ClientView { id: after.worker.share_index, ..second },
                    tolerant: true,
                },
            ]
        }),
{
    let claimed = handle_stream::step(s, settings, EventView::NamedRequest { rpc: share }).0;
    protocol::lemma_methods_differ();
    if between.len() > 0 {
        law_notes_stay(claimed, settings, between, Taker::Proxy, share.params[1]);
        law_notes_stay(claimed, settings, between, Taker::Developer, share.params[1]);
    }
}

/// Whether an action hands a share on.
pub open spec fn hands_on(action: ActionView) -> bool {
    action is Fee || action is NamedToPool
}

/// A share goes to exactly one place: to the proxy, to the developer or to the
/// pool. The machine is answered at once if and only if it did not go to the
/// pool, and the share itself is never changed but for the number under which
/// the pool gets it. It is counted once. A taker that gets it loses its note of
/// the share's job; no other note goes, and none comes.
pub proof fn law_share_goes_to_one_place(s: SessionView, settings: Settings, share: ClientView)
    requires
        share.method == "eth_submitWork"@,
        s.worker.share_index < u64::MAX,
    ensures
        ({
            let (after, actions) = handle_stream::step(
                s,
                settings,
                EventView::NamedRequest { rpc: share },
            );
            &&& after.worker == (WorkerView {
                share_index: (s.worker.share_index + 1) as u64,
                ..s.worker
            })
            &&& actions.len() > 0 && hands_on(actions[0])
            &&& forall|i: int| 0 < i < actions.len() ==> !hands_on(#[trigger] actions[i])
            &&& actions[0] is Fee <==> actions.len() == 2 && actions[1] is AnswerToWorker
            &&& match actions[0] {
                ActionView::Fee { taker, thread_id, rpc } => {
                    &&& rpc == share
                    &&& handle_stream::is_for(lane_of(s, taker), share)
                    &&& thread_id == lane_of(s, taker).sent[share.params[1]]
                    &&& lane_of(after, taker) == (FeeLaneView {
                        sent: lane_of(s, taker).sent.remove(share.params[1]),
                        ..lane_of(s, taker)
                    })
                    &&& lane_of(after, other(taker)) == lane_of(s, other(taker))
                },
                ActionView::NamedToPool { rpc, .. } => {
                    &&& rpc == (ClientView { id: after.worker.share_index, ..share })
                    &&& !handle_stream::is_for(s.mine, share)
                    &&& !handle_stream::is_for(s.develop, share)
                    &&& after.mine == s.mine
                    &&& after.develop == s.develop
                },
                _ => false,
            }
        }),
{
    protocol::lemma_methods_differ();
}

/// The identifier of the last request in a course, or `id` if there is none.
pub open spec fn last_asked(id: u64, events: Seq<EventView>) -> u64
    decreases events.len(),
{
    if events.len() == 0 {
        id
    } else {
        match events.last() {
            EventView::NamedRequest { rpc } => rpc.id,
            EventView::PlainRequest { rpc } => rpc.id,
            _ => last_asked(id, events.drop_last()),
        }
    }
}

/// Whatever identifier the pool answers under, the machine gets the answer
/// under the identifier of its own last request, with the pool's verdict and
/// nothing else; and it gets the work that it asked for under that identifier too.
pub proof fn law_machine_sees_its_own_id(
    s: SessionView,
    settings: Settings,
    events: Seq<EventView>,
    line: Seq<char>,
    answer: ServerId1View,
    job: JobView,
    due: FeeDue,
)
    requires
        job.id == settings.ids.get_work,
    ensures
        ({
            let now = run(s, settings, events);
            let id = last_asked(s.rpc_id, events);
            let answered = handle_stream::step(
                now,
                settings,
                EventView::PoolLine { line, message: PoolMessageView::Answer { rpc: answer }, due },
            ).1;
            let worked = handle_stream::step(
                now,
                settings,
                EventView::PoolLine { line, message: PoolMessageView::Job { job }, due },
            ).1;
            &&& now.rpc_id == id
            &&& answered.last() == (ActionView::AnswerToWorker {
                rpc: ServerId1View { id, jsonrpc: None, result: answer.result },
            })
            &&& worked.len() == 1
            &&& worked[0] matches ActionView::JobToWorker { job: received }
            &&& received.id == id
        }),
    decreases events.len(),
{
    if events.len() > 0 {
        law_machine_sees_its_own_id(s, settings, events.drop_last(), line, answer, job, due);
    }
}

/// How many shares a course holds.
pub open spec fn shares_in(events: Seq<EventView>) -> nat
    decreases events.len(),
{
    if events.len() == 0 {
        0
    } else {
        shares_in(events.drop_last()) + (match events.last() {
            EventView::NamedRequest { rpc } => if rpc.method == "eth_submitWork"@ {
                1nat
            } else {
                0
            },
            _ => 0,
        })
    }
}

/// The count of a machine's shares grows by one with each share and with
/// nothing else: the numbers under which the pool gets shares never repeat.
pub proof fn law_shares_are_numbered(s: SessionView, settings: Settings, events: Seq<EventView>)
    requires
        can_run(s, settings, events),
    ensures
        run(s, settings, events).worker.share_index == s.worker.share_index + shares_in(events),
    decreases events.len(),
{
    protocol::lemma_methods_differ();
    if events.len() > 0 {
        law_shares_are_numbered(s, settings, events.drop_last());
    }
}

/// The pool's answer under the number of the machine's last share counts as
/// one acceptance; under a number that is neither that nor one of the proxy's
/// own identifiers it counts as one refusal and is reported; no other event
/// changes either count.
///
/// A share's number that is also one of the proxy's own identifiers is left
/// out: the answer is then taken for the answer to that request.
pub proof fn law_answers_are_counted(s: SessionView, settings: Settings, event: EventView)
    requires
        handle_stream::can_take(s, settings, event),
        s.worker.share_index != settings.ids.login,
        s.worker.share_index != settings.ids.submit_hashrate,
        s.worker.share_index != settings.ids.get_work,
    ensures
        ({
            let (after, actions) = handle_stream::step(s, settings, event);
            match event {
                EventView::PoolLine { message: PoolMessageView::Answer { rpc }, line, .. } => {
                    if rpc.id == s.worker.share_index {
                        &&& after.worker.accept_index == s.worker.accept_index + 1
                        &&& after.worker.invalid_index == s.worker.invalid_index
                    } else if rpc.id != settings.ids.login && rpc.id
                        != settings.ids.submit_hashrate && rpc.id != settings.ids.get_work {
                        &&& after.worker.accept_index == s.worker.accept_index
                        &&& after.worker.invalid_index == s.worker.invalid_index + 1
                        &&& actions[0] == (ActionView::ReportError {
                            worker_name: s.worker_name,
                            line,
                        })
                    } else {
                        &&& after.worker.accept_index == s.worker.accept_index
                        &&& after.worker.invalid_index == s.worker.invalid_index
                    }
                },
                _ => {
                    &&& after.worker.accept_index == s.worker.accept_index
                    &&& after.worker.invalid_index == s.worker.invalid_index
                },
            }
        }),
{
}

/// Where jobs carry no fees, the machine gets every job as the pool sent it,
/// but for the identifier of work that it asked for, and no lane changes on a
/// line of the pool.
pub proof fn law_without_fees_jobs_pass(
    s: SessionView,
    settings: Settings,
    line: Seq<char>,
    message: PoolMessageView,
    due: FeeDue,
)
    requires
        settings.share == 0,
    ensures
        ({
            let (after, actions) = handle_stream::step(
                s,
                settings,
                EventView::PoolLine { line, message, due },
            );
            &&& after.mine == s.mine
            &&& after.develop == s.develop
            &&& message matches PoolMessageView::Job { job } ==> actions == seq![
                ActionView::JobToWorker {
                    job: JobView {
                        id: if job.id == settings.ids.get_work {
                            s.rpc_id
                        } else {
                            job.id
                        },
                        ..job
                    },
                },
            ]
        }),
{
}

/// Fees or not, nothing of a job changes but its identifier and its result.
pub proof fn law_jobs_keep_their_form(
    s: SessionView,
    settings: Settings,
    due: FeeDue,
    job: JobView,
)
    ensures
        handle_stream::job_for_worker(s, settings, due, job).form == job.form,
        job.id != settings.ids.get_work ==> handle_stream::job_for_worker(
            s,
            settings,
            due,
            job,
        ).id == job.id,
{
}

/// A line of the pool that is neither an answer nor a job reaches the machine
/// as it came, and changes nothing.
pub proof fn law_unknown_lines_pass(s: SessionView, settings: Settings, line: Seq<char>, due: FeeDue)
    ensures
        handle_stream::step(
            s,
            settings,
            EventView::PoolLine { line, message: PoolMessageView::Unknown, due },
        ) == (s, seq![ActionView::TextToWorker { text: line }]),
{
}

/// Whether an event ends a session.
pub open spec fn ends(event: EventView) -> bool {
    match event {
        EventView::WorkerGone => true,
        EventView::WorkerTimedOut { .. } => true,
        EventView::PoolGone => true,
        EventView::PoolUnreadable { .. } => true,
        EventView::OwnJob { rpc: Err(_), .. } => true,
        EventView::NamedRequest { rpc } => rpc.method == "eth_submitLogin"@ && rpc.params.len()
            == 0,
        _ => false,
    }
}

/// A session ends when one side is gone, when a job of the proxy's own cannot
/// be read and when a login names no wallet; not otherwise; and nothing is
/// asked for after the end.
pub proof fn law_when_sessions_end(s: SessionView, settings: Settings, event: EventView)
    ensures
        ({
            let actions = handle_stream::step(s, settings, event).1;
            &&& forall|i: int|
                0 <= i < actions.len() ==> ((#[trigger] actions[i]) is Close <==> ends(event) && i
                    == actions.len() - 1)
            &&& ends(event) ==> actions.len() > 0
        }),
{
    protocol::lemma_methods_differ();
}

/// Whether an event is a request that has to reach the pool: a login, a
/// hashrate report or a request for work.
pub open spec fn must_reach_pool(event: EventView) -> bool {
    match event {
        EventView::NamedRequest { rpc } => rpc.method == "eth_submitHashrate"@ || rpc.method
            == "eth_submitLogin"@ && rpc.params.len() > 0,
        EventView::PlainRequest { rpc } => rpc.method == "eth_getWork"@,
        _ => false,
    }
}

/// A login, a hashrate report and a request for work each ask for one write,
/// and the session goes on if and only if that write took something. No other
/// write ends a session, however it went.
pub proof fn law_which_writes_must_succeed(
    s: SessionView,
    settings: Settings,
    event: EventView,
    outcome: WriteOutcome,
    worker_name: Seq<char>,
)
    ensures
        ({
            let actions = handle_stream::step(s, settings, event).1;
            let took = outcome matches WriteOutcome::Written { len } && len > 0;
            &&& must_reach_pool(event) ==> actions.len() == 1 && (actions[0] is NamedToPool
                || actions[0] is PlainToPool)
            &&& forall|i: int|
                0 <= i < actions.len() ==> (handle_stream::end_after_write(
                    handle_stream::is_tolerated(#[trigger] actions[i]),
                    outcome,
                    worker_name,
                ) is None <==> took || !must_reach_pool(event))
        }),
{
    protocol::lemma_methods_differ();
}

/// A pool's line is counted as a job if and only if it is one; the count
/// never returns to zero.
pub proof fn law_jobs_are_counted(s: SessionView, settings: Settings, event: EventView)
    ensures
        ({
            let after = handle_stream::step(s, settings, event).0;
            if event matches EventView::PoolLine { message: PoolMessageView::Job { .. }, .. } {
                &&& after.pool_job_idx >= 1
                &&& s.pool_job_idx < u64::MAX ==> after.pool_job_idx == s.pool_job_idx + 1
            } else {
                after.pool_job_idx == s.pool_job_idx
            }
        }),
{
}

/// A job of the proxy's own whose difficulty is new leaves no older job
/// waiting in its taker's lane; and the job that came last is the first to be
/// given out.
pub proof fn law_newest_own_job_goes_first(
    s: SessionView,
    settings: Settings,
    taker: Taker,
    thread_id: u64,
    diff: Seq<char>,
    job: JobView,
)
    ensures
        ({
            let after = handle_stream::step(
                s,
                settings,
                EventView::OwnJob { taker, thread_id, diff, rpc: Ok(job) },
            ).0;
            let waiting = FeeJobView { thread_id, job_id: job.result[0], rpc: job };
            &&& after.job_diff == diff
            &&& lane_of(after, taker).unsent.last() == waiting
            &&& diff != s.job_diff ==> lane_of(after, taker).unsent == seq![waiting]
            &&& diff == s.job_diff ==> lane_of(after, taker).unsent == lane_of(
                s,
                taker,
            ).unsent.push(waiting)
            &&& taker is Proxy ==> after.develop == s.develop
            &&& taker is Developer ==> after.mine == s.mine
        }),
{
    let after = handle_stream::step(
        s,
        settings,
        EventView::OwnJob { taker, thread_id, diff, rpc: Ok(job) },
    ).0;
    let waiting = FeeJobView { thread_id, job_id: job.result[0], rpc: job };
    if diff != s.job_diff {
        assert(lane_of(after, taker).unsent =~= seq![waiting]);
    }
}

/// Whether an event brought in this waiting job, at this difficulty.
pub open spec fn brought(event: EventView, taker: Taker, diff: Seq<char>, job: FeeJobView) -> bool {
    event == (EventView::OwnJob { taker, thread_id: job.thread_id, diff, rpc: Ok(job.rpc) })
}

/// Whether the other taker's jobs never change the difficulty while jobs of
/// this taker wait.
pub open spec fn undisturbed(
    s: SessionView,
    settings: Settings,
    events: Seq<EventView>,
    taker: Taker,
) -> bool
    decreases events.len(),
{
    events.len() == 0 || {
        let before = run(s, settings, events.drop_last());
        &&& undisturbed(s, settings, events.drop_last(), taker)
        &&& events.last() matches EventView::OwnJob { taker: other, diff, .. } ==> other == taker
            || diff == before.job_diff || lane_of(before, taker).unsent.len() == 0
    }
}

/// Every job that waits in a taker's lane came in at the difficulty of the
/// last job of the proxy's own: older ones were dropped.
///
/// Both takers share one note of the difficulty, so that a job of the other
/// taker can change it while jobs wait here: such courses are left out.
pub proof fn law_waiting_jobs_are_of_the_last_difficulty(
    s: SessionView,
    settings: Settings,
    events: Seq<EventView>,
    taker: Taker,
)
    requires
        lane_of(s, taker).unsent.len() == 0,
        undisturbed(s, settings, events, taker),
    ensures
        ({
            let after = run(s, settings, events);
            forall|i: int|
                0 <= i < lane_of(after, taker).unsent.len() ==> exists|k: int|
                    0 <= k < events.len() && brought(
                        #[trigger] events[k],
                        taker,
                        after.job_diff,
                        #[trigger] lane_of(after, taker).unsent[i],
                    )
        }),
    decreases events.len(),
{
    if events.len() > 0 {
        let prior = events.drop_last();
        let before = run(s, settings, prior);
        let after = run(s, settings, events);
        law_waiting_jobs_are_of_the_last_difficulty(s, settings, prior, taker);
        assert forall|i: int| 0 <= i < lane_of(after, taker).unsent.len() implies exists|k: int|
            0 <= k < events.len() && brought(
                #[trigger] events[k],
                taker,
                after.job_diff,
                #[trigger] lane_of(after, taker).unsent[i],
            ) by {
            if brought(
                events[events.len() - 1],
                taker,
                after.job_diff,
                lane_of(after, taker).unsent[i],
            ) {
            } else {
                assert(lane_of(after, taker).unsent[i] == lane_of(before, taker).unsent[i]);
                assert(after.job_diff == before.job_diff);
                let k = choose|k: int|
                    0 <= k < prior.len() && brought(
                        #[trigger] prior[k],
                        taker,
                        before.job_diff,
                        lane_of(before, taker).unsent[i],
                    );
                assert(prior[k] == events[k]);
            }
        }
    }
}

/// The time that a machine has to speak up is the short one until its login is
/// answered, and the longer one ever after.
pub proof fn law_patience_grows_once(s: SessionView, settings: Settings, events: Seq<EventView>)
    requires
        session_inv(s),
        can_run(s, settings, events),
    ensures
        s.client_timeout_sec == LATER_TIMEOUT_SEC ==> run(s, settings, events).client_timeout_sec
            == LATER_TIMEOUT_SEC,
        run(s, settings, events).client_timeout_sec == LATER_TIMEOUT_SEC <==> run(
            s,
            settings,
            events,
        ).worker.online,
    decreases events.len(),
{
    law_sessions_stay_in_order(s, settings, events);
    if events.len() > 0 {
        law_patience_grows_once(s, settings, events.drop_last());
    }
}

} // verus!
