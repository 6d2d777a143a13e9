//! The session between a machine and its pool, one event at a time.

use crate::error::{StreamError, StreamErrorView};
use crate::fee::{FeeJob, FeeJobView};
use crate::fee;
use crate::framing::WriteOutcome;
use crate::framing;
use crate::protocol::{
    Client, ClientView, ClientWithWorkerName, JobView, RequestIds, Server, ServerId1,
    ServerId1View, ServerRpc,
};
use crate::protocol;
use crate::session::{
    Action, ActionView, Event, EventView, FeeDue, PoolMessageView, Session, SessionView, Settings,
    Taker, FIRST_TIMEOUT_SEC, LATER_TIMEOUT_SEC,
};
use crate::session;
use crate::worker::WorkerView;
use vstd::prelude::*;
use vstd::string::*;

verus! {

/// A wallet and a machine's name, with a dot between them.
pub open spec fn full_name(wallet: Seq<char>, worker: Seq<char>) -> Seq<char> {
    wallet + "."@ + worker
}

/// A login: the machine is taken down under its wallet and name, and the
/// request goes to the pool under the identifier of a login. One without a
/// wallet ends the session.
pub open spec fn login_step(s: SessionView, ids: RequestIds, rpc: ClientView) -> (
    SessionView,
    Seq<ActionView>,
) {
    if rpc.params.len() > 0 {
        let name = full_name(rpc.params[0], rpc.worker);
        (
            SessionView {
                worker_name: name,
                worker: WorkerView {
                    worker: name,
                    worker_name: rpc.worker,
                    worker_wallet: rpc.params[0],
                    ..s.worker
                },
                ..s
            },
            seq![
                ActionView::NamedToPool {
                    rpc: ClientView { id: ids.login, ..rpc },
                    tolerant: false,
                },
            ],
        )
    } else {
        (s, seq![ActionView::Close { error: StreamErrorView::LoginWithoutWallet }])
    }
}

/// Whether a share is for a job that the lane noted.
pub open spec fn is_for(lane: fee::FeeLaneView, rpc: ClientView) -> bool {
    rpc.params.len() > 1 && lane.sent.contains_key(rpc.params[1])
}

/// A share that goes to a taker of fees: it is handed over as it came, and the
/// machine is told that it was accepted.
pub open spec fn diverted(taker: Taker, thread_id: u64, rpc: ClientView) -> Seq<ActionView> {
    seq![
        ActionView::Fee { taker, thread_id, rpc },
        ActionView::AnswerToWorker {
            rpc: ServerId1View { id: rpc.id, jsonrpc: None, result: true },
        },
    ]
}

/// A share: it is counted; then it goes to the proxy if it is for a job of the
/// proxy's lane, else to the developer if it is for one of that lane, else to
/// the pool under its number.
pub open spec fn work_step(s: SessionView, rpc: ClientView) -> (SessionView, Seq<ActionView>) {
    let counted = SessionView {
        worker: WorkerView { share_index: (s.worker.share_index + 1) as u64, ..s.worker },
        ..s
    };
    if is_for(s.mine, rpc) {
        (
            SessionView { mine: fee::lane_after_claim(s.mine, rpc.params[1]), ..counted },
            diverted(Taker::Proxy, s.mine.sent[rpc.params[1]], rpc),
        )
    } else if is_for(s.develop, rpc) {
        (
            SessionView { develop: fee::lane_after_claim(s.develop, rpc.params[1]), ..counted },
            diverted(Taker::Developer, s.develop.sent[rpc.params[1]], rpc),
        )
    } else {
        (
            counted,
            seq![
                ActionView::NamedToPool {
                    rpc: ClientView { id: counted.worker.share_index, ..rpc },
                    tolerant: true,
                },
            ],
        )
    }
}

/// A request that names its machine, by its method.
pub open spec fn named_step(s: SessionView, ids: RequestIds, rpc: ClientView) -> (
    SessionView,
    Seq<ActionView>,
) {
    let asked = SessionView { rpc_id: rpc.id, ..s };
    if rpc.method == "eth_submitLogin"@ {
        login_step(asked, ids, rpc)
    } else if rpc.method == "eth_submitWork"@ {
        work_step(asked, rpc)
    } else if rpc.method == "eth_submitHashrate"@ {
        (
            asked,
            seq![
                ActionView::NamedToPool {
                    rpc: ClientView { id: ids.submit_hashrate, ..rpc },
                    tolerant: false,
                },
            ],
        )
    } else {
        (asked, seq![])
    }
}

/// A plain request, by its method.
pub open spec fn plain_step(s: SessionView, ids: RequestIds, rpc: ClientView) -> (
    SessionView,
    Seq<ActionView>,
) {
    let asked = SessionView { rpc_id: rpc.id, ..s };
    if rpc.method == "eth_getWork"@ {
        (asked, seq![ActionView::PlainToPool { rpc: ClientView { id: ids.get_work, ..rpc } }])
    } else {
        (asked, seq![])
    }
}

/// What an answer of the pool is about.
pub enum Subject {
    /// The machine's login.
    Login,
    /// A hashrate report or a request for work.
    Housekeeping,
    /// The machine's last share.
    LastShare,
    /// Anything else, which counts against the machine.
    Refusal,
}

/// What an answer under `id` is about.
pub open spec fn subject_of(s: SessionView, ids: RequestIds, id: u64) -> Subject {
    if id == ids.login {
        Subject::Login
    } else if id == ids.submit_hashrate || id == ids.get_work {
        Subject::Housekeeping
    } else if id == s.worker.share_index {
        Subject::LastShare
    } else {
        Subject::Refusal
    }
}

/// A session after an answer about `subject`.
pub open spec fn session_after_answer(s: SessionView, subject: Subject) -> SessionView {
    match subject {
        Subject::Login => SessionView {
            client_timeout_sec: if s.client_timeout_sec == FIRST_TIMEOUT_SEC {
                LATER_TIMEOUT_SEC
            } else {
                s.client_timeout_sec
            },
            worker: WorkerView { online: true, ..s.worker },
            ..s
        },
        Subject::Housekeeping => s,
        Subject::LastShare => SessionView {
            worker: WorkerView { accept_index: (s.worker.accept_index + 1) as u64, ..s.worker },
            ..s
        },
        Subject::Refusal => SessionView {
            worker: WorkerView { invalid_index: (s.worker.invalid_index + 1) as u64, ..s.worker },
            ..s
        },
    }
}

/// An answer of the pool: its verdict goes to the machine under the identifier
/// of the machine's last request, with nothing else; a refusal is reported
/// before.
pub open spec fn answer_step(
    s: SessionView,
    ids: RequestIds,
    line: Seq<char>,
    rpc: ServerId1View,
) -> (SessionView, Seq<ActionView>) {
    let subject = subject_of(s, ids, rpc.id);
    let passed_on = ActionView::AnswerToWorker {
        rpc: ServerId1View { id: s.rpc_id, jsonrpc: None, result: rpc.result },
    };
    (
        session_after_answer(s, subject),
        if subject is Refusal {
            seq![ActionView::ReportError { worker_name: s.worker_name, line }, passed_on]
        } else {
            seq![passed_on]
        },
    )
}

/// Whether a fee that is due is taken: only where jobs carry fees at all.
pub open spec fn takes(settings: Settings, due: bool) -> bool {
    settings.share != 0 && due
}

/// The job that the machine gets for a job of the pool: with the result of the
/// proxy's newest job if that fee is taken, with the developer's if that one
/// is, and under the machine's own identifier if it asked for it.
pub open spec fn job_for_worker(s: SessionView, settings: Settings, due: FeeDue, job: JobView) -> JobView {
    let after_proxy = if takes(settings, due.proxy) {
        fee::job_after_assign(s.mine, job)
    } else {
        job
    };
    let after_both = if takes(settings, due.developer) {
        fee::job_after_assign(s.develop, after_proxy)
    } else {
        after_proxy
    };
    JobView {
        id: if job.id == settings.ids.get_work {
            s.rpc_id
        } else {
            job.id
        },
        ..after_both
    }
}

/// A session after a job of the pool.
pub open spec fn session_after_job(s: SessionView, settings: Settings, due: FeeDue) -> SessionView {
    SessionView {
        pool_job_idx: session::job_idx_after(s.pool_job_idx),
        mine: if takes(settings, due.proxy) {
            fee::lane_after_assign(s.mine)
        } else {
            s.mine
        },
        develop: if takes(settings, due.developer) {
            fee::lane_after_assign(s.develop)
        } else {
            s.develop
        },
        ..s
    }
}

/// A line of the pool. One that is neither an answer nor a job goes to the
/// machine as it came.
pub open spec fn pool_step(
    s: SessionView,
    settings: Settings,
    line: Seq<char>,
    message: PoolMessageView,
    due: FeeDue,
) -> (SessionView, Seq<ActionView>) {
    match message {
        PoolMessageView::Answer { rpc } => answer_step(s, settings.ids, line, rpc),
        PoolMessageView::Job { job } => (
            session_after_job(s, settings, due),
            seq![ActionView::JobToWorker { job: job_for_worker(s, settings, due, job) }],
        ),
        PoolMessageView::Unknown => (s, seq![ActionView::TextToWorker { text: line }]),
    }
}

/// A job of the proxy's own: if its difficulty is not that of the last one,
/// the taker's waiting jobs are dropped; then it waits behind them. One that
/// cannot be read ends the session.
pub open spec fn own_job_step(
    s: SessionView,
    taker: Taker,
    thread_id: u64,
    diff: Seq<char>,
    rpc: Result<JobView, Seq<char>>,
) -> (SessionView, Seq<ActionView>) {
    let stale = diff != s.job_diff;
    let lane = fee::lane_after_drop(
        match taker {
            Taker::Proxy => s.mine,
            Taker::Developer => s.develop,
        },
        stale,
    );
    let (lane_after, actions) = match rpc {
        Ok(job) => (
            fee::lane_after_push(lane, FeeJobView { thread_id, job_id: job.result[0], rpc: job }),
            seq![],
        ),
        Err(reason) => (
            lane,
            seq![ActionView::Close { error: StreamErrorView::BadJob { reason } }],
        ),
    };
    let s = SessionView { job_diff: diff, ..s };
    match taker {
        Taker::Proxy => (SessionView { mine: lane_after, ..s }, actions),
        Taker::Developer => (SessionView { develop: lane_after, ..s }, actions),
    }
}

/// A session after an event, and what it then asks for.
pub open spec fn step(s: SessionView, settings: Settings, event: EventView) -> (
    SessionView,
    Seq<ActionView>,
) {
    match event {
        EventView::NamedRequest { rpc } => named_step(s, settings.ids, rpc),
        EventView::PlainRequest { rpc } => plain_step(s, settings.ids, rpc),
        EventView::UnreadRequest => (s, seq![]),
        EventView::WorkerGone => (
            s,
            seq![
                ActionView::ShutdownPool,
                ActionView::Close {
                    error: StreamErrorView::Offline { worker_name: s.worker_name },
                },
            ],
        ),
        EventView::WorkerTimedOut { reason } => (
            s,
            seq![
                ActionView::ShutdownPool,
                ActionView::Close { error: StreamErrorView::TimedOut { reason } },
            ],
        ),
        EventView::PoolLine { line, message, due } => pool_step(s, settings, line, message, due),
        EventView::PoolGone => (
            s,
            seq![
                ActionView::ShutdownWorker,
                ActionView::Close {
                    error: StreamErrorView::Offline { worker_name: s.worker_name },
                },
            ],
        ),
        EventView::PoolUnreadable { reason } => (
            s,
            seq![ActionView::Close { error: StreamErrorView::PoolUnreadable { reason } }],
        ),
        EventView::OwnJob { taker, thread_id, diff, rpc } => own_job_step(
            s,
            taker,
            thread_id,
            diff,
            rpc,
        ),
    }
}

/// Whether a session can take an event: no counter of the machine's shares may
/// be full, and a job of the proxy's own has an identifier.
pub open spec fn can_take(s: SessionView, settings: Settings, event: EventView) -> bool {
    match event {
        EventView::NamedRequest { rpc } => rpc.method == "eth_submitWork"@ ==> s.worker.share_index
            < u64::MAX,
        EventView::PoolLine { message: PoolMessageView::Answer { rpc }, .. } => match subject_of(
            s,
            settings.ids,
            rpc.id,
        ) {
            Subject::LastShare => s.worker.accept_index < u64::MAX,
            Subject::Refusal => s.worker.invalid_index < u64::MAX,
            _ => true,
        },
        EventView::OwnJob { rpc: Ok(job), .. } => job.result.len() > 0,
        _ => true,
    }
}

/// Whether a session goes on when the write that an action asked for fails:
/// logins, hashrate reports and requests for work have to reach the pool,
/// shares and whatever goes to the machine do not.
pub open spec fn is_tolerated(action: ActionView) -> bool {
    match action {
        ActionView::NamedToPool { tolerant, .. } => tolerant,
        ActionView::PlainToPool { .. } => false,
        _ => true,
    }
}

/// The error that ends a session after a write, if any: none where a failure
/// is tolerated.
pub open spec fn end_after_write(
    tolerant: bool,
    outcome: WriteOutcome,
    worker_name: Seq<char>,
) -> Option<StreamErrorView> {
    if tolerant {
        None
    } else {
        framing::write_verdict(outcome, worker_name)
    }
}

/// A login (see [`login_step`]).
fn eth_submit_login(session: &mut Session, ids: &RequestIds, rpc: ClientWithWorkerName) -> (r: Vec<
    Action,
>)
    ensures
        (final(session)@, session::action_views(r@)) == login_step(old(session)@, *ids, rpc@),
{
    let mut rpc = rpc;
    let ghost asked = rpc@;
    if rpc.params.len() > 0 {
        let wallet = rpc.params[0].clone();
        assert(wallet@ == asked.params[0]);
        let name = wallet.clone().concat(".").concat(rpc.worker.as_str());
        session.worker.login(name.clone(), rpc.worker.clone(), wallet);
        session.worker_name = name;
        rpc.id = ids.login;
        let r = vec![Action::NamedToPool { rpc, tolerant: false }];
        assert(session::action_views(r@) =~= login_step(old(session)@, *ids, asked).1);
        r
    } else {
        let r = vec![Action::Close { error: StreamError::LoginWithoutWallet }];
        assert(session::action_views(r@) =~= login_step(old(session)@, *ids, asked).1);
        r
    }
}

/// A share that goes to a taker of fees (see [`diverted`]).
fn divert(taker: Taker, thread_id: u64, rpc: ClientWithWorkerName) -> (r: Vec<Action>)
    ensures
        session::action_views(r@) == diverted(taker, thread_id, rpc@),
{
    let answer = ServerId1 { id: rpc.id, jsonrpc: None, result: true };
    let r = vec![
        Action::Fee { taker, thread_id, rpc },
        Action::AnswerToWorker { rpc: answer },
    ];
    assert(session::action_views(r@) =~= diverted(taker, thread_id, rpc@));
    r
}

/// A share (see [`work_step`]).
fn eth_submit_work(session: &mut Session, rpc: ClientWithWorkerName) -> (r: Vec<Action>)
    requires
        old(session).worker.share_index < u64::MAX,
    ensures
        (final(session)@, session::action_views(r@)) == work_step(old(session)@, rpc@),
{
    let mut rpc = rpc;
    let ghost asked = rpc@;
    session.worker.share_index_add();
    if rpc.params.len() > 1 {
        assert(asked.params[1] == rpc.params[1]@);
        if let Some(thread_id) = session.mine.claim(rpc.params[1].as_str()) {
            return divert(Taker::Proxy, thread_id, rpc);
        }
        assert(session.mine@.sent =~= old(session)@.mine.sent);
        if let Some(thread_id) = session.develop.claim(rpc.params[1].as_str()) {
            return divert(Taker::Developer, thread_id, rpc);
        }
        assert(session.develop@.sent =~= old(session)@.develop.sent);
    }
    rpc.id = session.worker.share_index;
    let r = vec![Action::NamedToPool { rpc, tolerant: true }];
    assert(session::action_views(r@) =~= work_step(old(session)@, asked).1);
    r
}

/// A hashrate report: it goes to the pool under its own identifier.
fn eth_submit_hashrate(ids: &RequestIds, rpc: ClientWithWorkerName) -> (r: Vec<Action>)
    ensures
        session::action_views(r@) == seq![
            ActionView::NamedToPool {
                rpc: ClientView { id: ids.submit_hashrate, ..rpc@ },
                tolerant: false,
            },
        ],
{
    let mut rpc = rpc;
    let ghost asked = rpc@;
    rpc.id = ids.submit_hashrate;
    let r = vec![Action::NamedToPool { rpc, tolerant: false }];
    assert(session::action_views(r@) =~= seq![
        ActionView::NamedToPool {
            rpc: ClientView { id: ids.submit_hashrate, ..asked },
            tolerant: false,
        },
    ]);
    r
}

/// A request for work: it goes to the pool under its own identifier.
fn eth_get_work(ids: &RequestIds, rpc: Client) -> (r: Vec<Action>)
    ensures
        session::action_views(r@) == seq![
            ActionView::PlainToPool { rpc: ClientView { id: ids.get_work, ..rpc@ } },
        ],
{
    let mut rpc = rpc;
    let ghost asked = rpc@;
    rpc.id = ids.get_work;
    let r = vec![Action::PlainToPool { rpc }];
    assert(session::action_views(r@) =~= seq![
        ActionView::PlainToPool { rpc: ClientView { id: ids.get_work, ..asked } },
    ]);
    r
}

/// A request that names its machine (see [`named_step`]).
fn named_request(session: &mut Session, ids: &RequestIds, rpc: ClientWithWorkerName) -> (r: Vec<
    Action,
>)
    requires
        rpc@.method == "eth_submitWork"@ ==> old(session).worker.share_index < u64::MAX,
    ensures
        (final(session)@, session::action_views(r@)) == named_step(old(session)@, *ids, rpc@),
{
    session.rpc_id = rpc.id;
    if protocol::is_method(&rpc.method, "eth_submitLogin") {
        eth_submit_login(session, ids, rpc)
    } else if protocol::is_method(&rpc.method, "eth_submitWork") {
        eth_submit_work(session, rpc)
    } else if protocol::is_method(&rpc.method, "eth_submitHashrate") {
        eth_submit_hashrate(ids, rpc)
    } else {
        let r: Vec<Action> = Vec::new();
        assert(session::action_views(r@) =~= seq![]);
        r
    }
}

/// A plain request (see [`plain_step`]).
fn plain_request(session: &mut Session, ids: &RequestIds, rpc: Client) -> (r: Vec<Action>)
    ensures
        (final(session)@, session::action_views(r@)) == plain_step(old(session)@, *ids, rpc@),
{
    session.rpc_id = rpc.id;
    if protocol::is_method(&rpc.method, "eth_getWork") {
        eth_get_work(ids, rpc)
    } else {
        let r: Vec<Action> = Vec::new();
        assert(session::action_views(r@) =~= seq![]);
        r
    }
}

/// An answer of the pool (see [`answer_step`]).
fn pool_answer(session: &mut Session, ids: &RequestIds, line: String, rpc: ServerId1) -> (r: Vec<
    Action,
>)
    requires
        subject_of(old(session)@, *ids, rpc.id) is LastShare ==> old(session).worker.accept_index
            < u64::MAX,
        subject_of(old(session)@, *ids, rpc.id) is Refusal ==> old(session).worker.invalid_index
            < u64::MAX,
    ensures
        (final(session)@, session::action_views(r@)) == answer_step(
            old(session)@,
            *ids,
            line@,
            rpc@,
        ),
{
    let ghost expected = answer_step(session@, *ids, line@, rpc@);
    let mut r: Vec<Action> = Vec::new();
    if rpc.id == ids.login {
        if session.client_timeout_sec == FIRST_TIMEOUT_SEC {
            session.client_timeout_sec = LATER_TIMEOUT_SEC;
        }
        session.worker.logind();
    } else if rpc.id == ids.submit_hashrate {
    } else if rpc.id == ids.get_work {
    } else if rpc.id == session.worker.share_index {
        session.worker.share_accept();
    } else {
        session.worker.share_reject();
        r.push(Action::ReportError { worker_name: session.worker_name.clone(), line });
    }
    let answer = ServerId1 { id: session.rpc_id, jsonrpc: None, result: rpc.result };
    r.push(Action::AnswerToWorker { rpc: answer });
    assert(session::action_views(r@) =~= expected.1);
    r
}

/// A job of the pool, in any form: it is counted, the fees that are taken are
/// worked into it, and it gets the machine's identifier if it was asked for.
fn pool_job<T: ServerRpc>(session: &mut Session, settings: &Settings, due: FeeDue, rpc: T) -> (r: T)
    ensures
        final(session)@ == session_after_job(old(session)@, *settings, due),
        r.job() == job_for_worker(old(session)@, *settings, due, rpc.job()),
{
    let mut job_rpc = rpc;
    session.pool_job_idx = session.next_job_idx();
    if settings.share != 0 {
        fee::fee_job_process(due.proxy, &mut session.mine, &mut job_rpc);
        fee::develop_job_process(due.developer, &mut session.develop, &mut job_rpc);
    }
    if job_rpc.id() == settings.ids.get_work {
        job_rpc.set_id(session.rpc_id);
    }
    job_rpc
}

/// A job of the proxy's own (see [`own_job_step`]).
fn own_job(
    session: &mut Session,
    taker: Taker,
    thread_id: u64,
    diff: String,
    rpc: Result<Server, String>,
) -> (r: Vec<Action>)
    requires
        rpc matches Ok(job) ==> job.result@.len() > 0,
    ensures
        (final(session)@, session::action_views(r@)) == own_job_step(
            old(session)@,
            taker,
            thread_id,
            diff@,
            match rpc {
                Ok(job) => Ok(job.job()),
                Err(reason) => Err(reason@),
            },
        ),
{
    let mut r: Vec<Action> = Vec::new();
    let stale = diff != session.job_diff;
    session.job_diff = diff;
    match taker {
        Taker::Proxy => session.mine.drop_stale(stale),
        Taker::Developer => session.develop.drop_stale(stale),
    }
    match rpc {
        Ok(job_rpc) => {
            let job_id = job_rpc.result[0].clone();
            assert(job_id@ == job_rpc.job().result[0]);
            let job = FeeJob { thread_id, job_id, rpc: job_rpc };
            match taker {
                Taker::Proxy => session.mine.push(job),
                Taker::Developer => session.develop.push(job),
            }
            assert(session::action_views(r@) =~= seq![]);
        },
        Err(reason) => {
            r.push(Action::Close { error: StreamError::BadJob { reason } });
            assert(session::action_views(r@) =~= seq![
                ActionView::Close { error: StreamErrorView::BadJob { reason: reason@ } },
            ]);
        },
    }
    r
}

/// Takes a session through one event, and says what it then asks for. The
/// actions are to be carried out in order.
pub fn handle_stream(session: &mut Session, settings: &Settings, event: Event) -> (r: Vec<Action>)
    requires
        can_take(old(session)@, *settings, event@),
    ensures
        (final(session)@, session::action_views(r@)) == step(old(session)@, *settings, event@),
{
    let ghost expected = step(session@, *settings, event@);
    let ids = settings.ids;
    match event {
        Event::WorkerLine { named, plain } => {
            if let Some(rpc) = named {
                return named_request(session, &ids, rpc);
            }
            if let Some(rpc) = plain {
                return plain_request(session, &ids, rpc);
            }
            let r: Vec<Action> = Vec::new();
            assert(session::action_views(r@) =~= expected.1);
            r
        },
        Event::WorkerGone => {
            let error = StreamError::Offline { worker_name: session.worker_name.clone() };
            let r = vec![Action::ShutdownPool, Action::Close { error }];
            assert(session::action_views(r@) =~= expected.1);
            r
        },
        Event::WorkerTimedOut { reason } => {
            let error = StreamError::TimedOut { reason };
            let r = vec![Action::ShutdownPool, Action::Close { error }];
            assert(session::action_views(r@) =~= expected.1);
            r
        },
        Event::PoolLine { line, answer, with_height, side, plain, due } => {
            if let Some(rpc) = answer {
                return pool_answer(session, &ids, line, rpc);
            }
            let action = if let Some(rpc) = with_height {
                Action::HeightJobToWorker { rpc: pool_job(session, settings, due, rpc) }
            } else if let Some(rpc) = side {
                Action::SideJobToWorker { rpc: pool_job(session, settings, due, rpc) }
            } else if let Some(rpc) = plain {
                Action::PlainJobToWorker { rpc: pool_job(session, settings, due, rpc) }
            } else {
                Action::TextToWorker { text: line }
            };
            let r = vec![action];
            assert(session::action_views(r@) =~= expected.1);
            r
        },
        Event::PoolGone => {
            let error = StreamError::Offline { worker_name: session.worker_name.clone() };
            let r = vec![Action::ShutdownWorker, Action::Close { error }];
            assert(session::action_views(r@) =~= expected.1);
            r
        },
        Event::PoolUnreadable { reason } => {
            let r = vec![Action::Close { error: StreamError::PoolUnreadable { reason } }];
            assert(session::action_views(r@) =~= expected.1);
            r
        },
        Event::OwnJob { taker, thread_id, diff, rpc } => {
            own_job(session, taker, thread_id, diff, rpc)
        },
    }
}

/// Tells whether a session can take an event (see [`can_take`]).
pub fn has_room(session: &Session, settings: &Settings, event: &Event) -> (r: bool)
    ensures
        r == can_take(session@, *settings, event@),
{
    match event {
        Event::WorkerLine { named: Some(rpc), .. } => {
            !protocol::is_method(&rpc.method, "eth_submitWork") || session.worker.share_index
                < u64::MAX
        },
        Event::PoolLine { answer: Some(rpc), .. } => {
            let ids = settings.ids;
            if rpc.id == ids.login || rpc.id == ids.submit_hashrate || rpc.id == ids.get_work {
                true
            } else if rpc.id == session.worker.share_index {
                session.worker.accept_index < u64::MAX
            } else {
                session.worker.invalid_index < u64::MAX
            }
        },
        Event::OwnJob { rpc: Ok(job), .. } => job.result.len() > 0,
        _ => true,
    }
}

/// Tells whether a session goes on when the write that an action asked for
/// fails (see [`is_tolerated`]).
pub fn tolerates(action: &Action) -> (r: bool)
    ensures
        r == is_tolerated(action@),
{
    match action {
        Action::NamedToPool { tolerant, .. } => *tolerant,
        Action::PlainToPool { .. } => false,
        _ => true,
    }
}

/// Judges the write that an action asked for: where a failure is tolerated it
/// does not end the session.
pub fn after_write(tolerant: bool, outcome: WriteOutcome, worker_name: &String) -> (r: Result<
    (),
    StreamError,
>)
    ensures
        framing::error_of(r) == end_after_write(tolerant, outcome, worker_name@),
{
    if tolerant {
        Ok(())
    } else {
        framing::write_to_socket(outcome, worker_name)
    }
}

} // verus!
