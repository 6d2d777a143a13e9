//! What a session keeps, what happens to it, and what it asks for.

use crate::error::{StreamError, StreamErrorView};
use crate::fee::{FeeLane, FeeLaneView};
use crate::fee;
use crate::protocol::{
    Client, ClientView, ClientWithWorkerName, JobView, RequestIds, Server, ServerId1,
    ServerId1View, ServerJobsWithHeight, ServerRpc, ServerSideJob,
};
use crate::worker::{Worker, WorkerView};
use crate::worker;
use vstd::prelude::*;

verus! {

/// How many seconds a machine may keep silent before its login is answered.
pub const FIRST_TIMEOUT_SEC: u64 = 1;

/// How many seconds it may keep silent from then on.
pub const LATER_TIMEOUT_SEC: u64 = 60;

/// What is settled before a session starts.
#[derive(Clone, Copy)]
pub struct Settings {
    /// The identifiers of the proxy's own requests.
    pub ids: RequestIds,
    /// Zero if jobs are passed on without a fee.
    pub share: u32,
}

/// Whom a fee goes to.
#[derive(Clone, Copy, Debug, PartialEq, Eq, Structural)]
pub enum Taker {
    /// The one who runs the proxy.
    Proxy,
    /// The one who wrote it.
    Developer,
}

/// Which fees are due on the pool's next job. The rates are fractions, and
/// whoever counts by them says so here.
#[derive(Clone, Copy)]
pub struct FeeDue {
    pub proxy: bool,
    pub developer: bool,
}

/// A session between a machine and its pool.
pub struct Session {
    /// The wallet and the machine's name, with a dot between them.
    pub worker_name: String,
    /// How many jobs the pool has sent; after the largest number comes one.
    pub pool_job_idx: u64,
    /// The difficulty of the last job of the proxy's own.
    pub job_diff: String,
    /// The machine.
    pub worker: Worker,
    /// The identifier of the machine's last request.
    pub rpc_id: u64,
    /// The jobs that the proxy has in play.
    pub mine: FeeLane,
    /// The jobs that the developer has in play.
    pub develop: FeeLane,
    /// How many seconds the machine may keep silent.
    pub client_timeout_sec: u64,
}

/// A session as contracts see it.
pub struct SessionView {
    pub worker_name: Seq<char>,
    pub pool_job_idx: u64,
    pub job_diff: Seq<char>,
    pub worker: WorkerView,
    pub rpc_id: u64,
    pub mine: FeeLaneView,
    pub develop: FeeLaneView,
    pub client_timeout_sec: u64,
}

impl View for Session {
    type V = SessionView;

    open spec fn view(&self) -> SessionView {
        SessionView {
            worker_name: self.worker_name@,
            pool_job_idx: self.pool_job_idx,
            job_diff: self.job_diff@,
            worker: self.worker@,
            rpc_id: self.rpc_id,
            mine: self.mine@,
            develop: self.develop@,
            client_timeout_sec: self.client_timeout_sec,
        }
    }
}

/// A session in which nothing has happened yet.
pub open spec fn new_session() -> SessionView {
    SessionView {
        worker_name: seq![],
        pool_job_idx: 0,
        job_diff: seq![],
        worker: worker::fresh_worker(),
        rpc_id: 0,
        mine: fee::empty_lane(),
        develop: fee::empty_lane(),
        client_timeout_sec: FIRST_TIMEOUT_SEC,
    }
}

/// The number of the pool's next job, after `idx` of them.
pub open spec fn job_idx_after(idx: u64) -> u64 {
    if idx == u64::MAX {
        1
    } else {
        (idx + 1) as u64
    }
}

impl Session {
    /// A session in which nothing has happened yet.
    pub fn new() -> (r: Session)
        ensures
            r@ == new_session(),
    {
        Session {
            worker_name: String::new(),
            pool_job_idx: 0,
            job_diff: String::new(),
            worker: Worker::default(),
            rpc_id: 0,
            mine: FeeLane::new(),
            develop: FeeLane::new(),
            client_timeout_sec: FIRST_TIMEOUT_SEC,
        }
    }

    /// The number that the pool's next job will have.
    pub fn next_job_idx(&self) -> (r: u64)
        ensures
            r == job_idx_after(self@.pool_job_idx),
    {
        if self.pool_job_idx == u64::MAX {
            1
        } else {
            self.pool_job_idx + 1
        }
    }
}

/// What can happen to a session.
#[allow(inconsistent_fields)]
pub enum Event {
    /// The machine sent a line that holds something; each form of a request
    /// that the line could be read as is there.
    WorkerLine { named: Option<ClientWithWorkerName>, plain: Option<Client> },
    /// The machine hung up or could not be read.
    WorkerGone,
    /// The machine kept silent for too long.
    WorkerTimedOut { reason: String },
    /// The pool sent a line that holds something; each form of a message that
    /// the line could be read as is there.
    PoolLine {
        line: String,
        answer: Option<ServerId1>,
        with_height: Option<ServerJobsWithHeight>,
        side: Option<ServerSideJob>,
        plain: Option<Server>,
        due: FeeDue,
    },
    /// The pool hung up.
    PoolGone,
    /// The pool could not be read.
    PoolUnreadable { reason: String },
    /// A job of the proxy's own came in, or something that could not be read
    /// as one.
    OwnJob { taker: Taker, thread_id: u64, diff: String, rpc: Result<Server, String> },
}

/// What the pool can have sent.
pub enum PoolMessageView {
    Answer { rpc: ServerId1View },
    Job { job: JobView },
    Unknown,
}

/// An event as contracts see it.
#[allow(inconsistent_fields)]
pub enum EventView {
    NamedRequest { rpc: ClientView },
    PlainRequest { rpc: ClientView },
    UnreadRequest,
    WorkerGone,
    WorkerTimedOut { reason: Seq<char> },
    PoolLine { line: Seq<char>, message: PoolMessageView, due: FeeDue },
    PoolGone,
    PoolUnreadable { reason: Seq<char> },
    OwnJob { taker: Taker, thread_id: u64, diff: Seq<char>, rpc: Result<JobView, Seq<char>> },
}

/// The pool's message: an answer if the line reads as one, else a job with a
/// height, else one with a version, else a plain one.
pub open spec fn pool_message(
    answer: Option<ServerId1>,
    with_height: Option<ServerJobsWithHeight>,
    side: Option<ServerSideJob>,
    plain: Option<Server>,
) -> PoolMessageView {
    match answer {
        Some(rpc) => PoolMessageView::Answer { rpc: rpc@ },
        None => match with_height {
            Some(rpc) => PoolMessageView::Job { job: rpc.job() },
            None => match side {
                Some(rpc) => PoolMessageView::Job { job: rpc.job() },
                None => match plain {
                    Some(rpc) => PoolMessageView::Job { job: rpc.job() },
                    None => PoolMessageView::Unknown,
                },
            },
        },
    }
}

impl View for Event {
    type V = EventView;

    /// A request counts as named if the line reads as one that is named.
    open spec fn view(&self) -> EventView {
        match self {
            Event::WorkerLine { named, plain } => match named {
                Some(rpc) => EventView::NamedRequest { rpc: rpc@ },
                None => match plain {
                    Some(rpc) => EventView::PlainRequest { rpc: rpc@ },
                    None => EventView::UnreadRequest,
                },
            },
            Event::WorkerGone => EventView::WorkerGone,
            Event::WorkerTimedOut { reason } => EventView::WorkerTimedOut { reason: reason@ },
            Event::PoolLine { line, answer, with_height, side, plain, due } => EventView::PoolLine {
                line: line@,
                message: pool_message(*answer, *with_height, *side, *plain),
                due: *due,
            },
            Event::PoolGone => EventView::PoolGone,
            Event::PoolUnreadable { reason } => EventView::PoolUnreadable { reason: reason@ },
            Event::OwnJob { taker, thread_id, diff, rpc } => EventView::OwnJob {
                taker: *taker,
                thread_id: *thread_id,
                diff: diff@,
                rpc: match rpc {
                    Ok(job) => Ok(job.job()),
                    Err(reason) => Err(reason@),
                },
            },
        }
    }
}

/// What a session asks of whoever holds its sockets and channels.
#[derive(Debug, PartialEq, Eq)]
#[allow(inconsistent_fields)]
pub enum Action {
    /// Write a named request to the pool; unless it is tolerant, a write that
    /// goes wrong ends the session.
    NamedToPool { rpc: ClientWithWorkerName, tolerant: bool },
    /// Write a plain request to the pool; a write that goes wrong ends the
    /// session.
    PlainToPool { rpc: Client },
    /// Write an answer to the machine, whether or not it gets there.
    AnswerToWorker { rpc: ServerId1 },
    /// Write a job with a height to the machine, whether or not it gets there.
    HeightJobToWorker { rpc: ServerJobsWithHeight },
    /// Write a job with a version to the machine, whether or not it gets there.
    SideJobToWorker { rpc: ServerSideJob },
    /// Write a plain job to the machine, whether or not it gets there.
    PlainJobToWorker { rpc: Server },
    /// Write a line to the machine as it came, whether or not it gets there.
    TextToWorker { text: String },
    /// Hand a share to the taker's connection of that number.
    Fee { taker: Taker, thread_id: u64, rpc: ClientWithWorkerName },
    /// Report that the pool refused something of the machine.
    ReportError { worker_name: String, line: String },
    /// Close the connection to the pool.
    ShutdownPool,
    /// Close the connection to the machine.
    ShutdownWorker,
    /// End the session.
    Close { error: StreamError },
}

/// An action as contracts see it.
#[allow(inconsistent_fields)]
pub enum ActionView {
    NamedToPool { rpc: ClientView, tolerant: bool },
    PlainToPool { rpc: ClientView },
    AnswerToWorker { rpc: ServerId1View },
    JobToWorker { job: JobView },
    TextToWorker { text: Seq<char> },
    Fee { taker: Taker, thread_id: u64, rpc: ClientView },
    ReportError { worker_name: Seq<char>, line: Seq<char> },
    ShutdownPool,
    ShutdownWorker,
    Close { error: StreamErrorView },
}

impl View for Action {
    type V = ActionView;

    open spec fn view(&self) -> ActionView {
        match self {
            Action::NamedToPool { rpc, tolerant } => ActionView::NamedToPool {
                rpc: rpc@,
                tolerant: *tolerant,
            },
            Action::PlainToPool { rpc } => ActionView::PlainToPool { rpc: rpc@ },
            Action::AnswerToWorker { rpc } => ActionView::AnswerToWorker { rpc: rpc@ },
            Action::HeightJobToWorker { rpc } => ActionView::JobToWorker { job: rpc.job() },
            Action::SideJobToWorker { rpc } => ActionView::JobToWorker { job: rpc.job() },
            Action::PlainJobToWorker { rpc } => ActionView::JobToWorker { job: rpc.job() },
            Action::TextToWorker { text } => ActionView::TextToWorker { text: text@ },
            Action::Fee { taker, thread_id, rpc } => ActionView::Fee {
                taker: *taker,
                thread_id: *thread_id,
                rpc: rpc@,
            },
            Action::ReportError { worker_name, line } => ActionView::ReportError {
                worker_name: worker_name@,
                line: line@,
            },
            Action::ShutdownPool => ActionView::ShutdownPool,
            Action::ShutdownWorker => ActionView::ShutdownWorker,
            Action::Close { error } => ActionView::Close { error: error@ },
        }
    }
}

/// A list of actions as contracts see it.
pub open spec fn action_views(actions: Seq<Action>) -> Seq<ActionView> {
    actions.map_values(|action: Action| action@)
}

} // verus!
