//! What contracts see is what is there: no view leaves out, adds or exchanges
//! anything.

use crate::client_to_server::{
    Stage, StageView, State, Upward, UpwardAction, UpwardActionView, UpwardEvent, UpwardEventView,
    UpwardStep,
};
use crate::error::{StreamError, StreamErrorView};
use crate::fee::{FeeJob, FeeLane};
use crate::outside;
use crate::protocol::{
    Client, ClientView, ClientWithWorkerName, JobForm, Server, ServerId1, ServerJobsWithHeight,
    ServerRpc, ServerSideJob,
};
use crate::protocol;
use crate::server_to_client::{
    DownwardAction, DownwardActionView, DownwardEvent, DownwardEventView,
};
use crate::session::{
    Action, ActionView, Event, EventView, PoolMessageView, Session,
};
use crate::session;
use crate::worker::Worker;
use vstd::prelude::*;

verus! {

/// A list of strings is seen as their texts, one by one.
pub proof fn law_lists_are_seen_as_their_texts(list: Seq<String>)
    ensures
        protocol::texts(list).len() == list.len(),
        forall|i: int| 0 <= i < list.len() ==> #[trigger] protocol::texts(list)[i] == list[i]@,
{
}

/// A request is seen with its identifier, method, parameters and machine.
pub proof fn law_requests_are_seen_whole(named: ClientWithWorkerName, plain: Client)
    ensures
        named@ == (ClientView {
            id: named.id,
            method: named.method@,
            params: named.params@.map_values(|text: String| text@),
            worker: named.worker@,
        }),
        plain@ == (ClientView {
            id: plain.id,
            method: plain.method@,
            params: plain.params@.map_values(|text: String| text@),
            worker: plain.worker@,
        }),
{
}

/// An answer is seen with its identifier, its version if it has one, and its
/// verdict.
pub proof fn law_answers_are_seen_whole(answer: ServerId1)
    ensures
        answer@.id == answer.id,
        answer@.result == answer.result,
        answer.jsonrpc is None <==> answer@.jsonrpc is None,
        answer.jsonrpc matches Some(version) ==> answer@.jsonrpc == Some(version@),
{
}

/// A job is seen with its identifier, its result and whatever its form adds.
pub proof fn law_jobs_are_seen_whole(
    plain: Server,
    side: ServerSideJob,
    with_height: ServerJobsWithHeight,
)
    ensures
        plain.job().id == plain.id,
        plain.job().result == plain.result@.map_values(|text: String| text@),
        plain.job().form == JobForm::Plain,
        side.job().id == side.id,
        side.job().result == side.result@.map_values(|text: String| text@),
        side.job().form == (JobForm::Side { jsonrpc: side.jsonrpc@ }),
        with_height.job().id == with_height.id,
        with_height.job().result == with_height.result@.map_values(|text: String| text@),
        with_height.job().form == (JobForm::WithHeight {
            jsonrpc: with_height.jsonrpc@,
            height: with_height.height,
        }),
{
}

/// A line of the machine counts as a named request if it reads as one, else as
/// a plain one if it reads as that.
pub proof fn law_named_requests_come_first(event: Event)
    requires
        event is WorkerLine,
    ensures
        event matches Event::WorkerLine { named, plain } && if named is Some {
            event@ == (EventView::NamedRequest { rpc: named->0@ })
        } else if plain is Some {
            event@ == (EventView::PlainRequest { rpc: plain->0@ })
        } else {
            event@ == EventView::UnreadRequest
        },
{
}

/// A line of the pool counts as an answer if it reads as one, else as a job
/// with a height, else as one with a version, else as a plain one, and else as
/// none of these; it keeps its text and the fees that are due on it.
pub proof fn law_answers_come_first(event: Event)
    requires
        event is PoolLine,
    ensures
        ({
            &&& event matches Event::PoolLine { line, answer, with_height, side, plain, due }
            &&& event@ matches EventView::PoolLine { line: text, message, due: fees }
            &&& text == line@
            &&& fees == due
            &&& if answer is Some {
                message == (PoolMessageView::Answer { rpc: answer->0@ })
            } else if with_height is Some {
                message == (PoolMessageView::Job { job: with_height->0.job() })
            } else if side is Some {
                message == (PoolMessageView::Job { job: side->0.job() })
            } else if plain is Some {
                message == (PoolMessageView::Job { job: plain->0.job() })
            } else {
                message is Unknown
            }
        }),
{
}

/// Every other event of a session is seen as it is.
pub proof fn law_other_events_are_seen_whole(event: Event)
    requires
        !(event is WorkerLine),
        !(event is PoolLine),
    ensures
        match event {
            Event::WorkerTimedOut { reason } => event@ == (EventView::WorkerTimedOut {
                reason: reason@,
            }),
            Event::PoolUnreadable { reason } => event@ == (EventView::PoolUnreadable {
                reason: reason@,
            }),
            Event::OwnJob { taker, thread_id, diff, rpc: Ok(job) } => event@ == (
            EventView::OwnJob { taker, thread_id, diff: diff@, rpc: Ok(job.job()) }),
            Event::OwnJob { taker, thread_id, diff, rpc: Err(reason) } => event@ == (
            EventView::OwnJob { taker, thread_id, diff: diff@, rpc: Err(reason@) }),
            Event::PoolGone => event@ is PoolGone,
            _ => event is WorkerGone && event@ is WorkerGone,
        },
{
}

/// What a session asks for is seen as it is, in its order; each form of a job
/// is seen as a job of that form.
pub proof fn law_actions_are_seen_whole(actions: Seq<Action>, i: int)
    requires
        0 <= i < actions.len(),
    ensures
        session::action_views(actions).len() == actions.len(),
        session::action_views(actions)[i] == actions[i]@,
        match actions[i] {
            Action::NamedToPool { rpc, tolerant } => actions[i]@ == (ActionView::NamedToPool {
                rpc: rpc@,
                tolerant,
            }),
            Action::PlainToPool { rpc } => actions[i]@ == (ActionView::PlainToPool { rpc: rpc@ }),
            Action::AnswerToWorker { rpc } => actions[i]@ == (ActionView::AnswerToWorker {
                rpc: rpc@,
            }),
            Action::HeightJobToWorker { rpc } => actions[i]@ == (ActionView::JobToWorker {
                job: rpc.job(),
            }),
            Action::SideJobToWorker { rpc } => actions[i]@ == (ActionView::JobToWorker {
                job: rpc.job(),
            }),
            Action::PlainJobToWorker { rpc } => actions[i]@ == (ActionView::JobToWorker {
                job: rpc.job(),
            }),
            Action::TextToWorker { text } => actions[i]@ == (ActionView::TextToWorker {
                text: text@,
            }),
            Action::Fee { taker, thread_id, rpc } => actions[i]@ == (ActionView::Fee {
                taker,
                thread_id,
                rpc: rpc@,
            }),
            Action::ReportError { worker_name, line } => actions[i]@ == (ActionView::ReportError {
                worker_name: worker_name@,
                line: line@,
            }),
            Action::ShutdownPool => actions[i]@ is ShutdownPool,
            Action::ShutdownWorker => actions[i]@ is ShutdownWorker,
            Action::Close { error } => actions[i]@ == (ActionView::Close { error: error@ }),
        },
{
}

/// The end of a session is seen with its cause and with what it says of it.
pub proof fn law_errors_are_seen_whole(error: StreamError)
    ensures
        match error {
            StreamError::LoginWithoutWallet => error@ is LoginWithoutWallet,
            StreamError::Offline { worker_name } => error@ == (StreamErrorView::Offline {
                worker_name: worker_name@,
            }),
            StreamError::TimedOut { reason } => error@ == (StreamErrorView::TimedOut {
                reason: reason@,
            }),
            StreamError::PoolUnreadable { reason } => error@ == (StreamErrorView::PoolUnreadable {
                reason: reason@,
            }),
            StreamError::Disconnected { worker } => error@ == (StreamErrorView::Disconnected {
                worker: worker@,
            }),
            StreamError::WriteFailed { reason } => error@ == (StreamErrorView::WriteFailed {
                reason: reason@,
            }),
            StreamError::BadJob { reason } => error@ == (StreamErrorView::BadJob {
                reason: reason@,
            }),
            StreamError::ShutdownFailed => error@ is ShutdownFailed,
        },
{
}

/// A machine is seen with its names and its counts.
pub proof fn law_workers_are_seen_whole(worker: Worker)
    ensures
        worker@.worker == worker.worker@,
        worker@.worker_name == worker.worker_name@,
        worker@.worker_wallet == worker.worker_wallet@,
        worker@.online == worker.online,
        worker@.share_index == worker.share_index,
        worker@.accept_index == worker.accept_index,
        worker@.invalid_index == worker.invalid_index,
{
}

/// A lane is seen with the jobs that wait, in their order, and with its notes.
pub proof fn law_lanes_are_seen_whole(lane: FeeLane, job: FeeJob)
    ensures
        lane@.unsent.len() == lane.unsent@.len(),
        forall|i: int|
            0 <= i < lane.unsent@.len() ==> #[trigger] lane@.unsent[i] == lane.unsent@[i]@,
        lane@.sent == lane.sent@,
        job@.thread_id == job.thread_id,
        job@.job_id == job.job_id@,
        job@.rpc == job.rpc.job(),
{
}

/// A session is seen with all that it keeps.
pub proof fn law_sessions_are_seen_whole(s: Session)
    ensures
        s@.worker_name == s.worker_name@,
        s@.pool_job_idx == s.pool_job_idx,
        s@.job_diff == s.job_diff@,
        s@.worker == s.worker@,
        s@.rpc_id == s.rpc_id,
        s@.mine == s.mine@,
        s@.develop == s.develop@,
        s@.client_timeout_sec == s.client_timeout_sec,
{
}

/// What all relays share is seen whole: the count, the jobs that are noted and
/// no others, and each machine's hashrate.
pub proof fn law_shared_state_is_seen_whole(state: State, name: Seq<char>)
    ensures
        state@.proxy_share == state.proxy_share,
        state@.mine_jobs.contains(name) <==> state.mine_jobs@.contains_key(name),
        state@.report_hashrate.contains_key(name) <==> state.report_hashrate@.contains_key(name),
        state.report_hashrate@.contains_key(name) ==> state@.report_hashrate[name]
            == state.report_hashrate@[name]@,
{
}

/// An upward relay, what it is told and what it asks for are seen as they are.
pub proof fn law_upward_relays_are_seen_whole(
    relay: Upward,
    event: UpwardEvent,
    step: UpwardStep,
)
    ensures
        relay@.worker == relay.worker@,
        match relay.stage {
            Stage::Reading => relay@.stage is Reading,
            Stage::OfferedDevelop { rpc, data } => relay@.stage == (StageView::OfferedDevelop {
                rpc: rpc@,
                data: data@,
            }),
            Stage::OfferedProxy { rpc, data } => relay@.stage == (StageView::OfferedProxy {
                rpc: rpc@,
                data: data@,
            }),
            Stage::Forwarding => relay@.stage is Forwarding,
            Stage::Closed => relay@.stage is Closed,
        },
        match event {
            UpwardEvent::Received { data, client: Some(rpc), get_work } => event@ == (
            UpwardEventView::Received { data: data@, client: Some(rpc@), get_work }),
            UpwardEvent::Received { data, client: None, get_work } => event@ == (
            UpwardEventView::Received { data: data@, client: None, get_work }),
            UpwardEvent::Offered { taken } => event@ == (UpwardEventView::Offered { taken }),
            UpwardEvent::Forwarded { written } => event@ == (UpwardEventView::Forwarded { written }),
        },
        step.claimed is None <==> step@.claimed is None,
        step.claimed matches Some(rpc) ==> step@.claimed == Some(rpc@),
        match step.action {
            UpwardAction::Read => step@.action is Read,
            UpwardAction::OfferDevelop { rpc } => step@.action == (UpwardActionView::OfferDevelop {
                rpc: rpc@,
            }),
            UpwardAction::OfferProxy { rpc } => step@.action == (UpwardActionView::OfferProxy {
                rpc: rpc@,
            }),
            UpwardAction::Accept { reply } => step@.action == (UpwardActionView::Accept {
                reply: reply@,
            }),
            UpwardAction::Forward { data } => step@.action == (UpwardActionView::Forward {
                data: data@,
            }),
            UpwardAction::Shutdown => step@.action is Shutdown,
        },
{
}

/// What a downward relay is told and what it asks for are seen as they are.
pub proof fn law_downward_relays_are_seen_whole(event: DownwardEvent, action: DownwardAction)
    ensures
        match event {
            DownwardEvent::Received { data, answer: Some(rpc), is_job } => event@ == (
            DownwardEventView::Received { data: data@, answer: Some(rpc@), is_job }),
            DownwardEvent::Received { data, answer: None, is_job } => event@ == (
            DownwardEventView::Received { data: data@, answer: None, is_job }),
            DownwardEvent::Reply { message } => event@ == (DownwardEventView::Reply {
                message: message@,
            }),
            DownwardEvent::Job { job } => event@ == (DownwardEventView::Job { job: job@ }),
            DownwardEvent::Written { written } => event@ == (DownwardEventView::Written { written }),
        },
        match action {
            DownwardAction::Wait => action@ is Wait,
            DownwardAction::Forward { data } => action@ == (DownwardActionView::Forward {
                data: data@,
            }),
            DownwardAction::Send { line } => action@ == (DownwardActionView::Send {
                line: outside::buffer_bytes(line),
            }),
            DownwardAction::Shutdown => action@ is Shutdown,
        },
{
}

} // verus!
