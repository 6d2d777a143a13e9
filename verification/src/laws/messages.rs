//! What becomes of each message of the pool and of each job of the proxy's own.

use crate::error::StreamErrorView;
use crate::fee::FeeJobView;
use crate::framing::WriteOutcome;
use crate::handle_stream;
use crate::protocol::{JobView, ServerId1View};
use crate::session::{
    ActionView, EventView, FeeDue, PoolMessageView, SessionView, Settings, Taker,
};
use crate::session;
use crate::worker::WorkerView;
use vstd::prelude::*;

verus! {

/// A pool's answer goes by its identifier. Under that of a login it makes the
/// machine count as logged in and turns the first second of patience into a
/// minute; under that of a hashrate report or a request for work it changes
/// nothing; under the number of the machine's last share it is an acceptance;
/// and else it is a refusal, which is reported with the line that the pool
/// sent. The machine gets the verdict under the identifier of its own last
/// request, with nothing else.
pub proof fn law_answers_go_by_their_id(
    s: SessionView,
    settings: Settings,
    line: Seq<char>,
    answer: ServerId1View,
    due: FeeDue,
)
    requires
        handle_stream::can_take(
            s,
            settings,
            EventView::PoolLine { line, message: PoolMessageView::Answer { rpc: answer }, due },
        ),
    ensures
        ({
            let (after, actions) = handle_stream::step(
                s,
                settings,
                EventView::PoolLine { line, message: PoolMessageView::Answer { rpc: answer }, due },
            );
            let passed_on = ActionView::AnswerToWorker {
                rpc: ServerId1View { id: s.rpc_id, jsonrpc: None, result: answer.result },
            };
            let housekeeping = answer.id == settings.ids.submit_hashrate || answer.id
                == settings.ids.get_work;
            if answer.id == settings.ids.login {
                &&& actions.len() == 1 && actions[0] == passed_on
                &&& after == (SessionView {
                    client_timeout_sec: if s.client_timeout_sec == 1 {
                        60
                    } else {
                        s.client_timeout_sec
                    },
                    worker: WorkerView { online: true, ..s.worker },
                    ..s
                })
            } else if housekeeping {
                &&& actions.len() == 1 && actions[0] == passed_on
                &&& after == s
            } else if answer.id == s.worker.share_index {
                &&& actions.len() == 1 && actions[0] == passed_on
                &&& after.worker.accept_index == s.worker.accept_index + 1
                &&& after == (SessionView {
                    worker: WorkerView { accept_index: after.worker.accept_index, ..s.worker },
                    ..s
                })
            } else {
                &&& actions.len() == 2 && actions[1] == passed_on
                &&& actions[0] == (ActionView::ReportError { worker_name: s.worker_name, line })
                &&& after.worker.invalid_index == s.worker.invalid_index + 1
                &&& after == (SessionView {
                    worker: WorkerView { invalid_index: after.worker.invalid_index, ..s.worker },
                    ..s
                })
            }
        }),
{
}

/// A taker's jobs are touched only when its fee is due: where it is not, its
/// lane stays as it is. And where no fee is due that has a job waiting, the
/// machine gets the very work that the pool sent.
pub proof fn law_jobs_pass_where_no_fee_is_due(
    s: SessionView,
    settings: Settings,
    line: Seq<char>,
    job: JobView,
    due: FeeDue,
)
    ensures
        ({
            let (after, actions) = handle_stream::step(
                s,
                settings,
                EventView::PoolLine { line, message: PoolMessageView::Job { job }, due },
            );
            &&& !due.proxy ==> after.mine == s.mine
            &&& !due.developer ==> after.develop == s.develop
            &&& actions.len() == 1
            &&& actions[0] matches ActionView::JobToWorker { job: received }
            &&& (!due.proxy || s.mine.unsent.len() == 0) && (!due.developer
                || s.develop.unsent.len() == 0) ==> received.result == job.result
        }),
{
}

/// Where jobs carry fees, a taker whose fee is due and that has a job waiting
/// gives out its newest: that job waits no longer, and its connection is noted
/// under its name. The machine works on the developer's, if there is one, else
/// on the proxy's, else on the pool's. The job keeps its form, and its
/// identifier unless it is work that the machine asked for. It is counted, from
/// the largest number on to one; and nothing else of the session changes.
pub proof fn law_jobs_carry_the_fees_that_are_due(
    s: SessionView,
    settings: Settings,
    line: Seq<char>,
    job: JobView,
    due: FeeDue,
)
    ensures
        ({
            let (after, actions) = handle_stream::step(
                s,
                settings,
                EventView::PoolLine { line, message: PoolMessageView::Job { job }, due },
            );
            let from_proxy = settings.share != 0 && due.proxy && s.mine.unsent.len() > 0;
            let from_developer = settings.share != 0 && due.developer && s.develop.unsent.len()
                > 0;
            &&& actions.len() == 1
            &&& actions[0] matches ActionView::JobToWorker { job: received }
            &&& received.form == job.form
            &&& received.id == (if job.id == settings.ids.get_work {
                s.rpc_id
            } else {
                job.id
            })
            &&& from_developer ==> received.result == s.develop.unsent.last().rpc.result
            &&& from_proxy && !from_developer ==> received.result == s.mine.unsent.last().rpc.result
            &&& !from_proxy && !from_developer ==> received.result == job.result
            &&& if from_proxy {
                let given = s.mine.unsent.last();
                &&& after.mine.unsent == s.mine.unsent.drop_last()
                &&& after.mine.sent == s.mine.sent.insert(given.job_id, given.thread_id)
            } else {
                after.mine == s.mine
            }
            &&& if from_developer {
                let given = s.develop.unsent.last();
                &&& after.develop.unsent == s.develop.unsent.drop_last()
                &&& after.develop.sent == s.develop.sent.insert(given.job_id, given.thread_id)
            } else {
                after.develop == s.develop
            }
            &&& s.pool_job_idx < u64::MAX ==> after.pool_job_idx == s.pool_job_idx + 1
            &&& s.pool_job_idx == u64::MAX ==> after.pool_job_idx == 1
            &&& after == (SessionView {
                pool_job_idx: after.pool_job_idx,
                mine: after.mine,
                develop: after.develop,
                ..s
            })
        }),
{
}

/// A fee that is due or not makes no difference to whatever the pool sends
/// that is no job.
pub proof fn law_fees_concern_jobs_alone(
    s: SessionView,
    settings: Settings,
    line: Seq<char>,
    message: PoolMessageView,
    due: FeeDue,
    other_due: FeeDue,
)
    requires
        !(message is Job),
    ensures
        handle_stream::step(s, settings, EventView::PoolLine { line, message, due })
            == handle_stream::step(
            s,
            settings,
            EventView::PoolLine { line, message, due: other_due },
        ),
{
}

/// A job of the proxy's own waits behind the jobs of its taker, known by the
/// first entry of its result and by its connection. If its difficulty is not
/// that of the last such job, the older ones of its taker are dropped first.
/// One that cannot be read ends the session, for the reason that it could not;
/// the difficulty it came with counts all the same. Nothing is sent to anyone,
/// and nothing else of the session changes.
pub proof fn law_own_jobs_wait(
    s: SessionView,
    settings: Settings,
    taker: Taker,
    thread_id: u64,
    diff: Seq<char>,
    rpc: Result<JobView, Seq<char>>,
)
    ensures
        ({
            let (after, actions) = handle_stream::step(
                s,
                settings,
                EventView::OwnJob { taker, thread_id, diff, rpc },
            );
            let (lane, lane_after) = match taker {
                Taker::Proxy => (s.mine, after.mine),
                Taker::Developer => (s.develop, after.develop),
            };
            let kept = if diff == s.job_diff {
                lane.unsent
            } else {
                Seq::<FeeJobView>::empty()
            };
            &&& match rpc {
                Ok(job) => {
                    &&& actions.len() == 0
                    &&& lane_after.unsent.len() == kept.len() + 1
                    &&& lane_after.unsent.drop_last() == kept
                    &&& lane_after.unsent.last().thread_id == thread_id
                    &&& lane_after.unsent.last().job_id == job.result[0]
                    &&& lane_after.unsent.last().rpc == job
                },
                Err(reason) => {
                    &&& actions.len() == 1
                    &&& actions[0] == (ActionView::Close {
                        error: StreamErrorView::BadJob { reason },
                    })
                    &&& lane_after.unsent == kept
                },
            }
            &&& lane_after.sent == lane.sent
            &&& taker is Proxy ==> after.develop == s.develop
            &&& taker is Developer ==> after.mine == s.mine
            &&& after == (SessionView {
                job_diff: diff,
                mine: after.mine,
                develop: after.develop,
                ..s
            })
        }),
{
    let after = handle_stream::step(
        s,
        settings,
        EventView::OwnJob { taker, thread_id, diff, rpc },
    ).0;
    let (lane, lane_after) = match taker {
        Taker::Proxy => (s.mine, after.mine),
        Taker::Developer => (s.develop, after.develop),
    };
    if rpc is Ok {
        if diff == s.job_diff {
            assert(lane_after.unsent.drop_last() =~= lane.unsent);
        } else {
            assert(lane_after.unsent.drop_last() =~= Seq::<FeeJobView>::empty());
        }
    }
}

/// When one side is gone, the connection to the other is closed and the session
/// ends, with the machine's name or with the reason; a pool that cannot be read
/// ends it at once. The session is left as it was.
pub proof fn law_the_other_side_is_closed(s: SessionView, settings: Settings, reason: Seq<char>)
    ensures
        ({
            let offline = ActionView::Close {
                error: StreamErrorView::Offline { worker_name: s.worker_name },
            };
            let (a, machine_gone) = handle_stream::step(s, settings, EventView::WorkerGone);
            let (b, timed_out) = handle_stream::step(
                s,
                settings,
                EventView::WorkerTimedOut { reason },
            );
            let (c, pool_gone) = handle_stream::step(s, settings, EventView::PoolGone);
            let (d, unreadable) = handle_stream::step(
                s,
                settings,
                EventView::PoolUnreadable { reason },
            );
            &&& a == s && b == s && c == s && d == s
            &&& machine_gone.len() == 2
            &&& machine_gone[0] == ActionView::ShutdownPool
            &&& machine_gone[1] == offline
            &&& timed_out.len() == 2
            &&& timed_out[0] == ActionView::ShutdownPool
            &&& timed_out[1] == (ActionView::Close { error: StreamErrorView::TimedOut { reason } })
            &&& pool_gone.len() == 2
            &&& pool_gone[0] == ActionView::ShutdownWorker
            &&& pool_gone[1] == offline
            &&& unreadable.len() == 1
            &&& unreadable[0] == (ActionView::Close {
                error: StreamErrorView::PoolUnreadable { reason },
            })
        }),
{
}

/// A session starts with nobody logged in, no job counted, noted or waiting,
/// every count at zero, and a second of patience.
pub proof fn law_sessions_start_with_nothing()
    ensures
        ({
            let s = session::new_session();
            &&& s.worker_name.len() == 0
            &&& s.pool_job_idx == 0
            &&& s.job_diff.len() == 0
            &&& s.rpc_id == 0
            &&& s.client_timeout_sec == 1
            &&& s.mine.unsent.len() == 0
            &&& s.mine.sent == Map::<Seq<char>, u64>::empty()
            &&& s.develop.unsent.len() == 0
            &&& s.develop.sent == Map::<Seq<char>, u64>::empty()
            &&& s.worker.worker.len() == 0
            &&& s.worker.worker_name.len() == 0
            &&& s.worker.worker_wallet.len() == 0
            &&& !s.worker.online
            &&& s.worker.share_index == 0
            &&& s.worker.accept_index == 0
            &&& s.worker.invalid_index == 0
        }),
{
}

/// What a session cannot take is a share or an answer whose count is full, and
/// a job of the proxy's own without a result: everything else it can.
pub proof fn law_what_sessions_can_take(s: SessionView, settings: Settings, event: EventView)
    ensures
        handle_stream::can_take(s, settings, event) <==> match event {
            EventView::NamedRequest { rpc } => rpc.method != "eth_submitWork"@
                || s.worker.share_index != u64::MAX,
            EventView::PoolLine { message: PoolMessageView::Answer { rpc }, .. } => {
                let ids = settings.ids;
                ||| rpc.id == ids.login
                ||| rpc.id == ids.submit_hashrate
                ||| rpc.id == ids.get_work
                ||| rpc.id == s.worker.share_index && s.worker.accept_index != u64::MAX
                ||| rpc.id != s.worker.share_index && s.worker.invalid_index != u64::MAX
            },
            EventView::OwnJob { rpc: Ok(job), .. } => job.result.len() != 0,
            _ => true,
        },
{
}

/// A write that has to succeed ends the session with the machine's name if
/// nothing of it was taken, and with the reason if it failed; one that is
/// tolerated never does.
pub proof fn law_failed_writes_say_why(len: usize, reason: String, worker_name: Seq<char>)
    ensures
        ({
            let written = WriteOutcome::Written { len };
            let failed = WriteOutcome::Failed { reason };
            &&& handle_stream::end_after_write(false, written, worker_name) == (if len == 0 {
                Some(StreamErrorView::Disconnected { worker: worker_name })
            } else {
                None
            })
            &&& handle_stream::end_after_write(false, failed, worker_name) == Some(
                StreamErrorView::WriteFailed { reason: reason@ },
            )
            &&& handle_stream::end_after_write(true, written, worker_name) is None
            &&& handle_stream::end_after_write(true, failed, worker_name) is None
        }),
{
}

/// Requests to the pool that are not marked as tolerant have to succeed, and
/// nothing else does.
pub proof fn law_what_is_tolerated(action: ActionView)
    ensures
        !handle_stream::is_tolerated(action) <==> action is PlainToPool || (action matches
            ActionView::NamedToPool { tolerant, .. } && !tolerant),
{
}

} // verus!
