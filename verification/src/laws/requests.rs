//! What becomes of each request of a machine.

use crate::error::StreamErrorView;
use crate::handle_stream;
use crate::protocol::{ClientView, ServerId1View};
use crate::protocol;
use crate::session::{
    ActionView, EventView, FeeDue, PoolMessageView, SessionView, Settings, Taker,
};
use crate::worker::WorkerView;
use vstd::prelude::*;

verus! {

/// A login that names a wallet, whatever else it holds, goes to the pool under
/// the identifier of a login and is otherwise sent as it came; it has to get
/// there. The machine is known from then on by its wallet, a dot and its name,
/// and nothing else of the session changes.
pub proof fn law_logins_go_to_the_pool(s: SessionView, settings: Settings, rpc: ClientView)
    requires
        rpc.method == "eth_submitLogin"@,
        rpc.params.len() > 0,
    ensures
        ({
            let (after, actions) = handle_stream::step(
                s,
                settings,
                EventView::NamedRequest { rpc },
            );
            let name = rpc.params[0] + seq!['.'] + rpc.worker;
            &&& actions.len() == 1
            &&& actions[0] == (ActionView::NamedToPool {
                rpc: ClientView {
                    id: settings.ids.login,
                    method: rpc.method,
                    params: rpc.params,
                    worker: rpc.worker,
                },
                tolerant: false,
            })
            &&& after == (SessionView {
                rpc_id: rpc.id,
                worker_name: name,
                worker: WorkerView {
                    worker: name,
                    worker_name: rpc.worker,
                    worker_wallet: rpc.params[0],
                    ..s.worker
                },
                ..s
            })
        }),
{
    reveal_strlit(".");
    assert("."@ =~= seq!['.']);
}

/// A login that names no wallet ends the session; nothing goes to the pool, and
/// the machine is known no better than before.
pub proof fn law_logins_need_a_wallet(s: SessionView, settings: Settings, rpc: ClientView)
    requires
        rpc.method == "eth_submitLogin"@,
        rpc.params.len() == 0,
    ensures
        ({
            let (after, actions) = handle_stream::step(
                s,
                settings,
                EventView::NamedRequest { rpc },
            );
            &&& actions.len() == 1
            &&& actions[0] == (ActionView::Close { error: StreamErrorView::LoginWithoutWallet })
            &&& after == (SessionView { rpc_id: rpc.id, ..s })
        }),
{
}

/// The answer that the pool gives to a login, under the identifier that the
/// login was sent with, makes the machine count as logged in, gives it a minute
/// to speak up and reaches it under the identifier of its own request.
pub proof fn law_logins_are_answered(
    s: SessionView,
    settings: Settings,
    rpc: ClientView,
    line: Seq<char>,
    answer: ServerId1View,
    due: FeeDue,
)
    requires
        rpc.method == "eth_submitLogin"@,
        rpc.params.len() > 0,
        s.client_timeout_sec == 1 || s.client_timeout_sec == 60,
        ({
            let sent = handle_stream::step(s, settings, EventView::NamedRequest { rpc }).1;
            sent[0] matches ActionView::NamedToPool { rpc: asked, .. } && asked.id == answer.id
        }),
    ensures
        ({
            let asked = handle_stream::step(s, settings, EventView::NamedRequest { rpc }).0;
            let (after, actions) = handle_stream::step(
                asked,
                settings,
                EventView::PoolLine { line, message: PoolMessageView::Answer { rpc: answer }, due },
            );
            &&& after.worker.online
            &&& after.client_timeout_sec == 60
            &&& after.worker.accept_index == s.worker.accept_index
            &&& after.worker.invalid_index == s.worker.invalid_index
            &&& actions.len() == 1
            &&& actions[0] == (ActionView::AnswerToWorker {
                rpc: ServerId1View { id: rpc.id, jsonrpc: None, result: answer.result },
            })
        }),
{
}

/// A share that goes to the pool and that the pool answers under the number
/// that it was sent with counts as accepted, once, and the machine hears of it
/// under the identifier of its own request.
///
/// A number that is also one of the proxy's own identifiers is left out: the
/// answer is then taken for the answer to that request.
pub proof fn law_shares_are_answered(
    s: SessionView,
    settings: Settings,
    rpc: ClientView,
    line: Seq<char>,
    answer: ServerId1View,
    due: FeeDue,
)
    requires
        rpc.method == "eth_submitWork"@,
        s.worker.share_index < u64::MAX,
        s.worker.accept_index < u64::MAX,
        answer.id != settings.ids.login,
        answer.id != settings.ids.submit_hashrate,
        answer.id != settings.ids.get_work,
        ({
            let sent = handle_stream::step(s, settings, EventView::NamedRequest { rpc }).1;
            sent[0] matches ActionView::NamedToPool { rpc: asked, .. } && asked.id == answer.id
        }),
    ensures
        ({
            let asked = handle_stream::step(s, settings, EventView::NamedRequest { rpc }).0;
            let (after, actions) = handle_stream::step(
                asked,
                settings,
                EventView::PoolLine { line, message: PoolMessageView::Answer { rpc: answer }, due },
            );
            &&& after.worker.accept_index == s.worker.accept_index + 1
            &&& after.worker.invalid_index == s.worker.invalid_index
            &&& actions.len() == 1
            &&& actions[0] == (ActionView::AnswerToWorker {
                rpc: ServerId1View { id: rpc.id, jsonrpc: None, result: answer.result },
            })
        }),
{
    protocol::lemma_methods_differ();
}

/// A share goes by the job that it names, its second parameter. If the proxy
/// has noted the job, the share goes to the proxy's connection of that note; if
/// not and the developer has, to the developer's; and else to the pool, under
/// the number of the machine's shares so far. Whichever taker gets it, gets it
/// as it came and gives up its note. The number grows by one each time, and
/// nothing else of the session changes.
pub proof fn law_shares_go_by_their_job(s: SessionView, settings: Settings, rpc: ClientView)
    requires
        rpc.method == "eth_submitWork"@,
        s.worker.share_index < u64::MAX,
    ensures
        ({
            let (after, actions) = handle_stream::step(
                s,
                settings,
                EventView::NamedRequest { rpc },
            );
            let number = after.worker.share_index;
            let for_proxy = rpc.params.len() > 1 && s.mine.sent.contains_key(rpc.params[1]);
            let for_developer = !for_proxy && rpc.params.len() > 1 && s.develop.sent.contains_key(
                rpc.params[1],
            );
            &&& number == s.worker.share_index + 1
            &&& for_proxy ==> {
                &&& actions.len() == 2
                &&& actions[0] == (ActionView::Fee {
                    taker: Taker::Proxy,
                    thread_id: s.mine.sent[rpc.params[1]],
                    rpc,
                })
                &&& after.mine.sent == s.mine.sent.remove(rpc.params[1])
                &&& after.develop == s.develop
            }
            &&& for_developer ==> {
                &&& actions.len() == 2
                &&& actions[0] == (ActionView::Fee {
                    taker: Taker::Developer,
                    thread_id: s.develop.sent[rpc.params[1]],
                    rpc,
                })
                &&& after.mine == s.mine
                &&& after.develop.sent == s.develop.sent.remove(rpc.params[1])
            }
            &&& !for_proxy && !for_developer ==> {
                &&& actions.len() == 1
                &&& actions[0] == (ActionView::NamedToPool {
                    rpc: ClientView {
                        id: number,
                        method: rpc.method,
                        params: rpc.params,
                        worker: rpc.worker,
                    },
                    tolerant: true,
                })
                &&& after.mine == s.mine
                &&& after.develop == s.develop
            }
            &&& after.mine.unsent == s.mine.unsent
            &&& after.develop.unsent == s.develop.unsent
            &&& after == (SessionView {
                rpc_id: rpc.id,
                worker: WorkerView { share_index: number, ..s.worker },
                mine: after.mine,
                develop: after.develop,
                ..s
            })
        }),
{
    protocol::lemma_methods_differ();
}

/// Whoever takes a share as a fee, the machine is told at once that its share
/// was accepted: yes, under the share's own identifier, and nothing more.
pub proof fn law_kept_shares_are_accepted(s: SessionView, settings: Settings, event: EventView)
    ensures
        ({
            let actions = handle_stream::step(s, settings, event).1;
            forall|i: int|
                0 <= i < actions.len() && (#[trigger] actions[i]) is Fee ==> {
                    &&& i == 0
                    &&& actions.len() == 2
                    &&& event matches EventView::NamedRequest { rpc }
                    &&& rpc.method == "eth_submitWork"@
                    &&& actions[1] matches ActionView::AnswerToWorker { rpc: answer }
                    &&& answer.id == rpc.id
                    &&& answer.jsonrpc is None
                    &&& answer.result
                }
        }),
{
    protocol::lemma_methods_differ();
}

/// A hashrate report goes to the pool under the identifier of such reports and
/// is otherwise sent as it came; it has to get there. Nothing of the session
/// changes but the identifier that the machine asked under.
pub proof fn law_hashrates_go_to_the_pool(s: SessionView, settings: Settings, rpc: ClientView)
    requires
        rpc.method == "eth_submitHashrate"@,
    ensures
        ({
            let (after, actions) = handle_stream::step(
                s,
                settings,
                EventView::NamedRequest { rpc },
            );
            &&& actions.len() == 1
            &&& actions[0] == (ActionView::NamedToPool {
                rpc: ClientView {
                    id: settings.ids.submit_hashrate,
                    method: rpc.method,
                    params: rpc.params,
                    worker: rpc.worker,
                },
                tolerant: false,
            })
            &&& after == (SessionView { rpc_id: rpc.id, ..s })
        }),
{
    protocol::lemma_methods_differ();
}

/// A plain request for work goes to the pool under the identifier of such
/// requests and is otherwise sent as it came. Nothing of the session changes
/// but the identifier that the machine asked under.
pub proof fn law_requests_for_work_go_to_the_pool(
    s: SessionView,
    settings: Settings,
    rpc: ClientView,
)
    requires
        rpc.method == "eth_getWork"@,
    ensures
        ({
            let (after, actions) = handle_stream::step(
                s,
                settings,
                EventView::PlainRequest { rpc },
            );
            &&& actions.len() == 1
            &&& actions[0] == (ActionView::PlainToPool {
                rpc: ClientView {
                    id: settings.ids.get_work,
                    method: rpc.method,
                    params: rpc.params,
                    worker: rpc.worker,
                },
            })
            &&& after == (SessionView { rpc_id: rpc.id, ..s })
        }),
{
}

/// A request by any other method asks for nothing and leaves only the
/// identifier that the machine asked under; a line that is no request leaves
/// nothing at all.
pub proof fn law_other_requests_do_nothing(s: SessionView, settings: Settings, rpc: ClientView)
    ensures
        rpc.method != "eth_submitLogin"@ && rpc.method != "eth_submitWork"@ && rpc.method
            != "eth_submitHashrate"@ ==> ({
            let (after, actions) = handle_stream::step(
                s,
                settings,
                EventView::NamedRequest { rpc },
            );
            actions.len() == 0 && after == (SessionView { rpc_id: rpc.id, ..s })
        }),
        rpc.method != "eth_getWork"@ ==> ({
            let (after, actions) = handle_stream::step(
                s,
                settings,
                EventView::PlainRequest { rpc },
            );
            actions.len() == 0 && after == (SessionView { rpc_id: rpc.id, ..s })
        }),
        ({
            let (after, actions) = handle_stream::step(s, settings, EventView::UnreadRequest);
            actions.len() == 0 && after == s
        }),
{
}

} // verus!
