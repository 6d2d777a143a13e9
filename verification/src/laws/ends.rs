//! How sessions come to start, and what is said when they end.

use crate::error::{StreamError, StreamErrorView};
use crate::error;
use crate::framing::WriteOutcome;
use crate::framing;
use crate::pool::PoolSearch;
use crate::pool;
use vstd::prelude::*;

verus! {

/// A connection that could not be closed is an error, and one that could is
/// none.
pub proof fn law_closing_is_judged(succeeded: bool, r: Result<(), StreamError>)
    requires
        call_ensures(framing::shutdown, (succeeded,), r),
    ensures
        succeeded ==> r is Ok,
        !succeeded ==> (r matches Err(e) && e@ is ShutdownFailed),
{
}

/// What a reader is told of each end of a session.
pub proof fn law_ends_are_told(text: Seq<char>)
    ensures
        error::message_text(StreamErrorView::LoginWithoutWallet)
            == "请求登录出错。可能收到暴力攻击"@,
        error::message_text(StreamErrorView::Offline { worker_name: text }) == "矿机下线了 : "@
            + text,
        error::message_text(StreamErrorView::TimedOut { reason: text })
            == "读取超时了 矿机下线了: "@ + text,
        error::message_text(StreamErrorView::PoolUnreadable { reason: text })
            == "矿机下线了: "@ + text,
        error::message_text(StreamErrorView::Disconnected { worker: text }) == "✅ Worker: "@
            + text + " 服务器断开连接."@,
        error::message_text(StreamErrorView::WriteFailed { reason: text }) == text,
        error::message_text(StreamErrorView::BadJob { reason: text }) == text,
        error::message_text(StreamErrorView::ShutdownFailed) == "关闭Pool 链接失败"@,
{
}

/// A session starts if and only if a pool was reached; if none was, the notice
/// says which kind could not be.
pub proof fn law_sessions_need_a_pool(reached: bool, in_clear: PoolSearch, encrypted: PoolSearch)
    requires
        call_ensures(pool::handle_tcp_pool, (reached,), in_clear),
        call_ensures(pool::handle_tls_pool, (reached,), encrypted),
    ensures
        reached <==> in_clear is Reached,
        reached <==> encrypted is Reached,
        in_clear matches PoolSearch::NoneReached { notice } ==> notice@
            == "所有TCP矿池均不可链接。请修改后重试"@,
        encrypted matches PoolSearch::NoneReached { notice } ==> notice@
            == "所有SSL矿池均不可链接。请修改后重试"@,
{
}

/// The text of an error is that of its kind.
pub proof fn law_errors_tell_their_text(e: StreamError, text: String)
    requires
        call_ensures(StreamError::message, (&e,), text),
    ensures
        text@ == error::message_text(e@),
{
}

/// A write is judged by what came of it: something taken is no error, nothing
/// taken is one that names the machine, and a failure is one that says why.
pub proof fn law_writes_are_judged(outcome: WriteOutcome, worker: String, r: Result<(), StreamError>)
    requires
        call_ensures(framing::write_to_socket, (outcome, &worker), r),
    ensures
        match outcome {
            WriteOutcome::Written { len } => if len == 0 {
                r matches Err(e) && e@ == (StreamErrorView::Disconnected { worker: worker@ })
            } else {
                r is Ok
            },
            WriteOutcome::Failed { reason } => r matches Err(e) && e@ == (
            StreamErrorView::WriteFailed { reason: reason@ }),
        },
{
}

} // verus!
