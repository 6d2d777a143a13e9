//! Why a session ends.

use vstd::prelude::*;

verus! {

/// Why a session between a machine and its pool ended.
#[derive(Debug, PartialEq, Eq)]
pub enum StreamError {
    /// The machine asked to log in without naming a wallet.
    LoginWithoutWallet,
    /// One side hung up.
    Offline { worker_name: String },
    /// The machine kept silent for too long.
    TimedOut { reason: String },
    /// The pool could not be read.
    PoolUnreadable { reason: String },
    /// A write went nowhere: the other side is gone.
    Disconnected { worker: String },
    /// A write failed.
    WriteFailed { reason: String },
    /// A job of the proxy's own could not be read.
    BadJob { reason: String },
    /// The connection to the pool could not be closed.
    ShutdownFailed,
}

/// A session's end as contracts see it.
pub enum StreamErrorView {
    LoginWithoutWallet,
    Offline { worker_name: Seq<char> },
    TimedOut { reason: Seq<char> },
    PoolUnreadable { reason: Seq<char> },
    Disconnected { worker: Seq<char> },
    WriteFailed { reason: Seq<char> },
    BadJob { reason: Seq<char> },
    ShutdownFailed,
}

impl View for StreamError {
    type V = StreamErrorView;

    open spec fn view(&self) -> StreamErrorView {
        match self {
            StreamError::LoginWithoutWallet => StreamErrorView::LoginWithoutWallet,
            StreamError::Offline { worker_name } => StreamErrorView::Offline {
                worker_name: worker_name@,
            },
            StreamError::TimedOut { reason } => StreamErrorView::TimedOut { reason: reason@ },
            StreamError::PoolUnreadable { reason } => StreamErrorView::PoolUnreadable {
                reason: reason@,
            },
            StreamError::Disconnected { worker } => StreamErrorView::Disconnected {
                worker: worker@,
            },
            StreamError::WriteFailed { reason } => StreamErrorView::WriteFailed {
                reason: reason@,
            },
            StreamError::BadJob { reason } => StreamErrorView::BadJob { reason: reason@ },
            StreamError::ShutdownFailed => StreamErrorView::ShutdownFailed,
        }
    }
}

/// The text that tells a reader why the session ended.
pub open spec fn message_text(error: StreamErrorView) -> Seq<char> {
    match error {
        StreamErrorView::LoginWithoutWallet => "请求登录出错。可能收到暴力攻击"@,
        StreamErrorView::Offline { worker_name } => "矿机下线了 : "@ + worker_name,
        StreamErrorView::TimedOut { reason } => "读取超时了 矿机下线了: "@ + reason,
        StreamErrorView::PoolUnreadable { reason } => "矿机下线了: "@ + reason,
        StreamErrorView::Disconnected { worker } => "✅ Worker: "@ + worker
            + " 服务器断开连接."@,
        StreamErrorView::WriteFailed { reason } => reason,
        StreamErrorView::BadJob { reason } => reason,
        StreamErrorView::ShutdownFailed => "关闭Pool 链接失败"@,
    }
}

impl StreamError {
    /// The text that tells a reader why the session ended.
    pub fn message(&self) -> (r: String)
        ensures
            r@ == message_text(self@),
    {
        match self {
            StreamError::LoginWithoutWallet => "请求登录出错。可能收到暴力攻击".to_owned(),
            StreamError::Offline { worker_name } => "矿机下线了 : ".to_owned().concat(
                worker_name.as_str(),
            ),
            StreamError::TimedOut { reason } => "读取超时了 矿机下线了: ".to_owned().concat(
                reason.as_str(),
            ),
            StreamError::PoolUnreadable { reason } => "矿机下线了: ".to_owned().concat(
                reason.as_str(),
            ),
            StreamError::Disconnected { worker } => "✅ Worker: ".to_owned().concat(
                worker.as_str(),
            ).concat(" 服务器断开连接."),
            StreamError::WriteFailed { reason } => reason.clone(),
            StreamError::BadJob { reason } => reason.clone(),
            StreamError::ShutdownFailed => "关闭Pool 链接失败".to_owned(),
        }
    }
}

} // verus!
