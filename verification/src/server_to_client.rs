//! The downward half of a relay: what the pool and the proxy send, on its way
//! to the machine.

use crate::framing;
use crate::outside;
use crate::protocol::{ServerId1, ServerId1View};
use bytes::BytesMut;
use vstd::prelude::*;

verus! {

/// The identifier under which the pool answers a hashrate report.
pub const HASHRATE_ANSWER_ID: u64 = 6;

/// Where a relay stands.
#[derive(Clone, Copy, Debug, PartialEq, Eq, Structural)]
pub enum DownwardStage {
    /// It waits for the pool, for an answer of the proxy or for a job.
    Waiting,
    /// It has written to the machine.
    Writing,
    /// It is over.
    Closed,
}

/// The downward half of a relay.
#[derive(Clone, Copy, Debug, PartialEq, Eq, Structural)]
pub struct Downward {
    /// Whether the pool has answered the machine's login.
    pub is_login: bool,
    pub stage: DownwardStage,
}

impl Downward {
    /// A relay whose machine has not logged in.
    pub fn new() -> (r: Downward)
        ensures
            r == (Downward { is_login: false, stage: DownwardStage::Waiting }),
    {
        Downward { is_login: false, stage: DownwardStage::Waiting }
    }
}

/// What a relay can be told.
pub enum DownwardEvent {
    /// The pool was read; `answer` is there if the bytes read as an answer,
    /// and `is_job` holds if they read as a job.
    Received { data: Vec<u8>, answer: Option<ServerId1>, is_job: bool },
    /// The proxy answers the machine itself, with this message.
    Reply { message: Vec<u8> },
    /// The proxy has a job for the machine.
    Job { job: String },
    /// The machine took so many of the bytes that were written.
    Written { written: usize },
}

/// What a relay can be told, as contracts see it.
pub enum DownwardEventView {
    Received { data: Seq<u8>, answer: Option<ServerId1View>, is_job: bool },
    Reply { message: Seq<u8> },
    Job { job: Seq<char> },
    Written { written: usize },
}

impl View for DownwardEvent {
    type V = DownwardEventView;

    open spec fn view(&self) -> DownwardEventView {
        match self {
            DownwardEvent::Received { data, answer, is_job } => DownwardEventView::Received {
                data: data@,
                answer: match answer {
                    Some(rpc) => Some(rpc@),
                    None => None,
                },
                is_job: *is_job,
            },
            DownwardEvent::Reply { message } => DownwardEventView::Reply { message: message@ },
            DownwardEvent::Job { job } => DownwardEventView::Job { job: job@ },
            DownwardEvent::Written { written } => DownwardEventView::Written { written: *written },
        }
    }
}

/// What a relay asks for.
#[derive(Debug, PartialEq, Eq)]
pub enum DownwardAction {
    /// Wait for the next event.
    Wait,
    /// Write these bytes to the machine, and tell how many were taken.
    Forward { data: Vec<u8> },
    /// Write this line to the machine, and tell how many bytes were taken.
    Send { line: BytesMut },
    /// Close the connection to the machine, and end.
    Shutdown,
}

/// What a relay asks for, as contracts see it.
pub enum DownwardActionView {
    Wait,
    Forward { data: Seq<u8> },
    Send { line: Seq<u8> },
    Shutdown,
}

impl View for DownwardAction {
    type V = DownwardActionView;

    open spec fn view(&self) -> DownwardActionView {
        match self {
            DownwardAction::Wait => DownwardActionView::Wait,
            DownwardAction::Forward { data } => DownwardActionView::Forward { data: data@ },
            DownwardAction::Send { line } => DownwardActionView::Send {
                line: outside::buffer_bytes(*line),
            },
            DownwardAction::Shutdown => DownwardActionView::Shutdown,
        }
    }
}

/// What a read of the pool turned out to be.
#[derive(Clone, Copy, Debug, PartialEq, Eq, Structural)]
pub enum Notice {
    /// The pool let the machine in.
    LoginAccepted,
    /// The pool said something else than that it let the machine in.
    LoginRefused,
    /// The pool took a hashrate report.
    HashrateAccepted,
    /// The pool took a share.
    ShareAccepted,
    /// The pool sent a job.
    Job,
    /// The pool sent something else.
    Unknown,
}

/// What a relay asks for, and what it makes of what it was told.
#[derive(Debug, PartialEq, Eq)]
pub struct DownwardStep {
    pub notice: Option<Notice>,
    pub action: DownwardAction,
}

/// What a read of the pool turns out to be.
pub open spec fn notice_of(is_login: bool, answer: Option<ServerId1View>, job: bool) -> Notice {
    match answer {
        Some(rpc) => if !is_login {
            Notice::LoginAccepted
        } else if rpc.id == HASHRATE_ANSWER_ID {
            Notice::HashrateAccepted
        } else {
            Notice::ShareAccepted
        },
        None => if !is_login {
            Notice::LoginRefused
        } else if job {
            Notice::Job
        } else {
            Notice::Unknown
        },
    }
}

/// A relay after an event, what it makes of it and what it then asks for. The
/// pool's bytes go to the machine as they were read, unless they were meant to
/// answer its login and do not; that ends the relay. What the proxy has to say
/// goes out as a line. A write of which nothing is taken ends the relay.
pub open spec fn downward_step(relay: Downward, event: DownwardEventView) -> (
    Downward,
    Option<Notice>,
    DownwardActionView,
) {
    let closed = Downward { stage: DownwardStage::Closed, ..relay };
    let writing = Downward { stage: DownwardStage::Writing, ..relay };
    match event {
        DownwardEventView::Received { data, answer, is_job } => if data.len() == 0 {
            (closed, None, DownwardActionView::Shutdown)
        } else {
            let notice = notice_of(relay.is_login, answer, is_job);
            if notice is LoginRefused {
                (closed, Some(notice), DownwardActionView::Shutdown)
            } else {
                (
                    Downward { is_login: true, ..writing },
                    Some(notice),
                    DownwardActionView::Forward { data },
                )
            }
        },
        DownwardEventView::Reply { message } => (
            writing,
            None,
            DownwardActionView::Send { line: framing::line_of(message) },
        ),
        DownwardEventView::Job { job } => (
            writing,
            None,
            DownwardActionView::Send { line: framing::line_of(outside::json_string(job)) },
        ),
        DownwardEventView::Written { written } => if written == 0 {
            (closed, None, DownwardActionView::Shutdown)
        } else {
            (
                Downward { stage: DownwardStage::Waiting, ..relay },
                None,
                DownwardActionView::Wait,
            )
        },
    }
}

/// Whether an event is one that the relay waits for where it stands.
pub open spec fn awaits(stage: DownwardStage, event: DownwardEventView) -> bool {
    match event {
        DownwardEventView::Written { .. } => stage is Writing,
        _ => stage is Waiting,
    }
}

/// Whether what is to be sent fits into memory as a line.
pub open spec fn fits(event: DownwardEventView) -> bool {
    match event {
        DownwardEventView::Reply { message } => 2 * (message.len() + 1) <= isize::MAX,
        DownwardEventView::Job { job } => 2 * (outside::json_string(job).len() + 1) <= isize::MAX,
        _ => true,
    }
}

/// Tells what a read of the pool turned out to be (see [`notice_of`]).
fn take_notice(is_login: bool, answer: &Option<ServerId1>, job: bool) -> (r: Notice)
    ensures
        r == notice_of(
            is_login,
            match answer {
                Some(rpc) => Some(rpc@),
                None => None,
            },
            job,
        ),
{
    match answer {
        Some(rpc) => {
            if !is_login {
                Notice::LoginAccepted
            } else if rpc.id == HASHRATE_ANSWER_ID {
                Notice::HashrateAccepted
            } else {
                Notice::ShareAccepted
            }
        },
        None => {
            if !is_login {
                Notice::LoginRefused
            } else if job {
                Notice::Job
            } else {
                Notice::Unknown
            }
        },
    }
}

/// Takes a relay through one event.
pub fn server_to_client(relay: &mut Downward, event: DownwardEvent) -> (r: DownwardStep)
    requires
        awaits(old(relay).stage, event@),
        fits(event@),
    ensures
        (*final(relay), r.notice, r.action@) == downward_step(*old(relay), event@),
{
    let mut notice: Option<Notice> = None;
    let action = match event {
        DownwardEvent::Received { data, answer, is_job } => {
            if data.len() == 0 {
                relay.stage = DownwardStage::Closed;
                DownwardAction::Shutdown
            } else {
                let seen = take_notice(relay.is_login, &answer, is_job);
                notice = Some(seen);
                if seen == Notice::LoginRefused {
                    relay.stage = DownwardStage::Closed;
                    DownwardAction::Shutdown
                } else {
                    relay.is_login = true;
                    relay.stage = DownwardStage::Writing;
                    DownwardAction::Forward { data }
                }
            }
        },
        DownwardEvent::Reply { message } => {
            relay.stage = DownwardStage::Writing;
            DownwardAction::Send { line: framing::frame_buffer(message.as_slice()) }
        },
        DownwardEvent::Job { job } => {
            relay.stage = DownwardStage::Writing;
            DownwardAction::Send { line: framing::frame_json(&job) }
        },
        DownwardEvent::Written { written } => {
            if written == 0 {
                relay.stage = DownwardStage::Closed;
                DownwardAction::Shutdown
            } else {
                relay.stage = DownwardStage::Waiting;
                DownwardAction::Wait
            }
        },
    };
    DownwardStep { notice, action }
}

} // verus!
