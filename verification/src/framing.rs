//! How messages become lines and lines become messages.
//!
//! Every message travels as one line that ends in a newline. What is read may
//! hold several lines, of which the empty ones are skipped.

use crate::error::{StreamError, StreamErrorView};
use crate::outside;
use bytes::BytesMut;
use vstd::prelude::*;
use vstd::string::*;

verus! {

/// The byte that ends a line.
pub const NEWLINE: u8 = 10;

/// The line that carries `message`.
pub open spec fn line_of(message: Seq<u8>) -> Seq<u8> {
    message.push(NEWLINE)
}

/// Makes a line of a message that is already in bytes.
pub fn frame(message: Vec<u8>) -> (r: Vec<u8>)
    ensures
        r@ == line_of(message@),
{
    let mut line = message;
    line.push(NEWLINE);
    line
}

/// Makes a line of a text.
pub fn frame_text(text: &str) -> (r: Vec<u8>)
    ensures
        r@ == line_of(vstd::utf8::encode_utf8(text@)),
{
    let mut line = text.as_bytes_vec();
    line.push(NEWLINE);
    line
}

/// Makes a line of a message, in a buffer from which a socket can be fed.
pub fn frame_buffer(message: &[u8]) -> (r: BytesMut)
    requires
        2 * (message@.len() + 1) <= isize::MAX,
    ensures
        outside::buffer_bytes(r) == line_of(message@),
{
    let mut buffer = outside::buffer_new();
    outside::buffer_put_slice(&mut buffer, message);
    assert(Seq::<u8>::empty() + message@ =~= message@);
    outside::buffer_put_u8(&mut buffer, NEWLINE);
    buffer
}

/// Makes a line of a text as a JSON string.
pub fn frame_json(text: &String) -> (r: BytesMut)
    requires
        2 * (outside::json_string(text@).len() + 1) <= isize::MAX,
    ensures
        outside::buffer_bytes(r) == line_of(outside::json_string(text@)),
{
    let json = outside::json_to_vec(text).unwrap();
    frame_buffer(json.as_slice())
}

/// The pieces of `text` between its newlines, one more than there are newlines.
pub open spec fn split_newlines(text: Seq<char>) -> Seq<Seq<char>>
    decreases text.len(),
{
    if text.len() == 0 {
        seq![Seq::<char>::empty()]
    } else {
        let before = split_newlines(text.drop_last());
        if text.last() == '\n' {
            before.push(Seq::<char>::empty())
        } else {
            before.drop_last().push(before.last().push(text.last()))
        }
    }
}

/// The pieces of `text` between its newlines that hold something.
pub open spec fn filled_lines(text: Seq<char>) -> Seq<Seq<char>> {
    split_newlines(text).filter(|piece: Seq<char>| piece.len() > 0)
}

/// Splits what was read into its filled lines, in order.
pub fn lines(text: &str) -> (r: Vec<String>)
    ensures
        crate::protocol::texts(r@) == filled_lines(text@),
{
    let mut found: Vec<String> = Vec::new();
    let mut start: usize = 0;
    let mut at: usize = 0;
    let len: usize = text.unicode_len();
    let ghost filled = |piece: Seq<char>| piece.len() > 0;
    proof {
        reveal_with_fuel(Seq::filter, 2);
        assert(text@.subrange(0, 0) =~= Seq::<char>::empty());
        assert(split_newlines(text@.take(0)).drop_last() =~= Seq::<Seq<char>>::empty());
        assert(crate::protocol::texts(found@) =~= Seq::<Seq<char>>::empty());
    }
    for c in it: text.chars()
        invariant
            it.seq() == text@,
            at == it.index(),
            start <= at <= len,
            len == text@.len(),
            filled == (|piece: Seq<char>| piece.len() > 0),
            split_newlines(text@.take(at as int)).len() > 0,
            split_newlines(text@.take(at as int)).last() == text@.subrange(
                start as int,
                at as int,
            ),
            crate::protocol::texts(found@) == split_newlines(
                text@.take(at as int),
            ).drop_last().filter(filled),
    {
        let ghost before = split_newlines(text@.take(at as int));
        let ghost found_before = crate::protocol::texts(found@);
        assert(text@.take(at + 1).drop_last() =~= text@.take(at as int));
        assert(text@.take(at + 1).last() == c);
        if c == '\n' {
            assert(before.push(Seq::<char>::empty()).drop_last() =~= before);
            proof {
                lemma_filter_last(before, filled);
            }
            if start < at {
                let piece = text.substring_char(start, at).to_owned();
                found.push(piece);
                assert(crate::protocol::texts(found@) =~= found_before.push(piece@));
            }
            start = at + 1;
            assert(text@.subrange(start as int, at + 1) =~= Seq::<char>::empty());
        } else {
            assert(before.drop_last().push(before.last().push(c)).drop_last()
                =~= before.drop_last());
            assert(text@.subrange(start as int, at + 1) =~= text@.subrange(
                start as int,
                at as int,
            ).push(c));
        }
        at = at + 1;
    }
    proof {
        assert(text@.take(len as int) =~= text@);
        lemma_filter_last(split_newlines(text@), filled);
    }
    if start < len {
        let ghost found_before = crate::protocol::texts(found@);
        let piece = text.substring_char(start, len).to_owned();
        found.push(piece);
        assert(crate::protocol::texts(found@) =~= found_before.push(piece@));
    }
    found
}

/// Filtering keeps the last item or drops it.
pub(crate) proof fn lemma_filter_last(s: Seq<Seq<char>>, keep: spec_fn(Seq<char>) -> bool)
    requires
        s.len() > 0,
    ensures
        s.filter(keep) == (if keep(s.last()) {
            s.drop_last().filter(keep).push(s.last())
        } else {
            s.drop_last().filter(keep)
        }),
{
    reveal(Seq::filter);
}

/// How a write to a socket went.
pub enum WriteOutcome {
    /// So many bytes were taken.
    Written { len: usize },
    /// The write failed.
    Failed { reason: String },
}

/// What a write's outcome means to the session of `worker`: an error if it
/// failed or if nothing was taken.
pub open spec fn write_verdict(outcome: WriteOutcome, worker: Seq<char>) -> Option<StreamErrorView> {
    match outcome {
        WriteOutcome::Written { len } => if len == 0 {
            Some(StreamErrorView::Disconnected { worker })
        } else {
            None
        },
        WriteOutcome::Failed { reason } => Some(StreamErrorView::WriteFailed { reason: reason@ }),
    }
}

/// What `r` says of the session: the error that it holds, if any.
pub open spec fn error_of(r: Result<(), StreamError>) -> Option<StreamErrorView> {
    match r {
        Ok(_) => None,
        Err(e) => Some(e@),
    }
}

/// Judges a write on behalf of `worker`.
pub fn write_to_socket(outcome: WriteOutcome, worker: &String) -> (r: Result<(), StreamError>)
    ensures
        error_of(r) == write_verdict(outcome, worker@),
{
    match outcome {
        WriteOutcome::Written { len } => {
            if len == 0 {
                return Err(StreamError::Disconnected { worker: worker.clone() });
            }
            Ok(())
        },
        WriteOutcome::Failed { reason } => Err(StreamError::WriteFailed { reason }),
    }
}

/// Judges the closing of the connection to the pool.
pub fn shutdown(succeeded: bool) -> (r: Result<(), StreamError>)
    ensures
        error_of(r) == (if succeeded {
            None::<StreamErrorView>
        } else {
            Some(StreamErrorView::ShutdownFailed)
        }),
{
    if succeeded {
        Ok(())
    } else {
        Err(StreamError::ShutdownFailed)
    }
}

} // verus!
