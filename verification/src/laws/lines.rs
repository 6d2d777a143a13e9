//! What holds of lines, as they are written and read.

use crate::framing;
use crate::outside;
use bytes::BytesMut;
use vstd::prelude::*;

verus! {

/// The pieces of a text with newlines put back between them.
pub open spec fn join_newlines(pieces: Seq<Seq<char>>) -> Seq<char>
    decreases pieces.len(),
{
    if pieces.len() == 0 {
        Seq::empty()
    } else if pieces.len() == 1 {
        pieces[0]
    } else {
        join_newlines(pieces.drop_last()).push('\n') + pieces.last()
    }
}

/// Splitting a text loses nothing: its pieces, with newlines between them, are
/// the text; and no piece holds a newline.
pub proof fn law_split_loses_nothing(text: Seq<char>)
    ensures
        framing::split_newlines(text).len() > 0,
        join_newlines(framing::split_newlines(text)) == text,
        forall|i: int|
            0 <= i < framing::split_newlines(text).len() ==> !(#[trigger] framing::split_newlines(
                text,
            )[i]).contains('\n'),
    decreases text.len(),
{
    let pieces = framing::split_newlines(text);
    if text.len() == 0 {
        assert(pieces[0] =~= text);
    } else {
        let before = framing::split_newlines(text.drop_last());
        law_split_loses_nothing(text.drop_last());
        assert(text =~= text.drop_last().push(text.last()));
        if text.last() == '\n' {
            assert(pieces.drop_last() =~= before);
            assert(join_newlines(pieces) =~= text);
        } else {
            let grown = before.last().push(text.last());
            assert(pieces.drop_last() =~= before.drop_last());
            assert(!before[before.len() - 1].contains('\n'));
            assert forall|i: int| 0 <= i < pieces.len() implies !(#[trigger] pieces[i]).contains(
                '\n',
            ) by {
                if i < pieces.len() - 1 {
                    assert(pieces[i] == before[i]);
                } else {
                    assert(pieces[i] == grown);
                    assert forall|j: int| 0 <= j < grown.len() implies grown[j] != '\n' by {
                        if j < before.last().len() {
                            assert(grown[j] == before.last()[j]);
                            assert(before.last().contains(before.last()[j]));
                        }
                    }
                }
            }
            assert(join_newlines(pieces) =~= text);
        }
    }
}

/// Every line that is read out of a text holds something and no newline.
pub proof fn law_lines_are_filled(text: Seq<char>)
    ensures
        forall|i: int|
            0 <= i < framing::filled_lines(text).len() ==> {
                &&& (#[trigger] framing::filled_lines(text)[i]).len() > 0
                &&& !framing::filled_lines(text)[i].contains('\n')
            },
{
    law_split_loses_nothing(text);
    let pieces = framing::split_newlines(text);
    let filled = |piece: Seq<char>| piece.len() > 0;
    broadcast use vstd::seq_lib::group_filter_ensures;

    assert forall|i: int| 0 <= i < framing::filled_lines(text).len() implies {
        &&& (#[trigger] framing::filled_lines(text)[i]).len() > 0
        &&& !framing::filled_lines(text)[i].contains('\n')
    } by {
        let line = framing::filled_lines(text)[i];
        assert(filled(line));
        assert(pieces.filter(filled).contains(line));
        pieces.lemma_filter_contains_rev(filled, line);
        assert(pieces.contains(line));
    }
}

/// A text that holds something and no newline, and that was written as a line,
/// is read again as that one line.
pub proof fn law_a_line_is_read_as_written(text: Seq<char>)
    requires
        text.len() > 0,
        !text.contains('\n'),
    ensures
        framing::filled_lines(text.push('\n')) == seq![text],
{
    let filled = |piece: Seq<char>| piece.len() > 0;
    lemma_split_without_newlines(text);
    assert(text.push('\n').drop_last() =~= text);
    let pieces = framing::split_newlines(text.push('\n'));
    assert(pieces =~= seq![text, Seq::<char>::empty()]);
    framing::lemma_filter_last(pieces, filled);
    assert(pieces.drop_last() =~= seq![text]);
    framing::lemma_filter_last(seq![text], filled);
    assert(seq![text].drop_last() =~= Seq::<Seq<char>>::empty());
    reveal(Seq::filter);
    assert(framing::filled_lines(text.push('\n')) =~= seq![text]);
}

/// A text without newlines is its own only piece.
proof fn lemma_split_without_newlines(text: Seq<char>)
    requires
        !text.contains('\n'),
    ensures
        framing::split_newlines(text) == seq![text],
    decreases text.len(),
{
    if text.len() == 0 {
        assert(text =~= Seq::<char>::empty());
    } else {
        assert(!text.drop_last().contains('\n')) by {
            assert forall|i: int| 0 <= i < text.drop_last().len() implies text.drop_last()[i]
                != '\n' by {
                assert(text.contains(text[i]));
            }
        }
        lemma_split_without_newlines(text.drop_last());
        assert(text.contains(text.last()));
        assert(text.drop_last().push(text.last()) =~= text);
        assert(framing::split_newlines(text) =~= seq![text]);
    }
}

/// The line of a text in bytes is the text with a newline behind it, in bytes.
pub proof fn law_text_lines_end_in_a_newline(text: Seq<char>)
    ensures
        framing::line_of(vstd::utf8::encode_utf8(text)) == vstd::utf8::encode_utf8(
            text.push('\n'),
        ),
    decreases text.len(),
{
    reveal_with_fuel(vstd::utf8::encode_utf8, 2);
    let longer = text.push('\n');
    if text.len() == 0 {
        assert(longer.drop_first() =~= Seq::<char>::empty());
        assert(text =~= Seq::<char>::empty());
        assert(vstd::utf8::encode_scalar(10u32) =~= seq![10u8]) by {
            assert(10u32 & 0x7F == 10) by (bit_vector);
        }
        assert(vstd::utf8::encode_utf8(longer) =~= seq![10u8]);
    } else {
        law_text_lines_end_in_a_newline(text.drop_first());
        assert(longer.drop_first() =~= text.drop_first().push('\n'));
        assert(longer[0] == text[0]);
        assert(framing::line_of(vstd::utf8::encode_utf8(text)) =~= vstd::utf8::encode_utf8(longer));
    }
}

/// A JSON string holds no control character.
proof fn lemma_json_content_is_printable(bytes: Seq<u8>)
    ensures
        forall|i: int|
            0 <= i < outside::json_content(bytes).len() ==> (#[trigger] outside::json_content(
                bytes,
            )[i]) >= 0x20,
    decreases bytes.len(),
{
    if bytes.len() > 0 {
        let before = outside::json_content(bytes.drop_last());
        let last = outside::json_byte(bytes.last());
        lemma_json_content_is_printable(bytes.drop_last());
        assert forall|i: int| 0 <= i < last.len() implies #[trigger] last[i] >= 0x20 by {}
        assert forall|i: int| 0 <= i < outside::json_content(bytes).len() implies (
        #[trigger] outside::json_content(bytes)[i]) >= 0x20 by {
            if i < before.len() {
                assert(outside::json_content(bytes)[i] == before[i]);
            } else {
                assert(outside::json_content(bytes)[i] == last[i - before.len()]);
            }
        }
    }
}

/// A text as a JSON string is one line: it holds no newline, whatever the text
/// holds, so that its line has one newline, and that at its end.
pub proof fn law_json_is_one_line(text: Seq<char>)
    ensures
        ({
            let line = framing::line_of(outside::json_string(text));
            forall|i: int|
                0 <= i < line.len() ==> ((#[trigger] line[i]) == framing::NEWLINE <==> i
                    == line.len() - 1)
        }),
{
    lemma_json_content_is_printable(vstd::utf8::encode_utf8(text));
}

/// A text without anything in it, and one newline, hold no lines.
pub proof fn law_newlines_are_no_lines()
    ensures
        framing::filled_lines(Seq::<char>::empty()).len() == 0,
        framing::filled_lines(seq!['\n']).len() == 0,
{
    let filled = |piece: Seq<char>| piece.len() > 0;
    let empty = Seq::<char>::empty();
    assert(framing::split_newlines(empty) =~= seq![empty]);
    framing::lemma_filter_last(seq![empty], filled);
    assert(seq![empty].drop_last() =~= Seq::<Seq<char>>::empty());
    reveal(Seq::filter);
    assert(seq!['\n'].drop_last() =~= empty);
    assert(framing::split_newlines(seq!['\n']) =~= seq![empty, empty]);
    framing::lemma_filter_last(seq![empty, empty], filled);
    assert(seq![empty, empty].drop_last() =~= seq![empty]);
}

/// A newline parts what is before it from what is behind it: the lines of the
/// whole are the lines of the one part and then those of the other, whether or
/// not there are any.
pub proof fn law_newlines_part_lines(before: Seq<char>, behind: Seq<char>)
    ensures
        framing::filled_lines(before.push('\n') + behind) == framing::filled_lines(before)
            + framing::filled_lines(behind),
    decreases behind.len(),
{
    let filled = |piece: Seq<char>| piece.len() > 0;
    lemma_split_parts(before, behind);
    lemma_filter_parts(framing::split_newlines(before), framing::split_newlines(behind));
}

/// A newline parts the pieces of a text.
proof fn lemma_split_parts(before: Seq<char>, behind: Seq<char>)
    ensures
        framing::split_newlines(before.push('\n') + behind) == framing::split_newlines(before)
            + framing::split_newlines(behind),
    decreases behind.len(),
{
    let whole = before.push('\n') + behind;
    let first = framing::split_newlines(before);
    law_split_loses_nothing(behind);
    if behind.len() == 0 {
        assert(whole =~= before.push('\n'));
        assert(before.push('\n').drop_last() =~= before);
        assert(framing::split_newlines(whole) =~= first + seq![Seq::<char>::empty()]);
    } else {
        lemma_split_parts(before, behind.drop_last());
        law_split_loses_nothing(behind.drop_last());
        assert(whole.drop_last() =~= before.push('\n') + behind.drop_last());
        let rest = framing::split_newlines(behind.drop_last());
        assert((first + rest).drop_last() =~= first + rest.drop_last());
        assert((first + rest).last() == rest.last());
        assert(framing::split_newlines(whole) =~= first + framing::split_newlines(behind));
    }
}

/// The filled ones of two lists of pieces are those of the one and then those
/// of the other.
proof fn lemma_filter_parts(first: Seq<Seq<char>>, second: Seq<Seq<char>>)
    ensures
        (first + second).filter(|piece: Seq<char>| piece.len() > 0) == first.filter(
            |piece: Seq<char>| piece.len() > 0,
        ) + second.filter(|piece: Seq<char>| piece.len() > 0),
    decreases second.len(),
{
    let filled = |piece: Seq<char>| piece.len() > 0;
    if second.len() == 0 {
        reveal(Seq::filter);
        assert(first + second =~= first);
        assert(first.filter(filled) + second.filter(filled) =~= first.filter(filled));
    } else {
        lemma_filter_parts(first, second.drop_last());
        assert((first + second).drop_last() =~= first + second.drop_last());
        framing::lemma_filter_last(first + second, filled);
        framing::lemma_filter_last(second, filled);
        assert((first + second).filter(filled) =~= first.filter(filled) + second.filter(filled));
    }
}

/// Whatever is made into a line, in whichever way, becomes its bytes with one
/// newline behind them: a message as it is, a text in its encoding, and a text
/// as a JSON string where that is asked for.
pub proof fn law_lines_carry_their_message(
    message: Vec<u8>,
    framed: Vec<u8>,
    text: &str,
    framed_text: Vec<u8>,
    bytes: &[u8],
    buffer: BytesMut,
    string: String,
    json_buffer: BytesMut,
)
    requires
        call_ensures(framing::frame, (message,), framed),
        call_ensures(framing::frame_text, (text,), framed_text),
        call_ensures(framing::frame_buffer, (bytes,), buffer),
        call_ensures(framing::frame_json, (&string,), json_buffer),
    ensures
        framed@ == message@ + seq![10u8],
        framed_text@ == vstd::utf8::encode_utf8(text@) + seq![10u8],
        outside::buffer_bytes(buffer) == bytes@ + seq![10u8],
        outside::buffer_bytes(json_buffer) == outside::json_string(string@) + seq![10u8],
{
    assert(framed@ =~= message@ + seq![10u8]);
    assert(framed_text@ =~= vstd::utf8::encode_utf8(text@) + seq![10u8]);
    assert(outside::buffer_bytes(buffer) =~= bytes@ + seq![10u8]);
    assert(outside::buffer_bytes(json_buffer) =~= outside::json_string(string@) + seq![10u8]);
}

/// What was read comes out as its lines, in order.
pub proof fn law_lines_come_out(text: &str, lines: Vec<String>)
    requires
        call_ensures(framing::lines, (text,), lines),
    ensures
        lines@.len() == framing::filled_lines(text@).len(),
        forall|i: int|
            0 <= i < lines@.len() ==> (#[trigger] lines@[i])@ == framing::filled_lines(text@)[i],
{
    assert forall|i: int| 0 <= i < lines@.len() implies (#[trigger] lines@[i])@
        == framing::filled_lines(text@)[i] by {
        assert(crate::protocol::texts(lines@)[i] == lines@[i]@);
    }
}

} // verus!
