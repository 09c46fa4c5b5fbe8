//! The framing of messages on a byte stream.
//!
//! A message is preceded by a header line `Content-Length: <size>`, where the size counts bytes,
//! and by one line that separates the header from the content.
use crate::text::{
    characters, decimal, is_in_any_case, law_decimal_reads_back, lemma_decimal, lemma_split_pair,
    lowercase, parse_usize, push_decimal, split, split_on, texts, trim, trim_end, trim_start,
    trimmed, unsigned_number, white_space,
};
use vstd::pervasive::unreached;
use vstd::prelude::*;
use vstd::slice::*;
use vstd::string::*;
use vstd::utf8::*;

verus! {

/// Why a header line gives no size.
#[derive(Debug, Clone, Copy, PartialEq, Eq, Structural)]
pub enum HeaderError {
    /// There is no line: the input has ended.
    Empty,
    /// The line is not made of two words with one space between them.
    Malformed,
    /// The first word is not `Content-Length:`.
    NotContentLength,
    /// The second word is not a number, or not one that a `usize` can hold.
    BadSize,
}

/// What a header line says: the size of the content that follows it.
///
/// The name may be written in any mixture of capital and small letters, and the number may have
/// white space on either side.
pub open spec fn content_length(line: Seq<char>) -> Result<usize, HeaderError> {
    let words = split_on(line, ' ');
    if line.len() == 0 {
        Err(HeaderError::Empty)
    } else if words.len() != 2 {
        Err(HeaderError::Malformed)
    } else if lowercase(words[0]) != "content-length:"@ {
        Err(HeaderError::NotContentLength)
    } else {
        match unsigned_number(trim(words[1])) {
            Some(n) => if n <= usize::MAX {
                Ok(n as usize)
            } else {
                Err(HeaderError::BadSize)
            },
            None => Err(HeaderError::BadSize),
        }
    }
}

/// The size that a header line gives.
pub fn read_header(line: &str) -> (size: Result<usize, HeaderError>)
    ensures
        size == content_length(line@),
{
    let chars = characters(line);
    if chars.len() == 0 {
        return Err(HeaderError::Empty);
    }
    let words = split(&chars, ' ');
    assert(texts(words@).len() == words.len());
    if words.len() != 2 {
        return Err(HeaderError::Malformed);
    }
    assert(texts(words@)[0] == words@[0]@);
    assert(texts(words@)[1] == words@[1]@);
    // Only ASCII letters become the letters of this name when made small, so folding the ASCII
    // letters compares as folding every letter would.
    if !is_in_any_case(&words[0], "content-length:") {
        return Err(HeaderError::NotContentLength);
    }
    match parse_usize(&trimmed(&words[1])) {
        Some(n) => Ok(n),
        None => Err(HeaderError::BadSize),
    }
}

/// What is written before the content of a message: its size in bytes, and a blank line.
pub open spec fn header(size: nat) -> Seq<char> {
    "Content-Length: "@ + decimal(size) + "\r\n\r\n"@
}

/// `output` as it is written to the client: the header, and the text itself.
pub open spec fn framed(output: Seq<char>) -> Seq<char> {
    header(encode_utf8(output).len()) + output
}

/// Puts the header in front of `output`.
pub fn frame(output: &str) -> (text: String)
    ensures
        text@ == framed(output@),
        text@ == "Content-Length: "@ + decimal(encode_utf8(output@).len()) + "\r\n\r\n"@ + output@,
{
    let mut text: String = "Content-Length: ".to_owned();
    push_decimal(&mut text, output.as_bytes().len());
    text.append("\r\n\r\n");
    text.append(output);
    text
}

/// `String::from_utf8`: the text that `bytes` encode, or nothing if they are not valid UTF-8.
#[verifier::external_body]
fn string_from_utf8(bytes: Vec<u8>) -> (text: Option<String>)
    ensures
        match text {
            Some(s) => valid_utf8(bytes@) && s@ == decode_utf8(bytes@),
            None => !valid_utf8(bytes@),
        },
{
    String::from_utf8(bytes).ok()
}

/// Why no message was read.
#[derive(Debug, Clone, Copy, PartialEq, Eq, Structural)]
pub enum ReadError {
    /// A line, or the whole of the content, could not be read.
    Unreadable,
    /// The header gives no size.
    Header(HeaderError),
    /// The content is not valid UTF-8.
    NotUtf8,
}

/// How far the reading of one message has come, and what is to be read next.
#[derive(Debug)]
pub enum ReadStep {
    /// A line is to be read: the header.
    Header,
    /// A line is to be read and dropped: it ends the header of a content of this size.
    Separator { size: usize },
    /// The content is to be read: exactly this many bytes.
    Content { size: usize },
    /// Nothing more is to be read: this is the message, or why there is none.
    Done { content: Result<String, ReadError> },
}

/// What a step stands for, the content taken as its characters.
pub enum ReadView {
    Header,
    Separator { size: usize },
    Content { size: usize },
    Done { content: Result<Seq<char>, ReadError> },
}

impl View for ReadStep {
    type V = ReadView;

    open spec fn view(&self) -> ReadView {
        match self {
            ReadStep::Header => ReadView::Header,
            ReadStep::Separator { size } => ReadView::Separator { size: *size },
            ReadStep::Content { size } => ReadView::Content { size: *size },
            ReadStep::Done { content } => ReadView::Done {
                content: match content {
                    Ok(s) => Ok(s@),
                    Err(e) => Err(*e),
                },
            },
        }
    }
}

/// What follows `step` when the line asked for has come, or could not be read.
pub open spec fn after_line(step: ReadView, line: Option<Seq<char>>) -> ReadView {
    match (step, line) {
        (ReadView::Header, Some(line)) => match content_length(line) {
            Ok(size) => ReadView::Separator { size },
            Err(e) => ReadView::Done { content: Err(ReadError::Header(e)) },
        },
        (ReadView::Separator { size }, Some(_)) => ReadView::Content { size },
        (ReadView::Content { .. }, _) => step,
        (ReadView::Done { .. }, _) => step,
        (_, None) => ReadView::Done { content: Err(ReadError::Unreadable) },
    }
}

/// What `bytes` hold as the content of a message.
pub open spec fn content_in(bytes: Seq<u8>) -> Result<Seq<char>, ReadError> {
    if valid_utf8(bytes) {
        Ok(decode_utf8(bytes))
    } else {
        Err(ReadError::NotUtf8)
    }
}

/// What follows `step` when bytes have come, or could not be read. Too few or too many bytes are
/// not the content that was asked for.
pub open spec fn after_bytes(step: ReadView, bytes: Option<Seq<u8>>) -> ReadView {
    match (step, bytes) {
        (ReadView::Content { size }, Some(bytes)) => ReadView::Done {
            content: if bytes.len() == size {
                content_in(bytes)
            } else {
                Err(ReadError::Unreadable)
            },
        },
        (ReadView::Content { .. }, None) => ReadView::Done { content: Err(ReadError::Unreadable) },
        _ => step,
    }
}

impl ReadStep {
    /// Takes the line that was read, or `None` if no line could be read. A step that asked for no
    /// line stays as it is.
    pub fn line(self, line: Option<String>) -> (next: ReadStep)
        ensures
            next@ == after_line(
                self@,
                match line {
                    Some(s) => Some(s@),
                    None => None,
                },
            ),
    {
        match self {
            ReadStep::Header => match line {
                Some(line) => match read_header(line.as_str()) {
                    Ok(size) => ReadStep::Separator { size },
                    Err(e) => ReadStep::Done { content: Err(ReadError::Header(e)) },
                },
                None => ReadStep::Done { content: Err(ReadError::Unreadable) },
            },
            ReadStep::Separator { size } => match line {
                Some(_) => ReadStep::Content { size },
                None => ReadStep::Done { content: Err(ReadError::Unreadable) },
            },
            ReadStep::Content { size } => ReadStep::Content { size },
            ReadStep::Done { content } => ReadStep::Done { content },
        }
    }

    /// Takes the bytes that were read, or `None` if they could not be read. They are the content
    /// only if they are as many as were asked for. A step that asked for no bytes stays as it is.
    pub fn bytes(self, bytes: Option<Vec<u8>>) -> (next: ReadStep)
        ensures
            next@ == after_bytes(
                self@,
                match bytes {
                    Some(b) => Some(b@),
                    None => None,
                },
            ),
    {
        match self {
            ReadStep::Content { size } => match bytes {
                Some(bytes) => if bytes.len() == size {
                    match string_from_utf8(bytes) {
                        Some(content) => ReadStep::Done { content: Ok(content) },
                        None => ReadStep::Done { content: Err(ReadError::NotUtf8) },
                    }
                } else {
                    ReadStep::Done { content: Err(ReadError::Unreadable) }
                },
                None => ReadStep::Done { content: Err(ReadError::Unreadable) },
            },
            other => other,
        }
    }
}

/// How many bytes of `stream` its first line has, the line feed included. A line that no line
/// feed ends goes on to the end of the stream.
pub open spec fn line_len(stream: Seq<u8>) -> nat
    decreases stream.len(),
{
    if stream.len() == 0 {
        0
    } else if stream[0] == 10 {
        1
    } else {
        1 + line_len(stream.drop_first())
    }
}

/// The first line of `stream`, if it is valid UTF-8.
pub open spec fn first_line(stream: Seq<u8>) -> Option<Seq<char>> {
    let bytes = stream.take(line_len(stream) as int);
    if valid_utf8(bytes) {
        Some(decode_utf8(bytes))
    } else {
        None
    }
}

/// What comes after the first line of `stream`.
pub open spec fn after_first_line(stream: Seq<u8>) -> Seq<u8> {
    stream.skip(line_len(stream) as int)
}

/// The content of the message that `stream` starts with, or why the stream does not start with a
/// message; and the bytes that are left once that is known. Nothing is read behind a header that
/// is refused, and content that is cut off is read as far as it goes.
pub open spec fn message_in(stream: Seq<u8>) -> (Result<Seq<char>, ReadError>, Seq<u8>) {
    let after = after_first_line(stream);
    let body = after_first_line(after);
    match first_line(stream) {
        None => (Err(ReadError::Unreadable), after),
        Some(header) => match content_length(header) {
            Err(e) => (Err(ReadError::Header(e)), after),
            Ok(size) => if first_line(after) is None {
                (Err(ReadError::Unreadable), body)
            } else if size <= body.len() {
                (content_in(body.take(size as int)), body.skip(size as int))
            } else {
                (Err(ReadError::Unreadable), Seq::empty())
            },
        },
    }
}

/// The index just behind the first line of `stream` at or after `from`.
fn line_end(stream: &[u8], from: usize) -> (end: usize)
    requires
        from <= stream@.len(),
    ensures
        from <= end <= stream@.len(),
        end - from == line_len(stream@.skip(from as int)),
{
    let mut i: usize = from;
    assert(stream@.skip(from as int) == stream@.skip(i as int));
    while i < stream.len()
        invariant
            from <= i <= stream@.len(),
            line_len(stream@.skip(from as int)) == i - from + line_len(stream@.skip(i as int)),
        decreases stream@.len() - i,
    {
        assert(stream@.skip(i as int).drop_first() == stream@.skip(i + 1));
        if stream[i] == 10 {
            return i + 1;
        }
        i = i + 1;
    }
    i
}

/// Reads the message that `stream` starts with, or tells why it does not start with one, and says
/// how many bytes that took.
pub fn read_message(stream: &[u8]) -> (read: (Result<String, ReadError>, usize))
    ensures
        read.1 <= stream@.len(),
        message_in(stream@) == (
            match read.0 {
                Ok(content) => Ok(content@),
                Err(e) => Err(e),
            },
            stream@.skip(read.1 as int),
        ),
{
    assert(stream@.skip(0) == stream@);
    let after = line_end(stream, 0);
    assert(stream@.subrange(0, after as int) == stream@.take(line_len(stream@) as int));
    let header = string_from_utf8(slice_to_vec(slice_subrange(stream, 0, after)));
    let step = match ReadStep::Header.line(header) {
        ReadStep::Done { content } => {
            return (content, after);
        },
        step => step,
    };
    let ghost rest = after_first_line(stream@);
    let body = line_end(stream, after);
    assert(stream@.subrange(after as int, body as int) == rest.take(line_len(rest) as int));
    assert(stream@.skip(body as int) == after_first_line(rest));
    let separator = string_from_utf8(slice_to_vec(slice_subrange(stream, after, body)));
    let size: usize = match step.line(separator) {
        ReadStep::Content { size } => size,
        ReadStep::Done { content } => {
            return (content, body);
        },
        _ => unreached(),
    };
    let step = ReadStep::Content { size };
    let (last, taken): (ReadStep, usize) = if size <= stream.len() - body {
        let end: usize = body + size;
        assert(stream@.subrange(body as int, end as int) == after_first_line(rest).take(
            size as int,
        ));
        assert(stream@.skip(end as int) == after_first_line(rest).skip(size as int));
        (step.bytes(Some(slice_to_vec(slice_subrange(stream, body, end)))), end)
    } else {
        assert(stream@.skip(stream@.len() as int) == Seq::<u8>::empty());
        (step.bytes(None), stream.len())
    };
    match last {
        ReadStep::Done { content } => (content, taken),
        _ => unreached(),
    }
}

/// The contents of the messages that `stream` starts with, up to the end of the stream or the
/// first bytes that are not a message.
pub open spec fn messages_in(stream: Seq<u8>) -> Seq<Seq<char>>
    decreases stream.len(),
{
    match message_in(stream) {
        (Ok(content), rest) => if rest.len() < stream.len() {
            seq![content] + messages_in(rest)
        } else {
            Seq::empty()
        },
        (Err(_), _) => Seq::empty(),
    }
}

/// The bytes that are written when `outputs` are sent one after another.
pub open spec fn stream_of(outputs: Seq<Seq<char>>) -> Seq<u8>
    decreases outputs.len(),
{
    if outputs.len() == 0 {
        Seq::empty()
    } else {
        encode_utf8(framed(outputs[0])) + stream_of(outputs.drop_first())
    }
}

/// The first line of a header that was written is the header line, and the second is blank.
proof fn lemma_header_lines(size: nat, body: Seq<u8>)
    requires
        size <= usize::MAX,
    ensures
        ({
            let stream = encode_utf8(header(size)) + body;
            &&& first_line(stream) matches Some(line)
            &&& content_length(line) == Ok::<usize, HeaderError>(size as usize)
            &&& first_line(after_first_line(stream)) is Some
            &&& after_first_line(after_first_line(stream)) == body
        }),
{
    let line = "Content-Length: "@ + decimal(size) + "\r\n"@;
    let separator = "\r\n"@;
    let stream = encode_utf8(header(size)) + body;
    reveal_strlit("Content-Length: ");
    reveal_strlit("\r\n");
    reveal_strlit("\r\n\r\n");
    lemma_decimal(size);
    assert("\r\n\r\n"@ == separator + separator);
    assert(header(size) == line + separator);
    lemma_encode_concat(line, separator);
    assert(is_ascii_chars(line));
    is_ascii_chars_encode_utf8(line);
    is_ascii_chars_encode_utf8(separator);
    let head = encode_utf8(line);
    let gap = encode_utf8(separator);
    assert(stream == head + (gap + body));
    // The header line.
    assert forall|i: int| 0 <= i < line.len() - 1 implies #[trigger] stream[i] != 10 by {
        assert(stream[i] == head[i]);
        assert(line[i] as u8 == head[i]);
        if i >= 16 && i < 16 + decimal(size).len() {
            assert(line[i] == decimal(size)[i - 16]);
        }
    }
    assert(line[line.len() - 1] as u8 == head[line.len() - 1]);
    lemma_line_len(stream, line.len() - 1);
    assert(stream.take(head.len() as int) == head);
    encode_utf8_valid_utf8(line);
    encode_utf8_decode_utf8(line);
    lemma_header(size);
    // The blank line.
    let after = stream.skip(head.len() as int);
    assert(after == gap + body);
    assert(separator[0] as u8 == gap[0] && separator[1] as u8 == gap[1]);
    assert(after[0] == gap[0] && after[1] == gap[1]);
    lemma_line_len(after, 1);
    assert(after.take(2) == gap);
    encode_utf8_valid_utf8(separator);
    assert(after.skip(2) == body);
}

/// Reading gives back what was written: behind its header a message is read as the text that was
/// framed, and the bytes that follow the frame are left for the next message.
pub proof fn law_frame_reads_back(output: Seq<char>, rest: Seq<u8>)
    requires
        encode_utf8(output).len() <= usize::MAX,
    ensures
        message_in(encode_utf8(framed(output)) + rest) == (Ok::<_, ReadError>(output), rest),
{
    let content = encode_utf8(output);
    lemma_encode_concat(header(content.len()), output);
    law_content_is_read_whole(content, rest);
    encode_utf8_valid_utf8(output);
    encode_utf8_decode_utf8(output);
}

/// Behind a header that was written, the bytes that it announces are read whatever they are, and
/// no others. If they are not valid UTF-8, the message is refused and the next can still be read.
pub proof fn law_content_is_read_whole(content: Seq<u8>, rest: Seq<u8>)
    requires
        content.len() <= usize::MAX,
    ensures
        message_in(encode_utf8(header(content.len())) + content + rest) == (
            content_in(content),
            rest,
        ),
{
    let head = encode_utf8(header(content.len()));
    let body = content + rest;
    lemma_header_lines(content.len(), body);
    assert(head + content + rest == head + body);
    assert(body.take(content.len() as int) == content);
    assert(body.skip(content.len() as int) == rest);
}

/// If the input ends before all of the bytes that a header announces, there is no message and
/// nothing is left.
pub proof fn law_content_cut_off(size: nat, content: Seq<u8>)
    requires
        content.len() < size <= usize::MAX,
    ensures
        message_in(encode_utf8(header(size)) + content) == (
            Err::<Seq<char>, _>(ReadError::Unreadable),
            Seq::<u8>::empty(),
        ),
{
    lemma_header_lines(size, content);
}

/// Of a header that is refused the line is taken, and nothing behind it.
pub proof fn law_refused_header_takes_its_line(line: Seq<u8>, rest: Seq<u8>)
    requires
        line.len() > 0,
        line.last() == 10,
        forall|i: int| 0 <= i < line.len() - 1 ==> #[trigger] line[i] != 10,
        valid_utf8(line) ==> content_length(decode_utf8(line)) is Err,
    ensures
        message_in(line + rest) == (
            Err::<Seq<char>, _>(
                if valid_utf8(line) {
                    ReadError::Header(content_length(decode_utf8(line))->Err_0)
                } else {
                    ReadError::Unreadable
                },
            ),
            rest,
        ),
{
    let stream = line + rest;
    assert forall|i: int| 0 <= i < line.len() - 1 implies #[trigger] stream[i] != 10 by {
        assert(stream[i] == line[i]);
    }
    lemma_line_len(stream, line.len() - 1);
    assert(stream.take(line.len() as int) == line);
    assert(stream.skip(line.len() as int) == rest);
}

/// Of a message whose second line cannot be read both lines are taken, and nothing behind them.
pub proof fn law_unreadable_separator_takes_two_lines(stream: Seq<u8>, size: usize)
    requires
        first_line(stream) matches Some(line) && content_length(line) == Ok::<_, HeaderError>(size),
        first_line(after_first_line(stream)) is None,
    ensures
        message_in(stream) == (
            Err::<Seq<char>, _>(ReadError::Unreadable),
            after_first_line(after_first_line(stream)),
        ),
{
}

/// The steps of reading, each given what it asks for, come to the message that the stream starts
/// with.
pub proof fn law_steps_read_the_message(stream: Seq<u8>)
    ensures
        ({
            let after = after_first_line(stream);
            let body = after_first_line(after);
            let header = after_line(ReadView::Header, first_line(stream));
            let separator = after_line(header, first_line(after));
            let last = match separator {
                ReadView::Content { size } => after_bytes(
                    separator,
                    if size <= body.len() {
                        Some(body.take(size as int))
                    } else {
                        None
                    },
                ),
                _ => separator,
            };
            last == ReadView::Done { content: message_in(stream).0 }
        }),
{
}

/// Messages that were written one after another are read in the same order, none lost and none
/// added.
pub proof fn law_stream_reads_back(outputs: Seq<Seq<char>>)
    requires
        forall|i: int|
            0 <= i < outputs.len() ==> encode_utf8(#[trigger] outputs[i]).len() <= usize::MAX,
    ensures
        messages_in(stream_of(outputs)) == outputs,
    decreases outputs.len(),
{
    if outputs.len() == 0 {
        law_end_of_input();
        assert(outputs == Seq::<Seq<char>>::empty());
    } else {
        let tail = outputs.drop_first();
        assert forall|i: int| 0 <= i < tail.len() implies encode_utf8(#[trigger] tail[i]).len()
            <= usize::MAX by {
            assert(tail[i] == outputs[i + 1]);
        }
        law_stream_reads_back(tail);
        law_frame_reads_back(outputs[0], stream_of(tail));
        law_message_is_taken_from_the_front(stream_of(outputs));
        assert(seq![outputs[0]] + tail == outputs);
    }
}

/// At the end of the input there is no message, for there is no header.
pub proof fn law_end_of_input()
    ensures
        message_in(Seq::empty()) == (
            Err::<Seq<char>, _>(ReadError::Header(HeaderError::Empty)),
            Seq::<u8>::empty(),
        ),
{
    let empty = Seq::<u8>::empty();
    assert(empty.take(0) == empty);
    assert(valid_utf8(empty));
    assert(decode_utf8(empty).len() == 0);
}

/// Reading takes bytes off the front of the stream, at least one if there is any, and leaves the
/// others as they are, whether there is a message or not.
pub proof fn law_message_is_taken_from_the_front(stream: Seq<u8>)
    ensures
        ({
            let rest = message_in(stream).1;
            &&& rest.len() <= stream.len()
            &&& rest == stream.skip(stream.len() - rest.len())
            &&& stream.len() > 0 ==> rest.len() < stream.len()
        }),
{
    lemma_line_len_bound(stream);
    let after = after_first_line(stream);
    lemma_line_len_bound(after);
    let rest = message_in(stream).1;
    assert(rest == stream.skip(stream.len() - rest.len()));
}

/// A line is no longer than the stream, and longer than nothing if the stream is.
proof fn lemma_line_len_bound(stream: Seq<u8>)
    ensures
        line_len(stream) <= stream.len(),
        stream.len() > 0 ==> line_len(stream) > 0,
    decreases stream.len(),
{
    if stream.len() > 0 {
        lemma_line_len_bound(stream.drop_first());
    }
}

/// The first line ends with the first line feed.
pub(crate) proof fn lemma_line_len(stream: Seq<u8>, k: int)
    requires
        0 <= k < stream.len(),
        stream[k] == 10,
        forall|i: int| 0 <= i < k ==> #[trigger] stream[i] != 10,
    ensures
        line_len(stream) == k + 1,
    decreases k,
{
    if k > 0 {
        let rest = stream.drop_first();
        assert forall|i: int| 0 <= i < k - 1 implies #[trigger] rest[i] != 10 by {
            assert(rest[i] == stream[i + 1]);
        }
        assert(stream[0] != 10);
        lemma_line_len(rest, k - 1);
    }
}

/// The encoding of two texts in a row is their encodings in a row.
proof fn lemma_encode_concat(a: Seq<char>, b: Seq<char>)
    ensures
        encode_utf8(a + b) == encode_utf8(a) + encode_utf8(b),
    decreases a.len(),
{
    if a.len() == 0 {
        assert(a + b == b);
        assert(encode_utf8(a) + encode_utf8(b) == encode_utf8(b));
    } else {
        lemma_encode_concat(a.drop_first(), b);
        assert((a + b).drop_first() == a.drop_first() + b);
        assert((a + b)[0] == a[0]);
        assert(encode_utf8(a + b) == encode_utf8(a) + encode_utf8(b));
    }
}

/// A header line that was written gives the size that was written into it.
proof fn lemma_header(size: nat)
    requires
        size <= usize::MAX,
    ensures
        content_length("Content-Length: "@ + decimal(size) + "\r\n"@) == Ok::<usize, HeaderError>(
            size as usize,
        ),
{
    let line = "Content-Length: "@ + decimal(size) + "\r\n"@;
    let name = "Content-Length:"@;
    let value = decimal(size) + "\r\n"@;
    reveal_strlit("Content-Length: ");
    reveal_strlit("Content-Length:");
    reveal_strlit("content-length:");
    reveal_strlit("\r\n");
    lemma_decimal(size);
    assert(line == name.push(' ') + value);
    assert forall|i: int| 0 <= i < value.len() implies value[i] != ' ' by {
        if i < decimal(size).len() {
            assert(value[i] == decimal(size)[i]);
        }
    }
    lemma_split_pair(name, value, ' ');
    assert(lowercase(name) == "content-length:"@);
    // What is trimmed off the value is the end of the line.
    assert(value[0] == decimal(size)[0]);
    assert(trim_start(value) == value);
    assert(value.drop_last() == decimal(size).push('\r'));
    assert(value.drop_last().drop_last() == decimal(size));
    reveal_with_fuel(trim_end, 3);
    assert(!white_space(decimal(size).last()));
    assert(trim(value) == decimal(size));
    law_decimal_reads_back(size);
}

} // verus!
