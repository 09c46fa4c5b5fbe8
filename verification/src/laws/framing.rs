//! How messages are written to and read from a stream of bytes.
use crate::frame::{
    after_first_line, first_line, frame, framed, header, law_frame_reads_back, lemma_line_len,
    line_len, read_header, read_message, HeaderError, ReadError, ReadStep,
};
use crate::laws::texts::lemma_split_many;
use crate::text::{
    decimal, is_digit, lemma_decimal, lemma_split_pair, lemma_split_single, lowercase, parse_usize,
    split_on, trimmed,
};
use vstd::prelude::*;
use vstd::utf8::*;

verus! {

/// What is sent is the number of bytes that the text takes, in decimal behind `Content-Length: `,
/// then the end of that line and a blank line, and then the text itself.
pub proof fn law_frame_is_a_header_and_the_text(output: &str, text: String)
    requires
        call_ensures(frame, (output,), text),
    ensures
        text@ == "Content-Length: "@ + decimal(encode_utf8(output@).len()) + "\r\n\r\n"@ + output@,
        text@ == framed(output@),
{
}

/// The same of texts that no memory holds.
pub proof fn law_header_is_the_size_and_a_blank_line(size: nat, output: Seq<char>)
    ensures
        header(size) == "Content-Length: "@ + decimal(size) + "\r\n\r\n"@,
        framed(output) == "Content-Length: "@ + decimal(encode_utf8(output).len()) + "\r\n\r\n"@
            + output,
{
}

/// In a frame the first blank line comes straight behind the size, and the text straight behind the
/// blank line.
pub proof fn law_blank_line_comes_behind_the_size(output: &str, text: String, at: int)
    requires
        call_ensures(frame, (output,), text),
        at == 16 + decimal(encode_utf8(output@).len()).len(),
    ensures
        text@.take(16) == "Content-Length: "@,
        text@.subrange(16, at) == decimal(encode_utf8(output@).len()),
        text@[at] == '\r' && text@[at + 1] == '\n' && text@[at + 2] == '\r' && text@[at + 3] == '\n',
        forall|i: int| 0 <= i < at ==> #[trigger] text@[i] != '\r' && text@[i] != '\n',
        text@.skip(at + 4) == output@,
{
    let size = encode_utf8(output@).len();
    let digits = decimal(size);
    reveal_strlit("Content-Length: ");
    reveal_strlit("\r\n\r\n");
    lemma_decimal(size);
    let head = "Content-Length: "@;
    assert(head.len() == 16);
    assert(text@.take(16) == head);
    assert(text@.subrange(16, at) == digits);
    assert forall|i: int| 0 <= i < at implies #[trigger] text@[i] != '\r' && text@[i] != '\n' by {
        if i < 16 {
            assert(text@[i] == head[i]);
        } else {
            assert(text@[i] == digits[i - 16]);
            assert(is_digit(digits[i - 16]));
        }
    }
    assert(text@.skip(at + 4) == output@);
}

/// No line is no header, and a line that has not exactly one space is malformed.
pub proof fn law_header_is_two_words(line: &str, size: Result<usize, HeaderError>)
    requires
        call_ensures(read_header, (line,), size),
    ensures
        size == Err::<usize, _>(HeaderError::Empty) <==> line@.len() == 0,
        size == Err::<usize, _>(HeaderError::Malformed) <==> line@.len() > 0 && !(exists|k: int|
            0 <= k < line@.len() && (#[trigger] line@[k]) == ' ' && (forall|i: int|
                0 <= i < line@.len() && i != k ==> #[trigger] line@[i] != ' ')),
{
    let s = line@;
    if s.len() > 0 {
        if exists|k: int|
            0 <= k < s.len() && (#[trigger] s[k]) == ' ' && (forall|i: int|
                0 <= i < s.len() && i != k ==> #[trigger] s[i] != ' ') {
            let k = choose|k: int|
                0 <= k < s.len() && (#[trigger] s[k]) == ' ' && (forall|i: int|
                    0 <= i < s.len() && i != k ==> #[trigger] s[i] != ' ');
            lemma_two_words(s, k);
        } else if exists|k: int| 0 <= k < s.len() && (#[trigger] s[k]) == ' ' {
            let k = choose|k: int| 0 <= k < s.len() && (#[trigger] s[k]) == ' ';
            let j = choose|j: int| 0 <= j < s.len() && j != k && (#[trigger] s[j]) == ' ';
            assert(0 <= j < s.len() && j != k && s[j] == ' ');
            if j < k {
                lemma_split_many(s, ' ', j, k);
            } else {
                lemma_split_many(s, ' ', k, j);
            }
        } else {
            assert(!s.contains(' '));
            lemma_split_single(s, ' ');
        }
    }
}

/// The words on either side of the one space.
proof fn lemma_two_words(s: Seq<char>, k: int)
    requires
        0 <= k < s.len(),
        s[k] == ' ',
        forall|i: int| 0 <= i < s.len() && i != k ==> #[trigger] s[i] != ' ',
    ensures
        split_on(s, ' ') == seq![s.take(k), s.skip(k + 1)],
{
    let name = s.take(k);
    let value = s.skip(k + 1);
    assert forall|i: int| 0 <= i < name.len() implies name[i] != ' ' by {
        assert(name[i] == s[i]);
    }
    assert forall|i: int| 0 <= i < value.len() implies value[i] != ' ' by {
        assert(value[i] == s[i + k + 1]);
    }
    lemma_split_pair(name, value, ' ');
    assert(name.push(' ') + value == s);
}

/// Of two words with one space between them, the first has to be `Content-Length:` in any mixture of
/// capital and small letters. The size is then the number that the second is once it is trimmed, and
/// there is none if it is no number.
pub proof fn law_header_gives_the_number_behind_its_name(
    line: &str,
    k: int,
    name: &Vec<char>,
    value: &Vec<char>,
    inner: Vec<char>,
    number: Option<usize>,
    size: Result<usize, HeaderError>,
)
    requires
        call_ensures(read_header, (line,), size),
        0 <= k < line@.len(),
        line@[k] == ' ',
        forall|i: int| 0 <= i < line@.len() && i != k ==> #[trigger] line@[i] != ' ',
        name@ == line@.take(k),
        value@ == line@.skip(k + 1),
        call_ensures(trimmed, (value,), inner),
        call_ensures(parse_usize, (&inner,), number),
    ensures
        size == Err::<usize, _>(HeaderError::NotContentLength) <==> !({
            let small = "content-length:"@;
            &&& k == 15
            &&& forall|i: int|
                0 <= i < 15 ==> {
                    ||| (#[trigger] name@[i]) == small[i]
                    ||| 'A' <= name@[i] <= 'Z' && small[i] as int == name@[i] as int + 32
                }
        }),
        size == Err::<usize, _>(HeaderError::NotContentLength) || size == (match number {
            Some(n) => Ok::<usize, HeaderError>(n),
            None => Err(HeaderError::BadSize),
        }),
{
    lemma_two_words(line@, k);
    let small = "content-length:"@;
    reveal_strlit("content-length:");
    assert(small.len() == 15);
    assert forall|i: int| 0 <= i < 15 implies !('A' <= #[trigger] small[i] <= 'Z') by {}
    let lower = lowercase(name@);
    let matches = k == 15 && forall|i: int|
        0 <= i < 15 ==> {
            ||| (#[trigger] name@[i]) == small[i]
            ||| 'A' <= name@[i] <= 'Z' && small[i] as int == name@[i] as int + 32
        };
    if matches {
        assert forall|i: int| 0 <= i < 15 implies lower[i] == small[i] by {
            assert(name@[i] == name@[i]);
            assert(!('A' <= small[i] <= 'Z'));
        }
        assert(lower == small);
    } else if lower == small {
        assert forall|i: int| 0 <= i < 15 implies {
            ||| (#[trigger] name@[i]) == small[i]
            ||| 'A' <= name@[i] <= 'Z' && small[i] as int == name@[i] as int + 32
        } by {
            assert(lower[i] == small[i]);
        }
    }
}

/// The first line gives the size, or there is no message.
pub proof fn law_first_line_is_the_header(
    line: String,
    text: &str,
    size: Result<usize, HeaderError>,
    next: ReadStep,
)
    requires
        text@ == line@,
        call_ensures(read_header, (text,), size),
        call_ensures(ReadStep::line, (ReadStep::Header, Some(line)), next),
    ensures
        match size {
            Ok(n) => next == (ReadStep::Separator { size: n }),
            Err(e) => next matches ReadStep::Done { content: Err(error) } && error
                == ReadError::Header(e),
        },
{
}

/// The second line is dropped whatever it holds, and the content is then as long as the first line
/// said. Without a line there is no message. A step that wants no line stays as it is.
pub proof fn law_lines_lead_to_the_content(step: ReadStep, line: Option<String>, next: ReadStep)
    requires
        call_ensures(ReadStep::line, (step, line), next),
    ensures
        step matches ReadStep::Separator { size } ==> (line is Some ==> next == (
        ReadStep::Content { size })),
        (step is Header || step is Separator) && line is None ==> (next matches ReadStep::Done {
            content: Err(error),
        } && error == ReadError::Unreadable),
        step matches ReadStep::Content { size } ==> next == (ReadStep::Content { size }),
        step matches ReadStep::Done { content } ==> (next matches ReadStep::Done { content: kept }
            && match (content, kept) {
            (Ok(a), Ok(b)) => a@ == b@,
            (Err(a), Err(b)) => a == b,
            _ => false,
        }),
{
}

/// The content is the text that the bytes encode, if they are as many as the header said and
/// valid. A step that wants no bytes stays as it is.
pub proof fn law_bytes_are_the_content(step: ReadStep, bytes: Option<Vec<u8>>, next: ReadStep)
    requires
        call_ensures(ReadStep::bytes, (step, bytes), next),
    ensures
        step matches ReadStep::Content { size } ==> (next matches ReadStep::Done { content }
            && match bytes {
            Some(bytes) if bytes@.len() == size => if valid_utf8(bytes@) {
                content matches Ok(text) && text@ == decode_utf8(bytes@)
            } else {
                content matches Err(error) && error == ReadError::NotUtf8
            },
            _ => content matches Err(error) && error == ReadError::Unreadable,
        }),
        step is Header ==> next is Header,
        step matches ReadStep::Separator { size } ==> next == (ReadStep::Separator { size }),
        step matches ReadStep::Done { content } ==> (next matches ReadStep::Done { content: kept }
            && match (content, kept) {
            (Ok(a), Ok(b)) => a@ == b@,
            (Err(a), Err(b)) => a == b,
            _ => false,
        }),
{
}

/// Whether `line` is the line that a stream starts with, if `rest` is what follows it: it ends with
/// the only line feed in it, or with the stream.
pub open spec fn is_line(line: Seq<u8>, rest: Seq<u8>) -> bool {
    &&& forall|i: int| 0 <= i < line.len() - 1 ==> #[trigger] line[i] != 10
    &&& line.len() == 0 || line.last() != 10 ==> rest.len() == 0
}

proof fn lemma_line(line: Seq<u8>, rest: Seq<u8>)
    requires
        is_line(line, rest),
    ensures
        line_len(line + rest) == line.len(),
        after_first_line(line + rest) == rest,
        first_line(line + rest) == (if valid_utf8(line) {
            Some(decode_utf8(line))
        } else {
            None
        }),
{
    let stream = line + rest;
    if line.len() > 0 && line.last() == 10 {
        assert forall|i: int| 0 <= i < line.len() - 1 implies #[trigger] stream[i] != 10 by {
            assert(stream[i] == line[i]);
        }
        lemma_line_len(stream, line.len() - 1);
    } else {
        assert(stream == line);
        assert forall|i: int| 0 <= i < line.len() implies #[trigger] line[i] != 10 by {}
        lemma_endless(line);
    }
    assert(stream.take(line.len() as int) == line);
    assert(stream.skip(line.len() as int) == rest);
}

/// A stream without a line feed is one line.
proof fn lemma_endless(stream: Seq<u8>)
    requires
        forall|i: int| 0 <= i < stream.len() ==> #[trigger] stream[i] != 10,
    ensures
        line_len(stream) == stream.len(),
    decreases stream.len(),
{
    if stream.len() > 0 {
        let rest = stream.drop_first();
        assert forall|i: int| 0 <= i < rest.len() implies #[trigger] rest[i] != 10 by {
            assert(rest[i] == stream[i + 1]);
        }
        assert(stream[0] != 10);
        lemma_endless(rest);
    }
}

/// Behind a header line that gives a size and one line more, so many bytes are the message, and
/// nothing behind them is taken. If they are not valid UTF-8 there is no message, but they are taken.
/// If there are fewer there is no message, and all are taken.
pub proof fn law_messages_are_read(
    stream: &[u8],
    line: Seq<u8>,
    separator: Seq<u8>,
    body: Seq<u8>,
    heading: &str,
    size: usize,
    read: (Result<String, ReadError>, usize),
)
    requires
        stream@ == line + (separator + body),
        is_line(line, separator + body),
        is_line(separator, body),
        valid_utf8(line),
        valid_utf8(separator),
        heading@ == decode_utf8(line),
        call_ensures(read_header, (heading,), Ok(size)),
        call_ensures(read_message, (stream,), read),
    ensures
        size <= body.len() ==> read.1 == line.len() + separator.len() + size,
        size <= body.len() && valid_utf8(body.take(size as int)) ==> (read.0 matches Ok(content)
            && content@ == decode_utf8(body.take(size as int))),
        size <= body.len() && !valid_utf8(body.take(size as int)) ==> read.0 == Err::<String, _>(
            ReadError::NotUtf8,
        ),
        size > body.len() ==> read == (Err::<String, _>(ReadError::Unreadable), stream@.len() as usize),
{
    lemma_line(line, separator + body);
    lemma_line(separator, body);
    lemma_taken(stream@, read.1 as int);
}

/// How much was taken is what is missing from the rest.
proof fn lemma_taken(stream: Seq<u8>, taken: int)
    requires
        0 <= taken <= stream.len(),
    ensures
        stream.skip(taken).len() == stream.len() - taken,
{
}

/// Of a header line that is refused, or that is no text, the line is taken and nothing behind it.
/// Where there is nothing at all, nothing is taken.
pub proof fn law_refused_lines_are_taken(
    stream: &[u8],
    line: Seq<u8>,
    rest: Seq<u8>,
    heading: &str,
    error: HeaderError,
    read: (Result<String, ReadError>, usize),
)
    requires
        stream@ == line + rest,
        is_line(line, rest),
        valid_utf8(line) ==> heading@ == decode_utf8(line) && call_ensures(
            read_header,
            (heading,),
            Err(error),
        ),
        call_ensures(read_message, (stream,), read),
    ensures
        read.1 == line.len(),
        valid_utf8(line) ==> read.0 == Err::<String, _>(ReadError::Header(error)),
        !valid_utf8(line) ==> read.0 == Err::<String, _>(ReadError::Unreadable),
{
    lemma_line(line, rest);
    lemma_taken(stream@, read.1 as int);
}

/// Of a message whose second line is no text, both lines are taken and nothing behind them.
pub proof fn law_unreadable_lines_are_taken(
    stream: &[u8],
    line: Seq<u8>,
    separator: Seq<u8>,
    body: Seq<u8>,
    heading: &str,
    size: usize,
    read: (Result<String, ReadError>, usize),
)
    requires
        stream@ == line + (separator + body),
        is_line(line, separator + body),
        is_line(separator, body),
        valid_utf8(line),
        !valid_utf8(separator),
        heading@ == decode_utf8(line),
        call_ensures(read_header, (heading,), Ok(size)),
        call_ensures(read_message, (stream,), read),
    ensures
        read == (
            Err::<String, _>(ReadError::Unreadable),
            (line.len() + separator.len()) as usize,
        ),
{
    lemma_line(line, separator + body);
    lemma_line(separator, body);
    lemma_taken(stream@, read.1 as int);
}

/// What is framed is read back, and no byte more is taken than the frame has.
pub proof fn law_frames_are_read_back(
    output: &str,
    text: String,
    rest: Seq<u8>,
    stream: &[u8],
    read: (Result<String, ReadError>, usize),
)
    requires
        encode_utf8(output@).len() <= usize::MAX,
        call_ensures(frame, (output,), text),
        stream@ == encode_utf8(text@) + rest,
        call_ensures(read_message, (stream,), read),
    ensures
        read.0 matches Ok(content) && content@ == output@,
        read.1 == encode_utf8(text@).len(),
{
    law_frame_reads_back(output@, rest);
    lemma_taken(stream@, read.1 as int);
}

} // verus!
