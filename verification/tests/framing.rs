use rls_server::frame::{frame, read_header, read_message, HeaderError, ReadError, ReadStep};

fn read(stream: &str) -> (Result<String, ReadError>, usize) {
    read_message(stream.as_bytes())
}

#[test]
fn a_frame_counts_bytes() {
    assert_eq!(frame("{\"id\":1}"), "Content-Length: 8\r\n\r\n{\"id\":1}");
    assert_eq!(frame(""), "Content-Length: 0\r\n\r\n");
    assert_eq!(frame("\u{e9}\u{1f600}"), "Content-Length: 6\r\n\r\n\u{e9}\u{1f600}");
}

#[test]
fn a_frame_reads_back() {
    for output in ["", "x", "{\"jsonrpc\":\"2.0\"}", "a b\r\nc", "\u{e9}\u{1f600}\n"] {
        let text = frame(output);
        assert_eq!(read(&text), (Ok(output.to_string()), text.len()));
        let followed = format!("{}Content-", text);
        assert_eq!(read(&followed), (Ok(output.to_string()), text.len()));
    }
}

#[test]
fn a_stream_of_frames_reads_back_in_order() {
    let outputs = ["one", "", "{\"three\": 3}", "\u{3b4}"];
    let mut stream = String::new();
    for output in outputs {
        stream.push_str(&frame(output));
    }
    let mut rest = stream.as_bytes();
    for output in outputs {
        let (content, taken) = read_message(rest);
        assert_eq!(content, Ok(output.to_string()));
        assert!(taken > 0);
        rest = &rest[taken..];
    }
    assert_eq!(read_message(rest), (Err(ReadError::Header(HeaderError::Empty)), 0));
}

#[test]
fn the_end_of_the_input_is_no_message() {
    assert_eq!(read(""), (Err(ReadError::Header(HeaderError::Empty)), 0));
}

#[test]
fn header_lines_give_the_size() {
    assert_eq!(read_header("Content-Length: 27\r\n"), Ok(27));
    assert_eq!(read_header("content-length: 27\n"), Ok(27));
    assert_eq!(read_header("CONTENT-LENGTH: +27"), Ok(27));
    assert_eq!(read_header("Content-Length: \t0027\u{3000}\r\n"), Ok(27));
}

#[test]
fn header_lines_are_refused() {
    assert_eq!(read_header(""), Err(HeaderError::Empty));
    assert_eq!(read_header("\r\n"), Err(HeaderError::Malformed));
    assert_eq!(read_header("Content-Length:27\r\n"), Err(HeaderError::Malformed));
    assert_eq!(read_header("Content-Length:  27\r\n"), Err(HeaderError::Malformed));
    assert_eq!(read_header("Content-Length: 2 7\r\n"), Err(HeaderError::Malformed));
    assert_eq!(read_header("Content-Type: 27\r\n"), Err(HeaderError::NotContentLength));
    assert_eq!(read_header(" 27\r\n"), Err(HeaderError::NotContentLength));
    assert_eq!(read_header("Content-Length: \r\n"), Err(HeaderError::BadSize));
    assert_eq!(read_header("Content-Length: -1\r\n"), Err(HeaderError::BadSize));
    assert_eq!(read_header("Content-Length: ten\r\n"), Err(HeaderError::BadSize));
    assert_eq!(read_header("Content-Length: 18446744073709551616\r\n"), Err(HeaderError::BadSize));
}

#[test]
fn the_line_after_the_header_is_dropped_whatever_it_holds() {
    assert_eq!(read("Content-Length: 2\nanything\nab"), (Ok("ab".to_string()), 29));
    assert_eq!(read("Content-Length: 0"), (Ok(String::new()), 17));
}

#[test]
fn incomplete_or_invalid_messages_are_not_read() {
    let unreadable = Err(ReadError::Unreadable);
    assert_eq!(read("Content-Length: 3\r\n\r\nab"), (unreadable.clone(), 23));
    assert_eq!(
        read("Content-Type: 2\r\n\r\nab"),
        (Err(ReadError::Header(HeaderError::NotContentLength)), 17)
    );
    assert_eq!(
        read_message(b"Content-Length: 2\r\n\r\n\xff\xfe"),
        (Err(ReadError::NotUtf8), 23)
    );
    assert_eq!(read_message(b"Content-Length: 2\xff\r\n\r\nab"), (unreadable.clone(), 20));
    assert_eq!(read_message(b"Content-Length: 2\r\n\xff\r\nab"), (unreadable, 22));
}

#[test]
fn what_follows_content_that_is_refused_can_be_read() {
    let mut stream = b"Content-Length: 2\r\n\r\n\xff\xfe".to_vec();
    stream.extend_from_slice(frame("next").as_bytes());
    let (refused, taken) = read_message(&stream);
    assert_eq!(refused, Err(ReadError::NotUtf8));
    assert_eq!(read_message(&stream[taken..]).0, Ok("next".to_string()));
}

#[test]
fn what_follows_a_header_that_is_refused_can_be_read() {
    let stream = format!("Content-Length: ten\r\n{}", frame("next"));
    let (refused, taken) = read(&stream);
    assert_eq!(refused, Err(ReadError::Header(HeaderError::BadSize)));
    assert_eq!(taken, 21);
    assert_eq!(read(&stream[taken..]).0, Ok("next".to_string()));
}

#[test]
fn reading_goes_step_by_step() {
    let step = ReadStep::Header.line(Some("Content-Length: 2\r\n".to_string()));
    assert!(matches!(step, ReadStep::Separator { size: 2 }));
    let step = step.bytes(Some(vec![1])).line(Some("\r\n".to_string()));
    assert!(matches!(step, ReadStep::Content { size: 2 }));
    let step = step.line(None).bytes(Some(b"ok".to_vec()));
    assert!(matches!(&step, ReadStep::Done { content: Ok(s) } if s == "ok"));
    let step = step.line(None).bytes(None);
    assert!(matches!(&step, ReadStep::Done { content: Ok(s) } if s == "ok"));
}

fn failure(step: ReadStep) -> ReadError {
    match step {
        ReadStep::Done { content: Err(e) } => e,
        other => panic!("{:?}", other),
    }
}

#[test]
fn reading_stops_at_what_cannot_be_read() {
    let content = || ReadStep::Content { size: 2 };
    assert_eq!(failure(ReadStep::Header.line(None)), ReadError::Unreadable);
    assert_eq!(
        failure(ReadStep::Header.line(Some(String::new()))),
        ReadError::Header(HeaderError::Empty)
    );
    assert_eq!(failure(ReadStep::Separator { size: 2 }.line(None)), ReadError::Unreadable);
    assert_eq!(failure(content().bytes(None)), ReadError::Unreadable);
    assert_eq!(failure(content().bytes(Some(vec![0xc0, 0x80]))), ReadError::NotUtf8);
}

#[test]
fn the_content_is_as_long_as_was_asked_for() {
    let content = || ReadStep::Content { size: 2 };
    assert_eq!(failure(content().bytes(Some(b"a".to_vec()))), ReadError::Unreadable);
    assert_eq!(failure(content().bytes(Some(b"abc".to_vec()))), ReadError::Unreadable);
    assert!(matches!(content().bytes(Some(b"ab".to_vec())), ReadStep::Done { content: Ok(_) }));
}
