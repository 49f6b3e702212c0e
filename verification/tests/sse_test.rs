use self_llm::sse::{extract_sse_data, normalize_newlines, SseBuffer};

fn chars(s: &str) -> Vec<char> {
    s.chars().collect()
}

#[test]
fn data_lines_are_joined_and_other_fields_ignored() {
    assert_eq!(extract_sse_data(&chars("data: hello")), Some("hello".to_string()));
    assert_eq!(extract_sse_data(&chars("event: x\ndata:a\ndata:  b\nid: 3")), Some("a\n b".to_string()));
    assert_eq!(extract_sse_data(&chars(": comment\nevent: ping")), None);
    assert_eq!(extract_sse_data(&chars("")), None);
    assert_eq!(extract_sse_data(&chars("data:")), Some(String::new()));
    assert_eq!(extract_sse_data(&chars("data: a\r\ndata: b\r")), Some("a\nb\r".to_string()));
    assert_eq!(extract_sse_data(&chars("xdata: a")), None);
}

#[test]
fn crlf_is_normalized() {
    assert_eq!(normalize_newlines(&b"a\r\nb\r\r\n\n\r".to_vec()), b"a\nb\r\n\n\r".to_vec());
    assert_eq!(normalize_newlines(&Vec::new()), Vec::<u8>::new());
}

#[test]
fn buffer_yields_payloads_of_complete_blocks_only() {
    let mut b = SseBuffer::new();
    assert_eq!(b.next_data(), None);
    b.push_chunk(b"data: {\"a\":1}\n\nevent: ping\n\ndata: sec");
    assert_eq!(b.next_data(), Some("{\"a\":1}".to_string()));
    // The ping block has no data and is skipped; the last block is incomplete.
    assert_eq!(b.next_data(), None);
    b.push_chunk(b"ond\r\n\r\ndata: [DONE]\n\n");
    assert_eq!(b.next_data(), Some("second".to_string()));
    assert_eq!(b.next_data(), Some("[DONE]".to_string()));
    assert_eq!(b.next_data(), None);
}

#[test]
fn blocks_are_cut_at_the_first_blank_line() {
    let mut b = SseBuffer::new();
    b.push_chunk(b"data: a\ndata: b\n\ndata: c\n\n\ndata: d");
    assert_eq!(b.next_data(), Some("a\nb".to_string()));
    assert_eq!(b.next_data(), Some("c".to_string()));
    assert_eq!(b.next_data(), None);
    b.push_chunk(b"\n\n");
    // The extra line feed starts the next block with an empty line.
    assert_eq!(b.next_data(), Some("d".to_string()));
    assert_eq!(b.next_data(), None);
}

#[test]
fn crlf_split_between_chunks_still_ends_the_block() {
    let mut one = SseBuffer::new();
    one.push_chunk(b"data:\r\n\r\n");
    assert_eq!(one.next_data(), Some(String::new()));
    let mut two = SseBuffer::new();
    two.push_chunk(b"data:\r\n\r");
    assert_eq!(two.next_data(), None);
    two.push_chunk(b"\n");
    assert_eq!(two.next_data(), Some(String::new()));
    assert_eq!(two.next_data(), None);
    // A following event stays a separate payload.
    let mut three = SseBuffer::new();
    three.push_chunk(b"data: x\r");
    three.push_chunk(b"\n\r");
    three.push_chunk(b"\ndata: y\r\n\r\n");
    assert_eq!(three.next_data(), Some("x".to_string()));
    assert_eq!(three.next_data(), Some("y".to_string()));
    assert_eq!(three.next_data(), None);
}

#[test]
fn multibyte_character_split_between_chunks_is_kept() {
    let mut b = SseBuffer::new();
    b.push_chunk(b"data: caf\xc3");
    b.push_chunk(b"\xa9\n\n");
    assert_eq!(b.next_data(), Some("caf\u{e9}".to_string()));
    let body = "data: 你好\n\n".as_bytes();
    for cut in 0..=body.len() {
        let mut c = SseBuffer::new();
        c.push_chunk(&body[..cut]);
        c.push_chunk(&body[cut..]);
        assert_eq!(c.next_data(), Some("你好".to_string()));
    }
}

#[test]
fn invalid_utf8_in_a_block_is_replaced() {
    let mut b = SseBuffer::new();
    b.push_chunk(b"data: a\xffb\n\n");
    assert_eq!(b.next_data(), Some("a\u{fffd}b".to_string()));
    // A truncated sequence at the end of a block is replaced too.
    let mut c = SseBuffer::new();
    c.push_chunk(b"data: caf\xc3\n\n");
    assert_eq!(c.next_data(), Some("caf\u{fffd}".to_string()));
}

#[test]
fn single_data_line_roundtrip() {
    for x in ["", "plain", " leading", "{\"k\":\"v\"}", "ünïcode"] {
        let mut b = SseBuffer::new();
        b.push_chunk(format!("data: {x}\n\n").as_bytes());
        assert_eq!(b.next_data(), Some(x.to_string()));
        assert_eq!(b.next_data(), None);
    }
}

use self_llm::error::Error;
use self_llm::sse::{EventStream, Poll, SseAction};

fn payload(p: Poll) -> Option<String> {
    match p {
        Poll::Payload(d) => Some(d),
        _ => None,
    }
}

#[test]
fn event_stream_state_machine() {
    let mut s = EventStream::new();
    assert!(matches!(s.poll(), Poll::NeedBytes));
    s.on_bytes(b"data: 1\n\ndata: 2\n\ndata: 3\n\n");
    assert_eq!(payload(s.poll()), Some("1".to_string()));
    assert_eq!(s.on_action::<u32>(SseAction::Yield(Ok(1))), Some(Ok(1)));
    assert_eq!(payload(s.poll()), Some("2".to_string()));
    assert_eq!(s.on_action::<u32>(SseAction::Skip), None);
    assert_eq!(payload(s.poll()), Some("3".to_string()));
    assert_eq!(s.on_action::<u32>(SseAction::Done), None);
    // Done ends the stream even with more input.
    s.on_bytes(b"data: 4\n\n");
    assert!(matches!(s.poll(), Poll::End));
}

#[test]
fn event_stream_ends_on_read_error_and_body_end() {
    let mut s = EventStream::new();
    assert_eq!(s.on_read_error("reset".to_string()), Error::Http("reset".to_string()));
    assert!(matches!(s.poll(), Poll::End));
    let mut t = EventStream::new();
    t.on_bytes(b"data: x");
    assert!(matches!(t.poll(), Poll::NeedBytes));
    t.on_body_end();
    assert!(matches!(t.poll(), Poll::End));
}

/// Drives a stream as the transport does, with a parser that hands every payload out and
/// ends the stream on "[DONE]"; `None` stands for a failed read.
fn drive(chunks: &[Option<&[u8]>]) -> Vec<Result<String, Error>> {
    let mut s = EventStream::new();
    let mut out = Vec::new();
    let mut next = 0;
    loop {
        match s.poll() {
            Poll::Payload(d) => {
                let action = if d == "[DONE]" { SseAction::Done } else { SseAction::Yield(Ok(d)) };
                if let Some(item) = s.on_action(action) {
                    out.push(item);
                }
            }
            Poll::NeedBytes => {
                if next == chunks.len() {
                    s.on_body_end();
                } else {
                    match chunks[next] {
                        Some(c) => s.on_bytes(c),
                        None => out.push(Err(s.on_read_error("reset".to_string()))),
                    }
                    next += 1;
                }
            }
            Poll::End => return out,
        }
    }
}

#[test]
fn payloads_do_not_depend_on_chunking() {
    let body = "event: a\r\ndata: 1\r\n\r\n: note\n\ndata: zwei\ndata: drei\n\ndata: 你\r\n\r\ndata: [DONE]\n\ndata: late\n\n".as_bytes();
    let whole = drive(&[Some(body)]);
    assert_eq!(
        whole,
        vec![Ok("1".to_string()), Ok("zwei\ndrei".to_string()), Ok("你".to_string())]
    );
    for i in 0..=body.len() {
        for j in i..=body.len() {
            let got = drive(&[Some(&body[..i]), Some(&body[i..j]), Some(&body[j..])]);
            assert_eq!(got, whole, "split at {i} and {j}");
        }
    }
    let bytewise: Vec<Option<&[u8]>> = body.chunks(1).map(Some).collect();
    assert_eq!(drive(&bytewise), whole);
}

#[test]
fn nothing_is_parsed_after_a_read_error_or_from_an_unterminated_tail() {
    let got = drive(&[Some(b"data: 1\n\ndata: 2"), None, Some(b"\n\ndata: 3\n\n")]);
    assert_eq!(got, vec![Ok("1".to_string()), Err(Error::Http("reset".to_string()))]);
    let tail = drive(&[Some(b"data: 1\n\ndata: 2\n")]);
    assert_eq!(tail, vec![Ok("1".to_string())]);
}

#[test]
fn read_error_is_handed_out_once_unless_done_came_first() {
    let got = drive(&[Some(b"data: 1\n\n"), Some(b"data: 2\n\n"), None, None, Some(b"data: 3\n\n")]);
    assert_eq!(
        got,
        vec![Ok("1".to_string()), Ok("2".to_string()), Err(Error::Http("reset".to_string()))]
    );
    let done_first = drive(&[Some(b"data: 1\n\ndata: [DONE]\n\n"), None]);
    assert_eq!(done_first, vec![Ok("1".to_string())]);
}
