use ollama_client::error::ErrorKind;
use ollama_client::session::{Phase, StreamSession};

fn line(content: Option<&str>, done: bool) -> String {
    let message = match content {
        Some(text) => format!("\"message\":{{\"role\":\"assistant\",\"content\":\"{}\"}},", text),
        None => String::new(),
    };
    format!(
        "{{{}\"done\":{},\"model\":\"llama2\",\"created_at\":\"2024-05-01T10:00:00Z\",\"total_duration_ns\":5,\"load_duration_ns\":1,\"prompt_eval_duration_ns\":2,\"eval_duration_ns\":3,\"eval_count\":4}}\n",
        message, done
    )
}

/// Feeds the chunks in order and returns the text of each record yielded,
/// with the state the session is left in.
fn run(chunks: &[&[u8]]) -> (Vec<String>, Vec<bool>, Phase, u64, usize) {
    let mut session = StreamSession::new();
    let mut texts = Vec::new();
    let mut dones = Vec::new();
    for chunk in chunks {
        for record in session.on_chunk(chunk) {
            texts.push(record.content().to_string());
            dones.push(record.done);
        }
    }
    (texts, dones, session.phase(), session.emitted_len(), session.buffered_len())
}

#[test]
fn a_new_session_awaits_its_first_record() {
    let session = StreamSession::new();
    assert_eq!(session.phase(), Phase::AwaitingFirstRecord);
    assert!(!session.is_finished());
    assert_eq!(session.emitted_len(), 0);
    assert_eq!(session.buffered_len(), 0);
}

#[test]
fn output_is_emitted_in_order_and_stops_at_the_terminal_record() {
    let input = format!("{}{}", line(Some("Hel"), false), line(Some("lo"), true));
    let mut session = StreamSession::new();
    let records = session.on_chunk(input.as_bytes());
    assert_eq!(records.len(), 2);
    assert_eq!(records[0].content(), "Hel");
    assert!(!records[0].done);
    assert_eq!(records[1].content(), "lo");
    assert!(records[1].done);
    assert_eq!(session.phase(), Phase::Done);
    assert!(session.is_finished());
    assert_eq!(session.emitted_len(), 5);
    assert!(session.on_chunk(line(Some("!"), false).as_bytes()).is_empty());
    assert_eq!(session.emitted_len(), 5);
    assert_eq!(session.on_end_of_stream(), Ok(()));
    assert_eq!(session.phase(), Phase::Done);
}

#[test]
fn phase_moves_from_awaiting_to_streaming_to_done() {
    let mut session = StreamSession::new();
    assert!(session.on_chunk(b"\n  \n").is_empty());
    assert_eq!(session.phase(), Phase::AwaitingFirstRecord);
    assert_eq!(session.on_chunk(line(Some("a"), false).as_bytes()).len(), 1);
    assert_eq!(session.phase(), Phase::Streaming);
    assert_eq!(session.on_chunk(line(None, false).as_bytes()).len(), 1);
    assert_eq!(session.phase(), Phase::Streaming);
    assert_eq!(session.on_chunk(line(Some("b"), true).as_bytes()).len(), 1);
    assert_eq!(session.phase(), Phase::Done);
}

#[test]
fn any_chunking_yields_the_same_records() {
    let stream = format!(
        "{}\n{}  \r\n{}{}",
        line(Some("h\u{e9}llo "), false),
        line(None, false),
        line(Some("\u{4e16}\u{754c}"), false),
        line(Some("!"), true)
    );
    let bytes = stream.as_bytes();
    let whole = run(&[bytes]);
    assert_eq!(whole.0, vec!["h\u{e9}llo ", "", "\u{4e16}\u{754c}", "!"]);
    assert_eq!(whole.1, vec![false, false, false, true]);
    assert_eq!(whole.2, Phase::Done);
    assert_eq!(whole.3, 14);
    assert_eq!(whole.4, 0);
    for cut in 0..=bytes.len() {
        assert_eq!(run(&[&bytes[..cut], &bytes[cut..]]), whole);
    }
    let single: Vec<&[u8]> = bytes.chunks(1).collect();
    assert_eq!(run(&single), whole);
    let triples: Vec<&[u8]> = bytes.chunks(3).collect();
    assert_eq!(run(&triples), whole);
    let uneven: Vec<&[u8]> = vec![&bytes[..1], &bytes[1..1], &bytes[1..200], &bytes[200..]];
    assert_eq!(run(&uneven), whole);
}

#[test]
fn any_chunking_fails_at_the_same_record() {
    let stream = format!("{}not json\n{}", line(Some("ok"), false), line(Some("late"), true));
    let bytes = stream.as_bytes();
    let whole = run(&[bytes]);
    assert_eq!(whole.0, vec!["ok"]);
    assert_eq!(whole.2, Phase::Failed(ErrorKind::Protocol));
    assert_eq!(whole.3, 2);
    assert_eq!(whole.4, 0);
    for cut in 0..=bytes.len() {
        assert_eq!(run(&[&bytes[..cut], &bytes[cut..]]), whole);
    }
}

#[test]
fn nothing_is_read_after_the_terminal_record() {
    let input = format!(
        "{}{}{}garbage",
        line(Some("a"), false),
        line(Some("b"), true),
        line(Some("c"), false)
    );
    let mut session = StreamSession::new();
    let records = session.on_chunk(input.as_bytes());
    assert_eq!(records.len(), 2);
    assert_eq!(records[1].content(), "b");
    assert_eq!(session.phase(), Phase::Done);
    assert_eq!(session.buffered_len(), 0);
    assert!(session.on_chunk(line(Some("d"), true).as_bytes()).is_empty());
    assert!(session.on_chunk(b"\xff\xfe\n").is_empty());
    assert_eq!(session.phase(), Phase::Done);
    assert_eq!(session.emitted_len(), 2);
}

#[test]
fn a_stream_that_ends_mid_record_is_truncated() {
    let mut session = StreamSession::new();
    assert!(session.on_chunk(b"{\"model\":\"x\"").is_empty());
    assert_eq!(session.phase(), Phase::AwaitingFirstRecord);
    assert_eq!(session.buffered_len(), 12);
    assert_eq!(session.on_end_of_stream(), Err(ErrorKind::TruncatedStream));
    assert_eq!(session.phase(), Phase::Failed(ErrorKind::TruncatedStream));
    assert_eq!(session.buffered_len(), 0);
    assert!(session.on_chunk(b"}\n").is_empty());
}

#[test]
fn a_stream_that_ends_before_the_terminal_record_is_truncated() {
    let mut session = StreamSession::new();
    assert_eq!(session.on_chunk(line(Some("a"), false).as_bytes()).len(), 1);
    assert_eq!(session.on_end_of_stream(), Err(ErrorKind::TruncatedStream));
    let mut empty = StreamSession::new();
    assert_eq!(empty.on_end_of_stream(), Err(ErrorKind::TruncatedStream));
}

#[test]
fn an_unterminated_terminal_record_is_not_yielded() {
    let text = line(Some("z"), true);
    let unterminated = &text.as_bytes()[..text.len() - 1];
    let mut session = StreamSession::new();
    assert!(session.on_chunk(unterminated).is_empty());
    assert_eq!(session.on_end_of_stream(), Err(ErrorKind::TruncatedStream));
}

#[test]
fn leftover_bytes_after_the_terminal_record_are_ignored_at_the_end() {
    let input = format!("{}{{\"model\":", line(Some("a"), true));
    let mut session = StreamSession::new();
    assert_eq!(session.on_chunk(input.as_bytes()).len(), 1);
    assert_eq!(session.on_end_of_stream(), Ok(()));
}

#[test]
fn blank_lines_between_records_are_skipped() {
    let with_blanks = format!(
        "\n\n{}\n \t \n\r\n{}\n{}\n",
        line(Some("a"), false),
        line(Some("b"), false),
        line(Some("c"), true)
    );
    let without = format!(
        "{}{}{}",
        line(Some("a"), false),
        line(Some("b"), false),
        line(Some("c"), true)
    );
    let expected = run(&[without.as_bytes()]);
    assert_eq!(expected.0, vec!["a", "b", "c"]);
    assert_eq!(expected.2, Phase::Done);
    assert_eq!(run(&[with_blanks.as_bytes()]), expected);
}

#[test]
fn a_character_split_across_chunks_is_decoded_whole() {
    let text = line(Some("caf\u{e9} \u{1F600}"), false);
    let bytes = text.as_bytes();
    let at = text.find('\u{e9}').unwrap() + 1;
    let mut session = StreamSession::new();
    assert!(session.on_chunk(&bytes[..at]).is_empty());
    assert_eq!(session.phase(), Phase::AwaitingFirstRecord);
    let records = session.on_chunk(&bytes[at..]);
    assert_eq!(records.len(), 1);
    assert_eq!(records[0].content(), "caf\u{e9} \u{1F600}");
    assert_eq!(session.phase(), Phase::Streaming);
    assert_eq!(session.emitted_len(), 10);
    let emoji = text.find('\u{1F600}').unwrap();
    for cut in emoji..emoji + 5 {
        let mut split = StreamSession::new();
        assert!(split.on_chunk(&bytes[..cut]).is_empty());
        let records = split.on_chunk(&bytes[cut..]);
        assert_eq!(records.len(), 1);
        assert_eq!(records[0].content(), "caf\u{e9} \u{1F600}");
    }
}

#[test]
fn invalid_utf8_in_a_record_fails_the_session() {
    let mut bytes = line(Some("abc"), false).into_bytes();
    let at = bytes.iter().position(|b| *b == b'b').unwrap();
    bytes[at] = 0xFF;
    let tail = line(Some("later"), true);
    bytes.extend_from_slice(tail.as_bytes());
    let mut session = StreamSession::new();
    assert!(session.on_chunk(&bytes).is_empty());
    assert_eq!(session.phase(), Phase::Failed(ErrorKind::Encoding));
    assert!(session.is_finished());
    assert_eq!(session.on_end_of_stream(), Err(ErrorKind::Encoding));
}

#[test]
fn a_record_of_the_wrong_shape_fails_the_session() {
    let input = format!("{}{{\"done\":true}}\n", line(Some("a"), false));
    let mut session = StreamSession::new();
    let records = session.on_chunk(input.as_bytes());
    assert_eq!(records.len(), 1);
    assert_eq!(session.phase(), Phase::Failed(ErrorKind::Protocol));
    assert!(session.on_chunk(line(Some("b"), true).as_bytes()).is_empty());
    assert_eq!(session.phase(), Phase::Failed(ErrorKind::Protocol));
}

#[test]
fn a_transport_failure_fails_a_running_session() {
    let mut session = StreamSession::new();
    assert_eq!(session.on_chunk(line(Some("a"), false).as_bytes()).len(), 1);
    assert!(session.on_chunk(b"{\"mod").is_empty());
    session.on_transport_error();
    assert_eq!(session.phase(), Phase::Failed(ErrorKind::Transport));
    assert_eq!(session.buffered_len(), 0);
    assert_eq!(session.emitted_len(), 1);
    assert_eq!(session.on_end_of_stream(), Err(ErrorKind::Transport));
}

#[test]
fn a_transport_failure_after_the_end_changes_nothing() {
    let mut session = StreamSession::new();
    assert_eq!(session.on_chunk(line(Some("a"), true).as_bytes()).len(), 1);
    session.on_transport_error();
    assert_eq!(session.phase(), Phase::Done);
    let mut failed = StreamSession::new();
    assert!(failed.on_chunk(b"x\n").is_empty());
    failed.on_transport_error();
    assert_eq!(failed.phase(), Phase::Failed(ErrorKind::Protocol));
}

#[test]
fn a_record_without_message_adds_no_output() {
    let input = format!("{}{}", line(None, false), line(None, true));
    let mut session = StreamSession::new();
    let records = session.on_chunk(input.as_bytes());
    assert_eq!(records.len(), 2);
    assert!(records[0].message.is_none());
    assert_eq!(records[0].content(), "");
    assert_eq!(session.emitted_len(), 0);
    assert_eq!(session.phase(), Phase::Done);
}

#[test]
fn carriage_returns_before_the_delimiter_are_tolerated() {
    let first = line(Some("a"), false).replace('\n', "\r\n");
    let second = line(Some("b"), true).replace('\n', "\r\n");
    let input = format!("{}{}", first, second);
    let (texts, _, phase, _, _) = run(&[input.as_bytes()]);
    assert_eq!(texts, vec!["a", "b"]);
    assert_eq!(phase, Phase::Done);
}

#[test]
fn an_empty_chunk_changes_nothing() {
    let mut session = StreamSession::new();
    assert!(session.on_chunk(b"{\"a").is_empty());
    assert!(session.on_chunk(b"").is_empty());
    assert_eq!(session.buffered_len(), 3);
    assert_eq!(session.phase(), Phase::AwaitingFirstRecord);
}
