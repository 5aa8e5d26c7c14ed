use ghostwriter::client::{
    after_attempt, body_read_failure, chat_messages, chat_request, clip, completions_url,
    models_from_response, models_url, send_failure, status_failure, AttemptError, Completion,
    RetryStep, SseTail, StreamEvent, StreamStep, StreamText, MAX_ATTEMPTS,
};
use ghostwriter::config::Span;

fn sse_chunk(text: &str, finish: Option<&str>) -> String {
    let finish = match finish {
        Some(f) => serde_json::to_string(f).unwrap(),
        None => "null".to_string(),
    };
    format!(
        "data: {{\"choices\":[{{\"delta\":{{\"content\":{}}},\"finish_reason\":{}}}]}}\n\n",
        serde_json::to_string(text).unwrap(),
        finish
    )
}

#[test]
fn sse_accumulates_deltas_across_chunk_splits() {
    let mut sse = SseTail::new();
    let stream = format!(
        "{}{}{}",
        sse_chunk("Hello ", None),
        sse_chunk("world", Some("stop")),
        "data: [DONE]\n\n"
    );
    // Feed it one byte at a time: line buffering must survive any split.
    for b in stream.as_bytes() {
        sse.push(&[*b]).unwrap();
    }
    let c = sse.finish("test").unwrap();
    assert_eq!(c.text, "Hello world");
    assert!(!c.truncated);
}

#[test]
fn sse_flags_length_truncation() {
    let mut sse = SseTail::new();
    sse.push(sse_chunk("cut off here", Some("length")).as_bytes())
        .unwrap();
    sse.push(b"data: [DONE]\n\n").unwrap();
    let c = sse.finish("test").unwrap();
    assert!(c.truncated);
    assert_eq!(c.text, "cut off here");
}

#[test]
fn sse_rejects_broken_json_and_missing_done() {
    let mut sse = SseTail::new();
    assert!(sse.push(b"data: {not json}\n\n").is_err());

    let mut sse = SseTail::new();
    sse.push(sse_chunk("half a story", None).as_bytes())
        .unwrap();
    // EOF without the sentinel: partial text must not pass as complete.
    assert!(sse.finish("test").is_err());
}

/// Any split of the same stream gives the same completion.
#[test]
fn every_split_point_gives_the_same_text() {
    let stream = format!(
        ": keep-alive\n{}event: message\n{}data:[DONE]\r\n",
        sse_chunk("Grüße, ", None),
        sse_chunk("Welt — ✓", Some("stop")),
    );
    let bytes = stream.as_bytes();
    for cut in 0..=bytes.len() {
        let mut sse = SseTail::new();
        sse.push(&bytes[..cut]).unwrap();
        sse.push(&bytes[cut..]).unwrap();
        let c = sse.finish("u").unwrap();
        assert_eq!(c.text, "Grüße, Welt — ✓", "split at {cut}");
    }
}

#[test]
fn sse_ignores_comments_fields_and_choiceless_chunks() {
    let mut sse = SseTail::new();
    sse.push(b": comment\nevent: x\nid: 4\n\n").unwrap();
    sse.push(b"data: {\"choices\":[]}\n").unwrap();
    sse.push(b"data: {\"other\":1}\n").unwrap();
    sse.push(b"data: {\"choices\":[{\"delta\":{}}]}\n").unwrap();
    sse.push(b"  data:   {\"choices\":[{\"delta\":{\"content\":\"x\"}}]}   \n").unwrap();
    assert!(!sse.is_done());
    sse.push(b"data: [DONE]").unwrap();
    assert!(!sse.is_done()); // the line is not complete yet
    sse.push(b"\n").unwrap();
    assert!(sse.is_done());
    let c = sse.finish("u").unwrap();
    assert_eq!(c.text, "x");
}

#[test]
fn broken_chunk_message_quotes_payload_and_parser() {
    let mut sse = SseTail::new();
    let err = sse.push(b"data: {not json}\n").unwrap_err();
    assert!(err.starts_with("unparseable SSE chunk: {not json} ("), "{err}");
    assert!(err.ends_with(')'));
}

#[test]
fn missing_done_reports_bytes_received() {
    let mut sse = SseTail::new();
    sse.push(sse_chunk("héllo", None).as_bytes()).unwrap();
    match sse.finish("http://h/v1/chat/completions") {
        Err(AttemptError::Fatal(m)) => assert_eq!(
            m,
            "stream from http://h/v1/chat/completions ended before [DONE] (6 chars received)"
        ),
        other => panic!("unexpected {other:?}"),
    }
}

fn finished(step: StreamStep) -> Result<Completion, AttemptError> {
    match step {
        StreamStep::Finished(r) => r,
        StreamStep::Continue => panic!("stream should have finished"),
    }
}

#[test]
fn stream_completes_end_to_end() {
    let mut sse = SseTail::new();
    assert!(!sse.bytes_seen());
    let step = sse.on_event("u", 60, StreamEvent::Chunk(sse_chunk("Rewritten: ", None).into_bytes()));
    assert!(matches!(step, StreamStep::Continue));
    assert!(sse.bytes_seen());
    let step = sse.on_event(
        "u",
        60,
        StreamEvent::Chunk(format!("{}data: [DONE]\n\n", sse_chunk("the text.", Some("stop"))).into_bytes()),
    );
    let c = finished(step).unwrap();
    assert_eq!(c.text, "Rewritten: the text.");
    assert!(!c.truncated);
}

/// First delta arrives, then silence: the stall is fatal and keeps the
/// progress count.
#[test]
fn stalled_stream_is_killed_without_resend() {
    let mut sse = SseTail::new();
    let step = sse.on_event("http://x", 1, StreamEvent::Chunk(sse_chunk("slow ", None).into_bytes()));
    assert!(matches!(step, StreamStep::Continue));
    let err = match finished(sse.on_event("http://x", 1, StreamEvent::Stalled)) {
        Err(AttemptError::Fatal(m)) => m,
        other => panic!("unexpected {other:?}"),
    };
    assert!(err.contains("stalled"), "unexpected error: {err}");
    assert!(err.contains("5 chars received"), "lost progress count: {err}");
    assert_eq!(err, "stream from http://x stalled: no bytes within 1s (5 chars received)");
    match after_attempt(0, Err(AttemptError::Fatal(err))) {
        RetryStep::Done(Err(e)) => assert!(!e.contains("after 2 attempts"), "stall resent: {e}"),
        other => panic!("unexpected {other:?}"),
    }
}

#[test]
fn read_failures_are_retryable_only_before_text() {
    let mut sse = SseTail::new();
    let r = finished(sse.on_event(
        "u",
        60,
        StreamEvent::Failed { detail: "connection reset".into(), timed_out: false },
    ));
    match r {
        Err(AttemptError::Retryable(m)) => assert_eq!(m, "stream from u failed: connection reset"),
        other => panic!("unexpected {other:?}"),
    }
    let mut sse = SseTail::new();
    let r = finished(sse.on_event("u", 60, StreamEvent::Failed { detail: "timed out".into(), timed_out: true }));
    assert!(matches!(r, Err(AttemptError::Fatal(_))));
    let mut sse = SseTail::new();
    sse.on_event("u", 60, StreamEvent::Chunk(sse_chunk("a", None).into_bytes()));
    let r = finished(sse.on_event("u", 60, StreamEvent::Failed { detail: "reset".into(), timed_out: false }));
    assert!(matches!(r, Err(AttemptError::Fatal(_))));
    let mut sse = SseTail::new();
    let r = finished(sse.on_event("u", 60, StreamEvent::End));
    assert!(matches!(r, Err(AttemptError::Fatal(_))));
}

/// A 4xx other than 429 fails on the first attempt, with no resend.
#[test]
fn fatal_4xx_is_not_retried() {
    let e = status_failure(400, "http://h/chat/completions", "{\"error\":\"status 400\"}");
    assert!(matches!(e, AttemptError::Fatal(_)));
    match after_attempt(0, Err(e)) {
        RetryStep::Done(Err(err)) => {
            assert!(err.contains("HTTP 400"), "unexpected error: {err}");
            assert!(!err.contains("after 2 attempts"), "4xx retried: {err}");
            assert_eq!(
                err,
                "hemmingway-1 request failed: HTTP 400 from http://h/chat/completions: {\"error\":\"status 400\"}"
            );
        }
        other => panic!("unexpected {other:?}"),
    }
}

/// 5xx gets exactly one resend, then the error surfaces.
#[test]
fn server_error_5xx_is_retried_once() {
    assert_eq!(MAX_ATTEMPTS, 2);
    let first = after_attempt(0, Err(status_failure(500, "u", "boom")));
    let last = match first {
        RetryStep::Again { last_error } => last_error,
        other => panic!("unexpected {other:?}"),
    };
    assert_eq!(last, "HTTP 500 from u: boom");
    match after_attempt(1, Err(status_failure(500, "u", "boom"))) {
        RetryStep::Done(Err(err)) => {
            assert!(err.contains("after 2 attempts"), "unexpected error: {err}");
            assert_eq!(err, "hemmingway-1 request failed after 2 attempts: HTTP 500 from u: boom");
        }
        other => panic!("unexpected {other:?}"),
    }
    assert!(matches!(status_failure(429, "u", ""), AttemptError::Retryable(_)));
    assert!(matches!(status_failure(503, "u", ""), AttemptError::Retryable(_)));
    assert!(matches!(status_failure(404, "u", ""), AttemptError::Fatal(_)));
}

#[test]
fn empty_completion_is_resent_then_reported() {
    let empty = || Completion { text: String::new(), truncated: false };
    assert!(matches!(after_attempt(0, Ok(empty())), RetryStep::Again { .. }));
    match after_attempt(1, Ok(empty())) {
        RetryStep::Done(Err(e)) => {
            assert_eq!(e, "hemmingway-1 request failed after 2 attempts: empty completion from server")
        }
        other => panic!("unexpected {other:?}"),
    }
    match after_attempt(0, Ok(Completion { text: "ok".into(), truncated: true })) {
        RetryStep::Done(Ok(c)) => assert!(c.truncated && c.text == "ok"),
        other => panic!("unexpected {other:?}"),
    }
}

/// The overall timeout before headers is not resent into the same queue.
#[test]
fn overall_timeout_is_not_resent() {
    let e = send_failure("http://h/chat/completions", "operation timed out", true);
    match after_attempt(0, Err(e)) {
        RetryStep::Done(Err(err)) => {
            assert!(err.contains("request to"), "unexpected error: {err}");
            assert!(!err.contains("after 2 attempts"), "timeout resent: {err}");
        }
        other => panic!("unexpected {other:?}"),
    }
    match send_failure("u", "connection refused", false) {
        AttemptError::Retryable(m) => assert_eq!(m, "request to u failed: connection refused"),
        other => panic!("unexpected {other:?}"),
    }
    match body_read_failure("eof") {
        AttemptError::Retryable(m) => assert_eq!(m, "reading response body failed: eof"),
        other => panic!("unexpected {other:?}"),
    }
}

#[test]
fn clip_keeps_short_text_and_cuts_long_text_at_a_boundary() {
    assert_eq!(clip("short"), "short");
    let exact = "a".repeat(500);
    assert_eq!(clip(&exact), exact);
    let long = "b".repeat(501);
    assert_eq!(clip(&long), format!("{}…", "b".repeat(500)));
    // 499 ASCII bytes then a 2-byte char: it would end at byte 501.
    let s = format!("{}é tail", "c".repeat(499));
    assert_eq!(clip(&s), format!("{}…", "c".repeat(499)));
    let s = format!("{}é tail", "c".repeat(498));
    assert_eq!(clip(&s), format!("{}é…", "c".repeat(498)));
}

#[test]
fn models_are_read_from_the_data_array() {
    let ids = models_from_response(
        "u",
        200,
        "{\"object\":\"list\",\"data\":[{\"id\":\"hemmingway-1\"},{\"id\":7},{\"name\":\"x\"},{\"id\":\"b\"}]}",
    )
    .unwrap();
    assert_eq!(ids, vec!["hemmingway-1".to_string(), "b".to_string()]);
    assert_eq!(models_from_response("u", 200, "{}").unwrap(), Vec::<String>::new());
    assert_eq!(models_from_response("u", 200, "{\"data\":{}}").unwrap(), Vec::<String>::new());
    assert!(models_from_response("u", 200, "nope").unwrap_err().starts_with("unparseable /models body: "));
    assert_eq!(models_from_response("u", 503, "down").unwrap_err(), "HTTP 503 from u: down");
}

#[test]
fn request_shape() {
    assert_eq!(completions_url("http://h/v1"), "http://h/v1/chat/completions");
    assert_eq!(models_url("http://h/v1"), "http://h/v1/models");
    let m = chat_messages("sys", "usr");
    assert_eq!(m.len(), 2);
    assert_eq!((m[0].role.as_str(), m[0].content.as_str()), ("system", "sys"));
    assert_eq!((m[1].role.as_str(), m[1].content.as_str()), ("user", "usr"));
    let m = chat_messages("", "usr");
    assert_eq!(m.len(), 1);
    assert_eq!(m[0].role, "user");
}

#[test]
fn invalid_utf8_in_a_line_is_replaced_not_fatal() {
    let mut sse = SseTail::new();
    let mut line = b"data: {\"choices\":[{\"delta\":{\"content\":\"a".to_vec();
    line.push(0xFF);
    line.extend_from_slice(b"b\"}}]}\n");
    sse.push(&line).unwrap();
    sse.push(b"data: [DONE]\n").unwrap();
    assert_eq!(sse.finish("u").unwrap().text, "a\u{FFFD}b");
}

#[test]
fn request_body_fields() {
    let r = chat_request("hemmingway-1", "sys", "usr", 512, 0.3f32.to_bits());
    assert_eq!(r.model, "hemmingway-1");
    assert_eq!(r.messages.len(), 2);
    assert_eq!((r.messages[0].role.as_str(), r.messages[0].content.as_str()), ("system", "sys"));
    assert_eq!((r.messages[1].role.as_str(), r.messages[1].content.as_str()), ("user", "usr"));
    assert_eq!(r.max_tokens, 512);
    assert_eq!(f32::from_bits(r.temperature_bits), 0.3);
    assert!(r.stream);
    let r = chat_request("m", "", "only user", 1, 0);
    assert_eq!(r.messages.len(), 1);
    assert_eq!(r.messages[0].role, "user");
}

/// Silence before the first body byte is normal (the request is queued):
/// no idle deadline applies until a byte has arrived.
#[test]
fn idle_deadline_starts_with_the_first_byte() {
    let idle = Span { secs: 0, subsec_nanos: 200_000_000 };
    let mut sse = SseTail::new();
    assert_eq!(sse.next_wait(idle), None);
    let step = sse.on_event("u", 0, StreamEvent::Chunk(b": keep-alive\n".to_vec()));
    assert!(matches!(step, StreamStep::Continue));
    assert_eq!(sse.next_wait(idle), Some(idle));
}

/// Any split of a body into any number of parts reads the same.
#[test]
fn pushing_in_many_parts_equals_one_push() {
    let stream = format!(
        "{}{}{}",
        sse_chunk("one ", None),
        sse_chunk("two", Some("length")),
        "data: [DONE]\n\npartial"
    );
    let bytes = stream.as_bytes();
    let mut whole = SseTail::new();
    whole.push(bytes).unwrap();
    for cuts in [vec![3usize, 40, 41, 90], vec![1, 2, 3], vec![10, 60, 110, 130]] {
        let mut parts = SseTail::new();
        let mut from = 0;
        for c in cuts.into_iter().chain(std::iter::once(bytes.len())) {
            let c = c.min(bytes.len());
            parts.push(&bytes[from..c]).unwrap();
            from = c;
        }
        assert_eq!(parts.is_done(), whole.is_done());
        let (a, b) = (parts.finish("u").unwrap(), whole.finish("u").unwrap());
        assert_eq!((a.text.as_str(), a.truncated), (b.text.as_str(), b.truncated));
        assert_eq!((a.text.as_str(), a.truncated), ("one two", true));
    }
}

/// The step after the JSON read, on given read results.
#[test]
fn chunk_step_on_given_parse_results() {
    let mut t = StreamText { text: "ab".into(), truncated: false, done: false };
    t.apply_chunk("{}", Ok(Some(vec![vec![Some("length".into()), Some("cd".into())], vec![None, Some("zz".into())]]))).unwrap();
    assert_eq!((t.text.as_str(), t.truncated, t.done), ("abcd", true, false));
    t.apply_chunk("{}", Ok(Some(vec![]))).unwrap();
    t.apply_chunk("{}", Ok(None)).unwrap();
    t.apply_chunk("{}", Ok(Some(vec![vec![None, None]]))).unwrap();
    assert_eq!((t.text.as_str(), t.truncated), ("abcd", true));
    let err = t.apply_chunk("{oops", Err("expected value".into())).unwrap_err();
    assert_eq!(err, "unparseable SSE chunk: {oops (expected value)");
    assert_eq!(t.text, "abcd");
}
