//! The decisions of the OpenAI-compatible chat client.
//!
//! Completions stream as server-sent events. `SseTail` reads that stream:
//! it buffers raw bytes, parses each complete `data:` line as it forms,
//! accumulates `choices[0].delta.content`, remembers
//! `finish_reason: "length"` and the `[DONE]` sentinel, and refuses to pass
//! a stream that ended before `[DONE]` as complete.
//!
//! Each failed attempt is classified by whether a resend can heal it:
//! connection failures before any response, HTTP 429 and 5xx, and empty
//! completions are resent once; a timeout, a stall, any other 4xx, broken
//! chunk JSON and a stream cut before `[DONE]` fail at once. The network
//! calls themselves are the caller's part; they report here what happened
//! and are told what to do next.

use vstd::prelude::*;
use vstd::string::StrSliceExecFns;
use vstd::string::StringExecFns;
use vstd::utf8::encode_scalar;

use crate::config::{seq_starts_with, Span};
use crate::decode::{json_fields_view, json_string_fields, lossy_text, read_json_string_fields, utf8_lossy};
use crate::text::{
    byte_len, chars_vec, decimal, push_decimal, str_eq, trim_end, trim_end_chars, trim_start,
    trim_start_chars,
};

verus! {

/// One finished completion.
#[derive(Debug)]
pub struct Completion {
    /// The generated text.
    pub text: String,
    /// The server cut the answer at `max_tokens` (`finish_reason: "length"`).
    pub truncated: bool,
}

/// One failed attempt, classified by whether resending can plausibly help.
#[derive(Debug)]
pub enum AttemptError {
    /// The server did not start the work (connection failure before any
    /// response, HTTP 429, HTTP 5xx): a resend is justified.
    Retryable(String),
    /// The server is working on the request or refused it for good
    /// (timeout, stall, other 4xx, broken stream, unparseable body):
    /// resending cannot heal it.
    Fatal(String),
}

/// How many bytes `clip` keeps before its ellipsis.
pub const CLIP_BYTES: usize = 500;

/// The longest prefix of `s` whose UTF-8 encoding fits in `budget` bytes.
pub open spec fn prefix_within(s: Seq<char>, budget: nat) -> Seq<char>
    decreases s.len(),
{
    if s.len() == 0 {
        s
    } else {
        let w = encode_scalar(s[0] as u32).len();
        if w <= budget {
            seq![s[0]] + prefix_within(s.drop_first(), (budget - w) as nat)
        } else {
            seq![]
        }
    }
}

/// `s` when its UTF-8 encoding has at most `CLIP_BYTES` bytes; otherwise
/// its longest prefix that fits, followed by an ellipsis.
pub open spec fn clip_spec(s: Seq<char>) -> Seq<char> {
    if byte_len(s) <= CLIP_BYTES {
        s
    } else {
        prefix_within(s, CLIP_BYTES as nat) + "…"@
    }
}

/// The number of bytes in the UTF-8 encoding of `c` (`char::len_utf8`).
fn utf8_width(c: char) -> (w: usize)
    ensures
        w == encode_scalar(c as u32).len(),
{
    let u = c as u32;
    if u < 0x80 {
        1
    } else if u < 0x800 {
        2
    } else if u < 0x10000 {
        3
    } else {
        4
    }
}

/// Clip server text for an error message: at most `CLIP_BYTES` bytes of it,
/// cut at a character boundary, with a visible ellipsis when anything was
/// cut.
pub fn clip(s: &str) -> (r: String)
    ensures
        r@ == clip_spec(s@),
        byte_len(s@) <= CLIP_BYTES ==> r@ == s@,
{
    if s.as_bytes().len() <= CLIP_BYTES {
        return String::from_str(s);
    }
    let v = chars_vec(s);
    let mut k: usize = 0;
    let mut budget: usize = CLIP_BYTES;
    assert(v@.skip(0) =~= v@);
    assert(v@.take(0) =~= Seq::<char>::empty());
    while k < v.len() && utf8_width(v[k]) <= budget
        invariant
            k <= v@.len(),
            v@ == s@,
            budget <= CLIP_BYTES,
            prefix_within(s@, CLIP_BYTES as nat) == v@.take(k as int) + prefix_within(
                v@.skip(k as int),
                budget as nat,
            ),
        decreases v@.len() - k,
    {
        let w = utf8_width(v[k]);
        assert(v@.skip(k as int)[0] == v@[k as int]);
        assert(v@.skip(k as int).drop_first() =~= v@.skip(k + 1));
        assert(v@.take(k as int) + seq![v@[k as int]] =~= v@.take(k + 1));
        budget = budget - w;
        k = k + 1;
    }
    assert(prefix_within(v@.skip(k as int), budget as nat) =~= Seq::<char>::empty());
    assert(v@.take(k as int) + Seq::<char>::empty() =~= v@.take(k as int));
    assert(v@.take(k as int) =~= v@.subrange(0, k as int));
    let mut r = String::from_str(s.substring_char(0, k));
    r.append("…");
    r
}

/// The mathematical content of a `Completion`.
pub struct CompletionSpec {
    pub text: Seq<char>,
    pub truncated: bool,
}

impl View for Completion {
    type V = CompletionSpec;

    open spec fn view(&self) -> CompletionSpec {
        CompletionSpec { text: self.text@, truncated: self.truncated }
    }
}

/// The mathematical content of an `AttemptError`.
pub enum Failure {
    Retryable(Seq<char>),
    Fatal(Seq<char>),
}

impl View for AttemptError {
    type V = Failure;

    open spec fn view(&self) -> Failure {
        match self {
            AttemptError::Retryable(m) => Failure::Retryable(m@),
            AttemptError::Fatal(m) => Failure::Fatal(m@),
        }
    }
}

/// The view of one attempt's outcome.
pub open spec fn attempt_view(r: Result<Completion, AttemptError>) -> Result<CompletionSpec, Failure> {
    match r {
        Ok(c) => Ok(c@),
        Err(e) => Err(e@),
    }
}

/// The view of a result that fails with a message.
pub open spec fn unit_view(r: Result<(), String>) -> Option<Seq<char>> {
    match r {
        Ok(()) => None,
        Err(e) => Some(e@),
    }
}

/// What the stream reader has made of the complete lines so far.
pub struct StreamText {
    /// The accumulated `delta.content` text.
    pub text: String,
    /// Some chunk reported `finish_reason: "length"`.
    pub truncated: bool,
    /// The `[DONE]` sentinel arrived.
    pub done: bool,
}

/// The mathematical content of a `StreamText`.
pub struct StreamState {
    pub text: Seq<char>,
    pub truncated: bool,
    pub done: bool,
}

impl View for StreamText {
    type V = StreamState;

    open spec fn view(&self) -> StreamState {
        StreamState { text: self.text@, truncated: self.truncated, done: self.done }
    }
}

/// The fields read from each streamed choice: its `finish_reason`, and the
/// `content` of its `delta`.
pub open spec fn chunk_paths() -> Seq<Seq<Seq<char>>> {
    seq![seq!["finish_reason"@], seq!["delta"@, "content"@]]
}

/// The payload of an SSE line: the text after `data:` with surrounding
/// whitespace removed, or `None` for any other line (comments, `event:` or
/// `id:` fields, blank separators).
pub open spec fn line_payload(line: Seq<u8>) -> Option<Seq<char>> {
    let l = trim_start_chars(trim_end_chars(lossy_text(line)));
    if seq_starts_with(l, "data:"@) {
        Some(trim_start_chars(l.subrange(5, l.len() as int)))
    } else {
        None
    }
}

/// The string at position `k` of the fields read from a choice.
pub open spec fn field_at(fields: Seq<Option<Seq<char>>>, k: int) -> Option<Seq<char>> {
    if k < fields.len() {
        fields[k]
    } else {
        None
    }
}

/// The state after one choice: its content is appended, and a
/// `finish_reason` of `length` marks the completion truncated.
pub open spec fn apply_choice(st: StreamState, fields: Seq<Option<Seq<char>>>) -> StreamState {
    StreamState {
        text: match field_at(fields, 1) {
            Some(d) => st.text + d,
            None => st.text,
        },
        truncated: st.truncated || field_at(fields, 0) == Some("length"@),
        done: st.done,
    }
}

/// The effect of one data chunk `payload` on the state, given what reading
/// its JSON gave (`parsed`: for each choice, its `chunk_paths` fields), or
/// the message that rejects it. Broken chunk JSON is a broken server: the
/// message quotes the clipped payload and the parser's complaint. A chunk
/// without choices changes nothing; otherwise the first choice applies.
pub open spec fn chunk_step(
    st: StreamState,
    payload: Seq<char>,
    parsed: Result<Option<Seq<Seq<Option<Seq<char>>>>>, Seq<char>>,
) -> Result<StreamState, Seq<char>> {
    match parsed {
        Err(e) => Err("unparseable SSE chunk: "@ + clip_spec(payload) + " ("@ + e + ")"@),
        Ok(None) => Ok(st),
        Ok(Some(items)) => if items.len() == 0 {
            Ok(st)
        } else {
            Ok(apply_choice(st, items[0]))
        },
    }
}

/// The effect of one complete line (newline included) on the state, or the
/// message that rejects it.
pub open spec fn line_step(st: StreamState, line: Seq<u8>) -> Result<StreamState, Seq<char>> {
    match line_payload(line) {
        None => Ok(st),
        Some(payload) => if payload == "[DONE]"@ {
            Ok(StreamState { done: true, ..st })
        } else {
            chunk_step(st, payload, json_string_fields(payload, "choices"@, chunk_paths()))
        },
    }
}

/// Feeding `bytes` to a reader in state `st` whose unfinished line so far
/// is `pending`: every newline completes a line, which `line_step` applies.
/// The result is the new state, the new unfinished line, and the first
/// error, if any; on an error the state stays as it was before the failing
/// line and every byte after that line is left pending.
pub open spec fn feed(st: StreamState, pending: Seq<u8>, bytes: Seq<u8>) -> (
    StreamState,
    Seq<u8>,
    Option<Seq<char>>,
)
    decreases bytes.len(),
{
    if bytes.len() == 0 {
        (st, pending, None)
    } else {
        let p = pending.push(bytes[0]);
        if bytes[0] == 10u8 {
            match line_step(st, p) {
                Ok(next) => feed(next, seq![], bytes.drop_first()),
                Err(e) => (st, bytes.drop_first(), Some(e)),
            }
        } else {
            feed(st, p, bytes.drop_first())
        }
    }
}

impl StreamText {
    /// Apply one complete line (newline included).
    fn handle_line(&mut self, line: &[u8]) -> (r: Result<(), String>)
        ensures
            match line_step(old(self)@, line@) {
                Ok(st) => r is Ok && final(self)@ == st,
                Err(e) => unit_view(r) == Some(e) && final(self)@ == old(self)@,
            },
    {
        proof {
            reveal_strlit("data:");
        }
        let decoded = utf8_lossy(line);
        let trimmed_end = trim_end(decoded.as_str());
        let l = trim_start(trimmed_end.as_str());
        if !crate::text::starts_with(l.as_str(), "data:") {
            return Ok(());
        }
        let n = l.as_str().unicode_len();
        let payload = trim_start(l.as_str().substring_char(5, n));
        if str_eq(payload.as_str(), "[DONE]") {
            self.done = true;
            return Ok(());
        }
        let paths: Vec<Vec<&str>> = vec![vec!["finish_reason"], vec!["delta", "content"]];
        assert(crate::decode::paths_view(paths@) =~= chunk_paths()) by {
            assert(crate::text::strs_view(paths@[0]@) =~= seq!["finish_reason"@]);
            assert(crate::text::strs_view(paths@[1]@) =~= seq!["delta"@, "content"@]);
        }
        let parsed = read_json_string_fields(payload.as_str(), "choices", paths.as_slice());
        self.apply_chunk(payload.as_str(), parsed)
    }

    /// Apply one data chunk `payload`, given what reading its JSON for the
    /// `chunk_paths` fields of each choice gave.
    pub fn apply_chunk(&mut self, payload: &str, parsed: Result<Option<Vec<Vec<Option<String>>>>, String>) -> (r:
        Result<(), String>)
        ensures
            match chunk_step(old(self)@, payload@, json_fields_view(parsed)) {
                Ok(st) => r is Ok && final(self)@ == st,
                Err(e) => unit_view(r) == Some(e) && final(self)@ == old(self)@,
            },
    {
        match parsed {
            Err(e) => {
                let mut msg = String::from_str("unparseable SSE chunk: ");
                let clipped = clip(payload);
                msg.append(clipped.as_str());
                msg.append(" (");
                msg.append(e.as_str());
                msg.append(")");
                Err(msg)
            },
            Ok(None) => Ok(()),
            Ok(Some(items)) => {
                if items.len() == 0 {
                    return Ok(());
                }
                let fields = &items[0];
                assert(crate::decode::fields_view(*fields) == items@.map_values(
                    |f: Vec<Option<String>>| crate::decode::fields_view(f),
                )[0]);
                if fields.len() > 0 {
                    match &fields[0] {
                        Some(reason) => {
                            if str_eq(reason.as_str(), "length") {
                                self.truncated = true;
                            }
                        },
                        None => {},
                    }
                }
                if fields.len() > 1 {
                    match &fields[1] {
                        Some(delta) => {
                            self.text.append(delta.as_str());
                        },
                        None => {},
                    }
                }
                Ok(())
            },
        }
    }
}

/// Incremental SSE reader: buffers raw bytes, parses complete lines as they
/// form, and tracks whether any body byte has arrived yet.
pub struct SseTail {
    pending: Vec<u8>,
    parsed: StreamText,
    bytes_seen: bool,
}

/// The mathematical content of an `SseTail`.
pub struct SseView {
    /// Bytes after the last complete line.
    pub pending: Seq<u8>,
    /// What the complete lines said.
    pub state: StreamState,
    /// Some body byte has arrived.
    pub bytes_seen: bool,
}

impl View for SseTail {
    type V = SseView;

    closed spec fn view(&self) -> SseView {
        SseView { pending: self.pending@, state: self.parsed@, bytes_seen: self.bytes_seen }
    }
}

/// A fresh reader: nothing pending, no text, not truncated, not done, no
/// byte seen.
pub open spec fn fresh_reader() -> SseView {
    SseView {
        pending: seq![],
        state: StreamState { text: seq![], truncated: false, done: false },
        bytes_seen: false,
    }
}

/// The reader after pushing `bytes`, and the error that stopped it, if any:
/// the pending bytes and the new ones are read as one buffer from the first
/// byte on.
pub open spec fn push_spec(t: SseView, bytes: Seq<u8>) -> (SseView, Option<Seq<char>>) {
    let (st, pending, err) = feed(t.state, seq![], t.pending + bytes);
    (SseView { pending, state: st, bytes_seen: t.bytes_seen }, err)
}

/// The message that refuses a stream cut before `[DONE]`.
pub open spec fn cut_short_message(url: Seq<char>, text: Seq<char>) -> Seq<char> {
    "stream from "@ + url + " ended before [DONE] ("@ + decimal(byte_len(text)) + " chars received)"@
}

/// The completion a finished stream yields: the accumulated text, or a
/// fatal error when `[DONE]` never arrived, so that partial text never
/// passes as complete.
pub open spec fn finish_spec(st: StreamState, url: Seq<char>) -> Result<CompletionSpec, Failure> {
    if st.done {
        Ok(CompletionSpec { text: st.text, truncated: st.truncated })
    } else {
        Err(Failure::Fatal(cut_short_message(url, st.text)))
    }
}

/// The number of bytes of the UTF-8 encoding of `s`.
fn utf8_len(s: &String) -> (n: usize)
    ensures
        n == byte_len(s@),
{
    s.as_str().as_bytes().len()
}

impl SseTail {
    /// A reader that has seen nothing.
    pub fn new() -> (r: SseTail)
        ensures
            r@ == fresh_reader(),
    {
        SseTail {
            pending: Vec::new(),
            parsed: StreamText { text: String::new(), truncated: false, done: false },
            bytes_seen: false,
        }
    }

    /// Some body byte has arrived.
    pub fn bytes_seen(&self) -> (r: bool)
        ensures
            r == self@.bytes_seen,
    {
        self.bytes_seen
    }

    /// How long the next read may stay silent before the stream counts as
    /// stalled: before the first body byte the request is queued inside the
    /// engine and silence is normal, so no idle deadline applies (only the
    /// overall timeout bounds the wait); once bytes have flowed, the idle
    /// timeout does.
    pub fn next_wait(&self, idle: Span) -> (r: Option<Span>)
        ensures
            r == if self@.bytes_seen {
                Some(idle)
            } else {
                None::<Span>
            },
    {
        if self.bytes_seen {
            Some(idle)
        } else {
            None
        }
    }

    /// The `[DONE]` sentinel has arrived.
    pub fn is_done(&self) -> (r: bool)
        ensures
            r == self@.state.done,
    {
        self.parsed.done
    }

    /// Feed one raw chunk. Chunk boundaries may split a line anywhere; only
    /// complete lines are parsed.
    pub fn push(&mut self, bytes: &[u8]) -> (r: Result<(), String>)
        ensures
            (final(self)@, unit_view(r)) == push_spec(old(self)@, bytes@),
    {
        let mut buf: Vec<u8> = Vec::new();
        std::mem::swap(&mut buf, &mut self.pending);
        let ghost start_buf = buf@;
        let mut j: usize = 0;
        while j < bytes.len()
            invariant
                j <= bytes@.len(),
                buf@ == start_buf + bytes@.take(j as int),
            decreases bytes@.len() - j,
        {
            buf.push(bytes[j]);
            assert(bytes@.take(j + 1) =~= bytes@.take(j as int).push(bytes@[j as int]));
            j = j + 1;
        }
        assert(bytes@.take(bytes@.len() as int) =~= bytes@);
        let ghost full = feed(old(self)@.state, seq![], buf@);
        let mut start: usize = 0;
        let mut i: usize = 0;
        assert(buf@.subrange(0, 0) =~= Seq::<u8>::empty());
        assert(buf@.skip(0) =~= buf@);
        while i < buf.len()
            invariant
                start <= i <= buf@.len(),
                buf@ == old(self)@.pending + bytes@,
                full == feed(old(self)@.state, seq![], buf@),
                feed(self.parsed@, buf@.subrange(start as int, i as int), buf@.skip(i as int)) == full,
                self.bytes_seen == old(self).bytes_seen,
            decreases buf@.len() - i,
        {
            let b = buf[i];
            assert(buf@.skip(i as int)[0] == b);
            assert(buf@.skip(i as int).drop_first() =~= buf@.skip(i + 1));
            assert(buf@.subrange(start as int, i as int).push(b) =~= buf@.subrange(
                start as int,
                i + 1,
            ));
            if b == 10 {
                let line = vstd::slice::slice_subrange(buf.as_slice(), start, i + 1);
                match self.parsed.handle_line(line) {
                    Ok(()) => {
                        start = i + 1;
                        assert(buf@.subrange(start as int, start as int) =~= Seq::<u8>::empty());
                    },
                    Err(e) => {
                        let ghost whole = buf@;
                        self.pending = buf.split_off(i + 1);
                        assert(self.pending@ =~= whole.skip(i + 1));
                        return Err(e);
                    },
                }
            }
            i = i + 1;
        }
        let ghost whole = buf@;
        self.pending = buf.split_off(start);
        assert(whole.skip(i as int) =~= Seq::<u8>::empty());
        assert(self.pending@ =~= whole.subrange(start as int, i as int));
        Ok(())
    }

    /// The completion, once the stream has ended. A stream that reached its
    /// end without `[DONE]` was cut mid-decode; shipping its partial text as
    /// if it were complete would be the worst failure mode for a writing
    /// tool, so it is refused.
    pub fn finish(&self, url: &str) -> (r: Result<Completion, AttemptError>)
        ensures
            attempt_view(r) == finish_spec(self@.state, url@),
    {
        if !self.parsed.done {
            let mut msg = String::from_str("stream from ");
            msg.append(url);
            msg.append(" ended before [DONE] (");
            push_decimal(&mut msg, utf8_len(&self.parsed.text) as u64);
            msg.append(" chars received)");
            return Err(AttemptError::Fatal(msg));
        }
        Ok(Completion { text: self.parsed.text.clone(), truncated: self.parsed.truncated })
    }
}

/// Whether `q` holds no newline byte.
pub open spec fn no_newline(q: Seq<u8>) -> bool {
    forall|i: int| 0 <= i < q.len() ==> #[trigger] q[i] != 10u8
}

/// Feeding `x + y` is feeding `x`, then `y` from where `x` left off; an
/// error in `x` stops there with the rest of `x` and all of `y` pending.
proof fn lemma_feed_append(st: StreamState, q: Seq<u8>, x: Seq<u8>, y: Seq<u8>)
    ensures
        feed(st, q, x + y) == (match feed(st, q, x) {
            (s1, q1, None) => feed(s1, q1, y),
            (s1, r1, Some(e)) => (s1, r1 + y, Some(e)),
        }),
    decreases x.len(),
{
    if x.len() == 0 {
        assert(x + y =~= y);
    } else {
        assert((x + y)[0] == x[0]);
        assert((x + y).drop_first() =~= x.drop_first() + y);
        let p = q.push(x[0]);
        if x[0] == 10u8 {
            match line_step(st, p) {
                Ok(next) => {
                    lemma_feed_append(next, seq![], x.drop_first(), y);
                },
                Err(e) => {},
            }
        } else {
            lemma_feed_append(st, p, x.drop_first(), y);
        }
    }
}

/// Bytes without a newline only extend the unfinished line.
proof fn lemma_feed_partial_line(st: StreamState, p: Seq<u8>, q: Seq<u8>, y: Seq<u8>)
    requires
        no_newline(q),
    ensures
        feed(st, p, q + y) == feed(st, p + q, y),
    decreases q.len(),
{
    if q.len() == 0 {
        assert(q + y =~= y);
        assert(p + q =~= p);
    } else {
        assert((q + y)[0] == q[0]);
        assert(q[0] != 10u8);
        assert((q + y).drop_first() =~= q.drop_first() + y);
        assert(p.push(q[0]) + q.drop_first() =~= p + q);
        lemma_feed_partial_line(st, p.push(q[0]), q.drop_first(), y);
    }
}

/// A feed that ends without error leaves an unfinished line that holds no
/// newline, if it started from one.
proof fn lemma_feed_pending_clean(st: StreamState, q: Seq<u8>, x: Seq<u8>)
    requires
        no_newline(q),
    ensures
        feed(st, q, x).2 is None ==> no_newline(feed(st, q, x).1),
    decreases x.len(),
{
    if x.len() > 0 {
        let p = q.push(x[0]);
        if x[0] == 10u8 {
            match line_step(st, p) {
                Ok(next) => {
                    lemma_feed_pending_clean(next, seq![], x.drop_first());
                },
                Err(e) => {},
            }
        } else {
            assert(no_newline(p)) by {
                assert forall|i: int| 0 <= i < p.len() implies #[trigger] p[i] != 10u8 by {
                    if i < q.len() {
                        assert(p[i] == q[i]);
                    }
                }
            }
            lemma_feed_pending_clean(st, p, x.drop_first());
        }
    }
}

/// Line buffering survives any split of the stream: pushing `a` and then
/// `b` leaves the reader exactly where pushing `a + b` at once does, and an
/// error while pushing `a` is the error that pushing `a + b` reports.
pub proof fn push_split_invariance(t: SseView, a: Seq<u8>, b: Seq<u8>)
    ensures
        push_spec(t, a).1 is None ==> push_spec(push_spec(t, a).0, b) == push_spec(t, a + b),
        push_spec(t, a).1 is Some ==> push_spec(t, a + b).1 == push_spec(t, a).1,
{
    let e: Seq<u8> = seq![];
    assert(t.pending + (a + b) =~= (t.pending + a) + b);
    lemma_feed_append(t.state, e, t.pending + a, b);
    let (s1, q1, err) = feed(t.state, e, t.pending + a);
    if err is None {
        assert(no_newline(e));
        lemma_feed_pending_clean(t.state, e, t.pending + a);
        lemma_feed_partial_line(s1, e, q1, b);
        assert(e + q1 =~= q1);
    }
}

/// How many times one completion is attempted.
pub const MAX_ATTEMPTS: u32 = 2;

/// Pause between a failed attempt and its resend, in milliseconds.
pub const RETRY_DELAY_MS: u64 = 500;

/// What to do after one attempt.
#[derive(Debug)]
pub enum RetryStep {
    /// Report this outcome to the caller.
    Done(Result<Completion, String>),
    /// Wait `RETRY_DELAY_MS` and attempt again; `last_error` is what the
    /// failed attempt said.
    Again { last_error: String },
}

/// The mathematical content of a `RetryStep`.
pub enum RetrySpec {
    Done(Result<CompletionSpec, Seq<char>>),
    Again(Seq<char>),
}

impl View for RetryStep {
    type V = RetrySpec;

    open spec fn view(&self) -> RetrySpec {
        match self {
            RetryStep::Done(Ok(c)) => RetrySpec::Done(Ok(c@)),
            RetryStep::Done(Err(e)) => RetrySpec::Done(Err(e@)),
            RetryStep::Again { last_error } => RetrySpec::Again(last_error@),
        }
    }
}

/// The decision after attempt number `attempt` (from 0): a nonempty
/// completion is returned; a fatal failure is reported at once; an empty
/// completion or a retryable failure is attempted again while attempts
/// remain, and reported as the last error once they are spent.
pub open spec fn retry_spec(attempt: u32, outcome: Result<CompletionSpec, Failure>) -> RetrySpec {
    match outcome {
        Ok(c) if c.text.len() > 0 => RetrySpec::Done(Ok(c)),
        Err(Failure::Fatal(e)) => RetrySpec::Done(Err("hemmingway-1 request failed: "@ + e)),
        _ => {
            let last = match outcome {
                Err(Failure::Retryable(e)) => e,
                _ => "empty completion from server"@,
            };
            if attempt + 1 < MAX_ATTEMPTS {
                RetrySpec::Again(last)
            } else {
                RetrySpec::Done(Err("hemmingway-1 request failed after 2 attempts: "@ + last))
            }
        },
    }
}

/// Decide what follows attempt number `attempt` (counting from 0).
pub fn after_attempt(attempt: u32, outcome: Result<Completion, AttemptError>) -> (r: RetryStep)
    requires
        attempt < MAX_ATTEMPTS,
    ensures
        r@ == retry_spec(attempt, attempt_view(outcome)),
{
    let last = match outcome {
        Ok(c) => {
            if c.text.as_str().unicode_len() > 0 {
                return RetryStep::Done(Ok(c));
            }
            String::from_str("empty completion from server")
        },
        Err(AttemptError::Fatal(e)) => {
            let mut msg = String::from_str("hemmingway-1 request failed: ");
            msg.append(e.as_str());
            return RetryStep::Done(Err(msg));
        },
        Err(AttemptError::Retryable(e)) => e,
    };
    if attempt + 1 < MAX_ATTEMPTS {
        RetryStep::Again { last_error: last }
    } else {
        let mut msg = String::from_str("hemmingway-1 request failed after 2 attempts: ");
        msg.append(last.as_str());
        RetryStep::Done(Err(msg))
    }
}

/// A fatal failure is never resent, and no completion is attempted more
/// than `MAX_ATTEMPTS` times: the last attempt always ends the call.
pub proof fn fatal_failures_are_never_resent(attempt: u32, outcome: Result<CompletionSpec, Failure>)
    requires
        attempt < MAX_ATTEMPTS,
    ensures
        outcome matches Err(Failure::Fatal(_)) ==> retry_spec(attempt, outcome) is Done,
        attempt + 1 == MAX_ATTEMPTS ==> retry_spec(attempt, outcome) is Done,
        (attempt + 1 < MAX_ATTEMPTS && (outcome matches Err(Failure::Retryable(_))))
            ==> retry_spec(attempt, outcome) is Again,
{
}

/// What an attempt's outcome leads to: a nonempty completion is returned
/// as it came, at any attempt; an empty completion or a retryable failure
/// on the first attempt is attempted once more, and on the last one is
/// reported as the call's failure, naming the attempts; a fatal failure is
/// reported at once.
pub proof fn attempts_are_resent_only_when_a_resend_can_help(attempt: u32, outcome: Result<CompletionSpec, Failure>)
    requires
        attempt < MAX_ATTEMPTS,
    ensures
        outcome matches Ok(c) ==> (c.text.len() > 0 ==> retry_spec(attempt, outcome) == RetrySpec::Done(
            Ok::<CompletionSpec, Seq<char>>(c),
        )),
        outcome matches Ok(c) ==> (c.text.len() == 0 ==> (attempt == 0 <==> retry_spec(attempt, outcome)
            is Again)),
        outcome matches Err(Failure::Retryable(e)) ==> (attempt == 0 ==> retry_spec(attempt, outcome)
            == RetrySpec::Again(e)),
        outcome matches Err(Failure::Retryable(e)) ==> (attempt == 1 ==> retry_spec(attempt, outcome)
            == RetrySpec::Done(
            Err::<CompletionSpec, Seq<char>>("hemmingway-1 request failed after 2 attempts: "@ + e),
        )),
        outcome matches Err(Failure::Fatal(e)) ==> retry_spec(attempt, outcome) == RetrySpec::Done(
            Err::<CompletionSpec, Seq<char>>("hemmingway-1 request failed: "@ + e),
        ),
{
}

/// What a stream event does to an attempt, beyond a chunk: the end of the
/// body returns the accumulated text only when `[DONE]` arrived, and
/// otherwise fails for good, so partial text never passes as complete; a
/// stall is fatal; a read failure may be resent only when it is not a
/// timeout and no text has arrived yet. None of these changes the reader.
pub proof fn stream_endings_never_pass_partial_text(
    t: SseView,
    url: Seq<char>,
    idle_secs: u64,
    detail: Seq<char>,
    timed_out: bool,
)
    ensures
        event_spec(t, url, idle_secs, EventSpec::End).0 == t,
        t.state.done ==> event_spec(t, url, idle_secs, EventSpec::End).1 == Some(
            Ok::<CompletionSpec, Failure>(CompletionSpec { text: t.state.text, truncated: t.state.truncated }),
        ),
        !t.state.done ==> (event_spec(t, url, idle_secs, EventSpec::End).1 matches Some(
            Err(Failure::Fatal(_)),
        )),
        event_spec(t, url, idle_secs, EventSpec::Stalled).0 == t,
        event_spec(t, url, idle_secs, EventSpec::Stalled).1 matches Some(Err(Failure::Fatal(_))),
        event_spec(t, url, idle_secs, EventSpec::Failed(detail, timed_out)).0 == t,
        (!timed_out && t.state.text.len() == 0) ==> (event_spec(
            t,
            url,
            idle_secs,
            EventSpec::Failed(detail, timed_out),
        ).1 matches Some(Err(Failure::Retryable(_)))),
        (timed_out || t.state.text.len() > 0) ==> (event_spec(
            t,
            url,
            idle_secs,
            EventSpec::Failed(detail, timed_out),
        ).1 matches Some(Err(Failure::Fatal(_)))),
{
}

/// The message for a request that got no response.
pub open spec fn request_failed_message(url: Seq<char>, detail: Seq<char>) -> Seq<char> {
    "request to "@ + url + " failed: "@ + detail
}

/// `request to {url} failed: {detail}`.
pub fn request_failed(url: &str, detail: &str) -> (r: String)
    ensures
        r@ == request_failed_message(url@, detail@),
{
    let mut msg = String::from_str("request to ");
    msg.append(url);
    msg.append(" failed: ");
    msg.append(detail);
    msg
}

/// The classification of a request that got no response: the overall
/// timeout expiring before headers means the engine is busy with this very
/// request, so a resend would queue the same work twice; any other
/// connection failure may heal on resend.
pub open spec fn send_failure_spec(url: Seq<char>, detail: Seq<char>, timed_out: bool) -> Failure {
    if timed_out {
        Failure::Fatal(request_failed_message(url, detail))
    } else {
        Failure::Retryable(request_failed_message(url, detail))
    }
}

/// Classify a request to `url` that failed before any response.
pub fn send_failure(url: &str, detail: &str, timed_out: bool) -> (r: AttemptError)
    ensures
        r@ == send_failure_spec(url@, detail@, timed_out),
        r is Retryable <==> !timed_out,
{
    let msg = request_failed(url, detail);
    if timed_out {
        AttemptError::Fatal(msg)
    } else {
        AttemptError::Retryable(msg)
    }
}

/// Whether an HTTP status refuses the request (4xx or 5xx).
pub fn is_http_error(status: u16) -> (r: bool)
    ensures
        r == (status >= 400),
{
    status >= 400
}

/// The message for a refused request: the status, the URL and the
/// server's own (clipped) explanation.
pub open spec fn http_error_message(status: u16, url: Seq<char>, body: Seq<char>) -> Seq<char> {
    "HTTP "@ + decimal(status as nat) + " from "@ + url + ": "@ + clip_spec(body)
}

/// `HTTP {status} from {url}: {clip(body)}`.
pub fn http_error(status: u16, url: &str, body: &str) -> (r: String)
    ensures
        r@ == http_error_message(status, url@, body@),
{
    let mut msg = String::from_str("HTTP ");
    push_decimal(&mut msg, status as u64);
    msg.append(" from ");
    msg.append(url);
    msg.append(": ");
    let clipped = clip(body);
    msg.append(clipped.as_str());
    msg
}

/// The classification of a refused request: 429 and 5xx may heal on
/// resend; any other 4xx will not.
pub open spec fn status_failure_spec(status: u16, url: Seq<char>, body: Seq<char>) -> Failure {
    if status == 429 || status >= 500 {
        Failure::Retryable(http_error_message(status, url, body))
    } else {
        Failure::Fatal(http_error_message(status, url, body))
    }
}

/// Classify a request to `url` refused with `status` (at least 400), whose
/// body said `body`.
pub fn status_failure(status: u16, url: &str, body: &str) -> (r: AttemptError)
    requires
        status >= 400,
    ensures
        r@ == status_failure_spec(status, url@, body@),
        r is Retryable <==> (status == 429 || status >= 500),
{
    let msg = http_error(status, url, body);
    if status == 429 || status >= 500 {
        AttemptError::Retryable(msg)
    } else {
        AttemptError::Fatal(msg)
    }
}

/// The body of a refused request could not be read: the server never began
/// the work, so a resend is justified.
pub fn body_read_failure(detail: &str) -> (r: AttemptError)
    ensures
        r@ == Failure::Retryable("reading response body failed: "@ + detail@),
{
    let mut msg = String::from_str("reading response body failed: ");
    msg.append(detail);
    AttemptError::Retryable(msg)
}

/// A refused request is resent exactly when a resend can help: rate
/// limiting (429) and every server error (5xx) are retryable, and the first
/// such attempt is attempted again; every other client error (4xx) is
/// fatal and ends the call at once. Either way the message names the
/// status, the URL and the server's explanation.
pub proof fn refused_requests_are_resent_only_on_429_and_5xx(status: u16, url: Seq<char>, body: Seq<char>)
    requires
        status >= 400,
    ensures
        (status == 429 || 500 <= status) ==> status_failure_spec(status, url, body) == Failure::Retryable(
            http_error_message(status, url, body),
        ),
        (status < 500 && status != 429) ==> status_failure_spec(status, url, body) == Failure::Fatal(
            http_error_message(status, url, body),
        ),
        retry_spec(0, Err(status_failure_spec(status, url, body))) is Again <==> (status == 429 || 500
            <= status),
        (status == 429 || 500 <= status) ==> retry_spec(1, Err(status_failure_spec(status, url, body)))
            == RetrySpec::Done(
            Err("hemmingway-1 request failed after 2 attempts: "@ + http_error_message(status, url, body)),
        ),
{
}

/// What happened while waiting for the next piece of a streamed body.
pub enum StreamEvent {
    /// A chunk of body bytes arrived.
    Chunk(Vec<u8>),
    /// The body ended.
    End,
    /// The idle timeout expired after bytes had begun flowing.
    Stalled,
    /// Reading failed; `timed_out` tells whether the overall timeout did it.
    Failed { detail: String, timed_out: bool },
}

/// What the reading loop does next.
#[derive(Debug)]
pub enum StreamStep {
    /// Wait for the next piece, for as long as `next_wait` allows.
    Continue,
    /// The attempt is over, with this outcome.
    Finished(Result<Completion, AttemptError>),
}

/// The mathematical content of a `StreamEvent`.
pub enum EventSpec {
    Chunk(Seq<u8>),
    End,
    Stalled,
    Failed(Seq<char>, bool),
}

impl View for StreamEvent {
    type V = EventSpec;

    open spec fn view(&self) -> EventSpec {
        match self {
            StreamEvent::Chunk(b) => EventSpec::Chunk(b@),
            StreamEvent::End => EventSpec::End,
            StreamEvent::Stalled => EventSpec::Stalled,
            StreamEvent::Failed { detail, timed_out } => EventSpec::Failed(detail@, *timed_out),
        }
    }
}

/// The view of a `StreamStep`: `None` to continue.
pub open spec fn step_view(s: StreamStep) -> Option<Result<CompletionSpec, Failure>> {
    match s {
        StreamStep::Continue => None,
        StreamStep::Finished(r) => Some(attempt_view(r)),
    }
}

/// The reader and the next step after one event of the stream from `url`.
/// A chunk marks bytes seen and is pushed; a broken chunk is fatal, and
/// `[DONE]` ends the attempt. The end of the body finishes the stream. A
/// stall is fatal, since the engine was mid-generation. A read failure is
/// retryable only when it is not a timeout and no text has arrived yet
/// (a dead worker a resend can survive).
pub open spec fn event_spec(t: SseView, url: Seq<char>, idle_secs: u64, ev: EventSpec) -> (
    SseView,
    Option<Result<CompletionSpec, Failure>>,
) {
    match ev {
        EventSpec::Chunk(bytes) => {
            let seen = SseView { bytes_seen: true, ..t };
            let (next, err) = push_spec(seen, bytes);
            match err {
                Some(e) => (next, Some(Err(Failure::Fatal(e)))),
                None => if next.state.done {
                    (next, Some(finish_spec(next.state, url)))
                } else {
                    (next, None)
                },
            }
        },
        EventSpec::End => (t, Some(finish_spec(t.state, url))),
        EventSpec::Stalled => (
            t,
            Some(
                Err(
                    Failure::Fatal(
                        "stream from "@ + url + " stalled: no bytes within "@ + decimal(
                            idle_secs as nat,
                        ) + "s ("@ + decimal(byte_len(t.state.text)) + " chars received)"@,
                    ),
                ),
            ),
        ),
        EventSpec::Failed(detail, timed_out) => {
            let msg = "stream from "@ + url + " failed: "@ + detail;
            if !timed_out && t.state.text.len() == 0 {
                (t, Some(Err(Failure::Retryable(msg))))
            } else {
                (t, Some(Err(Failure::Fatal(msg))))
            }
        },
    }
}

impl SseTail {
    /// Take one event of the stream from `url` (idle timeout `idle_secs`)
    /// and say what follows.
    pub fn on_event(&mut self, url: &str, idle_secs: u64, event: StreamEvent) -> (r: StreamStep)
        requires
            event is Stalled ==> old(self)@.bytes_seen,
        ensures
            (final(self)@, step_view(r)) == event_spec(old(self)@, url@, idle_secs, event@),
    {
        match event {
            StreamEvent::Chunk(bytes) => {
                self.bytes_seen = true;
                match self.push(bytes.as_slice()) {
                    Err(e) => StreamStep::Finished(Err(AttemptError::Fatal(e))),
                    Ok(()) => {
                        if self.parsed.done {
                            StreamStep::Finished(self.finish(url))
                        } else {
                            StreamStep::Continue
                        }
                    },
                }
            },
            StreamEvent::End => StreamStep::Finished(self.finish(url)),
            StreamEvent::Stalled => {
                let mut msg = String::from_str("stream from ");
                msg.append(url);
                msg.append(" stalled: no bytes within ");
                push_decimal(&mut msg, idle_secs);
                msg.append("s (");
                push_decimal(&mut msg, utf8_len(&self.parsed.text) as u64);
                msg.append(" chars received)");
                StreamStep::Finished(Err(AttemptError::Fatal(msg)))
            },
            StreamEvent::Failed { detail, timed_out } => {
                let mut msg = String::from_str("stream from ");
                msg.append(url);
                msg.append(" failed: ");
                msg.append(detail.as_str());
                if !timed_out && self.parsed.text.as_str().unicode_len() == 0 {
                    StreamStep::Finished(Err(AttemptError::Retryable(msg)))
                } else {
                    StreamStep::Finished(Err(AttemptError::Fatal(msg)))
                }
            },
        }
    }
}

/// The chat-completions endpoint under `base_url`.
pub fn completions_url(base_url: &str) -> (r: String)
    ensures
        r@ == base_url@ + "/chat/completions"@,
{
    let mut r = String::from_str(base_url);
    r.append("/chat/completions");
    r
}

/// The model-list endpoint under `base_url`.
pub fn models_url(base_url: &str) -> (r: String)
    ensures
        r@ == base_url@ + "/models"@,
{
    let mut r = String::from_str(base_url);
    r.append("/models");
    r
}

/// One message of a chat request.
#[derive(Debug)]
pub struct ChatMessage {
    /// `system` or `user`.
    pub role: String,
    /// The message text.
    pub content: String,
}

/// The (role, content) pairs of a list of chat messages.
pub open spec fn messages_view(m: Seq<ChatMessage>) -> Seq<(Seq<char>, Seq<char>)> {
    m.map_values(|c: ChatMessage| (c.role@, c.content@))
}

/// The messages of a chat request: the system prompt first when there is
/// one, then the user prompt.
pub open spec fn messages_spec(system: Seq<char>, user: Seq<char>) -> Seq<(Seq<char>, Seq<char>)> {
    if system.len() > 0 {
        seq![("system"@, system), ("user"@, user)]
    } else {
        seq![("user"@, user)]
    }
}

/// The messages of a chat request: the system prompt first when there is
/// one, then the user prompt.
pub fn chat_messages(system: &str, user: &str) -> (r: Vec<ChatMessage>)
    ensures
        messages_view(r@) == messages_spec(system@, user@),
{
    let mut r: Vec<ChatMessage> = Vec::new();
    if !system.is_empty() {
        r.push(ChatMessage { role: String::from_str("system"), content: String::from_str(system) });
    }
    r.push(ChatMessage { role: String::from_str("user"), content: String::from_str(user) });
    assert(messages_view(r@) =~= messages_spec(system@, user@));
    r
}

/// One streamed chat-completion request, as it goes over the wire.
#[derive(Debug)]
pub struct ChatRequest {
    /// The model id.
    pub model: String,
    /// The conversation: optional system prompt, then the user prompt.
    pub messages: Vec<ChatMessage>,
    /// Completion budget in tokens.
    pub max_tokens: u32,
    /// Sampling temperature, as `f32` bits.
    pub temperature_bits: u32,
    /// Ask for a server-sent-event stream.
    pub stream: bool,
}

/// The request for one completion: the configured model, the messages,
/// the budget and temperature, and always a streamed answer.
pub fn chat_request(model: &str, system: &str, user: &str, max_tokens: u32, temperature_bits: u32) -> (r:
    ChatRequest)
    ensures
        r.model@ == model@,
        messages_view(r.messages@) == messages_spec(system@, user@),
        r.max_tokens == max_tokens,
        r.temperature_bits == temperature_bits,
        r.stream,
{
    ChatRequest {
        model: String::from_str(model),
        messages: chat_messages(system, user),
        max_tokens,
        temperature_bits,
        stream: true,
    }
}

/// The ids of the served models, in order, from the string fields read
/// from each entry of the model list (entries without a string id are
/// skipped).
pub open spec fn served_ids(items: Seq<Seq<Option<Seq<char>>>>) -> Seq<Seq<char>>
    decreases items.len(),
{
    if items.len() == 0 {
        seq![]
    } else {
        let rest = served_ids(items.drop_last());
        match field_at(items.last(), 0) {
            Some(id) => rest.push(id),
            None => rest,
        }
    }
}

/// The served-model list that a `/models` response at `url` gives, or the
/// message that refuses it: anything but HTTP 200 is an error quoting the
/// server; a body that is not JSON is an error; a body without a `data`
/// array lists nothing.
pub open spec fn models_spec(url: Seq<char>, status: u16, body: Seq<char>) -> Result<
    Seq<Seq<char>>,
    Seq<char>,
> {
    if status != 200 {
        Err(http_error_message(status, url, body))
    } else {
        match json_string_fields(body, "data"@, seq![seq!["id"@]]) {
            Err(e) => Err("unparseable /models body: "@ + e),
            Ok(None) => Ok(seq![]),
            Ok(Some(items)) => Ok(served_ids(items)),
        }
    }
}

/// The view of a list of strings result.
pub open spec fn strings_result_view(r: Result<Vec<String>, String>) -> Result<
    Seq<Seq<char>>,
    Seq<char>,
> {
    match r {
        Ok(v) => Ok(crate::text::strings_view(v@)),
        Err(e) => Err(e@),
    }
}

/// The served-model ids from the response to a model-list request at
/// `url`, for health reporting.
pub fn models_from_response(url: &str, status: u16, body: &str) -> (r: Result<Vec<String>, String>)
    ensures
        strings_result_view(r) == models_spec(url@, status, body@),
{
    if status != 200 {
        return Err(http_error(status, url, body));
    }
    let paths: Vec<Vec<&str>> = vec![vec!["id"]];
    assert(crate::decode::paths_view(paths@) =~= seq![seq!["id"@]]) by {
        assert(crate::text::strs_view(paths@[0]@) =~= seq!["id"@]);
    }
    match read_json_string_fields(body, "data", paths.as_slice()) {
        Err(e) => {
            let mut msg = String::from_str("unparseable /models body: ");
            msg.append(e.as_str());
            Err(msg)
        },
        Ok(None) => {
            let ids: Vec<String> = Vec::new();
            assert(crate::text::strings_view(ids@) =~= Seq::<Seq<char>>::empty());
            Ok(ids)
        },
        Ok(Some(items)) => {
            let ghost iv = items@.map_values(|f: Vec<Option<String>>| crate::decode::fields_view(f));
            let mut ids: Vec<String> = Vec::new();
            let mut i: usize = 0;
            assert(iv.take(0) =~= Seq::<Seq<Option<Seq<char>>>>::empty());
            assert(crate::text::strings_view(ids@) =~= Seq::<Seq<char>>::empty());
            while i < items.len()
                invariant
                    i <= items@.len(),
                    iv == items@.map_values(|f: Vec<Option<String>>| crate::decode::fields_view(f)),
                    crate::text::strings_view(ids@) == served_ids(iv.take(i as int)),
                decreases items@.len() - i,
            {
                let fields = &items[i];
                assert(crate::decode::fields_view(*fields) == iv[i as int]);
                assert(iv.take(i + 1).drop_last() =~= iv.take(i as int));
                assert(iv.take(i + 1).last() == iv[i as int]);
                if fields.len() > 0 {
                    assert(crate::decode::fields_view(*fields)[0] == match fields@[0] {
                        Some(x) => Some(x@),
                        None => None::<Seq<char>>,
                    });
                    match &fields[0] {
                        Some(id) => {
                            let ghost before = ids@;
                            ids.push(id.clone());
                            assert(crate::text::strings_view(ids@) =~= crate::text::strings_view(
                                before,
                            ).push(id@));
                        },
                        None => {},
                    }
                }
                i = i + 1;
            }
            assert(iv.take(items@.len() as int) =~= iv);
            assert(crate::decode::json_fields_view(Ok(Some(items))) == Ok::<Option<Seq<Seq<Option<Seq<char>>>>>, Seq<char>>(Some(iv)));
            Ok(ids)
        },
    }
}

/// The outcome of a stream of events, taken one by one from reader `t`
/// until one ends the attempt (`None` if none does).
pub open spec fn run_stream(t: SseView, url: Seq<char>, idle_secs: u64, evs: Seq<EventSpec>) -> Option<
    Result<CompletionSpec, Failure>,
>
    decreases evs.len(),
{
    if evs.len() == 0 {
        None
    } else {
        let (next, step) = event_spec(t, url, idle_secs, evs[0]);
        match step {
            Some(r) => Some(r),
            None => run_stream(next, url, idle_secs, evs.drop_first()),
        }
    }
}

/// Pushing `chunks` in order into a reader whose lines so far gave `st`
/// and whose unfinished line is `pending`: a broken chunk is fatal, the
/// chunk that brings `[DONE]` ends the stream, and after the last chunk
/// the stream is finished as it stands.
pub open spec fn fold_chunks(st: StreamState, pending: Seq<u8>, url: Seq<char>, chunks: Seq<Seq<u8>>) -> Result<
    CompletionSpec,
    Failure,
>
    decreases chunks.len(),
{
    if chunks.len() == 0 {
        finish_spec(st, url)
    } else {
        let (next, rest, err) = feed(st, seq![], pending + chunks[0]);
        match err {
            Some(m) => Err(Failure::Fatal(m)),
            None => if next.done {
                finish_spec(next, url)
            } else {
                fold_chunks(next, rest, url, chunks.drop_first())
            },
        }
    }
}

/// The events of a body that arrives as `chunks`, each in time and without
/// a read error, and then ends.
pub open spec fn chunk_events(chunks: Seq<Seq<u8>>) -> Seq<EventSpec> {
    chunks.map_values(|c: Seq<u8>| EventSpec::Chunk(c)).push(EventSpec::End)
}

/// A body that arrives as chunks and then ends gives what pushing the
/// chunks in order and then finishing gives: the reading loop adds nothing
/// of its own to the stream's outcome.
pub proof fn streamed_body_is_pushed_then_finished(
    t: SseView,
    url: Seq<char>,
    idle_secs: u64,
    chunks: Seq<Seq<u8>>,
)
    ensures
        run_stream(t, url, idle_secs, chunk_events(chunks)) == Some(
            fold_chunks(t.state, t.pending, url, chunks),
        ),
    decreases chunks.len(),
{
    let evs = chunk_events(chunks);
    if chunks.len() == 0 {
        assert(evs[0] == EventSpec::End);
    } else {
        assert(evs[0] == EventSpec::Chunk(chunks[0]));
        assert(evs.drop_first() =~= chunk_events(chunks.drop_first()));
        let seen = SseView { bytes_seen: true, ..t };
        let (next, err) = push_spec(seen, chunks[0]);
        if err is None && !next.state.done {
            streamed_body_is_pushed_then_finished(next, url, idle_secs, chunks.drop_first());
        }
    }
}

/// `parts` laid end to end.
pub open spec fn concat_parts(parts: Seq<Seq<u8>>) -> Seq<u8>
    decreases parts.len(),
{
    if parts.len() == 0 {
        seq![]
    } else {
        parts[0] + concat_parts(parts.drop_first())
    }
}

/// Pushing `parts` one after another, stopping at the first error.
pub open spec fn push_parts(t: SseView, parts: Seq<Seq<u8>>) -> (SseView, Option<Seq<char>>)
    decreases parts.len(),
{
    if parts.len() == 0 {
        (t, None)
    } else {
        let (next, err) = push_spec(t, parts[0]);
        if err is Some {
            (next, err)
        } else {
            push_parts(next, parts.drop_first())
        }
    }
}

/// Line buffering survives a split into any number of parts: pushing the
/// parts one after another reports the error that one push of all of them
/// reports, and, when there is none, leaves the reader exactly where that
/// one push does.
pub proof fn push_any_split_invariance(t: SseView, parts: Seq<Seq<u8>>)
    requires
        parts.len() > 0,
    ensures
        push_parts(t, parts).1 == push_spec(t, concat_parts(parts)).1,
        push_parts(t, parts).1 is None ==> push_parts(t, parts) == push_spec(t, concat_parts(parts)),
    decreases parts.len(),
{
    let rest = parts.drop_first();
    assert(concat_parts(parts) == parts[0] + concat_parts(rest));
    let next = push_spec(t, parts[0]).0;
    let err = push_spec(t, parts[0]).1;
    if err is None {
        assert(push_parts(t, parts) == push_parts(next, rest));
    } else {
        assert(push_parts(t, parts) == push_spec(t, parts[0]));
    }
    if parts.len() == 1 {
        assert(rest.len() == 0);
        assert(concat_parts(rest) == Seq::<u8>::empty());
        assert(parts[0] + concat_parts(rest) =~= parts[0]);
        assert(push_parts(next, rest) == (next, None::<Seq<char>>));
    } else {
        push_split_invariance(t, parts[0], concat_parts(rest));
        if err is None {
            push_any_split_invariance(next, rest);
        }
    }
}

/// A feed that ends without error leaves pending exactly the bytes after
/// the last newline of what it was given.
proof fn lemma_feed_leaves_the_tail(st: StreamState, q: Seq<u8>, x: Seq<u8>)
    requires
        no_newline(q),
    ensures
        feed(st, q, x).2 is None ==> {
            let r = feed(st, q, x).1;
            let a = q + x;
            &&& r.len() <= a.len()
            &&& a.subrange(a.len() - r.len(), a.len() as int) == r
            &&& r.len() < a.len() ==> a[a.len() - r.len() - 1] == 10u8
        },
    decreases x.len(),
{
    let a = q + x;
    if x.len() == 0 {
        assert(a.subrange(0, a.len() as int) =~= q);
    } else {
        let p = q.push(x[0]);
        let x1 = x.drop_first();
        assert(a =~= p + x1);
        if x[0] == 10u8 {
            match line_step(st, p) {
                Ok(next) => {
                    let e: Seq<u8> = seq![];
                    assert(no_newline(e));
                    lemma_feed_leaves_the_tail(next, e, x1);
                    assert(e + x1 =~= x1);
                    let r = feed(next, e, x1).1;
                    if feed(next, e, x1).2 is None {
                        assert(a.subrange(a.len() - r.len(), a.len() as int) =~= x1.subrange(
                            x1.len() - r.len(),
                            x1.len() as int,
                        ));
                        if r.len() < x1.len() {
                            assert(a[a.len() - r.len() - 1] == x1[x1.len() - r.len() - 1]);
                        } else {
                            assert(a[a.len() - r.len() - 1] == p[p.len() - 1]);
                        }
                    }
                },
                Err(e) => {},
            }
        } else {
            assert(no_newline(p)) by {
                assert forall|i: int| 0 <= i < p.len() implies #[trigger] p[i] != 10u8 by {
                    if i < q.len() {
                        assert(p[i] == q[i]);
                    }
                }
            }
            lemma_feed_leaves_the_tail(st, p, x1);
        }
    }
}

/// Only complete lines are handled: a push that ends without error keeps
/// pending exactly the bytes of the old pending bytes and the new ones
/// after their last newline, and no newline among them.
pub proof fn push_keeps_only_the_unfinished_line(t: SseView, bytes: Seq<u8>)
    ensures
        push_spec(t, bytes).1 is None ==> {
            let a = t.pending + bytes;
            let r = push_spec(t, bytes).0.pending;
            &&& no_newline(r)
            &&& r.len() <= a.len()
            &&& a.subrange(a.len() - r.len(), a.len() as int) == r
            &&& r.len() < a.len() ==> a[a.len() - r.len() - 1] == 10u8
        },
{
    let e: Seq<u8> = seq![];
    assert(no_newline(e));
    lemma_feed_leaves_the_tail(t.state, e, t.pending + bytes);
    lemma_feed_pending_clean(t.state, e, t.pending + bytes);
    assert(e + (t.pending + bytes) =~= t.pending + bytes);
}

} // verus!
