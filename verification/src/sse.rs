//! Incremental decoding of a server-sent-events response stream.
//!
//! Raw bytes arrive in arbitrary chunks; the decoder buffers until a full
//! line is available and processes lines one at a time.  An empty line is
//! skipped; the sentinel `data: [DONE]` marks completion; a `data: ` line
//! carries a JSON chunk whose first choice may hold a content delta and
//! whose `usage` snapshot accumulates; a line that fails to parse is
//! skipped.  Once a forwarded delta carries a vendor-internal control
//! marker, forwarding stops for the rest of the stream while accumulation
//! continues.

use vstd::prelude::*;

use crate::decode::{decode_response, spec_opt_obj, spec_opt_text, spec_req_u32, spec_response_ok, spec_usage_ok};
use crate::json::{Json, json_of, parse_json, spec_get};
use crate::protocol::{AIStreamEvent, TokenUsage, is_progress_event, spec_usage_add};
use crate::text::{find_sub, spec_contains, spec_match_at, spec_trim, str_eq, starts_with_sub, trim_str};

verus! {

/// The abstract state of the stream decoder.
pub struct DecoderModel {
    /// Text received but not yet terminated by a newline.
    pub buffer: Seq<char>,
    /// Every content delta accumulated so far, concatenated.
    pub full_text: Seq<char>,
    /// Whether a vendor-leak marker has stopped forwarding.
    pub stopped: bool,
    /// Whether the completion sentinel has been seen.
    pub done_seen: bool,
    /// The accumulated usage snapshots.
    pub usage: Option<TokenUsage>,
    /// The content deltas forwarded to the observer, in order.
    pub forwarded: Seq<Seq<char>>,
}

/// The concatenation of a sequence of texts.
pub open spec fn concat_all(s: Seq<Seq<char>>) -> Seq<char>
    decreases s.len(),
{
    if s.len() == 0 {
        Seq::empty()
    } else {
        concat_all(s.drop_last()) + s.last()
    }
}

/// The content delta of a chunk document: its first choice's delta's
/// `content` string, if all of those are present.
pub open spec fn spec_chunk_content(doc: Json) -> Option<Seq<char>> {
    match spec_get(doc, "choices"@) {
        Some(Json::Arr(items)) => if items@.len() > 0 {
            match spec_opt_obj(items@[0], "delta"@) {
                Some(dj) => spec_opt_text(dj, "content"@),
                None => None,
            }
        } else {
            None
        },
        _ => None,
    }
}

/// The usage snapshot of a chunk document, when present and well shaped.
pub open spec fn spec_chunk_usage(doc: Json) -> Option<TokenUsage> {
    match spec_opt_obj(doc, "usage"@) {
        Some(uj) => if spec_usage_ok(uj) {
            Some(
                TokenUsage {
                    prompt_tokens: spec_req_u32(uj, "prompt_tokens"@),
                    completion_tokens: spec_req_u32(uj, "completion_tokens"@),
                    total_tokens: spec_req_u32(uj, "total_tokens"@),
                },
            )
        } else {
            None
        },
        None => None,
    }
}

/// A delta carries a vendor-internal control marker.
pub open spec fn spec_has_leak_marker(c: Seq<char>) -> bool {
    spec_contains(c, "<｜"@) || spec_contains(c, "DSML"@)
}

/// The effect of one well-shaped chunk document on the decoder state:
/// accumulate the content delta, stop forwarding on a leak marker, forward
/// the delta when forwarding is still on, and fold in the usage snapshot.
pub open spec fn spec_step_doc(m: DecoderModel, filter_leaks: bool, doc: Json) -> DecoderModel {
    let m1 = match spec_chunk_content(doc) {
        Some(c) => {
            let now_stopped = m.stopped || (filter_leaks && spec_has_leak_marker(c));
            let m2 = DecoderModel {
                full_text: m.full_text + c,
                stopped: now_stopped,
                ..m
            };
            if !now_stopped {
                DecoderModel { forwarded: m2.forwarded.push(c), ..m2 }
            } else {
                m2
            }
        },
        None => m,
    };
    match spec_chunk_usage(doc) {
        Some(u) => DecoderModel {
            usage: Some(
                match m1.usage {
                    Some(x) => spec_usage_add(x, u),
                    None => u,
                },
            ),
            ..m1
        },
        None => m1,
    }
}

/// The effect of one complete line on the decoder state.  The sentinel
/// line only records completion: the one terminal event of a run belongs
/// to the embedding layer, never to the decoder.
pub open spec fn spec_step(m: DecoderModel, filter_leaks: bool, line: Seq<char>) -> DecoderModel {
    let t = spec_trim(line);
    if t.len() == 0 {
        m
    } else if t == "data: [DONE]"@ {
        DecoderModel { done_seen: true, ..m }
    } else if spec_match_at(t, "data: "@, 0) {
        let payload = t.skip("data: "@.len() as int);
        match json_of(payload) {
            Some(doc) => if spec_response_ok(doc) {
                spec_step_doc(m, filter_leaks, doc)
            } else {
                m
            },
            None => m,
        }
    } else {
        m
    }
}

/// The effect of a sequence of complete lines, in order.
pub open spec fn spec_steps(m: DecoderModel, filter_leaks: bool, lines: Seq<Seq<char>>) -> DecoderModel
    decreases lines.len(),
{
    if lines.len() == 0 {
        m
    } else {
        spec_steps(spec_step(m, filter_leaks, lines[0]), filter_leaks, lines.drop_first())
    }
}

/// Folding one more line on the right.
pub proof fn lemma_steps_push(
    m: DecoderModel,
    filter_leaks: bool,
    lines: Seq<Seq<char>>,
    line: Seq<char>,
)
    ensures
        spec_steps(m, filter_leaks, lines.push(line)) == spec_step(
            spec_steps(m, filter_leaks, lines),
            filter_leaks,
            line,
        ),
    decreases lines.len(),
{
    if lines.len() == 0 {
        let m1 = spec_step(m, filter_leaks, line);
        assert(lines.push(line)[0] == line);
        assert(lines.push(line).drop_first() =~= Seq::<Seq<char>>::empty());
        assert(spec_steps(m1, filter_leaks, Seq::<Seq<char>>::empty()) == m1);
        assert(spec_steps(m, filter_leaks, lines) == m);
    } else {
        let m1 = spec_step(m, filter_leaks, lines[0]);
        assert(lines.push(line)[0] == lines[0]);
        assert(lines.push(line).drop_first() =~= lines.drop_first().push(line));
        lemma_steps_push(m1, filter_leaks, lines.drop_first(), line);
        assert(spec_steps(m, filter_leaks, lines.push(line)) == spec_steps(
            m1,
            filter_leaks,
            lines.push(line).drop_first(),
        ));
        assert(spec_steps(m1, filter_leaks, lines.push(line).drop_first()) == spec_steps(
            m1,
            filter_leaks,
            lines.drop_first().push(line),
        ));
        assert(spec_steps(m, filter_leaks, lines) == spec_steps(m1, filter_leaks, lines.drop_first()));
        assert(spec_steps(m, filter_leaks, lines.push(line)) == spec_step(
            spec_steps(m, filter_leaks, lines),
            filter_leaks,
            line,
        ));
    }
}

// ---------------------------------------------------------------------------
// splitting buffered text into complete lines
// ---------------------------------------------------------------------------
/// Splits `s` into the lines terminated by `'\n'` and the unterminated
/// rest, with `cur` the text already read of the first line.
pub open spec fn spec_split_rec(s: Seq<char>, cur: Seq<char>) -> (Seq<Seq<char>>, Seq<char>)
    decreases s.len(),
{
    if s.len() == 0 {
        (Seq::empty(), cur)
    } else if s[0] == '\n' {
        let r = spec_split_rec(s.drop_first(), Seq::empty());
        (seq![cur] + r.0, r.1)
    } else {
        spec_split_rec(s.drop_first(), cur.push(s[0]))
    }
}

/// The complete lines of `s` and the unterminated rest.
pub open spec fn spec_split(s: Seq<char>) -> (Seq<Seq<char>>, Seq<char>) {
    spec_split_rec(s, Seq::empty())
}

/// With the first newline at position `p`, the first line splits off.
proof fn lemma_split_rec_first(s: Seq<char>, cur: Seq<char>, p: int)
    requires
        0 <= p < s.len(),
        s[p] == '\n',
        forall|j: int| 0 <= j < p ==> s[j] != '\n',
    ensures
        spec_split_rec(s, cur).0 == seq![cur + s.take(p)] + spec_split(s.skip(p + 1)).0,
        spec_split_rec(s, cur).1 == spec_split(s.skip(p + 1)).1,
    decreases p,
{
    if p == 0 {
        assert(s.drop_first() =~= s.skip(1));
        assert(cur + s.take(0) =~= cur);
    } else {
        lemma_split_rec_first(s.drop_first(), cur.push(s[0]), p - 1);
        assert(s.drop_first().skip(p) =~= s.skip(p + 1));
        assert(cur.push(s[0]) + s.drop_first().take(p - 1) =~= cur + s.take(p));
    }
}

/// With no newline in `s`, nothing splits off.
proof fn lemma_split_rec_none(s: Seq<char>, cur: Seq<char>)
    requires
        forall|j: int| 0 <= j < s.len() ==> s[j] != '\n',
    ensures
        spec_split_rec(s, cur).0 == Seq::<Seq<char>>::empty(),
        spec_split_rec(s, cur).1 == cur + s,
    decreases s.len(),
{
    if s.len() == 0 {
        assert(cur + s =~= cur);
    } else {
        lemma_split_rec_none(s.drop_first(), cur.push(s[0]));
        assert(cur.push(s[0]) + s.drop_first() =~= cur + s);
    }
}

// ---------------------------------------------------------------------------
// the forwarding invariant the decoder keeps
// ---------------------------------------------------------------------------
/// The forwarding invariant: the concatenation of every forwarded content
/// event equals the accumulated text while forwarding is on; once a leak
/// marker stops forwarding, the concatenation stays a prefix of the text,
/// which keeps accumulating.
pub open spec fn decoder_wf(m: DecoderModel) -> bool {
    &&& !m.stopped ==> concat_all(m.forwarded) == m.full_text
    &&& m.stopped ==> concat_all(m.forwarded).is_prefix_of(m.full_text)
}

/// One line preserves the forwarding invariant, and a stopped decoder
/// never forwards again.
pub proof fn lemma_step_preserves_wf(m: DecoderModel, filter_leaks: bool, line: Seq<char>)
    requires
        decoder_wf(m),
    ensures
        decoder_wf(spec_step(m, filter_leaks, line)),
        m.stopped ==> spec_step(m, filter_leaks, line).forwarded == m.forwarded,
        m.stopped ==> spec_step(m, filter_leaks, line).stopped,
{
    let r = spec_step(m, filter_leaks, line);
    let t = spec_trim(line);
    if t.len() != 0 && t != "data: [DONE]"@ && spec_match_at(t, "data: "@, 0) {
        let payload = t.skip("data: "@.len() as int);
        match json_of(payload) {
            Some(doc) => {
                if spec_response_ok(doc) {
                    match spec_chunk_content(doc) {
                        Some(c) => {
                            let now_stopped = m.stopped || (filter_leaks
                                && spec_has_leak_marker(c));
                            if !now_stopped {
                                assert(concat_all(m.forwarded.push(c)) == concat_all(m.forwarded)
                                    + c) by {
                                    assert(m.forwarded.push(c).drop_last() =~= m.forwarded);
                                }
                            } else {
                                assert(concat_all(m.forwarded).is_prefix_of(m.full_text + c)) by {
                                    assert(m.full_text.is_prefix_of(m.full_text + c)) by {
                                        assert((m.full_text + c).take(m.full_text.len() as int)
                                            =~= m.full_text);
                                    }
                                }
                            }
                        },
                        None => {},
                    }
                }
            },
            None => {},
        }
    }
}

/// Any sequence of lines preserves the forwarding invariant.
pub proof fn lemma_steps_preserve_wf(m: DecoderModel, filter_leaks: bool, lines: Seq<Seq<char>>)
    requires
        decoder_wf(m),
    ensures
        decoder_wf(spec_steps(m, filter_leaks, lines)),
    decreases lines.len(),
{
    if lines.len() > 0 {
        lemma_step_preserves_wf(m, filter_leaks, lines[0]);
        lemma_steps_preserve_wf(spec_step(m, filter_leaks, lines[0]), filter_leaks, lines.drop_first());
    }
}

// ---------------------------------------------------------------------------
// the executable decoder
// ---------------------------------------------------------------------------
/// Each actual event is the non-terminal `content` event carrying the
/// forwarded delta at its position.  The decoder emits nothing else; in
/// particular, never a terminal event.
pub open spec fn events_are_contents(es: Seq<AIStreamEvent>, texts: Seq<Seq<char>>) -> bool {
    &&& es.len() == texts.len()
    &&& forall|i: int|
        0 <= i < es.len() ==> is_progress_event(#[trigger] es[i], "content"@, texts[i], None)
}

/// The incremental stream decoder.
pub struct StreamDecoder {
    buffer: String,
    full_text: String,
    stopped: bool,
    done_seen: bool,
    usage: Option<TokenUsage>,
    filter_leaks: bool,
    forwarded: Ghost<Seq<Seq<char>>>,
}

impl StreamDecoder {
    /// The abstract state.
    pub closed spec fn model(&self) -> DecoderModel {
        DecoderModel {
            buffer: self.buffer@,
            full_text: self.full_text@,
            stopped: self.stopped,
            done_seen: self.done_seen,
            usage: self.usage,
            forwarded: self.forwarded@,
        }
    }

    /// Whether this decoder filters vendor-leak markers.
    pub closed spec fn spec_filter_leaks(&self) -> bool {
        self.filter_leaks
    }

    /// The initial decoder state, optionally seeded with usage carried
    /// over from earlier rounds.
    pub open spec fn initial_model(usage: Option<TokenUsage>) -> DecoderModel {
        DecoderModel {
            buffer: Seq::empty(),
            full_text: Seq::empty(),
            stopped: false,
            done_seen: false,
            usage,
            forwarded: Seq::empty(),
        }
    }

    /// A fresh decoder.  `filter_leaks` switches vendor-leak filtering on;
    /// `usage` carries the accumulation in from the tool rounds.
    pub fn new(filter_leaks: bool, usage: Option<TokenUsage>) -> (r: StreamDecoder)
        ensures
            r.model() == Self::initial_model(usage),
            r.spec_filter_leaks() == filter_leaks,
            decoder_wf(r.model()),
    {
        let r = StreamDecoder {
            buffer: String::new(),
            full_text: String::new(),
            stopped: false,
            done_seen: false,
            usage,
            filter_leaks,
            forwarded: Ghost(Seq::empty()),
        };
        proof {
            assert(r.model() == Self::initial_model(usage));
            assert(concat_all(r.model().forwarded) =~= Seq::<char>::empty());
        }
        r
    }

    /// The text accumulated so far.
    pub fn full_text(&self) -> (r: &String)
        ensures
            r@ == self.model().full_text,
    {
        &self.full_text
    }

    /// The usage accumulated so far.
    pub fn usage(&self) -> (r: Option<TokenUsage>)
        ensures
            r == self.model().usage,
    {
        self.usage
    }

    /// Whether the completion sentinel has arrived.
    pub fn done_seen(&self) -> (r: bool)
        ensures
            r == self.model().done_seen,
    {
        self.done_seen
    }

    /// Processes one complete line (without its newline), returning the
    /// content event to forward, if the line produced one.  The decoder
    /// emits no terminal event: the sentinel line only records
    /// completion.
    fn process_line(&mut self, line: &str) -> (r: Option<AIStreamEvent>)
        ensures
            final(self).model() == spec_step(
                old(self).model(),
                old(self).spec_filter_leaks(),
                line@,
            ),
            final(self).spec_filter_leaks() == old(self).spec_filter_leaks(),
            match r {
                Some(e) => final(self).model().forwarded.len() == old(
                    self,
                ).model().forwarded.len() + 1 && final(self).model().forwarded == old(
                    self,
                ).model().forwarded.push(final(self).model().forwarded.last())
                    && is_progress_event(
                    e,
                    "content"@,
                    final(self).model().forwarded.last(),
                    None,
                ),
                None => final(self).model().forwarded == old(self).model().forwarded,
            },
    {
        let t = trim_str(line);
        if t.unicode_len() == 0 {
            return None;
        }
        if str_eq(t, "data: [DONE]") {
            self.done_seen = true;
            return None;
        }
        if !starts_with_sub(t, "data: ") {
            return None;
        }
        let prefix_len = "data: ".unicode_len();
        let payload = t.substring_char(prefix_len, t.unicode_len());
        let doc = match parse_json(payload) {
            Some(doc) => doc,
            None => {
                return None;
            },
        };
        let resp = match decode_response(&doc) {
            Ok(resp) => resp,
            Err(_) => {
                return None;
            },
        };
        let mut event: Option<AIStreamEvent> = None;
        if resp.choices.len() > 0 {
            match &resp.choices[0].delta {
                Some(d) => match &d.content {
                    Some(c) => {
                        if self.filter_leaks && (contains_leak(c.as_str())) {
                            self.stopped = true;
                        }
                        self.full_text.append(c.as_str());
                        if !self.stopped {
                            proof {
                                self.forwarded@ = self.forwarded@.push(c@);
                            }
                            event = Some(
                                AIStreamEvent {
                                    event_type: String::from_str("content"),
                                    content: Some(c.clone()),
                                    done: false,
                                    usage: None,
                                    tool_name: None,
                                },
                            );
                        }
                    },
                    None => {},
                },
                None => {},
            }
        }
        match &resp.usage {
            Some(u) => {
                crate::protocol::accumulate_usage(&mut self.usage, u);
            },
            None => {},
        }
        event
    }
}

/// Equality of decoder states in everything but the line buffer.
pub open spec fn eq_except_buffer(a: DecoderModel, b: DecoderModel) -> bool {
    &&& a.full_text == b.full_text
    &&& a.stopped == b.stopped
    &&& a.done_seen == b.done_seen
    &&& a.usage == b.usage
    &&& a.forwarded == b.forwarded
}

/// The effect of feeding one raw chunk: the buffered text plus the chunk
/// splits into complete lines and a remainder; each complete line is
/// processed in order; the remainder stays buffered.
pub open spec fn spec_push(m: DecoderModel, filter_leaks: bool, chunk: Seq<char>) -> DecoderModel {
    let combined = m.buffer + chunk;
    let stepped = spec_steps(m, filter_leaks, spec_split(combined).0);
    DecoderModel { buffer: spec_split(combined).1, ..stepped }
}

impl StreamDecoder {
    /// Feeds one raw chunk of the response body to the decoder and returns
    /// the content events to forward, in emission order.  The decoder
    /// never returns a terminal event.
    pub fn push_chunk(&mut self, chunk: &str) -> (events: Vec<AIStreamEvent>)
        ensures
            final(self).model() == spec_push(
                old(self).model(),
                old(self).spec_filter_leaks(),
                chunk@,
            ),
            final(self).spec_filter_leaks() == old(self).spec_filter_leaks(),
            old(self).model().forwarded.is_prefix_of(final(self).model().forwarded),
            events_are_contents(
                events@,
                final(self).model().forwarded.skip(old(self).model().forwarded.len() as int),
            ),
    {
        let ghost m_start = old(self).model();
        let ghost fl = old(self).spec_filter_leaks();
        let ghost combined = old(self).model().buffer + chunk@;
        self.buffer.append(chunk);
        let mut events: Vec<AIStreamEvent> = Vec::new();
        let ghost mut processed: Seq<Seq<char>> = Seq::empty();
        proof {
            assert(spec_steps(m_start, fl, processed) == m_start);
            assert(processed + spec_split(self.model().buffer).0 =~= spec_split(
                self.model().buffer,
            ).0);
            assert(m_start.forwarded.skip(m_start.forwarded.len() as int) =~= Seq::<
                Seq<char>,
            >::empty());
        }
        let mut nl = find_sub(self.buffer.as_str(), "\n");
        while nl.is_some()
            invariant
                self.spec_filter_leaks() == fl,
                match nl {
                    Some(p) => spec_match_at(self.model().buffer, "\n"@, p as int) && (forall|
                        j: int,
                    |
                        0 <= j < p ==> !spec_match_at(self.model().buffer, "\n"@, j)),
                    None => !spec_contains(self.model().buffer, "\n"@),
                },
                spec_split(combined).0 == processed + spec_split(self.model().buffer).0,
                spec_split(combined).1 == spec_split(self.model().buffer).1,
                eq_except_buffer(self.model(), spec_steps(m_start, fl, processed)),
                m_start.forwarded.is_prefix_of(self.model().forwarded),
                events_are_contents(
                    events@,
                    self.model().forwarded.skip(m_start.forwarded.len() as int),
                ),
            decreases self.model().buffer.len(),
        {
            proof {
                reveal_strlit("\n");
            }
            let p = nl.unwrap();
            let ghost buf = self.model().buffer;
            let n = self.buffer.as_str().unicode_len();
            let line = String::from_str(self.buffer.as_str().substring_char(0, p));
            let rest = String::from_str(self.buffer.as_str().substring_char(p + 1, n));
            self.buffer = rest;
            proof {
                assert("\n"@ =~= seq!['\n']);
                assert(buf[p as int] == '\n') by {
                    assert(buf.subrange(p as int, p + 1)[0] == buf[p as int]);
                }
                assert forall|j: int| 0 <= j < p implies buf[j] != '\n' by {
                    if buf[j] == '\n' {
                        assert(buf.subrange(j, j + 1) =~= "\n"@);
                        assert(spec_match_at(buf, "\n"@, j));
                    }
                }
                lemma_split_rec_first(buf, Seq::empty(), p as int);
                assert(line@ =~= Seq::<char>::empty() + buf.take(p as int));
                assert(self.model().buffer =~= buf.skip(p + 1));
                assert(spec_split(combined).0 == processed + (seq![line@] + spec_split(
                    self.model().buffer,
                ).0));
            }
            let ev = self.process_line(line.as_str());
            proof {
                lemma_steps_push(m_start, fl, processed, line@);
                processed = processed.push(line@);
                assert(processed + spec_split(self.model().buffer).0 =~= spec_split(
                    combined,
                ).0);
            }
            match ev {
                Some(e) => {
                    events.push(e);
                    proof {
                        assert(self.model().forwarded.skip(m_start.forwarded.len() as int)
                            =~= self.model().forwarded.skip(
                            m_start.forwarded.len() as int,
                        ).drop_last().push(self.model().forwarded.last()));
                    }
                },
                None => {},
            }
            nl = find_sub(self.buffer.as_str(), "\n");
        }
        proof {
            reveal_strlit("\n");
            let buf = self.model().buffer;
            assert forall|j: int| 0 <= j < buf.len() implies buf[j] != '\n' by {
                if buf[j] == '\n' {
                    assert("\n"@ =~= seq!['\n']);
                    assert(buf.subrange(j, j + 1) =~= "\n"@);
                    assert(spec_match_at(buf, "\n"@, j));
                }
            }
            lemma_split_rec_none(buf, Seq::empty());
            assert(Seq::<char>::empty() + buf =~= buf);
            assert(processed =~= spec_split(combined).0);
            assert(final(self).model() == spec_push(m_start, fl, chunk@));
        }
        events
    }
}

/// Whether `c` carries a vendor-internal control marker.
fn contains_leak(c: &str) -> (r: bool)
    ensures
        r == spec_has_leak_marker(c@),
{
    crate::text::contains_sub(c, "<｜") || crate::text::contains_sub(c, "DSML")
}

} // verus!
