use vstd::prelude::*;
use crate::errors::StreamError;
use crate::registry::CancellationRegistry;
use crate::sse::{SseFrame, decode_line_chars, spec_line_ends_stream, spec_line_delta};
use crate::text::{chars_of, chars_subrange};

verus! {

/// One notification to the UI, tagged with the request it belongs to.
/// Zero or more `Delta` events precede exactly one terminal `Done` or
/// `Error` for every request that completes the connect phase; a
/// canceled request ends with `Done`, never with `Error`.
pub enum StreamEvent {
    Delta { request_id: String, text: String },
    Done { request_id: String },
    Error { request_id: String, message: String },
}

/// The position of the first line feed in `s`.
pub open spec fn spec_find_newline(s: Seq<char>) -> Option<int>
    decreases s.len(),
{
    if s.len() == 0 {
        None
    } else if s[0] == '\n' {
        Some(0)
    } else {
        match spec_find_newline(s.drop_first()) {
            Some(i) => Some(i + 1),
            None => None,
        }
    }
}

pub proof fn lemma_find_newline(s: Seq<char>)
    ensures
        match spec_find_newline(s) {
            Some(i) => 0 <= i < s.len() && s[i] == '\n' && forall|j: int|
                0 <= j < i ==> s[j] != '\n',
            None => forall|j: int| 0 <= j < s.len() ==> s[j] != '\n',
        },
    decreases s.len(),
{
    if s.len() > 0 && s[0] != '\n' {
        lemma_find_newline(s.drop_first());
        let sub = s.drop_first();
        assert(forall|j: int| 0 <= j < sub.len() ==> sub[j] == s[j + 1]);
        match spec_find_newline(sub) {
            Some(i) => {
                assert(spec_find_newline(s) == Some(i + 1));
                assert(s[i + 1] == sub[i]);
                assert forall|j: int| 0 <= j < i + 1 implies s[j] != '\n' by {
                    if j > 0 {
                        assert(sub[j - 1] != '\n');
                    }
                }
            },
            None => {
                assert forall|j: int| 0 <= j < s.len() implies s[j] != '\n' by {
                    if j > 0 {
                        assert(sub[j - 1] != '\n');
                    }
                }
            },
        }
    }
}

/// A line with its optional trailing carriage return removed.
pub open spec fn spec_strip_cr(line: Seq<char>) -> Seq<char> {
    if line.len() > 0 && line.last() == '\r' {
        line.drop_last()
    } else {
        line
    }
}

/// What draining a buffer yields: the non-empty deltas of its complete
/// lines up to an end-of-stream line, whether such a line was seen, and
/// the unconsumed tail after the last complete line.
pub open spec fn spec_drain(buf: Seq<char>) -> (Seq<Seq<char>>, bool, Seq<char>)
    decreases buf.len(),
    via spec_drain_decreases
{
    match spec_find_newline(buf) {
        None => (Seq::empty(), false, buf),
        Some(i) => {
            let line = spec_strip_cr(buf.subrange(0, i));
            let rest = buf.subrange(i + 1, buf.len() as int);
            if spec_line_ends_stream(line) {
                (Seq::empty(), true, rest)
            } else {
                let tail = spec_drain(rest);
                match spec_line_delta(line) {
                    Some(d) => if d.len() > 0 {
                        (seq![d] + tail.0, tail.1, tail.2)
                    } else {
                        tail
                    },
                    None => tail,
                }
            }
        },
    }
}

#[via_fn]
proof fn spec_drain_decreases(buf: Seq<char>) {
    lemma_find_newline(buf);
}

/// One in-flight streaming completion: the id every event carries, the
/// bytes of the response body not yet consumed as complete lines, and
/// whether the stream has reached its terminal state.
pub struct StreamSession {
    request_id: String,
    pending: Vec<char>,
    finished: bool,
}

/// How a stream starts: already canceled — the one `Done` event, and no
/// network request is to be made — or ready to connect.
pub enum BeginOutcome {
    CanceledBeforeStart(StreamEvent),
    Ready(StreamSession),
}

/// Starts the stream for `request_id`. An id marked canceled before the
/// stream begins yields the single terminal `Done` event and no
/// session, so no network call is made; otherwise a fresh session is
/// handed back. Either way any stale cancellation mark for the id is
/// cleared, so a reused id starts clean.
pub fn begin_stream(reg: &mut CancellationRegistry, request_id: String) -> (r: BeginOutcome)
    ensures
        final(reg)@ == old(reg)@.remove(request_id@),
        old(reg)@.contains(request_id@) ==> (r matches BeginOutcome::CanceledBeforeStart(ev)
            && (ev matches StreamEvent::Done { request_id: rid } && rid@ == request_id@)),
        !old(reg)@.contains(request_id@) ==> (r matches BeginOutcome::Ready(s) && s.id()
            == request_id@ && s.buffered() == Seq::<char>::empty() && !s.is_finished()),
{
    if reg.is_canceled(&request_id) {
        reg.clear(&request_id);
        BeginOutcome::CanceledBeforeStart(StreamEvent::Done { request_id })
    } else {
        reg.clear(&request_id);
        BeginOutcome::Ready(
            StreamSession { request_id, pending: Vec::new(), finished: false },
        )
    }
}

impl StreamSession {
    /// The id this session serves.
    pub closed spec fn id(&self) -> Seq<char> {
        self.request_id@
    }

    /// The bytes of the response body not yet consumed as complete lines.
    pub closed spec fn buffered(&self) -> Seq<char> {
        self.pending@
    }

    /// The stream has reached its terminal state.
    pub closed spec fn is_finished(&self) -> bool {
        self.finished
    }

    /// Whether the stream has reached its terminal state.
    pub fn finished(&self) -> (r: bool)
        ensures
            r == self.is_finished(),
    {
        self.finished
    }

    fn append_chunk(&mut self, cs: &Vec<char>)
        ensures
            final(self).id() == old(self).id(),
            final(self).is_finished() == old(self).is_finished(),
            final(self).request_id == old(self).request_id,
            final(self).buffered() == old(self).buffered() + cs@,
    {
        proof {
            assert(old(self).pending@ + cs@.subrange(0, 0) =~= old(self).pending@);
        }
        let mut k: usize = 0;
        while k < cs.len()
            invariant
                k <= cs@.len(),
                self.request_id == old(self).request_id,
                self.finished == old(self).finished,
                self.pending@ == old(self).pending@ + cs@.subrange(0, k as int),
            decreases cs@.len() - k,
        {
            self.pending.push(cs[k]);
            proof {
                assert(self.pending@ =~= old(self).pending@ + cs@.subrange(0, k + 1 as int));
            }
            k = k + 1;
        }
        proof {
            assert(cs@.subrange(0, cs@.len() as int) =~= cs@);
        }
    }

    fn take_line(&mut self) -> (r: Option<Vec<char>>)
        ensures
            final(self).id() == old(self).id(),
            final(self).is_finished() == old(self).is_finished(),
            final(self).request_id == old(self).request_id,
            match r {
                None => final(self).buffered() == old(self).buffered() && spec_find_newline(
                    old(self).buffered(),
                ) is None,
                Some(line) => {
                    &&& spec_find_newline(old(self).buffered()) matches Some(i)
                        && line@ == spec_strip_cr(old(self).buffered().subrange(0, i))
                        && final(self).buffered() == old(self).buffered().subrange(
                        i + 1,
                        old(self).buffered().len() as int,
                    )
                    &&& final(self).buffered().len() < old(self).buffered().len()
                },
            },
    {
        let n = self.pending.len();
        let mut i: usize = 0;
        while i < n && self.pending[i] != '\n'
            invariant
                n == self.pending@.len(),
                i <= n,
                forall|j: int| 0 <= j < i ==> self.pending@[j] != '\n',
            decreases n - i,
        {
            i = i + 1;
        }
        proof {
            lemma_find_newline(self.pending@);
        }
        if i == n {
            return None;
        }
        proof {
            let k = spec_find_newline(self.pending@)->Some_0;
            assert(self.pending@[i as int] == '\n');
            assert(spec_find_newline(self.pending@) is Some);
            if k < i {
                assert(self.pending@[k] != '\n');
            }
            if i < k {
                assert(self.pending@[i as int] != '\n');
            }
            assert(k == i);
        }
        let j: usize = if i > 0 && self.pending[i - 1] == '\r' {
            i - 1
        } else {
            i
        };
        let line = chars_subrange(&self.pending, 0, j);
        let rest = chars_subrange(&self.pending, i + 1, self.pending.len());
        proof {
            let l = self.pending@.subrange(0, i as int);
            if i > 0 {
                assert(l.last() == self.pending@[i as int - 1]);
            }
            if i > 0 && self.pending@[i as int - 1] == '\r' {
                assert(l.drop_last() =~= self.pending@.subrange(0, i as int - 1));
            }
            assert(line@ == spec_strip_cr(l));
        }
        self.pending = rest;
        Some(line)
    }

    /// Feeds one chunk of the response body. Cancellation is observed
    /// first: a canceled stream emits exactly one `Done` event — never
    /// an `Error`, and no further deltas — and its registry mark is
    /// cleared. Otherwise every complete line now buffered is decoded
    /// in order; each non-empty delta becomes one `Delta` event, and an
    /// end-of-stream line yields the terminal `Done` event, clears the
    /// registry mark and finishes the session, ignoring whatever
    /// follows it. The registry is held exclusively for the duration of
    /// one call, so one check per chunk is the finest observable
    /// cancellation granularity; a driver that wants per-line
    /// granularity feeds smaller chunks.
    pub fn on_chunk(&mut self, reg: &mut CancellationRegistry, chunk: &str) -> (r: Vec<
        StreamEvent,
    >)
        requires
            !old(self).is_finished(),
        ensures
            final(self).id() == old(self).id(),
            old(reg)@.contains(old(self).id()) ==> final(self).is_finished() && final(reg)@
                == old(reg)@.remove(old(self).id()) && r@.len() == 1 && (r@[0]
                matches StreamEvent::Done { request_id } && request_id@ == old(self).id()),
            !old(reg)@.contains(old(self).id()) ==> {
                let drained = spec_drain(old(self).buffered() + chunk@);
                &&& final(self).is_finished() == drained.1
                &&& (!drained.1 ==> final(self).buffered() == drained.2 && final(reg)@
                    == old(reg)@ && r@.len() == drained.0.len())
                &&& (drained.1 ==> final(reg)@ == old(reg)@.remove(old(self).id())
                    && r@.len() == drained.0.len() + 1 && (r@[drained.0.len() as int]
                    matches StreamEvent::Done { request_id } && request_id@ == old(self).id()))
                &&& forall|k: int| 0 <= k < drained.0.len() ==> ((#[trigger] r@[k])
                    matches StreamEvent::Delta { request_id, text } && request_id@
                    == old(self).id() && text@ == drained.0[k])
            },
    {
        let mut events: Vec<StreamEvent> = Vec::new();
        if reg.is_canceled(&self.request_id) {
            reg.clear(&self.request_id);
            self.finished = true;
            events.push(StreamEvent::Done { request_id: self.request_id.clone() });
            return events;
        }
        let cs = chars_of(chunk);
        let ghost buf0 = self.pending@ + cs@;
        let ghost drained = spec_drain(buf0);
        let ghost rid = self.request_id@;
        let ghost reg0 = reg@;
        self.append_chunk(&cs);
        let ghost mut done_texts: Seq<Seq<char>> = Seq::empty();
        loop
            invariant
                rid == old(self).id(),
                buf0 == old(self).buffered() + chunk@,
                drained == spec_drain(buf0),
                reg0 == old(reg)@,
                !reg0.contains(rid),
                !self.finished,
                self.request_id@ == rid,
                reg@ == reg0,
                events@.len() == done_texts.len(),
                forall|k: int| 0 <= k < events@.len() ==> ((#[trigger] events@[k])
                    matches StreamEvent::Delta { request_id, text } && request_id@ == rid
                    && text@ == done_texts[k]),
                drained.0 == done_texts + spec_drain(self.pending@).0,
                drained.1 == spec_drain(self.pending@).1,
                !drained.1 ==> drained.2 == spec_drain(self.pending@).2,
            ensures
                !self.finished,
                self.request_id@ == rid,
                reg@ == reg0,
                events@.len() == done_texts.len(),
                forall|k: int| 0 <= k < events@.len() ==> ((#[trigger] events@[k])
                    matches StreamEvent::Delta { request_id, text } && request_id@ == rid
                    && text@ == done_texts[k]),
                drained.0 == done_texts,
                drained.1 == false,
                drained.2 == self.pending@,
            decreases self.pending@.len(),
        {
            let ghost prev = self.pending@;
            match self.take_line() {
                None => {
                    proof {
                        assert(drained.0 =~= done_texts);
                    }
                    break;
                },
                Some(line) => {
                    proof {
                        lemma_find_newline(prev);
                        let i = spec_find_newline(prev)->Some_0;
                        assert(line@ == spec_strip_cr(prev.subrange(0, i)));
                        assert(self.pending@ == prev.subrange(i + 1, prev.len() as int));
                    }
                    match decode_line_chars(&line) {
                        SseFrame::EndOfStream => {
                            proof {
                                assert(drained.0 =~= done_texts);
                            }
                            reg.clear(&self.request_id);
                            self.finished = true;
                            events.push(
                                StreamEvent::Done { request_id: self.request_id.clone() },
                            );
                            return events;
                        },
                        SseFrame::Delta(d) => {
                            if !d.as_str().is_empty() {
                                proof {
                                    let tail = spec_drain(self.pending@);
                                    assert(drained.0 =~= (done_texts.push(d@)) + tail.0);
                                    done_texts = done_texts.push(d@);
                                }
                                let ev_id = self.request_id.clone();
                                events.push(StreamEvent::Delta { request_id: ev_id, text: d });
                            }
                        },
                        SseFrame::NoDelta => {},
                    }
                },
            }
        }
        events
    }

    /// Ends the stream after the response bytes ran out normally. A
    /// cancel observed here still ends with the one `Done` event, never
    /// an `Error`. Otherwise the trailing fragment, if any, gets one
    /// best-effort decode — only a delta matters here, the sentinel is
    /// ignored — and the terminal `Done` event follows. The registry
    /// mark is cleared either way.
    pub fn on_stream_end(&mut self, reg: &mut CancellationRegistry) -> (r: Vec<StreamEvent>)
        requires
            !old(self).is_finished(),
        ensures
            final(self).id() == old(self).id(),
            final(self).is_finished(),
            final(reg)@ == old(reg)@.remove(old(self).id()),
            old(reg)@.contains(old(self).id()) ==> r@.len() == 1 && (r@[0]
                matches StreamEvent::Done { request_id } && request_id@ == old(self).id()),
            !old(reg)@.contains(old(self).id()) ==> {
                let d = spec_line_delta(old(self).buffered());
                &&& (match d {
                    Some(t) => t.len() > 0,
                    None => false,
                }) ==> r@.len() == 2 && (r@[0] matches StreamEvent::Delta { request_id, text }
                    && request_id@ == old(self).id() && text@ == d->Some_0) && (r@[1]
                    matches StreamEvent::Done { request_id } && request_id@ == old(self).id())
                &&& (match d {
                    Some(t) => t.len() == 0,
                    None => true,
                }) ==> r@.len() == 1 && (r@[0] matches StreamEvent::Done { request_id }
                    && request_id@ == old(self).id())
            },
    {
        let mut events: Vec<StreamEvent> = Vec::new();
        if reg.is_canceled(&self.request_id) {
            reg.clear(&self.request_id);
            self.finished = true;
            events.push(StreamEvent::Done { request_id: self.request_id.clone() });
            return events;
        }
        if self.pending.len() > 0 {
            match decode_line_chars(&self.pending) {
                SseFrame::Delta(d) => {
                    if !d.as_str().is_empty() {
                        let ev_id = self.request_id.clone();
                        events.push(StreamEvent::Delta { request_id: ev_id, text: d });
                    }
                },
                SseFrame::EndOfStream => {},
                SseFrame::NoDelta => {},
            }
        } else {
            proof {
                assert(self.pending@ =~= Seq::<char>::empty());
            }
        }
        reg.clear(&self.request_id);
        self.finished = true;
        events.push(StreamEvent::Done { request_id: self.request_id.clone() });
        events
    }

    /// Ends the stream with the given failure: the one terminal `Error`
    /// event, carrying the failure's diagnostic text. The registry mark
    /// is cleared so the id cannot linger.
    pub fn fail(&mut self, reg: &mut CancellationRegistry, err: &StreamError) -> (r: Vec<
        StreamEvent,
    >)
        requires
            !old(self).is_finished(),
        ensures
            final(self).id() == old(self).id(),
            final(self).is_finished(),
            final(reg)@ == old(reg)@.remove(old(self).id()),
            r@.len() == 1,
            r@[0] matches StreamEvent::Error { request_id, message } && request_id@
                == old(self).id() && message@ == err.spec_message(),
    {
        let mut events: Vec<StreamEvent> = Vec::new();
        reg.clear(&self.request_id);
        self.finished = true;
        let ev_id = self.request_id.clone();
        events.push(StreamEvent::Error { request_id: ev_id, message: err.message() });
        events
    }
}

/// The `Error` event for a failure that happens before any session
/// exists, such as a missing credential.
pub fn error_event(request_id: &String, err: &StreamError) -> (ev: StreamEvent)
    ensures
        ev matches StreamEvent::Error { request_id: rid, message } && rid@ == request_id@
            && message@ == err.spec_message(),
{
    StreamEvent::Error { request_id: request_id.clone(), message: err.message() }
}

} // verus!
