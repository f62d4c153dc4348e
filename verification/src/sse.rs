//! Decoding of a server-sent-event stream of chat completion chunks.
//!
//! The decoder keeps the text received so far and splits it into lines. A
//! line that, once trimmed, starts with `data: ` carries a payload; the payload
//! `[DONE]` ends the stream; every other line is skipped. The bytes of each
//! network chunk are decoded on their own (invalid UTF-8 becomes U+FFFD) and
//! appended to the buffer.
use vstd::prelude::*;
use crate::text::{
    chars_equal, chars_of, find_char, find_in, has_prefix, lemma_find_char, lemma_find_char_at,
    string_from, sub_chars, trim, trim_chars,
};
use vstd::utf8::{valid_utf8, decode_utf8};

verus! {

broadcast use vstd::string::group_string_axioms;

/// The marker that starts a payload line.
pub open spec fn data_prefix() -> Seq<char> {
    seq!['d', 'a', 't', 'a', ':', ' ']
}

/// The payload that ends the stream.
pub open spec fn done_marker() -> Seq<char> {
    seq!['[', 'D', 'O', 'N', 'E', ']']
}

/// What one line of the stream means.
pub enum LineEvent {
    /// An empty line, a comment or a field other than `data`.
    Skip,
    /// The `[DONE]` payload.
    Done,
    /// A payload to be decoded as a chunk.
    Data(Seq<char>),
}

/// The meaning of `line`, which holds no line break.
pub open spec fn line_event(line: Seq<char>) -> LineEvent {
    let t = trim(line);
    if data_prefix().is_prefix_of(t) {
        let d = t.skip(6);
        if d == done_marker() {
            LineEvent::Done
        } else {
            LineEvent::Data(d)
        }
    } else {
        LineEvent::Skip
    }
}

/// What one call of `next_action` yields, as a value of the model.
pub enum SseStep {
    Data(Seq<char>),
    Done,
    NeedMore,
}

/// One call of `next_action` on the buffer `buf`: the step it yields and the
/// buffer it leaves.
pub open spec fn next_step(buf: Seq<char>) -> (SseStep, Seq<char>)
    decreases buf.len(),
{
    match find_char(buf, '\n') {
        None => (SseStep::NeedMore, buf),
        Some(pos) => {
            proof {
                lemma_find_char(buf, '\n');
            }
            let rest = buf.skip(pos + 1int);
            match line_event(buf.take(pos as int)) {
                LineEvent::Skip => next_step(rest),
                LineEvent::Done => (SseStep::Done, rest),
                LineEvent::Data(d) => (SseStep::Data(d), rest),
            }
        },
    }
}

/// Everything that the complete lines of `buf` yield: the payloads in order,
/// and then either the unfinished last line (`Some`) or the end of the
/// stream (`None`, when a `[DONE]` line was met).
pub open spec fn stream_events(buf: Seq<char>) -> (Seq<Seq<char>>, Option<Seq<char>>)
    decreases buf.len(),
{
    match find_char(buf, '\n') {
        None => (Seq::empty(), Some(buf)),
        Some(pos) => {
            proof {
                lemma_find_char(buf, '\n');
            }
            let rest = buf.skip(pos + 1int);
            match line_event(buf.take(pos as int)) {
                LineEvent::Skip => stream_events(rest),
                LineEvent::Done => (Seq::empty(), None),
                LineEvent::Data(d) => {
                    let (es, end) = stream_events(rest);
                    (seq![d] + es, end)
                },
            }
        },
    }
}

/// What the unfinished text left when the byte stream ends yields.
pub open spec fn final_event(buf: Seq<char>) -> Option<Seq<char>> {
    match line_event(buf) {
        LineEvent::Data(d) => Some(d),
        _ => None,
    }
}

/// The characters that `String::from_utf8_lossy` makes of `bytes`.
pub uninterp spec fn utf8_lossy(bytes: Seq<u8>) -> Seq<char>;

/// `String::from_utf8_lossy`, made an owned `String`. Its result is named
/// `utf8_lossy`; of valid UTF-8 its documentation promises the decoded text.
#[verifier::external_body]
fn decode_utf8_lossy(bytes: &[u8]) -> (r: String)
    ensures
        r@ == utf8_lossy(bytes@),
        valid_utf8(bytes@) ==> r@ == decode_utf8(bytes@),
{
    String::from_utf8_lossy(bytes).into_owned()
}

/// What the decoder hands back for one request of the next item.
pub enum SseAction {
    /// A payload line: the text after `data: `.
    Data(String),
    /// The `[DONE]` line: the stream is over.
    Done,
    /// No complete line is buffered: feed the next network chunk.
    NeedMore,
}

impl SseAction {
    pub open spec fn step(&self) -> SseStep {
        match self {
            SseAction::Data(s) => SseStep::Data(s@),
            SseAction::Done => SseStep::Done,
            SseAction::NeedMore => SseStep::NeedMore,
        }
    }
}

/// The line buffer of a server-sent-event stream.
pub struct SseDecoder {
    buf: Vec<char>,
}

impl View for SseDecoder {
    type V = Seq<char>;

    closed spec fn view(&self) -> Seq<char> {
        self.buf@
    }
}

fn data_prefix_chars() -> (r: Vec<char>)
    ensures
        r@ == data_prefix(),
{
    let mut r: Vec<char> = Vec::new();
    r.push('d');
    r.push('a');
    r.push('t');
    r.push('a');
    r.push(':');
    r.push(' ');
    assert(r@ =~= data_prefix());
    r
}

fn done_marker_chars() -> (r: Vec<char>)
    ensures
        r@ == done_marker(),
{
    let mut r: Vec<char> = Vec::new();
    r.push('[');
    r.push('D');
    r.push('O');
    r.push('N');
    r.push('E');
    r.push(']');
    assert(r@ =~= done_marker());
    r
}

impl SseDecoder {
    /// A decoder with an empty buffer.
    pub fn new() -> (d: SseDecoder)
        ensures
            d@ == Seq::<char>::empty(),
    {
        SseDecoder { buf: Vec::new() }
    }

    /// Takes the next complete line that means something off the buffer:
    /// a payload, the end marker, or `NeedMore` when no complete line is left.
    pub fn next_action(&mut self) -> (a: SseAction)
        ensures
            (a.step(), final(self)@) == next_step(old(self)@),
    {
        let prefix = data_prefix_chars();
        let done = done_marker_chars();
        loop
            invariant
                prefix@ == data_prefix(),
                done@ == done_marker(),
                next_step(self@) == next_step(old(self)@),
            decreases self@.len(),
        {
            match find_in(&self.buf, '\n') {
                None => {
                    return SseAction::NeedMore;
                },
                Some(pos) => {
                    proof {
                        lemma_find_char(self.buf@, '\n');
                    }
                    let ghost buf = self.buf@;
                    let line = sub_chars(&self.buf, 0, pos);
                    let rest = sub_chars(&self.buf, pos + 1, self.buf.len());
                    assert(line@ =~= buf.take(pos as int));
                    assert(rest@ =~= buf.skip(pos + 1int));
                    self.buf = rest;
                    let t = trim_chars(&line);
                    if has_prefix(&t, &prefix) {
                        let d = sub_chars(&t, 6, t.len());
                        assert(d@ =~= t@.skip(6));
                        if chars_equal(&d, &done) {
                            return SseAction::Done;
                        } else {
                            return SseAction::Data(string_from(&d));
                        }
                    }
                },
            }
        }
    }

    /// Appends the text of one network chunk, decoded on its own.
    pub fn feed(&mut self, bytes: &[u8])
        ensures
            final(self)@ == old(self)@ + utf8_lossy(bytes@),
            valid_utf8(bytes@) ==> final(self)@ == old(self)@ + decode_utf8(bytes@),
    {
        let text = decode_utf8_lossy(bytes);
        let cs = chars_of(text.as_str());
        let mut i: usize = 0;
        let ghost start = self.buf@;
        while i < cs.len()
            invariant
                i <= cs.len(),
                self.buf@ == start + cs@.take(i as int),
            decreases cs.len() - i,
        {
            self.buf.push(cs[i]);
            assert(start + cs@.take(i + 1) =~= (start + cs@.take(i as int)).push(cs@[i as int]));
            i = i + 1;
        }
        assert(cs@.take(cs@.len() as int) =~= cs@);
    }

    /// At the end of the byte stream: the payload of the text left in the
    /// buffer, if it is a payload line other than `[DONE]`. Empties the buffer.
    pub fn finish(&mut self) -> (r: Option<String>)
        ensures
            final(self)@ == Seq::<char>::empty(),
            match r {
                Some(s) => final_event(old(self)@) == Some(s@),
                None => final_event(old(self)@) is None,
            },
    {
        let mut line: Vec<char> = Vec::new();
        std::mem::swap(&mut line, &mut self.buf);
        let t = trim_chars(&line);
        let prefix = data_prefix_chars();
        if has_prefix(&t, &prefix) {
            let d = sub_chars(&t, 6, t.len());
            assert(d@ =~= t@.skip(6));
            let done = done_marker_chars();
            if !chars_equal(&d, &done) {
                return Some(string_from(&d));
            }
        }
        None
    }
}

/// How one step relates to the whole run: the first payload of
/// `stream_events(buf)` is the one that `next_step(buf)` yields, and the rest
/// of the run is that of the buffer it leaves.
pub proof fn lemma_next_step_starts_events(buf: Seq<char>)
    ensures
        match next_step(buf) {
            (SseStep::NeedMore, r) => stream_events(buf) == (Seq::<Seq<char>>::empty(), Some(r)),
            (SseStep::Done, _) => stream_events(buf) == (Seq::<Seq<char>>::empty(), None::<Seq<char>>),
            (SseStep::Data(d), r) => stream_events(buf) == (seq![d] + stream_events(r).0, stream_events(r).1),
        },
    decreases buf.len(),
{
    lemma_find_char(buf, '\n');
    match find_char(buf, '\n') {
        None => {},
        Some(pos) => {
            let rest = buf.skip(pos + 1int);
            match line_event(buf.take(pos as int)) {
                LineEvent::Skip => {
                    lemma_next_step_starts_events(rest);
                },
                _ => {},
            }
        },
    }
}

/// How the network splits the stream into chunks does not change what it
/// yields: the events of `a + b` are those of `a`, followed (unless `a`
/// already ended the stream) by those of its unfinished line joined with `b`.
pub proof fn lemma_stream_events_append(a: Seq<char>, b: Seq<char>)
    ensures
        match stream_events(a) {
            (es, Some(r)) => stream_events(a + b) == (es + stream_events(r + b).0, stream_events(
                r + b,
            ).1),
            (es, None) => stream_events(a + b) == (es, None::<Seq<char>>),
        },
    decreases a.len(),
{
    lemma_find_char(a, '\n');
    match find_char(a, '\n') {
        None => {
            assert(Seq::<Seq<char>>::empty() + stream_events(a + b).0 =~= stream_events(a + b).0);
        },
        Some(pos) => {
            let ab = a + b;
            assert(ab[pos as int] == '\n');
            assert forall|j: int| 0 <= j < pos implies ab[j] != '\n' by {
                assert(ab[j] == a[j]);
            }
            lemma_find_char_at(ab, '\n', pos as int);
            assert(ab.take(pos as int) =~= a.take(pos as int));
            assert(ab.skip(pos + 1int) =~= a.skip(pos + 1int) + b);
            let rest = a.skip(pos + 1int);
            lemma_stream_events_append(rest, b);
            match line_event(a.take(pos as int)) {
                LineEvent::Skip => {},
                LineEvent::Done => {},
                LineEvent::Data(d) => {
                    match stream_events(rest) {
                        (es, Some(r)) => {
                            assert(seq![d] + (es + stream_events(r + b).0) =~= (seq![d] + es)
                                + stream_events(r + b).0);
                        },
                        (es, None) => {},
                    }
                },
            }
        },
    }
}

} // verus!

verus! {

/// Decoding two valid UTF-8 texts one after the other gives what decoding
/// them joined gives.
pub proof fn lemma_decode_utf8_concat(x: Seq<u8>, y: Seq<u8>)
    requires
        valid_utf8(x),
        valid_utf8(y),
    ensures
        valid_utf8(x + y),
        decode_utf8(x + y) == decode_utf8(x) + decode_utf8(y),
    decreases x.len(),
{
    vstd::utf8::valid_utf8_concat(x, y);
    if x.len() == 0 {
        assert(x + y =~= y);
        assert(decode_utf8(x) + decode_utf8(y) =~= decode_utf8(y));
    } else {
        let rest = vstd::utf8::pop_first_scalar(x);
        assert(vstd::utf8::pop_first_scalar(x + y) =~= rest + y);
        lemma_decode_utf8_concat(rest, y);
        assert(seq![vstd::utf8::decode_first_scalar(x) as char] + (decode_utf8(rest) + decode_utf8(y))
            =~= (seq![vstd::utf8::decode_first_scalar(x) as char] + decode_utf8(rest)) + decode_utf8(y));
    }
}

/// Feeding two chunks of valid UTF-8 in turn leaves the buffer that feeding
/// them as one chunk leaves; so, with `lemma_stream_events_append`, where the
/// network splits such a stream changes nothing it yields.
pub proof fn lemma_feed_split(buf: Seq<char>, x: Seq<u8>, y: Seq<u8>)
    requires
        valid_utf8(x),
        valid_utf8(y),
    ensures
        valid_utf8(x + y),
        (buf + decode_utf8(x)) + decode_utf8(y) == buf + decode_utf8(x + y),
{
    lemma_decode_utf8_concat(x, y);
    assert((buf + decode_utf8(x)) + decode_utf8(y) =~= buf + (decode_utf8(x) + decode_utf8(y)));
}

} // verus!
