//! The frames of the desktop bridge: one JSON text per line, bounded in size.
use vstd::prelude::*;

use crate::broker_protocol::ByteReader;
use crate::json::{
    encode_json, encoded_json, field, text_field, text_in, JsonView, Json, ObjectBuilder,
};
use crate::text::optional;

verus! {

pub const PROTOCOL_VERSION: u64 = 2;

pub const MAX_FRAME_BYTES: usize = 1048576;

/// What a read of one frame came to.
#[derive(Debug, Clone, Copy, PartialEq, Eq, Structural)]
pub enum FrameStatus {
    Complete,
    Oversized,
}

/// How an attempt to read a frame ends.
#[derive(Debug, Clone, Copy, PartialEq, Eq, Structural)]
pub enum FrameEnd {
    Complete,
    Oversized,
    EndOfInput,
}

/// The length of the first line, its line feed included; all of it where there
/// is none.
pub open spec fn line_len(s: Seq<u8>) -> nat
    decreases s.len(),
{
    if s.len() == 0 {
        0
    } else if s[0] == 10 {
        1
    } else {
        1 + line_len(s.skip(1))
    }
}

/// A line without its line feed, and without a carriage return before that.
pub open spec fn stripped(line: Seq<u8>) -> Seq<u8> {
    if line.len() > 0 && line.last() == 10 {
        let body = line.drop_last();
        if body.len() > 0 && body.last() == 13 {
            body.drop_last()
        } else {
            body
        }
    } else {
        line
    }
}

/// The first frame of a stream: how it ends, what it holds, and what of the
/// stream is left.
pub open spec fn next_frame(s: Seq<u8>) -> (FrameEnd, Seq<u8>, Seq<u8>) {
    let n = line_len(s) as int;
    if s.len() == 0 {
        (FrameEnd::EndOfInput, seq![], seq![])
    } else if n > MAX_FRAME_BYTES {
        (FrameEnd::Oversized, seq![], s.skip(n))
    } else {
        (FrameEnd::Complete, stripped(s.take(n)), s.skip(n))
    }
}

proof fn lemma_line_len(s: Seq<u8>, n: int)
    requires
        0 <= n <= s.len(),
        forall|j: int| 0 <= j < n ==> s[j] != 10,
    ensures
        n <= line_len(s) <= s.len(),
        n == s.len() ==> line_len(s) == n,
        n < s.len() ==> line_len(s) > n,
        n < s.len() && s[n] == 10 ==> line_len(s) == n + 1,
    decreases s.len(),
{
    if n > 0 {
        assert forall|j: int| 0 <= j < n - 1 implies s.skip(1)[j] != 10 by {
            assert(s.skip(1)[j] == s[j + 1]);
        }
        lemma_line_len(s.skip(1), n - 1);
        if n < s.len() {
            assert(s.skip(1)[n - 1] == s[n]);
        }
    } else if s.len() > 0 && s[0] != 10 {
        lemma_line_len(s.skip(1), 0);
    }
}

proof fn lemma_line_shape(s: Seq<u8>)
    requires
        s.len() > 0,
    ensures
        1 <= line_len(s) <= s.len(),
        forall|j: int| 0 <= j < line_len(s) - 1 ==> s[j] != 10,
        s[line_len(s) - 1] != 10 ==> line_len(s) == s.len(),
    decreases s.len(),
{
    if s[0] != 10 && s.len() > 1 {
        lemma_line_shape(s.skip(1));
        assert forall|j: int| 0 <= j < line_len(s) - 1 implies s[j] != 10 by {
            if j > 0 {
                assert(s.skip(1)[j - 1] == s[j]);
            }
        }
        assert(s.skip(1)[line_len(s.skip(1)) - 1] == s[line_len(s) - 1]);
    } else if s[0] != 10 {
        assert(line_len(s.skip(1)) == 0);
    }
}

fn line_length(s: &[u8]) -> (n: usize)
    ensures
        n == line_len(s@),
{
    let mut i: usize = 0;
    while i < s.len()
        invariant
            i <= s.len(),
            forall|j: int| 0 <= j < i ==> s@[j] != 10,
        decreases s.len() - i,
    {
        if s[i] == 10 {
            proof {
                lemma_line_len(s@, i as int);
            }
            return i + 1;
        }
        i = i + 1;
    }
    proof {
        lemma_line_len(s@, i as int);
    }
    i
}

/// A frame as it is read, buffer by buffer.
pub struct FrameAssembler {
    frame: Vec<u8>,
    oversized: bool,
}

pub struct FrameState {
    pub frame: Seq<u8>,
    pub oversized: bool,
}

impl View for FrameAssembler {
    type V = FrameState;

    closed spec fn view(&self) -> FrameState {
        FrameState { frame: self.frame@, oversized: self.oversized }
    }
}

/// What the next buffer does: the new state, how much of the buffer is
/// consumed, and how the frame ends if it does. An empty buffer is the end of
/// the input. A frame that is too large is dropped up to its line feed.
pub open spec fn accept_buffer(state: FrameState, available: Seq<u8>) -> (
    FrameState,
    nat,
    Option<FrameEnd>,
) {
    if available.len() == 0 {
        (
            state,
            0,
            Some(
                if state.oversized {
                    FrameEnd::Oversized
                } else if state.frame.len() == 0 {
                    FrameEnd::EndOfInput
                } else {
                    FrameEnd::Complete
                },
            ),
        )
    } else {
        let n = line_len(available);
        let ends = available[n - 1] == 10;
        let grown = state.frame + available.take(n as int);
        if state.oversized || grown.len() > MAX_FRAME_BYTES {
            (
                FrameState { frame: state.frame, oversized: true },
                n,
                if ends {
                    Some(FrameEnd::Oversized)
                } else {
                    None
                },
            )
        } else if ends {
            (FrameState { frame: stripped(grown), oversized: false }, n, Some(FrameEnd::Complete))
        } else {
            (FrameState { frame: grown, oversized: false }, n, None)
        }
    }
}

impl FrameAssembler {
    pub fn new() -> (assembler: FrameAssembler)
        ensures
            assembler@ == (FrameState { frame: seq![], oversized: false }),
    {
        let assembler = FrameAssembler { frame: Vec::new(), oversized: false };
        assert(assembler.frame@ =~= seq![]);
        assembler
    }

    /// Takes the next buffer of input.
    pub fn accept(&mut self, available: &[u8]) -> (r: (usize, Option<FrameEnd>))
        ensures
            (final(self)@, r.0 as nat, r.1) == accept_buffer(old(self)@, available@),
            r.0 <= available@.len(),
    {
        if available.len() == 0 {
            let end = if self.oversized {
                FrameEnd::Oversized
            } else if self.frame.len() == 0 {
                FrameEnd::EndOfInput
            } else {
                FrameEnd::Complete
            };
            return (0, Some(end));
        }
        proof {
            lemma_line_shape(available@);
        }
        let n: usize = line_length(available);
        let ends = available[n - 1] == 10;
        if self.oversized || n > MAX_FRAME_BYTES || self.frame.len() > MAX_FRAME_BYTES - n {
            self.oversized = true;
            return (n, if ends {
                Some(FrameEnd::Oversized)
            } else {
                None
            });
        }
        self.frame.extend_from_slice(vstd::slice::slice_subrange(available, 0, n));
        let ghost grown = self.frame@;
        assert(grown =~= old(self)@.frame + available@.take(n as int));
        if ends {
            assert(grown.last() == 10);
            self.frame.pop();
            if self.frame.len() > 0 && self.frame[self.frame.len() - 1] == 13 {
                self.frame.pop();
            }
            assert(self.frame@ =~= stripped(grown));
            return (n, Some(FrameEnd::Complete));
        }
        (n, None)
    }

    /// The bytes of a frame that is complete.
    pub fn into_frame(self) -> (frame: Vec<u8>)
        ensures
            frame@ == self@.frame,
    {
        self.frame
    }
}

/// How much of a frame that is too long is read before that shows: the buffers
/// that fit whole.
pub open spec fn fitting(buffer_bytes: usize) -> int {
    MAX_FRAME_BYTES - MAX_FRAME_BYTES % buffer_bytes
}

proof fn lemma_fitting(i: int, buffer_bytes: usize)
    requires
        0 < buffer_bytes,
        0 <= i <= MAX_FRAME_BYTES < i + buffer_bytes,
        i % (buffer_bytes as int) == 0,
    ensures
        i == fitting(buffer_bytes),
{
    let b = buffer_bytes as int;
    let m = MAX_FRAME_BYTES as int;
    vstd::arithmetic::div_mod::lemma_fundamental_div_mod(i, b);
    vstd::arithmetic::mul::lemma_mul_is_commutative(b, i / b);
    vstd::arithmetic::div_mod::lemma_fundamental_div_mod_converse(m, b, i / b, m - i);
}

/// Reads one frame through buffers of at most `buffer_bytes`. Where the buffers
/// end does not matter for a frame that is complete; the end of the input is
/// `None`. Nothing of what `frame` held before is left in it.
pub fn read_frame(input: &mut ByteReader, frame: &mut Vec<u8>, buffer_bytes: usize) -> (r: Option<
    FrameStatus,
>)
    requires
        buffer_bytes > 0,
    ensures
        final(input)@ == next_frame(old(input)@).2,
        match next_frame(old(input)@).0 {
            FrameEnd::EndOfInput => r is None && final(frame)@ == Seq::<u8>::empty(),
            FrameEnd::Oversized => r == Some(FrameStatus::Oversized) && final(frame)@ == old(
                input,
            )@.take(fitting(buffer_bytes)),
            FrameEnd::Complete => r == Some(FrameStatus::Complete) && final(frame)@ == next_frame(
                old(input)@,
            ).1,
        },
{
    let ghost s = input@;
    let ghost mut i: int = 0;
    let mut assembler = FrameAssembler::new();
    frame.clear();
    assert(s.skip(0) =~= s);
    assert(s.take(0) =~= seq![]);
    loop
        invariant
            buffer_bytes > 0,
            s == old(input)@,
            0 <= i <= s.len(),
            i % (buffer_bytes as int) == 0 || i == s.len(),
            input@ == s.skip(i),
            frame@ == Seq::<u8>::empty(),
            forall|j: int| 0 <= j < i ==> s[j] != 10,
            assembler@.oversized ==> i > MAX_FRAME_BYTES && assembler@.frame == s.take(
                fitting(buffer_bytes),
            ),
            !assembler@.oversized ==> assembler@.frame == s.take(i) && i <= MAX_FRAME_BYTES,
        decreases s.len() - i,
    {
        let available = input.fill(buffer_bytes);
        let ghost part = available@;
        let ghost before = assembler@;
        let (consumed, end) = assembler.accept(available);
        proof {
            lemma_line_len(s, i);
            if part.len() > 0 {
                lemma_line_shape(part);
                assert forall|j: int| 0 <= j < i + consumed - 1 implies s[j] != 10 by {
                    if j >= i {
                        assert(part[j - i] == s[j]);
                    }
                }
                assert(part[consumed - 1] == s[i + consumed - 1]);
                lemma_line_len(s, i + consumed - 1);
                if s[i + consumed - 1] != 10 {
                    lemma_line_len(s, i + consumed);
                }
                assert(s.take(i) + part.take(consumed as int) =~= s.take(i + consumed));
                if assembler@.oversized && !before.oversized {
                    lemma_fitting(i, buffer_bytes);
                }
                if end is None && i + consumed < s.len() {
                    vstd::arithmetic::div_mod::lemma_mod_add_multiples_vanish(
                        i,
                        buffer_bytes as int,
                    );
                }
            }
        }
        input.consume(consumed);
        assert(s.skip(i).skip(consumed as int) =~= s.skip(i + consumed));
        match end {
            None => {
                proof {
                    i = i + consumed;
                }
            },
            Some(FrameEnd::EndOfInput) => {
                assert(s.skip(i) =~= seq![]);
                return None;
            },
            Some(FrameEnd::Oversized) => {
                assert(part.len() == 0 ==> s.skip(i) =~= s.skip(line_len(s) as int));
                *frame = assembler.into_frame();
                return Some(FrameStatus::Oversized);
            },
            Some(FrameEnd::Complete) => {
                proof {
                    if part.len() == 0 {
                        assert(s.take(i) =~= s);
                        assert(s.last() != 10);
                    }
                }
                *frame = assembler.into_frame();
                return Some(FrameStatus::Complete);
            },
        }
    }
}

/// Drops the input up to and including the next line feed.
pub fn discard_to_newline(input: &mut ByteReader, buffer_bytes: usize)
    requires
        buffer_bytes > 0,
    ensures
        final(input)@ == old(input)@.skip(line_len(old(input)@) as int),
{
    let ghost s = input@;
    let ghost mut i: int = 0;
    assert(s.skip(0) =~= s);
    loop
        invariant
            buffer_bytes > 0,
            s == old(input)@,
            0 <= i <= s.len(),
            input@ == s.skip(i),
            forall|j: int| 0 <= j < i ==> s[j] != 10,
        decreases s.len() - i,
    {
        let available = input.fill(buffer_bytes);
        if available.len() == 0 {
            proof {
                lemma_line_len(s, i);
                assert(s.skip(i) =~= s.skip(line_len(s) as int));
            }
            return;
        }
        let ghost part = available@;
        let n: usize = line_length(available);
        proof {
            lemma_line_shape(part);
            assert forall|j: int| 0 <= j < i + n - 1 implies s[j] != 10 by {
                if j >= i {
                    assert(part[j - i] == s[j]);
                }
            }
            assert(part[n - 1] == s[i + n - 1]);
            lemma_line_len(s, i + n - 1);
        }
        let ends = available[n - 1] == 10;
        input.consume(n);
        assert(s.skip(i).skip(n as int) =~= s.skip(i + n));
        if ends {
            return;
        }
        proof {
            i = i + n;
        }
    }
}

/// The members of an error response.
pub open spec fn error_view(id: Option<Seq<char>>, code: Seq<char>) -> JsonView {
    JsonView::Object(
        seq![
            ("version"@, JsonView::Unsigned(PROTOCOL_VERSION)),
            ("id"@, crate::json::text_or_null(id)),
            ("error"@, JsonView::Object(seq![("code"@, JsonView::Text(code))])),
        ],
    )
}

/// The response that carries an error code.
pub fn error_response(id: Option<&str>, code: &str) -> (response: Json)
    ensures
        response@ == error_view(crate::json::found_text(id), code@),
{
    let mut error = ObjectBuilder::new();
    error.put_text("code", code);
    assert(error@ =~= seq![("code"@, JsonView::Text(code@))]);
    let mut response = ObjectBuilder::new();
    response.put("version", Json::Unsigned(PROTOCOL_VERSION));
    match id {
        Some(text) => response.put_text("id", text),
        None => response.put("id", Json::Null),
    }
    response.put("error", error.finish());
    assert(response@ =~= error_view(crate::json::found_text(id), code@)->Object_0);
    response.finish()
}

/// The members of a response with a result.
pub open spec fn result_view(id: Seq<char>, result: JsonView) -> JsonView {
    JsonView::Object(
        seq![
            ("version"@, JsonView::Unsigned(PROTOCOL_VERSION)),
            ("id"@, JsonView::Text(id)),
            ("result"@, result),
        ],
    )
}

/// The response to a request: its result, or the code of its error.
pub fn respond(id: &str, result: Result<Json, &'static str>) -> (response: Json)
    ensures
        response@ == (match result {
            Ok(value) => result_view(id@, value@),
            Err(code) => error_view(Some(id@), code@),
        }),
{
    match result {
        Ok(value) => {
            let mut response = ObjectBuilder::new();
            response.put("version", Json::Unsigned(PROTOCOL_VERSION));
            response.put_text("id", id);
            response.put("result", value);
            assert(response@ =~= result_view(id@, value@)->Object_0);
            response.finish()
        },
        Err(code) => error_response(Some(id), code),
    }
}

/// The frame for an encoded response; one that is too large gives way to the
/// fallback.
pub open spec fn chosen_frame(
    encoded: Option<Seq<u8>>,
    fallback: Option<Seq<u8>>,
) -> Option<Seq<u8>> {
    match encoded {
        None => None,
        Some(bytes) => if bytes.len() <= MAX_FRAME_BYTES {
            Some(bytes.push(10))
        } else {
            match fallback {
                None => None,
                Some(smaller) => Some(smaller.push(10)),
            }
        },
    }
}

/// Picks the frame for an encoded response.
pub fn choose_frame(encoded: Option<Vec<u8>>, fallback: Option<Vec<u8>>) -> (r: Result<
    Vec<u8>,
    String,
>)
    ensures
        match chosen_frame(optional(encoded), optional(fallback)) {
            Some(frame) => r is Ok && r->Ok_0@ == frame,
            None => r is Err && r->Err_0@ == "response-serialization-failed"@,
        },
{
    match encoded {
        None => Err("response-serialization-failed".to_owned()),
        Some(mut bytes) => {
            if bytes.len() <= MAX_FRAME_BYTES {
                bytes.push(10);
                Ok(bytes)
            } else {
                match fallback {
                    None => Err("response-serialization-failed".to_owned()),
                    Some(mut smaller) => {
                        smaller.push(10);
                        Ok(smaller)
                    },
                }
            }
        },
    }
}

/// The frame that is written for a response.
pub open spec fn response_frame(response: JsonView) -> Option<Seq<u8>> {
    chosen_frame(
        encoded_json(response),
        encoded_json(error_view(text_in(field(response, "id"@)), "response-too-large"@)),
    )
}

/// Appends the frame of a response to the output.
pub fn write_response(output: &mut Vec<u8>, response: &Json) -> (r: Result<(), String>)
    ensures
        match response_frame(response@) {
            Some(frame) => r is Ok && final(output)@ == old(output)@ + frame,
            None => r is Err && r->Err_0@ == "response-serialization-failed"@ && final(output)@
                == old(output)@,
        },
{
    let encoded = encode_json(response);
    let fallback = encode_json(
        &error_response(text_field(response, "id"), "response-too-large"),
    );
    match choose_frame(encoded, fallback) {
        Ok(frame) => {
            output.extend_from_slice(frame.as_slice());
            assert(output@ =~= old(output)@ + frame@);
            Ok(())
        },
        Err(error) => Err(error),
    }
}

/// Whether a response ends the session.
pub fn is_shutdown(response: &Json) -> (r: bool)
    ensures
        r == (match field(response@, "result"@) {
            Some(result) => field(result, "shutdown"@) == Some(JsonView::Bool(true)),
            None => false,
        }),
{
    match response.get("result") {
        Some(result) => match result.get("shutdown") {
            Some(Json::Bool(flag)) => *flag,
            _ => false,
        },
        None => false,
    }
}

/// A frame of printable bytes reads back as it was written, whatever follows
/// it, as long as it fits with its line feed.
pub proof fn law_written_frames_read_back(encoded: Seq<u8>, rest: Seq<u8>)
    requires
        encoded.len() < MAX_FRAME_BYTES,
        forall|i: int| 0 <= i < encoded.len() ==> #[trigger] encoded[i] >= 0x20,
    ensures
        chosen_frame(Some(encoded), None) == Some(encoded.push(10)),
        next_frame(encoded.push(10) + rest) == (FrameEnd::Complete, encoded, rest),
{
    let s = encoded.push(10) + rest;
    assert forall|j: int| 0 <= j < encoded.len() implies s[j] != 10 by {
        assert(s[j] == encoded[j]);
    }
    lemma_line_len(s, encoded.len() as int);
    assert(s[encoded.len() as int] == 10);
    assert(s.take(encoded.len() as int + 1) =~= encoded.push(10));
    assert(encoded.push(10).drop_last() =~= encoded);
    assert(s.skip(encoded.len() as int + 1) =~= rest);
}

/// No frame that is handed on is larger than the limit.
pub proof fn law_frames_are_bounded(s: Seq<u8>)
    ensures
        next_frame(s).1.len() <= MAX_FRAME_BYTES,
        next_frame(s).2.len() <= s.len(),
        s.len() > 0 ==> next_frame(s).2.len() < s.len(),
{
    if s.len() > 0 {
        lemma_line_shape(s);
    }
}

} // verus!
