//! The inbound side: what a read yielded, the bytes waiting to be decoded,
//! and the log line of a decoded message.
//!
//! Decoding itself is the caller's business. This module decides what is
//! handed to the decoder and what becomes of its answer.

use vstd::prelude::*;
use vstd::slice::{slice_subrange, slice_to_vec};
use vstd::string::StringExecFns;

verus! {

/// The largest number of bytes asked of the transport in one read.
pub const READ_CHUNK: usize = 1024;

/// Where the log is kept unless the caller says otherwise.
pub const DEFAULT_LOG_PATH: &'static str = "events.log";

/// A decoded inbound message, as far as the logger looks at it: how many
/// fields it has, and its textual form.
#[derive(Debug, PartialEq, Eq)]
pub struct Message {
    pub fields: usize,
    pub text: String,
}

/// A message as a mathematical value.
pub ghost struct MessageView {
    pub fields: nat,
    pub text: Seq<char>,
}

impl View for Message {
    type V = MessageView;

    open spec fn view(&self) -> MessageView {
        MessageView { fields: self.fields as nat, text: self.text@ }
    }
}

/// What the decoder made of the bytes it was handed.
#[derive(Debug, PartialEq, Eq)]
pub enum DecodeAttempt {
    /// The first `consumed` bytes form one complete frame, which decodes to
    /// `message`.
    Complete { consumed: usize, message: Message },
    /// The bytes are the beginning of a frame; more are needed.
    Incomplete,
    /// The bytes are not the beginning of any frame.
    Malformed,
}

/// A decode attempt as a mathematical value.
pub ghost enum DecodeAttemptView {
    Complete { consumed: nat, message: MessageView },
    Incomplete,
    Malformed,
}

impl View for DecodeAttempt {
    type V = DecodeAttemptView;

    open spec fn view(&self) -> DecodeAttemptView {
        match self {
            DecodeAttempt::Complete { consumed, message } => DecodeAttemptView::Complete {
                consumed: *consumed as nat,
                message: message@,
            },
            DecodeAttempt::Incomplete => DecodeAttemptView::Incomplete,
            DecodeAttempt::Malformed => DecodeAttemptView::Malformed,
        }
    }
}

/// Turns the outcome of one read into either end-of-stream or the bytes to
/// hand to the decoder.
///
/// `read_result` is what the read call returned and `buffer` the memory it
/// filled. A result of zero (the peer closed the pipe) or below (the read
/// failed) is end-of-stream, and nothing else is. Otherwise the answer holds
/// the first `read_result` bytes of the buffer.
pub fn receive_message(read_result: isize, buffer: &[u8]) -> (chunk: Option<Vec<u8>>)
    requires
        read_result <= buffer@.len(),
    ensures
        chunk is None <==> read_result <= 0,
        chunk matches Some(bytes) ==> bytes@ == buffer@.take(read_result as int),
{
    if read_result <= 0 {
        None
    } else {
        Some(slice_to_vec(slice_subrange(buffer, 0, read_result as usize)))
    }
}

/// The bytes that arrived and have not been decoded yet, oldest first.
pub struct FrameBuffer {
    held: Vec<u8>,
}

impl View for FrameBuffer {
    type V = Seq<u8>;

    closed spec fn view(&self) -> Seq<u8> {
        self.held@
    }
}

impl FrameBuffer {
    /// An empty buffer.
    pub fn new() -> (buffer: FrameBuffer)
        ensures
            buffer@ == Seq::<u8>::empty(),
    {
        FrameBuffer { held: Vec::new() }
    }

    /// How many bytes are waiting.
    pub fn len(&self) -> (count: usize)
        ensures
            count == self@.len(),
    {
        self.held.len()
    }

    /// Whether nothing is waiting.
    pub fn is_empty(&self) -> (empty: bool)
        ensures
            empty <==> self@.len() == 0,
    {
        self.held.len() == 0
    }

    /// The waiting bytes, oldest first.
    pub fn held(&self) -> (bytes: &[u8])
        ensures
            bytes@ == self@,
    {
        self.held.as_slice()
    }

    /// Adds newly arrived bytes behind those already waiting.
    pub fn extend(&mut self, chunk: &[u8])
        ensures
            final(self)@ == old(self)@ + chunk@,
    {
        self.held.extend_from_slice(chunk);
        assert(self.held@ =~= old(self).held@ + chunk@);
    }

    /// Drops the `count` oldest bytes: those of a frame that has been
    /// decoded.
    pub fn consume(&mut self, count: usize)
        requires
            count <= old(self)@.len(),
        ensures
            final(self)@ == old(self)@.skip(count as int),
    {
        let rest = self.held.split_off(count);
        self.held = rest;
    }
}

/// The line that a message adds to the log: its text and a newline, if the
/// message has any field; nothing if it has none.
pub open spec fn line_of(message: MessageView) -> Option<Seq<char>> {
    if message.fields > 0 {
        Some(message.text.push('\n'))
    } else {
        None
    }
}

/// The test for a newline.
pub open spec fn is_newline() -> spec_fn(char) -> bool {
    |c: char| c == '\n'
}

/// How many newlines a text holds.
pub open spec fn newlines(text: Seq<char>) -> nat {
    text.filter(is_newline()).len()
}

/// The line of a message ends with a newline and holds one newline more
/// than the message's text: it is a single line of the log whenever the text
/// holds no newline itself.
pub proof fn lemma_line_ends_with_newline(message: MessageView)
    requires
        message.fields > 0,
    ensures
        line_of(message) is Some,
        line_of(message)->0.last() == '\n',
        newlines(line_of(message)->0) == newlines(message.text) + 1,
{
    message.text.lemma_filter_len_push(is_newline(), '\n');
}

/// Renders the log line of a message.
///
/// A message without fields is not logged. Any other message gives exactly
/// one line: its text followed by a newline.
pub fn log_line(message: &Message) -> (line: Option<String>)
    ensures
        line is Some <==> message@.fields > 0,
        line matches Some(text) ==> Some(text@) == line_of(message@),
{
    if message.fields > 0 {
        let line = message.text.clone().concat("\n");
        proof {
            reveal_strlit("\n");
            assert("\n"@ =~= seq!['\n']);
            assert(line@ =~= message.text@.push('\n'));
        }
        Some(line)
    } else {
        None
    }
}

} // verus!
