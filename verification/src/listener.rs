//! The listener: one state machine for the whole exchange with the editor.
//!
//! The listener performs no input or output. Its caller does, one action at
//! a time, and reports back what happened:
//!
//! ```text
//! Idle -> Attaching -> RegisteringHook -> Listening -> Closed
//! ```
//!
//! * `Idle`: nothing has happened. `Start` sends the attach request.
//! * `Attaching`, `RegisteringHook`: a request is being written. A partial
//!   write offers the rest again; a fault closes the listener.
//! * `Listening`: open the log; then read, decode, append, and again, until
//!   a read reports end-of-stream.
//! * `Closed`: terminal.

use vstd::prelude::*;
use vstd::slice::slice_to_vec;
use crate::inbound::{
    log_line,
    line_of,
    DecodeAttempt,
    DecodeAttemptView,
    FrameBuffer,
    READ_CHUNK,
};
use crate::outbound::{write_outcome, Outbound, SendError};
use crate::request::{
    attach_arguments,
    command_arguments,
    frame_encoding,
    nvim_attach,
    nvim_execute,
    text_fits,
    RequestIds,
    REQUEST,
};

verus! {

/// The five phases of a listener's life.
#[derive(Clone, Copy, Debug, PartialEq, Eq, Structural)]
pub enum Phase {
    Idle,
    Attaching,
    RegisteringHook,
    Listening,
    Closed,
}

/// A listener's position: its phase and, while listening, which answer it
/// waits for.
#[derive(Clone, Copy, Debug, PartialEq, Eq, Structural)]
pub enum Stage {
    Idle,
    Attaching,
    RegisteringHook,
    /// Listening: the log is being opened.
    OpeningLog,
    /// Listening: a read is under way.
    Reading,
    /// Listening: the waiting bytes are with the decoder.
    Decoding,
    /// Listening: a line is being appended to the log.
    Appending,
    Closed,
}

/// Why a listener gave up.
#[derive(Clone, Copy, Debug, PartialEq, Eq, Structural)]
pub enum ListenerError {
    /// A request could not be encoded or written.
    Send(SendError),
    /// No request identifier is left.
    IdsExhausted,
    /// The decoder rejected the waiting bytes.
    Malformed,
    /// The decoder reported a frame of no bytes, or of more bytes than it was
    /// handed.
    BadFrame,
    /// The log could not be opened.
    LogOpenFailed,
    /// A line could not be appended to the log.
    LogWriteFailed,
    /// The caller reported something the listener was not waiting for.
    UnexpectedEvent,
}

/// What the caller reports to the listener.
#[derive(Debug, PartialEq, Eq)]
pub enum Event {
    /// The listener is to begin.
    Start,
    /// The write call for the last `Write` action returned this.
    Wrote(isize),
    /// The log is open for appending.
    LogOpened,
    /// The log could not be opened.
    LogOpenFailed,
    /// The read for the last `Read` action ended: `None` for end-of-stream,
    /// else the bytes that arrived.
    Received(Option<Vec<u8>>),
    /// The decoder's answer to the last `Decode` action.
    Decoded(DecodeAttempt),
    /// The line of the last `Append` action is in the log.
    Appended,
    /// The line of the last `Append` action could not be written.
    AppendFailed,
}

/// What the listener asks of its caller.
#[derive(Debug, PartialEq, Eq)]
pub enum Action {
    /// Offer these bytes to the outbound pipe in one write call.
    Write(Vec<u8>),
    /// Open the log for appending.
    OpenLog,
    /// Read at most this many bytes from the inbound pipe.
    Read(usize),
    /// Hand these bytes to the decoder.
    Decode(Vec<u8>),
    /// Append this line to the log.
    Append(String),
    /// The stream has ended: release the log and stop.
    Close,
    /// The listener gave up: release the log and stop.
    Abort(ListenerError),
}

/// An event as a mathematical value.
pub ghost enum EventView {
    Start,
    Wrote(int),
    LogOpened,
    LogOpenFailed,
    Received(Option<Seq<u8>>),
    Decoded(DecodeAttemptView),
    Appended,
    AppendFailed,
}

/// An action as a mathematical value.
pub ghost enum ActionView {
    Write(Seq<u8>),
    OpenLog,
    Read(nat),
    Decode(Seq<u8>),
    Append(Seq<char>),
    Close,
    Abort(ListenerError),
}

/// What a read yielded, as a mathematical value.
pub open spec fn chunk_view(chunk: Option<Vec<u8>>) -> Option<Seq<u8>> {
    match chunk {
        Some(bytes) => Some(bytes@),
        None => None,
    }
}

impl View for Event {
    type V = EventView;

    open spec fn view(&self) -> EventView {
        match self {
            Event::Start => EventView::Start,
            Event::Wrote(result) => EventView::Wrote(*result as int),
            Event::LogOpened => EventView::LogOpened,
            Event::LogOpenFailed => EventView::LogOpenFailed,
            Event::Received(chunk) => EventView::Received(chunk_view(*chunk)),
            Event::Decoded(attempt) => EventView::Decoded(attempt@),
            Event::Appended => EventView::Appended,
            Event::AppendFailed => EventView::AppendFailed,
        }
    }
}

impl View for Action {
    type V = ActionView;

    open spec fn view(&self) -> ActionView {
        match self {
            Action::Write(bytes) => ActionView::Write(bytes@),
            Action::OpenLog => ActionView::OpenLog,
            Action::Read(limit) => ActionView::Read(*limit as nat),
            Action::Decode(bytes) => ActionView::Decode(bytes@),
            Action::Append(line) => ActionView::Append(line@),
            Action::Close => ActionView::Close,
            Action::Abort(fault) => ActionView::Abort(*fault),
        }
    }
}

/// A listener as a mathematical value.
pub ghost struct ListenerView {
    pub stage: Stage,
    /// The largest request identifier used so far.
    pub issued: nat,
    /// The command that registers the notification hook.
    pub hook: Seq<char>,
    /// The request being written, and how much of it is through.
    pub frame: Seq<u8>,
    pub written: nat,
    /// The inbound bytes not yet decoded, oldest first.
    pub held: Seq<u8>,
}

/// The phase that a stage belongs to.
pub open spec fn phase_of(stage: Stage) -> Phase {
    match stage {
        Stage::Idle => Phase::Idle,
        Stage::Attaching => Phase::Attaching,
        Stage::RegisteringHook => Phase::RegisteringHook,
        Stage::OpeningLog | Stage::Reading | Stage::Decoding | Stage::Appending => Phase::Listening,
        Stage::Closed => Phase::Closed,
    }
}

/// A listener to which nothing has happened yet.
pub open spec fn initial(hook: Seq<char>) -> ListenerView {
    ListenerView {
        stage: Stage::Idle,
        issued: 0,
        hook,
        frame: Seq::empty(),
        written: 0,
        held: Seq::empty(),
    }
}

/// Giving up: the listener closes and says why.
pub open spec fn abort(s: ListenerView, fault: ListenerError) -> (ListenerView, ActionView) {
    (ListenerView { stage: Stage::Closed, ..s }, ActionView::Abort(fault))
}

/// Beginning to write `frame` under the next request identifier.
pub open spec fn begin_write(s: ListenerView, stage: Stage, frame: Seq<u8>) -> (
    ListenerView,
    ActionView,
) {
    (
        ListenerView { stage, issued: s.issued + 1, frame, written: 0, ..s },
        ActionView::Write(frame),
    )
}

/// Sending the attach request.
pub open spec fn attach(s: ListenerView) -> (ListenerView, ActionView) {
    if s.issued >= u32::MAX {
        abort(s, ListenerError::IdsExhausted)
    } else {
        begin_write(
            s,
            Stage::Attaching,
            frame_encoding(REQUEST, (s.issued + 1) as u32, "ui_attach"@, attach_arguments()),
        )
    }
}

/// Sending the command that registers the notification hook.
pub open spec fn register_hook(s: ListenerView) -> (ListenerView, ActionView) {
    if s.issued >= u32::MAX {
        abort(s, ListenerError::IdsExhausted)
    } else if !text_fits(s.hook) {
        abort(ListenerView { issued: s.issued + 1, ..s }, ListenerError::Send(SendError::TooLarge))
    } else {
        begin_write(
            s,
            Stage::RegisteringHook,
            frame_encoding(
                REQUEST,
                (s.issued + 1) as u32,
                "vim_command"@,
                command_arguments(s.hook),
            ),
        )
    }
}

/// Asking for the log to be opened, once the handshake is through.
pub open spec fn open_log(s: ListenerView) -> (ListenerView, ActionView) {
    (ListenerView { stage: Stage::OpeningLog, ..s }, ActionView::OpenLog)
}

/// Asking for the next read.
pub open spec fn read_next(s: ListenerView) -> (ListenerView, ActionView) {
    (ListenerView { stage: Stage::Reading, ..s }, ActionView::Read(READ_CHUNK as nat))
}

/// Going on after a frame: the waiting bytes go to the decoder; if none
/// wait, the listener reads.
pub open spec fn resume(s: ListenerView) -> (ListenerView, ActionView) {
    if s.held.len() > 0 {
        (ListenerView { stage: Stage::Decoding, ..s }, ActionView::Decode(s.held))
    } else {
        read_next(s)
    }
}

/// What a write call's answer means while a request is being written.
pub open spec fn after_write(s: ListenerView, result: int) -> (ListenerView, ActionView) {
    match write_outcome(s.frame.skip(s.written as int).len(), result) {
        Err(fault) => abort(s, ListenerError::Send(fault)),
        Ok(count) => {
            let t = ListenerView { written: s.written + count, ..s };
            if t.written != t.frame.len() {
                (t, ActionView::Write(t.frame.skip(t.written as int)))
            } else if s.stage == Stage::Attaching {
                register_hook(t)
            } else {
                open_log(t)
            }
        },
    }
}

/// What the end of a read means: end-of-stream closes the listener, bytes
/// join those that wait.
pub open spec fn after_read(s: ListenerView, chunk: Option<Seq<u8>>) -> (
    ListenerView,
    ActionView,
) {
    match chunk {
        None => (ListenerView { stage: Stage::Closed, ..s }, ActionView::Close),
        Some(bytes) => resume(ListenerView { held: s.held + bytes, ..s }),
    }
}

/// Whether the decoder's count of consumed bytes is credible: at least one
/// byte, and no more than were waiting.
pub open spec fn frame_in_bounds(s: ListenerView, consumed: nat) -> bool {
    0 < consumed <= s.held.len()
}

/// What the decoder's answer means.
pub open spec fn after_decode(s: ListenerView, attempt: DecodeAttemptView) -> (
    ListenerView,
    ActionView,
) {
    match attempt {
        DecodeAttemptView::Incomplete => read_next(s),
        DecodeAttemptView::Malformed => abort(s, ListenerError::Malformed),
        DecodeAttemptView::Complete { consumed, message } => {
            if !frame_in_bounds(s, consumed) {
                abort(s, ListenerError::BadFrame)
            } else {
                let t = ListenerView { held: s.held.skip(consumed as int), ..s };
                match line_of(message) {
                    Some(line) => (
                        ListenerView { stage: Stage::Appending, ..t },
                        ActionView::Append(line),
                    ),
                    None => resume(t),
                }
            }
        },
    }
}

/// The listener's transition function: the state after an event, and what
/// the caller is to do next.
pub open spec fn step_spec(s: ListenerView, event: EventView) -> (ListenerView, ActionView) {
    match (s.stage, event) {
        (Stage::Closed, _) => (s, ActionView::Close),
        (Stage::Idle, EventView::Start) => attach(s),
        (Stage::Attaching, EventView::Wrote(result)) => after_write(s, result),
        (Stage::RegisteringHook, EventView::Wrote(result)) => after_write(s, result),
        (Stage::OpeningLog, EventView::LogOpened) => read_next(s),
        (Stage::OpeningLog, EventView::LogOpenFailed) => abort(s, ListenerError::LogOpenFailed),
        (Stage::Reading, EventView::Received(chunk)) => after_read(s, chunk),
        (Stage::Decoding, EventView::Decoded(attempt)) => after_decode(s, attempt),
        (Stage::Appending, EventView::Appended) => resume(s),
        (Stage::Appending, EventView::AppendFailed) => abort(s, ListenerError::LogWriteFailed),
        _ => abort(s, ListenerError::UnexpectedEvent),
    }
}

/// The listener: where it stands, the identifiers of its requests, the
/// request on its way out and the inbound bytes that wait for the decoder.
pub struct Listener {
    stage: Stage,
    ids: RequestIds,
    hook: String,
    outbound: Outbound,
    inbound: FrameBuffer,
}

impl View for Listener {
    type V = ListenerView;

    closed spec fn view(&self) -> ListenerView {
        ListenerView {
            stage: self.stage,
            issued: self.ids.issued(),
            hook: self.hook@,
            frame: self.outbound.frame(),
            written: self.outbound.written(),
            held: self.inbound@,
        }
    }
}

impl Listener {
    /// A listener that will register `hook` once attached.
    pub fn new(hook: String) -> (listener: Listener)
        ensures
            listener@ == initial(hook@),
    {
        Listener {
            stage: Stage::Idle,
            ids: RequestIds::new(),
            hook,
            outbound: Outbound::new(Vec::new()),
            inbound: FrameBuffer::new(),
        }
    }

    /// A listener that will register `hook` once attached, and that numbers
    /// its requests with what `ids` hands out next.
    pub fn with_ids(hook: String, ids: RequestIds) -> (listener: Listener)
        ensures
            listener@ == (ListenerView { issued: ids.issued(), ..initial(hook@) }),
    {
        Listener {
            stage: Stage::Idle,
            ids,
            hook,
            outbound: Outbound::new(Vec::new()),
            inbound: FrameBuffer::new(),
        }
    }

    /// Where the listener stands.
    pub fn stage(&self) -> (stage: Stage)
        ensures
            stage == self@.stage,
    {
        self.stage
    }

    /// The phase the listener is in.
    pub fn phase(&self) -> (phase: Phase)
        ensures
            phase == phase_of(self@.stage),
    {
        match self.stage {
            Stage::Idle => Phase::Idle,
            Stage::Attaching => Phase::Attaching,
            Stage::RegisteringHook => Phase::RegisteringHook,
            Stage::OpeningLog | Stage::Reading | Stage::Decoding | Stage::Appending => {
                Phase::Listening
            },
            Stage::Closed => Phase::Closed,
        }
    }

    fn abort(&mut self, fault: ListenerError) -> (action: Action)
        ensures
            (final(self)@, action@) == abort(old(self)@, fault),
    {
        self.stage = Stage::Closed;
        Action::Abort(fault)
    }

    fn begin_write(&mut self, stage: Stage, frame: Outbound) -> (action: Action)
        requires
            frame.written() == 0,
        ensures
            final(self)@ == (ListenerView {
                stage,
                frame: frame.frame(),
                written: 0,
                ..old(self)@
            }),
            action@ == ActionView::Write(frame.frame()),
    {
        let bytes = slice_to_vec(frame.pending());
        assert(frame.frame().skip(0) =~= frame.frame());
        self.stage = stage;
        self.outbound = frame;
        Action::Write(bytes)
    }

    fn attach(&mut self) -> (action: Action)
        ensures
            (final(self)@, action@) == attach(old(self)@),
    {
        match self.ids.allocate() {
            None => self.abort(ListenerError::IdsExhausted),
            Some(id) => {
                let frame = nvim_attach(id);
                self.begin_write(Stage::Attaching, frame)
            },
        }
    }

    fn register_hook(&mut self) -> (action: Action)
        ensures
            (final(self)@, action@) == register_hook(old(self)@),
    {
        match self.ids.allocate() {
            None => self.abort(ListenerError::IdsExhausted),
            Some(id) => match nvim_execute(id, self.hook.as_str()) {
                Err(fault) => self.abort(ListenerError::Send(fault)),
                Ok(frame) => self.begin_write(Stage::RegisteringHook, frame),
            },
        }
    }

    fn open_log(&mut self) -> (action: Action)
        ensures
            (final(self)@, action@) == open_log(old(self)@),
    {
        self.stage = Stage::OpeningLog;
        Action::OpenLog
    }

    fn read_next(&mut self) -> (action: Action)
        ensures
            (final(self)@, action@) == read_next(old(self)@),
    {
        self.stage = Stage::Reading;
        Action::Read(READ_CHUNK)
    }

    fn resume(&mut self) -> (action: Action)
        ensures
            (final(self)@, action@) == resume(old(self)@),
    {
        if self.inbound.is_empty() {
            self.read_next()
        } else {
            self.stage = Stage::Decoding;
            Action::Decode(slice_to_vec(self.inbound.held()))
        }
    }

    fn after_write(&mut self, result: isize) -> (action: Action)
        requires
            old(self).stage == Stage::Attaching || old(self).stage == Stage::RegisteringHook,
        ensures
            (final(self)@, action@) == after_write(old(self)@, result as int),
    {
        match self.outbound.record(result) {
            Err(fault) => self.abort(ListenerError::Send(fault)),
            Ok(false) => Action::Write(slice_to_vec(self.outbound.pending())),
            Ok(true) => match self.stage {
                Stage::Attaching => self.register_hook(),
                _ => self.open_log(),
            },
        }
    }

    fn after_read(&mut self, chunk: Option<Vec<u8>>) -> (action: Action)
        ensures
            (final(self)@, action@) == after_read(old(self)@, chunk_view(chunk)),
    {
        match chunk {
            None => {
                self.stage = Stage::Closed;
                Action::Close
            },
            Some(bytes) => {
                self.inbound.extend(bytes.as_slice());
                self.resume()
            },
        }
    }

    fn after_decode(&mut self, attempt: DecodeAttempt) -> (action: Action)
        ensures
            (final(self)@, action@) == after_decode(old(self)@, attempt@),
    {
        match attempt {
            DecodeAttempt::Incomplete => self.read_next(),
            DecodeAttempt::Malformed => self.abort(ListenerError::Malformed),
            DecodeAttempt::Complete { consumed, message } => {
                if consumed == 0 || consumed > self.inbound.len() {
                    self.abort(ListenerError::BadFrame)
                } else {
                    self.inbound.consume(consumed);
                    match log_line(&message) {
                        Some(line) => {
                            self.stage = Stage::Appending;
                            Action::Append(line)
                        },
                        None => self.resume(),
                    }
                }
            },
        }
    }

    /// Takes one event and answers with the next action.
    ///
    /// The listener moves exactly as [`step_spec`] says. An event that the
    /// listener was not waiting for closes it; a closed listener stays
    /// closed.
    pub fn step(&mut self, event: Event) -> (action: Action)
        ensures
            (final(self)@, action@) == step_spec(old(self)@, event@),
    {
        match self.stage {
            Stage::Closed => Action::Close,
            Stage::Idle => match event {
                Event::Start => self.attach(),
                _ => self.abort(ListenerError::UnexpectedEvent),
            },
            Stage::Attaching | Stage::RegisteringHook => match event {
                Event::Wrote(result) => self.after_write(result),
                _ => self.abort(ListenerError::UnexpectedEvent),
            },
            Stage::OpeningLog => match event {
                Event::LogOpened => self.read_next(),
                Event::LogOpenFailed => self.abort(ListenerError::LogOpenFailed),
                _ => self.abort(ListenerError::UnexpectedEvent),
            },
            Stage::Reading => match event {
                Event::Received(chunk) => self.after_read(chunk),
                _ => self.abort(ListenerError::UnexpectedEvent),
            },
            Stage::Decoding => match event {
                Event::Decoded(attempt) => self.after_decode(attempt),
                _ => self.abort(ListenerError::UnexpectedEvent),
            },
            Stage::Appending => match event {
                Event::Appended => self.resume(),
                Event::AppendFailed => self.abort(ListenerError::LogWriteFailed),
                _ => self.abort(ListenerError::UnexpectedEvent),
            },
        }
    }
}

} // verus!
