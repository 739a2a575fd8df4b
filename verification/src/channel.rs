//! The two pipes between the logger and the editor.
//!
//! A pipe carries bytes one way, from its write end to its read end. The
//! logger and the editor are joined by two of them, one for each direction,
//! and each party holds the read end of one and the write end of the other.
//! Handles are the plain integers that the system hands out.

use vstd::prelude::*;

verus! {

/// Why the channel could not be set up.
#[derive(Clone, Copy, Debug, PartialEq, Eq, Structural)]
pub enum ChannelError {
    /// The system refused to create a pipe.
    CreationFailed,
    /// The handles cannot be the ends of two pipes: one is negative, or one
    /// occurs twice.
    BadHandles,
}

/// One pipe: the handle of its read end and the handle of its write end.
#[derive(Clone, Copy, Debug, PartialEq, Eq, Structural)]
pub struct PipePair {
    pub read_end: i32,
    pub write_end: i32,
}

/// The two handles that one party uses: it reads from one pipe and writes to
/// the other.
#[derive(Clone, Copy, Debug, PartialEq, Eq, Structural)]
pub struct Ends {
    pub read_end: i32,
    pub write_end: i32,
}

/// The two pipes: one carries bytes to the editor, the other to the logger.
#[derive(Clone, Copy, Debug, PartialEq, Eq, Structural)]
pub struct DuplexChannel {
    pub to_editor: PipePair,
    pub to_logger: PipePair,
}

impl PipePair {
    /// Whether the two handles can be the ends of one pipe: neither is
    /// negative and they differ.
    pub open spec fn valid(self) -> bool {
        self.read_end >= 0 && self.write_end >= 0 && self.read_end != self.write_end
    }

    /// Tests whether the two handles can be the ends of one pipe.
    pub fn is_valid(&self) -> (valid: bool)
        ensures
            valid == self.valid(),
    {
        self.read_end >= 0 && self.write_end >= 0 && self.read_end != self.write_end
    }

    /// What a call for a new pipe yielded.
    ///
    /// `result` is what the call returned, zero for success, and the two
    /// handles are what it stored: the read end first. A result other than
    /// zero is `CreationFailed`; handles that cannot be the ends of one pipe
    /// are `BadHandles`.
    pub fn from_syscall(result: i32, read_end: i32, write_end: i32) -> (pair: Result<
        PipePair,
        ChannelError,
    >)
        ensures
            pair == (if result != 0 {
                Err::<PipePair, ChannelError>(ChannelError::CreationFailed)
            } else if !(PipePair { read_end, write_end }).valid() {
                Err::<PipePair, ChannelError>(ChannelError::BadHandles)
            } else {
                Ok::<PipePair, ChannelError>(PipePair { read_end, write_end })
            }),
    {
        let pair = PipePair { read_end, write_end };
        if result != 0 {
            Err(ChannelError::CreationFailed)
        } else if !pair.is_valid() {
            Err(ChannelError::BadHandles)
        } else {
            Ok(pair)
        }
    }
}

impl DuplexChannel {
    /// Whether the four handles can be the ends of two pipes: each pipe is
    /// valid and no handle belongs to both.
    pub open spec fn valid(self) -> bool {
        &&& self.to_editor.valid()
        &&& self.to_logger.valid()
        &&& self.to_editor.read_end != self.to_logger.read_end
        &&& self.to_editor.read_end != self.to_logger.write_end
        &&& self.to_editor.write_end != self.to_logger.read_end
        &&& self.to_editor.write_end != self.to_logger.write_end
    }

    /// The logger's side: it writes to the pipe that leads to the editor and
    /// reads from the pipe that leads to itself.
    pub open spec fn logger_side(self) -> Ends {
        Ends { read_end: self.to_logger.read_end, write_end: self.to_editor.write_end }
    }

    /// The editor's side: the other end of each pipe.
    pub open spec fn editor_side(self) -> Ends {
        Ends { read_end: self.to_editor.read_end, write_end: self.to_logger.write_end }
    }

    /// Tests whether the four handles can be the ends of two pipes.
    pub fn is_valid(&self) -> (valid: bool)
        ensures
            valid == self.valid(),
    {
        self.to_editor.is_valid() && self.to_logger.is_valid() && self.to_editor.read_end
            != self.to_logger.read_end && self.to_editor.read_end != self.to_logger.write_end
            && self.to_editor.write_end != self.to_logger.read_end && self.to_editor.write_end
            != self.to_logger.write_end
    }

    /// The handles that the logger uses.
    pub fn logger_ends(&self) -> (ends: Ends)
        ensures
            ends == self.logger_side(),
    {
        Ends { read_end: self.to_logger.read_end, write_end: self.to_editor.write_end }
    }

    /// The handles that the editor uses.
    pub fn editor_ends(&self) -> (ends: Ends)
        ensures
            ends == self.editor_side(),
    {
        Ends { read_end: self.to_editor.read_end, write_end: self.to_logger.write_end }
    }
}

/// What the attempt to open both pipes comes to: the channel, or the reason
/// why there is none.
pub open spec fn duplex_of(
    to_editor: Result<PipePair, ChannelError>,
    to_logger: Result<PipePair, ChannelError>,
) -> Result<DuplexChannel, ChannelError> {
    match (to_editor, to_logger) {
        (Err(fault), _) => Err(fault),
        (Ok(_), Err(fault)) => Err(fault),
        (Ok(first), Ok(second)) => {
            let channel = DuplexChannel { to_editor: first, to_logger: second };
            if channel.valid() {
                Ok(channel)
            } else {
                Err(ChannelError::BadHandles)
            }
        },
    }
}

/// Joins the two pipes into the channel between logger and editor.
///
/// The arguments are what the two calls for a pipe yielded, the pipe to the
/// editor first. There is a channel exactly when both pipes exist and their
/// four handles differ; else the first fault is handed on.
pub fn open_duplex_channel(
    to_editor: Result<PipePair, ChannelError>,
    to_logger: Result<PipePair, ChannelError>,
) -> (channel: Result<DuplexChannel, ChannelError>)
    ensures
        channel == duplex_of(to_editor, to_logger),
        channel matches Ok(pipes) ==> pipes.valid(),
{
    match to_editor {
        Err(fault) => Err(fault),
        Ok(first) => match to_logger {
            Err(fault) => Err(fault),
            Ok(second) => {
                let channel = DuplexChannel { to_editor: first, to_logger: second };
                if channel.is_valid() {
                    Ok(channel)
                } else {
                    Err(ChannelError::BadHandles)
                }
            },
        },
    }
}

/// In a valid channel every pipe has one party at each end: the logger
/// writes to the pipe that the editor reads from, the editor writes to the
/// pipe that the logger reads from, and no handle serves two purposes.
pub proof fn lemma_sides_are_complementary(channel: DuplexChannel)
    requires
        channel.valid(),
    ensures
        (PipePair {
            read_end: channel.editor_side().read_end,
            write_end: channel.logger_side().write_end,
        }) == channel.to_editor,
        (PipePair {
            read_end: channel.logger_side().read_end,
            write_end: channel.editor_side().write_end,
        }) == channel.to_logger,
        channel.logger_side().read_end != channel.logger_side().write_end,
        channel.editor_side().read_end != channel.editor_side().write_end,
        channel.logger_side().read_end != channel.editor_side().read_end,
        channel.logger_side().write_end != channel.editor_side().write_end,
{
}

} // verus!
