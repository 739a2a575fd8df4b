//! A frame on its way out, tracked across partial writes.
//!
//! A write on a pipe may accept fewer bytes than it was offered. An
//! [`Outbound`] remembers how much of a frame the transport has accepted, so
//! that the caller offers the rest again until the whole frame is through or
//! the transport fails.

use vstd::prelude::*;
use vstd::slice::slice_subrange;

verus! {

/// Why a request could not be sent.
#[derive(Clone, Copy, Debug, PartialEq, Eq, Structural)]
pub enum SendError {
    /// A string or the argument list is longer than the encoding can express.
    TooLarge,
    /// The write call reported an error (a negative result).
    WriteFailed,
    /// The write call accepted nothing although bytes were offered.
    NoProgress,
    /// The write call claims to have accepted more bytes than were offered.
    Overrun,
}

/// What the transport's answer to one write means for a frame of which
/// `pending` bytes were offered: the number of bytes now accepted, or the
/// fault.
pub open spec fn write_outcome(pending: nat, result: int) -> Result<nat, SendError> {
    if result < 0 {
        Err(SendError::WriteFailed)
    } else if result > pending {
        Err(SendError::Overrun)
    } else if result == 0 && pending > 0 {
        Err(SendError::NoProgress)
    } else {
        Ok(result as nat)
    }
}

/// A write that is accepted while bytes are pending moves at least one of
/// them and no more than were offered: offering the rest again must come to
/// an end.
pub proof fn lemma_accepted_write_makes_progress(pending: nat, result: int)
    requires
        pending > 0,
        write_outcome(pending, result) is Ok,
    ensures
        0 < write_outcome(pending, result)->Ok_0 <= pending,
        write_outcome(pending, result)->Ok_0 == result,
{
}

/// A frame and the number of its leading bytes that the transport has
/// accepted so far.
pub struct Outbound {
    bytes: Vec<u8>,
    written: usize,
}

impl Outbound {
    #[verifier::type_invariant]
    spec fn within_frame(self) -> bool {
        self.written <= self.bytes@.len()
    }

    /// The whole frame.
    pub closed spec fn frame(self) -> Seq<u8> {
        self.bytes@
    }

    /// How many bytes of the frame the transport has accepted.
    pub closed spec fn written(self) -> nat {
        self.written as nat
    }

    /// The bytes accepted so far: a prefix of the frame.
    pub open spec fn delivered(self) -> Seq<u8> {
        self.frame().take(self.written() as int)
    }

    /// The bytes still to be offered: the rest of the frame.
    pub open spec fn remaining(self) -> Seq<u8> {
        self.frame().skip(self.written() as int)
    }

    /// Starts a frame of which nothing has been written.
    pub fn new(bytes: Vec<u8>) -> (out: Outbound)
        ensures
            out.frame() == bytes@,
            out.written() == 0,
    {
        Outbound { bytes, written: 0 }
    }

    /// The bytes to offer to the next write call.
    pub fn pending(&self) -> (rest: &[u8])
        ensures
            rest@ == self.remaining(),
            self.written() <= self.frame().len(),
    {
        proof {
            use_type_invariant(self);
        }
        slice_subrange(self.bytes.as_slice(), self.written, self.bytes.len())
    }

    /// Whether the transport has accepted the whole frame.
    pub fn is_complete(&self) -> (done: bool)
        ensures
            done <==> self.written() == self.frame().len(),
            self.written() <= self.frame().len(),
    {
        proof {
            use_type_invariant(self);
        }
        self.written == self.bytes.len()
    }

    /// Takes note of what a write call returned for the pending bytes.
    ///
    /// A positive count moves that many bytes from the remaining part to the
    /// delivered part; the answer says whether the frame is now complete. A
    /// negative result, a count above what was offered, or a count of zero
    /// while bytes were pending is a fault and leaves the frame as it was.
    pub fn record(&mut self, result: isize) -> (step: Result<bool, SendError>)
        ensures
            final(self).frame() == old(self).frame(),
            final(self).written() <= final(self).frame().len(),
            match write_outcome(old(self).remaining().len(), result as int) {
                Ok(count) => {
                    &&& final(self).written() == old(self).written() + count
                    &&& final(self).delivered() == old(self).delivered() + old(
                        self,
                    ).remaining().take(count as int)
                    &&& step == Ok::<bool, SendError>(
                        final(self).written() == final(self).frame().len(),
                    )
                },
                Err(fault) => {
                    &&& final(self).written() == old(self).written()
                    &&& step == Err::<bool, SendError>(fault)
                },
            },
    {
        proof {
            use_type_invariant(&*self);
        }
        let offered: usize = self.bytes.len() - self.written;
        if result < 0 {
            Err(SendError::WriteFailed)
        } else if result as usize > offered {
            Err(SendError::Overrun)
        } else if result == 0 && offered > 0 {
            Err(SendError::NoProgress)
        } else {
            self.written = self.written + result as usize;
            Ok(self.written == self.bytes.len())
        }
    }
}

} // verus!
