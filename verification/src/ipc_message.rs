//! Framing of one IPC message read from a named-pipe client.
//!
//! A client writes one command and closes its end of the pipe. The server
//! reads it in chunks until the end of the stream, refuses a message longer
//! than `MAX_MESSAGE_SIZE` bytes, a read error or a read that times out,
//! ignores an empty message and decodes the rest as UTF-8.

use vstd::prelude::*;
use vstd::utf8::{decode_utf8, valid_utf8};

verus! {

/// The largest message, in bytes, that the server accepts.
pub const MAX_MESSAGE_SIZE: usize = 1048576;

/// The size of the buffer that each read fills.
pub const READ_BUFFER_SIZE: usize = 4096;

/// The seconds that one read may take before the client is dropped.
pub const READ_TIMEOUT_SECS: u64 = 5;

/// Converts bytes to a `String` (`String::from_utf8`).
/// Trusted: the conversion succeeds exactly on valid UTF-8, and then the
/// text is the decoding of the bytes.
#[verifier::external_body]
fn string_from_utf8(bytes: Vec<u8>) -> (res: Option<String>)
    ensures
        res is Some <==> valid_utf8(bytes@),
        res matches Some(s) ==> s@ == decode_utf8(bytes@),
{
    match String::from_utf8(bytes) {
        Ok(s) => Some(s),
        Err(_) => None,
    }
}

/// What one read on the pipe produced.
#[derive(Debug, Clone, PartialEq, Eq)]
pub enum ReadEvent {
    /// Some bytes (a read of zero bytes is `EndOfStream`).
    Data(Vec<u8>),
    /// The client closed its end of the pipe.
    EndOfStream,
    /// The read failed; the text describes the error.
    Failed(String),
    /// The read did not finish within `READ_TIMEOUT_SECS`.
    TimedOut,
}

/// Why a message was refused.
#[derive(Debug, Clone, PartialEq, Eq)]
pub enum ReadFailure {
    Io(String),
    TimedOut,
    TooLarge,
    InvalidUtf8,
}

/// What the server does after a read.
#[derive(Debug, Clone, PartialEq, Eq)]
pub enum ReadStep {
    /// Read again.
    ReadMore,
    /// The client sent nothing: drop it silently.
    Ignored,
    /// Drop the client and log the failure.
    Rejected(ReadFailure),
    /// The complete command text.
    Received(String),
}

/// The bytes of a message received so far.
pub struct MessageReader {
    message: Vec<u8>,
}

impl View for MessageReader {
    type V = Seq<u8>;

    closed spec fn view(&self) -> Seq<u8> {
        self.message@
    }
}

impl MessageReader {
    #[verifier::type_invariant]
    spec fn within_limit(self) -> bool {
        self.message@.len() <= MAX_MESSAGE_SIZE
    }

    /// A reader that has received nothing.
    pub fn new() -> (r: Self)
        ensures
            r@ == Seq::<u8>::empty(),
    {
        MessageReader { message: Vec::new() }
    }

    /// The number of bytes received so far.
    pub fn len(&self) -> (n: usize)
        ensures
            n == self@.len(),
            n <= MAX_MESSAGE_SIZE,
    {
        proof {
            use_type_invariant(self);
        }
        self.message.len()
    }

    /// Takes the result of one read and says what to do next.
    ///
    /// Data is appended unless the message would then exceed
    /// `MAX_MESSAGE_SIZE`; at the end of the stream an empty message is
    /// ignored and any other is decoded as UTF-8.
    pub fn step(&mut self, event: ReadEvent) -> (res: ReadStep)
        ensures
            final(self)@.len() <= MAX_MESSAGE_SIZE,
            match event {
                ReadEvent::Data(bytes) => if old(self)@.len() + bytes@.len() > MAX_MESSAGE_SIZE {
                    &&& res == ReadStep::Rejected(ReadFailure::TooLarge)
                    &&& final(self)@ == old(self)@
                } else {
                    &&& res == ReadStep::ReadMore
                    &&& final(self)@ == old(self)@ + bytes@
                },
                ReadEvent::EndOfStream => {
                    &&& final(self)@ == Seq::<u8>::empty()
                    &&& if old(self)@.len() == 0 {
                        res == ReadStep::Ignored
                    } else if valid_utf8(old(self)@) {
                        res matches ReadStep::Received(text) && text@ == decode_utf8(old(self)@)
                    } else {
                        res == ReadStep::Rejected(ReadFailure::InvalidUtf8)
                    }
                },
                ReadEvent::Failed(error) => {
                    &&& res == ReadStep::Rejected(ReadFailure::Io(error))
                    &&& final(self)@ == old(self)@
                },
                ReadEvent::TimedOut => {
                    &&& res == ReadStep::Rejected(ReadFailure::TimedOut)
                    &&& final(self)@ == old(self)@
                },
            },
    {
        proof {
            use_type_invariant(&*self);
        }
        match event {
            ReadEvent::Data(bytes) => {
                let room = MAX_MESSAGE_SIZE - self.message.len();
                if bytes.len() > room {
                    ReadStep::Rejected(ReadFailure::TooLarge)
                } else {
                    let mut more = bytes;
                    let mut message: Vec<u8> = Vec::new();
                    std::mem::swap(&mut message, &mut self.message);
                    message.append(&mut more);
                    self.message = message;
                    ReadStep::ReadMore
                }
            },
            ReadEvent::EndOfStream => {
                let mut message: Vec<u8> = Vec::new();
                std::mem::swap(&mut message, &mut self.message);
                if message.len() == 0 {
                    ReadStep::Ignored
                } else {
                    match string_from_utf8(message) {
                        Some(text) => ReadStep::Received(text),
                        None => ReadStep::Rejected(ReadFailure::InvalidUtf8),
                    }
                }
            },
            ReadEvent::Failed(error) => ReadStep::Rejected(ReadFailure::Io(error)),
            ReadEvent::TimedOut => ReadStep::Rejected(ReadFailure::TimedOut),
        }
    }
}

/// The message held after `Data` reads of each of `chunks`, starting from
/// `message`, as `MessageReader::step` states it read by read; `None` when
/// one of the reads is refused as too large.
pub open spec fn read_all(message: Seq<u8>, chunks: Seq<Seq<u8>>) -> Option<Seq<u8>>
    decreases chunks.len(),
{
    if chunks.len() == 0 {
        Some(message)
    } else if message.len() + chunks[0].len() > MAX_MESSAGE_SIZE {
        None
    } else {
        read_all(message + chunks[0], chunks.drop_first())
    }
}

/// However a message is cut into reads, it is accepted exactly when its total
/// size is at most `MAX_MESSAGE_SIZE`, and then it is the concatenation of the
/// reads, in order.
pub proof fn lemma_read_all(message: Seq<u8>, chunks: Seq<Seq<u8>>)
    requires
        message.len() <= MAX_MESSAGE_SIZE,
    ensures
        read_all(message, chunks) == (if message.len() + chunks.flatten().len() <= MAX_MESSAGE_SIZE {
            Some(message + chunks.flatten())
        } else {
            None::<Seq<u8>>
        }),
    decreases chunks.len(),
{
    if chunks.len() == 0 {
        assert(message + chunks.flatten() =~= message);
    } else {
        let c = chunks[0];
        let rest = chunks.drop_first();
        assert(chunks.first() == c);
        assert(chunks.flatten() == c + rest.flatten());
        if message.len() + c.len() <= MAX_MESSAGE_SIZE {
            lemma_read_all(message + c, rest);
            assert(message + chunks.flatten() =~= (message + c) + rest.flatten());
        }
    }
}

} // verus!
