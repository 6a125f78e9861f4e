//! Reading one frame from a stream that keeps no message boundaries.
use vstd::prelude::*;
use vstd::slice::slice_subrange;

use crate::error::{eof_error, IoError, SgcError, SgcErrorView};
use crate::protocol::{
    announced_len, decoded_message, deserialize, parse_frame_header, ProtocolError,
    ProtocolErrorView, ServerMessage, ServerMessageView, FRAME_HEADER_LEN, MAX_FRAME_PAYLOAD,
};

verus! {

/// How many bytes the frame that starts with `bytes` has, as far as they tell:
/// the header alone until the header is there.
pub open spec fn frame_len(bytes: Seq<u8>) -> nat {
    if bytes.len() < FRAME_HEADER_LEN {
        FRAME_HEADER_LEN as nat
    } else {
        FRAME_HEADER_LEN as nat + announced_len(bytes)
    }
}

/// `bytes` is the beginning of an acceptable frame, and not all of it.
pub open spec fn is_partial_frame(bytes: Seq<u8>) -> bool {
    &&& bytes.len() < frame_len(bytes)
    &&& frame_len(bytes) <= FRAME_HEADER_LEN + MAX_FRAME_PAYLOAD
}

/// A frame in the making: its bytes and the descriptors that came with them.
#[verifier::ext_equal]
pub struct FrameView {
    pub bytes: Seq<u8>,
    pub fds: Seq<i32>,
}

impl FrameView {
    /// The frame before its first byte.
    pub open spec fn empty() -> FrameView {
        FrameView { bytes: Seq::empty(), fds: Seq::empty() }
    }

    /// The frame with one more chunk.
    pub open spec fn extend(self, bytes: Seq<u8>, fds: Seq<i32>) -> FrameView {
        FrameView { bytes: self.bytes + bytes, fds: self.fds + fds }
    }

    /// How many bytes the next read may take.
    pub open spec fn wanted(self) -> nat {
        (frame_len(self.bytes) - self.bytes.len()) as nat
    }

    /// What becomes of the frame with one more chunk.
    pub open spec fn received(self, bytes: Seq<u8>, fds: Seq<i32>) -> ReceivedView {
        let frame = self.extend(bytes, fds);
        if bytes.len() == 0 {
            ReceivedView::Failed { error: SgcErrorView::Io(eof_error()), fds: frame.fds }
        } else if frame.bytes.len() >= FRAME_HEADER_LEN && announced_len(frame.bytes)
            > MAX_FRAME_PAYLOAD {
            ReceivedView::Failed {
                error: SgcErrorView::Protocol(
                    ProtocolErrorView::FrameTooLarge(announced_len(frame.bytes)),
                ),
                fds: frame.fds,
            }
        } else if frame.bytes.len() < frame_len(frame.bytes) {
            ReceivedView::Partial { frame }
        } else {
            match decoded_message(frame.bytes.skip(FRAME_HEADER_LEN as int)) {
                Ok(message) => ReceivedView::Complete { message, fds: frame.fds },
                Err(text) => ReceivedView::Failed {
                    error: SgcErrorView::Protocol(ProtocolErrorView::Decode(text)),
                    fds: frame.fds,
                },
            }
        }
    }
}

/// What has become of a frame after a read.
#[derive(Debug)]
pub enum Received {
    /// The frame is not complete.
    Partial {
        /// The reader, with what it has so far.
        reader: FrameReader,
    },
    /// The frame is complete.
    Complete {
        /// The message in it.
        message: ServerMessage,
        /// All descriptors that came with its bytes, in order.
        fds: Vec<i32>,
    },
    /// The connection is over.
    Failed {
        /// Why.
        error: SgcError,
        /// All descriptors that came with the bytes that there are, in order.
        fds: Vec<i32>,
    },
}

/// A [`Received`] with its parts as sequences.
#[verifier::ext_equal]
pub enum ReceivedView {
    Partial { frame: FrameView },
    Complete { message: ServerMessageView, fds: Seq<i32> },
    Failed { error: SgcErrorView, fds: Seq<i32> },
}

impl View for Received {
    type V = ReceivedView;

    open spec fn view(&self) -> ReceivedView {
        match *self {
            Received::Partial { reader } => ReceivedView::Partial { frame: reader@ },
            Received::Complete { message, fds } => ReceivedView::Complete {
                message: message@,
                fds: fds@,
            },
            Received::Failed { error, fds } => ReceivedView::Failed { error: error@, fds: fds@ },
        }
    }
}

/// Collects one frame, read by read.
#[derive(Debug)]
pub struct FrameReader {
    bytes: Vec<u8>,
    fds: Vec<i32>,
    /// The length of the whole frame, as far as it is known.
    frame_len: usize,
}

impl View for FrameReader {
    type V = FrameView;

    closed spec fn view(&self) -> FrameView {
        FrameView { bytes: self.bytes@, fds: self.fds@ }
    }
}

impl FrameReader {
    /// The reader is in the middle of an acceptable frame.
    pub closed spec fn wf(&self) -> bool {
        &&& is_partial_frame(self.bytes@)
        &&& self.frame_len == frame_len(self.bytes@)
    }

    /// A reader that has read nothing.
    pub fn new() -> (reader: FrameReader)
        ensures
            reader.wf(),
            reader@ == FrameView::empty(),
    {
        FrameReader { bytes: Vec::new(), fds: Vec::new(), frame_len: FRAME_HEADER_LEN }
    }

    /// How many bytes the next read may take: never past the end of the frame.
    pub fn wanted(&self) -> (len: usize)
        requires
            self.wf(),
        ensures
            is_partial_frame(self@.bytes),
            len == self@.wanted(),
            0 < len <= MAX_FRAME_PAYLOAD + FRAME_HEADER_LEN,
    {
        self.frame_len - self.bytes.len()
    }

    /// Gives the frame up; the descriptors that came with it go to the caller.
    pub fn into_fds(self) -> (fds: Vec<i32>)
        ensures
            fds@ == self@.fds,
    {
        self.fds
    }

    /// Takes in what one read brought. No bytes at all is the end of the stream.
    ///
    /// The header is judged as soon as it is complete, and the message is
    /// decoded as soon as the last byte of the payload is there.
    pub fn receive(self, bytes: &[u8], fds: &[i32]) -> (received: Received)
        requires
            self.wf(),
            bytes@.len() <= self@.wanted(),
        ensures
            received@ == self@.received(bytes@, fds@),
            received matches Received::Partial { reader } ==> reader.wf(),
    {
        let mut reader = self;
        reader.bytes.extend_from_slice(bytes);
        reader.fds.extend_from_slice(fds);
        assert(reader.bytes@ == self.bytes@ + bytes@);
        assert(reader.fds@ == self.fds@ + fds@);
        if bytes.len() == 0 {
            return Received::Failed {
                error: SgcError::Io(IoError::unexpected_eof()),
                fds: reader.fds,
            };
        }
        if reader.bytes.len() == FRAME_HEADER_LEN {
            let header: [u8; 4] = [
                reader.bytes[0],
                reader.bytes[1],
                reader.bytes[2],
                reader.bytes[3],
            ];
            match parse_frame_header(&header) {
                Ok(len) => {
                    reader.frame_len = FRAME_HEADER_LEN + len;
                },
                Err(error) => {
                    return Received::Failed { error: SgcError::Protocol(error), fds: reader.fds };
                },
            }
        }
        if reader.bytes.len() < reader.frame_len {
            return Received::Partial { reader };
        }
        let payload = slice_subrange(reader.bytes.as_slice(), FRAME_HEADER_LEN, reader.bytes.len());
        assert(payload@ == reader.bytes@.skip(FRAME_HEADER_LEN as int));
        match deserialize(payload) {
            Ok(message) => {
                Received::Complete { message, fds: reader.fds }
            },
            Err(text) => Received::Failed {
                error: SgcError::Protocol(ProtocolError::Decode(text)),
                fds: reader.fds,
            },
        }
    }
}

} // verus!
