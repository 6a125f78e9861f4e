//! The messages of the wire protocol, and the bytes they travel as.
//!
//! Encoding and decoding are done by the `simple_graphics_protocol` crate. Its
//! types are opaque to the verifier, so the session works on the plain types
//! below; the three functions at the end of this file are the only places
//! where the two meet.
use simple_graphics_protocol::{
    ClientRequest as WireRequest, InputResource as WireInput, ProtocolError as WireError,
    Resource as WireResource, ServerMessage as WireMessage,
};
use vstd::prelude::*;

verus! {

/// The length of the header in front of every payload.
pub const FRAME_HEADER_LEN: usize = 4;

/// The longest payload that a header may announce: one mebibyte.
pub const MAX_FRAME_PAYLOAD: usize = 1_048_576;

/// An input device. The index counts the devices of one class.
#[derive(Debug, Clone, Copy, PartialEq, Eq, Hash, Structural)]
pub enum InputResource {
    /// A mouse-like device.
    Mouse(u8),
    /// A keyboard-like device.
    Keyboard(u8),
    /// A touch device.
    Touch(u8),
}

/// Something the daemon can hand out.
#[derive(Debug, Clone, Copy, PartialEq, Eq, Hash, Structural)]
pub enum Resource {
    /// The framebuffer device.
    Fbdev,
    /// A DRM display card.
    Drm {
        /// The number of the card.
        card: u8,
    },
    /// An input device.
    Input(InputResource),
}

/// What a client says to the daemon.
#[derive(Debug, Clone, Copy, PartialEq, Eq, Structural)]
pub enum ClientRequest {
    /// Asks for one resource.
    Acquire {
        /// The resource asked for.
        resource: Resource,
    },
    /// Gives one resource back; also the acknowledgment of a revoke.
    Release {
        /// The resource given back.
        resource: Resource,
    },
    /// Acknowledges a grant and its descriptor.
    Ack,
}

/// What the daemon says to a client.
#[derive(Debug)]
pub enum ServerMessage {
    /// The whole list of resources on offer, sent on connect and again whenever
    /// the list changes.
    Advertise {
        /// The resources on offer.
        available_resources: Vec<Resource>,
    },
    /// Hands over a resource; one descriptor comes with it.
    Grant {
        /// The resource handed over.
        resource: Resource,
    },
    /// Refuses the request.
    Deny {
        /// Why, for a human reader.
        reason: String,
    },
    /// Takes a resource back.
    Revoke {
        /// The resource to stop using.
        resource: Resource,
    },
}

/// A [`ServerMessage`] with its list and its text as sequences.
#[verifier::ext_equal]
pub enum ServerMessageView {
    Advertise { available_resources: Seq<Resource> },
    Grant { resource: Resource },
    Deny { reason: Seq<char> },
    Revoke { resource: Resource },
}

impl View for ServerMessage {
    type V = ServerMessageView;

    open spec fn view(&self) -> ServerMessageView {
        match *self {
            ServerMessage::Advertise { available_resources } => ServerMessageView::Advertise {
                available_resources: available_resources@,
            },
            ServerMessage::Grant { resource } => ServerMessageView::Grant { resource },
            ServerMessage::Deny { reason } => ServerMessageView::Deny { reason: reason@ },
            ServerMessage::Revoke { resource } => ServerMessageView::Revoke { resource },
        }
    }
}

/// Why bytes could not be turned into a message, or a message into bytes.
#[derive(Debug)]
pub enum ProtocolError {
    /// The message could not be encoded; the codec's own words.
    Encode(String),
    /// The payload is no message; the codec's own words.
    Decode(String),
    /// The header announces this many bytes, more than [`MAX_FRAME_PAYLOAD`].
    FrameTooLarge(usize),
}

/// A [`ProtocolError`] with its text as a sequence.
#[verifier::ext_equal]
pub enum ProtocolErrorView {
    Encode(Seq<char>),
    Decode(Seq<char>),
    FrameTooLarge(nat),
}

impl View for ProtocolError {
    type V = ProtocolErrorView;

    open spec fn view(&self) -> ProtocolErrorView {
        match *self {
            ProtocolError::Encode(text) => ProtocolErrorView::Encode(text@),
            ProtocolError::Decode(text) => ProtocolErrorView::Decode(text@),
            ProtocolError::FrameTooLarge(len) => ProtocolErrorView::FrameTooLarge(len as nat),
        }
    }
}

// --- What a request looks like on the wire ---

/// A short MessagePack string: one byte that holds the length, then the text.
pub open spec fn text_bytes(text: &str) -> Seq<u8> {
    seq![(0xa0 + text@.len()) as u8] + text@.map_values(|c: char| c as u8)
}

/// A MessagePack map with a single entry.
pub open spec fn entry_bytes(key: &str, value: Seq<u8>) -> Seq<u8> {
    seq![0x81u8] + text_bytes(key) + value
}

/// A MessagePack unsigned integer below 256.
pub open spec fn index_bytes(index: u8) -> Seq<u8> {
    if index < 128 {
        seq![index]
    } else {
        seq![0xccu8, index]
    }
}

/// A resource inside a message.
pub open spec fn resource_bytes(resource: Resource) -> Seq<u8> {
    match resource {
        Resource::Fbdev => text_bytes("Fbdev"),
        Resource::Drm { card } => entry_bytes("Drm", entry_bytes("card", index_bytes(card))),
        Resource::Input(input) => entry_bytes(
            "Input",
            match input {
                InputResource::Mouse(index) => entry_bytes("Mouse", index_bytes(index)),
                InputResource::Keyboard(index) => entry_bytes("Keyboard", index_bytes(index)),
                InputResource::Touch(index) => entry_bytes("Touch", index_bytes(index)),
            },
        ),
    }
}

/// The payload of a request.
pub open spec fn request_bytes(request: ClientRequest) -> Seq<u8> {
    match request {
        ClientRequest::Acquire { resource } => entry_bytes(
            "Acquire",
            entry_bytes("resource", resource_bytes(resource)),
        ),
        ClientRequest::Release { resource } => entry_bytes(
            "Release",
            entry_bytes("resource", resource_bytes(resource)),
        ),
        ClientRequest::Ack => text_bytes("Ack"),
    }
}

/// The header in front of a payload of `len` bytes: `len`, most significant
/// byte first.
pub open spec fn header_bytes(len: nat) -> Seq<u8> {
    seq![
        (len / 0x100_0000 % 0x100) as u8,
        (len / 0x1_0000 % 0x100) as u8,
        (len / 0x100 % 0x100) as u8,
        (len % 0x100) as u8,
    ]
}

/// A payload with its header.
pub open spec fn frame_bytes(payload: Seq<u8>) -> Seq<u8> {
    header_bytes(payload.len()) + payload
}

/// What is written to the daemon for a request.
pub open spec fn request_frame(request: ClientRequest) -> Seq<u8> {
    frame_bytes(request_bytes(request))
}

/// The length that the first four of these bytes announce.
pub open spec fn announced_len(bytes: Seq<u8>) -> nat {
    (bytes[0] * 0x100_0000 + bytes[1] * 0x1_0000 + bytes[2] * 0x100 + bytes[3]) as nat
}

// --- The codec ---

/// The message that `simple_graphics_protocol::deserialize` reads out of a
/// payload, or the text of the error that it reports.
pub uninterp spec fn decoded_message(payload: Seq<u8>) -> Result<ServerMessageView, Seq<char>>;

/// `simple_graphics_protocol::serialize_framed` on a client request.
///
/// Trusted: the call never fails on a request (it writes into a growing byte
/// vector, and nothing in a request is beyond what the format can hold), and
/// its result is the four-byte big-endian length followed by the MessagePack
/// form of the request: a unit variant is a string, every other variant a map
/// with one entry, and so is each variant's field.
#[verifier::external_body]
pub(crate) fn serialize_framed(request: ClientRequest) -> (frame: Result<Vec<u8>, String>)
    ensures
        frame is Ok,
        frame->Ok_0@ == request_frame(request),
{
    let wire = |resource| match resource {
        Resource::Fbdev => WireResource::Fbdev,
        Resource::Drm { card } => WireResource::Drm { card },
        Resource::Input(input) => WireResource::Input(match input {
            InputResource::Mouse(index) => WireInput::Mouse(index),
            InputResource::Keyboard(index) => WireInput::Keyboard(index),
            InputResource::Touch(index) => WireInput::Touch(index),
        }),
    };
    let request = match request {
        ClientRequest::Acquire { resource } => WireRequest::Acquire { resource: wire(resource) },
        ClientRequest::Release { resource } => WireRequest::Release { resource: wire(resource) },
        ClientRequest::Ack => WireRequest::Ack,
    };
    simple_graphics_protocol::serialize_framed(&request).map_err(|error| error.to_string())
}

/// `simple_graphics_protocol::parse_frame_header`.
///
/// Trusted: it reads the four bytes as a big-endian number and refuses a number
/// above one mebibyte, with that number in the error.
#[verifier::external_body]
pub(crate) fn parse_frame_header(header: &[u8; 4]) -> (len: Result<usize, ProtocolError>)
    ensures
        match len {
            Ok(len) => len == announced_len(header@) && len <= MAX_FRAME_PAYLOAD,
            Err(error) => {
                &&& announced_len(header@) > MAX_FRAME_PAYLOAD
                &&& error@ == ProtocolErrorView::FrameTooLarge(announced_len(header@))
            },
        },
{
    simple_graphics_protocol::parse_frame_header(header).map_err(|error| match error {
        WireError::Encode(error) => ProtocolError::Encode(error.to_string()),
        WireError::Decode(error) => ProtocolError::Decode(error.to_string()),
        WireError::FrameTooLarge(len) => ProtocolError::FrameTooLarge(len),
    })
}

/// `simple_graphics_protocol::deserialize` into a server message.
///
/// Trusted: the result, message or error text, is a function of the payload
/// alone. Which payloads hold which message is left to the codec.
#[verifier::external_body]
pub(crate) fn deserialize(payload: &[u8]) -> (decoded: Result<ServerMessage, String>)
    ensures
        match decoded {
            Ok(message) => decoded_message(payload@) == Ok::<ServerMessageView, Seq<char>>(
                message@,
            ),
            Err(text) => decoded_message(payload@) == Err::<ServerMessageView, Seq<char>>(text@),
        },
{
    let plain = |resource| match resource {
        WireResource::Fbdev => Resource::Fbdev,
        WireResource::Drm { card } => Resource::Drm { card },
        WireResource::Input(input) => Resource::Input(match input {
            WireInput::Mouse(index) => InputResource::Mouse(index),
            WireInput::Keyboard(index) => InputResource::Keyboard(index),
            WireInput::Touch(index) => InputResource::Touch(index),
        }),
    };
    Ok(match simple_graphics_protocol::deserialize(payload).map_err(|error| error.to_string())? {
        WireMessage::Advertise { available_resources: offered } => ServerMessage::Advertise { available_resources: offered.into_iter().map(plain).collect() },
        WireMessage::Grant { resource } => ServerMessage::Grant { resource: plain(resource) },
        WireMessage::Deny { reason } => ServerMessage::Deny { reason },
        WireMessage::Revoke { resource } => ServerMessage::Revoke { resource: plain(resource) },
    })
}

} // verus!
