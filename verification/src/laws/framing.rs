//! Laws of the byte stream: frames survive however the stream is cut.
use vstd::prelude::*;

use crate::error::{IoErrorKind, SgcErrorView};
use crate::frame::{frame_len, is_partial_frame, FrameView, ReceivedView};
use crate::protocol::{
    announced_len, decoded_message, frame_bytes, header_bytes, request_bytes, request_frame,
    resource_bytes, text_bytes, ClientRequest, InputResource, ProtocolErrorView, Resource,
    ServerMessageView, FRAME_HEADER_LEN, MAX_FRAME_PAYLOAD,
};

verus! {

/// What one read brought.
#[verifier::ext_equal]
pub struct Chunk {
    pub bytes: Seq<u8>,
    pub fds: Seq<i32>,
}

/// The bytes of some reads, put together.
pub open spec fn all_bytes(chunks: Seq<Chunk>) -> Seq<u8>
    decreases chunks.len(),
{
    if chunks.len() == 0 {
        Seq::empty()
    } else {
        chunks[0].bytes + all_bytes(chunks.drop_first())
    }
}

/// The descriptors of some reads, put together.
pub open spec fn all_fds(chunks: Seq<Chunk>) -> Seq<i32>
    decreases chunks.len(),
{
    if chunks.len() == 0 {
        Seq::empty()
    } else {
        chunks[0].fds + all_fds(chunks.drop_first())
    }
}

/// What comes of a frame, read by read.
pub open spec fn read_all(frame: FrameView, chunks: Seq<Chunk>) -> ReceivedView
    decreases chunks.len(),
{
    if chunks.len() == 0 {
        ReceivedView::Partial { frame }
    } else {
        match frame.received(chunks[0].bytes, chunks[0].fds) {
            ReceivedView::Partial { frame } => read_all(frame, chunks.drop_first()),
            done => done,
        }
    }
}

/// What a payload with these descriptors comes to.
pub open spec fn frame_result(payload: Seq<u8>, fds: Seq<i32>) -> ReceivedView {
    match decoded_message(payload) {
        Ok(message) => ReceivedView::Complete { message, fds },
        Err(text) => ReceivedView::Failed {
            error: SgcErrorView::Protocol(ProtocolErrorView::Decode(text)),
            fds,
        },
    }
}

/// A header announces the length it was made for.
pub proof fn law_header_announces_its_length(len: nat, rest: Seq<u8>)
    requires
        len < 0x1_0000_0000,
    ensures
        header_bytes(len).len() == FRAME_HEADER_LEN,
        announced_len(header_bytes(len) + rest) == len,
{
    let bytes = header_bytes(len) + rest;
    assert(bytes[0] == (len / 0x100_0000 % 0x100) as u8);
    assert(bytes[1] == (len / 0x1_0000 % 0x100) as u8);
    assert(bytes[2] == (len / 0x100 % 0x100) as u8);
    assert(bytes[3] == (len % 0x100) as u8);
}

/// The four bytes of a header are one number, most significant byte first.
pub proof fn law_a_header_is_a_number(a: u8, b: u8, c: u8, d: u8, rest: Seq<u8>)
    ensures
        announced_len(seq![a, b, c, d] + rest) == ((a * 256 + b) * 256 + c) * 256 + d,
{
    let bytes = seq![a, b, c, d] + rest;
    assert(bytes[0] == a);
    assert(bytes[1] == b);
    assert(bytes[2] == c);
    assert(bytes[3] == d);
}

/// What one read makes of a frame. No bytes are the end of the stream. A header
/// is judged as soon as it is there. The frame is complete with the last byte
/// that its header announces, and then it is what its payload decodes to.
/// Descriptors stay in the order in which they came, whatever becomes of it.
pub proof fn law_what_a_read_makes_of_a_frame(frame: FrameView, bytes: Seq<u8>, fds: Seq<i32>)
    ensures
        ({
            let whole = frame.bytes + bytes;
            let all = frame.fds + fds;
            match frame.received(bytes, fds) {
                ReceivedView::Partial { frame: next } => {
                    &&& bytes.len() > 0
                    &&& whole.len() < 4 || (announced_len(whole) <= 1_048_576 && whole.len() < 4
                        + announced_len(whole))
                    &&& next.bytes == whole
                    &&& next.fds == all
                },
                ReceivedView::Complete { message, fds: with_it } => {
                    &&& bytes.len() > 0
                    &&& whole.len() >= 4
                    &&& announced_len(whole) <= 1_048_576
                    &&& whole.len() >= 4 + announced_len(whole)
                    &&& decoded_message(whole.skip(4)) == Ok::<ServerMessageView, Seq<char>>(
                        message,
                    )
                    &&& with_it == all
                },
                ReceivedView::Failed { error, fds: with_it } => {
                    &&& with_it == all
                    &&& if bytes.len() == 0 {
                        error matches SgcErrorView::Io(failure) && failure.kind
                            == IoErrorKind::UnexpectedEof && failure.code is None
                            && failure.message == "unexpected end of file"@
                    } else if announced_len(whole) > 1_048_576 {
                        whole.len() >= 4 && error == SgcErrorView::Protocol(
                            ProtocolErrorView::FrameTooLarge(announced_len(whole)),
                        )
                    } else {
                        &&& whole.len() >= 4 + announced_len(whole)
                        &&& decoded_message(whole.skip(4)) matches Err(text) && error
                            == SgcErrorView::Protocol(ProtocolErrorView::Decode(text))
                    }
                },
            }
        }),
        FrameView::empty().bytes.len() == 0,
        FrameView::empty().fds.len() == 0,
        frame.extend(bytes, fds).bytes == frame.bytes + bytes,
        frame.extend(bytes, fds).fds == frame.fds + fds,
        frame.bytes.len() < 4 ==> frame.wanted() == 4 - frame.bytes.len(),
        is_partial_frame(frame.bytes) <==> frame.bytes.len() < 4 || (announced_len(frame.bytes)
            <= 1_048_576 && frame.bytes.len() < 4 + announced_len(frame.bytes)),
        4 <= frame.bytes.len() <= 4 + announced_len(frame.bytes) ==> frame.wanted() == 4
            + announced_len(frame.bytes) - frame.bytes.len(),
{
}

/// However the stream cuts a frame into reads, the reader finds the same
/// message in it, with all descriptors in the order in which they came.
pub proof fn law_reading_does_not_depend_on_the_cuts(payload: Seq<u8>, chunks: Seq<Chunk>)
    requires
        payload.len() <= MAX_FRAME_PAYLOAD,
        all_bytes(chunks) == frame_bytes(payload),
        forall|i: int| 0 <= i < chunks.len() ==> (#[trigger] chunks[i]).bytes.len() > 0,
    ensures
        read_all(FrameView::empty(), chunks) == frame_result(payload, all_fds(chunks)),
{
    lemma_read_on(payload, FrameView::empty(), chunks);
    assert(Seq::<i32>::empty() + all_fds(chunks) == all_fds(chunks));
}

proof fn lemma_read_on(payload: Seq<u8>, frame: FrameView, chunks: Seq<Chunk>)
    requires
        payload.len() <= MAX_FRAME_PAYLOAD,
        frame.bytes + all_bytes(chunks) == frame_bytes(payload),
        frame.bytes.len() < frame_bytes(payload).len(),
        forall|i: int| 0 <= i < chunks.len() ==> (#[trigger] chunks[i]).bytes.len() > 0,
    ensures
        read_all(frame, chunks) == frame_result(payload, frame.fds + all_fds(chunks)),
    decreases chunks.len(),
{
    let whole = frame_bytes(payload);
    assert(chunks.len() > 0);
    let rest = chunks.drop_first();
    let next = frame.extend(chunks[0].bytes, chunks[0].fds);
    assert(whole == next.bytes + all_bytes(rest));
    assert(next.fds + all_fds(rest) == frame.fds + all_fds(chunks));
    law_header_announces_its_length(payload.len(), payload);
    if next.bytes.len() >= FRAME_HEADER_LEN {
        assert forall|i: int| 0 <= i < 4 implies next.bytes[i] == whole[i] by {}
        assert(announced_len(next.bytes) == announced_len(whole));
    }
    if next.bytes.len() < whole.len() {
        assert(next.bytes.len() < frame_len(next.bytes));
        assert forall|i: int| 0 <= i < rest.len() implies (#[trigger] rest[i]).bytes.len()
            > 0 by {
            assert(rest[i] == chunks[i + 1]);
        }
        lemma_read_on(payload, next, rest);
    } else {
        assert(all_bytes(rest).len() == 0);
        if rest.len() > 0 {
            assert(rest[0] == chunks[1]);
            assert(false);
        }
        assert(next.bytes == whole);
        assert(next.bytes.skip(FRAME_HEADER_LEN as int) == payload);
        assert(next.fds == frame.fds + all_fds(chunks));
    }
}

/// A frame above the limit is refused, however the stream cuts it: the reader
/// reports the length that the header announces.
pub proof fn law_oversized_frames_are_refused(payload: Seq<u8>, chunks: Seq<Chunk>)
    requires
        MAX_FRAME_PAYLOAD < payload.len() < 0x1_0000_0000,
        all_bytes(chunks) == frame_bytes(payload),
        forall|i: int| 0 <= i < chunks.len() ==> (#[trigger] chunks[i]).bytes.len() > 0,
    ensures
        read_all(FrameView::empty(), chunks) matches ReceivedView::Failed { error, .. } && error
            == SgcErrorView::Protocol(ProtocolErrorView::FrameTooLarge(payload.len())),
{
    lemma_refuse_on(payload, FrameView::empty(), chunks);
}

proof fn lemma_refuse_on(payload: Seq<u8>, frame: FrameView, chunks: Seq<Chunk>)
    requires
        MAX_FRAME_PAYLOAD < payload.len() < 0x1_0000_0000,
        frame.bytes + all_bytes(chunks) == frame_bytes(payload),
        frame.bytes.len() < FRAME_HEADER_LEN,
        forall|i: int| 0 <= i < chunks.len() ==> (#[trigger] chunks[i]).bytes.len() > 0,
    ensures
        read_all(frame, chunks) matches ReceivedView::Failed { error, .. } && error
            == SgcErrorView::Protocol(ProtocolErrorView::FrameTooLarge(payload.len())),
    decreases chunks.len(),
{
    let whole = frame_bytes(payload);
    assert(chunks.len() > 0);
    let rest = chunks.drop_first();
    let next = frame.extend(chunks[0].bytes, chunks[0].fds);
    assert(whole == next.bytes + all_bytes(rest));
    law_header_announces_its_length(payload.len(), payload);
    if next.bytes.len() >= FRAME_HEADER_LEN {
        assert forall|i: int| 0 <= i < 4 implies next.bytes[i] == whole[i] by {}
        assert(announced_len(next.bytes) == announced_len(whole));
    } else {
        assert forall|i: int| 0 <= i < rest.len() implies (#[trigger] rest[i]).bytes.len()
            > 0 by {
            assert(rest[i] == chunks[i + 1]);
        }
        lemma_refuse_on(payload, next, rest);
    }
}

/// While a frame is being read, the next read takes at least one byte and at
/// most what is missing of the header or of the payload.
pub proof fn law_reads_stay_inside_the_frame(frame: FrameView, bytes: Seq<u8>, fds: Seq<i32>)
    requires
        is_partial_frame(frame.bytes),
        bytes.len() <= frame.wanted(),
    ensures
        0 < frame.wanted(),
        frame.bytes.len() < FRAME_HEADER_LEN ==> frame.wanted() + frame.bytes.len()
            == FRAME_HEADER_LEN,
        frame.bytes.len() >= FRAME_HEADER_LEN ==> frame.wanted() + frame.bytes.len()
            == FRAME_HEADER_LEN + announced_len(frame.bytes),
        frame.received(bytes, fds) matches ReceivedView::Partial { frame: next } ==> {
            &&& next == frame.extend(bytes, fds)
            &&& is_partial_frame(next.bytes)
        },
{
}

/// An index inside a message: one byte below 128, two from there on.
pub open spec fn index_on_the_wire(index: u8) -> Seq<u8> {
    if index < 128 {
        seq![index]
    } else {
        seq![0xccu8, index]
    }
}

/// A resource inside a message, byte by byte.
pub open spec fn resource_on_the_wire(resource: Resource) -> Seq<u8> {
    match resource {
        // "Fbdev"
        Resource::Fbdev => seq![0xa5u8, 0x46, 0x62, 0x64, 0x65, 0x76],
        // {"Drm": {"card": card}}
        Resource::Drm { card } => seq![
            0x81u8, 0xa3, 0x44, 0x72, 0x6d, 0x81, 0xa4, 0x63, 0x61, 0x72, 0x64,
        ] + index_on_the_wire(card),
        // {"Input": {"Mouse": index}}
        Resource::Input(InputResource::Mouse(index)) => seq![
            0x81u8, 0xa5, 0x49, 0x6e, 0x70, 0x75, 0x74, 0x81, 0xa5, 0x4d, 0x6f, 0x75, 0x73, 0x65,
        ] + index_on_the_wire(index),
        // {"Input": {"Keyboard": index}}
        Resource::Input(InputResource::Keyboard(index)) => seq![
            0x81u8, 0xa5, 0x49, 0x6e, 0x70, 0x75, 0x74, 0x81, 0xa8, 0x4b, 0x65, 0x79, 0x62, 0x6f,
            0x61, 0x72, 0x64,
        ] + index_on_the_wire(index),
        // {"Input": {"Touch": index}}
        Resource::Input(InputResource::Touch(index)) => seq![
            0x81u8, 0xa5, 0x49, 0x6e, 0x70, 0x75, 0x74, 0x81, 0xa5, 0x54, 0x6f, 0x75, 0x63, 0x68,
        ] + index_on_the_wire(index),
    }
}

proof fn lemma_text(text: &str, bytes: Seq<u8>)
    requires
        text@.len() == bytes.len(),
        forall|i: int| 0 <= i < bytes.len() ==> #[trigger] text@[i] as u8 == bytes[i],
    ensures
        text_bytes(text) == seq![(0xa0 + bytes.len()) as u8] + bytes,
{
}

/// The bytes of a request are those of the wire protocol, for every resource.
pub proof fn law_requests_on_the_wire(resource: Resource)
    ensures
        // "Ack"
        request_bytes(ClientRequest::Ack) == seq![0xa3u8, 0x41, 0x63, 0x6b],
        // {"Acquire": {"resource": resource}}
        request_bytes(ClientRequest::Acquire { resource }) == seq![
            0x81u8, 0xa7, 0x41, 0x63, 0x71, 0x75, 0x69, 0x72, 0x65, 0x81, 0xa8, 0x72, 0x65, 0x73,
            0x6f, 0x75, 0x72, 0x63, 0x65,
        ] + resource_on_the_wire(resource),
        // {"Release": {"resource": resource}}
        request_bytes(ClientRequest::Release { resource }) == seq![
            0x81u8, 0xa7, 0x52, 0x65, 0x6c, 0x65, 0x61, 0x73, 0x65, 0x81, 0xa8, 0x72, 0x65, 0x73,
            0x6f, 0x75, 0x72, 0x63, 0x65,
        ] + resource_on_the_wire(resource),
{
    reveal_strlit("Fbdev");
    reveal_strlit("Drm");
    reveal_strlit("card");
    reveal_strlit("Input");
    reveal_strlit("Mouse");
    reveal_strlit("Keyboard");
    reveal_strlit("Touch");
    reveal_strlit("Acquire");
    reveal_strlit("Release");
    reveal_strlit("resource");
    reveal_strlit("Ack");
    lemma_text("Fbdev", seq![0x46u8, 0x62, 0x64, 0x65, 0x76]);
    lemma_text("Drm", seq![0x44u8, 0x72, 0x6d]);
    lemma_text("card", seq![0x63u8, 0x61, 0x72, 0x64]);
    lemma_text("Input", seq![0x49u8, 0x6e, 0x70, 0x75, 0x74]);
    lemma_text("Mouse", seq![0x4du8, 0x6f, 0x75, 0x73, 0x65]);
    lemma_text("Keyboard", seq![0x4bu8, 0x65, 0x79, 0x62, 0x6f, 0x61, 0x72, 0x64]);
    lemma_text("Touch", seq![0x54u8, 0x6f, 0x75, 0x63, 0x68]);
    lemma_text("Acquire", seq![0x41u8, 0x63, 0x71, 0x75, 0x69, 0x72, 0x65]);
    lemma_text("Release", seq![0x52u8, 0x65, 0x6c, 0x65, 0x61, 0x73, 0x65]);
    lemma_text("resource", seq![0x72u8, 0x65, 0x73, 0x6f, 0x75, 0x72, 0x63, 0x65]);
    lemma_text("Ack", seq![0x41u8, 0x63, 0x6b]);
    assert(resource_bytes(resource) == resource_on_the_wire(resource));
}

/// What is written for a request is its length in four bytes, and then its
/// bytes.
pub proof fn law_requests_are_framed(request: ClientRequest)
    ensures
        request_frame(request).len() == 4 + request_bytes(request).len(),
        request_frame(request).skip(4) == request_bytes(request),
        announced_len(request_frame(request)) == request_bytes(request).len(),
{
    law_requests_fit_into_a_frame(request);
    law_header_announces_its_length(request_bytes(request).len(), request_bytes(request));
}

/// Every request fits into a frame.
pub proof fn law_requests_fit_into_a_frame(request: ClientRequest)
    ensures
        request_bytes(request).len() <= 64,
        request_bytes(request).len() <= MAX_FRAME_PAYLOAD,
{
    reveal_strlit("Fbdev");
    reveal_strlit("Drm");
    reveal_strlit("card");
    reveal_strlit("Input");
    reveal_strlit("Mouse");
    reveal_strlit("Keyboard");
    reveal_strlit("Touch");
    reveal_strlit("Acquire");
    reveal_strlit("Release");
    reveal_strlit("resource");
    reveal_strlit("Ack");
}

} // verus!
