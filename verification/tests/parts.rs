//! The parts a session is made of, each on its own.
use libsgc_rs::driver::{Action, Effect};
use libsgc_rs::client::{close_fds, News};
use libsgc_rs::error::{IoError, IoErrorKind};
use libsgc_rs::frame::{FrameReader, Received};
use libsgc_rs::lease::{Lease, LeaseTable};
use libsgc_rs::protocol::ServerMessage;
use libsgc_rs::session::Operation;
use libsgc_rs::wait::{poll_readable, poll_timeout_ms, reply_wait_left_nanos, Readiness};
use libsgc_rs::{InputResource, Resource, SgcClient, SgcError, SgcEvent};

/// The bytes an acquire writes.
fn acquire_frame(resource: Resource) -> Vec<u8> {
    let (mut client, _) = SgcClient::connect();
    client.on_message(
        Operation::Connect,
        ServerMessage::Advertise {
            available_resources: vec![],
        },
        vec![],
    );
    match client.acquire(resource).action {
        Action::Write { frame } => frame,
        other => panic!("expected Write, got {other:?}"),
    }
}

/// The header and the start of every acquire.
fn acquire_prefix(resource_len: u8) -> Vec<u8> {
    let mut bytes = vec![0, 0, 0, 19 + resource_len, 0x81, 0xa7];
    bytes.extend_from_slice(b"Acquire");
    bytes.extend_from_slice(&[0x81, 0xa8]);
    bytes.extend_from_slice(b"resource");
    bytes
}

#[test]
fn requests_have_the_documented_bytes() {
    let mut fbdev = acquire_prefix(6);
    fbdev.extend_from_slice(&[0xa5, 0x46, 0x62, 0x64, 0x65, 0x76]);
    assert_eq!(acquire_frame(Resource::Fbdev), fbdev);

    let mut drm = acquire_prefix(12);
    drm.extend_from_slice(&[
        0x81, 0xa3, 0x44, 0x72, 0x6d, 0x81, 0xa4, 0x63, 0x61, 0x72, 0x64, 0x00,
    ]);
    assert_eq!(acquire_frame(Resource::Drm { card: 0 }), drm);

    let mut mouse = acquire_prefix(15);
    mouse.extend_from_slice(&[
        0x81, 0xa5, 0x49, 0x6e, 0x70, 0x75, 0x74, 0x81, 0xa5, 0x4d, 0x6f, 0x75, 0x73, 0x65, 0x01,
    ]);
    assert_eq!(
        acquire_frame(Resource::Input(InputResource::Mouse(1))),
        mouse
    );

    // An index of 128 or more takes a marker byte of its own.
    let mut keyboard = acquire_prefix(19);
    keyboard.extend_from_slice(&[0x81, 0xa5]);
    keyboard.extend_from_slice(b"Input");
    keyboard.extend_from_slice(&[0x81, 0xa8]);
    keyboard.extend_from_slice(b"Keyboard");
    keyboard.extend_from_slice(&[0xcc, 0x80]);
    assert_eq!(
        acquire_frame(Resource::Input(InputResource::Keyboard(128))),
        keyboard
    );

    let mut touch = acquire_prefix(15);
    touch.extend_from_slice(&[0x81, 0xa5]);
    touch.extend_from_slice(b"Input");
    touch.extend_from_slice(&[0x81, 0xa5]);
    touch.extend_from_slice(b"Touch");
    touch.extend_from_slice(&[0x7f]);
    assert_eq!(
        acquire_frame(Resource::Input(InputResource::Touch(127))),
        touch
    );
}

#[test]
fn answers_have_the_documented_bytes() {
    let (mut client, _) = SgcClient::connect();
    let handled = client.handle_message(
        ServerMessage::Grant {
            resource: Resource::Fbdev,
        },
        vec![7],
    );
    assert_eq!(handled.effects.len(), 1);
    match &handled.effects[0] {
        Effect::Send { frame } => {
            assert_eq!(frame, &vec![0, 0, 0, 4, 0xa3, 0x41, 0x63, 0x6b]);
        }
        other => panic!("expected the ack, got {other:?}"),
    }
    assert!(matches!(
        handled.news,
        News::Lend {
            resource: Resource::Fbdev,
            fd: 7
        }
    ));

    let handled = client.handle_message(
        ServerMessage::Revoke {
            resource: Resource::Fbdev,
        },
        vec![],
    );
    assert_eq!(handled.effects.len(), 2);
    assert!(matches!(handled.effects[0], Effect::Close { fd: 7 }));
    match &handled.effects[1] {
        Effect::Send { frame } => {
            let mut release = vec![0, 0, 0, 25, 0x81, 0xa7];
            release.extend_from_slice(b"Release");
            release.extend_from_slice(&[0x81, 0xa8]);
            release.extend_from_slice(b"resource");
            release.extend_from_slice(&[0xa5, 0x46, 0x62, 0x64, 0x65, 0x76]);
            assert_eq!(frame, &release);
        }
        other => panic!("expected the release, got {other:?}"),
    }
    assert!(matches!(
        handled.news,
        News::Event {
            event: SgcEvent::Revoked {
                resource: Resource::Fbdev
            }
        }
    ));
}

#[test]
fn a_reader_asks_for_the_header_then_the_payload() {
    let reader = FrameReader::new();
    assert_eq!(reader.wanted(), 4);
    let reader = match reader.receive(&[0, 0], &[3]) {
        Received::Partial { reader } => reader,
        other => panic!("expected more, got {other:?}"),
    };
    assert_eq!(reader.wanted(), 2);
    let reader = match reader.receive(&[0, 31], &[]) {
        Received::Partial { reader } => reader,
        other => panic!("expected more, got {other:?}"),
    };
    assert_eq!(reader.wanted(), 31);
    let payload = [
        0x81, 0xa6, 0x52, 0x65, 0x76, 0x6f, 0x6b, 0x65, 0x81, 0xa8, 0x72, 0x65, 0x73, 0x6f, 0x75,
        0x72, 0x63, 0x65, 0x81, 0xa3, 0x44, 0x72, 0x6d, 0x81, 0xa4, 0x63, 0x61, 0x72, 0x64, 0x00,
    ];
    assert_eq!(payload.len(), 30);
    let mut with_tail = payload.to_vec();
    with_tail.push(0);
    match reader.receive(&with_tail, &[4, 5]) {
        Received::Complete {
            message:
                ServerMessage::Revoke {
                    resource: Resource::Drm { card: 0 },
                },
            fds,
        } => assert_eq!(fds, vec![3, 4, 5]),
        other => panic!("expected the revoke, got {other:?}"),
    }
}

#[test]
fn a_reader_at_the_end_of_the_stream_fails() {
    match FrameReader::new().receive(&[], &[]) {
        Received::Failed {
            error: SgcError::Io(error),
            fds,
        } => {
            assert!(fds.is_empty());
            assert_eq!(error.kind, IoErrorKind::UnexpectedEof);
            assert_eq!(error.code, None);
            assert_eq!(error.message, "unexpected end of file");
        }
        other => panic!("expected the end, got {other:?}"),
    }
}

#[test]
fn a_refusal_is_decoded_with_its_reason() {
    let payload = [
        0x81, 0xa4, 0x44, 0x65, 0x6e, 0x79, 0x81, 0xa6, 0x72, 0x65, 0x61, 0x73, 0x6f, 0x6e, 0xa5,
        0x6f, 0x77, 0x6e, 0x65, 0x64,
    ];
    let mut frame = vec![0, 0, 0, payload.len() as u8];
    frame.extend_from_slice(&payload);
    let reader = match FrameReader::new().receive(&frame[..4], &[]) {
        Received::Partial { reader } => reader,
        other => panic!("expected more, got {other:?}"),
    };
    match reader.receive(&frame[4..], &[]) {
        Received::Complete {
            message: ServerMessage::Deny { reason },
            fds,
        } => {
            assert_eq!(reason, "owned");
            assert!(fds.is_empty());
        }
        other => panic!("expected the refusal, got {other:?}"),
    }
}

#[test]
fn leases_are_one_per_resource() {
    let drm = Resource::Drm { card: 0 };
    let mut table = LeaseTable::new();
    assert_eq!(table.get(drm), None);
    assert_eq!(table.insert(drm, 3), None);
    assert_eq!(table.insert(Resource::Fbdev, 4), None);
    assert_eq!(table.insert(drm, 5), Some(3));
    assert_eq!(table.get(drm), Some(5));
    assert_eq!(table.get(Resource::Fbdev), Some(4));
    assert_eq!(table.resources(), vec![Resource::Fbdev, drm]);
    assert_eq!(table.remove(Resource::Drm { card: 1 }), None);
    assert_eq!(
        table.pop(),
        Some(Lease {
            resource: Resource::Fbdev,
            fd: 4
        })
    );
    assert_eq!(table.remove(drm), Some(5));
    assert_eq!(table.pop(), None);
    assert!(table.resources().is_empty());
}

#[test]
fn closing_descriptors_keeps_their_order() {
    let effects = close_fds(vec![3, 1, 2]);
    let fds: Vec<i32> = effects
        .iter()
        .map(|effect| match effect {
            Effect::Close { fd } => *fd,
            other => panic!("expected Close, got {other:?}"),
        })
        .collect();
    assert_eq!(fds, vec![3, 1, 2]);
}

#[test]
fn timeouts_are_whole_milliseconds() {
    assert_eq!(poll_timeout_ms(None), -1);
    assert_eq!(poll_timeout_ms(Some(0)), 0);
    assert_eq!(poll_timeout_ms(Some(999_999)), 0);
    assert_eq!(poll_timeout_ms(Some(1_000_000)), 1);
    assert_eq!(poll_timeout_ms(Some(1_999_999)), 1);
    assert_eq!(poll_timeout_ms(Some(2_147_483_647_000_000)), i32::MAX);
    assert_eq!(poll_timeout_ms(Some(2_147_483_648_000_000)), i32::MAX);
    assert_eq!(poll_timeout_ms(Some(u128::MAX)), i32::MAX);
}

#[test]
fn the_wait_for_a_reply_runs_out() {
    assert_eq!(reply_wait_left_nanos(0), 250_000_000);
    assert_eq!(reply_wait_left_nanos(249_999_999), 1);
    assert_eq!(reply_wait_left_nanos(250_000_000), 0);
    assert_eq!(reply_wait_left_nanos(u128::MAX), 0);
}

#[test]
fn a_wait_means_what_poll_says() {
    let failure = |kind| IoError {
        kind,
        code: Some(4),
        message: "poll".to_string(),
    };
    assert!(matches!(poll_readable(true, Ok(1)), Readiness::Readable));
    assert!(matches!(poll_readable(false, Ok(2)), Readiness::Readable));
    assert!(matches!(poll_readable(true, Ok(0)), Readiness::Quiet));
    assert!(matches!(
        poll_readable(true, Err(failure(IoErrorKind::Interrupted))),
        Readiness::Quiet
    ));
    assert!(matches!(
        poll_readable(false, Err(failure(IoErrorKind::Interrupted))),
        Readiness::Again
    ));
    assert!(matches!(
        poll_readable(false, Err(failure(IoErrorKind::Other))),
        Readiness::Failed { .. }
    ));
}
