//! Whole sessions against a daemon in memory.
use std::collections::VecDeque;
use std::time::Duration;

use libsgc_rs::driver::{Action, Effect, Note, Outcome, Reply, Step};
use libsgc_rs::error::{IoError, IoErrorKind};
use libsgc_rs::protocol::{ProtocolError, ServerMessage};
use libsgc_rs::session::Operation;
use libsgc_rs::{InputResource, Resource, SgcClient, SgcError, SgcEvent};
use simple_graphics_protocol as wire;

/// What the daemon has written: bytes, and descriptors on the first of them.
struct Segment {
    bytes: VecDeque<u8>,
    fds: Vec<i32>,
}

/// A daemon and the machine around it.
struct Daemon {
    listening: bool,
    incoming: VecDeque<Segment>,
    /// What arrives only once the client has written its request.
    after_request: Vec<Segment>,
    hung_up: bool,
    requests: Vec<wire::ClientRequest>,
    closed: Vec<i32>,
    notes: Vec<Note>,
    duplicated: Vec<i32>,
    dispatched: Vec<SgcEvent>,
    opened: Vec<u8>,
    polls: Vec<i32>,
    next_fd: i32,
    elapsed: u128,
    /// The most bytes that one read brings.
    read_size: usize,
    duplication_fails: bool,
    write_fails: bool,
    /// Failures of poll before it works.
    poll_failures: VecDeque<IoErrorKind>,
}

fn io_error(kind: IoErrorKind, code: i32, message: &str) -> IoError {
    IoError {
        kind,
        code: Some(code),
        message: message.to_string(),
    }
}

fn segment(message: &wire::ServerMessage, fds: &[i32]) -> Segment {
    Segment {
        bytes: wire::serialize_framed(message).expect("serialize").into(),
        fds: fds.to_vec(),
    }
}

impl Daemon {
    fn new() -> Daemon {
        Daemon {
            listening: true,
            incoming: VecDeque::new(),
            after_request: Vec::new(),
            hung_up: false,
            requests: Vec::new(),
            closed: Vec::new(),
            notes: Vec::new(),
            duplicated: Vec::new(),
            dispatched: Vec::new(),
            opened: Vec::new(),
            polls: Vec::new(),
            next_fd: 100,
            elapsed: 0,
            read_size: usize::MAX,
            duplication_fails: false,
            write_fails: false,
            poll_failures: VecDeque::new(),
        }
    }

    /// A daemon that has already sent its list.
    fn advertising(available_resources: Vec<wire::Resource>) -> Daemon {
        let mut daemon = Daemon::new();
        daemon.send(
            &wire::ServerMessage::Advertise {
                available_resources,
            },
            &[],
        );
        daemon
    }

    fn send(&mut self, message: &wire::ServerMessage, fds: &[i32]) {
        self.incoming.push_back(segment(message, fds));
    }

    fn send_bytes(&mut self, bytes: Vec<u8>, fds: &[i32]) {
        self.incoming.push_back(Segment {
            bytes: bytes.into(),
            fds: fds.to_vec(),
        });
    }

    fn read(&mut self, len: usize) -> Reply {
        let mut bytes = Vec::new();
        let mut fds = Vec::new();
        if let Some(front) = self.incoming.front_mut() {
            fds.append(&mut front.fds);
            while bytes.len() < len.min(self.read_size) {
                match front.bytes.pop_front() {
                    Some(byte) => bytes.push(byte),
                    None => break,
                }
            }
            if front.bytes.is_empty() {
                self.incoming.pop_front();
            }
        } else {
            assert!(self.hung_up, "the read would block");
        }
        Reply::Received { bytes, fds }
    }

    fn write(&mut self, frame: &[u8]) {
        let header: [u8; 4] = [frame[0], frame[1], frame[2], frame[3]];
        let len = wire::parse_frame_header(&header).expect("header");
        assert_eq!(frame.len(), 4 + len);
        self.requests
            .push(wire::deserialize(&frame[4..]).expect("request"));
    }

    /// Does what the session asks for until the operation is over.
    fn drive(&mut self, client: &mut SgcClient, first: Step) -> Outcome {
        let mut step = first;
        loop {
            for effect in step.effects {
                match effect {
                    Effect::Close { fd } => self.closed.push(fd),
                    Effect::Send { frame } => self.write(&frame),
                    Effect::Note { note } => self.notes.push(note),
                }
            }
            let reply = match step.action {
                Action::Open { name } => {
                    self.opened = name;
                    if self.listening {
                        Reply::Opened
                    } else {
                        Reply::OpenFailed {
                            error: io_error(IoErrorKind::Other, 111, "Connection refused"),
                        }
                    }
                }
                Action::Write { frame } => {
                    self.elapsed = 0;
                    if self.write_fails {
                        Reply::WriteFailed {
                            error: io_error(IoErrorKind::Other, 32, "Broken pipe"),
                        }
                    } else {
                        self.write(&frame);
                        self.incoming.extend(self.after_request.drain(..));
                        Reply::Written
                    }
                }
                Action::Clock => Reply::Elapsed {
                    nanos: self.elapsed,
                },
                Action::Poll { timeout_ms } => {
                    self.polls.push(timeout_ms);
                    if let Some(kind) = self.poll_failures.pop_front() {
                        Reply::PollFailed {
                            error: io_error(kind, 4, "poll"),
                        }
                    } else if !self.incoming.is_empty() || self.hung_up {
                        Reply::Polled { ready: 1 }
                    } else {
                        assert!(timeout_ms >= 0, "the wait would never end");
                        self.elapsed += timeout_ms as u128 * 1_000_000;
                        Reply::Polled { ready: 0 }
                    }
                }
                Action::Receive { len } => self.read(len),
                Action::Duplicate { fd } => {
                    if self.duplication_fails {
                        Reply::DuplicateFailed {
                            error: io_error(IoErrorKind::Other, 24, "Too many open files"),
                        }
                    } else {
                        self.duplicated.push(fd);
                        self.next_fd += 1;
                        Reply::Duplicated { fd: self.next_fd }
                    }
                }
                Action::Dispatch { event } => {
                    self.dispatched.push(event);
                    Reply::Dispatched
                }
                Action::Finish { outcome } => return outcome,
            };
            step = client.resume(reply);
        }
    }

    fn connect_at(&mut self, name: &[u8]) -> Result<(SgcClient, Vec<Resource>), SgcError> {
        let (mut client, step) = SgcClient::connect_at(name);
        match self.drive(&mut client, step) {
            Outcome::Connected {
                available_resources,
            } => Ok((client, available_resources)),
            Outcome::Failed { error } => Err(error),
            other => panic!("connect ended with {other:?}"),
        }
    }

    fn acquire(&mut self, client: &mut SgcClient, resource: Resource) -> Result<(), SgcError> {
        let step = client.acquire(resource);
        match self.drive(client, step) {
            Outcome::Acquired => Ok(()),
            Outcome::Failed { error } => Err(error),
            other => panic!("acquire ended with {other:?}"),
        }
    }

    fn pump(
        &mut self,
        client: &mut SgcClient,
        timeout: Option<Duration>,
    ) -> Result<Option<SgcEvent>, SgcError> {
        let step = client.pump(timeout.map(|limit| limit.as_nanos()));
        match self.drive(client, step) {
            Outcome::Event { event } => Ok(Some(event)),
            Outcome::NoEvent => Ok(None),
            Outcome::Failed { error } => Err(error),
            other => panic!("pump ended with {other:?}"),
        }
    }

    fn fd(&mut self, client: &SgcClient, resource: &Resource) -> Result<i32, SgcError> {
        let loan = client.fd(resource)?;
        self.duplicated.push(loan.fd);
        self.next_fd += 1;
        loan.complete(Ok(self.next_fd))
    }
}

/// The daemon pushes its list whenever it changes, so a reply can arrive behind
/// an `Advertise`. `acquire` must keep it and still succeed.
#[test]
fn acquire_survives_an_event_that_arrives_first() {
    let mut daemon = Daemon::advertising(vec![wire::Resource::Fbdev]);
    daemon.send(
        &wire::ServerMessage::Advertise {
            available_resources: vec![wire::Resource::Fbdev, wire::Resource::Drm { card: 1 }],
        },
        &[],
    );
    daemon.send(
        &wire::ServerMessage::Grant {
            resource: wire::Resource::Fbdev,
        },
        &[7],
    );
    let (mut client, _) = daemon.connect_at(b"sgc-test-interleaved").expect("connect");

    daemon
        .acquire(&mut client, Resource::Fbdev)
        .expect("the interleaved push must not break the acquire");
    assert!(client.held().contains(&Resource::Fbdev), "granted and held");

    // ... and the event it skipped is not lost.
    let event = daemon
        .pump(&mut client, Some(Duration::from_millis(100)))
        .expect("pump");
    assert!(
        matches!(
            event,
            Some(SgcEvent::Advertised { ref available_resources })
                if available_resources.len() == 2
        ),
        "expected the pushed list, got {event:?}"
    );
}

/// A queued acquire gets no reply: it must come back as `Queued` and quickly,
/// because the grant arrives later as an event.
#[test]
fn acquire_reports_a_queue_instead_of_desyncing() {
    let mut daemon = Daemon::advertising(vec![wire::Resource::Fbdev]);
    let (mut client, _) = daemon.connect_at(b"sgc-test-queued").expect("connect");

    let err = daemon
        .acquire(&mut client, Resource::Fbdev)
        .expect_err("nothing was granted");
    assert!(
        matches!(err, SgcError::Queued { ref resource } if *resource == Resource::Fbdev),
        "expected Queued, got {err:?}"
    );
    assert!(
        daemon.elapsed < Duration::from_millis(1500).as_nanos(),
        "the queued answer must not hang the caller"
    );
}

#[test]
fn connect_fails_cleanly_when_no_server() {
    let mut daemon = Daemon::new();
    daemon.listening = false;
    let err = daemon
        .connect_at(b"sgc-test-nowhere")
        .expect_err("must fail");
    assert!(
        matches!(err, SgcError::ConnectFailed(_)),
        "expected ConnectFailed, got {err:?}"
    );
}

#[test]
fn connect_reads_advertise_and_returns_resources() {
    let mut daemon = Daemon::advertising(vec![wire::Resource::Fbdev]);
    let (client, available) = daemon.connect_at(b"sgc-test-adv").expect("connect");
    assert_eq!(available, vec![Resource::Fbdev]);
    assert!(client.held().is_empty());
}

#[test]
fn acquire_denied_surfaces_reason() {
    let mut daemon = Daemon::advertising(vec![wire::Resource::Fbdev]);
    daemon.send(
        &wire::ServerMessage::Deny {
            reason: "first-owner policy".into(),
        },
        &[],
    );
    let (mut client, _) = daemon.connect_at(b"sgc-test-deny").expect("connect");
    let err = daemon
        .acquire(&mut client, Resource::Fbdev)
        .expect_err("must be denied");
    assert!(
        matches!(err, SgcError::Denied { ref reason } if reason == "first-owner policy"),
        "expected Denied, got {err:?}"
    );
    assert!(client.held().is_empty(), "nothing held on deny");
}

#[test]
fn acquire_grant_holds_fd_and_lends_dup() {
    let mut daemon = Daemon::advertising(vec![wire::Resource::Fbdev]);
    daemon.send(
        &wire::ServerMessage::Grant {
            resource: wire::Resource::Fbdev,
        },
        &[7],
    );
    let (mut client, _) = daemon.connect_at(b"sgc-test-grant").expect("connect");
    daemon
        .acquire(&mut client, Resource::Fbdev)
        .expect("grant");
    assert_eq!(client.held(), vec![Resource::Fbdev]);
    let fd = daemon.fd(&client, &Resource::Fbdev).expect("lend");
    assert!(fd >= 0, "lent fd must be valid");
    assert_ne!(fd, 7, "the canonical is never lent");
}

#[test]
fn pump_times_out_with_no_frame() {
    let mut daemon = Daemon::advertising(vec![wire::Resource::Fbdev]);
    let (mut client, _) = daemon.connect_at(b"sgc-test-pump-timeout").expect("connect");
    assert!(
        daemon
            .pump(&mut client, Some(Duration::from_millis(50)))
            .expect("bounded pump")
            .is_none(),
        "no frame within 50ms must be Ok(None)"
    );
    assert!(
        daemon
            .pump(&mut client, Some(Duration::ZERO))
            .expect("zero-timeout pump")
            .is_none(),
        "zero timeout polls once and must not block"
    );
    assert_eq!(daemon.polls, vec![50, 0]);
}

#[test]
fn pump_delivers_revoke_and_replies_release() {
    let mut daemon = Daemon::advertising(vec![wire::Resource::Fbdev]);
    let (mut client, _) = daemon.connect_at(b"sgc-test-revoke").expect("connect");

    daemon.after_request.push(segment(
        &wire::ServerMessage::Grant {
            resource: wire::Resource::Fbdev,
        },
        &[7],
    ));
    daemon
        .acquire(&mut client, Resource::Fbdev)
        .expect("acquire");
    assert_eq!(
        daemon.requests[0],
        wire::ClientRequest::Acquire {
            resource: wire::Resource::Fbdev
        }
    );
    assert_eq!(client.held(), vec![Resource::Fbdev]);
    // acquire() already acked its grant.
    assert_eq!(daemon.requests[1], wire::ClientRequest::Ack);

    daemon.send(
        &wire::ServerMessage::Revoke {
            resource: wire::Resource::Fbdev,
        },
        &[],
    );
    match daemon.pump(&mut client, None).expect("pump") {
        Some(SgcEvent::Revoked { resource }) => assert_eq!(resource, Resource::Fbdev),
        other => panic!("expected Revoked, got {other:?}"),
    }
    // Revoke-ack: the library replies Release before returning the event.
    assert_eq!(
        daemon.requests[2],
        wire::ClientRequest::Release {
            resource: wire::Resource::Fbdev
        }
    );
    assert!(client.held().is_empty(), "canonical dropped on revoke");
    assert_eq!(daemon.closed.last(), Some(&7));
}

#[test]
fn pump_delivers_regrant_and_acks() {
    let mut daemon = Daemon::advertising(vec![wire::Resource::Fbdev]);
    let (mut client, _) = daemon.connect_at(b"sgc-test-regrant").expect("connect");

    // Unsolicited re-grant (the requeue path): no acquire involved.
    daemon.send(
        &wire::ServerMessage::Grant {
            resource: wire::Resource::Fbdev,
        },
        &[7],
    );
    match daemon.pump(&mut client, None).expect("pump") {
        Some(SgcEvent::Granted { resource, fd }) => {
            assert_eq!(resource, Resource::Fbdev);
            assert!(fd >= 0, "granted fd must be a valid dup");
            assert_ne!(fd, 7, "the event carries the duplicate");
        }
        other => panic!("expected Granted, got {other:?}"),
    }
    assert_eq!(daemon.requests, vec![wire::ClientRequest::Ack]);
    assert_eq!(client.held(), vec![Resource::Fbdev]);
}

/// The server pushes its list again whenever a device appears or goes away. It
/// has to surface as an event.
#[test]
fn pump_delivers_a_pushed_advertise() {
    let mut daemon = Daemon::advertising(vec![wire::Resource::Fbdev]);
    let (mut client, advertised) = daemon.connect_at(b"sgc-test-push").expect("connect");
    assert_eq!(advertised, vec![Resource::Fbdev]);

    let keyboard = Resource::Input(InputResource::Keyboard(0));
    daemon.send(
        &wire::ServerMessage::Advertise {
            available_resources: vec![
                wire::Resource::Fbdev,
                wire::Resource::Input(wire::InputResource::Keyboard(0)),
            ],
        },
        &[],
    );
    match daemon.pump(&mut client, None).expect("pump") {
        Some(SgcEvent::Advertised {
            available_resources,
        }) => assert_eq!(available_resources, vec![Resource::Fbdev, keyboard]),
        other => panic!("expected Advertised, got {other:?}"),
    }
}

#[test]
fn disconnect_emits_revoked_per_held_then_errors() {
    let mut daemon = Daemon::advertising(vec![
        wire::Resource::Fbdev,
        wire::Resource::Drm { card: 0 },
    ]);
    let (mut client, _) = daemon.connect_at(b"sgc-test-disconnect").expect("connect");

    // Hold both advertised resources via two unsolicited grants.
    daemon.send(
        &wire::ServerMessage::Grant {
            resource: wire::Resource::Fbdev,
        },
        &[7],
    );
    assert!(daemon
        .pump(&mut client, None)
        .expect("grant fbdev")
        .is_some());
    daemon.send(
        &wire::ServerMessage::Grant {
            resource: wire::Resource::Drm { card: 0 },
        },
        &[8],
    );
    assert!(daemon.pump(&mut client, None).expect("grant drm").is_some());
    assert_eq!(client.held().len(), 2);

    // Server goes away: every held resource is revoked, then an error.
    daemon.hung_up = true;
    let mut revoked: Vec<Resource> = Vec::new();
    loop {
        match daemon.pump(&mut client, None) {
            Ok(Some(SgcEvent::Revoked { resource })) => revoked.push(resource),
            Ok(_) => continue,
            Err(err) => {
                assert!(
                    matches!(err, SgcError::Io(_)),
                    "expected io error after drain, got {err:?}"
                );
                break;
            }
        }
    }
    assert_eq!(revoked.len(), 2, "one Revoked per held resource");
    assert!(revoked.contains(&Resource::Fbdev));
    assert!(revoked.contains(&Resource::Drm { card: 0 }));
    assert!(client.held().is_empty(), "nothing held after disconnect");
    assert_eq!(daemon.closed, vec![7, 8]);
}

/// A session that holds these resources, granted one after the other.
fn holding(grants: &[(wire::Resource, i32)]) -> (Daemon, SgcClient) {
    let mut daemon = Daemon::advertising(vec![wire::Resource::Fbdev]);
    let (mut client, _) = daemon.connect_at(b"sgc").expect("connect");
    for (resource, fd) in grants {
        daemon.send(
            &wire::ServerMessage::Grant {
                resource: resource.clone(),
            },
            &[*fd],
        );
        let event = daemon.pump(&mut client, None).expect("grant");
        assert!(matches!(event, Some(SgcEvent::Granted { .. })));
    }
    daemon.requests.clear();
    daemon.polls.clear();
    (daemon, client)
}

#[test]
fn connect_opens_the_daemons_own_socket() {
    let (_, step) = SgcClient::connect();
    assert!(step.effects.is_empty());
    match step.action {
        Action::Open { name } => assert_eq!(name, b"sgc".to_vec()),
        other => panic!("expected Open, got {other:?}"),
    }
}

#[test]
fn connect_at_opens_the_socket_of_that_name() {
    let mut daemon = Daemon::advertising(vec![]);
    daemon.connect_at(b"elsewhere").expect("connect");
    assert_eq!(daemon.opened, b"elsewhere".to_vec());
}

#[test]
fn a_refused_address_is_an_io_error() {
    let (mut client, _) = SgcClient::connect_at(b"\0");
    let step = client.resume(Reply::AddressRefused {
        error: io_error(IoErrorKind::Other, 22, "invalid"),
    });
    match step.action {
        Action::Finish {
            outcome: Outcome::Failed {
                error: SgcError::Io(error),
            },
        } => assert_eq!(error.code, Some(22)),
        other => panic!("expected an io error, got {other:?}"),
    }
}

#[test]
fn connect_wants_the_list_first() {
    let mut daemon = Daemon::new();
    daemon.send(
        &wire::ServerMessage::Deny {
            reason: "busy".into(),
        },
        &[],
    );
    let err = daemon.connect_at(b"sgc").expect_err("no list");
    assert!(
        matches!(
            err,
            SgcError::UnexpectedMessage(ServerMessage::Deny { ref reason }) if reason == "busy"
        ),
        "got {err:?}"
    );
}

#[test]
fn connect_fails_when_the_daemon_hangs_up() {
    let mut daemon = Daemon::new();
    daemon.hung_up = true;
    let err = daemon.connect_at(b"sgc").expect_err("hung up");
    assert!(
        matches!(err, SgcError::Io(ref error) if error.kind == IoErrorKind::UnexpectedEof),
        "got {err:?}"
    );
}

#[test]
fn frames_survive_any_cut() {
    for read_size in 1..40 {
        let mut daemon = Daemon::advertising(vec![
            wire::Resource::Drm { card: 200 },
            wire::Resource::Input(wire::InputResource::Mouse(1)),
            wire::Resource::Input(wire::InputResource::Touch(2)),
        ]);
        daemon.read_size = read_size;
        let (mut client, available) = daemon.connect_at(b"sgc").expect("connect");
        assert_eq!(
            available,
            vec![
                Resource::Drm { card: 200 },
                Resource::Input(InputResource::Mouse(1)),
                Resource::Input(InputResource::Touch(2)),
            ]
        );
        daemon.send(
            &wire::ServerMessage::Grant {
                resource: wire::Resource::Drm { card: 200 },
            },
            &[7],
        );
        let event = daemon.pump(&mut client, None).expect("pump");
        assert!(matches!(
            event,
            Some(SgcEvent::Granted {
                resource: Resource::Drm { card: 200 },
                ..
            })
        ));
    }
}

#[test]
fn a_new_grant_replaces_the_descriptor() {
    let (mut daemon, mut client) = holding(&[
        (wire::Resource::Fbdev, 7),
        (wire::Resource::Drm { card: 0 }, 8),
    ]);
    daemon.send(
        &wire::ServerMessage::Grant {
            resource: wire::Resource::Fbdev,
        },
        &[9],
    );
    let event = daemon.pump(&mut client, None).expect("pump");
    assert!(matches!(
        event,
        Some(SgcEvent::Granted {
            resource: Resource::Fbdev,
            ..
        })
    ));
    assert_eq!(daemon.closed, vec![7]);
    assert_eq!(daemon.requests, vec![wire::ClientRequest::Ack]);
    assert_eq!(client.held().len(), 2);
    assert_eq!(client.fd(&Resource::Fbdev).expect("held").fd, 9);
    assert_eq!(client.fd(&Resource::Drm { card: 0 }).expect("held").fd, 8);
}

#[test]
fn a_grant_without_its_one_descriptor_is_passed_over() {
    for fds in [vec![], vec![5, 6]] {
        let (mut daemon, mut client) = holding(&[]);
        daemon.send(
            &wire::ServerMessage::Grant {
                resource: wire::Resource::Fbdev,
            },
            &fds,
        );
        let event = daemon
            .pump(&mut client, Some(Duration::from_millis(1)))
            .expect("pump");
        assert!(event.is_none());
        assert_eq!(daemon.closed, fds);
        assert!(daemon.requests.is_empty(), "no ack");
        assert!(client.held().is_empty());
        assert!(matches!(
            daemon.notes[..],
            [Note::GrantSkipped { count }] if count == fds.len()
        ));
    }
}

#[test]
fn descriptors_on_other_messages_are_closed() {
    let (mut daemon, mut client) = holding(&[(wire::Resource::Fbdev, 7)]);
    daemon.send(
        &wire::ServerMessage::Advertise {
            available_resources: vec![],
        },
        &[5],
    );
    daemon.pump(&mut client, None).expect("pump");
    assert_eq!(daemon.closed, vec![5]);
    daemon.send(
        &wire::ServerMessage::Revoke {
            resource: wire::Resource::Fbdev,
        },
        &[6],
    );
    daemon.pump(&mut client, None).expect("pump");
    assert_eq!(daemon.closed, vec![5, 7, 6]);
}

#[test]
fn a_refusal_that_nobody_waits_for_is_passed_over() {
    let (mut daemon, mut client) = holding(&[(wire::Resource::Fbdev, 7)]);
    daemon.send(
        &wire::ServerMessage::Deny {
            reason: "late".into(),
        },
        &[],
    );
    let event = daemon.pump(&mut client, None).expect("pump");
    assert!(event.is_none());
    assert_eq!(client.held(), vec![Resource::Fbdev]);
    assert!(daemon.requests.is_empty());
}

#[test]
fn a_revoke_is_answered_even_if_nothing_is_held() {
    let (mut daemon, mut client) = holding(&[]);
    daemon.send(
        &wire::ServerMessage::Revoke {
            resource: wire::Resource::Input(wire::InputResource::Mouse(3)),
        },
        &[],
    );
    let event = daemon.pump(&mut client, None).expect("pump");
    assert!(matches!(
        event,
        Some(SgcEvent::Revoked {
            resource: Resource::Input(InputResource::Mouse(3))
        })
    ));
    assert_eq!(
        daemon.requests,
        vec![wire::ClientRequest::Release {
            resource: wire::Resource::Input(wire::InputResource::Mouse(3))
        }]
    );
    assert!(daemon.closed.is_empty());
}

#[test]
fn a_failed_duplication_is_no_event_but_the_lease_stands() {
    let (mut daemon, mut client) = holding(&[]);
    daemon.duplication_fails = true;
    daemon.send(
        &wire::ServerMessage::Grant {
            resource: wire::Resource::Fbdev,
        },
        &[7],
    );
    let event = daemon.pump(&mut client, None).expect("pump");
    assert!(event.is_none());
    assert_eq!(client.held(), vec![Resource::Fbdev]);
    assert_eq!(daemon.requests, vec![wire::ClientRequest::Ack]);
    assert!(matches!(
        daemon.notes[..],
        [Note::LendFailed { ref error }] if error.code == Some(24)
    ));
}

#[test]
fn what_is_not_held_cannot_be_borrowed() {
    let (_, client) = holding(&[(wire::Resource::Fbdev, 7)]);
    let err = client
        .fd(&Resource::Drm { card: 0 })
        .expect_err("not held");
    assert!(matches!(
        err,
        SgcError::NotHeld {
            resource: Resource::Drm { card: 0 }
        }
    ));
}

#[test]
fn a_loan_reports_a_failed_duplication() {
    let (_, client) = holding(&[(wire::Resource::Fbdev, 7)]);
    let loan = client.fd(&Resource::Fbdev).expect("held");
    assert_eq!(loan.fd, 7);
    let err = loan
        .complete(Err(io_error(IoErrorKind::Other, 24, "Too many open files")))
        .expect_err("no duplicate");
    assert!(matches!(err, SgcError::Io(ref error) if error.code == Some(24)));
}

#[test]
fn an_acquire_keeps_every_event_in_order() {
    let (mut daemon, mut client) = holding(&[(wire::Resource::Drm { card: 0 }, 8)]);
    daemon.after_request.push(segment(
        &wire::ServerMessage::Grant {
            resource: wire::Resource::Fbdev,
        },
        &[7],
    ));
    daemon.after_request.push(segment(
        &wire::ServerMessage::Revoke {
            resource: wire::Resource::Drm { card: 0 },
        },
        &[],
    ));
    daemon.after_request.push(segment(
        &wire::ServerMessage::Advertise {
            available_resources: vec![wire::Resource::Fbdev],
        },
        &[],
    ));
    daemon.after_request.push(segment(
        &wire::ServerMessage::Grant {
            resource: wire::Resource::Drm { card: 1 },
        },
        &[9],
    ));
    daemon
        .acquire(&mut client, Resource::Drm { card: 1 })
        .expect("acquire");
    assert_eq!(
        daemon.requests,
        vec![
            wire::ClientRequest::Acquire {
                resource: wire::Resource::Drm { card: 1 }
            },
            wire::ClientRequest::Ack,
            wire::ClientRequest::Release {
                resource: wire::Resource::Drm { card: 0 }
            },
            wire::ClientRequest::Ack,
        ]
    );
    daemon.polls.clear();
    assert!(matches!(
        daemon.pump(&mut client, None).expect("first"),
        Some(SgcEvent::Granted {
            resource: Resource::Fbdev,
            ..
        })
    ));
    assert!(matches!(
        daemon.pump(&mut client, None).expect("second"),
        Some(SgcEvent::Revoked {
            resource: Resource::Drm { card: 0 }
        })
    ));
    assert!(matches!(
        daemon.pump(&mut client, None).expect("third"),
        Some(SgcEvent::Advertised { .. })
    ));
    assert!(daemon.polls.is_empty(), "the socket was not needed");
    assert_eq!(
        client.held(),
        vec![Resource::Fbdev, Resource::Drm { card: 1 }]
    );
}

#[test]
fn an_own_grant_without_its_one_descriptor_is_no_answer() {
    for fds in [vec![], vec![5, 6]] {
        let (mut daemon, mut client) = holding(&[]);
        let grant = wire::ServerMessage::Grant {
            resource: wire::Resource::Fbdev,
        };
        daemon.after_request.push(segment(&grant, &fds));
        let err = daemon
            .acquire(&mut client, Resource::Fbdev)
            .expect_err("nothing to hold");
        assert!(matches!(err, SgcError::Queued { .. }));
        assert_eq!(daemon.closed, fds);
        assert!(client.held().is_empty());
        assert_eq!(daemon.requests.len(), 1, "no ack");

        // The wait goes on, and the grant proper ends it.
        daemon.after_request.push(segment(&grant, &fds));
        daemon.after_request.push(segment(&grant, &[7]));
        daemon
            .acquire(&mut client, Resource::Fbdev)
            .expect("granted after all");
        assert_eq!(client.held(), vec![Resource::Fbdev]);
        assert_eq!(client.fd(&Resource::Fbdev).expect("held").fd, 7);
    }
}

#[test]
fn a_refusal_closes_what_came_with_it() {
    let (mut daemon, mut client) = holding(&[(wire::Resource::Fbdev, 7)]);
    daemon.after_request.push(segment(
        &wire::ServerMessage::Deny {
            reason: "no".into(),
        },
        &[5, 6],
    ));
    let err = daemon
        .acquire(&mut client, Resource::Drm { card: 0 })
        .expect_err("denied");
    assert!(matches!(err, SgcError::Denied { ref reason } if reason == "no"));
    assert_eq!(daemon.closed, vec![5, 6]);
    assert_eq!(client.held(), vec![Resource::Fbdev]);
}

#[test]
fn an_acquire_that_cannot_be_written_fails() {
    let (mut daemon, mut client) = holding(&[]);
    daemon.write_fails = true;
    let err = daemon
        .acquire(&mut client, Resource::Fbdev)
        .expect_err("broken pipe");
    assert!(matches!(err, SgcError::Io(ref error) if error.code == Some(32)));
}

#[test]
fn an_acquire_waits_a_quarter_of_a_second_in_all() {
    let (mut daemon, mut client) = holding(&[]);
    let err = daemon
        .acquire(&mut client, Resource::Fbdev)
        .expect_err("queued");
    assert!(matches!(err, SgcError::Queued { .. }));
    assert_eq!(daemon.polls, vec![250]);

    // Less than a millisecond left: one last look.
    let step = client.acquire(Resource::Fbdev);
    assert!(matches!(step.action, Action::Write { .. }));
    let step = client.resume(Reply::Written);
    assert!(matches!(step.action, Action::Clock));
    let step = client.resume(Reply::Elapsed { nanos: 249_999_999 });
    assert!(matches!(step.action, Action::Poll { timeout_ms: 0 }));
    let step = client.resume(Reply::Polled { ready: 0 });
    assert!(matches!(
        step.action,
        Action::Finish {
            outcome: Outcome::Failed {
                error: SgcError::Queued {
                    resource: Resource::Fbdev
                }
            }
        }
    ));

    // Nothing left: no look at all.
    client.acquire(Resource::Fbdev);
    client.resume(Reply::Written);
    let step = client.resume(Reply::Elapsed { nanos: 250_000_000 });
    assert!(matches!(
        step.action,
        Action::Finish {
            outcome: Outcome::Failed {
                error: SgcError::Queued { .. }
            }
        }
    ));
}

#[test]
fn a_dead_connection_fails_the_acquire_and_ends_with_the_pump() {
    let (mut daemon, mut client) = holding(&[(wire::Resource::Fbdev, 7)]);
    daemon.hung_up = true;
    let err = daemon
        .acquire(&mut client, Resource::Drm { card: 0 })
        .expect_err("dead");
    assert!(matches!(err, SgcError::Io(ref error) if error.kind == IoErrorKind::UnexpectedEof));
    assert_eq!(client.held(), vec![Resource::Fbdev], "still held");
    assert!(matches!(
        daemon.pump(&mut client, None).expect("drain"),
        Some(SgcEvent::Revoked {
            resource: Resource::Fbdev
        })
    ));
    assert!(daemon.pump(&mut client, None).is_err());
    assert_eq!(daemon.closed, vec![7]);
    assert_eq!(daemon.requests.len(), 1, "a lost resource is not released");
}

#[test]
fn the_fatal_error_is_told_once() {
    let (mut daemon, mut client) = holding(&[]);
    daemon.hung_up = true;
    assert!(daemon.pump(&mut client, None).is_err());
    daemon.hung_up = false;
    let event = daemon
        .pump(&mut client, Some(Duration::ZERO))
        .expect("nothing left to tell");
    assert!(event.is_none());
}

#[test]
fn kept_events_come_before_the_end() {
    let (mut daemon, mut client) = holding(&[(wire::Resource::Fbdev, 7)]);
    daemon.after_request.push(segment(
        &wire::ServerMessage::Advertise {
            available_resources: vec![],
        },
        &[],
    ));
    let err = daemon
        .acquire(&mut client, Resource::Drm { card: 0 })
        .expect_err("queued");
    assert!(matches!(err, SgcError::Queued { .. }));
    daemon.hung_up = true;
    assert!(matches!(
        daemon.pump(&mut client, None).expect("kept"),
        Some(SgcEvent::Advertised { .. })
    ));
    assert!(matches!(
        daemon.pump(&mut client, None).expect("lost"),
        Some(SgcEvent::Revoked { .. })
    ));
    assert!(daemon.pump(&mut client, None).is_err());
}

#[test]
fn a_signal_ends_a_bounded_wait_only() {
    let (mut daemon, mut client) = holding(&[]);
    daemon.poll_failures.push_back(IoErrorKind::Interrupted);
    let event = daemon
        .pump(&mut client, Some(Duration::from_millis(20)))
        .expect("bounded");
    assert!(event.is_none());
    assert_eq!(daemon.polls, vec![20]);

    daemon.polls.clear();
    daemon.poll_failures.push_back(IoErrorKind::Interrupted);
    daemon.poll_failures.push_back(IoErrorKind::Interrupted);
    daemon.send(
        &wire::ServerMessage::Advertise {
            available_resources: vec![],
        },
        &[],
    );
    let event = daemon.pump(&mut client, None).expect("unbounded");
    assert!(matches!(event, Some(SgcEvent::Advertised { .. })));
    assert_eq!(daemon.polls, vec![-1, -1, -1]);
}

#[test]
fn a_signal_during_an_acquire_counts_as_silence() {
    let (mut daemon, mut client) = holding(&[]);
    daemon.poll_failures.push_back(IoErrorKind::Interrupted);
    let err = daemon
        .acquire(&mut client, Resource::Fbdev)
        .expect_err("interrupted");
    assert!(matches!(err, SgcError::Queued { .. }));
}

#[test]
fn a_failed_wait_ends_the_session() {
    let (mut daemon, mut client) = holding(&[
        (wire::Resource::Fbdev, 7),
        (wire::Resource::Drm { card: 0 }, 8),
    ]);
    daemon.poll_failures.push_back(IoErrorKind::Other);
    assert!(matches!(
        daemon.pump(&mut client, None).expect("first"),
        Some(SgcEvent::Revoked {
            resource: Resource::Fbdev
        })
    ));
    assert!(matches!(
        daemon
            .pump(&mut client, Some(Duration::ZERO))
            .expect("second"),
        Some(SgcEvent::Revoked {
            resource: Resource::Drm { card: 0 }
        })
    ));
    let err = daemon.pump(&mut client, None).expect_err("poll failed");
    assert!(matches!(err, SgcError::Io(ref error) if error.code == Some(4)));
    assert!(client.held().is_empty());
    assert_eq!(daemon.closed, vec![7, 8]);
}

#[test]
fn a_failed_wait_ends_the_event_loop() {
    let (mut daemon, mut client) = holding(&[(wire::Resource::Fbdev, 7)]);
    daemon.poll_failures.push_back(IoErrorKind::Other);
    let step = client.start_event_loop();
    let outcome = daemon.drive(&mut client, step);
    assert!(matches!(
        outcome,
        Outcome::Failed {
            error: SgcError::Io(_)
        }
    ));
    assert_eq!(daemon.dispatched.len(), 1);
    assert!(matches!(
        daemon.dispatched[0],
        SgcEvent::Revoked {
            resource: Resource::Fbdev
        }
    ));
    assert!(client.held().is_empty());
}

#[test]
fn a_failed_wait_only_fails_an_acquire() {
    let (mut daemon, mut client) = holding(&[(wire::Resource::Fbdev, 7)]);
    daemon.poll_failures.push_back(IoErrorKind::Other);
    let err = daemon
        .acquire(&mut client, Resource::Drm { card: 0 })
        .expect_err("poll failed");
    assert!(matches!(err, SgcError::Io(_)));
    assert_eq!(client.held(), vec![Resource::Fbdev]);
    assert!(daemon.closed.is_empty());
}

#[test]
fn a_header_may_announce_a_mebibyte_and_no_more() {
    let (mut daemon, mut client) = holding(&[]);
    daemon.send_bytes(vec![0x00, 0x10, 0x00, 0x01], &[]);
    let err = daemon.pump(&mut client, None).expect_err("too large");
    assert!(
        matches!(
            err,
            SgcError::Protocol(ProtocolError::FrameTooLarge(1_048_577))
        ),
        "got {err:?}"
    );

    // At the limit the payload is read, to the last byte.
    let (mut daemon, mut client) = holding(&[]);
    let mut frame = vec![0x00, 0x10, 0x00, 0x00];
    frame.extend_from_slice(
        &wire::serialize(&wire::ServerMessage::Advertise {
            available_resources: vec![wire::Resource::Fbdev],
        })
        .expect("serialize"),
    );
    frame.resize(4 + 1_048_576, 0xc0);
    daemon.send_bytes(frame, &[]);
    let event = daemon.pump(&mut client, None).expect("at the limit");
    assert!(matches!(event, Some(SgcEvent::Advertised { .. })));
    assert!(daemon.incoming.is_empty());
}

#[test]
fn a_payload_that_is_no_message_ends_the_session() {
    for payload in [vec![], vec![0xc1], vec![0xa3, 0x41, 0x63, 0x6b]] {
        let (mut daemon, mut client) = holding(&[]);
        let mut frame = vec![0, 0, 0, payload.len() as u8];
        frame.extend_from_slice(&payload);
        daemon.send_bytes(frame, &[]);
        let err = daemon.pump(&mut client, None).expect_err("no message");
        let expected = wire::deserialize::<wire::ServerMessage>(&payload)
            .expect_err("no message")
            .to_string();
        assert!(
            matches!(
                err,
                SgcError::Protocol(ProtocolError::Decode(ref text)) if *text == expected
            ),
            "got {err:?}"
        );
    }
}

#[test]
fn the_event_loop_dispatches_until_the_end() {
    let (mut daemon, mut client) = holding(&[(wire::Resource::Fbdev, 7)]);
    daemon.send(
        &wire::ServerMessage::Advertise {
            available_resources: vec![wire::Resource::Fbdev],
        },
        &[],
    );
    daemon.send(
        &wire::ServerMessage::Deny {
            reason: "stray".into(),
        },
        &[],
    );
    daemon.send(
        &wire::ServerMessage::Grant {
            resource: wire::Resource::Drm { card: 0 },
        },
        &[8],
    );
    daemon.hung_up = true;
    let step = client.start_event_loop();
    let outcome = daemon.drive(&mut client, step);
    assert!(
        matches!(
            outcome,
            Outcome::Failed {
                error: SgcError::Io(ref error)
            } if error.kind == IoErrorKind::UnexpectedEof
        ),
        "got {outcome:?}"
    );
    assert_eq!(daemon.dispatched.len(), 4);
    assert!(matches!(
        daemon.dispatched[0],
        SgcEvent::Advertised { .. }
    ));
    assert!(matches!(
        daemon.dispatched[1],
        SgcEvent::Granted {
            resource: Resource::Drm { card: 0 },
            ..
        }
    ));
    assert!(matches!(
        daemon.dispatched[2],
        SgcEvent::Revoked {
            resource: Resource::Fbdev
        }
    ));
    assert!(matches!(
        daemon.dispatched[3],
        SgcEvent::Revoked {
            resource: Resource::Drm { card: 0 }
        }
    ));
    assert_eq!(daemon.closed, vec![7, 8]);
}

#[test]
fn closing_a_session_closes_what_it_has() {
    let (mut daemon, mut client) = holding(&[
        (wire::Resource::Fbdev, 7),
        (wire::Resource::Drm { card: 0 }, 8),
    ]);
    daemon.after_request.push(segment(
        &wire::ServerMessage::Grant {
            resource: wire::Resource::Drm { card: 1 },
        },
        &[9],
    ));
    daemon.after_request.push(segment(
        &wire::ServerMessage::Advertise {
            available_resources: vec![],
        },
        &[],
    ));
    let err = daemon
        .acquire(&mut client, Resource::Drm { card: 2 })
        .expect_err("queued");
    assert!(matches!(err, SgcError::Queued { .. }));
    let duplicate = daemon.next_fd;

    let closed: Vec<i32> = client
        .close()
        .into_iter()
        .map(|effect| match effect {
            Effect::Close { fd } => fd,
            other => panic!("expected Close, got {other:?}"),
        })
        .collect();
    assert_eq!(closed, vec![7, 8, 9, duplicate]);
    assert!(client.held().is_empty());
    assert!(client.close().is_empty());
}

#[test]
fn every_descriptor_ends_in_one_place() {
    let (mut daemon, mut client) = holding(&[(wire::Resource::Fbdev, 7)]);
    daemon.duplicated.clear();
    let first_duplicate = daemon.next_fd + 1;
    let messages = [
        (
            wire::ServerMessage::Grant {
                resource: wire::Resource::Drm { card: 0 },
            },
            vec![10],
        ),
        (
            wire::ServerMessage::Grant {
                resource: wire::Resource::Fbdev,
            },
            vec![11, 12],
        ),
        (
            wire::ServerMessage::Advertise {
                available_resources: vec![],
            },
            vec![13],
        ),
        (
            wire::ServerMessage::Grant {
                resource: wire::Resource::Fbdev,
            },
            vec![14],
        ),
        (
            wire::ServerMessage::Revoke {
                resource: wire::Resource::Drm { card: 0 },
            },
            vec![15, 16],
        ),
    ];
    let mut given: Vec<i32> = Vec::new();
    for (message, fds) in &messages {
        daemon.send(message, fds);
        if let Some(SgcEvent::Granted { fd, .. }) = daemon.pump(&mut client, None).expect("pump") {
            given.push(fd);
        }
    }
    assert_eq!(daemon.closed, vec![11, 12, 13, 7, 10, 15, 16]);
    assert_eq!(client.held(), vec![Resource::Fbdev]);
    assert_eq!(client.fd(&Resource::Fbdev).expect("held").fd, 14);
    assert_eq!(given, vec![first_duplicate, first_duplicate + 1]);
    assert_eq!(daemon.duplicated, vec![10, 14]);
}

#[test]
fn descriptors_of_a_passed_over_refusal_are_closed() {
    let (mut daemon, mut client) = holding(&[(wire::Resource::Fbdev, 7)]);
    daemon.send(
        &wire::ServerMessage::Deny {
            reason: "late".into(),
        },
        &[5, 6],
    );
    assert!(daemon.pump(&mut client, None).expect("pump").is_none());
    assert_eq!(daemon.closed, vec![5, 6]);
    assert_eq!(client.held(), vec![Resource::Fbdev]);
    assert!(matches!(
        daemon.notes[..],
        [Note::MessageSkipped {
            message: ServerMessage::Deny { ref reason }
        }] if reason == "late"
    ));
}

#[test]
fn descriptors_of_the_opening_frame_are_closed() {
    let mut daemon = Daemon::new();
    daemon.send(
        &wire::ServerMessage::Advertise {
            available_resources: vec![wire::Resource::Fbdev],
        },
        &[5, 6],
    );
    let (client, available) = daemon.connect_at(b"sgc").expect("connect");
    assert_eq!(available, vec![Resource::Fbdev]);
    assert!(client.held().is_empty());
    assert_eq!(daemon.closed, vec![5, 6]);
    assert!(matches!(
        daemon.notes[..],
        [Note::UnexpectedDescriptors { count: 2 }]
    ));

    let mut daemon = Daemon::new();
    daemon.send(
        &wire::ServerMessage::Grant {
            resource: wire::Resource::Fbdev,
        },
        &[5],
    );
    let err = daemon.connect_at(b"sgc").expect_err("no list");
    assert!(matches!(err, SgcError::UnexpectedMessage(_)));
    assert_eq!(daemon.closed, vec![5]);
}

/// A session that has read the header of a frame, with a descriptor on it.
fn in_the_middle_of_a_frame() -> (Daemon, SgcClient) {
    let (daemon, mut client) = holding(&[(wire::Resource::Fbdev, 7)]);
    let step = client.pump(None);
    assert!(matches!(step.action, Action::Poll { timeout_ms: -1 }));
    let step = client.resume(Reply::Polled { ready: 1 });
    assert!(matches!(step.action, Action::Receive { len: 4 }));
    let step = client.resume(Reply::Received {
        bytes: vec![0, 0, 0, 9],
        fds: vec![5],
    });
    assert!(matches!(step.action, Action::Receive { len: 9 }));
    (daemon, client)
}

#[test]
fn closing_in_the_middle_of_a_frame_closes_what_came_with_it() {
    let (_, mut client) = in_the_middle_of_a_frame();
    let effects = client.close();
    assert_eq!(effects.len(), 2);
    assert!(matches!(effects[0], Effect::Close { fd: 7 }));
    assert!(matches!(effects[1], Effect::Close { fd: 5 }));
}

#[test]
fn a_new_operation_gives_a_half_read_frame_up() {
    let (_, mut client) = in_the_middle_of_a_frame();
    let step = client.acquire(Resource::Drm { card: 0 });
    assert_eq!(step.effects.len(), 1);
    assert!(matches!(step.effects[0], Effect::Close { fd: 5 }));
    assert!(matches!(step.action, Action::Write { .. }));
    assert_eq!(client.held(), vec![Resource::Fbdev]);

    let (_, mut client) = in_the_middle_of_a_frame();
    let step = client.pump(Some(0));
    assert!(matches!(step.effects[..], [Effect::Close { fd: 5 }]));
    assert!(matches!(step.action, Action::Poll { timeout_ms: 0 }));

    let (_, mut client) = in_the_middle_of_a_frame();
    let step = client.start_event_loop();
    assert!(matches!(step.effects[..], [Effect::Close { fd: 5 }]));
    assert!(matches!(step.action, Action::Poll { timeout_ms: -1 }));
}

#[test]
fn a_malformed_frame_ends_the_session_for_pump_and_event_loop() {
    let (mut daemon, mut client) = holding(&[(wire::Resource::Fbdev, 7)]);
    daemon.send_bytes(vec![0, 0, 0, 1, 0xc1], &[]);
    assert!(matches!(
        daemon.pump(&mut client, None).expect("lost"),
        Some(SgcEvent::Revoked {
            resource: Resource::Fbdev
        })
    ));
    let err = daemon.pump(&mut client, None).expect_err("malformed");
    assert!(matches!(err, SgcError::Protocol(ProtocolError::Decode(_))));

    let (mut daemon, mut client) = holding(&[(wire::Resource::Fbdev, 7)]);
    daemon.send_bytes(vec![0xff, 0, 0, 0], &[]);
    let step = client.start_event_loop();
    let outcome = daemon.drive(&mut client, step);
    assert!(matches!(
        outcome,
        Outcome::Failed {
            error: SgcError::Protocol(ProtocolError::FrameTooLarge(0xff00_0000))
        }
    ));
    assert_eq!(daemon.dispatched.len(), 1);
    assert!(client.held().is_empty());
}

#[test]
fn the_last_grant_or_revoke_decides_what_is_held() {
    let (mut daemon, mut client) = holding(&[]);
    let grant = wire::ServerMessage::Grant {
        resource: wire::Resource::Fbdev,
    };
    let revoke = wire::ServerMessage::Revoke {
        resource: wire::Resource::Fbdev,
    };
    for (message, fds, holder) in [
        (&grant, vec![10], Some(10)),
        (&revoke, vec![], None),
        (&grant, vec![11], Some(11)),
        (&grant, vec![], Some(11)),
        (&grant, vec![12], Some(12)),
        (&grant, vec![13, 14], Some(12)),
        (&revoke, vec![15], None),
        (&revoke, vec![], None),
    ] {
        daemon.send(message, &fds);
        daemon.pump(&mut client, None).expect("pump");
        assert_eq!(client.fd(&Resource::Fbdev).ok().map(|loan| loan.fd), holder);
    }
}

#[test]
fn an_acquire_has_no_use_for_the_duplicate() {
    let (mut daemon, mut client) = holding(&[]);
    let grant = wire::ServerMessage::Grant {
        resource: wire::Resource::Fbdev,
    };
    daemon.after_request.push(segment(&grant, &[7]));
    daemon
        .acquire(&mut client, Resource::Fbdev)
        .expect("granted");
    assert_eq!(daemon.duplicated, vec![7]);
    assert_eq!(daemon.closed, vec![daemon.next_fd]);
    assert_eq!(client.fd(&Resource::Fbdev).expect("held").fd, 7);

    // Nor does it mind when there is none.
    let (mut daemon, mut client) = holding(&[]);
    daemon.duplication_fails = true;
    daemon.after_request.push(segment(&grant, &[7]));
    daemon
        .acquire(&mut client, Resource::Fbdev)
        .expect("granted");
    assert!(daemon.closed.is_empty());
    assert_eq!(client.held(), vec![Resource::Fbdev]);
    assert!(matches!(
        daemon.notes[..],
        [Note::LendFailed { ref error }] if error.code == Some(24)
    ));
}

#[test]
fn descriptors_of_an_unreadable_frame_are_closed() {
    for bytes in [
        vec![0, 0],                   // cut off in the header
        vec![0, 0, 0, 9, 0x81],       // cut off in the payload
        vec![0xff, 0, 0, 0],          // too large
        vec![0, 0, 0, 1, 0xc1],       // no message
    ] {
        // A pump closes them before what it loses with the connection.
        let (mut daemon, mut client) = holding(&[(wire::Resource::Fbdev, 7)]);
        daemon.send_bytes(bytes.clone(), &[5, 6]);
        daemon.hung_up = true;
        assert!(matches!(
            daemon.pump(&mut client, None).expect("lost"),
            Some(SgcEvent::Revoked { .. })
        ));
        assert_eq!(daemon.closed, vec![5, 6, 7]);

        // An acquire closes them and nothing else.
        let (mut daemon, mut client) = holding(&[(wire::Resource::Fbdev, 7)]);
        daemon.send_bytes(bytes.clone(), &[5, 6]);
        daemon.hung_up = true;
        assert!(daemon
            .acquire(&mut client, Resource::Drm { card: 0 })
            .is_err());
        assert_eq!(daemon.closed, vec![5, 6]);
        assert_eq!(client.held(), vec![Resource::Fbdev]);

        // And so does a session that cannot be opened.
        let mut daemon = Daemon::new();
        daemon.send_bytes(bytes, &[5, 6]);
        daemon.hung_up = true;
        assert!(daemon.connect_at(b"sgc").is_err());
        assert_eq!(daemon.closed, vec![5, 6]);
    }
}

#[test]
fn a_failed_read_closes_what_came_before_it() {
    let (_, mut client) = in_the_middle_of_a_frame();
    let step = client.resume(Reply::ReceiveFailed {
        error: io_error(IoErrorKind::Other, 104, "Connection reset by peer"),
    });
    assert!(matches!(
        step.effects[..],
        [Effect::Close { fd: 5 }, Effect::Close { fd: 7 }]
    ));
    assert!(matches!(
        step.action,
        Action::Finish {
            outcome: Outcome::Event {
                event: SgcEvent::Revoked {
                    resource: Resource::Fbdev
                }
            }
        }
    ));
}

#[test]
fn a_frame_handed_in_takes_the_place_of_a_half_read_one() {
    let (_, mut client) = in_the_middle_of_a_frame();
    let step = client.on_message(
        Operation::Pump { bounded: false },
        ServerMessage::Advertise {
            available_resources: vec![],
        },
        vec![6],
    );
    assert!(matches!(
        step.effects[..],
        [Effect::Close { fd: 5 }, Effect::Close { fd: 6 }]
    ));
    assert!(matches!(
        step.action,
        Action::Finish {
            outcome: Outcome::Event {
                event: SgcEvent::Advertised { .. }
            }
        }
    ));
}

#[test]
fn a_signal_makes_the_event_loop_wait_again() {
    let (mut daemon, mut client) = holding(&[(wire::Resource::Fbdev, 7)]);
    daemon.poll_failures.push_back(IoErrorKind::Interrupted);
    daemon.hung_up = true;
    let step = client.start_event_loop();
    let outcome = daemon.drive(&mut client, step);
    assert!(matches!(outcome, Outcome::Failed { .. }));
    assert_eq!(daemon.polls, vec![-1, -1]);
}

#[test]
fn one_resource_fewer_per_revoke_at_the_end() {
    let (mut daemon, mut client) = holding(&[
        (wire::Resource::Fbdev, 7),
        (wire::Resource::Drm { card: 0 }, 8),
    ]);
    daemon.after_request.push(segment(
        &wire::ServerMessage::Advertise {
            available_resources: vec![],
        },
        &[],
    ));
    assert!(daemon
        .acquire(&mut client, Resource::Drm { card: 1 })
        .is_err());
    daemon.hung_up = true;
    daemon.pump(&mut client, None).expect("kept event");
    assert_eq!(
        client.held(),
        vec![Resource::Fbdev, Resource::Drm { card: 0 }]
    );
    daemon.pump(&mut client, None).expect("first revoke");
    assert_eq!(client.held(), vec![Resource::Drm { card: 0 }]);
    daemon.pump(&mut client, None).expect("second revoke");
    assert!(client.held().is_empty());
    assert!(daemon.pump(&mut client, None).is_err());
}
