use nget::enums::HttpVersion;
use nget::transfer::{
    classify_status, Failure, Transfer, TransferAction, TransferEvent, TransferPhase,
};

fn requesting(existing_bytes: u64, version: HttpVersion) -> Transfer {
    let (mut transfer, _) = Transfer::begin(version);
    transfer.step(TransferEvent::HostResolved);
    transfer.step(TransferEvent::Probed { existing_bytes });
    transfer
}

fn streaming(existing_bytes: u64, declared: Option<u64>) -> Transfer {
    let mut transfer = requesting(existing_bytes, HttpVersion::Http11);
    transfer.step(TransferEvent::Responded { status: 200, content_length: declared });
    transfer.step(TransferEvent::Opened);
    transfer
}

#[test]
fn an_attempt_begins_with_the_lookup() {
    let (transfer, action) = Transfer::begin(HttpVersion::Http11);
    assert!(matches!(action, TransferAction::Resolve));
    assert_eq!(transfer.phase, TransferPhase::Resolving);
    assert!(!transfer.http2);
    assert_eq!(transfer.state.existing_bytes, 0);
    assert_eq!(transfer.state.written_bytes, 0);
    assert_eq!(transfer.state.total_bytes, None);
    assert!(transfer.failure.is_none());
    assert!(!transfer.is_terminal());
    assert!(Transfer::begin(HttpVersion::Http2).0.http2);
    assert!(!Transfer::begin(HttpVersion::Http3).0.http2);
}

#[test]
fn a_fresh_file_is_requested_whole() {
    let (mut transfer, _) = Transfer::begin(HttpVersion::Http11);
    assert!(matches!(transfer.step(TransferEvent::HostResolved), TransferAction::Probe));
    assert_eq!(transfer.phase, TransferPhase::Probing);
    assert!(matches!(
        transfer.step(TransferEvent::Probed { existing_bytes: 0 }),
        TransferAction::Send { range_from: None, http2: false }
    ));
    assert_eq!(transfer.phase, TransferPhase::Requesting);
}

#[test]
fn a_partial_file_is_requested_from_its_end() {
    let (mut transfer, _) = Transfer::begin(HttpVersion::Http2);
    transfer.step(TransferEvent::HostResolved);
    assert!(matches!(
        transfer.step(TransferEvent::Probed { existing_bytes: 7 }),
        TransferAction::Send { range_from: Some(7), http2: true }
    ));
    assert_eq!(transfer.state.existing_bytes, 7);
    let (mut transfer, _) = Transfer::begin(HttpVersion::Http11);
    transfer.step(TransferEvent::HostResolved);
    assert!(matches!(
        transfer.step(TransferEvent::Probed { existing_bytes: u64::MAX }),
        TransferAction::Send { range_from: Some(u64::MAX), http2: false }
    ));
}

#[test]
fn statuses_200_and_206_open_the_file() {
    for status in [200u16, 206] {
        let mut transfer = requesting(7, HttpVersion::Http11);
        assert!(matches!(
            transfer.step(TransferEvent::Responded { status, content_length: Some(7) }),
            TransferAction::Open { total: Some(14) }
        ));
        assert_eq!(transfer.phase, TransferPhase::Opening);
        assert_eq!(transfer.state.total_bytes, Some(14));
        assert!(classify_status(status).is_none());
    }
}

#[test]
fn status_404_is_not_found() {
    let mut transfer = requesting(0, HttpVersion::Http11);
    assert!(matches!(
        transfer.step(TransferEvent::Responded { status: 404, content_length: Some(9) }),
        TransferAction::Fail(Failure::NotFound)
    ));
    assert_eq!(transfer.phase, TransferPhase::Failed);
    assert!(matches!(transfer.failure, Some(Failure::NotFound)));
    assert!(transfer.is_terminal());
    assert!(matches!(classify_status(404), Some(Failure::NotFound)));
}

#[test]
fn other_statuses_fail_with_their_code() {
    for status in [0u16, 100, 199, 201, 204, 205, 207, 299, 301, 400, 403, 405, 416, 500, 502, 505, 999, u16::MAX] {
        let mut transfer = requesting(0, HttpVersion::Http2);
        match transfer.step(TransferEvent::Responded { status, content_length: None }) {
            TransferAction::Fail(Failure::Status(code)) => assert_eq!(code, status),
            other => panic!("unexpected action for {}: {:?}", status, other),
        }
        assert_eq!(transfer.phase, TransferPhase::Failed);
        assert_eq!(transfer.state.total_bytes, None);
        match classify_status(status) {
            Some(Failure::Status(code)) => assert_eq!(code, status),
            other => panic!("unexpected verdict for {}: {:?}", status, other),
        }
    }
}

#[test]
fn a_refused_http2_connection_is_told_apart() {
    let mut transfer = requesting(0, HttpVersion::Http2);
    assert!(matches!(
        transfer.step(TransferEvent::SendFailed { http2_unsupported: true }),
        TransferAction::Fail(Failure::Http2Unsupported)
    ));
    let mut transfer = requesting(0, HttpVersion::Http2);
    assert!(matches!(
        transfer.step(TransferEvent::SendFailed { http2_unsupported: false }),
        TransferAction::Fail(Failure::Send)
    ));
    for version in [HttpVersion::Http11, HttpVersion::Http3] {
        let mut transfer = requesting(0, version);
        assert!(matches!(
            transfer.step(TransferEvent::SendFailed { http2_unsupported: true }),
            TransferAction::Fail(Failure::Send)
        ));
    }
}

#[test]
fn a_failed_lookup_fails_the_attempt() {
    let (mut transfer, _) = Transfer::begin(HttpVersion::Http11);
    assert!(matches!(
        transfer.step(TransferEvent::HostUnresolved),
        TransferAction::Fail(Failure::Resolve)
    ));
    assert_eq!(transfer.phase, TransferPhase::Failed);
}

#[test]
fn a_file_that_cannot_be_opened_fails_the_attempt() {
    let mut transfer = requesting(0, HttpVersion::Http11);
    transfer.step(TransferEvent::Responded { status: 200, content_length: Some(3) });
    assert!(matches!(
        transfer.step(TransferEvent::OpenFailed),
        TransferAction::Fail(Failure::Open)
    ));
    assert_eq!(transfer.state.written_bytes, 0);
}

#[test]
fn chunks_advance_by_their_length() {
    let mut transfer = streaming(10, Some(9));
    assert_eq!(transfer.phase, TransferPhase::Streaming);
    for (len, written) in [(4u64, 4u64), (0, 4), (5, 9)] {
        match transfer.step(TransferEvent::ChunkWritten { len }) {
            TransferAction::Advance { by } => assert_eq!(by, len),
            other => panic!("unexpected action: {:?}", other),
        }
        assert_eq!(transfer.state.written_bytes, written);
        assert_eq!(transfer.state.existing_bytes, 10);
        assert_eq!(transfer.state.total_bytes, Some(19));
    }
    assert!(matches!(transfer.step(TransferEvent::EndOfStream), TransferAction::Finish));
    assert_eq!(transfer.phase, TransferPhase::Succeeded);
    assert!(transfer.is_terminal());
}

#[test]
fn a_broken_stream_keeps_what_was_written() {
    for (event, read) in [(TransferEvent::ReadFailed, true), (TransferEvent::WriteFailed, false)] {
        let mut transfer = streaming(3, Some(100));
        transfer.step(TransferEvent::ChunkWritten { len: 40 });
        match transfer.step(event) {
            TransferAction::Fail(Failure::Read) => assert!(read),
            TransferAction::Fail(Failure::Write) => assert!(!read),
            other => panic!("unexpected action: {:?}", other),
        }
        assert_eq!(transfer.phase, TransferPhase::Failed);
        assert_eq!(transfer.state.existing_bytes, 3);
        assert_eq!(transfer.state.written_bytes, 40);
    }
}

#[test]
fn events_out_of_turn_change_nothing() {
    let (mut transfer, _) = Transfer::begin(HttpVersion::Http11);
    for event in [
        TransferEvent::Probed { existing_bytes: 5 },
        TransferEvent::Responded { status: 200, content_length: Some(1) },
        TransferEvent::Opened,
        TransferEvent::ChunkWritten { len: 3 },
        TransferEvent::EndOfStream,
        TransferEvent::SendFailed { http2_unsupported: true },
    ] {
        assert!(transfer.admits(&event));
        assert!(matches!(transfer.step(event), TransferAction::Refuse));
        assert_eq!(transfer.phase, TransferPhase::Resolving);
        assert_eq!(transfer.state.existing_bytes, 0);
        assert_eq!(transfer.state.written_bytes, 0);
    }
    let mut transfer = streaming(0, None);
    transfer.step(TransferEvent::EndOfStream);
    for event in [TransferEvent::ChunkWritten { len: 3 }, TransferEvent::EndOfStream, TransferEvent::HostResolved] {
        assert!(matches!(transfer.step(event), TransferAction::Refuse));
        assert_eq!(transfer.phase, TransferPhase::Succeeded);
        assert_eq!(transfer.state.written_bytes, 0);
    }
}

#[test]
fn counts_beyond_64_bits_are_not_admitted() {
    let transfer = requesting(10, HttpVersion::Http11);
    assert!(transfer.admits(&TransferEvent::Responded { status: 200, content_length: Some(u64::MAX - 10) }));
    assert!(!transfer.admits(&TransferEvent::Responded { status: 200, content_length: Some(u64::MAX - 9) }));
    assert!(!transfer.admits(&TransferEvent::Responded { status: 206, content_length: Some(u64::MAX) }));
    assert!(transfer.admits(&TransferEvent::Responded { status: 404, content_length: Some(u64::MAX) }));
    assert!(transfer.admits(&TransferEvent::Responded { status: 200, content_length: None }));

    let mut transfer = streaming(10, None);
    transfer.step(TransferEvent::ChunkWritten { len: 5 });
    assert!(transfer.admits(&TransferEvent::ChunkWritten { len: u64::MAX - 15 }));
    assert!(!transfer.admits(&TransferEvent::ChunkWritten { len: u64::MAX - 14 }));
    assert!(transfer.admits(&TransferEvent::EndOfStream));
    transfer.step(TransferEvent::ChunkWritten { len: u64::MAX - 15 });
    assert_eq!(transfer.state.written_bytes, u64::MAX - 10);
    assert!(!transfer.admits(&TransferEvent::ChunkWritten { len: 1 }));
    assert!(transfer.admits(&TransferEvent::ChunkWritten { len: 0 }));
}
