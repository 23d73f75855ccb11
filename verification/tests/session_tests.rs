use echo_server::error::ServerError;
use echo_server::lifecycle::ConnPhase;
use echo_server::session::{EchoAction, EchoSession, ReadEvent};

fn ready_session() -> EchoSession {
    let mut s = EchoSession::accept();
    s.begin_duplicate();
    let r = s.on_duplicate_result(true);
    assert_eq!(r, Ok(()));
    assert_eq!(s.phase, ConnPhase::Echoing);
    s
}

#[test]
fn round_trip_single_payload() {
    let payload: Vec<u8> = b"exactly16bytes!!".to_vec();
    assert_eq!(payload.len(), 16);

    let mut s = ready_session();
    let action = s.on_read(ReadEvent::Data(payload.clone()));
    assert_eq!(action, EchoAction::Write(payload));

    let closing = s.on_read(ReadEvent::Eof);
    assert_eq!(closing, EchoAction::FinishClean(16));
    assert_eq!(s.phase, ConnPhase::Closed);
}

#[test]
fn empty_stream_closes_clean() {
    let mut s = ready_session();
    let action = s.on_read(ReadEvent::Eof);
    assert_eq!(action, EchoAction::FinishClean(0));
    assert_eq!(s.phase, ConnPhase::Closed);
    assert_eq!(s.bytes_echoed, 0);
}

#[test]
fn chunked_stream_preserves_order() {
    let chunks: Vec<Vec<u8>> = vec![b"ec".to_vec(), b"ho".to_vec(), b" stream".to_vec()];
    let whole: Vec<u8> = b"echo stream".to_vec();

    let mut s = ready_session();
    let mut written: Vec<u8> = Vec::new();
    for chunk in &chunks {
        match s.on_read(ReadEvent::Data(chunk.clone())) {
            EchoAction::Write(bytes) => {
                assert_eq!(&bytes, chunk);
                written.extend_from_slice(&bytes);
            }
            other => panic!("expected a write, got {:?}", other),
        }
    }
    assert_eq!(written, whole);

    let closing = s.on_read(ReadEvent::Eof);
    assert_eq!(closing, EchoAction::FinishClean(whole.len() as u64));
}

#[test]
fn empty_chunk_is_echoed_without_effect() {
    let mut s = ready_session();
    let action = s.on_read(ReadEvent::Data(Vec::new()));
    assert_eq!(action, EchoAction::Write(Vec::new()));
    assert_eq!(s.bytes_echoed, 0);
    assert_eq!(s.phase, ConnPhase::Echoing);
}

#[test]
fn read_error_fails_session() {
    let mut s = ready_session();
    let action = s.on_read(ReadEvent::Data(b"abc".to_vec()));
    assert_eq!(action, EchoAction::Write(b"abc".to_vec()));

    let failing = s.on_read(ReadEvent::Error);
    assert_eq!(failing, EchoAction::Fail(ServerError::EchoIo));
    assert_eq!(s.phase, ConnPhase::Failed);
}

#[test]
fn clone_failure_abandons_connection() {
    let mut s = EchoSession::accept();
    s.begin_duplicate();
    let r = s.on_duplicate_result(false);
    assert_eq!(r, Err(ServerError::ConnectionClone));
    assert_eq!(s.phase, ConnPhase::Failed);
    assert_eq!(s.bytes_echoed, 0);
}
