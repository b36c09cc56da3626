use dd_sidecar::crashtracker::{DatagramStream, ReadStep, RecvErrorKind, RecvOutcome};

#[test]
fn datagrams_larger_than_a_read_are_drained_by_later_reads() {
    let mut s = DatagramStream::new();
    assert_eq!(s.read(4), ReadStep::Receive);
    assert_eq!(s.receive(b"hello world".to_vec(), 4), b"hell".to_vec());
    assert_eq!(s.read(4), ReadStep::Data(b"o wo".to_vec()));
    assert_eq!(s.read(100), ReadStep::Data(b"rld".to_vec()));
    assert_eq!(s.read(100), ReadStep::Receive);
    assert_eq!(s.receive(b"!".to_vec(), 100), b"!".to_vec());
    assert_eq!(s.read(100), ReadStep::Receive);
    assert!(s.receive(Vec::new(), 100).is_empty());
    assert_eq!(s.read(100), ReadStep::Eof);
}

#[test]
fn a_closed_peer_ends_the_stream() {
    let mut s = DatagramStream::new();
    assert_eq!(s.receive_failed(RecvErrorKind::WouldBlock), RecvOutcome::Retry);
    assert_eq!(s.read(1), ReadStep::Receive);
    assert_eq!(s.receive_failed(RecvErrorKind::Other), RecvOutcome::Fail);
    assert_eq!(s.receive_failed(RecvErrorKind::ConnectionReset), RecvOutcome::Eof);
    assert_eq!(s.read(1), ReadStep::Eof);
}
