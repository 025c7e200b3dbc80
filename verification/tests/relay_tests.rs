use connect_proxy::relay::{RelayDirection, RelayPhase, RelayStep};

#[test]
fn a_chunk_is_forwarded_unchanged() {
    let mut dir = RelayDirection::new();
    match dir.on_read(b"PING".to_vec()) {
        RelayStep::Forward { chunk } => assert_eq!(chunk, b"PING".to_vec()),
        _ => panic!("expected a forward"),
    }
    assert_eq!(dir.phase, RelayPhase::Writing);
    assert!(matches!(dir.on_written(), RelayStep::ReadMore));
    assert_eq!(dir.phase, RelayPhase::Reading);
}

#[test]
fn chunks_reach_the_sink_in_order() {
    let mut dir = RelayDirection::new();
    let mut sink: Vec<u8> = Vec::new();
    for chunk in [&b"PI"[..], &b"NG"[..], &b"!"[..]] {
        match dir.on_read(chunk.to_vec()) {
            RelayStep::Forward { chunk } => sink.extend_from_slice(&chunk),
            _ => panic!("expected a forward"),
        }
        assert!(matches!(dir.on_written(), RelayStep::ReadMore));
    }
    match dir.on_read(Vec::new()) {
        RelayStep::Finish => {}
        _ => panic!("expected the direction to finish"),
    }
    assert_eq!(sink, b"PING!".to_vec());
}

#[test]
fn end_of_stream_finishes_the_direction() {
    let mut dir = RelayDirection::new();
    assert!(matches!(dir.on_read(Vec::new()), RelayStep::Finish));
    assert_eq!(dir.phase, RelayPhase::SourceClosed);
}

#[test]
fn an_error_halts_the_direction() {
    let mut dir = RelayDirection::new();
    match dir.on_read(b"data".to_vec()) {
        RelayStep::Forward { .. } => {}
        _ => panic!("expected a forward"),
    }
    assert!(matches!(dir.on_error(), RelayStep::Halt));
    assert_eq!(dir.phase, RelayPhase::Failed);
}

#[test]
fn both_directions_of_a_tunnel_are_independent() {
    // One slow or failed direction does not disturb the other's ledger.
    let mut client_to_target = RelayDirection::new();
    let mut target_to_client = RelayDirection::new();

    match client_to_target.on_read(b"PING".to_vec()) {
        RelayStep::Forward { chunk } => assert_eq!(chunk, b"PING".to_vec()),
        _ => panic!("expected a forward"),
    }
    client_to_target.on_written();

    match target_to_client.on_read(b"PONG".to_vec()) {
        RelayStep::Forward { chunk } => assert_eq!(chunk, b"PONG".to_vec()),
        _ => panic!("expected a forward"),
    }
    target_to_client.on_written();

    assert!(matches!(client_to_target.on_read(Vec::new()), RelayStep::Finish));
    assert_eq!(client_to_target.phase, RelayPhase::SourceClosed);
    assert_eq!(target_to_client.phase, RelayPhase::Reading);
}
