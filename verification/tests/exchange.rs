//! Whole exchanges driven against a recording mock connection.

use load_data::Action;
use load_data::Event;
use load_data::LoadDataMachine;
use load_data::ResultSummary;
use load_data::RoutineError;

/// One operation the routine performed on the mock connection, in order.
#[derive(Debug, PartialEq, Eq)]
enum WireOp {
    /// A framed command packet: code and payload.
    Command(u8, Vec<u8>),
    /// A raw (unframed) write.
    Raw(Vec<u8>),
    /// One framed packet was read.
    PacketRead,
}

struct Exchange {
    wire: Vec<WireOp>,
    registered: Vec<ResultSummary>,
    outcome: Result<(), RoutineError<String>>,
}

/// Drive the machine to completion against a scripted connection.
///
/// `reads` scripts the successive packet reads (payload or transport error);
/// `write_results` scripts the successive writes, command first, defaulting
/// to success when exhausted; `register_failure` makes the registration of
/// the pending result fail.
fn drive(
    payload: &[u8],
    chunks: Vec<Vec<u8>>,
    reads: Vec<Result<Vec<u8>, String>>,
    write_results: Vec<Result<(), String>>,
    mut register_failure: Option<String>,
) -> Exchange {
    let mut wire: Vec<WireOp> = Vec::new();
    let mut registered: Vec<ResultSummary> = Vec::new();
    let mut chunks = chunks.into_iter();
    let mut reads = reads.into_iter();
    let mut writes = write_results.into_iter();

    let (mut machine, mut action) = LoadDataMachine::start::<String>(payload.to_vec());
    loop {
        let event: Event<String> = match action {
            Action::WriteCommand { code, payload } => match writes.next().unwrap_or(Ok(())) {
                Ok(()) => {
                    wire.push(WireOp::Command(code, payload));
                    Event::Completed
                }
                Err(e) => Event::Failed(e),
            },
            Action::ReadPacket => {
                wire.push(WireOp::PacketRead);
                match reads.next().expect("the packet script ran out") {
                    Ok(p) => Event::Packet(p),
                    Err(e) => Event::Failed(e),
                }
            }
            Action::RecvChunk => match chunks.next() {
                Some(c) => Event::Chunk(c),
                None => Event::Closed,
            },
            Action::WriteRaw { bytes } => match writes.next().unwrap_or(Ok(())) {
                Ok(()) => {
                    wire.push(WireOp::Raw(bytes));
                    Event::Completed
                }
                Err(e) => Event::Failed(e),
            },
            Action::Register { result } => match register_failure.take() {
                None => {
                    registered.push(result);
                    Event::Completed
                }
                Some(e) => Event::Failed(e),
            },
            Action::Succeed => {
                assert!(machine.is_finished());
                return Exchange { wire, registered, outcome: Ok(()) };
            }
            Action::Fail { error } => {
                assert!(machine.is_finished());
                return Exchange { wire, registered, outcome: Err(error) };
            }
        };
        assert!(machine.admits_event(&event));
        action = machine.step(event);
    }
}

fn file_request_packet() -> Result<Vec<u8>, String> {
    Ok(vec![0xFB])
}

fn ack_packet() -> Result<Vec<u8>, String> {
    Ok(vec![0x00, 0x00, 0x00])
}

fn empty_set() -> ResultSummary {
    ResultSummary { column_count: 0, row_count: 0 }
}

#[test]
fn bulk_load_two_chunks_scenario() {
    let payload = b"LOAD DATA LOCAL INFILE 'data.csv' INTO TABLE t";
    let r = drive(
        payload,
        vec![b"abc".to_vec(), b"def".to_vec()],
        vec![file_request_packet(), ack_packet()],
        vec![],
        None,
    );
    assert_eq!(
        r.wire,
        vec![
            WireOp::Command(3, payload.to_vec()),
            WireOp::PacketRead,
            WireOp::Raw(b"abc".to_vec()),
            WireOp::Raw(b"def".to_vec()),
            WireOp::Raw(Vec::new()),
            WireOp::PacketRead,
        ]
    );
    assert!(r.outcome.is_ok());
    assert_eq!(r.registered, vec![empty_set()]);
}

#[test]
fn wire_bytes_equal_chunks_in_order_then_terminator() {
    let chunks = vec![
        b"first".to_vec(),
        b"second".to_vec(),
        b"third".to_vec(),
        b"fourth".to_vec(),
    ];
    let r = drive(
        b"cmd",
        chunks.clone(),
        vec![file_request_packet(), ack_packet()],
        vec![],
        None,
    );
    let raw: Vec<Vec<u8>> = r
        .wire
        .iter()
        .filter_map(|op| match op {
            WireOp::Raw(b) => Some(b.clone()),
            _ => None,
        })
        .collect();
    let mut expected = chunks;
    expected.push(Vec::new());
    assert_eq!(raw, expected);
    assert!(r.outcome.is_ok());
}

#[test]
fn empty_source_still_terminates_and_acknowledges() {
    let r = drive(
        b"cmd",
        vec![],
        vec![file_request_packet(), ack_packet()],
        vec![],
        None,
    );
    assert_eq!(
        r.wire,
        vec![
            WireOp::Command(3, b"cmd".to_vec()),
            WireOp::PacketRead,
            WireOp::Raw(Vec::new()),
            WireOp::PacketRead,
        ]
    );
    assert!(r.outcome.is_ok());
    assert_eq!(r.registered, vec![empty_set()]);
}

#[test]
fn empty_chunk_is_forwarded_verbatim() {
    let r = drive(
        b"cmd",
        vec![b"a".to_vec(), Vec::new(), b"b".to_vec()],
        vec![file_request_packet(), ack_packet()],
        vec![],
        None,
    );
    assert_eq!(
        r.wire,
        vec![
            WireOp::Command(3, b"cmd".to_vec()),
            WireOp::PacketRead,
            WireOp::Raw(b"a".to_vec()),
            WireOp::Raw(Vec::new()),
            WireOp::Raw(b"b".to_vec()),
            WireOp::Raw(Vec::new()),
            WireOp::PacketRead,
        ]
    );
    assert!(r.outcome.is_ok());
}

#[test]
fn success_registers_zero_columns_zero_rows() {
    let r = drive(
        b"cmd",
        vec![b"x".to_vec()],
        vec![file_request_packet(), ack_packet()],
        vec![],
        None,
    );
    assert!(r.outcome.is_ok());
    assert_eq!(r.registered.len(), 1);
    assert_eq!(r.registered[0].column_count, 0);
    assert_eq!(r.registered[0].row_count, 0);
}

#[test]
fn non_sentinel_response_fails_before_any_raw_write() {
    let r = drive(
        b"cmd",
        vec![b"never sent".to_vec()],
        vec![Ok(vec![0x00, 0x01])],
        vec![],
        None,
    );
    assert_eq!(r.outcome, Err(RoutineError::UnsupportedResponse));
    assert_eq!(
        r.wire,
        vec![WireOp::Command(3, b"cmd".to_vec()), WireOp::PacketRead]
    );
    assert!(r.registered.is_empty());
}

#[test]
fn error_packet_response_is_unsupported() {
    // A server error packet begins with 0xFF: not the file-request sentinel.
    let r = drive(b"cmd", vec![], vec![Ok(vec![0xFF, 0x12, 0x34])], vec![], None);
    assert_eq!(r.outcome, Err(RoutineError::UnsupportedResponse));
    assert!(!r.wire.contains(&WireOp::Raw(Vec::new())));
}

#[test]
fn empty_decision_packet_is_unsupported() {
    let r = drive(b"cmd", vec![], vec![Ok(Vec::new())], vec![], None);
    assert_eq!(r.outcome, Err(RoutineError::UnsupportedResponse));
    assert!(r.registered.is_empty());
}

#[test]
fn sentinel_with_trailing_bytes_still_streams() {
    let r = drive(
        b"cmd",
        vec![b"z".to_vec()],
        vec![Ok(vec![0xFB, 0x61, 0x62]), ack_packet()],
        vec![],
        None,
    );
    assert!(r.outcome.is_ok());
    assert!(r.wire.contains(&WireOp::Raw(b"z".to_vec())));
}

#[test]
fn command_write_failure_surfaces_unchanged() {
    let r = drive(
        b"cmd",
        vec![],
        vec![],
        vec![Err("broken pipe".to_string())],
        None,
    );
    assert_eq!(
        r.outcome,
        Err(RoutineError::Connection("broken pipe".to_string()))
    );
    assert!(r.wire.is_empty());
    assert!(r.registered.is_empty());
}

#[test]
fn decision_read_failure_surfaces_unchanged() {
    let r = drive(
        b"cmd",
        vec![],
        vec![Err("reset by peer".to_string())],
        vec![],
        None,
    );
    assert_eq!(
        r.outcome,
        Err(RoutineError::Connection("reset by peer".to_string()))
    );
    assert!(r.registered.is_empty());
}

#[test]
fn chunk_write_failure_aborts_the_stream() {
    let r = drive(
        b"cmd",
        vec![b"abc".to_vec(), b"def".to_vec()],
        vec![file_request_packet()],
        // Command write succeeds, first raw write succeeds, second fails.
        vec![Ok(()), Ok(()), Err("boom".to_string())],
        None,
    );
    assert_eq!(r.outcome, Err(RoutineError::Connection("boom".to_string())));
    assert_eq!(
        r.wire,
        vec![
            WireOp::Command(3, b"cmd".to_vec()),
            WireOp::PacketRead,
            WireOp::Raw(b"abc".to_vec()),
        ]
    );
    assert!(r.registered.is_empty());
}

#[test]
fn ack_read_failure_surfaces_and_registers_nothing() {
    let r = drive(
        b"cmd",
        vec![b"abc".to_vec()],
        vec![file_request_packet(), Err("ack lost".to_string())],
        vec![],
        None,
    );
    assert_eq!(
        r.outcome,
        Err(RoutineError::Connection("ack lost".to_string()))
    );
    // The terminator was written and the acknowledgement read was attempted.
    assert_eq!(
        r.wire,
        vec![
            WireOp::Command(3, b"cmd".to_vec()),
            WireOp::PacketRead,
            WireOp::Raw(b"abc".to_vec()),
            WireOp::Raw(Vec::new()),
            WireOp::PacketRead,
        ]
    );
    assert!(r.registered.is_empty());
}

#[test]
fn registration_failure_surfaces_unchanged() {
    let r = drive(
        b"cmd",
        vec![],
        vec![file_request_packet(), ack_packet()],
        vec![],
        Some("pending result already set".to_string()),
    );
    assert_eq!(
        r.outcome,
        Err(RoutineError::Connection(
            "pending result already set".to_string()
        ))
    );
    assert!(r.registered.is_empty());
}
