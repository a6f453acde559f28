//! Unit tests of the machine's pieces: the first action, the admissible
//! events of each state, and the packet inspection helper.

use load_data::Action;
use load_data::Event;
use load_data::LoadDataMachine;
use load_data::ResultSummary;
use load_data::routine::is_file_request;

#[test]
fn start_emits_the_bulk_load_command() {
    let payload = b"LOAD DATA LOCAL INFILE 'f' INTO TABLE t".to_vec();
    let (machine, action) = LoadDataMachine::start::<String>(payload.clone());
    assert!(!machine.is_finished());
    match action {
        Action::WriteCommand { code, payload: sent } => {
            assert_eq!(code, 3);
            assert_eq!(sent, payload);
        }
        other => panic!("expected the command write, got {:?}", other),
    }
}

#[test]
fn file_request_needs_the_sentinel_first() {
    assert!(is_file_request(&vec![0xFB]));
    assert!(is_file_request(&vec![0xFB, 0x01, 0x02]));
    assert!(!is_file_request(&vec![0x00, 0xFB]));
    assert!(!is_file_request(&vec![0xFF]));
    assert!(!is_file_request(&Vec::new()));
}

#[test]
fn empty_summary_has_no_columns_and_no_rows() {
    let s = ResultSummary::empty();
    assert_eq!(s.column_count, 0);
    assert_eq!(s.row_count, 0);
}

#[test]
fn command_state_admits_only_write_outcomes() {
    let (machine, _) = LoadDataMachine::start::<String>(Vec::new());
    assert!(machine.admits_event(&Event::<String>::Completed));
    assert!(machine.admits_event(&Event::<String>::Failed("io".to_string())));
    assert!(!machine.admits_event(&Event::<String>::Packet(vec![0xFB])));
    assert!(!machine.admits_event(&Event::<String>::Chunk(vec![1])));
    assert!(!machine.admits_event(&Event::<String>::Closed));
}

#[test]
fn decision_state_admits_only_read_outcomes() {
    let (mut machine, _) = LoadDataMachine::start::<String>(Vec::new());
    let action = machine.step(Event::<String>::Completed);
    assert!(matches!(action, Action::ReadPacket));
    assert!(machine.admits_event(&Event::<String>::Packet(vec![0xFB])));
    assert!(machine.admits_event(&Event::<String>::Failed("io".to_string())));
    assert!(!machine.admits_event(&Event::<String>::Completed));
    assert!(!machine.admits_event(&Event::<String>::Chunk(vec![1])));
}

#[test]
fn streaming_state_admits_only_source_outcomes() {
    let (mut machine, _) = LoadDataMachine::start::<String>(Vec::new());
    machine.step(Event::<String>::Completed);
    let action = machine.step(Event::<String>::Packet(vec![0xFB]));
    assert!(matches!(action, Action::RecvChunk));
    assert!(machine.admits_event(&Event::<String>::Chunk(vec![1, 2])));
    assert!(machine.admits_event(&Event::<String>::Closed));
    assert!(!machine.admits_event(&Event::<String>::Completed));
    assert!(!machine.admits_event(&Event::<String>::Failed("io".to_string())));
}

#[test]
fn finished_machine_admits_nothing() {
    let (mut machine, _) = LoadDataMachine::start::<String>(Vec::new());
    machine.step(Event::<String>::Completed);
    let action = machine.step(Event::<String>::Packet(vec![0x00]));
    assert!(matches!(action, Action::Fail { .. }));
    assert!(machine.is_finished());
    assert!(!machine.admits_event(&Event::<String>::Completed));
    assert!(!machine.admits_event(&Event::<String>::Packet(Vec::new())));
    assert!(!machine.admits_event(&Event::<String>::Closed));
    assert!(!machine.admits_event(&Event::<String>::Failed("io".to_string())));
}

#[test]
fn each_chunk_is_written_then_the_next_requested() {
    let (mut machine, _) = LoadDataMachine::start::<String>(Vec::new());
    machine.step(Event::<String>::Completed);
    machine.step(Event::<String>::Packet(vec![0xFB]));
    let action = machine.step(Event::<String>::Chunk(b"payload".to_vec()));
    match action {
        Action::WriteRaw { bytes } => assert_eq!(bytes, b"payload".to_vec()),
        other => panic!("expected the raw write, got {:?}", other),
    }
    let action = machine.step(Event::<String>::Completed);
    assert!(matches!(action, Action::RecvChunk));
}

#[test]
fn closing_the_source_writes_the_empty_terminator() {
    let (mut machine, _) = LoadDataMachine::start::<String>(Vec::new());
    machine.step(Event::<String>::Completed);
    machine.step(Event::<String>::Packet(vec![0xFB]));
    let action = machine.step(Event::<String>::Closed);
    match action {
        Action::WriteRaw { bytes } => assert!(bytes.is_empty()),
        other => panic!("expected the terminating write, got {:?}", other),
    }
}
