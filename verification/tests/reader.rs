use vaults_bridge::transport::reader::{ReadOutcome, Reader, ReaderAction, READ_BYTES};
use vaults_bridge::transport::line::MAX_LINE_BYTES;

fn show(actions: Vec<ReaderAction>) -> Vec<String> {
    actions
        .into_iter()
        .map(|a| match a {
            ReaderAction::Show(status) => status.text(),
            ReaderAction::Deliver(payload) => {
                format!("-> {}", String::from_utf8(payload).unwrap())
            }
            ReaderAction::WaitForConnection => "wait".to_string(),
            ReaderAction::Exit => "exit".to_string(),
        })
        .collect()
}

fn data(bytes: &[u8]) -> ReadOutcome {
    ReadOutcome::Data(bytes.to_vec())
}

#[test]
fn totals_are_shown_before_the_lines() {
    let mut reader = Reader::new(8, 9);
    assert_eq!(show(reader.on_read(data(b"ab\ncd"))), vec![
        "rx 5B / 5 total / 0 lines",
        "got line 1 (2B)",
        "-> ab",
    ]);
    assert_eq!(show(reader.on_read(data(b"e\n\nf\n"))), vec![
        "rx 5B / 10 total / 1 lines",
        "got line 2 (3B)",
        "-> cde",
        "got line 3 (1B)",
        "-> f",
    ]);
    assert_eq!(reader.total_bytes(), 10);
    assert_eq!(reader.total_lines(), 3);
}

#[test]
fn an_empty_read_does_nothing() {
    let mut reader = Reader::new(1, 2);
    assert!(reader.on_read(data(b"")).is_empty());
    assert_eq!(reader.total_bytes(), 0);
}

#[test]
fn a_disconnect_forgets_the_line_and_waits() {
    let mut reader = Reader::new(8, 9);
    reader.on_read(data(b"half"));
    assert_eq!(show(reader.on_read(ReadOutcome::HostDisconnected)), vec![
        "WebUSB: waiting for host",
        "wait",
        "WebUSB ready (EP out=8, in=9)",
    ]);
    assert_eq!(show(reader.on_read(data(b"new\n"))), vec![
        "rx 4B / 8 total / 0 lines",
        "got line 1 (3B)",
        "-> new",
    ]);
}

#[test]
fn a_failed_read_keeps_the_line() {
    let mut reader = Reader::new(8, 9);
    reader.on_read(data(b"ha"));
    assert_eq!(
        show(reader.on_read(ReadOutcome::Failed("Timeout".to_string()))),
        vec!["read err: Timeout"]
    );
    assert_eq!(show(reader.on_read(data(b"lf\n")))[2], "-> half");
}

#[test]
fn an_oversize_line_is_announced() {
    let mut reader = Reader::new(8, 9);
    let mut shown = Vec::new();
    for part in vec![b'x'; MAX_LINE_BYTES + 1].chunks(READ_BYTES) {
        shown = show(reader.on_read(data(part)));
    }
    assert_eq!(shown, vec![
        "rx 1B / 16385 total / 0 lines",
        "rx: oversize line dropped",
    ]);
}

#[test]
fn starting_and_giving_up() {
    let reader = Reader::new(8, 9);
    assert_eq!(show(reader.started(None)), vec!["WebUSB reader started (out=8 in=9)"]);
    assert_eq!(show(reader.started(Some("OutOfMemory".to_string()))), vec![
        "reader: map err OutOfMemory",
        "exit",
    ]);
    assert_eq!(show(reader.delivery_failed()), vec!["dispatcher gone", "exit"]);
}

#[test]
fn requests_arrive_however_they_are_cut() {
    let stream = b"{\"id\":\"1\"}\n{\"id\":\"2\"}\n";
    for size in 1..=stream.len() {
        let mut reader = Reader::new(1, 2);
        let mut payloads = Vec::new();
        for part in stream.chunks(size) {
            for action in reader.on_read(data(part)) {
                if let ReaderAction::Deliver(payload) = action {
                    payloads.push(payload);
                }
            }
        }
        assert_eq!(payloads, vec![b"{\"id\":\"1\"}".to_vec(), b"{\"id\":\"2\"}".to_vec()]);
    }
}
