use vaults_bridge::transport::line::{LineBuffer, LineEvent, MAX_LINE_BYTES};
use vaults_bridge::transport::writer::{chunks, frame, CHUNK_BYTES};

fn show(events: Vec<LineEvent>) -> Vec<Option<Vec<u8>>> {
    events
        .into_iter()
        .map(|e| match e {
            LineEvent::Line(payload) => Some(payload),
            LineEvent::Dropped => None,
        })
        .collect()
}

#[test]
fn a_line_is_delivered_at_its_line_feed() {
    let mut buffer = LineBuffer::new();
    assert_eq!(show(buffer.feed(b"{\"id\":")), Vec::<Option<Vec<u8>>>::new());
    assert_eq!(show(buffer.feed(b"\"1\"}\nrest")), vec![Some(b"{\"id\":\"1\"}".to_vec())]);
    assert_eq!(show(buffer.feed(b"\n")), vec![Some(b"rest".to_vec())]);
}

#[test]
fn blank_lines_and_carriage_returns_carry_nothing() {
    let mut buffer = LineBuffer::new();
    assert_eq!(
        show(buffer.feed(b"\n\r\n\r\r\na\rb\r\n\n")),
        vec![Some(b"ab".to_vec())]
    );
}

#[test]
fn cuts_make_no_difference() {
    let stream = b"one\r\ntwo\n\nthree\nfour";
    let mut whole = LineBuffer::new();
    let expected = show(whole.feed(stream));
    for size in 1..stream.len() {
        let mut buffer = LineBuffer::new();
        let mut got = Vec::new();
        for part in stream.chunks(size) {
            got.extend(show(buffer.feed(part)));
        }
        assert_eq!(got, expected);
        assert_eq!(show(buffer.feed(b"\n")), vec![Some(b"four".to_vec())]);
    }
    assert_eq!(expected.len(), 3);
}

#[test]
fn a_line_at_the_cap_is_delivered() {
    let mut buffer = LineBuffer::new();
    let line = vec![b'x'; MAX_LINE_BYTES];
    assert_eq!(MAX_LINE_BYTES, 16384);
    assert!(show(buffer.feed(&line)).is_empty());
    assert_eq!(show(buffer.feed(b"\n")), vec![Some(line)]);
}

#[test]
fn a_line_over_the_cap_is_dropped_with_the_byte_that_did_not_fit() {
    let mut buffer = LineBuffer::new();
    let line = vec![b'x'; MAX_LINE_BYTES + 1];
    assert_eq!(show(buffer.feed(&line)), vec![None]);
    assert_eq!(show(buffer.feed(b"yz\n")), vec![Some(b"yz".to_vec())]);

    let mut other = LineBuffer::new();
    let line = vec![b'x'; 2 * (MAX_LINE_BYTES + 1)];
    assert_eq!(show(other.feed(&line)), vec![None, None]);
    assert!(show(other.feed(b"\n")).is_empty());
}

#[test]
fn the_line_after_an_oversize_line_is_read_as_if_alone() {
    let mut buffer = LineBuffer::new();
    let mut stream = vec![b'x'; MAX_LINE_BYTES + 3];
    stream.extend_from_slice(b"\nnext\n");
    assert_eq!(
        show(buffer.feed(&stream)),
        vec![None, Some(b"xx".to_vec()), Some(b"next".to_vec())]
    );
}

#[test]
fn clearing_forgets_the_line_in_progress() {
    let mut buffer = LineBuffer::new();
    assert!(buffer.feed(b"half").is_empty());
    buffer.clear();
    assert_eq!(show(buffer.feed(b"whole\n")), vec![Some(b"whole".to_vec())]);
}

#[test]
fn framing_appends_one_line_feed() {
    assert_eq!(frame(b"{}".to_vec()), b"{}\n".to_vec());
    assert_eq!(frame(Vec::new()), b"\n".to_vec());
}

#[test]
fn transfers_are_full_but_for_the_last() {
    for len in [0usize, 1, 63, 64, 65, 127, 128, 129, 1000] {
        let bytes: Vec<u8> = (0..len).map(|i| (i % 251) as u8).collect();
        let expected: Vec<Vec<u8>> = bytes.chunks(CHUNK_BYTES).map(|c| c.to_vec()).collect();
        assert_eq!(chunks(&bytes), expected);
    }
}

#[test]
fn what_was_framed_and_cut_is_read_back() {
    let first = vec![b'a'; 200];
    let second = b"{\"ok\":true}".to_vec();
    let mut buffer = LineBuffer::new();
    let mut got = Vec::new();
    for payload in [&first, &second] {
        for chunk in chunks(&frame(payload.clone())) {
            got.extend(show(buffer.feed(&chunk)));
        }
    }
    assert_eq!(got, vec![Some(first), Some(second)]);
}
