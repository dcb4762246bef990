use browser_supervisor::output::{OutputBuffer, OutputEvent, StreamTag};

fn out(text: &str) -> OutputEvent {
    OutputEvent::Stdout(text.as_bytes().to_vec())
}

fn err(text: &str) -> OutputEvent {
    OutputEvent::Stderr(text.as_bytes().to_vec())
}

fn check_streams(events: Vec<OutputEvent>) -> OutputBuffer {
    let mut buffer = OutputBuffer::new();
    buffer.collect(&events);
    assert_eq!(buffer.stream_texts(StreamTag::Stdout), vec!["A".to_string(), "A2".to_string()]);
    assert_eq!(buffer.stream_texts(StreamTag::Stderr), vec!["B".to_string()]);
    assert_eq!(buffer.len(), 3);
    buffer
}

#[test]
fn new_buffer_is_empty() {
    let buffer = OutputBuffer::new();
    assert_eq!(buffer.len(), 0);
    assert_eq!(buffer.render(), "");
    assert!(buffer.stream_texts(StreamTag::Stdout).is_empty());
}

#[test]
fn stderr_first() {
    let buffer = check_streams(vec![err("B"), out("A"), out("A2")]);
    assert_eq!(buffer.render(), "[stderr] B\n[stdout] A\n[stdout] A2\n");
}

#[test]
fn stderr_between() {
    let buffer = check_streams(vec![out("A"), err("B"), out("A2")]);
    assert_eq!(buffer.render(), "[stdout] A\n[stderr] B\n[stdout] A2\n");
    assert_eq!(buffer.tag_at(1), StreamTag::Stderr);
    assert_eq!(buffer.text_at(1), "B");
}

#[test]
fn stderr_last() {
    let buffer = check_streams(vec![out("A"), out("A2"), err("B")]);
    assert_eq!(buffer.render(), "[stdout] A\n[stdout] A2\n[stderr] B\n");
}

#[test]
fn other_events_add_nothing() {
    let buffer = check_streams(vec![
        OutputEvent::Error("pipe".to_string()),
        out("A"),
        OutputEvent::Terminated,
        err("B"),
        out("A2"),
        OutputEvent::Terminated,
    ]);
    assert_eq!(buffer.tag_at(0), StreamTag::Stdout);
    assert_eq!(buffer.tag_at(2), StreamTag::Stdout);
}

#[test]
fn record_appends_one_entry() {
    let mut buffer = OutputBuffer::new();
    buffer.record(&out("first"));
    assert_eq!(buffer.len(), 1);
    buffer.record(&OutputEvent::Terminated);
    assert_eq!(buffer.len(), 1);
    buffer.record(&err("second"));
    assert_eq!(buffer.len(), 2);
    assert_eq!(buffer.text_at(0), "first");
    assert_eq!(buffer.text_at(1), "second");
    assert_eq!(buffer.tag_at(0), StreamTag::Stdout);
    assert_eq!(buffer.tag_at(1), StreamTag::Stderr);
}

#[test]
fn collecting_twice_keeps_what_was_there() {
    let mut buffer = OutputBuffer::new();
    buffer.collect(&vec![out("A"), err("B")]);
    let before = buffer.render();
    buffer.collect(&vec![out("A2")]);
    assert!(buffer.render().starts_with(&before));
    assert_eq!(buffer.render(), "[stdout] A\n[stderr] B\n[stdout] A2\n");
    buffer.collect(&Vec::new());
    assert_eq!(buffer.len(), 3);
}

#[test]
fn chunks_are_decoded_lossily() {
    let mut buffer = OutputBuffer::new();
    buffer.record(&OutputEvent::Stdout(vec![b'o', b'k', 0xff]));
    buffer.record(&OutputEvent::Stderr(vec![0xe2, 0x82]));
    buffer.record(&OutputEvent::Stdout("caf\u{e9}".as_bytes().to_vec()));
    assert_eq!(buffer.text_at(0), "ok\u{fffd}");
    assert_eq!(buffer.text_at(1), "\u{fffd}");
    assert_eq!(buffer.text_at(2), "caf\u{e9}");
    assert_eq!(buffer.render(), "[stdout] ok\u{fffd}\n[stderr] \u{fffd}\n[stdout] caf\u{e9}\n");
}

#[test]
fn empty_chunk_gives_an_empty_line() {
    let mut buffer = OutputBuffer::new();
    buffer.record(&OutputEvent::Stdout(Vec::new()));
    assert_eq!(buffer.len(), 1);
    assert_eq!(buffer.render(), "[stdout] \n");
}

#[test]
fn append_entry_takes_decoded_text() {
    let mut buffer = OutputBuffer::new();
    buffer.append_entry(StreamTag::Stderr, "B".to_string());
    buffer.append_entry(StreamTag::Stdout, "A".to_string());
    buffer.append_entry(StreamTag::Stdout, String::new());
    assert_eq!(buffer.len(), 3);
    assert_eq!(buffer.tag_at(0), StreamTag::Stderr);
    assert_eq!(buffer.text_at(0), "B");
    assert_eq!(buffer.tag_at(1), StreamTag::Stdout);
    assert_eq!(buffer.text_at(1), "A");
    assert_eq!(buffer.render(), "[stderr] B\n[stdout] A\n[stdout] \n");
    assert_eq!(buffer.stream_texts(StreamTag::Stdout), vec!["A".to_string(), String::new()]);
}
