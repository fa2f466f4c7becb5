use axvirtio::console::terminal::{ConsoleSwitch, InputQueue, OutputHistory, MAX_OUTPUT_BUFFER_SIZE};

#[test]
fn history_records_output() {
    let mut h = OutputHistory::new();
    assert_eq!(h.record(b"hello", 0), ConsoleSwitch::Stay);
    assert_eq!(h.record(b" world", 0), ConsoleSwitch::Stay);
    assert_eq!(h.as_slice(), b"hello world");
}

#[test]
fn history_drops_oldest_beyond_cap() {
    let mut h = OutputHistory::new();
    let first = vec![b'a'; MAX_OUTPUT_BUFFER_SIZE - 2];
    h.record(&first, 0);
    h.record(b"wxyz", 0);
    let s = h.as_slice();
    assert_eq!(s.len(), MAX_OUTPUT_BUFFER_SIZE);
    assert_eq!(&s[s.len() - 4..], b"wxyz");
    assert_eq!(s[0], b'a');
}

#[test]
fn history_alt_f1_switches_from_second_console() {
    let mut h = OutputHistory::new();
    assert_eq!(h.record(b"ls^[1;3P", 1), ConsoleSwitch::ToFirst);
    assert_eq!(h.as_slice(), b"ls");
    assert_eq!(h.record(b"^[1;9P", 1), ConsoleSwitch::ToFirst);
    assert_eq!(h.as_slice(), b"ls");
}

#[test]
fn history_alt_f1_on_first_console_is_kept() {
    let mut h = OutputHistory::new();
    assert_eq!(h.record(b"^[1;3P", 0), ConsoleSwitch::Stay);
    assert_eq!(h.as_slice(), b"^[1;3P");
}

#[test]
fn history_alt_f2_and_f3() {
    let mut h = OutputHistory::new();
    assert_eq!(h.record(b"x^[1;3Q", 0), ConsoleSwitch::ToSecond);
    assert_eq!(h.as_slice(), b"x");
    assert_eq!(h.record(b"^[1;9Q", 1), ConsoleSwitch::Stay);
    assert_eq!(h.record(b"^[1;3R", 1), ConsoleSwitch::Third);
    assert_eq!(h.as_slice(), b"x^[1;9Q");
}

#[test]
fn history_hotkey_split_across_writes() {
    let mut h = OutputHistory::new();
    assert_eq!(h.record(b"^[1;", 1), ConsoleSwitch::Stay);
    assert_eq!(h.record(b"3P", 1), ConsoleSwitch::ToFirst);
    assert_eq!(h.as_slice(), b"");
}

#[test]
fn input_queue_fifo() {
    let mut q = InputQueue::new();
    q.inject(b"abc");
    q.inject(b"de");
    assert_eq!(q.len(), 5);
    let mut buf = [0u8; 3];
    assert_eq!(q.take_into(&mut buf), 3);
    assert_eq!(&buf, b"abc");
    assert_eq!(q.len(), 2);
    let mut buf = [9u8; 4];
    assert_eq!(q.take_into(&mut buf), 2);
    assert_eq!(&buf, &[b'd', b'e', 9, 9]);
    assert_eq!(q.len(), 0);
}

#[test]
fn input_queue_clear() {
    let mut q = InputQueue::new();
    q.inject(b"abc");
    q.clear();
    assert_eq!(q.len(), 0);
}

#[test]
fn input_queue_read_gives_nothing_when_empty() {
    let mut q = InputQueue::new();
    let mut buf = [7u8; 4];
    assert_eq!(q.take_into(&mut buf), 0);
    assert_eq!(buf, [7u8; 4]);
    q.inject(b"hi");
    assert_eq!(q.take_into(&mut buf), 2);
    assert_eq!(buf, [b'h', b'i', 7, 7]);
    assert_eq!(q.len(), 0);
}
