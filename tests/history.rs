use dolorous::history::HistoryRing;
use dolorous::hub::{frame_input_line, StreamHub, UNINITIALIZED};

#[test]
fn history_keeps_what_fits() {
    let mut ring = HistoryRing::new(16);
    ring.write("hi\n");
    assert_eq!(ring.snapshot_history(), b"hi\n".to_vec());
    ring.write("there\n");
    assert_eq!(ring.snapshot_history(), b"hi\nthere\n".to_vec());
}

#[test]
fn history_is_last_bytes_written() {
    let mut ring = HistoryRing::new(8);
    ring.write("abcdef\n");
    ring.write("xyz\n");
    assert_eq!(ring.snapshot_history(), b"def\nxyz\n".to_vec());
    let mut small = HistoryRing::new(4);
    small.write("0123456789");
    assert_eq!(small.snapshot_history(), b"6789".to_vec());
}

#[test]
fn history_may_begin_mid_character() {
    let mut ring = HistoryRing::new(3);
    ring.write("a\u{e9}bc");
    // The last three bytes: the second byte of 'é', then "bc".
    assert_eq!(ring.snapshot_history(), vec![0xa9, b'b', b'c']);
    let mut one = HistoryRing::new(1);
    one.write("\u{e9}");
    assert_eq!(one.snapshot_history(), vec![0xa9]);
}

#[test]
fn history_of_zero_bytes_is_empty() {
    let mut ring = HistoryRing::new(0);
    ring.write("lost\n");
    assert_eq!(ring.snapshot_history(), Vec::<u8>::new());
}

#[test]
fn snapshot_is_not_destructive() {
    let mut ring = HistoryRing::new(32);
    ring.write("one\n");
    let a = ring.snapshot_history();
    let b = ring.snapshot_history();
    assert_eq!(a, b);
    assert_eq!(a, b"one\n".to_vec());
}

#[test]
fn input_lines_are_trimmed_and_terminated() {
    assert_eq!(frame_input_line("save-all"), b"save-all\n".to_vec());
    assert_eq!(frame_input_line("say hi  \r\n"), b"say hi\n".to_vec());
    assert_eq!(frame_input_line("  lead\t\u{3000}"), b"  lead\n".to_vec());
    assert_eq!(frame_input_line(""), b"\n".to_vec());
}

#[test]
fn scheduled_command_reaches_history() {
    // A child that echoes its stdin writes back what it was sent.
    let mut hub: StreamHub<u8, u8> = StreamHub::new(8192);
    hub.install(1, 2);
    let sent = frame_input_line("save-all");
    let echoed = String::from_utf8(sent).unwrap();
    hub.record_output(&echoed);
    let snap = hub.snapshot_history();
    assert!(snap.windows(9).any(|w| w == b"save-all\n"));
}

#[test]
fn hub_install_and_tear_down() {
    let mut hub: StreamHub<String, u32> = StreamHub::new(64);
    assert!(hub.stdin_handle().is_none());
    assert!(hub.output_subscription().is_none());
    assert_eq!(hub.client_prelude(), None);
    hub.install("sink".to_string(), 5);
    assert_eq!(hub.stdin_handle(), Some(&"sink".to_string()));
    assert_eq!(hub.output_subscription(), Some(&5));
    hub.record_output("hi\n");
    hub.tear_down();
    assert!(hub.stdin_handle().is_none());
    assert!(hub.output_subscription().is_none());
    assert_eq!(hub.snapshot_history(), b"hi\n".to_vec());
}

#[test]
fn socket_client_gets_history_first() {
    let mut hub: StreamHub<u8, u8> = StreamHub::new(64);
    hub.install(0, 0);
    hub.record_output("hi\n");
    hub.record_output("world\n");
    assert_eq!(hub.client_prelude(), Some(b"hi\nworld\n".to_vec()));
    // Lines from the client reach the child trimmed, with one newline.
    assert_eq!(frame_input_line("list \n"), b"list\n".to_vec());
}

#[test]
fn socket_client_without_child_is_refused() {
    let mut hub: StreamHub<u8, u8> = StreamHub::new(64);
    hub.record_output("old\n");
    assert_eq!(hub.client_prelude(), None);
    assert_eq!(UNINITIALIZED, "Uninitialized");
}
