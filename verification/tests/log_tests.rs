use oscmon::listener::SourceAddr;
use oscmon::log::{LogEntry, StatefulLog};
use rosc::{OscMessage, OscPacket};

fn entry(n: i64) -> LogEntry {
    LogEntry {
        timestamp: n,
        packet: OscPacket::Message(OscMessage { addr: format!("/test/{n}"), args: vec![] }),
        source: SourceAddr { host: "127.0.0.1".to_string(), port: 9000 },
    }
}

fn log_with(n: i64) -> StatefulLog {
    let mut log = StatefulLog::new();
    for k in 0..n {
        log.append(entry(k));
    }
    log
}

#[test]
fn append_keeps_length_and_order() {
    let mut log = StatefulLog::new();
    assert_eq!(log.len(), 0);
    for k in 0..7i64 {
        log.append(entry(k));
        assert_eq!(log.len(), (k + 1) as usize);
    }
    for k in 0..7usize {
        assert_eq!(log.items[k].timestamp, k as i64);
        match &log.items[k].packet {
            OscPacket::Message(m) => assert_eq!(m.addr, format!("/test/{k}")),
            other => panic!("unexpected packet shape: {other:?}"),
        }
    }
}

#[test]
fn append_never_moves_the_cursor() {
    let mut log = StatefulLog::new();
    log.append(entry(0));
    log.next();
    assert_eq!(log.selected, Some(0));
    log.append(entry(1));
    log.append(entry(2));
    assert_eq!(log.selected, Some(0));
    log.unselect();
    log.append(entry(3));
    assert_eq!(log.selected, None);
    assert_eq!(log.last_selected, Some(0));
}

#[test]
fn next_wraps_forward() {
    let mut log = log_with(5);
    assert_eq!(log.selected, None);
    log.next();
    assert_eq!(log.selected, Some(0));
    for expected in [1, 2, 3, 4, 0] {
        log.next();
        assert_eq!(log.selected, Some(expected));
    }
}

#[test]
fn previous_wraps_backward() {
    let mut log = log_with(5);
    log.next();
    assert_eq!(log.selected, Some(0));
    log.previous();
    assert_eq!(log.selected, Some(4));
    log.previous();
    assert_eq!(log.selected, Some(3));
}

#[test]
fn unselect_then_next_resumes_at_last_selected() {
    let mut log = log_with(5);
    log.next();
    log.next();
    log.next();
    assert_eq!(log.selected, Some(2));
    log.unselect();
    assert_eq!(log.selected, None);
    assert_eq!(log.last_selected, Some(2));
    log.next();
    assert_eq!(log.selected, Some(2));
}

#[test]
fn unselect_then_previous_resumes_at_last_selected() {
    let mut log = log_with(5);
    log.next();
    log.next();
    assert_eq!(log.selected, Some(1));
    log.unselect();
    log.previous();
    assert_eq!(log.selected, Some(1));
}

#[test]
fn empty_log_navigation_is_a_noop() {
    let mut log = StatefulLog::new();
    log.next();
    assert_eq!(log.selected, None);
    log.previous();
    assert_eq!(log.selected, None);
    log.select_last();
    assert_eq!(log.selected, None);
    log.select_first();
    assert_eq!(log.selected, None);
    assert_eq!(log.last_selected, None);
    assert_eq!(log.len(), 0);
}

#[test]
fn unselect_twice_is_idempotent() {
    let mut log = log_with(3);
    log.next();
    log.next();
    assert_eq!(log.selected, Some(1));
    log.unselect();
    assert_eq!(log.selected, None);
    assert_eq!(log.last_selected, Some(1));
    log.unselect();
    assert_eq!(log.selected, None);
    assert_eq!(log.last_selected, Some(1));
}

#[test]
fn select_first_and_last_jump_directly() {
    let mut log = log_with(4);
    log.select_last();
    assert_eq!(log.selected, Some(3));
    log.select_first();
    assert_eq!(log.selected, Some(0));
}

#[test]
fn unselect_preserves_scroll_offset() {
    let mut log = log_with(3);
    log.offset = 2;
    log.next();
    log.unselect();
    assert_eq!(log.offset, 2);
}

#[test]
fn list_item_text_renders_the_packet() {
    let e = entry(41);
    let line = e.to_list_item(0);
    assert!(!line.is_empty());
    assert!(line.contains("/test/41"));
}

#[test]
fn default_log_is_empty_and_unselected() {
    let log = StatefulLog::default();
    assert_eq!(log.len(), 0);
    assert_eq!(log.selected, None);
    assert_eq!(log.last_selected, None);
    assert_eq!(log.offset, 0);
}
