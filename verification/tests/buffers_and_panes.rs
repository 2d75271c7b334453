use can_session::buffer::BUFFER_CAPACITY;
use can_session::buffer::drain_into;
use can_session::buffer::get_last_lines;
use can_session::buffer::push_capped;

#[test]
fn capacity_is_one_hundred() {
    assert_eq!(BUFFER_CAPACITY, 100);
}

#[test]
fn pushing_the_hundred_and_first_drops_the_oldest() {
    let mut buf: Vec<String> = Vec::new();
    for i in 0..101 {
        push_capped(&mut buf, format!("line {i}"));
        assert!(buf.len() <= 100);
    }
    assert_eq!(buf.len(), 100);
    assert_eq!(buf[0], "line 1".to_string());
    assert_eq!(buf[99], "line 100".to_string());
}

#[test]
fn buffer_never_exceeds_capacity_on_long_runs() {
    let mut buf: Vec<String> = Vec::new();
    for i in 0..1000 {
        push_capped(&mut buf, format!("{i}"));
        assert!(buf.len() <= 100);
    }
    assert_eq!(buf.len(), 100);
    assert_eq!(buf[0], "900".to_string());
    assert_eq!(buf[99], "999".to_string());
}

#[test]
fn drain_moves_queued_messages_in_order() {
    let (tx, rx) = flume::unbounded::<String>();
    for i in 0..5 {
        tx.send(format!("msg {i}")).unwrap();
    }
    let mut buf: Vec<String> = Vec::new();
    let emptied = drain_into(&rx, &mut buf, 1000);
    assert!(emptied);
    assert_eq!(buf, vec![
        "msg 0".to_string(),
        "msg 1".to_string(),
        "msg 2".to_string(),
        "msg 3".to_string(),
        "msg 4".to_string(),
    ]);
}

#[test]
fn drain_caps_the_buffer() {
    let (tx, rx) = flume::unbounded::<String>();
    for i in 0..120 {
        tx.send(format!("msg {i}")).unwrap();
    }
    let mut buf: Vec<String> = Vec::new();
    let emptied = drain_into(&rx, &mut buf, 1000);
    assert!(emptied);
    assert_eq!(buf.len(), 100);
    assert_eq!(buf[0], "msg 20".to_string());
    assert_eq!(buf[99], "msg 119".to_string());
}

#[test]
fn drain_stops_at_its_fuel() {
    let (tx, rx) = flume::unbounded::<String>();
    for i in 0..10 {
        tx.send(format!("msg {i}")).unwrap();
    }
    let mut buf: Vec<String> = Vec::new();
    let emptied = drain_into(&rx, &mut buf, 4);
    assert!(!emptied);
    assert_eq!(buf.len(), 4);
    assert_eq!(rx.try_recv(), Ok("msg 4".to_string()));
}

#[test]
fn last_lines_joined_with_newlines() {
    let buf = vec!["a".to_string(), "b".to_string(), "c".to_string()];
    assert_eq!(get_last_lines(&buf, 2), "b\nc".to_string());
    assert_eq!(get_last_lines(&buf, 3), "a\nb\nc".to_string());
    assert_eq!(get_last_lines(&buf, 8), "a\nb\nc".to_string());
    assert_eq!(get_last_lines(&buf, 0), "".to_string());
}

#[test]
fn last_lines_of_empty_buffer() {
    let buf: Vec<String> = Vec::new();
    assert_eq!(get_last_lines(&buf, 8), "".to_string());
}
