use dispatch::connection::Connection;
use dispatch::message::{clock_time, stamp, ChannelMessage, MessageView};

fn is_clock(t: &str) -> bool {
    let b = t.as_bytes();
    b.len() == 5
        && b[2] == b':'
        && b[0].is_ascii_digit()
        && b[1].is_ascii_digit()
        && b[3].is_ascii_digit()
        && b[4].is_ascii_digit()
        && (b[0] - b'0') * 10 + (b[1] - b'0') < 24
        && b[3] - b'0' < 6
}

#[test]
fn message_view_layout() {
    let m = ChannelMessage::new("alice", "hello".to_string(), 1_700_000_000_000);
    let l = MessageView::new(m);
    assert_eq!(l.title, "alice");
    assert_eq!(l.body, "hello");
    assert!(is_clock(&l.time), "{}", l.time);
}

#[test]
fn message_view_epoch_and_negative() {
    let l = MessageView::new(ChannelMessage::new("a", "b".to_string(), 0));
    assert!(is_clock(&l.time));
    let l = MessageView::new(ChannelMessage::new("a", "b".to_string(), -86_400_000));
    assert!(is_clock(&l.time));
}

#[test]
fn message_view_out_of_range() {
    assert!(!MessageView::is_displayable(i64::MAX));
    assert!(!MessageView::is_displayable(i64::MIN));
}

#[test]
fn stamped_message_keeps_sender_and_body() {
    let m = stamp("bob", "hi".to_string());
    assert_eq!(m.from, "bob");
    assert_eq!(m.body, "hi");
    assert!(m.timestamp > 1_600_000_000_000);
    let c = m.clone();
    assert_eq!((c.from, c.body, c.timestamp), (m.from.clone(), m.body.clone(), m.timestamp));
}

#[test]
fn connection_ids_are_random_v4() {
    let a = Connection::new("alice".to_string(), 5u8);
    let b = Connection::new("alice".to_string(), 5u8);
    assert_eq!(a.username(), "alice");
    assert_eq!(*a.channel_sender(), 5u8);
    assert_eq!((a.id() >> 76) & 0xf, 4);
    assert_eq!((a.id() >> 62) & 0x3, 2);
    assert_ne!(a.id(), b.id());
}

/// The time text as the original client computed it with chrono.
fn chrono_clock(timestamp: i64) -> Option<String> {
    chrono::DateTime::from_timestamp_millis(timestamp).map(|t| {
        t.with_timezone(&chrono::Local::now().timezone()).format("%H:%M").to_string()
    })
}

#[test]
fn message_view_time_agrees_with_chrono() {
    for ts in [
        0i64,
        -1,
        999,
        1_000,
        59_999,
        60_000,
        -86_400_001,
        1_700_000_000_123,
        dispatch::message::CHRONO_MIN_MILLIS,
        dispatch::message::CHRONO_MAX_MILLIS,
        -5_000_000_000_000_000,
        7_999_999_999_999_999,
    ] {
        let m = ChannelMessage::new("a", "b".to_string(), ts);
        assert_eq!(Some(MessageView::new(m).time), chrono_clock(ts), "timestamp {}", ts);
    }
}

#[test]
fn message_view_range_is_chrono_range() {
    for ts in [
        dispatch::message::CHRONO_MIN_MILLIS - 1,
        dispatch::message::CHRONO_MIN_MILLIS,
        dispatch::message::CHRONO_MAX_MILLIS,
        dispatch::message::CHRONO_MAX_MILLIS + 1,
        8_100_000_000_000_000,
        -8_300_000_000_000_000,
    ] {
        assert_eq!(MessageView::is_displayable(ts), chrono::DateTime::from_timestamp_millis(ts).is_some(), "timestamp {}", ts);
    }
}

#[test]
fn clock_time_for_given_offsets() {
    assert_eq!(clock_time(0, 0), "00:00");
    assert_eq!(clock_time(0, 3 * 3600 + 30 * 60), "03:30");
    assert_eq!(clock_time(0, -60), "23:59");
    assert_eq!(clock_time(-1, 0), "23:59");
    assert_eq!(clock_time(1_700_000_000_123, 0), "22:13");
    assert_eq!(clock_time(86_399_999, 86_399), "23:59");
}

#[test]
fn stamped_message_is_displayable() {
    let m = stamp("x", "y".to_string());
    assert!(MessageView::is_displayable(m.timestamp));
}
