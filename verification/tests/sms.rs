use kdeconnect::sms::{has_unread, lookup_seen, SmsMessage, SmsMessages};

fn msg(thread_id: i64, date: i64, read: i32) -> SmsMessage {
    SmsMessage {
        id: date,
        addresses: vec![],
        attachments: vec![],
        body: String::new(),
        date,
        message_type: 1,
        read,
        thread_id,
        sub_id: None,
        event: None,
    }
}

fn batch(messages: Vec<SmsMessage>) -> SmsMessages {
    SmsMessages { messages, version: Some(2) }
}

fn seen(entries: &[(&str, i64)]) -> Vec<(String, i64)> {
    entries.iter().map(|(k, v)| (k.to_string(), *v)).collect()
}

#[test]
fn unreadable_batch_is_not_unread() {
    assert!(!has_unread(None, &seen(&[])));
}

#[test]
fn empty_batch_is_not_unread() {
    assert!(!has_unread(Some(&batch(vec![])), &seen(&[])));
}

#[test]
fn newer_than_seen_is_unread() {
    let b = batch(vec![msg(5, 100, 1), msg(5, 200, 1)]);
    assert!(has_unread(Some(&b), &seen(&[("5", 150)])));
    assert!(!has_unread(Some(&b), &seen(&[("5", 200)])));
    assert!(!has_unread(Some(&b), &seen(&[("5", 250)])));
}

#[test]
fn seen_entry_overrides_phone_read_flag() {
    let b = batch(vec![msg(7, 100, 0)]);
    assert!(!has_unread(Some(&b), &seen(&[("7", 100)])));
}

#[test]
fn unseen_thread_uses_phone_read_flag() {
    assert!(has_unread(Some(&batch(vec![msg(9, 100, 0)])), &seen(&[])));
    assert!(!has_unread(Some(&batch(vec![msg(9, 100, 1)])), &seen(&[])));
    // Any unread message in a never-opened thread counts.
    assert!(has_unread(Some(&batch(vec![msg(9, 100, 0), msg(9, 200, 1)])), &seen(&[])));
}

#[test]
fn negative_and_large_thread_ids_use_their_decimal_key() {
    let b = batch(vec![msg(-3, 10, 1), msg(i64::MAX, 10, 1)]);
    assert!(has_unread(Some(&b), &seen(&[("-3", 5), ("9223372036854775807", 50)])));
    assert!(!has_unread(Some(&b), &seen(&[("-3", 50), ("9223372036854775807", 50)])));
}

#[test]
fn order_does_not_matter() {
    let s = seen(&[("1", 100), ("2", 300)]);
    let a = batch(vec![msg(1, 50, 1), msg(2, 200, 1), msg(1, 150, 1)]);
    let b = batch(vec![msg(1, 150, 1), msg(1, 50, 1), msg(2, 200, 1)]);
    assert_eq!(has_unread(Some(&a), &s), has_unread(Some(&b), &s));
    assert!(has_unread(Some(&a), &s));
}

#[test]
fn seen_after_newest_clears_badge() {
    let b = batch(vec![msg(1, 50, 0), msg(2, 200, 0)]);
    assert!(!has_unread(Some(&b), &seen(&[("1", 60), ("2", 200)])));
}

#[test]
fn lookup_finds_key() {
    let s = seen(&[("a", 1), ("b", 2)]);
    assert_eq!(lookup_seen(&s, &"b".to_string()), Some(2));
    assert_eq!(lookup_seen(&s, &"c".to_string()), None);
}
