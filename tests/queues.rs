use hs_gba::{CommandQueue, EventLog, Frame, Key, Message, Notification, FRAMEBUFFER_LEN};

fn key_of(message: Option<Message>) -> Option<Key> {
    match message {
        Some(Message::Key { key, .. }) => Some(key),
        _ => None,
    }
}

#[test]
fn command_queue_is_first_in_first_out() {
    let mut queue = CommandQueue::new();
    assert!(queue.is_empty());
    for key in [Key::A, Key::B, Key::Start] {
        queue.push(Message::Key { key, pressed: true });
    }
    assert_eq!(queue.len(), 3);
    assert_eq!(key_of(queue.pop()), Some(Key::A));
    queue.push(Message::Key { key: Key::Select, pressed: false });
    assert_eq!(key_of(queue.pop()), Some(Key::B));
    assert_eq!(key_of(queue.pop()), Some(Key::Start));
    assert_eq!(key_of(queue.pop()), Some(Key::Select));
    assert!(queue.pop().is_none());
    assert!(queue.is_empty());
}

#[test]
fn event_log_drains_then_is_empty() {
    let mut log = EventLog::new();
    log.push(Notification::Reset);
    log.push(Notification::Run);
    assert_eq!(log.drain(), vec![Notification::Reset, Notification::Run]);
    assert!(log.drain().is_empty());
    assert!(log.is_empty());
}

#[test]
fn event_log_lacks() {
    let mut log = EventLog::new();
    assert!(log.lacks(Notification::Pause));
    log.push(Notification::Run);
    assert!(log.lacks(Notification::Pause));
    log.push(Notification::Pause);
    assert!(!log.lacks(Notification::Pause));
    assert!(!log.lacks(Notification::Run));
    assert!(log.lacks(Notification::Reset));
}

#[test]
fn command_queue_sees_run_or_pause() {
    let mut queue = CommandQueue::new();
    assert!(!queue.has_run_or_pause());
    queue.push(Message::Key { key: Key::A, pressed: true });
    queue.push(Message::Exit);
    assert!(!queue.has_run_or_pause());
    queue.push(Message::Pause);
    assert!(queue.has_run_or_pause());
    let mut other = CommandQueue::new();
    other.push(Message::Run);
    assert!(other.has_run_or_pause());
}

#[test]
fn command_queue_push_all_keeps_order() {
    let mut queue = CommandQueue::new();
    queue.push(Message::Key { key: Key::L, pressed: true });
    queue.push_all(vec![
        Message::Key { key: Key::A, pressed: true },
        Message::Key { key: Key::B, pressed: true },
        Message::Key { key: Key::R, pressed: true },
    ]);
    queue.push_all(Vec::new());
    assert_eq!(queue.len(), 4);
    assert_eq!(key_of(queue.pop()), Some(Key::L));
    assert_eq!(key_of(queue.pop()), Some(Key::A));
    assert_eq!(key_of(queue.pop()), Some(Key::B));
    assert_eq!(key_of(queue.pop()), Some(Key::R));
    assert!(queue.pop().is_none());
}

#[test]
fn frames_copy_verbatim() {
    let mut bytes = vec![0u8; FRAMEBUFFER_LEN];
    for (i, b) in bytes.iter_mut().enumerate() {
        *b = (i % 251) as u8;
    }
    let frame = Frame::from_bytes(bytes.clone());
    let mut out = vec![7u8; FRAMEBUFFER_LEN];
    frame.copy_into(&mut out);
    assert_eq!(out, bytes);
    Frame::blank().copy_into(&mut out);
    assert!(out.iter().all(|b| *b == 0));
}
