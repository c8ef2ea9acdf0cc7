use okf::message::{Message, MESSAGE_CAPACITY};

#[test]
fn write_str() {
    let mut m = Message::default();

    m.write_str("Hello, world!");

    assert!(m.as_bytes().starts_with(b"Hello, world!\0"));

    // Make sure repeated write on a full buffer won't do anything.
    for _ in 0..m.as_bytes().len() {
        m.write_str("Hello, world!");
    }

    assert!(m.as_bytes().starts_with(b"Hello, world!Hello"));
    assert_eq!(m.as_bytes().last().copied().unwrap(), 0);
}

#[test]
fn message_two_writes() {
    let mut m = Message::new();
    m.write_str("Hello, world!");
    m.write_str("Hello, world!");
    assert_eq!(&m.as_bytes()[..18], b"Hello, world!Hello");
    assert_eq!(m.as_bytes()[26], 0);
}

#[test]
fn message_fill_exactly_to_capacity() {
    let mut m = Message::new();
    let long = "x".repeat(MESSAGE_CAPACITY + 10);
    m.write_str(&long);
    let b = m.as_bytes();
    assert_eq!(b.len(), MESSAGE_CAPACITY);
    assert!(b[..MESSAGE_CAPACITY - 1].iter().all(|&c| c == b'x'));
    assert_eq!(b[MESSAGE_CAPACITY - 1], 0);
}

#[test]
fn message_full_write_is_noop() {
    let mut m = Message::new();
    m.write_str(&"a".repeat(MESSAGE_CAPACITY - 1));
    let before = m.as_bytes().to_vec();
    m.write_str("more");
    assert_eq!(m.as_bytes(), &before[..]);
}

#[test]
fn message_empty_write() {
    let mut m = Message::new();
    m.write_str("");
    assert!(m.as_bytes().iter().all(|&c| c == 0));
}
