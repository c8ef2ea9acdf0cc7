use okf::notification::{Notification, MESSAGE_LEN, REQUEST_SIZE};

fn message_of(n: &Notification) -> Vec<u8> {
    n.to_bytes()[45..45 + MESSAGE_LEN].to_vec()
}

#[test]
fn notification_layout() {
    let n = Notification::default();
    let b = n.to_bytes();
    assert_eq!(b.len(), REQUEST_SIZE);
    assert_eq!(&b[16..20], &[0xff, 0xff, 0xff, 0xff]);
    assert!(b[..16].iter().all(|&c| c == 0));
    assert!(b[20..44].iter().all(|&c| c == 0));
    assert_eq!(b[44], 1);
    assert!(b[45..].iter().all(|&c| c == 0));
}

#[test]
fn notification_write_text() {
    let mut n = Notification::new();
    n.write_str("Hi ");
    n.write_char('é');
    n.write_str("!");
    let m = message_of(&n);
    assert_eq!(&m[..6], "Hi é!".as_bytes());
    assert_eq!(m[6], 0);
}

#[test]
fn notification_overflow_drops_rest() {
    let mut n = Notification::new();
    n.write_str(&"a".repeat(MESSAGE_LEN - 2));
    // Does not fit whole: dropped, and so is everything after it.
    n.write_str("abc");
    n.write_str("z");
    let m = message_of(&n);
    assert!(m[..MESSAGE_LEN - 2].iter().all(|&c| c == b'a'));
    assert_eq!(&m[MESSAGE_LEN - 2..], &[0, 0]);
}

#[test]
fn notification_exact_fit() {
    let mut n = Notification::new();
    n.write_str(&"b".repeat(MESSAGE_LEN));
    assert!(message_of(&n).iter().all(|&c| c == b'b'));
}

#[test]
fn notification_devices_in_order() {
    assert_eq!(Notification::devices(), vec!["/dev/notification0", "/dev/notification1"]);
}
