//! Notifications shown by the console's shell.
//!
//! The text goes into a fixed 1024-byte field of the request. A write that
//! does not fit whole is dropped, and so is every write after it.
use vstd::prelude::*;
use vstd::string::StringSliceAdditionalSpecFns;
use vstd::utf8::encode_utf8;

verus! {

/// Size of the request's message field in bytes.
pub const MESSAGE_LEN: usize = 1024;

/// Size of each of the two fields that follow the message.
pub const TAIL_FIELD_LEN: usize = 1024;

/// Size of the request in bytes: eleven 32-bit integers, one flag byte, three
/// 1024-byte fields, and three bytes of padding up to a multiple of four.
pub const REQUEST_SIZE: usize = 3120;

/// `target_id` of every request: all users.
pub const TARGET_ALL: i32 = -1;

/// The four bytes of `v`, least significant first, as the kernel's x86-64
/// target stores it.
pub open spec fn le_i32(v: i32) -> Seq<u8> {
    seq![
        (v & 0xff) as u8,
        ((v >> 8) & 0xff) as u8,
        ((v >> 16) & 0xff) as u8,
        ((v >> 24) & 0xff) as u8,
    ]
}

/// The eleven integers that open the request: `type`, `req_id`, `priority`,
/// `msg_id`, `target_id`, `user_id`, two unknown fields, `app_id`,
/// `error_num` and one more unknown field. All are zero but `target_id`.
pub open spec fn header_bytes() -> Seq<u8> {
    le_i32(0) + le_i32(0) + le_i32(0) + le_i32(0) + le_i32(TARGET_ALL) + le_i32(0) + le_i32(0)
        + le_i32(0) + le_i32(0) + le_i32(0) + le_i32(0)
}

/// The bytes of a request whose message field holds `message`: the header,
/// `use_icon_image_uri` set to one, the message, two zeroed fields and the
/// zeroed padding.
pub open spec fn request_bytes(message: Seq<u8>) -> Seq<u8> {
    header_bytes() + seq![1u8] + message + Seq::new(
        (2 * TAIL_FIELD_LEN + (REQUEST_SIZE - 3117)) as nat,
        |i: int| 0u8,
    )
}

/// What a [`Notification`] holds: its message field and where the next write
/// goes.
pub struct NotificationView {
    pub message: Seq<u8>,
    pub next: nat,
}

impl NotificationView {
    pub open spec fn wf(self) -> bool {
        self.message.len() == MESSAGE_LEN && self.next <= MESSAGE_LEN
    }

    /// The notification after `bytes` are written: they go at `next` if they
    /// fit whole; otherwise nothing is written and the message is closed to
    /// later writes.
    pub open spec fn write(self, bytes: Seq<u8>) -> NotificationView {
        if self.next + bytes.len() <= MESSAGE_LEN {
            NotificationView {
                message: self.message.take(self.next as int) + bytes + self.message.skip(
                    (self.next + bytes.len()) as int,
                ),
                next: self.next + bytes.len(),
            }
        } else {
            NotificationView { message: self.message, next: MESSAGE_LEN as nat }
        }
    }
}

/// A notification being written, to be sent to the shell's notification
/// device.
pub struct Notification {
    message: Vec<u8>,
    next: usize,
}

impl View for Notification {
    type V = NotificationView;

    closed spec fn view(&self) -> NotificationView {
        NotificationView { message: self.message@, next: self.next as nat }
    }
}

/// Relies on `char::encode_utf8`: the UTF-8 bytes of `c`.
#[verifier::external_body]
fn utf8_of(c: char) -> (r: Vec<u8>)
    ensures
        r@ == encode_utf8(seq![c]),
{
    let mut buf = [0u8; 4];
    c.encode_utf8(&mut buf).as_bytes().to_vec()
}

/// Appends the four little-endian bytes of `v` to `out`.
fn push_le_i32(out: &mut Vec<u8>, v: i32)
    ensures
        final(out)@ == old(out)@ + le_i32(v),
{
    out.push((v & 0xff) as u8);
    out.push(((v >> 8) & 0xff) as u8);
    out.push(((v >> 16) & 0xff) as u8);
    out.push(((v >> 24) & 0xff) as u8);
    assert(out@ =~= old(out)@ + le_i32(v));
}

impl Notification {
    /// An empty notification: the message is all zeros.
    pub fn new() -> (r: Notification)
        ensures
            r@.wf(),
            r@.next == 0,
            r@.message == Seq::new(MESSAGE_LEN as nat, |i: int| 0u8),
    {
        let message: Vec<u8> = vec![0u8; MESSAGE_LEN];
        let r = Notification { message, next: 0 };
        assert(r@.message =~= Seq::new(MESSAGE_LEN as nat, |i: int| 0u8));
        r
    }

    fn write_bytes(&mut self, bytes: &[u8])
        requires
            old(self)@.wf(),
        ensures
            final(self)@.wf(),
            final(self)@ == old(self)@.write(bytes@),
    {
        let end = match self.next.checked_add(bytes.len()) {
            Some(v) => v,
            None => {
                self.next = MESSAGE_LEN;
                return ;
            },
        };
        if end > MESSAGE_LEN {
            self.next = MESSAGE_LEN;
            return ;
        }
        let ghost start = self@;
        let mut i: usize = 0;
        while i < bytes.len()
            invariant
                start.wf(),
                start.next == self.next,
                end == self.next + bytes@.len(),
                end <= MESSAGE_LEN,
                i <= bytes@.len(),
                self.message@.len() == MESSAGE_LEN,
                forall|j: int| 0 <= j < self.next ==> #[trigger] self.message@[j] == start.message[j],
                forall|j: int| 0 <= j < i ==> #[trigger] self.message@[self.next + j] == bytes@[j],
                forall|j: int|
                    self.next + i <= j < MESSAGE_LEN ==> #[trigger] self.message@[j]
                        == start.message[j],
            decreases bytes@.len() - i,
        {
            let at: usize = self.next + i;
            self.message.set(at, bytes[i]);
            i = i + 1;
        }
        self.next = end;
        proof {
            let w = start.write(bytes@);
            assert forall|j: int| 0 <= j < MESSAGE_LEN implies #[trigger] self.message@[j]
                == w.message[j] by {
                if start.next <= j < end {
                    assert(self.message@[start.next + (j - start.next)] == bytes@[j - start.next]);
                }
            }
            assert(self.message@ =~= w.message);
        }
    }

    /// Appends the bytes of `s` if they fit whole; otherwise drops them and
    /// every later write.
    pub fn write_str(&mut self, s: &str)
        requires
            old(self)@.wf(),
        ensures
            final(self)@.wf(),
            final(self)@ == old(self)@.write(s.spec_bytes()),
    {
        self.write_bytes(s.as_bytes());
    }

    /// Appends the UTF-8 bytes of `c`, under the same rule as
    /// [`Notification::write_str`].
    pub fn write_char(&mut self, c: char)
        requires
            old(self)@.wf(),
        ensures
            final(self)@.wf(),
            final(self)@ == old(self)@.write(encode_utf8(seq![c])),
    {
        let b = utf8_of(c);
        self.write_bytes(b.as_slice());
    }

    /// The request as the notification device reads it.
    pub fn to_bytes(&self) -> (r: Vec<u8>)
        requires
            self@.wf(),
        ensures
            r@ == request_bytes(self@.message),
            r@.len() == REQUEST_SIZE,
    {
        let mut out: Vec<u8> = Vec::new();
        let mut f: usize = 0;
        while f < 11
            invariant
                f <= 11,
                out@ == Seq::new(f as nat, |k: int| if k == 4 { TARGET_ALL } else { 0i32 }).fold_left(
                    Seq::<u8>::empty(),
                    |acc: Seq<u8>, v: i32| acc + le_i32(v),
                ),
            decreases 11 - f,
        {
            let v: i32 = if f == 4 {
                TARGET_ALL
            } else {
                0
            };
            let ghost before = out@;
            push_le_i32(&mut out, v);
            proof {
                let s1 = Seq::new((f + 1) as nat, |k: int| if k == 4 { TARGET_ALL } else { 0i32 });
                let s0 = Seq::new(f as nat, |k: int| if k == 4 { TARGET_ALL } else { 0i32 });
                assert(s1.drop_last() =~= s0);
            }
            f = f + 1;
        }
        proof {
            let s = Seq::new(11nat, |k: int| if k == 4 { TARGET_ALL } else { 0i32 });
            reveal_with_fuel(Seq::fold_left, 12);
            assert(out@ =~= header_bytes());
        }
        out.push(1u8);
        let ghost head = out@;
        let mut i: usize = 0;
        while i < MESSAGE_LEN
            invariant
                i <= MESSAGE_LEN,
                self.message@.len() == MESSAGE_LEN,
                out@ == head + self.message@.take(i as int),
            decreases MESSAGE_LEN - i,
        {
            out.push(self.message[i]);
            proof {
                assert(self.message@.take(i + 1) =~= self.message@.take(i as int).push(
                    self.message@[i as int],
                ));
            }
            i = i + 1;
        }
        assert(self.message@.take(MESSAGE_LEN as int) =~= self.message@);
        let ghost body = out@;
        let pad: usize = 2 * TAIL_FIELD_LEN + (REQUEST_SIZE - 3117);
        let mut j: usize = 0;
        while j < pad
            invariant
                j <= pad,
                pad == 2 * TAIL_FIELD_LEN + (REQUEST_SIZE - 3117),
                out@ == body + Seq::new(j as nat, |k: int| 0u8),
            decreases pad - j,
        {
            out.push(0u8);
            proof {
                assert(Seq::new((j + 1) as nat, |k: int| 0u8) =~= Seq::new(j as nat, |k: int| 0u8).push(0u8));
            }
            j = j + 1;
        }
        assert(out@ =~= request_bytes(self@.message));
        out
    }

    /// Paths of the notification devices, in the order they are tried: the
    /// request goes to the first one that opens.
    pub fn devices() -> (r: Vec<&'static str>)
        ensures
            r@.len() == 2,
            r@[0]@ == "/dev/notification0"@,
            r@[1]@ == "/dev/notification1"@,
    {
        let mut r: Vec<&'static str> = Vec::new();
        r.push("/dev/notification0");
        r.push("/dev/notification1");
        r
    }
}

impl Default for Notification {
    fn default() -> (r: Notification)
        ensures
            r@.wf(),
            r@.next == 0,
            r@.message == Seq::new(MESSAGE_LEN as nat, |i: int| 0u8),
    {
        Notification::new()
    }
}

} // verus!
