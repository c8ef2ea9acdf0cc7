//! A fixed-size text buffer for fatal-error messages.
//!
//! Writes that do not fit are cut short, never reported: the buffer keeps what
//! fits and always ends with a zero byte, so it can be handed to the kernel as
//! a C string.
use vstd::prelude::*;
use vstd::string::StringSliceAdditionalSpecFns;

verus! {

/// Size of the buffer in bytes, the terminating zero included.
pub const MESSAGE_CAPACITY: usize = 2048;

/// What a [`Message`] holds: all of its bytes, and how many are written.
pub struct MessageView {
    pub buf: Seq<u8>,
    pub pos: nat,
}

impl MessageView {
    /// The buffer has its full size, the written text leaves room for the
    /// terminating zero, and everything past the text is zero.
    pub open spec fn wf(self) -> bool {
        &&& self.buf.len() == MESSAGE_CAPACITY
        &&& self.pos < MESSAGE_CAPACITY
        &&& forall|i: int| self.pos <= i < MESSAGE_CAPACITY ==> #[trigger] self.buf[i] == 0u8
    }

    /// Number of bytes that can still be written.
    pub open spec fn room(self) -> nat {
        (MESSAGE_CAPACITY - 1 - self.pos) as nat
    }

    /// The message after `bytes` are written: as many as there is room for are
    /// put at the end of the text, the rest are dropped.
    pub open spec fn write(self, bytes: Seq<u8>) -> MessageView {
        let n = if bytes.len() <= self.room() {
            bytes.len()
        } else {
            self.room()
        };
        MessageView {
            buf: self.buf.take(self.pos as int) + bytes.take(n as int) + self.buf.skip((self.pos + n) as int),
            pos: self.pos + n,
        }
    }
}

impl Default for Message {
    fn default() -> (r: Message)
        ensures
            r@.wf(),
            r@.pos == 0,
            r@.buf == Seq::new(MESSAGE_CAPACITY as nat, |i: int| 0u8),
    {
        Message::new()
    }
}

/// A text buffer of [`MESSAGE_CAPACITY`] bytes that truncates silently.
pub struct Message {
    buf: Vec<u8>,
    pos: usize,
}

impl View for Message {
    type V = MessageView;

    closed spec fn view(&self) -> MessageView {
        MessageView { buf: self.buf@, pos: self.pos as nat }
    }
}

impl Message {
    /// An empty message: every byte is zero.
    pub fn new() -> (r: Message)
        ensures
            r@.wf(),
            r@.pos == 0,
            r@.buf == Seq::new(MESSAGE_CAPACITY as nat, |i: int| 0u8),
    {
        let buf: Vec<u8> = vec![0u8; MESSAGE_CAPACITY];
        let r = Message { buf, pos: 0 };
        assert(r@.buf =~= Seq::new(MESSAGE_CAPACITY as nat, |i: int| 0u8));
        r
    }

    /// The whole buffer, terminating zero and unused tail included.
    pub fn as_bytes(&self) -> (r: &[u8])
        ensures
            r@ == self@.buf,
    {
        self.buf.as_slice()
    }

    /// Appends the bytes of `s`, as many as fit before the last byte.
    pub fn write_str(&mut self, s: &str)
        requires
            old(self)@.wf(),
        ensures
            final(self)@ == old(self)@.write(s.spec_bytes()),
            final(self)@.wf(),
            final(self)@.buf.last() == 0u8,
    {
        let bytes = s.as_bytes();
        let room: usize = (MESSAGE_CAPACITY - 1) - self.pos;
        let n: usize = if bytes.len() <= room {
            bytes.len()
        } else {
            room
        };
        let ghost start = self@;
        let mut i: usize = 0;
        while i < n
            invariant
                start.wf(),
                start.pos == self.pos,
                n <= room,
                room == MESSAGE_CAPACITY - 1 - self.pos,
                n <= bytes@.len(),
                i <= n,
                self.buf@.len() == MESSAGE_CAPACITY,
                forall|j: int| 0 <= j < self.pos ==> #[trigger] self.buf@[j] == start.buf[j],
                forall|j: int| 0 <= j < i ==> #[trigger] self.buf@[self.pos + j] == bytes@[j],
                forall|j: int|
                    self.pos + i <= j < MESSAGE_CAPACITY ==> #[trigger] self.buf@[j] == start.buf[j],
            decreases n - i,
        {
            let at: usize = self.pos + i;
            self.buf.set(at, bytes[i]);
            i = i + 1;
        }
        self.pos = self.pos + n;
        proof {
            let w = start.write(bytes@);
            assert(w.pos == self.pos);
            assert forall|j: int| 0 <= j < MESSAGE_CAPACITY implies #[trigger] self.buf@[j]
                == w.buf[j] by {
                if j < start.pos {
                } else if j < start.pos + n {
                    assert(self.buf@[start.pos + (j - start.pos)] == bytes@[j - start.pos]);
                } else {
                }
            }
            assert(self.buf@ =~= w.buf);
        }
    }
}

} // verus!

verus! {

/// Writing more than there is room for fills exactly the room left: the
/// text grows by the first bytes that fit, the rest are dropped, and the
/// last byte stays zero.
pub proof fn lemma_write_fills_room(m: MessageView, bytes: Seq<u8>)
    requires
        m.wf(),
        bytes.len() > m.room(),
    ensures
        m.write(bytes).wf(),
        m.write(bytes).pos == MESSAGE_CAPACITY - 1,
        m.write(bytes).buf.take(m.write(bytes).pos as int) == m.buf.take(m.pos as int)
            + bytes.take(m.room() as int),
        m.write(bytes).buf.last() == 0u8,
{
    let w = m.write(bytes);
    assert(w.buf.take(w.pos as int) =~= m.buf.take(m.pos as int) + bytes.take(m.room() as int));
}

/// Writing to a full message changes nothing.
pub proof fn lemma_write_full_is_noop(m: MessageView, bytes: Seq<u8>)
    requires
        m.wf(),
        m.room() == 0,
    ensures
        m.write(bytes) == m,
{
    assert(m.write(bytes).buf =~= m.buf);
}

/// Any sequence of writes keeps the message well formed, so it always ends
/// with a zero byte.
pub proof fn lemma_writes_keep_terminator(m: MessageView, writes: Seq<Seq<u8>>)
    requires
        m.wf(),
    ensures
        writes.fold_left(m, |acc: MessageView, b: Seq<u8>| acc.write(b)).wf(),
        writes.fold_left(m, |acc: MessageView, b: Seq<u8>| acc.write(b)).buf.last() == 0u8,
    decreases writes.len(),
{
    if writes.len() > 0 {
        lemma_writes_keep_terminator(m, writes.drop_last());
        let before = writes.drop_last().fold_left(m, |acc: MessageView, b: Seq<u8>| acc.write(b));
        lemma_write_keeps_wf(before, writes.last());
    }
}

/// One write keeps the message well formed.
pub proof fn lemma_write_keeps_wf(m: MessageView, bytes: Seq<u8>)
    requires
        m.wf(),
    ensures
        m.write(bytes).wf(),
{
    let w = m.write(bytes);
    assert forall|i: int| w.pos <= i < MESSAGE_CAPACITY implies #[trigger] w.buf[i] == 0u8 by {
        assert(w.buf[i] == m.buf[i]);
    }
}

} // verus!
