//! Framing of replies on a device session: bytes accumulate until the peer
//! closes or the buffer ends with `\r\n`.

use vstd::prelude::*;

verus! {

/// What one read attempt on the socket gave.
pub enum ReadEvent {
    /// Some bytes arrived.
    Data(Vec<u8>),
    /// The peer closed the connection (a read of zero bytes).
    Closed,
    /// Nothing to read yet.
    WouldBlock,
}

/// What the read loop does next.
#[derive(Debug, Clone, Copy, PartialEq, Eq, Structural)]
pub enum ReadStep {
    /// Keep waiting for bytes.
    Continue,
    /// The buffer is a complete reply: hand it to the decoder.
    Deliver,
}

/// The buffer ends with the reply terminator `\r\n`.
pub open spec fn ends_with_crlf(buf: Seq<u8>) -> bool {
    buf.len() >= 2 && buf[buf.len() - 2] == 13u8 && buf[buf.len() - 1] == 10u8
}

/// The bytes received so far for one reply.
pub struct FrameReader {
    buf: Vec<u8>,
}

impl View for FrameReader {
    type V = Seq<u8>;

    closed spec fn view(&self) -> Seq<u8> {
        self.buf@
    }
}

impl FrameReader {
    /// A reader with nothing received.
    pub fn new() -> (r: Self)
        ensures
            r@ == Seq::<u8>::empty(),
    {
        FrameReader { buf: Vec::new() }
    }

    /// Whether the bytes so far end with `\r\n`.
    pub fn is_complete(&self) -> (r: bool)
        ensures
            r == ends_with_crlf(self@),
    {
        let n = self.buf.len();
        n >= 2 && self.buf[n - 2] == 13u8 && self.buf[n - 1] == 10u8
    }

    /// Takes in one read attempt. Data is appended and waiting goes on; a
    /// close delivers what is there; an empty read delivers exactly when the
    /// buffer ends with `\r\n`.
    pub fn on_event(&mut self, event: ReadEvent) -> (r: ReadStep)
        ensures
            match event {
                ReadEvent::Data(bytes) => final(self)@ == old(self)@ + bytes@ && r
                    == ReadStep::Continue,
                ReadEvent::Closed => final(self)@ == old(self)@ && r == ReadStep::Deliver,
                ReadEvent::WouldBlock => final(self)@ == old(self)@ && (r == ReadStep::Deliver
                    <==> ends_with_crlf(old(self)@)),
            },
    {
        match event {
            ReadEvent::Data(bytes) => {
                let mut i: usize = 0;
                let ghost start = self.buf@;
                while i < bytes.len()
                    invariant
                        i <= bytes@.len(),
                        self.buf@ == start + bytes@.take(i as int),
                    decreases bytes@.len() - i,
                {
                    self.buf.push(bytes[i]);
                    i += 1;
                    proof {
                        assert(self.buf@ =~= start + bytes@.take(i as int));
                    }
                }
                proof {
                    assert(bytes@.take(i as int) =~= bytes@);
                }
                ReadStep::Continue
            },
            ReadEvent::Closed => ReadStep::Deliver,
            ReadEvent::WouldBlock => if self.is_complete() {
                ReadStep::Deliver
            } else {
                ReadStep::Continue
            },
        }
    }

    /// The bytes received, handed over to the decoder.
    pub fn into_bytes(self) -> (r: Vec<u8>)
        ensures
            r@ == self@,
    {
        self.buf
    }
}

} // verus!
