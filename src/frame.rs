use vstd::prelude::*;

verus! {

/// One audio frame buffer, as handed to the media engine to read a frame into.
pub struct Frame {
    buf: Vec<u8>,
    datalen: usize,
}

impl View for Frame {
    type V = Seq<u8>;

    closed spec fn view(&self) -> Seq<u8> {
        self.buf@
    }
}

impl Frame {
    /// Number of leading bytes that hold the frame.
    pub closed spec fn datalen_spec(&self) -> usize {
        self.datalen
    }

    pub closed spec fn wf(&self) -> bool {
        self.datalen <= self.buf@.len()
    }

    /// Wraps `buf`; the engine may fill all of it. Until it reports how much it
    /// wrote, the frame holds no valid bytes.
    pub fn new(buf: Vec<u8>) -> (r: Frame)
        ensures
            r.wf(),
            r@ == buf@,
            r.datalen_spec() == 0,
    {
        Frame { buf, datalen: 0 }
    }

    /// Records that the engine wrote `n` bytes, capped at the buffer's length.
    pub fn set_datalen(&mut self, n: usize)
        requires
            old(self).wf(),
        ensures
            final(self).wf(),
            final(self)@ == old(self)@,
            final(self).datalen_spec() == crate::tap::valid_len_of(n as int, old(self)@.len() as int),
    {
        self.datalen = if n < self.buf.len() {
            n
        } else {
            self.buf.len()
        };
    }

    /// Number of bytes that hold the frame.
    pub fn datalen(&self) -> (r: usize)
        ensures
            r == self.datalen_spec(),
    {
        self.datalen
    }

    /// The frame's valid bytes, as a buffer of their own length.
    pub fn into_valid(self) -> (r: Vec<u8>)
        requires
            self.wf(),
        ensures
            r@ == self@.take(self.datalen_spec() as int),
    {
        let n = self.datalen;
        let mut buf = self.buf;
        crate::tap::keep_valid(&mut buf, n);
        buf
    }

    /// The room announced to the engine: the buffer's length, capped at
    /// `u32::MAX`.
    pub fn buflen(&self) -> (r: u32)
        ensures
            r as int == if self@.len() > u32::MAX { u32::MAX as int } else { self@.len() as int },
    {
        if self.buf.len() > u32::MAX as usize {
            u32::MAX
        } else {
            self.buf.len() as u32
        }
    }

    /// The frame's bytes.
    pub fn data(&self) -> (r: &[u8])
        ensures
            r@ == self@,
    {
        self.buf.as_slice()
    }

    /// Gives the buffer back.
    pub fn into_inner(self) -> (r: Vec<u8>)
        ensures
            r@ == self@,
    {
        self.buf
    }
}

} // verus!
