//! A writer of C strings into a buffer of fixed size.

use vstd::prelude::*;
use vstd::string::StringSliceAdditionalSpecFns;

verus! {

/// A buffer that holds a C string: the text, then a zero byte.
#[derive(Debug)]
pub struct CStrWriter {
    pub buf: Vec<u8>,
    pub pos: usize,
}

impl CStrWriter {
    /// The text ends inside the buffer, with a zero byte.
    pub open spec fn wf(&self) -> bool {
        &&& self.pos < self.buf@.len()
        &&& self.buf@[self.pos as int] == 0
    }

    /// The text that was written.
    pub open spec fn text(&self) -> Seq<u8> {
        self.buf@.take(self.pos as int)
    }

    /// Whether `count` more bytes fit, with the zero byte after them.
    pub open spec fn fits(&self, count: nat) -> bool {
        count + 1 <= self.buf@.len() - self.pos
    }

    /// A writer with an empty text in the buffer.
    pub fn new(buf: Vec<u8>) -> (w: CStrWriter)
        requires
            buf@.len() > 0,
        ensures
            w.wf(),
            w.pos == 0,
            w.buf@ == buf@.update(0, 0u8),
    {
        let mut buf = buf;
        buf[0] = 0;
        CStrWriter { buf, pos: 0 }
    }

    /// Length of the text, without the zero byte.
    pub fn len(&self) -> (n: usize)
        requires
            self.wf(),
        ensures
            n == self.text().len(),
            n == self.pos,
    {
        self.pos
    }

    /// Appends a string to the text. A string that does not fit with its
    /// zero byte is refused, and nothing is written.
    pub fn write_str(&mut self, s: &str) -> (r: Result<(), ()>)
        requires
            old(self).wf(),
        ensures
            final(self).wf(),
            r is Ok <==> old(self).fits(s.spec_bytes().len()),
            r is Err ==> *final(self) == *old(self),
            r is Ok ==> {
                &&& final(self).text() == old(self).text() + s.spec_bytes()
                &&& final(self).buf@.len() == old(self).buf@.len()
                &&& forall|i: int|
                    final(self).pos < i < final(self).buf@.len() ==> final(self).buf@[i] == old(
                        self,
                    ).buf@[i]
            },
    {
        let bytes = s.as_bytes();
        let s_len: usize = bytes.len();
        let capacity: usize = self.buf.len();
        let room: usize = capacity - self.pos;
        if s_len >= room {
            return Err(());
        }
        let start: usize = self.pos;
        let mut i: usize = 0;
        while i < s_len
            invariant
                i <= s_len,
                s_len == bytes@.len(),
                capacity == self.buf@.len(),
                start + s_len < capacity,
                self.pos == start,
                self.buf@.len() == old(self).buf@.len(),
                forall|k: int| 0 <= k < start ==> self.buf@[k] == old(self).buf@[k],
                forall|k: int| 0 <= k < i ==> self.buf@[start + k] == bytes@[k],
                forall|k: int|
                    start + i <= k < self.buf@.len() ==> self.buf@[k] == old(self).buf@[k],
            decreases s_len - i,
        {
            self.buf[start + i] = bytes[i];
            i = i + 1;
        }
        self.pos = start + s_len;
        self.buf[start + s_len] = 0;
        proof {
            assert(self.text() =~= old(self).text() + s.spec_bytes());
        }
        Ok(())
    }
}

} // verus!
