use byteorder::{ByteOrder, LittleEndian};
use vstd::prelude::*;
use vstd::slice::slice_subrange;

verus! {

/// The little-endian 16-bit value held by the first two bytes of `b`.
pub open spec fn le_u16(b: Seq<u8>) -> nat {
    b[0] as nat + 256 * (b[1] as nat)
}

/// Relies on byteorder's `LittleEndian::read_u16`: the little-endian value of
/// the first two bytes; it panics on fewer than two bytes.
#[verifier::external_body]
fn read_le_u16(buf: &[u8]) -> (r: u16)
    requires
        buf@.len() >= 2,
    ensures
        r as nat == le_u16(buf@),
{
    LittleEndian::read_u16(buf)
}

/// The one error of the splitter: a record declares more bytes than remain.
#[derive(Debug, PartialEq, Eq, Structural)]
pub enum FrameReaderError {
    InvalidFrameLength(usize),
}

/// One item of the sequence a splitter produces: a payload, or the length
/// that overran the buffer.
pub enum FrameItem {
    Payload(Seq<u8>),
    Invalid(nat),
}

/// The items that remain to be produced from `buf` with the cursor at `c`.
/// A record is a little-endian 16-bit length followed by that many bytes.
/// Fewer than two bytes left end the sequence, and a record that overruns the
/// buffer ends it with one error.
pub open spec fn items_from(buf: Seq<u8>, c: nat) -> Seq<FrameItem>
    decreases buf.len() - c,
{
    if c + 2 > buf.len() {
        seq![]
    } else {
        let len = le_u16(buf.subrange(c as int, buf.len() as int));
        let to = c + 2 + len;
        if to > buf.len() {
            seq![FrameItem::Invalid(len)]
        } else {
            seq![FrameItem::Payload(buf.subrange((c + 2) as int, to as int))] + items_from(buf, to)
        }
    }
}

/// Walks a buffer of length-prefixed records, yielding each payload in turn
/// without copying.
pub struct FrameReader<'a> {
    cursor: usize,
    buffer: &'a [u8],
}

impl<'a> FrameReader<'a> {
    pub closed spec fn spec_cursor(&self) -> nat {
        self.cursor as nat
    }

    pub closed spec fn spec_buffer(&self) -> Seq<u8> {
        self.buffer@
    }

    pub open spec fn wf(&self) -> bool {
        self.spec_cursor() <= self.spec_buffer().len()
    }

    /// The items this reader has yet to yield.
    pub open spec fn remaining(&self) -> Seq<FrameItem> {
        items_from(self.spec_buffer(), self.spec_cursor())
    }

    pub fn new(buffer: &'a [u8]) -> (r: Self)
        ensures
            r.wf(),
            r.spec_buffer() == buffer@,
            r.spec_cursor() == 0,
            r.remaining() == items_from(buffer@, 0),
    {
        FrameReader { cursor: 0, buffer }
    }

    /// Yields the next payload, or the error that ends the sequence, or
    /// `None` once the sequence is over. After an error the reader is spent.
    pub fn next(&mut self) -> (r: Option<Result<&'a [u8], FrameReaderError>>)
        requires
            old(self).wf(),
        ensures
            final(self).wf(),
            final(self).spec_buffer() == old(self).spec_buffer(),
            match r {
                None => old(self).remaining().len() == 0 && final(self).remaining().len() == 0,
                Some(Ok(s)) => old(self).remaining() == seq![FrameItem::Payload(s@)] + final(self).remaining(),
                Some(Err(FrameReaderError::InvalidFrameLength(n))) =>
                    old(self).remaining() == seq![FrameItem::Invalid(n as nat)]
                    && final(self).remaining().len() == 0,
            },
    {
        let n = self.buffer.len();
        if self.cursor >= n || n - self.cursor < 2 {
            return None;
        }
        let from = self.cursor + 2;
        let rest = slice_subrange(self.buffer, self.cursor, n);
        let len = read_le_u16(rest) as usize;
        if len > n - from {
            self.cursor = n;
            return Some(Err(FrameReaderError::InvalidFrameLength(len)));
        }
        let to = from + len;
        let slice = slice_subrange(self.buffer, from, to);
        self.cursor = to;
        Some(Ok(slice))
    }
}

} // verus!
