//! Single-buffer slots that pass an I/O buffer to and from the transport.

use vstd::prelude::*;

verus! {

/// A container for at most one I/O buffer. A buffer is either held here or
/// handed to the transport, never both: taking it empties the slot, and the
/// transport's completion puts it back.
pub struct Slot {
    buf: Option<Vec<u8>>,
}

/// The contents of a slot, as bytes.
pub open spec fn held_bytes(o: Option<Vec<u8>>) -> Option<Seq<u8>> {
    match o {
        Some(v) => Some(v@),
        None => None,
    }
}

impl View for Slot {
    type V = Option<Seq<u8>>;

    closed spec fn view(&self) -> Option<Seq<u8>> {
        held_bytes(self.buf)
    }
}

impl Slot {
    /// A slot that holds `buf`.
    pub fn new(buf: Vec<u8>) -> (r: Self)
        ensures
            r@ == Some(buf@),
    {
        Slot { buf: Some(buf) }
    }

    /// Whether the buffer is held here.
    pub fn is_held(&self) -> (r: bool)
        ensures
            r == self@ is Some,
    {
        self.buf.is_some()
    }

    /// Takes the buffer out, leaving the slot empty.
    pub fn take(&mut self) -> (r: Option<Vec<u8>>)
        ensures
            final(self)@ == None::<Seq<u8>>,
            held_bytes(r) == old(self)@,
    {
        let mut out: Option<Vec<u8>> = None;
        std::mem::swap(&mut out, &mut self.buf);
        out
    }

    /// Puts a buffer back into the slot.
    pub fn put(&mut self, buf: Vec<u8>)
        ensures
            final(self)@ == Some(buf@),
    {
        self.buf = Some(buf);
    }
}

} // verus!
