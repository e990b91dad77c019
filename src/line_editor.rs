//! Line editing: turns single bytes into a completed line, with backspace.

use vstd::prelude::*;

verus! {

/// Byte that completes a line (carriage return).
pub const CR: u8 = 13;

/// Byte that completes a line (line feed).
pub const LF: u8 = 10;

/// Byte that erases the last stored byte.
pub const BACKSPACE: u8 = 8;

/// The abstract state of a line editor: the whole buffer and the cursor.
pub struct LineView {
    pub bytes: Seq<u8>,
    pub cursor: nat,
}

/// What a well-formed line buffer looks like: room for at least the
/// terminator, the cursor inside the buffer, and a terminator under it.
pub open spec fn line_wf(v: LineView) -> bool {
    &&& v.bytes.len() >= 1
    &&& v.cursor < v.bytes.len()
    &&& v.bytes[v.cursor as int] == 0
}

/// Whether a byte completes a line.
pub open spec fn is_line_end(b: u8) -> bool {
    b == CR || b == LF
}

/// The effect of one incoming byte on the line buffer.
pub open spec fn edit(v: LineView, b: u8) -> LineView {
    if is_line_end(b) {
        v
    } else if b == BACKSPACE {
        if v.cursor > 0 {
            LineView { bytes: v.bytes.update(v.cursor - 1, 0), cursor: (v.cursor - 1) as nat }
        } else {
            v
        }
    } else if b < 128 && v.cursor + 1 < v.bytes.len() {
        LineView {
            bytes: v.bytes.update(v.cursor as int, b).update((v.cursor + 1) as int, 0),
            cursor: v.cursor + 1,
        }
    } else {
        v
    }
}

/// The text of a buffer: the bytes before its first terminator 0.
pub open spec fn text_of(s: Seq<u8>) -> Seq<u8>
    decreases s.len(),
{
    if s.len() == 0 || s[0] == 0 {
        Seq::empty()
    } else {
        seq![s[0]] + text_of(s.drop_first())
    }
}

/// The text of the line being edited.
pub open spec fn line_text(v: LineView) -> Seq<u8> {
    text_of(v.bytes)
}

/// The text is the prefix up to any position that holds the first 0.
proof fn lemma_text_at_terminator(s: Seq<u8>, t: int)
    requires
        0 <= t < s.len(),
        s[t] == 0,
        forall|j: int| 0 <= j < t ==> s[j] != 0,
    ensures
        text_of(s) == s.take(t),
    decreases t,
{
    if t > 0 {
        lemma_text_at_terminator(s.drop_first(), t - 1);
        assert(s.take(t) =~= seq![s[0]] + s.drop_first().take(t - 1));
    } else {
        assert(s.take(t) =~= Seq::<u8>::empty());
    }
}

/// A fixed-capacity line buffer with a cursor; the byte under the cursor is
/// always the terminator 0.
pub struct LineEditor {
    buf: Vec<u8>,
    cursor: usize,
}

impl View for LineEditor {
    type V = LineView;

    closed spec fn view(&self) -> LineView {
        LineView { bytes: self.buf@, cursor: self.cursor as nat }
    }
}

impl LineEditor {
    pub open spec fn wf(&self) -> bool {
        line_wf(self@)
    }

    /// Takes over `buf` as the line buffer, with the cursor at the start.
    pub fn new(buf: Vec<u8>) -> (r: Self)
        requires
            buf@.len() >= 1,
        ensures
            r.wf(),
            r@.cursor == 0,
            r@.bytes == buf@.update(0, 0),
    {
        let mut buf = buf;
        buf.set(0, 0);
        LineEditor { buf, cursor: 0 }
    }

    /// The cursor: where the next byte goes.
    pub fn cursor(&self) -> (r: usize)
        ensures
            r == self@.cursor,
    {
        self.cursor
    }

    /// Copies out the text of the line: the bytes before the first 0.
    pub fn text(&self) -> (r: Vec<u8>)
        requires
            self.wf(),
        ensures
            r@ == line_text(self@),
    {
        let n = self.buf.len();
        let mut t: usize = 0;
        while t < n && self.buf[t] != 0
            invariant
                self.wf(),
                n == self.buf@.len(),
                t <= n,
                forall|j: int| 0 <= j < t ==> self.buf@[j] != 0,
            decreases n - t,
        {
            t = t + 1;
        }
        if t == n {
            // the byte under the cursor is 0, so the scan stops before the end
            assert(self.buf@[self.cursor as int] == 0);
        }
        proof {
            lemma_text_at_terminator(self.buf@, t as int);
        }
        let mut r: Vec<u8> = Vec::new();
        let mut i: usize = 0;
        while i < t
            invariant
                t < n,
                n == self.buf@.len(),
                i <= t,
                r@ == self.buf@.take(i as int),
            decreases t - i,
        {
            r.push(self.buf[i]);
            i = i + 1;
            assert(r@ =~= self.buf@.take(i as int));
        }
        r
    }

    /// Empties the line: terminator at position 0, cursor at 0. Bytes past
    /// the terminator keep their stale values.
    pub fn clear(&mut self)
        requires
            old(self).wf(),
        ensures
            final(self).wf(),
            final(self)@ == (LineView { bytes: old(self)@.bytes.update(0, 0), cursor: 0 }),
            line_text(final(self)@) == Seq::<u8>::empty(),
    {
        self.buf.set(0, 0);
        self.cursor = 0;
        assert(line_text(self@) == Seq::<u8>::empty());
    }

    /// Feeds one byte; returns whether it completed a line.
    pub fn on_byte(&mut self, b: u8) -> (done: bool)
        requires
            old(self).wf(),
        ensures
            final(self).wf(),
            done == is_line_end(b),
            final(self)@ == edit(old(self)@, b),
    {
        if b == CR || b == LF {
            true
        } else if b == BACKSPACE {
            if self.cursor > 0 {
                self.cursor = self.cursor - 1;
                self.buf.set(self.cursor, 0);
            }
            false
        } else {
            if b < 128 && self.cursor < self.buf.len() - 1 {
                self.buf.set(self.cursor, b);
                self.cursor = self.cursor + 1;
                self.buf.set(self.cursor, 0);
            }
            false
        }
    }
}


/// A backspace with nothing before the cursor leaves the buffer and the
/// cursor as they were.
pub proof fn lemma_backspace_at_start(v: LineView)
    requires
        line_wf(v),
        v.cursor == 0,
    ensures
        edit(v, BACKSPACE) == v,
{
}

} // verus!
