//! Assembly of a console: its buffers and its capability.

use vstd::prelude::*;

use crate::console::{ConsoleView, LoraConsole};
use crate::line_editor::LineView;

verus! {

/// The permission to run the modem console. Only the board's assembly code
/// creates one, and a console cannot be built without it.
#[derive(Clone, Copy, Debug)]
pub struct Capability;


/// Size of the transmit buffer.
pub const WRITE_BUF_LEN: usize = 50;

/// Size of the receive buffer; reads are one byte at a time.
pub const READ_BUF_LEN: usize = 25;

/// Size of the command line buffer, terminator included.
pub const COMMAND_BUF_LEN: usize = 32;

/// Assembles a console: allocates its buffers once and hands it the
/// capability. Wiring the console to a transport is left to the caller.
#[derive(Debug)]
pub struct LoraConsoleComponent;

/// A buffer of `n` zero bytes.
fn zeroed(n: usize) -> (r: Vec<u8>)
    ensures
        r@ == Seq::new(n as nat, |i: int| 0u8),
{
    let mut r: Vec<u8> = Vec::new();
    let mut i: usize = 0;
    while i < n
        invariant
            i <= n,
            r@ == Seq::new(i as nat, |j: int| 0u8),
        decreases n - i,
    {
        r.push(0);
        i = i + 1;
        assert(r@ =~= Seq::new(i as nat, |j: int| 0u8));
    }
    r
}

impl LoraConsoleComponent {
    pub fn new() -> (r: Self) {
        LoraConsoleComponent
    }

    /// Builds the console with zeroed buffers of the fixed sizes; it is not
    /// started yet.
    pub fn finalize(self) -> (r: LoraConsole)
        ensures
            r.wf(),
            r@ == (ConsoleView {
                tx: Some(Seq::new(WRITE_BUF_LEN as nat, |i: int| 0u8)),
                rx: Some(Seq::new(READ_BUF_LEN as nat, |i: int| 0u8)),
                line: LineView { bytes: Seq::new(COMMAND_BUF_LEN as nat, |i: int| 0u8), cursor: 0 },
                running: false,
                stage: 0,
            }),
    {
        let cmd = zeroed(COMMAND_BUF_LEN);
        let r = LoraConsole::new(zeroed(WRITE_BUF_LEN), zeroed(READ_BUF_LEN), cmd, Capability);
        assert(cmd@.update(0, 0) =~= Seq::new(COMMAND_BUF_LEN as nat, |i: int| 0u8));
        r
    }
}

} // verus!
