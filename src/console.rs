//! The console as a state machine over transport events: each event
//! updates the state and returns the transfers the caller must start.

use vstd::prelude::*;

use crate::component::Capability;
use crate::line_editor::{LineEditor, LineView, edit, is_line_end, line_text, line_wf};
use crate::sequencer::{
    Command, Outcome, STAGE_ATTENTION, STAGE_DONE, command_bytes, command_text, is_restart,
    outcome_of, respond,
};
use crate::slot::Slot;

verus! {

/// A fault that the transport reports with a received byte.
#[derive(Clone, Copy, Debug, PartialEq, Eq, Structural)]
pub enum UartError {
    ParityError,
    FramingError,
    OverrunError,
    RepeatCallError,
    ResetError,
    Aborted,
}

/// A buffer handed to the transport, with the number of bytes to move.
#[derive(Debug)]
pub struct Transfer {
    pub buffer: Vec<u8>,
    pub len: usize,
}

/// A transfer as bytes and a length.
pub struct TransferView {
    pub buffer: Seq<u8>,
    pub len: nat,
}

impl View for Transfer {
    type V = TransferView;

    open spec fn view(&self) -> TransferView {
        TransferView { buffer: self.buffer@, len: self.len as nat }
    }
}

/// The view of an optional transfer.
pub open spec fn transfer_view(t: Option<Transfer>) -> Option<TransferView> {
    match t {
        Some(t) => Some(t@),
        None => None,
    }
}

/// Something worth logging that happened while handling an event.
#[derive(Clone, Copy, Debug, PartialEq, Eq, Structural)]
pub enum Note {
    /// The modem acknowledged the data.
    DataSent,
    /// A reply fit no row of the table: the protocol starts over.
    Restart,
    /// A completed line was not ASCII text and was discarded.
    InvalidLine,
}

/// What the caller must do after an event: start a receive, start a
/// transmit, and log a note, each if present.
#[derive(Debug)]
pub struct Requests {
    pub receive: Option<Transfer>,
    pub transmit: Option<Transfer>,
    pub note: Option<Note>,
}

/// Requests as plain values.
pub struct RequestsView {
    pub receive: Option<TransferView>,
    pub transmit: Option<TransferView>,
    pub note: Option<Note>,
}

impl View for Requests {
    type V = RequestsView;

    open spec fn view(&self) -> RequestsView {
        RequestsView {
            receive: transfer_view(self.receive),
            transmit: transfer_view(self.transmit),
            note: self.note,
        }
    }
}

/// The returned value when no transmit buffer is free.
#[derive(Clone, Copy, Debug, PartialEq, Eq, Structural)]
pub struct SlotBusy;

/// The abstract state of a console.
pub struct ConsoleView {
    /// The transmit buffer, if it is held here.
    pub tx: Option<Seq<u8>>,
    /// The receive buffer, if it is held here.
    pub rx: Option<Seq<u8>>,
    /// The line being edited.
    pub line: LineView,
    /// Whether the receive loop has been started.
    pub running: bool,
    /// The protocol stage.
    pub stage: usize,
}

/// How many bytes of `cmd` fit in `buf`.
pub open spec fn copy_len(buf: Seq<u8>, cmd: Seq<u8>) -> nat {
    if cmd.len() <= buf.len() {
        cmd.len()
    } else {
        buf.len()
    }
}

/// `buf` with as much of `cmd` as fits copied to its front; the rest of
/// the command is cut off.
pub open spec fn loaded(buf: Seq<u8>, cmd: Seq<u8>) -> Seq<u8> {
    let k = copy_len(buf, cmd) as int;
    cmd.take(k) + buf.skip(k)
}

/// Sending a command: with the transmit buffer held, the command goes into
/// it and the buffer to the transport; without it, nothing happens.
pub open spec fn send_spec(v: ConsoleView, c: Command) -> (ConsoleView, Option<TransferView>) {
    match v.tx {
        Some(b) => (
            ConsoleView { tx: None, ..v },
            Some(
                TransferView {
                    buffer: loaded(b, command_text(c)),
                    len: copy_len(b, command_text(c)),
                },
            ),
        ),
        None => (v, None),
    }
}

/// The transport hands the transmit buffer back.
pub open spec fn transmitted_spec(v: ConsoleView, buf: Seq<u8>) -> ConsoleView {
    ConsoleView { tx: Some(buf), ..v }
}


/// Starting: arm the first one-byte read unless already running, try to
/// send `AT?`, and enter stage 1 whether or not the send went out.
pub open spec fn start_spec(v: ConsoleView) -> (ConsoleView, RequestsView) {
    let (v1, rx) = if !v.running && v.rx is Some {
        (ConsoleView { rx: None, running: true, ..v }, Some(TransferView { buffer: v.rx.unwrap(), len: 1 }))
    } else {
        (v, None)
    };
    let (v2, tx) = send_spec(v1, Command::Attention);
    (ConsoleView { stage: STAGE_ATTENTION, ..v2 }, RequestsView { receive: rx, transmit: tx, note: None })
}

/// The line buffer emptied: terminator at 0, cursor at 0.
pub open spec fn cleared(l: LineView) -> LineView {
    LineView { bytes: l.bytes.update(0, 0), cursor: 0 }
}

/// Handling a completed line. An empty line does nothing; a line that is
/// not text is discarded with a note. Otherwise the table gives the step:
/// with no command the stage just moves on; with a command, the stage moves
/// on only if the command went out, and a command dropped for want of a
/// free buffer leaves the stage as it was. The line is cleared in all cases.
pub open spec fn line_spec(v: ConsoleView) -> (ConsoleView, Option<TransferView>, Option<Note>) {
    let w = ConsoleView { line: cleared(v.line), ..v };
    match outcome_of(v.stage, line_text(v.line)) {
        Outcome::Empty => (w, None, None),
        Outcome::Undecodable => (w, None, Some(Note::InvalidLine)),
        Outcome::Advance(step) => match step.command {
            None => (ConsoleView { stage: step.next, ..w }, None, Some(Note::DataSent)),
            Some(c) => {
                let (w1, tx) = send_spec(w, c);
                let note = if is_restart(step) {
                    Some(Note::Restart)
                } else {
                    None
                };
                if tx is Some {
                    (ConsoleView { stage: step.next, ..w1 }, tx, note)
                } else {
                    (w1, tx, note)
                }
            },
        },
    }
}

/// Whether a receive completion delivers a byte to the line editor: no
/// fault, exactly one byte, and a buffer that holds it.
pub open spec fn delivers(buf: Seq<u8>, len: usize, error: Option<UartError>) -> bool {
    error is None && len == 1 && buf.len() >= 1
}

/// Handling a receive completion: the buffer always goes straight back to
/// the transport for the next one-byte read; a delivered byte is edited
/// into the line, and a line end hands the line to the sequencer.
pub open spec fn received_spec(v: ConsoleView, buf: Seq<u8>, len: usize, error: Option<UartError>) -> (
    ConsoleView,
    RequestsView,
) {
    let rx = Some(TransferView { buffer: buf, len: 1 });
    if delivers(buf, len, error) {
        let v1 = ConsoleView { line: edit(v.line, buf[0]), ..v };
        if is_line_end(buf[0]) {
            let (v2, tx, note) = line_spec(v1);
            (v2, RequestsView { receive: rx, transmit: tx, note })
        } else {
            (v1, RequestsView { receive: rx, transmit: None, note: None })
        }
    } else {
        (v, RequestsView { receive: rx, transmit: None, note: None })
    }
}

/// The modem console: a line editor, a protocol stage, and one transmit
/// and one receive buffer slot.
pub struct LoraConsole {
    tx: Slot,
    rx: Slot,
    line: LineEditor,
    running: bool,
    stage: usize,
    /// Held only to show that the console was built with permission.
    capability: Capability,
}

/// What every console satisfies: a well-formed line and a stage of the table.
pub open spec fn console_wf(v: ConsoleView) -> bool {
    line_wf(v.line) && v.stage <= STAGE_DONE
}

impl View for LoraConsole {
    type V = ConsoleView;

    closed spec fn view(&self) -> ConsoleView {
        ConsoleView {
            tx: self.tx@,
            rx: self.rx@,
            line: self.line@,
            running: self.running,
            stage: self.stage,
        }
    }
}

impl LoraConsole {
    pub open spec fn wf(&self) -> bool {
        console_wf(self@)
    }

    /// A console that owns the three buffers, not yet started. The command
    /// buffer must hold at least the terminator.
    pub fn new(tx_buffer: Vec<u8>, rx_buffer: Vec<u8>, cmd_buffer: Vec<u8>, capability: Capability) -> (r: Self)
        requires
            cmd_buffer@.len() >= 1,
        ensures
            r.wf(),
            r@ == (ConsoleView {
                tx: Some(tx_buffer@),
                rx: Some(rx_buffer@),
                line: LineView { bytes: cmd_buffer@.update(0, 0), cursor: 0 },
                running: false,
                stage: 0,
            }),
    {
        LoraConsole {
            tx: Slot::new(tx_buffer),
            rx: Slot::new(rx_buffer),
            line: LineEditor::new(cmd_buffer),
            running: false,
            stage: 0,
            capability,
        }
    }

    /// The protocol stage.
    pub fn stage(&self) -> (r: usize)
        ensures
            r == self@.stage,
    {
        self.stage
    }

    /// Whether a transmit is in flight, that is, the transmit buffer is
    /// held by the transport.
    pub fn tx_busy(&self) -> (r: bool)
        ensures
            r == (self@.tx is None),
    {
        !self.tx.is_held()
    }

    /// Copies `c` into the free transmit buffer and hands it out, cutting
    /// the command off at the buffer's length. Fails with `SlotBusy`, and
    /// changes nothing, when the buffer is with the transport.
    pub fn enqueue_command(&mut self, c: Command) -> (r: Result<Transfer, SlotBusy>)
        requires
            old(self).wf(),
        ensures
            final(self).wf(),
            old(self)@.tx is None ==> r is Err && final(self)@ == old(self)@,
            old(self)@.tx is Some ==> r is Ok && (final(self)@, Some(r.unwrap()@)) == send_spec(old(self)@, c),
    {
        match self.tx.take() {
            None => Err(SlotBusy),
            Some(buf) => {
                let mut buf = buf;
                let cmd = command_bytes(c);
                let k: usize = if cmd.len() <= buf.len() {
                    cmd.len()
                } else {
                    buf.len()
                };
                let ghost orig = buf@;
                let mut i: usize = 0;
                while i < k
                    invariant
                        k <= cmd@.len(),
                        k <= orig.len(),
                        i <= k,
                        buf@.len() == orig.len(),
                        forall|j: int| 0 <= j < i ==> buf@[j] == cmd@[j],
                        forall|j: int| i <= j < orig.len() ==> buf@[j] == orig[j],
                    decreases k - i,
                {
                    buf.set(i, cmd[i]);
                    i = i + 1;
                }
                assert(buf@ =~= loaded(orig, command_text(c)));
                Ok(Transfer { buffer: buf, len: k })
            },
        }
    }

    /// The transport returns the transmit buffer. Nothing else happens: the
    /// next command waits for the next completed line.
    pub fn transmitted_buffer(&mut self, buffer: Vec<u8>)
        requires
            old(self).wf(),
        ensures
            final(self).wf(),
            final(self)@ == transmitted_spec(old(self)@, buffer@),
    {
        self.tx.put(buffer);
    }

    /// Starts the console: arms the first one-byte read unless already
    /// running, tries to send `AT?`, and enters stage 1 even when no
    /// transmit buffer was free.
    pub fn start(&mut self) -> (r: Requests)
        requires
            old(self).wf(),
        ensures
            final(self).wf(),
            (final(self)@, r@) == start_spec(old(self)@),
    {
        let mut receive: Option<Transfer> = None;
        if !self.running {
            match self.rx.take() {
                Some(buffer) => {
                    receive = Some(Transfer { buffer, len: 1 });
                    self.running = true;
                },
                None => {},
            }
        }
        let transmit = match self.enqueue_command(Command::Attention) {
            Ok(t) => Some(t),
            Err(_) => None,
        };
        self.stage = STAGE_ATTENTION;
        Requests { receive, transmit, note: None }
    }

    /// Runs the completed line through the sequencer, sends what it asks
    /// for, and clears the line.
    fn read_command(&mut self) -> (r: (Option<Transfer>, Option<Note>))
        requires
            old(self).wf(),
        ensures
            final(self).wf(),
            (final(self)@, transfer_view(r.0), r.1) == line_spec(old(self)@),
    {
        let text = self.line.text();
        let result = match respond(self.stage, text.as_slice()) {
            Outcome::Empty => (None, None),
            Outcome::Undecodable => (None, Some(Note::InvalidLine)),
            Outcome::Advance(step) => match step.command {
                None => {
                    self.stage = step.next;
                    (None, Some(Note::DataSent))
                },
                Some(c) => {
                    let note = if c == Command::Attention {
                        Some(Note::Restart)
                    } else {
                        None
                    };
                    match self.enqueue_command(c) {
                        Ok(t) => {
                            self.stage = step.next;
                            (Some(t), note)
                        },
                        Err(_) => (None, note),
                    }
                },
            },
        };
        self.line.clear();
        result
    }

    /// The transport completed a one-byte read. Without a fault, and with
    /// exactly one byte, the byte goes to the line editor; a line end runs
    /// the line through the sequencer. The buffer always goes back to the
    /// transport for the next read, whatever happened.
    pub fn received_buffer(&mut self, read_buf: Vec<u8>, rx_len: usize, error: Option<UartError>) -> (r: Requests)
        requires
            old(self).wf(),
        ensures
            final(self).wf(),
            (final(self)@, r@) == received_spec(old(self)@, read_buf@, rx_len, error),
            r.receive is Some,
    {
        let mut transmit: Option<Transfer> = None;
        let mut note: Option<Note> = None;
        if error.is_none() && rx_len == 1 && read_buf.len() >= 1 {
            let done = self.line.on_byte(read_buf[0]);
            if done {
                let (t, n) = self.read_command();
                transmit = t;
                note = n;
            }
        }
        Requests { receive: Some(Transfer { buffer: read_buf, len: 1 }), transmit, note }
    }
}


/// A line end with no bytes before it sends nothing and leaves the stage
/// as it was.
pub proof fn lemma_empty_line_sends_nothing(v: ConsoleView, buf: Seq<u8>)
    requires
        console_wf(v),
        line_text(v.line) == Seq::<u8>::empty(),
        buf.len() == 1,
        is_line_end(buf[0]),
    ensures
        received_spec(v, buf, 1, None).0.stage == v.stage,
        received_spec(v, buf, 1, None).1.transmit is None,
{
}

/// A one-byte read completion as the transport reports it.
pub struct ByteEvent {
    pub buffer: Seq<u8>,
    pub len: usize,
    pub error: Option<UartError>,
}

/// How many of the requests in a run ask for a receive.
pub open spec fn rearm_count(outs: Seq<RequestsView>) -> nat
    decreases outs.len(),
{
    if outs.len() == 0 {
        0
    } else {
        rearm_count(outs.drop_last()) + if outs.last().receive is Some {
            1nat
        } else {
            0nat
        }
    }
}

proof fn lemma_rearm_count_all(outs: Seq<RequestsView>)
    requires
        forall|i: int| 0 <= i < outs.len() ==> outs[i].receive is Some,
    ensures
        rearm_count(outs) == outs.len(),
    decreases outs.len(),
{
    if outs.len() > 0 {
        lemma_rearm_count_all(outs.drop_last());
    }
}

/// The receive loop never stalls: a console that has not been started and
/// holds its receive buffer, started once and then given any `N` receive
/// completions, faulty or not, has asked for a read exactly `N + 1` times.
/// `states[0]` is the console before `start`, `outs[0]` what `start`
/// returned, and `states[i + 1]`, `outs[i + 1]` follow the `i`-th event.
pub proof fn lemma_receive_liveness(states: Seq<ConsoleView>, outs: Seq<RequestsView>, events: Seq<ByteEvent>)
    requires
        states.len() == events.len() + 2,
        outs.len() == events.len() + 1,
        !states[0].running,
        states[0].rx is Some,
        (states[1], outs[0]) == start_spec(states[0]),
        forall|i: int|
            0 <= i < events.len() ==> (states[i + 2], outs[i + 1]) == received_spec(
                states[i + 1],
                events[i].buffer,
                events[i].len,
                events[i].error,
            ),
    ensures
        rearm_count(outs) == events.len() + 1,
{
    assert forall|i: int| 0 <= i < outs.len() implies outs[i].receive is Some by {
        if i > 0 {
            assert((states[i + 1], outs[i]) == received_spec(
                states[i],
                events[i - 1].buffer,
                events[i - 1].len,
                events[i - 1].error,
            ));
        }
    }
    lemma_rearm_count_all(outs);
}

} // verus!
