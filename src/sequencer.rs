//! The AT command protocol: reading replies and the table that maps a
//! stage and a reply to the next command and stage.

use vstd::prelude::*;

verus! {

/// Not started: no command sent yet.
pub const STAGE_IDLE: usize = 0;

/// `AT?` sent; waiting for the modem to answer `OK`.
pub const STAGE_ATTENTION: usize = 1;

/// `AT+JOIN?` sent; waiting for `OK`.
pub const STAGE_JOINING: usize = 2;

/// `AT+NJS?` sent; polling until the modem reports `OK`.
pub const STAGE_POLLING: usize = 3;

/// Joined; waiting for the status `1` before sending data.
pub const STAGE_JOINED: usize = 4;

/// `AT+SEND=...` sent; waiting for the acknowledgment.
pub const STAGE_SENDING: usize = 5;

/// The data was acknowledged: nothing more to send.
pub const STAGE_DONE: usize = 6;

/// The four AT commands this console sends.
#[derive(Clone, Copy, Debug, PartialEq, Eq, Structural)]
pub enum Command {
    /// `AT?`
    Attention,
    /// `AT+JOIN?`
    Join,
    /// `AT+NJS?`
    NetworkStatus,
    /// `AT+SEND=50:Hello World`
    Send,
}

/// The bytes sent on the wire for a command, in ASCII codes.
pub open spec fn command_text(c: Command) -> Seq<u8> {
    match c {
        Command::Attention => seq![65u8, 84, 63],
        Command::Join => seq![65u8, 84, 43, 74, 79, 73, 78, 63],
        Command::NetworkStatus => seq![65u8, 84, 43, 78, 74, 83, 63],
        Command::Send => seq![
            65u8, 84, 43, 83, 69, 78, 68, 61, 53, 48, 58,
            72, 101, 108, 108, 111, 32, 87, 111, 114, 108, 100,
        ],
    }
}

/// Returns the bytes of `c` as sent on the wire.
pub fn command_bytes(c: Command) -> (r: Vec<u8>)
    ensures
        r@ == command_text(c),
{
    let r = match c {
        Command::Attention => vec![65u8, 84, 63],
        Command::Join => vec![65u8, 84, 43, 74, 79, 73, 78, 63],
        Command::NetworkStatus => vec![65u8, 84, 43, 78, 74, 83, 63],
        Command::Send => vec![
            65u8, 84, 43, 83, 69, 78, 68, 61, 53, 48, 58,
            72, 101, 108, 108, 111, 32, 87, 111, 114, 108, 100,
        ],
    };
    assert(r@ =~= command_text(c));
    r
}


/// The modem's answer to the last command, as far as the protocol cares.
#[derive(Clone, Copy, Debug, PartialEq, Eq, Structural)]
pub enum Reply {
    /// `OK`
    Okay,
    /// `0`: not joined yet
    NotJoined,
    /// `1`: joined
    Joined,
    /// anything else
    Other,
}

/// ASCII white space, as `str::trim` sees it: tab, line feed, vertical tab,
/// form feed, carriage return and space.
pub open spec fn is_space(b: u8) -> bool {
    b == 32 || (9 <= b && b <= 13)
}

/// `s` without its leading white space.
pub open spec fn trim_start(s: Seq<u8>) -> Seq<u8>
    decreases s.len(),
{
    if s.len() > 0 && is_space(s[0]) {
        trim_start(s.drop_first())
    } else {
        s
    }
}

/// `s` without its trailing white space.
pub open spec fn trim_end(s: Seq<u8>) -> Seq<u8>
    decreases s.len(),
{
    if s.len() > 0 && is_space(s.last()) {
        trim_end(s.drop_last())
    } else {
        s
    }
}

/// `s` without white space at either end.
pub open spec fn trim(s: Seq<u8>) -> Seq<u8> {
    trim_end(trim_start(s))
}

/// Whether a line decodes as ASCII text.
pub open spec fn is_text(s: Seq<u8>) -> bool {
    forall|i: int| 0 <= i < s.len() ==> s[i] < 128
}

/// The reply that a line of text carries: its trimmed text read as `OK`
/// (ASCII 79, 75), `0` (48), `1` (49) or something else.
pub open spec fn reply_of(s: Seq<u8>) -> Reply {
    let t = trim(s);
    if t.len() == 2 && t[0] == 79 && t[1] == 75 {
        Reply::Okay
    } else if t.len() == 1 && t[0] == 48 {
        Reply::NotJoined
    } else if t.len() == 1 && t[0] == 49 {
        Reply::Joined
    } else {
        Reply::Other
    }
}

/// What the sequencer does next: the command to send, if any, and the stage
/// that follows.
#[derive(Clone, Copy, Debug, PartialEq, Eq)]
pub struct Step {
    pub command: Option<Command>,
    pub next: usize,
}

/// The transition table. Stage 3 answers `0` by polling again without moving
/// on, and `OK` by polling once more and moving on; a reply that fits no row
/// restarts the protocol from `AT?`.
pub open spec fn transition(stage: usize, reply: Reply) -> Step {
    if stage == STAGE_ATTENTION && reply == Reply::Okay {
        Step { command: Some(Command::Join), next: STAGE_JOINING }
    } else if stage == STAGE_JOINING && reply == Reply::Okay {
        Step { command: Some(Command::NetworkStatus), next: STAGE_POLLING }
    } else if stage == STAGE_POLLING && reply == Reply::NotJoined {
        Step { command: Some(Command::NetworkStatus), next: STAGE_POLLING }
    } else if stage == STAGE_POLLING && reply == Reply::Okay {
        Step { command: Some(Command::NetworkStatus), next: STAGE_JOINED }
    } else if stage == STAGE_JOINED && reply == Reply::Joined {
        Step { command: Some(Command::Send), next: STAGE_SENDING }
    } else if stage == STAGE_SENDING && reply == Reply::Okay {
        Step { command: None, next: STAGE_DONE }
    } else {
        Step { command: Some(Command::Attention), next: STAGE_ATTENTION }
    }
}

/// Whether a step is the restart row of the table.
pub open spec fn is_restart(step: Step) -> bool {
    step.command == Some(Command::Attention)
}

/// What one completed line does to the sequencer.
#[derive(Clone, Copy, Debug, PartialEq, Eq)]
pub enum Outcome {
    /// The line was empty: nothing happens.
    Empty,
    /// The line is not ASCII text: it is discarded, nothing happens.
    Undecodable,
    /// The line was read as a reply and the table applied.
    Advance(Step),
}

/// The outcome of a completed line at a given stage.
pub open spec fn outcome_of(stage: usize, line: Seq<u8>) -> Outcome {
    if line.len() == 0 {
        Outcome::Empty
    } else if !is_text(line) {
        Outcome::Undecodable
    } else {
        Outcome::Advance(transition(stage, reply_of(line)))
    }
}

/// Returns the bounds of `line` without white space at either end.
fn trimmed_bounds(line: &[u8]) -> (r: (usize, usize))
    ensures
        r.0 <= r.1 <= line@.len(),
        line@.subrange(r.0 as int, r.1 as int) == trim(line@),
{
    let n = line.len();
    let mut a: usize = 0;
    assert(line@.subrange(0, n as int) =~= line@);
    while a < n && (line[a] == 32 || (9 <= line[a] && line[a] <= 13))
        invariant
            n == line@.len(),
            a <= n,
            trim_start(line@) == trim_start(line@.subrange(a as int, n as int)),
        decreases n - a,
    {
        assert(line@.subrange(a as int, n as int).drop_first() =~= line@.subrange(
            a + 1,
            n as int,
        ));
        a = a + 1;
    }
    let mut b: usize = n;
    while b > a && (line[b - 1] == 32 || (9 <= line[b - 1] && line[b - 1] <= 13))
        invariant
            n == line@.len(),
            a <= b <= n,
            trim(line@) == trim_end(line@.subrange(a as int, b as int)),
        decreases b,
    {
        assert(line@.subrange(a as int, b as int).drop_last() =~= line@.subrange(
            a as int,
            b - 1,
        ));
        b = b - 1;
    }
    (a, b)
}

/// Reads a line as a reply: trims white space and compares what is left
/// with `OK`, `0` and `1`.
pub fn classify(line: &[u8]) -> (r: Reply)
    ensures
        r == reply_of(line@),
{
    let (a, b) = trimmed_bounds(line);
    let len = b - a;
    if len == 2 && line[a] == 79 && line[a + 1] == 75 {
        Reply::Okay
    } else if len == 1 && line[a] == 48 {
        Reply::NotJoined
    } else if len == 1 && line[a] == 49 {
        Reply::Joined
    } else {
        Reply::Other
    }
}

/// Applies the transition table to a stage and a reply.
pub fn next_step(stage: usize, reply: Reply) -> (r: Step)
    ensures
        r == transition(stage, reply),
{
    match reply {
        Reply::Okay if stage == STAGE_ATTENTION => Step {
            command: Some(Command::Join),
            next: STAGE_JOINING,
        },
        Reply::Okay if stage == STAGE_JOINING => Step {
            command: Some(Command::NetworkStatus),
            next: STAGE_POLLING,
        },
        Reply::NotJoined if stage == STAGE_POLLING => Step {
            command: Some(Command::NetworkStatus),
            next: STAGE_POLLING,
        },
        Reply::Okay if stage == STAGE_POLLING => Step {
            command: Some(Command::NetworkStatus),
            next: STAGE_JOINED,
        },
        Reply::Joined if stage == STAGE_JOINED => Step {
            command: Some(Command::Send),
            next: STAGE_SENDING,
        },
        Reply::Okay if stage == STAGE_SENDING => Step { command: None, next: STAGE_DONE },
        _ => Step { command: Some(Command::Attention), next: STAGE_ATTENTION },
    }
}

/// Whether every byte of `line` is ASCII.
fn ascii_only(line: &[u8]) -> (r: bool)
    ensures
        r == is_text(line@),
{
    let mut i: usize = 0;
    while i < line.len()
        invariant
            i <= line@.len(),
            forall|j: int| 0 <= j < i ==> line@[j] < 128,
        decreases line@.len() - i,
    {
        if line[i] >= 128 {
            return false;
        }
        i = i + 1;
    }
    true
}

/// Decides what a completed line does at `stage`: an empty line and a line
/// that is not ASCII text change nothing; otherwise the trimmed text is read
/// as a reply and the transition table gives the command and next stage.
pub fn respond(stage: usize, line: &[u8]) -> (r: Outcome)
    ensures
        r == outcome_of(stage, line@),
{
    if line.len() == 0 {
        Outcome::Empty
    } else if !ascii_only(line) {
        Outcome::Undecodable
    } else {
        Outcome::Advance(next_step(stage, classify(line)))
    }
}

/// Responding is deterministic: two results that each meet the contract of
/// `respond` for the same stage and line are the same command and stage.
pub proof fn lemma_respond_deterministic(stage: usize, line: Seq<u8>, r1: Outcome, r2: Outcome)
    requires
        r1 == outcome_of(stage, line),
        r2 == outcome_of(stage, line),
    ensures
        r1 == r2,
{
}


/// Once the data has been sent, any text reply other than `OK` restarts the
/// protocol: `AT?` is sent again and the stage goes back to 1.
pub proof fn lemma_sending_mismatch_restarts(line: Seq<u8>)
    requires
        line.len() > 0,
        is_text(line),
        reply_of(line) != Reply::Okay,
    ensures
        outcome_of(STAGE_SENDING, line) == Outcome::Advance(
            Step { command: Some(Command::Attention), next: STAGE_ATTENTION },
        ),
{
}

} // verus!
