use lora_console::sequencer::{
    classify, next_step, respond, Command, Outcome, Reply, Step, STAGE_ATTENTION, STAGE_DONE,
    STAGE_JOINED, STAGE_JOINING, STAGE_POLLING, STAGE_SENDING,
};

#[test]
fn classify_reads_trimmed_replies() {
    assert_eq!(classify(b"OK"), Reply::Okay);
    assert_eq!(classify(b" OK \r\n"), Reply::Okay);
    assert_eq!(classify(b"\t\x0b\x0cOK"), Reply::Okay);
    assert_eq!(classify(b"0"), Reply::NotJoined);
    assert_eq!(classify(b" 0 "), Reply::NotJoined);
    assert_eq!(classify(b"1\r"), Reply::Joined);
    assert_eq!(classify(b"ok"), Reply::Other);
    assert_eq!(classify(b"O K"), Reply::Other);
    assert_eq!(classify(b"OKAY"), Reply::Other);
    assert_eq!(classify(b"10"), Reply::Other);
    assert_eq!(classify(b""), Reply::Other);
    assert_eq!(classify(b"   "), Reply::Other);
}

#[test]
fn table_rows() {
    let step = |c, n| Step { command: c, next: n };
    assert_eq!(next_step(STAGE_ATTENTION, Reply::Okay), step(Some(Command::Join), STAGE_JOINING));
    assert_eq!(next_step(STAGE_JOINING, Reply::Okay), step(Some(Command::NetworkStatus), STAGE_POLLING));
    assert_eq!(next_step(STAGE_POLLING, Reply::NotJoined), step(Some(Command::NetworkStatus), STAGE_POLLING));
    assert_eq!(next_step(STAGE_POLLING, Reply::Okay), step(Some(Command::NetworkStatus), STAGE_JOINED));
    assert_eq!(next_step(STAGE_JOINED, Reply::Joined), step(Some(Command::Send), STAGE_SENDING));
    assert_eq!(next_step(STAGE_SENDING, Reply::Okay), step(None, STAGE_DONE));
    let restart = step(Some(Command::Attention), STAGE_ATTENTION);
    assert_eq!(next_step(0, Reply::Okay), restart);
    assert_eq!(next_step(STAGE_JOINED, Reply::Okay), restart);
    assert_eq!(next_step(STAGE_POLLING, Reply::Joined), restart);
    assert_eq!(next_step(STAGE_SENDING, Reply::Other), restart);
    assert_eq!(next_step(STAGE_DONE, Reply::Okay), restart);
}

#[test]
fn respond_is_deterministic() {
    let lines: [&[u8]; 6] = [b"OK\r", b"0", b"1", b"ERROR", b"", &[0xC3, 0xA9]];
    for stage in 0..=STAGE_DONE {
        for line in lines {
            assert_eq!(respond(stage, line), respond(stage, line));
        }
    }
}

#[test]
fn respond_from_stage_one_ok() {
    assert_eq!(
        respond(STAGE_ATTENTION, b"OK\r"),
        Outcome::Advance(Step { command: Some(Command::Join), next: STAGE_JOINING })
    );
}

#[test]
fn respond_from_stage_three() {
    assert_eq!(
        respond(STAGE_POLLING, b"0\r"),
        Outcome::Advance(Step { command: Some(Command::NetworkStatus), next: STAGE_POLLING })
    );
    assert_eq!(
        respond(STAGE_POLLING, b"OK\r"),
        Outcome::Advance(Step { command: Some(Command::NetworkStatus), next: STAGE_JOINED })
    );
}

#[test]
fn respond_from_stage_five_error() {
    assert_eq!(
        respond(STAGE_SENDING, b"ERROR\r"),
        Outcome::Advance(Step { command: Some(Command::Attention), next: STAGE_ATTENTION })
    );
}

#[test]
fn respond_empty_and_undecodable() {
    assert_eq!(respond(STAGE_JOINING, b""), Outcome::Empty);
    assert_eq!(respond(STAGE_JOINING, &[b'O', 0xC3, b'K']), Outcome::Undecodable);
    assert_eq!(respond(STAGE_JOINING, &[0x80]), Outcome::Undecodable);
}
