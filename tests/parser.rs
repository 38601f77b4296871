use gdbstub::parse::{parse_command, Command, PacketParseError};
use gdbstub::protocol::{qRegisterInfo, Base, HOp, IdKind, SpecificIdKind, SpecificThreadId, ThreadId, VContKind};

fn base(b: &[u8]) -> Base {
    match parse_command(b) {
        Ok(Command::Base(cmd)) => cmd,
        other => panic!("not a base command: {:?}", other),
    }
}

fn malformed(b: &[u8]) -> bool {
    matches!(parse_command(b), Err(PacketParseError::MalformedCommand))
}

#[test]
fn parses_handshake_packets() {
    assert!(matches!(base(b"qSupported:multiprocess+;swbreak+"), Base::qSupported));
    assert!(matches!(base(b"QStartNoAckMode"), Base::QStartNoAckMode));
    assert!(matches!(base(b"?"), Base::QuestionMark));
    assert!(matches!(base(b"qAttached"), Base::qAttached(None)));
    assert!(matches!(base(b"qAttached:1f"), Base::qAttached(Some(0x1f))));
    assert!(matches!(base(b"qXfer:features:read:target.xml:10,200"), Base::qXferFeaturesRead { offset: 0x10, length: 0x200 }));
    assert!(malformed(b"qXfer:features:read:target.xml"));
}

#[test]
fn parses_register_and_memory_packets() {
    assert!(matches!(base(b"g"), Base::g));
    match base(b"G0001ff") {
        Base::G(v) => assert_eq!(v, vec![0, 1, 0xff]),
        _ => panic!(),
    }
    assert!(malformed(b"G0"));
    assert!(matches!(base(b"mDEADBEEF,40"), Base::m { addr: 0xdeadbeef, len: 0x40 }));
    match base(b"M1000,2:abcd") {
        Base::M { addr, val } => assert_eq!((addr, val), (0x1000, vec![0xab, 0xcd])),
        _ => panic!(),
    }
    assert!(malformed(b"m1000"));
    assert!(malformed(b"M1000,2"));
}

#[test]
fn parses_thread_packets() {
    assert!(matches!(base(b"Hg0"), Base::H { op: HOp::Other, thread: ThreadId { pid: None, tid: IdKind::Any } }));
    assert!(matches!(base(b"Hc-1"), Base::H { op: HOp::StepContinue, thread: ThreadId { pid: None, tid: IdKind::All } }));
    assert!(matches!(
        base(b"Hgp1.2"),
        Base::H { op: HOp::Other, thread: ThreadId { pid: Some(IdKind::WithId(1)), tid: IdKind::WithId(2) } }
    ));
    assert!(malformed(b"Hx1"));
    assert!(matches!(base(b"T3"), Base::T(ThreadId { pid: None, tid: IdKind::WithId(3) })));
    assert!(matches!(base(b"qfThreadInfo"), Base::qfThreadInfo));
    assert!(matches!(base(b"qsThreadInfo"), Base::qsThreadInfo));
}

#[test]
fn parses_resume_packets() {
    assert!(matches!(base(b"c"), Base::c));
    assert!(matches!(base(b"s1000"), Base::s));
    assert!(matches!(base(b"vCont?"), Base::vContQuery));
    match base(b"vCont;s:p1.2;C05;r10,20:3;x") {
        Base::vCont(actions) => {
            assert_eq!(actions.len(), 4);
            let a0 = actions[0].unwrap();
            assert_eq!(a0.kind, VContKind::Step);
            assert_eq!(a0.thread, Some(SpecificThreadId { pid: Some(SpecificIdKind::WithId(1)), tid: SpecificIdKind::WithId(2) }));
            assert_eq!(actions[1].unwrap().kind, VContKind::ContinueWithSig(5));
            assert_eq!(actions[1].unwrap().thread, None);
            assert_eq!(actions[2].unwrap().kind, VContKind::RangeStep(0x10, 0x20));
            assert!(actions[3].is_none());
        }
        _ => panic!(),
    }
}

#[test]
fn parses_session_packets() {
    assert!(matches!(base(b"k"), Base::k));
    assert!(matches!(base(b"vKill;a"), Base::vKill(10)));
    assert!(matches!(base(b"D"), Base::D));
    assert!(matches!(base(b"D;1"), Base::D));
    assert!(matches!(parse_command(b"qRegisterInfo3"), Ok(Command::RegisterInfo(qRegisterInfo(3)))));
    assert!(malformed(b"qRegisterInfoz"));
}

#[test]
fn unknown_packets_are_not_errors() {
    assert!(matches!(parse_command(b"qTStatus"), Ok(Command::Unknown)));
    assert!(matches!(parse_command(b""), Ok(Command::Unknown)));
    assert!(matches!(parse_command(b"Z0,1000,4"), Ok(Command::Unknown)));
}
