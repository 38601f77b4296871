use gdbstub::codec::{FeedEvent, FramePhase, Framer};
use gdbstub::protocol::{SpecificIdKind, SpecificThreadId};
use gdbstub::response::{ResponseWriter, WriteError};
use gdbstub::session::{error_reply, reply_for_error};
use gdbstub::stub::Error;

fn feed_all(framer: &mut Framer, bytes: &[u8]) -> Vec<String> {
    let mut out = Vec::new();
    for b in bytes {
        match framer.feed(*b) {
            FeedEvent::Pending => {}
            FeedEvent::Interrupt => out.push("interrupt".to_string()),
            FeedEvent::Frame(f) => out.push(String::from_utf8(f).unwrap()),
        }
    }
    out
}

#[test]
fn framer_skips_acks_and_yields_frames() {
    let mut framer = Framer::new();
    let events = feed_all(&mut framer, b"+$g#67-+$qSupported:xmlRegisters=i386#6a");
    assert_eq!(events, vec!["$g#67".to_string(), "$qSupported:xmlRegisters=i386#6a".to_string()]);
    assert_eq!(framer.phase, FramePhase::Idle);
    assert!(framer.buf.is_empty());
}

#[test]
fn framer_reports_interrupt_only_between_packets() {
    let mut framer = Framer::new();
    let events = feed_all(&mut framer, &[0x03, b'$', b'}', 0x03, b'#', b'0', b'0', 0x03]);
    assert_eq!(events, vec!["interrupt".to_string(), "$}\u{3}#00".to_string(), "interrupt".to_string()]);
}

#[test]
fn framer_holds_partial_frame() {
    let mut framer = Framer::new();
    assert!(feed_all(&mut framer, b"$m10,4#").is_empty());
    assert_eq!(framer.phase, FramePhase::Check1);
    assert_eq!(framer.buf, b"$m10,4#".to_vec());
}

#[test]
fn recoverable_errors_reply_with_code() {
    assert_eq!(error_reply(1), b"E01".to_vec());
    assert_eq!(error_reply(0x79), b"E79".to_vec());
}

#[test]
fn response_writer_tokens() {
    let mut w = ResponseWriter::new(64);
    assert_eq!(w.write_str("x"), Ok(()));
    assert_eq!(w.write_num(0), Ok(()));
    assert_eq!(w.write_num(0xbeef), Ok(()));
    assert_eq!(w.write_hex_buf(&[0x0a, 0xff]), Ok(()));
    assert_eq!(w.write_binary(&[b'a', b'*']), Ok(()));
    let t = SpecificThreadId { pid: Some(SpecificIdKind::WithId(1)), tid: SpecificIdKind::All };
    assert_eq!(w.write_specific_thread_id(t), Ok(()));
    assert_eq!(w.as_bytes().to_vec(), b"x0beef0affa}\x0ap1.-1".to_vec());
    let mut small = ResponseWriter::new(2);
    assert_eq!(small.write_str("abc"), Err(WriteError::PacketBufferOverflow));
    assert!(small.as_bytes().is_empty());
}

#[test]
fn only_recoverable_errors_get_a_reply() {
    assert_eq!(reply_for_error::<u8>(&Error::NonFatalError(1)), Some(b"E01".to_vec()));
    assert_eq!(reply_for_error::<u8>(&Error::PacketUnexpected), None);
    assert_eq!(reply_for_error::<u8>(&Error::TargetError(2)), None);
}
