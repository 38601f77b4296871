use gdbstub::addr::plan_memory_read;
use gdbstub::arch::{Arch, Registers};
use gdbstub::dispatch::{alive_outcome, kill_outcome, register_info_reply, write_attached_reply, write_override_reply};
use gdbstub::codec::{checksum, decode_packet, encode_packet, FrameError};
use gdbstub::parse::{parse_command, Command};
use gdbstub::protocol::{
    qRegisterInfo, Base, HOp, IdKind, SpecificIdKind, SpecificThreadId, ThreadId, VContAction,
    VContKind,
};
use gdbstub::response::ResponseWriter;
use gdbstub::session::{ack_for, complete_response};
use gdbstub::stub::{
    handle_error, DisconnectReason, Error, FinishExecStatus, GdbStubImpl, HandlerStatus,
    ThreadStopReason, WatchKind,
};
use gdbstub::target::{Capabilities, Target, TargetError};

#[derive(Default, Debug, Clone, PartialEq)]
struct Regs16 {
    r: [u32; 16],
}

impl Registers for Regs16 {
    fn gdb_serialize(&self) -> Vec<Option<u8>> {
        let mut out = Vec::new();
        for v in self.r.iter() {
            for b in v.to_be_bytes() {
                out.push(Some(b));
            }
        }
        out
    }

    fn gdb_deserialize(&mut self, bytes: &[u8]) -> Result<(), ()> {
        if bytes.len() != 64 {
            return Err(());
        }
        for i in 0..16 {
            let mut w = [0u8; 4];
            w.copy_from_slice(&bytes[4 * i..4 * i + 4]);
            self.r[i] = u32::from_be_bytes(w);
        }
        Ok(())
    }
}

struct Arm32;

impl Arch for Arm32 {
    type Registers = Regs16;

    fn ptr_bytes() -> usize {
        4
    }

    fn target_description_xml() -> Option<&'static str> {
        Some("\n  <target version=\"1.0\"><architecture>armv4t</architecture></target>  \n")
    }
}

#[derive(Debug, Clone, PartialEq)]
enum Call {
    Read(u64, usize),
    Write(u64, Vec<u8>),
    Resume(Option<u8>),
    Step(Option<u8>),
    Clear,
    SetContinue(usize, Option<u8>),
    SetStep(usize, Option<u8>),
    ResumeThreads,
}

struct Host {
    caps: Capabilities,
    regs: Regs16,
    threads: Vec<usize>,
    calls: Vec<Call>,
    register_info: Vec<&'static str>,
}

impl Host {
    fn new(caps: Capabilities) -> Host {
        let mut regs = Regs16::default();
        for i in 0..16 {
            regs.r[i] = i as u32;
        }
        Host { caps, regs, threads: vec![1], calls: Vec::new(), register_info: Vec::new() }
    }
}

impl Target for Host {
    type Arch = Arm32;
    type Error = &'static str;

    fn capabilities(&self) -> Capabilities {
        self.caps
    }

    fn read_registers(&mut self, regs: &mut Regs16, _tid: usize) -> Result<(), TargetError<&'static str>> {
        *regs = self.regs.clone();
        Ok(())
    }

    fn write_registers(&mut self, regs: &Regs16, _tid: usize) -> Result<(), TargetError<&'static str>> {
        self.regs = regs.clone();
        Ok(())
    }

    fn read_addrs(&mut self, addr: u64, len: usize, _tid: usize) -> Result<Vec<u8>, TargetError<&'static str>> {
        self.calls.push(Call::Read(addr, len));
        Ok((0..len).map(|i| (addr as usize + i) as u8).collect())
    }

    fn write_addrs(&mut self, addr: u64, data: &[u8], _tid: usize) -> Result<(), TargetError<&'static str>> {
        self.calls.push(Call::Write(addr, data.to_vec()));
        Ok(())
    }

    fn list_active_threads(&mut self) -> Result<Vec<usize>, &'static str> {
        Ok(self.threads.clone())
    }

    fn is_thread_alive(&mut self, tid: usize) -> Result<bool, &'static str> {
        Ok(self.threads.contains(&tid))
    }

    fn resume(&mut self, signal: Option<u8>) -> Result<(), &'static str> {
        self.calls.push(Call::Resume(signal));
        Ok(())
    }

    fn step(&mut self, signal: Option<u8>) -> Result<(), &'static str> {
        self.calls.push(Call::Step(signal));
        Ok(())
    }

    fn resume_range_step(&mut self, _start: u64, _end: u64) -> Result<(), &'static str> {
        Err("range step")
    }

    fn clear_resume_actions(&mut self) -> Result<(), &'static str> {
        self.calls.push(Call::Clear);
        Ok(())
    }

    fn set_resume_action_continue(&mut self, tid: usize, signal: Option<u8>) -> Result<(), &'static str> {
        self.calls.push(Call::SetContinue(tid, signal));
        Ok(())
    }

    fn set_resume_action_step(&mut self, tid: usize, signal: Option<u8>) -> Result<(), &'static str> {
        self.calls.push(Call::SetStep(tid, signal));
        Ok(())
    }

    fn set_resume_action_range_step(&mut self, _tid: usize, _start: u64, _end: u64) -> Result<(), &'static str> {
        Err("range step")
    }

    fn resume_threads(&mut self) -> Result<(), &'static str> {
        self.calls.push(Call::ResumeThreads);
        Ok(())
    }

    fn query_if_attached(&mut self, _pid: usize) -> Result<bool, TargetError<&'static str>> {
        Ok(false)
    }

    fn kill(&mut self, _pid: Option<usize>) -> Result<bool, TargetError<&'static str>> {
        Ok(true)
    }

    fn target_description_xml_override(&mut self, _offset: u64, _length: usize) -> Result<Vec<u8>, TargetError<&'static str>> {
        Err(TargetError::Errno(5))
    }

    fn get_register_info(&self, n: usize) -> Option<&'static str> {
        self.register_info.get(n).copied()
    }
}

fn no_caps() -> Capabilities {
    Capabilities {
        multi_thread: false,
        single_step: false,
        range_step: false,
        reverse_cont: false,
        reverse_step: false,
        extended_mode: false,
        configure_aslr: false,
        configure_env: false,
        configure_startup_shell: false,
        configure_working_dir: false,
        sw_breakpoint: false,
        hw_breakpoint: false,
        hw_watchpoint: false,
        catch_syscalls: false,
        target_description_xml_override: false,
        memory_map: false,
        exec_file: false,
        auxv: false,
        register_info: false,
    }
}

fn run(stub: &mut GdbStubImpl, host: &mut Host, cmd: Base) -> (Result<HandlerStatus, Error<&'static str>>, Vec<u8>) {
    let mut res = ResponseWriter::new(4096);
    let r = stub.handle_base(&mut res, host, cmd);
    (r, res.as_bytes().to_vec())
}

fn text(b: &[u8]) -> String {
    String::from_utf8(b.to_vec()).unwrap()
}

fn framed(payload: &str) -> String {
    text(&encode_packet(payload.as_bytes()))
}

#[test]
fn checksum_is_low_byte_of_sum() {
    assert_eq!(checksum(b"OK"), 0x9a);
    assert_eq!(checksum(b"QStartNoAckMode"), 0xb0);
    assert_eq!(checksum(b"g"), 0x67);
    assert_eq!(checksum(b""), 0);
}

#[test]
fn encode_frames_with_checksum() {
    assert_eq!(framed("OK"), "$OK#9a");
    assert_eq!(framed(""), "$#00");
    assert_eq!(framed("g"), "$g#67");
}

#[test]
fn encode_escapes_metacharacters() {
    let enc = encode_packet(&[b'a', b'#', b'$', b'}', b'*']);
    assert_eq!(enc[..10].to_vec(), vec![b'$', b'a', 0x7d, 0x03, 0x7d, 0x04, 0x7d, 0x5d, 0x7d, 0x0a]);
    let sum: u32 = enc[1..10].iter().map(|b| *b as u32).sum();
    assert_eq!(text(&enc[11..]), format!("{:02x}", sum % 256));
}

#[test]
fn decode_round_trips() {
    for p in [b"".to_vec(), b"qSupported:multiprocess+".to_vec(), vec![0x23, 0x24, 0x7d, 0x2a, 0, 255]] {
        assert_eq!(decode_packet(&encode_packet(&p)), Ok(p.clone()));
    }
}

#[test]
fn decode_rejects_bad_frames() {
    assert_eq!(decode_packet(b"$OK#9b"), Err(FrameError::Checksum));
    assert_eq!(decode_packet(b"OK#9a"), Err(FrameError::Malformed));
    assert_eq!(decode_packet(b"$OK#zz"), Err(FrameError::Malformed));
    assert_eq!(decode_packet(b"$O#K#00"), Err(FrameError::Malformed));
    assert_eq!(decode_packet(b"$QStartNoAckMode#b0"), Ok(b"QStartNoAckMode".to_vec()));
    assert_eq!(decode_packet(b"$QStartNoAckMode#B0"), Ok(b"QStartNoAckMode".to_vec()));
}

#[test]
fn minimal_handshake() {
    let host = Host::new(no_caps());
    let mut stub = GdbStubImpl::new(&host, 4096);
    let mut host = host;
    let (r, out) = run(&mut stub, &mut host, Base::qSupported);
    assert_eq!(r, Ok(HandlerStatus::Handled));
    let s = text(&out);
    assert!(s.starts_with("PacketSize=1000;vContSupported+;multiprocess+;QStartNoAckMode+"));
    assert!(!s.contains("swbreak+"));
    assert!(s.contains(";qXfer:features:read+"));

    let mut caps = no_caps();
    caps.sw_breakpoint = true;
    let host = Host::new(caps);
    let mut stub = GdbStubImpl::new(&host, 4096);
    let mut host = host;
    let (_, out) = run(&mut stub, &mut host, Base::qSupported);
    assert!(text(&out).contains(";swbreak+"));
}

#[test]
fn qsupported_lists_every_capability() {
    let mut caps = no_caps();
    caps.reverse_cont = true;
    caps.extended_mode = true;
    caps.configure_env = true;
    caps.hw_watchpoint = true;
    caps.auxv = true;
    let mut stub = GdbStubImpl::with_config(256, caps, 4, None);
    let mut host = Host::new(caps);
    let (_, out) = run(&mut stub, &mut host, Base::qSupported);
    assert_eq!(
        text(&out),
        "PacketSize=100;vContSupported+;multiprocess+;QStartNoAckMode+;ReverseContinue+;QEnvironmentHexEncoded+;QEnvironmentUnset+;QEnvironmentReset+;hwbreak+;qXfer:auxv:read+"
    );
}

#[test]
fn no_ack_transition() {
    let mut host = Host::new(no_caps());
    let mut stub = GdbStubImpl::with_config(4096, no_caps(), 4, None);
    let decoded = decode_packet(b"$QStartNoAckMode#b0");
    assert_eq!(ack_for(stub.no_ack_mode, &decoded), Some(b'+'));
    let mut res = ResponseWriter::new(4096);
    let r = stub.handle_base(&mut res, &mut host, Base::QStartNoAckMode);
    assert_eq!(r, Ok(HandlerStatus::NeedsOk));
    assert_eq!(text(&complete_response(HandlerStatus::NeedsOk, &res).unwrap()), "$OK#9a");
    assert!(stub.no_ack_mode);
    assert_eq!(ack_for(stub.no_ack_mode, &decode_packet(b"$g#67")), None);
    assert_eq!(ack_for(stub.no_ack_mode, &decode_packet(b"$g#00")), None);
    let (_, _) = run(&mut stub, &mut host, Base::qSupported);
    assert!(stub.no_ack_mode);
}

#[test]
fn ack_mode_nacks_bad_checksum() {
    assert_eq!(ack_for(false, &decode_packet(b"$g#00")), Some(b'-'));
    assert_eq!(ack_for(false, &decode_packet(b"$g#67")), Some(b'+'));
}

#[test]
fn register_round_trip() {
    let mut host = Host::new(no_caps());
    let mut stub = GdbStubImpl::with_config(4096, no_caps(), 4, None);
    let (r, out) = run(&mut stub, &mut host, Base::g);
    assert_eq!(r, Ok(HandlerStatus::Handled));
    let expected: String = (0..16u32).map(|i| format!("{:08x}", i)).collect();
    assert_eq!(text(&out), expected);

    let reversed: Vec<u8> = (0..16u32).rev().flat_map(|i| i.to_be_bytes()).collect();
    let (r, out) = run(&mut stub, &mut host, Base::G(reversed));
    assert_eq!(r, Ok(HandlerStatus::NeedsOk));
    assert!(out.is_empty());
    let (_, out) = run(&mut stub, &mut host, Base::g);
    let expected: String = (0..16u32).rev().map(|i| format!("{:08x}", i)).collect();
    assert_eq!(text(&out), expected);

    let (r, _) = run(&mut stub, &mut host, Base::G(vec![1, 2, 3]));
    assert_eq!(r, Err(Error::TargetMismatch));
}

#[test]
fn memory_chunked_read() {
    let mut host = Host::new(no_caps());
    let mut stub = GdbStubImpl::with_config(16, no_caps(), 4, None);
    let (r, out) = run(&mut stub, &mut host, Base::m { addr: 0xdeadbeef, len: 0x40 });
    assert_eq!(r, Ok(HandlerStatus::Handled));
    assert_eq!(
        host.calls,
        vec![
            Call::Read(0xdeadbeef, 16),
            Call::Read(0xdeadbeef + 0x10, 16),
            Call::Read(0xdeadbeef + 0x20, 16),
            Call::Read(0xdeadbeef + 0x30, 16),
        ]
    );
    let expected: String = (0..0x40u64).map(|i| format!("{:02x}", (0xdeadbeefu64 + i) as u8)).collect();
    assert_eq!(text(&out), expected);
}

#[test]
fn memory_read_past_address_width() {
    let mut host = Host::new(no_caps());
    let mut stub = GdbStubImpl::with_config(16, no_caps(), 4, None);
    let (r, _) = run(&mut stub, &mut host, Base::m { addr: 0x1_0000_0000, len: 4 });
    assert_eq!(r, Err(Error::TargetMismatch));
    let (r, _) = run(&mut stub, &mut host, Base::m { addr: 0xffff_fff8, len: 0x20 });
    assert_eq!(r, Err(Error::TargetMismatch));
    assert!(host.calls.is_empty());
    let (r, out) = run(&mut stub, &mut host, Base::m { addr: 0x10, len: 0 });
    assert_eq!((r, out.len()), (Ok(HandlerStatus::Handled), 0));
    assert!(host.calls.is_empty());
}

#[test]
fn memory_write() {
    let mut host = Host::new(no_caps());
    let mut stub = GdbStubImpl::with_config(16, no_caps(), 4, None);
    let (r, _) = run(&mut stub, &mut host, Base::M { addr: 0x1000, val: vec![1, 2, 3] });
    assert_eq!(r, Ok(HandlerStatus::NeedsOk));
    assert_eq!(host.calls, vec![Call::Write(0x1000, vec![1, 2, 3])]);
}

fn cont(tid: Option<SpecificIdKind>, kind: VContKind) -> Option<VContAction> {
    Some(VContAction { kind, thread: tid.map(|t| SpecificThreadId { pid: None, tid: t }) })
}

#[test]
fn vcont_continue_then_interrupt() {
    let mut host = Host::new(no_caps());
    let mut stub = GdbStubImpl::with_config(4096, no_caps(), 4, None);
    let mut res = ResponseWriter::new(4096);
    let r = stub.handle_base(&mut res, &mut host, Base::vCont(vec![cont(None, VContKind::Continue)]));
    assert_eq!(r, Ok(HandlerStatus::DeferredStopReason));
    assert!(res.as_bytes().is_empty());
    assert_eq!(complete_response(HandlerStatus::DeferredStopReason, &res), None);
    assert_eq!(host.calls, vec![Call::Resume(None)]);
    let mut res = ResponseWriter::new(4096);
    let st = stub.finish_exec::<&str>(&mut res, ThreadStopReason::Signal(2));
    assert_eq!(st, Ok(FinishExecStatus::Handled));
    assert_eq!(text(res.as_bytes()), "S02");
}

#[test]
fn multi_thread_step_as_default_is_refused() {
    let mut caps = no_caps();
    caps.multi_thread = true;
    caps.single_step = true;
    let mut host = Host::new(caps);
    host.threads = vec![1, 2];
    let mut stub = GdbStubImpl::with_config(4096, caps, 4, None);
    let mut res = ResponseWriter::new(4096);
    let r = stub.handle_base(&mut res, &mut host, Base::vCont(vec![cont(None, VContKind::Step)]));
    assert_eq!(r, Err(Error::PacketUnexpected));
    assert!(res.as_bytes().is_empty());
}

#[test]
fn multi_thread_vcont_installs_actions() {
    let mut caps = no_caps();
    caps.multi_thread = true;
    caps.single_step = true;
    let mut host = Host::new(caps);
    host.threads = vec![1, 2];
    let mut stub = GdbStubImpl::with_config(4096, caps, 4, None);
    let actions = vec![
        cont(Some(SpecificIdKind::WithId(2)), VContKind::StepWithSig(5)),
        cont(Some(SpecificIdKind::All), VContKind::Continue),
    ];
    let (r, _) = run(&mut stub, &mut host, Base::vCont(actions));
    assert_eq!(r, Ok(HandlerStatus::DeferredStopReason));
    assert_eq!(host.calls, vec![Call::Clear, Call::SetStep(2, Some(5)), Call::ResumeThreads]);
}

#[test]
fn single_thread_vcont_rules() {
    let mut host = Host::new(no_caps());
    let mut stub = GdbStubImpl::with_config(4096, no_caps(), 4, None);
    let (r, _) = run(&mut stub, &mut host, Base::vCont(vec![cont(None, VContKind::Step)]));
    assert_eq!(r, Err(Error::PacketUnexpected));
    let (r, _) = run(&mut stub, &mut host, Base::vCont(vec![None]));
    assert_eq!(r, Err(Error::PacketParse));
    let (r, _) = run(&mut stub, &mut host, Base::vCont(vec![]));
    assert_eq!(r, Err(Error::PacketParse));
    let three = vec![cont(None, VContKind::Continue), cont(None, VContKind::Continue), cont(None, VContKind::Continue)];
    let (r, _) = run(&mut stub, &mut host, Base::vCont(three));
    assert_eq!(r, Err(Error::PacketUnexpected));
    let (r, _) = run(&mut stub, &mut host, Base::vCont(vec![cont(None, VContKind::Stop)]));
    assert_eq!(r, Err(Error::PacketUnexpected));
    let named = vec![cont(None, VContKind::Continue), cont(Some(SpecificIdKind::WithId(2)), VContKind::Continue)];
    let (r, _) = run(&mut stub, &mut host, Base::vCont(named));
    assert_eq!(r, Err(Error::PacketUnexpected));
    assert!(host.calls.is_empty());
    let two = vec![cont(None, VContKind::ContinueWithSig(9)), cont(Some(SpecificIdKind::All), VContKind::Continue)];
    let (r, _) = run(&mut stub, &mut host, Base::vCont(two));
    assert_eq!(r, Ok(HandlerStatus::DeferredStopReason));
    assert_eq!(host.calls, vec![Call::Resume(Some(9))]);

    let mut caps = no_caps();
    caps.single_step = true;
    caps.range_step = true;
    let mut host = Host::new(caps);
    let mut stub = GdbStubImpl::with_config(4096, caps, 4, None);
    let (r, _) = run(&mut stub, &mut host, Base::s);
    assert_eq!(r, Ok(HandlerStatus::DeferredStopReason));
    assert_eq!(host.calls, vec![Call::Step(None)]);
    let (r, _) = run(&mut stub, &mut host, Base::vCont(vec![cont(None, VContKind::RangeStep(0x1_0000_0000, 4))]));
    assert_eq!(r, Err(Error::TargetMismatch));
    let (r, _) = run(&mut stub, &mut host, Base::vCont(vec![cont(None, VContKind::RangeStep(0, 4))]));
    assert_eq!(r, Err(Error::TargetError("range step")));
}

#[test]
fn vcont_query_lists_offered_actions() {
    let mut caps = no_caps();
    let mut host = Host::new(caps);
    let mut stub = GdbStubImpl::with_config(4096, caps, 4, None);
    let (_, out) = run(&mut stub, &mut host, Base::vContQuery);
    assert_eq!(text(&out), "vCont;c;C");
    caps.single_step = true;
    caps.range_step = true;
    let mut stub = GdbStubImpl::with_config(4096, caps, 4, None);
    let (_, out) = run(&mut stub, &mut host, Base::vContQuery);
    assert_eq!(text(&out), "vCont;c;C;s;S;r");
}

#[test]
fn h_selects_threads() {
    let mut caps = no_caps();
    caps.multi_thread = true;
    let mut host = Host::new(caps);
    host.threads = vec![3, 4];
    let mut stub = GdbStubImpl::with_config(4096, caps, 4, None);
    let all = ThreadId { pid: None, tid: IdKind::All };
    let (r, _) = run(&mut stub, &mut host, Base::H { op: HOp::Other, thread: all });
    assert_eq!(r, Err(Error::PacketUnexpected));
    assert_eq!(stub.current_mem_tid, 1);
    let any = ThreadId { pid: None, tid: IdKind::Any };
    let (r, _) = run(&mut stub, &mut host, Base::H { op: HOp::Other, thread: any });
    assert_eq!(r, Ok(HandlerStatus::NeedsOk));
    assert_eq!(stub.current_mem_tid, 3);
    let (r, _) = run(&mut stub, &mut host, Base::H { op: HOp::StepContinue, thread: all });
    assert_eq!(r, Ok(HandlerStatus::NeedsOk));
    assert_eq!(stub.current_resume_tid, SpecificIdKind::All);
    let four = ThreadId { pid: None, tid: IdKind::WithId(4) };
    let (_, _) = run(&mut stub, &mut host, Base::H { op: HOp::StepContinue, thread: four });
    assert_eq!(stub.current_resume_tid, SpecificIdKind::WithId(4));
    host.threads = vec![];
    let (r, _) = run(&mut stub, &mut host, Base::H { op: HOp::Other, thread: any });
    assert_eq!(r, Err(Error::NoActiveThreads));
}

#[test]
fn thread_info_and_alive() {
    let mut caps = no_caps();
    let mut host = Host::new(caps);
    let mut stub = GdbStubImpl::with_config(4096, caps, 4, None);
    let (_, out) = run(&mut stub, &mut host, Base::qfThreadInfo);
    assert_eq!(text(&out), "mp1.1");
    let (_, out) = run(&mut stub, &mut host, Base::qsThreadInfo);
    assert_eq!(text(&out), "l");
    let t2 = ThreadId { pid: None, tid: IdKind::WithId(2) };
    let (r, _) = run(&mut stub, &mut host, Base::T(t2));
    assert_eq!(r, Err(Error::NonFatalError(1)));
    caps.multi_thread = true;
    host.threads = vec![1, 2, 0x1f];
    let mut stub = GdbStubImpl::with_config(4096, caps, 4, None);
    let (_, out) = run(&mut stub, &mut host, Base::qfThreadInfo);
    assert_eq!(text(&out), "mp1.1,p1.2,p1.1f");
    let (r, _) = run(&mut stub, &mut host, Base::T(t2));
    assert_eq!(r, Ok(HandlerStatus::NeedsOk));
    let any = ThreadId { pid: None, tid: IdKind::Any };
    let (r, _) = run(&mut stub, &mut host, Base::T(any));
    assert_eq!(r, Err(Error::PacketUnexpected));
}

#[test]
fn session_commands() {
    let mut host = Host::new(no_caps());
    let mut stub = GdbStubImpl::with_config(4096, no_caps(), 4, None);
    let (r, out) = run(&mut stub, &mut host, Base::QuestionMark);
    assert_eq!((r, text(&out)), (Ok(HandlerStatus::Handled), "S05".to_string()));
    let (r, out) = run(&mut stub, &mut host, Base::qAttached(None));
    assert_eq!((r, text(&out)), (Ok(HandlerStatus::Handled), "1".to_string()));
    let (r, out) = run(&mut stub, &mut host, Base::D);
    assert_eq!((r, text(&out)), (Ok(HandlerStatus::Disconnect(DisconnectReason::Disconnect)), "OK".to_string()));
    let (r, out) = run(&mut stub, &mut host, Base::k);
    assert_eq!((r, out.len()), (Ok(HandlerStatus::Disconnect(DisconnectReason::Kill)), 0));

    let mut caps = no_caps();
    caps.extended_mode = true;
    let mut stub = GdbStubImpl::with_config(4096, caps, 4, None);
    let (r, _) = run(&mut stub, &mut host, Base::qAttached(None));
    assert_eq!(r, Err(Error::PacketUnexpected));
    let (r, out) = run(&mut stub, &mut host, Base::qAttached(Some(7)));
    assert_eq!((r, text(&out)), (Ok(HandlerStatus::Handled), "0".to_string()));
    let (r, out) = run(&mut stub, &mut host, Base::vKill(7));
    assert_eq!((r, text(&out)), (Ok(HandlerStatus::Disconnect(DisconnectReason::Kill)), "OK".to_string()));
}

#[test]
fn features_read_windows_trimmed_description() {
    let host = Host::new(no_caps());
    let mut stub = GdbStubImpl::new(&host, 4096);
    let mut host = host;
    let xml = "<target version=\"1.0\"><architecture>armv4t</architecture></target>";
    assert_eq!(stub.tdesc_xml, Some(xml.as_bytes().to_vec()));
    let (r, out) = run(&mut stub, &mut host, Base::qXferFeaturesRead { offset: 0, length: 10 });
    assert_eq!((r, text(&out)), (Ok(HandlerStatus::Handled), format!("m{}", &xml[..10])));
    let (_, out) = run(&mut stub, &mut host, Base::qXferFeaturesRead { offset: 60, length: 100 });
    assert_eq!(text(&out), format!("l{}", &xml[60..]));
    let (_, out) = run(&mut stub, &mut host, Base::qXferFeaturesRead { offset: 500, length: 100 });
    assert_eq!(text(&out), "l");
    let (_, out) = run(&mut stub, &mut host, Base::qXferFeaturesRead { offset: 5, length: 0 });
    assert_eq!(text(&out), "l");

    let mut stub = GdbStubImpl::with_config(4096, no_caps(), 4, None);
    let (r, _) = run(&mut stub, &mut host, Base::qXferFeaturesRead { offset: 0, length: 10 });
    assert_eq!(r, Err(Error::PacketUnexpected));
    let mut caps = no_caps();
    caps.target_description_xml_override = true;
    let mut stub = GdbStubImpl::with_config(4096, caps, 4, None);
    let (r, _) = run(&mut stub, &mut host, Base::qXferFeaturesRead { offset: 0, length: 10 });
    assert_eq!(r, Err(Error::NonFatalError(5)));
}

#[test]
fn stop_packets() {
    let mut caps = no_caps();
    caps.sw_breakpoint = true;
    caps.hw_watchpoint = true;
    caps.catch_syscalls = true;
    let mut stub = GdbStubImpl::with_config(4096, caps, 4, None);
    let mut res = ResponseWriter::new(4096);
    assert_eq!(stub.finish_exec::<()>(&mut res, ThreadStopReason::SwBreak(2)), Ok(FinishExecStatus::Handled));
    assert_eq!(text(res.as_bytes()), "T05thread:p1.2;swbreak:;");
    assert_eq!(stub.current_mem_tid, 2);
    assert_eq!(stub.current_resume_tid, SpecificIdKind::WithId(2));
    let mut res = ResponseWriter::new(4096);
    let w = ThreadStopReason::Watch { tid: 3, kind: WatchKind::Read, addr: 0x1000 };
    assert_eq!(stub.finish_exec::<()>(&mut res, w), Ok(FinishExecStatus::Handled));
    assert_eq!(text(res.as_bytes()), "T05thread:p1.3;rwatch:1000;");
    let mut res = ResponseWriter::new(4096);
    let c = ThreadStopReason::CatchSyscall { number: 60, position: gdbstub::stub::CatchSyscallPosition::Return };
    assert_eq!(stub.finish_exec::<()>(&mut res, c), Ok(FinishExecStatus::Handled));
    assert_eq!(text(res.as_bytes()), "T05syscall_return:3c;");
    let mut res = ResponseWriter::new(4096);
    assert_eq!(
        stub.finish_exec::<()>(&mut res, ThreadStopReason::Exited(1)),
        Ok(FinishExecStatus::Disconnect(DisconnectReason::TargetExited(1)))
    );
    assert_eq!(text(res.as_bytes()), "W01");
    let mut res = ResponseWriter::new(4096);
    assert_eq!(
        stub.finish_exec::<()>(&mut res, ThreadStopReason::Terminated(19)),
        Ok(FinishExecStatus::Disconnect(DisconnectReason::TargetTerminated(19)))
    );
    assert_eq!(text(res.as_bytes()), "X13");
    let mut res = ResponseWriter::new(4096);
    assert_eq!(stub.finish_exec::<()>(&mut res, ThreadStopReason::DoneStep), Ok(FinishExecStatus::Handled));
    assert_eq!(text(res.as_bytes()), "S05");
    let mut res = ResponseWriter::new(4096);
    assert_eq!(
        stub.finish_exec::<()>(&mut res, ThreadStopReason::HwBreak(1)),
        Err(Error::UnsupportedStopReason)
    );
    let r = ThreadStopReason::ReplayLog(gdbstub::stub::ReplayLogPosition::End);
    assert_eq!(stub.finish_exec::<()>(&mut res, r), Err(Error::UnsupportedStopReason));
    assert!(res.as_bytes().is_empty());
}

#[test]
fn write_break_common_selects_thread() {
    let mut stub = GdbStubImpl::with_config(4096, no_caps(), 4, None);
    let mut res = ResponseWriter::new(4096);
    assert_eq!(stub.write_break_common::<()>(&mut res, 0xab), Ok(()));
    assert_eq!(text(res.as_bytes()), "T05thread:p1.ab;");
    assert_eq!(stub.current_mem_tid, 0xab);
    let mut small = ResponseWriter::new(4);
    assert_eq!(stub.write_break_common::<()>(&mut small, 1), Err(Error::PacketBufferOverflow));
}

#[test]
fn response_overflow() {
    let mut host = Host::new(no_caps());
    let mut stub = GdbStubImpl::with_config(4096, no_caps(), 4, None);
    let mut res = ResponseWriter::new(8);
    let r = stub.handle_base(&mut res, &mut host, Base::qSupported);
    assert_eq!(r, Err(Error::PacketBufferOverflow));
}

#[test]
fn register_info_queries() {
    assert_eq!(qRegisterInfo::from_packet(b"12"), Some(qRegisterInfo(12)));
    assert_eq!(qRegisterInfo::from_packet(b"+5"), Some(qRegisterInfo(5)));
    assert_eq!(qRegisterInfo::from_packet(b""), None);
    assert_eq!(qRegisterInfo::from_packet(b"+"), None);
    assert_eq!(qRegisterInfo::from_packet(b"1a"), None);
    assert_eq!(qRegisterInfo::from_packet(b"-1"), None);
    assert_eq!(qRegisterInfo::from_packet(b"18446744073709551615"), Some(qRegisterInfo(usize::MAX)));
    assert_eq!(qRegisterInfo::from_packet(b"18446744073709551616"), None);

    let mut caps = no_caps();
    let mut host = Host::new(caps);
    host.register_info = vec!["name:r0;bitsize:32;"];
    let mut stub = GdbStubImpl::with_config(4096, caps, 4, None);
    let mut res = ResponseWriter::new(4096);
    assert_eq!(stub.handle_register_info(&mut res, &mut host, qRegisterInfo(0)), Ok(HandlerStatus::Handled));
    assert!(res.as_bytes().is_empty());
    caps.register_info = true;
    let mut stub = GdbStubImpl::with_config(4096, caps, 4, None);
    assert_eq!(stub.handle_register_info(&mut res, &mut host, qRegisterInfo(0)), Ok(HandlerStatus::Handled));
    assert_eq!(text(res.as_bytes()), "name:r0;bitsize:32;");
    let mut res = ResponseWriter::new(4096);
    assert_eq!(stub.handle_register_info(&mut res, &mut host, qRegisterInfo(1)), Ok(HandlerStatus::NeedsOk));
}

#[test]
fn host_errors_map_to_engine_errors() {
    assert_eq!(handle_error::<u8>(TargetError::NonFatal), Error::NonFatalError(121));
    assert_eq!(handle_error::<u8>(TargetError::Errno(3)), Error::NonFatalError(3));
    assert_eq!(handle_error::<u8>(TargetError::Fatal(9)), Error::TargetError(9));
}

#[test]
fn any_thread_of_single_threaded_host() {
    let mut host = Host::new(no_caps());
    let mut stub = GdbStubImpl::with_config(4096, no_caps(), 4, None);
    assert_eq!(stub.get_sane_any_tid(&mut host), Ok(1));
}

/// Sends one framed packet through decode, parse, dispatch and framing.
fn exchange(stub: &mut GdbStubImpl, host: &mut Host, wire: &[u8]) -> (Result<HandlerStatus, Error<&'static str>>, Option<String>) {
    let payload = decode_packet(wire).unwrap();
    let cmd = match parse_command(&payload) {
        Ok(Command::Base(cmd)) => cmd,
        other => panic!("unexpected {:?}", other),
    };
    let mut res = ResponseWriter::new(4096);
    let r = stub.handle_base(&mut res, host, cmd);
    let out = match r {
        Ok(st) => complete_response(st, &res).map(|f| text(&f)),
        Err(_) => None,
    };
    (r, out)
}

#[test]
fn wire_handshake() {
    let mut caps = no_caps();
    caps.sw_breakpoint = true;
    let mut host = Host::new(caps);
    let mut stub = GdbStubImpl::with_config(4096, caps, 4, None);
    let (_, out) = exchange(&mut stub, &mut host, &encode_packet(b"qSupported:multiprocess+;swbreak+"));
    let out = out.unwrap();
    assert!(out.starts_with("$PacketSize=1000;vContSupported+;multiprocess+;QStartNoAckMode+"));
    assert!(out.contains(";swbreak+"));
}

#[test]
fn wire_no_ack() {
    let mut host = Host::new(no_caps());
    let mut stub = GdbStubImpl::with_config(4096, no_caps(), 4, None);
    let wire = b"$QStartNoAckMode#b0";
    let ack = ack_for(stub.no_ack_mode, &decode_packet(wire)).unwrap();
    let (_, out) = exchange(&mut stub, &mut host, wire);
    assert_eq!(format!("{}{}", ack as char, out.unwrap()), "+$OK#9a");
    assert_eq!(ack_for(stub.no_ack_mode, &decode_packet(b"$g#67")), None);
}

#[test]
fn wire_register_round_trip() {
    let mut host = Host::new(no_caps());
    let mut stub = GdbStubImpl::with_config(4096, no_caps(), 4, None);
    let (_, out) = exchange(&mut stub, &mut host, b"$g#67");
    let hex: String = (0..16u32).map(|i| format!("{:08x}", i)).collect();
    assert_eq!(out.unwrap(), text(&encode_packet(hex.as_bytes())));
    let rev: String = (0..16u32).rev().map(|i| format!("{:08x}", i)).collect();
    let (r, out) = exchange(&mut stub, &mut host, &encode_packet(format!("G{}", rev).as_bytes()));
    assert_eq!(r, Ok(HandlerStatus::NeedsOk));
    assert_eq!(out.unwrap(), "$OK#9a");
    let (_, out) = exchange(&mut stub, &mut host, b"$g#67");
    assert_eq!(out.unwrap(), text(&encode_packet(rev.as_bytes())));
}

#[test]
fn wire_memory_chunked_read() {
    let mut host = Host::new(no_caps());
    let mut stub = GdbStubImpl::with_config(16, no_caps(), 4, None);
    let (_, out) = exchange(&mut stub, &mut host, &encode_packet(b"mDEADBEEF,40"));
    let bases: Vec<u64> = host.calls.iter().map(|c| match c { Call::Read(a, 16) => *a, _ => panic!() }).collect();
    assert_eq!(bases, vec![0xdeadbeef, 0xdeadbeff, 0xdeadbf0f, 0xdeadbf1f]);
    let hex: String = (0..0x40u64).map(|i| format!("{:02x}", (0xdeadbeefu64 + i) as u8)).collect();
    assert_eq!(out.unwrap(), text(&encode_packet(hex.as_bytes())));
}

#[test]
fn wire_vcont_then_interrupt() {
    let mut host = Host::new(no_caps());
    let mut stub = GdbStubImpl::with_config(4096, no_caps(), 4, None);
    let (r, out) = exchange(&mut stub, &mut host, &encode_packet(b"vCont;c"));
    assert_eq!(r, Ok(HandlerStatus::DeferredStopReason));
    assert_eq!(out, None);
    let mut res = ResponseWriter::new(4096);
    stub.finish_exec::<&str>(&mut res, ThreadStopReason::Signal(2)).unwrap();
    assert_eq!(text(&complete_response(HandlerStatus::Handled, &res).unwrap()), "$S02#b5");
}

#[test]
fn wire_multi_thread_step_default() {
    let mut caps = no_caps();
    caps.multi_thread = true;
    caps.single_step = true;
    let mut host = Host::new(caps);
    host.threads = vec![1, 2];
    let mut stub = GdbStubImpl::with_config(4096, caps, 4, None);
    let (r, out) = exchange(&mut stub, &mut host, &encode_packet(b"vCont;s"));
    assert_eq!(r, Err(Error::PacketUnexpected));
    assert_eq!(out, None);
}

#[test]
fn host_answer_outcomes() {
    let mut res = ResponseWriter::new(64);
    assert_eq!(register_info_reply::<()>(&mut res, Some("name:pc;")), Ok(HandlerStatus::Handled));
    assert_eq!(text(res.as_bytes()), "name:pc;");
    let mut res = ResponseWriter::new(64);
    assert_eq!(register_info_reply::<()>(&mut res, None), Ok(HandlerStatus::NeedsOk));
    assert!(res.as_bytes().is_empty());
    assert_eq!(kill_outcome::<()>(&mut res, false), Ok(HandlerStatus::NeedsOk));
    assert!(res.as_bytes().is_empty());
    assert_eq!(kill_outcome::<()>(&mut res, true), Ok(HandlerStatus::Disconnect(DisconnectReason::Kill)));
    assert_eq!(text(res.as_bytes()), "OK");
    assert_eq!(alive_outcome::<u8>(Ok(true)), Ok(HandlerStatus::NeedsOk));
    assert_eq!(alive_outcome::<u8>(Ok(false)), Err(Error::NonFatalError(1)));
    assert_eq!(alive_outcome::<u8>(Err(4)), Err(Error::TargetError(4)));
    let mut res = ResponseWriter::new(64);
    write_attached_reply::<()>(&mut res, false).unwrap();
    write_override_reply::<()>(&mut res, &vec![]).unwrap();
    write_override_reply::<()>(&mut res, &b"<a#".to_vec()).unwrap();
    assert_eq!(res.as_bytes().to_vec(), b"0lm<a}\x03".to_vec());
    assert_eq!(gdbstub::stub::any_tid_from::<u8>(Ok(vec![])), Err(Error::NoActiveThreads));
    assert_eq!(gdbstub::stub::any_tid_from::<u8>(Ok(vec![7, 8])), Ok(7));
    assert_eq!(gdbstub::stub::any_tid_from::<u8>(Err(3)), Err(Error::TargetError(3)));
}

#[test]
fn memory_plan_pieces() {
    assert_eq!(plan_memory_read(0x100, 40, 16, 4), Some(vec![(0x100, 16), (0x110, 16), (0x120, 8)]));
    assert_eq!(plan_memory_read(0x100, 0, 16, 4), Some(vec![]));
    assert_eq!(plan_memory_read(0xffff_fff0, 0x20, 16, 4), None);
    assert_eq!(plan_memory_read(0x1_0000_0000, 1, 16, 4), None);
}
