use vstd::prelude::*;
use vstd::string::StringSliceAdditionalSpecFns;

use crate::arch::Arch;
use crate::codec::hex2;
use crate::hex::{hex_digit_exec, hex_num, push_hex_num};
use crate::protocol::{
    push_thread_id, thread_id_bytes, SpecificIdKind, SpecificThreadId, Tid, VContAction,
};
use crate::response::{push_str, ResponseWriter, WriteError};
use crate::resume::{
    multi_thread_plan, plan_single_thread, plan_thread_action, single_thread_plan, SingleResume,
    ThreadAction,
};
use crate::target::{Capabilities, Target, TargetError};

verus! {

/// The process id reported when the host does not model processes.
pub const FAKE_PID: usize = 1;

/// The thread id of a single-threaded host.
pub const SINGLE_THREAD_TID: usize = 1;

/// Why a session ended without an error.
#[derive(Debug, Clone, Copy, PartialEq, Eq, Structural)]
pub enum DisconnectReason {
    /// The client detached (`D`).
    Disconnect,
    /// The target exited with this code.
    TargetExited(u8),
    /// The target was terminated by this signal.
    TargetTerminated(u8),
    /// The client killed the target.
    Kill,
}

/// Errors of the protocol engine; `E` is the host's own error type.
#[derive(Debug, Clone, Copy, PartialEq, Eq)]
pub enum Error<E> {
    /// A packet that does not follow the grammar.
    PacketParse,
    /// A well-formed packet that makes no sense in the current state.
    PacketUnexpected,
    /// A response did not fit in its buffer.
    PacketBufferOverflow,
    /// An address or register file of the wrong shape.
    TargetMismatch,
    /// "Any thread" was asked for while no thread is active.
    NoActiveThreads,
    /// The host reported a stop for a capability it did not claim.
    UnsupportedStopReason,
    /// A fatal host error.
    TargetError(E),
    /// A recoverable error, reported to the client as `E<code>`.
    NonFatalError(u8),
}

/// What the dispatcher did with a command.
#[derive(Debug, Clone, Copy, PartialEq, Eq, Structural)]
pub enum HandlerStatus {
    /// The response is written.
    Handled,
    /// The response is written, and `OK` is still to be appended.
    NeedsOk,
    /// The target is running: no response until it stops.
    DeferredStopReason,
    /// The session ends once the response is flushed.
    Disconnect(DisconnectReason),
}

/// What reporting a stop did to the session.
#[derive(Debug, Clone, Copy, PartialEq, Eq, Structural)]
pub enum FinishExecStatus {
    Handled,
    Disconnect(DisconnectReason),
}

#[derive(Debug, Clone, Copy, PartialEq, Eq, Structural)]
pub enum WatchKind {
    Write,
    Read,
    ReadWrite,
}

#[derive(Debug, Clone, Copy, PartialEq, Eq, Structural)]
pub enum ReplayLogPosition {
    Begin,
    End,
}

#[derive(Debug, Clone, Copy, PartialEq, Eq, Structural)]
pub enum CatchSyscallPosition {
    Entry,
    Return,
}

/// Why the target stopped.
#[derive(Debug, Clone, Copy, PartialEq, Eq, Structural)]
pub enum ThreadStopReason {
    DoneStep,
    Signal(u8),
    Exited(u8),
    Terminated(u8),
    SwBreak(Tid),
    HwBreak(Tid),
    Watch { tid: Tid, kind: WatchKind, addr: u64 },
    ReplayLog(ReplayLogPosition),
    CatchSyscall { number: u64, position: CatchSyscallPosition },
}

/// What a host error becomes: recoverable ones are reported to the client.
pub open spec fn target_error_spec<E>(e: TargetError<E>) -> Error<E> {
    match e {
        TargetError::NonFatal => Error::NonFatalError(121),
        TargetError::Errno(code) => Error::NonFatalError(code),
        TargetError::Fatal(inner) => Error::TargetError(inner),
    }
}

/// Turns a host error into the engine's error.
pub fn handle_error<E>(e: TargetError<E>) -> (r: Error<E>)
    ensures
        r == target_error_spec(e),
{
    match e {
        TargetError::NonFatal => Error::NonFatalError(121),
        TargetError::Errno(code) => Error::NonFatalError(code),
        TargetError::Fatal(inner) => Error::TargetError(inner),
    }
}

/// Turns a failed write into the engine's overflow error.
pub fn overflow<E>(r: Result<(), WriteError>) -> (o: Result<(), Error<E>>)
    ensures
        r is Ok <==> o is Ok,
        o is Err ==> o == Err::<(), Error<E>>(Error::PacketBufferOverflow),
{
    match r {
        Ok(()) => Ok(()),
        Err(_) => Err(Error::PacketBufferOverflow),
    }
}

/// Appends a byte as exactly two lower-case hex digits.
pub fn push_hex2(v: &mut Vec<u8>, b: u8)
    ensures
        final(v)@ == old(v)@ + hex2(b),
{
    v.push(hex_digit_exec(b / 16));
    v.push(hex_digit_exec(b % 16));
    assert(v@ =~= old(v)@ + hex2(b));
}

/// The thread id that stop packets report for `tid`.
pub open spec fn reported_thread(tid: Tid) -> SpecificThreadId {
    SpecificThreadId { pid: Some(SpecificIdKind::WithId(FAKE_PID)), tid: SpecificIdKind::WithId(tid) }
}

/// `T05thread:<id>;`, the opening of a stop packet that names a thread.
pub open spec fn break_prefix(tid: Tid) -> Seq<u8> {
    "T05".spec_bytes() + "thread:".spec_bytes() + thread_id_bytes(reported_thread(tid)) + ";".spec_bytes()
}

pub open spec fn watch_word(kind: WatchKind) -> Seq<u8> {
    match kind {
        WatchKind::Write => "watch:".spec_bytes(),
        WatchKind::Read => "rwatch:".spec_bytes(),
        WatchKind::ReadWrite => "awatch:".spec_bytes(),
    }
}

/// The stop packet for a stop reason, or `None` when the capability it needs
/// was not claimed.
pub open spec fn stop_packet(caps: Capabilities, reason: ThreadStopReason) -> Option<Seq<u8>> {
    match reason {
        ThreadStopReason::DoneStep => Some("S05".spec_bytes()),
        ThreadStopReason::Signal(sig) => Some("S".spec_bytes() + hex2(sig)),
        ThreadStopReason::Exited(code) => Some("W".spec_bytes() + hex2(code)),
        ThreadStopReason::Terminated(sig) => Some("X".spec_bytes() + hex2(sig)),
        ThreadStopReason::SwBreak(tid) => if caps.sw_breakpoint {
            Some(break_prefix(tid) + "swbreak:;".spec_bytes())
        } else {
            None
        },
        ThreadStopReason::HwBreak(tid) => if caps.hw_breakpoint {
            Some(break_prefix(tid) + "hwbreak:;".spec_bytes())
        } else {
            None
        },
        ThreadStopReason::Watch { tid, kind, addr } => if caps.hw_watchpoint {
            Some(break_prefix(tid) + watch_word(kind) + hex_num(addr as nat) + ";".spec_bytes())
        } else {
            None
        },
        ThreadStopReason::ReplayLog(pos) => if caps.reverse_cont || caps.reverse_step {
            Some(
                "T05".spec_bytes() + "replaylog:".spec_bytes() + match pos {
                    ReplayLogPosition::Begin => "begin".spec_bytes(),
                    ReplayLogPosition::End => "end".spec_bytes(),
                } + ";".spec_bytes(),
            )
        } else {
            None
        },
        ThreadStopReason::CatchSyscall { number, position } => if caps.catch_syscalls {
            Some(
                "T05".spec_bytes() + match position {
                    CatchSyscallPosition::Entry => "syscall_entry:".spec_bytes(),
                    CatchSyscallPosition::Return => "syscall_return:".spec_bytes(),
                } + hex_num(number as nat) + ";".spec_bytes(),
            )
        } else {
            None
        },
    }
}

/// The thread that a stop reason names, if any.
pub open spec fn stopped_thread(reason: ThreadStopReason) -> Option<Tid> {
    match reason {
        ThreadStopReason::SwBreak(tid) => Some(tid),
        ThreadStopReason::HwBreak(tid) => Some(tid),
        ThreadStopReason::Watch { tid, .. } => Some(tid),
        _ => None,
    }
}

pub open spec fn finish_status(reason: ThreadStopReason) -> FinishExecStatus {
    match reason {
        ThreadStopReason::Exited(code) => FinishExecStatus::Disconnect(
            DisconnectReason::TargetExited(code),
        ),
        ThreadStopReason::Terminated(sig) => FinishExecStatus::Disconnect(
            DisconnectReason::TargetTerminated(sig),
        ),
        _ => FinishExecStatus::Handled,
    }
}

/// The protocol engine's state for one connection.
pub struct GdbStubImpl {
    /// The size of the packet buffer, advertised as `PacketSize`.
    pub packet_buffer_len: usize,
    /// The host's capabilities, as advertised in `qSupported`.
    pub caps: Capabilities,
    /// The width of a target address, in bytes.
    pub ptr_bytes: usize,
    /// The architecture's target description, trimmed, if it has one.
    pub tdesc_xml: Option<Vec<u8>>,
    /// Whether `+`/`-` acknowledgements are off.
    pub no_ack_mode: bool,
    /// The thread that `g`, `G`, `m` and `M` act on.
    pub current_mem_tid: Tid,
    /// The thread that `c` and `s` resume.
    pub current_resume_tid: SpecificIdKind,
}

/// What `str::trim` leaves of a string.
pub uninterp spec fn trim_of(s: Seq<char>) -> Seq<char>;

/// Relies on `str::trim`: the string without leading and trailing whitespace; what
/// it leaves depends on the characters alone.
#[verifier::external_body]
fn trim_str(s: &str) -> (r: &str)
    ensures
        r@ == trim_of(s@),
{
    s.trim()
}

/// The bytes of a string, in a vector of their own.
fn str_bytes(s: &str) -> (r: Vec<u8>)
    ensures
        r@ == s.spec_bytes(),
{
    let mut v: Vec<u8> = Vec::new();
    push_str(&mut v, s);
    assert(v@ =~= s.spec_bytes());
    v
}

impl GdbStubImpl {
    /// An engine with the given configuration, acknowledgements on, and the single
    /// thread of a single-threaded host selected for memory and all threads for resume.
    pub fn with_config(packet_buffer_len: usize, caps: Capabilities, ptr_bytes: usize, tdesc_xml: Option<Vec<u8>>) -> (r:
        GdbStubImpl)
        requires
            packet_buffer_len > 0,
            1 <= ptr_bytes <= 8,
        ensures
            r.wf(),
            r.packet_buffer_len == packet_buffer_len,
            r.caps == caps,
            r.ptr_bytes == ptr_bytes,
            r.tdesc_xml == tdesc_xml,
            !r.no_ack_mode,
            r.current_mem_tid == SINGLE_THREAD_TID,
            r.current_resume_tid == SpecificIdKind::All,
    {
        GdbStubImpl {
            packet_buffer_len,
            caps,
            ptr_bytes,
            tdesc_xml,
            no_ack_mode: false,
            current_mem_tid: SINGLE_THREAD_TID,
            current_resume_tid: SpecificIdKind::All,
        }
    }

    /// An engine for `target`: its capabilities, its architecture's address width
    /// and its target description with surrounding whitespace trimmed.
    pub fn new<T: Target>(target: &T, packet_buffer_len: usize) -> (r: GdbStubImpl)
        requires
            packet_buffer_len > 0,
        ensures
            r.wf(),
            r.packet_buffer_len == packet_buffer_len,
            !r.no_ack_mode,
            r.current_mem_tid == SINGLE_THREAD_TID,
            r.current_resume_tid == SpecificIdKind::All,
            r.tdesc_xml is Some ==> exists|xml: Seq<char>|
                r.tdesc_xml->0@ == vstd::utf8::encode_utf8(#[trigger] trim_of(xml)),
    {
        let caps = target.capabilities();
        let ptr_bytes = T::Arch::ptr_bytes();
        let tdesc_xml = match T::Arch::target_description_xml() {
            Some(xml) => {
                let trimmed = trim_str(xml);
                let bytes = str_bytes(trimmed);
                assert(bytes@ == vstd::utf8::encode_utf8(trim_of(xml@)));
                Some(bytes)
            },
            None => None,
        };
        GdbStubImpl::with_config(packet_buffer_len, caps, ptr_bytes, tdesc_xml)
    }

    /// An address is one to eight bytes wide, and the packet buffer is not empty.
    pub open spec fn wf(&self) -> bool {
        &&& 1 <= self.ptr_bytes <= 8
        &&& self.packet_buffer_len > 0
    }

    /// The same engine, with both selected threads set to `tid`.
    pub open spec fn focused_on(self, tid: Tid) -> GdbStubImpl {
        GdbStubImpl {
            current_mem_tid: tid,
            current_resume_tid: SpecificIdKind::WithId(tid),
            ..self
        }
    }

    /// The state once a stop has been reported.
    pub open spec fn after_stop(self, reason: ThreadStopReason) -> GdbStubImpl {
        match stopped_thread(reason) {
            Some(tid) => self.focused_on(tid),
            None => self,
        }
    }

    /// Selects `tid` for memory and resume, and writes the opening of its stop packet.
    pub fn write_break_common<E>(&mut self, res: &mut ResponseWriter, tid: Tid) -> (r: Result<
        (),
        Error<E>,
    >)
        requires
            old(res).wf(),
        ensures
            *final(self) == old(self).focused_on(tid),
            final(res).wf(),
            final(res).capacity() == old(res).capacity(),
            r is Ok <==> old(res)@.len() + break_prefix(tid).len() <= old(res).capacity(),
            r is Ok ==> final(res)@ == old(res)@ + break_prefix(tid),
            r is Err ==> r == Err::<(), Error<E>>(Error::PacketBufferOverflow),
    {
        let mut v: Vec<u8> = Vec::new();
        self.push_break_common(&mut v, tid);
        assert(v@ =~= break_prefix(tid));
        overflow(res.write_bytes(v.as_slice()))
    }

    /// Writes the stop packet for `stop_reason`, and says whether the session goes on.
    pub fn finish_exec<E>(&mut self, res: &mut ResponseWriter, stop_reason: ThreadStopReason) -> (r:
        Result<FinishExecStatus, Error<E>>)
        requires
            old(res).wf(),
        ensures
            final(res).wf(),
            final(res).capacity() == old(res).capacity(),
            stop_packet(old(self).caps, stop_reason) is None ==> r == Err::<
                FinishExecStatus,
                Error<E>,
            >(Error::UnsupportedStopReason) && *final(self) == *old(self) && final(res)@ == old(
                res,
            )@,
            stop_packet(old(self).caps, stop_reason) is Some ==> {
                let p = stop_packet(old(self).caps, stop_reason)->0;
                &&& *final(self) == old(self).after_stop(stop_reason)
                &&& old(res)@.len() + p.len() <= old(res).capacity() ==> r == Ok::<
                    FinishExecStatus,
                    Error<E>,
                >(finish_status(stop_reason)) && final(res)@ == old(res)@ + p
                &&& old(res)@.len() + p.len() > old(res).capacity() ==> r == Err::<
                    FinishExecStatus,
                    Error<E>,
                >(Error::PacketBufferOverflow)
            },
    {
        let caps = self.caps;
        let mut v: Vec<u8> = Vec::new();
        let status = match stop_reason {
            ThreadStopReason::DoneStep => {
                push_str(&mut v, "S05");
                FinishExecStatus::Handled
            },
            ThreadStopReason::Signal(sig) => {
                push_str(&mut v, "S");
                push_hex2(&mut v, sig);
                FinishExecStatus::Handled
            },
            ThreadStopReason::Exited(code) => {
                push_str(&mut v, "W");
                push_hex2(&mut v, code);
                FinishExecStatus::Disconnect(DisconnectReason::TargetExited(code))
            },
            ThreadStopReason::Terminated(sig) => {
                push_str(&mut v, "X");
                push_hex2(&mut v, sig);
                FinishExecStatus::Disconnect(DisconnectReason::TargetTerminated(sig))
            },
            ThreadStopReason::SwBreak(tid) => {
                if !caps.sw_breakpoint {
                    return Err(Error::UnsupportedStopReason);
                }
                self.push_break_common(&mut v, tid);
                push_str(&mut v, "swbreak:;");
                FinishExecStatus::Handled
            },
            ThreadStopReason::HwBreak(tid) => {
                if !caps.hw_breakpoint {
                    return Err(Error::UnsupportedStopReason);
                }
                self.push_break_common(&mut v, tid);
                push_str(&mut v, "hwbreak:;");
                FinishExecStatus::Handled
            },
            ThreadStopReason::Watch { tid, kind, addr } => {
                if !caps.hw_watchpoint {
                    return Err(Error::UnsupportedStopReason);
                }
                self.push_break_common(&mut v, tid);
                match kind {
                    WatchKind::Write => push_str(&mut v, "watch:"),
                    WatchKind::Read => push_str(&mut v, "rwatch:"),
                    WatchKind::ReadWrite => push_str(&mut v, "awatch:"),
                }
                push_hex_num(&mut v, addr);
                push_str(&mut v, ";");
                FinishExecStatus::Handled
            },
            ThreadStopReason::ReplayLog(pos) => {
                if !(caps.reverse_cont || caps.reverse_step) {
                    return Err(Error::UnsupportedStopReason);
                }
                push_str(&mut v, "T05");
                push_str(&mut v, "replaylog:");
                match pos {
                    ReplayLogPosition::Begin => push_str(&mut v, "begin"),
                    ReplayLogPosition::End => push_str(&mut v, "end"),
                }
                push_str(&mut v, ";");
                FinishExecStatus::Handled
            },
            ThreadStopReason::CatchSyscall { number, position } => {
                if !caps.catch_syscalls {
                    return Err(Error::UnsupportedStopReason);
                }
                push_str(&mut v, "T05");
                match position {
                    CatchSyscallPosition::Entry => push_str(&mut v, "syscall_entry:"),
                    CatchSyscallPosition::Return => push_str(&mut v, "syscall_return:"),
                }
                push_hex_num(&mut v, number);
                push_str(&mut v, ";");
                FinishExecStatus::Handled
            },
        };
        assert(v@ =~= stop_packet(old(self).caps, stop_reason)->0);
        overflow(res.write_bytes(v.as_slice()))?;
        Ok(status)
    }

    /// Selects `tid` for memory and resume, and appends the opening of its stop packet.
    fn push_break_common(&mut self, v: &mut Vec<u8>, tid: Tid)
        ensures
            *final(self) == old(self).focused_on(tid),
            final(v)@ == old(v)@ + break_prefix(tid),
    {
        self.current_mem_tid = tid;
        self.current_resume_tid = SpecificIdKind::WithId(tid);
        push_str(v, "T05");
        push_str(v, "thread:");
        push_thread_id(
            v,
            SpecificThreadId {
                pid: Some(SpecificIdKind::WithId(FAKE_PID)),
                tid: SpecificIdKind::WithId(tid),
            },
        );
        push_str(v, ";");
        assert(v@ =~= old(v)@ + break_prefix(tid));
    }

    /// The thread that "any thread" stands for: the only one of a single-threaded
    /// host, else the first that the host lists.
    pub fn get_sane_any_tid<T: Target>(&mut self, target: &mut T) -> (r: Result<Tid, Error<T::Error>>)
        ensures
            *final(self) == *old(self),
            !old(self).caps.multi_thread ==> r == Ok::<Tid, Error<T::Error>>(SINGLE_THREAD_TID),
            r is Err ==> r == Err::<Tid, Error<T::Error>>(Error::NoActiveThreads) || r->Err_0 is TargetError,
    {
        if !self.caps.multi_thread {
            return Ok(SINGLE_THREAD_TID);
        }
        any_tid_from(target.list_active_threads())
    }

    /// Hands a `vCont` action list to the host. Nothing is written: the target
    /// runs, and the reply is the stop packet that comes later.
    pub fn do_vcont<T: Target>(&mut self, target: &mut T, actions: &Vec<Option<VContAction>>) -> (r:
        Result<HandlerStatus, Error<T::Error>>)
        requires
            old(self).wf(),
        ensures
            *final(self) == *old(self),
            r is Ok ==> r == Ok::<HandlerStatus, Error<T::Error>>(HandlerStatus::DeferredStopReason),
            !old(self).caps.multi_thread ==> vcont_outcome(
                single_thread_plan::<T::Error>(old(self).caps, old(self).ptr_bytes as nat, actions@),
                r,
            ),
            old(self).caps.multi_thread ==> vcont_outcome(
                multi_thread_plan::<T::Error>(old(self).caps, old(self).ptr_bytes as nat, actions@),
                r,
            ),
    {
        if self.caps.multi_thread {
            Self::do_vcont_multi_thread(self.caps, self.ptr_bytes, target, actions)?;
        } else {
            Self::do_vcont_single_thread(self.caps, self.ptr_bytes, target, actions)?;
        }
        Ok(HandlerStatus::DeferredStopReason)
    }

    fn do_vcont_single_thread<T: Target>(
        caps: Capabilities,
        width: usize,
        target: &mut T,
        actions: &Vec<Option<VContAction>>,
    ) -> (r: Result<(), Error<T::Error>>)
        requires
            1 <= width <= 8,
        ensures
            vcont_outcome(single_thread_plan::<T::Error>(caps, width as nat, actions@), r),
    {
        let plan = plan_single_thread(caps, width, actions)?;
        let res = match plan {
            SingleResume::Resume(signal) => target.resume(signal),
            SingleResume::Step(signal) => target.step(signal),
            SingleResume::RangeStep(start, end) => target.resume_range_step(start, end),
        };
        match res {
            Ok(()) => Ok(()),
            Err(e) => Err(Error::TargetError(e)),
        }
    }

    fn do_vcont_multi_thread<T: Target>(
        caps: Capabilities,
        width: usize,
        target: &mut T,
        actions: &Vec<Option<VContAction>>,
    ) -> (r: Result<(), Error<T::Error>>)
        requires
            1 <= width <= 8,
        ensures
            vcont_outcome(multi_thread_plan::<T::Error>(caps, width as nat, actions@), r),
    {
        match target.clear_resume_actions() {
            Ok(()) => {},
            Err(e) => {
                return Err(Error::TargetError(e));
            },
        }
        let mut i: usize = 0;
        while i < actions.len()
            invariant
                0 <= i <= actions@.len(),
                1 <= width <= 8,
                multi_thread_plan::<T::Error>(caps, width as nat, actions@.subrange(0, i as int)) is Ok,
            decreases actions@.len() - i,
        {
            let ghost next = actions@.subrange(0, i + 1);
            proof {
                assert(next.drop_last() =~= actions@.subrange(0, i as int));
                if multi_thread_plan::<T::Error>(caps, width as nat, next) is Err {
                    lemma_plan_err_sticks::<T::Error>(caps, width as nat, actions@, i + 1);
                }
            }
            let action = match actions[i] {
                Some(a) => a,
                None => {
                    return Err(Error::PacketParse);
                },
            };
            let step = plan_thread_action(caps, width, action)?;
            let res = match step {
                None => Ok(()),
                Some(ThreadAction::Continue(tid, signal)) => target.set_resume_action_continue(tid, signal),
                Some(ThreadAction::Step(tid, signal)) => target.set_resume_action_step(tid, signal),
                Some(ThreadAction::RangeStep(tid, start, end)) => target.set_resume_action_range_step(
                    tid,
                    start,
                    end,
                ),
            };
            match res {
                Ok(()) => {},
                Err(e) => {
                    return Err(Error::TargetError(e));
                },
            }
            i = i + 1;
        }
        assert(actions@.subrange(0, actions@.len() as int) =~= actions@);
        match target.resume_threads() {
            Ok(()) => Ok(()),
            Err(e) => Err(Error::TargetError(e)),
        }
    }
}

/// The thread that "any thread" stands for, from the host's thread listing: the
/// first listed thread, `NoActiveThreads` for none, and the host's own error when
/// the listing failed.
pub fn any_tid_from<E>(listing: Result<Vec<Tid>, E>) -> (r: Result<Tid, Error<E>>)
    ensures
        match listing {
            Ok(l) => if l@.len() > 0 {
                r == Ok::<Tid, Error<E>>(l@[0])
            } else {
                r == Err::<Tid, Error<E>>(Error::NoActiveThreads)
            },
            Err(e) => r == Err::<Tid, Error<E>>(Error::TargetError(e)),
        },
{
    match listing {
        Ok(threads) => first_thread(&threads),
        Err(e) => Err(Error::TargetError(e)),
    }
}

/// The first thread of a list, or `NoActiveThreads` when it is empty.
pub fn first_thread<E>(threads: &Vec<Tid>) -> (r: Result<Tid, Error<E>>)
    ensures
        threads@.len() > 0 ==> r == Ok::<Tid, Error<E>>(threads@[0]),
        threads@.len() == 0 ==> r == Err::<Tid, Error<E>>(Error::NoActiveThreads),
{
    if threads.len() == 0 {
        Err(Error::NoActiveThreads)
    } else {
        Ok(threads[0])
    }
}

/// How the outcome of handing a resume to the host relates to the plan: a plan
/// that fails gives its error, unless the host failed first; the host is the
/// only other source of failure.
pub open spec fn vcont_outcome<P, E, R>(plan: Result<P, Error<E>>, r: Result<R, Error<E>>) -> bool {
    &&& r is Ok ==> plan is Ok
    &&& r is Err ==> (r->Err_0 is TargetError || (plan is Err && r->Err_0 == plan->Err_0))
    &&& plan is Err ==> r is Err
}

/// Once a prefix of the actions fails, the whole list fails the same way.
proof fn lemma_plan_err_sticks<E>(caps: Capabilities, width: nat, actions: Seq<Option<VContAction>>, k: int)
    requires
        0 <= k <= actions.len(),
        multi_thread_plan::<E>(caps, width, actions.subrange(0, k)) is Err,
    ensures
        multi_thread_plan::<E>(caps, width, actions) == multi_thread_plan::<E>(
            caps,
            width,
            actions.subrange(0, k),
        ),
    decreases actions.len(),
{
    if k == actions.len() {
        assert(actions.subrange(0, k) =~= actions);
    } else {
        assert(actions.drop_last().subrange(0, k) =~= actions.subrange(0, k));
        lemma_plan_err_sticks::<E>(caps, width, actions.drop_last(), k);
    }
}

} // verus!
