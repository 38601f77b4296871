use vstd::prelude::*;
use vstd::string::StringSliceAdditionalSpecFns;

use crate::addr::{chunk_view, memory_plan, plan_memory_read};
use crate::arch::{Arch, Registers};
use crate::codec::{escaped, hex2, push_escaped};
use crate::hex::{hex_bytes, hex_num, push_hex_num};
use crate::protocol::{
    push_thread_id, qRegisterInfo, thread_id_bytes, Base, HOp, IdKind, Pid, SpecificIdKind,
    SpecificThreadId, ThreadId, Tid, VContAction, VContKind,
};
use crate::response::{push_str, ResponseWriter};
use crate::resume::{addr_fits, fits_addr, multi_thread_plan, single_thread_plan};
use crate::stub::{
    handle_error, overflow, stop_packet, vcont_outcome, CatchSyscallPosition, DisconnectReason, Error,
    GdbStubImpl, HandlerStatus, ReplayLogPosition, ThreadStopReason, WatchKind, FAKE_PID,
    SINGLE_THREAD_TID,
};
use crate::target::{Capabilities, Target};

verus! {

/// `s` when `b` holds, else nothing.
pub open spec fn opt(b: bool, s: Seq<u8>) -> Seq<u8> {
    if b {
        s
    } else {
        Seq::empty()
    }
}

/// Whether `qXfer:features:read` is served: by the host's override or from the
/// architecture's own description.
pub open spec fn serves_features(stub: GdbStubImpl) -> bool {
    stub.caps.target_description_xml_override || stub.tdesc_xml is Some
}

/// The features that every host gets.
pub open spec fn qsupported_fixed(packet_buffer_len: nat) -> Seq<u8> {
    "PacketSize=".spec_bytes() + hex_num(packet_buffer_len) + ";vContSupported+".spec_bytes()
        + ";multiprocess+".spec_bytes() + ";QStartNoAckMode+".spec_bytes()
}

/// The reverse-execution and extended-mode features.
pub open spec fn qsupported_modes(c: Capabilities) -> Seq<u8> {
    opt(c.reverse_cont, ";ReverseContinue+".spec_bytes()) + opt(
        c.reverse_step,
        ";ReverseStep+".spec_bytes(),
    ) + opt(c.extended_mode && c.configure_aslr, ";QDisableRandomization+".spec_bytes()) + opt(
        c.extended_mode && c.configure_env,
        ";QEnvironmentHexEncoded+".spec_bytes(),
    ) + opt(c.extended_mode && c.configure_env, ";QEnvironmentUnset+".spec_bytes()) + opt(
        c.extended_mode && c.configure_env,
        ";QEnvironmentReset+".spec_bytes(),
    ) + opt(c.extended_mode && c.configure_startup_shell, ";QStartupWithShell+".spec_bytes())
        + opt(c.extended_mode && c.configure_working_dir, ";QSetWorkingDir+".spec_bytes())
}

/// The breakpoint, syscall and transfer features.
pub open spec fn qsupported_extras(stub: GdbStubImpl) -> Seq<u8> {
    let c = stub.caps;
    opt(c.sw_breakpoint, ";swbreak+".spec_bytes()) + opt(
        c.hw_breakpoint || c.hw_watchpoint,
        ";hwbreak+".spec_bytes(),
    ) + opt(c.catch_syscalls, ";QCatchSyscalls+".spec_bytes()) + opt(
        serves_features(stub),
        ";qXfer:features:read+".spec_bytes(),
    ) + opt(c.memory_map, ";qXfer:memory-map:read+".spec_bytes()) + opt(
        c.exec_file,
        ";qXfer:exec-file:read+".spec_bytes(),
    ) + opt(c.auxv, ";qXfer:auxv:read+".spec_bytes())
}

/// The reply to `qSupported`: the fixed features, then one entry for each
/// capability the host offers.
pub open spec fn qsupported_bytes(stub: GdbStubImpl) -> Seq<u8> {
    qsupported_fixed(stub.packet_buffer_len as nat) + qsupported_modes(stub.caps)
        + qsupported_extras(stub)
}

/// The reply to `vCont?`: continue always, step and range step when offered.
pub open spec fn vcont_query_bytes(caps: Capabilities) -> Seq<u8> {
    "vCont;c;C".spec_bytes() + opt(caps.single_step, ";s;S".spec_bytes()) + opt(
        caps.range_step,
        ";r".spec_bytes(),
    )
}

/// The register bytes as `g` sends them: two hex digits per byte, `xx` where a
/// byte is not available.
pub open spec fn register_bytes(vals: Seq<Option<u8>>) -> Seq<u8>
    decreases vals.len(),
{
    if vals.len() == 0 {
        Seq::empty()
    } else {
        register_bytes(vals.drop_last()) + match vals.last() {
            Some(b) => hex2(b),
            None => "xx".spec_bytes(),
        }
    }
}

/// The thread id that thread lists report for `tid`.
pub open spec fn listed_thread(tid: usize) -> SpecificThreadId {
    SpecificThreadId { pid: Some(SpecificIdKind::WithId(FAKE_PID)), tid: SpecificIdKind::WithId(tid) }
}

/// The threads of a `qfThreadInfo` reply, comma-separated.
pub open spec fn thread_list_bytes(tids: Seq<usize>) -> Seq<u8>
    decreases tids.len(),
{
    if tids.len() == 0 {
        Seq::empty()
    } else if tids.len() == 1 {
        thread_id_bytes(listed_thread(tids[0]))
    } else {
        thread_list_bytes(tids.drop_last()) + ",".spec_bytes() + thread_id_bytes(
            listed_thread(tids.last()),
        )
    }
}

/// The part `[min(offset, n), min(offset + length, n))` of `n` bytes.
pub open spec fn window(xml: Seq<u8>, offset: nat, length: nat) -> Seq<u8> {
    let n = xml.len();
    let start = if offset < n { offset } else { n };
    let end = if offset + length < n { offset + length } else { n };
    xml.subrange(start as int, end as int)
}

/// The reply to `qXfer:features:read` from the architecture's description: `l`
/// when the window is empty or reaches the end, else `m`, then the window's bytes.
pub open spec fn features_reply(xml: Seq<u8>, offset: nat, length: nat) -> Seq<u8> {
    (if window(xml, offset, length).len() == 0 || offset + length >= xml.len() {
        "l".spec_bytes()
    } else {
        "m".spec_bytes()
    }) + escaped(window(xml, offset, length))
}

/// The reply, and the outcome, that a command gets without the host being asked
/// anything; `None` for commands that consult the host.
pub open spec fn pure_reply<E>(stub: GdbStubImpl, cmd: Base) -> Option<
    Result<(Seq<u8>, HandlerStatus), Error<E>>,
> {
    match cmd {
        Base::qSupported => Some(Ok((qsupported_bytes(stub), HandlerStatus::Handled))),
        Base::QStartNoAckMode => Some(Ok((Seq::empty(), HandlerStatus::NeedsOk))),
        Base::qXferFeaturesRead { offset, length } => if stub.caps.target_description_xml_override {
            None
        } else {
            match stub.tdesc_xml {
                Some(xml) => Some(
                    Ok((features_reply(xml@, offset as nat, length as nat), HandlerStatus::Handled)),
                ),
                None => Some(Err(Error::PacketUnexpected)),
            }
        },
        Base::QuestionMark => Some(Ok(("S05".spec_bytes(), HandlerStatus::Handled))),
        Base::qAttached(_) => if stub.caps.extended_mode {
            None
        } else {
            Some(Ok(("1".spec_bytes(), HandlerStatus::Handled)))
        },
        Base::k | Base::vKill(_) => if stub.caps.extended_mode {
            None
        } else {
            Some(Ok((Seq::empty(), HandlerStatus::Disconnect(DisconnectReason::Kill))))
        },
        Base::D => Some(
            Ok(("OK".spec_bytes(), HandlerStatus::Disconnect(DisconnectReason::Disconnect))),
        ),
        Base::vContQuery => Some(Ok((vcont_query_bytes(stub.caps), HandlerStatus::Handled))),
        Base::qsThreadInfo => Some(Ok(("l".spec_bytes(), HandlerStatus::Handled))),
        Base::qfThreadInfo => if stub.caps.multi_thread {
            None
        } else {
            Some(
                Ok(
                    (
                        "m".spec_bytes() + thread_id_bytes(listed_thread(SINGLE_THREAD_TID)),
                        HandlerStatus::Handled,
                    ),
                ),
            )
        },
        _ => None,
    }
}

/// `after` holds `before` followed by `p` and the outcome is `st`, or `p` did not
/// fit and the outcome is an overflow.
pub open spec fn wrote<E>(
    before: ResponseWriter,
    after: ResponseWriter,
    p: Seq<u8>,
    r: Result<HandlerStatus, Error<E>>,
    st: HandlerStatus,
) -> bool {
    &&& before@.len() + p.len() <= before.capacity() ==> r == Ok::<HandlerStatus, Error<E>>(st)
        && after@ == before@ + p
    &&& before@.len() + p.len() > before.capacity() ==> r == Err::<HandlerStatus, Error<E>>(
        Error::PacketBufferOverflow,
    )
}

/// Writes a whole reply at once and reports `st` when it fits.
fn reply<E>(res: &mut ResponseWriter, v: &Vec<u8>, st: HandlerStatus) -> (r: Result<
    HandlerStatus,
    Error<E>,
>)
    requires
        old(res).wf(),
    ensures
        final(res).wf(),
        final(res).capacity() == old(res).capacity(),
        wrote(*old(res), *final(res), v@, r, st),
{
    overflow(res.write_bytes(v.as_slice()))?;
    Ok(st)
}

/// The bytes `xml[start..end]`.
fn copy_range(xml: &Vec<u8>, start: usize, end: usize) -> (r: Vec<u8>)
    requires
        start <= end <= xml@.len(),
    ensures
        r@ == xml@.subrange(start as int, end as int),
{
    let mut out: Vec<u8> = Vec::new();
    let mut i: usize = start;
    while i < end
        invariant
            start <= i <= end <= xml@.len(),
            out@ == xml@.subrange(start as int, i as int),
        decreases end - i,
    {
        out.push(xml[i]);
        assert(xml@.subrange(start as int, i + 1) =~= xml@.subrange(start as int, i as int).push(
            xml@[i as int],
        ));
        i = i + 1;
    }
    out
}

/// Appends the register bytes as `g` sends them.
pub fn push_register_bytes(v: &mut Vec<u8>, vals: &Vec<Option<u8>>)
    ensures
        final(v)@ == old(v)@ + register_bytes(vals@),
{
    let mut i: usize = 0;
    while i < vals.len()
        invariant
            0 <= i <= vals@.len(),
            v@ == old(v)@ + register_bytes(vals@.subrange(0, i as int)),
        decreases vals@.len() - i,
    {
        let ghost before = v@;
        match vals[i] {
            Some(b) => {
                v.push(crate::hex::hex_digit_exec(b / 16));
                v.push(crate::hex::hex_digit_exec(b % 16));
            },
            None => push_str(v, "xx"),
        }
        proof {
            let next = vals@.subrange(0, i + 1);
            assert(next.drop_last() =~= vals@.subrange(0, i as int));
        }
        assert(v@ =~= old(v)@ + register_bytes(vals@.subrange(0, i + 1)));
        i = i + 1;
    }
    assert(vals@.subrange(0, vals@.len() as int) =~= vals@);
}

/// Appends `s` when `b` holds.
fn push_opt(v: &mut Vec<u8>, b: bool, s: &str)
    ensures
        final(v)@ == old(v)@ + opt(b, s.spec_bytes()),
{
    if b {
        push_str(v, s);
    } else {
        assert(v@ =~= v@ + Seq::<u8>::empty());
    }
}

/// Appends `s` when `b` holds, and regroups the concatenation so that what came
/// before stays one sequence.
fn push_opt_after(v: &mut Vec<u8>, Ghost(base): Ghost<Seq<u8>>, Ghost(acc): Ghost<Seq<u8>>, b: bool, s: &str)
    requires
        old(v)@ == base + acc,
    ensures
        final(v)@ == base + (acc + opt(b, s.spec_bytes())),
{
    push_opt(v, b, s);
    proof {
        vstd::seq_lib::lemma_concat_associative(base, acc, opt(b, s.spec_bytes()));
    }
}

fn push_qsupported_modes(v: &mut Vec<u8>, c: Capabilities)
    ensures
        final(v)@ == old(v)@ + qsupported_modes(c),
{
    let ghost base = v@;
    let ext = c.extended_mode;
    push_opt(v, c.reverse_cont, ";ReverseContinue+");
    let ghost acc = opt(c.reverse_cont, ";ReverseContinue+".spec_bytes());
    push_opt_after(v, Ghost(base), Ghost(acc), c.reverse_step, ";ReverseStep+");
    let ghost acc = acc + opt(c.reverse_step, ";ReverseStep+".spec_bytes());
    push_opt_after(v, Ghost(base), Ghost(acc), ext && c.configure_aslr, ";QDisableRandomization+");
    let ghost acc = acc + opt(ext && c.configure_aslr, ";QDisableRandomization+".spec_bytes());
    push_opt_after(v, Ghost(base), Ghost(acc), ext && c.configure_env, ";QEnvironmentHexEncoded+");
    let ghost acc = acc + opt(ext && c.configure_env, ";QEnvironmentHexEncoded+".spec_bytes());
    push_opt_after(v, Ghost(base), Ghost(acc), ext && c.configure_env, ";QEnvironmentUnset+");
    let ghost acc = acc + opt(ext && c.configure_env, ";QEnvironmentUnset+".spec_bytes());
    push_opt_after(v, Ghost(base), Ghost(acc), ext && c.configure_env, ";QEnvironmentReset+");
    let ghost acc = acc + opt(ext && c.configure_env, ";QEnvironmentReset+".spec_bytes());
    push_opt_after(v, Ghost(base), Ghost(acc), ext && c.configure_startup_shell, ";QStartupWithShell+");
    let ghost acc = acc + opt(ext && c.configure_startup_shell, ";QStartupWithShell+".spec_bytes());
    push_opt_after(v, Ghost(base), Ghost(acc), ext && c.configure_working_dir, ";QSetWorkingDir+");
}

impl GdbStubImpl {
    fn push_qsupported_extras(&self, v: &mut Vec<u8>)
        ensures
            final(v)@ == old(v)@ + qsupported_extras(*self),
    {
        let c = self.caps;
        let ghost base = v@;
        let features = self.tdesc_xml.is_some() || c.target_description_xml_override;
        push_opt(v, c.sw_breakpoint, ";swbreak+");
        let ghost acc = opt(c.sw_breakpoint, ";swbreak+".spec_bytes());
        push_opt_after(v, Ghost(base), Ghost(acc), c.hw_breakpoint || c.hw_watchpoint, ";hwbreak+");
        let ghost acc = acc + opt(c.hw_breakpoint || c.hw_watchpoint, ";hwbreak+".spec_bytes());
        push_opt_after(v, Ghost(base), Ghost(acc), c.catch_syscalls, ";QCatchSyscalls+");
        let ghost acc = acc + opt(c.catch_syscalls, ";QCatchSyscalls+".spec_bytes());
        push_opt_after(v, Ghost(base), Ghost(acc), features, ";qXfer:features:read+");
        let ghost acc = acc + opt(features, ";qXfer:features:read+".spec_bytes());
        push_opt_after(v, Ghost(base), Ghost(acc), c.memory_map, ";qXfer:memory-map:read+");
        let ghost acc = acc + opt(c.memory_map, ";qXfer:memory-map:read+".spec_bytes());
        push_opt_after(v, Ghost(base), Ghost(acc), c.exec_file, ";qXfer:exec-file:read+");
        let ghost acc = acc + opt(c.exec_file, ";qXfer:exec-file:read+".spec_bytes());
        push_opt_after(v, Ghost(base), Ghost(acc), c.auxv, ";qXfer:auxv:read+");
    }

    /// The engine's fixed configuration is the same in both.
    pub open spec fn same_config(self, other: GdbStubImpl) -> bool {
        &&& self.packet_buffer_len == other.packet_buffer_len
        &&& self.caps == other.caps
        &&& self.ptr_bytes == other.ptr_bytes
        &&& self.tdesc_xml == other.tdesc_xml
    }

    /// Answers `qSupported` with the packet size and the features on offer.
    pub fn handle_qsupported<E>(&self, res: &mut ResponseWriter) -> (r: Result<HandlerStatus, Error<E>>)
        requires
            old(res).wf(),
        ensures
            final(res).wf(),
            final(res).capacity() == old(res).capacity(),
            wrote(*old(res), *final(res), qsupported_bytes(*self), r, HandlerStatus::Handled),
    {
        let mut v: Vec<u8> = Vec::new();
        push_str(&mut v, "PacketSize=");
        push_hex_num(&mut v, self.packet_buffer_len as u64);
        push_str(&mut v, ";vContSupported+");
        push_str(&mut v, ";multiprocess+");
        push_str(&mut v, ";QStartNoAckMode+");
        assert(v@ =~= qsupported_fixed(self.packet_buffer_len as nat));
        push_qsupported_modes(&mut v, self.caps);
        self.push_qsupported_extras(&mut v);
        reply(res, &v, HandlerStatus::Handled)
    }

    /// Answers `vCont?` with the resume actions on offer.
    pub fn handle_vcont_query<E>(&self, res: &mut ResponseWriter) -> (r: Result<HandlerStatus, Error<E>>)
        requires
            old(res).wf(),
        ensures
            final(res).wf(),
            final(res).capacity() == old(res).capacity(),
            wrote(*old(res), *final(res), vcont_query_bytes(self.caps), r, HandlerStatus::Handled),
    {
        let mut v: Vec<u8> = Vec::new();
        push_str(&mut v, "vCont;c;C");
        if self.caps.single_step {
            push_str(&mut v, ";s;S");
        }
        if self.caps.range_step {
            push_str(&mut v, ";r");
        }
        assert(v@ =~= vcont_query_bytes(self.caps));
        reply(res, &v, HandlerStatus::Handled)
    }

    /// Serves the target description: the host's override when it has one, else a
    /// window of the architecture's description.
    pub fn handle_xfer_features<T: Target>(
        &self,
        res: &mut ResponseWriter,
        target: &mut T,
        offset: u64,
        length: usize,
    ) -> (r: Result<HandlerStatus, Error<T::Error>>)
        requires
            old(res).wf(),
        ensures
            final(res).wf(),
            final(res).capacity() == old(res).capacity(),
            !serves_features(*self) ==> r == Err::<HandlerStatus, Error<T::Error>>(
                Error::PacketUnexpected,
            ) && final(res)@ == old(res)@,
            serves_features(*self) ==> r != Err::<HandlerStatus, Error<T::Error>>(
                Error::PacketUnexpected,
            ),
            !self.caps.target_description_xml_override && self.tdesc_xml is Some ==> wrote(
                *old(res),
                *final(res),
                features_reply(self.tdesc_xml->0@, offset as nat, length as nat),
                r,
                HandlerStatus::Handled,
            ),
            self.caps.target_description_xml_override && r is Ok ==> exists|data: Seq<u8>|
                final(res)@ == old(res)@ + #[trigger] override_reply(data),
            r is Ok ==> r == Ok::<HandlerStatus, Error<T::Error>>(HandlerStatus::Handled),
    {
        if self.caps.target_description_xml_override {
            return match target.target_description_xml_override(offset, length) {
                Ok(data) => write_override_reply(res, &data),
                Err(e) => Err(handle_error(e)),
            };
        }
        let mut v: Vec<u8> = Vec::new();
        match &self.tdesc_xml {
            None => Err(Error::PacketUnexpected),
            Some(xml) => {
                let n = xml.len();
                let (start, end, at_end) = if offset >= n as u64 {
                    (n, n, true)
                } else {
                    let start = offset as usize;
                    if length < n - start {
                        (start, start + length, length == 0)
                    } else {
                        (start, n, true)
                    }
                };
                let data = copy_range(xml, start, end);
                assert(data@ == window(xml@, offset as nat, length as nat));
                if at_end {
                    push_str(&mut v, "l");
                } else {
                    push_str(&mut v, "m");
                }
                push_escaped(&mut v, data.as_slice());
                assert(v@ =~= features_reply(xml@, offset as nat, length as nat));
                reply(res, &v, HandlerStatus::Handled)
            },
        }
    }

    /// Answers `qAttached`: outside extended mode the stub is taken to be attached
    /// to an existing process; in it, the host says.
    pub fn handle_qattached<T: Target>(
        &self,
        res: &mut ResponseWriter,
        target: &mut T,
        pid: Option<Pid>,
    ) -> (r: Result<HandlerStatus, Error<T::Error>>)
        requires
            old(res).wf(),
        ensures
            final(res).wf(),
            final(res).capacity() == old(res).capacity(),
            !self.caps.extended_mode ==> wrote(*old(res), *final(res), "1".spec_bytes(), r, HandlerStatus::Handled),
            self.caps.extended_mode && pid is None ==> r == Err::<HandlerStatus, Error<T::Error>>(
                Error::PacketUnexpected,
            ) && final(res)@ == old(res)@,
            self.caps.extended_mode && pid is Some ==> r != Err::<HandlerStatus, Error<T::Error>>(
                Error::PacketUnexpected,
            ),
            r is Ok ==> exists|attached: bool|
                final(res)@ == old(res)@ + #[trigger] attached_bytes(attached),
            r is Ok ==> r == Ok::<HandlerStatus, Error<T::Error>>(HandlerStatus::Handled),
    {
        if !self.caps.extended_mode {
            return write_attached_reply(res, true);
        }
        let p = match pid {
            Some(p) => p,
            None => {
                return Err(Error::PacketUnexpected);
            },
        };
        match target.query_if_attached(p) {
            Ok(a) => write_attached_reply(res, a),
            Err(e) => Err(handle_error(e)),
        }
    }

    /// `k` and `vKill`: outside extended mode the session ends; in it, the host
    /// decides, and `OK` precedes an ending.
    pub fn handle_kill<T: Target>(
        &self,
        res: &mut ResponseWriter,
        target: &mut T,
        pid: Option<Pid>,
    ) -> (r: Result<HandlerStatus, Error<T::Error>>)
        requires
            old(res).wf(),
        ensures
            final(res).wf(),
            final(res).capacity() == old(res).capacity(),
            !self.caps.extended_mode ==> r == Ok::<HandlerStatus, Error<T::Error>>(
                HandlerStatus::Disconnect(DisconnectReason::Kill),
            ) && final(res)@ == old(res)@,
            self.caps.extended_mode && r == Ok::<HandlerStatus, Error<T::Error>>(
                HandlerStatus::Disconnect(DisconnectReason::Kill),
            ) ==> final(res)@ == old(res)@ + "OK".spec_bytes(),
            r is Ok ==> r == Ok::<HandlerStatus, Error<T::Error>>(
                HandlerStatus::Disconnect(DisconnectReason::Kill),
            ) || (r == Ok::<HandlerStatus, Error<T::Error>>(HandlerStatus::NeedsOk)
                && final(res)@ == old(res)@),
            r != Err::<HandlerStatus, Error<T::Error>>(Error::PacketUnexpected),
    {
        if !self.caps.extended_mode {
            return Ok(HandlerStatus::Disconnect(DisconnectReason::Kill));
        }
        match target.kill(pid) {
            Ok(should_terminate) => kill_outcome(res, should_terminate),
            Err(e) => Err(handle_error(e)),
        }
    }

    /// Answers `qRegisterInfo<n>` from the host's register info, if it offers any.
    /// Without the capability nothing is written, which the client reads as an
    /// unsupported packet.
    pub fn handle_register_info<T: Target>(
        &mut self,
        res: &mut ResponseWriter,
        target: &mut T,
        command: qRegisterInfo,
    ) -> (r: Result<HandlerStatus, Error<T::Error>>)
        requires
            old(res).wf(),
        ensures
            *final(self) == *old(self),
            final(res).wf(),
            final(res).capacity() == old(res).capacity(),
            !old(self).caps.register_info ==> r == Ok::<HandlerStatus, Error<T::Error>>(
                HandlerStatus::Handled,
            ) && final(res)@ == old(res)@,
            r is Ok ==> r == Ok::<HandlerStatus, Error<T::Error>>(HandlerStatus::Handled) || (r
                == Ok::<HandlerStatus, Error<T::Error>>(HandlerStatus::NeedsOk)
                && final(res)@ == old(res)@),
            r is Err ==> r == Err::<HandlerStatus, Error<T::Error>>(Error::PacketBufferOverflow),
    {
        if !self.caps.register_info {
            return Ok(HandlerStatus::Handled);
        }
        register_info_reply(res, target.get_register_info(command.0))
    }

    /// `g`: reads the register file of the selected thread and sends its bytes.
    pub fn handle_g<T: Target>(&self, res: &mut ResponseWriter, target: &mut T) -> (r: Result<
        HandlerStatus,
        Error<T::Error>,
    >)
        requires
            old(res).wf(),
        ensures
            final(res).wf(),
            final(res).capacity() == old(res).capacity(),
            r is Ok ==> r == Ok::<HandlerStatus, Error<T::Error>>(HandlerStatus::Handled) && exists|
                vals: Seq<Option<u8>>,
            | final(res)@ == old(res)@ + register_bytes(vals),
            r is Err ==> r == Err::<HandlerStatus, Error<T::Error>>(Error::PacketBufferOverflow)
                || r->Err_0 is NonFatalError || r->Err_0 is TargetError,
    {
        let mut regs: <T::Arch as Arch>::Registers = Default::default();
        match target.read_registers(&mut regs, self.current_mem_tid) {
            Ok(()) => {},
            Err(e) => {
                return Err(handle_error(e));
            },
        }
        let vals = regs.gdb_serialize();
        let mut v: Vec<u8> = Vec::new();
        push_register_bytes(&mut v, &vals);
        reply(res, &v, HandlerStatus::Handled)
    }

    /// `G`: loads the register file from the packet's bytes and hands it to the
    /// host; `TargetMismatch` when the register file rejects the bytes.
    pub fn handle_big_g<T: Target>(&self, target: &mut T, vals: &Vec<u8>) -> (r: Result<
        HandlerStatus,
        Error<T::Error>,
    >)
        ensures
            r is Ok ==> r == Ok::<HandlerStatus, Error<T::Error>>(HandlerStatus::NeedsOk),
            r is Err ==> r == Err::<HandlerStatus, Error<T::Error>>(Error::TargetMismatch)
                || r->Err_0 is NonFatalError || r->Err_0 is TargetError,
    {
        let mut regs: <T::Arch as Arch>::Registers = Default::default();
        match regs.gdb_deserialize(vals.as_slice()) {
            Ok(()) => {},
            Err(()) => {
                return Err(Error::TargetMismatch);
            },
        }
        match target.write_registers(&regs, self.current_mem_tid) {
            Ok(()) => Ok(HandlerStatus::NeedsOk),
            Err(e) => Err(handle_error(e)),
        }
    }

    /// `m`: reads `len` bytes at `addr` in the pieces that `memory_plan` gives,
    /// and sends them in hex.
    pub fn handle_m<T: Target>(
        &self,
        res: &mut ResponseWriter,
        target: &mut T,
        addr: u64,
        len: usize,
    ) -> (r: Result<HandlerStatus, Error<T::Error>>)
        requires
            old(res).wf(),
            self.wf(),
        ensures
            final(res).wf(),
            final(res).capacity() == old(res).capacity(),
            memory_plan(addr as nat, len as nat, self.packet_buffer_len as nat, self.ptr_bytes as nat)
                is None <==> r == Err::<HandlerStatus, Error<T::Error>>(Error::TargetMismatch),
            r == Err::<HandlerStatus, Error<T::Error>>(Error::TargetMismatch) ==> final(res)@ == old(
                res)@,
            fits_addr(addr as nat, self.ptr_bytes as nat) && len == 0 ==> r == Ok::<
                HandlerStatus,
                Error<T::Error>,
            >(HandlerStatus::Handled) && final(res)@ == old(res)@,
            r is Ok ==> r == Ok::<HandlerStatus, Error<T::Error>>(HandlerStatus::Handled) && exists|
                data: Seq<u8>,
            | final(res)@ == old(res)@ + hex_bytes(data),
            r is Err ==> r == Err::<HandlerStatus, Error<T::Error>>(Error::TargetMismatch) || r
                == Err::<HandlerStatus, Error<T::Error>>(Error::PacketBufferOverflow)
                || r->Err_0 is NonFatalError || r->Err_0 is TargetError,
    {
        let plan = match plan_memory_read(addr, len, self.packet_buffer_len, self.ptr_bytes) {
            Some(p) => p,
            None => {
                return Err(Error::TargetMismatch);
            },
        };
        proof {
            if len == 0 {
                assert(plan@.map_values(|c: (u64, usize)| chunk_view(c)).len() == plan@.len());
            }
        }
        let ghost mut got: Seq<u8> = Seq::empty();
        assert(old(res)@ + hex_bytes(got) =~= old(res)@);
        let mut k: usize = 0;
        while k < plan.len()
            invariant
                0 <= k <= plan@.len(),
                res.wf(),
                res.capacity() == old(res).capacity(),
                res@ == old(res)@ + hex_bytes(got),
                len == 0 ==> plan@.len() == 0,
                k == 0 ==> got == Seq::<u8>::empty(),
                memory_plan(addr as nat, len as nat, self.packet_buffer_len as nat, self.ptr_bytes as nat)
                    is Some,
            decreases plan@.len() - k,
        {
            let (a, n) = plan[k];
            let data = match target.read_addrs(a, n, self.current_mem_tid) {
                Ok(d) => d,
                Err(e) => {
                    return Err(handle_error(e));
                },
            };
            overflow(res.write_hex_buf(data.as_slice()))?;
            proof {
                crate::hex::lemma_hex_bytes_concat(got, data@);
                vstd::seq_lib::lemma_concat_associative(old(res)@, hex_bytes(got), hex_bytes(data@));
                got = got + data@;
            }
            k = k + 1;
        }
        Ok(HandlerStatus::Handled)
    }

    /// `M`: writes the packet's bytes at `addr`.
    pub fn handle_big_m<T: Target>(&self, target: &mut T, addr: u64, val: &Vec<u8>) -> (r:
        Result<HandlerStatus, Error<T::Error>>)
        requires
            self.wf(),
        ensures
            !fits_addr(addr as nat, self.ptr_bytes as nat) <==> r == Err::<
                HandlerStatus,
                Error<T::Error>,
            >(Error::TargetMismatch),
            r is Ok ==> r == Ok::<HandlerStatus, Error<T::Error>>(HandlerStatus::NeedsOk),
            r is Err ==> r == Err::<HandlerStatus, Error<T::Error>>(Error::TargetMismatch)
                || r->Err_0 is NonFatalError || r->Err_0 is TargetError,
    {
        if !addr_fits(addr, self.ptr_bytes) {
            return Err(Error::TargetMismatch);
        }
        match target.write_addrs(addr, val.as_slice(), self.current_mem_tid) {
            Ok(()) => Ok(HandlerStatus::NeedsOk),
            Err(e) => Err(handle_error(e)),
        }
    }
    /// The engine with `tid` selected for what `op` selects.
    pub open spec fn selecting(self, op: HOp, tid: SpecificIdKind) -> GdbStubImpl {
        match op {
            HOp::Other => match tid {
                SpecificIdKind::WithId(t) => GdbStubImpl { current_mem_tid: t, ..self },
                SpecificIdKind::All => self,
            },
            HOp::StepContinue => GdbStubImpl { current_resume_tid: tid, ..self },
        }
    }

    /// `H`: selects the thread for memory and register access (`Hg`) or for `c`
    /// and `s` (`Hc`). "Any" stands for the thread that `get_sane_any_tid` picks;
    /// "all" cannot be selected for memory.
    pub fn handle_h<T: Target>(&mut self, target: &mut T, op: HOp, thread: ThreadId) -> (r: Result<
        HandlerStatus,
        Error<T::Error>,
    >)
        requires
            old(self).wf(),
        ensures
            final(self).wf(),
            final(self).same_config(*old(self)),
            final(self).no_ack_mode == old(self).no_ack_mode,
            r is Ok ==> r == Ok::<HandlerStatus, Error<T::Error>>(HandlerStatus::NeedsOk),
            r is Err ==> *final(self) == *old(self),
            op == HOp::Other && thread.tid == IdKind::All ==> r == Err::<
                HandlerStatus,
                Error<T::Error>,
            >(Error::PacketUnexpected),
            forall|t: Tid|
                thread.tid == IdKind::WithId(t) ==> r == Ok::<HandlerStatus, Error<T::Error>>(
                    HandlerStatus::NeedsOk,
                ) && *final(self) == old(self).selecting(op, SpecificIdKind::WithId(t)),
            op == HOp::StepContinue && thread.tid == IdKind::All ==> r == Ok::<
                HandlerStatus,
                Error<T::Error>,
            >(HandlerStatus::NeedsOk) && *final(self) == old(self).selecting(op, SpecificIdKind::All),
            thread.tid == IdKind::Any && !old(self).caps.multi_thread ==> r == Ok::<
                HandlerStatus,
                Error<T::Error>,
            >(HandlerStatus::NeedsOk) && *final(self) == old(self).selecting(
                op,
                SpecificIdKind::WithId(SINGLE_THREAD_TID),
            ),
            thread.tid == IdKind::Any && r is Ok ==> exists|t: Tid|
                *final(self) == old(self).selecting(op, SpecificIdKind::WithId(t)),
    {
        let tid = match thread.tid {
            IdKind::Any => SpecificIdKind::WithId(self.get_sane_any_tid(target)?),
            IdKind::All => SpecificIdKind::All,
            IdKind::WithId(t) => SpecificIdKind::WithId(t),
        };
        match op {
            HOp::Other => match tid {
                SpecificIdKind::All => {
                    return Err(Error::PacketUnexpected);
                },
                SpecificIdKind::WithId(t) => {
                    self.current_mem_tid = t;
                },
            },
            HOp::StepContinue => {
                self.current_resume_tid = tid;
            },
        }
        proof {
            if tid is WithId {
                assert(*self == old(self).selecting(op, SpecificIdKind::WithId(tid->WithId_0)));
            }
        }
        Ok(HandlerStatus::NeedsOk)
    }

    /// `qfThreadInfo`: `m` and the active threads, comma-separated.
    pub fn handle_qf_thread_info<T: Target>(&self, res: &mut ResponseWriter, target: &mut T) -> (r:
        Result<HandlerStatus, Error<T::Error>>)
        requires
            old(res).wf(),
        ensures
            final(res).wf(),
            final(res).capacity() == old(res).capacity(),
            !self.caps.multi_thread ==> wrote(
                *old(res),
                *final(res),
                "m".spec_bytes() + thread_id_bytes(listed_thread(SINGLE_THREAD_TID)),
                r,
                HandlerStatus::Handled,
            ),
            r is Ok ==> r == Ok::<HandlerStatus, Error<T::Error>>(HandlerStatus::Handled),
            self.caps.multi_thread && r is Ok ==> exists|tids: Seq<Tid>|
                final(res)@ == old(res)@ + ("m".spec_bytes() + #[trigger] thread_list_bytes(tids)),
            r is Err ==> r == Err::<HandlerStatus, Error<T::Error>>(Error::PacketBufferOverflow)
                || r->Err_0 is TargetError,
    {
        let mut v: Vec<u8> = Vec::new();
        push_str(&mut v, "m");
        if !self.caps.multi_thread {
            push_thread_id(
                &mut v,
                SpecificThreadId {
                    pid: Some(SpecificIdKind::WithId(FAKE_PID)),
                    tid: SpecificIdKind::WithId(SINGLE_THREAD_TID),
                },
            );
        } else {
            let threads = match target.list_active_threads() {
                Ok(t) => t,
                Err(e) => {
                    return Err(Error::TargetError(e));
                },
            };
            push_thread_list(&mut v, &threads);
        }
        reply(res, &v, HandlerStatus::Handled)
    }

    /// `T<thread>`: `OK` when the thread is alive, else the recoverable error 1.
    pub fn handle_t<T: Target>(&self, target: &mut T, thread: ThreadId) -> (r: Result<
        HandlerStatus,
        Error<T::Error>,
    >)
        ensures
            !(thread.tid is WithId) ==> r == Err::<HandlerStatus, Error<T::Error>>(
                Error::PacketUnexpected,
            ),
            !self.caps.multi_thread && thread.tid is WithId ==> r == alive_spec::<T::Error>(
                Ok(thread.tid->WithId_0 == SINGLE_THREAD_TID),
            ),
            self.caps.multi_thread && thread.tid is WithId ==> exists|answer: Result<bool, T::Error>|
                r == #[trigger] alive_spec(answer),
    {
        let tid = match thread.tid {
            IdKind::WithId(t) => t,
            _ => {
                return Err(Error::PacketUnexpected);
            },
        };
        if !self.caps.multi_thread {
            alive_outcome(Ok(tid == SINGLE_THREAD_TID))
        } else {
            alive_outcome(target.is_thread_alive(tid))
        }
    }
}

/// The bytes `qAttached` answers: `1` when attached to an existing process.
pub open spec fn attached_bytes(attached: bool) -> Seq<u8> {
    if attached {
        "1".spec_bytes()
    } else {
        "0".spec_bytes()
    }
}

/// Writes the `qAttached` reply for the host's answer.
pub fn write_attached_reply<E>(res: &mut ResponseWriter, attached: bool) -> (r: Result<
    HandlerStatus,
    Error<E>,
>)
    requires
        old(res).wf(),
    ensures
        final(res).wf(),
        final(res).capacity() == old(res).capacity(),
        wrote(*old(res), *final(res), attached_bytes(attached), r, HandlerStatus::Handled),
{
    let mut v: Vec<u8> = Vec::new();
    if attached {
        push_str(&mut v, "1");
    } else {
        push_str(&mut v, "0");
    }
    reply(res, &v, HandlerStatus::Handled)
}

/// The `qXfer:features:read` reply for the host's own description data: `l` for
/// none, else `m` and the data.
pub open spec fn override_reply(data: Seq<u8>) -> Seq<u8> {
    if data.len() == 0 {
        "l".spec_bytes()
    } else {
        "m".spec_bytes() + escaped(data)
    }
}

/// Writes the `qXfer:features:read` reply for the host's data.
pub fn write_override_reply<E>(res: &mut ResponseWriter, data: &Vec<u8>) -> (r: Result<
    HandlerStatus,
    Error<E>,
>)
    requires
        old(res).wf(),
    ensures
        final(res).wf(),
        final(res).capacity() == old(res).capacity(),
        wrote(*old(res), *final(res), override_reply(data@), r, HandlerStatus::Handled),
{
    let mut v: Vec<u8> = Vec::new();
    if data.len() == 0 {
        push_str(&mut v, "l");
    } else {
        push_str(&mut v, "m");
        push_escaped(&mut v, data.as_slice());
    }
    reply(res, &v, HandlerStatus::Handled)
}

/// What an extended-mode kill leads to, given whether the host ends the session:
/// `OK` and a disconnect, or a plain `OK` still to come.
pub fn kill_outcome<E>(res: &mut ResponseWriter, should_terminate: bool) -> (r: Result<
    HandlerStatus,
    Error<E>,
>)
    requires
        old(res).wf(),
    ensures
        final(res).wf(),
        final(res).capacity() == old(res).capacity(),
        should_terminate ==> wrote(
            *old(res),
            *final(res),
            "OK".spec_bytes(),
            r,
            HandlerStatus::Disconnect(DisconnectReason::Kill),
        ),
        !should_terminate ==> r == Ok::<HandlerStatus, Error<E>>(HandlerStatus::NeedsOk) && final(
            res)@ == old(res)@,
{
    if should_terminate {
        let mut v: Vec<u8> = Vec::new();
        push_str(&mut v, "OK");
        reply(res, &v, HandlerStatus::Disconnect(DisconnectReason::Kill))
    } else {
        Ok(HandlerStatus::NeedsOk)
    }
}

/// The register-info reply for the host's answer: the description verbatim, or,
/// past the last register, `OK` still to come.
pub fn register_info_reply<E>(res: &mut ResponseWriter, info: Option<&str>) -> (r: Result<
    HandlerStatus,
    Error<E>,
>)
    requires
        old(res).wf(),
    ensures
        final(res).wf(),
        final(res).capacity() == old(res).capacity(),
        info matches Some(s) ==> wrote(*old(res), *final(res), s.spec_bytes(), r, HandlerStatus::Handled),
        info is None ==> r == Ok::<HandlerStatus, Error<E>>(HandlerStatus::NeedsOk) && final(res)@
            == old(res)@,
{
    match info {
        Some(s) => {
            let mut v: Vec<u8> = Vec::new();
            push_str(&mut v, s);
            reply(res, &v, HandlerStatus::Handled)
        },
        None => Ok(HandlerStatus::NeedsOk),
    }
}

/// The outcome of `T` for the host's answer on whether the thread lives.
pub open spec fn alive_spec<E>(answer: Result<bool, E>) -> Result<HandlerStatus, Error<E>> {
    match answer {
        Ok(true) => Ok(HandlerStatus::NeedsOk),
        Ok(false) => Err(Error::NonFatalError(1)),
        Err(e) => Err(Error::TargetError(e)),
    }
}

pub fn alive_outcome<E>(answer: Result<bool, E>) -> (r: Result<HandlerStatus, Error<E>>)
    ensures
        r == alive_spec(answer),
{
    match answer {
        Ok(true) => Ok(HandlerStatus::NeedsOk),
        Ok(false) => Err(Error::NonFatalError(1)),
        Err(e) => Err(Error::TargetError(e)),
    }
}

/// Appends the threads of a `qfThreadInfo` reply.
pub fn push_thread_list(v: &mut Vec<u8>, tids: &Vec<Tid>)
    ensures
        final(v)@ == old(v)@ + thread_list_bytes(tids@),
{
    let mut i: usize = 0;
    while i < tids.len()
        invariant
            0 <= i <= tids@.len(),
            v@ == old(v)@ + thread_list_bytes(tids@.subrange(0, i as int)),
        decreases tids@.len() - i,
    {
        let ghost next = tids@.subrange(0, i + 1);
        assert(next.drop_last() =~= tids@.subrange(0, i as int));
        if i > 0 {
            push_str(v, ",");
        }
        push_thread_id(
            v,
            SpecificThreadId {
                pid: Some(SpecificIdKind::WithId(FAKE_PID)),
                tid: SpecificIdKind::WithId(tids[i]),
            },
        );
        proof {
            if i == 0 {
                assert(tids@.subrange(0, 0) =~= Seq::<Tid>::empty());
            }
        }
        assert(v@ =~= old(v)@ + thread_list_bytes(next));
        i = i + 1;
    }
    assert(tids@.subrange(0, tids@.len() as int) =~= tids@);
}

/// `c`, `s` and `vCont;<actions>`: the commands that set the target running.
pub open spec fn is_resume(cmd: Base) -> bool {
    cmd is vCont || cmd is c || cmd is s
}

/// What carrying out a base command promises, whatever the host does:
/// - the configuration stays, and the state changes only for `H` (the selected
///   threads) and `QStartNoAckMode` (acknowledgements go off, and stay off);
/// - a resume writes nothing and, on success, defers its reply to the stop packet;
///   no other command defers;
/// - a command that needs nothing of the host gets exactly its `pure_reply`;
/// - `Hg` cannot select all threads.
#[verifier::opaque]
pub open spec fn base_outcome<E>(
    before: GdbStubImpl,
    after: GdbStubImpl,
    res_before: ResponseWriter,
    res_after: ResponseWriter,
    command: Base,
    r: Result<HandlerStatus, Error<E>>,
) -> bool {
    &&& after.wf()
    &&& after.same_config(before)
    &&& res_after.wf()
    &&& res_after.capacity() == res_before.capacity()
    &&& after.no_ack_mode == (before.no_ack_mode || command is QStartNoAckMode)
    &&& !(command is H) && !(command is QStartNoAckMode) ==> after == before
    &&& is_resume(command) && r is Ok ==> r == Ok::<HandlerStatus, Error<E>>(
        HandlerStatus::DeferredStopReason,
    ) && res_after@ == res_before@
    &&& !is_resume(command) ==> r != Ok::<HandlerStatus, Error<E>>(HandlerStatus::DeferredStopReason)
    &&& pure_reply::<E>(before, command) is Some ==> match pure_reply::<E>(before, command)->0 {
        Ok((p, st)) => wrote(res_before, res_after, p, r, st),
        Err(e) => r == Err::<HandlerStatus, Error<E>>(e),
    }
    &&& (command matches Base::H { op: HOp::Other, thread } && thread.tid == IdKind::All) ==> r
        == Err::<HandlerStatus, Error<E>>(Error::PacketUnexpected) && after == before
    &&& r == Err::<HandlerStatus, Error<E>>(Error::PacketUnexpected) ==> res_after@ == res_before@
    &&& (r matches Ok(HandlerStatus::Disconnect(_))) ==> (command is k || command is vKill
        || command is D)
    &&& (command is G || command is M || command is H || command is T) ==> res_after@ == res_before@
    &&& is_resume(command) ==> resume_outcome(before, command, r)
    &&& command_outcome(before, after, res_before, res_after, command, r)
}

/// The action list that a resume command hands on: its own for `vCont`; for `c`
/// and `s`, one continue or step bound to the thread that `Hc` selected.
pub open spec fn resume_actions(stub: GdbStubImpl, command: Base) -> Seq<Option<VContAction>> {
    match command {
        Base::vCont(actions) => actions@,
        Base::c => seq![
            Some(
                VContAction {
                    kind: VContKind::Continue,
                    thread: Some(SpecificThreadId { pid: None, tid: stub.current_resume_tid }),
                },
            ),
        ],
        Base::s => seq![
            Some(
                VContAction {
                    kind: VContKind::Step,
                    thread: Some(SpecificThreadId { pid: None, tid: stub.current_resume_tid }),
                },
            ),
        ],
        _ => Seq::empty(),
    }
}

/// A resume follows the plan for its action list (see `do_vcont`).
pub open spec fn resume_outcome<E>(stub: GdbStubImpl, command: Base, r: Result<HandlerStatus, Error<E>>) -> bool {
    if stub.caps.multi_thread {
        vcont_outcome(
            multi_thread_plan::<E>(stub.caps, stub.ptr_bytes as nat, resume_actions(stub, command)),
            r,
        )
    } else {
        vcont_outcome(
            single_thread_plan::<E>(stub.caps, stub.ptr_bytes as nat, resume_actions(stub, command)),
            r,
        )
    }
}

/// What `H` does: a thread id selects that thread, `Hc` with all threads selects
/// all, "any" selects the single thread or one the host lists; `Hg` with all
/// threads is refused.
pub open spec fn h_outcome<E>(
    before: GdbStubImpl,
    after: GdbStubImpl,
    op: HOp,
    thread: ThreadId,
    r: Result<HandlerStatus, Error<E>>,
) -> bool {
    &&& r is Ok ==> r == Ok::<HandlerStatus, Error<E>>(HandlerStatus::NeedsOk)
    &&& r is Err ==> after == before
    &&& thread.tid matches IdKind::WithId(t) ==> r == Ok::<HandlerStatus, Error<E>>(
        HandlerStatus::NeedsOk,
    ) && after == before.selecting(op, SpecificIdKind::WithId(thread.tid->WithId_0))
    &&& op == HOp::StepContinue && thread.tid == IdKind::All ==> r == Ok::<HandlerStatus, Error<E>>(
        HandlerStatus::NeedsOk,
    ) && after == before.selecting(op, SpecificIdKind::All)
    &&& thread.tid == IdKind::Any && !before.caps.multi_thread ==> r == Ok::<
        HandlerStatus,
        Error<E>,
    >(HandlerStatus::NeedsOk) && after == before.selecting(
        op,
        SpecificIdKind::WithId(SINGLE_THREAD_TID),
    )
    &&& thread.tid == IdKind::Any && r is Ok ==> exists|t: Tid|
        after == #[trigger] before.selecting(op, SpecificIdKind::WithId(t))
}

/// What each command that consults the host promises of its outcome.
pub open spec fn command_outcome<E>(
    before: GdbStubImpl,
    after: GdbStubImpl,
    res_before: ResponseWriter,
    res_after: ResponseWriter,
    command: Base,
    r: Result<HandlerStatus, Error<E>>,
) -> bool {
    match command {
        Base::H { op, thread } => h_outcome(before, after, op, thread, r),
        Base::g => r is Ok ==> r == Ok::<HandlerStatus, Error<E>>(HandlerStatus::Handled) && exists|
            vals: Seq<Option<u8>>,
        | res_after@ == res_before@ + #[trigger] register_bytes(vals),
        Base::G(_) => r is Ok ==> r == Ok::<HandlerStatus, Error<E>>(HandlerStatus::NeedsOk),
        Base::m { addr, len } => {
            &&& memory_plan(addr as nat, len as nat, before.packet_buffer_len as nat, before.ptr_bytes as nat)
                is None <==> r == Err::<HandlerStatus, Error<E>>(Error::TargetMismatch)
            &&& fits_addr(addr as nat, before.ptr_bytes as nat) && len == 0 ==> r == Ok::<
                HandlerStatus,
                Error<E>,
            >(HandlerStatus::Handled) && res_after@ == res_before@
            &&& r is Ok ==> r == Ok::<HandlerStatus, Error<E>>(HandlerStatus::Handled) && exists|
                data: Seq<u8>,
            | res_after@ == res_before@ + #[trigger] hex_bytes(data)
        },
        Base::M { addr, val } => {
            &&& !fits_addr(addr as nat, before.ptr_bytes as nat) <==> r == Err::<HandlerStatus, Error<E>>(
                Error::TargetMismatch,
            )
            &&& r is Ok ==> r == Ok::<HandlerStatus, Error<E>>(HandlerStatus::NeedsOk)
        },
        Base::k | Base::vKill(_) => {
            &&& before.caps.extended_mode && r == Ok::<HandlerStatus, Error<E>>(
                HandlerStatus::Disconnect(DisconnectReason::Kill),
            ) ==> res_after@ == res_before@ + "OK".spec_bytes()
            &&& r is Ok ==> r == Ok::<HandlerStatus, Error<E>>(
                HandlerStatus::Disconnect(DisconnectReason::Kill),
            ) || (r == Ok::<HandlerStatus, Error<E>>(HandlerStatus::NeedsOk) && res_after@
                == res_before@)
        },
        Base::qXferFeaturesRead { .. } => {
            &&& serves_features(before) <==> r != Err::<HandlerStatus, Error<E>>(Error::PacketUnexpected)
            &&& r is Ok ==> r == Ok::<HandlerStatus, Error<E>>(HandlerStatus::Handled)
            &&& before.caps.target_description_xml_override && r is Ok ==> exists|data: Seq<u8>|
                res_after@ == res_before@ + #[trigger] override_reply(data)
        },
        Base::qAttached(pid) => {
            &&& before.caps.extended_mode && pid is Some ==> r != Err::<HandlerStatus, Error<E>>(
                Error::PacketUnexpected,
            )
            &&& r is Ok ==> exists|attached: bool|
                res_after@ == res_before@ + #[trigger] attached_bytes(attached)
        },
        Base::qfThreadInfo => before.caps.multi_thread && r is Ok ==> exists|tids: Seq<Tid>|
            res_after@ == res_before@ + ("m".spec_bytes() + #[trigger] thread_list_bytes(tids)),
        Base::T(thread) => {
            &&& !(thread.tid is WithId) ==> r == Err::<HandlerStatus, Error<E>>(Error::PacketUnexpected)
            &&& thread.tid is WithId ==> exists|answer: Result<bool, E>| r == #[trigger] alive_spec(answer)
        },
        _ => true,
    }
}

impl GdbStubImpl {
    /// Carries out one base command: asks the host what it must, updates the
    /// engine's state, and writes the response. A resume writes nothing: its reply
    /// is the stop packet that comes when the target stops.
    pub fn handle_base<T: Target>(&mut self, res: &mut ResponseWriter, target: &mut T, command: Base) -> (r:
        Result<HandlerStatus, Error<T::Error>>)
        requires
            old(self).wf(),
            old(res).wf(),
        ensures
            base_outcome(*old(self), *final(self), *old(res), *final(res), command, r),
    {
        if is_query_command(&command) {
            self.handle_query_command(res, target, command)
        } else if command.is_resume() {
            let r = self.handle_resume_command(target, command);
            proof {
                reveal(base_outcome);
            }
            r
        } else {
            self.handle_access_command(res, target, command)
        }
    }

    /// The handshake, query and session commands.
    fn handle_query_command<T: Target>(&mut self, res: &mut ResponseWriter, target: &mut T, command: Base) -> (r:
        Result<HandlerStatus, Error<T::Error>>)
        requires
            old(self).wf(),
            old(res).wf(),
            is_query(command),
        ensures
            base_outcome(*old(self), *final(self), *old(res), *final(res), command, r),
    {
        match command {
            Base::qSupported => self.base_qsupported(res, target, command),
            Base::QStartNoAckMode => self.base_no_ack(res, target, command),
            Base::qXferFeaturesRead { .. } => self.base_xfer_features(res, target, command),
            Base::QuestionMark => self.base_question_mark(res, target, command),
            Base::qAttached(_) => self.base_qattached(res, target, command),
            Base::k => self.base_k(res, target, command),
            Base::vKill(_) => self.base_vkill(res, target, command),
            Base::D => self.base_detach(res, target, command),
            Base::vContQuery => self.base_vcont_query(res, target, command),
            Base::qfThreadInfo => self.base_qf_thread_info(res, target, command),
            Base::qsThreadInfo => self.base_qs_thread_info(res, target, command),
            _ => {
                proof {
                    reveal(base_outcome);
                }
                Err(Error::PacketUnexpected)
            },
        }
    }

    fn base_qsupported<T: Target>(&mut self, res: &mut ResponseWriter, target: &mut T, command: Base) -> (r:
        Result<HandlerStatus, Error<T::Error>>)
        requires
            old(self).wf(),
            old(res).wf(),
            command is qSupported,
        ensures
            base_outcome(*old(self), *final(self), *old(res), *final(res), command, r),
    {
        reveal(base_outcome);
        match command {
            Base::qSupported => self.handle_qsupported(res),
            _ => Err(Error::PacketUnexpected),
        }
    }

    fn base_no_ack<T: Target>(&mut self, res: &mut ResponseWriter, target: &mut T, command: Base) -> (r:
        Result<HandlerStatus, Error<T::Error>>)
        requires
            old(self).wf(),
            old(res).wf(),
            command is QStartNoAckMode,
        ensures
            base_outcome(*old(self), *final(self), *old(res), *final(res), command, r),
    {
        self.no_ack_mode = true;
        let r: Result<HandlerStatus, Error<T::Error>> = Ok(HandlerStatus::NeedsOk);
        proof {
            reveal(base_outcome);
            assert(res@ + Seq::<u8>::empty() =~= res@);
        }
        r
    }

    fn base_xfer_features<T: Target>(&mut self, res: &mut ResponseWriter, target: &mut T, command: Base) -> (r:
        Result<HandlerStatus, Error<T::Error>>)
        requires
            old(self).wf(),
            old(res).wf(),
            command is qXferFeaturesRead,
        ensures
            base_outcome(*old(self), *final(self), *old(res), *final(res), command, r),
    {
        reveal(base_outcome);
        match command {
            Base::qXferFeaturesRead { offset, length } => self.handle_xfer_features(res, target, offset, length),
            _ => Err(Error::PacketUnexpected),
        }
    }

    fn base_question_mark<T: Target>(&mut self, res: &mut ResponseWriter, target: &mut T, command: Base) -> (r:
        Result<HandlerStatus, Error<T::Error>>)
        requires
            old(self).wf(),
            old(res).wf(),
            command is QuestionMark,
        ensures
            base_outcome(*old(self), *final(self), *old(res), *final(res), command, r),
    {
        reveal(base_outcome);
        match command {
            Base::QuestionMark => {
                let mut v: Vec<u8> = Vec::new();
                push_str(&mut v, "S05");
                reply(res, &v, HandlerStatus::Handled)
            },
            _ => Err(Error::PacketUnexpected),
        }
    }

    fn base_qattached<T: Target>(&mut self, res: &mut ResponseWriter, target: &mut T, command: Base) -> (r:
        Result<HandlerStatus, Error<T::Error>>)
        requires
            old(self).wf(),
            old(res).wf(),
            command is qAttached,
        ensures
            base_outcome(*old(self), *final(self), *old(res), *final(res), command, r),
    {
        reveal(base_outcome);
        match command {
            Base::qAttached(pid) => self.handle_qattached(res, target, pid),
            _ => Err(Error::PacketUnexpected),
        }
    }

    fn base_k<T: Target>(&mut self, res: &mut ResponseWriter, target: &mut T, command: Base) -> (r:
        Result<HandlerStatus, Error<T::Error>>)
        requires
            old(self).wf(),
            old(res).wf(),
            command is k,
        ensures
            base_outcome(*old(self), *final(self), *old(res), *final(res), command, r),
    {
        let ghost before = res@;
        let r = self.handle_kill(res, target, None);
        proof {
            reveal(base_outcome);
            assert(before + Seq::<u8>::empty() =~= before);
        }
        r
    }

    fn base_vkill<T: Target>(&mut self, res: &mut ResponseWriter, target: &mut T, command: Base) -> (r:
        Result<HandlerStatus, Error<T::Error>>)
        requires
            old(self).wf(),
            old(res).wf(),
            command is vKill,
        ensures
            base_outcome(*old(self), *final(self), *old(res), *final(res), command, r),
    {
        let ghost before = res@;
        let pid = match command {
            Base::vKill(pid) => pid,
            _ => 0,
        };
        let r = self.handle_kill(res, target, Some(pid));
        proof {
            reveal(base_outcome);
            assert(before + Seq::<u8>::empty() =~= before);
        }
        r
    }

    fn base_detach<T: Target>(&mut self, res: &mut ResponseWriter, target: &mut T, command: Base) -> (r:
        Result<HandlerStatus, Error<T::Error>>)
        requires
            old(self).wf(),
            old(res).wf(),
            command is D,
        ensures
            base_outcome(*old(self), *final(self), *old(res), *final(res), command, r),
    {
        reveal(base_outcome);
        match command {
            Base::D => {
                let mut v: Vec<u8> = Vec::new();
                push_str(&mut v, "OK");
                reply(res, &v, HandlerStatus::Disconnect(DisconnectReason::Disconnect))
            },
            _ => Err(Error::PacketUnexpected),
        }
    }

    fn base_vcont_query<T: Target>(&mut self, res: &mut ResponseWriter, target: &mut T, command: Base) -> (r:
        Result<HandlerStatus, Error<T::Error>>)
        requires
            old(self).wf(),
            old(res).wf(),
            command is vContQuery,
        ensures
            base_outcome(*old(self), *final(self), *old(res), *final(res), command, r),
    {
        reveal(base_outcome);
        match command {
            Base::vContQuery => self.handle_vcont_query(res),
            _ => Err(Error::PacketUnexpected),
        }
    }

    fn base_qf_thread_info<T: Target>(&mut self, res: &mut ResponseWriter, target: &mut T, command: Base) -> (r:
        Result<HandlerStatus, Error<T::Error>>)
        requires
            old(self).wf(),
            old(res).wf(),
            command is qfThreadInfo,
        ensures
            base_outcome(*old(self), *final(self), *old(res), *final(res), command, r),
    {
        reveal(base_outcome);
        match command {
            Base::qfThreadInfo => self.handle_qf_thread_info(res, target),
            _ => Err(Error::PacketUnexpected),
        }
    }

    fn base_qs_thread_info<T: Target>(&mut self, res: &mut ResponseWriter, target: &mut T, command: Base) -> (r:
        Result<HandlerStatus, Error<T::Error>>)
        requires
            old(self).wf(),
            old(res).wf(),
            command is qsThreadInfo,
        ensures
            base_outcome(*old(self), *final(self), *old(res), *final(res), command, r),
    {
        reveal(base_outcome);
        match command {
            Base::qsThreadInfo => {
                let mut v: Vec<u8> = Vec::new();
                push_str(&mut v, "l");
                reply(res, &v, HandlerStatus::Handled)
            },
            _ => Err(Error::PacketUnexpected),
        }
    }

    /// `c`, `s` and `vCont;<actions>`.
    fn handle_resume_command<T: Target>(&mut self, target: &mut T, command: Base) -> (r: Result<
        HandlerStatus,
        Error<T::Error>,
    >)
        requires
            old(self).wf(),
            is_resume(command),
        ensures
            *final(self) == *old(self),
            r is Ok ==> r == Ok::<HandlerStatus, Error<T::Error>>(HandlerStatus::DeferredStopReason),
            resume_outcome(*old(self), command, r),
    {
        let tid = self.current_resume_tid;
        match command {
            Base::vCont(actions) => self.do_vcont(target, &actions),
            Base::c => {
                let actions = vec![
                    Some(
                        VContAction {
                            kind: VContKind::Continue,
                            thread: Some(SpecificThreadId { pid: None, tid }),
                        },
                    ),
                ];
                assert(actions@ =~= resume_actions(*old(self), command));
                self.do_vcont(target, &actions)
            },
            _ => {
                let actions = vec![
                    Some(
                        VContAction {
                            kind: VContKind::Step,
                            thread: Some(SpecificThreadId { pid: None, tid }),
                        },
                    ),
                ];
                assert(actions@ =~= resume_actions(*old(self), command));
                self.do_vcont(target, &actions)
            },
        }
    }

    /// Register, memory and thread commands.
    fn handle_access_command<T: Target>(&mut self, res: &mut ResponseWriter, target: &mut T, command: Base) -> (r:
        Result<HandlerStatus, Error<T::Error>>)
        requires
            old(self).wf(),
            old(res).wf(),
            !is_query(command),
            !is_resume(command),
        ensures
            base_outcome(*old(self), *final(self), *old(res), *final(res), command, r),
    {
        match command {
            Base::g => self.base_g(res, target, command),
            Base::G(_) => self.base_big_g(res, target, command),
            Base::m { .. } => self.base_m(res, target, command),
            Base::M { .. } => self.base_big_m(res, target, command),
            Base::H { .. } => self.base_h(res, target, command),
            Base::T(_) => self.base_t(res, target, command),
            _ => {
                proof {
                    reveal(base_outcome);
                }
                Err(Error::PacketUnexpected)
            },
        }
    }

    fn base_g<T: Target>(&mut self, res: &mut ResponseWriter, target: &mut T, command: Base) -> (r:
        Result<HandlerStatus, Error<T::Error>>)
        requires
            old(self).wf(),
            old(res).wf(),
            command is g,
        ensures
            base_outcome(*old(self), *final(self), *old(res), *final(res), command, r),
    {
        reveal(base_outcome);
        match command {
            Base::g => self.handle_g(res, target),
            _ => Err(Error::PacketUnexpected),
        }
    }

    fn base_big_g<T: Target>(&mut self, res: &mut ResponseWriter, target: &mut T, command: Base) -> (r:
        Result<HandlerStatus, Error<T::Error>>)
        requires
            old(self).wf(),
            old(res).wf(),
            command is G,
        ensures
            base_outcome(*old(self), *final(self), *old(res), *final(res), command, r),
    {
        reveal(base_outcome);
        match command {
            Base::G(vals) => self.handle_big_g(target, &vals),
            _ => Err(Error::PacketUnexpected),
        }
    }

    fn base_m<T: Target>(&mut self, res: &mut ResponseWriter, target: &mut T, command: Base) -> (r:
        Result<HandlerStatus, Error<T::Error>>)
        requires
            old(self).wf(),
            old(res).wf(),
            command is m,
        ensures
            base_outcome(*old(self), *final(self), *old(res), *final(res), command, r),
    {
        reveal(base_outcome);
        match command {
            Base::m { addr, len } => self.handle_m(res, target, addr, len),
            _ => Err(Error::PacketUnexpected),
        }
    }

    fn base_big_m<T: Target>(&mut self, res: &mut ResponseWriter, target: &mut T, command: Base) -> (r:
        Result<HandlerStatus, Error<T::Error>>)
        requires
            old(self).wf(),
            old(res).wf(),
            command is M,
        ensures
            base_outcome(*old(self), *final(self), *old(res), *final(res), command, r),
    {
        reveal(base_outcome);
        match command {
            Base::M { addr, val } => self.handle_big_m(target, addr, &val),
            _ => Err(Error::PacketUnexpected),
        }
    }

    fn base_h<T: Target>(&mut self, res: &mut ResponseWriter, target: &mut T, command: Base) -> (r:
        Result<HandlerStatus, Error<T::Error>>)
        requires
            old(self).wf(),
            old(res).wf(),
            command is H,
        ensures
            base_outcome(*old(self), *final(self), *old(res), *final(res), command, r),
    {
        reveal(base_outcome);
        match command {
            Base::H { op, thread } => self.handle_h(target, op, thread),
            _ => Err(Error::PacketUnexpected),
        }
    }

    fn base_t<T: Target>(&mut self, res: &mut ResponseWriter, target: &mut T, command: Base) -> (r:
        Result<HandlerStatus, Error<T::Error>>)
        requires
            old(self).wf(),
            old(res).wf(),
            command is T,
        ensures
            base_outcome(*old(self), *final(self), *old(res), *final(res), command, r),
    {
        reveal(base_outcome);
        match command {
            Base::T(thread) => self.handle_t(target, thread),
            _ => Err(Error::PacketUnexpected),
        }
    }
}

/// The handshake, query and session commands: those that never touch registers,
/// memory or the selected threads, and never resume.
pub open spec fn is_query(cmd: Base) -> bool {
    cmd is qSupported || cmd is QStartNoAckMode || cmd is qXferFeaturesRead || cmd is QuestionMark
        || cmd is qAttached || cmd is k || cmd is vKill || cmd is D || cmd is vContQuery
        || cmd is qfThreadInfo || cmd is qsThreadInfo
}

fn is_query_command(cmd: &Base) -> (r: bool)
    ensures
        r == is_query(*cmd),
{
    match cmd {
        Base::qSupported | Base::QStartNoAckMode | Base::qXferFeaturesRead { .. } | Base::QuestionMark
        | Base::qAttached(_) | Base::k | Base::vKill(_) | Base::D | Base::vContQuery
        | Base::qfThreadInfo | Base::qsThreadInfo => true,
        _ => false,
    }
}

impl Base {
    /// Whether the command sets the target running.
    pub fn is_resume(&self) -> (r: bool)
        ensures
            r == is_resume(*self),
    {
        match self {
            Base::vCont(_) | Base::c | Base::s => true,
            _ => false,
        }
    }
}

/// Features are gated on the capabilities that `qSupported` and `vCont?` advertise:
/// the stop reasons of breakpoints, watchpoints, replay logs and syscall catching
/// are reported exactly when the matching capability is claimed, the target
/// description is served exactly when `qXfer:features:read+` is advertised, and a
/// single-threaded step is accepted exactly when `vCont?` lists `s`.
pub proof fn lemma_capability_gating<E>(
    stub: GdbStubImpl,
    tid: Tid,
    kind: WatchKind,
    addr: u64,
    pos: ReplayLogPosition,
    number: u64,
    position: CatchSyscallPosition,
    offset: u64,
    length: usize,
)
    requires
        !stub.caps.target_description_xml_override,
    ensures
        stop_packet(stub.caps, ThreadStopReason::SwBreak(tid)) is Some <==> stub.caps.sw_breakpoint,
        stop_packet(stub.caps, ThreadStopReason::HwBreak(tid)) is Some <==> stub.caps.hw_breakpoint,
        stop_packet(stub.caps, ThreadStopReason::Watch { tid, kind, addr }) is Some
            <==> stub.caps.hw_watchpoint,
        stop_packet(stub.caps, ThreadStopReason::ReplayLog(pos)) is Some <==> (stub.caps.reverse_cont
            || stub.caps.reverse_step),
        stop_packet(stub.caps, ThreadStopReason::CatchSyscall { number, position }) is Some
            <==> stub.caps.catch_syscalls,
        pure_reply::<E>(stub, Base::qXferFeaturesRead { offset, length }) == Some(
            Err::<(Seq<u8>, HandlerStatus), Error<E>>(Error::PacketUnexpected),
        ) <==> !serves_features(stub),
        single_thread_plan::<E>(
            stub.caps,
            stub.ptr_bytes as nat,
            seq![Some(VContAction { kind: VContKind::Step, thread: None })],
        ) is Ok <==> stub.caps.single_step,
{
}

} // verus!
