use vstd::prelude::*;
use vstd::string::StringSliceAdditionalSpecFns;

use crate::codec::{encode_packet, frame, hex2, FrameError, ACK, NACK};
use crate::dispatch::{base_outcome, is_resume};
use crate::protocol::Base;
use crate::response::{push_str, ResponseWriter};
use crate::stub::{push_hex2, Error, GdbStubImpl, HandlerStatus};

verus! {

/// The acknowledgement owed for a frame that arrived: none once acknowledgements
/// are off, `-` for a bad checksum, else `+`.
pub open spec fn ack_spec(no_ack_mode: bool, decoded: Result<Seq<u8>, FrameError>) -> Option<u8> {
    if no_ack_mode {
        None
    } else if decoded == Err::<Seq<u8>, FrameError>(FrameError::Checksum) {
        Some(NACK)
    } else {
        Some(ACK)
    }
}

/// The acknowledgement to send for a frame that arrived, if any.
pub fn ack_for(no_ack_mode: bool, decoded: &Result<Vec<u8>, FrameError>) -> (r: Option<u8>)
    ensures
        r == ack_spec(
            no_ack_mode,
            match decoded {
                Ok(v) => Ok(v@),
                Err(e) => Err(*e),
            },
        ),
{
    if no_ack_mode {
        None
    } else {
        match decoded {
            Err(FrameError::Checksum) => Some(NACK),
            _ => Some(ACK),
        }
    }
}

/// The payload that goes out for an outcome: `OK` is appended where it is owed.
pub open spec fn final_payload(status: HandlerStatus, payload: Seq<u8>) -> Seq<u8> {
    if status == HandlerStatus::NeedsOk {
        payload + "OK".spec_bytes()
    } else {
        payload
    }
}

/// The frames sent for a handled command: none while the target runs, else one.
pub open spec fn response_frames(status: HandlerStatus, payload: Seq<u8>) -> Seq<Seq<u8>> {
    if status == HandlerStatus::DeferredStopReason {
        Seq::empty()
    } else {
        seq![frame(final_payload(status, payload))]
    }
}

/// Frames the response to a handled command, or nothing when its reply is deferred
/// to the stop packet.
pub fn complete_response(status: HandlerStatus, res: &ResponseWriter) -> (r: Option<Vec<u8>>)
    ensures
        status == HandlerStatus::DeferredStopReason <==> r is None,
        r is Some ==> response_frames(status, res@) == seq![r->0@],
{
    match status {
        HandlerStatus::DeferredStopReason => None,
        HandlerStatus::NeedsOk => {
            let mut v: Vec<u8> = Vec::new();
            let b = res.as_bytes();
            let mut i: usize = 0;
            while i < b.len()
                invariant
                    0 <= i <= b@.len(),
                    v@ == b@.subrange(0, i as int),
                decreases b@.len() - i,
            {
                v.push(b[i]);
                assert(b@.subrange(0, i + 1) =~= b@.subrange(0, i as int).push(b@[i as int]));
                i = i + 1;
            }
            assert(b@.subrange(0, b@.len() as int) =~= b@);
            push_str(&mut v, "OK");
            Some(encode_packet(v.as_slice()))
        },
        _ => Some(encode_packet(res.as_bytes())),
    }
}

/// Each command that neither resumes nor fails gets exactly one framed response
/// before the next command is read; a resume that succeeds gets none and has
/// written nothing, so no bytes go out until its stop packet.
pub proof fn lemma_response_count<E>(
    before: GdbStubImpl,
    after: GdbStubImpl,
    res_before: ResponseWriter,
    res_after: ResponseWriter,
    command: Base,
    r: Result<HandlerStatus, Error<E>>,
)
    requires
        base_outcome(before, after, res_before, res_after, command, r),
        r is Ok,
    ensures
        !is_resume(command) ==> response_frames(r->Ok_0, res_after@).len() == 1,
        is_resume(command) ==> response_frames(r->Ok_0, res_after@).len() == 0 && res_after@
            == res_before@,
{
    reveal(base_outcome);
}

/// Once acknowledgements are off they stay off, whatever command comes, and no
/// `+` or `-` is owed for any frame.
pub proof fn lemma_no_ack_stays_off<E>(
    before: GdbStubImpl,
    after: GdbStubImpl,
    res_before: ResponseWriter,
    res_after: ResponseWriter,
    command: Base,
    r: Result<HandlerStatus, Error<E>>,
    decoded: Result<Seq<u8>, FrameError>,
)
    requires
        base_outcome(before, after, res_before, res_after, command, r),
        before.no_ack_mode,
    ensures
        after.no_ack_mode,
        ack_spec(after.no_ack_mode, decoded) is None,
{
    reveal(base_outcome);
}

/// `Hg` with the "all threads" selector is refused and leaves the selection as it
/// was, so the thread for memory access is always one thread.
pub proof fn lemma_mem_thread_never_all<E>(
    before: GdbStubImpl,
    after: GdbStubImpl,
    res_before: ResponseWriter,
    res_after: ResponseWriter,
    command: Base,
    r: Result<HandlerStatus, Error<E>>,
)
    requires
        base_outcome(before, after, res_before, res_after, command, r),
        command matches Base::H { op: crate::protocol::HOp::Other, thread } && thread.tid
            == crate::protocol::IdKind::All,
    ensures
        r == Err::<HandlerStatus, Error<E>>(Error::PacketUnexpected),
        after.current_mem_tid == before.current_mem_tid,
{
    reveal(base_outcome);
}

/// The reply to a command that failed recoverably: `E` and the code in two hex digits.
pub fn error_reply(code: u8) -> (r: Vec<u8>)
    ensures
        r@ == "E".spec_bytes() + hex2(code),
{
    let mut v: Vec<u8> = Vec::new();
    push_str(&mut v, "E");
    push_hex2(&mut v, code);
    v
}

/// How an error of a command is answered: a recoverable one with `E<code>` and the
/// session goes on; every other one ends the session with no reply.
pub fn reply_for_error<E>(e: &Error<E>) -> (r: Option<Vec<u8>>)
    ensures
        match *e {
            Error::NonFatalError(code) => r is Some && r->0@ == "E".spec_bytes() + hex2(code),
            _ => r is None,
        },
{
    match e {
        Error::NonFatalError(code) => Some(error_reply(*code)),
        _ => None,
    }
}

} // verus!
