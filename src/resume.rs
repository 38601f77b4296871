use vstd::prelude::*;

use crate::protocol::{SpecificIdKind, Tid, VContAction, VContKind};
use crate::stub::Error;
use crate::target::Capabilities;

verus! {

/// `256` to the power `n`: one more than the largest address of `n` bytes.
pub open spec fn pow256(n: nat) -> nat
    decreases n,
{
    if n == 0 {
        1
    } else {
        256 * pow256((n - 1) as nat)
    }
}

/// Whether an address fits in `width` bytes.
pub open spec fn fits_addr(a: nat, width: nat) -> bool {
    a < pow256(width)
}

/// Whether `a` fits in `width` bytes.
pub fn addr_fits(a: u64, width: usize) -> (r: bool)
    requires
        1 <= width <= 8,
    ensures
        r == fits_addr(a as nat, width as nat),
{
    let mut limit: u128 = 1;
    let mut i: usize = 0;
    while i < width
        invariant
            0 <= i <= width <= 8,
            limit as nat == pow256(i as nat),
            limit <= 0x1_0000_0000_0000_0000u128,
        decreases width - i,
    {
        proof {
            lemma_pow256_bound(i as nat);
            assert(pow256((i + 1) as nat) == 256 * pow256(i as nat));
            lemma_pow256_max((i + 1) as nat);
        }
        limit = limit * 256;
        i = i + 1;
    }
    (a as u128) < limit
}

proof fn lemma_pow256_bound(n: nat)
    ensures
        pow256(n) >= 1,
    decreases n,
{
    if n > 0 {
        lemma_pow256_bound((n - 1) as nat);
    }
}

pub proof fn lemma_pow256_max(n: nat)
    requires
        n <= 8,
    ensures
        pow256(n) <= 0x1_0000_0000_0000_0000,
{
    reveal_with_fuel(pow256, 9);
}

/// What a single-threaded host is asked to do.
#[derive(Debug, Clone, Copy, PartialEq, Eq, Structural)]
pub enum SingleResume {
    Resume(Option<u8>),
    Step(Option<u8>),
    RangeStep(u64, u64),
}

/// The resume action installed for one thread of a multi-threaded host.
#[derive(Debug, Clone, Copy, PartialEq, Eq, Structural)]
pub enum ThreadAction {
    Continue(Tid, Option<u8>),
    Step(Tid, Option<u8>),
    RangeStep(Tid, u64, u64),
}

pub open spec fn signal_of(kind: VContKind) -> Option<u8> {
    match kind {
        VContKind::ContinueWithSig(sig) => Some(sig),
        VContKind::StepWithSig(sig) => Some(sig),
        _ => None,
    }
}

/// A continue that names no single thread: the default action.
pub open spec fn is_bare_continue(a: VContAction) -> bool {
    a.kind == VContKind::Continue && named_thread(a) is None
}

/// What the action list of a `vCont` packet asks of a single-threaded host: the
/// first action decides, a second one may only be a bare continue.
pub open spec fn single_thread_plan<E>(caps: Capabilities, width: nat, actions: Seq<Option<VContAction>>) -> Result<
    SingleResume,
    Error<E>,
> {
    if actions.len() == 0 || actions[0] is None {
        Err(Error::PacketParse)
    } else if actions.len() >= 2 && actions[1] is None {
        Err(Error::PacketParse)
    } else if actions.len() >= 3 || (actions.len() == 2 && !is_bare_continue(actions[1]->0)) {
        Err(Error::PacketUnexpected)
    } else {
        let kind = actions[0]->0.kind;
        match kind {
            VContKind::Continue => Ok(SingleResume::Resume(None)),
            VContKind::ContinueWithSig(sig) => Ok(SingleResume::Resume(Some(sig))),
            VContKind::Step => if caps.single_step {
                Ok(SingleResume::Step(None))
            } else {
                Err(Error::PacketUnexpected)
            },
            VContKind::StepWithSig(sig) => if caps.single_step {
                Ok(SingleResume::Step(Some(sig)))
            } else {
                Err(Error::PacketUnexpected)
            },
            VContKind::RangeStep(start, end) => if !caps.range_step {
                Err(Error::PacketUnexpected)
            } else if !fits_addr(start as nat, width) || !fits_addr(end as nat, width) {
                Err(Error::TargetMismatch)
            } else {
                Ok(SingleResume::RangeStep(start, end))
            },
            VContKind::Stop => Err(Error::PacketUnexpected),
        }
    }
}

/// The thread an action names, when it names exactly one.
pub open spec fn named_thread(a: VContAction) -> Option<Tid> {
    match a.thread {
        Some(t) => match t.tid {
            SpecificIdKind::WithId(tid) => Some(tid),
            SpecificIdKind::All => None,
        },
        None => None,
    }
}

/// What one action of a `vCont` packet installs on a multi-threaded host. An
/// action without a single thread is the default, which may only be a continue
/// (and needs nothing installed).
pub open spec fn thread_action<E>(caps: Capabilities, width: nat, a: VContAction) -> Result<
    Option<ThreadAction>,
    Error<E>,
> {
    match a.kind {
        VContKind::Continue | VContKind::ContinueWithSig(_) => match named_thread(a) {
            Some(tid) => Ok(Some(ThreadAction::Continue(tid, signal_of(a.kind)))),
            None => Ok(None),
        },
        VContKind::Step | VContKind::StepWithSig(_) => if !caps.single_step {
            Err(Error::PacketUnexpected)
        } else {
            match named_thread(a) {
                Some(tid) => Ok(Some(ThreadAction::Step(tid, signal_of(a.kind)))),
                None => Err(Error::PacketUnexpected),
            }
        },
        VContKind::RangeStep(start, end) => if !caps.range_step {
            Err(Error::PacketUnexpected)
        } else {
            match named_thread(a) {
                Some(tid) => if !fits_addr(start as nat, width) || !fits_addr(end as nat, width) {
                    Err(Error::TargetMismatch)
                } else {
                    Ok(Some(ThreadAction::RangeStep(tid, start, end)))
                },
                None => Err(Error::PacketUnexpected),
            }
        },
        VContKind::Stop => Err(Error::PacketUnexpected),
    }
}

/// The outcome of the actions `actions[0..n]`, in order: the first error, or the
/// actions they install.
pub open spec fn multi_thread_plan<E>(caps: Capabilities, width: nat, actions: Seq<Option<VContAction>>) -> Result<
    Seq<ThreadAction>,
    Error<E>,
>
    decreases actions.len(),
{
    if actions.len() == 0 {
        Ok(Seq::empty())
    } else {
        match multi_thread_plan(caps, width, actions.drop_last()) {
            Err(e) => Err(e),
            Ok(done) => match actions.last() {
                None => Err(Error::PacketParse),
                Some(a) => match thread_action::<E>(caps, width, a) {
                    Err(e) => Err(e),
                    Ok(None) => Ok(done),
                    Ok(Some(t)) => Ok(done.push(t)),
                },
            },
        }
    }
}

/// Decides what a `vCont` action list asks of a single-threaded host.
pub fn plan_single_thread<E>(caps: Capabilities, width: usize, actions: &Vec<Option<VContAction>>) -> (r:
    Result<SingleResume, Error<E>>)
    requires
        1 <= width <= 8,
    ensures
        r == single_thread_plan::<E>(caps, width as nat, actions@),
{
    if actions.len() == 0 {
        return Err(Error::PacketParse);
    }
    let first = match actions[0] {
        Some(a) => a,
        None => return Err(Error::PacketParse),
    };
    if actions.len() >= 2 {
        match actions[1] {
            None => return Err(Error::PacketParse),
            Some(a) => {
                let names_thread = match a.thread {
                    Some(t) => t.tid != SpecificIdKind::All,
                    None => false,
                };
                if a.kind != VContKind::Continue || names_thread {
                    return Err(Error::PacketUnexpected);
                }
            },
        }
    }
    if actions.len() >= 3 {
        return Err(Error::PacketUnexpected);
    }
    match first.kind {
        VContKind::Continue => Ok(SingleResume::Resume(None)),
        VContKind::ContinueWithSig(sig) => Ok(SingleResume::Resume(Some(sig))),
        VContKind::Step => if caps.single_step {
            Ok(SingleResume::Step(None))
        } else {
            Err(Error::PacketUnexpected)
        },
        VContKind::StepWithSig(sig) => if caps.single_step {
            Ok(SingleResume::Step(Some(sig)))
        } else {
            Err(Error::PacketUnexpected)
        },
        VContKind::RangeStep(start, end) => if !caps.range_step {
            Err(Error::PacketUnexpected)
        } else if !addr_fits(start, width) || !addr_fits(end, width) {
            Err(Error::TargetMismatch)
        } else {
            Ok(SingleResume::RangeStep(start, end))
        },
        VContKind::Stop => Err(Error::PacketUnexpected),
    }
}

/// Decides what one `vCont` action installs on a multi-threaded host.
pub fn plan_thread_action<E>(caps: Capabilities, width: usize, a: VContAction) -> (r: Result<
    Option<ThreadAction>,
    Error<E>,
>)
    requires
        1 <= width <= 8,
    ensures
        r == thread_action::<E>(caps, width as nat, a),
{
    let named = match a.thread {
        Some(t) => match t.tid {
            SpecificIdKind::WithId(tid) => Some(tid),
            SpecificIdKind::All => None,
        },
        None => None,
    };
    match a.kind {
        VContKind::Continue => match named {
            Some(tid) => Ok(Some(ThreadAction::Continue(tid, None))),
            None => Ok(None),
        },
        VContKind::ContinueWithSig(sig) => match named {
            Some(tid) => Ok(Some(ThreadAction::Continue(tid, Some(sig)))),
            None => Ok(None),
        },
        VContKind::Step | VContKind::StepWithSig(_) => {
            if !caps.single_step {
                return Err(Error::PacketUnexpected);
            }
            let signal = match a.kind {
                VContKind::StepWithSig(sig) => Some(sig),
                _ => None,
            };
            match named {
                Some(tid) => Ok(Some(ThreadAction::Step(tid, signal))),
                None => Err(Error::PacketUnexpected),
            }
        },
        VContKind::RangeStep(start, end) => {
            if !caps.range_step {
                return Err(Error::PacketUnexpected);
            }
            match named {
                Some(tid) => if !addr_fits(start, width) || !addr_fits(end, width) {
                    Err(Error::TargetMismatch)
                } else {
                    Ok(Some(ThreadAction::RangeStep(tid, start, end)))
                },
                None => Err(Error::PacketUnexpected),
            }
        },
        VContKind::Stop => Err(Error::PacketUnexpected),
    }
}

} // verus!
