use vstd::prelude::*;

use crate::hex::{hex_num, push_hex_num};

verus! {

/// A thread id as GDB spells it; never zero for a real thread.
pub type Tid = usize;

/// A process id as GDB spells it.
pub type Pid = usize;

/// A thread selector as it arrives in a packet.
#[derive(Debug, Clone, Copy, PartialEq, Eq, Structural)]
pub enum IdKind {
    /// `-1`: every thread.
    All,
    /// `0`: whichever thread the stub picks.
    Any,
    /// One particular thread.
    WithId(Tid),
}

/// A thread selector that names all threads or one of them.
#[derive(Debug, Clone, Copy, PartialEq, Eq, Structural)]
pub enum SpecificIdKind {
    All,
    WithId(Tid),
}

/// A `p<pid>.<tid>` thread id, with an optional process part.
#[derive(Debug, Clone, Copy, PartialEq, Eq, Structural)]
pub struct SpecificThreadId {
    pub pid: Option<SpecificIdKind>,
    pub tid: SpecificIdKind,
}

/// A thread id of a packet, any selector allowed.
#[derive(Debug, Clone, Copy, PartialEq, Eq, Structural)]
pub struct ThreadId {
    pub pid: Option<IdKind>,
    pub tid: IdKind,
}

/// What a single `vCont` action asks a thread to do.
#[derive(Debug, Clone, Copy, PartialEq, Eq, Structural)]
pub enum VContKind {
    Continue,
    ContinueWithSig(u8),
    /// Step while the program counter stays in `[start, end)`.
    RangeStep(u64, u64),
    Step,
    StepWithSig(u8),
    Stop,
}

/// One action of a `vCont` packet and the thread it is bound to, if any.
#[derive(Debug, Clone, Copy, PartialEq, Eq, Structural)]
pub struct VContAction {
    pub kind: VContKind,
    pub thread: Option<SpecificThreadId>,
}

/// The lldb-style `qRegisterInfo<n>` query: the index of the register asked for.
#[allow(non_camel_case_types)]
#[derive(Debug, Clone, Copy, PartialEq, Eq, Structural)]
pub struct qRegisterInfo(pub usize);

/// Whether a byte is an ASCII decimal digit.
pub open spec fn is_dec_digit(c: u8) -> bool {
    48 <= c <= 57
}

/// Every byte is a decimal digit.
pub open spec fn all_dec_digits(s: Seq<u8>) -> bool {
    forall|i: int| 0 <= i < s.len() ==> is_dec_digit(#[trigger] s[i])
}

/// The value of a run of decimal digits, most significant first.
pub open spec fn dec_value(s: Seq<u8>) -> nat
    decreases s.len(),
{
    if s.len() == 0 {
        0
    } else {
        dec_value(s.drop_last()) * 10 + (s.last() - 48) as nat
    }
}

/// The digits of a decimal `usize`: at least one digit, optionally after a `+`.
pub open spec fn dec_digits(body: Seq<u8>) -> Seq<u8> {
    if body.len() > 0 && body[0] == 43 {
        body.drop_first()
    } else {
        body
    }
}

/// What a decimal `usize` spelled by `body` is, if it spells one.
pub open spec fn parse_usize_spec(body: Seq<u8>) -> Option<nat> {
    if dec_digits(body).len() > 0 && all_dec_digits(dec_digits(body)) && dec_value(dec_digits(body))
        <= usize::MAX {
        Some(dec_value(dec_digits(body)))
    } else {
        None
    }
}

/// Reads a decimal `usize`, as `str::parse` accepts it.
pub fn parse_usize(body: &[u8]) -> (r: Option<usize>)
    ensures
        r is Some <==> parse_usize_spec(body@) is Some,
        r is Some ==> r->0 as nat == parse_usize_spec(body@)->0,
{
    let start: usize = if body.len() > 0 && body[0] == 43 { 1 } else { 0 };
    let ghost d = dec_digits(body@);
    assert(d =~= body@.subrange(start as int, body@.len() as int));
    if start >= body.len() {
        return None;
    }
    let mut acc: usize = 0;
    let mut i: usize = start;
    while i < body.len()
        invariant
            start <= i <= body@.len(),
            d == dec_digits(body@),
            d =~= body@.subrange(start as int, body@.len() as int),
            forall|j: int| 0 <= j < i - start ==> is_dec_digit(#[trigger] d[j]),
            acc as nat == dec_value(d.subrange(0, i - start)),
        decreases body@.len() - i,
    {
        let c = body[i];
        if c < 48 || c > 57 {
            assert(d[i - start] == c);
            assert(!is_dec_digit(d[i - start]));
            return None;
        }
        let ghost prefix = d.subrange(0, i - start + 1);
        assert(prefix.drop_last() =~= d.subrange(0, i - start));
        assert(prefix.last() == c);
        if acc > (usize::MAX - (c - 48) as usize) / 10 {
            proof {
                let dig = (c - 48) as nat;
                assert(acc as nat * 10 + dig > usize::MAX) by (nonlinear_arith)
                    requires
                        acc as nat > (usize::MAX - dig) / 10,
                        dig < 10,
                ;
                if all_dec_digits(d) {
                    lemma_dec_value_monotone(d, (i - start + 1) as int);
                }
            }
            return None;
        }
        proof {
            let dig = (c - 48) as nat;
            assert(acc as nat * 10 + dig <= usize::MAX) by (nonlinear_arith)
                requires
                    acc as nat <= (usize::MAX - dig) / 10,
                    dig < 10,
            ;
        }
        acc = acc * 10 + (c - 48) as usize;
        i = i + 1;
    }
    assert(d.subrange(0, d.len() as int) =~= d);
    Some(acc)
}

/// A prefix's value never exceeds the value of a longer run of digits.
proof fn lemma_dec_value_monotone(d: Seq<u8>, k: int)
    requires
        0 <= k <= d.len(),
        forall|j: int| 0 <= j < d.len() ==> is_dec_digit(#[trigger] d[j]),
    ensures
        dec_value(d.subrange(0, k)) <= dec_value(d),
    decreases d.len() - k,
{
    if k < d.len() {
        lemma_dec_value_monotone(d, k + 1);
        let p = d.subrange(0, k + 1);
        assert(p.drop_last() =~= d.subrange(0, k));
        assert(is_dec_digit(d[k]));
    } else {
        assert(d.subrange(0, k) =~= d);
    }
}

impl qRegisterInfo {
    /// Parses the decimal register index that follows `qRegisterInfo`.
    pub fn from_packet(body: &[u8]) -> (r: Option<qRegisterInfo>)
        ensures
            r is Some <==> parse_usize_spec(body@) is Some,
            r is Some ==> r.unwrap().0 as nat == parse_usize_spec(body@)->0,
    {
        match parse_usize(body) {
            Some(n) => Some(qRegisterInfo(n)),
            None => None,
        }
    }
}

/// The spelling of a thread selector: `-1` for all threads, else the id in hex.
pub open spec fn id_kind_bytes(k: SpecificIdKind) -> Seq<u8> {
    match k {
        SpecificIdKind::All => seq![45u8, 49u8],
        SpecificIdKind::WithId(n) => hex_num(n as nat),
    }
}

/// The spelling of a thread id: `p<pid>.<tid>` when it names a process.
pub open spec fn thread_id_bytes(t: SpecificThreadId) -> Seq<u8> {
    match t.pid {
        Some(p) => seq![112u8] + id_kind_bytes(p) + seq![46u8] + id_kind_bytes(t.tid),
        None => id_kind_bytes(t.tid),
    }
}

pub fn push_id_kind(v: &mut Vec<u8>, k: SpecificIdKind)
    ensures
        final(v)@ == old(v)@ + id_kind_bytes(k),
{
    match k {
        SpecificIdKind::All => {
            v.push(45);
            v.push(49);
            assert(v@ =~= old(v)@ + id_kind_bytes(k));
        },
        SpecificIdKind::WithId(n) => push_hex_num(v, n as u64),
    }
}

pub fn push_thread_id(v: &mut Vec<u8>, t: SpecificThreadId)
    ensures
        final(v)@ == old(v)@ + thread_id_bytes(t),
{
    match t.pid {
        Some(p) => {
            v.push(112);
            push_id_kind(v, p);
            v.push(46);
            push_id_kind(v, t.tid);
            assert(v@ =~= old(v)@ + thread_id_bytes(t));
        },
        None => push_id_kind(v, t.tid),
    }
}

/// Which selection an `H` packet changes.
#[derive(Debug, Clone, Copy, PartialEq, Eq, Structural)]
pub enum HOp {
    /// `Hc`: the thread that `c` and `s` resume.
    StepContinue,
    /// `Hg`: the thread that register and memory accesses use.
    Other,
}

/// The base commands of the protocol, as the parser hands them on.
#[allow(non_camel_case_types)]
#[derive(Debug, Clone)]
pub enum Base {
    qSupported,
    QStartNoAckMode,
    qXferFeaturesRead { offset: u64, length: usize },
    QuestionMark,
    qAttached(Option<Pid>),
    g,
    /// The register bytes to load.
    G(Vec<u8>),
    /// Read `len` bytes at `addr`.
    m { addr: u64, len: usize },
    /// Write `val` at `addr`.
    M { addr: u64, val: Vec<u8> },
    k,
    vKill(Pid),
    D,
    /// `vCont?`
    vContQuery,
    /// `vCont;<actions>`; `None` stands for an action that did not parse.
    vCont(Vec<Option<VContAction>>),
    c,
    s,
    H { op: HOp, thread: ThreadId },
    qfThreadInfo,
    qsThreadInfo,
    T(ThreadId),
}

} // verus!
