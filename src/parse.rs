use vstd::prelude::*;

use crate::hex::{hex_value, hex_value_exec};
use crate::protocol::{
    qRegisterInfo, parse_usize_spec, Base, HOp, IdKind, SpecificIdKind, SpecificThreadId, ThreadId,
    VContAction, VContKind,
};
use vstd::string::StringSliceAdditionalSpecFns;

verus! {

/// Every byte is a hex digit.
pub open spec fn all_hex(s: Seq<u8>) -> bool {
    forall|i: int| 0 <= i < s.len() ==> (#[trigger] hex_value(s[i])) is Some
}

/// The value of hex digits, most significant first.
pub open spec fn hex_seq_value(s: Seq<u8>) -> nat
    decreases s.len(),
{
    if s.len() == 0 {
        0
    } else {
        hex_seq_value(s.drop_last()) * 16 + hex_value(s.last())->0
    }
}

/// The number that a run of hex digits spells, if it is one and fits in 64 bits.
pub open spec fn hex_number(s: Seq<u8>) -> Option<nat> {
    if s.len() > 0 && all_hex(s) && hex_seq_value(s) <= u64::MAX {
        Some(hex_seq_value(s))
    } else {
        None
    }
}

proof fn lemma_hex_seq_value_prefix(s: Seq<u8>, k: int)
    requires
        0 <= k <= s.len(),
        all_hex(s),
    ensures
        hex_seq_value(s.subrange(0, k)) <= hex_seq_value(s),
    decreases s.len() - k,
{
    if k < s.len() {
        lemma_hex_seq_value_prefix(s, k + 1);
        assert(s.subrange(0, k + 1).drop_last() =~= s.subrange(0, k));
        assert(hex_value(s[k]) is Some);
    } else {
        assert(s.subrange(0, k) =~= s);
    }
}

/// Reads a hex number that must fit in 64 bits.
pub fn parse_hex_u64(s: &[u8]) -> (r: Option<u64>)
    ensures
        r is Some <==> hex_number(s@) is Some,
        r is Some ==> r->0 as nat == hex_number(s@)->0,
{
    if s.len() == 0 {
        return None;
    }
    let mut acc: u64 = 0;
    let mut i: usize = 0;
    while i < s.len()
        invariant
            0 <= i <= s@.len(),
            s@.len() > 0,
            all_hex(s@.subrange(0, i as int)),
            acc as nat == hex_seq_value(s@.subrange(0, i as int)),
        decreases s@.len() - i,
    {
        let ghost next = s@.subrange(0, i + 1);
        assert(next.drop_last() =~= s@.subrange(0, i as int));
        let d = match hex_value_exec(s[i]) {
            Some(d) => d,
            None => {
                assert(!all_hex(s@)) by {
                    assert(hex_value(s@[i as int]) is None);
                }
                return None;
            },
        };
        assert forall|j: int| 0 <= j < next.len() implies (#[trigger] hex_value(next[j])) is Some by {
            if j < i {
                assert(next[j] == s@.subrange(0, i as int)[j]);
            }
        }
        if acc > (u64::MAX - d as u64) / 16 {
            proof {
                assert(acc as nat * 16 + d as nat > u64::MAX) by (nonlinear_arith)
                    requires
                        acc as nat > (u64::MAX - d as nat) / 16,
                        d < 16,
                ;
                if all_hex(s@) {
                    lemma_hex_seq_value_prefix(s@, i + 1);
                }
            }
            return None;
        }
        proof {
            assert(acc as nat * 16 + d as nat <= u64::MAX) by (nonlinear_arith)
                requires
                    acc as nat <= (u64::MAX - d as nat) / 16,
                    d < 16,
            ;
        }
        acc = acc * 16 + d as u64;
        i = i + 1;
    }
    assert(s@.subrange(0, s@.len() as int) =~= s@);
    Some(acc)
}

/// Bytes given as pairs of hex digits, high nibble first.
pub open spec fn hex_buf(s: Seq<u8>) -> Option<Seq<u8>>
    decreases s.len(),
{
    if s.len() == 0 {
        Some(Seq::empty())
    } else if s.len() < 2 || hex_value(s[0]) is None || hex_value(s[1]) is None {
        None
    } else {
        match hex_buf(s.skip(2)) {
            Some(rest) => Some(
                seq![(hex_value(s[0])->0 * 16 + hex_value(s[1])->0) as u8] + rest,
            ),
            None => None,
        }
    }
}

/// Decodes pairs of hex digits into bytes.
pub fn decode_hex_buf(s: &[u8]) -> (r: Option<Vec<u8>>)
    ensures
        r is Some <==> hex_buf(s@) is Some,
        r is Some ==> r->0@ == hex_buf(s@)->0,
{
    let n = s.len();
    let mut out: Vec<u8> = Vec::new();
    let mut i: usize = 0;
    assert(s@.subrange(0, n as int) =~= s@);
    while i < n
        invariant
            0 <= i <= n == s@.len(),
            hex_buf(s@) == crate::codec::prepend(out@, hex_buf(s@.subrange(i as int, n as int))),
        decreases n - i,
    {
        let ghost rest = s@.subrange(i as int, n as int);
        if i + 1 >= n {
            return None;
        }
        let hi = match hex_value_exec(s[i]) {
            Some(d) => d,
            None => {
                return None;
            },
        };
        let lo = match hex_value_exec(s[i + 1]) {
            Some(d) => d,
            None => {
                return None;
            },
        };
        let b = hi * 16 + lo;
        proof {
            assert(rest.skip(2) =~= s@.subrange(i + 2, n as int));
            let u = hex_buf(s@.subrange(i + 2, n as int));
            if u is Some {
                vstd::seq_lib::lemma_concat_associative(out@, seq![b], u->0);
            }
        }
        out.push(b);
        i = i + 2;
    }
    assert(s@.subrange(n as int, n as int) =~= Seq::<u8>::empty());
    assert(out@ + Seq::<u8>::empty() =~= out@);
    Some(out)
}

/// A thread selector: `-1` all threads, `0` any thread, else a hex id.
pub open spec fn id_kind_spec(s: Seq<u8>) -> Option<IdKind> {
    if s == seq![45u8, 49u8] {
        Some(IdKind::All)
    } else {
        match hex_number(s) {
            Some(v) => if v == 0 {
                Some(IdKind::Any)
            } else if v <= usize::MAX {
                Some(IdKind::WithId(v as usize))
            } else {
                None
            },
            None => None,
        }
    }
}

pub fn parse_id_kind(s: &[u8]) -> (r: Option<IdKind>)
    ensures
        r == id_kind_spec(s@),
{
    if s.len() == 2 && s[0] == 45 && s[1] == 49 {
        assert(s@ =~= seq![45u8, 49u8]);
        return Some(IdKind::All);
    }
    assert(s@ != seq![45u8, 49u8]);
    match parse_hex_u64(s) {
        Some(v) => if v == 0 {
            Some(IdKind::Any)
        } else if v <= usize::MAX as u64 {
            Some(IdKind::WithId(v as usize))
        } else {
            None
        },
        None => None,
    }
}

/// The position of the first `c` in `s`, if any.
pub open spec fn first_index(s: Seq<u8>, c: u8) -> Option<int> {
    if exists|i: int| 0 <= i < s.len() && s[i] == c {
        Some(choose|i: int| 0 <= i < s.len() && s[i] == c && forall|j: int| 0 <= j < i ==> s[j] != c)
    } else {
        None
    }
}

/// A thread id, `p<pid>.<tid>` or `<tid>`.
pub open spec fn thread_id_spec(s: Seq<u8>) -> Option<ThreadId> {
    if s.len() > 0 && s[0] == 112 {
        match first_index(s, 46) {
            Some(dot) => match (id_kind_spec(s.subrange(1, dot)), id_kind_spec(s.subrange(dot + 1, s.len() as int))) {
                (Some(p), Some(t)) => Some(ThreadId { pid: Some(p), tid: t }),
                _ => None,
            },
            None => None,
        }
    } else {
        match id_kind_spec(s) {
            Some(t) => Some(ThreadId { pid: None, tid: t }),
            None => None,
        }
    }
}

/// Finds the first `c` in `s`.
pub fn find_byte(s: &[u8], c: u8) -> (r: Option<usize>)
    ensures
        r is Some <==> first_index(s@, c) is Some,
        r is Some ==> r->0 as int == first_index(s@, c)->0 && r->0 < s.len() && s@[r->0 as int]
            == c,
{
    let mut i: usize = 0;
    while i < s.len()
        invariant
            0 <= i <= s@.len(),
            forall|j: int| 0 <= j < i ==> s@[j] != c,
        decreases s@.len() - i,
    {
        if s[i] == c {
            proof {
                let k = i as int;
                assert(0 <= k < s@.len() && s@[k] == c);
                let w = choose|w: int| 0 <= w < s@.len() && s@[w] == c && forall|j: int| 0 <= j < w ==> s@[j] != c;
                assert(0 <= k < s@.len() && s@[k] == c && forall|j: int| 0 <= j < k ==> s@[j] != c);
                if w < k {
                    assert(s@[w] != c);
                } else if w > k {
                    assert(s@[k] != c);
                }
            }
            return Some(i);
        }
        i = i + 1;
    }
    None
}

/// The bytes `s[lo..hi]`.
pub fn slice_range(s: &[u8], lo: usize, hi: usize) -> (r: Vec<u8>)
    requires
        lo <= hi <= s@.len(),
    ensures
        r@ == s@.subrange(lo as int, hi as int),
{
    let mut out: Vec<u8> = Vec::new();
    let mut i: usize = lo;
    while i < hi
        invariant
            lo <= i <= hi <= s@.len(),
            out@ == s@.subrange(lo as int, i as int),
        decreases hi - i,
    {
        out.push(s[i]);
        assert(s@.subrange(lo as int, i + 1) =~= s@.subrange(lo as int, i as int).push(s@[i as int]));
        i = i + 1;
    }
    out
}

/// Reads a thread id.
pub fn parse_thread_id(s: &[u8]) -> (r: Option<ThreadId>)
    ensures
        r == thread_id_spec(s@),
{
    if s.len() > 0 && s[0] == 112 {
        match find_byte(s, 46) {
            Some(dot) => {
                assert(dot >= 1) by {
                    if dot == 0 {
                        assert(s@[0] == 112);
                    }
                }
                let p = slice_range(s, 1, dot);
                let t = slice_range(s, dot + 1, s.len());
                match (parse_id_kind(p.as_slice()), parse_id_kind(t.as_slice())) {
                    (Some(p), Some(t)) => Some(ThreadId { pid: Some(p), tid: t }),
                    _ => None,
                }
            },
            None => None,
        }
    } else {
        match parse_id_kind(s) {
            Some(t) => Some(ThreadId { pid: None, tid: t }),
            None => None,
        }
    }
}

/// `b` begins with `p`.
pub open spec fn has_prefix(b: Seq<u8>, p: Seq<u8>) -> bool {
    b.len() >= p.len() && b.subrange(0, p.len() as int) == p
}

/// What follows the prefix `p` in `b`.
pub open spec fn after(b: Seq<u8>, p: Seq<u8>) -> Seq<u8> {
    b.subrange(p.len() as int, b.len() as int)
}

fn starts_with(b: &[u8], p: &str) -> (r: bool)
    ensures
        r == has_prefix(b@, p.spec_bytes()),
{
    let pb = p.as_bytes();
    assert(pb@ == p.spec_bytes());
    if b.len() < pb.len() {
        assert(b@.len() < p.spec_bytes().len());
        return false;
    }
    let mut i: usize = 0;
    while i < pb.len()
        invariant
            0 <= i <= pb@.len() <= b@.len(),
            pb@ == p.spec_bytes(),
            forall|j: int| 0 <= j < i ==> b@[j] == pb@[j],
        decreases pb@.len() - i,
    {
        if b[i] != pb[i] {
            assert(b@.subrange(0, pb@.len() as int)[i as int] != pb@[i as int]);
            assert(b@.subrange(0, pb@.len() as int) != pb@);
            assert(!has_prefix(b@, p.spec_bytes()));
            return false;
        }
        i = i + 1;
    }
    assert(b@.subrange(0, pb@.len() as int) =~= pb@);
    true
}

fn rest_after(b: &[u8], p: &str) -> (r: Vec<u8>)
    requires
        has_prefix(b@, p.spec_bytes()),
    ensures
        r@ == after(b@, p.spec_bytes()),
{
    let n = p.as_bytes().len();
    slice_range(b, n, b.len())
}

/// A signal number: a hex number of at most 8 bits.
pub open spec fn signal_spec(s: Seq<u8>) -> Option<u8> {
    match hex_number(s) {
        Some(v) => if v <= 255 {
            Some(v as u8)
        } else {
            None
        },
        None => None,
    }
}

fn parse_signal(s: &[u8]) -> (r: Option<u8>)
    ensures
        r == signal_spec(s@),
{
    match parse_hex_u64(s) {
        Some(v) => if v <= 255 {
            Some(v as u8)
        } else {
            None
        },
        None => None,
    }
}

/// `<a>,<b>`: two hex numbers.
pub open spec fn pair_spec(s: Seq<u8>) -> Option<(u64, u64)> {
    match first_index(s, 44) {
        Some(i) => match (hex_number(s.subrange(0, i)), hex_number(s.subrange(i + 1, s.len() as int))) {
            (Some(a), Some(b)) => Some((a as u64, b as u64)),
            _ => None,
        },
        None => None,
    }
}

fn parse_pair(s: &[u8]) -> (r: Option<(u64, u64)>)
    ensures
        r == pair_spec(s@),
{
    match find_byte(s, 44) {
        Some(i) => {
            let a = slice_range(s, 0, i);
            let b = slice_range(s, i + 1, s.len());
            match (parse_hex_u64(a.as_slice()), parse_hex_u64(b.as_slice())) {
                (Some(x), Some(y)) => Some((x, y)),
                _ => None,
            }
        },
        None => None,
    }
}

/// A selector that names all threads or one of them; "any" has no place here.
pub open spec fn specific_spec(k: IdKind) -> Option<SpecificIdKind> {
    match k {
        IdKind::All => Some(SpecificIdKind::All),
        IdKind::WithId(t) => Some(SpecificIdKind::WithId(t)),
        IdKind::Any => None,
    }
}

fn specific(k: IdKind) -> (r: Option<SpecificIdKind>)
    ensures
        r == specific_spec(k),
{
    match k {
        IdKind::All => Some(SpecificIdKind::All),
        IdKind::WithId(t) => Some(SpecificIdKind::WithId(t)),
        IdKind::Any => None,
    }
}

/// The thread of a `vCont` action.
pub open spec fn action_thread_spec(s: Seq<u8>) -> Option<SpecificThreadId> {
    match thread_id_spec(s) {
        Some(t) => match (t.pid, specific_spec(t.tid)) {
            (None, Some(tid)) => Some(SpecificThreadId { pid: None, tid }),
            (Some(p), Some(tid)) => match specific_spec(p) {
                Some(pid) => Some(SpecificThreadId { pid: Some(pid), tid }),
                None => None,
            },
            _ => None,
        },
        None => None,
    }
}

fn parse_action_thread(s: &[u8]) -> (r: Option<SpecificThreadId>)
    ensures
        r == action_thread_spec(s@),
{
    match parse_thread_id(s) {
        Some(t) => match (t.pid, specific(t.tid)) {
            (None, Some(tid)) => Some(SpecificThreadId { pid: None, tid }),
            (Some(p), Some(tid)) => match specific(p) {
                Some(pid) => Some(SpecificThreadId { pid: Some(pid), tid }),
                None => None,
            },
            _ => None,
        },
        None => None,
    }
}

/// The kind of a `vCont` action: `c`, `C<sig>`, `s`, `S<sig>`, `t`, `r<start>,<end>`.
pub open spec fn action_kind_spec(k: Seq<u8>) -> Option<VContKind> {
    if k.len() == 0 {
        None
    } else if k[0] == 99 && k.len() == 1 {
        Some(VContKind::Continue)
    } else if k[0] == 115 && k.len() == 1 {
        Some(VContKind::Step)
    } else if k[0] == 116 && k.len() == 1 {
        Some(VContKind::Stop)
    } else if k[0] == 67 {
        match signal_spec(k.drop_first()) {
            Some(sig) => Some(VContKind::ContinueWithSig(sig)),
            None => None,
        }
    } else if k[0] == 83 {
        match signal_spec(k.drop_first()) {
            Some(sig) => Some(VContKind::StepWithSig(sig)),
            None => None,
        }
    } else if k[0] == 114 {
        match pair_spec(k.drop_first()) {
            Some((a, b)) => Some(VContKind::RangeStep(a, b)),
            None => None,
        }
    } else {
        None
    }
}

fn parse_action_kind(k: &[u8]) -> (r: Option<VContKind>)
    ensures
        r == action_kind_spec(k@),
{
    if k.len() == 0 {
        return None;
    }
    let c = k[0];
    if k.len() == 1 && (c == 99 || c == 115 || c == 116) {
        return if c == 99 {
            Some(VContKind::Continue)
        } else if c == 115 {
            Some(VContKind::Step)
        } else {
            Some(VContKind::Stop)
        };
    }
    let rest = slice_range(k, 1, k.len());
    assert(rest@ =~= k@.drop_first());
    if c == 67 {
        match parse_signal(rest.as_slice()) {
            Some(sig) => Some(VContKind::ContinueWithSig(sig)),
            None => None,
        }
    } else if c == 83 {
        match parse_signal(rest.as_slice()) {
            Some(sig) => Some(VContKind::StepWithSig(sig)),
            None => None,
        }
    } else if c == 114 {
        match parse_pair(rest.as_slice()) {
            Some((a, b)) => Some(VContKind::RangeStep(a, b)),
            None => None,
        }
    } else {
        None
    }
}

/// One `vCont` action, `<kind>[:<thread>]`; `None` when it does not parse.
pub open spec fn action_spec(a: Seq<u8>) -> Option<VContAction> {
    match first_index(a, 58) {
        Some(i) => match (action_kind_spec(a.subrange(0, i)), action_thread_spec(a.subrange(i + 1, a.len() as int))) {
            (Some(kind), Some(t)) => Some(VContAction { kind, thread: Some(t) }),
            _ => None,
        },
        None => match action_kind_spec(a) {
            Some(kind) => Some(VContAction { kind, thread: None }),
            None => None,
        },
    }
}

fn parse_action(a: &[u8]) -> (r: Option<VContAction>)
    ensures
        r == action_spec(a@),
{
    match find_byte(a, 58) {
        Some(i) => {
            let k = slice_range(a, 0, i);
            let t = slice_range(a, i + 1, a.len());
            match (parse_action_kind(k.as_slice()), parse_action_thread(t.as_slice())) {
                (Some(kind), Some(t)) => Some(VContAction { kind, thread: Some(t) }),
                _ => None,
            }
        },
        None => match parse_action_kind(a) {
            Some(kind) => Some(VContAction { kind, thread: None }),
            None => None,
        },
    }
}

/// The `;`-separated actions of a `vCont` packet, in order.
pub open spec fn actions_spec(b: Seq<u8>) -> Seq<Option<VContAction>>
    decreases b.len(),
{
    match first_index(b, 59) {
        Some(i) => if 0 <= i < b.len() {
            seq![action_spec(b.subrange(0, i))] + actions_spec(b.subrange(i + 1, b.len() as int))
        } else {
            Seq::empty()
        },
        None => seq![action_spec(b)],
    }
}

fn parse_actions(b: &[u8]) -> (r: Vec<Option<VContAction>>)
    ensures
        r@ == actions_spec(b@),
    decreases b@.len(),
{
    match find_byte(b, 59) {
        Some(i) => {
            let head = slice_range(b, 0, i);
            let tail = slice_range(b, i + 1, b.len());
            let mut out: Vec<Option<VContAction>> = Vec::new();
            out.push(parse_action(head.as_slice()));
            let mut rest = parse_actions(tail.as_slice());
            out.append(&mut rest);
            assert(out@ =~= actions_spec(b@));
            out
        },
        None => {
            let mut out: Vec<Option<VContAction>> = Vec::new();
            out.push(parse_action(b));
            assert(out@ =~= actions_spec(b@));
            out
        },
    }
}

fn eq_lit(b: &[u8], p: &str) -> (r: bool)
    ensures
        r == (b@ == p.spec_bytes()),
{
    let n = p.as_bytes().len();
    if b.len() != n {
        return false;
    }
    let r = starts_with(b, p);
    assert(b@.subrange(0, b@.len() as int) =~= b@);
    r
}

/// A packet body the engine knows how to answer.
#[allow(non_camel_case_types)]
#[derive(Debug, Clone)]
pub enum Command {
    Base(Base),
    RegisterInfo(qRegisterInfo),
    /// A packet the engine does not implement; the reply is empty.
    Unknown,
}

/// Why a packet body was refused.
#[derive(Debug, Clone, Copy, PartialEq, Eq, Structural)]
pub enum PacketParseError {
    MalformedCommand,
}

pub open spec fn ok_base(cmd: Base) -> Result<Command, PacketParseError> {
    Ok(Command::Base(cmd))
}

pub open spec fn malformed() -> Result<Command, PacketParseError> {
    Err(PacketParseError::MalformedCommand)
}

/// How the `q`, `Q` and `v` packets parse; `None` for bodies that are none of them.
pub open spec fn long_command_spec(b: Seq<u8>, r: Result<Command, PacketParseError>) -> Option<bool> {
    if has_prefix(b, "qSupported".spec_bytes()) {
        Some(r == ok_base(Base::qSupported))
    } else if b == "QStartNoAckMode".spec_bytes() {
        Some(r == ok_base(Base::QStartNoAckMode))
    } else if has_prefix(b, "qXfer:features:read:".spec_bytes()) {
        let rest = after(b, "qXfer:features:read:".spec_bytes());
        Some(
            match first_index(rest, 58) {
                Some(i) => match pair_spec(rest.subrange(i + 1, rest.len() as int)) {
                    Some((off, len)) => if len <= usize::MAX {
                        r == ok_base(Base::qXferFeaturesRead { offset: off, length: len as usize })
                    } else {
                        r == malformed()
                    },
                    None => r == malformed(),
                },
                None => r == malformed(),
            },
        )
    } else if b == "qAttached".spec_bytes() {
        Some(r == ok_base(Base::qAttached(None)))
    } else if has_prefix(b, "qAttached:".spec_bytes()) {
        Some(
            match hex_number(after(b, "qAttached:".spec_bytes())) {
                Some(p) => if p <= usize::MAX {
                    r == ok_base(Base::qAttached(Some(p as usize)))
                } else {
                    r == malformed()
                },
                None => r == malformed(),
            },
        )
    } else if b == "qfThreadInfo".spec_bytes() {
        Some(r == ok_base(Base::qfThreadInfo))
    } else if b == "qsThreadInfo".spec_bytes() {
        Some(r == ok_base(Base::qsThreadInfo))
    } else if has_prefix(b, "qRegisterInfo".spec_bytes()) {
        Some(
            match parse_usize_spec(after(b, "qRegisterInfo".spec_bytes())) {
                Some(n) => r == Ok::<Command, PacketParseError>(
                    Command::RegisterInfo(qRegisterInfo(n as usize)),
                ),
                None => r == malformed(),
            },
        )
    } else if b == "vCont?".spec_bytes() {
        Some(r == ok_base(Base::vContQuery))
    } else if has_prefix(b, "vCont;".spec_bytes()) {
        Some(
            r matches Ok(Command::Base(Base::vCont(v))) && v@ == actions_spec(
                after(b, "vCont;".spec_bytes()),
            ),
        )
    } else if has_prefix(b, "vKill;".spec_bytes()) {
        Some(
            match hex_number(after(b, "vKill;".spec_bytes())) {
                Some(p) => if p <= usize::MAX {
                    r == ok_base(Base::vKill(p as usize))
                } else {
                    r == malformed()
                },
                None => r == malformed(),
            },
        )
    } else {
        None
    }
}

/// How a packet body parses: the command it is, `Unknown` for one the engine does
/// not implement, or `MalformedCommand` when a known command is badly formed.
pub open spec fn parses_as(b: Seq<u8>, r: Result<Command, PacketParseError>) -> bool {
    match long_command_spec(b, r) {
        Some(holds) => holds,
        None => if b.len() == 0 {
            r matches Ok(Command::Unknown)
        } else {
            let c = b[0];
            let rest = b.drop_first();
            if c == 63 && b.len() == 1 {
                r == ok_base(Base::QuestionMark)
            } else if c == 103 && b.len() == 1 {
                r == ok_base(Base::g)
            } else if c == 107 && b.len() == 1 {
                r == ok_base(Base::k)
            } else if c == 71 {
                match hex_buf(rest) {
                    Some(v) => r matches Ok(Command::Base(Base::G(x))) && x@ == v,
                    None => r == malformed(),
                }
            } else if c == 109 {
                match pair_spec(rest) {
                    Some((a, l)) => if l <= usize::MAX {
                        r == ok_base(Base::m { addr: a, len: l as usize })
                    } else {
                        r == malformed()
                    },
                    None => r == malformed(),
                }
            } else if c == 77 {
                match first_index(rest, 58) {
                    Some(i) => match (pair_spec(rest.subrange(0, i)), hex_buf(rest.subrange(i + 1, rest.len() as int))) {
                        (Some((a, _)), Some(v)) => r matches Ok(Command::Base(Base::M { addr, val }))
                            && addr == a && val@ == v,
                        _ => r == malformed(),
                    },
                    None => r == malformed(),
                }
            } else if c == 68 {
                if b.len() == 1 || rest[0] == 59 {
                    r == ok_base(Base::D)
                } else {
                    r == malformed()
                }
            } else if c == 99 || c == 115 {
                if b.len() == 1 || hex_number(rest) is Some {
                    r == ok_base(if c == 99 { Base::c } else { Base::s })
                } else {
                    r == malformed()
                }
            } else if c == 72 {
                if b.len() >= 2 && (b[1] == 103 || b[1] == 99) && thread_id_spec(b.subrange(2, b.len() as int)) is Some {
                    r == ok_base(Base::H {
                        op: if b[1] == 99 { HOp::StepContinue } else { HOp::Other },
                        thread: thread_id_spec(b.subrange(2, b.len() as int))->0,
                    })
                } else {
                    r == malformed()
                }
            } else if c == 84 {
                match thread_id_spec(rest) {
                    Some(t) => r == ok_base(Base::T(t)),
                    None => r == malformed(),
                }
            } else {
                r matches Ok(Command::Unknown)
            }
        },
    }
}

fn parse_long_command(b: &[u8]) -> (r: Option<Result<Command, PacketParseError>>)
    ensures
        r is None <==> long_command_spec(b@, Ok(Command::Unknown)) is None,
        r is Some ==> long_command_spec(b@, r->0) == Some(true),
{
    if starts_with(b, "qSupported") {
        Some(Ok(Command::Base(Base::qSupported)))
    } else if eq_lit(b, "QStartNoAckMode") {
        Some(Ok(Command::Base(Base::QStartNoAckMode)))
    } else if starts_with(b, "qXfer:features:read:") {
        let rest = rest_after(b, "qXfer:features:read:");
        Some(
            match find_byte(rest.as_slice(), 58) {
                Some(i) => {
                    let tail = slice_range(rest.as_slice(), i + 1, rest.len());
                    match parse_pair(tail.as_slice()) {
                        Some((off, len)) => if len <= usize::MAX as u64 {
                            Ok(Command::Base(Base::qXferFeaturesRead { offset: off, length: len as usize }))
                        } else {
                            Err(PacketParseError::MalformedCommand)
                        },
                        None => Err(PacketParseError::MalformedCommand),
                    }
                },
                None => Err(PacketParseError::MalformedCommand),
            },
        )
    } else if eq_lit(b, "qAttached") {
        Some(Ok(Command::Base(Base::qAttached(None))))
    } else if starts_with(b, "qAttached:") {
        let rest = rest_after(b, "qAttached:");
        Some(
            match parse_hex_u64(rest.as_slice()) {
                Some(p) => if p <= usize::MAX as u64 {
                    Ok(Command::Base(Base::qAttached(Some(p as usize))))
                } else {
                    Err(PacketParseError::MalformedCommand)
                },
                None => Err(PacketParseError::MalformedCommand),
            },
        )
    } else if eq_lit(b, "qfThreadInfo") {
        Some(Ok(Command::Base(Base::qfThreadInfo)))
    } else if eq_lit(b, "qsThreadInfo") {
        Some(Ok(Command::Base(Base::qsThreadInfo)))
    } else if starts_with(b, "qRegisterInfo") {
        let rest = rest_after(b, "qRegisterInfo");
        Some(
            match qRegisterInfo::from_packet(rest.as_slice()) {
                Some(q) => Ok(Command::RegisterInfo(q)),
                None => Err(PacketParseError::MalformedCommand),
            },
        )
    } else if eq_lit(b, "vCont?") {
        Some(Ok(Command::Base(Base::vContQuery)))
    } else if starts_with(b, "vCont;") {
        let rest = rest_after(b, "vCont;");
        Some(Ok(Command::Base(Base::vCont(parse_actions(rest.as_slice())))))
    } else if starts_with(b, "vKill;") {
        let rest = rest_after(b, "vKill;");
        Some(
            match parse_hex_u64(rest.as_slice()) {
                Some(p) => if p <= usize::MAX as u64 {
                    Ok(Command::Base(Base::vKill(p as usize)))
                } else {
                    Err(PacketParseError::MalformedCommand)
                },
                None => Err(PacketParseError::MalformedCommand),
            },
        )
    } else {
        None
    }
}

/// Classifies a packet body as a command.
pub fn parse_command(b: &[u8]) -> (r: Result<Command, PacketParseError>)
    ensures
        parses_as(b@, r),
{
    match parse_long_command(b) {
        Some(r) => {
            return r;
        },
        None => {},
    }
    if b.len() == 0 {
        return Ok(Command::Unknown);
    }
    let c = b[0];
    let rest = slice_range(b, 1, b.len());
    assert(rest@ =~= b@.drop_first());
    if c == 63 && b.len() == 1 {
        Ok(Command::Base(Base::QuestionMark))
    } else if c == 103 && b.len() == 1 {
        Ok(Command::Base(Base::g))
    } else if c == 107 && b.len() == 1 {
        Ok(Command::Base(Base::k))
    } else if c == 71 {
        match decode_hex_buf(rest.as_slice()) {
            Some(v) => Ok(Command::Base(Base::G(v))),
            None => Err(PacketParseError::MalformedCommand),
        }
    } else if c == 109 {
        match parse_pair(rest.as_slice()) {
            Some((a, l)) => if l <= usize::MAX as u64 {
                Ok(Command::Base(Base::m { addr: a, len: l as usize }))
            } else {
                Err(PacketParseError::MalformedCommand)
            },
            None => Err(PacketParseError::MalformedCommand),
        }
    } else if c == 77 {
        match find_byte(rest.as_slice(), 58) {
            Some(i) => {
                let head = slice_range(rest.as_slice(), 0, i);
                let data = slice_range(rest.as_slice(), i + 1, rest.len());
                match (parse_pair(head.as_slice()), decode_hex_buf(data.as_slice())) {
                    (Some((a, _)), Some(v)) => Ok(Command::Base(Base::M { addr: a, val: v })),
                    _ => Err(PacketParseError::MalformedCommand),
                }
            },
            None => Err(PacketParseError::MalformedCommand),
        }
    } else if c == 68 {
        if b.len() == 1 || b[1] == 59 {
            Ok(Command::Base(Base::D))
        } else {
            Err(PacketParseError::MalformedCommand)
        }
    } else if c == 99 || c == 115 {
        if b.len() == 1 || parse_hex_u64(rest.as_slice()).is_some() {
            Ok(Command::Base(if c == 99 { Base::c } else { Base::s }))
        } else {
            Err(PacketParseError::MalformedCommand)
        }
    } else if c == 72 {
        if b.len() >= 2 && (b[1] == 103 || b[1] == 99) {
            let t = slice_range(b, 2, b.len());
            match parse_thread_id(t.as_slice()) {
                Some(thread) => Ok(Command::Base(Base::H {
                    op: if b[1] == 99 { HOp::StepContinue } else { HOp::Other },
                    thread,
                })),
                None => Err(PacketParseError::MalformedCommand),
            }
        } else {
            Err(PacketParseError::MalformedCommand)
        }
    } else if c == 84 {
        match parse_thread_id(rest.as_slice()) {
            Some(t) => Ok(Command::Base(Base::T(t))),
            None => Err(PacketParseError::MalformedCommand),
        }
    } else {
        Ok(Command::Unknown)
    }
}

} // verus!
