use vstd::prelude::*;

use crate::hex::{hex_digit, hex_digit_exec, hex_value, hex_value_exec, lemma_hex_value_of_digit};

verus! {

/// `$`, which opens a packet.
pub const PACKET_START: u8 = 0x24;

/// `#`, which closes a packet's payload.
pub const PACKET_END: u8 = 0x23;

/// `}`, which escapes the byte after it.
pub const ESCAPE: u8 = 0x7d;

/// `+`, a positive acknowledgement.
pub const ACK: u8 = 0x2b;

/// `-`, a request to retransmit.
pub const NACK: u8 = 0x2d;

/// Ctrl-C, an out-of-band interrupt request.
pub const INTERRUPT: u8 = 0x03;

/// The bytes that cannot stand raw inside a payload.
pub open spec fn is_meta(b: u8) -> bool {
    b == 0x23 || b == 0x24 || b == 0x7d || b == 0x2a
}

/// One payload byte as it goes on the wire.
pub open spec fn escape_byte(b: u8) -> Seq<u8> {
    if is_meta(b) {
        seq![ESCAPE, b ^ 0x20]
    } else {
        seq![b]
    }
}

/// A payload as it goes on the wire, each metacharacter escaped.
pub open spec fn escaped(s: Seq<u8>) -> Seq<u8>
    decreases s.len(),
{
    if s.len() == 0 {
        Seq::empty()
    } else {
        escape_byte(s[0]) + escaped(s.drop_first())
    }
}

/// Prepends `o` to a result that may be missing.
pub open spec fn prepend(o: Seq<u8>, r: Option<Seq<u8>>) -> Option<Seq<u8>> {
    match r {
        Some(t) => Some(o + t),
        None => None,
    }
}

/// The payload that wire bytes stand for; `None` if they end in a lone `}`.
pub open spec fn unescape(s: Seq<u8>) -> Option<Seq<u8>>
    decreases s.len(),
{
    if s.len() == 0 {
        Some(Seq::empty())
    } else if s[0] == ESCAPE {
        if s.len() < 2 {
            None
        } else {
            prepend(seq![s[1] ^ 0x20], unescape(s.skip(2)))
        }
    } else {
        prepend(seq![s[0]], unescape(s.drop_first()))
    }
}

/// The sum of the bytes, as a mathematical integer.
pub open spec fn byte_sum(s: Seq<u8>) -> nat
    decreases s.len(),
{
    if s.len() == 0 {
        0
    } else {
        byte_sum(s.drop_last()) + s.last() as nat
    }
}

/// The RSP checksum: the sum of the bytes, modulo 256.
pub open spec fn checksum_spec(s: Seq<u8>) -> u8 {
    (byte_sum(s) % 256) as u8
}

/// A byte as two lower-case hex digits.
pub open spec fn hex2(b: u8) -> Seq<u8> {
    seq![hex_digit(b as nat / 16), hex_digit(b as nat % 16)]
}

/// The full frame of a payload: `$`, the escaped payload, `#`, and the checksum of
/// what stands between `$` and `#`.
pub open spec fn frame(payload: Seq<u8>) -> Seq<u8> {
    seq![PACKET_START] + escaped(payload) + seq![PACKET_END] + hex2(checksum_spec(escaped(payload)))
}

/// Why a frame was rejected.
#[derive(Debug, Clone, Copy, PartialEq, Eq, Structural)]
pub enum FrameError {
    /// Not of the shape `$<body>#<hex><hex>`, or the body ends in a lone `}`.
    Malformed,
    /// The checksum digits do not match the body.
    Checksum,
}

/// The body of a frame of the shape `$<body>#<hex><hex>` with no `#` in the body.
pub open spec fn frame_body(f: Seq<u8>) -> Seq<u8> {
    f.subrange(1, f.len() - 3)
}

pub open spec fn well_framed(f: Seq<u8>) -> bool {
    &&& f.len() >= 4
    &&& f[0] == PACKET_START
    &&& f[f.len() - 3] == PACKET_END
    &&& forall|i: int| 0 <= i < frame_body(f).len() ==> #[trigger] frame_body(f)[i] != PACKET_END
    &&& hex_value(f[f.len() - 2]) is Some
    &&& hex_value(f[f.len() - 1]) is Some
}

/// The checksum that a well-framed packet claims.
pub open spec fn claimed_checksum(f: Seq<u8>) -> nat {
    hex_value(f[f.len() - 2])->0 * 16 + hex_value(f[f.len() - 1])->0
}

/// What decoding a frame gives: its unescaped payload, or why it was rejected.
pub open spec fn decode_spec(f: Seq<u8>) -> Result<Seq<u8>, FrameError> {
    if !well_framed(f) || unescape(frame_body(f)) is None {
        Err(FrameError::Malformed)
    } else if claimed_checksum(f) != checksum_spec(frame_body(f)) as nat {
        Err(FrameError::Checksum)
    } else {
        Ok(unescape(frame_body(f))->0)
    }
}

/// Computes the RSP checksum of the bytes.
pub fn checksum(bytes: &[u8]) -> (r: u8)
    ensures
        r == checksum_spec(bytes@),
{
    let mut acc: u8 = 0;
    let mut i: usize = 0;
    while i < bytes.len()
        invariant
            0 <= i <= bytes@.len(),
            acc as nat == byte_sum(bytes@.subrange(0, i as int)) % 256,
        decreases bytes@.len() - i,
    {
        let b = bytes[i];
        proof {
            let next = bytes@.subrange(0, i + 1);
            assert(next.drop_last() =~= bytes@.subrange(0, i as int));
            vstd::arithmetic::div_mod::lemma_add_mod_noop(
                byte_sum(bytes@.subrange(0, i as int)) as int,
                b as int,
                256,
            );
            vstd::arithmetic::div_mod::lemma_mod_twice(b as int, 256);
        }
        acc = ((acc as u16 + b as u16) % 256) as u8;
        i = i + 1;
    }
    assert(bytes@.subrange(0, bytes@.len() as int) =~= bytes@);
    acc
}

proof fn lemma_escaped_push(s: Seq<u8>, b: u8)
    ensures
        escaped(s.push(b)) == escaped(s) + escape_byte(b),
    decreases s.len(),
{
    if s.len() == 0 {
        assert(s.push(b).drop_first() =~= Seq::<u8>::empty());
        assert(escaped(s.push(b)) =~= escape_byte(b) + escaped(Seq::<u8>::empty()));
        assert(escaped(s) + escape_byte(b) =~= escape_byte(b));
    } else {
        assert(s.push(b).drop_first() =~= s.drop_first().push(b));
        lemma_escaped_push(s.drop_first(), b);
        assert(escaped(s.push(b)) =~= escape_byte(s[0]) + (escaped(s.drop_first()) + escape_byte(b)));
    }
}

/// Appends the escaped form of the bytes.
pub fn push_escaped(v: &mut Vec<u8>, bytes: &[u8])
    ensures
        final(v)@ == old(v)@ + escaped(bytes@),
{
    let mut i: usize = 0;
    assert(escaped(bytes@.subrange(0, 0)) =~= Seq::<u8>::empty());
    while i < bytes.len()
        invariant
            0 <= i <= bytes@.len(),
            v@ == old(v)@ + escaped(bytes@.subrange(0, i as int)),
        decreases bytes@.len() - i,
    {
        let b = bytes[i];
        proof {
            assert(bytes@.subrange(0, i + 1) =~= bytes@.subrange(0, i as int).push(b));
            lemma_escaped_push(bytes@.subrange(0, i as int), b);
        }
        if b == 0x23 || b == 0x24 || b == 0x7d || b == 0x2a {
            v.push(ESCAPE);
            v.push(b ^ 0x20);
        } else {
            v.push(b);
        }
        assert(v@ =~= old(v)@ + escaped(bytes@.subrange(0, i + 1)));
        i = i + 1;
    }
    assert(bytes@.subrange(0, bytes@.len() as int) =~= bytes@);
}

/// Frames a payload for the wire: `$`, escaped payload, `#`, checksum.
pub fn encode_packet(payload: &[u8]) -> (r: Vec<u8>)
    ensures
        r@ == frame(payload@),
{
    let mut body: Vec<u8> = Vec::new();
    push_escaped(&mut body, payload);
    let ck = checksum(body.as_slice());
    let mut out: Vec<u8> = Vec::new();
    out.push(PACKET_START);
    let mut i: usize = 0;
    while i < body.len()
        invariant
            0 <= i <= body@.len(),
            out@ == seq![PACKET_START] + body@.subrange(0, i as int),
        decreases body@.len() - i,
    {
        out.push(body[i]);
        assert(body@.subrange(0, i + 1) =~= body@.subrange(0, i as int).push(body@[i as int]));
        i = i + 1;
    }
    assert(body@.subrange(0, body@.len() as int) =~= body@);
    out.push(PACKET_END);
    out.push(hex_digit_exec(ck / 16));
    out.push(hex_digit_exec(ck % 16));
    assert(out@ =~= frame(payload@));
    out
}

/// Turns wire bytes back into the payload they stand for; `None` if they end in
/// a lone `}`.
pub fn unescape_bytes(body: &Vec<u8>) -> (r: Option<Vec<u8>>)
    ensures
        r is Some <==> unescape(body@) is Some,
        r is Some ==> r->0@ == unescape(body@)->0,
{
    let mut out: Vec<u8> = Vec::new();
    let mut i: usize = 0;
    let n = body.len();
    assert(body@.subrange(0, n as int) =~= body@);
    while i < n
        invariant
            0 <= i <= n == body@.len(),
            unescape(body@) == prepend(out@, unescape(body@.subrange(i as int, n as int))),
        decreases n - i,
    {
        let ghost rest = body@.subrange(i as int, n as int);
        let b = body[i];
        if b == ESCAPE {
            if i + 1 >= n {
                return None;
            }
            let x = body[i + 1] ^ 0x20;
            proof {
                assert(rest.skip(2) =~= body@.subrange(i + 2, n as int));
                let u = unescape(body@.subrange(i + 2, n as int));
                if u is Some {
                    vstd::seq_lib::lemma_concat_associative(out@, seq![x], u->0);
                }
            }
            out.push(x);
            i = i + 2;
        } else {
            proof {
                assert(rest.drop_first() =~= body@.subrange(i + 1, n as int));
                let u = unescape(body@.subrange(i + 1, n as int));
                if u is Some {
                    vstd::seq_lib::lemma_concat_associative(out@, seq![b], u->0);
                }
            }
            out.push(b);
            i = i + 1;
        }
    }
    assert(body@.subrange(n as int, n as int) =~= Seq::<u8>::empty());
    assert(out@ + Seq::<u8>::empty() =~= out@);
    Some(out)
}

/// Checks a whole frame `$<body>#<hex><hex>` and returns its payload, unescaped.
pub fn decode_packet(f: &[u8]) -> (r: Result<Vec<u8>, FrameError>)
    ensures
        r is Ok <==> decode_spec(f@) is Ok,
        r is Ok ==> r->Ok_0@ == decode_spec(f@)->Ok_0,
        r is Err ==> r->Err_0 == decode_spec(f@)->Err_0,
{
    let n = f.len();
    if n < 4 || f[0] != PACKET_START || f[n - 3] != PACKET_END {
        return Err(FrameError::Malformed);
    }
    let mut body: Vec<u8> = Vec::new();
    let mut i: usize = 1;
    while i < n - 3
        invariant
            1 <= i <= n - 3,
            n == f@.len(),
            n >= 4,
            body@ == f@.subrange(1, i as int),
            forall|j: int| 0 <= j < body@.len() ==> #[trigger] body@[j] != PACKET_END,
        decreases n - 3 - i,
    {
        if f[i] == PACKET_END {
            assert(frame_body(f@)[i - 1] == PACKET_END);
            return Err(FrameError::Malformed);
        }
        body.push(f[i]);
        assert(f@.subrange(1, i + 1) =~= f@.subrange(1, i as int).push(f@[i as int]));
        i = i + 1;
    }
    assert(body@ =~= frame_body(f@));
    let hi = match hex_value_exec(f[n - 2]) {
        Some(d) => d,
        None => {
            return Err(FrameError::Malformed);
        },
    };
    let lo = match hex_value_exec(f[n - 1]) {
        Some(d) => d,
        None => {
            return Err(FrameError::Malformed);
        },
    };
    let payload = match unescape_bytes(&body) {
        Some(p) => p,
        None => {
            return Err(FrameError::Malformed);
        },
    };
    let ck = checksum(body.as_slice());
    if (hi as u16) * 16 + (lo as u16) != ck as u16 {
        return Err(FrameError::Checksum);
    }
    Ok(payload)
}

proof fn lemma_meta_flip(b: u8)
    ensures
        (b ^ 0x20) ^ 0x20 == b,
        is_meta(b) ==> (b ^ 0x20) != PACKET_END && (b ^ 0x20) != ESCAPE,
{
    assert((b ^ 0x20) ^ 0x20 == b) by (bit_vector);
    assert((b == 0x23 || b == 0x24 || b == 0x7d || b == 0x2a) ==> (b ^ 0x20) != 0x23 && (b ^ 0x20)
        != 0x7d) by (bit_vector);
}

/// Escaping never leaves a raw `#` in the body.
proof fn lemma_escaped_no_end(p: Seq<u8>)
    ensures
        forall|i: int| 0 <= i < escaped(p).len() ==> #[trigger] escaped(p)[i] != PACKET_END,
    decreases p.len(),
{
    if p.len() > 0 {
        lemma_escaped_no_end(p.drop_first());
        lemma_meta_flip(p[0]);
        let e = escape_byte(p[0]);
        let r = escaped(p.drop_first());
        assert forall|i: int| 0 <= i < escaped(p).len() implies #[trigger] escaped(p)[i] != PACKET_END by {
            if i >= e.len() {
                assert(escaped(p)[i] == r[i - e.len()]);
            }
        }
    }
}

/// Unescaping undoes escaping, for every payload.
pub proof fn lemma_unescape_escaped(p: Seq<u8>)
    ensures
        unescape(escaped(p)) == Some(p),
    decreases p.len(),
{
    if p.len() == 0 {
        assert(escaped(p) =~= Seq::<u8>::empty());
    } else {
        let b = p[0];
        let s = escaped(p);
        lemma_unescape_escaped(p.drop_first());
        lemma_meta_flip(b);
        if is_meta(b) {
            assert(s.skip(2) =~= escaped(p.drop_first()));
            assert(s[0] == ESCAPE);
            assert(seq![s[1] ^ 0x20] + p.drop_first() =~= p);
        } else {
            assert(s.drop_first() =~= escaped(p.drop_first()));
            assert(s[0] == b);
            assert(seq![b] + p.drop_first() =~= p);
        }
    }
}

/// Decoding the frame of a payload gives the payload back, whatever bytes it holds:
/// metacharacters are escaped on the way out and restored on the way in.
pub proof fn lemma_decode_frame(p: Seq<u8>)
    ensures
        decode_spec(frame(p)) == Ok::<Seq<u8>, FrameError>(p),
{
    let f = frame(p);
    let e = escaped(p);
    let ck = checksum_spec(e);
    assert(frame_body(f) =~= e);
    lemma_escaped_no_end(p);
    lemma_unescape_escaped(p);
    assert(f[f.len() - 3] == PACKET_END);
    assert(f[f.len() - 2] == hex_digit(ck as nat / 16));
    assert(f[f.len() - 1] == hex_digit(ck as nat % 16));
    lemma_hex_value_of_digit(ck as nat / 16);
    lemma_hex_value_of_digit(ck as nat % 16);
}

/// The checksum of a frame is the low 8 bits of the sum of the bytes between `$`
/// and `#`; for a payload without metacharacters those are the payload's own bytes.
pub proof fn lemma_frame_checksum(p: Seq<u8>)
    ensures
        frame(p).subrange(frame(p).len() - 2, frame(p).len() as int) == hex2(
            (byte_sum(escaped(p)) % 256) as u8,
        ),
        (forall|i: int| 0 <= i < p.len() ==> !is_meta(#[trigger] p[i])) ==> escaped(p) == p,
{
    let f = frame(p);
    assert(f.subrange(f.len() - 2, f.len() as int) =~= hex2(checksum_spec(escaped(p))));
    if forall|i: int| 0 <= i < p.len() ==> !is_meta(#[trigger] p[i]) {
        lemma_escaped_plain(p);
    }
}

proof fn lemma_escaped_plain(p: Seq<u8>)
    requires
        forall|i: int| 0 <= i < p.len() ==> !is_meta(#[trigger] p[i]),
    ensures
        escaped(p) == p,
    decreases p.len(),
{
    if p.len() > 0 {
        assert(!is_meta(p[0]));
        let r = p.drop_first();
        assert forall|i: int| 0 <= i < r.len() implies !is_meta(#[trigger] r[i]) by {
            assert(r[i] == p[i + 1]);
        }
        lemma_escaped_plain(r);
        assert(seq![p[0]] + r =~= p);
    } else {
        assert(escaped(p) =~= p);
    }
}

/// Where the inbound scanner stands.
#[derive(Debug, Clone, Copy, PartialEq, Eq, Structural)]
pub enum FramePhase {
    /// Between packets: waiting for `$`.
    Idle,
    /// Inside a packet, before `#`.
    Body,
    /// After `#`: the first checksum digit is next.
    Check1,
    /// The second checksum digit is next.
    Check2,
}

/// What one inbound byte amounts to.
#[derive(Debug, Clone)]
pub enum FeedEvent {
    /// Nothing yet.
    Pending,
    /// Ctrl-C between packets: the client asks to stop the target.
    Interrupt,
    /// A whole frame `$...#xx`, to be checked by `decode_packet`.
    Frame(Vec<u8>),
}

/// Assembles frames from inbound bytes, one byte at a time.
pub struct Framer {
    pub phase: FramePhase,
    /// The bytes of the frame so far, from its `$`.
    pub buf: Vec<u8>,
}

/// The phase after a byte.
pub open spec fn next_phase(phase: FramePhase, b: u8) -> FramePhase {
    match phase {
        FramePhase::Idle => if b == PACKET_START {
            FramePhase::Body
        } else {
            FramePhase::Idle
        },
        FramePhase::Body => if b == PACKET_END {
            FramePhase::Check1
        } else {
            FramePhase::Body
        },
        FramePhase::Check1 => FramePhase::Check2,
        FramePhase::Check2 => FramePhase::Idle,
    }
}

/// The frame bytes kept after a byte: bytes between packets are dropped, and a
/// completed frame leaves nothing behind.
pub open spec fn next_buf(phase: FramePhase, buf: Seq<u8>, b: u8) -> Seq<u8> {
    match phase {
        FramePhase::Idle => if b == PACKET_START {
            seq![PACKET_START]
        } else {
            buf
        },
        FramePhase::Check2 => Seq::empty(),
        _ => buf.push(b),
    }
}

impl Framer {
    /// A scanner between packets.
    pub fn new() -> (r: Framer)
        ensures
            r.phase == FramePhase::Idle,
            r.buf@ == Seq::<u8>::empty(),
    {
        Framer { phase: FramePhase::Idle, buf: Vec::new() }
    }

    /// Takes one inbound byte. A frame is handed out once its second checksum digit
    /// arrives; Ctrl-C counts as an interrupt only between packets; anything else
    /// between packets (acknowledgements among them) is skipped.
    pub fn feed(&mut self, b: u8) -> (r: FeedEvent)
        requires
            old(self).phase == FramePhase::Idle ==> old(self).buf@ == Seq::<u8>::empty(),
        ensures
            final(self).phase == next_phase(old(self).phase, b),
            final(self).buf@ == next_buf(old(self).phase, old(self).buf@, b),
            final(self).phase == FramePhase::Idle ==> final(self).buf@ == Seq::<u8>::empty(),
            (r is Interrupt) <==> (old(self).phase == FramePhase::Idle && b == INTERRUPT),
            (r is Frame) <==> old(self).phase == FramePhase::Check2,
            r matches FeedEvent::Frame(f) ==> f@ == old(self).buf@.push(b),
    {
        match self.phase {
            FramePhase::Idle => {
                if b == PACKET_START {
                    self.buf.push(b);
                    assert(self.buf@ =~= seq![PACKET_START]);
                    self.phase = FramePhase::Body;
                    FeedEvent::Pending
                } else if b == INTERRUPT {
                    FeedEvent::Interrupt
                } else {
                    FeedEvent::Pending
                }
            },
            FramePhase::Body => {
                self.buf.push(b);
                if b == PACKET_END {
                    self.phase = FramePhase::Check1;
                }
                FeedEvent::Pending
            },
            FramePhase::Check1 => {
                self.buf.push(b);
                self.phase = FramePhase::Check2;
                FeedEvent::Pending
            },
            FramePhase::Check2 => {
                self.buf.push(b);
                let frame = self.buf.clone();
                self.buf = Vec::new();
                self.phase = FramePhase::Idle;
                FeedEvent::Frame(frame)
            },
        }
    }
}

} // verus!
