use vstd::prelude::*;

verus! {

/// The lower-case ASCII hex digit for a value below sixteen.
pub open spec fn hex_digit(d: nat) -> u8 {
    if d < 10 {
        (48 + d) as u8
    } else {
        (87 + d) as u8
    }
}

/// The lower-case hex spelling of `n`, without padding ("0" for zero).
pub open spec fn hex_num(n: nat) -> Seq<u8>
    decreases n,
{
    if n < 16 {
        seq![hex_digit(n)]
    } else {
        hex_num(n / 16).push(hex_digit(n % 16))
    }
}

/// Each byte as two lower-case hex digits, high nibble first.
pub open spec fn hex_bytes(s: Seq<u8>) -> Seq<u8>
    decreases s.len(),
{
    if s.len() == 0 {
        Seq::empty()
    } else {
        hex_bytes(s.drop_last()).push(hex_digit(s.last() as nat / 16)).push(
            hex_digit(s.last() as nat % 16),
        )
    }
}

/// The value of an ASCII hex digit, upper or lower case.
pub open spec fn hex_value(c: u8) -> Option<nat> {
    if 48 <= c <= 57 {
        Some((c - 48) as nat)
    } else if 97 <= c <= 102 {
        Some((c - 87) as nat)
    } else if 65 <= c <= 70 {
        Some((c - 55) as nat)
    } else {
        None
    }
}

pub proof fn lemma_hex_bytes_concat(a: Seq<u8>, b: Seq<u8>)
    ensures
        hex_bytes(a + b) == hex_bytes(a) + hex_bytes(b),
    decreases b.len(),
{
    if b.len() == 0 {
        assert(a + b =~= a);
        assert(hex_bytes(b) =~= Seq::<u8>::empty());
        assert(hex_bytes(a) + hex_bytes(b) =~= hex_bytes(a));
    } else {
        lemma_hex_bytes_concat(a, b.drop_last());
        assert((a + b).drop_last() =~= a + b.drop_last());
        assert((a + b).last() == b.last());
        assert(hex_bytes(a + b) =~= hex_bytes(a) + hex_bytes(b));
    }
}

pub proof fn lemma_hex_value_of_digit(d: nat)
    requires
        d < 16,
    ensures
        hex_value(hex_digit(d)) == Some(d),
{
}

pub fn hex_digit_exec(d: u8) -> (r: u8)
    requires
        d < 16,
    ensures
        r == hex_digit(d as nat),
{
    if d < 10 {
        48 + d
    } else {
        87 + d
    }
}

pub fn hex_value_exec(c: u8) -> (r: Option<u8>)
    ensures
        r is Some <==> hex_value(c) is Some,
        r is Some ==> r->0 as nat == hex_value(c)->0 && r->0 < 16,
{
    if 48 <= c && c <= 57 {
        Some(c - 48)
    } else if 97 <= c && c <= 102 {
        Some(c - 87)
    } else if 65 <= c && c <= 70 {
        Some(c - 55)
    } else {
        None
    }
}

/// Appends the hex spelling of `n`.
pub fn push_hex_num(v: &mut Vec<u8>, n: u64)
    ensures
        final(v)@ == old(v)@ + hex_num(n as nat),
    decreases n,
{
    if n < 16 {
        v.push(hex_digit_exec(n as u8));
    } else {
        push_hex_num(v, n / 16);
        v.push(hex_digit_exec((n % 16) as u8));
    }
}

/// Appends two hex digits for each byte.
pub fn push_hex_bytes(v: &mut Vec<u8>, bytes: &[u8])
    ensures
        final(v)@ == old(v)@ + hex_bytes(bytes@),
{
    let mut i: usize = 0;
    while i < bytes.len()
        invariant
            0 <= i <= bytes@.len(),
            v@ == old(v)@ + hex_bytes(bytes@.subrange(0, i as int)),
        decreases bytes@.len() - i,
    {
        let b = bytes[i];
        v.push(hex_digit_exec(b / 16));
        v.push(hex_digit_exec(b % 16));
        proof {
            let next = bytes@.subrange(0, i + 1);
            assert(next.drop_last() =~= bytes@.subrange(0, i as int));
            assert(next.last() == b);
        }
        i = i + 1;
    }
    assert(bytes@.subrange(0, bytes@.len() as int) =~= bytes@);
}

} // verus!
