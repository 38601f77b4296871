use vstd::prelude::*;

use crate::resume::{addr_fits, fits_addr};

verus! {

/// Relies on `num_traits::NumCast::from` for `u64`, which converts a `usize`
/// whenever its value fits in a `u64`, as every `usize` value does.
#[verifier::external_body]
pub(crate) fn offset_as_addr(i: usize) -> (r: Option<u64>)
    ensures
        r == Some(i as u64),
{
    <u64 as num_traits::NumCast>::from(i)
}

/// The address `offset` bytes past `base`, when it fits in `width` bytes.
pub fn offset_addr(base: u64, offset: usize, width: usize) -> (r: Option<u64>)
    requires
        1 <= width <= 8,
    ensures
        r is Some <==> fits_addr(base as nat + offset as nat, width as nat),
        r is Some ==> r->0 as nat == base as nat + offset as nat,
{
    let off = match offset_as_addr(offset) {
        Some(o) => o,
        None => {
            return None;
        },
    };
    if off > u64::MAX - base {
        proof {
            crate::resume::lemma_pow256_max(width as nat);
        }
        return None;
    }
    let a = base + off;
    if addr_fits(a, width) {
        Some(a)
    } else {
        None
    }
}

/// The reads of an `m` request from offset `off` on: one per packet-buffer-sized
/// piece, as (address, length).
pub open spec fn chunks_from(addr: nat, off: nat, len: nat, pbl: nat) -> Seq<(nat, nat)>
    decreases len - off,
{
    if off >= len || pbl == 0 {
        Seq::empty()
    } else if off + pbl >= len {
        seq![(addr + off, (len - off) as nat)]
    } else {
        seq![(addr + off, pbl)] + chunks_from(addr, off + pbl, len, pbl)
    }
}

/// The reads of an `m` request for `len` bytes at `addr`, or `None` when the
/// address, or the address of a later piece, does not fit in `width` bytes.
pub open spec fn memory_plan(addr: nat, len: nat, pbl: nat, width: nat) -> Option<Seq<(nat, nat)>> {
    let c = chunks_from(addr, 0, len, pbl);
    if fits_addr(addr, width) && forall|i: int| 0 <= i < c.len() ==> fits_addr(#[trigger] c[i].0, width) {
        Some(c)
    } else {
        None
    }
}

/// A planned read as numbers.
pub open spec fn chunk_view(c: (u64, usize)) -> (nat, nat) {
    (c.0 as nat, c.1 as nat)
}

/// Plans the reads of an `m` request.
pub fn plan_memory_read(addr: u64, len: usize, pbl: usize, width: usize) -> (r: Option<Vec<(u64, usize)>>)
    requires
        1 <= width <= 8,
        pbl > 0,
    ensures
        r is Some <==> memory_plan(addr as nat, len as nat, pbl as nat, width as nat) is Some,
        r is Some ==> r->0@.map_values(|c: (u64, usize)| chunk_view(c)) == memory_plan(
            addr as nat,
            len as nat,
            pbl as nat,
            width as nat,
        )->0,
{
    let ghost all = chunks_from(addr as nat, 0, len as nat, pbl as nat);
    if !addr_fits(addr, width) {
        return None;
    }
    let mut out: Vec<(u64, usize)> = Vec::new();
    let mut off: usize = 0;
    while off < len
        invariant
            1 <= width <= 8,
            pbl > 0,
            off <= len,
            fits_addr(addr as nat, width as nat),
            all == chunks_from(addr as nat, 0, len as nat, pbl as nat),
            all == out@.map_values(|c: (u64, usize)| chunk_view(c)) + chunks_from(
                addr as nat,
                off as nat,
                len as nat,
                pbl as nat,
            ),
            forall|i: int| 0 <= i < out@.len() ==> fits_addr(#[trigger] out@[i].0 as nat, width as nat),
        decreases len - off,
    {
        let ghost before = out@.map_values(|c: (u64, usize)| chunk_view(c));
        let ghost rest = chunks_from(addr as nat, off as nat, len as nat, pbl as nat);
        let chunk = if pbl < len - off {
            pbl
        } else {
            len - off
        };
        let a = match offset_addr(addr, off, width) {
            Some(a) => a,
            None => {
                proof {
                    assert(all[before.len() as int] == rest[0]);
                    assert(!fits_addr(all[before.len() as int].0, width as nat));
                }
                return None;
            },
        };
        out.push((a, chunk));
        proof {
            let after = out@.map_values(|c: (u64, usize)| chunk_view(c));
            let next = chunks_from(addr as nat, off as nat + chunk as nat, len as nat, pbl as nat);
            if off as nat + pbl as nat >= len as nat {
                assert(next =~= Seq::<(nat, nat)>::empty());
            }
            assert(rest =~= seq![chunk_view((a, chunk))] + next);
            assert(after =~= before.push(chunk_view((a, chunk))));
            vstd::seq_lib::lemma_concat_associative(before, seq![chunk_view((a, chunk))], next);
            assert(before + seq![chunk_view((a, chunk))] =~= after);
        }
        off = off + chunk;
    }
    proof {
        let done = out@.map_values(|c: (u64, usize)| chunk_view(c));
        assert(chunks_from(addr as nat, off as nat, len as nat, pbl as nat) =~= Seq::<(nat, nat)>::empty());
        assert(all =~= done);
        assert forall|i: int| 0 <= i < all.len() implies fits_addr(#[trigger] all[i].0, width as nat) by {
            assert(all[i] == chunk_view(out@[i]));
        }
    }
    Some(out)
}

} // verus!
