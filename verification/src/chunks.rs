//! The chunk model of a transfer: what moving one staging buffer at a time
//! does to the flash region, and the laws that follow.
//!
//! A transfer of `n` chunks of `bsz` bytes touches the flash region as `n`
//! disjoint windows at offsets `k * bsz`. Loading stores every chunk of the
//! input in ascending order; dumping gathers every chunk in ascending order.

use vstd::prelude::*;

verus! {

/// The `k`-th chunk of a byte string: the window at offset `k * bsz`.
pub open spec fn spec_chunk(data: Seq<u8>, k: int, bsz: int) -> Seq<u8>
    recommends
        0 <= k,
        1 <= bsz,
        k * bsz + bsz <= data.len(),
{
    data.subrange(k * bsz, k * bsz + bsz)
}

/// The flash region after the target programs chunk `k` of the input.
pub open spec fn spec_store_chunk(flash: Seq<u8>, data: Seq<u8>, k: int, bsz: int) -> Seq<u8>
    recommends
        0 <= k,
        1 <= bsz,
        k * bsz + bsz <= flash.len(),
        k * bsz + bsz <= data.len(),
{
    flash.subrange(0, k * bsz) + spec_chunk(data, k, bsz) + flash.subrange(
        k * bsz + bsz,
        flash.len() as int,
    )
}

/// The flash region after the first `n` chunks of the input are programmed.
pub open spec fn spec_store_chunks(flash: Seq<u8>, data: Seq<u8>, n: nat, bsz: int) -> Seq<u8>
    decreases n,
{
    if n == 0 {
        flash
    } else {
        spec_store_chunk(spec_store_chunks(flash, data, (n - 1) as nat, bsz), data, n - 1, bsz)
    }
}

/// The host file after the first `n` chunks of the flash region are dumped:
/// the chunks concatenated in ascending offset order.
pub open spec fn spec_gather_chunks(flash: Seq<u8>, n: nat, bsz: int) -> Seq<u8>
    decreases n,
{
    if n == 0 {
        Seq::empty()
    } else {
        spec_gather_chunks(flash, (n - 1) as nat, bsz) + spec_chunk(flash, n - 1, bsz)
    }
}

/// Gathering the first `n` chunks reproduces the first `n * bsz` bytes.
pub proof fn lemma_gather_prefix(flash: Seq<u8>, n: nat, bsz: int)
    requires
        1 <= bsz,
        n * bsz <= flash.len(),
    ensures
        spec_gather_chunks(flash, n, bsz) == flash.subrange(0, n * bsz),
    decreases n,
{
    if n == 0 {
        assert(n * bsz == 0) by (nonlinear_arith)
            requires
                n == 0,
        ;
        assert(spec_gather_chunks(flash, 0, bsz) =~= flash.subrange(0, 0));
    } else {
        let m = (n - 1) as nat;
        assert(m * bsz + bsz == n * bsz) by (nonlinear_arith)
            requires
                m == n - 1,
        ;
        assert(m * bsz >= 0) by (nonlinear_arith)
            requires
                m >= 0,
                bsz >= 1,
        ;
        lemma_gather_prefix(flash, m, bsz);
        assert(spec_gather_chunks(flash, n, bsz) == spec_gather_chunks(flash, m, bsz)
            + spec_chunk(flash, m as int, bsz));
        assert(spec_chunk(flash, m as int, bsz) == flash.subrange(m * bsz, m * bsz + bsz));
        assert(spec_gather_chunks(flash, n, bsz) =~= flash.subrange(0, n * bsz));
    }
}

/// Gathering every chunk of a flash region of exactly `n * bsz` bytes
/// reproduces the region.
pub proof fn lemma_gather_all(flash: Seq<u8>, n: nat, bsz: int)
    requires
        1 <= bsz,
        flash.len() == n * bsz,
    ensures
        spec_gather_chunks(flash, n, bsz) == flash,
{
    lemma_gather_prefix(flash, n, bsz);
    assert(flash.subrange(0, n * bsz) =~= flash);
}

/// Storing the first `n` chunks overwrites exactly the first `n * bsz`
/// bytes of the flash region with the input, leaving the rest untouched.
pub proof fn lemma_store_chunks_covers(flash: Seq<u8>, data: Seq<u8>, n: nat, bsz: int)
    requires
        1 <= bsz,
        n * bsz <= flash.len(),
        flash.len() == data.len(),
    ensures
        spec_store_chunks(flash, data, n, bsz).len() == flash.len(),
        forall|i: int|
            0 <= i < n * bsz ==> spec_store_chunks(flash, data, n, bsz)[i] == data[i],
        forall|i: int|
            n * bsz <= i < flash.len() ==> spec_store_chunks(flash, data, n, bsz)[i] == flash[i],
    decreases n,
{
    if n == 0 {
        assert(n * bsz == 0) by (nonlinear_arith)
            requires
                n == 0,
        ;
    } else {
        let m = (n - 1) as nat;
        assert(m * bsz + bsz == n * bsz) by (nonlinear_arith)
            requires
                m == n - 1,
        ;
        assert(m * bsz >= 0) by (nonlinear_arith)
            requires
                m >= 0,
                bsz >= 1,
        ;
        lemma_store_chunks_covers(flash, data, m, bsz);
        let prev = spec_store_chunks(flash, data, m, bsz);
        let out = spec_store_chunks(flash, data, n, bsz);
        let head = prev.subrange(0, m * bsz);
        let mid = spec_chunk(data, m as int, bsz);
        let tail = prev.subrange(m * bsz + bsz, prev.len() as int);
        assert(out == head + mid + tail);
        assert(head.len() == m * bsz && mid.len() == bsz);
        assert(out.len() == flash.len());
        assert forall|i: int| 0 <= i < n * bsz implies out[i] == data[i] by {
            if i < m * bsz {
                assert(out[i] == head[i]);
                assert(head[i] == prev[i]);
            } else {
                assert(out[i] == mid[i - m * bsz]);
                assert(mid[i - m * bsz] == data[i]);
            }
        }
        assert forall|i: int| n * bsz <= i < flash.len() implies out[i] == flash[i] by {
            assert(out[i] == tail[i - (m * bsz + bsz)]);
            assert(tail[i - (m * bsz + bsz)] == prev[i]);
        }
    }
}

/// Law: loading a byte string of exactly `n * bsz` bytes and then dumping
/// the same region yields the byte string back (round trip).
pub proof fn lemma_load_dump_round_trip(flash: Seq<u8>, data: Seq<u8>, n: nat, bsz: int)
    requires
        1 <= bsz,
        flash.len() == n * bsz,
        data.len() == n * bsz,
    ensures
        spec_gather_chunks(spec_store_chunks(flash, data, n, bsz), n, bsz) == data,
{
    lemma_store_chunks_covers(flash, data, n, bsz);
    assert(spec_store_chunks(flash, data, n, bsz) =~= data);
    lemma_gather_all(data, n, bsz);
}

/// Law: dumping twice against an unchanged flash region yields identical
/// outputs.
pub proof fn lemma_dump_idempotent(first: Seq<u8>, second: Seq<u8>, n: nat, bsz: int)
    requires
        first == second,
    ensures
        spec_gather_chunks(first, n, bsz) == spec_gather_chunks(second, n, bsz),
{
}

} // verus!
