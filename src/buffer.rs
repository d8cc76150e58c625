//! Grow-only byte regions. A region is written from its start; it grows to
//! the payload's length when the payload does not fit and never shrinks, so
//! bytes past the payload keep whatever an earlier, longer write left there.
use vstd::prelude::*;

verus! {

/// The region that results from writing `payload` at the start of `region`.
pub open spec fn overwrite(region: Seq<u8>, payload: Seq<u8>) -> Seq<u8> {
    if payload.len() >= region.len() {
        payload
    } else {
        payload + region.subrange(payload.len() as int, region.len() as int)
    }
}

/// What a write leaves at the start of a region is the payload itself, so
/// the first `payload.len()` bytes of the region may be handed on as the
/// payload without copying it out first.
pub proof fn lemma_written_span_reads_back(region: Seq<u8>, payload: Seq<u8>)
    ensures
        overwrite(region, payload).len() >= payload.len(),
        overwrite(region, payload).subrange(0, payload.len() as int) == payload,
{
    assert(overwrite(region, payload).subrange(0, payload.len() as int) =~= payload);
}

/// True when no byte of `s` is zero.
pub open spec fn free_of_nul(s: Seq<u8>) -> bool {
    forall|i: int| 0 <= i < s.len() ==> s[i] != 0
}

/// The region left by writing each payload of `payloads` in turn.
pub open spec fn overwrite_all(region: Seq<u8>, payloads: Seq<Seq<u8>>) -> Seq<u8>
    decreases payloads.len(),
{
    if payloads.len() == 0 {
        region
    } else {
        overwrite(overwrite_all(region, payloads.drop_last()), payloads.last())
    }
}

proof fn lemma_overwrite_all_covers(region: Seq<u8>, payloads: Seq<Seq<u8>>)
    ensures
        overwrite_all(region, payloads).len() >= region.len(),
        forall|k: int|
            0 <= k < payloads.len() ==> overwrite_all(region, payloads).len() >= #[trigger] payloads[k].len(),
    decreases payloads.len(),
{
    if payloads.len() > 0 {
        let rest = payloads.drop_last();
        lemma_overwrite_all_covers(region, rest);
        assert forall|k: int| 0 <= k < payloads.len() implies overwrite_all(region, payloads).len()
            >= #[trigger] payloads[k].len() by {
            if k < rest.len() {
                assert(rest[k] == payloads[k]);
            }
        }
    }
}

/// A region's size never decreases: after any sequence of writes, writing
/// more of the sequence leaves a region at least as large.
pub proof fn lemma_capacity_never_shrinks(region: Seq<u8>, payloads: Seq<Seq<u8>>, i: int, j: int)
    requires
        0 <= i <= j <= payloads.len(),
    ensures
        overwrite_all(region, payloads.take(i)).len() <= overwrite_all(region, payloads.take(j)).len(),
    decreases j - i,
{
    if i < j {
        lemma_capacity_never_shrinks(region, payloads, i, j - 1);
        assert(payloads.take(j).drop_last() =~= payloads.take(j - 1));
    } else {
        assert(payloads.take(i) =~= payloads.take(j));
    }
}

/// A region does not grow for a payload no longer than one written to it
/// earlier in the same sequence of writes.
pub proof fn lemma_no_growth_for_seen_size(region: Seq<u8>, payloads: Seq<Seq<u8>>, i: int, j: int)
    requires
        0 <= i < j < payloads.len(),
        payloads[j].len() <= payloads[i].len(),
    ensures
        overwrite_all(region, payloads.take(j + 1)).len() == overwrite_all(region, payloads.take(j)).len(),
{
    let before = payloads.take(j);
    lemma_overwrite_all_covers(region, before);
    assert(before[i] == payloads[i]);
    assert(payloads.take(j + 1).drop_last() =~= before);
    assert(payloads.take(j + 1).last() == payloads[j]);
}

/// Writes `payload` at the start of `region`, growing it only as far as the
/// payload needs.
pub fn write_prefix(region: &mut Vec<u8>, payload: &[u8])
    ensures
        final(region)@ == overwrite(old(region)@, payload@),
{
    let n = payload.len();
    let mut i: usize = 0;
    while i < n
        invariant
            n == payload@.len(),
            0 <= i <= n,
            region@ == overwrite(old(region)@, payload@.subrange(0, i as int)),
        decreases n - i,
    {
        let b = payload[i];
        if i < region.len() {
            region.set(i, b);
        } else {
            region.push(b);
        }
        assert(region@ =~= overwrite(old(region)@, payload@.subrange(0, i + 1)));
        i = i + 1;
    }
    assert(payload@.subrange(0, n as int) =~= payload@);
}

/// Writes `text` followed by a zero terminator at the start of `region`.
pub fn write_terminated(region: &mut Vec<u8>, text: &[u8])
    ensures
        final(region)@ == overwrite(old(region)@, text@.push(0u8)),
{
    write_prefix(region, text);
    let n = text.len();
    if n < region.len() {
        region.set(n, 0u8);
    } else {
        region.push(0u8);
    }
    assert(region@ =~= overwrite(old(region)@, text@.push(0u8)));
}

/// Tells whether some byte of `bytes` is zero.
pub fn contains_nul(bytes: &[u8]) -> (r: bool)
    ensures
        r == !free_of_nul(bytes@),
{
    let mut i: usize = 0;
    while i < bytes.len()
        invariant
            0 <= i <= bytes@.len(),
            free_of_nul(bytes@.subrange(0, i as int)),
        decreases bytes@.len() - i,
    {
        if bytes[i] == 0 {
            assert(bytes@[i as int] == 0);
            return true;
        }
        assert(forall|k: int| 0 <= k < i ==> bytes@.subrange(0, i as int)[k] == bytes@[k]);
        i = i + 1;
    }
    assert(bytes@.subrange(0, i as int) =~= bytes@);
    false
}

} // verus!
