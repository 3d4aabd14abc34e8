//! The allocator's laws: properties that tie the resolver, the slab
//! tracker and the allocate/deallocate entry points together, proved once
//! and for all inputs.

use crate::mem::{
    lemma_align_bounds, lemma_find_start_props, lemma_refine_list_pieces, spec_align_down,
    spec_align_up, spec_find_start, spec_first_fit, spec_fragment_ok, spec_free_ranges,
    spec_head_piece, spec_ranges_disjoint, spec_ranges_wf, spec_refine_all, spec_refine_list,
    spec_refine_one, spec_remove_start, spec_tail_piece, EmuRsMemoryRange, EmuRsMemoryTableEntry,
};
use vstd::prelude::*;

verus! {

/// Refining an empty candidate list leaves it empty, whatever the slabs.
proof fn lemma_refine_all_of_empty(slabs: Seq<EmuRsMemoryRange>, alignment: int)
    ensures
        spec_refine_all(Seq::<EmuRsMemoryRange>::empty(), slabs, alignment) == Seq::<
            EmuRsMemoryRange,
        >::empty(),
    decreases slabs.len(),
{
    if slabs.len() == 0 {
    } else {
        assert(spec_refine_list(Seq::<EmuRsMemoryRange>::empty(), slabs[0], alignment) == Seq::<
            EmuRsMemoryRange,
        >::empty());
        lemma_refine_all_of_empty(slabs.drop_first(), alignment);
    }
}

/// A slab that contains every candidate wipes the whole list in one step.
proof fn lemma_refine_list_contained(
    cs: Seq<EmuRsMemoryRange>,
    slab: EmuRsMemoryRange,
    alignment: int,
)
    requires
        forall|k: int| 0 <= k < cs.len() ==> slab.spec_contains_range(#[trigger] cs[k]),
    ensures
        spec_refine_list(cs, slab, alignment) == Seq::<EmuRsMemoryRange>::empty(),
    decreases cs.len(),
{
    if cs.len() == 0 {
    } else {
        assert(slab.spec_contains_range(cs[0]));
        lemma_refine_list_contained(cs.drop_first(), slab, alignment);
        assert(spec_refine_list(cs, slab, alignment) =~= Seq::<EmuRsMemoryRange>::empty());
    }
}

/// When one of the slabs contains every candidate, no fragment survives the
/// full refinement.
proof fn lemma_contained_candidates_vanish(
    cs: Seq<EmuRsMemoryRange>,
    slabs: Seq<EmuRsMemoryRange>,
    alignment: int,
    witness: int,
)
    requires
        alignment >= 1,
        0 <= witness < slabs.len(),
        forall|k: int| 0 <= k < cs.len() ==> slabs[witness].spec_contains_range(#[trigger] cs[k]),
    ensures
        spec_refine_all(cs, slabs, alignment) == Seq::<EmuRsMemoryRange>::empty(),
    decreases slabs.len(),
{
    let mid = spec_refine_list(cs, slabs[0], alignment);
    if witness == 0 {
        lemma_refine_list_contained(cs, slabs[0], alignment);
        lemma_refine_all_of_empty(slabs.drop_first(), alignment);
    } else {
        lemma_refine_list_pieces(cs, slabs[0], alignment);
        assert forall|k: int| 0 <= k < mid.len() implies slabs.drop_first()[witness
            - 1].spec_contains_range(#[trigger] mid[k]) by {
            assert(spec_fragment_ok(cs, seq![slabs[0]], mid[k]));
            let m = choose|m: int|
                0 <= m < cs.len() && (#[trigger] cs[m]).spec_contains_range(mid[k]);
            assert(slabs[witness].spec_contains_range(cs[m]));
            assert(slabs.drop_first()[witness - 1] == slabs[witness]);
        }
        lemma_contained_candidates_vanish(mid, slabs.drop_first(), alignment, witness - 1);
    }
}

/// With no live slabs the resolver hands back exactly the table's own
/// ranges, entry for entry: free space starts as precisely what the boot
/// environment declared.
pub proof fn lemma_no_slab_identity(table: Seq<EmuRsMemoryTableEntry>, alignment: int)
    ensures
        spec_free_ranges(table, Seq::<EmuRsMemoryRange>::empty(), alignment) == table.map_values(
            |e: EmuRsMemoryTableEntry| e.range,
        ),
    decreases table.len(),
{
    if table.len() == 0 {
        assert(spec_free_ranges(table, Seq::<EmuRsMemoryRange>::empty(), alignment)
            =~= table.map_values(|e: EmuRsMemoryTableEntry| e.range));
    } else {
        lemma_no_slab_identity(table.drop_first(), alignment);
        assert(spec_refine_all(seq![table[0].range], Seq::<EmuRsMemoryRange>::empty(), alignment)
            == seq![table[0].range]);
        assert(spec_free_ranges(table, Seq::<EmuRsMemoryRange>::empty(), alignment)
            =~= table.map_values(|e: EmuRsMemoryTableEntry| e.range));
    }
}

/// A slab whose coverage equals or fully contains a table entry's range
/// leaves that entry no free fragment at all.
pub proof fn lemma_full_coverage_removes_entry(
    entry: EmuRsMemoryTableEntry,
    slabs: Seq<EmuRsMemoryRange>,
    alignment: int,
    witness: int,
)
    requires
        alignment >= 1,
        0 <= witness < slabs.len(),
        slabs[witness].spec_contains_range(entry.range),
    ensures
        spec_refine_all(seq![entry.range], slabs, alignment) == Seq::<EmuRsMemoryRange>::empty(),
{
    assert forall|k: int|
        0 <= k < seq![entry.range].len() implies slabs[witness].spec_contains_range(
        #[trigger] seq![entry.range][k],
    ) by {
        assert(seq![entry.range][k] == entry.range);
    }
    lemma_contained_candidates_vanish(seq![entry.range], slabs, alignment, witness);
}

/// A slab strictly inside an entry's range splits it into exactly a head
/// and a tail fragment, in that order: neither overlaps the slab, both are
/// non-empty, and the cut edges sit on multiples of the alignment. (When a
/// trimmed edge would cross the entry's boundary the fragment is dropped
/// instead, so the hypotheses below keep both trims inside the entry.)
pub proof fn lemma_middle_slab_splits(
    entry: EmuRsMemoryRange,
    slab: EmuRsMemoryRange,
    alignment: int,
)
    requires
        alignment >= 1,
        slab.spec_wf(),
        entry.first < slab.first,
        slab.last < entry.last,
        entry.first <= spec_align_down(alignment, slab.first - 1),
        spec_align_up(alignment, slab.last + 1) <= entry.last,
    ensures
        ({
            let head = EmuRsMemoryRange {
                first: entry.first,
                last: spec_align_down(alignment, slab.first - 1) as usize,
            };
            let tail = EmuRsMemoryRange {
                first: spec_align_up(alignment, slab.last + 1) as usize,
                last: entry.last,
            };
            &&& spec_refine_all(seq![entry], seq![slab], alignment) == seq![head, tail]
            &&& head.spec_wf()
            &&& tail.spec_wf()
            &&& !head.spec_overlaps_range(slab)
            &&& !tail.spec_overlaps_range(slab)
            &&& head.last as int % alignment == 0
            &&& tail.first as int % alignment == 0
        }),
{
    lemma_align_bounds(alignment, slab.first - 1);
    lemma_align_bounds(alignment, slab.last + 1);
    let head = EmuRsMemoryRange {
        first: entry.first,
        last: spec_align_down(alignment, slab.first - 1) as usize,
    };
    let tail = EmuRsMemoryRange {
        first: spec_align_up(alignment, slab.last + 1) as usize,
        last: entry.last,
    };
    assert(!slab.spec_contains_range(entry));
    assert(slab.spec_overlaps_range(entry));
    assert(spec_head_piece(entry, slab, alignment) == seq![head]);
    assert(spec_tail_piece(entry, slab, alignment) == seq![tail]);
    assert(spec_refine_one(entry, slab, alignment) =~= seq![head, tail]);
    assert(seq![entry][0] == entry);
    assert(seq![entry].drop_first() =~= Seq::<EmuRsMemoryRange>::empty());
    assert(spec_refine_list(Seq::<EmuRsMemoryRange>::empty(), slab, alignment) == Seq::<
        EmuRsMemoryRange,
    >::empty());
    assert(spec_refine_list(seq![entry], slab, alignment) =~= seq![head, tail]);
    assert(seq![slab].drop_first() =~= Seq::<EmuRsMemoryRange>::empty());
    assert(spec_refine_all(seq![entry], seq![slab], alignment) == spec_refine_all(
        spec_refine_list(seq![entry], slab, alignment),
        Seq::<EmuRsMemoryRange>::empty(),
        alignment,
    ));
}

/// The start addresses of the given coverages, in order.
pub open spec fn spec_starts(blocks: Seq<EmuRsMemoryRange>) -> Seq<usize> {
    blocks.map_values(|b: EmuRsMemoryRange| b.first)
}

/// The tracker contents after a whole sequence of frees, each releasing the
/// first slab that starts at the freed address, as `dealloc` does.
pub open spec fn spec_release_all(slabs: Seq<EmuRsMemoryRange>, frees: Seq<usize>) -> Seq<
    EmuRsMemoryRange,
>
    decreases frees.len(),
{
    if frees.len() == 0 {
        slabs
    } else {
        spec_release_all(spec_remove_start(slabs, frees[0] as int), frees.drop_first())
    }
}

/// Well-formed, pairwise disjoint ranges all start at different addresses.
proof fn lemma_disjoint_starts_distinct(rs: Seq<EmuRsMemoryRange>)
    requires
        spec_ranges_wf(rs),
        spec_ranges_disjoint(rs),
    ensures
        forall|i: int, j: int|
            0 <= i < rs.len() && 0 <= j < rs.len() && i != j ==> (#[trigger] rs[i]).first != (
            #[trigger] rs[j]).first,
{
    assert forall|i: int, j: int|
        0 <= i < rs.len() && 0 <= j < rs.len() && i != j implies (#[trigger] rs[i]).first != (
    #[trigger] rs[j]).first by {
        assert(!rs[i].spec_overlaps_range(rs[j]));
        assert(rs[i].spec_wf() && rs[j].spec_wf());
    }
}

/// Searching a concatenation whose front holds no match searches the back,
/// with the indices shifted past the front.
proof fn lemma_find_start_concat(xs: Seq<EmuRsMemoryRange>, ys: Seq<EmuRsMemoryRange>, addr: int)
    requires
        forall|i: int| 0 <= i < xs.len() ==> (#[trigger] xs[i]).first != addr,
    ensures
        spec_find_start(xs + ys, addr) == if spec_find_start(ys, addr) < 0 {
            -1
        } else {
            xs.len() + spec_find_start(ys, addr)
        },
    decreases xs.len(),
{
    if xs.len() == 0 {
        assert(xs + ys =~= ys);
    } else {
        assert((xs + ys)[0] == xs[0]);
        assert((xs + ys).drop_first() =~= xs.drop_first() + ys);
        lemma_find_start_concat(xs.drop_first(), ys, addr);
    }
}

/// Allocating any blocks and then freeing each block's start address, in
/// any order, returns the live-slab record to exactly its pre-allocation
/// state. `allocate` appends each block to the record and `dealloc` removes
/// the first slab starting at the freed address, so the law speaks of the
/// record those two entry points maintain.
pub proof fn lemma_alloc_dealloc_round_trip(
    initial: Seq<EmuRsMemoryRange>,
    blocks: Seq<EmuRsMemoryRange>,
    frees: Seq<usize>,
)
    requires
        spec_ranges_wf(initial + blocks),
        spec_ranges_disjoint(initial + blocks),
        frees.to_multiset() == spec_starts(blocks).to_multiset(),
    ensures
        spec_release_all(initial + blocks, frees) == initial,
    decreases frees.len(),
{
    broadcast use vstd::seq_lib::group_to_multiset_ensures;

    let all = initial + blocks;
    if frees.len() == 0 {
        assert(spec_starts(blocks).to_multiset().len() == 0);
        assert(spec_starts(blocks).len() == 0);
        assert(blocks.len() == 0);
        assert(all =~= initial);
    } else {
        let addr = frees[0];
        assert(frees.to_multiset().count(addr) > 0);
        assert(spec_starts(blocks).to_multiset().count(addr) > 0);
        assert(spec_starts(blocks).contains(addr));
        let k = choose|k: int| 0 <= k < spec_starts(blocks).len() && spec_starts(blocks)[k] == addr;
        assert(blocks[k].first == addr);

        lemma_disjoint_starts_distinct(all);
        assert forall|i: int| 0 <= i < initial.len() implies (#[trigger] initial[i]).first
            != addr by {
            assert(all[i] == initial[i]);
            assert(all[initial.len() + k] == blocks[k]);
        }

        // Inside `blocks`, exactly one coverage starts at `addr`.
        let f = spec_find_start(blocks, addr as int);
        lemma_find_start_props(blocks, addr as int);
        assert(f >= 0) by {
            if f < 0 {
                assert(blocks[k].first != addr);
            }
        }
        lemma_find_start_concat(initial, blocks, addr as int);
        assert(spec_find_start(all, addr as int) == initial.len() + f);
        assert(spec_remove_start(all, addr as int) == all.remove(initial.len() + f));
        assert(all.remove(initial.len() + f) =~= initial + blocks.remove(f));

        let rest_blocks = blocks.remove(f);
        let rest_all = initial + rest_blocks;

        // The remaining ranges are still well formed and disjoint.
        assert forall|p: int| 0 <= p < rest_all.len() implies (#[trigger] rest_all[p]).spec_wf() by {
            assert(rest_all[p] == all.remove(initial.len() + f)[p]);
            if p < initial.len() + f {
                assert(all.remove(initial.len() + f)[p] == all[p]);
            } else {
                assert(all.remove(initial.len() + f)[p] == all[p + 1]);
            }
        }
        assert forall|p: int, q: int|
            0 <= p < rest_all.len() && 0 <= q < rest_all.len() && p != q implies !(
        #[trigger] rest_all[p]).spec_overlaps_range(#[trigger] rest_all[q]) by {
            let cut = initial.len() + f;
            let p0: int = if p < cut {
                p
            } else {
                p + 1
            };
            let q0: int = if q < cut {
                q
            } else {
                q + 1
            };
            assert(rest_all[p] == all[p0]);
            assert(rest_all[q] == all[q0]);
            assert(!all[p0].spec_overlaps_range(all[q0]));
        }

        // The remaining frees are a permutation of the remaining starts.
        assert(frees.drop_first() =~= frees.remove(0));
        assert(frees.remove(0).to_multiset() == frees.to_multiset().remove(addr));
        assert(spec_starts(rest_blocks) =~= spec_starts(blocks).remove(f));
        assert(spec_starts(blocks).remove(f).to_multiset() == spec_starts(
            blocks,
        ).to_multiset().remove(spec_starts(blocks)[f]));
        assert(spec_starts(blocks)[f] == addr);
        assert(frees.drop_first().to_multiset() == spec_starts(rest_blocks).to_multiset());

        lemma_alloc_dealloc_round_trip(initial, rest_blocks, frees.drop_first());
    }
}

/// How many addresses the candidates offer in all, counting a malformed
/// candidate as empty.
pub open spec fn spec_total_free(cands: Seq<EmuRsMemoryRange>) -> int
    decreases cands.len(),
{
    if cands.len() == 0 {
        0
    } else {
        (if cands[0].spec_len() > 0 {
            cands[0].spec_len()
        } else {
            0
        }) + spec_total_free(cands.drop_first())
    }
}

/// A request larger than all the free space put together fits nowhere, so
/// first-fit reports nothing. Together with `allocate`'s contract this makes
/// an oversized request fail with `OutOfMemory` and leave the table and the
/// live slabs exactly as they were.
pub proof fn lemma_oversized_request_finds_nothing(cands: Seq<EmuRsMemoryRange>, size: int)
    requires
        size > spec_total_free(cands),
    ensures
        spec_first_fit(cands, size) is None,
    decreases cands.len(),
{
    if cands.len() == 0 {
    } else {
        assert(spec_total_free(cands.drop_first()) >= 0) by {
            lemma_total_free_nonneg(cands.drop_first());
        }
        lemma_oversized_request_finds_nothing(cands.drop_first(), size);
    }
}

/// The total free space is never negative.
proof fn lemma_total_free_nonneg(cands: Seq<EmuRsMemoryRange>)
    ensures
        spec_total_free(cands) >= 0,
    decreases cands.len(),
{
    if cands.len() == 0 {
    } else {
        lemma_total_free_nonneg(cands.drop_first());
    }
}

} // verus!
