//! The memory data model and the free-space tracking allocator.
//!
//! `EmuRsMemoryRange` is the inclusive address interval every other piece is
//! built from. The boot environment fills an `EmuRsMemoryTable` with the
//! physical regions the allocator may manage; each live allocation is
//! recorded as an `EmuRsAllocatorSlab` in an `EmuRsSlabTracker`; and
//! `EmuRsAllocator` ties the two together behind `alloc`/`dealloc`
//! entry points that work purely on integer addresses.

use core::ops::RangeInclusive;
use vstd::prelude::*;

verus! {

/// An inclusive `[first, last]` interval of physical addresses.
///
/// This is used instead of `RangeInclusive` because that type is not `Copy`.
#[derive(Debug, Default, Copy, Clone, PartialEq, Eq, Structural)]
pub struct EmuRsMemoryRange {
    pub first: usize,
    pub last: usize,
}

impl EmuRsMemoryRange {
    /// A stored range is well formed when it does not end before it starts.
    pub open spec fn spec_wf(self) -> bool {
        self.first <= self.last
    }

    /// The number of addresses the range covers; non-positive exactly when
    /// the range is malformed.
    pub open spec fn spec_len(self) -> int {
        self.last - self.first + 1
    }

    /// Whether `addr` lies inside the closed interval.
    pub open spec fn spec_contains_addr(self, addr: int) -> bool {
        self.first <= addr <= self.last
    }

    /// Whether `range` lies entirely inside `self`.
    pub open spec fn spec_contains_range(self, range: EmuRsMemoryRange) -> bool {
        range.first >= self.first && range.last <= self.last
    }

    /// Whether the two closed intervals intersect (touching counts).
    pub open spec fn spec_overlaps_range(self, range: EmuRsMemoryRange) -> bool {
        range.first <= self.last && self.first <= range.last
    }

    pub fn new(first: usize, last: usize) -> (r: Self)
        ensures
            r.first == first,
            r.last == last,
    {
        Self { first, last }
    }

    /// Checks if a range is inside or equal to this one.
    pub fn contains_range(&self, range: EmuRsMemoryRange) -> (r: bool)
        ensures
            r == self.spec_contains_range(range),
    {
        range.first >= self.first && range.last <= self.last
    }

    /// Checks if this range is overlapping the other.
    pub fn overlaps_range(&self, range: EmuRsMemoryRange) -> (r: bool)
        ensures
            r == self.spec_overlaps_range(range),
    {
        range.first <= self.last && self.first <= range.last
    }

    /// The interval as the standard inclusive range type.
    pub fn range(&self) -> (r: RangeInclusive<usize>)
        ensures
            r@.start == self.first,
            r@.end == self.last,
            !r@.exhausted,
    {
        RangeInclusive::new(self.first, self.last)
    }

    /// The number of addresses the range covers.
    pub fn length(&self) -> (r: usize)
        requires
            self.spec_wf(),
            self.spec_len() <= usize::MAX,
        ensures
            r == self.spec_len(),
    {
        self.last - self.first + 1
    }
}

/// The largest multiple of `alignment` that is `<= addr`.
pub open spec fn spec_align_down(alignment: int, addr: int) -> int {
    addr - addr % alignment
}

/// The smallest multiple of `alignment` that is `>= addr`.
pub open spec fn spec_align_up(alignment: int, addr: int) -> int {
    if addr % alignment == 0 {
        addr
    } else {
        addr - addr % alignment + alignment
    }
}

/// Rounds `addr` up to the next multiple of `alignment`.
pub fn align_address_upward(alignment: usize, addr: usize) -> (r: usize)
    requires
        alignment >= 1,
        spec_align_up(alignment as int, addr as int) <= usize::MAX,
    ensures
        r == spec_align_up(alignment as int, addr as int),
        r % alignment == 0,
        addr <= r < addr + alignment,
{
    let rem: usize = addr % alignment;
    if rem == 0 {
        addr
    } else {
        proof {
            lemma_mod_le(addr as int, alignment as int);
        }
        (addr - rem) + alignment
    }
}

/// Rounds `addr` down to the previous multiple of `alignment`.
pub fn align_address_downward(alignment: usize, addr: usize) -> (r: usize)
    requires
        alignment >= 1,
    ensures
        r == spec_align_down(alignment as int, addr as int),
        r % alignment == 0,
        addr - alignment < r <= addr,
{
    proof {
        lemma_mod_le(addr as int, alignment as int);
    }
    addr - addr % alignment
}

/// The permissions a memory region carries. Descriptive only: the allocator
/// records them but does not enforce them.
#[derive(Debug, Default, Clone, Copy)]
pub struct EmuRsMemoryPermission {
    pub read: bool,
    pub write: bool,
    pub execute: bool,
}

/// A brief description of what a memory region is for. The core treats every
/// entry as a candidate pool; filtering by kind is the caller's policy.
#[derive(Debug, Default, Clone, Copy)]
pub enum EmuRsMemoryKind {
    #[default]
    Reserved,
    Work,
    KernelStack,
}

/// One region the boot environment declares for the allocator to manage.
#[derive(Debug, Default, Clone, Copy)]
pub struct EmuRsMemoryTableEntry {
    pub permissions: EmuRsMemoryPermission,
    pub range: EmuRsMemoryRange,
    pub kind: EmuRsMemoryKind,
}

/// How many entries the memory table can hold.
pub const MEMORY_TABLE_CAPACITY: usize = 10;

/// The memory table the boot environment must fill before any allocation
/// can occur. Entries, once added, are never removed or reordered.
#[derive(Debug, Default)]
pub struct EmuRsMemoryTable {
    pub entries: Vec<EmuRsMemoryTableEntry>,
}

/// One live allocation: exactly the byte range handed out by one `alloc`.
#[derive(Debug, Default, Clone, Copy)]
pub struct EmuRsAllocatorSlab {
    pub coverage: EmuRsMemoryRange,
}

/// What one allocation request asks for: `size` bytes starting at a multiple
/// of `align`. This states the platform's layout convention as plain values;
/// the unverified boundary converts the platform's own layout type into it.
#[derive(Debug, Clone, Copy, PartialEq, Eq, Structural)]
pub struct EmuRsMemoryLayout {
    pub size: usize,
    pub align: usize,
}

impl EmuRsMemoryLayout {
    /// A request must ask for at least one byte and a positive alignment
    /// (the platform hands the allocator a power of two).
    pub open spec fn spec_wf(self) -> bool {
        self.size >= 1 && self.align >= 1
    }

    pub fn new(size: usize, align: usize) -> (r: Self)
        ensures
            r.size == size,
            r.align == align,
    {
        Self { size, align }
    }
}

/// Every range in the sequence is well formed.
pub open spec fn spec_ranges_wf(rs: Seq<EmuRsMemoryRange>) -> bool {
    forall|i: int| 0 <= i < rs.len() ==> (#[trigger] rs[i]).spec_wf()
}

/// No two ranges in the sequence intersect.
pub open spec fn spec_ranges_disjoint(rs: Seq<EmuRsMemoryRange>) -> bool {
    forall|i: int, j: int|
        0 <= i < rs.len() && 0 <= j < rs.len() && i != j ==> !(#[trigger] rs[i]).spec_overlaps_range(
            #[trigger] rs[j],
        )
}

/// The head fragment one slab leaves of a candidate: the part of the
/// candidate below the slab, with its end rounded down to the alignment.
/// Kept only when the slab's start lies within the candidate and the
/// trimmed head still has positive length.
pub open spec fn spec_head_piece(
    c: EmuRsMemoryRange,
    slab: EmuRsMemoryRange,
    alignment: int,
) -> Seq<EmuRsMemoryRange> {
    let trimmed = spec_align_down(alignment, slab.first - 1);
    if c.spec_contains_addr(slab.first as int) && trimmed >= c.first {
        seq![EmuRsMemoryRange { first: c.first, last: trimmed as usize }]
    } else {
        Seq::empty()
    }
}

/// The tail fragment one slab leaves of a candidate: the part of the
/// candidate above the slab, with its start rounded up to the alignment.
/// Kept only when the slab's end lies within the candidate and the
/// trimmed tail still has positive length.
pub open spec fn spec_tail_piece(
    c: EmuRsMemoryRange,
    slab: EmuRsMemoryRange,
    alignment: int,
) -> Seq<EmuRsMemoryRange> {
    let aligned = spec_align_up(alignment, slab.last + 1);
    if c.spec_contains_addr(slab.last as int) && aligned <= c.last {
        seq![EmuRsMemoryRange { first: aligned as usize, last: c.last }]
    } else {
        Seq::empty()
    }
}

/// What one slab leaves of one candidate: nothing when the slab swallows the
/// candidate, the head and tail fragments when they intersect, and the
/// candidate untouched otherwise.
pub open spec fn spec_refine_one(
    c: EmuRsMemoryRange,
    slab: EmuRsMemoryRange,
    alignment: int,
) -> Seq<EmuRsMemoryRange> {
    if slab.spec_contains_range(c) {
        Seq::empty()
    } else if slab.spec_overlaps_range(c) {
        spec_head_piece(c, slab, alignment) + spec_tail_piece(c, slab, alignment)
    } else {
        seq![c]
    }
}

/// One slab applied to every candidate in the list, keeping order.
pub open spec fn spec_refine_list(
    cs: Seq<EmuRsMemoryRange>,
    slab: EmuRsMemoryRange,
    alignment: int,
) -> Seq<EmuRsMemoryRange>
    decreases cs.len(),
{
    if cs.len() == 0 {
        Seq::empty()
    } else {
        spec_refine_one(cs[0], slab, alignment) + spec_refine_list(cs.drop_first(), slab, alignment)
    }
}

/// Every slab applied in order to a candidate list.
pub open spec fn spec_refine_all(
    cs: Seq<EmuRsMemoryRange>,
    slabs: Seq<EmuRsMemoryRange>,
    alignment: int,
) -> Seq<EmuRsMemoryRange>
    decreases slabs.len(),
{
    if slabs.len() == 0 {
        cs
    } else {
        spec_refine_all(spec_refine_list(cs, slabs[0], alignment), slabs.drop_first(), alignment)
    }
}

/// The resolver's whole output: for each table entry in order, the fragments
/// of its range that survive every slab. Fragments of different entries are
/// never merged.
pub open spec fn spec_free_ranges(
    table: Seq<EmuRsMemoryTableEntry>,
    slabs: Seq<EmuRsMemoryRange>,
    alignment: int,
) -> Seq<EmuRsMemoryRange>
    decreases table.len(),
{
    if table.len() == 0 {
        Seq::empty()
    } else {
        spec_refine_all(seq![table[0].range], slabs, alignment) + spec_free_ranges(
            table.drop_first(),
            slabs,
            alignment,
        )
    }
}

/// A non-negative value's remainder never exceeds the value itself.
proof fn lemma_mod_le(x: int, m: int)
    requires
        x >= 0,
        m >= 1,
    ensures
        0 <= x % m <= x,
        (x - x % m) % m == 0,
        (x - x % m + m) % m == 0,
{
    assert(0 <= x % m <= x) by (nonlinear_arith)
        requires
            x >= 0,
            m >= 1,
    ;
    assert((x - x % m) % m == 0) by (nonlinear_arith)
        requires
            x >= 0,
            m >= 1,
    ;
    assert((x - x % m + m) % m == 0) by (nonlinear_arith)
        requires
            x >= 0,
            m >= 1,
    ;
}

/// Refining a list extended by one candidate refines the list and then the
/// extra candidate.
pub(crate) proof fn lemma_refine_list_push(
    cs: Seq<EmuRsMemoryRange>,
    c: EmuRsMemoryRange,
    slab: EmuRsMemoryRange,
    alignment: int,
)
    ensures
        spec_refine_list(cs.push(c), slab, alignment) == spec_refine_list(cs, slab, alignment)
            + spec_refine_one(c, slab, alignment),
    decreases cs.len(),
{
    let one = spec_refine_one(c, slab, alignment);
    if cs.len() == 0 {
        assert(cs.push(c)[0] == c);
        assert(cs.push(c).drop_first() == Seq::<EmuRsMemoryRange>::empty());
        assert(spec_refine_list(Seq::<EmuRsMemoryRange>::empty(), slab, alignment)
            == Seq::<EmuRsMemoryRange>::empty());
        assert(spec_refine_list(cs.push(c), slab, alignment) == one
            + Seq::<EmuRsMemoryRange>::empty());
        assert(one + Seq::<EmuRsMemoryRange>::empty() == Seq::<EmuRsMemoryRange>::empty() + one);
    } else {
        let head = spec_refine_one(cs[0], slab, alignment);
        let rest = spec_refine_list(cs.drop_first(), slab, alignment);
        assert(cs.push(c)[0] == cs[0]);
        assert(cs.push(c).drop_first() == cs.drop_first().push(c));
        lemma_refine_list_push(cs.drop_first(), c, slab, alignment);
        assert(spec_refine_list(cs.push(c), slab, alignment) == head + (rest + one));
        assert(head + (rest + one) == (head + rest) + one);
    }
}

/// Appending one slab to the sequence refines by the earlier slabs first and
/// by the new slab last.
pub(crate) proof fn lemma_refine_all_push(
    cs: Seq<EmuRsMemoryRange>,
    slabs: Seq<EmuRsMemoryRange>,
    slab: EmuRsMemoryRange,
    alignment: int,
)
    ensures
        spec_refine_all(cs, slabs.push(slab), alignment) == spec_refine_list(
            spec_refine_all(cs, slabs, alignment),
            slab,
            alignment,
        ),
    decreases slabs.len(),
{
    if slabs.len() == 0 {
        assert(slabs.push(slab)[0] == slab);
        assert(slabs.push(slab).drop_first() == Seq::<EmuRsMemoryRange>::empty());
        assert(spec_refine_all(
            spec_refine_list(cs, slab, alignment),
            Seq::<EmuRsMemoryRange>::empty(),
            alignment,
        ) == spec_refine_list(cs, slab, alignment));
        assert(spec_refine_all(cs, Seq::<EmuRsMemoryRange>::empty(), alignment) == cs);
    } else {
        assert(slabs.push(slab)[0] == slabs[0]);
        assert(slabs.push(slab).drop_first() == slabs.drop_first().push(slab));
        lemma_refine_all_push(
            spec_refine_list(cs, slabs[0], alignment),
            slabs.drop_first(),
            slab,
            alignment,
        );
    }
}

/// Appending one entry to the table appends that entry's surviving
/// fragments to the resolver's output.
pub(crate) proof fn lemma_free_ranges_push(
    table: Seq<EmuRsMemoryTableEntry>,
    entry: EmuRsMemoryTableEntry,
    slabs: Seq<EmuRsMemoryRange>,
    alignment: int,
)
    ensures
        spec_free_ranges(table.push(entry), slabs, alignment) == spec_free_ranges(
            table,
            slabs,
            alignment,
        ) + spec_refine_all(seq![entry.range], slabs, alignment),
    decreases table.len(),
{
    let fresh = spec_refine_all(seq![entry.range], slabs, alignment);
    if table.len() == 0 {
        assert(table.push(entry)[0] == entry);
        assert(table.push(entry).drop_first() == Seq::<EmuRsMemoryTableEntry>::empty());
        assert(spec_free_ranges(Seq::<EmuRsMemoryTableEntry>::empty(), slabs, alignment)
            == Seq::<EmuRsMemoryRange>::empty());
        assert(spec_free_ranges(table.push(entry), slabs, alignment) == fresh
            + Seq::<EmuRsMemoryRange>::empty());
        assert(fresh + Seq::<EmuRsMemoryRange>::empty() == Seq::<EmuRsMemoryRange>::empty()
            + fresh);
    } else {
        let head = spec_refine_all(seq![table[0].range], slabs, alignment);
        let rest = spec_free_ranges(table.drop_first(), slabs, alignment);
        assert(table.push(entry)[0] == table[0]);
        assert(table.push(entry).drop_first() == table.drop_first().push(entry));
        lemma_free_ranges_push(table.drop_first(), entry, slabs, alignment);
        assert(spec_free_ranges(table.push(entry), slabs, alignment) == head + (rest + fresh));
        assert(head + (rest + fresh) == (head + rest) + fresh);
    }
}

/// The index of the first slab coverage starting at `addr`, or `-1`.
pub open spec fn spec_find_start(slabs: Seq<EmuRsMemoryRange>, addr: int) -> int
    decreases slabs.len(),
{
    if slabs.len() == 0 {
        -1
    } else if slabs[0].first == addr {
        0
    } else if spec_find_start(slabs.drop_first(), addr) < 0 {
        -1
    } else {
        spec_find_start(slabs.drop_first(), addr) + 1
    }
}

/// What `spec_find_start` finds is the first match; a negative answer means
/// there is none.
pub(crate) proof fn lemma_find_start_props(slabs: Seq<EmuRsMemoryRange>, addr: int)
    ensures
        spec_find_start(slabs, addr) >= 0 ==> {
            let found = spec_find_start(slabs, addr);
            &&& found < slabs.len()
            &&& slabs[found].first == addr
            &&& forall|k: int| 0 <= k < found ==> (#[trigger] slabs[k]).first != addr
        },
        spec_find_start(slabs, addr) < 0 ==> spec_find_start(slabs, addr) == -1 && forall|k: int|
            0 <= k < slabs.len() ==> (#[trigger] slabs[k]).first != addr,
    decreases slabs.len(),
{
    if slabs.len() == 0 {
    } else if slabs[0].first == addr {
    } else {
        lemma_find_start_props(slabs.drop_first(), addr);
        assert forall|k: int| 1 <= k < slabs.len() implies slabs[k] == slabs.drop_first()[k - 1] by {}
    }
}

/// The tracker contents after one free of `addr`: the first slab starting at
/// `addr` leaves; nothing changes when no slab starts there. This is exactly
/// what `dealloc` does to the live slabs.
pub open spec fn spec_remove_start(slabs: Seq<EmuRsMemoryRange>, addr: int) -> Seq<
    EmuRsMemoryRange,
> {
    if spec_find_start(slabs, addr) >= 0 {
        slabs.remove(spec_find_start(slabs, addr))
    } else {
        slabs
    }
}

/// The candidate truncated to the requested size.
pub open spec fn spec_truncated(c: EmuRsMemoryRange, size: int) -> EmuRsMemoryRange {
    EmuRsMemoryRange { first: c.first, last: (c.first + size - 1) as usize }
}

/// First-fit: the first candidate at least `size` long, truncated to `size`.
pub open spec fn spec_first_fit(cands: Seq<EmuRsMemoryRange>, size: int) -> Option<
    EmuRsMemoryRange,
>
    decreases cands.len(),
{
    if cands.len() == 0 {
        Option::None
    } else if cands[0].spec_len() >= size {
        Option::Some(spec_truncated(cands[0], size))
    } else {
        spec_first_fit(cands.drop_first(), size)
    }
}

/// A first-fit answer is the truncation of some sufficiently long candidate;
/// no answer means no candidate is long enough.
pub(crate) proof fn lemma_first_fit_props(cands: Seq<EmuRsMemoryRange>, size: int)
    requires
        size >= 1,
    ensures
        spec_first_fit(cands, size) matches Option::Some(b) ==> exists|m: int|
            0 <= m < cands.len() && (#[trigger] cands[m]).spec_len() >= size && b == spec_truncated(
                cands[m],
                size,
            ) && cands[m].spec_contains_range(b) && b.spec_wf(),
        spec_first_fit(cands, size) is None ==> forall|m: int|
            0 <= m < cands.len() ==> (#[trigger] cands[m]).spec_len() < size,
    decreases cands.len(),
{
    if cands.len() == 0 {
    } else if cands[0].spec_len() >= size {
        let b = spec_truncated(cands[0], size);
        assert(cands[0].first + size - 1 <= cands[0].last);
        assert(0 <= cands[0].first + size - 1 <= usize::MAX);
        assert(cands[0].spec_contains_range(b) && b.spec_wf());
    } else {
        lemma_first_fit_props(cands.drop_first(), size);
        match spec_first_fit(cands, size) {
            Option::Some(b) => {
                let m0 = choose|m: int|
                    0 <= m < cands.drop_first().len() && (#[trigger] cands.drop_first()[m]).spec_len()
                        >= size && b == spec_truncated(cands.drop_first()[m], size)
                        && cands.drop_first()[m].spec_contains_range(b) && b.spec_wf();
                assert(cands[m0 + 1] == cands.drop_first()[m0]);
                assert(cands[m0 + 1].spec_len() >= size);
            },
            Option::None => {
                assert forall|m: int| 0 <= m < cands.len() implies (
                #[trigger] cands[m]).spec_len() < size by {
                    if m > 0 {
                        assert(cands[m] == cands.drop_first()[m - 1]);
                    }
                }
            },
        }
    }
}

/// Rounding down never increases, rounding up never decreases, and neither
/// moves an address by a whole alignment step.
pub(crate) proof fn lemma_align_bounds(alignment: int, addr: int)
    requires
        alignment >= 1,
    ensures
        addr - alignment < spec_align_down(alignment, addr) <= addr,
        addr <= spec_align_up(alignment, addr) < addr + alignment,
        spec_align_down(alignment, addr) % alignment == 0,
        spec_align_up(alignment, addr) % alignment == 0,
{
    assert(0 <= addr % alignment < alignment) by (nonlinear_arith)
        requires
            alignment >= 1,
    ;
    assert((addr - addr % alignment) % alignment == 0) by (nonlinear_arith)
        requires
            alignment >= 1,
    ;
    assert((addr - addr % alignment + alignment) % alignment == 0) by (nonlinear_arith)
        requires
            alignment >= 1,
    ;
}

/// A fragment that lies inside one of the candidates in `cs` and misses
/// every range in `slabs`.
pub(crate) open spec fn spec_fragment_ok(
    cs: Seq<EmuRsMemoryRange>,
    slabs: Seq<EmuRsMemoryRange>,
    r: EmuRsMemoryRange,
) -> bool {
    &&& exists|m: int| 0 <= m < cs.len() && (#[trigger] cs[m]).spec_contains_range(r)
    &&& forall|s: int| 0 <= s < slabs.len() ==> !(#[trigger] slabs[s]).spec_overlaps_range(r)
}

/// Every fragment one slab leaves of a candidate stays inside the candidate
/// and misses the slab.
proof fn lemma_refine_one_pieces(c: EmuRsMemoryRange, slab: EmuRsMemoryRange, alignment: int)
    requires
        alignment >= 1,
    ensures
        forall|k: int|
            0 <= k < spec_refine_one(c, slab, alignment).len() ==> c.spec_contains_range(
                #[trigger] spec_refine_one(c, slab, alignment)[k],
            ) && !slab.spec_overlaps_range(spec_refine_one(c, slab, alignment)[k]),
{
    lemma_align_bounds(alignment, slab.first - 1);
    lemma_align_bounds(alignment, slab.last + 1);
}

/// Every fragment the list refinement produces lies inside one of the
/// candidates it started from, and misses the slab.
pub(crate) proof fn lemma_refine_list_pieces(cs: Seq<EmuRsMemoryRange>, slab: EmuRsMemoryRange, alignment: int)
    requires
        alignment >= 1,
    ensures
        forall|k: int|
            0 <= k < spec_refine_list(cs, slab, alignment).len() ==> spec_fragment_ok(
                cs,
                seq![slab],
                #[trigger] spec_refine_list(cs, slab, alignment)[k],
            ),
    decreases cs.len(),
{
    if cs.len() == 0 {
    } else {
        let head = spec_refine_one(cs[0], slab, alignment);
        let rest = spec_refine_list(cs.drop_first(), slab, alignment);
        lemma_refine_one_pieces(cs[0], slab, alignment);
        lemma_refine_list_pieces(cs.drop_first(), slab, alignment);
        assert forall|k: int|
            0 <= k < spec_refine_list(cs, slab, alignment).len() implies spec_fragment_ok(
            cs,
            seq![slab],
            spec_refine_list(cs, slab, alignment)[k],
        ) by {
            let r = spec_refine_list(cs, slab, alignment)[k];
            if k < head.len() {
                assert(r == head[k]);
                assert(cs[0].spec_contains_range(r) && !slab.spec_overlaps_range(r));
            } else {
                assert(r == rest[k - head.len()]);
                assert(spec_fragment_ok(cs.drop_first(), seq![slab], r));
                let m0 = choose|m: int|
                    0 <= m < cs.drop_first().len() && (#[trigger] cs.drop_first()[m]).spec_contains_range(
                        r,
                    );
                assert(cs[m0 + 1] == cs.drop_first()[m0]);
                assert(cs[m0 + 1].spec_contains_range(r));
            }
        }
    }
}

/// Every fragment the full refinement produces lies inside one of the
/// starting candidates and misses every slab that was applied.
pub(crate) proof fn lemma_refine_all_pieces(
    cs: Seq<EmuRsMemoryRange>,
    slabs: Seq<EmuRsMemoryRange>,
    alignment: int,
)
    requires
        alignment >= 1,
    ensures
        forall|k: int|
            0 <= k < spec_refine_all(cs, slabs, alignment).len() ==> spec_fragment_ok(
                cs,
                slabs,
                #[trigger] spec_refine_all(cs, slabs, alignment)[k],
            ),
    decreases slabs.len(),
{
    if slabs.len() == 0 {
        assert forall|k: int| 0 <= k < cs.len() implies spec_fragment_ok(
            cs,
            slabs,
            spec_refine_all(cs, slabs, alignment)[k],
        ) by {
            assert(cs[k].spec_contains_range(spec_refine_all(cs, slabs, alignment)[k]));
        }
    } else {
        let mid = spec_refine_list(cs, slabs[0], alignment);
        let out = spec_refine_all(cs, slabs, alignment);
        lemma_refine_list_pieces(cs, slabs[0], alignment);
        lemma_refine_all_pieces(mid, slabs.drop_first(), alignment);
        assert(out == spec_refine_all(mid, slabs.drop_first(), alignment));
        assert forall|k: int| 0 <= k < out.len() implies spec_fragment_ok(cs, slabs, out[k]) by {
            let r = out[k];
            assert(r == spec_refine_all(mid, slabs.drop_first(), alignment)[k]);
            assert(spec_fragment_ok(mid, slabs.drop_first(), r));
            let m1 = choose|m: int|
                0 <= m < mid.len() && (#[trigger] mid[m]).spec_contains_range(r);
            assert(spec_fragment_ok(cs, seq![slabs[0]], mid[m1]));
            let m2 = choose|m: int|
                0 <= m < cs.len() && (#[trigger] cs[m]).spec_contains_range(mid[m1]);
            assert(cs[m2].spec_contains_range(r));
            assert(seq![slabs[0]][0] == slabs[0]);
            assert(!slabs[0].spec_overlaps_range(mid[m1]));
            assert forall|s: int| 0 <= s < slabs.len() implies !(
            #[trigger] slabs[s]).spec_overlaps_range(r) by {
                if s == 0 {
                    assert(!slabs[0].spec_overlaps_range(r));
                } else {
                    assert(slabs.drop_first()[s - 1] == slabs[s]);
                }
            }
        }
    }
}

/// Every range the resolver reports misses every live slab.
pub(crate) proof fn lemma_free_ranges_pieces(
    table: Seq<EmuRsMemoryTableEntry>,
    slabs: Seq<EmuRsMemoryRange>,
    alignment: int,
)
    requires
        alignment >= 1,
    ensures
        forall|k: int, s: int|
            #![trigger slabs[s].spec_overlaps_range(spec_free_ranges(table, slabs, alignment)[k])]
            0 <= k < spec_free_ranges(table, slabs, alignment).len() && 0 <= s < slabs.len()
                ==> !slabs[s].spec_overlaps_range(spec_free_ranges(table, slabs, alignment)[k]),
    decreases table.len(),
{
    if table.len() == 0 {
    } else {
        let head = spec_refine_all(seq![table[0].range], slabs, alignment);
        let rest = spec_free_ranges(table.drop_first(), slabs, alignment);
        lemma_refine_all_pieces(seq![table[0].range], slabs, alignment);
        lemma_free_ranges_pieces(table.drop_first(), slabs, alignment);
        assert forall|k: int, s: int|
            #![trigger slabs[s].spec_overlaps_range(spec_free_ranges(table, slabs, alignment)[k])]
            0 <= k < spec_free_ranges(table, slabs, alignment).len() && 0 <= s
                < slabs.len() implies !slabs[s].spec_overlaps_range(
            spec_free_ranges(table, slabs, alignment)[k],
        ) by {
            let r = spec_free_ranges(table, slabs, alignment)[k];
            if k < head.len() {
                assert(r == head[k]);
                assert(spec_fragment_ok(seq![table[0].range], slabs, r));
            } else {
                assert(r == rest[k - head.len()]);
            }
        }
    }
}

/// Appends to `out` what `slab` leaves of the candidate `c`.
fn refine_candidate(
    c: EmuRsMemoryRange,
    slab: EmuRsMemoryRange,
    alignment: usize,
    out: &mut Vec<EmuRsMemoryRange>,
)
    requires
        alignment >= 1,
    ensures
        final(out)@ == old(out)@ + spec_refine_one(c, slab, alignment as int),
{
    let ghost a = alignment as int;
    if slab.contains_range(c) {
        // The candidate is completely covered, so it is dropped.
        assert(old(out)@ + spec_refine_one(c, slab, a) =~= old(out)@);
    } else if slab.overlaps_range(c) {
        let ghost mid = out@;
        // Free memory at the start of the candidate.
        if slab.first > c.first && slab.first <= c.last {
            let trimmed = align_address_downward(alignment, slab.first - 1);
            if trimmed >= c.first {
                out.push(EmuRsMemoryRange::new(c.first, trimmed));
            }
        }
        proof {
            assert(out@ =~= mid + spec_head_piece(c, slab, a));
        }
        let ghost with_head = out@;
        // Free memory at the end of the candidate.
        if slab.last >= c.first && slab.last < c.last {
            let base = slab.last + 1;
            let rem = base % alignment;
            if rem == 0 {
                out.push(EmuRsMemoryRange::new(base, c.last));
            } else if c.last - base >= alignment - rem {
                out.push(EmuRsMemoryRange::new(base + (alignment - rem), c.last));
            }
        }
        proof {
            assert(out@ =~= with_head + spec_tail_piece(c, slab, a));
            assert(out@ =~= old(out)@ + spec_refine_one(c, slab, a));
        }
    } else {
        out.push(c);
        assert(out@ =~= old(out)@ + spec_refine_one(c, slab, a));
    }
}

/// The live-allocation tracker: one slab per outstanding allocation, at most
/// `capacity` of them, with coverages that never overlap.
#[derive(Debug)]
pub struct EmuRsSlabTracker {
    slabs: Vec<EmuRsAllocatorSlab>,
    capacity: usize,
}

impl EmuRsSlabTracker {
    /// The coverage ranges of the live slabs, oldest first.
    pub closed spec fn spec_coverages(self) -> Seq<EmuRsMemoryRange> {
        self.slabs@.map_values(|s: EmuRsAllocatorSlab| s.coverage)
    }

    /// How many slabs the tracker accepts before reporting exhaustion.
    pub closed spec fn spec_capacity(self) -> int {
        self.capacity as int
    }

    /// The tracker's invariant: within capacity, every coverage well formed,
    /// and no two coverages overlapping.
    pub open spec fn spec_wf(self) -> bool {
        &&& self.spec_coverages().len() <= self.spec_capacity()
        &&& spec_ranges_wf(self.spec_coverages())
        &&& spec_ranges_disjoint(self.spec_coverages())
    }

    /// An empty tracker with room for `capacity` slabs.
    pub fn new(capacity: usize) -> (r: Self)
        ensures
            r.spec_coverages() == Seq::<EmuRsMemoryRange>::empty(),
            r.spec_capacity() == capacity,
            r.spec_wf(),
    {
        let r = Self { slabs: Vec::new(), capacity };
        proof {
            assert(r.spec_coverages() =~= Seq::<EmuRsMemoryRange>::empty());
        }
        r
    }

    /// How many slabs are live.
    pub fn len(&self) -> (r: usize)
        ensures
            r == self.spec_coverages().len(),
    {
        self.slabs.len()
    }

    /// Records one more live slab, or reports that the tracker is full.
    /// The caller vouches that the new coverage misses every live slab; the
    /// allocator derives that from the resolver's output.
    pub fn insert(&mut self, slab: EmuRsAllocatorSlab) -> (r: Result<
        (),
        crate::error::EmuRsAllocatorFault,
    >)
        requires
            old(self).spec_wf(),
            slab.coverage.spec_wf(),
            forall|s: int|
                0 <= s < old(self).spec_coverages().len() ==> !(#[trigger] old(
                    self,
                ).spec_coverages()[s]).spec_overlaps_range(slab.coverage),
        ensures
            final(self).spec_wf(),
            final(self).spec_capacity() == old(self).spec_capacity(),
            match r {
                Result::Ok(()) => old(self).spec_coverages().len() < old(self).spec_capacity()
                    && final(self).spec_coverages() == old(self).spec_coverages().push(
                    slab.coverage,
                ),
                Result::Err(fault) => fault
                    == crate::error::EmuRsAllocatorFault::SlabCapacityExceeded && old(
                    self,
                ).spec_coverages().len() >= old(self).spec_capacity() && *final(self) == *old(self),
            },
    {
        if self.slabs.len() < self.capacity {
            self.slabs.push(slab);
            proof {
                assert(self.spec_coverages() =~= old(self).spec_coverages().push(slab.coverage));
                let extended = old(self).spec_coverages().push(slab.coverage);
                assert forall|p: int| 0 <= p < extended.len() implies (
                #[trigger] extended[p]).spec_wf() by {
                    if p < old(self).spec_coverages().len() {
                        assert(extended[p] == old(self).spec_coverages()[p]);
                    }
                }
                assert forall|p: int, q: int|
                    0 <= p < extended.len() && 0 <= q < extended.len() && p != q implies !(
                #[trigger] extended[p]).spec_overlaps_range(#[trigger] extended[q]) by {
                    let n = old(self).spec_coverages().len();
                    if p < n && q < n {
                        assert(extended[p] == old(self).spec_coverages()[p]);
                        assert(extended[q] == old(self).spec_coverages()[q]);
                    } else if p < n {
                        assert(!old(self).spec_coverages()[p].spec_overlaps_range(slab.coverage));
                    } else {
                        assert(!old(self).spec_coverages()[q].spec_overlaps_range(slab.coverage));
                    }
                }
            }
            Result::Ok(())
        } else {
            Result::Err(crate::error::EmuRsAllocatorFault::SlabCapacityExceeded)
        }
    }

    /// Removes the first slab whose coverage starts at `addr`, or reports an
    /// invalid free if no live slab starts there.
    pub fn remove_starting_at(&mut self, addr: usize) -> (r: Result<
        (),
        crate::error::EmuRsAllocatorFault,
    >)
        requires
            old(self).spec_wf(),
        ensures
            final(self).spec_wf(),
            final(self).spec_capacity() == old(self).spec_capacity(),
            match r {
                Result::Ok(()) => spec_find_start(old(self).spec_coverages(), addr as int) >= 0
                    && final(self).spec_coverages() == old(self).spec_coverages().remove(
                    spec_find_start(old(self).spec_coverages(), addr as int),
                ),
                Result::Err(fault) => fault == crate::error::EmuRsAllocatorFault::InvalidFree
                    && spec_find_start(old(self).spec_coverages(), addr as int) == -1
                    && *final(self) == *old(self),
            },
    {
        let ghost coverages = self.spec_coverages();
        let mut i: usize = 0;
        while i < self.slabs.len()
            invariant
                old(self).spec_wf(),
                i <= coverages.len(),
                coverages == self.spec_coverages(),
                *self == *old(self),
                forall|k: int| 0 <= k < i ==> (#[trigger] coverages[k]).first != addr,
            decreases coverages.len() - i,
        {
            if self.slabs[i].coverage.first == addr {
                proof {
                    lemma_find_start_props(coverages, addr as int);
                    assert(coverages[i as int].first == addr);
                    assert(spec_find_start(coverages, addr as int) == i);
                }
                self.slabs.remove(i);
                proof {
                    assert(self.spec_coverages() =~= coverages.remove(i as int));
                    let at = i as int;
                    let after = coverages.remove(at);
                    assert forall|p: int| 0 <= p < after.len() implies (
                    #[trigger] after[p]).spec_wf() by {
                        if p < at {
                            assert(after[p] == coverages[p]);
                        } else {
                            assert(after[p] == coverages[p + 1]);
                        }
                    }
                    assert forall|p: int, q: int|
                        0 <= p < after.len() && 0 <= q < after.len() && p != q implies !(
                    #[trigger] after[p]).spec_overlaps_range(#[trigger] after[q]) by {
                        let p0: int = if p < at {
                            p
                        } else {
                            p + 1
                        };
                        let q0: int = if q < at {
                            q
                        } else {
                            q + 1
                        };
                        assert(after[p] == coverages[p0]);
                        assert(after[q] == coverages[q0]);
                        assert(!coverages[p0].spec_overlaps_range(coverages[q0]));
                    }
                }
                return Result::Ok(());
            }
            i += 1;
        }
        proof {
            lemma_find_start_props(coverages, addr as int);
        }
        Result::Err(crate::error::EmuRsAllocatorFault::InvalidFree)
    }
}

/// The free-space tracking allocator: one memory table and one slab tracker.
///
/// The two are always read and written together, so callers that share an
/// allocator must serialize every call through one mutual-exclusion
/// primitive; the unverified boundary that installs this type as the
/// process-wide allocation hook wraps it in a single spin lock and never
/// re-enters it from the same execution context.
#[derive(Debug)]
pub struct EmuRsAllocator {
    memory_table: EmuRsMemoryTable,
    slabs: EmuRsSlabTracker,
}

impl EmuRsAllocator {
    /// The memory table's entries, in the order the boot environment
    /// supplied them.
    pub closed spec fn spec_table(self) -> Seq<EmuRsMemoryTableEntry> {
        self.memory_table.entries@
    }

    /// The coverage ranges of the live slabs, oldest first.
    pub closed spec fn spec_slabs(self) -> Seq<EmuRsMemoryRange> {
        self.slabs.spec_coverages()
    }

    /// How many live slabs the allocator can track.
    pub closed spec fn spec_slab_capacity(self) -> int {
        self.slabs.spec_capacity()
    }

    /// The allocator's invariant: both collections within their capacities,
    /// every stored range well formed, and no two live slabs overlapping.
    pub open spec fn spec_wf(self) -> bool {
        &&& self.spec_table().len() <= MEMORY_TABLE_CAPACITY
        &&& forall|i: int|
            0 <= i < self.spec_table().len() ==> (#[trigger] self.spec_table()[i]).range.spec_wf()
        &&& self.spec_slabs().len() <= self.spec_slab_capacity()
        &&& spec_ranges_wf(self.spec_slabs())
        &&& spec_ranges_disjoint(self.spec_slabs())
    }

    /// An unconfigured allocator: empty table, no live slabs, room for
    /// `slab_capacity` of them.
    pub fn new(slab_capacity: usize) -> (r: Self)
        ensures
            r.spec_wf(),
            r.spec_table() == Seq::<EmuRsMemoryTableEntry>::empty(),
            r.spec_slabs() == Seq::<EmuRsMemoryRange>::empty(),
            r.spec_slab_capacity() == slab_capacity,
    {
        Self { memory_table: EmuRsMemoryTable { entries: Vec::new() }, slabs: EmuRsSlabTracker::new(
            slab_capacity,
        ) }
    }

    /// Indicate where more memory might be. To be called by the boot
    /// environment only, before the first allocation.
    pub fn add_memory_table_entries(&mut self, entries: &[EmuRsMemoryTableEntry])
        requires
            old(self).spec_wf(),
            old(self).spec_table().len() + entries@.len() <= MEMORY_TABLE_CAPACITY,
            forall|i: int| 0 <= i < entries@.len() ==> (#[trigger] entries@[i]).range.spec_wf(),
        ensures
            final(self).spec_wf(),
            final(self).spec_table() == old(self).spec_table() + entries@,
            final(self).spec_slabs() == old(self).spec_slabs(),
            final(self).spec_slab_capacity() == old(self).spec_slab_capacity(),
    {
        self.memory_table.entries.extend_from_slice(entries);
    }

    /// Get the ranges of free memory according to the memory table and the
    /// live slabs: for each table entry in order, the fragments of its range
    /// that survive every slab, trimmed to `alignment` where a slab was cut
    /// away. Fragments are never merged, not even adjacent ones.
    pub fn get_free_memory_ranges(&self, alignment: usize) -> (r: Vec<EmuRsMemoryRange>)
        requires
            alignment >= 1,
        ensures
            r@ == spec_free_ranges(self.spec_table(), self.spec_slabs(), alignment as int),
    {
        let ghost table = self.spec_table();
        let ghost all_slabs = self.spec_slabs();
        let ghost a = alignment as int;
        let mut result: Vec<EmuRsMemoryRange> = Vec::new();
        proof {
            assert(table.take(0) =~= Seq::<EmuRsMemoryTableEntry>::empty());
        }
        let mut i: usize = 0;
        while i < self.memory_table.entries.len()
            invariant
                alignment >= 1,
                a == alignment as int,
                table == self.spec_table(),
                all_slabs == self.spec_slabs(),
                i <= table.len(),
                result@ == spec_free_ranges(table.take(i as int), all_slabs, a),
            decreases table.len() - i,
        {
            let entry = self.memory_table.entries[i];
            let mut cands: Vec<EmuRsMemoryRange> = Vec::new();
            cands.push(entry.range);
            proof {
                assert(all_slabs.take(0) =~= Seq::<EmuRsMemoryRange>::empty());
                assert(cands@ =~= seq![entry.range]);
            }
            let mut j: usize = 0;
            while j < self.slabs.slabs.len()
                invariant
                    alignment >= 1,
                    a == alignment as int,
                    all_slabs == self.spec_slabs(),
                    j <= all_slabs.len(),
                    entry == self.spec_table()[i as int],
                    cands@ == spec_refine_all(seq![entry.range], all_slabs.take(j as int), a),
                decreases all_slabs.len() - j,
            {
                let slab = self.slabs.slabs[j].coverage;
                proof {
                    assert(all_slabs[j as int] == slab);
                }
                let mut refined: Vec<EmuRsMemoryRange> = Vec::new();
                proof {
                    assert(cands@.take(0) =~= Seq::<EmuRsMemoryRange>::empty());
                }
                let mut k: usize = 0;
                while k < cands.len()
                    invariant
                        alignment >= 1,
                        a == alignment as int,
                        k <= cands@.len(),
                        refined@ == spec_refine_list(cands@.take(k as int), slab, a),
                    decreases cands@.len() - k,
                {
                    let c = cands[k];
                    refine_candidate(c, slab, alignment, &mut refined);
                    proof {
                        lemma_refine_list_push(cands@.take(k as int), c, slab, a);
                        assert(cands@.take(k + 1) =~= cands@.take(k as int).push(c));
                    }
                    k += 1;
                }
                proof {
                    assert(cands@.take(cands@.len() as int) =~= cands@);
                    lemma_refine_all_push(seq![entry.range], all_slabs.take(j as int), slab, a);
                    assert(all_slabs.take(j + 1) =~= all_slabs.take(j as int).push(slab));
                }
                cands = refined;
                j += 1;
            }
            proof {
                assert(all_slabs.take(all_slabs.len() as int) =~= all_slabs);
                lemma_free_ranges_push(table.take(i as int), entry, all_slabs, a);
                assert(table.take(i + 1) =~= table.take(i as int).push(entry));
            }
            result.append(&mut cands);
            i += 1;
        }
        proof {
            assert(table.take(table.len() as int) =~= table);
        }
        result
    }

    /// Get the first free block that satisfies the layout: the resolver's
    /// output is scanned in order and the first candidate at least
    /// `layout.size` long is returned, truncated to exactly that size.
    /// `None` means no candidate fits.
    pub fn get_free_memory_block(&self, layout: EmuRsMemoryLayout) -> (r: Option<EmuRsMemoryRange>)
        requires
            layout.spec_wf(),
        ensures
            r == spec_first_fit(
                spec_free_ranges(self.spec_table(), self.spec_slabs(), layout.align as int),
                layout.size as int,
            ),
    {
        let ranges = self.get_free_memory_ranges(layout.align);
        let ghost size = layout.size as int;
        proof {
            assert(ranges@.skip(0) =~= ranges@);
        }
        let mut i: usize = 0;
        while i < ranges.len()
            invariant
                layout.spec_wf(),
                size == layout.size as int,
                i <= ranges@.len(),
                ranges@ == spec_free_ranges(self.spec_table(), self.spec_slabs(), layout.align as int),
                spec_first_fit(ranges@, size) == spec_first_fit(ranges@.skip(i as int), size),
            decreases ranges@.len() - i,
        {
            let block = ranges[i];
            proof {
                assert(ranges@.skip(i as int)[0] == block);
                assert(ranges@.skip(i as int).drop_first() =~= ranges@.skip(i + 1));
            }
            if block.last >= block.first && block.last - block.first >= layout.size - 1 {
                proof {
                    assert(block.spec_len() >= size);
                    assert(spec_first_fit(ranges@.skip(i as int), size) == Option::Some(
                        spec_truncated(block, size),
                    ));
                    assert(0 <= block.first + size - 1 <= block.last);
                    assert(spec_truncated(block, size).last == block.first + size - 1);
                }
                return Option::Some(EmuRsMemoryRange::new(block.first, block.first + (layout.size - 1)));
            }
            i += 1;
        }
        proof {
            assert(ranges@.skip(ranges@.len() as int) =~= Seq::<EmuRsMemoryRange>::empty());
        }
        Option::None
    }

    /// Carves a block out of the free space and records it as a live slab.
    /// Returns the block's starting address, or the fault that stopped the
    /// allocation; on a fault nothing changes. The caller aborts on a fault:
    /// with no fallback heap a failed allocation cannot be handled.
    pub fn allocate(&mut self, layout: EmuRsMemoryLayout) -> (r: Result<
        usize,
        crate::error::EmuRsAllocatorFault,
    >)
        requires
            old(self).spec_wf(),
            layout.spec_wf(),
        ensures
            final(self).spec_wf(),
            final(self).spec_table() == old(self).spec_table(),
            final(self).spec_slab_capacity() == old(self).spec_slab_capacity(),
            ({
                let fit = spec_first_fit(
                    spec_free_ranges(
                        old(self).spec_table(),
                        old(self).spec_slabs(),
                        layout.align as int,
                    ),
                    layout.size as int,
                );
                match r {
                    Result::Ok(addr) => old(self).spec_table().len() > 0 && (fit matches Option::Some(block)
                        && addr == block.first && old(self).spec_slabs().len() < old(
                        self,
                    ).spec_slab_capacity() && final(self).spec_slabs() == old(
                        self,
                    ).spec_slabs().push(block)),
                    Result::Err(fault) => final(self).spec_slabs() == old(self).spec_slabs() && match fault {
                        crate::error::EmuRsAllocatorFault::Uninitialized => old(
                            self,
                        ).spec_table().len() == 0,
                        crate::error::EmuRsAllocatorFault::OutOfMemory => old(
                            self,
                        ).spec_table().len() > 0 && fit is None,
                        crate::error::EmuRsAllocatorFault::SlabCapacityExceeded => old(
                            self,
                        ).spec_table().len() > 0 && fit is Some && old(self).spec_slabs().len()
                            >= old(self).spec_slab_capacity(),
                        crate::error::EmuRsAllocatorFault::InvalidFree => false,
                    },
                }
            }),
    {
        // Make sure we have a memory table.
        if self.memory_table.entries.len() == 0 {
            return Result::Err(crate::error::EmuRsAllocatorFault::Uninitialized);
        }
        let ghost cands = spec_free_ranges(
            old(self).spec_table(),
            old(self).spec_slabs(),
            layout.align as int,
        );
        let free_mem = self.get_free_memory_block(layout);
        match free_mem {
            Option::None => Result::Err(crate::error::EmuRsAllocatorFault::OutOfMemory),
            Option::Some(block) => {
                proof {
                    lemma_first_fit_props(cands, layout.size as int);
                    lemma_free_ranges_pieces(
                        old(self).spec_table(),
                        old(self).spec_slabs(),
                        layout.align as int,
                    );
                    let m = choose|m: int|
                        0 <= m < cands.len() && (#[trigger] cands[m]).spec_len()
                            >= layout.size as int && block == spec_truncated(
                            cands[m],
                            layout.size as int,
                        ) && cands[m].spec_contains_range(block) && block.spec_wf();
                    assert forall|s: int| 0 <= s < old(self).spec_slabs().len() implies !(
                    #[trigger] old(self).spec_slabs()[s]).spec_overlaps_range(block) by {
                        assert(!old(self).spec_slabs()[s].spec_overlaps_range(cands[m]));
                    }
                }
                match self.slabs.insert(EmuRsAllocatorSlab { coverage: block }) {
                    Result::Ok(()) => Result::Ok(block.first),
                    Result::Err(fault) => Result::Err(fault),
                }
            },
        }
    }

    /// Releases the slab whose coverage starts at `addr`. An address that
    /// starts no live slab is a foreign pointer or a double free: the
    /// tracker is left unchanged and the fault is reported, for the caller
    /// to abort on.
    pub fn dealloc(&mut self, addr: usize) -> (r: Result<(), crate::error::EmuRsAllocatorFault>)
        requires
            old(self).spec_wf(),
        ensures
            final(self).spec_wf(),
            final(self).spec_table() == old(self).spec_table(),
            final(self).spec_slab_capacity() == old(self).spec_slab_capacity(),
            final(self).spec_slabs() == spec_remove_start(old(self).spec_slabs(), addr as int),
            match r {
                Result::Ok(()) => spec_find_start(old(self).spec_slabs(), addr as int) >= 0 && final(self).spec_slabs() == old(self).spec_slabs().remove(
                    spec_find_start(old(self).spec_slabs(), addr as int),
                ),
                Result::Err(fault) => fault == crate::error::EmuRsAllocatorFault::InvalidFree
                    && spec_find_start(old(self).spec_slabs(), addr as int) == -1 && final(self).spec_slabs() == old(self).spec_slabs(),
            },
    {
        self.slabs.remove_starting_at(addr)
    }
}

} // verus!
