use vstd::prelude::*;

verus! {

/// The number of workers the parallel accumulator splits an interval across.
pub const THREADS_COUNT: u32 = 32;

/// One worker's share of an interval divided into `parts` equal pieces,
/// given by the indices of its two boundaries. Boundary `j` stands for
/// `lower + j * (upper - lower) / parts`, computed from the index alone, so
/// that neighbouring workers compute a shared boundary from the same index.
#[derive(Debug, Clone, Copy, PartialEq, Eq, Structural)]
pub struct SubInterval {
    pub start: u32,
    pub end: u32,
}

/// The sub-interval of worker `k`: from boundary `k` to boundary `k + 1`.
pub open spec fn sub_interval_of(k: int) -> SubInterval {
    SubInterval { start: k as u32, end: (k + 1) as u32 }
}

/// The division of an interval into `parts` pieces, worker by worker.
pub open spec fn partition_of(parts: nat) -> Seq<SubInterval> {
    Seq::new(parts, |k: int| sub_interval_of(k))
}

/// The pieces run from boundary `0` to boundary `parts` with no gap and no
/// overlap: each ends where the next begins, and each is non-empty.
pub open spec fn tiles(s: Seq<SubInterval>, parts: nat) -> bool {
    &&& s.len() == parts
    &&& s[0].start == 0
    &&& s[parts - 1].end == parts
    &&& forall|k: int| 0 <= k < parts ==> #[trigger] s[k].start < s[k].end
    &&& forall|k: int| 0 <= k < parts - 1 ==> #[trigger] s[k].end == s[k + 1].start
}

/// Divides an interval into `parts` equal, contiguous sub-intervals, one per
/// worker.
pub fn partition(parts: u32) -> (r: Vec<SubInterval>)
    ensures
        r@ == partition_of(parts as nat),
{
    let mut r: Vec<SubInterval> = Vec::new();
    let mut k: u32 = 0;
    while k < parts
        invariant
            k <= parts,
            r@ == partition_of(k as nat),
        decreases parts - k,
    {
        r.push(SubInterval { start: k, end: k + 1 });
        k = k + 1;
        assert(r@ =~= partition_of(k as nat));
    }
    r
}

/// For any positive number of workers, the partition tiles the whole interval:
/// it starts at the lower bound, ends at the upper bound, and the end boundary
/// of each worker is exactly the start boundary of the next.
pub proof fn lemma_partition_tiles(parts: u32)
    requires
        parts > 0,
    ensures
        tiles(partition_of(parts as nat), parts as nat),
{
}

} // verus!
