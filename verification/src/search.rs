use vstd::prelude::*;
use crate::evaluate;
use crate::hex;
use crate::params::SearchParameters;

verus! {

/// A successful evaluation reported out of the search: the matching index,
/// the message bound from its candidate, and that message's digest.
pub struct FoundMatch {
    pub index: u128,
    pub message: Vec<u8>,
    pub digest: Vec<u8>,
}

impl FoundMatch {
    /// The reported match really is one for `p`: the index satisfies the
    /// self-reference test, the message is the binding of its candidate,
    /// and the digest is that message's digest.
    pub open spec fn wf_for(self, p: SearchParameters) -> bool {
        &&& evaluate::index_matches(p, self.index as int)
        &&& self.message@ == p.message_at(self.index as int)
        &&& self.digest@ == evaluate::sha256_of(self.message@)
    }
}

/// Shared search state, reified as an explicit handle: the found flag and
/// the operation counter. The flag only ever goes from unset to set; the
/// counter never decreases.
pub struct SearchState {
    pub found: bool,
    pub ops_count: u128,
}

impl SearchState {
    /// A fresh state: nothing found, no work counted.
    pub fn new() -> (s: SearchState)
        ensures
            !s.found,
            s.ops_count == 0,
    {
        SearchState { found: false, ops_count: 0 }
    }

    /// Record that a match was found. The counter is untouched and the flag
    /// never goes back to unset.
    pub fn set_found(&mut self)
        ensures
            final(self).found,
            final(self).ops_count == old(self).ops_count,
    {
        self.found = true;
    }

    /// Credit `n` finished evaluations to the counter, which never
    /// decreases; the flag is untouched.
    pub fn add_ops(&mut self, n: u128)
        requires
            old(self).ops_count + n <= u128::MAX,
        ensures
            final(self).ops_count == old(self).ops_count + n,
            final(self).ops_count >= old(self).ops_count,
            final(self).found == old(self).found,
    {
        self.ops_count = self.ops_count + n;
    }
}

/// Evaluate every index of `[start, end)` in order, stopping at the first
/// match. `None` means no index of the range satisfies the test.
pub fn search_chunk(p: &SearchParameters, start: u128, end: u128) -> (r: Option<FoundMatch>)
    requires
        p.wf(),
        start <= end,
    ensures
        r matches Some(m) ==> m.wf_for(*p) && start <= m.index < end && (forall|j: int|
            start <= j < m.index ==> !evaluate::index_matches(*p, j)),
        r is None ==> forall|i: int| start <= i < end ==> !evaluate::index_matches(*p, i),
{
    let mut i: u128 = start;
    while i < end
        invariant
            p.wf(),
            start <= i <= end,
            forall|j: int| start <= j < i ==> !evaluate::index_matches(*p, j),
        decreases end - i,
    {
        let e = evaluate::evaluate_index(p, i);
        if e.matched {
            return Some(FoundMatch { index: i, message: e.message, digest: e.digest });
        }
        i = i + 1;
    }
    None
}

/// One coordinator step on the chunk `[start, end)`: skip it entirely when
/// the found flag is already set (the cooperative cancellation point);
/// otherwise search it, setting the flag on a match and crediting the whole
/// chunk to the counter on exhaustion. The counter never decreases, and one
/// step grows it by at most the chunk's width.
pub fn coordinator_step(
    p: &SearchParameters,
    state: &mut SearchState,
    start: u128,
    end: u128,
) -> (r: Option<FoundMatch>)
    requires
        p.wf(),
        start <= end,
        old(state).ops_count + (end - start) <= u128::MAX,
    ensures
        final(state).ops_count >= old(state).ops_count,
        final(state).ops_count <= old(state).ops_count + (end - start),
        final(state).found == (old(state).found || r is Some),
        old(state).found ==> *final(state) == *old(state) && r is None,
        r matches Some(m) ==> m.wf_for(*p) && start <= m.index < end && (forall|j: int|
            start <= j < m.index ==> !evaluate::index_matches(*p, j)) && final(state).ops_count
            == old(state).ops_count,
        (!old(state).found && r is None) ==> (forall|i: int|
            start <= i < end ==> !evaluate::index_matches(*p, i)) && final(state).ops_count
            == old(state).ops_count + (end - start),
{
    if state.found {
        return None;
    }
    match search_chunk(p, start, end) {
        Some(m) => {
            state.set_found();
            Some(m)
        },
        None => {
            state.add_ops(end - start);
            None
        },
    }
}

/// The size of the search space at `digits` hex digits, `16^digits`. The
/// 32-digit space is `2^128`, one beyond `u128`, so that width is excluded
/// here; chunked searching still covers it index by index.
pub fn space_size(digits: u8) -> (r: u128)
    requires
        digits <= 31,
    ensures
        r as int == crate::pow16(digits as nat),
{
    proof {
        hex::lemma_pow16_32();
        assert(crate::pow16(32) == 16 * crate::pow16(31));
    }
    let mut acc: u128 = 1;
    let mut k: u8 = 0;
    while k < digits
        invariant
            k <= digits <= 31,
            acc as int == crate::pow16(k as nat),
        decreases digits - k,
    {
        proof {
            hex::lemma_pow16_32();
            assert(crate::pow16(32) == 16 * crate::pow16(31));
            hex::lemma_pow16_monotonic((k + 1) as nat, 31);
        }
        acc = acc * 16;
        k = k + 1;
    }
    acc
}

/// The whole search, driven sequentially through coordinator steps of width
/// `chunk_size` over `[0, 16^digits)`: the reference coordinator that the
/// parallel driver mirrors chunk for chunk. Either the first matching index
/// is found and its evaluation returned with the flag set, or the space is
/// exhausted and the counter holds exactly `16^digits`.
pub fn run_search(
    p: &SearchParameters,
    chunk_size: u128,
    state: &mut SearchState,
) -> (r: Option<FoundMatch>)
    requires
        p.wf(),
        p.digits <= 31,
        chunk_size >= 1,
        !old(state).found,
        old(state).ops_count == 0,
    ensures
        final(state).ops_count <= crate::pow16(p.digits as nat),
        r matches Some(m) ==> m.wf_for(*p) && m.index < crate::pow16(p.digits as nat) && (
        forall|j: int| 0 <= j < m.index ==> !evaluate::index_matches(*p, j)) && final(state).found,
        r is None ==> (forall|i: int|
            0 <= i < crate::pow16(p.digits as nat) ==> !evaluate::index_matches(*p, i))
            && final(state).ops_count == crate::pow16(p.digits as nat) && !final(state).found,
{
    let space = space_size(p.digits);
    let mut next: u128 = 0;
    while next < space
        invariant
            p.wf(),
            p.digits <= 31,
            chunk_size >= 1,
            space as int == crate::pow16(p.digits as nat),
            0 <= next <= space,
            !state.found,
            state.ops_count == next,
            forall|j: int| 0 <= j < next ==> !evaluate::index_matches(*p, j),
        decreases space - next,
    {
        let end: u128 = if space - next < chunk_size {
            space
        } else {
            next + chunk_size
        };
        let r = coordinator_step(p, state, next, end);
        if r.is_some() {
            return r;
        }
        next = end;
    }
    None
}

/// One monitor sample, derived from the counter, the clock and the space
/// size in integer arithmetic: throughput in evaluations per second,
/// progress in hundredths of a percent, and the seconds left at the
/// sampled throughput (zero while the throughput is still zero).
pub struct ProgressSample {
    pub elapsed_secs: u64,
    pub ops_count: u128,
    pub throughput: u128,
    pub percent_hundredths: u128,
    pub eta_secs: u128,
}

/// Compute one progress sample. Purely observational: a function of the
/// sampled counter, the elapsed whole seconds and the space size alone.
pub fn progress_sample(ops_count: u128, elapsed_secs: u64, space: u128) -> (s: ProgressSample)
    requires
        1 <= space,
        ops_count <= space,
        ops_count * 10000 <= u128::MAX,
    ensures
        s.elapsed_secs == elapsed_secs,
        s.ops_count == ops_count,
        s.throughput as int == if elapsed_secs > 0 {
            ops_count as int / elapsed_secs as int
        } else {
            0
        },
        s.percent_hundredths as int == ops_count as int * 10000 / space as int,
        s.eta_secs as int == if s.throughput > 0 {
            (space - ops_count) as int / s.throughput as int
        } else {
            0
        },
{
    let throughput: u128 = if elapsed_secs > 0 {
        ops_count / (elapsed_secs as u128)
    } else {
        0
    };
    let percent_hundredths: u128 = ops_count * 10000 / space;
    let eta_secs: u128 = if throughput > 0 {
        (space - ops_count) / throughput
    } else {
        0
    };
    ProgressSample { elapsed_secs, ops_count, throughput, percent_hundredths, eta_secs }
}

} // verus!
