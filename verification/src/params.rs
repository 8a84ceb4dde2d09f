use vstd::prelude::*;
use crate::hex;

verus! {

/// The template byte that marks where the candidate is substituted, `b'#'`.
pub const PLACEHOLDER: u8 = 0x23;

/// Why a parameter set is rejected before any search runs.
#[derive(Debug, Clone, Copy, PartialEq, Eq, Structural)]
pub enum ParamError {
    /// The digit count is zero or exceeds 32.
    DigitsOutOfRange,
    /// The template holds no placeholder byte.
    MissingPlaceholder,
}

/// Validated inputs for one search: the digit count, and the template split
/// at its first placeholder byte. Only the first placeholder is substituted;
/// any later placeholder bytes stay literal.
pub struct SearchParameters {
    pub digits: u8,
    pub prefix: Vec<u8>,
    pub suffix: Vec<u8>,
}

impl SearchParameters {
    /// Validity: the digit count lies in `[1, 32]`.
    pub open spec fn wf(self) -> bool {
        1 <= self.digits <= 32
    }

    /// The message obtained by substituting candidate `c` for the placeholder.
    pub open spec fn bound_spec(self, c: Seq<u8>) -> Seq<u8> {
        self.prefix@ + c + self.suffix@
    }

    /// The message bound from the fixed-width hex candidate of index `i`.
    pub open spec fn message_at(self, i: int) -> Seq<u8> {
        self.bound_spec(hex::hex_encode(i, self.digits as nat))
    }

    /// Validate raw inputs: the digit count must lie in `[1, 32]` and the
    /// template must hold a placeholder. On success the template is split at
    /// the first placeholder, which the prefix length pins down exactly.
    pub fn new(digits: u8, template: &[u8]) -> (r: Result<SearchParameters, ParamError>)
        ensures
            r matches Err(ParamError::DigitsOutOfRange) <==> !(1 <= digits <= 32),
            r matches Err(ParamError::MissingPlaceholder) <==> (1 <= digits <= 32
                && (forall|j: int| 0 <= j < template@.len() ==> template@[j] != PLACEHOLDER)),
            r matches Ok(p) ==> ({
                &&& p.wf()
                &&& p.digits == digits
                &&& p.prefix@.len() < template@.len()
                &&& template@[p.prefix@.len() as int] == PLACEHOLDER
                &&& (forall|j: int| 0 <= j < p.prefix@.len() ==> template@[j] != PLACEHOLDER)
                &&& p.prefix@ == template@.take(p.prefix@.len() as int)
                &&& p.suffix@ == template@.skip(p.prefix@.len() as int + 1)
            }),
    {
        if digits == 0 || digits > 32 {
            return Err(ParamError::DigitsOutOfRange);
        }
        let mut idx: usize = 0;
        while idx < template.len()
            invariant
                1 <= digits <= 32,
                idx <= template@.len(),
                forall|j: int| 0 <= j < idx ==> template@[j] != PLACEHOLDER,
            decreases template@.len() - idx,
        {
            if template[idx] == PLACEHOLDER {
                let mut prefix: Vec<u8> = Vec::new();
                let mut j: usize = 0;
                while j < idx
                    invariant
                        j <= idx,
                        idx < template@.len(),
                        prefix@ == template@.take(j as int),
                    decreases idx - j,
                {
                    prefix.push(template[j]);
                    proof {
                        assert(template@.take(j + 1) =~= template@.take(j as int).push(
                            template@[j as int]));
                    }
                    j = j + 1;
                }
                let mut suffix: Vec<u8> = Vec::new();
                let mut k: usize = idx + 1;
                while k < template.len()
                    invariant
                        1 <= digits <= 32,
                        idx < template@.len(),
                        idx + 1 <= k <= template@.len(),
                        template@[idx as int] == PLACEHOLDER,
                        forall|j: int| 0 <= j < idx ==> template@[j] != PLACEHOLDER,
                        prefix@ == template@.take(idx as int),
                        suffix@ == template@.subrange(idx + 1, k as int),
                    decreases template@.len() - k,
                {
                    suffix.push(template[k]);
                    proof {
                        assert(template@.subrange(idx + 1, k + 1) =~= template@.subrange(
                            idx + 1, k as int).push(template@[k as int]));
                    }
                    k = k + 1;
                }
                proof {
                    assert(suffix@ =~= template@.skip(idx + 1));
                }
                return Ok(SearchParameters { digits, prefix, suffix });
            }
            idx = idx + 1;
        }
        Err(ParamError::MissingPlaceholder)
    }

    /// Substitute `candidate` for the placeholder: prefix, then candidate,
    /// then suffix, with every byte outside the placeholder region unchanged.
    pub fn bind(&self, candidate: &Vec<u8>) -> (m: Vec<u8>)
        ensures
            m@ == self.bound_spec(candidate@),
    {
        let mut m: Vec<u8> = Vec::new();
        push_all(&mut m, self.prefix.as_slice());
        push_all(&mut m, candidate.as_slice());
        push_all(&mut m, self.suffix.as_slice());
        proof {
            assert(m@ =~= self.bound_spec(candidate@));
        }
        m
    }
}

/// Append every byte of `src` to `dst`, in order.
fn push_all(dst: &mut Vec<u8>, src: &[u8])
    ensures
        final(dst)@ == old(dst)@ + src@,
{
    proof {
        assert(old(dst)@ + src@.take(0) =~= old(dst)@);
    }
    let mut k: usize = 0;
    while k < src.len()
        invariant
            k <= src@.len(),
            dst@ == old(dst)@ + src@.take(k as int),
        decreases src@.len() - k,
    {
        dst.push(src[k]);
        proof {
            assert(old(dst)@ + src@.take(k + 1) =~= (old(dst)@ + src@.take(k as int)).push(
                src@[k as int]));
        }
        k = k + 1;
    }
    proof {
        assert(src@.take(src@.len() as int) =~= src@);
    }
}

/// The shape of a bound message: its length, and what stands at each
/// position — the prefix before the placeholder region, the candidate
/// within it, the suffix after it.
pub proof fn lemma_bound_message_shape(p: SearchParameters, c: Seq<u8>)
    ensures
        p.bound_spec(c).len() == p.prefix@.len() + c.len() + p.suffix@.len(),
        forall|k: int| 0 <= k < p.prefix@.len() ==> #[trigger] p.bound_spec(c)[k] == p.prefix@[k],
        forall|k: int|
            p.prefix@.len() <= k < p.prefix@.len() + c.len() ==> #[trigger] p.bound_spec(c)[k]
                == c[k - p.prefix@.len()],
        forall|k: int|
            p.prefix@.len() + c.len() <= k < p.bound_spec(c).len() ==> #[trigger] p.bound_spec(
                c)[k] == p.suffix@[k - p.prefix@.len() - c.len()],
{
}

/// Binder purity: messages bound from two candidates of equal width have
/// the same length and agree everywhere outside the placeholder region.
pub proof fn lemma_binder_purity(p: SearchParameters, c1: Seq<u8>, c2: Seq<u8>)
    requires
        c1.len() == c2.len(),
    ensures
        p.bound_spec(c1).len() == p.bound_spec(c2).len(),
        forall|k: int|
            0 <= k < p.bound_spec(c1).len() && !(p.prefix@.len() <= k < p.prefix@.len()
                + c1.len()) ==> #[trigger] p.bound_spec(c1)[k] == p.bound_spec(c2)[k],
{
    lemma_bound_message_shape(p, c1);
    lemma_bound_message_shape(p, c2);
}

} // verus!
