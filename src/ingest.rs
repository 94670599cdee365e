use crate::image::DecodedImage;
use vstd::prelude::*;

verus! {

/// Why one image could not be produced.
#[derive(Debug, PartialEq, Eq)]
pub struct DecodeError {
    pub message: String,
}

/// Why a batch of concurrently produced images was refused as a whole.
#[derive(Debug, PartialEq, Eq)]
pub enum IngestError {
    /// The producer positions are not exactly `0..n`, each once.
    BadIndices,
    /// The unit at producer position `index` failed; it is the earliest
    /// failed position of the batch.
    UnitFailed { index: usize, error: DecodeError },
}

/// The outcome of one unit of concurrent work: the unit's position in
/// producer order, and the image it produced or why it could not.
pub type Produced = (usize, Result<DecodedImage, DecodeError>);

/// Some unit of `p` reports producer position `k`.
pub open spec fn covers(p: Seq<Produced>, k: int) -> bool {
    exists|j: int| 0 <= j < p.len() && (#[trigger] p[j]).0 == k
}

/// The producer positions of `p` are `0..p.len()`, each exactly once.
pub open spec fn indices_valid(p: Seq<Produced>) -> bool {
    &&& forall|j: int| 0 <= j < p.len() ==> (#[trigger] p[j]).0 < p.len()
    &&& forall|i: int, j: int|
        0 <= i < p.len() && 0 <= j < p.len() && i != j ==> (#[trigger] p[i]).0 != (#[trigger] p[j]).0
    &&& forall|k: int| 0 <= k < p.len() ==> #[trigger] covers(p, k)
}

/// Some unit of `p` failed.
pub open spec fn any_failed(p: Seq<Produced>) -> bool {
    exists|j: int| 0 <= j < p.len() && (#[trigger] p[j]).1 is Err
}

/// `error`, at producer position `index`, is the failure of `p` that comes
/// first in producer order.
pub open spec fn first_failure(p: Seq<Produced>, index: usize, error: DecodeError) -> bool {
    &&& exists|j: int| 0 <= j < p.len() && #[trigger] p[j] == (index, Err::<DecodedImage, DecodeError>(error))
    &&& forall|j: int| 0 <= j < p.len() && (#[trigger] p[j]).1 is Err ==> index <= p[j].0
}

/// `s` holds the images of `p` each at its producer position.
pub open spec fn merged_in_order(p: Seq<Produced>, s: Seq<DecodedImage>) -> bool {
    &&& s.len() == p.len()
    &&& forall|j: int| 0 <= j < p.len() ==> s[(#[trigger] p[j]).0 as int] == p[j].1->Ok_0
}

/// The images of `p` laid out by producer position: at position `k`, the
/// image of the unit that reports `k`.
pub open spec fn in_producer_order(p: Seq<Produced>) -> Seq<DecodedImage> {
    Seq::new(p.len(), |k: int| p[choose|j: int| 0 <= j < p.len() && (#[trigger] p[j]).0 == k].1->Ok_0)
}

/// With valid positions there is one merge: the images in producer order.
pub proof fn lemma_merge_is_producer_order(p: Seq<Produced>, s: Seq<DecodedImage>)
    requires
        indices_valid(p),
        merged_in_order(p, s),
    ensures
        s == in_producer_order(p),
{
    assert forall|k: int| 0 <= k < s.len() implies s[k] == #[trigger] in_producer_order(p)[k] by {
        assert(covers(p, k));
        let j = choose|j: int| 0 <= j < p.len() && (#[trigger] p[j]).0 == k;
        assert(s[p[j].0 as int] == p[j].1->Ok_0);
    }
    assert(s =~= in_producer_order(p));
}

/// However the units of a batch finish, when the unit at producer position
/// `k` yields the `k`-th image of `q`, the merged images are exactly `q`,
/// the sequence a one-at-a-time producer would have yielded.
pub proof fn lemma_parallel_keeps_producer_order(p: Seq<Produced>, q: Seq<DecodedImage>)
    requires
        indices_valid(p),
        p.len() == q.len(),
        forall|j: int| 0 <= j < p.len() ==> (#[trigger] p[j]).1 == Ok::<DecodedImage, DecodeError>(q[p[j].0 as int]),
    ensures
        !any_failed(p),
        in_producer_order(p) == q,
{
    assert forall|k: int| 0 <= k < q.len() implies #[trigger] in_producer_order(p)[k] == q[k] by {
        assert(covers(p, k));
        let j = choose|j: int| 0 <= j < p.len() && (#[trigger] p[j]).0 == k;
        assert(p[j].1 == Ok::<DecodedImage, DecodeError>(q[k]));
    }
    assert(in_producer_order(p) =~= q);
}

/// Puts concurrently produced images back into producer order: each image
/// goes to the position its unit reports, whatever order the units finished
/// in. The batch is refused whole when the positions are not `0..n` each
/// once, or when any unit failed; then the earliest failed position is named.
pub fn merge_indexed(mut produced: Vec<Produced>) -> (r: Result<Vec<DecodedImage>, IngestError>)
    ensures
        !indices_valid(produced@) ==> r == Err::<Vec<DecodedImage>, IngestError>(IngestError::BadIndices),
        indices_valid(produced@) && any_failed(produced@) ==> (r matches Err(
            IngestError::UnitFailed { index, error },
        ) && first_failure(produced@, index, error)),
        indices_valid(produced@) && !any_failed(produced@) ==> r is Ok && merged_in_order(
            produced@,
            r->Ok_0@,
        ) && r->Ok_0@ == in_producer_order(produced@),
{
    let ghost p = produced@;
    let n = produced.len();
    let mut seen: Vec<bool> = Vec::new();
    while seen.len() < n
        invariant
            seen@.len() <= n,
            forall|k: int| 0 <= k < seen@.len() ==> !seen@[k],
        decreases n - seen@.len(),
    {
        seen.push(false);
    }
    let mut j: usize = 0;
    while j < n
        invariant
            produced@ == p,
            n == p.len(),
            j <= n,
            seen@.len() == n,
            forall|i: int| 0 <= i < j ==> (#[trigger] p[i]).0 < n,
            forall|i: int, m: int|
                0 <= i < j && 0 <= m < j && i != m ==> (#[trigger] p[i]).0 != (#[trigger] p[m]).0,
            forall|k: int|
                0 <= k < n ==> (seen@[k] <==> exists|i: int| 0 <= i < j && (#[trigger] p[i]).0 == k),
        decreases n - j,
    {
        let k = produced[j].0;
        if k >= n {
            return Err(IngestError::BadIndices);
        }
        if seen[k] {
            proof {
                let i = choose|i: int| 0 <= i < j && (#[trigger] p[i]).0 == k;
                assert(p[i].0 == p[j as int].0);
            }
            return Err(IngestError::BadIndices);
        }
        seen[k] = true;
        proof {
            assert forall|kk: int| 0 <= kk < n implies (seen@[kk] <==> exists|i: int|
                0 <= i < j + 1 && (#[trigger] p[i]).0 == kk) by {
                if kk == k {
                    assert(p[j as int].0 == kk);
                }
            }
        }
        j = j + 1;
    }
    let mut k: usize = 0;
    while k < n
        invariant
            produced@ == p,
            n == p.len(),
            seen@.len() == n,
            k <= n,
            forall|q: int| 0 <= q < k ==> seen@[q],
            forall|q: int|
                0 <= q < n ==> (seen@[q] <==> exists|i: int| 0 <= i < n && (#[trigger] p[i]).0 == q),
        decreases n - k,
    {
        if !seen[k] {
            assert(!covers(p, k as int));
            return Err(IngestError::BadIndices);
        }
        k = k + 1;
    }
    assert forall|q: int| 0 <= q < p.len() implies #[trigger] covers(p, q) by {
        assert(seen@[q]);
    }
    assert(indices_valid(p));
    let mut fail_pos: Option<usize> = None;
    let mut j: usize = 0;
    while j < n
        invariant
            produced@ == p,
            n == p.len(),
            j <= n,
            fail_pos is None ==> forall|i: int| 0 <= i < j ==> (#[trigger] p[i]).1 is Ok,
            fail_pos matches Some(f) ==> (f < j && p[f as int].1 is Err && forall|i: int|
                0 <= i < j && (#[trigger] p[i]).1 is Err ==> p[f as int].0 <= p[i].0),
        decreases n - j,
    {
        if produced[j].1.is_err() {
            match fail_pos {
                None => {
                    fail_pos = Some(j);
                },
                Some(f) => {
                    if produced[j].0 < produced[f].0 {
                        fail_pos = Some(j);
                    }
                },
            }
        }
        j = j + 1;
    }
    if let Some(f) = fail_pos {
        let (index, outcome) = produced.swap_remove(f);
        match outcome {
            Err(error) => {
                assert(p[f as int] == (index, Err::<DecodedImage, DecodeError>(error)));
                return Err(IngestError::UnitFailed { index, error });
            },
            // `f` was recorded only at a failed unit.
            Ok(_) => {
                return Err(IngestError::BadIndices);
            },
        }
    }
    assert(!any_failed(p));
    let mut slots: Vec<Option<DecodedImage>> = Vec::new();
    while slots.len() < n
        invariant
            slots@.len() <= n,
        decreases n - slots@.len(),
    {
        slots.push(None);
    }
    while produced.len() > 0
        invariant
            indices_valid(p),
            !any_failed(p),
            n == p.len(),
            slots@.len() == n,
            produced@.len() <= n,
            produced@ == p.subrange(0, produced@.len() as int),
            forall|i: int|
                produced@.len() <= i < n ==> slots@[(#[trigger] p[i]).0 as int] == Some(
                    p[i].1->Ok_0,
                ),
        decreases produced@.len(),
    {
        let ghost m = produced@.len() - 1;
        let (k, outcome) = match produced.pop() {
            Some(unit) => unit,
            // The loop runs only while units remain.
            None => {
                return Err(IngestError::BadIndices);
            },
        };
        assert(p[m] == (k, outcome));
        assert(p[m].1 is Ok);
        match outcome {
            Ok(image) => {
                slots[k] = Some(image);
            },
            Err(_) => {},
        }
        proof {
            assert forall|i: int| produced@.len() <= i < n implies slots@[(#[trigger] p[i]).0 as int]
                == Some(p[i].1->Ok_0) by {
                if i != m {
                    assert(p[i].0 != p[m].0);
                }
            }
        }
    }
    let mut out: Vec<DecodedImage> = Vec::new();
    let mut k: usize = 0;
    while k < n
        invariant
            indices_valid(p),
            n == p.len(),
            slots@.len() == n,
            k <= n,
            out@.len() == k,
            forall|i: int|
                0 <= i < n && (#[trigger] p[i]).0 >= k ==> slots@[p[i].0 as int] == Some(
                    p[i].1->Ok_0,
                ),
            forall|i: int| 0 <= i < n && (#[trigger] p[i]).0 < k ==> out@[p[i].0 as int] == p[i].1->Ok_0,
        decreases n - k,
    {
        assert(covers(p, k as int));
        let ghost i = choose|i: int| 0 <= i < p.len() && (#[trigger] p[i]).0 == k;
        let mut taken: Option<DecodedImage> = None;
        std::mem::swap(&mut slots[k], &mut taken);
        match taken {
            Some(image) => {
                out.push(image);
            },
            // Every position was filled above.
            None => {
                assert(false);
            },
        }
        proof {
            assert forall|i2: int| 0 <= i2 < n && (#[trigger] p[i2]).0 >= k + 1 implies slots@[p[i2].0 as int]
                == Some(p[i2].1->Ok_0) by {
                assert(p[i2].0 != p[i].0 || i2 == i);
            }
            assert forall|i2: int| 0 <= i2 < n && (#[trigger] p[i2]).0 < k + 1 implies out@[p[i2].0 as int]
                == p[i2].1->Ok_0 by {
                if p[i2].0 == k {
                    assert(i2 == i);
                }
            }
        }
        k = k + 1;
    }
    proof {
        lemma_merge_is_producer_order(p, out@);
    }
    Ok(out)
}

} // verus!
