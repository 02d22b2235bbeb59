//! Lexicographic order on hash digests and a binary search over a sorted
//! list of digests.
use vstd::prelude::*;

verus! {

/// `a` and `b` agree before index `i`, and `a` is smaller at `i`.
pub open spec fn differs_below_at(a: Seq<u8>, b: Seq<u8>, i: int) -> bool {
    0 <= i < a.len() && i < b.len() && a[i] < b[i] && a.subrange(0, i) == b.subrange(0, i)
}

/// Lexicographic order on digests of one length.
pub open spec fn digest_lt(a: Seq<u8>, b: Seq<u8>) -> bool {
    a.len() == b.len() && exists|i: int| #[trigger] differs_below_at(a, b, i)
}

/// Digests in strictly ascending order.
pub open spec fn digests_sorted(keys: Seq<Seq<u8>>) -> bool {
    forall|i: int, j: int| 0 <= i < j < keys.len() ==> digest_lt(#[trigger] keys[i], #[trigger] keys[j])
}

/// `p` splits `keys` into the digests below `k` and those above it.
pub open spec fn splits_at(keys: Seq<Seq<u8>>, k: Seq<u8>, p: int) -> bool {
    &&& 0 <= p <= keys.len()
    &&& forall|i: int| 0 <= i < p ==> digest_lt(#[trigger] keys[i], k)
    &&& forall|i: int| p <= i < keys.len() ==> digest_lt(k, #[trigger] keys[i])
}

proof fn lemma_prefix_agree(a: Seq<u8>, b: Seq<u8>, i: int, j: int)
    requires
        0 <= j <= i <= a.len(),
        i <= b.len(),
        a.subrange(0, i) == b.subrange(0, i),
    ensures
        a.subrange(0, j) == b.subrange(0, j),
        j < i ==> a[j] == b[j],
{
    assert(a.subrange(0, j) =~= a.subrange(0, i).subrange(0, j));
    assert(b.subrange(0, j) =~= b.subrange(0, i).subrange(0, j));
    if j < i {
        assert(a[j] == a.subrange(0, i)[j]);
        assert(b[j] == b.subrange(0, i)[j]);
    }
}

/// The order is transitive.
pub proof fn lemma_digest_lt_transitive(a: Seq<u8>, b: Seq<u8>, c: Seq<u8>)
    requires
        digest_lt(a, b),
        digest_lt(b, c),
    ensures
        digest_lt(a, c),
{
    let i = choose|i: int| differs_below_at(a, b, i);
    let j = choose|j: int| differs_below_at(b, c, j);
    if i < j {
        lemma_prefix_agree(b, c, j, i);
        assert(a.subrange(0, i) =~= c.subrange(0, i));
        assert(differs_below_at(a, c, i));
    } else if j < i {
        lemma_prefix_agree(a, b, i, j);
        assert(a.subrange(0, j) =~= c.subrange(0, j));
        assert(differs_below_at(a, c, j));
    } else {
        assert(a.subrange(0, i) =~= c.subrange(0, i));
        assert(differs_below_at(a, c, i));
    }
}

/// The order is strict: `a < b` rules out `b < a` and `a == b`.
pub proof fn lemma_digest_lt_asymmetric(a: Seq<u8>, b: Seq<u8>)
    requires
        digest_lt(a, b),
    ensures
        !digest_lt(b, a),
        a != b,
{
    let i = choose|i: int| differs_below_at(a, b, i);
    if digest_lt(b, a) {
        let j = choose|j: int| differs_below_at(b, a, j);
        if i < j {
            lemma_prefix_agree(b, a, j, i);
        } else if j < i {
            lemma_prefix_agree(a, b, i, j);
        }
    }
}

/// Compares two digests of one length: negative, zero or positive as `a` is
/// below, equal to or above `b`.
pub fn compare_digests(a: &Vec<u8>, b: &Vec<u8>) -> (r: i8)
    requires
        a@.len() == b@.len(),
    ensures
        r == 0 <==> a@ == b@,
        r < 0 <==> digest_lt(a@, b@),
        r > 0 <==> digest_lt(b@, a@),
{
    let mut i: usize = 0;
    while i < a.len()
        invariant
            a@.len() == b@.len(),
            0 <= i <= a@.len(),
            a@.subrange(0, i as int) == b@.subrange(0, i as int),
        decreases a@.len() - i,
    {
        if a[i] < b[i] {
            proof {
                assert(differs_below_at(a@, b@, i as int));
                lemma_digest_lt_asymmetric(a@, b@);
            }
            return -1;
        }
        if a[i] > b[i] {
            proof {
                assert(differs_below_at(b@, a@, i as int));
                lemma_digest_lt_asymmetric(b@, a@);
            }
            return 1;
        }
        proof {
            assert(a@.subrange(0, i + 1) =~= a@.subrange(0, i as int).push(a@[i as int]));
            assert(b@.subrange(0, i + 1) =~= b@.subrange(0, i as int).push(b@[i as int]));
        }
        i = i + 1;
    }
    proof {
        assert(a@ =~= a@.subrange(0, a@.len() as int));
        assert(b@ =~= b@.subrange(0, b@.len() as int));
        if digest_lt(a@, b@) {
            lemma_digest_lt_asymmetric(a@, b@);
        }
        if digest_lt(b@, a@) {
            lemma_digest_lt_asymmetric(b@, a@);
        }
    }
    0
}

/// The views of a list of digests.
pub open spec fn digest_views(keys: Seq<Vec<u8>>) -> Seq<Seq<u8>> {
    keys.map_values(|k: Vec<u8>| k@)
}

/// Binary search for `k` in digests sorted in ascending order. Returns
/// `(true, i)` when `keys[i] == k`, else `(false, p)` with `p` the position
/// at which `k` keeps the list sorted.
pub fn search_digest(keys: &Vec<Vec<u8>>, k: &Vec<u8>) -> (r: (bool, usize))
    requires
        forall|i: int| 0 <= i < keys@.len() ==> (#[trigger] keys@[i])@.len() == k@.len(),
    ensures
        r.0 ==> r.1 < keys@.len() && keys@[r.1 as int]@ == k@,
        r.1 <= keys@.len(),
        digests_sorted(digest_views(keys@)) ==> (r.0 <==> digest_views(keys@).contains(k@)),
        digests_sorted(digest_views(keys@)) && !r.0 ==> splits_at(
            digest_views(keys@),
            k@,
            r.1 as int,
        ),
{
    let ghost views = digest_views(keys@);
    let mut lo: usize = 0;
    let mut hi: usize = keys.len();
    while lo < hi
        invariant
            0 <= lo <= hi <= keys@.len(),
            views == digest_views(keys@),
            forall|i: int| 0 <= i < keys@.len() ==> (#[trigger] keys@[i])@.len() == k@.len(),
            digests_sorted(views) ==> forall|i: int| 0 <= i < lo ==> digest_lt(#[trigger] views[i], k@),
            digests_sorted(views) ==> forall|i: int|
                hi <= i < views.len() ==> digest_lt(k@, #[trigger] views[i]),
        decreases hi - lo,
    {
        let mid = lo + (hi - lo) / 2;
        let c = compare_digests(&keys[mid], k);
        if c == 0 {
            proof {
                assert(views[mid as int] == k@);
            }
            return (true, mid);
        } else if c < 0 {
            proof {
                if digests_sorted(views) {
                    assert forall|i: int| 0 <= i < mid + 1 implies digest_lt(#[trigger] views[i], k@) by {
                        if i < mid {
                            assert(digest_lt(views[i], views[mid as int]));
                            lemma_digest_lt_transitive(views[i], views[mid as int], k@);
                        }
                    }
                }
            }
            lo = mid + 1;
        } else {
            proof {
                if digests_sorted(views) {
                    assert forall|i: int| mid <= i < views.len() implies digest_lt(k@, #[trigger] views[i]) by {
                        if i > mid {
                            assert(digest_lt(views[mid as int], views[i]));
                            lemma_digest_lt_transitive(k@, views[mid as int], views[i]);
                        }
                    }
                }
            }
            hi = mid;
        }
    }
    proof {
        if digests_sorted(views) {
            assert forall|i: int| 0 <= i < views.len() implies views[i] != k@ by {
                if i < lo {
                    lemma_digest_lt_asymmetric(views[i], k@);
                } else {
                    lemma_digest_lt_asymmetric(k@, views[i]);
                }
            }
        }
    }
    (false, lo)
}

/// A sorted list has at most one split position for a digest.
pub proof fn lemma_split_unique(keys: Seq<Seq<u8>>, k: Seq<u8>, p: int, q: int)
    requires
        splits_at(keys, k, p),
        splits_at(keys, k, q),
    ensures
        p == q,
{
    if p < q {
        lemma_digest_lt_asymmetric(keys[p], k);
    } else if q < p {
        lemma_digest_lt_asymmetric(keys[q], k);
    }
}

} // verus!
