use vstd::prelude::*;

verus! {

/// `c` completes `prefix` into a combination of `choose` indices: it starts with `prefix`
/// and continues with strictly increasing indices in `start..item_count`.
pub open spec fn is_completion(c: Seq<usize>, prefix: Seq<usize>, choose: int, start: int, item_count: int) -> bool {
    &&& c.len() == choose
    &&& prefix.len() <= choose
    &&& c.subrange(0, prefix.len() as int) == prefix
    &&& forall|k: int| prefix.len() <= k < choose ==> start <= #[trigger] c[k] < item_count
    &&& forall|k: int, l: int| prefix.len() <= k < l < choose ==> #[trigger] c[k] < #[trigger] c[l]
}

/// `a` comes before `b` in lexicographic order: they agree up to some position where `a`
/// holds the smaller index.
pub open spec fn lex_less(a: Seq<usize>, b: Seq<usize>) -> bool {
    exists|k: int|
        0 <= k < a.len() && k < b.len() && a[k] < b[k] && forall|j: int| 0 <= j < k ==> #[trigger] a[j] == b[j]
}

/// A strictly increasing run of `m` indices that all lie in `lo..hi` needs `m <= hi - lo`.
proof fn lemma_increasing_run_fits(c: Seq<usize>, from: int, to: int, lo: int, hi: int)
    requires
        0 <= from <= to <= c.len(),
        forall|k: int| from <= k < to ==> lo <= #[trigger] c[k] < hi,
        forall|k: int, l: int| from <= k < l < to ==> #[trigger] c[k] < #[trigger] c[l],
    ensures
        from < to ==> to - from <= hi - lo,
    decreases to - from,
{
    if from < to {
        assert(lo <= c[from] < hi);
        if from + 1 < to {
            assert forall|k: int| from + 1 <= k < to implies c[from] + 1 <= #[trigger] c[k] < hi by {
                assert(c[from] < c[k]);
            }
            lemma_increasing_run_fits(c, from + 1, to, c[from] + 1, hi);
        }
    }
}

/// Appends to `visited`, in lexicographic order and each exactly once, every combination of
/// `choose` indices that extends `indices` with strictly increasing indices taken from
/// `start..item_count`; `indices` is left as it was.
pub fn visit_combinations(
    item_count: usize,
    choose: usize,
    start: usize,
    indices: &mut Vec<usize>,
    visited: &mut Vec<Vec<usize>>,
)
    requires
        old(indices)@.len() <= choose,
    ensures
        final(indices)@ == old(indices)@,
        final(visited)@.len() >= old(visited)@.len(),
        forall|i: int| 0 <= i < old(visited)@.len() ==> final(visited)@[i] == old(visited)@[i],
        forall|i: int|
            old(visited)@.len() <= i < final(visited)@.len() ==> is_completion(
                #[trigger] final(visited)@[i]@,
                old(indices)@,
                choose as int,
                start as int,
                item_count as int,
            ),
        forall|c: Seq<usize>|
            #[trigger] is_completion(c, old(indices)@, choose as int, start as int, item_count as int) ==> exists|i: int|
                old(visited)@.len() <= i < final(visited)@.len() && #[trigger] final(visited)@[i]@ == c,
        forall|i: int, j: int|
            old(visited)@.len() <= i < j < final(visited)@.len() ==> lex_less(
                #[trigger] final(visited)@[i]@,
                #[trigger] final(visited)@[j]@,
            ),
    decreases choose - old(indices)@.len(), 0nat,
{
    let ghost prefix = indices@;
    let ghost base = visited@.len() as int;
    let ghost p = prefix.len() as int;
    if indices.len() == choose {
        let combination = indices.clone();
        assert(combination@ =~= prefix);
        visited.push(combination);
        assert(prefix.subrange(0, p) =~= prefix);
        assert(is_completion(visited@[base]@, prefix, choose as int, start as int, item_count as int));
        assert forall|c: Seq<usize>|
            #[trigger] is_completion(c, prefix, choose as int, start as int, item_count as int) implies exists|i: int|
                base <= i < visited@.len() && #[trigger] visited@[i]@ == c by {
            assert(c =~= c.subrange(0, p));
            assert(visited@[base]@ == c);
        }
        return;
    }
    let remaining = choose - indices.len();
    if remaining > item_count.saturating_sub(start) {
        assert forall|c: Seq<usize>|
            !is_completion(c, prefix, choose as int, start as int, item_count as int) by {
            if is_completion(c, prefix, choose as int, start as int, item_count as int) {
                lemma_increasing_run_fits(c, p, choose as int, start as int, item_count as int);
            }
        }
        return;
    }
    let last_start = item_count - remaining;
    let mut index = start;
    while index <= last_start
        invariant
            start <= index <= last_start + 1,
            last_start == item_count - remaining,
            remaining == choose - p,
            remaining >= 1,
            remaining <= item_count - start,
            prefix.len() < choose,
            p == prefix.len(),
            indices@ == prefix,
            visited@.len() >= base,
            forall|i: int| 0 <= i < base ==> visited@[i] == old(visited)@[i],
            base == old(visited)@.len(),
            prefix == old(indices)@,
            forall|i: int|
                base <= i < visited@.len() ==> is_completion(
                    #[trigger] visited@[i]@,
                    prefix,
                    choose as int,
                    start as int,
                    item_count as int,
                ) && visited@[i]@[p] < index,
            forall|c: Seq<usize>|
                #[trigger] is_completion(c, prefix, choose as int, start as int, item_count as int) && c[p] < index
                    ==> exists|i: int| base <= i < visited@.len() && #[trigger] visited@[i]@ == c,
            forall|i: int, j: int|
                base <= i < j < visited@.len() ==> lex_less(#[trigger] visited@[i]@, #[trigger] visited@[j]@),
        decreases last_start + 1 - index,
    {
        let ghost before = visited@;
        indices.push(index);
        let ghost extended = indices@;
        assert(extended == prefix.push(index));
        visit_combinations(item_count, choose, index + 1, indices, visited);
        indices.pop();
        assert(indices@ =~= prefix);
        proof {
            let b = before.len() as int;
            // New combinations complete the prefix with `index` first.
            assert forall|i: int| b <= i < visited@.len() implies is_completion(
                #[trigger] visited@[i]@,
                prefix,
                choose as int,
                start as int,
                item_count as int,
            ) && visited@[i]@[p] < index + 1 by {
                let c = visited@[i]@;
                assert(is_completion(c, extended, choose as int, (index + 1) as int, item_count as int));
                assert(c.subrange(0, p + 1) == extended);
                assert(c[p] == c.subrange(0, p + 1)[p]);
                assert(c.subrange(0, p) =~= c.subrange(0, p + 1).subrange(0, p));
                assert(extended.subrange(0, p) =~= prefix);
                assert forall|k: int, l: int| p <= k < l < choose implies #[trigger] c[k] < #[trigger] c[l] by {
                    if k == p {
                        assert(index + 1 <= c[l]);
                    }
                }
            }
            assert forall|i: int| base <= i < b implies is_completion(
                #[trigger] visited@[i]@,
                prefix,
                choose as int,
                start as int,
                item_count as int,
            ) && visited@[i]@[p] < index + 1 by {
                assert(visited@[i] == before[i]);
            }
            // Completeness up to `index`.
            assert forall|c: Seq<usize>|
                #[trigger] is_completion(c, prefix, choose as int, start as int, item_count as int) && c[p] < index + 1
                    implies exists|i: int| base <= i < visited@.len() && #[trigger] visited@[i]@ == c by {
                if c[p] < index {
                    let i = choose|i: int| base <= i < before.len() && #[trigger] before[i]@ == c;
                    assert(visited@[i] == before[i]);
                } else {
                    assert(c.subrange(0, p + 1) =~= extended) by {
                        assert(c.subrange(0, p) == prefix);
                        assert forall|k: int| 0 <= k < p + 1 implies c.subrange(0, p + 1)[k] == extended[k] by {
                            if k < p {
                                assert(c.subrange(0, p)[k] == prefix[k]);
                            }
                        }
                    }
                    assert forall|k: int| p + 1 <= k < choose implies index + 1 <= #[trigger] c[k] < item_count by {
                        assert(c[p] < c[k]);
                    }
                    assert(is_completion(c, extended, choose as int, (index + 1) as int, item_count as int));
                }
            }
            // Order: every earlier combination has a smaller index at position `p`.
            assert forall|i: int, j: int|
                base <= i < j < visited@.len() implies lex_less(#[trigger] visited@[i]@, #[trigger] visited@[j]@) by {
                if j < b {
                    assert(visited@[i] == before[i]);
                    assert(visited@[j] == before[j]);
                } else if i >= b {
                } else {
                    let x = visited@[i]@;
                    let y = visited@[j]@;
                    assert(visited@[i] == before[i]);
                    assert(x[p] < index);
                    assert(is_completion(y, extended, choose as int, (index + 1) as int, item_count as int));
                    assert(y[p] == y.subrange(0, p + 1)[p]);
                    assert forall|k: int| 0 <= k < p implies #[trigger] x[k] == y[k] by {
                        assert(x[k] == x.subrange(0, p)[k]);
                        assert(y[k] == y.subrange(0, p + 1)[k]);
                    }
                }
            }
        }
        index = index + 1;
    }
    proof {
        assert forall|c: Seq<usize>|
            #[trigger] is_completion(c, prefix, choose as int, start as int, item_count as int) implies exists|i: int|
                base <= i < visited@.len() && #[trigger] visited@[i]@ == c by {
            lemma_increasing_run_fits(c, p + 1, choose as int, c[p] + 1, item_count as int);
            assert forall|k: int| p + 1 <= k < choose implies c[p] + 1 <= #[trigger] c[k] < item_count by {
                assert(c[p] < c[k]);
            }
        }
    }
}

/// `a` comes before `b` in the order of index lists: lexicographic, with a proper prefix first.
pub open spec fn indices_less(a: Seq<usize>, b: Seq<usize>) -> bool {
    lex_less(a, b) || (a.len() < b.len() && a == b.subrange(0, a.len() as int))
}

/// Whether `s` is in increasing order.
pub open spec fn is_sorted(s: Seq<usize>) -> bool {
    forall|i: int, j: int| 0 <= i <= j < s.len() ==> #[trigger] s[i] <= #[trigger] s[j]
}

/// The same indices in increasing order.
pub fn sorted_indices(values: &[usize]) -> (sorted: Vec<usize>)
    ensures
        is_sorted(sorted@),
        sorted@.to_multiset() == values@.to_multiset(),
{
    let mut sorted: Vec<usize> = Vec::new();
    let mut i: usize = 0;
    assert(values@.subrange(0, 0) =~= sorted@);
    while i < values.len()
        invariant
            i <= values@.len(),
            is_sorted(sorted@),
            sorted@.to_multiset() == values@.subrange(0, i as int).to_multiset(),
        decreases values@.len() - i,
    {
        let x = values[i];
        let mut position: usize = 0;
        while position < sorted.len() && sorted[position] <= x
            invariant
                position <= sorted@.len(),
                forall|k: int| 0 <= k < position ==> sorted@[k] <= x,
            decreases sorted@.len() - position,
        {
            position = position + 1;
        }
        let ghost before = sorted@;
        sorted.insert(position, x);
        proof {
            assert(sorted@ == before.insert(position as int, x));
            assert forall|a: int, b: int| 0 <= a <= b < sorted@.len() implies #[trigger] sorted@[a] <= #[trigger] sorted@[b] by {
                if position < before.len() {
                    assert(x < before[position as int]);
                }
                if a < position && b > position {
                    assert(sorted@[a] == before[a]);
                    assert(sorted@[b] == before[b - 1]);
                } else if a < position && b == position {
                    assert(sorted@[a] == before[a]);
                } else if a == position && b > position {
                    assert(sorted@[b] == before[b - 1]);
                    assert(before[position as int] <= before[b - 1]);
                } else if a > position {
                    assert(sorted@[a] == before[a - 1]);
                    assert(sorted@[b] == before[b - 1]);
                } else if b < position {
                    assert(sorted@[a] == before[a]);
                    assert(sorted@[b] == before[b]);
                }
            }
            assert(values@.subrange(0, i + 1) == values@.subrange(0, i as int).push(x));
            vstd::seq_lib::to_multiset_build(values@.subrange(0, i as int), x);
            vstd::seq_lib::to_multiset_insert(before, position as int, x);
        }
        i = i + 1;
    }
    proof {
        assert(values@.subrange(0, values@.len() as int) == values@);
    }
    sorted
}

/// Compares two index lists in the order of `indices_less`.
pub fn is_indices_less(a: &[usize], b: &[usize]) -> (less: bool)
    ensures
        less == indices_less(a@, b@),
{
    let mut k: usize = 0;
    while k < a.len() && k < b.len()
        invariant
            k <= a@.len(),
            k <= b@.len(),
            forall|j: int| 0 <= j < k ==> a@[j] == b@[j],
        decreases a@.len() - k,
    {
        if a[k] != b[k] {
            let less = a[k] < b[k];
            proof {
                if !less && lex_less(a@, b@) {
                    let m = choose|m: int|
                        0 <= m < a@.len() && m < b@.len() && a@[m] < b@[m] && forall|j: int|
                            0 <= j < m ==> #[trigger] a@[j] == b@[j];
                    if m > k {
                        assert(a@[k as int] == b@[k as int]);
                    }
                    assert(false);
                }
                if !less && a@.len() < b@.len() && a@ == b@.subrange(0, a@.len() as int) {
                    assert(a@[k as int] == b@.subrange(0, a@.len() as int)[k as int]);
                }
                if less {
                    assert(forall|j: int| 0 <= j < k ==> #[trigger] a@[j] == b@[j]);
                    assert(lex_less(a@, b@));
                }
            }
            return less;
        }
        k = k + 1;
    }
    proof {
        if lex_less(a@, b@) {
            let m = choose|m: int|
                0 <= m < a@.len() && m < b@.len() && a@[m] < b@[m] && forall|j: int|
                    0 <= j < m ==> #[trigger] a@[j] == b@[j];
            assert(a@[m] == b@[m]);
            assert(false);
        }
        if a@.len() < b@.len() {
            assert(a@ =~= b@.subrange(0, a@.len() as int));
        }
    }
    a.len() < b.len()
}

/// How a candidate's score compares with the best so far, within the selector's tolerance.
#[derive(Clone, Copy, Debug, PartialEq, Eq, Structural)]
pub enum ScoreOrder {
    Better,
    Tie,
    Worse,
}

/// Whether a candidate combination replaces the best so far: a better score wins; on a tie,
/// the smaller list of increasing stable indices wins, so the choice never depends on the
/// order in which candidates are visited.
pub fn candidate_replaces(order: ScoreOrder, candidate: &[usize], current: &[usize]) -> (replaces: bool)
    ensures
        replaces == (order == ScoreOrder::Better || (order == ScoreOrder::Tie && indices_less(candidate@, current@))),
{
    match order {
        ScoreOrder::Better => true,
        ScoreOrder::Tie => is_indices_less(candidate, current),
        ScoreOrder::Worse => false,
    }
}

/// `a` and `b` hold the same indices below position `n`.
pub open spec fn agree_below(a: Seq<usize>, b: Seq<usize>, n: int) -> bool {
    forall|j: int| 0 <= j < n ==> #[trigger] a[j] == b[j]
}

/// Position `k` is where `a` and `b` first differ.
pub open spec fn first_difference_at(a: Seq<usize>, b: Seq<usize>, k: int) -> bool {
    0 <= k < a.len() && k < b.len() && a[k] != b[k] && agree_below(a, b, k)
}

/// Two index lists either first differ somewhere or agree on their common length.
proof fn lemma_difference_or_prefix(a: Seq<usize>, b: Seq<usize>, i: int)
    requires
        0 <= i,
        agree_below(a, b, i),
    ensures
        (exists|k: int| #[trigger] first_difference_at(a, b, k)) || agree_below(
            a,
            b,
            if a.len() < b.len() { a.len() as int } else { b.len() as int },
        ),
    decreases a.len() - i,
{
    let n = if a.len() < b.len() { a.len() as int } else { b.len() as int };
    if i >= n {
        assert(agree_below(a, b, n));
    } else if a[i] != b[i] {
        assert(first_difference_at(a, b, i));
    } else {
        lemma_difference_or_prefix(a, b, i + 1);
    }
}

/// At the first difference, the smaller index decides the order.
proof fn lemma_order_at_difference(a: Seq<usize>, b: Seq<usize>, k: int)
    requires
        first_difference_at(a, b, k),
    ensures
        indices_less(a, b) <==> a[k] < b[k],
        indices_less(b, a) <==> b[k] < a[k],
{
    if lex_less(a, b) {
        let m = choose|m: int| 0 <= m < a.len() && m < b.len() && a[m] < b[m] && forall|j: int| 0 <= j < m ==> #[trigger] a[j] == b[j];
        if m > k {
            assert(a[k] == b[k]);
        }
        if m < k {
            assert(a[m] == b[m]);
        }
    }
    if lex_less(b, a) {
        let m = choose|m: int| 0 <= m < b.len() && m < a.len() && b[m] < a[m] && forall|j: int| 0 <= j < m ==> #[trigger] b[j] == a[j];
        if m > k {
            assert(b[k] == a[k]);
        }
        if m < k {
            assert(a[m] == b[m]);
        }
    }
    if a.len() < b.len() && a == b.subrange(0, a.len() as int) {
        assert(a[k] == b.subrange(0, a.len() as int)[k]);
    }
    if b.len() < a.len() && b == a.subrange(0, b.len() as int) {
        assert(b[k] == a.subrange(0, b.len() as int)[k]);
    }
    if a[k] < b[k] {
        assert(lex_less(a, b));
    }
    if b[k] < a[k] {
        assert forall|j: int| 0 <= j < k implies #[trigger] b[j] == a[j] by {
            assert(a[j] == b[j]);
        }
        assert(lex_less(b, a));
    }
}

/// Lists that agree on their common length are ordered by length.
proof fn lemma_order_of_prefixes(a: Seq<usize>, b: Seq<usize>)
    requires
        agree_below(a, b, if a.len() < b.len() { a.len() as int } else { b.len() as int }),
    ensures
        indices_less(a, b) <==> a.len() < b.len(),
        indices_less(b, a) <==> b.len() < a.len(),
{
    if lex_less(a, b) {
        let m = choose|m: int| 0 <= m < a.len() && m < b.len() && a[m] < b[m] && forall|j: int| 0 <= j < m ==> #[trigger] a[j] == b[j];
        assert(a[m] == b[m]);
    }
    if lex_less(b, a) {
        let m = choose|m: int| 0 <= m < b.len() && m < a.len() && b[m] < a[m] && forall|j: int| 0 <= j < m ==> #[trigger] b[j] == a[j];
        assert(a[m] == b[m]);
    }
    if a.len() < b.len() {
        assert(a =~= b.subrange(0, a.len() as int));
    }
    if b.len() < a.len() {
        assert forall|j: int| 0 <= j < b.len() implies b[j] == #[trigger] a.subrange(0, b.len() as int)[j] by {
            assert(a[j] == b[j]);
        }
        assert(b =~= a.subrange(0, b.len() as int));
    }
}

/// How `a` and `b` compare: through their first difference, or by length.
proof fn lemma_compare(a: Seq<usize>, b: Seq<usize>) -> (k: Option<int>)
    ensures
        match k {
            Some(k) => first_difference_at(a, b, k) && (indices_less(a, b) <==> a[k] < b[k]) && (indices_less(b, a)
                <==> b[k] < a[k]),
            None => agree_below(a, b, if a.len() < b.len() { a.len() as int } else { b.len() as int })
                && (indices_less(a, b) <==> a.len() < b.len()) && (indices_less(b, a) <==> b.len() < a.len()),
        },
{
    lemma_difference_or_prefix(a, b, 0);
    if exists|k: int| #[trigger] first_difference_at(a, b, k) {
        let k = choose|k: int| #[trigger] first_difference_at(a, b, k);
        lemma_order_at_difference(a, b, k);
        Some(k)
    } else {
        lemma_order_of_prefixes(a, b);
        None
    }
}

/// Law: the order of index lists is a strict total order (irreflexive, asymmetric,
/// transitive, and any two different lists are ordered), so among tied candidates exactly one
/// list is smallest, whatever order the candidates come in.
pub proof fn lemma_indices_less_strict_total_order(a: Seq<usize>, b: Seq<usize>, c: Seq<usize>)
    ensures
        !indices_less(a, a),
        indices_less(a, b) ==> !indices_less(b, a),
        indices_less(a, b) && indices_less(b, c) ==> indices_less(a, c),
        a != b ==> indices_less(a, b) || indices_less(b, a),
{
    let ab = lemma_compare(a, b);
    let bc = lemma_compare(b, c);
    let ac = lemma_compare(a, c);
    lemma_compare(a, a);
    if a != b && ab is None {
        if a.len() == b.len() {
            assert(a =~= b);
        }
    }
    if indices_less(a, b) && indices_less(b, c) {
        match (ab, bc) {
            (Some(d1), Some(d2)) => {
                let d = if d1 <= d2 { d1 } else { d2 };
                assert(agree_below(a, c, d)) by {
                    assert forall|j: int| 0 <= j < d implies #[trigger] a[j] == c[j] by {
                        assert(a[j] == b[j]);
                        assert(b[j] == c[j]);
                    }
                }
                if d1 < d2 {
                    assert(b[d1] == c[d1]);
                } else if d2 < d1 {
                    assert(a[d2] == b[d2]);
                }
                assert(first_difference_at(a, c, d));
                lemma_order_at_difference(a, c, d);
            },
            (Some(d1), None) => {
                assert(b[d1] == c[d1]);
                assert(agree_below(a, c, d1)) by {
                    assert forall|j: int| 0 <= j < d1 implies #[trigger] a[j] == c[j] by {
                        assert(a[j] == b[j]);
                        assert(b[j] == c[j]);
                    }
                }
                assert(first_difference_at(a, c, d1));
                lemma_order_at_difference(a, c, d1);
            },
            (None, Some(d2)) => {
                if d2 < a.len() {
                    assert(a[d2] == b[d2]);
                    assert(agree_below(a, c, d2)) by {
                        assert forall|j: int| 0 <= j < d2 implies #[trigger] a[j] == c[j] by {
                            assert(a[j] == b[j]);
                            assert(b[j] == c[j]);
                        }
                    }
                    assert(first_difference_at(a, c, d2));
                    lemma_order_at_difference(a, c, d2);
                } else {
                    assert(agree_below(a, c, a.len() as int)) by {
                        assert forall|j: int| 0 <= j < a.len() implies #[trigger] a[j] == c[j] by {
                            assert(a[j] == b[j]);
                            assert(b[j] == c[j]);
                        }
                    }
                    lemma_order_of_prefixes(a, c);
                }
            },
            (None, None) => {
                assert(agree_below(a, c, a.len() as int)) by {
                    assert forall|j: int| 0 <= j < a.len() implies #[trigger] a[j] == c[j] by {
                        assert(a[j] == b[j]);
                        assert(b[j] == c[j]);
                    }
                }
                lemma_order_of_prefixes(a, c);
            },
        }
    }
}

} // verus!
