//! Removing repeats from a sequence while keeping first-appearance order.
use vstd::prelude::*;

verus! {

/// The elements of `s` in the order in which each appears for the first
/// time: every later repeat of an element is left out.
pub open spec fn first_occurrences<A>(s: Seq<A>) -> Seq<A>
    decreases s.len(),
{
    if s.len() == 0 {
        Seq::empty()
    } else {
        let before = first_occurrences(s.drop_last());
        if before.contains(s.last()) {
            before
        } else {
            before.push(s.last())
        }
    }
}

/// `k` is the place where `x` appears in `s` for the first time.
pub open spec fn is_first_position<A>(s: Seq<A>, x: A, k: int) -> bool {
    &&& 0 <= k < s.len()
    &&& s[k] == x
    &&& forall|j: int| 0 <= j < k ==> s[j] != x
}

/// Appending one element to the input appends it to the output exactly when
/// the output does not hold it yet.
pub proof fn lemma_first_occurrences_push<A>(s: Seq<A>, x: A)
    ensures
        first_occurrences(s.push(x)) == if first_occurrences(s).contains(x) {
            first_occurrences(s)
        } else {
            first_occurrences(s).push(x)
        },
{
    assert(s.push(x).drop_last() =~= s);
}

/// Removing repeats never yields more elements than it was given.
pub proof fn lemma_first_occurrences_len<A>(s: Seq<A>)
    ensures
        first_occurrences(s).len() <= s.len(),
    decreases s.len(),
{
    if s.len() > 0 {
        lemma_first_occurrences_len(s.drop_last());
    }
}

/// Removing repeats keeps every element that occurs and adds none.
pub proof fn lemma_first_occurrences_elements<A>(s: Seq<A>)
    ensures
        forall|x: A|
            #![trigger first_occurrences(s).contains(x)]
            #![trigger s.contains(x)]
            first_occurrences(s).contains(x) <==> s.contains(x),
    decreases s.len(),
{
    if s.len() > 0 {
        let front = s.drop_last();
        let out = first_occurrences(s);
        let before = first_occurrences(front);
        lemma_first_occurrences_elements(front);
        assert forall|x: A| out.contains(x) <==> s.contains(x) by {
            if out.contains(x) {
                let i = choose|i: int| 0 <= i < out.len() && out[i] == x;
                if i < before.len() {
                    assert(before[i] == x);
                    assert(before.contains(x));
                    let k = choose|k: int| 0 <= k < front.len() && front[k] == x;
                    assert(s[k] == x);
                } else {
                    assert(s[s.len() - 1] == x);
                }
            }
            if s.contains(x) {
                let k = choose|k: int| 0 <= k < s.len() && s[k] == x;
                if k < front.len() {
                    assert(front[k] == x);
                    assert(front.contains(x));
                    let i = choose|i: int| 0 <= i < before.len() && before[i] == x;
                    assert(out[i] == x);
                } else if !before.contains(x) {
                    assert(out[out.len() - 1] == x);
                }
            }
        }
    }
}

/// After removing repeats no element occurs twice.
pub proof fn lemma_first_occurrences_no_duplicates<A>(s: Seq<A>)
    ensures
        first_occurrences(s).no_duplicates(),
    decreases s.len(),
{
    if s.len() > 0 {
        lemma_first_occurrences_no_duplicates(s.drop_last());
    }
}

/// The output is ordered as the input is: of two elements of the output, the
/// one that stands earlier is the one that appears earlier in the input for
/// the first time.
pub proof fn lemma_first_occurrences_order<A>(s: Seq<A>, i: int, j: int, a: int, b: int)
    requires
        0 <= i < j < first_occurrences(s).len(),
        is_first_position(s, first_occurrences(s)[i], a),
        is_first_position(s, first_occurrences(s)[j], b),
    ensures
        a < b,
    decreases s.len(),
{
    let front = s.drop_last();
    let out = first_occurrences(s);
    let before = first_occurrences(front);
    lemma_first_occurrences_elements(front);
    assert(before.contains(out[i]));
    let ka = choose|k: int| 0 <= k < front.len() && front[k] == out[i];
    assert(s[ka] == out[i]);
    assert(is_first_position(front, before[i], a));
    if j < before.len() {
        assert(before.contains(out[j]));
        let kb = choose|k: int| 0 <= k < front.len() && front[k] == out[j];
        assert(s[kb] == out[j]);
        assert(is_first_position(front, before[j], b));
        lemma_first_occurrences_order(front, i, j, a, b);
    } else {
        assert(!front.contains(out[j]));
        if b < front.len() {
            assert(front[b] == out[j]);
        }
    }
}

} // verus!
