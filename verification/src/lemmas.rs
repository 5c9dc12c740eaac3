//! Facts about sequences and sets that the contracts of the repositories rest on.

use vstd::prelude::*;

verus! {

/// Taking one more element from the end of a sequence adds that element to
/// the set of the elements taken.
pub proof fn lemma_skip_one_less<A>(s: Seq<A>, n: int)
    requires
        0 < n <= s.len(),
    ensures
        s.skip(n - 1).to_set() == s.skip(n).to_set().insert(s[n - 1]),
{
    let long = s.skip(n - 1);
    let short = s.skip(n);
    assert forall|x: A| long.contains(x) <==> (short.contains(x) || x == s[n - 1]) by {
        if long.contains(x) {
            let j = choose|j: int| 0 <= j < long.len() && long[j] == x;
            if j > 0 {
                assert(short[j - 1] == x);
            }
        }
        if short.contains(x) {
            let j = choose|j: int| 0 <= j < short.len() && short[j] == x;
            assert(long[j + 1] == x);
        }
        if x == s[n - 1] {
            assert(long[0] == x);
        }
    }
    assert(long.to_set() =~= short.to_set().insert(s[n - 1]));
}

/// Pushing an element onto a sequence adds that element to the set of its
/// elements.
pub proof fn lemma_push_to_set<A>(s: Seq<A>, a: A)
    ensures
        s.push(a).to_set() == s.to_set().insert(a),
{
    let more = s.push(a);
    assert forall|x: A| more.contains(x) <==> (s.contains(x) || x == a) by {
        if more.contains(x) {
            let j = choose|j: int| 0 <= j < more.len() && more[j] == x;
            if j < s.len() {
                assert(s[j] == x);
            }
        }
        if s.contains(x) {
            let j = choose|j: int| 0 <= j < s.len() && s[j] == x;
            assert(more[j] == x);
        }
        if x == a {
            assert(more[s.len() as int] == x);
        }
    }
    assert(more.to_set() =~= s.to_set().insert(a));
}

} // verus!
