use vstd::prelude::*;

verus! {

/// The blocks of text laid end to end, in order.
pub open spec fn concat_all(blocks: Seq<Seq<char>>) -> Seq<char>
    decreases blocks.len(),
{
    if blocks.len() == 0 {
        Seq::empty()
    } else {
        concat_all(blocks.drop_last()) + blocks.last()
    }
}

/// Whether `s` begins with `p`.
pub open spec fn starts_with(s: Seq<char>, p: Seq<char>) -> bool {
    p.len() <= s.len() && s.subrange(0, p.len() as int) == p
}

/// Whether `p` occurs in `s` as a contiguous piece.
pub open spec fn contains(s: Seq<char>, p: Seq<char>) -> bool {
    exists|k: int| 0 <= k && k + p.len() <= s.len() && #[trigger] s.subrange(k, k + p.len()) == p
}

/// Extending a prefix of the blocks by one block appends that block.
pub proof fn lemma_concat_all_take_push(blocks: Seq<Seq<char>>, i: int)
    requires
        0 <= i < blocks.len(),
    ensures
        concat_all(blocks.take(i + 1)) == concat_all(blocks.take(i)) + blocks[i],
{
    assert(blocks.take(i + 1).drop_last() =~= blocks.take(i));
}

/// A piece that follows a known prefix starts at the prefix's length.
pub proof fn lemma_contains_middle(a: Seq<char>, b: Seq<char>, c: Seq<char>)
    ensures
        contains(a + b + c, b),
{
    let s = a + b + c;
    assert(s.subrange(a.len() as int, (a.len() + b.len()) as int) =~= b);
}

/// `a` and `b` hold the same characters at every position below `k`.
pub open spec fn agree_below(a: Seq<char>, b: Seq<char>, k: int) -> bool {
    forall|j: int| 0 <= j < k ==> a[j] == b[j]
}

/// At position `k`, `a` ends while `b` goes on, or `a` holds the smaller
/// code point.
pub open spec fn smaller_at(a: Seq<char>, b: Seq<char>, k: int) -> bool {
    (k == a.len() && k < b.len()) || (k < a.len() && k < b.len() && (a[k] as u32) < (b[k] as u32))
}

/// `a` comes strictly before `b` in lexicographic order of code points.
pub open spec fn name_lt(a: Seq<char>, b: Seq<char>) -> bool {
    exists|k: int| 0 <= k <= a.len() && k <= b.len() && agree_below(a, b, k) && #[trigger] smaller_at(a, b, k)
}

/// Names in strictly ascending order, so no name occurs twice.
pub open spec fn strictly_ascending(names: Seq<Seq<char>>) -> bool {
    forall|i: int, j: int| 0 <= i < j < names.len() ==> name_lt(#[trigger] names[i], #[trigger] names[j])
}

/// No name comes before itself.
pub proof fn lemma_name_lt_irreflexive(a: Seq<char>)
    ensures
        !name_lt(a, a),
{
}

/// The order of names is transitive.
pub proof fn lemma_name_lt_transitive(a: Seq<char>, b: Seq<char>, c: Seq<char>)
    requires
        name_lt(a, b),
        name_lt(b, c),
    ensures
        name_lt(a, c),
{
    let k1 = choose|k: int| 0 <= k <= a.len() && k <= b.len() && agree_below(a, b, k) && #[trigger] smaller_at(a, b, k);
    let k2 = choose|k: int| 0 <= k <= b.len() && k <= c.len() && agree_below(b, c, k) && #[trigger] smaller_at(b, c, k);
    let k = if k1 <= k2 { k1 } else { k2 };
    assert(agree_below(a, c, k));
    assert(smaller_at(a, c, k));
}

/// Compares two names by `name_lt`.
pub fn name_less(a: &str, b: &str) -> (r: bool)
    ensures
        r == name_lt(a@, b@),
{
    let la = a.unicode_len();
    let lb = b.unicode_len();
    let mut i: usize = 0;
    while i < la && i < lb
        invariant
            la == a@.len(),
            lb == b@.len(),
            i <= la,
            i <= lb,
            agree_below(a@, b@, i as int),
        decreases la - i,
    {
        let ca = a.get_char(i);
        let cb = b.get_char(i);
        if ca != cb {
            if (ca as u32) < (cb as u32) {
                assert(smaller_at(a@, b@, i as int));
                return true;
            }
            assert(!name_lt(a@, b@)) by {
                if name_lt(a@, b@) {
                    let k = choose|k: int|
                        0 <= k <= a@.len() && k <= b@.len() && agree_below(a@, b@, k) && #[trigger] smaller_at(a@, b@, k);
                    if k > i {
                        assert(a@[i as int] == b@[i as int]);
                    }
                }
            }
            return false;
        }
        i += 1;
    }
    if i < lb {
        assert(smaller_at(a@, b@, i as int));
        true
    } else {
        assert(!name_lt(a@, b@)) by {
            if name_lt(a@, b@) {
                let k = choose|k: int|
                    0 <= k <= a@.len() && k <= b@.len() && agree_below(a@, b@, k) && #[trigger] smaller_at(a@, b@, k);
                assert(k <= i);
            }
        }
        false
    }
}

} // verus!
