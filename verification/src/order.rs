//! The order in which certificates are lined up before they are compared:
//! byte strings in lexicographic order.

use vstd::prelude::*;
use vstd::relations::{sorted_by, total_ordering};
use vstd::seq_lib::to_multiset_insert;

verus! {

/// `a` comes no later than `b` in lexicographic order: at the first position
/// where they differ `a` holds the smaller byte, or `a` is a prefix of `b`.
pub open spec fn lex_le(a: Seq<u8>, b: Seq<u8>) -> bool
    decreases a.len(),
{
    if a.len() == 0 {
        true
    } else if b.len() == 0 {
        false
    } else if a[0] != b[0] {
        a[0] < b[0]
    } else {
        lex_le(a.drop_first(), b.drop_first())
    }
}

/// [`lex_le`] as a relation.
pub open spec fn lex_order() -> spec_fn(Seq<u8>, Seq<u8>) -> bool {
    |a: Seq<u8>, b: Seq<u8>| lex_le(a, b)
}

pub proof fn lemma_lex_le_reflexive(a: Seq<u8>)
    ensures
        lex_le(a, a),
    decreases a.len(),
{
    if a.len() > 0 {
        lemma_lex_le_reflexive(a.drop_first());
    }
}

pub proof fn lemma_lex_le_antisymmetric(a: Seq<u8>, b: Seq<u8>)
    requires
        lex_le(a, b),
        lex_le(b, a),
    ensures
        a == b,
    decreases a.len(),
{
    if a.len() == 0 || b.len() == 0 {
        assert(a =~= b);
    } else {
        lemma_lex_le_antisymmetric(a.drop_first(), b.drop_first());
        assert(a =~= seq![a[0]] + a.drop_first());
        assert(b =~= seq![b[0]] + b.drop_first());
    }
}

pub proof fn lemma_lex_le_transitive(a: Seq<u8>, b: Seq<u8>, c: Seq<u8>)
    requires
        lex_le(a, b),
        lex_le(b, c),
    ensures
        lex_le(a, c),
    decreases a.len(),
{
    if a.len() > 0 && a[0] == b[0] && b[0] == c[0] {
        lemma_lex_le_transitive(a.drop_first(), b.drop_first(), c.drop_first());
    }
}

pub proof fn lemma_lex_le_connected(a: Seq<u8>, b: Seq<u8>)
    ensures
        lex_le(a, b) || lex_le(b, a),
    decreases a.len(),
{
    if a.len() > 0 && b.len() > 0 && a[0] == b[0] {
        lemma_lex_le_connected(a.drop_first(), b.drop_first());
    }
}

/// Lexicographic order is a total order on byte strings.
pub proof fn lemma_lex_order_total()
    ensures
        total_ordering(lex_order()),
{
    let r = lex_order();
    assert forall|x: Seq<u8>| #[trigger] r(x, x) by {
        lemma_lex_le_reflexive(x);
    }
    assert forall|x: Seq<u8>, y: Seq<u8>| #[trigger] r(x, y) && #[trigger] r(y, x) implies x
        == y by {
        lemma_lex_le_antisymmetric(x, y);
    }
    assert forall|x: Seq<u8>, y: Seq<u8>, z: Seq<u8>| #[trigger]
        r(x, y) && #[trigger] r(y, z) implies r(x, z) by {
        lemma_lex_le_transitive(x, y, z);
    }
    assert forall|x: Seq<u8>, y: Seq<u8>| #[trigger] r(x, y) || #[trigger] r(y, x) by {
        lemma_lex_le_connected(x, y);
    }
}

/// Decides [`lex_le`].
pub fn lex_le_bytes(a: &[u8], b: &[u8]) -> (le: bool)
    ensures
        le == lex_le(a@, b@),
{
    let mut i: usize = 0;
    proof {
        assert(a@.skip(0) =~= a@);
        assert(b@.skip(0) =~= b@);
    }
    while i < a.len() && i < b.len()
        invariant
            i <= a@.len(),
            i <= b@.len(),
            lex_le(a@, b@) == lex_le(a@.skip(i as int), b@.skip(i as int)),
        decreases a@.len() - i,
    {
        let x = a[i];
        let y = b[i];
        proof {
            let ra = a@.skip(i as int);
            let rb = b@.skip(i as int);
            assert(ra[0] == x && rb[0] == y);
            assert(ra.drop_first() =~= a@.skip(i + 1));
            assert(rb.drop_first() =~= b@.skip(i + 1));
        }
        if x != y {
            return x < y;
        }
        i = i + 1;
    }
    i == a.len()
}

/// Decides whether `a` and `b` hold the same bytes.
pub fn same_bytes(a: &[u8], b: &[u8]) -> (same: bool)
    ensures
        same == (a@ == b@),
{
    if a.len() != b.len() {
        return false;
    }
    let mut i: usize = 0;
    while i < a.len()
        invariant
            i <= a@.len(),
            a@.len() == b@.len(),
            forall|k: int| 0 <= k < i ==> a@[k] == b@[k],
        decreases a@.len() - i,
    {
        if a[i] != b[i] {
            return false;
        }
        i = i + 1;
    }
    assert(a@ =~= b@);
    true
}

/// The byte strings that `items` refer to.
pub open spec fn contents(items: Seq<&[u8]>) -> Seq<Seq<u8>> {
    Seq::new(items.len(), |i: int| items[i]@)
}

/// Inserting a reference inserts the byte string it refers to.
proof fn lemma_contents_insert(items: Seq<&[u8]>, at: int, item: &[u8])
    requires
        0 <= at <= items.len(),
    ensures
        contents(items.insert(at, item)) == contents(items).insert(at, item@),
{
    assert(contents(items.insert(at, item)) =~= contents(items).insert(at, item@));
}

/// Lines `items` up in lexicographic order. Nothing is added or dropped:
/// the result holds the same byte strings, each as often as `items` does.
pub fn sorted<'a>(items: &Vec<&'a [u8]>) -> (out: Vec<&'a [u8]>)
    ensures
        sorted_by(contents(out@), lex_order()),
        contents(out@).to_multiset() == contents(items@).to_multiset(),
        out@.len() == items@.len(),
{
    let mut out: Vec<&'a [u8]> = Vec::new();
    let mut i: usize = 0;
    proof {
        assert(contents(items@.take(0)) =~= contents(out@));
    }
    while i < items.len()
        invariant
            i <= items@.len(),
            out@.len() == i,
            sorted_by(contents(out@), lex_order()),
            contents(out@).to_multiset() == contents(items@.take(i as int)).to_multiset(),
        decreases items@.len() - i,
    {
        let item: &'a [u8] = items[i];
        let mut at: usize = 0;
        while at < out.len() && !lex_le_bytes(item, out[at])
            invariant
                at <= out@.len(),
                forall|k: int| 0 <= k < at ==> !lex_le(item@, #[trigger] contents(out@)[k]),
            decreases out@.len() - at,
        {
            at = at + 1;
        }
        let ghost before = out@;
        out.insert(at, item);
        proof {
            let old_c = contents(before);
            let new_c = contents(out@);
            lemma_contents_insert(before, at as int, item);
            to_multiset_insert(old_c, at as int, item@);
            assert(items@.take(i + 1) =~= items@.take(i as int).push(items@[i as int]));
            assert(contents(items@.take(i + 1)) =~= contents(items@.take(i as int)).push(item@));
            vstd::seq_lib::to_multiset_build(contents(items@.take(i as int)), item@);
            assert forall|p: int, q: int| 0 <= p < q < new_c.len() implies #[trigger] lex_order()(
                new_c[p],
                new_c[q],
            ) by {
                if q < at {
                    assert(lex_order()(old_c[p], old_c[q]));
                } else if q == at {
                    assert(!lex_le(item@, old_c[p]));
                    lemma_lex_le_connected(item@, old_c[p]);
                } else if p < at {
                    assert(lex_order()(old_c[p], old_c[q - 1]));
                } else if p == at {
                    assert(lex_le(item@, old_c[at as int]));
                    if q - 1 > at {
                        assert(lex_order()(old_c[at as int], old_c[q - 1]));
                        lemma_lex_le_transitive(item@, old_c[at as int], old_c[q - 1]);
                    }
                } else {
                    assert(lex_order()(old_c[p - 1], old_c[q - 1]));
                }
            }
        }
        i = i + 1;
    }
    proof {
        assert(items@.take(i as int) =~= items@);
    }
    out
}

} // verus!
