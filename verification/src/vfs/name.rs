//! The order of file names: byte by byte, as strings are ordered.

use vstd::prelude::*;

verus! {

/// `a` comes before `b` in the order of strings: at the first byte where
/// the two differ `a` has the smaller one, or `a` ends there and `b` goes
/// on.
pub open spec fn spec_less(a: Seq<u8>, b: Seq<u8>) -> bool
    decreases a.len(),
{
    if b.len() == 0 {
        false
    } else if a.len() == 0 {
        true
    } else if a[0] != b[0] {
        a[0] < b[0]
    } else {
        spec_less(a.drop_first(), b.drop_first())
    }
}

/// Nothing comes before itself.
pub proof fn lemma_less_irreflexive(a: Seq<u8>)
    ensures
        !spec_less(a, a),
    decreases a.len(),
{
    if a.len() > 0 {
        lemma_less_irreflexive(a.drop_first());
    }
}

/// Of two different names one comes before the other, and never both.
pub proof fn lemma_less_total(a: Seq<u8>, b: Seq<u8>)
    ensures
        a != b ==> spec_less(a, b) || spec_less(b, a),
        !(spec_less(a, b) && spec_less(b, a)),
    decreases a.len(),
{
    if a.len() == 0 || b.len() == 0 {
        if a.len() == 0 && b.len() == 0 {
            assert(a =~= b);
        }
    } else if a[0] == b[0] {
        lemma_less_total(a.drop_first(), b.drop_first());
        if a.drop_first() == b.drop_first() {
            assert(a =~= seq![a[0]] + a.drop_first());
            assert(b =~= seq![b[0]] + b.drop_first());
        }
    }
}

/// The order is transitive.
pub proof fn lemma_less_transitive(a: Seq<u8>, b: Seq<u8>, c: Seq<u8>)
    requires
        spec_less(a, b),
        spec_less(b, c),
    ensures
        spec_less(a, c),
    decreases a.len(),
{
    if a.len() > 0 && a[0] == b[0] && b[0] == c[0] {
        lemma_less_transitive(a.drop_first(), b.drop_first(), c.drop_first());
    }
}

/// Whether `a` comes before `b` in the order of strings.
pub fn less(a: &[u8], b: &[u8]) -> (before: bool)
    ensures
        before == spec_less(a@, b@),
{
    let mut i: usize = 0;
    proof {
        assert(a@.skip(0) =~= a@);
        assert(b@.skip(0) =~= b@);
    }
    while i < a.len() && i < b.len()
        invariant
            i <= a@.len(),
            i <= b@.len(),
            spec_less(a@, b@) == spec_less(a@.skip(i as int), b@.skip(i as int)),
        decreases a@.len() - i,
    {
        proof {
            assert(a@.skip(i as int)[0] == a@[i as int]);
            assert(b@.skip(i as int)[0] == b@[i as int]);
            assert(a@.skip(i as int).drop_first() =~= a@.skip(i + 1));
            assert(b@.skip(i as int).drop_first() =~= b@.skip(i + 1));
        }
        if a[i] != b[i] {
            return a[i] < b[i];
        }
        i = i + 1;
    }
    i < b.len()
}

/// Place of a name among the entries of a directory: the directory itself
/// first, its parent second, every other name after these.
pub open spec fn spec_rank(name: Seq<u8>) -> int {
    if name == seq![46u8] {
        0
    } else if name == seq![46u8, 46u8] {
        1
    } else {
        2
    }
}

/// `a` comes before `b` among the entries of a directory: by rank first,
/// by the order of strings within a rank.
pub open spec fn spec_entry_less(a: Seq<u8>, b: Seq<u8>) -> bool {
    spec_rank(a) < spec_rank(b) || (spec_rank(a) == spec_rank(b) && spec_less(a, b))
}

/// Place of a name among the entries of a directory.
pub fn rank(name: &[u8]) -> (r: u8)
    ensures
        r == spec_rank(name@),
{
    if name.len() == 1 && name[0] == 46 {
        assert(name@ =~= seq![46u8]);
        0
    } else if name.len() == 2 && name[0] == 46 && name[1] == 46 {
        assert(name@ =~= seq![46u8, 46u8]);
        1
    } else {
        proof {
            if name@ == seq![46u8] {
                assert(name@.len() == 1 && name@[0] == 46u8);
            }
            if name@ == seq![46u8, 46u8] {
                assert(name@.len() == 2 && name@[0] == 46u8 && name@[1] == 46u8);
            }
        }
        2
    }
}

/// Whether `a` comes before `b` among the entries of a directory.
pub fn entry_less(a: &[u8], b: &[u8]) -> (before: bool)
    ensures
        before == spec_entry_less(a@, b@),
{
    let ra = rank(a);
    let rb = rank(b);
    if ra != rb {
        ra < rb
    } else {
        less(a, b)
    }
}

} // verus!
