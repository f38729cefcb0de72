//! Assembly: merging the text and the classified attachments into one
//! outbound message, with the attachments ordered ascending by their
//! declared size. An attachment without a declared size sorts before every
//! attachment with one — a fixed policy, chosen for determinism.

use vstd::prelude::*;

use crate::types::Attachment;
use crate::types::UnifiedMessage;

verus! {

/// The ordering key of an attachment: its declared size, with a missing
/// size below every declared one.
pub open spec fn size_key(a: Attachment) -> int {
    match a.file_size {
        None => -1,
        Some(s) => s as int,
    }
}

/// Non-decreasing by [`size_key`].
pub open spec fn sorted_by_size(s: Seq<Attachment>) -> bool {
    forall|i: int, j: int| 0 <= i < j < s.len() ==> size_key(s[i]) <= size_key(s[j])
}

/// The elements whose ordering key is exactly `k`.
pub open spec fn same_key(k: int) -> spec_fn(Attachment) -> bool {
    |a: Attachment| size_key(a) == k
}

/// The subsequence of attachments whose ordering key is `k`, in their
/// current order. Sorting leaves every such subsequence unchanged: the tie
/// break is stable.
pub open spec fn key_slice(s: Seq<Attachment>, k: int) -> Seq<Attachment> {
    s.filter(same_key(k))
}

/// A list in which no element has key `k` filters down to nothing.
proof fn lemma_key_slice_empty(s: Seq<Attachment>, k: int)
    requires
        forall|m: int| 0 <= m < s.len() ==> size_key(#[trigger] s[m]) != k,
    ensures
        key_slice(s, k) == Seq::<Attachment>::empty(),
    decreases s.len(),
{
    reveal(Seq::filter);
    if s.len() > 0 {
        lemma_key_slice_empty(s.drop_last(), k);
        assert(size_key(s.last()) != k);
    }
}

/// Moving one element left, past neighbours that all have a strictly
/// greater key, leaves every key's subsequence unchanged.
proof fn lemma_insertion_step_stable(before: Seq<Attachment>, i: int, j: int, new: Seq<Attachment>)
    requires
        0 <= j <= i < before.len(),
        new == before.remove(i).insert(j, before[i]),
        forall|m: int| j <= m < i ==> size_key(#[trigger] before[m]) > size_key(before[i]),
    ensures
        forall|k: int| #[trigger] key_slice(new, k) == key_slice(before, k),
{
    let x = before[i];
    let a = before.take(i);
    let b = before.skip(i + 1);
    assert(before =~= a + (seq![x] + b));
    assert(before.remove(i) =~= a + b);
    assert(new =~= a.take(j) + (seq![x] + (a.skip(j) + b)));
    assert(a =~= a.take(j) + a.skip(j));
    assert forall|k: int| #[trigger] key_slice(new, k) == key_slice(before, k) by {
        let p = same_key(k);
        Seq::filter_distributes_over_add(a.take(j), seq![x] + (a.skip(j) + b), p);
        Seq::filter_distributes_over_add(seq![x], a.skip(j) + b, p);
        Seq::filter_distributes_over_add(a.skip(j), b, p);
        Seq::filter_distributes_over_add(a, seq![x] + b, p);
        Seq::filter_distributes_over_add(seq![x], b, p);
        Seq::filter_distributes_over_add(a.take(j), a.skip(j), p);
        if k == size_key(x) {
            assert forall|m: int| 0 <= m < a.skip(j).len() implies size_key(
                #[trigger] a.skip(j)[m],
            ) != k by {
                assert(a.skip(j)[m] == before[j + m]);
            }
            lemma_key_slice_empty(a.skip(j), k);
            assert(key_slice(new, k) =~= key_slice(before, k));
        } else {
            lemma_key_slice_empty(seq![x], k);
            assert(key_slice(new, k) =~= key_slice(before, k));
        }
    }
}

/// Strictly greater by [`size_key`], decided in executable code.
fn size_gt(a: &Attachment, b: &Attachment) -> (r: bool)
    ensures
        r == (size_key(*a) > size_key(*b)),
{
    match (&a.file_size, &b.file_size) {
        (Some(x), Some(y)) => *x > *y,
        (Some(_), None) => true,
        _ => false,
    }
}

/// Sort attachments ascending by declared size: the same attachments, in an
/// order where a missing size comes first.
fn sort_by_size(attachments: Vec<Attachment>) -> (r: Vec<Attachment>)
    ensures
        sorted_by_size(r@),
        r@.to_multiset() == attachments@.to_multiset(),
        r@.len() == attachments@.len(),
        forall|k: int| #[trigger] key_slice(r@, k) == key_slice(attachments@, k),
{
    broadcast use vstd::seq_lib::group_to_multiset_ensures;
    broadcast use vstd::multiset::group_multiset_axioms;

    let mut v = attachments;
    let ghost orig = v@;
    if v.len() < 2 {
        return v;
    }
    let mut i: usize = 1;
    while i < v.len()
        invariant
            1 <= i <= v@.len(),
            v@.len() == orig.len(),
            v@.to_multiset() == orig.to_multiset(),
            forall|k: int| #[trigger] key_slice(v@, k) == key_slice(orig, k),
            sorted_by_size(v@.subrange(0, i as int)),
        decreases v@.len() - i,
    {
        let mut j: usize = i;
        while j > 0 && size_gt(&v[j - 1], &v[i])
            invariant
                0 <= j <= i < v@.len(),
                v@.len() == orig.len(),
                v@.to_multiset() == orig.to_multiset(),
                forall|k: int| #[trigger] key_slice(v@, k) == key_slice(orig, k),
                forall|m: int| j <= m < i ==> size_key(v@[m]) > size_key(v@[i as int]),
                sorted_by_size(v@.subrange(0, i as int)),
            decreases j,
        {
            j = j - 1;
        }
        let ghost before = v@;
        let ghost x = v@[i as int];
        let moved = v.remove(i);
        v.insert(j, moved);
        proof {
            assert(v@ == before.remove(i as int).insert(j as int, x));
            lemma_insertion_step_stable(before, i as int, j as int, v@);
            assert(0 <= i < before.len() && before[i as int] == x);
            assert(before.contains(x));
            vstd::seq_lib::to_multiset_contains(before, x);
            vstd::seq_lib::to_multiset_remove(before, i as int);
            vstd::seq_lib::to_multiset_insert(before.remove(i as int), j as int, x);
            assert(v@.to_multiset() =~= before.to_multiset());

            assert forall|m: int| 0 <= m < j implies v@[m] == before[m] by {}
            assert(v@[j as int] == x);
            assert forall|m: int| j < m <= i implies v@[m] == before[m - 1] by {}
            assert forall|p: int, q: int|
                0 <= p < q <= i implies #[trigger] size_key(v@.subrange(0, i as int + 1)[p])
                <= #[trigger] size_key(v@.subrange(0, i as int + 1)[q]) by {
                assert(v@.subrange(0, i as int + 1)[p] == v@[p]);
                assert(v@.subrange(0, i as int + 1)[q] == v@[q]);
                if q < j {
                    assert(size_key(before[p]) <= size_key(before[q]));
                } else if q == j {
                    assert(p < j);
                    assert(size_key(before[p]) <= size_key(before[j - 1]));
                    assert(size_key(before[j - 1]) <= size_key(x));
                } else {
                    assert(size_key(v@[q]) == size_key(before[q - 1]));
                    if p < j {
                        assert(size_key(before[p]) <= size_key(before[q - 1]));
                    } else if p == j {
                        assert(size_key(x) <= size_key(before[q - 1]));
                    } else {
                        assert(size_key(before[p - 1]) <= size_key(before[q - 1]));
                    }
                }
            }
            assert(sorted_by_size(v@.subrange(0, i as int + 1)));
        }
        i = i + 1;
    }
    proof {
        assert(v@.subrange(0, v@.len() as int) =~= v@);
    }
    v
}

/// Assemble the outbound message: the text is carried over verbatim (absent
/// stays absent), and the attachments are exactly the classified ones,
/// reordered ascending by declared size with missing sizes first.
pub fn assemble(message_text: Option<String>, attachments: Vec<Attachment>) -> (r: UnifiedMessage)
    ensures
        r.message_text == message_text,
        sorted_by_size(r.attachments@),
        r.attachments@.to_multiset() == attachments@.to_multiset(),
        r.attachments@.len() == attachments@.len(),
        forall|k: int| #[trigger] key_slice(r.attachments@, k) == key_slice(attachments@, k),
{
    let sorted = sort_by_size(attachments);
    UnifiedMessage { attachments: sorted, message_text }
}

/// Law: in a sorted attachment list, every attachment without a declared
/// size stands before every attachment with one.
pub proof fn lemma_missing_size_first(s: Seq<Attachment>, i: int, j: int)
    requires
        sorted_by_size(s),
        0 <= i < s.len(),
        0 <= j < s.len(),
        s[i].file_size is None,
        s[j].file_size is Some,
    ensures
        i < j,
{
    if j < i {
        assert(size_key(s[j]) <= size_key(s[i]));
    }
}

} // verus!
