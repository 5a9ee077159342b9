//! The order in which a panel's metadata items and blocks are shown:
//! highest priority first, then the latest, then by key.

use vstd::prelude::*;

use crate::panel::{MetadataBlock, MetadataBlockView, MetadataItem, MetadataItemView};
use vstd::string::StrSliceExecFns;

verus! {

broadcast use {vstd::string::group_string_axioms, vstd::seq_lib::group_to_multiset_ensures};

/// Whether `a` comes strictly before `b` in the order of Unicode scalar
/// values, character by character (a proper prefix comes first). For
/// UTF-8 text this is the order of the bytes, which `str`'s `Ord` uses.
pub open spec fn chars_lt(a: Seq<char>, b: Seq<char>) -> bool
    decreases a.len(),
{
    if a.len() == 0 {
        b.len() > 0
    } else if b.len() == 0 {
        false
    } else if a[0] != b[0] {
        (a[0] as u32) < (b[0] as u32)
    } else {
        chars_lt(a.drop_first(), b.drop_first())
    }
}

/// No text comes strictly before another that comes strictly before it.
pub proof fn lemma_chars_lt_asymmetric(a: Seq<char>, b: Seq<char>)
    ensures
        chars_lt(a, b) ==> !chars_lt(b, a),
    decreases a.len(),
{
    if a.len() > 0 && b.len() > 0 && a[0] == b[0] {
        lemma_chars_lt_asymmetric(a.drop_first(), b.drop_first());
    }
}

/// Whether `a` comes strictly before `b` in the order of Unicode scalar
/// values.
pub fn str_lt(a: &str, b: &str) -> (lt: bool)
    ensures
        lt == chars_lt(a@, b@),
{
    let n = a.unicode_len();
    let m = b.unicode_len();
    let mut i: usize = 0;
    proof {
        assert(a@.skip(0) =~= a@);
        assert(b@.skip(0) =~= b@);
    }
    while i < n && i < m
        invariant
            n == a@.len(),
            m == b@.len(),
            i <= n,
            i <= m,
            chars_lt(a@, b@) == chars_lt(a@.skip(i as int), b@.skip(i as int)),
        decreases n - i,
    {
        let x = a.get_char(i);
        let y = b.get_char(i);
        proof {
            assert(a@.skip(i as int)[0] == x);
            assert(b@.skip(i as int)[0] == y);
            assert(a@.skip(i as int).drop_first() =~= a@.skip(i + 1));
            assert(b@.skip(i as int).drop_first() =~= b@.skip(i + 1));
        }
        if x != y {
            return (x as u32) < (y as u32);
        }
        i = i + 1;
    }
    i == n && i < m
}

/// Whether item `a` is shown strictly before item `b`: a higher priority,
/// else a later timestamp, else a key that comes first.
pub open spec fn item_precedes(a: MetadataItemView, b: MetadataItemView) -> bool {
    a.priority > b.priority || (a.priority == b.priority && (a.timestamp > b.timestamp || (
    a.timestamp == b.timestamp && chars_lt(a.key, b.key))))
}

/// Whether block `a` is shown strictly before block `b`: a higher
/// priority, else a later timestamp, else a key that comes first.
pub open spec fn block_precedes(a: MetadataBlockView, b: MetadataBlockView) -> bool {
    a.priority > b.priority || (a.priority == b.priority && (a.timestamp > b.timestamp || (
    a.timestamp == b.timestamp && chars_lt(a.key, b.key))))
}

/// No item is shown strictly before the one in front of it.
pub open spec fn items_sorted(s: Seq<MetadataItemView>) -> bool {
    forall|i: int| 1 <= i < s.len() ==> !item_precedes(#[trigger] s[i], s[i - 1])
}

/// No block is shown strictly before the one in front of it.
pub open spec fn blocks_sorted(s: Seq<MetadataBlockView>) -> bool {
    forall|i: int| 1 <= i < s.len() ==> !block_precedes(#[trigger] s[i], s[i - 1])
}

fn item_before(a: &MetadataItem, b: &MetadataItem) -> (before: bool)
    ensures
        before == item_precedes(a@, b@),
{
    a.priority > b.priority || (a.priority == b.priority && (a.timestamp > b.timestamp || (
    a.timestamp == b.timestamp && str_lt(a.key.as_str(), b.key.as_str()))))
}

fn block_before(a: &MetadataBlock, b: &MetadataBlock) -> (before: bool)
    ensures
        before == block_precedes(a@, b@),
{
    a.priority > b.priority || (a.priority == b.priority && (a.timestamp > b.timestamp || (
    a.timestamp == b.timestamp && str_lt(a.key.as_str(), b.key.as_str()))))
}

/// The items in the order they are shown; items that compare equal keep
/// their order.
pub fn sort_items(items: Vec<MetadataItem>) -> (sorted: Vec<MetadataItem>)
    ensures
        items_sorted(sorted.deep_view()),
        sorted.deep_view().to_multiset() == items.deep_view().to_multiset(),
{
    let ghost orig = items.deep_view();
    let mut rest = items;
    let mut out: Vec<MetadataItem> = Vec::new();
    proof {
        assert(out.deep_view() =~= Seq::<MetadataItemView>::empty());
        assert(out.deep_view().to_multiset() =~= vstd::multiset::Multiset::empty());
    }
    while rest.len() > 0
        invariant
            items_sorted(out.deep_view()),
            out.deep_view().to_multiset().add(rest.deep_view().to_multiset()) == orig.to_multiset(),
        decreases rest.len(),
    {
        let ghost rv = rest.deep_view();
        let x = rest.remove(0);
        proof {
            assert(rest.deep_view() =~= rv.remove(0));
        }
        let ghost ov = out.deep_view();
        let mut j: usize = 0;
        let mut found = false;
        while !found && j < out.len()
            invariant
                j <= ov.len(),
                ov == out.deep_view(),
                forall|k: int| 0 <= k < j ==> !item_precedes(x@, #[trigger] ov[k]),
                found ==> j < ov.len() && item_precedes(x@, ov[j as int]),
            decreases out.len() - j, (if found { 0int } else { 1int }),
        {
            if item_before(&x, &out[j]) {
                found = true;
            } else {
                j = j + 1;
            }
        }
        let ghost xv = x@;
        out.insert(j, x);
        proof {
            let nv = out.deep_view();
            assert(nv =~= ov.insert(j as int, xv));
            assert(nv.remove(j as int) =~= ov);
            assert forall|i: int| 1 <= i < nv.len() implies !item_precedes(#[trigger] nv[i], nv[i - 1]) by {
                if i == j {
                    assert(nv[i - 1] == ov[i - 1]);
                } else if i == j + 1 {
                    assert(nv[i] == ov[j as int]);
                    lemma_chars_lt_asymmetric(xv.key, ov[j as int].key);
                } else if i < j {
                    assert(nv[i] == ov[i] && nv[i - 1] == ov[i - 1]);
                } else {
                    assert(nv[i] == ov[i - 1] && nv[i - 1] == ov[i - 2]);
                }
            }
            assert(nv.to_multiset() =~= ov.to_multiset().insert(xv));
            assert(rv.to_multiset() =~= rest.deep_view().to_multiset().insert(xv));
        }
    }
    proof {
        assert(rest.deep_view() =~= Seq::<MetadataItemView>::empty());
        assert(out.deep_view().to_multiset().add(rest.deep_view().to_multiset()) =~= out.deep_view().to_multiset());
    }
    out
}

/// The blocks in the order they are shown; blocks that compare equal keep
/// their order.
pub fn sort_blocks(blocks: Vec<MetadataBlock>) -> (sorted: Vec<MetadataBlock>)
    ensures
        blocks_sorted(sorted.deep_view()),
        sorted.deep_view().to_multiset() == blocks.deep_view().to_multiset(),
{
    let ghost orig = blocks.deep_view();
    let mut rest = blocks;
    let mut out: Vec<MetadataBlock> = Vec::new();
    proof {
        assert(out.deep_view() =~= Seq::<MetadataBlockView>::empty());
        assert(out.deep_view().to_multiset() =~= vstd::multiset::Multiset::empty());
    }
    while rest.len() > 0
        invariant
            blocks_sorted(out.deep_view()),
            out.deep_view().to_multiset().add(rest.deep_view().to_multiset()) == orig.to_multiset(),
        decreases rest.len(),
    {
        let ghost rv = rest.deep_view();
        let x = rest.remove(0);
        proof {
            assert(rest.deep_view() =~= rv.remove(0));
        }
        let ghost ov = out.deep_view();
        let mut j: usize = 0;
        let mut found = false;
        while !found && j < out.len()
            invariant
                j <= ov.len(),
                ov == out.deep_view(),
                forall|k: int| 0 <= k < j ==> !block_precedes(x@, #[trigger] ov[k]),
                found ==> j < ov.len() && block_precedes(x@, ov[j as int]),
            decreases out.len() - j, (if found { 0int } else { 1int }),
        {
            if block_before(&x, &out[j]) {
                found = true;
            } else {
                j = j + 1;
            }
        }
        let ghost xv = x@;
        out.insert(j, x);
        proof {
            let nv = out.deep_view();
            assert(nv =~= ov.insert(j as int, xv));
            assert(nv.remove(j as int) =~= ov);
            assert forall|i: int| 1 <= i < nv.len() implies !block_precedes(#[trigger] nv[i], nv[i - 1]) by {
                if i == j {
                    assert(nv[i - 1] == ov[i - 1]);
                } else if i == j + 1 {
                    assert(nv[i] == ov[j as int]);
                    lemma_chars_lt_asymmetric(xv.key, ov[j as int].key);
                } else if i < j {
                    assert(nv[i] == ov[i] && nv[i - 1] == ov[i - 1]);
                } else {
                    assert(nv[i] == ov[i - 1] && nv[i - 1] == ov[i - 2]);
                }
            }
            assert(nv.to_multiset() =~= ov.to_multiset().insert(xv));
            assert(rv.to_multiset() =~= rest.deep_view().to_multiset().insert(xv));
        }
    }
    proof {
        assert(rest.deep_view() =~= Seq::<MetadataBlockView>::empty());
        assert(out.deep_view().to_multiset().add(rest.deep_view().to_multiset()) =~= out.deep_view().to_multiset());
    }
    out
}

} // verus!
