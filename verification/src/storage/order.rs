//! The order of a listing: directories before files, and each group by name
//! without regard to case.

use crate::storage::types::{entry_views, DirectoryListing, StorageEntry, StorageEntryView};
use vstd::prelude::*;

verus! {

/// Whether the text `a` stands before the text `b` in the order of a
/// dictionary that goes by code points: at the first place where the two
/// differ `a` has the smaller character, or `a` ends there and `b` goes on.
pub open spec fn text_less(a: Seq<char>, b: Seq<char>) -> bool
    decreases a.len(),
{
    if b.len() == 0 {
        false
    } else if a.len() == 0 {
        true
    } else if a[0] != b[0] {
        (a[0] as u32) < (b[0] as u32)
    } else {
        text_less(a.drop_first(), b.drop_first())
    }
}

/// No text stands before itself.
pub proof fn lemma_text_less_irreflexive(a: Seq<char>)
    ensures
        !text_less(a, a),
    decreases a.len(),
{
    if a.len() > 0 {
        lemma_text_less_irreflexive(a.drop_first());
    }
}

/// The order of texts is transitive.
pub proof fn lemma_text_less_transitive(a: Seq<char>, b: Seq<char>, c: Seq<char>)
    requires
        text_less(a, b),
        text_less(b, c),
    ensures
        text_less(a, c),
    decreases a.len(),
{
    if a.len() > 0 && a[0] == b[0] && b[0] == c[0] {
        lemma_text_less_transitive(a.drop_first(), b.drop_first(), c.drop_first());
    }
}

/// The text `s` in lower case, as `str::to_lowercase` gives it.
pub uninterp spec fn lowercase_of(s: Seq<char>) -> Seq<char>;

/// `str::to_lowercase`: the text with each character in lower case, by the
/// rules of Unicode. The result depends on the text alone.
#[verifier::external_body]
pub(crate) fn lowercase(s: &str) -> (r: String)
    ensures
        r@ == lowercase_of(s@),
{
    s.to_lowercase()
}

/// The characters of a text, one by one.
fn chars_of(s: &str) -> (r: Vec<char>)
    ensures
        r@ == s@,
{
    let mut out: Vec<char> = Vec::new();
    for c in it: s.chars()
        invariant
            it.seq() == s@,
            out@ == it.seq().take(it.index() as int),
    {
        out.push(c);
        assert(out@ =~= it.seq().take(it.index() + 1));
    }
    assert(out@ =~= s@);
    out
}

/// Tests whether the text `a` stands before the text `b` in the order of a
/// dictionary that goes by code points.
pub fn text_before(a: &str, b: &str) -> (r: bool)
    ensures
        r == text_less(a@, b@),
{
    let x = chars_of(a);
    let y = chars_of(b);
    let mut i: usize = 0;
    assert(x@.skip(0) =~= x@ && y@.skip(0) =~= y@);
    while i < x.len() && i < y.len()
        invariant
            x@ == a@,
            y@ == b@,
            i <= x@.len(),
            i <= y@.len(),
            text_less(x@, y@) == text_less(x@.skip(i as int), y@.skip(i as int)),
        decreases x@.len() - i,
    {
        let ghost p = x@.skip(i as int);
        let ghost q = y@.skip(i as int);
        assert(p[0] == x@[i as int] && q[0] == y@[i as int]);
        assert(p.len() > 0 && q.len() > 0);
        if x[i] != y[i] {
            assert(text_less(p, q) == ((p[0] as u32) < (q[0] as u32)));
            return (x[i] as u32) < (y[i] as u32);
        }
        assert(text_less(p, q) == text_less(p.drop_first(), q.drop_first()));
        assert(p.drop_first() =~= x@.skip(i + 1));
        assert(q.drop_first() =~= y@.skip(i + 1));
        i = i + 1;
    }
    i < y.len()
}

/// Whether the entry `a` must stand before the entry `b` in a listing: `a`
/// is a directory and `b` is not, or they are of one kind and `a`'s name in
/// lower case stands before `b`'s.
pub open spec fn comes_before(a: StorageEntryView, b: StorageEntryView) -> bool {
    if a.is_directory != b.is_directory {
        a.is_directory
    } else {
        text_less(lowercase_of(a.name), lowercase_of(b.name))
    }
}

/// Whether no entry of `s` stands behind one that must come after it.
pub open spec fn ordered(s: Seq<StorageEntryView>) -> bool {
    forall|i: int, j: int| 0 <= i < j < s.len() ==> !comes_before(#[trigger] s[j], #[trigger] s[i])
}

impl DirectoryListing {
    /// Whether the listing is well formed: its entries are in order.
    pub open spec fn wf(&self) -> bool {
        ordered(self@.entries)
    }
}

/// The order of entries is transitive.
pub proof fn lemma_comes_before_transitive(
    a: StorageEntryView,
    b: StorageEntryView,
    c: StorageEntryView,
)
    requires
        comes_before(a, b),
        comes_before(b, c),
    ensures
        comes_before(a, c),
{
    if a.is_directory == b.is_directory && b.is_directory == c.is_directory {
        lemma_text_less_transitive(
            lowercase_of(a.name),
            lowercase_of(b.name),
            lowercase_of(c.name),
        );
    }
}

/// In an ordered listing no file stands before a directory, and within the
/// directories and within the files no name in lower case stands after a
/// later one.
pub proof fn lemma_ordered_means(s: Seq<StorageEntryView>, i: int, j: int)
    requires
        ordered(s),
        0 <= i < j < s.len(),
    ensures
        s[j].is_directory ==> s[i].is_directory,
        s[i].is_directory == s[j].is_directory ==> !text_less(
            lowercase_of(s[j].name),
            lowercase_of(s[i].name),
        ),
{
    assert(!comes_before(s[j], s[i]));
}

/// Tests whether `a` must stand before `b` in a listing.
pub fn entry_before(a: &StorageEntry, b: &StorageEntry) -> (r: bool)
    ensures
        r == comes_before(a@, b@),
{
    if a.is_directory != b.is_directory {
        a.is_directory
    } else {
        let x = lowercase(a.name.as_str());
        let y = lowercase(b.name.as_str());
        text_before(x.as_str(), y.as_str())
    }
}

/// Whether `p` is the place at which `e` goes into the list `out`: in
/// front of the first entry that must come after `e`, or at the end where
/// there is none. An entry thus goes behind those that it need not precede,
/// so that entries which neither must precede the other keep the order in
/// which they came.
pub open spec fn is_place(out: Seq<StorageEntryView>, e: StorageEntryView, p: int) -> bool {
    &&& 0 <= p <= out.len()
    &&& forall|k: int| 0 <= k < p ==> !comes_before(e, #[trigger] out[k])
    &&& p < out.len() ==> comes_before(e, out[p])
}

/// The place at which `e` goes into the list `out`.
pub open spec fn place_for(out: Seq<StorageEntryView>, e: StorageEntryView) -> int {
    choose|p: int| is_place(out, e, p)
}

/// The list `out` with `e` put in at its place.
pub open spec fn with_entry(out: Seq<StorageEntryView>, e: StorageEntryView) -> Seq<
    StorageEntryView,
> {
    out.insert(place_for(out, e), e)
}

/// The entries of `s` in the order of a listing: one after the other is put
/// at its place among those before it.
pub open spec fn arranged(s: Seq<StorageEntryView>) -> Seq<StorageEntryView>
    decreases s.len(),
{
    if s.len() == 0 {
        Seq::empty()
    } else {
        with_entry(arranged(s.drop_last()), s.last())
    }
}

/// An entry has one place in a list.
pub proof fn lemma_place_is_unique(out: Seq<StorageEntryView>, e: StorageEntryView, p: int, q: int)
    requires
        is_place(out, e, p),
        is_place(out, e, q),
    ensures
        p == q,
{
    if p < q {
        assert(!comes_before(e, out[p]));
    } else if q < p {
        assert(!comes_before(e, out[q]));
    }
}

/// Every list has a place for an entry.
pub proof fn lemma_place_exists(out: Seq<StorageEntryView>, e: StorageEntryView)
    ensures
        is_place(out, e, place_for(out, e)),
    decreases out.len(),
{
    if out.len() == 0 {
        assert(is_place(out, e, 0));
    } else {
        let front = out.drop_last();
        lemma_place_exists(front, e);
        let p = place_for(front, e);
        if p < front.len() {
            assert(out[p] == front[p]);
            assert forall|k: int| 0 <= k < p implies !comes_before(e, #[trigger] out[k]) by {
                assert(out[k] == front[k]);
            }
            assert(is_place(out, e, p));
        } else if comes_before(e, out.last()) {
            assert forall|k: int| 0 <= k < p implies !comes_before(e, #[trigger] out[k]) by {
                assert(out[k] == front[k]);
            }
            assert(is_place(out, e, p));
        } else {
            assert forall|k: int| 0 <= k < out.len() implies !comes_before(e, #[trigger] out[k]) by {
                if k < front.len() {
                    assert(out[k] == front[k]);
                }
            }
            assert(is_place(out, e, out.len() as int));
        }
    }
}

/// Putting an entry at its place keeps a list ordered, and adds that entry
/// and no other.
pub proof fn lemma_with_entry(out: Seq<StorageEntryView>, e: StorageEntryView)
    requires
        ordered(out),
    ensures
        ordered(with_entry(out, e)),
        with_entry(out, e).len() == out.len() + 1,
        with_entry(out, e).to_multiset() == out.to_multiset().insert(e),
{
    lemma_place_exists(out, e);
    let p = place_for(out, e);
    let after = with_entry(out, e);
    vstd::seq_lib::to_multiset_insert(out, p, e);
    assert forall|i: int, j: int| 0 <= i < j < after.len() implies !comes_before(
        #[trigger] after[j],
        #[trigger] after[i],
    ) by {
        if j == p {
            assert(after[i] == out[i]);
            assert(!comes_before(e, out[i]));
        } else if i == p {
            assert(after[j] == out[j - 1]);
            assert(comes_before(e, out[p]));
            if comes_before(out[j - 1], e) {
                lemma_comes_before_transitive(out[j - 1], e, out[p]);
                if j - 1 == p {
                    lemma_comes_before_irreflexive(out[p]);
                }
            }
        } else {
            let i0 = if i < p { i } else { i - 1 };
            let j0 = if j < p { j } else { j - 1 };
            assert(after[i] == out[i0]);
            assert(after[j] == out[j0]);
        }
    }
}

/// A listing is in order and holds what it was made of: no file stands
/// before a directory, no name stands before one that precedes it when case
/// is disregarded, and every entry occurs as often as it was given.
pub proof fn lemma_arranged(s: Seq<StorageEntryView>)
    ensures
        ordered(arranged(s)),
        arranged(s).len() == s.len(),
        arranged(s).to_multiset() == s.to_multiset(),
    decreases s.len(),
{
    if s.len() == 0 {
        assert(arranged(s) =~= s);
    } else {
        lemma_arranged(s.drop_last());
        lemma_with_entry(arranged(s.drop_last()), s.last());
        vstd::seq_lib::to_multiset_build(s.drop_last(), s.last());
        assert(s.drop_last().push(s.last()) =~= s);
    }
}

/// Puts `e` into the ordered list `out`, at its place.
pub fn insert_ordered(out: &mut Vec<StorageEntry>, e: StorageEntry)
    ensures
        entry_views(final(out)@) == with_entry(entry_views(old(out)@), e@),
{
    let n = out.len();
    let mut p: usize = 0;
    while p < n && !entry_before(&e, &out[p])
        invariant
            p <= n,
            n == out@.len(),
            out@ == old(out)@,
            forall|k: int| 0 <= k < p ==> !comes_before(e@, #[trigger] out@[k]@),
        decreases n - p,
    {
        p = p + 1;
    }
    let ghost before = entry_views(out@);
    proof {
        assert(is_place(before, e@, p as int));
        lemma_place_exists(before, e@);
        lemma_place_is_unique(before, e@, p as int, place_for(before, e@));
    }
    out.insert(p, e);
    assert(entry_views(out@) =~= before.insert(p as int, e@));
}

/// No entry must stand before itself.
pub proof fn lemma_comes_before_irreflexive(a: StorageEntryView)
    ensures
        !comes_before(a, a),
{
    lemma_text_less_irreflexive(lowercase_of(a.name));
}

} // verus!
