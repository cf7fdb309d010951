//! The order in which a library keeps its chapters, and the sort that
//! establishes it.

use super::chapter::{chapters_view, Chapter, ChapterView};
use vstd::prelude::*;
use vstd::std_specs::iter::IteratorSpec;
use vstd::string::*;

verus! {

/// Whether the text `a` stands before the text `b` in the dictionary order of
/// their characters' code points.
pub open spec fn lex_lt(a: Seq<char>, b: Seq<char>) -> bool
    decreases a.len(),
{
    if b.len() == 0 {
        false
    } else if a.len() == 0 {
        true
    } else if a[0] != b[0] {
        (a[0] as int) < (b[0] as int)
    } else {
        lex_lt(a.drop_first(), b.drop_first())
    }
}

/// No text stands before itself.
pub proof fn lemma_lex_irreflexive(a: Seq<char>)
    ensures
        !lex_lt(a, a),
    decreases a.len(),
{
    if a.len() > 0 {
        lemma_lex_irreflexive(a.drop_first());
    }
}

/// Of two different texts exactly one stands before the other.
pub proof fn lemma_lex_total(a: Seq<char>, b: Seq<char>)
    ensures
        a != b ==> (lex_lt(a, b) <==> !lex_lt(b, a)),
        a == b ==> !lex_lt(a, b),
    decreases a.len(),
{
    if a == b {
        lemma_lex_irreflexive(a);
    } else if a.len() > 0 && b.len() > 0 && a[0] == b[0] {
        let x = a.drop_first();
        let y = b.drop_first();
        if x == y {
            assert(a =~= seq![a[0]] + x);
            assert(b =~= seq![b[0]] + y);
        }
        lemma_lex_total(x, y);
    } else if a.len() == 0 {
        assert(b.len() > 0) by {
            if b.len() == 0 {
                assert(a =~= b);
            }
        }
    }
}

/// The dictionary order is transitive.
pub proof fn lemma_lex_transitive(a: Seq<char>, b: Seq<char>, c: Seq<char>)
    requires
        lex_lt(a, b),
        lex_lt(b, c),
    ensures
        lex_lt(a, c),
    decreases a.len(),
{
    if a.len() > 0 && a[0] == b[0] && b[0] == c[0] {
        lemma_lex_transitive(a.drop_first(), b.drop_first(), c.drop_first());
    }
}

/// Tells whether `a` stands before `b` in the dictionary order.
pub fn text_before(a: &str, b: &str) -> (before: bool)
    ensures
        before == lex_lt(a@, b@),
{
    broadcast use {axiom_spec_iter, next_postcondition};

    let mut left = a.chars();
    let mut right = b.chars();
    let ghost mut done: nat = 0;
    loop
        invariant
            done + left.remaining().len() == a@.len(),
            lex_lt(a@, b@) == lex_lt(left.remaining(), right.remaining()),
        decreases a@.len() - done,
    {
        let x = left.next();
        let y = right.next();
        match y {
            None => {
                return false;
            },
            Some(y) => match x {
                None => {
                    return true;
                },
                Some(x) => {
                    if x != y {
                        return x < y;
                    }
                    proof {
                        done = done + 1;
                    }
                },
            },
        }
    }
}

/// The name by which a chapter without a track number is ordered: its probed
/// title, or its file name where it has none.
pub open spec fn sort_name(chapter: ChapterView) -> Seq<char> {
    match chapter.title {
        Some(title) => title,
        None => chapter.filename,
    }
}

/// Whether a container ordinal stands before another; a track that has none
/// stands before one that has.
pub open spec fn ordinal_before(a: Option<u32>, b: Option<u32>) -> bool {
    match (a, b) {
        (Some(x), Some(y)) => x < y,
        (None, Some(_)) => true,
        _ => false,
    }
}

/// The order of the chapters of a library. Chapters with a probed track
/// number come first, by that number, and by their container ordinal where the
/// numbers are equal. The chapters without a track number follow, by title,
/// or by file name where a chapter has no title.
pub open spec fn sorts_before(a: ChapterView, b: ChapterView) -> bool {
    match (a.tracknumber, b.tracknumber) {
        (Some(x), Some(y)) => x < y || (x == y && ordinal_before(
            a.m4_tracknumber,
            b.m4_tracknumber,
        )),
        (Some(_), None) => true,
        (None, Some(_)) => false,
        (None, None) => lex_lt(sort_name(a), sort_name(b)),
    }
}

/// Of two chapters at most one sorts before the other.
pub proof fn lemma_order_asymmetric(a: ChapterView, b: ChapterView)
    requires
        sorts_before(a, b),
    ensures
        !sorts_before(b, a),
{
    lemma_lex_total(sort_name(a), sort_name(b));
}

/// Where `a` does not sort after `b`, nor `b` after `c`, `a` does not sort
/// after `c`.
pub proof fn lemma_order_chains(a: ChapterView, b: ChapterView, c: ChapterView)
    requires
        !sorts_before(b, a),
        !sorts_before(c, b),
    ensures
        !sorts_before(c, a),
{
    let (x, y, z) = (sort_name(a), sort_name(b), sort_name(c));
    lemma_lex_total(x, y);
    lemma_lex_total(y, z);
    lemma_lex_total(x, z);
    if lex_lt(x, y) && lex_lt(y, z) {
        lemma_lex_transitive(x, y, z);
    }
}

/// The name by which `chapter` is ordered where it has no track number.
fn name_of(chapter: &Chapter) -> (name: &str)
    ensures
        name@ == sort_name(chapter@),
{
    match &chapter.title {
        Some(title) => title.as_str(),
        None => chapter.filename.as_str(),
    }
}

/// Tells whether `a` sorts before `b`.
pub fn comes_before(a: &Chapter, b: &Chapter) -> (before: bool)
    ensures
        before == sorts_before(a@, b@),
{
    match (a.tracknumber, b.tracknumber) {
        (Some(x), Some(y)) => {
            if x != y {
                x < y
            } else {
                match (a.m4_tracknumber, b.m4_tracknumber) {
                    (Some(p), Some(q)) => p < q,
                    (None, Some(_)) => true,
                    _ => false,
                }
            }
        },
        (Some(_), None) => true,
        (None, Some(_)) => false,
        (None, None) => text_before(name_of(a), name_of(b)),
    }
}

/// Where `x` goes into the ordered list `s`: in front of the chapters at the
/// end of `s` that it sorts before, and so behind every chapter that it does
/// not sort before.
pub open spec fn insert_point(s: Seq<ChapterView>, x: ChapterView) -> int
    decreases s.len(),
{
    if s.len() > 0 && sorts_before(x, s.last()) {
        insert_point(s.drop_last(), x)
    } else {
        s.len() as int
    }
}

/// The chapters in the library's order. Chapters of which neither sorts
/// before the other keep the order in which they came.
pub open spec fn sort_spec(s: Seq<ChapterView>) -> Seq<ChapterView>
    decreases s.len(),
{
    if s.len() == 0 {
        s
    } else {
        let sorted = sort_spec(s.drop_last());
        sorted.insert(insert_point(sorted, s.last()), s.last())
    }
}

/// Whether no chapter of `s` sorts before one that stands in front of it.
pub open spec fn is_sorted(s: Seq<ChapterView>) -> bool {
    forall|i: int, j: int| 0 <= i < j < s.len() ==> !sorts_before(#[trigger] s[j], #[trigger] s[i])
}

proof fn lemma_insert_point(s: Seq<ChapterView>, x: ChapterView)
    ensures
        0 <= insert_point(s, x) <= s.len(),
        forall|k: int| insert_point(s, x) <= k < s.len() ==> sorts_before(x, #[trigger] s[k]),
        insert_point(s, x) > 0 ==> !sorts_before(x, s[insert_point(s, x) - 1]),
    decreases s.len(),
{
    if s.len() > 0 && sorts_before(x, s.last()) {
        let front = s.drop_last();
        lemma_insert_point(front, x);
        assert forall|k: int| insert_point(s, x) <= k < s.len() implies sorts_before(
            x,
            #[trigger] s[k],
        ) by {
            if k < front.len() {
                assert(s[k] == front[k]);
            }
        }
        if insert_point(s, x) > 0 {
            assert(s[insert_point(s, x) - 1] == front[insert_point(front, x) - 1]);
        }
    }
}

/// Putting a chapter into an ordered list at its insert point keeps the list
/// ordered.
proof fn lemma_insert_keeps_sorted(s: Seq<ChapterView>, x: ChapterView)
    requires
        is_sorted(s),
    ensures
        is_sorted(s.insert(insert_point(s, x), x)),
{
    lemma_insert_point(s, x);
    let p = insert_point(s, x);
    let r = s.insert(p, x);
    assert forall|i: int, j: int| 0 <= i < j < r.len() implies !sorts_before(
        #[trigger] r[j],
        #[trigger] r[i],
    ) by {
        if j == p {
            // r[j] is x, r[i] stands in front of the insert point
            assert(r[i] == s[i]);
            if i < p - 1 {
                lemma_order_chains(s[i], s[p - 1], x);
            }
        } else if i == p {
            assert(r[j] == s[j - 1]);
            lemma_order_asymmetric(x, s[j - 1]);
        } else {
            let a = if i < p { i } else { i - 1 };
            let b = if j < p { j } else { j - 1 };
            assert(r[i] == s[a]);
            assert(r[j] == s[b]);
        }
    }
}

/// The sort puts the chapters in order.
pub proof fn lemma_sort_sorted(s: Seq<ChapterView>)
    ensures
        is_sorted(sort_spec(s)),
        sort_spec(s).len() == s.len(),
    decreases s.len(),
{
    if s.len() > 0 {
        lemma_sort_sorted(s.drop_last());
        let sorted = sort_spec(s.drop_last());
        lemma_insert_point(sorted, s.last());
        lemma_insert_keeps_sorted(sorted, s.last());
    }
}

/// The sort loses no chapter and makes none up: it holds each chapter as
/// often as the list it was given.
pub proof fn lemma_sort_permutes(s: Seq<ChapterView>)
    ensures
        sort_spec(s).to_multiset() == s.to_multiset(),
    decreases s.len(),
{
    if s.len() > 0 {
        lemma_sort_permutes(s.drop_last());
        let sorted = sort_spec(s.drop_last());
        lemma_insert_point(sorted, s.last());
        assert(s =~= s.drop_last().push(s.last()));
        vstd::seq_lib::to_multiset_insert(sorted, insert_point(sorted, s.last()), s.last());
        vstd::seq_lib::to_multiset_build(s.drop_last(), s.last());
    }
}

/// In a sorted library a chapter with a smaller track number stands in front
/// of every chapter with a larger one.
pub proof fn lemma_sort_orders_track_numbers(s: Seq<ChapterView>, i: int, j: int)
    requires
        0 <= i < sort_spec(s).len(),
        0 <= j < sort_spec(s).len(),
        sort_spec(s)[i].tracknumber is Some,
        sort_spec(s)[j].tracknumber is Some,
        sort_spec(s)[i].tracknumber->0 < sort_spec(s)[j].tracknumber->0,
    ensures
        i < j,
{
    lemma_sort_sorted(s);
    let r = sort_spec(s);
    if j < i {
        assert(!sorts_before(r[i], r[j]));
    }
}

/// In a sorted library, of two chapters without track numbers the one whose
/// title, or file name where it has no title, stands first in the dictionary
/// order stands in front.
pub proof fn lemma_sort_orders_names(s: Seq<ChapterView>, i: int, j: int)
    requires
        0 <= i < sort_spec(s).len(),
        0 <= j < sort_spec(s).len(),
        sort_spec(s)[i].tracknumber is None,
        sort_spec(s)[j].tracknumber is None,
        lex_lt(sort_name(sort_spec(s)[i]), sort_name(sort_spec(s)[j])),
    ensures
        i < j,
{
    lemma_sort_sorted(s);
    let r = sort_spec(s);
    lemma_lex_irreflexive(sort_name(r[i]));
    if j < i {
        assert(!sorts_before(r[i], r[j]));
    }
}

/// Sorts the chapters into the library's order: by track number, and without
/// one by title or file name.
pub fn sort_chapters(chapters: &mut Vec<Chapter>)
    ensures
        chapters_view(final(chapters)@) == sort_spec(chapters_view(old(chapters)@)),
        final(chapters)@.to_multiset() == old(chapters)@.to_multiset(),
        final(chapters)@.len() == old(chapters)@.len(),
        (forall|i: int| 0 <= i < old(chapters)@.len() ==> (#[trigger] old(chapters)@[i]).wf())
            ==> (forall|i: int|
            0 <= i < final(chapters)@.len() ==> (#[trigger] final(chapters)@[i]).wf()),
{
    let mut rest: Vec<Chapter> = Vec::new();
    core::mem::swap(chapters, &mut rest);
    let ghost all = rest@;
    let ghost views = chapters_view(all);
    let mut done: usize = 0;
    let total = rest.len();
    assert(all.take(0) =~= Seq::empty());
    assert(views.take(0) =~= Seq::empty());
    assert(chapters_view(chapters@) =~= Seq::empty());
    assert(rest@ =~= all.skip(0));
    while done < total
        invariant
            done <= total == all.len(),
            views == chapters_view(all),
            rest@ == all.skip(done as int),
            chapters@.len() == done,
            chapters_view(chapters@) == sort_spec(views.take(done as int)),
            chapters@.to_multiset() == all.take(done as int).to_multiset(),
            (forall|i: int| 0 <= i < all.len() ==> (#[trigger] all[i]).wf()) ==> (forall|i: int|
                0 <= i < chapters@.len() ==> (#[trigger] chapters@[i]).wf()),
        decreases total - done,
    {
        let chapter = rest.remove(0);
        assert(chapter == all[done as int]);
        assert(rest@ =~= all.skip(done + 1));
        let ghost sorted = chapters_view(chapters@);
        let mut j: usize = chapters.len();
        assert(sorted.take(j as int) =~= sorted);
        while j > 0 && comes_before(&chapter, &chapters[j - 1])
            invariant
                j <= chapters@.len(),
                sorted == chapters_view(chapters@),
                insert_point(sorted, chapter@) == insert_point(sorted.take(j as int), chapter@),
            decreases j,
        {
            assert(sorted.take(j as int).last() == chapters@[j - 1]@);
            assert(sorted.take(j as int).drop_last() =~= sorted.take(j - 1));
            j = j - 1;
        }
        proof {
            if j > 0 {
                assert(sorted.take(j as int).last() == chapters@[j - 1]@);
            }
            assert(views.take(done + 1).drop_last() =~= views.take(done as int));
            assert(views.take(done + 1).last() == chapter@);
            assert(all.take(done + 1) =~= all.take(done as int).push(chapter));
        }
        let ghost before = chapters@;
        chapters.insert(j, chapter);
        proof {
            vstd::seq_lib::to_multiset_insert(before, j as int, chapter);
            vstd::seq_lib::to_multiset_build(all.take(done as int), chapter);
            assert(chapters_view(chapters@) =~= sorted.insert(j as int, chapter@));
            if forall|i: int| 0 <= i < all.len() ==> (#[trigger] all[i]).wf() {
                assert forall|i: int| 0 <= i < chapters@.len() implies (
                #[trigger] chapters@[i]).wf() by {
                    if i < j {
                        assert(chapters@[i] == before[i]);
                    } else if i > j {
                        assert(chapters@[i] == before[i - 1]);
                    }
                }
            }
        }
        done = done + 1;
    }
    assert(views.take(done as int) =~= views);
    assert(all.take(done as int) =~= all);
}

/// Whether two chapters have the same place in the order: the same track
/// number, container ordinal, title and file name.
pub open spec fn same_place(a: ChapterView, b: ChapterView) -> bool {
    &&& a.tracknumber == b.tracknumber
    &&& a.m4_tracknumber == b.m4_tracknumber
    &&& a.title == b.title
    &&& a.filename == b.filename
}

/// A list stays in order when a chapter gives way to one with the same place
/// in the order.
pub proof fn lemma_replace_keeps_sorted(s: Seq<ChapterView>, i: int, chapter: ChapterView)
    requires
        is_sorted(s),
        0 <= i < s.len(),
        same_place(chapter, s[i]),
    ensures
        is_sorted(s.update(i, chapter)),
{
    let r = s.update(i, chapter);
    assert forall|a: int, b: int| 0 <= a < b < r.len() implies !sorts_before(
        #[trigger] r[b],
        #[trigger] r[a],
    ) by {
        assert(!sorts_before(s[b], s[a]));
    }
}

} // verus!
