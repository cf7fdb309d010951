//! The tracks of a container file: from the markers read from the file to
//! the chapters of the library.

use super::chapter::{chapters_view, fresh_chapter, Chapter, ChapterView};
use vstd::prelude::*;

verus! {

/// One track marker of a container file: the title of the track and where it
/// starts, in whole seconds and the nanoseconds beyond them.
#[derive(Debug)]
pub struct Marker {
    pub title: String,
    pub start_secs: u64,
    pub start_nanos: u32,
}

/// The mathematical content of a [`Marker`].
pub struct MarkerView {
    pub title: Seq<char>,
    pub start_secs: u64,
    pub start_nanos: u32,
}

impl View for Marker {
    type V = MarkerView;

    open spec fn view(&self) -> MarkerView {
        MarkerView {
            title: self.title@,
            start_secs: self.start_secs,
            start_nanos: self.start_nanos,
        }
    }
}

/// What a list of markers holds.
pub open spec fn markers_view(markers: Seq<Marker>) -> Seq<MarkerView> {
    markers.map_values(|marker: Marker| marker@)
}

/// The markers without the repetitions: of markers with the same title and
/// the same start only the first stays.
pub open spec fn dedup_spec(markers: Seq<MarkerView>) -> Seq<MarkerView>
    decreases markers.len(),
{
    if markers.len() == 0 {
        Seq::empty()
    } else {
        let kept = dedup_spec(markers.drop_last());
        if kept.contains(markers.last()) {
            kept
        } else {
            kept.push(markers.last())
        }
    }
}

/// The second at which a marker's track starts: its start, rounded up.
pub open spec fn start_of(marker: MarkerView) -> nat {
    if marker.start_nanos > 0 {
        (marker.start_secs + 1) as nat
    } else {
        marker.start_secs as nat
    }
}

/// Where the track of marker `i` ends: at the start of the next track, or at
/// the end of the file.
pub open spec fn end_of(markers: Seq<MarkerView>, i: int, duration: u64) -> nat {
    if i + 1 < markers.len() {
        start_of(markers[i + 1])
    } else {
        duration as nat
    }
}

/// Whether the markers can be made into tracks of a file that is `duration`
/// seconds long: each track ends no earlier than it starts, and their
/// ordinals fit in 32 bits.
pub open spec fn markers_in_order(markers: Seq<MarkerView>, duration: u64) -> bool {
    &&& markers.len() <= u32::MAX
    &&& forall|i: int|
        0 <= i < markers.len() ==> start_of(#[trigger] markers[i]) <= end_of(markers, i, duration)
}

/// The chapters of a container file `duration` seconds long. Without markers
/// the whole file is one chapter. Else each marker that stays after the
/// repetitions are taken out gives a chapter, in the markers' order: it starts
/// where the marker says, has the marker's title and place as its container
/// title and ordinal, and lasts up to the next start, the last one up to the
/// end of the file.
pub open spec fn split_spec(filename: Seq<char>, markers: Seq<MarkerView>, duration: u64) -> Seq<
    ChapterView,
> {
    let kept = dedup_spec(markers);
    if kept.len() == 0 {
        seq![fresh_chapter(filename, None, duration, None, None)]
    } else {
        Seq::new(
            kept.len(),
            |i: int|
                fresh_chapter(
                    filename,
                    Some(start_of(kept[i]) as u64),
                    (end_of(kept, i, duration) - start_of(kept[i])) as u64,
                    Some(kept[i].title),
                    Some(i as u32),
                ),
        )
    }
}

/// Whether two markers have the same title and the same start.
fn same_marker(a: &Marker, b: &Marker) -> (same: bool)
    ensures
        same == (a@ == b@),
{
    a.start_secs == b.start_secs && a.start_nanos == b.start_nanos && a.title == b.title
}

/// Takes the repeated markers out.
fn dedup(markers: &Vec<Marker>) -> (kept: Vec<Marker>)
    ensures
        markers_view(kept@) == dedup_spec(markers_view(markers@)),
{
    let ghost all = markers_view(markers@);
    let mut kept: Vec<Marker> = Vec::new();
    let mut i: usize = 0;
    assert(markers_view(kept@) =~= Seq::empty());
    assert(all.take(0) =~= Seq::empty());
    while i < markers.len()
        invariant
            i <= markers@.len(),
            all == markers_view(markers@),
            markers_view(kept@) == dedup_spec(all.take(i as int)),
        decreases markers@.len() - i,
    {
        let marker = &markers[i];
        let ghost seen = markers_view(kept@);
        let mut found = false;
        let mut j: usize = 0;
        while j < kept.len() && !found
            invariant
                j <= kept@.len(),
                seen == markers_view(kept@),
                found ==> seen.contains(marker@),
                !found ==> forall|k: int| 0 <= k < j ==> seen[k] != marker@,
            decreases kept@.len() - j + (if found { 0int } else { 1int }),
        {
            if same_marker(&kept[j], marker) {
                assert(seen[j as int] == marker@);
                found = true;
            } else {
                j = j + 1;
            }
        }
        proof {
            assert(all.take(i + 1).drop_last() =~= all.take(i as int));
            assert(all.take(i + 1).last() == marker@);
        }
        if !found {
            kept.push(
                Marker {
                    title: marker.title.clone(),
                    start_secs: marker.start_secs,
                    start_nanos: marker.start_nanos,
                },
            );
            assert(markers_view(kept@) =~= seen.push(marker@));
        }
        i = i + 1;
    }
    assert(all.take(i as int) =~= all);
    kept
}

/// Tells whether the markers of a file `duration` seconds long can be made
/// into tracks.
pub fn markers_fit(markers: &Vec<Marker>, duration: u64) -> (fit: bool)
    ensures
        fit == markers_in_order(dedup_spec(markers_view(markers@)), duration),
{
    let kept = dedup(markers);
    let ghost view = markers_view(kept@);
    if kept.len() > 0xffff_ffff {
        return false;
    }
    let mut i: usize = kept.len();
    let mut end: u64 = duration;
    while i > 0
        invariant
            i <= kept@.len(),
            kept@.len() <= u32::MAX,
            view == markers_view(kept@),
            view == dedup_spec(markers_view(markers@)),
            end == end_of(view, i - 1, duration),
            forall|k: int| i <= k < view.len() ==> start_of(#[trigger] view[k]) <= end_of(
                view,
                k,
                duration,
            ),
        decreases i,
    {
        i = i - 1;
        let marker = &kept[i];
        assert(view[i as int] == marker@);
        if marker.start_nanos > 0 {
            if marker.start_secs >= end {
                assert(start_of(view[i as int]) > end_of(view, i as int, duration));
                return false;
            }
            end = marker.start_secs + 1;
        } else {
            if marker.start_secs > end {
                assert(start_of(view[i as int]) > end_of(view, i as int, duration));
                return false;
            }
            end = marker.start_secs;
        }
    }
    true
}

/// Tracks that end no earlier than they start all start within the file.
proof fn lemma_starts_within(markers: Seq<MarkerView>, duration: u64, i: int)
    requires
        markers_in_order(markers, duration),
        0 <= i < markers.len(),
    ensures
        start_of(markers[i]) <= duration,
    decreases markers.len() - i,
{
    if i + 1 < markers.len() {
        lemma_starts_within(markers, duration, i + 1);
    }
}

/// Makes the chapters of the container file `filename`, `duration` seconds
/// long, from the track markers read from it.
pub fn handle_m4(filename: &String, markers: &Vec<Marker>, duration: u64) -> (chapters: Vec<
    Chapter,
>)
    requires
        markers_in_order(dedup_spec(markers_view(markers@)), duration),
    ensures
        chapters_view(chapters@) == split_spec(filename@, markers_view(markers@), duration),
        forall|i: int| 0 <= i < chapters@.len() ==> (#[trigger] chapters@[i]).wf(),
{
    let kept = dedup(markers);
    let ghost view = markers_view(kept@);
    let mut chapters: Vec<Chapter> = Vec::new();
    if kept.len() == 0 {
        chapters.push(Chapter::new(filename.clone(), None, duration));
        assert(chapters_view(chapters@) =~= split_spec(
            filename@,
            markers_view(markers@),
            duration,
        ));
        return chapters;
    }
    let ghost wanted = split_spec(filename@, markers_view(markers@), duration);
    let mut i: usize = 0;
    while i < kept.len()
        invariant
            i <= kept@.len(),
            0 < kept@.len() <= u32::MAX,
            view == markers_view(kept@),
            view == dedup_spec(markers_view(markers@)),
            markers_in_order(view, duration),
            wanted == split_spec(filename@, markers_view(markers@), duration),
            chapters@.len() == i,
            forall|k: int| 0 <= k < i ==> (#[trigger] chapters@[k])@ == wanted[k],
            forall|k: int| 0 <= k < i ==> (#[trigger] chapters@[k]).wf(),
        decreases kept@.len() - i,
    {
        let marker = &kept[i];
        assert(view[i as int] == marker@);
        proof {
            lemma_starts_within(view, duration, i as int);
            if i + 1 < kept@.len() {
                lemma_starts_within(view, duration, i + 1);
            }
        }
        let start = if marker.start_nanos > 0 {
            marker.start_secs + 1
        } else {
            marker.start_secs
        };
        let end = if i + 1 < kept.len() {
            let next = &kept[i + 1];
            assert(view[i + 1] == next@);
            if next.start_nanos > 0 {
                next.start_secs + 1
            } else {
                next.start_secs
            }
        } else {
            duration
        };
        let chapter = Chapter::from_m4(
            filename.clone(),
            Some(marker.title.clone()),
            Some(start),
            Some(i as u32),
            Some(end - start),
        );
        chapters.push(chapter);
        i = i + 1;
    }
    assert(chapters_view(chapters@) =~= wanted);
    chapters
}

/// Taking the repetitions out leaves each marker once: what stays holds no
/// marker twice, holds every marker that was there, and nothing else.
pub proof fn lemma_dedup(markers: Seq<MarkerView>)
    ensures
        forall|i: int, j: int|
            0 <= i < j < dedup_spec(markers).len() ==> #[trigger] dedup_spec(markers)[i]
                != #[trigger] dedup_spec(markers)[j],
        forall|i: int|
            0 <= i < markers.len() ==> dedup_spec(markers).contains(#[trigger] markers[i]),
        forall|k: int|
            0 <= k < dedup_spec(markers).len() ==> markers.contains(
                #[trigger] dedup_spec(markers)[k],
            ),
        dedup_spec(markers).len() <= markers.len(),
    decreases markers.len(),
{
    if markers.len() > 0 {
        let front = markers.drop_last();
        let last = markers.last();
        lemma_dedup(front);
        let before = dedup_spec(front);
        let kept = dedup_spec(markers);
        assert forall|i: int| 0 <= i < markers.len() implies kept.contains(
            #[trigger] markers[i],
        ) by {
            if i < front.len() {
                assert(front[i] == markers[i]);
                let k = choose|k: int| 0 <= k < before.len() && before[k] == front[i];
                assert(kept[k] == markers[i]);
            } else if before.contains(last) {
                let k = choose|k: int| 0 <= k < before.len() && before[k] == last;
                assert(kept[k] == markers[i]);
            } else {
                assert(kept[kept.len() - 1] == markers[i]);
            }
        }
        assert forall|k: int| 0 <= k < kept.len() implies markers.contains(#[trigger] kept[k]) by {
            if k < before.len() {
                assert(kept[k] == before[k]);
                let i = choose|i: int| 0 <= i < front.len() && front[i] == before[k];
                assert(markers[i] == kept[k]);
            } else {
                assert(markers[markers.len() - 1] == kept[k]);
            }
        }
        assert forall|i: int, j: int| 0 <= i < j < kept.len() implies #[trigger] kept[i]
            != #[trigger] kept[j] by {
            if j < before.len() {
                assert(kept[i] == before[i] && kept[j] == before[j]);
            } else {
                assert(kept[i] == before[i]);
                assert(before.contains(before[i]));
            }
        }
    }
}

} // verus!
