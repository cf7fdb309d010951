//! The cache of what the render step would otherwise compute anew for every
//! frame. Each slot starts empty, is filled when it is next asked for, and
//! stays as it is until the group it belongs to is invalidated.

use crate::data::bookmarks::BookmarkView;
use crate::data::chapter::{
    chapters_view, formatted_time, shown_name, Chapter, ChapterView,
};
use crate::helpers::{decimal, format_spec, push_decimal};
use vstd::prelude::*;
use vstd::string::*;

verus! {

/// How a row is to be shown.
#[derive(Clone, Copy, Debug, PartialEq, Eq, Structural)]
pub enum Tone {
    /// an ordinary row
    Plain,
    /// the marker of the chapter that is played
    Current,
    /// at least three quarters listened
    Most,
    /// at least half listened
    Half,
    /// at least a quarter listened
    Quarter,
    /// less than a quarter listened
    Little,
}

/// One row of a list on the screen.
#[derive(Debug)]
pub struct ListRow {
    pub text: String,
    pub tone: Tone,
}

/// The mathematical content of a [`ListRow`].
pub struct RowView {
    pub text: Seq<char>,
    pub tone: Tone,
}

impl View for ListRow {
    type V = RowView;

    open spec fn view(&self) -> RowView {
        RowView { text: self.text@, tone: self.tone }
    }
}

/// What an optional list of rows holds.
pub open spec fn slot_view(slot: Option<Vec<ListRow>>) -> Option<Seq<RowView>> {
    match slot {
        Some(rows) => Some(rows@.map_values(|row: ListRow| row@)),
        None => None,
    }
}

/// The part of a list of `len` items that a window of `height` rows shows
/// after `skip` items were passed over: where it begins and where it ends.
pub open spec fn window_spec(len: nat, skip: nat, height: nat) -> (int, int) {
    let lo = if skip < len {
        skip as int
    } else {
        len as int
    };
    let hi = if lo + height < len {
        lo + height
    } else {
        len as int
    };
    (lo, hi)
}

/// Where the window begins and ends.
pub fn window(len: usize, skip: usize, height: usize) -> (bounds: (usize, usize))
    ensures
        (bounds.0 as int, bounds.1 as int) == window_spec(len as nat, skip as nat, height as nat),
        bounds.0 <= bounds.1 <= len,
{
    let lo = if skip < len {
        skip
    } else {
        len
    };
    let hi = if height < len - lo {
        lo + height
    } else {
        len
    };
    (lo, hi)
}

/// How much of a chapter was listened to, in percent: the part of its length
/// that lies before the position where it was last played, rounded up and
/// at most 100. A chapter without length counts as listened to once it was
/// played at all.
pub open spec fn percent_spec(chapter: ChapterView) -> nat {
    let start = match chapter.start_position {
        Some(start) => start as int,
        None => 0,
    };
    let played = chapter.last_position - start;
    if played <= 0 {
        0
    } else if chapter.length == 0 {
        100
    } else if played >= chapter.length {
        100
    } else {
        ((played * 100 + chapter.length - 1) / (chapter.length as int)) as nat
    }
}

/// The tone of a percentage.
pub open spec fn tone_spec(percent: nat) -> Tone {
    if percent >= 75 {
        Tone::Most
    } else if percent >= 50 {
        Tone::Half
    } else if percent >= 25 {
        Tone::Quarter
    } else {
        Tone::Little
    }
}

/// The row that shows how much of a chapter was listened to.
pub open spec fn percent_row(chapter: ChapterView) -> RowView {
    RowView {
        text: decimal(percent_spec(chapter)).push('%'),
        tone: tone_spec(percent_spec(chapter)),
    }
}

/// The row that marks the chapter that is played.
pub open spec fn choose_row(is_current: bool) -> RowView {
    if is_current {
        RowView { text: ">>> "@, tone: Tone::Current }
    } else {
        RowView { text: "    "@, tone: Tone::Plain }
    }
}

/// The row with the title of a chapter, and its description in square
/// brackets where it has one.
pub open spec fn title_row(chapter: ChapterView) -> RowView {
    RowView {
        text: match chapter.description {
            Some(description) => shown_name(chapter) + seq![' ', '['] + description + seq![']'],
            None => shown_name(chapter),
        },
        tone: Tone::Plain,
    }
}

/// The row with the length of a chapter.
pub open spec fn length_row(chapter: ChapterView) -> RowView {
    RowView { text: chapter.length_display, tone: Tone::Plain }
}

/// The row with the number of bookmarks of a chapter.
pub open spec fn count_row(chapter: ChapterView) -> RowView {
    RowView { text: decimal(chapter.bookmarks.len()), tone: Tone::Plain }
}

/// The columns of the playlist.
#[derive(Clone, Copy, Debug, PartialEq, Eq, Structural)]
pub enum Column {
    /// how much of each chapter was listened to
    Percentages,
    /// the marker of the chapter that is played
    Chooses,
    /// the titles, with the descriptions
    Titles,
    /// the lengths
    Lengths,
    /// the numbers of bookmarks
    BookmarkCounts,
}

/// The row of the chapter at `index` in a column of the playlist, where the
/// chapter at `current` is played.
pub open spec fn row_spec(
    column: Column,
    chapter: ChapterView,
    index: int,
    current: int,
) -> RowView {
    match column {
        Column::Percentages => percent_row(chapter),
        Column::Chooses => choose_row(index == current),
        Column::Titles => title_row(chapter),
        Column::Lengths => length_row(chapter),
        Column::BookmarkCounts => count_row(chapter),
    }
}

/// The rows of one column of the playlist: one row for each chapter in the
/// window.
pub open spec fn column_spec(
    column: Column,
    chapters: Seq<ChapterView>,
    current: nat,
    skip: nat,
    height: nat,
) -> Seq<RowView> {
    let (lo, hi) = window_spec(chapters.len(), skip, height);
    Seq::new(
        (hi - lo) as nat,
        |k: int| row_spec(column, chapters[lo + k], lo + k, current as int),
    )
}

/// The rows of one panel of texts: one plain row for each text in the window.
pub open spec fn panel_spec(texts: Seq<Seq<char>>, skip: nat, height: nat) -> Seq<RowView> {
    let (lo, hi) = window_spec(texts.len(), skip, height);
    Seq::new((hi - lo) as nat, |k: int| RowView { text: texts[lo + k], tone: Tone::Plain })
}

/// The texts of the bookmarks of a chapter.
pub open spec fn bookmark_texts(chapter: ChapterView) -> Seq<Seq<char>> {
    chapter.bookmarks.map_values(|bookmark: BookmarkView| bookmark.formatted_position)
}

/// How many chapters the playlist passes over so that the played chapter is
/// in sight, with the two chapters that follow it where there are any.
pub open spec fn playlist_skip_spec(current: nat, chaptercount: nat, height: nat) -> nat {
    let rest = chaptercount - (current + 1);
    if current + 1 >= height {
        let hidden = (current + 1 - height) as nat;
        if rest <= 0 {
            hidden
        } else if rest == 1 {
            hidden + 1
        } else {
            hidden + 2
        }
    } else if height - (current + 1) == 1 {
        1
    } else {
        0
    }
}

/// How many chapters the playlist passes over.
pub fn playlist_skip(current: usize, chaptercount: usize, height: usize) -> (skip: usize)
    requires
        current < chaptercount,
    ensures
        skip == playlist_skip_spec(current as nat, chaptercount as nat, height as nat),
{
    let rest = chaptercount - (current + 1);
    if current + 1 >= height {
        let hidden = current + 1 - height;
        if rest == 0 {
            hidden
        } else if rest == 1 {
            hidden + 1
        } else {
            hidden + 2
        }
    } else if height - (current + 1) == 1 {
        1
    } else {
        0
    }
}

/// How much of the chapter was listened to, in percent.
pub fn percent_listened(chapter: &Chapter) -> (percent: u16)
    ensures
        percent == percent_spec(chapter@),
        percent <= 100,
{
    let start = chapter.get_start_position();
    if chapter.last_position <= start {
        0
    } else if chapter.length == 0 {
        100
    } else {
        let played = chapter.last_position - start;
        if played >= chapter.length {
            100
        } else {
            let length: u128 = chapter.length as u128;
            let scaled: u128 = played as u128 * 100 + length - 1;
            let percent = scaled / length;
            assert(percent <= 100) by (nonlinear_arith)
                requires
                    percent == scaled / length,
                    scaled <= length * 100 + length - 1,
                    length > 0,
            ;
            percent as u16
        }
    }
}

/// What a list of rows holds.
pub open spec fn rows_view(rows: Seq<ListRow>) -> Seq<RowView> {
    rows.map_values(|row: ListRow| row@)
}

/// What a list of texts holds.
pub open spec fn texts_view(texts: Seq<String>) -> Seq<Seq<char>> {
    texts.map_values(|text: String| text@)
}

/// What a list of fixed texts holds.
pub open spec fn strs_view(texts: Seq<&'static str>) -> Seq<Seq<char>> {
    texts.map_values(|text: &'static str| text@)
}

/// Makes the row of `chapter`, which stands at `index`, for a column of the
/// playlist.
pub fn make_row(column: Column, chapter: &Chapter, index: usize, current: usize) -> (row: ListRow)
    ensures
        row@ == row_spec(column, chapter@, index as int, current as int),
{
    match column {
        Column::Percentages => {
            proof {
                reveal_strlit("%");
            }
            let percent = percent_listened(chapter);
            let mut text = String::new();
            push_decimal(&mut text, percent as u64);
            text.append("%");
            assert(text@ =~= decimal(percent as nat).push('%'));
            let tone = if percent >= 75 {
                Tone::Most
            } else if percent >= 50 {
                Tone::Half
            } else if percent >= 25 {
                Tone::Quarter
            } else {
                Tone::Little
            };
            ListRow { text, tone }
        },
        Column::Chooses => {
            if index == current {
                ListRow { text: String::from_str(">>> "), tone: Tone::Current }
            } else {
                ListRow { text: String::from_str("    "), tone: Tone::Plain }
            }
        },
        Column::Titles => {
            let mut text = chapter.get_title_or_filename().clone();
            match &chapter.description {
                Some(description) => {
                    proof {
                        reveal_strlit(" [");
                        reveal_strlit("]");
                    }
                    text.append(" [");
                    text.append(description.as_str());
                    text.append("]");
                    assert(text@ =~= shown_name(chapter@) + seq![' ', '['] + description@ + seq![
                        ']',
                    ]);
                },
                None => {},
            }
            ListRow { text, tone: Tone::Plain }
        },
        Column::Lengths => ListRow { text: chapter.length_display.clone(), tone: Tone::Plain },
        Column::BookmarkCounts => {
            let mut text = String::new();
            push_decimal(&mut text, chapter.bookmarks.len() as u64);
            assert(text@ =~= decimal(chapter@.bookmarks.len()));
            ListRow { text, tone: Tone::Plain }
        },
    }
}

/// Makes the rows of one column of the playlist.
pub fn make_column(
    column: Column,
    chapters: &Vec<Chapter>,
    current: usize,
    skip: usize,
    height: usize,
) -> (rows: Vec<ListRow>)
    ensures
        rows_view(rows@) == column_spec(
            column,
            chapters_view(chapters@),
            current as nat,
            skip as nat,
            height as nat,
        ),
{
    let (lo, hi) = window(chapters.len(), skip, height);
    let mut rows: Vec<ListRow> = Vec::new();
    let mut i = lo;
    while i < hi
        invariant
            lo <= i <= hi <= chapters@.len(),
            rows@.len() == i - lo,
            forall|k: int|
                0 <= k < i - lo ==> (#[trigger] rows@[k])@ == row_spec(
                    column,
                    chapters@[lo + k]@,
                    lo + k,
                    current as int,
                ),
        decreases hi - i,
    {
        rows.push(make_row(column, &chapters[i], i, current));
        i = i + 1;
    }
    assert(rows_view(rows@) =~= column_spec(
        column,
        chapters_view(chapters@),
        current as nat,
        skip as nat,
        height as nat,
    ));
    rows
}

/// Makes the rows of the panel that shows the bookmarks of `chapter` from the
/// one at `skip` on.
pub fn make_bookmark_panel(chapter: &Chapter, skip: usize, height: usize) -> (rows: Vec<ListRow>)
    ensures
        rows_view(rows@) == panel_spec(bookmark_texts(chapter@), skip as nat, height as nat),
{
    let (lo, hi) = window(chapter.bookmarks.len(), skip, height);
    let mut rows: Vec<ListRow> = Vec::new();
    let mut i = lo;
    while i < hi
        invariant
            lo <= i <= hi <= chapter.bookmarks@.len(),
            rows@.len() == i - lo,
            forall|k: int|
                0 <= k < i - lo ==> (#[trigger] rows@[k])@ == (RowView {
                    text: chapter.bookmarks@[lo + k].formatted_position@,
                    tone: Tone::Plain,
                }),
        decreases hi - i,
    {
        rows.push(
            ListRow { text: chapter.bookmarks[i].formatted_position.clone(), tone: Tone::Plain },
        );
        i = i + 1;
    }
    assert(rows_view(rows@) =~= panel_spec(
        bookmark_texts(chapter@),
        skip as nat,
        height as nat,
    ));
    rows
}

/// Makes the rows of the panel that shows the `texts` from the one at `skip`
/// on.
pub fn make_text_panel(texts: &Vec<&'static str>, skip: usize, height: usize) -> (rows: Vec<
    ListRow,
>)
    ensures
        rows_view(rows@) == panel_spec(strs_view(texts@), skip as nat, height as nat),
{
    let (lo, hi) = window(texts.len(), skip, height);
    let mut rows: Vec<ListRow> = Vec::new();
    let mut i = lo;
    while i < hi
        invariant
            lo <= i <= hi <= texts@.len(),
            rows@.len() == i - lo,
            forall|k: int|
                0 <= k < i - lo ==> (#[trigger] rows@[k])@ == (RowView {
                    text: texts@[lo + k]@,
                    tone: Tone::Plain,
                }),
        decreases hi - i,
    {
        rows.push(ListRow { text: String::from_str(texts[i]), tone: Tone::Plain });
        i = i + 1;
    }
    assert(rows_view(rows@) =~= panel_spec(strs_view(texts@), skip as nat, height as nat));
    rows
}

/// What an optional text holds.
pub open spec fn text_view(text: Option<String>) -> Option<Seq<char>> {
    match text {
        Some(text) => Some(text@),
        None => None,
    }
}

/// The cache of the derived views.
#[derive(Debug)]
pub struct Cache {
    /// the labels of the info panel
    pub info_info: Vec<String>,
    pub pl_bks_count: Option<Vec<ListRow>>,
    pub pl_chooses: Option<Vec<ListRow>>,
    pub pl_lengths: Option<Vec<ListRow>>,
    pub pl_percentages: Option<Vec<ListRow>>,
    pub pl_titles: Option<Vec<ListRow>>,
    /// the absolute position in the file, in seconds
    pub abs_now: Option<String>,
    /// the compact form of the absolute position in the file
    pub formatted_abs_now: Option<String>,
    /// the compact form of the length of the played chapter
    pub formatted_length: Option<String>,
    /// the compact form of the position in the chapter
    pub formatted_now: Option<String>,
    pub bk_list0: Option<Vec<ListRow>>,
    pub bk_list1: Option<Vec<ListRow>>,
    pub keybindings_list0: Option<Vec<ListRow>>,
    pub keybindings_list1: Option<Vec<ListRow>>,
}

/// The mathematical content of a [`Cache`].
pub struct CacheView {
    pub info_info: Seq<Seq<char>>,
    pub pl_bks_count: Option<Seq<RowView>>,
    pub pl_chooses: Option<Seq<RowView>>,
    pub pl_lengths: Option<Seq<RowView>>,
    pub pl_percentages: Option<Seq<RowView>>,
    pub pl_titles: Option<Seq<RowView>>,
    pub abs_now: Option<Seq<char>>,
    pub formatted_abs_now: Option<Seq<char>>,
    pub formatted_length: Option<Seq<char>>,
    pub formatted_now: Option<Seq<char>>,
    pub bk_list0: Option<Seq<RowView>>,
    pub bk_list1: Option<Seq<RowView>>,
    pub keybindings_list0: Option<Seq<RowView>>,
    pub keybindings_list1: Option<Seq<RowView>>,
}

impl View for Cache {
    type V = CacheView;

    open spec fn view(&self) -> CacheView {
        CacheView {
            info_info: texts_view(self.info_info@),
            pl_bks_count: slot_view(self.pl_bks_count),
            pl_chooses: slot_view(self.pl_chooses),
            pl_lengths: slot_view(self.pl_lengths),
            pl_percentages: slot_view(self.pl_percentages),
            pl_titles: slot_view(self.pl_titles),
            abs_now: text_view(self.abs_now),
            formatted_abs_now: text_view(self.formatted_abs_now),
            formatted_length: text_view(self.formatted_length),
            formatted_now: text_view(self.formatted_now),
            bk_list0: slot_view(self.bk_list0),
            bk_list1: slot_view(self.bk_list1),
            keybindings_list0: slot_view(self.keybindings_list0),
            keybindings_list1: slot_view(self.keybindings_list1),
        }
    }
}

/// The labels of the info panel.
pub open spec fn info_labels() -> Seq<Seq<char>> {
    seq![
        "Chapter: "@,
        "Book: "@,
        "Author: "@,
        "File name: "@,
        "Dir: "@,
        "Speed: "@,
        "StartPos: "@,
        "AbsPosForm: "@,
        "AbsPos: "@,
    ]
}

/// The cache with the slots of the bookmarks group emptied.
pub open spec fn without_bookmarks(cache: CacheView) -> CacheView {
    CacheView { bk_list0: None, bk_list1: None, pl_bks_count: None, ..cache }
}

/// The cache with the slots of the keybindings group emptied.
pub open spec fn without_keybindings(cache: CacheView) -> CacheView {
    CacheView { keybindings_list0: None, keybindings_list1: None, ..cache }
}

/// The cache with the slots of the playlist group emptied.
pub open spec fn without_playlist(cache: CacheView) -> CacheView {
    CacheView {
        pl_bks_count: None,
        pl_chooses: None,
        pl_lengths: None,
        pl_percentages: None,
        pl_titles: None,
        ..cache
    }
}

/// What a slot holds after it was asked for: what it held, or `rows` where it
/// was empty.
pub open spec fn filled(slot: Option<Seq<RowView>>, rows: Seq<RowView>) -> Option<Seq<RowView>> {
    match slot {
        Some(held) => Some(held),
        None => Some(rows),
    }
}

/// The cache after a column of the playlist was asked for.
pub open spec fn with_column(
    cache: CacheView,
    column: Column,
    chapters: Seq<ChapterView>,
    current: nat,
    skip: nat,
    height: nat,
) -> CacheView {
    let rows = column_spec(column, chapters, current, skip, height);
    match column {
        Column::Percentages => CacheView {
            pl_percentages: filled(cache.pl_percentages, rows),
            ..cache
        },
        Column::Chooses => CacheView { pl_chooses: filled(cache.pl_chooses, rows), ..cache },
        Column::Titles => CacheView { pl_titles: filled(cache.pl_titles, rows), ..cache },
        Column::Lengths => CacheView { pl_lengths: filled(cache.pl_lengths, rows), ..cache },
        Column::BookmarkCounts => CacheView {
            pl_bks_count: filled(cache.pl_bks_count, rows),
            ..cache
        },
    }
}

/// The cache after the bookmark panels of `chapter` were asked for: the
/// first panel shows the first `height` bookmarks, the second the `height`
/// that follow.
pub open spec fn with_bookmark_panels(
    cache: CacheView,
    chapter: ChapterView,
    height: nat,
) -> CacheView {
    CacheView {
        bk_list0: filled(cache.bk_list0, panel_spec(bookmark_texts(chapter), 0, height)),
        bk_list1: filled(cache.bk_list1, panel_spec(bookmark_texts(chapter), height, height)),
        ..cache
    }
}

/// The cache after the keybinding panels were asked for.
pub open spec fn with_keybinding_panels(
    cache: CacheView,
    keybindings: Seq<Seq<char>>,
    height: nat,
) -> CacheView {
    CacheView {
        keybindings_list0: filled(cache.keybindings_list0, panel_spec(keybindings, 0, height)),
        keybindings_list1: filled(
            cache.keybindings_list1,
            panel_spec(keybindings, height, height),
        ),
        ..cache
    }
}

/// The cache after a tick: the positions are made anew, the length of the
/// chapter only where it is not there.
pub open spec fn ticked(
    cache: CacheView,
    chapter: ChapterView,
    position: u64,
    abs_position: u64,
) -> CacheView {
    CacheView {
        formatted_length: match cache.formatted_length {
            Some(held) => Some(held),
            None => Some(format_spec(chapter.length as nat)),
        },
        formatted_now: Some(format_spec(position as nat)),
        formatted_abs_now: Some(format_spec(abs_position as nat)),
        abs_now: Some(decimal(abs_position as nat)),
        ..cache
    }
}

/// The cache with every slot emptied that depends on the chapter that is
/// played: the bookmarks group, the playlist group, and the positions and
/// the length shown for the chapter. The keybindings stay.
pub open spec fn without_chapter(cache: CacheView) -> CacheView {
    CacheView {
        abs_now: None,
        formatted_abs_now: None,
        formatted_length: None,
        formatted_now: None,
        ..without_playlist(without_bookmarks(cache))
    }
}

/// Whether every slot that is filled on demand is empty.
pub open spec fn all_empty(cache: CacheView) -> bool {
    &&& cache.pl_bks_count is None
    &&& cache.pl_chooses is None
    &&& cache.pl_lengths is None
    &&& cache.pl_percentages is None
    &&& cache.pl_titles is None
    &&& cache.abs_now is None
    &&& cache.formatted_abs_now is None
    &&& cache.formatted_length is None
    &&& cache.formatted_now is None
    &&& cache.bk_list0 is None
    &&& cache.bk_list1 is None
    &&& cache.keybindings_list0 is None
    &&& cache.keybindings_list1 is None
}

impl Cache {
    /// A cache with every slot empty.
    pub fn new() -> (cache: Self)
        ensures
            cache@.info_info == info_labels(),
            all_empty(cache@),
    {
        let mut info_info: Vec<String> = Vec::new();
        info_info.push(String::from_str("Chapter: "));
        info_info.push(String::from_str("Book: "));
        info_info.push(String::from_str("Author: "));
        info_info.push(String::from_str("File name: "));
        info_info.push(String::from_str("Dir: "));
        info_info.push(String::from_str("Speed: "));
        info_info.push(String::from_str("StartPos: "));
        info_info.push(String::from_str("AbsPosForm: "));
        info_info.push(String::from_str("AbsPos: "));
        assert(texts_view(info_info@) =~= info_labels());
        Cache {
            info_info,
            pl_bks_count: None,
            pl_chooses: None,
            pl_lengths: None,
            pl_percentages: None,
            pl_titles: None,
            abs_now: None,
            formatted_abs_now: None,
            formatted_length: None,
            formatted_now: None,
            bk_list0: None,
            bk_list1: None,
            keybindings_list0: None,
            keybindings_list1: None,
        }
    }

    /// Makes the positions shown for the played chapter anew; the length of
    /// the chapter is made only where it is not there.
    pub fn on_tick(&mut self, chapter: &Chapter, position: u64, abs_position: u64)
        ensures
            final(self)@ == ticked(old(self)@, chapter@, position, abs_position),
    {
        if self.formatted_length.is_none() {
            self.formatted_length = Some(chapter.formatted_length());
        }
        self.formatted_now = Some(formatted_time(position));
        self.formatted_abs_now = Some(formatted_time(abs_position));
        let mut abs_now = String::new();
        push_decimal(&mut abs_now, abs_position);
        assert(abs_now@ =~= decimal(abs_position as nat));
        self.abs_now = Some(abs_now);
    }

    /// invalidates the cache for things related to bookmarks
    pub fn invalidate_bks(&mut self)
        ensures
            final(self)@ == without_bookmarks(old(self)@),
    {
        self.bk_list0 = None;
        self.bk_list1 = None;
        self.pl_bks_count = None;
    }

    /// invalidates the keybindings list
    pub fn invalidate_kbs(&mut self)
        ensures
            final(self)@ == without_keybindings(old(self)@),
    {
        self.keybindings_list0 = None;
        self.keybindings_list1 = None;
    }

    /// invalidates the things in the playlist
    pub fn invalidate_pls(&mut self)
        ensures
            final(self)@ == without_playlist(old(self)@),
    {
        self.pl_bks_count = None;
        self.pl_chooses = None;
        self.pl_lengths = None;
        self.pl_percentages = None;
        self.pl_titles = None;
    }

    /// invalidates everything that depends on the chapter that is played,
    /// the length shown for it too; the keybindings stay
    pub fn invalidate_all(&mut self)
        ensures
            final(self)@ == without_chapter(old(self)@),
    {
        self.invalidate_bks();
        self.invalidate_pls();
        self.abs_now = None;
        self.formatted_abs_now = None;
        self.formatted_length = None;
        self.formatted_now = None;
    }

    /// Fills a column of the playlist where it is empty, for the window of
    /// `height` chapters behind the first `skip`, with the chapter at
    /// `current` played.
    pub fn playlist_column(
        &mut self,
        column: Column,
        chapters: &Vec<Chapter>,
        current: usize,
        skip: usize,
        height: usize,
    )
        ensures
            final(self)@ == with_column(
                old(self)@,
                column,
                chapters_view(chapters@),
                current as nat,
                skip as nat,
                height as nat,
            ),
    {
        match column {
            Column::Percentages => {
                if self.pl_percentages.is_none() {
                    self.pl_percentages = Some(
                        make_column(column, chapters, current, skip, height),
                    );
                }
            },
            Column::Chooses => {
                if self.pl_chooses.is_none() {
                    self.pl_chooses = Some(make_column(column, chapters, current, skip, height));
                }
            },
            Column::Titles => {
                if self.pl_titles.is_none() {
                    self.pl_titles = Some(make_column(column, chapters, current, skip, height));
                }
            },
            Column::Lengths => {
                if self.pl_lengths.is_none() {
                    self.pl_lengths = Some(make_column(column, chapters, current, skip, height));
                }
            },
            Column::BookmarkCounts => {
                if self.pl_bks_count.is_none() {
                    self.pl_bks_count = Some(make_column(column, chapters, current, skip, height));
                }
            },
        }
    }

    /// Fills the two bookmark panels where they are empty, each `height` rows
    /// high, with the bookmarks of `chapter`.
    pub fn bookmark_panels(&mut self, chapter: &Chapter, height: usize)
        ensures
            final(self)@ == with_bookmark_panels(old(self)@, chapter@, height as nat),
    {
        if self.bk_list0.is_none() {
            self.bk_list0 = Some(make_bookmark_panel(chapter, 0, height));
        }
        if self.bk_list1.is_none() {
            self.bk_list1 = Some(make_bookmark_panel(chapter, height, height));
        }
    }

    /// Fills the two keybinding panels where they are empty, each `height`
    /// rows high.
    pub fn keybinding_panels(&mut self, keybindings: &Vec<&'static str>, height: usize)
        ensures
            final(self)@ == with_keybinding_panels(
                old(self)@,
                strs_view(keybindings@),
                height as nat,
            ),
    {
        if self.keybindings_list0.is_none() {
            self.keybindings_list0 = Some(make_text_panel(keybindings, 0, height));
        }
        if self.keybindings_list1.is_none() {
            self.keybindings_list1 = Some(make_text_panel(keybindings, height, height));
        }
    }
}

/// After the bookmarks group was invalidated, asking for the bookmark panels
/// computes them anew, whatever they held before, and the keybinding panels
/// are as they were.
pub proof fn lemma_bookmarks_recomputed_after_invalidation(
    cache: CacheView,
    chapter: ChapterView,
    height: nat,
)
    ensures
        with_bookmark_panels(without_bookmarks(cache), chapter, height).bk_list0 == Some(
            panel_spec(bookmark_texts(chapter), 0, height),
        ),
        with_bookmark_panels(without_bookmarks(cache), chapter, height).bk_list1 == Some(
            panel_spec(bookmark_texts(chapter), height, height),
        ),
        with_bookmark_panels(without_bookmarks(cache), chapter, height).keybindings_list0
            == cache.keybindings_list0,
        with_bookmark_panels(without_bookmarks(cache), chapter, height).keybindings_list1
            == cache.keybindings_list1,
{
}

/// A slot that is filled stays as it is when it is asked for again, whatever
/// the library has become since.
pub proof fn lemma_filled_slots_stay(
    cache: CacheView,
    chapter: ChapterView,
    keybindings: Seq<Seq<char>>,
    height: nat,
)
    ensures
        cache.bk_list0 is Some && cache.bk_list1 is Some ==> with_bookmark_panels(
            cache,
            chapter,
            height,
        ) == cache,
        cache.keybindings_list0 is Some && cache.keybindings_list1 is Some
            ==> with_keybinding_panels(cache, keybindings, height) == cache,
{
}

/// Only the keybindings group empties the keybinding panels: they outlive
/// the invalidation of the bookmarks and of the playlist, and a change of
/// the chapter.
pub proof fn lemma_keybindings_outlive(cache: CacheView)
    ensures
        without_bookmarks(cache).keybindings_list0 == cache.keybindings_list0,
        without_bookmarks(cache).keybindings_list1 == cache.keybindings_list1,
        without_playlist(cache).keybindings_list0 == cache.keybindings_list0,
        without_playlist(cache).keybindings_list1 == cache.keybindings_list1,
        without_chapter(cache).keybindings_list0 == cache.keybindings_list0,
        without_chapter(cache).keybindings_list1 == cache.keybindings_list1,
        without_keybindings(cache).keybindings_list0 is None,
        without_keybindings(cache).keybindings_list1 is None,
{
}

} // verus!
