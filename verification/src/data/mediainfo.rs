//! The library of one directory: its chapters in their order, the play
//! settings, and how the files of a directory become such a library.

use super::chapter::{
    chapters_view, fresh_chapter, with_tags, Chapter, ChapterView, Tags, TagsView,
};
use super::order::{
    is_sorted, lemma_replace_keeps_sorted, lemma_sort_permutes, lemma_sort_sorted, same_place,
    sort_chapters, sort_spec,
};
use super::scan::{
    entries_view, file_kind, file_kind_spec, names_view, scan_dir, scan_spec, Entry, EntryView,
    Error, ErrorView, FileKind,
};
use super::tracks::{
    dedup_spec, handle_m4, markers_fit, markers_in_order, markers_view, split_spec, Marker,
    MarkerView,
};
use vstd::prelude::*;

verus! {

/// What probing one file of the directory found: its length in seconds, its
/// descriptive tags and, for a container file, its track markers.
#[derive(Debug)]
pub struct ProbedFile {
    pub filename: String,
    pub duration: u64,
    pub tags: Tags,
    pub markers: Vec<Marker>,
}

/// The mathematical content of a [`ProbedFile`].
pub struct ProbedFileView {
    pub filename: Seq<char>,
    pub duration: u64,
    pub tags: TagsView,
    pub markers: Seq<MarkerView>,
}

impl View for ProbedFile {
    type V = ProbedFileView;

    open spec fn view(&self) -> ProbedFileView {
        ProbedFileView {
            filename: self.filename@,
            duration: self.duration,
            tags: self.tags@,
            markers: markers_view(self.markers@),
        }
    }
}

/// What a list of probed files holds.
pub open spec fn files_view(files: Seq<ProbedFile>) -> Seq<ProbedFileView> {
    files.map_values(|file: ProbedFile| file@)
}

/// The listing that the probed files make.
pub open spec fn file_entries(files: Seq<ProbedFileView>) -> Seq<EntryView> {
    files.map_values(|file: ProbedFileView| EntryView::File(file.filename))
}

/// The file names of the chapters.
pub open spec fn chapter_names(chapters: Seq<ChapterView>) -> Seq<Seq<char>> {
    chapters.map_values(|chapter: ChapterView| chapter.filename)
}

/// Whether the file is to be made into chapters: it can be played, is of
/// the kind asked for, and is not among the `known` files.
pub open spec fn is_new_file(file: ProbedFileView, kind: FileKind, known: Seq<Seq<char>>) -> bool {
    file_kind_spec(file.filename) == kind && !known.contains(file.filename)
}

/// Whether the markers of every new container file can be made into tracks.
pub open spec fn markers_fit_spec(files: Seq<ProbedFileView>, known: Seq<Seq<char>>) -> bool {
    forall|i: int|
        0 <= i < files.len() && is_new_file(#[trigger] files[i], FileKind::Container, known)
            ==> markers_in_order(dedup_spec(files[i].markers), files[i].duration)
}

/// The chapters of the new files that are one chapter each, in the order of
/// the files.
pub open spec fn whole_chapters(files: Seq<ProbedFileView>, known: Seq<Seq<char>>) -> Seq<
    ChapterView,
>
    decreases files.len(),
{
    if files.len() == 0 {
        Seq::empty()
    } else {
        let front = whole_chapters(files.drop_last(), known);
        let file = files.last();
        if is_new_file(file, FileKind::Plain, known) {
            front.push(fresh_chapter(file.filename, None, file.duration, None, None))
        } else {
            front
        }
    }
}

/// The chapters of the new container files, file after file in the order of
/// the files.
pub open spec fn track_chapters(files: Seq<ProbedFileView>, known: Seq<Seq<char>>) -> Seq<
    ChapterView,
>
    decreases files.len(),
{
    if files.len() == 0 {
        Seq::empty()
    } else {
        let front = track_chapters(files.drop_last(), known);
        let file = files.last();
        if is_new_file(file, FileKind::Container, known) {
            front + split_spec(file.filename, file.markers, file.duration)
        } else {
            front
        }
    }
}

/// The index of the first file called `name`.
pub open spec fn find_named(files: Seq<ProbedFileView>, name: Seq<char>) -> Option<int>
    decreases files.len(),
{
    if files.len() == 0 {
        None
    } else {
        match find_named(files.drop_last(), name) {
            Some(i) => Some(i),
            None => if files.last().filename == name {
                Some(files.len() - 1)
            } else {
                None
            },
        }
    }
}

/// The chapter with the tags probed from its file; unchanged where no file
/// has its name.
pub open spec fn tagged(chapter: ChapterView, files: Seq<ProbedFileView>) -> ChapterView {
    match find_named(files, chapter.filename) {
        Some(i) => with_tags(chapter, files[i].tags),
        None => chapter,
    }
}

/// The chapters, each with the tags probed from its file.
pub open spec fn tagged_all(chapters: Seq<ChapterView>, files: Seq<ProbedFileView>) -> Seq<
    ChapterView,
> {
    chapters.map_values(|chapter: ChapterView| tagged(chapter, files))
}

/// The names among `names` that `content` does not hold, in their order.
pub open spec fn absent_from(names: Seq<Seq<char>>, content: Seq<Seq<char>>) -> Seq<Seq<char>>
    decreases names.len(),
{
    if names.len() == 0 {
        Seq::empty()
    } else {
        let front = absent_from(names.drop_last(), content);
        if content.contains(names.last()) {
            front
        } else {
            front.push(names.last())
        }
    }
}

/// A file found in the front part of a list is the one found in the whole.
proof fn lemma_find_named_stays(files: Seq<ProbedFileView>, name: Seq<char>, k: int)
    requires
        0 <= k <= files.len(),
        find_named(files.take(k), name) is Some,
    ensures
        find_named(files, name) == find_named(files.take(k), name),
    decreases files.len() - k,
{
    if k < files.len() {
        assert(files.take(k + 1).drop_last() =~= files.take(k));
        lemma_find_named_stays(files, name, k + 1);
    } else {
        assert(files.take(k) =~= files);
    }
}

/// Tells whether `names` holds `name`.
fn holds_name(names: &Vec<String>, name: &String) -> (found: bool)
    ensures
        found == names_view(names@).contains(name@),
{
    let mut i: usize = 0;
    while i < names.len()
        invariant
            i <= names@.len(),
            forall|k: int| 0 <= k < i ==> names_view(names@)[k] != name@,
        decreases names@.len() - i,
    {
        if names[i] == *name {
            assert(names_view(names@)[i as int] == name@);
            return true;
        }
        i = i + 1;
    }
    false
}

/// The chapters of the new files of one kind: the files that are one chapter
/// each, or the container files.
fn build_chapters(files: &Vec<ProbedFile>, known: &Vec<String>, containers: bool) -> (chapters:
    Vec<Chapter>)
    requires
        containers ==> markers_fit_spec(files_view(files@), names_view(known@)),
    ensures
        chapters_view(chapters@) == if containers {
            track_chapters(files_view(files@), names_view(known@))
        } else {
            whole_chapters(files_view(files@), names_view(known@))
        },
        forall|i: int| 0 <= i < chapters@.len() ==> (#[trigger] chapters@[i]).wf(),
{
    let ghost all = files_view(files@);
    let ghost skip = names_view(known@);
    let mut chapters: Vec<Chapter> = Vec::new();
    let mut i: usize = 0;
    assert(chapters_view(chapters@) =~= Seq::empty());
    assert(all.take(0) =~= Seq::empty());
    while i < files.len()
        invariant
            i <= files@.len(),
            all == files_view(files@),
            skip == names_view(known@),
            containers ==> markers_fit_spec(all, skip),
            chapters_view(chapters@) == if containers {
                track_chapters(all.take(i as int), skip)
            } else {
                whole_chapters(all.take(i as int), skip)
            },
            forall|k: int| 0 <= k < chapters@.len() ==> (#[trigger] chapters@[k]).wf(),
        decreases files@.len() - i,
    {
        let file = &files[i];
        proof {
            assert(all.take(i + 1).drop_last() =~= all.take(i as int));
            assert(all.take(i + 1).last() == file@);
            assert(all[i as int] == file@);
        }
        let kind = file_kind(file.filename.as_str());
        let ghost before = chapters@;
        if containers {
            if kind == FileKind::Container && !holds_name(known, &file.filename) {
                let mut tracks = handle_m4(&file.filename, &file.markers, file.duration);
                let ghost added = tracks@;
                chapters.append(&mut tracks);
                assert(chapters@ == before + added);
                assert(chapters_view(chapters@) =~= chapters_view(before) + chapters_view(added));
            }
        } else {
            if kind == FileKind::Plain && !holds_name(known, &file.filename) {
                chapters.push(Chapter::new(file.filename.clone(), None, file.duration));
                assert(chapters_view(chapters@) =~= chapters_view(before).push(
                    fresh_chapter(file@.filename, None, file@.duration, None, None),
                ));
            }
        }
        i = i + 1;
    }
    assert(all.take(i as int) =~= all);
    chapters
}

/// Gives each chapter the tags probed from its file. What came from a
/// container or from the user stays.
pub fn scan_chapters(chapters: &mut Vec<Chapter>, files: &Vec<ProbedFile>)
    ensures
        chapters_view(final(chapters)@) == tagged_all(
            chapters_view(old(chapters)@),
            files_view(files@),
        ),
        final(chapters)@.len() == old(chapters)@.len(),
        forall|i: int|
            0 <= i < old(chapters)@.len() && (#[trigger] old(chapters)@[i]).wf()
                ==> final(chapters)@[i].wf(),
{
    let ghost all = files_view(files@);
    let ghost start = chapters@;
    let mut i: usize = 0;
    while i < chapters.len()
        invariant
            i <= chapters@.len() == start.len(),
            all == files_view(files@),
            forall|k: int| 0 <= k < i ==> (#[trigger] chapters@[k])@ == tagged(start[k]@, all),
            forall|k: int| i <= k < start.len() ==> #[trigger] chapters@[k] == start[k],
            forall|k: int|
                0 <= k < start.len() && (#[trigger] start[k]).wf() ==> chapters@[k].wf(),
        decreases chapters@.len() - i,
    {
        let mut found: Option<usize> = None;
        let mut j: usize = 0;
        assert(all.take(0) =~= Seq::empty());
        while j < files.len() && found.is_none()
            invariant
                i < chapters@.len(),
                j <= files@.len(),
                all == files_view(files@),
                match found {
                    Some(at) => find_named(all, chapters@[i as int]@.filename) == Some(at as int)
                        && at < files@.len(),
                    None => find_named(all.take(j as int), chapters@[i as int]@.filename) is None,
                },
            decreases files@.len() - j + (if found is None { 1int } else { 0int }),
        {
            proof {
                assert(all.take(j + 1).drop_last() =~= all.take(j as int));
                assert(all.take(j + 1).last() == files@[j as int]@);
            }
            if files[j].filename == chapters[i].filename {
                proof {
                    lemma_find_named_stays(all, chapters@[i as int]@.filename, j + 1);
                }
                found = Some(j);
            } else {
                j = j + 1;
            }
        }
        match found {
            Some(at) => {
                assert(all[at as int] == files@[at as int]@);
                let tags = files[at].tags.duplicate();
                chapters[i].get_info_from_tags(tags);
            },
            None => {
                assert(all.take(j as int) =~= all);
            },
        }
        i = i + 1;
    }
    assert(chapters_view(chapters@) =~= tagged_all(chapters_view(start), all));
}

/// Information about a book: the library of one directory.
#[derive(Debug)]
pub struct MediaInfo {
    /// the number of chapters
    pub chaptercount: usize,
    /// path of the directory of the book
    pub path: String,
    /// playback speed in hundredths: 100 is the normal speed
    pub speed: u64,
    /// volume in percent of the full volume
    pub volume: u64,
    /// index of the last played chapter
    pub last_chapter: usize,
    /// list of chapters of the book, in the library's order
    pub chapters: Vec<Chapter>,
}

/// The mathematical content of a [`MediaInfo`].
pub struct MediaInfoView {
    pub chaptercount: nat,
    pub path: Seq<char>,
    pub speed: u64,
    pub volume: u64,
    pub last_chapter: nat,
    pub chapters: Seq<ChapterView>,
}

impl View for MediaInfo {
    type V = MediaInfoView;

    open spec fn view(&self) -> MediaInfoView {
        MediaInfoView {
            chaptercount: self.chaptercount as nat,
            path: self.path@,
            speed: self.speed,
            volume: self.volume,
            last_chapter: self.last_chapter as nat,
            chapters: chapters_view(self.chapters@),
        }
    }
}

/// The speed of a new library, in hundredths.
pub const NORMAL_SPEED: u64 = 100;

/// The volume of a new library, in percent.
pub const INITIAL_VOLUME: u64 = 50;

/// What a result that holds a library holds.
pub open spec fn library_view(result: Result<MediaInfo, Error>) -> Result<
    MediaInfoView,
    ErrorView,
> {
    match result {
        Ok(mediainfo) => Ok(mediainfo@),
        Err(error) => Err(error@),
    }
}

/// The library of a directory scanned for the first time. The files that can
/// be played become chapters, first those that are one chapter each and then
/// the tracks of the container files; each chapter gets the tags probed from
/// its file, and the chapters are put in order. A file without an extension
/// stands against it, and so does a directory without a file to play.
pub open spec fn new_spec(path: Seq<char>, files: Seq<ProbedFileView>) -> Result<
    MediaInfoView,
    ErrorView,
> {
    match scan_spec(file_entries(files)) {
        Err(error) => Err(error),
        Ok(content) => if content.len() == 0 {
            Err(ErrorView::NoValidFiles)
        } else {
            let known = Seq::<Seq<char>>::empty();
            let chapters = sort_spec(
                tagged_all(whole_chapters(files, known) + track_chapters(files, known), files),
            );
            Ok(
                MediaInfoView {
                    chaptercount: chapters.len(),
                    path,
                    speed: NORMAL_SPEED,
                    volume: INITIAL_VOLUME,
                    last_chapter: 0,
                    chapters,
                },
            )
        },
    }
}

/// The saved library brought up to date with the directory. Where the
/// directory lacks a file that a saved chapter names, nothing is merged and
/// the missing files are reported, one for each such chapter. Else the saved
/// chapters stay, with their bookmarks, positions and descriptions; the files
/// that no saved chapter names become chapters behind them, the tracks of the
/// container files first; all chapters get the tags probed from their files
/// and are put in order. The play settings and the last chapter stay.
pub open spec fn merge_spec(snapshot: MediaInfoView, files: Seq<ProbedFileView>) -> Result<
    MediaInfoView,
    ErrorView,
> {
    match scan_spec(file_entries(files)) {
        Err(error) => Err(error),
        Ok(content) => {
            let known = chapter_names(snapshot.chapters);
            let missing = absent_from(known, content);
            if missing.len() > 0 {
                Err(ErrorView::MissingFiles(missing))
            } else {
                let chapters = sort_spec(
                    tagged_all(
                        snapshot.chapters + track_chapters(files, known) + whole_chapters(
                            files,
                            known,
                        ),
                        files,
                    ),
                );
                Ok(
                    MediaInfoView {
                        chaptercount: chapters.len(),
                        path: snapshot.path,
                        speed: snapshot.speed,
                        volume: snapshot.volume,
                        last_chapter: snapshot.last_chapter,
                        chapters,
                    },
                )
            }
        },
    }
}

/// The listing that the probed files make.
fn entries_of(files: &Vec<ProbedFile>) -> (entries: Vec<Entry>)
    ensures
        entries_view(entries@) == file_entries(files_view(files@)),
{
    let mut entries: Vec<Entry> = Vec::new();
    let mut i: usize = 0;
    while i < files.len()
        invariant
            i <= files@.len(),
            entries@.len() == i,
            forall|k: int| 0 <= k < i ==> (#[trigger] entries@[k])@ == EntryView::File(
                files@[k]@.filename,
            ),
        decreases files@.len() - i,
    {
        entries.push(Entry::File(files[i].filename.clone()));
        i = i + 1;
    }
    assert(entries_view(entries@) =~= file_entries(files_view(files@)));
    entries
}

/// The file names of the chapters.
fn names_of(chapters: &Vec<Chapter>) -> (names: Vec<String>)
    ensures
        names_view(names@) == chapter_names(chapters_view(chapters@)),
{
    let mut names: Vec<String> = Vec::new();
    let mut i: usize = 0;
    while i < chapters.len()
        invariant
            i <= chapters@.len(),
            names@.len() == i,
            forall|k: int| 0 <= k < i ==> (#[trigger] names@[k])@ == chapters@[k]@.filename,
        decreases chapters@.len() - i,
    {
        names.push(chapters[i].filename.clone());
        i = i + 1;
    }
    assert(names_view(names@) =~= chapter_names(chapters_view(chapters@)));
    names
}

/// The names among `names` that `content` does not hold.
fn names_absent(names: &Vec<String>, content: &Vec<String>) -> (missing: Vec<String>)
    ensures
        names_view(missing@) == absent_from(names_view(names@), names_view(content@)),
{
    let ghost all = names_view(names@);
    let mut missing: Vec<String> = Vec::new();
    let mut i: usize = 0;
    assert(names_view(missing@) =~= Seq::empty());
    assert(all.take(0) =~= Seq::empty());
    while i < names.len()
        invariant
            i <= names@.len(),
            all == names_view(names@),
            names_view(missing@) == absent_from(all.take(i as int), names_view(content@)),
        decreases names@.len() - i,
    {
        proof {
            assert(all.take(i + 1).drop_last() =~= all.take(i as int));
            assert(all.take(i + 1).last() == names@[i as int]@);
        }
        if !holds_name(content, &names[i]) {
            let ghost before = names_view(missing@);
            missing.push(names[i].clone());
            assert(names_view(missing@) =~= before.push(names@[i as int]@));
        }
        i = i + 1;
    }
    assert(all.take(i as int) =~= all);
    missing
}

/// Tells whether the markers of every new container file can be made into
/// tracks; the files called as one of `known` are not new.
pub fn files_fit(files: &Vec<ProbedFile>, known: &Vec<String>) -> (fit: bool)
    ensures
        fit == markers_fit_spec(files_view(files@), names_view(known@)),
{
    let ghost all = files_view(files@);
    let ghost skip = names_view(known@);
    let mut i: usize = 0;
    while i < files.len()
        invariant
            i <= files@.len(),
            all == files_view(files@),
            skip == names_view(known@),
            forall|k: int|
                0 <= k < i && is_new_file(#[trigger] all[k], FileKind::Container, skip)
                    ==> markers_in_order(dedup_spec(all[k].markers), all[k].duration),
        decreases files@.len() - i,
    {
        let file = &files[i];
        assert(all[i as int] == file@);
        if file_kind(file.filename.as_str()) == FileKind::Container && !holds_name(
            known,
            &file.filename,
        ) {
            if !markers_fit(&file.markers, file.duration) {
                return false;
            }
        }
        i = i + 1;
    }
    true
}

impl MediaInfo {
    /// Whether the library is in a state that its operations keep: the
    /// chapter count is the number of chapters, the last chapter is one of
    /// them, the speed is above zero and the volume at most full, the
    /// chapters are in order and each of them is well-formed.
    pub open spec fn wf(&self) -> bool {
        &&& self.chaptercount == self.chapters@.len()
        &&& self.chaptercount > 0 ==> self.last_chapter < self.chaptercount
        &&& self.speed > 0
        &&& self.volume <= 100
        &&& is_sorted(chapters_view(self.chapters@))
        &&& forall|i: int| 0 <= i < self.chapters@.len() ==> (#[trigger] self.chapters@[i]).wf()
    }

    /// Whether a saved library, read back, can become a well-formed one: its
    /// speed is above zero, its volume at most full, its last chapter is one
    /// of its chapters or the first, and each of its chapters is well-formed.
    pub open spec fn sound(&self) -> bool {
        &&& self.speed > 0
        &&& self.volume <= 100
        &&& self.last_chapter == 0 || self.last_chapter < self.chapters@.len()
        &&& forall|i: int| 0 <= i < self.chapters@.len() ==> (#[trigger] self.chapters@[i]).wf()
    }

    /// Whether the markers of the new container files among `files` can be
    /// made into tracks; the files that a chapter of `self` names are not new.
    pub open spec fn fits(&self, files: Seq<ProbedFileView>) -> bool {
        markers_fit_spec(files, chapter_names(chapters_view(self.chapters@)))
    }

    /// The files that the chapters name and the playable files `content` of
    /// the directory do not hold, one for each such chapter.
    pub fn missing_files(&self, content: &Vec<String>) -> (missing: Vec<String>)
        ensures
            names_view(missing@) == absent_from(
                chapter_names(chapters_view(self.chapters@)),
                names_view(content@),
            ),
    {
        let known = names_of(&self.chapters);
        names_absent(&known, content)
    }

    /// Tells whether the markers of the new container files among `files`
    /// can be made into tracks.
    pub fn check_fit(&self, files: &Vec<ProbedFile>) -> (fit: bool)
        ensures
            fit == self.fits(files_view(files@)),
    {
        let known = names_of(&self.chapters);
        files_fit(files, &known)
    }

    /// Makes the library of the directory `path` from what probing its files
    /// found.
    pub fn new(path: String, files: &Vec<ProbedFile>) -> (library: Result<Self, Error>)
        requires
            markers_fit_spec(files_view(files@), Seq::empty()),
        ensures
            library_view(library) == new_spec(path@, files_view(files@)),
            library matches Ok(mediainfo) ==> mediainfo.wf(),
    {
        let entries = entries_of(files);
        let content = match scan_dir(&entries) {
            Ok(content) => content,
            Err(error) => {
                return Err(error);
            },
        };
        if content.len() == 0 {
            return Err(Error::NoValidFiles);
        }
        let known: Vec<String> = Vec::new();
        assert(names_view(known@) =~= Seq::empty());
        let mut chapters = build_chapters(files, &known, false);
        let mut tracks = build_chapters(files, &known, true);
        let ghost whole = chapters@;
        let ghost split = tracks@;
        chapters.append(&mut tracks);
        assert(chapters_view(chapters@) =~= chapters_view(whole) + chapters_view(split));
        assert forall|i: int| 0 <= i < chapters@.len() implies (#[trigger] chapters@[i]).wf() by {
            if i >= whole.len() {
                assert(chapters@[i] == split[i - whole.len()]);
            }
        }
        let ghost untagged = chapters@;
        scan_chapters(&mut chapters, files);
        assert forall|i: int| 0 <= i < chapters@.len() implies (#[trigger] chapters@[i]).wf() by {
            assert(untagged[i].wf());
        }
        proof {
            lemma_sort_sorted(chapters_view(chapters@));
        }
        sort_chapters(&mut chapters);
        let mediainfo = Self {
            last_chapter: 0,
            speed: NORMAL_SPEED,
            volume: INITIAL_VOLUME,
            path,
            chaptercount: chapters.len(),
            chapters,
        };
        proof {
            lemma_content_gives_chapters(files_view(files@));
        }
        Ok(mediainfo)
    }

    /// Brings the saved library `snapshot` up to date with what probing the
    /// files of its directory found.
    pub fn from_json(snapshot: MediaInfo, files: &Vec<ProbedFile>) -> (library: Result<
        Self,
        Error,
    >)
        requires
            snapshot.fits(files_view(files@)),
        ensures
            library_view(library) == merge_spec(snapshot@, files_view(files@)),
            library matches Ok(mediainfo) ==> {
                &&& mediainfo.chaptercount == mediainfo.chapters@.len()
                &&& is_sorted(chapters_view(mediainfo.chapters@))
                &&& (forall|i: int|
                    0 <= i < snapshot.chapters@.len() ==> (#[trigger] snapshot.chapters@[i]).wf())
                    ==> (forall|i: int|
                    0 <= i < mediainfo.chapters@.len() ==> (
                    #[trigger] mediainfo.chapters@[i]).wf())
                &&& snapshot.sound() ==> mediainfo.wf()
            },
    {
        let mut mediainfo = snapshot;
        let entries = entries_of(files);
        let content = match scan_dir(&entries) {
            Ok(content) => content,
            Err(error) => {
                return Err(error);
            },
        };
        let known = names_of(&mediainfo.chapters);
        let missing = names_absent(&known, &content);
        if missing.len() > 0 {
            return Err(Error::MissingFiles(missing));
        }
        let mut tracks = build_chapters(files, &known, true);
        let mut whole = build_chapters(files, &known, false);
        let ghost saved = mediainfo.chapters@;
        let ghost split = tracks@;
        let ghost plain = whole@;
        mediainfo.chapters.append(&mut tracks);
        mediainfo.chapters.append(&mut whole);
        assert(chapters_view(mediainfo.chapters@) =~= chapters_view(saved) + chapters_view(split)
            + chapters_view(plain));
        let ghost joined = mediainfo.chapters@;
        assert((forall|i: int| 0 <= i < saved.len() ==> (#[trigger] saved[i]).wf()) ==> (forall|
            i: int,
        | 0 <= i < joined.len() ==> (#[trigger] joined[i]).wf())) by {
            if forall|i: int| 0 <= i < saved.len() ==> (#[trigger] saved[i]).wf() {
                assert forall|i: int| 0 <= i < joined.len() implies (#[trigger] joined[i]).wf() by {
                    if i < saved.len() {
                        assert(joined[i] == saved[i]);
                    } else if i < saved.len() + split.len() {
                        assert(joined[i] == split[i - saved.len()]);
                    } else {
                        assert(joined[i] == plain[i - saved.len() - split.len()]);
                    }
                }
            }
        }
        mediainfo.chaptercount = mediainfo.chapters.len();
        scan_chapters(&mut mediainfo.chapters, files);
        let ghost tagged = mediainfo.chapters@;
        assert((forall|i: int| 0 <= i < saved.len() ==> (#[trigger] saved[i]).wf()) ==> (forall|
            i: int,
        | 0 <= i < tagged.len() ==> (#[trigger] tagged[i]).wf())) by {
            if forall|i: int| 0 <= i < saved.len() ==> (#[trigger] saved[i]).wf() {
                assert forall|i: int| 0 <= i < tagged.len() implies (#[trigger] tagged[i]).wf() by {
                    assert(joined[i].wf());
                }
            }
        }
        proof {
            lemma_sort_sorted(chapters_view(mediainfo.chapters@));
        }
        sort_chapters(&mut mediainfo.chapters);
        Ok(mediainfo)
    }

    /// The library of the directory `path`: the saved library brought up to
    /// date where there is one, else a new one.
    pub fn from_cache_or_new(
        path: String,
        snapshot: Option<MediaInfo>,
        files: &Vec<ProbedFile>,
    ) -> (library: Result<Self, Error>)
        requires
            match snapshot {
                Some(saved) => saved.fits(files_view(files@)),
                None => markers_fit_spec(files_view(files@), Seq::empty()),
            },
        ensures
            library_view(library) == match snapshot {
                Some(saved) => match merge_spec(saved@, files_view(files@)) {
                    Ok(merged) => Ok(MediaInfoView { path: path@, ..merged }),
                    Err(error) => Err(error),
                },
                None => new_spec(path@, files_view(files@)),
            },
            library matches Ok(mediainfo) ==> match snapshot {
                Some(saved) => saved.sound() ==> mediainfo.wf(),
                None => mediainfo.wf(),
            },
    {
        match snapshot {
            Some(saved) => {
                match MediaInfo::from_json(saved, files) {
                    Ok(mut mediainfo) => {
                        mediainfo.path = path;
                        Ok(mediainfo)
                    },
                    Err(error) => Err(error),
                }
            },
            None => MediaInfo::new(path, files),
        }
    }
}

/// Where a directory has files to play, its chapters are not none: each such
/// file gives at least one.
proof fn lemma_content_gives_chapters(files: Seq<ProbedFileView>)
    requires
        scan_spec(file_entries(files)) matches Ok(content) && content.len() > 0,
    ensures
        whole_chapters(files, Seq::empty()).len() + track_chapters(files, Seq::empty()).len() > 0,
    decreases files.len(),
{
    let entries = file_entries(files);
    let known = Seq::<Seq<char>>::empty();
    if files.len() > 0 {
        let front = files.drop_last();
        assert(file_entries(front) =~= entries.drop_last());
        let file = files.last();
        assert(entries.last() == EntryView::File(file.filename));
        match file_kind_spec(file.filename) {
            FileKind::Plain => {},
            FileKind::Container => {
                let tracks = split_spec(file.filename, file.markers, file.duration);
                assert(tracks.len() > 0);
            },
            _ => {
                lemma_content_gives_chapters(front);
            },
        }
    }
}

/// A name that `content` does not hold is among the absent ones, and the
/// absent ones are none where `content` holds every name.
pub proof fn lemma_absent_from(names: Seq<Seq<char>>, content: Seq<Seq<char>>)
    ensures
        forall|i: int|
            0 <= i < names.len() && !content.contains(#[trigger] names[i]) ==> absent_from(
                names,
                content,
            ).contains(names[i]),
        forall|k: int|
            0 <= k < absent_from(names, content).len() ==> names.contains(
                #[trigger] absent_from(names, content)[k],
            ) && !content.contains(absent_from(names, content)[k]),
    decreases names.len(),
{
    if names.len() > 0 {
        let front = names.drop_last();
        lemma_absent_from(front, content);
        let found = absent_from(names, content);
        let before = absent_from(front, content);
        assert forall|i: int| 0 <= i < names.len() && !content.contains(
            #[trigger] names[i],
        ) implies found.contains(names[i]) by {
            if i < front.len() {
                assert(front[i] == names[i]);
                let k = choose|k: int| 0 <= k < before.len() && before[k] == front[i];
                assert(found[k] == names[i]);
            } else {
                assert(found[found.len() - 1] == names[i]);
            }
        }
        assert forall|k: int| 0 <= k < found.len() implies names.contains(#[trigger] found[k])
            && !content.contains(found[k]) by {
            if k < before.len() {
                assert(found[k] == before[k]);
                let i = choose|i: int| 0 <= i < front.len() && front[i] == before[k];
                assert(names[i] == found[k]);
            } else {
                assert(names[names.len() - 1] == found[k]);
            }
        }
    }
}

/// A saved library is not brought up to date while the directory lacks a
/// file that one of its chapters names: the merge is refused, and that file
/// is among those reported as missing.
pub proof fn lemma_merge_refuses_missing(
    snapshot: MediaInfoView,
    files: Seq<ProbedFileView>,
    i: int,
)
    requires
        0 <= i < snapshot.chapters.len(),
        scan_spec(file_entries(files)) matches Ok(content) && !content.contains(
            snapshot.chapters[i].filename,
        ),
    ensures
        merge_spec(snapshot, files) matches Err(ErrorView::MissingFiles(missing))
            && missing.contains(snapshot.chapters[i].filename),
{
    let content = scan_spec(file_entries(files))->Ok_0;
    let known = chapter_names(snapshot.chapters);
    lemma_absent_from(known, content);
    assert(known[i] == snapshot.chapters[i].filename);
    let missing = absent_from(known, content);
    assert(missing.contains(known[i]));
}

/// A merge that succeeds loses nothing that was saved: each saved chapter is
/// in the merged library, with the bookmarks, positions and description that
/// it had, and every chapter of the merged library is a saved one or one
/// made from a file that no saved chapter names.
pub proof fn lemma_merge_keeps_saved(snapshot: MediaInfoView, files: Seq<ProbedFileView>, i: int)
    requires
        0 <= i < snapshot.chapters.len(),
        merge_spec(snapshot, files) is Ok,
    ensures
        ({
            let merged = merge_spec(snapshot, files)->Ok_0;
            let known = chapter_names(snapshot.chapters);
            let chapter = tagged(snapshot.chapters[i], files);
            &&& merged.chapters.contains(chapter)
            &&& chapter.filename == snapshot.chapters[i].filename
            &&& chapter.bookmarks == snapshot.chapters[i].bookmarks
            &&& chapter.last_position == snapshot.chapters[i].last_position
            &&& chapter.description == snapshot.chapters[i].description
            &&& chapter.start_position == snapshot.chapters[i].start_position
            &&& chapter.length == snapshot.chapters[i].length
            &&& merged.chaptercount == merged.chapters.len()
            &&& merged.chapters.len() == snapshot.chapters.len() + track_chapters(
                files,
                known,
            ).len() + whole_chapters(files, known).len()
        }),
{
    let known = chapter_names(snapshot.chapters);
    let joined = snapshot.chapters + track_chapters(files, known) + whole_chapters(files, known);
    let all = tagged_all(joined, files);
    let merged = merge_spec(snapshot, files)->Ok_0;
    assert(merged.chapters == sort_spec(all));
    lemma_sort_permutes(all);
    lemma_sort_sorted(all);
    assert(joined[i] == snapshot.chapters[i]);
    assert(all[i] == tagged(snapshot.chapters[i], files));
    assert(all.contains(all[i]));
    vstd::seq_lib::to_multiset_contains(all, all[i]);
    vstd::seq_lib::to_multiset_contains(sort_spec(all), all[i]);
}

/// A well-formed library stays well-formed when one of its chapters gives
/// way to a well-formed one with the same place in the order, whatever
/// becomes of its settings within their bounds.
pub proof fn lemma_replace_keeps_wf(before: MediaInfo, after: MediaInfo, i: int)
    requires
        before.wf(),
        0 <= i < before.chapters@.len(),
        after.chapters@ == before.chapters@.update(i, after.chapters@[i]),
        after.chapters@[i].wf(),
        same_place(after.chapters@[i]@, before.chapters@[i]@),
        after.chaptercount == before.chaptercount,
        after.speed > 0,
        after.volume <= 100,
        after.last_chapter < after.chaptercount,
    ensures
        after.wf(),
{
    let old_views = chapters_view(before.chapters@);
    let new_views = chapters_view(after.chapters@);
    lemma_replace_keeps_sorted(old_views, i, after.chapters@[i]@);
    assert(new_views =~= old_views.update(i, after.chapters@[i]@));
    assert forall|k: int| 0 <= k < after.chapters@.len() implies (
    #[trigger] after.chapters@[k]).wf() by {
        if k != i {
            assert(after.chapters@[k] == before.chapters@[k]);
        }
    }
}

} // verus!
