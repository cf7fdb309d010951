//! A chapter: one playable unit, a whole file or one track of a container
//! file, with its bookmarks.

use super::bookmarks::{Bookmark, BookmarkView};
use super::opt_view;
use super::bookmarks::{bookmark_label, time_part};
use crate::helpers::{format_spec, format_with_offset_spec, push_time, start_as_nat};
use vstd::prelude::*;

verus! {

/// The descriptive tags that probing a file finds.
#[derive(Debug)]
pub struct Tags {
    pub title: Option<String>,
    pub album: Option<String>,
    pub artist: Option<String>,
    pub description: Option<String>,
    pub track_number: Option<u32>,
    pub track_count: Option<u32>,
}

/// The mathematical content of [`Tags`].
pub struct TagsView {
    pub title: Option<Seq<char>>,
    pub album: Option<Seq<char>>,
    pub artist: Option<Seq<char>>,
    pub description: Option<Seq<char>>,
    pub track_number: Option<u32>,
    pub track_count: Option<u32>,
}

impl View for Tags {
    type V = TagsView;

    open spec fn view(&self) -> TagsView {
        TagsView {
            title: opt_view(self.title),
            album: opt_view(self.album),
            artist: opt_view(self.artist),
            description: opt_view(self.description),
            track_number: self.track_number,
            track_count: self.track_count,
        }
    }
}

/// A copy of an optional text.
fn copy_text(text: &Option<String>) -> (copy: Option<String>)
    ensures
        copy == *text,
{
    match text {
        Some(text) => Some(text.clone()),
        None => None,
    }
}

impl Tags {
    /// Tags that say nothing.
    pub fn none() -> (tags: Self)
        ensures
            tags@ == (TagsView {
                title: None,
                album: None,
                artist: None,
                description: None,
                track_number: None,
                track_count: None,
            }),
    {
        Tags {
            title: None,
            album: None,
            artist: None,
            description: None,
            track_number: None,
            track_count: None,
        }
    }

    /// A copy of the tags.
    pub fn duplicate(&self) -> (copy: Self)
        ensures
            copy == *self,
    {
        Tags {
            title: copy_text(&self.title),
            album: copy_text(&self.album),
            artist: copy_text(&self.artist),
            description: copy_text(&self.description),
            track_number: self.track_number,
            track_count: self.track_count,
        }
    }
}

/// A chapter with its descriptive fields taken from `tags`.
pub open spec fn with_tags(chapter: ChapterView, tags: TagsView) -> ChapterView {
    ChapterView {
        title: tags.title,
        album: tags.album,
        artist: tags.artist,
        desc_from_file: tags.description,
        trackcount: tags.track_count,
        tracknumber: tags.track_number,
        ..chapter
    }
}

/// Information about a single file / chapter
#[derive(Debug)]
pub struct Chapter {
    pub filename: String,
    /// start position of a container's track in seconds from the start of the
    /// file; absent for a chapter that is a whole file
    pub start_position: Option<u64>,
    /// in seconds
    pub length: u64,
    pub length_display: String,
    pub bookmarks: Vec<Bookmark>,
    /// absolute position of when the chapter was last played
    pub last_position: u64,
    pub m4_title: Option<String>,
    pub m4_tracknumber: Option<u32>,
    pub description: Option<String>,
    pub title: Option<String>,
    pub album: Option<String>,
    pub artist: Option<String>,
    pub tracknumber: Option<u32>,
    pub trackcount: Option<u32>,
    /// description from the description tag
    pub desc_from_file: Option<String>,
    /// position saved by the user
    pub z_position: Option<u64>,
    /// position saved before a jump
    pub before_jump_position: Option<u64>,
}

/// The mathematical content of a chapter.
pub struct ChapterView {
    pub filename: Seq<char>,
    pub start_position: Option<u64>,
    pub length: u64,
    pub length_display: Seq<char>,
    pub bookmarks: Seq<BookmarkView>,
    pub last_position: u64,
    pub m4_title: Option<Seq<char>>,
    pub m4_tracknumber: Option<u32>,
    pub description: Option<Seq<char>>,
    pub title: Option<Seq<char>>,
    pub album: Option<Seq<char>>,
    pub artist: Option<Seq<char>>,
    pub tracknumber: Option<u32>,
    pub trackcount: Option<u32>,
    pub desc_from_file: Option<Seq<char>>,
    pub z_position: Option<u64>,
    pub before_jump_position: Option<u64>,
}

impl View for Chapter {
    type V = ChapterView;

    open spec fn view(&self) -> ChapterView {
        ChapterView {
            filename: self.filename@,
            start_position: self.start_position,
            length: self.length,
            length_display: self.length_display@,
            bookmarks: self.bookmarks@.map_values(|b: Bookmark| b@),
            last_position: self.last_position,
            m4_title: opt_view(self.m4_title),
            m4_tracknumber: self.m4_tracknumber,
            description: opt_view(self.description),
            title: opt_view(self.title),
            album: opt_view(self.album),
            artist: opt_view(self.artist),
            tracknumber: self.tracknumber,
            trackcount: self.trackcount,
            desc_from_file: opt_view(self.desc_from_file),
            z_position: self.z_position,
            before_jump_position: self.before_jump_position,
        }
    }
}

/// A chapter as it is when first made: never played, without bookmarks,
/// description or probed tags.
pub open spec fn fresh_chapter(
    filename: Seq<char>,
    start_position: Option<u64>,
    length: u64,
    m4_title: Option<Seq<char>>,
    m4_tracknumber: Option<u32>,
) -> ChapterView {
    ChapterView {
        filename,
        start_position,
        length,
        length_display: format_spec(length as nat),
        bookmarks: Seq::empty(),
        last_position: 0,
        m4_title,
        m4_tracknumber,
        description: None,
        title: None,
        album: None,
        artist: None,
        tracknumber: None,
        trackcount: None,
        desc_from_file: None,
        z_position: None,
        before_jump_position: None,
    }
}

/// What a list of chapters holds.
pub open spec fn chapters_view(chapters: Seq<Chapter>) -> Seq<ChapterView> {
    chapters.map_values(|chapter: Chapter| chapter@)
}

/// The name shown for a chapter: the container's title for the track, else
/// the probed title, else the file name.
pub open spec fn shown_name(chapter: ChapterView) -> Seq<char> {
    match chapter.m4_title {
        Some(m4_title) => m4_title,
        None => match chapter.title {
            Some(title) => title,
            None => chapter.filename,
        },
    }
}

/// The compact form of a length in seconds.
pub fn formatted_time(length: u64) -> (text: String)
    ensures
        text@ == format_spec(length as nat),
{
    let mut text = String::new();
    push_time(&mut text, length);
    assert(text@ =~= format_spec(length as nat));
    text
}

impl Chapter {
    /// Whether the derived texts agree with the data: the length display is
    /// the form of the length, and each bookmark's text is the one of its name
    /// and position in this chapter.
    pub open spec fn wf(&self) -> bool {
        &&& self.length_display@ == format_spec(self.length as nat)
        &&& forall|i: int|
            0 <= i < self.bookmarks@.len() ==> (#[trigger] self.bookmarks@[i]).formatted_for(
                self.start_position,
            )
    }

    /// The name shown for the chapter.
    pub open spec fn display_name(&self) -> Seq<char> {
        shown_name(self@)
    }

    /// A chapter that is the whole file `filename`, `length` seconds long.
    pub fn new(filename: String, start_position: Option<u64>, length: u64) -> (chapter: Self)
        ensures
            chapter@ == fresh_chapter(filename@, start_position, length, None, None),
            chapter.wf(),
    {
        let chapter = Self {
            filename,
            last_position: 0,
            bookmarks: Vec::new(),
            start_position,
            length,
            length_display: formatted_time(length),
            description: None,
            m4_title: None,
            m4_tracknumber: None,
            title: None,
            album: None,
            artist: None,
            tracknumber: None,
            trackcount: None,
            desc_from_file: None,
            z_position: None,
            before_jump_position: None,
        };
        assert(chapter@.bookmarks =~= Seq::empty());
        chapter
    }

    /// Makes a chapter from one track of a container file. A length that is
    /// not known yet counts as zero.
    pub fn from_m4(
        filename: String,
        title: Option<String>,
        start_position: Option<u64>,
        subtracknumber: Option<u32>,
        length: Option<u64>,
    ) -> (chapter: Self)
        ensures
            chapter@ == fresh_chapter(
                filename@,
                start_position,
                match length {
                    Some(length) => length,
                    None => 0,
                },
                opt_view(title),
                subtracknumber,
            ),
            chapter.wf(),
    {
        let length = match length {
            Some(length) => length,
            None => 0,
        };
        let chapter = Self {
            filename,
            last_position: 0,
            bookmarks: Vec::new(),
            start_position,
            length,
            length_display: formatted_time(length),
            description: None,
            m4_title: title,
            m4_tracknumber: subtracknumber,
            title: None,
            album: None,
            artist: None,
            tracknumber: None,
            trackcount: None,
            desc_from_file: None,
            before_jump_position: None,
            z_position: None,
        };
        assert(chapter@.bookmarks =~= Seq::empty());
        chapter
    }

    /// Takes the descriptive information of the chapter from the tags probed
    /// from its file. What came from a container or from the user stays.
    pub fn get_info_from_tags(&mut self, tags: Tags)
        ensures
            *final(self) == (Chapter {
                title: tags.title,
                album: tags.album,
                artist: tags.artist,
                desc_from_file: tags.description,
                trackcount: tags.track_count,
                tracknumber: tags.track_number,
                ..*old(self)
            }),
            final(self)@ == with_tags(old(self)@, tags@),
            old(self).wf() ==> final(self).wf(),
    {
        self.title = tags.title;
        self.album = tags.album;
        self.artist = tags.artist;
        self.desc_from_file = tags.description;
        self.trackcount = tags.track_count;
        self.tracknumber = tags.track_number;
    }

    /// The compact form of the chapter's length.
    pub fn formatted_length(&self) -> (text: String)
        ensures
            text@ == format_spec(self.length as nat),
    {
        formatted_time(self.length)
    }

    /// Adds a bookmark called `name` at `position`, an absolute position in
    /// the file, behind the bookmarks that are there.
    pub fn add_bookmark(&mut self, name: String, position: u64)
        requires
            old(self).start_position matches Some(start) ==> start <= position,
        ensures
            final(self).bookmarks@.len() == old(self).bookmarks@.len() + 1,
            final(self).bookmarks@.drop_last() == old(self).bookmarks@,
            final(self).bookmarks@.last().position == position,
            final(self).bookmarks@.last().name == name,
            final(self).bookmarks@.last().formatted_for(old(self).start_position),
            *final(self) == (Chapter { bookmarks: final(self).bookmarks, ..*old(self) }),
            old(self).wf() ==> final(self).wf(),
    {
        let bookmark = Bookmark::new(position, self.start_position, name);
        self.bookmarks.push(bookmark);
        assert(self.bookmarks@.drop_last() =~= old(self).bookmarks@);
    }

    /// The title of the chapter, or the file name where it has none.
    pub fn get_title_or_filename(&self) -> (name: &String)
        ensures
            name@ == self.display_name(),
    {
        match &self.m4_title {
            Some(m4_title) => m4_title,
            None => match &self.title {
                Some(title) => title,
                None => &self.filename,
            },
        }
    }

    /// The title of the chapter, or the file name where it has none.
    pub fn get_name(&self) -> (name: &str)
        ensures
            name@ == self.display_name(),
    {
        self.get_title_or_filename().as_str()
    }

    /// Records where the chapter was last played.
    pub fn update_last_position(&mut self, position: u64)
        ensures
            *final(self) == (Chapter { last_position: position, ..*old(self) }),
            old(self).wf() ==> final(self).wf(),
    {
        self.last_position = position;
    }

    /// Records, or forgets, the position that the user saved.
    pub fn update_saved_position(&mut self, position: Option<u64>)
        ensures
            *final(self) == (Chapter { z_position: position, ..*old(self) }),
            old(self).wf() ==> final(self).wf(),
    {
        self.z_position = position;
    }

    /// Where the chapter starts in its file: zero for a whole file.
    pub fn get_start_position(&self) -> (start: u64)
        ensures
            start == match self.start_position {
                Some(start_position) => start_position,
                None => 0,
            },
    {
        match self.start_position {
            Some(start_position) => start_position,
            None => 0,
        }
    }

    /// Takes the bookmark at `index` out. The last bookmark takes its place,
    /// so the order of the remaining ones is not kept.
    pub fn delete_bookmark(&mut self, index: usize) -> (bookmark: Bookmark)
        requires
            index < old(self).bookmarks@.len(),
        ensures
            bookmark == old(self).bookmarks@[index as int],
            final(self).bookmarks@ == old(self).bookmarks@.update(
                index as int,
                old(self).bookmarks@.last(),
            ).drop_last(),
            *final(self) == (Chapter { bookmarks: final(self).bookmarks, ..*old(self) }),
            old(self).wf() ==> final(self).wf(),
    {
        self.bookmarks.swap_remove(index)
    }

    /// The number of the track: the container's ordinal, else the probed
    /// track number.
    pub fn get_track_number(&self) -> (number: u32)
        requires
            self.m4_tracknumber is Some || self.tracknumber is Some,
        ensures
            number == match self.m4_tracknumber {
                Some(ordinal) => ordinal,
                None => self.tracknumber->0,
            },
    {
        match self.m4_tracknumber {
            Some(ordinal) => ordinal,
            None => match self.tracknumber {
                Some(number) => number,
                None => 0,
            },
        }
    }
}

/// In a well-formed chapter the text of each bookmark is its name, in
/// quotes, and the form of its position inside the chapter: the offset from
/// the start of the chapter and the absolute position behind it.
pub proof fn lemma_bookmark_texts(chapter: Chapter, i: int)
    requires
        chapter.wf(),
        0 <= i < chapter.bookmarks@.len(),
    ensures
        chapter.bookmarks@[i].formatted_position@ == bookmark_label(
            chapter.bookmarks@[i].name@,
            format_with_offset_spec(
                chapter.bookmarks@[i].position as nat,
                start_as_nat(chapter.start_position),
            ),
        ),
        time_part(chapter.bookmarks@[i].formatted_position@, chapter.bookmarks@[i].name@)
            == format_with_offset_spec(
            chapter.bookmarks@[i].position as nat,
            start_as_nat(chapter.start_position),
        ),
{
    let bookmark = chapter.bookmarks@[i];
    assert(bookmark.formatted_for(chapter.start_position));
    let time = format_with_offset_spec(
        bookmark.position as nat,
        start_as_nat(chapter.start_position),
    );
    assert(bookmark_label(bookmark.name@, time).skip((bookmark.name@.len() + 6) as int) =~= time);
}

} // verus!
