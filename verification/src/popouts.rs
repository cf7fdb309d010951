//! The modal parts of the session: the text prompt, the yes/no question and
//! the two bookmark menus. The caller draws them and reads the keys; what a
//! key means is decided here.

use crate::actions::{said, start_of, App, Command, Playback};
use crate::cache::{without_bookmarks, Cache};
use crate::data::bookmarks::{bookmark_label, time_part, Bookmark};
use crate::data::chapter::Chapter;
use crate::data::mediainfo::{lemma_replace_keeps_wf, MediaInfo};
use crate::helpers::{chars_of, decimal, push_decimal};
use crate::msgs::{tick_spec, MsgsView};
use vstd::prelude::*;
use vstd::string::*;

verus! {

/// A key, as far as the modal parts tell keys apart.
#[derive(Clone, Copy, Debug, PartialEq, Eq, Structural)]
pub enum Key {
    Enter,
    Esc,
    Backspace,
    Up,
    Down,
    /// a character, and whether the control key was held with it
    Char { c: char, control: bool },
    /// any other key
    Other,
}

/// How a prompt goes on after a key.
#[derive(Clone, Copy, Debug, PartialEq, Eq, Structural)]
pub enum Entered {
    /// the prompt goes on
    Going,
    /// the text was confirmed
    Done,
    /// the prompt was cancelled
    Cancelled,
}

/// The text without its last word: what stands in front of its last space,
/// or nothing where it has no space.
pub open spec fn without_last_word(text: Seq<char>) -> Seq<char>
    decreases text.len(),
{
    if text.len() == 0 {
        text
    } else if text.last() == ' ' {
        text.drop_last()
    } else {
        without_last_word(text.drop_last())
    }
}

/// The text of a prompt after a key.
pub open spec fn typed_spec(text: Seq<char>, key: Key) -> Seq<char> {
    match key {
        Key::Char { c, control } => if control && c == 'w' {
            without_last_word(text)
        } else {
            text.push(c)
        },
        Key::Backspace => if text.len() > 0 {
            text.drop_last()
        } else {
            text
        },
        _ => text,
    }
}

/// How a prompt goes on after a key.
pub open spec fn entered_spec(key: Key) -> Entered {
    match key {
        Key::Enter => Entered::Done,
        Key::Esc => Entered::Cancelled,
        _ => Entered::Going,
    }
}

/// The text that the user is typing into a prompt.
#[derive(Debug)]
pub struct Input {
    pub text: Vec<char>,
}

impl Input {
    /// A prompt that starts with the text `initial`, or empty.
    pub fn new(initial: Option<&String>) -> (input: Self)
        ensures
            input.text@ == match initial {
                Some(text) => text@,
                None => Seq::empty(),
            },
    {
        match initial {
            Some(text) => Input { text: chars_of(text.as_str()) },
            None => Input { text: Vec::new() },
        }
    }

    /// Takes a key: a character is appended, Backspace takes the last
    /// character away and control with `w` the last word; Enter confirms the
    /// text and Escape cancels the prompt.
    pub fn on_key(&mut self, key: Key) -> (entered: Entered)
        ensures
            final(self).text@ == typed_spec(old(self).text@, key),
            entered == entered_spec(key),
    {
        match key {
            Key::Enter => Entered::Done,
            Key::Esc => Entered::Cancelled,
            Key::Backspace => {
                let _ = self.text.pop();
                Entered::Going
            },
            Key::Char { c, control } => {
                if control && c == 'w' {
                    loop
                        invariant_except_break
                            without_last_word(self.text@) == without_last_word(old(self).text@),
                        ensures
                            self.text@ == without_last_word(old(self).text@),
                        decreases self.text@.len(),
                    {
                        match self.text.pop() {
                            Some(last) => {
                                if last == ' ' {
                                    break ;
                                }
                            },
                            None => {
                                break ;
                            },
                        }
                    }
                } else {
                    self.text.push(c);
                }
                Entered::Going
            },
            _ => Entered::Going,
        }
    }
}

/// What a key answers to a yes/no question: `y` is yes; `n`, `q` and Escape
/// are no; any other key is no answer.
pub fn confirm_key(key: Key) -> (answer: Option<bool>)
    ensures
        answer == match key {
            Key::Char { c, control } => if c == 'y' {
                Some(true)
            } else if c == 'n' || c == 'q' {
                Some(false)
            } else {
                None
            },
            Key::Esc => Some(false),
            _ => None,
        },
{
    match key {
        Key::Char { c, control } => {
            if c == 'y' {
                Some(true)
            } else if c == 'n' || c == 'q' {
                Some(false)
            } else {
                None
            }
        },
        Key::Esc => Some(false),
        _ => None,
    }
}

/// The row of a menu of `len` rows that is chosen when the menu opens: the
/// row that was chosen the last time, or the last row where the menu has
/// become shorter; the first row where none was chosen before.
pub fn start_index(remembered: Option<usize>, len: usize) -> (index: usize)
    ensures
        index == match remembered {
            Some(index) => if index >= len {
                if len == 0 {
                    0
                } else {
                    len - 1
                }
            } else {
                index as int
            },
            None => 0,
        },
{
    match remembered {
        Some(index) => if index >= len {
            if len == 0 {
                0
            } else {
                len - 1
            }
        } else {
            index
        },
        None => 0,
    }
}

/// What a key asks of a menu.
#[derive(Clone, Copy, Debug, PartialEq, Eq, Structural)]
pub enum MenuStep {
    /// the menu closes without a choice
    Cancel,
    /// another row is chosen
    Move(usize),
    /// the chosen row is taken
    Choose,
    /// the chosen bookmark is to be renamed
    Rename,
    /// the chosen bookmark is to be deleted
    Delete,
    /// the key means nothing
    Ignore,
}

/// What a key asks of a menu of `len` rows with the row `index` chosen.
pub open spec fn menu_step_spec(key: Key, index: usize, len: usize, editable: bool) -> MenuStep {
    match key {
        Key::Esc => MenuStep::Cancel,
        Key::Enter => MenuStep::Choose,
        Key::Up => MenuStep::Move(
            if index == 0 {
                0
            } else {
                (index - 1) as usize
            },
        ),
        Key::Down => MenuStep::Move(
            if index + 1 < len {
                (index + 1) as usize
            } else {
                (len - 1) as usize
            },
        ),
        Key::Char { c, control } => if c == 'q' {
            MenuStep::Cancel
        } else if c == 'k' {
            MenuStep::Move(
                if index == 0 {
                    0
                } else {
                    (index - 1) as usize
                },
            )
        } else if c == 'j' {
            MenuStep::Move(
                if index + 1 < len {
                    (index + 1) as usize
                } else {
                    (len - 1) as usize
                },
            )
        } else if editable && c == 'e' {
            MenuStep::Rename
        } else if editable && c == 'd' {
            MenuStep::Delete
        } else {
            MenuStep::Ignore
        },
        _ => MenuStep::Ignore,
    }
}

/// Tells what a key asks of a menu of `len` rows with the row `index`
/// chosen. Only the menu of one chapter can rename and delete.
pub fn menu_step(key: Key, index: usize, len: usize, editable: bool) -> (step: MenuStep)
    requires
        len > 0,
    ensures
        step == menu_step_spec(key, index, len, editable),
{
    let up = if index == 0 {
        0
    } else {
        index - 1
    };
    let down = if index < len - 1 {
        index + 1
    } else {
        len - 1
    };
    match key {
        Key::Esc => MenuStep::Cancel,
        Key::Enter => MenuStep::Choose,
        Key::Up => MenuStep::Move(up),
        Key::Down => MenuStep::Move(down),
        Key::Char { c, control } => {
            if c == 'q' {
                MenuStep::Cancel
            } else if c == 'k' {
                MenuStep::Move(up)
            } else if c == 'j' {
                MenuStep::Move(down)
            } else if editable && c == 'e' {
                MenuStep::Rename
            } else if editable && c == 'd' {
                MenuStep::Delete
            } else {
                MenuStep::Ignore
            }
        },
        _ => MenuStep::Ignore,
    }
}

/// Opens a prompt at the time `now`: the hint how to leave it is shown at
/// once.
pub fn open_prompt(app: &mut App, now: u64)
    ensures
        final(app).msgs@ == tick_spec(said(old(app).msgs@, "Press Escape to cancel"@), now),
        *final(app) == (App { msgs: final(app).msgs, ..*old(app) }),
{
    app.say("Press Escape to cancel");
    app.msgs.on_tick(now);
}

/// Opens the help at the time `now`: the playback pauses, and the hint how
/// to leave the help is shown at once.
pub fn open_help(app: &mut App, now: u64) -> (commands: Vec<Command>)
    ensures
        commands@ == seq![Command::Pause],
        final(app).msgs@ == tick_spec(said(old(app).msgs@, "Press Escape to cancel"@), now),
        *final(app) == (App { msgs: final(app).msgs, playback: Playback::Paused, ..*old(app) }),
{
    let mut commands: Vec<Command> = Vec::new();
    commands.push(Command::Pause);
    app.playback = Playback::Paused;
    app.say("Press Escape to cancel");
    app.msgs.on_tick(now);
    commands
}

/// How many rows each of the two columns of the help has: half of the
/// keybindings, the second column one more where their number is odd.
pub fn help_split(keybindings: usize) -> (first: usize)
    ensures
        first == keybindings / 2,
{
    keybindings / 2
}

/// How a menu was opened: the row that is chosen, and whether the playback
/// was going on.
#[derive(Clone, Copy, Debug, PartialEq, Eq, Structural)]
pub struct Opened {
    pub index: usize,
    pub was_playing: bool,
}

/// The hint shown while the menu of the bookmarks of one chapter is open.
pub open spec fn bookmarks_hint() -> Seq<char> {
    "Press Enter to chose a bookmark. Press j and k to move up and down. Press d to delete
a bookmark. Press e to change a name of a bookmark. Press Escape to cancel."@
}

/// The hint shown while the menu of the bookmarks of all chapters is open.
pub open spec fn all_bookmarks_hint() -> Seq<char> {
    "Press Enter to chose a bookmark. Press jk to move up and down. Press Escape to cancel."@
}

/// Opens the menu of the bookmarks of the chosen chapter, at the time `now`
/// and with the engine at `position`. A chapter without bookmarks has no
/// menu. Else the playback pauses, the position is kept as the one before a
/// jump, and the hint is shown at once.
pub fn open_bookmarks(
    app: &mut App,
    mediainfo: &mut MediaInfo,
    now: u64,
    position: Option<u64>,
    commands: &mut Vec<Command>,
) -> (opened: Option<Opened>)
    requires
        old(app).in_step(old(mediainfo)),
    ensures
        old(mediainfo).wf() ==> final(mediainfo).wf(),
        *final(mediainfo) == (MediaInfo { chapters: final(mediainfo).chapters, ..*old(mediainfo) }),
        ({
            let at = old(app).current_chapter_index as int;
            let chapter = old(mediainfo).chapters@[at];
            let len = chapter.bookmarks@.len();
            if len == 0 {
                &&& opened is None
                &&& final(commands)@ == old(commands)@
                &&& *final(mediainfo) == *old(mediainfo)
                &&& final(app).msgs@ == said(
                    old(app).msgs@,
                    "This chapter doesn't have any bookmarks"@,
                )
                &&& *final(app) == (App { msgs: final(app).msgs, ..*old(app) })
            } else {
                let was_playing = old(app).playback == Playback::Playing;
                &&& opened == Some(
                    Opened {
                        index: match old(app).index_bookmark {
                            Some(index) => if index >= len {
                                (len - 1) as usize
                            } else {
                                index
                            },
                            None => 0,
                        },
                        was_playing,
                    },
                )
                &&& final(commands)@ == if was_playing {
                    old(commands)@.push(Command::Pause)
                } else {
                    old(commands)@
                }
                &&& final(mediainfo).chapters@ == match position {
                    Some(pos) => old(mediainfo).chapters@.update(
                        at,
                        Chapter { before_jump_position: Some(pos), ..chapter },
                    ),
                    None => old(mediainfo).chapters@,
                }
                &&& final(app).msgs@ == tick_spec(said(old(app).msgs@, bookmarks_hint()), now)
                &&& *final(app) == (App {
                    msgs: final(app).msgs,
                    playback: if was_playing {
                        Playback::Paused
                    } else {
                        old(app).playback
                    },
                    ..*old(app)
                })
            }
        }),
{
    let len = mediainfo.chapters[app.current_chapter_index].bookmarks.len();
    if len == 0 {
        app.say("This chapter doesn't have any bookmarks");
        return None;
    }
    let was_playing = app.is_playing_and_pause(commands);
    match position {
        Some(pos) => {
            mediainfo.chapters[app.current_chapter_index].before_jump_position = Some(pos);
            proof {
                if old(mediainfo).wf() {
                    lemma_replace_keeps_wf(
                        *old(mediainfo),
                        *mediainfo,
                        app.current_chapter_index as int,
                    );
                }
            }
        },
        None => {},
    }
    let index = start_index(app.index_bookmark, len);
    app.say(
        "Press Enter to chose a bookmark. Press j and k to move up and down. Press d to delete
a bookmark. Press e to change a name of a bookmark. Press Escape to cancel.",
    );
    app.msgs.on_tick(now);
    Some(Opened { index, was_playing })
}

/// Tells that a bookmark menu was left without a choice.
pub fn cancel_menu(app: &mut App)
    ensures
        final(app).msgs@ == said(old(app).msgs@, "Canceled choosing a bookmark"@),
        *final(app) == (App { msgs: final(app).msgs, ..*old(app) }),
{
    app.say("Canceled choosing a bookmark");
}

/// Renames the bookmark at `index` of the chosen chapter to what the user
/// gave in the prompt; a cancelled prompt renames nothing. The bookmark
/// panels are made anew either way.
pub fn rename_bookmark(
    app: &mut App,
    mediainfo: &mut MediaInfo,
    index: usize,
    new_name: Option<String>,
)
    requires
        old(app).in_step(old(mediainfo)),
        index < old(mediainfo).chapters@[old(app).current_chapter_index as int].bookmarks@.len(),
    ensures
        old(mediainfo).wf() ==> final(mediainfo).wf(),
        *final(mediainfo) == (MediaInfo { chapters: final(mediainfo).chapters, ..*old(mediainfo) }),
        final(app).cache@ == without_bookmarks(old(app).cache@),
        *final(app) == (App { msgs: final(app).msgs, cache: final(app).cache, ..*old(app) }),
        ({
            let at = old(app).current_chapter_index as int;
            let before = old(mediainfo).chapters@[at];
            let after = final(mediainfo).chapters@[at];
            let bookmark = before.bookmarks@[index as int];
            match new_name {
                None => *final(mediainfo) == *old(mediainfo) && final(app).msgs@ == old(app).msgs@,
                Some(name) => {
                    &&& final(app).msgs@ == said(
                        old(app).msgs@,
                        "Changed name from "@ + bookmark.name@ + " to "@ + name@,
                    )
                    &&& final(mediainfo).chapters@ == old(mediainfo).chapters@.update(at, after)
                    &&& after == (Chapter { bookmarks: after.bookmarks, ..before })
                    &&& after.bookmarks@ == before.bookmarks@.update(
                        index as int,
                        after.bookmarks@[index as int],
                    )
                    &&& after.bookmarks@[index as int].position == bookmark.position
                    &&& after.bookmarks@[index as int].name == name
                    &&& after.bookmarks@[index as int].formatted_position@ == bookmark_label(
                        name@,
                        time_part(bookmark.formatted_position@, bookmark.name@),
                    )
                    &&& (before.wf() ==> after.wf())
                },
            }
        }),
{
    match new_name {
        Some(name) => {
            let ghost before = mediainfo.chapters@[app.current_chapter_index as int];
            let mut text = String::from_str("Changed name from ");
            text.append(
                mediainfo.chapters[app.current_chapter_index].bookmarks[index].name.as_str(),
            );
            text.append(" to ");
            text.append(name.as_str());
            app.msgs.push(text);
            mediainfo.chapters[app.current_chapter_index].bookmarks[index].change_name(name);
            proof {
                let after = mediainfo.chapters@[app.current_chapter_index as int];
                if before.wf() {
                    assert forall|i: int| 0 <= i < after.bookmarks@.len() implies (
                    #[trigger] after.bookmarks@[i]).formatted_for(after.start_position) by {
                        if i != index {
                            assert(after.bookmarks@[i] == before.bookmarks@[i]);
                        } else {
                            assert(before.bookmarks@[i].formatted_for(before.start_position));
                        }
                    }
                }
                if old(mediainfo).wf() {
                    lemma_replace_keeps_wf(
                        *old(mediainfo),
                        *mediainfo,
                        app.current_chapter_index as int,
                    );
                }
            }
        },
        None => {},
    }
    app.cache.invalidate_bks();
}

/// Deletes the bookmark at `index` of the chosen chapter, after the user
/// confirmed it. The last bookmark takes its place.
pub fn delete_bookmark(app: &mut App, mediainfo: &mut MediaInfo, index: usize)
    requires
        old(app).in_step(old(mediainfo)),
        index < old(mediainfo).chapters@[old(app).current_chapter_index as int].bookmarks@.len(),
    ensures
        old(mediainfo).wf() ==> final(mediainfo).wf(),
        *final(mediainfo) == (MediaInfo { chapters: final(mediainfo).chapters, ..*old(mediainfo) }),
        final(app).cache@ == without_bookmarks(old(app).cache@),
        *final(app) == (App { msgs: final(app).msgs, cache: final(app).cache, ..*old(app) }),
        ({
            let at = old(app).current_chapter_index as int;
            let before = old(mediainfo).chapters@[at];
            let after = final(mediainfo).chapters@[at];
            &&& final(app).msgs@ == said(
                old(app).msgs@,
                "Deleted bookmark: "@ + before.bookmarks@[index as int].formatted_position@,
            )
            &&& final(mediainfo).chapters@ == old(mediainfo).chapters@.update(at, after)
            &&& after == (Chapter { bookmarks: after.bookmarks, ..before })
            &&& after.bookmarks@ == before.bookmarks@.update(
                index as int,
                before.bookmarks@.last(),
            ).drop_last()
            &&& (before.wf() ==> after.wf())
        }),
{
    let deleted = mediainfo.chapters[app.current_chapter_index].delete_bookmark(index);
    proof {
        if old(mediainfo).wf() {
            lemma_replace_keeps_wf(
                *old(mediainfo),
                *mediainfo,
                app.current_chapter_index as int,
            );
        }
    }
    let mut text = String::from_str("Deleted bookmark: ");
    text.append(deleted.formatted_position.as_str());
    app.msgs.push(text);
    app.cache.invalidate_bks();
}

/// Closes the menu of the bookmarks of one chapter: the playback goes on
/// where it was going on before, and the chosen row is remembered.
pub fn close_bookmarks(app: &mut App, opened: Opened, index: usize) -> (commands: Vec<Command>)
    ensures
        commands@ == if opened.was_playing {
            seq![Command::Play]
        } else {
            Seq::empty()
        },
        *final(app) == (App {
            index_bookmark: Some(index),
            playback: if opened.was_playing {
                Playback::Playing
            } else {
                old(app).playback
            },
            ..*old(app)
        }),
{
    let mut commands: Vec<Command> = Vec::new();
    app.resume(opened.was_playing, &mut commands);
    app.index_bookmark = Some(index);
    commands
}

/// The rows of the menu of the bookmarks of all chapters: for each bookmark
/// the index of its chapter and its index among the bookmarks of that
/// chapter, chapter after chapter.
pub open spec fn all_entries(chapters: Seq<Chapter>) -> Seq<(usize, usize)>
    decreases chapters.len(),
{
    if chapters.len() == 0 {
        Seq::empty()
    } else {
        all_entries(chapters.drop_last()) + Seq::new(
            chapters.last().bookmarks@.len(),
            |k: int| ((chapters.len() - 1) as usize, k as usize),
        )
    }
}

/// The number of a chapter's track: the container's ordinal, else the probed
/// track number.
pub open spec fn track_number(chapter: Chapter) -> u32 {
    match chapter.m4_tracknumber {
        Some(ordinal) => ordinal,
        None => chapter.tracknumber->0,
    }
}

/// The text of a row of the menu of the bookmarks of all chapters.
pub open spec fn entry_label(chapter: Chapter, bookmark: int) -> Seq<char> {
    chapter.bookmarks@[bookmark].formatted_position@ + " | chapter name: "@
        + chapter.display_name() + " | chapter number: "@ + decimal(track_number(chapter) as nat)
}

/// Whether every chapter that has a bookmark has a track number to show.
pub open spec fn bookmarked_are_numbered(chapters: Seq<Chapter>) -> bool {
    forall|i: int|
        0 <= i < chapters.len() && (#[trigger] chapters[i]).bookmarks@.len() > 0 ==> (
        chapters[i].m4_tracknumber is Some || chapters[i].tracknumber is Some)
}

/// Tells whether every chapter that has a bookmark has a track number to
/// show.
pub fn can_label_all(mediainfo: &MediaInfo) -> (numbered: bool)
    ensures
        numbered == bookmarked_are_numbered(mediainfo.chapters@),
{
    let mut i: usize = 0;
    while i < mediainfo.chapters.len()
        invariant
            i <= mediainfo.chapters@.len(),
            forall|k: int|
                0 <= k < i && (#[trigger] mediainfo.chapters@[k]).bookmarks@.len() > 0 ==> (
                mediainfo.chapters@[k].m4_tracknumber is Some
                    || mediainfo.chapters@[k].tracknumber is Some),
        decreases mediainfo.chapters@.len() - i,
    {
        let chapter = &mediainfo.chapters[i];
        if chapter.bookmarks.len() > 0 && chapter.m4_tracknumber.is_none()
            && chapter.tracknumber.is_none() {
            return false;
        }
        i = i + 1;
    }
    true
}

/// The rows of the menu of the bookmarks of all chapters.
pub fn all_bookmarks(mediainfo: &MediaInfo) -> (entries: Vec<(usize, usize)>)
    ensures
        entries@ == all_entries(mediainfo.chapters@),
        forall|k: int|
            0 <= k < entries@.len() ==> (#[trigger] entries@[k]).0 < mediainfo.chapters@.len()
                && entries@[k].1 < mediainfo.chapters@[entries@[k].0 as int].bookmarks@.len(),
{
    let ghost all = mediainfo.chapters@;
    let mut entries: Vec<(usize, usize)> = Vec::new();
    let mut i: usize = 0;
    assert(all.take(0) =~= Seq::empty());
    while i < mediainfo.chapters.len()
        invariant
            i <= all.len(),
            all == mediainfo.chapters@,
            entries@ == all_entries(all.take(i as int)),
            forall|k: int|
                0 <= k < entries@.len() ==> (#[trigger] entries@[k]).0 < i && entries@[k].1
                    < all[entries@[k].0 as int].bookmarks@.len(),
        decreases all.len() - i,
    {
        let count = mediainfo.chapters[i].bookmarks.len();
        let ghost front = entries@;
        let mut k: usize = 0;
        while k < count
            invariant
                i < all.len(),
                all == mediainfo.chapters@,
                count == all[i as int].bookmarks@.len(),
                k <= count,
                entries@ == front + Seq::new(k as nat, |j: int| (i, j as usize)),
            decreases count - k,
        {
            entries.push((i, k));
            k = k + 1;
            assert(entries@ =~= front + Seq::new(k as nat, |j: int| (i, j as usize)));
        }
        proof {
            assert(all.take(i + 1).drop_last() =~= all.take(i as int));
            assert(all.take(i + 1).last() == all[i as int]);
            assert(Seq::new(count as nat, |j: int| (i, j as usize)) =~= Seq::new(
                all[i as int].bookmarks@.len(),
                |j: int| ((all.take(i + 1).len() - 1) as usize, j as usize),
            ));
        }
        i = i + 1;
    }
    assert(all.take(i as int) =~= all);
    entries
}

/// The texts of the rows of the menu of the bookmarks of all chapters.
pub fn all_bookmark_labels(mediainfo: &MediaInfo, entries: &Vec<(usize, usize)>) -> (labels: Vec<
    String,
>)
    requires
        bookmarked_are_numbered(mediainfo.chapters@),
        forall|k: int|
            0 <= k < entries@.len() ==> (#[trigger] entries@[k]).0 < mediainfo.chapters@.len()
                && entries@[k].1 < mediainfo.chapters@[entries@[k].0 as int].bookmarks@.len(),
    ensures
        labels@.len() == entries@.len(),
        forall|k: int|
            0 <= k < entries@.len() ==> (#[trigger] labels@[k])@ == entry_label(
                mediainfo.chapters@[entries@[k].0 as int],
                entries@[k].1 as int,
            ),
{
    let mut labels: Vec<String> = Vec::new();
    let mut k: usize = 0;
    while k < entries.len()
        invariant
            k <= entries@.len(),
            labels@.len() == k,
            bookmarked_are_numbered(mediainfo.chapters@),
            forall|j: int|
                0 <= j < entries@.len() ==> (#[trigger] entries@[j]).0 < mediainfo.chapters@.len()
                    && entries@[j].1 < mediainfo.chapters@[entries@[j].0 as int].bookmarks@.len(),
            forall|j: int|
                0 <= j < k ==> (#[trigger] labels@[j])@ == entry_label(
                    mediainfo.chapters@[entries@[j].0 as int],
                    entries@[j].1 as int,
                ),
        decreases entries@.len() - k,
    {
        let (at, bookmark) = entries[k];
        assert(entries@[k as int].0 < mediainfo.chapters@.len());
        let chapter = &mediainfo.chapters[at];
        let mut text = chapter.bookmarks[bookmark].formatted_position.clone();
        text.append(" | chapter name: ");
        text.append(chapter.get_title_or_filename().as_str());
        text.append(" | chapter number: ");
        push_decimal(&mut text, chapter.get_track_number() as u64);
        assert(text@ =~= entry_label(*chapter, bookmark as int));
        labels.push(text);
        k = k + 1;
    }
    labels
}

/// Opens the menu of the bookmarks of all chapters, which has `count` rows,
/// at the time `now`. Without bookmarks there is no menu. Else the playback
/// pauses and the hint is shown at once.
pub fn open_all_bookmarks(
    app: &mut App,
    count: usize,
    now: u64,
    commands: &mut Vec<Command>,
) -> (opened: Option<Opened>)
    ensures
        if count == 0 {
            &&& opened is None
            &&& final(commands)@ == old(commands)@
            &&& final(app).msgs@ == said(
                old(app).msgs@,
                "None of the chapter have any bookmarks"@,
            )
            &&& *final(app) == (App { msgs: final(app).msgs, ..*old(app) })
        } else {
            let was_playing = old(app).playback == Playback::Playing;
            &&& opened == Some(
                Opened {
                    index: match old(app).index_all_bookmark {
                        Some(index) => if index >= count {
                            (count - 1) as usize
                        } else {
                            index
                        },
                        None => 0,
                    },
                    was_playing,
                },
            )
            &&& final(commands)@ == if was_playing {
                old(commands)@.push(Command::Pause)
            } else {
                old(commands)@
            }
            &&& final(app).msgs@ == tick_spec(said(old(app).msgs@, all_bookmarks_hint()), now)
            &&& *final(app) == (App {
                msgs: final(app).msgs,
                playback: if was_playing {
                    Playback::Paused
                } else {
                    old(app).playback
                },
                ..*old(app)
            })
        },
{
    if count == 0 {
        app.say("None of the chapter have any bookmarks");
        return None;
    }
    let was_playing = app.is_playing_and_pause(commands);
    let index = start_index(app.index_all_bookmark, count);
    app.say(
        "Press Enter to chose a bookmark. Press jk to move up and down. Press Escape to cancel.",
    );
    app.msgs.on_tick(now);
    Some(Opened { index, was_playing })
}

/// Moves to the bookmark `bookmark` of the chapter `chapter`, chosen in the
/// menu of the bookmarks of all chapters, with the engine at `position`. The
/// position and the chapter that is left are kept for the way back.
pub fn choose_from_all(
    app: &mut App,
    mediainfo: &mut MediaInfo,
    chapter: usize,
    bookmark: usize,
    position: u64,
) -> (commands: Vec<Command>)
    requires
        old(app).in_step(old(mediainfo)),
        chapter < old(mediainfo).chapters@.len(),
        bookmark < old(mediainfo).chapters@[chapter as int].bookmarks@.len(),
    ensures
        old(mediainfo).wf() ==> final(mediainfo).wf(),
        final(app).in_step(final(mediainfo)),
        *final(mediainfo) == (MediaInfo { chapters: final(mediainfo).chapters, ..*old(mediainfo) }),
        ({
            let at = old(app).current_chapter_index;
            let target = final(mediainfo).chapters@[chapter as int];
            &&& final(mediainfo).chapters@ == if chapter == at {
                old(mediainfo).chapters@.update(
                    at as int,
                    Chapter {
                        before_jump_position: Some(position),
                        ..old(mediainfo).chapters@[at as int]
                    },
                )
            } else {
                old(mediainfo).chapters@
            }
            &&& commands@ == seq![
                Command::Load {
                    chapter,
                    position: crate::actions::resume_position(target),
                },
                Command::Seek { position: target.bookmarks@[bookmark as int].position },
            ]
            &&& final(app).msgs@ == said(
                old(app).msgs@,
                crate::actions::selected_message(target, bookmark as int, true),
            )
            &&& final(app).cache@ == crate::cache::without_chapter(old(app).cache@)
            &&& *final(app) == (App {
                msgs: final(app).msgs,
                cache: final(app).cache,
                current_chapter_index: chapter,
                playback: Playback::Paused,
                pos_and_chap_before_jump: Some((position, at)),
                ..*old(app)
            })
        }),
{
    if chapter == app.current_chapter_index {
        app.pos_and_chap_before_jump = Some((position, chapter));
        mediainfo.chapters[app.current_chapter_index].before_jump_position = Some(position);
        proof {
            if old(mediainfo).wf() {
                lemma_replace_keeps_wf(
                    *old(mediainfo),
                    *mediainfo,
                    app.current_chapter_index as int,
                );
            }
        }
    } else {
        app.pos_and_chap_before_jump = Some((position, app.current_chapter_index));
    }
    app.bookmark_select(Some(chapter), bookmark, mediainfo)
}

/// Closes the menu of the bookmarks of all chapters: the playback goes on
/// where it was going on before, and the chosen row is remembered.
pub fn close_all_bookmarks(app: &mut App, opened: Opened, index: usize) -> (commands: Vec<Command>)
    ensures
        commands@ == if opened.was_playing {
            seq![Command::Play]
        } else {
            Seq::empty()
        },
        *final(app) == (App {
            index_all_bookmark: Some(index),
            playback: if opened.was_playing {
                Playback::Playing
            } else {
                old(app).playback
            },
            ..*old(app)
        }),
{
    let mut commands: Vec<Command> = Vec::new();
    app.index_all_bookmark = Some(index);
    app.resume(opened.was_playing, &mut commands);
    commands
}

} // verus!
