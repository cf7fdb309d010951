//! What the player does on each action of the user: how the library and the
//! state of the session change, and what the media engine is to do next. The
//! caller performs the commands, in their order, and reports what the engine
//! answered.

use crate::cache::{
    all_empty, info_labels, strs_view, ticked, without_bookmarks, without_chapter,
    without_keybindings, without_playlist, Cache,
};
use crate::data::chapter::Chapter;
use crate::data::mediainfo::{lemma_replace_keeps_wf, MediaInfo};
use crate::helpers::{decimal, parse_spec, push_decimal, try_into_seconds};
use crate::msgs::{tick_spec, Msgs, MsgsView, MESSAGE_TIMEOUT};
use crate::ui::{capped_u16, chapter_bar_spec, keybindings, Ui};
use vstd::prelude::*;
use vstd::string::*;

verus! {

/// What the media engine was last told to be.
#[derive(Clone, Copy, Debug, PartialEq, Eq, Structural)]
pub enum Playback {
    /// nothing yet
    Unset,
    Paused,
    Playing,
}

/// What the media engine is to do.
#[derive(Clone, Copy, Debug, PartialEq, Eq, Structural)]
pub enum Command {
    /// start or go on playing
    Play,
    /// pause
    Pause,
    /// drop what is loaded, load the chapter at the index, paused, with the
    /// volume and speed of the library, and move to the position in its file
    Load { chapter: usize, position: u64 },
    /// move to the position in the file, in seconds, at the speed of the
    /// library
    Seek { position: u64 },
    /// set the volume, in percent
    SetVolume { percent: u64 },
    /// set the speed, in hundredths
    SetSpeed { speed: u64 },
}

/// The state of a session besides the library.
#[derive(Debug)]
pub struct App {
    /// index of the currently chosen chapter
    pub current_chapter_index: usize,
    /// index of the chosen bookmark
    pub index_bookmark: Option<usize>,
    /// index of the chosen bookmark among those of all chapters
    pub index_all_bookmark: Option<usize>,
    /// what the media engine was last told to be
    pub playback: Playback,
    pub msgs: Msgs,
    pub ui: Ui,
    pub cache: Cache,
    /// position marked by the user for a bookmark
    pub marked_position: Option<u64>,
    /// position and chapter marked before a jump to a bookmark
    pub pos_and_chap_before_jump: Option<(u64, usize)>,
}

/// The message bar with one more message queued.
pub open spec fn said(msgs: MsgsView, text: Seq<char>) -> MsgsView {
    MsgsView { queue: msgs.queue.push(text), ..msgs }
}

/// Where a chapter is taken up again: where it was last played, or at its
/// start where it was not played yet.
pub open spec fn resume_position(chapter: Chapter) -> u64 {
    if chapter.last_position != 0 {
        chapter.last_position
    } else {
        match chapter.start_position {
            Some(start) => start,
            None => 0,
        }
    }
}

/// The commands with `Play` behind them where the engine was playing.
pub open spec fn resumed(commands: Seq<Command>, was_playing: bool) -> Seq<Command> {
    if was_playing {
        commands.push(Command::Play)
    } else {
        commands
    }
}

/// The commands with `Pause` in front of them where the engine is playing.
pub open spec fn paused_first(playback: Playback, commands: Seq<Command>) -> Seq<Command> {
    if playback == Playback::Playing {
        seq![Command::Pause] + commands
    } else {
        commands
    }
}

impl App {
    /// Whether the chosen chapter is a chapter of the library, and the
    /// library counts its chapters right.
    pub open spec fn in_step(&self, mediainfo: &MediaInfo) -> bool {
        &&& mediainfo.chaptercount == mediainfo.chapters@.len()
        &&& self.current_chapter_index < mediainfo.chapters@.len()
    }

    /// Tells whether the chosen chapter is a chapter of the library, and the
    /// library counts its chapters right.
    pub fn is_in_step(&self, mediainfo: &MediaInfo) -> (in_step: bool)
        ensures
            in_step == self.in_step(mediainfo),
    {
        mediainfo.chaptercount == mediainfo.chapters.len() && self.current_chapter_index
            < mediainfo.chapters.len()
    }

    /// The state of a session that starts at the time `now`.
    pub fn new(now: u64) -> (app: Self)
        ensures
            app.current_chapter_index == 0,
            app.index_bookmark is None,
            app.index_all_bookmark is None,
            app.playback == Playback::Unset,
            app.marked_position is None,
            app.pos_and_chap_before_jump is None,
            app.msgs@ == (MsgsView {
                current: None,
                last_time: now,
                timeout: MESSAGE_TIMEOUT,
                queue: Seq::empty(),
                history: Seq::empty(),
            }),
            app.ui.chapter_bar == 0,
            app.ui.volume_bar == 50,
            app.ui.yn_prompt@ == "NONE"@,
            strs_view(app.ui.keybindings_list@) == keybindings(),
            app.cache@.info_info == info_labels(),
            all_empty(app.cache@),
    {
        Self {
            current_chapter_index: 0,
            msgs: Msgs::default(now),
            index_bookmark: None,
            playback: Playback::Unset,
            cache: Cache::new(),
            ui: Ui::new(),
            marked_position: None,
            index_all_bookmark: None,
            pos_and_chap_before_jump: None,
        }
    }

    /// Queues a message.
    pub fn say(&mut self, text: &str)
        ensures
            final(self).msgs@ == said(old(self).msgs@, text@),
            *final(self) == (App { msgs: final(self).msgs, ..*old(self) }),
    {
        self.msgs.push(String::from_str(text));
    }

    /// Tells whether the engine was last told to play.
    pub fn is_playing(&self) -> (playing: bool)
        ensures
            playing == (self.playback == Playback::Playing),
    {
        self.playback == Playback::Playing
    }

    /// Tells whether the engine was last told to pause.
    pub fn is_paused(&self) -> (paused: bool)
        ensures
            paused == (self.playback == Playback::Paused),
    {
        self.playback == Playback::Paused
    }

    /// Pauses the playback where the engine is playing.
    pub fn if_playing_pause(&mut self, commands: &mut Vec<Command>)
        ensures
            final(commands)@ == if old(self).playback == Playback::Playing {
                old(commands)@.push(Command::Pause)
            } else {
                old(commands)@
            },
            *final(self) == (App {
                playback: if old(self).playback == Playback::Playing {
                    Playback::Paused
                } else {
                    old(self).playback
                },
                ..*old(self)
            }),
    {
        if self.is_playing() {
            commands.push(Command::Pause);
            self.playback = Playback::Paused;
        }
    }

    /// Returns `true` if the engine is playing and pauses the playback,
    /// returns `false` otherwise.
    pub fn is_playing_and_pause(&mut self, commands: &mut Vec<Command>) -> (was_playing: bool)
        ensures
            was_playing == (old(self).playback == Playback::Playing),
            final(commands)@ == if was_playing {
                old(commands)@.push(Command::Pause)
            } else {
                old(commands)@
            },
            *final(self) == (App {
                playback: if was_playing {
                    Playback::Paused
                } else {
                    old(self).playback
                },
                ..*old(self)
            }),
    {
        if self.is_playing() {
            commands.push(Command::Pause);
            self.playback = Playback::Paused;
            true
        } else {
            false
        }
    }

    /// Starts the playback again where it was going on before.
    pub fn resume(&mut self, was_playing: bool, commands: &mut Vec<Command>)
        ensures
            final(commands)@ == resumed(old(commands)@, was_playing),
            *final(self) == (App {
                playback: if was_playing {
                    Playback::Playing
                } else {
                    old(self).playback
                },
                ..*old(self)
            }),
    {
        if was_playing {
            commands.push(Command::Play);
            self.playback = Playback::Playing;
        }
    }

    /// Makes the chapter at `chapter_index` the chosen one and has it loaded,
    /// paused, at the position where it is taken up again. Every cached view
    /// is dropped.
    pub fn load_chapter(
        &mut self,
        chapter_index: usize,
        mediainfo: &MediaInfo,
        commands: &mut Vec<Command>,
    )
        requires
            chapter_index < mediainfo.chapters@.len(),
        ensures
            final(commands)@ == old(commands)@.push(
                Command::Load {
                    chapter: chapter_index,
                    position: resume_position(mediainfo.chapters@[chapter_index as int]),
                },
            ),
            final(self).current_chapter_index == chapter_index,
            final(self).playback == Playback::Paused,
            final(self).cache@ == without_chapter(old(self).cache@),
            *final(self) == (App {
                current_chapter_index: chapter_index,
                playback: Playback::Paused,
                cache: final(self).cache,
                ..*old(self)
            }),
    {
        self.cache.invalidate_all();
        self.current_chapter_index = chapter_index;
        let chapter = &mediainfo.chapters[chapter_index];
        let position = if chapter.last_position != 0 {
            chapter.last_position
        } else {
            chapter.get_start_position()
        };
        commands.push(Command::Load { chapter: chapter_index, position });
        self.playback = Playback::Paused;
    }
}

/// toggles playback
pub fn toggle_play(app: &mut App) -> (commands: Vec<Command>)
    ensures
        match old(app).playback {
            Playback::Paused => {
                &&& commands@ == seq![Command::Play]
                &&& final(app).playback == Playback::Playing
                &&& final(app).msgs@ == said(old(app).msgs@, "Starting Playback"@)
            },
            Playback::Playing => {
                &&& commands@ == seq![Command::Pause]
                &&& final(app).playback == Playback::Paused
                &&& final(app).msgs@ == said(old(app).msgs@, "Stopping Playback"@)
            },
            _ => commands@ == Seq::<Command>::empty() && *final(app) == *old(app),
        },
        *final(app) == (App { playback: final(app).playback, msgs: final(app).msgs, ..*old(app) }),
{
    let mut commands: Vec<Command> = Vec::new();
    if app.is_paused() {
        commands.push(Command::Play);
        app.playback = Playback::Playing;
        app.say("Starting Playback");
    } else if app.is_playing() {
        commands.push(Command::Pause);
        app.playback = Playback::Paused;
        app.say("Stopping Playback");
    }
    commands
}

/// The chapters with the last position of the one at `index` set.
pub open spec fn positioned(chapters: Seq<Chapter>, index: int, position: u64) -> Seq<Chapter> {
    chapters.update(index, Chapter { last_position: position, ..chapters[index] })
}

/// Moves playlist and playback to the next chapter.
///
/// * `should_update`: If `true` the last position of the chapter is set to
///   `position`, where the engine is now, before moving to the next; where the
///   engine could not tell, nothing moves.
pub fn next_chapter(
    app: &mut App,
    mediainfo: &mut MediaInfo,
    should_update: bool,
    position: Option<u64>,
) -> (commands: Vec<Command>)
    requires
        old(app).in_step(old(mediainfo)),
    ensures
        old(mediainfo).wf() ==> final(mediainfo).wf(),
        final(app).in_step(final(mediainfo)),
        *final(mediainfo) == (MediaInfo { chapters: final(mediainfo).chapters, ..*old(mediainfo) }),
        if old(app).current_chapter_index + 1 >= old(mediainfo).chaptercount {
            &&& commands@ == Seq::<Command>::empty()
            &&& *final(mediainfo) == *old(mediainfo)
            &&& *final(app) == (App { msgs: final(app).msgs, ..*old(app) })
            &&& final(app).msgs@ == said(
                old(app).msgs@,
                "You are the end of the playlist. Can't move any further."@,
            )
        } else if should_update && position is None {
            &&& commands@ == Seq::<Command>::empty()
            &&& *final(mediainfo) == *old(mediainfo)
            &&& *final(app) == (App { msgs: final(app).msgs, ..*old(app) })
            &&& final(app).msgs@ == said(
                old(app).msgs@,
                "Couldn't get the position and update the position"@,
            )
        } else {
            let next = (old(app).current_chapter_index + 1) as usize;
            &&& final(mediainfo).chapters@ == if should_update {
                positioned(
                    old(mediainfo).chapters@,
                    old(app).current_chapter_index as int,
                    position->0,
                )
            } else {
                old(mediainfo).chapters@
            }
            &&& commands@ == resumed(
                paused_first(
                    old(app).playback,
                    seq![
                        Command::Load {
                            chapter: next,
                            position: resume_position(old(mediainfo).chapters@[next as int]),
                        },
                    ],
                ),
                old(app).playback == Playback::Playing,
            )
            &&& final(app).current_chapter_index == next
            &&& final(app).playback == if old(app).playback == Playback::Playing {
                Playback::Playing
            } else {
                Playback::Paused
            }
            &&& final(app).marked_position is None
            &&& final(app).cache@ == without_chapter(old(app).cache@)
            &&& final(app).msgs@ == said(old(app).msgs@, "Moved to the next chapter"@)
            &&& *final(app) == (App {
                current_chapter_index: next,
                playback: final(app).playback,
                marked_position: None,
                cache: final(app).cache,
                msgs: final(app).msgs,
                ..*old(app)
            })
        },
{
    let mut commands: Vec<Command> = Vec::new();
    if app.current_chapter_index + 1 >= mediainfo.chaptercount {
        app.say("You are the end of the playlist. Can't move any further.");
        return commands;
    }
    if should_update {
        match position {
            Some(pos) => {
                mediainfo.chapters[app.current_chapter_index].update_last_position(pos);
                proof {
                    if old(mediainfo).wf() {
                        lemma_replace_keeps_wf(
                            *old(mediainfo),
                            *mediainfo,
                            app.current_chapter_index as int,
                        );
                    }
                }
            },
            None => {
                app.say("Couldn't get the position and update the position");
                return commands;
            },
        }
    }
    let was_playing = app.is_playing_and_pause(&mut commands);
    app.load_chapter(app.current_chapter_index + 1, mediainfo, &mut commands);
    app.resume(was_playing, &mut commands);
    app.marked_position = None;
    app.say("Moved to the next chapter");
    proof {
        assert(commands@ =~= resumed(
            paused_first(
                old(app).playback,
                seq![
                    Command::Load {
                        chapter: (old(app).current_chapter_index + 1) as usize,
                        position: resume_position(
                            old(mediainfo).chapters@[old(app).current_chapter_index + 1],
                        ),
                    },
                ],
            ),
            old(app).playback == Playback::Playing,
        ));
    }
    commands
}

/// Moves playlist and playback to the previous chapter. The last position
/// of the chapter is set to `position`, where the engine is now; where the
/// engine could not tell, nothing moves.
pub fn prev_chapter(app: &mut App, mediainfo: &mut MediaInfo, position: Option<u64>) -> (commands:
    Vec<Command>)
    requires
        old(app).in_step(old(mediainfo)),
    ensures
        old(mediainfo).wf() ==> final(mediainfo).wf(),
        final(app).in_step(final(mediainfo)),
        *final(mediainfo) == (MediaInfo { chapters: final(mediainfo).chapters, ..*old(mediainfo) }),
        if old(app).current_chapter_index < 1 {
            &&& commands@ == Seq::<Command>::empty()
            &&& *final(mediainfo) == *old(mediainfo)
            &&& *final(app) == (App { msgs: final(app).msgs, ..*old(app) })
            &&& final(app).msgs@ == said(
                old(app).msgs@,
                "You are the start of the playlist. Can't move any backwards."@,
            )
        } else if position is None {
            &&& commands@ == Seq::<Command>::empty()
            &&& *final(mediainfo) == *old(mediainfo)
            &&& *final(app) == (App { msgs: final(app).msgs, ..*old(app) })
            &&& final(app).msgs@ == said(old(app).msgs@, "Couldn't get the position"@)
        } else {
            let previous = (old(app).current_chapter_index - 1) as usize;
            &&& final(mediainfo).chapters@ == positioned(
                old(mediainfo).chapters@,
                old(app).current_chapter_index as int,
                position->0,
            )
            &&& commands@ == resumed(
                paused_first(
                    old(app).playback,
                    seq![
                        Command::Load {
                            chapter: previous,
                            position: resume_position(old(mediainfo).chapters@[previous as int]),
                        },
                    ],
                ),
                old(app).playback == Playback::Playing,
            )
            &&& final(app).current_chapter_index == previous
            &&& final(app).playback == if old(app).playback == Playback::Playing {
                Playback::Playing
            } else {
                Playback::Paused
            }
            &&& final(app).marked_position is None
            &&& final(app).cache@ == without_chapter(old(app).cache@)
            &&& final(app).msgs@ == said(old(app).msgs@, "Moved to the previous chapter"@)
            &&& *final(app) == (App {
                current_chapter_index: previous,
                playback: final(app).playback,
                marked_position: None,
                cache: final(app).cache,
                msgs: final(app).msgs,
                ..*old(app)
            })
        },
{
    let mut commands: Vec<Command> = Vec::new();
    if app.current_chapter_index < 1 {
        app.say("You are the start of the playlist. Can't move any backwards.");
        return commands;
    }
    match position {
        Some(pos) => {
            mediainfo.chapters[app.current_chapter_index].update_last_position(pos);
            proof {
                if old(mediainfo).wf() {
                    lemma_replace_keeps_wf(
                        *old(mediainfo),
                        *mediainfo,
                        app.current_chapter_index as int,
                    );
                }
            }
        },
        None => {
            app.say("Couldn't get the position");
            return commands;
        },
    }
    let was_playing = app.is_playing_and_pause(&mut commands);
    app.load_chapter(app.current_chapter_index - 1, mediainfo, &mut commands);
    app.resume(was_playing, &mut commands);
    app.marked_position = None;
    app.say("Moved to the previous chapter");
    proof {
        assert(commands@ =~= resumed(
            paused_first(
                old(app).playback,
                seq![
                    Command::Load {
                        chapter: (old(app).current_chapter_index - 1) as usize,
                        position: resume_position(
                            old(mediainfo).chapters@[old(app).current_chapter_index - 1],
                        ),
                    },
                ],
            ),
            old(app).playback == Playback::Playing,
        ));
    }
    commands
}

/// The step of a change of the volume, in percent.
pub const VOLUME_STEP: u64 = 5;

/// The step of a change of the speed, in hundredths.
pub const SPEED_STEP: u64 = 25;

/// Raises the volume by one step, up to the full volume.
pub fn increase_volume(app: &mut App, mediainfo: &mut MediaInfo) -> (commands: Vec<Command>)
    ensures
        old(mediainfo).wf() ==> final(mediainfo).wf(),
        final(mediainfo).volume == if old(mediainfo).volume + VOLUME_STEP > 100 {
            100
        } else {
            old(mediainfo).volume + VOLUME_STEP
        },
        final(mediainfo).volume <= 100,
        *final(mediainfo) == (MediaInfo { volume: final(mediainfo).volume, ..*old(mediainfo) }),
        commands@ == seq![Command::SetVolume { percent: final(mediainfo).volume }],
        final(app).msgs@ == said(
            old(app).msgs@,
            if old(mediainfo).volume + VOLUME_STEP > 100 {
                "Can't increase volume beyond 100%"@
            } else {
                "Increased volume by 5%"@
            },
        ),
        *final(app) == (App { msgs: final(app).msgs, ..*old(app) }),
{
    let mut commands: Vec<Command> = Vec::new();
    if mediainfo.volume > 100 - VOLUME_STEP {
        mediainfo.volume = 100;
        app.say("Can't increase volume beyond 100%");
    } else {
        mediainfo.volume = mediainfo.volume + VOLUME_STEP;
        app.say("Increased volume by 5%");
    }
    commands.push(Command::SetVolume { percent: mediainfo.volume });
    commands
}

/// Lowers the volume by one step, down to silence.
pub fn descrease_volume(app: &mut App, mediainfo: &mut MediaInfo) -> (commands: Vec<Command>)
    ensures
        old(mediainfo).wf() ==> final(mediainfo).wf(),
        final(mediainfo).volume == if old(mediainfo).volume < VOLUME_STEP {
            0
        } else {
            old(mediainfo).volume - VOLUME_STEP
        },
        *final(mediainfo) == (MediaInfo { volume: final(mediainfo).volume, ..*old(mediainfo) }),
        commands@ == seq![Command::SetVolume { percent: final(mediainfo).volume }],
        final(app).msgs@ == said(
            old(app).msgs@,
            if old(mediainfo).volume < VOLUME_STEP {
                "Can't descrease volume below 0%"@
            } else {
                "Decreased volume by 5%"@
            },
        ),
        *final(app) == (App { msgs: final(app).msgs, ..*old(app) }),
{
    let mut commands: Vec<Command> = Vec::new();
    if mediainfo.volume < VOLUME_STEP {
        mediainfo.volume = 0;
        app.say("Can't descrease volume below 0%");
    } else {
        mediainfo.volume = mediainfo.volume - VOLUME_STEP;
        app.say("Decreased volume by 5%");
    }
    commands.push(Command::SetVolume { percent: mediainfo.volume });
    commands
}

/// Saves the current position of the chapter and the index of the currently
/// played chapter; tells whether the session is to end. Where the engine
/// could not tell its position the session goes on.
pub fn quit(app: &mut App, mediainfo: &mut MediaInfo, position: Option<u64>) -> (leave: bool)
    requires
        old(app).in_step(old(mediainfo)),
    ensures
        old(mediainfo).wf() ==> final(mediainfo).wf(),
        leave == position is Some,
        match position {
            Some(pos) => {
                &&& *final(app) == *old(app)
                &&& final(mediainfo).chapters@ == positioned(
                    old(mediainfo).chapters@,
                    old(app).current_chapter_index as int,
                    pos,
                )
                &&& *final(mediainfo) == (MediaInfo {
                    chapters: final(mediainfo).chapters,
                    last_chapter: old(app).current_chapter_index,
                    ..*old(mediainfo)
                })
            },
            None => {
                &&& *final(mediainfo) == *old(mediainfo)
                &&& final(app).msgs@ == said(old(app).msgs@, "Couldn't get the position"@)
                &&& *final(app) == (App { msgs: final(app).msgs, ..*old(app) })
            },
        },
{
    match position {
        Some(pos) => {
            mediainfo.chapters[app.current_chapter_index].update_last_position(pos);
            proof {
                if old(mediainfo).wf() {
                    lemma_replace_keeps_wf(
                        *old(mediainfo),
                        *mediainfo,
                        app.current_chapter_index as int,
                    );
                }
            }
        },
        None => {
            app.say("Couldn't get the position");
            return false;
        },
    }
    mediainfo.last_chapter = app.current_chapter_index;
    true
}

/// The start of a chapter in its file: zero for a whole file.
pub open spec fn start_of(chapter: Chapter) -> u64 {
    match chapter.start_position {
        Some(start) => start,
        None => 0,
    }
}

/// What a text prompt hands back as a description: nothing for an empty
/// text.
pub open spec fn as_description(text: String) -> Option<String> {
    if text@.len() == 0 {
        None
    } else {
        Some(text)
    }
}

/// Sets the description of the chosen chapter to what the user gave in the
/// prompt; an empty text takes the description away, and a cancelled prompt
/// changes nothing. `was_playing` tells whether the playback was going on
/// before the prompt.
pub fn add_description(
    app: &mut App,
    mediainfo: &mut MediaInfo,
    was_playing: bool,
    description: Option<String>,
) -> (commands: Vec<Command>)
    requires
        old(app).in_step(old(mediainfo)),
    ensures
        old(mediainfo).wf() ==> final(mediainfo).wf(),
        commands@ == resumed(Seq::empty(), was_playing),
        *final(mediainfo) == (MediaInfo { chapters: final(mediainfo).chapters, ..*old(mediainfo) }),
        final(mediainfo).chapters@ == match description {
            Some(text) => old(mediainfo).chapters@.update(
                old(app).current_chapter_index as int,
                Chapter {
                    description: as_description(text),
                    ..old(mediainfo).chapters@[old(app).current_chapter_index as int]
                },
            ),
            None => old(mediainfo).chapters@,
        },
        final(app).msgs@ == match description {
            Some(_) => old(app).msgs@,
            None => said(old(app).msgs@, "Cancelled adding a description"@),
        },
        final(app).cache.pl_titles is None,
        *final(app) == (App {
            msgs: final(app).msgs,
            playback: if was_playing {
                Playback::Playing
            } else {
                old(app).playback
            },
            cache: Cache { pl_titles: None, ..old(app).cache },
            ..*old(app)
        }),
{
    let mut commands: Vec<Command> = Vec::new();
    match description {
        Some(text) => {
            if text.as_str().unicode_len() == 0 {
                mediainfo.chapters[app.current_chapter_index].description = None;
                proof {
                    if old(mediainfo).wf() {
                        lemma_replace_keeps_wf(
                            *old(mediainfo),
                            *mediainfo,
                            app.current_chapter_index as int,
                        );
                    }
                }
            } else {
                mediainfo.chapters[app.current_chapter_index].description = Some(text);
                proof {
                    if old(mediainfo).wf() {
                        lemma_replace_keeps_wf(
                            *old(mediainfo),
                            *mediainfo,
                            app.current_chapter_index as int,
                        );
                    }
                }
            }
        },
        None => {
            app.say("Cancelled adding a description");
        },
    }
    app.resume(was_playing, &mut commands);
    app.cache.pl_titles = None;
    commands
}

/// Takes the description of the chosen chapter away.
pub fn delete_description(app: &mut App, mediainfo: &mut MediaInfo)
    requires
        old(app).in_step(old(mediainfo)),
    ensures
        old(mediainfo).wf() ==> final(mediainfo).wf(),
        *final(mediainfo) == (MediaInfo { chapters: final(mediainfo).chapters, ..*old(mediainfo) }),
        final(mediainfo).chapters@ == old(mediainfo).chapters@.update(
            old(app).current_chapter_index as int,
            Chapter {
                description: None,
                ..old(mediainfo).chapters@[old(app).current_chapter_index as int]
            },
        ),
        *final(app) == (App { cache: Cache { pl_titles: None, ..old(app).cache }, ..*old(app) }),
{
    mediainfo.chapters[app.current_chapter_index].description = None;
    proof {
        if old(mediainfo).wf() {
            lemma_replace_keeps_wf(
                *old(mediainfo),
                *mediainfo,
                app.current_chapter_index as int,
            );
        }
    }
    app.cache.pl_titles = None;
}

/// Adds a bookmark at `position`, where the engine was when the user asked
/// for it, under the name given in the prompt. A cancelled prompt adds none,
/// and the playback stays paused.
pub fn add_bookmark(
    app: &mut App,
    mediainfo: &mut MediaInfo,
    was_playing: bool,
    position: u64,
    name: Option<String>,
) -> (commands: Vec<Command>)
    requires
        old(app).in_step(old(mediainfo)),
        start_of(old(mediainfo).chapters@[old(app).current_chapter_index as int]) <= position,
    ensures
        old(mediainfo).wf() ==> final(mediainfo).wf(),
        *final(mediainfo) == (MediaInfo { chapters: final(mediainfo).chapters, ..*old(mediainfo) }),
        match name {
            None => {
                &&& commands@ == Seq::<Command>::empty()
                &&& *final(mediainfo) == *old(mediainfo)
                &&& final(app).msgs@ == said(old(app).msgs@, "Cancelled adding a bookmark"@)
                &&& *final(app) == (App { msgs: final(app).msgs, ..*old(app) })
            },
            Some(name) => {
                let at = old(app).current_chapter_index as int;
                let before = old(mediainfo).chapters@[at];
                let after = final(mediainfo).chapters@[at];
                &&& commands@ == resumed(Seq::empty(), was_playing)
                &&& final(mediainfo).chapters@ == old(mediainfo).chapters@.update(at, after)
                &&& after == (Chapter { bookmarks: after.bookmarks, ..before })
                &&& after.bookmarks@.drop_last() == before.bookmarks@
                &&& after.bookmarks@.len() == before.bookmarks@.len() + 1
                &&& after.bookmarks@.last().position == position
                &&& after.bookmarks@.last().name == name
                &&& after.bookmarks@.last().formatted_for(before.start_position)
                &&& (before.wf() ==> after.wf())
                &&& final(app).msgs@ == said(old(app).msgs@, "Added a bookmark"@)
                &&& final(app).cache@ == without_bookmarks(old(app).cache@)
                &&& *final(app) == (App {
                    msgs: final(app).msgs,
                    cache: final(app).cache,
                    playback: if was_playing {
                        Playback::Playing
                    } else {
                        old(app).playback
                    },
                    ..*old(app)
                })
            },
        },
{
    let mut commands: Vec<Command> = Vec::new();
    let name = match name {
        Some(name) => name,
        None => {
            app.say("Cancelled adding a bookmark");
            return commands;
        },
    };
    mediainfo.chapters[app.current_chapter_index].add_bookmark(name, position);
    proof {
        if old(mediainfo).wf() {
            lemma_replace_keeps_wf(
                *old(mediainfo),
                *mediainfo,
                app.current_chapter_index as int,
            );
        }
    }
    app.say("Added a bookmark");
    app.cache.invalidate_bks();
    app.resume(was_playing, &mut commands);
    commands
}

/// Marks `position`, where the engine is now, for a bookmark to be made
/// later.
pub fn add_mark(app: &mut App, position: Option<u64>)
    ensures
        match position {
            Some(pos) => {
                &&& final(app).msgs@ == said(
                    old(app).msgs@,
                    "Marked position at "@ + decimal(pos as nat),
                )
                &&& *final(app) == (App {
                    msgs: final(app).msgs,
                    marked_position: Some(pos),
                    ..*old(app)
                })
            },
            None => {
                &&& final(app).msgs@ == said(old(app).msgs@, "Couldnt get the current position"@)
                &&& *final(app) == (App { msgs: final(app).msgs, ..*old(app) })
            },
        },
{
    match position {
        Some(pos) => {
            app.marked_position = Some(pos);
            let mut text = String::from_str("Marked position at ");
            push_decimal(&mut text, pos);
            app.msgs.push(text);
        },
        None => {
            app.say("Couldnt get the current position");
        },
    }
}

/// Adds a bookmark at the marked position under the name given in the
/// prompt, and forgets the mark. Without a mark nothing happens; a cancelled
/// prompt adds no bookmark, keeps the mark and leaves the playback paused.
pub fn add_bookmark_at_mark(
    app: &mut App,
    mediainfo: &mut MediaInfo,
    was_playing: bool,
    name: Option<String>,
) -> (commands: Vec<Command>)
    requires
        old(app).in_step(old(mediainfo)),
        old(app).marked_position matches Some(pos) ==> start_of(
            old(mediainfo).chapters@[old(app).current_chapter_index as int],
        ) <= pos,
    ensures
        old(mediainfo).wf() ==> final(mediainfo).wf(),
        *final(mediainfo) == (MediaInfo { chapters: final(mediainfo).chapters, ..*old(mediainfo) }),
        match (old(app).marked_position, name) {
            (None, _) => {
                &&& commands@ == Seq::<Command>::empty()
                &&& *final(mediainfo) == *old(mediainfo)
                &&& *final(app) == *old(app)
            },
            (Some(_), None) => {
                &&& commands@ == Seq::<Command>::empty()
                &&& *final(mediainfo) == *old(mediainfo)
                &&& final(app).msgs@ == said(old(app).msgs@, "Cancelled adding a bookmark"@)
                &&& *final(app) == (App { msgs: final(app).msgs, ..*old(app) })
            },
            (Some(pos), Some(name)) => {
                let at = old(app).current_chapter_index as int;
                let before = old(mediainfo).chapters@[at];
                let after = final(mediainfo).chapters@[at];
                &&& commands@ == resumed(Seq::empty(), was_playing)
                &&& final(mediainfo).chapters@ == old(mediainfo).chapters@.update(at, after)
                &&& after == (Chapter { bookmarks: after.bookmarks, ..before })
                &&& after.bookmarks@.drop_last() == before.bookmarks@
                &&& after.bookmarks@.len() == before.bookmarks@.len() + 1
                &&& after.bookmarks@.last().position == pos
                &&& after.bookmarks@.last().name == name
                &&& after.bookmarks@.last().formatted_for(before.start_position)
                &&& (before.wf() ==> after.wf())
                &&& final(app).msgs@ == said(old(app).msgs@, "Added a bookmark"@)
                &&& final(app).cache@ == without_bookmarks(old(app).cache@)
                &&& *final(app) == (App {
                    msgs: final(app).msgs,
                    cache: final(app).cache,
                    marked_position: None,
                    playback: if was_playing {
                        Playback::Playing
                    } else {
                        old(app).playback
                    },
                    ..*old(app)
                })
            },
        },
{
    let mut commands: Vec<Command> = Vec::new();
    match app.marked_position {
        Some(pos) => {
            let name = match name {
                Some(name) => name,
                None => {
                    app.say("Cancelled adding a bookmark");
                    return commands;
                },
            };
            mediainfo.chapters[app.current_chapter_index].add_bookmark(name, pos);
            proof {
                if old(mediainfo).wf() {
                    lemma_replace_keeps_wf(
                        *old(mediainfo),
                        *mediainfo,
                        app.current_chapter_index as int,
                    );
                }
            }
            app.say("Added a bookmark");
            app.cache.invalidate_bks();
            app.marked_position = None;
            app.resume(was_playing, &mut commands);
        },
        None => {},
    }
    commands
}

/// How far a step forwards or backwards moves, in seconds.
pub const MOVE_STEP: u64 = 5;

/// Whether the chapter ends within what a position in a file can say.
pub open spec fn ends_within(chapter: Chapter) -> bool {
    start_of(chapter) + chapter.length <= u64::MAX
}

/// Tells whether the chapter ends within what a position in a file can say.
pub fn is_within(chapter: &Chapter) -> (within: bool)
    ensures
        within == ends_within(*chapter),
{
    chapter.get_start_position() <= 0xffff_ffff_ffff_ffff - chapter.length
}

/// Moves to the position inside the chosen chapter that the user gave in the
/// prompt, in the form `"xhymzs"`, and keeps `position`, where the engine was,
/// as the position before the jump. Nothing moves where the prompt was
/// cancelled, the text is no position, or the position lies behind the end
/// of the chapter; the playback then stays paused.
pub fn move_to_arbitrary_position(
    app: &mut App,
    mediainfo: &mut MediaInfo,
    was_playing: bool,
    input: Option<String>,
    position: Option<u64>,
) -> (commands: Vec<Command>)
    requires
        old(app).in_step(old(mediainfo)),
        ends_within(old(mediainfo).chapters@[old(app).current_chapter_index as int]),
    ensures
        old(mediainfo).wf() ==> final(mediainfo).wf(),
        *final(mediainfo) == (MediaInfo { chapters: final(mediainfo).chapters, ..*old(mediainfo) }),
        ({
            let at = old(app).current_chapter_index as int;
            let chapter = old(mediainfo).chapters@[at];
            match input {
                None => {
                    &&& commands@ == Seq::<Command>::empty()
                    &&& *final(mediainfo) == *old(mediainfo)
                    &&& final(app).msgs@ == said(old(app).msgs@, "Canceled"@)
                    &&& *final(app) == (App { msgs: final(app).msgs, ..*old(app) })
                },
                Some(text) => match parse_spec(text@) {
                    None => {
                        &&& commands@ == Seq::<Command>::empty()
                        &&& *final(mediainfo) == *old(mediainfo)
                        &&& final(app).msgs@ == said(
                            old(app).msgs@,
                            "Detected an illegal character. 'h'/'m'/'s' and numbers are the only legal"@,
                        )
                        &&& *final(app) == (App { msgs: final(app).msgs, ..*old(app) })
                    },
                    Some(secs) => if secs > chapter.length {
                        &&& commands@ == Seq::<Command>::empty()
                        &&& *final(mediainfo) == *old(mediainfo)
                        &&& final(app).msgs@ == said(
                            old(app).msgs@,
                            "Given position is bigger than the length of the chapter"@,
                        )
                        &&& *final(app) == (App { msgs: final(app).msgs, ..*old(app) })
                    } else {
                        &&& commands@ == resumed(
                            seq![Command::Seek { position: (start_of(chapter) + secs) as u64 }],
                            was_playing,
                        )
                        &&& final(mediainfo).chapters@ == match position {
                            Some(pos) => old(mediainfo).chapters@.update(
                                at,
                                Chapter { before_jump_position: Some(pos), ..chapter },
                            ),
                            None => old(mediainfo).chapters@,
                        }
                        &&& final(app).msgs@ == said(old(app).msgs@, "Moved to "@ + text@)
                        &&& *final(app) == (App {
                            msgs: final(app).msgs,
                            playback: if was_playing {
                                Playback::Playing
                            } else {
                                old(app).playback
                            },
                            ..*old(app)
                        })
                    },
                },
            }
        }),
{
    let mut commands: Vec<Command> = Vec::new();
    let input = match input {
        Some(input) => input,
        None => {
            app.say("Canceled");
            return commands;
        },
    };
    let secs = match try_into_seconds(input.as_str()) {
        Some(secs) => secs,
        None => {
            app.say("Detected an illegal character. 'h'/'m'/'s' and numbers are the only legal");
            return commands;
        },
    };
    if secs > mediainfo.chapters[app.current_chapter_index].length {
        app.say("Given position is bigger than the length of the chapter");
        return commands;
    }
    match position {
        Some(pos) => {
            mediainfo.chapters[app.current_chapter_index].before_jump_position = Some(pos);
            proof {
                if old(mediainfo).wf() {
                    lemma_replace_keeps_wf(
                        *old(mediainfo),
                        *mediainfo,
                        app.current_chapter_index as int,
                    );
                }
            }
        },
        None => {},
    }
    let start = mediainfo.chapters[app.current_chapter_index].get_start_position();
    commands.push(Command::Seek { position: start + secs });
    let mut text = String::from_str("Moved to ");
    text.append(input.as_str());
    app.msgs.push(text);
    app.resume(was_playing, &mut commands);
    commands
}

/// Moves one step forwards from `position`, where the engine is now, but
/// not beyond the end of the chapter.
pub fn move_forward(app: &mut App, mediainfo: &MediaInfo, position: Option<u64>) -> (commands:
    Vec<Command>)
    requires
        old(app).in_step(mediainfo),
        ends_within(mediainfo.chapters@[old(app).current_chapter_index as int]),
    ensures
        *final(app) == (App { msgs: final(app).msgs, ..*old(app) }),
        ({
            let chapter = mediainfo.chapters@[old(app).current_chapter_index as int];
            match position {
                None => {
                    &&& commands@ == Seq::<Command>::empty()
                    &&& final(app).msgs@ == said(old(app).msgs@, "Couldn't get the position"@)
                },
                Some(abs_pos) => {
                    let cur_pos = if abs_pos >= start_of(chapter) {
                        abs_pos - start_of(chapter)
                    } else {
                        0
                    };
                    if cur_pos + MOVE_STEP <= chapter.length {
                        &&& commands@ == seq![
                            Command::Seek { position: (abs_pos + MOVE_STEP) as u64 },
                        ]
                        &&& final(app).msgs@ == said(
                            old(app).msgs@,
                            "Move forwards by 5 seconds"@,
                        )
                    } else {
                        &&& commands@ == seq![
                            Command::Seek { position: (start_of(chapter) + chapter.length) as u64 },
                        ]
                        &&& final(app).msgs@ == said(old(app).msgs@, "Moved to the end"@)
                    }
                },
            }
        }),
{
    let mut commands: Vec<Command> = Vec::new();
    let abs_pos = match position {
        Some(pos) => pos,
        None => {
            app.say("Couldn't get the position");
            return commands;
        },
    };
    let chapter = &mediainfo.chapters[app.current_chapter_index];
    let start_pos = chapter.get_start_position();
    let cur_pos = if abs_pos >= start_pos {
        abs_pos - start_pos
    } else {
        0
    };
    if cur_pos <= chapter.length && chapter.length - cur_pos >= MOVE_STEP {
        commands.push(Command::Seek { position: abs_pos + MOVE_STEP });
        app.say("Move forwards by 5 seconds");
    } else {
        commands.push(Command::Seek { position: start_pos + chapter.length });
        app.say("Moved to the end");
    }
    commands
}

/// Moves one step backwards from `position`, where the engine is now, but
/// not before the start of the chapter.
pub fn move_backward(app: &mut App, mediainfo: &MediaInfo, position: Option<u64>) -> (commands:
    Vec<Command>)
    requires
        old(app).in_step(mediainfo),
    ensures
        *final(app) == (App { msgs: final(app).msgs, ..*old(app) }),
        ({
            let chapter = mediainfo.chapters@[old(app).current_chapter_index as int];
            match position {
                None => {
                    &&& commands@ == Seq::<Command>::empty()
                    &&& final(app).msgs@ == said(old(app).msgs@, "Couldn't get the position"@)
                },
                Some(abs_pos) => if abs_pos - MOVE_STEP > start_of(chapter) {
                    &&& commands@ == seq![Command::Seek { position: (abs_pos - MOVE_STEP) as u64 }]
                    &&& final(app).msgs@ == said(old(app).msgs@, "Move backwards by 5 seconds"@)
                } else {
                    &&& commands@ == seq![Command::Seek { position: start_of(chapter) }]
                    &&& final(app).msgs@ == said(old(app).msgs@, "Moved to the start"@)
                },
            }
        }),
{
    let mut commands: Vec<Command> = Vec::new();
    let abs_pos = match position {
        Some(pos) => pos,
        None => {
            app.say("Couldn't get the position");
            return commands;
        },
    };
    let start_pos = mediainfo.chapters[app.current_chapter_index].get_start_position();
    if abs_pos >= MOVE_STEP && abs_pos - MOVE_STEP > start_pos {
        commands.push(Command::Seek { position: abs_pos - MOVE_STEP });
        app.say("Move backwards by 5 seconds");
    } else {
        commands.push(Command::Seek { position: start_pos });
        app.say("Moved to the start");
    }
    commands
}

/// Asks for the speed one step below the speed of the library; there is
/// none where that would not be above zero. The library keeps its speed
/// until the engine has taken the new one.
pub fn descrease_speed(app: &mut App, mediainfo: &MediaInfo) -> (commands: Vec<Command>)
    ensures
        if mediainfo.speed <= SPEED_STEP {
            &&& commands@ == Seq::<Command>::empty()
            &&& final(app).msgs@ == said(old(app).msgs@, "Can't descrease the speed any further"@)
            &&& *final(app) == (App { msgs: final(app).msgs, ..*old(app) })
        } else {
            &&& commands@ == seq![
                Command::SetSpeed { speed: (mediainfo.speed - SPEED_STEP) as u64 },
            ]
            &&& *final(app) == *old(app)
        },
{
    let mut commands: Vec<Command> = Vec::new();
    if mediainfo.speed <= SPEED_STEP {
        app.say("Can't descrease the speed any further");
    } else {
        commands.push(Command::SetSpeed { speed: mediainfo.speed - SPEED_STEP });
    }
    commands
}

/// Asks for the speed one step above the speed of the library. The library
/// keeps its speed until the engine has taken the new one.
pub fn increase_speed(mediainfo: &MediaInfo) -> (commands: Vec<Command>)
    requires
        mediainfo.speed + SPEED_STEP <= u64::MAX,
    ensures
        commands@ == seq![Command::SetSpeed { speed: (mediainfo.speed + SPEED_STEP) as u64 }],
{
    let mut commands: Vec<Command> = Vec::new();
    commands.push(Command::SetSpeed { speed: mediainfo.speed + SPEED_STEP });
    commands
}

/// Takes note of what the engine answered to a speed one step above or below
/// the speed of the library: the library takes the speed that the engine
/// took, and keeps its own where the engine refused.
pub fn speed_changed(
    app: &mut App,
    mediainfo: &mut MediaInfo,
    speed: u64,
    accepted: bool,
    faster: bool,
)
    ensures
        old(mediainfo).wf() && speed > 0 ==> final(mediainfo).wf(),
        *final(mediainfo) == (MediaInfo {
            speed: if accepted {
                speed
            } else {
                old(mediainfo).speed
            },
            ..*old(mediainfo)
        }),
        final(app).msgs@ == if accepted {
            old(app).msgs@
        } else if faster {
            said(old(app).msgs@, "Couldn't increase the speed"@)
        } else {
            said(old(app).msgs@, "Couldn't descrease the speed"@)
        },
        *final(app) == (App { msgs: final(app).msgs, ..*old(app) }),
{
    if accepted {
        mediainfo.speed = speed;
    } else if faster {
        app.say("Couldn't increase the speed");
    } else {
        app.say("Couldn't descrease the speed");
    }
}

/// Goes back to the position that the chosen chapter had before the last
/// jump inside it.
pub fn restore_pos_before_jump(app: &mut App, mediainfo: &MediaInfo) -> (commands: Vec<Command>)
    requires
        old(app).in_step(mediainfo),
    ensures
        *final(app) == (App {
            msgs: final(app).msgs,
            playback: if old(app).playback == Playback::Playing {
                Playback::Paused
            } else {
                old(app).playback
            },
            ..*old(app)
        }),
        match mediainfo.chapters@[old(app).current_chapter_index as int].before_jump_position {
            Some(pos) => {
                &&& commands@ == paused_first(
                    old(app).playback,
                    seq![Command::Seek { position: pos }],
                )
                &&& final(app).msgs@ == said(
                    old(app).msgs@,
                    "Retored the position before a jump"@,
                )
            },
            None => {
                &&& commands@ == paused_first(old(app).playback, Seq::empty())
                &&& final(app).msgs@ == said(
                    old(app).msgs@,
                    "There isn't a jump saved for this chapter."@,
                )
            },
        },
{
    let mut commands: Vec<Command> = Vec::new();
    app.if_playing_pause(&mut commands);
    match mediainfo.chapters[app.current_chapter_index].before_jump_position {
        Some(pos) => {
            commands.push(Command::Seek { position: pos });
            app.say("Retored the position before a jump");
        },
        None => {
            app.say("There isn't a jump saved for this chapter.");
        },
    }
    proof {
        assert(commands@ =~= paused_first(
            old(app).playback,
            match mediainfo.chapters@[old(app).current_chapter_index as int].before_jump_position {
                Some(pos) => seq![Command::Seek { position: pos }],
                None => Seq::empty(),
            },
        ));
    }
    commands
}

/// Goes back to the chapter and the position from which the last jump to a
/// bookmark among those of all chapters was made.
pub fn restore_pos_and_chap_before_jump(app: &mut App, mediainfo: &MediaInfo) -> (commands: Vec<
    Command,
>)
    requires
        old(app).pos_and_chap_before_jump matches Some(jump) ==> jump.1 < mediainfo.chapters@.len(),
    ensures
        match old(app).pos_and_chap_before_jump {
            Some((pos, chapter)) => if chapter == old(app).current_chapter_index {
                &&& commands@ == paused_first(
                    old(app).playback,
                    seq![Command::Seek { position: pos }],
                )
                &&& final(app).msgs@ == said(old(app).msgs@, "0"@)
                &&& *final(app) == (App {
                    msgs: final(app).msgs,
                    playback: if old(app).playback == Playback::Playing {
                        Playback::Paused
                    } else {
                        old(app).playback
                    },
                    ..*old(app)
                })
            } else {
                &&& commands@ == paused_first(
                    old(app).playback,
                    seq![
                        Command::Load {
                            chapter,
                            position: resume_position(mediainfo.chapters@[chapter as int]),
                        },
                        Command::Seek { position: pos },
                    ],
                )
                &&& final(app).msgs@ == said(old(app).msgs@, "1"@)
                &&& final(app).cache@ == without_chapter(old(app).cache@)
                &&& *final(app) == (App {
                    msgs: final(app).msgs,
                    cache: final(app).cache,
                    current_chapter_index: chapter,
                    playback: Playback::Paused,
                    ..*old(app)
                })
            },
            None => {
                &&& commands@ == paused_first(old(app).playback, Seq::empty())
                &&& final(app).msgs@ == said(
                    old(app).msgs@,
                    "There is no saved position before the jump"@,
                )
                &&& *final(app) == (App {
                    msgs: final(app).msgs,
                    playback: if old(app).playback == Playback::Playing {
                        Playback::Paused
                    } else {
                        old(app).playback
                    },
                    ..*old(app)
                })
            },
        },
{
    let mut commands: Vec<Command> = Vec::new();
    app.if_playing_pause(&mut commands);
    let ghost paused = commands@;
    match app.pos_and_chap_before_jump {
        Some((pos, chapter)) => {
            if chapter == app.current_chapter_index {
                commands.push(Command::Seek { position: pos });
                app.say("0");
                assert(commands@ =~= paused_first(
                    old(app).playback,
                    seq![Command::Seek { position: pos }],
                ));
            } else {
                app.load_chapter(chapter, mediainfo, &mut commands);
                commands.push(Command::Seek { position: pos });
                app.say("1");
                assert(commands@ =~= paused_first(
                    old(app).playback,
                    seq![
                        Command::Load {
                            chapter,
                            position: resume_position(mediainfo.chapters@[chapter as int]),
                        },
                        Command::Seek { position: pos },
                    ],
                ));
            }
        },
        None => {
            app.say("There is no saved position before the jump");
            assert(commands@ =~= paused_first(old(app).playback, Seq::empty()));
        },
    }
    commands
}

/// The message that tells which bookmark was chosen: its text, and for a
/// bookmark of another chapter the name of that chapter and its probed
/// track number.
pub open spec fn selected_message(chapter: Chapter, bookmark: int, with_chapter: bool) -> Seq<
    char,
> {
    let text = "Selected bookmark: "@ + chapter.bookmarks@[bookmark].formatted_position@;
    if with_chapter {
        text + " from Chapter "@ + chapter.display_name() + ", track number: "@
            + match chapter.tracknumber {
            Some(number) => decimal(number as nat),
            None => "None"@,
        }
    } else {
        text
    }
}

impl App {
    /// Moves to a bookmark: the one at `bookmark_index` of the chapter at
    /// `track`, which is loaded first, or of the chosen chapter where no
    /// track is given.
    pub fn bookmark_select(
        &mut self,
        track: Option<usize>,
        bookmark_index: usize,
        mediainfo: &MediaInfo,
    ) -> (commands: Vec<Command>)
        requires
            match track {
                Some(track) => track < mediainfo.chapters@.len() && bookmark_index
                    < mediainfo.chapters@[track as int].bookmarks@.len(),
                None => old(self).current_chapter_index < mediainfo.chapters@.len()
                    && bookmark_index < mediainfo.chapters@[old(
                    self,
                ).current_chapter_index as int].bookmarks@.len(),
            },
        ensures
            match track {
                Some(track) => {
                    let chapter = mediainfo.chapters@[track as int];
                    &&& commands@ == seq![
                        Command::Load { chapter: track, position: resume_position(chapter) },
                        Command::Seek {
                            position: chapter.bookmarks@[bookmark_index as int].position,
                        },
                    ]
                    &&& final(self).msgs@ == said(
                        old(self).msgs@,
                        selected_message(chapter, bookmark_index as int, true),
                    )
                    &&& final(self).cache@ == without_chapter(old(self).cache@)
                    &&& *final(self) == (App {
                        msgs: final(self).msgs,
                        cache: final(self).cache,
                        current_chapter_index: track,
                        playback: Playback::Paused,
                        ..*old(self)
                    })
                },
                None => {
                    let chapter = mediainfo.chapters@[old(self).current_chapter_index as int];
                    &&& commands@ == seq![
                        Command::Seek {
                            position: chapter.bookmarks@[bookmark_index as int].position,
                        },
                    ]
                    &&& final(self).msgs@ == said(
                        old(self).msgs@,
                        selected_message(chapter, bookmark_index as int, false),
                    )
                    &&& *final(self) == (App { msgs: final(self).msgs, ..*old(self) })
                },
            },
    {
        let mut commands: Vec<Command> = Vec::new();
        let mut text = String::from_str("Selected bookmark: ");
        match track {
            Some(track) => {
                self.load_chapter(track, mediainfo, &mut commands);
                let chapter = &mediainfo.chapters[track];
                let bookmark = &chapter.bookmarks[bookmark_index];
                commands.push(Command::Seek { position: bookmark.position });
                text.append(bookmark.formatted_position.as_str());
                text.append(" from Chapter ");
                text.append(chapter.get_title_or_filename().as_str());
                text.append(", track number: ");
                match chapter.tracknumber {
                    Some(number) => {
                        push_decimal(&mut text, number as u64);
                    },
                    None => {
                        text.append("None");
                    },
                }
                assert(text@ =~= selected_message(*chapter, bookmark_index as int, true));
            },
            None => {
                let chapter = &mediainfo.chapters[self.current_chapter_index];
                let bookmark = &chapter.bookmarks[bookmark_index];
                commands.push(Command::Seek { position: bookmark.position });
                text.append(bookmark.formatted_position.as_str());
            },
        }
        self.msgs.push(text);
        commands
    }
}

/// What the media engine reported since the last tick.
#[derive(Debug)]
pub enum BusEvent {
    /// nothing
    Nothing,
    /// the stream has ended
    EndOfStream,
    /// an error, with its text
    Failure(String),
}

/// What happens when the chosen chapter has ended at `abs_position` of its
/// file: the position is kept as its last one, and the next chapter is
/// loaded and played, or the playback pauses at the end of the book.
pub fn chapter_ended(
    app: &mut App,
    mediainfo: &mut MediaInfo,
    abs_position: u64,
    stream_ended: bool,
) -> (commands: Vec<Command>)
    requires
        old(app).in_step(old(mediainfo)),
    ensures
        old(mediainfo).wf() ==> final(mediainfo).wf(),
        final(app).in_step(final(mediainfo)),
        final(mediainfo).chapters@ == positioned(
            old(mediainfo).chapters@,
            old(app).current_chapter_index as int,
            abs_position,
        ),
        *final(mediainfo) == (MediaInfo { chapters: final(mediainfo).chapters, ..*old(mediainfo) }),
        if old(app).current_chapter_index + 1 < old(mediainfo).chaptercount {
            let next = (old(app).current_chapter_index + 1) as usize;
            &&& commands@ == seq![
                Command::Load {
                    chapter: next,
                    position: resume_position(old(mediainfo).chapters@[next as int]),
                },
                Command::Play,
            ]
            &&& final(app).msgs@ == if stream_ended {
                said(
                    said(old(app).msgs@, "End of stream. Starting next chapter"@),
                    decimal(old(app).current_chapter_index as nat),
                )
            } else {
                said(old(app).msgs@, "End of the chapter. Starting next chapter"@)
            }
            &&& final(app).cache@ == without_chapter(old(app).cache@)
            &&& *final(app) == (App {
                msgs: final(app).msgs,
                cache: final(app).cache,
                current_chapter_index: next,
                playback: Playback::Playing,
                ..*old(app)
            })
        } else {
            &&& commands@ == seq![Command::Pause]
            &&& final(app).msgs@ == said(old(app).msgs@, "End of the book"@)
            &&& *final(app) == (App {
                msgs: final(app).msgs,
                playback: Playback::Paused,
                ..*old(app)
            })
        },
{
    let mut commands: Vec<Command> = Vec::new();
    mediainfo.chapters[app.current_chapter_index].update_last_position(abs_position);
    proof {
        if old(mediainfo).wf() {
            lemma_replace_keeps_wf(
                *old(mediainfo),
                *mediainfo,
                app.current_chapter_index as int,
            );
        }
    }
    if app.current_chapter_index + 1 < mediainfo.chaptercount {
        if stream_ended {
            app.say("End of stream. Starting next chapter");
            let mut text = String::new();
            push_decimal(&mut text, app.current_chapter_index as u64);
            assert(text@ =~= decimal(app.current_chapter_index as nat));
            app.msgs.push(text);
        } else {
            app.say("End of the chapter. Starting next chapter");
        }
        app.load_chapter(app.current_chapter_index + 1, mediainfo, &mut commands);
        commands.push(Command::Play);
        app.playback = Playback::Playing;
    } else {
        app.say("End of the book");
        commands.push(Command::Pause);
        app.playback = Playback::Paused;
    }
    commands
}

/// The position inside a chapter that starts at `start` of its file, where
/// the engine is at `position` of the file: zero before the start, and where
/// the engine could not tell.
pub open spec fn position_in_chapter(position: Option<u64>, start: u64) -> u64 {
    match position {
        Some(abs_position) => if abs_position >= start {
            (abs_position - start) as u64
        } else {
            0
        },
        None => 0,
    }
}

/// The position in the file; zero where the engine could not tell.
pub open spec fn position_in_file(position: Option<u64>) -> u64 {
    match position {
        Some(abs_position) => abs_position,
        None => 0,
    }
}

impl App {
    /// Brings the bars, the cached positions and the message bar up to date,
    /// at the time `now` and with the engine at `position` of the file.
    pub fn refresh(&mut self, mediainfo: &MediaInfo, now: u64, position: Option<u64>)
        requires
            old(self).in_step(mediainfo),
        ensures
            ({
                let chapter = mediainfo.chapters@[old(self).current_chapter_index as int];
                let in_chapter = position_in_chapter(position, start_of(chapter));
                &&& final(self).ui.volume_bar == capped_u16(mediainfo.volume as int)
                &&& final(self).ui.chapter_bar == chapter_bar_spec(in_chapter, chapter.length)
                &&& final(self).ui == (Ui {
                    volume_bar: final(self).ui.volume_bar,
                    chapter_bar: final(self).ui.chapter_bar,
                    ..old(self).ui
                })
                &&& final(self).cache@ == ticked(
                    old(self).cache@,
                    chapter@,
                    in_chapter,
                    position_in_file(position),
                )
                &&& final(self).msgs@ == tick_spec(old(self).msgs@, now)
                &&& *final(self) == (App {
                    ui: final(self).ui,
                    cache: final(self).cache,
                    msgs: final(self).msgs,
                    ..*old(self)
                })
            }),
    {
        let chapter = &mediainfo.chapters[self.current_chapter_index];
        let start = chapter.get_start_position();
        let (abs_position, in_chapter) = match position {
            Some(abs_position) => if abs_position >= start {
                (abs_position, abs_position - start)
            } else {
                (abs_position, 0)
            },
            None => (0, 0),
        };
        self.ui.on_tick(mediainfo.volume, in_chapter, chapter.length);
        self.cache.on_tick(chapter, in_chapter, abs_position);
        self.msgs.on_tick(now);
    }
}

/// Whether the chosen chapter is over at a tick: the engine says that the
/// stream has ended, or it plays and has reached the length of the chapter.
pub open spec fn is_over(
    playback: Playback,
    chapter: Chapter,
    position: Option<u64>,
    event: BusEvent,
) -> bool {
    match event {
        BusEvent::EndOfStream => true,
        BusEvent::Failure(_) => false,
        BusEvent::Nothing => playback == Playback::Playing && position_in_chapter(
            position,
            start_of(chapter),
        ) >= chapter.length,
    }
}

impl App {
    /// One tick of the session, at the time `now`, with the engine at
    /// `position` of the file and `event` reported by it. What is shown is
    /// brought up to date; a reported error is queued as a message; where the
    /// chapter is over the next one is started, or the book ends.
    pub fn on_tick(
        &mut self,
        mediainfo: &mut MediaInfo,
        now: u64,
        position: Option<u64>,
        event: BusEvent,
    ) -> (commands: Vec<Command>)
        requires
            old(self).in_step(old(mediainfo)),
        ensures
            old(mediainfo).wf() ==> final(mediainfo).wf(),
            final(self).in_step(final(mediainfo)),
            *final(mediainfo) == (MediaInfo {
                chapters: final(mediainfo).chapters,
                ..*old(mediainfo)
            }),
            ({
                let at = old(self).current_chapter_index as int;
                let chapter = old(mediainfo).chapters@[at];
                let over = is_over(old(self).playback, chapter, position, event);
                let ticked_msgs = tick_spec(old(self).msgs@, now);
                &&& final(mediainfo).chapters@ == if over {
                    positioned(old(mediainfo).chapters@, at, position_in_file(position))
                } else {
                    old(mediainfo).chapters@
                }
                &&& final(self).ui.volume_bar == capped_u16(old(mediainfo).volume as int)
                &&& final(self).ui.chapter_bar == chapter_bar_spec(
                    position_in_chapter(position, start_of(chapter)),
                    chapter.length,
                )
                &&& *final(self) == (App {
                    ui: final(self).ui,
                    cache: final(self).cache,
                    msgs: final(self).msgs,
                    playback: final(self).playback,
                    current_chapter_index: final(self).current_chapter_index,
                    ..*old(self)
                })
                &&& (!over || at + 1 >= old(mediainfo).chaptercount) ==> final(self).cache@
                    == ticked(
                    old(self).cache@,
                    chapter@,
                    position_in_chapter(position, start_of(chapter)),
                    position_in_file(position),
                )
                &&& if !over {
                    &&& commands@ == Seq::<Command>::empty()
                    &&& final(self).msgs@ == match event {
                        BusEvent::Failure(text) => said(ticked_msgs, text@),
                        _ => ticked_msgs,
                    }
                    &&& final(self).playback == old(self).playback
                    &&& final(self).current_chapter_index == old(self).current_chapter_index
                } else if at + 1 < old(mediainfo).chaptercount {
                    &&& commands@ == seq![
                        Command::Load {
                            chapter: (at + 1) as usize,
                            position: resume_position(old(mediainfo).chapters@[at + 1]),
                        },
                        Command::Play,
                    ]
                    &&& final(self).msgs@ == if event is EndOfStream {
                        said(
                            said(ticked_msgs, "End of stream. Starting next chapter"@),
                            decimal(at as nat),
                        )
                    } else {
                        said(ticked_msgs, "End of the chapter. Starting next chapter"@)
                    }
                    &&& final(self).playback == Playback::Playing
                    &&& final(self).current_chapter_index == at + 1
                    &&& final(self).cache@ == without_chapter(
                        ticked(
                            old(self).cache@,
                            chapter@,
                            position_in_chapter(position, start_of(chapter)),
                            position_in_file(position),
                        ),
                    )
                } else {
                    &&& commands@ == seq![Command::Pause]
                    &&& final(self).msgs@ == said(ticked_msgs, "End of the book"@)
                    &&& final(self).playback == Playback::Paused
                    &&& final(self).current_chapter_index == old(self).current_chapter_index
                }
            }),
    {
        let chapter = &mediainfo.chapters[self.current_chapter_index];
        let start = chapter.get_start_position();
        let length = chapter.length;
        let (abs_position, in_chapter) = match position {
            Some(abs_position) => if abs_position >= start {
                (abs_position, abs_position - start)
            } else {
                (abs_position, 0)
            },
            None => (0, 0),
        };
        self.refresh(mediainfo, now, position);
        match event {
            BusEvent::EndOfStream => chapter_ended(self, mediainfo, abs_position, true),
            BusEvent::Failure(text) => {
                self.msgs.push(text);
                Vec::new()
            },
            BusEvent::Nothing => {
                if self.is_playing() && in_chapter >= length {
                    chapter_ended(self, mediainfo, abs_position, false)
                } else {
                    Vec::new()
                }
            },
        }
    }
}

/// Marks the chosen chapter as listened to the end and moves on to the next
/// one.
pub fn finish_chapter(app: &mut App, mediainfo: &mut MediaInfo) -> (commands: Vec<Command>)
    requires
        old(app).in_step(old(mediainfo)),
        ends_within(old(mediainfo).chapters@[old(app).current_chapter_index as int]),
    ensures
        old(mediainfo).wf() ==> final(mediainfo).wf(),
        final(app).in_step(final(mediainfo)),
        *final(mediainfo) == (MediaInfo { chapters: final(mediainfo).chapters, ..*old(mediainfo) }),
        ({
            let at = old(app).current_chapter_index as int;
            let chapter = old(mediainfo).chapters@[at];
            &&& final(mediainfo).chapters@ == positioned(
                old(mediainfo).chapters@,
                at,
                (start_of(chapter) + chapter.length) as u64,
            )
            &&& if at + 1 >= old(mediainfo).chaptercount {
                &&& commands@ == seq![Command::Pause]
                &&& final(app).msgs@ == said(
                    old(app).msgs@,
                    "You are the end of the playlist. Can't move any further."@,
                )
                &&& *final(app) == (App {
                    msgs: final(app).msgs,
                    playback: Playback::Paused,
                    ..*old(app)
                })
            } else {
                &&& commands@ == seq![
                    Command::Pause,
                    Command::Load {
                        chapter: (at + 1) as usize,
                        position: resume_position(old(mediainfo).chapters@[at + 1]),
                    },
                ]
                &&& final(app).msgs@ == said(old(app).msgs@, "Moved to the next chapter"@)
                &&& final(app).cache@ == without_chapter(old(app).cache@)
                &&& *final(app) == (App {
                    msgs: final(app).msgs,
                    cache: final(app).cache,
                    playback: Playback::Paused,
                    current_chapter_index: (at + 1) as usize,
                    marked_position: None,
                    ..*old(app)
                })
            }
        }),
{
    let mut commands: Vec<Command> = Vec::new();
    commands.push(Command::Pause);
    app.playback = Playback::Paused;
    let chapter = &mediainfo.chapters[app.current_chapter_index];
    let end = chapter.get_start_position() + chapter.length;
    mediainfo.chapters[app.current_chapter_index].update_last_position(end);
    proof {
        if old(mediainfo).wf() {
            lemma_replace_keeps_wf(
                *old(mediainfo),
                *mediainfo,
                app.current_chapter_index as int,
            );
        }
    }
    let mut moves = next_chapter(app, mediainfo, false, None);
    commands.append(&mut moves);
    commands
}

/// What the user gave in a prompt for a number.
#[derive(Clone, Copy, Debug, PartialEq, Eq, Structural)]
pub enum Typed {
    /// the prompt was cancelled
    Cancelled,
    /// the text is no number
    Invalid,
    /// the number
    Value(u64),
}

/// Sets the speed to what the user gave in the prompt, in hundredths. A
/// speed of zero is no speed.
pub fn set_speed(app: &mut App, mediainfo: &mut MediaInfo, typed: Typed) -> (commands: Vec<
    Command,
>)
    ensures
        old(mediainfo).wf() ==> final(mediainfo).wf(),
        match typed {
            Typed::Value(speed) if speed > 0 => {
                &&& commands@ == seq![Command::SetSpeed { speed }]
                &&& *final(mediainfo) == (MediaInfo { speed, ..*old(mediainfo) })
                &&& *final(app) == *old(app)
            },
            Typed::Cancelled => {
                &&& commands@ == Seq::<Command>::empty()
                &&& *final(mediainfo) == *old(mediainfo)
                &&& final(app).msgs@ == said(old(app).msgs@, "Cancelled setting speed."@)
                &&& *final(app) == (App { msgs: final(app).msgs, ..*old(app) })
            },
            _ => {
                &&& commands@ == Seq::<Command>::empty()
                &&& *final(mediainfo) == *old(mediainfo)
                &&& final(app).msgs@ == said(old(app).msgs@, "Invalid input"@)
                &&& *final(app) == (App { msgs: final(app).msgs, ..*old(app) })
            },
        },
{
    let mut commands: Vec<Command> = Vec::new();
    match typed {
        Typed::Cancelled => {
            app.say("Cancelled setting speed.");
        },
        Typed::Invalid => {
            app.say("Invalid input");
        },
        Typed::Value(speed) => {
            if speed > 0 {
                mediainfo.speed = speed;
                commands.push(Command::SetSpeed { speed });
            } else {
                app.say("Invalid input");
            }
        },
    }
    commands
}

/// Tells that the engine did not take the speed that the user gave.
pub fn speed_refused(app: &mut App)
    ensures
        final(app).msgs@ == said(old(app).msgs@, "Couldn't set the speed"@),
        *final(app) == (App { msgs: final(app).msgs, ..*old(app) }),
{
    app.say("Couldn't set the speed");
}

/// Sets the volume to what the user gave in the prompt, in percent, and at
/// most to the full volume.
pub fn set_volume(app: &mut App, mediainfo: &mut MediaInfo, typed: Typed) -> (commands: Vec<
    Command,
>)
    ensures
        old(mediainfo).wf() ==> final(mediainfo).wf(),
        final(mediainfo).volume <= 100 || final(mediainfo).volume == old(mediainfo).volume,
        match typed {
            Typed::Value(percent) => {
                let volume = if percent > 100 {
                    100
                } else {
                    percent
                };
                &&& commands@ == seq![Command::SetVolume { percent: volume }]
                &&& *final(mediainfo) == (MediaInfo { volume, ..*old(mediainfo) })
                &&& *final(app) == *old(app)
            },
            Typed::Cancelled => {
                &&& commands@ == Seq::<Command>::empty()
                &&& *final(mediainfo) == *old(mediainfo)
                &&& final(app).msgs@ == said(old(app).msgs@, "Cancelled adding a bookmark"@)
                &&& *final(app) == (App { msgs: final(app).msgs, ..*old(app) })
            },
            Typed::Invalid => {
                &&& commands@ == Seq::<Command>::empty()
                &&& *final(mediainfo) == *old(mediainfo)
                &&& final(app).msgs@ == said(old(app).msgs@, "Invalid input"@)
                &&& *final(app) == (App { msgs: final(app).msgs, ..*old(app) })
            },
        },
{
    let mut commands: Vec<Command> = Vec::new();
    match typed {
        Typed::Cancelled => {
            app.say("Cancelled adding a bookmark");
        },
        Typed::Invalid => {
            app.say("Invalid input");
        },
        Typed::Value(percent) => {
            let volume = if percent > 100 {
                100
            } else {
                percent
            };
            mediainfo.volume = volume;
            commands.push(Command::SetVolume { percent: volume });
        },
    }
    commands
}

/// Starts the chosen chapter over, where the user confirmed it.
pub fn reset_chapter(app: &App, mediainfo: &MediaInfo, confirmed: bool) -> (commands: Vec<Command>)
    requires
        app.in_step(mediainfo),
    ensures
        commands@ == if confirmed {
            seq![
                Command::Seek {
                    position: start_of(mediainfo.chapters@[app.current_chapter_index as int]),
                },
            ]
        } else {
            Seq::empty()
        },
{
    let mut commands: Vec<Command> = Vec::new();
    if confirmed {
        let start = mediainfo.chapters[app.current_chapter_index].get_start_position();
        commands.push(Command::Seek { position: start });
    }
    commands
}

/// Saves `position`, where the engine is now, for the chosen chapter.
pub fn save_position(app: &mut App, mediainfo: &mut MediaInfo, position: Option<u64>)
    requires
        old(app).in_step(old(mediainfo)),
    ensures
        old(mediainfo).wf() ==> final(mediainfo).wf(),
        *final(mediainfo) == (MediaInfo { chapters: final(mediainfo).chapters, ..*old(mediainfo) }),
        match position {
            Some(pos) => {
                &&& final(mediainfo).chapters@ == old(mediainfo).chapters@.update(
                    old(app).current_chapter_index as int,
                    Chapter {
                        z_position: Some(pos),
                        ..old(mediainfo).chapters@[old(app).current_chapter_index as int]
                    },
                )
                &&& *final(app) == *old(app)
            },
            None => {
                &&& *final(mediainfo) == *old(mediainfo)
                &&& final(app).msgs@ == said(old(app).msgs@, "Couldn't get the position"@)
                &&& *final(app) == (App { msgs: final(app).msgs, ..*old(app) })
            },
        },
{
    match position {
        Some(pos) => {
            mediainfo.chapters[app.current_chapter_index].update_saved_position(Some(pos));
            proof {
                if old(mediainfo).wf() {
                    lemma_replace_keeps_wf(
                        *old(mediainfo),
                        *mediainfo,
                        app.current_chapter_index as int,
                    );
                }
            }
        },
        None => {
            app.say("Couldn't get the position");
        },
    }
}

/// Goes back to the position saved for the chosen chapter.
pub fn restore_saved_position(app: &mut App, mediainfo: &MediaInfo) -> (commands: Vec<Command>)
    requires
        old(app).in_step(mediainfo),
    ensures
        match mediainfo.chapters@[old(app).current_chapter_index as int].z_position {
            Some(pos) => commands@ == seq![Command::Seek { position: pos }] && *final(app) == *old(
                app,
            ),
            None => {
                &&& commands@ == Seq::<Command>::empty()
                &&& final(app).msgs@ == said(
                    old(app).msgs@,
                    "You do not have a saved position for this chapter"@,
                )
                &&& *final(app) == (App { msgs: final(app).msgs, ..*old(app) })
            },
        },
{
    let mut commands: Vec<Command> = Vec::new();
    match mediainfo.chapters[app.current_chapter_index].z_position {
        Some(pos) => {
            commands.push(Command::Seek { position: pos });
        },
        None => {
            app.say("You do not have a saved position for this chapter");
        },
    }
    commands
}

/// What a new size of the screen asks for: every list is made anew.
pub fn resized(app: &mut App)
    ensures
        final(app).cache@ == without_playlist(
            without_keybindings(without_bookmarks(old(app).cache@)),
        ),
        *final(app) == (App { cache: final(app).cache, ..*old(app) }),
{
    app.cache.invalidate_bks();
    app.cache.invalidate_kbs();
    app.cache.invalidate_pls();
}

/// The times, in milliseconds, at which the things that recur were last
/// done.
#[derive(Clone, Copy, Debug, PartialEq, Eq, Structural)]
pub struct Timers {
    pub last_tick: u64,
    pub last_time_saved: u64,
    pub last_time_percentage_updated: u64,
}

/// The time between two ticks, in milliseconds.
pub const TICK_RATE: u64 = 33;

/// The time between two saves of the library, in milliseconds.
pub const SAVE_PERIOD: u64 = 300_000;

/// The time between two refreshes of the percentages of the playlist, in
/// milliseconds.
pub const PERCENTAGE_PERIOD: u64 = 30_000;

/// Whether at least `period` has passed between `last` and `now`.
pub open spec fn is_due_spec(last: u64, now: u64, period: u64) -> bool {
    now - last >= period
}

/// Tells whether at least `period` has passed between `last` and `now`.
pub fn is_due(last: u64, now: u64, period: u64) -> (due: bool)
    ensures
        due == is_due_spec(last, now, period),
{
    now >= last && now - last >= period
}

/// How long the caller may wait for input before the next tick is due.
pub fn poll_timeout(timers: &Timers, now: u64) -> (timeout: u64)
    ensures
        timeout == if now - timers.last_tick >= TICK_RATE {
            0
        } else if now < timers.last_tick {
            TICK_RATE as int
        } else {
            TICK_RATE - (now - timers.last_tick)
        },
{
    if now < timers.last_tick {
        TICK_RATE
    } else if now - timers.last_tick >= TICK_RATE {
        0
    } else {
        TICK_RATE - (now - timers.last_tick)
    }
}

/// Decides, once per tick, whether the library is to be saved now: it is
/// where the save is due and the engine can tell its position, which becomes
/// the last position of the chosen chapter.
pub fn periodic_save(
    app: &mut App,
    mediainfo: &mut MediaInfo,
    timers: &mut Timers,
    now: u64,
    position: Option<u64>,
) -> (save: bool)
    requires
        old(app).in_step(old(mediainfo)),
    ensures
        old(mediainfo).wf() ==> final(mediainfo).wf(),
        save == (is_due_spec(old(timers).last_time_saved, now, SAVE_PERIOD) && position is Some),
        *final(mediainfo) == (MediaInfo { chapters: final(mediainfo).chapters, ..*old(mediainfo) }),
        *final(timers) == (Timers {
            last_time_saved: if is_due_spec(old(timers).last_time_saved, now, SAVE_PERIOD) {
                now
            } else {
                old(timers).last_time_saved
            },
            ..*old(timers)
        }),
        final(mediainfo).chapters@ == if save {
            positioned(old(mediainfo).chapters@, old(app).current_chapter_index as int, position->0)
        } else {
            old(mediainfo).chapters@
        },
        final(app).msgs@ == if is_due_spec(old(timers).last_time_saved, now, SAVE_PERIOD)
            && position is None {
            said(old(app).msgs@, "Couldn't get the position"@)
        } else {
            old(app).msgs@
        },
        *final(app) == (App { msgs: final(app).msgs, ..*old(app) }),
{
    if !is_due(timers.last_time_saved, now, SAVE_PERIOD) {
        return false;
    }
    timers.last_time_saved = now;
    match position {
        Some(pos) => {
            mediainfo.chapters[app.current_chapter_index].update_last_position(pos);
            proof {
                if old(mediainfo).wf() {
                    lemma_replace_keeps_wf(
                        *old(mediainfo),
                        *mediainfo,
                        app.current_chapter_index as int,
                    );
                }
            }
            true
        },
        None => {
            app.say("Couldn't get the position");
            false
        },
    }
}

/// Tells how a save of the library ended; `failure` holds the error of a
/// save that failed.
pub fn save_finished(app: &mut App, failure: Option<String>)
    ensures
        final(app).msgs@ == match failure {
            None => said(old(app).msgs@, "Saved the file"@),
            Some(error) => said(
                said(old(app).msgs@, "Failed to save the file with err "@ + error@),
                error@,
            ),
        },
        *final(app) == (App { msgs: final(app).msgs, ..*old(app) }),
{
    match failure {
        None => {
            app.say("Saved the file");
        },
        Some(error) => {
            let mut text = String::from_str("Failed to save the file with err ");
            text.append(error.as_str());
            app.msgs.push(text);
            app.msgs.push(error);
        },
    }
}

/// Decides, once per tick, whether the percentages of the playlist are to
/// be made anew: they are where that is due and the engine can tell its
/// position, which becomes the last position of the chosen chapter.
pub fn refresh_percentages(
    app: &mut App,
    mediainfo: &mut MediaInfo,
    timers: &mut Timers,
    now: u64,
    position: Option<u64>,
)
    requires
        old(app).in_step(old(mediainfo)),
    ensures
        old(mediainfo).wf() ==> final(mediainfo).wf(),
        *final(mediainfo) == (MediaInfo { chapters: final(mediainfo).chapters, ..*old(mediainfo) }),
        ({
            let due = is_due_spec(old(timers).last_time_percentage_updated, now, PERCENTAGE_PERIOD);
            if due && position is Some {
                &&& final(mediainfo).chapters@ == positioned(
                    old(mediainfo).chapters@,
                    old(app).current_chapter_index as int,
                    position->0,
                )
                &&& *final(timers) == (Timers { last_time_percentage_updated: now, ..*old(timers) })
                &&& *final(app) == (App {
                    cache: Cache { pl_percentages: None, ..old(app).cache },
                    ..*old(app)
                })
            } else {
                &&& *final(mediainfo) == *old(mediainfo)
                &&& *final(timers) == *old(timers)
                &&& final(app).msgs@ == if due {
                    said(old(app).msgs@, "Couldn't get the position"@)
                } else {
                    old(app).msgs@
                }
                &&& *final(app) == (App { msgs: final(app).msgs, ..*old(app) })
            }
        }),
{
    if !is_due(timers.last_time_percentage_updated, now, PERCENTAGE_PERIOD) {
        return ;
    }
    match position {
        Some(pos) => {
            mediainfo.chapters[app.current_chapter_index].update_last_position(pos);
            proof {
                if old(mediainfo).wf() {
                    lemma_replace_keeps_wf(
                        *old(mediainfo),
                        *mediainfo,
                        app.current_chapter_index as int,
                    );
                }
            }
        },
        None => {
            app.say("Couldn't get the position");
            return ;
        },
    }
    timers.last_time_percentage_updated = now;
    app.cache.pl_percentages = None;
}

} // verus!
