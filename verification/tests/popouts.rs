use gadacz::actions::{App, Command, Playback};
use gadacz::data::chapter::Chapter;
use gadacz::data::mediainfo::MediaInfo;
use gadacz::popouts::{
    all_bookmark_labels, all_bookmarks, cancel_menu, choose_from_all, close_all_bookmarks,
    close_bookmarks, confirm_key, delete_bookmark, help_split, menu_step, open_all_bookmarks,
    open_bookmarks, open_help, open_prompt, rename_bookmark, start_index, Entered, Input, Key,
    MenuStep, Opened,
};

fn key(c: char) -> Key {
    Key::Char { c, control: false }
}

fn typed(input: &Input) -> String {
    input.text.iter().collect()
}

fn library() -> MediaInfo {
    let mut first = Chapter::new("a.mp3".to_string(), None, 60);
    first.tracknumber = Some(1);
    first.add_bookmark("x".to_string(), 1);
    first.add_bookmark("y".to_string(), 2);
    first.add_bookmark("z".to_string(), 3);
    let second = Chapter::new("b.mp3".to_string(), None, 60);
    let mut third = Chapter::from_m4("c.m4b".to_string(), Some("See".to_string()), Some(10), Some(7), Some(50));
    third.add_bookmark("w".to_string(), 20);
    let chapters = vec![first, second, third];
    MediaInfo {
        chaptercount: 3,
        path: "/dir".to_string(),
        speed: 100,
        volume: 50,
        last_chapter: 0,
        chapters,
    }
}

fn said(app: &App) -> Vec<String> {
    let mut all: Vec<String> = app.msgs.history.clone();
    all.extend(app.msgs.current.clone());
    all.extend(app.msgs.queue.iter().cloned());
    all
}

#[test]
fn typing_into_a_prompt() {
    let mut input = Input::new(None);
    assert_eq!(typed(&input), "");
    assert_eq!(input.on_key(Key::Backspace), Entered::Going);
    assert_eq!(typed(&input), "");
    for c in "ab c".chars() {
        assert_eq!(input.on_key(key(c)), Entered::Going);
    }
    assert_eq!(typed(&input), "ab c");
    assert_eq!(input.on_key(key('w')), Entered::Going);
    assert_eq!(input.on_key(Key::Char { c: 'x', control: true }), Entered::Going);
    assert_eq!(typed(&input), "ab cwx");
    assert_eq!(input.on_key(Key::Backspace), Entered::Going);
    assert_eq!(typed(&input), "ab cw");
    assert_eq!(input.on_key(Key::Up), Entered::Going);
    assert_eq!(input.on_key(Key::Other), Entered::Going);
    assert_eq!(typed(&input), "ab cw");
    assert_eq!(input.on_key(Key::Enter), Entered::Done);
    assert_eq!(typed(&input), "ab cw");
    assert_eq!(input.on_key(Key::Esc), Entered::Cancelled);
}

#[test]
fn deleting_the_last_word_of_a_prompt() {
    let word = Key::Char { c: 'w', control: true };
    let start = "one two  three".to_string();
    let mut input = Input::new(Some(&start));
    assert_eq!(typed(&input), "one two  three");
    input.on_key(word);
    assert_eq!(typed(&input), "one two ");
    input.on_key(word);
    assert_eq!(typed(&input), "one two");
    input.on_key(word);
    assert_eq!(typed(&input), "one");
    input.on_key(word);
    assert_eq!(typed(&input), "");
    input.on_key(word);
    assert_eq!(typed(&input), "");
}

#[test]
fn answers_to_a_question() {
    assert_eq!(confirm_key(key('y')), Some(true));
    assert_eq!(confirm_key(key('n')), Some(false));
    assert_eq!(confirm_key(key('q')), Some(false));
    assert_eq!(confirm_key(Key::Esc), Some(false));
    assert_eq!(confirm_key(key('Y')), None);
    assert_eq!(confirm_key(Key::Enter), None);
    assert_eq!(confirm_key(Key::Other), None);
}

#[test]
fn the_row_chosen_when_a_menu_opens() {
    assert_eq!(start_index(None, 5), 0);
    assert_eq!(start_index(Some(3), 5), 3);
    assert_eq!(start_index(Some(5), 5), 4);
    assert_eq!(start_index(Some(9), 5), 4);
    assert_eq!(start_index(Some(2), 0), 0);
}

#[test]
fn keys_of_a_menu() {
    assert_eq!(menu_step(Key::Esc, 1, 3, true), MenuStep::Cancel);
    assert_eq!(menu_step(key('q'), 1, 3, true), MenuStep::Cancel);
    assert_eq!(menu_step(Key::Enter, 1, 3, true), MenuStep::Choose);
    assert_eq!(menu_step(Key::Up, 1, 3, true), MenuStep::Move(0));
    assert_eq!(menu_step(key('k'), 0, 3, true), MenuStep::Move(0));
    assert_eq!(menu_step(Key::Down, 1, 3, true), MenuStep::Move(2));
    assert_eq!(menu_step(key('j'), 2, 3, true), MenuStep::Move(2));
    assert_eq!(menu_step(key('j'), 7, 3, true), MenuStep::Move(2));
    assert_eq!(menu_step(key('j'), usize::MAX, 3, true), MenuStep::Move(2));
    assert_eq!(menu_step(key('e'), 1, 3, true), MenuStep::Rename);
    assert_eq!(menu_step(key('d'), 1, 3, true), MenuStep::Delete);
    assert_eq!(menu_step(key('e'), 1, 3, false), MenuStep::Ignore);
    assert_eq!(menu_step(key('d'), 1, 3, false), MenuStep::Ignore);
    assert_eq!(menu_step(key('x'), 1, 3, true), MenuStep::Ignore);
    assert_eq!(menu_step(Key::Backspace, 1, 3, true), MenuStep::Ignore);
}

#[test]
fn opening_a_prompt_and_the_help() {
    let mut app = App::new(0);
    app.msgs.current = Some("old".to_string());
    open_prompt(&mut app, 9);
    assert_eq!(app.msgs.current.as_deref(), Some("Press Escape to cancel"));
    assert_eq!(app.msgs.history, vec!["old"]);
    assert_eq!(app.msgs.last_time, 9);
    app.playback = Playback::Playing;
    assert_eq!(open_help(&mut app, 12), vec![Command::Pause]);
    assert_eq!(app.playback, Playback::Paused);
    assert_eq!(app.msgs.last_time, 12);
    assert_eq!(help_split(27), 13);
    assert_eq!(help_split(0), 0);
}

#[test]
fn the_menu_of_a_chapter_without_bookmarks_does_not_open() {
    let mut mediainfo = library();
    let mut app = App::new(0);
    app.current_chapter_index = 1;
    app.playback = Playback::Playing;
    let mut commands = Vec::new();
    assert_eq!(open_bookmarks(&mut app, &mut mediainfo, 1, Some(5), &mut commands), None);
    assert!(commands.is_empty());
    assert_eq!(app.playback, Playback::Playing);
    assert_eq!(mediainfo.chapters[1].before_jump_position, None);
    assert_eq!(said(&app), vec!["This chapter doesn't have any bookmarks"]);
}

#[test]
fn the_menu_of_the_bookmarks_of_a_chapter() {
    let mut mediainfo = library();
    let mut app = App::new(0);
    app.playback = Playback::Playing;
    app.index_bookmark = Some(7);
    let mut commands = Vec::new();
    let opened = open_bookmarks(&mut app, &mut mediainfo, 1, Some(5), &mut commands);
    assert_eq!(opened, Some(Opened { index: 2, was_playing: true }));
    assert_eq!(commands, vec![Command::Pause]);
    assert_eq!(app.playback, Playback::Paused);
    assert_eq!(mediainfo.chapters[0].before_jump_position, Some(5));
    assert!(app.msgs.current.as_deref().unwrap().starts_with("Press Enter to chose a bookmark."));
    cancel_menu(&mut app);
    assert_eq!(said(&app).last().map(|s| s.as_str()), Some("Canceled choosing a bookmark"));
    let commands = close_bookmarks(&mut app, opened.unwrap(), 1);
    assert_eq!(commands, vec![Command::Play]);
    assert_eq!(app.playback, Playback::Playing);
    assert_eq!(app.index_bookmark, Some(1));

    let mut commands = Vec::new();
    let opened = open_bookmarks(&mut app, &mut mediainfo, 2, None, &mut commands).unwrap();
    assert_eq!(opened.index, 1);
    assert_eq!(mediainfo.chapters[0].before_jump_position, Some(5));
    app.playback = Playback::Paused;
    let closed = close_bookmarks(&mut app, Opened { index: 0, was_playing: false }, 0);
    assert!(closed.is_empty());
    assert_eq!(app.playback, Playback::Paused);
}

#[test]
fn renaming_a_bookmark_in_the_menu() {
    let mut mediainfo = library();
    let mut app = App::new(0);
    app.cache.bookmark_panels(&mediainfo.chapters[0], 5);
    rename_bookmark(&mut app, &mut mediainfo, 1, None);
    assert_eq!(mediainfo.chapters[0].bookmarks[1].name, "y");
    assert!(app.cache.bk_list0.is_none());
    assert!(said(&app).is_empty());
    app.cache.bookmark_panels(&mediainfo.chapters[0], 5);
    rename_bookmark(&mut app, &mut mediainfo, 1, Some("why not".to_string()));
    let bookmark = &mediainfo.chapters[0].bookmarks[1];
    assert_eq!(bookmark.name, "why not");
    assert_eq!(bookmark.position, 2);
    assert_eq!(bookmark.formatted_position, "\"why not\" at 2s");
    assert_eq!(mediainfo.chapters[0].bookmarks[0].formatted_position, "\"x\" at 1s");
    assert_eq!(mediainfo.chapters[0].bookmarks.len(), 3);
    assert!(app.cache.bk_list0.is_none());
    assert_eq!(said(&app), vec!["Changed name from y to why not"]);
}

#[test]
fn deleting_a_bookmark_in_the_menu() {
    let mut mediainfo = library();
    let mut app = App::new(0);
    app.cache.bookmark_panels(&mediainfo.chapters[0], 5);
    delete_bookmark(&mut app, &mut mediainfo, 0);
    let left: Vec<&str> = mediainfo.chapters[0].bookmarks.iter().map(|b| b.name.as_str()).collect();
    assert_eq!(left, vec!["z", "y"]);
    assert!(app.cache.bk_list0.is_none());
    assert!(app.cache.pl_bks_count.is_none());
    assert_eq!(said(&app), vec!["Deleted bookmark: \"x\" at 1s"]);
}

#[test]
fn the_menu_of_all_bookmarks() {
    let mediainfo = library();
    let entries = all_bookmarks(&mediainfo);
    assert_eq!(entries, vec![(0, 0), (0, 1), (0, 2), (2, 0)]);
    let labels = all_bookmark_labels(&mediainfo, &entries);
    assert_eq!(
        labels,
        vec![
            "\"x\" at 1s | chapter name: a.mp3 | chapter number: 1",
            "\"y\" at 2s | chapter name: a.mp3 | chapter number: 1",
            "\"z\" at 3s | chapter name: a.mp3 | chapter number: 1",
            "\"w\" at 10s(20s) | chapter name: See | chapter number: 7",
        ]
    );
    let mut empty = library();
    for chapter in empty.chapters.iter_mut() {
        chapter.bookmarks.clear();
    }
    assert!(all_bookmarks(&empty).is_empty());

    let mut app = App::new(0);
    app.playback = Playback::Playing;
    let mut commands = Vec::new();
    assert_eq!(open_all_bookmarks(&mut app, 0, 3, &mut commands), None);
    assert!(commands.is_empty());
    assert_eq!(said(&app), vec!["None of the chapter have any bookmarks"]);
    app.index_all_bookmark = Some(4);
    let opened = open_all_bookmarks(&mut app, entries.len(), 4, &mut commands);
    assert_eq!(opened, Some(Opened { index: 3, was_playing: true }));
    assert_eq!(commands, vec![Command::Pause]);
    assert_eq!(
        app.msgs.current.as_deref(),
        Some("Press Enter to chose a bookmark. Press jk to move up and down. Press Escape to cancel.")
    );
    let commands = close_all_bookmarks(&mut app, opened.unwrap(), 2);
    assert_eq!(commands, vec![Command::Play]);
    assert_eq!(app.index_all_bookmark, Some(2));
}

#[test]
fn choosing_among_all_bookmarks_keeps_the_way_back() {
    let mut mediainfo = library();
    let mut app = App::new(0);
    let commands = choose_from_all(&mut app, &mut mediainfo, 2, 0, 33);
    assert_eq!(
        commands,
        vec![Command::Load { chapter: 2, position: 10 }, Command::Seek { position: 20 }]
    );
    assert_eq!(app.pos_and_chap_before_jump, Some((33, 0)));
    assert_eq!(app.current_chapter_index, 2);
    assert_eq!(mediainfo.chapters[0].before_jump_position, None);
    assert_eq!(mediainfo.chapters[2].before_jump_position, None);
    let commands = choose_from_all(&mut app, &mut mediainfo, 2, 0, 44);
    assert_eq!(
        commands,
        vec![Command::Load { chapter: 2, position: 10 }, Command::Seek { position: 20 }]
    );
    assert_eq!(app.pos_and_chap_before_jump, Some((44, 2)));
    assert_eq!(mediainfo.chapters[2].before_jump_position, Some(44));
}
