use gadacz::data::chapter::{formatted_time, Chapter, Tags};
use gadacz::data::make_uri;

fn tags(title: Option<&str>, track_number: Option<u32>) -> Tags {
    Tags {
        title: title.map(|t| t.to_string()),
        album: Some("Album".to_string()),
        artist: Some("Artist".to_string()),
        description: Some("About".to_string()),
        track_number,
        track_count: Some(12),
    }
}

#[test]
fn whole_file_chapter_is_fresh() {
    let chapter = Chapter::new("one.mp3".to_string(), None, 3661);
    assert_eq!(chapter.filename, "one.mp3");
    assert_eq!(chapter.start_position, None);
    assert_eq!(chapter.length, 3661);
    assert_eq!(chapter.length_display, "1h1m1s");
    assert!(chapter.bookmarks.is_empty());
    assert_eq!(chapter.last_position, 0);
    assert_eq!(chapter.m4_title, None);
    assert_eq!(chapter.m4_tracknumber, None);
    assert_eq!(chapter.description, None);
    assert_eq!(chapter.title, None);
    assert_eq!(chapter.album, None);
    assert_eq!(chapter.artist, None);
    assert_eq!(chapter.tracknumber, None);
    assert_eq!(chapter.trackcount, None);
    assert_eq!(chapter.desc_from_file, None);
    assert_eq!(chapter.z_position, None);
    assert_eq!(chapter.before_jump_position, None);
    assert_eq!(chapter.get_start_position(), 0);
}

#[test]
fn container_track_chapter() {
    let chapter = Chapter::from_m4(
        "book.m4b".to_string(),
        Some("Part two".to_string()),
        Some(120),
        Some(1),
        Some(180),
    );
    assert_eq!(chapter.filename, "book.m4b");
    assert_eq!(chapter.start_position, Some(120));
    assert_eq!(chapter.get_start_position(), 120);
    assert_eq!(chapter.length, 180);
    assert_eq!(chapter.length_display, "3m0s");
    assert_eq!(chapter.m4_title.as_deref(), Some("Part two"));
    assert_eq!(chapter.m4_tracknumber, Some(1));
    assert_eq!(chapter.get_track_number(), 1);
    assert!(chapter.bookmarks.is_empty());
    assert_eq!(chapter.last_position, 0);
}

#[test]
fn container_track_without_length_has_none() {
    let chapter = Chapter::from_m4("book.m4b".to_string(), None, Some(5), Some(0), None);
    assert_eq!(chapter.length, 0);
    assert_eq!(chapter.length_display, formatted_time(0));
    assert_eq!(chapter.length_display, "0s");
}

#[test]
fn formatted_length_is_the_form_of_the_length() {
    let chapter = Chapter::new("a.ogg".to_string(), None, 8217);
    assert_eq!(chapter.formatted_length(), "2h16m57s");
    assert_eq!(chapter.formatted_length(), chapter.length_display);
    assert_eq!(formatted_time(59), "59s");
    assert_eq!(formatted_time(60), "1m0s");
}

#[test]
fn title_comes_from_the_container_then_the_tags_then_the_file() {
    let mut chapter = Chapter::new("file.mp3".to_string(), None, 10);
    assert_eq!(chapter.get_title_or_filename(), "file.mp3");
    assert_eq!(chapter.get_name(), "file.mp3");
    chapter.get_info_from_tags(tags(Some("Probed"), Some(3)));
    assert_eq!(chapter.get_title_or_filename(), "Probed");
    assert_eq!(chapter.get_name(), "Probed");
    chapter.m4_title = Some("Container".to_string());
    assert_eq!(chapter.get_title_or_filename(), "Container");
    assert_eq!(chapter.get_name(), "Container");
}

#[test]
fn tags_fill_the_descriptive_fields_only() {
    let mut chapter = Chapter::from_m4(
        "book.m4a".to_string(),
        Some("Track".to_string()),
        Some(30),
        Some(4),
        Some(60),
    );
    chapter.add_bookmark("here".to_string(), 45);
    chapter.update_last_position(50);
    chapter.description = Some("mine".to_string());
    chapter.get_info_from_tags(tags(Some("Book"), Some(7)));
    assert_eq!(chapter.title.as_deref(), Some("Book"));
    assert_eq!(chapter.album.as_deref(), Some("Album"));
    assert_eq!(chapter.artist.as_deref(), Some("Artist"));
    assert_eq!(chapter.desc_from_file.as_deref(), Some("About"));
    assert_eq!(chapter.tracknumber, Some(7));
    assert_eq!(chapter.trackcount, Some(12));
    assert_eq!(chapter.m4_title.as_deref(), Some("Track"));
    assert_eq!(chapter.m4_tracknumber, Some(4));
    assert_eq!(chapter.description.as_deref(), Some("mine"));
    assert_eq!(chapter.bookmarks.len(), 1);
    assert_eq!(chapter.last_position, 50);
    assert_eq!(chapter.start_position, Some(30));
    assert_eq!(chapter.length, 60);
    assert_eq!(chapter.get_track_number(), 4);
    chapter.get_info_from_tags(Tags::none());
    assert_eq!(chapter.title, None);
    assert_eq!(chapter.tracknumber, None);
    assert_eq!(chapter.m4_tracknumber, Some(4));
}

#[test]
fn track_number_falls_back_to_the_probed_one() {
    let mut chapter = Chapter::new("a.mp3".to_string(), None, 1);
    chapter.get_info_from_tags(tags(None, Some(9)));
    assert_eq!(chapter.get_track_number(), 9);
}

#[test]
fn bookmark_text_shows_the_offset_in_the_chapter() {
    let mut chapter = Chapter::from_m4("b.m4b".to_string(), None, Some(3600), Some(2), Some(600));
    chapter.add_bookmark("mark".to_string(), 3725);
    assert_eq!(chapter.bookmarks.len(), 1);
    assert_eq!(chapter.bookmarks[0].position, 3725);
    assert_eq!(chapter.bookmarks[0].name, "mark");
    assert_eq!(chapter.bookmarks[0].formatted_position, "\"mark\" at 2m5s(1h2m5s)");

    let mut whole = Chapter::new("w.mp3".to_string(), None, 600);
    whole.add_bookmark("mark".to_string(), 125);
    assert_eq!(whole.bookmarks[0].formatted_position, "\"mark\" at 2m5s");
}

#[test]
fn bookmarks_keep_the_order_in_which_they_were_added() {
    let mut chapter = Chapter::new("w.mp3".to_string(), None, 600);
    chapter.add_bookmark("a".to_string(), 30);
    chapter.add_bookmark("b".to_string(), 10);
    chapter.add_bookmark("c".to_string(), 20);
    let names: Vec<&str> = chapter.bookmarks.iter().map(|b| b.name.as_str()).collect();
    assert_eq!(names, vec!["a", "b", "c"]);
}

#[test]
fn deleting_a_bookmark_puts_the_last_in_its_place() {
    let mut chapter = Chapter::new("w.mp3".to_string(), None, 600);
    for (name, position) in [("a", 1), ("b", 2), ("c", 3), ("d", 4)] {
        chapter.add_bookmark(name.to_string(), position);
    }
    let deleted = chapter.delete_bookmark(1);
    assert_eq!(deleted.name, "b");
    assert_eq!(deleted.position, 2);
    let names: Vec<&str> = chapter.bookmarks.iter().map(|b| b.name.as_str()).collect();
    assert_eq!(names, vec!["a", "d", "c"]);
    let deleted = chapter.delete_bookmark(2);
    assert_eq!(deleted.name, "c");
    let names: Vec<&str> = chapter.bookmarks.iter().map(|b| b.name.as_str()).collect();
    assert_eq!(names, vec!["a", "d"]);
}

#[test]
fn positions_are_recorded() {
    let mut chapter = Chapter::new("w.mp3".to_string(), None, 600);
    chapter.update_last_position(77);
    assert_eq!(chapter.last_position, 77);
    chapter.update_saved_position(Some(5));
    assert_eq!(chapter.z_position, Some(5));
    chapter.update_saved_position(None);
    assert_eq!(chapter.z_position, None);
    assert_eq!(chapter.last_position, 77);
}

#[test]
fn tags_are_copied_whole() {
    let first = tags(Some("T"), Some(2));
    let copy = first.duplicate();
    assert_eq!(copy.title, first.title);
    assert_eq!(copy.album, first.album);
    assert_eq!(copy.artist, first.artist);
    assert_eq!(copy.description, first.description);
    assert_eq!(copy.track_number, first.track_number);
    assert_eq!(copy.track_count, first.track_count);
}

#[test]
fn uri_of_a_path() {
    assert_eq!(make_uri("/home/me/books/one.mp3"), "file:///home/me/books/one.mp3");
    assert_eq!(make_uri(""), "file://");
}
