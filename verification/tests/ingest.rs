use gadacz::data::chapter::{Chapter, Tags};
use gadacz::data::mediainfo::{files_fit, scan_chapters, MediaInfo, ProbedFile};
use gadacz::data::scan::{
    file_kind, has_snapshot, missing_files_message, no_extension_message, scan_dir,
    snapshot_name, Entry, Error, FileKind,
};
use gadacz::data::tracks::{handle_m4, markers_fit, Marker};
use gadacz::data::order::{comes_before, sort_chapters, text_before};

fn file(name: &str) -> Entry {
    Entry::File(name.to_string())
}

fn marker(title: &str, secs: u64, nanos: u32) -> Marker {
    Marker { title: title.to_string(), start_secs: secs, start_nanos: nanos }
}

fn probed(name: &str, duration: u64) -> ProbedFile {
    ProbedFile { filename: name.to_string(), duration, tags: Tags::none(), markers: Vec::new() }
}

fn tagged(name: &str, duration: u64, title: Option<&str>, number: Option<u32>) -> ProbedFile {
    let mut file = probed(name, duration);
    file.tags.title = title.map(|t| t.to_string());
    file.tags.track_number = number;
    file
}

fn names(chapters: &[Chapter]) -> Vec<String> {
    chapters.iter().map(|c| c.filename.clone()).collect()
}

fn titles(chapters: &[Chapter]) -> Vec<String> {
    chapters.iter().map(|c| c.get_name().to_string()).collect()
}

fn snapshot(chapters: Vec<Chapter>) -> MediaInfo {
    MediaInfo {
        chaptercount: 0,
        path: String::new(),
        speed: 150,
        volume: 80,
        last_chapter: 0,
        chapters,
    }
}

#[test]
fn kinds_of_files() {
    for name in ["a.flac", "a.mp3", "a.mp4", "a.ogg", "a.opus", "a.wav", "x.y.mp3", ".a.mp3"] {
        assert_eq!(file_kind(name), FileKind::Plain, "{}", name);
    }
    for name in ["a.m4a", "a.m4b", "żółć.m4b"] {
        assert_eq!(file_kind(name), FileKind::Container, "{}", name);
    }
    for name in ["a.txt", "a.MP3", "a.mp3 ", "gadacz_data.json", "a.", "a.m4", "a.mp33", "a.flac.bak"] {
        assert_eq!(file_kind(name), FileKind::Unsupported, "{}", name);
    }
    for name in ["README", "", ".hidden", ".mp3", "mp3"] {
        assert_eq!(file_kind(name), FileKind::NoExtension, "{}", name);
    }
}

#[test]
fn scan_keeps_the_playable_files_in_order() {
    let entries = vec![
        file("b.mp3"),
        file("notes.txt"),
        file("a.m4b"),
        file("gadacz_data.json"),
        file("c.opus"),
    ];
    match scan_dir(&entries) {
        Ok(content) => assert_eq!(content, vec!["b.mp3", "a.m4b", "c.opus"]),
        Err(error) => panic!("{:?}", error),
    }
    match scan_dir(&Vec::new()) {
        Ok(content) => assert!(content.is_empty()),
        Err(error) => panic!("{:?}", error),
    }
}

#[test]
fn scan_fails_on_a_file_without_extension() {
    let entries = vec![file("a.mp3"), file("LICENSE"), file("other")];
    match scan_dir(&entries) {
        Err(Error::NoExtension(name)) => assert_eq!(name, "LICENSE"),
        other => panic!("{:?}", other),
    }
}

#[test]
fn scan_hands_on_the_first_failure() {
    let entries = vec![
        file("a.mp3"),
        Entry::Failed("permission denied".to_string()),
        file("LICENSE"),
    ];
    match scan_dir(&entries) {
        Err(Error::FromIo(message)) => assert_eq!(message, "permission denied"),
        other => panic!("{:?}", other),
    }
    let entries = vec![file("LICENSE"), Entry::Failed("permission denied".to_string())];
    match scan_dir(&entries) {
        Err(Error::NoExtension(name)) => assert_eq!(name, "LICENSE"),
        other => panic!("{:?}", other),
    }
}

#[test]
fn splitting_a_container_with_two_markers() {
    let markers = vec![marker("A", 0, 0), marker("B", 120, 0)];
    assert!(markers_fit(&markers, 300));
    let chapters = handle_m4(&"book.m4b".to_string(), &markers, 300);
    assert_eq!(chapters.len(), 2);
    assert_eq!(chapters[0].m4_title.as_deref(), Some("A"));
    assert_eq!(chapters[0].start_position, Some(0));
    assert_eq!(chapters[0].length, 120);
    assert_eq!(chapters[0].length_display, "2m0s");
    assert_eq!(chapters[0].m4_tracknumber, Some(0));
    assert_eq!(chapters[0].filename, "book.m4b");
    assert_eq!(chapters[1].m4_title.as_deref(), Some("B"));
    assert_eq!(chapters[1].start_position, Some(120));
    assert_eq!(chapters[1].length, 180);
    assert_eq!(chapters[1].length_display, "3m0s");
    assert_eq!(chapters[1].m4_tracknumber, Some(1));
    assert_eq!(chapters[1].filename, "book.m4b");
    for chapter in &chapters {
        assert!(chapter.bookmarks.is_empty());
        assert_eq!(chapter.last_position, 0);
        assert_eq!(chapter.title, None);
    }
}

#[test]
fn a_container_without_markers_is_one_chapter() {
    let chapters = handle_m4(&"book.m4a".to_string(), &Vec::new(), 300);
    assert_eq!(chapters.len(), 1);
    assert_eq!(chapters[0].filename, "book.m4a");
    assert_eq!(chapters[0].start_position, None);
    assert_eq!(chapters[0].length, 300);
    assert_eq!(chapters[0].m4_title, None);
    assert_eq!(chapters[0].m4_tracknumber, None);
}

#[test]
fn repeated_markers_are_taken_out_first() {
    let markers = vec![
        marker("A", 0, 0),
        marker("A", 0, 0),
        marker("B", 60, 0),
        marker("A", 0, 0),
        marker("B", 60, 0),
        marker("B", 90, 0),
        marker("C", 90, 0),
    ];
    assert!(markers_fit(&markers, 100));
    let chapters = handle_m4(&"book.m4b".to_string(), &markers, 100);
    let got: Vec<(Option<&str>, Option<u64>, u64, Option<u32>)> = chapters
        .iter()
        .map(|c| (c.m4_title.as_deref(), c.start_position, c.length, c.m4_tracknumber))
        .collect();
    assert_eq!(
        got,
        vec![
            (Some("A"), Some(0), 60, Some(0)),
            (Some("B"), Some(60), 30, Some(1)),
            (Some("B"), Some(90), 0, Some(2)),
            (Some("C"), Some(90), 10, Some(3)),
        ]
    );
}

#[test]
fn marker_starts_are_rounded_up() {
    let markers = vec![marker("A", 0, 1), marker("B", 10, 999_999_999), marker("C", 20, 0)];
    let chapters = handle_m4(&"book.m4b".to_string(), &markers, 30);
    let got: Vec<(Option<u64>, u64)> =
        chapters.iter().map(|c| (c.start_position, c.length)).collect();
    assert_eq!(got, vec![(Some(1), 10), (Some(11), 9), (Some(20), 10)]);
}

#[test]
fn markers_that_do_not_fit_are_told_apart() {
    assert!(markers_fit(&Vec::new(), 0));
    assert!(markers_fit(&vec![marker("A", 5, 0)], 5));
    assert!(!markers_fit(&vec![marker("A", 5, 1)], 5));
    assert!(!markers_fit(&vec![marker("A", 6, 0)], 5));
    assert!(!markers_fit(&vec![marker("A", 10, 0), marker("B", 5, 0)], 20));
    assert!(markers_fit(&vec![marker("A", 10, 0), marker("A", 10, 0)], 20));
    assert!(!markers_fit(&vec![marker("A", u64::MAX, 1)], u64::MAX));
}

#[test]
fn texts_are_compared_as_in_a_dictionary() {
    assert!(text_before("Alpha", "Beta"));
    assert!(!text_before("Beta", "Alpha"));
    assert!(!text_before("same", "same"));
    assert!(text_before("", "a"));
    assert!(!text_before("a", ""));
    assert!(!text_before("", ""));
    assert!(text_before("ab", "abc"));
    assert!(text_before("Z", "a"));
    assert!(text_before("a", "é"));
    assert!(text_before("z", "ż"));
    assert_eq!(text_before("10", "9"), "10" < "9");
    let samples = ["", "a", "ab", "b", "B", "é", "日本", "日", "\u{10FFFF}", "\u{E000}"];
    for x in samples {
        for y in samples {
            assert_eq!(text_before(x, y), x < y, "{:?} {:?}", x, y);
        }
    }
}

fn keyed(filename: &str, title: Option<&str>, number: Option<u32>, ordinal: Option<u32>) -> Chapter {
    let mut chapter = Chapter::new(filename.to_string(), None, 1);
    chapter.title = title.map(|t| t.to_string());
    chapter.tracknumber = number;
    chapter.m4_tracknumber = ordinal;
    chapter
}

#[test]
fn sort_by_filename_without_titles_and_track_numbers() {
    let mut chapters = vec![keyed("Beta", None, None, None), keyed("Alpha", None, None, None)];
    sort_chapters(&mut chapters);
    assert_eq!(names(&chapters), vec!["Alpha", "Beta"]);
}

#[test]
fn sort_by_track_number_first() {
    let mut chapters = vec![
        keyed("a.mp3", Some("A"), Some(2), None),
        keyed("z.mp3", Some("Z"), Some(1), None),
        keyed("m.mp3", Some("M"), Some(10), None),
    ];
    sort_chapters(&mut chapters);
    assert_eq!(names(&chapters), vec!["z.mp3", "a.mp3", "m.mp3"]);
}

#[test]
fn sort_breaks_ties_by_the_container_ordinal() {
    let mut chapters = vec![
        keyed("b.m4b", None, Some(1), Some(2)),
        keyed("b.m4b", None, Some(1), Some(0)),
        keyed("b.m4b", None, Some(1), Some(1)),
        keyed("a.mp3", None, Some(1), None),
    ];
    sort_chapters(&mut chapters);
    let ordinals: Vec<Option<u32>> = chapters.iter().map(|c| c.m4_tracknumber).collect();
    assert_eq!(ordinals, vec![None, Some(0), Some(1), Some(2)]);
}

#[test]
fn sort_by_title_or_filename_without_track_numbers() {
    let mut chapters = vec![
        keyed("1.mp3", Some("Delta"), None, None),
        keyed("Charlie.mp3", None, None, None),
        keyed("3.mp3", Some("Alpha"), None, None),
        keyed("Bravo.mp3", None, None, None),
    ];
    sort_chapters(&mut chapters);
    assert_eq!(names(&chapters), vec!["3.mp3", "Bravo.mp3", "Charlie.mp3", "1.mp3"]);
}

#[test]
fn numbered_chapters_come_before_the_others() {
    let mut chapters = vec![
        keyed("c.mp3", Some("a"), Some(2), None),
        keyed("b.mp3", Some("m"), None, None),
        keyed("a.mp3", Some("z"), Some(1), None),
    ];
    sort_chapters(&mut chapters);
    assert_eq!(names(&chapters), vec!["a.mp3", "c.mp3", "b.mp3"]);
    assert!(comes_before(&chapters[0], &chapters[1]));
    assert!(comes_before(&chapters[1], &chapters[2]));
    assert!(!comes_before(&chapters[2], &chapters[0]));
}

#[test]
fn sort_keeps_the_order_of_equals_and_every_chapter() {
    let mut chapters = Vec::new();
    for (i, number) in [3u32, 1, 2, 1, 3, 2, 1].iter().enumerate() {
        let mut chapter = keyed("same.mp3", None, Some(*number), None);
        chapter.last_position = i as u64;
        chapters.push(chapter);
    }
    sort_chapters(&mut chapters);
    let got: Vec<(u32, u64)> =
        chapters.iter().map(|c| (c.tracknumber.unwrap(), c.last_position)).collect();
    assert_eq!(got, vec![(1, 1), (1, 3), (1, 6), (2, 2), (2, 5), (3, 0), (3, 4)]);
    let mut none: Vec<Chapter> = Vec::new();
    sort_chapters(&mut none);
    assert!(none.is_empty());
}

#[test]
fn chapters_get_the_tags_of_their_files() {
    let mut chapters = vec![
        Chapter::new("a.mp3".to_string(), None, 1),
        Chapter::new("gone.mp3".to_string(), None, 1),
        Chapter::new("b.mp3".to_string(), None, 1),
    ];
    chapters[1].title = Some("kept".to_string());
    let files = vec![
        tagged("b.mp3", 1, Some("Bee"), Some(2)),
        tagged("a.mp3", 1, Some("Ay"), Some(1)),
        tagged("a.mp3", 1, Some("second"), Some(9)),
    ];
    scan_chapters(&mut chapters, &files);
    assert_eq!(chapters[0].title.as_deref(), Some("Ay"));
    assert_eq!(chapters[0].tracknumber, Some(1));
    assert_eq!(chapters[1].title.as_deref(), Some("kept"));
    assert_eq!(chapters[2].title.as_deref(), Some("Bee"));
    assert_eq!(chapters[2].tracknumber, Some(2));
}

#[test]
fn new_library_from_a_directory() {
    let mut container = tagged("book.m4b", 300, Some("Book"), None);
    container.markers = vec![marker("Two", 120, 0), marker("One", 0, 0)];
    container.markers.reverse();
    let files = vec![
        tagged("zeta.mp3", 10, None, None),
        probed("cover.jpg", 0),
        container,
        tagged("alpha.ogg", 20, Some("Omega"), None),
    ];
    let library = match MediaInfo::new("/books/x".to_string(), &files) {
        Ok(library) => library,
        Err(error) => panic!("{:?}", error),
    };
    assert_eq!(library.path, "/books/x");
    assert_eq!(library.speed, 100);
    assert_eq!(library.volume, 50);
    assert_eq!(library.last_chapter, 0);
    assert_eq!(library.chaptercount, 4);
    assert_eq!(library.chapters.len(), 4);
    assert_eq!(titles(&library.chapters), vec!["One", "Two", "Omega", "zeta.mp3"]);
    assert_eq!(names(&library.chapters), vec!["book.m4b", "book.m4b", "alpha.ogg", "zeta.mp3"]);
    assert_eq!(library.chapters[0].title.as_deref(), Some("Book"));
    assert_eq!(library.chapters[1].title.as_deref(), Some("Book"));
    assert_eq!(library.chapters[0].length, 120);
    assert_eq!(library.chapters[1].length, 180);
    assert_eq!(library.chapters[2].length, 20);
    assert_eq!(library.chapters[3].length, 10);
}

#[test]
fn new_library_is_in_track_order() {
    let files = vec![
        tagged("c.mp3", 1, Some("Third"), Some(3)),
        tagged("a.mp3", 1, Some("First"), Some(1)),
        tagged("b.mp3", 1, Some("Second"), Some(2)),
    ];
    let library = MediaInfo::new("p".to_string(), &files).unwrap();
    assert_eq!(titles(&library.chapters), vec!["First", "Second", "Third"]);
}

#[test]
fn new_library_needs_a_file_to_play() {
    match MediaInfo::new("p".to_string(), &Vec::new()) {
        Err(Error::NoValidFiles) => {}
        other => panic!("{:?}", other),
    }
    match MediaInfo::new("p".to_string(), &vec![probed("a.txt", 0), probed("b.json", 0)]) {
        Err(Error::NoValidFiles) => {}
        other => panic!("{:?}", other),
    }
}

#[test]
fn new_library_fails_on_a_file_without_extension() {
    match MediaInfo::new("p".to_string(), &vec![probed("a.mp3", 1), probed("Makefile", 0)]) {
        Err(Error::NoExtension(name)) => assert_eq!(name, "Makefile"),
        other => panic!("{:?}", other),
    }
}

#[test]
fn merge_with_a_missing_file_is_refused() {
    let mut x = Chapter::new("x.mp3".to_string(), None, 100);
    x.add_bookmark("keep".to_string(), 5);
    let y = Chapter::new("y.mp3".to_string(), None, 100);
    let saved = snapshot(vec![x, y]);
    let files = vec![probed("x.mp3", 100), probed("z.mp3", 50)];
    match MediaInfo::from_json(saved, &files) {
        Err(Error::MissingFiles(missing)) => assert_eq!(missing, vec!["y.mp3"]),
        other => panic!("{:?}", other),
    }
}

#[test]
fn merge_reports_every_missing_chapter() {
    let saved = snapshot(vec![
        Chapter::from_m4("gone.m4b".to_string(), None, Some(0), Some(0), Some(5)),
        Chapter::new("x.mp3".to_string(), None, 100),
        Chapter::from_m4("gone.m4b".to_string(), None, Some(5), Some(1), Some(5)),
        Chapter::new("lost.mp3".to_string(), None, 100),
    ]);
    match MediaInfo::from_json(saved, &vec![probed("x.mp3", 100)]) {
        Err(Error::MissingFiles(missing)) => {
            assert_eq!(missing, vec!["gone.m4b", "gone.m4b", "lost.mp3"])
        }
        other => panic!("{:?}", other),
    }
}

#[test]
fn merge_without_a_missing_file_adds_the_new_files() {
    let mut x = Chapter::new("x.mp3".to_string(), None, 100);
    x.add_bookmark("keep".to_string(), 5);
    x.add_bookmark("too".to_string(), 61);
    x.update_last_position(42);
    x.description = Some("note".to_string());
    x.title = Some("stale".to_string());
    let mut saved = snapshot(vec![x]);
    saved.last_chapter = 0;
    let files = vec![tagged("x.mp3", 999, Some("Ex"), None), tagged("z.mp3", 50, None, None)];
    let merged = match MediaInfo::from_json(saved, &files) {
        Ok(merged) => merged,
        Err(error) => panic!("{:?}", error),
    };
    assert_eq!(merged.chapters.len(), 2);
    assert_eq!(merged.chaptercount, 2);
    assert_eq!(merged.speed, 150);
    assert_eq!(merged.volume, 80);
    assert_eq!(merged.last_chapter, 0);
    assert_eq!(names(&merged.chapters), vec!["x.mp3", "z.mp3"]);
    let x = &merged.chapters[0];
    assert_eq!(x.bookmarks.len(), 2);
    assert_eq!(x.bookmarks[0].name, "keep");
    assert_eq!(x.bookmarks[0].position, 5);
    assert_eq!(x.bookmarks[0].formatted_position, "\"keep\" at 5s");
    assert_eq!(x.bookmarks[1].name, "too");
    assert_eq!(x.bookmarks[1].formatted_position, "\"too\" at 1m1s");
    assert_eq!(x.last_position, 42);
    assert_eq!(x.length, 100);
    assert_eq!(x.description.as_deref(), Some("note"));
    assert_eq!(x.title.as_deref(), Some("Ex"));
    let z = &merged.chapters[1];
    assert!(z.bookmarks.is_empty());
    assert_eq!(z.last_position, 0);
    assert_eq!(z.length, 50);
    assert_eq!(z.description, None);
}

#[test]
fn merge_splits_a_new_container_and_sorts_again() {
    let mut old = Chapter::new("b.mp3".to_string(), None, 100);
    old.update_last_position(7);
    let saved = snapshot(vec![old]);
    let mut container = tagged("a.m4b", 20, None, Some(1));
    container.markers = vec![marker("I", 0, 0), marker("II", 10, 0)];
    let files = vec![
        tagged("c.mp3", 5, None, Some(3)),
        tagged("b.mp3", 100, None, Some(2)),
        container,
        probed("notes.txt", 0),
    ];
    let merged = MediaInfo::from_json(saved, &files).unwrap();
    assert_eq!(titles(&merged.chapters), vec!["I", "II", "b.mp3", "c.mp3"]);
    assert_eq!(merged.chapters[2].last_position, 7);
    assert_eq!(merged.chaptercount, 4);
}

#[test]
fn merge_fails_on_a_file_without_extension() {
    let saved = snapshot(vec![Chapter::new("x.mp3".to_string(), None, 100)]);
    match MediaInfo::from_json(saved, &vec![probed("x.mp3", 1), probed("junk", 0)]) {
        Err(Error::NoExtension(name)) => assert_eq!(name, "junk"),
        other => panic!("{:?}", other),
    }
}

#[test]
fn saved_library_or_new_one() {
    let files = vec![probed("x.mp3", 100), probed("z.mp3", 50)];
    let fresh = MediaInfo::from_cache_or_new("/dir".to_string(), None, &files).unwrap();
    assert_eq!(fresh.path, "/dir");
    assert_eq!(fresh.chapters.len(), 2);
    assert_eq!(fresh.speed, 100);

    let mut x = Chapter::new("x.mp3".to_string(), None, 100);
    x.add_bookmark("b".to_string(), 1);
    let merged =
        MediaInfo::from_cache_or_new("/dir".to_string(), Some(snapshot(vec![x])), &files).unwrap();
    assert_eq!(merged.path, "/dir");
    assert_eq!(merged.speed, 150);
    assert_eq!(merged.chapters.len(), 2);
    assert_eq!(merged.chapters[0].bookmarks.len(), 1);

    let gone = snapshot(vec![Chapter::new("gone.mp3".to_string(), None, 1)]);
    match MediaInfo::from_cache_or_new("/dir".to_string(), Some(gone), &files) {
        Err(Error::MissingFiles(missing)) => assert_eq!(missing, vec!["gone.mp3"]),
        other => panic!("{:?}", other),
    }
}

#[test]
fn files_whose_markers_fit() {
    let mut good = probed("a.m4b", 20);
    good.markers = vec![marker("I", 0, 0), marker("II", 10, 0)];
    let mut bad = probed("b.m4b", 20);
    bad.markers = vec![marker("I", 30, 0)];
    let mut plain = probed("c.mp3", 20);
    plain.markers = vec![marker("I", 30, 0)];
    assert!(files_fit(&vec![good, plain], &Vec::new()));
    let mut good = probed("a.m4b", 20);
    good.markers = vec![marker("I", 0, 0)];
    let files = vec![good, bad];
    assert!(!files_fit(&files, &Vec::new()));
    assert!(files_fit(&files, &vec!["b.m4b".to_string()]));
    let saved = snapshot(vec![Chapter::new("b.m4b".to_string(), None, 20)]);
    assert!(saved.check_fit(&files));
    assert!(!snapshot(Vec::new()).check_fit(&files));
    assert_eq!(saved.missing_files(&vec!["a.m4b".to_string()]), vec!["b.m4b"]);
    assert!(saved.missing_files(&vec!["b.m4b".to_string()]).is_empty());
}

#[test]
fn what_the_errors_tell_the_user() {
    assert_eq!(Error::NoExtension("a b".to_string()).message(), "\"a b\" has no extension");
    assert_eq!(
        Error::NoExtension("q\"uote\\\n".to_string()).message(),
        "\"q\\\"uote\\\\\\n\" has no extension"
    );
    assert_eq!(Error::FromIo("permission denied".to_string()).message(), "permission denied");
    assert_eq!(
        Error::MissingFiles(vec!["x.mp3".to_string(), "y z.mp3".to_string()]).message(),
        "[\"x.mp3\", \"y z.mp3\"] those filename exist in the cached json 'gadacz_data.json' \
         file but are not present in the directory"
    );
    assert_eq!(
        Error::MissingFiles(Vec::new()).message(),
        "[] those filename exist in the cached json 'gadacz_data.json' file but are not \
         present in the directory"
    );
    assert_eq!(
        Error::NoValidFiles.message(),
        "Given directory is empty or it has no files with valid extensions."
    );
    assert_eq!(no_extension_message("<name>".to_string()), "<name> has no extension");
    assert_eq!(
        missing_files_message("<names>".to_string()),
        "<names> those filename exist in the cached json 'gadacz_data.json' file but are not \
         present in the directory"
    );
}

#[test]
fn only_missing_files_have_a_remedy() {
    assert_eq!(
        Error::MissingFiles(vec!["x".to_string()]).suggestion(),
        Some(
            "Restore those files or remove/ change files names manully in the gadacz_data.json \
             file"
        )
    );
    assert_eq!(Error::NoExtension("x".to_string()).suggestion(), None);
    assert_eq!(Error::FromIo("x".to_string()).suggestion(), None);
    assert_eq!(Error::NoValidFiles.suggestion(), None);
}

#[test]
fn a_directory_with_a_saved_library() {
    assert_eq!(snapshot_name(), "gadacz_data.json");
    assert!(!has_snapshot(&Vec::new()));
    assert!(!has_snapshot(&vec![file("a.mp3"), file("gadacz_data.jso"), file("xgadacz_data.json")]));
    assert!(!has_snapshot(&vec![Entry::Failed("gadacz_data.json".to_string())]));
    assert!(has_snapshot(&vec![
        file("a.mp3"),
        Entry::Failed("denied".to_string()),
        file("gadacz_data.json")
    ]));
}
