use gadacz::data::bookmarks::Bookmark;

#[test]
fn bookmarks_formatted_display0() {
    let data = Bookmark::new(1, None, "bk".to_string());
    let actual = data.formatted_position;
    let expected = "\"bk\" at 1s";
    assert_eq!(actual, expected);
}

#[test]
fn bookmarks_formatted_display1() {
    let data = Bookmark::new(61, None, "bk".to_string());
    let actual = data.formatted_position;
    let expected = "\"bk\" at 1m1s";

    assert_eq!(actual, expected);
}

#[test]
fn bookmarks_formatted_display2() {
    let data = Bookmark::new(3600, None, "bk".to_string());
    let actual = data.formatted_position;
    let expected = "\"bk\" at 1h0m0s";

    assert_eq!(actual, expected);
}

#[test]
fn bookmarks_formatted_display3() {
    let data = Bookmark::new(3661, None, "bk".to_string());
    let actual = data.formatted_position;
    let expected = "\"bk\" at 1h1m1s";
    assert_eq!(actual, expected);
}

#[test]
fn bookmarks_formatted_display4() {
    let data = Bookmark::new(8217, None, "bk".to_string());
    let actual = data.formatted_position;
    let expected = "\"bk\" at 2h16m57s";
    assert_eq!(actual, expected);
}

#[test]
fn bookmarks_formatted_display5() {
    let data = Bookmark::new(8217, Some(0), "bk".to_string());
    let actual = data.formatted_position;
    let expected = "\"bk\" at 2h16m57s(2h16m57s)";
    assert_eq!(actual, expected);
}

#[test]
fn bookmarks_formatted_display6() {
    let data = Bookmark::new(0, None, "bk".to_string());
    let actual = data.formatted_position;
    let expected = "\"bk\" at 0s";
    assert_eq!(actual, expected);
}

#[test]
fn renaming_keeps_the_position_and_the_time() {
    let mut bookmark = Bookmark::new(3725, Some(3600), "first try".to_string());
    assert_eq!(bookmark.formatted_position, "\"first try\" at 2m5s(1h2m5s)");
    bookmark.change_name("żółw at sea".to_string());
    assert_eq!(bookmark.position, 3725);
    assert_eq!(bookmark.name, "żółw at sea");
    assert_eq!(bookmark.formatted_position, "\"żółw at sea\" at 2m5s(1h2m5s)");
    bookmark.change_name(String::new());
    assert_eq!(bookmark.position, 3725);
    assert_eq!(bookmark.formatted_position, "\"\" at 2m5s(1h2m5s)");
}

#[test]
fn renaming_a_bookmark_with_a_short_text() {
    let mut bookmark = Bookmark {
        position: 7,
        name: "long name".to_string(),
        formatted_position: "x".to_string(),
    };
    bookmark.change_name("n".to_string());
    assert_eq!(bookmark.position, 7);
    assert_eq!(bookmark.formatted_position, "\"n\" at ");
}
