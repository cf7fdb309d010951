//! A bookmark: a named position inside a chapter, with the text shown for it.

use crate::helpers::{format_with_offset_spec, push_time, start_as_nat};
use vstd::prelude::*;
use vstd::string::*;

verus! {

/// A named, saved position inside a chapter.
#[derive(Debug)]
pub struct Bookmark {
    /// position inside the file in seconds
    pub position: u64,
    /// user given name for the bookmark
    pub name: String,
    /// the text shown for the bookmark: its name and its position
    pub formatted_position: String,
}

/// The mathematical content of a bookmark.
pub struct BookmarkView {
    pub position: nat,
    pub name: Seq<char>,
    pub formatted_position: Seq<char>,
}

impl View for Bookmark {
    type V = BookmarkView;

    open spec fn view(&self) -> BookmarkView {
        BookmarkView {
            position: self.position as nat,
            name: self.name@,
            formatted_position: self.formatted_position@,
        }
    }
}

/// What stands in front of the time in a bookmark's text: the name in double
/// quotes and the word `at`.
pub open spec fn label_prefix(name: Seq<char>) -> Seq<char> {
    seq!['"'] + name + seq!['"', ' ', 'a', 't', ' ']
}

/// The text shown for a bookmark called `name` whose position reads `time`.
pub open spec fn bookmark_label(name: Seq<char>, time: Seq<char>) -> Seq<char> {
    label_prefix(name) + time
}

/// What follows the name and the word `at` in a bookmark's text; nothing
/// where the text is too short to hold them.
pub open spec fn time_part(formatted_position: Seq<char>, name: Seq<char>) -> Seq<char> {
    if formatted_position.len() >= name.len() + 6 {
        formatted_position.skip((name.len() + 6) as int)
    } else {
        Seq::empty()
    }
}

/// Starts the text of a bookmark called `name`.
fn start_label(name: &str) -> (text: String)
    ensures
        text@ == label_prefix(name@),
{
    proof {
        reveal_strlit("\"");
        reveal_strlit("\" at ");
    }
    let mut text = String::from_str("\"");
    text.append(name);
    text.append("\" at ");
    assert(text@ =~= label_prefix(name@));
    text
}

/// The text shown for the bookmark `name` at `position` in a chapter that
/// starts at `start_position` of its file.
pub fn format_position(name: &String, position: u64, start_position: Option<u64>) -> (text:
    String)
    requires
        start_position matches Some(start) ==> start <= position,
    ensures
        text@ == bookmark_label(
            name@,
            format_with_offset_spec(position as nat, start_as_nat(start_position)),
        ),
{
    let mut text = start_label(name.as_str());
    match start_position {
        None => {
            push_time(&mut text, position);
        },
        Some(start) => {
            proof {
                reveal_strlit("(");
                reveal_strlit(")");
            }
            push_time(&mut text, position - start);
            text.append("(");
            push_time(&mut text, position);
            text.append(")");
        },
    }
    assert(text@ =~= bookmark_label(
        name@,
        format_with_offset_spec(position as nat, start_as_nat(start_position)),
    ));
    text
}

impl Bookmark {
    /// Whether the bookmark's text is the one of its name and position in a
    /// chapter that starts at `start_position`.
    pub open spec fn formatted_for(&self, start_position: Option<u64>) -> bool {
        &&& start_position matches Some(start) ==> start <= self.position
        &&& self.formatted_position@ == bookmark_label(
            self.name@,
            format_with_offset_spec(self.position as nat, start_as_nat(start_position)),
        )
    }

    /// A bookmark called `name` at `position`, in a chapter that starts at
    /// `start_position` of its file.
    pub fn new(position: u64, start_position: Option<u64>, name: String) -> (bookmark: Self)
        requires
            start_position matches Some(start) ==> start <= position,
        ensures
            bookmark.position == position,
            bookmark.name == name,
            bookmark.formatted_for(start_position),
    {
        let formatted_position = format_position(&name, position, start_position);
        Self { position, name, formatted_position }
    }

    /// Renames the bookmark. The position stays, and the text is made anew
    /// from the new name and the time that the old text showed.
    pub fn change_name(&mut self, new_name: String)
        ensures
            final(self).position == old(self).position,
            final(self).name == new_name,
            final(self).formatted_position@ == bookmark_label(
                new_name@,
                time_part(old(self).formatted_position@, old(self).name@),
            ),
            forall|start_position: Option<u64>|
                old(self).formatted_for(start_position) ==> final(self).formatted_for(
                    start_position,
                ),
    {
        let name_len = self.name.as_str().unicode_len();
        let total = self.formatted_position.as_str().unicode_len();
        let mut text = start_label(new_name.as_str());
        if total >= 6 && name_len <= total - 6 {
            let time = self.formatted_position.as_str().substring_char(name_len + 6, total);
            assert(time@ =~= time_part(old(self).formatted_position@, old(self).name@));
            text.append(time);
        }
        assert(text@ =~= bookmark_label(
            new_name@,
            time_part(old(self).formatted_position@, old(self).name@),
        ));
        self.formatted_position = text;
        self.name = new_name;
        assert forall|start_position: Option<u64>|
            old(self).formatted_for(start_position) implies self.formatted_for(
            start_position,
        ) by {
            let time = format_with_offset_spec(
                old(self).position as nat,
                start_as_nat(start_position),
            );
            assert(bookmark_label(old(self).name@, time).skip((old(self).name@.len() + 6) as int)
                =~= time);
        }
    }
}

} // verus!
