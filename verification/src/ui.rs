//! What the screen shows besides the lists: the two progress bars and the
//! keybindings.

use crate::cache::strs_view;
use vstd::prelude::*;

verus! {

/// The state of the bars and the fixed texts of the screen.
#[derive(Debug)]
pub struct Ui {
    /// how far the chapter was played, in percent
    pub chapter_bar: u16,
    /// the volume, in percent
    pub volume_bar: u16,
    /// text for yes/no prompt
    pub yn_prompt: &'static str,
    pub keybindings_list: Vec<&'static str>,
}

/// The keybindings, as the help shows them.
pub open spec fn keybindings() -> Seq<Seq<char>> {
    seq![
        "? : List all shortcuts"@,
        "= : Increase volume by 5%"@,
        "- : Decrease volume by 5%"@,
        "v : Set arbitrary volume"@,
        "; : Jump to arbitrary position"@,
        "a : Add new bookmark"@,
        "b : Bookmark menu (only this chapter)"@,
        "B : Bookmark menu (all chapters)"@,
        "h : Move 5 seconds backwards"@,
        "j : Move 1 chapter forwards"@,
        "k : Move 1 chapter backwards"@,
        "l : Move 5 seconds forwards"@,
        "p : Toggle pause and play"@,
        "q : Quit"@,
        "r : Reset progress of the chapter"@,
        "s : Increase speed by 0.25"@,
        "S : Decrease speed by 0.25"@,
        "C-s : Set arbitrary speed"@,
        "m : Mark position for a bookmark"@,
        "M : Create bookmark at the marked position"@,
        "d : Set description for the current chapter"@,
        "D : Delete description for the current chapter"@,
        "z : Save position"@,
        "Z : Restore saved position"@,
        "F : Set 100% completion and move to next chapter"@,
        ": : Go to the position before the jump or bookmark(for current chapter) change"@,
        ", : Go to position and chapter before the bookmark(for all chapters) change"@,
    ]
}

/// `value`, or the largest 16-bit number where it is beyond 16 bits.
pub open spec fn capped_u16(value: int) -> u16 {
    if value > u16::MAX {
        u16::MAX
    } else {
        value as u16
    }
}

/// What the chapter bar shows: the part of `length` that lies before
/// `position`, in percent and rounded down. A chapter without length shows
/// nothing before it is played and the largest number after.
pub open spec fn chapter_bar_spec(position: u64, length: u64) -> u16 {
    if length == 0 {
        if position == 0 {
            0
        } else {
            u16::MAX
        }
    } else {
        capped_u16(position * 100 / (length as int))
    }
}

impl Ui {
    /// The screen before anything was played.
    pub fn new() -> (ui: Self)
        ensures
            ui.chapter_bar == 0,
            ui.volume_bar == 50,
            ui.yn_prompt@ == "NONE"@,
            strs_view(ui.keybindings_list@) == keybindings(),
    {
        let mut keybindings_list: Vec<&'static str> = Vec::new();
        keybindings_list.push("? : List all shortcuts");
        keybindings_list.push("= : Increase volume by 5%");
        keybindings_list.push("- : Decrease volume by 5%");
        keybindings_list.push("v : Set arbitrary volume");
        keybindings_list.push("; : Jump to arbitrary position");
        keybindings_list.push("a : Add new bookmark");
        keybindings_list.push("b : Bookmark menu (only this chapter)");
        keybindings_list.push("B : Bookmark menu (all chapters)");
        keybindings_list.push("h : Move 5 seconds backwards");
        keybindings_list.push("j : Move 1 chapter forwards");
        keybindings_list.push("k : Move 1 chapter backwards");
        keybindings_list.push("l : Move 5 seconds forwards");
        keybindings_list.push("p : Toggle pause and play");
        keybindings_list.push("q : Quit");
        keybindings_list.push("r : Reset progress of the chapter");
        keybindings_list.push("s : Increase speed by 0.25");
        keybindings_list.push("S : Decrease speed by 0.25");
        keybindings_list.push("C-s : Set arbitrary speed");
        keybindings_list.push("m : Mark position for a bookmark");
        keybindings_list.push("M : Create bookmark at the marked position");
        keybindings_list.push("d : Set description for the current chapter");
        keybindings_list.push("D : Delete description for the current chapter");
        keybindings_list.push("z : Save position");
        keybindings_list.push("Z : Restore saved position");
        keybindings_list.push("F : Set 100% completion and move to next chapter");
        keybindings_list.push(
            ": : Go to the position before the jump or bookmark(for current chapter) change",
        );
        keybindings_list.push(
            ", : Go to position and chapter before the bookmark(for all chapters) change",
        );
        assert(strs_view(keybindings_list@) =~= keybindings());
        Self { chapter_bar: 0, volume_bar: 50, yn_prompt: "NONE", keybindings_list }
    }

    /// Sets the bars for a volume in percent and a position in a chapter of
    /// the given length.
    pub fn on_tick(&mut self, volume: u64, position: u64, length: u64)
        ensures
            final(self).volume_bar == capped_u16(volume as int),
            final(self).chapter_bar == chapter_bar_spec(position, length),
            final(self).yn_prompt == old(self).yn_prompt,
            final(self).keybindings_list == old(self).keybindings_list,
    {
        self.volume_bar = if volume > 0xffff {
            0xffff
        } else {
            volume as u16
        };
        self.chapter_bar = if length == 0 {
            if position == 0 {
                0
            } else {
                0xffff
            }
        } else {
            let percent: u128 = position as u128 * 100 / (length as u128);
            if percent > 0xffff {
                0xffff
            } else {
                percent as u16
            }
        };
    }
}

/// A part of the screen, in cells.
#[derive(Clone, Copy, Debug, PartialEq, Eq, Structural)]
pub struct Area {
    pub x: u16,
    pub y: u16,
    pub width: u16,
    pub height: u16,
}

/// The sizes of the three parts into which a layout splits an area along
/// one direction; the part in the middle is the one that is used.
#[derive(Clone, Copy, Debug, PartialEq, Eq, Structural)]
pub struct Parts {
    pub before: u16,
    pub middle: u16,
    pub after: u16,
}

/// How an area is split to get a part in its middle: from top to bottom,
/// and then the middle part from left to right.
#[derive(Clone, Copy, Debug, PartialEq, Eq, Structural)]
pub struct Centered {
    pub rows: Parts,
    pub columns: Parts,
}

/// The split, in percent, for a part in the middle of an area that takes
/// `percent_x` percent of its width and `percent_y` percent of its height.
pub open spec fn percent_parts_spec(percent_x: u16, percent_y: u16) -> Centered {
    Centered {
        rows: Parts {
            before: ((100 - percent_y) / 2) as u16,
            middle: percent_y,
            after: ((100 - percent_y) / 2) as u16,
        },
        columns: Parts {
            before: ((100 - percent_x) / 2) as u16,
            middle: percent_x,
            after: ((100 - percent_x) / 2) as u16,
        },
    }
}

/// The split, in percent, for a part in the middle of an area.
pub fn percent_parts(percent_x: u16, percent_y: u16) -> (split: Centered)
    requires
        percent_x <= 100,
        percent_y <= 100,
    ensures
        split == percent_parts_spec(percent_x, percent_y),
{
    Centered {
        rows: Parts {
            before: (100 - percent_y) / 2,
            middle: percent_y,
            after: (100 - percent_y) / 2,
        },
        columns: Parts {
            before: (100 - percent_x) / 2,
            middle: percent_x,
            after: (100 - percent_x) / 2,
        },
    }
}

/// Whether an area `width` wide has room for a part `flat_x` wide in its
/// middle, with its frame and two cells on each side.
pub open spec fn has_room(flat_x: u16, width: u16) -> bool {
    flat_x + 2 <= u16::MAX && (width - flat_x) / 2 >= 2
}

/// Tells whether an area `width` wide has room for a part `flat_x` wide.
pub fn can_center(flat_x: u16, width: u16) -> (fits: bool)
    ensures
        fits == (width >= flat_x && has_room(flat_x, width)),
{
    width >= flat_x && flat_x <= 0xffff - 2 && (width - flat_x) / 2 >= 2
}

/// The split, in cells, for a part in the middle of an area that is `flat_x`
/// cells wide, and two more for its frame, and `flat_y` cells high.
pub open spec fn flat_parts_spec(flat_x: u16, flat_y: u16, width: u16, height: u16) -> Centered {
    Centered {
        rows: Parts {
            before: ((height - flat_y) / 2) as u16,
            middle: flat_y,
            after: ((height - flat_y) / 2) as u16,
        },
        columns: Parts {
            before: ((width - flat_x) / 2 - 2) as u16,
            middle: (flat_x + 2) as u16,
            after: ((width - flat_x) / 2 - 2) as u16,
        },
    }
}

/// The split, in cells, for a part in the middle of an area. An area that is
/// less wide or less high than the part has none.
pub fn flat_parts(flat_x: u16, flat_y: u16, width: u16, height: u16) -> (split: Option<Centered>)
    requires
        width >= flat_x && height >= flat_y ==> has_room(flat_x, width),
    ensures
        split == if width < flat_x || height < flat_y {
            None
        } else {
            Some(flat_parts_spec(flat_x, flat_y, width, height))
        },
{
    if width < flat_x || height < flat_y {
        return None;
    }
    Some(
        Centered {
            rows: Parts {
                before: (height - flat_y) / 2,
                middle: flat_y,
                after: (height - flat_y) / 2,
            },
            columns: Parts {
                before: (width - flat_x) / 2 - 2,
                middle: flat_x + 2,
                after: (width - flat_x) / 2 - 2,
            },
        },
    )
}

/// Whether three sizes in percent can be taken of an extent of the screen:
/// each size times the extent stays within 16 bits.
pub open spec fn percent_fits(sizes: Parts, extent: u16) -> bool {
    &&& sizes.before * extent <= u16::MAX
    &&& sizes.middle * extent <= u16::MAX
    &&& sizes.after * extent <= u16::MAX
}

/// Tells whether a size in percent can be taken of an extent of the screen.
fn fits_size(size: u16, extent: u16) -> (fits: bool)
    ensures
        fits == (size * extent <= u16::MAX),
{
    assert(size * extent <= 0xffff * 0xffff) by (nonlinear_arith)
        requires
            size <= 0xffff,
            extent <= 0xffff,
    ;
    let product: u32 = size as u32 * extent as u32;
    product <= 0xffff
}

/// Tells whether three sizes in percent can be taken of an extent of the
/// screen.
pub fn fits_percent(sizes: Parts, extent: u16) -> (fits: bool)
    ensures
        fits == percent_fits(sizes, extent),
{
    fits_size(sizes.before, extent) && fits_size(sizes.middle, extent) && fits_size(
        sizes.after,
        extent,
    )
}

/// Whether an area ends within what a position on the screen can say.
pub open spec fn on_screen(area: Area) -> bool {
    area.x + area.width <= u16::MAX && area.y + area.height <= u16::MAX
}

/// Tells whether an area ends within what a position on the screen can say.
pub fn is_on_screen(area: Area) -> (within: bool)
    ensures
        within == on_screen(area),
{
    area.x <= 0xffff - area.width && area.y <= 0xffff - area.height
}

/// `tui::layout::Layout::split`, on a layout made by `Layout::default`,
/// `direction` and `constraints` with three sizes: from top to bottom where
/// `vertical` and else from left to right, the sizes taken in percent of the
/// area where `percent` and else in cells. Unproved: that it gives one part
/// for each size. Nothing is claimed of where the parts lie, for they come
/// from a constraint solver that walks hash maps. The area must end on the
/// screen, for the solver is asked to keep the parts inside it, and sizes in
/// percent must fit, for they are multiplied with the extent of the area in
/// 16 bits.
#[verifier::external_body]
fn split(vertical: bool, percent: bool, sizes: Parts, area: Area) -> (parts: Vec<Area>)
    requires
        on_screen(area),
        percent ==> percent_fits(
            sizes,
            if vertical {
                area.height
            } else {
                area.width
            },
        ),
    ensures
        parts@.len() == 3,
{
    let direction =
        if vertical { tui::layout::Direction::Vertical } else { tui::layout::Direction::Horizontal };
    let size: fn(u16) -> tui::layout::Constraint =
        if percent { tui::layout::Constraint::Percentage } else { tui::layout::Constraint::Length };
    let rect = tui::layout::Rect { x: area.x, y: area.y, width: area.width, height: area.height };
    let layout = tui::layout::Layout::default()
        .direction(direction)
        .constraints([size(sizes.before), size(sizes.middle), size(sizes.after)]);
    layout.split(rect).into_iter().map(
        |r| Area { x: r.x, y: r.y, width: r.width, height: r.height },
    ).collect()
}

/// Whether the layout can be asked to split `area` in three along one
/// direction: the area ends on the screen, and sizes in percent fit the
/// extent of the area along that direction.
pub open spec fn can_split(vertical: bool, percent: bool, sizes: Parts, area: Area) -> bool {
    &&& on_screen(area)
    &&& percent ==> percent_fits(
        sizes,
        if vertical {
            area.height
        } else {
            area.width
        },
    )
}

/// Tells whether the layout can be asked to split `area` in three along one
/// direction.
pub fn may_split(vertical: bool, percent: bool, sizes: Parts, area: Area) -> (may: bool)
    ensures
        may == can_split(vertical, percent, sizes, area),
{
    let extent = if vertical {
        area.height
    } else {
        area.width
    };
    is_on_screen(area) && (!percent || fits_percent(sizes, extent))
}

/// What is made of the rows that the layout gave for the split from top to
/// bottom: the row in the middle, where the layout can be asked to split it
/// into the columns, and none else.
pub open spec fn middle_row_spec(centered: Centered, percent: bool, rows: Seq<Area>) -> Option<
    Area,
> {
    if rows.len() == 3 && can_split(false, percent, centered.columns, rows[1]) {
        Some(rows[1])
    } else {
        None
    }
}

/// Takes the row in the middle of the rows that the layout gave, where the
/// layout can be asked to split it into the columns.
pub fn middle_row(centered: Centered, percent: bool, rows: &Vec<Area>) -> (row: Option<Area>)
    ensures
        row == middle_row_spec(centered, percent, rows@),
{
    if rows.len() != 3 {
        return None;
    }
    let row = rows[1];
    if may_split(false, percent, centered.columns, row) {
        Some(row)
    } else {
        None
    }
}

/// What is made of the columns that the layout gave for the split of the
/// middle row from left to right: the column in the middle.
pub open spec fn middle_column_spec(columns: Seq<Area>) -> Option<Area> {
    if columns.len() == 3 {
        Some(columns[1])
    } else {
        None
    }
}

/// Takes the column in the middle of the columns that the layout gave.
pub fn middle_column(columns: &Vec<Area>) -> (part: Option<Area>)
    ensures
        part == middle_column_spec(columns@),
{
    if columns.len() != 3 {
        return None;
    }
    Some(columns[1])
}

/// The part in the middle of `area` for a split: the area is split from top
/// to bottom, and the part in the middle of that from left to right. There
/// is none where the area, or the part in the middle of the first split,
/// does not end on the screen, or where sizes in percent do not fit. Whether
/// there is one is else for the layout to decide: what is made of its
/// answers is told by `middle_row` and `middle_column`.
fn middle_of(centered: Centered, percent: bool, area: Area) -> (part: Option<Area>)
    ensures
        !on_screen(area) ==> part is None,
        percent && !percent_fits(centered.rows, area.height) ==> part is None,
{
    if !may_split(true, percent, centered.rows, area) {
        return None;
    }
    let rows = split(true, percent, centered.rows, area);
    match middle_row(centered, percent, &rows) {
        Some(row) => {
            let columns = split(false, percent, centered.columns, row);
            middle_column(&columns)
        },
        None => None,
    }
}

/// A part in the middle of the area `r` that takes `percent_x` percent of
/// its width and `percent_y` percent of its height, as the layout of the
/// screen finds it. There is none where the area does not end on the screen
/// or is so large that the layout cannot take its percentages.
pub fn centered_rec_perc(percent_x: u16, percent_y: u16, r: Area) -> (part: Option<Area>)
    requires
        percent_x <= 100,
        percent_y <= 100,
    ensures
        !on_screen(r) ==> part is None,
        !percent_fits(percent_parts_spec(percent_x, percent_y).rows, r.height) ==> part is None,
{
    middle_of(percent_parts(percent_x, percent_y), true, r)
}

/// A part in the middle of the area `r` that is `flat_x` cells wide, and two
/// more for its frame, and `flat_y` cells high, as the layout of the screen
/// finds it. There is none where the area is less wide or less high than the
/// part, or does not end on the screen.
pub fn centered_rect_flat(flat_x: u16, flat_y: u16, r: Area) -> (part: Option<Area>)
    requires
        r.width >= flat_x && r.height >= flat_y ==> has_room(flat_x, r.width),
    ensures
        r.width < flat_x || r.height < flat_y || !on_screen(r) ==> part is None,
{
    match flat_parts(flat_x, flat_y, r.width, r.height) {
        Some(centered) => middle_of(centered, false, r),
        None => None,
    }
}

} // verus!
