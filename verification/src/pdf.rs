//! Page boxes of a PDF. A page's footer is cut off by raising the lower edge
//! of its media box and writing the result into all five boxes of the page's
//! own node, where it takes precedence over anything inherited.
//!
//! Lengths are whole numbers of a millionth of a point, so that the numbers
//! of a PDF, which has no more than a few decimal places, are held exactly.
//! The caller reads the boxes from the document and writes the result back.

use vstd::prelude::*;

verus! {

/// The units of length in one point.
pub const UNITS_PER_POINT: i64 = 1_000_000;

/// The width of the media box that a page has where none is given.
pub const DEFAULT_WIDTH: i64 = 595_000_000;

/// The height of the media box that a page has where none is given.
pub const DEFAULT_HEIGHT: i64 = 842_000_000;

/// One element of the array that a box is written as.
#[derive(Debug, Clone, Copy, PartialEq, Eq, Structural)]
pub enum BoxEntry {
    /// A whole or real number, in units.
    Number(i64),
    /// Anything that is no number.
    Other,
}

/// What stands under a box's key in a page or in its parent.
#[derive(Debug, PartialEq, Eq)]
pub enum BoxValue {
    Array(Vec<BoxEntry>),
    /// Anything that is no array.
    Other,
}

/// A rectangle by its lower left and its upper right corner, in units.
#[derive(Debug, Clone, Copy, PartialEq, Eq, Structural)]
pub struct Rect {
    pub llx: i64,
    pub lly: i64,
    pub urx: i64,
    pub ury: i64,
}

/// What is read of a page before it is edited.
#[derive(Debug, PartialEq, Eq)]
pub struct PageBoxes {
    /// The media box of the page's own node.
    pub media_box: Option<BoxValue>,
    /// The media box of the node that the page names as its parent.
    pub parent_media_box: Option<BoxValue>,
}

/// The five boxes that are written to a page's own node.
#[derive(Debug, Clone, Copy, PartialEq, Eq, Structural)]
pub struct BoxEdit {
    pub media_box: Rect,
    pub crop_box: Rect,
    pub trim_box: Rect,
    pub bleed_box: Rect,
    pub art_box: Rect,
}

pub open spec fn default_rect() -> Rect {
    Rect { llx: 0, lly: 0, urx: DEFAULT_WIDTH, ury: DEFAULT_HEIGHT }
}

pub open spec fn number_or(entry: BoxEntry, default: i64) -> i64 {
    match entry {
        BoxEntry::Number(n) => n,
        BoxEntry::Other => default,
    }
}

/// The rectangle that a box's value stands for: an array of four elements,
/// each of which counts as the default's where it is no number.
pub open spec fn rect_of(value: BoxValue) -> Option<Rect> {
    match value {
        BoxValue::Array(entries) => if entries@.len() == 4 {
            Some(
                Rect {
                    llx: number_or(entries@[0], 0),
                    lly: number_or(entries@[1], 0),
                    urx: number_or(entries@[2], DEFAULT_WIDTH),
                    ury: number_or(entries@[3], DEFAULT_HEIGHT),
                },
            )
        } else {
            None
        },
        BoxValue::Other => None,
    }
}

/// The media box in force for a page: its own, else its parent's, else the
/// default. `None` where the box in force is no array of four elements.
pub open spec fn media_rect(page: PageBoxes) -> Option<Rect> {
    match page.media_box {
        Some(own) => rect_of(own),
        None => match page.parent_media_box {
            Some(inherited) => rect_of(inherited),
            None => Some(default_rect()),
        },
    }
}

pub open spec fn clamped(x: int) -> i64 {
    if x < i64::MIN {
        i64::MIN
    } else if x > i64::MAX {
        i64::MAX
    } else {
        x as i64
    }
}

/// The lower edge of a box after `trim` units are cut off at the bottom: it
/// rises by `trim`, which counts as 0 where it is negative, but stays one
/// point under the upper edge. The result is held to the range of `i64`.
pub open spec fn raised_lower_edge(lly: i64, ury: i64, trim: i64) -> i64 {
    let amount = if trim < 0 {
        0
    } else {
        trim as int
    };
    let raised = lly + amount;
    let ceiling = ury - UNITS_PER_POINT;
    clamped(
        if raised < ceiling {
            raised
        } else {
            ceiling
        },
    )
}

pub open spec fn cropped(rect: Rect, trim: i64) -> Rect {
    Rect { llx: rect.llx, lly: raised_lower_edge(rect.lly, rect.ury, trim), urx: rect.urx, ury: rect.ury }
}

pub open spec fn uniform(rect: Rect) -> BoxEdit {
    BoxEdit { media_box: rect, crop_box: rect, trim_box: rect, bleed_box: rect, art_box: rect }
}

/// What is written to a page, or `None` where it is left as it is.
pub open spec fn page_edit(page: PageBoxes, trim: i64) -> Option<BoxEdit> {
    match media_rect(page) {
        Some(rect) => Some(uniform(cropped(rect, trim))),
        None => None,
    }
}

/// A whole number of points in units.
pub fn points(n: i32) -> (units: i64)
    ensures
        units == n * UNITS_PER_POINT,
{
    let wide: i64 = n as i64;
    assert(-2147483648 * 1_000_000 <= wide * 1_000_000 <= 2147483647 * 1_000_000) by (nonlinear_arith)
        requires
            -2147483648 <= wide <= 2147483647,
    ;
    wide * UNITS_PER_POINT
}

fn entry_number(entry: &BoxEntry, default: i64) -> (n: i64)
    ensures
        n == number_or(*entry, default),
{
    match entry {
        BoxEntry::Number(n) => *n,
        BoxEntry::Other => default,
    }
}

/// Reads a box's value as a rectangle.
pub fn read_rect(value: &BoxValue) -> (r: Option<Rect>)
    ensures
        r == rect_of(*value),
{
    match value {
        BoxValue::Array(entries) => {
            if entries.len() == 4 {
                Some(
                    Rect {
                        llx: entry_number(&entries[0], 0),
                        lly: entry_number(&entries[1], 0),
                        urx: entry_number(&entries[2], DEFAULT_WIDTH),
                        ury: entry_number(&entries[3], DEFAULT_HEIGHT),
                    },
                )
            } else {
                None
            }
        },
        BoxValue::Other => None,
    }
}

/// The media box in force for a page.
pub fn effective_media_rect(page: &PageBoxes) -> (r: Option<Rect>)
    ensures
        r == media_rect(*page),
{
    match &page.media_box {
        Some(own) => read_rect(own),
        None => match &page.parent_media_box {
            Some(inherited) => read_rect(inherited),
            None => Some(Rect { llx: 0, lly: 0, urx: DEFAULT_WIDTH, ury: DEFAULT_HEIGHT }),
        },
    }
}

/// Cuts `trim` units off the bottom of a rectangle. The lower edge never
/// comes nearer than one point to the upper edge.
pub fn crop_bottom(rect: Rect, trim: i64) -> (r: Rect)
    ensures
        r == cropped(rect, trim),
        r.llx == rect.llx && r.urx == rect.urx && r.ury == rect.ury,
        rect.ury - UNITS_PER_POINT >= i64::MIN ==> r.lly <= rect.ury - UNITS_PER_POINT,
        trim <= 0 && rect.lly <= rect.ury - UNITS_PER_POINT ==> r.lly == rect.lly,
{
    let amount: i64 = if trim < 0 {
        0
    } else {
        trim
    };
    let raised: i64 = if rect.lly > i64::MAX - amount {
        i64::MAX
    } else {
        rect.lly + amount
    };
    let ceiling: i64 = if rect.ury < i64::MIN + UNITS_PER_POINT {
        i64::MIN
    } else {
        rect.ury - UNITS_PER_POINT
    };
    let lly: i64 = if raised < ceiling {
        raised
    } else {
        ceiling
    };
    Rect { llx: rect.llx, lly, urx: rect.urx, ury: rect.ury }
}

/// Decides what is written to one page: the media box in force, cut at the
/// bottom, for each of the five boxes; nothing where the box in force is no
/// array of four elements.
pub fn crop_page(page: &PageBoxes, trim: i64) -> (edit: Option<BoxEdit>)
    ensures
        edit == page_edit(*page, trim),
        match edit {
            Some(e) => {
                &&& e.crop_box == e.media_box
                &&& e.trim_box == e.media_box
                &&& e.bleed_box == e.media_box
                &&& e.art_box == e.media_box
            },
            None => media_rect(*page) is None,
        },
{
    match effective_media_rect(page) {
        Some(rect) => {
            let r = crop_bottom(rect, trim);
            Some(BoxEdit { media_box: r, crop_box: r, trim_box: r, bleed_box: r, art_box: r })
        },
        None => None,
    }
}

/// Decides what is written to each page of a document, page by page.
pub fn crop_pages(pages: &Vec<PageBoxes>, trim: i64) -> (edits: Vec<Option<BoxEdit>>)
    ensures
        edits@.len() == pages@.len(),
        forall|i: int| 0 <= i < pages@.len() ==> #[trigger] edits@[i] == page_edit(pages@[i], trim),
{
    let mut edits: Vec<Option<BoxEdit>> = Vec::new();
    let mut i: usize = 0;
    while i < pages.len()
        invariant
            i <= pages.len(),
            edits@.len() == i,
            forall|k: int| 0 <= k < i ==> #[trigger] edits@[k] == page_edit(pages@[k], trim),
        decreases pages.len() - i,
    {
        edits.push(crop_page(&pages[i], trim));
        i += 1;
    }
    edits
}

/// The array that a rectangle is written as: its four numbers, the lower
/// left corner first.
pub open spec fn entries_of(rect: Rect) -> Seq<BoxEntry> {
    seq![
        BoxEntry::Number(rect.llx),
        BoxEntry::Number(rect.lly),
        BoxEntry::Number(rect.urx),
        BoxEntry::Number(rect.ury),
    ]
}

/// The value under which a rectangle is stored. Read back, it is the same
/// rectangle.
pub fn write_rect(rect: Rect) -> (value: BoxValue)
    ensures
        value matches BoxValue::Array(entries) && entries@ == entries_of(rect),
        rect_of(value) == Some(rect),
{
    let mut entries: Vec<BoxEntry> = Vec::new();
    entries.push(BoxEntry::Number(rect.llx));
    entries.push(BoxEntry::Number(rect.lly));
    entries.push(BoxEntry::Number(rect.urx));
    entries.push(BoxEntry::Number(rect.ury));
    assert(entries@ =~= entries_of(rect));
    BoxValue::Array(entries)
}

/// Once an edit's media box stands in a page's own node, it is the media box
/// in force, whatever the parent holds.
pub proof fn law_written_box_is_in_force(page: PageBoxes, edit: BoxEdit, written: BoxValue)
    requires
        rect_of(written) == Some(edit.media_box),
    ensures
        media_rect(PageBoxes { media_box: Some(written), parent_media_box: page.parent_media_box })
            == Some(edit.media_box),
{
}

/// However much is cut off, the lower edge stays at least one point under
/// the upper edge, for every box whose upper edge lies a point above the
/// least number that can be held.
pub proof fn law_lower_edge_stays_below_upper(rect: Rect, trim: i64)
    requires
        rect.ury - UNITS_PER_POINT >= i64::MIN,
    ensures
        cropped(rect, trim).lly <= rect.ury - UNITS_PER_POINT,
        cropped(rect, trim).ury == rect.ury,
{
}

} // verus!
