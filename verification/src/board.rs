//! Boards of the dashboard and the items placed on them.

use vstd::prelude::*;
use crate::text::str_eq;

verus! {

/// Where an item sits under one layout template of a board. A coordinate
/// that the dashboard did not report is `None`.
#[derive(Debug)]
pub struct ItemLayout {
    pub layout_id: String,
    pub section_id: String,
    pub width: Option<i32>,
    pub height: Option<i32>,
    pub x_offset: Option<i32>,
    pub y_offset: Option<i32>,
}

impl ItemLayout {
    /// Leftmost column; 0 when not reported.
    pub open spec fn col(self) -> int {
        match self.x_offset {
            Some(x) => x as int,
            None => 0,
        }
    }

    /// Topmost row; 0 when not reported.
    pub open spec fn row(self) -> int {
        match self.y_offset {
            Some(y) => y as int,
            None => 0,
        }
    }

    /// Number of columns covered; 1 when not reported.
    pub open spec fn cols(self) -> int {
        match self.width {
            Some(w) => w as int,
            None => 1,
        }
    }

    /// Number of rows covered; 1 when not reported.
    pub open spec fn rows(self) -> int {
        match self.height {
            Some(h) => h as int,
            None => 1,
        }
    }

    /// The row just below the item.
    pub open spec fn bottom(self) -> int {
        self.row() + self.rows()
    }

    /// The column just right of the item.
    pub open spec fn right(self) -> int {
        self.col() + self.cols()
    }

    /// Whether the item covers the cell at column `c`, row `r`.
    pub open spec fn covers(self, c: int, r: int) -> bool {
        self.col() <= c < self.right() && self.row() <= r < self.bottom()
    }

    /// Both edges of the rectangle are representable as `i32`.
    pub open spec fn in_range(self) -> bool {
        &&& i32::MIN <= self.bottom() <= i32::MAX
        &&& i32::MIN <= self.right() <= i32::MAX
    }

    /// Whether both edges of the rectangle are representable as `i32`.
    pub fn check_in_range(&self) -> (r: bool)
        ensures
            r == self.in_range(),
    {
        let x: i64 = match self.x_offset { Some(x) => x as i64, None => 0 };
        let y: i64 = match self.y_offset { Some(y) => y as i64, None => 0 };
        let w: i64 = match self.width { Some(w) => w as i64, None => 1 };
        let h: i64 = match self.height { Some(h) => h as i64, None => 1 };
        let lo: i64 = i32::MIN as i64;
        let hi: i64 = i32::MAX as i64;
        lo <= y + h && y + h <= hi && lo <= x + w && x + w <= hi
    }
}

/// One item of a board: a tile that shows the app `app_id`, if it is an app
/// tile, with its position under each layout template.
///
/// An item that was read from the dashboard carries what the dashboard sent
/// as its `source`, and is written back as that: the adapter understands
/// only a part of an item and must not lose the rest.
#[derive(Debug)]
pub struct BoardItem {
    pub id: String,
    pub kind: String,
    pub app_id: Option<String>,
    pub layouts: Option<Vec<ItemLayout>>,
    pub source: Option<serde_json::Value>,
}

impl BoardItem {
    /// The positions of the item; none when the item carries no layouts.
    pub open spec fn positions(self) -> Seq<ItemLayout> {
        match self.layouts {
            Some(v) => v@,
            None => Seq::empty(),
        }
    }

    /// Every position of the item is representable on the grid.
    pub open spec fn in_range(self) -> bool {
        forall|j: int| 0 <= j < self.positions().len() ==> (#[trigger] self.positions()[j]).in_range()
    }

    /// Whether every position of the item is representable on the grid.
    pub fn check_in_range(&self) -> (r: bool)
        ensures
            r == self.in_range(),
    {
        match &self.layouts {
            None => true,
            Some(v) => {
                let mut j: usize = 0;
                while j < v.len()
                    invariant
                        j <= v.len(),
                        self.positions() == v@,
                        forall|k: int| 0 <= k < j ==> (#[trigger] v@[k]).in_range(),
                    decreases v.len() - j,
                {
                    if !v[j].check_in_range() {
                        return false;
                    }
                    j += 1;
                }
                true
            },
        }
    }
}

/// A layout container of a board.
#[derive(Debug)]
pub struct Section {
    pub id: String,
    pub kind: String,
    pub y_offset: i32,
    pub x_offset: i32,
}

/// A layout template of a board: a grid of `column_count` columns, used
/// from the width `breakpoint` on.
#[derive(Debug)]
pub struct Layout {
    pub id: String,
    pub name: String,
    pub column_count: i32,
    pub breakpoint: i32,
}

/// A board as the dashboard reports it: its sections, its layout templates
/// and the items placed on it.
#[derive(Debug)]
pub struct Board {
    pub id: String,
    pub name: String,
    pub sections: Vec<Section>,
    pub layouts: Vec<Layout>,
    pub items: Vec<BoardItem>,
}

/// A board that the adapter may write to.
#[derive(Debug)]
pub struct BoardInfo {
    pub id: String,
    pub name: String,
}

impl BoardItem {
    /// Whether the item is a tile of the app `app_id`.
    pub open spec fn shows(self, app_id: Seq<char>) -> bool {
        match self.app_id {
            Some(id) => id@ == app_id,
            None => false,
        }
    }
}

/// Whether some item of `items` shows the app `app_id`.
pub open spec fn shows_app(items: Seq<BoardItem>, app_id: Seq<char>) -> bool {
    exists|i: int| 0 <= i < items.len() && (#[trigger] items[i]).shows(app_id)
}

/// Check if a board already has an item for a given app ID. Items that are
/// no app tiles, or that name no app, match nothing.
pub fn board_has_app(items: &Vec<BoardItem>, app_id: &str) -> (r: bool)
    ensures
        r == shows_app(items@, app_id@),
{
    let mut i: usize = 0;
    while i < items.len()
        invariant
            i <= items.len(),
            forall|k: int| 0 <= k < i ==> !(#[trigger] items@[k]).shows(app_id@),
        decreases items.len() - i,
    {
        match &items[i].app_id {
            Some(id) => {
                if str_eq(id.as_str(), app_id) {
                    assert(items@[i as int].shows(app_id@));
                    return true;
                }
            },
            None => {},
        }
        i += 1;
    }
    false
}

/// Every position of every item is representable on the grid.
pub open spec fn items_in_range(items: Seq<BoardItem>) -> bool {
    forall|i: int| 0 <= i < items.len() ==> (#[trigger] items[i]).in_range()
}

/// Whether every position of every item is representable on the grid.
pub fn check_items_in_range(items: &Vec<BoardItem>) -> (r: bool)
    ensures
        r == items_in_range(items@),
{
    let mut i: usize = 0;
    while i < items.len()
        invariant
            i <= items.len(),
            forall|k: int| 0 <= k < i ==> (#[trigger] items@[k]).in_range(),
        decreases items.len() - i,
    {
        if !items[i].check_in_range() {
            return false;
        }
        i += 1;
    }
    true
}

} // verus!
