//! Automatic placement of a new item on a board grid.
//!
//! The grid is filled row by row. A new item goes into the row that the
//! lowest existing items end in, at the first column that none of those
//! items covers; when that row has no such column, the item starts a new row
//! below. Gaps in rows further up are not filled.

use vstd::prelude::*;
use crate::board::{BoardItem, ItemLayout, items_in_range};

verus! {

/// The greatest bottom edge among the positions `ls`, and 0 when none lies
/// below the top of the grid.
pub open spec fn layouts_bottom(ls: Seq<ItemLayout>) -> int
    decreases ls.len(),
{
    if ls.len() == 0 {
        0
    } else {
        let rest = layouts_bottom(ls.drop_last());
        if ls.last().bottom() > rest {
            ls.last().bottom()
        } else {
            rest
        }
    }
}

/// The greatest bottom edge among all positions of all `items`, and 0 when
/// there is none below the top of the grid.
pub open spec fn items_bottom(items: Seq<BoardItem>) -> int
    decreases items.len(),
{
    if items.len() == 0 {
        0
    } else {
        let rest = items_bottom(items.drop_last());
        let own = layouts_bottom(items.last().positions());
        if own > rest {
            own
        } else {
            rest
        }
    }
}

/// The position `l` ends at `bottom` and covers column `c`.
pub open spec fn ends_over(l: ItemLayout, bottom: int, c: int) -> bool {
    l.bottom() == bottom && l.col() <= c < l.right()
}

/// Some position among `items` ends at `bottom` and covers column `c`.
pub open spec fn column_taken(items: Seq<BoardItem>, bottom: int, c: int) -> bool {
    exists|i: int, j: int|
        0 <= i < items.len() && 0 <= j < items[i].positions().len() && ends_over(
            #[trigger] items[i].positions()[j],
            bottom,
            c,
        )
}

/// The first column in `from..count` that no position ending at `bottom`
/// covers.
pub open spec fn first_free_from(items: Seq<BoardItem>, bottom: int, from: int, count: int) -> Option<
    int,
>
    decreases count - from,
{
    if from >= count {
        None
    } else if !column_taken(items, bottom, from) {
        Some(from)
    } else {
        first_free_from(items, bottom, from + 1, count)
    }
}

/// Column and row for a new item on a grid of `count` columns that already
/// holds `items`.
pub open spec fn next_position(items: Seq<BoardItem>, count: int) -> (int, int) {
    let bottom = items_bottom(items);
    match first_free_from(items, bottom, 0, count) {
        Some(c) => (c, if bottom >= 1 { bottom - 1 } else { 0 }),
        None => (0, bottom),
    }
}

/// `layouts_bottom` is the least bound that is at least 0 and at least every
/// bottom edge.
pub proof fn lemma_layouts_bottom(ls: Seq<ItemLayout>)
    ensures
        layouts_bottom(ls) >= 0,
        forall|j: int| 0 <= j < ls.len() ==> (#[trigger] ls[j]).bottom() <= layouts_bottom(ls),
        layouts_bottom(ls) == 0 || exists|j: int|
            0 <= j < ls.len() && (#[trigger] ls[j]).bottom() == layouts_bottom(ls),
    decreases ls.len(),
{
    if ls.len() > 0 {
        let front = ls.drop_last();
        lemma_layouts_bottom(front);
        assert forall|j: int| 0 <= j < ls.len() implies (#[trigger] ls[j]).bottom()
            <= layouts_bottom(ls) by {
            if j < front.len() {
                assert(ls[j] == front[j]);
            }
        }
        if layouts_bottom(ls) != 0 {
            if layouts_bottom(ls) == ls.last().bottom() {
                assert(ls[ls.len() - 1].bottom() == layouts_bottom(ls));
            } else {
                let j = choose|j: int|
                    0 <= j < front.len() && (#[trigger] front[j]).bottom() == layouts_bottom(front);
                assert(ls[j] == front[j]);
            }
        }
    }
}

/// `items_bottom` is the least bound that is at least 0 and at least every
/// bottom edge on the board.
pub proof fn lemma_items_bottom(items: Seq<BoardItem>)
    ensures
        items_bottom(items) >= 0,
        forall|i: int, j: int|
            0 <= i < items.len() && 0 <= j < items[i].positions().len() ==> (
            #[trigger] items[i].positions()[j]).bottom() <= items_bottom(items),
        items_bottom(items) == 0 || exists|i: int, j: int|
            0 <= i < items.len() && 0 <= j < items[i].positions().len() && (
            #[trigger] items[i].positions()[j]).bottom() == items_bottom(items),
    decreases items.len(),
{
    if items.len() > 0 {
        let front = items.drop_last();
        let last = items.last();
        lemma_items_bottom(front);
        lemma_layouts_bottom(last.positions());
        assert forall|i: int, j: int|
            0 <= i < items.len() && 0 <= j < items[i].positions().len() implies (
        #[trigger] items[i].positions()[j]).bottom() <= items_bottom(items) by {
            if i < front.len() {
                assert(items[i] == front[i]);
            }
        }
        if items_bottom(items) != 0 {
            if items_bottom(items) == layouts_bottom(last.positions()) {
                let j = choose|j: int|
                    0 <= j < last.positions().len() && (#[trigger] last.positions()[j]).bottom()
                        == layouts_bottom(last.positions());
                assert(items[items.len() - 1].positions()[j].bottom() == items_bottom(items));
            } else {
                let (i, j) = choose|i: int, j: int|
                    0 <= i < front.len() && 0 <= j < front[i].positions().len() && (
                    #[trigger] front[i].positions()[j]).bottom() == items_bottom(front);
                assert(items[i] == front[i]);
                assert(items[i].positions()[j].bottom() == items_bottom(items));
            }
        }
    }
}

/// What `first_free_from` returns is a free column with only taken columns
/// before it; it returns nothing only when every column is taken.
pub proof fn lemma_first_free_from(items: Seq<BoardItem>, bottom: int, from: int, count: int)
    ensures
        match first_free_from(items, bottom, from, count) {
            Some(c) => {
                &&& from <= c < count
                &&& !column_taken(items, bottom, c)
                &&& forall|d: int| from <= d < c ==> column_taken(items, bottom, d)
            },
            None => forall|d: int| from <= d < count ==> column_taken(items, bottom, d),
        },
    decreases count - from,
{
    if from < count && column_taken(items, bottom, from) {
        lemma_first_free_from(items, bottom, from + 1, count);
    }
}

impl ItemLayout {
    fn left_edge(&self) -> (r: i32)
        ensures
            r == self.col(),
    {
        match self.x_offset {
            Some(x) => x,
            None => 0,
        }
    }

    fn right_edge(&self) -> (r: i32)
        requires
            self.in_range(),
        ensures
            r == self.right(),
    {
        let x: i64 = match self.x_offset { Some(x) => x as i64, None => 0 };
        let w: i64 = match self.width { Some(w) => w as i64, None => 1 };
        (x + w) as i32
    }

    fn bottom_edge(&self) -> (r: i32)
        requires
            self.in_range(),
        ensures
            r == self.bottom(),
    {
        let y: i64 = match self.y_offset { Some(y) => y as i64, None => 0 };
        let h: i64 = match self.height { Some(h) => h as i64, None => 1 };
        (y + h) as i32
    }
}

fn bottom_of_layouts(v: &Vec<ItemLayout>) -> (m: i32)
    requires
        forall|j: int| 0 <= j < v@.len() ==> (#[trigger] v@[j]).in_range(),
    ensures
        m == layouts_bottom(v@),
{
    let mut m: i32 = 0;
    let mut j: usize = 0;
    while j < v.len()
        invariant
            j <= v.len(),
            forall|k: int| 0 <= k < v@.len() ==> (#[trigger] v@[k]).in_range(),
            m == layouts_bottom(v@.subrange(0, j as int)),
        decreases v.len() - j,
    {
        let b = v[j].bottom_edge();
        proof {
            let next = v@.subrange(0, j as int + 1);
            assert(next.drop_last() =~= v@.subrange(0, j as int));
            assert(next.last() == v@[j as int]);
        }
        if b > m {
            m = b;
        }
        j += 1;
    }
    assert(v@.subrange(0, j as int) =~= v@);
    m
}

fn bottom_of_items(items: &Vec<BoardItem>) -> (m: i32)
    requires
        items_in_range(items@),
    ensures
        m == items_bottom(items@),
{
    let mut m: i32 = 0;
    let mut i: usize = 0;
    while i < items.len()
        invariant
            i <= items.len(),
            items_in_range(items@),
            m >= 0,
            m == items_bottom(items@.subrange(0, i as int)),
        decreases items.len() - i,
    {
        proof {
            let next = items@.subrange(0, i as int + 1);
            assert(next.drop_last() =~= items@.subrange(0, i as int));
            assert(next.last() == items@[i as int]);
            assert(items@[i as int].in_range());
        }
        match &items[i].layouts {
            Some(v) => {
                assert(items@[i as int].positions() == v@);
                let own = bottom_of_layouts(v);
                if own > m {
                    m = own;
                }
            },
            None => {
                assert(items@[i as int].positions().len() == 0);
            },
        }
        i += 1;
    }
    assert(items@.subrange(0, i as int) =~= items@);
    m
}

fn layouts_take_column(v: &Vec<ItemLayout>, bottom: i32, c: i32) -> (r: bool)
    requires
        forall|j: int| 0 <= j < v@.len() ==> (#[trigger] v@[j]).in_range(),
    ensures
        r == exists|j: int| 0 <= j < v@.len() && ends_over(#[trigger] v@[j], bottom as int, c as int),
{
    let mut j: usize = 0;
    while j < v.len()
        invariant
            j <= v.len(),
            forall|k: int| 0 <= k < v@.len() ==> (#[trigger] v@[k]).in_range(),
            forall|k: int| 0 <= k < j ==> !ends_over(#[trigger] v@[k], bottom as int, c as int),
        decreases v.len() - j,
    {
        let l = &v[j];
        if l.bottom_edge() == bottom && l.left_edge() <= c && c < l.right_edge() {
            assert(ends_over(v@[j as int], bottom as int, c as int));
            return true;
        }
        j += 1;
    }
    false
}

fn column_is_taken(items: &Vec<BoardItem>, bottom: i32, c: i32) -> (r: bool)
    requires
        items_in_range(items@),
    ensures
        r == column_taken(items@, bottom as int, c as int),
{
    let mut i: usize = 0;
    while i < items.len()
        invariant
            i <= items.len(),
            items_in_range(items@),
            forall|a: int, b: int|
                0 <= a < i && 0 <= b < items@[a].positions().len() ==> !ends_over(
                    #[trigger] items@[a].positions()[b],
                    bottom as int,
                    c as int,
                ),
        decreases items.len() - i,
    {
        assert(items@[i as int].in_range());
        match &items[i].layouts {
            Some(v) => {
                assert(items@[i as int].positions() == v@);
                if layouts_take_column(v, bottom, c) {
                    let ghost j = choose|j: int|
                        0 <= j < v@.len() && ends_over(#[trigger] v@[j], bottom as int, c as int);
                    assert(ends_over(items@[i as int].positions()[j], bottom as int, c as int));
                    return true;
                }
            },
            None => {},
        }
        i += 1;
    }
    false
}

/// Finds the position for a new item on a grid of `column_count` columns.
///
/// The arithmetic on the existing positions is done in `i32`, so their edges
/// have to be representable there.
pub fn find_next_position(items: &Vec<BoardItem>, column_count: i32) -> (pos: (i32, i32))
    requires
        items_in_range(items@),
    ensures
        (pos.0 as int, pos.1 as int) == next_position(items@, column_count as int),
{
    let bottom = bottom_of_items(items);
    proof {
        lemma_items_bottom(items@);
    }
    let mut x: i32 = 0;
    while x < column_count
        invariant
            0 <= x,
            items_in_range(items@),
            bottom == items_bottom(items@),
            bottom >= 0,
            first_free_from(items@, bottom as int, 0, column_count as int) == first_free_from(
                items@,
                bottom as int,
                x as int,
                column_count as int,
            ),
        decreases column_count - x,
    {
        if !column_is_taken(items, bottom, x) {
            let y: i32 = if bottom >= 1 { bottom - 1 } else { 0 };
            return (x, y);
        }
        x += 1;
    }
    (0, bottom)
}

/// On a board without items the first item goes to the top left corner,
/// whatever the number of columns.
pub proof fn law_empty_board_starts_at_origin(count: int)
    ensures
        next_position(Seq::<BoardItem>::empty(), count) == (0int, 0int),
{
    let items = Seq::<BoardItem>::empty();
    lemma_first_free_from(items, 0, 0, count);
    assert(!column_taken(items, 0, 0));
}

/// Items that carry no position occupy nothing: a board that holds only such
/// items is filled from the top left corner.
pub proof fn law_items_without_positions_occupy_nothing(items: Seq<BoardItem>, count: int)
    requires
        forall|i: int| 0 <= i < items.len() ==> (#[trigger] items[i]).positions().len() == 0,
    ensures
        next_position(items, count) == (0int, 0int),
{
    lemma_items_bottom(items);
    lemma_first_free_from(items, items_bottom(items), 0, count);
    assert(!column_taken(items, items_bottom(items), 0));
}

/// When the items that end lowest cover every column of the grid, the new
/// item starts a new row below them, at the first column.
pub proof fn law_full_row_starts_new_row(items: Seq<BoardItem>, count: int)
    requires
        forall|c: int| 0 <= c < count ==> column_taken(items, items_bottom(items), c),
    ensures
        next_position(items, count) == (0int, items_bottom(items)),
{
    lemma_first_free_from(items, items_bottom(items), 0, count);
}

/// When the items that end lowest leave a column uncovered, the new item
/// takes the first such column, in the row that those items end in.
pub proof fn law_gap_in_last_row_is_filled(items: Seq<BoardItem>, count: int, c: int)
    requires
        0 <= c < count,
        !column_taken(items, items_bottom(items), c),
        forall|d: int| 0 <= d < c ==> column_taken(items, items_bottom(items), d),
    ensures
        next_position(items, count).0 == c,
        items_bottom(items) >= 1 ==> next_position(items, count).1 == items_bottom(items) - 1,
        items_bottom(items) == 0 ==> next_position(items, count).1 == 0,
{
    lemma_first_free_from(items, items_bottom(items), 0, count);
    lemma_items_bottom(items);
}

/// The cell that `next_position` names is covered by no existing position,
/// so a new item of one column and one row overlaps nothing.
pub proof fn law_next_position_is_vacant(items: Seq<BoardItem>, count: int)
    ensures
        forall|i: int, j: int|
            0 <= i < items.len() && 0 <= j < items[i].positions().len() ==> !(
            #[trigger] items[i].positions()[j]).covers(
                next_position(items, count).0,
                next_position(items, count).1,
            ),
{
    let bottom = items_bottom(items);
    let pos = next_position(items, count);
    lemma_items_bottom(items);
    lemma_first_free_from(items, bottom, 0, count);
    assert forall|i: int, j: int|
        0 <= i < items.len() && 0 <= j < items[i].positions().len() implies !(
    #[trigger] items[i].positions()[j]).covers(pos.0, pos.1) by {
        let l = items[i].positions()[j];
        if l.covers(pos.0, pos.1) {
            assert(l.bottom() <= bottom);
            if first_free_from(items, bottom, 0, count) is Some {
                assert(l.bottom() == bottom);
                assert(ends_over(items[i].positions()[j], bottom, pos.0));
                assert(column_taken(items, bottom, pos.0));
            }
        }
    }
}

/// Finds the position for a new item where the existing positions allow
/// the arithmetic, and nothing where they do not.
pub fn place_next(items: &Vec<BoardItem>, column_count: i32) -> (pos: Option<(i32, i32)>)
    ensures
        match pos {
            Some(p) => items_in_range(items@) && (p.0 as int, p.1 as int) == next_position(
                items@,
                column_count as int,
            ),
            None => !items_in_range(items@),
        },
{
    if crate::board::check_items_in_range(items) {
        Some(find_next_position(items, column_count))
    } else {
        None
    }
}

/// `a` and `b` hold the same items, in whatever order.
pub open spec fn same_items(a: Seq<BoardItem>, b: Seq<BoardItem>) -> bool {
    &&& forall|i: int| 0 <= i < a.len() ==> b.contains(#[trigger] a[i])
    &&& forall|j: int| 0 <= j < b.len() ==> a.contains(#[trigger] b[j])
}

proof fn lemma_bottom_bounded(a: Seq<BoardItem>, b: Seq<BoardItem>)
    requires
        forall|j: int| 0 <= j < b.len() ==> a.contains(#[trigger] b[j]),
    ensures
        items_bottom(b) <= items_bottom(a),
{
    lemma_items_bottom(a);
    lemma_items_bottom(b);
    if items_bottom(b) != 0 {
        let (i, j) = choose|i: int, j: int|
            0 <= i < b.len() && 0 <= j < b[i].positions().len() && (
            #[trigger] b[i].positions()[j]).bottom() == items_bottom(b);
        assert(a.contains(b[i]));
        let k = choose|k: int| 0 <= k < a.len() && a[k] == b[i];
        assert(a[k].positions()[j].bottom() <= items_bottom(a));
    }
}

proof fn lemma_taken_transfers(a: Seq<BoardItem>, b: Seq<BoardItem>, bottom: int, c: int)
    requires
        forall|i: int| 0 <= i < a.len() ==> b.contains(#[trigger] a[i]),
        column_taken(a, bottom, c),
    ensures
        column_taken(b, bottom, c),
{
    let (i, j) = choose|i: int, j: int|
        0 <= i < a.len() && 0 <= j < a[i].positions().len() && ends_over(
            #[trigger] a[i].positions()[j],
            bottom,
            c,
        );
    assert(b.contains(a[i]));
    let k = choose|k: int| 0 <= k < b.len() && b[k] == a[i];
    assert(ends_over(b[k].positions()[j], bottom, c));
}

proof fn lemma_first_free_same(
    a: Seq<BoardItem>,
    b: Seq<BoardItem>,
    bottom: int,
    from: int,
    count: int,
)
    requires
        same_items(a, b),
    ensures
        first_free_from(a, bottom, from, count) == first_free_from(b, bottom, from, count),
    decreases count - from,
{
    if from < count {
        if column_taken(a, bottom, from) {
            lemma_taken_transfers(a, b, bottom, from);
        }
        if column_taken(b, bottom, from) {
            lemma_taken_transfers(b, a, bottom, from);
        }
        lemma_first_free_same(a, b, bottom, from + 1, count);
    }
}

/// The position depends on which items there are, not on their order: two
/// lists of the same items give the same position.
pub proof fn law_order_of_items_does_not_matter(a: Seq<BoardItem>, b: Seq<BoardItem>, count: int)
    requires
        same_items(a, b),
    ensures
        next_position(a, count) == next_position(b, count),
{
    lemma_bottom_bounded(a, b);
    lemma_bottom_bounded(b, a);
    lemma_first_free_same(a, b, items_bottom(a), 0, count);
}

} // verus!
