use homarr_container_adapter::board::{check_items_in_range, BoardItem, ItemLayout};
use homarr_container_adapter::homarr::HomarrClient;
use homarr_container_adapter::items::items_from_json;
use homarr_container_adapter::placement::{find_next_position, place_next};
use serde_json::Value;

fn create_test_client() -> HomarrClient {
    HomarrClient::new("http://localhost:7575").unwrap()
}

fn layout(x: i32, y: i32, w: i32, h: i32) -> ItemLayout {
    ItemLayout {
        layout_id: String::new(),
        section_id: String::new(),
        width: Some(w),
        height: Some(h),
        x_offset: Some(x),
        y_offset: Some(y),
    }
}

fn item_at(x: i32, y: i32, w: i32, h: i32) -> BoardItem {
    BoardItem {
        id: String::new(),
        kind: String::new(),
        app_id: None,
        layouts: Some(vec![layout(x, y, w, h)]),
        source: None,
    }
}

fn object(members: Vec<(&str, Value)>) -> Value {
    let mut map = serde_json::Map::new();
    for (key, value) in members {
        map.insert(key.to_string(), value);
    }
    Value::Object(map)
}

/// `{"layouts": [{"xOffset": x, "yOffset": y, "width": w, "height": h}]}`
fn json_item(x: i64, y: i64, w: i64, h: i64) -> Value {
    object(vec![(
        "layouts",
        Value::Array(vec![object(vec![
            ("xOffset", Value::from(x)),
            ("yOffset", Value::from(y)),
            ("width", Value::from(w)),
            ("height", Value::from(h)),
        ])]),
    )])
}

#[test]
fn test_find_next_position_empty_board() {
    let client = create_test_client();
    let items: Vec<Value> = vec![];
    let (x, y) = client.find_next_position(&items_from_json(items), 10);
    assert_eq!((x, y), (0, 0));
}

#[test]
fn test_find_next_position_single_item() {
    let client = create_test_client();
    let items = vec![json_item(0, 0, 1, 1)];
    let (x, y) = client.find_next_position(&items_from_json(items), 10);
    // Should place next to the existing item
    assert_eq!((x, y), (1, 0));
}

#[test]
fn test_find_next_position_full_row() {
    let client = create_test_client();
    // Fill all 10 columns in row 0
    let items: Vec<Value> = (0..10).map(|i| json_item(i, 0, 1, 1)).collect();
    let (x, y) = client.find_next_position(&items_from_json(items), 10);
    // Should start a new row
    assert_eq!((x, y), (0, 1));
}

#[test]
fn test_find_next_position_with_gap() {
    let client = create_test_client();
    // Items at positions 0 and 2, leaving gap at 1
    let items = vec![json_item(0, 0, 1, 1), json_item(2, 0, 1, 1)];
    let (x, y) = client.find_next_position(&items_from_json(items), 10);
    // Should fill the gap at position 1
    assert_eq!((x, y), (1, 0));
}

#[test]
fn test_find_next_position_wide_item() {
    let client = create_test_client();
    // Wide item taking columns 0-2
    let items = vec![json_item(0, 0, 3, 1)];
    let (x, y) = client.find_next_position(&items_from_json(items), 10);
    // Should place at column 3
    assert_eq!((x, y), (3, 0));
}

#[test]
fn test_find_next_position_tall_item() {
    let client = create_test_client();
    // Tall item at position 0
    let items = vec![json_item(0, 0, 1, 3)];
    let (x, y) = client.find_next_position(&items_from_json(items), 10);
    // Should place in the same row but different column
    assert_eq!((x, y), (1, 2));
}

#[test]
fn test_find_next_position_multiple_rows() {
    let client = create_test_client();
    // Items in multiple rows
    let items = vec![json_item(0, 0, 10, 1), json_item(0, 1, 5, 1)];
    let (x, y) = client.find_next_position(&items_from_json(items), 10);
    // Should place after the item in row 1
    assert_eq!((x, y), (5, 1));
}

#[test]
fn test_find_next_position_small_column_count() {
    let client = create_test_client();
    // Fill a 3-column board
    let items: Vec<Value> = (0..3).map(|i| json_item(i, 0, 1, 1)).collect();
    let (x, y) = client.find_next_position(&items_from_json(items), 3);
    // Should start a new row
    assert_eq!((x, y), (0, 1));
}

#[test]
fn test_find_next_position_items_without_layouts() {
    let client = create_test_client();
    // Items missing layouts field
    let items = vec![
        object(vec![("id", Value::from("item1"))]),
        object(vec![("layouts", Value::Array(vec![]))]),
    ];
    let (x, y) = client.find_next_position(&items_from_json(items), 10);
    // Should handle gracefully and start at origin
    assert_eq!((x, y), (0, 0));
}

#[test]
fn next_position_does_not_depend_on_the_order_of_items() {
    let forward = vec![item_at(0, 0, 2, 1), item_at(3, 0, 1, 1), item_at(0, 1, 1, 1)];
    let backward = vec![item_at(0, 1, 1, 1), item_at(3, 0, 1, 1), item_at(0, 0, 2, 1)];
    assert_eq!(find_next_position(&forward, 12), (1, 1));
    assert_eq!(find_next_position(&backward, 12), (1, 1));
}

#[test]
fn next_position_does_not_fill_gaps_in_earlier_rows() {
    // Row 0 has a gap at column 1; the lowest row is row 1.
    let items = vec![item_at(0, 0, 1, 1), item_at(2, 0, 1, 1), item_at(0, 1, 1, 1)];
    assert_eq!(find_next_position(&items, 12), (1, 1));
}

#[test]
fn next_position_counts_missing_coordinates_as_defaults() {
    // No coordinates at all: the item sits at (0, 0) and is 1 by 1.
    let bare = BoardItem {
        id: String::new(),
        kind: String::new(),
        app_id: None,
        layouts: Some(vec![ItemLayout {
            layout_id: String::new(),
            section_id: String::new(),
            width: None,
            height: None,
            x_offset: None,
            y_offset: None,
        }]),
        source: None,
    };
    assert_eq!(find_next_position(&vec![bare], 12), (1, 0));
}

#[test]
fn next_position_counts_every_layout_of_an_item() {
    let item = BoardItem {
        id: String::new(),
        kind: String::new(),
        app_id: None,
        layouts: Some(vec![layout(0, 0, 1, 1), layout(0, 4, 2, 1)]),
        source: None,
    };
    assert_eq!(find_next_position(&vec![item], 12), (2, 4));
}

#[test]
fn next_position_without_columns_starts_a_new_row() {
    assert_eq!(find_next_position(&vec![item_at(0, 0, 1, 1)], 0), (0, 1));
    assert_eq!(find_next_position(&vec![], 0), (0, 0));
    assert_eq!(find_next_position(&vec![item_at(0, 0, 1, 1)], -3), (0, 1));
}

#[test]
fn next_position_with_items_that_end_above_the_grid() {
    // Bottom edge 0: the item counts for row 0, which is the first row.
    let items = vec![item_at(0, -1, 1, 1)];
    assert_eq!(find_next_position(&items, 12), (1, 0));
    // Bottom edge below zero: the item counts for nothing.
    let items = vec![item_at(0, -5, 1, 1)];
    assert_eq!(find_next_position(&items, 12), (0, 0));
}

#[test]
fn range_check_tells_representable_edges() {
    assert!(check_items_in_range(&vec![item_at(0, 0, 1, 1)]));
    assert!(check_items_in_range(&vec![item_at(i32::MAX - 1, 0, 1, 1)]));
    assert!(!check_items_in_range(&vec![item_at(i32::MAX, 0, 1, 1)]));
    assert!(!check_items_in_range(&vec![item_at(0, i32::MAX, 1, 1)]));
    assert!(!check_items_in_range(&vec![item_at(0, i32::MIN, 1, -1)]));
    assert!(check_items_in_range(&vec![]));
}

#[test]
fn json_items_without_coordinates_count_as_defaults() {
    // A layout without any coordinate, one with text in place of numbers,
    // and an item whose layouts are no array.
    let items = vec![
        object(vec![("layouts", Value::Array(vec![object(vec![])]))]),
        object(vec![(
            "layouts",
            Value::Array(vec![object(vec![
                ("xOffset", Value::from("1")),
                ("yOffset", Value::Null),
                ("width", Value::Bool(true)),
            ])]),
        )]),
        object(vec![("layouts", Value::from("none"))]),
        Value::Null,
    ];
    let items = items_from_json(items);
    assert_eq!(items.len(), 4);
    assert_eq!(items[0].layouts.as_ref().unwrap().len(), 1);
    assert_eq!(items[0].layouts.as_ref().unwrap()[0].x_offset, None);
    assert_eq!(items[1].layouts.as_ref().unwrap()[0].width, None);
    assert!(items[2].layouts.is_none());
    assert!(items[3].layouts.is_none());
    assert_eq!(find_next_position(&items, 10), (1, 0));
}

#[test]
fn json_numbers_beyond_32_bits_are_cut_down() {
    let items = items_from_json(vec![json_item((1i64 << 32) + 3, 0, 1, 1)]);
    assert_eq!(items[0].layouts.as_ref().unwrap()[0].x_offset, Some(3));
    // A number that no i64 holds is no coordinate.
    let items = items_from_json(vec![object(vec![(
        "layouts",
        Value::Array(vec![object(vec![("xOffset", Value::from(u64::MAX))])]),
    )])]);
    assert_eq!(items[0].layouts.as_ref().unwrap()[0].x_offset, None);
}

#[test]
fn place_next_refuses_what_it_cannot_compute() {
    assert_eq!(place_next(&vec![item_at(0, 0, 1, 1)], 12), Some((1, 0)));
    assert_eq!(place_next(&vec![], 12), Some((0, 0)));
    assert_eq!(place_next(&vec![item_at(0, i32::MAX, 1, 1)], 12), None);
}
