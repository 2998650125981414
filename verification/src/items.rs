//! Board items as JSON: how an item is read from what the dashboard sent,
//! and how the items of a board are written for the dashboard.

use vstd::prelude::*;
use crate::board::{BoardItem, ItemLayout};
use crate::json::{
    json_array, json_as_array, json_as_i64, json_as_str, json_get, json_map_insert, json_map_new,
    json_model, json_models, json_null, json_number, json_object, json_string, no_members,
    JsonModel,
};
use crate::text::opt_text;

verus! {

/// The text of the member of `m` under `key`.
pub open spec fn member_text(m: JsonModel, key: Seq<char>) -> Option<Seq<char>> {
    match m.member(key) {
        Some(member) => member.text(),
        None => None,
    }
}

/// The integer of the member of `m` under `key`.
pub open spec fn member_integer(m: JsonModel, key: Seq<char>) -> Option<i64> {
    match m.member(key) {
        Some(member) => member.integer(),
        None => None,
    }
}

/// The integer of the member of `m` under `key`, cut down to 32 bits.
pub open spec fn member_number(m: JsonModel, key: Seq<char>) -> Option<i32> {
    match member_integer(m, key) {
        Some(n) => Some(n as i32),
        None => None,
    }
}

/// The elements of the member of `m` under `key`.
pub open spec fn member_elements(m: JsonModel, key: Seq<char>) -> Option<Seq<JsonModel>> {
    match m.member(key) {
        Some(member) => member.elements(),
        None => None,
    }
}

/// A text, or the empty text in its place.
pub open spec fn text_or_empty(text: Option<Seq<char>>) -> Seq<char> {
    match text {
        Some(t) => t,
        None => Seq::empty(),
    }
}

/// The app that the item `m` shows: the text under `appId` in its options.
pub open spec fn app_id_of(m: JsonModel) -> Option<Seq<char>> {
    match m.member("options"@) {
        Some(options) => member_text(options, "appId"@),
        None => None,
    }
}

/// `layout` is what `m` says of a position.
pub open spec fn layout_reads_as(layout: ItemLayout, m: JsonModel) -> bool {
    &&& layout.layout_id@ == text_or_empty(member_text(m, "layoutId"@))
    &&& layout.section_id@ == text_or_empty(member_text(m, "sectionId"@))
    &&& layout.width == member_number(m, "width"@)
    &&& layout.height == member_number(m, "height"@)
    &&& layout.x_offset == member_number(m, "xOffset"@)
    &&& layout.y_offset == member_number(m, "yOffset"@)
}

/// `layouts` are what `elements` say of positions, one by one.
pub open spec fn layouts_read_as(layouts: Seq<ItemLayout>, elements: Seq<JsonModel>) -> bool {
    &&& layouts.len() == elements.len()
    &&& forall|i: int| 0 <= i < layouts.len() ==> layout_reads_as(#[trigger] layouts[i], elements[i])
}

/// `item` is what `m` says of an item.
///
/// An item without the member `layouts`, or whose `layouts` is no array,
/// has no positions. Texts that are missing are empty; coordinates that are
/// missing or no integers are left open.
pub open spec fn reads_as(item: BoardItem, m: JsonModel) -> bool {
    &&& item.id@ == text_or_empty(member_text(m, "id"@))
    &&& item.kind@ == text_or_empty(member_text(m, "kind"@))
    &&& opt_text(item.app_id) == app_id_of(m)
    &&& match member_elements(m, "layouts"@) {
        Some(elements) => item.layouts matches Some(layouts) && layouts_read_as(
            layouts@,
            elements,
        ),
        None => item.layouts is None,
    }
}

/// `item` is the item that was read from `v`, and carries `v` as its
/// source.
pub open spec fn read_from(item: BoardItem, v: serde_json::Value) -> bool {
    reads_as(item, json_model(v)) && item.source == Some(v)
}

fn read_text(v: &serde_json::Value, key: &str) -> (r: String)
    ensures
        r@ == text_or_empty(member_text(json_model(*v), key@)),
{
    match json_get(v, key) {
        Some(member) => match json_as_str(member) {
            Some(text) => text.to_owned(),
            None => String::new(),
        },
        None => String::new(),
    }
}

fn read_number(v: &serde_json::Value, key: &str) -> (r: Option<i32>)
    ensures
        r == member_number(json_model(*v), key@),
{
    match json_get(v, key) {
        Some(member) => match json_as_i64(member) {
            Some(n) => Some(#[verifier::truncate] (n as i32)),
            None => None,
        },
        None => None,
    }
}

fn read_layout(v: &serde_json::Value) -> (layout: ItemLayout)
    ensures
        layout_reads_as(layout, json_model(*v)),
{
    ItemLayout {
        layout_id: read_text(v, "layoutId"),
        section_id: read_text(v, "sectionId"),
        width: read_number(v, "width"),
        height: read_number(v, "height"),
        x_offset: read_number(v, "xOffset"),
        y_offset: read_number(v, "yOffset"),
    }
}

fn read_layouts(elements: &Vec<serde_json::Value>) -> (layouts: Vec<ItemLayout>)
    ensures
        layouts_read_as(layouts@, json_models(elements@)),
{
    let mut layouts: Vec<ItemLayout> = Vec::new();
    let mut i: usize = 0;
    while i < elements.len()
        invariant
            i <= elements.len(),
            layouts@.len() == i,
            forall|k: int|
                0 <= k < i ==> layout_reads_as(#[trigger] layouts@[k], json_models(elements@)[k]),
        decreases elements.len() - i,
    {
        layouts.push(read_layout(&elements[i]));
        i += 1;
    }
    layouts
}

impl BoardItem {
    /// Reads an item from what the dashboard sent, and keeps that.
    pub fn from_json(value: serde_json::Value) -> (item: BoardItem)
        ensures
            read_from(item, value),
    {
        let id = read_text(&value, "id");
        let kind = read_text(&value, "kind");
        let app_id = match json_get(&value, "options") {
            Some(options) => match json_get(options, "appId") {
                Some(member) => match json_as_str(member) {
                    Some(text) => Some(text.to_owned()),
                    None => None,
                },
                None => None,
            },
            None => None,
        };
        let layouts = match json_get(&value, "layouts") {
            Some(member) => match json_as_array(member) {
                Some(elements) => Some(read_layouts(elements)),
                None => None,
            },
            None => None,
        };
        BoardItem { id, kind, app_id, layouts, source: Some(value) }
    }
}

/// Reads the items of a board, in their order.
pub fn items_from_json(values: Vec<serde_json::Value>) -> (items: Vec<BoardItem>)
    ensures
        items@.len() == values@.len(),
        forall|i: int| 0 <= i < items@.len() ==> read_from(#[trigger] items@[i], values@[i]),
{
    let mut items: Vec<BoardItem> = Vec::new();
    for value in iter: values
        invariant
            iter.seq() == values@,
            items@.len() == iter.index(),
            forall|i: int| 0 <= i < items@.len() ==> read_from(#[trigger] items@[i], values@[i]),
    {
        items.push(BoardItem::from_json(value));
    }
    items
}

/// An optional coordinate as it is written: the number, or `null` for a
/// coordinate that is left open.
pub open spec fn number_model(n: Option<i32>) -> JsonModel {
    match n {
        Some(w) => JsonModel::Integer(w as i64),
        None => JsonModel::Null,
    }
}

/// An optional text as it is written: the text, or `null` where there is
/// none.
pub open spec fn text_model(text: Option<String>) -> JsonModel {
    match text {
        Some(t) => JsonModel::Text(t@),
        None => JsonModel::Null,
    }
}

/// An empty array.
pub open spec fn empty_array() -> JsonModel {
    JsonModel::Array(Seq::empty())
}

/// A position as the adapter writes it: the two ids as texts and the four
/// coordinates.
pub open spec fn layout_model(layout: ItemLayout) -> JsonModel {
    JsonModel::Object(
        no_members().insert("layoutId"@, JsonModel::Text(layout.layout_id@)).insert(
            "sectionId"@,
            JsonModel::Text(layout.section_id@),
        ).insert("width"@, number_model(layout.width)).insert(
            "height"@,
            number_model(layout.height),
        ).insert("xOffset"@, number_model(layout.x_offset)).insert(
            "yOffset"@,
            number_model(layout.y_offset),
        ),
    )
}

/// Positions as the adapter writes them, one by one.
pub open spec fn layout_models(layouts: Seq<ItemLayout>) -> Seq<JsonModel> {
    Seq::new(layouts.len(), |i: int| layout_model(layouts[i]))
}

/// The members of an item but its positions.
pub open spec fn item_head(item: BoardItem) -> Map<Seq<char>, JsonModel> {
    no_members().insert("id"@, JsonModel::Text(item.id@)).insert(
        "kind"@,
        JsonModel::Text(item.kind@),
    ).insert(
        "options"@,
        JsonModel::Object(no_members().insert("appId"@, text_model(item.app_id))),
    )
}

/// An item as the adapter writes an item of its own making: id and kind,
/// the app under `options`, the positions under `layouts` where the item
/// has positions, and neither integrations nor style classes.
pub open spec fn item_model(item: BoardItem) -> JsonModel {
    let head = match item.layouts {
        Some(layouts) => item_head(item).insert(
            "layouts"@,
            JsonModel::Array(layout_models(layouts@)),
        ),
        None => item_head(item),
    };
    JsonModel::Object(
        head.insert("integrationIds"@, empty_array()).insert(
            "advancedOptions"@,
            JsonModel::Object(no_members().insert("customCssClasses"@, empty_array())),
        ),
    )
}

/// What is sent for an item: what the dashboard sent, for an item that
/// was read from it, and the item as the adapter writes it, for an item of
/// the adapter's making.
pub open spec fn sent_model(item: BoardItem) -> JsonModel {
    match item.source {
        Some(source) => json_model(source),
        None => item_model(item),
    }
}

/// What is sent for the items `items`, one by one.
pub open spec fn sent_models(items: Seq<BoardItem>) -> Seq<JsonModel> {
    Seq::new(items.len(), |i: int| sent_model(items[i]))
}

/// `v` is what is sent for `item`. An item that was read is sent as the
/// very value that was read.
pub open spec fn item_sent(v: serde_json::Value, item: BoardItem) -> bool {
    match item.source {
        Some(source) => v == source,
        None => json_model(v) == item_model(item),
    }
}

fn write_number(n: Option<i32>) -> (r: serde_json::Value)
    ensures
        json_model(r) == number_model(n),
{
    match n {
        Some(w) => json_number(w as i64),
        None => json_null(),
    }
}

fn write_text(text: &Option<String>) -> (r: serde_json::Value)
    ensures
        json_model(r) == text_model(*text),
{
    match text {
        Some(t) => json_string(t.clone()),
        None => json_null(),
    }
}

fn write_empty_array() -> (r: serde_json::Value)
    ensures
        json_model(r) == empty_array(),
{
    let r = json_array(Vec::new());
    assert(json_models(Seq::<serde_json::Value>::empty()) =~= Seq::<JsonModel>::empty());
    r
}

fn write_layout(layout: &ItemLayout) -> (r: serde_json::Value)
    ensures
        json_model(r) == layout_model(*layout),
{
    let mut members = json_map_new();
    json_map_insert(&mut members, "layoutId".to_owned(), json_string(layout.layout_id.clone()));
    json_map_insert(&mut members, "sectionId".to_owned(), json_string(layout.section_id.clone()));
    json_map_insert(&mut members, "width".to_owned(), write_number(layout.width));
    json_map_insert(&mut members, "height".to_owned(), write_number(layout.height));
    json_map_insert(&mut members, "xOffset".to_owned(), write_number(layout.x_offset));
    json_map_insert(&mut members, "yOffset".to_owned(), write_number(layout.y_offset));
    json_object(members)
}

fn write_layouts(layouts: &Vec<ItemLayout>) -> (r: serde_json::Value)
    ensures
        json_model(r) == JsonModel::Array(layout_models(layouts@)),
{
    let mut written: Vec<serde_json::Value> = Vec::new();
    let mut i: usize = 0;
    while i < layouts.len()
        invariant
            i <= layouts.len(),
            written@.len() == i,
            forall|k: int| 0 <= k < i ==> json_model(#[trigger] written@[k]) == layout_model(
                layouts@[k],
            ),
        decreases layouts.len() - i,
    {
        written.push(write_layout(&layouts[i]));
        i += 1;
    }
    assert(json_models(written@) =~= layout_models(layouts@));
    json_array(written)
}

fn write_item(item: &BoardItem) -> (r: serde_json::Value)
    ensures
        json_model(r) == item_model(*item),
{
    let mut options = json_map_new();
    json_map_insert(&mut options, "appId".to_owned(), write_text(&item.app_id));
    let mut advanced = json_map_new();
    json_map_insert(&mut advanced, "customCssClasses".to_owned(), write_empty_array());
    let mut members = json_map_new();
    json_map_insert(&mut members, "id".to_owned(), json_string(item.id.clone()));
    json_map_insert(&mut members, "kind".to_owned(), json_string(item.kind.clone()));
    json_map_insert(&mut members, "options".to_owned(), json_object(options));
    match &item.layouts {
        Some(layouts) => {
            json_map_insert(&mut members, "layouts".to_owned(), write_layouts(layouts));
        },
        None => {},
    }
    json_map_insert(&mut members, "integrationIds".to_owned(), write_empty_array());
    json_map_insert(&mut members, "advancedOptions".to_owned(), json_object(advanced));
    json_object(members)
}

/// Writes the items of a board, in their order.
pub fn items_to_json(items: Vec<BoardItem>) -> (values: Vec<serde_json::Value>)
    ensures
        values@.len() == items@.len(),
        forall|i: int| 0 <= i < values@.len() ==> item_sent(#[trigger] values@[i], items@[i]),
        json_models(values@) == sent_models(items@),
{
    let mut values: Vec<serde_json::Value> = Vec::new();
    for item in iter: items
        invariant
            iter.seq() == items@,
            values@.len() == iter.index(),
            forall|i: int| 0 <= i < values@.len() ==> item_sent(#[trigger] values@[i], items@[i]),
    {
        let value = match item.source {
            Some(source) => source,
            None => write_item(&item),
        };
        values.push(value);
    }
    assert(json_models(values@) =~= sent_models(items@));
    values
}

/// The keys of an item and of a position are pairwise different.
pub proof fn lemma_item_keys_differ()
    ensures
        "id"@ != "kind"@,
        "id"@ != "options"@,
        "id"@ != "layouts"@,
        "id"@ != "integrationIds"@,
        "id"@ != "advancedOptions"@,
        "kind"@ != "options"@,
        "kind"@ != "layouts"@,
        "kind"@ != "integrationIds"@,
        "kind"@ != "advancedOptions"@,
        "options"@ != "layouts"@,
        "options"@ != "integrationIds"@,
        "options"@ != "advancedOptions"@,
        "layouts"@ != "integrationIds"@,
        "layouts"@ != "advancedOptions"@,
        "integrationIds"@ != "advancedOptions"@,
        "layoutId"@ != "sectionId"@,
        "layoutId"@ != "width"@,
        "layoutId"@ != "height"@,
        "layoutId"@ != "xOffset"@,
        "layoutId"@ != "yOffset"@,
        "sectionId"@ != "width"@,
        "sectionId"@ != "height"@,
        "sectionId"@ != "xOffset"@,
        "sectionId"@ != "yOffset"@,
        "width"@ != "height"@,
        "width"@ != "xOffset"@,
        "width"@ != "yOffset"@,
        "height"@ != "xOffset"@,
        "height"@ != "yOffset"@,
        "xOffset"@ != "yOffset"@,
{
    reveal_strlit("id");
    reveal_strlit("kind");
    reveal_strlit("options");
    reveal_strlit("layouts");
    reveal_strlit("integrationIds");
    reveal_strlit("advancedOptions");
    reveal_strlit("layoutId");
    reveal_strlit("sectionId");
    reveal_strlit("width");
    reveal_strlit("height");
    reveal_strlit("xOffset");
    reveal_strlit("yOffset");
    assert("id"@.len() == 2);
    assert("kind"@.len() == 4);
    assert("options"@.len() == 7);
    assert("layouts"@.len() == 7);
    assert("integrationIds"@.len() == 14);
    assert("advancedOptions"@.len() == 15);
    assert("layoutId"@.len() == 8);
    assert("sectionId"@.len() == 9);
    assert("width"@.len() == 5);
    assert("height"@.len() == 6);
    assert("xOffset"@.len() == 7);
    assert("yOffset"@.len() == 7);
    assert("options"@[0] != "layouts"@[0]);
    assert("xOffset"@[0] != "yOffset"@[0]);
}

/// The tile that an item stands for: what the adapter understands of it.
pub open spec fn same_tile(a: BoardItem, b: BoardItem) -> bool {
    &&& a.id@ == b.id@
    &&& a.kind@ == b.kind@
    &&& opt_text(a.app_id) == opt_text(b.app_id)
    &&& a.layouts is Some <==> b.layouts is Some
    &&& a.positions().len() == b.positions().len()
    &&& forall|i: int|
        0 <= i < a.positions().len() ==> {
            &&& (#[trigger] a.positions()[i]).layout_id@ == b.positions()[i].layout_id@
            &&& a.positions()[i].section_id@ == b.positions()[i].section_id@
            &&& a.positions()[i].width == b.positions()[i].width
            &&& a.positions()[i].height == b.positions()[i].height
            &&& a.positions()[i].x_offset == b.positions()[i].x_offset
            &&& a.positions()[i].y_offset == b.positions()[i].y_offset
        }
}

/// An item that the adapter wrote is read back as the tile that was
/// written: with the same id, for the same app, at the same positions.
pub proof fn law_written_item_reads_back(item: BoardItem, back: BoardItem)
    requires
        reads_as(back, item_model(item)),
    ensures
        same_tile(back, item),
        forall|app_id: Seq<char>| back.shows(app_id) == item.shows(app_id),
{
    lemma_item_keys_differ();
    let m = item_model(item);
    assert(m.member("id"@) == Some(JsonModel::Text(item.id@)));
    assert(m.member("kind"@) == Some(JsonModel::Text(item.kind@)));
    let options = JsonModel::Object(no_members().insert("appId"@, text_model(item.app_id)));
    assert(m.member("options"@) == Some(options));
    assert(options.member("appId"@) == Some(text_model(item.app_id)));
    match item.layouts {
        Some(layouts) => {
            assert(m.member("layouts"@) == Some(JsonModel::Array(layout_models(layouts@))));
            let elements = layout_models(layouts@);
            assert forall|i: int| 0 <= i < back.positions().len() implies {
                &&& (#[trigger] back.positions()[i]).layout_id@ == item.positions()[i].layout_id@
                &&& back.positions()[i].section_id@ == item.positions()[i].section_id@
                &&& back.positions()[i].width == item.positions()[i].width
                &&& back.positions()[i].height == item.positions()[i].height
                &&& back.positions()[i].x_offset == item.positions()[i].x_offset
                &&& back.positions()[i].y_offset == item.positions()[i].y_offset
            } by {
                let l = layouts@[i];
                let lm = layout_model(l);
                assert(elements[i] == lm);
                assert(layout_reads_as(back.positions()[i], lm));
                assert(lm.member("layoutId"@) == Some(JsonModel::Text(l.layout_id@)));
                assert(lm.member("sectionId"@) == Some(JsonModel::Text(l.section_id@)));
                assert(lm.member("width"@) == Some(number_model(l.width)));
                assert(lm.member("height"@) == Some(number_model(l.height)));
                assert(lm.member("xOffset"@) == Some(number_model(l.x_offset)));
                assert(lm.member("yOffset"@) == Some(number_model(l.y_offset)));
            }
        },
        None => {
            assert(m.member("layouts"@) is None);
        },
    }
}

/// Items that were read are sent as they were received: whatever the
/// dashboard keeps in an item, the adapter hands it back untouched.
pub proof fn law_read_items_are_sent_as_received(
    values: Seq<serde_json::Value>,
    items: Seq<BoardItem>,
    sent: Seq<serde_json::Value>,
)
    requires
        items.len() == values.len(),
        forall|i: int| 0 <= i < items.len() ==> read_from(#[trigger] items[i], values[i]),
        sent.len() == items.len(),
        forall|i: int| 0 <= i < sent.len() ==> item_sent(#[trigger] sent[i], items[i]),
    ensures
        sent == values,
        sent_models(items) == json_models(values),
{
    assert forall|i: int| 0 <= i < sent.len() implies sent[i] == values[i] by {
        assert(read_from(items[i], values[i]));
        assert(item_sent(sent[i], items[i]));
    }
    assert(sent =~= values);
    assert(sent_models(items) =~= json_models(values)) by {
        assert forall|i: int| 0 <= i < items.len() implies sent_models(items)[i] == json_models(
            values,
        )[i] by {
            assert(read_from(items[i], values[i]));
        }
    }
}

} // verus!
