//! The JSON that goes to the dashboard and comes from it.
//!
//! Most answers come wrapped: what was asked for lies under `result`,
//! `data`, `json`. An answer that lacks what was asked for is malformed,
//! whatever else it holds; members that were not asked for are passed over.
//! What is sent is wrapped too: the argument of a request lies under
//! `json`.

use vstd::prelude::*;
use crate::board::{Board, BoardInfo, Layout, Section};
use crate::branding::{AnalyticsSettings, CrawlingSettings};
use crate::homarr::{OnboardingStep, SelectableApp};
use crate::http::{AppPayload, BoardSettings, Payload, Reply};
use crate::items::{
    empty_array, items_from_json, items_to_json, member_elements, member_integer, member_text,
    read_from, sent_models, text_model,
};
use crate::json::{
    json_array, json_as_array, json_as_i64, json_as_str, json_bool, json_clone, json_fields,
    json_get, json_map_insert, json_map_new, json_model, json_models, json_number, json_object,
    json_parsed, json_string, no_members, parse_json, JsonMembers, JsonModel,
};
use crate::text::{concat, opt_text};

verus! {

/// What an answer was asked for: the member under `result`, `data`,
/// `json`.
pub open spec fn enveloped(m: JsonModel) -> Option<JsonModel> {
    match m.member("result"@) {
        Some(result) => match result.member("data"@) {
            Some(data) => data.member("json"@),
            None => None,
        },
        None => None,
    }
}

/// The complaint about an answer that is not wrapped as answers are.
pub const NO_RESULT: &'static str = "the answer holds no result";

/// The complaint about an answer that lacks the member `key`, or has
/// something else than was expected under it.
pub open spec fn missing(key: Seq<char>) -> Seq<char> {
    "missing or malformed member "@ + key
}

fn complain(key: &str) -> (m: String)
    ensures
        m@ == missing(key@),
{
    concat("missing or malformed member ", key)
}

fn unwrap_envelope<'a>(v: &'a serde_json::Value) -> (r: Option<&'a serde_json::Value>)
    ensures
        match r {
            Some(inner) => enveloped(json_model(*v)) == Some(json_model(*inner)),
            None => enveloped(json_model(*v)) is None,
        },
{
    match json_get(v, "result") {
        Some(result) => match json_get(result, "data") {
            Some(data) => json_get(data, "json"),
            None => None,
        },
        None => None,
    }
}

fn text_member(v: &serde_json::Value, key: &str) -> (r: Option<String>)
    ensures
        opt_text(r) == member_text(json_model(*v), key@),
{
    match json_get(v, key) {
        Some(member) => match json_as_str(member) {
            Some(text) => Some(text.to_owned()),
            None => None,
        },
        None => None,
    }
}

/// The integer of the member of `v` under `key`, where an `i32` holds it.
pub open spec fn member_i32(m: JsonModel, key: Seq<char>) -> Option<i32> {
    match member_integer(m, key) {
        Some(n) => if i32::MIN <= n <= i32::MAX {
            Some(n as i32)
        } else {
            None
        },
        None => None,
    }
}

fn i32_member(v: &serde_json::Value, key: &str) -> (r: Option<i32>)
    ensures
        r == member_i32(json_model(*v), key@),
{
    match json_get(v, key) {
        Some(member) => match json_as_i64(member) {
            Some(n) => if n >= i32::MIN as i64 && n <= i32::MAX as i64 {
                Some(n as i32)
            } else {
                None
            },
            None => None,
        },
        None => None,
    }
}

/// What reading the text under `key` of a wrapped answer comes to.
pub open spec fn wrapped_text(v: JsonModel, key: Seq<char>, r: Result<String, String>) -> bool {
    match enveloped(v) {
        Some(inner) => match member_text(inner, key) {
            Some(text) => r matches Ok(found) && found@ == text,
            None => r matches Err(m) && m@ == missing(key),
        },
        None => r matches Err(m) && m@ == NO_RESULT@,
    }
}

fn decode_wrapped_text(v: &serde_json::Value, key: &str) -> (r: Result<String, String>)
    ensures
        wrapped_text(json_model(*v), key@, r),
{
    match unwrap_envelope(v) {
        Some(inner) => match text_member(inner, key) {
            Some(text) => Ok(text),
            None => Err(complain(key)),
        },
        None => Err(NO_RESULT.to_owned()),
    }
}

/// The id of a board that was created: the text under `boardId`.
pub fn decode_created_board(v: &serde_json::Value) -> (r: Result<String, String>)
    ensures
        wrapped_text(json_model(*v), "boardId"@, r),
{
    decode_wrapped_text(v, "boardId")
}

/// The id of an app that was created: the text under `appId`.
pub fn decode_created_app(v: &serde_json::Value) -> (r: Result<String, String>)
    ensures
        wrapped_text(json_model(*v), "appId"@, r),
{
    decode_wrapped_text(v, "appId")
}

/// An API key that was handed out: the text under `apiKey`.
pub fn decode_api_key(v: &serde_json::Value) -> (r: Result<String, String>)
    ensures
        wrapped_text(json_model(*v), "apiKey"@, r),
{
    decode_wrapped_text(v, "apiKey")
}

/// What reading the token of a login comes to.
pub open spec fn csrf_read(v: JsonModel, r: Result<String, String>) -> bool {
    match member_text(v, "csrfToken"@) {
        Some(text) => r matches Ok(token) && token@ == text,
        None => r matches Err(m) && m@ == missing("csrfToken"@),
    }
}

/// The token that a login presents: the text under `csrfToken`. This
/// answer is not wrapped.
pub fn decode_csrf(v: &serde_json::Value) -> (r: Result<String, String>)
    ensures
        csrf_read(json_model(*v), r),
{
    match text_member(v, "csrfToken") {
        Some(token) => Ok(token),
        None => Err(complain("csrfToken")),
    }
}

/// What reading the step of onboarding comes to.
pub open spec fn step_read(v: JsonModel, r: Result<OnboardingStep, String>) -> bool {
    match enveloped(v) {
        Some(inner) => match member_text(inner, "current"@) {
            Some(current) => {
                &&& r matches Ok(step)
                &&& step.current@ == current
                &&& opt_text(step.previous) == member_text(inner, "previous"@)
            },
            None => r matches Err(m) && m@ == missing("current"@),
        },
        None => r matches Err(m) && m@ == NO_RESULT@,
    }
}

/// The step of onboarding: the text under `current`, and the text under
/// `previous` where there is one.
pub fn decode_step(v: &serde_json::Value) -> (r: Result<OnboardingStep, String>)
    ensures
        step_read(json_model(*v), r),
{
    match unwrap_envelope(v) {
        Some(inner) => match text_member(inner, "current") {
            Some(current) => Ok(
                OnboardingStep { current, previous: text_member(inner, "previous") },
            ),
            None => Err(complain("current")),
        },
        None => Err(NO_RESULT.to_owned()),
    }
}

/// `v` describes an app: it has texts under `id`, `name` and `iconUrl`.
pub open spec fn is_app(v: JsonModel) -> bool {
    &&& member_text(v, "id"@) is Some
    &&& member_text(v, "name"@) is Some
    &&& member_text(v, "iconUrl"@) is Some
}

/// `app` is the app that `v` describes.
pub open spec fn app_reads_as(app: SelectableApp, v: JsonModel) -> bool {
    &&& Some(app.id@) == member_text(v, "id"@)
    &&& Some(app.name@) == member_text(v, "name"@)
    &&& Some(app.icon_url@) == member_text(v, "iconUrl"@)
    &&& opt_text(app.href) == member_text(v, "href"@)
}

fn read_app(v: &serde_json::Value) -> (r: Option<SelectableApp>)
    ensures
        match r {
            Some(app) => is_app(json_model(*v)) && app_reads_as(app, json_model(*v)),
            None => !is_app(json_model(*v)),
        },
{
    let id = match text_member(v, "id") {
        Some(id) => id,
        None => {
            return None;
        },
    };
    let name = match text_member(v, "name") {
        Some(name) => name,
        None => {
            return None;
        },
    };
    let icon_url = match text_member(v, "iconUrl") {
        Some(icon_url) => icon_url,
        None => {
            return None;
        },
    };
    Some(SelectableApp { id, name, icon_url, href: text_member(v, "href") })
}

/// What reading a wrapped list comes to: the list where every element is
/// well formed, a complaint about the whole where one is not.
pub open spec fn wrapped_list<T>(
    v: JsonModel,
    well_formed: spec_fn(JsonModel) -> bool,
    reads: spec_fn(T, JsonModel) -> bool,
    what: Seq<char>,
    r: Result<Vec<T>, String>,
) -> bool {
    match enveloped(v) {
        Some(inner) => match inner.elements() {
            Some(elements) => if forall|i: int|
                0 <= i < elements.len() ==> well_formed(#[trigger] elements[i]) {
                &&& r matches Ok(list)
                &&& list@.len() == elements.len()
                &&& forall|i: int| 0 <= i < list@.len() ==> reads(#[trigger] list@[i], elements[i])
            } else {
                r matches Err(m) && m@ == missing(what)
            },
            None => r matches Err(m) && m@ == missing(what),
        },
        None => r matches Err(m) && m@ == NO_RESULT@,
    }
}

/// What reading the list of apps comes to.
pub open spec fn apps_read(v: JsonModel, r: Result<Vec<SelectableApp>, String>) -> bool {
    wrapped_list(
        v,
        |e: JsonModel| is_app(e),
        |app: SelectableApp, e: JsonModel| app_reads_as(app, e),
        "apps"@,
        r,
    )
}

/// The apps that the dashboard lists.
pub fn decode_apps(v: &serde_json::Value) -> (r: Result<Vec<SelectableApp>, String>)
    ensures
        apps_read(json_model(*v), r),
{
    let inner = match unwrap_envelope(v) {
        Some(inner) => inner,
        None => {
            return Err(NO_RESULT.to_owned());
        },
    };
    let elements = match json_as_array(inner) {
        Some(elements) => elements,
        None => {
            return Err(complain("apps"));
        },
    };
    let mut apps: Vec<SelectableApp> = Vec::new();
    let mut i: usize = 0;
    while i < elements.len()
        invariant
            i <= elements.len(),
            apps@.len() == i,
            enveloped(json_model(*v)) == Some(json_model(*inner)),
            json_model(*inner).elements() == Some(json_models(elements@)),
            forall|k: int| 0 <= k < i ==> is_app(#[trigger] json_models(elements@)[k]),
            forall|k: int|
                0 <= k < i ==> app_reads_as(#[trigger] apps@[k], json_models(elements@)[k]),
        decreases elements.len() - i,
    {
        match read_app(&elements[i]) {
            Some(app) => apps.push(app),
            None => {
                assert(!is_app(json_models(elements@)[i as int]));
                assert(json_model(*inner).elements()->0 == json_models(elements@));
                return Err(complain("apps"));
            },
        }
        i += 1;
    }
    Ok(apps)
}

/// `v` describes a board by id and name.
pub open spec fn is_board_info(v: JsonModel) -> bool {
    member_text(v, "id"@) is Some && member_text(v, "name"@) is Some
}

/// `board` is the board that `v` names.
pub open spec fn board_info_reads_as(board: BoardInfo, v: JsonModel) -> bool {
    Some(board.id@) == member_text(v, "id"@) && Some(board.name@) == member_text(v, "name"@)
}

fn read_board_info(v: &serde_json::Value) -> (r: Option<BoardInfo>)
    ensures
        match r {
            Some(board) => is_board_info(json_model(*v)) && board_info_reads_as(board, json_model(*v)),
            None => !is_board_info(json_model(*v)),
        },
{
    let id = match text_member(v, "id") {
        Some(id) => id,
        None => {
            return None;
        },
    };
    match text_member(v, "name") {
        Some(name) => Some(BoardInfo { id, name }),
        None => None,
    }
}

/// What reading the list of boards comes to.
pub open spec fn boards_read(v: JsonModel, r: Result<Vec<BoardInfo>, String>) -> bool {
    wrapped_list(
        v,
        |e: JsonModel| is_board_info(e),
        |board: BoardInfo, e: JsonModel| board_info_reads_as(board, e),
        "boards"@,
        r,
    )
}

/// The boards that the dashboard lists.
pub fn decode_boards(v: &serde_json::Value) -> (r: Result<Vec<BoardInfo>, String>)
    ensures
        boards_read(json_model(*v), r),
{
    let inner = match unwrap_envelope(v) {
        Some(inner) => inner,
        None => {
            return Err(NO_RESULT.to_owned());
        },
    };
    let elements = match json_as_array(inner) {
        Some(elements) => elements,
        None => {
            return Err(complain("boards"));
        },
    };
    let mut boards: Vec<BoardInfo> = Vec::new();
    let mut i: usize = 0;
    while i < elements.len()
        invariant
            i <= elements.len(),
            boards@.len() == i,
            enveloped(json_model(*v)) == Some(json_model(*inner)),
            json_model(*inner).elements() == Some(json_models(elements@)),
            forall|k: int| 0 <= k < i ==> is_board_info(#[trigger] json_models(elements@)[k]),
            forall|k: int|
                0 <= k < i ==> board_info_reads_as(
                    #[trigger] boards@[k],
                    json_models(elements@)[k],
                ),
        decreases elements.len() - i,
    {
        match read_board_info(&elements[i]) {
            Some(board) => boards.push(board),
            None => {
                assert(!is_board_info(json_models(elements@)[i as int]));
                assert(json_model(*inner).elements()->0 == json_models(elements@));
                return Err(complain("boards"));
            },
        }
        i += 1;
    }
    Ok(boards)
}

/// `v` describes a section: texts under `id` and `kind`, and the two
/// offsets.
pub open spec fn is_section(v: JsonModel) -> bool {
    &&& member_text(v, "id"@) is Some
    &&& member_text(v, "kind"@) is Some
    &&& member_i32(v, "yOffset"@) is Some
    &&& member_i32(v, "xOffset"@) is Some
}

/// `section` is the section that `v` describes.
pub open spec fn section_reads_as(section: Section, v: JsonModel) -> bool {
    &&& Some(section.id@) == member_text(v, "id"@)
    &&& Some(section.kind@) == member_text(v, "kind"@)
    &&& Some(section.y_offset) == member_i32(v, "yOffset"@)
    &&& Some(section.x_offset) == member_i32(v, "xOffset"@)
}

fn read_section(v: &serde_json::Value) -> (r: Option<Section>)
    ensures
        match r {
            Some(section) => is_section(json_model(*v)) && section_reads_as(section, json_model(*v)),
            None => !is_section(json_model(*v)),
        },
{
    let id = match text_member(v, "id") {
        Some(id) => id,
        None => {
            return None;
        },
    };
    let kind = match text_member(v, "kind") {
        Some(kind) => kind,
        None => {
            return None;
        },
    };
    let y_offset = match i32_member(v, "yOffset") {
        Some(y) => y,
        None => {
            return None;
        },
    };
    match i32_member(v, "xOffset") {
        Some(x_offset) => Some(Section { id, kind, y_offset, x_offset }),
        None => None,
    }
}

/// `v` describes a layout: texts under `id` and `name`, the number of
/// columns and the breakpoint.
pub open spec fn is_layout(v: JsonModel) -> bool {
    &&& member_text(v, "id"@) is Some
    &&& member_text(v, "name"@) is Some
    &&& member_i32(v, "columnCount"@) is Some
    &&& member_i32(v, "breakpoint"@) is Some
}

/// `layout` is the layout that `v` describes.
pub open spec fn layout_template_reads_as(layout: Layout, v: JsonModel) -> bool {
    &&& Some(layout.id@) == member_text(v, "id"@)
    &&& Some(layout.name@) == member_text(v, "name"@)
    &&& Some(layout.column_count) == member_i32(v, "columnCount"@)
    &&& Some(layout.breakpoint) == member_i32(v, "breakpoint"@)
}

fn read_layout_template(v: &serde_json::Value) -> (r: Option<Layout>)
    ensures
        match r {
            Some(layout) => is_layout(json_model(*v)) && layout_template_reads_as(layout, json_model(*v)),
            None => !is_layout(json_model(*v)),
        },
{
    let id = match text_member(v, "id") {
        Some(id) => id,
        None => {
            return None;
        },
    };
    let name = match text_member(v, "name") {
        Some(name) => name,
        None => {
            return None;
        },
    };
    let column_count = match i32_member(v, "columnCount") {
        Some(n) => n,
        None => {
            return None;
        },
    };
    match i32_member(v, "breakpoint") {
        Some(breakpoint) => Some(Layout { id, name, column_count, breakpoint }),
        None => None,
    }
}

/// The sections under `sections` are all well formed.
pub open spec fn has_sections(v: JsonModel) -> bool {
    member_elements(v, "sections"@) matches Some(elements) && forall|i: int|
        0 <= i < elements.len() ==> is_section(#[trigger] elements[i])
}

/// The layouts under `layouts` are all well formed.
pub open spec fn has_layouts(v: JsonModel) -> bool {
    member_elements(v, "layouts"@) matches Some(elements) && forall|i: int|
        0 <= i < elements.len() ==> is_layout(#[trigger] elements[i])
}

fn read_sections(v: &serde_json::Value) -> (r: Option<Vec<Section>>)
    ensures
        match r {
            Some(sections) => {
                &&& has_sections(json_model(*v))
                &&& sections@.len() == member_elements(json_model(*v), "sections"@)->0.len()
                &&& forall|i: int|
                    0 <= i < sections@.len() ==> section_reads_as(
                        #[trigger] sections@[i],
                        member_elements(json_model(*v), "sections"@)->0[i],
                    )
            },
            None => !has_sections(json_model(*v)),
        },
{
    let elements = match json_get(v, "sections") {
        Some(member) => match json_as_array(member) {
            Some(elements) => elements,
            None => {
                return None;
            },
        },
        None => {
            return None;
        },
    };
    let mut sections: Vec<Section> = Vec::new();
    let mut i: usize = 0;
    while i < elements.len()
        invariant
            i <= elements.len(),
            sections@.len() == i,
            member_elements(json_model(*v), "sections"@) == Some(json_models(elements@)),
            forall|k: int| 0 <= k < i ==> is_section(#[trigger] json_models(elements@)[k]),
            forall|k: int|
                0 <= k < i ==> section_reads_as(
                    #[trigger] sections@[k],
                    json_models(elements@)[k],
                ),
        decreases elements.len() - i,
    {
        match read_section(&elements[i]) {
            Some(section) => sections.push(section),
            None => {
                assert(!is_section(json_models(elements@)[i as int]));
                assert(member_elements(json_model(*v), "sections"@)->0 == json_models(
                    elements@,
                ));
                return None;
            },
        }
        i += 1;
    }
    Some(sections)
}

fn read_layout_templates(v: &serde_json::Value) -> (r: Option<Vec<Layout>>)
    ensures
        match r {
            Some(layouts) => {
                &&& has_layouts(json_model(*v))
                &&& layouts@.len() == member_elements(json_model(*v), "layouts"@)->0.len()
                &&& forall|i: int|
                    0 <= i < layouts@.len() ==> layout_template_reads_as(
                        #[trigger] layouts@[i],
                        member_elements(json_model(*v), "layouts"@)->0[i],
                    )
            },
            None => !has_layouts(json_model(*v)),
        },
{
    let elements = match json_get(v, "layouts") {
        Some(member) => match json_as_array(member) {
            Some(elements) => elements,
            None => {
                return None;
            },
        },
        None => {
            return None;
        },
    };
    let mut layouts: Vec<Layout> = Vec::new();
    let mut i: usize = 0;
    while i < elements.len()
        invariant
            i <= elements.len(),
            layouts@.len() == i,
            member_elements(json_model(*v), "layouts"@) == Some(json_models(elements@)),
            forall|k: int| 0 <= k < i ==> is_layout(#[trigger] json_models(elements@)[k]),
            forall|k: int|
                0 <= k < i ==> layout_template_reads_as(
                    #[trigger] layouts@[k],
                    json_models(elements@)[k],
                ),
        decreases elements.len() - i,
    {
        match read_layout_template(&elements[i]) {
            Some(layout) => layouts.push(layout),
            None => {
                assert(!is_layout(json_models(elements@)[i as int]));
                assert(member_elements(json_model(*v), "layouts"@)->0 == json_models(
                    elements@,
                ));
                return None;
            },
        }
        i += 1;
    }
    Some(layouts)
}

/// The items that a board has: the elements under `items`, and none where
/// there is no such array.
pub open spec fn items_of(v: JsonModel) -> Seq<JsonModel> {
    match member_elements(v, "items"@) {
        Some(elements) => elements,
        None => Seq::empty(),
    }
}

fn read_items(v: &serde_json::Value) -> (r: Vec<serde_json::Value>)
    ensures
        json_models(r@) == items_of(json_model(*v)),
{
    let mut items: Vec<serde_json::Value> = Vec::new();
    match json_get(v, "items") {
        Some(member) => match json_as_array(member) {
            Some(elements) => {
                let mut i: usize = 0;
                while i < elements.len()
                    invariant
                        i <= elements.len(),
                        items@ == elements@.take(i as int),
                    decreases elements.len() - i,
                {
                    items.push(json_clone(&elements[i]));
                    assert(items@ =~= elements@.take(i as int + 1));
                    i += 1;
                }
                assert(elements@.take(i as int) =~= elements@);
            },
            None => {
                assert(json_models(items@) =~= Seq::<JsonModel>::empty());
            },
        },
        None => {
            assert(json_models(items@) =~= Seq::<JsonModel>::empty());
        },
    }
    items
}

/// `v` describes a board: texts under `id` and `name`, well-formed
/// sections and layouts.
pub open spec fn is_board(v: JsonModel) -> bool {
    &&& member_text(v, "id"@) is Some
    &&& member_text(v, "name"@) is Some
    &&& has_sections(v)
    &&& has_layouts(v)
}

/// `board` is the board that `v` describes, with its items as they are
/// read one by one. Each item carries as its source the value that it was
/// read from.
pub open spec fn board_reads_as(board: Board, v: JsonModel) -> bool {
    &&& Some(board.id@) == member_text(v, "id"@)
    &&& Some(board.name@) == member_text(v, "name"@)
    &&& board.sections@.len() == member_elements(v, "sections"@)->0.len()
    &&& forall|i: int|
        0 <= i < board.sections@.len() ==> section_reads_as(
            #[trigger] board.sections@[i],
            member_elements(v, "sections"@)->0[i],
        )
    &&& board.layouts@.len() == member_elements(v, "layouts"@)->0.len()
    &&& forall|i: int|
        0 <= i < board.layouts@.len() ==> layout_template_reads_as(
            #[trigger] board.layouts@[i],
            member_elements(v, "layouts"@)->0[i],
        )
    &&& board.items@.len() == items_of(v).len()
    &&& forall|i: int|
        0 <= i < board.items@.len() ==> {
            &&& (#[trigger] board.items@[i]).source matches Some(source)
            &&& json_model(source) == items_of(v)[i]
            &&& read_from(board.items@[i], source)
        }
}

/// What reading a board comes to.
pub open spec fn board_read(v: JsonModel, r: Result<Board, String>) -> bool {
    match enveloped(v) {
        Some(inner) => if is_board(inner) {
            r matches Ok(board) && board_reads_as(board, inner)
        } else {
            r matches Err(m) && m@ == missing("board"@)
        },
        None => r matches Err(m) && m@ == NO_RESULT@,
    }
}

/// A board with its sections, layouts and items. The items are read
/// leniently: a board without items is a board, and an item is taken as it
/// comes.
pub fn decode_board(v: &serde_json::Value) -> (r: Result<Board, String>)
    ensures
        board_read(json_model(*v), r),
{
    let inner = match unwrap_envelope(v) {
        Some(inner) => inner,
        None => {
            return Err(NO_RESULT.to_owned());
        },
    };
    let id = match text_member(inner, "id") {
        Some(id) => id,
        None => {
            return Err(complain("board"));
        },
    };
    let name = match text_member(inner, "name") {
        Some(name) => name,
        None => {
            return Err(complain("board"));
        },
    };
    let sections = match read_sections(inner) {
        Some(sections) => sections,
        None => {
            return Err(complain("board"));
        },
    };
    let layouts = match read_layout_templates(inner) {
        Some(layouts) => layouts,
        None => {
            return Err(complain("board"));
        },
    };
    let values = read_items(inner);
    let items = items_from_json(values);
    proof {
        assert forall|i: int| 0 <= i < items@.len() implies {
            &&& (#[trigger] items@[i]).source matches Some(source)
            &&& json_model(source) == items_of(json_model(*inner))[i]
            &&& read_from(items@[i], source)
        } by {
            assert(read_from(items@[i], values@[i]));
            assert(json_models(values@)[i] == json_model(values@[i]));
        }
    }
    Ok(Board { id, name, sections, layouts, items })
}

/// A text that is written where there is one, and left out where there
/// is none.
pub open spec fn with_optional(
    members: Map<Seq<char>, JsonModel>,
    key: Seq<char>,
    text: Option<String>,
) -> Map<Seq<char>, JsonModel> {
    match text {
        Some(t) => members.insert(key, JsonModel::Text(t@)),
        None => members,
    }
}

/// A section as it is sent.
pub open spec fn section_model(section: Section) -> JsonModel {
    JsonModel::Object(
        no_members().insert("id"@, JsonModel::Text(section.id@)).insert(
            "kind"@,
            JsonModel::Text(section.kind@),
        ).insert("yOffset"@, JsonModel::Integer(section.y_offset as i64)).insert(
            "xOffset"@,
            JsonModel::Integer(section.x_offset as i64),
        ),
    )
}

/// Sections as they are sent, one by one.
pub open spec fn section_models(sections: Seq<Section>) -> Seq<JsonModel> {
    Seq::new(sections.len(), |i: int| section_model(sections[i]))
}

/// The analytics settings as they are sent.
pub open spec fn analytics_model(analytics: AnalyticsSettings) -> JsonModel {
    JsonModel::Object(
        no_members().insert("enableGeneral"@, JsonModel::Flag(analytics.enable_general)).insert(
            "enableWidgetData"@,
            JsonModel::Flag(analytics.enable_widget_data),
        ).insert(
            "enableIntegrationData"@,
            JsonModel::Flag(analytics.enable_integration_data),
        ).insert("enableUserData"@, JsonModel::Flag(analytics.enable_user_data)),
    )
}

/// The crawling settings as they are sent.
pub open spec fn crawling_model(crawling: CrawlingSettings) -> JsonModel {
    JsonModel::Object(
        no_members().insert("noIndex"@, JsonModel::Flag(crawling.no_index)).insert(
            "noFollow"@,
            JsonModel::Flag(crawling.no_follow),
        ).insert("noTranslate"@, JsonModel::Flag(crawling.no_translate)).insert(
            "noSiteLinksSearchBox"@,
            JsonModel::Flag(crawling.no_sitelinks_search_box),
        ),
    )
}

/// The board settings as they are sent: those that are chosen, and no
/// member for one that is left open.
pub open spec fn settings_model(settings: BoardSettings) -> JsonModel {
    let titles = with_optional(
        with_optional(
            with_optional(
                with_optional(
                    no_members().insert("id"@, JsonModel::Text(settings.id@)),
                    "pageTitle"@,
                    settings.page_title,
                ),
                "metaTitle"@,
                settings.meta_title,
            ),
            "logoImageUrl"@,
            settings.logo_image_url,
        ),
        "faviconImageUrl"@,
        settings.favicon_image_url,
    );
    let theme = titles.insert("primaryColor"@, JsonModel::Text(settings.primary_color@)).insert(
        "secondaryColor"@,
        JsonModel::Text(settings.secondary_color@),
    ).insert("opacity"@, JsonModel::Integer(settings.opacity as i64)).insert(
        "itemRadius"@,
        JsonModel::Text(settings.item_radius@),
    );
    JsonModel::Object(
        with_optional(
            with_optional(theme, "backgroundImageUrl"@, settings.background_image_url),
            "customCss"@,
            settings.custom_css,
        ),
    )
}

/// An app as it is sent. An app that is created has no id; an app without
/// a ping address has `null` in its place.
pub open spec fn app_model(app: AppPayload) -> JsonModel {
    JsonModel::Object(
        with_optional(no_members(), "id"@, app.id).insert("name"@, JsonModel::Text(app.name@)).insert(
            "description"@,
            JsonModel::Text(app.description@),
        ).insert("iconUrl"@, JsonModel::Text(app.icon_url@)).insert(
            "href"@,
            JsonModel::Text(app.href@),
        ).insert("pingUrl"@, text_model(app.ping_url)),
    )
}

/// The argument `payload` as it is sent.
pub open spec fn argument_model(payload: Payload) -> JsonModel {
    match payload {
        Payload::Nothing => JsonModel::Object(no_members()),
        Payload::InitUser { username, password, confirm_password } => JsonModel::Object(
            no_members().insert("username"@, JsonModel::Text(username@)).insert(
                "password"@,
                JsonModel::Text(password@),
            ).insert("confirmPassword"@, JsonModel::Text(confirm_password@)),
        ),
        Payload::InitSettings { analytics, crawling } => JsonModel::Object(
            no_members().insert("analytics"@, analytics_model(analytics)).insert(
                "crawlingAndIndexing"@,
                crawling_model(crawling),
            ),
        ),
        Payload::BoardSettings(settings) => settings_model(settings),
        Payload::CreateBoard { name, column_count, is_public } => JsonModel::Object(
            no_members().insert("name"@, JsonModel::Text(name@)).insert(
                "columnCount"@,
                JsonModel::Integer(column_count as i64),
            ).insert("isPublic"@, JsonModel::Flag(is_public)),
        ),
        Payload::BoardId { id } => JsonModel::Object(
            no_members().insert("id"@, JsonModel::Text(id@)),
        ),
        Payload::ColorScheme { color_scheme } => JsonModel::Object(
            no_members().insert("colorScheme"@, JsonModel::Text(color_scheme@)),
        ),
        Payload::App(app) => app_model(app),
        Payload::SaveBoard { id, sections, items } => JsonModel::Object(
            no_members().insert("id"@, JsonModel::Text(id@)).insert(
                "sections"@,
                JsonModel::Array(section_models(sections@)),
            ).insert("items"@, JsonModel::Array(sent_models(items@))).insert(
                "integrations"@,
                empty_array(),
            ),
        ),
    }
}

/// What is sent for `payload`: the argument, under `json`.
pub open spec fn payload_model(payload: Payload) -> JsonModel {
    JsonModel::Object(no_members().insert("json"@, argument_model(payload)))
}

fn put_text(members: &mut JsonMembers, key: &str, text: &String)
    ensures
        json_fields(*final(members)) == json_fields(*old(members)).insert(
            key@,
            JsonModel::Text(text@),
        ),
{
    json_map_insert(members, key.to_owned(), json_string(text.clone()));
}

fn put_optional_text(members: &mut JsonMembers, key: &str, text: &Option<String>)
    ensures
        json_fields(*final(members)) == with_optional(json_fields(*old(members)), key@, *text),
{
    match text {
        Some(t) => put_text(members, key, t),
        None => {},
    }
}

fn put_number(members: &mut JsonMembers, key: &str, n: i64)
    ensures
        json_fields(*final(members)) == json_fields(*old(members)).insert(
            key@,
            JsonModel::Integer(n),
        ),
{
    json_map_insert(members, key.to_owned(), json_number(n));
}

fn put_flag(members: &mut JsonMembers, key: &str, b: bool)
    ensures
        json_fields(*final(members)) == json_fields(*old(members)).insert(key@, JsonModel::Flag(b)),
{
    json_map_insert(members, key.to_owned(), json_bool(b));
}

fn write_empty_array() -> (r: serde_json::Value)
    ensures
        json_model(r) == empty_array(),
{
    let r = json_array(Vec::new());
    assert(json_models(Seq::<serde_json::Value>::empty()) =~= Seq::<JsonModel>::empty());
    r
}

fn write_analytics(analytics: AnalyticsSettings) -> (r: serde_json::Value)
    ensures
        json_model(r) == analytics_model(analytics),
{
    let mut members = json_map_new();
    put_flag(&mut members, "enableGeneral", analytics.enable_general);
    put_flag(&mut members, "enableWidgetData", analytics.enable_widget_data);
    put_flag(&mut members, "enableIntegrationData", analytics.enable_integration_data);
    put_flag(&mut members, "enableUserData", analytics.enable_user_data);
    json_object(members)
}

fn write_crawling(crawling: CrawlingSettings) -> (r: serde_json::Value)
    ensures
        json_model(r) == crawling_model(crawling),
{
    let mut members = json_map_new();
    put_flag(&mut members, "noIndex", crawling.no_index);
    put_flag(&mut members, "noFollow", crawling.no_follow);
    put_flag(&mut members, "noTranslate", crawling.no_translate);
    put_flag(&mut members, "noSiteLinksSearchBox", crawling.no_sitelinks_search_box);
    json_object(members)
}

fn write_settings(settings: &BoardSettings) -> (r: serde_json::Value)
    ensures
        json_model(r) == settings_model(*settings),
{
    let mut members = json_map_new();
    put_text(&mut members, "id", &settings.id);
    put_optional_text(&mut members, "pageTitle", &settings.page_title);
    put_optional_text(&mut members, "metaTitle", &settings.meta_title);
    put_optional_text(&mut members, "logoImageUrl", &settings.logo_image_url);
    put_optional_text(&mut members, "faviconImageUrl", &settings.favicon_image_url);
    put_text(&mut members, "primaryColor", &settings.primary_color);
    put_text(&mut members, "secondaryColor", &settings.secondary_color);
    put_number(&mut members, "opacity", settings.opacity as i64);
    put_text(&mut members, "itemRadius", &settings.item_radius);
    put_optional_text(&mut members, "backgroundImageUrl", &settings.background_image_url);
    put_optional_text(&mut members, "customCss", &settings.custom_css);
    json_object(members)
}

fn write_app(app: &AppPayload) -> (r: serde_json::Value)
    ensures
        json_model(r) == app_model(*app),
{
    let mut members = json_map_new();
    put_optional_text(&mut members, "id", &app.id);
    put_text(&mut members, "name", &app.name);
    put_text(&mut members, "description", &app.description);
    put_text(&mut members, "iconUrl", &app.icon_url);
    put_text(&mut members, "href", &app.href);
    let ping = match &app.ping_url {
        Some(ping) => json_string(ping.clone()),
        None => crate::json::json_null(),
    };
    json_map_insert(&mut members, "pingUrl".to_owned(), ping);
    json_object(members)
}

fn write_section(section: &Section) -> (r: serde_json::Value)
    ensures
        json_model(r) == section_model(*section),
{
    let mut members = json_map_new();
    put_text(&mut members, "id", &section.id);
    put_text(&mut members, "kind", &section.kind);
    put_number(&mut members, "yOffset", section.y_offset as i64);
    put_number(&mut members, "xOffset", section.x_offset as i64);
    json_object(members)
}

fn write_sections(sections: &Vec<Section>) -> (r: serde_json::Value)
    ensures
        json_model(r) == JsonModel::Array(section_models(sections@)),
{
    let mut written: Vec<serde_json::Value> = Vec::new();
    let mut i: usize = 0;
    while i < sections.len()
        invariant
            i <= sections.len(),
            written@.len() == i,
            forall|k: int| 0 <= k < i ==> json_model(#[trigger] written@[k]) == section_model(
                sections@[k],
            ),
        decreases sections.len() - i,
    {
        written.push(write_section(&sections[i]));
        i += 1;
    }
    assert(json_models(written@) =~= section_models(sections@));
    json_array(written)
}

fn write_argument(payload: Payload) -> (r: serde_json::Value)
    ensures
        json_model(r) == argument_model(payload),
{
    match payload {
        Payload::Nothing => json_object(json_map_new()),
        Payload::InitUser { username, password, confirm_password } => {
            let mut members = json_map_new();
            put_text(&mut members, "username", &username);
            put_text(&mut members, "password", &password);
            put_text(&mut members, "confirmPassword", &confirm_password);
            json_object(members)
        },
        Payload::InitSettings { analytics, crawling } => {
            let mut members = json_map_new();
            json_map_insert(&mut members, "analytics".to_owned(), write_analytics(analytics));
            json_map_insert(
                &mut members,
                "crawlingAndIndexing".to_owned(),
                write_crawling(crawling),
            );
            json_object(members)
        },
        Payload::BoardSettings(settings) => write_settings(&settings),
        Payload::CreateBoard { name, column_count, is_public } => {
            let mut members = json_map_new();
            put_text(&mut members, "name", &name);
            put_number(&mut members, "columnCount", column_count as i64);
            put_flag(&mut members, "isPublic", is_public);
            json_object(members)
        },
        Payload::BoardId { id } => {
            let mut members = json_map_new();
            put_text(&mut members, "id", &id);
            json_object(members)
        },
        Payload::ColorScheme { color_scheme } => {
            let mut members = json_map_new();
            put_text(&mut members, "colorScheme", &color_scheme);
            json_object(members)
        },
        Payload::App(app) => write_app(&app),
        Payload::SaveBoard { id, sections, items } => {
            let written = write_sections(&sections);
            let sent = json_array(items_to_json(items));
            let mut members = json_map_new();
            put_text(&mut members, "id", &id);
            json_map_insert(&mut members, "sections".to_owned(), written);
            json_map_insert(&mut members, "items".to_owned(), sent);
            json_map_insert(&mut members, "integrations".to_owned(), write_empty_array());
            json_object(members)
        },
    }
}

impl Payload {
    /// The JSON that is sent for this argument.
    pub fn to_json(self) -> (r: serde_json::Value)
        ensures
            json_model(r) == payload_model(self),
    {
        let argument = write_argument(self);
        let mut members = json_map_new();
        json_map_insert(&mut members, "json".to_owned(), argument);
        json_object(members)
    }
}

/// `reply` is the answer with the status `status` and the body `text`.
pub open spec fn is_answer<T>(reply: Reply<T>, status: u16, text: String) -> bool {
    reply matches Reply::Answer { status: s, text: t, .. } && s == status && t == text
}

/// An answer of which nothing is read.
pub fn plain_answer(status: u16, text: String) -> (reply: Reply<()>)
    ensures
        is_answer(reply, status, text),
        reply->decoded is Ok,
{
    Reply::Answer { status, text, decoded: Ok(()) }
}

/// An answer that names the step of onboarding. A body that is no JSON is
/// malformed.
pub fn step_answer(status: u16, text: String) -> (reply: Reply<OnboardingStep>)
    ensures
        is_answer(reply, status, text),
        match json_parsed(text@) {
            Some(m) => step_read(m, reply->decoded),
            None => reply->decoded is Err,
        },
{
    let decoded = match parse_json(text.as_str()) {
        Ok(v) => decode_step(&v),
        Err(why) => Err(why),
    };
    Reply::Answer { status, text, decoded }
}

/// An answer that holds the token of a login.
pub fn csrf_answer(status: u16, text: String) -> (reply: Reply<String>)
    ensures
        is_answer(reply, status, text),
        match json_parsed(text@) {
            Some(m) => csrf_read(m, reply->decoded),
            None => reply->decoded is Err,
        },
{
    let decoded = match parse_json(text.as_str()) {
        Ok(v) => decode_csrf(&v),
        Err(why) => Err(why),
    };
    Reply::Answer { status, text, decoded }
}

/// An answer that holds the id of a board that was created.
pub fn created_board_answer(status: u16, text: String) -> (reply: Reply<String>)
    ensures
        is_answer(reply, status, text),
        match json_parsed(text@) {
            Some(m) => wrapped_text(m, "boardId"@, reply->decoded),
            None => reply->decoded is Err,
        },
{
    let decoded = match parse_json(text.as_str()) {
        Ok(v) => decode_created_board(&v),
        Err(why) => Err(why),
    };
    Reply::Answer { status, text, decoded }
}

/// An answer that holds the id of an app that was created.
pub fn created_app_answer(status: u16, text: String) -> (reply: Reply<String>)
    ensures
        is_answer(reply, status, text),
        match json_parsed(text@) {
            Some(m) => wrapped_text(m, "appId"@, reply->decoded),
            None => reply->decoded is Err,
        },
{
    let decoded = match parse_json(text.as_str()) {
        Ok(v) => decode_created_app(&v),
        Err(why) => Err(why),
    };
    Reply::Answer { status, text, decoded }
}

/// An answer that holds an API key.
pub fn api_key_answer(status: u16, text: String) -> (reply: Reply<String>)
    ensures
        is_answer(reply, status, text),
        match json_parsed(text@) {
            Some(m) => wrapped_text(m, "apiKey"@, reply->decoded),
            None => reply->decoded is Err,
        },
{
    let decoded = match parse_json(text.as_str()) {
        Ok(v) => decode_api_key(&v),
        Err(why) => Err(why),
    };
    Reply::Answer { status, text, decoded }
}

/// An answer that lists apps.
pub fn apps_answer(status: u16, text: String) -> (reply: Reply<Vec<SelectableApp>>)
    ensures
        is_answer(reply, status, text),
        match json_parsed(text@) {
            Some(m) => apps_read(m, reply->decoded),
            None => reply->decoded is Err,
        },
{
    let decoded = match parse_json(text.as_str()) {
        Ok(v) => decode_apps(&v),
        Err(why) => Err(why),
    };
    Reply::Answer { status, text, decoded }
}

/// An answer that lists boards.
pub fn boards_answer(status: u16, text: String) -> (reply: Reply<Vec<BoardInfo>>)
    ensures
        is_answer(reply, status, text),
        match json_parsed(text@) {
            Some(m) => boards_read(m, reply->decoded),
            None => reply->decoded is Err,
        },
{
    let decoded = match parse_json(text.as_str()) {
        Ok(v) => decode_boards(&v),
        Err(why) => Err(why),
    };
    Reply::Answer { status, text, decoded }
}

/// An answer that holds a board.
pub fn board_answer(status: u16, text: String) -> (reply: Reply<Board>)
    ensures
        is_answer(reply, status, text),
        match json_parsed(text@) {
            Some(m) => board_read(m, reply->decoded),
            None => reply->decoded is Err,
        },
{
    let decoded = match parse_json(text.as_str()) {
        Ok(v) => decode_board(&v),
        Err(why) => Err(why),
    };
    Reply::Answer { status, text, decoded }
}

} // verus!
