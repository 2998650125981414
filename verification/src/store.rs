//! The state file: the record of the state as a JSON document.
//!
//! The document is an object with one member for each field of the record.
//! The removal sets are an object of arrays, one array of URLs for each
//! board. The apps on file are an object of objects, one for each URL. Times
//! are written as texts in the form of RFC 3339.

use vstd::prelude::*;
use crate::collections::{bound_in_order, entry_keys, lemma_bound_in_order, entries_map, texts};
use crate::items::{member_text, text_model};
use crate::json::{
    json_array, json_as_array, json_as_bool, json_as_object, json_as_str, json_bool, json_fields,
    json_get, json_map_insert, json_map_new, json_members, json_model, json_models, json_null,
    json_object, json_parsed, json_string, member_keys, no_members, parse_json, JsonModel,
};
use crate::persist::{removal_sets, StateRecord};
use crate::state::{DiscoveredApp, State, Timestamp};
use crate::text::opt_text;

verus! {

/// The first second that is written as a time: the beginning of the year 0.
pub const FIRST_SECOND: i64 = -62_167_219_200;

/// The last second that is written as a time: the end of the year 9999.
pub const LAST_SECOND: i64 = 253_402_300_799;

/// The text of the instant `nanos` nanoseconds after the second `secs`, in
/// the form of RFC 3339; none where there is no such instant.
pub uninterp spec fn instant_text(secs: i64, nanos: u32) -> Option<Seq<char>>;

/// The instant that the text `text` names in the form of RFC 3339; none
/// where the text names none.
pub uninterp spec fn text_instant(text: Seq<char>) -> Option<Timestamp>;

/// `chrono::DateTime::from_timestamp` and `DateTime::to_rfc3339_opts` with
/// as many digits of the second as the instant needs and `Z` for the zone:
/// the text of the instant, or nothing where the numbers name no instant.
/// Years beyond four digits are kept out: the form has no place for them.
#[verifier::external_body]
fn format_instant(secs: i64, nanos: u32) -> (r: Option<String>)
    requires
        FIRST_SECOND <= secs <= LAST_SECOND,
    ensures
        opt_text(r) == instant_text(secs, nanos),
{
    match chrono::DateTime::from_timestamp(secs, nanos) {
        Some(t) => Some(t.to_rfc3339_opts(chrono::SecondsFormat::AutoSi, true)),
        None => None,
    }
}

/// `chrono::DateTime::parse_from_rfc3339`, with `DateTime::timestamp` and
/// `DateTime::timestamp_subsec_nanos` of what it gives: the instant that
/// the text names, or nothing where it names none.
#[verifier::external_body]
fn parse_instant(text: &str) -> (r: Option<Timestamp>)
    ensures
        r == text_instant(text@),
{
    match chrono::DateTime::parse_from_rfc3339(text) {
        Ok(t) => Some(Timestamp { secs: t.timestamp(), nanos: t.timestamp_subsec_nanos() }),
        Err(_) => None,
    }
}

/// A time as it is written: its text, or `null` for a time that has none.
pub open spec fn time_model(t: Timestamp) -> JsonModel {
    if FIRST_SECOND <= t.secs <= LAST_SECOND {
        match instant_text(t.secs, t.nanos) {
            Some(text) => JsonModel::Text(text),
            None => JsonModel::Null,
        }
    } else {
        JsonModel::Null
    }
}

/// An optional time as it is written.
pub open spec fn optional_time_model(t: Option<Timestamp>) -> JsonModel {
    match t {
        Some(t) => time_model(t),
        None => JsonModel::Null,
    }
}

/// A list of texts as it is written.
pub open spec fn texts_model(list: Seq<String>) -> JsonModel {
    JsonModel::Array(Seq::new(list.len(), |i: int| JsonModel::Text(list[i]@)))
}

/// The removal sets as they are written: for each board its URLs.
pub open spec fn removals_model(rs: Seq<(String, Vec<String>)>) -> Map<Seq<char>, JsonModel>
    decreases rs.len(),
{
    if rs.len() == 0 {
        no_members()
    } else {
        removals_model(rs.drop_last()).insert(rs.last().0@, texts_model(rs.last().1@))
    }
}

/// An app on file as it is written.
pub open spec fn discovered_model(app: DiscoveredApp) -> JsonModel {
    JsonModel::Object(
        no_members().insert("name"@, JsonModel::Text(app.name@)).insert(
            "container_id"@,
            JsonModel::Text(app.container_id@),
        ).insert("added_at"@, time_model(app.added_at)),
    )
}

/// The apps on file as they are written, by URL.
pub open spec fn discovered_models(ds: Seq<(String, DiscoveredApp)>) -> Map<Seq<char>, JsonModel>
    decreases ds.len(),
{
    if ds.len() == 0 {
        no_members()
    } else {
        discovered_models(ds.drop_last()).insert(ds.last().0@, discovered_model(ds.last().1))
    }
}

/// The record as it is written.
pub open spec fn record_model(record: StateRecord) -> JsonModel {
    JsonModel::Object(
        no_members().insert("version"@, JsonModel::Text(record.version@)).insert(
            "first_boot_completed"@,
            JsonModel::Flag(record.first_boot_completed),
        ).insert("authelia_sync_completed"@, JsonModel::Flag(record.authelia_sync_completed)).insert(
            "api_key"@,
            text_model(record.api_key),
        ).insert(
            "removed_apps_by_board"@,
            JsonModel::Object(removals_model(record.removed_apps_by_board@)),
        ).insert("last_sync"@, optional_time_model(record.last_sync)).insert(
            "discovered_apps"@,
            JsonModel::Object(discovered_models(record.discovered_apps@)),
        ),
    )
}

fn write_time(t: Timestamp) -> (r: serde_json::Value)
    ensures
        json_model(r) == time_model(t),
{
    if FIRST_SECOND <= t.secs && t.secs <= LAST_SECOND {
        match format_instant(t.secs, t.nanos) {
            Some(text) => json_string(text),
            None => json_null(),
        }
    } else {
        json_null()
    }
}

fn write_texts(list: &Vec<String>) -> (r: serde_json::Value)
    ensures
        json_model(r) == texts_model(list@),
{
    let mut written: Vec<serde_json::Value> = Vec::new();
    let mut i: usize = 0;
    while i < list.len()
        invariant
            i <= list.len(),
            written@.len() == i,
            forall|k: int| 0 <= k < i ==> json_model(#[trigger] written@[k]) == JsonModel::Text(
                list@[k]@,
            ),
        decreases list.len() - i,
    {
        written.push(json_string(list[i].clone()));
        i += 1;
    }
    assert(json_models(written@) =~= Seq::new(list@.len(), |i: int| JsonModel::Text(list@[i]@)));
    json_array(written)
}

fn write_removals(rs: &Vec<(String, Vec<String>)>) -> (r: serde_json::Value)
    ensures
        json_model(r) == JsonModel::Object(removals_model(rs@)),
{
    let mut members = json_map_new();
    let mut i: usize = 0;
    assert(rs@.take(0) =~= Seq::<(String, Vec<String>)>::empty());
    while i < rs.len()
        invariant
            i <= rs.len(),
            json_fields(members) == removals_model(rs@.take(i as int)),
        decreases rs.len() - i,
    {
        proof {
            let next = rs@.take(i as int + 1);
            assert(next.drop_last() =~= rs@.take(i as int));
            assert(next.last() == rs@[i as int]);
        }
        json_map_insert(&mut members, rs[i].0.clone(), write_texts(&rs[i].1));
        i += 1;
    }
    assert(rs@.take(i as int) =~= rs@);
    json_object(members)
}

fn write_discovered(app: &DiscoveredApp) -> (r: serde_json::Value)
    ensures
        json_model(r) == discovered_model(*app),
{
    let mut members = json_map_new();
    json_map_insert(&mut members, "name".to_owned(), json_string(app.name.clone()));
    json_map_insert(&mut members, "container_id".to_owned(), json_string(app.container_id.clone()));
    json_map_insert(&mut members, "added_at".to_owned(), write_time(app.added_at));
    json_object(members)
}

fn write_apps(ds: &Vec<(String, DiscoveredApp)>) -> (r: serde_json::Value)
    ensures
        json_model(r) == JsonModel::Object(discovered_models(ds@)),
{
    let mut members = json_map_new();
    let mut i: usize = 0;
    assert(ds@.take(0) =~= Seq::<(String, DiscoveredApp)>::empty());
    while i < ds.len()
        invariant
            i <= ds.len(),
            json_fields(members) == discovered_models(ds@.take(i as int)),
        decreases ds.len() - i,
    {
        proof {
            let next = ds@.take(i as int + 1);
            assert(next.drop_last() =~= ds@.take(i as int));
            assert(next.last() == ds@[i as int]);
        }
        json_map_insert(&mut members, ds[i].0.clone(), write_discovered(&ds[i].1));
        i += 1;
    }
    assert(ds@.take(i as int) =~= ds@);
    json_object(members)
}

impl StateRecord {
    /// The JSON document of the record.
    pub fn to_json(&self) -> (r: serde_json::Value)
        ensures
            json_model(r) == record_model(*self),
    {
        let api_key = match &self.api_key {
            Some(key) => json_string(key.clone()),
            None => json_null(),
        };
        let last_sync = match self.last_sync {
            Some(t) => write_time(t),
            None => json_null(),
        };
        let mut members = json_map_new();
        json_map_insert(&mut members, "version".to_owned(), json_string(self.version.clone()));
        json_map_insert(
            &mut members,
            "first_boot_completed".to_owned(),
            json_bool(self.first_boot_completed),
        );
        json_map_insert(
            &mut members,
            "authelia_sync_completed".to_owned(),
            json_bool(self.authelia_sync_completed),
        );
        json_map_insert(&mut members, "api_key".to_owned(), api_key);
        json_map_insert(
            &mut members,
            "removed_apps_by_board".to_owned(),
            write_removals(&self.removed_apps_by_board),
        );
        json_map_insert(&mut members, "last_sync".to_owned(), last_sync);
        json_map_insert(
            &mut members,
            "discovered_apps".to_owned(),
            write_apps(&self.discovered_apps),
        );
        json_object(members)
    }
}

/// The complaint about a document that is no state.
pub const MALFORMED_STATE: &'static str = "the document is no state";

/// The time that `m` names; none where `m` is no text or names no time.
pub open spec fn read_time(m: JsonModel) -> Option<Timestamp> {
    match m {
        JsonModel::Text(text) => text_instant(text),
        _ => None,
    }
}

/// The time under `key`.
pub open spec fn member_time(m: JsonModel, key: Seq<char>) -> Option<Timestamp> {
    match m.member(key) {
        Some(member) => read_time(member),
        None => None,
    }
}

/// The truth value under `key`; false where there is none.
pub open spec fn member_flag_or_false(m: JsonModel, key: Seq<char>) -> bool {
    match m.member(key) {
        Some(JsonModel::Flag(b)) => b,
        _ => false,
    }
}

/// The texts of an array of texts; none where `m` is anything else.
pub open spec fn texts_of(m: JsonModel) -> Option<Seq<Seq<char>>> {
    match m {
        JsonModel::Array(elements) => if forall|i: int|
            0 <= i < elements.len() ==> (#[trigger] elements[i]) is Text {
            Some(Seq::new(elements.len(), |i: int| elements[i]->Text_0))
        } else {
            None
        },
        _ => None,
    }
}

/// The members of the object under `key`: none for a member that is
/// missing, and nothing at all for a member that is no object.
pub open spec fn object_under(m: JsonModel, key: Seq<char>) -> Option<Map<Seq<char>, JsonModel>> {
    match m.member(key) {
        None => Some(no_members()),
        Some(JsonModel::Object(members)) => Some(members),
        Some(_) => None,
    }
}

/// Every board has an array of texts.
pub open spec fn removals_well_formed(members: Map<Seq<char>, JsonModel>) -> bool {
    forall|board: Seq<char>| members.contains_key(board) ==> texts_of(#[trigger] members[board]) is Some
}

/// `list` holds the boards of `members`, each once, with their URLs.
pub open spec fn removals_read(list: Seq<(String, Vec<String>)>, members: Map<Seq<char>, JsonModel>) -> bool {
    &&& entry_keys(list).no_duplicates()
    &&& forall|board: Seq<char>| members.contains_key(board) <==> entry_keys(list).contains(board)
    &&& forall|i: int|
        0 <= i < list.len() ==> texts_of(members[(#[trigger] list[i]).0@]) == Some(
            texts(list[i].1@),
        )
}

/// `m` describes an app on file: texts under `name` and `container_id`,
/// and a time under `added_at`.
pub open spec fn is_discovered(m: JsonModel) -> bool {
    &&& member_text(m, "name"@) is Some
    &&& member_text(m, "container_id"@) is Some
    &&& member_time(m, "added_at"@) is Some
}

/// `app` is the app on file that `m` describes.
pub open spec fn discovered_reads_as(app: DiscoveredApp, m: JsonModel) -> bool {
    &&& Some(app.name@) == member_text(m, "name"@)
    &&& Some(app.container_id@) == member_text(m, "container_id"@)
    &&& Some(app.added_at) == member_time(m, "added_at"@)
}

/// Every URL has a well-formed app.
pub open spec fn apps_well_formed(members: Map<Seq<char>, JsonModel>) -> bool {
    forall|url: Seq<char>| members.contains_key(url) ==> is_discovered(#[trigger] members[url])
}

/// `list` holds the URLs of `members`, each once, with their apps.
pub open spec fn apps_read(list: Seq<(String, DiscoveredApp)>, members: Map<Seq<char>, JsonModel>) -> bool {
    &&& entry_keys(list).no_duplicates()
    &&& forall|url: Seq<char>| members.contains_key(url) <==> entry_keys(list).contains(url)
    &&& forall|i: int|
        0 <= i < list.len() ==> discovered_reads_as((#[trigger] list[i]).1, members[list[i].0@])
}

/// `m` is a state: an object whose removal sets and apps, where it has
/// any, are well formed.
pub open spec fn is_state(m: JsonModel) -> bool {
    &&& m is Object
    &&& object_under(m, "removed_apps_by_board"@) matches Some(removals)
    &&& removals_well_formed(removals)
    &&& object_under(m, "discovered_apps"@) matches Some(apps)
    &&& apps_well_formed(apps)
}

/// `record` is the record that the state `m` holds. What is missing is as
/// in a state that was never written but for the version, which is that of
/// this release.
pub open spec fn record_reads_as(record: StateRecord, m: JsonModel) -> bool {
    &&& record.version@ == match member_text(m, "version"@) {
        Some(version) => version,
        None => "1.0"@,
    }
    &&& record.first_boot_completed == member_flag_or_false(m, "first_boot_completed"@)
    &&& record.authelia_sync_completed == member_flag_or_false(m, "authelia_sync_completed"@)
    &&& opt_text(record.api_key) == member_text(m, "api_key"@)
    &&& removals_read(
        record.removed_apps_by_board@,
        object_under(m, "removed_apps_by_board"@)->0,
    )
    &&& record.last_sync == member_time(m, "last_sync"@)
    &&& apps_read(record.discovered_apps@, object_under(m, "discovered_apps"@)->0)
}

/// What reading a state comes to.
pub open spec fn record_read(m: JsonModel, r: Result<StateRecord, String>) -> bool {
    if is_state(m) {
        r matches Ok(record) && record_reads_as(record, m)
    } else {
        r matches Err(why) && why@ == MALFORMED_STATE@
    }
}

fn read_text_member(v: &serde_json::Value, key: &str) -> (r: Option<String>)
    ensures
        opt_text(r) == member_text(json_model(*v), key@),
{
    match json_get(v, key) {
        Some(member) => match json_as_str(member) {
            Some(text) => Some(text.to_owned()),
            None => None,
        },
        None => None,
    }
}

fn read_flag(v: &serde_json::Value, key: &str) -> (r: bool)
    ensures
        r == member_flag_or_false(json_model(*v), key@),
{
    match json_get(v, key) {
        Some(member) => match json_as_bool(member) {
            Some(b) => b,
            None => false,
        },
        None => false,
    }
}

fn read_time_member(v: &serde_json::Value, key: &str) -> (r: Option<Timestamp>)
    ensures
        r == member_time(json_model(*v), key@),
{
    match json_get(v, key) {
        Some(member) => match json_as_str(member) {
            Some(text) => parse_instant(text),
            None => None,
        },
        None => None,
    }
}

fn read_texts(v: &serde_json::Value) -> (r: Option<Vec<String>>)
    ensures
        match r {
            Some(list) => texts_of(json_model(*v)) == Some(texts(list@)),
            None => texts_of(json_model(*v)) is None,
        },
{
    let elements = match json_as_array(v) {
        Some(elements) => elements,
        None => {
            return None;
        },
    };
    let mut list: Vec<String> = Vec::new();
    let mut i: usize = 0;
    while i < elements.len()
        invariant
            i <= elements.len(),
            json_model(*v) == JsonModel::Array(json_models(elements@)),
            list@.len() == i,
            forall|k: int|
                0 <= k < i ==> (#[trigger] json_models(elements@)[k]) == JsonModel::Text(list@[k]@),
        decreases elements.len() - i,
    {
        match json_as_str(&elements[i]) {
            Some(text) => list.push(text.to_owned()),
            None => {
                assert(!(json_models(elements@)[i as int] is Text));
                return None;
            },
        }
        i += 1;
    }
    assert(Seq::new(json_models(elements@).len(), |i: int| json_models(elements@)[i]->Text_0)
        =~= texts(list@));
    Some(list)
}

fn read_removals(v: &serde_json::Value) -> (r: Option<Vec<(String, Vec<String>)>>)
    ensures
        match r {
            Some(list) => json_model(*v) matches JsonModel::Object(members)
                && removals_well_formed(members) && removals_read(list@, members),
            None => !(json_model(*v) matches JsonModel::Object(members) && removals_well_formed(
                members,
            )),
        },
{
    let members = match json_as_object(v) {
        Some(members) => members,
        None => {
            return None;
        },
    };
    let entries = json_members(members);
    let mut list: Vec<(String, Vec<String>)> = Vec::new();
    let mut i: usize = 0;
    while i < entries.len()
        invariant
            i <= entries.len(),
            json_model(*v) == JsonModel::Object(json_fields(*members)),
            member_keys(entries@).no_duplicates(),
            forall|key: Seq<char>|
                json_fields(*members).contains_key(key) <==> member_keys(entries@).contains(key),
            forall|k: int|
                0 <= k < entries@.len() ==> json_fields(*members)[(#[trigger] entries@[k]).0@]
                    == json_model(entries@[k].1),
            list@.len() == i,
            forall|k: int|
                0 <= k < i ==> (#[trigger] list@[k]).0@ == entries@[k].0@ && texts_of(
                    json_model(entries@[k].1),
                ) == Some(texts(list@[k].1@)),
        decreases entries.len() - i,
    {
        match read_texts(&entries[i].1) {
            Some(urls) => list.push((entries[i].0.clone(), urls)),
            None => {
                proof {
                    let key = entries@[i as int].0@;
                    assert(member_keys(entries@)[i as int] == key);
                    assert(json_fields(*members).contains_key(key));
                    assert(texts_of(json_fields(*members)[key]) is None);
                }
                return None;
            },
        }
        i += 1;
    }
    proof {
        let fields = json_fields(*members);
        assert(entry_keys(list@) =~= member_keys(entries@));
        assert forall|board: Seq<char>| fields.contains_key(board) implies texts_of(
            #[trigger] fields[board],
        ) is Some by {
            let k = member_keys(entries@).index_of(board);
            assert(member_keys(entries@)[k] == board);
            assert(entries@[k].0@ == board);
            assert(list@[k].0@ == entries@[k].0@);
        }
        assert forall|k: int| 0 <= k < list@.len() implies texts_of(
            fields[(#[trigger] list@[k]).0@],
        ) == Some(texts(list@[k].1@)) by {
            assert(entries@[k].0@ == list@[k].0@);
        }
    }
    Some(list)
}

fn read_discovered(v: &serde_json::Value) -> (r: Option<DiscoveredApp>)
    ensures
        match r {
            Some(app) => is_discovered(json_model(*v)) && discovered_reads_as(app, json_model(*v)),
            None => !is_discovered(json_model(*v)),
        },
{
    let name = match read_text_member(v, "name") {
        Some(name) => name,
        None => {
            return None;
        },
    };
    let container_id = match read_text_member(v, "container_id") {
        Some(id) => id,
        None => {
            return None;
        },
    };
    match read_time_member(v, "added_at") {
        Some(added_at) => Some(DiscoveredApp { name, container_id, added_at }),
        None => None,
    }
}

fn read_apps(v: &serde_json::Value) -> (r: Option<Vec<(String, DiscoveredApp)>>)
    ensures
        match r {
            Some(list) => json_model(*v) matches JsonModel::Object(members) && apps_well_formed(
                members,
            ) && apps_read(list@, members),
            None => !(json_model(*v) matches JsonModel::Object(members) && apps_well_formed(
                members,
            )),
        },
{
    let members = match json_as_object(v) {
        Some(members) => members,
        None => {
            return None;
        },
    };
    let entries = json_members(members);
    let mut list: Vec<(String, DiscoveredApp)> = Vec::new();
    let mut i: usize = 0;
    while i < entries.len()
        invariant
            i <= entries.len(),
            json_model(*v) == JsonModel::Object(json_fields(*members)),
            member_keys(entries@).no_duplicates(),
            forall|key: Seq<char>|
                json_fields(*members).contains_key(key) <==> member_keys(entries@).contains(key),
            forall|k: int|
                0 <= k < entries@.len() ==> json_fields(*members)[(#[trigger] entries@[k]).0@]
                    == json_model(entries@[k].1),
            list@.len() == i,
            forall|k: int|
                0 <= k < i ==> (#[trigger] list@[k]).0@ == entries@[k].0@ && is_discovered(
                    json_model(entries@[k].1),
                ) && discovered_reads_as(list@[k].1, json_model(entries@[k].1)),
        decreases entries.len() - i,
    {
        match read_discovered(&entries[i].1) {
            Some(app) => list.push((entries[i].0.clone(), app)),
            None => {
                proof {
                    let key = entries@[i as int].0@;
                    assert(member_keys(entries@)[i as int] == key);
                    assert(json_fields(*members).contains_key(key));
                    assert(!is_discovered(json_fields(*members)[key]));
                }
                return None;
            },
        }
        i += 1;
    }
    proof {
        let fields = json_fields(*members);
        assert(entry_keys(list@) =~= member_keys(entries@));
        assert forall|url: Seq<char>| fields.contains_key(url) implies is_discovered(
            #[trigger] fields[url],
        ) by {
            let k = member_keys(entries@).index_of(url);
            assert(member_keys(entries@)[k] == url);
            assert(entries@[k].0@ == url);
            assert(list@[k].0@ == entries@[k].0@);
        }
        assert forall|k: int| 0 <= k < list@.len() implies discovered_reads_as(
            (#[trigger] list@[k]).1,
            fields[list@[k].0@],
        ) by {
            assert(entries@[k].0@ == list@[k].0@);
        }
    }
    Some(list)
}

impl StateRecord {
    /// Reads a record from its JSON document.
    ///
    /// A document that is no object, or whose removal sets or apps are not
    /// what is written for them, is no state. Of the other members, one
    /// that is missing or of another kind than was written counts as not
    /// set.
    pub fn from_json(v: &serde_json::Value) -> (r: Result<StateRecord, String>)
        ensures
            record_read(json_model(*v), r),
    {
        if json_as_object(v).is_none() {
            return Err(MALFORMED_STATE.to_owned());
        }
        let removed_apps_by_board = match json_get(v, "removed_apps_by_board") {
            Some(member) => match read_removals(member) {
                Some(list) => list,
                None => {
                    return Err(MALFORMED_STATE.to_owned());
                },
            },
            None => {
                let list: Vec<(String, Vec<String>)> = Vec::new();
                assert(entry_keys(list@) =~= Seq::<Seq<char>>::empty());
                list
            },
        };
        let discovered_apps = match json_get(v, "discovered_apps") {
            Some(member) => match read_apps(member) {
                Some(list) => list,
                None => {
                    return Err(MALFORMED_STATE.to_owned());
                },
            },
            None => {
                let list: Vec<(String, DiscoveredApp)> = Vec::new();
                assert(entry_keys(list@) =~= Seq::<Seq<char>>::empty());
                list
            },
        };
        let version = match read_text_member(v, "version") {
            Some(version) => version,
            None => crate::state::default_version(),
        };
        Ok(
            StateRecord {
                version,
                first_boot_completed: read_flag(v, "first_boot_completed"),
                authelia_sync_completed: read_flag(v, "authelia_sync_completed"),
                api_key: read_text_member(v, "api_key"),
                removed_apps_by_board,
                last_sync: read_time_member(v, "last_sync"),
                discovered_apps,
            },
        )
    }

    /// Reads a record from the text of its JSON document. A text that is no
    /// JSON is no state.
    pub fn parse(text: &str) -> (r: Result<StateRecord, String>)
        ensures
            match json_parsed(text@) {
                Some(m) => record_read(m, r),
                None => r is Err,
            },
    {
        match parse_json(text) {
            Ok(v) => StateRecord::from_json(&v),
            Err(why) => Err(why),
        }
    }
}

/// A time that is read back as it was written.
pub open spec fn time_round_trips(t: Timestamp) -> bool {
    read_time(time_model(t)) == Some(t)
}

/// Every time of the record is read back as it was written.
pub open spec fn times_round_trip(record: StateRecord) -> bool {
    &&& record.last_sync matches Some(t) ==> time_round_trips(t)
    &&& forall|i: int|
        0 <= i < record.discovered_apps@.len() ==> time_round_trips(
            (#[trigger] record.discovered_apps@[i]).1.added_at,
        )
}

/// What an app on file says, whatever the strings that say it.
pub open spec fn discovered_view(app: DiscoveredApp) -> (Seq<char>, Seq<char>, Timestamp) {
    (app.name@, app.container_id@, app.added_at)
}

/// What the apps on file say, by URL.
pub open spec fn discovered_views(apps: Map<Seq<char>, DiscoveredApp>) -> Map<
    Seq<char>,
    (Seq<char>, Seq<char>, Timestamp),
> {
    apps.map_values(|app: DiscoveredApp| discovered_view(app))
}

/// Two records hold the same state.
pub open spec fn same_record(a: StateRecord, b: StateRecord) -> bool {
    &&& a.version@ == b.version@
    &&& a.first_boot_completed == b.first_boot_completed
    &&& a.authelia_sync_completed == b.authelia_sync_completed
    &&& opt_text(a.api_key) == opt_text(b.api_key)
    &&& a.removed() == b.removed()
    &&& a.last_sync == b.last_sync
    &&& discovered_views(a.discovered()) == discovered_views(b.discovered())
}

proof fn lemma_state_keys_differ()
    ensures
        "version"@.len() == 7,
        "first_boot_completed"@.len() == 20,
        "authelia_sync_completed"@.len() == 23,
        "api_key"@.len() == 7,
        "removed_apps_by_board"@.len() == 21,
        "last_sync"@.len() == 9,
        "discovered_apps"@.len() == 15,
        "version"@ != "api_key"@,
        "name"@.len() == 4,
        "container_id"@.len() == 12,
        "added_at"@.len() == 8,
{
    reveal_strlit("version");
    reveal_strlit("first_boot_completed");
    reveal_strlit("authelia_sync_completed");
    reveal_strlit("api_key");
    reveal_strlit("removed_apps_by_board");
    reveal_strlit("last_sync");
    reveal_strlit("discovered_apps");
    reveal_strlit("name");
    reveal_strlit("container_id");
    reveal_strlit("added_at");
    assert("version"@[0] != "api_key"@[0]);
}

proof fn lemma_texts_of_model(list: Seq<String>)
    ensures
        texts_of(texts_model(list)) == Some(texts(list)),
{
    let elements = Seq::new(list.len(), |i: int| JsonModel::Text(list[i]@));
    assert forall|i: int| 0 <= i < elements.len() implies (#[trigger] elements[i]) is Text by {}
    assert(Seq::new(elements.len(), |i: int| elements[i]->Text_0) =~= texts(list));
}

proof fn lemma_removals_model(rs: Seq<(String, Vec<String>)>)
    ensures
        removals_model(rs).dom() == removal_sets(rs).dom(),
        forall|board: Seq<char>|
            removals_model(rs).contains_key(board) ==> texts_of(
                #[trigger] removals_model(rs)[board],
            ) is Some && texts_of(removals_model(rs)[board])->0.to_set() == removal_sets(rs)[board],
    decreases rs.len(),
{
    if rs.len() == 0 {
        assert(removals_model(rs).dom() =~= removal_sets(rs).dom());
    } else {
        lemma_removals_model(rs.drop_last());
        lemma_texts_of_model(rs.last().1@);
        assert(removals_model(rs).dom() =~= removal_sets(rs).dom());
    }
}

proof fn lemma_removals_of_list(list: Seq<(String, Vec<String>)>)
    requires
        entry_keys(list).no_duplicates(),
    ensures
        forall|board: Seq<char>|
            removal_sets(list).contains_key(board) <==> entry_keys(list).contains(board),
        forall|i: int|
            0 <= i < list.len() ==> removal_sets(list)[(#[trigger] list[i]).0@] == texts(
                list[i].1@,
            ).to_set(),
    decreases list.len(),
{
    if list.len() > 0 {
        let front = list.drop_last();
        let keys = entry_keys(list);
        assert(entry_keys(front) =~= keys.drop_last());
        assert forall|i: int, j: int|
            0 <= i < front.len() && 0 <= j < front.len() && i != j implies entry_keys(front)[i]
            != entry_keys(front)[j] by {
            assert(entry_keys(front)[i] == keys[i]);
            assert(entry_keys(front)[j] == keys[j]);
        }
        lemma_removals_of_list(front);
        assert forall|board: Seq<char>|
            removal_sets(list).contains_key(board) <==> entry_keys(list).contains(board) by {
            if entry_keys(front).contains(board) {
                let i = entry_keys(front).index_of(board);
                assert(keys[i] == board);
            }
            if keys.contains(board) && board != list.last().0@ {
                let i = keys.index_of(board);
                assert(entry_keys(front)[i] == board);
            }
            assert(keys[list.len() - 1] == list.last().0@);
        }
        assert forall|i: int| 0 <= i < list.len() implies removal_sets(list)[(
        #[trigger] list[i]).0@] == texts(list[i].1@).to_set() by {
            if i < front.len() {
                assert(front[i] == list[i]);
                assert(keys[i] == list[i].0@);
                assert(keys[list.len() - 1] == list.last().0@);
            }
        }
    }
}

proof fn lemma_discovered_model(app: DiscoveredApp)
    requires
        time_round_trips(app.added_at),
    ensures
        is_discovered(discovered_model(app)),
        member_text(discovered_model(app), "name"@) == Some(app.name@),
        member_text(discovered_model(app), "container_id"@) == Some(app.container_id@),
        member_time(discovered_model(app), "added_at"@) == Some(app.added_at),
{
    lemma_state_keys_differ();
    let m = discovered_model(app);
    assert(m.member("name"@) == Some(JsonModel::Text(app.name@)));
    assert(m.member("container_id"@) == Some(JsonModel::Text(app.container_id@)));
    assert(m.member("added_at"@) == Some(time_model(app.added_at)));
}

/// What a written app says.
pub open spec fn view_of_model(m: JsonModel) -> (Seq<char>, Seq<char>, Timestamp) {
    (member_text(m, "name"@)->0, member_text(m, "container_id"@)->0, member_time(m, "added_at"@)->0)
}

proof fn lemma_discovered_models(ds: Seq<(String, DiscoveredApp)>)
    requires
        forall|i: int| 0 <= i < ds.len() ==> time_round_trips((#[trigger] ds[i]).1.added_at),
    ensures
        discovered_models(ds).dom() == bound_in_order(ds).dom(),
        forall|url: Seq<char>|
            discovered_models(ds).contains_key(url) ==> is_discovered(
                #[trigger] discovered_models(ds)[url],
            ) && view_of_model(discovered_models(ds)[url]) == discovered_view(
                bound_in_order(ds)[url],
            ),
    decreases ds.len(),
{
    if ds.len() == 0 {
        assert(discovered_models(ds).dom() =~= bound_in_order(ds).dom());
    } else {
        let front = ds.drop_last();
        assert forall|i: int| 0 <= i < front.len() implies time_round_trips(
            (#[trigger] front[i]).1.added_at,
        ) by {
            assert(front[i] == ds[i]);
        }
        lemma_discovered_models(front);
        assert(ds.last() == ds[ds.len() - 1]);
        lemma_discovered_model(ds.last().1);
        assert(discovered_models(ds).dom() =~= bound_in_order(ds).dom());
    }
}

proof fn lemma_apps_of_list(list: Seq<(String, DiscoveredApp)>)
    requires
        entry_keys(list).no_duplicates(),
    ensures
        forall|url: Seq<char>|
            bound_in_order(list).contains_key(url) <==> entry_keys(list).contains(url),
        forall|i: int|
            0 <= i < list.len() ==> bound_in_order(list)[(#[trigger] list[i]).0@] == list[i].1,
{
    lemma_bound_in_order(list);
    let keys = entry_keys(list);
    assert forall|i: int| 0 <= i < list.len() implies bound_in_order(list)[(
    #[trigger] list[i]).0@] == list[i].1 by {
        assert(keys[i] == list[i].0@);
        assert(keys.contains(list[i].0@));
        let j = keys.index_of(list[i].0@);
        assert(keys[j] == keys[i]);
        assert(j == i);
        assert(entries_map(list)[list[i].0@] == list[j].1);
    }
}

/// A record that is written and read is the record that was written: the
/// same removal sets, the same apps on file, the same key, the same flags.
/// The times are the same where the form in which times are written gives
/// each time back.
pub proof fn law_written_state_reads_back(record: StateRecord, read: Result<StateRecord, String>)
    requires
        times_round_trip(record),
        record_read(record_model(record), read),
    ensures
        read matches Ok(back) && same_record(back, record),
{
    lemma_state_keys_differ();
    let m = record_model(record);
    let removals = removals_model(record.removed_apps_by_board@);
    let apps = discovered_models(record.discovered_apps@);
    assert(m.member("version"@) == Some(JsonModel::Text(record.version@)));
    assert(m.member("first_boot_completed"@) == Some(
        JsonModel::Flag(record.first_boot_completed),
    ));
    assert(m.member("authelia_sync_completed"@) == Some(
        JsonModel::Flag(record.authelia_sync_completed),
    ));
    assert(m.member("api_key"@) == Some(text_model(record.api_key)));
    assert(m.member("removed_apps_by_board"@) == Some(JsonModel::Object(removals)));
    assert(m.member("last_sync"@) == Some(optional_time_model(record.last_sync)));
    assert(m.member("discovered_apps"@) == Some(JsonModel::Object(apps)));
    lemma_removals_model(record.removed_apps_by_board@);
    lemma_discovered_models(record.discovered_apps@);
    assert(is_state(m));
    let back = read->Ok_0;
    lemma_removals_of_list(back.removed_apps_by_board@);
    lemma_apps_of_list(back.discovered_apps@);
    assert(back.removed() =~= record.removed()) by {
        assert forall|board: Seq<char>| back.removed().contains_key(board) implies back.removed()[board]
            == record.removed()[board] by {
            assert(removal_sets(back.removed_apps_by_board@).contains_key(board));
            assert(entry_keys(back.removed_apps_by_board@).contains(board));
            let i = entry_keys(back.removed_apps_by_board@).index_of(board);
            assert(entry_keys(back.removed_apps_by_board@)[i] == board);
            assert(back.removed_apps_by_board@[i].0@ == board);
        }
    }
    assert(discovered_views(back.discovered()) =~= discovered_views(record.discovered())) by {
        assert forall|url: Seq<char>| back.discovered().contains_key(url) implies discovered_view(
            back.discovered()[url],
        ) == discovered_view(record.discovered()[url]) by {
            assert(bound_in_order(back.discovered_apps@).contains_key(url));
            assert(entry_keys(back.discovered_apps@).contains(url));
            let i = entry_keys(back.discovered_apps@).index_of(url);
            assert(entry_keys(back.discovered_apps@)[i] == url);
            assert(back.discovered_apps@[i].0@ == url);
            assert(discovered_reads_as(back.discovered_apps@[i].1, apps[url]));
        }
    }
    match record.last_sync {
        Some(t) => {
            assert(time_round_trips(t));
        },
        None => {},
    }
}

/// A state that is written to its file and read from it is the state that
/// was written: an identical removal-set structure, the same apps on file,
/// the same key. `record` is what was saved of `state`, `read` what reading
/// its document came to, `restored` the state that the record read was
/// restored to.
pub proof fn law_state_survives_the_file(
    state: State,
    record: StateRecord,
    read: Result<StateRecord, String>,
    restored: State,
)
    requires
        record.records(state),
        times_round_trip(record),
        record_read(record_model(record), read),
        read matches Ok(back) ==> back.records(restored),
    ensures
        read is Ok,
        restored.removed() == state.removed(),
        forall|board: Seq<char>, url: Seq<char>|
            restored.is_removed(board, url) == state.is_removed(board, url),
        discovered_views(restored.discovered_apps@) == discovered_views(state.discovered_apps@),
        opt_text(restored.api_key) == opt_text(state.api_key),
        restored.version@ == state.version@,
        restored.first_boot_completed == state.first_boot_completed,
        restored.authelia_sync_completed == state.authelia_sync_completed,
        restored.last_sync == state.last_sync,
{
    law_written_state_reads_back(record, read);
}

} // verus!
