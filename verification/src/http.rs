//! Requests to the dashboard and its answers, as values.
//!
//! The adapter does not talk to the network itself. It describes each
//! request; the caller sends it, decodes the answer and hands it back as a
//! `Reply`.

use vstd::prelude::*;
use crate::board::{BoardItem, Section};
use crate::branding::{AnalyticsSettings, CrawlingSettings};
use crate::error::AdapterError;

verus! {

/// The two methods that the dashboard is asked with.
#[derive(Debug, Clone, Copy, PartialEq, Eq, Structural)]
pub enum Method {
    Get,
    Post,
}

/// An app as it is created or updated on the dashboard. With an `id` the
/// app of that id is updated and keeps its id; without, a new app is made.
#[derive(Debug)]
pub struct AppPayload {
    pub id: Option<String>,
    pub name: String,
    pub description: String,
    pub icon_url: String,
    pub href: String,
    pub ping_url: Option<String>,
}

/// The settings of a board that branding touches. A setting that the
/// branding leaves open is `None` and is not sent.
#[derive(Debug)]
pub struct BoardSettings {
    pub id: String,
    pub page_title: Option<String>,
    pub meta_title: Option<String>,
    pub logo_image_url: Option<String>,
    pub favicon_image_url: Option<String>,
    pub primary_color: String,
    pub secondary_color: String,
    pub opacity: u8,
    pub item_radius: String,
    pub background_image_url: Option<String>,
    pub custom_css: Option<String>,
}

/// The value of a setting.
#[derive(Debug)]
pub enum SettingValue {
    Text(String),
    Number(u8),
}

/// A setting that is sent only where it is chosen.
pub open spec fn optional_setting(key: Seq<char>, value: Option<String>) -> Seq<
    (Seq<char>, SettingValue),
> {
    match value {
        Some(text) => seq![(key, SettingValue::Text(text))],
        None => Seq::empty(),
    }
}

/// The keys of `fields`, with their values.
pub open spec fn keyed(fields: Seq<(String, SettingValue)>) -> Seq<(Seq<char>, SettingValue)> {
    Seq::new(fields.len(), |i: int| (fields[i].0@, fields[i].1))
}

fn push_setting(fields: &mut Vec<(String, SettingValue)>, key: &str, value: &String)
    ensures
        keyed(final(fields)@) == keyed(old(fields)@).push((key@, SettingValue::Text(*value))),
{
    fields.push((key.to_owned(), SettingValue::Text(value.clone())));
    assert(keyed(fields@) =~= keyed(old(fields)@).push((key@, SettingValue::Text(*value))));
}

fn push_number(fields: &mut Vec<(String, SettingValue)>, key: &str, value: u8)
    ensures
        keyed(final(fields)@) == keyed(old(fields)@).push((key@, SettingValue::Number(value))),
{
    fields.push((key.to_owned(), SettingValue::Number(value)));
    assert(keyed(fields@) =~= keyed(old(fields)@).push((key@, SettingValue::Number(value))));
}

fn push_optional_setting(fields: &mut Vec<(String, SettingValue)>, key: &str, value: &Option<String>)
    ensures
        keyed(final(fields)@) == keyed(old(fields)@) + optional_setting(key@, *value),
{
    match value {
        Some(text) => {
            push_setting(fields, key, text);
            assert(keyed(old(fields)@).push((key@, SettingValue::Text(*text))) =~= keyed(
                old(fields)@,
            ) + optional_setting(key@, *value));
        },
        None => {
            assert(keyed(fields@) =~= keyed(old(fields)@) + optional_setting(key@, *value));
        },
    }
}

impl BoardSettings {
    /// What is sent of the settings: the board's id, then each chosen
    /// title and image, the colours, the opacity and the radius, then the
    /// background and the style sheet where they are chosen.
    pub open spec fn sent(self) -> Seq<(Seq<char>, SettingValue)> {
        seq![("id"@, SettingValue::Text(self.id))] + optional_setting(
            "pageTitle"@,
            self.page_title,
        ) + optional_setting("metaTitle"@, self.meta_title) + optional_setting(
            "logoImageUrl"@,
            self.logo_image_url,
        ) + optional_setting("faviconImageUrl"@, self.favicon_image_url)
            + seq![
            ("primaryColor"@, SettingValue::Text(self.primary_color)),
            ("secondaryColor"@, SettingValue::Text(self.secondary_color)),
            ("opacity"@, SettingValue::Number(self.opacity)),
            ("itemRadius"@, SettingValue::Text(self.item_radius)),
        ] + optional_setting("backgroundImageUrl"@, self.background_image_url)
            + optional_setting("customCss"@, self.custom_css)
    }

    /// The settings as they are sent, key by key. A setting that was left
    /// open has no key.
    pub fn fields(&self) -> (fields: Vec<(String, SettingValue)>)
        ensures
            keyed(fields@) == self.sent(),
    {
        let mut fields: Vec<(String, SettingValue)> = Vec::new();
        assert(keyed(fields@) =~= Seq::<(Seq<char>, SettingValue)>::empty());
        push_setting(&mut fields, "id", &self.id);
        assert(keyed(fields@) =~= seq![("id"@, SettingValue::Text(self.id))]);
        push_optional_setting(&mut fields, "pageTitle", &self.page_title);
        push_optional_setting(&mut fields, "metaTitle", &self.meta_title);
        push_optional_setting(&mut fields, "logoImageUrl", &self.logo_image_url);
        push_optional_setting(&mut fields, "faviconImageUrl", &self.favicon_image_url);
        let ghost head = keyed(fields@);
        push_setting(&mut fields, "primaryColor", &self.primary_color);
        push_setting(&mut fields, "secondaryColor", &self.secondary_color);
        push_number(&mut fields, "opacity", self.opacity);
        push_setting(&mut fields, "itemRadius", &self.item_radius);
        assert(keyed(fields@) =~= head + seq![
            ("primaryColor"@, SettingValue::Text(self.primary_color)),
            ("secondaryColor"@, SettingValue::Text(self.secondary_color)),
            ("opacity"@, SettingValue::Number(self.opacity)),
            ("itemRadius"@, SettingValue::Text(self.item_radius)),
        ]);
        push_optional_setting(&mut fields, "backgroundImageUrl", &self.background_image_url);
        push_optional_setting(&mut fields, "customCss", &self.custom_css);
        fields
    }
}

/// What a request carries as its JSON argument.
#[derive(Debug)]
pub enum Payload {
    /// The empty object.
    Nothing,
    InitUser { username: String, password: String, confirm_password: String },
    InitSettings { analytics: AnalyticsSettings, crawling: CrawlingSettings },
    BoardSettings(BoardSettings),
    CreateBoard { name: String, column_count: u8, is_public: bool },
    BoardId { id: String },
    ColorScheme { color_scheme: String },
    App(AppPayload),
    /// The whole content of a board. The dashboard replaces what it has by
    /// this: the items are all the items the board is to have, those that
    /// were read from it in the order in which they were read.
    SaveBoard { id: String, sections: Vec<Section>, items: Vec<BoardItem> },
}

/// What a request carries.
#[derive(Debug)]
pub enum Body {
    Empty,
    Json(Payload),
    Form(Vec<(String, String)>),
}

/// The header under which a request presents its API key.
pub const API_KEY_HEADER: &'static str = "ApiKey";

/// A request to the dashboard.
#[derive(Debug)]
pub struct Request {
    pub method: Method,
    pub url: String,
    /// The API key to present, if the request is made under one.
    pub api_key: Option<String>,
    pub body: Body,
}

/// What came of a request. `T` is what the answer's body is expected to
/// hold.
#[derive(Debug)]
pub enum Reply<T> {
    /// The dashboard could not be reached.
    Failed(String),
    /// The dashboard answered. `decoded` is its body read as a `T`, or the
    /// reason why it could not be read so.
    Answer { status: u16, text: String, decoded: Result<T, String> },
}

/// Whether `status` is one of the success codes of HTTP.
pub open spec fn success(status: u16) -> bool {
    200 <= status <= 299
}

/// Whether `status` is one of the success codes of HTTP.
pub fn is_success(status: u16) -> (r: bool)
    ensures
        r == success(status),
{
    200 <= status && status <= 299
}

/// The outcome of a request that tells nothing but whether it was
/// delivered.
pub fn delivered<T>(reply: Reply<T>) -> (r: Result<(), AdapterError>)
    ensures
        match reply {
            Reply::Failed(why) => r == Err::<(), AdapterError>(AdapterError::Http(why)),
            Reply::Answer { .. } => r is Ok,
        },
{
    match reply {
        Reply::Failed(why) => Err(AdapterError::Http(why)),
        Reply::Answer { .. } => Ok(()),
    }
}

/// The body of an answer, whatever its status: `Http` when the dashboard was
/// not reached, `Json` when the body is not what was expected.
pub fn decoded<T>(reply: Reply<T>) -> (r: Result<T, AdapterError>)
    ensures
        match reply {
            Reply::Failed(why) => r == Err::<T, AdapterError>(AdapterError::Http(why)),
            Reply::Answer { decoded: Err(why), .. } => r == Err::<T, AdapterError>(
                AdapterError::Json(why),
            ),
            Reply::Answer { decoded: Ok(value), .. } => r == Ok::<T, AdapterError>(value),
        },
{
    match reply {
        Reply::Failed(why) => Err(AdapterError::Http(why)),
        Reply::Answer { status, text, decoded } => match decoded {
            Ok(value) => Ok(value),
            Err(why) => Err(AdapterError::Json(why)),
        },
    }
}

} // verus!
