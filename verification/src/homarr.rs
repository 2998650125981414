//! The dashboard's control API: which request stands for which operation,
//! and what its answer means.

use std::collections::hash_map::DefaultHasher;
use std::hash::Hash;
use vstd::prelude::*;
use vstd::string::StringSliceAdditionalSpecFns;
use crate::board::{Board, BoardInfo, BoardItem, ItemLayout, board_has_app, shows_app, items_in_range};
use crate::branding::BrandingConfig;
use crate::error::AdapterError;
use crate::http::{AppPayload, BoardSettings, Body, Method, Payload, Reply, Request, is_success, success};
use crate::placement::{find_next_position, next_position, place_next};
use crate::registry::AppDefinition;
use crate::text::{clone_opt, concat, hex_lower, hex_text, opt_text, skip_chars, starts_with, str_eq, trim_end_char, without_trailing};

verus! {

/// The step that onboarding is at, as the dashboard names it.
#[derive(Debug)]
pub struct OnboardingStep {
    pub current: String,
    pub previous: Option<String>,
}

/// An app as the dashboard lists it: enough to find out whether an app
/// with a given address exists already.
#[derive(Debug)]
pub struct SelectableApp {
    pub id: String,
    pub name: String,
    pub icon_url: String,
    pub href: Option<String>,
}

/// Default icon path (relative URL).
pub const DEFAULT_ICON: &'static str = "/icons/docker.svg";

/// The name under which a container reaches the host it runs on.
pub const PING_HOST: &'static str = "host.docker.internal";

/// The complaint about a board on which no position can be computed.
pub const OUT_OF_RANGE: &'static str = "Board holds positions out of range";

/// The number of columns that new items are placed on.
pub const GRID_COLUMNS: i32 = 12;

/// The serialization of the URL `url` after its host has been replaced by
/// `host`; nothing where `url` is no absolute URL or cannot take that host.
pub uninterp spec fn url_with_host(url: Seq<char>, host: Seq<char>) -> Option<Seq<char>>;

/// `url::Url::parse`, `Url::set_host` and the `Display` of `Url`, one after
/// the other: the URL is parsed, given the new host and serialized again.
/// The URL standard's parsing and serialization rules stand behind the
/// name `url_with_host`; a failure of either call gives `None`.
#[verifier::external_body]
fn replace_host(url: &str, host: &str) -> (r: Option<String>)
    ensures
        opt_text(r) == url_with_host(url@, host@),
{
    match url::Url::parse(url) {
        Ok(mut parsed) => match parsed.set_host(Some(host)) {
            Ok(()) => Some(parsed.to_string()),
            Err(_) => None,
        },
        Err(_) => None,
    }
}

/// Derive the address under which the dashboard's container reaches the
/// app: the app's URL with `host.docker.internal` as its host.
pub fn derive_ping_url(app_url: &str) -> (r: Option<String>)
    ensures
        opt_text(r) == url_with_host(app_url@, PING_HOST@),
{
    replace_host(app_url, PING_HOST)
}

/// The bytes that a URL may hold as they are: letters, digits and `-._~`.
pub open spec fn unreserved(b: u8) -> bool {
    ||| 0x30 <= b <= 0x39
    ||| 0x41 <= b <= 0x5a
    ||| 0x61 <= b <= 0x7a
    ||| b == 0x2d
    ||| b == 0x2e
    ||| b == 0x5f
    ||| b == 0x7e
}

/// The upper-case hexadecimal digit of value `d`.
pub open spec fn upper_hex_digit(d: int) -> char {
    "0123456789ABCDEF"@[d]
}

/// One byte, percent-encoded.
pub open spec fn escaped_byte(b: u8) -> Seq<char> {
    if unreserved(b) {
        seq![b as char]
    } else {
        seq!['%', upper_hex_digit(b as int / 16), upper_hex_digit(b as int % 16)]
    }
}

/// The percent-encoding of a sequence of bytes.
pub open spec fn percent_encoded(bytes: Seq<u8>) -> Seq<char>
    decreases bytes.len(),
{
    if bytes.len() == 0 {
        Seq::empty()
    } else {
        escaped_byte(bytes.first()) + percent_encoded(bytes.drop_first())
    }
}

/// `urlencoding::encode`: every byte of the UTF-8 form of `s` but letters,
/// digits and `-._~` is replaced by `%` and its two upper-case hexadecimal
/// digits.
#[verifier::external_body]
fn percent_encode(s: &str) -> (r: String)
    ensures
        r@ == percent_encoded(s.spec_bytes()),
{
    urlencoding::encode(s).into_owned()
}

/// `Hash::hash` of a string slice into a `DefaultHasher`. What is written
/// to the hasher is not documented, so nothing is said of its state.
#[verifier::external_body]
fn hash_text(s: &str, state: &mut DefaultHasher) {
    s.hash(state)
}

/// A number that identifies `s` within one build of the adapter.
fn string_hash(s: &str) -> u64 {
    let mut hasher = DefaultHasher::new();
    hash_text(s, &mut hasher);
    std::hash::Hasher::finish(&hasher)
}

/// What stands for an icon at `path`.
///
/// Icons are served from `/icons/`, which maps to `/usr/share/pixmaps`:
/// - `/usr/share/pixmaps/app.png` becomes `/icons/app.png`
/// - HTTP and HTTPS URLs stay as they are
/// - paths under `/icons/` stay as they are
/// - everything else becomes the default icon
pub open spec fn transformed_icon(path: Seq<char>) -> Seq<char> {
    if path.len() == 0 {
        DEFAULT_ICON@
    } else if "http://"@.is_prefix_of(path) || "https://"@.is_prefix_of(path) {
        path
    } else if "/icons/"@.is_prefix_of(path) {
        path
    } else if "/usr/share/pixmaps/"@.is_prefix_of(path) {
        if path.len() == "/usr/share/pixmaps/"@.len() {
            DEFAULT_ICON@
        } else {
            "/icons/"@ + path.skip("/usr/share/pixmaps/"@.len() as int)
        }
    } else {
        DEFAULT_ICON@
    }
}

/// Transform icon paths to relative URLs for the dashboard.
pub fn transform_icon_url(icon_path: &str) -> (r: String)
    ensures
        r@ == transformed_icon(icon_path@),
{
    if icon_path.is_empty() {
        return DEFAULT_ICON.to_owned();
    }
    if starts_with(icon_path, "http://") || starts_with(icon_path, "https://") {
        return icon_path.to_owned();
    }
    if starts_with(icon_path, "/icons/") {
        return icon_path.to_owned();
    }
    if starts_with(icon_path, "/usr/share/pixmaps/") {
        proof {
            reveal_strlit("/usr/share/pixmaps/");
        }
        let n = icon_path.unicode_len();
        if n == 19 {
            return DEFAULT_ICON.to_owned();
        }
        let file = skip_chars(icon_path, 19);
        return concat("/icons/", file.as_str());
    }
    DEFAULT_ICON.to_owned()
}

/// The icon that the dashboard is given for `app`.
pub open spec fn icon_of(app: AppDefinition) -> Seq<char> {
    match app.icon_url {
        Some(icon) => transformed_icon(icon@),
        None => transformed_icon(DEFAULT_ICON@),
    }
}

/// The address at which the dashboard checks whether `app` is up: none for
/// an external link, else the one that the definition names, else the one
/// derived from the app's URL.
pub open spec fn ping_of(app: AppDefinition) -> Option<Seq<char>> {
    if app.app_type.external {
        None
    } else {
        match app.ping_url {
            Some(ping) => Some(ping@),
            None => url_with_host(app.url@, PING_HOST@),
        }
    }
}

/// Whether `payload` describes `app`, to be filed under `id`.
pub open spec fn describes_app(payload: AppPayload, app: AppDefinition, id: Option<Seq<char>>) -> bool {
    &&& opt_text(payload.id) == id
    &&& payload.name@ == app.name@
    &&& payload.description@ == match app.description {
        Some(d) => d@,
        None => Seq::<char>::empty(),
    }
    &&& payload.icon_url@ == icon_of(app)
    &&& payload.href@ == app.url@
    &&& opt_text(payload.ping_url) == ping_of(app)
}

/// What the dashboard is told of `app`.
pub fn app_payload(app: &AppDefinition, id: Option<&str>) -> (payload: AppPayload)
    ensures
        describes_app(
            payload,
            *app,
            match id {
                Some(i) => Some(i@),
                None => None,
            },
        ),
{
    let icon_url = match &app.icon_url {
        Some(icon) => transform_icon_url(icon.as_str()),
        None => transform_icon_url(DEFAULT_ICON),
    };
    let ping_url = if app.is_external() {
        None
    } else {
        match &app.ping_url {
            Some(ping) => Some(ping.clone()),
            None => derive_ping_url(app.url.as_str()),
        }
    };
    let description = match &app.description {
        Some(d) => d.clone(),
        None => String::new(),
    };
    AppPayload {
        id: match id {
            Some(i) => Some(i.to_owned()),
            None => None,
        },
        name: app.name.clone(),
        description,
        icon_url,
        href: app.url.clone(),
        ping_url,
    }
}

impl SelectableApp {
    /// Whether the app leads to `url`.
    pub open spec fn links_to(self, url: Seq<char>) -> bool {
        match self.href {
            Some(href) => href@ == url,
            None => false,
        }
    }
}

/// The index of the first app from `from` on that leads to `url`.
pub open spec fn first_linking_from(apps: Seq<SelectableApp>, url: Seq<char>, from: int) -> Option<
    int,
>
    decreases apps.len() - from,
{
    if from >= apps.len() {
        None
    } else if from >= 0 && apps[from].links_to(url) {
        Some(from)
    } else {
        first_linking_from(apps, url, from + 1)
    }
}

/// The index of the first app that leads to `url`.
pub open spec fn first_linking(apps: Seq<SelectableApp>, url: Seq<char>) -> Option<int> {
    first_linking_from(apps, url, 0)
}

/// What `first_linking_from` finds leads to `url`, and nothing before it
/// does; it finds nothing only where no app leads to `url`.
pub proof fn lemma_first_linking_from(apps: Seq<SelectableApp>, url: Seq<char>, from: int)
    requires
        0 <= from,
    ensures
        match first_linking_from(apps, url, from) {
            Some(i) => {
                &&& from <= i < apps.len()
                &&& apps[i].links_to(url)
                &&& forall|j: int| from <= j < i ==> !(#[trigger] apps[j]).links_to(url)
            },
            None => forall|j: int| from <= j < apps.len() ==> !(#[trigger] apps[j]).links_to(url),
        },
    decreases apps.len() - from,
{
    if from < apps.len() && !apps[from].links_to(url) {
        lemma_first_linking_from(apps, url, from + 1);
    }
}

/// Find an existing app by URL in a list fetched before.
pub fn find_app_in_list<'a>(apps: &'a Vec<SelectableApp>, url: &str) -> (r: Option<
    &'a SelectableApp,
>)
    ensures
        match first_linking(apps@, url@) {
            Some(i) => r == Some(&apps@[i]),
            None => r is None,
        },
{
    let mut i: usize = 0;
    while i < apps.len()
        invariant
            i <= apps.len(),
            first_linking(apps@, url@) == first_linking_from(apps@, url@, i as int),
        decreases apps.len() - i,
    {
        match &apps[i].href {
            Some(href) => {
                if str_eq(href.as_str(), url) {
                    return Some(&apps[i]);
                }
            },
            None => {},
        }
        i += 1;
    }
    None
}

/// The identifier of the board item that shows an app: the container's name
/// where the app runs in one, else a number drawn from the app's URL.
pub open spec fn item_id_text(container: Option<Seq<char>>, url_hash: u64) -> Seq<char> {
    match container {
        Some(name) => "registry-"@ + name,
        None => "registry-"@ + hex_text(url_hash as nat),
    }
}

/// The identifier of the board item for an app in `container`, or for an
/// app without container whose URL has the hash `url_hash`.
pub fn registry_item_id(container: Option<&str>, url_hash: u64) -> (r: String)
    ensures
        r@ == item_id_text(
            match container {
                Some(c) => Some(c@),
                None => None,
            },
            url_hash,
        ),
{
    match container {
        Some(name) => concat("registry-", name),
        None => {
            let digits = hex_lower(url_hash);
            concat("registry-", digits.as_str())
        },
    }
}

/// What is to be done to have an app on the dashboard.
#[derive(Debug)]
pub enum Upsert {
    /// An app with the same address exists: it is updated and keeps its id.
    Update { id: String, request: Request },
    /// No app has this address: one is created.
    Create { request: Request },
}

/// What is to be done to have an app on a board.
#[derive(Debug)]
pub enum BoardPlan {
    /// The board shows the app already; nothing is sent.
    AlreadyPresent,
    /// The board is saved with one more item, which shows the app.
    Append { request: Request },
}

/// Homarr API client: the dashboard's address and the credential under
/// which requests are made.
#[derive(Debug)]
pub struct HomarrClient {
    pub base_url: String,
    pub api_key: Option<String>,
}

/// The argument of the board query for the board named `name`.
pub open spec fn board_query(name: Seq<char>) -> Seq<char> {
    "{\"json\":{\"name\":\""@ + name + "\"}}"@
}

/// The position that `app` asks for, or the next free one on a board that
/// holds `items`.
pub open spec fn position_for(app: AppDefinition, items: Seq<BoardItem>) -> (int, int) {
    match (app.layout.x_offset, app.layout.y_offset) {
        (Some(x), Some(y)) => (x as int, y as int),
        _ => next_position(items, GRID_COLUMNS as int),
    }
}

/// Whether `app` names its own position.
pub open spec fn has_explicit_position(app: AppDefinition) -> bool {
    app.layout.x_offset is Some && app.layout.y_offset is Some
}

/// Whether `item` is the item that puts the app `app_id` on `board`.
pub open spec fn is_item_for(item: BoardItem, app_id: Seq<char>, app: AppDefinition, board: Board) -> bool {
    &&& exists|h: u64| item.id@ == item_id_text(opt_text(app.app_type.container_name), h)
    &&& item.kind@ == "app"@
    &&& item.shows(app_id)
    &&& item.source is None
    &&& item.layouts matches Some(layouts)
    &&& layouts@.len() == 1
    &&& layouts@[0].layout_id@ == (if board.layouts@.len() > 0 {
        board.layouts@[0].id@
    } else {
        Seq::<char>::empty()
    })
    &&& layouts@[0].section_id@ == (if board.sections@.len() > 0 {
        board.sections@[0].id@
    } else {
        Seq::<char>::empty()
    })
    &&& layouts@[0].width == Some(app.layout.width as i32)
    &&& layouts@[0].height == Some(app.layout.height as i32)
    &&& layouts@[0].col() == position_for(app, board.items@).0
    &&& layouts@[0].row() == position_for(app, board.items@).1
    &&& layouts@[0].x_offset is Some
    &&& layouts@[0].y_offset is Some
}

impl HomarrClient {
    /// Create a new client for the dashboard at `base_url`. Slashes at the
    /// end of the address are dropped.
    pub fn new(base_url: &str) -> (r: Result<Self, AdapterError>)
        ensures
            r matches Ok(client) && client.base_url@ == without_trailing(base_url@, '/')
                && client.api_key is None,
    {
        Ok(HomarrClient { base_url: trim_end_char(base_url, '/'), api_key: None })
    }

    /// Makes every later request present `key`.
    pub fn set_api_key(&mut self, key: String)
        ensures
            final(self).api_key == Some(key),
            final(self).base_url == old(self).base_url,
    {
        self.api_key = Some(key);
    }

    /// Whether `r` is a GET of `path` under the client's credential.
    pub open spec fn gets(self, r: Request, path: Seq<char>) -> bool {
        &&& r.method == Method::Get
        &&& r.url@ == self.base_url@ + path
        &&& r.api_key == self.api_key
        &&& r.body is Empty
    }

    /// Whether `r` is a POST to `path` under the client's credential.
    pub open spec fn posts(self, r: Request, path: Seq<char>) -> bool {
        &&& r.method == Method::Post
        &&& r.url@ == self.base_url@ + path
        &&& r.api_key == self.api_key
    }

    fn get(&self, path: &str) -> (r: Request)
        ensures
            self.gets(r, path@),
    {
        Request {
            method: Method::Get,
            url: concat(self.base_url.as_str(), path),
            api_key: clone_opt(&self.api_key),
            body: Body::Empty,
        }
    }

    fn post(&self, path: &str, payload: Payload) -> (r: Request)
        ensures
            self.posts(r, path@),
            r.body == Body::Json(payload),
    {
        Request {
            method: Method::Post,
            url: concat(self.base_url.as_str(), path),
            api_key: clone_opt(&self.api_key),
            body: Body::Json(payload),
        }
    }
}

/// The complaint about a request that the dashboard refused: what was
/// attempted, then what the dashboard said.
pub open spec fn refusal(attempt: Seq<char>, said: Seq<char>) -> Seq<char> {
    attempt + ": "@ + said
}

fn refused(attempt: &str, said: &str) -> (e: AdapterError)
    ensures
        e matches AdapterError::HomarrApi(m) && m@ == refusal(attempt@, said@),
{
    let mut m = concat(attempt, ": ");
    m.append(said);
    AdapterError::HomarrApi(m)
}

/// What was attempted on the app `name`, for a complaint.
pub open spec fn app_attempt(verb: Seq<char>, name: Seq<char>) -> Seq<char> {
    "Failed to "@ + verb + " registry app '"@ + name + "'"@
}

fn attempt_on_app(verb: &str, name: &str) -> (r: String)
    ensures
        r@ == app_attempt(verb@, name@),
{
    let mut m = concat("Failed to ", verb);
    m.append(" registry app '");
    m.append(name);
    m.append("'");
    m
}

/// What was attempted when the list of apps was asked for and the
/// dashboard answered with `status`.
pub open spec fn fetch_attempt(status: u16) -> Seq<char> {
    "Failed to fetch apps ("@ + crate::text::decimal_text(status as nat) + ")"@
}

/// The outcome of an operation that the dashboard may refuse: `Http` when
/// it was not reached, a refusal with the answer's text when the status is
/// no success, else success.
pub open spec fn accepted<T>(reply: Reply<T>, attempt: Seq<char>, r: Result<(), AdapterError>) -> bool {
    match reply {
        Reply::Failed(why) => r == Err::<(), AdapterError>(AdapterError::Http(why)),
        Reply::Answer { status, text, .. } => if success(status) {
            r is Ok
        } else {
            r matches Err(AdapterError::HomarrApi(m)) && m@ == refusal(attempt, text@)
        },
    }
}

fn check_accepted<T>(reply: Reply<T>, attempt: &str) -> (r: Result<(), AdapterError>)
    ensures
        accepted(reply, attempt@, r),
{
    match reply {
        Reply::Failed(why) => Err(AdapterError::Http(why)),
        Reply::Answer { status, text, decoded } => {
            if is_success(status) {
                Ok(())
            } else {
                Err(refused(attempt, text.as_str()))
            }
        },
    }
}

/// The outcome of an operation whose answer carries a value: as `accepted`,
/// and `Json` when the status is a success and the body is not what was
/// expected.
pub open spec fn answered<T>(reply: Reply<T>, attempt: Seq<char>, r: Result<T, AdapterError>) -> bool {
    match reply {
        Reply::Failed(why) => r == Err::<T, AdapterError>(AdapterError::Http(why)),
        Reply::Answer { status, text, decoded } => if !success(status) {
            r matches Err(AdapterError::HomarrApi(m)) && m@ == refusal(attempt, text@)
        } else {
            match decoded {
                Ok(v) => r == Ok::<T, AdapterError>(v),
                Err(why) => r == Err::<T, AdapterError>(AdapterError::Json(why)),
            }
        },
    }
}

fn check_answered<T>(reply: Reply<T>, attempt: &str) -> (r: Result<T, AdapterError>)
    ensures
        answered(reply, attempt@, r),
{
    match reply {
        Reply::Failed(why) => Err(AdapterError::Http(why)),
        Reply::Answer { status, text, decoded } => {
            if !is_success(status) {
                Err(refused(attempt, text.as_str()))
            } else {
                match decoded {
                    Ok(v) => Ok(v),
                    Err(why) => Err(AdapterError::Json(why)),
                }
            }
        },
    }
}

impl HomarrClient {
    /// Asks which step onboarding is at.
    pub fn onboarding_step_request(&self) -> (r: Request)
        ensures
            self.gets(r, "/api/trpc/onboard.currentStep"@),
    {
        self.get("/api/trpc/onboard.currentStep")
    }

    /// Get current onboarding step: `Http` when the dashboard was not
    /// reached, `Json` when its answer names no step.
    pub fn get_onboarding_step(&self, reply: Reply<OnboardingStep>) -> (r: Result<
        OnboardingStep,
        AdapterError,
    >)
        ensures
            match reply {
                Reply::Failed(why) => r == Err::<OnboardingStep, AdapterError>(
                    AdapterError::Http(why),
                ),
                Reply::Answer { decoded: Err(why), .. } => r == Err::<OnboardingStep, AdapterError>(
                    AdapterError::Json(why),
                ),
                Reply::Answer { decoded: Ok(step), .. } => r == Ok::<OnboardingStep, AdapterError>(
                    step,
                ),
            },
    {
        crate::http::decoded(reply)
    }

    /// Advance to the next onboarding step.
    pub fn advance_onboarding_step_request(&self) -> (r: Request)
        ensures
            self.posts(r, "/api/trpc/onboard.nextStep"@),
            r.body == Body::Json(Payload::Nothing),
    {
        self.post("/api/trpc/onboard.nextStep", Payload::Nothing)
    }

    /// Create the initial administrator with the branding's credentials.
    pub fn create_initial_user_request(&self, branding: &BrandingConfig) -> (r: Request)
        ensures
            self.posts(r, "/api/trpc/user.initUser"@),
            r.body == Body::Json(
                Payload::InitUser {
                    username: branding.credentials.admin_username,
                    password: branding.credentials.admin_password,
                    confirm_password: branding.credentials.admin_password,
                },
            ),
    {
        self.post(
            "/api/trpc/user.initUser",
            Payload::InitUser {
                username: branding.credentials.admin_username.clone(),
                password: branding.credentials.admin_password.clone(),
                confirm_password: branding.credentials.admin_password.clone(),
            },
        )
    }

    /// Whether the administrator was created. A refusal is final: the same
    /// request would be refused the same way.
    pub fn create_initial_user(&self, reply: Reply<()>) -> (r: Result<(), AdapterError>)
        ensures
            accepted(reply, "Failed to create user"@, r),
    {
        check_accepted(reply, "Failed to create user")
    }

    /// Configure the server settings from the branding.
    pub fn configure_settings_request(&self, branding: &BrandingConfig) -> (r: Request)
        ensures
            self.posts(r, "/api/trpc/serverSettings.initSettings"@),
            r.body == Body::Json(
                Payload::InitSettings {
                    analytics: branding.settings.analytics,
                    crawling: branding.settings.crawling,
                },
            ),
    {
        self.post(
            "/api/trpc/serverSettings.initSettings",
            Payload::InitSettings {
                analytics: branding.settings.analytics,
                crawling: branding.settings.crawling,
            },
        )
    }
}

/// The settings that branding gives the board `board_id`.
pub open spec fn branded(settings: BoardSettings, board_id: Seq<char>, branding: BrandingConfig) -> bool {
    &&& settings.id@ == board_id
    &&& settings.page_title == branding.identity.page_title
    &&& settings.meta_title == branding.identity.meta_title
    &&& settings.logo_image_url == branding.identity.logo_image_url
    &&& settings.favicon_image_url == branding.identity.favicon_image_url
    &&& settings.primary_color == branding.theme.primary_color
    &&& settings.secondary_color == branding.theme.secondary_color
    &&& settings.opacity == branding.theme.opacity
    &&& settings.item_radius == branding.theme.item_radius
    &&& settings.background_image_url == branding.theme.background_image_url
    &&& settings.custom_css == branding.theme.custom_css
}

impl HomarrClient {
    /// Asks for the token that a login has to present.
    pub fn csrf_request(&self) -> (r: Request)
        ensures
            self.gets(r, "/api/auth/csrf"@),
    {
        self.get("/api/auth/csrf")
    }

    /// Log in with the branding's credentials and the token `csrf_token`.
    pub fn login_request(&self, csrf_token: &str, branding: &BrandingConfig) -> (r: Request)
        ensures
            self.posts(r, "/api/auth/callback/credentials"@),
            r.body matches Body::Form(fields) && fields@.len() == 3 && fields@[0].0@ == "csrfToken"@
                && fields@[0].1@ == csrf_token@ && fields@[1].0@ == "name"@ && fields@[1].1
                == branding.credentials.admin_username && fields@[2].0@ == "password"@
                && fields@[2].1 == branding.credentials.admin_password,
    {
        let mut fields: Vec<(String, String)> = Vec::new();
        fields.push(("csrfToken".to_owned(), csrf_token.to_owned()));
        fields.push(("name".to_owned(), branding.credentials.admin_username.clone()));
        fields.push(("password".to_owned(), branding.credentials.admin_password.clone()));
        Request {
            method: Method::Post,
            url: concat(self.base_url.as_str(), "/api/auth/callback/credentials"),
            api_key: clone_opt(&self.api_key),
            body: Body::Form(fields),
        }
    }

    /// Whether the login went through: the dashboard answers a login with a
    /// success or with a redirect.
    pub fn login(&self, reply: Reply<()>) -> (r: Result<(), AdapterError>)
        ensures
            match reply {
                Reply::Failed(why) => r == Err::<(), AdapterError>(AdapterError::Http(why)),
                Reply::Answer { status, .. } => if success(status) || status == 302 {
                    r is Ok
                } else {
                    r matches Err(AdapterError::AuthRejected(m)) && m@ == "Login failed"@
                },
            },
    {
        match reply {
            Reply::Failed(why) => Err(AdapterError::Http(why)),
            Reply::Answer { status, text, decoded } => {
                if is_success(status) || status == 302 {
                    Ok(())
                } else {
                    Err(AdapterError::AuthRejected("Login failed".to_owned()))
                }
            },
        }
    }

    /// Exchanges the one-time bootstrap key for a permanent one. The request
    /// is made under the bootstrap key, whatever key the client holds.
    pub fn rotate_api_key_request(&self, bootstrap_key: &str) -> (r: Request)
        ensures
            r.method == Method::Post,
            r.url@ == self.base_url@ + "/api/trpc/apiKeys.create"@,
            opt_text(r.api_key) == Some(bootstrap_key@),
            r.body == Body::Json(Payload::Nothing),
    {
        Request {
            method: Method::Post,
            url: concat(self.base_url.as_str(), "/api/trpc/apiKeys.create"),
            api_key: Some(bootstrap_key.to_owned()),
            body: Body::Json(Payload::Nothing),
        }
    }

    /// The permanent key that the dashboard handed out. A bootstrap key
    /// that is wrong or used up is `AuthRejected`, with the dashboard's
    /// words.
    pub fn rotate_api_key(&self, reply: Reply<String>) -> (r: Result<String, AdapterError>)
        ensures
            match reply {
                Reply::Failed(why) => r == Err::<String, AdapterError>(AdapterError::Http(why)),
                Reply::Answer { status, text, decoded } => if !success(status) {
                    r == Err::<String, AdapterError>(AdapterError::AuthRejected(text))
                } else {
                    match decoded {
                        Ok(key) => r == Ok::<String, AdapterError>(key),
                        Err(why) => r == Err::<String, AdapterError>(AdapterError::Json(why)),
                    }
                },
            },
    {
        match reply {
            Reply::Failed(why) => Err(AdapterError::Http(why)),
            Reply::Answer { status, text, decoded } => {
                if !is_success(status) {
                    Err(AdapterError::AuthRejected(text))
                } else {
                    match decoded {
                        Ok(key) => Ok(key),
                        Err(why) => Err(AdapterError::Json(why)),
                    }
                }
            },
        }
    }

    /// Asks for the boards that the adapter may write to.
    pub fn writable_boards_request(&self) -> (r: Request)
        ensures
            self.gets(r, "/api/trpc/board.getAllBoards"@),
    {
        self.get("/api/trpc/board.getAllBoards")
    }

    /// The boards that the adapter may write to.
    pub fn get_writable_boards(&self, reply: Reply<Vec<BoardInfo>>) -> (r: Result<
        Vec<BoardInfo>,
        AdapterError,
    >)
        ensures
            answered(reply, "Failed to fetch boards"@, r),
    {
        check_answered(reply, "Failed to fetch boards")
    }

    /// Asks for the board named `name`, with its sections, layouts and
    /// items.
    pub fn board_by_name_request(&self, name: &str) -> (r: Request)
        ensures
            self.gets(r, Self::board_path(name@)),
    {
        let mut query = concat("{\"json\":{\"name\":\"", name);
        query.append("\"}}");
        let encoded = percent_encode(query.as_str());
        let path = concat("/api/trpc/board.getBoardByName?input=", encoded.as_str());
        self.get(path.as_str())
    }

    /// Get board by name. A board that the dashboard does not have is
    /// `NotFound`: the caller decides between creating and reusing.
    pub fn get_board_by_name(&self, reply: Reply<Board>) -> (r: Result<Board, AdapterError>)
        ensures
            match reply {
                Reply::Failed(why) => r == Err::<Board, AdapterError>(AdapterError::Http(why)),
                Reply::Answer { status, text, decoded } => if !success(status) {
                    r matches Err(AdapterError::NotFound(m)) && m@ == "Board not found"@
                } else {
                    match decoded {
                        Ok(board) => r == Ok::<Board, AdapterError>(board),
                        Err(why) => r == Err::<Board, AdapterError>(AdapterError::Json(why)),
                    }
                },
            },
    {
        match reply {
            Reply::Failed(why) => Err(AdapterError::Http(why)),
            Reply::Answer { status, text, decoded } => {
                if !is_success(status) {
                    Err(AdapterError::NotFound("Board not found".to_owned()))
                } else {
                    match decoded {
                        Ok(board) => Ok(board),
                        Err(why) => Err(AdapterError::Json(why)),
                    }
                }
            },
        }
    }

    /// Get board items. A board that the dashboard does not have has no
    /// items.
    pub fn get_board_items(&self, reply: Reply<Board>) -> (r: Result<Vec<BoardItem>, AdapterError>)
        ensures
            match reply {
                Reply::Failed(why) => r == Err::<Vec<BoardItem>, AdapterError>(
                    AdapterError::Http(why),
                ),
                Reply::Answer { status, text, decoded } => if !success(status) {
                    r matches Ok(items) && items@.len() == 0
                } else {
                    match decoded {
                        Ok(board) => r == Ok::<Vec<BoardItem>, AdapterError>(board.items),
                        Err(why) => r == Err::<Vec<BoardItem>, AdapterError>(
                            AdapterError::Json(why),
                        ),
                    }
                },
            },
    {
        match reply {
            Reply::Failed(why) => Err(AdapterError::Http(why)),
            Reply::Answer { status, text, decoded } => {
                if !is_success(status) {
                    Ok(Vec::new())
                } else {
                    match decoded {
                        Ok(board) => Ok(board.items),
                        Err(why) => Err(AdapterError::Json(why)),
                    }
                }
            },
        }
    }

    /// Create the branding's default board.
    pub fn create_board_request(&self, branding: &BrandingConfig) -> (r: Request)
        ensures
            self.posts(r, "/api/trpc/board.createBoard"@),
            r.body == Body::Json(
                Payload::CreateBoard {
                    name: branding.board.name,
                    column_count: branding.board.column_count,
                    is_public: branding.board.is_public,
                },
            ),
    {
        self.post(
            "/api/trpc/board.createBoard",
            Payload::CreateBoard {
                name: branding.board.name.clone(),
                column_count: branding.board.column_count,
                is_public: branding.board.is_public,
            },
        )
    }

    /// The id of the board that was created.
    pub fn create_board(&self, reply: Reply<String>) -> (r: Result<String, AdapterError>)
        ensures
            match reply {
                Reply::Failed(why) => r == Err::<String, AdapterError>(AdapterError::Http(why)),
                Reply::Answer { decoded: Err(why), .. } => r == Err::<String, AdapterError>(
                    AdapterError::Json(why),
                ),
                Reply::Answer { decoded: Ok(id), .. } => r == Ok::<String, AdapterError>(id),
            },
    {
        crate::http::decoded(reply)
    }

    /// Save board branding settings (page title, meta title, logo, favicon,
    /// colors). Settings that the branding leaves open are not sent.
    pub fn save_board_branding_settings_request(&self, board_id: &str, branding: &BrandingConfig) -> (r:
        Request)
        ensures
            self.posts(r, "/api/trpc/board.savePartialBoardSettings"@),
            r.body matches Body::Json(Payload::BoardSettings(settings)) && branded(
                settings,
                board_id@,
                *branding,
            ),
    {
        let settings = BoardSettings {
            id: board_id.to_owned(),
            page_title: clone_opt(&branding.identity.page_title),
            meta_title: clone_opt(&branding.identity.meta_title),
            logo_image_url: clone_opt(&branding.identity.logo_image_url),
            favicon_image_url: clone_opt(&branding.identity.favicon_image_url),
            primary_color: branding.theme.primary_color.clone(),
            secondary_color: branding.theme.secondary_color.clone(),
            opacity: branding.theme.opacity,
            item_radius: branding.theme.item_radius.clone(),
            background_image_url: clone_opt(&branding.theme.background_image_url),
            custom_css: clone_opt(&branding.theme.custom_css),
        };
        self.post("/api/trpc/board.savePartialBoardSettings", Payload::BoardSettings(settings))
    }

    /// Whether setup goes on after the branding settings were sent: it does
    /// unless the dashboard was not reached. A refusal of the settings is
    /// not worth failing the setup for.
    pub fn save_board_branding_settings(&self, reply: Reply<()>) -> (r: Result<(), AdapterError>)
        ensures
            match reply {
                Reply::Failed(why) => r == Err::<(), AdapterError>(AdapterError::Http(why)),
                Reply::Answer { .. } => r is Ok,
            },
    {
        crate::http::delivered(reply)
    }

    /// Set home board.
    pub fn set_home_board_request(&self, board_id: &str) -> (r: Request)
        ensures
            self.posts(r, "/api/trpc/board.setHomeBoard"@),
            r.body matches Body::Json(Payload::BoardId { id }) && id@ == board_id@,
    {
        self.post("/api/trpc/board.setHomeBoard", Payload::BoardId { id: board_id.to_owned() })
    }

    /// Set color scheme.
    pub fn set_color_scheme_request(&self, scheme: &str) -> (r: Request)
        ensures
            self.posts(r, "/api/trpc/user.changeColorScheme"@),
            r.body matches Body::Json(Payload::ColorScheme { color_scheme }) && color_scheme@
                == scheme@,
    {
        self.post(
            "/api/trpc/user.changeColorScheme",
            Payload::ColorScheme { color_scheme: scheme.to_owned() },
        )
    }

    /// Asks for all apps. One such list serves a whole cycle.
    pub fn all_apps_request(&self) -> (r: Request)
        ensures
            self.gets(r, "/api/trpc/app.selectable"@),
    {
        self.get("/api/trpc/app.selectable")
    }

    /// Get all apps (minimal data for matching).
    pub fn get_all_apps(&self, reply: Reply<Vec<SelectableApp>>) -> (r: Result<
        Vec<SelectableApp>,
        AdapterError,
    >)
        ensures
            match reply {
                Reply::Failed(why) => r == Err::<Vec<SelectableApp>, AdapterError>(
                    AdapterError::Http(why),
                ),
                Reply::Answer { status, text, decoded } => if !success(status) {
                    r matches Err(AdapterError::HomarrApi(m)) && m@ == refusal(
                        fetch_attempt(status),
                        text@,
                    )
                } else {
                    match decoded {
                        Ok(apps) => r == Ok::<Vec<SelectableApp>, AdapterError>(apps),
                        Err(why) => r == Err::<Vec<SelectableApp>, AdapterError>(
                            AdapterError::Json(why),
                        ),
                    }
                },
            },
    {
        match reply {
            Reply::Failed(why) => Err(AdapterError::Http(why)),
            Reply::Answer { status, text, decoded } => {
                if !is_success(status) {
                    let code = crate::text::decimal(status as u64);
                    let mut attempt = concat("Failed to fetch apps (", code.as_str());
                    attempt.append(")");
                    Err(refused(attempt.as_str(), text.as_str()))
                } else {
                    match decoded {
                        Ok(apps) => Ok(apps),
                        Err(why) => Err(AdapterError::Json(why)),
                    }
                }
            },
        }
    }

    /// What `add_registry_app` decides.
    pub open spec fn upserts(self, app: AppDefinition, existing: Seq<SelectableApp>, r: Upsert) -> bool {
        match first_linking(existing, app.url@) {
            Some(i) => {
                &&& r matches Upsert::Update { id, request }
                &&& id@ == existing[i].id@
                &&& self.posts(request, "/api/trpc/app.update"@)
                &&& request.body matches Body::Json(Payload::App(payload))
                &&& describes_app(payload, app, Some(id@))
            },
            None => {
                &&& r matches Upsert::Create { request }
                &&& self.posts(request, "/api/trpc/app.create"@)
                &&& request.body matches Body::Json(Payload::App(payload))
                &&& describes_app(payload, app, None)
            },
        }
    }

    /// `request` is what `add_registry_app` sends for `app`: an update of
    /// the first app with the same address, or a creation where there is
    /// none.
    pub open spec fn upserts_by(self, app: AppDefinition, existing: Seq<SelectableApp>, request: Request) -> bool {
        match first_linking(existing, app.url@) {
            Some(i) => {
                &&& self.posts(request, "/api/trpc/app.update"@)
                &&& request.body matches Body::Json(Payload::App(payload))
                &&& describes_app(payload, app, Some(existing[i].id@))
            },
            None => {
                &&& self.posts(request, "/api/trpc/app.create"@)
                &&& request.body matches Body::Json(Payload::App(payload))
                &&& describes_app(payload, app, None)
            },
        }
    }

    /// The path under which the board named `name` is asked for.
    pub open spec fn board_path(name: Seq<char>) -> Seq<char> {
        "/api/trpc/board.getBoardByName?input="@ + percent_encoded(
            vstd::utf8::encode_utf8(board_query(name)),
        )
    }

    /// Decides how `app` gets onto the dashboard, given the apps that are
    /// there: an app with the same address is updated under its id, else a
    /// new app is created. The first app with that address counts.
    pub fn add_registry_app(&self, app: &AppDefinition, existing_apps: &Vec<SelectableApp>) -> (r:
        Upsert)
        ensures
            self.upserts(*app, existing_apps@, r),
    {
        match find_app_in_list(existing_apps, app.url.as_str()) {
            Some(existing) => {
                let payload = app_payload(app, Some(existing.id.as_str()));
                Upsert::Update {
                    id: existing.id.clone(),
                    request: self.post("/api/trpc/app.update", Payload::App(payload)),
                }
            },
            None => {
                let payload = app_payload(app, None);
                Upsert::Create { request: self.post("/api/trpc/app.create", Payload::App(payload)) }
            },
        }
    }

    /// The id of the app that was created for `app`.
    pub fn create_registry_app(&self, app: &AppDefinition, reply: Reply<String>) -> (r: Result<
        String,
        AdapterError,
    >)
        ensures
            answered(reply, app_attempt("create"@, app.name@), r),
    {
        let attempt = attempt_on_app("create", app.name.as_str());
        check_answered(reply, attempt.as_str())
    }

    /// Whether the app `app_id` was updated to what `app` says. The app
    /// keeps its id: the board items that show it stay valid.
    pub fn update_registry_app<T>(&self, app_id: String, app: &AppDefinition, reply: Reply<T>) -> (r:
        Result<String, AdapterError>)
        ensures
            accepted(
                reply,
                app_attempt("update"@, app.name@),
                match r {
                    Ok(_) => Ok(()),
                    Err(e) => Err(e),
                },
            ),
            r matches Ok(id) ==> id == app_id,
    {
        let attempt = attempt_on_app("update", app.name.as_str());
        match check_accepted(reply, attempt.as_str()) {
            Ok(_) => Ok(app_id),
            Err(e) => Err(e),
        }
    }

    /// What `add_registry_app_to_board` decides.
    pub open spec fn board_plan(
        self,
        app_id: Seq<char>,
        app: AppDefinition,
        board: Board,
        r: Result<BoardPlan, AdapterError>,
    ) -> bool {
        if shows_app(board.items@, app_id) {
            r matches Ok(BoardPlan::AlreadyPresent)
        } else if !has_explicit_position(app) && !items_in_range(board.items@) {
            r matches Err(AdapterError::HomarrApi(m)) && m@ == OUT_OF_RANGE@
        } else {
            &&& r matches Ok(BoardPlan::Append { request })
            &&& self.posts(request, "/api/trpc/board.saveBoard"@)
            &&& request.body matches Body::Json(Payload::SaveBoard { id, sections, items })
            &&& id == board.id
            &&& sections == board.sections
            &&& items@.len() == board.items@.len() + 1
            &&& items@.drop_last() == board.items@
            &&& is_item_for(items@.last(), app_id, app, board)
        }
    }

    /// Decides how the app `app_id` gets onto `board`, which was read just
    /// now.
    ///
    /// A board that shows the app already is left alone. Else the board is
    /// saved with all its items and one more: a tile for the app, in the
    /// board's first section and first layout, at the position that the
    /// definition names or, where it names none, at the next free position
    /// of a grid of 12 columns. The next free position is computed in `i32`:
    /// a board with positions beyond that range is refused.
    pub fn add_registry_app_to_board(&self, app_id: &str, app: &AppDefinition, board: Board) -> (r:
        Result<BoardPlan, AdapterError>)
        ensures
            self.board_plan(app_id@, *app, board, r),
    {
        if board_has_app(&board.items, app_id) {
            return Ok(BoardPlan::AlreadyPresent);
        }
        let layout = app.effective_layout();
        let (x, y): (i32, i32) = match (layout.x_offset, layout.y_offset) {
            (Some(x), Some(y)) => (x as i32, y as i32),
            _ => match place_next(&board.items, GRID_COLUMNS) {
                Some(position) => position,
                None => {
                    return Err(AdapterError::HomarrApi(OUT_OF_RANGE.to_owned()));
                },
            },
        };
        let section_id = if board.sections.len() > 0 {
            board.sections[0].id.clone()
        } else {
            String::new()
        };
        let layout_id = if board.layouts.len() > 0 {
            board.layouts[0].id.clone()
        } else {
            String::new()
        };
        let item_id = match app.container_name() {
            Some(container) => registry_item_id(Some(container), 0),
            None => registry_item_id(None, string_hash(app.url.as_str())),
        };
        let mut positions: Vec<ItemLayout> = Vec::new();
        positions.push(
            ItemLayout {
                layout_id,
                section_id,
                width: Some(layout.width as i32),
                height: Some(layout.height as i32),
                x_offset: Some(x),
                y_offset: Some(y),
            },
        );
        let item = BoardItem {
            id: item_id,
            kind: "app".to_owned(),
            app_id: Some(app_id.to_owned()),
            layouts: Some(positions),
            source: None,
        };
        let ghost before = board;
        let Board { id, name, sections, layouts, items } = board;
        let mut items = items;
        items.push(item);
        proof {
            assert(items@.drop_last() =~= before.items@);
            assert(items@.last() == item);
            assert(item.shows(app_id@));
        }
        Ok(
            BoardPlan::Append {
                request: self.post(
                    "/api/trpc/board.saveBoard",
                    Payload::SaveBoard { id, sections, items },
                ),
            },
        )
    }

    /// Finds the position for a new item on a board that holds `items`.
    pub fn find_next_position(&self, items: &Vec<BoardItem>, column_count: i32) -> (pos: (i32, i32))
        requires
            items_in_range(items@),
        ensures
            (pos.0 as int, pos.1 as int) == next_position(items@, column_count as int),
    {
        find_next_position(items, column_count)
    }
}

/// A board that was saved with a new item for an app shows that app: the
/// next decision for the same app on that board sends nothing.
pub proof fn law_board_item_is_added_once(
    client: HomarrClient,
    app_id: Seq<char>,
    app: AppDefinition,
    board: Board,
    first: Result<BoardPlan, AdapterError>,
    saved: Board,
    second: Result<BoardPlan, AdapterError>,
)
    requires
        client.board_plan(app_id, app, board, first),
        first matches Ok(BoardPlan::Append { request }) && request.body matches Body::Json(
            Payload::SaveBoard { items, .. },
        ) && saved.items@ == items@,
        client.board_plan(app_id, app, saved, second),
    ensures
        second matches Ok(BoardPlan::AlreadyPresent),
{
    let n = saved.items@.len() - 1;
    assert(saved.items@[n] == saved.items@.last());
    assert(saved.items@[n].shows(app_id));
}

/// An app that was created under an address is found under it: the next
/// decision for a definition with that address updates the app that was
/// created, under whatever id the dashboard gave it, and creates nothing.
pub proof fn law_created_app_is_found(
    apps: Seq<SelectableApp>,
    url: Seq<char>,
    created: SelectableApp,
)
    requires
        first_linking(apps, url) is None,
        created.links_to(url),
    ensures
        first_linking(apps.push(created), url) == Some(apps.len() as int),
{
    lemma_first_linking_from(apps, url, 0);
    let after = apps.push(created);
    lemma_first_linking_from(after, url, 0);
    assert forall|j: int| 0 <= j < apps.len() implies !(#[trigger] after[j]).links_to(url) by {
        assert(after[j] == apps[j]);
    }
    assert(after[apps.len() as int] == created);
}

/// Apps that lead elsewhere do not change which app stands for an address.
pub proof fn law_other_apps_do_not_matter(
    apps: Seq<SelectableApp>,
    url: Seq<char>,
    other: SelectableApp,
)
    requires
        first_linking(apps, url) is Some,
    ensures
        first_linking(apps.push(other), url) == first_linking(apps, url),
{
    lemma_first_linking_from(apps, url, 0);
    let after = apps.push(other);
    lemma_first_linking_from(after, url, 0);
    let i = first_linking(apps, url)->0;
    assert(after[i] == apps[i]);
    assert forall|j: int| 0 <= j < i implies !(#[trigger] after[j]).links_to(url) by {
        assert(after[j] == apps[j]);
    }
}

/// Running twice creates once: where the first run created the app for a
/// definition, the request of the second run for the same definition is an
/// update of that app, under the id that the dashboard gave it.
pub proof fn law_second_run_updates(
    client: HomarrClient,
    app: AppDefinition,
    apps: Seq<SelectableApp>,
    created: SelectableApp,
    request: Request,
)
    requires
        first_linking(apps, app.url@) is None,
        created.links_to(app.url@),
        client.upserts_by(app, apps.push(created), request),
    ensures
        client.posts(request, "/api/trpc/app.update"@),
        request.body matches Body::Json(Payload::App(payload)) && opt_text(payload.id) == Some(
            created.id@,
        ),
{
    law_created_app_is_found(apps, app.url@, created);
}

} // verus!
