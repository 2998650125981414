//! The registry of apps: one definition per descriptor file.
//!
//! Reading the directory and parsing the files is the caller's part. What is
//! decided here: which files count, which definitions are acceptable, and in
//! which order the apps are handed on.

use vstd::prelude::*;
use crate::collections::StrMap;
use crate::error::AdapterError;
use crate::text::{concat, str_eq};

verus! {

/// Default registry directory.
pub const DEFAULT_REGISTRY_DIR: &'static str = "/etc/halos/webapps.d";

/// App type: decides how health checks work.
#[derive(Debug)]
pub struct AppType {
    /// Docker container name (enables container health tracking).
    pub container_name: Option<String>,
    /// External link flag (no health checks).
    pub external: bool,
}

/// Board layout configuration.
#[derive(Debug)]
pub struct LayoutConfig {
    /// Priority for placement order (lower = placed first, default: 50).
    /// Ranges: 00-19 system, 20-39 primary, 40-59 default, 60-79 utility,
    /// 80-99 external.
    pub priority: u8,
    /// Width in grid columns (default: 1).
    pub width: u8,
    /// Height in grid rows (default: 1).
    pub height: u8,
    /// Explicit column position. If omitted, the app is placed automatically.
    pub x_offset: Option<u8>,
    /// Explicit row position. If omitted, the app is placed automatically.
    pub y_offset: Option<u8>,
}

/// App definition from a registry file.
#[derive(Debug)]
pub struct AppDefinition {
    /// Display name for the app.
    pub name: String,
    /// URL to access the app. Two definitions with one URL describe one app.
    pub url: String,
    /// Optional description.
    pub description: Option<String>,
    /// Icon URL (can be /icons/*, http(s)://, or /usr/share/pixmaps/*).
    pub icon_url: Option<String>,
    /// Category for grouping (e.g., "Marine", "System").
    pub category: Option<String>,
    /// App type classification.
    pub app_type: AppType,
    /// Optional override for ping URL (health checks).
    pub ping_url: Option<String>,
    /// Whether the app is shown on the dashboard (default: shown).
    pub visible: bool,
    /// Board layout configuration (includes priority).
    pub layout: LayoutConfig,
}

/// Loaded registry entry with source file path.
#[derive(Debug)]
pub struct RegistryEntry {
    /// Source file path.
    pub file_path: String,
    /// App definition from the file.
    pub app: AppDefinition,
}

/// A descriptor file as the caller found it: its name within the registry
/// directory, its full path, and either the definition parsed from it or
/// the parser's complaint.
#[derive(Debug)]
pub struct RegistryFile {
    pub file_name: String,
    pub path: String,
    pub parsed: Result<AppDefinition, String>,
}

/// The priority of an app that names none: the middle of the range.
pub fn default_priority() -> (p: u8)
    ensures
        p == 50,
{
    50
}

/// Width and height of an app that names none: one cell.
pub fn default_size() -> (n: u8)
    ensures
        n == 1,
{
    1
}

/// An app is shown unless its definition hides it.
pub fn default_visible() -> (v: bool)
    ensures
        v,
{
    true
}

impl Default for AppType {
    fn default() -> (t: Self)
        ensures
            t.container_name is None,
            !t.external,
    {
        AppType { container_name: None, external: false }
    }
}

impl Default for LayoutConfig {
    fn default() -> (l: Self)
        ensures
            l.priority == 50,
            l.width == 1,
            l.height == 1,
            l.x_offset is None,
            l.y_offset is None,
    {
        LayoutConfig { priority: 50, width: 1, height: 1, x_offset: None, y_offset: None }
    }
}

impl AppDefinition {
    /// Check if this is a Docker container app.
    pub fn is_container(&self) -> (r: bool)
        ensures
            r == self.app_type.container_name is Some,
    {
        self.app_type.container_name.is_some()
    }

    /// Check if this is an external link (no health checks).
    pub fn is_external(&self) -> (r: bool)
        ensures
            r == self.app_type.external,
    {
        self.app_type.external
    }

    /// Check if this app is shown on the dashboard.
    pub fn is_visible(&self) -> (r: bool)
        ensures
            r == self.visible,
    {
        self.visible
    }

    /// Get the container name if this is a container app.
    pub fn container_name(&self) -> (r: Option<&str>)
        ensures
            match r {
                Some(s) => self.app_type.container_name matches Some(t) && s@ == t@,
                None => self.app_type.container_name is None,
            },
    {
        match &self.app_type.container_name {
            Some(t) => Some(t.as_str()),
            None => None,
        }
    }

    /// Get the layout configuration.
    pub fn effective_layout(&self) -> (r: &LayoutConfig)
        ensures
            *r == self.layout,
    {
        &self.layout
    }

    /// Get priority for sorting.
    pub fn priority(&self) -> (p: u8)
        ensures
            p == self.layout.priority,
    {
        self.layout.priority
    }

    /// A definition is acceptable when it names the app and says where it is.
    pub open spec fn is_valid(self) -> bool {
        self.name@.len() > 0 && self.url@.len() > 0
    }
}

/// Whether a file of this name is a descriptor: the name ends in `.toml`
/// and has something before that.
pub open spec fn registry_file_name(name: Seq<char>) -> bool {
    name.len() > 5 && name.skip(name.len() - 5) == ".toml"@
}

/// Whether a file of this name is a descriptor.
pub fn is_registry_file(file_name: &str) -> (r: bool)
    ensures
        r == registry_file_name(file_name@),
{
    let n = file_name.unicode_len();
    if n <= 5 {
        return false;
    }
    let tail = file_name.substring_char(n - 5, n);
    assert(file_name@.subrange(n - 5, n as int) =~= file_name@.skip(n - 5));
    str_eq(tail, ".toml")
}

/// The complaint about a definition without a name.
pub open spec fn empty_name_message(path: Seq<char>) -> Seq<char> {
    "App name is empty in "@ + path
}

/// The complaint about a definition without a URL.
pub open spec fn empty_url_message(path: Seq<char>) -> Seq<char> {
    "App URL is empty in "@ + path
}

/// Accepts or rejects the definition parsed from the file at `path`.
///
/// A file that did not parse is a `TomlParse` error with the parser's text.
/// A definition with an empty name, or else with an empty URL, is a `Config`
/// error that names the file. Every other definition is returned as it is.
pub fn load_app_file(path: &str, parsed: Result<AppDefinition, String>) -> (r: Result<
    AppDefinition,
    AdapterError,
>)
    ensures
        match parsed {
            Err(complaint) => r == Err::<AppDefinition, AdapterError>(
                AdapterError::TomlParse(complaint),
            ),
            Ok(app) => if app.name@.len() == 0 {
                r matches Err(AdapterError::Config(m)) && m@ == empty_name_message(path@)
            } else if app.url@.len() == 0 {
                r matches Err(AdapterError::Config(m)) && m@ == empty_url_message(path@)
            } else {
                r == Ok::<AppDefinition, AdapterError>(app)
            },
        },
        r is Ok <==> (parsed matches Ok(app) && app.is_valid()),
{
    match parsed {
        Err(complaint) => Err(AdapterError::TomlParse(complaint)),
        Ok(app) => {
            if app.name.as_str().is_empty() {
                Err(AdapterError::Config(concat("App name is empty in ", path)))
            } else if app.url.as_str().is_empty() {
                Err(AdapterError::Config(concat("App URL is empty in ", path)))
            } else {
                Ok(app)
            }
        },
    }
}

/// Whether the registry directory is to be read, given whether something is
/// present at `path` and whether that is a directory.
///
/// Without anything at the path there is no registry and nothing to load.
/// Something at the path that is no directory is a `Config` error.
pub fn check_registry_dir(path: &str, present: bool, directory: bool) -> (r: Result<
    bool,
    AdapterError,
>)
    ensures
        !present ==> r == Ok::<bool, AdapterError>(false),
        present && directory ==> r == Ok::<bool, AdapterError>(true),
        present && !directory ==> (r matches Err(AdapterError::Config(m)) && m@
            == "Registry path is not a directory: "@ + path@),
{
    if !present {
        Ok(false)
    } else if !directory {
        Err(AdapterError::Config(concat("Registry path is not a directory: ", path)))
    } else {
        Ok(true)
    }
}

/// The registry entry that a file contributes, if it contributes one.
pub open spec fn entry_of(file: RegistryFile) -> Option<RegistryEntry> {
    if registry_file_name(file.file_name@) && file.parsed is Ok && file.parsed->Ok_0.is_valid() {
        Some(RegistryEntry { file_path: file.path, app: file.parsed->Ok_0 })
    } else {
        None
    }
}

/// The entries of the acceptable files, in the order of the files.
pub open spec fn accepted_entries(files: Seq<RegistryFile>) -> Seq<RegistryEntry>
    decreases files.len(),
{
    if files.len() == 0 {
        Seq::empty()
    } else {
        match entry_of(files.last()) {
            Some(e) => accepted_entries(files.drop_last()).push(e),
            None => accepted_entries(files.drop_last()),
        }
    }
}

/// The entries of priority `p`, in their order in `s`.
pub open spec fn with_priority(s: Seq<RegistryEntry>, p: u8) -> Seq<RegistryEntry>
    decreases s.len(),
{
    if s.len() == 0 {
        Seq::empty()
    } else if s.first().app.layout.priority == p {
        seq![s.first()] + with_priority(s.drop_first(), p)
    } else {
        with_priority(s.drop_first(), p)
    }
}

/// Priorities never decrease along `s`.
pub open spec fn ascending(s: Seq<RegistryEntry>) -> bool {
    forall|i: int, j: int|
        0 <= i < j < s.len() ==> s[i].app.layout.priority <= s[j].app.layout.priority
}

/// `sorted` holds the entries of `input` in ascending priority, those of
/// equal priority in the order they have in `input`.
pub open spec fn sorted_by_priority(sorted: Seq<RegistryEntry>, input: Seq<RegistryEntry>) -> bool {
    &&& ascending(sorted)
    &&& forall|p: u8| with_priority(sorted, p) == with_priority(input, p)
}

proof fn lemma_with_priority_concat(a: Seq<RegistryEntry>, b: Seq<RegistryEntry>, p: u8)
    ensures
        with_priority(a + b, p) == with_priority(a, p) + with_priority(b, p),
    decreases a.len(),
{
    if a.len() == 0 {
        assert(a + b =~= b);
        assert(with_priority(a, p) + with_priority(b, p) =~= with_priority(b, p));
    } else {
        assert((a + b).first() == a.first());
        assert((a + b).drop_first() =~= a.drop_first() + b);
        lemma_with_priority_concat(a.drop_first(), b, p);
        if a.first().app.layout.priority == p {
            assert(seq![a.first()] + (with_priority(a.drop_first(), p) + with_priority(b, p))
                =~= (seq![a.first()] + with_priority(a.drop_first(), p)) + with_priority(b, p));
        }
    }
}

proof fn lemma_with_priority_absent(a: Seq<RegistryEntry>, p: u8)
    requires
        forall|i: int| 0 <= i < a.len() ==> a[i].app.layout.priority != p,
    ensures
        with_priority(a, p) == Seq::<RegistryEntry>::empty(),
    decreases a.len(),
{
    if a.len() > 0 {
        assert forall|i: int| 0 <= i < a.drop_first().len() implies a.drop_first()[i].app.layout.priority
            != p by {
            assert(a.drop_first()[i] == a[i + 1]);
        }
        lemma_with_priority_absent(a.drop_first(), p);
    }
}

/// Sorts entries by priority, lowest first. Entries of equal priority keep
/// their order.
pub fn sort_by_priority(entries: Vec<RegistryEntry>) -> (sorted: Vec<RegistryEntry>)
    ensures
        sorted_by_priority(sorted@, entries@),
{
    let ghost input = entries@;
    let mut rest = entries;
    let mut out: Vec<RegistryEntry> = Vec::new();
    assert(input.skip(input.len() as int) =~= Seq::<RegistryEntry>::empty());
    while rest.len() > 0
        invariant
            rest@ == input.take(rest@.len() as int),
            rest@.len() <= input.len(),
            ascending(out@),
            forall|p: u8| with_priority(out@, p) == with_priority(input.skip(rest@.len() as int), p),
        decreases rest.len(),
    {
        let ghost k = rest@.len() as int;
        let e = rest.pop().unwrap();
        assert(e == input[k - 1]);
        let mut pos: usize = 0;
        while pos < out.len() && out[pos].app.layout.priority < e.app.layout.priority
            invariant
                pos <= out.len(),
                forall|i: int| 0 <= i < pos ==> out@[i].app.layout.priority < e.app.layout.priority,
            decreases out.len() - pos,
        {
            pos += 1;
        }
        let ghost before = out@;
        out.insert(pos, e);
        proof {
            let front = before.take(pos as int);
            let back = before.skip(pos as int);
            assert(before =~= front + back);
            assert(out@ =~= front + (seq![e] + back));
            assert forall|i: int, j: int| 0 <= i < j < out@.len() implies out@[i].app.layout.priority
                <= out@[j].app.layout.priority by {
                if j < pos {
                } else if j == pos {
                } else if i < pos {
                    assert(out@[j] == before[j - 1]);
                    assert(before[pos as int].app.layout.priority >= e.app.layout.priority);
                } else if i == pos {
                    assert(out@[j] == before[j - 1]);
                } else {
                    assert(out@[i] == before[i - 1]);
                    assert(out@[j] == before[j - 1]);
                }
            }
            let tail = input.skip(k - 1);
            assert(tail.first() == e);
            assert(tail.drop_first() =~= input.skip(k));
            assert forall|p: u8| with_priority(out@, p) == with_priority(tail, p) by {
                lemma_with_priority_concat(front, back, p);
                lemma_with_priority_concat(front, seq![e] + back, p);
                lemma_with_priority_concat(seq![e], back, p);
                assert(seq![e].drop_first() =~= Seq::<RegistryEntry>::empty());
                assert(with_priority(seq![e].drop_first(), p) =~= Seq::<RegistryEntry>::empty());
                if e.app.layout.priority == p {
                    lemma_with_priority_absent(front, p);
                    assert(with_priority(seq![e], p) =~= seq![e]);
                    assert(with_priority(out@, p) =~= seq![e] + with_priority(before, p));
                } else {
                    assert(with_priority(seq![e], p) =~= Seq::<RegistryEntry>::empty());
                    assert(with_priority(out@, p) =~= with_priority(before, p));
                }
            }
            assert(rest@ =~= input.take(k - 1));
        }
    }
    assert(input.skip(0) =~= input);
    out
}

/// Turns the files of the registry directory into the list of apps.
///
/// Files whose name does not end in `.toml` are passed over. So is a file
/// that did not parse or whose definition is unacceptable: one bad file does
/// not keep the others from loading. The apps come out by ascending
/// priority, apps of equal priority in the order of their files.
pub fn load_all_apps(files: Vec<RegistryFile>) -> (entries: Vec<RegistryEntry>)
    ensures
        sorted_by_priority(entries@, accepted_entries(files@)),
{
    let mut found: Vec<RegistryEntry> = Vec::new();
    assert(files@.take(0) =~= Seq::<RegistryFile>::empty());
    for file in iter: files
        invariant
            iter.seq() == files@,
            found@ == accepted_entries(files@.take(iter.index() as int)),
    {
        proof {
            let next = files@.take(iter.index() + 1);
            assert(next.drop_last() =~= files@.take(iter.index() as int));
            assert(next.last() == file);
        }
        if is_registry_file(file.file_name.as_str()) {
            let RegistryFile { file_name, path, parsed } = file;
            match load_app_file(path.as_str(), parsed) {
                Ok(app) => {
                    found.push(RegistryEntry { file_path: path, app });
                },
                Err(_) => {},
            }
        }
    }
    assert(files@.take(files@.len() as int) =~= files@);
    sort_by_priority(found)
}

/// The entries by URL. Where several entries have one URL, the last one
/// stands for it.
pub open spec fn url_index(entries: Seq<RegistryEntry>) -> Map<Seq<char>, RegistryEntry>
    decreases entries.len(),
{
    if entries.len() == 0 {
        Map::empty()
    } else {
        url_index(entries.drop_last()).insert(entries.last().app.url@, entries.last())
    }
}

/// Get apps as a map keyed by URL (for deduplication).
pub fn apps_by_url<'a>(entries: &'a Vec<RegistryEntry>) -> (index: StrMap<&'a RegistryEntry>)
    ensures
        index@.dom() == url_index(entries@).dom(),
        forall|u: Seq<char>| index@.contains_key(u) ==> *index@[u] == url_index(entries@)[u],
{
    let mut index: StrMap<&'a RegistryEntry> = StrMap::new();
    let mut i: usize = 0;
    assert(entries@.take(0) =~= Seq::<RegistryEntry>::empty());
    while i < entries.len()
        invariant
            i <= entries.len(),
            index@.dom() =~= url_index(entries@.take(i as int)).dom(),
            forall|u: Seq<char>|
                index@.contains_key(u) ==> *index@[u] == url_index(entries@.take(i as int))[u],
        decreases entries.len() - i,
    {
        let e = &entries[i];
        proof {
            let next = entries@.take(i as int + 1);
            assert(next.drop_last() =~= entries@.take(i as int));
            assert(next.last() == entries@[i as int]);
        }
        index.insert(e.url_text(), e);
        i += 1;
    }
    assert(entries@.take(i as int) =~= entries@);
    index
}

impl RegistryEntry {
    fn url_text(&self) -> (r: String)
        ensures
            r@ == self.app.url@,
    {
        self.app.url.clone()
    }
}

} // verus!
