//! Branding of the dashboard: names, colours, the administrator's
//! credentials, the default board and the server settings.

use vstd::prelude::*;
use crate::error::AdapterError;
use crate::text::concat;

verus! {

/// Branding configuration, as the branding package ships it.
#[derive(Debug)]
pub struct BrandingConfig {
    pub identity: Identity,
    pub theme: Theme,
    pub credentials: Credentials,
    pub board: Board,
    pub settings: Settings,
}

/// How the product names and shows itself.
#[derive(Debug)]
pub struct Identity {
    pub product_name: String,
    pub logo_path: String,
    pub favicon_path: Option<String>,
    /// Title shown on the board's page.
    pub page_title: Option<String>,
    /// Title in the page's metadata.
    pub meta_title: Option<String>,
    /// Logo shown on the board.
    pub logo_image_url: Option<String>,
    /// Icon of the board's page.
    pub favicon_image_url: Option<String>,
}

/// Colours and shapes of the dashboard.
#[derive(Debug)]
pub struct Theme {
    pub default_color_scheme: String,
    pub primary_color: String,
    pub secondary_color: String,
    pub item_radius: String,
    pub opacity: u8,
    /// Picture behind the board.
    pub background_image_url: Option<String>,
    /// Style sheet applied to the board.
    pub custom_css: Option<String>,
}

/// Corner radius of the tiles where the branding names none.
pub fn default_item_radius() -> (r: String)
    ensures
        r@ == "lg"@,
{
    "lg".to_owned()
}

/// Opacity of the tiles, in per cent, where the branding names none.
pub fn default_opacity() -> (o: u8)
    ensures
        o == 100,
{
    100
}

/// The administrator's name and password.
#[derive(Debug)]
pub struct Credentials {
    pub admin_username: String,
    pub admin_password: String,
}

/// The default board that setup creates.
#[derive(Debug)]
pub struct Board {
    pub name: String,
    pub display_name: String,
    pub column_count: u8,
    pub is_public: bool,
    pub cockpit: CockpitTile,
}

/// The tile that leads to the system's administration.
#[derive(Debug)]
pub struct CockpitTile {
    pub enabled: bool,
    pub name: String,
    pub description: String,
    pub href: String,
    pub icon_url: String,
    pub width: u8,
    pub height: u8,
    pub x_offset: u8,
    pub y_offset: u8,
}

/// Server settings chosen at onboarding.
#[derive(Debug)]
pub struct Settings {
    pub analytics: AnalyticsSettings,
    pub crawling: CrawlingSettings,
}

/// What the dashboard may report to its makers.
#[derive(Debug, Clone, Copy, PartialEq, Eq, Structural)]
pub struct AnalyticsSettings {
    pub enable_general: bool,
    pub enable_widget_data: bool,
    pub enable_integration_data: bool,
    pub enable_user_data: bool,
}

/// What search engines are asked to leave alone.
#[derive(Debug, Clone, Copy, PartialEq, Eq, Structural)]
pub struct CrawlingSettings {
    pub no_index: bool,
    pub no_follow: bool,
    pub no_translate: bool,
    pub no_sitelinks_search_box: bool,
}

impl BrandingConfig {
    /// Load branding configuration, given what reading the file at `path`
    /// came to: no file, a file that is no branding, or the branding.
    /// Without branding nothing can be set up: a missing file is a `Config`
    /// error that names the path. A file that cannot be parsed is a
    /// `TomlParse` error.
    pub fn load(path: &str, found: Option<Result<BrandingConfig, String>>) -> (r: Result<
        BrandingConfig,
        AdapterError,
    >)
        ensures
            match found {
                None => r matches Err(AdapterError::Config(m)) && m@
                    == "Branding config not found at "@ + path@,
                Some(Ok(b)) => r == Ok::<BrandingConfig, AdapterError>(b),
                Some(Err(why)) => r == Err::<BrandingConfig, AdapterError>(
                    AdapterError::TomlParse(why),
                ),
            },
    {
        match found {
            None => Err(AdapterError::Config(concat("Branding config not found at ", path))),
            Some(Ok(b)) => Ok(b),
            Some(Err(why)) => Err(AdapterError::TomlParse(why)),
        }
    }
}

} // verus!
