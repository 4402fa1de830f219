use vstd::prelude::*;

verus! {

/// What the overlay shows for one power mode.
#[derive(Debug, Clone)]
pub struct ModeConfig {
    /// The label under the icon.
    pub text: String,
    /// A picture file to show in place of the built-in icon.
    pub icon_path: Option<String>,
}

/// The look and placement of the overlay window.
#[derive(Debug, Clone)]
pub struct WindowConfig {
    pub width: i32,
    pub height: i32,
    pub icon_size: i32,
    /// In Pango units (16000 is 16 pt).
    pub font_size: i32,
    /// "heavy", "bold" or "normal".
    pub font_weight: String,
    /// "bottom", "top" or "center".
    pub anchor_edge: String,
    /// How many pixels in from the screen edge the window stands.
    pub margin_offset: i32,
    /// A CSS color, such as "rgba(25, 25, 25, 0.70)".
    pub background_rgba: String,
}

/// The whole configuration, as `~/.config/fnq-visual/config.toml` holds it.
#[derive(Debug, Clone)]
pub struct AppConfig {
    /// How long the overlay stays visible, in milliseconds.
    pub display_duration_ms: u64,
    pub window: WindowConfig,
    pub quiet: ModeConfig,
    pub balanced: ModeConfig,
    pub performance: ModeConfig,
}

/// The configuration that the application writes on its first launch.
pub open spec fn is_default_config(c: AppConfig) -> bool {
    &&& c.display_duration_ms == 2500
    &&& c.window.width == 200
    &&& c.window.height == 180
    &&& c.window.icon_size == 72
    &&& c.window.font_size == 16000
    &&& c.window.font_weight@ == "heavy"@
    &&& c.window.anchor_edge@ == "bottom"@
    &&& c.window.margin_offset == 100
    &&& c.window.background_rgba@ == "rgba(25, 25, 25, 0.70)"@
    &&& c.quiet.text@ == "QUIET MODE"@
    &&& c.quiet.icon_path is None
    &&& c.balanced.text@ == "BALANCED MODE"@
    &&& c.balanced.icon_path is None
    &&& c.performance.text@ == "PERFORMANCE MODE"@
    &&& c.performance.icon_path is None
}

impl Default for AppConfig {
    fn default() -> (c: AppConfig)
        ensures
            is_default_config(c),
    {
        AppConfig {
            display_duration_ms: 2500,
            window: WindowConfig {
                width: 200,
                height: 180,
                icon_size: 72,
                font_size: 16000,
                font_weight: "heavy".to_string(),
                anchor_edge: "bottom".to_string(),
                margin_offset: 100,
                background_rgba: "rgba(25, 25, 25, 0.70)".to_string(),
            },
            quiet: ModeConfig { text: "QUIET MODE".to_string(), icon_path: None },
            balanced: ModeConfig { text: "BALANCED MODE".to_string(), icon_path: None },
            performance: ModeConfig { text: "PERFORMANCE MODE".to_string(), icon_path: None },
        }
    }
}

/// The directory that holds the configuration, below the home directory
/// (the empty text where the home directory is unknown).
pub fn config_dir(home: Option<&str>) -> (dir: String)
    ensures
        dir@ == match home {
            Some(h) => h@,
            None => Seq::<char>::empty(),
        } + "/.config/fnq-visual"@,
{
    let mut dir = String::new();
    if let Some(h) = home {
        dir.append(h);
    }
    dir.append("/.config/fnq-visual");
    dir
}

/// The configuration file inside the configuration directory.
pub fn config_file(dir: &str) -> (path: String)
    ensures
        path@ == dir@ + "/config.toml"@,
{
    let mut path = String::new();
    path.append(dir);
    path.append("/config.toml");
    path
}

/// What was found where the configuration file belongs.
pub enum ConfigLookup {
    /// There is no file.
    Missing,
    /// There is a file; it held a valid configuration (`Some`), or could not
    /// be read or parsed (`None`).
    Found(Option<AppConfig>),
}

/// The configuration to run with, and whether a default file is to be
/// written: a missing file is replaced by the default, an unreadable or
/// invalid one is left alone and the default is used, a valid one is used
/// as it is.
pub fn settle_config(lookup: ConfigLookup) -> (r: (AppConfig, bool))
    ensures
        match lookup {
            ConfigLookup::Missing => is_default_config(r.0) && r.1,
            ConfigLookup::Found(Some(c)) => r.0 == c && !r.1,
            ConfigLookup::Found(None) => is_default_config(r.0) && !r.1,
        },
{
    match lookup {
        ConfigLookup::Missing => (AppConfig::default(), true),
        ConfigLookup::Found(Some(c)) => (c, false),
        ConfigLookup::Found(None) => (AppConfig::default(), false),
    }
}

} // verus!
