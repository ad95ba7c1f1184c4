//! The settings document held in memory: its fields, the values a fresh
//! document starts with, and one setter for each preference.

use vstd::prelude::*;

verus! {

/// The settings document: five colours that are always present, and the
/// preferences, each of which is either set or absent.
#[derive(Debug)]
pub struct ColorConfig {
    /// Window background colour.
    pub background: String,
    /// Primary surface colour.
    pub primary: String,
    /// Secondary surface colour.
    pub secondary: String,
    /// Text colour.
    pub text: String,
    /// Accent colour.
    pub accent: String,
    /// Path of the wallpaper chosen last.
    pub last_wallpaper: Option<String>,
    /// Name of the colour preset in use.
    pub color_preset: Option<String>,
    /// Screen edge that the sidebar sits on.
    pub sidebar_position: Option<String>,
    /// Whether notifications are shown.
    pub notifications_enabled: Option<bool>,
    /// Whether notifications play a sound.
    pub notification_sounds_enabled: Option<bool>,
    /// Whether the sidebar is shown.
    pub sidebar_visible: Option<bool>,
    /// Corner style of the interface.
    pub rounding: Option<String>,
    /// Whether the file manager lists hidden files.
    pub show_hidden_files: Option<bool>,
    /// Interface scale, in percent.
    pub ui_scale: Option<u8>,
    /// What the left dashboard tile shows.
    pub dashboard_tile_left: Option<String>,
    /// What the side panel shows.
    pub sidepanel_content: Option<String>,
    /// GitHub account shown in the side panel.
    pub github_username: Option<String>,
    /// Screen edge that the dashboard sits on.
    pub dashboard_position: Option<String>,
    /// Whether the battery watcher starts with the session.
    pub scripts_autostart_battery: Option<bool>,
    /// Whether the screensaver starts with the session.
    pub scripts_autostart_screensaver: Option<bool>,
    /// Battery level, in percent, at which the watcher warns.
    pub battery_threshold: Option<u8>,
    /// Idle time before the screensaver starts.
    pub screensaver_timeout: Option<u32>,
    /// First resource shown on the dashboard.
    pub dashboard_resource_1: Option<String>,
    /// Second resource shown on the dashboard.
    pub dashboard_resource_2: Option<String>,
    /// Whether the auto-float script starts with the session.
    pub scripts_autostart_autofloat: Option<bool>,
    /// Width of auto-floated windows.
    pub autofloat_width: Option<u32>,
    /// Height of auto-floated windows.
    pub autofloat_height: Option<u32>,
    /// Whether the screensaver locks the screen.
    pub scripts_use_lockscreen: Option<bool>,
    /// Where on the screen notifications appear.
    pub notification_position: Option<String>,
    /// Corner style of notifications.
    pub notification_rounding: Option<String>,
    /// Border radius of the shell's panels; 0 switches it off.
    pub quickshell_border_radius: Option<u8>,
    /// Sound file played for a notification.
    pub notification_sound: Option<String>,
}

/// What a [`ColorConfig`] holds, as mathematical values.
pub struct ColorConfigView {
    pub background: Seq<char>,
    pub primary: Seq<char>,
    pub secondary: Seq<char>,
    pub text: Seq<char>,
    pub accent: Seq<char>,
    pub last_wallpaper: Option<Seq<char>>,
    pub color_preset: Option<Seq<char>>,
    pub sidebar_position: Option<Seq<char>>,
    pub notifications_enabled: Option<bool>,
    pub notification_sounds_enabled: Option<bool>,
    pub sidebar_visible: Option<bool>,
    pub rounding: Option<Seq<char>>,
    pub show_hidden_files: Option<bool>,
    pub ui_scale: Option<u8>,
    pub dashboard_tile_left: Option<Seq<char>>,
    pub sidepanel_content: Option<Seq<char>>,
    pub github_username: Option<Seq<char>>,
    pub dashboard_position: Option<Seq<char>>,
    pub scripts_autostart_battery: Option<bool>,
    pub scripts_autostart_screensaver: Option<bool>,
    pub battery_threshold: Option<u8>,
    pub screensaver_timeout: Option<u32>,
    pub dashboard_resource_1: Option<Seq<char>>,
    pub dashboard_resource_2: Option<Seq<char>>,
    pub scripts_autostart_autofloat: Option<bool>,
    pub autofloat_width: Option<u32>,
    pub autofloat_height: Option<u32>,
    pub scripts_use_lockscreen: Option<bool>,
    pub notification_position: Option<Seq<char>>,
    pub notification_rounding: Option<Seq<char>>,
    pub quickshell_border_radius: Option<u8>,
    pub notification_sound: Option<Seq<char>>,
}

/// The text of an optional string, where there is one.
pub open spec fn opt_view(s: Option<String>) -> Option<Seq<char>> {
    match s {
        Some(t) => Some(t@),
        None => None,
    }
}

impl View for ColorConfig {
    type V = ColorConfigView;

    open spec fn view(&self) -> ColorConfigView {
        ColorConfigView {
            background: self.background@,
            primary: self.primary@,
            secondary: self.secondary@,
            text: self.text@,
            accent: self.accent@,
            last_wallpaper: opt_view(self.last_wallpaper),
            color_preset: opt_view(self.color_preset),
            sidebar_position: opt_view(self.sidebar_position),
            notifications_enabled: self.notifications_enabled,
            notification_sounds_enabled: self.notification_sounds_enabled,
            sidebar_visible: self.sidebar_visible,
            rounding: opt_view(self.rounding),
            show_hidden_files: self.show_hidden_files,
            ui_scale: self.ui_scale,
            dashboard_tile_left: opt_view(self.dashboard_tile_left),
            sidepanel_content: opt_view(self.sidepanel_content),
            github_username: opt_view(self.github_username),
            dashboard_position: opt_view(self.dashboard_position),
            scripts_autostart_battery: self.scripts_autostart_battery,
            scripts_autostart_screensaver: self.scripts_autostart_screensaver,
            battery_threshold: self.battery_threshold,
            screensaver_timeout: self.screensaver_timeout,
            dashboard_resource_1: opt_view(self.dashboard_resource_1),
            dashboard_resource_2: opt_view(self.dashboard_resource_2),
            scripts_autostart_autofloat: self.scripts_autostart_autofloat,
            autofloat_width: self.autofloat_width,
            autofloat_height: self.autofloat_height,
            scripts_use_lockscreen: self.scripts_use_lockscreen,
            notification_position: opt_view(self.notification_position),
            notification_rounding: opt_view(self.notification_rounding),
            quickshell_border_radius: self.quickshell_border_radius,
            notification_sound: opt_view(self.notification_sound),
        }
    }
}

impl ColorConfigView {
    /// The document that stands in for a settings file that is missing or
    /// cannot be read.
    pub open spec fn defaults() -> ColorConfigView {
        ColorConfigView {
            background: "#0a0a0a"@,
            primary: "#1a1a1a"@,
            secondary: "#121212"@,
            text: "#ffffff"@,
            accent: "#4a9eff"@,
            last_wallpaper: None,
            color_preset: None,
            sidebar_position: Some("left"@),
            notifications_enabled: Some(true),
            notification_sounds_enabled: Some(true),
            sidebar_visible: Some(true),
            rounding: Some("rounded"@),
            show_hidden_files: Some(false),
            ui_scale: Some(100),
            dashboard_tile_left: Some("battery"@),
            sidepanel_content: Some("calendar"@),
            github_username: None,
            dashboard_position: Some("right"@),
            scripts_autostart_battery: Some(false),
            scripts_autostart_screensaver: Some(false),
            battery_threshold: Some(10),
            screensaver_timeout: Some(30),
            dashboard_resource_1: Some("cpu"@),
            dashboard_resource_2: Some("ram"@),
            scripts_autostart_autofloat: Some(false),
            autofloat_width: Some(1000),
            autofloat_height: Some(700),
            scripts_use_lockscreen: Some(false),
            notification_position: Some("top"@),
            notification_rounding: Some("standard"@),
            quickshell_border_radius: Some(0),
            notification_sound: Some("message.oga"@),
        }
    }
}

/// A copy of an optional string.
pub(crate) fn copy_opt(s: &Option<String>) -> (r: Option<String>)
    ensures
        opt_view(r) == opt_view(*s),
{
    match s {
        Some(t) => Some(t.clone()),
        None => None,
    }
}

impl Default for ColorConfig {
    /// The document used when no settings file can be read.
    fn default() -> (r: Self)
        ensures
            r@ == ColorConfigView::defaults(),
    {
        ColorConfig {
            background: "#0a0a0a".to_owned(),
            primary: "#1a1a1a".to_owned(),
            secondary: "#121212".to_owned(),
            text: "#ffffff".to_owned(),
            accent: "#4a9eff".to_owned(),
            last_wallpaper: None,
            color_preset: None,
            sidebar_position: Some("left".to_owned()),
            notifications_enabled: Some(true),
            notification_sounds_enabled: Some(true),
            sidebar_visible: Some(true),
            rounding: Some("rounded".to_owned()),
            show_hidden_files: Some(false),
            ui_scale: Some(100),
            dashboard_tile_left: Some("battery".to_owned()),
            sidepanel_content: Some("calendar".to_owned()),
            github_username: None,
            dashboard_position: Some("right".to_owned()),
            scripts_autostart_battery: Some(false),
            scripts_autostart_screensaver: Some(false),
            battery_threshold: Some(10),
            screensaver_timeout: Some(30),
            dashboard_resource_1: Some("cpu".to_owned()),
            dashboard_resource_2: Some("ram".to_owned()),
            scripts_autostart_autofloat: Some(false),
            autofloat_width: Some(1000),
            autofloat_height: Some(700),
            scripts_use_lockscreen: Some(false),
            notification_position: Some("top".to_owned()),
            notification_rounding: Some("standard".to_owned()),
            quickshell_border_radius: Some(0),
            notification_sound: Some("message.oga".to_owned()),
        }
    }
}

impl Clone for ColorConfig {
    /// A copy that holds the same in every field.
    fn clone(&self) -> (r: Self)
        ensures
            r@ == self@,
    {
        ColorConfig {
            background: self.background.clone(),
            primary: self.primary.clone(),
            secondary: self.secondary.clone(),
            text: self.text.clone(),
            accent: self.accent.clone(),
            last_wallpaper: copy_opt(&self.last_wallpaper),
            color_preset: copy_opt(&self.color_preset),
            sidebar_position: copy_opt(&self.sidebar_position),
            notifications_enabled: self.notifications_enabled,
            notification_sounds_enabled: self.notification_sounds_enabled,
            sidebar_visible: self.sidebar_visible,
            rounding: copy_opt(&self.rounding),
            show_hidden_files: self.show_hidden_files,
            ui_scale: self.ui_scale,
            dashboard_tile_left: copy_opt(&self.dashboard_tile_left),
            sidepanel_content: copy_opt(&self.sidepanel_content),
            github_username: copy_opt(&self.github_username),
            dashboard_position: copy_opt(&self.dashboard_position),
            scripts_autostart_battery: self.scripts_autostart_battery,
            scripts_autostart_screensaver: self.scripts_autostart_screensaver,
            battery_threshold: self.battery_threshold,
            screensaver_timeout: self.screensaver_timeout,
            dashboard_resource_1: copy_opt(&self.dashboard_resource_1),
            dashboard_resource_2: copy_opt(&self.dashboard_resource_2),
            scripts_autostart_autofloat: self.scripts_autostart_autofloat,
            autofloat_width: self.autofloat_width,
            autofloat_height: self.autofloat_height,
            scripts_use_lockscreen: self.scripts_use_lockscreen,
            notification_position: copy_opt(&self.notification_position),
            notification_rounding: copy_opt(&self.notification_rounding),
            quickshell_border_radius: self.quickshell_border_radius,
            notification_sound: copy_opt(&self.notification_sound),
        }
    }
}

/// Whether two optional strings hold the same.
pub(crate) fn same_opt(a: &Option<String>, b: &Option<String>) -> (r: bool)
    ensures
        r == (opt_view(*a) == opt_view(*b)),
{
    match (a, b) {
        (Some(x), Some(y)) => *x == *y,
        (None, None) => true,
        _ => false,
    }
}

impl PartialEq for ColorConfig {
    /// Two documents are equal where every field holds the same.
    fn eq(&self, other: &Self) -> (r: bool) {
        self.background == other.background
            && self.primary == other.primary
            && self.secondary == other.secondary
            && self.text == other.text
            && self.accent == other.accent
            && same_opt(&self.last_wallpaper, &other.last_wallpaper)
            && same_opt(&self.color_preset, &other.color_preset)
            && same_opt(&self.sidebar_position, &other.sidebar_position)
            && self.notifications_enabled == other.notifications_enabled
            && self.notification_sounds_enabled == other.notification_sounds_enabled
            && self.sidebar_visible == other.sidebar_visible
            && same_opt(&self.rounding, &other.rounding)
            && self.show_hidden_files == other.show_hidden_files
            && self.ui_scale == other.ui_scale
            && same_opt(&self.dashboard_tile_left, &other.dashboard_tile_left)
            && same_opt(&self.sidepanel_content, &other.sidepanel_content)
            && same_opt(&self.github_username, &other.github_username)
            && same_opt(&self.dashboard_position, &other.dashboard_position)
            && self.scripts_autostart_battery == other.scripts_autostart_battery
            && self.scripts_autostart_screensaver == other.scripts_autostart_screensaver
            && self.battery_threshold == other.battery_threshold
            && self.screensaver_timeout == other.screensaver_timeout
            && same_opt(&self.dashboard_resource_1, &other.dashboard_resource_1)
            && same_opt(&self.dashboard_resource_2, &other.dashboard_resource_2)
            && self.scripts_autostart_autofloat == other.scripts_autostart_autofloat
            && self.autofloat_width == other.autofloat_width
            && self.autofloat_height == other.autofloat_height
            && self.scripts_use_lockscreen == other.scripts_use_lockscreen
            && same_opt(&self.notification_position, &other.notification_position)
            && same_opt(&self.notification_rounding, &other.notification_rounding)
            && self.quickshell_border_radius == other.quickshell_border_radius
            && same_opt(&self.notification_sound, &other.notification_sound)
    }
}

impl vstd::std_specs::cmp::PartialEqSpecImpl for ColorConfig {
    open spec fn obeys_eq_spec() -> bool {
        true
    }

    open spec fn eq_spec(&self, other: &Self) -> bool {
        self@ == other@
    }
}

impl Eq for ColorConfig {

}

impl ColorConfig {
    /// Replaces the five colours and leaves every preference as it was.
    pub fn update_colors(&mut self, background: &str, primary: &str, secondary: &str, text: &str, accent: &str)
        ensures
            final(self)@ == (ColorConfigView {
                background: background@,
                primary: primary@,
                secondary: secondary@,
                text: text@,
                accent: accent@,
                ..old(self)@
            }),
    {
        self.background = background.to_owned();
        self.primary = primary.to_owned();
        self.secondary = secondary.to_owned();
        self.text = text.to_owned();
        self.accent = accent.to_owned();
    }

    /// Records the wallpaper chosen last.
    pub fn set_wallpaper(&mut self, wallpaper_path: &str)
        ensures
            final(self)@ == (ColorConfigView { last_wallpaper: Some(wallpaper_path@), ..old(self)@ }),
    {
        self.last_wallpaper = Some(wallpaper_path.to_owned());
    }

    /// Selects a colour preset by name.
    pub fn set_preset(&mut self, preset_name: &str)
        ensures
            final(self)@ == (ColorConfigView { color_preset: Some(preset_name@), ..old(self)@ }),
    {
        self.color_preset = Some(preset_name.to_owned());
    }

    /// Moves the sidebar to a screen edge.
    pub fn set_sidebar_position(&mut self, position: &str)
        ensures
            final(self)@ == (ColorConfigView { sidebar_position: Some(position@), ..old(self)@ }),
    {
        self.sidebar_position = Some(position.to_owned());
    }

    /// Switches notifications on or off.
    pub fn set_notifications_enabled(&mut self, enabled: bool)
        ensures
            final(self)@ == (ColorConfigView { notifications_enabled: Some(enabled), ..old(self)@ }),
    {
        self.notifications_enabled = Some(enabled);
    }

    /// Switches notification sounds on or off.
    pub fn set_notification_sounds_enabled(&mut self, enabled: bool)
        ensures
            final(self)@ == (ColorConfigView { notification_sounds_enabled: Some(enabled), ..old(self)@ }),
    {
        self.notification_sounds_enabled = Some(enabled);
    }

    /// Shows or hides the sidebar.
    pub fn set_sidebar_visible(&mut self, visible: bool)
        ensures
            final(self)@ == (ColorConfigView { sidebar_visible: Some(visible), ..old(self)@ }),
    {
        self.sidebar_visible = Some(visible);
    }

    /// Sets the corner style of the interface.
    pub fn set_rounding(&mut self, rounding: &str)
        ensures
            final(self)@ == (ColorConfigView { rounding: Some(rounding@), ..old(self)@ }),
    {
        self.rounding = Some(rounding.to_owned());
    }

    /// Shows or hides hidden files in the file manager.
    pub fn set_show_hidden_files(&mut self, show_hidden: bool)
        ensures
            final(self)@ == (ColorConfigView { show_hidden_files: Some(show_hidden), ..old(self)@ }),
    {
        self.show_hidden_files = Some(show_hidden);
    }

    /// Sets the interface scale, in percent.
    pub fn set_ui_scale(&mut self, value: u8)
        ensures
            final(self)@ == (ColorConfigView { ui_scale: Some(value), ..old(self)@ }),
    {
        self.ui_scale = Some(value);
    }

    /// Chooses what the left dashboard tile shows.
    pub fn set_dashboard_tile_left(&mut self, value: &str)
        ensures
            final(self)@ == (ColorConfigView { dashboard_tile_left: Some(value@), ..old(self)@ }),
    {
        self.dashboard_tile_left = Some(value.to_owned());
    }

    /// Chooses what the side panel shows.
    pub fn set_sidepanel_content(&mut self, value: &str)
        ensures
            final(self)@ == (ColorConfigView { sidepanel_content: Some(value@), ..old(self)@ }),
    {
        self.sidepanel_content = Some(value.to_owned());
    }

    /// Sets the GitHub account shown in the side panel; an empty name clears
    /// it.
    pub fn set_github_username(&mut self, value: &str)
        ensures
            final(self)@ == (ColorConfigView {
                github_username: if value@.len() == 0 { None } else { Some(value@) },
                ..old(self)@
            }),
    {
        self.github_username = if value.is_empty() {
            None
        } else {
            Some(value.to_owned())
        };
    }

    /// Moves the dashboard to a screen edge.
    pub fn set_dashboard_position(&mut self, value: &str)
        ensures
            final(self)@ == (ColorConfigView { dashboard_position: Some(value@), ..old(self)@ }),
    {
        self.dashboard_position = Some(value.to_owned());
    }

    /// Switches autostart of the battery watcher on or off.
    pub fn set_scripts_autostart_battery(&mut self, enabled: bool)
        ensures
            final(self)@ == (ColorConfigView { scripts_autostart_battery: Some(enabled), ..old(self)@ }),
    {
        self.scripts_autostart_battery = Some(enabled);
    }

    /// Switches autostart of the screensaver on or off.
    pub fn set_scripts_autostart_screensaver(&mut self, enabled: bool)
        ensures
            final(self)@ == (ColorConfigView { scripts_autostart_screensaver: Some(enabled), ..old(self)@ }),
    {
        self.scripts_autostart_screensaver = Some(enabled);
    }

    /// Sets the battery level at which the watcher warns.
    pub fn set_battery_threshold(&mut self, value: u8)
        ensures
            final(self)@ == (ColorConfigView { battery_threshold: Some(value), ..old(self)@ }),
    {
        self.battery_threshold = Some(value);
    }

    /// Sets the idle time before the screensaver starts.
    pub fn set_screensaver_timeout(&mut self, value: u32)
        ensures
            final(self)@ == (ColorConfigView { screensaver_timeout: Some(value), ..old(self)@ }),
    {
        self.screensaver_timeout = Some(value);
    }

    /// Chooses the first resource shown on the dashboard.
    pub fn set_dashboard_resource_1(&mut self, value: &str)
        ensures
            final(self)@ == (ColorConfigView { dashboard_resource_1: Some(value@), ..old(self)@ }),
    {
        self.dashboard_resource_1 = Some(value.to_owned());
    }

    /// Chooses the second resource shown on the dashboard.
    pub fn set_dashboard_resource_2(&mut self, value: &str)
        ensures
            final(self)@ == (ColorConfigView { dashboard_resource_2: Some(value@), ..old(self)@ }),
    {
        self.dashboard_resource_2 = Some(value.to_owned());
    }

    /// Switches autostart of the auto-float script on or off.
    pub fn set_scripts_autostart_autofloat(&mut self, enabled: bool)
        ensures
            final(self)@ == (ColorConfigView { scripts_autostart_autofloat: Some(enabled), ..old(self)@ }),
    {
        self.scripts_autostart_autofloat = Some(enabled);
    }

    /// Sets the width of auto-floated windows.
    pub fn set_autofloat_width(&mut self, value: u32)
        ensures
            final(self)@ == (ColorConfigView { autofloat_width: Some(value), ..old(self)@ }),
    {
        self.autofloat_width = Some(value);
    }

    /// Sets the height of auto-floated windows.
    pub fn set_autofloat_height(&mut self, value: u32)
        ensures
            final(self)@ == (ColorConfigView { autofloat_height: Some(value), ..old(self)@ }),
    {
        self.autofloat_height = Some(value);
    }

    /// Chooses whether the screensaver locks the screen.
    pub fn set_scripts_use_lockscreen(&mut self, enabled: bool)
        ensures
            final(self)@ == (ColorConfigView { scripts_use_lockscreen: Some(enabled), ..old(self)@ }),
    {
        self.scripts_use_lockscreen = Some(enabled);
    }

    /// Chooses where notifications appear.
    pub fn set_notification_position(&mut self, position: &str)
        ensures
            final(self)@ == (ColorConfigView { notification_position: Some(position@), ..old(self)@ }),
    {
        self.notification_position = Some(position.to_owned());
    }

    /// Sets the corner style of notifications.
    pub fn set_notification_rounding(&mut self, rounding: &str)
        ensures
            final(self)@ == (ColorConfigView { notification_rounding: Some(rounding@), ..old(self)@ }),
    {
        self.notification_rounding = Some(rounding.to_owned());
    }

    /// Sets the border radius of the shell's panels.
    pub fn set_quickshell_border_radius(&mut self, value: u8)
        ensures
            final(self)@ == (ColorConfigView { quickshell_border_radius: Some(value), ..old(self)@ }),
    {
        self.quickshell_border_radius = Some(value);
    }

    /// Chooses the sound played for a notification.
    pub fn set_notification_sound(&mut self, sound: &str)
        ensures
            final(self)@ == (ColorConfigView { notification_sound: Some(sound@), ..old(self)@ }),
    {
        self.notification_sound = Some(sound.to_owned());
    }

}

} // verus!
