//! The settings document as JSON: which member holds which field, how a
//! document is read from a JSON value and written as one, and how a named
//! colour preset replaces the colours on reading.

use vstd::prelude::*;
use crate::config::{ColorConfig, ColorConfigView, opt_view};
use crate::error::ConfigError;
use crate::json::{
    bool_value, empty_members, json_of, json_parsed, json_pretty, member, members_of, number_value,
    object_value, parse_value, pretty_text, put_member, text_value, Json, JsonMembers, JsonNumber,
};
use crate::text::opt_str;

verus! {

/// The text under `key`, which must be there and be a string.
pub open spec fn required_text(m: JsonMembers, key: Seq<char>) -> Option<Seq<char>> {
    if m.contains_key(key) {
        match m[key] {
            Json::Text(s) => Some(s),
            _ => None,
        }
    } else {
        None
    }
}

/// The optional text under `key`: absent where the member is missing or
/// null, `None` where it is there and no string.
pub open spec fn text_member(m: JsonMembers, key: Seq<char>) -> Option<Option<Seq<char>>> {
    if m.contains_key(key) {
        match m[key] {
            Json::Null => Some(None),
            Json::Text(s) => Some(Some(s)),
            _ => None,
        }
    } else {
        Some(None)
    }
}

/// The optional flag under `key`: absent where the member is missing or
/// null, `None` where it is there and no boolean.
pub open spec fn flag_member(m: JsonMembers, key: Seq<char>) -> Option<Option<bool>> {
    if m.contains_key(key) {
        match m[key] {
            Json::Null => Some(None),
            Json::Bool(b) => Some(Some(b)),
            _ => None,
        }
    } else {
        Some(None)
    }
}

/// The optional number under `key`, which must be an integer from 0 to 255.
pub open spec fn byte_member(m: JsonMembers, key: Seq<char>) -> Option<Option<u8>> {
    if m.contains_key(key) {
        match m[key] {
            Json::Null => Some(None),
            Json::Number(JsonNumber::Unsigned(n)) => if n <= u8::MAX {
                Some(Some(n as u8))
            } else {
                None
            },
            _ => None,
        }
    } else {
        Some(None)
    }
}

/// The optional number under `key`, which must be an integer from 0 to
/// 4294967295.
pub open spec fn count_member(m: JsonMembers, key: Seq<char>) -> Option<Option<u32>> {
    if m.contains_key(key) {
        match m[key] {
            Json::Null => Some(None),
            Json::Number(JsonNumber::Unsigned(n)) => if n <= u32::MAX {
                Some(Some(n as u32))
            } else {
                None
            },
            _ => None,
        }
    } else {
        Some(None)
    }
}

/// Whether the members of an object make a settings document: the five
/// colours are strings, and every preference that is there and not null has
/// its type.
pub open spec fn well_typed(m: JsonMembers) -> bool {
    &&& required_text(m, "background"@) is Some
    &&& required_text(m, "primary"@) is Some
    &&& required_text(m, "secondary"@) is Some
    &&& required_text(m, "text"@) is Some
    &&& required_text(m, "accent"@) is Some
    &&& text_member(m, "lastWallpaper"@) is Some
    &&& text_member(m, "colorPreset"@) is Some
    &&& text_member(m, "sidebarPosition"@) is Some
    &&& flag_member(m, "notificationsEnabled"@) is Some
    &&& flag_member(m, "notificationSoundsEnabled"@) is Some
    &&& flag_member(m, "sidebarVisible"@) is Some
    &&& text_member(m, "rounding"@) is Some
    &&& flag_member(m, "showHiddenFiles"@) is Some
    &&& byte_member(m, "uiScale"@) is Some
    &&& text_member(m, "dashboardTileLeft"@) is Some
    &&& text_member(m, "sidepanelContent"@) is Some
    &&& text_member(m, "githubUsername"@) is Some
    &&& text_member(m, "dashboardPosition"@) is Some
    &&& flag_member(m, "scriptsAutostartBattery"@) is Some
    &&& flag_member(m, "scriptsAutostartScreensaver"@) is Some
    &&& byte_member(m, "batteryThreshold"@) is Some
    &&& count_member(m, "screensaverTimeout"@) is Some
    &&& text_member(m, "dashboardResource1"@) is Some
    &&& text_member(m, "dashboardResource2"@) is Some
    &&& flag_member(m, "scriptsAutostartAutofloat"@) is Some
    &&& count_member(m, "autofloatWidth"@) is Some
    &&& count_member(m, "autofloatHeight"@) is Some
    &&& flag_member(m, "scriptsUseLockscreen"@) is Some
    &&& text_member(m, "notificationPosition"@) is Some
    &&& text_member(m, "notificationRounding"@) is Some
    &&& byte_member(m, "quickshellBorderRadius"@) is Some
    &&& text_member(m, "notificationSound"@) is Some
}

/// The settings document that a JSON value holds, or `None` where it holds
/// none. Members that the document does not know are passed over.
pub open spec fn decode(doc: Json) -> Option<ColorConfigView> {
    match doc {
        Json::Object(m) => if well_typed(m) {
            Some(
                ColorConfigView {
                    background: required_text(m, "background"@)->0,
                    primary: required_text(m, "primary"@)->0,
                    secondary: required_text(m, "secondary"@)->0,
                    text: required_text(m, "text"@)->0,
                    accent: required_text(m, "accent"@)->0,
                    last_wallpaper: text_member(m, "lastWallpaper"@)->0,
                    color_preset: text_member(m, "colorPreset"@)->0,
                    sidebar_position: text_member(m, "sidebarPosition"@)->0,
                    notifications_enabled: flag_member(m, "notificationsEnabled"@)->0,
                    notification_sounds_enabled: flag_member(m, "notificationSoundsEnabled"@)->0,
                    sidebar_visible: flag_member(m, "sidebarVisible"@)->0,
                    rounding: text_member(m, "rounding"@)->0,
                    show_hidden_files: flag_member(m, "showHiddenFiles"@)->0,
                    ui_scale: byte_member(m, "uiScale"@)->0,
                    dashboard_tile_left: text_member(m, "dashboardTileLeft"@)->0,
                    sidepanel_content: text_member(m, "sidepanelContent"@)->0,
                    github_username: text_member(m, "githubUsername"@)->0,
                    dashboard_position: text_member(m, "dashboardPosition"@)->0,
                    scripts_autostart_battery: flag_member(m, "scriptsAutostartBattery"@)->0,
                    scripts_autostart_screensaver: flag_member(m, "scriptsAutostartScreensaver"@)->0,
                    battery_threshold: byte_member(m, "batteryThreshold"@)->0,
                    screensaver_timeout: count_member(m, "screensaverTimeout"@)->0,
                    dashboard_resource_1: text_member(m, "dashboardResource1"@)->0,
                    dashboard_resource_2: text_member(m, "dashboardResource2"@)->0,
                    scripts_autostart_autofloat: flag_member(m, "scriptsAutostartAutofloat"@)->0,
                    autofloat_width: count_member(m, "autofloatWidth"@)->0,
                    autofloat_height: count_member(m, "autofloatHeight"@)->0,
                    scripts_use_lockscreen: flag_member(m, "scriptsUseLockscreen"@)->0,
                    notification_position: text_member(m, "notificationPosition"@)->0,
                    notification_rounding: text_member(m, "notificationRounding"@)->0,
                    quickshell_border_radius: byte_member(m, "quickshellBorderRadius"@)->0,
                    notification_sound: text_member(m, "notificationSound"@)->0,
                },
            )
        } else {
            None
        },
        _ => None,
    }
}

/// The members with a text under `key` added, where there is one.
#[verifier::opaque]
pub open spec fn put_text(m: JsonMembers, key: Seq<char>, o: Option<Seq<char>>) -> JsonMembers {
    match o {
        Some(s) => m.insert(key, Json::Text(s)),
        None => m,
    }
}

/// The members with a flag under `key` added, where there is one.
#[verifier::opaque]
pub open spec fn put_flag(m: JsonMembers, key: Seq<char>, o: Option<bool>) -> JsonMembers {
    match o {
        Some(b) => m.insert(key, Json::Bool(b)),
        None => m,
    }
}

/// The members with a number under `key` added, where there is one.
#[verifier::opaque]
pub open spec fn put_byte(m: JsonMembers, key: Seq<char>, o: Option<u8>) -> JsonMembers {
    match o {
        Some(n) => m.insert(key, Json::Number(JsonNumber::Unsigned(n as u64))),
        None => m,
    }
}

/// The members with a number under `key` added, where there is one.
#[verifier::opaque]
pub open spec fn put_count(m: JsonMembers, key: Seq<char>, o: Option<u32>) -> JsonMembers {
    match o {
        Some(n) => m.insert(key, Json::Number(JsonNumber::Unsigned(n as u64))),
        None => m,
    }
}

impl ColorConfigView {
    /// The members of the JSON object that holds this document: the five
    /// colours, and one member for each preference that is set.
    pub open spec fn members(self) -> JsonMembers {
        let m = JsonMembers::empty();
        let m = m.insert("background"@, Json::Text(self.background));
        let m = m.insert("primary"@, Json::Text(self.primary));
        let m = m.insert("secondary"@, Json::Text(self.secondary));
        let m = m.insert("text"@, Json::Text(self.text));
        let m = m.insert("accent"@, Json::Text(self.accent));
        let m = put_text(m, "lastWallpaper"@, self.last_wallpaper);
        let m = put_text(m, "colorPreset"@, self.color_preset);
        let m = put_text(m, "sidebarPosition"@, self.sidebar_position);
        let m = put_flag(m, "notificationsEnabled"@, self.notifications_enabled);
        let m = put_flag(m, "notificationSoundsEnabled"@, self.notification_sounds_enabled);
        let m = put_flag(m, "sidebarVisible"@, self.sidebar_visible);
        let m = put_text(m, "rounding"@, self.rounding);
        let m = put_flag(m, "showHiddenFiles"@, self.show_hidden_files);
        let m = put_byte(m, "uiScale"@, self.ui_scale);
        let m = put_text(m, "dashboardTileLeft"@, self.dashboard_tile_left);
        let m = put_text(m, "sidepanelContent"@, self.sidepanel_content);
        let m = put_text(m, "githubUsername"@, self.github_username);
        let m = put_text(m, "dashboardPosition"@, self.dashboard_position);
        let m = put_flag(m, "scriptsAutostartBattery"@, self.scripts_autostart_battery);
        let m = put_flag(m, "scriptsAutostartScreensaver"@, self.scripts_autostart_screensaver);
        let m = put_byte(m, "batteryThreshold"@, self.battery_threshold);
        let m = put_count(m, "screensaverTimeout"@, self.screensaver_timeout);
        let m = put_text(m, "dashboardResource1"@, self.dashboard_resource_1);
        let m = put_text(m, "dashboardResource2"@, self.dashboard_resource_2);
        let m = put_flag(m, "scriptsAutostartAutofloat"@, self.scripts_autostart_autofloat);
        let m = put_count(m, "autofloatWidth"@, self.autofloat_width);
        let m = put_count(m, "autofloatHeight"@, self.autofloat_height);
        let m = put_flag(m, "scriptsUseLockscreen"@, self.scripts_use_lockscreen);
        let m = put_text(m, "notificationPosition"@, self.notification_position);
        let m = put_text(m, "notificationRounding"@, self.notification_rounding);
        let m = put_byte(m, "quickshellBorderRadius"@, self.quickshell_border_radius);
        let m = put_text(m, "notificationSound"@, self.notification_sound);
        m
    }

    /// The JSON value that holds this document.
    pub open spec fn encode(self) -> Json {
        Json::Object(self.members())
    }
}

/// Five colours that go together, as a preset holds them.
#[derive(Debug)]
pub struct Palette {
    pub background: String,
    pub primary: String,
    pub secondary: String,
    pub text: String,
    pub accent: String,
}

/// What a [`Palette`] holds, as mathematical values.
pub struct PaletteView {
    pub background: Seq<char>,
    pub primary: Seq<char>,
    pub secondary: Seq<char>,
    pub text: Seq<char>,
    pub accent: Seq<char>,
}

impl View for Palette {
    type V = PaletteView;

    open spec fn view(&self) -> PaletteView {
        PaletteView {
            background: self.background@,
            primary: self.primary@,
            secondary: self.secondary@,
            text: self.text@,
            accent: self.accent@,
        }
    }
}

/// The palette that a JSON value holds: an object with all five colours as
/// strings.
pub open spec fn palette_of(doc: Json) -> Option<PaletteView> {
    match doc {
        Json::Object(m) => if {
            &&& required_text(m, "background"@) is Some
            &&& required_text(m, "primary"@) is Some
            &&& required_text(m, "secondary"@) is Some
            &&& required_text(m, "text"@) is Some
            &&& required_text(m, "accent"@) is Some
        } {
            Some(
                PaletteView {
                    background: required_text(m, "background"@)->0,
                    primary: required_text(m, "primary"@)->0,
                    secondary: required_text(m, "secondary"@)->0,
                    text: required_text(m, "text"@)->0,
                    accent: required_text(m, "accent"@)->0,
                },
            )
        } else {
            None
        },
        _ => None,
    }
}

/// The member of an object under `key`; `None` where the value is no object
/// or has no such member.
pub open spec fn member_of(doc: Json, key: Seq<char>) -> Option<Json> {
    match doc {
        Json::Object(m) => if m.contains_key(key) {
            Some(m[key])
        } else {
            None
        },
        _ => None,
    }
}

/// The preset called `name` in the `presets` member of a settings file, where
/// the file has one with all five colours.
pub open spec fn preset_of(doc: Json, name: Seq<char>) -> Option<PaletteView> {
    match member_of(doc, "presets"@) {
        Some(presets) => match member_of(presets, name) {
            Some(preset) => palette_of(preset),
            None => None,
        },
        None => None,
    }
}

impl ColorConfigView {
    /// This document with its five colours replaced.
    pub open spec fn with_palette(self, p: PaletteView) -> ColorConfigView {
        ColorConfigView {
            background: p.background,
            primary: p.primary,
            secondary: p.secondary,
            text: p.text,
            accent: p.accent,
            ..self
        }
    }

    /// This document as it is after reading it from the file `doc`: where it
    /// names a preset that the file holds, the preset's colours replace its
    /// own; otherwise it stays as it is.
    pub open spec fn resolve_preset(self, doc: Json) -> ColorConfigView {
        match self.color_preset {
            Some(name) => match preset_of(doc, name) {
                Some(p) => self.with_palette(p),
                None => self,
            },
            None => self,
        }
    }
}

/// The document that the JSON value of a settings file gives: its fields,
/// with the colours of the preset it names, where the file holds that preset.
pub open spec fn document_of(doc: Json) -> Option<ColorConfigView> {
    match decode(doc) {
        Some(d) => Some(d.resolve_preset(doc)),
        None => None,
    }
}

/// What reading a settings file gives: `file` is the text of the file, or
/// `None` where there is no file or it cannot be read.
pub open spec fn try_loaded(file: Option<Seq<char>>) -> Result<ColorConfigView, ConfigError> {
    match file {
        Some(text) => match json_parsed(text) {
            Some(doc) => match document_of(doc) {
                Some(d) => Ok(d),
                None => Err(ConfigError::Parse),
            },
            None => Err(ConfigError::Parse),
        },
        None => Err(ConfigError::NotFound),
    }
}

/// The document in use after reading a settings file: the one it holds, or
/// the defaults where it holds none.
pub open spec fn loaded(file: Option<Seq<char>>) -> ColorConfigView {
    match try_loaded(file) {
        Ok(d) => d,
        Err(_) => ColorConfigView::defaults(),
    }
}

fn read_required(doc: &serde_json::Value, key: &str) -> (r: Result<String, ConfigError>)
    requires
        json_of(*doc) is Object,
    ensures
        match required_text(json_of(*doc)->Object_0, key@) {
            Some(s) => r is Ok && r->Ok_0@ == s,
            None => r == Err::<String, ConfigError>(ConfigError::Parse),
        },
{
    match member(doc, key) {
        Some(v) => match v.as_str() {
            Some(s) => Ok(s.to_owned()),
            None => Err(ConfigError::Parse),
        },
        None => Err(ConfigError::Parse),
    }
}

fn read_text(doc: &serde_json::Value, key: &str) -> (r: Result<Option<String>, ConfigError>)
    requires
        json_of(*doc) is Object,
    ensures
        match text_member(json_of(*doc)->Object_0, key@) {
            Some(o) => r is Ok && opt_view(r->Ok_0) == o,
            None => r == Err::<Option<String>, ConfigError>(ConfigError::Parse),
        },
{
    match member(doc, key) {
        Some(v) => if v.is_null() {
            Ok(None)
        } else {
            match v.as_str() {
                Some(s) => Ok(Some(s.to_owned())),
                None => Err(ConfigError::Parse),
            }
        },
        None => Ok(None),
    }
}

fn read_flag(doc: &serde_json::Value, key: &str) -> (r: Result<Option<bool>, ConfigError>)
    requires
        json_of(*doc) is Object,
    ensures
        match flag_member(json_of(*doc)->Object_0, key@) {
            Some(o) => r == Ok::<Option<bool>, ConfigError>(o),
            None => r == Err::<Option<bool>, ConfigError>(ConfigError::Parse),
        },
{
    match member(doc, key) {
        Some(v) => if v.is_null() {
            Ok(None)
        } else {
            match v.as_bool() {
                Some(b) => Ok(Some(b)),
                None => Err(ConfigError::Parse),
            }
        },
        None => Ok(None),
    }
}

fn read_byte(doc: &serde_json::Value, key: &str) -> (r: Result<Option<u8>, ConfigError>)
    requires
        json_of(*doc) is Object,
    ensures
        match byte_member(json_of(*doc)->Object_0, key@) {
            Some(o) => r == Ok::<Option<u8>, ConfigError>(o),
            None => r == Err::<Option<u8>, ConfigError>(ConfigError::Parse),
        },
{
    match member(doc, key) {
        Some(v) => if v.is_null() {
            Ok(None)
        } else {
            match v.as_u64() {
                Some(n) => if n <= 255 {
                    Ok(Some(n as u8))
                } else {
                    Err(ConfigError::Parse)
                },
                None => Err(ConfigError::Parse),
            }
        },
        None => Ok(None),
    }
}

fn read_count(doc: &serde_json::Value, key: &str) -> (r: Result<Option<u32>, ConfigError>)
    requires
        json_of(*doc) is Object,
    ensures
        match count_member(json_of(*doc)->Object_0, key@) {
            Some(o) => r == Ok::<Option<u32>, ConfigError>(o),
            None => r == Err::<Option<u32>, ConfigError>(ConfigError::Parse),
        },
{
    match member(doc, key) {
        Some(v) => if v.is_null() {
            Ok(None)
        } else {
            match v.as_u64() {
                Some(n) => if n <= 4294967295 {
                    Ok(Some(n as u32))
                } else {
                    Err(ConfigError::Parse)
                },
                None => Err(ConfigError::Parse),
            }
        },
        None => Ok(None),
    }
}

fn write_text(m: &mut serde_json::Map<String, serde_json::Value>, key: &str, o: &Option<String>)
    ensures
        members_of(*final(m)) == put_text(members_of(*old(m)), key@, opt_view(*o)),
{
    proof {
        reveal(put_text);
    }
    match o {
        Some(s) => put_member(m, key.to_owned(), text_value(s.clone())),
        None => {},
    }
}

fn write_flag(m: &mut serde_json::Map<String, serde_json::Value>, key: &str, o: Option<bool>)
    ensures
        members_of(*final(m)) == put_flag(members_of(*old(m)), key@, o),
{
    proof {
        reveal(put_flag);
    }
    match o {
        Some(b) => put_member(m, key.to_owned(), bool_value(b)),
        None => {},
    }
}

fn write_byte(m: &mut serde_json::Map<String, serde_json::Value>, key: &str, o: Option<u8>)
    ensures
        members_of(*final(m)) == put_byte(members_of(*old(m)), key@, o),
{
    proof {
        reveal(put_byte);
    }
    match o {
        Some(n) => put_member(m, key.to_owned(), number_value(n as u64)),
        None => {},
    }
}

fn write_count(m: &mut serde_json::Map<String, serde_json::Value>, key: &str, o: Option<u32>)
    ensures
        members_of(*final(m)) == put_count(members_of(*old(m)), key@, o),
{
    proof {
        reveal(put_count);
    }
    match o {
        Some(n) => put_member(m, key.to_owned(), number_value(n as u64)),
        None => {},
    }
}

impl Palette {
    /// Reads a palette from a JSON value; `None` where the value is no object
    /// or one of the five colours is missing or no string.
    pub fn from_json(doc: &serde_json::Value) -> (r: Option<Palette>)
        ensures
            match palette_of(json_of(*doc)) {
                Some(p) => r is Some && r->0@ == p,
                None => r is None,
            },
    {
        if !doc.is_object() {
            return None;
        }
        let background = match read_required(doc, "background") {
            Ok(s) => s,
            Err(_) => {
                return None;
            },
        };
        let primary = match read_required(doc, "primary") {
            Ok(s) => s,
            Err(_) => {
                return None;
            },
        };
        let secondary = match read_required(doc, "secondary") {
            Ok(s) => s,
            Err(_) => {
                return None;
            },
        };
        let text = match read_required(doc, "text") {
            Ok(s) => s,
            Err(_) => {
                return None;
            },
        };
        let accent = match read_required(doc, "accent") {
            Ok(s) => s,
            Err(_) => {
                return None;
            },
        };
        Some(Palette { background, primary, secondary, text, accent })
    }

    /// Looks up the preset called `name` in the `presets` member of a
    /// settings file.
    pub fn find(doc: &serde_json::Value, name: &str) -> (r: Option<Palette>)
        ensures
            match preset_of(json_of(*doc), name@) {
                Some(p) => r is Some && r->0@ == p,
                None => r is None,
            },
    {
        match member(doc, "presets") {
            Some(presets) => match member(presets, name) {
                Some(preset) => Palette::from_json(preset),
                None => None,
            },
            None => None,
        }
    }
}

impl ColorConfig {
    /// Reads the fields of a settings document from a JSON value. It fails
    /// where the value is no object, a colour is missing or no string, or a
    /// preference is there with another type than its own.
    pub fn from_json(doc: &serde_json::Value) -> (r: Result<ColorConfig, ConfigError>)
        ensures
            match decode(json_of(*doc)) {
                Some(v) => r is Ok && r->Ok_0@ == v,
                None => r is Err && r->Err_0 == ConfigError::Parse,
            },
    {
        if !doc.is_object() {
            return Err(ConfigError::Parse);
        }
        let background = read_required(doc, "background")?;
        let primary = read_required(doc, "primary")?;
        let secondary = read_required(doc, "secondary")?;
        let text = read_required(doc, "text")?;
        let accent = read_required(doc, "accent")?;
        let last_wallpaper = read_text(doc, "lastWallpaper")?;
        let color_preset = read_text(doc, "colorPreset")?;
        let sidebar_position = read_text(doc, "sidebarPosition")?;
        let notifications_enabled = read_flag(doc, "notificationsEnabled")?;
        let notification_sounds_enabled = read_flag(doc, "notificationSoundsEnabled")?;
        let sidebar_visible = read_flag(doc, "sidebarVisible")?;
        let rounding = read_text(doc, "rounding")?;
        let show_hidden_files = read_flag(doc, "showHiddenFiles")?;
        let ui_scale = read_byte(doc, "uiScale")?;
        let dashboard_tile_left = read_text(doc, "dashboardTileLeft")?;
        let sidepanel_content = read_text(doc, "sidepanelContent")?;
        let github_username = read_text(doc, "githubUsername")?;
        let dashboard_position = read_text(doc, "dashboardPosition")?;
        let scripts_autostart_battery = read_flag(doc, "scriptsAutostartBattery")?;
        let scripts_autostart_screensaver = read_flag(doc, "scriptsAutostartScreensaver")?;
        let battery_threshold = read_byte(doc, "batteryThreshold")?;
        let screensaver_timeout = read_count(doc, "screensaverTimeout")?;
        let dashboard_resource_1 = read_text(doc, "dashboardResource1")?;
        let dashboard_resource_2 = read_text(doc, "dashboardResource2")?;
        let scripts_autostart_autofloat = read_flag(doc, "scriptsAutostartAutofloat")?;
        let autofloat_width = read_count(doc, "autofloatWidth")?;
        let autofloat_height = read_count(doc, "autofloatHeight")?;
        let scripts_use_lockscreen = read_flag(doc, "scriptsUseLockscreen")?;
        let notification_position = read_text(doc, "notificationPosition")?;
        let notification_rounding = read_text(doc, "notificationRounding")?;
        let quickshell_border_radius = read_byte(doc, "quickshellBorderRadius")?;
        let notification_sound = read_text(doc, "notificationSound")?;
        Ok(
            ColorConfig {
                background,
                primary,
                secondary,
                text,
                accent,
                last_wallpaper,
                color_preset,
                sidebar_position,
                notifications_enabled,
                notification_sounds_enabled,
                sidebar_visible,
                rounding,
                show_hidden_files,
                ui_scale,
                dashboard_tile_left,
                sidepanel_content,
                github_username,
                dashboard_position,
                scripts_autostart_battery,
                scripts_autostart_screensaver,
                battery_threshold,
                screensaver_timeout,
                dashboard_resource_1,
                dashboard_resource_2,
                scripts_autostart_autofloat,
                autofloat_width,
                autofloat_height,
                scripts_use_lockscreen,
                notification_position,
                notification_rounding,
                quickshell_border_radius,
                notification_sound,
            },
        )
    }

    /// Replaces the five colours by those of a palette.
    pub fn apply_palette(&mut self, p: &Palette)
        ensures
            final(self)@ == old(self)@.with_palette(p@),
    {
        self.background = p.background.clone();
        self.primary = p.primary.clone();
        self.secondary = p.secondary.clone();
        self.text = p.text.clone();
        self.accent = p.accent.clone();
    }

    /// Takes the colours of the preset that this document names from the
    /// settings file `doc`. Where it names none, or the file does not hold
    /// that preset with all five colours, the document stays as it is.
    pub fn resolve_preset(&mut self, doc: &serde_json::Value)
        ensures
            final(self)@ == old(self)@.resolve_preset(json_of(*doc)),
    {
        let found = match &self.color_preset {
            Some(name) => Palette::find(doc, name.as_str()),
            None => None,
        };
        match found {
            Some(p) => self.apply_palette(&p),
            None => {},
        }
    }

    /// Reads a settings document from the JSON value of a settings file:
    /// its fields, then the colours of the preset it names.
    pub fn from_document(doc: &serde_json::Value) -> (r: Result<ColorConfig, ConfigError>)
        ensures
            match document_of(json_of(*doc)) {
                Some(v) => r is Ok && r->Ok_0@ == v,
                None => r is Err && r->Err_0 == ConfigError::Parse,
            },
    {
        let mut config = ColorConfig::from_json(doc)?;
        config.resolve_preset(doc);
        Ok(config)
    }

    /// Reads a settings file. `file` is its text, or `None` where there is
    /// no file or it cannot be read. The result is `NotFound` for no file,
    /// `Parse` for a text that is no JSON or no settings document, and else
    /// the document that the file holds.
    pub fn try_load(file: Option<&str>) -> (r: Result<ColorConfig, ConfigError>)
        ensures
            match try_loaded(opt_str(file)) {
                Ok(v) => r is Ok && r->Ok_0@ == v,
                Err(e) => r is Err && r->Err_0 == e,
            },
    {
        match file {
            Some(text) => match parse_value(text) {
                Ok(doc) => ColorConfig::from_document(&doc),
                Err(_) => Err(ConfigError::Parse),
            },
            None => Err(ConfigError::NotFound),
        }
    }

    /// Reads a settings file and never fails: where there is no file, or it
    /// holds no settings document, the result is the default document.
    pub fn load(file: Option<&str>) -> (r: ColorConfig)
        ensures
            r@ == loaded(opt_str(file)),
    {
        match ColorConfig::try_load(file) {
            Ok(config) => config,
            Err(_) => ColorConfig::default(),
        }
    }

    /// The text of the settings file for this document, from what the JSON
    /// writer made of it.
    pub fn written(outcome: Result<String, serde_json::Error>) -> (r: Result<String, ConfigError>)
        ensures
            match outcome {
                Ok(text) => r is Ok && r->Ok_0@ == text@,
                Err(_) => r is Err && r->Err_0 == ConfigError::Write,
            },
    {
        match outcome {
            Ok(text) => Ok(text),
            Err(_) => Err(ConfigError::Write),
        }
    }

    /// The text of the settings file for this document: the whole document
    /// as pretty-printed JSON. There is such a text for every document.
    pub fn to_json_text(&self) -> (r: Result<String, ConfigError>)
        ensures
            r is Ok,
            r->Ok_0@ == json_pretty(self@.encode()),
    {
        let doc = self.to_json();
        ColorConfig::written(pretty_text(&doc))
    }

    /// The JSON value that holds this document.
    pub fn to_json(&self) -> (v: serde_json::Value)
        ensures
            json_of(v) == self@.encode(),
    {
        let mut m = empty_members();
        put_member(&mut m, "background".to_owned(), text_value(self.background.clone()));
        put_member(&mut m, "primary".to_owned(), text_value(self.primary.clone()));
        put_member(&mut m, "secondary".to_owned(), text_value(self.secondary.clone()));
        put_member(&mut m, "text".to_owned(), text_value(self.text.clone()));
        put_member(&mut m, "accent".to_owned(), text_value(self.accent.clone()));
        write_text(&mut m, "lastWallpaper", &self.last_wallpaper);
        write_text(&mut m, "colorPreset", &self.color_preset);
        write_text(&mut m, "sidebarPosition", &self.sidebar_position);
        write_flag(&mut m, "notificationsEnabled", self.notifications_enabled);
        write_flag(&mut m, "notificationSoundsEnabled", self.notification_sounds_enabled);
        write_flag(&mut m, "sidebarVisible", self.sidebar_visible);
        write_text(&mut m, "rounding", &self.rounding);
        write_flag(&mut m, "showHiddenFiles", self.show_hidden_files);
        write_byte(&mut m, "uiScale", self.ui_scale);
        write_text(&mut m, "dashboardTileLeft", &self.dashboard_tile_left);
        write_text(&mut m, "sidepanelContent", &self.sidepanel_content);
        write_text(&mut m, "githubUsername", &self.github_username);
        write_text(&mut m, "dashboardPosition", &self.dashboard_position);
        write_flag(&mut m, "scriptsAutostartBattery", self.scripts_autostart_battery);
        write_flag(&mut m, "scriptsAutostartScreensaver", self.scripts_autostart_screensaver);
        write_byte(&mut m, "batteryThreshold", self.battery_threshold);
        write_count(&mut m, "screensaverTimeout", self.screensaver_timeout);
        write_text(&mut m, "dashboardResource1", &self.dashboard_resource_1);
        write_text(&mut m, "dashboardResource2", &self.dashboard_resource_2);
        write_flag(&mut m, "scriptsAutostartAutofloat", self.scripts_autostart_autofloat);
        write_count(&mut m, "autofloatWidth", self.autofloat_width);
        write_count(&mut m, "autofloatHeight", self.autofloat_height);
        write_flag(&mut m, "scriptsUseLockscreen", self.scripts_use_lockscreen);
        write_text(&mut m, "notificationPosition", &self.notification_position);
        write_text(&mut m, "notificationRounding", &self.notification_rounding);
        write_byte(&mut m, "quickshellBorderRadius", self.quickshell_border_radius);
        write_text(&mut m, "notificationSound", &self.notification_sound);
        object_value(m)
    }
}

} // verus!
