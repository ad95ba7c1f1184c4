//! What holds of the store as a whole: reading back what was written, and
//! what a reload before each change buys.

use vstd::prelude::*;
use crate::config::ColorConfigView;
use crate::error::ConfigError;
use crate::json::{json_parsed, json_pretty, Json, JsonMembers, JsonNumber};
use crate::paths::{config_dir, config_file, resolved_path, PathSource};
use crate::quickshell::{change_payload, reload_token};
use crate::save::{script_program, SaveActionView, SaveEvent, SaveJobView, SaveState, ScriptCallView};
use crate::session::change_outcome;
use crate::text::{decimal, lemma_decimal_injective};
use crate::schema::{
    byte_member, count_member, decode, document_of, flag_member, loaded, member_of, palette_of,
    put_byte, put_count, put_flag, put_text, required_text, text_member, try_loaded, well_typed,
    PaletteView,
};

verus! {

/// The length of a key and its last two characters. No two keys of the
/// settings file agree in all three.
pub open spec fn ending(s: Seq<char>) -> (nat, char, char) {
    (s.len(), s[s.len() - 1], s[s.len() - 2])
}

/// The keys of the settings file differ from each other.
pub proof fn lemma_keys_differ()
    ensures
        ending("background"@) == (10nat, 'd', 'n'),
        ending("primary"@) == (7nat, 'y', 'r'),
        ending("secondary"@) == (9nat, 'y', 'r'),
        ending("text"@) == (4nat, 't', 'x'),
        ending("accent"@) == (6nat, 't', 'n'),
        ending("lastWallpaper"@) == (13nat, 'r', 'e'),
        ending("colorPreset"@) == (11nat, 't', 'e'),
        ending("sidebarPosition"@) == (15nat, 'n', 'o'),
        ending("notificationsEnabled"@) == (20nat, 'd', 'e'),
        ending("notificationSoundsEnabled"@) == (25nat, 'd', 'e'),
        ending("sidebarVisible"@) == (14nat, 'e', 'l'),
        ending("rounding"@) == (8nat, 'g', 'n'),
        ending("showHiddenFiles"@) == (15nat, 's', 'e'),
        ending("uiScale"@) == (7nat, 'e', 'l'),
        ending("dashboardTileLeft"@) == (17nat, 't', 'f'),
        ending("sidepanelContent"@) == (16nat, 't', 'n'),
        ending("githubUsername"@) == (14nat, 'e', 'm'),
        ending("dashboardPosition"@) == (17nat, 'n', 'o'),
        ending("scriptsAutostartBattery"@) == (23nat, 'y', 'r'),
        ending("scriptsAutostartScreensaver"@) == (27nat, 'r', 'e'),
        ending("batteryThreshold"@) == (16nat, 'd', 'l'),
        ending("screensaverTimeout"@) == (18nat, 't', 'u'),
        ending("dashboardResource1"@) == (18nat, '1', 'e'),
        ending("dashboardResource2"@) == (18nat, '2', 'e'),
        ending("scriptsAutostartAutofloat"@) == (25nat, 't', 'a'),
        ending("autofloatWidth"@) == (14nat, 'h', 't'),
        ending("autofloatHeight"@) == (15nat, 't', 'h'),
        ending("scriptsUseLockscreen"@) == (20nat, 'n', 'e'),
        ending("notificationPosition"@) == (20nat, 'n', 'o'),
        ending("notificationRounding"@) == (20nat, 'g', 'n'),
        ending("quickshellBorderRadius"@) == (22nat, 's', 'u'),
        ending("notificationSound"@) == (17nat, 'd', 'n'),
        ending("presets"@) == (7nat, 's', 't'),
{
    reveal_strlit("background");
    reveal_strlit("primary");
    reveal_strlit("secondary");
    reveal_strlit("text");
    reveal_strlit("accent");
    reveal_strlit("lastWallpaper");
    reveal_strlit("colorPreset");
    reveal_strlit("sidebarPosition");
    reveal_strlit("notificationsEnabled");
    reveal_strlit("notificationSoundsEnabled");
    reveal_strlit("sidebarVisible");
    reveal_strlit("rounding");
    reveal_strlit("showHiddenFiles");
    reveal_strlit("uiScale");
    reveal_strlit("dashboardTileLeft");
    reveal_strlit("sidepanelContent");
    reveal_strlit("githubUsername");
    reveal_strlit("dashboardPosition");
    reveal_strlit("scriptsAutostartBattery");
    reveal_strlit("scriptsAutostartScreensaver");
    reveal_strlit("batteryThreshold");
    reveal_strlit("screensaverTimeout");
    reveal_strlit("dashboardResource1");
    reveal_strlit("dashboardResource2");
    reveal_strlit("scriptsAutostartAutofloat");
    reveal_strlit("autofloatWidth");
    reveal_strlit("autofloatHeight");
    reveal_strlit("scriptsUseLockscreen");
    reveal_strlit("notificationPosition");
    reveal_strlit("notificationRounding");
    reveal_strlit("quickshellBorderRadius");
    reveal_strlit("notificationSound");
    reveal_strlit("presets");
}

/// What adding a member does: under its own key stands the new value, where
/// there is one, and under every other key what stood there before.
pub proof fn lemma_put()
    ensures
        forall|m: JsonMembers, k: Seq<char>, o: Option<Seq<char>>, x: Seq<char>|
            x != k ==> (#[trigger] put_text(m, k, o).contains_key(x)) == m.contains_key(x),
        forall|m: JsonMembers, k: Seq<char>, o: Option<Seq<char>>, x: Seq<char>|
            x != k ==> (#[trigger] put_text(m, k, o)[x]) == m[x],
        forall|m: JsonMembers, k: Seq<char>, o: Option<Seq<char>>|
            (#[trigger] put_text(m, k, o)).contains_key(k) == (o is Some || m.contains_key(k)),
        forall|m: JsonMembers, k: Seq<char>, o: Option<Seq<char>>|
            o is Some ==> (#[trigger] put_text(m, k, o))[k] == Json::Text(o->0),
        forall|m: JsonMembers, k: Seq<char>, o: Option<bool>, x: Seq<char>|
            x != k ==> (#[trigger] put_flag(m, k, o).contains_key(x)) == m.contains_key(x),
        forall|m: JsonMembers, k: Seq<char>, o: Option<bool>, x: Seq<char>|
            x != k ==> (#[trigger] put_flag(m, k, o)[x]) == m[x],
        forall|m: JsonMembers, k: Seq<char>, o: Option<bool>|
            (#[trigger] put_flag(m, k, o)).contains_key(k) == (o is Some || m.contains_key(k)),
        forall|m: JsonMembers, k: Seq<char>, o: Option<bool>|
            o is Some ==> (#[trigger] put_flag(m, k, o))[k] == Json::Bool(o->0),
        forall|m: JsonMembers, k: Seq<char>, o: Option<u8>, x: Seq<char>|
            x != k ==> (#[trigger] put_byte(m, k, o).contains_key(x)) == m.contains_key(x),
        forall|m: JsonMembers, k: Seq<char>, o: Option<u8>, x: Seq<char>|
            x != k ==> (#[trigger] put_byte(m, k, o)[x]) == m[x],
        forall|m: JsonMembers, k: Seq<char>, o: Option<u8>|
            (#[trigger] put_byte(m, k, o)).contains_key(k) == (o is Some || m.contains_key(k)),
        forall|m: JsonMembers, k: Seq<char>, o: Option<u8>|
            o is Some ==> (#[trigger] put_byte(m, k, o))[k] == Json::Number(JsonNumber::Unsigned(o->0 as u64)),
        forall|m: JsonMembers, k: Seq<char>, o: Option<u32>, x: Seq<char>|
            x != k ==> (#[trigger] put_count(m, k, o).contains_key(x)) == m.contains_key(x),
        forall|m: JsonMembers, k: Seq<char>, o: Option<u32>, x: Seq<char>|
            x != k ==> (#[trigger] put_count(m, k, o)[x]) == m[x],
        forall|m: JsonMembers, k: Seq<char>, o: Option<u32>|
            (#[trigger] put_count(m, k, o)).contains_key(k) == (o is Some || m.contains_key(k)),
        forall|m: JsonMembers, k: Seq<char>, o: Option<u32>|
            o is Some ==> (#[trigger] put_count(m, k, o))[k] == Json::Number(JsonNumber::Unsigned(o->0 as u64)),
{
    reveal(put_text);
    reveal(put_flag);
    reveal(put_byte);
    reveal(put_count);
}

/// A written document has a member for each colour and for each preference
/// that is set, and under each key stands the value of its field.
pub proof fn lemma_members(d: ColorConfigView)
    ensures
        d.members().contains_key("background"@) && d.members()["background"@] == Json::Text(d.background),
        d.members().contains_key("primary"@) && d.members()["primary"@] == Json::Text(d.primary),
        d.members().contains_key("secondary"@) && d.members()["secondary"@] == Json::Text(d.secondary),
        d.members().contains_key("text"@) && d.members()["text"@] == Json::Text(d.text),
        d.members().contains_key("accent"@) && d.members()["accent"@] == Json::Text(d.accent),
        d.members().contains_key("lastWallpaper"@) == d.last_wallpaper is Some,
        d.last_wallpaper is Some ==> d.members()["lastWallpaper"@] == Json::Text(d.last_wallpaper->0),
        d.members().contains_key("colorPreset"@) == d.color_preset is Some,
        d.color_preset is Some ==> d.members()["colorPreset"@] == Json::Text(d.color_preset->0),
        d.members().contains_key("sidebarPosition"@) == d.sidebar_position is Some,
        d.sidebar_position is Some ==> d.members()["sidebarPosition"@] == Json::Text(d.sidebar_position->0),
        d.members().contains_key("notificationsEnabled"@) == d.notifications_enabled is Some,
        d.notifications_enabled is Some ==> d.members()["notificationsEnabled"@] == Json::Bool(d.notifications_enabled->0),
        d.members().contains_key("notificationSoundsEnabled"@) == d.notification_sounds_enabled is Some,
        d.notification_sounds_enabled is Some ==> d.members()["notificationSoundsEnabled"@] == Json::Bool(d.notification_sounds_enabled->0),
        d.members().contains_key("sidebarVisible"@) == d.sidebar_visible is Some,
        d.sidebar_visible is Some ==> d.members()["sidebarVisible"@] == Json::Bool(d.sidebar_visible->0),
        d.members().contains_key("rounding"@) == d.rounding is Some,
        d.rounding is Some ==> d.members()["rounding"@] == Json::Text(d.rounding->0),
        d.members().contains_key("showHiddenFiles"@) == d.show_hidden_files is Some,
        d.show_hidden_files is Some ==> d.members()["showHiddenFiles"@] == Json::Bool(d.show_hidden_files->0),
        d.members().contains_key("uiScale"@) == d.ui_scale is Some,
        d.ui_scale is Some ==> d.members()["uiScale"@] == Json::Number(JsonNumber::Unsigned(d.ui_scale->0 as u64)),
        d.members().contains_key("dashboardTileLeft"@) == d.dashboard_tile_left is Some,
        d.dashboard_tile_left is Some ==> d.members()["dashboardTileLeft"@] == Json::Text(d.dashboard_tile_left->0),
        d.members().contains_key("sidepanelContent"@) == d.sidepanel_content is Some,
        d.sidepanel_content is Some ==> d.members()["sidepanelContent"@] == Json::Text(d.sidepanel_content->0),
        d.members().contains_key("githubUsername"@) == d.github_username is Some,
        d.github_username is Some ==> d.members()["githubUsername"@] == Json::Text(d.github_username->0),
        d.members().contains_key("dashboardPosition"@) == d.dashboard_position is Some,
        d.dashboard_position is Some ==> d.members()["dashboardPosition"@] == Json::Text(d.dashboard_position->0),
        d.members().contains_key("scriptsAutostartBattery"@) == d.scripts_autostart_battery is Some,
        d.scripts_autostart_battery is Some ==> d.members()["scriptsAutostartBattery"@] == Json::Bool(d.scripts_autostart_battery->0),
        d.members().contains_key("scriptsAutostartScreensaver"@) == d.scripts_autostart_screensaver is Some,
        d.scripts_autostart_screensaver is Some ==> d.members()["scriptsAutostartScreensaver"@] == Json::Bool(d.scripts_autostart_screensaver->0),
        d.members().contains_key("batteryThreshold"@) == d.battery_threshold is Some,
        d.battery_threshold is Some ==> d.members()["batteryThreshold"@] == Json::Number(JsonNumber::Unsigned(d.battery_threshold->0 as u64)),
        d.members().contains_key("screensaverTimeout"@) == d.screensaver_timeout is Some,
        d.screensaver_timeout is Some ==> d.members()["screensaverTimeout"@] == Json::Number(JsonNumber::Unsigned(d.screensaver_timeout->0 as u64)),
        d.members().contains_key("dashboardResource1"@) == d.dashboard_resource_1 is Some,
        d.dashboard_resource_1 is Some ==> d.members()["dashboardResource1"@] == Json::Text(d.dashboard_resource_1->0),
        d.members().contains_key("dashboardResource2"@) == d.dashboard_resource_2 is Some,
        d.dashboard_resource_2 is Some ==> d.members()["dashboardResource2"@] == Json::Text(d.dashboard_resource_2->0),
        d.members().contains_key("scriptsAutostartAutofloat"@) == d.scripts_autostart_autofloat is Some,
        d.scripts_autostart_autofloat is Some ==> d.members()["scriptsAutostartAutofloat"@] == Json::Bool(d.scripts_autostart_autofloat->0),
        d.members().contains_key("autofloatWidth"@) == d.autofloat_width is Some,
        d.autofloat_width is Some ==> d.members()["autofloatWidth"@] == Json::Number(JsonNumber::Unsigned(d.autofloat_width->0 as u64)),
        d.members().contains_key("autofloatHeight"@) == d.autofloat_height is Some,
        d.autofloat_height is Some ==> d.members()["autofloatHeight"@] == Json::Number(JsonNumber::Unsigned(d.autofloat_height->0 as u64)),
        d.members().contains_key("scriptsUseLockscreen"@) == d.scripts_use_lockscreen is Some,
        d.scripts_use_lockscreen is Some ==> d.members()["scriptsUseLockscreen"@] == Json::Bool(d.scripts_use_lockscreen->0),
        d.members().contains_key("notificationPosition"@) == d.notification_position is Some,
        d.notification_position is Some ==> d.members()["notificationPosition"@] == Json::Text(d.notification_position->0),
        d.members().contains_key("notificationRounding"@) == d.notification_rounding is Some,
        d.notification_rounding is Some ==> d.members()["notificationRounding"@] == Json::Text(d.notification_rounding->0),
        d.members().contains_key("quickshellBorderRadius"@) == d.quickshell_border_radius is Some,
        d.quickshell_border_radius is Some ==> d.members()["quickshellBorderRadius"@] == Json::Number(JsonNumber::Unsigned(d.quickshell_border_radius->0 as u64)),
        d.members().contains_key("notificationSound"@) == d.notification_sound is Some,
        d.notification_sound is Some ==> d.members()["notificationSound"@] == Json::Text(d.notification_sound->0),
{
    lemma_keys_differ();
    lemma_put();
}

/// Each member of a written document holds the field it is named for.
pub proof fn lemma_members_hold_fields(d: ColorConfigView)
    ensures
        required_text(d.members(), "background"@) == Some(d.background),
        required_text(d.members(), "primary"@) == Some(d.primary),
        required_text(d.members(), "secondary"@) == Some(d.secondary),
        required_text(d.members(), "text"@) == Some(d.text),
        required_text(d.members(), "accent"@) == Some(d.accent),
        text_member(d.members(), "lastWallpaper"@) == Some(d.last_wallpaper),
        text_member(d.members(), "colorPreset"@) == Some(d.color_preset),
        text_member(d.members(), "sidebarPosition"@) == Some(d.sidebar_position),
        flag_member(d.members(), "notificationsEnabled"@) == Some(d.notifications_enabled),
        flag_member(d.members(), "notificationSoundsEnabled"@) == Some(d.notification_sounds_enabled),
        flag_member(d.members(), "sidebarVisible"@) == Some(d.sidebar_visible),
        text_member(d.members(), "rounding"@) == Some(d.rounding),
        flag_member(d.members(), "showHiddenFiles"@) == Some(d.show_hidden_files),
        byte_member(d.members(), "uiScale"@) == Some(d.ui_scale),
        text_member(d.members(), "dashboardTileLeft"@) == Some(d.dashboard_tile_left),
        text_member(d.members(), "sidepanelContent"@) == Some(d.sidepanel_content),
        text_member(d.members(), "githubUsername"@) == Some(d.github_username),
        text_member(d.members(), "dashboardPosition"@) == Some(d.dashboard_position),
        flag_member(d.members(), "scriptsAutostartBattery"@) == Some(d.scripts_autostart_battery),
        flag_member(d.members(), "scriptsAutostartScreensaver"@) == Some(d.scripts_autostart_screensaver),
        byte_member(d.members(), "batteryThreshold"@) == Some(d.battery_threshold),
        count_member(d.members(), "screensaverTimeout"@) == Some(d.screensaver_timeout),
        text_member(d.members(), "dashboardResource1"@) == Some(d.dashboard_resource_1),
        text_member(d.members(), "dashboardResource2"@) == Some(d.dashboard_resource_2),
        flag_member(d.members(), "scriptsAutostartAutofloat"@) == Some(d.scripts_autostart_autofloat),
        count_member(d.members(), "autofloatWidth"@) == Some(d.autofloat_width),
        count_member(d.members(), "autofloatHeight"@) == Some(d.autofloat_height),
        flag_member(d.members(), "scriptsUseLockscreen"@) == Some(d.scripts_use_lockscreen),
        text_member(d.members(), "notificationPosition"@) == Some(d.notification_position),
        text_member(d.members(), "notificationRounding"@) == Some(d.notification_rounding),
        byte_member(d.members(), "quickshellBorderRadius"@) == Some(d.quickshell_border_radius),
        text_member(d.members(), "notificationSound"@) == Some(d.notification_sound),
{
    lemma_members(d);
}

/// A written document has no `presets` member.
pub proof fn lemma_written_without_presets(d: ColorConfigView)
    ensures
        !d.members().contains_key("presets"@),
        d.resolve_preset(d.encode()) == d,
{
    lemma_keys_differ();
    lemma_put();
}

/// Reading back what was written gives the same document: every field that
/// was set comes back with its value, and every field that was absent stays
/// absent. Here the document goes through the JSON value it is written as.
pub proof fn law_round_trip(d: ColorConfigView)
    ensures
        decode(d.encode()) == Some(d),
        document_of(d.encode()) == Some(d),
{
    lemma_members_hold_fields(d);
    lemma_written_without_presets(d);
}

/// Saving and then loading gives the same document: a settings file whose
/// text reads as the JSON value that the document was written as loads as
/// that document, with nothing added and nothing lost.
pub proof fn law_save_then_load(d: ColorConfigView, text: Seq<char>)
    ensures
        json_parsed(text) == Some(d.encode()) ==> try_loaded(Some(text)) == Ok::<ColorConfigView, ConfigError>(d),
        json_parsed(text) == Some(d.encode()) ==> loaded(Some(text)) == d,
{
    law_round_trip(d);
}

/// Whether `serde_json` reads the text that it writes for a value back as
/// that value. Its documentation does not say so, and nothing here takes it
/// for granted.
pub open spec fn reads_back(doc: Json) -> bool {
    json_parsed(json_pretty(doc)) == Some(doc)
}

/// The file that a direct save writes for a document loads as that document,
/// where the JSON text reads back as the value written.
pub proof fn law_saved_file_loads(d: ColorConfigView)
    ensures
        reads_back(d.encode()) ==> try_loaded(Some(json_pretty(d.encode()))) == Ok::<ColorConfigView, ConfigError>(d),
        reads_back(d.encode()) ==> loaded(Some(json_pretty(d.encode()))) == d,
{
    law_save_then_load(d, json_pretty(d.encode()));
}

/// Without a settings file, loading gives the default document.
pub proof fn law_default_on_missing()
    ensures
        try_loaded(None) == Err::<ColorConfigView, ConfigError>(ConfigError::NotFound),
        loaded(None) == ColorConfigView::defaults(),
{
}

/// A settings file that is no JSON, or whose JSON is no settings document,
/// loads as the default document.
pub proof fn law_default_on_corrupt(text: Seq<char>)
    ensures
        json_parsed(text) is None ==> loaded(Some(text)) == ColorConfigView::defaults(),
        json_parsed(text) is Some && decode(json_parsed(text)->0) is None ==> loaded(Some(text))
            == ColorConfigView::defaults(),
{
}

/// A preset that the settings file names and holds decides the colours,
/// whatever colours the file holds beside it; every preference is as the
/// file has it.
pub proof fn law_preset_overrides(root: JsonMembers, name: Seq<char>, presets: JsonMembers, colours: PaletteView)
    requires
        well_typed(root),
        root.contains_key("colorPreset"@) && root["colorPreset"@] == Json::Text(name),
        root.contains_key("presets"@) && root["presets"@] == Json::Object(presets),
        presets.contains_key(name) && palette_of(presets[name]) == Some(colours),
    ensures
        document_of(Json::Object(root)) == Some(decode(Json::Object(root))->0.with_palette(colours)),
{
}

/// A preset that the settings file names and does not hold changes nothing:
/// the colours are those that the file holds itself.
pub proof fn law_unknown_preset_keeps_colours(root: JsonMembers, name: Seq<char>)
    requires
        well_typed(root),
        root.contains_key("colorPreset"@) && root["colorPreset"@] == Json::Text(name),
        member_of(Json::Object(root), "presets"@) is None || member_of(
            member_of(Json::Object(root), "presets"@)->0,
            name,
        ) is None,
    ensures
        decode(Json::Object(root)) is Some,
        document_of(Json::Object(root)) == decode(Json::Object(root)),
{
}

/// Two panels that each load, change and save, one after the other, leave a
/// file with both changes: the second panel's reload sees what the first
/// saved, so its save carries the first change along. `first` and `second`
/// are the changes; `saved_first` and `saved_second` are the texts of the
/// file after each save, which read as the JSON values written.
pub proof fn law_reload_mutate_save(
    start: ColorConfigView,
    first: spec_fn(ColorConfigView) -> ColorConfigView,
    second: spec_fn(ColorConfigView) -> ColorConfigView,
    saved_first: Seq<char>,
    saved_second: Seq<char>,
)
    ensures
        ({
            &&& json_parsed(saved_first) == Some(first(start).encode())
            &&& json_parsed(saved_second) == Some(second(loaded(Some(saved_first))).encode())
        }) ==> loaded(Some(saved_second)) == second(first(start)),
{
    law_save_then_load(first(start), saved_first);
    law_save_then_load(second(first(start)), saved_second);
}

/// The same of the files that two direct saves write: after the first panel
/// saved its change and the second panel loaded that file, changed it and
/// saved, the file loads as the document with both changes.
pub proof fn law_second_save_keeps_first(
    start: ColorConfigView,
    first: spec_fn(ColorConfigView) -> ColorConfigView,
    second: spec_fn(ColorConfigView) -> ColorConfigView,
)
    ensures
        ({
            let after_first = json_pretty(first(start).encode());
            let after_second = json_pretty(second(loaded(Some(after_first))).encode());
            reads_back(first(start).encode()) && reads_back(second(first(start)).encode()) ==> loaded(
                Some(after_second),
            ) == second(first(start))
        }),
{
    law_saved_file_loads(first(start));
    law_saved_file_loads(second(first(start)));
}

/// What the first panel changed is still there after the second panel's
/// save, beside what the second changed. `first_done` says that the first
/// change is in a document and `second_done` that the second is; the second
/// change must leave the first alone.
pub proof fn law_changes_accumulate(
    start: ColorConfigView,
    first: spec_fn(ColorConfigView) -> ColorConfigView,
    second: spec_fn(ColorConfigView) -> ColorConfigView,
    first_done: spec_fn(ColorConfigView) -> bool,
    second_done: spec_fn(ColorConfigView) -> bool,
    saved_first: Seq<char>,
    saved_second: Seq<char>,
)
    requires
        first_done(first(start)),
        forall|d: ColorConfigView| first_done(d) ==> #[trigger] first_done(second(d)),
        forall|d: ColorConfigView| #[trigger] second_done(second(d)),
    ensures
        ({
            &&& json_parsed(saved_first) == Some(first(start).encode())
            &&& json_parsed(saved_second) == Some(second(loaded(Some(saved_first))).encode())
        }) ==> first_done(loaded(Some(saved_second))) && second_done(loaded(Some(saved_second))),
{
    law_reload_mutate_save(start, first, second, saved_first, saved_second);
}

/// Notices for the same settings file with different tokens differ.
pub proof fn lemma_tokens_show(config_path: Seq<char>, one: u128, other: u128)
    requires
        one != other,
    ensures
        change_payload(config_path, one) != change_payload(config_path, other),
{
    let head = config_path + seq!['\n'] + "reload_"@;
    let a = change_payload(config_path, one);
    let b = change_payload(config_path, other);
    if a == b {
        assert(a.skip(head.len() as int) =~= decimal(one as nat));
        assert(b.skip(head.len() as int) =~= decimal(other as nat));
        lemma_decimal_injective(one as nat, other as nat);
    }
}

/// Every notice differs from the one written before it for the same
/// settings file, whatever the clock says: its token is not the last one.
/// Where the clock has gone on since the last token, the token is the time.
pub proof fn law_notices_differ(config_path: Seq<char>, millis: u128, last: u128)
    ensures
        reload_token(millis, Some(last)) != last,
        change_payload(config_path, reload_token(millis, Some(last))) != change_payload(config_path, last),
        last < millis ==> reload_token(millis, Some(last)) == millis,
        reload_token(millis, None) == millis,
{
    lemma_tokens_show(config_path, reload_token(millis, Some(last)), last);
}

/// A notice that cannot be written neither undoes nor flags the save before
/// it: the result of the change is that of the save, whatever became of the
/// notice.
pub proof fn law_notice_never_undoes_save(
    saved: Result<(), ConfigError>,
    noticed: Option<Result<(), ConfigError>>,
    other: Option<Result<(), ConfigError>>,
)
    ensures
        change_outcome(saved, noticed) == saved,
        change_outcome(saved, noticed) == change_outcome(saved, other),
{
}

/// A save comes to its end: every step that is not the last leaves fewer
/// steps, and from the start there are at most four more than there are
/// scripts to try.
pub proof fn law_save_ends(job: SaveJobView, state: SaveState, event: SaveEvent)
    requires
        job.scripts.len() <= usize::MAX,
    ensures
        job.steps_left(SaveState::EnsuringDir) == job.scripts.len() + 4,
        !SaveJobView::finished(state) ==> job.steps_left(job.next(state, event)) < job.steps_left(state),
        job.steps_left(state) == 0 <==> SaveJobView::finished(state),
        SaveJobView::finished(state) ==> job.next(state, event) == state,
{
}

/// A save ends well only after the work was done: the script ran and
/// reported success, or the document was written directly. And a save that
/// fails on the way reports that the file could not be written.
pub proof fn law_save_result(job: SaveJobView, state: SaveState, event: SaveEvent)
    requires
        job.rendered is Err ==> job.rendered == Err::<Seq<char>, ConfigError>(ConfigError::Write),
        !SaveJobView::finished(state),
    ensures
        job.next(state, event) == SaveState::Saved ==> state == SaveState::Syncing || (state == SaveState::Writing
            && event == SaveEvent::Done),
        job.next(state, event) is Failed ==> job.next(state, event) == SaveState::Failed(ConfigError::Write),
        job.next(state, event) == SaveState::Syncing ==> state is Running && event == SaveEvent::Done,
{
}

/// The outcomes of looking for `n` scripts of which none exists.
pub open spec fn none_found(n: nat) -> Seq<SaveEvent> {
    Seq::new(n, |k: int| SaveEvent::Failed)
}

/// Where none of the scripts from the number `i` on exists, looking for
/// them ends in the direct write.
proof fn lemma_missing_scripts(job: SaveJobView, i: int)
    requires
        job.rendered is Ok,
        0 <= i <= job.scripts.len() <= usize::MAX,
    ensures
        job.run(job.probe_from(i), none_found((job.scripts.len() - i) as nat)) == SaveState::Writing,
    decreases job.scripts.len() - i,
{
    let events = none_found((job.scripts.len() - i) as nat);
    if i < job.scripts.len() {
        lemma_missing_scripts(job, i + 1);
        assert(events.drop_first() =~= none_found((job.scripts.len() - i - 1) as nat));
        assert(job.next(job.probe_from(i), events[0]) == job.probe_from(i + 1));
    }
}

/// A save with no script to run writes the document directly: once the
/// directory is there and no script is found, the caller is asked to write
/// the document's JSON text to the settings file, and when that is done the
/// save has succeeded. This holds of every job that `save` prepares.
pub proof fn law_save_writes_directly(job: SaveJobView, text: Seq<char>)
    requires
        job.rendered == Ok::<Seq<char>, ConfigError>(text),
        job.scripts.len() <= usize::MAX,
    ensures
        job.action(SaveState::EnsuringDir) == (SaveActionView::CreateDir { dir: job.dir }),
        job.run(SaveState::EnsuringDir, seq![SaveEvent::Done] + none_found(job.scripts.len())) == SaveState::Writing,
        job.action(SaveState::Writing) == (SaveActionView::Write { dir: job.dir, path: job.path, content: text }),
        job.next(SaveState::Writing, SaveEvent::Done) == SaveState::Saved,
        job.action(SaveState::Saved) == (SaveActionView::Finish { result: Ok(()) }),
        job.run(
            SaveState::EnsuringDir,
            seq![SaveEvent::Done] + none_found(job.scripts.len()) + seq![SaveEvent::Done],
        ) == SaveState::Saved,
{
    let probes = none_found(job.scripts.len());
    let to_write = seq![SaveEvent::Done] + probes;
    lemma_missing_scripts(job, 0);
    assert(to_write.drop_first() =~= probes);
    assert(job.next(SaveState::EnsuringDir, to_write[0]) == job.probe_from(0));
    lemma_run_on(job, SaveState::EnsuringDir, to_write, seq![SaveEvent::Done]);
    let last = seq![SaveEvent::Done];
    assert(last.drop_first() =~= Seq::<SaveEvent>::empty());
    assert(job.run(SaveState::Writing, last) == job.run(SaveState::Saved, last.drop_first()));
}

/// A run of steps may be taken in two parts.
proof fn lemma_run_on(job: SaveJobView, state: SaveState, first: Seq<SaveEvent>, then: Seq<SaveEvent>)
    ensures
        job.run(state, first + then) == job.run(job.run(state, first), then),
    decreases first.len(),
{
    if first.len() == 0 {
        assert(first + then =~= then);
    } else {
        assert((first + then).drop_first() =~= first.drop_first() + then);
        lemma_run_on(job, job.next(state, first[0]), first.drop_first(), then);
    }
}

/// A save through a script: once the directory is there, the first script
/// is found and it runs with success, the file is flushed and the save has
/// succeeded, whatever the flush reports.
pub proof fn law_save_through_script(job: SaveJobView, flushed: SaveEvent)
    requires
        0 < job.scripts.len() <= usize::MAX,
    ensures
        job.next(SaveState::EnsuringDir, SaveEvent::Done) == SaveState::Probing(0),
        job.next(SaveState::Probing(0), SaveEvent::Done) == SaveState::Running(0),
        job.action(SaveState::Running(0)) == (SaveActionView::Run {
            call: ScriptCallView { program: script_program(), args: job.config.script_args(job.scripts[0], job.path) },
        }),
        job.next(SaveState::Running(0), SaveEvent::Done) == SaveState::Syncing,
        job.action(SaveState::Syncing) == (SaveActionView::Sync { path: job.path }),
        job.next(SaveState::Syncing, flushed) == SaveState::Saved,
{
}

/// The places of the settings file in their order: with a home directory,
/// no file in the primary directory and no project directory named, the
/// file is the one of the fallback directory, which is to be created; the
/// temporary directory is used only without a home directory.
pub proof fn law_fallback_order(
    home: Option<Seq<char>>,
    primary_exists: bool,
    project: Option<Seq<char>>,
    project_exists: bool,
)
    ensures
        home is Some && !primary_exists && project is None ==> ({
            let r = resolved_path(home, primary_exists, project, project_exists);
            &&& r.source == PathSource::Fallback
            &&& r.dir == config_dir(home->0, "sharpshell"@)
            &&& r.path == config_file(config_dir(home->0, "sharpshell"@))
            &&& r.create_dir
        }),
        resolved_path(home, primary_exists, project, project_exists).source == PathSource::Temp <==> home is None
            && !(project is Some && project_exists),
        home is Some && primary_exists ==> resolved_path(home, primary_exists, project, project_exists).source
            == PathSource::Primary,
{
}

} // verus!
