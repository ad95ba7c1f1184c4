//! The interface scale as the windowing toolkit wants it: an environment
//! variable that holds a scale factor.

use vstd::prelude::*;
use vstd::string::*;
use crate::config::{ColorConfig, ColorConfigView};
use crate::schema::loaded;
use crate::text::opt_str;

verus! {

/// The name of the environment variable that holds the scale factor.
pub open spec fn scale_variable() -> Seq<char> {
    "GTK_SCALE_FACTOR"@
}

/// The scale factor for an interface scale in percent: 75 and 125 have
/// their own, every other value has that of 100.
pub open spec fn scale_factor_text(scale: u8) -> Seq<char> {
    if scale == 75 {
        "0.75"@
    } else if scale == 125 {
        "1.25"@
    } else {
        "1.0"@
    }
}

/// The scale factor for an interface scale in percent.
pub fn scale_factor(scale: u8) -> (r: &'static str)
    ensures
        r@ == scale_factor_text(scale),
{
    if scale == 75 {
        "0.75"
    } else if scale == 125 {
        "1.25"
    } else {
        "1.0"
    }
}

/// An environment variable to set: its name and its value.
#[derive(Debug)]
pub struct EnvSetting {
    pub name: String,
    pub value: String,
}

/// The variable to set for a document: none where the document has no
/// interface scale, else the scale variable with the factor of its scale.
pub open spec fn scale_setting(d: ColorConfigView) -> Option<(Seq<char>, Seq<char>)> {
    match d.ui_scale {
        Some(scale) => Some((scale_variable(), scale_factor_text(scale))),
        None => None,
    }
}

/// The name and value of an optional setting.
pub open spec fn setting_view(s: Option<EnvSetting>) -> Option<(Seq<char>, Seq<char>)> {
    match s {
        Some(e) => Some((e.name@, e.value@)),
        None => None,
    }
}

impl ColorConfig {
    /// The environment variable to set, before the toolkit starts, for a
    /// document that is already loaded.
    pub fn apply_scale_env_from_config(config: &Self) -> (r: Option<EnvSetting>)
        ensures
            setting_view(r) == scale_setting(config@),
    {
        match config.ui_scale {
            Some(scale) => Some(
                EnvSetting { name: "GTK_SCALE_FACTOR".to_owned(), value: scale_factor(scale).to_owned() },
            ),
            None => None,
        }
    }

    /// The environment variable to set, before the toolkit starts, for the
    /// settings file with the text `file` (`None` for no file).
    pub fn apply_scale_env_to_process(file: Option<&str>) -> (r: Option<EnvSetting>)
        ensures
            setting_view(r) == scale_setting(loaded(opt_str(file))),
    {
        let config = ColorConfig::load(file);
        ColorConfig::apply_scale_env_from_config(&config)
    }
}

} // verus!
