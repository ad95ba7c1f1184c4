//! The sidebar's own preferences file.

use vstd::prelude::*;
use vstd::string::*;
use crate::paths::{join, joined};
use crate::text::opt_str;

verus! {

/// The preferences of the sidebar.
#[derive(Debug, Clone, Copy, PartialEq, Eq, Structural)]
pub struct SidebarPrefs;

/// The file that holds the sidebar's preferences: `index/.sidebar_prefs` in
/// the configuration directory, or in the current directory where no
/// configuration directory is known.
pub open spec fn sidebar_prefs_file(config_dir: Option<Seq<char>>) -> Seq<char> {
    let base = match config_dir {
        Some(d) => d,
        None => "."@,
    };
    joined(joined(base, "index"@), ".sidebar_prefs"@)
}

impl SidebarPrefs {
    /// The file that holds the sidebar's preferences.
    pub fn config_path(config_dir: Option<&str>) -> (r: String)
        ensures
            r@ == sidebar_prefs_file(opt_str(config_dir)),
    {
        let base = match config_dir {
            Some(d) => d,
            None => ".",
        };
        let index = join(base, "index");
        join(index.as_str(), ".sidebar_prefs")
    }
}

} // verus!
