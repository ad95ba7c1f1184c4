//! Telling the desktop shell that something changed: the sentinel files it
//! watches and what is written to them.

use vstd::prelude::*;
use vstd::string::*;
use crate::config::{ColorConfig, ColorConfigView};
use crate::paths::{join, joined};
use crate::schema::loaded;
use crate::text::{decimal, decimal_text, opt_str};

verus! {

/// The file that tells the shell which wallpaper was chosen.
pub open spec fn wallpaper_path_file() -> Seq<char> {
    "/tmp/quickshell_wallpaper_path"@
}

/// The file that tells the shell to read the settings again.
pub open spec fn color_change_file() -> Seq<char> {
    "/tmp/quickshell_color_change"@
}

/// The token of a notice. `millis` is the time, in milliseconds since the
/// epoch, and `last` the token of the notice written before, where there
/// was one. The token is the time where that is later than the last token;
/// else it is the number after the last token, and 0 after the largest.
pub open spec fn reload_token(millis: u128, last: Option<u128>) -> u128 {
    match last {
        Some(l) => if l < millis {
            millis
        } else if l < u128::MAX {
            (l + 1) as u128
        } else {
            0
        },
        None => millis,
    }
}

/// What the change sentinel holds: the path of the settings file, a line
/// break, and `reload_` with the token.
pub open spec fn change_payload(config_path: Seq<char>, token: u128) -> Seq<char> {
    config_path + seq!['\n'] + "reload_"@ + decimal(token as nat)
}

/// A sentinel file to write: its path and its whole content.
#[derive(Debug)]
pub struct Notice {
    pub file: String,
    pub content: String,
}

/// What a [`Notice`] holds, as mathematical values.
pub struct NoticeView {
    pub file: Seq<char>,
    pub content: Seq<char>,
}

impl View for Notice {
    type V = NoticeView;

    open spec fn view(&self) -> NoticeView {
        NoticeView { file: self.file@, content: self.content@ }
    }
}

/// The notice that tells the shell to read the settings file at
/// `config_path` again, and the token it holds. `millis` is the time, in
/// milliseconds since the epoch, and `last` the token of the notice written
/// before, where there was one. The token is never that of the notice
/// before, so the content of the sentinel changes with every notice, also
/// where the clock stands still or goes back.
pub fn notify_color_change(config_path: &str, millis: u128, last: Option<u128>) -> (r: (Notice, u128))
    ensures
        r.0@.file == color_change_file(),
        r.0@.content == change_payload(config_path@, r.1),
        r.1 == reload_token(millis, last),
{
    let token = match last {
        Some(l) => if l < millis {
            millis
        } else if l < u128::MAX {
            l + 1
        } else {
            0
        },
        None => millis,
    };
    let mut content = config_path.to_owned();
    proof {
        reveal_strlit("\n");
    }
    content.append("\n");
    assert(content@ =~= config_path@ + seq!['\n']);
    content.append("reload_");
    let stamp = decimal_text(token);
    content.append(stamp.as_str());
    (Notice { file: "/tmp/quickshell_color_change".to_owned(), content }, token)
}

/// What choosing a wallpaper asks for: a notice for the shell, and the
/// settings document to save after the notice is written.
#[derive(Debug)]
pub struct WallpaperChange {
    pub notice: Notice,
    pub config: ColorConfig,
}

/// Chooses a wallpaper. The notice holds the wallpaper's path and nothing
/// else; the document is the one read from the settings file with the text
/// `file` (`None` for no file), with the wallpaper recorded in it.
pub fn set_wallpaper(wallpaper_path: &str, file: Option<&str>) -> (r: WallpaperChange)
    ensures
        r.notice@.file == wallpaper_path_file(),
        r.notice@.content == wallpaper_path@,
        r.config@ == (ColorConfigView { last_wallpaper: Some(wallpaper_path@), ..loaded(opt_str(file)) }),
{
    let notice = Notice { file: "/tmp/quickshell_wallpaper_path".to_owned(), content: wallpaper_path.to_owned() };
    let mut config = ColorConfig::load(file);
    config.set_wallpaper(wallpaper_path);
    WallpaperChange { notice, config }
}

/// The directory that holds the wallpapers.
pub open spec fn wallpapers_dir(home: Option<Seq<char>>) -> Seq<char> {
    match home {
        Some(h) => joined(joined(h, "Pictures"@), "Wallpapers"@),
        None => "/tmp/wallpapers"@,
    }
}

/// The directory that holds the wallpapers: `Pictures/Wallpapers` in the home
/// directory, or a temporary directory where no home directory is known.
pub fn get_wallpapers_path(home: Option<&str>) -> (r: String)
    ensures
        r@ == wallpapers_dir(opt_str(home)),
{
    match home {
        Some(h) => {
            let pictures = join(h, "Pictures");
            join(pictures.as_str(), "Wallpapers")
        },
        None => "/tmp/wallpapers".to_owned(),
    }
}

} // verus!
