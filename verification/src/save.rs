//! Saving the settings document.
//!
//! A save is a short run of steps on the file system: the directory is made
//! sure of, the shell's own save script is looked for and run, and where
//! there is no script, or it fails, the document is written directly. The
//! store decides each step from the outcome of the one before; the caller
//! carries the steps out.

use vstd::prelude::*;
use vstd::string::*;
use crate::config::{ColorConfig, ColorConfigView, opt_view};
use crate::error::ConfigError;
use crate::json::json_pretty;
use crate::paths::{save_script_candidates, script_candidates, ConfigPath};
use crate::text::{decimal, decimal_text, flag_str, flag_text, opt_str};

verus! {

/// The interpreter that runs the save script.
pub open spec fn script_program() -> Seq<char> {
    "python3"@
}

/// An optional text as a script argument: the text, or nothing where it is
/// absent.
pub open spec fn text_arg(o: Option<Seq<char>>) -> Seq<char> {
    match o {
        Some(s) => s,
        None => Seq::empty(),
    }
}

/// An optional flag as a script argument: `true`, `false`, or nothing.
pub open spec fn flag_arg(o: Option<bool>) -> Seq<char> {
    match o {
        Some(b) => flag_text(b),
        None => Seq::empty(),
    }
}

/// An optional small number as a script argument: its decimal form, or
/// nothing.
pub open spec fn byte_arg(o: Option<u8>) -> Seq<char> {
    match o {
        Some(n) => decimal(n as nat),
        None => Seq::empty(),
    }
}

/// An optional number as a script argument: its decimal form, or nothing.
pub open spec fn count_arg(o: Option<u32>) -> Seq<char> {
    match o {
        Some(n) => decimal(n as nat),
        None => Seq::empty(),
    }
}

impl ColorConfigView {
    /// The arguments of the save script, in the order it reads them: the
    /// script itself, the five colours, the settings file, then every
    /// preference, an absent one as an empty argument.
    pub open spec fn script_args(self, script: Seq<char>, path: Seq<char>) -> Seq<Seq<char>> {
        seq![
            script,
            self.background,
            self.primary,
            self.secondary,
            self.text,
            self.accent,
            path,
            text_arg(self.last_wallpaper),
            text_arg(self.color_preset),
            text_arg(self.sidebar_position),
            flag_arg(self.notifications_enabled),
            flag_arg(self.notification_sounds_enabled),
            flag_arg(self.sidebar_visible),
            text_arg(self.rounding),
            flag_arg(self.show_hidden_files),
            byte_arg(self.ui_scale),
            text_arg(self.dashboard_tile_left),
            text_arg(self.sidepanel_content),
            text_arg(self.github_username),
            text_arg(self.dashboard_position),
            flag_arg(self.scripts_autostart_battery),
            flag_arg(self.scripts_autostart_screensaver),
            byte_arg(self.battery_threshold),
            count_arg(self.screensaver_timeout),
            text_arg(self.dashboard_resource_1),
            text_arg(self.dashboard_resource_2),
            flag_arg(self.scripts_autostart_autofloat),
            count_arg(self.autofloat_width),
            count_arg(self.autofloat_height),
            flag_arg(self.scripts_use_lockscreen),
            text_arg(self.notification_position),
            text_arg(self.notification_rounding),
            byte_arg(self.quickshell_border_radius),
            text_arg(self.notification_sound),
        ]
    }
}

fn text_arg_of(o: &Option<String>) -> (r: String)
    ensures
        r@ == text_arg(opt_view(*o)),
{
    match o {
        Some(s) => s.clone(),
        None => String::new(),
    }
}

fn flag_arg_of(o: Option<bool>) -> (r: String)
    ensures
        r@ == flag_arg(o),
{
    match o {
        Some(b) => flag_str(b).to_owned(),
        None => String::new(),
    }
}

fn byte_arg_of(o: Option<u8>) -> (r: String)
    ensures
        r@ == byte_arg(o),
{
    match o {
        Some(n) => decimal_text(n as u128),
        None => String::new(),
    }
}

fn count_arg_of(o: Option<u32>) -> (r: String)
    ensures
        r@ == count_arg(o),
{
    match o {
        Some(n) => decimal_text(n as u128),
        None => String::new(),
    }
}

/// A command for the operating system: a program and its arguments.
#[derive(Debug)]
pub struct ScriptCall {
    pub program: String,
    pub args: Vec<String>,
}

impl ColorConfig {
    /// The command that saves this document through the script at `script`
    /// into the settings file at `path`.
    pub fn save_via_python_script(&self, script: &str, path: &str) -> (call: ScriptCall)
        ensures
            call.program@ == script_program(),
            call.args.deep_view() == self@.script_args(script@, path@),
    {
        let mut args: Vec<String> = Vec::new();
        args.push(script.to_owned());
        args.push(self.background.clone());
        args.push(self.primary.clone());
        args.push(self.secondary.clone());
        args.push(self.text.clone());
        args.push(self.accent.clone());
        args.push(path.to_owned());
        args.push(text_arg_of(&self.last_wallpaper));
        args.push(text_arg_of(&self.color_preset));
        args.push(text_arg_of(&self.sidebar_position));
        args.push(flag_arg_of(self.notifications_enabled));
        args.push(flag_arg_of(self.notification_sounds_enabled));
        args.push(flag_arg_of(self.sidebar_visible));
        args.push(text_arg_of(&self.rounding));
        args.push(flag_arg_of(self.show_hidden_files));
        args.push(byte_arg_of(self.ui_scale));
        args.push(text_arg_of(&self.dashboard_tile_left));
        args.push(text_arg_of(&self.sidepanel_content));
        args.push(text_arg_of(&self.github_username));
        args.push(text_arg_of(&self.dashboard_position));
        args.push(flag_arg_of(self.scripts_autostart_battery));
        args.push(flag_arg_of(self.scripts_autostart_screensaver));
        args.push(byte_arg_of(self.battery_threshold));
        args.push(count_arg_of(self.screensaver_timeout));
        args.push(text_arg_of(&self.dashboard_resource_1));
        args.push(text_arg_of(&self.dashboard_resource_2));
        args.push(flag_arg_of(self.scripts_autostart_autofloat));
        args.push(count_arg_of(self.autofloat_width));
        args.push(count_arg_of(self.autofloat_height));
        args.push(flag_arg_of(self.scripts_use_lockscreen));
        args.push(text_arg_of(&self.notification_position));
        args.push(text_arg_of(&self.notification_rounding));
        args.push(byte_arg_of(self.quickshell_border_radius));
        args.push(text_arg_of(&self.notification_sound));
        assert(args.deep_view() =~= self@.script_args(script@, path@));
        ScriptCall { program: "python3".to_owned(), args }
    }
}

/// What a [`ScriptCall`] holds, as mathematical values.
pub struct ScriptCallView {
    pub program: Seq<char>,
    pub args: Seq<Seq<char>>,
}

impl View for ScriptCall {
    type V = ScriptCallView;

    open spec fn view(&self) -> ScriptCallView {
        ScriptCallView { program: self.program@, args: self.args.deep_view() }
    }
}

/// How the step that the caller carried out ended.
#[derive(Debug, Clone, Copy, PartialEq, Eq, Structural)]
pub enum SaveEvent {
    /// It succeeded: the directory is there, the script exists, the script
    /// ran and reported success, the file is written.
    Done,
    /// It did not: the directory cannot be made, there is no such script, the
    /// script reported failure, the file cannot be written.
    Failed,
    /// The script could not be started at all.
    NotStarted,
}

/// How far a save has come.
#[derive(Debug, Clone, Copy, PartialEq, Eq, Structural)]
pub enum SaveState {
    /// The directory of the settings file is being made sure of.
    EnsuringDir,
    /// The script with this number is being looked for.
    Probing(usize),
    /// The script with this number is running.
    Running(usize),
    /// The script has written the file, which is being flushed to disk.
    Syncing,
    /// The document is being written directly.
    Writing,
    /// The save succeeded.
    Saved,
    /// The save failed.
    Failed(ConfigError),
}

/// What the caller is to do next.
#[derive(Debug)]
pub enum SaveAction {
    /// Create the directory and all that lead to it.
    CreateDir { dir: String },
    /// Find out whether the script exists.
    Probe { script: String },
    /// Run the command and wait for it.
    Run { call: ScriptCall },
    /// Flush the settings file to disk; a failure to do so does not count.
    Sync { path: String },
    /// Create the directory, then write the content to the settings file.
    Write { dir: String, path: String, content: String },
    /// Nothing more: this is the result of the save.
    Finish { result: Result<(), ConfigError> },
}

/// What a [`SaveAction`] holds, as mathematical values.
pub enum SaveActionView {
    CreateDir { dir: Seq<char> },
    Probe { script: Seq<char> },
    Run { call: ScriptCallView },
    Sync { path: Seq<char> },
    Write { dir: Seq<char>, path: Seq<char>, content: Seq<char> },
    Finish { result: Result<(), ConfigError> },
}

impl View for SaveAction {
    type V = SaveActionView;

    open spec fn view(&self) -> SaveActionView {
        match self {
            SaveAction::CreateDir { dir } => SaveActionView::CreateDir { dir: dir@ },
            SaveAction::Probe { script } => SaveActionView::Probe { script: script@ },
            SaveAction::Run { call } => SaveActionView::Run { call: call@ },
            SaveAction::Sync { path } => SaveActionView::Sync { path: path@ },
            SaveAction::Write { dir, path, content } => SaveActionView::Write {
                dir: dir@,
                path: path@,
                content: content@,
            },
            SaveAction::Finish { result } => SaveActionView::Finish { result: *result },
        }
    }
}

/// One save: the document, where it goes, the scripts to try, and the text
/// to write where no script does the work.
#[derive(Debug)]
pub struct SaveJob {
    /// The document to save.
    pub config: ColorConfig,
    /// The directory of the settings file.
    pub dir: String,
    /// The settings file.
    pub path: String,
    /// The save scripts to try, in their order.
    pub scripts: Vec<String>,
    /// The document as the text of a settings file. A job that `save`
    /// prepares always has one; a job without one fails where it would write.
    pub rendered: Result<String, ConfigError>,
}

/// What a [`SaveJob`] holds, as mathematical values.
pub struct SaveJobView {
    pub config: ColorConfigView,
    pub dir: Seq<char>,
    pub path: Seq<char>,
    pub scripts: Seq<Seq<char>>,
    pub rendered: Result<Seq<char>, ConfigError>,
}

/// The text of a rendered document, where there is one.
pub open spec fn rendered_view(r: Result<String, ConfigError>) -> Result<Seq<char>, ConfigError> {
    match r {
        Ok(text) => Ok(text@),
        Err(e) => Err(e),
    }
}

impl View for SaveJob {
    type V = SaveJobView;

    open spec fn view(&self) -> SaveJobView {
        SaveJobView {
            config: self.config@,
            dir: self.dir@,
            path: self.path@,
            scripts: self.scripts.deep_view(),
            rendered: rendered_view(self.rendered),
        }
    }
}

impl SaveJobView {
    /// The state in which the document is written directly, or the failure
    /// where there is no text to write.
    pub open spec fn direct(self) -> SaveState {
        match self.rendered {
            Ok(_) => SaveState::Writing,
            Err(e) => SaveState::Failed(e),
        }
    }

    /// The state in which the script with the number `i` is looked for; after
    /// the last script, the direct write.
    pub open spec fn probe_from(self, i: int) -> SaveState {
        if 0 <= i < self.scripts.len() {
            SaveState::Probing(i as usize)
        } else {
            self.direct()
        }
    }

    /// The state after a step: the state in which the step was asked for,
    /// and how it ended.
    pub open spec fn next(self, state: SaveState, event: SaveEvent) -> SaveState {
        match state {
            SaveState::EnsuringDir => match event {
                SaveEvent::Done => self.probe_from(0),
                _ => SaveState::Failed(ConfigError::Write),
            },
            SaveState::Probing(i) => match event {
                SaveEvent::Done => if i < self.scripts.len() {
                    SaveState::Running(i)
                } else {
                    self.direct()
                },
                _ => self.probe_from(i + 1),
            },
            SaveState::Running(i) => match event {
                SaveEvent::Done => SaveState::Syncing,
                SaveEvent::Failed => self.direct(),
                SaveEvent::NotStarted => SaveState::Failed(ConfigError::Write),
            },
            SaveState::Syncing => SaveState::Saved,
            SaveState::Writing => match event {
                SaveEvent::Done => SaveState::Saved,
                _ => SaveState::Failed(ConfigError::Write),
            },
            SaveState::Saved => SaveState::Saved,
            SaveState::Failed(e) => SaveState::Failed(e),
        }
    }

    /// What the caller is to do in a state.
    pub open spec fn action(self, state: SaveState) -> SaveActionView {
        match state {
            SaveState::EnsuringDir => SaveActionView::CreateDir { dir: self.dir },
            SaveState::Probing(i) => if i < self.scripts.len() {
                SaveActionView::Probe { script: self.scripts[i as int] }
            } else {
                SaveActionView::Finish { result: Err(ConfigError::Write) }
            },
            SaveState::Running(i) => if i < self.scripts.len() {
                SaveActionView::Run {
                    call: ScriptCallView {
                        program: script_program(),
                        args: self.config.script_args(self.scripts[i as int], self.path),
                    },
                }
            } else {
                SaveActionView::Finish { result: Err(ConfigError::Write) }
            },
            SaveState::Syncing => SaveActionView::Sync { path: self.path },
            SaveState::Writing => match self.rendered {
                Ok(text) => SaveActionView::Write { dir: self.dir, path: self.path, content: text },
                Err(e) => SaveActionView::Finish { result: Err(e) },
            },
            SaveState::Saved => SaveActionView::Finish { result: Ok(()) },
            SaveState::Failed(e) => SaveActionView::Finish { result: Err(e) },
        }
    }

    /// The state after several steps, each with its outcome.
    pub open spec fn run(self, state: SaveState, events: Seq<SaveEvent>) -> SaveState
        decreases events.len(),
    {
        if events.len() == 0 {
            state
        } else {
            self.run(self.next(state, events[0]), events.drop_first())
        }
    }

    /// Whether a save has come to its end.
    pub open spec fn finished(state: SaveState) -> bool {
        state is Saved || state is Failed
    }

    /// An upper bound on the steps that are left in a state.
    pub open spec fn steps_left(self, state: SaveState) -> nat {
        match state {
            SaveState::EnsuringDir => self.scripts.len() + 4,
            SaveState::Probing(i) => if i < self.scripts.len() {
                (self.scripts.len() - i + 3) as nat
            } else {
                2
            },
            SaveState::Running(_) => 2,
            SaveState::Syncing => 1,
            SaveState::Writing => 1,
            SaveState::Saved => 0,
            SaveState::Failed(_) => 0,
        }
    }
}

impl ColorConfig {
    /// The direct write of a document to the settings file at `path` in the
    /// directory `dir`: the action that writes the whole document as
    /// pretty-printed JSON. `rendered` is what the JSON writer made of the
    /// document; where it made nothing, the save has failed.
    pub fn save_direct(dir: &str, path: &str, rendered: &Result<String, ConfigError>) -> (r: SaveAction)
        ensures
            r@ == match rendered_view(*rendered) {
                Ok(text) => SaveActionView::Write { dir: dir@, path: path@, content: text },
                Err(e) => SaveActionView::Finish { result: Err(e) },
            },
    {
        match rendered {
            Ok(content) => SaveAction::Write { dir: dir.to_owned(), path: path.to_owned(), content: content.clone() },
            Err(e) => SaveAction::Finish { result: Err(*e) },
        }
    }

    /// Prepares a save of this document to the settings file at `target`.
    /// `project` is the project directory named by the environment and
    /// `home` the home directory, where they are known: they decide which
    /// save scripts are tried. The job always holds the document's JSON
    /// text, so a save whose directory and file can be written succeeds.
    pub fn save(&self, target: &ConfigPath, project: Option<&str>, home: Option<&str>) -> (job: SaveJob)
        ensures
            job@.config == self@,
            job@.dir == target.dir@,
            job@.path == target.path@,
            job@.scripts == script_candidates(target.dir@, opt_str(project), opt_str(home)),
            job@.rendered == Ok::<Seq<char>, ConfigError>(json_pretty(self@.encode())),
    {
        SaveJob {
            config: self.clone(),
            dir: target.dir.clone(),
            path: target.path.clone(),
            scripts: save_script_candidates(target.dir.as_str(), project, home),
            rendered: self.to_json_text(),
        }
    }
}

impl SaveJob {
    /// The state in which a save starts.
    pub fn start(&self) -> (r: SaveState)
        ensures
            r == SaveState::EnsuringDir,
    {
        SaveState::EnsuringDir
    }

    fn direct(&self) -> (r: SaveState)
        ensures
            r == self@.direct(),
    {
        match &self.rendered {
            Ok(_) => SaveState::Writing,
            Err(e) => SaveState::Failed(*e),
        }
    }

    fn probe_from(&self, i: usize) -> (r: SaveState)
        ensures
            r == self@.probe_from(i as int),
    {
        if i < self.scripts.len() {
            SaveState::Probing(i)
        } else {
            self.direct()
        }
    }

    /// The state after a step. `state` is the state whose action the caller
    /// carried out, and `event` says how that ended.
    pub fn step(&self, state: SaveState, event: SaveEvent) -> (r: SaveState)
        ensures
            r == self@.next(state, event),
            !SaveJobView::finished(state) ==> self@.steps_left(r) < self@.steps_left(state),
    {
        assert(self@.scripts.len() == self.scripts.len());
        match state {
            SaveState::EnsuringDir => match event {
                SaveEvent::Done => self.probe_from(0),
                _ => SaveState::Failed(ConfigError::Write),
            },
            SaveState::Probing(i) => match event {
                SaveEvent::Done => if i < self.scripts.len() {
                    SaveState::Running(i)
                } else {
                    self.direct()
                },
                _ => if i < usize::MAX {
                    self.probe_from(i + 1)
                } else {
                    self.direct()
                },
            },
            SaveState::Running(_) => match event {
                SaveEvent::Done => SaveState::Syncing,
                SaveEvent::Failed => self.direct(),
                SaveEvent::NotStarted => SaveState::Failed(ConfigError::Write),
            },
            SaveState::Syncing => SaveState::Saved,
            SaveState::Writing => match event {
                SaveEvent::Done => SaveState::Saved,
                _ => SaveState::Failed(ConfigError::Write),
            },
            SaveState::Saved => SaveState::Saved,
            SaveState::Failed(e) => SaveState::Failed(e),
        }
    }

    /// What the caller is to do in a state.
    pub fn action(&self, state: SaveState) -> (r: SaveAction)
        ensures
            r@ == self@.action(state),
    {
        match state {
            SaveState::EnsuringDir => SaveAction::CreateDir { dir: self.dir.clone() },
            SaveState::Probing(i) => if i < self.scripts.len() {
                SaveAction::Probe { script: self.scripts[i].clone() }
            } else {
                SaveAction::Finish { result: Err(ConfigError::Write) }
            },
            SaveState::Running(i) => if i < self.scripts.len() {
                SaveAction::Run {
                    call: self.config.save_via_python_script(self.scripts[i].as_str(), self.path.as_str()),
                }
            } else {
                SaveAction::Finish { result: Err(ConfigError::Write) }
            },
            SaveState::Syncing => SaveAction::Sync { path: self.path.clone() },
            SaveState::Writing => ColorConfig::save_direct(self.dir.as_str(), self.path.as_str(), &self.rendered),
            SaveState::Saved => SaveAction::Finish { result: Ok(()) },
            SaveState::Failed(e) => SaveAction::Finish { result: Err(e) },
        }
    }
}

} // verus!
