//! Where the settings file and its companions are looked for.
//!
//! Paths are plain text with `/` between their components. The functions
//! here decide; whether a file exists is found out by the caller and handed
//! in.

use vstd::prelude::*;
use vstd::string::*;
use crate::config::ColorConfig;
use crate::text::{chars_of, opt_str};

verus! {

/// A path with one more part: a part that starts at the root stands for
/// itself, any other part follows the base, after a `/` where the base does
/// not end in one.
pub open spec fn joined(base: Seq<char>, part: Seq<char>) -> Seq<char> {
    if part.len() > 0 && part[0] == '/' {
        part
    } else if base.len() == 0 || base.last() == '/' {
        base + part
    } else {
        base + seq!['/'] + part
    }
}

/// The directory `<home>/.config/<namespace>`.
pub open spec fn config_dir(home: Seq<char>, namespace: Seq<char>) -> Seq<char> {
    joined(joined(home, ".config"@), namespace)
}

/// The settings file of a directory: `<dir>/colors.json`.
pub open spec fn config_file(dir: Seq<char>) -> Seq<char> {
    joined(dir, "colors.json"@)
}

/// The directory used when no home directory is known.
pub open spec fn temp_dir() -> Seq<char> {
    "/tmp/sharpshell"@
}

/// Joins a path and one more part.
pub fn join(base: &str, part: &str) -> (r: String)
    ensures
        r@ == joined(base@, part@),
{
    let part_len = part.unicode_len();
    if part_len > 0 && part.get_char(0) == '/' {
        return part.to_owned();
    }
    let base_len = base.unicode_len();
    let mut r = base.to_owned();
    if base_len > 0 && base.get_char(base_len - 1) != '/' {
        proof {
            reveal_strlit("/");
        }
        r.append("/");
        assert(r@ =~= base@ + seq!['/']);
    }
    r.append(part);
    r
}

/// Where the settings file was found.
#[derive(Debug, Clone, Copy, PartialEq, Eq, Structural)]
pub enum PathSource {
    /// `<home>/.config/alloy`, where the file exists.
    Primary,
    /// The project directory named by the environment, where the file exists.
    Project,
    /// `<home>/.config/sharpshell`, whether or not the file exists yet.
    Fallback,
    /// The temporary directory, for want of a home directory.
    Temp,
}

/// The place of the settings file.
#[derive(Debug)]
pub struct ConfigPath {
    /// The settings file.
    pub path: String,
    /// The directory that holds it.
    pub dir: String,
    /// Which of the places this is.
    pub source: PathSource,
    /// Whether the directory is to be created before the path is used.
    pub create_dir: bool,
}

/// What a [`ConfigPath`] holds, as mathematical values.
pub struct ConfigPathView {
    pub path: Seq<char>,
    pub dir: Seq<char>,
    pub source: PathSource,
    pub create_dir: bool,
}

impl View for ConfigPath {
    type V = ConfigPathView;

    open spec fn view(&self) -> ConfigPathView {
        ConfigPathView {
            path: self.path@,
            dir: self.dir@,
            source: self.source,
            create_dir: self.create_dir,
        }
    }
}

/// Which place holds the settings file: the first of the primary directory,
/// if the file exists there; the project directory, if one is named and the
/// file exists there; the fallback directory, if a home directory is known;
/// the temporary directory.
pub open spec fn resolved_source(
    home: Option<Seq<char>>,
    primary_exists: bool,
    project: Option<Seq<char>>,
    project_exists: bool,
) -> PathSource {
    if home is Some && primary_exists {
        PathSource::Primary
    } else if project is Some && project_exists {
        PathSource::Project
    } else if home is Some {
        PathSource::Fallback
    } else {
        PathSource::Temp
    }
}

/// The directory of a place.
pub open spec fn source_dir(source: PathSource, home: Option<Seq<char>>, project: Option<Seq<char>>) -> Seq<char> {
    match source {
        PathSource::Primary => config_dir(home->0, "alloy"@),
        PathSource::Project => project->0,
        PathSource::Fallback => config_dir(home->0, "sharpshell"@),
        PathSource::Temp => temp_dir(),
    }
}

/// The place of the settings file, from what is known of the machine.
pub open spec fn resolved_path(
    home: Option<Seq<char>>,
    primary_exists: bool,
    project: Option<Seq<char>>,
    project_exists: bool,
) -> ConfigPathView {
    let source = resolved_source(home, primary_exists, project, project_exists);
    let dir = source_dir(source, home, project);
    ConfigPathView { path: config_file(dir), dir, source, create_dir: source == PathSource::Fallback }
}

/// The directory `<home>/.config/<namespace>`.
pub fn config_dir_in(home: &str, namespace: &str) -> (r: String)
    ensures
        r@ == config_dir(home@, namespace@),
{
    let base = join(home, ".config");
    join(base.as_str(), namespace)
}

/// The settings file in the primary directory of a home directory. The
/// caller finds out whether it exists.
pub fn primary_config_file(home: &str) -> (r: String)
    ensures
        r@ == config_file(config_dir(home@, "alloy"@)),
{
    let dir = config_dir_in(home, "alloy");
    join(dir.as_str(), "colors.json")
}

/// The settings file in a project directory. The caller finds out whether it
/// exists.
pub fn project_config_file(project: &str) -> (r: String)
    ensures
        r@ == config_file(project@),
{
    join(project, "colors.json")
}

/// A path without what follows its last component: slashes at its end, and
/// components that are a single dot.
pub open spec fn stripped(p: Seq<char>) -> Seq<char>
    decreases p.len(),
{
    if p.len() >= 1 && p.last() == '/' {
        stripped(p.drop_last())
    } else if p.len() >= 2 && p.last() == '.' && p[p.len() - 2] == '/' {
        stripped(p.drop_last())
    } else {
        p
    }
}

/// Whether the last component of a path is `name`.
pub open spec fn last_component_is(p: Seq<char>, name: Seq<char>) -> bool {
    let q = stripped(p);
    &&& q.len() >= name.len()
    &&& q.skip(q.len() - name.len()) == name
    &&& (q.len() == name.len() || q[q.len() - name.len() - 1] == '/')
}

/// Whether the last component of the path `dir` is `name`. Slashes at the
/// end of the path, and components that are a single dot, do not count.
pub fn ends_with_component(dir: &str, name: &str) -> (r: bool)
    ensures
        r == last_component_is(dir@, name@),
{
    let path = chars_of(dir);
    let want = chars_of(name);
    let mut n = path.len();
    assert(path@.take(n as int) =~= path@);
    loop
        invariant
            n <= path.len(),
            stripped(path@) == stripped(path@.take(n as int)),
        ensures
            stripped(path@) == path@.take(n as int),
        decreases n,
    {
        if n >= 1 && path[n - 1] == '/' {
            assert(path@.take(n as int).drop_last() =~= path@.take(n - 1));
            n = n - 1;
        } else if n >= 2 && path[n - 1] == '.' && path[n - 2] == '/' {
            assert(path@.take(n as int).drop_last() =~= path@.take(n - 1));
            n = n - 1;
        } else {
            break ;
        }
    }
    let ghost q = path@.take(n as int);
    if n < want.len() {
        return false;
    }
    let start = n - want.len();
    let mut i: usize = 0;
    while i < want.len()
        invariant
            i <= want.len(),
            start + want.len() == n,
            n <= path.len(),
            q == path@.take(n as int),
            q == stripped(dir@),
            want@ == name@,
            forall|j: int| 0 <= j < i ==> q[start + j] == want@[j],
        decreases want.len() - i,
    {
        if path[start + i] != want[i] {
            assert(q.len() == n);
            assert(q[start + i] == path@[start + i]);
            assert(q.skip(q.len() - want@.len())[i as int] == q[start + i]);
            return false;
        }
        i = i + 1;
    }
    assert(q.skip(q.len() - want@.len()) =~= want@);
    start == 0 || path[start - 1] == '/'
}

/// The save script of a directory: `<dir>/scripts/save-colors.py`.
pub open spec fn script_in(dir: Seq<char>) -> Seq<char> {
    joined(joined(dir, "scripts"@), "save-colors.py"@)
}

/// The save scripts to try, in their order, for a settings file in `dir`:
/// first the one that an `alloy` directory holds under `spark`, then the one
/// of the project directory, where one is named, or else that of the
/// fallback directory, where a home directory is known.
pub open spec fn script_candidates(dir: Seq<char>, project: Option<Seq<char>>, home: Option<Seq<char>>) -> Seq<
    Seq<char>,
> {
    let own = if last_component_is(dir, "alloy"@) {
        seq![script_in(joined(dir, "spark"@))]
    } else {
        seq![]
    };
    let other = match project {
        Some(p) => seq![script_in(p)],
        None => match home {
            Some(h) => seq![script_in(config_dir(h, "sharpshell"@))],
            None => seq![],
        },
    };
    own + other
}

/// The save script of a directory.
pub fn script_path_in(dir: &str) -> (r: String)
    ensures
        r@ == script_in(dir@),
{
    let scripts = join(dir, "scripts");
    join(scripts.as_str(), "save-colors.py")
}

/// The save scripts to try, in their order, for a settings file in `dir`.
pub fn save_script_candidates(dir: &str, project: Option<&str>, home: Option<&str>) -> (r: Vec<String>)
    ensures
        r.deep_view() == script_candidates(dir@, opt_str(project), opt_str(home)),
{
    let mut r: Vec<String> = Vec::new();
    if ends_with_component(dir, "alloy") {
        let spark = join(dir, "spark");
        r.push(script_path_in(spark.as_str()));
    }
    match project {
        Some(p) => {
            r.push(script_path_in(p));
        },
        None => match home {
            Some(h) => {
                let fallback = config_dir_in(h, "sharpshell");
                r.push(script_path_in(fallback.as_str()));
            },
            None => {},
        },
    }
    assert(r.deep_view() =~= script_candidates(dir@, opt_str(project), opt_str(home)));
    r
}

impl ColorConfig {
    /// Finds the settings file. `home` is the home directory, where one is
    /// known, and `primary_exists` says whether [`primary_config_file`]
    /// exists in it; `project` is the project directory named by the
    /// environment, where one is, and `project_exists` says whether
    /// [`project_config_file`] exists in it.
    pub fn get_config_path(
        home: Option<&str>,
        primary_exists: bool,
        project: Option<&str>,
        project_exists: bool,
    ) -> (r: ConfigPath)
        ensures
            r@ == resolved_path(opt_str(home), primary_exists, opt_str(project), project_exists),
    {
        if let Some(h) = home {
            if primary_exists {
                let dir = config_dir_in(h, "alloy");
                let path = join(dir.as_str(), "colors.json");
                return ConfigPath { path, dir, source: PathSource::Primary, create_dir: false };
            }
        }
        if let Some(p) = project {
            if project_exists {
                let path = join(p, "colors.json");
                return ConfigPath { path, dir: p.to_owned(), source: PathSource::Project, create_dir: false };
            }
        }
        if let Some(h) = home {
            let dir = config_dir_in(h, "sharpshell");
            let path = join(dir.as_str(), "colors.json");
            return ConfigPath { path, dir, source: PathSource::Fallback, create_dir: true };
        }
        let dir = "/tmp/sharpshell";
        let path = join(dir, "colors.json");
        ConfigPath { path, dir: dir.to_owned(), source: PathSource::Temp, create_dir: false }
    }
}

} // verus!
