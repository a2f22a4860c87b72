//! How the interpreter that runs the agent is invoked: which program, in
//! which directory, with which environment. What the machine holds is found
//! out by the caller and handed in.

use crate::text::texts;
use crate::paths::{path_models, path_view, JoinedPath, PathModel};
use crate::text::{same_text, string_view, text_view};
use vstd::prelude::*;

verus! {

/// What was found on the machine before a command is put together. Paths
/// are given as text.
#[derive(Debug, PartialEq, Eq)]
pub struct Runtime {
    /// The interpreter of the embedded runtime, where there is one.
    pub embedded_python: Option<String>,
    /// The interpreter of the source tree's virtual environment, where
    /// there is one.
    pub venv_python: Option<String>,
    /// The directory of the embedded runtime, where there is one.
    pub embedded_root: Option<String>,
    /// The module search path to hand on, where there is one.
    pub python_path: Option<String>,
    /// The root of the source tree, where it exists.
    pub repo_root: Option<String>,
    /// The user's home directory, where it is known.
    pub home: Option<String>,
    /// Whether the environment sets a log level already.
    pub log_level_set: bool,
    /// Whether the environment names the agent's state directory already.
    pub nanobot_home_set: bool,
    /// The agent's state directory.
    pub nanobot_home: String,
}

/// The invocation of the interpreter, its arguments apart.
#[derive(Debug, PartialEq, Eq)]
pub struct CommandSpec {
    pub program: String,
    pub current_dir: Option<String>,
    /// The variables to set, in order.
    pub env: Vec<(String, String)>,
    /// Whether the interpreter runs without a console window of its own,
    /// where the platform would give it one.
    pub no_window: bool,
}

/// The variables of `env`, in order.
pub open spec fn settings(env: Seq<(String, String)>) -> Seq<(Seq<char>, Seq<char>)> {
    env.map_values(|pair: (String, String)| (pair.0@, pair.1@))
}

/// The interpreter to run: the embedded one, else the one of the virtual
/// environment, else whichever `python` the system finds.
pub open spec fn interpreter(runtime: Runtime) -> Seq<char> {
    match runtime.embedded_python {
        Some(python) => python@,
        None => match runtime.venv_python {
            Some(python) => python@,
            None => "python"@,
        },
    }
}

/// The directory to run in: the root of the source tree where it exists,
/// else the user's home, else the caller's own.
pub open spec fn working_dir(runtime: Runtime) -> Option<Seq<char>> {
    match runtime.repo_root {
        Some(root) => Some(root@),
        None => string_view(runtime.home),
    }
}

/// The variables that make the interpreter write plain, unbuffered UTF-8.
pub open spec fn output_settings() -> Seq<(Seq<char>, Seq<char>)> {
    seq![("PYTHONIOENCODING"@, "utf-8"@), ("PYTHONUTF8"@, "1"@), ("PYTHONUNBUFFERED"@, "1"@)]
}

/// The variables that keep colours and layout out of the output.
pub open spec fn terminal_settings() -> Seq<(Seq<char>, Seq<char>)> {
    seq![
        ("LOGURU_ENQUEUE"@, "True"@),
        ("TERM"@, "dumb"@),
        ("COLUMNS"@, "120"@),
        ("NO_COLOR"@, "1"@),
        ("RICH_DISABLE"@, "1"@),
    ]
}

/// The variables that tie the interpreter to the embedded runtime.
pub open spec fn embedded_settings(runtime: Runtime) -> Seq<(Seq<char>, Seq<char>)> {
    if runtime.embedded_python is Some {
        let isolated = seq![("PYTHONNOUSERSITE"@, "1"@), ("PYTHONDONTWRITEBYTECODE"@, "1"@)];
        match runtime.embedded_root {
            Some(root) => seq![("PYTHONHOME"@, root@)] + isolated,
            None => isolated,
        }
    } else {
        Seq::empty()
    }
}

/// The variables that the interpreter is started with, in order. A log
/// level and a state directory that the environment sets already are left
/// to it.
pub open spec fn environment(runtime: Runtime) -> Seq<(Seq<char>, Seq<char>)> {
    output_settings() + (if runtime.log_level_set {
        Seq::empty()
    } else {
        seq![("LOGURU_LEVEL"@, "INFO"@)]
    }) + terminal_settings() + embedded_settings(runtime) + (match runtime.python_path {
        Some(path) => seq![("PYTHONPATH"@, path@)],
        None => Seq::empty(),
    }) + (if runtime.nanobot_home_set {
        Seq::empty()
    } else {
        seq![("NANOBOT_HOME"@, runtime.nanobot_home@)]
    })
}

fn set(env: &mut Vec<(String, String)>, name: &str, value: &str)
    ensures
        settings(final(env)@) == settings(old(env)@).push((name@, value@)),
{
    env.push((name.to_owned(), value.to_owned()));
}

/// The invocation of the interpreter on the machine that `runtime` tells
/// of.
pub fn base_command(runtime: &Runtime) -> (command: CommandSpec)
    ensures
        command.program@ == interpreter(*runtime),
        string_view(command.current_dir) == working_dir(*runtime),
        settings(command.env@) == environment(*runtime),
        command.no_window,
{
    let program = match &runtime.embedded_python {
        Some(python) => python.clone(),
        None => match &runtime.venv_python {
            Some(python) => python.clone(),
            None => "python".to_owned(),
        },
    };
    let current_dir = match &runtime.repo_root {
        Some(root) => Some(root.clone()),
        None => match &runtime.home {
            Some(home) => Some(home.clone()),
            None => None,
        },
    };
    let mut env: Vec<(String, String)> = Vec::new();
    set(&mut env, "PYTHONIOENCODING", "utf-8");
    set(&mut env, "PYTHONUTF8", "1");
    set(&mut env, "PYTHONUNBUFFERED", "1");
    if !runtime.log_level_set {
        set(&mut env, "LOGURU_LEVEL", "INFO");
    }
    set(&mut env, "LOGURU_ENQUEUE", "True");
    set(&mut env, "TERM", "dumb");
    set(&mut env, "COLUMNS", "120");
    set(&mut env, "NO_COLOR", "1");
    set(&mut env, "RICH_DISABLE", "1");
    if runtime.embedded_python.is_some() {
        if let Some(root) = &runtime.embedded_root {
            set(&mut env, "PYTHONHOME", root.as_str());
        }
        set(&mut env, "PYTHONNOUSERSITE", "1");
        set(&mut env, "PYTHONDONTWRITEBYTECODE", "1");
    }
    if let Some(path) = &runtime.python_path {
        set(&mut env, "PYTHONPATH", path.as_str());
    }
    if !runtime.nanobot_home_set {
        set(&mut env, "NANOBOT_HOME", runtime.nanobot_home.as_str());
    }
    assert(settings(env@) =~= environment(*runtime));
    CommandSpec { program, current_dir, env, no_window: true }
}

/// The directories of the module search path, in order: the packages of
/// the embedded runtime where there are any, the root of the source tree
/// where the interpreter is not the embedded one and the root exists, and
/// what the environment names already.
pub open spec fn search_path(
    site_packages: Option<Seq<char>>,
    repo_root: Option<Seq<char>>,
    use_embedded: bool,
    existing: Seq<Seq<char>>,
) -> Seq<Seq<char>> {
    (match site_packages {
        Some(dir) => seq![dir],
        None => Seq::empty(),
    }) + (if !use_embedded && repo_root is Some {
        seq![repo_root->0]
    } else {
        Seq::empty()
    }) + existing
}

/// The directories of the module search path, or `None` where there is
/// none to name.
pub fn build_pythonpath(
    site_packages: Option<&str>,
    repo_root: Option<&str>,
    use_embedded: bool,
    existing: Vec<String>,
) -> (paths: Option<Vec<String>>)
    ensures
        match paths {
            Some(dirs) => dirs@.len() > 0 && texts(dirs@) == search_path(
                text_view(site_packages),
                text_view(repo_root),
                use_embedded,
                texts(existing@),
            ),
            None => search_path(
                text_view(site_packages),
                text_view(repo_root),
                use_embedded,
                texts(existing@),
            ).len() == 0,
        },
{
    let mut paths: Vec<String> = Vec::new();
    if let Some(dir) = site_packages {
        paths.push(dir.to_owned());
    }
    if !use_embedded {
        if let Some(root) = repo_root {
            paths.push(root.to_owned());
        }
    }
    let mut existing = existing;
    paths.append(&mut existing);
    if paths.len() == 0 {
        None
    } else {
        Some(paths)
    }
}

/// Below which directories bundled resources are looked for, in order: the
/// resource directory of the bundle, the directory of the executable and
/// three places below it, and the resources of the source tree.
pub open spec fn resource_root_places(
    resource_dir: Option<PathModel>,
    exe_dir: Option<PathModel>,
    repo_root: PathModel,
) -> Seq<PathModel> {
    (match resource_dir {
        Some(dir) => seq![dir],
        None => Seq::empty(),
    }) + (match exe_dir {
        Some(dir) => seq![
            dir,
            dir.joined("resources"@),
            dir.joined("resources"@).joined("_up_"@),
            dir.joined("_up_"@),
        ],
        None => Seq::empty(),
    }) + seq![repo_root.joined("nanobot-desktop"@).joined("src-tauri"@).joined("resources"@)]
}

/// Below which directories bundled resources are looked for, in order.
pub fn resource_root_candidates(
    resource_dir: Option<JoinedPath>,
    exe_dir: Option<JoinedPath>,
    repo_root: JoinedPath,
) -> (places: Vec<JoinedPath>)
    ensures
        path_models(places@) == resource_root_places(
            path_view(resource_dir),
            path_view(exe_dir),
            repo_root@,
        ),
{
    let mut places: Vec<JoinedPath> = Vec::new();
    if let Some(dir) = resource_dir {
        places.push(dir);
    }
    if let Some(dir) = exe_dir {
        places.push(dir.clone());
        places.push(dir.clone().join("resources"));
        places.push(dir.clone().join("resources").join("_up_"));
        places.push(dir.join("_up_"));
    }
    places.push(repo_root.join("nanobot-desktop").join("src-tauri").join("resources"));
    places
}

/// Of `paths`, those that were found to exist, each once, in the order of
/// their first occurrence. `found` tells of each path whether it exists.
pub open spec fn distinct_found(paths: Seq<Seq<char>>, found: Seq<bool>) -> Seq<Seq<char>>
    decreases paths.len(),
{
    if paths.len() == 0 {
        Seq::empty()
    } else {
        let before = distinct_found(paths.drop_last(), found);
        let i = paths.len() - 1;
        if i < found.len() && found[i] && !before.contains(paths.last()) {
            before.push(paths.last())
        } else {
            before
        }
    }
}

fn is_among(kept: &Vec<String>, path: &str) -> (r: bool)
    ensures
        r == texts(kept@).contains(path@),
{
    let mut i: usize = 0;
    while i < kept.len()
        invariant
            i <= kept@.len(),
            forall|j: int| 0 <= j < i ==> texts(kept@)[j] != path@,
        decreases kept@.len() - i,
    {
        if same_text(kept[i].as_str(), path) {
            assert(texts(kept@)[i as int] == path@);
            return true;
        }
        i += 1;
    }
    false
}

/// The roots below which bundled resources are looked for: of the places
/// in their plain form, those that exist, each once.
pub fn existing_roots(paths: &Vec<String>, found: &[bool]) -> (roots: Vec<String>)
    ensures
        texts(roots@) == distinct_found(texts(paths@), found@),
{
    let mut roots: Vec<String> = Vec::new();
    let mut i: usize = 0;
    while i < paths.len()
        invariant
            i <= paths@.len(),
            texts(roots@) == distinct_found(texts(paths@).take(i as int), found@),
        decreases paths@.len() - i,
    {
        let ghost after = texts(paths@).take(i + 1);
        assert(after.drop_last() =~= texts(paths@).take(i as int));
        if i < found.len() && found[i] && !is_among(&roots, paths[i].as_str()) {
            roots.push(paths[i].clone());
        }
        i += 1;
    }
    assert(texts(paths@).take(i as int) =~= texts(paths@));
    roots
}

} // verus!
