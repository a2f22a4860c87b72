//! Where the shell keeps its files, as paths still to be put together: a
//! starting point and the names to adjoin to it, one after the other.
//! Adjoining them by the platform's rules, and looking at the file system,
//! is the caller's part.

use crate::command::Platform;
use crate::text::texts;
use crate::text::{same_text, starts_with, text_of, text_view, to_chars, trim, trimmed};
use vstd::prelude::*;

verus! {

/// A path as a starting point and the names adjoined to it, in order.
#[derive(Debug, PartialEq, Eq)]
pub struct JoinedPath {
    pub root: String,
    pub segments: Vec<String>,
}

/// What a `JoinedPath` says.
pub struct PathModel {
    pub root: Seq<char>,
    pub segments: Seq<Seq<char>>,
}

impl View for JoinedPath {
    type V = PathModel;

    open spec fn view(&self) -> PathModel {
        PathModel { root: self.root@, segments: texts(self.segments@) }
    }
}

impl PathModel {
    /// The path that starts at `root` and has nothing adjoined.
    pub open spec fn at(root: Seq<char>) -> PathModel {
        PathModel { root, segments: Seq::empty() }
    }

    /// This path with `segment` adjoined.
    pub open spec fn joined(self, segment: Seq<char>) -> PathModel {
        PathModel { root: self.root, segments: self.segments.push(segment) }
    }
}

impl Clone for JoinedPath {
    fn clone(&self) -> (copy: Self)
        ensures
            copy@ == self@,
    {
        let mut segments: Vec<String> = Vec::new();
        let mut i: usize = 0;
        while i < self.segments.len()
            invariant
                i <= self.segments@.len(),
                segments@ == self.segments@.take(i as int),
            decreases self.segments@.len() - i,
        {
            segments.push(self.segments[i].clone());
            i += 1;
        }
        assert(self.segments@.take(i as int) =~= self.segments@);
        JoinedPath { root: self.root.clone(), segments }
    }
}

impl JoinedPath {
    /// The path that starts at `root` and has nothing adjoined.
    pub fn new(root: &str) -> (path: Self)
        ensures
            path@ == PathModel::at(root@),
    {
        let path = JoinedPath { root: root.to_owned(), segments: Vec::new() };
        assert(path@.segments =~= Seq::<Seq<char>>::empty());
        path
    }

    /// This path with `segment` adjoined.
    pub fn join(self, segment: &str) -> (path: Self)
        ensures
            path@ == self@.joined(segment@),
    {
        let mut segments = self.segments;
        segments.push(segment.to_owned());
        let path = JoinedPath { root: self.root, segments };
        assert(path@.segments =~= self@.segments.push(segment@));
        path
    }
}

/// What each of `paths` says, in the same order.
pub open spec fn path_models(paths: Seq<JoinedPath>) -> Seq<PathModel> {
    paths.map_values(|p: JoinedPath| p@)
}

/// The root of the source tree, three levels above the directory of the
/// shell's manifest.
pub open spec fn repo_root_of(manifest_dir: Seq<char>) -> PathModel {
    PathModel::at(manifest_dir).joined(".."@).joined(".."@).joined(".."@)
}

/// The root of the source tree, from the directory of the shell's manifest.
pub fn repo_root(manifest_dir: &str) -> (path: JoinedPath)
    ensures
        path@ == repo_root_of(manifest_dir@),
{
    JoinedPath::new(manifest_dir).join("..").join("..").join("..")
}

/// The directory in which the agent keeps its state: the configured one
/// where the configuration names one that is not blank, else `.nanobot` in
/// the user's home, else `.nanobot` at the root of the source tree.
pub open spec fn nanobot_home_of(
    configured: Option<Seq<char>>,
    home: Option<PathModel>,
    manifest_dir: Seq<char>,
) -> PathModel {
    if configured is Some && trim(configured->0).len() > 0 {
        PathModel::at(trim(configured->0))
    } else {
        match home {
            Some(dir) => dir.joined(".nanobot"@),
            None => repo_root_of(manifest_dir).joined(".nanobot"@),
        }
    }
}

/// The directory in which the agent keeps its state. `configured` is what
/// the environment names, `home` the user's home directory.
pub fn nanobot_home(configured: Option<&str>, home: Option<JoinedPath>, manifest_dir: &str) -> (path:
    JoinedPath)
    ensures
        path@ == nanobot_home_of(text_view(configured), path_view(home), manifest_dir@),
{
    if let Some(value) = configured {
        let name = trimmed(value);
        if name.as_str().unicode_len() > 0 {
            return JoinedPath::new(name.as_str());
        }
    }
    match home {
        Some(dir) => dir.join(".nanobot"),
        None => repo_root(manifest_dir).join(".nanobot"),
    }
}

/// The user's home directory, from what the environment holds: on Windows
/// the user profile, or else the home drive with the home path adjoined;
/// elsewhere the home variable.
pub open spec fn home_dir_of(
    platform: Platform,
    home: Option<Seq<char>>,
    user_profile: Option<Seq<char>>,
    home_drive: Option<Seq<char>>,
    home_path: Option<Seq<char>>,
) -> Option<PathModel> {
    match platform {
        Platform::Unix => match home {
            Some(h) => Some(PathModel::at(h)),
            None => None,
        },
        Platform::Windows => match user_profile {
            Some(p) => Some(PathModel::at(p)),
            None => if home_drive is Some && home_path is Some {
                Some(PathModel::at(home_drive->0).joined(home_path->0))
            } else {
                None
            },
        },
    }
}

/// What `p` says, where there is a path.
pub open spec fn path_view(p: Option<JoinedPath>) -> Option<PathModel> {
    match p {
        Some(t) => Some(t@),
        None => None,
    }
}

/// The user's home directory, from what the environment holds.
pub fn home_dir(
    platform: Platform,
    home: Option<&str>,
    user_profile: Option<&str>,
    home_drive: Option<&str>,
    home_path: Option<&str>,
) -> (dir: Option<JoinedPath>)
    ensures
        path_view(dir) == home_dir_of(
            platform,
            text_view(home),
            text_view(user_profile),
            text_view(home_drive),
            text_view(home_path),
        ),
{
    match platform {
        Platform::Unix => match home {
            Some(h) => Some(JoinedPath::new(h)),
            None => None,
        },
        Platform::Windows => match user_profile {
            Some(p) => Some(JoinedPath::new(p)),
            None => match (home_drive, home_path) {
                (Some(drive), Some(path)) => Some(JoinedPath::new(drive).join(path)),
                _ => None,
            },
        },
    }
}

/// The configuration file inside the agent's state directory.
pub fn config_path(nanobot_home: JoinedPath) -> (path: JoinedPath)
    ensures
        path@ == nanobot_home@.joined("config.json"@),
{
    nanobot_home.join("config.json")
}

/// The directory of the recorded sessions inside the agent's state
/// directory.
pub fn sessions_dir(nanobot_home: JoinedPath) -> (path: JoinedPath)
    ensures
        path@ == nanobot_home@.joined("sessions"@),
{
    nanobot_home.join("sessions")
}

/// The workspace: the configured one, or else `workspace` inside the
/// agent's state directory.
pub open spec fn workspace_root_of(configured: Option<PathModel>, nanobot_home: PathModel) -> PathModel {
    match configured {
        Some(dir) => dir,
        None => nanobot_home.joined("workspace"@),
    }
}

/// The workspace: the configured one, or else the one inside the agent's
/// state directory.
pub fn workspace_root(configured: Option<JoinedPath>, nanobot_home: JoinedPath) -> (path: JoinedPath)
    ensures
        path@ == workspace_root_of(path_view(configured), nanobot_home@),
{
    match configured {
        Some(dir) => dir,
        None => nanobot_home.join("workspace"),
    }
}

/// The directory of the skills inside the workspace.
pub fn workspace_skills_dir(workspace_root: JoinedPath) -> (path: JoinedPath)
    ensures
        path@ == workspace_root@.joined("skills"@),
{
    workspace_root.join("skills")
}

/// The directory of the memory files inside the workspace.
pub fn workspace_memory_dir(workspace_root: JoinedPath) -> (path: JoinedPath)
    ensures
        path@ == workspace_root@.joined("memory"@),
{
    workspace_root.join("memory")
}

/// Whether `path` is a tilde followed by a slash or a backslash and
/// whatever else.
pub open spec fn is_below_tilde(path: Seq<char>) -> bool {
    path.len() >= 2 && path[0] == '~' && (path[1] == '/' || path[1] == '\\')
}

/// `path` with a leading tilde read as the user's home directory. Where
/// no home directory is known, or `path` does not start with a tilde of
/// its own, it is taken as it is.
pub open spec fn expanded(path: Seq<char>, home: Option<PathModel>) -> PathModel {
    match home {
        Some(dir) => if path == "~"@ {
            dir
        } else if is_below_tilde(path) {
            dir.joined(path.skip(2))
        } else {
            PathModel::at(path)
        },
        None => PathModel::at(path),
    }
}

/// `path` with a leading tilde read as the user's home directory.
pub fn expand_tilde(path: &str, home: Option<JoinedPath>) -> (expansion: JoinedPath)
    ensures
        expansion@ == expanded(path@, path_view(home)),
{
    match home {
        Some(dir) => {
            if same_text(path, "~") {
                return dir;
            }
            let chars = to_chars(path);
            if chars.len() >= 2 && chars[0] == '~' && (chars[1] == '/' || chars[1] == '\\') {
                let rest = text_of(&chars, 2, chars.len());
                dir.join(rest.as_str())
            } else {
                JoinedPath::new(path)
            }
        },
        None => JoinedPath::new(path),
    }
}

/// Where an interpreter may stand below `root`, in the order in which the
/// places are tried.
pub open spec fn python_below(root: PathModel, platform: Platform, with_top_level: bool) -> Seq<
    PathModel,
> {
    match platform {
        Platform::Windows => if with_top_level {
            seq![root.joined("python.exe"@), root.joined("Scripts"@).joined("python.exe"@)]
        } else {
            seq![root.joined("Scripts"@).joined("python.exe"@)]
        },
        Platform::Unix => seq![
            root.joined("bin"@).joined("python3"@),
            root.joined("bin"@).joined("python"@),
        ],
    }
}

/// Where the interpreter of the source tree's virtual environment may
/// stand.
pub open spec fn local_venv_places(repo_root: PathModel, platform: Platform) -> Seq<PathModel> {
    python_below(repo_root.joined(".venv"@), platform, false)
}

/// Where the interpreter of an embedded runtime at `root` may stand.
pub open spec fn embedded_python_places(root: PathModel, platform: Platform) -> Seq<PathModel> {
    python_below(root, platform, true)
}

/// The first of `places` that was found to exist, where `found` tells of
/// each place, in order, whether it was. A place of which `found` does not
/// tell counts as missing.
pub open spec fn first_found(places: Seq<PathModel>, found: Seq<bool>) -> Option<PathModel>
    decreases places.len(),
{
    if places.len() == 0 || found.len() == 0 {
        None
    } else if found[0] {
        Some(places[0])
    } else {
        first_found(places.drop_first(), found.drop_first())
    }
}

/// The first place that was found is one of the places, was found, and no
/// place before it was; none is chosen exactly where none was found.
pub proof fn lemma_first_found(places: Seq<PathModel>, found: Seq<bool>)
    ensures
        match first_found(places, found) {
            Some(place) => exists|i: int|
                0 <= i < places.len() && i < found.len() && #[trigger] places[i] == place
                    && found[i] && forall|j: int| 0 <= j < i ==> !#[trigger] found[j],
            None => forall|i: int| 0 <= i < places.len() && i < found.len() ==> !#[trigger] found[i],
        },
    decreases places.len(),
{
    if places.len() > 0 && found.len() > 0 && !found[0] {
        let rest = places.drop_first();
        let more = found.drop_first();
        lemma_first_found(rest, more);
        match first_found(rest, more) {
            Some(place) => {
                let i = choose|i: int|
                    0 <= i < rest.len() && i < more.len() && #[trigger] rest[i] == place && more[i]
                        && forall|j: int| 0 <= j < i ==> !#[trigger] more[j];
                assert forall|j: int| 0 <= j < i + 1 implies !#[trigger] found[j] by {
                    if j > 0 {
                        assert(found[j] == more[j - 1]);
                    }
                }
            },
            None => {
                assert forall|i: int| 0 <= i < places.len() && i < found.len() implies !#[trigger] found[i] by {
                    if i > 0 {
                        assert(found[i] == more[i - 1]);
                    }
                }
            },
        }
    }
}

/// The first of `places` that was found to exist.
pub fn pick_first_found(places: &Vec<JoinedPath>, found: &[bool]) -> (place: Option<JoinedPath>)
    ensures
        path_view(place) == first_found(path_models(places@), found@),
{
    let ghost all = path_models(places@);
    let mut i: usize = 0;
    assert(all.skip(0) =~= all);
    assert(found@.skip(0) =~= found@);
    while i < places.len() && i < found.len()
        invariant
            i <= places@.len(),
            i <= found@.len(),
            all == path_models(places@),
            first_found(all, found@) == first_found(all.skip(i as int), found@.skip(i as int)),
        decreases places@.len() - i,
    {
        if found[i] {
            return Some(places[i].clone());
        }
        assert(all.skip(i as int).drop_first() =~= all.skip(i + 1));
        assert(found@.skip(i as int).drop_first() =~= found@.skip(i + 1));
        i += 1;
    }
    None
}

fn python_candidates(root: JoinedPath, platform: Platform, with_top_level: bool) -> (places: Vec<
    JoinedPath,
>)
    ensures
        path_models(places@) == python_below(root@, platform, with_top_level),
{
    let mut places: Vec<JoinedPath> = Vec::new();
    match platform {
        Platform::Windows => {
            if with_top_level {
                places.push(root.clone().join("python.exe"));
            }
            places.push(root.join("Scripts").join("python.exe"));
        },
        Platform::Unix => {
            places.push(root.clone().join("bin").join("python3"));
            places.push(root.join("bin").join("python"));
        },
    }
    places
}

/// Where the interpreter of the source tree's virtual environment may
/// stand, in the order in which the places are tried.
pub fn local_venv_candidates(repo_root: JoinedPath, platform: Platform) -> (places: Vec<JoinedPath>)
    ensures
        path_models(places@) == local_venv_places(repo_root@, platform),
{
    python_candidates(repo_root.join(".venv"), platform, false)
}

/// Where the interpreter of an embedded runtime at `root` may stand, in
/// the order in which the places are tried.
pub fn embedded_python_candidates(root: JoinedPath, platform: Platform) -> (places: Vec<JoinedPath>)
    ensures
        path_models(places@) == embedded_python_places(root@, platform),
{
    python_candidates(root, platform, true)
}

/// The interpreter of the source tree's virtual environment: the first
/// of its places that was found to exist.
pub fn local_venv_python(repo_root: JoinedPath, platform: Platform, found: &[bool]) -> (python:
    Option<JoinedPath>)
    ensures
        path_view(python) == first_found(local_venv_places(repo_root@, platform), found@),
{
    let places = local_venv_candidates(repo_root, platform);
    pick_first_found(&places, found)
}

/// The interpreter of an embedded runtime at `root`: the first of its
/// places that was found to exist.
pub fn embedded_python_exe(root: JoinedPath, platform: Platform, found: &[bool]) -> (python: Option<
    JoinedPath,
>)
    ensures
        path_view(python) == first_found(embedded_python_places(root@, platform), found@),
{
    let places = embedded_python_candidates(root, platform);
    pick_first_found(&places, found)
}

/// Where the directory `name` of bundled resources may stand, given the
/// roots below which resources are looked for: below each root, first
/// directly and then inside `resources`.
pub open spec fn resource_places(roots: Seq<PathModel>, name: Seq<char>) -> Seq<PathModel>
    decreases roots.len(),
{
    if roots.len() == 0 {
        Seq::empty()
    } else {
        resource_places(roots.drop_last(), name).push(roots.last().joined(name)).push(
            roots.last().joined("resources"@).joined(name),
        )
    }
}

/// Where the directory `name` of bundled resources may stand, in the
/// order in which the places are tried.
pub fn resource_candidates(roots: &Vec<JoinedPath>, name: &str) -> (places: Vec<JoinedPath>)
    ensures
        path_models(places@) == resource_places(path_models(roots@), name@),
{
    let mut places: Vec<JoinedPath> = Vec::new();
    let ghost all = path_models(roots@);
    let mut i: usize = 0;
    while i < roots.len()
        invariant
            i <= roots@.len(),
            all == path_models(roots@),
            path_models(places@) == resource_places(all.take(i as int), name@),
        decreases roots@.len() - i,
    {
        let direct = roots[i].clone().join(name);
        let nested = roots[i].clone().join("resources").join(name);
        places.push(direct);
        places.push(nested);
        assert(all.take(i + 1).drop_last() =~= all.take(i as int));
        i += 1;
    }
    assert(all.take(i as int) =~= all);
    places
}

/// The directory `name` of bundled resources: the first of its places
/// that was found to exist.
pub fn find_resource_subdir(roots: &Vec<JoinedPath>, name: &str, found: &[bool]) -> (dir: Option<
    JoinedPath,
>)
    ensures
        path_view(dir) == first_found(resource_places(path_models(roots@), name@), found@),
{
    let places = resource_candidates(roots, name);
    pick_first_found(&places, found)
}

/// Where the directory of the embedded runtime may stand.
pub fn python_root_candidates(roots: &Vec<JoinedPath>) -> (places: Vec<JoinedPath>)
    ensures
        path_models(places@) == resource_places(path_models(roots@), "python"@),
{
    resource_candidates(roots, "python")
}

/// Where the directory of the packages that come with the embedded runtime
/// may stand.
pub fn site_packages_candidates(roots: &Vec<JoinedPath>) -> (places: Vec<JoinedPath>)
    ensures
        path_models(places@) == resource_places(path_models(roots@), "site-packages"@),
{
    resource_candidates(roots, "site-packages")
}

/// The directory of the embedded runtime.
pub fn embedded_python_root(roots: &Vec<JoinedPath>, found: &[bool]) -> (dir: Option<JoinedPath>)
    ensures
        path_view(dir) == first_found(resource_places(path_models(roots@), "python"@), found@),
{
    find_resource_subdir(roots, "python", found)
}

/// The directory of the packages that come with the embedded runtime.
pub fn embedded_site_packages(roots: &Vec<JoinedPath>, found: &[bool]) -> (dir: Option<JoinedPath>)
    ensures
        path_view(dir) == first_found(
            resource_places(path_models(roots@), "site-packages"@),
            found@,
        ),
{
    find_resource_subdir(roots, "site-packages", found)
}

/// What introduces a verbatim path to a network share on Windows.
pub open spec fn verbatim_share_prefix() -> Seq<char> {
    seq!['\\', '\\', '?', '\\', 'U', 'N', 'C', '\\']
}

/// What introduces a verbatim path on Windows.
pub open spec fn verbatim_prefix() -> Seq<char> {
    seq!['\\', '\\', '?', '\\']
}

/// `path` in the form that other programs take: on Windows without the
/// prefix that marks a verbatim path, elsewhere as it is.
pub open spec fn normalized(path: Seq<char>, platform: Platform) -> Seq<char> {
    match platform {
        Platform::Unix => path,
        Platform::Windows => if verbatim_share_prefix().is_prefix_of(path) {
            seq!['\\', '\\'] + path.skip(8)
        } else if verbatim_prefix().is_prefix_of(path) {
            path.skip(4)
        } else {
            path
        },
    }
}

/// `path` in the form that other programs take.
pub fn normalize_path(path: &str, platform: Platform) -> (plain: String)
    ensures
        plain@ == normalized(path@, platform),
{
    match platform {
        Platform::Unix => path.to_owned(),
        Platform::Windows => {
            let chars = to_chars(path);
            let mut share: Vec<char> = Vec::new();
            share.push('\\');
            share.push('\\');
            share.push('?');
            share.push('\\');
            if starts_with(&chars, &share) {
                share.push('U');
                share.push('N');
                share.push('C');
                share.push('\\');
                if starts_with(&chars, &share) {
                    let rest = text_of(&chars, 8, chars.len());
                    proof {
                        reveal_strlit("\\\\");
                    }
                    crate::text::join_text("\\\\", rest.as_str())
                } else {
                    text_of(&chars, 4, chars.len())
                }
            } else {
                assert(!verbatim_share_prefix().is_prefix_of(path@));
                path.to_owned()
            }
        },
    }
}

} // verus!
