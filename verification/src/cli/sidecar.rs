//! Locating the bundled mpv engine. An explicit path wins, then the
//! locations inside the application bundle; the system `PATH` is never
//! searched.
use vstd::prelude::*;

use std::path::PathBuf;

verus! {

#[verifier::external_type_specification]
#[verifier::external_body]
pub struct ExPathBuf(std::path::PathBuf);

/// `<PathBuf as Clone>::clone`: the clone is the same path.
pub assume_specification[ <PathBuf as Clone>::clone ](path: &PathBuf) -> (copy: PathBuf)
    ensures
        copy == *path,
;

/// The path `Path::join` makes of `base` and one more component.
pub uninterp spec fn joined_path(base: PathBuf, component: Seq<char>) -> PathBuf;

/// The path `Path::parent` gives, `None` for a root or an empty path.
pub uninterp spec fn parent_path(path: PathBuf) -> Option<PathBuf>;

/// The path `PathBuf::from` makes of a text.
pub uninterp spec fn text_path(text: Seq<char>) -> PathBuf;

/// The text `Path::display` shows for a path.
pub uninterp spec fn displayed_path(path: PathBuf) -> Seq<char>;

/// The text `{:?}` shows for a list of paths.
pub uninterp spec fn debug_path_list(paths: Seq<PathBuf>) -> Seq<char>;

/// `Path::join`: the contract names the joined path as a function of the
/// base path and the component.
#[verifier::external_body]
fn join(base: &PathBuf, component: &str) -> (joined: PathBuf)
    ensures
        joined == joined_path(*base, component@),
{
    base.join(component)
}

/// `Path::parent`, owned: the contract names the parent as a function of
/// the path.
#[verifier::external_body]
fn parent(path: &PathBuf) -> (dir: Option<PathBuf>)
    ensures
        dir == parent_path(*path),
{
    path.parent().map(|p| p.to_path_buf())
}

/// `PathBuf::from` on a text: the contract names the path as a function
/// of the text.
#[verifier::external_body]
fn path_from(text: &str) -> (path: PathBuf)
    ensures
        path == text_path(text@),
{
    PathBuf::from(text)
}

/// `Path::display`, as a `String`: the contract names the text as a
/// function of the path.
#[verifier::external_body]
fn display(path: &PathBuf) -> (text: String)
    ensures
        text@ == displayed_path(*path),
{
    path.display().to_string()
}

/// `Debug` of a list of paths, as a `String`: the contract names the text
/// as a function of the paths.
#[verifier::external_body]
fn debug_list(paths: &Vec<PathBuf>) -> (text: String)
    ensures
        text@ == debug_path_list(paths@),
{
    format!("{paths:?}")
}

/// Failure to locate the bundled mpv executable.
#[derive(Debug, Clone, PartialEq, Eq)]
pub enum SidecarError {
    MissingExplicit { path: PathBuf },
    NotFound { searched: Vec<PathBuf> },
}

/// The text of a sidecar error.
pub open spec fn sidecar_error_text(error: SidecarError) -> Seq<char> {
    match error {
        SidecarError::MissingExplicit { path } => "configured mpv sidecar does not exist: "@
            + displayed_path(path),
        SidecarError::NotFound { searched } => "bundled mpv sidecar was not found; searched: "@
            + debug_path_list(searched@),
    }
}

impl SidecarError {
    /// The human-readable text of this error.
    pub fn describe(&self) -> (text: String)
        ensures
            text@ == sidecar_error_text(*self),
    {
        match self {
            SidecarError::MissingExplicit { path } => {
                let shown = display(path);
                String::from_str("configured mpv sidecar does not exist: ").concat(shown.as_str())
            },
            SidecarError::NotFound { searched } => {
                let shown = debug_list(searched);
                String::from_str("bundled mpv sidecar was not found; searched: ").concat(
                    shown.as_str(),
                )
            },
        }
    }
}

/// The directory that holds an executable: its parent, or `.` when it has
/// none.
pub open spec fn executable_dir(executable: PathBuf) -> PathBuf {
    match parent_path(executable) {
        Some(dir) => dir,
        None => text_path("."@),
    }
}

/// The directory that holds an executable.
pub fn executable_directory(executable: &PathBuf) -> (dir: PathBuf)
    ensures
        dir == executable_dir(*executable),
{
    match parent(executable) {
        Some(dir) => dir,
        None => path_from("."),
    }
}

/// The bundle locations of the engine, in search order: beside the
/// executable, in `bin` beside it, in the resource directory, and in `bin`
/// inside that.
pub open spec fn bundle_locations(
    executable: PathBuf,
    resource_dir: PathBuf,
    sidecar_name: Seq<char>,
) -> Seq<PathBuf> {
    let exe_dir = executable_dir(executable);
    seq![
        joined_path(exe_dir, sidecar_name),
        joined_path(joined_path(exe_dir, "bin"@), sidecar_name),
        joined_path(resource_dir, sidecar_name),
        joined_path(joined_path(resource_dir, "bin"@), sidecar_name),
    ]
}

/// The places the engine may live in an application bundle, in search
/// order. `sidecar_name` is the engine's file name on this platform.
pub fn sidecar_candidates(
    executable: &PathBuf,
    resource_dir: &PathBuf,
    sidecar_name: &str,
) -> (candidates: Vec<PathBuf>)
    ensures
        candidates@ == bundle_locations(*executable, *resource_dir, sidecar_name@),
{
    let exe_dir = executable_directory(executable);
    let exe_bin = join(&exe_dir, "bin");
    let resource_bin = join(resource_dir, "bin");
    let mut candidates: Vec<PathBuf> = Vec::new();
    candidates.push(join(&exe_dir, sidecar_name));
    candidates.push(join(&exe_bin, sidecar_name));
    candidates.push(join(resource_dir, sidecar_name));
    candidates.push(join(&resource_bin, sidecar_name));
    assert(candidates@ =~= bundle_locations(*executable, *resource_dir, sidecar_name@));
    candidates
}

/// The bundle is searched in four places and in this order: the engine's
/// name joined onto the executable's directory (its parent, or `.` when it
/// has none), onto that directory's `bin`, onto the resource directory, and
/// onto the resource directory's `bin`.
pub proof fn lemma_bundle_search_order(
    executable: PathBuf,
    resource_dir: PathBuf,
    sidecar_name: Seq<char>,
    exe_dir: PathBuf,
)
    requires
        parent_path(executable) == Some(exe_dir) || (parent_path(executable) is None && exe_dir
            == text_path("."@)),
    ensures
        bundle_locations(executable, resource_dir, sidecar_name).len() == 4,
        bundle_locations(executable, resource_dir, sidecar_name)[0] == joined_path(exe_dir, sidecar_name),
        bundle_locations(executable, resource_dir, sidecar_name)[1] == joined_path(
            joined_path(exe_dir, "bin"@),
            sidecar_name,
        ),
        bundle_locations(executable, resource_dir, sidecar_name)[2] == joined_path(
            resource_dir,
            sidecar_name,
        ),
        bundle_locations(executable, resource_dir, sidecar_name)[3] == joined_path(
            joined_path(resource_dir, "bin"@),
            sidecar_name,
        ),
{
}

/// A path, and whether a regular file was found there.
#[derive(Debug, Clone)]
pub struct ProbedPath {
    pub path: PathBuf,
    pub is_file: bool,
}

/// Whether probe `i` is the first that found a file.
pub open spec fn first_file_at(probes: Seq<ProbedPath>, i: int) -> bool {
    &&& 0 <= i < probes.len()
    &&& probes[i].is_file
    &&& forall|j: int| 0 <= j < i ==> !probes[j].is_file
}

/// The index of the first probe that found a file, if any.
pub open spec fn first_found(probes: Seq<ProbedPath>) -> Option<int> {
    if exists|i: int| first_file_at(probes, i) {
        Some(choose|i: int| first_file_at(probes, i))
    } else {
        None
    }
}

/// The paths of a list of probes.
pub open spec fn probed_paths(probes: Seq<ProbedPath>) -> Seq<PathBuf> {
    probes.map_values(|p: ProbedPath| p.path)
}

/// Whether `result` is the engine that the probes select: an explicit path
/// wins when it is a file and fails when it is not; otherwise the first
/// bundle location that holds a file, and when none does, the list of every
/// location searched.
pub open spec fn is_sidecar_choice(
    explicit: Option<ProbedPath>,
    candidates: Seq<ProbedPath>,
    result: Result<PathBuf, SidecarError>,
) -> bool {
    match explicit {
        Some(probe) => if probe.is_file {
            result == Ok::<PathBuf, SidecarError>(probe.path)
        } else {
            result == Err::<PathBuf, SidecarError>(SidecarError::MissingExplicit { path: probe.path })
        },
        None => match first_found(candidates) {
            Some(i) => result == Ok::<PathBuf, SidecarError>(candidates[i].path),
            None => result matches Err(SidecarError::NotFound { searched }) && searched@
                == probed_paths(candidates),
        },
    }
}

/// Resolve the engine from probes of the explicit path and of the bundle
/// locations (see [`sidecar_candidates`]); the system `PATH` plays no part.
pub fn resolve_sidecar_path(explicit: Option<ProbedPath>, candidates: Vec<ProbedPath>) -> (result:
    Result<PathBuf, SidecarError>)
    ensures
        is_sidecar_choice(explicit, candidates@, result),
{
    if let Some(probe) = explicit {
        if probe.is_file {
            return Ok(probe.path);
        } else {
            return Err(SidecarError::MissingExplicit { path: probe.path });
        }
    }
    let n = candidates.len();
    let mut i: usize = 0;
    while i < n
        invariant
            n == candidates@.len(),
            i <= n,
            explicit is None,
            forall|j: int| 0 <= j < i ==> !candidates@[j].is_file,
        decreases n - i,
    {
        if candidates[i].is_file {
            assert(first_file_at(candidates@, i as int));
            let ghost k = choose|k: int| first_file_at(candidates@, k);
            proof {
                if k < i {
                    assert(!candidates@[k].is_file);
                }
                if i < k {
                    assert(!candidates@[i as int].is_file);
                }
            }
            return Ok(candidates[i].path.clone());
        }
        i = i + 1;
    }
    assert(!exists|k: int| first_file_at(candidates@, k));
    let mut searched: Vec<PathBuf> = Vec::new();
    for j in 0..n
        invariant
            n == candidates@.len(),
            searched@ =~= probed_paths(candidates@).take(j as int),
    {
        searched.push(candidates[j].path.clone());
    }
    assert(searched@ =~= probed_paths(candidates@));
    Err(SidecarError::NotFound { searched })
}

/// The engine is never looked up anywhere but at the explicit path or at
/// one of the bundle locations given: whatever is resolved is one of them.
pub proof fn lemma_resolution_stays_in_bundle(
    explicit: Option<ProbedPath>,
    candidates: Seq<ProbedPath>,
    result: Result<PathBuf, SidecarError>,
)
    requires
        is_sidecar_choice(explicit, candidates, result),
    ensures
        result matches Ok(p) ==> (explicit matches Some(e) && e.path == p) || (explicit is None
            && probed_paths(candidates).contains(p)),
{
    if explicit is None {
        if let Some(i) = first_found(candidates) {
            assert(probed_paths(candidates)[i] == candidates[i].path);
        }
    }
}

/// A configured path that holds no file is an error, whatever the bundle
/// holds: the search never falls back to the bundle locations.
pub proof fn lemma_missing_explicit_never_falls_back(
    explicit: ProbedPath,
    candidates: Seq<ProbedPath>,
    result: Result<PathBuf, SidecarError>,
)
    requires
        !explicit.is_file,
        is_sidecar_choice(Some(explicit), candidates, result),
    ensures
        result == Err::<PathBuf, SidecarError>(SidecarError::MissingExplicit { path: explicit.path }),
{
}

} // verus!
