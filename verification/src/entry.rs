//! Locating the sidecar's entry point among the layouts it may be installed in.

use vstd::prelude::*;
use crate::config::CONFIG_FILENAME;
use crate::platform::Platform;
use crate::text::{chars_of, string_of};

verus! {

/// What kind of file starts the sidecar.
#[derive(Clone, Copy, Debug, PartialEq, Eq, Structural)]
pub enum EntryKind {
    /// A script that the interpreter runs.
    SourceScript,
    /// A self-contained executable.
    PrebuiltExecutable,
}

/// An entry point that was found on disk.
#[derive(Debug, PartialEq, Eq)]
pub struct EntryTarget {
    pub kind: EntryKind,
    /// The file to run.
    pub entry_path: String,
    /// The directory to run it in: the one that holds the file.
    pub working_dir: String,
}

/// The directories from which the search starts. Each may be unknown.
#[derive(Debug, PartialEq, Eq)]
pub struct SearchRoots {
    /// The current working directory.
    pub current_dir: Option<String>,
    /// The parent of the current working directory.
    pub parent_dir: Option<String>,
    /// The directory of the running application's own executable.
    pub exe_dir: Option<String>,
}

/// `part` below the directory `base`. A separator is put between the two unless
/// `base` is empty or ends with one already.
pub open spec fn joined(base: Seq<char>, sep: char, part: Seq<char>) -> Seq<char> {
    if base.len() == 0 {
        part
    } else if base.last() == sep {
        base + part
    } else {
        base.push(sep) + part
    }
}

/// File name of the prebuilt sidecar.
pub open spec fn executable_name(platform: Platform) -> Seq<char> {
    match platform {
        Platform::Windows => "bioforger-backend.exe"@,
        Platform::Unix => "bioforger-backend"@,
    }
}

/// The directories that a packaged application may keep its resources in, in
/// the order of the search: the executable's own directory and a `resources`
/// directory below it, then the `Resources` directory of an application bundle
/// beside it, each also with the `_up_` directory that some packagers add.
pub open spec fn bundle_dirs(exe_dir: Seq<char>, sep: char) -> Seq<Seq<char>> {
    let resources = joined(exe_dir, sep, "resources"@);
    let bundle = joined(joined(exe_dir, sep, ".."@), sep, "Resources"@);
    seq![
        exe_dir,
        joined(exe_dir, sep, "_up_"@),
        resources,
        joined(resources, sep, "_up_"@),
        bundle,
        joined(bundle, sep, "_up_"@),
    ]
}

/// The one directory, or none.
pub open spec fn known(dir: Option<String>) -> Seq<Seq<char>> {
    match dir {
        Some(d) => seq![d@],
        None => Seq::empty(),
    }
}

/// The directories of a development tree: the current directory and its parent.
pub open spec fn tree_dirs(roots: SearchRoots) -> Seq<Seq<char>> {
    known(roots.current_dir) + known(roots.parent_dir)
}

/// The directories of a packaged application.
pub open spec fn packaged_dirs(roots: SearchRoots, sep: char) -> Seq<Seq<char>> {
    match roots.exe_dir {
        Some(d) => bundle_dirs(d@, sep),
        None => Seq::empty(),
    }
}

/// `part` below each of `dirs`.
pub open spec fn joined_each(dirs: Seq<Seq<char>>, sep: char, part: Seq<char>) -> Seq<Seq<char>> {
    Seq::new(dirs.len(), |i: int| joined(dirs[i], sep, part))
}

/// The directories that may hold the sidecar's sources, in the order of the search.
pub open spec fn source_dirs(roots: SearchRoots, platform: Platform) -> Seq<Seq<char>> {
    let sep = platform.path_separator_spec();
    joined_each(tree_dirs(roots) + packaged_dirs(roots, sep), sep, "python-backend"@)
}

/// The directories that may hold the prebuilt sidecar, in the order of the search.
pub open spec fn executable_dirs(roots: SearchRoots, platform: Platform) -> Seq<Seq<char>> {
    let sep = platform.path_separator_spec();
    joined_each(joined_each(tree_dirs(roots), sep, "python-backend"@), sep, "dist"@)
        + packaged_dirs(roots, sep)
}

/// The places where the source entry point `main.py` may be, in the order of the search.
pub open spec fn main_py_candidates(roots: SearchRoots, platform: Platform) -> Seq<Seq<char>> {
    joined_each(source_dirs(roots, platform), platform.path_separator_spec(), "main.py"@)
}

/// The places where the prebuilt sidecar may be, in the order of the search.
pub open spec fn executable_candidates(roots: SearchRoots, platform: Platform) -> Seq<Seq<char>> {
    joined_each(
        executable_dirs(roots, platform),
        platform.path_separator_spec(),
        executable_name(platform),
    )
}

/// The host script that supervises the interpreter, beside a `main.py` in `dir`.
pub open spec fn host_script_in(dir: Seq<char>, platform: Platform) -> Seq<char> {
    joined(dir, platform.path_separator_spec(), "backend_gui_host.py"@)
}

/// What each of `paths` holds as text.
pub open spec fn texts(paths: Seq<String>) -> Seq<Seq<char>> {
    Seq::new(paths.len(), |i: int| paths[i]@)
}

/// The check of the disk may answer that `path` exists.
pub open spec fn may_exist<F: Fn(&str) -> bool>(present: &F, path: Seq<char>) -> bool {
    exists|s: &str| s@ == path && call_ensures(*present, (s,), true)
}

/// The check of the disk may answer that `path` does not exist.
pub open spec fn may_be_missing<F: Fn(&str) -> bool>(present: &F, path: Seq<char>) -> bool {
    exists|s: &str| s@ == path && call_ensures(*present, (s,), false)
}

/// `found` is the first of `paths` that the check of the disk reported to
/// exist, every earlier one having been reported missing; or nothing was found
/// and every one of `paths` was reported missing.
pub open spec fn first_present<F: Fn(&str) -> bool>(
    present: &F,
    paths: Seq<Seq<char>>,
    found: Option<int>,
) -> bool {
    match found {
        Some(i) => {
            &&& 0 <= i < paths.len()
            &&& may_exist(present, paths[i])
            &&& forall|j: int| 0 <= j < i ==> may_be_missing(present, #[trigger] paths[j])
        },
        None => forall|j: int| 0 <= j < paths.len() ==> may_be_missing(present, #[trigger] paths[j]),
    }
}

/// `path` is what a search of `paths` yields when the check of the disk answered
/// as it did: the first path reported to exist, or nothing.
pub open spec fn search_result<F: Fn(&str) -> bool>(
    present: &F,
    paths: Seq<Seq<char>>,
    path: Option<String>,
) -> bool {
    match path {
        Some(p) => exists|i: int| first_present(present, paths, Some(i)) && paths[i] == p@,
        None => first_present(present, paths, None),
    }
}

/// The `i`-th `main.py` of the search is the first that exists, and `target`
/// runs it in its directory: through the host script beside it if the check of
/// the disk reported one, directly if it reported none.
pub open spec fn script_located_at<F: Fn(&str) -> bool>(
    present: &F,
    roots: SearchRoots,
    platform: Platform,
    target: EntryTarget,
    i: int,
) -> bool {
    let scripts = main_py_candidates(roots, platform);
    let dir = source_dirs(roots, platform)[i];
    let host = host_script_in(dir, platform);
    &&& first_present(present, scripts, Some(i))
    &&& target.kind == EntryKind::SourceScript
    &&& target.working_dir@ == dir
    &&& {
        ||| target.entry_path@ == host && may_exist(present, host)
        ||| target.entry_path@ == scripts[i] && may_be_missing(present, host)
    }
}

/// No `main.py` exists anywhere, the `i`-th executable of the search is the
/// first that exists, and `target` runs it in its directory.
pub open spec fn executable_located_at<F: Fn(&str) -> bool>(
    present: &F,
    roots: SearchRoots,
    platform: Platform,
    target: EntryTarget,
    i: int,
) -> bool {
    let executables = executable_candidates(roots, platform);
    &&& first_present(present, main_py_candidates(roots, platform), None)
    &&& first_present(present, executables, Some(i))
    &&& target.kind == EntryKind::PrebuiltExecutable
    &&& target.working_dir@ == executable_dirs(roots, platform)[i]
    &&& target.entry_path@ == executables[i]
}

/// `target` is what the search for an entry point yields when the check of the
/// disk answered as it did. The first `main.py` found wins, and is run through
/// the host script beside it if that exists. A prebuilt executable is taken only
/// when no `main.py` was found anywhere. The working directory is the one that
/// holds the file that was found.
pub open spec fn located<F: Fn(&str) -> bool>(
    present: &F,
    roots: SearchRoots,
    platform: Platform,
    target: Option<EntryTarget>,
) -> bool {
    match target {
        Some(t) => {
            ||| exists|i: int| #[trigger] script_located_at(present, roots, platform, t, i)
            ||| exists|i: int| #[trigger] executable_located_at(present, roots, platform, t, i)
        },
        None => {
            &&& first_present(present, main_py_candidates(roots, platform), None)
            &&& first_present(present, executable_candidates(roots, platform), None)
        },
    }
}

/// Where a configuration file of an earlier installation would lie: beside the
/// `main.py` in `dir`.
pub open spec fn legacy_config_in(dir: Seq<char>, platform: Platform) -> Seq<char> {
    joined(dir, platform.path_separator_spec(), CONFIG_FILENAME@)
}

/// The `i`-th `main.py` of the search is the first that exists, and the check
/// of the disk answered `found` when asked for the configuration file beside it.
pub open spec fn legacy_config_at<F: Fn(&str) -> bool>(
    present: &F,
    roots: SearchRoots,
    platform: Platform,
    i: int,
    found: bool,
) -> bool {
    let legacy = legacy_config_in(source_dirs(roots, platform)[i], platform);
    &&& first_present(present, main_py_candidates(roots, platform), Some(i))
    &&& if found {
        may_exist(present, legacy)
    } else {
        may_be_missing(present, legacy)
    }
}

/// `source` is the configuration file to take over from an earlier
/// installation when the check of the disk answered as it did: the file beside
/// the first `main.py` found, if it exists and the application has no
/// configuration file of its own.
pub open spec fn migration_source<F: Fn(&str) -> bool>(
    present: &F,
    roots: SearchRoots,
    platform: Platform,
    config_present: bool,
    source: Option<String>,
) -> bool {
    match source {
        Some(path) => {
            &&& !config_present
            &&& exists|i: int|
                #[trigger] legacy_config_at(present, roots, platform, i, true) && path@
                    == legacy_config_in(source_dirs(roots, platform)[i], platform)
        },
        None => {
            ||| config_present
            ||| first_present(present, main_py_candidates(roots, platform), None)
            ||| exists|i: int| #[trigger] legacy_config_at(present, roots, platform, i, false)
        },
    }
}

/// Joins `part` to the directory `base`.
pub fn join(base: &str, sep: char, part: &str) -> (path: String)
    ensures
        path@ == joined(base@, sep, part@),
{
    let mut out = chars_of(base);
    if out.len() > 0 && out[out.len() - 1] != sep {
        out.push(sep);
    }
    let mut tail = chars_of(part);
    out.append(&mut tail);
    string_of(out.as_slice())
}

/// `part` below each of `dirs`.
fn join_each(dirs: &Vec<String>, sep: char, part: &str) -> (paths: Vec<String>)
    ensures
        texts(paths@) == joined_each(texts(dirs@), sep, part@),
{
    let mut paths: Vec<String> = Vec::new();
    let mut i: usize = 0;
    while i < dirs.len()
        invariant
            i <= dirs.len(),
            paths.len() == i,
            forall|k: int| 0 <= k < i ==> (#[trigger] paths@[k])@ == joined(dirs@[k]@, sep, part@),
        decreases dirs.len() - i,
    {
        paths.push(join(dirs[i].as_str(), sep, part));
        i = i + 1;
    }
    assert(texts(paths@) =~= joined_each(texts(dirs@), sep, part@));
    paths
}

/// The current directory and its parent, as far as they are known.
fn tree_dir_list(roots: &SearchRoots) -> (dirs: Vec<String>)
    ensures
        texts(dirs@) == tree_dirs(*roots),
{
    let mut dirs: Vec<String> = Vec::new();
    match &roots.current_dir {
        Some(d) => dirs.push(d.clone()),
        None => {},
    }
    match &roots.parent_dir {
        Some(d) => dirs.push(d.clone()),
        None => {},
    }
    assert(texts(dirs@) =~= tree_dirs(*roots));
    dirs
}

/// The resource directories of a packaged application, if its executable is known.
fn packaged_dir_list(roots: &SearchRoots, sep: char) -> (dirs: Vec<String>)
    ensures
        texts(dirs@) == packaged_dirs(*roots, sep),
{
    let mut dirs: Vec<String> = Vec::new();
    match &roots.exe_dir {
        Some(d) => {
            let resources = join(d.as_str(), sep, "resources");
            let resources_up = join(resources.as_str(), sep, "_up_");
            let beside = join(d.as_str(), sep, "..");
            let bundle = join(beside.as_str(), sep, "Resources");
            let bundle_up = join(bundle.as_str(), sep, "_up_");
            dirs.push(d.clone());
            dirs.push(join(d.as_str(), sep, "_up_"));
            dirs.push(resources);
            dirs.push(resources_up);
            dirs.push(bundle);
            dirs.push(bundle_up);
        },
        None => {},
    }
    assert(texts(dirs@) =~= packaged_dirs(*roots, sep));
    dirs
}

/// The directories that may hold the sidecar's sources.
fn source_dir_list(roots: &SearchRoots, platform: Platform) -> (dirs: Vec<String>)
    ensures
        texts(dirs@) == source_dirs(*roots, platform),
{
    let sep = platform.path_separator();
    let mut bases = tree_dir_list(roots);
    let mut packaged = packaged_dir_list(roots, sep);
    let ghost tree = bases@;
    let ghost bundle = packaged@;
    bases.append(&mut packaged);
    assert(texts(bases@) =~= texts(tree) + texts(bundle));
    join_each(&bases, sep, "python-backend")
}

/// The directories that may hold the prebuilt sidecar.
fn executable_dir_list(roots: &SearchRoots, platform: Platform) -> (dirs: Vec<String>)
    ensures
        texts(dirs@) == executable_dirs(*roots, platform),
{
    let sep = platform.path_separator();
    let bases = tree_dir_list(roots);
    let built = join_each(&bases, sep, "python-backend");
    let mut dirs = join_each(&built, sep, "dist");
    let mut packaged = packaged_dir_list(roots, sep);
    let ghost tree = dirs@;
    let ghost bundle = packaged@;
    dirs.append(&mut packaged);
    assert(texts(dirs@) =~= texts(tree) + texts(bundle));
    dirs
}

/// Index of the first of `paths` that exists.
fn find_present<F: Fn(&str) -> bool>(paths: &Vec<String>, present: &F) -> (found: Option<usize>)
    requires
        forall|s: &str| call_requires(*present, (s,)),
    ensures
        first_present(
            present,
            texts(paths@),
            match found {
                Some(i) => Some(i as int),
                None => None,
            },
        ),
{
    let mut i: usize = 0;
    while i < paths.len()
        invariant
            i <= paths.len(),
            forall|s: &str| call_requires(*present, (s,)),
            forall|j: int| 0 <= j < i ==> may_be_missing(present, #[trigger] texts(paths@)[j]),
        decreases paths.len() - i,
    {
        let path = paths[i].as_str();
        if present(path) {
            assert(may_exist(present, texts(paths@)[i as int]));
            return Some(i);
        }
        assert(may_be_missing(present, texts(paths@)[i as int]));
        i = i + 1;
    }
    None
}

/// File name of the prebuilt sidecar on `platform`.
pub fn backend_executable_name(platform: Platform) -> (name: &'static str)
    ensures
        name@ == executable_name(platform),
{
    match platform {
        Platform::Windows => "bioforger-backend.exe",
        Platform::Unix => "bioforger-backend",
    }
}

/// Searches the known layouts for the source entry point `main.py` and returns
/// the first place where `present` finds it.
pub fn find_main_py_path<F: Fn(&str) -> bool>(
    roots: &SearchRoots,
    platform: Platform,
    present: &F,
) -> (path: Option<String>)
    requires
        forall|s: &str| call_requires(*present, (s,)),
    ensures
        search_result(present, main_py_candidates(*roots, platform), path),
{
    let dirs = source_dir_list(roots, platform);
    let paths = join_each(&dirs, platform.path_separator(), "main.py");
    match find_present(&paths, present) {
        Some(i) => Some(paths[i].clone()),
        None => None,
    }
}

/// Searches the known layouts for the prebuilt sidecar and returns the first
/// place where `present` finds it.
pub fn find_backend_executable_path<F: Fn(&str) -> bool>(
    roots: &SearchRoots,
    platform: Platform,
    present: &F,
) -> (path: Option<String>)
    requires
        forall|s: &str| call_requires(*present, (s,)),
    ensures
        search_result(present, executable_candidates(*roots, platform), path),
{
    let dirs = executable_dir_list(roots, platform);
    let paths = join_each(&dirs, platform.path_separator(), backend_executable_name(platform));
    match find_present(&paths, present) {
        Some(i) => Some(paths[i].clone()),
        None => None,
    }
}

/// Finds the entry point of the sidecar: the first `main.py` of the known
/// layouts, run through its host script where there is one, and failing that the
/// first prebuilt executable. `None` when no layout holds either.
pub fn locate_entry<F: Fn(&str) -> bool>(
    roots: &SearchRoots,
    platform: Platform,
    present: &F,
) -> (target: Option<EntryTarget>)
    requires
        forall|s: &str| call_requires(*present, (s,)),
    ensures
        located(present, *roots, platform, target),
{
    let sep = platform.path_separator();
    let script_dirs = source_dir_list(roots, platform);
    let scripts = join_each(&script_dirs, sep, "main.py");
    match find_present(&scripts, present) {
        Some(i) => {
            let host = join(script_dirs[i].as_str(), sep, "backend_gui_host.py");
            let entry_path = if present(host.as_str()) {
                host
            } else {
                scripts[i].clone()
            };
            let target = EntryTarget {
                kind: EntryKind::SourceScript,
                entry_path,
                working_dir: script_dirs[i].clone(),
            };
            assert(texts(script_dirs@)[i as int] == script_dirs@[i as int]@);
            assert(texts(scripts@)[i as int] == scripts@[i as int]@);
            assert(script_located_at(present, *roots, platform, target, i as int));
            Some(target)
        },
        None => {
            let dirs = executable_dir_list(roots, platform);
            let paths = join_each(&dirs, sep, backend_executable_name(platform));
            match find_present(&paths, present) {
                Some(i) => {
                    let target = EntryTarget {
                        kind: EntryKind::PrebuiltExecutable,
                        entry_path: paths[i].clone(),
                        working_dir: dirs[i].clone(),
                    };
                    assert(texts(dirs@)[i as int] == dirs@[i as int]@);
                    assert(texts(paths@)[i as int] == paths@[i as int]@);
                    assert(executable_located_at(present, *roots, platform, target, i as int));
                    Some(target)
                },
                None => None,
            }
        },
    }
}

/// Decides whether the configuration of an earlier installation is taken
/// over, and from where. `config_present` says whether the application has a
/// configuration file already. The result is the file to copy to the place of
/// the application's configuration, or `None` if nothing is to be copied.
pub fn migrate_config_from_legacy<F: Fn(&str) -> bool>(
    roots: &SearchRoots,
    platform: Platform,
    config_present: bool,
    present: &F,
) -> (source: Option<String>)
    requires
        forall|s: &str| call_requires(*present, (s,)),
    ensures
        migration_source(present, *roots, platform, config_present, source),
{
    if config_present {
        return None;
    }
    let sep = platform.path_separator();
    let dirs = source_dir_list(roots, platform);
    let scripts = join_each(&dirs, sep, "main.py");
    match find_present(&scripts, present) {
        Some(i) => {
            let legacy = join(dirs[i].as_str(), sep, CONFIG_FILENAME);
            assert(texts(dirs@)[i as int] == dirs@[i as int]@);
            if present(legacy.as_str()) {
                assert(may_exist(present, legacy@));
                assert(legacy_config_at(present, *roots, platform, i as int, true));
                Some(legacy)
            } else {
                assert(may_be_missing(present, legacy@));
                assert(legacy_config_at(present, *roots, platform, i as int, false));
                None
            }
        },
        None => None,
    }
}

} // verus!
