use vstd::prelude::*;
use crate::manifest::{
    package_info_of_text,
    BrowserSubstitution,
    ManifestFault,
    PackageInfoView,
    Substitutions,
};
use crate::path::{apply, is_absolute, names_directory, pieces, with_ext};
use crate::tree::Files;

verus! {

/// The options that resolving depends on, as plain values.
pub struct Config {
    pub for_browser: bool,
    pub es6_syntax: bool,
    pub external: Seq<Seq<char>>,
}

/// What a specifier resolves to.
pub enum Target {
    /// The file that is in truth at this place.
    Normal(Seq<Seq<char>>),
    /// Nothing: an empty module stands in.
    Ignore,
    /// A module that is looked up when the bundle runs.
    External,
}

/// What stops resolving at once.
pub enum Fault {
    /// The manifest at this place is refused.
    Malformed(Seq<Seq<char>>, ManifestFault),
    /// The manifest at this place cannot be read.
    Unreadable(Seq<Seq<char>>),
}

/// What one step of resolving gives: a target, or none so that the next step
/// is tried, or a fault.
pub type Outcome = Result<Option<Target>, Fault>;

/// What is known of the manifest of a directory.
pub enum ManifestState {
    Absent,
    Unreadable,
    Malformed(ManifestFault),
    Present(PackageInfoView),
}

/// The place of the manifest of the directory `dir`.
pub open spec fn manifest_place(dir: Seq<Seq<char>>) -> Seq<Seq<char>> {
    dir.push("package.json"@)
}

/// The manifest of the directory `dir`.
pub open spec fn manifest_at(fs: Files, dir: Seq<Seq<char>>) -> ManifestState {
    if !fs.contains_key(manifest_place(dir)) {
        ManifestState::Absent
    } else {
        match fs[manifest_place(dir)].text {
            None => ManifestState::Unreadable,
            Some(text) => match package_info_of_text(text) {
                Ok(info) => ManifestState::Present(info),
                Err(e) => ManifestState::Malformed(e),
            },
        }
    }
}

/// The directory that holds `p`; the root holds itself.
pub open spec fn parent_of(p: Seq<Seq<char>>) -> Seq<Seq<char>> {
    if p.len() > 0 {
        p.drop_last()
    } else {
        p
    }
}

/// The nearest package at or above `dir`: its directory and its manifest.
pub open spec fn enclosing(fs: Files, dir: Seq<Seq<char>>) -> Result<
    Option<(Seq<Seq<char>>, PackageInfoView)>,
    Fault,
>
    decreases dir.len(),
{
    match manifest_at(fs, dir) {
        ManifestState::Present(info) => Ok(Some((dir, info))),
        ManifestState::Unreadable => Err(Fault::Unreadable(manifest_place(dir))),
        ManifestState::Malformed(e) => Err(Fault::Malformed(manifest_place(dir), e)),
        ManifestState::Absent => if dir.len() == 0 {
            Ok(None)
        } else {
            enclosing(fs, dir.drop_last())
        },
    }
}

/// Whether a text ends in a slash.
pub open spec fn ends_in_slash(s: Seq<char>) -> bool {
    s.len() > 0 && s.last() == '/'
}

/// Whether the key of a substitution stands for the place `rel` inside its
/// package. A key that ends in a slash stands for nothing, and the key that is
/// the package's main path stands for the package's entry alone.
pub open spec fn key_matches(key: Seq<char>, main: Seq<char>, rel: Seq<Seq<char>>) -> bool {
    key != main && !ends_in_slash(key) && apply(Seq::empty(), pieces(key)) == rel
}

/// The first substitution from the `i`th on whose key stands for `rel`.
pub open spec fn lookup_from(
    subs: Substitutions,
    main: Seq<char>,
    rel: Seq<Seq<char>>,
    i: int,
) -> Option<BrowserSubstitution<Seq<char>>>
    decreases subs.len() - i,
{
    if i < 0 || i >= subs.len() {
        None
    } else if key_matches(subs[i].0, main, rel) {
        Some(subs[i].1)
    } else {
        lookup_from(subs, main, rel, i + 1)
    }
}

/// The substitution of a package for the place `rel` inside it.
pub open spec fn lookup(info: PackageInfoView, rel: Seq<Seq<char>>) -> Option<
    BrowserSubstitution<Seq<char>>,
> {
    lookup_from(info.substitutions, info.main, rel, 0)
}

/// The first substitution from the `i`th on whose key is the main path as the
/// manifest writes it.
pub open spec fn main_lookup_from(subs: Substitutions, main: Seq<char>, i: int) -> Option<
    BrowserSubstitution<Seq<char>>,
>
    decreases subs.len() - i,
{
    if i < 0 || i >= subs.len() {
        None
    } else if subs[i].0 == main {
        Some(subs[i].1)
    } else {
        main_lookup_from(subs, main, i + 1)
    }
}

/// The substitution of a package for its entry.
pub open spec fn main_lookup(info: PackageInfoView) -> Option<BrowserSubstitution<Seq<char>>> {
    main_lookup_from(info.substitutions, info.main, 0)
}

/// The extensions that are tried on a path, in order.
pub open spec fn extensions(cfg: Config) -> Seq<Seq<char>> {
    if cfg.es6_syntax {
        seq![".mjs"@, ".js"@, ".json"@]
    } else {
        seq![".js"@, ".json"@]
    }
}

/// The `i`th file that is tried for the path `p`: the path itself, then the
/// path with each extension.
pub open spec fn candidate(cfg: Config, p: Seq<Seq<char>>, i: int) -> Seq<Seq<char>> {
    if i == 0 {
        p
    } else {
        with_ext(p, extensions(cfg)[i - 1])
    }
}

/// One while substitutions still apply, zero once they do not: what falls when
/// a replacement is resolved.
pub open spec fn level(subst: bool) -> nat {
    if subst {
        1
    } else {
        0
    }
}

/// Whether a specifier names a path from where it is written.
pub open spec fn is_relative(spec: Seq<char>) -> bool {
    !is_absolute(spec) && pieces(spec).len() > 0 && (pieces(spec)[0] == seq!['.'] || pieces(
        spec,
    )[0] == seq!['.', '.'])
}

/// The name of the package that a bare specifier starts with: its first
/// piece, or its first two where the first names a scope.
pub open spec fn package_name(name: Seq<Seq<char>>) -> Seq<char> {
    if name.len() > 1 && name[0].len() > 0 && name[0][0] == '@' {
        name[0] + seq!['/'] + name[1]
    } else {
        name[0]
    }
}

/// Whether a bare specifier of these pieces names a package that stays
/// outside the bundle.
pub open spec fn is_external(cfg: Config, name: Seq<Seq<char>>) -> bool {
    name.len() > 0 && (cfg.external.contains(name[0]) || cfg.external.contains(package_name(name)))
}

/// What a substitution gives in the package at `root`: nothing for a path
/// that is left out, else what the replacement resolves to from `root`,
/// with no further substitution.
pub open spec fn substituted(
    fs: Files,
    cfg: Config,
    value: BrowserSubstitution<Seq<char>>,
    root: Seq<Seq<char>>,
) -> Outcome
    decreases 1nat, 3nat, 0nat,
{
    match value {
        BrowserSubstitution::Ignore => Ok(Some(Target::Ignore)),
        BrowserSubstitution::Replace(v) => resolve_from(fs, cfg, root, v, false, true),
    }
}

/// What the nearest package at or above `start` puts in the place of `p`, if
/// `p` lies inside it and it names a substitution for it.
pub open spec fn substitute_path(
    fs: Files,
    cfg: Config,
    start: Seq<Seq<char>>,
    p: Seq<Seq<char>>,
) -> Outcome
    decreases 1nat, 4nat, 0nat,
{
    match enclosing(fs, start) {
        Err(e) => Err(e),
        Ok(None) => Ok(None),
        Ok(Some((root, info))) => if !root.is_prefix_of(p) {
            Ok(None)
        } else {
            match lookup(info, p.skip(root.len() as int)) {
                None => Ok(None),
                Some(v) => substituted(fs, cfg, v, root),
            }
        },
    }
}

/// A path that is being resolved, and how.
pub struct Candidate {
    pub path: Seq<Seq<char>>,
    /// The path names a directory: no file is tried for it.
    pub dir_only: bool,
    /// The path names a file: no directory is tried for it.
    pub file_only: bool,
    /// Substitutions for browsers apply.
    pub subst: bool,
    /// The path is what a manifest names as its main: the manifest of the
    /// directory that it names is not read.
    pub is_main: bool,
}

/// Where resolving one path stands.
pub enum State {
    /// Nothing has been tried.
    Start,
    /// The `i`th file for the path is looked up among the substitutions of its
    /// package: the path itself before it is tried, the path with an
    /// extension once it is found to be there.
    ApplyBrowser(int),
    /// The path itself is tried as a file.
    TryExact,
    /// The path with the `i`th extension on is tried as a file.
    TryExtensions(int),
    /// The path is tried as a directory.
    TryDirectory,
    /// Resolving the path has come to this.
    Done(Outcome),
}

/// How far a state is from the end, at most.
pub open spec fn rank(cfg: Config, s: State) -> nat {
    let n = extensions(cfg).len();
    match s {
        State::Start => n + 5,
        State::ApplyBrowser(i) => if i == 0 {
            n + 4
        } else {
            1
        },
        State::TryExact => n + 3,
        State::TryExtensions(i) => if 0 <= i <= n {
            (n + 2 - i) as nat
        } else {
            2
        },
        State::TryDirectory => 1,
        State::Done(_) => 0,
    }
}

/// What resolving the candidate `c` comes to from the state `s` on.
///
/// From the start a path that names a directory is tried as one. Any other
/// is first looked up among the substitutions, if they apply, then tried as
/// it stands, then with each extension in turn; the first file that is there
/// is looked up among the substitutions and, unless it is replaced, is the
/// result. When no file is there the path is tried as a directory. A
/// substitution ends resolving with what it gives; one that gives nothing
/// lets resolving go on.
pub open spec fn machine(fs: Files, cfg: Config, c: Candidate, s: State) -> Outcome
    decreases level(c.subst), if c.file_only {
        7nat
    } else {
        11nat
    }, rank(cfg, s),
{
    let n = extensions(cfg).len();
    match s {
        State::Start => if c.dir_only {
            machine(fs, cfg, c, State::TryDirectory)
        } else if c.subst {
            machine(fs, cfg, c, State::ApplyBrowser(0))
        } else {
            machine(fs, cfg, c, State::TryExact)
        },
        State::ApplyBrowser(i) => {
            let file = candidate(cfg, c.path, i);
            let replaced = if c.subst && 0 <= i <= n {
                substitute_path(fs, cfg, parent_of(file), file)
            } else {
                Ok(None)
            };
            match replaced {
                Err(e) => Err(e),
                Ok(Some(t)) => Ok(Some(t)),
                Ok(None) => if i == 0 {
                    machine(fs, cfg, c, State::TryExact)
                } else {
                    Ok(Some(Target::Normal(fs[file].canonical)))
                },
            }
        },
        State::TryExact => if fs.contains_key(c.path) {
            Ok(Some(Target::Normal(fs[c.path].canonical)))
        } else {
            machine(fs, cfg, c, State::TryExtensions(0))
        },
        State::TryExtensions(i) => if i < 0 || i >= n {
            machine(fs, cfg, c, State::TryDirectory)
        } else if fs.contains_key(candidate(cfg, c.path, i + 1)) {
            if c.subst {
                machine(fs, cfg, c, State::ApplyBrowser(i + 1))
            } else {
                Ok(Some(Target::Normal(fs[candidate(cfg, c.path, i + 1)].canonical)))
            }
        } else {
            machine(fs, cfg, c, State::TryExtensions(i + 1))
        },
        State::TryDirectory => if c.file_only {
            Ok(None)
        } else {
            load_dir(fs, cfg, c.path, c.subst, c.is_main)
        },
        State::Done(o) => o,
    }
}

/// The path `p` as a file.
pub open spec fn load_file(fs: Files, cfg: Config, p: Seq<Seq<char>>, subst: bool) -> Outcome
    decreases level(subst), 8nat, 0nat,
{
    machine(
        fs,
        cfg,
        Candidate { path: p, dir_only: false, file_only: true, subst, is_main: false },
        State::Start,
    )
}

/// The index file of the directory `d`.
pub open spec fn load_index(fs: Files, cfg: Config, d: Seq<Seq<char>>, subst: bool) -> Outcome
    decreases level(subst), 9nat, 0nat,
{
    load_file(fs, cfg, d.push("index"@), subst)
}

/// The path `m` that a manifest names as its main: as a file, then as a
/// directory whose own manifest is not read.
pub open spec fn load_main(fs: Files, cfg: Config, m: Seq<Seq<char>>, subst: bool) -> Outcome
    decreases level(subst), 9nat, 1nat,
{
    match load_file(fs, cfg, m, subst) {
        Err(e) => Err(e),
        Ok(Some(t)) => Ok(Some(t)),
        Ok(None) => load_index(fs, cfg, m, subst),
    }
}

/// The path `d` as a directory: by its manifest unless `is_main`, then by its
/// index file.
pub open spec fn load_dir(
    fs: Files,
    cfg: Config,
    d: Seq<Seq<char>>,
    subst: bool,
    is_main: bool,
) -> Outcome
    decreases level(subst), 10nat, 0nat,
{
    if is_main {
        load_index(fs, cfg, d, subst)
    } else {
        match manifest_at(fs, d) {
            ManifestState::Absent => load_index(fs, cfg, d, subst),
            ManifestState::Unreadable => Err(Fault::Unreadable(manifest_place(d))),
            ManifestState::Malformed(e) => Err(Fault::Malformed(manifest_place(d), e)),
            ManifestState::Present(info) => {
                let entry = if subst {
                    match main_lookup(info) {
                        None => Ok(None),
                        Some(v) => substituted(fs, cfg, v, d),
                    }
                } else {
                    Ok(None)
                };
                match entry {
                    Err(e) => Err(e),
                    Ok(Some(t)) => Ok(Some(t)),
                    Ok(None) => match load_main(fs, cfg, apply(d, pieces(info.main)), subst) {
                        Err(e) => Err(e),
                        Ok(Some(t)) => Ok(Some(t)),
                        Ok(None) => load_index(fs, cfg, d, subst),
                    },
                }
            },
        }
    }
}

/// The path `p`: as a file unless `dir_only`, then as a directory.
pub open spec fn resolve_path(
    fs: Files,
    cfg: Config,
    p: Seq<Seq<char>>,
    dir_only: bool,
    subst: bool,
    is_main: bool,
) -> Outcome
    decreases level(subst), 12nat, 0nat,
{
    machine(fs, cfg, Candidate { path: p, dir_only, file_only: false, subst, is_main }, State::Start)
}

/// The module `name` in the `node_modules` of `a` and of each directory above
/// it up to the root, nearest first.
pub open spec fn walk(
    fs: Files,
    cfg: Config,
    a: Seq<Seq<char>>,
    name: Seq<Seq<char>>,
    dir_only: bool,
    subst: bool,
) -> Outcome
    decreases level(subst), 13nat, a.len(),
{
    match resolve_path(fs, cfg, a.push("node_modules"@) + name, dir_only, subst, false) {
        Err(e) => Err(e),
        Ok(Some(t)) => Ok(Some(t)),
        Ok(None) => if a.len() == 0 {
            Ok(None)
        } else {
            walk(fs, cfg, a.drop_last(), name, dir_only, subst)
        },
    }
}

/// What the specifier `spec` resolves to from the directory `d`. With
/// `as_value` the specifier is the replacement of a substitution, and a slash
/// at its end does not ask for a directory.
pub open spec fn resolve_from(
    fs: Files,
    cfg: Config,
    d: Seq<Seq<char>>,
    spec: Seq<char>,
    subst: bool,
    as_value: bool,
) -> Outcome
    decreases level(subst), 14nat, 0nat,
{
    let dir_only = !as_value && names_directory(spec);
    if is_absolute(spec) || is_relative(spec) {
        let p = if is_absolute(spec) {
            apply(Seq::empty(), pieces(spec))
        } else {
            apply(d, pieces(spec))
        };
        let replaced = if subst {
            substitute_path(fs, cfg, d, p)
        } else {
            Ok(None)
        };
        match replaced {
            Err(e) => Err(e),
            Ok(Some(t)) => Ok(Some(t)),
            Ok(None) => resolve_path(fs, cfg, p, dir_only, subst, false),
        }
    } else {
        let name = apply(Seq::empty(), pieces(spec));
        if is_external(cfg, pieces(spec)) {
            Ok(Some(Target::External))
        } else if name.len() == 0 {
            Ok(None)
        } else {
            let replaced = if subst {
                match enclosing(fs, d) {
                    Err(e) => Err(e),
                    Ok(None) => Ok(None),
                    Ok(Some((root, info))) => match lookup(info, name) {
                        None => Ok(None),
                        Some(v) => substituted(fs, cfg, v, root),
                    },
                }
            } else {
                Ok(None)
            };
            match replaced {
                Err(e) => Err(e),
                Ok(Some(t)) => Ok(Some(t)),
                Ok(None) => walk(fs, cfg, d, name, dir_only, subst),
            }
        }
    }
}

/// What the specifier `spec`, written in the file `context`, resolves to.
pub open spec fn resolution(fs: Files, cfg: Config, context: Seq<char>, spec: Seq<char>) -> Outcome {
    resolve_from(
        fs,
        cfg,
        parent_of(apply(Seq::empty(), pieces(context))),
        spec,
        cfg.for_browser,
        false,
    )
}

/// Whether a place is where a file of the file system is in truth.
pub open spec fn is_canonical(fs: Files, p: Seq<Seq<char>>) -> bool {
    exists|place: Seq<Seq<char>>| #[trigger] fs.contains_key(place) && fs[place].canonical == p
}

/// Whether an outcome, where it is a file, is a file that is there.
pub open spec fn names_a_file(fs: Files, o: Outcome) -> bool {
    match o {
        Ok(Some(Target::Normal(p))) => is_canonical(fs, p),
        _ => true,
    }
}

/// A file that a specifier resolves to is a file of the file system.
pub proof fn resolution_names_a_file(fs: Files, cfg: Config, context: Seq<char>, spec: Seq<char>)
    ensures
        names_a_file(fs, resolution(fs, cfg, context, spec)),
{
    resolve_from_names_a_file(
        fs,
        cfg,
        parent_of(apply(Seq::empty(), pieces(context))),
        spec,
        cfg.for_browser,
        false,
    );
}

/// What a substitution gives, where it is a file, is a file that is there.
pub proof fn substituted_names_a_file(
    fs: Files,
    cfg: Config,
    value: BrowserSubstitution<Seq<char>>,
    root: Seq<Seq<char>>,
)
    ensures
        names_a_file(fs, substituted(fs, cfg, value, root)),
    decreases 1nat, 3nat, 0nat,
{
    match value {
        BrowserSubstitution::Ignore => {},
        BrowserSubstitution::Replace(v) => {
            resolve_from_names_a_file(fs, cfg, root, v, false, true);
        },
    }
}

/// What a package puts in the place of a path, where it is a file, is a file
/// that is there.
pub proof fn substitute_path_names_a_file(
    fs: Files,
    cfg: Config,
    start: Seq<Seq<char>>,
    p: Seq<Seq<char>>,
)
    ensures
        names_a_file(fs, substitute_path(fs, cfg, start, p)),
    decreases 1nat, 4nat, 0nat,
{
    match enclosing(fs, start) {
        Ok(Some((root, info))) => {
            if root.is_prefix_of(p) {
                match lookup(info, p.skip(root.len() as int)) {
                    Some(v) => {
                        substituted_names_a_file(fs, cfg, v, root);
                    },
                    None => {},
                }
            }
        },
        _ => {},
    }
}

/// From a state that holds no file that is not there, resolving a path comes
/// to no file that is not there.
pub proof fn machine_names_a_file(fs: Files, cfg: Config, c: Candidate, s: State)
    requires
        s is Done ==> names_a_file(fs, s->Done_0),
        s is ApplyBrowser && s->ApplyBrowser_0 != 0 ==> fs.contains_key(
            candidate(cfg, c.path, s->ApplyBrowser_0),
        ),
    ensures
        names_a_file(fs, machine(fs, cfg, c, s)),
    decreases level(c.subst), if c.file_only {
        7nat
    } else {
        11nat
    }, rank(cfg, s),
{
    let n = extensions(cfg).len();
    match s {
        State::Start => {
            if c.dir_only {
                machine_names_a_file(fs, cfg, c, State::TryDirectory);
            } else if c.subst {
                machine_names_a_file(fs, cfg, c, State::ApplyBrowser(0));
            } else {
                machine_names_a_file(fs, cfg, c, State::TryExact);
            }
        },
        State::ApplyBrowser(i) => {
            let file = candidate(cfg, c.path, i);
            if c.subst && 0 <= i <= n {
                substitute_path_names_a_file(fs, cfg, parent_of(file), file);
            }
            if i == 0 {
                machine_names_a_file(fs, cfg, c, State::TryExact);
            }
        },
        State::TryExact => {
            if !fs.contains_key(c.path) {
                machine_names_a_file(fs, cfg, c, State::TryExtensions(0));
            }
        },
        State::TryExtensions(i) => {
            if i < 0 || i >= n {
                machine_names_a_file(fs, cfg, c, State::TryDirectory);
            } else if fs.contains_key(candidate(cfg, c.path, i + 1)) {
                if c.subst {
                    machine_names_a_file(fs, cfg, c, State::ApplyBrowser(i + 1));
                }
            } else {
                machine_names_a_file(fs, cfg, c, State::TryExtensions(i + 1));
            }
        },
        State::TryDirectory => {
            if !c.file_only {
                load_dir_names_a_file(fs, cfg, c.path, c.subst, c.is_main);
            }
        },
        State::Done(o) => {},
    }
}

/// A path as a file comes to no file that is not there.
pub proof fn load_file_names_a_file(fs: Files, cfg: Config, p: Seq<Seq<char>>, subst: bool)
    ensures
        names_a_file(fs, load_file(fs, cfg, p, subst)),
    decreases level(subst), 8nat, 0nat,
{
    machine_names_a_file(
        fs,
        cfg,
        Candidate { path: p, dir_only: false, file_only: true, subst, is_main: false },
        State::Start,
    );
}

/// An index file is a file that is there.
pub proof fn load_index_names_a_file(fs: Files, cfg: Config, d: Seq<Seq<char>>, subst: bool)
    ensures
        names_a_file(fs, load_index(fs, cfg, d, subst)),
    decreases level(subst), 9nat, 0nat,
{
    load_file_names_a_file(fs, cfg, d.push("index"@), subst);
}

/// A main path comes to no file that is not there.
pub proof fn load_main_names_a_file(fs: Files, cfg: Config, m: Seq<Seq<char>>, subst: bool)
    ensures
        names_a_file(fs, load_main(fs, cfg, m, subst)),
    decreases level(subst), 9nat, 1nat,
{
    load_file_names_a_file(fs, cfg, m, subst);
    load_index_names_a_file(fs, cfg, m, subst);
}

/// A path as a directory comes to no file that is not there.
pub proof fn load_dir_names_a_file(
    fs: Files,
    cfg: Config,
    d: Seq<Seq<char>>,
    subst: bool,
    is_main: bool,
)
    ensures
        names_a_file(fs, load_dir(fs, cfg, d, subst, is_main)),
    decreases level(subst), 10nat, 0nat,
{
    load_index_names_a_file(fs, cfg, d, subst);
    if !is_main {
        match manifest_at(fs, d) {
            ManifestState::Present(info) => {
                if subst {
                    match main_lookup(info) {
                        Some(v) => {
                            substituted_names_a_file(fs, cfg, v, d);
                        },
                        None => {},
                    }
                }
                load_main_names_a_file(fs, cfg, apply(d, pieces(info.main)), subst);
            },
            _ => {},
        }
    }
}

/// A path comes to no file that is not there.
pub proof fn resolve_path_names_a_file(
    fs: Files,
    cfg: Config,
    p: Seq<Seq<char>>,
    dir_only: bool,
    subst: bool,
    is_main: bool,
)
    ensures
        names_a_file(fs, resolve_path(fs, cfg, p, dir_only, subst, is_main)),
    decreases level(subst), 12nat, 0nat,
{
    machine_names_a_file(
        fs,
        cfg,
        Candidate { path: p, dir_only, file_only: false, subst, is_main },
        State::Start,
    );
}

/// A module that is found is a file that is there.
pub proof fn walk_names_a_file(
    fs: Files,
    cfg: Config,
    a: Seq<Seq<char>>,
    name: Seq<Seq<char>>,
    dir_only: bool,
    subst: bool,
)
    ensures
        names_a_file(fs, walk(fs, cfg, a, name, dir_only, subst)),
    decreases level(subst), 13nat, a.len(),
{
    resolve_path_names_a_file(fs, cfg, a.push("node_modules"@) + name, dir_only, subst, false);
    if a.len() > 0 {
        walk_names_a_file(fs, cfg, a.drop_last(), name, dir_only, subst);
    }
}

/// A specifier resolves to no file that is not there.
pub proof fn resolve_from_names_a_file(
    fs: Files,
    cfg: Config,
    d: Seq<Seq<char>>,
    spec: Seq<char>,
    subst: bool,
    as_value: bool,
)
    ensures
        names_a_file(fs, resolve_from(fs, cfg, d, spec, subst, as_value)),
    decreases level(subst), 14nat, 0nat,
{
    let dir_only = !as_value && names_directory(spec);
    if is_absolute(spec) || is_relative(spec) {
        let p = if is_absolute(spec) {
            apply(Seq::empty(), pieces(spec))
        } else {
            apply(d, pieces(spec))
        };
        if subst {
            substitute_path_names_a_file(fs, cfg, d, p);
        }
        resolve_path_names_a_file(fs, cfg, p, dir_only, subst, false);
    } else {
        let name = apply(Seq::empty(), pieces(spec));
        if subst {
            match enclosing(fs, d) {
                Ok(Some((root, info))) => match lookup(info, name) {
                    Some(v) => {
                        substituted_names_a_file(fs, cfg, v, root);
                    },
                    None => {},
                },
                _ => {},
            }
        }
        walk_names_a_file(fs, cfg, d, name, dir_only, subst);
    }
}

} // verus!
