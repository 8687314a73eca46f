use vstd::prelude::*;
use crate::manifest::{substitution_view, BrowserSubstitution, ManifestFault, PackageInfo};
use crate::model::{
    candidate,
    is_canonical,
    machine,
    rank,
    Candidate,
    State,
    enclosing,
    ends_in_slash,
    extensions,
    is_external,
    is_relative,
    key_matches,
    level,
    load_dir,
    load_file,
    load_index,
    load_main,
    lookup,
    lookup_from,
    main_lookup,
    main_lookup_from,
    manifest_at,
    package_name,
    resolution,
    resolution_names_a_file,
    resolve_from,
    resolve_path,
    substitute_path,
    substituted,
    walk,
    Config,
    Fault,
    ManifestState,
    Outcome,
    Target,
};
use crate::path::{
    apply,
    is_dot,
    is_dot_dot,
    names_directory,
    pieces,
    pieces_of_open_text,
    render,
    starts_at_root,
    Parts,
};
use crate::tree::{FileTree, Files};

verus! {

/// What the bundler is asked to do, as far as resolving goes.
#[derive(Debug, Clone)]
pub struct InputOptions {
    /// Apply the substitutions that manifests name for browsers.
    pub for_browser: bool,
    /// Take `.mjs` for an extension, ahead of the others.
    pub es6_syntax: bool,
    /// Take every file for one that may use module syntax.
    pub es6_syntax_everywhere: bool,
    /// The packages that stay outside the bundle.
    pub external: Vec<String>,
}

impl View for InputOptions {
    type V = Config;

    open spec fn view(&self) -> Config {
        Config {
            for_browser: self.for_browser,
            es6_syntax: self.es6_syntax,
            external: Seq::new(self.external@.len(), |i: int| self.external@[i]@),
        }
    }
}

impl InputOptions {
    /// The same options once more.
    pub fn duplicate(&self) -> (o: InputOptions)
        ensures
            o@ == self@,
            o.es6_syntax_everywhere == self.es6_syntax_everywhere,
    {
        let mut external: Vec<String> = Vec::new();
        let mut i: usize = 0;
        while i < self.external.len()
            invariant
                i <= self.external@.len(),
                external@.len() == i,
                forall|j: int| 0 <= j < i ==> external@[j]@ == self.external@[j]@,
            decreases self.external@.len() - i,
        {
            external.push(self.external[i].clone());
            i += 1;
        }
        let o = InputOptions {
            for_browser: self.for_browser,
            es6_syntax: self.es6_syntax,
            es6_syntax_everywhere: self.es6_syntax_everywhere,
            external,
        };
        assert(o@.external =~= self@.external);
        o
    }
}

impl Default for InputOptions {
    fn default() -> (o: InputOptions)
        ensures
            !o.for_browser,
            !o.es6_syntax,
            !o.es6_syntax_everywhere,
            o.external@.len() == 0,
    {
        InputOptions {
            for_browser: false,
            es6_syntax: false,
            es6_syntax_everywhere: false,
            external: Vec::new(),
        }
    }
}

/// What a specifier resolved to.
#[derive(Debug, Clone, PartialEq, Eq)]
pub enum Resolved {
    /// The file of this absolute path.
    Normal(String),
    /// Nothing: an empty module stands in.
    Ignore,
    /// A module that is looked up when the bundle runs.
    External,
}

/// Why resolving failed.
#[derive(Debug, Clone, PartialEq, Eq)]
pub enum ResolveError {
    /// Nothing was found for the specifier.
    ResolveFailed { context: String, specifier: String },
    /// The manifest of this path is refused.
    ManifestMalformed { path: String, reason: ManifestFault },
    /// The manifest of this path cannot be read.
    Io { path: String },
}

/// What a specifier resolved to, as plain values.
pub enum ResolvedView {
    Normal(Seq<char>),
    Ignore,
    External,
}

/// Why resolving failed, as plain values.
pub enum ErrorView {
    ResolveFailed { context: Seq<char>, specifier: Seq<char> },
    ManifestMalformed { path: Seq<char>, reason: ManifestFault },
    Io { path: Seq<char> },
}

impl View for Resolved {
    type V = ResolvedView;

    open spec fn view(&self) -> ResolvedView {
        match self {
            Resolved::Normal(p) => ResolvedView::Normal(p@),
            Resolved::Ignore => ResolvedView::Ignore,
            Resolved::External => ResolvedView::External,
        }
    }
}

impl View for ResolveError {
    type V = ErrorView;

    open spec fn view(&self) -> ErrorView {
        match self {
            ResolveError::ResolveFailed { context, specifier } => ErrorView::ResolveFailed {
                context: context@,
                specifier: specifier@,
            },
            ResolveError::ManifestMalformed { path, reason } => ErrorView::ManifestMalformed {
                path: path@,
                reason: *reason,
            },
            ResolveError::Io { path } => ErrorView::Io { path: path@ },
        }
    }
}

/// A target with its place written out as an absolute path.
pub open spec fn target_view(t: Target) -> ResolvedView {
    match t {
        Target::Normal(p) => ResolvedView::Normal(render(true, p)),
        Target::Ignore => ResolvedView::Ignore,
        Target::External => ResolvedView::External,
    }
}

/// A fault with its place written out as an absolute path.
pub open spec fn fault_view(f: Fault) -> ErrorView {
    match f {
        Fault::Malformed(p, reason) => ErrorView::ManifestMalformed {
            path: render(true, p),
            reason,
        },
        Fault::Unreadable(p) => ErrorView::Io { path: render(true, p) },
    }
}

/// What a specifier resolves to, or why it does not.
pub open spec fn resolve_result(fs: Files, cfg: Config, context: Seq<char>, name: Seq<char>) -> Result<
    ResolvedView,
    ErrorView,
> {
    match resolution(fs, cfg, context, name) {
        Ok(Some(t)) => Ok(target_view(t)),
        Ok(None) => Err(ErrorView::ResolveFailed { context, specifier: name }),
        Err(f) => Err(fault_view(f)),
    }
}

/// What a path resolves to, if to anything, or why resolving stopped.
pub open spec fn path_result(
    fs: Files,
    cfg: Config,
    path: Seq<char>,
    is_main: bool,
    is_browser: bool,
) -> Result<Option<ResolvedView>, ErrorView> {
    match resolve_path(
        fs,
        cfg,
        apply(Seq::empty(), pieces(path)),
        names_directory(path),
        cfg.for_browser && !is_browser,
        is_main,
    ) {
        Ok(Some(t)) => Ok(Some(target_view(t))),
        Ok(None) => Ok(None),
        Err(f) => Err(fault_view(f)),
    }
}

/// What resolving gave, as plain values.
pub open spec fn result_view(r: Result<Resolved, ResolveError>) -> Result<ResolvedView, ErrorView> {
    match r {
        Ok(x) => Ok(x@),
        Err(e) => Err(e@),
    }
}

/// What resolving a path gave, as plain values.
pub open spec fn found_view(r: Result<Option<Resolved>, ResolveError>) -> Result<
    Option<ResolvedView>,
    ErrorView,
> {
    match r {
        Ok(Some(x)) => Ok(Some(x@)),
        Ok(None) => Ok(None),
        Err(e) => Err(e@),
    }
}

/// What a step of resolving found.
pub enum Hit {
    Normal(Parts),
    Ignore,
    External,
}

/// What stopped resolving: the manifest at a place that is refused or cannot
/// be read.
pub enum Trouble {
    Malformed(Parts, ManifestFault),
    Unreadable(Parts),
}

/// What a step of resolving gave, as plain values.
pub open spec fn step_view(s: Result<Option<Hit>, Trouble>) -> Outcome {
    match s {
        Ok(Some(Hit::Normal(p))) => Ok(Some(Target::Normal(p@))),
        Ok(Some(Hit::Ignore)) => Ok(Some(Target::Ignore)),
        Ok(Some(Hit::External)) => Ok(Some(Target::External)),
        Ok(None) => Ok(None),
        Err(Trouble::Malformed(p, e)) => Err(Fault::Malformed(p@, e)),
        Err(Trouble::Unreadable(p)) => Err(Fault::Unreadable(p@)),
    }
}

/// A path that is being resolved, and how.
pub struct Try {
    pub path: Parts,
    pub dir_only: bool,
    pub file_only: bool,
    pub subst: bool,
    pub is_main: bool,
}

impl View for Try {
    type V = Candidate;

    open spec fn view(&self) -> Candidate {
        Candidate {
            path: self.path@,
            dir_only: self.dir_only,
            file_only: self.file_only,
            subst: self.subst,
            is_main: self.is_main,
        }
    }
}

/// Where resolving one path stands.
pub enum Step {
    Start,
    ApplyBrowser(usize),
    TryExact,
    TryExtensions(usize),
    TryDirectory,
    Done(Result<Option<Hit>, Trouble>),
}

impl View for Step {
    type V = State;

    open spec fn view(&self) -> State {
        match self {
            Step::Start => State::Start,
            Step::ApplyBrowser(i) => State::ApplyBrowser(*i as int),
            Step::TryExact => State::TryExact,
            Step::TryExtensions(i) => State::TryExtensions(*i as int),
            Step::TryDirectory => State::TryDirectory,
            Step::Done(r) => State::Done(step_view(*r)),
        }
    }
}

impl Step {
    /// Whether the state names a file that there is to try, and one that is
    /// there where it was found to be.
    pub open spec fn wf(&self, fs: Files, cfg: Config, c: Candidate) -> bool {
        match self {
            Step::ApplyBrowser(i) => i <= extensions(cfg).len() && (*i != 0 ==> fs.contains_key(
                candidate(cfg, c.path, *i as int),
            )),
            Step::TryExtensions(i) => i <= extensions(cfg).len(),
            _ => true,
        }
    }
}

/// What has been learnt of a directory's manifest.
pub enum Known {
    Absent,
    Unreadable,
    Malformed(ManifestFault),
    Present(PackageInfo),
}

/// What has been learnt of a manifest, as plain values.
pub open spec fn known_view(k: Known) -> ManifestState {
    match k {
        Known::Absent => ManifestState::Absent,
        Known::Unreadable => ManifestState::Unreadable,
        Known::Malformed(e) => ManifestState::Malformed(e),
        Known::Present(info) => ManifestState::Present(info@),
    }
}

/// A substitution that was or was not found, as a plain value.
pub open spec fn option_view(s: Option<BrowserSubstitution<String>>) -> Option<
    BrowserSubstitution<Seq<char>>,
> {
    match s {
        Some(v) => Some(substitution_view(v)),
        None => None,
    }
}

fn copy_substitution(s: &BrowserSubstitution<String>) -> (r: BrowserSubstitution<String>)
    ensures
        substitution_view(r) == substitution_view(*s),
{
    match s {
        BrowserSubstitution::Ignore => BrowserSubstitution::Ignore,
        BrowserSubstitution::Replace(t) => BrowserSubstitution::Replace(t.clone()),
    }
}

fn ends_with_slash(s: &str) -> (b: bool)
    ensures
        b == ends_in_slash(s@),
{
    let n = s.unicode_len();
    n > 0 && s.get_char(n - 1) == '/'
}

/// Whether the text `s` names a directory, given its pieces.
fn asks_for_directory(s: &str, parts: &Parts) -> (b: bool)
    requires
        parts@ == pieces(s@),
    ensures
        b == names_directory(s@),
{
    let n = s.unicode_len();
    if n == 0 {
        false
    } else if s.get_char(n - 1) == '/' {
        true
    } else {
        proof {
            pieces_of_open_text(s@);
        }
        let last = parts.get(parts.len() - 1);
        is_dot(last.as_str()) || is_dot_dot(last.as_str())
    }
}

/// Whether `key` stands for the place `rel` in a package of main path `main`.
fn matches_key(key: &String, main: &String, rel: &Parts) -> (b: bool)
    ensures
        b == key_matches(key@, main@, rel@),
{
    if *key == *main {
        false
    } else if ends_with_slash(key.as_str()) {
        false
    } else {
        Parts::new().applied(&Parts::parse(key.as_str())).same(rel)
    }
}

/// The substitution of `info` for the place `rel`.
fn find_substitution(info: &PackageInfo, rel: &Parts) -> (r: Option<BrowserSubstitution<String>>)
    ensures
        option_view(r) == lookup(info@, rel@),
{
    let subs = &info.browser_substitutions.0;
    let mut i: usize = 0;
    while i < subs.len()
        invariant
            i <= subs@.len(),
            subs@ == info.browser_substitutions.0@,
            lookup(info@, rel@) == lookup_from(info@.substitutions, info@.main, rel@, i as int),
        decreases subs@.len() - i,
    {
        if matches_key(&subs[i].0, &info.main, rel) {
            return Some(copy_substitution(&subs[i].1));
        }
        i += 1;
    }
    None
}

/// The substitution of `info` for the package's entry.
fn find_main_substitution(info: &PackageInfo) -> (r: Option<BrowserSubstitution<String>>)
    ensures
        option_view(r) == main_lookup(info@),
{
    let subs = &info.browser_substitutions.0;
    let mut i: usize = 0;
    while i < subs.len()
        invariant
            i <= subs@.len(),
            subs@ == info.browser_substitutions.0@,
            main_lookup(info@) == main_lookup_from(info@.substitutions, info@.main, i as int),
        decreases subs@.len() - i,
    {
        if subs[i].0 == info.main {
            return Some(copy_substitution(&subs[i].1));
        }
        i += 1;
    }
    None
}

/// Whether one of `names` is `wanted`.
fn holds_name(names: &Vec<String>, wanted: &String) -> (b: bool)
    ensures
        b == Seq::new(names@.len(), |i: int| names@[i]@).contains(wanted@),
{
    let ghost all = Seq::new(names@.len(), |i: int| names@[i]@);
    let mut i: usize = 0;
    while i < names.len()
        invariant
            i <= names@.len(),
            all == Seq::new(names@.len(), |i: int| names@[i]@),
            forall|j: int| 0 <= j < i ==> all[j] != wanted@,
        decreases names@.len() - i,
    {
        if names[i] == *wanted {
            assert(all[i as int] == wanted@);
            return true;
        }
        i += 1;
    }
    false
}

/// The name of the package that the pieces of a bare specifier start with.
fn package_of(name: &Parts) -> (r: String)
    requires
        name@.len() > 0,
    ensures
        r@ == package_name(name@),
{
    let first = name.get(0);
    if name.len() > 1 && first.as_str().unicode_len() > 0 && first.as_str().get_char(0) == '@' {
        let mut r = first.clone();
        r.append("/");
        proof {
            reveal_strlit("/");
            assert("/"@ =~= seq!['/']);
        }
        r.append(name.get(1).as_str());
        r
    } else {
        first.clone()
    }
}

/// Whether a bare specifier of these pieces names an external package.
fn names_external(options: &InputOptions, name: &Parts) -> (b: bool)
    ensures
        b == is_external(options@, name@),
{
    if name.len() == 0 {
        false
    } else {
        holds_name(&options.external, name.get(0)) || holds_name(
            &options.external,
            &package_of(name),
        )
    }
}

/// A resolver of specifiers against a file system held in memory. It keeps
/// what it has learnt of each directory's manifest.
pub struct Resolver<'a> {
    pub input_options: InputOptions,
    pub tree: &'a FileTree,
    pub cache: Vec<(Parts, Known)>,
}

impl<'a> Resolver<'a> {
    /// Whether all that the resolver keeps is true of its file system, and
    /// no directory is kept twice.
    pub open spec fn wf(&self) -> bool {
        &&& forall|i: int|
            0 <= i < self.cache@.len() ==> known_view(#[trigger] self.cache@[i].1) == manifest_at(
                self.tree@,
                self.cache@[i].0@,
            )
        &&& forall|i: int, j: int|
            0 <= i < j < self.cache@.len() ==> (#[trigger] self.cache@[i]).0@ != (
            #[trigger] self.cache@[j]).0@
    }

    /// Whether this resolver is a sound one of the same file system and
    /// options as `before`.
    pub open spec fn keeps(&self, before: Resolver<'a>) -> bool {
        self.wf() && self.tree@ == before.tree@ && self.input_options@ == before.input_options@
    }

    /// What the resolver answers for the specifier `name`, written in the
    /// file `context`.
    pub open spec fn answer(&self, context: Seq<char>, name: Seq<char>) -> Result<
        ResolvedView,
        ErrorView,
    > {
        resolve_result(self.tree@, self.input_options@, context, name)
    }

    /// A resolver that knows nothing yet.
    pub fn new(input_options: InputOptions, tree: &'a FileTree) -> (r: Resolver<'a>)
        ensures
            r.wf(),
            r.cache@.len() == 0,
            r.tree == tree,
            r.input_options == input_options,
    {
        Resolver { input_options, tree, cache: Vec::new() }
    }

    /// Where the manifest of `dir` is kept, after reading it if need be.
    fn manifest(&mut self, dir: &Parts) -> (i: usize)
        requires
            old(self).wf(),
        ensures
            final(self).keeps(*old(self)),
            i < final(self).cache@.len(),
            known_view(final(self).cache@[i as int].1) == manifest_at(old(self).tree@, dir@),
    {
        let mut i: usize = 0;
        while i < self.cache.len()
            invariant
                i <= self.cache@.len(),
                *self == *old(self),
                self.wf(),
                forall|j: int| 0 <= j < i ==> (#[trigger] self.cache@[j]).0@ != dir@,
            decreases self.cache@.len() - i,
        {
            if self.cache[i].0.same(dir) {
                return i;
            }
            i += 1;
        }
        let place = dir.child("package.json");
        let known = match self.tree.find(&place) {
            None => Known::Absent,
            Some(file) => match &file.text {
                None => Known::Unreadable,
                Some(text) => match PackageInfo::parse(text.as_str()) {
                    Ok(info) => Known::Present(info),
                    Err(e) => Known::Malformed(e),
                },
            },
        };
        self.cache.push((dir.clone(), known));
        self.cache.len() - 1
    }

    /// The nearest package at or above `start`: its directory, and where its
    /// manifest is kept.
    fn nearest_package(&mut self, start: &Parts) -> (r: Result<Option<(Parts, usize)>, Trouble>)
        requires
            old(self).wf(),
        ensures
            final(self).keeps(*old(self)),
            match r {
                Ok(Some((root, i))) => i < final(self).cache@.len() && final(self).cache@[i as int].1 is Present
                    && enclosing(old(self).tree@, start@) == Ok::<_, Fault>(
                    Some((root@, final(self).cache@[i as int].1->Present_0@)),
                ),
                Ok(None) => enclosing(old(self).tree@, start@) == Ok::<
                    Option<(Seq<Seq<char>>, crate::manifest::PackageInfoView)>,
                    Fault,
                >(None),
                Err(t) => enclosing(old(self).tree@, start@) == Err::<
                    Option<(Seq<Seq<char>>, crate::manifest::PackageInfoView)>,
                    _,
                >(step_view(Err(t))->Err_0),
            },
    {
        let mut d = start.clone();
        loop
            invariant
                self.keeps(*old(self)),
                enclosing(old(self).tree@, start@) == enclosing(old(self).tree@, d@),
            decreases d@.len(),
        {
            let i = self.manifest(&d);
            match &self.cache[i].1 {
                Known::Present(_) => {
                    return Ok(Some((d, i)));
                },
                Known::Unreadable => {
                    return Err(Trouble::Unreadable(d.child("package.json")));
                },
                Known::Malformed(e) => {
                    return Err(Trouble::Malformed(d.child("package.json"), *e));
                },
                Known::Absent => {
                    if d.len() == 0 {
                        return Ok(None);
                    }
                    d.pop();
                },
            }
        }
    }

    /// What a substitution gives in the package at `root`.
    fn substituted(&mut self, value: BrowserSubstitution<String>, root: &Parts) -> (r: Result<
        Option<Hit>,
        Trouble,
    >)
        requires
            old(self).wf(),
        ensures
            final(self).keeps(*old(self)),
            step_view(r) == substituted(
                old(self).tree@,
                old(self).input_options@,
                substitution_view(value),
                root@,
            ),
        decreases 1nat, 3nat, 0nat,
    {
        match value {
            BrowserSubstitution::Ignore => Ok(Some(Hit::Ignore)),
            BrowserSubstitution::Replace(v) => self.resolve_from(root, v.as_str(), false, true),
        }
    }

    /// What the nearest package at or above `start` puts in the place of `p`.
    fn substitute_path(&mut self, start: &Parts, p: &Parts) -> (r: Result<Option<Hit>, Trouble>)
        requires
            old(self).wf(),
        ensures
            final(self).keeps(*old(self)),
            step_view(r) == substitute_path(old(self).tree@, old(self).input_options@, start@, p@),
        decreases 1nat, 4nat, 0nat,
    {
        match self.nearest_package(start) {
            Err(t) => Err(t),
            Ok(None) => Ok(None),
            Ok(Some((root, i))) => {
                if !p.starts_with(&root) {
                    Ok(None)
                } else {
                    let rel = p.skip(root.len());
                    let found = match &self.cache[i].1 {
                        Known::Present(info) => find_substitution(info, &rel),
                        _ => None,
                    };
                    match found {
                        None => Ok(None),
                        Some(v) => self.substituted(v, &root),
                    }
                }
            },
        }
    }

    /// Resolves the candidate `c`, state by state.
    fn run(&mut self, c: &Try) -> (r: Result<Option<Hit>, Trouble>)
        requires
            old(self).wf(),
        ensures
            final(self).keeps(*old(self)),
            step_view(r) == machine(old(self).tree@, old(self).input_options@, c@, State::Start),
        decreases level(c.subst), if c.file_only {
            7nat
        } else {
            11nat
        }, (extensions(old(self).input_options@).len() + 6) as nat,
    {
        let exts: Vec<&'static str> = if self.input_options.es6_syntax {
            vec![".mjs", ".js", ".json"]
        } else {
            vec![".js", ".json"]
        };
        let ghost fs = self.tree@;
        let ghost cfg = self.input_options@;
        assert(Seq::new(exts@.len(), |k: int| exts@[k]@) =~= extensions(cfg));
        let mut state = Step::Start;
        loop
            invariant
                self.keeps(*old(self)),
                fs == old(self).tree@,
                cfg == old(self).input_options@,
                Seq::new(exts@.len(), |k: int| exts@[k]@) == extensions(cfg),
                state.wf(fs, cfg, c@),
                machine(fs, cfg, c@, state@) == machine(fs, cfg, c@, State::Start),
            decreases rank(cfg, state@),
        {
            state = match state {
                Step::Start => if c.dir_only {
                    Step::TryDirectory
                } else if c.subst {
                    Step::ApplyBrowser(0)
                } else {
                    Step::TryExact
                },
                Step::ApplyBrowser(i) => {
                    let file = if i == 0 {
                        c.path.clone()
                    } else {
                        assert(Seq::new(exts@.len(), |k: int| exts@[k]@)[i - 1] == exts@[i - 1]@);
                        c.path.with_ext(exts[i - 1])
                    };
                    assert(file@ == candidate(cfg, c@.path, i as int));
                    let replaced = if c.subst {
                        self.substitute_path(&file.parent(), &file)
                    } else {
                        Ok(None)
                    };
                    match replaced {
                        Err(t) => Step::Done(Err(t)),
                        Ok(Some(h)) => Step::Done(Ok(Some(h))),
                        Ok(None) => if i == 0 {
                            Step::TryExact
                        } else {
                            match self.tree.find(&file) {
                                Some(found) => Step::Done(Ok(Some(Hit::Normal(found.canonical.clone())))),
                                None => Step::Done(Ok(None)),
                            }
                        },
                    }
                },
                Step::TryExact => match self.tree.find(&c.path) {
                    Some(found) => Step::Done(Ok(Some(Hit::Normal(found.canonical.clone())))),
                    None => Step::TryExtensions(0),
                },
                Step::TryExtensions(i) => if i >= exts.len() {
                    Step::TryDirectory
                } else {
                    assert(Seq::new(exts@.len(), |k: int| exts@[k]@)[i as int] == exts@[i as int]@);
                    let file = c.path.with_ext(exts[i]);
                    assert(file@ == candidate(cfg, c@.path, i + 1));
                    match self.tree.find(&file) {
                        Some(found) => if c.subst {
                            Step::ApplyBrowser(i + 1)
                        } else {
                            Step::Done(Ok(Some(Hit::Normal(found.canonical.clone()))))
                        },
                        None => Step::TryExtensions(i + 1),
                    }
                },
                Step::TryDirectory => if c.file_only {
                    Step::Done(Ok(None))
                } else {
                    Step::Done(self.load_dir(&c.path, c.subst, c.is_main))
                },
                Step::Done(r) => {
                    return r;
                },
            };
        }
    }

    /// The path `p` as a file.
    fn load_file(&mut self, p: &Parts, subst: bool) -> (r: Result<Option<Hit>, Trouble>)
        requires
            old(self).wf(),
        ensures
            final(self).keeps(*old(self)),
            step_view(r) == load_file(old(self).tree@, old(self).input_options@, p@, subst),
        decreases level(subst), 8nat, 0nat,
    {
        let c = Try { path: p.clone(), dir_only: false, file_only: true, subst, is_main: false };
        self.run(&c)
    }

    /// The index file of the directory `d`.
    fn load_index(&mut self, d: &Parts, subst: bool) -> (r: Result<Option<Hit>, Trouble>)
        requires
            old(self).wf(),
        ensures
            final(self).keeps(*old(self)),
            step_view(r) == load_index(old(self).tree@, old(self).input_options@, d@, subst),
        decreases level(subst), 9nat, 0nat,
    {
        self.load_file(&d.child("index"), subst)
    }

    /// The path `m` that a manifest names as its main.
    fn load_main(&mut self, m: &Parts, subst: bool) -> (r: Result<Option<Hit>, Trouble>)
        requires
            old(self).wf(),
        ensures
            final(self).keeps(*old(self)),
            step_view(r) == load_main(old(self).tree@, old(self).input_options@, m@, subst),
        decreases level(subst), 9nat, 1nat,
    {
        match self.load_file(m, subst) {
            Err(t) => Err(t),
            Ok(Some(h)) => Ok(Some(h)),
            Ok(None) => self.load_index(m, subst),
        }
    }

    /// The path `d` as a directory.
    fn load_dir(&mut self, d: &Parts, subst: bool, is_main: bool) -> (r: Result<
        Option<Hit>,
        Trouble,
    >)
        requires
            old(self).wf(),
        ensures
            final(self).keeps(*old(self)),
            step_view(r) == load_dir(old(self).tree@, old(self).input_options@, d@, subst, is_main),
        decreases level(subst), 10nat, 0nat,
    {
        if is_main {
            return self.load_index(d, subst);
        }
        let i = self.manifest(d);
        let (main, entry) = match &self.cache[i].1 {
            Known::Absent => {
                return self.load_index(d, subst);
            },
            Known::Unreadable => {
                return Err(Trouble::Unreadable(d.child("package.json")));
            },
            Known::Malformed(e) => {
                return Err(Trouble::Malformed(d.child("package.json"), *e));
            },
            Known::Present(info) => {
                let entry = if subst {
                    find_main_substitution(info)
                } else {
                    None
                };
                (info.main.clone(), entry)
            },
        };
        match entry {
            None => {},
            Some(v) => match self.substituted(v, d) {
                Err(t) => {
                    return Err(t);
                },
                Ok(Some(h)) => {
                    return Ok(Some(h));
                },
                Ok(None) => {},
            },
        }
        let m = d.applied(&Parts::parse(main.as_str()));
        match self.load_main(&m, subst) {
            Err(t) => Err(t),
            Ok(Some(h)) => Ok(Some(h)),
            Ok(None) => self.load_index(d, subst),
        }
    }

    /// The path `p`: as a file unless `dir_only`, then as a directory.
    fn load_path(&mut self, p: &Parts, dir_only: bool, subst: bool, is_main: bool) -> (r: Result<
        Option<Hit>,
        Trouble,
    >)
        requires
            old(self).wf(),
        ensures
            final(self).keeps(*old(self)),
            step_view(r) == resolve_path(
                old(self).tree@,
                old(self).input_options@,
                p@,
                dir_only,
                subst,
                is_main,
            ),
        decreases level(subst), 12nat, 0nat,
    {
        let c = Try { path: p.clone(), dir_only, file_only: false, subst, is_main };
        self.run(&c)
    }

    /// The module `name` in the `node_modules` of `from` and of each
    /// directory above it.
    fn walk(&mut self, from: &Parts, name: &Parts, dir_only: bool, subst: bool) -> (r: Result<
        Option<Hit>,
        Trouble,
    >)
        requires
            old(self).wf(),
        ensures
            final(self).keeps(*old(self)),
            step_view(r) == walk(
                old(self).tree@,
                old(self).input_options@,
                from@,
                name@,
                dir_only,
                subst,
            ),
        decreases level(subst), 13nat, from@.len(),
    {
        let mut a = from.clone();
        loop
            invariant
                self.keeps(*old(self)),
                a@.len() <= from@.len(),
                walk(old(self).tree@, old(self).input_options@, from@, name@, dir_only, subst)
                    == walk(old(self).tree@, old(self).input_options@, a@, name@, dir_only, subst),
            decreases a@.len(),
        {
            let mut p = a.child("node_modules");
            let mut k: usize = 0;
            while k < name.len()
                invariant
                    k <= name@.len(),
                    p@ == a@.push("node_modules"@) + name@.take(k as int),
                decreases name@.len() - k,
            {
                p.push(name.get(k).clone());
                assert(a@.push("node_modules"@) + name@.take(k + 1) =~= (a@.push("node_modules"@)
                    + name@.take(k as int)).push(name@[k as int]));
                k += 1;
            }
            assert(name@.take(name@.len() as int) =~= name@);
            match self.load_path(&p, dir_only, subst, false) {
                Err(t) => {
                    return Err(t);
                },
                Ok(Some(h)) => {
                    return Ok(Some(h));
                },
                Ok(None) => {},
            }
            if a.len() == 0 {
                return Ok(None);
            }
            a.pop();
        }
    }

    /// What the specifier `name` resolves to from the directory `d`.
    fn resolve_from(&mut self, d: &Parts, name: &str, subst: bool, as_value: bool) -> (r: Result<
        Option<Hit>,
        Trouble,
    >)
        requires
            old(self).wf(),
        ensures
            final(self).keeps(*old(self)),
            step_view(r) == resolve_from(
                old(self).tree@,
                old(self).input_options@,
                d@,
                name@,
                subst,
                as_value,
            ),
        decreases level(subst), 14nat, 0nat,
    {
        let raw = Parts::parse(name);
        let dir_only = !as_value && asks_for_directory(name, &raw);
        let absolute = starts_at_root(name);
        let relative = !absolute && raw.len() > 0 && (is_dot(raw.get(0).as_str()) || is_dot_dot(
            raw.get(0).as_str(),
        ));
        assert(relative == is_relative(name@));
        if absolute || relative {
            let p = if absolute {
                Parts::new().applied(&raw)
            } else {
                d.applied(&raw)
            };
            if subst {
                match self.substitute_path(d, &p) {
                    Err(t) => {
                        return Err(t);
                    },
                    Ok(Some(h)) => {
                        return Ok(Some(h));
                    },
                    Ok(None) => {},
                }
            }
            self.load_path(&p, dir_only, subst, false)
        } else {
            let wanted = Parts::new().applied(&raw);
            if names_external(&self.input_options, &raw) {
                return Ok(Some(Hit::External));
            }
            if wanted.len() == 0 {
                return Ok(None);
            }
            if subst {
                let found = match self.nearest_package(d) {
                    Err(t) => {
                        return Err(t);
                    },
                    Ok(None) => None,
                    Ok(Some((root, i))) => match &self.cache[i].1 {
                        Known::Present(info) => match find_substitution(info, &wanted) {
                            None => None,
                            Some(v) => Some((v, root)),
                        },
                        _ => None,
                    },
                };
                match found {
                    None => {},
                    Some((v, root)) => match self.substituted(v, &root) {
                        Err(t) => {
                            return Err(t);
                        },
                        Ok(Some(h)) => {
                            return Ok(Some(h));
                        },
                        Ok(None) => {},
                    },
                }
            }
            self.walk(d, &wanted, dir_only, subst)
        }
    }

    /// Resolves the specifier `name`, written in the file `context`.
    pub fn resolve(&mut self, context: &str, name: &str) -> (r: Result<Resolved, ResolveError>)
        requires
            old(self).wf(),
        ensures
            final(self).keeps(*old(self)),
            result_view(r) == old(self).answer(context@, name@),
            match r {
                Ok(Resolved::Normal(p)) => exists|canonical: Seq<Seq<char>>|
                    #[trigger] is_canonical(old(self).tree@, canonical) && p@ == render(true, canonical),
                _ => true,
            },
    {
        let file = Parts::new().applied(&Parts::parse(context));
        let dir = file.parent();
        let subst = self.input_options.for_browser;
        proof {
            resolution_names_a_file(self.tree@, self.input_options@, context@, name@);
        }
        match self.resolve_from(&dir, name, subst, false) {
            Ok(Some(h)) => {
                proof {
                    if h is Normal {
                        assert(is_canonical(old(self).tree@, h->Normal_0@));
                    }
                }
                Ok(shown(h))
            },
            Ok(None) => Err(
                ResolveError::ResolveFailed { context: context.to_owned(), specifier: name.to_owned() },
            ),
            Err(t) => Err(told(t)),
        }
    }

    /// Resolves the path `path` as a file or a directory, whatever kind of
    /// specifier named it. With `is_main` the path is one that a manifest
    /// names, and the manifest of the directory it names is not read. With
    /// `is_browser` the path is a replacement, and nothing replaces it again.
    pub fn resolve_path_or_module(&mut self, path: &str, is_main: bool, is_browser: bool) -> (r:
        Result<Option<Resolved>, ResolveError>)
        requires
            old(self).wf(),
        ensures
            final(self).keeps(*old(self)),
            found_view(r) == path_result(
                old(self).tree@,
                old(self).input_options@,
                path@,
                is_main,
                is_browser,
            ),
    {
        let raw = Parts::parse(path);
        let dir_only = asks_for_directory(path, &raw);
        let p = Parts::new().applied(&raw);
        let subst = self.input_options.for_browser && !is_browser;
        match self.load_path(&p, dir_only, subst, is_main) {
            Ok(Some(h)) => Ok(Some(shown(h))),
            Ok(None) => Ok(None),
            Err(t) => Err(told(t)),
        }
    }
}

/// What a resolver answers does not depend on what it has kept: one that
/// knows nothing yet and one that has resolved before give the same answer.
pub proof fn kept_manifests_change_no_answer(
    cold: Resolver,
    warm: Resolver,
    context: Seq<char>,
    name: Seq<char>,
)
    requires
        cold.wf(),
        warm.wf(),
        cold.cache@.len() == 0,
        cold.tree@ == warm.tree@,
        cold.input_options@ == warm.input_options@,
    ensures
        cold.answer(context, name) == warm.answer(context, name),
{
}

/// A target with its place written out.
fn shown(h: Hit) -> (r: Resolved)
    ensures
        r@ == target_view(step_view(Ok(Some(h)))->Ok_0->Some_0),
{
    match h {
        Hit::Normal(p) => Resolved::Normal(p.render(true)),
        Hit::Ignore => Resolved::Ignore,
        Hit::External => Resolved::External,
    }
}

/// A fault with its place written out.
fn told(t: Trouble) -> (e: ResolveError)
    ensures
        e@ == fault_view(step_view(Err(t))->Err_0),
{
    match t {
        Trouble::Malformed(p, reason) => ResolveError::ManifestMalformed { path: p.render(true), reason },
        Trouble::Unreadable(p) => ResolveError::Io { path: p.render(true) },
    }
}

} // verus!
