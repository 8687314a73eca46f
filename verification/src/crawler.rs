use vstd::prelude::*;
use crate::graph::{closed, deps_view, distinct, has_module, Graph, Module, ModuleView};
use crate::model::Config;
use crate::resolver::{
    resolve_result,
    ErrorView,
    InputOptions,
    ResolveError,
    Resolved,
    ResolvedView,
    Resolver,
};
use crate::tree::{FileTree, Files};

verus! {

/// Whether one of `deps` is for the specifier `name`.
pub open spec fn has_dep(deps: Seq<(Seq<char>, ResolvedView)>, name: Seq<char>) -> bool {
    exists|k: int| 0 <= k < deps.len() && (#[trigger] deps[k]).0 == name
}

/// What the specifiers of the file `path` resolve to, each specifier once, in
/// the order in which they first stand; or the reason why the first of them
/// that fails does.
pub open spec fn deps_of(fs: Files, cfg: Config, path: Seq<char>, names: Seq<Seq<char>>) -> Result<
    Seq<(Seq<char>, ResolvedView)>,
    ErrorView,
>
    decreases names.len(),
{
    if names.len() == 0 {
        Ok(Seq::empty())
    } else {
        match deps_of(fs, cfg, path, names.drop_last()) {
            Err(e) => Err(e),
            Ok(deps) => if has_dep(deps, names.last()) {
                Ok(deps)
            } else {
                match resolve_result(fs, cfg, path, names.last()) {
                    Err(e) => Err(e),
                    Ok(r) => Ok(deps.push((names.last(), r))),
                }
            },
        }
    }
}

/// The files that wait, after those that `deps` resolve to have joined them:
/// each file once, and none that is a module already.
pub open spec fn enqueued(
    waiting: Seq<Seq<char>>,
    modules: Seq<ModuleView>,
    deps: Seq<(Seq<char>, ResolvedView)>,
) -> Seq<Seq<char>>
    decreases deps.len(),
{
    if deps.len() == 0 {
        waiting
    } else {
        let before = enqueued(waiting, modules, deps.drop_last());
        match deps.last().1 {
            ResolvedView::Normal(p) => if has_module(modules, p) || before.contains(p) {
                before
            } else {
                before.push(p)
            },
            _ => before,
        }
    }
}

/// The files that wait, without the file `path`.
pub open spec fn without(waiting: Seq<Seq<char>>, path: Seq<char>) -> Seq<Seq<char>>
    decreases waiting.len(),
{
    if waiting.len() == 0 {
        waiting
    } else if waiting.last() == path {
        without(waiting.drop_last(), path)
    } else {
        without(waiting.drop_last(), path).push(waiting.last())
    }
}

/// Leaving one file out keeps every other file that waits.
pub proof fn without_keeps(waiting: Seq<Seq<char>>, path: Seq<char>, other: Seq<char>)
    requires
        waiting.contains(other),
        other != path,
    ensures
        without(waiting, path).contains(other),
    decreases waiting.len(),
{
    let k = choose|k: int| 0 <= k < waiting.len() && waiting[k] == other;
    if k == waiting.len() - 1 {
        let w = without(waiting, path);
        assert(w[w.len() - 1] == other);
    } else {
        assert(waiting.drop_last()[k] == other);
        without_keeps(waiting.drop_last(), path, other);
        let inner = without(waiting.drop_last(), path);
        let j = choose|j: int| 0 <= j < inner.len() && inner[j] == other;
        if waiting.last() != path {
            assert(without(waiting, path)[j] == other);
        }
    }
}

/// Every file that waited still waits after more have joined.
pub proof fn enqueued_keeps(
    waiting: Seq<Seq<char>>,
    modules: Seq<ModuleView>,
    deps: Seq<(Seq<char>, ResolvedView)>,
    other: Seq<char>,
)
    requires
        waiting.contains(other),
    ensures
        enqueued(waiting, modules, deps).contains(other),
    decreases deps.len(),
{
    if deps.len() > 0 {
        enqueued_keeps(waiting, modules, deps.drop_last(), other);
        let before = enqueued(waiting, modules, deps.drop_last());
        let j = choose|j: int| 0 <= j < before.len() && before[j] == other;
        assert(enqueued(waiting, modules, deps)[j] == other);
    }
}

/// Every file that one of `deps` resolves to is a module or waits.
pub proof fn enqueued_covers(
    waiting: Seq<Seq<char>>,
    modules: Seq<ModuleView>,
    deps: Seq<(Seq<char>, ResolvedView)>,
    k: int,
)
    requires
        0 <= k < deps.len(),
        deps[k].1 is Normal,
    ensures
        has_module(modules, deps[k].1->Normal_0) || enqueued(waiting, modules, deps).contains(
            deps[k].1->Normal_0,
        ),
    decreases deps.len(),
{
    let p = deps[k].1->Normal_0;
    let before = enqueued(waiting, modules, deps.drop_last());
    let after = enqueued(waiting, modules, deps);
    if k == deps.len() - 1 {
        if !has_module(modules, p) {
            if before.contains(p) {
            } else {
                assert(after[after.len() - 1] == p);
            }
        }
    } else {
        enqueued_covers(waiting, modules, deps.drop_last(), k);
        if !has_module(modules, p) {
            let j = choose|j: int| 0 <= j < before.len() && before[j] == p;
            assert(after[j] == p);
        }
    }
}

/// Each of the deps of a file is what its specifier resolves to.
pub proof fn deps_are_resolved(
    fs: Files,
    cfg: Config,
    path: Seq<char>,
    names: Seq<Seq<char>>,
    k: int,
)
    requires
        deps_of(fs, cfg, path, names) is Ok,
        0 <= k < deps_of(fs, cfg, path, names)->Ok_0.len(),
    ensures
        resolve_result(fs, cfg, path, deps_of(fs, cfg, path, names)->Ok_0[k].0) == Ok::<
            _,
            ErrorView,
        >(deps_of(fs, cfg, path, names)->Ok_0[k].1),
    decreases names.len(),
{
    if names.len() > 0 {
        let before = deps_of(fs, cfg, path, names.drop_last())->Ok_0;
        if k < before.len() {
            deps_are_resolved(fs, cfg, path, names.drop_last(), k);
        }
    }
}

/// Specifiers that fail up to some point fail as a whole, for the same
/// reason.
pub proof fn deps_fail_on(fs: Files, cfg: Config, path: Seq<char>, names: Seq<Seq<char>>, n: int)
    requires
        0 <= n <= names.len(),
        deps_of(fs, cfg, path, names.take(n)) is Err,
    ensures
        deps_of(fs, cfg, path, names) == deps_of(fs, cfg, path, names.take(n)),
    decreases names.len() - n,
{
    if n == names.len() {
        assert(names.take(n) =~= names);
    } else {
        assert(names.take(n + 1).drop_last() =~= names.take(n));
        deps_fail_on(fs, cfg, path, names, n + 1);
    }
}

/// The texts of a list of names.
pub open spec fn names_view(names: Seq<String>) -> Seq<Seq<char>> {
    Seq::new(names.len(), |i: int| names[i]@)
}

/// The state of a crawl: the modules found so far, and the files that are
/// known to belong to the bundle and have not been read yet.
pub struct Crawler<'a> {
    pub resolver: Resolver<'a>,
    pub graph: Graph,
    pub waiting: Vec<String>,
}

impl<'a> Crawler<'a> {
    /// The file system that the crawl reads.
    pub open spec fn fs(&self) -> Files {
        self.resolver.tree@
    }

    /// The options of the crawl.
    pub open spec fn cfg(&self) -> Config {
        self.resolver.input_options@
    }

    /// The modules found so far.
    pub open spec fn modules(&self) -> Seq<ModuleView> {
        self.graph@.modules
    }

    /// The files that wait to be read.
    pub open spec fn pending(&self) -> Seq<Seq<char>> {
        names_view(self.waiting@)
    }

    /// Whether every file that a module's specifier resolves to is a module or
    /// waits to become one.
    pub open spec fn accounted(&self) -> bool {
        forall|i: int, k: int|
            0 <= i < self.modules().len() && 0 <= k < self.modules()[i].deps.len() ==> match (
            #[trigger] self.modules()[i].deps[k]).1 {
                ResolvedView::Normal(p) => has_module(self.modules(), p) || self.pending().contains(
                    p,
                ),
                _ => true,
            }
    }

    /// Whether the deps of every module are what its specifiers resolve to.
    pub open spec fn resolved(&self) -> bool {
        forall|i: int, k: int|
            0 <= i < self.modules().len() && 0 <= k < self.modules()[i].deps.len()
                ==> resolve_result(
                self.fs(),
                self.cfg(),
                self.modules()[i].path,
                (#[trigger] self.modules()[i].deps[k]).0,
            ) == Ok::<_, ErrorView>(self.modules()[i].deps[k].1)
    }

    /// Whether the crawl is sound: its resolver is, no file is a module twice,
    /// what the modules need is a module or waits, the deps are what the specifiers
    /// resolve to, and the entry is a module or waits.
    pub open spec fn wf(&self) -> bool {
        &&& self.resolver.wf()
        &&& distinct(self.modules())
        &&& self.accounted()
        &&& self.resolved()
        &&& has_module(self.modules(), self.graph@.entry) || self.pending().contains(
            self.graph@.entry,
        )
    }

    /// A crawl that starts at the file `entry` and has read nothing yet.
    pub fn new(input_options: InputOptions, tree: &'a FileTree, entry: &str) -> (c: Crawler<'a>)
        ensures
            c.wf(),
            c.fs() == tree@,
            c.cfg() == input_options@,
            c.modules().len() == 0,
            c.pending() == seq![entry@],
            c.graph@.entry == entry@,
    {
        let mut waiting: Vec<String> = Vec::new();
        waiting.push(entry.to_owned());
        let c = Crawler {
            resolver: Resolver::new(input_options, tree),
            graph: Graph { modules: Vec::new(), entry: entry.to_owned() },
            waiting,
        };
        assert(c.pending() =~= seq![entry@]);
        assert(c.pending()[0] == entry@);
        assert(c.modules() =~= Seq::empty());
        c
    }

    /// A file that waits to be read, if any does.
    pub fn next(&self) -> (r: Option<&String>)
        ensures
            match r {
                Some(p) => self.pending().len() > 0 && p@ == self.pending()[0],
                None => self.pending().len() == 0,
            },
    {
        if self.waiting.len() > 0 {
            Some(&self.waiting[0])
        } else {
            None
        }
    }

    /// Whether the file `path` waits.
    fn waits(waiting: &Vec<String>, path: &String) -> (b: bool)
        ensures
            b == names_view(waiting@).contains(path@),
    {
        let mut i: usize = 0;
        while i < waiting.len()
            invariant
                i <= waiting@.len(),
                forall|j: int| 0 <= j < i ==> names_view(waiting@)[j] != path@,
            decreases waiting@.len() - i,
        {
            if waiting[i] == *path {
                assert(names_view(waiting@)[i as int] == path@);
                return true;
            }
            i += 1;
        }
        false
    }

    /// What the specifiers `names` of the file `path` resolve to.
    fn resolve_all(&mut self, path: &str, names: &Vec<String>) -> (r: Result<
        Vec<(String, Resolved)>,
        ResolveError,
    >)
        requires
            old(self).wf(),
        ensures
            final(self).wf(),
            final(self).fs() == old(self).fs(),
            final(self).cfg() == old(self).cfg(),
            final(self).graph == old(self).graph,
            final(self).waiting == old(self).waiting,
            match r {
                Ok(deps) => deps_of(old(self).fs(), old(self).cfg(), path@, names_view(names@))
                    == Ok::<_, ErrorView>(deps_view(deps@)),
                Err(e) => deps_of(old(self).fs(), old(self).cfg(), path@, names_view(names@))
                    == Err::<Seq<(Seq<char>, ResolvedView)>, _>(e@),
            },
    {
        let mut deps: Vec<(String, Resolved)> = Vec::new();
        let mut i: usize = 0;
        assert(names_view(names@).take(0) =~= Seq::empty());
        assert(deps_view(deps@) =~= Seq::empty());
        while i < names.len()
            invariant
                i <= names@.len(),
                self.wf(),
                self.fs() == old(self).fs(),
                self.cfg() == old(self).cfg(),
                self.graph == old(self).graph,
                self.waiting == old(self).waiting,
                deps_of(self.fs(), self.cfg(), path@, names_view(names@).take(i as int)) == Ok::<
                    _,
                    ErrorView,
                >(deps_view(deps@)),
            decreases names@.len() - i,
        {
            let ghost all = names_view(names@);
            proof {
                assert(all.take(i + 1).drop_last() =~= all.take(i as int));
                assert(all.take(i + 1).last() == names@[i as int]@);
            }
            let mut known = false;
            let mut k: usize = 0;
            while k < deps.len()
                invariant
                    k <= deps@.len(),
                    i < names@.len(),
                    !known ==> forall|j: int|
                        0 <= j < k ==> (#[trigger] deps_view(deps@)[j]).0 != names@[i as int]@,
                    known ==> has_dep(deps_view(deps@), names@[i as int]@),
                decreases deps@.len() - k,
            {
                if deps[k].0 == names[i] {
                    assert(deps_view(deps@)[k as int].0 == names@[i as int]@);
                    known = true;
                }
                k += 1;
            }
            if !known {
                let ghost before = deps_view(deps@);
                match self.resolver.resolve(path, names[i].as_str()) {
                    Err(e) => {
                        proof {
                            deps_fail_on(self.fs(), self.cfg(), path@, all, i + 1);
                        }
                        return Err(e);
                    },
                    Ok(r) => {
                        deps.push((names[i].clone(), r));
                        assert(deps_view(deps@) =~= before.push((names@[i as int]@, r@)));
                    },
                }
            }
            i += 1;
        }
        assert(names_view(names@).take(names@.len() as int) =~= names_view(names@));
        Ok(deps)
    }

    /// Takes in the file `path`, read and scanned for its specifiers `names`.
    /// A file that is a module already is left as it is and `false` comes
    /// back. Else its specifiers are resolved; if one fails, nothing changes.
    /// If none fails the file becomes a module, no longer waits, and the files
    /// that its specifiers resolve to wait in its place.
    pub fn visit(
        &mut self,
        path: &str,
        source_prefix: String,
        body: String,
        source_suffix: String,
        original_source: Option<String>,
        names: &Vec<String>,
    ) -> (r: Result<bool, ResolveError>)
        requires
            old(self).wf(),
        ensures
            final(self).wf(),
            final(self).fs() == old(self).fs(),
            final(self).cfg() == old(self).cfg(),
            final(self).graph@.entry == old(self).graph@.entry,
            match r {
                Ok(false) => has_module(old(self).modules(), path@) && final(self).modules() == old(
                    self,
                ).modules() && final(self).pending() == old(self).pending(),
                Ok(true) => {
                    let deps = deps_of(old(self).fs(), old(self).cfg(), path@, names_view(names@));
                    &&& !has_module(old(self).modules(), path@)
                    &&& deps is Ok
                    &&& final(self).modules() == old(self).modules().push(
                        ModuleView {
                            path: path@,
                            source_prefix: source_prefix@,
                            body: body@,
                            source_suffix: source_suffix@,
                            original_source: match original_source {
                                Some(t) => Some(t@),
                                None => None,
                            },
                            deps: deps->Ok_0,
                        },
                    )
                    &&& final(self).pending() == enqueued(
                        without(old(self).pending(), path@),
                        final(self).modules(),
                        deps->Ok_0,
                    )
                },
                Err(e) => !has_module(old(self).modules(), path@) && deps_of(
                    old(self).fs(),
                    old(self).cfg(),
                    path@,
                    names_view(names@),
                ) == Err::<Seq<(Seq<char>, ResolvedView)>, _>(e@) && final(self).modules() == old(
                    self,
                ).modules() && final(self).pending() == old(self).pending(),
            },
    {
        if self.graph.position(path).is_some() {
            return Ok(false);
        }
        let deps = match self.resolve_all(path, names) {
            Err(e) => {
                return Err(e);
            },
            Ok(deps) => deps,
        };
        let ghost fs = self.fs();
        let ghost cfg = self.cfg();
        let ghost before = self.modules();
        let ghost waited = self.pending();
        let ghost found = deps_view(deps@);
        // the file no longer waits
        let wanted = path.to_owned();
        let mut waiting: Vec<String> = Vec::new();
        let mut i: usize = 0;
        assert(waited.take(0) =~= Seq::empty());
        assert(names_view(waiting@) =~= Seq::empty());
        while i < self.waiting.len()
            invariant
                i <= self.waiting@.len(),
                wanted@ == path@,
                waited == names_view(self.waiting@),
                names_view(waiting@) == without(waited.take(i as int), path@),
            decreases self.waiting@.len() - i,
        {
            proof {
                assert(waited.take(i + 1).drop_last() =~= waited.take(i as int));
                assert(waited.take(i + 1).last() == self.waiting@[i as int]@);
            }
            if self.waiting[i] != wanted {
                let ghost sofar = names_view(waiting@);
                waiting.push(self.waiting[i].clone());
                assert(names_view(waiting@) =~= sofar.push(self.waiting@[i as int]@));
            }
            i += 1;
        }
        assert(waited.take(waited.len() as int) =~= waited);
        // the files it needs wait in its place
        let module = Module { path: wanted, source_prefix, body, source_suffix, original_source, deps };
        self.graph.modules.push(module);
        let ghost after = self.modules();
        assert(after =~= before.push(module@));
        let ghost start = names_view(waiting@);
        let n = self.graph.modules.len() - 1;
        let mut k: usize = 0;
        assert(found.take(0) =~= Seq::empty());
        while k < self.graph.modules[n].deps.len()
            invariant
                n == self.graph.modules@.len() - 1,
                self.modules() == after,
                after[n as int].deps == found,
                deps_view(self.graph.modules@[n as int].deps@) == found,
                k <= found.len(),
                names_view(waiting@) == enqueued(start, after, found.take(k as int)),
            decreases found.len() - k,
        {
            proof {
                assert(found.take(k + 1).drop_last() =~= found.take(k as int));
                assert(found.take(k + 1).last() == found[k as int]);
                assert(found[k as int].1 == self.graph.modules@[n as int].deps@[k as int].1@);
            }
            match &self.graph.modules[n].deps[k].1 {
                Resolved::Normal(p) => {
                    if self.graph.position(p.as_str()).is_none() && !Self::waits(&waiting, p) {
                        let ghost sofar = names_view(waiting@);
                        waiting.push(p.clone());
                        assert(names_view(waiting@) =~= sofar.push(p@));
                    }
                },
                _ => {},
            }
            k += 1;
        }
        assert(found.take(found.len() as int) =~= found);
        self.waiting = waiting;
        proof {
            let now = self.pending();
            assert(now == enqueued(without(waited, path@), after, found));
            // no file is a module twice
            assert(distinct(after));
            // what the old modules need is still accounted for
            assert forall|i: int, k: int|
                0 <= i < after.len() && 0 <= k < after[i].deps.len() implies match (
            #[trigger] after[i].deps[k]).1 {
                ResolvedView::Normal(p) => has_module(after, p) || now.contains(p),
                _ => true,
            } by {
                match after[i].deps[k].1 {
                    ResolvedView::Normal(p) => {
                        if i < before.len() {
                            assert(after[i] == before[i]);
                            assert(has_module(before, p) || waited.contains(p));
                            if has_module(before, p) {
                                let j = choose|j: int| 0 <= j < before.len() && before[j].path == p;
                                assert(after[j].path == p);
                            } else if p == path@ {
                                assert(after[n as int].path == p);
                            } else {
                                without_keeps(waited, path@, p);
                                enqueued_keeps(without(waited, path@), after, found, p);
                            }
                        } else {
                            enqueued_covers(without(waited, path@), after, found, k);
                        }
                    },
                    _ => {},
                }
            }
            assert forall|i: int, k: int|
                0 <= i < after.len() && 0 <= k < after[i].deps.len() implies resolve_result(
                fs,
                cfg,
                after[i].path,
                (#[trigger] after[i].deps[k]).0,
            ) == Ok::<_, ErrorView>(after[i].deps[k].1) by {
                if i < before.len() {
                    assert(after[i] == before[i]);
                } else {
                    deps_are_resolved(fs, cfg, path@, names_view(names@), k);
                }
            }
            let entry = self.graph@.entry;
            if has_module(before, entry) {
                let j = choose|j: int| 0 <= j < before.len() && before[j].path == entry;
                assert(after[j].path == entry);
            } else if entry == path@ {
                assert(after[n as int].path == entry);
            } else {
                without_keeps(waited, path@, entry);
                enqueued_keeps(without(waited, path@), after, found, entry);
            }
        }
        Ok(true)
    }

    /// The graph of a complete crawl; nothing while a file waits.
    pub fn finish(self) -> (r: Option<Graph>)
        requires
            self.wf(),
        ensures
            match r {
                Some(g) => self.pending().len() == 0 && g == self.graph && closed(g@.modules)
                    && distinct(g@.modules) && has_module(g@.modules, g@.entry),
                None => self.pending().len() > 0,
            },
    {
        if self.waiting.len() == 0 {
            proof {
                complete_crawl_is_closed(self);
            }
            Some(self.graph)
        } else {
            None
        }
    }

    /// Whether the crawl is complete: no file waits.
    pub fn is_done(&self) -> (b: bool)
        ensures
            b == (self.pending().len() == 0),
    {
        self.waiting.len() == 0
    }
}

/// When no file waits any more, every file that a module's specifier
/// resolves to is a module of the graph.
pub proof fn complete_crawl_is_closed(c: Crawler)
    requires
        c.wf(),
        c.pending().len() == 0,
    ensures
        closed(c.modules()),
{
    assert forall|i: int, k: int|
        0 <= i < c.modules().len() && 0 <= k < c.modules()[i].deps.len() implies match (
    #[trigger] c.modules()[i].deps[k]).1 {
        ResolvedView::Normal(p) => has_module(c.modules(), p),
        _ => true,
    } by {
        match c.modules()[i].deps[k].1 {
            ResolvedView::Normal(p) => {
                assert(has_module(c.modules(), p) || c.pending().contains(p));
            },
            _ => {},
        }
    }
}

} // verus!
