use vstd::prelude::*;
use crate::resolver::{Resolved, ResolvedView};

verus! {

/// One file of the bundle.
#[derive(Debug, Clone, PartialEq, Eq)]
pub struct Module {
    /// The absolute path of the file.
    pub path: String,
    /// What is written before the body.
    pub source_prefix: String,
    /// The text of the module as it is written into the bundle.
    pub body: String,
    /// What is written after the body.
    pub source_suffix: String,
    /// The text of the file, where the body is no longer that text.
    pub original_source: Option<String>,
    /// What each specifier of the file resolves to.
    pub deps: Vec<(String, Resolved)>,
}

/// The files of a bundle, and the one it starts with.
#[derive(Debug, Clone, PartialEq, Eq)]
pub struct Graph {
    pub modules: Vec<Module>,
    pub entry: String,
}

/// A module as plain values.
pub struct ModuleView {
    pub path: Seq<char>,
    pub source_prefix: Seq<char>,
    pub body: Seq<char>,
    pub source_suffix: Seq<char>,
    pub original_source: Option<Seq<char>>,
    pub deps: Seq<(Seq<char>, ResolvedView)>,
}

/// A graph as plain values.
pub struct GraphView {
    pub modules: Seq<ModuleView>,
    pub entry: Seq<char>,
}

/// The deps of a module as plain values.
pub open spec fn deps_view(deps: Seq<(String, Resolved)>) -> Seq<(Seq<char>, ResolvedView)> {
    Seq::new(deps.len(), |i: int| (deps[i].0@, deps[i].1@))
}

impl View for Module {
    type V = ModuleView;

    open spec fn view(&self) -> ModuleView {
        ModuleView {
            path: self.path@,
            source_prefix: self.source_prefix@,
            body: self.body@,
            source_suffix: self.source_suffix@,
            original_source: match self.original_source {
                Some(s) => Some(s@),
                None => None,
            },
            deps: deps_view(self.deps@),
        }
    }
}

/// The modules of a graph as plain values.
pub open spec fn modules_view(modules: Seq<Module>) -> Seq<ModuleView> {
    Seq::new(modules.len(), |i: int| modules[i]@)
}

impl View for Graph {
    type V = GraphView;

    open spec fn view(&self) -> GraphView {
        GraphView { modules: modules_view(self.modules@), entry: self.entry@ }
    }
}

/// Whether one of the modules is the file `path`.
pub open spec fn has_module(modules: Seq<ModuleView>, path: Seq<char>) -> bool {
    exists|i: int| 0 <= i < modules.len() && (#[trigger] modules[i]).path == path
}

/// Whether every file that a module's specifier resolves to is a module too.
pub open spec fn closed(modules: Seq<ModuleView>) -> bool {
    forall|i: int, k: int|
        0 <= i < modules.len() && 0 <= k < modules[i].deps.len() ==> match (
        #[trigger] modules[i].deps[k]).1 {
            ResolvedView::Normal(p) => has_module(modules, p),
            _ => true,
        }
}

/// Whether no file is a module twice.
pub open spec fn distinct(modules: Seq<ModuleView>) -> bool {
    forall|i: int, j: int|
        0 <= i < j < modules.len() ==> (#[trigger] modules[i]).path != (#[trigger] modules[j]).path
}

/// Where the first module of the file `path` stands.
pub open spec fn position(modules: Seq<ModuleView>, path: Seq<char>) -> Option<int>
    decreases modules.len(),
{
    if modules.len() == 0 {
        None
    } else {
        match position(modules.drop_last(), path) {
            Some(i) => Some(i),
            None => if modules.last().path == path {
                Some(modules.len() - 1)
            } else {
                None
            },
        }
    }
}

/// The first module of a file stands where none before it is of that file.
pub proof fn position_is_first(modules: Seq<ModuleView>, path: Seq<char>, i: int)
    requires
        0 <= i < modules.len(),
        modules[i].path == path,
        forall|j: int| 0 <= j < i ==> (#[trigger] modules[j]).path != path,
    ensures
        position(modules, path) == Some(i),
    decreases modules.len(),
{
    if i == modules.len() - 1 {
        position_is_none(modules.drop_last(), path);
    } else {
        position_is_first(modules.drop_last(), path, i);
    }
}

/// A file that is no module has no first module.
pub proof fn position_is_none(modules: Seq<ModuleView>, path: Seq<char>)
    requires
        forall|j: int| 0 <= j < modules.len() ==> (#[trigger] modules[j]).path != path,
    ensures
        position(modules, path) is None,
    decreases modules.len(),
{
    if modules.len() > 0 {
        position_is_none(modules.drop_last(), path);
    }
}

/// A file that is a module has a first module.
pub proof fn position_finds(modules: Seq<ModuleView>, path: Seq<char>)
    requires
        has_module(modules, path),
    ensures
        position(modules, path) is Some,
        0 <= position(modules, path)->0 < modules.len(),
        modules[position(modules, path)->0].path == path,
    decreases modules.len(),
{
    let i = choose|i: int| 0 <= i < modules.len() && (#[trigger] modules[i]).path == path;
    if i < modules.len() - 1 {
        assert(modules.drop_last()[i].path == path);
        position_finds(modules.drop_last(), path);
    } else if has_module(modules.drop_last(), path) {
        position_finds(modules.drop_last(), path);
    } else {
        position_is_none(modules.drop_last(), path);
    }
}

/// In a graph that is closed, every file that a specifier resolves to has a
/// module.
pub proof fn closed_graph_names_modules(modules: Seq<ModuleView>, i: int, k: int)
    requires
        closed(modules),
        0 <= i < modules.len(),
        0 <= k < modules[i].deps.len(),
        modules[i].deps[k].1 is Normal,
    ensures
        position(modules, modules[i].deps[k].1->Normal_0) is Some,
{
    let to = modules[i].deps[k];
    position_finds(modules, to.1->Normal_0);
}

impl Graph {
    /// Where the first module of the file `path` stands, if there is one.
    pub fn position(&self, path: &str) -> (r: Option<usize>)
        ensures
            match r {
                Some(i) => i < self@.modules.len() && self@.modules[i as int].path == path@
                    && position(self@.modules, path@) == Some(i as int),
                None => !has_module(self@.modules, path@) && position(self@.modules, path@) is None,
            },
    {
        let wanted = path.to_owned();
        let mut i: usize = 0;
        while i < self.modules.len()
            invariant
                i <= self.modules@.len(),
                wanted@ == path@,
                forall|j: int| 0 <= j < i ==> (#[trigger] self@.modules[j]).path != path@,
            decreases self.modules@.len() - i,
        {
            if self.modules[i].path == wanted {
                proof {
                    position_is_first(self@.modules, path@, i as int);
                }
                return Some(i);
            }
            i += 1;
        }
        proof {
            position_is_none(self@.modules, path@);
        }
        None
    }
}

} // verus!
