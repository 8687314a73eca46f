use vstd::prelude::*;
use crate::base64::{base64_encode, base64_text, base64_text_shape};
use crate::graph::{deps_view, position, Graph, ModuleView};
use crate::json::{json_quote, quote};
use crate::lines::{count_of, count_of_absent, count_of_concat, line_count};
use crate::mapping::{mappings, write_mappings};
use crate::order::{deps_in_order, emission_order, indices_view, key_order, keys_of};
use crate::path::{pieces, render, Parts};
use crate::model::parent_of;
use crate::resolver::{Resolved, ResolvedView};
use crate::sheet::{
    blank,
    consistent,
    finished,
    finished_sheet_maps_each_line,
    moved,
    put,
    put_keeps,
    Page,
    Sheet,
};
use crate::text::{decimal, decimal_text, holds_line_feed, one_line};
use crate::tree::location;

verus! {

/// The start of every bundle: the table of modules, and the function that
/// runs a module once and hands out what it exports. A module's deps say for
/// each specifier which module it is, `false` for an empty module, or `true`
/// for one that is looked up when the bundle runs.
pub const HEAD: &'static str =
    "(function() {\n  var modules = [], cache = [], empty = {}\n  function load(id) {\n    if (!cache[id]) {\n      cache[id] = {exports: {}}\n      modules[id][0](cache[id], cache[id].exports, function(name) {\n        var deps = modules[id][1]\n        if (!Object.prototype.hasOwnProperty.call(deps, name)) throw new Error('Cannot find module ' + name)\n        var to = deps[name]\n        if (to === false) return empty\n        if (to === true) return require(name)\n        return load(to)\n      })\n    }\n    return cache[id].exports\n  }\n";

/// Where the source map goes.
#[derive(Debug, Clone, PartialEq, Eq)]
pub enum SourceMapOutput {
    /// Nowhere.
    Suppressed,
    /// Into the bundle, behind its last line.
    Inline,
    /// Into a file of this name beside the bundle.
    File(String),
}

/// Why a bundle cannot be written.
#[derive(Debug, Clone, Copy, PartialEq, Eq, Structural)]
pub enum WriteError {
    /// The entry is no module of the graph.
    NoEntry,
    /// A text cannot be written as JSON.
    Unquotable,
    /// The name of the map's file holds a line feed.
    MapName,
}

/// Where the source map goes, as plain values.
pub enum SourceMapOutputView {
    Suppressed,
    Inline,
    File(Seq<char>),
}

impl View for SourceMapOutput {
    type V = SourceMapOutputView;

    open spec fn view(&self) -> SourceMapOutputView {
        match self {
            SourceMapOutput::Suppressed => SourceMapOutputView::Suppressed,
            SourceMapOutput::Inline => SourceMapOutputView::Inline,
            SourceMapOutput::File(name) => SourceMapOutputView::File(name@),
        }
    }
}

/// How a module's deps table names what a specifier resolved to.
pub open spec fn target_text(modules: Seq<ModuleView>, r: ResolvedView) -> Seq<char> {
    match r {
        ResolvedView::Normal(p) => match position(modules, p) {
            Some(j) => decimal(j as nat),
            None => "true"@,
        },
        ResolvedView::Ignore => "false"@,
        ResolvedView::External => "true"@,
    }
}

/// One entry of a deps table.
pub open spec fn dep_entry(modules: Seq<ModuleView>, dep: (Seq<char>, ResolvedView)) -> Option<
    Seq<char>,
> {
    match json_quote(dep.0) {
        Some(q) => Some(q + ": "@ + target_text(modules, dep.1)),
        None => None,
    }
}

/// The first `k` entries of a deps table, in the order `sorted`.
pub open spec fn deps_text(
    modules: Seq<ModuleView>,
    deps: Seq<(Seq<char>, ResolvedView)>,
    sorted: Seq<int>,
    k: int,
) -> Option<Seq<char>>
    decreases k,
{
    if k <= 0 {
        Some(Seq::empty())
    } else {
        match deps_text(modules, deps, sorted, k - 1) {
            None => None,
            Some(before) => match dep_entry(modules, deps[sorted[k - 1]]) {
                None => None,
                Some(e) => Some(
                    if k == 1 {
                        e
                    } else {
                        before + ", "@ + e
                    },
                ),
            },
        }
    }
}

/// The deps table of a module.
pub open spec fn deps_table(modules: Seq<ModuleView>, m: ModuleView) -> Option<Seq<char>> {
    deps_text(modules, m.deps, key_order(keys_of(m.deps), m.deps.len() as int), m.deps.len() as int)
}

/// Whether a text needs no line feed behind it: it is empty or ends in one.
pub open spec fn ends_line(s: Seq<char>) -> bool {
    s.len() == 0 || s.last() == '\n'
}

/// The sheet with a text and, where the text is not empty, a line feed.
pub open spec fn put_lines(s: Sheet, piece: Seq<char>) -> Sheet {
    if piece.len() > 0 {
        put(put(s, piece, false), "\n"@, false)
    } else {
        s
    }
}

/// The sheet with the block of the module `m` more, which is the `source`th
/// that is written and the `id`th of the graph.
pub open spec fn module_block(s: Sheet, m: ModuleView, source: int, id: int, table: Seq<char>) -> Sheet {
    let opened = put(
        put(put(moved(s, source), "  modules["@, false), decimal(id as nat), false),
        "] = [function(module, exports, require) {\n"@,
        false,
    );
    let body = put(put_lines(opened, m.source_prefix), m.body, true);
    let ended = if ends_line(m.body) {
        body
    } else {
        put(body, "\n"@, false)
    };
    put(put(put(put_lines(ended, m.source_suffix), "  }, {"@, false), table, false), "}]\n"@, false)
}

/// The sheet with the blocks of the first `n` modules of `order` more.
pub open spec fn blocks(s: Sheet, modules: Seq<ModuleView>, order: Seq<int>, n: int) -> Option<Sheet>
    decreases n,
{
    if n <= 0 {
        Some(s)
    } else {
        match blocks(s, modules, order, n - 1) {
            None => None,
            Some(before) => match deps_table(modules, modules[order[n - 1]]) {
                None => None,
                Some(table) => Some(
                    module_block(before, modules[order[n - 1]], n - 1, order[n - 1], table),
                ),
            },
        }
    }
}

/// The code of the bundle of a graph, with the origin of each line: the head,
/// the blocks of the modules in the order in which they are written, and the
/// call that runs the entry. Nothing where a specifier cannot be written.
pub open spec fn code_sheet(modules: Seq<ModuleView>, entry: Seq<char>) -> Option<Sheet> {
    let order = emission_order(modules, entry);
    match blocks(put(blank(), HEAD@, false), modules, order, order.len() as int) {
        None => None,
        Some(s) => Some(
            finished(
                put(
                    put(put(s, "  load("@, false), decimal(position(modules, entry)->0 as nat), false),
                    ")\n})()\n"@,
                    false,
                ),
            ),
        ),
    }
}

/// How many pieces two paths share at their start.
pub open spec fn common(a: Seq<Seq<char>>, b: Seq<Seq<char>>) -> int
    decreases a.len(),
{
    if a.len() == 0 || b.len() == 0 || a[0] != b[0] {
        0
    } else {
        1 + common(a.drop_first(), b.drop_first())
    }
}

/// The path that leads from the directory `dir` to `path`: up out of what
/// they do not share, then down.
pub open spec fn relative(path: Seq<Seq<char>>, dir: Seq<Seq<char>>) -> Seq<Seq<char>> {
    Seq::new((dir.len() - common(path, dir)) as nat, |i: int| ".."@) + path.skip(common(path, dir))
}

/// The name of the file that the path `output` names.
pub open spec fn file_name(output: Seq<char>) -> Seq<char> {
    if pieces(output).len() > 0 {
        pieces(output).last()
    } else {
        Seq::empty()
    }
}

/// The text that a source map holds for a module.
pub open spec fn content_of(m: ModuleView) -> Seq<char> {
    match m.original_source {
        Some(t) => t,
        None => m.body,
    }
}

/// The sources of the first `n` modules of `order`, each as JSON, with commas
/// between them: the paths as seen from `dir`.
pub open spec fn sources_text(
    modules: Seq<ModuleView>,
    order: Seq<int>,
    dir: Seq<Seq<char>>,
    n: int,
) -> Option<Seq<char>>
    decreases n,
{
    if n <= 0 {
        Some(Seq::empty())
    } else {
        match sources_text(modules, order, dir, n - 1) {
            None => None,
            Some(before) => match json_quote(
                render(false, relative(location(modules[order[n - 1]].path), dir)),
            ) {
                None => None,
                Some(q) => Some(
                    if n == 1 {
                        q
                    } else {
                        before + ","@ + q
                    },
                ),
            },
        }
    }
}

/// The texts of the first `n` modules of `order`, each as JSON, with commas
/// between them.
pub open spec fn contents_text(modules: Seq<ModuleView>, order: Seq<int>, n: int) -> Option<
    Seq<char>,
>
    decreases n,
{
    if n <= 0 {
        Some(Seq::empty())
    } else {
        match contents_text(modules, order, n - 1) {
            None => None,
            Some(before) => match json_quote(content_of(modules[order[n - 1]])) {
                None => None,
                Some(q) => Some(
                    if n == 1 {
                        q
                    } else {
                        before + ","@ + q
                    },
                ),
            },
        }
    }
}

/// The source map of a bundle that is written to `output` and whose lines
/// come from `origins`.
pub open spec fn map_text(
    modules: Seq<ModuleView>,
    entry: Seq<char>,
    output: Seq<char>,
    origins: Seq<(int, int)>,
) -> Option<Seq<char>> {
    let order = emission_order(modules, entry);
    let dir = parent_of(location(output));
    match json_quote(file_name(output)) {
        None => None,
        Some(file) => match sources_text(modules, order, dir, order.len() as int) {
            None => None,
            Some(sources) => match contents_text(modules, order, order.len() as int) {
                None => None,
                Some(contents) => Some(
                    "{\"version\":3,\"file\":"@ + file + ",\"sources\":["@
                        + sources + "],\"sourcesContent\":["@ + contents
                        + "],\"names\":[],\"mappings\":\""@ + mappings(origins) + "\"}"@,
                ),
            },
        },
    }
}

/// The source map of the bundle of a graph.
pub open spec fn source_map(modules: Seq<ModuleView>, entry: Seq<char>, output: Seq<char>) -> Result<
    Seq<char>,
    WriteError,
> {
    if position(modules, entry) is None {
        Err(WriteError::NoEntry)
    } else {
        match code_sheet(modules, entry) {
            None => Err(WriteError::Unquotable),
            Some(sheet) => match map_text(modules, entry, output, sheet.origins) {
                None => Err(WriteError::Unquotable),
                Some(map) => Ok(map),
            },
        }
    }
}

/// The comment that ends a bundle and says where its source map is.
pub open spec fn map_comment(
    modules: Seq<ModuleView>,
    entry: Seq<char>,
    output: Seq<char>,
    to: SourceMapOutputView,
) -> Result<Seq<char>, WriteError> {
    match to {
        SourceMapOutputView::Suppressed => Ok(Seq::empty()),
        SourceMapOutputView::File(name) => if one_line(name) {
            Ok("//# sourceMappingURL="@ + name)
        } else {
            Err(WriteError::MapName)
        },
        SourceMapOutputView::Inline => match source_map(modules, entry, output) {
            Err(e) => Err(e),
            Ok(map) => Ok(
                "//# sourceMappingURL=data:application/json;base64,"@ + base64_text(
                    vstd::utf8::encode_utf8(map),
                ),
            ),
        },
    }
}

/// The bundle of a graph.
pub open spec fn bundle(
    modules: Seq<ModuleView>,
    entry: Seq<char>,
    output: Seq<char>,
    to: SourceMapOutputView,
) -> Result<Seq<char>, WriteError> {
    if position(modules, entry) is None {
        Err(WriteError::NoEntry)
    } else {
        match code_sheet(modules, entry) {
            None => Err(WriteError::Unquotable),
            Some(sheet) => match map_comment(modules, entry, output, to) {
                Err(e) => Err(e),
                Ok(comment) => Ok(sheet.text + comment),
            },
        }
    }
}

/// The blocks of modules keep a sheet consistent.
pub proof fn blocks_keep(s: Sheet, modules: Seq<ModuleView>, order: Seq<int>, n: int)
    requires
        consistent(s),
        blocks(s, modules, order, n) is Some,
    ensures
        consistent(blocks(s, modules, order, n)->0),
    decreases n,
{
    if n > 0 {
        blocks_keep(s, modules, order, n - 1);
        let before = blocks(s, modules, order, n - 1)->0;
        let m = modules[order[n - 1]];
        let table = deps_table(modules, m)->0;
        module_block_keeps(before, m, n - 1, order[n - 1], table);
    }
}

/// A text and its line feed keep a sheet consistent.
pub proof fn put_lines_keeps(s: Sheet, piece: Seq<char>)
    requires
        consistent(s),
    ensures
        consistent(put_lines(s, piece)),
{
    put_keeps(s, piece, false);
    put_keeps(put(s, piece, false), "\n"@, false);
}

/// The block of a module keeps a sheet consistent.
pub proof fn module_block_keeps(s: Sheet, m: ModuleView, source: int, id: int, table: Seq<char>)
    requires
        consistent(s),
    ensures
        consistent(module_block(s, m, source, id, table)),
{
    let s0 = moved(s, source);
    let s1 = put(s0, "  modules["@, false);
    put_keeps(s0, "  modules["@, false);
    let s2 = put(s1, decimal(id as nat), false);
    put_keeps(s1, decimal(id as nat), false);
    let opened = put(s2, "] = [function(module, exports, require) {\n"@, false);
    put_keeps(s2, "] = [function(module, exports, require) {\n"@, false);
    put_lines_keeps(opened, m.source_prefix);
    let s3 = put_lines(opened, m.source_prefix);
    let body = put(s3, m.body, true);
    put_keeps(s3, m.body, true);
    put_keeps(body, "\n"@, false);
    let ended = if ends_line(m.body) {
        body
    } else {
        put(body, "\n"@, false)
    };
    put_lines_keeps(ended, m.source_suffix);
    let s4 = put_lines(ended, m.source_suffix);
    put_keeps(s4, "  }, {"@, false);
    let s5 = put(s4, "  }, {"@, false);
    put_keeps(s5, table, false);
    let s6 = put(s5, table, false);
    put_keeps(s6, "}]\n"@, false);
}

/// The code of a bundle has one origin for each of its lines, and its
/// mappings one semicolon less.
pub proof fn code_maps_each_line(modules: Seq<ModuleView>, entry: Seq<char>)
    requires
        code_sheet(modules, entry) is Some,
    ensures
        code_sheet(modules, entry)->0.origins.len() == line_count(code_sheet(modules, entry)->0.text),
        count_of(mappings(code_sheet(modules, entry)->0.origins), ';') + 1 == line_count(
            code_sheet(modules, entry)->0.text,
        ),
{
    let order = emission_order(modules, entry);
    let start = put(blank(), HEAD@, false);
    put_keeps(blank(), HEAD@, false);
    blocks_keep(start, modules, order, order.len() as int);
    let s = blocks(start, modules, order, order.len() as int)->0;
    put_keeps(s, "  load("@, false);
    let s1 = put(s, "  load("@, false);
    put_keeps(s1, decimal(position(modules, entry)->0 as nat), false);
    let s2 = put(s1, decimal(position(modules, entry)->0 as nat), false);
    put_keeps(s2, ")\n})()\n"@, false);
    let s3 = put(s2, ")\n})()\n"@, false);
    finished_sheet_maps_each_line(s3);
}

/// The comment that ends a bundle holds no line feed.
pub proof fn map_comment_is_one_line(
    modules: Seq<ModuleView>,
    entry: Seq<char>,
    output: Seq<char>,
    to: SourceMapOutputView,
)
    requires
        map_comment(modules, entry, output, to) is Ok,
    ensures
        one_line(map_comment(modules, entry, output, to)->Ok_0),
{
    reveal_strlit("//# sourceMappingURL=");
    reveal_strlit("//# sourceMappingURL=data:application/json;base64,");
    match to {
        SourceMapOutputView::Suppressed => {},
        SourceMapOutputView::File(name) => {},
        SourceMapOutputView::Inline => {
            let map = source_map(modules, entry, output)->Ok_0;
            base64_text_shape(vstd::utf8::encode_utf8(map));
            assert('\n' as int == 10);
            assert('=' as int == 61);
            assert('+' as int == 43);
            assert('/' as int == 47);
        },
    }
}

/// The mappings of a bundle hold as many semicolons as the bundle has lines,
/// less one.
pub proof fn bundle_lines_match_mappings(
    modules: Seq<ModuleView>,
    entry: Seq<char>,
    output: Seq<char>,
    to: SourceMapOutputView,
)
    requires
        bundle(modules, entry, output, to) is Ok,
    ensures
        code_sheet(modules, entry) is Some,
        count_of(mappings(code_sheet(modules, entry)->0.origins), ';') + 1 == line_count(
            bundle(modules, entry, output, to)->Ok_0,
        ),
{
    code_maps_each_line(modules, entry);
    map_comment_is_one_line(modules, entry, output, to);
    let code = code_sheet(modules, entry)->0.text;
    let comment = map_comment(modules, entry, output, to)->Ok_0;
    count_of_absent(comment, '\n');
    count_of_concat(code, comment, '\n');
}

/// A text or the reason why there is none, as plain values.
pub open spec fn text_result(r: Result<String, WriteError>) -> Result<Seq<char>, WriteError> {
    match r {
        Ok(t) => Ok(t@),
        Err(e) => Err(e),
    }
}

/// A text, if there is one, as a plain value.
pub open spec fn text_option(r: Option<String>) -> Option<Seq<char>> {
    match r {
        Some(t) => Some(t@),
        None => None,
    }
}

/// The path that leads from the directory `dir` to `path`.
pub fn relative_to(path: &Parts, dir: &Parts) -> (r: Parts)
    ensures
        r@ == relative(path@, dir@),
{
    let mut k: usize = 0;
    assert(path@.skip(0) =~= path@);
    assert(dir@.skip(0) =~= dir@);
    while k < path.len() && k < dir.len() && *path.get(k) == *dir.get(k)
        invariant
            k <= path@.len(),
            k <= dir@.len(),
            common(path@, dir@) == k + common(path@.skip(k as int), dir@.skip(k as int)),
        decreases path@.len() - k,
    {
        proof {
            assert(path@.skip(k as int)[0] == path@[k as int]);
            assert(dir@.skip(k as int)[0] == dir@[k as int]);
            assert(path@.skip(k as int).drop_first() =~= path@.skip(k + 1));
            assert(dir@.skip(k as int).drop_first() =~= dir@.skip(k + 1));
        }
        k += 1;
    }
    proof {
        if k < path@.len() && k < dir@.len() {
            assert(path@.skip(k as int)[0] == path@[k as int]);
            assert(dir@.skip(k as int)[0] == dir@[k as int]);
        }
    }
    let mut r = Parts::new();
    let mut i: usize = k;
    while i < dir.len()
        invariant
            k <= i <= dir@.len(),
            r@ == Seq::new((i - k) as nat, |j: int| ".."@),
        decreases dir@.len() - i,
    {
        r.push("..".to_owned());
        assert(r@ =~= Seq::new((i + 1 - k) as nat, |j: int| ".."@));
        i += 1;
    }
    let ghost ups = r@;
    let mut i: usize = k;
    while i < path.len()
        invariant
            k <= i <= path@.len(),
            r@ == ups + path@.subrange(k as int, i as int),
        decreases path@.len() - i,
    {
        r.push(path.get(i).clone());
        assert(r@ =~= ups + path@.subrange(k as int, i + 1));
        i += 1;
    }
    assert(path@.subrange(k as int, path@.len() as int) =~= path@.skip(k as int));
    r
}

/// What writes the bundle of a graph.
pub struct Writer<'a> {
    /// The modules and the entry.
    pub graph: &'a Graph,
    /// The absolute path of the file that the bundle goes to: the source map
    /// names it, and names the sources as seen from its directory.
    pub output: &'a str,
    /// Where the source map goes.
    pub map_output: &'a SourceMapOutput,
}

impl<'a> Writer<'a> {
    /// How a deps table names what a specifier resolved to.
    fn target(&self, r: &Resolved) -> (t: String)
        ensures
            t@ == target_text(self.graph@.modules, r@),
    {
        match r {
            Resolved::Normal(p) => match self.graph.position(p.as_str()) {
                Some(j) => decimal_text(j),
                None => "true".to_owned(),
            },
            Resolved::Ignore => "false".to_owned(),
            Resolved::External => "true".to_owned(),
        }
    }

    /// The deps table of the `i`th module.
    fn table(&self, i: usize) -> (t: Option<String>)
        requires
            i < self.graph@.modules.len(),
        ensures
            text_option(t) == deps_table(self.graph@.modules, self.graph@.modules[i as int]),
    {
        let deps = &self.graph.modules[i].deps;
        let order = deps_in_order(deps);
        let ghost modules = self.graph@.modules;
        let ghost dv = deps_view(deps@);
        let ghost sorted = indices_view(order@);
        assert(dv == modules[i as int].deps);
        let mut out = String::new();
        let mut k: usize = 0;
        while k < order.len()
            invariant
                k <= order@.len(),
                order@.len() == deps@.len(),
                forall|x: int| 0 <= x < order@.len() ==> #[trigger] order@[x] < deps@.len(),
                sorted == indices_view(order@),
                sorted == key_order(keys_of(dv), dv.len() as int),
                dv == deps_view(deps@),
                i < modules.len(),
                dv == modules[i as int].deps,
                modules == self.graph@.modules,
                deps_text(modules, dv, sorted, k as int) == Some(out@),
            decreases order@.len() - k,
        {
            let dep = &deps[order[k]];
            proof {
                assert(sorted[k as int] == order@[k as int]);
                assert(dv[sorted[k as int]] == (dep.0@, dep.1@));
            }
            let q = match quote(dep.0.as_str()) {
                None => {
                    proof {
                        assert(dep_entry(modules, dv[sorted[k as int]]) is None);
                        assert(deps_text(modules, dv, sorted, k + 1) is None);
                        deps_text_fails(modules, dv, sorted, k + 1, order@.len() as int);
                    }
                    return None;
                },
                Some(q) => q,
            };
            let ghost before = out@;
            if k > 0 {
                out.append(", ");
            }
            out.append(q.as_str());
            out.append(": ");
            out.append(self.target(&dep.1).as_str());
            proof {
                let e = q@ + ": "@ + target_text(modules, dep.1@);
                assert(dep_entry(modules, dv[sorted[k as int]]) == Some(e));
                if k == 0 {
                    assert(out@ =~= e);
                } else {
                    assert(out@ =~= before + ", "@ + e);
                }
            }
            k += 1;
        }
        Some(out)
    }

    /// Writes the block of the `id`th module, the `source`th that is written.
    fn block(&self, page: &mut Page, source: usize, id: usize, table: &String)
        requires
            old(page).wf(),
            id < self.graph@.modules.len(),
        ensures
            final(page).wf(),
            final(page)@ == module_block(
                old(page)@,
                self.graph@.modules[id as int],
                source as int,
                id as int,
                table@,
            ),
    {
        let m = &self.graph.modules[id];
        page.move_to(source);
        page.put("  modules[", false);
        page.put(decimal_text(id).as_str(), false);
        page.put("] = [function(module, exports, require) {\n", false);
        if m.source_prefix.as_str().unicode_len() > 0 {
            page.put(m.source_prefix.as_str(), false);
            page.put("\n", false);
        }
        page.put(m.body.as_str(), true);
        let n = m.body.as_str().unicode_len();
        if !(n == 0 || m.body.as_str().get_char(n - 1) == '\n') {
            page.put("\n", false);
        }
        if m.source_suffix.as_str().unicode_len() > 0 {
            page.put(m.source_suffix.as_str(), false);
            page.put("\n", false);
        }
        page.put("  }, {", false);
        page.put(table.as_str(), false);
        page.put("}]\n", false);
    }

    /// The code of the bundle with the origin of each line, and the order in
    /// which the modules are written.
    fn code(&self) -> (r: Result<(Page, Vec<usize>), WriteError>)
        ensures
            match r {
                Ok((page, order)) => position(self.graph@.modules, self.graph@.entry) is Some
                    && code_sheet(self.graph@.modules, self.graph@.entry) == Some(page@)
                    && indices_view(order@) == emission_order(
                    self.graph@.modules,
                    self.graph@.entry,
                ) && forall|i: int|
                    0 <= i < order@.len() ==> #[trigger] order@[i] < self.graph@.modules.len(),
                Err(e) => if position(self.graph@.modules, self.graph@.entry) is None {
                    e == WriteError::NoEntry
                } else {
                    e == WriteError::Unquotable && code_sheet(
                        self.graph@.modules,
                        self.graph@.entry,
                    ) is None
                },
            },
    {
        let entry = match self.graph.position(self.graph.entry.as_str()) {
            None => {
                return Err(WriteError::NoEntry);
            },
            Some(e) => e,
        };
        let order = self.graph.emission_order();
        let ghost modules = self.graph@.modules;
        let ghost sorted = indices_view(order@);
        let mut page = Page::new();
        page.put(HEAD, false);
        let ghost start = page@;
        let mut n: usize = 0;
        while n < order.len()
            invariant
                n <= order@.len(),
                page.wf(),
                modules == self.graph@.modules,
                sorted == indices_view(order@),
                forall|i: int| 0 <= i < order@.len() ==> #[trigger] order@[i] < modules.len(),
                start == put(blank(), HEAD@, false),
                sorted == emission_order(modules, self.graph@.entry),
                position(modules, self.graph@.entry) is Some,
                blocks(start, modules, sorted, n as int) == Some(page@),
            decreases order@.len() - n,
        {
            let id = order[n];
            assert(sorted[n as int] == id);
            let table = match self.table(id) {
                None => {
                    proof {
                        assert(deps_table(modules, modules[sorted[n as int]]) is None);
                        assert(blocks(start, modules, sorted, n + 1) is None);
                        blocks_fail(start, modules, sorted, n + 1, order@.len() as int);
                    }
                    return Err(WriteError::Unquotable);
                },
                Some(t) => t,
            };
            self.block(&mut page, n, id, &table);
            n += 1;
        }
        page.put("  load(", false);
        page.put(decimal_text(entry).as_str(), false);
        page.put(")\n})()\n", false);
        page.finish();
        Ok((page, order))
    }

    /// The sources of the modules in the order `order`, as seen from `dir`.
    fn sources(&self, order: &Vec<usize>, dir: &Parts) -> (r: Option<String>)
        requires
            forall|i: int| 0 <= i < order@.len() ==> #[trigger] order@[i] < self.graph@.modules.len(),
        ensures
            text_option(r) == sources_text(
                self.graph@.modules,
                indices_view(order@),
                dir@,
                order@.len() as int,
            ),
    {
        let ghost modules = self.graph@.modules;
        let ghost sorted = indices_view(order@);
        let mut out = String::new();
        let mut n: usize = 0;
        while n < order.len()
            invariant
                n <= order@.len(),
                modules == self.graph@.modules,
                sorted == indices_view(order@),
                forall|i: int| 0 <= i < order@.len() ==> #[trigger] order@[i] < modules.len(),
                sources_text(modules, sorted, dir@, n as int) == Some(out@),
            decreases order@.len() - n,
        {
            let m = &self.graph.modules[order[n]];
            assert(sorted[n as int] == order@[n as int]);
            let place = Parts::new().applied(&Parts::parse(m.path.as_str()));
            let shown = relative_to(&place, dir).render(false);
            let q = match quote(shown.as_str()) {
                None => {
                    proof {
                        sources_fail(modules, sorted, dir@, n + 1, order@.len() as int);
                    }
                    return None;
                },
                Some(q) => q,
            };
            let ghost before = out@;
            if n > 0 {
                out.append(",");
            }
            out.append(q.as_str());
            proof {
                if n == 0 {
                    assert(out@ =~= q@);
                } else {
                    assert(out@ =~= before + ","@ + q@);
                }
            }
            n += 1;
        }
        Some(out)
    }

    /// The texts of the modules in the order `order`.
    fn contents(&self, order: &Vec<usize>) -> (r: Option<String>)
        requires
            forall|i: int| 0 <= i < order@.len() ==> #[trigger] order@[i] < self.graph@.modules.len(),
        ensures
            text_option(r) == contents_text(
                self.graph@.modules,
                indices_view(order@),
                order@.len() as int,
            ),
    {
        let ghost modules = self.graph@.modules;
        let ghost sorted = indices_view(order@);
        let mut out = String::new();
        let mut n: usize = 0;
        while n < order.len()
            invariant
                n <= order@.len(),
                modules == self.graph@.modules,
                sorted == indices_view(order@),
                forall|i: int| 0 <= i < order@.len() ==> #[trigger] order@[i] < modules.len(),
                contents_text(modules, sorted, n as int) == Some(out@),
            decreases order@.len() - n,
        {
            let m = &self.graph.modules[order[n]];
            assert(sorted[n as int] == order@[n as int]);
            let quoted = match &m.original_source {
                Some(t) => quote(t.as_str()),
                None => quote(m.body.as_str()),
            };
            let q = match quoted {
                None => {
                    proof {
                        contents_fail(modules, sorted, n + 1, order@.len() as int);
                    }
                    return None;
                },
                Some(q) => q,
            };
            let ghost before = out@;
            if n > 0 {
                out.append(",");
            }
            out.append(q.as_str());
            proof {
                if n == 0 {
                    assert(out@ =~= q@);
                } else {
                    assert(out@ =~= before + ","@ + q@);
                }
            }
            n += 1;
        }
        Some(out)
    }

    /// The source map of a bundle whose lines come from `origins`.
    fn map(&self, page: &Page, order: &Vec<usize>) -> (r: Option<String>)
        requires
            indices_view(order@) == emission_order(self.graph@.modules, self.graph@.entry),
            forall|i: int| 0 <= i < order@.len() ==> #[trigger] order@[i] < self.graph@.modules.len(),
        ensures
            text_option(r) == map_text(
                self.graph@.modules,
                self.graph@.entry,
                self.output@,
                page@.origins,
            ),
    {
        let raw = Parts::parse(self.output);
        let name = if raw.len() > 0 {
            raw.get(raw.len() - 1).clone()
        } else {
            String::new()
        };
        let dir = Parts::new().applied(&raw).parent();
        let file = match quote(name.as_str()) {
            None => {
                return None;
            },
            Some(q) => q,
        };
        let sources = match self.sources(order, &dir) {
            None => {
                return None;
            },
            Some(t) => t,
        };
        let contents = match self.contents(order) {
            None => {
                return None;
            },
            Some(t) => t,
        };
        let lines = write_mappings(&page.origins);
        let mut out = "{\"version\":3,\"file\":".to_owned();
        out.append(file.as_str());
        out.append(",\"sources\":[");
        out.append(sources.as_str());
        out.append("],\"sourcesContent\":[");
        out.append(contents.as_str());
        out.append("],\"names\":[],\"mappings\":\"");
        out.append(lines.as_str());
        out.append("\"}");
        Some(out)
    }

    /// The source map of the bundle.
    pub fn write_map_to(&self) -> (r: Result<String, WriteError>)
        ensures
            text_result(r) == source_map(self.graph@.modules, self.graph@.entry, self.output@),
    {
        let (page, order) = match self.code() {
            Err(e) => {
                return Err(e);
            },
            Ok(found) => found,
        };
        match self.map(&page, &order) {
            None => Err(WriteError::Unquotable),
            Some(map) => Ok(map),
        }
    }

    /// The bundle: the code of the modules, and the comment that says where
    /// its source map is. The map's mappings hold one semicolon less than the
    /// bundle has lines.
    pub fn write_to(&self) -> (r: Result<String, WriteError>)
        ensures
            text_result(r) == bundle(
                self.graph@.modules,
                self.graph@.entry,
                self.output@,
                self.map_output@,
            ),
            r is Ok ==> code_sheet(self.graph@.modules, self.graph@.entry) is Some && count_of(
                mappings(code_sheet(self.graph@.modules, self.graph@.entry)->0.origins),
                ';',
            ) + 1 == line_count(r->Ok_0@),
    {
        let (page, order) = match self.code() {
            Err(e) => {
                return Err(e);
            },
            Ok(found) => found,
        };
        let mut out = page.text.clone();
        match self.map_output {
            SourceMapOutput::Suppressed => {
                assert(out@ + Seq::<char>::empty() =~= out@);
            },
            SourceMapOutput::File(name) => {
                if holds_line_feed(name.as_str()) {
                    return Err(WriteError::MapName);
                }
                out.append("//# sourceMappingURL=");
                out.append(name.as_str());
                assert(out@ =~= page@.text + ("//# sourceMappingURL="@ + name@));
            },
            SourceMapOutput::Inline => {
                let map = match self.map(&page, &order) {
                    None => {
                        return Err(WriteError::Unquotable);
                    },
                    Some(map) => map,
                };
                let data = base64_encode(map.as_str().as_bytes());
                out.append("//# sourceMappingURL=data:application/json;base64,");
                out.append(data.as_str());
                assert(out@ =~= page@.text + (
                "//# sourceMappingURL=data:application/json;base64,"@ + data@));
            },
        }
        proof {
            bundle_lines_match_mappings(
                self.graph@.modules,
                self.graph@.entry,
                self.output@,
                self.map_output@,
            );
        }
        Ok(out)
    }
}

/// Deps that cannot be written up to some point cannot be written at all.
pub proof fn deps_text_fails(
    modules: Seq<ModuleView>,
    deps: Seq<(Seq<char>, ResolvedView)>,
    sorted: Seq<int>,
    k: int,
    n: int,
)
    requires
        0 <= k <= n,
        deps_text(modules, deps, sorted, k) is None,
    ensures
        deps_text(modules, deps, sorted, n) is None,
    decreases n - k,
{
    if k < n {
        deps_text_fails(modules, deps, sorted, k + 1, n);
    }
}

/// Blocks that cannot be written up to some point cannot be written at all.
pub proof fn blocks_fail(s: Sheet, modules: Seq<ModuleView>, order: Seq<int>, k: int, n: int)
    requires
        0 <= k <= n,
        blocks(s, modules, order, k) is None,
    ensures
        blocks(s, modules, order, n) is None,
    decreases n - k,
{
    if k < n {
        blocks_fail(s, modules, order, k + 1, n);
    }
}

/// Sources that cannot be written up to some point cannot be written at all.
pub proof fn sources_fail(
    modules: Seq<ModuleView>,
    order: Seq<int>,
    dir: Seq<Seq<char>>,
    k: int,
    n: int,
)
    requires
        0 <= k <= n,
        sources_text(modules, order, dir, k) is None,
    ensures
        sources_text(modules, order, dir, n) is None,
    decreases n - k,
{
    if k < n {
        sources_fail(modules, order, dir, k + 1, n);
    }
}

/// Texts that cannot be written up to some point cannot be written at all.
pub proof fn contents_fail(modules: Seq<ModuleView>, order: Seq<int>, k: int, n: int)
    requires
        0 <= k <= n,
        contents_text(modules, order, k) is None,
    ensures
        contents_text(modules, order, n) is None,
    decreases n - k,
{
    if k < n {
        contents_fail(modules, order, k + 1, n);
    }
}

} // verus!
