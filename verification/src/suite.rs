use vstd::prelude::*;
use crate::cases::{BROWSER, RESOLVE_FURTHER, RESOLVE_RELATIVE, RESOLVE_UNICODE};
use crate::model::Config;
use crate::path::{append_resolving, appended};
use crate::resolver::{
    resolve_result,
    result_view,
    ErrorView,
    InputOptions,
    ResolveError,
    Resolved,
    ResolvedView,
    Resolver,
};
use crate::tree::{FileTree, Files};

verus! {

/// What a specifier is expected to resolve to.
#[derive(Debug, Clone, Copy)]
pub enum Resolution<'a> {
    /// The file of this path, counted from the base directory.
    Y(&'a str),
    /// Nothing: an empty module stands in.
    Ignore,
    /// A module that is looked up when the bundle runs.
    External,
    /// Resolving fails.
    Fail,
}

/// The kind of an expectation.
#[derive(Debug, Clone, Copy, PartialEq, Eq, Structural)]
pub enum Kind {
    Y,
    Ignore,
    External,
    Fail,
}

/// One expectation: the file that holds the specifier, counted from the base
/// directory; the specifier; the kind of what it resolves to, with the path
/// of the file where it is one; whether `.mjs` counts as an extension;
/// whether substitutions for browsers apply.
pub type Case = (&'static str, &'static str, Kind, &'static str, bool, bool);

/// What a case expects.
pub open spec fn case_resolution(case: Case) -> Resolution<'static> {
    match case.2 {
        Kind::Y => Resolution::Y(case.3),
        Kind::Ignore => Resolution::Ignore,
        Kind::External => Resolution::External,
        Kind::Fail => Resolution::Fail,
    }
}

/// What `to` asks for under the base directory `base`: a result, or none for
/// a failure.
pub open spec fn expected(base: Seq<char>, to: Resolution) -> Option<ResolvedView> {
    match to {
        Resolution::Y(p) => Some(ResolvedView::Normal(appended(base, p@))),
        Resolution::Ignore => Some(ResolvedView::Ignore),
        Resolution::External => Some(ResolvedView::External),
        Resolution::Fail => None,
    }
}

/// Whether an outcome is what is asked for.
pub open spec fn meets(outcome: Result<ResolvedView, ErrorView>, want: Option<ResolvedView>) -> bool {
    match want {
        Some(w) => outcome == Ok::<_, ErrorView>(w),
        None => outcome is Err,
    }
}

/// Whether `from`, written in the file `context` under `base`, resolves to
/// `to`.
pub open spec fn resolves(
    fs: Files,
    cfg: Config,
    base: Seq<char>,
    context: Seq<char>,
    from: Seq<char>,
    to: Resolution,
) -> bool {
    meets(resolve_result(fs, cfg, appended(base, context), from), expected(base, to))
}

/// The options of a case: no package is external.
pub open spec fn case_config(es6_syntax: bool, for_browser: bool) -> Config {
    Config { for_browser, es6_syntax, external: Seq::empty() }
}

/// Whether the expectation `case` holds.
pub open spec fn case_met(fs: Files, base: Seq<char>, case: Case) -> bool {
    resolves(fs, case_config(case.4, case.5), base, case.0@, case.1@, case_resolution(case))
}

/// Whether all the expectations of `table` hold.
pub open spec fn all_met(fs: Files, base: Seq<char>, table: Seq<Case>) -> bool {
    forall|i: int| 0 <= i < table.len() ==> case_met(fs, base, #[trigger] table[i])
}

fn same_resolved(a: &Resolved, b: &Resolved) -> (r: bool)
    ensures
        r == (a@ == b@),
{
    match (a, b) {
        (Resolved::Normal(p), Resolved::Normal(q)) => *p == *q,
        (Resolved::Ignore, Resolved::Ignore) => true,
        (Resolved::External, Resolved::External) => true,
        _ => false,
    }
}

/// What is asked for, as plain values.
pub open spec fn want_view(want: Option<Resolved>) -> Option<ResolvedView> {
    match want {
        Some(w) => Some(w@),
        None => None,
    }
}

fn agrees(got: &Result<Resolved, ResolveError>, want: &Option<Resolved>) -> (r: bool)
    ensures
        r == meets(result_view(*got), want_view(*want)),
{
    match want {
        Some(w) => match got {
            Ok(g) => same_resolved(g, w),
            Err(_) => false,
        },
        None => got.is_err(),
    }
}

/// Whether `from`, written in the file `context`, resolves to `to` in `tree`,
/// on a first call and again on a second that finds the manifests kept.
/// `context` and the path in `to` are counted from the directory `base`.
pub fn assert_resolves(
    tree: &FileTree,
    base: &str,
    context: &str,
    from: &str,
    to: Resolution,
    input_options: &InputOptions,
) -> (ok: bool)
    ensures
        ok == resolves(tree@, input_options@, base@, context@, from@, to),
{
    let want = match to {
        Resolution::Y(p) => {
            let mut path = base.to_owned();
            append_resolving(&mut path, p);
            Some(Resolved::Normal(path))
        },
        Resolution::Ignore => Some(Resolved::Ignore),
        Resolution::External => Some(Resolved::External),
        Resolution::Fail => None,
    };
    let mut context_path = base.to_owned();
    append_resolving(&mut context_path, context);
    let mut resolver = Resolver::new(input_options.duplicate(), tree);
    let first = resolver.resolve(context_path.as_str(), from);
    let second = resolver.resolve(context_path.as_str(), from);
    let ok = agrees(&first, &want);
    let again = agrees(&second, &want);
    ok && again
}

/// The options of a case.
fn case_options(es6_syntax: bool, for_browser: bool) -> (o: InputOptions)
    ensures
        o@ == case_config(es6_syntax, for_browser),
{
    let o = InputOptions {
        for_browser,
        es6_syntax,
        es6_syntax_everywhere: false,
        external: Vec::new(),
    };
    assert(o@.external =~= Seq::empty());
    o
}

/// Whether all the expectations of `table` hold in `tree`.
fn run_cases<const N: usize>(tree: &FileTree, base: &str, table: &[Case; N]) -> (passed: bool)
    ensures
        passed == all_met(tree@, base@, table@),
{
    let mut passed = true;
    let mut i: usize = 0;
    while i < N
        invariant
            i <= N,
            table@.len() == N,
            passed == all_met(tree@, base@, table@.take(i as int)),
        decreases N - i,
    {
        let case = table[i];
        let options = case_options(case.4, case.5);
        let to = match case.2 {
            Kind::Y => Resolution::Y(case.3),
            Kind::Ignore => Resolution::Ignore,
            Kind::External => Resolution::External,
            Kind::Fail => Resolution::Fail,
        };
        let ok = assert_resolves(tree, base, case.0, case.1, to, &options);
        proof {
            let before = table@.take(i as int);
            let after = table@.take(i + 1);
            assert(after[i as int] == table@[i as int]);
            assert forall|j: int| 0 <= j < before.len() implies before[j] == after[j] by {}
            if all_met(tree@, base@, after) {
                assert forall|j: int| 0 <= j < before.len() implies case_met(
                    tree@,
                    base@,
                    #[trigger] before[j],
                ) by {
                    assert(case_met(tree@, base@, after[j]));
                }
            }
        }
        passed = passed && ok;
        i += 1;
    }
    assert(table@.take(N as int) =~= table@);
    passed
}

/// Whether `tree` resolves as the cases for plain resolving expect: paths
/// from where they are written, an absolute path, modules, files whose names
/// start with a dot, and names that a file and a directory share.
/// The fixtures are the files of `tree` under the directory `base`.
pub fn test_resolve_with(tree: &FileTree, base: &str) -> (passed: bool)
    ensures
        passed == (all_met(tree@, base@, RESOLVE_RELATIVE@) && resolves(
            tree@,
            case_config(false, false),
            base@,
            "resolve/subdir/hypothetical.js"@,
            appended(base@, "resolve/named-js"@),
            Resolution::Y("resolve/named-js.js"),
        ) && all_met(tree@, base@, RESOLVE_FURTHER@)),
{
    let relative = run_cases(tree, base, &RESOLVE_RELATIVE);
    let mut path = base.to_owned();
    append_resolving(&mut path, "resolve/named-js");
    let cjs = case_options(false, false);
    let absolute = assert_resolves(
        tree,
        base,
        "resolve/subdir/hypothetical.js",
        path.as_str(),
        Resolution::Y("resolve/named-js.js"),
        &cjs,
    );
    let further = run_cases(tree, base, &RESOLVE_FURTHER);
    relative && absolute && further
}

/// Whether `tree` resolves as the cases around a directory of unusual names
/// expect.
pub fn test_resolve_unicode_with(tree: &FileTree, base: &str) -> (passed: bool)
    ensures
        passed == all_met(tree@, base@, RESOLVE_UNICODE@),
{
    run_cases(tree, base, &RESOLVE_UNICODE)
}

/// Whether `tree` resolves as the cases for packages with substitutions for
/// browsers expect.
pub fn test_browser_with(tree: &FileTree, base: &str) -> (passed: bool)
    ensures
        passed == all_met(tree@, base@, BROWSER@),
{
    run_cases(tree, base, &BROWSER)
}

} // verus!
