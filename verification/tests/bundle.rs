use pax::crawler::Crawler;
use pax::graph::{Graph, Module};
use pax::lines::count_lines;
use pax::path::Parts;
use pax::resolver::{InputOptions, ResolveError, Resolved};
use pax::tree::FileTree;
use pax::writer::{SourceMapOutput, WriteError, Writer};

const SOURCES: &[(&str, &str, &[&str])] = &[
    ("/app/index.js", "var b = require('./b')\nvar a = require('./a')\nrequire('x')\nrequire('fs')\n", &["./b", "./a", "x", "fs", "./a"]),
    ("/app/a.js", "module.exports = require('./b') + 1", &["./b"]),
    ("/app/b.js", "module.exports = 1\n", &[]),
    ("/app/node_modules/x/lib/main.js", "exports.x = require('../../../a.js')\n\n", &["../../../a.js", "./gone"]),
];

fn tree() -> FileTree {
    let mut tree = FileTree::new();
    for (path, _, _) in SOURCES {
        tree.add_file(path);
    }
    tree.add_file("/app/node_modules/x/lib/gone.js");
    tree.add_text(
        "/app/node_modules/x/package.json",
        r#"{"main": "lib/main", "browser": {"./lib/gone.js": false}}"#,
    );
    tree
}

fn options() -> InputOptions {
    InputOptions { for_browser: true, external: vec!["fs".to_owned()], ..InputOptions::default() }
}

fn crawl(tree: &FileTree) -> Graph {
    let mut crawler = Crawler::new(options(), tree, "/app/index.js");
    let mut rounds = 0;
    while let Some(path) = crawler.next().cloned() {
        let (_, body, names) = SOURCES.iter().find(|s| s.0 == path).unwrap();
        let names: Vec<String> = names.iter().map(|n| n.to_string()).collect();
        let added = crawler
            .visit(&path, String::new(), body.to_string(), String::new(), None, &names)
            .unwrap();
        assert!(added);
        rounds += 1;
        assert!(rounds <= SOURCES.len());
    }
    assert!(crawler.is_done());
    crawler.finish().unwrap()
}

fn paths(graph: &Graph) -> Vec<&str> {
    graph.modules.iter().map(|m| m.path.as_str()).collect()
}

#[test]
fn a_crawl_finds_every_file() {
    let tree = tree();
    let graph = crawl(&tree);
    assert_eq!(graph.entry, "/app/index.js");
    let mut found = paths(&graph);
    found.sort();
    assert_eq!(found, vec!["/app/a.js", "/app/b.js", "/app/index.js", "/app/node_modules/x/lib/main.js"]);
    let index = &graph.modules[graph.position("/app/index.js").unwrap()];
    assert_eq!(index.deps, vec![
        ("./b".to_owned(), Resolved::Normal("/app/b.js".to_owned())),
        ("./a".to_owned(), Resolved::Normal("/app/a.js".to_owned())),
        ("x".to_owned(), Resolved::Normal("/app/node_modules/x/lib/main.js".to_owned())),
        ("fs".to_owned(), Resolved::External),
    ]);
    let x = &graph.modules[graph.position("/app/node_modules/x/lib/main.js").unwrap()];
    assert_eq!(x.deps, vec![
        ("../../../a.js".to_owned(), Resolved::Normal("/app/a.js".to_owned())),
        ("./gone".to_owned(), Resolved::Ignore),
    ]);
}

#[test]
fn every_dep_of_a_finished_graph_is_a_module() {
    let tree = tree();
    let graph = crawl(&tree);
    for module in &graph.modules {
        for (_, to) in &module.deps {
            if let Resolved::Normal(path) = to {
                assert!(graph.position(path).is_some(), "{}", path);
            }
        }
    }
}

#[test]
fn a_crawl_is_not_finished_while_a_file_waits() {
    let tree = tree();
    let mut crawler = Crawler::new(options(), &tree, "/app/index.js");
    assert_eq!(crawler.next().map(|p| p.as_str()), Some("/app/index.js"));
    assert!(!crawler.is_done());
    let names = vec!["./a".to_owned()];
    assert_eq!(crawler.visit("/app/index.js", String::new(), String::new(), String::new(), None, &names), Ok(true));
    assert_eq!(crawler.waiting, vec!["/app/a.js".to_owned()]);
    // the first to bring a file wins; the second changes nothing
    assert_eq!(crawler.visit("/app/index.js", String::new(), "other".to_owned(), String::new(), None, &vec![]), Ok(false));
    assert_eq!(crawler.graph.modules.len(), 1);
    assert_eq!(crawler.graph.modules[0].body, "");
    assert!(crawler.finish().is_none());
}

#[test]
fn a_specifier_that_fails_stops_the_visit() {
    let tree = tree();
    let mut crawler = Crawler::new(options(), &tree, "/app/index.js");
    let names = vec!["./a".to_owned(), "./nothing".to_owned(), "./b".to_owned()];
    assert_eq!(
        crawler.visit("/app/index.js", String::new(), String::new(), String::new(), None, &names),
        Err(ResolveError::ResolveFailed { context: "/app/index.js".to_owned(), specifier: "./nothing".to_owned() })
    );
    assert_eq!(crawler.graph.modules.len(), 0);
    assert_eq!(crawler.waiting, vec!["/app/index.js".to_owned()]);
}

#[test]
fn modules_are_written_depth_first_in_the_order_of_their_specifiers() {
    let tree = tree();
    let graph = crawl(&tree);
    let order: Vec<&str> = graph.emission_order().into_iter().map(|i| graph.modules[i].path.as_str()).collect();
    // "./a" stands before "./b", and "./b" is met below "./a" first
    assert_eq!(order, vec!["/app/index.js", "/app/a.js", "/app/b.js", "/app/node_modules/x/lib/main.js"]);
}

fn module(path: &str, body: &str, deps: Vec<(&str, Resolved)>) -> Module {
    Module {
        path: path.to_owned(),
        source_prefix: String::new(),
        body: body.to_owned(),
        source_suffix: String::new(),
        original_source: None,
        deps: deps.into_iter().map(|(name, to)| (name.to_owned(), to)).collect(),
    }
}

#[test]
fn a_cycle_is_written_once() {
    let graph = Graph {
        modules: vec![
            module("/p/unreached.js", "", vec![]),
            module("/p/b.js", "", vec![("./a", Resolved::Normal("/p/a.js".to_owned()))]),
            module("/p/a.js", "", vec![
                ("./b", Resolved::Normal("/p/b.js".to_owned())),
                ("./a", Resolved::Normal("/p/a.js".to_owned())),
                ("./missing", Resolved::Normal("/p/missing.js".to_owned())),
            ]),
        ],
        entry: "/p/a.js".to_owned(),
    };
    assert_eq!(graph.emission_order(), vec![2, 1]);
    let none = Graph { modules: vec![], entry: "/p/a.js".to_owned() };
    assert_eq!(none.emission_order(), Vec::<usize>::new());
}

fn mappings_of(map: &str) -> String {
    let value: serde_json::Value = serde_json::from_str(map).unwrap();
    value.get("mappings").unwrap().as_str().unwrap().to_owned()
}

#[test]
fn the_mappings_separate_the_lines_of_the_bundle() {
    let tree = tree();
    let graph = crawl(&tree);
    let file = SourceMapOutput::File("bundle.js.map".to_owned());
    for map_output in [SourceMapOutput::Suppressed, SourceMapOutput::Inline, file] {
        let writer = Writer { graph: &graph, output: "/app/dist/bundle.js", map_output: &map_output };
        let bundle = writer.write_to().unwrap();
        let map = writer.write_map_to().unwrap();
        let mappings = mappings_of(&map);
        assert_eq!(mappings.matches(';').count() + 1, count_lines(&bundle));
        for group in mappings.split(';') {
            assert!(!group.contains(','));
            assert!(group.starts_with('A') && group.ends_with('A') && group.len() >= 4);
        }
    }
}

#[test]
fn a_source_map_names_its_sources() {
    let tree = tree();
    let graph = crawl(&tree);
    let writer = Writer { graph: &graph, output: "/app/dist/bundle.js", map_output: &SourceMapOutput::Suppressed };
    let map: serde_json::Value = serde_json::from_str(&writer.write_map_to().unwrap()).unwrap();
    assert_eq!(map.get("version").unwrap().as_u64(), Some(3));
    assert_eq!(map.get("file").unwrap().as_str(), Some("bundle.js"));
    assert_eq!(map.get("names").unwrap().as_array().unwrap().len(), 0);
    assert_eq!(map.as_object().unwrap().len(), 6);
    let sources: Vec<&str> = map.get("sources").unwrap().as_array().unwrap().iter().map(|s| s.as_str().unwrap()).collect();
    assert_eq!(sources, vec!["../index.js", "../a.js", "../b.js", "../node_modules/x/lib/main.js"]);
    let contents: Vec<&str> = map.get("sourcesContent").unwrap().as_array().unwrap().iter().map(|s| s.as_str().unwrap()).collect();
    assert_eq!(contents[0], SOURCES[0].1);
    assert_eq!(contents[1], SOURCES[1].1);
    assert_eq!(contents[3], SOURCES[3].1);
}

#[test]
fn a_bundle_holds_its_modules() {
    let graph = Graph {
        modules: vec![
            module("/p/b.js", "exports.b = 'line\\n'", vec![]),
            module("/p/a.js", "require('./b')\nrequire(\"q\\\"\")\n", vec![
                ("./b", Resolved::Normal("/p/b.js".to_owned())),
                ("q\"", Resolved::Ignore),
                ("os", Resolved::External),
            ]),
        ],
        entry: "/p/a.js".to_owned(),
    };
    let writer = Writer { graph: &graph, output: "/p/out.js", map_output: &SourceMapOutput::Suppressed };
    let bundle = writer.write_to().unwrap();
    assert!(bundle.starts_with(pax::writer::HEAD));
    let rest = &bundle[pax::writer::HEAD.len()..];
    assert_eq!(rest, concat_all(&[
        "  modules[1] = [function(module, exports, require) {\n",
        "require('./b')\nrequire(\"q\\\"\")\n",
        "  }, {\"./b\": 0, \"os\": true, \"q\\\"\": false}]\n",
        "  modules[0] = [function(module, exports, require) {\n",
        "exports.b = 'line\\n'\n",
        "  }, {}]\n",
        "  load(1)\n})()\n",
    ]));
    let head_lines = count_lines(pax::writer::HEAD) - 1;
    // the head; then for the entry its opening line, its two lines and its
    // closing line; then the same for the other module, which is the second
    // source; then the two lines that start the bundle, and the empty last line
    let mut want = vec!["AAAA"; head_lines];
    want.extend(["AAAA", "AAAA", "AACA", "AACA"]);
    want.extend(["ACFA", "AAAA", "AAAA"]);
    want.extend(["AAAA", "AAAA", "AAAA"]);
    assert_eq!(mappings_of(&writer.write_map_to().unwrap()), want.join(";"));
}

fn concat_all(pieces: &[&str]) -> String {
    pieces.iter().map(|p| p.to_string()).collect()
}

#[test]
fn a_prefix_and_a_suffix_stand_on_lines_of_their_own() {
    let mut only = module("/p/a.js", "body()", vec![]);
    only.source_prefix = "~function() {".to_owned();
    only.source_suffix = "}()".to_owned();
    only.original_source = Some("original()".to_owned());
    let graph = Graph { modules: vec![only], entry: "/p/a.js".to_owned() };
    let writer = Writer { graph: &graph, output: "/p/out.js", map_output: &SourceMapOutput::Suppressed };
    let bundle = writer.write_to().unwrap();
    assert!(bundle.ends_with(&concat_all(&[
        "  modules[0] = [function(module, exports, require) {\n",
        "~function() {\nbody()\n}()\n",
        "  }, {}]\n",
        "  load(0)\n})()\n",
    ])));
    let map: serde_json::Value = serde_json::from_str(&writer.write_map_to().unwrap()).unwrap();
    assert_eq!(map.get("sourcesContent").unwrap().get(0).unwrap().as_str(), Some("original()"));
    assert_eq!(map.get("sources").unwrap().get(0).unwrap().as_str(), Some("a.js"));
}

fn base64_decode(text: &str) -> Vec<u8> {
    let alphabet = "ABCDEFGHIJKLMNOPQRSTUVWXYZabcdefghijklmnopqrstuvwxyz0123456789+/";
    let mut bits: u32 = 0;
    let mut count = 0;
    let mut out = Vec::new();
    for c in text.chars().filter(|c| *c != '=') {
        bits = (bits << 6) | alphabet.find(c).unwrap() as u32;
        count += 6;
        if count >= 8 {
            count -= 8;
            out.push((bits >> count) as u8);
            bits &= (1 << count) - 1;
        }
    }
    out
}

#[test]
fn the_comment_says_where_the_map_is() {
    let graph = Graph { modules: vec![module("/p/\u{e9}.js", "caf\u{e9}()", vec![])], entry: "/p/\u{e9}.js".to_owned() };
    let none = Writer { graph: &graph, output: "/p/out.js", map_output: &SourceMapOutput::Suppressed };
    let code = none.write_to().unwrap();
    assert!(code.ends_with("})()\n"));
    let file = SourceMapOutput::File("out.js.map".to_owned());
    let beside = Writer { graph: &graph, output: "/p/out.js", map_output: &file };
    assert_eq!(beside.write_to().unwrap(), format!("{}//# sourceMappingURL=out.js.map", code));
    let inline = Writer { graph: &graph, output: "/p/out.js", map_output: &SourceMapOutput::Inline };
    let bundle = inline.write_to().unwrap();
    let marker = "//# sourceMappingURL=data:application/json;base64,";
    assert!(bundle.starts_with(&code));
    let comment = &bundle[code.len()..];
    assert!(comment.starts_with(marker));
    let map = String::from_utf8(base64_decode(&comment[marker.len()..])).unwrap();
    assert_eq!(map, inline.write_map_to().unwrap());
    assert!(map.contains("caf\u{e9}()"));
}

#[test]
fn each_reason_why_a_bundle_cannot_be_written() {
    let graph = Graph { modules: vec![module("/p/a.js", "", vec![])], entry: "/p/b.js".to_owned() };
    let writer = Writer { graph: &graph, output: "/p/out.js", map_output: &SourceMapOutput::Suppressed };
    assert_eq!(writer.write_to(), Err(WriteError::NoEntry));
    assert_eq!(writer.write_map_to(), Err(WriteError::NoEntry));
    let graph = Graph { modules: vec![module("/p/a.js", "", vec![])], entry: "/p/a.js".to_owned() };
    let name = SourceMapOutput::File("out\n.map".to_owned());
    let writer = Writer { graph: &graph, output: "/p/out.js", map_output: &name };
    assert_eq!(writer.write_to(), Err(WriteError::MapName));
    assert!(writer.write_map_to().is_ok());
}

#[test]
fn a_path_as_seen_from_a_directory() {
    let cases = [
        ("/a/b/c.js", "/a/b", "c.js"),
        ("/a/b/c.js", "/a", "b/c.js"),
        ("/a/b/c.js", "/a/x/y", "../../b/c.js"),
        ("/a/b/c.js", "/", "a/b/c.js"),
        ("/c.js", "/a/b", "../../c.js"),
        ("/a/b", "/a/b", ""),
    ];
    for (path, dir, want) in cases {
        let found = pax::writer::relative_to(&Parts::parse(path), &Parts::parse(dir));
        assert_eq!(found.render(false), want, "{} from {}", path, dir);
    }
}
