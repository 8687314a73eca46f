/// Texts as base64.
pub mod base64;
/// What specifiers are expected to resolve to in the fixtures.
pub mod cases;
/// Finding the files of a bundle, file by file.
pub mod crawler;
/// The files of a bundle and what they need.
pub mod graph;
/// JSON values, as `serde_json` reads and writes them.
pub mod json;
/// Counting lines.
pub mod lines;
/// What a package's manifest says of its main path and of browsers.
pub mod manifest;
/// The mappings of a source map.
pub mod mapping;
/// What resolving a specifier means.
pub mod model;
/// The order in which modules are written.
pub mod order;
/// Paths as texts and as lists of pieces.
pub mod path;
/// Resolving specifiers against a file system held in memory.
pub mod resolver;
/// A text that is written piece by piece, with the origin of each line.
pub mod sheet;
/// Holding a file system against the expectations of the cases.
pub mod suite;
/// Characters and digits.
pub mod text;
/// The files that resolving looks at.
pub mod tree;
/// Signed numbers as base64 VLQ.
pub mod vlq;
/// Writing a bundle and its source map.
pub mod writer;
