use vstd::prelude::*;
use crate::suite::{Case, Kind};

verus! {

/// Specifiers that name a path from where they are written.
pub const RESOLVE_RELATIVE: [Case; 197] = [
    ("resolve/hypothetical.js", "./named-noext", Kind::Y, "resolve/named-noext", false, false),
    ("resolve/hypothetical.js", "./named-js.js", Kind::Y, "resolve/named-js.js", false, false),
    ("resolve/hypothetical.js", "./named-json.json", Kind::Y, "resolve/named-json.json", false, false),
    ("resolve/hypothetical.js", "./named-mjs.mjs", Kind::Y, "resolve/named-mjs.mjs", true, false),
    ("resolve/hypothetical.js", "./named-jsz.jsz", Kind::Y, "resolve/named-jsz.jsz", false, false),
    ("resolve/hypothetical.js", "./named-js", Kind::Y, "resolve/named-js.js", false, false),
    ("resolve/hypothetical.js", "./named-json", Kind::Y, "resolve/named-json.json", false, false),
    ("resolve/hypothetical.js", "./named-mjs", Kind::Y, "resolve/named-mjs.mjs", true, false),
    ("resolve/hypothetical.js", "./dir-js", Kind::Y, "resolve/dir-js/index.js", false, false),
    ("resolve/hypothetical.js", "./dir-js/index", Kind::Y, "resolve/dir-js/index.js", false, false),
    ("resolve/hypothetical.js", "./dir-json", Kind::Y, "resolve/dir-json/index.json", false, false),
    ("resolve/hypothetical.js", "./dir-json/index", Kind::Y, "resolve/dir-json/index.json", false, false),
    ("resolve/hypothetical.js", "./dir-mjs", Kind::Y, "resolve/dir-mjs/index.mjs", true, false),
    ("resolve/hypothetical.js", "./dir-mjs/index", Kind::Y, "resolve/dir-mjs/index.mjs", true, false),
    ("resolve/hypothetical.js", "./mod-noext-bare", Kind::Y, "resolve/mod-noext-bare/main-noext", false, false),
    ("resolve/hypothetical.js", "./mod-noext-rel", Kind::Y, "resolve/mod-noext-rel/main-noext", false, false),
    ("resolve/hypothetical.js", "./mod-main-nesting-bare", Kind::Y, "resolve/mod-main-nesting-bare/subdir/index.js", false, false),
    ("resolve/hypothetical.js", "./mod-main-nesting-bare/subdir", Kind::Y, "resolve/mod-main-nesting-bare/subdir/inner-main.js", false, false),
    ("resolve/hypothetical.js", "./mod-main-nesting-rel", Kind::Y, "resolve/mod-main-nesting-rel/subdir/index.js", false, false),
    ("resolve/hypothetical.js", "./mod-main-nesting-rel/subdir", Kind::Y, "resolve/mod-main-nesting-rel/subdir/inner-main.js", false, false),
    ("resolve/hypothetical.js", "./mod-js-ext-bare", Kind::Y, "resolve/mod-js-ext-bare/main-js.js", false, false),
    ("resolve/hypothetical.js", "./mod-js-ext-rel", Kind::Y, "resolve/mod-js-ext-rel/main-js.js", false, false),
    ("resolve/hypothetical.js", "./mod-js-noext-bare", Kind::Y, "resolve/mod-js-noext-bare/main-js.js", false, false),
    ("resolve/hypothetical.js", "./mod-js-noext-rel", Kind::Y, "resolve/mod-js-noext-rel/main-js.js", false, false),
    ("resolve/hypothetical.js", "./mod-js-dir-bare", Kind::Y, "resolve/mod-js-dir-bare/main-js/index.js", false, false),
    ("resolve/hypothetical.js", "./mod-js-dir-rel", Kind::Y, "resolve/mod-js-dir-rel/main-js/index.js", false, false),
    ("resolve/hypothetical.js", "./mod-json-ext-bare", Kind::Y, "resolve/mod-json-ext-bare/main-json.json", false, false),
    ("resolve/hypothetical.js", "./mod-json-ext-rel", Kind::Y, "resolve/mod-json-ext-rel/main-json.json", false, false),
    ("resolve/hypothetical.js", "./mod-json-noext-bare", Kind::Y, "resolve/mod-json-noext-bare/main-json.json", false, false),
    ("resolve/hypothetical.js", "./mod-json-noext-rel", Kind::Y, "resolve/mod-json-noext-rel/main-json.json", false, false),
    ("resolve/hypothetical.js", "./mod-json-dir-bare", Kind::Y, "resolve/mod-json-dir-bare/main-json/index.json", false, false),
    ("resolve/hypothetical.js", "./mod-json-dir-rel", Kind::Y, "resolve/mod-json-dir-rel/main-json/index.json", false, false),
    ("resolve/hypothetical.js", "./mod-mjs-ext-bare", Kind::Y, "resolve/mod-mjs-ext-bare/main-mjs.mjs", true, false),
    ("resolve/hypothetical.js", "./mod-mjs-ext-rel", Kind::Y, "resolve/mod-mjs-ext-rel/main-mjs.mjs", true, false),
    ("resolve/hypothetical.js", "./mod-mjs-noext-bare", Kind::Y, "resolve/mod-mjs-noext-bare/main-mjs.mjs", true, false),
    ("resolve/hypothetical.js", "./mod-mjs-noext-rel", Kind::Y, "resolve/mod-mjs-noext-rel/main-mjs.mjs", true, false),
    ("resolve/hypothetical.js", "./mod-mjs-dir-bare", Kind::Y, "resolve/mod-mjs-dir-bare/main-mjs/index.mjs", true, false),
    ("resolve/hypothetical.js", "./mod-mjs-dir-rel", Kind::Y, "resolve/mod-mjs-dir-rel/main-mjs/index.mjs", true, false),
    ("resolve/hypothetical.js", "./mod-js-slash-bare", Kind::Y, "resolve/mod-js-slash-bare/main.js", false, false),
    ("resolve/hypothetical.js", "./mod-js-slash-rel", Kind::Y, "resolve/mod-js-slash-rel/main.js", false, false),
    ("resolve/hypothetical.js", "./named-jsz", Kind::Fail, "", false, false),
    ("resolve/hypothetical.js", "./file-and-dir", Kind::Y, "resolve/file-and-dir.js", false, false),
    ("resolve/hypothetical.js", "./file-and-dir/", Kind::Y, "resolve/file-and-dir/index.js", false, false),
    ("resolve/hypothetical.js", "./file-and-mod", Kind::Y, "resolve/file-and-mod.js", false, false),
    ("resolve/hypothetical.js", "./file-and-mod/", Kind::Y, "resolve/file-and-mod/main.js", false, false),
    ("resolve/hypothetical.js", "./dir-js/", Kind::Y, "resolve/dir-js/index.js", false, false),
    ("resolve/hypothetical.js", "./mod-js-noext-rel/", Kind::Y, "resolve/mod-js-noext-rel/main-js.js", false, false),
    ("resolve/hypothetical.js", "./named-js.js/", Kind::Fail, "", false, false),
    ("resolve/hypothetical.js", "./named-js/", Kind::Fail, "", false, false),
    ("resolve/hypothetical.js", "./named-noext/", Kind::Fail, "", false, false),
    ("resolve/subdir/hypothetical.js", "./named-js", Kind::Fail, "", false, false),
    ("resolve/subdir/hypothetical.js", "../named-noext", Kind::Y, "resolve/named-noext", false, false),
    ("resolve/subdir/hypothetical.js", "../named-js.js", Kind::Y, "resolve/named-js.js", false, false),
    ("resolve/subdir/hypothetical.js", "../named-json.json", Kind::Y, "resolve/named-json.json", false, false),
    ("resolve/subdir/hypothetical.js", "../named-mjs.mjs", Kind::Y, "resolve/named-mjs.mjs", true, false),
    ("resolve/subdir/hypothetical.js", "../named-jsz.jsz", Kind::Y, "resolve/named-jsz.jsz", false, false),
    ("resolve/subdir/hypothetical.js", "../named-js", Kind::Y, "resolve/named-js.js", false, false),
    ("resolve/subdir/hypothetical.js", "../named-json", Kind::Y, "resolve/named-json.json", false, false),
    ("resolve/subdir/hypothetical.js", "../named-mjs", Kind::Y, "resolve/named-mjs.mjs", true, false),
    ("resolve/subdir/hypothetical.js", "../dir-js", Kind::Y, "resolve/dir-js/index.js", false, false),
    ("resolve/subdir/hypothetical.js", "../dir-js/index", Kind::Y, "resolve/dir-js/index.js", false, false),
    ("resolve/subdir/hypothetical.js", "../dir-json", Kind::Y, "resolve/dir-json/index.json", false, false),
    ("resolve/subdir/hypothetical.js", "../dir-json/index", Kind::Y, "resolve/dir-json/index.json", false, false),
    ("resolve/subdir/hypothetical.js", "../dir-mjs", Kind::Y, "resolve/dir-mjs/index.mjs", true, false),
    ("resolve/subdir/hypothetical.js", "../dir-mjs/index", Kind::Y, "resolve/dir-mjs/index.mjs", true, false),
    ("resolve/subdir/hypothetical.js", "../mod-noext-bare", Kind::Y, "resolve/mod-noext-bare/main-noext", false, false),
    ("resolve/subdir/hypothetical.js", "../mod-noext-rel", Kind::Y, "resolve/mod-noext-rel/main-noext", false, false),
    ("resolve/subdir/hypothetical.js", "../mod-main-nesting-bare", Kind::Y, "resolve/mod-main-nesting-bare/subdir/index.js", false, false),
    ("resolve/subdir/hypothetical.js", "../mod-main-nesting-bare/subdir", Kind::Y, "resolve/mod-main-nesting-bare/subdir/inner-main.js", false, false),
    ("resolve/subdir/hypothetical.js", "../mod-main-nesting-rel", Kind::Y, "resolve/mod-main-nesting-rel/subdir/index.js", false, false),
    ("resolve/subdir/hypothetical.js", "../mod-main-nesting-rel/subdir", Kind::Y, "resolve/mod-main-nesting-rel/subdir/inner-main.js", false, false),
    ("resolve/subdir/hypothetical.js", "../mod-js-ext-bare", Kind::Y, "resolve/mod-js-ext-bare/main-js.js", false, false),
    ("resolve/subdir/hypothetical.js", "../mod-js-ext-rel", Kind::Y, "resolve/mod-js-ext-rel/main-js.js", false, false),
    ("resolve/subdir/hypothetical.js", "../mod-js-noext-bare", Kind::Y, "resolve/mod-js-noext-bare/main-js.js", false, false),
    ("resolve/subdir/hypothetical.js", "../mod-js-noext-rel", Kind::Y, "resolve/mod-js-noext-rel/main-js.js", false, false),
    ("resolve/subdir/hypothetical.js", "../mod-js-dir-bare", Kind::Y, "resolve/mod-js-dir-bare/main-js/index.js", false, false),
    ("resolve/subdir/hypothetical.js", "../mod-js-dir-rel", Kind::Y, "resolve/mod-js-dir-rel/main-js/index.js", false, false),
    ("resolve/subdir/hypothetical.js", "../mod-json-ext-bare", Kind::Y, "resolve/mod-json-ext-bare/main-json.json", false, false),
    ("resolve/subdir/hypothetical.js", "../mod-json-ext-rel", Kind::Y, "resolve/mod-json-ext-rel/main-json.json", false, false),
    ("resolve/subdir/hypothetical.js", "../mod-json-noext-bare", Kind::Y, "resolve/mod-json-noext-bare/main-json.json", false, false),
    ("resolve/subdir/hypothetical.js", "../mod-json-noext-rel", Kind::Y, "resolve/mod-json-noext-rel/main-json.json", false, false),
    ("resolve/subdir/hypothetical.js", "../mod-json-dir-bare", Kind::Y, "resolve/mod-json-dir-bare/main-json/index.json", false, false),
    ("resolve/subdir/hypothetical.js", "../mod-json-dir-rel", Kind::Y, "resolve/mod-json-dir-rel/main-json/index.json", false, false),
    ("resolve/subdir/hypothetical.js", "../mod-mjs-ext-bare", Kind::Y, "resolve/mod-mjs-ext-bare/main-mjs.mjs", true, false),
    ("resolve/subdir/hypothetical.js", "../mod-mjs-ext-rel", Kind::Y, "resolve/mod-mjs-ext-rel/main-mjs.mjs", true, false),
    ("resolve/subdir/hypothetical.js", "../mod-mjs-noext-bare", Kind::Y, "resolve/mod-mjs-noext-bare/main-mjs.mjs", true, false),
    ("resolve/subdir/hypothetical.js", "../mod-mjs-noext-rel", Kind::Y, "resolve/mod-mjs-noext-rel/main-mjs.mjs", true, false),
    ("resolve/subdir/hypothetical.js", "../mod-mjs-dir-bare", Kind::Y, "resolve/mod-mjs-dir-bare/main-mjs/index.mjs", true, false),
    ("resolve/subdir/hypothetical.js", "../mod-mjs-dir-rel", Kind::Y, "resolve/mod-mjs-dir-rel/main-mjs/index.mjs", true, false),
    ("resolve/subdir/hypothetical.js", "../mod-js-slash-bare", Kind::Y, "resolve/mod-js-slash-bare/main.js", false, false),
    ("resolve/subdir/hypothetical.js", "../mod-js-slash-rel", Kind::Y, "resolve/mod-js-slash-rel/main.js", false, false),
    ("resolve/subdir/hypothetical.js", "../named-jsz", Kind::Fail, "", false, false),
    ("resolve/subdir/hypothetical.js", "../file-and-dir", Kind::Y, "resolve/file-and-dir.js", false, false),
    ("resolve/subdir/hypothetical.js", "../file-and-dir/", Kind::Y, "resolve/file-and-dir/index.js", false, false),
    ("resolve/subdir/hypothetical.js", "../file-and-mod", Kind::Y, "resolve/file-and-mod.js", false, false),
    ("resolve/subdir/hypothetical.js", "../file-and-mod/", Kind::Y, "resolve/file-and-mod/main.js", false, false),
    ("resolve/subdir/hypothetical.js", "../dir-js/", Kind::Y, "resolve/dir-js/index.js", false, false),
    ("resolve/subdir/hypothetical.js", "../mod-js-noext-rel/", Kind::Y, "resolve/mod-js-noext-rel/main-js.js", false, false),
    ("resolve/subdir/hypothetical.js", "../named-js.js/", Kind::Fail, "", false, false),
    ("resolve/subdir/hypothetical.js", "../named-js/", Kind::Fail, "", false, false),
    ("resolve/subdir/hypothetical.js", "../named-noext/", Kind::Fail, "", false, false),
    ("resolve/subdir/hypothetical.js", "../mod-self-slash", Kind::Y, "resolve/mod-self-slash/index.js", true, false),
    ("resolve/subdir/hypothetical.js", "../mod-self-slash/", Kind::Y, "resolve/mod-self-slash/index.js", true, false),
    ("resolve/subdir/hypothetical.js", "../mod-self-noslash", Kind::Y, "resolve/mod-self-noslash/index.js", true, false),
    ("resolve/subdir/hypothetical.js", "../mod-self-noslash/", Kind::Y, "resolve/mod-self-noslash/index.js", true, false),
    ("resolve/subdir/hypothetical.js", "../mod-outer/mod-parent-slash", Kind::Y, "resolve/mod-outer/index.js", true, false),
    ("resolve/subdir/hypothetical.js", "../mod-outer/mod-parent-slash/", Kind::Y, "resolve/mod-outer/index.js", true, false),
    ("resolve/subdir/hypothetical.js", "../mod-outer/mod-parent-noslash", Kind::Y, "resolve/mod-outer/index.js", true, false),
    ("resolve/subdir/hypothetical.js", "../mod-outer/mod-parent-noslash/", Kind::Y, "resolve/mod-outer/index.js", true, false),
    ("resolve/mod-outer/mod-parent-slash/hypothetical.js", "..", Kind::Y, "resolve/mod-outer/main.js", true, false),
    ("resolve/mod-outer/mod-parent-slash/hypothetical.js", "../", Kind::Y, "resolve/mod-outer/main.js", true, false),
    ("resolve/mod-outer/mod-parent-noslash/hypothetical.js", "..", Kind::Y, "resolve/mod-outer/main.js", true, false),
    ("resolve/mod-outer/mod-parent-noslash/hypothetical.js", "../", Kind::Y, "resolve/mod-outer/main.js", true, false),
    ("resolve/dir-js/hypothetical.js", ".", Kind::Y, "resolve/dir-js/index.js", false, false),
    ("resolve/dir-js/hypothetical.js", "./", Kind::Y, "resolve/dir-js/index.js", false, false),
    ("resolve/dir-json/hypothetical.js", ".", Kind::Y, "resolve/dir-json/index.json", false, false),
    ("resolve/dir-json/hypothetical.js", "./", Kind::Y, "resolve/dir-json/index.json", false, false),
    ("resolve/dir-mjs/hypothetical.js", ".", Kind::Y, "resolve/dir-mjs/index.mjs", true, false),
    ("resolve/dir-mjs/hypothetical.js", "./", Kind::Y, "resolve/dir-mjs/index.mjs", true, false),
    ("resolve/mod-noext-bare/hypothetical.js", ".", Kind::Y, "resolve/mod-noext-bare/main-noext", false, false),
    ("resolve/mod-noext-bare/hypothetical.js", "./", Kind::Y, "resolve/mod-noext-bare/main-noext", false, false),
    ("resolve/mod-noext-rel/hypothetical.js", ".", Kind::Y, "resolve/mod-noext-rel/main-noext", false, false),
    ("resolve/mod-noext-rel/hypothetical.js", "./", Kind::Y, "resolve/mod-noext-rel/main-noext", false, false),
    ("resolve/mod-main-nesting-bare/hypothetical.js", ".", Kind::Y, "resolve/mod-main-nesting-bare/subdir/index.js", false, false),
    ("resolve/mod-main-nesting-bare/hypothetical.js", "./", Kind::Y, "resolve/mod-main-nesting-bare/subdir/index.js", false, false),
    ("resolve/mod-main-nesting-bare/subdir/hypothetical.js", ".", Kind::Y, "resolve/mod-main-nesting-bare/subdir/inner-main.js", false, false),
    ("resolve/mod-main-nesting-bare/subdir/hypothetical.js", "./", Kind::Y, "resolve/mod-main-nesting-bare/subdir/inner-main.js", false, false),
    ("resolve/mod-main-nesting-rel/hypothetical.js", ".", Kind::Y, "resolve/mod-main-nesting-rel/subdir/index.js", false, false),
    ("resolve/mod-main-nesting-rel/hypothetical.js", "./", Kind::Y, "resolve/mod-main-nesting-rel/subdir/index.js", false, false),
    ("resolve/mod-main-nesting-rel/subdir/hypothetical.js", "..", Kind::Y, "resolve/mod-main-nesting-rel/subdir/index.js", false, false),
    ("resolve/mod-main-nesting-rel/subdir/hypothetical.js", "../", Kind::Y, "resolve/mod-main-nesting-rel/subdir/index.js", false, false),
    ("resolve/mod-main-nesting-rel/subdir/hypothetical.js", ".", Kind::Y, "resolve/mod-main-nesting-rel/subdir/inner-main.js", false, false),
    ("resolve/mod-main-nesting-rel/subdir/hypothetical.js", "./", Kind::Y, "resolve/mod-main-nesting-rel/subdir/inner-main.js", false, false),
    ("resolve/mod-js-ext-bare/hypothetical.js", ".", Kind::Y, "resolve/mod-js-ext-bare/main-js.js", false, false),
    ("resolve/mod-js-ext-bare/hypothetical.js", "./", Kind::Y, "resolve/mod-js-ext-bare/main-js.js", false, false),
    ("resolve/mod-js-ext-rel/hypothetical.js", ".", Kind::Y, "resolve/mod-js-ext-rel/main-js.js", false, false),
    ("resolve/mod-js-ext-rel/hypothetical.js", "./", Kind::Y, "resolve/mod-js-ext-rel/main-js.js", false, false),
    ("resolve/mod-js-noext-bare/hypothetical.js", ".", Kind::Y, "resolve/mod-js-noext-bare/main-js.js", false, false),
    ("resolve/mod-js-noext-bare/hypothetical.js", "./", Kind::Y, "resolve/mod-js-noext-bare/main-js.js", false, false),
    ("resolve/mod-js-noext-rel/hypothetical.js", ".", Kind::Y, "resolve/mod-js-noext-rel/main-js.js", false, false),
    ("resolve/mod-js-noext-rel/hypothetical.js", "./", Kind::Y, "resolve/mod-js-noext-rel/main-js.js", false, false),
    ("resolve/mod-js-dir-bare/hypothetical.js", ".", Kind::Y, "resolve/mod-js-dir-bare/main-js/index.js", false, false),
    ("resolve/mod-js-dir-bare/hypothetical.js", "./", Kind::Y, "resolve/mod-js-dir-bare/main-js/index.js", false, false),
    ("resolve/mod-js-dir-bare/main-js/hypothetical.js", "..", Kind::Y, "resolve/mod-js-dir-bare/main-js/index.js", false, false),
    ("resolve/mod-js-dir-bare/main-js/hypothetical.js", "../", Kind::Y, "resolve/mod-js-dir-bare/main-js/index.js", false, false),
    ("resolve/mod-js-dir-rel/hypothetical.js", ".", Kind::Y, "resolve/mod-js-dir-rel/main-js/index.js", false, false),
    ("resolve/mod-js-dir-rel/hypothetical.js", "./", Kind::Y, "resolve/mod-js-dir-rel/main-js/index.js", false, false),
    ("resolve/mod-js-dir-rel/main-js/hypothetical.js", "..", Kind::Y, "resolve/mod-js-dir-rel/main-js/index.js", false, false),
    ("resolve/mod-js-dir-rel/main-js/hypothetical.js", "../", Kind::Y, "resolve/mod-js-dir-rel/main-js/index.js", false, false),
    ("resolve/mod-json-ext-bare/hypothetical.js", ".", Kind::Y, "resolve/mod-json-ext-bare/main-json.json", false, false),
    ("resolve/mod-json-ext-bare/hypothetical.js", "./", Kind::Y, "resolve/mod-json-ext-bare/main-json.json", false, false),
    ("resolve/mod-json-ext-rel/hypothetical.js", ".", Kind::Y, "resolve/mod-json-ext-rel/main-json.json", false, false),
    ("resolve/mod-json-ext-rel/hypothetical.js", "./", Kind::Y, "resolve/mod-json-ext-rel/main-json.json", false, false),
    ("resolve/mod-json-noext-bare/hypothetical.js", ".", Kind::Y, "resolve/mod-json-noext-bare/main-json.json", false, false),
    ("resolve/mod-json-noext-bare/hypothetical.js", "./", Kind::Y, "resolve/mod-json-noext-bare/main-json.json", false, false),
    ("resolve/mod-json-noext-rel/hypothetical.js", ".", Kind::Y, "resolve/mod-json-noext-rel/main-json.json", false, false),
    ("resolve/mod-json-noext-rel/hypothetical.js", "./", Kind::Y, "resolve/mod-json-noext-rel/main-json.json", false, false),
    ("resolve/mod-json-dir-bare/hypothetical.js", ".", Kind::Y, "resolve/mod-json-dir-bare/main-json/index.json", false, false),
    ("resolve/mod-json-dir-bare/hypothetical.js", "./", Kind::Y, "resolve/mod-json-dir-bare/main-json/index.json", false, false),
    ("resolve/mod-json-dir-rel/hypothetical.js", ".", Kind::Y, "resolve/mod-json-dir-rel/main-json/index.json", false, false),
    ("resolve/mod-json-dir-rel/hypothetical.js", "./", Kind::Y, "resolve/mod-json-dir-rel/main-json/index.json", false, false),
    ("resolve/mod-mjs-ext-bare/hypothetical.js", ".", Kind::Y, "resolve/mod-mjs-ext-bare/main-mjs.mjs", true, false),
    ("resolve/mod-mjs-ext-bare/hypothetical.js", "./", Kind::Y, "resolve/mod-mjs-ext-bare/main-mjs.mjs", true, false),
    ("resolve/mod-mjs-ext-rel/hypothetical.js", ".", Kind::Y, "resolve/mod-mjs-ext-rel/main-mjs.mjs", true, false),
    ("resolve/mod-mjs-ext-rel/hypothetical.js", "./", Kind::Y, "resolve/mod-mjs-ext-rel/main-mjs.mjs", true, false),
    ("resolve/mod-mjs-noext-bare/hypothetical.js", ".", Kind::Y, "resolve/mod-mjs-noext-bare/main-mjs.mjs", true, false),
    ("resolve/mod-mjs-noext-bare/hypothetical.js", "./", Kind::Y, "resolve/mod-mjs-noext-bare/main-mjs.mjs", true, false),
    ("resolve/mod-mjs-noext-rel/hypothetical.js", ".", Kind::Y, "resolve/mod-mjs-noext-rel/main-mjs.mjs", true, false),
    ("resolve/mod-mjs-noext-rel/hypothetical.js", "./", Kind::Y, "resolve/mod-mjs-noext-rel/main-mjs.mjs", true, false),
    ("resolve/mod-mjs-dir-bare/hypothetical.js", ".", Kind::Y, "resolve/mod-mjs-dir-bare/main-mjs/index.mjs", true, false),
    ("resolve/mod-mjs-dir-bare/hypothetical.js", "./", Kind::Y, "resolve/mod-mjs-dir-bare/main-mjs/index.mjs", true, false),
    ("resolve/mod-mjs-dir-bare/main-mjs/hypothetical.js", "..", Kind::Y, "resolve/mod-mjs-dir-bare/main-mjs/index.mjs", true, false),
    ("resolve/mod-mjs-dir-bare/main-mjs/hypothetical.js", "../", Kind::Y, "resolve/mod-mjs-dir-bare/main-mjs/index.mjs", true, false),
    ("resolve/mod-mjs-dir-rel/hypothetical.js", ".", Kind::Y, "resolve/mod-mjs-dir-rel/main-mjs/index.mjs", true, false),
    ("resolve/mod-mjs-dir-rel/hypothetical.js", "./", Kind::Y, "resolve/mod-mjs-dir-rel/main-mjs/index.mjs", true, false),
    ("resolve/mod-mjs-dir-rel/main-mjs/hypothetical.js", "..", Kind::Y, "resolve/mod-mjs-dir-rel/main-mjs/index.mjs", true, false),
    ("resolve/mod-mjs-dir-rel/main-mjs/hypothetical.js", "../", Kind::Y, "resolve/mod-mjs-dir-rel/main-mjs/index.mjs", true, false),
    ("resolve/mod-js-slash-bare/hypothetical.js", ".", Kind::Y, "resolve/mod-js-slash-bare/main.js", false, false),
    ("resolve/mod-js-slash-bare/hypothetical.js", "./", Kind::Y, "resolve/mod-js-slash-bare/main.js", false, false),
    ("resolve/mod-js-slash-bare/main/hypothetical.js", "..", Kind::Y, "resolve/mod-js-slash-bare/main.js", false, false),
    ("resolve/mod-js-slash-bare/main/hypothetical.js", "../", Kind::Y, "resolve/mod-js-slash-bare/main.js", false, false),
    ("resolve/mod-js-slash-rel/hypothetical.js", ".", Kind::Y, "resolve/mod-js-slash-rel/main.js", false, false),
    ("resolve/mod-js-slash-rel/hypothetical.js", "./", Kind::Y, "resolve/mod-js-slash-rel/main.js", false, false),
    ("resolve/mod-js-slash-rel/main/hypothetical.js", "..", Kind::Y, "resolve/mod-js-slash-rel/main.js", false, false),
    ("resolve/mod-js-slash-rel/main/hypothetical.js", "../", Kind::Y, "resolve/mod-js-slash-rel/main.js", false, false),
    ("resolve/file-and-dir/hypothetical.js", ".", Kind::Y, "resolve/file-and-dir/index.js", false, false),
    ("resolve/file-and-dir/hypothetical.js", "./", Kind::Y, "resolve/file-and-dir/index.js", false, false),
    ("resolve/file-and-dir/subdir/hypothetical.js", "..", Kind::Y, "resolve/file-and-dir/index.js", false, false),
    ("resolve/file-and-dir/subdir/hypothetical.js", "../", Kind::Y, "resolve/file-and-dir/index.js", false, false),
    ("resolve/file-and-mod/hypothetical.js", ".", Kind::Y, "resolve/file-and-mod/main.js", false, false),
    ("resolve/file-and-mod/hypothetical.js", "./", Kind::Y, "resolve/file-and-mod/main.js", false, false),
    ("resolve/file-and-mod/subdir/hypothetical.js", "..", Kind::Y, "resolve/file-and-mod/main.js", false, false),
    ("resolve/file-and-mod/subdir/hypothetical.js", "../", Kind::Y, "resolve/file-and-mod/main.js", false, false),
    ("resolve/hypothetical.js", "./file-and-dir/submod", Kind::Y, "resolve/file-and-dir.js", false, false),
    ("resolve/hypothetical.js", "./file-and-dir/submod/", Kind::Y, "resolve/file-and-dir.js", false, false),
    ("resolve/hypothetical.js", "./file-and-mod/submod", Kind::Y, "resolve/file-and-mod.js", false, false),
    ("resolve/hypothetical.js", "./file-and-mod/submod/", Kind::Y, "resolve/file-and-mod.js", false, false),
];

/// Specifiers that name a module, a file whose name starts with a dot, or a name that a file and a directory share.
pub const RESOLVE_FURTHER: [Case; 233] = [
    ("resolve/hypothetical.js", "n-named-noext", Kind::Y, "resolve/node_modules/n-named-noext", false, false),
    ("resolve/hypothetical.js", "n-named-js.js", Kind::Y, "resolve/node_modules/n-named-js.js", false, false),
    ("resolve/hypothetical.js", "n-named-json.json", Kind::Y, "resolve/node_modules/n-named-json.json", false, false),
    ("resolve/hypothetical.js", "n-named-mjs.mjs", Kind::Y, "resolve/node_modules/n-named-mjs.mjs", true, false),
    ("resolve/hypothetical.js", "n-named-jsz.jsz", Kind::Y, "resolve/node_modules/n-named-jsz.jsz", false, false),
    ("resolve/hypothetical.js", "n-named-js", Kind::Y, "resolve/node_modules/n-named-js.js", false, false),
    ("resolve/hypothetical.js", "n-named-json", Kind::Y, "resolve/node_modules/n-named-json.json", false, false),
    ("resolve/hypothetical.js", "n-named-mjs", Kind::Y, "resolve/node_modules/n-named-mjs.mjs", true, false),
    ("resolve/hypothetical.js", "n-dir-js", Kind::Y, "resolve/node_modules/n-dir-js/index.js", false, false),
    ("resolve/hypothetical.js", "n-dir-js/index", Kind::Y, "resolve/node_modules/n-dir-js/index.js", false, false),
    ("resolve/hypothetical.js", "n-dir-json", Kind::Y, "resolve/node_modules/n-dir-json/index.json", false, false),
    ("resolve/hypothetical.js", "n-dir-json/index", Kind::Y, "resolve/node_modules/n-dir-json/index.json", false, false),
    ("resolve/hypothetical.js", "n-dir-mjs", Kind::Y, "resolve/node_modules/n-dir-mjs/index.mjs", true, false),
    ("resolve/hypothetical.js", "n-dir-mjs/index", Kind::Y, "resolve/node_modules/n-dir-mjs/index.mjs", true, false),
    ("resolve/hypothetical.js", "n-mod-noext-bare", Kind::Y, "resolve/node_modules/n-mod-noext-bare/main-noext", false, false),
    ("resolve/hypothetical.js", "n-mod-noext-rel", Kind::Y, "resolve/node_modules/n-mod-noext-rel/main-noext", false, false),
    ("resolve/hypothetical.js", "n-mod-main-nesting-bare", Kind::Y, "resolve/node_modules/n-mod-main-nesting-bare/subdir/index.js", false, false),
    ("resolve/hypothetical.js", "n-mod-main-nesting-bare/subdir", Kind::Y, "resolve/node_modules/n-mod-main-nesting-bare/subdir/inner-main.js", false, false),
    ("resolve/hypothetical.js", "n-mod-main-nesting-rel", Kind::Y, "resolve/node_modules/n-mod-main-nesting-rel/subdir/index.js", false, false),
    ("resolve/hypothetical.js", "n-mod-main-nesting-rel/subdir", Kind::Y, "resolve/node_modules/n-mod-main-nesting-rel/subdir/inner-main.js", false, false),
    ("resolve/hypothetical.js", "n-mod-js-ext-bare", Kind::Y, "resolve/node_modules/n-mod-js-ext-bare/main-js.js", false, false),
    ("resolve/hypothetical.js", "n-mod-js-ext-rel", Kind::Y, "resolve/node_modules/n-mod-js-ext-rel/main-js.js", false, false),
    ("resolve/hypothetical.js", "n-mod-js-noext-bare", Kind::Y, "resolve/node_modules/n-mod-js-noext-bare/main-js.js", false, false),
    ("resolve/hypothetical.js", "n-mod-js-noext-rel", Kind::Y, "resolve/node_modules/n-mod-js-noext-rel/main-js.js", false, false),
    ("resolve/hypothetical.js", "n-mod-js-dir-bare", Kind::Y, "resolve/node_modules/n-mod-js-dir-bare/main-js/index.js", false, false),
    ("resolve/hypothetical.js", "n-mod-js-dir-rel", Kind::Y, "resolve/node_modules/n-mod-js-dir-rel/main-js/index.js", false, false),
    ("resolve/hypothetical.js", "n-mod-json-ext-bare", Kind::Y, "resolve/node_modules/n-mod-json-ext-bare/main-json.json", false, false),
    ("resolve/hypothetical.js", "n-mod-json-ext-rel", Kind::Y, "resolve/node_modules/n-mod-json-ext-rel/main-json.json", false, false),
    ("resolve/hypothetical.js", "n-mod-json-noext-bare", Kind::Y, "resolve/node_modules/n-mod-json-noext-bare/main-json.json", false, false),
    ("resolve/hypothetical.js", "n-mod-json-noext-rel", Kind::Y, "resolve/node_modules/n-mod-json-noext-rel/main-json.json", false, false),
    ("resolve/hypothetical.js", "n-mod-json-dir-bare", Kind::Y, "resolve/node_modules/n-mod-json-dir-bare/main-json/index.json", false, false),
    ("resolve/hypothetical.js", "n-mod-json-dir-rel", Kind::Y, "resolve/node_modules/n-mod-json-dir-rel/main-json/index.json", false, false),
    ("resolve/hypothetical.js", "n-mod-mjs-ext-bare", Kind::Y, "resolve/node_modules/n-mod-mjs-ext-bare/main-mjs.mjs", true, false),
    ("resolve/hypothetical.js", "n-mod-mjs-ext-rel", Kind::Y, "resolve/node_modules/n-mod-mjs-ext-rel/main-mjs.mjs", true, false),
    ("resolve/hypothetical.js", "n-mod-mjs-noext-bare", Kind::Y, "resolve/node_modules/n-mod-mjs-noext-bare/main-mjs.mjs", true, false),
    ("resolve/hypothetical.js", "n-mod-mjs-noext-rel", Kind::Y, "resolve/node_modules/n-mod-mjs-noext-rel/main-mjs.mjs", true, false),
    ("resolve/hypothetical.js", "n-mod-mjs-dir-bare", Kind::Y, "resolve/node_modules/n-mod-mjs-dir-bare/main-mjs/index.mjs", true, false),
    ("resolve/hypothetical.js", "n-mod-mjs-dir-rel", Kind::Y, "resolve/node_modules/n-mod-mjs-dir-rel/main-mjs/index.mjs", true, false),
    ("resolve/hypothetical.js", "n-mod-js-slash-bare", Kind::Y, "resolve/node_modules/n-mod-js-slash-bare/main.js", false, false),
    ("resolve/hypothetical.js", "n-mod-js-slash-rel", Kind::Y, "resolve/node_modules/n-mod-js-slash-rel/main.js", false, false),
    ("resolve/hypothetical.js", "n-named-jsz", Kind::Fail, "", false, false),
    ("resolve/hypothetical.js", "n-file-and-dir", Kind::Y, "resolve/node_modules/n-file-and-dir.js", false, false),
    ("resolve/hypothetical.js", "n-file-and-dir/", Kind::Y, "resolve/node_modules/n-file-and-dir/index.js", false, false),
    ("resolve/hypothetical.js", "n-file-and-mod", Kind::Y, "resolve/node_modules/n-file-and-mod.js", false, false),
    ("resolve/hypothetical.js", "n-file-and-mod/", Kind::Y, "resolve/node_modules/n-file-and-mod/main.js", false, false),
    ("resolve/hypothetical.js", "n-dir-js/", Kind::Y, "resolve/node_modules/n-dir-js/index.js", false, false),
    ("resolve/hypothetical.js", "n-mod-js-noext-rel/", Kind::Y, "resolve/node_modules/n-mod-js-noext-rel/main-js.js", false, false),
    ("resolve/hypothetical.js", "n-named-js.js/", Kind::Fail, "", false, false),
    ("resolve/hypothetical.js", "n-named-js/", Kind::Fail, "", false, false),
    ("resolve/hypothetical.js", "n-named-noext/", Kind::Fail, "", false, false),
    ("resolve/hypothetical.js", "./n-named-noext", Kind::Fail, "", false, false),
    ("resolve/hypothetical.js", "./n-named-js.js", Kind::Fail, "", false, false),
    ("resolve/hypothetical.js", "./n-named-json.json", Kind::Fail, "", false, false),
    ("resolve/hypothetical.js", "./n-named-mjs.mjs", Kind::Fail, "", true, false),
    ("resolve/hypothetical.js", "./n-named-jsz.jsz", Kind::Fail, "", false, false),
    ("resolve/hypothetical.js", "./n-named-js", Kind::Fail, "", false, false),
    ("resolve/hypothetical.js", "./n-named-json", Kind::Fail, "", false, false),
    ("resolve/hypothetical.js", "./n-named-mjs", Kind::Fail, "", true, false),
    ("resolve/hypothetical.js", "./n-dir-js", Kind::Fail, "", false, false),
    ("resolve/hypothetical.js", "./n-dir-js/index", Kind::Fail, "", false, false),
    ("resolve/hypothetical.js", "./n-dir-json", Kind::Fail, "", false, false),
    ("resolve/hypothetical.js", "./n-dir-json/index", Kind::Fail, "", false, false),
    ("resolve/hypothetical.js", "./n-dir-mjs", Kind::Fail, "", true, false),
    ("resolve/hypothetical.js", "./n-dir-mjs/index", Kind::Fail, "", true, false),
    ("resolve/hypothetical.js", "./n-mod-noext-bare", Kind::Fail, "", false, false),
    ("resolve/hypothetical.js", "./n-mod-noext-rel", Kind::Fail, "", false, false),
    ("resolve/hypothetical.js", "./n-mod-main-nesting-bare", Kind::Fail, "", false, false),
    ("resolve/hypothetical.js", "./n-mod-main-nesting-bare/subdir", Kind::Fail, "", false, false),
    ("resolve/hypothetical.js", "./n-mod-main-nesting-rel", Kind::Fail, "", false, false),
    ("resolve/hypothetical.js", "./n-mod-main-nesting-rel/subdir", Kind::Fail, "", false, false),
    ("resolve/hypothetical.js", "./n-mod-js-ext-bare", Kind::Fail, "", false, false),
    ("resolve/hypothetical.js", "./n-mod-js-ext-rel", Kind::Fail, "", false, false),
    ("resolve/hypothetical.js", "./n-mod-js-noext-bare", Kind::Fail, "", false, false),
    ("resolve/hypothetical.js", "./n-mod-js-noext-rel", Kind::Fail, "", false, false),
    ("resolve/hypothetical.js", "./n-mod-js-dir-bare", Kind::Fail, "", false, false),
    ("resolve/hypothetical.js", "./n-mod-js-dir-rel", Kind::Fail, "", false, false),
    ("resolve/hypothetical.js", "./n-mod-json-ext-bare", Kind::Fail, "", false, false),
    ("resolve/hypothetical.js", "./n-mod-json-ext-rel", Kind::Fail, "", false, false),
    ("resolve/hypothetical.js", "./n-mod-json-noext-bare", Kind::Fail, "", false, false),
    ("resolve/hypothetical.js", "./n-mod-json-noext-rel", Kind::Fail, "", false, false),
    ("resolve/hypothetical.js", "./n-mod-json-dir-bare", Kind::Fail, "", false, false),
    ("resolve/hypothetical.js", "./n-mod-json-dir-rel", Kind::Fail, "", false, false),
    ("resolve/hypothetical.js", "./n-mod-mjs-ext-bare", Kind::Fail, "", true, false),
    ("resolve/hypothetical.js", "./n-mod-mjs-ext-rel", Kind::Fail, "", true, false),
    ("resolve/hypothetical.js", "./n-mod-mjs-noext-bare", Kind::Fail, "", true, false),
    ("resolve/hypothetical.js", "./n-mod-mjs-noext-rel", Kind::Fail, "", true, false),
    ("resolve/hypothetical.js", "./n-mod-mjs-dir-bare", Kind::Fail, "", true, false),
    ("resolve/hypothetical.js", "./n-mod-mjs-dir-rel", Kind::Fail, "", true, false),
    ("resolve/hypothetical.js", "./n-mod-js-slash-bare", Kind::Fail, "", false, false),
    ("resolve/hypothetical.js", "./n-mod-js-slash-rel", Kind::Fail, "", false, false),
    ("resolve/hypothetical.js", "./n-named-jsz", Kind::Fail, "", false, false),
    ("resolve/hypothetical.js", "./n-file-and-dir", Kind::Fail, "", false, false),
    ("resolve/hypothetical.js", "./n-file-and-dir/", Kind::Fail, "", false, false),
    ("resolve/hypothetical.js", "./n-file-and-mod", Kind::Fail, "", false, false),
    ("resolve/hypothetical.js", "./n-file-and-mod/", Kind::Fail, "", false, false),
    ("resolve/hypothetical.js", "./n-dir-js/", Kind::Fail, "", false, false),
    ("resolve/hypothetical.js", "./n-mod-js-noext-rel/", Kind::Fail, "", false, false),
    ("resolve/hypothetical.js", "./n-named-js.js/", Kind::Fail, "", false, false),
    ("resolve/hypothetical.js", "./n-named-js/", Kind::Fail, "", false, false),
    ("resolve/hypothetical.js", "./n-named-noext/", Kind::Fail, "", false, false),
    ("resolve/hypothetical.js", "shadowed", Kind::Y, "resolve/node_modules/shadowed/index.js", false, false),
    ("resolve/hypothetical.js", "@user/scoped", Kind::Y, "resolve/node_modules/@user/scoped/index.js", false, false),
    ("resolve/hypothetical.js", "@user/scoped/index", Kind::Y, "resolve/node_modules/@user/scoped/index.js", false, false),
    ("resolve/hypothetical.js", "@user/scoped/index.js", Kind::Y, "resolve/node_modules/@user/scoped/index.js", false, false),
    ("resolve/hypothetical.js", "shallow/s-named-noext", Kind::Y, "resolve/node_modules/shallow/s-named-noext", false, false),
    ("resolve/hypothetical.js", "shallow/s-named-js.js", Kind::Y, "resolve/node_modules/shallow/s-named-js.js", false, false),
    ("resolve/hypothetical.js", "shallow/s-named-json.json", Kind::Y, "resolve/node_modules/shallow/s-named-json.json", false, false),
    ("resolve/hypothetical.js", "shallow/s-named-mjs.mjs", Kind::Y, "resolve/node_modules/shallow/s-named-mjs.mjs", true, false),
    ("resolve/hypothetical.js", "shallow/s-named-jsz.jsz", Kind::Y, "resolve/node_modules/shallow/s-named-jsz.jsz", false, false),
    ("resolve/hypothetical.js", "shallow/s-named-js", Kind::Y, "resolve/node_modules/shallow/s-named-js.js", false, false),
    ("resolve/hypothetical.js", "shallow/s-named-json", Kind::Y, "resolve/node_modules/shallow/s-named-json.json", false, false),
    ("resolve/hypothetical.js", "shallow/s-named-mjs", Kind::Y, "resolve/node_modules/shallow/s-named-mjs.mjs", true, false),
    ("resolve/hypothetical.js", "shallow/s-dir-js", Kind::Y, "resolve/node_modules/shallow/s-dir-js/index.js", false, false),
    ("resolve/hypothetical.js", "shallow/s-dir-js/index", Kind::Y, "resolve/node_modules/shallow/s-dir-js/index.js", false, false),
    ("resolve/hypothetical.js", "shallow/s-dir-json", Kind::Y, "resolve/node_modules/shallow/s-dir-json/index.json", false, false),
    ("resolve/hypothetical.js", "shallow/s-dir-json/index", Kind::Y, "resolve/node_modules/shallow/s-dir-json/index.json", false, false),
    ("resolve/hypothetical.js", "shallow/s-dir-mjs", Kind::Y, "resolve/node_modules/shallow/s-dir-mjs/index.mjs", true, false),
    ("resolve/hypothetical.js", "shallow/s-dir-mjs/index", Kind::Y, "resolve/node_modules/shallow/s-dir-mjs/index.mjs", true, false),
    ("resolve/hypothetical.js", "shallow/s-mod-noext-bare", Kind::Y, "resolve/node_modules/shallow/s-mod-noext-bare/main-noext", false, false),
    ("resolve/hypothetical.js", "shallow/s-mod-noext-rel", Kind::Y, "resolve/node_modules/shallow/s-mod-noext-rel/main-noext", false, false),
    ("resolve/hypothetical.js", "shallow/s-mod-main-nesting-bare", Kind::Y, "resolve/node_modules/shallow/s-mod-main-nesting-bare/subdir/index.js", false, false),
    ("resolve/hypothetical.js", "shallow/s-mod-main-nesting-bare/subdir", Kind::Y, "resolve/node_modules/shallow/s-mod-main-nesting-bare/subdir/inner-main.js", false, false),
    ("resolve/hypothetical.js", "shallow/s-mod-main-nesting-rel", Kind::Y, "resolve/node_modules/shallow/s-mod-main-nesting-rel/subdir/index.js", false, false),
    ("resolve/hypothetical.js", "shallow/s-mod-main-nesting-rel/subdir", Kind::Y, "resolve/node_modules/shallow/s-mod-main-nesting-rel/subdir/inner-main.js", false, false),
    ("resolve/hypothetical.js", "shallow/s-mod-js-ext-bare", Kind::Y, "resolve/node_modules/shallow/s-mod-js-ext-bare/main-js.js", false, false),
    ("resolve/hypothetical.js", "shallow/s-mod-js-ext-rel", Kind::Y, "resolve/node_modules/shallow/s-mod-js-ext-rel/main-js.js", false, false),
    ("resolve/hypothetical.js", "shallow/s-mod-js-noext-bare", Kind::Y, "resolve/node_modules/shallow/s-mod-js-noext-bare/main-js.js", false, false),
    ("resolve/hypothetical.js", "shallow/s-mod-js-noext-rel", Kind::Y, "resolve/node_modules/shallow/s-mod-js-noext-rel/main-js.js", false, false),
    ("resolve/hypothetical.js", "shallow/s-mod-js-dir-bare", Kind::Y, "resolve/node_modules/shallow/s-mod-js-dir-bare/main-js/index.js", false, false),
    ("resolve/hypothetical.js", "shallow/s-mod-js-dir-rel", Kind::Y, "resolve/node_modules/shallow/s-mod-js-dir-rel/main-js/index.js", false, false),
    ("resolve/hypothetical.js", "shallow/s-mod-json-ext-bare", Kind::Y, "resolve/node_modules/shallow/s-mod-json-ext-bare/main-json.json", false, false),
    ("resolve/hypothetical.js", "shallow/s-mod-json-ext-rel", Kind::Y, "resolve/node_modules/shallow/s-mod-json-ext-rel/main-json.json", false, false),
    ("resolve/hypothetical.js", "shallow/s-mod-json-noext-bare", Kind::Y, "resolve/node_modules/shallow/s-mod-json-noext-bare/main-json.json", false, false),
    ("resolve/hypothetical.js", "shallow/s-mod-json-noext-rel", Kind::Y, "resolve/node_modules/shallow/s-mod-json-noext-rel/main-json.json", false, false),
    ("resolve/hypothetical.js", "shallow/s-mod-json-dir-bare", Kind::Y, "resolve/node_modules/shallow/s-mod-json-dir-bare/main-json/index.json", false, false),
    ("resolve/hypothetical.js", "shallow/s-mod-json-dir-rel", Kind::Y, "resolve/node_modules/shallow/s-mod-json-dir-rel/main-json/index.json", false, false),
    ("resolve/hypothetical.js", "shallow/s-mod-mjs-ext-bare", Kind::Y, "resolve/node_modules/shallow/s-mod-mjs-ext-bare/main-mjs.mjs", true, false),
    ("resolve/hypothetical.js", "shallow/s-mod-mjs-ext-rel", Kind::Y, "resolve/node_modules/shallow/s-mod-mjs-ext-rel/main-mjs.mjs", true, false),
    ("resolve/hypothetical.js", "shallow/s-mod-mjs-noext-bare", Kind::Y, "resolve/node_modules/shallow/s-mod-mjs-noext-bare/main-mjs.mjs", true, false),
    ("resolve/hypothetical.js", "shallow/s-mod-mjs-noext-rel", Kind::Y, "resolve/node_modules/shallow/s-mod-mjs-noext-rel/main-mjs.mjs", true, false),
    ("resolve/hypothetical.js", "shallow/s-mod-mjs-dir-bare", Kind::Y, "resolve/node_modules/shallow/s-mod-mjs-dir-bare/main-mjs/index.mjs", true, false),
    ("resolve/hypothetical.js", "shallow/s-mod-mjs-dir-rel", Kind::Y, "resolve/node_modules/shallow/s-mod-mjs-dir-rel/main-mjs/index.mjs", true, false),
    ("resolve/hypothetical.js", "shallow/s-mod-js-slash-bare", Kind::Y, "resolve/node_modules/shallow/s-mod-js-slash-bare/main.js", false, false),
    ("resolve/hypothetical.js", "shallow/s-mod-js-slash-rel", Kind::Y, "resolve/node_modules/shallow/s-mod-js-slash-rel/main.js", false, false),
    ("resolve/hypothetical.js", "shallow/s-named-jsz", Kind::Fail, "", false, false),
    ("resolve/hypothetical.js", "shallow/s-file-and-dir", Kind::Y, "resolve/node_modules/shallow/s-file-and-dir.js", false, false),
    ("resolve/hypothetical.js", "shallow/s-file-and-dir/", Kind::Y, "resolve/node_modules/shallow/s-file-and-dir/index.js", false, false),
    ("resolve/hypothetical.js", "shallow/s-file-and-mod", Kind::Y, "resolve/node_modules/shallow/s-file-and-mod.js", false, false),
    ("resolve/hypothetical.js", "shallow/s-file-and-mod/", Kind::Y, "resolve/node_modules/shallow/s-file-and-mod/main.js", false, false),
    ("resolve/hypothetical.js", "shallow/s-dir-js/", Kind::Y, "resolve/node_modules/shallow/s-dir-js/index.js", false, false),
    ("resolve/hypothetical.js", "shallow/s-mod-js-noext-rel/", Kind::Y, "resolve/node_modules/shallow/s-mod-js-noext-rel/main-js.js", false, false),
    ("resolve/hypothetical.js", "shallow/s-named-js.js/", Kind::Fail, "", false, false),
    ("resolve/hypothetical.js", "shallow/s-named-js/", Kind::Fail, "", false, false),
    ("resolve/hypothetical.js", "shallow/s-named-noext/", Kind::Fail, "", false, false),
    ("resolve/hypothetical.js", "deep/dir1/dir2/dir3/d-named-noext", Kind::Y, "resolve/node_modules/deep/dir1/dir2/dir3/d-named-noext", false, false),
    ("resolve/hypothetical.js", "deep/dir1/dir2/dir3/d-named-js.js", Kind::Y, "resolve/node_modules/deep/dir1/dir2/dir3/d-named-js.js", false, false),
    ("resolve/hypothetical.js", "deep/dir1/dir2/dir3/d-named-json.json", Kind::Y, "resolve/node_modules/deep/dir1/dir2/dir3/d-named-json.json", false, false),
    ("resolve/hypothetical.js", "deep/dir1/dir2/dir3/d-named-mjs.mjs", Kind::Y, "resolve/node_modules/deep/dir1/dir2/dir3/d-named-mjs.mjs", true, false),
    ("resolve/hypothetical.js", "deep/dir1/dir2/dir3/d-named-jsz.jsz", Kind::Y, "resolve/node_modules/deep/dir1/dir2/dir3/d-named-jsz.jsz", false, false),
    ("resolve/hypothetical.js", "deep/dir1/dir2/dir3/d-named-js", Kind::Y, "resolve/node_modules/deep/dir1/dir2/dir3/d-named-js.js", false, false),
    ("resolve/hypothetical.js", "deep/dir1/dir2/dir3/d-named-json", Kind::Y, "resolve/node_modules/deep/dir1/dir2/dir3/d-named-json.json", false, false),
    ("resolve/hypothetical.js", "deep/dir1/dir2/dir3/d-named-mjs", Kind::Y, "resolve/node_modules/deep/dir1/dir2/dir3/d-named-mjs.mjs", true, false),
    ("resolve/hypothetical.js", "deep/dir1/dir2/dir3/d-dir-js", Kind::Y, "resolve/node_modules/deep/dir1/dir2/dir3/d-dir-js/index.js", false, false),
    ("resolve/hypothetical.js", "deep/dir1/dir2/dir3/d-dir-js/index", Kind::Y, "resolve/node_modules/deep/dir1/dir2/dir3/d-dir-js/index.js", false, false),
    ("resolve/hypothetical.js", "deep/dir1/dir2/dir3/d-dir-json", Kind::Y, "resolve/node_modules/deep/dir1/dir2/dir3/d-dir-json/index.json", false, false),
    ("resolve/hypothetical.js", "deep/dir1/dir2/dir3/d-dir-json/index", Kind::Y, "resolve/node_modules/deep/dir1/dir2/dir3/d-dir-json/index.json", false, false),
    ("resolve/hypothetical.js", "deep/dir1/dir2/dir3/d-dir-mjs", Kind::Y, "resolve/node_modules/deep/dir1/dir2/dir3/d-dir-mjs/index.mjs", true, false),
    ("resolve/hypothetical.js", "deep/dir1/dir2/dir3/d-dir-mjs/index", Kind::Y, "resolve/node_modules/deep/dir1/dir2/dir3/d-dir-mjs/index.mjs", true, false),
    ("resolve/hypothetical.js", "deep/dir1/dir2/dir3/d-mod-noext-bare", Kind::Y, "resolve/node_modules/deep/dir1/dir2/dir3/d-mod-noext-bare/main-noext", false, false),
    ("resolve/hypothetical.js", "deep/dir1/dir2/dir3/d-mod-noext-rel", Kind::Y, "resolve/node_modules/deep/dir1/dir2/dir3/d-mod-noext-rel/main-noext", false, false),
    ("resolve/hypothetical.js", "deep/dir1/dir2/dir3/d-mod-main-nesting-bare", Kind::Y, "resolve/node_modules/deep/dir1/dir2/dir3/d-mod-main-nesting-bare/subdir/index.js", false, false),
    ("resolve/hypothetical.js", "deep/dir1/dir2/dir3/d-mod-main-nesting-bare/subdir", Kind::Y, "resolve/node_modules/deep/dir1/dir2/dir3/d-mod-main-nesting-bare/subdir/inner-main.js", false, false),
    ("resolve/hypothetical.js", "deep/dir1/dir2/dir3/d-mod-main-nesting-rel", Kind::Y, "resolve/node_modules/deep/dir1/dir2/dir3/d-mod-main-nesting-rel/subdir/index.js", false, false),
    ("resolve/hypothetical.js", "deep/dir1/dir2/dir3/d-mod-main-nesting-rel/subdir", Kind::Y, "resolve/node_modules/deep/dir1/dir2/dir3/d-mod-main-nesting-rel/subdir/inner-main.js", false, false),
    ("resolve/hypothetical.js", "deep/dir1/dir2/dir3/d-mod-js-ext-bare", Kind::Y, "resolve/node_modules/deep/dir1/dir2/dir3/d-mod-js-ext-bare/main-js.js", false, false),
    ("resolve/hypothetical.js", "deep/dir1/dir2/dir3/d-mod-js-ext-rel", Kind::Y, "resolve/node_modules/deep/dir1/dir2/dir3/d-mod-js-ext-rel/main-js.js", false, false),
    ("resolve/hypothetical.js", "deep/dir1/dir2/dir3/d-mod-js-noext-bare", Kind::Y, "resolve/node_modules/deep/dir1/dir2/dir3/d-mod-js-noext-bare/main-js.js", false, false),
    ("resolve/hypothetical.js", "deep/dir1/dir2/dir3/d-mod-js-noext-rel", Kind::Y, "resolve/node_modules/deep/dir1/dir2/dir3/d-mod-js-noext-rel/main-js.js", false, false),
    ("resolve/hypothetical.js", "deep/dir1/dir2/dir3/d-mod-js-dir-bare", Kind::Y, "resolve/node_modules/deep/dir1/dir2/dir3/d-mod-js-dir-bare/main-js/index.js", false, false),
    ("resolve/hypothetical.js", "deep/dir1/dir2/dir3/d-mod-js-dir-rel", Kind::Y, "resolve/node_modules/deep/dir1/dir2/dir3/d-mod-js-dir-rel/main-js/index.js", false, false),
    ("resolve/hypothetical.js", "deep/dir1/dir2/dir3/d-mod-json-ext-bare", Kind::Y, "resolve/node_modules/deep/dir1/dir2/dir3/d-mod-json-ext-bare/main-json.json", false, false),
    ("resolve/hypothetical.js", "deep/dir1/dir2/dir3/d-mod-json-ext-rel", Kind::Y, "resolve/node_modules/deep/dir1/dir2/dir3/d-mod-json-ext-rel/main-json.json", false, false),
    ("resolve/hypothetical.js", "deep/dir1/dir2/dir3/d-mod-json-noext-bare", Kind::Y, "resolve/node_modules/deep/dir1/dir2/dir3/d-mod-json-noext-bare/main-json.json", false, false),
    ("resolve/hypothetical.js", "deep/dir1/dir2/dir3/d-mod-json-noext-rel", Kind::Y, "resolve/node_modules/deep/dir1/dir2/dir3/d-mod-json-noext-rel/main-json.json", false, false),
    ("resolve/hypothetical.js", "deep/dir1/dir2/dir3/d-mod-json-dir-bare", Kind::Y, "resolve/node_modules/deep/dir1/dir2/dir3/d-mod-json-dir-bare/main-json/index.json", false, false),
    ("resolve/hypothetical.js", "deep/dir1/dir2/dir3/d-mod-json-dir-rel", Kind::Y, "resolve/node_modules/deep/dir1/dir2/dir3/d-mod-json-dir-rel/main-json/index.json", false, false),
    ("resolve/hypothetical.js", "deep/dir1/dir2/dir3/d-mod-mjs-ext-bare", Kind::Y, "resolve/node_modules/deep/dir1/dir2/dir3/d-mod-mjs-ext-bare/main-mjs.mjs", true, false),
    ("resolve/hypothetical.js", "deep/dir1/dir2/dir3/d-mod-mjs-ext-rel", Kind::Y, "resolve/node_modules/deep/dir1/dir2/dir3/d-mod-mjs-ext-rel/main-mjs.mjs", true, false),
    ("resolve/hypothetical.js", "deep/dir1/dir2/dir3/d-mod-mjs-noext-bare", Kind::Y, "resolve/node_modules/deep/dir1/dir2/dir3/d-mod-mjs-noext-bare/main-mjs.mjs", true, false),
    ("resolve/hypothetical.js", "deep/dir1/dir2/dir3/d-mod-mjs-noext-rel", Kind::Y, "resolve/node_modules/deep/dir1/dir2/dir3/d-mod-mjs-noext-rel/main-mjs.mjs", true, false),
    ("resolve/hypothetical.js", "deep/dir1/dir2/dir3/d-mod-mjs-dir-bare", Kind::Y, "resolve/node_modules/deep/dir1/dir2/dir3/d-mod-mjs-dir-bare/main-mjs/index.mjs", true, false),
    ("resolve/hypothetical.js", "deep/dir1/dir2/dir3/d-mod-mjs-dir-rel", Kind::Y, "resolve/node_modules/deep/dir1/dir2/dir3/d-mod-mjs-dir-rel/main-mjs/index.mjs", true, false),
    ("resolve/hypothetical.js", "deep/dir1/dir2/dir3/d-mod-js-slash-bare", Kind::Y, "resolve/node_modules/deep/dir1/dir2/dir3/d-mod-js-slash-bare/main.js", false, false),
    ("resolve/hypothetical.js", "deep/dir1/dir2/dir3/d-mod-js-slash-rel", Kind::Y, "resolve/node_modules/deep/dir1/dir2/dir3/d-mod-js-slash-rel/main.js", false, false),
    ("resolve/hypothetical.js", "deep/dir1/dir2/dir3/d-named-jsz", Kind::Fail, "", false, false),
    ("resolve/hypothetical.js", "deep/dir1/dir2/dir3/d-file-and-dir", Kind::Y, "resolve/node_modules/deep/dir1/dir2/dir3/d-file-and-dir.js", false, false),
    ("resolve/hypothetical.js", "deep/dir1/dir2/dir3/d-file-and-dir/", Kind::Y, "resolve/node_modules/deep/dir1/dir2/dir3/d-file-and-dir/index.js", false, false),
    ("resolve/hypothetical.js", "deep/dir1/dir2/dir3/d-file-and-mod", Kind::Y, "resolve/node_modules/deep/dir1/dir2/dir3/d-file-and-mod.js", false, false),
    ("resolve/hypothetical.js", "deep/dir1/dir2/dir3/d-file-and-mod/", Kind::Y, "resolve/node_modules/deep/dir1/dir2/dir3/d-file-and-mod/main.js", false, false),
    ("resolve/hypothetical.js", "deep/dir1/dir2/dir3/d-dir-js/", Kind::Y, "resolve/node_modules/deep/dir1/dir2/dir3/d-dir-js/index.js", false, false),
    ("resolve/hypothetical.js", "deep/dir1/dir2/dir3/d-mod-js-noext-rel/", Kind::Y, "resolve/node_modules/deep/dir1/dir2/dir3/d-mod-js-noext-rel/main-js.js", false, false),
    ("resolve/hypothetical.js", "deep/dir1/dir2/dir3/d-named-js.js/", Kind::Fail, "", false, false),
    ("resolve/hypothetical.js", "deep/dir1/dir2/dir3/d-named-js/", Kind::Fail, "", false, false),
    ("resolve/hypothetical.js", "deep/dir1/dir2/dir3/d-named-noext/", Kind::Fail, "", false, false),
    ("resolve/subdir/hypothetical.js", "shadowed", Kind::Y, "resolve/subdir/node_modules/shadowed/index.js", false, false),
    ("resolve/subdir/subdir2/hypothetical.js", "shadowed", Kind::Y, "resolve/subdir/subdir2/node_modules/shadowed/index.js", false, false),
    ("resolve/hypothetical.js", "./dotfiles", Kind::Fail, "", false, false),
    ("resolve/hypothetical.js", "./dotfiles/", Kind::Fail, "", true, false),
    ("resolve/hypothetical.js", "./dotfiles/.thing", Kind::Y, "resolve/dotfiles/.thing", false, false),
    ("resolve/hypothetical.js", "./dotfiles/.thing-js", Kind::Y, "resolve/dotfiles/.thing-js.js", false, false),
    ("resolve/hypothetical.js", "./dotfiles/.thing-js.js", Kind::Y, "resolve/dotfiles/.thing-js.js", false, false),
    ("resolve/hypothetical.js", "./dotfiles/.thing-json", Kind::Y, "resolve/dotfiles/.thing-json.json", false, false),
    ("resolve/hypothetical.js", "./dotfiles/.thing-json.json", Kind::Y, "resolve/dotfiles/.thing-json.json", false, false),
    ("resolve/hypothetical.js", "./dotfiles/.thing-mjs", Kind::Y, "resolve/dotfiles/.thing-mjs.mjs", true, false),
    ("resolve/hypothetical.js", "./dotfiles/.thing-mjs.mjs", Kind::Y, "resolve/dotfiles/.thing-mjs.mjs", true, false),
    ("resolve/hypothetical.js", "./dotfiles/.js", Kind::Y, "resolve/dotfiles/.js", false, false),
    ("resolve/hypothetical.js", "./dotfiles/.json", Kind::Y, "resolve/dotfiles/.json", false, false),
    ("resolve/hypothetical.js", "./dotfiles/.mjs", Kind::Y, "resolve/dotfiles/.mjs", true, false),
    ("resolve/hypothetical.js", "./dotfiles/mod-noext", Kind::Y, "resolve/dotfiles/mod-noext/.thing", false, false),
    ("resolve/hypothetical.js", "./dotfiles/mod-js", Kind::Y, "resolve/dotfiles/mod-js/.thing-js.js", false, false),
    ("resolve/hypothetical.js", "./dotfiles/mod-json", Kind::Y, "resolve/dotfiles/mod-json/.thing-json.json", false, false),
    ("resolve/hypothetical.js", "./dotfiles/mod-mjs", Kind::Y, "resolve/dotfiles/mod-mjs/.thing-mjs.mjs", true, false),
    ("resolve-order/hypothetical.js", "./1-file", Kind::Y, "resolve-order/1-file", false, false),
    ("resolve-order/hypothetical.js", "./2-file", Kind::Y, "resolve-order/2-file.js", false, false),
    ("resolve-order/hypothetical.js", "./3-file", Kind::Y, "resolve-order/3-file.json", false, false),
    ("resolve-order/hypothetical.js", "./1-dir", Kind::Y, "resolve-order/1-dir.js", false, false),
    ("resolve-order/hypothetical.js", "./2-dir", Kind::Y, "resolve-order/2-dir.json", false, false),
    ("resolve-order/hypothetical.js", "./3-dir", Kind::Y, "resolve-order/3-dir/index.js", false, false),
    ("resolve-order/hypothetical.js", "./4-dir", Kind::Y, "resolve-order/4-dir/index.json", false, false),
    ("resolve-order/hypothetical.js", "./1-dir/", Kind::Y, "resolve-order/1-dir/index.js", false, false),
    ("resolve-order/hypothetical.js", "./2-dir/", Kind::Y, "resolve-order/2-dir/index.js", false, false),
    ("resolve-order/hypothetical.js", "./3-dir/", Kind::Y, "resolve-order/3-dir/index.js", false, false),
    ("resolve-order/hypothetical.js", "./4-dir/", Kind::Y, "resolve-order/4-dir/index.json", false, false),
];

/// Specifiers around a directory of unusual names.
pub const RESOLVE_UNICODE: [Case; 2] = [
    ("resolve/hypothetical.js", "./unicode/", Kind::Y, "resolve/unicode/.js", false, false),
    ("resolve/hypothetical.js", "./unicode/.js", Kind::Y, "resolve/unicode/.js", false, false),
];

/// Specifiers into packages that name substitutions for browsers, each with the substitutions off and on.
pub const BROWSER: [Case; 1069] = [
    ("browser/hypothetical.js", "./alternate-main-rel", Kind::Y, "browser/alternate-main-rel/main-default.js", true, false),
    ("browser/hypothetical.js", "./alternate-main-rel/main-default", Kind::Y, "browser/alternate-main-rel/main-default.js", true, false),
    ("browser/hypothetical.js", "./alternate-main-rel/main-default.js", Kind::Y, "browser/alternate-main-rel/main-default.js", true, false),
    ("browser/hypothetical.js", "./alternate-main-bare", Kind::Y, "browser/alternate-main-bare/main-default.js", true, false),
    ("browser/hypothetical.js", "./alternate-main-bare/main-default", Kind::Y, "browser/alternate-main-bare/main-default.js", true, false),
    ("browser/hypothetical.js", "./alternate-main-bare/main-default.js", Kind::Y, "browser/alternate-main-bare/main-default.js", true, false),
    ("browser/hypothetical.js", "./alternate-main-index-rel", Kind::Y, "browser/alternate-main-index-rel/index.js", true, false),
    ("browser/hypothetical.js", "./alternate-main-index-rel/index", Kind::Y, "browser/alternate-main-index-rel/index.js", true, false),
    ("browser/hypothetical.js", "./alternate-main-index-rel/index.js", Kind::Y, "browser/alternate-main-index-rel/index.js", true, false),
    ("browser/hypothetical.js", "./alternate-main-index-bare", Kind::Y, "browser/alternate-main-index-bare/index.js", true, false),
    ("browser/hypothetical.js", "./alternate-main-index-bare/index", Kind::Y, "browser/alternate-main-index-bare/index.js", true, false),
    ("browser/hypothetical.js", "./alternate-main-index-bare/index.js", Kind::Y, "browser/alternate-main-index-bare/index.js", true, false),
    ("browser/hypothetical.js", "./alternate-main-subdir-rel", Kind::Y, "browser/alternate-main-subdir-rel/default/main.js", true, false),
    ("browser/hypothetical.js", "./alternate-main-subdir-rel/default/main", Kind::Y, "browser/alternate-main-subdir-rel/default/main.js", true, false),
    ("browser/hypothetical.js", "./alternate-main-subdir-rel/default/main.js", Kind::Y, "browser/alternate-main-subdir-rel/default/main.js", true, false),
    ("browser/hypothetical.js", "./alternate-main-subdir-bare", Kind::Y, "browser/alternate-main-subdir-bare/default/main.js", true, false),
    ("browser/hypothetical.js", "./alternate-main-subdir-bare/default/main", Kind::Y, "browser/alternate-main-subdir-bare/default/main.js", true, false),
    ("browser/hypothetical.js", "./alternate-main-subdir-bare/default/main.js", Kind::Y, "browser/alternate-main-subdir-bare/default/main.js", true, false),
    ("browser/hypothetical.js", "./alternate-main-rel", Kind::Y, "browser/alternate-main-rel/main-browser.js", true, true),
    ("browser/hypothetical.js", "./alternate-main-rel/main-default", Kind::Y, "browser/alternate-main-rel/main-default.js", true, true),
    ("browser/hypothetical.js", "./alternate-main-rel/main-default.js", Kind::Y, "browser/alternate-main-rel/main-default.js", true, true),
    ("browser/hypothetical.js", "./alternate-main-bare", Kind::Y, "browser/alternate-main-bare/main-browser.js", true, true),
    ("browser/hypothetical.js", "./alternate-main-bare/main-default", Kind::Y, "browser/alternate-main-bare/main-default.js", true, true),
    ("browser/hypothetical.js", "./alternate-main-bare/main-default.js", Kind::Y, "browser/alternate-main-bare/main-default.js", true, true),
    ("browser/hypothetical.js", "./alternate-main-index-rel", Kind::Y, "browser/alternate-main-index-rel/index-browser.js", true, true),
    ("browser/hypothetical.js", "./alternate-main-index-rel/index", Kind::Y, "browser/alternate-main-index-rel/index.js", true, true),
    ("browser/hypothetical.js", "./alternate-main-index-rel/index.js", Kind::Y, "browser/alternate-main-index-rel/index.js", true, true),
    ("browser/hypothetical.js", "./alternate-main-index-bare", Kind::Y, "browser/alternate-main-index-bare/index-browser.js", true, true),
    ("browser/hypothetical.js", "./alternate-main-index-bare/index", Kind::Y, "browser/alternate-main-index-bare/index.js", true, true),
    ("browser/hypothetical.js", "./alternate-main-index-bare/index.js", Kind::Y, "browser/alternate-main-index-bare/index.js", true, true),
    ("browser/hypothetical.js", "./alternate-main-subdir-rel", Kind::Y, "browser/alternate-main-subdir-rel/browser/main.js", true, true),
    ("browser/hypothetical.js", "./alternate-main-subdir-rel/default/main", Kind::Y, "browser/alternate-main-subdir-rel/default/main.js", true, true),
    ("browser/hypothetical.js", "./alternate-main-subdir-rel/default/main.js", Kind::Y, "browser/alternate-main-subdir-rel/default/main.js", true, true),
    ("browser/hypothetical.js", "./alternate-main-subdir-bare", Kind::Y, "browser/alternate-main-subdir-bare/browser/main.js", true, true),
    ("browser/hypothetical.js", "./alternate-main-subdir-bare/default/main", Kind::Y, "browser/alternate-main-subdir-bare/default/main.js", true, true),
    ("browser/hypothetical.js", "./alternate-main-subdir-bare/default/main.js", Kind::Y, "browser/alternate-main-subdir-bare/default/main.js", true, true),
    ("browser/alternate-main-rel/hypothetical.js", ".", Kind::Y, "browser/alternate-main-rel/main-default.js", true, false),
    ("browser/alternate-main-rel/hypothetical.js", "./main-default", Kind::Y, "browser/alternate-main-rel/main-default.js", true, false),
    ("browser/alternate-main-rel/hypothetical.js", "./main-default.js", Kind::Y, "browser/alternate-main-rel/main-default.js", true, false),
    ("browser/alternate-main-rel/hypothetical.js", ".", Kind::Y, "browser/alternate-main-rel/main-browser.js", true, true),
    ("browser/alternate-main-rel/hypothetical.js", "./main-default.js", Kind::Y, "browser/alternate-main-rel/main-default.js", true, true),
    ("browser/alternate-main-bare/hypothetical.js", ".", Kind::Y, "browser/alternate-main-bare/main-default.js", true, false),
    ("browser/alternate-main-bare/hypothetical.js", "./main-default.js", Kind::Y, "browser/alternate-main-bare/main-default.js", true, false),
    ("browser/alternate-main-bare/hypothetical.js", "./main-default", Kind::Y, "browser/alternate-main-bare/main-default.js", true, false),
    ("browser/alternate-main-bare/hypothetical.js", ".", Kind::Y, "browser/alternate-main-bare/main-browser.js", true, true),
    ("browser/alternate-main-bare/hypothetical.js", "./main-default", Kind::Y, "browser/alternate-main-bare/main-default.js", true, true),
    ("browser/alternate-main-bare/hypothetical.js", "./main-default.js", Kind::Y, "browser/alternate-main-bare/main-default.js", true, true),
    ("browser/alternate-main-index-rel/hypothetical.js", ".", Kind::Y, "browser/alternate-main-index-rel/index.js", true, false),
    ("browser/alternate-main-index-rel/hypothetical.js", "./index", Kind::Y, "browser/alternate-main-index-rel/index.js", true, false),
    ("browser/alternate-main-index-rel/hypothetical.js", "./index.js", Kind::Y, "browser/alternate-main-index-rel/index.js", true, false),
    ("browser/alternate-main-index-rel/hypothetical.js", ".", Kind::Y, "browser/alternate-main-index-rel/index-browser.js", true, true),
    ("browser/alternate-main-index-rel/hypothetical.js", "./index.js", Kind::Y, "browser/alternate-main-index-rel/index.js", true, true),
    ("browser/alternate-main-index-bare/hypothetical.js", ".", Kind::Y, "browser/alternate-main-index-bare/index.js", true, false),
    ("browser/alternate-main-index-bare/hypothetical.js", "./index.js", Kind::Y, "browser/alternate-main-index-bare/index.js", true, false),
    ("browser/alternate-main-index-bare/hypothetical.js", "./index", Kind::Y, "browser/alternate-main-index-bare/index.js", true, false),
    ("browser/alternate-main-index-bare/hypothetical.js", ".", Kind::Y, "browser/alternate-main-index-bare/index-browser.js", true, true),
    ("browser/alternate-main-index-bare/hypothetical.js", "./index", Kind::Y, "browser/alternate-main-index-bare/index.js", true, true),
    ("browser/alternate-main-index-bare/hypothetical.js", "./index.js", Kind::Y, "browser/alternate-main-index-bare/index.js", true, true),
    ("browser/alternate-main-subdir-rel/hypothetical.js", ".", Kind::Y, "browser/alternate-main-subdir-rel/default/main.js", true, false),
    ("browser/alternate-main-subdir-rel/hypothetical.js", "./default/main", Kind::Y, "browser/alternate-main-subdir-rel/default/main.js", true, false),
    ("browser/alternate-main-subdir-rel/hypothetical.js", "./default/main.js", Kind::Y, "browser/alternate-main-subdir-rel/default/main.js", true, false),
    ("browser/alternate-main-subdir-rel/hypothetical.js", ".", Kind::Y, "browser/alternate-main-subdir-rel/browser/main.js", true, true),
    ("browser/alternate-main-subdir-rel/hypothetical.js", "./default/main.js", Kind::Y, "browser/alternate-main-subdir-rel/default/main.js", true, true),
    ("browser/alternate-main-subdir-bare/hypothetical.js", ".", Kind::Y, "browser/alternate-main-subdir-bare/default/main.js", true, false),
    ("browser/alternate-main-subdir-bare/hypothetical.js", "./default/main.js", Kind::Y, "browser/alternate-main-subdir-bare/default/main.js", true, false),
    ("browser/alternate-main-subdir-bare/hypothetical.js", "./default/main", Kind::Y, "browser/alternate-main-subdir-bare/default/main.js", true, false),
    ("browser/alternate-main-subdir-bare/hypothetical.js", ".", Kind::Y, "browser/alternate-main-subdir-bare/browser/main.js", true, true),
    ("browser/alternate-main-subdir-bare/hypothetical.js", "./default/main", Kind::Y, "browser/alternate-main-subdir-bare/default/main.js", true, true),
    ("browser/alternate-main-subdir-bare/hypothetical.js", "./default/main.js", Kind::Y, "browser/alternate-main-subdir-bare/default/main.js", true, true),
    ("browser/hypothetical.js", "./alternate-files-main-rel", Kind::Y, "browser/alternate-files-main-rel/main-default.js", true, false),
    ("browser/hypothetical.js", "./alternate-files-main-rel/main-default", Kind::Y, "browser/alternate-files-main-rel/main-default.js", true, false),
    ("browser/hypothetical.js", "./alternate-files-main-rel/main-default.js", Kind::Y, "browser/alternate-files-main-rel/main-default.js", true, false),
    ("browser/hypothetical.js", "./alternate-files-main-bare", Kind::Y, "browser/alternate-files-main-bare/main-default.js", true, false),
    ("browser/hypothetical.js", "./alternate-files-main-bare/main-default", Kind::Y, "browser/alternate-files-main-bare/main-default.js", true, false),
    ("browser/hypothetical.js", "./alternate-files-main-bare/main-default.js", Kind::Y, "browser/alternate-files-main-bare/main-default.js", true, false),
    ("browser/hypothetical.js", "./alternate-files-main-rel", Kind::Y, "browser/alternate-files-main-rel/main-browser.js", true, true),
    ("browser/hypothetical.js", "./alternate-files-main-rel/main-default", Kind::Y, "browser/alternate-files-main-rel/main-browser.js", true, true),
    ("browser/hypothetical.js", "./alternate-files-main-rel/main-default.js", Kind::Y, "browser/alternate-files-main-rel/main-browser.js", true, true),
    ("browser/hypothetical.js", "./alternate-files-main-bare", Kind::Y, "browser/alternate-files-main-bare/node_modules/main-browser.js", true, true),
    ("browser/hypothetical.js", "./alternate-files-main-bare/main-default", Kind::Y, "browser/alternate-files-main-bare/node_modules/main-browser.js", true, true),
    ("browser/hypothetical.js", "./alternate-files-main-bare/main-default.js", Kind::Y, "browser/alternate-files-main-bare/node_modules/main-browser.js", true, true),
    ("browser/alternate-files-main-rel/hypothetical.js", ".", Kind::Y, "browser/alternate-files-main-rel/main-default.js", true, false),
    ("browser/alternate-files-main-rel/hypothetical.js", "./main-default", Kind::Y, "browser/alternate-files-main-rel/main-default.js", true, false),
    ("browser/alternate-files-main-rel/hypothetical.js", "./main-default.js", Kind::Y, "browser/alternate-files-main-rel/main-default.js", true, false),
    ("browser/alternate-files-main-rel/hypothetical.js", ".", Kind::Y, "browser/alternate-files-main-rel/main-browser.js", true, true),
    ("browser/alternate-files-main-rel/hypothetical.js", "./main-default", Kind::Y, "browser/alternate-files-main-rel/main-browser.js", true, true),
    ("browser/alternate-files-main-rel/hypothetical.js", "./main-default.js", Kind::Y, "browser/alternate-files-main-rel/main-browser.js", true, true),
    ("browser/alternate-files-main-bare/hypothetical.js", ".", Kind::Y, "browser/alternate-files-main-bare/main-default.js", true, false),
    ("browser/alternate-files-main-bare/hypothetical.js", "./main-default", Kind::Y, "browser/alternate-files-main-bare/main-default.js", true, false),
    ("browser/alternate-files-main-bare/hypothetical.js", "./main-default.js", Kind::Y, "browser/alternate-files-main-bare/main-default.js", true, false),
    ("browser/alternate-files-main-bare/hypothetical.js", ".", Kind::Y, "browser/alternate-files-main-bare/node_modules/main-browser.js", true, true),
    ("browser/alternate-files-main-bare/hypothetical.js", "./main-default", Kind::Y, "browser/alternate-files-main-bare/node_modules/main-browser.js", true, true),
    ("browser/alternate-files-main-bare/hypothetical.js", "./main-default.js", Kind::Y, "browser/alternate-files-main-bare/node_modules/main-browser.js", true, true),
    ("browser/hypothetical.js", "./alternate-files/file-from-rel-ext-to-rel-ext-default", Kind::Y, "browser/alternate-files/file-from-rel-ext-to-rel-ext-default.js", true, false),
    ("browser/hypothetical.js", "./alternate-files/file-from-rel-ext-to-rel-ext-default.js", Kind::Y, "browser/alternate-files/file-from-rel-ext-to-rel-ext-default.js", true, false),
    ("browser/hypothetical.js", "./alternate-files/file-from-rel-noext-to-rel-ext-default", Kind::Y, "browser/alternate-files/file-from-rel-noext-to-rel-ext-default.js", true, false),
    ("browser/hypothetical.js", "./alternate-files/file-from-rel-noext-to-rel-ext-default.js", Kind::Y, "browser/alternate-files/file-from-rel-noext-to-rel-ext-default.js", true, false),
    ("browser/hypothetical.js", "./alternate-files/file-from-rel-noext-to-rel-ext-default.json", Kind::Y, "browser/alternate-files/file-from-rel-noext-to-rel-ext-default.json", true, false),
    ("browser/hypothetical.js", "./alternate-files/file-from-rel-slash-to-rel-ext-default", Kind::Y, "browser/alternate-files/file-from-rel-slash-to-rel-ext-default.js", true, false),
    ("browser/hypothetical.js", "./alternate-files/file-from-rel-slash-to-rel-ext-default.js", Kind::Y, "browser/alternate-files/file-from-rel-slash-to-rel-ext-default.js", true, false),
    ("browser/hypothetical.js", "./alternate-files/file-from-rel-slash-to-rel-ext-default/", Kind::Y, "browser/alternate-files/file-from-rel-slash-to-rel-ext-default/index.js", true, false),
    ("browser/hypothetical.js", "./alternate-files/file-from-rel-slash-to-rel-ext-default/index", Kind::Y, "browser/alternate-files/file-from-rel-slash-to-rel-ext-default/index.js", true, false),
    ("browser/hypothetical.js", "./alternate-files/file-from-rel-slash-to-rel-ext-default/index.js", Kind::Y, "browser/alternate-files/file-from-rel-slash-to-rel-ext-default/index.js", true, false),
    ("browser/hypothetical.js", "./alternate-files/file-from-rel-ext-to-rel-noext-default", Kind::Y, "browser/alternate-files/file-from-rel-ext-to-rel-noext-default.js", true, false),
    ("browser/hypothetical.js", "./alternate-files/file-from-rel-ext-to-rel-noext-default.js", Kind::Y, "browser/alternate-files/file-from-rel-ext-to-rel-noext-default.js", true, false),
    ("browser/hypothetical.js", "./alternate-files/file-from-rel-ext-to-rel-noext-default.json", Kind::Y, "browser/alternate-files/file-from-rel-ext-to-rel-noext-default.json", true, false),
    ("browser/hypothetical.js", "./alternate-files/file-from-rel-noext-to-rel-noext-default", Kind::Y, "browser/alternate-files/file-from-rel-noext-to-rel-noext-default.js", true, false),
    ("browser/hypothetical.js", "./alternate-files/file-from-rel-noext-to-rel-noext-default.js", Kind::Y, "browser/alternate-files/file-from-rel-noext-to-rel-noext-default.js", true, false),
    ("browser/hypothetical.js", "./alternate-files/file-from-rel-noext-to-rel-noext-default.json", Kind::Y, "browser/alternate-files/file-from-rel-noext-to-rel-noext-default.json", true, false),
    ("browser/hypothetical.js", "./alternate-files/file-from-rel-slash-to-rel-noext-default", Kind::Y, "browser/alternate-files/file-from-rel-slash-to-rel-noext-default.js", true, false),
    ("browser/hypothetical.js", "./alternate-files/file-from-rel-slash-to-rel-noext-default.js", Kind::Y, "browser/alternate-files/file-from-rel-slash-to-rel-noext-default.js", true, false),
    ("browser/hypothetical.js", "./alternate-files/file-from-rel-slash-to-rel-noext-default.json", Kind::Y, "browser/alternate-files/file-from-rel-slash-to-rel-noext-default.json", true, false),
    ("browser/hypothetical.js", "./alternate-files/file-from-rel-slash-to-rel-noext-default/", Kind::Y, "browser/alternate-files/file-from-rel-slash-to-rel-noext-default/index.js", true, false),
    ("browser/hypothetical.js", "./alternate-files/file-from-rel-slash-to-rel-noext-default/index", Kind::Y, "browser/alternate-files/file-from-rel-slash-to-rel-noext-default/index.js", true, false),
    ("browser/hypothetical.js", "./alternate-files/file-from-rel-slash-to-rel-noext-default/index.js", Kind::Y, "browser/alternate-files/file-from-rel-slash-to-rel-noext-default/index.js", true, false),
    ("browser/hypothetical.js", "./alternate-files/file-from-rel-ext-to-rel-slash-default", Kind::Y, "browser/alternate-files/file-from-rel-ext-to-rel-slash-default.js", true, false),
    ("browser/hypothetical.js", "./alternate-files/file-from-rel-ext-to-rel-slash-default.js", Kind::Y, "browser/alternate-files/file-from-rel-ext-to-rel-slash-default.js", true, false),
    ("browser/hypothetical.js", "./alternate-files/file-from-rel-ext-to-rel-slash-default/", Kind::Y, "browser/alternate-files/file-from-rel-ext-to-rel-slash-default/index.js", true, false),
    ("browser/hypothetical.js", "./alternate-files/file-from-rel-ext-to-rel-slash-default/index", Kind::Y, "browser/alternate-files/file-from-rel-ext-to-rel-slash-default/index.js", true, false),
    ("browser/hypothetical.js", "./alternate-files/file-from-rel-ext-to-rel-slash-default/index.js", Kind::Y, "browser/alternate-files/file-from-rel-ext-to-rel-slash-default/index.js", true, false),
    ("browser/hypothetical.js", "./alternate-files/file-from-rel-noext-to-rel-slash-default", Kind::Y, "browser/alternate-files/file-from-rel-noext-to-rel-slash-default.js", true, false),
    ("browser/hypothetical.js", "./alternate-files/file-from-rel-noext-to-rel-slash-default.js", Kind::Y, "browser/alternate-files/file-from-rel-noext-to-rel-slash-default.js", true, false),
    ("browser/hypothetical.js", "./alternate-files/file-from-rel-noext-to-rel-slash-default.json", Kind::Y, "browser/alternate-files/file-from-rel-noext-to-rel-slash-default.json", true, false),
    ("browser/hypothetical.js", "./alternate-files/file-from-rel-noext-to-rel-slash-default/", Kind::Y, "browser/alternate-files/file-from-rel-noext-to-rel-slash-default/index.js", true, false),
    ("browser/hypothetical.js", "./alternate-files/file-from-rel-noext-to-rel-slash-default/index", Kind::Y, "browser/alternate-files/file-from-rel-noext-to-rel-slash-default/index.js", true, false),
    ("browser/hypothetical.js", "./alternate-files/file-from-rel-noext-to-rel-slash-default/index.js", Kind::Y, "browser/alternate-files/file-from-rel-noext-to-rel-slash-default/index.js", true, false),
    ("browser/hypothetical.js", "./alternate-files/file-from-rel-slash-to-rel-slash-default", Kind::Y, "browser/alternate-files/file-from-rel-slash-to-rel-slash-default.js", true, false),
    ("browser/hypothetical.js", "./alternate-files/file-from-rel-slash-to-rel-slash-default.js", Kind::Y, "browser/alternate-files/file-from-rel-slash-to-rel-slash-default.js", true, false),
    ("browser/hypothetical.js", "./alternate-files/file-from-rel-slash-to-rel-slash-default/", Kind::Y, "browser/alternate-files/file-from-rel-slash-to-rel-slash-default/index.js", true, false),
    ("browser/hypothetical.js", "./alternate-files/file-from-rel-slash-to-rel-slash-default/index", Kind::Y, "browser/alternate-files/file-from-rel-slash-to-rel-slash-default/index.js", true, false),
    ("browser/hypothetical.js", "./alternate-files/file-from-rel-slash-to-rel-slash-default/index.js", Kind::Y, "browser/alternate-files/file-from-rel-slash-to-rel-slash-default/index.js", true, false),
    ("browser/hypothetical.js", "./alternate-files/file-from-bare-ext-to-rel-ext-default", Kind::Y, "browser/alternate-files/file-from-bare-ext-to-rel-ext-default.js", true, false),
    ("browser/hypothetical.js", "./alternate-files/file-from-bare-ext-to-rel-ext-default.js", Kind::Y, "browser/alternate-files/file-from-bare-ext-to-rel-ext-default.js", true, false),
    ("browser/hypothetical.js", "./alternate-files/file-from-bare-noext-to-rel-ext-default", Kind::Y, "browser/alternate-files/file-from-bare-noext-to-rel-ext-default.js", true, false),
    ("browser/hypothetical.js", "./alternate-files/file-from-bare-noext-to-rel-ext-default.js", Kind::Y, "browser/alternate-files/file-from-bare-noext-to-rel-ext-default.js", true, false),
    ("browser/hypothetical.js", "./alternate-files/file-from-bare-noext-to-rel-ext-default.json", Kind::Y, "browser/alternate-files/file-from-bare-noext-to-rel-ext-default.json", true, false),
    ("browser/hypothetical.js", "./alternate-files/file-from-bare-slash-to-rel-ext-default", Kind::Y, "browser/alternate-files/file-from-bare-slash-to-rel-ext-default.js", true, false),
    ("browser/hypothetical.js", "./alternate-files/file-from-bare-slash-to-rel-ext-default.js", Kind::Y, "browser/alternate-files/file-from-bare-slash-to-rel-ext-default.js", true, false),
    ("browser/hypothetical.js", "./alternate-files/file-from-bare-slash-to-rel-ext-default/", Kind::Y, "browser/alternate-files/file-from-bare-slash-to-rel-ext-default/index.js", true, false),
    ("browser/hypothetical.js", "./alternate-files/file-from-bare-slash-to-rel-ext-default/index", Kind::Y, "browser/alternate-files/file-from-bare-slash-to-rel-ext-default/index.js", true, false),
    ("browser/hypothetical.js", "./alternate-files/file-from-bare-slash-to-rel-ext-default/index.js", Kind::Y, "browser/alternate-files/file-from-bare-slash-to-rel-ext-default/index.js", true, false),
    ("browser/hypothetical.js", "./alternate-files/file-from-bare-ext-to-rel-noext-default", Kind::Y, "browser/alternate-files/file-from-bare-ext-to-rel-noext-default.js", true, false),
    ("browser/hypothetical.js", "./alternate-files/file-from-bare-ext-to-rel-noext-default.js", Kind::Y, "browser/alternate-files/file-from-bare-ext-to-rel-noext-default.js", true, false),
    ("browser/hypothetical.js", "./alternate-files/file-from-bare-ext-to-rel-noext-default.json", Kind::Y, "browser/alternate-files/file-from-bare-ext-to-rel-noext-default.json", true, false),
    ("browser/hypothetical.js", "./alternate-files/file-from-bare-noext-to-rel-noext-default", Kind::Y, "browser/alternate-files/file-from-bare-noext-to-rel-noext-default.js", true, false),
    ("browser/hypothetical.js", "./alternate-files/file-from-bare-noext-to-rel-noext-default.js", Kind::Y, "browser/alternate-files/file-from-bare-noext-to-rel-noext-default.js", true, false),
    ("browser/hypothetical.js", "./alternate-files/file-from-bare-noext-to-rel-noext-default.json", Kind::Y, "browser/alternate-files/file-from-bare-noext-to-rel-noext-default.json", true, false),
    ("browser/hypothetical.js", "./alternate-files/file-from-bare-slash-to-rel-noext-default", Kind::Y, "browser/alternate-files/file-from-bare-slash-to-rel-noext-default.js", true, false),
    ("browser/hypothetical.js", "./alternate-files/file-from-bare-slash-to-rel-noext-default.js", Kind::Y, "browser/alternate-files/file-from-bare-slash-to-rel-noext-default.js", true, false),
    ("browser/hypothetical.js", "./alternate-files/file-from-bare-slash-to-rel-noext-default.json", Kind::Y, "browser/alternate-files/file-from-bare-slash-to-rel-noext-default.json", true, false),
    ("browser/hypothetical.js", "./alternate-files/file-from-bare-slash-to-rel-noext-default/", Kind::Y, "browser/alternate-files/file-from-bare-slash-to-rel-noext-default/index.js", true, false),
    ("browser/hypothetical.js", "./alternate-files/file-from-bare-slash-to-rel-noext-default/index", Kind::Y, "browser/alternate-files/file-from-bare-slash-to-rel-noext-default/index.js", true, false),
    ("browser/hypothetical.js", "./alternate-files/file-from-bare-slash-to-rel-noext-default/index.js", Kind::Y, "browser/alternate-files/file-from-bare-slash-to-rel-noext-default/index.js", true, false),
    ("browser/hypothetical.js", "./alternate-files/file-from-bare-ext-to-rel-slash-default", Kind::Y, "browser/alternate-files/file-from-bare-ext-to-rel-slash-default.js", true, false),
    ("browser/hypothetical.js", "./alternate-files/file-from-bare-ext-to-rel-slash-default.js", Kind::Y, "browser/alternate-files/file-from-bare-ext-to-rel-slash-default.js", true, false),
    ("browser/hypothetical.js", "./alternate-files/file-from-bare-ext-to-rel-slash-default/", Kind::Y, "browser/alternate-files/file-from-bare-ext-to-rel-slash-default/index.js", true, false),
    ("browser/hypothetical.js", "./alternate-files/file-from-bare-ext-to-rel-slash-default/index", Kind::Y, "browser/alternate-files/file-from-bare-ext-to-rel-slash-default/index.js", true, false),
    ("browser/hypothetical.js", "./alternate-files/file-from-bare-ext-to-rel-slash-default/index.js", Kind::Y, "browser/alternate-files/file-from-bare-ext-to-rel-slash-default/index.js", true, false),
    ("browser/hypothetical.js", "./alternate-files/file-from-bare-noext-to-rel-slash-default", Kind::Y, "browser/alternate-files/file-from-bare-noext-to-rel-slash-default.js", true, false),
    ("browser/hypothetical.js", "./alternate-files/file-from-bare-noext-to-rel-slash-default.js", Kind::Y, "browser/alternate-files/file-from-bare-noext-to-rel-slash-default.js", true, false),
    ("browser/hypothetical.js", "./alternate-files/file-from-bare-noext-to-rel-slash-default.json", Kind::Y, "browser/alternate-files/file-from-bare-noext-to-rel-slash-default.json", true, false),
    ("browser/hypothetical.js", "./alternate-files/file-from-bare-noext-to-rel-slash-default/", Kind::Y, "browser/alternate-files/file-from-bare-noext-to-rel-slash-default/index.js", true, false),
    ("browser/hypothetical.js", "./alternate-files/file-from-bare-noext-to-rel-slash-default/index", Kind::Y, "browser/alternate-files/file-from-bare-noext-to-rel-slash-default/index.js", true, false),
    ("browser/hypothetical.js", "./alternate-files/file-from-bare-noext-to-rel-slash-default/index.js", Kind::Y, "browser/alternate-files/file-from-bare-noext-to-rel-slash-default/index.js", true, false),
    ("browser/hypothetical.js", "./alternate-files/file-from-bare-slash-to-rel-slash-default", Kind::Y, "browser/alternate-files/file-from-bare-slash-to-rel-slash-default.js", true, false),
    ("browser/hypothetical.js", "./alternate-files/file-from-bare-slash-to-rel-slash-default.js", Kind::Y, "browser/alternate-files/file-from-bare-slash-to-rel-slash-default.js", true, false),
    ("browser/hypothetical.js", "./alternate-files/file-from-bare-slash-to-rel-slash-default/", Kind::Y, "browser/alternate-files/file-from-bare-slash-to-rel-slash-default/index.js", true, false),
    ("browser/hypothetical.js", "./alternate-files/file-from-bare-slash-to-rel-slash-default/index", Kind::Y, "browser/alternate-files/file-from-bare-slash-to-rel-slash-default/index.js", true, false),
    ("browser/hypothetical.js", "./alternate-files/file-from-bare-slash-to-rel-slash-default/index.js", Kind::Y, "browser/alternate-files/file-from-bare-slash-to-rel-slash-default/index.js", true, false),
    ("browser/hypothetical.js", "./alternate-files/file-from-rel-ext-to-bare-ext-default", Kind::Y, "browser/alternate-files/file-from-rel-ext-to-bare-ext-default.js", true, false),
    ("browser/hypothetical.js", "./alternate-files/file-from-rel-ext-to-bare-ext-default.js", Kind::Y, "browser/alternate-files/file-from-rel-ext-to-bare-ext-default.js", true, false),
    ("browser/hypothetical.js", "./alternate-files/file-from-rel-noext-to-bare-ext-default", Kind::Y, "browser/alternate-files/file-from-rel-noext-to-bare-ext-default.js", true, false),
    ("browser/hypothetical.js", "./alternate-files/file-from-rel-noext-to-bare-ext-default.js", Kind::Y, "browser/alternate-files/file-from-rel-noext-to-bare-ext-default.js", true, false),
    ("browser/hypothetical.js", "./alternate-files/file-from-rel-noext-to-bare-ext-default.json", Kind::Y, "browser/alternate-files/file-from-rel-noext-to-bare-ext-default.json", true, false),
    ("browser/hypothetical.js", "./alternate-files/file-from-rel-slash-to-bare-ext-default", Kind::Y, "browser/alternate-files/file-from-rel-slash-to-bare-ext-default.js", true, false),
    ("browser/hypothetical.js", "./alternate-files/file-from-rel-slash-to-bare-ext-default.js", Kind::Y, "browser/alternate-files/file-from-rel-slash-to-bare-ext-default.js", true, false),
    ("browser/hypothetical.js", "./alternate-files/file-from-rel-slash-to-bare-ext-default/", Kind::Y, "browser/alternate-files/file-from-rel-slash-to-bare-ext-default/index.js", true, false),
    ("browser/hypothetical.js", "./alternate-files/file-from-rel-slash-to-bare-ext-default/index", Kind::Y, "browser/alternate-files/file-from-rel-slash-to-bare-ext-default/index.js", true, false),
    ("browser/hypothetical.js", "./alternate-files/file-from-rel-slash-to-bare-ext-default/index.js", Kind::Y, "browser/alternate-files/file-from-rel-slash-to-bare-ext-default/index.js", true, false),
    ("browser/hypothetical.js", "./alternate-files/file-from-rel-ext-to-bare-noext-default", Kind::Y, "browser/alternate-files/file-from-rel-ext-to-bare-noext-default.js", true, false),
    ("browser/hypothetical.js", "./alternate-files/file-from-rel-ext-to-bare-noext-default.js", Kind::Y, "browser/alternate-files/file-from-rel-ext-to-bare-noext-default.js", true, false),
    ("browser/hypothetical.js", "./alternate-files/file-from-rel-ext-to-bare-noext-default.json", Kind::Y, "browser/alternate-files/file-from-rel-ext-to-bare-noext-default.json", true, false),
    ("browser/hypothetical.js", "./alternate-files/file-from-rel-noext-to-bare-noext-default", Kind::Y, "browser/alternate-files/file-from-rel-noext-to-bare-noext-default.js", true, false),
    ("browser/hypothetical.js", "./alternate-files/file-from-rel-noext-to-bare-noext-default.js", Kind::Y, "browser/alternate-files/file-from-rel-noext-to-bare-noext-default.js", true, false),
    ("browser/hypothetical.js", "./alternate-files/file-from-rel-noext-to-bare-noext-default.json", Kind::Y, "browser/alternate-files/file-from-rel-noext-to-bare-noext-default.json", true, false),
    ("browser/hypothetical.js", "./alternate-files/file-from-rel-slash-to-bare-noext-default", Kind::Y, "browser/alternate-files/file-from-rel-slash-to-bare-noext-default.js", true, false),
    ("browser/hypothetical.js", "./alternate-files/file-from-rel-slash-to-bare-noext-default.js", Kind::Y, "browser/alternate-files/file-from-rel-slash-to-bare-noext-default.js", true, false),
    ("browser/hypothetical.js", "./alternate-files/file-from-rel-slash-to-bare-noext-default.json", Kind::Y, "browser/alternate-files/file-from-rel-slash-to-bare-noext-default.json", true, false),
    ("browser/hypothetical.js", "./alternate-files/file-from-rel-slash-to-bare-noext-default/", Kind::Y, "browser/alternate-files/file-from-rel-slash-to-bare-noext-default/index.js", true, false),
    ("browser/hypothetical.js", "./alternate-files/file-from-rel-slash-to-bare-noext-default/index", Kind::Y, "browser/alternate-files/file-from-rel-slash-to-bare-noext-default/index.js", true, false),
    ("browser/hypothetical.js", "./alternate-files/file-from-rel-slash-to-bare-noext-default/index.js", Kind::Y, "browser/alternate-files/file-from-rel-slash-to-bare-noext-default/index.js", true, false),
    ("browser/hypothetical.js", "./alternate-files/file-from-rel-ext-to-bare-slash-default", Kind::Y, "browser/alternate-files/file-from-rel-ext-to-bare-slash-default.js", true, false),
    ("browser/hypothetical.js", "./alternate-files/file-from-rel-ext-to-bare-slash-default.js", Kind::Y, "browser/alternate-files/file-from-rel-ext-to-bare-slash-default.js", true, false),
    ("browser/hypothetical.js", "./alternate-files/file-from-rel-ext-to-bare-slash-default/", Kind::Y, "browser/alternate-files/file-from-rel-ext-to-bare-slash-default/index.js", true, false),
    ("browser/hypothetical.js", "./alternate-files/file-from-rel-ext-to-bare-slash-default/index", Kind::Y, "browser/alternate-files/file-from-rel-ext-to-bare-slash-default/index.js", true, false),
    ("browser/hypothetical.js", "./alternate-files/file-from-rel-ext-to-bare-slash-default/index.js", Kind::Y, "browser/alternate-files/file-from-rel-ext-to-bare-slash-default/index.js", true, false),
    ("browser/hypothetical.js", "./alternate-files/file-from-rel-noext-to-bare-slash-default", Kind::Y, "browser/alternate-files/file-from-rel-noext-to-bare-slash-default.js", true, false),
    ("browser/hypothetical.js", "./alternate-files/file-from-rel-noext-to-bare-slash-default.js", Kind::Y, "browser/alternate-files/file-from-rel-noext-to-bare-slash-default.js", true, false),
    ("browser/hypothetical.js", "./alternate-files/file-from-rel-noext-to-bare-slash-default.json", Kind::Y, "browser/alternate-files/file-from-rel-noext-to-bare-slash-default.json", true, false),
    ("browser/hypothetical.js", "./alternate-files/file-from-rel-noext-to-bare-slash-default/", Kind::Y, "browser/alternate-files/file-from-rel-noext-to-bare-slash-default/index.js", true, false),
    ("browser/hypothetical.js", "./alternate-files/file-from-rel-noext-to-bare-slash-default/index", Kind::Y, "browser/alternate-files/file-from-rel-noext-to-bare-slash-default/index.js", true, false),
    ("browser/hypothetical.js", "./alternate-files/file-from-rel-noext-to-bare-slash-default/index.js", Kind::Y, "browser/alternate-files/file-from-rel-noext-to-bare-slash-default/index.js", true, false),
    ("browser/hypothetical.js", "./alternate-files/file-from-rel-slash-to-bare-slash-default", Kind::Y, "browser/alternate-files/file-from-rel-slash-to-bare-slash-default.js", true, false),
    ("browser/hypothetical.js", "./alternate-files/file-from-rel-slash-to-bare-slash-default.js", Kind::Y, "browser/alternate-files/file-from-rel-slash-to-bare-slash-default.js", true, false),
    ("browser/hypothetical.js", "./alternate-files/file-from-rel-slash-to-bare-slash-default/", Kind::Y, "browser/alternate-files/file-from-rel-slash-to-bare-slash-default/index.js", true, false),
    ("browser/hypothetical.js", "./alternate-files/file-from-rel-slash-to-bare-slash-default/index", Kind::Y, "browser/alternate-files/file-from-rel-slash-to-bare-slash-default/index.js", true, false),
    ("browser/hypothetical.js", "./alternate-files/file-from-rel-slash-to-bare-slash-default/index.js", Kind::Y, "browser/alternate-files/file-from-rel-slash-to-bare-slash-default/index.js", true, false),
    ("browser/hypothetical.js", "./alternate-files/file-from-bare-ext-to-bare-ext-default", Kind::Y, "browser/alternate-files/file-from-bare-ext-to-bare-ext-default.js", true, false),
    ("browser/hypothetical.js", "./alternate-files/file-from-bare-ext-to-bare-ext-default.js", Kind::Y, "browser/alternate-files/file-from-bare-ext-to-bare-ext-default.js", true, false),
    ("browser/hypothetical.js", "./alternate-files/file-from-bare-noext-to-bare-ext-default", Kind::Y, "browser/alternate-files/file-from-bare-noext-to-bare-ext-default.js", true, false),
    ("browser/hypothetical.js", "./alternate-files/file-from-bare-noext-to-bare-ext-default.js", Kind::Y, "browser/alternate-files/file-from-bare-noext-to-bare-ext-default.js", true, false),
    ("browser/hypothetical.js", "./alternate-files/file-from-bare-noext-to-bare-ext-default.json", Kind::Y, "browser/alternate-files/file-from-bare-noext-to-bare-ext-default.json", true, false),
    ("browser/hypothetical.js", "./alternate-files/file-from-bare-slash-to-bare-ext-default", Kind::Y, "browser/alternate-files/file-from-bare-slash-to-bare-ext-default.js", true, false),
    ("browser/hypothetical.js", "./alternate-files/file-from-bare-slash-to-bare-ext-default.js", Kind::Y, "browser/alternate-files/file-from-bare-slash-to-bare-ext-default.js", true, false),
    ("browser/hypothetical.js", "./alternate-files/file-from-bare-slash-to-bare-ext-default/", Kind::Y, "browser/alternate-files/file-from-bare-slash-to-bare-ext-default/index.js", true, false),
    ("browser/hypothetical.js", "./alternate-files/file-from-bare-slash-to-bare-ext-default/index", Kind::Y, "browser/alternate-files/file-from-bare-slash-to-bare-ext-default/index.js", true, false),
    ("browser/hypothetical.js", "./alternate-files/file-from-bare-slash-to-bare-ext-default/index.js", Kind::Y, "browser/alternate-files/file-from-bare-slash-to-bare-ext-default/index.js", true, false),
    ("browser/hypothetical.js", "./alternate-files/file-from-bare-ext-to-bare-noext-default", Kind::Y, "browser/alternate-files/file-from-bare-ext-to-bare-noext-default.js", true, false),
    ("browser/hypothetical.js", "./alternate-files/file-from-bare-ext-to-bare-noext-default.js", Kind::Y, "browser/alternate-files/file-from-bare-ext-to-bare-noext-default.js", true, false),
    ("browser/hypothetical.js", "./alternate-files/file-from-bare-ext-to-bare-noext-default.json", Kind::Y, "browser/alternate-files/file-from-bare-ext-to-bare-noext-default.json", true, false),
    ("browser/hypothetical.js", "./alternate-files/file-from-bare-noext-to-bare-noext-default", Kind::Y, "browser/alternate-files/file-from-bare-noext-to-bare-noext-default.js", true, false),
    ("browser/hypothetical.js", "./alternate-files/file-from-bare-noext-to-bare-noext-default.js", Kind::Y, "browser/alternate-files/file-from-bare-noext-to-bare-noext-default.js", true, false),
    ("browser/hypothetical.js", "./alternate-files/file-from-bare-noext-to-bare-noext-default.json", Kind::Y, "browser/alternate-files/file-from-bare-noext-to-bare-noext-default.json", true, false),
    ("browser/hypothetical.js", "./alternate-files/file-from-bare-slash-to-bare-noext-default", Kind::Y, "browser/alternate-files/file-from-bare-slash-to-bare-noext-default.js", true, false),
    ("browser/hypothetical.js", "./alternate-files/file-from-bare-slash-to-bare-noext-default.js", Kind::Y, "browser/alternate-files/file-from-bare-slash-to-bare-noext-default.js", true, false),
    ("browser/hypothetical.js", "./alternate-files/file-from-bare-slash-to-bare-noext-default.json", Kind::Y, "browser/alternate-files/file-from-bare-slash-to-bare-noext-default.json", true, false),
    ("browser/hypothetical.js", "./alternate-files/file-from-bare-slash-to-bare-noext-default/", Kind::Y, "browser/alternate-files/file-from-bare-slash-to-bare-noext-default/index.js", true, false),
    ("browser/hypothetical.js", "./alternate-files/file-from-bare-slash-to-bare-noext-default/index", Kind::Y, "browser/alternate-files/file-from-bare-slash-to-bare-noext-default/index.js", true, false),
    ("browser/hypothetical.js", "./alternate-files/file-from-bare-slash-to-bare-noext-default/index.js", Kind::Y, "browser/alternate-files/file-from-bare-slash-to-bare-noext-default/index.js", true, false),
    ("browser/hypothetical.js", "./alternate-files/file-from-bare-ext-to-bare-slash-default", Kind::Y, "browser/alternate-files/file-from-bare-ext-to-bare-slash-default.js", true, false),
    ("browser/hypothetical.js", "./alternate-files/file-from-bare-ext-to-bare-slash-default.js", Kind::Y, "browser/alternate-files/file-from-bare-ext-to-bare-slash-default.js", true, false),
    ("browser/hypothetical.js", "./alternate-files/file-from-bare-ext-to-bare-slash-default/", Kind::Y, "browser/alternate-files/file-from-bare-ext-to-bare-slash-default/index.js", true, false),
    ("browser/hypothetical.js", "./alternate-files/file-from-bare-ext-to-bare-slash-default/index", Kind::Y, "browser/alternate-files/file-from-bare-ext-to-bare-slash-default/index.js", true, false),
    ("browser/hypothetical.js", "./alternate-files/file-from-bare-ext-to-bare-slash-default/index.js", Kind::Y, "browser/alternate-files/file-from-bare-ext-to-bare-slash-default/index.js", true, false),
    ("browser/hypothetical.js", "./alternate-files/file-from-bare-noext-to-bare-slash-default", Kind::Y, "browser/alternate-files/file-from-bare-noext-to-bare-slash-default.js", true, false),
    ("browser/hypothetical.js", "./alternate-files/file-from-bare-noext-to-bare-slash-default.js", Kind::Y, "browser/alternate-files/file-from-bare-noext-to-bare-slash-default.js", true, false),
    ("browser/hypothetical.js", "./alternate-files/file-from-bare-noext-to-bare-slash-default.json", Kind::Y, "browser/alternate-files/file-from-bare-noext-to-bare-slash-default.json", true, false),
    ("browser/hypothetical.js", "./alternate-files/file-from-bare-noext-to-bare-slash-default/", Kind::Y, "browser/alternate-files/file-from-bare-noext-to-bare-slash-default/index.js", true, false),
    ("browser/hypothetical.js", "./alternate-files/file-from-bare-noext-to-bare-slash-default/index", Kind::Y, "browser/alternate-files/file-from-bare-noext-to-bare-slash-default/index.js", true, false),
    ("browser/hypothetical.js", "./alternate-files/file-from-bare-noext-to-bare-slash-default/index.js", Kind::Y, "browser/alternate-files/file-from-bare-noext-to-bare-slash-default/index.js", true, false),
    ("browser/hypothetical.js", "./alternate-files/file-from-bare-slash-to-bare-slash-default", Kind::Y, "browser/alternate-files/file-from-bare-slash-to-bare-slash-default.js", true, false),
    ("browser/hypothetical.js", "./alternate-files/file-from-bare-slash-to-bare-slash-default.js", Kind::Y, "browser/alternate-files/file-from-bare-slash-to-bare-slash-default.js", true, false),
    ("browser/hypothetical.js", "./alternate-files/file-from-bare-slash-to-bare-slash-default/", Kind::Y, "browser/alternate-files/file-from-bare-slash-to-bare-slash-default/index.js", true, false),
    ("browser/hypothetical.js", "./alternate-files/file-from-bare-slash-to-bare-slash-default/index", Kind::Y, "browser/alternate-files/file-from-bare-slash-to-bare-slash-default/index.js", true, false),
    ("browser/hypothetical.js", "./alternate-files/file-from-bare-slash-to-bare-slash-default/index.js", Kind::Y, "browser/alternate-files/file-from-bare-slash-to-bare-slash-default/index.js", true, false),
    ("browser/hypothetical.js", "./alternate-files/file-from-rel-ext-to-rel-ext-default", Kind::Y, "browser/alternate-files/file-from-rel-ext-to-rel-ext-browser.js", true, true),
    ("browser/hypothetical.js", "./alternate-files/file-from-rel-ext-to-rel-ext-default.js", Kind::Y, "browser/alternate-files/file-from-rel-ext-to-rel-ext-browser.js", true, true),
    ("browser/hypothetical.js", "./alternate-files/file-from-rel-noext-to-rel-ext-default", Kind::Y, "browser/alternate-files/file-from-rel-noext-to-rel-ext-browser.js", true, true),
    ("browser/hypothetical.js", "./alternate-files/file-from-rel-noext-to-rel-ext-default.js", Kind::Y, "browser/alternate-files/file-from-rel-noext-to-rel-ext-default.js", true, true),
    ("browser/hypothetical.js", "./alternate-files/file-from-rel-noext-to-rel-ext-default.json", Kind::Y, "browser/alternate-files/file-from-rel-noext-to-rel-ext-default.json", true, true),
    ("browser/hypothetical.js", "./alternate-files/file-from-rel-slash-to-rel-ext-default", Kind::Y, "browser/alternate-files/file-from-rel-slash-to-rel-ext-default.js", true, true),
    ("browser/hypothetical.js", "./alternate-files/file-from-rel-slash-to-rel-ext-default.js", Kind::Y, "browser/alternate-files/file-from-rel-slash-to-rel-ext-default.js", true, true),
    ("browser/hypothetical.js", "./alternate-files/file-from-rel-slash-to-rel-ext-default/", Kind::Y, "browser/alternate-files/file-from-rel-slash-to-rel-ext-default/index.js", true, true),
    ("browser/hypothetical.js", "./alternate-files/file-from-rel-slash-to-rel-ext-default/index", Kind::Y, "browser/alternate-files/file-from-rel-slash-to-rel-ext-default/index.js", true, true),
    ("browser/hypothetical.js", "./alternate-files/file-from-rel-slash-to-rel-ext-default/index.js", Kind::Y, "browser/alternate-files/file-from-rel-slash-to-rel-ext-default/index.js", true, true),
    ("browser/hypothetical.js", "./alternate-files/file-from-rel-ext-to-rel-noext-default", Kind::Y, "browser/alternate-files/file-from-rel-ext-to-rel-noext-browser.js", true, true),
    ("browser/hypothetical.js", "./alternate-files/file-from-rel-ext-to-rel-noext-default.js", Kind::Y, "browser/alternate-files/file-from-rel-ext-to-rel-noext-browser.js", true, true),
    ("browser/hypothetical.js", "./alternate-files/file-from-rel-ext-to-rel-noext-default.json", Kind::Y, "browser/alternate-files/file-from-rel-ext-to-rel-noext-default.json", true, true),
    ("browser/hypothetical.js", "./alternate-files/file-from-rel-noext-to-rel-noext-default", Kind::Y, "browser/alternate-files/file-from-rel-noext-to-rel-noext-browser.js", true, true),
    ("browser/hypothetical.js", "./alternate-files/file-from-rel-noext-to-rel-noext-default.js", Kind::Y, "browser/alternate-files/file-from-rel-noext-to-rel-noext-default.js", true, true),
    ("browser/hypothetical.js", "./alternate-files/file-from-rel-noext-to-rel-noext-default.json", Kind::Y, "browser/alternate-files/file-from-rel-noext-to-rel-noext-default.json", true, true),
    ("browser/hypothetical.js", "./alternate-files/file-from-rel-slash-to-rel-noext-default", Kind::Y, "browser/alternate-files/file-from-rel-slash-to-rel-noext-default.js", true, true),
    ("browser/hypothetical.js", "./alternate-files/file-from-rel-slash-to-rel-noext-default.js", Kind::Y, "browser/alternate-files/file-from-rel-slash-to-rel-noext-default.js", true, true),
    ("browser/hypothetical.js", "./alternate-files/file-from-rel-slash-to-rel-noext-default.json", Kind::Y, "browser/alternate-files/file-from-rel-slash-to-rel-noext-default.json", true, true),
    ("browser/hypothetical.js", "./alternate-files/file-from-rel-slash-to-rel-noext-default/", Kind::Y, "browser/alternate-files/file-from-rel-slash-to-rel-noext-default/index.js", true, true),
    ("browser/hypothetical.js", "./alternate-files/file-from-rel-slash-to-rel-noext-default/index", Kind::Y, "browser/alternate-files/file-from-rel-slash-to-rel-noext-default/index.js", true, true),
    ("browser/hypothetical.js", "./alternate-files/file-from-rel-slash-to-rel-noext-default/index.js", Kind::Y, "browser/alternate-files/file-from-rel-slash-to-rel-noext-default/index.js", true, true),
    ("browser/hypothetical.js", "./alternate-files/file-from-rel-ext-to-rel-slash-default", Kind::Y, "browser/alternate-files/file-from-rel-ext-to-rel-slash-browser/index.js", true, true),
    ("browser/hypothetical.js", "./alternate-files/file-from-rel-ext-to-rel-slash-default.js", Kind::Y, "browser/alternate-files/file-from-rel-ext-to-rel-slash-browser/index.js", true, true),
    ("browser/hypothetical.js", "./alternate-files/file-from-rel-ext-to-rel-slash-default/", Kind::Y, "browser/alternate-files/file-from-rel-ext-to-rel-slash-default/index.js", true, true),
    ("browser/hypothetical.js", "./alternate-files/file-from-rel-ext-to-rel-slash-default/index", Kind::Y, "browser/alternate-files/file-from-rel-ext-to-rel-slash-default/index.js", true, true),
    ("browser/hypothetical.js", "./alternate-files/file-from-rel-ext-to-rel-slash-default/index.js", Kind::Y, "browser/alternate-files/file-from-rel-ext-to-rel-slash-default/index.js", true, true),
    ("browser/hypothetical.js", "./alternate-files/file-from-rel-noext-to-rel-slash-default", Kind::Y, "browser/alternate-files/file-from-rel-noext-to-rel-slash-browser/index.js", true, true),
    ("browser/hypothetical.js", "./alternate-files/file-from-rel-noext-to-rel-slash-default.js", Kind::Y, "browser/alternate-files/file-from-rel-noext-to-rel-slash-default.js", true, true),
    ("browser/hypothetical.js", "./alternate-files/file-from-rel-noext-to-rel-slash-default.json", Kind::Y, "browser/alternate-files/file-from-rel-noext-to-rel-slash-default.json", true, true),
    ("browser/hypothetical.js", "./alternate-files/file-from-rel-noext-to-rel-slash-default/", Kind::Y, "browser/alternate-files/file-from-rel-noext-to-rel-slash-default/index.js", true, true),
    ("browser/hypothetical.js", "./alternate-files/file-from-rel-noext-to-rel-slash-default/index", Kind::Y, "browser/alternate-files/file-from-rel-noext-to-rel-slash-default/index.js", true, true),
    ("browser/hypothetical.js", "./alternate-files/file-from-rel-noext-to-rel-slash-default/index.js", Kind::Y, "browser/alternate-files/file-from-rel-noext-to-rel-slash-default/index.js", true, true),
    ("browser/hypothetical.js", "./alternate-files/file-from-rel-slash-to-rel-slash-default", Kind::Y, "browser/alternate-files/file-from-rel-slash-to-rel-slash-default.js", true, true),
    ("browser/hypothetical.js", "./alternate-files/file-from-rel-slash-to-rel-slash-default.js", Kind::Y, "browser/alternate-files/file-from-rel-slash-to-rel-slash-default.js", true, true),
    ("browser/hypothetical.js", "./alternate-files/file-from-rel-slash-to-rel-slash-default/", Kind::Y, "browser/alternate-files/file-from-rel-slash-to-rel-slash-default/index.js", true, true),
    ("browser/hypothetical.js", "./alternate-files/file-from-rel-slash-to-rel-slash-default/index", Kind::Y, "browser/alternate-files/file-from-rel-slash-to-rel-slash-default/index.js", true, true),
    ("browser/hypothetical.js", "./alternate-files/file-from-rel-slash-to-rel-slash-default/index.js", Kind::Y, "browser/alternate-files/file-from-rel-slash-to-rel-slash-default/index.js", true, true),
    ("browser/hypothetical.js", "./alternate-files/file-from-bare-ext-to-rel-ext-default", Kind::Y, "browser/alternate-files/file-from-bare-ext-to-rel-ext-browser.js", true, true),
    ("browser/hypothetical.js", "./alternate-files/file-from-bare-ext-to-rel-ext-default.js", Kind::Y, "browser/alternate-files/file-from-bare-ext-to-rel-ext-browser.js", true, true),
    ("browser/hypothetical.js", "./alternate-files/file-from-bare-noext-to-rel-ext-default", Kind::Y, "browser/alternate-files/file-from-bare-noext-to-rel-ext-browser.js", true, true),
    ("browser/hypothetical.js", "./alternate-files/file-from-bare-noext-to-rel-ext-default.js", Kind::Y, "browser/alternate-files/file-from-bare-noext-to-rel-ext-default.js", true, true),
    ("browser/hypothetical.js", "./alternate-files/file-from-bare-noext-to-rel-ext-default.json", Kind::Y, "browser/alternate-files/file-from-bare-noext-to-rel-ext-default.json", true, true),
    ("browser/hypothetical.js", "./alternate-files/file-from-bare-slash-to-rel-ext-default", Kind::Y, "browser/alternate-files/file-from-bare-slash-to-rel-ext-default.js", true, true),
    ("browser/hypothetical.js", "./alternate-files/file-from-bare-slash-to-rel-ext-default.js", Kind::Y, "browser/alternate-files/file-from-bare-slash-to-rel-ext-default.js", true, true),
    ("browser/hypothetical.js", "./alternate-files/file-from-bare-slash-to-rel-ext-default/", Kind::Y, "browser/alternate-files/file-from-bare-slash-to-rel-ext-default/index.js", true, true),
    ("browser/hypothetical.js", "./alternate-files/file-from-bare-slash-to-rel-ext-default/index", Kind::Y, "browser/alternate-files/file-from-bare-slash-to-rel-ext-default/index.js", true, true),
    ("browser/hypothetical.js", "./alternate-files/file-from-bare-slash-to-rel-ext-default/index.js", Kind::Y, "browser/alternate-files/file-from-bare-slash-to-rel-ext-default/index.js", true, true),
    ("browser/hypothetical.js", "./alternate-files/file-from-bare-ext-to-rel-noext-default", Kind::Y, "browser/alternate-files/file-from-bare-ext-to-rel-noext-browser.js", true, true),
    ("browser/hypothetical.js", "./alternate-files/file-from-bare-ext-to-rel-noext-default.js", Kind::Y, "browser/alternate-files/file-from-bare-ext-to-rel-noext-browser.js", true, true),
    ("browser/hypothetical.js", "./alternate-files/file-from-bare-ext-to-rel-noext-default.json", Kind::Y, "browser/alternate-files/file-from-bare-ext-to-rel-noext-default.json", true, true),
    ("browser/hypothetical.js", "./alternate-files/file-from-bare-noext-to-rel-noext-default", Kind::Y, "browser/alternate-files/file-from-bare-noext-to-rel-noext-browser.js", true, true),
    ("browser/hypothetical.js", "./alternate-files/file-from-bare-noext-to-rel-noext-default.js", Kind::Y, "browser/alternate-files/file-from-bare-noext-to-rel-noext-default.js", true, true),
    ("browser/hypothetical.js", "./alternate-files/file-from-bare-noext-to-rel-noext-default.json", Kind::Y, "browser/alternate-files/file-from-bare-noext-to-rel-noext-default.json", true, true),
    ("browser/hypothetical.js", "./alternate-files/file-from-bare-slash-to-rel-noext-default", Kind::Y, "browser/alternate-files/file-from-bare-slash-to-rel-noext-default.js", true, true),
    ("browser/hypothetical.js", "./alternate-files/file-from-bare-slash-to-rel-noext-default.js", Kind::Y, "browser/alternate-files/file-from-bare-slash-to-rel-noext-default.js", true, true),
    ("browser/hypothetical.js", "./alternate-files/file-from-bare-slash-to-rel-noext-default.json", Kind::Y, "browser/alternate-files/file-from-bare-slash-to-rel-noext-default.json", true, true),
    ("browser/hypothetical.js", "./alternate-files/file-from-bare-slash-to-rel-noext-default/", Kind::Y, "browser/alternate-files/file-from-bare-slash-to-rel-noext-default/index.js", true, true),
    ("browser/hypothetical.js", "./alternate-files/file-from-bare-slash-to-rel-noext-default/index", Kind::Y, "browser/alternate-files/file-from-bare-slash-to-rel-noext-default/index.js", true, true),
    ("browser/hypothetical.js", "./alternate-files/file-from-bare-slash-to-rel-noext-default/index.js", Kind::Y, "browser/alternate-files/file-from-bare-slash-to-rel-noext-default/index.js", true, true),
    ("browser/hypothetical.js", "./alternate-files/file-from-bare-ext-to-rel-slash-default", Kind::Y, "browser/alternate-files/file-from-bare-ext-to-rel-slash-browser/index.js", true, true),
    ("browser/hypothetical.js", "./alternate-files/file-from-bare-ext-to-rel-slash-default.js", Kind::Y, "browser/alternate-files/file-from-bare-ext-to-rel-slash-browser/index.js", true, true),
    ("browser/hypothetical.js", "./alternate-files/file-from-bare-ext-to-rel-slash-default/", Kind::Y, "browser/alternate-files/file-from-bare-ext-to-rel-slash-default/index.js", true, true),
    ("browser/hypothetical.js", "./alternate-files/file-from-bare-ext-to-rel-slash-default/index", Kind::Y, "browser/alternate-files/file-from-bare-ext-to-rel-slash-default/index.js", true, true),
    ("browser/hypothetical.js", "./alternate-files/file-from-bare-ext-to-rel-slash-default/index.js", Kind::Y, "browser/alternate-files/file-from-bare-ext-to-rel-slash-default/index.js", true, true),
    ("browser/hypothetical.js", "./alternate-files/file-from-bare-noext-to-rel-slash-default", Kind::Y, "browser/alternate-files/file-from-bare-noext-to-rel-slash-browser/index.js", true, true),
    ("browser/hypothetical.js", "./alternate-files/file-from-bare-noext-to-rel-slash-default.js", Kind::Y, "browser/alternate-files/file-from-bare-noext-to-rel-slash-default.js", true, true),
    ("browser/hypothetical.js", "./alternate-files/file-from-bare-noext-to-rel-slash-default.json", Kind::Y, "browser/alternate-files/file-from-bare-noext-to-rel-slash-default.json", true, true),
    ("browser/hypothetical.js", "./alternate-files/file-from-bare-noext-to-rel-slash-default/", Kind::Y, "browser/alternate-files/file-from-bare-noext-to-rel-slash-default/index.js", true, true),
    ("browser/hypothetical.js", "./alternate-files/file-from-bare-noext-to-rel-slash-default/index", Kind::Y, "browser/alternate-files/file-from-bare-noext-to-rel-slash-default/index.js", true, true),
    ("browser/hypothetical.js", "./alternate-files/file-from-bare-noext-to-rel-slash-default/index.js", Kind::Y, "browser/alternate-files/file-from-bare-noext-to-rel-slash-default/index.js", true, true),
    ("browser/hypothetical.js", "./alternate-files/file-from-bare-slash-to-rel-slash-default", Kind::Y, "browser/alternate-files/file-from-bare-slash-to-rel-slash-default.js", true, true),
    ("browser/hypothetical.js", "./alternate-files/file-from-bare-slash-to-rel-slash-default.js", Kind::Y, "browser/alternate-files/file-from-bare-slash-to-rel-slash-default.js", true, true),
    ("browser/hypothetical.js", "./alternate-files/file-from-bare-slash-to-rel-slash-default/", Kind::Y, "browser/alternate-files/file-from-bare-slash-to-rel-slash-default/index.js", true, true),
    ("browser/hypothetical.js", "./alternate-files/file-from-bare-slash-to-rel-slash-default/index", Kind::Y, "browser/alternate-files/file-from-bare-slash-to-rel-slash-default/index.js", true, true),
    ("browser/hypothetical.js", "./alternate-files/file-from-bare-slash-to-rel-slash-default/index.js", Kind::Y, "browser/alternate-files/file-from-bare-slash-to-rel-slash-default/index.js", true, true),
    ("browser/hypothetical.js", "./alternate-files/file-from-rel-ext-to-bare-ext-default", Kind::Y, "browser/alternate-files/node_modules/file-from-rel-ext-to-bare-ext-browser.js", true, true),
    ("browser/hypothetical.js", "./alternate-files/file-from-rel-ext-to-bare-ext-default.js", Kind::Y, "browser/alternate-files/node_modules/file-from-rel-ext-to-bare-ext-browser.js", true, true),
    ("browser/hypothetical.js", "./alternate-files/file-from-rel-noext-to-bare-ext-default", Kind::Y, "browser/alternate-files/node_modules/file-from-rel-noext-to-bare-ext-browser.js", true, true),
    ("browser/hypothetical.js", "./alternate-files/file-from-rel-noext-to-bare-ext-default.js", Kind::Y, "browser/alternate-files/file-from-rel-noext-to-bare-ext-default.js", true, true),
    ("browser/hypothetical.js", "./alternate-files/file-from-rel-noext-to-bare-ext-default.json", Kind::Y, "browser/alternate-files/file-from-rel-noext-to-bare-ext-default.json", true, true),
    ("browser/hypothetical.js", "./alternate-files/file-from-rel-slash-to-bare-ext-default", Kind::Y, "browser/alternate-files/file-from-rel-slash-to-bare-ext-default.js", true, true),
    ("browser/hypothetical.js", "./alternate-files/file-from-rel-slash-to-bare-ext-default.js", Kind::Y, "browser/alternate-files/file-from-rel-slash-to-bare-ext-default.js", true, true),
    ("browser/hypothetical.js", "./alternate-files/file-from-rel-slash-to-bare-ext-default/", Kind::Y, "browser/alternate-files/file-from-rel-slash-to-bare-ext-default/index.js", true, true),
    ("browser/hypothetical.js", "./alternate-files/file-from-rel-slash-to-bare-ext-default/index", Kind::Y, "browser/alternate-files/file-from-rel-slash-to-bare-ext-default/index.js", true, true),
    ("browser/hypothetical.js", "./alternate-files/file-from-rel-slash-to-bare-ext-default/index.js", Kind::Y, "browser/alternate-files/file-from-rel-slash-to-bare-ext-default/index.js", true, true),
    ("browser/hypothetical.js", "./alternate-files/file-from-rel-ext-to-bare-noext-default", Kind::Y, "browser/alternate-files/node_modules/file-from-rel-ext-to-bare-noext-browser.js", true, true),
    ("browser/hypothetical.js", "./alternate-files/file-from-rel-ext-to-bare-noext-default.js", Kind::Y, "browser/alternate-files/node_modules/file-from-rel-ext-to-bare-noext-browser.js", true, true),
    ("browser/hypothetical.js", "./alternate-files/file-from-rel-ext-to-bare-noext-default.json", Kind::Y, "browser/alternate-files/file-from-rel-ext-to-bare-noext-default.json", true, true),
    ("browser/hypothetical.js", "./alternate-files/file-from-rel-noext-to-bare-noext-default", Kind::Y, "browser/alternate-files/node_modules/file-from-rel-noext-to-bare-noext-browser.js", true, true),
    ("browser/hypothetical.js", "./alternate-files/file-from-rel-noext-to-bare-noext-default.js", Kind::Y, "browser/alternate-files/file-from-rel-noext-to-bare-noext-default.js", true, true),
    ("browser/hypothetical.js", "./alternate-files/file-from-rel-noext-to-bare-noext-default.json", Kind::Y, "browser/alternate-files/file-from-rel-noext-to-bare-noext-default.json", true, true),
    ("browser/hypothetical.js", "./alternate-files/file-from-rel-slash-to-bare-noext-default", Kind::Y, "browser/alternate-files/file-from-rel-slash-to-bare-noext-default.js", true, true),
    ("browser/hypothetical.js", "./alternate-files/file-from-rel-slash-to-bare-noext-default.js", Kind::Y, "browser/alternate-files/file-from-rel-slash-to-bare-noext-default.js", true, true),
    ("browser/hypothetical.js", "./alternate-files/file-from-rel-slash-to-bare-noext-default.json", Kind::Y, "browser/alternate-files/file-from-rel-slash-to-bare-noext-default.json", true, true),
    ("browser/hypothetical.js", "./alternate-files/file-from-rel-slash-to-bare-noext-default/", Kind::Y, "browser/alternate-files/file-from-rel-slash-to-bare-noext-default/index.js", true, true),
    ("browser/hypothetical.js", "./alternate-files/file-from-rel-slash-to-bare-noext-default/index", Kind::Y, "browser/alternate-files/file-from-rel-slash-to-bare-noext-default/index.js", true, true),
    ("browser/hypothetical.js", "./alternate-files/file-from-rel-slash-to-bare-noext-default/index.js", Kind::Y, "browser/alternate-files/file-from-rel-slash-to-bare-noext-default/index.js", true, true),
    ("browser/hypothetical.js", "./alternate-files/file-from-rel-ext-to-bare-slash-default", Kind::Y, "browser/alternate-files/node_modules/file-from-rel-ext-to-bare-slash-browser.js", true, true),
    ("browser/hypothetical.js", "./alternate-files/file-from-rel-ext-to-bare-slash-default.js", Kind::Y, "browser/alternate-files/node_modules/file-from-rel-ext-to-bare-slash-browser.js", true, true),
    ("browser/hypothetical.js", "./alternate-files/file-from-rel-ext-to-bare-slash-default/", Kind::Y, "browser/alternate-files/file-from-rel-ext-to-bare-slash-default/index.js", true, true),
    ("browser/hypothetical.js", "./alternate-files/file-from-rel-ext-to-bare-slash-default/index", Kind::Y, "browser/alternate-files/file-from-rel-ext-to-bare-slash-default/index.js", true, true),
    ("browser/hypothetical.js", "./alternate-files/file-from-rel-ext-to-bare-slash-default/index.js", Kind::Y, "browser/alternate-files/file-from-rel-ext-to-bare-slash-default/index.js", true, true),
    ("browser/hypothetical.js", "./alternate-files/file-from-rel-noext-to-bare-slash-default", Kind::Y, "browser/alternate-files/node_modules/file-from-rel-noext-to-bare-slash-browser.js", true, true),
    ("browser/hypothetical.js", "./alternate-files/file-from-rel-noext-to-bare-slash-default.js", Kind::Y, "browser/alternate-files/file-from-rel-noext-to-bare-slash-default.js", true, true),
    ("browser/hypothetical.js", "./alternate-files/file-from-rel-noext-to-bare-slash-default.json", Kind::Y, "browser/alternate-files/file-from-rel-noext-to-bare-slash-default.json", true, true),
    ("browser/hypothetical.js", "./alternate-files/file-from-rel-noext-to-bare-slash-default/", Kind::Y, "browser/alternate-files/file-from-rel-noext-to-bare-slash-default/index.js", true, true),
    ("browser/hypothetical.js", "./alternate-files/file-from-rel-noext-to-bare-slash-default/index", Kind::Y, "browser/alternate-files/file-from-rel-noext-to-bare-slash-default/index.js", true, true),
    ("browser/hypothetical.js", "./alternate-files/file-from-rel-noext-to-bare-slash-default/index.js", Kind::Y, "browser/alternate-files/file-from-rel-noext-to-bare-slash-default/index.js", true, true),
    ("browser/hypothetical.js", "./alternate-files/file-from-rel-slash-to-bare-slash-default", Kind::Y, "browser/alternate-files/file-from-rel-slash-to-bare-slash-default.js", true, true),
    ("browser/hypothetical.js", "./alternate-files/file-from-rel-slash-to-bare-slash-default.js", Kind::Y, "browser/alternate-files/file-from-rel-slash-to-bare-slash-default.js", true, true),
    ("browser/hypothetical.js", "./alternate-files/file-from-rel-slash-to-bare-slash-default/", Kind::Y, "browser/alternate-files/file-from-rel-slash-to-bare-slash-default/index.js", true, true),
    ("browser/hypothetical.js", "./alternate-files/file-from-rel-slash-to-bare-slash-default/index", Kind::Y, "browser/alternate-files/file-from-rel-slash-to-bare-slash-default/index.js", true, true),
    ("browser/hypothetical.js", "./alternate-files/file-from-rel-slash-to-bare-slash-default/index.js", Kind::Y, "browser/alternate-files/file-from-rel-slash-to-bare-slash-default/index.js", true, true),
    ("browser/hypothetical.js", "./alternate-files/file-from-bare-ext-to-bare-ext-default", Kind::Y, "browser/alternate-files/node_modules/file-from-bare-ext-to-bare-ext-browser.js", true, true),
    ("browser/hypothetical.js", "./alternate-files/file-from-bare-ext-to-bare-ext-default.js", Kind::Y, "browser/alternate-files/node_modules/file-from-bare-ext-to-bare-ext-browser.js", true, true),
    ("browser/hypothetical.js", "./alternate-files/file-from-bare-noext-to-bare-ext-default", Kind::Y, "browser/alternate-files/node_modules/file-from-bare-noext-to-bare-ext-browser.js", true, true),
    ("browser/hypothetical.js", "./alternate-files/file-from-bare-noext-to-bare-ext-default.js", Kind::Y, "browser/alternate-files/file-from-bare-noext-to-bare-ext-default.js", true, true),
    ("browser/hypothetical.js", "./alternate-files/file-from-bare-noext-to-bare-ext-default.json", Kind::Y, "browser/alternate-files/file-from-bare-noext-to-bare-ext-default.json", true, true),
    ("browser/hypothetical.js", "./alternate-files/file-from-bare-slash-to-bare-ext-default", Kind::Y, "browser/alternate-files/file-from-bare-slash-to-bare-ext-default.js", true, true),
    ("browser/hypothetical.js", "./alternate-files/file-from-bare-slash-to-bare-ext-default.js", Kind::Y, "browser/alternate-files/file-from-bare-slash-to-bare-ext-default.js", true, true),
    ("browser/hypothetical.js", "./alternate-files/file-from-bare-slash-to-bare-ext-default/", Kind::Y, "browser/alternate-files/file-from-bare-slash-to-bare-ext-default/index.js", true, true),
    ("browser/hypothetical.js", "./alternate-files/file-from-bare-slash-to-bare-ext-default/index", Kind::Y, "browser/alternate-files/file-from-bare-slash-to-bare-ext-default/index.js", true, true),
    ("browser/hypothetical.js", "./alternate-files/file-from-bare-slash-to-bare-ext-default/index.js", Kind::Y, "browser/alternate-files/file-from-bare-slash-to-bare-ext-default/index.js", true, true),
    ("browser/hypothetical.js", "./alternate-files/file-from-bare-ext-to-bare-noext-default", Kind::Y, "browser/alternate-files/node_modules/file-from-bare-ext-to-bare-noext-browser.js", true, true),
    ("browser/hypothetical.js", "./alternate-files/file-from-bare-ext-to-bare-noext-default.js", Kind::Y, "browser/alternate-files/node_modules/file-from-bare-ext-to-bare-noext-browser.js", true, true),
    ("browser/hypothetical.js", "./alternate-files/file-from-bare-ext-to-bare-noext-default.json", Kind::Y, "browser/alternate-files/file-from-bare-ext-to-bare-noext-default.json", true, true),
    ("browser/hypothetical.js", "./alternate-files/file-from-bare-noext-to-bare-noext-default", Kind::Y, "browser/alternate-files/node_modules/file-from-bare-noext-to-bare-noext-browser.js", true, true),
    ("browser/hypothetical.js", "./alternate-files/file-from-bare-noext-to-bare-noext-default.js", Kind::Y, "browser/alternate-files/file-from-bare-noext-to-bare-noext-default.js", true, true),
    ("browser/hypothetical.js", "./alternate-files/file-from-bare-noext-to-bare-noext-default.json", Kind::Y, "browser/alternate-files/file-from-bare-noext-to-bare-noext-default.json", true, true),
    ("browser/hypothetical.js", "./alternate-files/file-from-bare-slash-to-bare-noext-default", Kind::Y, "browser/alternate-files/file-from-bare-slash-to-bare-noext-default.js", true, true),
    ("browser/hypothetical.js", "./alternate-files/file-from-bare-slash-to-bare-noext-default.js", Kind::Y, "browser/alternate-files/file-from-bare-slash-to-bare-noext-default.js", true, true),
    ("browser/hypothetical.js", "./alternate-files/file-from-bare-slash-to-bare-noext-default.json", Kind::Y, "browser/alternate-files/file-from-bare-slash-to-bare-noext-default.json", true, true),
    ("browser/hypothetical.js", "./alternate-files/file-from-bare-slash-to-bare-noext-default/", Kind::Y, "browser/alternate-files/file-from-bare-slash-to-bare-noext-default/index.js", true, true),
    ("browser/hypothetical.js", "./alternate-files/file-from-bare-slash-to-bare-noext-default/index", Kind::Y, "browser/alternate-files/file-from-bare-slash-to-bare-noext-default/index.js", true, true),
    ("browser/hypothetical.js", "./alternate-files/file-from-bare-slash-to-bare-noext-default/index.js", Kind::Y, "browser/alternate-files/file-from-bare-slash-to-bare-noext-default/index.js", true, true),
    ("browser/hypothetical.js", "./alternate-files/file-from-bare-ext-to-bare-slash-default", Kind::Y, "browser/alternate-files/node_modules/file-from-bare-ext-to-bare-slash-browser.js", true, true),
    ("browser/hypothetical.js", "./alternate-files/file-from-bare-ext-to-bare-slash-default.js", Kind::Y, "browser/alternate-files/node_modules/file-from-bare-ext-to-bare-slash-browser.js", true, true),
    ("browser/hypothetical.js", "./alternate-files/file-from-bare-ext-to-bare-slash-default/", Kind::Y, "browser/alternate-files/file-from-bare-ext-to-bare-slash-default/index.js", true, true),
    ("browser/hypothetical.js", "./alternate-files/file-from-bare-ext-to-bare-slash-default/index", Kind::Y, "browser/alternate-files/file-from-bare-ext-to-bare-slash-default/index.js", true, true),
    ("browser/hypothetical.js", "./alternate-files/file-from-bare-ext-to-bare-slash-default/index.js", Kind::Y, "browser/alternate-files/file-from-bare-ext-to-bare-slash-default/index.js", true, true),
    ("browser/hypothetical.js", "./alternate-files/file-from-bare-noext-to-bare-slash-default", Kind::Y, "browser/alternate-files/node_modules/file-from-bare-noext-to-bare-slash-browser.js", true, true),
    ("browser/hypothetical.js", "./alternate-files/file-from-bare-noext-to-bare-slash-default.js", Kind::Y, "browser/alternate-files/file-from-bare-noext-to-bare-slash-default.js", true, true),
    ("browser/hypothetical.js", "./alternate-files/file-from-bare-noext-to-bare-slash-default.json", Kind::Y, "browser/alternate-files/file-from-bare-noext-to-bare-slash-default.json", true, true),
    ("browser/hypothetical.js", "./alternate-files/file-from-bare-noext-to-bare-slash-default/", Kind::Y, "browser/alternate-files/file-from-bare-noext-to-bare-slash-default/index.js", true, true),
    ("browser/hypothetical.js", "./alternate-files/file-from-bare-noext-to-bare-slash-default/index", Kind::Y, "browser/alternate-files/file-from-bare-noext-to-bare-slash-default/index.js", true, true),
    ("browser/hypothetical.js", "./alternate-files/file-from-bare-noext-to-bare-slash-default/index.js", Kind::Y, "browser/alternate-files/file-from-bare-noext-to-bare-slash-default/index.js", true, true),
    ("browser/hypothetical.js", "./alternate-files/file-from-bare-slash-to-bare-slash-default", Kind::Y, "browser/alternate-files/file-from-bare-slash-to-bare-slash-default.js", true, true),
    ("browser/hypothetical.js", "./alternate-files/file-from-bare-slash-to-bare-slash-default.js", Kind::Y, "browser/alternate-files/file-from-bare-slash-to-bare-slash-default.js", true, true),
    ("browser/hypothetical.js", "./alternate-files/file-from-bare-slash-to-bare-slash-default/", Kind::Y, "browser/alternate-files/file-from-bare-slash-to-bare-slash-default/index.js", true, true),
    ("browser/hypothetical.js", "./alternate-files/file-from-bare-slash-to-bare-slash-default/index", Kind::Y, "browser/alternate-files/file-from-bare-slash-to-bare-slash-default/index.js", true, true),
    ("browser/hypothetical.js", "./alternate-files/file-from-bare-slash-to-bare-slash-default/index.js", Kind::Y, "browser/alternate-files/file-from-bare-slash-to-bare-slash-default/index.js", true, true),
    ("browser/alternate-files/hypothetical.js", "./file-from-rel-ext-to-rel-ext-default", Kind::Y, "browser/alternate-files/file-from-rel-ext-to-rel-ext-default.js", true, false),
    ("browser/alternate-files/hypothetical.js", "./file-from-rel-ext-to-rel-ext-default.js", Kind::Y, "browser/alternate-files/file-from-rel-ext-to-rel-ext-default.js", true, false),
    ("browser/alternate-files/hypothetical.js", "./file-from-rel-noext-to-rel-ext-default", Kind::Y, "browser/alternate-files/file-from-rel-noext-to-rel-ext-default.js", true, false),
    ("browser/alternate-files/hypothetical.js", "./file-from-rel-noext-to-rel-ext-default.js", Kind::Y, "browser/alternate-files/file-from-rel-noext-to-rel-ext-default.js", true, false),
    ("browser/alternate-files/hypothetical.js", "./file-from-rel-noext-to-rel-ext-default.json", Kind::Y, "browser/alternate-files/file-from-rel-noext-to-rel-ext-default.json", true, false),
    ("browser/alternate-files/hypothetical.js", "./file-from-rel-slash-to-rel-ext-default", Kind::Y, "browser/alternate-files/file-from-rel-slash-to-rel-ext-default.js", true, false),
    ("browser/alternate-files/hypothetical.js", "./file-from-rel-slash-to-rel-ext-default.js", Kind::Y, "browser/alternate-files/file-from-rel-slash-to-rel-ext-default.js", true, false),
    ("browser/alternate-files/hypothetical.js", "./file-from-rel-slash-to-rel-ext-default/", Kind::Y, "browser/alternate-files/file-from-rel-slash-to-rel-ext-default/index.js", true, false),
    ("browser/alternate-files/hypothetical.js", "./file-from-rel-slash-to-rel-ext-default/index", Kind::Y, "browser/alternate-files/file-from-rel-slash-to-rel-ext-default/index.js", true, false),
    ("browser/alternate-files/hypothetical.js", "./file-from-rel-slash-to-rel-ext-default/index.js", Kind::Y, "browser/alternate-files/file-from-rel-slash-to-rel-ext-default/index.js", true, false),
    ("browser/alternate-files/hypothetical.js", "./file-from-rel-ext-to-rel-noext-default", Kind::Y, "browser/alternate-files/file-from-rel-ext-to-rel-noext-default.js", true, false),
    ("browser/alternate-files/hypothetical.js", "./file-from-rel-ext-to-rel-noext-default.js", Kind::Y, "browser/alternate-files/file-from-rel-ext-to-rel-noext-default.js", true, false),
    ("browser/alternate-files/hypothetical.js", "./file-from-rel-ext-to-rel-noext-default.json", Kind::Y, "browser/alternate-files/file-from-rel-ext-to-rel-noext-default.json", true, false),
    ("browser/alternate-files/hypothetical.js", "./file-from-rel-noext-to-rel-noext-default", Kind::Y, "browser/alternate-files/file-from-rel-noext-to-rel-noext-default.js", true, false),
    ("browser/alternate-files/hypothetical.js", "./file-from-rel-noext-to-rel-noext-default.js", Kind::Y, "browser/alternate-files/file-from-rel-noext-to-rel-noext-default.js", true, false),
    ("browser/alternate-files/hypothetical.js", "./file-from-rel-noext-to-rel-noext-default.json", Kind::Y, "browser/alternate-files/file-from-rel-noext-to-rel-noext-default.json", true, false),
    ("browser/alternate-files/hypothetical.js", "./file-from-rel-slash-to-rel-noext-default", Kind::Y, "browser/alternate-files/file-from-rel-slash-to-rel-noext-default.js", true, false),
    ("browser/alternate-files/hypothetical.js", "./file-from-rel-slash-to-rel-noext-default.js", Kind::Y, "browser/alternate-files/file-from-rel-slash-to-rel-noext-default.js", true, false),
    ("browser/alternate-files/hypothetical.js", "./file-from-rel-slash-to-rel-noext-default.json", Kind::Y, "browser/alternate-files/file-from-rel-slash-to-rel-noext-default.json", true, false),
    ("browser/alternate-files/hypothetical.js", "./file-from-rel-slash-to-rel-noext-default/", Kind::Y, "browser/alternate-files/file-from-rel-slash-to-rel-noext-default/index.js", true, false),
    ("browser/alternate-files/hypothetical.js", "./file-from-rel-slash-to-rel-noext-default/index", Kind::Y, "browser/alternate-files/file-from-rel-slash-to-rel-noext-default/index.js", true, false),
    ("browser/alternate-files/hypothetical.js", "./file-from-rel-slash-to-rel-noext-default/index.js", Kind::Y, "browser/alternate-files/file-from-rel-slash-to-rel-noext-default/index.js", true, false),
    ("browser/alternate-files/hypothetical.js", "./file-from-rel-ext-to-rel-slash-default", Kind::Y, "browser/alternate-files/file-from-rel-ext-to-rel-slash-default.js", true, false),
    ("browser/alternate-files/hypothetical.js", "./file-from-rel-ext-to-rel-slash-default.js", Kind::Y, "browser/alternate-files/file-from-rel-ext-to-rel-slash-default.js", true, false),
    ("browser/alternate-files/hypothetical.js", "./file-from-rel-ext-to-rel-slash-default/", Kind::Y, "browser/alternate-files/file-from-rel-ext-to-rel-slash-default/index.js", true, false),
    ("browser/alternate-files/hypothetical.js", "./file-from-rel-ext-to-rel-slash-default/index", Kind::Y, "browser/alternate-files/file-from-rel-ext-to-rel-slash-default/index.js", true, false),
    ("browser/alternate-files/hypothetical.js", "./file-from-rel-ext-to-rel-slash-default/index.js", Kind::Y, "browser/alternate-files/file-from-rel-ext-to-rel-slash-default/index.js", true, false),
    ("browser/alternate-files/hypothetical.js", "./file-from-rel-noext-to-rel-slash-default", Kind::Y, "browser/alternate-files/file-from-rel-noext-to-rel-slash-default.js", true, false),
    ("browser/alternate-files/hypothetical.js", "./file-from-rel-noext-to-rel-slash-default.js", Kind::Y, "browser/alternate-files/file-from-rel-noext-to-rel-slash-default.js", true, false),
    ("browser/alternate-files/hypothetical.js", "./file-from-rel-noext-to-rel-slash-default.json", Kind::Y, "browser/alternate-files/file-from-rel-noext-to-rel-slash-default.json", true, false),
    ("browser/alternate-files/hypothetical.js", "./file-from-rel-noext-to-rel-slash-default/", Kind::Y, "browser/alternate-files/file-from-rel-noext-to-rel-slash-default/index.js", true, false),
    ("browser/alternate-files/hypothetical.js", "./file-from-rel-noext-to-rel-slash-default/index", Kind::Y, "browser/alternate-files/file-from-rel-noext-to-rel-slash-default/index.js", true, false),
    ("browser/alternate-files/hypothetical.js", "./file-from-rel-noext-to-rel-slash-default/index.js", Kind::Y, "browser/alternate-files/file-from-rel-noext-to-rel-slash-default/index.js", true, false),
    ("browser/alternate-files/hypothetical.js", "./file-from-rel-slash-to-rel-slash-default", Kind::Y, "browser/alternate-files/file-from-rel-slash-to-rel-slash-default.js", true, false),
    ("browser/alternate-files/hypothetical.js", "./file-from-rel-slash-to-rel-slash-default.js", Kind::Y, "browser/alternate-files/file-from-rel-slash-to-rel-slash-default.js", true, false),
    ("browser/alternate-files/hypothetical.js", "./file-from-rel-slash-to-rel-slash-default/", Kind::Y, "browser/alternate-files/file-from-rel-slash-to-rel-slash-default/index.js", true, false),
    ("browser/alternate-files/hypothetical.js", "./file-from-rel-slash-to-rel-slash-default/index", Kind::Y, "browser/alternate-files/file-from-rel-slash-to-rel-slash-default/index.js", true, false),
    ("browser/alternate-files/hypothetical.js", "./file-from-rel-slash-to-rel-slash-default/index.js", Kind::Y, "browser/alternate-files/file-from-rel-slash-to-rel-slash-default/index.js", true, false),
    ("browser/alternate-files/hypothetical.js", "./file-from-bare-ext-to-rel-ext-default", Kind::Y, "browser/alternate-files/file-from-bare-ext-to-rel-ext-default.js", true, false),
    ("browser/alternate-files/hypothetical.js", "./file-from-bare-ext-to-rel-ext-default.js", Kind::Y, "browser/alternate-files/file-from-bare-ext-to-rel-ext-default.js", true, false),
    ("browser/alternate-files/hypothetical.js", "./file-from-bare-noext-to-rel-ext-default", Kind::Y, "browser/alternate-files/file-from-bare-noext-to-rel-ext-default.js", true, false),
    ("browser/alternate-files/hypothetical.js", "./file-from-bare-noext-to-rel-ext-default.js", Kind::Y, "browser/alternate-files/file-from-bare-noext-to-rel-ext-default.js", true, false),
    ("browser/alternate-files/hypothetical.js", "./file-from-bare-noext-to-rel-ext-default.json", Kind::Y, "browser/alternate-files/file-from-bare-noext-to-rel-ext-default.json", true, false),
    ("browser/alternate-files/hypothetical.js", "./file-from-bare-slash-to-rel-ext-default", Kind::Y, "browser/alternate-files/file-from-bare-slash-to-rel-ext-default.js", true, false),
    ("browser/alternate-files/hypothetical.js", "./file-from-bare-slash-to-rel-ext-default.js", Kind::Y, "browser/alternate-files/file-from-bare-slash-to-rel-ext-default.js", true, false),
    ("browser/alternate-files/hypothetical.js", "./file-from-bare-slash-to-rel-ext-default/", Kind::Y, "browser/alternate-files/file-from-bare-slash-to-rel-ext-default/index.js", true, false),
    ("browser/alternate-files/hypothetical.js", "./file-from-bare-slash-to-rel-ext-default/index", Kind::Y, "browser/alternate-files/file-from-bare-slash-to-rel-ext-default/index.js", true, false),
    ("browser/alternate-files/hypothetical.js", "./file-from-bare-slash-to-rel-ext-default/index.js", Kind::Y, "browser/alternate-files/file-from-bare-slash-to-rel-ext-default/index.js", true, false),
    ("browser/alternate-files/hypothetical.js", "./file-from-bare-ext-to-rel-noext-default", Kind::Y, "browser/alternate-files/file-from-bare-ext-to-rel-noext-default.js", true, false),
    ("browser/alternate-files/hypothetical.js", "./file-from-bare-ext-to-rel-noext-default.js", Kind::Y, "browser/alternate-files/file-from-bare-ext-to-rel-noext-default.js", true, false),
    ("browser/alternate-files/hypothetical.js", "./file-from-bare-ext-to-rel-noext-default.json", Kind::Y, "browser/alternate-files/file-from-bare-ext-to-rel-noext-default.json", true, false),
    ("browser/alternate-files/hypothetical.js", "./file-from-bare-noext-to-rel-noext-default", Kind::Y, "browser/alternate-files/file-from-bare-noext-to-rel-noext-default.js", true, false),
    ("browser/alternate-files/hypothetical.js", "./file-from-bare-noext-to-rel-noext-default.js", Kind::Y, "browser/alternate-files/file-from-bare-noext-to-rel-noext-default.js", true, false),
    ("browser/alternate-files/hypothetical.js", "./file-from-bare-noext-to-rel-noext-default.json", Kind::Y, "browser/alternate-files/file-from-bare-noext-to-rel-noext-default.json", true, false),
    ("browser/alternate-files/hypothetical.js", "./file-from-bare-slash-to-rel-noext-default", Kind::Y, "browser/alternate-files/file-from-bare-slash-to-rel-noext-default.js", true, false),
    ("browser/alternate-files/hypothetical.js", "./file-from-bare-slash-to-rel-noext-default.js", Kind::Y, "browser/alternate-files/file-from-bare-slash-to-rel-noext-default.js", true, false),
    ("browser/alternate-files/hypothetical.js", "./file-from-bare-slash-to-rel-noext-default.json", Kind::Y, "browser/alternate-files/file-from-bare-slash-to-rel-noext-default.json", true, false),
    ("browser/alternate-files/hypothetical.js", "./file-from-bare-slash-to-rel-noext-default/", Kind::Y, "browser/alternate-files/file-from-bare-slash-to-rel-noext-default/index.js", true, false),
    ("browser/alternate-files/hypothetical.js", "./file-from-bare-slash-to-rel-noext-default/index", Kind::Y, "browser/alternate-files/file-from-bare-slash-to-rel-noext-default/index.js", true, false),
    ("browser/alternate-files/hypothetical.js", "./file-from-bare-slash-to-rel-noext-default/index.js", Kind::Y, "browser/alternate-files/file-from-bare-slash-to-rel-noext-default/index.js", true, false),
    ("browser/alternate-files/hypothetical.js", "./file-from-bare-ext-to-rel-slash-default", Kind::Y, "browser/alternate-files/file-from-bare-ext-to-rel-slash-default.js", true, false),
    ("browser/alternate-files/hypothetical.js", "./file-from-bare-ext-to-rel-slash-default.js", Kind::Y, "browser/alternate-files/file-from-bare-ext-to-rel-slash-default.js", true, false),
    ("browser/alternate-files/hypothetical.js", "./file-from-bare-ext-to-rel-slash-default/", Kind::Y, "browser/alternate-files/file-from-bare-ext-to-rel-slash-default/index.js", true, false),
    ("browser/alternate-files/hypothetical.js", "./file-from-bare-ext-to-rel-slash-default/index", Kind::Y, "browser/alternate-files/file-from-bare-ext-to-rel-slash-default/index.js", true, false),
    ("browser/alternate-files/hypothetical.js", "./file-from-bare-ext-to-rel-slash-default/index.js", Kind::Y, "browser/alternate-files/file-from-bare-ext-to-rel-slash-default/index.js", true, false),
    ("browser/alternate-files/hypothetical.js", "./file-from-bare-noext-to-rel-slash-default", Kind::Y, "browser/alternate-files/file-from-bare-noext-to-rel-slash-default.js", true, false),
    ("browser/alternate-files/hypothetical.js", "./file-from-bare-noext-to-rel-slash-default.js", Kind::Y, "browser/alternate-files/file-from-bare-noext-to-rel-slash-default.js", true, false),
    ("browser/alternate-files/hypothetical.js", "./file-from-bare-noext-to-rel-slash-default.json", Kind::Y, "browser/alternate-files/file-from-bare-noext-to-rel-slash-default.json", true, false),
    ("browser/alternate-files/hypothetical.js", "./file-from-bare-noext-to-rel-slash-default/", Kind::Y, "browser/alternate-files/file-from-bare-noext-to-rel-slash-default/index.js", true, false),
    ("browser/alternate-files/hypothetical.js", "./file-from-bare-noext-to-rel-slash-default/index", Kind::Y, "browser/alternate-files/file-from-bare-noext-to-rel-slash-default/index.js", true, false),
    ("browser/alternate-files/hypothetical.js", "./file-from-bare-noext-to-rel-slash-default/index.js", Kind::Y, "browser/alternate-files/file-from-bare-noext-to-rel-slash-default/index.js", true, false),
    ("browser/alternate-files/hypothetical.js", "./file-from-bare-slash-to-rel-slash-default", Kind::Y, "browser/alternate-files/file-from-bare-slash-to-rel-slash-default.js", true, false),
    ("browser/alternate-files/hypothetical.js", "./file-from-bare-slash-to-rel-slash-default.js", Kind::Y, "browser/alternate-files/file-from-bare-slash-to-rel-slash-default.js", true, false),
    ("browser/alternate-files/hypothetical.js", "./file-from-bare-slash-to-rel-slash-default/", Kind::Y, "browser/alternate-files/file-from-bare-slash-to-rel-slash-default/index.js", true, false),
    ("browser/alternate-files/hypothetical.js", "./file-from-bare-slash-to-rel-slash-default/index", Kind::Y, "browser/alternate-files/file-from-bare-slash-to-rel-slash-default/index.js", true, false),
    ("browser/alternate-files/hypothetical.js", "./file-from-bare-slash-to-rel-slash-default/index.js", Kind::Y, "browser/alternate-files/file-from-bare-slash-to-rel-slash-default/index.js", true, false),
    ("browser/alternate-files/hypothetical.js", "./file-from-rel-ext-to-bare-ext-default", Kind::Y, "browser/alternate-files/file-from-rel-ext-to-bare-ext-default.js", true, false),
    ("browser/alternate-files/hypothetical.js", "./file-from-rel-ext-to-bare-ext-default.js", Kind::Y, "browser/alternate-files/file-from-rel-ext-to-bare-ext-default.js", true, false),
    ("browser/alternate-files/hypothetical.js", "./file-from-rel-noext-to-bare-ext-default", Kind::Y, "browser/alternate-files/file-from-rel-noext-to-bare-ext-default.js", true, false),
    ("browser/alternate-files/hypothetical.js", "./file-from-rel-noext-to-bare-ext-default.js", Kind::Y, "browser/alternate-files/file-from-rel-noext-to-bare-ext-default.js", true, false),
    ("browser/alternate-files/hypothetical.js", "./file-from-rel-noext-to-bare-ext-default.json", Kind::Y, "browser/alternate-files/file-from-rel-noext-to-bare-ext-default.json", true, false),
    ("browser/alternate-files/hypothetical.js", "./file-from-rel-slash-to-bare-ext-default", Kind::Y, "browser/alternate-files/file-from-rel-slash-to-bare-ext-default.js", true, false),
    ("browser/alternate-files/hypothetical.js", "./file-from-rel-slash-to-bare-ext-default.js", Kind::Y, "browser/alternate-files/file-from-rel-slash-to-bare-ext-default.js", true, false),
    ("browser/alternate-files/hypothetical.js", "./file-from-rel-slash-to-bare-ext-default/", Kind::Y, "browser/alternate-files/file-from-rel-slash-to-bare-ext-default/index.js", true, false),
    ("browser/alternate-files/hypothetical.js", "./file-from-rel-slash-to-bare-ext-default/index", Kind::Y, "browser/alternate-files/file-from-rel-slash-to-bare-ext-default/index.js", true, false),
    ("browser/alternate-files/hypothetical.js", "./file-from-rel-slash-to-bare-ext-default/index.js", Kind::Y, "browser/alternate-files/file-from-rel-slash-to-bare-ext-default/index.js", true, false),
    ("browser/alternate-files/hypothetical.js", "./file-from-rel-ext-to-bare-noext-default", Kind::Y, "browser/alternate-files/file-from-rel-ext-to-bare-noext-default.js", true, false),
    ("browser/alternate-files/hypothetical.js", "./file-from-rel-ext-to-bare-noext-default.js", Kind::Y, "browser/alternate-files/file-from-rel-ext-to-bare-noext-default.js", true, false),
    ("browser/alternate-files/hypothetical.js", "./file-from-rel-ext-to-bare-noext-default.json", Kind::Y, "browser/alternate-files/file-from-rel-ext-to-bare-noext-default.json", true, false),
    ("browser/alternate-files/hypothetical.js", "./file-from-rel-noext-to-bare-noext-default", Kind::Y, "browser/alternate-files/file-from-rel-noext-to-bare-noext-default.js", true, false),
    ("browser/alternate-files/hypothetical.js", "./file-from-rel-noext-to-bare-noext-default.js", Kind::Y, "browser/alternate-files/file-from-rel-noext-to-bare-noext-default.js", true, false),
    ("browser/alternate-files/hypothetical.js", "./file-from-rel-noext-to-bare-noext-default.json", Kind::Y, "browser/alternate-files/file-from-rel-noext-to-bare-noext-default.json", true, false),
    ("browser/alternate-files/hypothetical.js", "./file-from-rel-slash-to-bare-noext-default", Kind::Y, "browser/alternate-files/file-from-rel-slash-to-bare-noext-default.js", true, false),
    ("browser/alternate-files/hypothetical.js", "./file-from-rel-slash-to-bare-noext-default.js", Kind::Y, "browser/alternate-files/file-from-rel-slash-to-bare-noext-default.js", true, false),
    ("browser/alternate-files/hypothetical.js", "./file-from-rel-slash-to-bare-noext-default.json", Kind::Y, "browser/alternate-files/file-from-rel-slash-to-bare-noext-default.json", true, false),
    ("browser/alternate-files/hypothetical.js", "./file-from-rel-slash-to-bare-noext-default/", Kind::Y, "browser/alternate-files/file-from-rel-slash-to-bare-noext-default/index.js", true, false),
    ("browser/alternate-files/hypothetical.js", "./file-from-rel-slash-to-bare-noext-default/index", Kind::Y, "browser/alternate-files/file-from-rel-slash-to-bare-noext-default/index.js", true, false),
    ("browser/alternate-files/hypothetical.js", "./file-from-rel-slash-to-bare-noext-default/index.js", Kind::Y, "browser/alternate-files/file-from-rel-slash-to-bare-noext-default/index.js", true, false),
    ("browser/alternate-files/hypothetical.js", "./file-from-rel-ext-to-bare-slash-default", Kind::Y, "browser/alternate-files/file-from-rel-ext-to-bare-slash-default.js", true, false),
    ("browser/alternate-files/hypothetical.js", "./file-from-rel-ext-to-bare-slash-default.js", Kind::Y, "browser/alternate-files/file-from-rel-ext-to-bare-slash-default.js", true, false),
    ("browser/alternate-files/hypothetical.js", "./file-from-rel-ext-to-bare-slash-default/", Kind::Y, "browser/alternate-files/file-from-rel-ext-to-bare-slash-default/index.js", true, false),
    ("browser/alternate-files/hypothetical.js", "./file-from-rel-ext-to-bare-slash-default/index", Kind::Y, "browser/alternate-files/file-from-rel-ext-to-bare-slash-default/index.js", true, false),
    ("browser/alternate-files/hypothetical.js", "./file-from-rel-ext-to-bare-slash-default/index.js", Kind::Y, "browser/alternate-files/file-from-rel-ext-to-bare-slash-default/index.js", true, false),
    ("browser/alternate-files/hypothetical.js", "./file-from-rel-noext-to-bare-slash-default", Kind::Y, "browser/alternate-files/file-from-rel-noext-to-bare-slash-default.js", true, false),
    ("browser/alternate-files/hypothetical.js", "./file-from-rel-noext-to-bare-slash-default.js", Kind::Y, "browser/alternate-files/file-from-rel-noext-to-bare-slash-default.js", true, false),
    ("browser/alternate-files/hypothetical.js", "./file-from-rel-noext-to-bare-slash-default.json", Kind::Y, "browser/alternate-files/file-from-rel-noext-to-bare-slash-default.json", true, false),
    ("browser/alternate-files/hypothetical.js", "./file-from-rel-noext-to-bare-slash-default/", Kind::Y, "browser/alternate-files/file-from-rel-noext-to-bare-slash-default/index.js", true, false),
    ("browser/alternate-files/hypothetical.js", "./file-from-rel-noext-to-bare-slash-default/index", Kind::Y, "browser/alternate-files/file-from-rel-noext-to-bare-slash-default/index.js", true, false),
    ("browser/alternate-files/hypothetical.js", "./file-from-rel-noext-to-bare-slash-default/index.js", Kind::Y, "browser/alternate-files/file-from-rel-noext-to-bare-slash-default/index.js", true, false),
    ("browser/alternate-files/hypothetical.js", "./file-from-rel-slash-to-bare-slash-default", Kind::Y, "browser/alternate-files/file-from-rel-slash-to-bare-slash-default.js", true, false),
    ("browser/alternate-files/hypothetical.js", "./file-from-rel-slash-to-bare-slash-default.js", Kind::Y, "browser/alternate-files/file-from-rel-slash-to-bare-slash-default.js", true, false),
    ("browser/alternate-files/hypothetical.js", "./file-from-rel-slash-to-bare-slash-default/", Kind::Y, "browser/alternate-files/file-from-rel-slash-to-bare-slash-default/index.js", true, false),
    ("browser/alternate-files/hypothetical.js", "./file-from-rel-slash-to-bare-slash-default/index", Kind::Y, "browser/alternate-files/file-from-rel-slash-to-bare-slash-default/index.js", true, false),
    ("browser/alternate-files/hypothetical.js", "./file-from-rel-slash-to-bare-slash-default/index.js", Kind::Y, "browser/alternate-files/file-from-rel-slash-to-bare-slash-default/index.js", true, false),
    ("browser/alternate-files/hypothetical.js", "./file-from-bare-ext-to-bare-ext-default", Kind::Y, "browser/alternate-files/file-from-bare-ext-to-bare-ext-default.js", true, false),
    ("browser/alternate-files/hypothetical.js", "./file-from-bare-ext-to-bare-ext-default.js", Kind::Y, "browser/alternate-files/file-from-bare-ext-to-bare-ext-default.js", true, false),
    ("browser/alternate-files/hypothetical.js", "./file-from-bare-noext-to-bare-ext-default", Kind::Y, "browser/alternate-files/file-from-bare-noext-to-bare-ext-default.js", true, false),
    ("browser/alternate-files/hypothetical.js", "./file-from-bare-noext-to-bare-ext-default.js", Kind::Y, "browser/alternate-files/file-from-bare-noext-to-bare-ext-default.js", true, false),
    ("browser/alternate-files/hypothetical.js", "./file-from-bare-noext-to-bare-ext-default.json", Kind::Y, "browser/alternate-files/file-from-bare-noext-to-bare-ext-default.json", true, false),
    ("browser/alternate-files/hypothetical.js", "./file-from-bare-slash-to-bare-ext-default", Kind::Y, "browser/alternate-files/file-from-bare-slash-to-bare-ext-default.js", true, false),
    ("browser/alternate-files/hypothetical.js", "./file-from-bare-slash-to-bare-ext-default.js", Kind::Y, "browser/alternate-files/file-from-bare-slash-to-bare-ext-default.js", true, false),
    ("browser/alternate-files/hypothetical.js", "./file-from-bare-slash-to-bare-ext-default/", Kind::Y, "browser/alternate-files/file-from-bare-slash-to-bare-ext-default/index.js", true, false),
    ("browser/alternate-files/hypothetical.js", "./file-from-bare-slash-to-bare-ext-default/index", Kind::Y, "browser/alternate-files/file-from-bare-slash-to-bare-ext-default/index.js", true, false),
    ("browser/alternate-files/hypothetical.js", "./file-from-bare-slash-to-bare-ext-default/index.js", Kind::Y, "browser/alternate-files/file-from-bare-slash-to-bare-ext-default/index.js", true, false),
    ("browser/alternate-files/hypothetical.js", "./file-from-bare-ext-to-bare-noext-default", Kind::Y, "browser/alternate-files/file-from-bare-ext-to-bare-noext-default.js", true, false),
    ("browser/alternate-files/hypothetical.js", "./file-from-bare-ext-to-bare-noext-default.js", Kind::Y, "browser/alternate-files/file-from-bare-ext-to-bare-noext-default.js", true, false),
    ("browser/alternate-files/hypothetical.js", "./file-from-bare-ext-to-bare-noext-default.json", Kind::Y, "browser/alternate-files/file-from-bare-ext-to-bare-noext-default.json", true, false),
    ("browser/alternate-files/hypothetical.js", "./file-from-bare-noext-to-bare-noext-default", Kind::Y, "browser/alternate-files/file-from-bare-noext-to-bare-noext-default.js", true, false),
    ("browser/alternate-files/hypothetical.js", "./file-from-bare-noext-to-bare-noext-default.js", Kind::Y, "browser/alternate-files/file-from-bare-noext-to-bare-noext-default.js", true, false),
    ("browser/alternate-files/hypothetical.js", "./file-from-bare-noext-to-bare-noext-default.json", Kind::Y, "browser/alternate-files/file-from-bare-noext-to-bare-noext-default.json", true, false),
    ("browser/alternate-files/hypothetical.js", "./file-from-bare-slash-to-bare-noext-default", Kind::Y, "browser/alternate-files/file-from-bare-slash-to-bare-noext-default.js", true, false),
    ("browser/alternate-files/hypothetical.js", "./file-from-bare-slash-to-bare-noext-default.js", Kind::Y, "browser/alternate-files/file-from-bare-slash-to-bare-noext-default.js", true, false),
    ("browser/alternate-files/hypothetical.js", "./file-from-bare-slash-to-bare-noext-default.json", Kind::Y, "browser/alternate-files/file-from-bare-slash-to-bare-noext-default.json", true, false),
    ("browser/alternate-files/hypothetical.js", "./file-from-bare-slash-to-bare-noext-default/", Kind::Y, "browser/alternate-files/file-from-bare-slash-to-bare-noext-default/index.js", true, false),
    ("browser/alternate-files/hypothetical.js", "./file-from-bare-slash-to-bare-noext-default/index", Kind::Y, "browser/alternate-files/file-from-bare-slash-to-bare-noext-default/index.js", true, false),
    ("browser/alternate-files/hypothetical.js", "./file-from-bare-slash-to-bare-noext-default/index.js", Kind::Y, "browser/alternate-files/file-from-bare-slash-to-bare-noext-default/index.js", true, false),
    ("browser/alternate-files/hypothetical.js", "./file-from-bare-ext-to-bare-slash-default", Kind::Y, "browser/alternate-files/file-from-bare-ext-to-bare-slash-default.js", true, false),
    ("browser/alternate-files/hypothetical.js", "./file-from-bare-ext-to-bare-slash-default.js", Kind::Y, "browser/alternate-files/file-from-bare-ext-to-bare-slash-default.js", true, false),
    ("browser/alternate-files/hypothetical.js", "./file-from-bare-ext-to-bare-slash-default/", Kind::Y, "browser/alternate-files/file-from-bare-ext-to-bare-slash-default/index.js", true, false),
    ("browser/alternate-files/hypothetical.js", "./file-from-bare-ext-to-bare-slash-default/index", Kind::Y, "browser/alternate-files/file-from-bare-ext-to-bare-slash-default/index.js", true, false),
    ("browser/alternate-files/hypothetical.js", "./file-from-bare-ext-to-bare-slash-default/index.js", Kind::Y, "browser/alternate-files/file-from-bare-ext-to-bare-slash-default/index.js", true, false),
    ("browser/alternate-files/hypothetical.js", "./file-from-bare-noext-to-bare-slash-default", Kind::Y, "browser/alternate-files/file-from-bare-noext-to-bare-slash-default.js", true, false),
    ("browser/alternate-files/hypothetical.js", "./file-from-bare-noext-to-bare-slash-default.js", Kind::Y, "browser/alternate-files/file-from-bare-noext-to-bare-slash-default.js", true, false),
    ("browser/alternate-files/hypothetical.js", "./file-from-bare-noext-to-bare-slash-default.json", Kind::Y, "browser/alternate-files/file-from-bare-noext-to-bare-slash-default.json", true, false),
    ("browser/alternate-files/hypothetical.js", "./file-from-bare-noext-to-bare-slash-default/", Kind::Y, "browser/alternate-files/file-from-bare-noext-to-bare-slash-default/index.js", true, false),
    ("browser/alternate-files/hypothetical.js", "./file-from-bare-noext-to-bare-slash-default/index", Kind::Y, "browser/alternate-files/file-from-bare-noext-to-bare-slash-default/index.js", true, false),
    ("browser/alternate-files/hypothetical.js", "./file-from-bare-noext-to-bare-slash-default/index.js", Kind::Y, "browser/alternate-files/file-from-bare-noext-to-bare-slash-default/index.js", true, false),
    ("browser/alternate-files/hypothetical.js", "./file-from-bare-slash-to-bare-slash-default", Kind::Y, "browser/alternate-files/file-from-bare-slash-to-bare-slash-default.js", true, false),
    ("browser/alternate-files/hypothetical.js", "./file-from-bare-slash-to-bare-slash-default.js", Kind::Y, "browser/alternate-files/file-from-bare-slash-to-bare-slash-default.js", true, false),
    ("browser/alternate-files/hypothetical.js", "./file-from-bare-slash-to-bare-slash-default/", Kind::Y, "browser/alternate-files/file-from-bare-slash-to-bare-slash-default/index.js", true, false),
    ("browser/alternate-files/hypothetical.js", "./file-from-bare-slash-to-bare-slash-default/index", Kind::Y, "browser/alternate-files/file-from-bare-slash-to-bare-slash-default/index.js", true, false),
    ("browser/alternate-files/hypothetical.js", "./file-from-bare-slash-to-bare-slash-default/index.js", Kind::Y, "browser/alternate-files/file-from-bare-slash-to-bare-slash-default/index.js", true, false),
    ("browser/alternate-files/hypothetical.js", "./file-from-rel-ext-to-rel-ext-default", Kind::Y, "browser/alternate-files/file-from-rel-ext-to-rel-ext-browser.js", true, true),
    ("browser/alternate-files/hypothetical.js", "./file-from-rel-ext-to-rel-ext-default.js", Kind::Y, "browser/alternate-files/file-from-rel-ext-to-rel-ext-browser.js", true, true),
    ("browser/alternate-files/hypothetical.js", "./file-from-rel-noext-to-rel-ext-default", Kind::Y, "browser/alternate-files/file-from-rel-noext-to-rel-ext-browser.js", true, true),
    ("browser/alternate-files/hypothetical.js", "./file-from-rel-noext-to-rel-ext-default.js", Kind::Y, "browser/alternate-files/file-from-rel-noext-to-rel-ext-default.js", true, true),
    ("browser/alternate-files/hypothetical.js", "./file-from-rel-noext-to-rel-ext-default.json", Kind::Y, "browser/alternate-files/file-from-rel-noext-to-rel-ext-default.json", true, true),
    ("browser/alternate-files/hypothetical.js", "./file-from-rel-slash-to-rel-ext-default", Kind::Y, "browser/alternate-files/file-from-rel-slash-to-rel-ext-default.js", true, true),
    ("browser/alternate-files/hypothetical.js", "./file-from-rel-slash-to-rel-ext-default.js", Kind::Y, "browser/alternate-files/file-from-rel-slash-to-rel-ext-default.js", true, true),
    ("browser/alternate-files/hypothetical.js", "./file-from-rel-slash-to-rel-ext-default/", Kind::Y, "browser/alternate-files/file-from-rel-slash-to-rel-ext-default/index.js", true, true),
    ("browser/alternate-files/hypothetical.js", "./file-from-rel-slash-to-rel-ext-default/index", Kind::Y, "browser/alternate-files/file-from-rel-slash-to-rel-ext-default/index.js", true, true),
    ("browser/alternate-files/hypothetical.js", "./file-from-rel-slash-to-rel-ext-default/index.js", Kind::Y, "browser/alternate-files/file-from-rel-slash-to-rel-ext-default/index.js", true, true),
    ("browser/alternate-files/hypothetical.js", "./file-from-rel-ext-to-rel-noext-default", Kind::Y, "browser/alternate-files/file-from-rel-ext-to-rel-noext-browser.js", true, true),
    ("browser/alternate-files/hypothetical.js", "./file-from-rel-ext-to-rel-noext-default.js", Kind::Y, "browser/alternate-files/file-from-rel-ext-to-rel-noext-browser.js", true, true),
    ("browser/alternate-files/hypothetical.js", "./file-from-rel-ext-to-rel-noext-default.json", Kind::Y, "browser/alternate-files/file-from-rel-ext-to-rel-noext-default.json", true, true),
    ("browser/alternate-files/hypothetical.js", "./file-from-rel-noext-to-rel-noext-default", Kind::Y, "browser/alternate-files/file-from-rel-noext-to-rel-noext-browser.js", true, true),
    ("browser/alternate-files/hypothetical.js", "./file-from-rel-noext-to-rel-noext-default.js", Kind::Y, "browser/alternate-files/file-from-rel-noext-to-rel-noext-default.js", true, true),
    ("browser/alternate-files/hypothetical.js", "./file-from-rel-noext-to-rel-noext-default.json", Kind::Y, "browser/alternate-files/file-from-rel-noext-to-rel-noext-default.json", true, true),
    ("browser/alternate-files/hypothetical.js", "./file-from-rel-slash-to-rel-noext-default", Kind::Y, "browser/alternate-files/file-from-rel-slash-to-rel-noext-default.js", true, true),
    ("browser/alternate-files/hypothetical.js", "./file-from-rel-slash-to-rel-noext-default.js", Kind::Y, "browser/alternate-files/file-from-rel-slash-to-rel-noext-default.js", true, true),
    ("browser/alternate-files/hypothetical.js", "./file-from-rel-slash-to-rel-noext-default.json", Kind::Y, "browser/alternate-files/file-from-rel-slash-to-rel-noext-default.json", true, true),
    ("browser/alternate-files/hypothetical.js", "./file-from-rel-slash-to-rel-noext-default/", Kind::Y, "browser/alternate-files/file-from-rel-slash-to-rel-noext-default/index.js", true, true),
    ("browser/alternate-files/hypothetical.js", "./file-from-rel-slash-to-rel-noext-default/index", Kind::Y, "browser/alternate-files/file-from-rel-slash-to-rel-noext-default/index.js", true, true),
    ("browser/alternate-files/hypothetical.js", "./file-from-rel-slash-to-rel-noext-default/index.js", Kind::Y, "browser/alternate-files/file-from-rel-slash-to-rel-noext-default/index.js", true, true),
    ("browser/alternate-files/hypothetical.js", "./file-from-rel-ext-to-rel-slash-default", Kind::Y, "browser/alternate-files/file-from-rel-ext-to-rel-slash-browser/index.js", true, true),
    ("browser/alternate-files/hypothetical.js", "./file-from-rel-ext-to-rel-slash-default.js", Kind::Y, "browser/alternate-files/file-from-rel-ext-to-rel-slash-browser/index.js", true, true),
    ("browser/alternate-files/hypothetical.js", "./file-from-rel-ext-to-rel-slash-default/", Kind::Y, "browser/alternate-files/file-from-rel-ext-to-rel-slash-default/index.js", true, true),
    ("browser/alternate-files/hypothetical.js", "./file-from-rel-ext-to-rel-slash-default/index", Kind::Y, "browser/alternate-files/file-from-rel-ext-to-rel-slash-default/index.js", true, true),
    ("browser/alternate-files/hypothetical.js", "./file-from-rel-ext-to-rel-slash-default/index.js", Kind::Y, "browser/alternate-files/file-from-rel-ext-to-rel-slash-default/index.js", true, true),
    ("browser/alternate-files/hypothetical.js", "./file-from-rel-noext-to-rel-slash-default", Kind::Y, "browser/alternate-files/file-from-rel-noext-to-rel-slash-browser/index.js", true, true),
    ("browser/alternate-files/hypothetical.js", "./file-from-rel-noext-to-rel-slash-default.js", Kind::Y, "browser/alternate-files/file-from-rel-noext-to-rel-slash-default.js", true, true),
    ("browser/alternate-files/hypothetical.js", "./file-from-rel-noext-to-rel-slash-default.json", Kind::Y, "browser/alternate-files/file-from-rel-noext-to-rel-slash-default.json", true, true),
    ("browser/alternate-files/hypothetical.js", "./file-from-rel-noext-to-rel-slash-default/", Kind::Y, "browser/alternate-files/file-from-rel-noext-to-rel-slash-browser/index.js", true, true),
    ("browser/alternate-files/hypothetical.js", "./file-from-rel-noext-to-rel-slash-default/index", Kind::Y, "browser/alternate-files/file-from-rel-noext-to-rel-slash-default/index.js", true, true),
    ("browser/alternate-files/hypothetical.js", "./file-from-rel-noext-to-rel-slash-default/index.js", Kind::Y, "browser/alternate-files/file-from-rel-noext-to-rel-slash-default/index.js", true, true),
    ("browser/alternate-files/hypothetical.js", "./file-from-rel-slash-to-rel-slash-default", Kind::Y, "browser/alternate-files/file-from-rel-slash-to-rel-slash-default.js", true, true),
    ("browser/alternate-files/hypothetical.js", "./file-from-rel-slash-to-rel-slash-default.js", Kind::Y, "browser/alternate-files/file-from-rel-slash-to-rel-slash-default.js", true, true),
    ("browser/alternate-files/hypothetical.js", "./file-from-rel-slash-to-rel-slash-default/", Kind::Y, "browser/alternate-files/file-from-rel-slash-to-rel-slash-default/index.js", true, true),
    ("browser/alternate-files/hypothetical.js", "./file-from-rel-slash-to-rel-slash-default/index", Kind::Y, "browser/alternate-files/file-from-rel-slash-to-rel-slash-default/index.js", true, true),
    ("browser/alternate-files/hypothetical.js", "./file-from-rel-slash-to-rel-slash-default/index.js", Kind::Y, "browser/alternate-files/file-from-rel-slash-to-rel-slash-default/index.js", true, true),
    ("browser/alternate-files/hypothetical.js", "./file-from-bare-ext-to-rel-ext-default", Kind::Y, "browser/alternate-files/file-from-bare-ext-to-rel-ext-browser.js", true, true),
    ("browser/alternate-files/hypothetical.js", "./file-from-bare-ext-to-rel-ext-default.js", Kind::Y, "browser/alternate-files/file-from-bare-ext-to-rel-ext-browser.js", true, true),
    ("browser/alternate-files/hypothetical.js", "./file-from-bare-noext-to-rel-ext-default", Kind::Y, "browser/alternate-files/file-from-bare-noext-to-rel-ext-browser.js", true, true),
    ("browser/alternate-files/hypothetical.js", "./file-from-bare-noext-to-rel-ext-default.js", Kind::Y, "browser/alternate-files/file-from-bare-noext-to-rel-ext-default.js", true, true),
    ("browser/alternate-files/hypothetical.js", "./file-from-bare-noext-to-rel-ext-default.json", Kind::Y, "browser/alternate-files/file-from-bare-noext-to-rel-ext-default.json", true, true),
    ("browser/alternate-files/hypothetical.js", "./file-from-bare-slash-to-rel-ext-default", Kind::Y, "browser/alternate-files/file-from-bare-slash-to-rel-ext-default.js", true, true),
    ("browser/alternate-files/hypothetical.js", "./file-from-bare-slash-to-rel-ext-default.js", Kind::Y, "browser/alternate-files/file-from-bare-slash-to-rel-ext-default.js", true, true),
    ("browser/alternate-files/hypothetical.js", "./file-from-bare-slash-to-rel-ext-default/", Kind::Y, "browser/alternate-files/file-from-bare-slash-to-rel-ext-default/index.js", true, true),
    ("browser/alternate-files/hypothetical.js", "./file-from-bare-slash-to-rel-ext-default/index", Kind::Y, "browser/alternate-files/file-from-bare-slash-to-rel-ext-default/index.js", true, true),
    ("browser/alternate-files/hypothetical.js", "./file-from-bare-slash-to-rel-ext-default/index.js", Kind::Y, "browser/alternate-files/file-from-bare-slash-to-rel-ext-default/index.js", true, true),
    ("browser/alternate-files/hypothetical.js", "./file-from-bare-ext-to-rel-noext-default", Kind::Y, "browser/alternate-files/file-from-bare-ext-to-rel-noext-browser.js", true, true),
    ("browser/alternate-files/hypothetical.js", "./file-from-bare-ext-to-rel-noext-default.js", Kind::Y, "browser/alternate-files/file-from-bare-ext-to-rel-noext-browser.js", true, true),
    ("browser/alternate-files/hypothetical.js", "./file-from-bare-ext-to-rel-noext-default.json", Kind::Y, "browser/alternate-files/file-from-bare-ext-to-rel-noext-default.json", true, true),
    ("browser/alternate-files/hypothetical.js", "./file-from-bare-noext-to-rel-noext-default", Kind::Y, "browser/alternate-files/file-from-bare-noext-to-rel-noext-browser.js", true, true),
    ("browser/alternate-files/hypothetical.js", "./file-from-bare-noext-to-rel-noext-default.js", Kind::Y, "browser/alternate-files/file-from-bare-noext-to-rel-noext-default.js", true, true),
    ("browser/alternate-files/hypothetical.js", "./file-from-bare-noext-to-rel-noext-default.json", Kind::Y, "browser/alternate-files/file-from-bare-noext-to-rel-noext-default.json", true, true),
    ("browser/alternate-files/hypothetical.js", "./file-from-bare-slash-to-rel-noext-default", Kind::Y, "browser/alternate-files/file-from-bare-slash-to-rel-noext-default.js", true, true),
    ("browser/alternate-files/hypothetical.js", "./file-from-bare-slash-to-rel-noext-default.js", Kind::Y, "browser/alternate-files/file-from-bare-slash-to-rel-noext-default.js", true, true),
    ("browser/alternate-files/hypothetical.js", "./file-from-bare-slash-to-rel-noext-default.json", Kind::Y, "browser/alternate-files/file-from-bare-slash-to-rel-noext-default.json", true, true),
    ("browser/alternate-files/hypothetical.js", "./file-from-bare-slash-to-rel-noext-default/", Kind::Y, "browser/alternate-files/file-from-bare-slash-to-rel-noext-default/index.js", true, true),
    ("browser/alternate-files/hypothetical.js", "./file-from-bare-slash-to-rel-noext-default/index", Kind::Y, "browser/alternate-files/file-from-bare-slash-to-rel-noext-default/index.js", true, true),
    ("browser/alternate-files/hypothetical.js", "./file-from-bare-slash-to-rel-noext-default/index.js", Kind::Y, "browser/alternate-files/file-from-bare-slash-to-rel-noext-default/index.js", true, true),
    ("browser/alternate-files/hypothetical.js", "./file-from-bare-ext-to-rel-slash-default", Kind::Y, "browser/alternate-files/file-from-bare-ext-to-rel-slash-browser/index.js", true, true),
    ("browser/alternate-files/hypothetical.js", "./file-from-bare-ext-to-rel-slash-default.js", Kind::Y, "browser/alternate-files/file-from-bare-ext-to-rel-slash-browser/index.js", true, true),
    ("browser/alternate-files/hypothetical.js", "./file-from-bare-ext-to-rel-slash-default/", Kind::Y, "browser/alternate-files/file-from-bare-ext-to-rel-slash-default/index.js", true, true),
    ("browser/alternate-files/hypothetical.js", "./file-from-bare-ext-to-rel-slash-default/index", Kind::Y, "browser/alternate-files/file-from-bare-ext-to-rel-slash-default/index.js", true, true),
    ("browser/alternate-files/hypothetical.js", "./file-from-bare-ext-to-rel-slash-default/index.js", Kind::Y, "browser/alternate-files/file-from-bare-ext-to-rel-slash-default/index.js", true, true),
    ("browser/alternate-files/hypothetical.js", "./file-from-bare-noext-to-rel-slash-default", Kind::Y, "browser/alternate-files/file-from-bare-noext-to-rel-slash-browser/index.js", true, true),
    ("browser/alternate-files/hypothetical.js", "./file-from-bare-noext-to-rel-slash-default.js", Kind::Y, "browser/alternate-files/file-from-bare-noext-to-rel-slash-default.js", true, true),
    ("browser/alternate-files/hypothetical.js", "./file-from-bare-noext-to-rel-slash-default.json", Kind::Y, "browser/alternate-files/file-from-bare-noext-to-rel-slash-default.json", true, true),
    ("browser/alternate-files/hypothetical.js", "./file-from-bare-noext-to-rel-slash-default/", Kind::Y, "browser/alternate-files/file-from-bare-noext-to-rel-slash-browser/index.js", true, true),
    ("browser/alternate-files/hypothetical.js", "./file-from-bare-noext-to-rel-slash-default/index", Kind::Y, "browser/alternate-files/file-from-bare-noext-to-rel-slash-default/index.js", true, true),
    ("browser/alternate-files/hypothetical.js", "./file-from-bare-noext-to-rel-slash-default/index.js", Kind::Y, "browser/alternate-files/file-from-bare-noext-to-rel-slash-default/index.js", true, true),
    ("browser/alternate-files/hypothetical.js", "./file-from-bare-slash-to-rel-slash-default", Kind::Y, "browser/alternate-files/file-from-bare-slash-to-rel-slash-default.js", true, true),
    ("browser/alternate-files/hypothetical.js", "./file-from-bare-slash-to-rel-slash-default.js", Kind::Y, "browser/alternate-files/file-from-bare-slash-to-rel-slash-default.js", true, true),
    ("browser/alternate-files/hypothetical.js", "./file-from-bare-slash-to-rel-slash-default/", Kind::Y, "browser/alternate-files/file-from-bare-slash-to-rel-slash-default/index.js", true, true),
    ("browser/alternate-files/hypothetical.js", "./file-from-bare-slash-to-rel-slash-default/index", Kind::Y, "browser/alternate-files/file-from-bare-slash-to-rel-slash-default/index.js", true, true),
    ("browser/alternate-files/hypothetical.js", "./file-from-bare-slash-to-rel-slash-default/index.js", Kind::Y, "browser/alternate-files/file-from-bare-slash-to-rel-slash-default/index.js", true, true),
    ("browser/alternate-files/hypothetical.js", "./file-from-rel-ext-to-bare-ext-default", Kind::Y, "browser/alternate-files/node_modules/file-from-rel-ext-to-bare-ext-browser.js", true, true),
    ("browser/alternate-files/hypothetical.js", "./file-from-rel-ext-to-bare-ext-default.js", Kind::Y, "browser/alternate-files/node_modules/file-from-rel-ext-to-bare-ext-browser.js", true, true),
    ("browser/alternate-files/hypothetical.js", "./file-from-rel-noext-to-bare-ext-default", Kind::Y, "browser/alternate-files/node_modules/file-from-rel-noext-to-bare-ext-browser.js", true, true),
    ("browser/alternate-files/hypothetical.js", "./file-from-rel-noext-to-bare-ext-default.js", Kind::Y, "browser/alternate-files/file-from-rel-noext-to-bare-ext-default.js", true, true),
    ("browser/alternate-files/hypothetical.js", "./file-from-rel-noext-to-bare-ext-default.json", Kind::Y, "browser/alternate-files/file-from-rel-noext-to-bare-ext-default.json", true, true),
    ("browser/alternate-files/hypothetical.js", "./file-from-rel-slash-to-bare-ext-default", Kind::Y, "browser/alternate-files/file-from-rel-slash-to-bare-ext-default.js", true, true),
    ("browser/alternate-files/hypothetical.js", "./file-from-rel-slash-to-bare-ext-default.js", Kind::Y, "browser/alternate-files/file-from-rel-slash-to-bare-ext-default.js", true, true),
    ("browser/alternate-files/hypothetical.js", "./file-from-rel-slash-to-bare-ext-default/", Kind::Y, "browser/alternate-files/file-from-rel-slash-to-bare-ext-default/index.js", true, true),
    ("browser/alternate-files/hypothetical.js", "./file-from-rel-slash-to-bare-ext-default/index", Kind::Y, "browser/alternate-files/file-from-rel-slash-to-bare-ext-default/index.js", true, true),
    ("browser/alternate-files/hypothetical.js", "./file-from-rel-slash-to-bare-ext-default/index.js", Kind::Y, "browser/alternate-files/file-from-rel-slash-to-bare-ext-default/index.js", true, true),
    ("browser/alternate-files/hypothetical.js", "./file-from-rel-ext-to-bare-noext-default", Kind::Y, "browser/alternate-files/node_modules/file-from-rel-ext-to-bare-noext-browser.js", true, true),
    ("browser/alternate-files/hypothetical.js", "./file-from-rel-ext-to-bare-noext-default.js", Kind::Y, "browser/alternate-files/node_modules/file-from-rel-ext-to-bare-noext-browser.js", true, true),
    ("browser/alternate-files/hypothetical.js", "./file-from-rel-ext-to-bare-noext-default.json", Kind::Y, "browser/alternate-files/file-from-rel-ext-to-bare-noext-default.json", true, true),
    ("browser/alternate-files/hypothetical.js", "./file-from-rel-noext-to-bare-noext-default", Kind::Y, "browser/alternate-files/node_modules/file-from-rel-noext-to-bare-noext-browser.js", true, true),
    ("browser/alternate-files/hypothetical.js", "./file-from-rel-noext-to-bare-noext-default.js", Kind::Y, "browser/alternate-files/file-from-rel-noext-to-bare-noext-default.js", true, true),
    ("browser/alternate-files/hypothetical.js", "./file-from-rel-noext-to-bare-noext-default.json", Kind::Y, "browser/alternate-files/file-from-rel-noext-to-bare-noext-default.json", true, true),
    ("browser/alternate-files/hypothetical.js", "./file-from-rel-slash-to-bare-noext-default", Kind::Y, "browser/alternate-files/file-from-rel-slash-to-bare-noext-default.js", true, true),
    ("browser/alternate-files/hypothetical.js", "./file-from-rel-slash-to-bare-noext-default.js", Kind::Y, "browser/alternate-files/file-from-rel-slash-to-bare-noext-default.js", true, true),
    ("browser/alternate-files/hypothetical.js", "./file-from-rel-slash-to-bare-noext-default.json", Kind::Y, "browser/alternate-files/file-from-rel-slash-to-bare-noext-default.json", true, true),
    ("browser/alternate-files/hypothetical.js", "./file-from-rel-slash-to-bare-noext-default/", Kind::Y, "browser/alternate-files/file-from-rel-slash-to-bare-noext-default/index.js", true, true),
    ("browser/alternate-files/hypothetical.js", "./file-from-rel-slash-to-bare-noext-default/index", Kind::Y, "browser/alternate-files/file-from-rel-slash-to-bare-noext-default/index.js", true, true),
    ("browser/alternate-files/hypothetical.js", "./file-from-rel-slash-to-bare-noext-default/index.js", Kind::Y, "browser/alternate-files/file-from-rel-slash-to-bare-noext-default/index.js", true, true),
    ("browser/alternate-files/hypothetical.js", "./file-from-rel-ext-to-bare-slash-default", Kind::Y, "browser/alternate-files/node_modules/file-from-rel-ext-to-bare-slash-browser.js", true, true),
    ("browser/alternate-files/hypothetical.js", "./file-from-rel-ext-to-bare-slash-default.js", Kind::Y, "browser/alternate-files/node_modules/file-from-rel-ext-to-bare-slash-browser.js", true, true),
    ("browser/alternate-files/hypothetical.js", "./file-from-rel-ext-to-bare-slash-default/", Kind::Y, "browser/alternate-files/file-from-rel-ext-to-bare-slash-default/index.js", true, true),
    ("browser/alternate-files/hypothetical.js", "./file-from-rel-ext-to-bare-slash-default/index", Kind::Y, "browser/alternate-files/file-from-rel-ext-to-bare-slash-default/index.js", true, true),
    ("browser/alternate-files/hypothetical.js", "./file-from-rel-ext-to-bare-slash-default/index.js", Kind::Y, "browser/alternate-files/file-from-rel-ext-to-bare-slash-default/index.js", true, true),
    ("browser/alternate-files/hypothetical.js", "./file-from-rel-noext-to-bare-slash-default", Kind::Y, "browser/alternate-files/node_modules/file-from-rel-noext-to-bare-slash-browser.js", true, true),
    ("browser/alternate-files/hypothetical.js", "./file-from-rel-noext-to-bare-slash-default.js", Kind::Y, "browser/alternate-files/file-from-rel-noext-to-bare-slash-default.js", true, true),
    ("browser/alternate-files/hypothetical.js", "./file-from-rel-noext-to-bare-slash-default.json", Kind::Y, "browser/alternate-files/file-from-rel-noext-to-bare-slash-default.json", true, true),
    ("browser/alternate-files/hypothetical.js", "./file-from-rel-noext-to-bare-slash-default/", Kind::Y, "browser/alternate-files/node_modules/file-from-rel-noext-to-bare-slash-browser.js", true, true),
    ("browser/alternate-files/hypothetical.js", "./file-from-rel-noext-to-bare-slash-default/index", Kind::Y, "browser/alternate-files/file-from-rel-noext-to-bare-slash-default/index.js", true, true),
    ("browser/alternate-files/hypothetical.js", "./file-from-rel-noext-to-bare-slash-default/index.js", Kind::Y, "browser/alternate-files/file-from-rel-noext-to-bare-slash-default/index.js", true, true),
    ("browser/alternate-files/hypothetical.js", "./file-from-rel-slash-to-bare-slash-default", Kind::Y, "browser/alternate-files/file-from-rel-slash-to-bare-slash-default.js", true, true),
    ("browser/alternate-files/hypothetical.js", "./file-from-rel-slash-to-bare-slash-default.js", Kind::Y, "browser/alternate-files/file-from-rel-slash-to-bare-slash-default.js", true, true),
    ("browser/alternate-files/hypothetical.js", "./file-from-rel-slash-to-bare-slash-default/", Kind::Y, "browser/alternate-files/file-from-rel-slash-to-bare-slash-default/index.js", true, true),
    ("browser/alternate-files/hypothetical.js", "./file-from-rel-slash-to-bare-slash-default/index", Kind::Y, "browser/alternate-files/file-from-rel-slash-to-bare-slash-default/index.js", true, true),
    ("browser/alternate-files/hypothetical.js", "./file-from-rel-slash-to-bare-slash-default/index.js", Kind::Y, "browser/alternate-files/file-from-rel-slash-to-bare-slash-default/index.js", true, true),
    ("browser/alternate-files/hypothetical.js", "./file-from-bare-ext-to-bare-ext-default", Kind::Y, "browser/alternate-files/node_modules/file-from-bare-ext-to-bare-ext-browser.js", true, true),
    ("browser/alternate-files/hypothetical.js", "./file-from-bare-ext-to-bare-ext-default.js", Kind::Y, "browser/alternate-files/node_modules/file-from-bare-ext-to-bare-ext-browser.js", true, true),
    ("browser/alternate-files/hypothetical.js", "./file-from-bare-noext-to-bare-ext-default", Kind::Y, "browser/alternate-files/node_modules/file-from-bare-noext-to-bare-ext-browser.js", true, true),
    ("browser/alternate-files/hypothetical.js", "./file-from-bare-noext-to-bare-ext-default.js", Kind::Y, "browser/alternate-files/file-from-bare-noext-to-bare-ext-default.js", true, true),
    ("browser/alternate-files/hypothetical.js", "./file-from-bare-noext-to-bare-ext-default.json", Kind::Y, "browser/alternate-files/file-from-bare-noext-to-bare-ext-default.json", true, true),
    ("browser/alternate-files/hypothetical.js", "./file-from-bare-slash-to-bare-ext-default", Kind::Y, "browser/alternate-files/file-from-bare-slash-to-bare-ext-default.js", true, true),
    ("browser/alternate-files/hypothetical.js", "./file-from-bare-slash-to-bare-ext-default.js", Kind::Y, "browser/alternate-files/file-from-bare-slash-to-bare-ext-default.js", true, true),
    ("browser/alternate-files/hypothetical.js", "./file-from-bare-slash-to-bare-ext-default/", Kind::Y, "browser/alternate-files/file-from-bare-slash-to-bare-ext-default/index.js", true, true),
    ("browser/alternate-files/hypothetical.js", "./file-from-bare-slash-to-bare-ext-default/index", Kind::Y, "browser/alternate-files/file-from-bare-slash-to-bare-ext-default/index.js", true, true),
    ("browser/alternate-files/hypothetical.js", "./file-from-bare-slash-to-bare-ext-default/index.js", Kind::Y, "browser/alternate-files/file-from-bare-slash-to-bare-ext-default/index.js", true, true),
    ("browser/alternate-files/hypothetical.js", "./file-from-bare-ext-to-bare-noext-default", Kind::Y, "browser/alternate-files/node_modules/file-from-bare-ext-to-bare-noext-browser.js", true, true),
    ("browser/alternate-files/hypothetical.js", "./file-from-bare-ext-to-bare-noext-default.js", Kind::Y, "browser/alternate-files/node_modules/file-from-bare-ext-to-bare-noext-browser.js", true, true),
    ("browser/alternate-files/hypothetical.js", "./file-from-bare-ext-to-bare-noext-default.json", Kind::Y, "browser/alternate-files/file-from-bare-ext-to-bare-noext-default.json", true, true),
    ("browser/alternate-files/hypothetical.js", "./file-from-bare-noext-to-bare-noext-default", Kind::Y, "browser/alternate-files/node_modules/file-from-bare-noext-to-bare-noext-browser.js", true, true),
    ("browser/alternate-files/hypothetical.js", "./file-from-bare-noext-to-bare-noext-default.js", Kind::Y, "browser/alternate-files/file-from-bare-noext-to-bare-noext-default.js", true, true),
    ("browser/alternate-files/hypothetical.js", "./file-from-bare-noext-to-bare-noext-default.json", Kind::Y, "browser/alternate-files/file-from-bare-noext-to-bare-noext-default.json", true, true),
    ("browser/alternate-files/hypothetical.js", "./file-from-bare-slash-to-bare-noext-default", Kind::Y, "browser/alternate-files/file-from-bare-slash-to-bare-noext-default.js", true, true),
    ("browser/alternate-files/hypothetical.js", "./file-from-bare-slash-to-bare-noext-default.js", Kind::Y, "browser/alternate-files/file-from-bare-slash-to-bare-noext-default.js", true, true),
    ("browser/alternate-files/hypothetical.js", "./file-from-bare-slash-to-bare-noext-default.json", Kind::Y, "browser/alternate-files/file-from-bare-slash-to-bare-noext-default.json", true, true),
    ("browser/alternate-files/hypothetical.js", "./file-from-bare-slash-to-bare-noext-default/", Kind::Y, "browser/alternate-files/file-from-bare-slash-to-bare-noext-default/index.js", true, true),
    ("browser/alternate-files/hypothetical.js", "./file-from-bare-slash-to-bare-noext-default/index", Kind::Y, "browser/alternate-files/file-from-bare-slash-to-bare-noext-default/index.js", true, true),
    ("browser/alternate-files/hypothetical.js", "./file-from-bare-slash-to-bare-noext-default/index.js", Kind::Y, "browser/alternate-files/file-from-bare-slash-to-bare-noext-default/index.js", true, true),
    ("browser/alternate-files/hypothetical.js", "./file-from-bare-ext-to-bare-slash-default", Kind::Y, "browser/alternate-files/node_modules/file-from-bare-ext-to-bare-slash-browser.js", true, true),
    ("browser/alternate-files/hypothetical.js", "./file-from-bare-ext-to-bare-slash-default.js", Kind::Y, "browser/alternate-files/node_modules/file-from-bare-ext-to-bare-slash-browser.js", true, true),
    ("browser/alternate-files/hypothetical.js", "./file-from-bare-ext-to-bare-slash-default/", Kind::Y, "browser/alternate-files/file-from-bare-ext-to-bare-slash-default/index.js", true, true),
    ("browser/alternate-files/hypothetical.js", "./file-from-bare-ext-to-bare-slash-default/index", Kind::Y, "browser/alternate-files/file-from-bare-ext-to-bare-slash-default/index.js", true, true),
    ("browser/alternate-files/hypothetical.js", "./file-from-bare-ext-to-bare-slash-default/index.js", Kind::Y, "browser/alternate-files/file-from-bare-ext-to-bare-slash-default/index.js", true, true),
    ("browser/alternate-files/hypothetical.js", "./file-from-bare-noext-to-bare-slash-default", Kind::Y, "browser/alternate-files/node_modules/file-from-bare-noext-to-bare-slash-browser.js", true, true),
    ("browser/alternate-files/hypothetical.js", "./file-from-bare-noext-to-bare-slash-default.js", Kind::Y, "browser/alternate-files/file-from-bare-noext-to-bare-slash-default.js", true, true),
    ("browser/alternate-files/hypothetical.js", "./file-from-bare-noext-to-bare-slash-default.json", Kind::Y, "browser/alternate-files/file-from-bare-noext-to-bare-slash-default.json", true, true),
    ("browser/alternate-files/hypothetical.js", "./file-from-bare-noext-to-bare-slash-default/", Kind::Y, "browser/alternate-files/node_modules/file-from-bare-noext-to-bare-slash-browser.js", true, true),
    ("browser/alternate-files/hypothetical.js", "./file-from-bare-noext-to-bare-slash-default/index", Kind::Y, "browser/alternate-files/file-from-bare-noext-to-bare-slash-default/index.js", true, true),
    ("browser/alternate-files/hypothetical.js", "./file-from-bare-noext-to-bare-slash-default/index.js", Kind::Y, "browser/alternate-files/file-from-bare-noext-to-bare-slash-default/index.js", true, true),
    ("browser/alternate-files/hypothetical.js", "./file-from-bare-slash-to-bare-slash-default", Kind::Y, "browser/alternate-files/file-from-bare-slash-to-bare-slash-default.js", true, true),
    ("browser/alternate-files/hypothetical.js", "./file-from-bare-slash-to-bare-slash-default.js", Kind::Y, "browser/alternate-files/file-from-bare-slash-to-bare-slash-default.js", true, true),
    ("browser/alternate-files/hypothetical.js", "./file-from-bare-slash-to-bare-slash-default/", Kind::Y, "browser/alternate-files/file-from-bare-slash-to-bare-slash-default/index.js", true, true),
    ("browser/alternate-files/hypothetical.js", "./file-from-bare-slash-to-bare-slash-default/index", Kind::Y, "browser/alternate-files/file-from-bare-slash-to-bare-slash-default/index.js", true, true),
    ("browser/alternate-files/hypothetical.js", "./file-from-bare-slash-to-bare-slash-default/index.js", Kind::Y, "browser/alternate-files/file-from-bare-slash-to-bare-slash-default/index.js", true, true),
    ("browser/hypothetical.js", "n-alternate-files/file-from-rel-ext-to-rel-ext-default", Kind::Y, "browser/node_modules/n-alternate-files/file-from-rel-ext-to-rel-ext-default.js", true, false),
    ("browser/hypothetical.js", "n-alternate-files/file-from-rel-ext-to-rel-ext-default.js", Kind::Y, "browser/node_modules/n-alternate-files/file-from-rel-ext-to-rel-ext-default.js", true, false),
    ("browser/hypothetical.js", "n-alternate-files/file-from-rel-noext-to-rel-ext-default", Kind::Y, "browser/node_modules/n-alternate-files/file-from-rel-noext-to-rel-ext-default.js", true, false),
    ("browser/hypothetical.js", "n-alternate-files/file-from-rel-noext-to-rel-ext-default.js", Kind::Y, "browser/node_modules/n-alternate-files/file-from-rel-noext-to-rel-ext-default.js", true, false),
    ("browser/hypothetical.js", "n-alternate-files/file-from-rel-noext-to-rel-ext-default.json", Kind::Y, "browser/node_modules/n-alternate-files/file-from-rel-noext-to-rel-ext-default.json", true, false),
    ("browser/hypothetical.js", "n-alternate-files/file-from-rel-slash-to-rel-ext-default", Kind::Y, "browser/node_modules/n-alternate-files/file-from-rel-slash-to-rel-ext-default.js", true, false),
    ("browser/hypothetical.js", "n-alternate-files/file-from-rel-slash-to-rel-ext-default.js", Kind::Y, "browser/node_modules/n-alternate-files/file-from-rel-slash-to-rel-ext-default.js", true, false),
    ("browser/hypothetical.js", "n-alternate-files/file-from-rel-slash-to-rel-ext-default/", Kind::Y, "browser/node_modules/n-alternate-files/file-from-rel-slash-to-rel-ext-default/index.js", true, false),
    ("browser/hypothetical.js", "n-alternate-files/file-from-rel-slash-to-rel-ext-default/index", Kind::Y, "browser/node_modules/n-alternate-files/file-from-rel-slash-to-rel-ext-default/index.js", true, false),
    ("browser/hypothetical.js", "n-alternate-files/file-from-rel-slash-to-rel-ext-default/index.js", Kind::Y, "browser/node_modules/n-alternate-files/file-from-rel-slash-to-rel-ext-default/index.js", true, false),
    ("browser/hypothetical.js", "n-alternate-files/file-from-rel-ext-to-rel-noext-default", Kind::Y, "browser/node_modules/n-alternate-files/file-from-rel-ext-to-rel-noext-default.js", true, false),
    ("browser/hypothetical.js", "n-alternate-files/file-from-rel-ext-to-rel-noext-default.js", Kind::Y, "browser/node_modules/n-alternate-files/file-from-rel-ext-to-rel-noext-default.js", true, false),
    ("browser/hypothetical.js", "n-alternate-files/file-from-rel-ext-to-rel-noext-default.json", Kind::Y, "browser/node_modules/n-alternate-files/file-from-rel-ext-to-rel-noext-default.json", true, false),
    ("browser/hypothetical.js", "n-alternate-files/file-from-rel-noext-to-rel-noext-default", Kind::Y, "browser/node_modules/n-alternate-files/file-from-rel-noext-to-rel-noext-default.js", true, false),
    ("browser/hypothetical.js", "n-alternate-files/file-from-rel-noext-to-rel-noext-default.js", Kind::Y, "browser/node_modules/n-alternate-files/file-from-rel-noext-to-rel-noext-default.js", true, false),
    ("browser/hypothetical.js", "n-alternate-files/file-from-rel-noext-to-rel-noext-default.json", Kind::Y, "browser/node_modules/n-alternate-files/file-from-rel-noext-to-rel-noext-default.json", true, false),
    ("browser/hypothetical.js", "n-alternate-files/file-from-rel-slash-to-rel-noext-default", Kind::Y, "browser/node_modules/n-alternate-files/file-from-rel-slash-to-rel-noext-default.js", true, false),
    ("browser/hypothetical.js", "n-alternate-files/file-from-rel-slash-to-rel-noext-default.js", Kind::Y, "browser/node_modules/n-alternate-files/file-from-rel-slash-to-rel-noext-default.js", true, false),
    ("browser/hypothetical.js", "n-alternate-files/file-from-rel-slash-to-rel-noext-default.json", Kind::Y, "browser/node_modules/n-alternate-files/file-from-rel-slash-to-rel-noext-default.json", true, false),
    ("browser/hypothetical.js", "n-alternate-files/file-from-rel-slash-to-rel-noext-default/", Kind::Y, "browser/node_modules/n-alternate-files/file-from-rel-slash-to-rel-noext-default/index.js", true, false),
    ("browser/hypothetical.js", "n-alternate-files/file-from-rel-slash-to-rel-noext-default/index", Kind::Y, "browser/node_modules/n-alternate-files/file-from-rel-slash-to-rel-noext-default/index.js", true, false),
    ("browser/hypothetical.js", "n-alternate-files/file-from-rel-slash-to-rel-noext-default/index.js", Kind::Y, "browser/node_modules/n-alternate-files/file-from-rel-slash-to-rel-noext-default/index.js", true, false),
    ("browser/hypothetical.js", "n-alternate-files/file-from-rel-ext-to-rel-slash-default", Kind::Y, "browser/node_modules/n-alternate-files/file-from-rel-ext-to-rel-slash-default.js", true, false),
    ("browser/hypothetical.js", "n-alternate-files/file-from-rel-ext-to-rel-slash-default.js", Kind::Y, "browser/node_modules/n-alternate-files/file-from-rel-ext-to-rel-slash-default.js", true, false),
    ("browser/hypothetical.js", "n-alternate-files/file-from-rel-ext-to-rel-slash-default/", Kind::Y, "browser/node_modules/n-alternate-files/file-from-rel-ext-to-rel-slash-default/index.js", true, false),
    ("browser/hypothetical.js", "n-alternate-files/file-from-rel-ext-to-rel-slash-default/index", Kind::Y, "browser/node_modules/n-alternate-files/file-from-rel-ext-to-rel-slash-default/index.js", true, false),
    ("browser/hypothetical.js", "n-alternate-files/file-from-rel-ext-to-rel-slash-default/index.js", Kind::Y, "browser/node_modules/n-alternate-files/file-from-rel-ext-to-rel-slash-default/index.js", true, false),
    ("browser/hypothetical.js", "n-alternate-files/file-from-rel-noext-to-rel-slash-default", Kind::Y, "browser/node_modules/n-alternate-files/file-from-rel-noext-to-rel-slash-default.js", true, false),
    ("browser/hypothetical.js", "n-alternate-files/file-from-rel-noext-to-rel-slash-default.js", Kind::Y, "browser/node_modules/n-alternate-files/file-from-rel-noext-to-rel-slash-default.js", true, false),
    ("browser/hypothetical.js", "n-alternate-files/file-from-rel-noext-to-rel-slash-default.json", Kind::Y, "browser/node_modules/n-alternate-files/file-from-rel-noext-to-rel-slash-default.json", true, false),
    ("browser/hypothetical.js", "n-alternate-files/file-from-rel-noext-to-rel-slash-default/", Kind::Y, "browser/node_modules/n-alternate-files/file-from-rel-noext-to-rel-slash-default/index.js", true, false),
    ("browser/hypothetical.js", "n-alternate-files/file-from-rel-noext-to-rel-slash-default/index", Kind::Y, "browser/node_modules/n-alternate-files/file-from-rel-noext-to-rel-slash-default/index.js", true, false),
    ("browser/hypothetical.js", "n-alternate-files/file-from-rel-noext-to-rel-slash-default/index.js", Kind::Y, "browser/node_modules/n-alternate-files/file-from-rel-noext-to-rel-slash-default/index.js", true, false),
    ("browser/hypothetical.js", "n-alternate-files/file-from-rel-slash-to-rel-slash-default", Kind::Y, "browser/node_modules/n-alternate-files/file-from-rel-slash-to-rel-slash-default.js", true, false),
    ("browser/hypothetical.js", "n-alternate-files/file-from-rel-slash-to-rel-slash-default.js", Kind::Y, "browser/node_modules/n-alternate-files/file-from-rel-slash-to-rel-slash-default.js", true, false),
    ("browser/hypothetical.js", "n-alternate-files/file-from-rel-slash-to-rel-slash-default/", Kind::Y, "browser/node_modules/n-alternate-files/file-from-rel-slash-to-rel-slash-default/index.js", true, false),
    ("browser/hypothetical.js", "n-alternate-files/file-from-rel-slash-to-rel-slash-default/index", Kind::Y, "browser/node_modules/n-alternate-files/file-from-rel-slash-to-rel-slash-default/index.js", true, false),
    ("browser/hypothetical.js", "n-alternate-files/file-from-rel-slash-to-rel-slash-default/index.js", Kind::Y, "browser/node_modules/n-alternate-files/file-from-rel-slash-to-rel-slash-default/index.js", true, false),
    ("browser/hypothetical.js", "n-alternate-files/file-from-bare-ext-to-rel-ext-default", Kind::Y, "browser/node_modules/n-alternate-files/file-from-bare-ext-to-rel-ext-default.js", true, false),
    ("browser/hypothetical.js", "n-alternate-files/file-from-bare-ext-to-rel-ext-default.js", Kind::Y, "browser/node_modules/n-alternate-files/file-from-bare-ext-to-rel-ext-default.js", true, false),
    ("browser/hypothetical.js", "n-alternate-files/file-from-bare-noext-to-rel-ext-default", Kind::Y, "browser/node_modules/n-alternate-files/file-from-bare-noext-to-rel-ext-default.js", true, false),
    ("browser/hypothetical.js", "n-alternate-files/file-from-bare-noext-to-rel-ext-default.js", Kind::Y, "browser/node_modules/n-alternate-files/file-from-bare-noext-to-rel-ext-default.js", true, false),
    ("browser/hypothetical.js", "n-alternate-files/file-from-bare-noext-to-rel-ext-default.json", Kind::Y, "browser/node_modules/n-alternate-files/file-from-bare-noext-to-rel-ext-default.json", true, false),
    ("browser/hypothetical.js", "n-alternate-files/file-from-bare-slash-to-rel-ext-default", Kind::Y, "browser/node_modules/n-alternate-files/file-from-bare-slash-to-rel-ext-default.js", true, false),
    ("browser/hypothetical.js", "n-alternate-files/file-from-bare-slash-to-rel-ext-default.js", Kind::Y, "browser/node_modules/n-alternate-files/file-from-bare-slash-to-rel-ext-default.js", true, false),
    ("browser/hypothetical.js", "n-alternate-files/file-from-bare-slash-to-rel-ext-default/", Kind::Y, "browser/node_modules/n-alternate-files/file-from-bare-slash-to-rel-ext-default/index.js", true, false),
    ("browser/hypothetical.js", "n-alternate-files/file-from-bare-slash-to-rel-ext-default/index", Kind::Y, "browser/node_modules/n-alternate-files/file-from-bare-slash-to-rel-ext-default/index.js", true, false),
    ("browser/hypothetical.js", "n-alternate-files/file-from-bare-slash-to-rel-ext-default/index.js", Kind::Y, "browser/node_modules/n-alternate-files/file-from-bare-slash-to-rel-ext-default/index.js", true, false),
    ("browser/hypothetical.js", "n-alternate-files/file-from-bare-ext-to-rel-noext-default", Kind::Y, "browser/node_modules/n-alternate-files/file-from-bare-ext-to-rel-noext-default.js", true, false),
    ("browser/hypothetical.js", "n-alternate-files/file-from-bare-ext-to-rel-noext-default.js", Kind::Y, "browser/node_modules/n-alternate-files/file-from-bare-ext-to-rel-noext-default.js", true, false),
    ("browser/hypothetical.js", "n-alternate-files/file-from-bare-ext-to-rel-noext-default.json", Kind::Y, "browser/node_modules/n-alternate-files/file-from-bare-ext-to-rel-noext-default.json", true, false),
    ("browser/hypothetical.js", "n-alternate-files/file-from-bare-noext-to-rel-noext-default", Kind::Y, "browser/node_modules/n-alternate-files/file-from-bare-noext-to-rel-noext-default.js", true, false),
    ("browser/hypothetical.js", "n-alternate-files/file-from-bare-noext-to-rel-noext-default.js", Kind::Y, "browser/node_modules/n-alternate-files/file-from-bare-noext-to-rel-noext-default.js", true, false),
    ("browser/hypothetical.js", "n-alternate-files/file-from-bare-noext-to-rel-noext-default.json", Kind::Y, "browser/node_modules/n-alternate-files/file-from-bare-noext-to-rel-noext-default.json", true, false),
    ("browser/hypothetical.js", "n-alternate-files/file-from-bare-slash-to-rel-noext-default", Kind::Y, "browser/node_modules/n-alternate-files/file-from-bare-slash-to-rel-noext-default.js", true, false),
    ("browser/hypothetical.js", "n-alternate-files/file-from-bare-slash-to-rel-noext-default.js", Kind::Y, "browser/node_modules/n-alternate-files/file-from-bare-slash-to-rel-noext-default.js", true, false),
    ("browser/hypothetical.js", "n-alternate-files/file-from-bare-slash-to-rel-noext-default.json", Kind::Y, "browser/node_modules/n-alternate-files/file-from-bare-slash-to-rel-noext-default.json", true, false),
    ("browser/hypothetical.js", "n-alternate-files/file-from-bare-slash-to-rel-noext-default/", Kind::Y, "browser/node_modules/n-alternate-files/file-from-bare-slash-to-rel-noext-default/index.js", true, false),
    ("browser/hypothetical.js", "n-alternate-files/file-from-bare-slash-to-rel-noext-default/index", Kind::Y, "browser/node_modules/n-alternate-files/file-from-bare-slash-to-rel-noext-default/index.js", true, false),
    ("browser/hypothetical.js", "n-alternate-files/file-from-bare-slash-to-rel-noext-default/index.js", Kind::Y, "browser/node_modules/n-alternate-files/file-from-bare-slash-to-rel-noext-default/index.js", true, false),
    ("browser/hypothetical.js", "n-alternate-files/file-from-bare-ext-to-rel-slash-default", Kind::Y, "browser/node_modules/n-alternate-files/file-from-bare-ext-to-rel-slash-default.js", true, false),
    ("browser/hypothetical.js", "n-alternate-files/file-from-bare-ext-to-rel-slash-default.js", Kind::Y, "browser/node_modules/n-alternate-files/file-from-bare-ext-to-rel-slash-default.js", true, false),
    ("browser/hypothetical.js", "n-alternate-files/file-from-bare-ext-to-rel-slash-default/", Kind::Y, "browser/node_modules/n-alternate-files/file-from-bare-ext-to-rel-slash-default/index.js", true, false),
    ("browser/hypothetical.js", "n-alternate-files/file-from-bare-ext-to-rel-slash-default/index", Kind::Y, "browser/node_modules/n-alternate-files/file-from-bare-ext-to-rel-slash-default/index.js", true, false),
    ("browser/hypothetical.js", "n-alternate-files/file-from-bare-ext-to-rel-slash-default/index.js", Kind::Y, "browser/node_modules/n-alternate-files/file-from-bare-ext-to-rel-slash-default/index.js", true, false),
    ("browser/hypothetical.js", "n-alternate-files/file-from-bare-noext-to-rel-slash-default", Kind::Y, "browser/node_modules/n-alternate-files/file-from-bare-noext-to-rel-slash-default.js", true, false),
    ("browser/hypothetical.js", "n-alternate-files/file-from-bare-noext-to-rel-slash-default.js", Kind::Y, "browser/node_modules/n-alternate-files/file-from-bare-noext-to-rel-slash-default.js", true, false),
    ("browser/hypothetical.js", "n-alternate-files/file-from-bare-noext-to-rel-slash-default.json", Kind::Y, "browser/node_modules/n-alternate-files/file-from-bare-noext-to-rel-slash-default.json", true, false),
    ("browser/hypothetical.js", "n-alternate-files/file-from-bare-noext-to-rel-slash-default/", Kind::Y, "browser/node_modules/n-alternate-files/file-from-bare-noext-to-rel-slash-default/index.js", true, false),
    ("browser/hypothetical.js", "n-alternate-files/file-from-bare-noext-to-rel-slash-default/index", Kind::Y, "browser/node_modules/n-alternate-files/file-from-bare-noext-to-rel-slash-default/index.js", true, false),
    ("browser/hypothetical.js", "n-alternate-files/file-from-bare-noext-to-rel-slash-default/index.js", Kind::Y, "browser/node_modules/n-alternate-files/file-from-bare-noext-to-rel-slash-default/index.js", true, false),
    ("browser/hypothetical.js", "n-alternate-files/file-from-bare-slash-to-rel-slash-default", Kind::Y, "browser/node_modules/n-alternate-files/file-from-bare-slash-to-rel-slash-default.js", true, false),
    ("browser/hypothetical.js", "n-alternate-files/file-from-bare-slash-to-rel-slash-default.js", Kind::Y, "browser/node_modules/n-alternate-files/file-from-bare-slash-to-rel-slash-default.js", true, false),
    ("browser/hypothetical.js", "n-alternate-files/file-from-bare-slash-to-rel-slash-default/", Kind::Y, "browser/node_modules/n-alternate-files/file-from-bare-slash-to-rel-slash-default/index.js", true, false),
    ("browser/hypothetical.js", "n-alternate-files/file-from-bare-slash-to-rel-slash-default/index", Kind::Y, "browser/node_modules/n-alternate-files/file-from-bare-slash-to-rel-slash-default/index.js", true, false),
    ("browser/hypothetical.js", "n-alternate-files/file-from-bare-slash-to-rel-slash-default/index.js", Kind::Y, "browser/node_modules/n-alternate-files/file-from-bare-slash-to-rel-slash-default/index.js", true, false),
    ("browser/hypothetical.js", "n-alternate-files/file-from-rel-ext-to-bare-ext-default", Kind::Y, "browser/node_modules/n-alternate-files/file-from-rel-ext-to-bare-ext-default.js", true, false),
    ("browser/hypothetical.js", "n-alternate-files/file-from-rel-ext-to-bare-ext-default.js", Kind::Y, "browser/node_modules/n-alternate-files/file-from-rel-ext-to-bare-ext-default.js", true, false),
    ("browser/hypothetical.js", "n-alternate-files/file-from-rel-noext-to-bare-ext-default", Kind::Y, "browser/node_modules/n-alternate-files/file-from-rel-noext-to-bare-ext-default.js", true, false),
    ("browser/hypothetical.js", "n-alternate-files/file-from-rel-noext-to-bare-ext-default.js", Kind::Y, "browser/node_modules/n-alternate-files/file-from-rel-noext-to-bare-ext-default.js", true, false),
    ("browser/hypothetical.js", "n-alternate-files/file-from-rel-noext-to-bare-ext-default.json", Kind::Y, "browser/node_modules/n-alternate-files/file-from-rel-noext-to-bare-ext-default.json", true, false),
    ("browser/hypothetical.js", "n-alternate-files/file-from-rel-slash-to-bare-ext-default", Kind::Y, "browser/node_modules/n-alternate-files/file-from-rel-slash-to-bare-ext-default.js", true, false),
    ("browser/hypothetical.js", "n-alternate-files/file-from-rel-slash-to-bare-ext-default.js", Kind::Y, "browser/node_modules/n-alternate-files/file-from-rel-slash-to-bare-ext-default.js", true, false),
    ("browser/hypothetical.js", "n-alternate-files/file-from-rel-slash-to-bare-ext-default/", Kind::Y, "browser/node_modules/n-alternate-files/file-from-rel-slash-to-bare-ext-default/index.js", true, false),
    ("browser/hypothetical.js", "n-alternate-files/file-from-rel-slash-to-bare-ext-default/index", Kind::Y, "browser/node_modules/n-alternate-files/file-from-rel-slash-to-bare-ext-default/index.js", true, false),
    ("browser/hypothetical.js", "n-alternate-files/file-from-rel-slash-to-bare-ext-default/index.js", Kind::Y, "browser/node_modules/n-alternate-files/file-from-rel-slash-to-bare-ext-default/index.js", true, false),
    ("browser/hypothetical.js", "n-alternate-files/file-from-rel-ext-to-bare-noext-default", Kind::Y, "browser/node_modules/n-alternate-files/file-from-rel-ext-to-bare-noext-default.js", true, false),
    ("browser/hypothetical.js", "n-alternate-files/file-from-rel-ext-to-bare-noext-default.js", Kind::Y, "browser/node_modules/n-alternate-files/file-from-rel-ext-to-bare-noext-default.js", true, false),
    ("browser/hypothetical.js", "n-alternate-files/file-from-rel-ext-to-bare-noext-default.json", Kind::Y, "browser/node_modules/n-alternate-files/file-from-rel-ext-to-bare-noext-default.json", true, false),
    ("browser/hypothetical.js", "n-alternate-files/file-from-rel-noext-to-bare-noext-default", Kind::Y, "browser/node_modules/n-alternate-files/file-from-rel-noext-to-bare-noext-default.js", true, false),
    ("browser/hypothetical.js", "n-alternate-files/file-from-rel-noext-to-bare-noext-default.js", Kind::Y, "browser/node_modules/n-alternate-files/file-from-rel-noext-to-bare-noext-default.js", true, false),
    ("browser/hypothetical.js", "n-alternate-files/file-from-rel-noext-to-bare-noext-default.json", Kind::Y, "browser/node_modules/n-alternate-files/file-from-rel-noext-to-bare-noext-default.json", true, false),
    ("browser/hypothetical.js", "n-alternate-files/file-from-rel-slash-to-bare-noext-default", Kind::Y, "browser/node_modules/n-alternate-files/file-from-rel-slash-to-bare-noext-default.js", true, false),
    ("browser/hypothetical.js", "n-alternate-files/file-from-rel-slash-to-bare-noext-default.js", Kind::Y, "browser/node_modules/n-alternate-files/file-from-rel-slash-to-bare-noext-default.js", true, false),
    ("browser/hypothetical.js", "n-alternate-files/file-from-rel-slash-to-bare-noext-default.json", Kind::Y, "browser/node_modules/n-alternate-files/file-from-rel-slash-to-bare-noext-default.json", true, false),
    ("browser/hypothetical.js", "n-alternate-files/file-from-rel-slash-to-bare-noext-default/", Kind::Y, "browser/node_modules/n-alternate-files/file-from-rel-slash-to-bare-noext-default/index.js", true, false),
    ("browser/hypothetical.js", "n-alternate-files/file-from-rel-slash-to-bare-noext-default/index", Kind::Y, "browser/node_modules/n-alternate-files/file-from-rel-slash-to-bare-noext-default/index.js", true, false),
    ("browser/hypothetical.js", "n-alternate-files/file-from-rel-slash-to-bare-noext-default/index.js", Kind::Y, "browser/node_modules/n-alternate-files/file-from-rel-slash-to-bare-noext-default/index.js", true, false),
    ("browser/hypothetical.js", "n-alternate-files/file-from-rel-ext-to-bare-slash-default", Kind::Y, "browser/node_modules/n-alternate-files/file-from-rel-ext-to-bare-slash-default.js", true, false),
    ("browser/hypothetical.js", "n-alternate-files/file-from-rel-ext-to-bare-slash-default.js", Kind::Y, "browser/node_modules/n-alternate-files/file-from-rel-ext-to-bare-slash-default.js", true, false),
    ("browser/hypothetical.js", "n-alternate-files/file-from-rel-ext-to-bare-slash-default/", Kind::Y, "browser/node_modules/n-alternate-files/file-from-rel-ext-to-bare-slash-default/index.js", true, false),
    ("browser/hypothetical.js", "n-alternate-files/file-from-rel-ext-to-bare-slash-default/index", Kind::Y, "browser/node_modules/n-alternate-files/file-from-rel-ext-to-bare-slash-default/index.js", true, false),
    ("browser/hypothetical.js", "n-alternate-files/file-from-rel-ext-to-bare-slash-default/index.js", Kind::Y, "browser/node_modules/n-alternate-files/file-from-rel-ext-to-bare-slash-default/index.js", true, false),
    ("browser/hypothetical.js", "n-alternate-files/file-from-rel-noext-to-bare-slash-default", Kind::Y, "browser/node_modules/n-alternate-files/file-from-rel-noext-to-bare-slash-default.js", true, false),
    ("browser/hypothetical.js", "n-alternate-files/file-from-rel-noext-to-bare-slash-default.js", Kind::Y, "browser/node_modules/n-alternate-files/file-from-rel-noext-to-bare-slash-default.js", true, false),
    ("browser/hypothetical.js", "n-alternate-files/file-from-rel-noext-to-bare-slash-default.json", Kind::Y, "browser/node_modules/n-alternate-files/file-from-rel-noext-to-bare-slash-default.json", true, false),
    ("browser/hypothetical.js", "n-alternate-files/file-from-rel-noext-to-bare-slash-default/", Kind::Y, "browser/node_modules/n-alternate-files/file-from-rel-noext-to-bare-slash-default/index.js", true, false),
    ("browser/hypothetical.js", "n-alternate-files/file-from-rel-noext-to-bare-slash-default/index", Kind::Y, "browser/node_modules/n-alternate-files/file-from-rel-noext-to-bare-slash-default/index.js", true, false),
    ("browser/hypothetical.js", "n-alternate-files/file-from-rel-noext-to-bare-slash-default/index.js", Kind::Y, "browser/node_modules/n-alternate-files/file-from-rel-noext-to-bare-slash-default/index.js", true, false),
    ("browser/hypothetical.js", "n-alternate-files/file-from-rel-slash-to-bare-slash-default", Kind::Y, "browser/node_modules/n-alternate-files/file-from-rel-slash-to-bare-slash-default.js", true, false),
    ("browser/hypothetical.js", "n-alternate-files/file-from-rel-slash-to-bare-slash-default.js", Kind::Y, "browser/node_modules/n-alternate-files/file-from-rel-slash-to-bare-slash-default.js", true, false),
    ("browser/hypothetical.js", "n-alternate-files/file-from-rel-slash-to-bare-slash-default/", Kind::Y, "browser/node_modules/n-alternate-files/file-from-rel-slash-to-bare-slash-default/index.js", true, false),
    ("browser/hypothetical.js", "n-alternate-files/file-from-rel-slash-to-bare-slash-default/index", Kind::Y, "browser/node_modules/n-alternate-files/file-from-rel-slash-to-bare-slash-default/index.js", true, false),
    ("browser/hypothetical.js", "n-alternate-files/file-from-rel-slash-to-bare-slash-default/index.js", Kind::Y, "browser/node_modules/n-alternate-files/file-from-rel-slash-to-bare-slash-default/index.js", true, false),
    ("browser/hypothetical.js", "n-alternate-files/file-from-bare-ext-to-bare-ext-default", Kind::Y, "browser/node_modules/n-alternate-files/file-from-bare-ext-to-bare-ext-default.js", true, false),
    ("browser/hypothetical.js", "n-alternate-files/file-from-bare-ext-to-bare-ext-default.js", Kind::Y, "browser/node_modules/n-alternate-files/file-from-bare-ext-to-bare-ext-default.js", true, false),
    ("browser/hypothetical.js", "n-alternate-files/file-from-bare-noext-to-bare-ext-default", Kind::Y, "browser/node_modules/n-alternate-files/file-from-bare-noext-to-bare-ext-default.js", true, false),
    ("browser/hypothetical.js", "n-alternate-files/file-from-bare-noext-to-bare-ext-default.js", Kind::Y, "browser/node_modules/n-alternate-files/file-from-bare-noext-to-bare-ext-default.js", true, false),
    ("browser/hypothetical.js", "n-alternate-files/file-from-bare-noext-to-bare-ext-default.json", Kind::Y, "browser/node_modules/n-alternate-files/file-from-bare-noext-to-bare-ext-default.json", true, false),
    ("browser/hypothetical.js", "n-alternate-files/file-from-bare-slash-to-bare-ext-default", Kind::Y, "browser/node_modules/n-alternate-files/file-from-bare-slash-to-bare-ext-default.js", true, false),
    ("browser/hypothetical.js", "n-alternate-files/file-from-bare-slash-to-bare-ext-default.js", Kind::Y, "browser/node_modules/n-alternate-files/file-from-bare-slash-to-bare-ext-default.js", true, false),
    ("browser/hypothetical.js", "n-alternate-files/file-from-bare-slash-to-bare-ext-default/", Kind::Y, "browser/node_modules/n-alternate-files/file-from-bare-slash-to-bare-ext-default/index.js", true, false),
    ("browser/hypothetical.js", "n-alternate-files/file-from-bare-slash-to-bare-ext-default/index", Kind::Y, "browser/node_modules/n-alternate-files/file-from-bare-slash-to-bare-ext-default/index.js", true, false),
    ("browser/hypothetical.js", "n-alternate-files/file-from-bare-slash-to-bare-ext-default/index.js", Kind::Y, "browser/node_modules/n-alternate-files/file-from-bare-slash-to-bare-ext-default/index.js", true, false),
    ("browser/hypothetical.js", "n-alternate-files/file-from-bare-ext-to-bare-noext-default", Kind::Y, "browser/node_modules/n-alternate-files/file-from-bare-ext-to-bare-noext-default.js", true, false),
    ("browser/hypothetical.js", "n-alternate-files/file-from-bare-ext-to-bare-noext-default.js", Kind::Y, "browser/node_modules/n-alternate-files/file-from-bare-ext-to-bare-noext-default.js", true, false),
    ("browser/hypothetical.js", "n-alternate-files/file-from-bare-ext-to-bare-noext-default.json", Kind::Y, "browser/node_modules/n-alternate-files/file-from-bare-ext-to-bare-noext-default.json", true, false),
    ("browser/hypothetical.js", "n-alternate-files/file-from-bare-noext-to-bare-noext-default", Kind::Y, "browser/node_modules/n-alternate-files/file-from-bare-noext-to-bare-noext-default.js", true, false),
    ("browser/hypothetical.js", "n-alternate-files/file-from-bare-noext-to-bare-noext-default.js", Kind::Y, "browser/node_modules/n-alternate-files/file-from-bare-noext-to-bare-noext-default.js", true, false),
    ("browser/hypothetical.js", "n-alternate-files/file-from-bare-noext-to-bare-noext-default.json", Kind::Y, "browser/node_modules/n-alternate-files/file-from-bare-noext-to-bare-noext-default.json", true, false),
    ("browser/hypothetical.js", "n-alternate-files/file-from-bare-slash-to-bare-noext-default", Kind::Y, "browser/node_modules/n-alternate-files/file-from-bare-slash-to-bare-noext-default.js", true, false),
    ("browser/hypothetical.js", "n-alternate-files/file-from-bare-slash-to-bare-noext-default.js", Kind::Y, "browser/node_modules/n-alternate-files/file-from-bare-slash-to-bare-noext-default.js", true, false),
    ("browser/hypothetical.js", "n-alternate-files/file-from-bare-slash-to-bare-noext-default.json", Kind::Y, "browser/node_modules/n-alternate-files/file-from-bare-slash-to-bare-noext-default.json", true, false),
    ("browser/hypothetical.js", "n-alternate-files/file-from-bare-slash-to-bare-noext-default/", Kind::Y, "browser/node_modules/n-alternate-files/file-from-bare-slash-to-bare-noext-default/index.js", true, false),
    ("browser/hypothetical.js", "n-alternate-files/file-from-bare-slash-to-bare-noext-default/index", Kind::Y, "browser/node_modules/n-alternate-files/file-from-bare-slash-to-bare-noext-default/index.js", true, false),
    ("browser/hypothetical.js", "n-alternate-files/file-from-bare-slash-to-bare-noext-default/index.js", Kind::Y, "browser/node_modules/n-alternate-files/file-from-bare-slash-to-bare-noext-default/index.js", true, false),
    ("browser/hypothetical.js", "n-alternate-files/file-from-bare-ext-to-bare-slash-default", Kind::Y, "browser/node_modules/n-alternate-files/file-from-bare-ext-to-bare-slash-default.js", true, false),
    ("browser/hypothetical.js", "n-alternate-files/file-from-bare-ext-to-bare-slash-default.js", Kind::Y, "browser/node_modules/n-alternate-files/file-from-bare-ext-to-bare-slash-default.js", true, false),
    ("browser/hypothetical.js", "n-alternate-files/file-from-bare-ext-to-bare-slash-default/", Kind::Y, "browser/node_modules/n-alternate-files/file-from-bare-ext-to-bare-slash-default/index.js", true, false),
    ("browser/hypothetical.js", "n-alternate-files/file-from-bare-ext-to-bare-slash-default/index", Kind::Y, "browser/node_modules/n-alternate-files/file-from-bare-ext-to-bare-slash-default/index.js", true, false),
    ("browser/hypothetical.js", "n-alternate-files/file-from-bare-ext-to-bare-slash-default/index.js", Kind::Y, "browser/node_modules/n-alternate-files/file-from-bare-ext-to-bare-slash-default/index.js", true, false),
    ("browser/hypothetical.js", "n-alternate-files/file-from-bare-noext-to-bare-slash-default", Kind::Y, "browser/node_modules/n-alternate-files/file-from-bare-noext-to-bare-slash-default.js", true, false),
    ("browser/hypothetical.js", "n-alternate-files/file-from-bare-noext-to-bare-slash-default.js", Kind::Y, "browser/node_modules/n-alternate-files/file-from-bare-noext-to-bare-slash-default.js", true, false),
    ("browser/hypothetical.js", "n-alternate-files/file-from-bare-noext-to-bare-slash-default.json", Kind::Y, "browser/node_modules/n-alternate-files/file-from-bare-noext-to-bare-slash-default.json", true, false),
    ("browser/hypothetical.js", "n-alternate-files/file-from-bare-noext-to-bare-slash-default/", Kind::Y, "browser/node_modules/n-alternate-files/file-from-bare-noext-to-bare-slash-default/index.js", true, false),
    ("browser/hypothetical.js", "n-alternate-files/file-from-bare-noext-to-bare-slash-default/index", Kind::Y, "browser/node_modules/n-alternate-files/file-from-bare-noext-to-bare-slash-default/index.js", true, false),
    ("browser/hypothetical.js", "n-alternate-files/file-from-bare-noext-to-bare-slash-default/index.js", Kind::Y, "browser/node_modules/n-alternate-files/file-from-bare-noext-to-bare-slash-default/index.js", true, false),
    ("browser/hypothetical.js", "n-alternate-files/file-from-bare-slash-to-bare-slash-default", Kind::Y, "browser/node_modules/n-alternate-files/file-from-bare-slash-to-bare-slash-default.js", true, false),
    ("browser/hypothetical.js", "n-alternate-files/file-from-bare-slash-to-bare-slash-default.js", Kind::Y, "browser/node_modules/n-alternate-files/file-from-bare-slash-to-bare-slash-default.js", true, false),
    ("browser/hypothetical.js", "n-alternate-files/file-from-bare-slash-to-bare-slash-default/", Kind::Y, "browser/node_modules/n-alternate-files/file-from-bare-slash-to-bare-slash-default/index.js", true, false),
    ("browser/hypothetical.js", "n-alternate-files/file-from-bare-slash-to-bare-slash-default/index", Kind::Y, "browser/node_modules/n-alternate-files/file-from-bare-slash-to-bare-slash-default/index.js", true, false),
    ("browser/hypothetical.js", "n-alternate-files/file-from-bare-slash-to-bare-slash-default/index.js", Kind::Y, "browser/node_modules/n-alternate-files/file-from-bare-slash-to-bare-slash-default/index.js", true, false),
    ("browser/hypothetical.js", "n-alternate-files/file-from-rel-ext-to-rel-ext-default", Kind::Y, "browser/node_modules/n-alternate-files/file-from-rel-ext-to-rel-ext-browser.js", true, true),
    ("browser/hypothetical.js", "n-alternate-files/file-from-rel-ext-to-rel-ext-default.js", Kind::Y, "browser/node_modules/n-alternate-files/file-from-rel-ext-to-rel-ext-browser.js", true, true),
    ("browser/hypothetical.js", "n-alternate-files/file-from-rel-noext-to-rel-ext-default", Kind::Y, "browser/node_modules/n-alternate-files/file-from-rel-noext-to-rel-ext-browser.js", true, true),
    ("browser/hypothetical.js", "n-alternate-files/file-from-rel-noext-to-rel-ext-default.js", Kind::Y, "browser/node_modules/n-alternate-files/file-from-rel-noext-to-rel-ext-default.js", true, true),
    ("browser/hypothetical.js", "n-alternate-files/file-from-rel-noext-to-rel-ext-default.json", Kind::Y, "browser/node_modules/n-alternate-files/file-from-rel-noext-to-rel-ext-default.json", true, true),
    ("browser/hypothetical.js", "n-alternate-files/file-from-rel-slash-to-rel-ext-default", Kind::Y, "browser/node_modules/n-alternate-files/file-from-rel-slash-to-rel-ext-default.js", true, true),
    ("browser/hypothetical.js", "n-alternate-files/file-from-rel-slash-to-rel-ext-default.js", Kind::Y, "browser/node_modules/n-alternate-files/file-from-rel-slash-to-rel-ext-default.js", true, true),
    ("browser/hypothetical.js", "n-alternate-files/file-from-rel-slash-to-rel-ext-default/", Kind::Y, "browser/node_modules/n-alternate-files/file-from-rel-slash-to-rel-ext-default/index.js", true, true),
    ("browser/hypothetical.js", "n-alternate-files/file-from-rel-slash-to-rel-ext-default/index", Kind::Y, "browser/node_modules/n-alternate-files/file-from-rel-slash-to-rel-ext-default/index.js", true, true),
    ("browser/hypothetical.js", "n-alternate-files/file-from-rel-slash-to-rel-ext-default/index.js", Kind::Y, "browser/node_modules/n-alternate-files/file-from-rel-slash-to-rel-ext-default/index.js", true, true),
    ("browser/hypothetical.js", "n-alternate-files/file-from-rel-ext-to-rel-noext-default", Kind::Y, "browser/node_modules/n-alternate-files/file-from-rel-ext-to-rel-noext-browser.js", true, true),
    ("browser/hypothetical.js", "n-alternate-files/file-from-rel-ext-to-rel-noext-default.js", Kind::Y, "browser/node_modules/n-alternate-files/file-from-rel-ext-to-rel-noext-browser.js", true, true),
    ("browser/hypothetical.js", "n-alternate-files/file-from-rel-ext-to-rel-noext-default.json", Kind::Y, "browser/node_modules/n-alternate-files/file-from-rel-ext-to-rel-noext-default.json", true, true),
    ("browser/hypothetical.js", "n-alternate-files/file-from-rel-noext-to-rel-noext-default", Kind::Y, "browser/node_modules/n-alternate-files/file-from-rel-noext-to-rel-noext-browser.js", true, true),
    ("browser/hypothetical.js", "n-alternate-files/file-from-rel-noext-to-rel-noext-default.js", Kind::Y, "browser/node_modules/n-alternate-files/file-from-rel-noext-to-rel-noext-default.js", true, true),
    ("browser/hypothetical.js", "n-alternate-files/file-from-rel-noext-to-rel-noext-default.json", Kind::Y, "browser/node_modules/n-alternate-files/file-from-rel-noext-to-rel-noext-default.json", true, true),
    ("browser/hypothetical.js", "n-alternate-files/file-from-rel-slash-to-rel-noext-default", Kind::Y, "browser/node_modules/n-alternate-files/file-from-rel-slash-to-rel-noext-default.js", true, true),
    ("browser/hypothetical.js", "n-alternate-files/file-from-rel-slash-to-rel-noext-default.js", Kind::Y, "browser/node_modules/n-alternate-files/file-from-rel-slash-to-rel-noext-default.js", true, true),
    ("browser/hypothetical.js", "n-alternate-files/file-from-rel-slash-to-rel-noext-default.json", Kind::Y, "browser/node_modules/n-alternate-files/file-from-rel-slash-to-rel-noext-default.json", true, true),
    ("browser/hypothetical.js", "n-alternate-files/file-from-rel-slash-to-rel-noext-default/", Kind::Y, "browser/node_modules/n-alternate-files/file-from-rel-slash-to-rel-noext-default/index.js", true, true),
    ("browser/hypothetical.js", "n-alternate-files/file-from-rel-slash-to-rel-noext-default/index", Kind::Y, "browser/node_modules/n-alternate-files/file-from-rel-slash-to-rel-noext-default/index.js", true, true),
    ("browser/hypothetical.js", "n-alternate-files/file-from-rel-slash-to-rel-noext-default/index.js", Kind::Y, "browser/node_modules/n-alternate-files/file-from-rel-slash-to-rel-noext-default/index.js", true, true),
    ("browser/hypothetical.js", "n-alternate-files/file-from-rel-ext-to-rel-slash-default", Kind::Y, "browser/node_modules/n-alternate-files/file-from-rel-ext-to-rel-slash-browser/index.js", true, true),
    ("browser/hypothetical.js", "n-alternate-files/file-from-rel-ext-to-rel-slash-default.js", Kind::Y, "browser/node_modules/n-alternate-files/file-from-rel-ext-to-rel-slash-browser/index.js", true, true),
    ("browser/hypothetical.js", "n-alternate-files/file-from-rel-ext-to-rel-slash-default/", Kind::Y, "browser/node_modules/n-alternate-files/file-from-rel-ext-to-rel-slash-default/index.js", true, true),
    ("browser/hypothetical.js", "n-alternate-files/file-from-rel-ext-to-rel-slash-default/index", Kind::Y, "browser/node_modules/n-alternate-files/file-from-rel-ext-to-rel-slash-default/index.js", true, true),
    ("browser/hypothetical.js", "n-alternate-files/file-from-rel-ext-to-rel-slash-default/index.js", Kind::Y, "browser/node_modules/n-alternate-files/file-from-rel-ext-to-rel-slash-default/index.js", true, true),
    ("browser/hypothetical.js", "n-alternate-files/file-from-rel-noext-to-rel-slash-default", Kind::Y, "browser/node_modules/n-alternate-files/file-from-rel-noext-to-rel-slash-browser/index.js", true, true),
    ("browser/hypothetical.js", "n-alternate-files/file-from-rel-noext-to-rel-slash-default.js", Kind::Y, "browser/node_modules/n-alternate-files/file-from-rel-noext-to-rel-slash-default.js", true, true),
    ("browser/hypothetical.js", "n-alternate-files/file-from-rel-noext-to-rel-slash-default.json", Kind::Y, "browser/node_modules/n-alternate-files/file-from-rel-noext-to-rel-slash-default.json", true, true),
    ("browser/hypothetical.js", "n-alternate-files/file-from-rel-noext-to-rel-slash-default/", Kind::Y, "browser/node_modules/n-alternate-files/file-from-rel-noext-to-rel-slash-default/index.js", true, true),
    ("browser/hypothetical.js", "n-alternate-files/file-from-rel-noext-to-rel-slash-default/index", Kind::Y, "browser/node_modules/n-alternate-files/file-from-rel-noext-to-rel-slash-default/index.js", true, true),
    ("browser/hypothetical.js", "n-alternate-files/file-from-rel-noext-to-rel-slash-default/index.js", Kind::Y, "browser/node_modules/n-alternate-files/file-from-rel-noext-to-rel-slash-default/index.js", true, true),
    ("browser/hypothetical.js", "n-alternate-files/file-from-rel-slash-to-rel-slash-default", Kind::Y, "browser/node_modules/n-alternate-files/file-from-rel-slash-to-rel-slash-default.js", true, true),
    ("browser/hypothetical.js", "n-alternate-files/file-from-rel-slash-to-rel-slash-default.js", Kind::Y, "browser/node_modules/n-alternate-files/file-from-rel-slash-to-rel-slash-default.js", true, true),
    ("browser/hypothetical.js", "n-alternate-files/file-from-rel-slash-to-rel-slash-default/", Kind::Y, "browser/node_modules/n-alternate-files/file-from-rel-slash-to-rel-slash-default/index.js", true, true),
    ("browser/hypothetical.js", "n-alternate-files/file-from-rel-slash-to-rel-slash-default/index", Kind::Y, "browser/node_modules/n-alternate-files/file-from-rel-slash-to-rel-slash-default/index.js", true, true),
    ("browser/hypothetical.js", "n-alternate-files/file-from-rel-slash-to-rel-slash-default/index.js", Kind::Y, "browser/node_modules/n-alternate-files/file-from-rel-slash-to-rel-slash-default/index.js", true, true),
    ("browser/hypothetical.js", "n-alternate-files/file-from-bare-ext-to-rel-ext-default", Kind::Y, "browser/node_modules/n-alternate-files/file-from-bare-ext-to-rel-ext-browser.js", true, true),
    ("browser/hypothetical.js", "n-alternate-files/file-from-bare-ext-to-rel-ext-default.js", Kind::Y, "browser/node_modules/n-alternate-files/file-from-bare-ext-to-rel-ext-browser.js", true, true),
    ("browser/hypothetical.js", "n-alternate-files/file-from-bare-noext-to-rel-ext-default", Kind::Y, "browser/node_modules/n-alternate-files/file-from-bare-noext-to-rel-ext-browser.js", true, true),
    ("browser/hypothetical.js", "n-alternate-files/file-from-bare-noext-to-rel-ext-default.js", Kind::Y, "browser/node_modules/n-alternate-files/file-from-bare-noext-to-rel-ext-default.js", true, true),
    ("browser/hypothetical.js", "n-alternate-files/file-from-bare-noext-to-rel-ext-default.json", Kind::Y, "browser/node_modules/n-alternate-files/file-from-bare-noext-to-rel-ext-default.json", true, true),
    ("browser/hypothetical.js", "n-alternate-files/file-from-bare-slash-to-rel-ext-default", Kind::Y, "browser/node_modules/n-alternate-files/file-from-bare-slash-to-rel-ext-default.js", true, true),
    ("browser/hypothetical.js", "n-alternate-files/file-from-bare-slash-to-rel-ext-default.js", Kind::Y, "browser/node_modules/n-alternate-files/file-from-bare-slash-to-rel-ext-default.js", true, true),
    ("browser/hypothetical.js", "n-alternate-files/file-from-bare-slash-to-rel-ext-default/", Kind::Y, "browser/node_modules/n-alternate-files/file-from-bare-slash-to-rel-ext-default/index.js", true, true),
    ("browser/hypothetical.js", "n-alternate-files/file-from-bare-slash-to-rel-ext-default/index", Kind::Y, "browser/node_modules/n-alternate-files/file-from-bare-slash-to-rel-ext-default/index.js", true, true),
    ("browser/hypothetical.js", "n-alternate-files/file-from-bare-slash-to-rel-ext-default/index.js", Kind::Y, "browser/node_modules/n-alternate-files/file-from-bare-slash-to-rel-ext-default/index.js", true, true),
    ("browser/hypothetical.js", "n-alternate-files/file-from-bare-ext-to-rel-noext-default", Kind::Y, "browser/node_modules/n-alternate-files/file-from-bare-ext-to-rel-noext-browser.js", true, true),
    ("browser/hypothetical.js", "n-alternate-files/file-from-bare-ext-to-rel-noext-default.js", Kind::Y, "browser/node_modules/n-alternate-files/file-from-bare-ext-to-rel-noext-browser.js", true, true),
    ("browser/hypothetical.js", "n-alternate-files/file-from-bare-ext-to-rel-noext-default.json", Kind::Y, "browser/node_modules/n-alternate-files/file-from-bare-ext-to-rel-noext-default.json", true, true),
    ("browser/hypothetical.js", "n-alternate-files/file-from-bare-noext-to-rel-noext-default", Kind::Y, "browser/node_modules/n-alternate-files/file-from-bare-noext-to-rel-noext-browser.js", true, true),
    ("browser/hypothetical.js", "n-alternate-files/file-from-bare-noext-to-rel-noext-default.js", Kind::Y, "browser/node_modules/n-alternate-files/file-from-bare-noext-to-rel-noext-default.js", true, true),
    ("browser/hypothetical.js", "n-alternate-files/file-from-bare-noext-to-rel-noext-default.json", Kind::Y, "browser/node_modules/n-alternate-files/file-from-bare-noext-to-rel-noext-default.json", true, true),
    ("browser/hypothetical.js", "n-alternate-files/file-from-bare-slash-to-rel-noext-default", Kind::Y, "browser/node_modules/n-alternate-files/file-from-bare-slash-to-rel-noext-default.js", true, true),
    ("browser/hypothetical.js", "n-alternate-files/file-from-bare-slash-to-rel-noext-default.js", Kind::Y, "browser/node_modules/n-alternate-files/file-from-bare-slash-to-rel-noext-default.js", true, true),
    ("browser/hypothetical.js", "n-alternate-files/file-from-bare-slash-to-rel-noext-default.json", Kind::Y, "browser/node_modules/n-alternate-files/file-from-bare-slash-to-rel-noext-default.json", true, true),
    ("browser/hypothetical.js", "n-alternate-files/file-from-bare-slash-to-rel-noext-default/", Kind::Y, "browser/node_modules/n-alternate-files/file-from-bare-slash-to-rel-noext-default/index.js", true, true),
    ("browser/hypothetical.js", "n-alternate-files/file-from-bare-slash-to-rel-noext-default/index", Kind::Y, "browser/node_modules/n-alternate-files/file-from-bare-slash-to-rel-noext-default/index.js", true, true),
    ("browser/hypothetical.js", "n-alternate-files/file-from-bare-slash-to-rel-noext-default/index.js", Kind::Y, "browser/node_modules/n-alternate-files/file-from-bare-slash-to-rel-noext-default/index.js", true, true),
    ("browser/hypothetical.js", "n-alternate-files/file-from-bare-ext-to-rel-slash-default", Kind::Y, "browser/node_modules/n-alternate-files/file-from-bare-ext-to-rel-slash-browser/index.js", true, true),
    ("browser/hypothetical.js", "n-alternate-files/file-from-bare-ext-to-rel-slash-default.js", Kind::Y, "browser/node_modules/n-alternate-files/file-from-bare-ext-to-rel-slash-browser/index.js", true, true),
    ("browser/hypothetical.js", "n-alternate-files/file-from-bare-ext-to-rel-slash-default/", Kind::Y, "browser/node_modules/n-alternate-files/file-from-bare-ext-to-rel-slash-default/index.js", true, true),
    ("browser/hypothetical.js", "n-alternate-files/file-from-bare-ext-to-rel-slash-default/index", Kind::Y, "browser/node_modules/n-alternate-files/file-from-bare-ext-to-rel-slash-default/index.js", true, true),
    ("browser/hypothetical.js", "n-alternate-files/file-from-bare-ext-to-rel-slash-default/index.js", Kind::Y, "browser/node_modules/n-alternate-files/file-from-bare-ext-to-rel-slash-default/index.js", true, true),
    ("browser/hypothetical.js", "n-alternate-files/file-from-bare-noext-to-rel-slash-default", Kind::Y, "browser/node_modules/n-alternate-files/file-from-bare-noext-to-rel-slash-browser/index.js", true, true),
    ("browser/hypothetical.js", "n-alternate-files/file-from-bare-noext-to-rel-slash-default.js", Kind::Y, "browser/node_modules/n-alternate-files/file-from-bare-noext-to-rel-slash-default.js", true, true),
    ("browser/hypothetical.js", "n-alternate-files/file-from-bare-noext-to-rel-slash-default.json", Kind::Y, "browser/node_modules/n-alternate-files/file-from-bare-noext-to-rel-slash-default.json", true, true),
    ("browser/hypothetical.js", "n-alternate-files/file-from-bare-noext-to-rel-slash-default/", Kind::Y, "browser/node_modules/n-alternate-files/file-from-bare-noext-to-rel-slash-default/index.js", true, true),
    ("browser/hypothetical.js", "n-alternate-files/file-from-bare-noext-to-rel-slash-default/index", Kind::Y, "browser/node_modules/n-alternate-files/file-from-bare-noext-to-rel-slash-default/index.js", true, true),
    ("browser/hypothetical.js", "n-alternate-files/file-from-bare-noext-to-rel-slash-default/index.js", Kind::Y, "browser/node_modules/n-alternate-files/file-from-bare-noext-to-rel-slash-default/index.js", true, true),
    ("browser/hypothetical.js", "n-alternate-files/file-from-bare-slash-to-rel-slash-default", Kind::Y, "browser/node_modules/n-alternate-files/file-from-bare-slash-to-rel-slash-default.js", true, true),
    ("browser/hypothetical.js", "n-alternate-files/file-from-bare-slash-to-rel-slash-default.js", Kind::Y, "browser/node_modules/n-alternate-files/file-from-bare-slash-to-rel-slash-default.js", true, true),
    ("browser/hypothetical.js", "n-alternate-files/file-from-bare-slash-to-rel-slash-default/", Kind::Y, "browser/node_modules/n-alternate-files/file-from-bare-slash-to-rel-slash-default/index.js", true, true),
    ("browser/hypothetical.js", "n-alternate-files/file-from-bare-slash-to-rel-slash-default/index", Kind::Y, "browser/node_modules/n-alternate-files/file-from-bare-slash-to-rel-slash-default/index.js", true, true),
    ("browser/hypothetical.js", "n-alternate-files/file-from-bare-slash-to-rel-slash-default/index.js", Kind::Y, "browser/node_modules/n-alternate-files/file-from-bare-slash-to-rel-slash-default/index.js", true, true),
    ("browser/hypothetical.js", "n-alternate-files/file-from-rel-ext-to-bare-ext-default", Kind::Y, "browser/node_modules/n-alternate-files/node_modules/file-from-rel-ext-to-bare-ext-browser.js", true, true),
    ("browser/hypothetical.js", "n-alternate-files/file-from-rel-ext-to-bare-ext-default.js", Kind::Y, "browser/node_modules/n-alternate-files/node_modules/file-from-rel-ext-to-bare-ext-browser.js", true, true),
    ("browser/hypothetical.js", "n-alternate-files/file-from-rel-noext-to-bare-ext-default", Kind::Y, "browser/node_modules/n-alternate-files/node_modules/file-from-rel-noext-to-bare-ext-browser.js", true, true),
    ("browser/hypothetical.js", "n-alternate-files/file-from-rel-noext-to-bare-ext-default.js", Kind::Y, "browser/node_modules/n-alternate-files/file-from-rel-noext-to-bare-ext-default.js", true, true),
    ("browser/hypothetical.js", "n-alternate-files/file-from-rel-noext-to-bare-ext-default.json", Kind::Y, "browser/node_modules/n-alternate-files/file-from-rel-noext-to-bare-ext-default.json", true, true),
    ("browser/hypothetical.js", "n-alternate-files/file-from-rel-slash-to-bare-ext-default", Kind::Y, "browser/node_modules/n-alternate-files/file-from-rel-slash-to-bare-ext-default.js", true, true),
    ("browser/hypothetical.js", "n-alternate-files/file-from-rel-slash-to-bare-ext-default.js", Kind::Y, "browser/node_modules/n-alternate-files/file-from-rel-slash-to-bare-ext-default.js", true, true),
    ("browser/hypothetical.js", "n-alternate-files/file-from-rel-slash-to-bare-ext-default/", Kind::Y, "browser/node_modules/n-alternate-files/file-from-rel-slash-to-bare-ext-default/index.js", true, true),
    ("browser/hypothetical.js", "n-alternate-files/file-from-rel-slash-to-bare-ext-default/index", Kind::Y, "browser/node_modules/n-alternate-files/file-from-rel-slash-to-bare-ext-default/index.js", true, true),
    ("browser/hypothetical.js", "n-alternate-files/file-from-rel-slash-to-bare-ext-default/index.js", Kind::Y, "browser/node_modules/n-alternate-files/file-from-rel-slash-to-bare-ext-default/index.js", true, true),
    ("browser/hypothetical.js", "n-alternate-files/file-from-rel-ext-to-bare-noext-default", Kind::Y, "browser/node_modules/n-alternate-files/node_modules/file-from-rel-ext-to-bare-noext-browser.js", true, true),
    ("browser/hypothetical.js", "n-alternate-files/file-from-rel-ext-to-bare-noext-default.js", Kind::Y, "browser/node_modules/n-alternate-files/node_modules/file-from-rel-ext-to-bare-noext-browser.js", true, true),
    ("browser/hypothetical.js", "n-alternate-files/file-from-rel-ext-to-bare-noext-default.json", Kind::Y, "browser/node_modules/n-alternate-files/file-from-rel-ext-to-bare-noext-default.json", true, true),
    ("browser/hypothetical.js", "n-alternate-files/file-from-rel-noext-to-bare-noext-default", Kind::Y, "browser/node_modules/n-alternate-files/node_modules/file-from-rel-noext-to-bare-noext-browser.js", true, true),
    ("browser/hypothetical.js", "n-alternate-files/file-from-rel-noext-to-bare-noext-default.js", Kind::Y, "browser/node_modules/n-alternate-files/file-from-rel-noext-to-bare-noext-default.js", true, true),
    ("browser/hypothetical.js", "n-alternate-files/file-from-rel-noext-to-bare-noext-default.json", Kind::Y, "browser/node_modules/n-alternate-files/file-from-rel-noext-to-bare-noext-default.json", true, true),
    ("browser/hypothetical.js", "n-alternate-files/file-from-rel-slash-to-bare-noext-default", Kind::Y, "browser/node_modules/n-alternate-files/file-from-rel-slash-to-bare-noext-default.js", true, true),
    ("browser/hypothetical.js", "n-alternate-files/file-from-rel-slash-to-bare-noext-default.js", Kind::Y, "browser/node_modules/n-alternate-files/file-from-rel-slash-to-bare-noext-default.js", true, true),
    ("browser/hypothetical.js", "n-alternate-files/file-from-rel-slash-to-bare-noext-default.json", Kind::Y, "browser/node_modules/n-alternate-files/file-from-rel-slash-to-bare-noext-default.json", true, true),
    ("browser/hypothetical.js", "n-alternate-files/file-from-rel-slash-to-bare-noext-default/", Kind::Y, "browser/node_modules/n-alternate-files/file-from-rel-slash-to-bare-noext-default/index.js", true, true),
    ("browser/hypothetical.js", "n-alternate-files/file-from-rel-slash-to-bare-noext-default/index", Kind::Y, "browser/node_modules/n-alternate-files/file-from-rel-slash-to-bare-noext-default/index.js", true, true),
    ("browser/hypothetical.js", "n-alternate-files/file-from-rel-slash-to-bare-noext-default/index.js", Kind::Y, "browser/node_modules/n-alternate-files/file-from-rel-slash-to-bare-noext-default/index.js", true, true),
    ("browser/hypothetical.js", "n-alternate-files/file-from-rel-ext-to-bare-slash-default", Kind::Y, "browser/node_modules/n-alternate-files/node_modules/file-from-rel-ext-to-bare-slash-browser.js", true, true),
    ("browser/hypothetical.js", "n-alternate-files/file-from-rel-ext-to-bare-slash-default.js", Kind::Y, "browser/node_modules/n-alternate-files/node_modules/file-from-rel-ext-to-bare-slash-browser.js", true, true),
    ("browser/hypothetical.js", "n-alternate-files/file-from-rel-ext-to-bare-slash-default/", Kind::Y, "browser/node_modules/n-alternate-files/file-from-rel-ext-to-bare-slash-default/index.js", true, true),
    ("browser/hypothetical.js", "n-alternate-files/file-from-rel-ext-to-bare-slash-default/index", Kind::Y, "browser/node_modules/n-alternate-files/file-from-rel-ext-to-bare-slash-default/index.js", true, true),
    ("browser/hypothetical.js", "n-alternate-files/file-from-rel-ext-to-bare-slash-default/index.js", Kind::Y, "browser/node_modules/n-alternate-files/file-from-rel-ext-to-bare-slash-default/index.js", true, true),
    ("browser/hypothetical.js", "n-alternate-files/file-from-rel-noext-to-bare-slash-default", Kind::Y, "browser/node_modules/n-alternate-files/node_modules/file-from-rel-noext-to-bare-slash-browser.js", true, true),
    ("browser/hypothetical.js", "n-alternate-files/file-from-rel-noext-to-bare-slash-default.js", Kind::Y, "browser/node_modules/n-alternate-files/file-from-rel-noext-to-bare-slash-default.js", true, true),
    ("browser/hypothetical.js", "n-alternate-files/file-from-rel-noext-to-bare-slash-default.json", Kind::Y, "browser/node_modules/n-alternate-files/file-from-rel-noext-to-bare-slash-default.json", true, true),
    ("browser/hypothetical.js", "n-alternate-files/file-from-rel-noext-to-bare-slash-default/", Kind::Y, "browser/node_modules/n-alternate-files/file-from-rel-noext-to-bare-slash-default/index.js", true, true),
    ("browser/hypothetical.js", "n-alternate-files/file-from-rel-noext-to-bare-slash-default/index", Kind::Y, "browser/node_modules/n-alternate-files/file-from-rel-noext-to-bare-slash-default/index.js", true, true),
    ("browser/hypothetical.js", "n-alternate-files/file-from-rel-noext-to-bare-slash-default/index.js", Kind::Y, "browser/node_modules/n-alternate-files/file-from-rel-noext-to-bare-slash-default/index.js", true, true),
    ("browser/hypothetical.js", "n-alternate-files/file-from-rel-slash-to-bare-slash-default", Kind::Y, "browser/node_modules/n-alternate-files/file-from-rel-slash-to-bare-slash-default.js", true, true),
    ("browser/hypothetical.js", "n-alternate-files/file-from-rel-slash-to-bare-slash-default.js", Kind::Y, "browser/node_modules/n-alternate-files/file-from-rel-slash-to-bare-slash-default.js", true, true),
    ("browser/hypothetical.js", "n-alternate-files/file-from-rel-slash-to-bare-slash-default/", Kind::Y, "browser/node_modules/n-alternate-files/file-from-rel-slash-to-bare-slash-default/index.js", true, true),
    ("browser/hypothetical.js", "n-alternate-files/file-from-rel-slash-to-bare-slash-default/index", Kind::Y, "browser/node_modules/n-alternate-files/file-from-rel-slash-to-bare-slash-default/index.js", true, true),
    ("browser/hypothetical.js", "n-alternate-files/file-from-rel-slash-to-bare-slash-default/index.js", Kind::Y, "browser/node_modules/n-alternate-files/file-from-rel-slash-to-bare-slash-default/index.js", true, true),
    ("browser/hypothetical.js", "n-alternate-files/file-from-bare-ext-to-bare-ext-default", Kind::Y, "browser/node_modules/n-alternate-files/node_modules/file-from-bare-ext-to-bare-ext-browser.js", true, true),
    ("browser/hypothetical.js", "n-alternate-files/file-from-bare-ext-to-bare-ext-default.js", Kind::Y, "browser/node_modules/n-alternate-files/node_modules/file-from-bare-ext-to-bare-ext-browser.js", true, true),
    ("browser/hypothetical.js", "n-alternate-files/file-from-bare-noext-to-bare-ext-default", Kind::Y, "browser/node_modules/n-alternate-files/node_modules/file-from-bare-noext-to-bare-ext-browser.js", true, true),
    ("browser/hypothetical.js", "n-alternate-files/file-from-bare-noext-to-bare-ext-default.js", Kind::Y, "browser/node_modules/n-alternate-files/file-from-bare-noext-to-bare-ext-default.js", true, true),
    ("browser/hypothetical.js", "n-alternate-files/file-from-bare-noext-to-bare-ext-default.json", Kind::Y, "browser/node_modules/n-alternate-files/file-from-bare-noext-to-bare-ext-default.json", true, true),
    ("browser/hypothetical.js", "n-alternate-files/file-from-bare-slash-to-bare-ext-default", Kind::Y, "browser/node_modules/n-alternate-files/file-from-bare-slash-to-bare-ext-default.js", true, true),
    ("browser/hypothetical.js", "n-alternate-files/file-from-bare-slash-to-bare-ext-default.js", Kind::Y, "browser/node_modules/n-alternate-files/file-from-bare-slash-to-bare-ext-default.js", true, true),
    ("browser/hypothetical.js", "n-alternate-files/file-from-bare-slash-to-bare-ext-default/", Kind::Y, "browser/node_modules/n-alternate-files/file-from-bare-slash-to-bare-ext-default/index.js", true, true),
    ("browser/hypothetical.js", "n-alternate-files/file-from-bare-slash-to-bare-ext-default/index", Kind::Y, "browser/node_modules/n-alternate-files/file-from-bare-slash-to-bare-ext-default/index.js", true, true),
    ("browser/hypothetical.js", "n-alternate-files/file-from-bare-slash-to-bare-ext-default/index.js", Kind::Y, "browser/node_modules/n-alternate-files/file-from-bare-slash-to-bare-ext-default/index.js", true, true),
    ("browser/hypothetical.js", "n-alternate-files/file-from-bare-ext-to-bare-noext-default", Kind::Y, "browser/node_modules/n-alternate-files/node_modules/file-from-bare-ext-to-bare-noext-browser.js", true, true),
    ("browser/hypothetical.js", "n-alternate-files/file-from-bare-ext-to-bare-noext-default.js", Kind::Y, "browser/node_modules/n-alternate-files/node_modules/file-from-bare-ext-to-bare-noext-browser.js", true, true),
    ("browser/hypothetical.js", "n-alternate-files/file-from-bare-ext-to-bare-noext-default.json", Kind::Y, "browser/node_modules/n-alternate-files/file-from-bare-ext-to-bare-noext-default.json", true, true),
    ("browser/hypothetical.js", "n-alternate-files/file-from-bare-noext-to-bare-noext-default", Kind::Y, "browser/node_modules/n-alternate-files/node_modules/file-from-bare-noext-to-bare-noext-browser.js", true, true),
    ("browser/hypothetical.js", "n-alternate-files/file-from-bare-noext-to-bare-noext-default.js", Kind::Y, "browser/node_modules/n-alternate-files/file-from-bare-noext-to-bare-noext-default.js", true, true),
    ("browser/hypothetical.js", "n-alternate-files/file-from-bare-noext-to-bare-noext-default.json", Kind::Y, "browser/node_modules/n-alternate-files/file-from-bare-noext-to-bare-noext-default.json", true, true),
    ("browser/hypothetical.js", "n-alternate-files/file-from-bare-slash-to-bare-noext-default", Kind::Y, "browser/node_modules/n-alternate-files/file-from-bare-slash-to-bare-noext-default.js", true, true),
    ("browser/hypothetical.js", "n-alternate-files/file-from-bare-slash-to-bare-noext-default.js", Kind::Y, "browser/node_modules/n-alternate-files/file-from-bare-slash-to-bare-noext-default.js", true, true),
    ("browser/hypothetical.js", "n-alternate-files/file-from-bare-slash-to-bare-noext-default.json", Kind::Y, "browser/node_modules/n-alternate-files/file-from-bare-slash-to-bare-noext-default.json", true, true),
    ("browser/hypothetical.js", "n-alternate-files/file-from-bare-slash-to-bare-noext-default/", Kind::Y, "browser/node_modules/n-alternate-files/file-from-bare-slash-to-bare-noext-default/index.js", true, true),
    ("browser/hypothetical.js", "n-alternate-files/file-from-bare-slash-to-bare-noext-default/index", Kind::Y, "browser/node_modules/n-alternate-files/file-from-bare-slash-to-bare-noext-default/index.js", true, true),
    ("browser/hypothetical.js", "n-alternate-files/file-from-bare-slash-to-bare-noext-default/index.js", Kind::Y, "browser/node_modules/n-alternate-files/file-from-bare-slash-to-bare-noext-default/index.js", true, true),
    ("browser/hypothetical.js", "n-alternate-files/file-from-bare-ext-to-bare-slash-default", Kind::Y, "browser/node_modules/n-alternate-files/node_modules/file-from-bare-ext-to-bare-slash-browser.js", true, true),
    ("browser/hypothetical.js", "n-alternate-files/file-from-bare-ext-to-bare-slash-default.js", Kind::Y, "browser/node_modules/n-alternate-files/node_modules/file-from-bare-ext-to-bare-slash-browser.js", true, true),
    ("browser/hypothetical.js", "n-alternate-files/file-from-bare-ext-to-bare-slash-default/", Kind::Y, "browser/node_modules/n-alternate-files/file-from-bare-ext-to-bare-slash-default/index.js", true, true),
    ("browser/hypothetical.js", "n-alternate-files/file-from-bare-ext-to-bare-slash-default/index", Kind::Y, "browser/node_modules/n-alternate-files/file-from-bare-ext-to-bare-slash-default/index.js", true, true),
    ("browser/hypothetical.js", "n-alternate-files/file-from-bare-ext-to-bare-slash-default/index.js", Kind::Y, "browser/node_modules/n-alternate-files/file-from-bare-ext-to-bare-slash-default/index.js", true, true),
    ("browser/hypothetical.js", "n-alternate-files/file-from-bare-noext-to-bare-slash-default", Kind::Y, "browser/node_modules/n-alternate-files/node_modules/file-from-bare-noext-to-bare-slash-browser.js", true, true),
    ("browser/hypothetical.js", "n-alternate-files/file-from-bare-noext-to-bare-slash-default.js", Kind::Y, "browser/node_modules/n-alternate-files/file-from-bare-noext-to-bare-slash-default.js", true, true),
    ("browser/hypothetical.js", "n-alternate-files/file-from-bare-noext-to-bare-slash-default.json", Kind::Y, "browser/node_modules/n-alternate-files/file-from-bare-noext-to-bare-slash-default.json", true, true),
    ("browser/hypothetical.js", "n-alternate-files/file-from-bare-noext-to-bare-slash-default/", Kind::Y, "browser/node_modules/n-alternate-files/file-from-bare-noext-to-bare-slash-default/index.js", true, true),
    ("browser/hypothetical.js", "n-alternate-files/file-from-bare-noext-to-bare-slash-default/index", Kind::Y, "browser/node_modules/n-alternate-files/file-from-bare-noext-to-bare-slash-default/index.js", true, true),
    ("browser/hypothetical.js", "n-alternate-files/file-from-bare-noext-to-bare-slash-default/index.js", Kind::Y, "browser/node_modules/n-alternate-files/file-from-bare-noext-to-bare-slash-default/index.js", true, true),
    ("browser/hypothetical.js", "n-alternate-files/file-from-bare-slash-to-bare-slash-default", Kind::Y, "browser/node_modules/n-alternate-files/file-from-bare-slash-to-bare-slash-default.js", true, true),
    ("browser/hypothetical.js", "n-alternate-files/file-from-bare-slash-to-bare-slash-default.js", Kind::Y, "browser/node_modules/n-alternate-files/file-from-bare-slash-to-bare-slash-default.js", true, true),
    ("browser/hypothetical.js", "n-alternate-files/file-from-bare-slash-to-bare-slash-default/", Kind::Y, "browser/node_modules/n-alternate-files/file-from-bare-slash-to-bare-slash-default/index.js", true, true),
    ("browser/hypothetical.js", "n-alternate-files/file-from-bare-slash-to-bare-slash-default/index", Kind::Y, "browser/node_modules/n-alternate-files/file-from-bare-slash-to-bare-slash-default/index.js", true, true),
    ("browser/hypothetical.js", "n-alternate-files/file-from-bare-slash-to-bare-slash-default/index.js", Kind::Y, "browser/node_modules/n-alternate-files/file-from-bare-slash-to-bare-slash-default/index.js", true, true),
    ("browser/hypothetical.js", "n-alternate-main-rel", Kind::Y, "browser/node_modules/n-alternate-main-rel/main-default.js", true, false),
    ("browser/hypothetical.js", "n-alternate-main-rel/main-default", Kind::Y, "browser/node_modules/n-alternate-main-rel/main-default.js", true, false),
    ("browser/hypothetical.js", "n-alternate-main-rel/main-default.js", Kind::Y, "browser/node_modules/n-alternate-main-rel/main-default.js", true, false),
    ("browser/hypothetical.js", "n-alternate-main-bare", Kind::Y, "browser/node_modules/n-alternate-main-bare/main-default.js", true, false),
    ("browser/hypothetical.js", "n-alternate-main-bare/main-default", Kind::Y, "browser/node_modules/n-alternate-main-bare/main-default.js", true, false),
    ("browser/hypothetical.js", "n-alternate-main-bare/main-default.js", Kind::Y, "browser/node_modules/n-alternate-main-bare/main-default.js", true, false),
    ("browser/hypothetical.js", "n-alternate-main-index-rel", Kind::Y, "browser/node_modules/n-alternate-main-index-rel/index.js", true, false),
    ("browser/hypothetical.js", "n-alternate-main-index-rel/index", Kind::Y, "browser/node_modules/n-alternate-main-index-rel/index.js", true, false),
    ("browser/hypothetical.js", "n-alternate-main-index-rel/index.js", Kind::Y, "browser/node_modules/n-alternate-main-index-rel/index.js", true, false),
    ("browser/hypothetical.js", "n-alternate-main-index-bare", Kind::Y, "browser/node_modules/n-alternate-main-index-bare/index.js", true, false),
    ("browser/hypothetical.js", "n-alternate-main-index-bare/index", Kind::Y, "browser/node_modules/n-alternate-main-index-bare/index.js", true, false),
    ("browser/hypothetical.js", "n-alternate-main-index-bare/index.js", Kind::Y, "browser/node_modules/n-alternate-main-index-bare/index.js", true, false),
    ("browser/hypothetical.js", "n-alternate-main-subdir-rel", Kind::Y, "browser/node_modules/n-alternate-main-subdir-rel/default/main.js", true, false),
    ("browser/hypothetical.js", "n-alternate-main-subdir-rel/default/main", Kind::Y, "browser/node_modules/n-alternate-main-subdir-rel/default/main.js", true, false),
    ("browser/hypothetical.js", "n-alternate-main-subdir-rel/default/main.js", Kind::Y, "browser/node_modules/n-alternate-main-subdir-rel/default/main.js", true, false),
    ("browser/hypothetical.js", "n-alternate-main-subdir-bare", Kind::Y, "browser/node_modules/n-alternate-main-subdir-bare/default/main.js", true, false),
    ("browser/hypothetical.js", "n-alternate-main-subdir-bare/default/main", Kind::Y, "browser/node_modules/n-alternate-main-subdir-bare/default/main.js", true, false),
    ("browser/hypothetical.js", "n-alternate-main-subdir-bare/default/main.js", Kind::Y, "browser/node_modules/n-alternate-main-subdir-bare/default/main.js", true, false),
    ("browser/hypothetical.js", "n-alternate-main-rel", Kind::Y, "browser/node_modules/n-alternate-main-rel/main-browser.js", true, true),
    ("browser/hypothetical.js", "n-alternate-main-rel/main-default", Kind::Y, "browser/node_modules/n-alternate-main-rel/main-default.js", true, true),
    ("browser/hypothetical.js", "n-alternate-main-rel/main-default.js", Kind::Y, "browser/node_modules/n-alternate-main-rel/main-default.js", true, true),
    ("browser/hypothetical.js", "n-alternate-main-bare", Kind::Y, "browser/node_modules/n-alternate-main-bare/main-browser.js", true, true),
    ("browser/hypothetical.js", "n-alternate-main-bare/main-default", Kind::Y, "browser/node_modules/n-alternate-main-bare/main-default.js", true, true),
    ("browser/hypothetical.js", "n-alternate-main-bare/main-default.js", Kind::Y, "browser/node_modules/n-alternate-main-bare/main-default.js", true, true),
    ("browser/hypothetical.js", "n-alternate-main-index-rel", Kind::Y, "browser/node_modules/n-alternate-main-index-rel/index-browser.js", true, true),
    ("browser/hypothetical.js", "n-alternate-main-index-rel/index", Kind::Y, "browser/node_modules/n-alternate-main-index-rel/index.js", true, true),
    ("browser/hypothetical.js", "n-alternate-main-index-rel/index.js", Kind::Y, "browser/node_modules/n-alternate-main-index-rel/index.js", true, true),
    ("browser/hypothetical.js", "n-alternate-main-index-bare", Kind::Y, "browser/node_modules/n-alternate-main-index-bare/index-browser.js", true, true),
    ("browser/hypothetical.js", "n-alternate-main-index-bare/index", Kind::Y, "browser/node_modules/n-alternate-main-index-bare/index.js", true, true),
    ("browser/hypothetical.js", "n-alternate-main-index-bare/index.js", Kind::Y, "browser/node_modules/n-alternate-main-index-bare/index.js", true, true),
    ("browser/hypothetical.js", "n-alternate-main-subdir-rel", Kind::Y, "browser/node_modules/n-alternate-main-subdir-rel/browser/main.js", true, true),
    ("browser/hypothetical.js", "n-alternate-main-subdir-rel/default/main", Kind::Y, "browser/node_modules/n-alternate-main-subdir-rel/default/main.js", true, true),
    ("browser/hypothetical.js", "n-alternate-main-subdir-rel/default/main.js", Kind::Y, "browser/node_modules/n-alternate-main-subdir-rel/default/main.js", true, true),
    ("browser/hypothetical.js", "n-alternate-main-subdir-bare", Kind::Y, "browser/node_modules/n-alternate-main-subdir-bare/browser/main.js", true, true),
    ("browser/hypothetical.js", "n-alternate-main-subdir-bare/default/main", Kind::Y, "browser/node_modules/n-alternate-main-subdir-bare/default/main.js", true, true),
    ("browser/hypothetical.js", "n-alternate-main-subdir-bare/default/main.js", Kind::Y, "browser/node_modules/n-alternate-main-subdir-bare/default/main.js", true, true),
    ("browser/hypothetical.js", "n-alternate-files-main-rel", Kind::Y, "browser/node_modules/n-alternate-files-main-rel/main-default.js", true, false),
    ("browser/hypothetical.js", "n-alternate-files-main-rel/main-default", Kind::Y, "browser/node_modules/n-alternate-files-main-rel/main-default.js", true, false),
    ("browser/hypothetical.js", "n-alternate-files-main-rel/main-default.js", Kind::Y, "browser/node_modules/n-alternate-files-main-rel/main-default.js", true, false),
    ("browser/hypothetical.js", "n-alternate-files-main-bare", Kind::Y, "browser/node_modules/n-alternate-files-main-bare/main-default.js", true, false),
    ("browser/hypothetical.js", "n-alternate-files-main-bare/main-default", Kind::Y, "browser/node_modules/n-alternate-files-main-bare/main-default.js", true, false),
    ("browser/hypothetical.js", "n-alternate-files-main-bare/main-default.js", Kind::Y, "browser/node_modules/n-alternate-files-main-bare/main-default.js", true, false),
    ("browser/hypothetical.js", "n-alternate-files-main-rel", Kind::Y, "browser/node_modules/n-alternate-files-main-rel/main-browser.js", true, true),
    ("browser/hypothetical.js", "n-alternate-files-main-rel/main-default", Kind::Y, "browser/node_modules/n-alternate-files-main-rel/main-browser.js", true, true),
    ("browser/hypothetical.js", "n-alternate-files-main-rel/main-default.js", Kind::Y, "browser/node_modules/n-alternate-files-main-rel/main-browser.js", true, true),
    ("browser/hypothetical.js", "n-alternate-files-main-bare", Kind::Y, "browser/node_modules/n-alternate-files-main-bare/node_modules/main-browser.js", true, true),
    ("browser/hypothetical.js", "n-alternate-files-main-bare/main-default", Kind::Y, "browser/node_modules/n-alternate-files-main-bare/node_modules/main-browser.js", true, true),
    ("browser/hypothetical.js", "n-alternate-files-main-bare/main-default.js", Kind::Y, "browser/node_modules/n-alternate-files-main-bare/node_modules/main-browser.js", true, true),
    ("browser/hypothetical.js", "./ignore-files/file-bare-noext", Kind::Y, "browser/ignore-files/file-bare-noext.js", true, false),
    ("browser/hypothetical.js", "./ignore-files/file-bare-noext.js", Kind::Y, "browser/ignore-files/file-bare-noext.js", true, false),
    ("browser/hypothetical.js", "./ignore-files/file-bare-ext", Kind::Y, "browser/ignore-files/file-bare-ext.js", true, false),
    ("browser/hypothetical.js", "./ignore-files/file-bare-ext.js", Kind::Y, "browser/ignore-files/file-bare-ext.js", true, false),
    ("browser/hypothetical.js", "./ignore-files/file-rel-noext", Kind::Y, "browser/ignore-files/file-rel-noext.js", true, false),
    ("browser/hypothetical.js", "./ignore-files/file-rel-noext.js", Kind::Y, "browser/ignore-files/file-rel-noext.js", true, false),
    ("browser/hypothetical.js", "./ignore-files/file-rel-ext", Kind::Y, "browser/ignore-files/file-rel-ext.js", true, false),
    ("browser/hypothetical.js", "./ignore-files/file-rel-ext.js", Kind::Y, "browser/ignore-files/file-rel-ext.js", true, false),
    ("browser/hypothetical.js", "./ignore-files/file-bare-noext", Kind::Ignore, "", true, true),
    ("browser/hypothetical.js", "./ignore-files/file-bare-noext.js", Kind::Y, "browser/ignore-files/file-bare-noext.js", true, true),
    ("browser/hypothetical.js", "./ignore-files/file-bare-ext", Kind::Ignore, "", true, true),
    ("browser/hypothetical.js", "./ignore-files/file-bare-ext.js", Kind::Ignore, "", true, true),
    ("browser/hypothetical.js", "./ignore-files/file-rel-noext", Kind::Ignore, "", true, true),
    ("browser/hypothetical.js", "./ignore-files/file-rel-noext.js", Kind::Y, "browser/ignore-files/file-rel-noext.js", true, true),
    ("browser/hypothetical.js", "./ignore-files/file-rel-ext", Kind::Ignore, "", true, true),
    ("browser/hypothetical.js", "./ignore-files/file-rel-ext.js", Kind::Ignore, "", true, true),
];

} // verus!
