use pax::cases::{BROWSER, RESOLVE_FURTHER, RESOLVE_RELATIVE, RESOLVE_UNICODE};
use pax::manifest::ManifestFault;
use pax::path::append_resolving;
use pax::resolver::{InputOptions, ResolveError, Resolved, Resolver};
use pax::suite::{
    assert_resolves as resolves_in, test_browser_with, test_resolve_unicode_with,
    test_resolve_with, Case, Kind, Resolution,
};
use pax::suite::Resolution::{External, Fail, Ignore, Y};
use pax::tree::FileTree;

const BASE: &str = "/fixtures";

const FILES: &[&str] = &[
    "browser/alternate-files-main-bare/main-default.js",
    "browser/alternate-files-main-bare/node_modules/main-browser.js",
    "browser/alternate-files-main-rel/main-browser.js",
    "browser/alternate-files-main-rel/main-default.js",
    "browser/alternate-files/file-from-bare-ext-to-bare-ext-default.js",
    "browser/alternate-files/file-from-bare-ext-to-bare-noext-default.js",
    "browser/alternate-files/file-from-bare-ext-to-bare-noext-default.json",
    "browser/alternate-files/file-from-bare-ext-to-bare-slash-default.js",
    "browser/alternate-files/file-from-bare-ext-to-bare-slash-default/index.js",
    "browser/alternate-files/file-from-bare-ext-to-rel-ext-browser.js",
    "browser/alternate-files/file-from-bare-ext-to-rel-ext-default.js",
    "browser/alternate-files/file-from-bare-ext-to-rel-noext-browser.js",
    "browser/alternate-files/file-from-bare-ext-to-rel-noext-default.js",
    "browser/alternate-files/file-from-bare-ext-to-rel-noext-default.json",
    "browser/alternate-files/file-from-bare-ext-to-rel-slash-browser/index.js",
    "browser/alternate-files/file-from-bare-ext-to-rel-slash-default.js",
    "browser/alternate-files/file-from-bare-ext-to-rel-slash-default/index.js",
    "browser/alternate-files/file-from-bare-noext-to-bare-ext-default.js",
    "browser/alternate-files/file-from-bare-noext-to-bare-ext-default.json",
    "browser/alternate-files/file-from-bare-noext-to-bare-noext-default.js",
    "browser/alternate-files/file-from-bare-noext-to-bare-noext-default.json",
    "browser/alternate-files/file-from-bare-noext-to-bare-slash-default.js",
    "browser/alternate-files/file-from-bare-noext-to-bare-slash-default.json",
    "browser/alternate-files/file-from-bare-noext-to-bare-slash-default/index.js",
    "browser/alternate-files/file-from-bare-noext-to-rel-ext-browser.js",
    "browser/alternate-files/file-from-bare-noext-to-rel-ext-default.js",
    "browser/alternate-files/file-from-bare-noext-to-rel-ext-default.json",
    "browser/alternate-files/file-from-bare-noext-to-rel-noext-browser.js",
    "browser/alternate-files/file-from-bare-noext-to-rel-noext-default.js",
    "browser/alternate-files/file-from-bare-noext-to-rel-noext-default.json",
    "browser/alternate-files/file-from-bare-noext-to-rel-slash-browser/index.js",
    "browser/alternate-files/file-from-bare-noext-to-rel-slash-default.js",
    "browser/alternate-files/file-from-bare-noext-to-rel-slash-default.json",
    "browser/alternate-files/file-from-bare-noext-to-rel-slash-default/index.js",
    "browser/alternate-files/file-from-bare-slash-to-bare-ext-default.js",
    "browser/alternate-files/file-from-bare-slash-to-bare-ext-default/index.js",
    "browser/alternate-files/file-from-bare-slash-to-bare-noext-default.js",
    "browser/alternate-files/file-from-bare-slash-to-bare-noext-default.json",
    "browser/alternate-files/file-from-bare-slash-to-bare-noext-default/index.js",
    "browser/alternate-files/file-from-bare-slash-to-bare-slash-default.js",
    "browser/alternate-files/file-from-bare-slash-to-bare-slash-default/index.js",
    "browser/alternate-files/file-from-bare-slash-to-rel-ext-default.js",
    "browser/alternate-files/file-from-bare-slash-to-rel-ext-default/index.js",
    "browser/alternate-files/file-from-bare-slash-to-rel-noext-default.js",
    "browser/alternate-files/file-from-bare-slash-to-rel-noext-default.json",
    "browser/alternate-files/file-from-bare-slash-to-rel-noext-default/index.js",
    "browser/alternate-files/file-from-bare-slash-to-rel-slash-default.js",
    "browser/alternate-files/file-from-bare-slash-to-rel-slash-default/index.js",
    "browser/alternate-files/file-from-rel-ext-to-bare-ext-default.js",
    "browser/alternate-files/file-from-rel-ext-to-bare-noext-default.js",
    "browser/alternate-files/file-from-rel-ext-to-bare-noext-default.json",
    "browser/alternate-files/file-from-rel-ext-to-bare-slash-default.js",
    "browser/alternate-files/file-from-rel-ext-to-bare-slash-default/index.js",
    "browser/alternate-files/file-from-rel-ext-to-rel-ext-browser.js",
    "browser/alternate-files/file-from-rel-ext-to-rel-ext-default.js",
    "browser/alternate-files/file-from-rel-ext-to-rel-noext-browser.js",
    "browser/alternate-files/file-from-rel-ext-to-rel-noext-default.js",
    "browser/alternate-files/file-from-rel-ext-to-rel-noext-default.json",
    "browser/alternate-files/file-from-rel-ext-to-rel-slash-browser/index.js",
    "browser/alternate-files/file-from-rel-ext-to-rel-slash-default.js",
    "browser/alternate-files/file-from-rel-ext-to-rel-slash-default/index.js",
    "browser/alternate-files/file-from-rel-noext-to-bare-ext-default.js",
    "browser/alternate-files/file-from-rel-noext-to-bare-ext-default.json",
    "browser/alternate-files/file-from-rel-noext-to-bare-noext-default.js",
    "browser/alternate-files/file-from-rel-noext-to-bare-noext-default.json",
    "browser/alternate-files/file-from-rel-noext-to-bare-slash-default.js",
    "browser/alternate-files/file-from-rel-noext-to-bare-slash-default.json",
    "browser/alternate-files/file-from-rel-noext-to-bare-slash-default/index.js",
    "browser/alternate-files/file-from-rel-noext-to-rel-ext-browser.js",
    "browser/alternate-files/file-from-rel-noext-to-rel-ext-default.js",
    "browser/alternate-files/file-from-rel-noext-to-rel-ext-default.json",
    "browser/alternate-files/file-from-rel-noext-to-rel-noext-browser.js",
    "browser/alternate-files/file-from-rel-noext-to-rel-noext-default.js",
    "browser/alternate-files/file-from-rel-noext-to-rel-noext-default.json",
    "browser/alternate-files/file-from-rel-noext-to-rel-slash-browser/index.js",
    "browser/alternate-files/file-from-rel-noext-to-rel-slash-default.js",
    "browser/alternate-files/file-from-rel-noext-to-rel-slash-default.json",
    "browser/alternate-files/file-from-rel-noext-to-rel-slash-default/index.js",
    "browser/alternate-files/file-from-rel-slash-to-bare-ext-default.js",
    "browser/alternate-files/file-from-rel-slash-to-bare-ext-default/index.js",
    "browser/alternate-files/file-from-rel-slash-to-bare-noext-default.js",
    "browser/alternate-files/file-from-rel-slash-to-bare-noext-default.json",
    "browser/alternate-files/file-from-rel-slash-to-bare-noext-default/index.js",
    "browser/alternate-files/file-from-rel-slash-to-bare-slash-default.js",
    "browser/alternate-files/file-from-rel-slash-to-bare-slash-default/index.js",
    "browser/alternate-files/file-from-rel-slash-to-rel-ext-default.js",
    "browser/alternate-files/file-from-rel-slash-to-rel-ext-default/index.js",
    "browser/alternate-files/file-from-rel-slash-to-rel-noext-default.js",
    "browser/alternate-files/file-from-rel-slash-to-rel-noext-default.json",
    "browser/alternate-files/file-from-rel-slash-to-rel-noext-default/index.js",
    "browser/alternate-files/file-from-rel-slash-to-rel-slash-default.js",
    "browser/alternate-files/file-from-rel-slash-to-rel-slash-default/index.js",
    "browser/alternate-files/node_modules/file-from-bare-ext-to-bare-ext-browser.js",
    "browser/alternate-files/node_modules/file-from-bare-ext-to-bare-noext-browser.js",
    "browser/alternate-files/node_modules/file-from-bare-ext-to-bare-slash-browser.js",
    "browser/alternate-files/node_modules/file-from-bare-noext-to-bare-ext-browser.js",
    "browser/alternate-files/node_modules/file-from-bare-noext-to-bare-noext-browser.js",
    "browser/alternate-files/node_modules/file-from-bare-noext-to-bare-slash-browser.js",
    "browser/alternate-files/node_modules/file-from-rel-ext-to-bare-ext-browser.js",
    "browser/alternate-files/node_modules/file-from-rel-ext-to-bare-noext-browser.js",
    "browser/alternate-files/node_modules/file-from-rel-ext-to-bare-slash-browser.js",
    "browser/alternate-files/node_modules/file-from-rel-noext-to-bare-ext-browser.js",
    "browser/alternate-files/node_modules/file-from-rel-noext-to-bare-noext-browser.js",
    "browser/alternate-files/node_modules/file-from-rel-noext-to-bare-slash-browser.js",
    "browser/alternate-main-bare/main-browser.js",
    "browser/alternate-main-bare/main-default.js",
    "browser/alternate-main-index-bare/index-browser.js",
    "browser/alternate-main-index-bare/index.js",
    "browser/alternate-main-index-rel/index-browser.js",
    "browser/alternate-main-index-rel/index.js",
    "browser/alternate-main-rel/main-browser.js",
    "browser/alternate-main-rel/main-default.js",
    "browser/alternate-main-subdir-bare/browser/main.js",
    "browser/alternate-main-subdir-bare/default/main.js",
    "browser/alternate-main-subdir-rel/browser/main.js",
    "browser/alternate-main-subdir-rel/default/main.js",
    "browser/ignore-files/file-bare-ext.js",
    "browser/ignore-files/file-bare-noext.js",
    "browser/ignore-files/file-rel-ext.js",
    "browser/ignore-files/file-rel-noext.js",
    "browser/node_modules/n-alternate-files-main-bare/main-default.js",
    "browser/node_modules/n-alternate-files-main-bare/node_modules/main-browser.js",
    "browser/node_modules/n-alternate-files-main-rel/main-browser.js",
    "browser/node_modules/n-alternate-files-main-rel/main-default.js",
    "browser/node_modules/n-alternate-files/file-from-bare-ext-to-bare-ext-default.js",
    "browser/node_modules/n-alternate-files/file-from-bare-ext-to-bare-noext-default.js",
    "browser/node_modules/n-alternate-files/file-from-bare-ext-to-bare-noext-default.json",
    "browser/node_modules/n-alternate-files/file-from-bare-ext-to-bare-slash-default.js",
    "browser/node_modules/n-alternate-files/file-from-bare-ext-to-bare-slash-default/index.js",
    "browser/node_modules/n-alternate-files/file-from-bare-ext-to-rel-ext-browser.js",
    "browser/node_modules/n-alternate-files/file-from-bare-ext-to-rel-ext-default.js",
    "browser/node_modules/n-alternate-files/file-from-bare-ext-to-rel-noext-browser.js",
    "browser/node_modules/n-alternate-files/file-from-bare-ext-to-rel-noext-default.js",
    "browser/node_modules/n-alternate-files/file-from-bare-ext-to-rel-noext-default.json",
    "browser/node_modules/n-alternate-files/file-from-bare-ext-to-rel-slash-browser/index.js",
    "browser/node_modules/n-alternate-files/file-from-bare-ext-to-rel-slash-default.js",
    "browser/node_modules/n-alternate-files/file-from-bare-ext-to-rel-slash-default/index.js",
    "browser/node_modules/n-alternate-files/file-from-bare-noext-to-bare-ext-default.js",
    "browser/node_modules/n-alternate-files/file-from-bare-noext-to-bare-ext-default.json",
    "browser/node_modules/n-alternate-files/file-from-bare-noext-to-bare-noext-default.js",
    "browser/node_modules/n-alternate-files/file-from-bare-noext-to-bare-noext-default.json",
    "browser/node_modules/n-alternate-files/file-from-bare-noext-to-bare-slash-default.js",
    "browser/node_modules/n-alternate-files/file-from-bare-noext-to-bare-slash-default.json",
    "browser/node_modules/n-alternate-files/file-from-bare-noext-to-bare-slash-default/index.js",
    "browser/node_modules/n-alternate-files/file-from-bare-noext-to-rel-ext-browser.js",
    "browser/node_modules/n-alternate-files/file-from-bare-noext-to-rel-ext-default.js",
    "browser/node_modules/n-alternate-files/file-from-bare-noext-to-rel-ext-default.json",
    "browser/node_modules/n-alternate-files/file-from-bare-noext-to-rel-noext-browser.js",
    "browser/node_modules/n-alternate-files/file-from-bare-noext-to-rel-noext-default.js",
    "browser/node_modules/n-alternate-files/file-from-bare-noext-to-rel-noext-default.json",
    "browser/node_modules/n-alternate-files/file-from-bare-noext-to-rel-slash-browser/index.js",
    "browser/node_modules/n-alternate-files/file-from-bare-noext-to-rel-slash-default.js",
    "browser/node_modules/n-alternate-files/file-from-bare-noext-to-rel-slash-default.json",
    "browser/node_modules/n-alternate-files/file-from-bare-noext-to-rel-slash-default/index.js",
    "browser/node_modules/n-alternate-files/file-from-bare-slash-to-bare-ext-default.js",
    "browser/node_modules/n-alternate-files/file-from-bare-slash-to-bare-ext-default/index.js",
    "browser/node_modules/n-alternate-files/file-from-bare-slash-to-bare-noext-default.js",
    "browser/node_modules/n-alternate-files/file-from-bare-slash-to-bare-noext-default.json",
    "browser/node_modules/n-alternate-files/file-from-bare-slash-to-bare-noext-default/index.js",
    "browser/node_modules/n-alternate-files/file-from-bare-slash-to-bare-slash-default.js",
    "browser/node_modules/n-alternate-files/file-from-bare-slash-to-bare-slash-default/index.js",
    "browser/node_modules/n-alternate-files/file-from-bare-slash-to-rel-ext-default.js",
    "browser/node_modules/n-alternate-files/file-from-bare-slash-to-rel-ext-default/index.js",
    "browser/node_modules/n-alternate-files/file-from-bare-slash-to-rel-noext-default.js",
    "browser/node_modules/n-alternate-files/file-from-bare-slash-to-rel-noext-default.json",
    "browser/node_modules/n-alternate-files/file-from-bare-slash-to-rel-noext-default/index.js",
    "browser/node_modules/n-alternate-files/file-from-bare-slash-to-rel-slash-default.js",
    "browser/node_modules/n-alternate-files/file-from-bare-slash-to-rel-slash-default/index.js",
    "browser/node_modules/n-alternate-files/file-from-rel-ext-to-bare-ext-default.js",
    "browser/node_modules/n-alternate-files/file-from-rel-ext-to-bare-noext-default.js",
    "browser/node_modules/n-alternate-files/file-from-rel-ext-to-bare-noext-default.json",
    "browser/node_modules/n-alternate-files/file-from-rel-ext-to-bare-slash-default.js",
    "browser/node_modules/n-alternate-files/file-from-rel-ext-to-bare-slash-default/index.js",
    "browser/node_modules/n-alternate-files/file-from-rel-ext-to-rel-ext-browser.js",
    "browser/node_modules/n-alternate-files/file-from-rel-ext-to-rel-ext-default.js",
    "browser/node_modules/n-alternate-files/file-from-rel-ext-to-rel-noext-browser.js",
    "browser/node_modules/n-alternate-files/file-from-rel-ext-to-rel-noext-default.js",
    "browser/node_modules/n-alternate-files/file-from-rel-ext-to-rel-noext-default.json",
    "browser/node_modules/n-alternate-files/file-from-rel-ext-to-rel-slash-browser/index.js",
    "browser/node_modules/n-alternate-files/file-from-rel-ext-to-rel-slash-default.js",
    "browser/node_modules/n-alternate-files/file-from-rel-ext-to-rel-slash-default/index.js",
    "browser/node_modules/n-alternate-files/file-from-rel-noext-to-bare-ext-default.js",
    "browser/node_modules/n-alternate-files/file-from-rel-noext-to-bare-ext-default.json",
    "browser/node_modules/n-alternate-files/file-from-rel-noext-to-bare-noext-default.js",
    "browser/node_modules/n-alternate-files/file-from-rel-noext-to-bare-noext-default.json",
    "browser/node_modules/n-alternate-files/file-from-rel-noext-to-bare-slash-default.js",
    "browser/node_modules/n-alternate-files/file-from-rel-noext-to-bare-slash-default.json",
    "browser/node_modules/n-alternate-files/file-from-rel-noext-to-bare-slash-default/index.js",
    "browser/node_modules/n-alternate-files/file-from-rel-noext-to-rel-ext-browser.js",
    "browser/node_modules/n-alternate-files/file-from-rel-noext-to-rel-ext-default.js",
    "browser/node_modules/n-alternate-files/file-from-rel-noext-to-rel-ext-default.json",
    "browser/node_modules/n-alternate-files/file-from-rel-noext-to-rel-noext-browser.js",
    "browser/node_modules/n-alternate-files/file-from-rel-noext-to-rel-noext-default.js",
    "browser/node_modules/n-alternate-files/file-from-rel-noext-to-rel-noext-default.json",
    "browser/node_modules/n-alternate-files/file-from-rel-noext-to-rel-slash-browser/index.js",
    "browser/node_modules/n-alternate-files/file-from-rel-noext-to-rel-slash-default.js",
    "browser/node_modules/n-alternate-files/file-from-rel-noext-to-rel-slash-default.json",
    "browser/node_modules/n-alternate-files/file-from-rel-noext-to-rel-slash-default/index.js",
    "browser/node_modules/n-alternate-files/file-from-rel-slash-to-bare-ext-default.js",
    "browser/node_modules/n-alternate-files/file-from-rel-slash-to-bare-ext-default/index.js",
    "browser/node_modules/n-alternate-files/file-from-rel-slash-to-bare-noext-default.js",
    "browser/node_modules/n-alternate-files/file-from-rel-slash-to-bare-noext-default.json",
    "browser/node_modules/n-alternate-files/file-from-rel-slash-to-bare-noext-default/index.js",
    "browser/node_modules/n-alternate-files/file-from-rel-slash-to-bare-slash-default.js",
    "browser/node_modules/n-alternate-files/file-from-rel-slash-to-bare-slash-default/index.js",
    "browser/node_modules/n-alternate-files/file-from-rel-slash-to-rel-ext-default.js",
    "browser/node_modules/n-alternate-files/file-from-rel-slash-to-rel-ext-default/index.js",
    "browser/node_modules/n-alternate-files/file-from-rel-slash-to-rel-noext-default.js",
    "browser/node_modules/n-alternate-files/file-from-rel-slash-to-rel-noext-default.json",
    "browser/node_modules/n-alternate-files/file-from-rel-slash-to-rel-noext-default/index.js",
    "browser/node_modules/n-alternate-files/file-from-rel-slash-to-rel-slash-default.js",
    "browser/node_modules/n-alternate-files/file-from-rel-slash-to-rel-slash-default/index.js",
    "browser/node_modules/n-alternate-files/node_modules/file-from-bare-ext-to-bare-ext-browser.js",
    "browser/node_modules/n-alternate-files/node_modules/file-from-bare-ext-to-bare-noext-browser.js",
    "browser/node_modules/n-alternate-files/node_modules/file-from-bare-ext-to-bare-slash-browser.js",
    "browser/node_modules/n-alternate-files/node_modules/file-from-bare-noext-to-bare-ext-browser.js",
    "browser/node_modules/n-alternate-files/node_modules/file-from-bare-noext-to-bare-noext-browser.js",
    "browser/node_modules/n-alternate-files/node_modules/file-from-bare-noext-to-bare-slash-browser.js",
    "browser/node_modules/n-alternate-files/node_modules/file-from-rel-ext-to-bare-ext-browser.js",
    "browser/node_modules/n-alternate-files/node_modules/file-from-rel-ext-to-bare-noext-browser.js",
    "browser/node_modules/n-alternate-files/node_modules/file-from-rel-ext-to-bare-slash-browser.js",
    "browser/node_modules/n-alternate-files/node_modules/file-from-rel-noext-to-bare-ext-browser.js",
    "browser/node_modules/n-alternate-files/node_modules/file-from-rel-noext-to-bare-noext-browser.js",
    "browser/node_modules/n-alternate-files/node_modules/file-from-rel-noext-to-bare-slash-browser.js",
    "browser/node_modules/n-alternate-main-bare/main-browser.js",
    "browser/node_modules/n-alternate-main-bare/main-default.js",
    "browser/node_modules/n-alternate-main-index-bare/index-browser.js",
    "browser/node_modules/n-alternate-main-index-bare/index.js",
    "browser/node_modules/n-alternate-main-index-rel/index-browser.js",
    "browser/node_modules/n-alternate-main-index-rel/index.js",
    "browser/node_modules/n-alternate-main-rel/main-browser.js",
    "browser/node_modules/n-alternate-main-rel/main-default.js",
    "browser/node_modules/n-alternate-main-subdir-bare/browser/main.js",
    "browser/node_modules/n-alternate-main-subdir-bare/default/main.js",
    "browser/node_modules/n-alternate-main-subdir-rel/browser/main.js",
    "browser/node_modules/n-alternate-main-subdir-rel/default/main.js",
    "resolve-order/1-dir.js",
    "resolve-order/1-dir/index.js",
    "resolve-order/1-file",
    "resolve-order/2-dir.json",
    "resolve-order/2-dir/index.js",
    "resolve-order/2-file.js",
    "resolve-order/3-dir/index.js",
    "resolve-order/3-file.json",
    "resolve-order/4-dir/index.json",
    "resolve/dir-js/index.js",
    "resolve/dir-json/index.json",
    "resolve/dir-mjs/index.mjs",
    "resolve/dotfiles/.js",
    "resolve/dotfiles/.json",
    "resolve/dotfiles/.mjs",
    "resolve/dotfiles/.thing",
    "resolve/dotfiles/.thing-js.js",
    "resolve/dotfiles/.thing-json.json",
    "resolve/dotfiles/.thing-mjs.mjs",
    "resolve/dotfiles/mod-js/.thing-js.js",
    "resolve/dotfiles/mod-json/.thing-json.json",
    "resolve/dotfiles/mod-mjs/.thing-mjs.mjs",
    "resolve/dotfiles/mod-noext/.thing",
    "resolve/external.js",
    "resolve/file-and-dir.js",
    "resolve/file-and-dir/index.js",
    "resolve/file-and-mod.js",
    "resolve/file-and-mod/main.js",
    "resolve/mod-js-dir-bare/main-js/index.js",
    "resolve/mod-js-dir-rel/main-js/index.js",
    "resolve/mod-js-ext-bare/main-js.js",
    "resolve/mod-js-ext-rel/main-js.js",
    "resolve/mod-js-noext-bare/main-js.js",
    "resolve/mod-js-noext-rel/main-js.js",
    "resolve/mod-js-slash-bare/main.js",
    "resolve/mod-js-slash-rel/main.js",
    "resolve/mod-json-dir-bare/main-json/index.json",
    "resolve/mod-json-dir-rel/main-json/index.json",
    "resolve/mod-json-ext-bare/main-json.json",
    "resolve/mod-json-ext-rel/main-json.json",
    "resolve/mod-json-noext-bare/main-json.json",
    "resolve/mod-json-noext-rel/main-json.json",
    "resolve/mod-main-nesting-bare/subdir/index.js",
    "resolve/mod-main-nesting-bare/subdir/inner-main.js",
    "resolve/mod-main-nesting-rel/subdir/index.js",
    "resolve/mod-main-nesting-rel/subdir/inner-main.js",
    "resolve/mod-mjs-dir-bare/main-mjs/index.mjs",
    "resolve/mod-mjs-dir-rel/main-mjs/index.mjs",
    "resolve/mod-mjs-ext-bare/main-mjs.mjs",
    "resolve/mod-mjs-ext-rel/main-mjs.mjs",
    "resolve/mod-mjs-noext-bare/main-mjs.mjs",
    "resolve/mod-mjs-noext-rel/main-mjs.mjs",
    "resolve/mod-noext-bare/main-noext",
    "resolve/mod-noext-rel/main-noext",
    "resolve/mod-outer/index.js",
    "resolve/mod-outer/main.js",
    "resolve/mod-self-noslash/index.js",
    "resolve/mod-self-slash/index.js",
    "resolve/named-js.js",
    "resolve/named-json.json",
    "resolve/named-jsz.jsz",
    "resolve/named-mjs.mjs",
    "resolve/named-noext",
    "resolve/node_modules/@user/scoped/index.js",
    "resolve/node_modules/deep/dir1/dir2/dir3/d-dir-js/index.js",
    "resolve/node_modules/deep/dir1/dir2/dir3/d-dir-json/index.json",
    "resolve/node_modules/deep/dir1/dir2/dir3/d-dir-mjs/index.mjs",
    "resolve/node_modules/deep/dir1/dir2/dir3/d-file-and-dir.js",
    "resolve/node_modules/deep/dir1/dir2/dir3/d-file-and-dir/index.js",
    "resolve/node_modules/deep/dir1/dir2/dir3/d-file-and-mod.js",
    "resolve/node_modules/deep/dir1/dir2/dir3/d-file-and-mod/main.js",
    "resolve/node_modules/deep/dir1/dir2/dir3/d-mod-js-dir-bare/main-js/index.js",
    "resolve/node_modules/deep/dir1/dir2/dir3/d-mod-js-dir-rel/main-js/index.js",
    "resolve/node_modules/deep/dir1/dir2/dir3/d-mod-js-ext-bare/main-js.js",
    "resolve/node_modules/deep/dir1/dir2/dir3/d-mod-js-ext-rel/main-js.js",
    "resolve/node_modules/deep/dir1/dir2/dir3/d-mod-js-noext-bare/main-js.js",
    "resolve/node_modules/deep/dir1/dir2/dir3/d-mod-js-noext-rel/main-js.js",
    "resolve/node_modules/deep/dir1/dir2/dir3/d-mod-js-slash-bare/main.js",
    "resolve/node_modules/deep/dir1/dir2/dir3/d-mod-js-slash-rel/main.js",
    "resolve/node_modules/deep/dir1/dir2/dir3/d-mod-json-dir-bare/main-json/index.json",
    "resolve/node_modules/deep/dir1/dir2/dir3/d-mod-json-dir-rel/main-json/index.json",
    "resolve/node_modules/deep/dir1/dir2/dir3/d-mod-json-ext-bare/main-json.json",
    "resolve/node_modules/deep/dir1/dir2/dir3/d-mod-json-ext-rel/main-json.json",
    "resolve/node_modules/deep/dir1/dir2/dir3/d-mod-json-noext-bare/main-json.json",
    "resolve/node_modules/deep/dir1/dir2/dir3/d-mod-json-noext-rel/main-json.json",
    "resolve/node_modules/deep/dir1/dir2/dir3/d-mod-main-nesting-bare/subdir/index.js",
    "resolve/node_modules/deep/dir1/dir2/dir3/d-mod-main-nesting-bare/subdir/inner-main.js",
    "resolve/node_modules/deep/dir1/dir2/dir3/d-mod-main-nesting-rel/subdir/index.js",
    "resolve/node_modules/deep/dir1/dir2/dir3/d-mod-main-nesting-rel/subdir/inner-main.js",
    "resolve/node_modules/deep/dir1/dir2/dir3/d-mod-mjs-dir-bare/main-mjs/index.mjs",
    "resolve/node_modules/deep/dir1/dir2/dir3/d-mod-mjs-dir-rel/main-mjs/index.mjs",
    "resolve/node_modules/deep/dir1/dir2/dir3/d-mod-mjs-ext-bare/main-mjs.mjs",
    "resolve/node_modules/deep/dir1/dir2/dir3/d-mod-mjs-ext-rel/main-mjs.mjs",
    "resolve/node_modules/deep/dir1/dir2/dir3/d-mod-mjs-noext-bare/main-mjs.mjs",
    "resolve/node_modules/deep/dir1/dir2/dir3/d-mod-mjs-noext-rel/main-mjs.mjs",
    "resolve/node_modules/deep/dir1/dir2/dir3/d-mod-noext-bare/main-noext",
    "resolve/node_modules/deep/dir1/dir2/dir3/d-mod-noext-rel/main-noext",
    "resolve/node_modules/deep/dir1/dir2/dir3/d-named-js.js",
    "resolve/node_modules/deep/dir1/dir2/dir3/d-named-json.json",
    "resolve/node_modules/deep/dir1/dir2/dir3/d-named-jsz.jsz",
    "resolve/node_modules/deep/dir1/dir2/dir3/d-named-mjs.mjs",
    "resolve/node_modules/deep/dir1/dir2/dir3/d-named-noext",
    "resolve/node_modules/external/file.js",
    "resolve/node_modules/external/index.js",
    "resolve/node_modules/external/subdir/index.js",
    "resolve/node_modules/n-dir-js/index.js",
    "resolve/node_modules/n-dir-json/index.json",
    "resolve/node_modules/n-dir-mjs/index.mjs",
    "resolve/node_modules/n-file-and-dir.js",
    "resolve/node_modules/n-file-and-dir/index.js",
    "resolve/node_modules/n-file-and-mod.js",
    "resolve/node_modules/n-file-and-mod/main.js",
    "resolve/node_modules/n-mod-js-dir-bare/main-js/index.js",
    "resolve/node_modules/n-mod-js-dir-rel/main-js/index.js",
    "resolve/node_modules/n-mod-js-ext-bare/main-js.js",
    "resolve/node_modules/n-mod-js-ext-rel/main-js.js",
    "resolve/node_modules/n-mod-js-noext-bare/main-js.js",
    "resolve/node_modules/n-mod-js-noext-rel/main-js.js",
    "resolve/node_modules/n-mod-js-slash-bare/main.js",
    "resolve/node_modules/n-mod-js-slash-rel/main.js",
    "resolve/node_modules/n-mod-json-dir-bare/main-json/index.json",
    "resolve/node_modules/n-mod-json-dir-rel/main-json/index.json",
    "resolve/node_modules/n-mod-json-ext-bare/main-json.json",
    "resolve/node_modules/n-mod-json-ext-rel/main-json.json",
    "resolve/node_modules/n-mod-json-noext-bare/main-json.json",
    "resolve/node_modules/n-mod-json-noext-rel/main-json.json",
    "resolve/node_modules/n-mod-main-nesting-bare/subdir/index.js",
    "resolve/node_modules/n-mod-main-nesting-bare/subdir/inner-main.js",
    "resolve/node_modules/n-mod-main-nesting-rel/subdir/index.js",
    "resolve/node_modules/n-mod-main-nesting-rel/subdir/inner-main.js",
    "resolve/node_modules/n-mod-mjs-dir-bare/main-mjs/index.mjs",
    "resolve/node_modules/n-mod-mjs-dir-rel/main-mjs/index.mjs",
    "resolve/node_modules/n-mod-mjs-ext-bare/main-mjs.mjs",
    "resolve/node_modules/n-mod-mjs-ext-rel/main-mjs.mjs",
    "resolve/node_modules/n-mod-mjs-noext-bare/main-mjs.mjs",
    "resolve/node_modules/n-mod-mjs-noext-rel/main-mjs.mjs",
    "resolve/node_modules/n-mod-noext-bare/main-noext",
    "resolve/node_modules/n-mod-noext-rel/main-noext",
    "resolve/node_modules/n-named-js.js",
    "resolve/node_modules/n-named-json.json",
    "resolve/node_modules/n-named-jsz.jsz",
    "resolve/node_modules/n-named-mjs.mjs",
    "resolve/node_modules/n-named-noext",
    "resolve/node_modules/shadowed/index.js",
    "resolve/node_modules/shallow/s-dir-js/index.js",
    "resolve/node_modules/shallow/s-dir-json/index.json",
    "resolve/node_modules/shallow/s-dir-mjs/index.mjs",
    "resolve/node_modules/shallow/s-file-and-dir.js",
    "resolve/node_modules/shallow/s-file-and-dir/index.js",
    "resolve/node_modules/shallow/s-file-and-mod.js",
    "resolve/node_modules/shallow/s-file-and-mod/main.js",
    "resolve/node_modules/shallow/s-mod-js-dir-bare/main-js/index.js",
    "resolve/node_modules/shallow/s-mod-js-dir-rel/main-js/index.js",
    "resolve/node_modules/shallow/s-mod-js-ext-bare/main-js.js",
    "resolve/node_modules/shallow/s-mod-js-ext-rel/main-js.js",
    "resolve/node_modules/shallow/s-mod-js-noext-bare/main-js.js",
    "resolve/node_modules/shallow/s-mod-js-noext-rel/main-js.js",
    "resolve/node_modules/shallow/s-mod-js-slash-bare/main.js",
    "resolve/node_modules/shallow/s-mod-js-slash-rel/main.js",
    "resolve/node_modules/shallow/s-mod-json-dir-bare/main-json/index.json",
    "resolve/node_modules/shallow/s-mod-json-dir-rel/main-json/index.json",
    "resolve/node_modules/shallow/s-mod-json-ext-bare/main-json.json",
    "resolve/node_modules/shallow/s-mod-json-ext-rel/main-json.json",
    "resolve/node_modules/shallow/s-mod-json-noext-bare/main-json.json",
    "resolve/node_modules/shallow/s-mod-json-noext-rel/main-json.json",
    "resolve/node_modules/shallow/s-mod-main-nesting-bare/subdir/index.js",
    "resolve/node_modules/shallow/s-mod-main-nesting-bare/subdir/inner-main.js",
    "resolve/node_modules/shallow/s-mod-main-nesting-rel/subdir/index.js",
    "resolve/node_modules/shallow/s-mod-main-nesting-rel/subdir/inner-main.js",
    "resolve/node_modules/shallow/s-mod-mjs-dir-bare/main-mjs/index.mjs",
    "resolve/node_modules/shallow/s-mod-mjs-dir-rel/main-mjs/index.mjs",
    "resolve/node_modules/shallow/s-mod-mjs-ext-bare/main-mjs.mjs",
    "resolve/node_modules/shallow/s-mod-mjs-ext-rel/main-mjs.mjs",
    "resolve/node_modules/shallow/s-mod-mjs-noext-bare/main-mjs.mjs",
    "resolve/node_modules/shallow/s-mod-mjs-noext-rel/main-mjs.mjs",
    "resolve/node_modules/shallow/s-mod-noext-bare/main-noext",
    "resolve/node_modules/shallow/s-mod-noext-rel/main-noext",
    "resolve/node_modules/shallow/s-named-js.js",
    "resolve/node_modules/shallow/s-named-json.json",
    "resolve/node_modules/shallow/s-named-jsz.jsz",
    "resolve/node_modules/shallow/s-named-mjs.mjs",
    "resolve/node_modules/shallow/s-named-noext",
    "resolve/subdir/node_modules/shadowed/index.js",
    "resolve/subdir/subdir2/node_modules/shadowed/index.js",
    "resolve/unicode/.js",
];

const MANIFESTS: &[(&str, &str)] = &[
    ("browser/alternate-files-main-bare/package.json", r#"{"main": "./main-default.js", "browser": {"main-default.js": "main-browser.js"}}"#),
    ("browser/alternate-files-main-rel/package.json", r#"{"main": "main-default.js", "browser": {"./main-default.js": "./main-browser.js"}}"#),
    ("browser/alternate-files/package.json", r#"{"browser": {"./file-from-rel-ext-to-rel-ext-default.js": "./file-from-rel-ext-to-rel-ext-browser.js", "./file-from-rel-ext-to-rel-noext-default.js": "./file-from-rel-ext-to-rel-noext-browser", "./file-from-rel-ext-to-rel-slash-default.js": "./file-from-rel-ext-to-rel-slash-browser/", "./file-from-rel-ext-to-bare-ext-default.js": "file-from-rel-ext-to-bare-ext-browser.js", "./file-from-rel-ext-to-bare-noext-default.js": "file-from-rel-ext-to-bare-noext-browser", "./file-from-rel-ext-to-bare-slash-default.js": "file-from-rel-ext-to-bare-slash-browser/", "./file-from-rel-noext-to-rel-ext-default": "./file-from-rel-noext-to-rel-ext-browser.js", "./file-from-rel-noext-to-rel-noext-default": "./file-from-rel-noext-to-rel-noext-browser", "./file-from-rel-noext-to-rel-slash-default": "./file-from-rel-noext-to-rel-slash-browser/", "./file-from-rel-noext-to-bare-ext-default": "file-from-rel-noext-to-bare-ext-browser.js", "./file-from-rel-noext-to-bare-noext-default": "file-from-rel-noext-to-bare-noext-browser", "./file-from-rel-noext-to-bare-slash-default": "file-from-rel-noext-to-bare-slash-browser/", "./file-from-rel-slash-to-rel-ext-default/": "./file-from-rel-slash-to-rel-ext-browser.js", "./file-from-rel-slash-to-rel-noext-default/": "./file-from-rel-slash-to-rel-noext-browser", "./file-from-rel-slash-to-rel-slash-default/": "./file-from-rel-slash-to-rel-slash-browser/", "./file-from-rel-slash-to-bare-ext-default/": "file-from-rel-slash-to-bare-ext-browser.js", "./file-from-rel-slash-to-bare-noext-default/": "file-from-rel-slash-to-bare-noext-browser", "./file-from-rel-slash-to-bare-slash-default/": "file-from-rel-slash-to-bare-slash-browser/", "file-from-bare-ext-to-rel-ext-default.js": "./file-from-bare-ext-to-rel-ext-browser.js", "file-from-bare-ext-to-rel-noext-default.js": "./file-from-bare-ext-to-rel-noext-browser", "file-from-bare-ext-to-rel-slash-default.js": "./file-from-bare-ext-to-rel-slash-browser/", "file-from-bare-ext-to-bare-ext-default.js": "file-from-bare-ext-to-bare-ext-browser.js", "file-from-bare-ext-to-bare-noext-default.js": "file-from-bare-ext-to-bare-noext-browser", "file-from-bare-ext-to-bare-slash-default.js": "file-from-bare-ext-to-bare-slash-browser/", "file-from-bare-noext-to-rel-ext-default": "./file-from-bare-noext-to-rel-ext-browser.js", "file-from-bare-noext-to-rel-noext-default": "./file-from-bare-noext-to-rel-noext-browser", "file-from-bare-noext-to-rel-slash-default": "./file-from-bare-noext-to-rel-slash-browser/", "file-from-bare-noext-to-bare-ext-default": "file-from-bare-noext-to-bare-ext-browser.js", "file-from-bare-noext-to-bare-noext-default": "file-from-bare-noext-to-bare-noext-browser", "file-from-bare-noext-to-bare-slash-default": "file-from-bare-noext-to-bare-slash-browser/", "file-from-bare-slash-to-rel-ext-default/": "./file-from-bare-slash-to-rel-ext-browser.js", "file-from-bare-slash-to-rel-noext-default/": "./file-from-bare-slash-to-rel-noext-browser", "file-from-bare-slash-to-rel-slash-default/": "./file-from-bare-slash-to-rel-slash-browser/", "file-from-bare-slash-to-bare-ext-default/": "file-from-bare-slash-to-bare-ext-browser.js", "file-from-bare-slash-to-bare-noext-default/": "file-from-bare-slash-to-bare-noext-browser", "file-from-bare-slash-to-bare-slash-default/": "file-from-bare-slash-to-bare-slash-browser/"}}"#),
    ("browser/alternate-main-bare/package.json", r#"{"main": "main-default.js", "browser": "main-browser.js"}"#),
    ("browser/alternate-main-index-bare/package.json", r#"{"browser": "index-browser.js"}"#),
    ("browser/alternate-main-index-rel/package.json", r#"{"browser": "./index-browser.js"}"#),
    ("browser/alternate-main-rel/package.json", r#"{"main": "./main-default.js", "browser": "./main-browser.js"}"#),
    ("browser/alternate-main-subdir-bare/package.json", r#"{"main": "default/main.js", "browser": "browser/main.js"}"#),
    ("browser/alternate-main-subdir-rel/package.json", r#"{"main": "./default/main.js", "browser": "./browser/main.js"}"#),
    ("browser/ignore-files/package.json", r#"{"browser": {"file-bare-noext": false, "file-bare-ext.js": false, "./file-rel-noext": false, "./file-rel-ext.js": false}}"#),
    ("browser/node_modules/n-alternate-files-main-bare/package.json", r#"{"main": "./main-default.js", "browser": {"main-default.js": "main-browser.js"}}"#),
    ("browser/node_modules/n-alternate-files-main-rel/package.json", r#"{"main": "main-default.js", "browser": {"./main-default.js": "./main-browser.js"}}"#),
    ("browser/node_modules/n-alternate-files/package.json", r#"{"browser": {"./file-from-rel-ext-to-rel-ext-default.js": "./file-from-rel-ext-to-rel-ext-browser.js", "./file-from-rel-ext-to-rel-noext-default.js": "./file-from-rel-ext-to-rel-noext-browser", "./file-from-rel-ext-to-rel-slash-default.js": "./file-from-rel-ext-to-rel-slash-browser/", "./file-from-rel-ext-to-bare-ext-default.js": "file-from-rel-ext-to-bare-ext-browser.js", "./file-from-rel-ext-to-bare-noext-default.js": "file-from-rel-ext-to-bare-noext-browser", "./file-from-rel-ext-to-bare-slash-default.js": "file-from-rel-ext-to-bare-slash-browser/", "./file-from-rel-noext-to-rel-ext-default": "./file-from-rel-noext-to-rel-ext-browser.js", "./file-from-rel-noext-to-rel-noext-default": "./file-from-rel-noext-to-rel-noext-browser", "./file-from-rel-noext-to-rel-slash-default": "./file-from-rel-noext-to-rel-slash-browser/", "./file-from-rel-noext-to-bare-ext-default": "file-from-rel-noext-to-bare-ext-browser.js", "./file-from-rel-noext-to-bare-noext-default": "file-from-rel-noext-to-bare-noext-browser", "./file-from-rel-noext-to-bare-slash-default": "file-from-rel-noext-to-bare-slash-browser/", "./file-from-rel-slash-to-rel-ext-default/": "./file-from-rel-slash-to-rel-ext-browser.js", "./file-from-rel-slash-to-rel-noext-default/": "./file-from-rel-slash-to-rel-noext-browser", "./file-from-rel-slash-to-rel-slash-default/": "./file-from-rel-slash-to-rel-slash-browser/", "./file-from-rel-slash-to-bare-ext-default/": "file-from-rel-slash-to-bare-ext-browser.js", "./file-from-rel-slash-to-bare-noext-default/": "file-from-rel-slash-to-bare-noext-browser", "./file-from-rel-slash-to-bare-slash-default/": "file-from-rel-slash-to-bare-slash-browser/", "file-from-bare-ext-to-rel-ext-default.js": "./file-from-bare-ext-to-rel-ext-browser.js", "file-from-bare-ext-to-rel-noext-default.js": "./file-from-bare-ext-to-rel-noext-browser", "file-from-bare-ext-to-rel-slash-default.js": "./file-from-bare-ext-to-rel-slash-browser/", "file-from-bare-ext-to-bare-ext-default.js": "file-from-bare-ext-to-bare-ext-browser.js", "file-from-bare-ext-to-bare-noext-default.js": "file-from-bare-ext-to-bare-noext-browser", "file-from-bare-ext-to-bare-slash-default.js": "file-from-bare-ext-to-bare-slash-browser/", "file-from-bare-noext-to-rel-ext-default": "./file-from-bare-noext-to-rel-ext-browser.js", "file-from-bare-noext-to-rel-noext-default": "./file-from-bare-noext-to-rel-noext-browser", "file-from-bare-noext-to-rel-slash-default": "./file-from-bare-noext-to-rel-slash-browser/", "file-from-bare-noext-to-bare-ext-default": "file-from-bare-noext-to-bare-ext-browser.js", "file-from-bare-noext-to-bare-noext-default": "file-from-bare-noext-to-bare-noext-browser", "file-from-bare-noext-to-bare-slash-default": "file-from-bare-noext-to-bare-slash-browser/", "file-from-bare-slash-to-rel-ext-default/": "./file-from-bare-slash-to-rel-ext-browser.js", "file-from-bare-slash-to-rel-noext-default/": "./file-from-bare-slash-to-rel-noext-browser", "file-from-bare-slash-to-rel-slash-default/": "./file-from-bare-slash-to-rel-slash-browser/", "file-from-bare-slash-to-bare-ext-default/": "file-from-bare-slash-to-bare-ext-browser.js", "file-from-bare-slash-to-bare-noext-default/": "file-from-bare-slash-to-bare-noext-browser", "file-from-bare-slash-to-bare-slash-default/": "file-from-bare-slash-to-bare-slash-browser/"}}"#),
    ("browser/node_modules/n-alternate-main-bare/package.json", r#"{"main": "main-default.js", "browser": "main-browser.js"}"#),
    ("browser/node_modules/n-alternate-main-index-bare/package.json", r#"{"browser": "index-browser.js"}"#),
    ("browser/node_modules/n-alternate-main-index-rel/package.json", r#"{"browser": "./index-browser.js"}"#),
    ("browser/node_modules/n-alternate-main-rel/package.json", r#"{"main": "./main-default.js", "browser": "./main-browser.js"}"#),
    ("browser/node_modules/n-alternate-main-subdir-bare/package.json", r#"{"main": "default/main.js", "browser": "browser/main.js"}"#),
    ("browser/node_modules/n-alternate-main-subdir-rel/package.json", r#"{"main": "./default/main.js", "browser": "./browser/main.js"}"#),
    ("resolve/dotfiles/mod-js/package.json", r#"{"main": ".thing-js"}"#),
    ("resolve/dotfiles/mod-json/package.json", r#"{"main": ".thing-json"}"#),
    ("resolve/dotfiles/mod-mjs/package.json", r#"{"main": ".thing-mjs"}"#),
    ("resolve/dotfiles/mod-noext/package.json", r#"{"main": ".thing"}"#),
    ("resolve/file-and-dir/submod/package.json", r#"{"main": "../../file-and-dir"}"#),
    ("resolve/file-and-mod/package.json", r#"{"main": "main.js"}"#),
    ("resolve/file-and-mod/submod/package.json", r#"{"main": "../../file-and-mod"}"#),
    ("resolve/mod-js-dir-bare/package.json", r#"{"main": "main-js"}"#),
    ("resolve/mod-js-dir-rel/package.json", r#"{"main": "./main-js"}"#),
    ("resolve/mod-js-ext-bare/package.json", r#"{"main": "main-js.js"}"#),
    ("resolve/mod-js-ext-rel/package.json", r#"{"main": "./main-js.js"}"#),
    ("resolve/mod-js-noext-bare/package.json", r#"{"main": "main-js"}"#),
    ("resolve/mod-js-noext-rel/package.json", r#"{"main": "./main-js"}"#),
    ("resolve/mod-js-slash-bare/package.json", r#"{"main": "main/"}"#),
    ("resolve/mod-js-slash-rel/package.json", r#"{"main": "./main/"}"#),
    ("resolve/mod-json-dir-bare/package.json", r#"{"main": "main-json"}"#),
    ("resolve/mod-json-dir-rel/package.json", r#"{"main": "./main-json"}"#),
    ("resolve/mod-json-ext-bare/package.json", r#"{"main": "main-json.json"}"#),
    ("resolve/mod-json-ext-rel/package.json", r#"{"main": "./main-json.json"}"#),
    ("resolve/mod-json-noext-bare/package.json", r#"{"main": "main-json"}"#),
    ("resolve/mod-json-noext-rel/package.json", r#"{"main": "./main-json"}"#),
    ("resolve/mod-main-nesting-bare/package.json", r#"{"main": "subdir"}"#),
    ("resolve/mod-main-nesting-bare/subdir/package.json", r#"{"main": "inner-main.js"}"#),
    ("resolve/mod-main-nesting-rel/package.json", r#"{"main": "./subdir"}"#),
    ("resolve/mod-main-nesting-rel/subdir/package.json", r#"{"main": "./inner-main.js"}"#),
    ("resolve/mod-mjs-dir-bare/package.json", r#"{"main": "main-mjs"}"#),
    ("resolve/mod-mjs-dir-rel/package.json", r#"{"main": "./main-mjs"}"#),
    ("resolve/mod-mjs-ext-bare/package.json", r#"{"main": "main-mjs.mjs"}"#),
    ("resolve/mod-mjs-ext-rel/package.json", r#"{"main": "./main-mjs.mjs"}"#),
    ("resolve/mod-mjs-noext-bare/package.json", r#"{"main": "main-mjs"}"#),
    ("resolve/mod-mjs-noext-rel/package.json", r#"{"main": "./main-mjs"}"#),
    ("resolve/mod-noext-bare/package.json", r#"{"main": "main-noext"}"#),
    ("resolve/mod-noext-rel/package.json", r#"{"main": "./main-noext"}"#),
    ("resolve/mod-outer/mod-parent-noslash/package.json", r#"{"main": ".."}"#),
    ("resolve/mod-outer/mod-parent-slash/package.json", r#"{"main": "../"}"#),
    ("resolve/mod-outer/package.json", r#"{"main": "main.js"}"#),
    ("resolve/mod-self-noslash/package.json", r#"{"main": "."}"#),
    ("resolve/mod-self-slash/package.json", r#"{"main": "./"}"#),
    ("resolve/node_modules/deep/dir1/dir2/dir3/d-file-and-mod/package.json", r#"{"main": "main.js"}"#),
    ("resolve/node_modules/deep/dir1/dir2/dir3/d-mod-js-dir-bare/package.json", r#"{"main": "main-js"}"#),
    ("resolve/node_modules/deep/dir1/dir2/dir3/d-mod-js-dir-rel/package.json", r#"{"main": "./main-js"}"#),
    ("resolve/node_modules/deep/dir1/dir2/dir3/d-mod-js-ext-bare/package.json", r#"{"main": "main-js.js"}"#),
    ("resolve/node_modules/deep/dir1/dir2/dir3/d-mod-js-ext-rel/package.json", r#"{"main": "./main-js.js"}"#),
    ("resolve/node_modules/deep/dir1/dir2/dir3/d-mod-js-noext-bare/package.json", r#"{"main": "main-js"}"#),
    ("resolve/node_modules/deep/dir1/dir2/dir3/d-mod-js-noext-rel/package.json", r#"{"main": "./main-js"}"#),
    ("resolve/node_modules/deep/dir1/dir2/dir3/d-mod-js-slash-bare/package.json", r#"{"main": "main/"}"#),
    ("resolve/node_modules/deep/dir1/dir2/dir3/d-mod-js-slash-rel/package.json", r#"{"main": "./main/"}"#),
    ("resolve/node_modules/deep/dir1/dir2/dir3/d-mod-json-dir-bare/package.json", r#"{"main": "main-json"}"#),
    ("resolve/node_modules/deep/dir1/dir2/dir3/d-mod-json-dir-rel/package.json", r#"{"main": "./main-json"}"#),
    ("resolve/node_modules/deep/dir1/dir2/dir3/d-mod-json-ext-bare/package.json", r#"{"main": "main-json.json"}"#),
    ("resolve/node_modules/deep/dir1/dir2/dir3/d-mod-json-ext-rel/package.json", r#"{"main": "./main-json.json"}"#),
    ("resolve/node_modules/deep/dir1/dir2/dir3/d-mod-json-noext-bare/package.json", r#"{"main": "main-json"}"#),
    ("resolve/node_modules/deep/dir1/dir2/dir3/d-mod-json-noext-rel/package.json", r#"{"main": "./main-json"}"#),
    ("resolve/node_modules/deep/dir1/dir2/dir3/d-mod-main-nesting-bare/package.json", r#"{"main": "subdir"}"#),
    ("resolve/node_modules/deep/dir1/dir2/dir3/d-mod-main-nesting-bare/subdir/package.json", r#"{"main": "inner-main.js"}"#),
    ("resolve/node_modules/deep/dir1/dir2/dir3/d-mod-main-nesting-rel/package.json", r#"{"main": "./subdir"}"#),
    ("resolve/node_modules/deep/dir1/dir2/dir3/d-mod-main-nesting-rel/subdir/package.json", r#"{"main": "./inner-main.js"}"#),
    ("resolve/node_modules/deep/dir1/dir2/dir3/d-mod-mjs-dir-bare/package.json", r#"{"main": "main-mjs"}"#),
    ("resolve/node_modules/deep/dir1/dir2/dir3/d-mod-mjs-dir-rel/package.json", r#"{"main": "./main-mjs"}"#),
    ("resolve/node_modules/deep/dir1/dir2/dir3/d-mod-mjs-ext-bare/package.json", r#"{"main": "main-mjs.mjs"}"#),
    ("resolve/node_modules/deep/dir1/dir2/dir3/d-mod-mjs-ext-rel/package.json", r#"{"main": "./main-mjs.mjs"}"#),
    ("resolve/node_modules/deep/dir1/dir2/dir3/d-mod-mjs-noext-bare/package.json", r#"{"main": "main-mjs"}"#),
    ("resolve/node_modules/deep/dir1/dir2/dir3/d-mod-mjs-noext-rel/package.json", r#"{"main": "./main-mjs"}"#),
    ("resolve/node_modules/deep/dir1/dir2/dir3/d-mod-noext-bare/package.json", r#"{"main": "main-noext"}"#),
    ("resolve/node_modules/deep/dir1/dir2/dir3/d-mod-noext-rel/package.json", r#"{"main": "./main-noext"}"#),
    ("resolve/node_modules/n-file-and-mod/package.json", r#"{"main": "main.js"}"#),
    ("resolve/node_modules/n-mod-js-dir-bare/package.json", r#"{"main": "main-js"}"#),
    ("resolve/node_modules/n-mod-js-dir-rel/package.json", r#"{"main": "./main-js"}"#),
    ("resolve/node_modules/n-mod-js-ext-bare/package.json", r#"{"main": "main-js.js"}"#),
    ("resolve/node_modules/n-mod-js-ext-rel/package.json", r#"{"main": "./main-js.js"}"#),
    ("resolve/node_modules/n-mod-js-noext-bare/package.json", r#"{"main": "main-js"}"#),
    ("resolve/node_modules/n-mod-js-noext-rel/package.json", r#"{"main": "./main-js"}"#),
    ("resolve/node_modules/n-mod-js-slash-bare/package.json", r#"{"main": "main/"}"#),
    ("resolve/node_modules/n-mod-js-slash-rel/package.json", r#"{"main": "./main/"}"#),
    ("resolve/node_modules/n-mod-json-dir-bare/package.json", r#"{"main": "main-json"}"#),
    ("resolve/node_modules/n-mod-json-dir-rel/package.json", r#"{"main": "./main-json"}"#),
    ("resolve/node_modules/n-mod-json-ext-bare/package.json", r#"{"main": "main-json.json"}"#),
    ("resolve/node_modules/n-mod-json-ext-rel/package.json", r#"{"main": "./main-json.json"}"#),
    ("resolve/node_modules/n-mod-json-noext-bare/package.json", r#"{"main": "main-json"}"#),
    ("resolve/node_modules/n-mod-json-noext-rel/package.json", r#"{"main": "./main-json"}"#),
    ("resolve/node_modules/n-mod-main-nesting-bare/package.json", r#"{"main": "subdir"}"#),
    ("resolve/node_modules/n-mod-main-nesting-bare/subdir/package.json", r#"{"main": "inner-main.js"}"#),
    ("resolve/node_modules/n-mod-main-nesting-rel/package.json", r#"{"main": "./subdir"}"#),
    ("resolve/node_modules/n-mod-main-nesting-rel/subdir/package.json", r#"{"main": "./inner-main.js"}"#),
    ("resolve/node_modules/n-mod-mjs-dir-bare/package.json", r#"{"main": "main-mjs"}"#),
    ("resolve/node_modules/n-mod-mjs-dir-rel/package.json", r#"{"main": "./main-mjs"}"#),
    ("resolve/node_modules/n-mod-mjs-ext-bare/package.json", r#"{"main": "main-mjs.mjs"}"#),
    ("resolve/node_modules/n-mod-mjs-ext-rel/package.json", r#"{"main": "./main-mjs.mjs"}"#),
    ("resolve/node_modules/n-mod-mjs-noext-bare/package.json", r#"{"main": "main-mjs"}"#),
    ("resolve/node_modules/n-mod-mjs-noext-rel/package.json", r#"{"main": "./main-mjs"}"#),
    ("resolve/node_modules/n-mod-noext-bare/package.json", r#"{"main": "main-noext"}"#),
    ("resolve/node_modules/n-mod-noext-rel/package.json", r#"{"main": "./main-noext"}"#),
    ("resolve/node_modules/shallow/s-file-and-mod/package.json", r#"{"main": "main.js"}"#),
    ("resolve/node_modules/shallow/s-mod-js-dir-bare/package.json", r#"{"main": "main-js"}"#),
    ("resolve/node_modules/shallow/s-mod-js-dir-rel/package.json", r#"{"main": "./main-js"}"#),
    ("resolve/node_modules/shallow/s-mod-js-ext-bare/package.json", r#"{"main": "main-js.js"}"#),
    ("resolve/node_modules/shallow/s-mod-js-ext-rel/package.json", r#"{"main": "./main-js.js"}"#),
    ("resolve/node_modules/shallow/s-mod-js-noext-bare/package.json", r#"{"main": "main-js"}"#),
    ("resolve/node_modules/shallow/s-mod-js-noext-rel/package.json", r#"{"main": "./main-js"}"#),
    ("resolve/node_modules/shallow/s-mod-js-slash-bare/package.json", r#"{"main": "main/"}"#),
    ("resolve/node_modules/shallow/s-mod-js-slash-rel/package.json", r#"{"main": "./main/"}"#),
    ("resolve/node_modules/shallow/s-mod-json-dir-bare/package.json", r#"{"main": "main-json"}"#),
    ("resolve/node_modules/shallow/s-mod-json-dir-rel/package.json", r#"{"main": "./main-json"}"#),
    ("resolve/node_modules/shallow/s-mod-json-ext-bare/package.json", r#"{"main": "main-json.json"}"#),
    ("resolve/node_modules/shallow/s-mod-json-ext-rel/package.json", r#"{"main": "./main-json.json"}"#),
    ("resolve/node_modules/shallow/s-mod-json-noext-bare/package.json", r#"{"main": "main-json"}"#),
    ("resolve/node_modules/shallow/s-mod-json-noext-rel/package.json", r#"{"main": "./main-json"}"#),
    ("resolve/node_modules/shallow/s-mod-main-nesting-bare/package.json", r#"{"main": "subdir"}"#),
    ("resolve/node_modules/shallow/s-mod-main-nesting-bare/subdir/package.json", r#"{"main": "inner-main.js"}"#),
    ("resolve/node_modules/shallow/s-mod-main-nesting-rel/package.json", r#"{"main": "./subdir"}"#),
    ("resolve/node_modules/shallow/s-mod-main-nesting-rel/subdir/package.json", r#"{"main": "./inner-main.js"}"#),
    ("resolve/node_modules/shallow/s-mod-mjs-dir-bare/package.json", r#"{"main": "main-mjs"}"#),
    ("resolve/node_modules/shallow/s-mod-mjs-dir-rel/package.json", r#"{"main": "./main-mjs"}"#),
    ("resolve/node_modules/shallow/s-mod-mjs-ext-bare/package.json", r#"{"main": "main-mjs.mjs"}"#),
    ("resolve/node_modules/shallow/s-mod-mjs-ext-rel/package.json", r#"{"main": "./main-mjs.mjs"}"#),
    ("resolve/node_modules/shallow/s-mod-mjs-noext-bare/package.json", r#"{"main": "main-mjs"}"#),
    ("resolve/node_modules/shallow/s-mod-mjs-noext-rel/package.json", r#"{"main": "./main-mjs"}"#),
    ("resolve/node_modules/shallow/s-mod-noext-bare/package.json", r#"{"main": "main-noext"}"#),
    ("resolve/node_modules/shallow/s-mod-noext-rel/package.json", r#"{"main": "./main-noext"}"#),
    ("resolve/unicode/package.json", r#"{"main": "./.js"}"#),
];

fn fixture_path() -> String {
    BASE.to_owned()
}

fn fixtures() -> FileTree {
    let mut tree = FileTree::new();
    for file in FILES {
        tree.add_file(&format!("{}/{}", BASE, file));
    }
    for (file, text) in MANIFESTS {
        tree.add_text(&format!("{}/{}", BASE, file), text);
    }
    tree
}

fn assert_resolves(context: &str, from: &str, to: Resolution, input_options: &InputOptions) {
    let tree = fixtures();
    assert!(
        resolves_in(&tree, &fixture_path(), context, from, to, input_options),
        "{} from {} does not resolve to {:?}",
        from,
        context,
        to
    );
}

fn report(tree: &FileTree, table: &[Case]) {
    for case in table {
        let to = match case.2 {
            Kind::Y => Y(case.3),
            Kind::Ignore => Ignore,
            Kind::External => External,
            Kind::Fail => Fail,
        };
        let options = InputOptions {
            for_browser: case.5,
            es6_syntax: case.4,
            es6_syntax_everywhere: false,
            external: Default::default(),
        };
        if !resolves_in(tree, BASE, case.0, case.1, to, &options) {
            let mut resolver = Resolver::new(options.clone(), tree);
            let mut context = fixture_path();
            append_resolving(&mut context, case.0);
            println!("{:?}: got {:?}", case, resolver.resolve(&context, case.1));
        }
    }
}

#[test]
fn test_resolve_path_or_module() {
    fn path_resolves(from: &str, to: Option<&str>, input_options: &InputOptions) {
        let base_path = fixture_path();
        let to_path = to.map(|to| {
            let mut to_path = base_path.clone();
            append_resolving(&mut to_path, to);
            to_path
        });
        let mut from_path = base_path;
        append_resolving(&mut from_path, from);

        let tree = fixtures();
        let mut resolver = Resolver::new(input_options.clone(), &tree);
        let expected = to_path.map(Resolved::Normal);
        // resolves with an empty cache...
        assert_eq!(resolver.resolve_path_or_module(&from_path, false, false).unwrap(), expected);
        // ...and with everything cached
        assert_eq!(resolver.resolve_path_or_module(&from_path, false, false).unwrap(), expected);
    }
    let cjs = InputOptions {
        for_browser: false,
        es6_syntax: false,
        es6_syntax_everywhere: false,
        external: Default::default(),
    };
    let esm = InputOptions {
        for_browser: false,
        es6_syntax: true,
        es6_syntax_everywhere: false,
        external: Default::default(),
    };
    path_resolves("resolve/named-noext",
             Some("resolve/named-noext"), &cjs);
    path_resolves("resolve/named-js.js",
             Some("resolve/named-js.js"), &cjs);
    path_resolves("resolve/named-json.json",
             Some("resolve/named-json.json"), &cjs);
    path_resolves("resolve/named-mjs.mjs",
             Some("resolve/named-mjs.mjs"), &esm);
    path_resolves("resolve/named-jsz.jsz",
             Some("resolve/named-jsz.jsz"), &cjs);

    path_resolves("resolve/named-js",
             Some("resolve/named-js.js"), &cjs);
    path_resolves("resolve/named-json",
             Some("resolve/named-json.json"), &cjs);
    path_resolves("resolve/named-mjs",
             Some("resolve/named-mjs.mjs"), &esm);

    path_resolves("resolve/dir-js",
             Some("resolve/dir-js/index.js"), &cjs);
    path_resolves("resolve/dir-js/index",
             Some("resolve/dir-js/index.js"), &cjs);
    path_resolves("resolve/dir-json",
             Some("resolve/dir-json/index.json"), &cjs);
    path_resolves("resolve/dir-json/index",
             Some("resolve/dir-json/index.json"), &cjs);
    path_resolves("resolve/dir-mjs",
             Some("resolve/dir-mjs/index.mjs"), &esm);
    path_resolves("resolve/dir-mjs/index",
             Some("resolve/dir-mjs/index.mjs"), &esm);

    path_resolves("resolve/mod-noext-bare",
             Some("resolve/mod-noext-bare/main-noext"), &cjs);
    path_resolves("resolve/mod-noext-rel",
             Some("resolve/mod-noext-rel/main-noext"), &cjs);

    path_resolves("resolve/mod-main-nesting-bare",
             Some("resolve/mod-main-nesting-bare/subdir/index.js"), &cjs);
    path_resolves("resolve/mod-main-nesting-bare/subdir",
             Some("resolve/mod-main-nesting-bare/subdir/inner-main.js"), &cjs);
    path_resolves("resolve/mod-main-nesting-rel",
             Some("resolve/mod-main-nesting-rel/subdir/index.js"), &cjs);
    path_resolves("resolve/mod-main-nesting-rel/subdir",
             Some("resolve/mod-main-nesting-rel/subdir/inner-main.js"), &cjs);

    path_resolves("resolve/mod-js-ext-bare",
             Some("resolve/mod-js-ext-bare/main-js.js"), &cjs);
    path_resolves("resolve/mod-js-ext-rel",
             Some("resolve/mod-js-ext-rel/main-js.js"), &cjs);
    path_resolves("resolve/mod-js-noext-bare",
             Some("resolve/mod-js-noext-bare/main-js.js"), &cjs);
    path_resolves("resolve/mod-js-noext-rel",
             Some("resolve/mod-js-noext-rel/main-js.js"), &cjs);
    path_resolves("resolve/mod-js-dir-bare",
             Some("resolve/mod-js-dir-bare/main-js/index.js"), &cjs);
    path_resolves("resolve/mod-js-dir-rel",
             Some("resolve/mod-js-dir-rel/main-js/index.js"), &cjs);

    path_resolves("resolve/mod-json-ext-bare",
             Some("resolve/mod-json-ext-bare/main-json.json"), &cjs);
    path_resolves("resolve/mod-json-ext-rel",
             Some("resolve/mod-json-ext-rel/main-json.json"), &cjs);
    path_resolves("resolve/mod-json-noext-bare",
             Some("resolve/mod-json-noext-bare/main-json.json"), &cjs);
    path_resolves("resolve/mod-json-noext-rel",
             Some("resolve/mod-json-noext-rel/main-json.json"), &cjs);
    path_resolves("resolve/mod-json-dir-bare",
             Some("resolve/mod-json-dir-bare/main-json/index.json"), &cjs);
    path_resolves("resolve/mod-json-dir-rel",
             Some("resolve/mod-json-dir-rel/main-json/index.json"), &cjs);

    path_resolves("resolve/mod-mjs-ext-bare",
             Some("resolve/mod-mjs-ext-bare/main-mjs.mjs"), &esm);
    path_resolves("resolve/mod-mjs-ext-rel",
             Some("resolve/mod-mjs-ext-rel/main-mjs.mjs"), &esm);
    path_resolves("resolve/mod-mjs-noext-bare",
             Some("resolve/mod-mjs-noext-bare/main-mjs.mjs"), &esm);
    path_resolves("resolve/mod-mjs-noext-rel",
             Some("resolve/mod-mjs-noext-rel/main-mjs.mjs"), &esm);
    path_resolves("resolve/mod-mjs-dir-bare",
             Some("resolve/mod-mjs-dir-bare/main-mjs/index.mjs"), &esm);
    path_resolves("resolve/mod-mjs-dir-rel",
             Some("resolve/mod-mjs-dir-rel/main-mjs/index.mjs"), &esm);

    path_resolves("resolve/named-jsz", None, &cjs);
}

#[test]
fn test_resolve() {
    let tree = fixtures();
    report(&tree, &RESOLVE_RELATIVE);
    report(&tree, &RESOLVE_FURTHER);
    assert!(test_resolve_with(&tree, &fixture_path()));
}

#[test]
fn test_resolve_unicode() {
    let tree = fixtures();
    report(&tree, &RESOLVE_UNICODE);
    assert!(test_resolve_unicode_with(&tree, &fixture_path()));
}

#[test]
fn test_browser() {
    let tree = fixtures();
    report(&tree, &BROWSER);
    assert!(test_browser_with(&tree, &fixture_path()));
}

#[test]
fn test_external() {
    let ext = InputOptions {
        for_browser: false,
        es6_syntax: false,
        es6_syntax_everywhere: false,
        external: vec![
            "external".to_owned(),
            "external-only-module".to_owned(),
        ],
    };
    let non = InputOptions {
        for_browser: false,
        es6_syntax: false,
        es6_syntax_everywhere: false,
        external: Default::default(),
    };

    let ctx = "resolve/hypothetical.js";
    assert_resolves(ctx, "external", External, &ext);
    assert_resolves(ctx, "external/", External, &ext);
    assert_resolves(ctx, "external/file.js", External, &ext);
    assert_resolves(ctx, "external/file", External, &ext);
    assert_resolves(ctx, "external/subdir", External, &ext);
    assert_resolves(ctx, "external/subdir/", External, &ext);
    assert_resolves(ctx, "external/subdir/index.js", External, &ext);
    assert_resolves(ctx, "./external",
                 Y("resolve/external.js"), &ext);

    assert_resolves(ctx, "./external",
                 Y("resolve/external.js"), &non);
    assert_resolves(ctx,       "external",
        Y("resolve/node_modules/external/index.js"), &non);
    assert_resolves(ctx,       "external/",
        Y("resolve/node_modules/external/index.js"), &non);
    assert_resolves(ctx,       "external/file.js",
        Y("resolve/node_modules/external/file.js"), &non);
    assert_resolves(ctx,       "external/file",
        Y("resolve/node_modules/external/file.js"), &non);
    assert_resolves(ctx,       "external/subdir",
        Y("resolve/node_modules/external/subdir/index.js"), &non);
    assert_resolves(ctx,       "external/subdir/index",
        Y("resolve/node_modules/external/subdir/index.js"), &non);
    assert_resolves(ctx,       "external/subdir/index.js",
        Y("resolve/node_modules/external/subdir/index.js"), &non);
}

fn plain() -> InputOptions {
    InputOptions::default()
}

fn browser() -> InputOptions {
    InputOptions { for_browser: true, ..InputOptions::default() }
}

fn tree_of(files: &[&str], texts: &[(&str, &str)]) -> FileTree {
    let mut tree = FileTree::new();
    for file in files {
        tree.add_file(file);
    }
    for (file, text) in texts {
        tree.add_text(file, text);
    }
    tree
}

#[test]
fn a_relative_specifier() {
    assert_resolves("resolve/hypothetical.js", "./dir-js", Y("resolve/dir-js/index.js"), &plain());
}

#[test]
fn the_nearest_module_shadows_the_others() {
    assert_resolves(
        "resolve/subdir/hypothetical.js",
        "shadowed",
        Y("resolve/subdir/node_modules/shadowed/index.js"),
        &plain(),
    );
}

#[test]
fn a_browser_main() {
    let ctx = "browser/hypothetical.js";
    assert_resolves(ctx, "./alternate-main-rel", Y("browser/alternate-main-rel/main-browser.js"), &browser());
    assert_resolves(ctx, "./alternate-main-rel", Y("browser/alternate-main-rel/main-default.js"), &plain());
}

#[test]
fn an_ignored_file() {
    let ctx = "browser/hypothetical.js";
    assert_resolves(ctx, "./ignore-files/file-bare-noext", Ignore, &browser());
    assert_resolves(
        ctx,
        "./ignore-files/file-bare-noext.js",
        Y("browser/ignore-files/file-bare-noext.js"),
        &browser(),
    );
}

#[test]
fn a_scoped_external_package() {
    let options = InputOptions { external: vec!["@user/scoped".to_owned()], ..InputOptions::default() };
    let ctx = "resolve/hypothetical.js";
    assert_resolves(ctx, "@user/scoped", External, &options);
    assert_resolves(ctx, "@user/scoped/index.js", External, &options);
    assert_resolves(ctx, "@user/other", Fail, &options);
    assert_resolves(ctx, "shadowed", Y("resolve/node_modules/shadowed/index.js"), &options);
}

#[test]
fn names_beyond_ascii() {
    let tree = tree_of(&["/p/unicode/\u{1D306}.js", "/p/\u{e9}t\u{e9}/index.json"], &[]);
    let mut resolver = Resolver::new(plain(), &tree);
    assert_eq!(
        resolver.resolve("/p/hypothetical.js", "./unicode/\u{1D306}"),
        Ok(Resolved::Normal("/p/unicode/\u{1D306}.js".to_owned()))
    );
    assert_eq!(
        resolver.resolve("/p/hypothetical.js", "./\u{e9}t\u{e9}"),
        Ok(Resolved::Normal("/p/\u{e9}t\u{e9}/index.json".to_owned()))
    );
}

#[test]
fn nothing_found() {
    let tree = tree_of(&["/p/a.js"], &[]);
    let mut resolver = Resolver::new(plain(), &tree);
    assert_eq!(
        resolver.resolve("/p/a.js", "./b"),
        Err(ResolveError::ResolveFailed { context: "/p/a.js".to_owned(), specifier: "./b".to_owned() })
    );
    assert_eq!(
        resolver.resolve("/p/a.js", "b"),
        Err(ResolveError::ResolveFailed { context: "/p/a.js".to_owned(), specifier: "b".to_owned() })
    );
    assert_eq!(
        resolver.resolve("/p/a.js", ""),
        Err(ResolveError::ResolveFailed { context: "/p/a.js".to_owned(), specifier: "".to_owned() })
    );
    assert_eq!(resolver.resolve_path_or_module("/p/b", false, false), Ok(None));
}

#[test]
fn a_manifest_that_is_refused() {
    let tree = tree_of(
        &["/p/a.js", "/p/lib/index.js", "/p/lib.js"],
        &[("/p/lib/package.json", r#"{"browser": 1}"#), ("/p/bad/package.json", "{")],
    );
    let mut resolver = Resolver::new(plain(), &tree);
    // the file is found before the manifest is read
    assert_eq!(resolver.resolve("/p/a.js", "./lib"), Ok(Resolved::Normal("/p/lib.js".to_owned())));
    assert_eq!(
        resolver.resolve("/p/a.js", "./lib/"),
        Err(ResolveError::ManifestMalformed {
            path: "/p/lib/package.json".to_owned(),
            reason: ManifestFault::Browser,
        })
    );
    assert_eq!(
        resolver.resolve("/p/a.js", "./bad"),
        Err(ResolveError::ManifestMalformed {
            path: "/p/bad/package.json".to_owned(),
            reason: ManifestFault::Syntax,
        })
    );
    // and again, now that the manifests are kept
    assert_eq!(
        resolver.resolve("/p/a.js", "./bad"),
        Err(ResolveError::ManifestMalformed {
            path: "/p/bad/package.json".to_owned(),
            reason: ManifestFault::Syntax,
        })
    );
}

#[test]
fn a_manifest_that_cannot_be_read() {
    let mut tree = tree_of(&["/p/a.js", "/p/lib/index.js"], &[]);
    tree.add_unreadable("/p/lib/package.json");
    let mut resolver = Resolver::new(plain(), &tree);
    assert_eq!(
        resolver.resolve("/p/a.js", "./lib"),
        Err(ResolveError::Io { path: "/p/lib/package.json".to_owned() })
    );
    assert_eq!(
        resolver.resolve("/p/a.js", "./lib/index"),
        Ok(Resolved::Normal("/p/lib/index.js".to_owned()))
    );
    // substitutions look at the manifests above a file
    let mut resolver = Resolver::new(browser(), &tree);
    assert_eq!(
        resolver.resolve("/p/a.js", "./lib/index"),
        Err(ResolveError::Io { path: "/p/lib/package.json".to_owned() })
    );
}

#[test]
fn a_later_file_replaces_an_earlier_one() {
    let mut tree = FileTree::new();
    tree.add_text("/p/lib/package.json", r#"{"main": "one.js"}"#);
    tree.add_file("/p/lib/one.js");
    tree.add_file("/p/lib/two.js");
    tree.add_text("/p/lib/../lib/./package.json", r#"{"main": "two.js"}"#);
    let mut resolver = Resolver::new(plain(), &tree);
    assert_eq!(resolver.resolve("/p/a.js", "./lib"), Ok(Resolved::Normal("/p/lib/two.js".to_owned())));
}

#[test]
fn a_file_behind_a_link_is_named_by_where_it_is() {
    let mut tree = tree_of(&["/p/a.js"], &[]);
    tree.add_alias("/p/node_modules/x/package.json", "/store/x/package.json", r#"{"main": "lib"}"#);
    tree.add_alias("/p/node_modules/x/lib.js", "/store/x/lib.js", "");
    tree.add_alias("/p/node_modules/x/other.json", "/store/x/other.json", "");
    let mut resolver = Resolver::new(plain(), &tree);
    assert_eq!(resolver.resolve("/p/a.js", "x"), Ok(Resolved::Normal("/store/x/lib.js".to_owned())));
    assert_eq!(resolver.resolve("/p/a.js", "x/lib.js"), Ok(Resolved::Normal("/store/x/lib.js".to_owned())));
    assert_eq!(resolver.resolve("/p/a.js", "x/other"), Ok(Resolved::Normal("/store/x/other.json".to_owned())));
    let mut resolver = Resolver::new(browser(), &tree);
    assert_eq!(resolver.resolve("/p/a.js", "x"), Ok(Resolved::Normal("/store/x/lib.js".to_owned())));
    // the files are found where the links are, not where they lead
    assert_eq!(
        resolver.resolve("/store/x/lib.js", "./other"),
        Err(ResolveError::ResolveFailed { context: "/store/x/lib.js".to_owned(), specifier: "./other".to_owned() })
    );
}

#[test]
fn what_is_kept_changes_no_answer() {
    let tree = fixtures();
    let mut warm = Resolver::new(browser(), &tree);
    let questions = [
        ("browser/hypothetical.js", "./alternate-files/file-from-rel-ext-to-bare-ext-default"),
        ("browser/alternate-files/hypothetical.js", "./file-from-bare-noext-to-rel-slash-default/"),
        ("browser/hypothetical.js", "n-alternate-main-index-rel"),
        ("resolve/hypothetical.js", "deep/dir1/dir2/dir3/d-mod-js-dir-rel"),
        ("resolve/hypothetical.js", "./named-jsz"),
    ];
    for _ in 0..3 {
        for (context, name) in questions {
            let mut context_path = fixture_path();
            append_resolving(&mut context_path, context);
            let mut cold = Resolver::new(browser(), &tree);
            assert_eq!(cold.resolve(&context_path, name), warm.resolve(&context_path, name));
        }
    }
}

#[test]
fn a_replacement_is_not_replaced_again() {
    let tree = tree_of(
        &["/p/a.js", "/p/b.js", "/p/c.js", "/p/main.js"],
        &[("/p/package.json", r#"{"browser": {"./a.js": "./b.js", "./b.js": "./c.js", "x": "./a.js", "y": false}}"#)],
    );
    let mut resolver = Resolver::new(browser(), &tree);
    assert_eq!(resolver.resolve("/p/main.js", "./a"), Ok(Resolved::Normal("/p/b.js".to_owned())));
    assert_eq!(resolver.resolve("/p/main.js", "./b"), Ok(Resolved::Normal("/p/c.js".to_owned())));
    assert_eq!(resolver.resolve("/p/main.js", "x"), Ok(Resolved::Normal("/p/a.js".to_owned())));
    assert_eq!(resolver.resolve("/p/main.js", "y"), Ok(Resolved::Ignore));
    assert_eq!(resolver.resolve_path_or_module("/p/a", false, true), Ok(Some(Resolved::Normal("/p/a.js".to_owned()))));
    assert_eq!(resolver.resolve_path_or_module("/p/a", false, false), Ok(Some(Resolved::Normal("/p/b.js".to_owned()))));
}

#[test]
fn a_main_is_not_followed_into_a_manifest() {
    let tree = tree_of(
        &["/p/lib/index.js", "/p/lib/inner.js"],
        &[("/p/lib/package.json", r#"{"main": "inner.js"}"#)],
    );
    let mut resolver = Resolver::new(plain(), &tree);
    assert_eq!(resolver.resolve_path_or_module("/p/lib", false, false), Ok(Some(Resolved::Normal("/p/lib/inner.js".to_owned()))));
    assert_eq!(resolver.resolve_path_or_module("/p/lib", true, false), Ok(Some(Resolved::Normal("/p/lib/index.js".to_owned()))));
}

#[test]
fn the_tables_hold_the_cases() {
    assert_eq!(RESOLVE_RELATIVE.len() + 1 + RESOLVE_FURTHER.len(), 431);
    assert_eq!(RESOLVE_UNICODE.len(), 2);
    assert_eq!(BROWSER.len(), 1069);
    let tree = FileTree::new();
    assert!(!test_resolve_with(&tree, BASE));
    assert!(!test_browser_with(&tree, BASE));
    assert!(!test_resolve_unicode_with(&tree, BASE));
    assert!(resolves_in(&tree, BASE, "a.js", "./b", Fail, &plain()));
    assert!(!resolves_in(&tree, BASE, "a.js", "./b", Ignore, &plain()));
}
