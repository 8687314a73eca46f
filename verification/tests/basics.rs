use pax::lines::count_lines;
use pax::vlq::Vlq;

#[test]
fn test_count_lines() {
    assert_eq!(count_lines(""), 1);
    assert_eq!(count_lines("this is a line"), 1);
    assert_eq!(count_lines("this is a line\n"), 2);
    assert_eq!(count_lines("\nthis is a line"), 2);
    assert_eq!(count_lines("\n\n\nthis is a line"), 4);
    assert_eq!(count_lines("this is a line\n\n\n"), 4);
    assert_eq!(count_lines("these\nare\nlines"), 3);
    assert_eq!(count_lines("\r\n"), 2);
    assert_eq!(count_lines("this is a line\r\n"), 2);
    assert_eq!(count_lines("\r\nthis is a line"), 2);
    assert_eq!(count_lines("these\nare\r\nlines"), 3);
}

#[test]
fn test_vlq() {
    // 0000000000000000111111111111111122222222222222223333333333333333
    // 0123456789abcdef0123456789abcdef0123456789abcdef0123456789abcdef
    // ABCDEFGHIJKLMNOPQRSTUVWXYZabcdefghijklmnopqrstuvwxyz0123456789+/
    let mut vlq = Vlq::new();
    assert_eq!(vlq.enc(0), "A");
    assert_eq!(vlq.enc(1), "C");
    assert_eq!(vlq.enc(-1), "D");
    assert_eq!(vlq.enc(5), "K");
    assert_eq!(vlq.enc(-5), "L");
    assert_eq!(vlq.enc(15), "e");
    assert_eq!(vlq.enc(-15), "f");
    assert_eq!(vlq.enc(16), "gB");
    assert_eq!(vlq.enc(1876), "o1D"); // 11 10101 0100
    assert_eq!(vlq.enc(-485223), "v2zd"); // 11101 10011 10110 0111
}


fn base64_value(c: char) -> i64 {
    "ABCDEFGHIJKLMNOPQRSTUVWXYZabcdefghijklmnopqrstuvwxyz0123456789+/"
        .find(c)
        .unwrap() as i64
}

fn vlq_decode(text: &str) -> i64 {
    let mut value: i64 = 0;
    let mut shift = 0;
    for c in text.chars() {
        let v = base64_value(c);
        value += (v & 31) << shift;
        shift += 5;
        if v & 32 == 0 {
            break;
        }
    }
    if value & 1 == 1 {
        -(value >> 1)
    } else {
        value >> 1
    }
}

#[test]
fn vlq_decodes_to_what_was_encoded() {
    let mut vlq = Vlq::new();
    let mut numbers: Vec<i32> = vec![i32::MIN, i32::MIN + 1, i32::MAX, i32::MAX - 1, 31, 32, -32, 1023, 1024];
    for n in -2000..2000 {
        numbers.push(n);
        numbers.push(n * 65537);
    }
    for n in numbers {
        assert_eq!(vlq_decode(&vlq.enc(n)), n as i64, "{}", n);
    }
}

#[test]
fn vlq_of_wide_numbers() {
    let mut vlq = Vlq::new();
    assert_eq!(vlq.enc_wide(0), "A");
    assert_eq!(vlq.enc_wide(-485223), "v2zd");
    assert_eq!(vlq_decode(&vlq.enc_wide(1 << 40)), 1 << 40);
    assert_eq!(vlq_decode(&vlq.enc_wide(-(1 << 40))), -(1 << 40));
}

#[test]
fn a_trailing_line_feed_adds_a_line() {
    for text in ["\n", "a\n", "a\nb\n", "\r\n", "these\nare\r\nlines\n", "\n\n\n"] {
        let without = &text[..text.len() - 1];
        assert_eq!(count_lines(text), count_lines(without) + 1, "{:?}", text);
    }
}

#[test]
fn a_lone_carriage_return_ends_no_line() {
    assert_eq!(count_lines("a\rb"), 1);
    assert_eq!(count_lines("a\r\n\rb"), 2);
}

#[test]
fn append_resolving_walks_by_text_alone() {
    let cases = [
        ("/a/b", "c", "/a/b/c"),
        ("/a/b", "./c", "/a/b/c"),
        ("/a/b", "../c", "/a/c"),
        ("/a/b", "../../../c", "/c"),
        ("/a/b", "/x/y", "/x/y"),
        ("/a/b", "/x/../y/./z/", "/y/z"),
        ("/a//b/", "c//d/", "/a/b/c/d"),
        ("a/b", "../c", "a/c"),
        (".", "simple", "./simple"),
        (".", "./simple", "./simple"),
        (".", "../up", "up"),
        ("", "x", "x"),
        ("/", "..", "/"),
        ("/a", ".", "/a"),
    ];
    for (base, more, want) in cases {
        let mut path = base.to_owned();
        pax::path::append_resolving(&mut path, more);
        assert_eq!(path, want, "{} + {}", base, more);
    }
}

#[test]
fn base64_of_known_texts() {
    let cases = [
        ("", ""),
        ("f", "Zg=="),
        ("fo", "Zm8="),
        ("foo", "Zm9v"),
        ("foob", "Zm9vYg=="),
        ("fooba", "Zm9vYmE="),
        ("foobar", "Zm9vYmFy"),
    ];
    for (text, want) in cases {
        assert_eq!(pax::base64::base64_encode(text.as_bytes()), want);
    }
    assert_eq!(pax::base64::base64_encode(&[0xff, 0xfe, 0xfd]), "//79");
    assert_eq!(pax::base64::base64_encode(&[0xfb, 0xef]), "++8=");
}

#[test]
fn decimal_digits() {
    assert_eq!(pax::text::decimal_text(0), "0");
    assert_eq!(pax::text::decimal_text(7), "7");
    assert_eq!(pax::text::decimal_text(10), "10");
    assert_eq!(pax::text::decimal_text(1234567890), "1234567890");
}

#[test]
fn texts_in_order() {
    assert!(pax::order::stands_before("", ""));
    assert!(pax::order::stands_before("", "a"));
    assert!(!pax::order::stands_before("a", ""));
    assert!(pax::order::stands_before("./a", "a"));
    assert!(pax::order::stands_before("a", "a"));
    assert!(pax::order::stands_before("a", "ab"));
    assert!(!pax::order::stands_before("ab", "a"));
    assert!(pax::order::stands_before("Z", "a"));
    assert!(!pax::order::stands_before("b", "a"));
}

#[test]
fn mappings_of_a_few_lines() {
    assert_eq!(pax::mapping::write_mappings(&vec![]), "");
    assert_eq!(pax::mapping::write_mappings(&vec![(0, 0)]), "AAAA");
    assert_eq!(pax::mapping::write_mappings(&vec![(0, 0), (0, 1), (0, 2)]), "AAAA;AACA;AACA");
    assert_eq!(pax::mapping::write_mappings(&vec![(0, 5), (1, 0), (1, 16)]), "AAKA;ACLA;AAgBA");
}

#[test]
fn a_path_piece_by_piece() {
    let path = pax::path::Parts::parse("//a/./b//../c.d/");
    assert_eq!(path.items, vec!["a", ".", "b", "..", "c.d"]);
    assert_eq!(path.len(), 5);
    assert_eq!(path.get(4), "c.d");
    assert_eq!(path.render(true), "/a/./b/../c.d");
    assert_eq!(path.render(false), "a/./b/../c.d");
    let place = pax::path::Parts::new().applied(&path);
    assert_eq!(place.items, vec!["a", "c.d"]);
    assert_eq!(place.with_ext(".js").render(true), "/a/c.d.js");
    assert_eq!(pax::path::Parts::new().with_ext(".js").render(true), "/.js");
    assert_eq!(place.child("index").render(true), "/a/c.d/index");
    assert_eq!(place.parent().render(true), "/a");
    assert_eq!(pax::path::Parts::new().parent().render(true), "/");
    assert!(place.same(&pax::path::Parts::parse("a/c.d")));
    assert!(!place.same(&pax::path::Parts::parse("a/c")));
    assert!(!place.same(&pax::path::Parts::parse("a")));
    assert!(place.starts_with(&pax::path::Parts::parse("/a")));
    assert!(place.starts_with(&pax::path::Parts::new()));
    assert!(place.starts_with(&place));
    assert!(!place.starts_with(&pax::path::Parts::parse("/b")));
    assert!(!place.starts_with(&pax::path::Parts::parse("/a/c.d/e")));
    assert_eq!(place.skip(1).render(false), "c.d");
    assert_eq!(place.skip(2).render(false), "");
    assert!(pax::path::is_dot(".") && !pax::path::is_dot("..") && !pax::path::is_dot(""));
    assert!(pax::path::is_dot_dot("..") && !pax::path::is_dot_dot(".") && !pax::path::is_dot_dot("..."));
    assert!(pax::path::starts_at_root("/a") && !pax::path::starts_at_root("a/") && !pax::path::starts_at_root(""));
}

#[test]
fn the_files_of_a_tree() {
    let mut tree = pax::tree::FileTree::new();
    let place = pax::path::Parts::parse("/a/b.js");
    assert!(!tree.is_file(&place));
    assert!(tree.find(&place).is_none());
    tree.add_file("/a/x/../b.js");
    assert!(tree.is_file(&place));
    assert_eq!(tree.find(&place).unwrap().text, Some(String::new()));
    assert_eq!(tree.find(&place).unwrap().canonical.render(true), "/a/b.js");
    tree.add_text("/a/b.js", "text");
    assert_eq!(tree.find(&place).unwrap().text, Some("text".to_owned()));
    tree.add_unreadable("a/b.js");
    assert_eq!(tree.find(&place).unwrap().text, None);
    tree.add_alias("/a/b.js", "/store/b/1.0/b.js", "linked");
    assert_eq!(tree.find(&place).unwrap().text, Some("linked".to_owned()));
    assert_eq!(tree.find(&place).unwrap().canonical.render(true), "/store/b/1.0/b.js");
    assert!(tree.is_file(&place));
    assert!(!tree.is_file(&pax::path::Parts::parse("/a")));
    assert!(!tree.is_file(&pax::path::Parts::parse("/store/b/1.0/b.js")));
}

#[test]
fn texts_and_their_characters() {
    assert_eq!(pax::text::chars_of("a\u{e9}\u{1D306}"), vec!['a', '\u{e9}', '\u{1D306}']);
    assert!(pax::text::holds_line_feed("a\nb"));
    assert!(!pax::text::holds_line_feed("a\rb"));
    assert!(!pax::text::holds_line_feed(""));
    assert_eq!(pax::vlq::digit(0), 'A');
    assert_eq!(pax::vlq::digit(25), 'Z');
    assert_eq!(pax::vlq::digit(26), 'a');
    assert_eq!(pax::vlq::digit(51), 'z');
    assert_eq!(pax::vlq::digit(52), '0');
    assert_eq!(pax::vlq::digit(61), '9');
    assert_eq!(pax::vlq::digit(62), '+');
    assert_eq!(pax::vlq::digit(63), '/');
}

#[test]
fn a_page_knows_where_its_lines_come_from() {
    let mut page = pax::sheet::Page::new();
    page.put("head\n", false);
    page.move_to(2);
    page.put("a\nb\n", true);
    page.put("c", true);
    page.put("\ntail\n", false);
    page.finish();
    assert_eq!(page.text, "head\na\nb\nc\ntail\n");
    assert_eq!(page.origins, vec![(0, 0), (2, 0), (2, 1), (2, 2), (2, 2), (2, 2)]);
    assert_eq!(page.origins.len(), count_lines(&page.text));
}
