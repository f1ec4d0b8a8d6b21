use yad::text::{find_last, join_path, same_text, text_after_last};

#[test]
fn same_text_tells_equal_from_different() {
    assert!(same_text("", ""));
    assert!(same_text("zip", "zip"));
    assert!(!same_text("zip", "zi"));
    assert!(!same_text("zip", "zap"));
    assert!(!same_text("ZIP", "zip"));
    assert!(same_text("gr\u{fc}\u{df}e", "gr\u{fc}\u{df}e"));
    assert!(!same_text("gr\u{fc}\u{df}e", "grusse"));
}

#[test]
fn find_last_counts_characters() {
    assert_eq!(find_last("", '/'), None);
    assert_eq!(find_last("abc", '/'), None);
    assert_eq!(find_last("/", '/'), Some(0));
    assert_eq!(find_last("a/b/c", '/'), Some(3));
    assert_eq!(find_last("a/b/", '/'), Some(3));
    assert_eq!(find_last("\u{fc}\u{fc}/x", '/'), Some(2));
}

#[test]
fn text_after_last_cuts_behind_the_separator() {
    assert_eq!(text_after_last("https://example.com/archive.zip", '/'), Some("archive.zip"));
    assert_eq!(text_after_last("archive.tar.gz", '.'), Some("gz"));
    assert_eq!(text_after_last("archive", '.'), None);
    assert_eq!(text_after_last("dir/", '/'), Some(""));
    assert_eq!(text_after_last("", '/'), None);
    assert_eq!(text_after_last("caf\u{e9}/men\u{fc}.pdf", '/'), Some("men\u{fc}.pdf"));
}

#[test]
fn join_path_puts_one_separator_between() {
    assert_eq!(join_path("/tmp/root", "Compressed"), "/tmp/root/Compressed");
    assert_eq!(join_path("/tmp/root/", "Compressed"), "/tmp/root/Compressed");
    assert_eq!(join_path("", "Compressed"), "Compressed");
    assert_eq!(join_path("/", "Compressed"), "/Compressed");
    assert_eq!(join_path("/tmp/root", ""), "/tmp/root/");
    assert_eq!(join_path("relative", "x"), "relative/x");
}

#[test]
fn join_path_lets_an_absolute_component_replace_the_base() {
    assert_eq!(join_path("/tmp/root", "/etc"), "/etc");
    assert_eq!(join_path("", "/"), "/");
}

#[test]
fn join_path_agrees_with_the_standard_library() {
    let bases = ["/tmp/root", "/tmp/root/", "", "/", "a", "a/b/"];
    let names = ["Compressed", "", "x.y", "/abs", "with space"];
    for base in bases {
        for name in names {
            let expected = std::path::Path::new(base).join(name);
            assert_eq!(join_path(base, name), expected.to_str().unwrap());
        }
    }
}
