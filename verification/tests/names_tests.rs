use lsr::names::{display_name, is_hidden, sort_names, str_lex_le};

#[test]
fn display_names() {
    assert_eq!(display_name("."), ".");
    assert_eq!(display_name(".."), "..");
    assert_eq!(display_name("/a/b.txt"), "b.txt");
    assert_eq!(display_name("dir/"), "dir");
    assert_eq!(display_name("dir///"), "dir");
    assert_eq!(display_name("plain"), "plain");
    assert_eq!(display_name(".hidden"), ".hidden");
    assert_eq!(display_name("/"), "");
    assert_eq!(display_name(""), "");
    assert_eq!(display_name("a/.."), "");
    assert_eq!(display_name("a/."), "");
}

#[test]
fn hidden_rule() {
    assert!(is_hidden(".bashrc"));
    assert!(is_hidden(".h"));
    assert!(!is_hidden("."));
    assert!(!is_hidden(".."));
    assert!(!is_hidden("visible"));
    assert!(!is_hidden(""));
    assert!(is_hidden("..."));
}

#[test]
fn lexicographic_order() {
    assert!(str_lex_le("a", "b"));
    assert!(!str_lex_le("b", "a"));
    assert!(str_lex_le("a", "a"));
    assert!(str_lex_le("", "a"));
    assert!(str_lex_le("A", "a"));
    assert!(str_lex_le("a10", "a2"));
    assert!(str_lex_le("ab", "abc"));
    assert!(!str_lex_le("abc", "ab"));
}

#[test]
fn sorting_directory_children() {
    let mut v = vec![
        String::from("b"),
        String::from("A"),
        String::from("a10"),
        String::from("a2"),
    ];
    sort_names(&mut v);
    assert_eq!(v, vec!["A", "a10", "a2", "b"]);
}

#[test]
fn sorting_keeps_duplicates() {
    let mut v = vec![
        String::from("x"),
        String::from("a"),
        String::from("x"),
        String::from(""),
    ];
    sort_names(&mut v);
    assert_eq!(v, vec!["", "a", "x", "x"]);
}

#[test]
fn sorting_small_inputs() {
    let mut v: Vec<String> = vec![];
    sort_names(&mut v);
    assert!(v.is_empty());
    let mut v = vec![String::from("solo")];
    sort_names(&mut v);
    assert_eq!(v, vec!["solo"]);
}
