use youran::config::{Get, Ls, Qr};
use youran::db_path::{expand_tilde, resolve_db_file};
use youran::listing::{aligned_label, list_alignment};

#[test]
fn alignment_of_two_records() {
    let keys = vec![String::from("a"), String::from("hello")];
    let alignment = list_alignment(&keys);
    assert_eq!(alignment, 9);
    let label_a = aligned_label("a", alignment);
    let label_hello = aligned_label("hello", alignment);
    assert_eq!(label_a, "a:       ");
    assert_eq!(label_hello, "hello:   ");
    assert_eq!(label_a.chars().count(), 9);
    assert_eq!(label_hello.chars().count(), 9);
}

#[test]
fn alignment_of_no_records() {
    let keys: Vec<String> = Vec::new();
    assert_eq!(list_alignment(&keys), 4);
}

#[test]
fn alignment_counts_rendered_width() {
    let keys = vec![String::from("😊😊")];
    assert_eq!(list_alignment(&keys), 8);
    assert_eq!(aligned_label("😊😊", 8), "😊😊:   ");
}

#[test]
fn tilde_expansion() {
    assert_eq!(expand_tilde("/a/b", None), Some(String::from("/a/b")));
    assert_eq!(expand_tilde("~", Some("/home/u")), Some(String::from("/home/u")));
    assert_eq!(expand_tilde("~/x/y", Some("/home/u")), Some(String::from("/home/u/x/y")));
    assert_eq!(expand_tilde("~/x", Some("/")), Some(String::from("x")));
    assert_eq!(expand_tilde("~/x", Some("/home/u/")), Some(String::from("/home/u/x")));
    assert_eq!(expand_tilde("~", None), None);
    assert_eq!(expand_tilde("~/x", None), None);
    assert_eq!(expand_tilde("~x", Some("/home/u")), Some(String::from("~x")));
}

#[test]
fn db_file_resolution() {
    assert_eq!(
        resolve_db_file(Some("/tmp/kv.sqlite"), Some("/env/db"), Some("/home/u")),
        Some(String::from("/tmp/kv.sqlite"))
    );
    assert_eq!(
        resolve_db_file(None, Some("~/env.db"), Some("/home/u")),
        Some(String::from("/home/u/env.db"))
    );
    assert_eq!(
        resolve_db_file(None, None, Some("/home/u")),
        Some(String::from("/home/u/.config/youran/db.sqlite"))
    );
    assert_eq!(resolve_db_file(None, None, None), None);
}

#[test]
fn subcommand_payloads() {
    let get = Get { key: String::from("hello") };
    assert_eq!(get.key, "hello");
    let qr = Qr { key: String::from("hello"), output: Some(String::from("code.png")) };
    assert_eq!(qr.output.as_deref(), Some("code.png"));
    let ls = Ls { limit: 10, offset: 0 };
    assert_eq!(ls.limit, 10);
    assert_eq!(ls.offset, 0);
}
