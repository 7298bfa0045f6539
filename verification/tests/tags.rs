use rustdesk_api::db::{delete_ab_tags, is_among, rename_ab_tag};
use rustdesk_api::document::{read_tags, write_tags};

fn row(id: &str, tags: &str) -> (String, String) {
    (id.to_string(), tags.to_string())
}

fn list(names: &[&str]) -> Vec<String> {
    names.iter().map(|s| s.to_string()).collect()
}

fn rename(tags: &str, old: &str, new: &str) -> Vec<(String, String)> {
    rename_ab_tag(vec![row("1", tags)], &old.to_string(), &new.to_string())
}

#[test]
fn tag_lists_read_back_as_written() {
    for tags in [
        list(&[]),
        list(&["a"]),
        list(&["", "a b", "\"quoted\"", "\u{00E4}\u{1F600}", "line\nbreak", "\\"]),
    ] {
        assert_eq!(read_tags(&write_tags(&tags)), tags);
    }
    assert_eq!(write_tags(&list(&["a", "b"])), r#"["a","b"]"#);
    assert_eq!(write_tags(&list(&[])), "[]");
}

#[test]
fn what_is_no_tag_list_reads_as_none() {
    for text in ["", "x", "null", "{}", "[1]", r#"["a",2]"#, r#""a""#, r#"["a""#] {
        assert_eq!(read_tags(text), list(&[]), "{text:?}");
    }
    assert_eq!(read_tags(r#" [ "a" , "b" ] "#), list(&["a", "b"]));
}

#[test]
fn a_rename_replaces_the_name() {
    assert_eq!(rename(r#"["a","b"]"#, "a", "c"), vec![row("1", r#"["c","b"]"#)]);
    assert_eq!(rename(r#"["b","a","d","a"]"#, "a", "c"), vec![row("1", r#"["b","c","d","c"]"#)]);
}

#[test]
fn a_rename_drops_neighbours_alike() {
    assert_eq!(rename(r#"["a","c"]"#, "a", "c"), vec![row("1", r#"["c"]"#)]);
    assert_eq!(rename(r#"["c","a","c"]"#, "a", "c"), vec![row("1", r#"["c"]"#)]);
    // Only what stands side by side is dropped.
    assert_eq!(rename(r#"["c","b","a"]"#, "a", "c"), vec![row("1", r#"["c","b","c"]"#)]);
    // Other repetitions go too, once the list is rewritten.
    assert_eq!(rename(r#"["x","x","a"]"#, "a", "c"), vec![row("1", r#"["x","c"]"#)]);
}

#[test]
fn a_rename_leaves_other_lists_alone() {
    assert_eq!(rename(r#"["b","b"]"#, "a", "c"), vec![]);
    assert_eq!(rename("[]", "a", "c"), vec![]);
    assert_eq!(rename("no list", "a", "c"), vec![]);
    assert_eq!(rename(r#"["A"]"#, "a", "c"), vec![]);
    let peers = vec![row("1", r#"["a"]"#), row("2", r#"["b"]"#), row("3", r#"["b","a"]"#)];
    assert_eq!(
        rename_ab_tag(peers, &"a".to_string(), &"z".to_string()),
        vec![row("1", r#"["z"]"#), row("3", r#"["b","z"]"#)]
    );
}

#[test]
fn a_deletion_strips_the_names() {
    let peers = vec![
        row("1", r#"["a","b","a"]"#),
        row("2", r#"["b"]"#),
        row("3", r#"["c"]"#),
        row("4", "[]"),
        row("5", "broken"),
    ];
    assert_eq!(
        delete_ab_tags(peers, &list(&["a", "c", "z"])),
        vec![row("1", r#"["b"]"#), row("3", "[]")]
    );
}

#[test]
fn a_deletion_of_nothing_writes_nothing() {
    assert_eq!(delete_ab_tags(vec![row("1", r#"["a"]"#)], &list(&[])), vec![]);
    assert_eq!(delete_ab_tags(vec![], &list(&["a"])), vec![]);
}

#[test]
fn membership() {
    assert!(is_among(&list(&["a", "b"]), &"b".to_string()));
    assert!(!is_among(&list(&["a", "b"]), &"B".to_string()));
    assert!(!is_among(&list(&[]), &"".to_string()));
}
