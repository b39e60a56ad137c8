use rename_rules::matcher::Pattern;
use rename_rules::paths::get_renamed_path;
use rename_rules::rules::{transform, PatternSet};

fn pattern(find: &str, rep: &str) -> Pattern {
    Pattern::new(find, rep).ok().unwrap()
}

#[test]
fn first_match_only_in_banana() {
    let p = pattern("a", "b");
    assert_eq!(p.apply("banana.txt", false), "bbnana.txt");
    assert_eq!(transform("banana.txt", false, &[pattern("a", "b")]), "bbnana.txt");
}

#[test]
fn every_match_in_banana() {
    let p = pattern("a", "b");
    assert_eq!(p.apply("banana.txt", true), "bbnbnb.txt");
}

#[test]
fn extension_rule_renames_notes() {
    assert_eq!(transform("notes.txt", false, &[pattern(r"\.txt$", ".md")]), "notes.md");
}

#[test]
fn no_match_leaves_name() {
    let ps = vec![pattern("zzz", "y"), pattern(r"^\d+$", "n")];
    assert_eq!(transform("report.pdf", false, &ps), "report.pdf");
    assert_eq!(transform("report.pdf", true, &ps), "report.pdf");
}

#[test]
fn capture_groups_expand() {
    let p = pattern(r"(\w+)-(\w+)", "$2-$1");
    assert_eq!(p.apply("left-right.txt", false), "right-left.txt");
}

#[test]
fn missing_group_expands_to_nothing() {
    let p = pattern("a", "[$9]");
    assert_eq!(p.apply("cat", false), "c[]t");
}

#[test]
fn rules_chain_in_order() {
    let a = pattern("a", "b");
    let b = pattern("b", "c");
    let both = vec![pattern("a", "b"), pattern("b", "c")];
    let step = transform("abc", true, &[a]);
    assert_eq!(step, "bbc");
    assert_eq!(transform(&step, true, &[b]), "ccc");
    assert_eq!(transform("abc", true, &both), "ccc");
}

#[test]
fn empty_rule_list_keeps_name() {
    assert_eq!(transform("x.txt", true, &[]), "x.txt");
}

#[test]
fn bad_pattern_is_reported() {
    assert_eq!(Pattern::new("(", "x").err(), Some("(".to_string()));
    let rules = vec![("a".to_string(), "b".to_string()), ("[".to_string(), "c".to_string())];
    assert_eq!(PatternSet::new(&rules, false).err(), Some("[".to_string()));
}

#[test]
fn pattern_set_keeps_rules_and_flag() {
    let rules = vec![("a".to_string(), "b".to_string()), ("b".to_string(), "c".to_string())];
    let set = PatternSet::new(&rules, false).ok().unwrap();
    assert!(!set.replace_all());
    assert_eq!(set.patterns().len(), 2);
    assert_eq!(set.patterns()[1].find(), "b");
    assert_eq!(set.patterns()[1].replacement(), "c");
    assert_eq!(set.transform("aa"), "ca");
}

#[test]
fn renamed_path_keeps_directory() {
    let ps = vec![pattern(r"\.txt$", ".md")];
    assert_eq!(get_renamed_path("docs/notes.txt", false, &ps), Some("docs/notes.md".to_string()));
    assert_eq!(get_renamed_path("notes.txt", false, &ps), Some("notes.md".to_string()));
}

#[test]
fn rules_do_not_touch_directory() {
    let ps = vec![pattern("a", "b")];
    assert_eq!(get_renamed_path("data/a.txt", true, &ps), Some("data/b.txt".to_string()));
}

#[test]
fn path_without_file_name_has_no_target() {
    let ps = vec![pattern("a", "b")];
    assert_eq!(get_renamed_path("dir/..", false, &ps), None);
    assert_eq!(get_renamed_path("/", false, &ps), None);
}
