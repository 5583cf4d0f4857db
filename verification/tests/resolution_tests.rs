use fman::{resolve_destination_path, FmanError};

#[test]
fn test_resolve_file_path_unchanged_if_dst_is_file() {
    let resolved = resolve_destination_path("fman_resolve1.txt", "fman_dest_file.txt", false);
    assert_eq!(resolved.unwrap(), "fman_dest_file.txt");
}

#[test]
fn test_resolve_file_path_joins_if_dst_is_dir() {
    let resolved = resolve_destination_path("fman_resolve2.txt", "fman_dest_dir", true);
    assert_eq!(resolved.unwrap(), "fman_dest_dir/fman_resolve2.txt");
}

#[test]
fn resolving_the_root_against_a_directory_fails() {
    let resolved = resolve_destination_path("/", "fman_dest", true);
    match resolved {
        Err(FmanError::InvalidInput(p)) => assert_eq!(p, "/"),
        other => panic!("expected InvalidInput, got {:?}", other),
    }
}

#[test]
fn resolving_an_empty_source_against_a_directory_fails() {
    let resolved = resolve_destination_path("", "out", true);
    assert!(matches!(resolved, Err(FmanError::InvalidInput(_))));
}

#[test]
fn resolving_a_separators_only_source_against_a_directory_fails() {
    let resolved = resolve_destination_path("///", "out", true);
    assert!(matches!(resolved, Err(FmanError::InvalidInput(_))));
}

#[test]
fn trailing_separators_on_the_source_are_ignored() {
    let resolved = resolve_destination_path("dir/a.txt/", "out", true);
    assert_eq!(resolved.unwrap(), "out/a.txt");
}

#[test]
fn file_name_starts_after_the_last_separator() {
    let resolved = resolve_destination_path("deep/nested//b.txt", "out", true);
    assert_eq!(resolved.unwrap(), "out/b.txt");
}

#[test]
fn joining_keeps_a_single_separator() {
    let with_slash = resolve_destination_path("a.txt", "out/", true);
    assert_eq!(with_slash.unwrap(), "out/a.txt");
    let without_slash = resolve_destination_path("a.txt", "out", true);
    assert_eq!(without_slash.unwrap(), "out/a.txt");
}

#[test]
fn joining_with_an_empty_directory_keeps_the_name_alone() {
    let resolved = resolve_destination_path("a.txt", "", true);
    assert_eq!(resolved.unwrap(), "a.txt");
}

#[test]
fn non_directory_destination_is_verbatim_even_with_trailing_separator() {
    // Resolution goes by the observed filesystem state, not by the shape
    // of the argument: a trailing separator alone does not make the
    // destination a directory.
    let resolved = resolve_destination_path("a.txt", "not_yet_a_dir/", false);
    assert_eq!(resolved.unwrap(), "not_yet_a_dir/");
}
