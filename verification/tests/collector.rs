use no_mangle_pub_export_c_fn::SourceEntry;
use no_mangle_pub_export_c_fn::is_rust_source_name;
use no_mangle_pub_export_c_fn::select_rust_sources;

fn entry(file_name: &str, path: &str) -> SourceEntry {
    SourceEntry { file_name: file_name.to_string(), path: path.to_string() }
}

#[test]
fn only_entries_with_the_selected_extension_are_candidates() {
    let entries = vec![
        entry("lib.rs", "src/lib.rs"),
        entry("Cargo.toml", "Cargo.toml"),
        entry("main.rs", "src/main.rs"),
        entry("notes.txt", "src/notes.txt"),
        entry("unused.rs", "src/unused.rs"),
    ];
    let paths = select_rust_sources(&entries);
    assert_eq!(paths, vec!["src/lib.rs", "src/main.rs", "src/unused.rs"]);
}

#[test]
fn selection_goes_by_the_file_name_suffix() {
    assert!(is_rust_source_name("lib.rs"));
    assert!(is_rust_source_name(".rs"));
    assert!(!is_rust_source_name("rs"));
    assert!(!is_rust_source_name("lib.rs.bak"));
    assert!(!is_rust_source_name("librs"));
    assert!(!is_rust_source_name(""));
}

#[test]
fn no_candidates_in_a_walk_without_source_files() {
    let entries = vec![entry("README.md", "README.md"), entry("data.json", "data/data.json")];
    let paths = select_rust_sources(&entries);
    assert!(paths.is_empty());
}
