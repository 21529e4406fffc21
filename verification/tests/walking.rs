use textmerger::pattern::PatternFilter;
use textmerger::walk::{expand, FsEntry, FsNode};
use textmerger::strutil::{u64_to_string, ascii_upper, ascii_lower, str_eq};
use textmerger::classify::{classify, extension, extension_raw, file_name, Strategy};
use textmerger::driver::{probe_error, Probe};

fn pats(v: &[&str]) -> Vec<String> {
    v.iter().map(|s| s.to_string()).collect()
}

#[test]
fn hidden_names_always_excluded() {
    let f = PatternFilter::new(&pats(&[]));
    assert!(f.is_excluded(".git"));
    assert!(f.is_excluded(".env"));
    assert!(!f.is_excluded("visible.txt"));
}

#[test]
fn glob_patterns_match_base_names() {
    let f = PatternFilter::new(&pats(&["*.log"]));
    assert!(f.is_excluded("server.log"));
    assert!(!f.is_excluded("server.txt"));
}

#[test]
fn bad_patterns_are_dropped_not_fatal() {
    let f = PatternFilter::new(&pats(&["[", "*.md"]));
    assert!(f.is_excluded("notes.md"));
    assert!(!f.is_excluded("notes.rs"));
}

fn file(name: &str) -> FsEntry {
    FsEntry { name: name.to_string(), node: FsNode::File }
}

fn dir(name: &str, entries: Vec<FsEntry>) -> FsEntry {
    FsEntry { name: name.to_string(), node: FsNode::Dir(entries) }
}

#[test]
fn excluded_directory_prunes_whole_subtree() {
    let tree = FsNode::Dir(vec![
        dir("sub", vec![file("x.txt")]),
        file("y.txt"),
    ]);
    let inputs = vec![("/a".to_string(), tree)];
    let f = PatternFilter::new(&pats(&["sub"]));
    let out = expand(&f, &inputs);
    assert_eq!(out, vec!["/a/y.txt".to_string()]);
}

#[test]
fn hidden_directory_pruned_without_patterns() {
    let tree = FsNode::Dir(vec![
        dir(".cache", vec![file("z.txt")]),
        file("kept.txt"),
    ]);
    let inputs = vec![("base".to_string(), tree)];
    let f = PatternFilter::new(&pats(&[]));
    let out = expand(&f, &inputs);
    assert_eq!(out, vec!["base/kept.txt".to_string()]);
}

#[test]
fn direct_file_filtered_like_walked_ones() {
    let f = PatternFilter::new(&pats(&["*.log"]));
    let inputs = vec![
        ("d/a.log".to_string(), FsNode::File),
        ("d/b.txt".to_string(), FsNode::File),
        ("d/.secret".to_string(), FsNode::File),
    ];
    let out = expand(&f, &inputs);
    assert_eq!(out, vec!["d/b.txt".to_string()]);
}

#[test]
fn expand_preserves_top_level_input_order() {
    let f = PatternFilter::new(&pats(&[]));
    let inputs = vec![
        ("b.txt".to_string(), FsNode::File),
        ("a.txt".to_string(), FsNode::File),
    ];
    let out = expand(&f, &inputs);
    assert_eq!(out, vec!["b.txt".to_string(), "a.txt".to_string()]);
}

#[test]
fn classification_is_by_extension_case_insensitive() {
    assert_eq!(classify("report.PDF"), Strategy::Pdf);
    assert_eq!(classify("nb.ipynb"), Strategy::Notebook);
    assert_eq!(classify("photo.JPG"), Strategy::Media);
    assert_eq!(classify("clip.webm"), Strategy::Media);
    assert_eq!(classify("notes.txt"), Strategy::PlainText);
    assert_eq!(classify("no_extension"), Strategy::PlainText);
    assert_eq!(classify(".hiddenrc"), Strategy::PlainText);
}

#[test]
fn extension_and_file_name_parsing() {
    assert_eq!(file_name("a/b/c.txt"), "c.txt");
    assert_eq!(file_name("plain"), "plain");
    assert_eq!(extension_raw("a/b/c.TXT"), "TXT");
    assert_eq!(extension("a/b/c.TXT"), "txt");
    assert_eq!(extension("a.dir/noext"), "");
    assert_eq!(extension(".gitignore"), "");
}

#[test]
fn probe_errors_name_the_path() {
    assert_eq!(
        probe_error("missing.txt", Probe::Missing),
        Some("File not found: missing.txt".to_string())
    );
    assert_eq!(
        probe_error("somedir", Probe::Directory),
        Some("Is a directory: somedir".to_string())
    );
    assert_eq!(probe_error("ok.txt", Probe::Present), None);
}

#[test]
fn rejection_messages_name_the_path() {
    assert_eq!(
        textmerger::errors::binary_msg("a/b.bin"),
        "Binary file detected: a/b.bin"
    );
    assert_eq!(
        textmerger::errors::too_large_msg("big.txt"),
        "File too large (>10MB): big.txt"
    );
}

#[test]
fn decimal_and_case_helpers() {
    assert_eq!(u64_to_string(0), "0");
    assert_eq!(u64_to_string(1234567890), "1234567890");
    assert_eq!(u64_to_string(u64::MAX), "18446744073709551615");
    assert_eq!(ascii_upper("code"), "CODE");
    assert_eq!(ascii_lower("TXT-9"), "txt-9");
    assert!(str_eq("abc", "abc"));
    assert!(!str_eq("abc", "abd"));
}
