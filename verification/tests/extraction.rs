use textmerger::plain::{sniff_verdict, over_budget, SniffVerdict};
use textmerger::notebook::read_ipynb;
use textmerger::media::{media_summary, read_metadata};
use textmerger::pdf::read_pdf;
use textmerger::render::{render_block, merged_document};
use textmerger::summary::summarize;
use textmerger::session::SessionList;
use textmerger::MAX_TEXT_FILE_BYTES;

#[test]
fn empty_file_succeeds_with_empty_text() {
    let prefix: Vec<u8> = Vec::new();
    assert_eq!(sniff_verdict(&prefix), SniffVerdict::EmptyOk);
}

#[test]
fn binary_prefix_rejected_whatever_the_size() {
    let prefix: Vec<u8> = vec![0x7f, b'E', b'L', b'F', 0x00, 0x01, 0x02];
    assert_eq!(sniff_verdict(&prefix), SniffVerdict::Binary);
}

#[test]
fn text_prefix_goes_on_to_the_size_check() {
    let prefix: Vec<u8> = b"hello world\n".to_vec();
    assert_eq!(sniff_verdict(&prefix), SniffVerdict::CheckSize);
}

#[test]
fn size_budget_is_sharp_at_ten_mib() {
    assert_eq!(MAX_TEXT_FILE_BYTES, 10 * 1024 * 1024);
    assert!(!over_budget(MAX_TEXT_FILE_BYTES));
    assert!(over_budget(MAX_TEXT_FILE_BYTES + 1));
}

#[test]
fn notebook_cell_rendered_with_markers() {
    let json = "{\"cells\":[{\"cell_type\":\"code\",\"source\":[\"x=1\\n\",\"y=2\"]}]}";
    let out = read_ipynb(json, false).unwrap();
    assert_eq!(
        out,
        "-------------------\nBegin Cell 1 - CODE\nx=1\ny=2\nEnd Cell 1 - CODE\n-------------------\n\n"
    );
}

#[test]
fn notebook_outputs_rendered_on_request() {
    let json = "{\"cells\":[{\"cell_type\":\"code\",\"source\":[\"print(1)\\n\"],\
\"outputs\":[{\"text\":[\"1\\n\"]},{\"data\":{\"text/plain\":[\"2\"]}}]}]}";
    let with = read_ipynb(json, true).unwrap();
    assert_eq!(
        with,
        "-------------------\nBegin Cell 1 - CODE\nprint(1)\n\nCell Outputs:\n1\n2\n\
End Cell 1 - CODE\n-------------------\n\n"
    );
    let without = read_ipynb(json, false).unwrap();
    assert_eq!(
        without,
        "-------------------\nBegin Cell 1 - CODE\nprint(1)\nEnd Cell 1 - CODE\n-------------------\n\n"
    );
}

#[test]
fn notebook_shapeless_cell_gets_bare_markers() {
    let json = "{\"cells\":[{\"metadata\":{}}]}";
    let out = read_ipynb(json, true).unwrap();
    assert_eq!(
        out,
        "-------------------\nBegin Cell 1 - UNKNOWN\nEnd Cell 1 - UNKNOWN\n-------------------\n\n"
    );
}

#[test]
fn notebook_malformed_cells_is_empty_not_error() {
    assert_eq!(read_ipynb("{\"cells\":{}}", false).unwrap(), "");
    assert_eq!(read_ipynb("{\"cells\":7}", true).unwrap(), "");
    assert_eq!(read_ipynb("{}", false).unwrap(), "");
}

#[test]
fn notebook_unparseable_text_is_an_error() {
    assert!(read_ipynb("not json at all", false).is_err());
}

#[test]
fn media_summary_filters_tags_to_the_allow_list() {
    let tags: Vec<(Option<String>, String)> = vec![
        (Some("Make".to_string()), "Canon".to_string()),
        (Some("Odd".to_string()), "dropped".to_string()),
        (None, "dropped too".to_string()),
    ];
    let out = media_summary(
        &"dir/clip.mp4".to_string(),
        1234,
        &"video/mp4".to_string(),
        Some((10, 20)),
        &tags,
    );
    assert_eq!(
        out,
        "-------------------\ndir/clip.mp4\n-------------------\n\
Name: clip.mp4 | Size: 1234 bytes | Type: video/mp4\n-------------------\n\n\
Metadata:\nDimensions: 10x20\nMake: Canon\n"
    );
}

#[test]
fn media_summary_degrades_to_header_for_unreadable_file() {
    let out = read_metadata(&"no_dir_here/x.png".to_string(), 7);
    assert_eq!(
        out,
        "-------------------\nno_dir_here/x.png\n-------------------\n\
Name: x.png | Size: 7 bytes | Type: image/png\n-------------------\n\nMetadata:\n"
    );
}

#[test]
fn pdf_extraction_failure_is_an_error() {
    assert!(read_pdf("no_dir_here/missing.pdf").is_err());
}

#[test]
fn rendered_block_escapes_content() {
    let out = render_block(0, &"a.txt".to_string(), &Ok("x<y".to_string()));
    assert_eq!(
        out,
        "<div id='file-0' class='file-header' data-path='a.txt'>\n-------------------\n\
a.txt \n-------------------\n</div>\n<pre><code class='language-txt'>x&lt;y</code></pre>\n<hr/>\n"
    );
}

#[test]
fn rendered_block_escapes_every_documented_character() {
    let out = render_block(2, &"a\"b.txt".to_string(), &Ok("x&y>z<w\"q".to_string()));
    assert_eq!(
        out,
        "<div id='file-2' class='file-header' data-path='a&quot;b.txt'>\n-------------------\n\
a\"b.txt \n-------------------\n</div>\n<pre><code class='language-txt'>\
x&amp;y&gt;z&lt;w\"q</code></pre>\n<hr/>\n"
    );
}

#[test]
fn rendered_error_block_names_path_and_message() {
    let paths = vec!["x".to_string()];
    let outcomes: Vec<Result<String, String>> = vec![Err("boom".to_string())];
    let out = merged_document(&paths, &outcomes);
    assert_eq!(out, "<div class='error'>Error reading x: boom</div>");
}

#[test]
fn merged_document_keeps_input_path_order() {
    let paths = vec!["b.txt".to_string(), "a.txt".to_string()];
    let outcomes: Vec<Result<String, String>> = vec![Ok("B".to_string()), Ok("A".to_string())];
    let merged = merged_document(&paths, &outcomes);
    let b0 = render_block(0, &paths[0], &outcomes[0]);
    let b1 = render_block(1, &paths[1], &outcomes[1]);
    assert_eq!(merged, format!("{}\n{}", b0, b1));
    let pos_b = merged.find("data-path='b.txt'").unwrap();
    let pos_a = merged.find("data-path='a.txt'").unwrap();
    assert!(pos_b < pos_a);
}

#[test]
fn summarize_accounts_for_every_candidate() {
    let items: Vec<(String, u64, Result<String, String>)> = vec![
        ("d/A.TXT".to_string(), 5, Ok("ab".to_string())),
        ("d/bad.bin".to_string(), 9, Err("Binary file detected: d/bad.bin".to_string())),
        ("d/c.md".to_string(), 3, Ok("".to_string())),
    ];
    let s = summarize(&items);
    assert_eq!(s.files.len() + s.errors.len(), items.len());
    assert_eq!(s.files.len(), 2);
    assert_eq!(s.errors, vec!["Binary file detected: d/bad.bin".to_string()]);
    assert_eq!(s.files[0].path, "d/A.TXT");
    assert_eq!(s.files[0].name, "A.TXT");
    assert_eq!(s.files[0].char_count, 2);
    assert_eq!(s.files[0].size_bytes, 5);
    assert_eq!(s.files[0].extension, "TXT");
    assert_eq!(s.files[1].char_count, 0);
}

#[test]
fn session_add_twice_keeps_one_entry() {
    let mut s = SessionList::new();
    s.add("a.txt".to_string());
    s.add("b.txt".to_string());
    s.add("a.txt".to_string());
    assert_eq!(s.list(), vec!["a.txt".to_string(), "b.txt".to_string()]);
}

#[test]
fn session_remove_absent_is_a_no_op() {
    let mut s = SessionList::new();
    s.add("a.txt".to_string());
    s.remove("zzz.txt");
    assert_eq!(s.list(), vec!["a.txt".to_string()]);
    s.remove("a.txt");
    assert_eq!(s.list(), Vec::<String>::new());
}
