use html_intake::path::{
    extension, file_name, find_after_last, has_html_extension, is_html_extension, name_extension,
};

fn owned(s: &str) -> Option<String> {
    Some(s.to_string())
}

#[test]
fn after_last_finds_the_last_occurrence() {
    assert_eq!(find_after_last("a/b/c", '/'), 4);
    assert_eq!(find_after_last("abc", '/'), 0);
    assert_eq!(find_after_last("", '/'), 0);
    assert_eq!(find_after_last("/", '/'), 1);
    assert_eq!(find_after_last("abc/", '/'), 4);
    assert_eq!(find_after_last("a.b.c", '.'), 4);
}

#[test]
fn after_last_counts_characters_not_bytes() {
    assert_eq!(find_after_last("é/ü", '/'), 2);
}

#[test]
fn file_name_is_the_final_component() {
    assert_eq!(file_name("/srv/pages/report.html"), owned("report.html"));
    assert_eq!(file_name("report.html"), owned("report.html"));
    assert_eq!(file_name("pages/notes.txt"), owned("notes.txt"));
    assert_eq!(file_name("/srv/pages/.hidden"), owned(".hidden"));
    assert_eq!(file_name("/srv/pages/..."), owned("..."));
}

#[test]
fn file_name_keeps_characters_beyond_ascii() {
    assert_eq!(file_name("/srv/päges/übersicht.html"), owned("übersicht.html"));
}

#[test]
fn file_name_is_absent_for_empty_and_dot_components() {
    assert_eq!(file_name(""), None);
    assert_eq!(file_name("/"), None);
    assert_eq!(file_name("/srv/pages/"), None);
    assert_eq!(file_name("."), None);
    assert_eq!(file_name(".."), None);
    assert_eq!(file_name("/srv/pages/."), None);
    assert_eq!(file_name("/srv/pages/.."), None);
}

#[test]
fn name_extension_follows_the_last_dot() {
    assert_eq!(name_extension("report.html"), owned("html"));
    assert_eq!(name_extension("archive.tar.gz"), owned("gz"));
    assert_eq!(name_extension("report."), owned(""));
    assert_eq!(name_extension("..a"), owned("a"));
    assert_eq!(name_extension("a.html.processed"), owned("processed"));
}

#[test]
fn name_extension_is_absent_without_an_inner_dot() {
    assert_eq!(name_extension("report"), None);
    assert_eq!(name_extension(".html"), None);
    assert_eq!(name_extension(""), None);
}

#[test]
fn extension_reads_only_the_file_name() {
    assert_eq!(extension("/srv/pages/report.html"), owned("html"));
    assert_eq!(extension("/srv/pages.html/report"), None);
    assert_eq!(extension("/srv/pages.html/"), None);
    assert_eq!(extension("/srv/pages/.."), None);
    assert_eq!(extension("/srv/pages/.html"), None);
    assert_eq!(extension("/srv/pages/data.csv"), owned("csv"));
}

#[test]
fn extension_agrees_with_std_on_file_paths() {
    let paths = [
        "/srv/pages/report.html",
        "report.html",
        "/srv/pages/.html",
        "/srv/pages/archive.tar.gz",
        "/srv/pages/report.",
        "/srv/pages.d/report",
        "/srv/pages/..a",
        "/srv/pages/..",
        "relative/dir/Index.XHTML",
    ];
    for p in paths {
        let std_path = std::path::Path::new(p);
        let expected_ext = std_path.extension().and_then(|e| e.to_str()).map(|e| e.to_string());
        let expected_name = std_path.file_name().and_then(|e| e.to_str()).map(|e| e.to_string());
        assert_eq!(extension(p), expected_ext);
        assert_eq!(file_name(p), expected_name);
    }
}

#[test]
fn html_extension_matches_the_end_in_either_case() {
    assert!(is_html_extension("html"));
    assert!(is_html_extension("HTML"));
    assert!(is_html_extension("HtMl"));
    assert!(is_html_extension("xhtml"));
    assert!(is_html_extension("shtml"));
    assert!(is_html_extension("XHTML"));
}

#[test]
fn html_extension_rejects_everything_else() {
    assert!(!is_html_extension(""));
    assert!(!is_html_extension("htm"));
    assert!(!is_html_extension("tml"));
    assert!(!is_html_extension("htmlx"));
    assert!(!is_html_extension("txt"));
    assert!(!is_html_extension("processed"));
    assert!(!is_html_extension("pdf"));
    assert!(!is_html_extension("html "));
}

#[test]
fn has_html_extension_on_paths() {
    assert!(has_html_extension("/srv/pages/report.html"));
    assert!(has_html_extension("/srv/pages/REPORT.HTML"));
    assert!(has_html_extension("/srv/pages/page.xhtml"));
    assert!(!has_html_extension("/srv/pages/notes.txt"));
    assert!(!has_html_extension("/srv/pages/data.csv"));
    assert!(!has_html_extension("/srv/pages/html"));
    assert!(!has_html_extension("/srv/pages/.html"));
    assert!(!has_html_extension("/srv/pages/report.html.processed"));
    assert!(!has_html_extension("/srv/pages.html/"));
    assert!(!has_html_extension(""));
}
