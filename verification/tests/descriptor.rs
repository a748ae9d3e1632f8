//! The `Download` descriptor: constructors, derived file names, builders.

use downloader::download::Download;
use downloader::progress::Progress;
use downloader::verify::Verify;

#[test]
fn new_derives_file_name_from_url() {
    let d = Download::new("https://example.com/files/data.bin");
    assert_eq!(d.urls, vec!["https://example.com/files/data.bin".to_string()]);
    assert_eq!(d.file_name, "data.bin".to_string());
    assert!(d.check_file_name);
    assert!(d.output_path.is_none());
    assert!(d.progress.is_none());
    assert_eq!(d.verify_callback, Verify::Noop);
}

#[test]
fn new_empty_url_has_empty_file_name() {
    let d = Download::new("");
    assert_eq!(d.file_name, String::new());
    assert_eq!(d.urls.len(), 1);
}

#[test]
fn new_unparseable_url_has_empty_file_name() {
    let d = Download::new("not a valid url");
    assert_eq!(d.file_name, String::new());
}

#[test]
fn new_url_without_path_segments_has_empty_file_name() {
    let d = Download::new("mailto:someone@example.com");
    assert_eq!(d.file_name, String::new());
}

#[test]
fn new_url_with_bare_host_has_empty_file_name() {
    let d = Download::new("https://example.com");
    assert_eq!(d.file_name, String::new());
}

#[test]
fn new_with_output_sets_output_path() {
    let d = Download::new_with_output("https://example.com/a/b.txt", "out/b.txt");
    assert_eq!(d.file_name, "b.txt".to_string());
    assert_eq!(d.output_path, Some("out/b.txt".to_string()));
}

#[test]
fn new_mirrored_keeps_all_urls_and_names_from_first() {
    let urls = vec![
        "https://one.example/pkg/tool.tar.gz".to_string(),
        "https://two.example/mirror/tool.tar.gz".to_string(),
    ];
    let d = Download::new_mirrored(&urls);
    assert_eq!(d.urls, urls);
    assert_eq!(d.file_name, "tool.tar.gz".to_string());
}

#[test]
fn new_mirrored_empty_list() {
    let d = Download::new_mirrored(&Vec::new());
    assert_eq!(d.urls.len(), 0);
    assert_eq!(d.file_name, String::new());
}

#[test]
fn file_name_builder_overrides_derived_name() {
    let d = Download::new("https://example.com/files/data.bin").file_name("renamed.bin");
    assert_eq!(d.file_name, "renamed.bin".to_string());
    assert_eq!(d.urls, vec!["https://example.com/files/data.bin".to_string()]);
}

#[test]
fn progress_builder_attaches_sink() {
    let d = Download::new("https://example.com/f.txt").progress(Progress::new(8));
    let p = d.progress.expect("progress sink was attached");
    assert_eq!(p.capacity, 8);
    assert_eq!(p.events.len(), 0);
}

#[test]
fn verify_builder_replaces_callback() {
    let d = Download::new("https://example.com/f.txt").verify(Verify::Reject);
    assert_eq!(d.verify_callback, Verify::Reject);
}

#[test]
fn target_path_prefers_output_path() {
    let d = Download::new_with_output("https://example.com/a/b.txt", "elsewhere/b.txt");
    assert_eq!(d.target_path(), "elsewhere/b.txt".to_string());
    let d2 = Download::new("https://example.com/a/b.txt");
    assert_eq!(d2.target_path(), "b.txt".to_string());
}
