use tiramisu::address::{assign_folder_id, assign_node_id, hash_file};
use tiramisu::dataset::{Dataset, TiramisuRecord};
use tiramisu::export::export_tables;
use tiramisu::filter::{
    is_blacklisted, jwalk_err_not_found, prune_children, retain_entry, treated_as_dir, IoErrorKind,
    TiramisuError, TiramisuErrorType,
};
use tiramisu::graph::{digest_entry, join, root_record, EntryFacts, EntryKind};
use tiramisu::resolve::{archive_name, canonical_extension, is_sniff_candidate, resolve_extension, sniff_mime, text_eq};
use tiramisu::text::{calculate_depth, change_file_name, decimal_string, file_extension, remove_whitespace};
use tiramisu::window::{checked_sliding_window, sliding_window};

const HI_SHA: &str = "8f434346648f6b96df89dda901c5176b10a6d83961dd3c1ac88b59b2dc327aa4";
const PDF_BYTES: &[u8] = b"%PDF-1.4 test";
const PDF_SHA: &str = "d663640088750cf16276d623c2588d7233f2b84b45f4b2e20832f47b16aa5618";

fn root() -> TiramisuRecord {
    root_record("r", "/data/r", "r")
}

fn dir_entry(name: &str, rel: &str, abs: &str, parent_rel: &str, parent_abs: &str) -> EntryFacts {
    EntryFacts {
        name: name.to_string(),
        rel_path: rel.to_string(),
        original_path: abs.to_string(),
        parent_rel: parent_rel.to_string(),
        parent_abs: parent_abs.to_string(),
        kind: EntryKind::Directory,
        content: Vec::new(),
    }
}

fn file_entry(name: &str, content: &[u8]) -> EntryFacts {
    EntryFacts {
        name: name.to_string(),
        rel_path: format!("r/a/{}", name),
        original_path: format!("/data/r/a/{}", name),
        parent_rel: "r/a".to_string(),
        parent_abs: "/data/r/a".to_string(),
        kind: EntryKind::File,
        content: content.to_vec(),
    }
}

#[test]
fn whitespace_is_removed() {
    let mut s = String::from(" a b\tc\n d\u{3000}");
    remove_whitespace(&mut s);
    assert_eq!(s, "abcd");
}

#[test]
fn decimal_matches_to_string() {
    for n in [0u64, 7, 10, 99, 4294967295, u64::MAX] {
        assert_eq!(decimal_string(n), n.to_string());
    }
}

#[test]
fn depth_counts_ancestors() {
    assert_eq!(calculate_depth("/"), 1);
    assert_eq!(calculate_depth("/data/r"), 3);
    assert_eq!(calculate_depth("/data/r/a/"), 4);
    assert_eq!(calculate_depth("a/b"), 3);
    assert_eq!(calculate_depth(""), 1);
    assert_eq!(calculate_depth("a/./b"), 3);
    assert_eq!(calculate_depth("a/."), 2);
    assert_eq!(calculate_depth("./a"), 3);
    assert_eq!(calculate_depth("/./a"), 2);
    assert_eq!(calculate_depth("a//b/../c"), 5);
}

#[test]
fn extensions_and_renames() {
    assert_eq!(file_extension("report.txt"), "txt");
    assert_eq!(file_extension("a.tar.gz"), "gz");
    assert_eq!(file_extension(".bashrc"), "");
    assert_eq!(file_extension("Makefile"), "");
    assert_eq!(change_file_name("report.txt", "pdf"), "report.pdf");
    assert_eq!(change_file_name("README", "txt"), "README.txt");
    assert_eq!(change_file_name(".bashrc", "sh"), ".bashrc.sh");
}

#[test]
fn content_hash_is_sha256_hex() {
    assert_eq!(hash_file(b"hi"), HI_SHA);
    assert_eq!(hash_file(PDF_BYTES), PDF_SHA);
}

#[test]
fn node_ids_join_checksums() {
    assert_eq!(assign_node_id(HI_SHA, "a/b.txt"), "1771209683+++104748475");
    assert_eq!(assign_node_id("abc", "r"), "891568578+++1812594589");
    assert_eq!(assign_folder_id(4, "r/a"), "4+++2157776015");
}

#[test]
fn node_ids_are_deterministic() {
    assert_eq!(assign_node_id(HI_SHA, "r/a/doc.pdf"), assign_node_id(HI_SHA, "r/a/doc.pdf"));
    assert_eq!(assign_node_id(HI_SHA, "r/a/ doc.pdf"), assign_node_id(HI_SHA, "r/a/doc.pdf"));
    assert_eq!(assign_folder_id(3, "r/a"), assign_folder_id(3, "r/ a"));
}

#[test]
fn node_ids_are_distinct() {
    assert_ne!(assign_node_id(HI_SHA, "ra/b"), assign_node_id(HI_SHA, "r/ab"));
    assert_ne!(assign_node_id(HI_SHA, "r/a/doc.pdf"), assign_node_id(PDF_SHA, "r/a/doc.pdf"));
    assert_ne!(assign_folder_id(3, "r/a"), assign_folder_id(4, "r/a"));
    assert_ne!(assign_folder_id(1, "23+++1"), assign_folder_id(12, "3+++1"));
}

#[test]
fn mime_table_lookups() {
    assert_eq!(canonical_extension("application/pdf"), Some("pdf"));
    assert_eq!(canonical_extension("text/csv"), Some("csv"));
    assert_eq!(canonical_extension("application/x-xz"), Some("tar.xz"));
    assert_eq!(canonical_extension("text/rtf"), Some("rtf"));
    assert_eq!(canonical_extension("application/msword"), None);
    assert!(text_eq("abc", "abc"));
    assert!(!text_eq("abc", "abd"));
}

#[test]
fn extension_correction() {
    assert_eq!(archive_name("report.txt", "txt", "application/pdf"), "report.pdf");
    assert_eq!(archive_name("data.csv", "csv", "text/csv"), "data.csv");
    assert_eq!(archive_name("my report.txt", "txt", "application/pdf"), "myreport.pdf");
    assert_eq!(archive_name("old.doc", "doc", "application/msword"), "old.doc");
    assert_eq!(resolve_extension("docx", "application/zip"), "docx");
    assert_eq!(resolve_extension("zip", "application/zip"), "zip");
    assert_eq!(resolve_extension("bin", "image/png"), "png");
}

#[test]
fn sniffing_reads_signatures() {
    assert_eq!(sniff_mime(PDF_BYTES), Some("application/pdf".to_string()));
    assert_eq!(sniff_mime(&[0x89, 0x50, 0x4E, 0x47, 0x0D, 0x0A, 0x1A, 0x0A]), Some("image/png".to_string()));
    assert_eq!(sniff_mime(b"hi"), None);
    assert!(is_sniff_candidate("pdf"));
    assert!(is_sniff_candidate("doc"));
    assert!(!is_sniff_candidate("txt"));
    assert!(!is_sniff_candidate(""));
}

#[test]
fn blacklist_prunes_exact_directories() {
    let blacklist = vec!["/data/r/a/skip".to_string()];
    assert!(is_blacklisted("/data/r/a/skip", &blacklist));
    assert!(prune_children("/data/r/a/skip", true, &blacklist));
    assert!(!prune_children("/data/r/a/skip", false, &blacklist));
    assert!(!prune_children("/data/r/a/skip2", true, &blacklist));
    assert!(!prune_children("/data/r/a", true, &blacklist));
    assert!(!prune_children("/data/r/a/skip", true, &Vec::new()));
}

#[test]
fn stream_retains_directories_and_extensions() {
    let blacklist = vec!["/data/r/a/skip".to_string()];
    assert!(retain_entry("/data/r/a", "a", true, &blacklist));
    assert!(!retain_entry("/data/r/a/skip", "skip", true, &blacklist));
    assert!(retain_entry("/data/r/a/skip2", "skip2", true, &blacklist));
    assert!(retain_entry("/data/r/a/b.txt", "b.txt", false, &blacklist));
    assert!(!retain_entry("/data/r/Makefile", "Makefile", false, &blacklist));
    assert!(!retain_entry("/data/r/.hidden", ".hidden", false, &blacklist));
}

#[test]
fn walk_errors_are_classified() {
    assert!(jwalk_err_not_found(Some(IoErrorKind::NotFound)).error == TiramisuErrorType::NotFound);
    assert!(jwalk_err_not_found(Some(IoErrorKind::PermissionDenied)).error == TiramisuErrorType::PermissionDenied);
    assert!(jwalk_err_not_found(Some(IoErrorKind::Other)).error == TiramisuErrorType::CatchAll);
    assert!(jwalk_err_not_found(None).error == TiramisuErrorType::CatchAll);
    let denied = TiramisuError { error: TiramisuErrorType::PermissionDenied };
    assert!(!treated_as_dir(Err(denied)));
    assert!(treated_as_dir(Ok(true)));
    assert!(!treated_as_dir(Ok(false)));
}

#[test]
fn root_record_has_sentinel() {
    let r = root();
    assert_eq!(r.name, "r");
    assert_eq!(r.node_id, "3+++1812594589");
    assert_eq!(r.file_hash, "ROOT");
    assert_eq!(r.node_type, "Folder");
    assert_eq!(r.file_extension, "folder");
    assert_eq!(r.tiramisu_path, "/data/r");
}

#[test]
fn folders_and_files_get_one_edge_each() {
    let mut ds = Dataset::new(root());
    let a = dir_entry("a", "r/a", "/data/r/a", "r", "/data/r");
    assert!(digest_entry(&mut ds, &a, "/data/r/.tiramisu/___tiramisu_versions").is_none());
    let doc = file_entry("doc.pdf", PDF_BYTES);
    let copy = digest_entry(&mut ds, &doc, "/v").expect("pdf is kept");
    assert_eq!(ds.folders.len(), 2);
    assert_eq!(ds.files.len(), 1);
    assert_eq!(ds.relationships.len(), 2);
    assert_eq!(ds.folders[1].node_id, "4+++2157776015");
    assert_eq!(ds.folders[1].file_hash, "4");
    assert_eq!(ds.relationships[0].parent, ds.folders[0].node_id);
    assert_eq!(ds.relationships[0].child, ds.folders[1].node_id);
    assert_eq!(ds.relationships[1].parent, ds.folders[1].node_id);
    assert_eq!(ds.relationships[1].child, ds.files[0].node_id);
    assert_eq!(ds.relationships[1].relationship, "CONTAINS");
    let f = &ds.files[0];
    assert_eq!(f.node_id, "775374810+++4047824361");
    assert_eq!(f.file_hash, PDF_SHA);
    assert_eq!(f.name, "doc.pdf");
    assert_eq!(f.tiramisu_path, "/v/775374810+++4047824361/doc.pdf");
    assert_eq!(copy.source, "/data/r/a/doc.pdf");
    assert_eq!(copy.dir, "/v/775374810+++4047824361");
    assert_eq!(copy.file, f.tiramisu_path);
}

#[test]
fn mislabelled_file_is_renamed() {
    let mut ds = Dataset::new(root());
    let scan = file_entry("scan.png", PDF_BYTES);
    let copy = digest_entry(&mut ds, &scan, "/v").expect("png is sniffed");
    assert_eq!(ds.files[0].name, "scan.pdf");
    assert_eq!(ds.files[0].file_extension, "pdf");
    assert!(copy.file.ends_with("/scan.pdf"));
}

#[test]
fn unsniffable_and_unlisted_files_are_skipped() {
    let mut ds = Dataset::new(root());
    assert!(digest_entry(&mut ds, &file_entry("blank.pdf", b"hi"), "/v").is_none());
    assert!(digest_entry(&mut ds, &file_entry("b.txt", b"hi"), "/v").is_none());
    let mut other = file_entry("x.pdf", PDF_BYTES);
    other.kind = EntryKind::Other;
    assert!(digest_entry(&mut ds, &other, "/v").is_none());
    assert_eq!(ds.files.len(), 0);
    assert_eq!(ds.relationships.len(), 0);
}

#[test]
fn end_to_end_scenario() {
    // root r holding a/b.txt ("hi") and the blacklisted a/skip, in walk order
    let blacklist = vec!["/data/r/a/skip".to_string()];
    let mut ds = Dataset::new(root());
    let entries = vec![
        dir_entry("a", "r/a", "/data/r/a", "r", "/data/r"),
        file_entry("b.txt", b"hi"),
        dir_entry("skip", "r/a/skip", "/data/r/a/skip", "r/a", "/data/r/a"),
    ];
    for e in &entries {
        let is_dir = e.kind == EntryKind::Directory;
        if retain_entry(&e.original_path, &e.name, is_dir, &blacklist) {
            digest_entry(&mut ds, e, "/v");
        }
    }
    assert_eq!(ds.folders.len(), 2);
    assert_eq!(ds.folders[0].original_path, "/data/r");
    assert_eq!(ds.folders[0].file_hash, "ROOT");
    assert_eq!(ds.folders[0].node_type, "Folder");
    assert_eq!(ds.folders[1].original_path, "/data/r/a");
    assert_eq!(ds.folders[1].name, "a");
    assert_eq!(ds.folders[1].node_type, "Folder");
    assert_eq!(hash_file(b"hi"), HI_SHA);
    // a .txt file is not one whose type is sniffed, so b.txt gets no record
    assert_eq!(ds.files.len(), 0);
    assert!(ds.folders.iter().all(|r| !r.original_path.starts_with("/data/r/a/skip")));
    let skip_id = assign_folder_id(calculate_depth("/data/r/a/skip"), "r/a/skip");
    assert!(ds.relationships.iter().all(|r| r.child != skip_id && r.parent != skip_id));
    assert_eq!(ds.relationships.len(), 1);
}

#[test]
fn tables_have_headers_and_rows() {
    let mut ds = Dataset::new(root());
    digest_entry(&mut ds, &dir_entry("a", "r/a", "/data/r/a", "r", "/data/r"), "/v");
    digest_entry(&mut ds, &file_entry("doc.pdf", PDF_BYTES), "/v");
    let t = export_tables(&ds, false);
    let files = String::from_utf8(t.files).unwrap();
    let folders = String::from_utf8(t.folders).unwrap();
    let rels = String::from_utf8(t.relationships).unwrap();
    assert!(files.starts_with("Name,NodeID,TiramisuPath,OriginalPath,FileExtension,NodeType,FileHash\n"));
    assert_eq!(files.lines().count(), 2);
    assert_eq!(folders.lines().count(), 3);
    assert_eq!(rels, "Relationship,Parent,Child\nCONTAINS,3+++1812594589,4+++2157776015\nCONTAINS,4+++2157776015,775374810+++4047824361\n");
    let skipped = export_tables(&ds, true);
    assert_eq!(String::from_utf8(skipped.folders).unwrap().lines().count(), 2);
    assert_eq!(String::from_utf8(skipped.relationships).unwrap(), "Relationship,Parent,Child\nCONTAINS,4+++2157776015,775374810+++4047824361\n");
    assert_eq!(String::from_utf8(skipped.files).unwrap(), files);
}

#[test]
fn join_uses_slash() {
    assert_eq!(join("/v", "1+++2"), "/v/1+++2");
}

fn words(n: usize) -> Vec<String> {
    (0..n).map(|i| format!("w{}", i)).collect()
}

#[test]
fn sliding_window_overlaps() {
    let w = words(10);
    let r = sliding_window(w.clone(), 4, 1);
    assert_eq!(r, vec![w[0..4].to_vec(), w[3..7].to_vec(), w[6..10].to_vec(), w[7..10].to_vec()]);
}

#[test]
fn sliding_window_short_input() {
    let w = words(3);
    assert_eq!(sliding_window(w.clone(), 5, 2), vec![w.clone()]);
    assert_eq!(sliding_window(Vec::new(), 2, 0), vec![Vec::<String>::new()]);
    assert_eq!(sliding_window(Vec::new(), 0, 0), vec![Vec::<String>::new()]);
    assert_eq!(sliding_window(words(1), 1, 1), vec![words(1)]);
}

#[test]
fn checked_sliding_window_rejects_bad_sizes() {
    assert_eq!(checked_sliding_window(words(5), 2, 2), None);
    assert_eq!(checked_sliding_window(Vec::new(), 0, 0), Some(vec![Vec::<String>::new()]));
    assert_eq!(checked_sliding_window(words(1), 1, 1), Some(vec![words(1)]));
    assert_eq!(checked_sliding_window(words(2), 1, 3), None);
    assert_eq!(checked_sliding_window(words(5), 4, 3), None);
    let w = words(10);
    assert_eq!(checked_sliding_window(w.clone(), 4, 1), Some(sliding_window(w, 4, 1)));
    assert_eq!(checked_sliding_window(words(2), 3, 1), Some(vec![words(2)]));
}
