use vstd::prelude::*;
use vstd::slice::slice_subrange;
use crate::text::{strip_ws, extension_of, is_ws, last_dot, with_extension, path_depth, decimal, remove_whitespace, file_extension, calculate_depth, decimal_string};
use crate::address::{sha256_hex_of, file_node_id, folder_node_id, hash_file, assign_node_id, assign_folder_id};
use crate::resolve::{canonical_ext, sniffed_mime, sniff_candidate, archive_name_of, resolved_ext, is_sniff_candidate, sniff_mime, archive_name, resolve_extension};
use crate::dataset::{TiramisuRecord, Dataset};

verus! {

/// How many leading bytes of a file its type is sniffed from.
pub const SNIFF_WINDOW: usize = 8192;

/// The leading byte window of a file's content.
pub open spec fn leading_window(b: Seq<u8>) -> Seq<u8> {
    if b.len() <= SNIFF_WINDOW {
        b
    } else {
        b.subrange(0, SNIFF_WINDOW as int)
    }
}

/// Two paths joined by `/`.
pub open spec fn join_path(a: Seq<char>, b: Seq<char>) -> Seq<char> {
    a + seq!['/'] + b
}

pub fn join(a: &str, b: &str) -> (r: String)
    ensures
        r@ == join_path(a@, b@),
{
    let mut s = a.to_owned();
    s.append("/");
    s.append(b);
    proof { reveal_strlit("/"); }
    assert(s@ =~= join_path(a@, b@));
    s
}

/// What kind of filesystem object an entry is.
#[derive(Clone, Copy, PartialEq, Eq, Structural)]
pub enum EntryKind {
    File,
    Directory,
    Other,
}

/// What the walk knows of one entry: its name, its path relative to the
/// parent of the root and its absolute path, the same two of its containing
/// folder, its kind, and (for a file worth sniffing) its bytes.
pub struct EntryFacts {
    pub name: String,
    pub rel_path: String,
    pub original_path: String,
    pub parent_rel: String,
    pub parent_abs: String,
    pub kind: EntryKind,
    pub content: Vec<u8>,
}

/// A copy to make in the archive: `source` into the directory `dir` as `file`.
pub struct ArchiveCopy {
    pub source: String,
    pub dir: String,
    pub file: String,
}

pub open spec fn folder_label() -> Seq<char> {
    seq!['f', 'o', 'l', 'd', 'e', 'r']
}

pub open spec fn folder_kind() -> Seq<char> {
    seq!['F', 'o', 'l', 'd', 'e', 'r']
}

pub open spec fn file_kind() -> Seq<char> {
    seq!['F', 'i', 'l', 'e']
}

pub open spec fn root_sentinel() -> Seq<char> {
    seq!['R', 'O', 'O', 'T']
}

/// The record of the traversal root.
pub open spec fn is_root_record(r: TiramisuRecord, name: Seq<char>, original: Seq<char>, rel: Seq<char>) -> bool {
    &&& r.name@ == name
    &&& r.node_id@ == folder_node_id(path_depth(original), rel)
    &&& r.tiramisu_path@ == strip_ws(original)
    &&& r.original_path@ == original
    &&& r.file_extension@ == folder_label()
    &&& r.node_type@ == folder_kind()
    &&& r.file_hash@ == root_sentinel()
}

/// The record of a folder below the root.
pub open spec fn is_folder_record(r: TiramisuRecord, e: EntryFacts) -> bool {
    &&& r.name@ == strip_ws(e.name@)
    &&& r.node_id@ == folder_node_id(path_depth(e.original_path@), e.rel_path@)
    &&& r.tiramisu_path@ == strip_ws(e.rel_path@)
    &&& r.original_path@ == e.original_path@
    &&& r.file_extension@ == folder_label()
    &&& r.node_type@ == folder_kind()
    &&& r.file_hash@ == decimal(path_depth(e.original_path@))
}

/// The sniffed type of a file entry.
pub open spec fn entry_mime(e: EntryFacts) -> Option<Seq<char>> {
    sniffed_mime(leading_window(e.content@))
}

/// The record of a file, once its type is known to be `mime`.
pub open spec fn is_file_record(r: TiramisuRecord, e: EntryFacts, archive_root: Seq<char>, mime: Seq<char>) -> bool {
    let ext = extension_of(e.name@);
    let hash = sha256_hex_of(e.content@);
    let id = file_node_id(hash, e.rel_path@);
    &&& r.name@ == archive_name_of(e.name@, ext, mime)
    &&& r.node_id@ == id
    &&& r.tiramisu_path@ == join_path(join_path(archive_root, id), archive_name_of(e.name@, ext, mime))
    &&& r.original_path@ == e.original_path@
    &&& r.file_extension@ == resolved_ext(ext, mime)
    &&& r.node_type@ == file_kind()
    &&& r.file_hash@ == hash
}

/// The id of the folder that holds an entry.
pub open spec fn parent_id_of(e: EntryFacts) -> Seq<char> {
    folder_node_id(path_depth(e.parent_abs@), e.parent_rel@)
}

/// Whether a file entry is archived: it has a name, its extension is one to
/// sniff, and its leading bytes match a signature.
pub open spec fn file_is_kept(e: EntryFacts) -> bool {
    &&& e.kind == EntryKind::File
    &&& e.name@.len() > 0
    &&& sniff_candidate(extension_of(e.name@))
    &&& entry_mime(e) is Some
}

/// The root's folder record, with the sentinel hash `ROOT`.
pub fn root_record(name: &str, original_path: &str, rel_path: &str) -> (r: TiramisuRecord)
    requires
        original_path@.len() < usize::MAX,
    ensures
        is_root_record(r, name@, original_path@, rel_path@),
{
    let depth = calculate_depth(original_path);
    let mut tiramisu_path = original_path.to_owned();
    remove_whitespace(&mut tiramisu_path);
    proof {
        reveal_strlit("folder");
        reveal_strlit("Folder");
        reveal_strlit("ROOT");
        assert("folder"@ =~= folder_label());
        assert("Folder"@ =~= folder_kind());
        assert("ROOT"@ =~= root_sentinel());
    }
    TiramisuRecord {
        name: name.to_owned(),
        node_id: assign_folder_id(depth, rel_path),
        tiramisu_path,
        original_path: original_path.to_owned(),
        file_extension: "folder".to_owned(),
        node_type: "Folder".to_owned(),
        file_hash: "ROOT".to_owned(),
    }
}

fn folder_record(e: &EntryFacts) -> (r: TiramisuRecord)
    requires
        e.original_path@.len() < usize::MAX,
    ensures
        is_folder_record(r, *e),
{
    let depth = calculate_depth(e.original_path.as_str());
    let mut name = e.name.clone();
    remove_whitespace(&mut name);
    let mut tiramisu_path = e.rel_path.clone();
    remove_whitespace(&mut tiramisu_path);
    proof {
        reveal_strlit("folder");
        reveal_strlit("Folder");
        assert("folder"@ =~= folder_label());
        assert("Folder"@ =~= folder_kind());
    }
    TiramisuRecord {
        name,
        node_id: assign_folder_id(depth, e.rel_path.as_str()),
        tiramisu_path,
        original_path: e.original_path.clone(),
        file_extension: "folder".to_owned(),
        node_type: "Folder".to_owned(),
        file_hash: decimal_string(depth as u64),
    }
}

fn file_record(e: &EntryFacts, archive_root: &str, mime: &str) -> (r: TiramisuRecord)
    ensures
        is_file_record(r, *e, archive_root@, mime@),
{
    let ext = file_extension(e.name.as_str());
    let hash = hash_file(e.content.as_slice());
    let node_id = assign_node_id(hash.as_str(), e.rel_path.as_str());
    let name = archive_name(e.name.as_str(), ext.as_str(), mime);
    let dir = join(archive_root, node_id.as_str());
    proof {
        reveal_strlit("File");
        assert("File"@ =~= file_kind());
    }
    TiramisuRecord {
        tiramisu_path: join(dir.as_str(), name.as_str()),
        name,
        node_id,
        original_path: e.original_path.clone(),
        file_extension: resolve_extension(ext.as_str(), mime),
        node_type: "File".to_owned(),
        file_hash: hash,
    }
}

/// Records one visited entry: a directory becomes a folder record, a file
/// that is kept a file record, each with its containment edge from the
/// folder that holds it; anything else leaves the dataset as it was. For a
/// file that is kept, returns the copy to make into the archive under
/// `archive_root`.
pub fn digest_entry(ds: &mut Dataset, e: &EntryFacts, archive_root: &str) -> (r: Option<ArchiveCopy>)
    requires
        old(ds).wf(),
        e.original_path@.len() < usize::MAX,
        e.parent_abs@.len() < usize::MAX,
    ensures
        final(ds).wf(),
        r is Some == file_is_kept(*e),
        e.kind == EntryKind::Directory && e.name@.len() > 0 ==> {
            &&& final(ds).files@ == old(ds).files@
            &&& final(ds).folders@.drop_last() == old(ds).folders@
            &&& final(ds).folders@.len() == old(ds).folders@.len() + 1
            &&& is_folder_record(final(ds).folders@.last(), *e)
            &&& final(ds).relationships@.drop_last() == old(ds).relationships@
            &&& final(ds).relationships@.len() == old(ds).relationships@.len() + 1
            &&& final(ds).relationships@.last().parent@ == parent_id_of(*e)
        },
        file_is_kept(*e) ==> {
            &&& final(ds).folders@ == old(ds).folders@
            &&& final(ds).files@.drop_last() == old(ds).files@
            &&& final(ds).files@.len() == old(ds).files@.len() + 1
            &&& is_file_record(final(ds).files@.last(), *e, archive_root@, entry_mime(*e)->0)
            &&& final(ds).relationships@.drop_last() == old(ds).relationships@
            &&& final(ds).relationships@.len() == old(ds).relationships@.len() + 1
            &&& final(ds).relationships@.last().parent@ == parent_id_of(*e)
            &&& r->0.source@ == e.original_path@
            &&& r->0.dir@ == join_path(archive_root@, final(ds).files@.last().node_id@)
            &&& r->0.file@ == final(ds).files@.last().tiramisu_path@
        },
        !(e.kind == EntryKind::Directory && e.name@.len() > 0) && !file_is_kept(*e) ==> {
            &&& final(ds).folders@ == old(ds).folders@
            &&& final(ds).files@ == old(ds).files@
            &&& final(ds).relationships@ == old(ds).relationships@
        },
{
    let named = !e.name.as_str().is_empty();
    proof { assert(named == (e.name@.len() > 0)); }
    if e.kind == EntryKind::Directory && named {
        let parent = assign_folder_id(calculate_depth(e.parent_abs.as_str()), e.parent_rel.as_str());
        let record = folder_record(e);
        ds.add_folder(record, parent);
        assert(final(ds).folders@.drop_last() =~= old(ds).folders@);
        return None;
    }
    if e.kind != EntryKind::File || !named {
        return None;
    }
    let ext = file_extension(e.name.as_str());
    if !is_sniff_candidate(ext.as_str()) {
        return None;
    }
    let window = if e.content.len() <= SNIFF_WINDOW {
        e.content.as_slice()
    } else {
        slice_subrange(e.content.as_slice(), 0, SNIFF_WINDOW)
    };
    assert(window@ == leading_window(e.content@));
    let mime = match sniff_mime(window) {
        Some(m) => m,
        None => return None,
    };
    let parent = assign_folder_id(calculate_depth(e.parent_abs.as_str()), e.parent_rel.as_str());
    let record = file_record(e, archive_root, mime.as_str());
    let copy = ArchiveCopy {
        source: e.original_path.clone(),
        dir: join(archive_root, record.node_id.as_str()),
        file: record.tiramisu_path.clone(),
    };
    ds.add_file(record, parent);
    assert(final(ds).files@.drop_last() =~= old(ds).files@);
    Some(copy)
}

/// The edge that `digest_entry` gives an entry points at the record of the
/// folder that holds it: the root's record, or that of the folder entry whose
/// paths are the entry's parent paths.
pub proof fn edge_parent_is_container(child: EntryFacts, folder: EntryFacts, r: TiramisuRecord, name: Seq<char>)
    ensures
        child.parent_rel@ == folder.rel_path@ && child.parent_abs@ == folder.original_path@
            && is_folder_record(r, folder) ==> parent_id_of(child) == r.node_id@,
        is_root_record(r, name, child.parent_abs@, child.parent_rel@) ==> parent_id_of(child) == r.node_id@,
{
}

proof fn lemma_strip_ws_keeps(s: Seq<char>)
    requires
        forall|i: int| 0 <= i < s.len() ==> !is_ws(#[trigger] s[i]),
    ensures
        strip_ws(s) == s,
    decreases s.len(),
{
    if s.len() > 0 {
        lemma_strip_ws_keeps(s.drop_last());
        assert(s.drop_last().push(s.last()) =~= s);
    }
}

/// A file named `report.txt` whose sniffed type is `application/pdf` is
/// recorded, and archived, as `report.pdf` with extension `pdf`.
pub proof fn mislabelled_file_is_renamed(e: EntryFacts, r: TiramisuRecord, archive_root: Seq<char>)
    requires
        e.name@ == "report.txt"@,
        is_file_record(r, e, archive_root, "application/pdf"@),
    ensures
        r.name@ == "report.pdf"@,
        r.file_extension@ == "pdf"@,
        r.tiramisu_path@ == join_path(join_path(archive_root, r.node_id@), "report.pdf"@),
{
    reveal_strlit("report.txt");
    reveal_strlit("report.pdf");
    reveal_strlit("application/pdf");
    reveal_strlit("pdf");
    reveal_strlit("txt");
    reveal_with_fuel(last_dot, 5);
    let name = e.name@;
    assert(last_dot(name) == 6);
    assert(extension_of(name) =~= "txt"@);
    reveal_strlit("application/vnd.openxmlformats-officedocument.wordprocessingml.document");
    assert("application/vnd.openxmlformats-officedocument.wordprocessingml.document"@.len() == 71);
    reveal_strlit("application/vnd.openxmlformats-officedocument.wordprocessingml.template");
    assert("application/vnd.openxmlformats-officedocument.wordprocessingml.template"@.len() == 71);
    reveal_strlit("application/vnd.openxmlformats-officedocument.spreadsheetml.sheet");
    assert("application/vnd.openxmlformats-officedocument.spreadsheetml.sheet"@.len() == 65);
    reveal_strlit("application/vnd.openxmlformats-officedocument.presentationml.presentation");
    assert("application/vnd.openxmlformats-officedocument.presentationml.presentation"@.len() == 73);
    reveal_strlit("text/csv");
    assert("text/csv"@.len() == 8);
    reveal_strlit("application/gzip");
    assert("application/gzip"@.len() == 16);
    reveal_strlit("image/gif");
    assert("image/gif"@.len() == 9);
    reveal_strlit("text/html");
    assert("text/html"@.len() == 9);
    reveal_strlit("image/jpeg");
    assert("image/jpeg"@.len() == 10);
    reveal_strlit("application/json");
    assert("application/json"@.len() == 16);
    reveal_strlit("video/mp4");
    assert("video/mp4"@.len() == 9);
    reveal_strlit("video/mpeg");
    assert("video/mpeg"@.len() == 10);
    reveal_strlit("audio/mpeg");
    assert("audio/mpeg"@.len() == 10);
    reveal_strlit("image/png");
    assert("image/png"@.len() == 9);
    reveal_strlit("application/pdf");
    assert("application/pdf"@.len() == 15);
    reveal_strlit("docx");
    reveal_strlit("xlsx");
    reveal_strlit("pptx");
    assert(canonical_ext("application/pdf"@) == Some("pdf"@));
    assert(resolved_ext("txt"@, "application/pdf"@) == "pdf"@);
    assert(with_extension(name, "pdf"@) =~= "report.pdf"@);
    lemma_strip_ws_keeps("report.pdf"@);
}

/// A file named `data.csv` whose sniffed type is `text/csv` keeps its name.
pub proof fn matching_file_keeps_name(e: EntryFacts, r: TiramisuRecord, archive_root: Seq<char>)
    requires
        e.name@ == "data.csv"@,
        is_file_record(r, e, archive_root, "text/csv"@),
    ensures
        r.name@ == "data.csv"@,
        r.file_extension@ == "csv"@,
        r.tiramisu_path@ == join_path(join_path(archive_root, r.node_id@), "data.csv"@),
{
    reveal_strlit("data.csv");
    reveal_strlit("text/csv");
    reveal_strlit("csv");
    reveal_with_fuel(last_dot, 5);
    let name = e.name@;
    assert(last_dot(name) == 4);
    assert(extension_of(name) =~= "csv"@);
    reveal_strlit("application/vnd.openxmlformats-officedocument.wordprocessingml.document");
    assert("application/vnd.openxmlformats-officedocument.wordprocessingml.document"@.len() == 71);
    reveal_strlit("application/vnd.openxmlformats-officedocument.wordprocessingml.template");
    assert("application/vnd.openxmlformats-officedocument.wordprocessingml.template"@.len() == 71);
    reveal_strlit("application/vnd.openxmlformats-officedocument.spreadsheetml.sheet");
    assert("application/vnd.openxmlformats-officedocument.spreadsheetml.sheet"@.len() == 65);
    reveal_strlit("application/vnd.openxmlformats-officedocument.presentationml.presentation");
    assert("application/vnd.openxmlformats-officedocument.presentationml.presentation"@.len() == 73);
    reveal_strlit("text/csv");
    assert("text/csv"@.len() == 8);
    reveal_strlit("docx");
    reveal_strlit("xlsx");
    reveal_strlit("pptx");
    assert(canonical_ext("text/csv"@) == Some("csv"@));
    assert(resolved_ext("csv"@, "text/csv"@) == "csv"@);
    lemma_strip_ws_keeps("data.csv"@);
}

/// Digesting an unchanged entry again gives it the same node id: a file with
/// the same relative path and bytes, or a folder with the same paths, whatever
/// the archive root and the sniffed type.
pub proof fn entry_ids_are_deterministic(
    e1: EntryFacts,
    e2: EntryFacts,
    r1: TiramisuRecord,
    r2: TiramisuRecord,
    root1: Seq<char>,
    root2: Seq<char>,
    m1: Seq<char>,
    m2: Seq<char>,
)
    requires
        e1.rel_path@ == e2.rel_path@,
        e1.original_path@ == e2.original_path@,
        e1.content@ == e2.content@,
    ensures
        is_file_record(r1, e1, root1, m1) && is_file_record(r2, e2, root2, m2) ==> r1.node_id@ == r2.node_id@,
        is_folder_record(r1, e1) && is_folder_record(r2, e2) ==> r1.node_id@ == r2.node_id@,
{
}

} // verus!
