use vstd::prelude::*;
use crate::dataset::{TiramisuRecord, RelationshipRecord, Dataset};

verus! {

/// The bytes of one CSV record holding these fields, line end included.
pub uninterp spec fn csv_line_of(fields: Seq<Seq<char>>) -> Seq<u8>;

/// Relies on csv::Writer::write_record into memory: the encoded record, a
/// function of the fields alone. A fresh writer accepts its first record of
/// any length, and `into_inner` fails only when flushing fails, which a
/// `Vec<u8>` never does.
#[verifier::external_body]
fn csv_line(fields: &Vec<String>) -> (r: Option<Vec<u8>>)
    ensures
        r is Some,
        r->0@ == csv_line_of(fields.deep_view()),
{
    let mut w = csv::Writer::from_writer(Vec::new());
    match w.write_record(fields) {
        Ok(()) => w.into_inner().ok(),
        Err(_) => None,
    }
}

/// A whole table: its rows' encodings one after the other.
pub open spec fn csv_table_of(rows: Seq<Seq<Seq<char>>>) -> Seq<u8>
    decreases rows.len(),
{
    if rows.len() == 0 {
        seq![]
    } else {
        csv_table_of(rows.drop_last()) + csv_line_of(rows.last())
    }
}

pub open spec fn node_columns() -> Seq<Seq<char>> {
    seq![
        "Name"@, "NodeID"@, "TiramisuPath"@, "OriginalPath"@, "FileExtension"@, "NodeType"@, "FileHash"@,
    ]
}

pub open spec fn relationship_columns() -> Seq<Seq<char>> {
    seq!["Relationship"@, "Parent"@, "Child"@]
}

/// The fields of a node record, in the column order of the node tables.
pub open spec fn node_row(r: TiramisuRecord) -> Seq<Seq<char>> {
    seq![r.name@, r.node_id@, r.tiramisu_path@, r.original_path@, r.file_extension@, r.node_type@, r.file_hash@]
}

pub open spec fn relationship_row(r: RelationshipRecord) -> Seq<Seq<char>> {
    seq![r.relationship@, r.parent@, r.child@]
}

/// How many leading records a table leaves out.
pub open spec fn skipped(skip_first: bool, len: nat) -> int {
    if skip_first && len > 0 { 1 } else { 0 }
}

/// A node table: the header, then one row per record, the first left out where
/// `skip_first` asks for it.
pub open spec fn node_table(records: Seq<TiramisuRecord>, skip_first: bool) -> Seq<Seq<Seq<char>>> {
    seq![node_columns()] + records.subrange(skipped(skip_first, records.len()), records.len() as int).map_values(|r: TiramisuRecord| node_row(r))
}

pub open spec fn relationship_table(records: Seq<RelationshipRecord>, skip_first: bool) -> Seq<Seq<Seq<char>>> {
    seq![relationship_columns()] + records.subrange(skipped(skip_first, records.len()), records.len() as int).map_values(|r: RelationshipRecord| relationship_row(r))
}

fn node_header() -> (r: Vec<String>)
    ensures
        r.deep_view() == node_columns(),
{
    proof {
        reveal_strlit("Name"); reveal_strlit("NodeID"); reveal_strlit("TiramisuPath");
        reveal_strlit("OriginalPath"); reveal_strlit("FileExtension"); reveal_strlit("NodeType");
        reveal_strlit("FileHash");
    }
    let r = vec![
        "Name".to_owned(), "NodeID".to_owned(), "TiramisuPath".to_owned(), "OriginalPath".to_owned(),
        "FileExtension".to_owned(), "NodeType".to_owned(), "FileHash".to_owned(),
    ];
    assert(r.deep_view() =~= node_columns());
    r
}

fn relationship_header() -> (r: Vec<String>)
    ensures
        r.deep_view() == relationship_columns(),
{
    proof { reveal_strlit("Relationship"); reveal_strlit("Parent"); reveal_strlit("Child"); }
    let r = vec!["Relationship".to_owned(), "Parent".to_owned(), "Child".to_owned()];
    assert(r.deep_view() =~= relationship_columns());
    r
}

/// The fields of a node record, in column order.
pub fn node_fields(r: &TiramisuRecord) -> (f: Vec<String>)
    ensures
        f.deep_view() == node_row(*r),
{
    let f = vec![
        r.name.clone(), r.node_id.clone(), r.tiramisu_path.clone(), r.original_path.clone(),
        r.file_extension.clone(), r.node_type.clone(), r.file_hash.clone(),
    ];
    assert(f.deep_view() =~= node_row(*r));
    f
}

/// The fields of a relationship record, in column order.
pub fn relationship_fields(r: &RelationshipRecord) -> (f: Vec<String>)
    ensures
        f.deep_view() == relationship_row(*r),
{
    let f = vec![r.relationship.clone(), r.parent.clone(), r.child.clone()];
    assert(f.deep_view() =~= relationship_row(*r));
    f
}

/// Appends the encoding of one row.
fn append_line(out: &mut Vec<u8>, fields: &Vec<String>)
    ensures
        final(out)@ == old(out)@ + csv_line_of(fields.deep_view()),
{
    if let Some(mut line) = csv_line(fields) {
        out.append(&mut line);
    }
}

/// Encodes the node table of `records`.
pub fn encode_node_table(records: &Vec<TiramisuRecord>, skip_first: bool) -> (r: Vec<u8>)
    ensures
        r@ == csv_table_of(node_table(records@, skip_first)),
{
    let mut out: Vec<u8> = Vec::new();
    let header = node_header();
    append_line(&mut out, &header);
    let ghost table = node_table(records@, skip_first);
    let start: usize = if skip_first && records.len() > 0 { 1 } else { 0 };
    let mut i: usize = start;
    assert(table.subrange(0, 1) =~= seq![node_columns()]);
    assert(csv_table_of(seq![node_columns()]) == csv_line_of(node_columns())) by {
        assert(seq![node_columns()].drop_last() =~= Seq::<Seq<Seq<char>>>::empty());
        assert(csv_table_of(Seq::<Seq<Seq<char>>>::empty()) == Seq::<u8>::empty());
        assert(Seq::<u8>::empty() + csv_line_of(node_columns()) =~= csv_line_of(node_columns()));
    }
    while i < records.len()
        invariant
            start <= i <= records.len(),
            start as int == skipped(skip_first, records@.len()),
            table == node_table(records@, skip_first),
            table.len() == records@.len() - start + 1,
            out@ == csv_table_of(table.subrange(0, i - start + 1)),
        decreases records.len() - i,
    {
        let fields = node_fields(&records[i]);
        append_line(&mut out, &fields);
        assert(table.subrange(0, i - start + 2).drop_last() =~= table.subrange(0, i - start + 1));
        assert(table[i - start + 1] == node_row(records@[i as int]));
        i = i + 1;
    }
    assert(table.subrange(0, table.len() as int) =~= table);
    out
}

/// Encodes the relationship table of `records`.
pub fn encode_relationship_table(records: &Vec<RelationshipRecord>, skip_first: bool) -> (r: Vec<u8>)
    ensures
        r@ == csv_table_of(relationship_table(records@, skip_first)),
{
    let mut out: Vec<u8> = Vec::new();
    let header = relationship_header();
    append_line(&mut out, &header);
    let ghost table = relationship_table(records@, skip_first);
    let start: usize = if skip_first && records.len() > 0 { 1 } else { 0 };
    let mut i: usize = start;
    assert(table.subrange(0, 1) =~= seq![relationship_columns()]);
    assert(csv_table_of(seq![relationship_columns()]) == csv_line_of(relationship_columns())) by {
        assert(seq![relationship_columns()].drop_last() =~= Seq::<Seq<Seq<char>>>::empty());
        assert(csv_table_of(Seq::<Seq<Seq<char>>>::empty()) == Seq::<u8>::empty());
        assert(Seq::<u8>::empty() + csv_line_of(relationship_columns()) =~= csv_line_of(relationship_columns()));
    }
    while i < records.len()
        invariant
            start <= i <= records.len(),
            start as int == skipped(skip_first, records@.len()),
            table == relationship_table(records@, skip_first),
            table.len() == records@.len() - start + 1,
            out@ == csv_table_of(table.subrange(0, i - start + 1)),
        decreases records.len() - i,
    {
        let fields = relationship_fields(&records[i]);
        append_line(&mut out, &fields);
        assert(table.subrange(0, i - start + 2).drop_last() =~= table.subrange(0, i - start + 1));
        assert(table[i - start + 1] == relationship_row(records@[i as int]));
        i = i + 1;
    }
    assert(table.subrange(0, table.len() as int) =~= table);
    out
}

/// The three encoded tables of a run.
pub struct ExportedTables {
    pub files: Vec<u8>,
    pub folders: Vec<u8>,
    pub relationships: Vec<u8>,
}

/// Encodes the dataset's three tables, in insertion order. The file table
/// holds every record; with `skip_first`, the folder and relationship tables
/// leave their first record out.
pub fn export_tables(ds: &Dataset, skip_first: bool) -> (r: ExportedTables)
    ensures
        r.files@ == csv_table_of(node_table(ds.files@, false)),
        r.folders@ == csv_table_of(node_table(ds.folders@, skip_first)),
        r.relationships@ == csv_table_of(relationship_table(ds.relationships@, skip_first)),
{
    ExportedTables {
        files: encode_node_table(&ds.files, false),
        folders: encode_node_table(&ds.folders, skip_first),
        relationships: encode_relationship_table(&ds.relationships, skip_first),
    }
}

} // verus!
