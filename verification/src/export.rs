//! The CSV exports of the meta-data store: one header record, then one
//! record per row, written by the `csv` crate.

use crate::meta::{EntityRow, SqlMigrationRow};
use crate::text::{decimal, u64_to_decimal};
use vstd::prelude::*;

verus! {

/// The text that the `csv` writer, with its default settings, writes for
/// these records (fields in order, quoted where needed, each record ended
/// by a line feed).
pub uninterp spec fn csv_text(records: Seq<Seq<Seq<char>>>) -> Seq<char>;

/// The records as plain character strings.
pub open spec fn records_view(records: Seq<Vec<String>>) -> Seq<Seq<Seq<char>>> {
    records.map_values(|v: Vec<String>| v@.map_values(|f: String| f@))
}

/// Every record has as many fields as the first.
pub open spec fn same_lengths(records: Seq<Seq<Seq<char>>>) -> bool {
    forall|i: int| 0 <= i < records.len() ==> (#[trigger] records[i]).len() == records[0].len()
}

/// Writes the records with a default `csv::Writer` over a byte vector
/// (`from_writer`, `write_record` for each record, `into_inner`) and reads
/// the bytes back as a `String`. Trusted: where every record has as many
/// fields as the first, the writer meets no error (writing into a vector
/// cannot fail, and the default writer refuses only records of another
/// length), its output is UTF-8 as its fields are, and the text is
/// `csv_text` of the records.
#[verifier::external_body]
fn csv_write(records: &Vec<Vec<String>>) -> (r: Option<String>)
    ensures
        same_lengths(records_view(records@)) ==> r is Some,
        same_lengths(records_view(records@)) ==> r.unwrap()@ == csv_text(records_view(records@)),
{
    let mut writer = csv::Writer::from_writer(Vec::new());
    for record in records.iter() {
        writer.write_record(record).ok()?;
    }
    let bytes = writer.into_inner().ok()?;
    String::from_utf8(bytes).ok()
}

/// The header of the entity export.
pub open spec fn entity_header() -> Seq<Seq<char>> {
    seq!["block height"@, "module"@, "entity id"@, "entity hash"@]
}

/// The record of an entity row: its height in decimal, its module, id and
/// hash.
pub open spec fn entity_record(row: EntityRow) -> Seq<Seq<char>> {
    seq![decimal(row.height), row.module@, row.id@, row.hash@]
}

/// The records of the entity export: the header, then one record per row.
pub open spec fn entity_records(rows: Seq<EntityRow>) -> Seq<Seq<Seq<char>>> {
    seq![entity_header()] + rows.map_values(|r: EntityRow| entity_record(r))
}

/// The header of the SQL-migration export.
pub open spec fn migration_header() -> Seq<Seq<char>> {
    seq!["block height"@, "sql"@]
}

/// The record of a SQL-migration row: its height in decimal and its SQL.
pub open spec fn migration_record(row: SqlMigrationRow) -> Seq<Seq<char>> {
    seq![decimal(row.height), row.sql@]
}

/// The records of the SQL-migration export: the header, then one record per
/// row.
pub open spec fn migration_records(rows: Seq<SqlMigrationRow>) -> Seq<Seq<Seq<char>>> {
    seq![migration_header()] + rows.map_values(|r: SqlMigrationRow| migration_record(r))
}

/// The CSV text of the entity rows, with a header.
pub fn entities_csv(rows: &Vec<EntityRow>) -> (s: Option<String>)
    ensures
        s matches Some(t) && t@ == csv_text(entity_records(rows@)),
{
    let mut records: Vec<Vec<String>> = Vec::new();
    let header: Vec<String> = vec![
        "block height".to_owned(),
        "module".to_owned(),
        "entity id".to_owned(),
        "entity hash".to_owned(),
    ];
    assert(header@.map_values(|f: String| f@) =~= entity_header());
    records.push(header);
    proof {
        assert(records@ =~= seq![header]);
        assert(rows@.take(0).map_values(|r| entity_record(r)) =~= Seq::<Seq<Seq<char>>>::empty());
        assert(records_view(records@) =~= entity_records(rows@.take(0)));
    }
    let mut i: usize = 0;
    while i < rows.len()
        invariant
            i <= rows@.len(),
            records_view(records@) == entity_records(rows@.take(i as int)),
        decreases rows@.len() - i,
    {
        let row = &rows[i];
        let record: Vec<String> = vec![
            u64_to_decimal(row.height),
            row.module.clone(),
            row.id.clone(),
            row.hash.clone(),
        ];
        assert(record@.map_values(|f: String| f@) =~= entity_record(*row));
        let ghost before = records@;
        records.push(record);
        proof {
            assert(records@ =~= before.push(record));
            assert(rows@.take(i + 1) =~= rows@.take(i as int).push(*row));
            let v0 = records_view(before);
            let v1 = records_view(records@);
            assert(v1 =~= v0.push(entity_record(*row)));
            let m0 = rows@.take(i as int).map_values(|r| entity_record(r));
            let m1 = rows@.take(i + 1).map_values(|r| entity_record(r));
            assert(m1 =~= m0.push(entity_record(*row)));
            assert(v1 =~= entity_records(rows@.take(i + 1)));
        }
        i = i + 1;
    }
    assert(rows@.take(rows@.len() as int) =~= rows@);
    assert(same_lengths(records_view(records@))) by {
        assert forall|k: int| 0 <= k < records_view(records@).len() implies (
        #[trigger] records_view(records@)[k]).len() == records_view(records@)[0].len() by {
            if k > 0 {
                assert(records_view(records@)[k] == entity_record(rows@[k - 1]));
            }
        }
    }
    csv_write(&records)
}

/// The CSV text of the SQL-migration rows, with a header.
pub fn migrations_csv(rows: &Vec<SqlMigrationRow>) -> (s: Option<String>)
    ensures
        s matches Some(t) && t@ == csv_text(migration_records(rows@)),
{
    let mut records: Vec<Vec<String>> = Vec::new();
    let header: Vec<String> = vec!["block height".to_owned(), "sql".to_owned()];
    assert(header@.map_values(|f: String| f@) =~= migration_header());
    records.push(header);
    proof {
        assert(records@ =~= seq![header]);
        assert(rows@.take(0).map_values(|r| migration_record(r)) =~= Seq::<Seq<Seq<char>>>::empty());
        assert(records_view(records@) =~= migration_records(rows@.take(0)));
    }
    let mut i: usize = 0;
    while i < rows.len()
        invariant
            i <= rows@.len(),
            records_view(records@) == migration_records(rows@.take(i as int)),
        decreases rows@.len() - i,
    {
        let row = &rows[i];
        let record: Vec<String> = vec![u64_to_decimal(row.height), row.sql.clone()];
        assert(record@.map_values(|f: String| f@) =~= migration_record(*row));
        let ghost before = records@;
        records.push(record);
        proof {
            assert(records@ =~= before.push(record));
            assert(rows@.take(i + 1) =~= rows@.take(i as int).push(*row));
            let v0 = records_view(before);
            let v1 = records_view(records@);
            assert(v1 =~= v0.push(migration_record(*row)));
            let m0 = rows@.take(i as int).map_values(|r| migration_record(r));
            let m1 = rows@.take(i + 1).map_values(|r| migration_record(r));
            assert(m1 =~= m0.push(migration_record(*row)));
            assert(v1 =~= migration_records(rows@.take(i + 1)));
        }
        i = i + 1;
    }
    assert(rows@.take(rows@.len() as int) =~= rows@);
    assert(same_lengths(records_view(records@))) by {
        assert forall|k: int| 0 <= k < records_view(records@).len() implies (
        #[trigger] records_view(records@)[k]).len() == records_view(records@)[0].len() by {
            if k > 0 {
                assert(records_view(records@)[k] == migration_record(rows@[k - 1]));
            }
        }
    }
    csv_write(&records)
}

} // verus!
