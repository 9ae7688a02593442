//! The ordered listing of databases: by deletion flag first, then by name.

use vstd::prelude::*;
use vstd::string::*;
use vstd::utf8::encode_utf8;
use crate::catalog::{Catalog, DatabaseSchemaView};

verus! {

/// One row of a database listing, as a mathematical value.
pub ghost struct DatabaseRowView {
    pub name: Seq<char>,
    pub deleted: bool,
}

/// One row of a database listing.
#[derive(Debug)]
pub struct DatabaseRow {
    pub name: String,
    pub deleted: bool,
}

impl View for DatabaseRow {
    type V = DatabaseRowView;

    open spec fn view(&self) -> DatabaseRowView {
        DatabaseRowView { name: self.name@, deleted: self.deleted }
    }
}

/// The values of a sequence of rows.
pub open spec fn row_views(v: Seq<DatabaseRow>) -> Seq<DatabaseRowView> {
    Seq::new(v.len(), |i: int| v[i]@)
}

/// Lexicographic order of two byte strings, read from position `i` on, where
/// they agree before `i`: a proper prefix comes first.
pub open spec fn bytes_le(a: Seq<u8>, b: Seq<u8>, i: int) -> bool
    decreases a.len() - i,
{
    if i < 0 || i >= a.len() {
        true
    } else if i >= b.len() {
        false
    } else if a[i] != b[i] {
        a[i] < b[i]
    } else {
        bytes_le(a, b, i + 1)
    }
}

/// The order of names: that of their UTF-8 encodings, byte by byte.
pub open spec fn name_le(a: Seq<char>, b: Seq<char>) -> bool {
    bytes_le(encode_utf8(a), encode_utf8(b), 0)
}

/// The order of rows: a live database before a deleted one, then by name.
pub open spec fn row_le(x: DatabaseRowView, y: DatabaseRowView) -> bool {
    if x.deleted == y.deleted {
        name_le(x.name, y.name)
    } else {
        !x.deleted
    }
}

/// Whether each row comes before all later ones in the order of rows.
pub open spec fn rows_sorted(rows: Seq<DatabaseRowView>) -> bool {
    forall|i: int, j: int| 0 <= i < j < rows.len() ==> row_le(#[trigger] rows[i], #[trigger] rows[j])
}

/// Whether a database is listed: a deleted one only on request.
pub open spec fn is_listed(db: DatabaseSchemaView, include_deleted: bool) -> bool {
    include_deleted || !db.deleted
}

/// The rows of the listed databases, in the order of the catalog.
pub open spec fn listed_rows(
    databases: Seq<DatabaseSchemaView>,
    include_deleted: bool,
) -> Seq<DatabaseRowView>
    decreases databases.len(),
{
    if databases.len() == 0 {
        Seq::empty()
    } else {
        let rest = listed_rows(databases.drop_last(), include_deleted);
        let db = databases.last();
        if is_listed(db, include_deleted) {
            rest.push(DatabaseRowView { name: db.name, deleted: db.deleted })
        } else {
            rest
        }
    }
}

/// Any two byte strings are ordered one way or the other.
pub proof fn lemma_bytes_le_total(a: Seq<u8>, b: Seq<u8>, i: int)
    requires
        0 <= i,
    ensures
        bytes_le(a, b, i) || bytes_le(b, a, i),
    decreases a.len() - i,
{
    if i < a.len() && i < b.len() && a[i] == b[i] {
        lemma_bytes_le_total(a, b, i + 1);
    }
}

/// The order of byte strings is transitive.
pub proof fn lemma_bytes_le_transitive(a: Seq<u8>, b: Seq<u8>, c: Seq<u8>, i: int)
    requires
        0 <= i,
        bytes_le(a, b, i),
        bytes_le(b, c, i),
    ensures
        bytes_le(a, c, i),
    decreases a.len() - i,
{
    if i < a.len() && a[i] == b[i] && b[i] == c[i] {
        lemma_bytes_le_transitive(a, b, c, i + 1);
    }
}

/// Any two rows are ordered one way or the other.
pub proof fn lemma_row_le_total(x: DatabaseRowView, y: DatabaseRowView)
    ensures
        row_le(x, y) || row_le(y, x),
{
    lemma_bytes_le_total(encode_utf8(x.name), encode_utf8(y.name), 0);
}

/// The order of rows is transitive.
pub proof fn lemma_row_le_transitive(x: DatabaseRowView, y: DatabaseRowView, z: DatabaseRowView)
    requires
        row_le(x, y),
        row_le(y, z),
    ensures
        row_le(x, z),
{
    if x.deleted == y.deleted && y.deleted == z.deleted {
        lemma_bytes_le_transitive(
            encode_utf8(x.name),
            encode_utf8(y.name),
            encode_utf8(z.name),
            0,
        );
    }
}

/// Every listed row stands for a database of the catalog that is listed.
pub proof fn lemma_listed_rows_come_from_catalog(
    databases: Seq<DatabaseSchemaView>,
    include_deleted: bool,
    row: DatabaseRowView,
)
    requires
        listed_rows(databases, include_deleted).contains(row),
    ensures
        exists|i: int|
            0 <= i < databases.len() && (#[trigger] databases[i]).name == row.name
                && databases[i].deleted == row.deleted && is_listed(
                databases[i],
                include_deleted,
            ),
    decreases databases.len(),
{
    if databases.len() > 0 {
        let rest = listed_rows(databases.drop_last(), include_deleted);
        let db = databases.last();
        if rest.contains(row) {
            lemma_listed_rows_come_from_catalog(databases.drop_last(), include_deleted, row);
            let i = choose|i: int|
                0 <= i < databases.drop_last().len() && (#[trigger] databases.drop_last()[i]).name
                    == row.name && databases.drop_last()[i].deleted == row.deleted && is_listed(
                    databases.drop_last()[i],
                    include_deleted,
                );
            assert(databases[i] == databases.drop_last()[i]);
        } else {
            assert(is_listed(db, include_deleted));
            let k = choose|k: int|
                0 <= k < listed_rows(databases, include_deleted).len() && listed_rows(
                    databases,
                    include_deleted,
                )[k] == row;
            assert(k == rest.len()) by {
                if k < rest.len() {
                    assert(rest[k] == row);
                }
            }
            assert(databases[databases.len() - 1] == db);
        }
    }
}

/// Whether the first name comes before the second, or is the same.
pub fn name_precedes(a: &str, b: &str) -> (res: bool)
    ensures
        res == name_le(a@, b@),
{
    let x = a.as_bytes();
    let y = b.as_bytes();
    let mut i: usize = 0;
    while i < x.len()
        invariant
            i <= x.len(),
            x@ == encode_utf8(a@),
            y@ == encode_utf8(b@),
            bytes_le(x@, y@, 0) == bytes_le(x@, y@, i as int),
        decreases x.len() - i,
    {
        if i >= y.len() {
            return false;
        }
        if x[i] != y[i] {
            return x[i] < y[i];
        }
        i = i + 1;
    }
    true
}

/// Whether the first row comes before the second in a listing, or is the same.
pub fn row_precedes(x: &DatabaseRow, y: &DatabaseRow) -> (res: bool)
    ensures
        res == row_le(x@, y@),
{
    if x.deleted == y.deleted {
        name_precedes(x.name.as_str(), y.name.as_str())
    } else {
        !x.deleted
    }
}

/// Puts `row` into the sorted `rows`, behind the rows that do not come after it.
pub fn insert_row(rows: &mut Vec<DatabaseRow>, row: DatabaseRow)
    requires
        rows_sorted(row_views(old(rows)@)),
    ensures
        rows_sorted(row_views(final(rows)@)),
        row_views(final(rows)@).to_multiset() == row_views(old(rows)@).to_multiset().insert(row@),
        final(rows)@.len() == old(rows)@.len() + 1,
{
    let ghost before = row_views(rows@);
    let mut pos: usize = 0;
    while pos < rows.len() && row_precedes(&rows[pos], &row)
        invariant
            pos <= rows.len(),
            rows@ == old(rows)@,
            before == row_views(rows@),
            forall|j: int| 0 <= j < pos ==> row_le(#[trigger] before[j], row@),
        decreases rows.len() - pos,
    {
        pos = pos + 1;
    }
    rows.insert(pos, row);
    proof {
        let after = row_views(rows@);
        assert(after =~= before.insert(pos as int, row@));
        vstd::seq_lib::to_multiset_insert(before, pos as int, row@);
        assert forall|k: int| pos <= k < before.len() implies row_le(row@, #[trigger] before[k]) by {
            lemma_row_le_total(before[pos as int], row@);
            if k > pos {
                lemma_row_le_transitive(row@, before[pos as int], before[k]);
            }
        }
        assert forall|i: int, j: int| 0 <= i < j < after.len() implies row_le(
            #[trigger] after[i],
            #[trigger] after[j],
        ) by {
            if j < pos {
                assert(after[i] == before[i] && after[j] == before[j]);
            } else if j == pos {
                assert(after[i] == before[i]);
            } else if i < pos {
                assert(after[i] == before[i] && after[j] == before[j - 1]);
            } else if i == pos {
                assert(after[j] == before[j - 1]);
            } else {
                assert(after[i] == before[i - 1] && after[j] == before[j - 1]);
            }
        }
    }
}

/// The databases of the catalog as rows, sorted by deletion flag and then by
/// name. Deleted databases are left out unless `include_deleted` is set.
pub fn list_databases(catalog: &Catalog, include_deleted: bool) -> (rows: Vec<DatabaseRow>)
    ensures
        rows_sorted(row_views(rows@)),
        row_views(rows@).to_multiset() == listed_rows(catalog@, include_deleted).to_multiset(),
        !include_deleted ==> forall|i: int| 0 <= i < rows@.len() ==> !(#[trigger] rows@[i]).deleted,
{
    let mut rows: Vec<DatabaseRow> = Vec::new();
    let mut i: usize = 0;
    assert(catalog@.take(0) =~= Seq::empty());
    assert(row_views(rows@) =~= Seq::empty());
    while i < catalog.databases.len()
        invariant
            i <= catalog.databases.len(),
            rows_sorted(row_views(rows@)),
            row_views(rows@).to_multiset() == listed_rows(
                catalog@.take(i as int),
                include_deleted,
            ).to_multiset(),
        decreases catalog.databases.len() - i,
    {
        let db = &catalog.databases[i];
        proof {
            assert(catalog@.take(i + 1).drop_last() =~= catalog@.take(i as int));
            assert(catalog@.take(i + 1).last() == db@);
        }
        if include_deleted || !db.deleted {
            let row = DatabaseRow { name: db.name.clone(), deleted: db.deleted };
            proof {
                vstd::seq_lib::to_multiset_build(
                    listed_rows(catalog@.take(i as int), include_deleted),
                    row@,
                );
            }
            insert_row(&mut rows, row);
        }
        i = i + 1;
    }
    proof {
        assert(catalog@.take(i as int) =~= catalog@);
        if !include_deleted {
            assert forall|k: int| 0 <= k < rows@.len() implies !(#[trigger] rows@[k]).deleted by {
                let r = row_views(rows@)[k];
                assert(row_views(rows@).contains(r));
                vstd::seq_lib::to_multiset_contains(row_views(rows@), r);
                vstd::seq_lib::to_multiset_contains(listed_rows(catalog@, include_deleted), r);
                lemma_listed_rows_come_from_catalog(catalog@, include_deleted, r);
            }
        }
    }
    rows
}

} // verus!
