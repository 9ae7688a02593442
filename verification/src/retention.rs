//! The listing of retention policies: one row for each database.

use vstd::prelude::*;
use vstd::string::*;
use crate::batch::{
    append_number, append_text, batch_column_names, batch_flag_columns, batch_nullable,
    batch_number_columns, batch_text_columns, finish_numbers, finish_text, fits_text_column,
    lemma_text_bytes_prefix, new_number_builder, new_text_builder, number_builder_values,
    policy_batch, text_builder_bytes, text_builder_values, text_bytes, Batch,
    NumberColumnBuilder, TextColumnBuilder,
};
use crate::names::{database_part, policy_part, split_database_name};

verus! {

/// One row of the listing, as a mathematical value.
pub ghost struct RetentionPolicyRowView {
    pub database: Seq<char>,
    pub name: Seq<char>,
    pub duration: Option<i64>,
}

/// One row of the listing: a database, the name of its retention policy, and
/// the duration of the policy in nanoseconds, if it has one.
#[derive(Debug)]
pub struct RetentionPolicyRow {
    pub database: String,
    pub name: String,
    pub duration: Option<i64>,
}

/// Collects the rows of a listing column by column.
#[derive(Debug)]
pub struct RetentionPolicyRowBuilder {
    database: TextColumnBuilder,
    name: TextColumnBuilder,
    duration: NumberColumnBuilder,
}

impl View for RetentionPolicyRow {
    type V = RetentionPolicyRowView;

    open spec fn view(&self) -> RetentionPolicyRowView {
        RetentionPolicyRowView {
            database: self.database@,
            name: self.name@,
            duration: self.duration,
        }
    }
}

/// The values of a sequence of rows.
pub open spec fn policy_row_views(v: Seq<RetentionPolicyRow>) -> Seq<RetentionPolicyRowView> {
    Seq::new(v.len(), |i: int| v[i]@)
}

/// The row of the database with the composite name `db_name` and the given
/// duration.
pub open spec fn policy_row(db_name: Seq<char>, duration: Option<i64>) -> RetentionPolicyRowView {
    RetentionPolicyRowView {
        database: database_part(db_name),
        name: policy_part(db_name),
        duration,
    }
}

/// Whether a batch shows the given rows: the databases, the names of their
/// policies and the durations, as three columns. Only a duration can be null.
pub open spec fn shows_policies(batch: Batch, rows: Seq<RetentionPolicyRowView>) -> bool {
    &&& batch_column_names(batch) == seq!["iox::database"@, "name"@, "duration"@]
    &&& batch_nullable(batch) == seq![false, false, true]
    &&& batch_text_columns(batch) == map![
        0int => database_column(rows),
        1int => name_column(rows),
    ]
    &&& batch_flag_columns(batch).dom() == Set::<int>::empty()
    &&& batch_number_columns(batch) == map![2int => Seq::new(rows.len(), |i: int| rows[i].duration)]
}

/// The databases of the given rows.
pub open spec fn database_column(rows: Seq<RetentionPolicyRowView>) -> Seq<Seq<char>> {
    Seq::new(rows.len(), |i: int| rows[i].database)
}

/// The names of the policies of the given rows.
pub open spec fn name_column(rows: Seq<RetentionPolicyRowView>) -> Seq<Seq<char>> {
    Seq::new(rows.len(), |i: int| rows[i].name)
}

/// Whether the given rows fit into a batch: the databases into one column of
/// text, and the names of the policies into another.
pub open spec fn policies_fit(rows: Seq<RetentionPolicyRowView>) -> bool {
    fits_text_column(database_column(rows)) && fits_text_column(name_column(rows))
}

/// Rows that fit into a batch still do when some are left out at the end.
pub proof fn lemma_policies_fit_prefix(rows: Seq<RetentionPolicyRowView>, n: int)
    requires
        0 <= n <= rows.len(),
        policies_fit(rows),
    ensures
        policies_fit(rows.take(n)),
{
    assert(database_column(rows.take(n)) =~= database_column(rows).take(n));
    assert(name_column(rows.take(n)) =~= name_column(rows).take(n));
    lemma_text_bytes_prefix(database_column(rows), n);
    lemma_text_bytes_prefix(name_column(rows), n);
}

/// The row of the database with the composite name `db_name`.
pub fn retention_policy_row(db_name: &str, duration: Option<i64>) -> (row: RetentionPolicyRow)
    ensures
        row@ == policy_row(db_name@, duration),
{
    let (database, name) = split_database_name(db_name);
    RetentionPolicyRow { database, name, duration }
}

impl View for RetentionPolicyRowBuilder {
    type V = Seq<RetentionPolicyRowView>;

    closed spec fn view(&self) -> Seq<RetentionPolicyRowView> {
        Seq::new(
            text_builder_values(self.database).len(),
            |i: int|
                RetentionPolicyRowView {
                    database: text_builder_values(self.database)[i],
                    name: text_builder_values(self.name)[i],
                    duration: number_builder_values(self.duration)[i],
                },
        )
    }
}

impl RetentionPolicyRowBuilder {
    /// Whether the three columns have the same length, and each of the two
    /// columns of text holds no more than fits into it.
    pub closed spec fn wf(&self) -> bool {
        &&& text_builder_values(self.database).len() == text_builder_values(self.name).len()
        &&& text_builder_values(self.name).len() == number_builder_values(self.duration).len()
        &&& fits_text_column(text_builder_values(self.database))
        &&& fits_text_column(text_builder_values(self.name))
    }

    /// The rows of a well-formed builder fit into a batch.
    pub proof fn lemma_wf_fits(&self)
        requires
            self.wf(),
        ensures
            policies_fit(self@),
    {
        assert(database_column(self@) =~= text_builder_values(self.database));
        assert(name_column(self@) =~= text_builder_values(self.name));
    }

    /// A builder without rows.
    pub fn new() -> (builder: RetentionPolicyRowBuilder)
        ensures
            builder.wf(),
            builder@ == Seq::<RetentionPolicyRowView>::empty(),
    {
        let builder = RetentionPolicyRowBuilder {
            database: new_text_builder(),
            name: new_text_builder(),
            duration: new_number_builder(),
        };
        assert(builder@ =~= Seq::<RetentionPolicyRowView>::empty());
        builder
    }

    /// Whether the builder can take one more row: whether its rows, with that
    /// row at their end, still fit into a batch.
    pub fn can_append(&self, row: &RetentionPolicyRow) -> (ok: bool)
        requires
            self.wf(),
        ensures
            ok == policies_fit(self@.push(row@)),
    {
        let databases = text_builder_bytes(&self.database);
        let names = text_builder_bytes(&self.name);
        let database = row.database.as_str().as_bytes().len();
        let name = row.name.as_str().as_bytes().len();
        proof {
            let all = self@.push(row@);
            let d = text_builder_values(self.database);
            let n = text_builder_values(self.name);
            assert(database_column(all) =~= d.push(row@.database));
            assert(name_column(all) =~= n.push(row@.name));
            assert(d.push(row@.database).drop_last() =~= d);
            assert(n.push(row@.name).drop_last() =~= n);
        }
        database <= 0x7fff_ffff - databases && name <= 0x7fff_ffff - names
    }

    /// Adds one row.
    pub fn append(&mut self, row: &RetentionPolicyRow)
        requires
            old(self).wf(),
            policies_fit(old(self)@.push(row@)),
        ensures
            final(self).wf(),
            final(self)@ == old(self)@.push(row@),
    {
        let ghost before = self@;
        proof {
            let all = before.push(row@);
            assert(database_column(all) =~= text_builder_values(self.database).push(row@.database));
            assert(name_column(all) =~= text_builder_values(self.name).push(row@.name));
        }
        append_text(&mut self.database, row.database.as_str());
        append_text(&mut self.name, row.name.as_str());
        append_number(&mut self.duration, row.duration);
        assert(self@ =~= before.push(row@));
    }

    /// Adds the given rows in their order.
    pub fn extend(&mut self, rows: &Vec<RetentionPolicyRow>)
        requires
            old(self).wf(),
            policies_fit(old(self)@ + policy_row_views(rows@)),
        ensures
            final(self).wf(),
            final(self)@ == old(self)@ + policy_row_views(rows@),
    {
        let ghost all = old(self)@ + policy_row_views(rows@);
        let mut i: usize = 0;
        assert(self@ =~= all.take(old(self)@.len() as int));
        while i < rows.len()
            invariant
                i <= rows.len(),
                self.wf(),
                all == old(self)@ + policy_row_views(rows@),
                policies_fit(all),
                self@ == all.take(old(self)@.len() + i),
            decreases rows.len() - i,
        {
            proof {
                let n = old(self)@.len() + i;
                assert(all.take(n + 1) =~= all.take(n).push(rows@[i as int]@));
                lemma_policies_fit_prefix(all, n + 1);
            }
            self.append(&rows[i]);
            i = i + 1;
        }
        assert(all.take(all.len() as int) =~= all);
    }

    /// Turns the rows that were added into a batch, and leaves the builder
    /// without rows.
    pub fn finish(&mut self) -> (batch: Batch)
        requires
            old(self).wf(),
        ensures
            final(self).wf(),
            final(self)@ == Seq::<RetentionPolicyRowView>::empty(),
            shows_policies(batch, old(self)@),
    {
        proof {
            let rows = self@;
            assert(database_column(rows) =~= text_builder_values(self.database));
            assert(name_column(rows) =~= text_builder_values(self.name));
            assert(Seq::new(rows.len(), |i: int| rows[i].duration) =~= number_builder_values(
                self.duration,
            ));
        }
        let databases = finish_text(&mut self.database);
        let names = finish_text(&mut self.name);
        let durations = finish_numbers(&mut self.duration);
        let batch = policy_batch(("iox::database", "name", "duration"), databases, names, durations);
        assert(self@ =~= Seq::<RetentionPolicyRowView>::empty());
        assert(text_bytes(Seq::<Seq<char>>::empty()) == 0);
        batch
    }
}

/// The batch that shows the given rows, if they fit into one.
pub fn retention_policy_rows_to_batch(rows: &Vec<RetentionPolicyRow>) -> (res: Option<Batch>)
    ensures
        res.is_some() <==> policies_fit(policy_row_views(rows@)),
        res matches Some(batch) ==> shows_policies(batch, policy_row_views(rows@)),
{
    let ghost all = policy_row_views(rows@);
    let mut builder = RetentionPolicyRowBuilder::new();
    let mut i: usize = 0;
    assert(builder@ =~= all.take(0));
    while i < rows.len()
        invariant
            i <= rows.len(),
            builder.wf(),
            all == policy_row_views(rows@),
            builder@ == all.take(i as int),
        decreases rows.len() - i,
    {
        assert(all.take(i + 1) =~= all.take(i as int).push(rows@[i as int]@));
        if !builder.can_append(&rows[i]) {
            proof {
                if policies_fit(all) {
                    lemma_policies_fit_prefix(all, i + 1);
                }
            }
            return None;
        }
        builder.append(&rows[i]);
        i = i + 1;
    }
    proof {
        assert(all.take(all.len() as int) =~= all);
        builder.lemma_wf_fits();
    }
    Some(builder.finish())
}

} // verus!
