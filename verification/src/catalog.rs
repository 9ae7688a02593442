//! Catalog snapshots: the databases of a server and the tables of each.

use vstd::prelude::*;

verus! {

/// The schema of one table, as a mathematical value.
pub ghost struct TableSchemaView {
    pub name: Seq<char>,
    pub id: u32,
    pub columns: Seq<Seq<char>>,
}

/// The schema of one database, as a mathematical value.
pub ghost struct DatabaseSchemaView {
    pub name: Seq<char>,
    pub id: u32,
    pub deleted: bool,
    pub tables: Seq<TableSchemaView>,
}

/// The schema of one table: its name, its id and the names of its columns.
#[derive(Debug)]
pub struct TableSchema {
    pub name: String,
    pub id: u32,
    pub columns: Vec<String>,
}

/// A snapshot of one database: its name, its id, whether it was deleted, and
/// its tables.
#[derive(Debug)]
pub struct DatabaseSchema {
    pub name: String,
    pub id: u32,
    pub deleted: bool,
    pub tables: Vec<TableSchema>,
}

/// The databases that a server knows, deleted ones included.
#[derive(Debug)]
pub struct Catalog {
    pub databases: Vec<DatabaseSchema>,
}

/// The texts of a sequence of strings.
pub open spec fn texts(v: Seq<String>) -> Seq<Seq<char>> {
    Seq::new(v.len(), |i: int| v[i]@)
}

/// The values of a sequence of table schemas.
pub open spec fn table_views(v: Seq<TableSchema>) -> Seq<TableSchemaView> {
    Seq::new(v.len(), |i: int| v[i]@)
}

/// The values of a sequence of database schemas.
pub open spec fn database_views(v: Seq<DatabaseSchema>) -> Seq<DatabaseSchemaView> {
    Seq::new(v.len(), |i: int| v[i]@)
}

/// Whether `tables` holds a table called `name`.
pub open spec fn has_table(tables: Seq<TableSchemaView>, name: Seq<char>) -> bool {
    exists|i: int| 0 <= i < tables.len() && (#[trigger] tables[i]).name == name
}

/// Whether `i` is the position of the first table of `tables` called `name`.
pub open spec fn is_first_table(tables: Seq<TableSchemaView>, name: Seq<char>, i: int) -> bool {
    &&& 0 <= i < tables.len()
    &&& tables[i].name == name
    &&& forall|j: int| 0 <= j < i ==> (#[trigger] tables[j]).name != name
}

/// Whether `table` is the first table of `tables` called `name`.
pub open spec fn is_table_named(
    tables: Seq<TableSchemaView>,
    name: Seq<char>,
    table: TableSchemaView,
) -> bool {
    exists|i: int| is_first_table(tables, name, i) && table == tables[i]
}

/// Whether `databases` holds a database called `name` that is not deleted.
pub open spec fn is_visible(databases: Seq<DatabaseSchemaView>, name: Seq<char>) -> bool {
    exists|i: int|
        0 <= i < databases.len() && (#[trigger] databases[i]).name == name && !databases[i].deleted
}

/// Whether `i` is the position of the first database of `databases` that is
/// called `name` and not deleted.
pub open spec fn is_first_visible(
    databases: Seq<DatabaseSchemaView>,
    name: Seq<char>,
    i: int,
) -> bool {
    &&& 0 <= i < databases.len()
    &&& databases[i].name == name
    &&& !databases[i].deleted
    &&& forall|j: int|
        0 <= j < i ==> !((#[trigger] databases[j]).name == name && !databases[j].deleted)
}

/// Whether `db` is the first database of `databases` that is called `name`
/// and not deleted.
pub open spec fn is_database_named(
    databases: Seq<DatabaseSchemaView>,
    name: Seq<char>,
    db: DatabaseSchemaView,
) -> bool {
    exists|i: int| is_first_visible(databases, name, i) && db == databases[i]
}

/// A copy of `v`, string by string.
pub fn copy_strings(v: &Vec<String>) -> (res: Vec<String>)
    ensures
        res@ == v@,
{
    let mut out: Vec<String> = Vec::new();
    let mut i: usize = 0;
    while i < v.len()
        invariant
            i <= v.len(),
            out@ == v@.take(i as int),
        decreases v.len() - i,
    {
        out.push(v[i].clone());
        assert(out@ =~= v@.take(i + 1));
        i = i + 1;
    }
    assert(v@.take(v.len() as int) =~= v@);
    out
}

impl View for TableSchema {
    type V = TableSchemaView;

    open spec fn view(&self) -> TableSchemaView {
        TableSchemaView { name: self.name@, id: self.id, columns: texts(self.columns@) }
    }
}

impl TableSchema {
    /// A copy of this schema.
    pub fn snapshot(&self) -> (res: TableSchema)
        ensures
            res@ == self@,
    {
        TableSchema { name: self.name.clone(), id: self.id, columns: copy_strings(&self.columns) }
    }
}

impl View for DatabaseSchema {
    type V = DatabaseSchemaView;

    open spec fn view(&self) -> DatabaseSchemaView {
        DatabaseSchemaView {
            name: self.name@,
            id: self.id,
            deleted: self.deleted,
            tables: table_views(self.tables@),
        }
    }
}

impl DatabaseSchema {
    /// A copy of this snapshot, which later changes of the catalog do not reach.
    pub fn snapshot(&self) -> (res: DatabaseSchema)
        ensures
            res@ == self@,
    {
        let mut tables: Vec<TableSchema> = Vec::new();
        let mut i: usize = 0;
        while i < self.tables.len()
            invariant
                i <= self.tables.len(),
                tables@.len() == i,
                forall|j: int| 0 <= j < i ==> (#[trigger] tables@[j])@ == self.tables@[j]@,
            decreases self.tables.len() - i,
        {
            tables.push(self.tables[i].snapshot());
            i = i + 1;
        }
        assert(table_views(tables@) =~= table_views(self.tables@));
        DatabaseSchema { name: self.name.clone(), id: self.id, deleted: self.deleted, tables }
    }

    /// The position of the first table called `name`, if there is one.
    pub fn table_position(&self, name: &str) -> (pos: Option<usize>)
        ensures
            match pos {
                Some(i) => is_first_table(self@.tables, name@, i as int),
                None => !has_table(self@.tables, name@),
            },
    {
        let wanted = name.to_owned();
        let mut i: usize = 0;
        while i < self.tables.len()
            invariant
                i <= self.tables.len(),
                wanted@ == name@,
                forall|j: int| 0 <= j < i ==> (#[trigger] self@.tables[j]).name != name@,
            decreases self.tables.len() - i,
        {
            if self.tables[i].name == wanted {
                return Some(i);
            }
            i = i + 1;
        }
        None
    }

    /// The schema of the first table called `name`, if there is one.
    pub fn table_schema(&self, name: &str) -> (res: Option<TableSchema>)
        ensures
            res.is_some() <==> has_table(self@.tables, name@),
            res matches Some(t) ==> is_table_named(self@.tables, name@, t@),
    {
        match self.table_position(name) {
            Some(i) => Some(self.tables[i].snapshot()),
            None => None,
        }
    }

    /// The id of the first table called `name`, if there is one.
    pub fn table_name_to_id(&self, name: &str) -> (res: Option<u32>)
        ensures
            res.is_some() <==> has_table(self@.tables, name@),
            res matches Some(id) ==> exists|i: int|
                is_first_table(self@.tables, name@, i) && id == self@.tables[i].id,
    {
        match self.table_position(name) {
            Some(i) => Some(self.tables[i].id),
            None => None,
        }
    }

    /// The names of the tables, in the order of the snapshot.
    pub fn table_names(&self) -> (names: Vec<String>)
        ensures
            names@.len() == self@.tables.len(),
            forall|i: int| 0 <= i < names@.len() ==> (#[trigger] names@[i])@ == self@.tables[i].name,
    {
        let mut names: Vec<String> = Vec::new();
        let mut i: usize = 0;
        while i < self.tables.len()
            invariant
                i <= self.tables.len(),
                names@.len() == i,
                forall|j: int| 0 <= j < i ==> (#[trigger] names@[j])@ == self@.tables[j].name,
            decreases self.tables.len() - i,
        {
            names.push(self.tables[i].name.clone());
            i = i + 1;
        }
        names
    }
}

impl View for Catalog {
    type V = Seq<DatabaseSchemaView>;

    open spec fn view(&self) -> Seq<DatabaseSchemaView> {
        database_views(self.databases@)
    }
}

impl Catalog {
    /// The position of the first database called `name` that is not deleted.
    pub fn db_position(&self, name: &str) -> (pos: Option<usize>)
        ensures
            match pos {
                Some(i) => is_first_visible(self@, name@, i as int),
                None => !is_visible(self@, name@),
            },
    {
        let wanted = name.to_owned();
        let mut i: usize = 0;
        while i < self.databases.len()
            invariant
                i <= self.databases.len(),
                wanted@ == name@,
                forall|j: int|
                    0 <= j < i ==> !((#[trigger] self@[j]).name == name@ && !self@[j].deleted),
            decreases self.databases.len() - i,
        {
            if !self.databases[i].deleted && self.databases[i].name == wanted {
                return Some(i);
            }
            i = i + 1;
        }
        None
    }

    /// A snapshot of the database called `name`: the first one of that name that
    /// is not deleted. A deleted database is hidden.
    pub fn db_schema(&self, name: &str) -> (res: Option<DatabaseSchema>)
        ensures
            res.is_some() <==> is_visible(self@, name@),
            res matches Some(db) ==> is_database_named(self@, name@, db@),
    {
        match self.db_position(name) {
            Some(i) => Some(self.databases[i].snapshot()),
            None => None,
        }
    }
}

} // verus!
