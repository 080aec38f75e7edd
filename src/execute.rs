use vstd::prelude::*;
use crate::database::Database;
use crate::error::DbError;
use crate::statement::{
    ColumnDef, CreateQuery, Expr, InsertQuery, Statement, column_of, create_well_formed,
    insert_well_formed, tuple_values,
};
use crate::table::{Column, Table, column_exists, names_distinct, names_of, tuple_seqs, tuples_applied};
use crate::value::Value;

verus! {

/// The kind of statement that completed.
#[derive(Debug, Clone, Copy, PartialEq, Eq, Structural)]
pub enum Outcome {
    CreateTable,
    Select,
    Insert,
    Update,
    Delete,
}

impl Outcome {
    /// The confirmation shown for this outcome.
    pub fn message(&self) -> (r: &'static str)
        ensures
            *self == Outcome::CreateTable ==> r@ == "CREATE TABLE statement done"@,
            *self == Outcome::Select ==> r@ == "SELECT statement done"@,
            *self == Outcome::Insert ==> r@ == "INSERT statement done"@,
            *self == Outcome::Update ==> r@ == "UPDATE statement done"@,
            *self == Outcome::Delete ==> r@ == "DELETE statement done"@,
    {
        match self {
            Outcome::CreateTable => "CREATE TABLE statement done",
            Outcome::Select => "SELECT statement done",
            Outcome::Insert => "INSERT statement done",
            Outcome::Update => "UPDATE statement done",
            Outcome::Delete => "DELETE statement done",
        }
    }
}

/// What creating table `name` with `columns` does: it fails with `DuplicateTable` and changes
/// nothing when the name is taken, and otherwise appends an empty table with those columns
/// in that order.
pub open spec fn create_effect(
    old: Database,
    name: String,
    columns: Seq<Column>,
    new: Database,
    r: Result<(), DbError>,
) -> bool {
    if old.has_table_spec(name@) {
        r == Err::<(), DbError>(DbError::DuplicateTable(name)) && new == old
    } else {
        &&& r is Ok
        &&& new.tables@.len() == old.tables@.len() + 1
        &&& new.tables@.drop_last() == old.tables@
        &&& new.tables@.last().name == name
        &&& new.tables@.last().columns@ == columns
        &&& new.tables@.last().rows@.len() == 0
    }
}

/// Some target name is not a column of `table`.
pub open spec fn unknown_target(table: Table, names: Seq<String>) -> bool {
    exists|j: int| 0 <= j < names.len() && !column_exists(table.columns@, (#[trigger] names[j])@)
}

/// What inserting `tuples` under the target columns `names` into table `name` does: it
/// fails with `UnknownTable` or `UnknownColumn` and changes nothing when the table or a
/// target column is missing; otherwise only that table's rows change, as the tuples are
/// applied one at a time.
pub open spec fn insert_effect(
    old: Database,
    name: String,
    names: Seq<String>,
    tuples: Seq<Seq<Value>>,
    new: Database,
    r: Result<(), DbError>,
) -> bool {
    if !old.has_table_spec(name@) {
        r == Err::<(), DbError>(DbError::UnknownTable(name)) && new == old
    } else if unknown_target(old.table_named(name@), names) {
        r == Err::<(), DbError>(DbError::UnknownColumn) && new == old
    } else {
        let i = old.index_of(name@);
        let t = old.tables@[i];
        let u = new.tables@[i];
        &&& new.tables@.len() == old.tables@.len()
        &&& forall|j: int| 0 <= j < old.tables@.len() && j != i ==> new.tables@[j] == old.tables@[j]
        &&& u.name == t.name
        &&& u.columns == t.columns
        &&& tuples_applied(t.columns@, t.row_seqs(), names, tuples, u.row_seqs(), r)
    }
}

/// The columns that a `CREATE TABLE`'s definitions declare.
pub open spec fn declared_columns(defs: Seq<ColumnDef>) -> Seq<Column> {
    defs.map_values(|d: ColumnDef| column_of(d))
}

/// The value tuples of a `VALUES` list of literals.
pub open spec fn literal_tuples(rows: Seq<Vec<Expr>>) -> Seq<Seq<Value>> {
    rows.map_values(|t: Vec<Expr>| tuple_values(t@))
}

/// The error of a result, with the success value dropped.
pub open spec fn unit_of(r: Result<Outcome, DbError>) -> Result<(), DbError> {
    match r {
        Ok(_) => Ok(()),
        Err(e) => Err(e),
    }
}

/// What executing one statement does to a database and what it returns.
pub open spec fn statement_effect(old: Database, s: Statement, new: Database, r: Result<Outcome, DbError>) -> bool {
    match s {
        Statement::CreateTable { name, columns, .. } => if create_well_formed(s) {
            (r is Ok ==> r == Ok::<Outcome, DbError>(Outcome::CreateTable))
                && create_effect(old, name, declared_columns(columns@), new, unit_of(r))
        } else {
            r == Err::<Outcome, DbError>(DbError::MalformedStatement) && new == old
        },
        Statement::Insert { table_name, columns, source } => if insert_well_formed(s) {
            (r is Ok ==> r == Ok::<Outcome, DbError>(Outcome::Insert))
                && insert_effect(old, table_name, columns@, literal_tuples(source->Values_0@), new, unit_of(r))
        } else {
            r == Err::<Outcome, DbError>(DbError::MalformedStatement) && new == old
        },
        Statement::Query => r == Ok::<Outcome, DbError>(Outcome::Select) && new == old,
        Statement::Update => r == Ok::<Outcome, DbError>(Outcome::Update) && new == old,
        Statement::Delete => r == Ok::<Outcome, DbError>(Outcome::Delete) && new == old,
        Statement::Other => r == Err::<Outcome, DbError>(DbError::NotImplemented) && new == old,
    }
}

/// Creates the table that `query` describes, unless a table of that name exists.
pub fn execute_create(query: CreateQuery, database: &mut Database) -> (r: Result<(), DbError>)
    requires
        old(database).wf(),
        names_distinct(names_of(query.columns@)),
    ensures
        final(database).wf(),
        create_effect(*old(database), query.table_name, query.columns@, *final(database), r),
{
    if database.has_table(&query.table_name) {
        return Err(DbError::DuplicateTable(query.table_name));
    }
    let table = Table::new(query.table_name, query.columns);
    database.add_table(table);
    proof {
        assert(database.tables@.drop_last() =~= old(database).tables@);
    }
    Ok(())
}

/// Inserts the tuples of `query` into its table, one at a time and in order. Tuples applied
/// before a failing one stay in the table.
pub fn execute_insert(query: InsertQuery, database: &mut Database) -> (r: Result<(), DbError>)
    requires
        old(database).wf(),
    ensures
        final(database).wf(),
        insert_effect(*old(database), query.table_name, query.column_names@, tuple_seqs(query.values@),
            *final(database), r),
{
    let idx = match database.find_table(&query.table_name) {
        Some(i) => i,
        None => {
            return Err(DbError::UnknownTable(query.table_name));
        },
    };
    proof {
        database.lemma_index_unique(query.table_name@, idx as int);
    }
    let mut j: usize = 0;
    while j < query.column_names.len()
        invariant
            j <= query.column_names@.len(),
            idx < database.tables@.len(),
            *database == *old(database),
            database.wf(),
            old(database).index_of(query.table_name@) == idx,
            database.tables@[idx as int].name@ == query.table_name@,
            forall|k: int| 0 <= k < j ==> column_exists(database.tables@[idx as int].columns@, (#[trigger] query.column_names@[k])@),
        decreases query.column_names@.len() - j,
    {
        if !database.tables[idx].has_column(&query.column_names[j]) {
            assert(unknown_target(old(database).table_named(query.table_name@), query.column_names@));
            return Err(DbError::UnknownColumn);
        }
        j = j + 1;
    }
    assert(database.tables@[idx as int].wf());
    let r = database.tables[idx].insert_tuples(&query.column_names, &query.values);
    proof {
        let names = crate::database::table_names(database.tables@);
        assert(names =~= crate::database::table_names(old(database).tables@));
        assert forall|i: int| 0 <= i < database.tables@.len() implies #[trigger] database.tables@[i].wf() by {
            if i != idx {
                assert(database.tables@[i] == old(database).tables@[i]);
            }
        }
    }
    r
}

/// Executes one statement: `CREATE TABLE` and `INSERT` are translated and applied;
/// `SELECT`, `UPDATE` and `DELETE` are acknowledged without any effect; any other kind
/// fails with `NotImplemented`.
pub fn execute_statement(statement: &Statement, database: &mut Database) -> (r: Result<Outcome, DbError>)
    requires
        old(database).wf(),
    ensures
        final(database).wf(),
        statement_effect(*old(database), *statement, *final(database), r),
{
    match statement {
        Statement::CreateTable { .. } => match CreateQuery::new(statement) {
            Ok(query) => match execute_create(query, database) {
                Ok(()) => Ok(Outcome::CreateTable),
                Err(e) => Err(e),
            },
            Err(e) => Err(e),
        },
        Statement::Insert { source, .. } => match InsertQuery::new(statement) {
            Ok(query) => {
                proof {
                    assert(tuple_seqs(query.values@) =~= literal_tuples(source->Values_0@));
                }
                match execute_insert(query, database) {
                    Ok(()) => Ok(Outcome::Insert),
                    Err(e) => Err(e),
                }
            },
            Err(e) => Err(e),
        },
        Statement::Query => Ok(Outcome::Select),
        Statement::Update => Ok(Outcome::Update),
        Statement::Delete => Ok(Outcome::Delete),
        Statement::Other => Err(DbError::NotImplemented),
    }
}

/// Executes parsed input, which must hold exactly one statement. A parser failure comes
/// back as `ParseError`; any other number of statements fails with `UnsupportedInput`,
/// carrying that number, and none of them is executed.
pub fn execute(parsed: Result<Vec<Statement>, String>, database: &mut Database) -> (r: Result<Outcome, DbError>)
    requires
        old(database).wf(),
    ensures
        final(database).wf(),
        match parsed {
            Err(msg) => r == Err::<Outcome, DbError>(DbError::ParseError(msg)) && *final(database) == *old(database),
            Ok(statements) => if statements@.len() != 1 {
                r == Err::<Outcome, DbError>(DbError::UnsupportedInput(statements@.len() as usize))
                    && *final(database) == *old(database)
            } else {
                statement_effect(*old(database), statements@[0], *final(database), r)
            },
        },
{
    match parsed {
        Err(msg) => Err(DbError::ParseError(msg)),
        Ok(statements) => {
            if statements.len() != 1 {
                Err(DbError::UnsupportedInput(statements.len()))
            } else {
                execute_statement(&statements[0], database)
            }
        },
    }
}

} // verus!
