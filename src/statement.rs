use vstd::prelude::*;
use crate::error::DbError;
use crate::table::{Column, names_distinct, names_of};
use crate::value::{DataType, Value};

verus! {

/// A constraint written on a column definition.
#[derive(Debug, Clone, Copy, PartialEq, Eq, Structural)]
pub enum ColumnOption {
    Unique,
    PrimaryKey,
    /// Any other option (`NOT NULL`, `DEFAULT ...`); carries no rule here.
    Other,
}

/// A column definition as written in `CREATE TABLE`. `data_type` is `None` for a type
/// this database does not store.
#[derive(Debug, Clone)]
pub struct ColumnDef {
    pub name: String,
    pub data_type: Option<DataType>,
    pub options: Vec<ColumnOption>,
}

/// An expression in a `VALUES` tuple: a literal value, or anything else.
#[derive(Debug, Clone)]
pub enum Expr {
    Value(Value),
    Unsupported,
}

/// Where an `INSERT` takes its rows from.
#[derive(Debug, Clone)]
pub enum InsertSource {
    Values(Vec<Vec<Expr>>),
    /// A query or another source that is not a `VALUES` list.
    Other,
}

/// One parsed SQL statement, by kind.
#[derive(Debug, Clone)]
pub enum Statement {
    /// `CREATE TABLE`; `from_query` is set for `CREATE TABLE ... AS SELECT`.
    CreateTable { name: String, columns: Vec<ColumnDef>, from_query: bool },
    /// `SELECT`.
    Query,
    /// `INSERT INTO name (columns) source`.
    Insert { table_name: String, columns: Vec<String>, source: InsertSource },
    Update,
    Delete,
    /// Any other kind of statement.
    Other,
}

/// A validated `CREATE TABLE` request.
#[derive(Debug, Clone)]
pub struct CreateQuery {
    pub table_name: String,
    pub columns: Vec<Column>,
}

/// A validated `INSERT` request: the target table, the target columns as named in the
/// statement, and the value tuples in source order.
#[derive(Debug, Clone)]
pub struct InsertQuery {
    pub table_name: String,
    pub column_names: Vec<String>,
    pub values: Vec<Vec<Value>>,
}

/// The column that a definition declares.
pub open spec fn column_of(d: ColumnDef) -> Column {
    Column {
        name: d.name,
        data_type: d.data_type->Some_0,
        unique: d.options@.contains(ColumnOption::Unique),
        primary_key: d.options@.contains(ColumnOption::PrimaryKey),
    }
}

/// The names of column definitions, in order.
pub open spec fn def_names(defs: Seq<ColumnDef>) -> Seq<Seq<char>> {
    defs.map_values(|d: ColumnDef| d.name@)
}

/// A `CREATE TABLE` statement carries what a table needs: a non-empty list of column
/// definitions of stored types with distinct names, and no query.
pub open spec fn create_well_formed(s: Statement) -> bool {
    match s {
        Statement::CreateTable { name, columns, from_query } => !from_query && columns@.len() > 0
            && (forall|i: int| 0 <= i < columns@.len() ==> (#[trigger] columns@[i]).data_type is Some)
            && names_distinct(def_names(columns@)),
        _ => false,
    }
}

/// The value of a literal expression.
pub open spec fn expr_value(e: Expr) -> Value {
    match e {
        Expr::Value(v) => v,
        Expr::Unsupported => Value::Null,
    }
}

/// The values of a tuple of expressions.
pub open spec fn tuple_values(t: Seq<Expr>) -> Seq<Value> {
    t.map_values(|e: Expr| expr_value(e))
}

/// An `INSERT` statement takes its rows from a `VALUES` list of literals only.
pub open spec fn insert_well_formed(s: Statement) -> bool {
    match s {
        Statement::Insert { source, .. } => match source {
            InsertSource::Values(rows) => forall|k: int, i: int|
                0 <= k < rows@.len() && 0 <= i < rows@[k]@.len() ==> (#[trigger] rows@[k]@[i]) is Value,
            InsertSource::Other => false,
        },
        _ => false,
    }
}

/// Whether `opts` holds `o`.
fn has_option(opts: &Vec<ColumnOption>, o: ColumnOption) -> (r: bool)
    ensures
        r == opts@.contains(o),
{
    let mut i: usize = 0;
    while i < opts.len()
        invariant
            i <= opts@.len(),
            forall|k: int| 0 <= k < i ==> opts@[k] != o,
        decreases opts@.len() - i,
    {
        if opts[i] == o {
            return true;
        }
        i = i + 1;
    }
    false
}

/// A copy of a list of names.
fn copy_names(names: &Vec<String>) -> (r: Vec<String>)
    ensures
        r@ == names@,
{
    let mut r: Vec<String> = Vec::new();
    let mut i: usize = 0;
    while i < names.len()
        invariant
            i <= names@.len(),
            r@ == names@.take(i as int),
        decreases names@.len() - i,
    {
        r.push(names[i].clone());
        i = i + 1;
        proof {
            assert(r@ =~= names@.take(i as int));
        }
    }
    proof {
        assert(r@ =~= names@);
    }
    r
}

impl CreateQuery {
    /// Translates a `CREATE TABLE` statement, keeping the order of its columns. Fails with
    /// `MalformedStatement` on any other statement and on one without the expected shape.
    pub fn new(statement: &Statement) -> (r: Result<CreateQuery, DbError>)
        ensures
            r is Ok <==> create_well_formed(*statement),
            r is Err ==> r == Err::<CreateQuery, DbError>(DbError::MalformedStatement),
            r matches Ok(q) ==> statement matches Statement::CreateTable { name, columns, .. }
                && q.table_name == name && q.columns@ == columns@.map_values(|d: ColumnDef| column_of(d)),
            r matches Ok(q) ==> names_distinct(names_of(q.columns@)),
    {
        match statement {
            Statement::CreateTable { name, columns: defs, from_query } => {
                if *from_query || defs.len() == 0 {
                    return Err(DbError::MalformedStatement);
                }
                let ghost target = defs@.map_values(|d: ColumnDef| column_of(d));
                let mut columns: Vec<Column> = Vec::new();
                let mut i: usize = 0;
                while i < defs.len()
                    invariant
                        i <= defs@.len(),
                        *statement == (Statement::CreateTable { name: *name, columns: *defs, from_query: false }),
                        target == defs@.map_values(|d: ColumnDef| column_of(d)),
                        columns@ == target.take(i as int),
                        forall|k: int| 0 <= k < i ==> (#[trigger] defs@[k]).data_type is Some,
                        forall|a: int, b: int| 0 <= a < b < i ==> defs@[a].name@ != defs@[b].name@,
                    decreases defs@.len() - i,
                {
                    let d = &defs[i];
                    let data_type = match d.data_type {
                        Some(t) => t,
                        None => {
                            assert(!(defs@[i as int].data_type is Some));
                            return Err(DbError::MalformedStatement);
                        },
                    };
                    let mut k: usize = 0;
                    while k < i
                        invariant
                            k <= i < defs@.len(),
                            *statement == (Statement::CreateTable { name: *name, columns: *defs, from_query: false }),
                            d == defs@[i as int],
                            forall|a: int| 0 <= a < k ==> defs@[a].name@ != d.name@,
                        decreases i - k,
                    {
                        if defs[k].name == d.name {
                            proof {
                                assert(def_names(defs@)[k as int] == def_names(defs@)[i as int]);
                                assert(!names_distinct(def_names(defs@)));
                            }
                            return Err(DbError::MalformedStatement);
                        }
                        k = k + 1;
                    }
                    columns.push(Column {
                        name: d.name.clone(),
                        data_type,
                        unique: has_option(&d.options, ColumnOption::Unique),
                        primary_key: has_option(&d.options, ColumnOption::PrimaryKey),
                    });
                    i = i + 1;
                    proof {
                        assert(columns@ =~= target.take(i as int));
                    }
                }
                proof {
                    assert(columns@ =~= target);
                    assert(names_distinct(def_names(defs@)));
                    assert(names_of(columns@) =~= def_names(defs@));
                }
                Ok(CreateQuery { table_name: name.clone(), columns })
            },
            _ => Err(DbError::MalformedStatement),
        }
    }
}

impl InsertQuery {
    /// Translates an `INSERT ... VALUES` statement, keeping its target columns and its
    /// tuples in source order. Fails with `MalformedStatement` on any other statement, on
    /// another source than `VALUES`, and on a value that is not a literal.
    pub fn new(statement: &Statement) -> (r: Result<InsertQuery, DbError>)
        ensures
            r is Ok <==> insert_well_formed(*statement),
            r is Err ==> r == Err::<InsertQuery, DbError>(DbError::MalformedStatement),
            r matches Ok(q) ==> statement matches Statement::Insert { table_name, columns, source }
                && source matches InsertSource::Values(rows)
                && q.table_name == table_name && q.column_names@ == columns@
                && q.values@.len() == rows@.len()
                && forall|k: int| 0 <= k < rows@.len() ==> (#[trigger] q.values@[k])@ == tuple_values(rows@[k]@),
    {
        match statement {
            Statement::Insert { table_name, columns, source } => match source {
                InsertSource::Values(rows) => {
                    let mut values: Vec<Vec<Value>> = Vec::new();
                    let mut k: usize = 0;
                    while k < rows.len()
                        invariant
                            k <= rows@.len(),
                            *statement == (Statement::Insert { table_name: *table_name, columns: *columns, source: *source }),
                            *source == InsertSource::Values(*rows),
                            values@.len() == k,
                            forall|a: int| 0 <= a < k ==> (#[trigger] values@[a])@ == tuple_values(rows@[a]@),
                            forall|a: int, i: int|
                                0 <= a < k && 0 <= i < rows@[a]@.len() ==> (#[trigger] rows@[a]@[i]) is Value,
                        decreases rows@.len() - k,
                    {
                        let tuple = &rows[k];
                        let mut row: Vec<Value> = Vec::new();
                        let mut i: usize = 0;
                        while i < tuple.len()
                            invariant
                                k < rows@.len(),
                                tuple == rows@[k as int],
                                i <= tuple@.len(),
                                *statement == (Statement::Insert { table_name: *table_name, columns: *columns, source: *source }),
                                *source == InsertSource::Values(*rows),
                                row@ == tuple_values(tuple@).take(i as int),
                                forall|b: int| 0 <= b < i ==> (#[trigger] tuple@[b]) is Value,
                            decreases tuple@.len() - i,
                        {
                            match &tuple[i] {
                                Expr::Value(v) => {
                                    row.push(v.copied());
                                },
                                Expr::Unsupported => {
                                    proof {
                                        assert(!(rows@[k as int]@[i as int] is Value));
                                    }
                                    return Err(DbError::MalformedStatement);
                                },
                            }
                            i = i + 1;
                            proof {
                                assert(row@ =~= tuple_values(tuple@).take(i as int));
                            }
                        }
                        proof {
                            assert(row@ =~= tuple_values(tuple@));
                        }
                        values.push(row);
                        k = k + 1;
                    }
                    Ok(InsertQuery { table_name: table_name.clone(), column_names: copy_names(columns), values })
                },
                InsertSource::Other => Err(DbError::MalformedStatement),
            },
            _ => Err(DbError::MalformedStatement),
        }
    }
}

} // verus!
