use nolladb::database::Database;
use nolladb::error::DbError;
use nolladb::execute::{execute, execute_statement, Outcome};
use nolladb::statement::{ColumnDef, ColumnOption, CreateQuery, Expr, InsertQuery, InsertSource, Statement};
use nolladb::table::Column;
use nolladb::value::{DataType, Value};

fn col(name: &str, data_type: Option<DataType>, options: Vec<ColumnOption>) -> ColumnDef {
    ColumnDef { name: name.to_string(), data_type, options }
}

fn create_users() -> Statement {
    Statement::CreateTable {
        name: "users".to_string(),
        columns: vec![
            col("id", Some(DataType::Integer), vec![ColumnOption::Unique]),
            col("name", Some(DataType::Text), vec![]),
        ],
        from_query: false,
    }
}

fn integer(n: i64) -> Expr {
    Expr::Value(Value::Integer(n))
}

fn text(s: &str) -> Expr {
    Expr::Value(Value::Text(s.to_string()))
}

fn insert(table: &str, columns: &[&str], rows: Vec<Vec<Expr>>) -> Statement {
    Statement::Insert {
        table_name: table.to_string(),
        columns: columns.iter().map(|c| c.to_string()).collect(),
        source: InsertSource::Values(rows),
    }
}

fn users_rows(db: &Database) -> usize {
    db.get_table(&"users".to_string()).unwrap().rows.len()
}

#[test]
fn create_users_table() {
    let mut db = Database::new();
    assert_eq!(execute_statement(&create_users(), &mut db), Ok(Outcome::CreateTable));
    assert!(db.has_table(&"users".to_string()));
    let table = db.get_table(&"users".to_string()).unwrap();
    assert_eq!(table.columns.len(), 2);
    assert_eq!(table.columns[0].name, "id");
    assert_eq!(table.columns[0].data_type, DataType::Integer);
    assert!(table.columns[0].unique);
    assert!(!table.columns[0].primary_key);
    assert_eq!(table.columns[1].name, "name");
    assert_eq!(table.columns[1].data_type, DataType::Text);
    assert!(!table.columns[1].unique);
    assert!(table.rows.is_empty());
}

#[test]
fn create_keeps_declared_order() {
    let mut db = Database::new();
    let s = Statement::CreateTable {
        name: "t".to_string(),
        columns: vec![
            col("c", Some(DataType::Boolean), vec![]),
            col("a", Some(DataType::Integer), vec![ColumnOption::PrimaryKey]),
            col("b", Some(DataType::Text), vec![ColumnOption::Other]),
        ],
        from_query: false,
    };
    assert_eq!(execute_statement(&s, &mut db), Ok(Outcome::CreateTable));
    let t = db.get_table(&"t".to_string()).unwrap();
    let names: Vec<&str> = t.columns.iter().map(|c| c.name.as_str()).collect();
    assert_eq!(names, vec!["c", "a", "b"]);
    assert!(t.columns[1].primary_key);
}

#[test]
fn create_same_name_twice_fails() {
    let mut db = Database::new();
    assert!(execute_statement(&create_users(), &mut db).is_ok());
    let other = Statement::CreateTable {
        name: "users".to_string(),
        columns: vec![col("x", Some(DataType::Boolean), vec![])],
        from_query: false,
    };
    assert_eq!(
        execute_statement(&other, &mut db),
        Err(DbError::DuplicateTable("users".to_string()))
    );
    assert_eq!(db.tables.len(), 1);
    let t = db.get_table(&"users".to_string()).unwrap();
    assert_eq!(t.columns.len(), 2);
    assert_eq!(t.columns[0].name, "id");
}

#[test]
fn table_names_are_case_sensitive() {
    let mut db = Database::new();
    assert!(execute_statement(&create_users(), &mut db).is_ok());
    let upper = Statement::CreateTable {
        name: "Users".to_string(),
        columns: vec![col("id", Some(DataType::Integer), vec![])],
        from_query: false,
    };
    assert_eq!(execute_statement(&upper, &mut db), Ok(Outcome::CreateTable));
    assert_eq!(db.tables.len(), 2);
}

#[test]
fn malformed_create_statements() {
    let mut db = Database::new();
    let no_columns = Statement::CreateTable { name: "t".to_string(), columns: vec![], from_query: false };
    assert_eq!(execute_statement(&no_columns, &mut db), Err(DbError::MalformedStatement));
    let as_query = Statement::CreateTable {
        name: "t".to_string(),
        columns: vec![col("a", Some(DataType::Integer), vec![])],
        from_query: true,
    };
    assert_eq!(execute_statement(&as_query, &mut db), Err(DbError::MalformedStatement));
    let bad_type = Statement::CreateTable {
        name: "t".to_string(),
        columns: vec![col("a", None, vec![])],
        from_query: false,
    };
    assert_eq!(execute_statement(&bad_type, &mut db), Err(DbError::MalformedStatement));
    let repeated = Statement::CreateTable {
        name: "t".to_string(),
        columns: vec![col("a", Some(DataType::Integer), vec![]), col("a", Some(DataType::Text), vec![])],
        from_query: false,
    };
    assert_eq!(execute_statement(&repeated, &mut db), Err(DbError::MalformedStatement));
    assert!(db.tables.is_empty());
}

#[test]
fn insert_duplicate_in_one_statement_keeps_first() {
    let mut db = Database::new();
    assert!(execute_statement(&create_users(), &mut db).is_ok());
    let s = insert("users", &["id", "name"], vec![vec![integer(1), text("a")], vec![integer(1), text("b")]]);
    assert_eq!(
        execute_statement(&s, &mut db),
        Err(DbError::UniqueConstraintViolation("id".to_string()))
    );
    assert_eq!(users_rows(&db), 1);
    let t = db.get_table(&"users".to_string()).unwrap();
    assert_eq!(t.rows[0], vec![Value::Integer(1), Value::Text("a".to_string())]);
}

#[test]
fn insert_into_missing_table() {
    let mut db = Database::new();
    assert!(execute_statement(&create_users(), &mut db).is_ok());
    let before = db.clone();
    let s = insert("missing_table", &["id"], vec![vec![integer(1)]]);
    assert_eq!(
        execute_statement(&s, &mut db),
        Err(DbError::UnknownTable("missing_table".to_string()))
    );
    assert_eq!(db.tables.len(), before.tables.len());
    assert_eq!(users_rows(&db), 0);
}

#[test]
fn insert_grows_row_count() {
    let mut db = Database::new();
    assert!(execute_statement(&create_users(), &mut db).is_ok());
    let s = insert(
        "users",
        &["id", "name"],
        vec![vec![integer(1), text("a")], vec![integer(2), text("b")], vec![integer(3), text("c")]],
    );
    assert_eq!(execute_statement(&s, &mut db), Ok(Outcome::Insert));
    assert_eq!(users_rows(&db), 3);
    let s = insert("users", &["name", "id"], vec![vec![text("d"), integer(4)]]);
    assert_eq!(execute_statement(&s, &mut db), Ok(Outcome::Insert));
    let t = db.get_table(&"users".to_string()).unwrap();
    assert_eq!(t.rows.len(), 4);
    assert_eq!(t.rows[3], vec![Value::Integer(4), Value::Text("d".to_string())]);
}

#[test]
fn insert_duplicate_against_existing_row() {
    let mut db = Database::new();
    assert!(execute_statement(&create_users(), &mut db).is_ok());
    assert!(execute_statement(&insert("users", &["id", "name"], vec![vec![integer(7), text("a")]]), &mut db).is_ok());
    let s = insert("users", &["id", "name"], vec![vec![integer(7), text("z")]]);
    assert_eq!(
        execute_statement(&s, &mut db),
        Err(DbError::UniqueConstraintViolation("id".to_string()))
    );
    assert_eq!(users_rows(&db), 1);
}

#[test]
fn non_unique_column_accepts_repeats() {
    let mut db = Database::new();
    assert!(execute_statement(&create_users(), &mut db).is_ok());
    let s = insert("users", &["id", "name"], vec![vec![integer(1), text("a")], vec![integer(2), text("a")]]);
    assert_eq!(execute_statement(&s, &mut db), Ok(Outcome::Insert));
    assert_eq!(users_rows(&db), 2);
}

#[test]
fn unnamed_columns_are_null() {
    let mut db = Database::new();
    assert!(execute_statement(&create_users(), &mut db).is_ok());
    let s = insert("users", &["name"], vec![vec![text("a")], vec![text("b")]]);
    assert_eq!(execute_statement(&s, &mut db), Ok(Outcome::Insert));
    let t = db.get_table(&"users".to_string()).unwrap();
    assert_eq!(t.rows[0], vec![Value::Null, Value::Text("a".to_string())]);
    assert_eq!(t.rows[1], vec![Value::Null, Value::Text("b".to_string())]);
}

#[test]
fn insert_unknown_column() {
    let mut db = Database::new();
    assert!(execute_statement(&create_users(), &mut db).is_ok());
    let s = insert("users", &["id", "age"], vec![vec![integer(1), integer(30)]]);
    assert_eq!(execute_statement(&s, &mut db), Err(DbError::UnknownColumn));
    assert_eq!(users_rows(&db), 0);
}

#[test]
fn insert_arity_mismatch() {
    let mut db = Database::new();
    assert!(execute_statement(&create_users(), &mut db).is_ok());
    let s = insert("users", &["id", "name"], vec![vec![integer(1), text("a")], vec![integer(2)]]);
    assert_eq!(
        execute_statement(&s, &mut db),
        Err(DbError::ArityMismatch { values: 1, columns: 2 })
    );
    assert_eq!(users_rows(&db), 1);
}

#[test]
fn malformed_insert_statements() {
    let mut db = Database::new();
    assert!(execute_statement(&create_users(), &mut db).is_ok());
    let from_query = Statement::Insert {
        table_name: "users".to_string(),
        columns: vec!["id".to_string()],
        source: InsertSource::Other,
    };
    assert_eq!(execute_statement(&from_query, &mut db), Err(DbError::MalformedStatement));
    let not_literal = insert("users", &["id"], vec![vec![Expr::Unsupported]]);
    assert_eq!(execute_statement(&not_literal, &mut db), Err(DbError::MalformedStatement));
    assert_eq!(users_rows(&db), 0);
}

#[test]
fn placeholder_statements_acknowledge() {
    let mut db = Database::new();
    assert_eq!(execute_statement(&Statement::Query, &mut db), Ok(Outcome::Select));
    assert_eq!(execute_statement(&Statement::Update, &mut db), Ok(Outcome::Update));
    assert_eq!(execute_statement(&Statement::Delete, &mut db), Ok(Outcome::Delete));
    assert_eq!(execute_statement(&Statement::Other, &mut db), Err(DbError::NotImplemented));
    assert!(db.tables.is_empty());
}

#[test]
fn two_statements_are_refused() {
    let mut db = Database::new();
    let second = Statement::CreateTable {
        name: "u".to_string(),
        columns: vec![col("a", Some(DataType::Integer), vec![])],
        from_query: false,
    };
    assert_eq!(
        execute(Ok(vec![create_users(), second]), &mut db),
        Err(DbError::UnsupportedInput(2))
    );
    assert!(db.tables.is_empty());
    assert_eq!(execute(Ok(vec![]), &mut db), Err(DbError::UnsupportedInput(0)));
    assert!(db.tables.is_empty());
}

#[test]
fn parse_error_is_reported() {
    let mut db = Database::new();
    assert_eq!(
        execute(Err("bad input".to_string()), &mut db),
        Err(DbError::ParseError("bad input".to_string()))
    );
    assert_eq!(execute(Ok(vec![create_users()]), &mut db), Ok(Outcome::CreateTable));
    assert!(db.has_table(&"users".to_string()));
}

#[test]
fn outcome_messages() {
    assert_eq!(Outcome::CreateTable.message(), "CREATE TABLE statement done");
    assert_eq!(Outcome::Select.message(), "SELECT statement done");
    assert_eq!(Outcome::Insert.message(), "INSERT statement done");
    assert_eq!(Outcome::Update.message(), "UPDATE statement done");
    assert_eq!(Outcome::Delete.message(), "DELETE statement done");
}

#[test]
fn translators_build_requests() {
    let q = CreateQuery::new(&create_users()).unwrap();
    assert_eq!(q.table_name, "users");
    assert_eq!(q.columns.len(), 2);
    assert!(q.columns[0].unique);
    assert!(CreateQuery::new(&Statement::Query).is_err());
    let s = insert("users", &["name", "id"], vec![vec![text("a"), integer(1)], vec![text("b"), integer(2)]]);
    let q = InsertQuery::new(&s).unwrap();
    assert_eq!(q.table_name, "users");
    assert_eq!(q.column_names, vec!["name".to_string(), "id".to_string()]);
    assert_eq!(q.values.len(), 2);
    assert_eq!(q.values[1], vec![Value::Text("b".to_string()), Value::Integer(2)]);
    assert_eq!(InsertQuery::new(&create_users()).err(), Some(DbError::MalformedStatement));
}

#[test]
fn table_checks_uniqueness_per_column() {
    let columns = vec![
        Column { name: "a".to_string(), data_type: DataType::Integer, unique: true, primary_key: false },
        Column { name: "b".to_string(), data_type: DataType::Text, unique: false, primary_key: true },
        Column { name: "c".to_string(), data_type: DataType::Boolean, unique: false, primary_key: false },
    ];
    let mut t = nolladb::table::Table::new("t".to_string(), columns);
    let names = vec!["a".to_string(), "b".to_string(), "c".to_string()];
    let row = vec![Value::Integer(1), Value::Text("x".to_string()), Value::Boolean(true)];
    assert_eq!(t.check_unique_constraint(&names, &row), Ok(()));
    t.insert_row(&names, &row);
    let same_b = vec![Value::Integer(2), Value::Text("x".to_string()), Value::Boolean(true)];
    assert_eq!(t.check_unique_constraint(&names, &same_b), Err("b".to_string()));
    let same_c = vec![Value::Integer(2), Value::Text("y".to_string()), Value::Boolean(true)];
    assert_eq!(t.check_unique_constraint(&names, &same_c), Ok(()));
    let nulls = vec![Value::Null, Value::Null, Value::Null];
    t.insert_row(&names, &nulls);
    assert_eq!(t.check_unique_constraint(&names, &nulls), Ok(()));
    assert!(t.has_column(&"c".to_string()));
    assert!(!t.has_column(&"d".to_string()));
}

#[test]
fn well_formedness_is_checked() {
    let mut db = Database::new();
    assert!(db.is_well_formed());
    assert!(execute_statement(&create_users(), &mut db).is_ok());
    assert!(execute_statement(&insert("users", &["id", "name"], vec![vec![integer(1), text("a")]]), &mut db).is_ok());
    assert!(db.is_well_formed());
    let mut broken = db.clone();
    broken.tables[0].rows.push(vec![Value::Integer(1), Value::Text("b".to_string())]);
    assert!(!broken.tables[0].is_well_formed());
    assert!(!broken.is_well_formed());
    let mut short_row = db.clone();
    short_row.tables[0].rows.push(vec![Value::Integer(2)]);
    assert!(!short_row.is_well_formed());
    let mut twice = db.clone();
    let copy = twice.tables[0].clone();
    twice.tables.push(copy);
    assert!(!twice.is_well_formed());
}

#[test]
fn get_table_mut_finds_by_name() {
    let mut db = Database::new();
    assert!(execute_statement(&create_users(), &mut db).is_ok());
    assert!(db.get_table_mut(&"nobody".to_string()).is_none());
    let t = db.get_table_mut(&"users".to_string()).unwrap();
    let names = vec!["id".to_string()];
    assert_eq!(t.insert_tuples(&names, &vec![vec![Value::Integer(5)]]), Ok(()));
    assert_eq!(users_rows(&db), 1);
}
