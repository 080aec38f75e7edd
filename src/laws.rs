use vstd::prelude::*;
use crate::database::Database;
use crate::error::DbError;
use crate::execute::{Outcome, declared_columns, literal_tuples, statement_effect, unknown_target};
use crate::statement::{Statement, create_well_formed, insert_well_formed};
use crate::table::{Table, fits_before, rows_after, tuple_error, tuple_fits, violates_unique};
use crate::value::Value;

verus! {

/// The tuples of an `INSERT ... VALUES` statement.
pub open spec fn insert_tuples_of(s: Statement) -> Seq<Seq<Value>> {
    literal_tuples(s->Insert_source->Values_0@)
}

/// The table that an `INSERT` statement targets, in `db`.
pub open spec fn insert_target(db: Database, s: Statement) -> Table {
    db.table_named(s->Insert_table_name@)
}

/// A well-formed `CREATE TABLE` under a name that no table has succeeds, and right after it
/// a table of that name exists, with the declared columns in declaration order and no rows.
pub proof fn lemma_create_adds_table(old: Database, s: Statement, new: Database, r: Result<Outcome, DbError>)
    requires
        old.wf(),
        new.wf(),
        create_well_formed(s),
        !old.has_table_spec(s->CreateTable_name@),
        statement_effect(old, s, new, r),
    ensures
        r == Ok::<Outcome, DbError>(Outcome::CreateTable),
        new.has_table_spec(s->CreateTable_name@),
        new.table_named(s->CreateTable_name@).columns@ == declared_columns(s->CreateTable_columns@),
        new.table_named(s->CreateTable_name@).rows@.len() == 0,
{
    let last = new.tables@.len() - 1;
    assert(new.tables@[last] == new.tables@.last());
    new.lemma_index_unique(s->CreateTable_name@, last);
}

/// Creating two tables of one name in sequence: the second fails with `DuplicateTable` and
/// leaves the database, the schema of the first table included, as the first left it.
pub proof fn lemma_create_twice(
    d0: Database,
    s1: Statement,
    d1: Database,
    r1: Result<Outcome, DbError>,
    s2: Statement,
    d2: Database,
    r2: Result<Outcome, DbError>,
)
    requires
        create_well_formed(s1),
        create_well_formed(s2),
        s1->CreateTable_name@ == s2->CreateTable_name@,
        statement_effect(d0, s1, d1, r1),
        statement_effect(d1, s2, d2, r2),
    ensures
        r2 == Err::<Outcome, DbError>(DbError::DuplicateTable(s2->CreateTable_name)),
        d2 == d1,
{
    if !d0.has_table_spec(s1->CreateTable_name@) {
        let last = d1.tables@.len() - 1;
        assert(d1.tables@[last] == d1.tables@.last());
        assert(d1.has_table_spec(s2->CreateTable_name@));
    } else {
        assert(d1 == d0);
    }
}

/// An `INSERT` into an existing table that names only its columns, with every tuple of the
/// right length, grows the table by exactly the tuples it applied: all of them on success;
/// otherwise those before the first that breaks a uniqueness constraint.
pub proof fn lemma_insert_row_count(old: Database, s: Statement, new: Database, r: Result<Outcome, DbError>)
    requires
        old.wf(),
        new.wf(),
        insert_well_formed(s),
        old.has_table_spec(s->Insert_table_name@),
        !unknown_target(insert_target(old, s), s->Insert_columns@),
        forall|k: int| 0 <= k < insert_tuples_of(s).len() ==> (#[trigger] insert_tuples_of(s)[k]).len()
            == s->Insert_columns@.len(),
        statement_effect(old, s, new, r),
    ensures
        new.has_table_spec(s->Insert_table_name@),
        r is Ok ==> insert_target(new, s).rows@.len() == insert_target(old, s).rows@.len()
            + insert_tuples_of(s).len(),
        r is Err ==> exists|k: int| 0 <= k < insert_tuples_of(s).len()
            && insert_target(new, s).rows@.len() == insert_target(old, s).rows@.len() + k
            && fits_before(insert_target(old, s).columns@, insert_target(old, s).row_seqs(),
                s->Insert_columns@, insert_tuples_of(s), k)
            && !tuple_fits(insert_target(old, s).columns@, rows_after(insert_target(old, s).columns@,
                insert_target(old, s).row_seqs(), s->Insert_columns@, insert_tuples_of(s), k),
                s->Insert_columns@, insert_tuples_of(s)[k]),
        r is Err ==> r->Err_0 is UniqueConstraintViolation,
{
    let name = s->Insert_table_name@;
    let i = old.index_of(name);
    assert(new.tables@[i].name@ == name);
    new.lemma_index_unique(name, i);
    let t = old.tables@[i];
    let u = new.tables@[i];
    let cols = t.columns@;
    let names = s->Insert_columns@;
    let ts = insert_tuples_of(s);
    assert(u.rows@.len() == u.row_seqs().len());
    assert(t.rows@.len() == t.row_seqs().len());
    if r is Err {
        let k = choose|k: int| 0 <= k < ts.len() && fits_before(cols, t.row_seqs(), names, ts, k)
            && !tuple_fits(cols, rows_after(cols, t.row_seqs(), names, ts, k), names, ts[k])
            && tuple_error(cols, rows_after(cols, t.row_seqs(), names, ts, k), names, ts[k], r->Err_0)
            && u.row_seqs() == rows_after(cols, t.row_seqs(), names, ts, k);
        assert(ts[k].len() == names.len());
        assert(u.rows@.len() == t.rows@.len() + k);
    }
}

/// During an `INSERT` into an existing table that names only its columns: when the tuples
/// before tuple `k` were applied and tuple `k`, of the right length, collides with the rows
/// present at that point on a unique column, the statement fails with
/// `UniqueConstraintViolation` and tuple `k` adds no row.
pub proof fn lemma_unique_violation_refused(
    old: Database,
    s: Statement,
    new: Database,
    r: Result<Outcome, DbError>,
    k: int,
)
    requires
        old.wf(),
        new.wf(),
        insert_well_formed(s),
        old.has_table_spec(s->Insert_table_name@),
        !unknown_target(insert_target(old, s), s->Insert_columns@),
        0 <= k < insert_tuples_of(s).len(),
        insert_tuples_of(s)[k].len() == s->Insert_columns@.len(),
        fits_before(insert_target(old, s).columns@, insert_target(old, s).row_seqs(),
            s->Insert_columns@, insert_tuples_of(s), k),
        violates_unique(insert_target(old, s).columns@, rows_after(insert_target(old, s).columns@,
            insert_target(old, s).row_seqs(), s->Insert_columns@, insert_tuples_of(s), k),
            s->Insert_columns@, insert_tuples_of(s)[k]),
        statement_effect(old, s, new, r),
    ensures
        r is Err && r->Err_0 is UniqueConstraintViolation,
        insert_target(new, s).row_seqs() == rows_after(insert_target(old, s).columns@,
            insert_target(old, s).row_seqs(), s->Insert_columns@, insert_tuples_of(s), k),
        insert_target(new, s).rows@.len() == insert_target(old, s).rows@.len() + k,
{
    let name = s->Insert_table_name@;
    let i = old.index_of(name);
    assert(new.tables@[i].name@ == name);
    new.lemma_index_unique(name, i);
    let t = old.tables@[i];
    let u = new.tables@[i];
    let cols = t.columns@;
    let names = s->Insert_columns@;
    let ts = insert_tuples_of(s);
    assert(!tuple_fits(cols, rows_after(cols, t.row_seqs(), names, ts, k), names, ts[k]));
    if r is Ok {
        assert(fits_before(cols, t.row_seqs(), names, ts, ts.len() as int));
        assert(tuple_fits(cols, rows_after(cols, t.row_seqs(), names, ts, k), names, ts[k]));
    } else {
        let k2 = choose|k2: int| 0 <= k2 < ts.len() && fits_before(cols, t.row_seqs(), names, ts, k2)
            && !tuple_fits(cols, rows_after(cols, t.row_seqs(), names, ts, k2), names, ts[k2])
            && tuple_error(cols, rows_after(cols, t.row_seqs(), names, ts, k2), names, ts[k2], r->Err_0)
            && u.row_seqs() == rows_after(cols, t.row_seqs(), names, ts, k2);
        if k2 < k {
            assert(tuple_fits(cols, rows_after(cols, t.row_seqs(), names, ts, k2), names, ts[k2]));
        } else if k2 > k {
            assert(tuple_fits(cols, rows_after(cols, t.row_seqs(), names, ts, k), names, ts[k]));
        }
        assert(u.rows@.len() == u.row_seqs().len());
        assert(t.rows@.len() == t.row_seqs().len());
    }
}

} // verus!
