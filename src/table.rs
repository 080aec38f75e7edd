use vstd::prelude::*;
use crate::error::DbError;
use crate::value::{DataType, Value, collides};

verus! {

/// A column definition: its name, declared type and constraint flags.
#[derive(Debug, Clone)]
pub struct Column {
    pub name: String,
    pub data_type: DataType,
    pub unique: bool,
    pub primary_key: bool,
}

impl Column {
    /// A primary key is unique as well.
    pub open spec fn is_unique(&self) -> bool {
        self.unique || self.primary_key
    }
}

/// No name occurs twice.
pub open spec fn names_distinct(names: Seq<Seq<char>>) -> bool {
    forall|i: int, j: int| 0 <= i < j < names.len() ==> names[i] != names[j]
}

/// The names of the columns, in declaration order.
pub open spec fn names_of(columns: Seq<Column>) -> Seq<Seq<char>> {
    columns.map_values(|c: Column| c.name@)
}

/// Some column is called `name`.
pub open spec fn column_exists(columns: Seq<Column>, name: Seq<char>) -> bool {
    exists|i: int| 0 <= i < columns.len() && #[trigger] columns[i].name@ == name
}

/// Inserting `values` under the target names `names` collides, on column `col`, with an
/// existing row: `col` is a unique column named in the targets, and some row holds a value
/// at its position that collides with the value given for it.
pub open spec fn violates_on(
    columns: Seq<Column>,
    rows: Seq<Seq<Value>>,
    names: Seq<String>,
    values: Seq<Value>,
    col: Seq<char>,
) -> bool {
    exists|j: int, c: int, r: int|
        0 <= j < names.len() && 0 <= c < columns.len() && 0 <= r < rows.len()
            && #[trigger] names[j]@ == col && #[trigger] columns[c].name@ == col
            && columns[c].is_unique() && #[trigger] collides(rows[r][c], values[j])
}

/// Inserting `values` under `names` breaks a uniqueness constraint on some column.
pub open spec fn violates_unique(
    columns: Seq<Column>,
    rows: Seq<Seq<Value>>,
    names: Seq<String>,
    values: Seq<Value>,
) -> bool {
    exists|col: Seq<char>| violates_on(columns, rows, names, values, col)
}

/// The value that a row built from `names` and `values` holds in the column called `name`:
/// the value given last for that name, or null when the name is not among the targets.
pub open spec fn value_for(name: Seq<char>, names: Seq<String>, values: Seq<Value>) -> Value
    decreases names.len(),
{
    if names.len() == 0 || values.len() == 0 {
        Value::Null
    } else if names.last()@ == name {
        values.last()
    } else {
        value_for(name, names.drop_last(), values.drop_last())
    }
}

/// The row that inserting `values` under `names` appends, aligned with `columns`.
pub open spec fn build_row(columns: Seq<Column>, names: Seq<String>, values: Seq<Value>) -> Seq<Value> {
    Seq::new(columns.len(), |i: int| value_for(columns[i].name@, names, values))
}

/// The value for a name is null or one of the values given for that name.
pub proof fn lemma_value_for_origin(name: Seq<char>, names: Seq<String>, values: Seq<Value>)
    requires
        names.len() == values.len(),
    ensures
        value_for(name, names, values) is Null || exists|j: int|
            0 <= j < names.len() && #[trigger] names[j]@ == name && value_for(name, names, values)
                == values[j],
    decreases names.len(),
{
    if names.len() > 0 && names.last()@ != name {
        lemma_value_for_origin(name, names.drop_last(), values.drop_last());
        if !(value_for(name, names, values) is Null) {
            let j = choose|j: int|
                0 <= j < names.drop_last().len() && #[trigger] names.drop_last()[j]@ == name
                    && value_for(name, names.drop_last(), values.drop_last())
                    == values.drop_last()[j];
            assert(names[j]@ == name);
        }
    }
}

/// A tuple can be applied to a table holding `rows`: it has one value per target column and
/// breaks no uniqueness constraint.
pub open spec fn tuple_fits(
    columns: Seq<Column>,
    rows: Seq<Seq<Value>>,
    names: Seq<String>,
    tuple: Seq<Value>,
) -> bool {
    tuple.len() == names.len() && !violates_unique(columns, rows, names, tuple)
}

/// The rows after the first `k` tuples were appended to `rows`.
pub open spec fn rows_after(
    columns: Seq<Column>,
    rows: Seq<Seq<Value>>,
    names: Seq<String>,
    tuples: Seq<Seq<Value>>,
    k: int,
) -> Seq<Seq<Value>> {
    rows + Seq::new(k as nat, |i: int| build_row(columns, names, tuples[i]))
}

/// Each of the first `k` tuples fits the rows that the tuples before it left.
pub open spec fn fits_before(
    columns: Seq<Column>,
    rows: Seq<Seq<Value>>,
    names: Seq<String>,
    tuples: Seq<Seq<Value>>,
    k: int,
) -> bool {
    forall|i: int| 0 <= i < k ==> #[trigger] tuple_fits(columns, rows_after(columns, rows, names, tuples, i), names, tuples[i])
}

/// The error that tuple `t` meets when it does not fit `rows`.
pub open spec fn tuple_error(
    columns: Seq<Column>,
    rows: Seq<Seq<Value>>,
    names: Seq<String>,
    tuple: Seq<Value>,
    e: DbError,
) -> bool {
    if tuple.len() != names.len() {
        e == DbError::ArityMismatch { values: tuple.len() as usize, columns: names.len() as usize }
    } else {
        e matches DbError::UniqueConstraintViolation(col) && violates_on(columns, rows, names, tuple, col@)
    }
}

/// What applying `tuples` one at a time, in order, does to the rows `rows`: tuples are
/// appended until the first that does not fit; that one and those after it are not applied,
/// and its error is returned. Tuples applied before a failure stay.
pub open spec fn tuples_applied(
    columns: Seq<Column>,
    rows: Seq<Seq<Value>>,
    names: Seq<String>,
    tuples: Seq<Seq<Value>>,
    new_rows: Seq<Seq<Value>>,
    r: Result<(), DbError>,
) -> bool {
    match r {
        Ok(()) => fits_before(columns, rows, names, tuples, tuples.len() as int)
            && new_rows == rows_after(columns, rows, names, tuples, tuples.len() as int),
        Err(e) => exists|k: int| 0 <= k < tuples.len() && fits_before(columns, rows, names, tuples, k)
            && !tuple_fits(columns, rows_after(columns, rows, names, tuples, k), names, tuples[k])
            && tuple_error(columns, rows_after(columns, rows, names, tuples, k), names, tuples[k], e)
            && new_rows == rows_after(columns, rows, names, tuples, k),
    }
}

/// The tuples of a vector of rows, each as a sequence.
pub open spec fn tuple_seqs(tuples: Seq<Vec<Value>>) -> Seq<Seq<Value>> {
    tuples.map_values(|t: Vec<Value>| t@)
}

/// A table: its name, its schema and its rows in insertion order.
#[derive(Debug, Clone)]
pub struct Table {
    pub name: String,
    pub columns: Vec<Column>,
    pub rows: Vec<Vec<Value>>,
}

impl Table {
    /// The rows, each as a sequence of values.
    pub open spec fn row_seqs(&self) -> Seq<Seq<Value>> {
        self.rows@.map_values(|r: Vec<Value>| r@)
    }

    /// The schema and the rows agree: column names are distinct, every row has one value
    /// per column, and no unique column holds two colliding values.
    pub open spec fn wf(&self) -> bool {
        &&& names_distinct(names_of(self.columns@))
        &&& forall|r: int| 0 <= r < self.rows@.len() ==> #[trigger] self.rows@[r]@.len()
            == self.columns@.len()
        &&& forall|c: int, r1: int, r2: int|
            0 <= c < self.columns@.len() && self.columns@[c].is_unique() && 0 <= r1 < r2
                < self.rows@.len() ==> !collides(
                #[trigger] self.rows@[r1]@[c],
                #[trigger] self.rows@[r2]@[c],
            )
    }

    /// A table with the given name and columns and no rows.
    pub fn new(name: String, columns: Vec<Column>) -> (t: Table)
        requires
            names_distinct(names_of(columns@)),
        ensures
            t.wf(),
            t.name == name,
            t.columns == columns,
            t.rows@.len() == 0,
    {
        Table { name, columns, rows: Vec::new() }
    }

    /// Checks `values`, given for the target columns `names`, against the rows already
    /// present. Fails with the name of a unique column on which a row collides.
    pub fn check_unique_constraint(&self, names: &Vec<String>, values: &Vec<Value>) -> (r: Result<(), String>)
        requires
            self.wf(),
            names@.len() == values@.len(),
        ensures
            r is Ok <==> !violates_unique(self.columns@, self.row_seqs(), names@, values@),
            r matches Err(col) ==> violates_on(self.columns@, self.row_seqs(), names@, values@, col@),
    {
        let ghost rows = self.row_seqs();
        let mut j: usize = 0;
        while j < names.len()
            invariant
                j <= names@.len(),
                names@.len() == values@.len(),
                rows == self.row_seqs(),
                self.wf(),
                forall|jj: int, c: int, r: int|
                    0 <= jj < j && 0 <= c < self.columns@.len() && 0 <= r < rows.len()
                        && #[trigger] self.columns@[c].name@ == names@[jj]@
                        && self.columns@[c].is_unique() ==> !#[trigger] collides(rows[r][c], values@[jj]),
            decreases names@.len() - j,
        {
            let mut c: usize = 0;
            while c < self.columns.len()
                invariant
                    j < names@.len(),
                    c <= self.columns@.len(),
                    names@.len() == values@.len(),
                    rows == self.row_seqs(),
                    self.wf(),
                    forall|jj: int, c2: int, r: int|
                        0 <= jj < j && 0 <= c2 < self.columns@.len() && 0 <= r < rows.len()
                            && #[trigger] self.columns@[c2].name@ == names@[jj]@
                            && self.columns@[c2].is_unique() ==> !#[trigger] collides(rows[r][c2], values@[jj]),
                    forall|c2: int, r: int|
                        0 <= c2 < c && 0 <= r < rows.len()
                            && #[trigger] self.columns@[c2].name@ == names@[j as int]@
                            && self.columns@[c2].is_unique() ==> !#[trigger] collides(rows[r][c2], values@[j as int]),
                decreases self.columns@.len() - c,
            {
                let column = &self.columns[c];
                if (column.unique || column.primary_key) && column.name == names[j] {
                    let mut r: usize = 0;
                    while r < self.rows.len()
                        invariant
                            j < names@.len(),
                            c < self.columns@.len(),
                            r <= self.rows@.len(),
                            names@.len() == values@.len(),
                            rows == self.row_seqs(),
                            column == self.columns@[c as int],
                            self.wf(),
                            column.is_unique(),
                            column.name@ == names@[j as int]@,
                            forall|r2: int| 0 <= r2 < r ==> !#[trigger] collides(rows[r2][c as int], values@[j as int]),
                        decreases self.rows@.len() - r,
                    {
                        assert(self.rows@[r as int]@.len() == self.columns@.len());
                        if self.rows[r][c].collides_with(&values[j]) {
                            proof {
                                assert(rows[r as int][c as int] == self.rows@[r as int]@[c as int]);
                                assert(names@[j as int]@ == self.columns@[c as int].name@);
                                assert(violates_on(self.columns@, rows, names@, values@, names@[j as int]@));
                            }
                            return Err(names[j].clone());
                        }
                        r = r + 1;
                    }
                }
                c = c + 1;
            }
            j = j + 1;
        }
        Ok(())
    }

    /// Appends the row that `values`, given for the target columns `names`, make: each
    /// column takes the value given last for its name, and null when it is not a target.
    pub fn insert_row(&mut self, names: &Vec<String>, values: &Vec<Value>)
        requires
            old(self).wf(),
            names@.len() == values@.len(),
            !violates_unique(old(self).columns@, old(self).row_seqs(), names@, values@),
        ensures
            final(self).wf(),
            final(self).name == old(self).name,
            final(self).columns == old(self).columns,
            final(self).row_seqs() == old(self).row_seqs().push(
                build_row(old(self).columns@, names@, values@),
            ),
    {
        let ghost target = build_row(self.columns@, names@, values@);
        let mut row: Vec<Value> = Vec::new();
        let mut i: usize = 0;
        while i < self.columns.len()
            invariant
                i <= self.columns@.len(),
                names@.len() == values@.len(),
                target == build_row(self.columns@, names@, values@),
                row@ == target.take(i as int),
            decreases self.columns@.len() - i,
        {
            let mut v = Value::Null;
            let mut j: usize = 0;
            while j < names.len()
                invariant
                    i < self.columns@.len(),
                    j <= names@.len(),
                    names@.len() == values@.len(),
                    v == value_for(self.columns@[i as int].name@, names@.take(j as int), values@.take(j as int)),
                decreases names@.len() - j,
            {
                if names[j] == self.columns[i].name {
                    v = values[j].copied();
                }
                proof {
                    assert(names@.take(j + 1).drop_last() =~= names@.take(j as int));
                    assert(values@.take(j + 1).drop_last() =~= values@.take(j as int));
                }
                j = j + 1;
            }
            proof {
                assert(names@.take(j as int) =~= names@);
                assert(values@.take(j as int) =~= values@);
            }
            row.push(v);
            i = i + 1;
            proof {
                assert(row@ =~= target.take(i as int));
            }
        }
        proof {
            assert(row@ =~= target);
            let ghost cols = self.columns@;
            assert forall|c: int| 0 <= c < cols.len() && cols[c].is_unique() && !(target[c] is Null)
                implies forall|r: int| 0 <= r < self.rows@.len() ==> !collides(self.rows@[r]@[c], target[c]) by {
                lemma_value_for_origin(cols[c].name@, names@, values@);
                let j = choose|j: int| 0 <= j < names@.len() && #[trigger] names@[j]@ == cols[c].name@
                    && value_for(cols[c].name@, names@, values@) == values@[j];
                assert forall|r: int| 0 <= r < self.rows@.len() implies !collides(self.rows@[r]@[c], target[c]) by {
                    if collides(self.rows@[r]@[c], target[c]) {
                        assert(self.row_seqs()[r][c] == self.rows@[r]@[c]);
                        assert(violates_on(cols, self.row_seqs(), names@, values@, cols[c].name@));
                    }
                }
            }
        }
        self.rows.push(row);
        proof {
            assert(self.row_seqs() =~= old(self).row_seqs().push(target));
        }
    }

    /// Applies the tuples of `tuples`, each given for the target columns `names`, one at a
    /// time and in order. Each is checked for its length and for uniqueness against all rows
    /// present at that point, those of earlier tuples included. The first that fails stops
    /// the work with its error; tuples applied before it stay in the table.
    pub fn insert_tuples(&mut self, names: &Vec<String>, tuples: &Vec<Vec<Value>>) -> (r: Result<(), DbError>)
        requires
            old(self).wf(),
        ensures
            final(self).wf(),
            final(self).name == old(self).name,
            final(self).columns == old(self).columns,
            tuples_applied(old(self).columns@, old(self).row_seqs(), names@, tuple_seqs(tuples@),
                final(self).row_seqs(), r),
    {
        let ghost cols = self.columns@;
        let ghost rows0 = self.row_seqs();
        let ghost ts = tuple_seqs(tuples@);
        let mut k: usize = 0;
        while k < tuples.len()
            invariant
                self.wf(),
                self.name == old(self).name,
                self.columns == old(self).columns,
                cols == self.columns@,
                cols == old(self).columns@,
                rows0 == old(self).row_seqs(),
                ts == tuple_seqs(tuples@),
                k <= tuples@.len(),
                fits_before(cols, rows0, names@, ts, k as int),
                self.row_seqs() == rows_after(cols, rows0, names@, ts, k as int),
            decreases tuples@.len() - k,
        {
            let tuple = &tuples[k];
            assert(ts[k as int] == tuple@);
            if tuple.len() != names.len() {
                proof {
                    assert(!tuple_fits(cols, rows_after(cols, rows0, names@, ts, k as int), names@, ts[k as int]));
                    assert(tuple_error(cols, rows_after(cols, rows0, names@, ts, k as int), names@, ts[k as int],
                        DbError::ArityMismatch { values: tuple.len(), columns: names.len() }));
                    assert(tuples_applied(cols, rows0, names@, ts, self.row_seqs(),
                        Err(DbError::ArityMismatch { values: tuple.len(), columns: names.len() })));
                }
                return Err(DbError::ArityMismatch { values: tuple.len(), columns: names.len() });
            }
            match self.check_unique_constraint(names, tuple) {
                Err(col) => {
                    proof {
                        assert(violates_on(cols, rows_after(cols, rows0, names@, ts, k as int), names@, ts[k as int], col@));
                        assert(!tuple_fits(cols, rows_after(cols, rows0, names@, ts, k as int), names@, ts[k as int]));
                        assert(tuples_applied(cols, rows0, names@, ts, self.row_seqs(),
                            Err(DbError::UniqueConstraintViolation(col))));
                    }
                    return Err(DbError::UniqueConstraintViolation(col));
                },
                Ok(()) => {},
            }
            self.insert_row(names, tuple);
            proof {
                assert(self.row_seqs() =~= rows_after(cols, rows0, names@, ts, k + 1));
                assert forall|i: int| 0 <= i < k + 1 implies #[trigger] tuple_fits(cols, rows_after(cols, rows0, names@, ts, i), names@, ts[i]) by {
                    if i < k {
                        assert(fits_before(cols, rows0, names@, ts, k as int));
                    }
                }
            }
            k = k + 1;
        }
        Ok(())
    }

    /// Whether the schema and the rows agree, as `wf` states.
    pub fn is_well_formed(&self) -> (r: bool)
        ensures
            r == self.wf(),
    {
        let n = self.columns.len();
        let mut i: usize = 0;
        while i < n
            invariant
                n == self.columns@.len(),
                i <= n,
                forall|a: int, b: int| 0 <= a < b < i ==> names_of(self.columns@)[a] != names_of(self.columns@)[b],
            decreases n - i,
        {
            let mut k: usize = 0;
            while k < i
                invariant
                    n == self.columns@.len(),
                    k <= i < n,
                    forall|a: int| 0 <= a < k ==> names_of(self.columns@)[a] != names_of(self.columns@)[i as int],
                decreases i - k,
            {
                if self.columns[k].name == self.columns[i].name {
                    assert(names_of(self.columns@)[k as int] == names_of(self.columns@)[i as int]);
                    return false;
                }
                k = k + 1;
            }
            i = i + 1;
        }
        let mut r: usize = 0;
        while r < self.rows.len()
            invariant
                n == self.columns@.len(),
                r <= self.rows@.len(),
                forall|a: int| 0 <= a < r ==> #[trigger] self.rows@[a]@.len() == n,
            decreases self.rows@.len() - r,
        {
            if self.rows[r].len() != n {
                return false;
            }
            r = r + 1;
        }
        let mut c: usize = 0;
        while c < n
            invariant
                n == self.columns@.len(),
                c <= n,
                forall|a: int| 0 <= a < self.rows@.len() ==> #[trigger] self.rows@[a]@.len() == n,
                forall|c2: int, r1: int, r2: int|
                    0 <= c2 < c && self.columns@[c2].is_unique() && 0 <= r1 < r2 < self.rows@.len()
                        ==> !collides(#[trigger] self.rows@[r1]@[c2], #[trigger] self.rows@[r2]@[c2]),
            decreases n - c,
        {
            if self.columns[c].unique || self.columns[c].primary_key {
                let mut r2: usize = 0;
                while r2 < self.rows.len()
                    invariant
                        n == self.columns@.len(),
                        c < n,
                        self.columns@[c as int].is_unique(),
                        r2 <= self.rows@.len(),
                        forall|a: int| 0 <= a < self.rows@.len() ==> #[trigger] self.rows@[a]@.len() == n,
                        forall|r1: int, r3: int| 0 <= r1 < r3 < r2
                            ==> !collides(#[trigger] self.rows@[r1]@[c as int], #[trigger] self.rows@[r3]@[c as int]),
                    decreases self.rows@.len() - r2,
                {
                    let mut r1: usize = 0;
                    while r1 < r2
                        invariant
                            n == self.columns@.len(),
                            c < n,
                            self.columns@[c as int].is_unique(),
                            r1 <= r2 < self.rows@.len(),
                            forall|a: int| 0 <= a < self.rows@.len() ==> #[trigger] self.rows@[a]@.len() == n,
                            forall|a: int| 0 <= a < r1 ==> !collides(#[trigger] self.rows@[a]@[c as int], self.rows@[r2 as int]@[c as int]),
                        decreases r2 - r1,
                    {
                        assert(self.rows@[r1 as int]@.len() == n && self.rows@[r2 as int]@.len() == n);
                        if self.rows[r1][c].collides_with(&self.rows[r2][c]) {
                            return false;
                        }
                        r1 = r1 + 1;
                    }
                    r2 = r2 + 1;
                }
            }
            c = c + 1;
        }
        true
    }

    /// Whether the schema has a column called `name`.
    pub fn has_column(&self, name: &String) -> (r: bool)
        ensures
            r == column_exists(self.columns@, name@),
    {
        let mut i: usize = 0;
        while i < self.columns.len()
            invariant
                i <= self.columns@.len(),
                forall|k: int| 0 <= k < i ==> self.columns@[k].name@ != name@,
            decreases self.columns@.len() - i,
        {
            if self.columns[i].name == *name {
                return true;
            }
            i = i + 1;
        }
        false
    }
}

} // verus!
