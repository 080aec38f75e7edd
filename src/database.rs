use vstd::prelude::*;
use crate::table::{Table, names_distinct};

verus! {

/// The names of the tables, in the order they were created.
pub open spec fn table_names(tables: Seq<Table>) -> Seq<Seq<char>> {
    tables.map_values(|t: Table| t.name@)
}

/// An in-memory database: a registry of tables, keyed by their names. Tables are only
/// ever added.
#[derive(Debug, Clone)]
pub struct Database {
    pub tables: Vec<Table>,
}

impl Database {
    /// Every table is well formed and no two tables share a name.
    pub open spec fn wf(&self) -> bool {
        &&& names_distinct(table_names(self.tables@))
        &&& forall|i: int| 0 <= i < self.tables@.len() ==> #[trigger] self.tables@[i].wf()
    }

    /// Some table is called `name`.
    pub open spec fn has_table_spec(&self, name: Seq<char>) -> bool {
        exists|i: int| 0 <= i < self.tables@.len() && #[trigger] self.tables@[i].name@ == name
    }

    /// The position of the table called `name`; meaningful when there is one.
    pub open spec fn index_of(&self, name: Seq<char>) -> int {
        choose|i: int| 0 <= i < self.tables@.len() && #[trigger] self.tables@[i].name@ == name
    }

    /// The table called `name`; meaningful when there is one.
    pub open spec fn table_named(&self, name: Seq<char>) -> Table {
        self.tables@[self.index_of(name)]
    }

    /// In a well-formed database a name is found at one position only.
    pub proof fn lemma_index_unique(&self, name: Seq<char>, i: int)
        requires
            self.wf(),
            0 <= i < self.tables@.len(),
            self.tables@[i].name@ == name,
        ensures
            self.index_of(name) == i,
    {
        let j = self.index_of(name);
        assert(table_names(self.tables@)[i] == table_names(self.tables@)[j]);
    }

    /// Whether the database is well formed, as `wf` states.
    pub fn is_well_formed(&self) -> (r: bool)
        ensures
            r == self.wf(),
    {
        let n = self.tables.len();
        let mut i: usize = 0;
        while i < n
            invariant
                n == self.tables@.len(),
                i <= n,
                forall|a: int| 0 <= a < i ==> #[trigger] self.tables@[a].wf(),
                forall|a: int, b: int| 0 <= a < b < i ==> table_names(self.tables@)[a] != table_names(self.tables@)[b],
            decreases n - i,
        {
            if !self.tables[i].is_well_formed() {
                return false;
            }
            let mut k: usize = 0;
            while k < i
                invariant
                    n == self.tables@.len(),
                    k <= i < n,
                    forall|a: int| 0 <= a < k ==> table_names(self.tables@)[a] != table_names(self.tables@)[i as int],
                decreases i - k,
            {
                if self.tables[k].name == self.tables[i].name {
                    assert(table_names(self.tables@)[k as int] == table_names(self.tables@)[i as int]);
                    return false;
                }
                k = k + 1;
            }
            i = i + 1;
        }
        true
    }

    /// An empty database.
    pub fn new() -> (db: Database)
        ensures
            db.wf(),
            db.tables@.len() == 0,
    {
        Database { tables: Vec::new() }
    }

    /// Where the table called `name` stands, if there is one.
    pub fn find_table(&self, name: &String) -> (r: Option<usize>)
        ensures
            r is None <==> !self.has_table_spec(name@),
            r matches Some(i) ==> i < self.tables@.len() && self.tables@[i as int].name@ == name@,
            self.wf() ==> (r matches Some(i) ==> i == self.index_of(name@)),
    {
        let mut i: usize = 0;
        while i < self.tables.len()
            invariant
                i <= self.tables@.len(),
                forall|k: int| 0 <= k < i ==> self.tables@[k].name@ != name@,
            decreases self.tables@.len() - i,
        {
            if self.tables[i].name == *name {
                proof {
                    if self.wf() {
                        self.lemma_index_unique(name@, i as int);
                    }
                }
                return Some(i);
            }
            i = i + 1;
        }
        None
    }

    /// Whether a table called `name` exists. Names are compared exactly.
    pub fn has_table(&self, name: &String) -> (r: bool)
        ensures
            r == self.has_table_spec(name@),
    {
        self.find_table(name).is_some()
    }

    /// The table called `name`, if there is one.
    pub fn get_table(&self, name: &String) -> (r: Option<&Table>)
        ensures
            r is None <==> !self.has_table_spec(name@),
            r matches Some(t) ==> t.name@ == name@ && self.tables@.contains(*t),
            self.wf() ==> (r matches Some(t) ==> *t == self.table_named(name@)),
    {
        match self.find_table(name) {
            Some(i) => Some(&self.tables[i]),
            None => None,
        }
    }

    /// The table called `name`, for changes, if there is one.
    pub fn get_table_mut(&mut self, name: &String) -> (r: Option<&mut Table>)
        ensures
            r is None <==> !old(self).has_table_spec(name@),
            r is None ==> *final(self) == *old(self),
            r matches Some(t) ==> {
                let i = old(self).index_of(name@);
                &&& old(self).wf() ==> *t == old(self).table_named(name@)
                &&& old(self).wf() ==> final(self).tables@ == old(self).tables@.update(i, *final(t))
            },
    {
        match self.find_table(name) {
            Some(i) => Some(&mut self.tables[i]),
            None => None,
        }
    }

    /// Adds `table`, whose name no table has yet.
    pub fn add_table(&mut self, table: Table)
        requires
            old(self).wf(),
            table.wf(),
            !old(self).has_table_spec(table.name@),
        ensures
            final(self).wf(),
            final(self).tables@ == old(self).tables@.push(table),
    {
        self.tables.push(table);
        proof {
            let names = table_names(self.tables@);
            assert(names == table_names(old(self).tables@).push(table.name@));
            assert forall|i: int, j: int| 0 <= i < j < names.len() implies names[i] != names[j] by {
                if j == names.len() - 1 {
                    assert(self.tables@[i].name@ == names[i]);
                }
            }
        }
    }
}

} // verus!
