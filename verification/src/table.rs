//! The table of services: what storage holds, and what its three statements
//! do to it.
//!
//! `TableView` is the table as mathematics. `Table` keeps one in memory and
//! carries out the statements on it, so that the handlers can be run against
//! a store without a database behind them.

use vstd::prelude::*;
use crate::record::{result_view, views, CreateService, Service, ServiceView};

verus! {

/// Why the table refused to insert a row.
#[derive(Clone, Copy, Debug, PartialEq, Eq, Structural)]
pub enum StorageError {
    /// Another row already has the name.
    DuplicateName,
    /// Another row already has the link.
    DuplicateLink,
    /// Every identifier has been given out.
    IdentifiersExhausted,
}

impl View for StorageError {
    type V = StorageError;

    open spec fn view(&self) -> StorageError {
        *self
    }
}

impl StorageError {
    /// The text of the error.
    pub open spec fn text(self) -> Seq<char> {
        match self {
            StorageError::DuplicateName => "duplicate key value violates unique constraint on name"@,
            StorageError::DuplicateLink => "duplicate key value violates unique constraint on link"@,
            StorageError::IdentifiersExhausted => "identifier sequence reached its maximum value"@,
        }
    }

    /// The text of the error, as a handler takes it.
    pub fn message(&self) -> (text: String)
        ensures
            text@ == self.text(),
    {
        match self {
            StorageError::DuplicateName => {
                "duplicate key value violates unique constraint on name".to_owned()
            },
            StorageError::DuplicateLink => {
                "duplicate key value violates unique constraint on link".to_owned()
            },
            StorageError::IdentifiersExhausted => {
                "identifier sequence reached its maximum value".to_owned()
            },
        }
    }
}

/// A result of the table as a handler takes it: with the error as its text.
pub open spec fn with_text<T>(result: Result<T, StorageError>) -> Result<T, Seq<char>> {
    match result {
        Ok(value) => Ok(value),
        Err(error) => Err(error.text()),
    }
}

/// Whether a row has this name.
pub open spec fn named(name: Seq<char>) -> spec_fn(ServiceView) -> bool {
    |row: ServiceView| row.name == name
}

/// Whether a row has another name than this.
pub open spec fn not_named(name: Seq<char>) -> spec_fn(ServiceView) -> bool {
    |row: ServiceView| row.name != name
}

/// The table as mathematics: its rows in the order in which they were
/// inserted, and the last identifier that was given out (0 before the first).
pub struct TableView {
    pub rows: Seq<ServiceView>,
    pub last_id: int,
}

impl TableView {
    /// The table right after it was created.
    pub open spec fn empty() -> TableView {
        TableView { rows: Seq::empty(), last_id: 0 }
    }

    /// What holds of a table at all times: identifiers are positive, were all
    /// given out already and fit the column; no two rows share an identifier,
    /// a name or a link.
    pub open spec fn wf(self) -> bool {
        &&& 0 <= self.last_id <= i32::MAX
        &&& forall|i: int|
            0 <= i < self.rows.len() ==> 1 <= (#[trigger] self.rows[i]).id <= self.last_id
        &&& forall|i: int, j: int|
            0 <= i < j < self.rows.len() ==> {
                &&& (#[trigger] self.rows[i]).id != (#[trigger] self.rows[j]).id
                &&& self.rows[i].name != self.rows[j].name
                &&& self.rows[i].link != self.rows[j].link
            }
    }

    /// Whether some row has this name.
    pub open spec fn has_name(self, name: Seq<char>) -> bool {
        exists|i: int| 0 <= i < self.rows.len() && (#[trigger] self.rows[i]).name == name
    }

    /// Whether some row has this link.
    pub open spec fn has_link(self, link: Seq<char>) -> bool {
        exists|i: int| 0 <= i < self.rows.len() && (#[trigger] self.rows[i]).link == link
    }

    /// Why a row with this name and link cannot be inserted, if it cannot.
    pub open spec fn insert_error(self, name: Seq<char>, link: Seq<char>) -> Option<StorageError> {
        if self.has_name(name) {
            Some(StorageError::DuplicateName)
        } else if self.has_link(link) {
            Some(StorageError::DuplicateLink)
        } else if self.last_id >= i32::MAX {
            Some(StorageError::IdentifiersExhausted)
        } else {
            None
        }
    }

    /// The row that an insertion of this name and link adds: it gets the
    /// identifier after the last one given out.
    pub open spec fn next_row(self, name: Seq<char>, link: Seq<char>) -> ServiceView {
        ServiceView { id: self.last_id + 1, name, link }
    }

    /// What an insertion of this name and link returns.
    pub open spec fn insert_result(self, name: Seq<char>, link: Seq<char>) -> Result<
        ServiceView,
        StorageError,
    > {
        match self.insert_error(name, link) {
            Some(error) => Err(error),
            None => Ok(self.next_row(name, link)),
        }
    }

    /// The table after an insertion of this name and link: with the new row
    /// at the end, or unchanged if the insertion is refused.
    pub open spec fn insert(self, name: Seq<char>, link: Seq<char>) -> TableView {
        if self.insert_error(name, link) is None {
            TableView { rows: self.rows.push(self.next_row(name, link)), last_id: self.last_id + 1 }
        } else {
            self
        }
    }

    /// How many rows a deletion by this name removes: as many as have it.
    pub open spec fn rows_matching(self, name: Seq<char>) -> nat {
        self.rows.filter(named(name)).len()
    }

    /// The table after a deletion by this name: the rows of another name, in
    /// their order. The identifier of a deleted row is not given out again.
    pub open spec fn delete(self, name: Seq<char>) -> TableView {
        TableView { rows: self.rows.filter(not_named(name)), last_id: self.last_id }
    }
}

/// Where no row has the name, a deletion by it removes nothing.
pub proof fn lemma_delete_absent(rows: Seq<ServiceView>, name: Seq<char>)
    requires
        forall|i: int| 0 <= i < rows.len() ==> (#[trigger] rows[i]).name != name,
    ensures
        rows.filter(not_named(name)) == rows,
        rows.filter(named(name)).len() == 0,
    decreases rows.len(),
{
    reveal(Seq::filter);
    if rows.len() > 0 {
        lemma_delete_absent(rows.drop_last(), name);
        assert(rows.drop_last().push(rows.last()) =~= rows);
    }
}

/// Where the row at `at` has the name and no other row has it, a deletion by
/// it removes that row and nothing else.
pub proof fn lemma_delete_present(rows: Seq<ServiceView>, name: Seq<char>, at: int)
    requires
        0 <= at < rows.len(),
        rows[at].name == name,
        forall|i: int| 0 <= i < rows.len() && i != at ==> (#[trigger] rows[i]).name != name,
    ensures
        rows.filter(not_named(name)) == rows.remove(at),
        rows.filter(named(name)).len() == 1,
    decreases rows.len(),
{
    reveal(Seq::filter);
    let front = rows.drop_last();
    if at == rows.len() - 1 {
        lemma_delete_absent(front, name);
        assert(rows.remove(at) =~= front);
    } else {
        lemma_delete_present(front, name, at);
        assert(rows.remove(at) =~= front.remove(at).push(rows.last()));
    }
}

/// A table of services held in memory.
pub struct Table {
    rows: Vec<Service>,
    last_id: i32,
}

impl View for Table {
    type V = TableView;

    closed spec fn view(&self) -> TableView {
        TableView { rows: views(self.rows@), last_id: self.last_id as int }
    }
}

impl Table {
    #[verifier::type_invariant]
    spec fn valid(&self) -> bool {
        self@.wf()
    }

    /// An empty table.
    pub fn new() -> (table: Table)
        ensures
            table@ == TableView::empty(),
    {
        let table = Table { rows: Vec::new(), last_id: 0 };
        assert(table@.rows =~= Seq::empty());
        table
    }

    /// An empty table that last gave out the identifier `last_id`, so that
    /// the next row gets the one after it. There is no such table for a
    /// negative `last_id`.
    pub fn with_last_id(last_id: i32) -> (table: Option<Table>)
        ensures
            table is Some <==> last_id >= 0,
            table matches Some(table) ==> table@ == (TableView {
                rows: Seq::empty(),
                last_id: last_id as int,
            }),
    {
        if last_id < 0 {
            return None;
        }
        let table = Table { rows: Vec::new(), last_id };
        assert(table@.rows =~= Seq::empty());
        Some(table)
    }

    /// Every row, in the order of insertion.
    pub fn select_all(&self) -> (rows: Vec<Service>)
        ensures
            self@.wf(),
            views(rows@) == self@.rows,
    {
        proof {
            use_type_invariant(self);
        }
        let mut rows: Vec<Service> = Vec::new();
        let mut i: usize = 0;
        while i < self.rows.len()
            invariant
                i <= self.rows.len(),
                rows@ == self.rows@.subrange(0, i as int),
            decreases self.rows.len() - i,
        {
            rows.push(self.rows[i].clone());
            i += 1;
        }
        rows
    }

    /// Where the row with this name stands, if there is one.
    fn find_name(&self, name: &String) -> (found: Option<usize>)
        ensures
            match found {
                Some(i) => i < self@.rows.len() && self@.rows[i as int].name == name@,
                None => !self@.has_name(name@),
            },
    {
        let mut i: usize = 0;
        while i < self.rows.len()
            invariant
                i <= self.rows.len(),
                forall|k: int| 0 <= k < i ==> (#[trigger] self.rows@[k]).name@ != name@,
            decreases self.rows.len() - i,
        {
            if self.rows[i].name == *name {
                return Some(i);
            }
            i += 1;
        }
        None
    }

    /// Whether some row has this link.
    fn holds_link(&self, link: &String) -> (found: bool)
        ensures
            found == self@.has_link(link@),
    {
        let mut i: usize = 0;
        while i < self.rows.len()
            invariant
                i <= self.rows.len(),
                forall|k: int| 0 <= k < i ==> (#[trigger] self.rows@[k]).link@ != link@,
            decreases self.rows.len() - i,
        {
            if self.rows[i].link == *link {
                assert(self@.rows[i as int].link == link@);
                return true;
            }
            i += 1;
        }
        false
    }

    /// Inserts a row with the name and link of `payload` and returns it with
    /// its new identifier. The table refuses, and stays as it was, if a row
    /// already has the name or the link, or if no identifier is left.
    pub fn insert(&mut self, payload: &CreateService) -> (inserted: Result<Service, StorageError>)
        ensures
            old(self)@.wf(),
            final(self)@.wf(),
            final(self)@ == old(self)@.insert(payload.name@, payload.link@),
            result_view(inserted) == old(self)@.insert_result(payload.name@, payload.link@),
    {
        proof {
            use_type_invariant(&*self);
        }
        let name = payload.name.clone();
        let link = payload.link.clone();
        if self.find_name(&name).is_some() {
            return Err(StorageError::DuplicateName);
        }
        if self.holds_link(&link) {
            return Err(StorageError::DuplicateLink);
        }
        if self.last_id == i32::MAX {
            return Err(StorageError::IdentifiersExhausted);
        }
        let id: i32 = self.last_id + 1;
        let row = Service { id, name, link };
        let copy = row.clone();
        let mut rows: Vec<Service> = Vec::new();
        core::mem::swap(&mut rows, &mut self.rows);
        rows.push(row);
        self.last_id = id;
        assert(views(rows@) =~= old(self)@.rows.push(copy@));
        core::mem::swap(&mut rows, &mut self.rows);
        Ok(copy)
    }

    /// Deletes the row with this name and returns how many rows it removed.
    pub fn delete(&mut self, name: &str) -> (rows_affected: u64)
        ensures
            old(self)@.wf(),
            final(self)@.wf(),
            final(self)@ == old(self)@.delete(name@),
            rows_affected == old(self)@.rows_matching(name@),
    {
        proof {
            use_type_invariant(&*self);
        }
        let name = name.to_owned();
        match self.find_name(&name) {
            Some(i) => {
                let mut rows: Vec<Service> = Vec::new();
                core::mem::swap(&mut rows, &mut self.rows);
                rows.remove(i);
                proof {
                    lemma_delete_present(old(self)@.rows, name@, i as int);
                    assert(views(rows@) =~= old(self)@.rows.remove(i as int));
                }
                core::mem::swap(&mut rows, &mut self.rows);
                1
            },
            None => {
                proof {
                    lemma_delete_absent(self@.rows, name@);
                }
                0
            },
        }
    }
}

} // verus!
