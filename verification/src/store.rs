//! The table of records as the statements see it, held in memory.
//!
//! [`Table`] answers the three statements of the service the way the relational table
//! does: rows come out in ascending order of `id`, an insertion takes the next `id` of the
//! sequence, and nothing ever changes or removes a stored row.

use crate::error::{PersistenceError, PersistenceErrorView};
use crate::model::{MensagemModel, MensagemView};
use crate::response::views_of;
use crate::statement::{InsertMensagem, SelectById, SelectPage};
use vstd::prelude::*;

verus! {

/// Wording of the failure of a selection with a negative limit.
pub const NEGATIVE_LIMIT: &'static str = "LIMIT must not be negative";

/// Wording of the failure of a selection with a negative offset.
pub const NEGATIVE_OFFSET: &'static str = "OFFSET must not be negative";

/// Wording of the failure of an insertion when the sequence of identifiers has run out.
pub const SEQUENCE_EXHAUSTED: &'static str = "nextval: reached maximum value of sequence";

/// Wording of the failure of a selection of one row that found none.
pub const NO_ROWS: &'static str =
    "no rows returned by a query that expected to return at least one row";

/// The failure that the table reports with the given wording.
pub open spec fn failure(wording: Seq<char>) -> PersistenceErrorView {
    PersistenceErrorView { message: wording }
}

/// What a statement that returns rows yields, as a mathematical value.
pub open spec fn rows_outcome(outcome: Result<Vec<MensagemModel>, PersistenceError>) -> Result<
    Seq<MensagemView>,
    PersistenceErrorView,
> {
    match outcome {
        Ok(rows) => Ok(views_of(rows@)),
        Err(error) => Err(error@),
    }
}

/// What a statement that returns one row yields, as a mathematical value.
pub open spec fn row_outcome(outcome: Result<MensagemModel, PersistenceError>) -> Result<
    MensagemView,
    PersistenceErrorView,
> {
    match outcome {
        Ok(row) => Ok(row@),
        Err(error) => Err(error@),
    }
}

/// Whether rows stand in strictly ascending order of `id`.
pub open spec fn ascending(rows: Seq<MensagemView>) -> bool {
    forall|i: int, j: int|
        0 <= i < j < rows.len() ==> (#[trigger] rows[i]).id < (#[trigger] rows[j]).id
}

/// The mathematical value of a table: its rows in stored order and the last identifier that
/// its sequence has handed out.
pub struct TableView {
    pub rows: Seq<MensagemView>,
    pub last_id: int,
}

impl TableView {
    /// The invariant of the table: identifiers are positive, none is beyond the sequence,
    /// and the rows stand in strictly ascending order of `id`, so that no `id` occurs twice.
    pub open spec fn wf(self) -> bool {
        &&& 0 <= self.last_id <= i32::MAX
        &&& forall|i: int|
            0 <= i < self.rows.len() ==> 1 <= (#[trigger] self.rows[i]).id <= self.last_id
        &&& ascending(self.rows)
    }

    /// The empty table, whose sequence has handed out nothing yet.
    pub open spec fn empty() -> TableView {
        TableView { rows: Seq::empty(), last_id: 0 }
    }

    /// Whether a row with the given `id` is stored.
    pub open spec fn holds(self, id: int) -> bool {
        exists|i: int| 0 <= i < self.rows.len() && (#[trigger] self.rows[i]).id == id
    }

    /// The stored row with the given `id`, where there is one.
    pub open spec fn row(self, id: int) -> MensagemView {
        let i = choose|i: int| 0 <= i < self.rows.len() && (#[trigger] self.rows[i]).id == id;
        self.rows[i]
    }

    /// The rows of one page: at most `limit` rows after the first `offset`.
    pub open spec fn page(self, limit: int, offset: int) -> Seq<MensagemView>
        recommends
            0 <= limit,
            0 <= offset,
    {
        let total = self.rows.len() as int;
        let first = if offset < total {
            offset
        } else {
            total
        };
        let end = if first + limit < total {
            first + limit
        } else {
            total
        };
        self.rows.subrange(first, end)
    }

    /// What the selection of a page yields.
    pub open spec fn select_page(self, limit: int, offset: int) -> Result<
        Seq<MensagemView>,
        PersistenceErrorView,
    > {
        if limit < 0 {
            Err(failure(NEGATIVE_LIMIT@))
        } else if offset < 0 {
            Err(failure(NEGATIVE_OFFSET@))
        } else {
            Ok(self.page(limit, offset))
        }
    }

    /// What the selection of the row with the given `id` yields.
    pub open spec fn select_by_id(self, id: int) -> Result<MensagemView, PersistenceErrorView> {
        if self.holds(id) {
            Ok(self.row(id))
        } else {
            Err(failure(NO_ROWS@))
        }
    }

    /// Whether the sequence has an identifier left.
    pub open spec fn has_room(self) -> bool {
        self.last_id < i32::MAX
    }

    /// The row that an insertion stores.
    pub open spec fn next_row(
        self,
        nome: Seq<char>,
        mensagem: Seq<char>,
        data: chrono::NaiveDateTime,
    ) -> MensagemView {
        MensagemView { id: self.last_id + 1, nome, mensagem: Some(mensagem), data }
    }

    /// The table after an insertion: with the new row at its end, or unchanged where the
    /// sequence has run out.
    pub open spec fn after_insert(
        self,
        nome: Seq<char>,
        mensagem: Seq<char>,
        data: chrono::NaiveDateTime,
    ) -> TableView {
        if self.has_room() {
            TableView {
                rows: self.rows.push(self.next_row(nome, mensagem, data)),
                last_id: self.last_id + 1,
            }
        } else {
            self
        }
    }

    /// What an insertion yields.
    pub open spec fn insert(
        self,
        nome: Seq<char>,
        mensagem: Seq<char>,
        data: chrono::NaiveDateTime,
    ) -> Result<MensagemView, PersistenceErrorView> {
        if self.has_room() {
            Ok(self.next_row(nome, mensagem, data))
        } else {
            Err(failure(SEQUENCE_EXHAUSTED@))
        }
    }
}

/// The table of records, in memory.
pub struct Table {
    rows: Vec<MensagemModel>,
    last_id: i32,
}

impl View for Table {
    type V = TableView;

    closed spec fn view(&self) -> TableView {
        TableView { rows: views_of(self.rows@), last_id: self.last_id as int }
    }
}

fn fail(wording: &'static str) -> (error: PersistenceError)
    ensures
        error@ == failure(wording@),
{
    PersistenceError::new(wording.to_owned())
}

impl Table {
    /// Every table is well-formed.
    #[verifier::type_invariant]
    pub open spec fn well_formed(&self) -> bool {
        self@.wf()
    }

    /// An empty table.
    pub fn new() -> (table: Table)
        ensures
            table@ == TableView::empty(),
            table@.wf(),
    {
        let table = Table { rows: Vec::new(), last_id: 0 };
        assert(table@.rows =~= Seq::empty());
        table
    }

    /// The number of stored rows.
    pub fn len(&self) -> (count: usize)
        ensures
            count == self@.rows.len(),
            self@.wf(),
    {
        proof {
            use_type_invariant(self);
        }
        self.rows.len()
    }

    /// Runs the selection of a page.
    pub fn select_page(&self, statement: &SelectPage) -> (outcome: Result<
        Vec<MensagemModel>,
        PersistenceError,
    >)
        ensures
            rows_outcome(outcome) == self@.select_page(
                statement.limit as int,
                statement.offset as int,
            ),
            self@.wf(),
    {
        proof {
            use_type_invariant(self);
        }
        if statement.limit < 0 {
            return Err(fail(NEGATIVE_LIMIT));
        }
        if statement.offset < 0 {
            return Err(fail(NEGATIVE_OFFSET));
        }
        let total: usize = self.rows.len();
        let limit: usize = statement.limit as usize;
        let offset: usize = statement.offset as usize;
        let first: usize = if offset < total {
            offset
        } else {
            total
        };
        let end: usize = if limit < total - first {
            first + limit
        } else {
            total
        };
        let mut page: Vec<MensagemModel> = Vec::new();
        let mut i: usize = first;
        while i < end
            invariant
                first <= i <= end <= total,
                total == self.rows.len(),
                views_of(page@) == views_of(self.rows@).subrange(first as int, i as int),
            decreases end - i,
        {
            let ghost shown = page@;
            let row = self.rows[i].clone();
            page.push(row);
            assert(views_of(page@) =~= views_of(shown).push(views_of(self.rows@)[i as int]));
            i += 1;
            assert(views_of(page@) =~= views_of(self.rows@).subrange(first as int, i as int));
        }
        Ok(page)
    }

    /// Runs the selection of one row by its `id`.
    pub fn select_by_id(&self, statement: &SelectById) -> (outcome: Result<
        MensagemModel,
        PersistenceError,
    >)
        ensures
            row_outcome(outcome) == self@.select_by_id(statement.id as int),
            self@.wf(),
    {
        proof {
            use_type_invariant(self);
        }
        let mut i: usize = 0;
        while i < self.rows.len()
            invariant
                i <= self.rows.len(),
                self@.wf(),
                forall|j: int| 0 <= j < i ==> (#[trigger] self@.rows[j]).id != statement.id,
            decreases self.rows.len() - i,
        {
            if self.rows[i].id == statement.id {
                assert(self@.rows[i as int].id == statement.id);
                return Ok(self.rows[i].clone());
            }
            i += 1;
        }
        Err(fail(NO_ROWS))
    }

    /// Runs an insertion. The row gets the next `id` of the sequence and `data` as its
    /// timestamp.
    pub fn insert(&mut self, statement: &InsertMensagem, data: chrono::NaiveDateTime) -> (outcome:
        Result<MensagemModel, PersistenceError>)
        ensures
            row_outcome(outcome) == old(self)@.insert(statement.nome@, statement.mensagem@, data),
            final(self)@ == old(self)@.after_insert(statement.nome@, statement.mensagem@, data),
            final(self)@.wf(),
    {
        proof {
            use_type_invariant(&*self);
        }
        if self.last_id == i32::MAX {
            return Err(fail(SEQUENCE_EXHAUSTED));
        }
        let id: i32 = self.last_id + 1;
        let row = MensagemModel {
            id,
            nome: statement.nome.clone(),
            mensagem: Some(statement.mensagem.clone()),
            data,
        };
        // The rows leave the table while the new one is added, so that the table is
        // well-formed at every step.
        let mut rows: Vec<MensagemModel> = Vec::new();
        std::mem::swap(&mut self.rows, &mut rows);
        rows.push(row.clone());
        self.last_id = id;
        proof {
            let grown = TableView { rows: views_of(rows@), last_id: id as int };
            assert(grown.rows =~= old(self)@.rows.push(row@));
            assert(grown.wf());
        }
        std::mem::swap(&mut self.rows, &mut rows);
        Ok(row)
    }
}

} // verus!
