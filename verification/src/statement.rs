//! The three statements that the service sends to the store, each with its text and the
//! values bound to its placeholders.

use vstd::prelude::*;

verus! {

/// Text of the statement that selects one page of records in ascending order of `id`.
pub const SELECT_PAGE_SQL: &'static str =
    "SELECT * FROM crud.mensagem ORDER by id LIMIT $1 OFFSET $2";

/// Text of the statement that inserts one record and returns it as stored.
pub const INSERT_SQL: &'static str =
    "INSERT INTO crud.mensagem (nome,mensagem) VALUES ($1, $2) RETURNING *";

/// Text of the statement that selects the record with a given `id`.
pub const SELECT_BY_ID_SQL: &'static str = "SELECT * FROM crud.mensagem WHERE id = $1";

/// Selects at most `limit` records after skipping `offset` of them, in ascending order of `id`.
#[derive(Clone, Copy, Debug, PartialEq, Eq)]
pub struct SelectPage {
    pub limit: i32,
    pub offset: i32,
}

/// Inserts a record; the store assigns `id` and `data`.
#[derive(Debug, PartialEq, Eq)]
pub struct InsertMensagem {
    pub nome: String,
    pub mensagem: String,
}

/// The mathematical value of an insertion.
pub struct InsertMensagemView {
    pub nome: Seq<char>,
    pub mensagem: Seq<char>,
}

impl View for InsertMensagem {
    type V = InsertMensagemView;

    open spec fn view(&self) -> InsertMensagemView {
        InsertMensagemView { nome: self.nome@, mensagem: self.mensagem@ }
    }
}

/// Selects the record whose `id` is the given one.
#[derive(Clone, Copy, Debug, PartialEq, Eq)]
pub struct SelectById {
    pub id: i32,
}

} // verus!
