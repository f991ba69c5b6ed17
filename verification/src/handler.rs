//! The four endpoints.
//!
//! An endpoint that needs the store does its work in two steps around the one statement it
//! sends: it builds the statement from the request, and it builds the answer from what the
//! statement yielded. Each endpoint is also given whole, run against a [`Table`].

use crate::error::{PersistenceError, PersistenceErrorView};
use crate::model::{MensagemModel, MensagemView};
use crate::response::{
    Body, BodyView, Response, ResponseView, Status, BAD_REQUEST, INTERNAL_SERVER_ERROR, NOT_FOUND,
    OK,
};
use crate::schema::{
    CreateMensagemSchema, CreateMensagemView, FilterOptions, DEFAULT_LIMIT, DEFAULT_PAGE,
    MAX_WINDOW,
};
use crate::statement::{InsertMensagem, InsertMensagemView, SelectById, SelectPage};
use crate::store::{row_outcome, rows_outcome, Table, TableView};
use crate::text::{decimal, decimal_string};
use vstd::prelude::*;
use vstd::string::*;

verus! {

/// Message of the health check.
pub const SERVER_RUNNING: &'static str = "Server is running";

/// Message of a list request whose page cannot be selected.
pub const PAGE_REJECTED: &'static str = "Invalid page or limit";

/// Message of a list request that failed in the persistence layer.
pub const LIST_FAILED: &'static str = "Something bad happened while fetching all message items";

/// Message of a creation request that failed in the persistence layer.
pub const CREATE_FAILED: &'static str = "Something bad happened while creating the message";

/// What stands before the identifier in the message for a record that is not there.
pub const NOT_FOUND_HEAD: &'static str = "Mensagem with ID: ";

/// What stands after the identifier in the message for a record that is not there.
pub const NOT_FOUND_TAIL: &'static str = " not found";

/// An answer whose envelope holds a message.
pub open spec fn message_answer(code: int, status: Status, message: Seq<char>) -> ResponseView {
    ResponseView { code, status, body: BodyView::Message { message } }
}

/// The answer that presents one record.
pub open spec fn record_answer(record: MensagemView) -> ResponseView {
    ResponseView { code: OK as int, status: Status::Success, body: BodyView::Data { mensagem: record } }
}

/// The answer of the health check.
pub open spec fn health_answer() -> ResponseView {
    message_answer(OK as int, Status::Success, SERVER_RUNNING@)
}

/// The answer to a list request whose options describe no page that can be selected.
pub open spec fn rejected_page_answer() -> ResponseView {
    message_answer(BAD_REQUEST as int, Status::Fail, PAGE_REJECTED@)
}

/// The answer to a list request, given what the selection yielded: the rows in the order in
/// which they came, with their number; or a server error that does not show the failure.
pub open spec fn list_answer(outcome: Result<Seq<MensagemView>, PersistenceErrorView>) -> ResponseView {
    match outcome {
        Ok(rows) => ResponseView {
            code: OK as int,
            status: Status::Success,
            body: BodyView::Notes { results: rows.len() as int, notes: rows },
        },
        Err(_) => message_answer(INTERNAL_SERVER_ERROR as int, Status::Error, LIST_FAILED@),
    }
}

/// The answer to a creation request, given what the insertion yielded: the stored record,
/// or a server error that does not show the failure. Every failure is answered alike,
/// a violated unique constraint too.
pub open spec fn create_answer(outcome: Result<MensagemView, PersistenceErrorView>) -> ResponseView {
    match outcome {
        Ok(record) => record_answer(record),
        Err(_) => message_answer(INTERNAL_SERVER_ERROR as int, Status::Error, CREATE_FAILED@),
    }
}

/// The message for a record that is not there.
pub open spec fn not_found_message(id: int) -> Seq<char> {
    NOT_FOUND_HEAD@ + decimal(id) + NOT_FOUND_TAIL@
}

/// The answer to a request for the record `id`, given what the selection yielded: the
/// record, or not-found for every failure.
pub open spec fn get_answer(id: int, outcome: Result<MensagemView, PersistenceErrorView>) -> ResponseView {
    match outcome {
        Ok(record) => record_answer(record),
        Err(_) => message_answer(NOT_FOUND as int, Status::Fail, not_found_message(id)),
    }
}

/// The page that the options of a list request describe, where they describe one that can
/// be selected.
pub open spec fn list_query(opts: FilterOptions) -> Option<SelectPage> {
    if opts.acceptable() {
        Some(SelectPage { limit: opts.limit_value() as i32, offset: opts.offset_value() as i32 })
    } else {
        None
    }
}

/// The answer of the list endpoint on a table.
pub open spec fn list_endpoint(opts: FilterOptions, table: TableView) -> ResponseView {
    match list_query(opts) {
        Some(statement) => list_answer(
            table.select_page(statement.limit as int, statement.offset as int),
        ),
        None => rejected_page_answer(),
    }
}

/// The answer of the creation endpoint on a table, for a record stamped with `data`.
pub open spec fn create_endpoint(
    body: CreateMensagemView,
    data: chrono::NaiveDateTime,
    table: TableView,
) -> ResponseView {
    create_answer(table.insert(body.nome, body.mensagem, data))
}

/// The answer of the get-by-id endpoint on a table.
pub open spec fn get_endpoint(id: int, table: TableView) -> ResponseView {
    get_answer(id, table.select_by_id(id))
}

fn message_response(code: u16, status: Status, message: String) -> (response: Response)
    ensures
        response@ == message_answer(code as int, status, message@),
{
    Response { code, status, body: Body::Message { message } }
}

fn record_response(record: MensagemModel) -> (response: Response)
    ensures
        response@ == record_answer(record@),
{
    Response { code: OK, status: Status::Success, body: Body::Data { mensagem: record } }
}

/// Health check: always the same success message.
pub fn health_checker_handler() -> (response: Response)
    ensures
        response@ == health_answer(),
{
    message_response(OK, Status::Success, SERVER_RUNNING.to_owned())
}

/// The statement of a list request: the page that the options describe, or nothing where
/// they describe none that can be selected.
pub fn list_statement(opts: &FilterOptions) -> (statement: Option<SelectPage>)
    ensures
        statement == list_query(*opts),
{
    let limit: usize = match opts.limit {
        Some(limit) => limit,
        None => DEFAULT_LIMIT,
    };
    let page: usize = match opts.page {
        Some(page) => if page < 1 {
            1
        } else {
            page
        },
        None => DEFAULT_PAGE,
    };
    if limit == 0 || limit > MAX_WINDOW {
        return None;
    }
    let skipped_pages: usize = page - 1;
    if skipped_pages > MAX_WINDOW {
        assert(skipped_pages * limit >= skipped_pages) by (nonlinear_arith)
            requires
                limit >= 1,
                skipped_pages >= 0,
        ;
        return None;
    }
    assert(skipped_pages * limit <= MAX_WINDOW * MAX_WINDOW) by (nonlinear_arith)
        requires
            0 <= skipped_pages <= MAX_WINDOW,
            0 <= limit <= MAX_WINDOW,
    ;
    let offset: u64 = (skipped_pages as u64) * (limit as u64);
    if offset > MAX_WINDOW as u64 {
        return None;
    }
    Some(SelectPage { limit: limit as i32, offset: offset as i32 })
}

/// The answer to a list request whose options describe no page that can be selected.
pub fn rejected_page_response() -> (response: Response)
    ensures
        response@ == rejected_page_answer(),
{
    message_response(BAD_REQUEST, Status::Fail, PAGE_REJECTED.to_owned())
}

/// The answer to a list request, from what its statement yielded.
pub fn mensagem_list_response(outcome: Result<Vec<MensagemModel>, PersistenceError>) -> (response:
    Response)
    ensures
        response@ == list_answer(rows_outcome(outcome)),
{
    match outcome {
        Ok(rows) => Response {
            code: OK,
            status: Status::Success,
            body: Body::Notes { results: rows.len(), notes: rows },
        },
        Err(_) => message_response(INTERNAL_SERVER_ERROR, Status::Error, LIST_FAILED.to_owned()),
    }
}

/// The list endpoint, run against a table.
pub fn mensagem_list_handler(opts: &FilterOptions, table: &Table) -> (response: Response)
    ensures
        response@ == list_endpoint(*opts, table@),
        table@.wf(),
{
    match list_statement(opts) {
        Some(statement) => mensagem_list_response(table.select_page(&statement)),
        None => {
            proof {
                use_type_invariant(table);
            }
            rejected_page_response()
        },
    }
}

/// The statement of a creation request.
pub fn create_statement(body: &CreateMensagemSchema) -> (statement: InsertMensagem)
    ensures
        statement@ == (InsertMensagemView { nome: body@.nome, mensagem: body@.mensagem }),
{
    InsertMensagem { nome: body.nome.clone(), mensagem: body.mensagem.clone() }
}

/// The answer to a creation request, from what its statement yielded.
pub fn create_mensagem_response(outcome: Result<MensagemModel, PersistenceError>) -> (response:
    Response)
    ensures
        response@ == create_answer(row_outcome(outcome)),
{
    match outcome {
        Ok(record) => record_response(record),
        Err(_) => message_response(INTERNAL_SERVER_ERROR, Status::Error, CREATE_FAILED.to_owned()),
    }
}

/// The creation endpoint, run against a table; the new record is stamped with `data`.
pub fn create_mensagem_handler(
    body: &CreateMensagemSchema,
    data: chrono::NaiveDateTime,
    table: &mut Table,
) -> (response: Response)
    ensures
        response@ == create_endpoint(body@, data, old(table)@),
        final(table)@ == old(table)@.after_insert(body@.nome, body@.mensagem, data),
        final(table)@.wf(),
{
    let statement = create_statement(body);
    create_mensagem_response(table.insert(&statement, data))
}

/// The statement of a request for the record `id`.
pub fn get_statement(id: i32) -> (statement: SelectById)
    ensures
        statement == (SelectById { id }),
{
    SelectById { id }
}

/// The answer to a request for the record `id`, from what its statement yielded.
pub fn get_mensagem_response(id: i32, outcome: Result<MensagemModel, PersistenceError>) -> (response:
    Response)
    ensures
        response@ == get_answer(id as int, row_outcome(outcome)),
{
    match outcome {
        Ok(record) => record_response(record),
        Err(_) => {
            let mut message = NOT_FOUND_HEAD.to_owned();
            message.append(decimal_string(id).as_str());
            message.append(NOT_FOUND_TAIL);
            message_response(NOT_FOUND, Status::Fail, message)
        },
    }
}

/// The get-by-id endpoint, run against a table.
pub fn get_mensagem_handler(id: i32, table: &Table) -> (response: Response)
    ensures
        response@ == get_endpoint(id as int, table@),
        table@.wf(),
{
    let statement = get_statement(id);
    get_mensagem_response(id, table.select_by_id(&statement))
}

} // verus!
