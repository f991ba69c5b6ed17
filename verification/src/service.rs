//! The service as a whole: one request in, one answer out, and the table as the request
//! leaves it.

use crate::handler::{
    create_endpoint, create_mensagem_handler, get_endpoint, get_mensagem_handler,
    health_answer, health_checker_handler, list_endpoint, mensagem_list_handler,
};
use crate::response::{Response, ResponseView};
use crate::schema::{CreateMensagemSchema, CreateMensagemView, FilterOptions};
use crate::store::{Table, TableView};
use vstd::prelude::*;

verus! {

/// A request, once routed and parsed.
#[derive(Debug, PartialEq, Eq)]
pub enum Request {
    /// `GET /api/healthchecker`
    HealthChecker,
    /// `GET /api/mensagem?page=&limit=`
    List { opts: FilterOptions },
    /// `POST /api/mensagem/`; `data` is the time at which the store takes the record.
    Create { body: CreateMensagemSchema, data: chrono::NaiveDateTime },
    /// `GET /api/mensagem/{id}`
    Get { id: i32 },
}

/// The mathematical value of a request.
pub enum RequestView {
    HealthChecker,
    List { opts: FilterOptions },
    Create { body: CreateMensagemView, data: chrono::NaiveDateTime },
    Get { id: int },
}

impl View for Request {
    type V = RequestView;

    open spec fn view(&self) -> RequestView {
        match self {
            Request::HealthChecker => RequestView::HealthChecker,
            Request::List { opts } => RequestView::List { opts: *opts },
            Request::Create { body, data } => RequestView::Create { body: body@, data: *data },
            Request::Get { id } => RequestView::Get { id: *id as int },
        }
    }
}

impl RequestView {
    /// Whether the request only reads.
    pub open spec fn is_read(self) -> bool {
        !(self is Create)
    }
}

/// The answer to a request on a table.
pub open spec fn answer(table: TableView, request: RequestView) -> ResponseView {
    match request {
        RequestView::HealthChecker => health_answer(),
        RequestView::List { opts } => list_endpoint(opts, table),
        RequestView::Create { body, data } => create_endpoint(body, data, table),
        RequestView::Get { id } => get_endpoint(id, table),
    }
}

/// The table after a request.
pub open spec fn table_after(table: TableView, request: RequestView) -> TableView {
    match request {
        RequestView::Create { body, data } => table.after_insert(body.nome, body.mensagem, data),
        _ => table,
    }
}

/// The table after a sequence of requests, served in order.
pub open spec fn table_after_all(table: TableView, requests: Seq<RequestView>) -> TableView
    decreases requests.len(),
{
    if requests.len() == 0 {
        table
    } else {
        table_after(table_after_all(table, requests.drop_last()), requests.last())
    }
}

/// Serves one request against a table.
pub fn handle(table: &mut Table, request: &Request) -> (response: Response)
    ensures
        response@ == answer(old(table)@, request@),
        final(table)@ == table_after(old(table)@, request@),
        final(table)@.wf(),
{
    match request {
        Request::HealthChecker => {
            proof {
                use_type_invariant(&*table);
            }
            health_checker_handler()
        },
        Request::List { opts } => mensagem_list_handler(opts, table),
        Request::Create { body, data } => create_mensagem_handler(body, *data, table),
        Request::Get { id } => get_mensagem_handler(*id, table),
    }
}

} // verus!
