//! What holds of the service, whatever the table and the requests.

use crate::error::PersistenceErrorView;
use crate::handler::{
    create_answer, get_answer, list_answer, message_answer, not_found_message, record_answer,
    CREATE_FAILED, LIST_FAILED,
};
use crate::model::MensagemView;
use crate::response::{BodyView, Status, INTERNAL_SERVER_ERROR, NOT_FOUND, OK};
use crate::schema::{CreateMensagemView, FilterOptions, MAX_WINDOW};
use crate::service::{answer, table_after, table_after_all, RequestView};
use crate::store::{ascending, TableView};
use vstd::prelude::*;

verus! {

/// No request breaks the table's invariant.
pub proof fn lemma_table_stays_well_formed(table: TableView, request: RequestView)
    requires
        table.wf(),
    ensures
        table_after(table, request).wf(),
{
}

/// No sequence of requests breaks the table's invariant.
pub proof fn lemma_table_stays_well_formed_all(table: TableView, requests: Seq<RequestView>)
    requires
        table.wf(),
    ensures
        table_after_all(table, requests).wf(),
    decreases requests.len(),
{
    if requests.len() > 0 {
        lemma_table_stays_well_formed_all(table, requests.drop_last());
        lemma_table_stays_well_formed(
            table_after_all(table, requests.drop_last()),
            requests.last(),
        );
    }
}

/// A creation that the store accepts answers with the stored record, which carries the
/// payload's `nome` and `mensagem`; a get-by-id with the identifier of that record, served
/// next, answers with the same record. The store accepts every creation until its sequence
/// of identifiers has run out.
pub proof fn lemma_created_record_is_read_back(
    table: TableView,
    body: CreateMensagemView,
    data: chrono::NaiveDateTime,
)
    requires
        table.wf(),
    ensures
        ({
            let creation = RequestView::Create { body, data };
            let created = answer(table, creation);
            let after = table_after(table, creation);
            if table.has_room() {
                &&& created.code == OK
                &&& created.status == Status::Success
                &&& created.body matches BodyView::Data { mensagem: record }
                &&& record.nome == body.nome
                &&& record.mensagem == Some(body.mensagem)
                &&& record.data == data
                &&& !table.holds(record.id)
                &&& answer(after, RequestView::Get { id: record.id }) == created
            } else {
                &&& created == message_answer(
                    INTERNAL_SERVER_ERROR as int,
                    Status::Error,
                    CREATE_FAILED@,
                )
                &&& after == table
            }
        }),
{
    if table.has_room() {
        let record = table.next_row(body.nome, body.mensagem, data);
        let after = table.after_insert(body.nome, body.mensagem, data);
        let at = table.rows.len() as int;
        assert(after.rows[at] == record);
        lemma_row_is_the_one_with_its_id(after, at);
    }
}

/// In a well-formed table the row found by an `id` is the one row that has it.
pub proof fn lemma_row_is_the_one_with_its_id(table: TableView, at: int)
    requires
        table.wf(),
        0 <= at < table.rows.len(),
    ensures
        table.holds(table.rows[at].id),
        table.row(table.rows[at].id) == table.rows[at],
{
    let id = table.rows[at].id;
    let found = choose|i: int| 0 <= i < table.rows.len() && (#[trigger] table.rows[i]).id == id;
    if found < at {
        assert(table.rows[found].id < table.rows[at].id);
    } else if at < found {
        assert(table.rows[at].id < table.rows[found].id);
    }
}

/// A stored record is never changed or removed: whatever request is served, a get-by-id
/// with the record's identifier answers afterwards as it did before.
pub proof fn lemma_record_outlives_request(table: TableView, id: int, request: RequestView)
    requires
        table.wf(),
        table.holds(id),
    ensures
        table_after(table, request).holds(id),
        answer(table_after(table, request), RequestView::Get { id }) == answer(
            table,
            RequestView::Get { id },
        ),
{
    let after = table_after(table, request);
    let at = choose|i: int| 0 <= i < table.rows.len() && (#[trigger] table.rows[i]).id == id;
    lemma_row_is_the_one_with_its_id(table, at);
    assert(after.rows[at] == table.rows[at]);
    lemma_row_is_the_one_with_its_id(after, at);
}

/// A stored record is never changed or removed: whatever requests are served, in whatever
/// number, a get-by-id with the record's identifier answers afterwards as it did before.
pub proof fn lemma_record_outlives_requests(table: TableView, id: int, requests: Seq<RequestView>)
    requires
        table.wf(),
        table.holds(id),
    ensures
        table_after_all(table, requests).holds(id),
        answer(table_after_all(table, requests), RequestView::Get { id }) == answer(
            table,
            RequestView::Get { id },
        ),
    decreases requests.len(),
{
    if requests.len() > 0 {
        let before = table_after_all(table, requests.drop_last());
        lemma_record_outlives_requests(table, id, requests.drop_last());
        lemma_table_stays_well_formed_all(table, requests.drop_last());
        lemma_record_outlives_request(before, id, requests.last());
    }
}

/// Reading changes nothing: a request that is no creation leaves the table as it was.
pub proof fn lemma_read_leaves_table(table: TableView, request: RequestView)
    requires
        request.is_read(),
    ensures
        table_after(table, request) == table,
{
}

/// Reading is repeatable: after any number of requests that are no creations the table is
/// as it was, so that every request is answered as it would have been before them. With
/// `reads` the one get-by-id and `request` the same get-by-id: the second answer is the
/// first.
pub proof fn lemma_reads_are_repeatable(
    table: TableView,
    reads: Seq<RequestView>,
    request: RequestView,
)
    requires
        forall|i: int| 0 <= i < reads.len() ==> (#[trigger] reads[i]).is_read(),
    ensures
        table_after_all(table, reads) == table,
        answer(table_after_all(table, reads), request) == answer(table, request),
    decreases reads.len(),
{
    if reads.len() > 0 {
        lemma_reads_are_repeatable(table, reads.drop_last(), request);
        assert(reads.last() == reads[reads.len() - 1]);
    }
}

/// The first page of `limit` records: the answer is a success that holds the first `limit`
/// rows of the table, or all of them where the table has fewer, in ascending order of `id`,
/// and `results` is their number.
pub proof fn lemma_first_page(table: TableView, limit: usize)
    requires
        table.wf(),
        0 < limit <= MAX_WINDOW,
    ensures
        ({
            let opts = FilterOptions { page: Some(1), limit: Some(limit) };
            let listed = answer(table, RequestView::List { opts });
            let shown = if limit < table.rows.len() {
                limit as int
            } else {
                table.rows.len() as int
            };
            &&& listed.code == OK
            &&& listed.status == Status::Success
            &&& listed.body matches BodyView::Notes { results, notes }
            &&& results == shown
            &&& notes == table.rows.take(shown)
            &&& ascending(notes)
        }),
{
    let opts = FilterOptions { page: Some(1), limit: Some(limit) };
    assert(opts.page_value() == 1);
    assert(opts.limit_value() == limit);
    assert(opts.offset_value() == 0);
    assert(opts.acceptable());
    lemma_page_is_a_run_of_the_table(table, limit as int, 0);
}

/// A page is a run of consecutive rows of the table: it starts after `offset` rows, or at
/// the table's end where there are fewer, holds the `limit` rows from there on, or as many
/// as are left, and is in ascending order of `id` like the table.
pub proof fn lemma_page_is_a_run_of_the_table(table: TableView, limit: int, offset: int)
    requires
        table.wf(),
        0 <= limit,
        0 <= offset,
    ensures
        ({
            let page = table.page(limit, offset);
            let first = if offset < table.rows.len() {
                offset
            } else {
                table.rows.len() as int
            };
            &&& page.len() == if limit < table.rows.len() - first {
                limit
            } else {
                table.rows.len() - first
            }
            &&& forall|k: int| 0 <= k < page.len() ==> page[k] == table.rows[first + k]
            &&& ascending(page)
        }),
{
    let page = table.page(limit, offset);
    let first = if offset < table.rows.len() {
        offset
    } else {
        table.rows.len() as int
    };
    assert forall|i: int, j: int| 0 <= i < j < page.len() implies (#[trigger] page[i]).id < (
    #[trigger] page[j]).id by {
        assert(page[i] == table.rows[first + i]);
        assert(page[j] == table.rows[first + j]);
    }
}

/// A get-by-id with an identifier that no stored record has is answered with not-found and
/// the message that names the identifier.
pub proof fn lemma_absent_record_is_not_found(table: TableView, id: i32)
    requires
        !table.holds(id as int),
    ensures
        answer(table, RequestView::Get { id: id as int }) == message_answer(
            NOT_FOUND as int,
            Status::Fail,
            not_found_message(id as int),
        ),
{
}

/// A get-by-id is answered with the record or with not-found, whatever the store yielded:
/// never with a server error.
pub proof fn lemma_get_is_found_or_not_found(
    id: i32,
    outcome: Result<MensagemView, PersistenceErrorView>,
)
    ensures
        get_answer(id as int, outcome).code == OK || get_answer(id as int, outcome).code
            == NOT_FOUND,
        get_answer(id as int, outcome).code == OK <==> outcome is Ok,
        outcome is Err ==> get_answer(id as int, outcome) == message_answer(
            NOT_FOUND as int,
            Status::Fail,
            not_found_message(id as int),
        ),
        outcome matches Ok(record) ==> get_answer(id as int, outcome) == record_answer(record),
{
}

/// No answer shows what went wrong in the store: a list or a creation that failed is
/// answered with a server error and a fixed message, the same for every failure.
pub proof fn lemma_failure_is_never_shown(error: PersistenceErrorView, other: PersistenceErrorView)
    ensures
        list_answer(Err(error)) == message_answer(
            INTERNAL_SERVER_ERROR as int,
            Status::Error,
            LIST_FAILED@,
        ),
        create_answer(Err(error)) == message_answer(
            INTERNAL_SERVER_ERROR as int,
            Status::Error,
            CREATE_FAILED@,
        ),
        list_answer(Err(error)) == list_answer(Err(other)),
        create_answer(Err(error)) == create_answer(Err(other)),
{
}

} // verus!
