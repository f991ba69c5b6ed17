use chrono::{NaiveDate, NaiveDateTime};
use mensagem_api::error::PersistenceError;
use mensagem_api::handler::{
    create_mensagem_handler, create_mensagem_response, create_statement, get_mensagem_handler,
    get_mensagem_response, get_statement, health_checker_handler, list_statement,
    mensagem_list_handler, mensagem_list_response, rejected_page_response,
};
use mensagem_api::model::MensagemModel;
use mensagem_api::response::{Body, Response, Status};
use mensagem_api::schema::{CreateMensagemSchema, FilterOptions};
use mensagem_api::statement::{InsertMensagem, SelectById, SelectPage};
use mensagem_api::store::Table;

fn at(hour: u32, minute: u32) -> NaiveDateTime {
    NaiveDate::from_ymd_opt(2024, 3, 9).unwrap().and_hms_opt(hour, minute, 0).unwrap()
}

fn payload(nome: &str, mensagem: &str) -> CreateMensagemSchema {
    CreateMensagemSchema { nome: nome.to_string(), mensagem: mensagem.to_string() }
}

fn table_of(count: u32) -> Table {
    let mut table = Table::new();
    for n in 0..count {
        let body = payload(&format!("nome{}", n + 1), &format!("texto{}", n + 1));
        let response = create_mensagem_handler(&body, at(10, n), &mut table);
        assert_eq!(response.code, 200);
    }
    table
}

fn ids(response: &Response) -> Vec<i32> {
    match &response.body {
        Body::Notes { notes, .. } => notes.iter().map(|record| record.id).collect(),
        other => panic!("no list in {:?}", other),
    }
}

fn failure(message: &str) -> PersistenceError {
    PersistenceError::new(message.to_string())
}

#[test]
fn health_check_is_a_fixed_success() {
    let response = health_checker_handler();
    assert_eq!(
        response,
        Response {
            code: 200,
            status: Status::Success,
            body: Body::Message { message: "Server is running".to_string() },
        }
    );
}

#[test]
fn create_then_get_then_miss() {
    let mut table = Table::new();
    let created = create_mensagem_handler(&payload("alice", "hi"), at(8, 30), &mut table);
    let record = MensagemModel {
        id: 1,
        nome: "alice".to_string(),
        mensagem: Some("hi".to_string()),
        data: at(8, 30),
    };
    assert_eq!(
        created,
        Response {
            code: 200,
            status: Status::Success,
            body: Body::Data { mensagem: record.clone() },
        }
    );
    assert_eq!(table.len(), 1);

    let read = get_mensagem_handler(1, &table);
    assert_eq!(read, created);

    let missed = get_mensagem_handler(4711, &table);
    assert_eq!(
        missed,
        Response {
            code: 404,
            status: Status::Fail,
            body: Body::Message { message: "Mensagem with ID: 4711 not found".to_string() },
        }
    );
}

#[test]
fn first_page_of_two_out_of_five() {
    let table = table_of(5);
    let opts = FilterOptions { page: Some(1), limit: Some(2) };
    let response = mensagem_list_handler(&opts, &table);
    assert_eq!(response.code, 200);
    assert_eq!(response.status, Status::Success);
    assert_eq!(ids(&response), vec![1, 2]);
    match &response.body {
        Body::Notes { results, notes } => {
            assert_eq!(*results, 2);
            assert_eq!(notes[0].nome, "nome1");
            assert_eq!(notes[1].mensagem, Some("texto2".to_string()));
            assert_eq!(notes[1].data, at(10, 1));
        }
        other => panic!("no list in {:?}", other),
    }
}

#[test]
fn created_record_matches_payload_and_is_read_back() {
    let mut table = table_of(3);
    let created = create_mensagem_handler(&payload("bob", ""), at(11, 0), &mut table);
    let id = match &created.body {
        Body::Data { mensagem } => {
            assert_eq!(mensagem.nome, "bob");
            assert_eq!(mensagem.mensagem, Some(String::new()));
            assert_eq!(mensagem.data, at(11, 0));
            mensagem.id
        }
        other => panic!("no record in {:?}", other),
    };
    assert_eq!(id, 4);
    assert_eq!(get_mensagem_handler(id, &table), created);
    let _ = create_mensagem_handler(&payload("carol", "later"), at(12, 0), &mut table);
    assert_eq!(get_mensagem_handler(id, &table), created);
}

#[test]
fn first_page_is_the_smaller_of_limit_and_total() {
    let table = table_of(5);
    let short = mensagem_list_handler(&FilterOptions { page: Some(1), limit: Some(3) }, &table);
    assert_eq!(ids(&short), vec![1, 2, 3]);
    let exact = mensagem_list_handler(&FilterOptions { page: Some(1), limit: Some(5) }, &table);
    assert_eq!(ids(&exact), vec![1, 2, 3, 4, 5]);
    let long = mensagem_list_handler(&FilterOptions { page: Some(1), limit: Some(9) }, &table);
    assert_eq!(ids(&long), vec![1, 2, 3, 4, 5]);
    let empty = mensagem_list_handler(&FilterOptions { page: Some(1), limit: Some(9) }, &Table::new());
    assert_eq!(
        empty,
        Response {
            code: 200,
            status: Status::Success,
            body: Body::Notes { results: 0, notes: vec![] },
        }
    );
}

#[test]
fn later_pages_and_defaults() {
    let table = table_of(12);
    let second = mensagem_list_handler(&FilterOptions { page: Some(2), limit: Some(5) }, &table);
    assert_eq!(ids(&second), vec![6, 7, 8, 9, 10]);
    let third = mensagem_list_handler(&FilterOptions { page: Some(3), limit: Some(5) }, &table);
    assert_eq!(ids(&third), vec![11, 12]);
    let beyond = mensagem_list_handler(&FilterOptions { page: Some(4), limit: Some(5) }, &table);
    assert_eq!(ids(&beyond), Vec::<i32>::new());
    let default = mensagem_list_handler(&FilterOptions { page: None, limit: None }, &table);
    assert_eq!(ids(&default), vec![1, 2, 3, 4, 5, 6, 7, 8, 9, 10]);
    let default_second = mensagem_list_handler(&FilterOptions { page: Some(2), limit: None }, &table);
    assert_eq!(ids(&default_second), vec![11, 12]);
}

#[test]
fn page_zero_counts_as_the_first() {
    let table = table_of(4);
    let zero = mensagem_list_handler(&FilterOptions { page: Some(0), limit: Some(3) }, &table);
    let first = mensagem_list_handler(&FilterOptions { page: Some(1), limit: Some(3) }, &table);
    assert_eq!(zero, first);
    assert_eq!(ids(&zero), vec![1, 2, 3]);
}

#[test]
fn list_statement_computes_limit_and_offset() {
    assert_eq!(
        list_statement(&FilterOptions { page: Some(3), limit: Some(20) }),
        Some(SelectPage { limit: 20, offset: 40 })
    );
    assert_eq!(
        list_statement(&FilterOptions { page: None, limit: None }),
        Some(SelectPage { limit: 10, offset: 0 })
    );
    assert_eq!(
        list_statement(&FilterOptions { page: Some(7), limit: None }),
        Some(SelectPage { limit: 10, offset: 60 })
    );
    assert_eq!(
        list_statement(&FilterOptions { page: Some(0), limit: Some(4) }),
        Some(SelectPage { limit: 4, offset: 0 })
    );
    assert_eq!(
        list_statement(&FilterOptions { page: Some(2), limit: Some(2147483647) }),
        Some(SelectPage { limit: 2147483647, offset: 2147483647 })
    );
    assert_eq!(
        list_statement(&FilterOptions { page: Some(2147483648), limit: Some(1) }),
        Some(SelectPage { limit: 1, offset: 2147483647 })
    );
}

#[test]
fn list_statement_rejects_what_cannot_be_selected() {
    assert_eq!(list_statement(&FilterOptions { page: None, limit: Some(0) }), None);
    assert_eq!(list_statement(&FilterOptions { page: Some(5), limit: Some(0) }), None);
    assert_eq!(list_statement(&FilterOptions { page: Some(1), limit: Some(2147483648) }), None);
    assert_eq!(list_statement(&FilterOptions { page: Some(3), limit: Some(2147483647) }), None);
    assert_eq!(list_statement(&FilterOptions { page: Some(2147483649), limit: Some(1) }), None);
    assert_eq!(
        list_statement(&FilterOptions { page: Some(usize::MAX), limit: Some(usize::MAX) }),
        None
    );
    assert_eq!(list_statement(&FilterOptions { page: Some(usize::MAX), limit: None }), None);
}

#[test]
fn rejected_page_is_a_client_error() {
    let table = table_of(2);
    let response = mensagem_list_handler(&FilterOptions { page: Some(1), limit: Some(0) }, &table);
    assert_eq!(
        response,
        Response {
            code: 400,
            status: Status::Fail,
            body: Body::Message { message: "Invalid page or limit".to_string() },
        }
    );
    assert_eq!(rejected_page_response(), response);
}

#[test]
fn list_failure_hides_the_cause() {
    let response = mensagem_list_response(Err(failure("pool timed out")));
    assert_eq!(
        response,
        Response {
            code: 500,
            status: Status::Error,
            body: Body::Message {
                message: "Something bad happened while fetching all message items".to_string(),
            },
        }
    );
}

#[test]
fn list_response_counts_the_rows() {
    let rows = vec![
        MensagemModel { id: 7, nome: "a".to_string(), mensagem: None, data: at(1, 0) },
        MensagemModel { id: 9, nome: "b".to_string(), mensagem: Some("x".to_string()), data: at(2, 0) },
    ];
    let response = mensagem_list_response(Ok(rows.clone()));
    assert_eq!(
        response,
        Response { code: 200, status: Status::Success, body: Body::Notes { results: 2, notes: rows } }
    );
}

#[test]
fn create_failure_hides_the_cause() {
    let expected = Response {
        code: 500,
        status: Status::Error,
        body: Body::Message {
            message: "Something bad happened while creating the message".to_string(),
        },
    };
    let missing_table = create_mensagem_response(Err(failure(
        "error returned from database: relation \"crud.mensagem\" does not exist",
    )));
    assert_eq!(missing_table, expected);
    let timed_out = create_mensagem_response(Err(failure(
        "pool timed out while waiting for an open connection",
    )));
    assert_eq!(timed_out, expected);
    assert_eq!(create_mensagem_response(Err(failure(""))), expected);
}

#[test]
fn create_conflict_is_answered_like_any_failure() {
    let wording =
        "error returned from database: duplicate key value violates unique constraint \"mensagem_pkey\"";
    let conflict = failure(wording);
    assert!(conflict.is_unique_violation());
    let response = create_mensagem_response(Err(conflict));
    assert_eq!(response, create_mensagem_response(Err(failure("connection refused"))));
    assert_eq!(response.code, 500);
    assert_eq!(response.status, Status::Error);
    match &response.body {
        Body::Message { message } => {
            assert_eq!(message, "Something bad happened while creating the message");
            assert!(!message.contains("duplicate key"));
        }
        other => panic!("no message in {:?}", other),
    }
}

#[test]
fn create_response_presents_the_stored_record() {
    let record = MensagemModel { id: 3, nome: "n".to_string(), mensagem: None, data: at(5, 5) };
    assert_eq!(
        create_mensagem_response(Ok(record.clone())),
        Response { code: 200, status: Status::Success, body: Body::Data { mensagem: record } }
    );
}

#[test]
fn create_statement_binds_both_fields() {
    assert_eq!(
        create_statement(&payload("alice", "hi")),
        InsertMensagem { nome: "alice".to_string(), mensagem: "hi".to_string() }
    );
}

#[test]
fn get_statement_binds_the_identifier() {
    assert_eq!(get_statement(-12), SelectById { id: -12 });
}

#[test]
fn every_get_failure_is_not_found() {
    for error in [
        failure("no rows returned by a query that expected to return at least one row"),
        failure("pool timed out while waiting for an open connection"),
        failure(""),
    ] {
        let response = get_mensagem_response(15, Err(error));
        assert_eq!(
            response,
            Response {
                code: 404,
                status: Status::Fail,
                body: Body::Message { message: "Mensagem with ID: 15 not found".to_string() },
            }
        );
    }
}

#[test]
fn not_found_names_any_identifier() {
    let table = table_of(2);
    for id in [0, 3, -1, 2147483647, -2147483648] {
        let response = get_mensagem_handler(id, &table);
        assert_eq!(response.code, 404);
        assert_eq!(response.status, Status::Fail);
        assert_eq!(
            response.body,
            Body::Message { message: format!("Mensagem with ID: {} not found", id) }
        );
    }
}

#[test]
fn get_response_presents_the_record() {
    let record = MensagemModel { id: 8, nome: "n".to_string(), mensagem: Some("m".to_string()), data: at(6, 0) };
    assert_eq!(
        get_mensagem_response(8, Ok(record.clone())),
        Response { code: 200, status: Status::Success, body: Body::Data { mensagem: record } }
    );
}

#[test]
fn repeated_get_gives_the_same_answer() {
    let table = table_of(3);
    let first = get_mensagem_handler(2, &table);
    let _ = mensagem_list_handler(&FilterOptions { page: None, limit: None }, &table);
    let _ = get_mensagem_handler(9, &table);
    let second = get_mensagem_handler(2, &table);
    assert_eq!(first, second);
    assert_eq!(first.code, 200);
    assert_eq!(table.len(), 3);
    let missed_once = get_mensagem_handler(9, &table);
    let missed_twice = get_mensagem_handler(9, &table);
    assert_eq!(missed_once, missed_twice);
}
