use chrono::{NaiveDate, NaiveDateTime};
use mensagem_api::error::PersistenceError;
use mensagem_api::model::MensagemModel;
use mensagem_api::statement::{
    InsertMensagem, SelectById, SelectPage, INSERT_SQL, SELECT_BY_ID_SQL, SELECT_PAGE_SQL,
};
use mensagem_api::store::Table;

fn noon() -> NaiveDateTime {
    NaiveDate::from_ymd_opt(2023, 12, 31).unwrap().and_hms_opt(12, 0, 0).unwrap()
}

fn insertion(nome: &str, mensagem: &str) -> InsertMensagem {
    InsertMensagem { nome: nome.to_string(), mensagem: mensagem.to_string() }
}

fn both(text: &str) -> PersistenceError {
    PersistenceError::new(text.to_string())
}

#[test]
fn new_table_is_empty() {
    let table = Table::new();
    assert_eq!(table.len(), 0);
    assert_eq!(table.select_page(&SelectPage { limit: 10, offset: 0 }), Ok(vec![]));
}

#[test]
fn insert_takes_the_next_identifier() {
    let mut table = Table::new();
    let first = table.insert(&insertion("a", "x"), noon()).unwrap();
    let second = table.insert(&insertion("b", "y"), noon()).unwrap();
    assert_eq!(
        first,
        MensagemModel { id: 1, nome: "a".to_string(), mensagem: Some("x".to_string()), data: noon() }
    );
    assert_eq!(second.id, 2);
    assert_eq!(second.nome, "b");
    assert_eq!(table.len(), 2);
}

#[test]
fn select_by_id_finds_the_row_or_fails() {
    let mut table = Table::new();
    let _ = table.insert(&insertion("a", "x"), noon());
    let stored = table.insert(&insertion("b", "y"), noon()).unwrap();
    assert_eq!(table.select_by_id(&SelectById { id: 2 }), Ok(stored));
    assert_eq!(
        table.select_by_id(&SelectById { id: 3 }),
        Err(both("no rows returned by a query that expected to return at least one row"))
    );
    assert_eq!(
        table.select_by_id(&SelectById { id: 0 }),
        Err(both("no rows returned by a query that expected to return at least one row"))
    );
}

#[test]
fn select_page_skips_and_limits() {
    let mut table = Table::new();
    for n in 0..6 {
        let _ = table.insert(&insertion(&format!("n{}", n), "t"), noon());
    }
    let page = table.select_page(&SelectPage { limit: 2, offset: 3 }).unwrap();
    assert_eq!(page.iter().map(|row| row.id).collect::<Vec<_>>(), vec![4, 5]);
    let tail = table.select_page(&SelectPage { limit: 4, offset: 4 }).unwrap();
    assert_eq!(tail.iter().map(|row| row.id).collect::<Vec<_>>(), vec![5, 6]);
    let none = table.select_page(&SelectPage { limit: 4, offset: 6 }).unwrap();
    assert!(none.is_empty());
    let far = table.select_page(&SelectPage { limit: 2147483647, offset: 2147483647 }).unwrap();
    assert!(far.is_empty());
    let zero = table.select_page(&SelectPage { limit: 0, offset: 0 }).unwrap();
    assert!(zero.is_empty());
    let all = table.select_page(&SelectPage { limit: 2147483647, offset: 0 }).unwrap();
    assert_eq!(all.len(), 6);
}

#[test]
fn select_page_refuses_negative_bounds() {
    let table = Table::new();
    assert_eq!(
        table.select_page(&SelectPage { limit: -1, offset: 0 }),
        Err(both("LIMIT must not be negative"))
    );
    assert_eq!(
        table.select_page(&SelectPage { limit: 1, offset: -1 }),
        Err(both("OFFSET must not be negative"))
    );
    assert_eq!(
        table.select_page(&SelectPage { limit: -1, offset: -1 }),
        Err(both("LIMIT must not be negative"))
    );
}

#[test]
fn statement_texts() {
    assert_eq!(SELECT_PAGE_SQL, "SELECT * FROM crud.mensagem ORDER by id LIMIT $1 OFFSET $2");
    assert_eq!(INSERT_SQL, "INSERT INTO crud.mensagem (nome,mensagem) VALUES ($1, $2) RETURNING *");
    assert_eq!(SELECT_BY_ID_SQL, "SELECT * FROM crud.mensagem WHERE id = $1");
}

#[test]
fn clones_are_equal() {
    let row = MensagemModel { id: 5, nome: "n".to_string(), mensagem: None, data: noon() };
    assert_eq!(row.clone(), row);
    let error = PersistenceError::new("m".to_string());
    assert_eq!(error.clone(), error);
    assert_eq!(error.message, "m");
}
