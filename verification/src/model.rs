//! The message record, one row of the `mensagem` table.

use vstd::prelude::*;

verus! {

/// `chrono::NaiveDateTime`, the type of the row's timestamp. The library never looks inside
/// one: the store assigns it and the record carries it to the response.
#[verifier::external_type_specification]
#[verifier::external_body]
pub struct ExNaiveDateTime(chrono::NaiveDateTime);

/// One row of the table.
#[derive(Debug, PartialEq, Eq)]
pub struct MensagemModel {
    pub id: i32,
    pub nome: String,
    pub mensagem: Option<String>,
    pub data: chrono::NaiveDateTime,
}

/// The mathematical value of a record.
pub struct MensagemView {
    pub id: int,
    pub nome: Seq<char>,
    pub mensagem: Option<Seq<char>>,
    pub data: chrono::NaiveDateTime,
}

impl View for MensagemModel {
    type V = MensagemView;

    open spec fn view(&self) -> MensagemView {
        MensagemView {
            id: self.id as int,
            nome: self.nome@,
            mensagem: match self.mensagem {
                Some(texto) => Some(texto@),
                None => None,
            },
            data: self.data,
        }
    }
}

impl Clone for MensagemModel {
    fn clone(&self) -> (copy: Self)
        ensures
            copy == *self,
    {
        MensagemModel {
            id: self.id,
            nome: self.nome.clone(),
            mensagem: match &self.mensagem {
                Some(texto) => Some(texto.clone()),
                None => None,
            },
            data: self.data,
        }
    }
}

} // verus!
