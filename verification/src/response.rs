//! The answer of an endpoint: an HTTP status code and the envelope that goes out as JSON.

use crate::model::{MensagemModel, MensagemView};
use vstd::prelude::*;

verus! {

/// Status code of an answered request.
pub const OK: u16 = 200;

/// Status code of a request that the service does not accept.
pub const BAD_REQUEST: u16 = 400;

/// Status code of a request for a record that is not there.
pub const NOT_FOUND: u16 = 404;

/// Status code of a request that failed in the persistence layer.
pub const INTERNAL_SERVER_ERROR: u16 = 500;

/// The `status` member of every envelope.
#[derive(Clone, Copy, Debug, PartialEq, Eq)]
pub enum Status {
    Success,
    Error,
    Fail,
}

impl Status {
    /// The word that stands for the status in the envelope.
    pub open spec fn word(self) -> Seq<char> {
        match self {
            Status::Success => "success"@,
            Status::Error => "error"@,
            Status::Fail => "fail"@,
        }
    }

    /// The word that stands for the status in the envelope.
    pub fn as_str(&self) -> (word: &'static str)
        ensures
            word@ == self.word(),
    {
        match self {
            Status::Success => "success",
            Status::Error => "error",
            Status::Fail => "fail",
        }
    }
}

/// What an envelope holds beside its status.
#[derive(Debug, PartialEq, Eq)]
pub enum Body {
    /// `{status, message}`
    Message { message: String },
    /// `{status, results, notes}`: the records of one page and their number.
    Notes { results: usize, notes: Vec<MensagemModel> },
    /// `{status, data: {mensagem}}`: one record.
    Data { mensagem: MensagemModel },
}

/// The mathematical value of a body.
pub enum BodyView {
    Message { message: Seq<char> },
    Notes { results: int, notes: Seq<MensagemView> },
    Data { mensagem: MensagemView },
}

/// The records of a sequence, each as its mathematical value.
pub open spec fn views_of(records: Seq<MensagemModel>) -> Seq<MensagemView> {
    records.map_values(|record: MensagemModel| record@)
}

impl View for Body {
    type V = BodyView;

    open spec fn view(&self) -> BodyView {
        match self {
            Body::Message { message } => BodyView::Message { message: message@ },
            Body::Notes { results, notes } => BodyView::Notes {
                results: *results as int,
                notes: views_of(notes@),
            },
            Body::Data { mensagem } => BodyView::Data { mensagem: mensagem@ },
        }
    }
}

/// The answer of an endpoint.
#[derive(Debug, PartialEq, Eq)]
pub struct Response {
    pub code: u16,
    pub status: Status,
    pub body: Body,
}

/// The mathematical value of an answer.
pub struct ResponseView {
    pub code: int,
    pub status: Status,
    pub body: BodyView,
}

impl View for Response {
    type V = ResponseView;

    open spec fn view(&self) -> ResponseView {
        ResponseView { code: self.code as int, status: self.status, body: self.body@ }
    }
}

} // verus!
