//! What a request carries: the paging options of a list and the payload of a creation.

use vstd::prelude::*;

verus! {

/// The page that a list without `page` shows.
pub const DEFAULT_PAGE: usize = 1;

/// The number of records that a list without `limit` shows.
pub const DEFAULT_LIMIT: usize = 10;

/// The largest limit and the largest offset that a statement can carry.
pub const MAX_WINDOW: usize = 0x7fff_ffff;

/// Paging options of a list request. Pages count from 1.
#[derive(Clone, Copy, Debug, PartialEq, Eq)]
pub struct FilterOptions {
    pub page: Option<usize>,
    pub limit: Option<usize>,
}

impl FilterOptions {
    /// The number of records asked for: `limit`, or the default.
    pub open spec fn limit_value(&self) -> int {
        match self.limit {
            Some(limit) => limit as int,
            None => DEFAULT_LIMIT as int,
        }
    }

    /// The page asked for: `page`, or the default; a page below the first counts as the first.
    pub open spec fn page_value(&self) -> int {
        match self.page {
            Some(page) => if page < 1 {
                1
            } else {
                page as int
            },
            None => DEFAULT_PAGE as int,
        }
    }

    /// The number of records that stand before the page asked for.
    pub open spec fn offset_value(&self) -> int {
        (self.page_value() - 1) * self.limit_value()
    }

    /// Whether the options describe a page that a statement can select: the limit is positive,
    /// and limit and offset fit the statement's parameters.
    pub open spec fn acceptable(&self) -> bool {
        &&& 0 < self.limit_value() <= MAX_WINDOW
        &&& self.offset_value() <= MAX_WINDOW
    }
}

/// Payload of a creation request. Both fields are required.
#[derive(Debug, PartialEq, Eq)]
pub struct CreateMensagemSchema {
    pub nome: String,
    pub mensagem: String,
}

/// The mathematical value of a creation payload.
pub struct CreateMensagemView {
    pub nome: Seq<char>,
    pub mensagem: Seq<char>,
}

impl View for CreateMensagemSchema {
    type V = CreateMensagemView;

    open spec fn view(&self) -> CreateMensagemView {
        CreateMensagemView { nome: self.nome@, mensagem: self.mensagem@ }
    }
}

} // verus!
