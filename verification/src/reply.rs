//! What a handler hands back to the HTTP layer.

use vstd::prelude::*;

use crate::model::{DeployResponse, DeployResponseView};

verus! {

/// The HTTP status code of a successful answer.
pub const STATUS_OK: u16 = 200;

/// The body of a reply.
#[derive(Debug, PartialEq, Eq)]
pub enum Payload {
    /// Text, sent as it is.
    Text(String),
    /// The outcome of a deployment, sent as a JSON object with one member
    /// per field.
    Json(DeployResponse),
}

/// The mathematical view of a [`Payload`].
pub enum PayloadView {
    Text(Seq<char>),
    Json(DeployResponseView),
}

impl View for Payload {
    type V = PayloadView;

    open spec fn view(&self) -> PayloadView {
        match self {
            Payload::Text(text) => PayloadView::Text(text@),
            Payload::Json(outcome) => PayloadView::Json(outcome@),
        }
    }
}

/// A complete answer to one request: a status code and a body.
#[derive(Debug, PartialEq, Eq)]
pub struct Reply {
    pub status: u16,
    pub payload: Payload,
}

/// The mathematical view of a [`Reply`].
pub struct ReplyView {
    pub status: int,
    pub payload: PayloadView,
}

impl View for Reply {
    type V = ReplyView;

    open spec fn view(&self) -> ReplyView {
        ReplyView { status: self.status as int, payload: self.payload@ }
    }
}

} // verus!
