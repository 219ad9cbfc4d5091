//! What travels to the actor and what it hands back for each request.

use crate::book::{BookState, Request};
use crate::order::{Order, Reply};
use tokio::sync::oneshot::Sender;
use vstd::prelude::*;

verus! {

/// One request on its way to the actor, with the slot its answer goes into.
/// It asks for a positive amount and is used up by the actor that answers
/// it.
#[derive(Debug)]
pub struct Message {
    pub(crate) order: Order,
    pub(crate) ticker: String,
    pub(crate) amount: u64,
    pub(crate) respond_to: Sender<String>,
}

impl View for Message {
    type V = Request;

    /// The request without its reply slot.
    closed spec fn view(&self) -> Request {
        Request { order: self.order, ticker: self.ticker@, amount: self.amount as nat }
    }
}

impl Message {
    #[verifier::type_invariant]
    spec fn positive(self) -> bool {
        self.amount > 0
    }

    /// A request for `amount` units of `ticker`, to be answered through
    /// `respond_to`, unless `amount` is zero: a request must be for
    /// something.
    pub fn new(order: Order, ticker: String, amount: u64, respond_to: Sender<String>) -> (made:
        Option<Message>)
        ensures
            made is None <==> amount == 0,
            made matches Some(message) ==> message@ == (Request {
                order,
                ticker: ticker@,
                amount: amount as nat,
            }),
    {
        if amount == 0 {
            None
        } else {
            Some(Message { order, ticker, amount, respond_to })
        }
    }

    /// The request taken apart: what is asked, of which instrument, how
    /// much, and the slot for the answer.
    pub(crate) fn into_parts(self) -> (parts: (Order, String, u64, Sender<String>))
        ensures
            parts.0 == self@.order,
            parts.1@ == self@.ticker,
            parts.2 == self@.amount,
            parts.2 > 0,
    {
        proof {
            use_type_invariant(&self);
        }
        let Message { order, ticker, amount, respond_to } = self;
        (order, ticker, amount, respond_to)
    }

    /// What is asked.
    pub fn order(&self) -> (order: Order)
        ensures
            order == self@.order,
    {
        self.order
    }

    /// The instrument that is bought or sold.
    pub fn ticker(&self) -> (ticker: &String)
        ensures
            ticker@ == self@.ticker,
    {
        &self.ticker
    }

    /// How much of it, in units of the smallest amount that is traded.
    pub fn amount(&self) -> (amount: u64)
        ensures
            amount == self@.amount,
            amount > 0,
    {
        proof {
            use_type_invariant(self);
        }
        self.amount
    }
}

/// The record of one request that the actor has answered.
#[derive(Debug, PartialEq, Eq)]
pub struct Receipt {
    pub order: Order,
    pub ticker: String,
    pub amount: u64,
    /// The answer that was written into the reply slot.
    pub reply: Reply,
    /// What could still be committed once the request was answered.
    pub available: u128,
}

impl Receipt {
    /// This is the record of `request`, answered by a book that stood at
    /// `before`: it names the request, holds the answer the rule gives, and
    /// what the book had left afterwards.
    pub open spec fn records(&self, before: BookState, request: Request) -> bool {
        &&& self.order == request.order
        &&& self.ticker@ == request.ticker
        &&& self.amount == request.amount
        &&& self.reply == before.reply(request)
        &&& self.available == before.after(request).available()
    }
}

} // verus!
