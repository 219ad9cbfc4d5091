//! The side that places an order.

use crate::book::Request;
use crate::message::Message;
use crate::order::Order;
use crate::reply_slot::open_slot;
use tokio::sync::oneshot::Receiver;
use vstd::prelude::*;

verus! {

/// One order that is ready to be sent. Its amount is positive.
#[derive(Debug)]
pub struct OrderActor {
    ticker: String,
    amount: u64,
    order: Order,
}

impl View for OrderActor {
    type V = Request;

    closed spec fn view(&self) -> Request {
        Request { order: self.order, ticker: self.ticker@, amount: self.amount as nat }
    }
}

impl OrderActor {
    #[verifier::type_invariant]
    spec fn positive(self) -> bool {
        self.amount > 0
    }

    /// An order of `amount` units of `ticker`, unless `amount` is zero: an
    /// order must be for something.
    pub fn new(amount: u64, ticker: String, order: Order) -> (made: Option<OrderActor>)
        ensures
            made is None <==> amount == 0,
            made matches Some(actor) ==> actor@ == (Request {
                order,
                ticker: ticker@,
                amount: amount as nat,
            }),
    {
        if amount == 0 {
            None
        } else {
            Some(OrderActor { ticker, amount, order })
        }
    }

    /// Turns the order into the message to put on the channel, and opens the
    /// slot for its answer: the message carries the writing end, the reading
    /// end is returned beside it.
    pub fn into_message(self) -> (sealed: (Message, Receiver<String>))
        ensures
            sealed.0@ == self@,
            sealed.0@.amount > 0,
    {
        proof {
            use_type_invariant(&self);
        }
        let (respond_to, answer) = open_slot();
        let OrderActor { ticker, amount, order } = self;
        let message = Message::new(order, ticker, amount, respond_to).unwrap();
        (message, answer)
    }
}

} // verus!
