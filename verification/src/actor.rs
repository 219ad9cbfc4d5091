//! The actor that owns the book.

use crate::book::{BookState, Request};
use crate::message::{Message, Receipt};
use crate::order::{Order, Reply};
use crate::reply_slot::write_slot;
use vstd::prelude::*;

verus! {

/// Where the actor is in its life. It starts running and stops for good when
/// it learns that no request will come any more.
#[derive(Debug, Clone, Copy, PartialEq, Eq, Structural)]
pub enum Phase {
    Running,
    Stopped,
}

/// The only owner of the committed capital. Requests reach it one at a time,
/// and nothing else reads or writes the book.
///
/// The book of an actor is at all times what the requests it has answered
/// make, one after another, of a book with nothing committed, and is within
/// its cap.
pub struct OrderBookActor {
    total_invested: i128,
    investment_cap: u64,
    phase: Phase,
    answered: Ghost<Seq<Request>>,
}

impl View for OrderBookActor {
    type V = BookState;

    closed spec fn view(&self) -> BookState {
        BookState {
            total_invested: self.total_invested as int,
            investment_cap: self.investment_cap as int,
        }
    }
}

impl OrderBookActor {
    #[verifier::type_invariant]
    spec fn kept(self) -> bool {
        &&& self.total_invested <= self.investment_cap
        &&& self@ == BookState::opening(self.investment_cap as int).after_all(self.answered@)
    }

    /// Where the actor is in its life.
    pub closed spec fn phase(&self) -> Phase {
        self.phase
    }

    /// The requests that the actor has answered, the first of them first.
    pub closed spec fn answered(&self) -> Seq<Request> {
        self.answered@
    }

    /// The book is within its cap, and it is what the requests answered so
    /// far have made of a book with nothing committed.
    pub open spec fn accounted(&self) -> bool {
        &&& self@.within_cap()
        &&& self@ == BookState::opening(self@.investment_cap).after_all(self.answered())
    }

    /// The book after `request` can be held: a sell does not take the
    /// committed capital below what an `i128` can express.
    pub open spec fn can_hold(&self, request: Request) -> bool {
        self@.after(request).total_invested >= i128::MIN
    }

    /// A running actor with nothing committed.
    pub fn new(investment_cap: u64) -> (actor: OrderBookActor)
        ensures
            actor@ == BookState::opening(investment_cap as int),
            actor.phase() == Phase::Running,
            actor.answered() == Seq::<Request>::empty(),
    {
        OrderBookActor {
            total_invested: 0,
            investment_cap,
            phase: Phase::Running,
            answered: Ghost(Seq::empty()),
        }
    }

    /// The capital that is committed, in units of the smallest amount.
    pub fn total_invested(&self) -> (total: i128)
        ensures
            total == self@.total_invested,
            self.accounted(),
    {
        proof {
            use_type_invariant(self);
        }
        self.total_invested
    }

    /// The most that may be committed.
    pub fn investment_cap(&self) -> (cap: u64)
        ensures
            cap == self@.investment_cap,
    {
        self.investment_cap
    }

    /// Whether the actor still takes requests.
    pub fn is_running(&self) -> (yes: bool)
        ensures
            yes == (self.phase() == Phase::Running),
    {
        match self.phase {
            Phase::Running => true,
            Phase::Stopped => false,
        }
    }

    /// What can still be committed before the cap is reached.
    pub fn available(&self) -> (room: u128)
        ensures
            room == self@.available(),
            self.accounted(),
    {
        proof {
            use_type_invariant(self);
        }
        if self.total_invested >= 0 {
            self.investment_cap as u128 - self.total_invested as u128
        } else {
            let below: u128 = (-(self.total_invested + 1)) as u128;
            self.investment_cap as u128 + below + 1
        }
    }

    /// Whether the book after `message` can be held, which `handle_message`
    /// and `on_event` ask of a request.
    pub fn can_handle(&self, message: &Message) -> (yes: bool)
        ensures
            yes == self.can_hold(message@),
    {
        proof {
            use_type_invariant(self);
        }
        match message.order() {
            Order::BUY => true,
            Order::SELL => self.total_invested >= i128::MIN + message.amount() as i128,
        }
    }

    /// Answers one request: decides on it by the rule of the book, updates
    /// the committed capital, writes the answer into the reply slot of the
    /// request, and returns the record of what was done. A reader that has
    /// given up on the slot changes nothing of this. Whether the actor is
    /// running is not asked here: that is the part of `on_event`.
    pub fn handle_message(&mut self, message: Message) -> (receipt: Receipt)
        requires
            old(self).can_hold(message@),
        ensures
            final(self)@ == old(self)@.after(message@),
            final(self).answered() == old(self).answered().push(message@),
            final(self).accounted(),
            final(self).phase() == old(self).phase(),
            receipt.records(old(self)@, message@),
            message@.order == Order::SELL ==> final(self)@.total_invested < old(
                self,
            )@.total_invested,
    {
        proof {
            use_type_invariant(&*self);
            assert(self.answered@.push(message@).drop_last() =~= self.answered@);
        }
        let ghost answered = self.answered@.push(message@);
        let (order, ticker, amount, respond_to) = message.into_parts();
        let room = self.available();
        let (reply, total_invested) = match order {
            Order::BUY => {
                if amount as u128 <= room {
                    (Reply::Success, self.total_invested + amount as i128)
                } else {
                    (Reply::Fail, self.total_invested)
                }
            },
            Order::SELL => (Reply::Success, self.total_invested - amount as i128),
        };
        *self = OrderBookActor {
            total_invested,
            investment_cap: self.investment_cap,
            phase: self.phase,
            answered: Ghost(answered),
        };
        let _ = write_slot(respond_to, reply.to_text());
        let available = self.available();
        Receipt { order, ticker, amount, reply, available }
    }

    /// One turn of the actor's loop. `event` is what the channel of requests
    /// gave: a request, or `None` once the channel is closed and empty.
    ///
    /// A running actor answers a request as `handle_message` does and goes
    /// on; on `None` it stops. A stopped actor stays stopped: a request that
    /// still reaches it is dropped unanswered, so that who waits on its reply
    /// slot learns that no answer will come.
    pub fn on_event(&mut self, event: Option<Message>) -> (handled: Option<Receipt>)
        requires
            old(self).phase() == Phase::Running ==> (event matches Some(message)
                ==> old(self).can_hold(message@)),
        ensures
            final(self).accounted(),
            match (old(self).phase(), event) {
                (Phase::Running, Some(message)) => {
                    &&& final(self).phase() == Phase::Running
                    &&& final(self)@ == old(self)@.after(message@)
                    &&& final(self).answered() == old(self).answered().push(message@)
                    &&& handled matches Some(receipt) && receipt.records(old(self)@, message@)
                },
                _ => {
                    &&& final(self).phase() == Phase::Stopped
                    &&& final(self)@ == old(self)@
                    &&& final(self).answered() == old(self).answered()
                    &&& handled is None
                },
            },
    {
        proof {
            use_type_invariant(&*self);
        }
        match self.phase {
            Phase::Running => match event {
                Some(message) => Some(self.handle_message(message)),
                None => {
                    self.phase = Phase::Stopped;
                    None
                },
            },
            Phase::Stopped => None,
        }
    }
}

} // verus!
