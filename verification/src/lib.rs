//! An order book actor: one owner of the committed capital, fed with buy and
//! sell requests, answering each of them through its own reply slot.
//!
//! Amounts are counted in whole units of the smallest amount that is traded.
//! The committed capital is the sum of the buys that were accepted less the
//! sum of the sells; a sell is never refused, so it may fall below zero.
//!
//! The actor is driven from outside: whoever owns the channel of requests
//! hands each thing the channel gives to [`OrderBookActor::on_event`] and
//! goes on for as long as the actor is running.

pub mod actor;
pub mod book;
pub mod message;
pub mod order;
pub mod producer;
pub mod reply_slot;

pub use crate::actor::{OrderBookActor, Phase};
pub use crate::message::{Message, Receipt};
pub use crate::order::{Order, Reply};
pub use crate::producer::OrderActor;
