//! The rule of the book, stated over mathematical integers.
//!
//! Amounts are whole numbers of the smallest unit that is traded. The capital
//! committed so far rises with every accepted buy and falls with every sell;
//! a buy is accepted as long as it does not lift the committed capital above
//! the cap.

use crate::order::{Order, Reply};
use vstd::prelude::*;

verus! {

/// One request as the book sees it: what is asked, of which instrument, and
/// how much of it.
pub struct Request {
    pub order: Order,
    pub ticker: Seq<char>,
    pub amount: nat,
}

/// The capital that is committed and the most that may ever be.
pub struct BookState {
    pub total_invested: int,
    pub investment_cap: int,
}

impl BookState {
    /// The book of an actor that has not seen a request yet.
    pub open spec fn opening(investment_cap: int) -> BookState {
        BookState { total_invested: 0, investment_cap }
    }

    /// The committed capital is within the cap.
    pub open spec fn within_cap(self) -> bool {
        self.total_invested <= self.investment_cap
    }

    /// What can still be committed before the cap is reached.
    pub open spec fn available(self) -> int {
        self.investment_cap - self.total_invested
    }

    /// A sell is always accepted, a buy only if the capital it would commit,
    /// added to what is committed already, stays within the cap.
    pub open spec fn accepts(self, request: Request) -> bool {
        match request.order {
            Order::BUY => self.total_invested + request.amount <= self.investment_cap,
            Order::SELL => true,
        }
    }

    /// The answer that `request` gets from this book.
    pub open spec fn reply(self, request: Request) -> Reply {
        if self.accepts(request) {
            Reply::Success
        } else {
            Reply::Fail
        }
    }

    /// The book once `request` has been answered: unchanged by a rejected
    /// buy, raised by an accepted one, lowered by a sell.
    pub open spec fn after(self, request: Request) -> BookState {
        match request.order {
            Order::BUY => if self.accepts(request) {
                BookState { total_invested: self.total_invested + request.amount, ..self }
            } else {
                self
            },
            Order::SELL => BookState {
                total_invested: self.total_invested - request.amount,
                ..self
            },
        }
    }

    /// The book once every one of `requests` has been answered, the first
    /// of them first.
    pub open spec fn after_all(self, requests: Seq<Request>) -> BookState
        decreases requests.len(),
    {
        if requests.len() == 0 {
            self
        } else {
            self.after_all(requests.drop_last()).after(requests.last())
        }
    }

    /// The answers to `requests`, in their order: each request is answered
    /// by the book that the requests before it have left.
    pub open spec fn replies(self, requests: Seq<Request>) -> Seq<Reply> {
        Seq::new(requests.len(), |i: int| self.after_all(requests.take(i)).reply(requests[i]))
    }
}

/// A buy that is accepted commits its amount, and what is committed then is
/// within the cap: the book never takes a buy that would lift it above.
pub proof fn accepted_buy_is_within_cap(book: BookState, request: Request)
    requires
        request.order == Order::BUY,
        book.reply(request) == Reply::Success,
    ensures
        book.total_invested + request.amount <= book.investment_cap,
        book.after(request).total_invested == book.total_invested + request.amount,
        book.after(request).within_cap(),
{
}

/// No request changes the cap, and none takes a book that is within its cap
/// out of it.
pub proof fn cap_is_kept(book: BookState, request: Request)
    requires
        book.within_cap(),
    ensures
        book.after(request).investment_cap == book.investment_cap,
        book.after(request).within_cap(),
{
}

/// A sell is accepted whatever the book holds, and lowers the committed
/// capital by its amount.
pub proof fn sell_is_always_accepted(book: BookState, request: Request)
    requires
        request.order == Order::SELL,
    ensures
        book.reply(request) == Reply::Success,
        book.after(request).total_invested == book.total_invested - request.amount,
        request.amount > 0 ==> book.after(request).total_invested < book.total_invested,
{
}

/// Through any run of requests the cap stays what it was and a book that
/// started within it stays within it; and whenever a buy of the run is
/// accepted, its amount and what was committed before it are together
/// within the cap.
pub proof fn cap_is_kept_throughout(book: BookState, requests: Seq<Request>)
    requires
        book.within_cap(),
    ensures
        forall|n: int|
            0 <= n <= requests.len() ==> {
                &&& (#[trigger] book.after_all(requests.take(n))).within_cap()
                &&& book.after_all(requests.take(n)).investment_cap == book.investment_cap
            },
        forall|i: int|
            0 <= i < requests.len() && requests[i].order == Order::BUY
                && #[trigger] book.replies(requests)[i] == Reply::Success
                ==> book.after_all(requests.take(i)).total_invested + requests[i].amount
                <= book.investment_cap,
{
    assert forall|n: int| 0 <= n <= requests.len() implies {
        &&& (#[trigger] book.after_all(requests.take(n))).within_cap()
        &&& book.after_all(requests.take(n)).investment_cap == book.investment_cap
    } by {
        cap_is_kept_after_all(book, requests.take(n));
    }
}

/// A run of requests leaves the cap as it was, and a book within its cap
/// within it.
pub proof fn cap_is_kept_after_all(book: BookState, requests: Seq<Request>)
    requires
        book.within_cap(),
    ensures
        book.after_all(requests).investment_cap == book.investment_cap,
        book.after_all(requests).within_cap(),
    decreases requests.len(),
{
    if requests.len() > 0 {
        cap_is_kept_after_all(book, requests.drop_last());
    }
}

/// A rejected request leaves the book as it was, so the same request gets
/// the same rejection again, as often as it is repeated.
pub proof fn rejection_is_idempotent(book: BookState, request: Request, times: nat)
    requires
        book.reply(request) == Reply::Fail,
    ensures
        book.after(request) == book,
        book.after_all(Seq::new(times, |i: int| request)) == book,
        book.after_all(Seq::new(times, |i: int| request)).reply(request) == Reply::Fail,
    decreases times,
{
    if times > 0 {
        let again = Seq::new(times, |i: int| request);
        let before = Seq::new((times - 1) as nat, |i: int| request);
        assert(again.drop_last() =~= before);
        rejection_is_idempotent(book, request, (times - 1) as nat);
    }
}

/// Every request of a run gets one answer, at its own place in the run, and
/// the answer is the one that the book gives it after the requests before.
pub proof fn one_reply_per_request(book: BookState, requests: Seq<Request>)
    ensures
        book.replies(requests).len() == requests.len(),
        forall|i: int|
            0 <= i < requests.len() ==> #[trigger] book.replies(requests)[i] == book.after_all(
                requests.take(i),
            ).reply(requests[i]),
{
}

/// Requests are answered one after another: a run followed by a second run
/// leaves what the second leaves of the book that the first has left, and
/// gets the answers of the first followed by those of the second.
pub proof fn runs_compose(book: BookState, first: Seq<Request>, second: Seq<Request>)
    ensures
        book.after_all(first + second) == book.after_all(first).after_all(second),
        book.replies(first + second) == book.replies(first) + book.after_all(first).replies(
            second,
        ),
{
    after_all_composes(book, first, second);
    let whole = first + second;
    let left = book.replies(first) + book.after_all(first).replies(second);
    assert forall|i: int| 0 <= i < whole.len() implies book.replies(whole)[i] == left[i] by {
        if i < first.len() {
            assert(whole.take(i) =~= first.take(i));
        } else {
            let j = i - first.len();
            assert(whole.take(i) =~= first + second.take(j));
            after_all_composes(book, first, second.take(j));
        }
    }
    assert(book.replies(whole) =~= left);
}

proof fn after_all_composes(book: BookState, first: Seq<Request>, second: Seq<Request>)
    ensures
        book.after_all(first + second) == book.after_all(first).after_all(second),
    decreases second.len(),
{
    if second.len() == 0 {
        assert(first + second =~= first);
    } else {
        assert((first + second).drop_last() =~= first + second.drop_last());
        after_all_composes(book, first, second.drop_last());
    }
}

} // verus!
