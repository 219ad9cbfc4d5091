//! The two kinds of order and the two answers an order can get.

use vstd::prelude::*;

verus! {

/// What a request asks the book to do.
#[derive(Debug, Clone, Copy, PartialEq, Eq, Structural)]
pub enum Order {
    BUY,
    SELL,
}

/// The answer to one request.
#[derive(Debug, Clone, Copy, PartialEq, Eq, Structural)]
pub enum Reply {
    Success,
    Fail,
}

impl Reply {
    /// The answer as it is written into a reply slot.
    pub open spec fn text(self) -> Seq<char> {
        match self {
            Reply::Success => "success"@,
            Reply::Fail => "fail"@,
        }
    }

    /// The text of this answer, `"success"` or `"fail"`.
    pub fn to_text(self) -> (text: String)
        ensures
            text@ == self.text(),
    {
        match self {
            Reply::Success => "success".to_owned(),
            Reply::Fail => "fail".to_owned(),
        }
    }

    /// The answer that `text` stands for, if it is the text of one.
    pub open spec fn parse(text: Seq<char>) -> Option<Reply> {
        if text == Reply::Success.text() {
            Some(Reply::Success)
        } else if text == Reply::Fail.text() {
            Some(Reply::Fail)
        } else {
            None
        }
    }

    /// Reads an answer back from what came out of a reply slot.
    pub fn from_text(text: &String) -> (reply: Option<Reply>)
        ensures
            reply == Reply::parse(text@),
    {
        if *text == Reply::Success.to_text() {
            Some(Reply::Success)
        } else if *text == Reply::Fail.to_text() {
            Some(Reply::Fail)
        } else {
            None
        }
    }
}

/// The two answers have different texts, and an answer that was written is
/// read back as itself.
pub proof fn text_reads_back(reply: Reply)
    ensures
        Reply::Success.text() != Reply::Fail.text(),
        Reply::parse(reply.text()) == Some(reply),
{
    reveal_strlit("success");
    reveal_strlit("fail");
    assert("success"@.len() == 7);
    assert("fail"@.len() == 4);
}

} // verus!
