//! Answers.

use crate::text::{signed_decimal_string, signed_repr};
use crate::types::account::AccountId;
use crate::types::questions::QuestionId;
use vstd::prelude::*;
use vstd::string::StringExecFns;

verus! {

#[derive(Debug, PartialEq, Eq, Structural, Hash, Clone, Copy)]
pub struct AnswerId(pub i32);

impl AnswerId {
    pub fn to_text(&self) -> (r: String)
        ensures
            r@ == "id: "@ + signed_repr(self.0 as int),
    {
        "id: ".to_owned().concat(signed_decimal_string(self.0).as_str())
    }
}

/// An answer as the store keeps it.
#[derive(Debug, Clone)]
pub struct Answer {
    pub id: AnswerId,
    pub content: String,
    pub question_id: QuestionId,
}

/// An answer that is about to be stored for the account that gives it.
#[derive(Debug, Clone)]
pub struct NewAnswer {
    pub content: String,
    pub question_id: QuestionId,
    pub account_id: AccountId,
}

} // verus!
