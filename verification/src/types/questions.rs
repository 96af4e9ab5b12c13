//! Questions.

use crate::text::{signed_decimal_string, signed_repr};
use crate::types::account::AccountId;
use vstd::prelude::*;
use vstd::string::StringExecFns;

verus! {

#[derive(Debug, PartialEq, Eq, Structural, Hash, Clone, Copy)]
pub struct QuestionId(pub i32);

impl QuestionId {
    pub fn to_text(&self) -> (r: String)
        ensures
            r@ == "id: "@ + signed_repr(self.0 as int),
    {
        "id: ".to_owned().concat(signed_decimal_string(self.0).as_str())
    }
}

/// A question as the store keeps it and as clients see it.
#[derive(Debug, Clone)]
pub struct Question {
    pub id: QuestionId,
    pub title: String,
    pub content: String,
    pub tags: Option<Vec<String>>,
}

/// A question that is about to be stored for the account that asks it.
#[derive(Debug, Clone)]
pub struct NewQuestion {
    pub title: String,
    pub content: String,
    pub tags: Option<Vec<String>>,
    pub account_id: AccountId,
}

/// What a question says: its id, texts and tags as plain values.
pub struct QuestionView {
    pub id: int,
    pub title: Seq<char>,
    pub content: Seq<char>,
    pub tags: Option<Seq<Seq<char>>>,
}

/// The tags as plain values.
pub open spec fn tags_view(tags: Option<Vec<String>>) -> Option<Seq<Seq<char>>> {
    match tags {
        Some(tags) => Some(Seq::new(tags@.len(), |i: int| tags@[i]@)),
        None => None,
    }
}

impl View for Question {
    type V = QuestionView;

    open spec fn view(&self) -> QuestionView {
        QuestionView {
            id: self.id.0 as int,
            title: self.title@,
            content: self.content@,
            tags: tags_view(self.tags),
        }
    }
}

/// A copy of the tags.
pub fn duplicate_tags(tags: &Option<Vec<String>>) -> (r: Option<Vec<String>>)
    ensures
        tags_view(r) == tags_view(*tags),
{
    match tags {
        None => None,
        Some(tags) => {
            let mut copy: Vec<String> = Vec::new();
            let mut i: usize = 0;
            while i < tags.len()
                invariant
                    i <= tags.len(),
                    copy@.len() == i,
                    forall|j: int| 0 <= j < i ==> copy@[j]@ == tags@[j]@,
                decreases tags.len() - i,
            {
                copy.push(tags[i].clone());
                i += 1;
            }
            assert(tags_view(Some(copy)).unwrap() =~= tags_view(Some(*tags)).unwrap());
            Some(copy)
        },
    }
}

impl Question {
    /// A copy of the question.
    pub fn duplicate(&self) -> (r: Question)
        ensures
            r@ == self@,
    {
        Question {
            id: self.id,
            title: self.title.clone(),
            content: self.content.clone(),
            tags: duplicate_tags(&self.tags),
        }
    }
}

} // verus!
