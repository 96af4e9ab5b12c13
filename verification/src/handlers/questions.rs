//! Listing, reading, asking, changing and removing questions.

use crate::errors::{Error, Reply};
use crate::store::{lemma_plain_database_errors, window, QuestionRecord, Store};
use crate::types::account::Session;
use crate::types::pagination::{requested, requested_page, Extracted};
use crate::types::questions::{tags_view, NewQuestion, Question, QuestionView};
use std::collections::HashMap;
use vstd::prelude::*;

verus! {

/// The leave to change or remove one question, given to the account that
/// owns it.
#[derive(Debug)]
pub struct Permit {
    question_id: i32,
    account_id: i32,
}

impl Permit {
    /// The question that may be changed or removed.
    pub closed spec fn question_id(&self) -> int {
        self.question_id as int
    }

    /// The account that was found to own the question.
    pub closed spec fn account_id(&self) -> int {
        self.account_id as int
    }

    pub fn question(&self) -> (r: i32)
        ensures
            r == self.question_id(),
    {
        self.question_id
    }
}

/// Decides from the answer of the store whether the account of the session
/// may change or remove a question: only where the store found it to be the
/// owner. A question that the account does not own, or that does not exist,
/// is refused with `Unauthorized`; an error of the store is passed on.
pub fn check_owner(question_id: i32, session: &Session, is_owner: Result<bool, Error>) -> (r:
    Result<Permit, Error>)
    ensures
        match is_owner {
            Ok(true) => r matches Ok(permit) && permit.question_id() == question_id
                && permit.account_id() == session.account_id.0,
            Ok(false) => r == Err::<Permit, Error>(Error::Unauthorized),
            Err(err) => r == Err::<Permit, Error>(err),
        },
{
    match is_owner {
        Ok(true) => Ok(Permit { question_id, account_id: session.account_id.0 }),
        Ok(false) => Err(Error::Unauthorized),
        Err(err) => Err(err),
    }
}

/// What the moderation of a title and of a content comes to: both censored
/// texts, or the first error, the title's before the content's.
pub open spec fn both_moderated(title: Result<String, Error>, content: Result<String, Error>) -> Result<
    (String, String),
    Error,
> {
    match (title, content) {
        (Ok(title), Ok(content)) => Ok((title, content)),
        (Err(err), _) => Err(err),
        (Ok(_), Err(err)) => Err(err),
    }
}

/// Waits for both moderations: fails where either failed, with the title's
/// error where both did.
pub fn join_moderation(title: Result<String, Error>, content: Result<String, Error>) -> (r: Result<
    (String, String),
    Error,
>)
    ensures
        r == both_moderated(title, content),
{
    let title = match title {
        Ok(title) => title,
        Err(err) => {
            return Err(err);
        },
    };
    match content {
        Ok(content) => Ok((title, content)),
        Err(err) => Err(err),
    }
}

/// The question that is stored for a new question once moderation has
/// answered: for the account of the session, with the censored title and
/// content in place of what the client sent, and with the tags as sent. The
/// first error of moderation where there is one.
pub fn censored_new_question(
    session: &Session,
    new_question: NewQuestion,
    title: Result<String, Error>,
    content: Result<String, Error>,
) -> (r: Result<NewQuestion, Error>)
    ensures
        match both_moderated(title, content) {
            Err(err) => r == Err::<NewQuestion, Error>(err),
            Ok((title, content)) => r == Ok::<NewQuestion, Error>(
                NewQuestion {
                    title,
                    content,
                    tags: new_question.tags,
                    account_id: session.account_id,
                },
            ),
        },
{
    match join_moderation(title, content) {
        Ok((title, content)) => Ok(
            NewQuestion { title, content, tags: new_question.tags, account_id: session.account_id },
        ),
        Err(err) => Err(err),
    }
}

/// The question that is stored for a change once moderation has answered:
/// with the censored title and content in place of what the client sent,
/// and with the id and tags as sent. The first error of moderation where
/// there is one.
pub fn censored_question(
    question: Question,
    title: Result<String, Error>,
    content: Result<String, Error>,
) -> (r: Result<Question, Error>)
    ensures
        match both_moderated(title, content) {
            Err(err) => r == Err::<Question, Error>(err),
            Ok((title, content)) => r == Ok::<Question, Error>(
                Question { id: question.id, title, content, tags: question.tags },
            ),
        },
{
    match join_moderation(title, content) {
        Ok((title, content)) => Ok(Question { id: question.id, title, content, tags: question.tags }),
        Err(err) => Err(err),
    }
}

/// Lists the questions that the query parameters of the request select:
/// all of them where there are no parameters.
pub fn get_questions_handler(params: HashMap<String, String>, store: &Store) -> (r: Result<
    Vec<Question>,
    Error,
>)
    ensures
        match requested(params@) {
            Extracted::Page(page) => r is Ok && ({
                let (first, end) = window(store.questions().len(), page.limit, page.offset);
                let found = r->Ok_0;
                &&& found@.len() == end - first
                &&& forall|k: int|
                    0 <= k < found@.len() ==> (#[trigger] found@[k])@ == store.questions()[first
                        + k].question
            }),
            Extracted::Missing => r == Err::<Vec<Question>, Error>(Error::MissingParameters),
            Extracted::Unreadable => r is Err && r->Err_0 is ParseError,
        },
{
    let pagination = match requested_page(params) {
        Ok(pagination) => pagination,
        Err(err) => {
            return Err(err);
        },
    };
    store.get_questions(pagination.limit, pagination.offset)
}

/// Stores a question for the account of the session, with the censored
/// title and content in place of what the client sent. Where the moderation
/// of either failed, nothing is stored.
pub fn add_question_handler(
    session: Session,
    new_question: NewQuestion,
    title: Result<String, Error>,
    content: Result<String, Error>,
    store: &mut Store,
) -> (r: Result<Question, Error>)
    requires
        old(store).well_formed(),
    ensures
        final(store).well_formed(),
        match both_moderated(title, content) {
            Err(err) => r == Err::<Question, Error>(err) && final(store).same_contents(old(store)),
            Ok((title, content)) => {
                &&& r is Ok <==> old(store).next_question_id() < i32::MAX
                &&& r matches Ok(question) ==> {
                    &&& question@ == (QuestionView {
                        id: old(store).next_question_id(),
                        title: title@,
                        content: content@,
                        tags: tags_view(new_question.tags),
                    })
                    &&& final(store).questions() == old(store).questions().push(
                        QuestionRecord { question: question@, owner: session.account_id.0 as int },
                    )
                }
                &&& r is Err ==> final(store).same_contents(old(store)) && r->Err_0.spec_status()
                    == 500
            },
        },
{
    let question = match censored_new_question(&session, new_question, title, content) {
        Ok(question) => question,
        Err(err) => {
            return Err(err);
        },
    };
    let r = store.add_question(question);
    proof {
        if r is Err {
            lemma_plain_database_errors(r->Err_0);
        }
    }
    r
}

/// The question with this id, or `QuestionNotFound`.
pub fn get_question_handler(question_id: i32, store: &Store) -> (r: Result<Question, Error>)
    ensures
        r is Ok <==> store.has_question(question_id as int),
        match r {
            Ok(question) => exists|i: int|
                0 <= i < store.questions().len() && (#[trigger] store.questions()[i]).question
                    == question@ && question@.id == question_id,
            Err(err) => err == Error::QuestionNotFound,
        },
{
    store.get_question(question_id)
}

/// The reply to a question that was changed.
pub fn question_updated_reply() -> (r: Reply)
    ensures
        r.status == 200,
        r.message@ == "Question updated!"@,
{
    Reply { status: 200, message: "Question updated!".to_owned() }
}

/// The reply to a question that was removed.
pub fn question_deleted_reply() -> (r: Reply)
    ensures
        r.status == 200,
        r.message@ == "Question deleted!"@,
{
    Reply { status: 200, message: "Question deleted!".to_owned() }
}

/// Removes a question for the account of the session. Where the account
/// does not own the question, or the question does not exist, the request
/// is refused with `Unauthorized` and the store stays as it is.
pub fn delete_question_handler(question_id: i32, session: Session, store: &mut Store) -> (r: Result<
    Reply,
    Error,
>)
    requires
        old(store).well_formed(),
    ensures
        final(store).well_formed(),
        r is Ok <==> old(store).owns(session.account_id.0 as int, question_id as int),
        match r {
            Ok(reply) => {
                &&& reply.status == 200
                &&& reply.message@ == "Question deleted!"@
                &&& !final(store).has_question(question_id as int)
                &&& final(store).questions() == old(store).questions().filter(
                    |record: QuestionRecord| record.question.id != question_id,
                )
                &&& final(store).accounts() == old(store).accounts()
                &&& final(store).answers() == old(store).answers()
            },
            Err(err) => err == Error::Unauthorized && final(store).same_contents(old(store)),
        },
{
    let is_owner = store.is_question_owner(question_id, session.account_id.0);
    let permit = match check_owner(question_id, &session, is_owner) {
        Ok(permit) => permit,
        Err(err) => {
            return Err(err);
        },
    };
    match store.delete_question(permit.question()) {
        Ok(_) => Ok(question_deleted_reply()),
        Err(err) => Err(err),
    }
}

/// Gives a question the censored title and content and the tags of
/// `question`, for an account that was found to own it. Where the moderation
/// of either text failed, the store stays as it is.
pub fn update_question_handler(
    permit: Permit,
    question: Question,
    title: Result<String, Error>,
    content: Result<String, Error>,
    store: &mut Store,
) -> (r: Result<Reply, Error>)
    requires
        old(store).well_formed(),
    ensures
        final(store).well_formed(),
        final(store).accounts() == old(store).accounts(),
        final(store).answers() == old(store).answers(),
        match both_moderated(title, content) {
            Err(err) => r == Err::<Reply, Error>(err) && final(store).same_contents(old(store)),
            Ok((title, content)) => {
                &&& r is Ok <==> old(store).has_question(permit.question_id())
                &&& r matches Ok(reply) ==> {
                    &&& reply.status == 200
                    &&& reply.message@ == "Question updated!"@
                    &&& exists|i: int|
                        0 <= i < old(store).questions().len()
                            && (#[trigger] old(store).questions()[i]).question.id
                            == permit.question_id()
                            && final(store).questions() == old(store).questions().update(
                            i,
                            QuestionRecord {
                                question: QuestionView {
                                    id: permit.question_id(),
                                    title: title@,
                                    content: content@,
                                    tags: tags_view(question.tags),
                                },
                                owner: old(store).questions()[i].owner,
                            },
                        )
                }
                &&& r matches Err(err) ==> err == Error::QuestionNotFound
                    && final(store).same_contents(old(store))
            },
        },
{
    let question_updated = match censored_question(question, title, content) {
        Ok(question_updated) => question_updated,
        Err(err) => {
            return Err(err);
        },
    };
    match store.update_question(question_updated, permit.question()) {
        Ok(_) => Ok(question_updated_reply()),
        Err(err) => Err(err),
    }
}

} // verus!
