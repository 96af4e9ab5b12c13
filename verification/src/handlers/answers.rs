//! Answering a question.

use crate::errors::{Error, Reply};
use crate::store::{lemma_plain_database_errors, AnswerRow, Store};
use crate::types::account::Session;
use crate::types::answers::{Answer, AnswerId, NewAnswer};
use vstd::prelude::*;

verus! {

/// The answer that is stored once moderation has answered: for the account
/// of the session, with the censored content in place of what the client
/// sent. The error of moderation where there is one.
pub fn censored_answer(session: &Session, new_answer: NewAnswer, content: Result<String, Error>) -> (r:
    Result<NewAnswer, Error>)
    ensures
        match content {
            Err(err) => r == Err::<NewAnswer, Error>(err),
            Ok(content) => r == Ok::<NewAnswer, Error>(
                NewAnswer {
                    content,
                    question_id: new_answer.question_id,
                    account_id: session.account_id,
                },
            ),
        },
{
    match content {
        Ok(content) => Ok(
            NewAnswer { content, question_id: new_answer.question_id, account_id: session.account_id },
        ),
        Err(err) => Err(err),
    }
}

/// The reply to an answer that was stored.
pub fn answer_created_reply() -> (r: Reply)
    ensures
        r.status == 201,
        r.message@ == "Answer created!"@,
{
    Reply { status: 201, message: "Answer created!".to_owned() }
}

/// Stores an answer for the account of the session, with the censored
/// content in place of what the client sent. Where the moderation failed,
/// nothing is stored.
pub fn add_answer_handler(
    session: Session,
    new_answer: NewAnswer,
    content: Result<String, Error>,
    store: &mut Store,
) -> (r: Result<Reply, Error>)
    requires
        old(store).well_formed(),
    ensures
        final(store).well_formed(),
        final(store).accounts() == old(store).accounts(),
        final(store).questions() == old(store).questions(),
        match content {
            Err(err) => r == Err::<Reply, Error>(err) && final(store).same_contents(old(store)),
            Ok(content) => {
                &&& r is Ok <==> old(store).next_answer_id() < i32::MAX
                &&& r matches Ok(reply) ==> {
                    &&& reply.status == 201
                    &&& reply.message@ == "Answer created!"@
                    &&& final(store).answers() == old(store).answers().push(
                        AnswerRow {
                            answer: Answer {
                                id: AnswerId(old(store).next_answer_id() as i32),
                                content,
                                question_id: new_answer.question_id,
                            },
                            account_id: session.account_id,
                        },
                    )
                }
                &&& r is Err ==> final(store).same_contents(old(store)) && r->Err_0.spec_status()
                    == 500
            },
        },
{
    let answer_updated = match censored_answer(&session, new_answer, content) {
        Ok(answer_updated) => answer_updated,
        Err(err) => {
            return Err(err);
        },
    };
    match store.add_answer(answer_updated) {
        Ok(_) => Ok(answer_created_reply()),
        Err(err) => {
            proof {
                lemma_plain_database_errors(err);
            }
            Err(err)
        },
    }
}

} // verus!
