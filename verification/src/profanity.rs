//! What the moderation service answered, and what that means for the text
//! that was sent to it.

use crate::errors::{ApiLayerError, Error};
use vstd::prelude::*;

verus! {

/// How often a request to the moderation service is tried again after a
/// failure that may pass.
pub const REQWEST_MAX_RETRIES: u32 = 5;

/// The body of a refusal.
#[derive(Debug, Clone)]
pub struct APIResponse {
    pub message: String,
}

/// One word that the service replaced.
#[derive(Debug, Clone)]
pub struct BadWord {
    pub original: String,
    pub word: String,
    pub deviations: i64,
    pub info: i64,
    pub replaced_len: i64,
}

/// The body of a successful answer.
#[derive(Debug, Clone)]
pub struct BadWordsResponse {
    pub content: String,
    pub bad_words_total: i64,
    pub bad_words_list: Vec<BadWord>,
    pub censored_content: String,
}

/// The body of an answer, as far as it could be read.
#[derive(Debug)]
pub enum ReplyBody {
    /// A body of the shape of a successful answer.
    Censored(BadWordsResponse),
    /// A body that could not be read, with the reason.
    Malformed(String),
    /// A body of the shape of a refusal.
    Failure(APIResponse),
}

/// An answer of the moderation service.
#[derive(Debug)]
pub struct UpstreamReply {
    pub status: u16,
    pub body: ReplyBody,
}

/// Whether `status` reports success: 200 to 299.
pub open spec fn is_success(status: u16) -> bool {
    200 <= status < 300
}

/// Whether `status` blames the request: 400 to 499.
pub open spec fn is_client_error(status: u16) -> bool {
    400 <= status < 500
}

/// Whether an answer with this status holds a censored text rather than a
/// refusal.
pub fn is_success_status(status: u16) -> (r: bool)
    ensures
        r == is_success(status),
{
    200 <= status && status < 300
}

/// The message of a failing answer: the message of its body where the body
/// has the shape of a refusal, the reason where it could not be read, and
/// nothing where it has another shape.
pub open spec fn refusal_message(body: ReplyBody) -> Seq<char> {
    match body {
        ReplyBody::Failure(body) => body.message@,
        ReplyBody::Malformed(reason) => reason@,
        ReplyBody::Censored(_) => Seq::<char>::empty(),
    }
}

/// What the outcome of a request to the moderation service means. `Err` is
/// a request that got no answer, however often it was tried. An answer with
/// a status of success gives the censored text of its body, or
/// `ReqwestAPIError` where the body is no such text. Every other answer is
/// refused with its status: as `ClientError` where the status is 400 to 499,
/// and else as `ServerError`.
pub open spec fn moderated(outcome: Result<UpstreamReply, String>, r: Result<String, Error>) -> bool {
    match outcome {
        Err(reason) => r == Err::<String, Error>(Error::MiddlewareReqwestAPIError(reason)),
        Ok(reply) => if is_success(reply.status) {
            match reply.body {
                ReplyBody::Censored(body) => r == Ok::<String, Error>(body.censored_content),
                ReplyBody::Malformed(reason) => r == Err::<String, Error>(
                    Error::ReqwestAPIError(reason),
                ),
                ReplyBody::Failure(body) => r == Err::<String, Error>(
                    Error::ReqwestAPIError(body.message),
                ),
            }
        } else {
            &&& r matches Err(err)
            &&& if is_client_error(reply.status) {
                err is ClientError
            } else {
                err is ServerError
            }
            &&& refused_with(err).status == reply.status
            &&& refused_with(err).message@ == refusal_message(reply.body)
        },
    }
}

/// The refusal that an error of the moderation service carries.
pub open spec fn refused_with(err: Error) -> ApiLayerError {
    match err {
        Error::ClientError(refusal) => refusal,
        Error::ServerError(refusal) => refusal,
        _ => arbitrary(),
    }
}

/// The refusal that a failing answer stands for: its status, and the
/// message of its body. A body that is no refusal gives the reason for
/// which it could not be read, or no message.
pub fn transform_error(status: u16, body: ReplyBody) -> (r: ApiLayerError)
    ensures
        r.status == status,
        r.message@ == refusal_message(body),
{
    let message = match body {
        ReplyBody::Failure(body) => body.message,
        ReplyBody::Malformed(reason) => reason,
        ReplyBody::Censored(_) => String::new(),
    };
    ApiLayerError { status, message }
}

/// Decides what a request to the moderation service has come to: the
/// censored text of a successful answer, or the error that tells an answer
/// that could not be read, a refusal that blames the request, any other
/// refusal, and no answer at all apart.
pub fn check_profanity(outcome: Result<UpstreamReply, String>) -> (r: Result<String, Error>)
    ensures
        moderated(outcome, r),
{
    let reply = match outcome {
        Ok(reply) => reply,
        Err(reason) => {
            return Err(Error::MiddlewareReqwestAPIError(reason));
        },
    };
    let status = reply.status;
    if is_success_status(status) {
        match reply.body {
            ReplyBody::Censored(body) => Ok(body.censored_content),
            ReplyBody::Malformed(reason) => Err(Error::ReqwestAPIError(reason)),
            ReplyBody::Failure(body) => Err(Error::ReqwestAPIError(body.message)),
        }
    } else {
        let refusal = transform_error(status, reply.body);
        if 400 <= status && status < 500 {
            Err(Error::ClientError(refusal))
        } else {
            Err(Error::ServerError(refusal))
        }
    }
}

/// A text comes back from moderation only where the service answered with
/// a status of success and a body of the shape of a successful answer, and
/// then it is the censored text of that body. Every other outcome is an
/// error that is answered with status 500.
pub proof fn lemma_moderation_outcomes(outcome: Result<UpstreamReply, String>, r: Result<String, Error>)
    requires
        moderated(outcome, r),
    ensures
        r is Ok <==> (outcome is Ok && is_success(outcome->Ok_0.status)
            && outcome->Ok_0.body is Censored),
        r is Ok ==> r->Ok_0 == outcome->Ok_0.body->Censored_0.censored_content,
        r is Err ==> r->Err_0.spec_status() == 500,
        outcome is Err ==> r->Err_0 is MiddlewareReqwestAPIError,
{
}

} // verus!
