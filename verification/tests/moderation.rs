use questions_answers::errors::{error_handler, Error, Rejection};
use questions_answers::profanity::{
    check_profanity, transform_error, APIResponse, BadWord, BadWordsResponse, ReplyBody,
    UpstreamReply, REQWEST_MAX_RETRIES,
};

fn censored(status: u16) -> Result<UpstreamReply, String> {
    Ok(UpstreamReply {
        status,
        body: ReplyBody::Censored(BadWordsResponse {
            content: "what the heck".to_string(),
            bad_words_total: 1,
            bad_words_list: vec![BadWord {
                original: "heck".to_string(),
                word: "heck".to_string(),
                deviations: 0,
                info: 2,
                replaced_len: 4,
            }],
            censored_content: "what the ****".to_string(),
        }),
    })
}

fn refused(status: u16, message: &str) -> Result<UpstreamReply, String> {
    Ok(UpstreamReply {
        status,
        body: ReplyBody::Failure(APIResponse {
            message: message.to_string(),
        }),
    })
}

#[test]
fn success_gives_the_censored_content() {
    assert_eq!(check_profanity(censored(200)).unwrap(), "what the ****");
    assert_eq!(check_profanity(censored(299)).unwrap(), "what the ****");
}

#[test]
fn unreadable_success_body_is_an_api_error() {
    let outcome = Ok(UpstreamReply {
        status: 200,
        body: ReplyBody::Malformed("missing field `censored_content`".to_string()),
    });
    match check_profanity(outcome) {
        Err(Error::ReqwestAPIError(reason)) => {
            assert_eq!(reason, "missing field `censored_content`")
        }
        other => panic!("unexpected {:?}", other),
    }
}

#[test]
fn client_statuses_are_client_errors() {
    for status in [400u16, 401, 404, 429, 499] {
        match check_profanity(refused(status, "bad key")) {
            Err(Error::ClientError(err)) => {
                assert_eq!(err.status, status);
                assert_eq!(err.message, "bad key");
            }
            other => panic!("unexpected {:?}", other),
        }
    }
}

#[test]
fn other_failing_statuses_are_server_errors() {
    for status in [500u16, 503, 599, 302, 100, 199, 300, 399, 600] {
        match check_profanity(refused(status, "down")) {
            Err(Error::ServerError(err)) => {
                assert_eq!(err.status, status);
                assert_eq!(err.message, "down");
            }
            other => panic!("unexpected {:?}", other),
        }
    }
}

#[test]
fn no_answer_is_a_transport_error() {
    match check_profanity(Err("connection refused".to_string())) {
        Err(Error::MiddlewareReqwestAPIError(reason)) => assert_eq!(reason, "connection refused"),
        other => panic!("unexpected {:?}", other),
    }
}

#[test]
fn transform_error_keeps_status_and_message() {
    let err = transform_error(
        503,
        ReplyBody::Failure(APIResponse {
            message: "Service Unavailable".to_string(),
        }),
    );
    assert_eq!(err.status, 503);
    assert_eq!(err.message, "Service Unavailable");
    assert_eq!(err.to_text(), "Status: 503, Message: Service Unavailable");
}

#[test]
fn retries_are_bounded_by_five() {
    assert_eq!(REQWEST_MAX_RETRIES, 5);
}

#[test]
fn upstream_unavailable_is_answered_with_500() {
    let err = check_profanity(refused(503, "Service Unavailable")).unwrap_err();
    let reply = error_handler(&Rejection::Custom(err));
    assert_eq!(reply.status, 500);
    assert_eq!(reply.message, "INTERNAL_SERVER_ERROR");

    let err = check_profanity(Err("timed out".to_string())).unwrap_err();
    let reply = error_handler(&Rejection::Custom(err));
    assert_eq!(reply.status, 500);
    assert_eq!(reply.message, "INTERNAL_SERVER_ERROR");
}

#[test]
fn failing_answer_with_an_unreadable_body_is_still_classified() {
    for (status, client) in [(400u16, true), (404, true), (500, false), (503, false), (302, false)] {
        let outcome = Ok(UpstreamReply {
            status,
            body: ReplyBody::Malformed("expected value at line 1 column 1".to_string()),
        });
        match check_profanity(outcome) {
            Err(Error::ClientError(err)) if client => {
                assert_eq!(err.status, status);
                assert_eq!(err.message, "expected value at line 1 column 1");
            }
            Err(Error::ServerError(err)) if !client => {
                assert_eq!(err.status, status);
                assert_eq!(err.message, "expected value at line 1 column 1");
            }
            other => panic!("unexpected {:?}", other),
        }
    }
}

#[test]
fn failing_answer_with_another_body_has_no_message() {
    let outcome = censored(404);
    match check_profanity(outcome) {
        Err(Error::ClientError(err)) => {
            assert_eq!(err.status, 404);
            assert_eq!(err.message, "");
        }
        other => panic!("unexpected {:?}", other),
    }
    let err = transform_error(500, ReplyBody::Malformed("why".to_string()));
    assert_eq!(err.status, 500);
    assert_eq!(err.message, "why");
}

#[test]
fn success_with_the_body_of_a_refusal_is_an_api_error() {
    match check_profanity(refused(200, "not what was asked")) {
        Err(Error::ReqwestAPIError(reason)) => assert_eq!(reason, "not what was asked"),
        other => panic!("unexpected {:?}", other),
    }
}
