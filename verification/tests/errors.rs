use questions_answers::errors::{
    error_handler, question_error, ApiLayerError, DatabaseError, Error, Rejection,
    UNIQUE_VIOLATION,
};

fn database_error(code: Option<&str>) -> Error {
    Error::DatabaseQueryError(DatabaseError {
        code: code.map(|code| code.to_string()),
        message: "relation failed".to_string(),
    })
}

fn refusal(status: u16) -> ApiLayerError {
    ApiLayerError {
        status,
        message: "upstream said no".to_string(),
    }
}

fn answer(rejection: Rejection) -> (u16, String) {
    let reply = error_handler(&rejection);
    (reply.status, reply.message)
}

#[test]
fn route_rejections() {
    assert_eq!(answer(Rejection::NotFound), (404, "NOT_FOUND".to_string()));
    assert_eq!(
        answer(Rejection::CorsForbidden),
        (403, "Cors Forbidden error".to_string())
    );
    assert_eq!(
        answer(Rejection::BodyDeserializeError),
        (422, "Bad parameters".to_string())
    );
    assert_eq!(
        answer(Rejection::Other),
        (500, "INTERNAL_SERVER_ERROR".to_string())
    );
}

#[test]
fn validation_errors_are_bad_requests() {
    let parse_error = "a".parse::<u32>().unwrap_err();
    for err in [
        Error::ParseError(parse_error),
        Error::MissingParameters,
        Error::BadQuestionId,
    ] {
        assert_eq!(
            answer(Rejection::Custom(err)),
            (400, "Bad parameters".to_string())
        );
    }
}

#[test]
fn credential_errors_are_unauthorized() {
    for err in [
        Error::WrongPassword,
        Error::TokenError,
        Error::ArgonLibraryError("Decoding failed".to_string()),
    ] {
        assert_eq!(
            answer(Rejection::Custom(err)),
            (401, "INVALID_CREDENTIALS".to_string())
        );
    }
}

#[test]
fn not_the_owner_is_forbidden() {
    assert_eq!(
        answer(Rejection::Custom(Error::Unauthorized)),
        (403, "FORBIDDEN".to_string())
    );
}

#[test]
fn missing_question_is_not_found() {
    assert_eq!(
        answer(Rejection::Custom(Error::QuestionNotFound)),
        (404, "Question not found".to_string())
    );
}

#[test]
fn unique_violation_is_account_already_exists() {
    assert_eq!(UNIQUE_VIOLATION, "23505");
    assert_eq!(
        answer(Rejection::Custom(database_error(Some("23505")))),
        (422, "Account already exists".to_string())
    );
}

#[test]
fn other_database_errors_are_internal() {
    for code in [
        None,
        Some("23503"),
        Some("2200H"),
        Some(""),
        Some("abc"),
        Some("23505x"),
        Some("+23505"),
        Some("023505"),
        Some(" 23505"),
        Some("2350"),
    ] {
        assert_eq!(
            answer(Rejection::Custom(database_error(code))),
            (500, "Database error".to_string()),
            "code {:?}",
            code
        );
    }
}

#[test]
fn upstream_errors_are_opaque_internal_errors() {
    for err in [
        Error::ClientError(refusal(400)),
        Error::ServerError(refusal(503)),
        Error::ReqwestAPIError("body".to_string()),
        Error::MiddlewareReqwestAPIError("timeout".to_string()),
        Error::EnvVariableError,
    ] {
        assert_eq!(
            answer(Rejection::Custom(err)),
            (500, "INTERNAL_SERVER_ERROR".to_string())
        );
    }
}

#[test]
fn error_texts() {
    assert_eq!(Error::BadQuestionId.to_text(), "Question id must be an integer");
    assert_eq!(Error::MissingParameters.to_text(), "Missing parameters");
    assert_eq!(Error::QuestionNotFound.to_text(), "Question not found");
    assert_eq!(
        database_error(None).to_text(),
        "Database error: relation failed"
    );
    assert_eq!(
        Error::ClientError(refusal(404)).to_text(),
        "External client error: Status: 404, Message: upstream said no"
    );
    assert_eq!(
        Error::ServerError(refusal(503)).to_text(),
        "External server error: Status: 503, Message: upstream said no"
    );
    assert_eq!(
        Error::ReqwestAPIError("x".to_string()).to_text(),
        "External API error: x"
    );
    assert_eq!(
        Error::MiddlewareReqwestAPIError("y".to_string()).to_text(),
        "External API error: y"
    );
    assert_eq!(Error::WrongPassword.to_text(), "Incorrect credentials");
    assert_eq!(
        Error::ArgonLibraryError("Decoding failed".to_string()).to_text(),
        "Cannot verify password: Decoding failed"
    );
    assert_eq!(Error::TokenError.to_text(), "Token error.");
    assert_eq!(Error::Unauthorized.to_text(), "Not the owner of the question");
    assert_eq!(Error::EnvVariableError.to_text(), "Missing environment variable");
}

#[test]
fn api_layer_error_text() {
    assert_eq!(refusal(0).to_text(), "Status: 0, Message: upstream said no");
    assert_eq!(
        refusal(65535).to_text(),
        "Status: 65535, Message: upstream said no"
    );
}

#[test]
fn failed_query_for_a_question() {
    let report = || DatabaseError {
        code: None,
        message: "no rows returned".to_string(),
    };
    assert!(matches!(
        question_error(report(), true),
        Error::QuestionNotFound
    ));
    match question_error(report(), false) {
        Error::DatabaseQueryError(db) => {
            assert_eq!(db.code, None);
            assert_eq!(db.message, "no rows returned");
        }
        other => panic!("unexpected {:?}", other),
    }
    let reply = error_handler(&Rejection::Custom(question_error(report(), true)));
    assert_eq!(reply.status, 404);
}
