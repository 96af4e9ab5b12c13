//! The errors that a request can end in, and the reply that each one is
//! answered with.

use crate::text::{decimal_repr, decimal_string};
use vstd::prelude::*;
use vstd::string::StringExecFns;

verus! {

/// What the moderation service said when it refused a text.
#[derive(Debug, Clone)]
pub struct ApiLayerError {
    pub status: u16,
    pub message: String,
}

/// What the database reported: its error code, where it gave one, and its
/// message.
#[derive(Debug, Clone)]
pub struct DatabaseError {
    pub code: Option<String>,
    pub message: String,
}

#[derive(Debug)]
pub enum Error {
    ParseError(std::num::ParseIntError),
    BadQuestionId,
    MissingParameters,
    QuestionNotFound,
    DatabaseQueryError(DatabaseError),
    ClientError(ApiLayerError),
    ServerError(ApiLayerError),
    ReqwestAPIError(String),
    MiddlewareReqwestAPIError(String),
    WrongPassword,
    ArgonLibraryError(String),
    TokenError,
    Unauthorized,
    EnvVariableError,
}

/// Why a request was turned away before or inside its handler.
#[derive(Debug)]
pub enum Rejection {
    /// No route matched.
    NotFound,
    /// The origin is not allowed.
    CorsForbidden,
    /// The body could not be read as the expected JSON.
    BodyDeserializeError,
    /// A handler or the authorization filter failed.
    Custom(Error),
    /// Anything else.
    Other,
}

/// A status code and a short body.
#[derive(Debug)]
pub struct Reply {
    pub status: u16,
    pub message: String,
}

/// The code that PostgreSQL gives to a violated uniqueness constraint.
pub const UNIQUE_VIOLATION: &'static str = "23505";

/// Whether `s` begins with `prefix`.
pub open spec fn starts_with(s: Seq<char>, prefix: Seq<char>) -> bool {
    prefix.len() <= s.len() && s.subrange(0, prefix.len() as int) == prefix
}

impl ApiLayerError {
    pub open spec fn spec_text(self) -> Seq<char> {
        "Status: "@ + decimal_repr(self.status as nat) + ", Message: "@ + self.message@
    }

    /// The status and the message in one line.
    pub fn to_text(&self) -> (r: String)
        ensures
            r@ == self.spec_text(),
    {
        let r = "Status: ".to_owned().concat(decimal_string(self.status as u64).as_str()).concat(
            ", Message: ",
        ).concat(self.message.as_str());
        assert(r@ =~= self.spec_text());
        r
    }
}

impl DatabaseError {
    /// Whether the error reports a violated uniqueness constraint: it has a
    /// code, and the code is `23505`.
    pub open spec fn is_unique_violation(self) -> bool {
        match self.code {
            Some(code) => code@ == "23505"@,
            None => false,
        }
    }

    pub fn unique_violation(&self) -> (r: bool)
        ensures
            r == self.is_unique_violation(),
    {
        match &self.code {
            Some(code) => *code == "23505".to_owned(),
            None => false,
        }
    }
}

/// What a failed query for one question means: that there is no such
/// question, where the database found no row, and else the error that the
/// database reported.
pub fn question_error(report: DatabaseError, row_not_found: bool) -> (r: Error)
    ensures
        r == if row_not_found {
            Error::QuestionNotFound
        } else {
            Error::DatabaseQueryError(report)
        },
{
    if row_not_found {
        Error::QuestionNotFound
    } else {
        Error::DatabaseQueryError(report)
    }
}

/// `Display` of `std::num::ParseIntError`: the standard library's sentence
/// for the way in which the number could not be read.
#[verifier::external_body]
fn parse_error_text(err: &std::num::ParseIntError) -> String {
    format!("{}", err)
}

impl Error {
    /// The words that every message for this error begins with. For all but
    /// a parse error, whose last sentence the standard library writes, they
    /// are the whole message.
    pub open spec fn spec_text(self) -> Seq<char> {
        match self {
            Error::ParseError(_) => "Cannot parse parameter: "@,
            Error::BadQuestionId => "Question id must be an integer"@,
            Error::MissingParameters => "Missing parameters"@,
            Error::QuestionNotFound => "Question not found"@,
            Error::DatabaseQueryError(err) => "Database error: "@ + err.message@,
            Error::ClientError(err) => "External client error: "@ + err.spec_text(),
            Error::ServerError(err) => "External server error: "@ + err.spec_text(),
            Error::ReqwestAPIError(message) => "External API error: "@ + message@,
            Error::MiddlewareReqwestAPIError(message) => "External API error: "@ + message@,
            Error::WrongPassword => "Incorrect credentials"@,
            Error::ArgonLibraryError(message) => "Cannot verify password: "@ + message@,
            Error::TokenError => "Token error."@,
            Error::Unauthorized => "Not the owner of the question"@,
            Error::EnvVariableError => "Missing environment variable"@,
        }
    }

    /// Whether the message ends with a sentence that the standard library
    /// wrote.
    pub open spec fn has_foreign_detail(self) -> bool {
        self is ParseError
    }

    /// The message for a log line or a test.
    pub fn to_text(&self) -> (r: String)
        ensures
            starts_with(r@, self.spec_text()),
            !self.has_foreign_detail() ==> r@ == self.spec_text(),
    {
        let r = match self {
            Error::ParseError(err) => "Cannot parse parameter: ".to_owned().concat(
                parse_error_text(err).as_str(),
            ),
            Error::BadQuestionId => "Question id must be an integer".to_owned(),
            Error::MissingParameters => "Missing parameters".to_owned(),
            Error::QuestionNotFound => "Question not found".to_owned(),
            Error::DatabaseQueryError(err) => "Database error: ".to_owned().concat(
                err.message.as_str(),
            ),
            Error::ClientError(err) => "External client error: ".to_owned().concat(
                err.to_text().as_str(),
            ),
            Error::ServerError(err) => "External server error: ".to_owned().concat(
                err.to_text().as_str(),
            ),
            Error::ReqwestAPIError(message) => "External API error: ".to_owned().concat(
                message.as_str(),
            ),
            Error::MiddlewareReqwestAPIError(message) => "External API error: ".to_owned().concat(
                message.as_str(),
            ),
            Error::WrongPassword => "Incorrect credentials".to_owned(),
            Error::ArgonLibraryError(message) => "Cannot verify password: ".to_owned().concat(
                message.as_str(),
            ),
            Error::TokenError => "Token error.".to_owned(),
            Error::Unauthorized => "Not the owner of the question".to_owned(),
            Error::EnvVariableError => "Missing environment variable".to_owned(),
        };
        assert(r@.subrange(0, self.spec_text().len() as int) =~= self.spec_text());
        r
    }

    /// The status code that the error is answered with.
    pub open spec fn spec_status(self) -> u16 {
        match self {
            Error::ParseError(_) | Error::BadQuestionId | Error::MissingParameters => 400,
            Error::WrongPassword | Error::ArgonLibraryError(_) | Error::TokenError => 401,
            Error::Unauthorized => 403,
            Error::QuestionNotFound => 404,
            Error::DatabaseQueryError(err) => if err.is_unique_violation() {
                422
            } else {
                500
            },
            Error::ClientError(_)
            | Error::ServerError(_)
            | Error::ReqwestAPIError(_)
            | Error::MiddlewareReqwestAPIError(_)
            | Error::EnvVariableError => 500,
        }
    }

    /// The body that the error is answered with. It never repeats what the
    /// database or the moderation service said.
    pub open spec fn spec_body(self) -> Seq<char> {
        match self {
            Error::ParseError(_) | Error::BadQuestionId | Error::MissingParameters =>
                "Bad parameters"@,
            Error::WrongPassword | Error::ArgonLibraryError(_) | Error::TokenError =>
                "INVALID_CREDENTIALS"@,
            Error::Unauthorized => "FORBIDDEN"@,
            Error::QuestionNotFound => "Question not found"@,
            Error::DatabaseQueryError(err) => if err.is_unique_violation() {
                "Account already exists"@
            } else {
                "Database error"@
            },
            Error::ClientError(_)
            | Error::ServerError(_)
            | Error::ReqwestAPIError(_)
            | Error::MiddlewareReqwestAPIError(_)
            | Error::EnvVariableError => "INTERNAL_SERVER_ERROR"@,
        }
    }
}

impl Rejection {
    pub open spec fn spec_status(self) -> u16 {
        match self {
            Rejection::NotFound => 404,
            Rejection::CorsForbidden => 403,
            Rejection::BodyDeserializeError => 422,
            Rejection::Custom(err) => err.spec_status(),
            Rejection::Other => 500,
        }
    }

    pub open spec fn spec_body(self) -> Seq<char> {
        match self {
            Rejection::NotFound => "NOT_FOUND"@,
            Rejection::CorsForbidden => "Cors Forbidden error"@,
            Rejection::BodyDeserializeError => "Bad parameters"@,
            Rejection::Custom(err) => err.spec_body(),
            Rejection::Other => "INTERNAL_SERVER_ERROR"@,
        }
    }
}

fn reply(status: u16, message: &str) -> (r: Reply)
    ensures
        r.status == status,
        r.message@ == message@,
{
    Reply { status, message: message.to_owned() }
}

/// Turns a rejection into the reply that the client sees: the status code
/// of its class and a fixed body.
pub fn error_handler(rej: &Rejection) -> (r: Reply)
    ensures
        r.status == rej.spec_status(),
        r.message@ == rej.spec_body(),
{
    match rej {
        Rejection::NotFound => reply(404, "NOT_FOUND"),
        Rejection::CorsForbidden => reply(403, "Cors Forbidden error"),
        Rejection::BodyDeserializeError => reply(422, "Bad parameters"),
        Rejection::Custom(err) => match err {
            Error::ParseError(_) | Error::BadQuestionId | Error::MissingParameters => reply(
                400,
                "Bad parameters",
            ),
            Error::WrongPassword | Error::ArgonLibraryError(_) | Error::TokenError => reply(
                401,
                "INVALID_CREDENTIALS",
            ),
            Error::Unauthorized => reply(403, "FORBIDDEN"),
            Error::QuestionNotFound => reply(404, "Question not found"),
            Error::DatabaseQueryError(db_err) => {
                if db_err.unique_violation() {
                    reply(422, "Account already exists")
                } else {
                    reply(500, "Database error")
                }
            },
            Error::ClientError(_)
            | Error::ServerError(_)
            | Error::ReqwestAPIError(_)
            | Error::MiddlewareReqwestAPIError(_)
            | Error::EnvVariableError => reply(500, "INTERNAL_SERVER_ERROR"),
        },
        Rejection::Other => reply(500, "INTERNAL_SERVER_ERROR"),
    }
}

/// An error is answered with a client status (400 to 422) or with 500, and
/// what the moderation service or the database said never decides the body.
pub proof fn lemma_error_status_classes(err: Error)
    ensures
        err.spec_status() == 400 || err.spec_status() == 401 || err.spec_status() == 403
            || err.spec_status() == 404 || err.spec_status() == 422 || err.spec_status() == 500,
        (err is TokenError || err is WrongPassword || err is ArgonLibraryError)
            <==> err.spec_status() == 401,
        err is Unauthorized <==> err.spec_status() == 403,
        (err is ClientError || err is ServerError || err is MiddlewareReqwestAPIError
            || err is ReqwestAPIError) ==> err.spec_status() == 500 && err.spec_body()
            == "INTERNAL_SERVER_ERROR"@,
{
}

} // verus!
