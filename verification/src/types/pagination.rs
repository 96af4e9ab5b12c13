//! The window of a listing, as the query string of a request asks for it.

use crate::errors::Error;
use crate::text::{decimal_repr, lemma_parse_decimal_repr, parse_u32, parse_u32_spec};
use std::collections::HashMap;
use vstd::prelude::*;

verus! {

/// The window of a listing.
#[derive(Debug, PartialEq)]
pub struct Pagination {
    /// How many items to return at most; no bound where it is absent.
    pub limit: Option<u32>,
    /// How many items to pass over first.
    pub offset: u32,
}

impl Default for Pagination {
    /// The whole listing: no limit, and nothing passed over.
    fn default() -> (r: Pagination)
        ensures
            r.limit is None,
            r.offset == 0,
    {
        Pagination { limit: None, offset: 0 }
    }
}

/// The value that the query parameters hold under `key`, if any.
pub open spec fn param_of(params: Map<String, String>, key: Seq<char>) -> Option<Seq<char>> {
    if exists|k: String| params.contains_key(k) && k@ == key {
        let k = choose|k: String| params.contains_key(k) && k@ == key;
        Some(params[k]@)
    } else {
        None
    }
}

/// What a set of query parameters asks for.
pub enum Extracted {
    /// Both numbers were given and read.
    Page(Pagination),
    /// `limit` or `offset` is absent.
    Missing,
    /// Both are there, and one of them is no 32-bit number.
    Unreadable,
}

/// The window that `params` asks for: both `limit` and `offset` must be
/// there, and both must read as 32-bit numbers.
pub open spec fn extracted(params: Map<String, String>) -> Extracted {
    match (param_of(params, "limit"@), param_of(params, "offset"@)) {
        (Some(limit), Some(offset)) => match (parse_u32_spec(limit), parse_u32_spec(offset)) {
            (Some(limit), Some(offset)) => Extracted::Page(
                Pagination { limit: Some(limit), offset },
            ),
            _ => Extracted::Unreadable,
        },
        _ => Extracted::Missing,
    }
}

/// `HashMap::get` with a `&str` key: the value stored under the key whose
/// text is `key`, or `None` where the map holds no such key.
#[verifier::external_body]
fn param<'a>(params: &'a HashMap<String, String>, key: &str) -> (r: Option<&'a String>)
    ensures
        match r {
            Some(value) => param_of(params@, key@) == Some(value@),
            None => param_of(params@, key@) is None,
        },
{
    params.get(key)
}

/// The window that a listing is asked for: the whole listing where the
/// request has no query parameters, and else what its `limit` and `offset`
/// say.
pub open spec fn requested(params: Map<String, String>) -> Extracted {
    if params.is_empty() {
        Extracted::Page(Pagination { limit: None, offset: 0 })
    } else {
        extracted(params)
    }
}

/// Decides the window of a listing from the query parameters of the request.
pub fn requested_page(params: HashMap<String, String>) -> (r: Result<Pagination, Error>)
    ensures
        match requested(params@) {
            Extracted::Page(page) => r == Ok::<Pagination, Error>(page),
            Extracted::Missing => r == Err::<Pagination, Error>(Error::MissingParameters),
            Extracted::Unreadable => r is Err && r->Err_0 is ParseError,
        },
{
    if params.is_empty() {
        Ok(Pagination::default())
    } else {
        extract_pagination(params)
    }
}

/// Reads `limit` and `offset` from the query parameters of a listing.
pub fn extract_pagination(params: HashMap<String, String>) -> (r: Result<Pagination, Error>)
    ensures
        match extracted(params@) {
            Extracted::Page(page) => r == Ok::<Pagination, Error>(page),
            Extracted::Missing => r == Err::<Pagination, Error>(Error::MissingParameters),
            Extracted::Unreadable => r is Err && r->Err_0 is ParseError,
        },
{
    let (limit_text, offset_text) = match (param(&params, "limit"), param(&params, "offset")) {
        (Some(limit_text), Some(offset_text)) => (limit_text, offset_text),
        _ => {
            return Err(Error::MissingParameters);
        },
    };
    let limit: u32 = match parse_u32(limit_text.as_str()) {
        Ok(limit) => limit,
        Err(err) => {
            return Err(Error::ParseError(err));
        },
    };
    let offset: u32 = match parse_u32(offset_text.as_str()) {
        Ok(offset) => offset,
        Err(err) => {
            return Err(Error::ParseError(err));
        },
    };
    Ok(Pagination { limit: Some(limit), offset })
}

/// A limit and an offset that were written in decimal into the query
/// parameters are read back unchanged.
pub proof fn lemma_extract_round_trip(params: Map<String, String>, limit: u32, offset: u32)
    requires
        param_of(params, "limit"@) == Some(decimal_repr(limit as nat)),
        param_of(params, "offset"@) == Some(decimal_repr(offset as nat)),
    ensures
        extracted(params) == Extracted::Page(Pagination { limit: Some(limit), offset }),
{
    lemma_parse_decimal_repr(limit);
    lemma_parse_decimal_repr(offset);
}

/// Parameters that lack `limit` or `offset` are refused as incomplete,
/// whatever else they hold.
pub proof fn lemma_extract_missing(params: Map<String, String>)
    requires
        param_of(params, "limit"@) is None || param_of(params, "offset"@) is None,
    ensures
        extracted(params) == Extracted::Missing,
{
}

/// Where both parameters are there and one of them is no number, the
/// parameters are refused as unreadable.
pub proof fn lemma_extract_unreadable(params: Map<String, String>)
    requires
        param_of(params, "limit"@) is Some,
        param_of(params, "offset"@) is Some,
        parse_u32_spec(param_of(params, "limit"@).unwrap()) is None || parse_u32_spec(
            param_of(params, "offset"@).unwrap(),
        ) is None,
    ensures
        extracted(params) == Extracted::Unreadable,
{
}

} // verus!
