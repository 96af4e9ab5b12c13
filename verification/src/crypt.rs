//! Password hashes and session tokens.

use crate::errors::starts_with;
use crate::types::account::SESSION_SECONDS;
use serde_json::Value;
use vstd::prelude::*;
use vstd::string::StrSliceExecFns;
use vstd::utf8::encode_utf8;

verus! {

#[verifier::external_type_specification]
#[verifier::external_body]
pub struct ExJsonValue(serde_json::Value);

/// The key that tokens are sealed with.
pub const TOKEN_SECRET: &'static str = "RANDOM WORDS WINTER MACINTOSH PC";

#[derive(Debug, PartialEq, Eq, Structural, Clone, Copy)]
pub enum Error {
    EncryptTokenError,
    DecryptTokenError,
}

impl Error {
    pub open spec fn spec_text(self) -> Seq<char> {
        match self {
            Error::EncryptTokenError => "Cannot encrypt token."@,
            Error::DecryptTokenError => "Cannot decrypt token."@,
        }
    }

    pub fn to_text(&self) -> (r: String)
        ensures
            r@ == self.spec_text(),
    {
        match self {
            Error::EncryptTokenError => "Cannot encrypt token.".to_owned(),
            Error::DecryptTokenError => "Cannot decrypt token.".to_owned(),
        }
    }
}

/// The number of bytes of a salt.
pub const SALT_LENGTH: usize = 32;

/// The longest password that can be hashed, in bytes.
pub const MAX_PASSWORD_LENGTH: usize = 0xFFFF_FFFF;

/// The encoded Argon2 hash of a password under a salt, with the default
/// parameters of the `argon2` crate.
pub uninterp spec fn argon2_encoded(password: Seq<u8>, salt: Seq<u8>) -> Seq<char>;

/// What checking a password against an encoded hash gives: whether it
/// matches, or `None` where the encoded hash cannot be used.
pub uninterp spec fn argon2_verified(encoded: Seq<char>, password: Seq<u8>) -> Option<bool>;

/// `rand::thread_rng().gen::<[u8; 32]>()`: 32 bytes from the thread's
/// random number generator.
#[verifier::external_body]
fn random_salt() -> (r: Vec<u8>)
    ensures
        r@.len() == SALT_LENGTH,
{
    rand::Rng::gen::<[u8; 32]>(&mut rand::thread_rng()).to_vec()
}

/// Whether a salt has a length that the `argon2` crate takes.
pub open spec fn usable_salt(salt: Seq<u8>) -> bool {
    8 <= salt.len() <= 0xFFFF_FFFF
}

/// `argon2::hash_encoded` with `argon2::Config::default()`. With these
/// parameters the crate refuses only a password of more than 2^32 - 1 bytes
/// and a salt of fewer than 8 or more than 2^32 - 1 bytes. What it returns
/// holds the parameters, the salt and the digest, each between `$` signs and
/// the last two in base64, so that `argon2::verify_encoded` computes the same
/// digest from the same password and accepts it, and so that no other salt
/// gives the same text.
#[verifier::external_body]
fn argon2_hash(password: &[u8], salt: &[u8]) -> (r: String)
    requires
        password@.len() <= MAX_PASSWORD_LENGTH,
        usable_salt(salt@),
    ensures
        r@ == argon2_encoded(password@, salt@),
        argon2_verified(r@, password@) == Some(true),
        forall|other_password: Seq<u8>, other_salt: Seq<u8>|
            usable_salt(other_salt) && other_salt != salt@ ==> #[trigger] argon2_encoded(
                other_password,
                other_salt,
            ) != r@,
{
    argon2::hash_encoded(password, salt, &argon2::Config::default()).unwrap()
}

/// Hashes a password under the salt that is given. The result holds the
/// salt and the parameters; checking the same password against it succeeds,
/// and whatever is hashed under another salt gives another text.
pub fn hash_password_with(password: &[u8], salt: &[u8]) -> (r: String)
    requires
        password@.len() <= MAX_PASSWORD_LENGTH,
        usable_salt(salt@),
    ensures
        r@ == argon2_encoded(password@, salt@),
        argon2_verified(r@, password@) == Some(true),
        forall|other_password: Seq<u8>, other_salt: Seq<u8>|
            usable_salt(other_salt) && other_salt != salt@ ==> #[trigger] argon2_encoded(
                other_password,
                other_salt,
            ) != r@,
{
    argon2_hash(password, salt)
}

/// Hashes a password under a fresh random salt. The result holds the salt
/// and the parameters, and checking the same password against it succeeds.
pub fn hash_password(password: &[u8]) -> (r: String)
    requires
        password@.len() <= MAX_PASSWORD_LENGTH,
    ensures
        hash_of(r@, password@),
        argon2_verified(r@, password@) == Some(true),
{
    let salt = random_salt();
    hash_password_with(password, salt.as_slice())
}

/// Whether `encoded` is the hash of `password` under some salt of 32 bytes.
pub open spec fn hash_of(encoded: Seq<char>, password: Seq<u8>) -> bool {
    exists|salt: Seq<u8>|
        salt.len() == SALT_LENGTH && encoded == #[trigger] argon2_encoded(password, salt)
}

/// Hashes the password of a new account under a fresh random salt, or
/// refuses it where it is too long to be hashed, in the words of the
/// `argon2` crate for that.
pub fn hash_new_password(password: &str) -> (r: Result<String, String>)
    ensures
        match r {
            Ok(encoded) => {
                &&& encode_utf8(password@).len() <= MAX_PASSWORD_LENGTH
                &&& hash_of(encoded@, encode_utf8(password@))
                &&& argon2_verified(encoded@, encode_utf8(password@)) == Some(true)
            },
            Err(reason) => encode_utf8(password@).len() > MAX_PASSWORD_LENGTH && reason@
                == "Password is too long"@,
        },
{
    let bytes = password.as_bytes();
    if bytes.len() > MAX_PASSWORD_LENGTH {
        return Err("Password is too long".to_owned());
    }
    Ok(hash_password(bytes))
}

/// Checks a password against an encoded hash.
///
/// This is `argon2::verify_encoded`: it reads the parameters, the salt and
/// the digest from `encoded_password`, computes the digest of `password`
/// with them and compares the two. It fails where `encoded_password` cannot
/// be read or holds parameters that the crate refuses, with the crate's
/// words for the error. It works in as much memory as the parameters ask
/// for.
#[verifier::external_body]
pub fn verify_password(encoded_password: &str, password: &[u8]) -> (r: Result<bool, String>)
    ensures
        match r {
            Ok(matches) => argon2_verified(encoded_password@, password@) == Some(matches),
            Err(_) => argon2_verified(encoded_password@, password@) is None,
        },
{
    argon2::verify_encoded(encoded_password, password).map_err(|err| err.to_string())
}

/// `chrono::Utc::now().timestamp()`: the time in seconds since the Unix
/// epoch.
#[verifier::external_body]
pub(crate) fn unix_now() -> i64 {
    chrono::Utc::now().timestamp()
}

/// The window of a session that begins at `now`: from `now` on, for one
/// day. `None` where the day does not fit in the range of the clock.
pub fn session_window(now: i64) -> (r: Option<(i64, i64)>)
    ensures
        now + SESSION_SECONDS <= i64::MAX ==> r == Some((now, (now + SESSION_SECONDS) as i64)),
        now + SESSION_SECONDS > i64::MAX ==> r is None,
{
    if now <= i64::MAX - SESSION_SECONDS {
        Some((now, now + SESSION_SECONDS))
    } else {
        None
    }
}

/// The key that tokens are sealed with, as bytes.
pub open spec fn token_key() -> Seq<u8> {
    encode_utf8(TOKEN_SECRET@)
}

/// The last second of the year 9999. `chrono` writes a time from 1970 up to
/// this second with a year of four digits, and reads it back as the same
/// second.
pub const MAX_WRITTEN_SECONDS: i64 = 253_402_300_799;

/// What `members` holds under `key`, if anything.
pub open spec fn member<V>(members: Map<Seq<char>, V>, key: Seq<char>) -> Option<V> {
    if members.contains_key(key) {
        Some(members[key])
    } else {
        None
    }
}

/// The second that a written time falls in, counted from the Unix epoch, as
/// `chrono` reads it, or `None` where `chrono` cannot read the text as a
/// time.
pub uninterp spec fn written_seconds(text: Seq<char>) -> Option<i64>;

/// The time that `members` hold under `key`: the second that the text
/// falls in, where there is a text and it reads as a time.
pub open spec fn member_seconds(members: Map<Seq<char>, Seq<char>>, key: Seq<char>) -> Option<
    i64,
> {
    match member(members, key) {
        Some(text) => written_seconds(text),
        None => None,
    }
}

/// The integer claims that a token holds: the members that are integers in
/// the range of `i64`, each under its key, of the JSON object that the token
/// opens to under `key`. Empty for a text that `key` does not open and for
/// one that holds no JSON object.
pub uninterp spec fn sealed_integers(token: Seq<char>, key: Seq<u8>) -> Map<Seq<char>, i64>;

/// The text claims that a token holds: the members that are strings, each
/// under its key, of the JSON object that the token opens to under `key`.
pub uninterp spec fn sealed_strings(token: Seq<char>, key: Seq<u8>) -> Map<
    Seq<char>,
    Seq<char>,
>;

/// The integer that a token of the service holds under `claim`.
pub open spec fn sealed_integer(token: Seq<char>, claim: Seq<char>) -> Option<i64> {
    member(sealed_integers(token, token_key()), claim)
}

/// The time that a token of the service holds under `claim`.
pub open spec fn sealed_seconds(token: Seq<char>, claim: Seq<char>) -> Option<i64> {
    member_seconds(sealed_strings(token, token_key()), claim)
}

/// Whether a time lies between 1970 and the end of the year 9999.
pub open spec fn written_range(seconds: i64) -> bool {
    0 <= seconds <= MAX_WRITTEN_SECONDS
}

/// Whether `token`, sealed with `key`, holds what was handed to sealing: it
/// has the frame of a local token and holds `claim` under `claim_key`, and
/// it holds the time `exp` under `exp` and the time `nbf` under `nbf`. The
/// two times are owed where the claim is not written in their place and each
/// lies between 1970 and the end of the year 9999.
pub open spec fn sealed_with(
    token: Seq<char>,
    key: Seq<u8>,
    exp: i64,
    nbf: i64,
    claim_key: Seq<char>,
    claim: i64,
) -> bool {
    &&& framed(token)
    &&& member(sealed_integers(token, key), claim_key) == Some(claim)
    &&& claim_key != "exp"@ && claim_key != "nbf"@ && written_range(exp) && written_range(nbf) ==> {
        &&& member_seconds(sealed_strings(token, key), "exp"@) == Some(exp)
        &&& member_seconds(sealed_strings(token, key), "nbf"@) == Some(nbf)
    }
}

/// Whether `token` is what the service issues at the time `now` for the
/// claim `claim` under `claim_key`: sealed with the service's key, it holds
/// the claim, `now` under `nbf`, and the second one day later under `exp`.
pub open spec fn issued(token: Seq<char>, now: i64, claim_key: Seq<char>, claim: i64) -> bool {
    now + SESSION_SECONDS <= i64::MAX && sealed_with(
        token,
        token_key(),
        (now + SESSION_SECONDS) as i64,
        now,
        claim_key,
        claim,
    )
}

/// `paseto::tokens::PasetoBuilder`, with the two times made by
/// `chrono::DateTime::from_timestamp` and the claim by
/// `serde_json::Value::from`: a local token sealed with `key`. The builder
/// puts into one JSON object the time `exp` under `exp` and the time `nbf`
/// under `nbf`, each written by `chrono` as a text, and then the number
/// `claim` under `claim_key`, which takes the place of a time where the key
/// is the same. `None` where a time is out of the range of
/// `chrono::DateTime` or the builder fails. The builder draws a random
/// nonce, so two tokens for the same claims differ. Without a footer the
/// crate writes a token as the header `v2.local.` and then, in the URL-safe
/// base64 alphabet, the 24 bytes of the nonce and the sealed claims.
#[verifier::external_body]
fn build_local_token(key: &[u8], exp: i64, nbf: i64, claim_key: &str, claim: i64) -> (r: Option<
    String,
>)
    ensures
        r matches Some(token) ==> sealed_with(token@, key@, exp, nbf, claim_key@, claim),
{
    let exp = chrono::DateTime::from_timestamp(exp, 0)?;
    let nbf = chrono::DateTime::from_timestamp(nbf, 0)?;
    paseto::tokens::PasetoBuilder::new().set_encryption_key(key).set_expiration(
        &exp,
    ).set_not_before(&nbf).set_claim(claim_key, Value::from(claim)).build().ok()
}

/// Issues, at the time `now`, a token that is sealed with the service's key
/// and holds one claim. The token counts from `now` on and for one day. No
/// token is issued where that day does not fit in the range of the clock;
/// elsewhere sealing decides, and what it gives holds the claim and the two
/// times.
pub fn encode_token_at(now: i64, claim_key: String, claim_value: i64) -> (r: Result<String, Error>)
    ensures
        r is Err ==> r == Err::<String, Error>(Error::EncryptTokenError),
        now + SESSION_SECONDS > i64::MAX ==> r is Err,
        r matches Ok(token) ==> issued(token@, now, claim_key@, claim_value),
{
    let (nbf, exp) = match session_window(now) {
        Some(window) => window,
        None => {
            return Err(Error::EncryptTokenError);
        },
    };
    match build_local_token(TOKEN_SECRET.as_bytes(), exp, nbf, claim_key.as_str(), claim_value) {
        Some(token) => Ok(token),
        None => Err(Error::EncryptTokenError),
    }
}

/// Issues a token that is sealed with the service's key and holds one
/// claim. The token counts from now on and for one day.
pub fn encode_token(claim_key: String, claim_value: i64) -> (r: Result<String, Error>)
    ensures
        r is Err ==> r == Err::<String, Error>(Error::EncryptTokenError),
        r matches Ok(token) ==> exists|now: i64| #[trigger] issued(token@, now, claim_key@, claim_value),
{
    let now = unix_now();
    let r = encode_token_at(now, claim_key, claim_value);
    assert(r matches Ok(token) ==> issued(token@, now, claim_key@, claim_value));
    r
}

/// The fewest characters that the sealed part of a token can have: they
/// hold the 24 bytes of the nonce.
pub const MIN_PAYLOAD_LENGTH: usize = 32;

/// Whether `c` belongs to the URL-safe base64 alphabet: a letter, a digit,
/// `-` or `_`.
pub open spec fn is_url_safe(c: char) -> bool {
    ('A' <= c && c <= 'Z') || ('a' <= c && c <= 'z') || ('0' <= c && c <= '9') || c == '-' || c
        == '_'
}

/// Whether `token` has the frame of a local token: the header `v2.local.`,
/// and after it at least 32 characters of the URL-safe base64 alphabet.
/// They hold the 24 bytes of the nonce.
pub open spec fn framed(token: Seq<char>) -> bool {
    &&& starts_with(token, "v2.local."@)
    &&& token.len() >= 9 + MIN_PAYLOAD_LENGTH
    &&& forall|j: int| 9 <= j < 9 + MIN_PAYLOAD_LENGTH ==> is_url_safe(#[trigger] token[j])
}

/// Whether a token of `length` characters begins with `v2.local.`.
fn has_header(token: &str, length: usize) -> (r: bool)
    requires
        length == token@.len(),
    ensures
        r == starts_with(token@, "v2.local."@),
        r ==> length >= 9,
{
    proof {
        reveal_strlit("v2.local.");
    }
    if length < 9 {
        return false;
    }
    let r = token.get_char(0) == 'v' && token.get_char(1) == '2' && token.get_char(2) == '.'
        && token.get_char(3) == 'l' && token.get_char(4) == 'o' && token.get_char(5) == 'c'
        && token.get_char(6) == 'a' && token.get_char(7) == 'l' && token.get_char(8) == '.';
    proof {
        let head = token@.subrange(0, 9);
        if r {
            assert(head =~= "v2.local."@);
        } else {
            assert(head[0] == token@[0] && head[1] == token@[1] && head[2] == token@[2]
                && head[3] == token@[3] && head[4] == token@[4] && head[5] == token@[5]
                && head[6] == token@[6] && head[7] == token@[7] && head[8] == token@[8]);
        }
    }
    r
}

/// Whether a character belongs to the URL-safe base64 alphabet.
pub fn url_safe(c: char) -> (r: bool)
    ensures
        r == is_url_safe(c),
{
    ('A' <= c && c <= 'Z') || ('a' <= c && c <= 'z') || ('0' <= c && c <= '9') || c == '-' || c
        == '_'
}

/// Whether a token has the frame of a local token.
pub fn is_framed(token: &str) -> (r: bool)
    ensures
        r == framed(token@),
{
    let length = token.unicode_len();
    if !has_header(token, length) {
        return false;
    }
    if length < 9 + MIN_PAYLOAD_LENGTH {
        return false;
    }
    let mut i: usize = 9;
    while i < 9 + MIN_PAYLOAD_LENGTH
        invariant
            length == token@.len(),
            9 + MIN_PAYLOAD_LENGTH <= length,
            9 <= i <= 9 + MIN_PAYLOAD_LENGTH,
            forall|j: int| 9 <= j < i ==> is_url_safe(#[trigger] token@[j]),
        decreases 9 + MIN_PAYLOAD_LENGTH - i,
    {
        if !url_safe(token.get_char(i)) {
            return false;
        }
        i += 1;
    }
    true
}

/// `paseto::tokens::validate_local_token` without a footer and with the
/// `chrono` clock: the claims of a token that was sealed with `key` and that
/// the clock does not refuse, or `None`. The crate opens the token with the
/// key, reads what it holds as JSON and returns that value. It refuses a
/// token that it cannot open, one that holds no JSON, one with an `iat` or
/// `nbf` after the present moment or an `exp` before it, and one in which
/// such a claim is no time. It decodes the sealed part as base64 and takes
/// its first 24 bytes for the nonce without asking whether they are there;
/// 32 characters of the alphabet at its head decode to 24 bytes.
#[verifier::external_body]
fn validate_local(token: &str, key: &[u8]) -> (r: Option<Value>)
    requires
        framed(token@),
    ensures
        r matches Some(claims) ==> json_integers(claims) == sealed_integers(token@, key@)
            && json_strings(claims) == sealed_strings(token@, key@),
{
    paseto::tokens::validate_local_token(
        token,
        None,
        key,
        &paseto::tokens::TimeBackend::Chrono,
    ).ok()
}

/// Opens a token and returns its claims: the ones that the token holds. A
/// token without the frame of a local token is refused unread.
pub fn decode_token(token: String) -> (r: Result<Value, Error>)
    ensures
        r is Err ==> r == Err::<Value, Error>(Error::DecryptTokenError),
        !framed(token@) ==> r is Err,
        r matches Ok(claims) ==> json_integers(claims) == sealed_integers(token@, token_key())
            && json_strings(claims) == sealed_strings(token@, token_key()),
{
    if !is_framed(token.as_str()) {
        return Err(Error::DecryptTokenError);
    }
    match validate_local(token.as_str(), TOKEN_SECRET.as_bytes()) {
        Some(claims) => Ok(claims),
        None => Err(Error::DecryptTokenError),
    }
}

/// The members of a JSON object that are integers in the range of `i64`,
/// each under its key. Empty for a value that is no object.
pub uninterp spec fn json_integers(value: Value) -> Map<Seq<char>, i64>;

/// The members of a JSON object that are strings, each under its key. Empty
/// for a value that is no object.
pub uninterp spec fn json_strings(value: Value) -> Map<Seq<char>, Seq<char>>;

/// `serde_json::Value::get` with a `&str` key, and `serde_json::Value::as_i64`
/// on what it finds: the member `key` of a JSON object as a number, or `None`
/// where `value` is no object, has no such member, or has one that is no
/// integer in the range of `i64`.
#[verifier::external_body]
pub(crate) fn json_integer(value: &Value, key: &str) -> (r: Option<i64>)
    ensures
        r == member(json_integers(*value), key@),
{
    value.get(key).and_then(Value::as_i64)
}

/// `serde_json::Value::get` with a `&str` key, and `serde_json::Value::as_str`
/// on what it finds: the member `key` of a JSON object as a text, or `None`
/// where `value` is no object, has no such member, or has one that is no
/// string.
#[verifier::external_body]
pub(crate) fn json_string<'a>(value: &'a Value, key: &str) -> (r: Option<&'a str>)
    ensures
        match r {
            Some(text) => member(json_strings(*value), key@) == Some(text@),
            None => member(json_strings(*value), key@) is None,
        },
{
    value.get(key).and_then(Value::as_str)
}

/// `str::parse::<chrono::DateTime<chrono::Utc>>` and then
/// `chrono::DateTime::timestamp`. The parser reads a date, a time and an
/// offset from the text and nothing from its surroundings.
#[verifier::external_body]
pub(crate) fn parse_seconds(text: &str) -> (r: Option<i64>)
    ensures
        r == written_seconds(text@),
{
    text.parse::<chrono::DateTime<chrono::Utc>>().ok().map(|time| time.timestamp())
}

} // verus!
