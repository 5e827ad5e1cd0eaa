//! Validation of signed keyserver messages about reserved usernames.
//!
//! A keyserver hands over a JSON envelope — a statement, a payload and an
//! issuance time — together with a detached signature over the whole
//! message text. A message is accepted only when the statement is the
//! expected one, the message is fresh, and the signature verifies against
//! the configured keyserver public key. The JSON parsing, the base64 and
//! signature primitives and the clock come from outside crates, relied on
//! through the contracts stated below; every decision made on their
//! results is verified.

use vstd::prelude::*;

verus! {

/// How many seconds old a message may be before it is rejected.
pub const MAX_MESSAGE_AGE_SECONDS: i64 = 5;

/// The classification a rejected message carries, mirroring the status
/// codes the service reports.
#[derive(PartialEq, Eq, Structural, Clone, Copy, Debug)]
pub enum StatusCode {
    InvalidArgument,
    FailedPrecondition,
    PermissionDenied,
}

/// Why a message was rejected: a status code and a short message.
#[derive(Debug)]
pub struct ValidationError {
    pub code: StatusCode,
    pub message: String,
}

impl ValidationError {
    pub fn invalid_argument(message: &str) -> (r: ValidationError)
        ensures
            r.code == StatusCode::InvalidArgument,
            r.message@ == message@,
    {
        ValidationError { code: StatusCode::InvalidArgument, message: message.to_owned() }
    }

    pub fn failed_precondition(message: &str) -> (r: ValidationError)
        ensures
            r.code == StatusCode::FailedPrecondition,
            r.message@ == message@,
    {
        ValidationError { code: StatusCode::FailedPrecondition, message: message.to_owned() }
    }

    pub fn permission_denied(message: &str) -> (r: ValidationError)
        ensures
            r.code == StatusCode::PermissionDenied,
            r.message@ == message@,
    {
        ValidationError { code: StatusCode::PermissionDenied, message: message.to_owned() }
    }
}

/// The result is rejection with exactly this code and message.
pub open spec fn fails_with<T>(
    r: Result<T, ValidationError>,
    code: StatusCode,
    message: Seq<char>,
) -> bool {
    &&& r is Err
    &&& r->Err_0.code == code
    &&& r->Err_0.message@ == message
}

/// Every rejection carries one of the six documented code/message pairs.
pub open spec fn classified_error<T>(r: Result<T, ValidationError>) -> bool {
    r matches Err(e) ==> ({
        ||| (e.code == StatusCode::InvalidArgument && (e.message@ == "message invalid"@
            || e.message@ == "message format invalid"@ || e.message@ == "signature invalid"@))
        ||| (e.code == StatusCode::FailedPrecondition && (e.message@ == "missing key"@
            || e.message@ == "malformed key"@))
        ||| (e.code == StatusCode::PermissionDenied && e.message@ == "verification failed"@)
    })
}

/// A message envelope whose payload is one string.
pub struct EnvelopeString {
    pub statement: String,
    pub payload: String,
    pub issued_at: String,
}

/// A message envelope whose payload is a list of strings.
pub struct EnvelopeStringList {
    pub statement: String,
    pub payload: Vec<String>,
    pub issued_at: String,
}

/// A message envelope whose payload names a username and a user ID.
pub struct EnvelopeOwner {
    pub statement: String,
    pub username: String,
    pub user_id: String,
    pub issued_at: String,
}

/// What parsing a message with a string payload yields:
/// (statement, payload, issuance time), a function of the text alone.
pub uninterp spec fn envelope_string_of(s: Seq<char>) -> Option<
    (Seq<char>, Seq<char>, Seq<char>),
>;

/// What parsing a message with a string-list payload yields.
pub uninterp spec fn envelope_string_list_of(s: Seq<char>) -> Option<
    (Seq<char>, Seq<Seq<char>>, Seq<char>),
>;

/// What parsing an ownership message yields:
/// (statement, username, user ID, issuance time).
pub uninterp spec fn envelope_owner_of(s: Seq<char>) -> Option<
    (Seq<char>, Seq<char>, Seq<char>, Seq<char>),
>;

/// The instant a time string denotes, in whole seconds, if it parses.
pub uninterp spec fn datetime_seconds_of(s: Seq<char>) -> Option<int>;

/// The bytes an unpadded standard-alphabet base64 string decodes to.
pub uninterp spec fn base64_nopad_decode(s: Seq<char>) -> Option<Seq<u8>>;

/// Relies on serde_json: parses the message envelope and pulls out its
/// `statement`, string `payload` and `issuedAt` fields; the result is a
/// function of the text alone.
#[verifier::external_body]
fn parse_envelope_string(message: &str) -> (r: Option<EnvelopeString>)
    ensures
        (r is Some) == (envelope_string_of(message@) is Some),
        r matches Some(env) ==> envelope_string_of(message@) == Some(
            (env.statement@, env.payload@, env.issued_at@),
        ),
{
    let v: serde_json::Value = serde_json::from_str(message).ok()?;
    Some(EnvelopeString {
        statement: v.get("statement")?.as_str()?.to_string(),
        payload: v.get("payload")?.as_str()?.to_string(),
        issued_at: v.get("issuedAt")?.as_str()?.to_string(),
    })
}

/// Relies on serde_json: as `parse_envelope_string`, with the payload a
/// list of strings.
#[verifier::external_body]
fn parse_envelope_string_list(message: &str) -> (r: Option<EnvelopeStringList>)
    ensures
        (r is Some) == (envelope_string_list_of(message@) is Some),
        r matches Some(env) ==> envelope_string_list_of(message@) == Some(
            (env.statement@, env.payload.deep_view(), env.issued_at@),
        ),
{
    let v: serde_json::Value = serde_json::from_str(message).ok()?;
    Some(EnvelopeStringList {
        statement: v.get("statement")?.as_str()?.to_string(),
        payload: serde_json::from_value(v.get("payload")?.clone()).ok()?,
        issued_at: v.get("issuedAt")?.as_str()?.to_string(),
    })
}

/// Relies on serde_json: as `parse_envelope_string`, with the payload an
/// object naming `username` and `userID`.
#[verifier::external_body]
fn parse_envelope_owner(message: &str) -> (r: Option<EnvelopeOwner>)
    ensures
        (r is Some) == (envelope_owner_of(message@) is Some),
        r matches Some(env) ==> envelope_owner_of(message@) == Some(
            (env.statement@, env.username@, env.user_id@, env.issued_at@),
        ),
{
    let v: serde_json::Value = serde_json::from_str(message).ok()?;
    Some(EnvelopeOwner {
        statement: v.get("statement")?.as_str()?.to_string(),
        username: v.get("payload")?.get("username")?.as_str()?.to_string(),
        user_id: v.get("payload")?.get("userID")?.as_str()?.to_string(),
        issued_at: v.get("issuedAt")?.as_str()?.to_string(),
    })
}

/// Relies on constant_time_eq::constant_time_eq, applied to the two
/// strings' UTF-8 bytes: the byte strings are equal exactly when the
/// character strings are (UTF-8 encoding is injective). The constant-time
/// comparison guards the statement check against timing probes.
#[verifier::external_body]
fn statement_matches(statement: &str, expected: &str) -> (r: bool)
    ensures
        r == (statement@ == expected@),
{
    constant_time_eq::constant_time_eq(statement.as_bytes(), expected.as_bytes())
}

/// Relies on str's `==`: equality of the character sequences.
#[verifier::external_body]
fn str_eq(a: &str, b: &str) -> (r: bool)
    ensures
        r == (a@ == b@),
{
    a == b
}

/// Relies on chrono's `DateTime` parsing (a relaxed RFC 3339 form) and
/// `timestamp`: the instant the string denotes, in whole seconds, a
/// function of the string alone.
#[verifier::external_body]
fn parse_datetime_seconds(s: &str) -> (r: Option<i64>)
    ensures
        (r is Some) == (datetime_seconds_of(s@) is Some),
        r matches Some(t) ==> datetime_seconds_of(s@) == Some(t as int),
{
    s.parse::<chrono::DateTime<chrono::Utc>>().ok().map(|dt| dt.timestamp())
}

/// Relies on chrono's `Utc::now`: the current clock reading in whole
/// seconds. Nothing can be promised of a clock.
#[verifier::external_body]
fn now_seconds() -> i64 {
    chrono::Utc::now().timestamp()
}

/// Relies on base64's `STANDARD_NO_PAD` engine: the decoded bytes, a
/// function of the input alone.
#[verifier::external_body]
fn decode_base64_nopad(s: &str) -> (r: Option<Vec<u8>>)
    ensures
        r.deep_view() == base64_nopad_decode(s@),
{
    base64::Engine::decode(&base64::engine::general_purpose::STANDARD_NO_PAD, s).ok()
}

/// Relies on ed25519's `Signature::from_bytes`: anything but 64 bytes is
/// rejected (a well-formed 64-byte value may still be rejected for an
/// out-of-range scalar).
#[verifier::external_body]
fn signature_from_bytes(bytes: &Vec<u8>) -> (r: Option<ed25519_dalek::Signature>)
    ensures
        bytes@.len() != 64 ==> r is None,
{
    ed25519_dalek::Signature::from_bytes(bytes.as_slice()).ok()
}

/// Relies on ed25519's `PublicKey::from_bytes`: anything but 32 bytes is
/// rejected (a 32-byte value may still fail point decompression).
#[verifier::external_body]
fn public_key_from_bytes(bytes: &Vec<u8>) -> (r: Option<ed25519_dalek::PublicKey>)
    ensures
        bytes@.len() != 32 ==> r is None,
{
    ed25519_dalek::PublicKey::from_bytes(bytes.as_slice()).ok()
}

/// Relies on ed25519's `Verifier::verify` for `PublicKey`: whether the
/// signature is valid for the message's bytes under the key.
#[verifier::external_body]
fn verify_signature(
    key: &ed25519_dalek::PublicKey,
    message: &str,
    signature: &ed25519_dalek::Signature,
) -> bool {
    ed25519_dalek::Verifier::verify(key, message.as_bytes(), signature).is_ok()
}

#[verifier::external_type_specification]
#[verifier::external_body]
pub struct ExSignature(ed25519_dalek::Signature);

#[verifier::external_type_specification]
#[verifier::external_body]
pub struct ExPublicKey(ed25519_dalek::PublicKey);

/// Whether a message issued at `issued` is already too old at `now`.
fn is_expired(now: i64, issued: i64) -> (r: bool)
    ensures
        r == (now as int - issued as int > MAX_MESSAGE_AGE_SECONDS as int),
{
    (now as i128) - (issued as i128) > MAX_MESSAGE_AGE_SECONDS as i128
}

/// The checks every signed envelope goes through once it parses, in the
/// order the service applies them: expected statement, parseable and
/// fresh issuance time, well-formed signature, configured and well-formed
/// public key, and finally the signature verification over the whole
/// message text. The freshness of the message and the cryptographic
/// outcomes rest with the clock and the signature scheme; everything the
/// contract can pin down, it does.
fn authenticate(
    statement: &String,
    issued_at: &String,
    expected: &str,
    message: &str,
    signature_b64: &str,
    key: &Option<String>,
) -> (r: Result<(), ValidationError>)
    ensures
        classified_error(r),
        statement@ != expected@ ==> fails_with(
            r,
            StatusCode::InvalidArgument,
            "message invalid"@,
        ),
        statement@ == expected@ && datetime_seconds_of(issued_at@) is None ==> fails_with(
            r,
            StatusCode::InvalidArgument,
            "message format invalid"@,
        ),
        statement@ == expected@ && datetime_seconds_of(issued_at@) is Some && r is Err
            ==> r->Err_0.message@ != "message format invalid"@,
        statement@ == expected@ && datetime_seconds_of(issued_at@) is Some
            && base64_nopad_decode(signature_b64@) is None && r is Err ==> (r->Err_0.message@
            == "message invalid"@ || r->Err_0.message@ == "signature invalid"@),
        r matches Err(e) && e.message@ == "missing key"@ ==> (statement@ == expected@
            && datetime_seconds_of(issued_at@) is Some && base64_nopad_decode(signature_b64@)
            is Some && key is None),
        r matches Err(e) && e.message@ == "verification failed"@ ==> (statement@ == expected@
            && datetime_seconds_of(issued_at@) is Some && base64_nopad_decode(signature_b64@)
            is Some && (key matches Some(k) && base64_nopad_decode(k@) is Some)),
        r is Ok ==> (statement@ == expected@ && datetime_seconds_of(issued_at@) is Some
            && base64_nopad_decode(signature_b64@) is Some && (key matches Some(k)
            && base64_nopad_decode(k@) is Some)),
{
    proof {
        reveal_strlit("message invalid");
        reveal_strlit("message format invalid");
        reveal_strlit("signature invalid");
        reveal_strlit("missing key");
        reveal_strlit("malformed key");
        reveal_strlit("verification failed");
        // the six messages have six different lengths, so no two of the
        // rejection messages can be confused with one another
        assert("message invalid"@.len() == 15);
        assert("message format invalid"@.len() == 22);
        assert("signature invalid"@.len() == 17);
        assert("missing key"@.len() == 11);
        assert("malformed key"@.len() == 13);
        assert("verification failed"@.len() == 19);
    }
    if !statement_matches(statement.as_str(), expected) {
        return Err(ValidationError::invalid_argument("message invalid"));
    }
    let issued = match parse_datetime_seconds(issued_at.as_str()) {
        Some(t) => t,
        None => {
            return Err(ValidationError::invalid_argument("message format invalid"));
        },
    };
    let now = now_seconds();
    if is_expired(now, issued) {
        return Err(ValidationError::invalid_argument("message invalid"));
    }
    let signature_bytes = match decode_base64_nopad(signature_b64) {
        Some(b) => b,
        None => {
            return Err(ValidationError::invalid_argument("signature invalid"));
        },
    };
    let signature = match signature_from_bytes(&signature_bytes) {
        Some(s) => s,
        None => {
            return Err(ValidationError::invalid_argument("signature invalid"));
        },
    };
    let key_string = match key {
        Some(k) => k,
        None => {
            return Err(ValidationError::failed_precondition("missing key"));
        },
    };
    let key_bytes = match decode_base64_nopad(key_string.as_str()) {
        Some(b) => b,
        None => {
            return Err(ValidationError::failed_precondition("malformed key"));
        },
    };
    let public_key = match public_key_from_bytes(&key_bytes) {
        Some(p) => p,
        None => {
            return Err(ValidationError::failed_precondition("malformed key"));
        },
    };
    if !verify_signature(&public_key, message, &signature) {
        return Err(ValidationError::permission_denied("verification failed"));
    }
    Ok(())
}

/// Accept a signed request to add usernames to the reserved list and
/// return the usernames, or reject it with the reason.
pub fn validate_add_reserved_usernames_message(
    keyserver_message: &str,
    keyserver_signature: &str,
    keyserver_public_key: &Option<String>,
) -> (r: Result<Vec<String>, ValidationError>)
    ensures
        classified_error(r),
        envelope_string_list_of(keyserver_message@) is None ==> fails_with(
            r,
            StatusCode::InvalidArgument,
            "message format invalid"@,
        ),
        envelope_string_list_of(keyserver_message@) matches Some(env) && env.0
            != "Add the following usernames to reserved list"@ ==> fails_with(
            r,
            StatusCode::InvalidArgument,
            "message invalid"@,
        ),
        r matches Ok(usernames) ==> (envelope_string_list_of(keyserver_message@) matches Some(
            env,
        ) && usernames.deep_view() == env.1 && env.0
            == "Add the following usernames to reserved list"@ && datetime_seconds_of(env.2)
            is Some && base64_nopad_decode(keyserver_signature@) is Some && (
        keyserver_public_key matches Some(k) && base64_nopad_decode(k@) is Some)),
{
    let env = match parse_envelope_string_list(keyserver_message) {
        Some(e) => e,
        None => {
            return Err(ValidationError::invalid_argument("message format invalid"));
        },
    };
    match authenticate(
        &env.statement,
        &env.issued_at,
        "Add the following usernames to reserved list",
        keyserver_message,
        keyserver_signature,
        keyserver_public_key,
    ) {
        Ok(()) => Ok(env.payload),
        Err(e) => Err(e),
    }
}

/// Accept a signed request to remove one username from the reserved list
/// and return it, or reject the request with the reason.
pub fn validate_remove_reserved_username_message(
    keyserver_message: &str,
    keyserver_signature: &str,
    keyserver_public_key: &Option<String>,
) -> (r: Result<String, ValidationError>)
    ensures
        classified_error(r),
        envelope_string_of(keyserver_message@) is None ==> fails_with(
            r,
            StatusCode::InvalidArgument,
            "message format invalid"@,
        ),
        envelope_string_of(keyserver_message@) matches Some(env) && env.0
            != "Remove the following username from reserved list"@ ==> fails_with(
            r,
            StatusCode::InvalidArgument,
            "message invalid"@,
        ),
        r matches Ok(username) ==> (envelope_string_of(keyserver_message@) matches Some(env)
            && username@ == env.1 && env.0
            == "Remove the following username from reserved list"@ && datetime_seconds_of(
            env.2,
        ) is Some && base64_nopad_decode(keyserver_signature@) is Some && (
        keyserver_public_key matches Some(k) && base64_nopad_decode(k@) is Some)),
{
    let env = match parse_envelope_string(keyserver_message) {
        Some(e) => e,
        None => {
            return Err(ValidationError::invalid_argument("message format invalid"));
        },
    };
    match authenticate(
        &env.statement,
        &env.issued_at,
        "Remove the following username from reserved list",
        keyserver_message,
        keyserver_signature,
        keyserver_public_key,
    ) {
        Ok(()) => Ok(env.payload),
        Err(e) => Err(e),
    }
}

/// Accept a signed statement that `username` belongs to the keyserver's
/// user and return that user's ID, or reject it with the reason. Beyond
/// the shared checks, the username inside the message must be the one
/// asked about.
pub fn validate_account_ownership_message_and_get_user_id(
    username: &str,
    keyserver_message: &str,
    keyserver_signature: &str,
    keyserver_public_key: &Option<String>,
) -> (r: Result<String, ValidationError>)
    ensures
        classified_error(r),
        envelope_owner_of(keyserver_message@) is None ==> fails_with(
            r,
            StatusCode::InvalidArgument,
            "message format invalid"@,
        ),
        envelope_owner_of(keyserver_message@) matches Some(env) && env.0
            != "This user is the owner of the following username and user ID"@ ==> fails_with(
            r,
            StatusCode::InvalidArgument,
            "message invalid"@,
        ),
        r matches Ok(user_id) ==> (envelope_owner_of(keyserver_message@) matches Some(env)
            && user_id@ == env.2 && env.1 == username@ && env.0
            == "This user is the owner of the following username and user ID"@
            && datetime_seconds_of(env.3) is Some && base64_nopad_decode(keyserver_signature@)
            is Some && (keyserver_public_key matches Some(k) && base64_nopad_decode(k@)
            is Some)),
{
    let env = match parse_envelope_owner(keyserver_message) {
        Some(e) => e,
        None => {
            return Err(ValidationError::invalid_argument("message format invalid"));
        },
    };
    match authenticate(
        &env.statement,
        &env.issued_at,
        "This user is the owner of the following username and user ID",
        keyserver_message,
        keyserver_signature,
        keyserver_public_key,
    ) {
        Ok(()) => {
            if !str_eq(env.username.as_str(), username) {
                return Err(ValidationError::invalid_argument("message invalid"));
            }
            Ok(env.user_id)
        },
        Err(e) => Err(e),
    }
}

} // verus!
