use blob_bridge::validation::validate_account_ownership_message_and_get_user_id;
use blob_bridge::validation::validate_add_reserved_usernames_message;
use blob_bridge::validation::validate_remove_reserved_username_message;
use blob_bridge::validation::StatusCode;
use blob_bridge::validation::ValidationError;

use base64::engine::general_purpose::STANDARD_NO_PAD;
use base64::Engine;
use ed25519_dalek::Keypair;
use ed25519_dalek::PublicKey;
use ed25519_dalek::SecretKey;
use ed25519_dalek::Signer;

const ADD_STATEMENT: &str = "Add the following usernames to reserved list";
const REMOVE_STATEMENT: &str = "Remove the following username from reserved list";
const OWNER_STATEMENT: &str = "This user is the owner of the following username and user ID";

fn keypair() -> Keypair {
    let secret = SecretKey::from_bytes(&[7u8; 32]).expect("seed is 32 bytes");
    let public = PublicKey::from(&secret);
    Keypair { secret, public }
}

fn encoded_public_key(pair: &Keypair) -> String {
    STANDARD_NO_PAD.encode(pair.public.to_bytes())
}

fn sign(pair: &Keypair, message: &str) -> String {
    STANDARD_NO_PAD.encode(pair.sign(message.as_bytes()).to_bytes())
}

fn fresh_issued_at() -> String {
    chrono::Utc::now().to_rfc3339()
}

fn assert_error<T: std::fmt::Debug>(
    r: Result<T, ValidationError>,
    code: StatusCode,
    message: &str,
) {
    let e = r.expect_err("the message must be rejected");
    assert_eq!(e.code, code);
    assert_eq!(e.message, message);
}

#[test]
fn add_reserved_usernames_accepted() {
    let pair = keypair();
    let message = format!(
        r#"{{"statement":"{}","payload":["alice","bob"],"issuedAt":"{}"}}"#,
        ADD_STATEMENT,
        fresh_issued_at()
    );
    let signature = sign(&pair, &message);
    let key = Some(encoded_public_key(&pair));
    let usernames =
        validate_add_reserved_usernames_message(&message, &signature, &key).expect("valid");
    assert_eq!(usernames, vec!["alice".to_string(), "bob".to_string()]);
}

#[test]
fn remove_reserved_username_accepted() {
    let pair = keypair();
    let message = format!(
        r#"{{"statement":"{}","payload":"carol","issuedAt":"{}"}}"#,
        REMOVE_STATEMENT,
        fresh_issued_at()
    );
    let signature = sign(&pair, &message);
    let key = Some(encoded_public_key(&pair));
    let username =
        validate_remove_reserved_username_message(&message, &signature, &key).expect("valid");
    assert_eq!(username, "carol");
}

#[test]
fn account_ownership_accepted() {
    let pair = keypair();
    let message = format!(
        r#"{{"statement":"{}","payload":{{"username":"dave","userID":"user-17"}},"issuedAt":"{}"}}"#,
        OWNER_STATEMENT,
        fresh_issued_at()
    );
    let signature = sign(&pair, &message);
    let key = Some(encoded_public_key(&pair));
    let user_id =
        validate_account_ownership_message_and_get_user_id("dave", &message, &signature, &key)
            .expect("valid");
    assert_eq!(user_id, "user-17");
}

#[test]
fn account_ownership_wrong_username() {
    let pair = keypair();
    let message = format!(
        r#"{{"statement":"{}","payload":{{"username":"dave","userID":"user-17"}},"issuedAt":"{}"}}"#,
        OWNER_STATEMENT,
        fresh_issued_at()
    );
    let signature = sign(&pair, &message);
    let key = Some(encoded_public_key(&pair));
    assert_error(
        validate_account_ownership_message_and_get_user_id("eve", &message, &signature, &key),
        StatusCode::InvalidArgument,
        "message invalid",
    );
}

#[test]
fn malformed_json_rejected() {
    let pair = keypair();
    let key = Some(encoded_public_key(&pair));
    assert_error(
        validate_add_reserved_usernames_message("not json at all", "sig", &key),
        StatusCode::InvalidArgument,
        "message format invalid",
    );
}

#[test]
fn wrong_statement_rejected() {
    let pair = keypair();
    let message = format!(
        r#"{{"statement":"something else entirely","payload":["alice"],"issuedAt":"{}"}}"#,
        fresh_issued_at()
    );
    let signature = sign(&pair, &message);
    let key = Some(encoded_public_key(&pair));
    assert_error(
        validate_add_reserved_usernames_message(&message, &signature, &key),
        StatusCode::InvalidArgument,
        "message invalid",
    );
}

#[test]
fn unparseable_timestamp_rejected() {
    let pair = keypair();
    let message = format!(
        r#"{{"statement":"{}","payload":["alice"],"issuedAt":"the day before yesterday"}}"#,
        ADD_STATEMENT
    );
    let signature = sign(&pair, &message);
    let key = Some(encoded_public_key(&pair));
    assert_error(
        validate_add_reserved_usernames_message(&message, &signature, &key),
        StatusCode::InvalidArgument,
        "message format invalid",
    );
}

#[test]
fn stale_message_rejected() {
    let pair = keypair();
    let issued = (chrono::Utc::now() - chrono::Duration::seconds(100)).to_rfc3339();
    let message = format!(
        r#"{{"statement":"{}","payload":["alice"],"issuedAt":"{}"}}"#,
        ADD_STATEMENT, issued
    );
    let signature = sign(&pair, &message);
    let key = Some(encoded_public_key(&pair));
    assert_error(
        validate_add_reserved_usernames_message(&message, &signature, &key),
        StatusCode::InvalidArgument,
        "message invalid",
    );
}

#[test]
fn undecodable_signature_rejected() {
    let pair = keypair();
    let message = format!(
        r#"{{"statement":"{}","payload":["alice"],"issuedAt":"{}"}}"#,
        ADD_STATEMENT,
        fresh_issued_at()
    );
    let key = Some(encoded_public_key(&pair));
    assert_error(
        validate_add_reserved_usernames_message(&message, "!!!not-base64!!!", &key),
        StatusCode::InvalidArgument,
        "signature invalid",
    );
}

#[test]
fn short_signature_rejected() {
    let pair = keypair();
    let message = format!(
        r#"{{"statement":"{}","payload":["alice"],"issuedAt":"{}"}}"#,
        ADD_STATEMENT,
        fresh_issued_at()
    );
    // decodes fine, but not to 64 bytes
    let signature = STANDARD_NO_PAD.encode([1u8, 2, 3]);
    let key = Some(encoded_public_key(&pair));
    assert_error(
        validate_add_reserved_usernames_message(&message, &signature, &key),
        StatusCode::InvalidArgument,
        "signature invalid",
    );
}

#[test]
fn missing_key_rejected() {
    let pair = keypair();
    let message = format!(
        r#"{{"statement":"{}","payload":["alice"],"issuedAt":"{}"}}"#,
        ADD_STATEMENT,
        fresh_issued_at()
    );
    let signature = sign(&pair, &message);
    assert_error(
        validate_add_reserved_usernames_message(&message, &signature, &None),
        StatusCode::FailedPrecondition,
        "missing key",
    );
}

#[test]
fn malformed_key_rejected() {
    let pair = keypair();
    let message = format!(
        r#"{{"statement":"{}","payload":["alice"],"issuedAt":"{}"}}"#,
        ADD_STATEMENT,
        fresh_issued_at()
    );
    let signature = sign(&pair, &message);
    let key = Some(String::from("@@not base64@@"));
    assert_error(
        validate_add_reserved_usernames_message(&message, &signature, &key),
        StatusCode::FailedPrecondition,
        "malformed key",
    );
}

#[test]
fn tampered_message_rejected() {
    let pair = keypair();
    let message = format!(
        r#"{{"statement":"{}","payload":["alice"],"issuedAt":"{}"}}"#,
        ADD_STATEMENT,
        fresh_issued_at()
    );
    let signature = sign(&pair, &message);
    let tampered = message.replace("alice", "mallory");
    let key = Some(encoded_public_key(&pair));
    assert_error(
        validate_add_reserved_usernames_message(&tampered, &signature, &key),
        StatusCode::PermissionDenied,
        "verification failed",
    );
}
