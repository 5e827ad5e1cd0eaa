use blob_bridge::config::AppConfig;
use blob_bridge::config::Command;
use blob_bridge::config::DEFAULT_HTTP_PORT;
use blob_bridge::identity::IdentityKeyInfo;
use blob_bridge::identity::IdentityServiceConfig;
use blob_bridge::identity::InboundKeyInfo;
use blob_bridge::identity::InboundKeyInfoResponse;
use blob_bridge::identity::PreKey;

fn full_key_info() -> InboundKeyInfo {
    InboundKeyInfo {
        identity_info: Some(IdentityKeyInfo {
            payload: String::from("identity-payload"),
            payload_signature: String::from("identity-signature"),
            social_proof: Some(String::from("proof")),
        }),
        content_prekey: Some(PreKey {
            pre_key: String::from("content-prekey"),
            pre_key_signature: String::from("content-prekey-signature"),
        }),
        notif_prekey: Some(PreKey {
            pre_key: String::from("notif-prekey"),
            pre_key_signature: String::from("notif-prekey-signature"),
        }),
    }
}

#[test]
fn key_info_flattens_when_complete() {
    let resp = InboundKeyInfoResponse::try_from(full_key_info()).expect("complete bundle");
    assert_eq!(resp.payload, "identity-payload");
    assert_eq!(resp.payload_signature, "identity-signature");
    assert_eq!(resp.social_proof, Some(String::from("proof")));
    assert_eq!(resp.content_prekey, "content-prekey");
    assert_eq!(resp.content_prekey_signature, "content-prekey-signature");
    assert_eq!(resp.notif_prekey, "notif-prekey");
    assert_eq!(resp.notif_prekey_signature, "notif-prekey-signature");
}

#[test]
fn key_info_missing_identity_info_rejected() {
    let mut info = full_key_info();
    info.identity_info = None;
    let e = InboundKeyInfoResponse::try_from(info).expect_err("incomplete bundle");
    assert_eq!(e, "GenericFailure");
}

#[test]
fn key_info_missing_content_prekey_rejected() {
    let mut info = full_key_info();
    info.content_prekey = None;
    assert!(InboundKeyInfoResponse::try_from(info).is_err());
}

#[test]
fn key_info_missing_notif_prekey_rejected() {
    let mut info = full_key_info();
    info.notif_prekey = None;
    assert!(InboundKeyInfoResponse::try_from(info).is_err());
}

#[test]
fn identity_config_default_socket() {
    let cfg = IdentityServiceConfig::default();
    assert_eq!(cfg.identity_socket_addr, "http://[::1]:50054");
}

#[test]
fn app_config_defaults() {
    let cfg = AppConfig::default();
    assert_eq!(cfg.http_port, DEFAULT_HTTP_PORT);
    assert_eq!(cfg.localstack_endpoint, None);
    assert_eq!(cfg.s3_bucket_name, "commapp-blob");
    assert_eq!(cfg.identity_endpoint, "http://localhost:50054");
    assert!(!cfg.instant_delete);
    assert!(cfg.command.is_none());
    assert!(!cfg.uses_custom_s3_bucket());
}

#[test]
fn app_config_custom_bucket() {
    let cfg = AppConfig {
        s3_bucket_name: String::from("my-own-bucket"),
        command: Some(Command::Server),
        ..AppConfig::default()
    };
    assert!(cfg.uses_custom_s3_bucket());
    assert_eq!(cfg.command, Some(Command::Server));
}
