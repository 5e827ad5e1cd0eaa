//! Plain data carried between the identity service and the embedding
//! layer: signed key blobs, login results, and the inbound key bundle a
//! lookup returns. The wire types arrive through the embedding layer as
//! plain strings; the flattening of a key bundle into a response is the
//! logic verified here.

use vstd::prelude::*;

verus! {

/// A signed identity-keys payload as the embedding layer hands it over.
pub struct SignedIdentityKeysBlob {
    pub payload: String,
    pub signature: String,
}

/// The credentials a successful login yields.
pub struct UserLoginInfo {
    pub user_id: String,
    pub access_token: String,
}

/// Identity key information inside an inbound key bundle.
pub struct IdentityKeyInfo {
    pub payload: String,
    pub payload_signature: String,
    pub social_proof: Option<String>,
}

/// One prekey and its signature.
pub struct PreKey {
    pub pre_key: String,
    pub pre_key_signature: String,
}

/// The key bundle an identity lookup streams back; every part is
/// optional on the wire.
pub struct InboundKeyInfo {
    pub identity_info: Option<IdentityKeyInfo>,
    pub content_prekey: Option<PreKey>,
    pub notif_prekey: Option<PreKey>,
}

/// The flattened key bundle handed to the embedding layer.
#[derive(Debug)]
pub struct InboundKeyInfoResponse {
    pub payload: String,
    pub payload_signature: String,
    pub social_proof: Option<String>,
    pub content_prekey: String,
    pub content_prekey_signature: String,
    pub notif_prekey: String,
    pub notif_prekey_signature: String,
}

impl InboundKeyInfoResponse {
    /// Flatten a key bundle into a response: succeeds exactly when every
    /// part is present, and moves each field across unchanged.
    pub fn try_from(key_info: InboundKeyInfo) -> (r: Result<InboundKeyInfoResponse, String>)
        ensures
            (r is Ok) == (key_info.identity_info is Some && key_info.content_prekey is Some
                && key_info.notif_prekey is Some),
            r matches Ok(resp) ==> (key_info.identity_info matches Some(ii) && resp.payload
                == ii.payload && resp.payload_signature == ii.payload_signature
                && resp.social_proof == ii.social_proof),
            r matches Ok(resp) ==> (key_info.content_prekey matches Some(cp)
                && resp.content_prekey == cp.pre_key && resp.content_prekey_signature
                == cp.pre_key_signature),
            r matches Ok(resp) ==> (key_info.notif_prekey matches Some(np) && resp.notif_prekey
                == np.pre_key && resp.notif_prekey_signature == np.pre_key_signature),
            r matches Err(m) ==> m@ == "GenericFailure"@,
    {
        let identity_info = match key_info.identity_info {
            Some(ii) => ii,
            None => {
                return Err("GenericFailure".to_owned());
            },
        };
        let content_prekey = match key_info.content_prekey {
            Some(cp) => cp,
            None => {
                return Err("GenericFailure".to_owned());
            },
        };
        let notif_prekey = match key_info.notif_prekey {
            Some(np) => np,
            None => {
                return Err("GenericFailure".to_owned());
            },
        };
        Ok(
            InboundKeyInfoResponse {
                payload: identity_info.payload,
                payload_signature: identity_info.payload_signature,
                social_proof: identity_info.social_proof,
                content_prekey: content_prekey.pre_key,
                content_prekey_signature: content_prekey.pre_key_signature,
                notif_prekey: notif_prekey.pre_key,
                notif_prekey_signature: notif_prekey.pre_key_signature,
            },
        )
    }
}

/// Where the identity service listens; configurable, with a local
/// default.
pub struct IdentityServiceConfig {
    pub identity_socket_addr: String,
}

impl Default for IdentityServiceConfig {
    /// The default identity configuration: the local socket address.
    fn default() -> (r: Self)
        ensures
            r.identity_socket_addr@ == "http://[::1]:50054"@,
    {
        IdentityServiceConfig { identity_socket_addr: "http://[::1]:50054".to_owned() }
    }
}

} // verus!
