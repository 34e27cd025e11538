//! What the issuer exchanges with wallets.
use vstd::prelude::*;
use vstd::string::*;
use crate::types::cred_config::CredentialConfiguration;
use crate::types::vc_type::VcType;

verus! {

/// The grant type of the pre-authorized code flow.
pub open spec fn pre_authorized_grant() -> Seq<char> {
    "urn:ietf:params:oauth:grant-type:pre-authorized_code"@
}

/// A credential offer: who issues, which configuration, and the
/// pre-authorized code of the grant.
#[derive(Clone, Debug, PartialEq, Eq)]
pub struct VCCredOffer {
    pub credential_issuer: String,
    pub credential_configuration_ids: Vec<String>,
    pub pre_authorized_code: String,
}

impl VCCredOffer {
    /// The offer of `issuer` for one credential of the profile `vc_type`,
    /// redeemed with `code`.
    pub fn new(issuer: String, code: String, vc_type: VcType) -> (r: VCCredOffer)
        ensures
            r.credential_issuer == issuer,
            r.credential_configuration_ids@.len() == 1,
            r.credential_configuration_ids@[0]@ == vc_type.spec_conf(),
            r.pre_authorized_code == code,
    {
        let mut ids: Vec<String> = Vec::new();
        ids.push(vc_type.to_conf());
        VCCredOffer {
            credential_issuer: issuer,
            credential_configuration_ids: ids,
            pre_authorized_code: code,
        }
    }
}

/// What the issuer says of itself.
#[derive(Clone, Debug, PartialEq, Eq)]
pub struct IssuerMetadata {
    pub credential_issuer: String,
    pub authorization_servers: Vec<String>,
    pub credential_endpoint: String,
    pub jwks_uri: String,
    pub credential_configurations_supported: Vec<(String, CredentialConfiguration)>,
}

impl IssuerMetadata {
    /// The metadata of the issuer at `host`: it is its own authorization
    /// server, issues at `/credential`, shows its keys at `/jwks` and supports
    /// the two basic configurations.
    pub fn new(host: &str) -> (r: IssuerMetadata)
        ensures
            r.credential_issuer@ == host@,
            r.authorization_servers@.len() == 1,
            r.authorization_servers@[0]@ == host@,
            r.credential_endpoint@ == host@ + "/credential"@,
            r.jwks_uri@ == host@ + "/jwks"@,
            r.credential_configurations_supported@.len() == 2,
            r.credential_configurations_supported@[0].0@
                == "DataspaceParticipantCredential_jwt_vc_json"@,
            r.credential_configurations_supported@[0].1.is_basic(
                "DataspaceParticipantCredential"@,
            ),
            r.credential_configurations_supported@[1].0@ == "IdentityCredential_jwt_vc_json"@,
            r.credential_configurations_supported@[1].1.is_basic("IdentityCredential"@),
    {
        let mut servers: Vec<String> = Vec::new();
        servers.push(String::from_str(host));
        let mut credential_endpoint = String::from_str(host);
        credential_endpoint.append("/credential");
        let mut jwks_uri = String::from_str(host);
        jwks_uri.append("/jwks");
        IssuerMetadata {
            credential_issuer: String::from_str(host),
            authorization_servers: servers,
            credential_endpoint,
            jwks_uri,
            credential_configurations_supported: CredentialConfiguration::basic(),
        }
    }
}

/// What the authorization server of the issuer says of itself.
#[derive(Clone, Debug, PartialEq, Eq)]
pub struct AuthServerMetadata {
    pub issuer: String,
    pub token_endpoint: String,
    pub jwks_uri: String,
    pub grant_types_supported: Vec<String>,
}

impl AuthServerMetadata {
    /// The metadata of the authorization server at `host`: tokens at `/token`,
    /// keys at `/jwks`, and the pre-authorized code as its one grant type.
    pub fn new(host: &str) -> (r: AuthServerMetadata)
        ensures
            r.issuer@ == host@,
            r.token_endpoint@ == host@ + "/token"@,
            r.jwks_uri@ == host@ + "/jwks"@,
            r.grant_types_supported@.len() == 1,
            r.grant_types_supported@[0]@ == pre_authorized_grant(),
    {
        let mut token_endpoint = String::from_str(host);
        token_endpoint.append("/token");
        let mut jwks_uri = String::from_str(host);
        jwks_uri.append("/jwks");
        let mut grants: Vec<String> = Vec::new();
        grants.push("urn:ietf:params:oauth:grant-type:pre-authorized_code".to_string());
        AuthServerMetadata {
            issuer: String::from_str(host),
            token_endpoint,
            jwks_uri,
            grant_types_supported: grants,
        }
    }
}

/// The answer of the token endpoint.
#[derive(Clone, Debug, PartialEq, Eq)]
pub struct IssuingToken {
    pub access_token: String,
    pub token_type: String,
    pub expires_in: u32,
}

impl IssuingToken {
    /// The bearer token `token`, good for an hour.
    pub fn new(token: String) -> (r: IssuingToken)
        ensures
            r.access_token == token,
            r.token_type@ == "Bearer"@,
            r.expires_in == 3600,
    {
        IssuingToken { access_token: token, token_type: "Bearer".to_string(), expires_in: 3600 }
    }
}

/// A credential as it is delivered.
#[derive(Clone, Debug, PartialEq, Eq)]
pub struct GiveVC {
    pub format: String,
    pub credential: String,
}

/// The proof that comes with a credential request.
#[derive(Clone, Debug, PartialEq, Eq)]
pub struct Proof {
    pub proof_type: String,
    pub jwt: String,
}

/// A credential request.
#[derive(Clone, Debug, PartialEq, Eq)]
pub struct CredentialRequest {
    pub format: String,
    pub proof: Proof,
}

/// The claims of a proof of possession of a DID.
#[derive(Clone, Debug, PartialEq, Eq)]
pub struct DidPossession {
    pub iss: String,
    pub sub: String,
    pub iat: u64,
    pub exp: u64,
}

/// A token request of the pre-authorized code flow.
#[derive(Clone, Debug, PartialEq, Eq)]
pub struct TokenRequest {
    pub tx_code: String,
    pub pre_authorized_code: String,
}

} // verus!
