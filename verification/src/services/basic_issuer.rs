//! The issuer: offers a credential, hands out the bearer token, checks the
//! proof of possession of the holder and signs the credential.
use vstd::prelude::*;
use vstd::string::*;
use crate::clock::{Instant, VALIDITY_SECS};
use crate::data::entities::{interaction, issuing, minions, request};
use crate::errors::{ErrorKind, Errors, Reason};
use crate::json::{lemma_array_view, lemma_object_view, Json, JsonView, Member, MemberView};
use crate::outside::{
    format_rfc3339, jwt_payload, jwt_sign_rs256, now, rfc3339_text, rs256_jwt, url_encode,
    url_encoded,
};
use crate::text::{ct_eq, str_eq};
use crate::types::cred_subject::{
    dataspace_subject_json, identity_subject_json, CredentialSubject4DataSpace,
    CredentialSubject4Identity,
};
use crate::types::host::{localize, localized, HostConfig};
use crate::types::issuing::{
    pre_authorized_grant, AuthServerMetadata, CredentialRequest, DidPossession, GiveVC,
    IssuerMetadata, IssuingToken, VCCredOffer,
};
use crate::types::vc_type::VcType;
use crate::utils::{
    claim_at, get_claim, get_from_opt, has_expired_at, is_active_at, key_refusal, path_texts,
    signed_by_its_key, spec_trim_4_base, token_signer, trim_4_base, validate_token,
};

verus! {

/// What an issuer needs to know of the server it runs in.
pub trait BasicIssuerConfigTrait {
    /// Host name and server port.
    spec fn spec_host_without_protocol(&self) -> Seq<char>;

    /// The address of the server.
    spec fn spec_host(&self) -> Seq<char>;

    /// Whether the server runs in local mode.
    spec fn spec_is_local(&self) -> bool;

    /// The prefix of every endpoint.
    spec fn spec_api_path(&self) -> Seq<char>;

    /// The directory that holds the keys of the authority.
    spec fn spec_keys_path(&self) -> Seq<char>;

    fn get_host_without_protocol(&self) -> (r: String)
        ensures
            r@ == self.spec_host_without_protocol(),
    ;

    fn get_host(&self) -> (r: String)
        ensures
            r@ == self.spec_host(),
    ;

    fn is_local(&self) -> (r: bool)
        ensures
            r == self.spec_is_local(),
    ;

    fn get_api_path(&self) -> (r: String)
        ensures
            r@ == self.spec_api_path(),
    ;

    /// Where the certificate of the authority lies.
    fn get_cert_path(&self) -> (r: String)
        ensures
            r@ == self.spec_keys_path() + "/cert.pem"@,
    ;

    /// Where the private key of the authority lies.
    fn get_priv_key_path(&self) -> (r: String)
        ensures
            r@ == self.spec_keys_path() + "/private_key.pem"@,
    ;

    /// Where the public key of the authority lies.
    fn get_pub_key_path(&self) -> (r: String)
        ensures
            r@ == self.spec_keys_path() + "/public_key.pem"@,
    ;
}

/// The configuration of the issuer.
#[derive(Clone, Debug, PartialEq, Eq)]
pub struct BasicIssuerConfig {
    pub host: HostConfig,
    pub is_local: bool,
    pub keys_path: String,
    pub api_path: String,
}

impl BasicIssuerConfigTrait for BasicIssuerConfig {
    open spec fn spec_host_without_protocol(&self) -> Seq<char> {
        self.host.spec_authority()
    }

    open spec fn spec_host(&self) -> Seq<char> {
        self.host.spec_url()
    }

    open spec fn spec_is_local(&self) -> bool {
        self.is_local
    }

    open spec fn spec_api_path(&self) -> Seq<char> {
        self.api_path@
    }

    open spec fn spec_keys_path(&self) -> Seq<char> {
        self.keys_path@
    }

    fn get_host_without_protocol(&self) -> (r: String) {
        self.host.authority()
    }

    fn get_host(&self) -> (r: String) {
        self.host.url()
    }

    fn is_local(&self) -> (r: bool) {
        self.is_local
    }

    fn get_api_path(&self) -> (r: String) {
        self.api_path.clone()
    }

    fn get_cert_path(&self) -> (r: String) {
        let mut path = self.keys_path.clone();
        path.append("/cert.pem");
        path
    }

    fn get_priv_key_path(&self) -> (r: String) {
        let mut path = self.keys_path.clone();
        path.append("/private_key.pem");
        path
    }

    fn get_pub_key_path(&self) -> (r: String) {
        let mut path = self.keys_path.clone();
        path.append("/public_key.pem");
        path
    }
}

/// The issuer of credentials.
#[derive(Clone, Debug)]
pub struct BasicIssuerService {
    config: BasicIssuerConfig,
}

/// The subject of a credential of the profile `vc_type`, as JSON.
pub open spec fn subject_json(vc_type: VcType, holder: Seq<char>, name: Seq<char>) -> JsonView {
    match vc_type {
        VcType::DataSpaceParticipant => dataspace_subject_json(holder, name),
        VcType::Identity => identity_subject_json(holder, name),
    }
}

/// The credential itself, as JSON: context, types, id, subject, issuer and
/// validity period.
pub open spec fn minted_vc(
    model: issuing::ModelView,
    vc_type: VcType,
    holder: Seq<char>,
    issuer_did: Seq<char>,
    from: Seq<char>,
    until: Seq<char>,
) -> JsonView {
    JsonView::Object(
        seq![
            MemberView {
                name: "@context"@,
                value: JsonView::Array(
                    seq![JsonView::Text("https://www.w3.org/ns/credentials/v2"@)],
                ),
            },
            MemberView {
                name: "type"@,
                value: JsonView::Array(
                    seq![JsonView::Text("VerifiableCredential"@), JsonView::Text(model.vc_type)],
                ),
            },
            MemberView { name: "id"@, value: JsonView::Text(model.credential_id) },
            MemberView {
                name: "credentialSubject"@,
                value: subject_json(vc_type, holder, model.name),
            },
            MemberView {
                name: "issuer"@,
                value: JsonView::Object(
                    seq![
                        MemberView { name: "id"@, value: JsonView::Text(issuer_did) },
                        MemberView { name: "name"@, value: JsonView::Text("RainbowAuthority"@) },
                    ],
                ),
            },
            MemberView { name: "validFrom"@, value: JsonView::Text(from) },
            MemberView { name: "validUntil"@, value: JsonView::Text(until) },
        ],
    )
}

/// The claims of the token that carries a credential: the credential, under `vc`.
pub open spec fn minted_claims(
    model: issuing::ModelView,
    vc_type: VcType,
    holder: Seq<char>,
    issuer_did: Seq<char>,
    from: Seq<char>,
    until: Seq<char>,
) -> JsonView {
    JsonView::Object(
        seq![
            MemberView {
                name: "vc"@,
                value: minted_vc(model, vc_type, holder, issuer_did, from, until),
            },
        ],
    )
}

/// What issuing gives for a record, the DID and key of the authority and the
/// time: the credential already stored, else the token signed over the claims
/// minted for the holder bound to the record, valid from `at` for 365 days,
/// else the first reason why none can be made.
pub open spec fn spec_issue(model: issuing::ModelView, did: Seq<char>, pem: Seq<char>, at: Instant) -> Result<
    Seq<char>,
    Reason,
> {
    if model.credential.is_some() {
        Ok(model.credential.unwrap())
    } else {
        match VcType::spec_from(model.vc_type) {
            None => Err(Reason::UnknownVcType),
            Some(vc_type) => match model.did {
                None => Err(Reason::MissingField),
                Some(holder) => if at.secs + VALIDITY_SECS > i64::MAX {
                    Err(Reason::InvalidDate)
                } else {
                    match (
                        rfc3339_text(at.secs, at.nanos),
                        rfc3339_text((at.secs + VALIDITY_SECS) as i64, at.nanos),
                    ) {
                        (Some(from), Some(until)) => match rs256_jwt(
                            did,
                            minted_claims(model, vc_type, holder, did, from, until),
                            pem,
                        ) {
                            Some(jwt) => Ok(jwt),
                            None => Err(Reason::SigningFailed),
                        },
                        _ => Err(Reason::InvalidDate),
                    }
                },
            },
        }
    }
}

/// The unsigned integer under `key`, or why there is none.
pub open spec fn number_at(claims: JsonView, key: Seq<char>) -> Result<u64, Reason> {
    match claims.get(key) {
        None => Err(Reason::MissingField),
        Some(node) => match node.unsigned() {
            Some(value) => Ok(value),
            None => Err(Reason::NotANumber),
        },
    }
}

/// What the claims of a proof of possession say, or the first claim that
/// cannot be read.
pub open spec fn possession_of(claims: JsonView) -> Result<(Seq<char>, Seq<char>, u64, u64), Reason> {
    match claim_at(claims, seq!["iss"@]) {
        Err(why) => Err(why),
        Ok(iss) => match claim_at(claims, seq!["sub"@]) {
            Err(why) => Err(why),
            Ok(sub) => match number_at(claims, "iat"@) {
                Err(why) => Err(why),
                Ok(iat) => match number_at(claims, "exp"@) {
                    Err(why) => Err(why),
                    Ok(exp) => Ok((iss, sub, iat, exp)),
                },
            },
        },
    }
}

/// What is asked of a proof of possession signed by `kid`, at `at`: its claims
/// must be readable, issuer, subject and key id must be one DID, and `at` must
/// lie between `iat` and `exp`. Unreadable claims fail in the class
/// `Security`, the rest in the class `Forbidden`.
pub open spec fn possession_verdict(claims: JsonView, kid: Seq<char>, at: Instant) -> Option<
    (ErrorKind, Reason),
> {
    match possession_of(claims) {
        Err(why) => Some((ErrorKind::Security, why)),
        Ok((iss, sub, iat, exp)) => if iss != sub || sub != kid {
            Some((ErrorKind::Forbidden, Reason::PossessionMismatch))
        } else if at.secs < iat {
            Some((ErrorKind::Forbidden, Reason::NotYetValid))
        } else if at.secs > exp {
            Some((ErrorKind::Forbidden, Reason::Expired))
        } else {
            None
        },
    }
}

/// The proof-of-possession token `proof` is signed by the key of its DID,
/// and its claims are a proof of possession by that DID that is in force at
/// some instant that is not before 1970.
pub open spec fn possession_proved(proof: Seq<char>) -> bool {
    &&& signed_by_its_key(proof)
    &&& token_signer(proof) matches Some(did)
    &&& jwt_payload(proof) matches Some(claims)
    &&& exists|at: Instant|
        at.secs >= 0 && (#[trigger] possession_verdict(claims, did, at)).is_none()
}

/// The proof-of-possession token `proof` is signed by the key of its DID,
/// and its claims fail as a proof of possession by that DID at some instant
/// that is not before 1970, in the class `kind` and for the reason `why`.
pub open spec fn possession_refused(proof: Seq<char>, kind: ErrorKind, why: Reason) -> bool {
    &&& signed_by_its_key(proof)
    &&& token_signer(proof) matches Some(did)
    &&& jwt_payload(proof) matches Some(claims)
    &&& exists|at: Instant|
        at.secs >= 0 && #[trigger] possession_verdict(claims, did, at) == Some((kind, why))
}

/// What the proof of a credential request is refused with: where it is
/// refused for what it says of its key, `BadFormat` and the reason that
/// `key_refusal` gives; else `Security` and `InvalidSignature` where the token
/// library does not accept it, or what its claims fail for as a proof of
/// possession.
pub open spec fn proof_refused(proof: Seq<char>, kind: ErrorKind, why: Reason) -> bool {
    match key_refusal(proof) {
        Some(reason) => kind == ErrorKind::BadFormat && why == reason,
        None => (kind == ErrorKind::Security && why == Reason::InvalidSignature)
            || possession_refused(proof, kind, why),
    }
}

/// The outcome of a check: it passes, or it fails in the class and for the
/// reason given.
pub open spec fn refused_as(r: Result<(), Errors>, verdict: Option<(ErrorKind, Reason)>) -> bool {
    match verdict {
        None => r.is_ok(),
        Some((kind, why)) => r matches Err(e) && e.kind == kind && e.reason == why
            && e.http_code.is_none(),
    }
}

/// The unsigned integer under `key`; a failure is of the class `Security`.
fn number(claims: &Json, key: &str) -> (r: Result<u64, Errors>)
    ensures
        match r {
            Ok(value) => number_at(claims@, key@) == Ok::<u64, Reason>(value),
            Err(e) => e.kind == ErrorKind::Security && e.http_code.is_none() && number_at(
                claims@,
                key@,
            ) == Err::<u64, Reason>(e.reason),
        },
{
    match claims.get(key) {
        Some(node) => match node.as_unsigned() {
            Some(value) => Ok(value),
            None => Err(Errors::security_new(Reason::NotANumber, key)),
        },
        None => Err(Errors::security_new(Reason::MissingField, key)),
    }
}

/// The string under `key`; a failure is of the class `Security`.
fn string(claims: &Json, key: &str) -> (r: Result<String, Errors>)
    ensures
        match r {
            Ok(value) => claim_at(claims@, seq![key@]) == Ok::<Seq<char>, Reason>(value@),
            Err(e) => e.kind == ErrorKind::Security && e.http_code.is_none() && claim_at(
                claims@,
                seq![key@],
            ) == Err::<Seq<char>, Reason>(e.reason),
        },
{
    let path = vec![key];
    assert(path_texts(path@) =~= seq![key@]);
    match get_claim(claims, path) {
        Ok(value) => Ok(value),
        Err(e) => Err(e.into_security()),
    }
}

impl DidPossession {
    /// The claims of a proof of possession: `iss` and `sub` as strings, `iat`
    /// and `exp` as unsigned integers. A claim that is absent or of another
    /// kind fails in the class `Security`.
    pub fn from_claims(claims: &Json) -> (r: Result<DidPossession, Errors>)
        ensures
            match r {
                Ok(p) => possession_of(claims@) == Ok::<(Seq<char>, Seq<char>, u64, u64), Reason>(
                    (p.iss@, p.sub@, p.iat, p.exp),
                ),
                Err(e) => e.kind == ErrorKind::Security && e.http_code.is_none() && possession_of(
                    claims@,
                ) == Err::<(Seq<char>, Seq<char>, u64, u64), Reason>(e.reason),
            },
    {
        let iss = string(claims, "iss")?;
        let sub = string(claims, "sub")?;
        let iat = number(claims, "iat")?;
        let exp = number(claims, "exp")?;
        Ok(DidPossession { iss, sub, iat, exp })
    }
}

/// What an issuer does.
pub trait IssuerTrait {
    /// The address of the issuer: host, API prefix and `/issuer`, localized.
    spec fn spec_issuer_url(&self) -> Seq<char>;

    /// The credential offer URI of the ceremony `id`.
    spec fn spec_issuing_uri(&self, id: Seq<char>) -> Seq<char>;

    /// A new issuing for a request whose issuing URI is minted: it takes id,
    /// name and type from the request, and proofs of possession must be
    /// addressed to the issuer.
    fn start_vci(&self, model: &request::Model) -> (r: issuing::NewModel)
        requires
            model.vc_uri.is_some(),
        ensures
            r@ == (issuing::NewModelView {
                id: model@.id,
                name: model@.participant_slug,
                vc_type: model@.vc_type,
                uri: model@.vc_uri.unwrap(),
                aud: self.spec_issuer_url(),
            }),
    ;

    /// The credential offer URI of the ceremony `id`: it names the issuer
    /// and, percent-encoded, the URL at which the offer is fetched.
    fn generate_issuing_uri(&self, id: &str) -> (r: String)
        ensures
            r@ == self.spec_issuing_uri(id@),
    ;

    /// The credential offer of an issuing: the transaction code while the
    /// offer has not been fetched, the pre-authorized code afterwards. An
    /// issuing of an unknown type is refused as `BadFormat`.
    fn get_cred_offer_data(&self, model: &issuing::Model) -> (r: Result<VCCredOffer, Errors>)
        ensures
            match r {
                Ok(offer) => {
                    &&& VcType::spec_from(model@.vc_type) matches Some(vc_type)
                    &&& offer.credential_issuer@ == self.spec_issuer_url()
                    &&& offer.credential_configuration_ids@.len() == 1
                    &&& offer.credential_configuration_ids@[0]@ == vc_type.spec_conf()
                    &&& offer.pre_authorized_code@ == if model.step {
                        model@.tx_code
                    } else {
                        model@.pre_auth_code
                    }
                },
                Err(e) => VcType::spec_from(model@.vc_type).is_none() && e.kind
                    == ErrorKind::BadFormat && e.reason == Reason::UnknownVcType
                    && e.http_code.is_none(),
            },
    ;

    /// What the issuer says of itself.
    fn get_issuer_data(&self) -> (r: IssuerMetadata)
        ensures
            r.credential_issuer@ == self.spec_issuer_url(),
            r.authorization_servers@.len() == 1,
            r.authorization_servers@[0]@ == self.spec_issuer_url(),
            r.credential_endpoint@ == self.spec_issuer_url() + "/credential"@,
            r.jwks_uri@ == self.spec_issuer_url() + "/jwks"@,
            r.credential_configurations_supported@.len() == 2,
            r.credential_configurations_supported@[0].0@
                == "DataspaceParticipantCredential_jwt_vc_json"@,
            r.credential_configurations_supported@[0].1.is_basic(
                "DataspaceParticipantCredential"@,
            ),
            r.credential_configurations_supported@[1].0@ == "IdentityCredential_jwt_vc_json"@,
            r.credential_configurations_supported@[1].1.is_basic("IdentityCredential"@),
    ;

    /// What the authorization server of the issuer says of itself.
    fn get_oauth_server_data(&self) -> (r: AuthServerMetadata)
        ensures
            r.issuer@ == self.spec_issuer_url(),
            r.token_endpoint@ == self.spec_issuer_url() + "/token"@,
            r.jwks_uri@ == self.spec_issuer_url() + "/jwks"@,
            r.grant_types_supported@.len() == 1,
            r.grant_types_supported@[0]@ == pre_authorized_grant(),
    ;

    /// The bearer token of an issuing.
    fn get_token(&self, model: &issuing::Model) -> (r: IssuingToken)
        ensures
            r.access_token@ == model@.token,
            r.token_type@ == "Bearer"@,
            r.expires_in == 3600,
    ;

    /// Both codes of a token request must be those of the issuing. A wrong
    /// transaction code, then a wrong pre-authorized code, is `Forbidden`.
    /// The codes are compared in constant time.
    fn validate_token_req(&self, model: &issuing::Model, tx_code: &str, pre_auth_code: &str) -> (r:
        Result<(), Errors>)
        ensures
            refused_as(
                r,
                if model@.tx_code != tx_code@ {
                    Some((ErrorKind::Forbidden, Reason::TxCodeMismatch))
                } else if model@.pre_auth_code != pre_auth_code@ {
                    Some((ErrorKind::Forbidden, Reason::PreAuthCodeMismatch))
                } else {
                    None
                },
            ),
    ;

    /// The claims of the token that carries the credential of `model` for
    /// `holder`, issued by `did` and valid from `from` until `until`.
    fn vc_claims(
        &self,
        model: &issuing::Model,
        vc_type: VcType,
        holder: &str,
        did: &str,
        from: &str,
        until: &str,
    ) -> (r: Json)
        ensures
            r@ == minted_claims(model@, vc_type, holder@, did@, from@, until@),
    ;

    /// Issues the credential of `model` at `at`, signed by the authority `did`
    /// with the key in `pem`.
    ///
    /// A record that holds a credential already gives that credential back,
    /// verbatim, and nothing is signed. Otherwise the claims are minted for
    /// the holder bound to the record, valid from `at` for 365 days, signed,
    /// and the token is stored on the record. A failure is of the class
    /// `BadFormat` and leaves the record as it was.
    fn issue_cred_at(&self, model: &mut issuing::Model, did: &str, pem: &str, at: &Instant) -> (r:
        Result<GiveVC, Errors>)
        ensures
            match spec_issue(old(model)@, did@, pem@, *at) {
                Ok(jwt) => r matches Ok(vc) && vc.format@ == "jwt_vc_json"@ && vc.credential@ == jwt
                    && final(model)@ == (issuing::ModelView {
                    credential: Some(jwt),
                    ..old(model)@
                }),
                Err(why) => r matches Err(e) && e.kind == ErrorKind::BadFormat && e.reason == why
                    && e.http_code.is_none() && final(model)@ == old(model)@,
            },
    ;

    /// Issues the credential of `model` at the time of the call, signed by
    /// the authority `did` with the key in `pem`: see `issue_cred_at`.
    fn issue_cred(&self, model: &mut issuing::Model, did: &str, pem: &str) -> (r: Result<
        GiveVC,
        Errors,
    >)
        ensures
            exists|at: Instant|
                at.secs >= 0 && match #[trigger] spec_issue(old(model)@, did@, pem@, at) {
                    Ok(jwt) => r matches Ok(vc) && vc.format@ == "jwt_vc_json"@ && vc.credential@
                        == jwt && final(model)@ == (issuing::ModelView {
                        credential: Some(jwt),
                        ..old(model)@
                    }),
                    Err(why) => r matches Err(e) && e.kind == ErrorKind::BadFormat && e.reason
                        == why && e.http_code.is_none() && final(model)@ == old(model)@,
                },
    ;

    /// Checks the claims of a proof of possession that `kid` signed, at `at`.
    fn check_possession(&self, claims: &Json, kid: &str, at: &Instant) -> (r: Result<(), Errors>)
        ensures
            refused_as(r, possession_verdict(claims@, kid@, *at)),
    ;

    /// Validates a credential request made with the bearer token `token`.
    ///
    /// In order: the token must be that of the issuing (`Forbidden`), the
    /// format `jwt_vc_json` and the proof type `jwt` (`BadFormat`), the proof
    /// a valid token addressed to the issuer, and its claims a proof of
    /// possession in force at the time of the call. On success the DID that
    /// signed the proof is bound to the issuing; on failure the issuing is
    /// left as it was. A proof that is refused for what it says of its key
    /// is refused as `BadFormat`; one that names a usable key is accepted
    /// only where its signature holds under that key, and a proof that the
    /// token library accepts is refused exactly where its claims are no
    /// proof of possession.
    fn validate_cred_req(
        &self,
        model: &mut issuing::Model,
        cred_req: &CredentialRequest,
        token: &str,
    ) -> (r: Result<(), Errors>)
        ensures
            match r {
                Ok(_) => {
                    &&& old(model)@.token == token@
                    &&& cred_req.format@ == "jwt_vc_json"@
                    &&& cred_req.proof.proof_type@ == "jwt"@
                    &&& possession_proved(cred_req.proof.jwt@)
                    &&& final(model)@ == (issuing::ModelView {
                        did: token_signer(cred_req.proof.jwt@),
                        ..old(model)@
                    })
                },
                Err(e) => final(model)@ == old(model)@ && e.http_code.is_none() && if old(model)@.token
                    != token@ {
                    e.kind == ErrorKind::Forbidden && e.reason == Reason::BearerMismatch
                } else if cred_req.format@ != "jwt_vc_json"@ {
                    e.kind == ErrorKind::BadFormat && e.reason
                        == Reason::UnsupportedCredentialFormat
                } else if cred_req.proof.proof_type@ != "jwt"@ {
                    e.kind == ErrorKind::BadFormat && e.reason == Reason::UnsupportedProofType
                } else {
                    proof_refused(cred_req.proof.jwt@, e.kind, e.reason)
                },
            },
    ;

    /// Issuer, subject and key id of a proof of possession must be one DID.
    fn validate_did_possession(&self, token: &DidPossession, kid: &str) -> (r: Result<
        (),
        Errors,
    >)
        ensures
            refused_as(
                r,
                if token.iss@ != token.sub@ || token.sub@ != kid@ {
                    Some((ErrorKind::Forbidden, Reason::PossessionMismatch))
                } else {
                    None
                },
            ),
    ;

    /// The lasting record of the holder of an issued credential: keyed by the
    /// DID bound to the issuing, with the name and issuing URI of the request
    /// and scheme and host of the callback of the client. An issuing without
    /// a holder is refused as `BadFormat`.
    fn end(
        &self,
        req_model: &request::Model,
        int_model: &interaction::Model,
        iss_model: &issuing::Model,
    ) -> (r: Result<minions::NewModel, Errors>)
        ensures
            match r {
                Ok(minion) => iss_model@.did.is_some() && minion@ == (minions::NewModelView {
                    participant_id: iss_model@.did.unwrap(),
                    participant_slug: req_model@.participant_slug,
                    participant_type: "Minion"@,
                    base_url: Some(spec_trim_4_base(int_model@.uri)),
                    vc_uri: req_model@.vc_uri,
                    is_vc_issued: false,
                    is_me: false,
                }),
                Err(e) => iss_model@.did.is_none() && e.kind == ErrorKind::BadFormat && e.reason
                    == Reason::MissingField && e.http_code.is_none(),
            },
    ;
}

impl BasicIssuerService {
    pub fn new(config: BasicIssuerConfig) -> (r: BasicIssuerService)
        ensures
            r.config() == config,
    {
        BasicIssuerService { config }
    }

    /// The configuration that the service was made with.
    pub closed spec fn config(&self) -> BasicIssuerConfig {
        self.config
    }

    /// The address of the issuer without its protocol, localized.
    pub open spec fn spec_issuer_authority(&self) -> Seq<char> {
        localized(
            self.config().host.spec_authority() + self.config().api_path@ + "/issuer"@,
            self.config().is_local,
        )
    }

    fn issuer_url(&self) -> (r: String)
        ensures
            r@ == self.spec_issuer_url(),
    {
        let mut url = self.config.get_host();
        url.append(self.config.api_path.as_str());
        url.append("/issuer");
        localize(url, self.config.is_local)
    }
}

impl IssuerTrait for BasicIssuerService {
    open spec fn spec_issuer_url(&self) -> Seq<char> {
        localized(
            self.config().host.spec_url() + self.config().api_path@ + "/issuer"@,
            self.config().is_local,
        )
    }

    open spec fn spec_issuing_uri(&self, id: Seq<char>) -> Seq<char> {
        "openid-credential-offer://"@ + self.spec_issuer_authority() + "/?credential_offer_uri="@
            + url_encoded(self.spec_issuer_url() + "/credentialOffer?id="@ + id)
    }

    fn start_vci(&self, model: &request::Model) -> (r: issuing::NewModel) {
        let uri = match &model.vc_uri {
            Some(uri) => uri.clone(),
            None => String::new(),
        };
        issuing::NewModel {
            id: model.id.clone(),
            name: model.participant_slug.clone(),
            vc_type: model.vc_type.clone(),
            uri,
            aud: self.issuer_url(),
        }
    }

    fn generate_issuing_uri(&self, id: &str) -> (r: String) {
        let mut authority = self.config.get_host_without_protocol();
        authority.append(self.config.api_path.as_str());
        authority.append("/issuer");
        let authority = localize(authority, self.config.is_local);
        let mut offer_url = self.issuer_url();
        offer_url.append("/credentialOffer?id=");
        offer_url.append(id);
        let mut uri = String::from_str("openid-credential-offer://");
        uri.append(authority.as_str());
        uri.append("/?credential_offer_uri=");
        uri.append(url_encode(offer_url.as_str()).as_str());
        uri
    }

    fn get_cred_offer_data(&self, model: &issuing::Model) -> (r: Result<VCCredOffer, Errors>) {
        let issuer = self.issuer_url();
        let vc_type = VcType::from_str(model.vc_type.as_str())?;
        let code = if model.step {
            model.tx_code.clone()
        } else {
            model.pre_auth_code.clone()
        };
        Ok(VCCredOffer::new(issuer, code, vc_type))
    }

    fn get_issuer_data(&self) -> (r: IssuerMetadata) {
        let host = self.issuer_url();
        IssuerMetadata::new(host.as_str())
    }

    fn get_oauth_server_data(&self) -> (r: AuthServerMetadata) {
        let host = self.issuer_url();
        AuthServerMetadata::new(host.as_str())
    }

    fn get_token(&self, model: &issuing::Model) -> (r: IssuingToken) {
        IssuingToken::new(model.token.clone())
    }

    fn validate_token_req(&self, model: &issuing::Model, tx_code: &str, pre_auth_code: &str) -> (r:
        Result<(), Errors>) {
        if !ct_eq(model.tx_code.as_str(), tx_code) {
            return Err(Errors::forbidden_new(Reason::TxCodeMismatch, "tx_code does not match"));
        }
        if !ct_eq(model.pre_auth_code.as_str(), pre_auth_code) {
            return Err(
                Errors::forbidden_new(Reason::PreAuthCodeMismatch, "pre_auth_code does not match"),
            );
        }
        Ok(())
    }

    fn vc_claims(
        &self,
        model: &issuing::Model,
        vc_type: VcType,
        holder: &str,
        did: &str,
        from: &str,
        until: &str,
    ) -> (r: Json) {
        let subject = match vc_type {
            VcType::DataSpaceParticipant => CredentialSubject4DataSpace::new(
                String::from_str(holder),
                model.name.clone(),
            ).to_json(),
            VcType::Identity => CredentialSubject4Identity::new(
                String::from_str(holder),
                model.name.clone(),
            ).to_json(),
        };
        assert(subject@ == subject_json(vc_type, holder@, model@.name));

        let mut context: Vec<Json> = Vec::new();
        context.push(Json::text("https://www.w3.org/ns/credentials/v2"));
        let context = Json::Array(context);
        proof {
            lemma_array_view(context);
            assert(context@->Array_0 =~= seq![
                JsonView::Text("https://www.w3.org/ns/credentials/v2"@),
            ]);
        }

        let mut types: Vec<Json> = Vec::new();
        types.push(Json::text("VerifiableCredential"));
        types.push(Json::text(model.vc_type.as_str()));
        let types = Json::Array(types);
        proof {
            lemma_array_view(types);
            assert(types@->Array_0 =~= seq![
                JsonView::Text("VerifiableCredential"@),
                JsonView::Text(model@.vc_type),
            ]);
        }

        let mut issuer: Vec<Member> = Vec::new();
        issuer.push(Member::new("id", Json::text(did)));
        issuer.push(Member::new("name", Json::text("RainbowAuthority")));
        let issuer = Json::Object(issuer);
        proof {
            lemma_object_view(issuer);
            assert(issuer@->Object_0 =~= seq![
                MemberView { name: "id"@, value: JsonView::Text(did@) },
                MemberView { name: "name"@, value: JsonView::Text("RainbowAuthority"@) },
            ]);
        }

        let mut vc: Vec<Member> = Vec::new();
        vc.push(Member::new("@context", context));
        vc.push(Member::new("type", types));
        vc.push(Member::new("id", Json::text(model.credential_id.as_str())));
        vc.push(Member::new("credentialSubject", subject));
        vc.push(Member::new("issuer", issuer));
        vc.push(Member::new("validFrom", Json::text(from)));
        vc.push(Member::new("validUntil", Json::text(until)));
        let vc = Json::Object(vc);
        proof {
            lemma_object_view(vc);
            assert(vc@->Object_0 =~= minted_vc(
                model@,
                vc_type,
                holder@,
                did@,
                from@,
                until@,
            )->Object_0);
        }

        let mut claims: Vec<Member> = Vec::new();
        claims.push(Member::new("vc", vc));
        let claims = Json::Object(claims);
        proof {
            lemma_object_view(claims);
            assert(claims@->Object_0 =~= minted_claims(
                model@,
                vc_type,
                holder@,
                did@,
                from@,
                until@,
            )->Object_0);
        }
        claims
    }

    fn issue_cred_at(&self, model: &mut issuing::Model, did: &str, pem: &str, at: &Instant) -> (r:
        Result<GiveVC, Errors>) {
        match &model.credential {
            Some(stored) => {
                return Ok(
                    GiveVC { format: "jwt_vc_json".to_string(), credential: stored.clone() },
                );
            },
            None => {},
        }
        let vc_type = VcType::from_str(model.vc_type.as_str())?;
        let holder = get_from_opt(&model.did, "did")?;
        let until = match at.plus_validity() {
            Some(until) => until,
            None => {
                return Err(Errors::format_new(Reason::InvalidDate, "validity out of range"));
            },
        };
        let from_text = match format_rfc3339(at) {
            Some(text) => text,
            None => {
                return Err(Errors::format_new(Reason::InvalidDate, "validity out of range"));
            },
        };
        let until_text = match format_rfc3339(&until) {
            Some(text) => text,
            None => {
                return Err(Errors::format_new(Reason::InvalidDate, "validity out of range"));
            },
        };
        let claims = self.vc_claims(
            model,
            vc_type,
            holder.as_str(),
            did,
            from_text.as_str(),
            until_text.as_str(),
        );
        let vc_jwt = match jwt_sign_rs256(did, &claims, pem) {
            Ok(token) => token,
            Err(why) => {
                return Err(Errors::format_new(Reason::SigningFailed, why.as_str()));
            },
        };
        model.credential = Some(vc_jwt.clone());
        Ok(GiveVC { format: "jwt_vc_json".to_string(), credential: vc_jwt })
    }

    fn issue_cred(&self, model: &mut issuing::Model, did: &str, pem: &str) -> (r: Result<
        GiveVC,
        Errors,
    >) {
        let at = now();
        self.issue_cred_at(model, did, pem, &at)
    }

    fn check_possession(&self, claims: &Json, kid: &str, at: &Instant) -> (r: Result<(), Errors>) {
        let possession = DidPossession::from_claims(claims)?;
        self.validate_did_possession(&possession, kid)?;
        is_active_at(possession.iat, at)?;
        has_expired_at(possession.exp, at)
    }

    fn validate_cred_req(
        &self,
        model: &mut issuing::Model,
        cred_req: &CredentialRequest,
        token: &str,
    ) -> (r: Result<(), Errors>) {
        if !ct_eq(model.token.as_str(), token) {
            return Err(Errors::forbidden_new(Reason::BearerMismatch, "token does not match"));
        }
        if !str_eq(cred_req.format.as_str(), "jwt_vc_json") {
            return Err(
                Errors::format_new(
                    Reason::UnsupportedCredentialFormat,
                    cred_req.format.as_str(),
                ),
            );
        }
        if !str_eq(cred_req.proof.proof_type.as_str(), "jwt") {
            return Err(
                Errors::format_new(
                    Reason::UnsupportedProofType,
                    cred_req.proof.proof_type.as_str(),
                ),
            );
        }
        let (claims, kid) = validate_token(cred_req.proof.jwt.as_str(), Some(model.aud.as_str()))?;
        let at = now();
        self.check_possession(&claims, kid.as_str(), &at)?;
        model.did = Some(kid);
        Ok(())
    }

    fn validate_did_possession(&self, token: &DidPossession, kid: &str) -> (r: Result<
        (),
        Errors,
    >) {
        let same_issuer = str_eq(token.iss.as_str(), token.sub.as_str());
        let same_key = str_eq(token.sub.as_str(), kid);
        if !same_issuer || !same_key {
            return Err(
                Errors::forbidden_new(
                    Reason::PossessionMismatch,
                    "Invalid proof of did possession",
                ),
            );
        }
        Ok(())
    }

    fn end(
        &self,
        req_model: &request::Model,
        int_model: &interaction::Model,
        iss_model: &issuing::Model,
    ) -> (r: Result<minions::NewModel, Errors>) {
        let did = get_from_opt(&iss_model.did, "did")?;
        let base_url = trim_4_base(int_model.uri.as_str());
        Ok(
            minions::NewModel {
                participant_id: did,
                participant_slug: req_model.participant_slug.clone(),
                participant_type: "Minion".to_string(),
                base_url: Some(base_url),
                vc_uri: crate::text::copy_opt(&req_model.vc_uri),
                is_vc_issued: false,
                is_me: false,
            },
        )
    }
}

} // verus!
