//! The verifier: asks a wallet for a presentation and checks what comes back,
//! claim by claim, in a fixed order that stops at the first failure.
use vstd::prelude::*;
use vstd::string::*;
use crate::clock::Instant;
use crate::data::entities::verification;
use crate::errors::{ErrorKind, Errors, Reason};
use crate::json::{Json, JsonView};
use crate::outside::{
    jwt_payload, now, parse_rfc3339, rfc3339_instant, url_encode, url_encoded,
};
use crate::text::{has_prefix, opt_text, str_eq, texts};
use crate::types::host::{localize, localized, HostConfig};
use crate::types::vc_type::VcType;
use crate::types::vcs::VPDef;
use crate::utils::{
    claim_at, get_claim, get_opt_claim, key_refusal, opt_claim_at, path_texts, signed_by_its_key,
    token_signer, validate_token,
};

verus! {

/// What the verifier needs to know of the server it runs in.
#[derive(Clone, Debug, PartialEq, Eq)]
pub struct BasicVerifierConfig {
    pub host: HostConfig,
    pub is_local: bool,
    pub api_path: String,
}

impl BasicVerifierConfig {
    /// The address of the server.
    pub fn get_host(&self) -> (r: String)
        ensures
            r@ == self.host.spec_url(),
    {
        self.host.url()
    }

    /// Whether the server runs in local mode.
    pub fn is_local(&self) -> (r: bool)
        ensures
            r == self.is_local,
    {
        self.is_local
    }

    /// The prefix of every endpoint.
    pub fn get_api_path(&self) -> (r: String)
        ensures
            r@ == self.api_path@,
    {
        self.api_path.clone()
    }
}

/// The verifier of presentations.
#[derive(Clone, Debug)]
pub struct BasicVerifierService {
    config: BasicVerifierConfig,
}

/// What every URI that asks a wallet for a presentation begins with.
pub open spec fn authorize_scheme() -> Seq<char> {
    "openid4vp://authorize?"@
}

/// The outcome of a check: it passes, or it fails in the class `Security` for
/// the reason given.
pub open spec fn fails_with(r: Result<(), Errors>, verdict: Option<Reason>) -> bool {
    match verdict {
        None => r.is_ok(),
        Some(why) => r matches Err(e) && e.kind == ErrorKind::Security && e.reason == why
            && e.http_code.is_none(),
    }
}

/// The nonce of the presentation is the one that was sent.
pub open spec fn nonce_verdict(nonce: Seq<char>, claims: JsonView) -> Option<Reason> {
    match claim_at(claims, seq!["nonce"@]) {
        Err(why) => Some(why),
        Ok(found) => if found != nonce {
            Some(Reason::NonceMismatch)
        } else {
            None
        },
    }
}

/// `sub` and `iss` of the presentation, where present, are the key id.
pub open spec fn vp_subject_verdict(claims: JsonView, kid: Seq<char>) -> Option<Reason> {
    match opt_claim_at(claims, seq!["sub"@]) {
        Err(why) => Some(why),
        Ok(sub) => match opt_claim_at(claims, seq!["iss"@]) {
            Err(why) => Some(why),
            Ok(iss) => if sub.is_some() && sub.unwrap() != kid {
                Some(Reason::SubjectMismatch)
            } else if iss.is_some() && iss.unwrap() != kid {
                Some(Reason::IssuerMismatch)
            } else {
                None
            },
        },
    }
}

/// The id of the presentation is the ceremony id.
pub open spec fn vp_id_verdict(id: Seq<char>, claims: JsonView) -> Option<Reason> {
    match claim_at(claims, seq!["vp"@, "id"@]) {
        Err(why) => Some(why),
        Ok(found) => if found != id {
            Some(Reason::PresentationIdMismatch)
        } else {
            None
        },
    }
}

/// The holder named in the presentation is the verified holder.
pub open spec fn holder_verdict(holder: Option<Seq<char>>, claims: JsonView) -> Option<Reason> {
    match claim_at(claims, seq!["vp"@, "holder"@]) {
        Err(why) => Some(why),
        Ok(found) => if holder != Some(found) {
            Some(Reason::HolderMismatch)
        } else {
            None
        },
    }
}

/// The credentials that a presentation carries, as the list of their tokens.
pub open spec fn credentials_of(claims: JsonView) -> Result<Seq<Seq<char>>, Reason> {
    match claims.at(seq!["vp"@, "verifiableCredential"@]) {
        Some(node) => match node.text_list() {
            Some(list) => Ok(list),
            None => Err(Reason::NotAList),
        },
        None => Err(Reason::NotAList),
    }
}

/// The checks that bind a presentation to the exchange and to its signer: the
/// nonce, then `sub` and `iss`.
pub open spec fn vp_binding_verdict(nonce: Seq<char>, claims: JsonView, kid: Seq<char>) -> Option<
    Reason,
> {
    match nonce_verdict(nonce, claims) {
        Some(why) => Some(why),
        None => vp_subject_verdict(claims, kid),
    }
}

/// The whole check of the claims of a presentation signed by `kid`: the
/// credentials it carries, or the first check that fails.
pub open spec fn vp_verdict(model: verification::ModelView, claims: JsonView, kid: Seq<char>) -> Result<
    Seq<Seq<char>>,
    Reason,
> {
    match vp_binding_verdict(model.nonce, claims, kid) {
        Some(why) => Err(why),
        None => match vp_id_verdict(model.id, claims) {
            Some(why) => Err(why),
            None => match holder_verdict(Some(kid), claims) {
                Some(why) => Err(why),
                None => credentials_of(claims),
            },
        },
    }
}

/// `iss`, where present, and the id of the issuer of the credential are the key id.
pub open spec fn issuer_verdict(claims: JsonView, kid: Seq<char>) -> Option<Reason> {
    match opt_claim_at(claims, seq!["iss"@]) {
        Err(why) => Some(why),
        Ok(iss) => match claim_at(claims, seq!["vc"@, "issuer"@, "id"@]) {
            Err(why) => Some(why),
            Ok(issuer_id) => if iss.is_some() && iss.unwrap() != kid {
                Some(Reason::IssuerMismatch)
            } else if issuer_id != kid {
                Some(Reason::IssuerMismatch)
            } else {
                None
            },
        },
    }
}

/// The id of the credential is `jti`, where both are present.
pub open spec fn vc_id_verdict(claims: JsonView) -> Option<Reason> {
    match opt_claim_at(claims, seq!["vc"@, "id"@]) {
        Err(why) => Some(why),
        Ok(vc_id) => match opt_claim_at(claims, seq!["jti"@]) {
            Err(why) => Some(why),
            Ok(jti) => if vc_id.is_some() && jti.is_some() && vc_id.unwrap() != jti.unwrap() {
                Some(Reason::CredentialIdMismatch)
            } else {
                None
            },
        },
    }
}

/// `sub`, where present, and the id of the subject of the credential are the holder.
pub open spec fn vc_sub_verdict(claims: JsonView, holder: Seq<char>) -> Option<Reason> {
    match opt_claim_at(claims, seq!["sub"@]) {
        Err(why) => Some(why),
        Ok(sub) => match claim_at(claims, seq!["vc"@, "CredentialSubject"@, "id"@]) {
            Err(why) => Some(why),
            Ok(subject_id) => if sub.is_some() && sub.unwrap() != holder {
                Some(Reason::CredentialSubjectMismatch)
            } else if subject_id != holder {
                Some(Reason::CredentialSubjectMismatch)
            } else {
                None
            },
        },
    }
}

/// The credential has begun to be valid at `at`: `validFrom`, where present,
/// is an RFC 3339 instant that is not after `at`.
pub open spec fn valid_from_verdict(claims: JsonView, at: Instant) -> Option<Reason> {
    match opt_claim_at(claims, seq!["vc"@, "validFrom"@]) {
        Err(why) => Some(why),
        Ok(None) => None,
        Ok(Some(text)) => match rfc3339_instant(text) {
            None => Some(Reason::InvalidDate),
            Some(from) => if from.not_after(at) {
                None
            } else {
                Some(Reason::NotYetValid)
            },
        },
    }
}

/// The credential is still valid at `at`: `validUntil`, where present, is an
/// RFC 3339 instant that is not before `at`.
pub open spec fn valid_until_verdict(claims: JsonView, at: Instant) -> Option<Reason> {
    match opt_claim_at(claims, seq!["vc"@, "validUntil"@]) {
        Err(why) => Some(why),
        Ok(None) => None,
        Ok(Some(text)) => match rfc3339_instant(text) {
            None => Some(Reason::InvalidDate),
            Some(until) => if at.not_after(until) {
                None
            } else {
                Some(Reason::Expired)
            },
        },
    }
}

/// The whole check of the claims of a credential signed by `kid` and shown by
/// `holder` at `at`: the first check that fails, if any.
pub open spec fn vc_verdict(claims: JsonView, kid: Seq<char>, holder: Seq<char>, at: Instant) -> Option<
    Reason,
> {
    match issuer_verdict(claims, kid) {
        Some(why) => Some(why),
        None => match vc_id_verdict(claims) {
            Some(why) => Some(why),
            None => match vc_sub_verdict(claims, holder) {
                Some(why) => Some(why),
                None => match valid_from_verdict(claims, at) {
                    Some(why) => Some(why),
                    None => valid_until_verdict(claims, at),
                },
            },
        },
    }
}

/// The reason for which `token` is refused as a token, before its claims
/// are looked at: what `key_refusal` gives where it gives a reason, and
/// `InvalidSignature` for a token whose key can be used and which the token
/// library does not accept.
pub open spec fn token_refused(token: Seq<char>, why: Reason) -> bool {
    match key_refusal(token) {
        Some(reason) => why == reason,
        None => why == Reason::InvalidSignature,
    }
}

/// The token of a credential is signed by the key of its DID, and its
/// claims pass every check for the holder `holder` at some instant that is
/// not before 1970.
pub open spec fn credential_passes(token: Seq<char>, holder: Seq<char>) -> bool {
    &&& signed_by_its_key(token)
    &&& token_signer(token) matches Some(did)
    &&& jwt_payload(token) matches Some(claims)
    &&& exists|at: Instant| at.secs >= 0 && (#[trigger] vc_verdict(claims, did, holder, at)).is_none()
}

/// The token of a credential is signed by the key of its DID, and its
/// claims fail for the holder `holder` at some instant that is not before
/// 1970, first for the reason `why`.
pub open spec fn credential_fails(token: Seq<char>, holder: Seq<char>, why: Reason) -> bool {
    &&& signed_by_its_key(token)
    &&& token_signer(token) matches Some(did)
    &&& jwt_payload(token) matches Some(claims)
    &&& exists|at: Instant|
        at.secs >= 0 && #[trigger] vc_verdict(claims, did, holder, at) == Some(why)
}

/// The token of a credential is refused for the reason `why`: as a token, or
/// for the first check that its claims fail.
pub open spec fn credential_refused(token: Seq<char>, holder: Seq<char>, why: Reason) -> bool {
    token_refused(token, why) || credential_fails(token, holder, why)
}

/// What the claims of the presentation token `vp_token` give for the
/// verification `model`: the credentials it carries, or the first check that
/// fails. Nothing where the token names no key or its payload cannot be read.
pub open spec fn presentation_verdict(model: verification::ModelView, vp_token: Seq<char>) -> Option<
    Result<Seq<Seq<char>>, Reason>,
> {
    match (token_signer(vp_token), jwt_payload(vp_token)) {
        (Some(did), Some(claims)) => Some(vp_verdict(model, claims, did)),
        _ => None,
    }
}

/// The holder of the verification `model` once the claims of the
/// presentation token `vp_token` have been looked at: the DID that signed the
/// token where the nonce, `sub` and `iss` pass, and the holder that the
/// verification had where one of them fails.
pub open spec fn bound_holder(model: verification::ModelView, vp_token: Seq<char>) -> Option<
    Seq<char>,
> {
    match (token_signer(vp_token), jwt_payload(vp_token)) {
        (Some(did), Some(claims)) => if vp_binding_verdict(model.nonce, claims, did).is_none() {
            Some(did)
        } else {
            model.holder
        },
        _ => model.holder,
    }
}

/// The presentation token `vp_token` is refused for the verification `model`
/// for the reason `why`, which leaves the verification with the holder
/// `holder`: as a token, and the holder is the one that the verification
/// had; or, signed by the key of its DID, for the first check that its
/// claims fail, and the holder is the one that the binding checks leave.
pub open spec fn presentation_refused(
    model: verification::ModelView,
    holder: Option<Seq<char>>,
    vp_token: Seq<char>,
    why: Reason,
) -> bool {
    ||| token_refused(vp_token, why) && holder == model.holder
    ||| signed_by_its_key(vp_token) && presentation_verdict(model, vp_token) == Some(
        Err::<Seq<Seq<char>>, Reason>(why),
    ) && holder == bound_holder(model, vp_token)
}

/// The credential at `at` of `list` is the first that is refused, for the
/// reason `why`: every credential before it passes.
pub open spec fn first_refused(list: Seq<Seq<char>>, holder: Seq<char>, at: int, why: Reason) -> bool {
    &&& 0 <= at < list.len()
    &&& forall|j: int| 0 <= j < at ==> #[trigger] credential_passes(list[j], holder)
    &&& credential_refused(list[at], holder, why)
}

/// The presentation token `vp_token` is signed by the key of its DID and
/// passes every check of its claims for the verification `model`, and so
/// does every credential that it carries.
pub open spec fn presentation_passes(model: verification::ModelView, vp_token: Seq<char>) -> bool {
    &&& signed_by_its_key(vp_token)
    &&& token_signer(vp_token) matches Some(did)
    &&& presentation_verdict(model, vp_token) matches Some(Ok(list))
    &&& forall|i: int| 0 <= i < list.len() ==> #[trigger] credential_passes(list[i], did)
}

/// What the verification of the presentation token `vp_token` gives for a
/// verification that held `before` and holds `after`: the token is stored
/// whatever follows, and nothing else changes but the holder. It succeeds
/// only where the presentation passes, and the holder is then its signer. A
/// failure is of the class `Security`: the presentation is refused, with the
/// holder that this leaves, or it passes its own checks, its signer is the
/// holder, and one of its credentials is the first to be refused.
pub open spec fn verified_as(
    before: verification::ModelView,
    after: verification::ModelView,
    vp_token: Seq<char>,
    r: Result<(), Errors>,
) -> bool {
    &&& after == (verification::ModelView { vpt: Some(vp_token), holder: after.holder, ..before })
    &&& match r {
        Ok(_) => presentation_passes(before, vp_token) && after.holder == token_signer(vp_token),
        Err(e) => {
            &&& e.kind == ErrorKind::Security
            &&& e.http_code.is_none()
            &&& {
                ||| presentation_refused(before, after.holder, vp_token, e.reason)
                ||| {
                    &&& signed_by_its_key(vp_token)
                    &&& token_signer(vp_token) matches Some(did)
                    &&& presentation_verdict(before, vp_token) matches Some(Ok(list))
                    &&& after.holder == Some(did)
                    &&& exists|at: int| #[trigger] first_refused(list, did, at, e.reason)
                }
            }
        },
    }
}

/// The string at `path`, which must exist; a failure is of the class `Security`.
fn required(claims: &Json, path: Vec<&str>) -> (r: Result<String, Errors>)
    ensures
        match r {
            Ok(value) => claim_at(claims@, path_texts(path@)) == Ok::<Seq<char>, Reason>(value@),
            Err(e) => e.kind == ErrorKind::Security && e.http_code.is_none() && claim_at(
                claims@,
                path_texts(path@),
            ) == Err::<Seq<char>, Reason>(e.reason),
        },
{
    match get_claim(claims, path) {
        Ok(value) => Ok(value),
        Err(e) => Err(e.into_security()),
    }
}

/// The string at `path`, if the path leads anywhere; a failure is of the class `Security`.
fn optional(claims: &Json, path: Vec<&str>) -> (r: Result<Option<String>, Errors>)
    ensures
        match r {
            Ok(value) => opt_claim_at(claims@, path_texts(path@)) == Ok::<Option<Seq<char>>, Reason>(
                opt_text(value),
            ),
            Err(e) => e.kind == ErrorKind::Security && e.http_code.is_none() && opt_claim_at(
                claims@,
                path_texts(path@),
            ) == Err::<Option<Seq<char>>, Reason>(e.reason),
        },
{
    match get_opt_claim(claims, path) {
        Ok(Some(value)) => Ok(Some(value)),
        Ok(None) => Ok(None),
        Err(e) => Err(e.into_security()),
    }
}

/// What a verifier does.
pub trait VerifierTrait {
    /// The URL at which presentations are taken: host, API prefix and
    /// `/verifier/verify`, localized.
    spec fn spec_audience(&self) -> Seq<char>;

    /// The audience that the presentation of the exchange `state` must name.
    spec fn spec_audience_for(&self, state: Seq<char>) -> Seq<char>;

    /// The `openid4vp://` URI that asks a wallet for a presentation.
    spec fn spec_verification_uri(&self, model: verification::ModelView) -> Seq<char>;

    /// The audience that the presentation of the exchange `state` must name:
    /// the URL at which this server takes it.
    fn audience_for(&self, state: &str) -> (r: String)
        ensures
            r@ == self.spec_audience_for(state@),
    ;

    /// A new verification for the ceremony `id`: its audience is the URL at
    /// which this server takes presentations.
    fn start_vp(&self, id: &str, vc_type: VcType) -> (r: Result<verification::NewModel, Errors>)
        ensures
            r matches Ok(new) && new@ == (verification::NewModelView {
                id: id@,
                audience: self.spec_audience(),
                vc_type: vc_type.spec_name(),
            }),
    ;

    /// The `openid4vp://` URI that asks a wallet for a presentation: response
    /// type, client id, response mode, the URI of the presentation definition,
    /// the client id scheme, the nonce and the response URI, every value
    /// percent-encoded.
    fn generate_verification_uri(&self, model: verification::Model) -> (r: String)
        ensures
            r@ == self.spec_verification_uri(model@),
            has_prefix(r@, authorize_scheme()),
    ;

    /// The presentation definition of a verification: one credential of its type.
    fn generate_vpd(&self, ver_model: verification::Model) -> (r: VPDef)
        ensures
            r.id == ver_model.id,
            r.input_descriptors@.len() == 1,
            r.input_descriptors@[0].id@ == ver_model.vc_type@,
            r.input_descriptors@[0].path@ == "$.vc.type"@,
            r.input_descriptors@[0].pattern@ == ver_model.vc_type@,
    ;

    /// Validates the token of a presentation or of a credential and returns
    /// its claims with the DID that signed it. Where `audience` names an
    /// exchange, the token must be addressed to the URL at which this server
    /// takes the presentation of that exchange. Every failure is of the class
    /// `Security`. A token that is refused for what it says of its key is
    /// refused for the reason that `key_refusal` gives, and no other token
    /// is; a token that names a usable key is accepted only where its
    /// signature holds under that key, and is refused with the reason
    /// `InvalidSignature` otherwise.
    fn validate_token(&self, vp_token: &str, audience: Option<&str>) -> (r: Result<
        (Json, String),
        Errors,
    >)
        ensures
            match key_refusal(vp_token@) {
                Some(why) => r matches Err(e) && e.kind == ErrorKind::Security && e.reason == why
                    && e.http_code.is_none(),
                None => match r {
                    Ok((claims, did)) => token_signer(vp_token@) == Some(did@) && jwt_payload(
                        vp_token@,
                    ) == Some(claims@) && signed_by_its_key(vp_token@),
                    Err(e) => e.kind == ErrorKind::Security && e.reason == Reason::InvalidSignature
                        && e.http_code.is_none(),
                },
            },
    ;

    /// The nonce of the presentation must be the one that was sent.
    fn validate_nonce(&self, model: &verification::Model, claims: &Json) -> (r: Result<
        (),
        Errors,
    >)
        ensures
            fails_with(r, nonce_verdict(model@.nonce, claims@)),
    ;

    /// `sub` and `iss` of the presentation, where present, must be the key id;
    /// the key id then becomes the holder of the verification.
    fn validate_vp_subject(
        &self,
        model: &mut verification::Model,
        claims: &Json,
        kid: &str,
    ) -> (r: Result<(), Errors>)
        ensures
            fails_with(r, vp_subject_verdict(claims@, kid@)),
            r.is_ok() ==> final(model)@ == (verification::ModelView {
                holder: Some(kid@),
                ..old(model)@
            }),
            r.is_err() ==> final(model)@ == old(model)@,
    ;

    /// `sub`, where present, and the id of the subject of the credential must
    /// be the holder.
    fn validate_vc_sub(&self, claims: &Json, holder: &str) -> (r: Result<(), Errors>)
        ensures
            fails_with(r, vc_sub_verdict(claims@, holder@)),
    ;

    /// The id of the presentation must be the ceremony id.
    fn validate_vp_id(&self, model: &verification::Model, claims: &Json) -> (r: Result<
        (),
        Errors,
    >)
        ensures
            fails_with(r, vp_id_verdict(model@.id, claims@)),
    ;

    /// The holder named in the presentation must be the holder of the
    /// verification; a verification without holder matches none.
    fn validate_holder(&self, model: &verification::Model, claims: &Json) -> (r: Result<
        (),
        Errors,
    >)
        ensures
            fails_with(r, holder_verdict(model@.holder, claims@)),
    ;

    /// `iss`, where present, and the id of the issuer of the credential must
    /// be the key id.
    fn validate_issuer(&self, claims: &Json, kid: &str) -> (r: Result<(), Errors>)
        ensures
            fails_with(r, issuer_verdict(claims@, kid@)),
    ;

    /// The id of the credential must be `jti`, where both are present.
    fn validate_vc_id(&self, claims: &Json) -> (r: Result<(), Errors>)
        ensures
            fails_with(r, vc_id_verdict(claims@)),
    ;

    /// `validFrom`, where present, must be an RFC 3339 instant that is not after `at`.
    fn validate_valid_from_at(&self, claims: &Json, at: &Instant) -> (r: Result<(), Errors>)
        ensures
            fails_with(r, valid_from_verdict(claims@, *at)),
    ;

    /// `validUntil`, where present, must be an RFC 3339 instant that is not before `at`.
    fn validate_valid_until_at(&self, claims: &Json, at: &Instant) -> (r: Result<(), Errors>)
        ensures
            fails_with(r, valid_until_verdict(claims@, *at)),
    ;

    /// `validFrom`, where present, must not lie after the time of the call.
    fn validate_valid_from(&self, claims: &Json) -> (r: Result<(), Errors>)
        ensures
            exists|at: Instant|
                at.secs >= 0 && fails_with(r, #[trigger] valid_from_verdict(claims@, at)),
    ;

    /// `validUntil`, where present, must not lie before the time of the call.
    fn validate_valid_until(&self, claims: &Json) -> (r: Result<(), Errors>)
        ensures
            exists|at: Instant|
                at.secs >= 0 && fails_with(r, #[trigger] valid_until_verdict(claims@, at)),
    ;

    /// The tokens of the credentials that a presentation carries. A
    /// presentation without a list of strings at `vp.verifiableCredential` is
    /// refused with the reason `NotAList`.
    fn retrieve_vcs(&self, claims: &Json) -> (r: Result<Vec<String>, Errors>)
        ensures
            match r {
                Ok(list) => credentials_of(claims@) == Ok::<Seq<Seq<char>>, Reason>(texts(list@)),
                Err(e) => e.kind == ErrorKind::Security && e.http_code.is_none() && credentials_of(
                    claims@,
                ) == Err::<Seq<Seq<char>>, Reason>(e.reason),
            },
    ;

    /// Checks the claims of a presentation that `kid` signed, in order: the
    /// nonce, `sub` and `iss`, the id, the holder, and the list of
    /// credentials, which it returns. The holder of the verification becomes
    /// `kid` as soon as the nonce, `sub` and `iss` have passed, and stays so
    /// whatever fails later.
    fn check_vp_claims(
        &self,
        model: &mut verification::Model,
        claims: &Json,
        kid: &str,
    ) -> (r: Result<Vec<String>, Errors>)
        ensures
            match r {
                Ok(list) => vp_verdict(old(model)@, claims@, kid@) == Ok::<Seq<Seq<char>>, Reason>(
                    texts(list@),
                ),
                Err(e) => e.kind == ErrorKind::Security && e.http_code.is_none() && vp_verdict(
                    old(model)@,
                    claims@,
                    kid@,
                ) == Err::<Seq<Seq<char>>, Reason>(e.reason),
            },
            final(model)@ == if vp_binding_verdict(old(model)@.nonce, claims@, kid@).is_none() {
                verification::ModelView { holder: Some(kid@), ..old(model)@ }
            } else {
                old(model)@
            },
    ;

    /// Checks the claims of a credential that `kid` signed and `holder` shows
    /// at `at`, in order: the issuer, the id, the subject, the start and the
    /// end of its validity.
    fn check_vc_claims(&self, claims: &Json, kid: &str, holder: &str, at: &Instant) -> (r:
        Result<(), Errors>)
        ensures
            fails_with(r, vc_verdict(claims@, kid@, holder@, *at)),
    ;

    /// Verifies a presentation token: stores it on the verification, validates
    /// its signature and audience, then checks its claims, and returns the
    /// tokens of the credentials it carries with the DID of the holder.
    ///
    /// The token is stored whatever follows, and nothing else changes but
    /// the holder. A token is accepted only where it is signed by the key of
    /// its DID and its claims pass every check; its signer is then the
    /// holder. Every failure is of the class `Security`: a token that is
    /// refused as a token leaves the holder as it was, and one that is
    /// refused for its claims leaves the holder that the checks of the
    /// nonce, `sub` and `iss` leave.
    fn verify_vp(&self, model: &mut verification::Model, vp_token: &str) -> (r: Result<
        (Vec<String>, String),
        Errors,
    >)
        ensures
            final(model)@ == (verification::ModelView {
                vpt: Some(vp_token@),
                holder: final(model)@.holder,
                ..old(model)@
            }),
            match r {
                Ok((list, did)) => signed_by_its_key(vp_token@) && token_signer(vp_token@) == Some(
                    did@,
                ) && final(model)@.holder == Some(did@) && presentation_verdict(
                    old(model)@,
                    vp_token@,
                ) == Some(Ok::<Seq<Seq<char>>, Reason>(texts(list@))),
                Err(e) => e.kind == ErrorKind::Security && e.http_code.is_none()
                    && presentation_refused(
                    old(model)@,
                    final(model)@.holder,
                    vp_token@,
                    e.reason,
                ),
            },
    ;

    /// Verifies the token of one credential shown by `holder`: validates its
    /// signature, then checks its claims at the time of the call. A token is
    /// accepted only where it is signed by the key of its DID and its claims
    /// pass every check. Every failure is of the class `Security`: the token
    /// is refused as a token, or for the first check that its claims fail.
    fn verify_vc(&self, vc_token: &str, holder: &str) -> (r: Result<(), Errors>)
        ensures
            match r {
                Ok(_) => credential_passes(vc_token@, holder@),
                Err(e) => e.kind == ErrorKind::Security && e.http_code.is_none()
                    && credential_refused(vc_token@, holder@, e.reason),
            },
    ;

    /// Verifies a presentation and every credential in it, stopping at the
    /// first failure: see `verified_as`.
    fn verify_all(&self, ver_model: &mut verification::Model, vp_token: String) -> (r: Result<
        (),
        Errors,
    >)
        ensures
            verified_as(old(ver_model)@, final(ver_model)@, vp_token@, r),
    ;
}

impl BasicVerifierService {
    pub fn new(config: BasicVerifierConfig) -> (r: BasicVerifierService)
        ensures
            r.config() == config,
    {
        BasicVerifierService { config }
    }

    /// The configuration that the service was made with.
    pub closed spec fn config(&self) -> BasicVerifierConfig {
        self.config
    }

    /// The address of the verifier: host, API prefix and `/verifier`, localized.
    pub open spec fn spec_base(&self) -> Seq<char> {
        localized(
            self.config().host.spec_url() + self.config().api_path@ + "/verifier"@,
            self.config().is_local,
        )
    }

    fn base(&self) -> (r: String)
        ensures
            r@ == self.spec_base(),
    {
        let mut url = self.config.get_host();
        url.append(self.config.api_path.as_str());
        url.append("/verifier");
        localize(url, self.config.is_local)
    }
}

impl VerifierTrait for BasicVerifierService {
    open spec fn spec_audience(&self) -> Seq<char> {
        localized(
            self.config().host.spec_url() + self.config().api_path@ + "/verifier/verify"@,
            self.config().is_local,
        )
    }

    open spec fn spec_audience_for(&self, state: Seq<char>) -> Seq<char> {
        localized(
            self.config().host.spec_url() + self.config().api_path@ + "/verifier/verify/"@ + state,
            self.config().is_local,
        )
    }

    open spec fn spec_verification_uri(&self, model: verification::ModelView) -> Seq<char> {
        "openid4vp://authorize?response_type=vp_token&client_id="@ + url_encoded(model.audience)
            + "&response_mode=direct_post&presentation_definition_uri="@ + url_encoded(
            self.spec_base() + "/pd/"@ + model.state,
        ) + "&client_id_scheme=redirect_uri&nonce="@ + url_encoded(model.nonce) + "&response_uri="@
            + url_encoded(self.spec_base() + "/verify/"@ + model.state)
    }

    fn audience_for(&self, state: &str) -> (r: String) {
        let mut url = self.config.get_host();
        url.append(self.config.api_path.as_str());
        url.append("/verifier/verify/");
        url.append(state);
        localize(url, self.config.is_local)
    }

    fn start_vp(&self, id: &str, vc_type: VcType) -> (r: Result<verification::NewModel, Errors>) {
        let mut url = self.config.get_host();
        url.append(self.config.api_path.as_str());
        url.append("/verifier/verify");
        let audience = localize(url, self.config.is_local);
        Ok(
            verification::NewModel {
                id: String::from_str(id),
                audience,
                vc_type: vc_type.to_string(),
            },
        )
    }

    fn generate_verification_uri(&self, model: verification::Model) -> (r: String) {
        let base = self.base();
        let mut definition_uri = base.clone();
        definition_uri.append("/pd/");
        definition_uri.append(model.state.as_str());
        let mut response_uri = base;
        response_uri.append("/verify/");
        response_uri.append(model.state.as_str());

        let mut uri = String::from_str("openid4vp://authorize?response_type=vp_token&client_id=");
        proof {
            reveal_strlit("openid4vp://authorize?response_type=vp_token&client_id=");
            reveal_strlit("openid4vp://authorize?");
            assert(uri@.subrange(0, authorize_scheme().len() as int) =~= authorize_scheme());
        }
        let ghost head = uri@;
        uri.append(url_encode(model.audience.as_str()).as_str());
        uri.append("&response_mode=direct_post&presentation_definition_uri=");
        uri.append(url_encode(definition_uri.as_str()).as_str());
        uri.append("&client_id_scheme=redirect_uri&nonce=");
        uri.append(url_encode(model.nonce.as_str()).as_str());
        uri.append("&response_uri=");
        uri.append(url_encode(response_uri.as_str()).as_str());
        assert(uri@.subrange(0, authorize_scheme().len() as int) =~= head.subrange(
            0,
            authorize_scheme().len() as int,
        ));
        uri
    }

    fn generate_vpd(&self, ver_model: verification::Model) -> (r: VPDef) {
        VPDef::new(ver_model.id, ver_model.vc_type)
    }

    fn validate_token(&self, vp_token: &str, audience: Option<&str>) -> (r: Result<
        (Json, String),
        Errors,
    >) {
        let outcome = match audience {
            Some(state) => {
                let expected = self.audience_for(state);
                validate_token(vp_token, Some(expected.as_str()))
            },
            None => validate_token(vp_token, None),
        };
        match outcome {
            Ok(found) => Ok(found),
            Err(e) => Err(e.into_security()),
        }
    }

    fn validate_nonce(&self, model: &verification::Model, claims: &Json) -> (r: Result<
        (),
        Errors,
    >) {
        let path = vec!["nonce"];
        assert(path_texts(path@) =~= seq!["nonce"@]);
        let nonce = required(claims, path)?;
        if !str_eq(model.nonce.as_str(), nonce.as_str()) {
            return Err(
                Errors::security_new(Reason::NonceMismatch, "Invalid nonce, it does not match"),
            );
        }
        Ok(())
    }

    fn validate_vp_subject(
        &self,
        model: &mut verification::Model,
        claims: &Json,
        kid: &str,
    ) -> (r: Result<(), Errors>) {
        let sub_path = vec!["sub"];
        assert(path_texts(sub_path@) =~= seq!["sub"@]);
        let sub = optional(claims, sub_path)?;
        let iss_path = vec!["iss"];
        assert(path_texts(iss_path@) =~= seq!["iss"@]);
        let iss = optional(claims, iss_path)?;
        match sub {
            Some(sub) => {
                if !str_eq(sub.as_str(), kid) {
                    return Err(
                        Errors::security_new(
                            Reason::SubjectMismatch,
                            "VPT token subject & kid does not match",
                        ),
                    );
                }
            },
            None => {},
        }
        match iss {
            Some(iss) => {
                if !str_eq(iss.as_str(), kid) {
                    return Err(
                        Errors::security_new(
                            Reason::IssuerMismatch,
                            "VPT token issuer & kid does not match",
                        ),
                    );
                }
            },
            None => {},
        }
        model.holder = Some(String::from_str(kid));
        Ok(())
    }

    fn validate_vc_sub(&self, claims: &Json, holder: &str) -> (r: Result<(), Errors>) {
        let sub_path = vec!["sub"];
        assert(path_texts(sub_path@) =~= seq!["sub"@]);
        let sub = optional(claims, sub_path)?;
        let id_path = vec!["vc", "CredentialSubject", "id"];
        assert(path_texts(id_path@) =~= seq!["vc"@, "CredentialSubject"@, "id"@]);
        let subject_id = required(claims, id_path)?;
        match sub {
            Some(sub) => {
                if !str_eq(sub.as_str(), holder) {
                    return Err(
                        Errors::security_new(
                            Reason::CredentialSubjectMismatch,
                            "VCT token sub, credential subject & VP Holder do not match",
                        ),
                    );
                }
            },
            None => {},
        }
        if !str_eq(holder, subject_id.as_str()) {
            return Err(
                Errors::security_new(
                    Reason::CredentialSubjectMismatch,
                    "VCT token sub, credential subject & VP Holder do not match",
                ),
            );
        }
        Ok(())
    }

    fn validate_vp_id(&self, model: &verification::Model, claims: &Json) -> (r: Result<
        (),
        Errors,
    >) {
        let path = vec!["vp", "id"];
        assert(path_texts(path@) =~= seq!["vp"@, "id"@]);
        let vp_id = required(claims, path)?;
        if !str_eq(model.id.as_str(), vp_id.as_str()) {
            return Err(
                Errors::security_new(
                    Reason::PresentationIdMismatch,
                    "Invalid id, it does not match",
                ),
            );
        }
        Ok(())
    }

    fn validate_holder(&self, model: &verification::Model, claims: &Json) -> (r: Result<
        (),
        Errors,
    >) {
        let path = vec!["vp", "holder"];
        assert(path_texts(path@) =~= seq!["vp"@, "holder"@]);
        let vp_holder = required(claims, path)?;
        let matches = match &model.holder {
            Some(holder) => str_eq(holder.as_str(), vp_holder.as_str()),
            None => false,
        };
        if !matches {
            return Err(
                Errors::security_new(Reason::HolderMismatch, "Invalid holder, it does not match"),
            );
        }
        Ok(())
    }

    fn validate_issuer(&self, claims: &Json, kid: &str) -> (r: Result<(), Errors>) {
        let iss_path = vec!["iss"];
        assert(path_texts(iss_path@) =~= seq!["iss"@]);
        let iss = optional(claims, iss_path)?;
        let id_path = vec!["vc", "issuer", "id"];
        assert(path_texts(id_path@) =~= seq!["vc"@, "issuer"@, "id"@]);
        let issuer_id = required(claims, id_path)?;
        match iss {
            Some(iss) => {
                if !str_eq(iss.as_str(), kid) {
                    return Err(
                        Errors::security_new(
                            Reason::IssuerMismatch,
                            "VCT token issuer & kid does not match",
                        ),
                    );
                }
            },
            None => {},
        }
        if !str_eq(issuer_id.as_str(), kid) {
            return Err(
                Errors::security_new(
                    Reason::IssuerMismatch,
                    "VCT token issuer & kid does not match",
                ),
            );
        }
        Ok(())
    }

    fn validate_vc_id(&self, claims: &Json) -> (r: Result<(), Errors>) {
        let id_path = vec!["vc", "id"];
        assert(path_texts(id_path@) =~= seq!["vc"@, "id"@]);
        let vc_id = optional(claims, id_path)?;
        let jti_path = vec!["jti"];
        assert(path_texts(jti_path@) =~= seq!["jti"@]);
        let jti = optional(claims, jti_path)?;
        match (vc_id, jti) {
            (Some(vc_id), Some(jti)) => {
                if !str_eq(jti.as_str(), vc_id.as_str()) {
                    return Err(
                        Errors::security_new(
                            Reason::CredentialIdMismatch,
                            "Invalid id, it does not match",
                        ),
                    );
                }
            },
            _ => {},
        }
        Ok(())
    }

    fn validate_valid_from_at(&self, claims: &Json, at: &Instant) -> (r: Result<(), Errors>) {
        let path = vec!["vc", "validFrom"];
        assert(path_texts(path@) =~= seq!["vc"@, "validFrom"@]);
        match optional(claims, path)? {
            Some(text) => match parse_rfc3339(text.as_str()) {
                Ok(from) => {
                    if !from.is_not_after(at) {
                        return Err(
                            Errors::security_new(Reason::NotYetValid, "VC is not valid yet"),
                        );
                    }
                },
                Err(why) => {
                    return Err(Errors::security_new(Reason::InvalidDate, why.as_str()));
                },
            },
            None => {},
        }
        Ok(())
    }

    fn validate_valid_until_at(&self, claims: &Json, at: &Instant) -> (r: Result<(), Errors>) {
        let path = vec!["vc", "validUntil"];
        assert(path_texts(path@) =~= seq!["vc"@, "validUntil"@]);
        match optional(claims, path)? {
            Some(text) => match parse_rfc3339(text.as_str()) {
                Ok(until) => {
                    if !at.is_not_after(&until) {
                        return Err(Errors::security_new(Reason::Expired, "VC has expired"));
                    }
                },
                Err(why) => {
                    return Err(Errors::security_new(Reason::InvalidDate, why.as_str()));
                },
            },
            None => {},
        }
        Ok(())
    }

    fn validate_valid_from(&self, claims: &Json) -> (r: Result<(), Errors>) {
        let at = now();
        self.validate_valid_from_at(claims, &at)
    }

    fn validate_valid_until(&self, claims: &Json) -> (r: Result<(), Errors>) {
        let at = now();
        self.validate_valid_until_at(claims, &at)
    }

    fn retrieve_vcs(&self, claims: &Json) -> (r: Result<Vec<String>, Errors>) {
        let found = match claims.get("vp") {
            Some(vp) => vp.get("verifiableCredential"),
            None => None,
        };
        proof {
            let path = seq!["vp"@, "verifiableCredential"@];
            assert(path.drop_first() =~= seq!["verifiableCredential"@]);
            assert(path.drop_first().drop_first() =~= Seq::<Seq<char>>::empty());
            assert(path[0] == "vp"@);
            assert(path.drop_first()[0] == "verifiableCredential"@);
            if claims@.get("vp"@).is_some() {
                let vp = claims@.get("vp"@).unwrap();
                assert(claims@.at(path) == vp.at(path.drop_first()));
                if vp.get("verifiableCredential"@).is_some() {
                    let node = vp.get("verifiableCredential"@).unwrap();
                    assert(vp.at(path.drop_first()) == node.at(path.drop_first().drop_first()));
                }
            }
        }
        let list = match found {
            Some(node) => node.as_text_list(),
            None => None,
        };
        match list {
            Some(list) => Ok(list),
            None => Err(
                Errors::security_new(
                    Reason::NotAList,
                    "VPT does not contain the 'verifiableCredential' field",
                ),
            ),
        }
    }

    fn check_vp_claims(
        &self,
        model: &mut verification::Model,
        claims: &Json,
        kid: &str,
    ) -> (r: Result<Vec<String>, Errors>) {
        self.validate_nonce(model, claims)?;
        self.validate_vp_subject(model, claims, kid)?;
        self.validate_vp_id(model, claims)?;
        self.validate_holder(model, claims)?;
        self.retrieve_vcs(claims)
    }

    fn check_vc_claims(&self, claims: &Json, kid: &str, holder: &str, at: &Instant) -> (r:
        Result<(), Errors>) {
        self.validate_issuer(claims, kid)?;
        self.validate_vc_id(claims)?;
        self.validate_vc_sub(claims, holder)?;
        self.validate_valid_from_at(claims, at)?;
        self.validate_valid_until_at(claims, at)
    }

    fn verify_vp(&self, model: &mut verification::Model, vp_token: &str) -> (r: Result<
        (Vec<String>, String),
        Errors,
    >) {
        model.vpt = Some(String::from_str(vp_token));
        let (claims, kid) = self.validate_token(vp_token, Some(model.state.as_str()))?;
        let vcs = self.check_vp_claims(model, &claims, kid.as_str())?;
        Ok((vcs, kid))
    }

    fn verify_vc(&self, vc_token: &str, holder: &str) -> (r: Result<(), Errors>) {
        let (claims, kid) = self.validate_token(vc_token, None)?;
        let at = now();
        self.check_vc_claims(&claims, kid.as_str(), holder, &at)
    }

    fn verify_all(&self, ver_model: &mut verification::Model, vp_token: String) -> (r: Result<
        (),
        Errors,
    >) {
        let (vcs, holder) = self.verify_vp(ver_model, vp_token.as_str())?;
        let ghost list = texts(vcs@);
        let mut i: usize = 0;
        while i < vcs.len()
            invariant
                i <= vcs.len(),
                list == texts(vcs@),
                ver_model@ == (verification::ModelView {
                    vpt: Some(vp_token@),
                    holder: Some(holder@),
                    ..old(ver_model)@
                }),
                signed_by_its_key(vp_token@),
                token_signer(vp_token@) == Some(holder@),
                presentation_verdict(old(ver_model)@, vp_token@) == Some(
                    Ok::<Seq<Seq<char>>, Reason>(list),
                ),
                forall|j: int| 0 <= j < i ==> #[trigger] credential_passes(list[j], holder@),
            decreases vcs.len() - i,
        {
            match self.verify_vc(vcs[i].as_str(), holder.as_str()) {
                Ok(_) => {},
                Err(e) => {
                    assert(first_refused(list, holder@, i as int, e.reason));
                    let ghost why = e.reason;
                    let r: Result<(), Errors> = Err(e);
                    assert(token_signer(vp_token@) matches Some(did) && presentation_verdict(
                        old(ver_model)@,
                        vp_token@,
                    ) matches Some(Ok(found)) && did == holder@ && found == list);
                    assert(exists|at: int| #[trigger] first_refused(list, holder@, at, why));
                    assert(verified_as(old(ver_model)@, ver_model@, vp_token@, r));
                    return r;
                },
            }
            i = i + 1;
        }
        Ok(())
    }
}

} // verus!
