//! The orchestrator: composes the gatekeeper, the verifier and the issuer
//! over the store, and moves each ceremony through its steps.
use vstd::prelude::*;
use vstd::string::*;
use crate::clock::Instant;
use crate::data::entities::{interaction, issuing, minions, request, verification};
use crate::data::entities::request::RequestStatus;
use crate::errors::{ErrorKind, Errors, Reason};
use crate::outside::{new_uuid, now, UUID_TEXT_LEN};
use crate::services::basic_issuer::{
    possession_proved, proof_refused, spec_issue, IssuerTrait,
};
use crate::services::basic_verifier::{authorize_scheme, verified_as, VerifierTrait};
use crate::services::gnap::{
    oidc4vp, spec_interaction_new, spec_request_new, start_verdict, Callback, EndOfVerification,
    GateKeeperTrait,
};
use crate::store::ledger::{
    first_match, first_minion, lemma_first_match, lemma_first_match_push, lemma_first_match_update,
    lemma_first_match_update_to, lemma_unique_match, upserted, window, CeremonyView, DEFAULT_LIMIT,
    Key, LedgerView,
};
use crate::store::repo::{found_or_missing, refuses, store_refuses, RepoTrait};
use crate::text::{contains_text, has_prefix, has_text, lemma_has_text_by_texts};
use crate::types::gnap::{callback_json, rejected_json, GrantRequest, GrantResponse, RefBody};
use crate::types::issuing::{
    AuthServerMetadata, CredentialRequest, GiveVC, IssuerMetadata, IssuingToken, TokenRequest,
    VCCredOffer,
};
use crate::types::vc_type::VcType;
use crate::types::vcs::{VcDecisionApproval, VPDef};
use crate::utils::{create_opaque_token, is_opaque_token, spec_trim_4_base, token_signer};

verus! {

/// The values that the server draws when a ceremony starts.
#[derive(Clone, Debug, PartialEq, Eq)]
pub struct CeremonySeed {
    /// The id of the ceremony.
    pub id: String,
    /// The secret that authorises the continuation.
    pub continue_token: String,
    /// What the interaction is completed with.
    pub interaction: interaction::Seed,
    /// What the verification is completed with, on the OpenID4VP branch.
    pub verification: verification::Seed,
}

impl CeremonySeed {
    /// The seed is one that the server draws: the id is a UUID, the client
    /// continues under that id, and every secret is an opaque token.
    pub open spec fn drawn(&self) -> bool {
        &&& self.id@.len() == UUID_TEXT_LEN
        &&& self.interaction@.continue_id == self.id@
        &&& is_opaque_token(self.continue_token@)
        &&& is_opaque_token(self.interaction@.as_nonce)
        &&& is_opaque_token(self.interaction@.interact_ref)
        &&& is_opaque_token(self.interaction@.hash)
        &&& is_opaque_token(self.verification@.state)
        &&& is_opaque_token(self.verification@.nonce)
    }
}

/// The seed of an issuing is one that the server draws: its codes and its
/// token are opaque tokens, and the id of the credential is a UUID.
pub open spec fn drawn_issuing(seed: issuing::SeedView) -> bool {
    &&& is_opaque_token(seed.tx_code)
    &&& is_opaque_token(seed.pre_auth_code)
    &&& is_opaque_token(seed.token)
    &&& seed.credential_id.len() == UUID_TEXT_LEN
}

/// The orchestrator, with the store that it works on.
pub struct Core<G, I, V, R> {
    ledger: R,
    gatekeeper: G,
    issuer: I,
    verifier: V,
}

/// The request that `manage_req_with` stores for a grant request.
pub open spec fn spec_new_request(payload: GrantRequest, seed: CeremonySeed) -> request::ModelView {
    request::Model::spec_from_new(spec_request_new(payload, seed.id@))
}

/// The status of a request after the client answered the callback of a
/// decision with `status`.
pub open spec fn decided(approve: bool, status: u16) -> RequestStatus {
    if status != 200 {
        RequestStatus::MinionFailure
    } else if approve {
        RequestStatus::Approved
    } else {
        RequestStatus::Finalized
    }
}

/// The lasting record of the holder `holder` of the credential of a
/// ceremony that has its interaction.
pub open spec fn spec_minion_of(c: CeremonyView, holder: Seq<char>) -> minions::NewModelView {
    minions::NewModelView {
        participant_id: holder,
        participant_slug: c.request.participant_slug,
        participant_type: "Minion"@,
        base_url: Some(spec_trim_4_base(c.interaction.unwrap().uri)),
        vc_uri: c.request.vc_uri,
        is_vc_issued: false,
        is_me: false,
    }
}

/// What `deliver_credential` does to a store that holds `before`: its
/// result, and what the store holds after it.
pub open spec fn deliver_post(
    before: LedgerView,
    after: LedgerView,
    token: Seq<char>,
    holder: Seq<char>,
    did: Seq<char>,
    pem: Seq<char>,
    at: Instant,
    r: Result<GiveVC, Errors>,
) -> bool {
    match before.ceremony(Key::Token, token) {
        None => r matches Err(e) && e.kind == ErrorKind::MissingResource && e.reason
            == Reason::NotFound && after == before,
        Some(c) => {
            let iss = c.issuing.unwrap();
            let bound = issuing::ModelView { did: Some(holder), ..iss };
            if iss.credential.is_some() {
                r matches Ok(vc) && vc.credential@ == iss.credential.unwrap() && vc.format@
                    == "jwt_vc_json"@ && after == before
            } else if c.closed() {
                r matches Err(e) && e.kind == ErrorKind::Forbidden && e.reason == Reason::Sealed
                    && after == before
            } else {
                match spec_issue(bound, did, pem, at) {
                    Err(why) => r matches Err(e) && e.kind == ErrorKind::BadFormat && e.reason
                        == why && after == before,
                    Ok(jwt) => if c.interaction.is_none() {
                        r matches Err(e) && e.kind == ErrorKind::MissingResource && e.reason
                            == Reason::NotFound && after == before
                    } else {
                        let minion = spec_minion_of(c, holder);
                        &&& r matches Ok(vc) && vc.credential@ == jwt && vc.format@
                            == "jwt_vc_json"@
                        &&& after.ceremonies == before.ceremonies.update(
                            first_match(before.ceremonies, Key::Token, token, 0),
                            c.with_issuing(
                                Some(issuing::ModelView { credential: Some(jwt), ..bound }),
                            ),
                        )
                        &&& after.minions == match before.minion(holder) {
                            None => before.minions.push(
                                minions::Model::spec_from_new(minion, at),
                            ),
                            Some(stored) => before.minions.update(
                                first_minion(before.minions, holder, 0),
                                upserted(stored, minion, at),
                            ),
                        }
                    },
                }
            }
        },
    }
}

/// What an orchestrator is made of, and the vocabulary in which its steps
/// are stated.
pub trait CoreTrait {
    /// The gatekeeper of the orchestrator.
    type Gate: GateKeeperTrait;

    /// Its issuer.
    type Issuer: IssuerTrait;

    /// Its verifier.
    type Verifier: VerifierTrait;

    /// Its store.
    type Repo: RepoTrait;

    /// What the store holds.
    spec fn ledger(&self) -> LedgerView;

    /// The gatekeeper, as a value.
    spec fn spec_gatekeeper(&self) -> Self::Gate;

    /// The issuer, as a value.
    spec fn spec_issuer(&self) -> Self::Issuer;

    /// The verifier, as a value.
    spec fn spec_verifier(&self) -> Self::Verifier;

    /// The store is well-formed.
    open spec fn wf(&self) -> bool {
        self.ledger().wf()
    }

    /// The services are those of `other`.
    open spec fn same_services(&self, other: &Self) -> bool {
        &&& self.spec_gatekeeper() == other.spec_gatekeeper()
        &&& self.spec_issuer() == other.spec_issuer()
        &&& self.spec_verifier() == other.spec_verifier()
    }

    /// The interaction that `manage_req_with` stores for a grant request.
    open spec fn spec_new_interaction(&self, payload: GrantRequest, seed: CeremonySeed)
        -> interaction::ModelView {
        interaction::Model::spec_from_new(
            spec_interaction_new(
                self.spec_gatekeeper().spec_gate_url(),
                payload,
                seed.id@,
                seed.continue_token@,
            ),
            seed.interaction@,
        )
    }

    /// The verification that `manage_req_with` stores on the OpenID4VP branch.
    open spec fn spec_new_verification(&self, seed: CeremonySeed) -> verification::ModelView {
        verification::Model::spec_from_new(
            verification::NewModelView {
                id: seed.id@,
                audience: self.spec_verifier().spec_audience(),
                vc_type: VcType::Identity.spec_name(),
            },
            seed.verification@,
        )
    }

    /// What `manage_req_with` does with a grant request and a seed: its result,
    /// and the store after it.
    open spec fn manage_req_post(
        &self,
        after: LedgerView,
        payload: GrantRequest,
        seed: CeremonySeed,
        r: Result<GrantResponse, Errors>,
    ) -> bool {
        match start_verdict(payload) {
            Some((kind, why)) => r matches Err(e) && e.kind == kind && e.reason == why
                && e.http_code.is_none() && after == self.ledger(),
            None => {
                let before = self.ledger();
                let req = spec_new_request(payload, seed);
                let inter = self.spec_new_interaction(payload, seed);
                let ver = self.spec_new_verification(seed);
                let wants_vp = has_text(payload.interact.unwrap().start@, oidc4vp());
                let only_request = CeremonyView {
                    request: req,
                    interaction: None,
                    verification: None,
                    issuing: None,
                };
                if before.request(seed.id@).is_some() {
                    store_refuses(r, Reason::Conflict) && after == before
                } else if before.ceremony(Key::ContinueId, inter.continue_id).is_some()
                    || before.ceremony(Key::ContinueToken, inter.continue_token).is_some() {
                    store_refuses(r, Reason::Conflict) && after.ceremonies
                        == before.ceremonies.push(only_request)
                } else if wants_vp && before.ceremony(Key::State, ver.state).is_some() {
                    store_refuses(r, Reason::Conflict) && after.ceremonies
                        == before.ceremonies.push(only_request.with_interaction(Some(inter)))
                } else {
                    &&& r matches Ok(response)
                    &&& response.instance_id@ == seed.id@
                    &&& response.cont.uri@ == inter.continue_endpoint
                    &&& response.cont.access_token@ == inter.continue_token
                    &&& response.interact.finish@ == inter.as_nonce
                    &&& wants_vp ==> (response.interact.user_code_uri matches Some(uri) && uri@
                        == self.spec_verifier().spec_verification_uri(ver) && has_prefix(
                        uri@,
                        authorize_scheme(),
                    ))
                    &&& !wants_vp ==> response.interact.user_code_uri.is_none()
                    &&& after.ceremonies == before.ceremonies.push(
                        only_request.with_interaction(Some(inter)).with_verification(
                            if wants_vp {
                                Some(ver)
                            } else {
                                None
                            },
                        ),
                    )
                }
            },
        }
    }

    /// The request of a ceremony once its grant is continued: approved, with
    /// the issuing URI minted for it.
    open spec fn spec_granted(&self, req: request::ModelView) -> request::ModelView {
        request::ModelView {
            status: RequestStatus::Approved,
            vc_uri: Some(self.spec_issuer().spec_issuing_uri(req.id)),
            ..req
        }
    }

    /// The issuing that a continued grant creates for a request, with the
    /// values of `seed`.
    open spec fn spec_new_issuing(&self, req: request::ModelView, seed: issuing::SeedView)
        -> issuing::ModelView {
        issuing::Model::spec_from_new(
            issuing::NewModelView {
                id: req.id,
                name: req.participant_slug,
                vc_type: req.vc_type,
                uri: self.spec_issuer().spec_issuing_uri(req.id),
                aud: self.spec_issuer().spec_issuer_url(),
            },
            seed,
        )
    }

    /// What `manage_cont_req_with` does: its result, and the store after it.
    open spec fn cont_req_post(
        &self,
        after: LedgerView,
        cont_id: Seq<char>,
        interact_ref: Seq<char>,
        token: Seq<char>,
        seed: issuing::SeedView,
        r: Result<String, Errors>,
    ) -> bool {
        let before = self.ledger();
        match before.ceremony(Key::ContinueId, cont_id) {
            None => r matches Err(e) && e.kind == ErrorKind::MissingResource && e.reason
                == Reason::NotFound && after == before,
            Some(c) => {
                let inter = c.interaction.unwrap();
                let req = c.request;
                let at = first_match(before.ceremonies, Key::ContinueId, cont_id, 0);
                if interact_ref != inter.interact_ref {
                    r matches Err(e) && e.kind == ErrorKind::Security && e.reason
                        == Reason::InteractRefMismatch && after == before
                } else if token != inter.continue_token {
                    r matches Err(e) && e.kind == ErrorKind::Security && e.reason
                        == Reason::ContinueTokenMismatch && after == before
                } else if req.status == RequestStatus::Approved && req.vc_uri.is_some() {
                    r matches Ok(uri) && uri@ == req.vc_uri.unwrap() && after == before
                } else if c.closed() {
                    r matches Err(e) && e.kind == ErrorKind::Forbidden && e.reason
                        == Reason::Sealed && after == before
                } else {
                    let granted = LedgerView {
                        ceremonies: before.ceremonies.update(
                            at,
                            CeremonyView { request: self.spec_granted(req), ..c },
                        ),
                        minions: before.minions,
                    };
                    let iss = self.spec_new_issuing(req, seed);
                    match granted.create_issuing_verdict(iss) {
                        Some((kind, why)) => refuses(r, kind, why) && after == granted,
                        None => r matches Ok(uri) && uri@ == self.spec_issuer().spec_issuing_uri(
                            req.id,
                        ) && after == granted.put_issuing(iss),
                    }
                }
            },
        }
    }

    /// What `conclude_verification` does: its result, and the store after it.
    open spec fn conclude_post(
        &self,
        after: LedgerView,
        verified: verification::ModelView,
        outcome: Result<(), Errors>,
        r: Result<EndOfVerification, Errors>,
    ) -> bool {
        let before = self.ledger();
        match before.update_verification_verdict(verified) {
            Some((kind, why)) => r matches Err(e) && e.kind == kind && e.reason == why && after
                == before,
            None => after == before.put_verification(verified) && match outcome {
                Err(failure) => r == Err::<EndOfVerification, Errors>(failure),
                Ok(_) => match before.interaction(Key::Id, verified.id) {
                    None => r matches Err(e) && e.kind == ErrorKind::MissingResource && e.reason
                        == Reason::NotFound,
                    Some(inter) => if inter.method == "redirect"@ {
                        r matches Ok(EndOfVerification::Redirect(url)) && url@ == inter.uri
                            + "?hash="@ + inter.hash + "&interact_ref="@ + inter.interact_ref
                    } else if inter.method == "push"@ {
                        r matches Ok(EndOfVerification::Push(callback)) && callback.uri@
                            == inter.uri && callback.body@ == callback_json(
                            inter.interact_ref,
                            inter.hash,
                        )
                    } else {
                        r matches Err(e) && e.kind == ErrorKind::NotImplemented && e.reason
                            == Reason::UnsupportedFinishMethod
                    },
                },
            },
        }
    }

    /// The gatekeeper.
    fn gatekeeper(&self) -> (r: &Self::Gate)
        ensures
            *r == self.spec_gatekeeper(),
    ;

    /// The issuer.
    fn issuer(&self) -> (r: &Self::Issuer)
        ensures
            *r == self.spec_issuer(),
    ;

    /// The verifier.
    fn vp_verifier(&self) -> (r: &Self::Verifier)
        ensures
            *r == self.spec_verifier(),
    ;

    /// The store, for reading.
    fn repo(&self) -> (r: &Self::Repo)
        ensures
            r.rows() == self.ledger(),
    ;
}

/// The steps of a grant: its request and its continuation.
pub trait CoreGatekeeperTrait: CoreTrait {
    /// Takes a grant request and starts its ceremony with the values of
    /// `seed`.
    ///
    /// A request that the gatekeeper refuses changes nothing. Otherwise the
    /// request is stored, then its interaction, then, where the client accepts
    /// `oidc4vp`, a verification for an identity credential; the answer holds
    /// the continuation and, on that branch, the URI that asks a wallet for a
    /// presentation. Where the store refuses a row because an id or a secret
    /// of the seed is taken, what was stored before it stays.
    fn manage_req_with(&mut self, payload: GrantRequest, seed: CeremonySeed) -> (r: Result<
        GrantResponse,
        Errors,
    >)
        requires
            old(self).wf(),
        ensures
            final(self).wf(),
            final(self).same_services(old(self)),
            final(self).ledger().minions == old(self).ledger().minions,
            old(self).manage_req_post(final(self).ledger(), payload, seed, r),
    ;

    /// Takes a grant request and starts its ceremony with values drawn for
    /// it: a fresh id, which is also the id under which the client continues,
    /// and fresh secrets. See `manage_req_with`.
    fn manage_req(&mut self, payload: GrantRequest) -> (r: Result<GrantResponse, Errors>)
        requires
            old(self).wf(),
        ensures
            final(self).wf(),
            final(self).same_services(old(self)),
            final(self).ledger().minions == old(self).ledger().minions,
            exists|seed: CeremonySeed|
                seed.drawn() && #[trigger] old(self).manage_req_post(
                    final(self).ledger(),
                    payload,
                    seed,
                    r,
                ),
    ;

    /// Continues the grant that the client addresses by `cont_id`, with the
    /// values of `seed` for the issuing to come.
    ///
    /// The interaction reference of `payload` and the token of the caller
    /// must be those of the interaction; a mismatch is a `Security` failure
    /// and changes nothing. A request that is approved and has its issuing
    /// URI gives that URI back and changes nothing. A closed ceremony is
    /// refused. Otherwise the issuing URI is minted, the request is approved
    /// with it, the issuing is created, and the URI is returned.
    fn manage_cont_req_with(
        &mut self,
        cont_id: String,
        payload: RefBody,
        token: String,
        seed: issuing::Seed,
    ) -> (r: Result<String, Errors>)
        requires
            old(self).wf(),
        ensures
            final(self).wf(),
            final(self).same_services(old(self)),
            old(self).cont_req_post(
                final(self).ledger(),
                cont_id@,
                payload.interact_ref@,
                token@,
                seed@,
                r,
            ),
    ;

    /// Continues the grant that the client addresses by `cont_id`, with fresh
    /// secrets for the issuing to come. See `manage_cont_req_with`.
    fn manage_cont_req(&mut self, cont_id: String, payload: RefBody, token: String) -> (r:
        Result<String, Errors>)
        requires
            old(self).wf(),
        ensures
            final(self).wf(),
            final(self).same_services(old(self)),
            exists|seed: issuing::SeedView|
                drawn_issuing(seed) && #[trigger] old(self).cont_req_post(
                    final(self).ledger(),
                    cont_id@,
                    payload.interact_ref@,
                    token@,
                    seed,
                    r,
                ),
    ;
}

/// The steps of an issuing: its offer, its token and its credential.
pub trait CoreIssuerTrait: CoreTrait {
    /// The offer of the issuing `id`. The first fetch carries the
    /// transaction code and latches the issuing, so that every later fetch
    /// carries the pre-authorized code.
    fn get_cred_offer_data(&mut self, id: String) -> (r: Result<VCCredOffer, Errors>)
        requires
            old(self).wf(),
        ensures
            final(self).wf(),
            final(self).same_services(old(self)),
            match old(self).ledger().issuing(Key::Id, id@) {
                None => r matches Err(e) && e.kind == ErrorKind::MissingResource && e.reason
                    == Reason::NotFound && final(self).ledger() == old(self).ledger(),
                Some(iss) => match VcType::spec_from(iss.vc_type) {
                    None => r matches Err(e) && e.kind == ErrorKind::BadFormat && e.reason
                        == Reason::UnknownVcType && final(self).ledger() == old(self).ledger(),
                    Some(vc_type) => if !iss.step {
                        &&& r matches Ok(offer)
                        &&& offer.pre_authorized_code@ == iss.pre_auth_code
                        &&& offer.credential_issuer@ == old(self).spec_issuer().spec_issuer_url()
                        &&& offer.credential_configuration_ids@.len() == 1
                        &&& offer.credential_configuration_ids@[0]@ == vc_type.spec_conf()
                        &&& final(self).ledger() == old(self).ledger()
                    } else {
                        let latched = issuing::ModelView { step: false, ..iss };
                        match old(self).ledger().update_issuing_verdict(latched) {
                            Some((kind, why)) => r matches Err(e) && e.kind == kind && e.reason
                                == why && final(self).ledger() == old(self).ledger(),
                            None => {
                                &&& r matches Ok(offer)
                                &&& offer.pre_authorized_code@ == iss.tx_code
                                &&& offer.credential_issuer@ == old(self).spec_issuer().spec_issuer_url()
                                &&& offer.credential_configuration_ids@.len() == 1
                                &&& offer.credential_configuration_ids@[0]@ == vc_type.spec_conf()
                                &&& final(self).ledger() == old(self).ledger().put_issuing(latched)
                            },
                        }
                    },
                },
            },
    ;

    /// What the issuer says of itself.
    fn issuer_metadata(&self) -> (r: IssuerMetadata)
        ensures
            r.credential_issuer@ == self.spec_issuer().spec_issuer_url(),
            r.credential_endpoint@ == self.spec_issuer().spec_issuer_url() + "/credential"@,
            r.jwks_uri@ == self.spec_issuer().spec_issuer_url() + "/jwks"@,
    ;

    /// What the authorization server of the issuer says of itself.
    fn oauth_server_metadata(&self) -> (r: AuthServerMetadata)
        ensures
            r.issuer@ == self.spec_issuer().spec_issuer_url(),
            r.token_endpoint@ == self.spec_issuer().spec_issuer_url() + "/token"@,
            r.jwks_uri@ == self.spec_issuer().spec_issuer_url() + "/jwks"@,
    ;

    /// Redeems the codes of a token request for the bearer token of the
    /// issuing with that transaction code. An unknown transaction code is a
    /// `MissingResource`, a wrong pre-authorized code is `Forbidden`.
    fn get_token(&self, payload: TokenRequest) -> (r: Result<IssuingToken, Errors>)
        requires
            self.wf(),
        ensures
            match self.ledger().issuing(Key::TxCode, payload.tx_code@) {
                None => r matches Err(e) && e.kind == ErrorKind::MissingResource && e.reason
                    == Reason::NotFound,
                Some(iss) => if iss.pre_auth_code != payload.pre_authorized_code@ {
                    r matches Err(e) && e.kind == ErrorKind::Forbidden && e.reason
                        == Reason::PreAuthCodeMismatch
                } else {
                    r matches Ok(token) && token.access_token@ == iss.token && token.token_type@
                        == "Bearer"@ && token.expires_in == 3600
                },
            },
    ;

    /// Delivers the credential of the issuing with the bearer token `token`
    /// to `holder`, whose possession of its DID is proved, at `at`.
    ///
    /// An issuing that holds a credential already is never signed again: the
    /// stored credential is returned, verbatim, and the store is left as it
    /// was. A ceremony that is closed without a credential gets none.
    /// Otherwise the holder is bound to the issuing, the credential is
    /// minted for it and signed by the authority `did` with the key in `pem`,
    /// the issuing is stored with it, and the holder is recorded as a minion.
    /// A failure leaves the store as it was.
    fn deliver_credential(&mut self, token: &str, holder: &str, did: &str, pem: &str, at: &Instant) -> (r:
        Result<GiveVC, Errors>)
        requires
            old(self).wf(),
        ensures
            final(self).wf(),
            final(self).same_services(old(self)),
            deliver_post(
                old(self).ledger(),
                final(self).ledger(),
                token@,
                holder@,
                did@,
                pem@,
                *at,
                r,
            ),
    ;

    /// Answers a credential request made with the bearer token `token`: the
    /// request is validated, and the credential is delivered to the DID that
    /// signed its proof of possession, at the time of the call. See
    /// `deliver_credential`.
    ///
    /// An issuing that holds a credential already is never signed again: a
    /// valid request gets the stored credential, verbatim, and the store is
    /// left as it was. A failure leaves the store as it was, too. A request
    /// for another format than `jwt_vc_json`, or with another proof than a
    /// `jwt`, is refused as `BadFormat`. Any other request is refused with
    /// what its proof is refused with, or its proof of possession holds and
    /// it is answered with what the delivery to the signer of the proof
    /// gives, at an instant that is not before 1970.
    fn get_credential(&mut self, payload: CredentialRequest, token: String, did: &str, pem: &str) -> (r:
        Result<GiveVC, Errors>)
        requires
            old(self).wf(),
        ensures
            final(self).wf(),
            final(self).same_services(old(self)),
            r.is_err() ==> final(self).ledger() == old(self).ledger(),
            match old(self).ledger().issuing(Key::Token, token@) {
                None => r matches Err(e) && e.kind == ErrorKind::MissingResource && e.reason
                    == Reason::NotFound,
                Some(iss) => {
                    &&& iss.credential matches Some(stored) ==> final(self).ledger()
                        == old(self).ledger() && (r matches Ok(vc) ==> vc.credential@ == stored)
                    &&& if payload.format@ != "jwt_vc_json"@ {
                        refuses(r, ErrorKind::BadFormat, Reason::UnsupportedCredentialFormat)
                    } else if payload.proof.proof_type@ != "jwt"@ {
                        refuses(r, ErrorKind::BadFormat, Reason::UnsupportedProofType)
                    } else {
                        ||| r matches Err(e) && e.http_code.is_none() && proof_refused(
                            payload.proof.jwt@,
                            e.kind,
                            e.reason,
                        )
                        ||| {
                            &&& possession_proved(payload.proof.jwt@)
                            &&& token_signer(payload.proof.jwt@) matches Some(holder)
                            &&& exists|at: Instant|
                                at.secs >= 0 && #[trigger] deliver_post(
                                    old(self).ledger(),
                                    final(self).ledger(),
                                    token@,
                                    holder,
                                    did@,
                                    pem@,
                                    at,
                                    r,
                                )
                        }
                    }
                },
            },
    ;
}

/// What the operator does with the requests.
pub trait CoreVcsTrait: CoreTrait {
    /// Every request, in the order in which they were stored, up to 100000.
    fn get_all(&self) -> (r: Vec<request::Model>)
        ensures
            r@.map_values(|row: request::Model| row@) == window(
                self.ledger().requests(),
                DEFAULT_LIMIT as int,
                0,
            ),
    ;

    /// The request of the ceremony `id`.
    fn get_by_id(&self, id: String) -> (r: Result<request::Model, Errors>)
        ensures
            found_or_missing(r, self.ledger().request(id@)),
    ;

    /// The message that tells the client of the decision of the operator on
    /// the ceremony `id`, to be posted before the decision is recorded. A
    /// ceremony without request or interaction is a `MissingResource`; a
    /// closed ceremony takes no decision and is refused as `Forbidden`.
    fn decision_callback(&self, id: &str, approve: bool) -> (r: Result<Callback, Errors>)
        ensures
            match self.ledger().ceremony(Key::Id, id@) {
                None => r matches Err(e) && e.kind == ErrorKind::MissingResource && e.reason
                    == Reason::NotFound,
                Some(c) => match c.interaction {
                    None => r matches Err(e) && e.kind == ErrorKind::MissingResource && e.reason
                        == Reason::NotFound,
                    Some(inter) => if c.closed() {
                        r matches Err(e) && e.kind == ErrorKind::Forbidden && e.reason
                            == Reason::Sealed
                    } else {
                        r matches Ok(callback) && callback.uri@ == inter.uri && callback.body@
                            == if approve {
                            callback_json(inter.interact_ref, inter.hash)
                        } else {
                            rejected_json("Petition was rejected"@)
                        }
                    },
                },
            },
    ;

    /// Records the decision of the operator on the ceremony `id`, once the
    /// client has answered the callback with `status`. The new status of the
    /// request is stored whatever the answer was; an answer other than 200
    /// is then reported as a `Consumer` failure. A closed ceremony takes no
    /// decision.
    fn manage_req(&mut self, id: String, payload: VcDecisionApproval, status: u16) -> (r:
        Result<(), Errors>)
        requires
            old(self).wf(),
        ensures
            final(self).wf(),
            final(self).same_services(old(self)),
            match old(self).ledger().ceremony(Key::Id, id@) {
                None => r matches Err(e) && e.kind == ErrorKind::MissingResource && e.reason
                    == Reason::NotFound && final(self).ledger() == old(self).ledger(),
                Some(c) => if c.interaction.is_none() {
                    r matches Err(e) && e.kind == ErrorKind::MissingResource && e.reason
                        == Reason::NotFound && final(self).ledger() == old(self).ledger()
                } else if c.closed() {
                    r matches Err(e) && e.kind == ErrorKind::Forbidden && e.reason
                        == Reason::Sealed && final(self).ledger() == old(self).ledger()
                } else {
                    &&& final(self).ledger() == (LedgerView {
                        ceremonies: old(self).ledger().ceremonies.update(
                            old(self).ledger().position(id@),
                            CeremonyView {
                                request: request::ModelView {
                                    status: decided(payload.approve, status),
                                    ..c.request
                                },
                                ..c
                            },
                        ),
                        minions: old(self).ledger().minions,
                    })
                    &&& status == 200 ==> r.is_ok()
                    &&& status != 200 ==> (r matches Err(e) && e.kind == ErrorKind::Consumer
                        && e.reason == Reason::CallbackRefused && e.http_code == Some(status))
                },
            },
    ;
}

/// The steps of a verification: its definition and its presentation.
pub trait CoreVerifierTrait: CoreTrait {
    /// The presentation definition of the exchange `state`.
    fn get_vp_def(&self, state: String) -> (r: Result<VPDef, Errors>)
        ensures
            match self.ledger().verification(Key::State, state@) {
                None => r matches Err(e) && e.kind == ErrorKind::MissingResource && e.reason
                    == Reason::NotFound,
                Some(ver) => r matches Ok(definition) && definition.id@ == ver.id
                    && definition.input_descriptors@.len() == 1
                    && definition.input_descriptors@[0].id@ == ver.vc_type
                    && definition.input_descriptors@[0].pattern@ == ver.vc_type
                    && definition.input_descriptors@[0].path@ == "$.vc.type"@,
            },
    ;

    /// Concludes a verification whose presentation was checked with the
    /// outcome `outcome`: the verification is stored as the verifier left it,
    /// whatever the outcome; a failure is then reported, and a success is
    /// answered with what is owed to the client of the ceremony.
    fn conclude_verification(
        &mut self,
        verified: verification::Model,
        outcome: Result<(), Errors>,
    ) -> (r: Result<EndOfVerification, Errors>)
        requires
            old(self).wf(),
        ensures
            final(self).wf(),
            final(self).same_services(old(self)),
            old(self).conclude_post(final(self).ledger(), verified@, outcome, r),
    ;

    /// Takes the presentation token of the exchange `state`, verifies it and
    /// every credential in it, and says what is owed to the client.
    ///
    /// A closed ceremony takes no presentation. Otherwise the token is
    /// stored on the verification whatever the verification gives, and with
    /// it the holder that the verification leaves: the one that the row had
    /// where the token is refused as a token or for its nonce, `sub` or
    /// `iss`, and the signer of the token once these have passed. A failure
    /// of the verification is of the class `Security`; it succeeds only
    /// where the presentation and each of its credentials are signed by the
    /// keys of their DIDs and pass every check of their claims: see
    /// `verified_as`. What follows the verification is what
    /// `conclude_verification` does with its outcome.
    fn verify(&mut self, state: String, vp_token: String) -> (r: Result<
        EndOfVerification,
        Errors,
    >)
        requires
            old(self).wf(),
        ensures
            final(self).wf(),
            final(self).same_services(old(self)),
            match old(self).ledger().verification(Key::State, state@) {
                None => r matches Err(e) && e.kind == ErrorKind::MissingResource && e.reason
                    == Reason::NotFound && final(self).ledger() == old(self).ledger(),
                Some(ver) => if old(self).ledger().ceremony(Key::State, state@).unwrap().closed() {
                    r matches Err(e) && e.kind == ErrorKind::Forbidden && e.reason
                        == Reason::Sealed && final(self).ledger() == old(self).ledger()
                } else {
                    let stored = final(self).ledger().verification(Key::State, state@);
                    &&& stored matches Some(row)
                    &&& row == (verification::ModelView {
                        vpt: Some(vp_token@),
                        holder: row.holder,
                        ..ver
                    })
                    &&& final(self).ledger() == old(self).ledger().put_verification(row)
                    &&& exists|outcome: Result<(), Errors>|
                        {
                            &&& #[trigger] old(self).conclude_post(
                                final(self).ledger(),
                                row,
                                outcome,
                                r,
                            )
                            &&& verified_as(ver, row, vp_token@, outcome)
                        }
                },
            },
    ;
}

impl<G: GateKeeperTrait, I: IssuerTrait, V: VerifierTrait, R: RepoTrait> Core<G, I, V, R> {
    /// An orchestrator of the given services over the given store.
    pub fn new(
        gatekeeper: G,
        issuer: I,
        verifier: V,
        repo: R,
    ) -> (r: Self)
        requires
            repo.rows().wf(),
        ensures
            r.wf(),
            r.ledger() == repo.rows(),
            r.spec_gatekeeper() == gatekeeper,
            r.spec_issuer() == issuer,
            r.spec_verifier() == verifier,
    {
        Core { ledger: repo, gatekeeper, issuer, verifier }
    }

    /// True when the ceremony `id` exists and is closed: its request is
    /// finalized or its credential is written.
    pub fn is_closed(&self, id: &str) -> (r: bool)
        ensures
            r == (self.ledger().ceremony(Key::Id, id@) matches Some(c) && c.closed()),
    {
        let finalized = match self.ledger.get_request(id) {
            Ok(row) => match row.status {
                RequestStatus::Finalized => true,
                _ => false,
            },
            Err(_) => false,
        };
        let issued = match self.ledger.get_issuing(id) {
            Ok(row) => row.credential.is_some(),
            Err(_) => false,
        };
        finalized || issued
    }
}

impl<G: GateKeeperTrait, I: IssuerTrait, V: VerifierTrait, R: RepoTrait> CoreTrait for Core<G, I, V, R> {
    type Gate = G;

    type Issuer = I;

    type Verifier = V;

    type Repo = R;

    closed spec fn ledger(&self) -> LedgerView {
        self.ledger.rows()
    }

    closed spec fn spec_gatekeeper(&self) -> G {
        self.gatekeeper
    }

    closed spec fn spec_issuer(&self) -> I {
        self.issuer
    }

    closed spec fn spec_verifier(&self) -> V {
        self.verifier
    }

    fn gatekeeper(&self) -> (r: &G) {
        &self.gatekeeper
    }

    fn issuer(&self) -> (r: &I) {
        &self.issuer
    }

    fn vp_verifier(&self) -> (r: &V) {
        &self.verifier
    }

    fn repo(&self) -> (r: &R) {
        &self.ledger
    }
}

impl<G: GateKeeperTrait, I: IssuerTrait, V: VerifierTrait, R: RepoTrait> CoreGatekeeperTrait for Core<G, I, V, R> {
    fn manage_req_with(&mut self, payload: GrantRequest, seed: CeremonySeed) -> (r: Result<
        GrantResponse,
        Errors,
    >) {
        let ghost before = self.ledger.rows();
        let ghost req = spec_new_request(payload, seed);
        let ghost inter = self.spec_new_interaction(payload, seed);
        let ghost ver = self.spec_new_verification(seed);
        let ghost only_request = CeremonyView {
            request: req,
            interaction: None,
            verification: None,
            issuing: None,
        };
        let CeremonySeed { id, continue_token, interaction: int_seed, verification: ver_seed } = seed;
        let (n_req_mod, n_int_model) = self.gatekeeper.start_with(payload, id, continue_token)?;
        let wants_vp = contains_text(&n_int_model.start, "oidc4vp");
        proof {
            lemma_has_text_by_texts(
                n_int_model.start@,
                payload.interact.unwrap().start@,
                oidc4vp(),
            );
        }

        self.ledger.create_request(n_req_mod)?;
        proof {
            lemma_first_match(before.ceremonies, Key::Id, req.id, 0);
            lemma_first_match_push(before.ceremonies, only_request, Key::Id, inter.id);
            lemma_first_match_push(
                before.ceremonies,
                only_request,
                Key::ContinueId,
                inter.continue_id,
            );
            lemma_first_match_push(
                before.ceremonies,
                only_request,
                Key::ContinueToken,
                inter.continue_token,
            );
        }
        let int_model = self.ledger.create_interaction(n_int_model, int_seed)?;
        let ghost with_int = only_request.with_interaction(Some(inter));
        assert(self.ledger.rows().ceremonies =~= before.ceremonies.push(with_int));

        if wants_vp {
            let n_ver_model = self.verifier.start_vp(int_model.id.as_str(), VcType::Identity)?;
            proof {
                lemma_first_match_push(before.ceremonies, with_int, Key::Id, ver.id);
                lemma_first_match_push(before.ceremonies, with_int, Key::State, ver.state);
            }
            let ver_model = self.ledger.create_verification(n_ver_model, ver_seed)?;
            assert(self.ledger.rows().ceremonies =~= before.ceremonies.push(
                with_int.with_verification(Some(ver)),
            ));
            let uri = self.verifier.generate_verification_uri(ver_model);
            return Ok(
                GrantResponse::default4oidc4vp(
                    int_model.id,
                    int_model.continue_endpoint,
                    int_model.continue_token,
                    int_model.as_nonce,
                    uri,
                ),
            );
        }
        Ok(
            GrantResponse::default4cross_user(
                int_model.id,
                int_model.continue_endpoint,
                int_model.continue_token,
                int_model.as_nonce,
            ),
        )
    }

    fn manage_req(&mut self, payload: GrantRequest) -> (r: Result<GrantResponse, Errors>) {
        let id = new_uuid();
        let seed = CeremonySeed {
            id: id.clone(),
            continue_token: create_opaque_token(),
            interaction: interaction::Seed {
                continue_id: id,
                as_nonce: create_opaque_token(),
                interact_ref: create_opaque_token(),
                hash: create_opaque_token(),
            },
            verification: verification::Seed {
                state: create_opaque_token(),
                nonce: create_opaque_token(),
            },
        };
        self.manage_req_with(payload, seed)
    }

    fn manage_cont_req_with(
        &mut self,
        cont_id: String,
        payload: RefBody,
        token: String,
        seed: issuing::Seed,
    ) -> (r: Result<String, Errors>) {
        let ghost before = self.ledger.rows();
        let ghost at = first_match(before.ceremonies, Key::ContinueId, cont_id@, 0);
        proof {
            lemma_first_match(before.ceremonies, Key::ContinueId, cont_id@, 0);
        }
        let int_model = match self.ledger.get_interaction_by_cont_id(cont_id.as_str()) {
            Ok(row) => row,
            Err(e) => {
                return Err(e);
            },
        };
        proof {
            assert(before.ceremonies[at].consistent());
            lemma_unique_match(before.ceremonies, Key::Id, int_model@.id, at);
        }
        self.gatekeeper.validate_cont_req(&int_model, payload.interact_ref, token)?;
        let mut req_model = match self.ledger.get_request(int_model.id.as_str()) {
            Ok(row) => row,
            Err(e) => {
                return Err(e);
            },
        };
        match req_model.status {
            RequestStatus::Approved => match &req_model.vc_uri {
                Some(uri) => {
                    return Ok(uri.clone());
                },
                None => {},
            },
            _ => {},
        }
        let vc_uri = self.issuer.generate_issuing_uri(int_model.id.as_str());
        req_model.status = RequestStatus::Approved;
        req_model.vc_uri = Some(vc_uri.clone());
        let req_model = self.ledger.update_request(req_model)?;
        let iss_model = self.issuer.start_vci(&req_model);
        self.ledger.create_issuing(iss_model, seed)?;
        Ok(vc_uri)
    }

    fn manage_cont_req(&mut self, cont_id: String, payload: RefBody, token: String) -> (r:
        Result<String, Errors>) {
        let seed = issuing::Seed {
            tx_code: create_opaque_token(),
            pre_auth_code: create_opaque_token(),
            token: create_opaque_token(),
            credential_id: new_uuid(),
        };
        let ghost view = seed@;
        let r = self.manage_cont_req_with(cont_id, payload, token, seed);
        assert(old(self).cont_req_post(
            self.ledger(),
            cont_id@,
            payload.interact_ref@,
            token@,
            view,
            r,
        ));
        r
    }
}

impl<G: GateKeeperTrait, I: IssuerTrait, V: VerifierTrait, R: RepoTrait> CoreIssuerTrait for Core<G, I, V, R> {
    fn get_cred_offer_data(&mut self, id: String) -> (r: Result<VCCredOffer, Errors>) {
        let mut model = match self.ledger.get_issuing(id.as_str()) {
            Ok(row) => row,
            Err(e) => {
                return Err(e);
            },
        };
        let data = self.issuer.get_cred_offer_data(&model)?;
        if model.step {
            model.step = false;
            self.ledger.update_issuing(model)?;
        }
        Ok(data)
    }

    fn issuer_metadata(&self) -> (r: IssuerMetadata) {
        self.issuer.get_issuer_data()
    }

    fn oauth_server_metadata(&self) -> (r: AuthServerMetadata) {
        self.issuer.get_oauth_server_data()
    }

    fn get_token(&self, payload: TokenRequest) -> (r: Result<IssuingToken, Errors>) {
        proof {
            lemma_first_match(self.ledger.rows().ceremonies, Key::TxCode, payload.tx_code@, 0);
        }
        let model = match self.ledger.get_issuing_by_tx_code(payload.tx_code.as_str()) {
            Ok(row) => row,
            Err(e) => {
                return Err(e);
            },
        };
        self.issuer.validate_token_req(
            &model,
            payload.tx_code.as_str(),
            payload.pre_authorized_code.as_str(),
        )?;
        Ok(self.issuer.get_token(&model))
    }

    fn deliver_credential(&mut self, token: &str, holder: &str, did: &str, pem: &str, at: &Instant) -> (r:
        Result<GiveVC, Errors>) {
        let ghost before = self.ledger.rows();
        let ghost place = first_match(before.ceremonies, Key::Token, token@, 0);
        proof {
            lemma_first_match(before.ceremonies, Key::Token, token@, 0);
        }
        let mut iss_model = match self.ledger.get_issuing_by_token(token) {
            Ok(row) => row,
            Err(e) => {
                return Err(e);
            },
        };
        let ghost iss = iss_model@;
        proof {
            assert(before.ceremonies[place].consistent());
            lemma_unique_match(before.ceremonies, Key::Id, iss.id, place);
            lemma_unique_match(before.ceremonies, Key::TxCode, iss.tx_code, place);
        }
        let issued_before = iss_model.credential.is_some();
        let req_model = match self.ledger.get_request(iss_model.id.as_str()) {
            Ok(row) => row,
            Err(e) => {
                return Err(e);
            },
        };
        if !issued_before {
            match req_model.status {
                RequestStatus::Finalized => {
                    return Err(Errors::forbidden_new(Reason::Sealed, token));
                },
                _ => {},
            }
            iss_model.did = Some(String::from_str(holder));
        }
        let data = self.issuer.issue_cred_at(&mut iss_model, did, pem, at)?;
        if issued_before {
            return Ok(data);
        }
        let int_model = match self.ledger.get_interaction(iss_model.id.as_str()) {
            Ok(row) => row,
            Err(e) => {
                return Err(e);
            },
        };
        let minion = self.issuer.end(&req_model, &int_model, &iss_model)?;
        self.ledger.update_issuing(iss_model)?;
        let written = self.ledger.force_create(minion, *at);
        Ok(data)
    }

    fn get_credential(&mut self, payload: CredentialRequest, token: String, did: &str, pem: &str) -> (r:
        Result<GiveVC, Errors>) {
        proof {
            lemma_first_match(self.ledger.rows().ceremonies, Key::Token, token@, 0);
        }
        let mut iss_model = match self.ledger.get_issuing_by_token(token.as_str()) {
            Ok(row) => row,
            Err(e) => {
                return Err(e);
            },
        };
        self.issuer.validate_cred_req(&mut iss_model, &payload, token.as_str())?;
        let holder = match iss_model.did {
            Some(holder) => holder,
            None => String::new(),
        };
        let at = now();
        let r = self.deliver_credential(token.as_str(), holder.as_str(), did, pem, &at);
        assert(r.is_ok() ==> deliver_post(
            old(self).ledger(),
            self.ledger(),
            token@,
            holder@,
            did@,
            pem@,
            at,
            r,
        ));
        r
    }
}

impl<G: GateKeeperTrait, I: IssuerTrait, V: VerifierTrait, R: RepoTrait> CoreVcsTrait for Core<G, I, V, R> {
    fn get_all(&self) -> (r: Vec<request::Model>) {
        self.ledger.get_all_requests(None, None)
    }

    fn get_by_id(&self, id: String) -> (r: Result<request::Model, Errors>) {
        self.ledger.get_request(id.as_str())
    }

    fn decision_callback(&self, id: &str, approve: bool) -> (r: Result<Callback, Errors>) {
        self.ledger.get_request(id)?;
        let int_model = self.ledger.get_interaction(id)?;
        if self.is_closed(id) {
            return Err(Errors::forbidden_new(Reason::Sealed, id));
        }
        Ok(self.gatekeeper.decision_callback(approve, &int_model))
    }

    fn manage_req(&mut self, id: String, payload: VcDecisionApproval, status: u16) -> (r:
        Result<(), Errors>) {
        proof {
            lemma_first_match(self.ledger.rows().ceremonies, Key::Id, id@, 0);
        }
        let mut req_model = match self.ledger.get_request(id.as_str()) {
            Ok(row) => row,
            Err(e) => {
                return Err(e);
            },
        };
        let int_model = match self.ledger.get_interaction(id.as_str()) {
            Ok(row) => row,
            Err(e) => {
                return Err(e);
            },
        };
        if self.is_closed(id.as_str()) {
            return Err(Errors::forbidden_new(Reason::Sealed, id.as_str()));
        }
        let outcome = self.gatekeeper.apprv_dny_req(
            payload.approve,
            &mut req_model,
            &int_model,
            status,
        );
        self.ledger.update_request(req_model)?;
        outcome
    }
}

impl<G: GateKeeperTrait, I: IssuerTrait, V: VerifierTrait, R: RepoTrait> CoreVerifierTrait for Core<G, I, V, R> {
    fn get_vp_def(&self, state: String) -> (r: Result<VPDef, Errors>) {
        let ver_model = match self.ledger.get_verification_by_state(state.as_str()) {
            Ok(row) => row,
            Err(e) => {
                return Err(e);
            },
        };
        Ok(self.verifier.generate_vpd(ver_model))
    }

    fn conclude_verification(
        &mut self,
        verified: verification::Model,
        outcome: Result<(), Errors>,
    ) -> (r: Result<EndOfVerification, Errors>) {
        let ghost before = self.ledger.rows();
        let ghost place = before.position(verified@.id);
        let id = verified.id.clone();
        self.ledger.update_verification(verified)?;
        match outcome {
            Ok(_) => {},
            Err(e) => {
                return Err(e);
            },
        }
        proof {
            lemma_first_match(before.ceremonies, Key::Id, id@, 0);
            let c = before.ceremonies[place].with_verification(Some(verified@));
            lemma_first_match_update(before.ceremonies, place, c, Key::Id, id@, 0);
        }
        let int_model = match self.ledger.get_interaction(id.as_str()) {
            Ok(found) => found,
            Err(e) => {
                return Err(e);
            },
        };
        self.gatekeeper.end_verification(int_model)
    }

    fn verify(&mut self, state: String, vp_token: String) -> (r: Result<
        EndOfVerification,
        Errors,
    >) {
        let ghost before = self.ledger.rows();
        let ghost place = first_match(before.ceremonies, Key::State, state@, 0);
        proof {
            lemma_first_match(before.ceremonies, Key::State, state@, 0);
        }
        let mut ver_model = match self.ledger.get_verification_by_state(state.as_str()) {
            Ok(row) => row,
            Err(e) => {
                return Err(e);
            },
        };
        let ghost ver = ver_model@;
        proof {
            assert(before.ceremonies[place].consistent());
            lemma_unique_match(before.ceremonies, Key::Id, ver.id, place);
        }
        if self.is_closed(ver_model.id.as_str()) {
            return Err(Errors::forbidden_new(Reason::Sealed, state.as_str()));
        }
        let outcome = self.verifier.verify_all(&mut ver_model, vp_token);
        let ghost row = ver_model@;
        proof {
            let c = before.ceremonies[place].with_verification(Some(row));
            lemma_first_match_update_to(before.ceremonies, place, c, Key::State, state@);
        }
        let r = self.conclude_verification(ver_model, outcome);
        assert(old(self).conclude_post(self.ledger(), row, outcome, r));
        r
    }
}

} // verus!
