//! The gatekeeper: takes grant requests, authenticates continuations and
//! decides what is sent back to the client when a ceremony moves on.
use vstd::prelude::*;
use vstd::string::*;
use crate::data::entities::{interaction, request};
use crate::data::entities::request::RequestStatus;
use crate::errors::{ErrorKind, Errors, Reason};
use crate::json::Json;
use crate::outside::{
    base64_bytes, base64_decode, certificate_subject, new_uuid, x509_subject, UUID_TEXT_LEN,
};
use crate::text::{
    contains_text, copy_opt, ct_eq, has_prefix, has_text, opt_text, str_eq, strip_prefix,
};
use crate::types::gnap::{
    callback_json, rejected_json, CallbackBody, GrantRequest, Interact4GR, RejectedCallbackBody,
};
use crate::types::host::HostConfig;
use crate::types::vc_type::VcType;
use crate::types::vcs::VCIData;
use crate::utils::{create_opaque_token, is_opaque_token};

verus! {

/// What a gatekeeper needs to know of the server it runs in.
#[derive(Clone, Debug, PartialEq, Eq)]
pub struct GnapConfig {
    pub host: HostConfig,
    pub api_path: String,
}

impl GnapConfig {
    /// The address of the server.
    pub fn get_host(&self) -> (r: String)
        ensures
            r@ == self.host.spec_url(),
    {
        self.host.url()
    }

    /// Host name and server port.
    pub fn get_host_without_protocol(&self) -> (r: String)
        ensures
            r@ == self.host.spec_authority(),
    {
        self.host.authority()
    }

    /// The prefix of every endpoint.
    pub fn get_api_path(&self) -> (r: String)
        ensures
            r@ == self.api_path@,
    {
        self.api_path.clone()
    }
}

/// A message for the client, to be posted as JSON to `uri`.
#[derive(Debug, PartialEq, Eq)]
pub struct Callback {
    pub uri: String,
    pub body: Json,
}

/// What is owed to the client when a verification has ended.
#[derive(Debug, PartialEq, Eq)]
pub enum EndOfVerification {
    /// The wallet is to be sent to this URL.
    Redirect(String),
    /// This message is to be posted to the client.
    Push(Callback),
}

/// The gatekeeper.
#[derive(Clone, Debug)]
pub struct GnapService {
    config: GnapConfig,
}

/// The start mode of the OpenID4VP branch.
pub open spec fn oidc4vp() -> Seq<char> {
    "oidc4vp"@
}

/// The start mode of the cross-user branch.
pub open spec fn cross_user() -> Seq<char> {
    "cross-user"@
}

/// Why a grant request cannot be taken, if it cannot: no interaction block or
/// no start mode that the server speaks (`NotImplemented`), then no callback
/// (`BadFormat`).
pub open spec fn access_verdict(payload: GrantRequest) -> Option<(ErrorKind, Reason)> {
    match payload.interact {
        None => Some((ErrorKind::NotImplemented, Reason::MissingInteract)),
        Some(interact) => if !has_text(interact.start@, cross_user()) && !has_text(
            interact.start@,
            oidc4vp(),
        ) {
            Some((ErrorKind::NotImplemented, Reason::UnsupportedStart))
        } else if interact@.uri.is_none() || interact@.uri.unwrap().len() == 0 {
            Some((ErrorKind::BadFormat, Reason::MissingFinishUri))
        } else {
            None
        },
    }
}

/// Why a ceremony cannot be started for a grant request, if it cannot: what
/// `access_verdict` says, then an unknown credential type (`BadFormat`).
pub open spec fn start_verdict(payload: GrantRequest) -> Option<(ErrorKind, Reason)> {
    match access_verdict(payload) {
        Some(why) => Some(why),
        None => if VcType::spec_from(payload.access_token.access.kind@).is_none() {
            Some((ErrorKind::BadFormat, Reason::UnknownVcType))
        } else {
            None
        },
    }
}

/// A subject without the `CN=` that it may start with.
pub open spec fn common_name(subject: Seq<char>) -> Seq<char> {
    if has_prefix(subject, "CN="@) {
        subject.skip("CN="@.len() as int)
    } else {
        subject
    }
}

/// What the certificate of a request says of the participant: its name, its
/// website and the credential type, or why nothing can be said.
pub open spec fn spec_vci_data(model: request::ModelView) -> Result<
    (Seq<char>, Seq<char>, VcType),
    Reason,
> {
    match model.cert {
        None => Err(Reason::MissingCert),
        Some(cert) => match base64_bytes(cert) {
            None => Err(Reason::InvalidCert),
            Some(der) => match x509_subject(der) {
                None => Err(Reason::InvalidCert),
                Some(subject) => match VcType::spec_from(model.vc_type) {
                    None => Err(Reason::UnknownVcType),
                    Some(vc_type) => Ok(
                        (model.participant_slug, "http://"@ + common_name(subject), vc_type),
                    ),
                },
            },
        },
    }
}

/// The request that a grant request becomes under the id `id`: the
/// participant goes by its class id, or by `Slug` where it has none.
pub open spec fn spec_request_new(payload: GrantRequest, id: Seq<char>) -> request::NewModelView {
    request::NewModelView {
        id,
        participant_slug: match payload.client.class_id {
            Some(slug) => slug@,
            None => "Slug"@,
        },
        cert: opt_text(payload.client.key.cert),
        vc_type: payload.access_token.access.kind@,
    }
}

/// The interaction that a grant request with an interaction block and a
/// callback becomes under the id `id`, with the continuation token
/// `continue_token`, at the gatekeeper whose address is `gate_url`: grants
/// are asked for at `/access` and continued at `/continue`.
pub open spec fn spec_interaction_new(
    gate_url: Seq<char>,
    payload: GrantRequest,
    id: Seq<char>,
    continue_token: Seq<char>,
) -> interaction::NewModelView {
    let interact = payload.interact.unwrap()@;
    interaction::NewModelView {
        id,
        start: interact.start,
        method: interact.method,
        uri: interact.uri.unwrap(),
        client_nonce: interact.nonce,
        hash_method: interact.hash_method,
        hints: interact.hints,
        grant_endpoint: gate_url + "/access"@,
        continue_endpoint: gate_url + "/continue"@,
        continue_token,
    }
}

/// What a gatekeeper does.
pub trait GateKeeperTrait {
    /// The address of the gatekeeper.
    spec fn spec_gate_url(&self) -> Seq<char>;

    /// Checks that a grant request can be taken and returns its interaction
    /// block.
    fn validate_acc_req(&self, payload: &GrantRequest) -> (r: Result<Interact4GR, Errors>)
        ensures
            match access_verdict(*payload) {
                None => r matches Ok(interact) && payload.interact.is_some() && interact@
                    == payload.interact.unwrap()@,
                Some((kind, why)) => r matches Err(e) && e.kind == kind && e.reason == why
                    && e.http_code.is_none(),
            },
    ;

    /// Starts a ceremony for a grant request under the id `id`, with the
    /// continuation token `continue_token`: the request and the interaction
    /// to be stored. The participant goes by its class id, or by `Slug` where
    /// it has none; grants are asked for at `/gate/access` and continued at
    /// `/gate/continue`.
    fn start_with(&self, payload: GrantRequest, id: String, continue_token: String) -> (r:
        Result<(request::NewModel, interaction::NewModel), Errors>)
        ensures
            match start_verdict(payload) {
                None => r matches Ok(models) && models.0@ == spec_request_new(payload, id@)
                    && models.1@ == spec_interaction_new(
                    self.spec_gate_url(),
                    payload,
                    id@,
                    continue_token@,
                ),
                Some((kind, why)) => r matches Err(e) && e.kind == kind && e.reason == why
                    && e.http_code.is_none(),
            },
    ;

    /// Starts a ceremony for a grant request under a fresh id, a UUID, and
    /// with a fresh continuation token, an opaque token: see `start_with`.
    /// Both models carry the same id.
    fn start(&self, payload: GrantRequest) -> (r: Result<
        (request::NewModel, interaction::NewModel),
        Errors,
    >)
        ensures
            match start_verdict(payload) {
                None => r matches Ok(models) && models.0@ == spec_request_new(payload, models.0@.id)
                    && models.1@ == spec_interaction_new(
                    self.spec_gate_url(),
                    payload,
                    models.0@.id,
                    models.1@.continue_token,
                ) && models.0@.id.len() == UUID_TEXT_LEN && is_opaque_token(
                    models.1@.continue_token,
                ),
                Some((kind, why)) => r matches Err(e) && e.kind == kind && e.reason == why
                    && e.http_code.is_none(),
            },
    ;

    /// What the certificate of a request says of the participant: the website
    /// is `http://` and the subject of the certificate without its `CN=`.
    /// Every failure is of the class `BadFormat`.
    fn manage_cont_req(&self, req_model: &request::Model) -> (r: Result<VCIData, Errors>)
        ensures
            match spec_vci_data(req_model@) {
                Ok((name, website, vc_type)) => r matches Ok(data) && data.name@ == name
                    && data.website@ == website && data.vc_type == vc_type,
                Err(why) => r matches Err(e) && e.kind == ErrorKind::BadFormat && e.reason == why
                    && e.http_code.is_none(),
            },
    ;

    /// Authenticates a continuation: the interaction reference and the token
    /// of the caller must be those of the interaction. Both are compared in
    /// constant time, whatever the first comparison gives; a wrong reference,
    /// then a wrong token, is a `Security` failure.
    fn validate_cont_req(&self, int_model: &interaction::Model, int_ref: String, token: String) -> (r:
        Result<(), Errors>)
        ensures
            match r {
                Ok(_) => int_ref@ == int_model@.interact_ref && token@ == int_model@.continue_token,
                Err(e) => e.kind == ErrorKind::Security && e.http_code.is_none() && if int_ref@
                    != int_model@.interact_ref {
                    e.reason == Reason::InteractRefMismatch
                } else {
                    token@ != int_model@.continue_token && e.reason
                        == Reason::ContinueTokenMismatch
                },
            },
    ;

    /// What is owed to the client when its verification has ended. For the
    /// method `redirect`, the URL to which the wallet is sent: the callback
    /// with the hash and the interaction reference as its query. For the
    /// method `push`, the message to post to the callback. Any other method
    /// is `NotImplemented`.
    fn end_verification(&self, model: interaction::Model) -> (r: Result<
        EndOfVerification,
        Errors,
    >)
        ensures
            match r {
                Ok(EndOfVerification::Redirect(url)) => model@.method == "redirect"@ && url@
                    == model@.uri + "?hash="@ + model@.hash + "&interact_ref="@
                    + model@.interact_ref,
                Ok(EndOfVerification::Push(callback)) => model@.method != "redirect"@
                    && model@.method == "push"@ && callback.uri@ == model@.uri && callback.body@
                    == callback_json(model@.interact_ref, model@.hash),
                Err(e) => model@.method != "redirect"@ && model@.method != "push"@ && e.kind
                    == ErrorKind::NotImplemented && e.reason == Reason::UnsupportedFinishMethod
                    && e.http_code.is_none(),
            },
    ;

    /// The message that tells the client of the decision of the operator: on
    /// approval the interaction reference and the hash, on denial that the
    /// petition was rejected. It goes to the callback of the client.
    fn decision_callback(&self, approve: bool, int_model: &interaction::Model) -> (r: Callback)
        ensures
            r.uri@ == int_model@.uri,
            r.body@ == if approve {
                callback_json(int_model@.interact_ref, int_model@.hash)
            } else {
                rejected_json("Petition was rejected"@)
            },
    ;

    /// Records the decision of the operator once the client has answered the
    /// callback with `status`. With 200 the request is approved, or
    /// finalized on denial. Any other status is fatal: the request is marked
    /// as a minion failure and a `Consumer` failure that carries the status
    /// is returned.
    fn apprv_dny_req(
        &self,
        approve: bool,
        req_model: &mut request::Model,
        int_model: &interaction::Model,
        status: u16,
    ) -> (r: Result<(), Errors>)
        ensures
            final(req_model)@ == (request::ModelView {
                status: if status != 200 {
                    RequestStatus::MinionFailure
                } else if approve {
                    RequestStatus::Approved
                } else {
                    RequestStatus::Finalized
                },
                ..old(req_model)@
            }),
            match r {
                Ok(_) => status == 200,
                Err(e) => status != 200 && e.kind == ErrorKind::Consumer && e.reason
                    == Reason::CallbackRefused && e.http_code == Some(status) && e.detail@
                    == int_model@.uri,
            },
    ;
}

impl GnapService {
    pub fn new(config: GnapConfig) -> (r: GnapService)
        ensures
            r.config() == config,
    {
        GnapService { config }
    }

    /// The configuration that the service was made with.
    pub closed spec fn config(&self) -> GnapConfig {
        self.config
    }

}

impl GateKeeperTrait for GnapService {
    open spec fn spec_gate_url(&self) -> Seq<char> {
        self.config().host.spec_url() + self.config().api_path@ + "/gate"@
    }

    fn validate_acc_req(&self, payload: &GrantRequest) -> (r: Result<Interact4GR, Errors>) {
        let interact = match &payload.interact {
            Some(interact) => interact,
            None => {
                return Err(
                    Errors::not_impl_new(
                        Reason::MissingInteract,
                        "Only petitions with an 'interact field' are supported right now",
                    ),
                );
            },
        };
        if !contains_text(&interact.start, "cross-user") && !contains_text(
            &interact.start,
            "oidc4vp",
        ) {
            return Err(
                Errors::not_impl_new(Reason::UnsupportedStart, "Interact method not supported yet"),
            );
        }
        let has_uri = match &interact.finish.uri {
            Some(uri) => uri.as_str().unicode_len() > 0,
            None => false,
        };
        if !has_uri {
            return Err(
                Errors::format_new(
                    Reason::MissingFinishUri,
                    "Interact method does not have an uri",
                ),
            );
        }
        Ok(interact.duplicate())
    }

    fn start_with(&self, payload: GrantRequest, id: String, continue_token: String) -> (r:
        Result<(request::NewModel, interaction::NewModel), Errors>) {
        let interact = self.validate_acc_req(&payload)?;
        VcType::from_str(payload.access_token.access.kind.as_str())?;
        let participant_slug = match &payload.client.class_id {
            Some(slug) => slug.clone(),
            None => "Slug".to_string(),
        };
        let new_request_model = request::NewModel {
            id: id.clone(),
            participant_slug,
            cert: copy_opt(&payload.client.key.cert),
            vc_type: payload.access_token.access.kind.clone(),
        };
        let mut host_url = self.config.get_host();
        host_url.append(self.config.api_path.as_str());
        host_url.append("/gate");
        let mut continue_endpoint = host_url.clone();
        continue_endpoint.append("/continue");
        let mut grant_endpoint = host_url;
        grant_endpoint.append("/access");
        let uri = match interact.finish.uri {
            Some(uri) => uri,
            None => String::new(),
        };
        let new_interaction_model = interaction::NewModel {
            id,
            start: interact.start,
            method: interact.finish.method,
            uri,
            client_nonce: interact.finish.nonce,
            hash_method: interact.finish.hash_method,
            hints: interact.hints,
            grant_endpoint,
            continue_endpoint,
            continue_token,
        };
        Ok((new_request_model, new_interaction_model))
    }

    fn start(&self, payload: GrantRequest) -> (r: Result<
        (request::NewModel, interaction::NewModel),
        Errors,
    >) {
        let id = new_uuid();
        let continue_token = create_opaque_token();
        self.start_with(payload, id, continue_token)
    }

    fn manage_cont_req(&self, req_model: &request::Model) -> (r: Result<VCIData, Errors>) {
        let base_cert = match &req_model.cert {
            Some(cert) => cert,
            None => {
                return Err(
                    Errors::format_new(
                        Reason::MissingCert,
                        "There was no cert in the Grant Request",
                    ),
                );
            },
        };
        let der = match base64_decode(base_cert.as_str()) {
            Ok(bytes) => bytes,
            Err(why) => {
                return Err(Errors::format_new(Reason::InvalidCert, why.as_str()));
            },
        };
        let subject = match certificate_subject(&der) {
            Ok(subject) => subject,
            Err(why) => {
                return Err(Errors::format_new(Reason::InvalidCert, why.as_str()));
            },
        };
        let clean = match strip_prefix(subject.as_str(), "CN=") {
            Some(rest) => rest,
            None => subject,
        };
        let mut website = String::from_str("http://");
        website.append(clean.as_str());
        let vc_type = VcType::from_str(req_model.vc_type.as_str())?;
        Ok(VCIData { name: req_model.participant_slug.clone(), website, vc_type })
    }

    fn validate_cont_req(&self, int_model: &interaction::Model, int_ref: String, token: String) -> (r:
        Result<(), Errors>) {
        let same_ref = ct_eq(int_ref.as_str(), int_model.interact_ref.as_str());
        let same_token = ct_eq(token.as_str(), int_model.continue_token.as_str());
        if !same_ref {
            return Err(
                Errors::security_new(
                    Reason::InteractRefMismatch,
                    "Interact reference does not match",
                ),
            );
        }
        if !same_token {
            return Err(
                Errors::security_new(Reason::ContinueTokenMismatch, "Token does not match"),
            );
        }
        Ok(())
    }

    fn end_verification(&self, model: interaction::Model) -> (r: Result<
        EndOfVerification,
        Errors,
    >) {
        if str_eq(model.method.as_str(), "redirect") {
            let mut redirect_uri = model.uri.clone();
            redirect_uri.append("?hash=");
            redirect_uri.append(model.hash.as_str());
            redirect_uri.append("&interact_ref=");
            redirect_uri.append(model.interact_ref.as_str());
            Ok(EndOfVerification::Redirect(redirect_uri))
        } else if str_eq(model.method.as_str(), "push") {
            let body = CallbackBody { interact_ref: model.interact_ref, hash: model.hash };
            Ok(EndOfVerification::Push(Callback { uri: model.uri, body: body.to_json() }))
        } else {
            Err(
                Errors::not_impl_new(
                    Reason::UnsupportedFinishMethod,
                    model.method.as_str(),
                ),
            )
        }
    }

    fn decision_callback(&self, approve: bool, int_model: &interaction::Model) -> (r: Callback) {
        let body = if approve {
            CallbackBody {
                interact_ref: int_model.interact_ref.clone(),
                hash: int_model.hash.clone(),
            }.to_json()
        } else {
            RejectedCallbackBody { rejected: "Petition was rejected".to_string() }.to_json()
        };
        Callback { uri: int_model.uri.clone(), body }
    }

    fn apprv_dny_req(
        &self,
        approve: bool,
        req_model: &mut request::Model,
        int_model: &interaction::Model,
        status: u16,
    ) -> (r: Result<(), Errors>) {
        if status == 200 {
            req_model.status = if approve {
                RequestStatus::Approved
            } else {
                RequestStatus::Finalized
            };
            Ok(())
        } else {
            req_model.status = RequestStatus::MinionFailure;
            Err(Errors::consumer_new(int_model.uri.as_str(), Some(status)))
        }
    }
}

} // verus!
