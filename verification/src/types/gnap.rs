//! What the gatekeeper exchanges with clients.
use vstd::prelude::*;
use vstd::string::*;
use crate::json::{lemma_object_view, Json, JsonView, Member, MemberView};
use crate::text::{copy_opt, copy_texts, opt_text, texts};

verus! {

/// What a client asks access to.
#[derive(Clone, Debug, PartialEq, Eq)]
pub struct Access4AT {
    /// The credential type asked for.
    pub kind: String,
}

/// The access token part of a grant request.
#[derive(Clone, Debug, PartialEq, Eq)]
pub struct AccessTokenRequirements4GR {
    pub access: Access4AT,
}

/// The key that a client presents.
#[derive(Clone, Debug, PartialEq, Eq)]
pub struct Key4GR {
    /// Base64 of the DER form of its X.509 certificate.
    pub cert: Option<String>,
}

/// The client of a grant request.
#[derive(Clone, Debug, PartialEq, Eq)]
pub struct Client4GR {
    pub key: Key4GR,
    pub class_id: Option<String>,
}

/// How the client wants to be told of the outcome.
#[derive(Clone, Debug, PartialEq, Eq)]
pub struct Finish4Interact {
    pub method: String,
    pub uri: Option<String>,
    pub nonce: String,
    pub hash_method: String,
}

/// How the client is ready to interact.
#[derive(Clone, Debug, PartialEq, Eq)]
pub struct Interact4GR {
    pub start: Vec<String>,
    pub finish: Finish4Interact,
    pub hints: Option<String>,
}

/// What an `Interact4GR` holds.
pub struct Interact4GRView {
    pub start: Seq<Seq<char>>,
    pub method: Seq<char>,
    pub uri: Option<Seq<char>>,
    pub nonce: Seq<char>,
    pub hash_method: Seq<char>,
    pub hints: Option<Seq<char>>,
}

impl View for Interact4GR {
    type V = Interact4GRView;

    open spec fn view(&self) -> Interact4GRView {
        Interact4GRView {
            start: texts(self.start@),
            method: self.finish.method@,
            uri: opt_text(self.finish.uri),
            nonce: self.finish.nonce@,
            hash_method: self.finish.hash_method@,
            hints: opt_text(self.hints),
        }
    }
}

impl Interact4GR {
    /// A copy that holds the same values.
    pub fn duplicate(&self) -> (r: Interact4GR)
        ensures
            r@ == self@,
    {
        Interact4GR {
            start: copy_texts(&self.start),
            finish: Finish4Interact {
                method: self.finish.method.clone(),
                uri: copy_opt(&self.finish.uri),
                nonce: self.finish.nonce.clone(),
                hash_method: self.finish.hash_method.clone(),
            },
            hints: copy_opt(&self.hints),
        }
    }
}

/// A grant request.
#[derive(Clone, Debug, PartialEq, Eq)]
pub struct GrantRequest {
    pub access_token: AccessTokenRequirements4GR,
    pub client: Client4GR,
    pub interact: Option<Interact4GR>,
}

/// Where and with which token the client continues.
#[derive(Clone, Debug, PartialEq, Eq)]
pub struct Continue4GResponse {
    pub uri: String,
    pub access_token: String,
}

/// How the client is to interact.
#[derive(Clone, Debug, PartialEq, Eq)]
pub struct Interact4GResponse {
    /// The URI that asks a wallet for a presentation, on the OpenID4VP branch.
    pub user_code_uri: Option<String>,
    /// The nonce of the authorization server.
    pub finish: String,
}

/// The answer to a grant request.
#[derive(Clone, Debug, PartialEq, Eq)]
pub struct GrantResponse {
    pub instance_id: String,
    pub cont: Continue4GResponse,
    pub interact: Interact4GResponse,
}

impl GrantResponse {
    /// The answer on the OpenID4VP branch: the continuation and the URI that
    /// asks a wallet for a presentation.
    pub fn default4oidc4vp(
        id: String,
        continue_endpoint: String,
        continue_token: String,
        as_nonce: String,
        uri: String,
    ) -> (r: GrantResponse)
        ensures
            r.instance_id == id,
            r.cont.uri == continue_endpoint,
            r.cont.access_token == continue_token,
            r.interact.finish == as_nonce,
            r.interact.user_code_uri == Some(uri),
    {
        GrantResponse {
            instance_id: id,
            cont: Continue4GResponse { uri: continue_endpoint, access_token: continue_token },
            interact: Interact4GResponse { user_code_uri: Some(uri), finish: as_nonce },
        }
    }

    /// The answer on the cross-user branch: the continuation alone.
    pub fn default4cross_user(
        id: String,
        continue_endpoint: String,
        continue_token: String,
        as_nonce: String,
    ) -> (r: GrantResponse)
        ensures
            r.instance_id == id,
            r.cont.uri == continue_endpoint,
            r.cont.access_token == continue_token,
            r.interact.finish == as_nonce,
            r.interact.user_code_uri.is_none(),
    {
        GrantResponse {
            instance_id: id,
            cont: Continue4GResponse { uri: continue_endpoint, access_token: continue_token },
            interact: Interact4GResponse { user_code_uri: None, finish: as_nonce },
        }
    }
}

/// The body of a continuation request.
#[derive(Clone, Debug, PartialEq, Eq)]
pub struct RefBody {
    pub interact_ref: String,
}

/// The callback that tells a client that its request was granted.
#[derive(Clone, Debug, PartialEq, Eq)]
pub struct CallbackBody {
    pub interact_ref: String,
    pub hash: String,
}

/// The callback that tells a client that its request was refused.
#[derive(Clone, Debug, PartialEq, Eq)]
pub struct RejectedCallbackBody {
    pub rejected: String,
}

/// The JSON form of a granting callback.
pub open spec fn callback_json(interact_ref: Seq<char>, hash: Seq<char>) -> JsonView {
    JsonView::Object(
        seq![
            MemberView { name: "interact_ref"@, value: JsonView::Text(interact_ref) },
            MemberView { name: "hash"@, value: JsonView::Text(hash) },
        ],
    )
}

/// The JSON form of a refusing callback.
pub open spec fn rejected_json(rejected: Seq<char>) -> JsonView {
    JsonView::Object(seq![MemberView { name: "rejected"@, value: JsonView::Text(rejected) }])
}

impl CallbackBody {
    /// The body as JSON, with the members `interact_ref` and `hash`.
    pub fn to_json(&self) -> (r: Json)
        ensures
            r@ == callback_json(self.interact_ref@, self.hash@),
    {
        let mut members: Vec<Member> = Vec::new();
        members.push(Member::new("interact_ref", Json::text(self.interact_ref.as_str())));
        members.push(Member::new("hash", Json::text(self.hash.as_str())));
        let r = Json::Object(members);
        proof {
            lemma_object_view(r);
            assert(r@->Object_0 =~= callback_json(self.interact_ref@, self.hash@)->Object_0);
        }
        r
    }
}

impl RejectedCallbackBody {
    /// The body as JSON, with the member `rejected`.
    pub fn to_json(&self) -> (r: Json)
        ensures
            r@ == rejected_json(self.rejected@),
    {
        let mut members: Vec<Member> = Vec::new();
        members.push(Member::new("rejected", Json::text(self.rejected.as_str())));
        let r = Json::Object(members);
        proof {
            lemma_object_view(r);
            assert(r@->Object_0 =~= rejected_json(self.rejected@)->Object_0);
        }
        r
    }
}

} // verus!
