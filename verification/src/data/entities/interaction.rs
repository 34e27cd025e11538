//! The GNAP side of a ceremony.
use vstd::prelude::*;
use vstd::string::*;
use crate::text::{copy_opt, copy_texts, opt_str_eq, opt_text, str_eq, texts, texts_eq};

verus! {

/// What the gatekeeper makes of a grant request.
#[derive(Clone, Debug, PartialEq, Eq)]
pub struct NewModel {
    /// The ceremony id.
    pub id: String,
    /// The interaction modes that the client accepts, in its order.
    pub start: Vec<String>,
    /// How the client wants to be told of the outcome: `redirect` or `push`.
    pub method: String,
    /// The callback of the client.
    pub uri: String,
    /// The nonce that the client chose.
    pub client_nonce: String,
    /// The hash method that the client chose.
    pub hash_method: String,
    /// Hints of the client.
    pub hints: Option<String>,
    /// Where grants are asked for.
    pub grant_endpoint: String,
    /// Where the client continues.
    pub continue_endpoint: String,
    /// The secret that authorises the continuation.
    pub continue_token: String,
}

/// What a `NewModel` holds.
pub struct NewModelView {
    pub id: Seq<char>,
    pub start: Seq<Seq<char>>,
    pub method: Seq<char>,
    pub uri: Seq<char>,
    pub client_nonce: Seq<char>,
    pub hash_method: Seq<char>,
    pub hints: Option<Seq<char>>,
    pub grant_endpoint: Seq<char>,
    pub continue_endpoint: Seq<char>,
    pub continue_token: Seq<char>,
}

impl View for NewModel {
    type V = NewModelView;

    open spec fn view(&self) -> NewModelView {
        NewModelView {
            id: self.id@,
            start: texts(self.start@),
            method: self.method@,
            uri: self.uri@,
            client_nonce: self.client_nonce@,
            hash_method: self.hash_method@,
            hints: opt_text(self.hints),
            grant_endpoint: self.grant_endpoint@,
            continue_endpoint: self.continue_endpoint@,
            continue_token: self.continue_token@,
        }
    }
}

/// The values that the server draws when an interaction is stored.
#[derive(Clone, Debug, PartialEq, Eq)]
pub struct Seed {
    /// The id under which the client continues.
    pub continue_id: String,
    /// The nonce of the authorization server.
    pub as_nonce: String,
    /// The reference that the client must show when it continues.
    pub interact_ref: String,
    /// The hash that binds the nonces and the reference.
    pub hash: String,
}

/// What a `Seed` holds.
pub struct SeedView {
    pub continue_id: Seq<char>,
    pub as_nonce: Seq<char>,
    pub interact_ref: Seq<char>,
    pub hash: Seq<char>,
}

impl View for Seed {
    type V = SeedView;

    open spec fn view(&self) -> SeedView {
        SeedView {
            continue_id: self.continue_id@,
            as_nonce: self.as_nonce@,
            interact_ref: self.interact_ref@,
            hash: self.hash@,
        }
    }
}

/// An interaction as it is stored.
#[derive(Clone, Debug, PartialEq, Eq)]
pub struct Model {
    /// The ceremony id.
    pub id: String,
    /// The interaction modes that the client accepts, in its order.
    pub start: Vec<String>,
    /// How the client wants to be told of the outcome: `redirect` or `push`.
    pub method: String,
    /// The callback of the client.
    pub uri: String,
    /// The nonce that the client chose.
    pub client_nonce: String,
    /// The hash method that the client chose.
    pub hash_method: String,
    /// Hints of the client.
    pub hints: Option<String>,
    /// Where grants are asked for.
    pub grant_endpoint: String,
    /// Where the client continues.
    pub continue_endpoint: String,
    /// The secret that authorises the continuation.
    pub continue_token: String,
    /// The id under which the client continues.
    pub continue_id: String,
    /// The nonce of the authorization server.
    pub as_nonce: String,
    /// The reference that the client must show when it continues.
    pub interact_ref: String,
    /// The hash that binds the nonces and the reference.
    pub hash: String,
}

/// What a `Model` holds.
pub struct ModelView {
    pub id: Seq<char>,
    pub start: Seq<Seq<char>>,
    pub method: Seq<char>,
    pub uri: Seq<char>,
    pub client_nonce: Seq<char>,
    pub hash_method: Seq<char>,
    pub hints: Option<Seq<char>>,
    pub grant_endpoint: Seq<char>,
    pub continue_endpoint: Seq<char>,
    pub continue_token: Seq<char>,
    pub continue_id: Seq<char>,
    pub as_nonce: Seq<char>,
    pub interact_ref: Seq<char>,
    pub hash: Seq<char>,
}

impl View for Model {
    type V = ModelView;

    open spec fn view(&self) -> ModelView {
        ModelView {
            id: self.id@,
            start: texts(self.start@),
            method: self.method@,
            uri: self.uri@,
            client_nonce: self.client_nonce@,
            hash_method: self.hash_method@,
            hints: opt_text(self.hints),
            grant_endpoint: self.grant_endpoint@,
            continue_endpoint: self.continue_endpoint@,
            continue_token: self.continue_token@,
            continue_id: self.continue_id@,
            as_nonce: self.as_nonce@,
            interact_ref: self.interact_ref@,
            hash: self.hash@,
        }
    }
}

impl Model {
    /// A copy that holds the same values.
    pub fn duplicate(&self) -> (r: Model)
        ensures
            r@ == self@,
    {
        Model {
            id: self.id.clone(),
            start: copy_texts(&self.start),
            method: self.method.clone(),
            uri: self.uri.clone(),
            client_nonce: self.client_nonce.clone(),
            hash_method: self.hash_method.clone(),
            hints: copy_opt(&self.hints),
            grant_endpoint: self.grant_endpoint.clone(),
            continue_endpoint: self.continue_endpoint.clone(),
            continue_token: self.continue_token.clone(),
            continue_id: self.continue_id.clone(),
            as_nonce: self.as_nonce.clone(),
            interact_ref: self.interact_ref.clone(),
            hash: self.hash.clone(),
        }
    }

    /// True when both hold the same values.
    pub fn same(&self, other: &Model) -> (r: bool)
        ensures
            r == (self@ == other@),
    {
        str_eq(self.id.as_str(), other.id.as_str())
            && texts_eq(&self.start, &other.start)
            && str_eq(self.method.as_str(), other.method.as_str())
            && str_eq(self.uri.as_str(), other.uri.as_str())
            && str_eq(self.client_nonce.as_str(), other.client_nonce.as_str())
            && str_eq(self.hash_method.as_str(), other.hash_method.as_str())
            && opt_str_eq(&self.hints, &other.hints)
            && str_eq(self.grant_endpoint.as_str(), other.grant_endpoint.as_str())
            && str_eq(self.continue_endpoint.as_str(), other.continue_endpoint.as_str())
            && str_eq(self.continue_token.as_str(), other.continue_token.as_str())
            && str_eq(self.continue_id.as_str(), other.continue_id.as_str())
            && str_eq(self.as_nonce.as_str(), other.as_nonce.as_str())
            && str_eq(self.interact_ref.as_str(), other.interact_ref.as_str())
            && str_eq(self.hash.as_str(), other.hash.as_str())
    }

    /// What a new row holds.
    pub open spec fn spec_from_new(new: NewModelView, seed: SeedView) -> ModelView {
        ModelView {
            id: new.id,
            start: new.start,
            method: new.method,
            uri: new.uri,
            client_nonce: new.client_nonce,
            hash_method: new.hash_method,
            hints: new.hints,
            grant_endpoint: new.grant_endpoint,
            continue_endpoint: new.continue_endpoint,
            continue_token: new.continue_token,
            continue_id: seed.continue_id,
            as_nonce: seed.as_nonce,
            interact_ref: seed.interact_ref,
            hash: seed.hash,
        }
    }

    /// The row that a new interaction becomes with the values that the server drew for it.
    pub fn from_new(new: NewModel, seed: Seed) -> (r: Model)
        ensures
            r@ == Model::spec_from_new(new@, seed@),
    {
        Model {
            id: new.id,
            start: new.start,
            method: new.method,
            uri: new.uri,
            client_nonce: new.client_nonce,
            hash_method: new.hash_method,
            hints: new.hints,
            grant_endpoint: new.grant_endpoint,
            continue_endpoint: new.continue_endpoint,
            continue_token: new.continue_token,
            continue_id: seed.continue_id,
            as_nonce: seed.as_nonce,
            interact_ref: seed.interact_ref,
            hash: seed.hash,
        }
    }
}

} // verus!
