//! The OpenID4VCI side of a ceremony.
use vstd::prelude::*;
use vstd::string::*;
use crate::text::{copy_opt, opt_str_eq, opt_text, str_eq};

verus! {

/// What the issuer knows when a grant is continued.
#[derive(Clone, Debug, PartialEq, Eq)]
pub struct NewModel {
    /// The ceremony id.
    pub id: String,
    /// The legal name written into the credential.
    pub name: String,
    /// The credential type to issue.
    pub vc_type: String,
    /// The credential offer URI.
    pub uri: String,
    /// The audience that a proof of possession must name.
    pub aud: String,
}

/// What a `NewModel` holds.
pub struct NewModelView {
    pub id: Seq<char>,
    pub name: Seq<char>,
    pub vc_type: Seq<char>,
    pub uri: Seq<char>,
    pub aud: Seq<char>,
}

impl View for NewModel {
    type V = NewModelView;

    open spec fn view(&self) -> NewModelView {
        NewModelView {
            id: self.id@,
            name: self.name@,
            vc_type: self.vc_type@,
            uri: self.uri@,
            aud: self.aud@,
        }
    }
}

/// The values that the server draws when an issuing is stored.
#[derive(Clone, Debug, PartialEq, Eq)]
pub struct Seed {
    /// The one-time code bound to the first fetch of the offer.
    pub tx_code: String,
    /// The pre-authorized code.
    pub pre_auth_code: String,
    /// The bearer token given out at the token endpoint.
    pub token: String,
    /// The id of the credential to come.
    pub credential_id: String,
}

/// What a `Seed` holds.
pub struct SeedView {
    pub tx_code: Seq<char>,
    pub pre_auth_code: Seq<char>,
    pub token: Seq<char>,
    pub credential_id: Seq<char>,
}

impl View for Seed {
    type V = SeedView;

    open spec fn view(&self) -> SeedView {
        SeedView {
            tx_code: self.tx_code@,
            pre_auth_code: self.pre_auth_code@,
            token: self.token@,
            credential_id: self.credential_id@,
        }
    }
}

/// An issuing as it is stored.
#[derive(Clone, Debug, PartialEq, Eq)]
pub struct Model {
    /// The ceremony id.
    pub id: String,
    /// The legal name written into the credential.
    pub name: String,
    /// The credential type to issue.
    pub vc_type: String,
    /// The credential offer URI.
    pub uri: String,
    /// The audience that a proof of possession must name.
    pub aud: String,
    /// The one-time code bound to the first fetch of the offer.
    pub tx_code: String,
    /// The pre-authorized code.
    pub pre_auth_code: String,
    /// The bearer token given out at the token endpoint.
    pub token: String,
    /// The id of the credential to come.
    pub credential_id: String,
    /// The DID of the holder, once possession is proved.
    pub did: Option<String>,
    /// The signed credential, once it is issued.
    pub credential: Option<String>,
    /// True until the offer has been fetched once.
    pub step: bool,
}

/// What a `Model` holds.
pub struct ModelView {
    pub id: Seq<char>,
    pub name: Seq<char>,
    pub vc_type: Seq<char>,
    pub uri: Seq<char>,
    pub aud: Seq<char>,
    pub tx_code: Seq<char>,
    pub pre_auth_code: Seq<char>,
    pub token: Seq<char>,
    pub credential_id: Seq<char>,
    pub did: Option<Seq<char>>,
    pub credential: Option<Seq<char>>,
    pub step: bool,
}

impl View for Model {
    type V = ModelView;

    open spec fn view(&self) -> ModelView {
        ModelView {
            id: self.id@,
            name: self.name@,
            vc_type: self.vc_type@,
            uri: self.uri@,
            aud: self.aud@,
            tx_code: self.tx_code@,
            pre_auth_code: self.pre_auth_code@,
            token: self.token@,
            credential_id: self.credential_id@,
            did: opt_text(self.did),
            credential: opt_text(self.credential),
            step: self.step,
        }
    }
}

impl Model {
    /// A copy that holds the same values.
    pub fn duplicate(&self) -> (r: Model)
        ensures
            r@ == self@,
    {
        Model {
            id: self.id.clone(),
            name: self.name.clone(),
            vc_type: self.vc_type.clone(),
            uri: self.uri.clone(),
            aud: self.aud.clone(),
            tx_code: self.tx_code.clone(),
            pre_auth_code: self.pre_auth_code.clone(),
            token: self.token.clone(),
            credential_id: self.credential_id.clone(),
            did: copy_opt(&self.did),
            credential: copy_opt(&self.credential),
            step: self.step,
        }
    }

    /// True when both hold the same values.
    pub fn same(&self, other: &Model) -> (r: bool)
        ensures
            r == (self@ == other@),
    {
        str_eq(self.id.as_str(), other.id.as_str())
            && str_eq(self.name.as_str(), other.name.as_str())
            && str_eq(self.vc_type.as_str(), other.vc_type.as_str())
            && str_eq(self.uri.as_str(), other.uri.as_str())
            && str_eq(self.aud.as_str(), other.aud.as_str())
            && str_eq(self.tx_code.as_str(), other.tx_code.as_str())
            && str_eq(self.pre_auth_code.as_str(), other.pre_auth_code.as_str())
            && str_eq(self.token.as_str(), other.token.as_str())
            && str_eq(self.credential_id.as_str(), other.credential_id.as_str())
            && opt_str_eq(&self.did, &other.did)
            && opt_str_eq(&self.credential, &other.credential)
            && self.step == other.step
    }

    /// What a new row holds.
    pub open spec fn spec_from_new(new: NewModelView, seed: SeedView) -> ModelView {
        ModelView {
            id: new.id,
            name: new.name,
            vc_type: new.vc_type,
            uri: new.uri,
            aud: new.aud,
            tx_code: seed.tx_code,
            pre_auth_code: seed.pre_auth_code,
            token: seed.token,
            credential_id: seed.credential_id,
            did: None,
            credential: None,
            step: true,
        }
    }

    /// The row that a new issuing becomes with the values that the server drew for it.
    pub fn from_new(new: NewModel, seed: Seed) -> (r: Model)
        ensures
            r@ == Model::spec_from_new(new@, seed@),
    {
        Model {
            id: new.id,
            name: new.name,
            vc_type: new.vc_type,
            uri: new.uri,
            aud: new.aud,
            tx_code: seed.tx_code,
            pre_auth_code: seed.pre_auth_code,
            token: seed.token,
            credential_id: seed.credential_id,
            did: None,
            credential: None,
            step: true,
        }
    }
}

} // verus!
