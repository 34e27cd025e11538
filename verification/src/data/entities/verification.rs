//! The OpenID4VP side of a ceremony.
use vstd::prelude::*;
use vstd::string::*;
use crate::text::{copy_opt, opt_str_eq, opt_text, str_eq};

verus! {

/// What the verifier knows when a presentation is asked for.
#[derive(Clone, Debug, PartialEq, Eq)]
pub struct NewModel {
    /// The ceremony id.
    pub id: String,
    /// The URL at which this server takes presentations.
    pub audience: String,
    /// The credential type expected.
    pub vc_type: String,
}

/// What a `NewModel` holds.
pub struct NewModelView {
    pub id: Seq<char>,
    pub audience: Seq<char>,
    pub vc_type: Seq<char>,
}

impl View for NewModel {
    type V = NewModelView;

    open spec fn view(&self) -> NewModelView {
        NewModelView {
            id: self.id@,
            audience: self.audience@,
            vc_type: self.vc_type@,
        }
    }
}

/// The values that the server draws when a verification is stored.
#[derive(Clone, Debug, PartialEq, Eq)]
pub struct Seed {
    /// The identifier of the presentation exchange.
    pub state: String,
    /// The nonce that the presentation must carry.
    pub nonce: String,
}

/// What a `Seed` holds.
pub struct SeedView {
    pub state: Seq<char>,
    pub nonce: Seq<char>,
}

impl View for Seed {
    type V = SeedView;

    open spec fn view(&self) -> SeedView {
        SeedView {
            state: self.state@,
            nonce: self.nonce@,
        }
    }
}

/// A verification as it is stored.
#[derive(Clone, Debug, PartialEq, Eq)]
pub struct Model {
    /// The ceremony id.
    pub id: String,
    /// The URL at which this server takes presentations.
    pub audience: String,
    /// The credential type expected.
    pub vc_type: String,
    /// The identifier of the presentation exchange.
    pub state: String,
    /// The nonce that the presentation must carry.
    pub nonce: String,
    /// The DID confirmed by the presentation.
    pub holder: Option<String>,
    /// The presentation token received, kept for audit.
    pub vpt: Option<String>,
}

/// What a `Model` holds.
pub struct ModelView {
    pub id: Seq<char>,
    pub audience: Seq<char>,
    pub vc_type: Seq<char>,
    pub state: Seq<char>,
    pub nonce: Seq<char>,
    pub holder: Option<Seq<char>>,
    pub vpt: Option<Seq<char>>,
}

impl View for Model {
    type V = ModelView;

    open spec fn view(&self) -> ModelView {
        ModelView {
            id: self.id@,
            audience: self.audience@,
            vc_type: self.vc_type@,
            state: self.state@,
            nonce: self.nonce@,
            holder: opt_text(self.holder),
            vpt: opt_text(self.vpt),
        }
    }
}

impl Model {
    /// A copy that holds the same values.
    pub fn duplicate(&self) -> (r: Model)
        ensures
            r@ == self@,
    {
        Model {
            id: self.id.clone(),
            audience: self.audience.clone(),
            vc_type: self.vc_type.clone(),
            state: self.state.clone(),
            nonce: self.nonce.clone(),
            holder: copy_opt(&self.holder),
            vpt: copy_opt(&self.vpt),
        }
    }

    /// True when both hold the same values.
    pub fn same(&self, other: &Model) -> (r: bool)
        ensures
            r == (self@ == other@),
    {
        str_eq(self.id.as_str(), other.id.as_str())
            && str_eq(self.audience.as_str(), other.audience.as_str())
            && str_eq(self.vc_type.as_str(), other.vc_type.as_str())
            && str_eq(self.state.as_str(), other.state.as_str())
            && str_eq(self.nonce.as_str(), other.nonce.as_str())
            && opt_str_eq(&self.holder, &other.holder)
            && opt_str_eq(&self.vpt, &other.vpt)
    }

    /// What a new row holds.
    pub open spec fn spec_from_new(new: NewModelView, seed: SeedView) -> ModelView {
        ModelView {
            id: new.id,
            audience: new.audience,
            vc_type: new.vc_type,
            state: seed.state,
            nonce: seed.nonce,
            holder: None,
            vpt: None,
        }
    }

    /// The row that a new verification becomes with the values that the server drew for it.
    pub fn from_new(new: NewModel, seed: Seed) -> (r: Model)
        ensures
            r@ == Model::spec_from_new(new@, seed@),
    {
        Model {
            id: new.id,
            audience: new.audience,
            vc_type: new.vc_type,
            state: seed.state,
            nonce: seed.nonce,
            holder: None,
            vpt: None,
        }
    }
}

} // verus!
