//! The lasting record of a participant that holds a credential.
use vstd::prelude::*;
use vstd::string::*;
use crate::clock::Instant;
use crate::text::{copy_opt, opt_str_eq, opt_text, str_eq};

verus! {

/// What the issuer knows of a holder when a credential is issued.
#[derive(Clone, Debug, PartialEq, Eq)]
pub struct NewModel {
    /// The DID of the holder.
    pub participant_id: String,
    /// The name that the participant goes by.
    pub participant_slug: String,
    /// The kind of participant.
    pub participant_type: String,
    /// Scheme and host of the participant.
    pub base_url: Option<String>,
    /// The issuing URI of its credential.
    pub vc_uri: Option<String>,
    /// Whether its credential was delivered.
    pub is_vc_issued: bool,
    /// Whether the record stands for this authority.
    pub is_me: bool,
}

/// What a `NewModel` holds.
pub struct NewModelView {
    pub participant_id: Seq<char>,
    pub participant_slug: Seq<char>,
    pub participant_type: Seq<char>,
    pub base_url: Option<Seq<char>>,
    pub vc_uri: Option<Seq<char>>,
    pub is_vc_issued: bool,
    pub is_me: bool,
}

impl View for NewModel {
    type V = NewModelView;

    open spec fn view(&self) -> NewModelView {
        NewModelView {
            participant_id: self.participant_id@,
            participant_slug: self.participant_slug@,
            participant_type: self.participant_type@,
            base_url: opt_text(self.base_url),
            vc_uri: opt_text(self.vc_uri),
            is_vc_issued: self.is_vc_issued,
            is_me: self.is_me,
        }
    }
}

/// A minion as it is stored.
#[derive(Clone, Debug, PartialEq, Eq)]
pub struct Model {
    /// The DID of the holder.
    pub participant_id: String,
    /// The name that the participant goes by.
    pub participant_slug: String,
    /// The kind of participant.
    pub participant_type: String,
    /// Scheme and host of the participant.
    pub base_url: Option<String>,
    /// The issuing URI of its credential.
    pub vc_uri: Option<String>,
    /// Whether its credential was delivered.
    pub is_vc_issued: bool,
    /// Whether the record stands for this authority.
    pub is_me: bool,
    /// When the record was last written.
    pub last_interaction: Instant,
}

/// What a `Model` holds.
pub struct ModelView {
    pub participant_id: Seq<char>,
    pub participant_slug: Seq<char>,
    pub participant_type: Seq<char>,
    pub base_url: Option<Seq<char>>,
    pub vc_uri: Option<Seq<char>>,
    pub is_vc_issued: bool,
    pub is_me: bool,
    pub last_interaction: Instant,
}

impl View for Model {
    type V = ModelView;

    open spec fn view(&self) -> ModelView {
        ModelView {
            participant_id: self.participant_id@,
            participant_slug: self.participant_slug@,
            participant_type: self.participant_type@,
            base_url: opt_text(self.base_url),
            vc_uri: opt_text(self.vc_uri),
            is_vc_issued: self.is_vc_issued,
            is_me: self.is_me,
            last_interaction: self.last_interaction,
        }
    }
}

impl Model {
    /// A copy that holds the same values.
    pub fn duplicate(&self) -> (r: Model)
        ensures
            r@ == self@,
    {
        Model {
            participant_id: self.participant_id.clone(),
            participant_slug: self.participant_slug.clone(),
            participant_type: self.participant_type.clone(),
            base_url: copy_opt(&self.base_url),
            vc_uri: copy_opt(&self.vc_uri),
            is_vc_issued: self.is_vc_issued,
            is_me: self.is_me,
            last_interaction: self.last_interaction,
        }
    }

    /// True when both hold the same values.
    pub fn same(&self, other: &Model) -> (r: bool)
        ensures
            r == (self@ == other@),
    {
        str_eq(self.participant_id.as_str(), other.participant_id.as_str())
            && str_eq(self.participant_slug.as_str(), other.participant_slug.as_str())
            && str_eq(self.participant_type.as_str(), other.participant_type.as_str())
            && opt_str_eq(&self.base_url, &other.base_url)
            && opt_str_eq(&self.vc_uri, &other.vc_uri)
            && self.is_vc_issued == other.is_vc_issued
            && self.is_me == other.is_me
            && self.last_interaction == other.last_interaction
    }

    /// What a new row holds.
    pub open spec fn spec_from_new(new: NewModelView, at: Instant) -> ModelView {
        ModelView {
            participant_id: new.participant_id,
            participant_slug: new.participant_slug,
            participant_type: new.participant_type,
            base_url: new.base_url,
            vc_uri: new.vc_uri,
            is_vc_issued: new.is_vc_issued,
            is_me: new.is_me,
            last_interaction: at,
        }
    }

    /// The row that a new minion becomes when it is written at `at`.
    pub fn from_new(new: NewModel, at: Instant) -> (r: Model)
        ensures
            r@ == Model::spec_from_new(new@, at),
    {
        Model {
            participant_id: new.participant_id,
            participant_slug: new.participant_slug,
            participant_type: new.participant_type,
            base_url: new.base_url,
            vc_uri: new.vc_uri,
            is_vc_issued: new.is_vc_issued,
            is_me: new.is_me,
            last_interaction: at,
        }
    }
}

} // verus!
