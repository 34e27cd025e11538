//! The request of a participant for a credential.
use vstd::prelude::*;
use vstd::string::*;
use crate::text::{copy_opt, opt_str_eq, opt_text, str_eq};

verus! {

/// Where a ceremony stands.
#[derive(Clone, Copy, Debug, PartialEq, Eq, Structural)]
pub enum RequestStatus {
    /// Waiting for a decision or a presentation.
    Pending,
    /// Granted: the credential can be fetched.
    Approved,
    /// Closed.
    Finalized,
    /// The client did not take the callback.
    MinionFailure,
}

impl RequestStatus {
    /// The status as it is stored and shown.
    pub open spec fn spec_name(self) -> Seq<char> {
        match self {
            RequestStatus::Pending => "Pending"@,
            RequestStatus::Approved => "Approved"@,
            RequestStatus::Finalized => "Finalized"@,
            RequestStatus::MinionFailure => "Minion_failure"@,
        }
    }

    /// The status as it is stored and shown: `Pending`, `Approved`,
    /// `Finalized` or `Minion_failure`.
    pub fn name(&self) -> (r: &'static str)
        ensures
            r@ == self.spec_name(),
    {
        match self {
            RequestStatus::Pending => "Pending",
            RequestStatus::Approved => "Approved",
            RequestStatus::Finalized => "Finalized",
            RequestStatus::MinionFailure => "Minion_failure",
        }
    }

    /// The status that `name` stands for, if it is one of the four.
    pub fn from_name(name: &str) -> (r: Option<RequestStatus>)
        ensures
            match r {
                Some(status) => status.spec_name() == name@,
                None => forall|status: RequestStatus| status.spec_name() != name@,
            },
    {
        if str_eq(name, "Pending") {
            Some(RequestStatus::Pending)
        } else if str_eq(name, "Approved") {
            Some(RequestStatus::Approved)
        } else if str_eq(name, "Finalized") {
            Some(RequestStatus::Finalized)
        } else if str_eq(name, "Minion_failure") {
            Some(RequestStatus::MinionFailure)
        } else {
            None
        }
    }
}

/// What the gatekeeper knows of a request when it arrives.
#[derive(Clone, Debug, PartialEq, Eq)]
pub struct NewModel {
    /// The ceremony id.
    pub id: String,
    /// The name that the participant goes by.
    pub participant_slug: String,
    /// Base64 of the DER form of the X.509 certificate that the requester showed.
    pub cert: Option<String>,
    /// The credential type asked for.
    pub vc_type: String,
}

/// What a `NewModel` holds.
pub struct NewModelView {
    pub id: Seq<char>,
    pub participant_slug: Seq<char>,
    pub cert: Option<Seq<char>>,
    pub vc_type: Seq<char>,
}

impl View for NewModel {
    type V = NewModelView;

    open spec fn view(&self) -> NewModelView {
        NewModelView {
            id: self.id@,
            participant_slug: self.participant_slug@,
            cert: opt_text(self.cert),
            vc_type: self.vc_type@,
        }
    }
}

/// A request as it is stored.
#[derive(Clone, Debug, PartialEq, Eq)]
pub struct Model {
    /// The ceremony id.
    pub id: String,
    /// The name that the participant goes by.
    pub participant_slug: String,
    /// Base64 of the DER form of the X.509 certificate that the requester showed.
    pub cert: Option<String>,
    /// The credential type asked for.
    pub vc_type: String,
    /// Where the ceremony stands.
    pub status: RequestStatus,
    /// The issuing URI, once it is minted.
    pub vc_uri: Option<String>,
}

/// What a `Model` holds.
pub struct ModelView {
    pub id: Seq<char>,
    pub participant_slug: Seq<char>,
    pub cert: Option<Seq<char>>,
    pub vc_type: Seq<char>,
    pub status: RequestStatus,
    pub vc_uri: Option<Seq<char>>,
}

impl View for Model {
    type V = ModelView;

    open spec fn view(&self) -> ModelView {
        ModelView {
            id: self.id@,
            participant_slug: self.participant_slug@,
            cert: opt_text(self.cert),
            vc_type: self.vc_type@,
            status: self.status,
            vc_uri: opt_text(self.vc_uri),
        }
    }
}

impl Model {
    /// A copy that holds the same values.
    pub fn duplicate(&self) -> (r: Model)
        ensures
            r@ == self@,
    {
        Model {
            id: self.id.clone(),
            participant_slug: self.participant_slug.clone(),
            cert: copy_opt(&self.cert),
            vc_type: self.vc_type.clone(),
            status: self.status,
            vc_uri: copy_opt(&self.vc_uri),
        }
    }

    /// True when both hold the same values.
    pub fn same(&self, other: &Model) -> (r: bool)
        ensures
            r == (self@ == other@),
    {
        str_eq(self.id.as_str(), other.id.as_str())
            && str_eq(self.participant_slug.as_str(), other.participant_slug.as_str())
            && opt_str_eq(&self.cert, &other.cert)
            && str_eq(self.vc_type.as_str(), other.vc_type.as_str())
            && self.status == other.status
            && opt_str_eq(&self.vc_uri, &other.vc_uri)
    }

    /// What a new row holds.
    pub open spec fn spec_from_new(new: NewModelView) -> ModelView {
        ModelView {
            id: new.id,
            participant_slug: new.participant_slug,
            cert: new.cert,
            vc_type: new.vc_type,
            status: RequestStatus::Pending,
            vc_uri: None,
        }
    }

    /// The row that a new request becomes: it waits, and no issuing URI exists yet.
    pub fn from_new(new: NewModel) -> (r: Model)
        ensures
            r@ == Model::spec_from_new(new@),
    {
        Model {
            id: new.id,
            participant_slug: new.participant_slug,
            cert: new.cert,
            vc_type: new.vc_type,
            status: RequestStatus::Pending,
            vc_uri: None,
        }
    }
}

} // verus!
