//! The credential profiles that the authority issues.
use vstd::prelude::*;
use vstd::string::*;
use crate::errors::{ErrorKind, Errors, Reason};
use crate::text::str_eq;

verus! {

/// A credential profile.
#[derive(Clone, Copy, Debug, PartialEq, Eq, Structural)]
pub enum VcType {
    DataSpaceParticipant,
    Identity,
}

impl VcType {
    /// The name of the profile.
    pub open spec fn spec_name(self) -> Seq<char> {
        match self {
            VcType::DataSpaceParticipant => "DataspaceParticipantCredential"@,
            VcType::Identity => "IdentityCredential"@,
        }
    }

    /// The id of the credential configuration of the profile.
    pub open spec fn spec_conf(self) -> Seq<char> {
        match self {
            VcType::DataSpaceParticipant => "DataspaceParticipantCredential_jwt_vc_json"@,
            VcType::Identity => "IdentityCredential_jwt_vc_json"@,
        }
    }

    /// The profile that `name` stands for, if it names one.
    pub open spec fn spec_from(name: Seq<char>) -> Option<VcType> {
        if name == "DataspaceParticipantCredential"@ {
            Some(VcType::DataSpaceParticipant)
        } else if name == "IdentityCredential"@ {
            Some(VcType::Identity)
        } else {
            None
        }
    }

    /// The id of the credential configuration of the profile.
    pub fn to_conf(self) -> (r: String)
        ensures
            r@ == self.spec_conf(),
    {
        match self {
            VcType::DataSpaceParticipant => "DataspaceParticipantCredential_jwt_vc_json".to_string(),
            VcType::Identity => "IdentityCredential_jwt_vc_json".to_string(),
        }
    }

    /// The profile that `s` names. Any other text is refused as `BadFormat`
    /// with the reason `UnknownVcType`.
    pub fn from_str(s: &str) -> (r: Result<VcType, Errors>)
        ensures
            match r {
                Ok(vc_type) => VcType::spec_from(s@) == Some(vc_type),
                Err(e) => VcType::spec_from(s@).is_none() && e.kind == ErrorKind::BadFormat
                    && e.reason == Reason::UnknownVcType && e.detail@ == s@ && e.http_code.is_none(),
            },
    {
        if str_eq(s, "DataspaceParticipantCredential") {
            Ok(VcType::DataSpaceParticipant)
        } else if str_eq(s, "IdentityCredential") {
            Ok(VcType::Identity)
        } else {
            Err(Errors::format_new(Reason::UnknownVcType, s))
        }
    }

    /// The name of the profile.
    pub fn to_string(&self) -> (r: String)
        ensures
            r@ == self.spec_name(),
    {
        match self {
            VcType::DataSpaceParticipant => "DataspaceParticipantCredential".to_string(),
            VcType::Identity => "IdentityCredential".to_string(),
        }
    }
}

} // verus!
