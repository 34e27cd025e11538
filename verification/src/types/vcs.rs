//! What the verifier and the operator exchange with their callers.
use vstd::prelude::*;
use vstd::string::*;
use crate::types::vc_type::VcType;

verus! {

/// One credential that a presentation must hold: a credential whose type, at
/// `path`, matches `pattern`.
#[derive(Clone, Debug, PartialEq, Eq)]
pub struct InputDescriptor {
    pub id: String,
    pub path: String,
    pub pattern: String,
}

/// A presentation definition.
#[derive(Clone, Debug, PartialEq, Eq)]
pub struct VPDef {
    pub id: String,
    pub input_descriptors: Vec<InputDescriptor>,
}

impl VPDef {
    /// The definition with the id `id` that asks for one credential of the type `vc_type`.
    pub fn new(id: String, vc_type: String) -> (r: VPDef)
        ensures
            r.id == id,
            r.input_descriptors@.len() == 1,
            r.input_descriptors@[0].id@ == vc_type@,
            r.input_descriptors@[0].path@ == "$.vc.type"@,
            r.input_descriptors@[0].pattern@ == vc_type@,
    {
        let descriptor = InputDescriptor {
            id: vc_type.clone(),
            path: "$.vc.type".to_string(),
            pattern: vc_type,
        };
        let mut input_descriptors: Vec<InputDescriptor> = Vec::new();
        input_descriptors.push(descriptor);
        VPDef { id, input_descriptors }
    }
}

/// What a certificate says of a participant.
#[derive(Clone, Debug, PartialEq, Eq)]
pub struct VCIData {
    pub name: String,
    pub website: String,
    pub vc_type: VcType,
}

/// The decision of the operator on a request.
#[derive(Clone, Copy, Debug, PartialEq, Eq)]
pub struct VcDecisionApproval {
    pub approve: bool,
}

} // verus!
