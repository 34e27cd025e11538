//! The credential configurations that the issuer announces.
use vstd::prelude::*;
use vstd::string::*;

verus! {

/// What a credential configuration says of the type of its credentials.
#[derive(Clone, Debug, PartialEq, Eq)]
pub struct CredentialDefinition {
    pub types: Vec<String>,
}

/// One credential configuration.
#[derive(Clone, Debug, PartialEq, Eq)]
pub struct CredentialConfiguration {
    pub format: String,
    pub cryptographic_binding_methods_supported: Vec<String>,
    pub credential_signing_alg_values_supported: Vec<String>,
    pub credential_definition: CredentialDefinition,
}

impl CredentialConfiguration {
    /// The configuration of JWT credentials of the type `vc_type`: bound to a
    /// DID and signed with RSA.
    pub open spec fn is_basic(&self, vc_type: Seq<char>) -> bool {
        &&& self.format@ == "jwt_vc_json"@
        &&& self.cryptographic_binding_methods_supported@.len() == 1
        &&& self.cryptographic_binding_methods_supported@[0]@ == "did"@
        &&& self.credential_signing_alg_values_supported@.len() == 1
        &&& self.credential_signing_alg_values_supported@[0]@ == "RSA"@
        &&& self.credential_definition.types@.len() == 2
        &&& self.credential_definition.types@[0]@ == "VerifiableCredential"@
        &&& self.credential_definition.types@[1]@ == vc_type
    }

    fn jwt_vc(vc_type: &str) -> (r: CredentialConfiguration)
        ensures
            r.is_basic(vc_type@),
    {
        let mut binding: Vec<String> = Vec::new();
        binding.push("did".to_string());
        let mut signing: Vec<String> = Vec::new();
        signing.push("RSA".to_string());
        let mut types: Vec<String> = Vec::new();
        types.push("VerifiableCredential".to_string());
        types.push(String::from_str(vc_type));
        CredentialConfiguration {
            format: "jwt_vc_json".to_string(),
            cryptographic_binding_methods_supported: binding,
            credential_signing_alg_values_supported: signing,
            credential_definition: CredentialDefinition { types },
        }
    }

    /// The two configurations that the authority supports, each under its id:
    /// first that of the participant credential, then that of the identity
    /// credential.
    pub fn basic() -> (r: Vec<(String, CredentialConfiguration)>)
        ensures
            r@.len() == 2,
            r@[0].0@ == "DataspaceParticipantCredential_jwt_vc_json"@,
            r@[0].1.is_basic("DataspaceParticipantCredential"@),
            r@[1].0@ == "IdentityCredential_jwt_vc_json"@,
            r@[1].1.is_basic("IdentityCredential"@),
    {
        let mut supported: Vec<(String, CredentialConfiguration)> = Vec::new();
        supported.push(
            (
                "DataspaceParticipantCredential_jwt_vc_json".to_string(),
                CredentialConfiguration::jwt_vc("DataspaceParticipantCredential"),
            ),
        );
        supported.push(
            (
                "IdentityCredential_jwt_vc_json".to_string(),
                CredentialConfiguration::jwt_vc("IdentityCredential"),
            ),
        );
        supported
    }
}

} // verus!
