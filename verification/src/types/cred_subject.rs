//! The subjects of the two credential profiles.
use vstd::prelude::*;
use vstd::string::*;
use crate::json::{lemma_object_view, Json, JsonView, Member, MemberView};

verus! {

/// The subject of a participant credential.
#[derive(Clone, Debug, PartialEq, Eq)]
pub struct CredentialSubject4DataSpace {
    pub id: String,
    pub kind: String,
    pub dataspace_id: String,
    pub legal_name: String,
}

/// The subject of an identity credential.
#[derive(Clone, Debug, PartialEq, Eq)]
pub struct CredentialSubject4Identity {
    pub id: String,
    pub kind: String,
    pub legal_name: String,
}

/// The JSON form of the subject of a participant credential.
pub open spec fn dataspace_subject_json(id: Seq<char>, legal_name: Seq<char>) -> JsonView {
    JsonView::Object(
        seq![
            MemberView { name: "id"@, value: JsonView::Text(id) },
            MemberView { name: "type"@, value: JsonView::Text("DataspaceParticipant"@) },
            MemberView { name: "DataspaceId"@, value: JsonView::Text("RainbowDataSpace"@) },
            MemberView { name: "LegalName"@, value: JsonView::Text(legal_name) },
        ],
    )
}

/// The JSON form of the subject of an identity credential.
pub open spec fn identity_subject_json(id: Seq<char>, legal_name: Seq<char>) -> JsonView {
    JsonView::Object(
        seq![
            MemberView { name: "id"@, value: JsonView::Text(id) },
            MemberView { name: "type"@, value: JsonView::Text("IdentityCredential"@) },
            MemberView { name: "LegalName"@, value: JsonView::Text(legal_name) },
        ],
    )
}

impl CredentialSubject4DataSpace {
    /// The subject `id` with the legal name `legal_name`, a participant of the
    /// dataspace of this authority.
    pub fn new(id: String, legal_name: String) -> (r: Self)
        ensures
            r.id == id,
            r.kind@ == "DataspaceParticipant"@,
            r.dataspace_id@ == "RainbowDataSpace"@,
            r.legal_name == legal_name,
    {
        CredentialSubject4DataSpace {
            id,
            kind: "DataspaceParticipant".to_string(),
            dataspace_id: "RainbowDataSpace".to_string(),
            legal_name,
        }
    }

    /// The subject as JSON, with the member names `id`, `type`, `DataspaceId`
    /// and `LegalName`.
    pub fn to_json(&self) -> (r: Json)
        ensures
            r@ == JsonView::Object(
                seq![
                    MemberView { name: "id"@, value: JsonView::Text(self.id@) },
                    MemberView { name: "type"@, value: JsonView::Text(self.kind@) },
                    MemberView { name: "DataspaceId"@, value: JsonView::Text(self.dataspace_id@) },
                    MemberView { name: "LegalName"@, value: JsonView::Text(self.legal_name@) },
                ],
            ),
    {
        let mut members: Vec<Member> = Vec::new();
        members.push(Member::new("id", Json::text(self.id.as_str())));
        members.push(Member::new("type", Json::text(self.kind.as_str())));
        members.push(Member::new("DataspaceId", Json::text(self.dataspace_id.as_str())));
        members.push(Member::new("LegalName", Json::text(self.legal_name.as_str())));
        let r = Json::Object(members);
        proof {
            lemma_object_view(r);
            assert(r@->Object_0 =~= seq![
                MemberView { name: "id"@, value: JsonView::Text(self.id@) },
                MemberView { name: "type"@, value: JsonView::Text(self.kind@) },
                MemberView { name: "DataspaceId"@, value: JsonView::Text(self.dataspace_id@) },
                MemberView { name: "LegalName"@, value: JsonView::Text(self.legal_name@) },
            ]);
        }
        r
    }
}

impl CredentialSubject4Identity {
    /// The subject `id` with the legal name `legal_name`.
    pub fn new(id: String, legal_name: String) -> (r: Self)
        ensures
            r.id == id,
            r.kind@ == "IdentityCredential"@,
            r.legal_name == legal_name,
    {
        CredentialSubject4Identity { id, kind: "IdentityCredential".to_string(), legal_name }
    }

    /// The subject as JSON, with the member names `id`, `type` and `LegalName`.
    pub fn to_json(&self) -> (r: Json)
        ensures
            r@ == JsonView::Object(
                seq![
                    MemberView { name: "id"@, value: JsonView::Text(self.id@) },
                    MemberView { name: "type"@, value: JsonView::Text(self.kind@) },
                    MemberView { name: "LegalName"@, value: JsonView::Text(self.legal_name@) },
                ],
            ),
    {
        let mut members: Vec<Member> = Vec::new();
        members.push(Member::new("id", Json::text(self.id.as_str())));
        members.push(Member::new("type", Json::text(self.kind.as_str())));
        members.push(Member::new("LegalName", Json::text(self.legal_name.as_str())));
        let r = Json::Object(members);
        proof {
            lemma_object_view(r);
            assert(r@->Object_0 =~= seq![
                MemberView { name: "id"@, value: JsonView::Text(self.id@) },
                MemberView { name: "type"@, value: JsonView::Text(self.kind@) },
                MemberView { name: "LegalName"@, value: JsonView::Text(self.legal_name@) },
            ]);
        }
        r
    }
}

} // verus!
