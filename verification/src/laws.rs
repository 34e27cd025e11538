//! What holds of every state of the store and of every credential that the
//! issuer mints, stated over the models of the store and of the services.
use vstd::prelude::*;
use vstd::string::*;
use crate::authority::{deliver_post, spec_new_request, CeremonySeed, Core, CoreTrait};
use crate::clock::Instant;
use crate::data::entities::{interaction, issuing, verification};
use crate::errors::{Errors, Reason};
use crate::services::gnap::{oidc4vp, start_verdict, GateKeeperTrait};
use crate::store::repo::RepoTrait;
use crate::text::{has_prefix, has_text};
use crate::types::gnap::{GrantRequest, GrantResponse};
use crate::json::{find_member, JsonView, MemberView};
use crate::outside::{rfc3339_instant, rs256_jwt};
use crate::services::basic_issuer::{
    minted_claims, minted_vc, spec_issue, subject_json, IssuerTrait,
};
use crate::services::basic_verifier::{
    authorize_scheme, issuer_verdict, valid_from_verdict, valid_until_verdict, vc_id_verdict,
    vc_sub_verdict, VerifierTrait,
};
use crate::store::ledger::{
    first_match, interaction_rows, issuing_rows, lemma_first_match, lemma_first_match_push,
    lemma_first_match_update, no_duplicates, verification_rows, CeremonyView, Key, LedgerView,
};
use crate::types::issuing::GiveVC;
use crate::types::vc_type::VcType;

verus! {

/// A closed ceremony is final: no row can be added to it, and a row that is
/// accepted in the place of one of its rows is that row, so that the store
/// holds after it what it held before.
pub proof fn law_closed_ceremony_is_final(l: LedgerView, id: Seq<char>)
    requires
        l.wf(),
        l.ceremony(Key::Id, id) matches Some(c) && c.closed(),
    ensures
        forall|row: interaction::ModelView|
            row.id == id ==> (#[trigger] l.create_interaction_verdict(row)).is_some() && (
            l.update_interaction_verdict(row).is_none() ==> l.put_interaction(row) == l),
        forall|row: verification::ModelView|
            row.id == id ==> (#[trigger] l.create_verification_verdict(row)).is_some() && (
            l.update_verification_verdict(row).is_none() ==> l.put_verification(row) == l),
        forall|row: issuing::ModelView|
            row.id == id ==> (#[trigger] l.create_issuing_verdict(row)).is_some() && (
            l.update_issuing_verdict(row).is_none() ==> l.put_issuing(row) == l),
{
    let at = l.position(id);
    lemma_first_match(l.ceremonies, Key::Id, id, 0);
    let c = l.ceremonies[at];
    assert forall|row: interaction::ModelView| row.id == id implies (
    #[trigger] l.create_interaction_verdict(row)).is_some() && (l.update_interaction_verdict(
        row,
    ).is_none() ==> l.put_interaction(row) == l) by {
        if l.update_interaction_verdict(row).is_none() {
            assert(c.with_interaction(Some(row)) == c);
            assert(l.ceremonies.update(at, c) =~= l.ceremonies);
        }
    }
    assert forall|row: verification::ModelView| row.id == id implies (
    #[trigger] l.create_verification_verdict(row)).is_some() && (l.update_verification_verdict(
        row,
    ).is_none() ==> l.put_verification(row) == l) by {
        if l.update_verification_verdict(row).is_none() {
            assert(c.with_verification(Some(row)) == c);
            assert(l.ceremonies.update(at, c) =~= l.ceremonies);
        }
    }
    assert forall|row: issuing::ModelView| row.id == id implies (#[trigger] l.create_issuing_verdict(
        row,
    )).is_some() && (l.update_issuing_verdict(row).is_none() ==> l.put_issuing(row) == l) by {
        if l.update_issuing_verdict(row).is_none() {
            assert(c.with_issuing(Some(row)) == c);
            assert(l.ceremonies.update(at, c) =~= l.ceremonies);
        }
    }
}

/// Some ceremony of `cs` holds `value` in the column `key`.
pub open spec fn holds(cs: Seq<CeremonyView>, key: Key, value: Seq<char>) -> bool {
    first_match(cs, key, value, 0) < cs.len()
}

/// What `holds` says of a store stays true when a ceremony is added.
proof fn lemma_holds_push(cs: Seq<CeremonyView>, key: Key, value: Seq<char>)
    requires
        cs.len() > 0,
        holds(cs.drop_last(), key, value) || cs.last().key(key) == Some(value),
    ensures
        holds(cs, key, value),
{
    assert(cs.drop_last().push(cs.last()) == cs);
    lemma_first_match_push(cs.drop_last(), cs.last(), key, value);
}

/// A value that an earlier ceremony holds in a column without duplicates is
/// not the value of the last ceremony.
proof fn lemma_last_differs(cs: Seq<CeremonyView>, key: Key, value: Seq<char>)
    requires
        cs.len() > 0,
        no_duplicates(cs, key),
        holds(cs.drop_last(), key, value),
    ensures
        cs.last().key(key) != Some(value),
{
    let head = cs.drop_last();
    lemma_first_match(head, key, value, 0);
    let j = first_match(head, key, value, 0);
    assert(head[j] == cs[j]);
    assert(cs[j].key(key) != cs[cs.len() - 1].key(key));
}

/// A column without duplicates has none in any shorter store.
proof fn lemma_no_duplicates_head(cs: Seq<CeremonyView>, key: Key)
    requires
        cs.len() > 0,
        no_duplicates(cs, key),
    ensures
        no_duplicates(cs.drop_last(), key),
{
    let head = cs.drop_last();
    assert forall|i: int, j: int|
        #![trigger head[i].key(key), head[j].key(key)]
        0 <= i < head.len() && 0 <= j < head.len() && i != j && head[i].key(key).is_some()
            implies head[i].key(key) != head[j].key(key) by {
        assert(cs[i].key(key) != cs[j].key(key));
    }
}

/// Every stored interaction belongs to a ceremony, and no two of them share
/// a continuation token or a continuation id.
proof fn lemma_interactions(cs: Seq<CeremonyView>)
    requires
        forall|i: int| 0 <= i < cs.len() ==> (#[trigger] cs[i]).consistent(),
        no_duplicates(cs, Key::ContinueToken),
        no_duplicates(cs, Key::ContinueId),
    ensures
        forall|i: int|
            0 <= i < interaction_rows(cs).len() ==> {
                let row = #[trigger] interaction_rows(cs)[i];
                &&& holds(cs, Key::Id, row.id)
                &&& holds(cs, Key::ContinueToken, row.continue_token)
                &&& holds(cs, Key::ContinueId, row.continue_id)
            },
        forall|i: int, j: int|
            0 <= i < j < interaction_rows(cs).len() ==> {
                &&& (#[trigger] interaction_rows(cs)[i]).continue_token != (
                #[trigger] interaction_rows(cs)[j]).continue_token
                &&& interaction_rows(cs)[i].continue_id != interaction_rows(cs)[j].continue_id
            },
    decreases cs.len(),
{
    if cs.len() > 0 {
        let head = cs.drop_last();
        let rows = interaction_rows(cs);
        let before = interaction_rows(head);
        assert forall|i: int| 0 <= i < head.len() implies (#[trigger] head[i]).consistent() by {
            assert(cs[i].consistent());
        }
        lemma_no_duplicates_head(cs, Key::ContinueToken);
        lemma_no_duplicates_head(cs, Key::ContinueId);
        lemma_interactions(head);
        assert(cs[cs.len() - 1].consistent());
        assert forall|i: int| 0 <= i < rows.len() implies {
            let row = #[trigger] rows[i];
            &&& holds(cs, Key::Id, row.id)
            &&& holds(cs, Key::ContinueToken, row.continue_token)
            &&& holds(cs, Key::ContinueId, row.continue_id)
        } by {
            if i < before.len() {
                assert(rows[i] == before[i]);
            }
            lemma_holds_push(cs, Key::Id, rows[i].id);
            lemma_holds_push(cs, Key::ContinueToken, rows[i].continue_token);
            lemma_holds_push(cs, Key::ContinueId, rows[i].continue_id);
        }
        assert forall|i: int, j: int| 0 <= i < j < rows.len() implies {
            &&& (#[trigger] rows[i]).continue_token != (#[trigger] rows[j]).continue_token
            &&& rows[i].continue_id != rows[j].continue_id
        } by {
            assert(rows[i] == before[i]);
            if j < before.len() {
                assert(rows[j] == before[j]);
            } else {
                lemma_last_differs(cs, Key::ContinueToken, before[i].continue_token);
                lemma_last_differs(cs, Key::ContinueId, before[i].continue_id);
            }
        }
    }
}

/// Every stored verification belongs to a ceremony, and no two of them share
/// a state.
proof fn lemma_verifications(cs: Seq<CeremonyView>)
    requires
        forall|i: int| 0 <= i < cs.len() ==> (#[trigger] cs[i]).consistent(),
        no_duplicates(cs, Key::State),
    ensures
        forall|i: int|
            0 <= i < verification_rows(cs).len() ==> {
                let row = #[trigger] verification_rows(cs)[i];
                &&& holds(cs, Key::Id, row.id)
                &&& holds(cs, Key::State, row.state)
            },
        forall|i: int, j: int|
            0 <= i < j < verification_rows(cs).len() ==> (#[trigger] verification_rows(
                cs,
            )[i]).state != (#[trigger] verification_rows(cs)[j]).state,
    decreases cs.len(),
{
    if cs.len() > 0 {
        let head = cs.drop_last();
        let rows = verification_rows(cs);
        let before = verification_rows(head);
        assert forall|i: int| 0 <= i < head.len() implies (#[trigger] head[i]).consistent() by {
            assert(cs[i].consistent());
        }
        lemma_no_duplicates_head(cs, Key::State);
        lemma_verifications(head);
        assert(cs[cs.len() - 1].consistent());
        assert forall|i: int| 0 <= i < rows.len() implies {
            let row = #[trigger] rows[i];
            &&& holds(cs, Key::Id, row.id)
            &&& holds(cs, Key::State, row.state)
        } by {
            if i < before.len() {
                assert(rows[i] == before[i]);
            }
            lemma_holds_push(cs, Key::Id, rows[i].id);
            lemma_holds_push(cs, Key::State, rows[i].state);
        }
        assert forall|i: int, j: int| 0 <= i < j < rows.len() implies (#[trigger] rows[i]).state
            != (#[trigger] rows[j]).state by {
            assert(rows[i] == before[i]);
            if j < before.len() {
                assert(rows[j] == before[j]);
            } else {
                lemma_last_differs(cs, Key::State, before[i].state);
            }
        }
    }
}

/// Every stored issuing belongs to a ceremony, and no two of them share a
/// transaction code or a bearer token.
proof fn lemma_issuings(cs: Seq<CeremonyView>)
    requires
        forall|i: int| 0 <= i < cs.len() ==> (#[trigger] cs[i]).consistent(),
        no_duplicates(cs, Key::TxCode),
        no_duplicates(cs, Key::Token),
    ensures
        forall|i: int|
            0 <= i < issuing_rows(cs).len() ==> {
                let row = #[trigger] issuing_rows(cs)[i];
                &&& holds(cs, Key::Id, row.id)
                &&& holds(cs, Key::TxCode, row.tx_code)
                &&& holds(cs, Key::Token, row.token)
            },
        forall|i: int, j: int|
            0 <= i < j < issuing_rows(cs).len() ==> {
                &&& (#[trigger] issuing_rows(cs)[i]).tx_code != (#[trigger] issuing_rows(
                    cs,
                )[j]).tx_code
                &&& issuing_rows(cs)[i].token != issuing_rows(cs)[j].token
            },
    decreases cs.len(),
{
    if cs.len() > 0 {
        let head = cs.drop_last();
        let rows = issuing_rows(cs);
        let before = issuing_rows(head);
        assert forall|i: int| 0 <= i < head.len() implies (#[trigger] head[i]).consistent() by {
            assert(cs[i].consistent());
        }
        lemma_no_duplicates_head(cs, Key::TxCode);
        lemma_no_duplicates_head(cs, Key::Token);
        lemma_issuings(head);
        assert(cs[cs.len() - 1].consistent());
        assert forall|i: int| 0 <= i < rows.len() implies {
            let row = #[trigger] rows[i];
            &&& holds(cs, Key::Id, row.id)
            &&& holds(cs, Key::TxCode, row.tx_code)
            &&& holds(cs, Key::Token, row.token)
        } by {
            if i < before.len() {
                assert(rows[i] == before[i]);
            }
            lemma_holds_push(cs, Key::Id, rows[i].id);
            lemma_holds_push(cs, Key::TxCode, rows[i].tx_code);
            lemma_holds_push(cs, Key::Token, rows[i].token);
        }
        assert forall|i: int, j: int| 0 <= i < j < rows.len() implies {
            &&& (#[trigger] rows[i]).tx_code != (#[trigger] rows[j]).tx_code
            &&& rows[i].token != rows[j].token
        } by {
            assert(rows[i] == before[i]);
            if j < before.len() {
                assert(rows[j] == before[j]);
            } else {
                lemma_last_differs(cs, Key::TxCode, before[i].tx_code);
                lemma_last_differs(cs, Key::Token, before[i].token);
            }
        }
    }
}

/// Ceremony correlation: in a well-formed store every interaction, every
/// verification and every issuing has the id of a stored request.
pub proof fn law_ceremony_correlation(l: LedgerView)
    requires
        l.wf(),
    ensures
        forall|i: int|
            0 <= i < l.interactions().len() ==> l.request(
                (#[trigger] l.interactions()[i]).id,
            ).is_some(),
        forall|i: int|
            0 <= i < l.verifications().len() ==> l.request(
                (#[trigger] l.verifications()[i]).id,
            ).is_some(),
        forall|i: int|
            0 <= i < l.issuings().len() ==> l.request((#[trigger] l.issuings()[i]).id).is_some(),
{
    lemma_interactions(l.ceremonies);
    lemma_verifications(l.ceremonies);
    lemma_issuings(l.ceremonies);
}

/// Token uniqueness: in a well-formed store no two interactions share a
/// continuation token, no two issuings share a transaction code or a bearer
/// token, and no two verifications share a state.
pub proof fn law_token_uniqueness(l: LedgerView)
    requires
        l.wf(),
    ensures
        forall|i: int, j: int|
            0 <= i < j < l.interactions().len() ==> (#[trigger] l.interactions()[i]).continue_token
                != (#[trigger] l.interactions()[j]).continue_token,
        forall|i: int, j: int|
            0 <= i < j < l.issuings().len() ==> (#[trigger] l.issuings()[i]).tx_code != (
            #[trigger] l.issuings()[j]).tx_code,
        forall|i: int, j: int|
            0 <= i < j < l.issuings().len() ==> (#[trigger] l.issuings()[i]).token != (
            #[trigger] l.issuings()[j]).token,
        forall|i: int, j: int|
            0 <= i < j < l.verifications().len() ==> (#[trigger] l.verifications()[i]).state != (
            #[trigger] l.verifications()[j]).state,
{
    lemma_interactions(l.ceremonies);
    lemma_verifications(l.ceremonies);
    lemma_issuings(l.ceremonies);
}

/// The OpenID4VP grant: a grant request that the gatekeeper takes and that
/// accepts `oidc4vp`, for a ceremony whose id and secrets no ceremony of the
/// store holds, succeeds. Its answer carries a URI for the wallet that is
/// not empty, begins with `openid4vp://authorize?` and is the URI that the
/// verifier makes for the verification just stored, and it carries the
/// continuation endpoint, the continuation token and the nonce of the
/// interaction just stored. This holds whatever the services of the
/// orchestrator are.
pub proof fn law_oidc4vp_grant<G: GateKeeperTrait, I: IssuerTrait, V: VerifierTrait, R: RepoTrait>(
    core: Core<G, I, V, R>,
    after: LedgerView,
    payload: GrantRequest,
    seed: CeremonySeed,
    r: Result<GrantResponse, Errors>,
)
    requires
        core.manage_req_post(after, payload, seed, r),
        start_verdict(payload).is_none(),
        has_text(payload.interact.unwrap().start@, oidc4vp()),
        core.ledger().request(seed.id@).is_none(),
        core.ledger().ceremony(
            Key::ContinueId,
            core.spec_new_interaction(payload, seed).continue_id,
        ).is_none(),
        core.ledger().ceremony(
            Key::ContinueToken,
            core.spec_new_interaction(payload, seed).continue_token,
        ).is_none(),
        core.ledger().ceremony(Key::State, core.spec_new_verification(seed).state).is_none(),
    ensures
        r matches Ok(response) && response.interact.user_code_uri matches Some(uri) && after.verification(
            Key::Id,
            seed.id@,
        ) matches Some(ver) && after.interaction(Key::Id, seed.id@) matches Some(inter) && {
            &&& uri@.len() > 0
            &&& has_prefix(uri@, authorize_scheme())
            &&& uri@ == core.spec_verifier().spec_verification_uri(ver)
            &&& ver == core.spec_new_verification(seed)
            &&& inter == core.spec_new_interaction(payload, seed)
            &&& response.instance_id@ == seed.id@
            &&& response.cont.uri@ == inter.continue_endpoint
            &&& response.cont.access_token@ == inter.continue_token
            &&& response.interact.finish@ == inter.as_nonce
        },
{
    let before = core.ledger();
    let inter = core.spec_new_interaction(payload, seed);
    let ver = core.spec_new_verification(seed);
    let stored = CeremonyView {
        request: spec_new_request(payload, seed),
        interaction: Some(inter),
        verification: Some(ver),
        issuing: None,
    };
    let only_request = CeremonyView {
        request: spec_new_request(payload, seed),
        interaction: None,
        verification: None,
        issuing: None,
    };
    assert(only_request.with_interaction(Some(inter)).with_verification(Some(ver)) == stored);
    assert(after.ceremonies == before.ceremonies.push(stored));
    lemma_first_match_push(before.ceremonies, stored, Key::Id, seed.id@);
    reveal_strlit("openid4vp://authorize?");
}

/// The member at `at` is the one that a lookup by its name finds, where no
/// later member has that name.
proof fn lemma_find_member(members: Seq<MemberView>, key: Seq<char>, at: int)
    requires
        0 <= at < members.len(),
        members[at].name == key,
        forall|j: int| at < j < members.len() ==> (#[trigger] members[j]).name != key,
    ensures
        find_member(members, key) == Some(members[at].value),
    decreases members.len(),
{
    if at < members.len() - 1 {
        let head = members.drop_last();
        assert(members[members.len() - 1].name != key);
        assert(head[at] == members[at]);
        assert forall|j: int| at < j < head.len() implies (#[trigger] head[j]).name != key by {
            assert(head[j] == members[j]);
        }
        lemma_find_member(head, key, at);
    }
}

/// No member has the name `key`, so a lookup finds nothing.
proof fn lemma_find_no_member(members: Seq<MemberView>, key: Seq<char>)
    requires
        forall|j: int| 0 <= j < members.len() ==> (#[trigger] members[j]).name != key,
    ensures
        find_member(members, key).is_none(),
    decreases members.len(),
{
    if members.len() > 0 {
        let head = members.drop_last();
        assert(members[members.len() - 1].name != key);
        assert forall|j: int| 0 <= j < head.len() implies (#[trigger] head[j]).name != key by {
            assert(head[j] == members[j]);
        }
        lemma_find_no_member(head, key);
    }
}

/// The names of the members of a credential and of its parts are different
/// texts.
proof fn lemma_names_differ()
    ensures
        "vc"@ != "iss"@,
        "vc"@ != "sub"@,
        "vc"@ != "jti"@,
        "id"@ != "name"@,
        "id"@ != "type"@,
        "id"@ != "LegalName"@,
        "id"@ != "DataspaceId"@,
        "id"@ != "credentialSubject"@,
        "id"@ != "issuer"@,
        "id"@ != "validFrom"@,
        "id"@ != "validUntil"@,
        "credentialSubject"@ != "issuer"@,
        "credentialSubject"@ != "validFrom"@,
        "credentialSubject"@ != "validUntil"@,
        "CredentialSubject"@ != "@context"@,
        "CredentialSubject"@ != "type"@,
        "CredentialSubject"@ != "id"@,
        "CredentialSubject"@ != "credentialSubject"@,
        "CredentialSubject"@ != "issuer"@,
        "CredentialSubject"@ != "validFrom"@,
        "CredentialSubject"@ != "validUntil"@,
        "issuer"@ != "validFrom"@,
        "issuer"@ != "validUntil"@,
        "validFrom"@ != "validUntil"@,
{
    reveal_strlit("vc");
    reveal_strlit("iss");
    reveal_strlit("sub");
    reveal_strlit("jti");
    reveal_strlit("id");
    reveal_strlit("name");
    reveal_strlit("type");
    reveal_strlit("LegalName");
    reveal_strlit("DataspaceId");
    reveal_strlit("credentialSubject");
    reveal_strlit("CredentialSubject");
    reveal_strlit("@context");
    reveal_strlit("issuer");
    reveal_strlit("validFrom");
    reveal_strlit("validUntil");
    assert("vc"@.len() == 2);
    assert("iss"@.len() == 3);
    assert("sub"@.len() == 3);
    assert("jti"@.len() == 3);
    assert("id"@.len() == 2);
    assert("name"@.len() == 4);
    assert("type"@.len() == 4);
    assert("LegalName"@.len() == 9);
    assert("DataspaceId"@.len() == 11);
    assert("credentialSubject"@.len() == 17);
    assert("CredentialSubject"@.len() == 17);
    assert("@context"@.len() == 8);
    assert("issuer"@.len() == 6);
    assert("validFrom"@.len() == 9);
    assert("validUntil"@.len() == 10);
    assert("CredentialSubject"@[0] != "credentialSubject"@[0]);
}

/// What a minted credential holds under `vc`, member by member.
proof fn lemma_minted_members(
    model: issuing::ModelView,
    vc_type: VcType,
    holder: Seq<char>,
    did: Seq<char>,
    from: Seq<char>,
    until: Seq<char>,
)
    ensures
        ({
            let claims = minted_claims(model, vc_type, holder, did, from, until);
            let vc = minted_vc(model, vc_type, holder, did, from, until);
            &&& claims.get("vc"@) == Some(vc)
            &&& claims.get("iss"@).is_none()
            &&& claims.get("sub"@).is_none()
            &&& claims.get("jti"@).is_none()
            &&& vc.get("id"@) == Some(JsonView::Text(model.credential_id))
            &&& vc.get("credentialSubject"@) == Some(subject_json(vc_type, holder, model.name))
            &&& vc.get("CredentialSubject"@).is_none()
            &&& vc.get("validFrom"@) == Some(JsonView::Text(from))
            &&& vc.get("validUntil"@) == Some(JsonView::Text(until))
            &&& vc.get("issuer"@) matches Some(issuer) && issuer.get("id"@) == Some(
                JsonView::Text(did),
            )
            &&& subject_json(vc_type, holder, model.name).get("id"@) == Some(
                JsonView::Text(holder),
            )
        }),
{
    lemma_names_differ();
    let claims = minted_claims(model, vc_type, holder, did, from, until);
    let vc = minted_vc(model, vc_type, holder, did, from, until);
    let top = claims->Object_0;
    let inner = vc->Object_0;
    lemma_find_member(top, "vc"@, 0);
    lemma_find_no_member(top, "iss"@);
    lemma_find_no_member(top, "sub"@);
    lemma_find_no_member(top, "jti"@);
    lemma_find_member(inner, "id"@, 2);
    lemma_find_member(inner, "credentialSubject"@, 3);
    lemma_find_no_member(inner, "CredentialSubject"@);
    lemma_find_member(inner, "issuer"@, 4);
    lemma_find_member(inner, "validFrom"@, 5);
    lemma_find_member(inner, "validUntil"@, 6);
    let issuer = inner[4].value;
    lemma_find_member(issuer->Object_0, "id"@, 0);
    let subject = subject_json(vc_type, holder, model.name);
    lemma_find_member(subject->Object_0, "id"@, 0);
}

/// Following a path of one name is a lookup of that name.
proof fn lemma_at_one(j: JsonView, a: Seq<char>)
    ensures
        j.at(seq![a]) == j.get(a),
{
    let path = seq![a];
    assert(path[0] == a);
    assert(path.drop_first() =~= Seq::<Seq<char>>::empty());
    if j.get(a).is_some() {
        assert(j.get(a).unwrap().at(path.drop_first()) == Some(j.get(a).unwrap()));
    }
}

/// Following a path of two names is two lookups.
proof fn lemma_at_two(j: JsonView, a: Seq<char>, b: Seq<char>)
    ensures
        j.at(seq![a, b]) == match j.get(a) {
            Some(next) => next.get(b),
            None => None,
        },
{
    let path = seq![a, b];
    assert(path[0] == a);
    assert(path.drop_first() =~= seq![b]);
    if j.get(a).is_some() {
        lemma_at_one(j.get(a).unwrap(), b);
    }
}

/// Following a path of three names is three lookups.
proof fn lemma_at_three(j: JsonView, a: Seq<char>, b: Seq<char>, c: Seq<char>)
    ensures
        j.at(seq![a, b, c]) == match j.get(a) {
            Some(next) => match next.get(b) {
                Some(last) => last.get(c),
                None => None,
            },
            None => None,
        },
{
    let path = seq![a, b, c];
    assert(path[0] == a);
    assert(path.drop_first() =~= seq![b, c]);
    if j.get(a).is_some() {
        lemma_at_two(j.get(a).unwrap(), b, c);
    }
}

/// The credential that issuing makes for a record without one is the token
/// signed over claims whose `vc.credentialSubject.id` is the DID bound to
/// that record.
pub proof fn lemma_issued_for_holder(model: issuing::ModelView, did: Seq<char>, pem: Seq<char>, at: Instant)
    requires
        model.credential.is_none(),
        spec_issue(model, did, pem, at).is_ok(),
    ensures
        model.did.is_some(),
        exists|claims: JsonView|
            #[trigger] rs256_jwt(did, claims, pem) == Some(spec_issue(model, did, pem, at).unwrap())
                && claims.at(seq!["vc"@, "credentialSubject"@, "id"@]) == Some(
                JsonView::Text(model.did.unwrap()),
            ),
{
    let vc_type = VcType::spec_from(model.vc_type).unwrap();
    let holder = model.did.unwrap();
    let from = crate::outside::rfc3339_text(at.secs, at.nanos).unwrap();
    let until = crate::outside::rfc3339_text(
        (at.secs + crate::clock::VALIDITY_SECS) as i64,
        at.nanos,
    ).unwrap();
    let claims = minted_claims(model, vc_type, holder, did, from, until);
    lemma_minted_members(model, vc_type, holder, did, from, until);
    lemma_at_three(claims, "vc"@, "credentialSubject"@, "id"@);
    assert(rs256_jwt(did, claims, pem) == Some(spec_issue(model, did, pem, at).unwrap()));
}

/// Holder binding: when a credential is delivered for an issuing that had
/// none, the issuing is stored with the holder as its DID and with a
/// credential that is the token signed over claims whose
/// `vc.credentialSubject.id` is that DID.
pub proof fn law_holder_binding(
    before: LedgerView,
    after: LedgerView,
    token: Seq<char>,
    holder: Seq<char>,
    did: Seq<char>,
    pem: Seq<char>,
    at: Instant,
    r: Result<GiveVC, Errors>,
)
    requires
        before.wf(),
        deliver_post(before, after, token, holder, did, pem, at, r),
        r.is_ok(),
        before.issuing(Key::Token, token) matches Some(iss) && iss.credential.is_none(),
    ensures
        after.issuing(Key::Token, token) matches Some(row) && row.did == Some(holder)
            && row.credential == Some(r.unwrap().credential@) && exists|claims: JsonView|
            #[trigger] rs256_jwt(did, claims, pem) == row.credential && claims.at(
                seq!["vc"@, "credentialSubject"@, "id"@],
            ) == Some(JsonView::Text(holder)),
{
    let place = first_match(before.ceremonies, Key::Token, token, 0);
    lemma_first_match(before.ceremonies, Key::Token, token, 0);
    let c = before.ceremonies[place];
    let iss = c.issuing.unwrap();
    let bound = issuing::ModelView { did: Some(holder), ..iss };
    let jwt = spec_issue(bound, did, pem, at).unwrap();
    let stored = issuing::ModelView { credential: Some(jwt), ..bound };
    lemma_first_match_update(
        before.ceremonies,
        place,
        c.with_issuing(Some(stored)),
        Key::Token,
        token,
        0,
    );
    lemma_issued_for_holder(bound, did, pem, at);
}

/// No re-signing: after a credential was delivered for a bearer token, every
/// later delivery for that token, whoever asks and whenever, returns the
/// same credential and leaves the store as it was.
pub proof fn law_no_resigning(
    before: LedgerView,
    between: LedgerView,
    after: LedgerView,
    token: Seq<char>,
    first: (Seq<char>, Seq<char>, Seq<char>, Instant),
    second: (Seq<char>, Seq<char>, Seq<char>, Instant),
    r1: Result<GiveVC, Errors>,
    r2: Result<GiveVC, Errors>,
)
    requires
        before.wf(),
        deliver_post(before, between, token, first.0, first.1, first.2, first.3, r1),
        r1.is_ok(),
        deliver_post(between, after, token, second.0, second.1, second.2, second.3, r2),
    ensures
        r2 matches Ok(again) && again.credential@ == r1.unwrap().credential@,
        after == between,
{
    let place = first_match(before.ceremonies, Key::Token, token, 0);
    lemma_first_match(before.ceremonies, Key::Token, token, 0);
    let c = before.ceremonies[place];
    let iss = c.issuing.unwrap();
    if iss.credential.is_none() {
        let bound = issuing::ModelView { did: Some(first.0), ..iss };
        let jwt = spec_issue(bound, first.1, first.2, first.3).unwrap();
        let stored = issuing::ModelView { credential: Some(jwt), ..bound };
        lemma_first_match_update(
            before.ceremonies,
            place,
            c.with_issuing(Some(stored)),
            Key::Token,
            token,
            0,
        );
    }
}

/// What the verifier finds in a minted credential that is shown by its
/// holder and signed under the DID of the authority: the checks of the
/// issuer and of the id pass, and so do those of the validity period at any
/// instant between its bounds, while the subject is looked for under
/// `CredentialSubject`, where a minted credential has no member, so that the
/// check of the subject fails for want of that field.
pub proof fn law_minted_claims_checked(
    model: issuing::ModelView,
    vc_type: VcType,
    holder: Seq<char>,
    did: Seq<char>,
    from: Seq<char>,
    until: Seq<char>,
    at: Instant,
)
    requires
        rfc3339_instant(from) matches Some(start) && start.not_after(at),
        rfc3339_instant(until) matches Some(end) && at.not_after(end),
    ensures
        ({
            let claims = minted_claims(model, vc_type, holder, did, from, until);
            &&& issuer_verdict(claims, did).is_none()
            &&& vc_id_verdict(claims).is_none()
            &&& valid_from_verdict(claims, at).is_none()
            &&& valid_until_verdict(claims, at).is_none()
            &&& vc_sub_verdict(claims, holder) == Some(Reason::MissingField)
        }),
{
    let claims = minted_claims(model, vc_type, holder, did, from, until);
    lemma_minted_members(model, vc_type, holder, did, from, until);
    lemma_at_one(claims, "iss"@);
    lemma_at_one(claims, "sub"@);
    lemma_at_one(claims, "jti"@);
    lemma_at_two(claims, "vc"@, "id"@);
    lemma_at_two(claims, "vc"@, "validFrom"@);
    lemma_at_two(claims, "vc"@, "validUntil"@);
    lemma_at_three(claims, "vc"@, "issuer"@, "id"@);
    lemma_at_three(claims, "vc"@, "CredentialSubject"@, "id"@);
}

} // verus!
