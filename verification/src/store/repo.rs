//! The store itself: the operations of the persistence contract on a ledger
//! kept in memory. Every operation that changes the ledger keeps it
//! well-formed, and refuses what would break an invariant.
use vstd::prelude::*;
use vstd::string::*;
use crate::clock::Instant;
use crate::data::entities::{interaction, issuing, minions, request, verification};
use crate::data::entities::request::RequestStatus;
use crate::errors::{ErrorKind, Errors, Reason};
use crate::store::ledger::{
    first_match, first_me, first_minion, interaction_rows, issuing_rows, lemma_first_match,
    lemma_first_minion, lemma_first_minion_push, lemma_first_minion_update, lemma_no_other_match,
    lemma_push_wf, lemma_remove_wf, lemma_unchanged_key, lemma_update_wf, others_differ, upserted,
    verification_rows, window, Ceremony, CeremonyView, DEFAULT_LIMIT, Key, LedgerView,
};
use crate::text::str_eq;

verus! {

/// The store.
pub struct Ledger {
    ceremonies: Vec<Ceremony>,
    minions: Vec<minions::Model>,
}

impl View for Ledger {
    type V = LedgerView;

    closed spec fn view(&self) -> LedgerView {
        LedgerView {
            ceremonies: self.ceremonies@.map_values(|c: Ceremony| c@),
            minions: self.minions@.map_values(|m: minions::Model| m@),
        }
    }
}

/// The outcome of a lookup: the row, or a `MissingResource` failure.
pub open spec fn found_or_missing<T: View>(r: Result<T, Errors>, row: Option<T::V>) -> bool {
    match row {
        Some(view) => r matches Ok(found) && found@ == view,
        None => r matches Err(e) && e.kind == ErrorKind::MissingResource && e.reason
            == Reason::NotFound && e.http_code.is_none(),
    }
}

/// A failure of the class `kind` with the reason `why`.
pub open spec fn refuses<T>(r: Result<T, Errors>, kind: ErrorKind, why: Reason) -> bool {
    r matches Err(e) && e.kind == kind && e.reason == why && e.http_code.is_none()
}

/// A failure of the store with the reason `why`.
pub open spec fn store_refuses<T>(r: Result<T, Errors>, why: Reason) -> bool {
    r matches Err(e) && e.kind == ErrorKind::Database && e.reason == why && e.http_code.is_none()
}

/// The rows `offset`, `offset + 1`, ... of `rows`, at most `limit` of them.
pub fn take_window<T>(rows: Vec<T>, limit: u64, offset: u64) -> (r: Vec<T>)
    ensures
        r@ == window(rows@, limit as int, offset as int),
{
    let ghost all = rows@;
    let mut rows = rows;
    let len = rows.len();
    let start: usize = if offset < len as u64 {
        offset as usize
    } else {
        len
    };
    let end: usize = if limit < (len - start) as u64 {
        start + limit as usize
    } else {
        len
    };
    rows.truncate(end);
    let out = rows.split_off(start);
    assert(out@ =~= window(all, limit as int, offset as int));
    out
}

impl Ceremony {
    /// True when the ceremony is closed: its request is finalized or its
    /// credential is written.
    pub fn is_closed(&self) -> (r: bool)
        ensures
            r == self@.closed(),
    {
        let finalized = match self.request.status {
            RequestStatus::Finalized => true,
            _ => false,
        };
        let issued = match &self.issuing {
            Some(row) => row.credential.is_some(),
            None => false,
        };
        finalized || issued
    }

    /// True when the column `key` of the ceremony holds `value`.
    pub fn key_is(&self, key: Key, value: &str) -> (r: bool)
        ensures
            r == (self@.key(key) == Some(value@)),
    {
        match key {
            Key::Id => str_eq(self.request.id.as_str(), value),
            Key::ContinueId => match &self.interaction {
                Some(row) => str_eq(row.continue_id.as_str(), value),
                None => false,
            },
            Key::ContinueToken => match &self.interaction {
                Some(row) => str_eq(row.continue_token.as_str(), value),
                None => false,
            },
            Key::Reference => match &self.interaction {
                Some(row) => str_eq(row.interact_ref.as_str(), value),
                None => false,
            },
            Key::State => match &self.verification {
                Some(row) => str_eq(row.state.as_str(), value),
                None => false,
            },
            Key::TxCode => match &self.issuing {
                Some(row) => str_eq(row.tx_code.as_str(), value),
                None => false,
            },
            Key::Token => match &self.issuing {
                Some(row) => str_eq(row.token.as_str(), value),
                None => false,
            },
        }
    }
}

/// The persistence contract: what a store of the authority does.
pub trait RepoTrait {
    /// What the store holds.
    spec fn rows(&self) -> LedgerView;

    /// Stores a new request, which waits. An id that a ceremony has already
    /// is refused with the reason `Conflict`.
    fn create_request(&mut self, new: request::NewModel) -> (r: Result<request::Model, Errors>)
        requires
            old(self).rows().wf(),
        ensures
            final(self).rows().wf(),
            match old(self).rows().request(new@.id) {
                None => r matches Ok(row) && row@ == (request::ModelView {
                    id: new@.id,
                    participant_slug: new@.participant_slug,
                    cert: new@.cert,
                    vc_type: new@.vc_type,
                    status: RequestStatus::Pending,
                    vc_uri: None,
                }) && final(self).rows() == (LedgerView {
                    ceremonies: old(self).rows().ceremonies.push(
                        CeremonyView {
                            request: row@,
                            interaction: None,
                            verification: None,
                            issuing: None,
                        },
                    ),
                    minions: old(self).rows().minions,
                }),
                Some(_) => store_refuses(r, Reason::Conflict) && final(self).rows() == old(self).rows(),
            },
    ;

    /// The request of the ceremony `id`.
    fn get_request(&self, id: &str) -> (r: Result<request::Model, Errors>)
        ensures
            found_or_missing(r, self.rows().request(id@)),
    ;

    /// The requests from `offset` on, at most `limit` of them, in the order in
    /// which they were stored. Without a limit at most 100000 are returned,
    /// without an offset the listing starts at the first.
    fn get_all_requests(&self, limit: Option<u64>, offset: Option<u64>) -> (r: Vec<
        request::Model,
    >)
        ensures
            r@.map_values(|row: request::Model| row@) == window(
                self.rows().requests(),
                match limit {
                    Some(n) => n as int,
                    None => DEFAULT_LIMIT as int,
                },
                match offset {
                    Some(n) => n as int,
                    None => 0,
                },
            ),
    ;

    /// Puts `row` in the place of the request with its id. A request that no
    /// ceremony has is refused with the reason `NotFound`; the request of a
    /// closed ceremony accepts no other values than those it has, and any
    /// other is refused as `Forbidden` with the reason `Sealed`.
    fn update_request(&mut self, row: request::Model) -> (r: Result<request::Model, Errors>)
        requires
            old(self).rows().wf(),
        ensures
            final(self).rows().wf(),
            match old(self).rows().ceremony(Key::Id, row@.id) {
                None => store_refuses(r, Reason::NotFound) && final(self).rows() == old(self).rows(),
                Some(c) => if c.closed() && c.request != row@ {
                    r matches Err(e) && e.kind == ErrorKind::Forbidden && e.reason
                        == Reason::Sealed && e.http_code.is_none() && final(self).rows() == old(self).rows()
                } else {
                    r matches Ok(stored) && stored@ == row@ && final(self).rows() == (LedgerView {
                        ceremonies: old(self).rows().ceremonies.update(
                            first_match(old(self).rows().ceremonies, Key::Id, row@.id, 0),
                            CeremonyView { request: row@, ..c },
                        ),
                        minions: old(self).rows().minions,
                    })
                },
            },
    ;

    /// Removes the ceremony `id`, which must have no row but its request. A
    /// ceremony that does not exist is a `MissingResource`; a closed one is
    /// refused as `Forbidden` with the reason `Sealed`; one that still has an
    /// interaction, a verification or an issuing is refused with the reason
    /// `Conflict`.
    fn delete_request(&mut self, id: &str) -> (r: Result<(), Errors>)
        requires
            old(self).rows().wf(),
        ensures
            final(self).rows().wf(),
            match old(self).rows().ceremony(Key::Id, id@) {
                None => r matches Err(e) && e.kind == ErrorKind::MissingResource && e.reason
                    == Reason::NotFound && final(self).rows() == old(self).rows(),
                Some(c) => if c.closed() {
                    refuses(r, ErrorKind::Forbidden, Reason::Sealed) && final(self).rows() == old(self).rows()
                } else if c.has_dependents() {
                    store_refuses(r, Reason::Conflict) && final(self).rows() == old(self).rows()
                } else {
                    r.is_ok() && final(self).rows() == (LedgerView {
                        ceremonies: old(self).rows().ceremonies.remove(
                            first_match(old(self).rows().ceremonies, Key::Id, id@, 0),
                        ),
                        minions: old(self).rows().minions,
                    })
                },
            },
    ;

    /// Stores a new interaction with the values that the server drew for it. It
    /// is refused where no request has its id (`Orphan`), where the ceremony
    /// is closed (`Forbidden`, `Sealed`), where it has an interaction already,
    /// or where another ceremony holds its `continue_id` or `continue_token` (`Conflict`).
    fn create_interaction(&mut self, new: interaction::NewModel, seed: interaction::Seed) -> (r: Result<
        interaction::Model,
        Errors,
    >)
        requires
            old(self).rows().wf(),
        ensures
            final(self).rows().wf(),
            match old(self).rows().create_interaction_verdict(
                interaction::Model::spec_from_new(new@, seed@),
            ) {
                Some((kind, why)) => refuses(r, kind, why) && final(self).rows() == old(self).rows(),
                None => r matches Ok(row) && row@ == interaction::Model::spec_from_new(new@, seed@)
                    && final(self).rows() == old(self).rows().put_interaction(row@),
            },
    ;

    /// The interaction of the ceremony `id`.
    fn get_interaction(&self, id: &str) -> (r: Result<interaction::Model, Errors>)
        ensures
            found_or_missing(r, self.rows().interaction(Key::Id, id@)),
    ;

    /// The interaction with the continuation id `cont_id`.
    fn get_interaction_by_cont_id(&self, cont_id: &str) -> (r: Result<interaction::Model, Errors>)
        ensures
            found_or_missing(r, self.rows().interaction(Key::ContinueId, cont_id@)),
    ;

    /// The first interaction with the interaction reference `reference`.
    fn get_interaction_by_reference(&self, reference: &str) -> (r: Result<interaction::Model, Errors>)
        ensures
            found_or_missing(r, self.rows().interaction(Key::Reference, reference@)),
    ;

    /// The interactions from `offset` on, at most `limit` of them, in the order of
    /// their ceremonies. Without a limit at most 100000 are returned, without
    /// an offset the listing starts at the first.
    fn get_all_interactions(&self, limit: Option<u64>, offset: Option<u64>) -> (r: Vec<interaction::Model>)
        ensures
            r@.map_values(|row: interaction::Model| row@) == window(
                self.rows().interactions(),
                match limit {
                    Some(n) => n as int,
                    None => DEFAULT_LIMIT as int,
                },
                match offset {
                    Some(n) => n as int,
                    None => 0,
                },
            ),
    ;

    /// Puts `row` in the place of the interaction with its id. It is refused
    /// where no ceremony has such a row (`NotFound`), where the ceremony is
    /// closed and `row` differs from the row it has (`Forbidden`, `Sealed`),
    /// or where another ceremony holds its `continue_id` or `continue_token` (`Conflict`).
    fn update_interaction(&mut self, row: interaction::Model) -> (r: Result<interaction::Model, Errors>)
        requires
            old(self).rows().wf(),
        ensures
            final(self).rows().wf(),
            match old(self).rows().update_interaction_verdict(row@) {
                Some((kind, why)) => r matches Err(e) && e.kind == kind && e.reason == why
                    && e.http_code.is_none() && final(self).rows() == old(self).rows(),
                None => r matches Ok(stored) && stored@ == row@ && final(self).rows()
                    == old(self).rows().put_interaction(row@),
            },
    ;

    /// Removes the interaction of the ceremony `id`. A ceremony without one is a
    /// `MissingResource`; a closed ceremony is refused as `Forbidden` with the
    /// reason `Sealed`.
    fn delete_interaction(&mut self, id: &str) -> (r: Result<(), Errors>)
        requires
            old(self).rows().wf(),
        ensures
            final(self).rows().wf(),
            match old(self).rows().interaction(Key::Id, id@) {
                None => r matches Err(e) && e.kind == ErrorKind::MissingResource && e.reason
                    == Reason::NotFound && final(self).rows() == old(self).rows(),
                Some(_) => if old(self).rows().ceremony(Key::Id, id@).unwrap().closed() {
                    refuses(r, ErrorKind::Forbidden, Reason::Sealed) && final(self).rows() == old(self).rows()
                } else {
                    r.is_ok() && final(self).rows() == old(self).rows().drop_interaction(id@)
                },
            },
    ;

    /// Stores a new verification with the values that the server drew for it. It
    /// is refused where no request has its id (`Orphan`), where the ceremony
    /// is closed (`Forbidden`, `Sealed`), where it has a verification already,
    /// or where another ceremony holds its `state` (`Conflict`).
    fn create_verification(&mut self, new: verification::NewModel, seed: verification::Seed) -> (r: Result<
        verification::Model,
        Errors,
    >)
        requires
            old(self).rows().wf(),
        ensures
            final(self).rows().wf(),
            match old(self).rows().create_verification_verdict(
                verification::Model::spec_from_new(new@, seed@),
            ) {
                Some((kind, why)) => refuses(r, kind, why) && final(self).rows() == old(self).rows(),
                None => r matches Ok(row) && row@ == verification::Model::spec_from_new(new@, seed@)
                    && final(self).rows() == old(self).rows().put_verification(row@),
            },
    ;

    /// The verification of the ceremony `id`.
    fn get_verification(&self, id: &str) -> (r: Result<verification::Model, Errors>)
        ensures
            found_or_missing(r, self.rows().verification(Key::Id, id@)),
    ;

    /// The verification of the exchange `state`.
    fn get_verification_by_state(&self, state: &str) -> (r: Result<verification::Model, Errors>)
        ensures
            found_or_missing(r, self.rows().verification(Key::State, state@)),
    ;

    /// The verifications from `offset` on, at most `limit` of them, in the order of
    /// their ceremonies. Without a limit at most 100000 are returned, without
    /// an offset the listing starts at the first.
    fn get_all_verifications(&self, limit: Option<u64>, offset: Option<u64>) -> (r: Vec<verification::Model>)
        ensures
            r@.map_values(|row: verification::Model| row@) == window(
                self.rows().verifications(),
                match limit {
                    Some(n) => n as int,
                    None => DEFAULT_LIMIT as int,
                },
                match offset {
                    Some(n) => n as int,
                    None => 0,
                },
            ),
    ;

    /// Puts `row` in the place of the verification with its id. It is refused
    /// where no ceremony has such a row (`NotFound`), where the ceremony is
    /// closed and `row` differs from the row it has (`Forbidden`, `Sealed`),
    /// or where another ceremony holds its `state` (`Conflict`).
    fn update_verification(&mut self, row: verification::Model) -> (r: Result<verification::Model, Errors>)
        requires
            old(self).rows().wf(),
        ensures
            final(self).rows().wf(),
            match old(self).rows().update_verification_verdict(row@) {
                Some((kind, why)) => r matches Err(e) && e.kind == kind && e.reason == why
                    && e.http_code.is_none() && final(self).rows() == old(self).rows(),
                None => r matches Ok(stored) && stored@ == row@ && final(self).rows()
                    == old(self).rows().put_verification(row@),
            },
    ;

    /// Removes the verification of the ceremony `id`. A ceremony without one is a
    /// `MissingResource`; a closed ceremony is refused as `Forbidden` with the
    /// reason `Sealed`.
    fn delete_verification(&mut self, id: &str) -> (r: Result<(), Errors>)
        requires
            old(self).rows().wf(),
        ensures
            final(self).rows().wf(),
            match old(self).rows().verification(Key::Id, id@) {
                None => r matches Err(e) && e.kind == ErrorKind::MissingResource && e.reason
                    == Reason::NotFound && final(self).rows() == old(self).rows(),
                Some(_) => if old(self).rows().ceremony(Key::Id, id@).unwrap().closed() {
                    refuses(r, ErrorKind::Forbidden, Reason::Sealed) && final(self).rows() == old(self).rows()
                } else {
                    r.is_ok() && final(self).rows() == old(self).rows().drop_verification(id@)
                },
            },
    ;

    /// Stores a new issuing with the values that the server drew for it. It
    /// is refused where no request has its id (`Orphan`), where the ceremony
    /// is closed (`Forbidden`, `Sealed`), where it has an issuing already
    /// (`Conflict`), where its `tx_code` or `token` is empty (`EmptyKey`), or
    /// where another ceremony holds its `tx_code` or `token` (`Conflict`).
    fn create_issuing(&mut self, new: issuing::NewModel, seed: issuing::Seed) -> (r: Result<
        issuing::Model,
        Errors,
    >)
        requires
            old(self).rows().wf(),
        ensures
            final(self).rows().wf(),
            match old(self).rows().create_issuing_verdict(
                issuing::Model::spec_from_new(new@, seed@),
            ) {
                Some((kind, why)) => refuses(r, kind, why) && final(self).rows() == old(self).rows(),
                None => r matches Ok(row) && row@ == issuing::Model::spec_from_new(new@, seed@)
                    && final(self).rows() == old(self).rows().put_issuing(row@),
            },
    ;

    /// The issuing of the ceremony `id`.
    fn get_issuing(&self, id: &str) -> (r: Result<issuing::Model, Errors>)
        ensures
            found_or_missing(r, self.rows().issuing(Key::Id, id@)),
    ;

    /// The issuing with the transaction code `code`.
    fn get_issuing_by_tx_code(&self, code: &str) -> (r: Result<issuing::Model, Errors>)
        ensures
            found_or_missing(r, self.rows().issuing(Key::TxCode, code@)),
    ;

    /// The issuing with the bearer token `token`.
    fn get_issuing_by_token(&self, token: &str) -> (r: Result<issuing::Model, Errors>)
        ensures
            found_or_missing(r, self.rows().issuing(Key::Token, token@)),
    ;

    /// The issuings from `offset` on, at most `limit` of them, in the order of
    /// their ceremonies. Without a limit at most 100000 are returned, without
    /// an offset the listing starts at the first.
    fn get_all_issuings(&self, limit: Option<u64>, offset: Option<u64>) -> (r: Vec<issuing::Model>)
        ensures
            r@.map_values(|row: issuing::Model| row@) == window(
                self.rows().issuings(),
                match limit {
                    Some(n) => n as int,
                    None => DEFAULT_LIMIT as int,
                },
                match offset {
                    Some(n) => n as int,
                    None => 0,
                },
            ),
    ;

    /// Puts `row` in the place of the issuing with its id. It is refused
    /// where no ceremony has such a row (`NotFound`), where the ceremony is
    /// closed and `row` differs from the row it has (`Forbidden`, `Sealed`),
    /// where its `tx_code` or `token` is empty (`EmptyKey`), or where another
    /// ceremony holds its `tx_code` or `token` (`Conflict`).
    fn update_issuing(&mut self, row: issuing::Model) -> (r: Result<issuing::Model, Errors>)
        requires
            old(self).rows().wf(),
        ensures
            final(self).rows().wf(),
            match old(self).rows().update_issuing_verdict(row@) {
                Some((kind, why)) => r matches Err(e) && e.kind == kind && e.reason == why
                    && e.http_code.is_none() && final(self).rows() == old(self).rows(),
                None => r matches Ok(stored) && stored@ == row@ && final(self).rows()
                    == old(self).rows().put_issuing(row@),
            },
    ;

    /// Removes the issuing of the ceremony `id`. A ceremony without one is a
    /// `MissingResource`; a closed ceremony is refused as `Forbidden` with the
    /// reason `Sealed`.
    fn delete_issuing(&mut self, id: &str) -> (r: Result<(), Errors>)
        requires
            old(self).rows().wf(),
        ensures
            final(self).rows().wf(),
            match old(self).rows().issuing(Key::Id, id@) {
                None => r matches Err(e) && e.kind == ErrorKind::MissingResource && e.reason
                    == Reason::NotFound && final(self).rows() == old(self).rows(),
                Some(_) => if old(self).rows().ceremony(Key::Id, id@).unwrap().closed() {
                    refuses(r, ErrorKind::Forbidden, Reason::Sealed) && final(self).rows() == old(self).rows()
                } else {
                    r.is_ok() && final(self).rows() == old(self).rows().drop_issuing(id@)
                },
            },
    ;

    /// Stores a new minion, written at `at`. A participant id that a minion
    /// has already is refused with the reason `Conflict`.
    fn create_minion(&mut self, new: minions::NewModel, at: Instant) -> (r: Result<
        minions::Model,
        Errors,
    >)
        requires
            old(self).rows().wf(),
        ensures
            final(self).rows().wf(),
            match old(self).rows().minion(new@.participant_id) {
                None => r matches Ok(row) && row@ == minions::Model::spec_from_new(new@, at)
                    && final(self).rows() == (LedgerView {
                    ceremonies: old(self).rows().ceremonies,
                    minions: old(self).rows().minions.push(row@),
                }),
                Some(_) => store_refuses(r, Reason::Conflict) && final(self).rows() == old(self).rows(),
            },
    ;

    /// The minion with the participant id `id`.
    fn get_minion(&self, id: &str) -> (r: Result<minions::Model, Errors>)
        ensures
            found_or_missing(r, self.rows().minion(id@)),
    ;

    /// The minion that stands for the authority itself.
    fn get_me(&self) -> (r: Result<minions::Model, Errors>)
        ensures
            found_or_missing(r, self.rows().me()),
    ;

    /// The minions from `offset` on, at most `limit` of them, in the order in
    /// which they were stored. Without a limit at most 100000 are returned,
    /// without an offset the listing starts at the first.
    fn get_all_minions(&self, limit: Option<u64>, offset: Option<u64>) -> (r: Vec<
        minions::Model,
    >)
        ensures
            r@.map_values(|row: minions::Model| row@) == window(
                self.rows().minions,
                match limit {
                    Some(n) => n as int,
                    None => DEFAULT_LIMIT as int,
                },
                match offset {
                    Some(n) => n as int,
                    None => 0,
                },
            ),
    ;

    /// Puts `row` in the place of the minion with its participant id. A
    /// participant that has no minion is refused with the reason `NotFound`.
    fn update_minion(&mut self, row: minions::Model) -> (r: Result<minions::Model, Errors>)
        requires
            old(self).rows().wf(),
        ensures
            final(self).rows().wf(),
            match old(self).rows().minion(row@.participant_id) {
                None => store_refuses(r, Reason::NotFound) && final(self).rows() == old(self).rows(),
                Some(_) => r matches Ok(stored) && stored@ == row@ && final(self).rows() == (LedgerView {
                    ceremonies: old(self).rows().ceremonies,
                    minions: old(self).rows().minions.update(
                        first_minion(old(self).rows().minions, row@.participant_id, 0),
                        row@,
                    ),
                }),
            },
    ;

    /// Removes the minion with the participant id `id`. A participant that
    /// has no minion is a `MissingResource`.
    fn delete_minion(&mut self, id: &str) -> (r: Result<(), Errors>)
        requires
            old(self).rows().wf(),
        ensures
            final(self).rows().wf(),
            match old(self).rows().minion(id@) {
                None => r matches Err(e) && e.kind == ErrorKind::MissingResource && e.reason
                    == Reason::NotFound && final(self).rows() == old(self).rows(),
                Some(_) => r.is_ok() && final(self).rows() == (LedgerView {
                    ceremonies: old(self).rows().ceremonies,
                    minions: old(self).rows().minions.remove(first_minion(old(self).rows().minions, id@, 0)),
                }),
            },
    ;

    /// Stores the minion of a holder, written at `at`. Where the holder has a
    /// minion already, its base URL, issuing URI and name are replaced, the
    /// time of its last interaction becomes `at`, and its other values are
    /// kept.
    fn force_create(&mut self, minion: minions::NewModel, at: Instant) -> (r: Result<
        minions::Model,
        Errors,
    >)
        requires
            old(self).rows().wf(),
        ensures
            final(self).rows().wf(),
            final(self).rows().ceremonies == old(self).rows().ceremonies,
            r matches Ok(row) && final(self).rows().minion(minion@.participant_id) == Some(row@),
            match old(self).rows().minion(minion@.participant_id) {
                None => r matches Ok(row) && row@ == minions::Model::spec_from_new(minion@, at)
                    && final(self).rows().minions == old(self).rows().minions.push(row@),
                Some(stored) => r matches Ok(row) && row@ == upserted(stored, minion@, at)
                    && final(self).rows().minions == old(self).rows().minions.update(
                    first_minion(old(self).rows().minions, minion@.participant_id, 0),
                    row@,
                ),
            },
    ;
}

impl Ledger {
    /// An empty store.
    pub fn new() -> (r: Ledger)
        ensures
            r@.wf(),
            r@.ceremonies.len() == 0,
            r@.minions.len() == 0,
    {
        Ledger { ceremonies: Vec::new(), minions: Vec::new() }
    }

    /// Position of the first ceremony whose column `key` holds `value`; the
    /// number of ceremonies when there is none.
    fn locate(&self, key: Key, value: &str) -> (r: usize)
        ensures
            r == first_match(self@.ceremonies, key, value@, 0),
            r <= self.ceremonies.len(),
            self@.ceremonies.len() == self.ceremonies.len(),
    {
        let mut i: usize = 0;
        while i < self.ceremonies.len()
            invariant
                i <= self.ceremonies.len(),
                self@.ceremonies.len() == self.ceremonies.len(),
                first_match(self@.ceremonies, key, value@, 0) == first_match(
                    self@.ceremonies,
                    key,
                    value@,
                    i as int,
                ),
            decreases self.ceremonies.len() - i,
        {
            if self.ceremonies[i].key_is(key, value) {
                return i;
            }
            i = i + 1;
        }
        i
    }

    /// Puts `c` in the place of the ceremony at `at`.
    fn replace(&mut self, at: usize, c: Ceremony)
        requires
            at < old(self)@.ceremonies.len(),
        ensures
            final(self)@ == (LedgerView {
                ceremonies: old(self)@.ceremonies.update(at as int, c@),
                minions: old(self)@.minions,
            }),
    {
        self.ceremonies.remove(at);
        self.ceremonies.insert(at, c);
        assert(self@.ceremonies =~= old(self)@.ceremonies.update(at as int, c@));
    }

    /// The number of ceremonies.
    pub fn len(&self) -> (r: usize)
        ensures
            r == self@.ceremonies.len(),
    {
        self.ceremonies.len()
    }

    /// The interaction of the first ceremony whose column `key` holds `value`.
    fn find_interaction(&self, key: Key, value: &str) -> (r: Result<interaction::Model, Errors>)
        ensures
            found_or_missing(r, self@.interaction(key, value@)),
    {
        let at = self.locate(key, value);
        if at >= self.ceremonies.len() {
            return Err(Errors::missing_resource_new(value));
        }
        match &self.ceremonies[at].interaction {
            Some(row) => Ok(row.duplicate()),
            None => Err(Errors::missing_resource_new(value)),
        }
    }

    /// The verification of the first ceremony whose column `key` holds `value`.
    fn find_verification(&self, key: Key, value: &str) -> (r: Result<verification::Model, Errors>)
        ensures
            found_or_missing(r, self@.verification(key, value@)),
    {
        let at = self.locate(key, value);
        if at >= self.ceremonies.len() {
            return Err(Errors::missing_resource_new(value));
        }
        match &self.ceremonies[at].verification {
            Some(row) => Ok(row.duplicate()),
            None => Err(Errors::missing_resource_new(value)),
        }
    }

    /// The issuing of the first ceremony whose column `key` holds `value`.
    fn find_issuing(&self, key: Key, value: &str) -> (r: Result<issuing::Model, Errors>)
        ensures
            found_or_missing(r, self@.issuing(key, value@)),
    {
        let at = self.locate(key, value);
        if at >= self.ceremonies.len() {
            return Err(Errors::missing_resource_new(value));
        }
        match &self.ceremonies[at].issuing {
            Some(row) => Ok(row.duplicate()),
            None => Err(Errors::missing_resource_new(value)),
        }
    }

    /// Position of the first minion with the participant id `id`; the number
    /// of minions when there is none.
    fn locate_minion(&self, id: &str) -> (r: usize)
        ensures
            r == first_minion(self@.minions, id@, 0),
            r <= self.minions.len(),
            self@.minions.len() == self.minions.len(),
    {
        let mut i: usize = 0;
        while i < self.minions.len()
            invariant
                i <= self.minions.len(),
                self@.minions.len() == self.minions.len(),
                first_minion(self@.minions, id@, 0) == first_minion(self@.minions, id@, i as int),
            decreases self.minions.len() - i,
        {
            if str_eq(self.minions[i].participant_id.as_str(), id) {
                return i;
            }
            i = i + 1;
        }
        i
    }
}

impl RepoTrait for Ledger {
    open spec fn rows(&self) -> LedgerView {
        self@
    }

    fn create_request(&mut self, new: request::NewModel) -> (r: Result<request::Model, Errors>) {
        if self.locate(Key::Id, new.id.as_str()) < self.ceremonies.len() {
            return Err(Errors::database_new(Reason::Conflict, new.id.as_str()));
        }
        let row = request::Model::from_new(new);
        let copy = row.duplicate();
        let c = Ceremony { request: row, interaction: None, verification: None, issuing: None };
        proof {
            lemma_push_wf(self@, c@);
        }
        self.ceremonies.push(c);
        assert(self@.ceremonies =~= old(self)@.ceremonies.push(c@));
        Ok(copy)
    }

    fn get_request(&self, id: &str) -> (r: Result<request::Model, Errors>) {
        let at = self.locate(Key::Id, id);
        if at < self.ceremonies.len() {
            Ok(self.ceremonies[at].request.duplicate())
        } else {
            Err(Errors::missing_resource_new(id))
        }
    }

    fn get_all_requests(&self, limit: Option<u64>, offset: Option<u64>) -> (r: Vec<
        request::Model,
    >) {
        let mut rows: Vec<request::Model> = Vec::new();
        let mut i: usize = 0;
        while i < self.ceremonies.len()
            invariant
                i <= self.ceremonies.len(),
                rows@.len() == i,
                forall|k: int| 0 <= k < i ==> (#[trigger] rows@[k])@ == self.ceremonies@[k]@.request,
            decreases self.ceremonies.len() - i,
        {
            rows.push(self.ceremonies[i].request.duplicate());
            i = i + 1;
        }
        assert(rows@.map_values(|row: request::Model| row@) =~= self@.requests());
        let limit = match limit {
            Some(n) => n,
            None => DEFAULT_LIMIT,
        };
        let offset = match offset {
            Some(n) => n,
            None => 0,
        };
        let page = take_window(rows, limit, offset);
        assert(page@.map_values(|row: request::Model| row@) =~= window(
            self@.requests(),
            limit as int,
            offset as int,
        ));
        page
    }

    fn update_request(&mut self, row: request::Model) -> (r: Result<request::Model, Errors>) {
        let at = self.locate(Key::Id, row.id.as_str());
        if at >= self.ceremonies.len() {
            return Err(Errors::database_new(Reason::NotFound, row.id.as_str()));
        }
        proof {
            lemma_first_match(self@.ceremonies, Key::Id, row@.id, 0);
        }
        if self.ceremonies[at].is_closed() && !self.ceremonies[at].request.same(&row) {
            return Err(Errors::forbidden_new(Reason::Sealed, row.id.as_str()));
        }
        let copy = row.duplicate();
        let mut c = self.ceremonies[at].clone_parts();
        c.request = row;
        proof {
            let cs = self@.ceremonies;
            lemma_unchanged_key(cs, at as int, c@, Key::ContinueId);
            lemma_unchanged_key(cs, at as int, c@, Key::ContinueToken);
            lemma_unchanged_key(cs, at as int, c@, Key::State);
            lemma_unchanged_key(cs, at as int, c@, Key::TxCode);
            lemma_unchanged_key(cs, at as int, c@, Key::Token);
            assert(cs[at as int].consistent());
            lemma_update_wf(self@, at as int, c@);
        }
        self.replace(at, c);
        Ok(copy)
    }

    fn delete_request(&mut self, id: &str) -> (r: Result<(), Errors>) {
        let at = self.locate(Key::Id, id);
        if at >= self.ceremonies.len() {
            return Err(Errors::missing_resource_new(id));
        }
        let c = &self.ceremonies[at];
        if c.is_closed() {
            return Err(Errors::forbidden_new(Reason::Sealed, id));
        }
        if c.interaction.is_some() || c.verification.is_some() || c.issuing.is_some() {
            return Err(Errors::database_new(Reason::Conflict, id));
        }
        proof {
            lemma_remove_wf(self@, at as int);
        }
        self.ceremonies.remove(at);
        assert(self@.ceremonies =~= old(self)@.ceremonies.remove(at as int));
        Ok(())
    }

    fn create_interaction(&mut self, new: interaction::NewModel, seed: interaction::Seed) -> (r: Result<
        interaction::Model,
        Errors,
    >) {
        let row = interaction::Model::from_new(new, seed);
        let at = self.locate(Key::Id, row.id.as_str());
        if at >= self.ceremonies.len() {
            return Err(Errors::database_new(Reason::Orphan, row.id.as_str()));
        }
        proof {
            lemma_first_match(self@.ceremonies, Key::Id, row@.id, 0);
        }
        if self.ceremonies[at].is_closed() {
            return Err(Errors::forbidden_new(Reason::Sealed, row.id.as_str()));
        }
        if self.ceremonies[at].interaction.is_some() {
            return Err(Errors::database_new(Reason::Conflict, row.id.as_str()));
        }
        let taken = self.locate(Key::ContinueId, row.continue_id.as_str());
        if taken < self.ceremonies.len() && taken != at {
            return Err(Errors::database_new(Reason::Conflict, row.continue_id.as_str()));
        }
        let taken = self.locate(Key::ContinueToken, row.continue_token.as_str());
        if taken < self.ceremonies.len() && taken != at {
            return Err(Errors::database_new(Reason::Conflict, row.continue_token.as_str()));
        }
        let copy = row.duplicate();
        let mut c = self.ceremonies[at].clone_parts();
        c.interaction = Some(row);
        proof {
            let cs = self@.ceremonies;
            lemma_no_other_match(cs, Key::ContinueId, row@.continue_id, at as int);
            lemma_no_other_match(cs, Key::ContinueToken, row@.continue_token, at as int);
            lemma_unchanged_key(cs, at as int, c@, Key::State);
            lemma_unchanged_key(cs, at as int, c@, Key::TxCode);
            lemma_unchanged_key(cs, at as int, c@, Key::Token);
            assert(cs[at as int].consistent());
            lemma_update_wf(self@, at as int, c@);
        }
        self.replace(at, c);
        Ok(copy)
    }

    fn get_interaction(&self, id: &str) -> (r: Result<interaction::Model, Errors>) {
        self.find_interaction(Key::Id, id)
    }

    fn get_interaction_by_cont_id(&self, cont_id: &str) -> (r: Result<interaction::Model, Errors>) {
        self.find_interaction(Key::ContinueId, cont_id)
    }

    fn get_interaction_by_reference(&self, reference: &str) -> (r: Result<interaction::Model, Errors>) {
        self.find_interaction(Key::Reference, reference)
    }

    fn get_all_interactions(&self, limit: Option<u64>, offset: Option<u64>) -> (r: Vec<interaction::Model>) {
        let ghost cs = self@.ceremonies;
        let mut rows: Vec<interaction::Model> = Vec::new();
        let mut i: usize = 0;
        assert(cs.take(0) =~= Seq::<CeremonyView>::empty());
        assert(rows@.map_values(|row: interaction::Model| row@) =~= interaction_rows(cs.take(0)));
        while i < self.ceremonies.len()
            invariant
                i <= self.ceremonies.len(),
                cs == self@.ceremonies,
                cs.len() == self.ceremonies.len(),
                rows@.map_values(|row: interaction::Model| row@) == interaction_rows(cs.take(i as int)),
            decreases self.ceremonies.len() - i,
        {
            assert(cs.take(i + 1).drop_last() == cs.take(i as int));
            assert(cs.take(i + 1).last() == self.ceremonies@[i as int]@);
            match &self.ceremonies[i].interaction {
                Some(row) => {
                    let ghost before = rows@;
                    let copy = row.duplicate();
                    rows.push(copy);
                    assert(rows@.map_values(|row: interaction::Model| row@) =~= before.map_values(
                        |row: interaction::Model| row@,
                    ).push(copy@));
                },
                None => {},
            }
            i = i + 1;
        }
        assert(cs.take(i as int) == cs);
        let limit = match limit {
            Some(n) => n,
            None => DEFAULT_LIMIT,
        };
        let offset = match offset {
            Some(n) => n,
            None => 0,
        };
        let ghost all = rows@;
        let page = take_window(rows, limit, offset);
        assert(page@.map_values(|row: interaction::Model| row@) =~= window(
            all.map_values(|row: interaction::Model| row@),
            limit as int,
            offset as int,
        ));
        page
    }

    fn update_interaction(&mut self, row: interaction::Model) -> (r: Result<interaction::Model, Errors>) {
        let at = self.locate(Key::Id, row.id.as_str());
        if at >= self.ceremonies.len() {
            return Err(Errors::database_new(Reason::NotFound, row.id.as_str()));
        }
        proof {
            lemma_first_match(self@.ceremonies, Key::Id, row@.id, 0);
        }
        if self.ceremonies[at].interaction.is_none() {
            return Err(Errors::database_new(Reason::NotFound, row.id.as_str()));
        }
        let unchanged = match &self.ceremonies[at].interaction {
            Some(stored) => stored.same(&row),
            None => false,
        };
        if self.ceremonies[at].is_closed() && !unchanged {
            return Err(Errors::forbidden_new(Reason::Sealed, row.id.as_str()));
        }
        let taken = self.locate(Key::ContinueId, row.continue_id.as_str());
        if taken < self.ceremonies.len() && taken != at {
            return Err(Errors::database_new(Reason::Conflict, row.continue_id.as_str()));
        }
        let taken = self.locate(Key::ContinueToken, row.continue_token.as_str());
        if taken < self.ceremonies.len() && taken != at {
            return Err(Errors::database_new(Reason::Conflict, row.continue_token.as_str()));
        }
        let copy = row.duplicate();
        let mut c = self.ceremonies[at].clone_parts();
        c.interaction = Some(row);
        proof {
            let cs = self@.ceremonies;
            lemma_no_other_match(cs, Key::ContinueId, row@.continue_id, at as int);
            lemma_no_other_match(cs, Key::ContinueToken, row@.continue_token, at as int);
            lemma_unchanged_key(cs, at as int, c@, Key::State);
            lemma_unchanged_key(cs, at as int, c@, Key::TxCode);
            lemma_unchanged_key(cs, at as int, c@, Key::Token);
            assert(cs[at as int].consistent());
            lemma_update_wf(self@, at as int, c@);
        }
        self.replace(at, c);
        Ok(copy)
    }

    fn delete_interaction(&mut self, id: &str) -> (r: Result<(), Errors>) {
        let at = self.locate(Key::Id, id);
        if at >= self.ceremonies.len() {
            return Err(Errors::missing_resource_new(id));
        }
        proof {
            lemma_first_match(self@.ceremonies, Key::Id, id@, 0);
        }
        if self.ceremonies[at].interaction.is_none() {
            return Err(Errors::missing_resource_new(id));
        }
        if self.ceremonies[at].is_closed() {
            return Err(Errors::forbidden_new(Reason::Sealed, id));
        }
        let mut c = self.ceremonies[at].clone_parts();
        c.interaction = None;
        proof {
            let cs = self@.ceremonies;
            assert(cs[at as int].consistent());
            assert(others_differ(cs, at as int, c@, Key::ContinueId)) by {
                if c@.key(Key::ContinueId).is_some() {
                    lemma_unchanged_key(cs, at as int, c@, Key::ContinueId);
                }
            }
            assert(others_differ(cs, at as int, c@, Key::ContinueToken)) by {
                if c@.key(Key::ContinueToken).is_some() {
                    lemma_unchanged_key(cs, at as int, c@, Key::ContinueToken);
                }
            }
            assert(others_differ(cs, at as int, c@, Key::State)) by {
                if c@.key(Key::State).is_some() {
                    lemma_unchanged_key(cs, at as int, c@, Key::State);
                }
            }
            assert(others_differ(cs, at as int, c@, Key::TxCode)) by {
                if c@.key(Key::TxCode).is_some() {
                    lemma_unchanged_key(cs, at as int, c@, Key::TxCode);
                }
            }
            assert(others_differ(cs, at as int, c@, Key::Token)) by {
                if c@.key(Key::Token).is_some() {
                    lemma_unchanged_key(cs, at as int, c@, Key::Token);
                }
            }
            lemma_update_wf(self@, at as int, c@);
        }
        self.replace(at, c);
        Ok(())
    }

    fn create_verification(&mut self, new: verification::NewModel, seed: verification::Seed) -> (r: Result<
        verification::Model,
        Errors,
    >) {
        let row = verification::Model::from_new(new, seed);
        let at = self.locate(Key::Id, row.id.as_str());
        if at >= self.ceremonies.len() {
            return Err(Errors::database_new(Reason::Orphan, row.id.as_str()));
        }
        proof {
            lemma_first_match(self@.ceremonies, Key::Id, row@.id, 0);
        }
        if self.ceremonies[at].is_closed() {
            return Err(Errors::forbidden_new(Reason::Sealed, row.id.as_str()));
        }
        if self.ceremonies[at].verification.is_some() {
            return Err(Errors::database_new(Reason::Conflict, row.id.as_str()));
        }
        let taken = self.locate(Key::State, row.state.as_str());
        if taken < self.ceremonies.len() && taken != at {
            return Err(Errors::database_new(Reason::Conflict, row.state.as_str()));
        }
        let copy = row.duplicate();
        let mut c = self.ceremonies[at].clone_parts();
        c.verification = Some(row);
        proof {
            let cs = self@.ceremonies;
            lemma_no_other_match(cs, Key::State, row@.state, at as int);
            lemma_unchanged_key(cs, at as int, c@, Key::ContinueId);
            lemma_unchanged_key(cs, at as int, c@, Key::ContinueToken);
            lemma_unchanged_key(cs, at as int, c@, Key::TxCode);
            lemma_unchanged_key(cs, at as int, c@, Key::Token);
            assert(cs[at as int].consistent());
            lemma_update_wf(self@, at as int, c@);
        }
        self.replace(at, c);
        Ok(copy)
    }

    fn get_verification(&self, id: &str) -> (r: Result<verification::Model, Errors>) {
        self.find_verification(Key::Id, id)
    }

    fn get_verification_by_state(&self, state: &str) -> (r: Result<verification::Model, Errors>) {
        self.find_verification(Key::State, state)
    }

    fn get_all_verifications(&self, limit: Option<u64>, offset: Option<u64>)
        -> (r: Vec<verification::Model>) {
        let ghost cs = self@.ceremonies;
        let mut rows: Vec<verification::Model> = Vec::new();
        let mut i: usize = 0;
        assert(cs.take(0) =~= Seq::<CeremonyView>::empty());
        assert(rows@.map_values(|row: verification::Model| row@) =~= verification_rows(cs.take(0)));
        while i < self.ceremonies.len()
            invariant
                i <= self.ceremonies.len(),
                cs == self@.ceremonies,
                cs.len() == self.ceremonies.len(),
                rows@.map_values(|row: verification::Model| row@) == verification_rows(cs.take(i as int)),
            decreases self.ceremonies.len() - i,
        {
            assert(cs.take(i + 1).drop_last() == cs.take(i as int));
            assert(cs.take(i + 1).last() == self.ceremonies@[i as int]@);
            match &self.ceremonies[i].verification {
                Some(row) => {
                    let ghost before = rows@;
                    let copy = row.duplicate();
                    rows.push(copy);
                    assert(rows@.map_values(|row: verification::Model| row@) =~= before.map_values(
                        |row: verification::Model| row@,
                    ).push(copy@));
                },
                None => {},
            }
            i = i + 1;
        }
        assert(cs.take(i as int) == cs);
        let limit = match limit {
            Some(n) => n,
            None => DEFAULT_LIMIT,
        };
        let offset = match offset {
            Some(n) => n,
            None => 0,
        };
        let ghost all = rows@;
        let page = take_window(rows, limit, offset);
        assert(page@.map_values(|row: verification::Model| row@) =~= window(
            all.map_values(|row: verification::Model| row@),
            limit as int,
            offset as int,
        ));
        page
    }

    fn update_verification(&mut self, row: verification::Model) -> (r: Result<verification::Model, Errors>) {
        let at = self.locate(Key::Id, row.id.as_str());
        if at >= self.ceremonies.len() {
            return Err(Errors::database_new(Reason::NotFound, row.id.as_str()));
        }
        proof {
            lemma_first_match(self@.ceremonies, Key::Id, row@.id, 0);
        }
        if self.ceremonies[at].verification.is_none() {
            return Err(Errors::database_new(Reason::NotFound, row.id.as_str()));
        }
        let unchanged = match &self.ceremonies[at].verification {
            Some(stored) => stored.same(&row),
            None => false,
        };
        if self.ceremonies[at].is_closed() && !unchanged {
            return Err(Errors::forbidden_new(Reason::Sealed, row.id.as_str()));
        }
        let taken = self.locate(Key::State, row.state.as_str());
        if taken < self.ceremonies.len() && taken != at {
            return Err(Errors::database_new(Reason::Conflict, row.state.as_str()));
        }
        let copy = row.duplicate();
        let mut c = self.ceremonies[at].clone_parts();
        c.verification = Some(row);
        proof {
            let cs = self@.ceremonies;
            lemma_no_other_match(cs, Key::State, row@.state, at as int);
            lemma_unchanged_key(cs, at as int, c@, Key::ContinueId);
            lemma_unchanged_key(cs, at as int, c@, Key::ContinueToken);
            lemma_unchanged_key(cs, at as int, c@, Key::TxCode);
            lemma_unchanged_key(cs, at as int, c@, Key::Token);
            assert(cs[at as int].consistent());
            lemma_update_wf(self@, at as int, c@);
        }
        self.replace(at, c);
        Ok(copy)
    }

    fn delete_verification(&mut self, id: &str) -> (r: Result<(), Errors>) {
        let at = self.locate(Key::Id, id);
        if at >= self.ceremonies.len() {
            return Err(Errors::missing_resource_new(id));
        }
        proof {
            lemma_first_match(self@.ceremonies, Key::Id, id@, 0);
        }
        if self.ceremonies[at].verification.is_none() {
            return Err(Errors::missing_resource_new(id));
        }
        if self.ceremonies[at].is_closed() {
            return Err(Errors::forbidden_new(Reason::Sealed, id));
        }
        let mut c = self.ceremonies[at].clone_parts();
        c.verification = None;
        proof {
            let cs = self@.ceremonies;
            assert(cs[at as int].consistent());
            assert(others_differ(cs, at as int, c@, Key::ContinueId)) by {
                if c@.key(Key::ContinueId).is_some() {
                    lemma_unchanged_key(cs, at as int, c@, Key::ContinueId);
                }
            }
            assert(others_differ(cs, at as int, c@, Key::ContinueToken)) by {
                if c@.key(Key::ContinueToken).is_some() {
                    lemma_unchanged_key(cs, at as int, c@, Key::ContinueToken);
                }
            }
            assert(others_differ(cs, at as int, c@, Key::State)) by {
                if c@.key(Key::State).is_some() {
                    lemma_unchanged_key(cs, at as int, c@, Key::State);
                }
            }
            assert(others_differ(cs, at as int, c@, Key::TxCode)) by {
                if c@.key(Key::TxCode).is_some() {
                    lemma_unchanged_key(cs, at as int, c@, Key::TxCode);
                }
            }
            assert(others_differ(cs, at as int, c@, Key::Token)) by {
                if c@.key(Key::Token).is_some() {
                    lemma_unchanged_key(cs, at as int, c@, Key::Token);
                }
            }
            lemma_update_wf(self@, at as int, c@);
        }
        self.replace(at, c);
        Ok(())
    }

    fn create_issuing(&mut self, new: issuing::NewModel, seed: issuing::Seed) -> (r: Result<
        issuing::Model,
        Errors,
    >) {
        let row = issuing::Model::from_new(new, seed);
        let at = self.locate(Key::Id, row.id.as_str());
        if at >= self.ceremonies.len() {
            return Err(Errors::database_new(Reason::Orphan, row.id.as_str()));
        }
        proof {
            lemma_first_match(self@.ceremonies, Key::Id, row@.id, 0);
        }
        if self.ceremonies[at].is_closed() {
            return Err(Errors::forbidden_new(Reason::Sealed, row.id.as_str()));
        }
        if self.ceremonies[at].issuing.is_some() {
            return Err(Errors::database_new(Reason::Conflict, row.id.as_str()));
        }
        if row.tx_code.as_str().unicode_len() == 0 || row.token.as_str().unicode_len() == 0 {
            return Err(Errors::database_new(Reason::EmptyKey, row.id.as_str()));
        }
        let taken = self.locate(Key::TxCode, row.tx_code.as_str());
        if taken < self.ceremonies.len() && taken != at {
            return Err(Errors::database_new(Reason::Conflict, row.tx_code.as_str()));
        }
        let taken = self.locate(Key::Token, row.token.as_str());
        if taken < self.ceremonies.len() && taken != at {
            return Err(Errors::database_new(Reason::Conflict, row.token.as_str()));
        }
        let copy = row.duplicate();
        let mut c = self.ceremonies[at].clone_parts();
        c.issuing = Some(row);
        proof {
            let cs = self@.ceremonies;
            lemma_no_other_match(cs, Key::TxCode, row@.tx_code, at as int);
            lemma_no_other_match(cs, Key::Token, row@.token, at as int);
            lemma_unchanged_key(cs, at as int, c@, Key::ContinueId);
            lemma_unchanged_key(cs, at as int, c@, Key::ContinueToken);
            lemma_unchanged_key(cs, at as int, c@, Key::State);
            assert(cs[at as int].consistent());
            lemma_update_wf(self@, at as int, c@);
        }
        self.replace(at, c);
        Ok(copy)
    }

    fn get_issuing(&self, id: &str) -> (r: Result<issuing::Model, Errors>) {
        self.find_issuing(Key::Id, id)
    }

    fn get_issuing_by_tx_code(&self, code: &str) -> (r: Result<issuing::Model, Errors>) {
        self.find_issuing(Key::TxCode, code)
    }

    fn get_issuing_by_token(&self, token: &str) -> (r: Result<issuing::Model, Errors>) {
        self.find_issuing(Key::Token, token)
    }

    fn get_all_issuings(&self, limit: Option<u64>, offset: Option<u64>) -> (r: Vec<issuing::Model>) {
        let ghost cs = self@.ceremonies;
        let mut rows: Vec<issuing::Model> = Vec::new();
        let mut i: usize = 0;
        assert(cs.take(0) =~= Seq::<CeremonyView>::empty());
        assert(rows@.map_values(|row: issuing::Model| row@) =~= issuing_rows(cs.take(0)));
        while i < self.ceremonies.len()
            invariant
                i <= self.ceremonies.len(),
                cs == self@.ceremonies,
                cs.len() == self.ceremonies.len(),
                rows@.map_values(|row: issuing::Model| row@) == issuing_rows(cs.take(i as int)),
            decreases self.ceremonies.len() - i,
        {
            assert(cs.take(i + 1).drop_last() == cs.take(i as int));
            assert(cs.take(i + 1).last() == self.ceremonies@[i as int]@);
            match &self.ceremonies[i].issuing {
                Some(row) => {
                    let ghost before = rows@;
                    let copy = row.duplicate();
                    rows.push(copy);
                    assert(rows@.map_values(|row: issuing::Model| row@) =~= before.map_values(
                        |row: issuing::Model| row@,
                    ).push(copy@));
                },
                None => {},
            }
            i = i + 1;
        }
        assert(cs.take(i as int) == cs);
        let limit = match limit {
            Some(n) => n,
            None => DEFAULT_LIMIT,
        };
        let offset = match offset {
            Some(n) => n,
            None => 0,
        };
        let ghost all = rows@;
        let page = take_window(rows, limit, offset);
        assert(page@.map_values(|row: issuing::Model| row@) =~= window(
            all.map_values(|row: issuing::Model| row@),
            limit as int,
            offset as int,
        ));
        page
    }

    fn update_issuing(&mut self, row: issuing::Model) -> (r: Result<issuing::Model, Errors>) {
        let at = self.locate(Key::Id, row.id.as_str());
        if at >= self.ceremonies.len() {
            return Err(Errors::database_new(Reason::NotFound, row.id.as_str()));
        }
        proof {
            lemma_first_match(self@.ceremonies, Key::Id, row@.id, 0);
        }
        if self.ceremonies[at].issuing.is_none() {
            return Err(Errors::database_new(Reason::NotFound, row.id.as_str()));
        }
        let unchanged = match &self.ceremonies[at].issuing {
            Some(stored) => stored.same(&row),
            None => false,
        };
        if self.ceremonies[at].is_closed() && !unchanged {
            return Err(Errors::forbidden_new(Reason::Sealed, row.id.as_str()));
        }
        if row.tx_code.as_str().unicode_len() == 0 || row.token.as_str().unicode_len() == 0 {
            return Err(Errors::database_new(Reason::EmptyKey, row.id.as_str()));
        }
        let taken = self.locate(Key::TxCode, row.tx_code.as_str());
        if taken < self.ceremonies.len() && taken != at {
            return Err(Errors::database_new(Reason::Conflict, row.tx_code.as_str()));
        }
        let taken = self.locate(Key::Token, row.token.as_str());
        if taken < self.ceremonies.len() && taken != at {
            return Err(Errors::database_new(Reason::Conflict, row.token.as_str()));
        }
        let copy = row.duplicate();
        let mut c = self.ceremonies[at].clone_parts();
        c.issuing = Some(row);
        proof {
            let cs = self@.ceremonies;
            lemma_no_other_match(cs, Key::TxCode, row@.tx_code, at as int);
            lemma_no_other_match(cs, Key::Token, row@.token, at as int);
            lemma_unchanged_key(cs, at as int, c@, Key::ContinueId);
            lemma_unchanged_key(cs, at as int, c@, Key::ContinueToken);
            lemma_unchanged_key(cs, at as int, c@, Key::State);
            assert(cs[at as int].consistent());
            lemma_update_wf(self@, at as int, c@);
        }
        self.replace(at, c);
        Ok(copy)
    }

    fn delete_issuing(&mut self, id: &str) -> (r: Result<(), Errors>) {
        let at = self.locate(Key::Id, id);
        if at >= self.ceremonies.len() {
            return Err(Errors::missing_resource_new(id));
        }
        proof {
            lemma_first_match(self@.ceremonies, Key::Id, id@, 0);
        }
        if self.ceremonies[at].issuing.is_none() {
            return Err(Errors::missing_resource_new(id));
        }
        if self.ceremonies[at].is_closed() {
            return Err(Errors::forbidden_new(Reason::Sealed, id));
        }
        let mut c = self.ceremonies[at].clone_parts();
        c.issuing = None;
        proof {
            let cs = self@.ceremonies;
            assert(cs[at as int].consistent());
            assert(others_differ(cs, at as int, c@, Key::ContinueId)) by {
                if c@.key(Key::ContinueId).is_some() {
                    lemma_unchanged_key(cs, at as int, c@, Key::ContinueId);
                }
            }
            assert(others_differ(cs, at as int, c@, Key::ContinueToken)) by {
                if c@.key(Key::ContinueToken).is_some() {
                    lemma_unchanged_key(cs, at as int, c@, Key::ContinueToken);
                }
            }
            assert(others_differ(cs, at as int, c@, Key::State)) by {
                if c@.key(Key::State).is_some() {
                    lemma_unchanged_key(cs, at as int, c@, Key::State);
                }
            }
            assert(others_differ(cs, at as int, c@, Key::TxCode)) by {
                if c@.key(Key::TxCode).is_some() {
                    lemma_unchanged_key(cs, at as int, c@, Key::TxCode);
                }
            }
            assert(others_differ(cs, at as int, c@, Key::Token)) by {
                if c@.key(Key::Token).is_some() {
                    lemma_unchanged_key(cs, at as int, c@, Key::Token);
                }
            }
            lemma_update_wf(self@, at as int, c@);
        }
        self.replace(at, c);
        Ok(())
    }

    fn create_minion(&mut self, new: minions::NewModel, at: Instant) -> (r: Result<
        minions::Model,
        Errors,
    >) {
        if self.locate_minion(new.participant_id.as_str()) < self.minions.len() {
            return Err(Errors::database_new(Reason::Conflict, new.participant_id.as_str()));
        }
        proof {
            lemma_first_minion(self@.minions, new@.participant_id, 0);
        }
        let row = minions::Model::from_new(new, at);
        let copy = row.duplicate();
        self.minions.push(row);
        assert(self@.minions =~= old(self)@.minions.push(copy@));
        assert(self@.ceremonies =~= old(self)@.ceremonies);
        Ok(copy)
    }

    fn get_minion(&self, id: &str) -> (r: Result<minions::Model, Errors>) {
        let at = self.locate_minion(id);
        if at < self.minions.len() {
            Ok(self.minions[at].duplicate())
        } else {
            Err(Errors::missing_resource_new(id))
        }
    }

    fn get_me(&self) -> (r: Result<minions::Model, Errors>) {
        let mut i: usize = 0;
        while i < self.minions.len()
            invariant
                i <= self.minions.len(),
                self@.minions.len() == self.minions.len(),
                first_me(self@.minions, 0) == first_me(self@.minions, i as int),
            decreases self.minions.len() - i,
        {
            if self.minions[i].is_me {
                return Ok(self.minions[i].duplicate());
            }
            i = i + 1;
        }
        Err(Errors::missing_resource_new("Myself"))
    }

    fn get_all_minions(&self, limit: Option<u64>, offset: Option<u64>) -> (r: Vec<
        minions::Model,
    >) {
        let mut rows: Vec<minions::Model> = Vec::new();
        let mut i: usize = 0;
        while i < self.minions.len()
            invariant
                i <= self.minions.len(),
                rows@.len() == i,
                forall|k: int| 0 <= k < i ==> (#[trigger] rows@[k])@ == self.minions@[k]@,
            decreases self.minions.len() - i,
        {
            rows.push(self.minions[i].duplicate());
            i = i + 1;
        }
        assert(rows@.map_values(|row: minions::Model| row@) =~= self@.minions);
        let limit = match limit {
            Some(n) => n,
            None => DEFAULT_LIMIT,
        };
        let offset = match offset {
            Some(n) => n,
            None => 0,
        };
        let page = take_window(rows, limit, offset);
        assert(page@.map_values(|row: minions::Model| row@) =~= window(
            self@.minions,
            limit as int,
            offset as int,
        ));
        page
    }

    fn update_minion(&mut self, row: minions::Model) -> (r: Result<minions::Model, Errors>) {
        let at = self.locate_minion(row.participant_id.as_str());
        if at >= self.minions.len() {
            return Err(Errors::database_new(Reason::NotFound, row.participant_id.as_str()));
        }
        proof {
            lemma_first_minion(self@.minions, row@.participant_id, 0);
        }
        let copy = row.duplicate();
        self.minions.remove(at);
        self.minions.insert(at, row);
        assert(self@.minions =~= old(self)@.minions.update(at as int, copy@));
        assert(self@.ceremonies =~= old(self)@.ceremonies);
        Ok(copy)
    }

    fn delete_minion(&mut self, id: &str) -> (r: Result<(), Errors>) {
        let at = self.locate_minion(id);
        if at >= self.minions.len() {
            return Err(Errors::missing_resource_new(id));
        }
        self.minions.remove(at);
        assert(self@.minions =~= old(self)@.minions.remove(at as int));
        assert(self@.ceremonies =~= old(self)@.ceremonies);
        proof {
            let before = old(self)@.minions;
            let after = self@.minions;
            assert forall|i: int, j: int|
                0 <= i < after.len() && 0 <= j < after.len() && i
                    != j implies (#[trigger] after[i]).participant_id
                != (#[trigger] after[j]).participant_id by {
                let a = if i < at {
                    i
                } else {
                    i + 1
                };
                let b = if j < at {
                    j
                } else {
                    j + 1
                };
                assert(before[a].participant_id != before[b].participant_id);
            }
        }
        Ok(())
    }

    fn force_create(&mut self, minion: minions::NewModel, at: Instant) -> (r: Result<
        minions::Model,
        Errors,
    >) {
        let found = self.locate_minion(minion.participant_id.as_str());
        proof {
            lemma_first_minion(self@.minions, minion@.participant_id, 0);
        }
        if found >= self.minions.len() {
            let row = minions::Model::from_new(minion, at);
            let copy = row.duplicate();
            self.minions.push(row);
            assert(self@.minions =~= old(self)@.minions.push(copy@));
            assert(self@.ceremonies =~= old(self)@.ceremonies);
            proof {
                lemma_first_minion_push(old(self)@.minions, copy@, 0);
            }
            return Ok(copy);
        }
        let mut row = self.minions[found].duplicate();
        row.base_url = minion.base_url;
        row.last_interaction = at;
        row.vc_uri = minion.vc_uri;
        row.participant_slug = minion.participant_slug;
        let copy = row.duplicate();
        self.minions.remove(found);
        self.minions.insert(found, row);
        assert(self@.minions =~= old(self)@.minions.update(found as int, copy@));
        assert(self@.ceremonies =~= old(self)@.ceremonies);
        proof {
            lemma_first_minion_update(old(self)@.minions, found as int, copy@, 0);
        }
        Ok(copy)
    }
}

impl Ceremony {
    /// A copy that holds the same values.
    pub fn clone_parts(&self) -> (r: Ceremony)
        ensures
            r@ == self@,
    {
        Ceremony {
            request: self.request.duplicate(),
            interaction: match &self.interaction {
                Some(row) => Some(row.duplicate()),
                None => None,
            },
            verification: match &self.verification {
                Some(row) => Some(row.duplicate()),
                None => None,
            },
            issuing: match &self.issuing {
                Some(row) => Some(row.duplicate()),
                None => None,
            },
        }
    }
}

} // verus!
