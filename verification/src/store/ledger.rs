//! The store of the authority: every ceremony with its request and, once
//! they exist, its interaction, verification and issuing, and the minions.
//!
//! A well-formed ledger keeps the invariants of the persistence contract: the
//! rows of a ceremony share its id, and no two ceremonies share an id, a
//! continuation id or token, a verification state, a transaction code or a
//! bearer token; no two minions share a participant id.
use vstd::prelude::*;
use vstd::string::*;
use crate::clock::Instant;
use crate::data::entities::{interaction, issuing, minions, request, verification};
use crate::data::entities::request::RequestStatus;
use crate::errors::{ErrorKind, Reason};

verus! {

/// The rows of one ceremony.
#[derive(Clone, Debug, PartialEq, Eq)]
pub struct Ceremony {
    pub request: request::Model,
    pub interaction: Option<interaction::Model>,
    pub verification: Option<verification::Model>,
    pub issuing: Option<issuing::Model>,
}

/// What the rows of one ceremony hold.
pub struct CeremonyView {
    pub request: request::ModelView,
    pub interaction: Option<interaction::ModelView>,
    pub verification: Option<verification::ModelView>,
    pub issuing: Option<issuing::ModelView>,
}

/// A column by which ceremonies are found.
#[derive(Clone, Copy, Debug, PartialEq, Eq, Structural)]
pub enum Key {
    /// The ceremony id.
    Id,
    /// The continuation id of the interaction.
    ContinueId,
    /// The continuation token of the interaction.
    ContinueToken,
    /// The interaction reference.
    Reference,
    /// The state of the verification.
    State,
    /// The transaction code of the issuing.
    TxCode,
    /// The bearer token of the issuing.
    Token,
}

impl View for Ceremony {
    type V = CeremonyView;

    open spec fn view(&self) -> CeremonyView {
        CeremonyView {
            request: self.request@,
            interaction: match self.interaction {
                Some(row) => Some(row@),
                None => None,
            },
            verification: match self.verification {
                Some(row) => Some(row@),
                None => None,
            },
            issuing: match self.issuing {
                Some(row) => Some(row@),
                None => None,
            },
        }
    }
}

impl CeremonyView {
    /// The value of a column, where the ceremony has the row that holds it.
    pub open spec fn key(self, key: Key) -> Option<Seq<char>> {
        match key {
            Key::Id => Some(self.request.id),
            Key::ContinueId => match self.interaction {
                Some(row) => Some(row.continue_id),
                None => None,
            },
            Key::ContinueToken => match self.interaction {
                Some(row) => Some(row.continue_token),
                None => None,
            },
            Key::Reference => match self.interaction {
                Some(row) => Some(row.interact_ref),
                None => None,
            },
            Key::State => match self.verification {
                Some(row) => Some(row.state),
                None => None,
            },
            Key::TxCode => match self.issuing {
                Some(row) => Some(row.tx_code),
                None => None,
            },
            Key::Token => match self.issuing {
                Some(row) => Some(row.token),
                None => None,
            },
        }
    }

    /// Every row of the ceremony carries the id of its request, and the
    /// secrets of its issuing are not empty.
    pub open spec fn consistent(self) -> bool {
        &&& self.interaction matches Some(row) ==> row.id == self.request.id
        &&& self.verification matches Some(row) ==> row.id == self.request.id
        &&& self.issuing matches Some(row) ==> row.id == self.request.id && row.tx_code.len() > 0
            && row.token.len() > 0
    }

    /// The ceremony is closed: its request is finalized or its credential is
    /// written. A closed ceremony is never changed again.
    pub open spec fn closed(self) -> bool {
        self.request.status == RequestStatus::Finalized || (self.issuing matches Some(row)
            && row.credential.is_some())
    }

    /// The ceremony has a row besides its request.
    pub open spec fn has_dependents(self) -> bool {
        self.interaction.is_some() || self.verification.is_some() || self.issuing.is_some()
    }
}

/// Position of the first ceremony at or after `from` whose column `key` holds
/// `value`; the number of ceremonies when there is none.
pub open spec fn first_match(cs: Seq<CeremonyView>, key: Key, value: Seq<char>, from: int) -> int
    decreases cs.len() - from,
{
    if from < 0 || from >= cs.len() {
        cs.len() as int
    } else if cs[from].key(key) == Some(value) {
        from
    } else {
        first_match(cs, key, value, from + 1)
    }
}

/// No two ceremonies hold the same value in the column `key`.
pub open spec fn no_duplicates(cs: Seq<CeremonyView>, key: Key) -> bool {
    forall|i: int, j: int|
        #![trigger cs[i].key(key), cs[j].key(key)]
        0 <= i < cs.len() && 0 <= j < cs.len() && i != j && cs[i].key(key).is_some() ==> cs[i].key(
            key,
        ) != cs[j].key(key)
}

/// Position of the first minion at or after `from` with the participant id
/// `id`; the number of minions when there is none.
pub open spec fn first_minion(ms: Seq<minions::ModelView>, id: Seq<char>, from: int) -> int
    decreases ms.len() - from,
{
    if from < 0 || from >= ms.len() {
        ms.len() as int
    } else if ms[from].participant_id == id {
        from
    } else {
        first_minion(ms, id, from + 1)
    }
}

/// Position of the first minion at or after `from` that stands for the
/// authority itself; the number of minions when there is none.
pub open spec fn first_me(ms: Seq<minions::ModelView>, from: int) -> int
    decreases ms.len() - from,
{
    if from < 0 || from >= ms.len() {
        ms.len() as int
    } else if ms[from].is_me {
        from
    } else {
        first_me(ms, from + 1)
    }
}

/// The rows `offset`, `offset + 1`, ... of `rows`, at most `limit` of them.
pub open spec fn window<T>(rows: Seq<T>, limit: int, offset: int) -> Seq<T> {
    let start = if offset < rows.len() {
        offset
    } else {
        rows.len() as int
    };
    let end = if start + limit < rows.len() {
        start + limit
    } else {
        rows.len() as int
    };
    rows.subrange(start, end)
}

/// The number of rows that a listing returns where no limit is given.
pub const DEFAULT_LIMIT: u64 = 100000;

/// What the store holds.
pub struct LedgerView {
    pub ceremonies: Seq<CeremonyView>,
    pub minions: Seq<minions::ModelView>,
}

impl LedgerView {
    /// The invariants of the store.
    pub open spec fn wf(self) -> bool {
        &&& forall|i: int| 0 <= i < self.ceremonies.len() ==> (#[trigger] self.ceremonies[i]).consistent()
        &&& no_duplicates(self.ceremonies, Key::Id)
        &&& no_duplicates(self.ceremonies, Key::ContinueId)
        &&& no_duplicates(self.ceremonies, Key::ContinueToken)
        &&& no_duplicates(self.ceremonies, Key::State)
        &&& no_duplicates(self.ceremonies, Key::TxCode)
        &&& no_duplicates(self.ceremonies, Key::Token)
        &&& forall|i: int, j: int|
            0 <= i < self.minions.len() && 0 <= j < self.minions.len() && i != j
                ==> (#[trigger] self.minions[i]).participant_id
                != (#[trigger] self.minions[j]).participant_id
    }

    /// The first ceremony whose column `key` holds `value`.
    pub open spec fn ceremony(self, key: Key, value: Seq<char>) -> Option<CeremonyView> {
        let i = first_match(self.ceremonies, key, value, 0);
        if i < self.ceremonies.len() {
            Some(self.ceremonies[i])
        } else {
            None
        }
    }

    /// The request of the ceremony `id`.
    pub open spec fn request(self, id: Seq<char>) -> Option<request::ModelView> {
        match self.ceremony(Key::Id, id) {
            Some(c) => Some(c.request),
            None => None,
        }
    }

    /// The interaction of the first ceremony whose column `key` holds `value`.
    pub open spec fn interaction(self, key: Key, value: Seq<char>) -> Option<
        interaction::ModelView,
    > {
        match self.ceremony(key, value) {
            Some(c) => c.interaction,
            None => None,
        }
    }

    /// The verification of the first ceremony whose column `key` holds `value`.
    pub open spec fn verification(self, key: Key, value: Seq<char>) -> Option<
        verification::ModelView,
    > {
        match self.ceremony(key, value) {
            Some(c) => c.verification,
            None => None,
        }
    }

    /// The issuing of the first ceremony whose column `key` holds `value`.
    pub open spec fn issuing(self, key: Key, value: Seq<char>) -> Option<issuing::ModelView> {
        match self.ceremony(key, value) {
            Some(c) => c.issuing,
            None => None,
        }
    }

    /// The minion with the participant id `id`.
    pub open spec fn minion(self, id: Seq<char>) -> Option<minions::ModelView> {
        let i = first_minion(self.minions, id, 0);
        if i < self.minions.len() {
            Some(self.minions[i])
        } else {
            None
        }
    }

    /// The minion that stands for the authority itself.
    pub open spec fn me(self) -> Option<minions::ModelView> {
        let i = first_me(self.minions, 0);
        if i < self.minions.len() {
            Some(self.minions[i])
        } else {
            None
        }
    }

    /// The requests, in the order in which they were stored.
    pub open spec fn requests(self) -> Seq<request::ModelView> {
        self.ceremonies.map_values(|c: CeremonyView| c.request)
    }

    /// The interactions, in the order of their ceremonies.
    pub open spec fn interactions(self) -> Seq<interaction::ModelView> {
        interaction_rows(self.ceremonies)
    }

    /// The verifications, in the order of their ceremonies.
    pub open spec fn verifications(self) -> Seq<verification::ModelView> {
        verification_rows(self.ceremonies)
    }

    /// The issuings, in the order of their ceremonies.
    pub open spec fn issuings(self) -> Seq<issuing::ModelView> {
        issuing_rows(self.ceremonies)
    }
}

/// The interactions of `cs`, in order.
pub open spec fn interaction_rows(cs: Seq<CeremonyView>) -> Seq<interaction::ModelView>
    decreases cs.len(),
{
    if cs.len() == 0 {
        Seq::empty()
    } else {
        match cs.last().interaction {
            Some(row) => interaction_rows(cs.drop_last()).push(row),
            None => interaction_rows(cs.drop_last()),
        }
    }
}

/// The verifications of `cs`, in order.
pub open spec fn verification_rows(cs: Seq<CeremonyView>) -> Seq<verification::ModelView>
    decreases cs.len(),
{
    if cs.len() == 0 {
        Seq::empty()
    } else {
        match cs.last().verification {
            Some(row) => verification_rows(cs.drop_last()).push(row),
            None => verification_rows(cs.drop_last()),
        }
    }
}

/// The issuings of `cs`, in order.
pub open spec fn issuing_rows(cs: Seq<CeremonyView>) -> Seq<issuing::ModelView>
    decreases cs.len(),
{
    if cs.len() == 0 {
        Seq::empty()
    } else {
        match cs.last().issuing {
            Some(row) => issuing_rows(cs.drop_last()).push(row),
            None => issuing_rows(cs.drop_last()),
        }
    }
}

impl CeremonyView {
    /// The ceremony with `row` as its interaction.
    pub open spec fn with_interaction(self, row: Option<interaction::ModelView>) -> CeremonyView {
        CeremonyView { interaction: row, ..self }
    }

    /// The ceremony with `row` as its verification.
    pub open spec fn with_verification(self, row: Option<verification::ModelView>) -> CeremonyView {
        CeremonyView { verification: row, ..self }
    }

    /// The ceremony with `row` as its issuing.
    pub open spec fn with_issuing(self, row: Option<issuing::ModelView>) -> CeremonyView {
        CeremonyView { issuing: row, ..self }
    }

}

impl LedgerView {
    /// Position of the ceremony `id`; the number of ceremonies when there is none.
    pub open spec fn position(self, id: Seq<char>) -> int {
        first_match(self.ceremonies, Key::Id, id, 0)
    }

    /// A ceremony other than that at `at` holds `value` in the column `key`.
    pub open spec fn taken_by_other(self, key: Key, value: Seq<char>, at: int) -> bool {
        let i = first_match(self.ceremonies, key, value, 0);
        i < self.ceremonies.len() && i != at
    }

    /// Why `row` cannot be stored as a new interaction, if it cannot: no
    /// request has its id (`Orphan`), the ceremony is closed (`Forbidden`,
    /// `Sealed`), it has an interaction already (`Conflict`), or another
    /// ceremony holds its `continue_id` or `continue_token` (`Conflict`).
    pub open spec fn create_interaction_verdict(self, row: interaction::ModelView) -> Option<
        (ErrorKind, Reason),
    > {
        let at = self.position(row.id);
        if at >= self.ceremonies.len() {
            Some((ErrorKind::Database, Reason::Orphan))
        } else if self.ceremonies[at].closed() {
            Some((ErrorKind::Forbidden, Reason::Sealed))
        } else if self.ceremonies[at].interaction.is_some() {
            Some((ErrorKind::Database, Reason::Conflict))
        } else if self.taken_by_other(Key::ContinueId, row.continue_id, at)
            || self.taken_by_other(Key::ContinueToken, row.continue_token, at) {
            Some((ErrorKind::Database, Reason::Conflict))
        } else {
            None
        }
    }

    /// Why `row` cannot take the place of the interaction with its id, if it
    /// cannot: no ceremony has such a row (`NotFound`), the ceremony is closed
    /// and `row` differs from the row it has (`Forbidden`, `Sealed`), or
    /// another ceremony holds its `continue_id` or `continue_token`
    /// (`Conflict`).
    pub open spec fn update_interaction_verdict(self, row: interaction::ModelView) -> Option<
        (ErrorKind, Reason),
    > {
        let at = self.position(row.id);
        if at >= self.ceremonies.len() || self.ceremonies[at].interaction.is_none() {
            Some((ErrorKind::Database, Reason::NotFound))
        } else if self.ceremonies[at].closed() && self.ceremonies[at].interaction.unwrap() != row {
            Some((ErrorKind::Forbidden, Reason::Sealed))
        } else if self.taken_by_other(Key::ContinueId, row.continue_id, at)
            || self.taken_by_other(Key::ContinueToken, row.continue_token, at) {
            Some((ErrorKind::Database, Reason::Conflict))
        } else {
            None
        }
    }

    /// The store with `row` as the interaction of the ceremony with its id.
    pub open spec fn put_interaction(self, row: interaction::ModelView) -> LedgerView {
        let at = self.position(row.id);
        LedgerView {
            ceremonies: self.ceremonies.update(at, self.ceremonies[at].with_interaction(Some(row))),
            minions: self.minions,
        }
    }

    /// The store without the interaction of the ceremony `id`.
    pub open spec fn drop_interaction(self, id: Seq<char>) -> LedgerView {
        let at = self.position(id);
        LedgerView {
            ceremonies: self.ceremonies.update(at, self.ceremonies[at].with_interaction(None)),
            minions: self.minions,
        }
    }

    /// Why `row` cannot be stored as a new verification, if it cannot: no
    /// request has its id (`Orphan`), the ceremony is closed (`Forbidden`,
    /// `Sealed`), it has a verification already (`Conflict`), or another
    /// ceremony holds its `state` (`Conflict`).
    pub open spec fn create_verification_verdict(self, row: verification::ModelView) -> Option<
        (ErrorKind, Reason),
    > {
        let at = self.position(row.id);
        if at >= self.ceremonies.len() {
            Some((ErrorKind::Database, Reason::Orphan))
        } else if self.ceremonies[at].closed() {
            Some((ErrorKind::Forbidden, Reason::Sealed))
        } else if self.ceremonies[at].verification.is_some() {
            Some((ErrorKind::Database, Reason::Conflict))
        } else if self.taken_by_other(Key::State, row.state, at) {
            Some((ErrorKind::Database, Reason::Conflict))
        } else {
            None
        }
    }

    /// Why `row` cannot take the place of the verification with its id, if it
    /// cannot: no ceremony has such a row (`NotFound`), the ceremony is closed
    /// and `row` differs from the row it has (`Forbidden`, `Sealed`), or
    /// another ceremony holds its `state` (`Conflict`).
    pub open spec fn update_verification_verdict(self, row: verification::ModelView) -> Option<
        (ErrorKind, Reason),
    > {
        let at = self.position(row.id);
        if at >= self.ceremonies.len() || self.ceremonies[at].verification.is_none() {
            Some((ErrorKind::Database, Reason::NotFound))
        } else if self.ceremonies[at].closed() && self.ceremonies[at].verification.unwrap() != row {
            Some((ErrorKind::Forbidden, Reason::Sealed))
        } else if self.taken_by_other(Key::State, row.state, at) {
            Some((ErrorKind::Database, Reason::Conflict))
        } else {
            None
        }
    }

    /// The store with `row` as the verification of the ceremony with its id.
    pub open spec fn put_verification(self, row: verification::ModelView) -> LedgerView {
        let at = self.position(row.id);
        LedgerView {
            ceremonies: self.ceremonies.update(at, self.ceremonies[at].with_verification(Some(row))),
            minions: self.minions,
        }
    }

    /// The store without the verification of the ceremony `id`.
    pub open spec fn drop_verification(self, id: Seq<char>) -> LedgerView {
        let at = self.position(id);
        LedgerView {
            ceremonies: self.ceremonies.update(at, self.ceremonies[at].with_verification(None)),
            minions: self.minions,
        }
    }

    /// Why `row` cannot be stored as a new issuing, if it cannot: no request
    /// has its id (`Orphan`), the ceremony is closed (`Forbidden`, `Sealed`),
    /// it has an issuing already (`Conflict`), `tx_code` or `token` is empty
    /// (`EmptyKey`), or another ceremony holds its `tx_code` or `token`
    /// (`Conflict`).
    pub open spec fn create_issuing_verdict(self, row: issuing::ModelView) -> Option<
        (ErrorKind, Reason),
    > {
        let at = self.position(row.id);
        if at >= self.ceremonies.len() {
            Some((ErrorKind::Database, Reason::Orphan))
        } else if self.ceremonies[at].closed() {
            Some((ErrorKind::Forbidden, Reason::Sealed))
        } else if self.ceremonies[at].issuing.is_some() {
            Some((ErrorKind::Database, Reason::Conflict))
        } else if row.tx_code.len() == 0 || row.token.len() == 0 {
            Some((ErrorKind::Database, Reason::EmptyKey))
        } else if self.taken_by_other(Key::TxCode, row.tx_code, at)
            || self.taken_by_other(Key::Token, row.token, at) {
            Some((ErrorKind::Database, Reason::Conflict))
        } else {
            None
        }
    }

    /// Why `row` cannot take the place of the issuing with its id, if it
    /// cannot: no ceremony has such a row (`NotFound`), the ceremony is closed
    /// and `row` differs from the row it has (`Forbidden`, `Sealed`),
    /// `tx_code` or `token` is empty (`EmptyKey`), or another ceremony holds
    /// its `tx_code` or `token` (`Conflict`).
    pub open spec fn update_issuing_verdict(self, row: issuing::ModelView) -> Option<
        (ErrorKind, Reason),
    > {
        let at = self.position(row.id);
        if at >= self.ceremonies.len() || self.ceremonies[at].issuing.is_none() {
            Some((ErrorKind::Database, Reason::NotFound))
        } else if self.ceremonies[at].closed() && self.ceremonies[at].issuing.unwrap() != row {
            Some((ErrorKind::Forbidden, Reason::Sealed))
        } else if row.tx_code.len() == 0 || row.token.len() == 0 {
            Some((ErrorKind::Database, Reason::EmptyKey))
        } else if self.taken_by_other(Key::TxCode, row.tx_code, at)
            || self.taken_by_other(Key::Token, row.token, at) {
            Some((ErrorKind::Database, Reason::Conflict))
        } else {
            None
        }
    }

    /// The store with `row` as the issuing of the ceremony with its id.
    pub open spec fn put_issuing(self, row: issuing::ModelView) -> LedgerView {
        let at = self.position(row.id);
        LedgerView {
            ceremonies: self.ceremonies.update(at, self.ceremonies[at].with_issuing(Some(row))),
            minions: self.minions,
        }
    }

    /// The store without the issuing of the ceremony `id`.
    pub open spec fn drop_issuing(self, id: Seq<char>) -> LedgerView {
        let at = self.position(id);
        LedgerView {
            ceremonies: self.ceremonies.update(at, self.ceremonies[at].with_issuing(None)),
            minions: self.minions,
        }
    }

}

/// A minion after a credential was issued again to the same holder: base
/// URL, issuing URI and name are the new ones, the time is that of the
/// writing, and the rest is kept.
pub open spec fn upserted(stored: minions::ModelView, new: minions::NewModelView, at: Instant)
    -> minions::ModelView {
    minions::ModelView {
        base_url: new.base_url,
        last_interaction: at,
        vc_uri: new.vc_uri,
        participant_slug: new.participant_slug,
        ..stored
    }
}

/// What `first_minion` returns lies at or after `from`, has the id where it
/// is a position, and no minion between has it.
pub proof fn lemma_first_minion(ms: Seq<minions::ModelView>, id: Seq<char>, from: int)
    requires
        0 <= from <= ms.len(),
    ensures
        from <= first_minion(ms, id, from) <= ms.len(),
        first_minion(ms, id, from) < ms.len() ==> ms[first_minion(ms, id, from)].participant_id
            == id,
        forall|j: int|
            from <= j < first_minion(ms, id, from) ==> (#[trigger] ms[j]).participant_id != id,
    decreases ms.len() - from,
{
    if from < ms.len() && ms[from].participant_id != id {
        lemma_first_minion(ms, id, from + 1);
    }
}

/// What `first_match` returns lies at or after `from`, holds `value` where it
/// is a position, and no position between holds `value`.
pub proof fn lemma_first_match(cs: Seq<CeremonyView>, key: Key, value: Seq<char>, from: int)
    requires
        0 <= from <= cs.len(),
    ensures
        from <= first_match(cs, key, value, from) <= cs.len(),
        first_match(cs, key, value, from) < cs.len() ==> cs[first_match(cs, key, value, from)].key(
            key,
        ) == Some(value),
        forall|j: int|
            from <= j < first_match(cs, key, value, from) ==> (#[trigger] cs[j]).key(key) != Some(
                value,
            ),
    decreases cs.len() - from,
{
    if from < cs.len() && cs[from].key(key) != Some(value) {
        lemma_first_match(cs, key, value, from + 1);
    }
}

/// Where no two ceremonies share a value of `key` and the first match of
/// `value` is `at` or nothing, no ceremony but that at `at` holds `value`.
pub proof fn lemma_no_other_match(cs: Seq<CeremonyView>, key: Key, value: Seq<char>, at: int)
    requires
        no_duplicates(cs, key),
        first_match(cs, key, value, 0) == cs.len() || first_match(cs, key, value, 0) == at,
    ensures
        forall|j: int| 0 <= j < cs.len() && j != at ==> (#[trigger] cs[j]).key(key) != Some(value),
{
    lemma_first_match(cs, key, value, 0);
    let found = first_match(cs, key, value, 0);
    assert forall|j: int| 0 <= j < cs.len() && j != at implies (#[trigger] cs[j]).key(key) != Some(
        value,
    ) by {
        if cs[j].key(key) == Some(value) {
            assert(found < cs.len());
            assert(cs[found].key(key) == Some(value));
            assert(cs[found].key(key) == cs[j].key(key));
        }
    }
}

/// Where no two ceremonies share a value of `key`, the ceremony that holds
/// `value` is the one that a lookup finds.
pub proof fn lemma_unique_match(cs: Seq<CeremonyView>, key: Key, value: Seq<char>, at: int)
    requires
        no_duplicates(cs, key),
        0 <= at < cs.len(),
        cs[at].key(key) == Some(value),
    ensures
        first_match(cs, key, value, 0) == at,
{
    lemma_first_match(cs, key, value, 0);
    let found = first_match(cs, key, value, 0);
    if found != at {
        assert(cs[found].key(key) == cs[at].key(key));
    }
}

/// A lookup in a store with one more ceremony finds what it found before, or
/// the new ceremony where it found nothing and the new ceremony matches.
pub proof fn lemma_first_match_push(cs: Seq<CeremonyView>, c: CeremonyView, key: Key, value: Seq<char>)
    ensures
        first_match(cs.push(c), key, value, 0) == if first_match(cs, key, value, 0) < cs.len() {
            first_match(cs, key, value, 0)
        } else if c.key(key) == Some(value) {
            cs.len() as int
        } else {
            (cs.len() + 1) as int
        },
{
    lemma_first_match_push_from(cs, c, key, value, 0);
}

/// The same, for a lookup that starts at `from`.
pub proof fn lemma_first_match_push_from(
    cs: Seq<CeremonyView>,
    c: CeremonyView,
    key: Key,
    value: Seq<char>,
    from: int,
)
    requires
        0 <= from <= cs.len(),
    ensures
        first_match(cs.push(c), key, value, from) == if first_match(cs, key, value, from)
            < cs.len() {
            first_match(cs, key, value, from)
        } else if c.key(key) == Some(value) {
            cs.len() as int
        } else {
            (cs.len() + 1) as int
        },
    decreases cs.len() - from,
{
    let next = cs.push(c);
    if from < cs.len() {
        assert(next[from] == cs[from]);
        if cs[from].key(key) != Some(value) {
            lemma_first_match_push_from(cs, c, key, value, from + 1);
        }
    } else {
        assert(next[from] == c);
        assert(first_match(next, key, value, from + 1) == next.len());
        assert(first_match(cs, key, value, from) == cs.len());
    }
}

/// A lookup by a column finds the same place after a ceremony was replaced by
/// one that holds the same value in that column.
pub proof fn lemma_first_match_update(
    cs: Seq<CeremonyView>,
    at: int,
    c: CeremonyView,
    key: Key,
    value: Seq<char>,
    from: int,
)
    requires
        0 <= at < cs.len(),
        0 <= from <= cs.len(),
        c.key(key) == cs[at].key(key),
    ensures
        first_match(cs.update(at, c), key, value, from) == first_match(cs, key, value, from),
    decreases cs.len() - from,
{
    let next = cs.update(at, c);
    if from < cs.len() {
        assert(next[from].key(key) == cs[from].key(key));
        if cs[from].key(key) != Some(value) {
            lemma_first_match_update(cs, at, c, key, value, from + 1);
        }
    }
}

/// Where the first ceremony that holds `value` in a column is replaced by one
/// that holds it too, a lookup still finds that place.
pub proof fn lemma_first_match_update_to(
    cs: Seq<CeremonyView>,
    at: int,
    c: CeremonyView,
    key: Key,
    value: Seq<char>,
)
    requires
        0 <= at < cs.len(),
        first_match(cs, key, value, 0) == at,
        c.key(key) == Some(value),
    ensures
        first_match(cs.update(at, c), key, value, 0) == at,
{
    lemma_first_match(cs, key, value, 0);
    lemma_first_match_update_from(cs, at, c, key, value, 0);
}

/// The same, for a lookup that starts at `from`.
pub proof fn lemma_first_match_update_from(
    cs: Seq<CeremonyView>,
    at: int,
    c: CeremonyView,
    key: Key,
    value: Seq<char>,
    from: int,
)
    requires
        0 <= from <= at < cs.len(),
        forall|j: int| from <= j < at ==> (#[trigger] cs[j]).key(key) != Some(value),
        c.key(key) == Some(value),
    ensures
        first_match(cs.update(at, c), key, value, from) == at,
    decreases at - from,
{
    let next = cs.update(at, c);
    if from < at {
        assert(next[from] == cs[from]);
        lemma_first_match_update_from(cs, at, c, key, value, from + 1);
    } else {
        assert(next[from] == c);
    }
}

/// A minion that was added where none had its id is the one that a lookup
/// by its id finds.
pub proof fn lemma_first_minion_push(ms: Seq<minions::ModelView>, row: minions::ModelView, from: int)
    requires
        0 <= from <= ms.len(),
        first_minion(ms, row.participant_id, from) == ms.len(),
    ensures
        first_minion(ms.push(row), row.participant_id, from) == ms.len(),
    decreases ms.len() - from,
{
    let next = ms.push(row);
    if from < ms.len() {
        assert(next[from] == ms[from]);
        lemma_first_minion_push(ms, row, from + 1);
    } else {
        assert(next[from] == row);
    }
}

/// A minion that took the place of the one with its id is the one that a
/// lookup by its id finds.
pub proof fn lemma_first_minion_update(
    ms: Seq<minions::ModelView>,
    at: int,
    row: minions::ModelView,
    from: int,
)
    requires
        0 <= from <= at < ms.len(),
        first_minion(ms, row.participant_id, from) == at,
    ensures
        first_minion(ms.update(at, row), row.participant_id, from) == at,
    decreases ms.len() - from,
{
    let next = ms.update(at, row);
    if from < at {
        assert(next[from] == ms[from]);
        lemma_first_minion_update(ms, at, row, from + 1);
    } else {
        assert(next[from] == row);
    }
}

/// The columns of a ceremony that must not collide with those of another.
pub open spec fn others_differ(cs: Seq<CeremonyView>, at: int, c: CeremonyView, key: Key) -> bool {
    c.key(key).is_some() ==> forall|j: int|
        0 <= j < cs.len() && j != at ==> (#[trigger] cs[j]).key(key) != c.key(key)
}

/// A column that keeps its value collides with no other ceremony.
pub proof fn lemma_unchanged_key(cs: Seq<CeremonyView>, at: int, c: CeremonyView, key: Key)
    requires
        no_duplicates(cs, key),
        0 <= at < cs.len(),
        c.key(key) == cs[at].key(key),
    ensures
        others_differ(cs, at, c, key),
{
    if c.key(key).is_some() {
        assert forall|j: int| 0 <= j < cs.len() && j != at implies (#[trigger] cs[j]).key(key)
            != c.key(key) by {
            assert(cs[at].key(key) != cs[j].key(key));
        }
    }
}

/// Replacing a ceremony keeps a column free of duplicates where the new value
/// collides with no other ceremony.
pub proof fn lemma_update_no_duplicates(cs: Seq<CeremonyView>, at: int, c: CeremonyView, key: Key)
    requires
        no_duplicates(cs, key),
        0 <= at < cs.len(),
        others_differ(cs, at, c, key),
    ensures
        no_duplicates(cs.update(at, c), key),
{
    let next = cs.update(at, c);
    assert forall|i: int, j: int|
        #![trigger next[i].key(key), next[j].key(key)]
        0 <= i < next.len() && 0 <= j < next.len() && i != j && next[i].key(key).is_some()
            implies next[i].key(key) != next[j].key(key) by {
        if i == at {
            assert(cs[j].key(key) != c.key(key));
        } else if j == at {
            if c.key(key).is_some() {
                assert(cs[i].key(key) != c.key(key));
            }
        } else {
            assert(cs[i].key(key) != cs[j].key(key));
        }
    }
}

/// Replacing a ceremony by a consistent one with the same id, whose columns
/// collide with no other ceremony, keeps the store well-formed.
pub proof fn lemma_update_wf(l: LedgerView, at: int, c: CeremonyView)
    requires
        l.wf(),
        0 <= at < l.ceremonies.len(),
        c.consistent(),
        c.request.id == l.ceremonies[at].request.id,
        others_differ(l.ceremonies, at, c, Key::ContinueId),
        others_differ(l.ceremonies, at, c, Key::ContinueToken),
        others_differ(l.ceremonies, at, c, Key::State),
        others_differ(l.ceremonies, at, c, Key::TxCode),
        others_differ(l.ceremonies, at, c, Key::Token),
    ensures
        (LedgerView { ceremonies: l.ceremonies.update(at, c), minions: l.minions }).wf(),
{
    let cs = l.ceremonies;
    lemma_unchanged_key(cs, at, c, Key::Id);
    lemma_update_no_duplicates(cs, at, c, Key::Id);
    lemma_update_no_duplicates(cs, at, c, Key::ContinueId);
    lemma_update_no_duplicates(cs, at, c, Key::ContinueToken);
    lemma_update_no_duplicates(cs, at, c, Key::State);
    lemma_update_no_duplicates(cs, at, c, Key::TxCode);
    lemma_update_no_duplicates(cs, at, c, Key::Token);
    let next = cs.update(at, c);
    assert forall|i: int| 0 <= i < next.len() implies (#[trigger] next[i]).consistent() by {
        if i != at {
            assert(cs[i].consistent());
        }
    }
}

/// Adding a ceremony that has only a request, under an id that no ceremony
/// has, keeps the store well-formed.
pub proof fn lemma_push_wf(l: LedgerView, c: CeremonyView)
    requires
        l.wf(),
        !c.has_dependents(),
        first_match(l.ceremonies, Key::Id, c.request.id, 0) == l.ceremonies.len(),
    ensures
        (LedgerView { ceremonies: l.ceremonies.push(c), minions: l.minions }).wf(),
{
    let cs = l.ceremonies;
    let next = cs.push(c);
    lemma_first_match(cs, Key::Id, c.request.id, 0);
    assert forall|i: int| 0 <= i < next.len() implies (#[trigger] next[i]).consistent() by {
        if i < cs.len() {
            assert(cs[i].consistent());
        }
    }
    lemma_push_no_duplicates(cs, c, Key::Id);
    lemma_push_no_duplicates(cs, c, Key::ContinueId);
    lemma_push_no_duplicates(cs, c, Key::ContinueToken);
    lemma_push_no_duplicates(cs, c, Key::State);
    lemma_push_no_duplicates(cs, c, Key::TxCode);
    lemma_push_no_duplicates(cs, c, Key::Token);
}

/// Adding a ceremony keeps a column free of duplicates where no ceremony
/// holds the value that the new one has in it.
pub proof fn lemma_push_no_duplicates(cs: Seq<CeremonyView>, c: CeremonyView, key: Key)
    requires
        no_duplicates(cs, key),
        c.key(key).is_some() ==> forall|j: int|
            0 <= j < cs.len() ==> (#[trigger] cs[j]).key(key) != c.key(key),
    ensures
        no_duplicates(cs.push(c), key),
{
    let next = cs.push(c);
    assert forall|i: int, j: int|
        #![trigger next[i].key(key), next[j].key(key)]
        0 <= i < next.len() && 0 <= j < next.len() && i != j && next[i].key(key).is_some()
            implies next[i].key(key) != next[j].key(key) by {
        if i == cs.len() {
            assert(cs[j].key(key) != c.key(key));
        } else if j == cs.len() {
            if c.key(key).is_some() {
                assert(cs[i].key(key) != c.key(key));
            }
        } else {
            assert(cs[i].key(key) != cs[j].key(key));
        }
    }
}

/// Removing a ceremony keeps the store well-formed.
pub proof fn lemma_remove_wf(l: LedgerView, at: int)
    requires
        l.wf(),
        0 <= at < l.ceremonies.len(),
    ensures
        (LedgerView { ceremonies: l.ceremonies.remove(at), minions: l.minions }).wf(),
{
    let cs = l.ceremonies;
    let next = cs.remove(at);
    assert forall|i: int| 0 <= i < next.len() implies (#[trigger] next[i]).consistent() by {
        let source = if i < at {
            i
        } else {
            i + 1
        };
        assert(cs[source].consistent());
    }
    lemma_remove_no_duplicates(cs, at, Key::Id);
    lemma_remove_no_duplicates(cs, at, Key::ContinueId);
    lemma_remove_no_duplicates(cs, at, Key::ContinueToken);
    lemma_remove_no_duplicates(cs, at, Key::State);
    lemma_remove_no_duplicates(cs, at, Key::TxCode);
    lemma_remove_no_duplicates(cs, at, Key::Token);
}

/// Removing a ceremony keeps a column free of duplicates.
pub proof fn lemma_remove_no_duplicates(cs: Seq<CeremonyView>, at: int, key: Key)
    requires
        no_duplicates(cs, key),
        0 <= at < cs.len(),
    ensures
        no_duplicates(cs.remove(at), key),
{
    let next = cs.remove(at);
    assert forall|i: int, j: int|
        #![trigger next[i].key(key), next[j].key(key)]
        0 <= i < next.len() && 0 <= j < next.len() && i != j && next[i].key(key).is_some()
            implies next[i].key(key) != next[j].key(key) by {
        let a = if i < at {
            i
        } else {
            i + 1
        };
        let b = if j < at {
            j
        } else {
            j + 1
        };
        assert(cs[a].key(key) != cs[b].key(key));
    }
}

} // verus!
