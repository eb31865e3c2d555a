//! The boundary to the session store. The store keeps a session as a flat
//! bag of values by key. The record is read from it before a handler runs,
//! and what the handler changed is written back after it: [`changes`] says
//! what to write. A value that cannot be read or written fails the request
//! like any other failure.

use crate::error::given;
use crate::error::ErrorKind;
use crate::error::FailureModel;
use crate::reply::reject;
use crate::reply::Step;
use crate::session::field_key;
use crate::session::text;
use crate::session::Field;
use crate::session::SessionModel;
use crate::session::SessionRecord;
use crate::settings::MainConfiguration;
use vstd::prelude::*;

verus! {

/// A value as the store keeps it: a text, or a time in seconds since the
/// Unix epoch.
#[derive(Debug, Clone, PartialEq, Eq)]
pub enum Stored {
    Text(String),
    Time(i64),
}

/// A stored value as a mathematical value.
pub ghost enum StoredModel {
    Text(Seq<char>),
    Time(int),
}

impl View for Stored {
    type V = StoredModel;

    open spec fn view(&self) -> StoredModel {
        match self {
            Stored::Text(t) => StoredModel::Text(t@),
            Stored::Time(t) => StoredModel::Time(*t as int),
        }
    }
}

/// One change to a stored session.
#[derive(Debug, Clone, PartialEq, Eq)]
pub enum Change {
    /// Destroy the session.
    Purge,
    /// Store the value under the field's key.
    Insert(Field, Stored),
    /// Remove the field's key.
    Remove(Field),
}

/// A change as a mathematical value.
pub ghost enum ChangeModel {
    Purge,
    Insert(Field, StoredModel),
    Remove(Field),
}

impl View for Change {
    type V = ChangeModel;

    open spec fn view(&self) -> ChangeModel {
        match self {
            Change::Purge => ChangeModel::Purge,
            Change::Insert(field, value) => ChangeModel::Insert(*field, value@),
            Change::Remove(field) => ChangeModel::Remove(*field),
        }
    }
}

/// A text as a stored value.
pub open spec fn stored_text(value: Option<Seq<char>>) -> Option<StoredModel> {
    match value {
        Some(t) => Some(StoredModel::Text(t)),
        None => None,
    }
}

/// A time as a stored value.
pub open spec fn stored_time(value: Option<int>) -> Option<StoredModel> {
    match value {
        Some(t) => Some(StoredModel::Time(t)),
        None => None,
    }
}

/// What the store keeps of a session under the key of `field`.
pub open spec fn stored(session: SessionModel, field: Field) -> Option<StoredModel> {
    match field {
        Field::PkceVerifier => stored_text(session.pkce_verifier),
        Field::State => stored_text(session.state),
        Field::Nonce => stored_text(session.nonce),
        Field::AccessToken => stored_text(session.access_token),
        Field::RefreshToken => stored_text(session.refresh_token),
        Field::IdToken => stored_text(session.id_token),
        Field::TokenExpiry => stored_time(session.token_expiry),
        Field::Username => stored_text(session.username),
        Field::UserId => stored_text(session.user_id),
    }
}

/// A session as the store keeps it: its values by field.
pub open spec fn entries(session: SessionModel) -> Map<Field, StoredModel> {
    Map::new(
        |field: Field| stored(session, field) is Some,
        |field: Field| stored(session, field)->0,
    )
}

/// The change, if any, that takes what is stored under one key from `before`
/// to `after`.
pub open spec fn difference(
    field: Field,
    before: Option<StoredModel>,
    after: Option<StoredModel>,
) -> Seq<ChangeModel> {
    if before == after {
        seq![]
    } else {
        match after {
            Some(value) => seq![ChangeModel::Insert(field, value)],
            None => seq![ChangeModel::Remove(field)],
        }
    }
}

/// The change, if any, that takes what is stored of one field from the
/// session `before` to the session `after`.
pub open spec fn field_difference(
    before: SessionModel,
    after: SessionModel,
    field: Field,
) -> Seq<ChangeModel> {
    difference(field, stored(before, field), stored(after, field))
}

/// The changes that take a stored session from `before` to `after`: nothing
/// where both are empty; a purge where only `after` is; otherwise, field by
/// field, a change for each value that differs and none for one that does
/// not.
pub open spec fn differences(before: SessionModel, after: SessionModel) -> Seq<ChangeModel> {
    if after.is_empty() {
        if before.is_empty() {
            seq![]
        } else {
            seq![ChangeModel::Purge]
        }
    } else {
        field_difference(before, after, Field::PkceVerifier) + field_difference(
            before,
            after,
            Field::State,
        ) + field_difference(before, after, Field::Nonce) + field_difference(
            before,
            after,
            Field::AccessToken,
        ) + field_difference(before, after, Field::RefreshToken) + field_difference(
            before,
            after,
            Field::IdToken,
        ) + field_difference(before, after, Field::TokenExpiry) + field_difference(
            before,
            after,
            Field::Username,
        ) + field_difference(before, after, Field::UserId)
    }
}

/// The changes of a plan as mathematical values.
pub open spec fn views(plan: Seq<Change>) -> Seq<ChangeModel> {
    plan.map_values(|change: Change| change@)
}

/// A store after one change.
pub open spec fn changed(store: Map<Field, StoredModel>, change: ChangeModel) -> Map<
    Field,
    StoredModel,
> {
    match change {
        ChangeModel::Purge => Map::empty(),
        ChangeModel::Insert(field, value) => store.insert(field, value),
        ChangeModel::Remove(field) => store.remove(field),
    }
}

/// A store after a sequence of changes, made in order.
pub open spec fn applied(store: Map<Field, StoredModel>, plan: Seq<ChangeModel>) -> Map<
    Field,
    StoredModel,
>
    decreases plan.len(),
{
    if plan.len() == 0 {
        store
    } else {
        changed(applied(store, plan.drop_last()), plan.last())
    }
}

/// Adds to `plan` the change, if any, that takes the text under the key of
/// `field` from `before` to `after`.
fn text_change(
    plan: &mut Vec<Change>,
    field: Field,
    before: &Option<String>,
    after: &Option<String>,
)
    ensures
        views(final(plan)@) == views(old(plan)@) + difference(
            field,
            stored_text(text(*before)),
            stored_text(text(*after)),
        ),
{
    match after {
        Some(value) => {
            let same = match before {
                Some(old_value) => *old_value == *value,
                None => false,
            };
            if !same {
                plan.push(Change::Insert(field, Stored::Text(value.clone())));
            }
        },
        None => {
            if before.is_some() {
                plan.push(Change::Remove(field));
            }
        },
    }
}

/// Adds to `plan` the change, if any, that takes the time under the key of
/// `field` from `before` to `after`.
fn time_change(plan: &mut Vec<Change>, field: Field, before: Option<i64>, after: Option<i64>)
    ensures
        views(final(plan)@) == views(old(plan)@) + difference(
            field,
            stored_time(
                match before {
                    Some(t) => Some(t as int),
                    None => None,
                },
            ),
            stored_time(
                match after {
                    Some(t) => Some(t as int),
                    None => None,
                },
            ),
        ),
{
    match after {
        Some(value) => {
            let same = match before {
                Some(old_value) => old_value == value,
                None => false,
            };
            if !same {
                plan.push(Change::Insert(field, Stored::Time(value)));
            }
        },
        None => {
            if before.is_some() {
                plan.push(Change::Remove(field));
            }
        },
    }
}

/// What to write to the store after a handler has run: the changes that
/// take the stored session from the record that was read, `before`, to the
/// record that the handler left, `after`. A session that was not changed is
/// not written at all.
pub fn changes(before: &SessionRecord, after: &SessionRecord) -> (plan: Vec<Change>)
    ensures
        views(plan@) == differences(before@, after@),
{
    let mut plan: Vec<Change> = Vec::new();
    if after.is_empty() {
        if !before.is_empty() {
            plan.push(Change::Purge);
        }
        return plan;
    }
    text_change(&mut plan, Field::PkceVerifier, &before.pkce_verifier, &after.pkce_verifier);
    text_change(&mut plan, Field::State, &before.state, &after.state);
    text_change(&mut plan, Field::Nonce, &before.nonce, &after.nonce);
    text_change(&mut plan, Field::AccessToken, &before.access_token, &after.access_token);
    text_change(&mut plan, Field::RefreshToken, &before.refresh_token, &after.refresh_token);
    text_change(&mut plan, Field::IdToken, &before.id_token, &after.id_token);
    time_change(&mut plan, Field::TokenExpiry, before.token_expiry, after.token_expiry);
    text_change(&mut plan, Field::Username, &before.username, &after.username);
    text_change(&mut plan, Field::UserId, &before.user_id, &after.user_id);
    plan
}

/// What a store keeps under the key of `field`, if anything.
pub open spec fn kept(store: Map<Field, StoredModel>, field: Field) -> Option<StoredModel> {
    if store.dom().contains(field) {
        Some(store[field])
    } else {
        None
    }
}

/// A store in which the key of `field` holds `value`, or is missing.
pub open spec fn with_field(
    store: Map<Field, StoredModel>,
    field: Field,
    value: Option<StoredModel>,
) -> Map<Field, StoredModel> {
    match value {
        Some(v) => store.insert(field, v),
        None => store.remove(field),
    }
}

/// Changes made one plan after another are the changes of both plans in
/// one.
pub proof fn lemma_applied_in_turn(
    store: Map<Field, StoredModel>,
    first: Seq<ChangeModel>,
    second: Seq<ChangeModel>,
)
    ensures
        applied(store, first + second) == applied(applied(store, first), second),
    decreases second.len(),
{
    if second.len() == 0 {
        assert(first + second =~= first);
    } else {
        assert((first + second).drop_last() =~= first + second.drop_last());
        assert((first + second).last() == second.last());
        lemma_applied_in_turn(store, first, second.drop_last());
    }
}

/// The change for one field sets what the store keeps under its key, and
/// nothing else.
pub proof fn lemma_applied_difference(
    store: Map<Field, StoredModel>,
    field: Field,
    after: Option<StoredModel>,
)
    ensures
        applied(store, difference(field, kept(store, field), after)) =~= with_field(
            store,
            field,
            after,
        ),
{
    let plan = difference(field, kept(store, field), after);
    if plan.len() > 0 {
        assert(plan.drop_last() =~= Seq::<ChangeModel>::empty());
        assert(applied(store, plan.drop_last()) == store);
    }
}

/// The session `session` with the value of one field taken from `other`.
pub open spec fn with_field_of(
    session: SessionModel,
    other: SessionModel,
    field: Field,
) -> SessionModel {
    match field {
        Field::PkceVerifier => SessionModel { pkce_verifier: other.pkce_verifier, ..session },
        Field::State => SessionModel { state: other.state, ..session },
        Field::Nonce => SessionModel { nonce: other.nonce, ..session },
        Field::AccessToken => SessionModel { access_token: other.access_token, ..session },
        Field::RefreshToken => SessionModel { refresh_token: other.refresh_token, ..session },
        Field::IdToken => SessionModel { id_token: other.id_token, ..session },
        Field::TokenExpiry => SessionModel { token_expiry: other.token_expiry, ..session },
        Field::Username => SessionModel { username: other.username, ..session },
        Field::UserId => SessionModel { user_id: other.user_id, ..session },
    }
}

/// The change for one field takes the store from what it keeps of a session
/// to what it keeps of the session with that field changed.
pub proof fn lemma_difference_changes_one_field(
    session: SessionModel,
    other: SessionModel,
    field: Field,
)
    ensures
        applied(
            entries(session),
            difference(field, stored(session, field), stored(other, field)),
        ) == entries(with_field_of(session, other, field)),
{
    let store = entries(session);
    assert(kept(store, field) == stored(session, field));
    lemma_applied_difference(store, field, stored(other, field));
    assert(with_field(store, field, stored(other, field)) =~= entries(
        with_field_of(session, other, field),
    )) by {
        let target = entries(with_field_of(session, other, field));
        let updated = with_field(store, field, stored(other, field));
        assert forall|f: Field| updated.dom().contains(f) == target.dom().contains(f) by {
            assert(f != field ==> stored(with_field_of(session, other, field), f) == stored(
                session,
                f,
            ));
        }
        assert forall|f: Field| updated.dom().contains(f) implies updated[f] == target[f] by {
            assert(f != field ==> stored(with_field_of(session, other, field), f) == stored(
                session,
                f,
            ));
        }
    }
}

/// One more field of a plan: the changes so far, then the change for
/// `field`.
proof fn lemma_next_field(
    before: SessionModel,
    so_far: Seq<ChangeModel>,
    reached: SessionModel,
    after: SessionModel,
    field: Field,
)
    requires
        applied(entries(before), so_far) == entries(reached),
        stored(reached, field) == stored(before, field),
    ensures
        applied(entries(before), so_far + field_difference(before, after, field)) == entries(
            with_field_of(reached, after, field),
        ),
{
    lemma_applied_in_turn(entries(before), so_far, field_difference(before, after, field));
    lemma_difference_changes_one_field(reached, after, field);
}

/// The changes that [`changes`] plans take the store from what it keeps of
/// the record that was read to what it keeps of the record that the handler
/// left.
pub proof fn lemma_changes_reach_the_record(before: SessionModel, after: SessionModel)
    ensures
        applied(entries(before), differences(before, after)) == entries(after),
{
    let s0 = entries(before);
    if after.is_empty() {
        if before.is_empty() {
            assert(differences(before, after).len() == 0);
        } else {
            let plan = differences(before, after);
            assert(plan.drop_last() =~= Seq::<ChangeModel>::empty());
            assert(applied(s0, plan.drop_last()) == s0);
            assert(applied(s0, plan) =~= entries(after));
        }
    } else {
        let d1 = field_difference(before, after, Field::PkceVerifier);
        let d2 = field_difference(before, after, Field::State);
        let d3 = field_difference(before, after, Field::Nonce);
        let d4 = field_difference(before, after, Field::AccessToken);
        let d5 = field_difference(before, after, Field::RefreshToken);
        let d6 = field_difference(before, after, Field::IdToken);
        let d7 = field_difference(before, after, Field::TokenExpiry);
        let d8 = field_difference(before, after, Field::Username);
        let m1 = with_field_of(before, after, Field::PkceVerifier);
        let m2 = with_field_of(m1, after, Field::State);
        let m3 = with_field_of(m2, after, Field::Nonce);
        let m4 = with_field_of(m3, after, Field::AccessToken);
        let m5 = with_field_of(m4, after, Field::RefreshToken);
        let m6 = with_field_of(m5, after, Field::IdToken);
        let m7 = with_field_of(m6, after, Field::TokenExpiry);
        let m8 = with_field_of(m7, after, Field::Username);
        let m9 = with_field_of(m8, after, Field::UserId);
        let none = Seq::<ChangeModel>::empty();
        assert(applied(s0, none) == s0);
        assert(none + d1 =~= d1);
        lemma_next_field(before, none, before, after, Field::PkceVerifier);
        lemma_next_field(before, d1, m1, after, Field::State);
        lemma_next_field(before, d1 + d2, m2, after, Field::Nonce);
        lemma_next_field(before, d1 + d2 + d3, m3, after, Field::AccessToken);
        lemma_next_field(before, d1 + d2 + d3 + d4, m4, after, Field::RefreshToken);
        lemma_next_field(before, d1 + d2 + d3 + d4 + d5, m5, after, Field::IdToken);
        lemma_next_field(before, d1 + d2 + d3 + d4 + d5 + d6, m6, after, Field::TokenExpiry);
        lemma_next_field(before, d1 + d2 + d3 + d4 + d5 + d6 + d7, m7, after, Field::Username);
        lemma_next_field(before, d1 + d2 + d3 + d4 + d5 + d6 + d7 + d8, m8, after, Field::UserId);
        assert(m9 == after);
    }
}

/// The reason in the record of a field that could not be read.
pub open spec fn read_reason(field: Field) -> Seq<char> {
    match field {
        Field::PkceVerifier => "pkce_verifier failed"@,
        Field::State => "extracted_state failed"@,
        Field::Nonce => "stored_nonce failed"@,
        Field::AccessToken => "extracted_access_token failed"@,
        Field::RefreshToken => "extracted_refresh_token failed"@,
        Field::IdToken => "extracted_id_token failed"@,
        Field::TokenExpiry => "extracted_access_token_expiry failed"@,
        Field::Username => "extracted_username failed"@,
        Field::UserId => "extracted_user_id failed"@,
    }
}

/// The reason in the record of a field that could not be written: `failed
/// to store` and the field's key, after the word `status` where it is the
/// session-status handler that failed.
pub open spec fn write_reason(handler: Seq<char>, field: Field) -> Seq<char> {
    if handler == crate::sessionstatus::HANDLER@ {
        "status failed to store "@ + field_key(field)
    } else {
        "failed to store "@ + field_key(field)
    }
}

/// Fails a request whose session holds a field that cannot be read.
pub fn read_failed(
    session: &mut SessionRecord,
    config: &MainConfiguration,
    handler: &str,
    field: Field,
    detail: Option<String>,
) -> (step: Step)
    ensures
        final(session)@.is_empty(),
        step.rejects(
            FailureModel {
                kind: ErrorKind::StorageError,
                reason: read_reason(field),
                detail: given(text(detail)),
            },
            handler@,
            config.requesting_client_url@,
        ),
{
    let reason = match field {
        Field::PkceVerifier => "pkce_verifier failed",
        Field::State => "extracted_state failed",
        Field::Nonce => "stored_nonce failed",
        Field::AccessToken => "extracted_access_token failed",
        Field::RefreshToken => "extracted_refresh_token failed",
        Field::IdToken => "extracted_id_token failed",
        Field::TokenExpiry => "extracted_access_token_expiry failed",
        Field::Username => "extracted_username failed",
        Field::UserId => "extracted_user_id failed",
    };
    reject(
        session,
        config.requesting_client_url.as_str(),
        ErrorKind::StorageError,
        handler,
        reason,
        detail,
    )
}

/// Fails a request of which a field could not be written to the session.
pub fn write_failed(
    session: &mut SessionRecord,
    config: &MainConfiguration,
    handler: &str,
    field: Field,
    detail: Option<String>,
) -> (step: Step)
    ensures
        final(session)@.is_empty(),
        step.rejects(
            FailureModel {
                kind: ErrorKind::StorageError,
                reason: write_reason(handler@, field),
                detail: given(text(detail)),
            },
            handler@,
            config.requesting_client_url@,
        ),
{
    let mut reason = if handler.to_owned() == crate::sessionstatus::HANDLER.to_owned() {
        String::from_str("status failed to store ")
    } else {
        String::from_str("failed to store ")
    };
    reason.append(field.key());
    reject(
        session,
        config.requesting_client_url.as_str(),
        ErrorKind::StorageError,
        handler,
        reason.as_str(),
        detail,
    )
}

} // verus!
