//! API keys: the issued-key record and the check of a presented key.

use vstd::prelude::*;
use crate::error::{Failure, FailureView};

verus! {

/// An issued key, as the key table holds it. `expires_at` is in seconds
/// since the Unix epoch.
#[derive(Clone, Debug)]
pub struct ApiKey {
    pub id: i32,
    pub key_owner: String,
    pub apikey: String,
    pub expires_at: i64,
}

/// The mathematical value of an `ApiKey`.
pub struct ApiKeyView {
    pub id: i32,
    pub key_owner: Seq<char>,
    pub apikey: Seq<char>,
    pub expires_at: i64,
}

impl View for ApiKey {
    type V = ApiKeyView;

    open spec fn view(&self) -> ApiKeyView {
        ApiKeyView {
            id: self.id,
            key_owner: self.key_owner@,
            apikey: self.apikey@,
            expires_at: self.expires_at,
        }
    }
}

/// What the key table answered for a presented key.
#[derive(Clone, Debug)]
pub enum KeyLookup {
    /// The table holds this row for the key.
    Found(ApiKey),
    /// The table holds no row for the key.
    Absent,
    /// The table could not be asked; carries the reason.
    Unavailable(String),
}

/// The mathematical value of a `KeyLookup`.
pub enum KeyLookupView {
    Found(ApiKeyView),
    Absent,
    Unavailable(Seq<char>),
}

impl View for KeyLookup {
    type V = KeyLookupView;

    open spec fn view(&self) -> KeyLookupView {
        match *self {
            KeyLookup::Found(row) => KeyLookupView::Found(row@),
            KeyLookup::Absent => KeyLookupView::Absent,
            KeyLookup::Unavailable(reason) => KeyLookupView::Unavailable(reason@),
        }
    }
}

/// A caller whose key was accepted; holds the key, under which the
/// caller's uploads are recorded.
#[derive(Clone, Debug)]
pub struct ValidatedIdentity(pub String);

impl View for ValidatedIdentity {
    type V = Seq<char>;

    open spec fn view(&self) -> Seq<char> {
        self.0@
    }
}

/// A row vouches for a presented key while its secret is the presented
/// one and it has not expired.
pub open spec fn key_is_valid(row: ApiKeyView, presented: Seq<char>, now: i64) -> bool {
    row.apikey == presented && now < row.expires_at
}

/// The row that vouches for `presented` at `now`, if the table gave one
/// that does.
pub open spec fn vouching_row(found: Option<ApiKeyView>, presented: Seq<char>, now: i64) -> Option<
    ApiKeyView,
> {
    match found {
        Some(row) => if key_is_valid(row, presented, now) {
            Some(row)
        } else {
            None
        },
        None => None,
    }
}

/// The outcome of checking `presented` at `now` against what the table
/// answered: an empty, unknown, mismatched or expired key is
/// `Unauthenticated`, whichever it is; a table that could not be asked is
/// an internal error; otherwise the key itself is the identity.
pub open spec fn validation(presented: Seq<char>, lookup: KeyLookupView, now: i64) -> Result<
    Seq<char>,
    FailureView,
> {
    if presented.len() == 0 {
        Err(FailureView::Unauthenticated)
    } else {
        match lookup {
            KeyLookupView::Unavailable(reason) => Err(FailureView::InternalError(reason)),
            KeyLookupView::Absent => Err(FailureView::Unauthenticated),
            KeyLookupView::Found(row) => if key_is_valid(row, presented, now) {
                Ok(presented)
            } else {
                Err(FailureView::Unauthenticated)
            },
        }
    }
}

/// The value of an optional row.
pub open spec fn row_view(row: Option<ApiKey>) -> Option<ApiKeyView> {
    match row {
        Some(row) => Some(row@),
        None => None,
    }
}

/// The value of a validation's outcome.
pub open spec fn identity_view(r: Result<ValidatedIdentity, Failure>) -> Result<
    Seq<char>,
    FailureView,
> {
    match r {
        Ok(identity) => Ok(identity@),
        Err(e) => Err(e@),
    }
}

/// `chrono::Utc::now().timestamp()`: the system clock's time in whole
/// seconds since the Unix epoch. Nothing is claimed of the value. The call
/// stops the program where the system clock is set before the epoch.
#[verifier::external_body]
pub(crate) fn unix_now() -> (now: i64) {
    chrono::Utc::now().timestamp()
}

impl ApiKey {
    /// Whether this row vouches for `key` at `now`.
    pub fn is_valid_at(&self, key: &str, now: i64) -> (b: bool)
        ensures
            b == key_is_valid(self@, key@, now),
    {
        let presented = String::from_str(key);
        self.apikey == presented && now < self.expires_at
    }

    /// Keeps the row that the table gave for `key` where it vouches for
    /// the key at `now`.
    pub fn check_key(key: &str, found: Option<ApiKey>, now: i64) -> (r: Option<ApiKey>)
        ensures
            row_view(r) == vouching_row(row_view(found), key@, now),
    {
        match found {
            Some(row) => if row.is_valid_at(key, now) {
                Some(row)
            } else {
                None
            },
            None => None,
        }
    }

    /// Keeps the row that the table gave for `key` where it vouches for
    /// the key at the time of the call.
    pub fn get_key(key: &str, found: Option<ApiKey>) -> (r: Option<ApiKey>)
        ensures
            exists|now: i64| row_view(r) == #[trigger] vouching_row(row_view(found), key@, now),
            found is None ==> r is None,
    {
        let now = unix_now();
        ApiKey::check_key(key, found, now)
    }
}

/// Checks a presented key at `now` against what the key table answered.
pub fn validate_at(presented: &str, lookup: KeyLookup, now: i64) -> (r: Result<
    ValidatedIdentity,
    Failure,
>)
    ensures
        identity_view(r) == validation(presented@, lookup@, now),
{
    if presented.is_empty() {
        return Err(Failure::Unauthenticated);
    }
    match lookup {
        KeyLookup::Unavailable(reason) => Err(Failure::InternalError(reason)),
        KeyLookup::Absent => Err(Failure::Unauthenticated),
        KeyLookup::Found(row) => if row.is_valid_at(presented, now) {
            Ok(ValidatedIdentity(String::from_str(presented)))
        } else {
            Err(Failure::Unauthenticated)
        },
    }
}

/// Checks a presented key, at the time of the call, against what the key
/// table answered.
pub fn validate(presented: &str, lookup: KeyLookup) -> (r: Result<ValidatedIdentity, Failure>)
    ensures
        exists|now: i64| identity_view(r) == #[trigger] validation(presented@, lookup@, now),
{
    let now = unix_now();
    validate_at(presented, lookup, now)
}

/// A key that the table does not hold is refused as unauthenticated at
/// every time, and so is a key whose row has expired; a non-empty key
/// whose row holds the same secret and has not expired is accepted as the
/// identity.
pub proof fn law_validate(presented: Seq<char>, row: ApiKeyView, now: i64)
    ensures
        validation(presented, KeyLookupView::Absent, now) == Err::<Seq<char>, FailureView>(
            FailureView::Unauthenticated,
        ),
        row.expires_at <= now ==> validation(presented, KeyLookupView::Found(row), now) == Err::<
            Seq<char>,
            FailureView,
        >(FailureView::Unauthenticated),
        presented.len() > 0 && row.apikey == presented && now < row.expires_at ==> validation(
            presented,
            KeyLookupView::Found(row),
            now,
        ) == Ok::<Seq<char>, FailureView>(presented),
{
}

} // verus!
