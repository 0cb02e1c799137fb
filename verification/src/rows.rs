//! The durable form of what the store holds: a row carries each moment as
//! text, a date and time with its offset, and the library carries it as
//! nanoseconds since the Unix epoch.
use vstd::prelude::*;
use crate::store::{Credential, DBData, StorageError};

verus! {

/// The text that `chrono` writes for the moment `nanos` nanoseconds after
/// the Unix epoch, in UTC.
pub uninterp spec fn rfc3339_text(nanos: i64) -> Seq<char>;

/// The moment that `chrono` reads from `text`, in nanoseconds since the
/// Unix epoch; `None` where it reads none or the count does not fit.
pub uninterp spec fn rfc3339_nanos(text: Seq<char>) -> Option<i64>;

/// Calls `chrono::DateTime::<Utc>::to_rfc3339` on the moment that
/// `chrono::DateTime::from_timestamp_nanos` makes of `nanos`. The contract
/// claims only that the text depends on `nanos` alone.
#[verifier::external_body]
fn format_rfc3339(nanos: i64) -> (text: String)
    ensures
        text@ == rfc3339_text(nanos),
{
    chrono::DateTime::<chrono::Utc>::from_timestamp_nanos(nanos).to_rfc3339()
}

/// Calls the `FromStr` of `chrono::DateTime<Utc>` on `text` and counts the
/// moment with `timestamp_nanos_opt`. The contract claims only that the
/// result depends on `text` alone; a text that is refused, and a moment
/// whose nanoseconds do not fit, both give `None`.
#[verifier::external_body]
fn parse_rfc3339(text: &str) -> (nanos: Option<i64>)
    ensures
        nanos == rfc3339_nanos(text@),
{
    match text.parse::<chrono::DateTime<chrono::Utc>>() {
        Ok(moment) => moment.timestamp_nanos_opt(),
        Err(_) => None,
    }
}

/// A reading as a row carries it.
#[derive(Clone, Debug, PartialEq, Eq)]
pub struct StoredRow {
    pub id: i32,
    pub timestamp: String,
    pub value: u64,
    pub value_out: Option<u64>,
    pub value_current: Option<u64>,
    pub synced: bool,
}

/// A credential as a row carries it.
#[derive(Clone, Debug, PartialEq, Eq)]
pub struct StoredCredential {
    pub token: String,
    pub expires_at: String,
}

/// The reading of a row whose moment was read as `time`: a row without a
/// readable moment is refused.
pub fn entry_at(row: &StoredRow, time: Option<i64>) -> (r: Result<DBData, StorageError>)
    ensures
        time is None ==> r == Err::<DBData, StorageError>(StorageError::UnreadableTimestamp),
        time is Some ==> r == Ok::<DBData, StorageError>(
            DBData {
                id: row.id,
                timestamp: time->0,
                value: row.value,
                value_out: row.value_out,
                value_current: row.value_current,
                synced: row.synced,
            },
        ),
{
    match time {
        Some(timestamp) => Ok(
            DBData {
                id: row.id,
                timestamp,
                value: row.value,
                value_out: row.value_out,
                value_current: row.value_current,
                synced: row.synced,
            },
        ),
        None => Err(StorageError::UnreadableTimestamp),
    }
}

/// Reads a reading from its row.
pub fn entry_from_row(row: &StoredRow) -> (r: Result<DBData, StorageError>)
    ensures
        rfc3339_nanos(row.timestamp@) is None ==> r == Err::<DBData, StorageError>(
            StorageError::UnreadableTimestamp,
        ),
        rfc3339_nanos(row.timestamp@) is Some ==> r == Ok::<DBData, StorageError>(
            DBData {
                id: row.id,
                timestamp: rfc3339_nanos(row.timestamp@)->0,
                value: row.value,
                value_out: row.value_out,
                value_current: row.value_current,
                synced: row.synced,
            },
        ),
{
    let time: Option<i64> = parse_rfc3339(row.timestamp.as_str());
    entry_at(row, time)
}

/// Writes a reading as a row.
pub fn row_of_entry(entry: &DBData) -> (row: StoredRow)
    ensures
        row.id == entry.id,
        row.timestamp@ == rfc3339_text(entry.timestamp),
        row.value == entry.value,
        row.value_out == entry.value_out,
        row.value_current == entry.value_current,
        row.synced == entry.synced,
{
    StoredRow {
        id: entry.id,
        timestamp: format_rfc3339(entry.timestamp),
        value: entry.value,
        value_out: entry.value_out,
        value_current: entry.value_current,
        synced: entry.synced,
    }
}

/// The credential of a row whose expiry was read as `expires_at`: a row
/// without a readable expiry is refused.
pub fn credential_at(token: &String, expires_at: Option<i64>) -> (r: Result<Credential, StorageError>)
    ensures
        r is Ok <==> expires_at is Some,
        r is Ok ==> r->Ok_0.token@ == token@ && r->Ok_0.expires_at == expires_at->0,
        r is Err ==> r->Err_0 == StorageError::UnreadableTimestamp,
{
    match expires_at {
        Some(e) => Ok(Credential { token: token.clone(), expires_at: e }),
        None => Err(StorageError::UnreadableTimestamp),
    }
}

/// Reads a credential from its row.
pub fn credential_from_row(row: &StoredCredential) -> (r: Result<Credential, StorageError>)
    ensures
        r is Ok <==> rfc3339_nanos(row.expires_at@) is Some,
        r is Ok ==> r->Ok_0.token@ == row.token@ && r->Ok_0.expires_at == rfc3339_nanos(
            row.expires_at@,
        )->0,
        r is Err ==> r->Err_0 == StorageError::UnreadableTimestamp,
{
    let expires_at: Option<i64> = parse_rfc3339(row.expires_at.as_str());
    credential_at(&row.token, expires_at)
}

/// Writes a credential as a row.
pub fn row_of_credential(credential: &Credential) -> (row: StoredCredential)
    ensures
        row.token@ == credential.token@,
        row.expires_at@ == rfc3339_text(credential.expires_at),
{
    StoredCredential { token: credential.token.clone(), expires_at: format_rfc3339(credential.expires_at) }
}

} // verus!
