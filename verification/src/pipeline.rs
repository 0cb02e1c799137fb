//! The processing of one reading from end to end: it is checked, offered
//! to the service under a token, and stored with the outcome. The same run
//! serves the retry of readings that are still pending.
//!
//! The service is met through its answers: a [`Remote`] holds what each of
//! the two endpoints answers when it is asked, and the outcome says which
//! of them was asked.
use vstd::prelude::*;
use crate::auth::{after_get_token, obtains_token, token_at, token_failure};
use crate::reading::{SensorData, strictly_positive};
use crate::remote::{FailureKind, SensorDataRequest, SensorDataResponse, TokenResponse, submission};
use crate::steps::{
    Job, Next, accepts, after_save, apply, on_arrival, on_submission, on_token, rejection_detail,
    submission_failure,
};
use crate::store::{
    DBData, Store, StoreState, acknowledged, get_credential, get_unsync_entries, is_pending_listing,
};

verus! {

/// What the service answers when it is asked. An `Err` is the text of a
/// transport failure.
pub struct Remote {
    /// The token endpoint's answer.
    pub token: Result<TokenResponse, String>,
    /// The submission endpoint's answer.
    pub submission: Result<SensorDataResponse, String>,
}

/// Whether a reading offered at `now` is acknowledged: a token is there
/// and the service accepts the submission.
pub open spec fn delivers(s: StoreState, now: i64, remote: Remote) -> bool {
    obtains_token(s, now, remote.token) && accepts(remote.submission)
}

/// Why a reading offered at `now` is not acknowledged.
pub open spec fn failure(s: StoreState, now: i64, remote: Remote) -> (FailureKind, Seq<char>) {
    if obtains_token(s, now, remote.token) {
        submission_failure(remote.submission)
    } else {
        token_failure(remote.token)
    }
}

/// The store after a delivery attempt and the log entry of its failure.
pub open spec fn after_attempt(s: StoreState, now: i64, remote: Remote) -> StoreState {
    let mid = after_get_token(s, now, remote.token);
    if delivers(s, now, remote) {
        mid
    } else {
        mid.with_log(failure(s, now, remote).1)
    }
}

/// The store after a reading was processed.
pub open spec fn after_process(s: StoreState, data: SensorData, time: i64, now: i64, remote: Remote) -> StoreState {
    if strictly_positive(data.total_in) {
        after_save(after_attempt(s, now, remote), data, delivers(s, now, remote), time)
    } else {
        s.with_log(rejection_detail())
    }
}

/// The store after the retry of a pending reading.
pub open spec fn after_retry(s: StoreState, id: i32, now: i64, remote: Remote) -> StoreState {
    if delivers(s, now, remote) {
        after_attempt(s, now, remote).with_synced(id)
    } else {
        after_attempt(s, now, remote)
    }
}

/// What the processing of a reading came to.
pub struct Report {
    /// Whether the service acknowledged the reading.
    pub synced: bool,
    /// Whether the token endpoint was asked. It is asked at most once.
    pub asked_for_token: bool,
    /// The submission that went to the service. There is at most one.
    pub sent: Option<SensorDataRequest>,
    /// The identifier of the row that the reading became, if it was stored.
    pub stored: Option<i32>,
}

/// The store after a job was driven to its end at `now`.
pub open spec fn after_run(s: StoreState, job: Job, now: i64, remote: Remote) -> StoreState {
    if job.refused() {
        s.with_log(rejection_detail())
    } else {
        match job.entry {
            None => after_save(after_attempt(s, now, remote), job.data, delivers(s, now, remote), job.time),
            Some(id) => after_retry(s, id, now, remote),
        }
    }
}

/// Drives a job to its end at `now`: takes each step, makes its changes
/// in the store, and hands it the answer of the endpoint that it asks.
/// The token endpoint is asked only without a fresh token in the cache,
/// the submission endpoint only under a token, and each at most once.
pub fn run(job: &Job, now: i64, remote: &Remote, store: &mut Store) -> (report: Report)
    requires
        old(store)@.wf(),
    ensures
        final(store)@.wf(),
        final(store)@ == after_run(old(store)@, *job, now, *remote),
        job.refused() ==> {
            &&& !report.synced
            &&& !report.asked_for_token
            &&& report.sent is None
            &&& report.stored is None
        },
        !job.refused() ==> {
            &&& report.synced == delivers(old(store)@, now, *remote)
            &&& report.asked_for_token == (old(store)@.fresh_token(now) is None)
            &&& report.sent is Some <==> obtains_token(old(store)@, now, remote.token)
            &&& report.sent is Some ==> report.sent->0@ == job.request(
                token_at(old(store)@, now, remote.token),
            )
            &&& report.stored == (if job.entry is None && old(store)@.next_id < i32::MAX {
                Some(old(store)@.next_id as i32)
            } else {
                None
            })
        },
{
    let cached = get_credential(store);
    let first = on_arrival(job, &cached, now);
    let mut stored: Option<i32> = apply(&first, job, store);
    let mut asked_for_token: bool = false;
    let mut synced: bool = false;
    let mut sent: Option<SensorDataRequest> = None;
    let mut next: Next = first.next;
    if let Next::AskToken = next {
        asked_for_token = true;
        let second = on_token(job, &remote.token, now);
        stored = apply(&second, job, store);
        next = second.next;
    }
    match next {
        Next::Submit(request) => {
            sent = Some(request);
            let last = on_submission(job, &remote.submission);
            stored = apply(&last, job, store);
            if let Next::Finished(acknowledged) = last.next {
                synced = acknowledged;
            }
        },
        Next::Finished(acknowledged) => {
            synced = acknowledged;
        },
        Next::AskToken => {},
    }
    Report { synced, asked_for_token, sent, stored }
}

/// Processes a reading captured at `time`, at the moment `now`.
///
/// A reading whose primary value is not strictly positive is logged and
/// dropped: nothing is stored and the service is not met. Any other reading
/// is offered to the service as a live one and then stored exactly once, as
/// delivered if the service acknowledged it and as pending if not; a
/// failure is logged before the write.
pub fn process_data(data: &SensorData, time: i64, now: i64, remote: &Remote, store: &mut Store) -> (report:
    Report)
    requires
        old(store)@.wf(),
    ensures
        final(store)@.wf(),
        final(store)@ == after_process(old(store)@, *data, time, now, *remote),
        !strictly_positive(data.total_in) ==> {
            &&& !report.synced
            &&& !report.asked_for_token
            &&& report.sent is None
            &&& report.stored is None
            &&& final(store)@.rows == old(store)@.rows
            &&& final(store)@.credential == old(store)@.credential
        },
        strictly_positive(data.total_in) ==> {
            &&& report.synced == delivers(old(store)@, now, *remote)
            &&& report.asked_for_token == (old(store)@.fresh_token(now) is None)
            &&& report.sent is Some <==> obtains_token(old(store)@, now, remote.token)
            &&& report.sent is Some ==> report.sent->0@ == submission(
                token_at(old(store)@, now, remote.token),
                data.total_in,
                data.total_out,
                data.power_curr,
                None,
            )
            &&& report.stored == (if old(store)@.next_id < i32::MAX {
                Some(old(store)@.next_id as i32)
            } else {
                None
            })
        },
{
    let job = Job::live(data, time);
    run(&job, now, remote, store)
}

/// Retries the delivery of a pending reading at `now`: it is offered to
/// the service with its capture time, as a reading submitted after the
/// fact. If the service acknowledges it the row is marked as delivered;
/// if not, the failure is logged and the row stays as it is.
pub fn retry_entry(entry: &DBData, now: i64, remote: &Remote, store: &mut Store) -> (report: Report)
    requires
        old(store)@.wf(),
    ensures
        final(store)@.wf(),
        final(store)@ == after_retry(old(store)@, entry.id, now, *remote),
        report.synced == delivers(old(store)@, now, *remote),
        report.asked_for_token == (old(store)@.fresh_token(now) is None),
        report.sent is Some <==> obtains_token(old(store)@, now, remote.token),
        report.sent is Some ==> report.sent->0@ == submission(
            token_at(old(store)@, now, remote.token),
            entry.value,
            entry.value_out,
            entry.value_current,
            Some(entry.timestamp),
        ),
        report.stored is None,
{
    let job = Job::retry(entry);
    run(&job, now, remote, store)
}

/// The rows once each of them is acknowledged.
pub open spec fn all_acknowledged(rows: Seq<DBData>) -> Seq<DBData> {
    Seq::new(rows.len(), |i: int| acknowledged(rows[i]))
}

/// The store after a retry cycle over `attempted` pending readings: with
/// none the store is untouched; otherwise the credential is as after one
/// request for a token, and either every reading is acknowledged or every
/// attempt has left its failure in the log.
pub open spec fn after_cycle(s: StoreState, now: i64, remote: Remote, attempted: nat) -> StoreState {
    if attempted == 0 {
        s
    } else if delivers(s, now, remote) {
        StoreState {
            rows: all_acknowledged(s.rows),
            credential: after_get_token(s, now, remote.token).credential,
            ..s
        }
    } else {
        StoreState {
            credential: after_get_token(s, now, remote.token).credential,
            logs: s.logs + Seq::new(attempted, |i: int| failure(s, now, remote).1),
            ..s
        }
    }
}

/// What a retry cycle came to.
pub struct Cycle {
    /// How many pending readings were offered to the service.
    pub attempted: usize,
    /// How many of them it acknowledged.
    pub delivered: usize,
}

/// Retries every pending reading once, oldest first, at the moment `now`.
/// A reading that the service does not acknowledge stays pending, its
/// failure is logged, and the cycle goes on with the next one.
pub fn sync_pending(now: i64, remote: &Remote, store: &mut Store) -> (c: Cycle)
    requires
        old(store)@.wf(),
    ensures
        final(store)@.wf(),
        exists|listing: Seq<DBData>| #[trigger]
            is_pending_listing(old(store)@.rows, listing) && listing.len() == c.attempted,
        c.delivered == (if delivers(old(store)@, now, *remote) {
            c.attempted
        } else {
            0
        }),
        final(store)@ == after_cycle(old(store)@, now, *remote, c.attempted as nat),
{
    let entries = get_unsync_entries(store);
    let ghost start = old(store)@;
    let ghost ok = delivers(start, now, *remote);
    let ghost detail = failure(start, now, *remote).1;
    let mut delivered: usize = 0;
    let mut i: usize = 0;
    while i < entries.len()
        invariant
            i <= entries.len(),
            start == old(store)@,
            start.wf(),
            ok == delivers(start, now, *remote),
            detail == failure(start, now, *remote).1,
            is_pending_listing(start.rows, entries@),
            store@.wf(),
            delivered == (if ok { i } else { 0 }),
            i == 0 ==> store@ == start,
            i > 0 ==> store@.credential == after_get_token(start, now, remote.token).credential,
            store@.ledger == start.ledger,
            store@.next_id == start.next_id,
            store@.cap == start.cap,
            store@.rows.len() == start.rows.len(),
            ok ==> store@.logs == start.logs,
            !ok ==> store@.logs =~= start.logs + Seq::new(i as nat, |k: int| detail),
            !ok ==> store@.rows == start.rows,
            ok ==> forall|j: int|
                0 <= j < start.rows.len() ==> #[trigger] store@.rows[j] == (if exists|a: int|
                    0 <= a < i && entries@[a].id == start.rows[j].id {
                    acknowledged(start.rows[j])
                } else {
                    start.rows[j]
                }),
        decreases entries.len() - i,
    {
        let ghost before = store@;
        let entry: DBData = entries[i];
        let report = retry_entry(&entry, now, remote, store);
        if report.synced {
            delivered += 1;
        }
        proof {
            assert(delivers(before, now, *remote) == ok);
            assert(failure(before, now, *remote).1 == detail);
            if ok {
                assert forall|j: int| 0 <= j < start.rows.len() implies #[trigger] store@.rows[j] == (
                if exists|a: int| 0 <= a < i + 1 && entries@[a].id == start.rows[j].id {
                    acknowledged(start.rows[j])
                } else {
                    start.rows[j]
                }) by {
                    assert(before.rows[j].id == start.rows[j].id);
                    if exists|a: int| 0 <= a < i && entries@[a].id == start.rows[j].id {
                        let a = choose|a: int| 0 <= a < i && entries@[a].id == start.rows[j].id;
                        assert(0 <= a < i + 1 && entries@[a].id == start.rows[j].id);
                    } else if entry.id == start.rows[j].id {
                        assert(0 <= i < i + 1 && entries@[i as int].id == start.rows[j].id);
                    } else {
                        if exists|a: int| 0 <= a < i + 1 && entries@[a].id == start.rows[j].id {
                            let a = choose|a: int| 0 <= a < i + 1 && entries@[a].id == start.rows[j].id;
                            assert(a < i);
                        }
                    }
                }
            }
        }
        i += 1;
    }
    proof {
        if i > 0 && ok {
            assert forall|j: int| 0 <= j < start.rows.len() implies store@.rows[j] == acknowledged(
                start.rows[j],
            ) by {
                let r = start.rows[j];
                if !r.synced {
                    assert(start.rows.contains(r));
                    assert(entries@.contains(r));
                    let a = choose|a: int| 0 <= a < entries@.len() && entries@[a] == r;
                    assert(0 <= a < i && entries@[a].id == start.rows[j].id);
                }
            }
            assert(store@.rows =~= all_acknowledged(start.rows));
        }
    }
    Cycle { attempted: i, delivered }
}

} // verus!
