//! What holds of the store and the pipeline whatever the readings, the
//! moment and the service's answers.
use vstd::prelude::*;
use crate::auth::{after_get_token, expiry_after, grants, obtains_token, token_at};
use crate::migrate::{is_due, is_run, ledger_after, lemma_nothing_due_after_run};
use crate::pending::lemma_listing_order_is_unique;
use crate::pipeline::{Remote, after_process, delivers, failure};
use crate::reading::{SensorData, strictly_positive};
use crate::remote::{SensorDataResponse, TokenResponse, granted_token};
use crate::steps::{Job, NextView, Write, arrival, submission_step, token_step};
use crate::store::{DBData, StoreState, evicted, is_oldest, is_pending_listing, marked, oldest_index};

verus! {

/// A sequence with a row in it has an oldest row, and `oldest_index` is
/// its position.
pub proof fn lemma_oldest_exists(rows: Seq<DBData>)
    requires
        rows.len() > 0,
    ensures
        is_oldest(rows, oldest_index(rows)),
    decreases rows.len(),
{
    if rows.len() == 1 {
        assert(is_oldest(rows, 0));
    } else {
        let front = rows.drop_last();
        lemma_oldest_exists(front);
        let k = oldest_index(front);
        let last = rows.len() - 1;
        assert(forall|j: int| 0 <= j < front.len() ==> front[j] == rows[j]);
        if rows[last].timestamp < rows[k].timestamp {
            assert forall|j: int| 0 <= j < rows.len() implies rows[last].timestamp <= (
            #[trigger] rows[j]).timestamp by {
                if j < last {
                    assert(front[k].timestamp <= front[j].timestamp);
                }
            }
            assert forall|j: int| 0 <= j < last implies rows[last].timestamp < (#[trigger] rows[j]).timestamp by {
                assert(front[k].timestamp <= front[j].timestamp);
            }
            assert(is_oldest(rows, last));
        } else {
            assert forall|j: int| 0 <= j < rows.len() implies rows[k].timestamp <= (
            #[trigger] rows[j]).timestamp by {
                if j < last {
                    assert(front[k].timestamp <= front[j].timestamp);
                }
            }
            assert forall|j: int| 0 <= j < k implies rows[k].timestamp < (#[trigger] rows[j]).timestamp by {
                assert(front[k].timestamp < front[j].timestamp);
            }
            assert(is_oldest(rows, k));
        }
    }
}

/// A reading whose primary value is not strictly positive leaves the
/// readings and the credential as they were: only the log grows, by one
/// entry.
pub proof fn law_rejected_reading_changes_nothing(
    s: StoreState,
    data: SensorData,
    time: i64,
    now: i64,
    remote: Remote,
)
    requires
        !strictly_positive(data.total_in),
    ensures
        after_process(s, data, time, now, remote).rows == s.rows,
        after_process(s, data, time, now, remote).credential == s.credential,
        after_process(s, data, time, now, remote).ledger == s.ledger,
        after_process(s, data, time, now, remote).logs.len() == s.logs.len() + 1,
{
}

/// Whoever follows the steps meets each endpoint at most once for a job:
/// the token endpoint is asked only on arrival, and after a submission the
/// job is done.
pub proof fn law_each_endpoint_is_met_once(
    job: Job,
    cached: Option<(Seq<char>, i64)>,
    now: i64,
    token: Result<TokenResponse, String>,
    answer: Result<SensorDataResponse, String>,
)
    ensures
        job.refused() ==> arrival(job, cached, now).next == NextView::Finished(false),
        !(token_step(job, token, now).next is AskToken),
        submission_step(job, answer).next is Finished,
{
}

/// A reading that has just arrived and is not refused is written exactly
/// once on every path: not on arrival, not with a granted token, and once
/// where the job ends, as delivered exactly if the service acknowledged
/// it. A refused reading is never written.
pub proof fn law_live_reading_is_written_once(
    job: Job,
    cached: Option<(Seq<char>, i64)>,
    now: i64,
    token: Result<TokenResponse, String>,
    answer: Result<SensorDataResponse, String>,
)
    requires
        job.entry is None,
    ensures
        arrival(job, cached, now).write is None,
        !job.refused() ==> !(arrival(job, cached, now).next is Finished),
        token_step(job, token, now).next is Submit ==> token_step(job, token, now).write is None,
        token_step(job, token, now).next is Finished ==> token_step(job, token, now).write == Some(
            Write::Save(false),
        ),
        submission_step(job, answer).write == Some(
            Write::Save(submission_step(job, answer).next == NextView::Finished(true)),
        ),
{
}

/// A reading that the service acknowledges becomes one row, marked as
/// delivered, and leaves no log entry. Below the cap the row is the last
/// one and the only one with its identifier.
pub proof fn law_delivered_reading_is_stored_once(
    s: StoreState,
    data: SensorData,
    time: i64,
    now: i64,
    remote: Remote,
)
    requires
        s.wf(),
        s.next_id < i32::MAX,
        strictly_positive(data.total_in),
        delivers(s, now, remote),
    ensures
        ({
            let after = after_process(s, data, time, now, remote);
            let row = s.new_row(data.total_in, data.total_out, data.power_curr, true, time);
            &&& row.synced
            &&& after.rows == evicted(s.rows.push(row), s.cap)
            &&& after.logs == s.logs
            &&& s.rows.len() < s.cap ==> {
                &&& after.rows == s.rows.push(row)
                &&& forall|i: int| 0 <= i < after.rows.len() && after.rows[i].id == row.id ==> i == s.rows.len()
            }
        }),
{
}

/// A reading that is not acknowledged becomes one pending row, and its
/// failure is logged. Below the cap every listing of the pending readings
/// holds that row.
pub proof fn law_failed_reading_is_pending(
    s: StoreState,
    data: SensorData,
    time: i64,
    now: i64,
    remote: Remote,
    listing: Seq<DBData>,
)
    requires
        s.wf(),
        s.next_id < i32::MAX,
        s.rows.len() < s.cap,
        strictly_positive(data.total_in),
        !delivers(s, now, remote),
        is_pending_listing(after_process(s, data, time, now, remote).rows, listing),
    ensures
        ({
            let after = after_process(s, data, time, now, remote);
            let row = s.new_row(data.total_in, data.total_out, data.power_curr, false, time);
            &&& after.rows == s.rows.push(row)
            &&& after.logs == s.logs.push(failure(s, now, remote).1)
            &&& listing.contains(row)
        }),
{
    let after = after_process(s, data, time, now, remote);
    let row = s.new_row(data.total_in, data.total_out, data.power_curr, false, time);
    assert(after.rows[s.rows.len() as int] == row);
    assert(after.rows.contains(row));
}

/// A pending row stands in every listing of the pending readings, and in
/// none once it has been acknowledged.
pub proof fn law_pending_until_acknowledged(
    s: StoreState,
    row: DBData,
    before: Seq<DBData>,
    after: Seq<DBData>,
)
    requires
        s.wf(),
        s.rows.contains(row),
        !row.synced,
        is_pending_listing(s.rows, before),
        is_pending_listing(s.with_synced(row.id).rows, after),
    ensures
        before.contains(row),
        forall|i: int| 0 <= i < after.len() ==> after[i].id != row.id,
{
    let later = marked(s.rows, row.id);
    assert forall|i: int| 0 <= i < after.len() implies after[i].id != row.id by {
        assert(after.contains(after[i]));
        assert(later.contains(after[i]));
        let k = choose|k: int| 0 <= k < later.len() && later[k] == after[i];
        assert(!later[k].synced);
    }
}

/// The pending readings have one listing: two sequences that both list
/// them oldest first are equal.
pub proof fn law_pending_listing_is_unique(rows: Seq<DBData>, a: Seq<DBData>, b: Seq<DBData>)
    requires
        is_pending_listing(rows, a),
        is_pending_listing(rows, b),
    ensures
        a == b,
{
    lemma_listing_order_is_unique(a, b);
}

/// Acknowledging a reading changes no row but that one, and takes no
/// acknowledgement back.
pub proof fn law_delivered_stays_delivered(rows: Seq<DBData>, id: i32, i: int)
    requires
        0 <= i < rows.len(),
    ensures
        marked(rows, id).len() == rows.len(),
        rows[i].synced ==> marked(rows, id)[i] == rows[i],
        rows[i].id != id ==> marked(rows, id)[i] == rows[i],
        marked(marked(rows, id), id) =~= marked(rows, id),
{
}

/// A replaced credential is read back as it was written, and before its
/// expiry it is the token that a caller gets, without a word to the
/// service, whatever the service would answer.
pub proof fn law_credential_round_trip(
    s: StoreState,
    token: Seq<char>,
    expires_at: i64,
    now: i64,
    answer: Result<TokenResponse, String>,
)
    ensures
        s.with_credential(token, expires_at).credential == Some((token, expires_at)),
        now < expires_at ==> {
            let cached = s.with_credential(token, expires_at);
            &&& cached.fresh_token(now) == Some(token)
            &&& obtains_token(cached, now, answer)
            &&& token_at(cached, now, answer) == token
            &&& after_get_token(cached, now, answer) == cached
        },
{
}

/// From its expiry on a credential is no longer used: the service is
/// asked, and what it grants takes the place of the old credential; where
/// it grants nothing, no credential is left.
pub proof fn law_expired_credential_is_replaced(
    s: StoreState,
    now: i64,
    answer: Result<TokenResponse, String>,
)
    requires
        s.credential is Some,
        now >= s.credential.unwrap().1,
    ensures
        s.fresh_token(now) is None,
        grants(answer) ==> after_get_token(s, now, answer).credential == Some(
            (granted_token(answer->Ok_0), expiry_after(now)),
        ),
        !grants(answer) ==> after_get_token(s, now, answer).credential is None,
        after_get_token(s, now, answer).rows == s.rows,
{
}

/// A store that is full stays full when a reading is added: the oldest
/// row leaves, whatever its delivery state, and every other row stays in
/// its order.
pub proof fn law_capacity_eviction(rows: Seq<DBData>, row: DBData, cap: nat)
    requires
        rows.len() <= cap,
    ensures
        rows.len() < cap ==> evicted(rows.push(row), cap) == rows.push(row),
        rows.len() == cap ==> {
            let k = oldest_index(rows.push(row));
            &&& is_oldest(rows.push(row), k)
            &&& evicted(rows.push(row), cap) == rows.push(row).remove(k)
            &&& evicted(rows.push(row), cap).len() == cap
        },
{
    if rows.len() == cap {
        lemma_oldest_exists(rows.push(row));
    }
}

/// Applying a set of migrations applies each due script once, and the
/// ledger names no migration twice; applying the same set again applies
/// nothing and leaves the ledger as it is.
pub proof fn law_migration_idempotence(
    ids: Seq<Seq<char>>,
    ledger: Seq<Seq<char>>,
    run: Seq<usize>,
    again: Seq<usize>,
)
    requires
        ledger.no_duplicates(),
        is_run(ids, ledger, ids.len() as int, run),
        is_run(ids, ledger_after(ids, ledger, run), ids.len() as int, again),
    ensures
        run.no_duplicates(),
        ledger_after(ids, ledger, run).no_duplicates(),
        again.len() == 0,
        ledger_after(ids, ledger_after(ids, ledger, run), again) == ledger_after(ids, ledger, run),
{
    let after = ledger_after(ids, ledger, run);
    lemma_nothing_due_after_run(ids, ledger, run);
    if again.len() > 0 {
        assert(is_due(ids, after, again[0] as int));
    }
    assert forall|p: int, q: int| 0 <= p < run.len() && 0 <= q < run.len() && p != q implies run[p]
        != run[q] by {
        if p < q {
            assert(run[p] < run[q]);
        } else {
            assert(run[q] < run[p]);
        }
    }
    assert forall|p: int, q: int| 0 <= p < after.len() && 0 <= q < after.len() && p != q implies after[p]
        != after[q] by {
        let lo = if p < q {
            p
        } else {
            q
        };
        let hi = if p < q {
            q
        } else {
            p
        };
        if hi < ledger.len() {
            assert(after[lo] == ledger[lo] && after[hi] == ledger[hi]);
        } else {
            let b = hi - ledger.len();
            assert(after[hi] == ids[run[b] as int]);
            assert(is_due(ids, ledger, run[b] as int));
            if lo < ledger.len() {
                assert(after[lo] == ledger[lo]);
                if after[lo] == after[hi] {
                    assert(ledger.contains(ids[run[b] as int]));
                }
            } else {
                let a = lo - ledger.len();
                assert(after[lo] == ids[run[a] as int]);
                assert(run[a] < run[b]);
            }
        }
    }
    assert(ledger_after(ids, after, again) =~= after);
}

} // verus!
