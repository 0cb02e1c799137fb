//! The decisions of the pipeline, one step at a time.
//!
//! A reading on its way is a [`Job`]. It takes a decision when it arrives,
//! when the token endpoint has answered and when the submission endpoint
//! has answered. Each decision is a [`Step`]: what to change in the store,
//! and what to do next. Whoever drives a job meets the service and the
//! store; the steps decide.
use vstd::prelude::*;
use crate::auth::{expiry, expiry_after, grants, token_failure};
use crate::reading::{SensorData, is_strictly_positive, strictly_positive};
use crate::remote::{
    FailureKind, SensorDataRequest, SensorDataRequestView, SensorDataResponse, TokenResponse,
    delivery_result, granted_token, is_success, network_failure, refusal_detail,
    sensor_data_request, submission, token_from_response,
};
use crate::store::{
    Credential, DBData, Store, StoreState, add_log, add_sensor_value, clear_token, credential_view,
    exhausted_detail, mark_data_as_synced, update_token,
};

verus! {

/// What the log says of a reading that was refused.
pub open spec fn rejection_detail() -> Seq<char> {
    "Consumption is zero value"@
}

/// Whether the submission endpoint's answer acknowledges a reading.
pub open spec fn accepts(answer: Result<SensorDataResponse, String>) -> bool {
    answer is Ok && is_success(answer->Ok_0.status)
}

/// The failure that an answer without acknowledgement stands for.
pub open spec fn submission_failure(answer: Result<SensorDataResponse, String>) -> (FailureKind, Seq<char>) {
    match answer {
        Ok(response) => (FailureKind::Delivery, refusal_detail(response.status_message)),
        Err(detail) => (FailureKind::Network, detail@),
    }
}

/// The store after a reading was written with its delivery state, or, where
/// the store refused it, after that refusal was logged.
pub open spec fn after_save(s: StoreState, data: SensorData, synced: bool, time: i64) -> StoreState {
    if s.next_id < i32::MAX {
        s.with_row(s.new_row(data.total_in, data.total_out, data.power_curr, synced, time))
    } else {
        s.with_log(exhausted_detail())
    }
}

/// Writes a reading with its delivery state. A refusal of the store is
/// logged and the reading is lost; the identifier says whether it was kept.
pub fn save_sensor_value(data: &SensorData, synced: bool, time: i64, store: &mut Store) -> (id: Option<i32>)
    requires
        old(store)@.wf(),
    ensures
        final(store)@.wf(),
        final(store)@ == after_save(old(store)@, *data, synced, time),
        id == (if old(store)@.next_id < i32::MAX {
            Some(old(store)@.next_id as i32)
        } else {
            None
        }),
{
    match add_sensor_value(data.total_in, data.total_out, data.power_curr, synced, time, store) {
        Ok(id) => Some(id),
        Err(e) => {
            let message = e.message();
            add_log(message.as_str(), store);
            None
        },
    }
}

/// A reading on its way to the service.
#[derive(Clone, Copy, Debug, PartialEq, Eq)]
pub struct Job {
    /// The measured values.
    pub data: SensorData,
    /// When the reading was captured.
    pub time: i64,
    /// The identifier of the stored row, for a pending reading that is
    /// tried again; `None` for a reading that has just arrived.
    pub entry: Option<i32>,
}

impl Job {
    /// Whether the job is refused on arrival: a reading that has just
    /// arrived must be strictly positive.
    pub open spec fn refused(self) -> bool {
        self.entry is None && !strictly_positive(self.data.total_in)
    }

    /// The capture time as the submission carries it: only a reading that
    /// is tried again names it.
    pub open spec fn wire_time(self) -> Option<i64> {
        if self.entry is Some {
            Some(self.time)
        } else {
            None
        }
    }

    /// The submission of the job under `token`.
    pub open spec fn request(self, token: Seq<char>) -> SensorDataRequestView {
        submission(token, self.data.total_in, self.data.total_out, self.data.power_curr, self.wire_time())
    }

    /// The job of a reading that has just arrived.
    pub fn live(data: &SensorData, time: i64) -> (job: Job)
        ensures
            job == (Job { data: *data, time, entry: None }),
    {
        Job { data: *data, time, entry: None }
    }

    /// The job of a pending reading that is tried again.
    pub fn retry(entry: &DBData) -> (job: Job)
        ensures
            job == (Job {
                data: SensorData {
                    total_in: entry.value,
                    total_out: entry.value_out,
                    power_curr: entry.value_current,
                },
                time: entry.timestamp,
                entry: Some(entry.id),
            }),
    {
        Job {
            data: SensorData {
                total_in: entry.value,
                total_out: entry.value_out,
                power_curr: entry.value_current,
            },
            time: entry.timestamp,
            entry: Some(entry.id),
        }
    }

    /// Builds the submission of the job under `token`.
    pub fn submit_under(&self, token: &str) -> (r: SensorDataRequest)
        ensures
            r@ == self.request(token@),
    {
        let timestamp: Option<i64> = if self.entry.is_some() {
            Some(self.time)
        } else {
            None
        };
        sensor_data_request(self.data.total_in, self.data.total_out, self.data.power_curr, timestamp, token)
    }
}

/// A change of the cached credential.
#[derive(Debug, PartialEq, Eq)]
pub enum CredentialChange {
    /// The credential is dropped.
    Drop,
    /// The credential is replaced by this one.
    Cache(Credential),
}

/// A write to the readings.
#[derive(Clone, Copy, Debug, PartialEq, Eq)]
pub enum Write {
    /// The job's reading is stored with this delivery state.
    Save(bool),
    /// The job's row is marked as delivered.
    MarkSynced,
}

/// What follows a step.
#[derive(Debug, PartialEq, Eq)]
pub enum Next {
    /// The token endpoint is to be asked.
    AskToken,
    /// This submission is to be sent.
    Submit(SensorDataRequest),
    /// The job is done; the flag says whether the service acknowledged the
    /// reading.
    Finished(bool),
}

/// A decision: the changes to the store, which are made in the order of
/// the fields, and what follows.
#[derive(Debug, PartialEq, Eq)]
pub struct Step {
    pub credential: Option<CredentialChange>,
    pub log: Option<String>,
    pub write: Option<Write>,
    pub next: Next,
}

/// What follows a step, with its text as sequences.
pub enum NextView {
    AskToken,
    Submit(SensorDataRequestView),
    Finished(bool),
}

/// What a step holds, with its text as sequences. Of the credential,
/// `None` leaves it alone, `Some(None)` drops it and `Some(Some(..))`
/// replaces it.
pub struct StepView {
    pub credential: Option<Option<(Seq<char>, i64)>>,
    pub log: Option<Seq<char>>,
    pub write: Option<Write>,
    pub next: NextView,
}

impl View for Step {
    type V = StepView;

    open spec fn view(&self) -> StepView {
        StepView {
            credential: match self.credential {
                None => None,
                Some(CredentialChange::Drop) => Some(None),
                Some(CredentialChange::Cache(c)) => Some(Some((c.token@, c.expires_at))),
            },
            log: match self.log {
                Some(m) => Some(m@),
                None => None,
            },
            write: self.write,
            next: match self.next {
                Next::AskToken => NextView::AskToken,
                Next::Submit(r) => NextView::Submit(r@),
                Next::Finished(b) => NextView::Finished(b),
            },
        }
    }
}

/// The token of a credential that may still be used at `now`.
pub open spec fn fresh(cached: Option<(Seq<char>, i64)>, now: i64) -> Option<Seq<char>> {
    match cached {
        Some((token, expires_at)) => if expires_at > now {
            Some(token)
        } else {
            None
        },
        None => None,
    }
}

/// The step of a job that arrives at `now` and finds `cached` in the
/// store: a refused reading is logged and dropped; under a fresh token the
/// reading is submitted; otherwise the credential is dropped and the token
/// endpoint is asked.
pub open spec fn arrival(job: Job, cached: Option<(Seq<char>, i64)>, now: i64) -> StepView {
    if job.refused() {
        StepView { credential: None, log: Some(rejection_detail()), write: None, next: NextView::Finished(false) }
    } else if fresh(cached, now) is Some {
        StepView {
            credential: None,
            log: None,
            write: None,
            next: NextView::Submit(job.request(fresh(cached, now)->0)),
        }
    } else {
        StepView { credential: Some(None), log: None, write: None, next: NextView::AskToken }
    }
}

/// The step of a job that failed: the failure is logged, and a reading
/// that has just arrived is stored as pending.
pub open spec fn failed(job: Job, detail: Seq<char>) -> StepView {
    StepView {
        credential: None,
        log: Some(detail),
        write: if job.entry is None {
            Some(Write::Save(false))
        } else {
            None
        },
        next: NextView::Finished(false),
    }
}

/// The step of a job after the token endpoint answered at `now`: a granted
/// token is cached with its expiry and the reading is submitted under it.
pub open spec fn token_step(job: Job, answer: Result<TokenResponse, String>, now: i64) -> StepView {
    if grants(answer) {
        StepView {
            credential: Some(Some((granted_token(answer->Ok_0), expiry_after(now)))),
            log: None,
            write: None,
            next: NextView::Submit(job.request(granted_token(answer->Ok_0))),
        }
    } else {
        failed(job, token_failure(answer).1)
    }
}

/// The step of a job after the submission endpoint answered: an
/// acknowledged reading is stored as delivered, or its row marked.
pub open spec fn submission_step(job: Job, answer: Result<SensorDataResponse, String>) -> StepView {
    if accepts(answer) {
        StepView {
            credential: None,
            log: None,
            write: Some(
                if job.entry is None {
                    Write::Save(true)
                } else {
                    Write::MarkSynced
                },
            ),
            next: NextView::Finished(true),
        }
    } else {
        failed(job, submission_failure(answer).1)
    }
}

/// The store after the changes of a step were made.
pub open spec fn applied(s: StoreState, job: Job, step: StepView) -> StoreState {
    let a = match step.credential {
        None => s,
        Some(None) => s.without_credential(),
        Some(Some((token, expires_at))) => s.with_credential(token, expires_at),
    };
    let b = match step.log {
        None => a,
        Some(message) => a.with_log(message),
    };
    match step.write {
        None => b,
        Some(Write::Save(synced)) => after_save(b, job.data, synced, job.time),
        Some(Write::MarkSynced) => match job.entry {
            Some(id) => b.with_synced(id),
            None => b,
        },
    }
}

/// Decides what a job does when it arrives.
pub fn on_arrival(job: &Job, cached: &Option<Credential>, now: i64) -> (step: Step)
    ensures
        step@ == arrival(*job, credential_view(*cached), now),
{
    if job.entry.is_none() && !is_strictly_positive(job.data.total_in) {
        return Step {
            credential: None,
            log: Some("Consumption is zero value".to_owned()),
            write: None,
            next: Next::Finished(false),
        };
    }
    match cached {
        Some(c) => {
            if c.is_fresh(now) {
                return Step {
                    credential: None,
                    log: None,
                    write: None,
                    next: Next::Submit(job.submit_under(c.token.as_str())),
                };
            }
        },
        None => {},
    }
    Step { credential: Some(CredentialChange::Drop), log: None, write: None, next: Next::AskToken }
}

/// The step of a job that failed with `message`.
fn on_failure(job: &Job, message: String) -> (step: Step)
    ensures
        step@ == failed(*job, message@),
{
    let write: Option<Write> = if job.entry.is_none() {
        Some(Write::Save(false))
    } else {
        None
    };
    Step { credential: None, log: Some(message), write, next: Next::Finished(false) }
}

/// Decides what a job does once the token endpoint has answered. An `Err`
/// is the text of a transport failure.
pub fn on_token(job: &Job, answer: &Result<TokenResponse, String>, now: i64) -> (step: Step)
    ensures
        step@ == token_step(*job, *answer, now),
{
    let granted = match answer {
        Ok(response) => token_from_response(response),
        Err(detail) => Err(network_failure(detail)),
    };
    match granted {
        Ok(token) => {
            let request = job.submit_under(token.as_str());
            Step {
                credential: Some(CredentialChange::Cache(Credential { token, expires_at: expiry(now) })),
                log: None,
                write: None,
                next: Next::Submit(request),
            }
        },
        Err(e) => on_failure(job, e.message()),
    }
}

/// Decides what a job does once the submission endpoint has answered. An
/// `Err` is the text of a transport failure.
pub fn on_submission(job: &Job, answer: &Result<SensorDataResponse, String>) -> (step: Step)
    ensures
        step@ == submission_step(*job, *answer),
{
    let acknowledged = match answer {
        Ok(response) => delivery_result(response),
        Err(detail) => Err(network_failure(detail)),
    };
    match acknowledged {
        Ok(_) => {
            let write: Write = if job.entry.is_none() {
                Write::Save(true)
            } else {
                Write::MarkSynced
            };
            Step { credential: None, log: None, write: Some(write), next: Next::Finished(true) }
        },
        Err(e) => on_failure(job, e.message()),
    }
}

/// Makes the changes of a step in the store, and returns the identifier of
/// the row that the job's reading became, if the step stored it.
pub fn apply(step: &Step, job: &Job, store: &mut Store) -> (stored: Option<i32>)
    requires
        old(store)@.wf(),
    ensures
        final(store)@.wf(),
        final(store)@ == applied(old(store)@, *job, step@),
        stored == (if step@.write is Some && step@.write->0 is Save && old(store)@.next_id < i32::MAX {
            Some(old(store)@.next_id as i32)
        } else {
            None
        }),
{
    match &step.credential {
        None => {},
        Some(CredentialChange::Drop) => clear_token(store),
        Some(CredentialChange::Cache(c)) => update_token(c.token.as_str(), c.expires_at, store),
    }
    match &step.log {
        None => {},
        Some(message) => add_log(message.as_str(), store),
    }
    match step.write {
        None => None,
        Some(Write::Save(synced)) => save_sensor_value(&job.data, synced, job.time, store),
        Some(Write::MarkSynced) => {
            match job.entry {
                Some(id) => mark_data_as_synced(id, store),
                None => {},
            }
            None
        },
    }
}

} // verus!
