use energyleaf_relay::auth::TOKEN_LIFETIME;
use energyleaf_relay::reading::SensorData;
use energyleaf_relay::remote::{SensorDataRequest, SensorDataResponse, TokenResponse};
use energyleaf_relay::steps::{apply, on_arrival, on_submission, on_token, CredentialChange, Job, Next, Step, Write};
use energyleaf_relay::store::{
    add_sensor_value, get_credential, update_token, Credential, DBData, Store,
};

fn live(value: f64) -> Job {
    Job::live(&SensorData { total_in: value.to_bits(), total_out: None, power_curr: Some(3.2f64.to_bits()) }, 400)
}

fn pending() -> Job {
    Job::retry(&DBData {
        id: 9,
        timestamp: 400,
        value: 120.5f64.to_bits(),
        value_out: None,
        value_current: Some(3.2f64.to_bits()),
        synced: false,
    })
}

fn request(token: &str, timestamp: Option<u64>) -> SensorDataRequest {
    SensorDataRequest {
        access_token: token.to_string(),
        sensor_type: 1,
        value: 120.5f64.to_bits(),
        value_out: None,
        value_current: Some(3.2f64.to_bits()),
        timestamp,
    }
}

fn credential(token: &str, expires_at: i64) -> Option<Credential> {
    Some(Credential { token: token.to_string(), expires_at })
}

#[test]
fn jobs_are_made_of_readings_and_rows() {
    let job = pending();
    assert_eq!(job.entry, Some(9));
    assert_eq!(job.time, 400);
    assert_eq!(job.data, live(120.5).data);
    assert_eq!(live(120.5).entry, None);
    assert_eq!(job.submit_under("t"), request("t", Some(400)));
    assert_eq!(live(120.5).submit_under("t"), request("t", None));
}

#[test]
fn arrival_refuses_what_is_not_positive() {
    let step = on_arrival(&live(0.0), &credential("tok", 1_000), 500);
    assert_eq!(
        step,
        Step {
            credential: None,
            log: Some("Consumption is zero value".to_string()),
            write: None,
            next: Next::Finished(false)
        }
    );
}

#[test]
fn arrival_under_a_fresh_token_submits() {
    let step = on_arrival(&live(120.5), &credential("tok", 1_000), 999);
    assert_eq!(step, Step { credential: None, log: None, write: None, next: Next::Submit(request("tok", None)) });
    let step = on_arrival(&pending(), &credential("tok", 1_000), 999);
    assert_eq!(step.next, Next::Submit(request("tok", Some(400))));
}

#[test]
fn arrival_without_a_fresh_token_asks_for_one() {
    let ask = Step { credential: Some(CredentialChange::Drop), log: None, write: None, next: Next::AskToken };
    assert_eq!(on_arrival(&live(120.5), &credential("tok", 1_000), 1_000), ask);
    assert_eq!(on_arrival(&live(120.5), &credential("tok", 1_000), 1_001), ask);
    assert_eq!(on_arrival(&live(120.5), &None, 0), ask);
    assert_eq!(on_arrival(&pending(), &None, 0), ask);
}

#[test]
fn a_granted_token_is_cached_and_used() {
    let answer = Ok(TokenResponse { status: 200, status_message: None, access_token: Some("new".to_string()) });
    let step = on_token(&live(120.5), &answer, 1_000);
    assert_eq!(
        step,
        Step {
            credential: Some(CredentialChange::Cache(Credential {
                token: "new".to_string(),
                expires_at: 1_000 + TOKEN_LIFETIME
            })),
            log: None,
            write: None,
            next: Next::Submit(request("new", None)),
        }
    );
}

#[test]
fn a_refused_token_ends_the_job() {
    let answer = Ok(TokenResponse { status: 401, status_message: Some("no".to_string()), access_token: None });
    assert_eq!(
        on_token(&live(120.5), &answer, 1_000),
        Step { credential: None, log: Some("no".to_string()), write: Some(Write::Save(false)), next: Next::Finished(false) }
    );
    assert_eq!(
        on_token(&pending(), &Err("timeout".to_string()), 1_000),
        Step { credential: None, log: Some("timeout".to_string()), write: None, next: Next::Finished(false) }
    );
}

#[test]
fn an_acknowledged_reading_is_stored_or_marked() {
    let answer = Ok(SensorDataResponse { status: 200, status_message: None });
    assert_eq!(
        on_submission(&live(120.5), &answer),
        Step { credential: None, log: None, write: Some(Write::Save(true)), next: Next::Finished(true) }
    );
    assert_eq!(
        on_submission(&pending(), &answer),
        Step { credential: None, log: None, write: Some(Write::MarkSynced), next: Next::Finished(true) }
    );
}

#[test]
fn a_refused_reading_is_logged() {
    let answer = Ok(SensorDataResponse { status: 503, status_message: Some("busy".to_string()) });
    assert_eq!(
        on_submission(&live(120.5), &answer),
        Step { credential: None, log: Some("busy".to_string()), write: Some(Write::Save(false)), next: Next::Finished(false) }
    );
    assert_eq!(
        on_submission(&pending(), &Err("reset".to_string())),
        Step { credential: None, log: Some("reset".to_string()), write: None, next: Next::Finished(false) }
    );
}

#[test]
fn a_step_changes_the_store_in_order() {
    let mut store = Store::new(10);
    update_token("old", 5, &mut store);
    let step = Step {
        credential: Some(CredentialChange::Cache(Credential { token: "new".to_string(), expires_at: 9 })),
        log: Some("note".to_string()),
        write: Some(Write::Save(true)),
        next: Next::Finished(true),
    };
    assert_eq!(apply(&step, &live(120.5), &mut store), Some(1));
    assert_eq!(get_credential(&store), credential("new", 9));
    assert_eq!(store.log_message(0), Some("note".to_string()));
    assert_eq!(store.rows().len(), 1);
    assert!(store.rows()[0].synced);
    assert_eq!(store.rows()[0].timestamp, 400);

    let drop = Step { credential: Some(CredentialChange::Drop), log: None, write: None, next: Next::AskToken };
    assert_eq!(apply(&drop, &live(120.5), &mut store), None);
    assert_eq!(get_credential(&store), None);
    assert_eq!(store.log_count(), 1);
    assert_eq!(store.row_count(), 1);
}

#[test]
fn marking_reaches_the_row_of_the_job() {
    let mut store = Store::starting_at(10, 9);
    add_sensor_value(120.5f64.to_bits(), None, None, false, 400, &mut store).unwrap();
    add_sensor_value(1.5f64.to_bits(), None, None, false, 401, &mut store).unwrap();
    let mark = Step { credential: None, log: None, write: Some(Write::MarkSynced), next: Next::Finished(true) };
    assert_eq!(apply(&mark, &pending(), &mut store), None);
    let states: Vec<(i32, bool)> = store.rows().iter().map(|r| (r.id, r.synced)).collect();
    assert_eq!(states, vec![(9, true), (10, false)]);
    assert_eq!(apply(&mark, &live(120.5), &mut store), None);
    let states: Vec<(i32, bool)> = store.rows().iter().map(|r| (r.id, r.synced)).collect();
    assert_eq!(states, vec![(9, true), (10, false)]);
}
