use energyleaf_relay::auth::{expiry, get_token, refresh_token, TOKEN_LIFETIME};
use energyleaf_relay::pipeline::{process_data, retry_entry, run, sync_pending, Remote};
use energyleaf_relay::steps::{save_sensor_value, Job};
use energyleaf_relay::reading::{SensorData, ValidationError, POSITIVE_INFINITY_BITS};
use energyleaf_relay::remote::{
    FailureKind, RemoteError, SensorDataRequest, SensorDataResponse, TokenResponse,
    DIGITAL_ELECTRICITY,
};
use energyleaf_relay::store::{
    add_sensor_value, get_credential, get_unsync_entries, update_token, Credential, DBData, Store,
};

fn reading(total_in: f64, total_out: Option<f64>, power_curr: Option<f64>) -> SensorData {
    SensorData {
        total_in: total_in.to_bits(),
        total_out: total_out.map(f64::to_bits),
        power_curr: power_curr.map(f64::to_bits),
    }
}

fn grant(token: &str) -> Result<TokenResponse, String> {
    Ok(TokenResponse { status: 200, status_message: None, access_token: Some(token.to_string()) })
}

fn accept() -> Result<SensorDataResponse, String> {
    Ok(SensorDataResponse { status: 200, status_message: None })
}

fn refuse(status: u32, message: Option<&str>) -> Result<SensorDataResponse, String> {
    Ok(SensorDataResponse { status, status_message: message.map(str::to_string) })
}

fn logs(store: &Store) -> Vec<String> {
    (0..store.log_count()).map(|i| store.log_message(i).unwrap()).collect()
}

#[test]
fn validation_agrees_with_the_comparison_of_the_values() {
    let values = [
        0.0,
        -0.0,
        1.0,
        -1.0,
        120.5,
        f64::MIN_POSITIVE,
        -f64::MIN_POSITIVE,
        5e-324,
        -5e-324,
        f64::MAX,
        f64::MIN,
        f64::INFINITY,
        f64::NEG_INFINITY,
        f64::NAN,
        -f64::NAN,
        f64::EPSILON,
    ];
    for v in values {
        let expected = if v > 0.0 { Ok(()) } else { Err(ValidationError::NotPositive) };
        assert_eq!(reading(v, None, None).validate(), expected, "{}", v);
    }
    assert_eq!(POSITIVE_INFINITY_BITS, f64::INFINITY.to_bits());
    let above = SensorData { total_in: POSITIVE_INFINITY_BITS + 1, total_out: None, power_curr: None };
    assert_eq!(above.validate(), Err(ValidationError::NotPositive));
}

#[test]
fn a_reading_that_is_not_positive_is_logged_and_dropped() {
    for v in [0.0, -3.5, f64::NAN] {
        let mut store = Store::new(10);
        update_token("cached", 50, &mut store);
        let remote = Remote { token: grant("fresh"), submission: accept() };
        let report = process_data(&reading(v, Some(1.0), None), 5, 100, &remote, &mut store);
        assert!(!report.synced);
        assert!(!report.asked_for_token);
        assert_eq!(report.sent, None);
        assert_eq!(report.stored, None);
        assert_eq!(store.row_count(), 0);
        assert_eq!(get_credential(&store), Some(Credential { token: "cached".to_string(), expires_at: 50 }));
        assert_eq!(logs(&store), vec!["Consumption is zero value"]);
    }
}

#[test]
fn delivered_reading_with_a_cached_token() {
    let mut store = Store::new(10);
    update_token("cached", 1_000, &mut store);
    let remote = Remote { token: Err("must not be asked".to_string()), submission: accept() };
    let data = reading(120.5, None, Some(3.2));
    let report = process_data(&data, 400, 500, &remote, &mut store);
    assert!(report.synced);
    assert!(!report.asked_for_token);
    assert_eq!(report.stored, Some(1));
    assert_eq!(
        report.sent,
        Some(SensorDataRequest {
            access_token: "cached".to_string(),
            sensor_type: DIGITAL_ELECTRICITY,
            value: 120.5f64.to_bits(),
            value_out: None,
            value_current: Some(3.2f64.to_bits()),
            timestamp: None,
        })
    );
    assert_eq!(
        store.rows(),
        vec![DBData {
            id: 1,
            timestamp: 400,
            value: 120.5f64.to_bits(),
            value_out: None,
            value_current: Some(3.2f64.to_bits()),
            synced: true
        }]
    );
    assert_eq!(store.log_count(), 0);
    assert_eq!(get_credential(&store), Some(Credential { token: "cached".to_string(), expires_at: 1_000 }));
    assert!(get_unsync_entries(&store).is_empty());
}

#[test]
fn refused_reading_stays_pending_until_a_retry_delivers_it() {
    let mut store = Store::new(10);
    update_token("cached", 10_000, &mut store);
    let down = Remote { token: grant("unused"), submission: refuse(503, Some("service unavailable")) };
    let data = reading(120.5, None, Some(3.2));
    let report = process_data(&data, 400, 500, &down, &mut store);
    assert!(!report.synced);
    assert_eq!(report.stored, Some(1));
    assert!(report.sent.is_some());
    let rows = store.rows();
    assert_eq!(rows.len(), 1);
    assert!(!rows[0].synced);
    assert_eq!(logs(&store), vec!["service unavailable"]);
    assert_eq!(get_unsync_entries(&store), rows);

    let cycle = sync_pending(600, &down, &mut store);
    assert_eq!(cycle.attempted, 1);
    assert_eq!(cycle.delivered, 0);
    assert_eq!(logs(&store), vec!["service unavailable", "service unavailable"]);
    assert_eq!(get_unsync_entries(&store), rows);

    let up = Remote { token: grant("unused"), submission: accept() };
    let cycle = sync_pending(700, &up, &mut store);
    assert_eq!(cycle.attempted, 1);
    assert_eq!(cycle.delivered, 1);
    assert!(get_unsync_entries(&store).is_empty());
    assert_eq!(store.row_count(), 1);
    assert!(store.rows()[0].synced);
    assert_eq!(store.log_count(), 2);

    let cycle = sync_pending(800, &up, &mut store);
    assert_eq!(cycle.attempted, 0);
    assert_eq!(cycle.delivered, 0);
}

#[test]
fn refusal_without_a_message_is_logged_in_general_words() {
    let mut store = Store::new(10);
    update_token("cached", 10_000, &mut store);
    let remote = Remote { token: grant("unused"), submission: refuse(500, None) };
    let report = process_data(&reading(1.0, None, None), 1, 2, &remote, &mut store);
    assert!(!report.synced);
    assert_eq!(logs(&store), vec!["Error sending data"]);
}

#[test]
fn without_a_token_nothing_is_submitted() {
    let mut store = Store::new(10);
    let remote = Remote {
        token: Ok(TokenResponse { status: 401, status_message: Some("unknown device".to_string()), access_token: None }),
        submission: accept(),
    };
    let report = process_data(&reading(2.0, None, None), 1, 2, &remote, &mut store);
    assert!(!report.synced);
    assert!(report.asked_for_token);
    assert_eq!(report.sent, None);
    assert_eq!(report.stored, Some(1));
    assert_eq!(store.rows().len(), 1);
    assert!(!store.rows()[0].synced);
    assert_eq!(logs(&store), vec!["unknown device"]);
    assert_eq!(get_credential(&store), None);
}

#[test]
fn unreachable_service_leaves_the_reading_pending() {
    let mut store = Store::new(10);
    let remote = Remote { token: grant("t"), submission: Err("connection refused".to_string()) };
    let report = process_data(&reading(2.0, None, None), 1, 2, &remote, &mut store);
    assert!(!report.synced);
    assert!(report.asked_for_token);
    assert_eq!(logs(&store), vec!["connection refused"]);
    assert_eq!(get_unsync_entries(&store).len(), 1);
}

#[test]
fn expiry_is_fifty_minutes_after_the_grant() {
    assert_eq!(TOKEN_LIFETIME, 50 * 60 * 1_000_000_000);
    assert_eq!(expiry(1_000), 3_000_000_001_000);
    assert_eq!(expiry(-3_000_000_000_000), 0);
    assert_eq!(expiry(i64::MAX - TOKEN_LIFETIME), i64::MAX);
    assert_eq!(expiry(i64::MAX - TOKEN_LIFETIME + 1), i64::MAX);
    assert_eq!(expiry(i64::MAX), i64::MAX);
    assert_eq!(expiry(i64::MIN), i64::MIN + TOKEN_LIFETIME);
}

#[test]
fn cached_token_is_reused_before_its_expiry() {
    let mut store = Store::new(10);
    update_token("abc", 1_000, &mut store);
    let outcome = get_token(999, &grant("other"), &mut store);
    assert_eq!(outcome.token, Ok("abc".to_string()));
    assert!(!outcome.asked);
    assert_eq!(get_credential(&store), Some(Credential { token: "abc".to_string(), expires_at: 1_000 }));
}

#[test]
fn expired_token_is_replaced_by_one_acquisition() {
    for now in [1_000i64, 1_001, 50_000] {
        let mut store = Store::new(10);
        update_token("abc", 1_000, &mut store);
        let outcome = get_token(now, &grant("fresh"), &mut store);
        assert_eq!(outcome.token, Ok("fresh".to_string()));
        assert!(outcome.asked);
        assert_eq!(
            get_credential(&store),
            Some(Credential { token: "fresh".to_string(), expires_at: now + TOKEN_LIFETIME })
        );
        let again = get_token(now + 1, &Err("must not be asked".to_string()), &mut store);
        assert_eq!(again.token, Ok("fresh".to_string()));
        assert!(!again.asked);
    }
}

#[test]
fn failed_acquisition_caches_nothing() {
    let mut store = Store::new(10);
    update_token("abc", 1_000, &mut store);
    let outcome = get_token(2_000, &Err("timeout".to_string()), &mut store);
    assert_eq!(outcome.token, Err(RemoteError { kind: FailureKind::Network, detail: "timeout".to_string() }));
    assert!(outcome.asked);
    assert_eq!(get_credential(&store), None);
    let refused = Ok(TokenResponse { status: 403, status_message: None, access_token: Some("x".to_string()) });
    assert_eq!(
        refresh_token(&refused, 2_000, &mut store),
        Err(RemoteError { kind: FailureKind::Auth, detail: "Error sending data".to_string() })
    );
    assert_eq!(get_credential(&store), None);
    assert_eq!(refresh_token(&grant("new"), 2_000, &mut store), Ok("new".to_string()));
    assert_eq!(
        get_credential(&store),
        Some(Credential { token: "new".to_string(), expires_at: 2_000 + TOKEN_LIFETIME })
    );
}

#[test]
fn a_retry_carries_the_capture_time() {
    let mut store = Store::new(10);
    add_sensor_value(7.5f64.to_bits(), Some(1.5f64.to_bits()), None, false, 1_234, &mut store).unwrap();
    add_sensor_value(8.5f64.to_bits(), None, None, false, -1, &mut store).unwrap();
    let entries = get_unsync_entries(&store);
    assert_eq!(entries[0].id, 2);
    let remote = Remote { token: grant("tok"), submission: accept() };
    let d = retry_entry(&entries[1], 5_000, &remote, &mut store);
    assert!(d.synced);
    assert_eq!(d.stored, None);
    assert!(d.asked_for_token);
    assert_eq!(
        d.sent,
        Some(SensorDataRequest {
            access_token: "tok".to_string(),
            sensor_type: 1,
            value: 7.5f64.to_bits(),
            value_out: Some(1.5f64.to_bits()),
            value_current: None,
            timestamp: Some(1_234),
        })
    );
    let d = retry_entry(&entries[0], 5_000, &remote, &mut store);
    assert!(!d.asked_for_token);
    assert_eq!(d.sent.unwrap().timestamp, Some(u64::MAX));
    assert!(get_unsync_entries(&store).is_empty());
    assert_eq!(store.row_count(), 2);
}

#[test]
fn a_live_reading_carries_no_time() {
    let mut store = Store::new(10);
    let remote = Remote { token: grant("tok"), submission: refuse(299, None) };
    let job = Job::live(&reading(1.0, None, None), 7);
    let report = run(&job, 10, &remote, &mut store);
    assert!(report.synced);
    assert_eq!(report.sent.unwrap().timestamp, None);
    assert_eq!(report.stored, Some(1));
    assert_eq!(get_credential(&store), Some(Credential { token: "tok".to_string(), expires_at: expiry(10) }));
    let remote = Remote { token: grant("tok"), submission: refuse(300, Some("moved")) };
    let report = run(&job, 10, &remote, &mut store);
    assert!(!report.synced);
    assert!(!report.asked_for_token);
    assert_eq!(logs(&store), vec!["moved"]);
    let states: Vec<bool> = store.rows().iter().map(|r| r.synced).collect();
    assert_eq!(states, vec![true, false]);
}

#[test]
fn a_retry_is_not_checked_again_and_not_stored_again() {
    let mut store = Store::new(10);
    add_sensor_value(0u64, None, None, false, 3, &mut store).unwrap();
    let entries = get_unsync_entries(&store);
    let remote = Remote { token: grant("tok"), submission: accept() };
    let report = retry_entry(&entries[0], 10, &remote, &mut store);
    assert!(report.synced);
    assert_eq!(store.row_count(), 1);
    assert!(store.rows()[0].synced);
    assert_eq!(store.log_count(), 0);
}

#[test]
fn a_cycle_retries_every_pending_reading() {
    let mut store = Store::new(10);
    add_sensor_value(1.0f64.to_bits(), None, None, false, 30, &mut store).unwrap();
    add_sensor_value(2.0f64.to_bits(), None, None, true, 20, &mut store).unwrap();
    add_sensor_value(3.0f64.to_bits(), None, None, false, 10, &mut store).unwrap();
    let down = Remote { token: Err("no route".to_string()), submission: accept() };
    let cycle = sync_pending(100, &down, &mut store);
    assert_eq!((cycle.attempted, cycle.delivered), (2, 0));
    assert_eq!(logs(&store), vec!["no route", "no route"]);
    assert_eq!(get_unsync_entries(&store).len(), 2);
    let up = Remote { token: grant("tok"), submission: accept() };
    let cycle = sync_pending(200, &up, &mut store);
    assert_eq!((cycle.attempted, cycle.delivered), (2, 2));
    assert!(store.rows().iter().all(|r| r.synced));
    assert_eq!(store.row_count(), 3);
    assert_eq!(get_credential(&store), Some(Credential { token: "tok".to_string(), expires_at: expiry(200) }));
}

#[test]
fn a_refused_write_is_logged() {
    let mut store = Store::starting_at(10, i32::MAX);
    let data = reading(1.0, None, None);
    assert_eq!(save_sensor_value(&data, true, 5, &mut store), None);
    assert_eq!(store.row_count(), 0);
    assert_eq!(logs(&store), vec!["No row identifier is left"]);
    let mut store = Store::new(10);
    assert_eq!(save_sensor_value(&data, true, 5, &mut store), Some(1));
    assert_eq!(store.log_count(), 0);
}
