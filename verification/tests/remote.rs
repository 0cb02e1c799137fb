use energyleaf_relay::remote::{
    delivery_result, get_client_id, network_failure, sensor_data_request, token_from_response,
    token_request, FailureKind, RemoteError, SensorDataRequest, SensorDataResponse, TokenRequest,
    TokenResponse,
};

fn token_response(status: u32, message: Option<&str>, token: Option<&str>) -> TokenResponse {
    TokenResponse {
        status,
        status_message: message.map(str::to_string),
        access_token: token.map(str::to_string),
    }
}

#[test]
fn token_request_names_the_device() {
    assert_eq!(
        token_request("AA:BB:CC:DD:EE:FF"),
        TokenRequest { client_id: "AA:BB:CC:DD:EE:FF".to_string(), sensor_type: 1, need_script: Some(false) }
    );
}

#[test]
fn success_range_grants_the_token() {
    for status in [200u32, 201, 250, 299] {
        assert_eq!(token_from_response(&token_response(status, Some("ignored"), Some("tok"))), Ok("tok".to_string()));
    }
    assert_eq!(token_from_response(&token_response(204, None, None)), Ok(String::new()));
}

#[test]
fn other_statuses_are_authentication_failures() {
    for status in [0u32, 199, 300, 401, 503, u32::MAX] {
        assert_eq!(
            token_from_response(&token_response(status, Some("denied"), Some("tok"))),
            Err(RemoteError { kind: FailureKind::Auth, detail: "denied".to_string() })
        );
        assert_eq!(
            token_from_response(&token_response(status, None, Some("tok"))),
            Err(RemoteError { kind: FailureKind::Auth, detail: "Error sending data".to_string() })
        );
    }
}

#[test]
fn submission_responses_are_read_by_their_status() {
    for status in [200u32, 299] {
        assert_eq!(delivery_result(&SensorDataResponse { status, status_message: Some("fine".to_string()) }), Ok(()));
    }
    for status in [199u32, 300, 503] {
        assert_eq!(
            delivery_result(&SensorDataResponse { status, status_message: Some("busy".to_string()) }),
            Err(RemoteError { kind: FailureKind::Delivery, detail: "busy".to_string() })
        );
        assert_eq!(
            delivery_result(&SensorDataResponse { status, status_message: None }),
            Err(RemoteError { kind: FailureKind::Delivery, detail: "Error sending data".to_string() })
        );
    }
}

#[test]
fn submission_is_built_from_the_reading() {
    assert_eq!(
        sensor_data_request(120.5f64.to_bits(), None, Some(3.2f64.to_bits()), None, "tok"),
        SensorDataRequest {
            access_token: "tok".to_string(),
            sensor_type: 1,
            value: 120.5f64.to_bits(),
            value_out: None,
            value_current: Some(3.2f64.to_bits()),
            timestamp: None,
        }
    );
    let late = sensor_data_request(1.0f64.to_bits(), Some(2.0f64.to_bits()), None, Some(1_662_921_288_000_000_000), "");
    assert_eq!(late.timestamp, Some(1_662_921_288_000_000_000));
    assert_eq!(late.value_out, Some(2.0f64.to_bits()));
    let early = sensor_data_request(1.0f64.to_bits(), None, None, Some(-2), "tok");
    assert_eq!(early.timestamp, Some(u64::MAX - 1));
}

#[test]
fn failures_carry_their_text() {
    let e = network_failure(&"timed out".to_string());
    assert_eq!(e, RemoteError { kind: FailureKind::Network, detail: "timed out".to_string() });
    assert_eq!(e.message(), "timed out");
}

#[test]
fn client_id_is_the_hardware_address() {
    assert_eq!(get_client_id(Some([0xAA, 0xBB, 0xCC, 0xDD, 0xEE, 0xFF])), Ok("AA:BB:CC:DD:EE:FF".to_string()));
    assert_eq!(get_client_id(Some([0x00, 0x0A, 0x10, 0x9F, 0xA0, 0x01])), Ok("00:0A:10:9F:A0:01".to_string()));
    assert_eq!(get_client_id(Some([0x80, 0xFA, 0x5B, 0x41, 0x10, 0x6B])), Ok("80:FA:5B:41:10:6B".to_string()));
    assert_eq!(
        get_client_id(None),
        Err(RemoteError { kind: FailureKind::Auth, detail: "Could not get a mac address".to_string() })
    );
}
