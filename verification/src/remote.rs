//! The two remote operations as plain values: what is sent to the collection
//! service, what it answers, and which answers count as success.
use vstd::prelude::*;

verus! {

/// The sensor type that every request of this agent names: a digital
/// electricity meter.
pub const DIGITAL_ELECTRICITY: i32 = 1;

/// Whether a response status is in the success range.
pub open spec fn is_success(status: u32) -> bool {
    200 <= status <= 299
}

/// The detail of a failure for which the service gave no message.
pub open spec fn generic_detail() -> Seq<char> {
    "Error sending data"@
}

/// The detail of a refusal: the service's message where it sent one.
pub open spec fn refusal_detail(status_message: Option<String>) -> Seq<char> {
    match status_message {
        Some(m) => m@,
        None => generic_detail(),
    }
}

/// The kinds of failure of a remote operation.
#[derive(Clone, Copy, Debug, PartialEq, Eq, Structural)]
pub enum FailureKind {
    /// The service could not be reached or its answer could not be read.
    Network,
    /// The service refused to hand out a token.
    Auth,
    /// The service refused a reading.
    Delivery,
}

/// A failed remote operation.
#[derive(Debug, PartialEq, Eq)]
pub struct RemoteError {
    pub kind: FailureKind,
    pub detail: String,
}

impl View for RemoteError {
    type V = (FailureKind, Seq<char>);

    open spec fn view(&self) -> (FailureKind, Seq<char>) {
        (self.kind, self.detail@)
    }
}

impl RemoteError {
    /// The text that goes to the diagnostic log.
    pub fn message(&self) -> (m: String)
        ensures
            m@ == self@.1,
    {
        self.detail.clone()
    }
}

/// The request for an access token.
#[derive(Debug, PartialEq, Eq)]
pub struct TokenRequest {
    pub client_id: String,
    pub sensor_type: i32,
    pub need_script: Option<bool>,
}

/// The service's answer to a token request.
#[derive(Debug, PartialEq, Eq)]
pub struct TokenResponse {
    pub status: u32,
    pub status_message: Option<String>,
    pub access_token: Option<String>,
}

/// The submission of one reading.
#[derive(Debug, PartialEq, Eq)]
pub struct SensorDataRequest {
    pub access_token: String,
    pub sensor_type: i32,
    /// Energy drawn from the grid, as a binary64 bit pattern.
    pub value: u64,
    pub value_out: Option<u64>,
    pub value_current: Option<u64>,
    /// The capture time in nanoseconds, present only for a reading that is
    /// submitted after the fact.
    pub timestamp: Option<u64>,
}

/// What a submission holds, with its text as a sequence.
pub struct SensorDataRequestView {
    pub access_token: Seq<char>,
    pub sensor_type: i32,
    pub value: u64,
    pub value_out: Option<u64>,
    pub value_current: Option<u64>,
    pub timestamp: Option<u64>,
}

impl View for SensorDataRequest {
    type V = SensorDataRequestView;

    open spec fn view(&self) -> SensorDataRequestView {
        SensorDataRequestView {
            access_token: self.access_token@,
            sensor_type: self.sensor_type,
            value: self.value,
            value_out: self.value_out,
            value_current: self.value_current,
            timestamp: self.timestamp,
        }
    }
}

/// The service's answer to a submission.
#[derive(Debug, PartialEq, Eq)]
pub struct SensorDataResponse {
    pub status: u32,
    pub status_message: Option<String>,
}

/// The capture time as the wire carries it: the nanoseconds as an unsigned
/// number of the same 64 bits.
pub open spec fn wire_timestamp(timestamp: Option<i64>) -> Option<u64> {
    match timestamp {
        Some(t) => Some(t as u64),
        None => None,
    }
}

/// The submission for a reading.
pub open spec fn submission(
    token: Seq<char>,
    value_in: u64,
    value_out: Option<u64>,
    value_current: Option<u64>,
    timestamp: Option<i64>,
) -> SensorDataRequestView {
    SensorDataRequestView {
        access_token: token,
        sensor_type: DIGITAL_ELECTRICITY,
        value: value_in,
        value_out,
        value_current,
        timestamp: wire_timestamp(timestamp),
    }
}

/// The token that a successful response grants: the empty one where the
/// service sent none.
pub open spec fn granted_token(response: TokenResponse) -> Seq<char> {
    match response.access_token {
        Some(t) => t@,
        None => Seq::empty(),
    }
}

/// What the failure says where the device has no hardware address.
pub open spec fn no_address_detail() -> Seq<char> {
    "Could not get a mac address"@
}

/// The upper-case hexadecimal digit of `n`.
pub open spec fn hex_digit(n: int) -> char {
    seq!['0', '1', '2', '3', '4', '5', '6', '7', '8', '9', 'A', 'B', 'C', 'D', 'E', 'F'][n]
}

/// A hardware address as text: its six bytes, each as two upper-case
/// hexadecimal digits, with a colon between one byte and the next.
pub open spec fn address_text(bytes: Seq<u8>) -> Seq<char> {
    Seq::new(
        17,
        |i: int|
            if i % 3 == 2 {
                ':'
            } else if i % 3 == 0 {
                hex_digit(bytes[i / 3] as int / 16)
            } else {
                hex_digit(bytes[i / 3] as int % 16)
            },
    )
}

/// Calls the `Display` of `mac_address::MacAddress` on the address that
/// `MacAddress::new` makes of `bytes`. The contract claims that it writes
/// each byte as two upper-case hexadecimal digits, a zero first where the
/// byte is below sixteen, and a colon between the bytes.
#[verifier::external_body]
fn format_address(bytes: [u8; 6]) -> (text: String)
    ensures
        text@ == address_text(bytes@),
{
    mac_address::MacAddress::new(bytes).to_string()
}

/// The client identifier of a device: the text of its hardware address.
/// A device without one cannot ask for a token.
pub fn get_client_id(address: Option<[u8; 6]>) -> (r: Result<String, RemoteError>)
    ensures
        address is Some ==> r is Ok && r->Ok_0@ == address_text(address->0@),
        address is None ==> r is Err && r->Err_0@ == (FailureKind::Auth, no_address_detail()),
{
    match address {
        Some(bytes) => Ok(format_address(bytes)),
        None => Err(RemoteError { kind: FailureKind::Auth, detail: "Could not get a mac address".to_owned() }),
    }
}

/// The token request of the device `client_id`.
pub fn token_request(client_id: &str) -> (r: TokenRequest)
    ensures
        r.client_id@ == client_id@,
        r.sensor_type == DIGITAL_ELECTRICITY,
        r.need_script == Some(false),
{
    TokenRequest { client_id: client_id.to_owned(), sensor_type: DIGITAL_ELECTRICITY, need_script: Some(false) }
}

/// The submission of a reading under `token`. `timestamp` is the capture
/// time of a reading that is submitted after the fact, and absent for a
/// live one.
pub fn sensor_data_request(
    value_in: u64,
    value_out: Option<u64>,
    value_current: Option<u64>,
    timestamp: Option<i64>,
    token: &str,
) -> (r: SensorDataRequest)
    ensures
        r@ == submission(token@, value_in, value_out, value_current, timestamp),
{
    let wire: Option<u64> = match timestamp {
        Some(t) => Some(t as u64),
        None => None,
    };
    SensorDataRequest {
        access_token: token.to_owned(),
        sensor_type: DIGITAL_ELECTRICITY,
        value: value_in,
        value_out,
        value_current,
        timestamp: wire,
    }
}

/// The failure that a refusal with `status_message` stands for.
fn refusal(kind: FailureKind, status_message: &Option<String>) -> (e: RemoteError)
    ensures
        e@ == (kind, refusal_detail(*status_message)),
{
    let detail: String = match status_message {
        Some(m) => m.clone(),
        None => "Error sending data".to_owned(),
    };
    RemoteError { kind, detail }
}

/// Reads a token response: a status in the success range grants the token,
/// any other is an authentication failure with the service's message.
pub fn token_from_response(response: &TokenResponse) -> (r: Result<String, RemoteError>)
    ensures
        is_success(response.status) ==> r is Ok && r->Ok_0@ == granted_token(*response),
        !is_success(response.status) ==> r is Err && r->Err_0@ == (
            FailureKind::Auth,
            refusal_detail(response.status_message),
        ),
{
    if 200 <= response.status && response.status <= 299 {
        match &response.access_token {
            Some(t) => Ok(t.clone()),
            None => Ok(String::new()),
        }
    } else {
        Err(refusal(FailureKind::Auth, &response.status_message))
    }
}

/// Reads a submission response: a status in the success range acknowledges
/// the reading, any other is a delivery failure with the service's message.
pub fn delivery_result(response: &SensorDataResponse) -> (r: Result<(), RemoteError>)
    ensures
        r is Ok <==> is_success(response.status),
        r is Err ==> r->Err_0@ == (FailureKind::Delivery, refusal_detail(response.status_message)),
{
    if 200 <= response.status && response.status <= 299 {
        Ok(())
    } else {
        Err(refusal(FailureKind::Delivery, &response.status_message))
    }
}

/// The failure that an unreachable service stands for.
pub fn network_failure(detail: &String) -> (e: RemoteError)
    ensures
        e@ == (FailureKind::Network, detail@),
{
    RemoteError { kind: FailureKind::Network, detail: detail.clone() }
}

} // verus!
