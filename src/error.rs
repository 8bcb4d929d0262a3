use vstd::prelude::*;

verus! {

/// Why a transport connection could not be set up.
#[derive(Debug, Clone, Copy, PartialEq, Eq, Structural)]
pub enum TransportConnectError {
    InvalidConfiguration,
    TcpConnectionFailed,
    DnsError,
    SslError,
    SslFailedHandshake,
    CertError,
    ProxyProtocol,
    ClientAbort,
}

/// An error of the WebSocket protocol itself.
#[derive(Debug, Clone, Copy, PartialEq, Eq, Structural)]
pub enum WebSocketProtocolError {
    ConnectionClosed,
    AlreadyClosed,
    Io,
    Protocol,
    Capacity,
    Utf8,
    Url,
    Http,
}

/// A server's refusal of the connection upgrade: status code, headers as
/// name and value bytes in the order received, and body.
#[derive(Debug, Clone)]
pub struct RejectionResponse {
    pub status: u16,
    pub headers: Vec<(Vec<u8>, Vec<u8>)>,
    pub body: Vec<u8>,
}

/// A WebSocket-level failure, as callers of the chat service see it.
#[derive(Debug)]
pub enum WebSocketServiceError {
    /// A fixed, non-sensitive description.
    Other(&'static str),
    /// The full response of a server that refused the connection.
    Http(RejectionResponse),
    /// A protocol error, passed on unchanged.
    Protocol(WebSocketProtocolError),
}

/// A failure of one attempt to open a WebSocket.
#[derive(Debug, Clone, Copy, PartialEq, Eq, Structural)]
pub enum WebSocketConnectError {
    Transport(TransportConnectError),
    Timeout,
    WebSocketError(WebSocketProtocolError),
}

/// A failure of one attempt to connect to the chat service.
#[derive(Debug)]
pub enum WebSocketServiceConnectError {
    Connect(WebSocketConnectError),
    RejectedByServer { response: RejectionResponse },
}

/// The aggregate outcome of trying every route to the service.
#[derive(Debug)]
pub enum ConnectError<E> {
    NoResolvedRoutes,
    AllAttemptsFailed,
    FatalConnect(E),
}

/// A value, or the note that its deadline passed first.
#[derive(Debug)]
pub enum TimeoutOr<E> {
    Other(E),
    Timeout { attempt_duration_millis: u64 },
}

/// The closed taxonomy of chat service failures.
#[derive(Debug)]
pub enum ChatServiceError {
    /// websocket error
    WebSocket(WebSocketServiceError),
    /// App version too old
    AppExpired,
    /// Device deregistered or delinked
    DeviceDeregistered,
    /// Unexpected text frame received
    UnexpectedFrameReceived,
    /// Request message from the server is missing the `id` field
    ServerRequestMissingId,
    /// Failed while sending a request from the server to the incoming messages channel
    FailedToPassMessageToIncomingChannel,
    /// Failed to decode data received from the server
    IncomingDataInvalid,
    /// Request object must contain only ASCII text as header names and values.
    RequestHasInvalidHeader,
    /// Timeout
    Timeout,
    /// Timed out while establishing connection
    TimeoutEstablishingConnection { attempts: u16 },
    /// All connection routes failed or timed out
    AllConnectionRoutesFailed { attempts: u16 },
    /// Service is inactive
    ServiceInactive,
    /// Service is unavailable due to the lost connection
    ServiceUnavailable,
    /// Service was disconnected by an intentional local call
    ServiceIntentionallyDisconnected,
    /// Service is unavailable now, try again later
    RetryLater { retry_after_seconds: u32 },
}

/// The description under which a transport failure is reported.
pub open spec fn transport_description(e: TransportConnectError) -> &'static str {
    match e {
        TransportConnectError::InvalidConfiguration => "invalid configuration",
        TransportConnectError::TcpConnectionFailed => "TCP connection failed",
        TransportConnectError::DnsError => "DNS error",
        TransportConnectError::SslError => "TLS failure",
        TransportConnectError::SslFailedHandshake => "TLS failure",
        TransportConnectError::CertError => "failed to load certificates",
        TransportConnectError::ProxyProtocol => "proxy protocol error",
        TransportConnectError::ClientAbort => "client abort error",
    }
}

/// Describes a transport failure without any detail of the connection.
pub fn describe_transport_error(e: TransportConnectError) -> (r: &'static str)
    ensures
        r == transport_description(e),
{
    match e {
        TransportConnectError::InvalidConfiguration => "invalid configuration",
        TransportConnectError::TcpConnectionFailed => "TCP connection failed",
        TransportConnectError::DnsError => "DNS error",
        TransportConnectError::SslError => "TLS failure",
        TransportConnectError::SslFailedHandshake => "TLS failure",
        TransportConnectError::CertError => "failed to load certificates",
        TransportConnectError::ProxyProtocol => "proxy protocol error",
        TransportConnectError::ClientAbort => "client abort error",
    }
}


/// The header name `retry-after`, in lower case.
pub open spec fn retry_after_name() -> Seq<u8> {
    seq![114u8, 101u8, 116u8, 114u8, 121u8, 45u8, 97u8, 102u8, 116u8, 101u8, 114u8]
}

/// An ASCII letter in lower case; any other byte unchanged.
pub open spec fn ascii_lower(b: u8) -> u8 {
    if 65 <= b <= 90 {
        (b + 32) as u8
    } else {
        b
    }
}

/// The header name is `retry-after` in any mix of ASCII case.
pub open spec fn is_retry_after_name(name: Seq<u8>) -> bool {
    &&& name.len() == retry_after_name().len()
    &&& forall|i: int| 0 <= i < name.len() ==> ascii_lower(#[trigger] name[i]) == retry_after_name()[i]
}

/// The value of the first `Retry-After` header, if there is one.
pub open spec fn first_retry_after(headers: Seq<(Vec<u8>, Vec<u8>)>) -> Option<Seq<u8>>
    decreases headers.len(),
{
    if headers.len() == 0 {
        None
    } else if is_retry_after_name(headers[0].0@) {
        Some(headers[0].1@)
    } else {
        first_retry_after(headers.skip(1))
    }
}

pub open spec fn is_ascii_digit(b: u8) -> bool {
    48 <= b <= 57
}

/// The number that a string of decimal digits stands for.
pub open spec fn digits_value(digits: Seq<u8>) -> nat
    decreases digits.len(),
{
    if digits.len() == 0 {
        0
    } else {
        digits_value(digits.drop_last()) * 10 + (digits.last() - 48) as nat
    }
}

/// The digits of a decimal number, after an optional leading `+`.
pub open spec fn unsigned_digits(text: Seq<u8>) -> Seq<u8> {
    if text.len() > 0 && text[0] == 43 {
        text.skip(1)
    } else {
        text
    }
}

/// The number of seconds that a header value states: one or more decimal
/// digits, optionally after `+`, for a value that fits in a `u32`.
pub open spec fn parse_seconds(text: Seq<u8>) -> Option<u32> {
    let d = unsigned_digits(text);
    if d.len() > 0 && (forall|i: int| 0 <= i < d.len() ==> is_ascii_digit(#[trigger] d[i]))
        && digits_value(d) <= u32::MAX {
        Some(digits_value(d) as u32)
    } else {
        None
    }
}

/// The wait that the headers ask for: the first `Retry-After` value, where it
/// is a valid number of seconds. A malformed value counts as absent.
pub open spec fn retry_after_seconds(headers: Seq<(Vec<u8>, Vec<u8>)>) -> Option<u32> {
    match first_retry_after(headers) {
        Some(v) => parse_seconds(v),
        None => None,
    }
}

/// Tells whether a header name is `retry-after`, ignoring ASCII case.
pub fn names_retry_after(name: &Vec<u8>) -> (r: bool)
    ensures
        r == is_retry_after_name(name@),
{
    let expected: Vec<u8> = vec![114u8, 101u8, 116u8, 114u8, 121u8, 45u8, 97u8, 102u8, 116u8, 101u8, 114u8];
    assert(expected@ =~= retry_after_name());
    if name.len() != expected.len() {
        return false;
    }
    let mut i: usize = 0;
    while i < name.len()
        invariant
            name@.len() == expected@.len(),
            expected@ == retry_after_name(),
            0 <= i <= name.len(),
            forall|j: int| 0 <= j < i ==> ascii_lower(#[trigger] name@[j]) == retry_after_name()[j],
        decreases name.len() - i,
    {
        let b = name[i];
        let lower = if 65 <= b && b <= 90 {
            b + 32
        } else {
            b
        };
        if lower != expected[i] {
            assert(ascii_lower(name@[i as int]) != retry_after_name()[i as int]);
            return false;
        }
        i = i + 1;
    }
    true
}

/// Reads a header value as a number of seconds; `None` where it is not one
/// or does not fit in a `u32`.
pub fn parse_retry_after(text: &Vec<u8>) -> (r: Option<u32>)
    ensures
        r == parse_seconds(text@),
{
    let start: usize = if text.len() > 0 && text[0] == 43 {
        1
    } else {
        0
    };
    let ghost d = unsigned_digits(text@);
    assert(d =~= text@.skip(start as int));
    if start >= text.len() {
        return None;
    }
    let mut value: u64 = 0;
    let mut overflow: bool = false;
    let mut i: usize = start;
    while i < text.len()
        invariant
            d == text@.skip(start as int),
            d == unsigned_digits(text@),
            start <= i <= text.len(),
            forall|j: int| start <= j < i ==> is_ascii_digit(#[trigger] text@[j]),
            overflow ==> digits_value(d.take(i - start)) > u32::MAX,
            !overflow ==> value == digits_value(d.take(i - start)) && value <= u32::MAX,
        decreases text.len() - i,
    {
        let b = text[i];
        if b < 48 || b > 57 {
            assert(d[i - start] == text@[i as int]);
            assert(!is_ascii_digit(d[i - start]));
            return None;
        }
        let ghost prev = d.take(i - start);
        let ghost next = d.take(i - start + 1);
        assert(next.drop_last() =~= prev);
        assert(digits_value(next) == digits_value(prev) * 10 + (b - 48) as nat);
        if !overflow {
            let candidate: u64 = value * 10 + (b - 48) as u64;
            if candidate > 4294967295u64 {
                overflow = true;
            } else {
                value = candidate;
            }
        } else {
            assert(digits_value(next) >= digits_value(prev)) by (nonlinear_arith)
                requires
                    digits_value(next) == digits_value(prev) * 10 + (b - 48) as nat,
            ;
        }
        i = i + 1;
    }
    assert(d.take(i - start) =~= d);
    assert forall|j: int| 0 <= j < d.len() implies is_ascii_digit(#[trigger] d[j]) by {
        assert(d[j] == text@[j + start]);
    }
    if overflow {
        None
    } else {
        Some(value as u32)
    }
}

/// Looks up the first `Retry-After` header and reads it as seconds.
pub fn extract_retry_after_seconds(headers: &Vec<(Vec<u8>, Vec<u8>)>) -> (r: Option<u32>)
    ensures
        r == retry_after_seconds(headers@),
{
    let mut i: usize = 0;
    assert(headers@.skip(0) =~= headers@);
    while i < headers.len()
        invariant
            0 <= i <= headers.len(),
            first_retry_after(headers@) == first_retry_after(headers@.skip(i as int)),
        decreases headers.len() - i,
    {
        assert(headers@.skip(i as int).skip(1) =~= headers@.skip(i + 1));
        assert(headers@.skip(i as int)[0] == headers@[i as int]);
        if names_retry_after(&headers[i].0) {
            return parse_retry_after(&headers[i].1);
        }
        i = i + 1;
    }
    None
}


/// What a server's refusal means to callers: a `Retry-After` wait first,
/// then the status codes with a meaning of their own, else the response.
pub open spec fn rejection_class(response: RejectionResponse) -> ChatServiceError {
    match retry_after_seconds(response.headers@) {
        Some(seconds) => ChatServiceError::RetryLater { retry_after_seconds: seconds },
        None => if response.status == 499 {
            ChatServiceError::AppExpired
        } else if response.status == 403 {
            ChatServiceError::DeviceDeregistered
        } else {
            ChatServiceError::WebSocket(WebSocketServiceError::Http(response))
        },
    }
}

/// What a failed attempt to open a WebSocket means to callers.
pub open spec fn connect_failure_class(e: WebSocketConnectError) -> ChatServiceError {
    match e {
        WebSocketConnectError::Transport(t) => ChatServiceError::WebSocket(
            WebSocketServiceError::Other(transport_description(t)),
        ),
        WebSocketConnectError::Timeout => ChatServiceError::Timeout,
        WebSocketConnectError::WebSocketError(p) => ChatServiceError::WebSocket(
            WebSocketServiceError::Protocol(p),
        ),
    }
}

/// What a failed attempt to connect to the chat service means to callers.
pub open spec fn service_connect_class(e: WebSocketServiceConnectError) -> ChatServiceError {
    match e {
        WebSocketServiceConnectError::Connect(c) => connect_failure_class(c),
        WebSocketServiceConnectError::RejectedByServer { response } => rejection_class(response),
    }
}

/// What the outcome of one logical connection attempt means to callers.
pub open spec fn single_attempt_class(
    e: TimeoutOr<ConnectError<WebSocketServiceConnectError>>,
) -> ChatServiceError {
    match e {
        TimeoutOr::Other(ConnectError::NoResolvedRoutes) => ChatServiceError::AllConnectionRoutesFailed {
            attempts: 0,
        },
        TimeoutOr::Other(ConnectError::AllAttemptsFailed) => ChatServiceError::AllConnectionRoutesFailed {
            attempts: 1,
        },
        TimeoutOr::Other(ConnectError::FatalConnect(err)) => service_connect_class(err),
        TimeoutOr::Timeout { .. } => ChatServiceError::TimeoutEstablishingConnection {
            attempts: 1,
        },
    }
}

/// Classifies a server's refusal of the connection upgrade.
pub fn classify_rejection(response: RejectionResponse) -> (r: ChatServiceError)
    ensures
        r == rejection_class(response),
{
    match extract_retry_after_seconds(&response.headers) {
        Some(seconds) => ChatServiceError::RetryLater { retry_after_seconds: seconds },
        None => if response.status == 499 {
            ChatServiceError::AppExpired
        } else if response.status == 403 {
            // Only identified sockets are deregistered, but the server is not
            // expected to refuse any other socket with this status.
            ChatServiceError::DeviceDeregistered
        } else {
            ChatServiceError::WebSocket(WebSocketServiceError::Http(response))
        },
    }
}

/// Classifies a failed attempt to open a WebSocket.
pub fn classify_connect_failure(e: WebSocketConnectError) -> (r: ChatServiceError)
    ensures
        r == connect_failure_class(e),
{
    match e {
        WebSocketConnectError::Transport(t) => ChatServiceError::WebSocket(
            WebSocketServiceError::Other(describe_transport_error(t)),
        ),
        WebSocketConnectError::Timeout => ChatServiceError::Timeout,
        WebSocketConnectError::WebSocketError(p) => ChatServiceError::WebSocket(
            WebSocketServiceError::Protocol(p),
        ),
    }
}

impl From<WebSocketServiceConnectError> for ChatServiceError {
    fn from(e: WebSocketServiceConnectError) -> (r: ChatServiceError) {
        match e {
            WebSocketServiceConnectError::Connect(c) => classify_connect_failure(c),
            WebSocketServiceConnectError::RejectedByServer { response } => classify_rejection(
                response,
            ),
        }
    }
}

impl vstd::std_specs::convert::FromSpecImpl<WebSocketServiceConnectError> for ChatServiceError {
    open spec fn obeys_from_spec() -> bool {
        true
    }

    open spec fn from_spec(e: WebSocketServiceConnectError) -> ChatServiceError {
        service_connect_class(e)
    }
}

impl ChatServiceError {
    /// Classifies the outcome of one logical connection attempt over all
    /// routes. No route at all counts as zero attempts, so that a caller can
    /// fall back at once; a failure after trying counts as one.
    pub fn from_single_connect_error(
        e: TimeoutOr<ConnectError<WebSocketServiceConnectError>>,
    ) -> (r: Self)
        ensures
            r == single_attempt_class(e),
    {
        match e {
            TimeoutOr::Other(ConnectError::NoResolvedRoutes) => {
                ChatServiceError::AllConnectionRoutesFailed { attempts: 0 }
            },
            TimeoutOr::Other(ConnectError::AllAttemptsFailed) => {
                ChatServiceError::AllConnectionRoutesFailed { attempts: 1 }
            },
            TimeoutOr::Other(ConnectError::FatalConnect(err)) => ChatServiceError::from(err),
            TimeoutOr::Timeout { .. } => ChatServiceError::TimeoutEstablishingConnection {
                attempts: 1,
            },
        }
    }
}

/// A valid `Retry-After` header decides the classification whatever the
/// status code, 499 and 403 included: the caller is told to retry after
/// exactly that many seconds.
pub proof fn lemma_retry_after_takes_precedence(response: RejectionResponse, seconds: u32)
    requires
        first_retry_after(response.headers@) matches Some(v) && parse_seconds(v) == Some(seconds),
    ensures
        rejection_class(response) == (ChatServiceError::RetryLater { retry_after_seconds: seconds }),
{
}

/// Without a valid `Retry-After` header, status 499 means the app is too old,
/// 403 that the device is deregistered, and any other status hands the
/// response on with its status unchanged.
pub proof fn lemma_status_classification(response: RejectionResponse)
    requires
        retry_after_seconds(response.headers@) is None,
    ensures
        response.status == 499 ==> rejection_class(response) == ChatServiceError::AppExpired,
        response.status == 403 ==> rejection_class(response) == ChatServiceError::DeviceDeregistered,
        response.status != 499 && response.status != 403 ==> (rejection_class(response) matches
            ChatServiceError::WebSocket(WebSocketServiceError::Http(r)) && r.status == response.status),
{
}

} // verus!
