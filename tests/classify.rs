use chat_connect::certs::{
    alert_for_failure, handshake_verdict, prepare_chain, CertificateFailure, Error,
    HandshakeAlert, RootCertificates, TrustPolicy, VerifyFailure,
};
use chat_connect::error::{
    classify_rejection, describe_transport_error, extract_retry_after_seconds,
    names_retry_after, parse_retry_after, ChatServiceError, ConnectError, RejectionResponse,
    TimeoutOr, TransportConnectError, WebSocketConnectError, WebSocketProtocolError,
    WebSocketServiceConnectError, WebSocketServiceError,
};

fn header(name: &str, value: &str) -> (Vec<u8>, Vec<u8>) {
    (name.as_bytes().to_vec(), value.as_bytes().to_vec())
}

fn response(status: u16, headers: Vec<(Vec<u8>, Vec<u8>)>) -> RejectionResponse {
    RejectionResponse {
        status,
        headers,
        body: b"body".to_vec(),
    }
}

fn retry_after_of(e: &ChatServiceError) -> Option<u32> {
    match e {
        ChatServiceError::RetryLater {
            retry_after_seconds,
        } => Some(*retry_after_seconds),
        _ => None,
    }
}

#[test]
fn retry_after_overrides_deregistration() {
    let r = classify_rejection(response(403, vec![header("Retry-After", "30")]));
    assert_eq!(retry_after_of(&r), Some(30));
}

#[test]
fn retry_after_overrides_app_expired() {
    let r = classify_rejection(response(499, vec![header("retry-after", "0")]));
    assert_eq!(retry_after_of(&r), Some(0));
}

#[test]
fn retry_after_on_other_status() {
    let r = classify_rejection(response(
        500,
        vec![header("Content-Type", "text/plain"), header("RETRY-AFTER", "4294967295")],
    ));
    assert_eq!(retry_after_of(&r), Some(4294967295));
}

#[test]
fn status_499_is_app_expired() {
    let r = classify_rejection(response(499, vec![]));
    assert!(matches!(r, ChatServiceError::AppExpired));
}

#[test]
fn status_403_is_device_deregistered() {
    let r = classify_rejection(response(403, vec![header("X-Other", "1")]));
    assert!(matches!(r, ChatServiceError::DeviceDeregistered));
}

#[test]
fn other_status_keeps_response() {
    let r = classify_rejection(response(500, vec![header("X-Other", "1")]));
    match r {
        ChatServiceError::WebSocket(WebSocketServiceError::Http(resp)) => {
            assert_eq!(resp.status, 500);
            assert_eq!(resp.body, b"body".to_vec());
            assert_eq!(resp.headers, vec![header("X-Other", "1")]);
        }
        other => panic!("unexpected {:?}", other),
    }
}

#[test]
fn malformed_retry_after_is_ignored() {
    for value in ["", "+", "-5", "3.5", "30s", "4294967296", " 30"] {
        let r = classify_rejection(response(403, vec![header("Retry-After", value)]));
        assert!(matches!(r, ChatServiceError::DeviceDeregistered), "{value}");
    }
}

#[test]
fn only_first_retry_after_counts() {
    let headers = vec![header("Retry-After", "soon"), header("Retry-After", "7")];
    assert_eq!(extract_retry_after_seconds(&headers), None);
    let headers = vec![header("Retry-After", "7"), header("Retry-After", "soon")];
    assert_eq!(extract_retry_after_seconds(&headers), Some(7));
}

#[test]
fn retry_after_values() {
    assert_eq!(parse_retry_after(&b"30".to_vec()), Some(30));
    assert_eq!(parse_retry_after(&b"+12".to_vec()), Some(12));
    assert_eq!(parse_retry_after(&b"007".to_vec()), Some(7));
    assert_eq!(parse_retry_after(&b"99999999999".to_vec()), None);
    assert_eq!(parse_retry_after(&b"".to_vec()), None);
    assert!(names_retry_after(&b"ReTrY-AfTeR".to_vec()));
    assert!(!names_retry_after(&b"retry-afte".to_vec()));
    assert!(!names_retry_after(&b"retry_after".to_vec()));
}

#[test]
fn no_resolved_routes_is_zero_attempts() {
    let r = ChatServiceError::from_single_connect_error(TimeoutOr::Other(
        ConnectError::NoResolvedRoutes,
    ));
    assert!(matches!(
        r,
        ChatServiceError::AllConnectionRoutesFailed { attempts: 0 }
    ));
}

#[test]
fn all_attempts_failed_is_one_attempt() {
    let r = ChatServiceError::from_single_connect_error(TimeoutOr::Other(
        ConnectError::AllAttemptsFailed,
    ));
    assert!(matches!(
        r,
        ChatServiceError::AllConnectionRoutesFailed { attempts: 1 }
    ));
}

#[test]
fn timeout_is_one_attempt() {
    let r = ChatServiceError::from_single_connect_error(TimeoutOr::Timeout {
        attempt_duration_millis: 5000,
    });
    assert!(matches!(
        r,
        ChatServiceError::TimeoutEstablishingConnection { attempts: 1 }
    ));
}

#[test]
fn fatal_rejection_is_classified() {
    let r = ChatServiceError::from_single_connect_error(TimeoutOr::Other(
        ConnectError::FatalConnect(WebSocketServiceConnectError::RejectedByServer {
            response: response(499, vec![]),
        }),
    ));
    assert!(matches!(r, ChatServiceError::AppExpired));
}

fn transport(t: TransportConnectError) -> ChatServiceError {
    ChatServiceError::from(WebSocketServiceConnectError::Connect(
        WebSocketConnectError::Transport(t),
    ))
}

fn other_text(e: &ChatServiceError) -> &'static str {
    match e {
        ChatServiceError::WebSocket(WebSocketServiceError::Other(s)) => s,
        other => panic!("unexpected {:?}", other),
    }
}

#[test]
fn tls_failure_is_generic() {
    assert_eq!(other_text(&transport(TransportConnectError::SslFailedHandshake)), "TLS failure");
    assert_eq!(other_text(&transport(TransportConnectError::SslError)), "TLS failure");
}

#[test]
fn transport_descriptions() {
    assert_eq!(
        other_text(&transport(TransportConnectError::InvalidConfiguration)),
        "invalid configuration"
    );
    assert_eq!(
        other_text(&transport(TransportConnectError::TcpConnectionFailed)),
        "TCP connection failed"
    );
    assert_eq!(other_text(&transport(TransportConnectError::DnsError)), "DNS error");
    assert_eq!(
        other_text(&transport(TransportConnectError::CertError)),
        "failed to load certificates"
    );
    assert_eq!(
        describe_transport_error(TransportConnectError::ProxyProtocol),
        "proxy protocol error"
    );
    assert_eq!(
        describe_transport_error(TransportConnectError::ClientAbort),
        "client abort error"
    );
}

#[test]
fn websocket_timeout_and_protocol_errors() {
    let r = ChatServiceError::from(WebSocketServiceConnectError::Connect(
        WebSocketConnectError::Timeout,
    ));
    assert!(matches!(r, ChatServiceError::Timeout));
    let r = ChatServiceError::from(WebSocketServiceConnectError::Connect(
        WebSocketConnectError::WebSocketError(WebSocketProtocolError::Capacity),
    ));
    assert!(matches!(
        r,
        ChatServiceError::WebSocket(WebSocketServiceError::Protocol(
            WebSocketProtocolError::Capacity
        ))
    ));
}

#[test]
fn alert_table() {
    let expected = [
        (CertificateFailure::BadEncoding, HandshakeAlert::BadCertificate),
        (CertificateFailure::Expired, HandshakeAlert::CertificateExpired),
        (CertificateFailure::NotValidYet, HandshakeAlert::CertificateUnknown),
        (CertificateFailure::Revoked, HandshakeAlert::CertificateRevoked),
        (CertificateFailure::UnhandledCriticalExtension, HandshakeAlert::CertificateUnknown),
        (CertificateFailure::UnknownIssuer, HandshakeAlert::UnknownCa),
        (CertificateFailure::UnknownRevocationStatus, HandshakeAlert::CertificateUnknown),
        (CertificateFailure::BadSignature, HandshakeAlert::BadCertificate),
        (CertificateFailure::NotValidForName, HandshakeAlert::CertificateUnknown),
        (CertificateFailure::InvalidPurpose, HandshakeAlert::CertificateUnknown),
        (CertificateFailure::ApplicationVerificationFailure, HandshakeAlert::InternalError),
        (CertificateFailure::Other, HandshakeAlert::CertificateUnknown),
        (CertificateFailure::Unrecognized, HandshakeAlert::CertificateUnknown),
    ];
    for (reason, alert) in expected {
        assert_eq!(alert_for_failure(VerifyFailure::InvalidCertificate(reason)), alert);
    }
    assert_eq!(alert_for_failure(VerifyFailure::Other), HandshakeAlert::BadCertificate);
}

#[test]
fn untrusted_issuer_aborts_with_unknown_ca() {
    let policy = RootCertificates::Native.trust_policy("example.com", &vec![]);
    assert!(matches!(policy, Ok(TrustPolicy::PlatformVerifier)));
    let chain = vec![Some(vec![0x30u8, 1]), Some(vec![0x30u8, 2])];
    assert!(prepare_chain(Some(&chain)).is_ok());
    let verdict = handshake_verdict(Err(VerifyFailure::InvalidCertificate(
        CertificateFailure::UnknownIssuer,
    )));
    assert_eq!(verdict, Err(HandshakeAlert::UnknownCa));
    assert_eq!(handshake_verdict(Ok(())), Ok(()));
}

#[test]
fn missing_chain_is_refused() {
    assert!(matches!(prepare_chain(None), Err(HandshakeAlert::NoCertificate)));
    assert!(matches!(
        prepare_chain(Some(&vec![])),
        Err(HandshakeAlert::BadCertificate)
    ));
}

#[test]
fn unconvertible_elements_are_refused() {
    let bad_leaf = vec![None, Some(vec![2u8])];
    assert!(matches!(
        prepare_chain(Some(&bad_leaf)),
        Err(HandshakeAlert::BadCertificate)
    ));
    let bad_intermediate = vec![Some(vec![1u8]), Some(vec![2u8]), None];
    assert!(matches!(
        prepare_chain(Some(&bad_intermediate)),
        Err(HandshakeAlert::BadCertificate)
    ));
}

#[test]
fn well_formed_chain_is_split() {
    let chain = vec![Some(vec![1u8, 1]), Some(vec![2u8]), Some(vec![3u8, 3, 3])];
    let p = prepare_chain(Some(&chain)).ok().expect("well formed");
    assert_eq!(p.leaf, vec![1u8, 1]);
    assert_eq!(p.intermediates, vec![vec![2u8], vec![3u8, 3, 3]]);
    let single = vec![Some(vec![9u8])];
    let p = prepare_chain(Some(&single)).ok().expect("well formed");
    assert_eq!(p.leaf, vec![9u8]);
    assert!(p.intermediates.is_empty());
}

#[test]
fn native_policy_checks_host_name() {
    let root = vec![0x30u8, 0x82];
    assert!(matches!(
        RootCertificates::Native.trust_policy("example.com", &root),
        Ok(TrustPolicy::PlatformVerifier)
    ));
    assert!(matches!(
        RootCertificates::Native.trust_policy("127.0.0.1", &root),
        Ok(TrustPolicy::PlatformVerifier)
    ));
    for bad in ["", "exa mple.com", "-bad-.com", "a..b"] {
        assert!(
            matches!(
                RootCertificates::Native.trust_policy(bad, &root),
                Err(Error::BadHostname)
            ),
            "{bad}"
        );
    }
}

#[test]
fn pinned_policies_use_one_anchor() {
    let root = vec![0x30u8, 0x82, 1, 2];
    match RootCertificates::Signal.trust_policy("", &root) {
        Ok(TrustPolicy::SingleAnchor(der)) => assert_eq!(der, root),
        _ => panic!("expected the pinned root"),
    }
    let given = vec![0x30u8, 7];
    match RootCertificates::FromDer(given.clone()).trust_policy("example.com", &root) {
        Ok(TrustPolicy::SingleAnchor(der)) => assert_eq!(der, given),
        _ => panic!("expected the given root"),
    }
}
