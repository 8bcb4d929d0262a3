use vstd::prelude::*;

verus! {

/// Errors raised while configuring a connector's root of trust.
#[derive(Debug, Clone, Copy, PartialEq, Eq, Structural)]
pub enum Error {
    /// Bad certificate
    BadCertificate,
    /// Bad hostname
    BadHostname,
}

/// The reason a certificate verifier gave for refusing a chain.
#[derive(Debug, Clone, Copy, PartialEq, Eq, Structural)]
pub enum CertificateFailure {
    BadEncoding,
    Expired,
    NotValidYet,
    Revoked,
    UnhandledCriticalExtension,
    UnknownIssuer,
    UnknownRevocationStatus,
    BadSignature,
    NotValidForName,
    InvalidPurpose,
    ApplicationVerificationFailure,
    Other,
    /// A reason that this library does not know by name.
    Unrecognized,
}

/// A failed verification: either a certificate problem or any other error.
#[derive(Debug, Clone, Copy, PartialEq, Eq, Structural)]
pub enum VerifyFailure {
    InvalidCertificate(CertificateFailure),
    Other,
}

/// The TLS alert sent to the peer when the handshake is aborted.
#[derive(Debug, Clone, Copy, PartialEq, Eq, Structural)]
pub enum HandshakeAlert {
    NoCertificate,
    BadCertificate,
    CertificateExpired,
    CertificateUnknown,
    CertificateRevoked,
    UnknownCa,
    InternalError,
}

/// The alert that reports a certificate failure.
pub open spec fn certificate_alert(f: CertificateFailure) -> HandshakeAlert {
    match f {
        CertificateFailure::BadEncoding => HandshakeAlert::BadCertificate,
        CertificateFailure::Expired => HandshakeAlert::CertificateExpired,
        CertificateFailure::NotValidYet => HandshakeAlert::CertificateUnknown,
        CertificateFailure::Revoked => HandshakeAlert::CertificateRevoked,
        CertificateFailure::UnhandledCriticalExtension => HandshakeAlert::CertificateUnknown,
        CertificateFailure::UnknownIssuer => HandshakeAlert::UnknownCa,
        CertificateFailure::UnknownRevocationStatus => HandshakeAlert::CertificateUnknown,
        CertificateFailure::BadSignature => HandshakeAlert::BadCertificate,
        CertificateFailure::NotValidForName => HandshakeAlert::CertificateUnknown,
        CertificateFailure::InvalidPurpose => HandshakeAlert::CertificateUnknown,
        CertificateFailure::ApplicationVerificationFailure => HandshakeAlert::InternalError,
        CertificateFailure::Other => HandshakeAlert::CertificateUnknown,
        CertificateFailure::Unrecognized => HandshakeAlert::CertificateUnknown,
    }
}

/// The alert that reports any verification failure.
pub open spec fn failure_alert(f: VerifyFailure) -> HandshakeAlert {
    match f {
        VerifyFailure::InvalidCertificate(c) => certificate_alert(c),
        VerifyFailure::Other => HandshakeAlert::BadCertificate,
    }
}

/// Picks the alert with which a handshake is aborted after `failure`.
pub fn alert_for_failure(failure: VerifyFailure) -> (r: HandshakeAlert)
    ensures
        r == failure_alert(failure),
{
    match failure {
        VerifyFailure::InvalidCertificate(c) => match c {
            CertificateFailure::BadEncoding => HandshakeAlert::BadCertificate,
            CertificateFailure::Expired => HandshakeAlert::CertificateExpired,
            CertificateFailure::NotValidYet => HandshakeAlert::CertificateUnknown,
            CertificateFailure::Revoked => HandshakeAlert::CertificateRevoked,
            CertificateFailure::UnhandledCriticalExtension => HandshakeAlert::CertificateUnknown,
            CertificateFailure::UnknownIssuer => HandshakeAlert::UnknownCa,
            CertificateFailure::UnknownRevocationStatus => HandshakeAlert::CertificateUnknown,
            CertificateFailure::BadSignature => HandshakeAlert::BadCertificate,
            CertificateFailure::NotValidForName => HandshakeAlert::CertificateUnknown,
            CertificateFailure::InvalidPurpose => HandshakeAlert::CertificateUnknown,
            CertificateFailure::ApplicationVerificationFailure => HandshakeAlert::InternalError,
            CertificateFailure::Other => HandshakeAlert::CertificateUnknown,
            CertificateFailure::Unrecognized => HandshakeAlert::CertificateUnknown,
        },
        VerifyFailure::Other => HandshakeAlert::BadCertificate,
    }
}


/// The peer's chain, split into the leaf and the intermediates after it.
pub struct PeerChain {
    pub leaf: Vec<u8>,
    pub intermediates: Vec<Vec<u8>>,
}

/// Every element of the chain was converted to DER, and there is one at least.
pub open spec fn chain_well_formed(chain: Seq<Option<Vec<u8>>>) -> bool {
    &&& chain.len() > 0
    &&& forall|i: int| 0 <= i < chain.len() ==> (#[trigger] chain[i]) is Some
}

/// The alert with which a chain is refused before any verifier sees it, if any.
pub open spec fn chain_rejection(chain: Option<Seq<Option<Vec<u8>>>>) -> Option<HandshakeAlert> {
    match chain {
        None => Some(HandshakeAlert::NoCertificate),
        Some(c) => if chain_well_formed(c) {
            None
        } else {
            Some(HandshakeAlert::BadCertificate)
        },
    }
}

/// `p` holds the DER of each element of `chain`, leaf first.
pub open spec fn chain_matches(p: PeerChain, chain: Seq<Option<Vec<u8>>>) -> bool {
    &&& chain.len() > 0
    &&& chain[0] is Some
    &&& p.leaf@ == chain[0]->0@
    &&& p.intermediates@.len() + 1 == chain.len()
    &&& forall|i: int|
        0 <= i < p.intermediates@.len() ==> chain[i + 1] is Some && (#[trigger] p.intermediates@[i])@
            == chain[i + 1]->0@
}

/// Splits the chain that the peer presented into a leaf and intermediates.
/// `chain` is `None` where the peer sent no chain, and each element is `None`
/// where it could not be converted to DER. Fails closed: an absent, empty or
/// partly unconvertible chain is refused with an alert.
pub fn prepare_chain(chain: Option<&Vec<Option<Vec<u8>>>>) -> (r: Result<PeerChain, HandshakeAlert>)
    ensures
        match chain_rejection(
            match chain {
                None => None,
                Some(c) => Some(c@),
            },
        ) {
            Some(alert) => r == Err::<PeerChain, HandshakeAlert>(alert),
            None => r matches Ok(p) && chain_matches(p, chain->0@),
        },
{
    let c = match chain {
        None => return Err(HandshakeAlert::NoCertificate),
        Some(c) => c,
    };
    if c.len() == 0 {
        return Err(HandshakeAlert::BadCertificate);
    }
    let leaf = match &c[0] {
        None => return Err(HandshakeAlert::BadCertificate),
        Some(der) => der.clone(),
    };
    let mut intermediates: Vec<Vec<u8>> = Vec::new();
    let mut i: usize = 1;
    while i < c.len()
        invariant
            chain == Some(c),
            1 <= i <= c.len(),
            intermediates@.len() + 1 == i,
            forall|j: int| 0 <= j < i ==> (#[trigger] c@[j]) is Some,
            forall|j: int|
                0 <= j < intermediates@.len() ==> (#[trigger] intermediates@[j])@ == c@[j + 1]->0@,
        decreases c.len() - i,
    {
        match &c[i] {
            None => {
                assert(c@[i as int] is None);
                assert(!chain_well_formed(c@));
                return Err(HandshakeAlert::BadCertificate);
            },
            Some(der) => {
                let d = der.clone();
                assert(d@ =~= der@);
                intermediates.push(d);
            },
        }
        i = i + 1;
    }
    assert(leaf@ =~= c@[0]->0@);
    Ok(PeerChain { leaf, intermediates })
}

/// Decides the handshake from the verifier's outcome: it goes on after a
/// success, and is aborted with the alert for the failure otherwise.
pub fn handshake_verdict(outcome: Result<(), VerifyFailure>) -> (r: Result<(), HandshakeAlert>)
    ensures
        match outcome {
            Ok(()) => r == Ok::<(), HandshakeAlert>(()),
            Err(f) => r == Err::<(), HandshakeAlert>(failure_alert(f)),
        },
{
    match outcome {
        Ok(()) => Ok(()),
        Err(f) => Err(alert_for_failure(f)),
    }
}


/// Where a connector takes its root of trust from.
#[derive(Debug, Clone)]
pub enum RootCertificates {
    /// The platform's own trust store, through its certificate verifier.
    Native,
    /// The service's pinned root certificate.
    Signal,
    /// One DER-encoded root certificate given by the caller.
    FromDer(Vec<u8>),
}

/// How a connector checks its peer once a policy has been applied.
pub enum TrustPolicy {
    /// The platform verifier runs during the handshake, for a host name that parsed.
    PlatformVerifier,
    /// Standard chain validation against this DER certificate as the sole anchor.
    SingleAnchor(Vec<u8>),
}

/// Whether a host name parses as a server identity: a DNS name or an IP literal.
pub uninterp spec fn is_valid_server_name(host_name: Seq<char>) -> bool;

/// Relies on `rustls::pki_types::ServerName::try_from(&str)`, which accepts a
/// syntactically valid DNS name or IP address literal; an empty string is
/// neither.
#[verifier::external_body]
fn server_name_accepted(host_name: &str) -> (r: bool)
    ensures
        r == is_valid_server_name(host_name@),
        host_name@.len() == 0 ==> !r,
{
    rustls::pki_types::ServerName::try_from(host_name).is_ok()
}

impl RootCertificates {
    /// Chooses how a connector to `host_name` checks its peer. The native
    /// policy needs a host name that parses; the pinned and DER policies make
    /// their certificate the only trust anchor.
    pub fn trust_policy(&self, host_name: &str, signal_root: &Vec<u8>) -> (r: Result<
        TrustPolicy,
        Error,
    >)
        ensures
            match self {
                RootCertificates::Native => if is_valid_server_name(host_name@) {
                    r matches Ok(TrustPolicy::PlatformVerifier)
                } else {
                    r == Err::<TrustPolicy, Error>(Error::BadHostname)
                },
                RootCertificates::Signal => r matches Ok(TrustPolicy::SingleAnchor(der)) && der@
                    == signal_root@,
                RootCertificates::FromDer(given) => r matches Ok(TrustPolicy::SingleAnchor(der))
                    && der@ == given@,
            },
    {
        match self {
            RootCertificates::Native => {
                if server_name_accepted(host_name) {
                    Ok(TrustPolicy::PlatformVerifier)
                } else {
                    Err(Error::BadHostname)
                }
            },
            RootCertificates::Signal => {
                let der = signal_root.clone();
                assert(der@ =~= signal_root@);
                Ok(TrustPolicy::SingleAnchor(der))
            },
            RootCertificates::FromDer(given) => {
                let der = given.clone();
                assert(der@ =~= given@);
                Ok(TrustPolicy::SingleAnchor(der))
            },
        }
    }
}

/// A reason that the verifier reports but this library does not know by name
/// is reported with the `certificate_unknown` alert, and an error that is no
/// certificate problem with `bad_certificate`.
pub proof fn lemma_unrecognized_failure_alert()
    ensures
        failure_alert(VerifyFailure::InvalidCertificate(CertificateFailure::Unrecognized))
            == HandshakeAlert::CertificateUnknown,
        failure_alert(VerifyFailure::Other) == HandshakeAlert::BadCertificate,
{
}

/// A chain that is absent, empty, or holds an element that could not be
/// converted is refused before any verifier sees it.
pub proof fn lemma_malformed_chain_refused(chain: Option<Seq<Option<Vec<u8>>>>)
    requires
        chain matches Some(c) ==> !chain_well_formed(c),
    ensures
        chain_rejection(chain) is Some,
{
}

} // verus!
