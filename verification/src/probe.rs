//! One host's certificate probe: the default-port resolution for the
//! connection, the probe error taxonomy, and the assembly of a record
//! from the raw timestamp strings read off a completed TLS handshake.
//! The connection and handshake themselves live at the network edge.

use vstd::prelude::*;
use crate::record::CertificateRecord;
use crate::timestamp::{UtcInstant, TimestampFormatError, normalize, instant_before, ts_valid, ts_instant};

verus! {

/// Why probing one host produced no record. Each of these aborts only
/// that host's probe, never a sibling's.
#[derive(Clone, Copy, Debug, PartialEq, Eq, Structural)]
pub enum ProbeError {
    /// The hostname did not resolve to a probeable address and port.
    AddressError,
    /// The TCP connection could not be established.
    ConnectError,
    /// The TLS client handshake failed.
    TlsHandshakeError,
    /// The handshake completed but the peer presented no certificate.
    NoCertificateError,
    /// A validity timestamp could not be normalized, or the validity
    /// window was not an increasing pair of instants.
    TimestampFormatError,
}

/// The port that the url library resolves for `"https://<host>"`: the
/// port embedded in the host when there is one, else the https default;
/// `None` when the host does not parse as a URL authority.
pub uninterp spec fn https_port_of(host: Seq<char>) -> Option<u16>;

/// Relies on url's `Url::parse` and `Url::port_or_known_default`: the
/// resolved port depends on the host string alone, and a URL with no
/// embedded port resolves to the scheme's known default.
#[verifier::external_body]
fn https_port(host: &String) -> (r: Option<u16>)
    ensures
        r == https_port_of(host@),
{
    match url::Url::parse(format!("https://{}", host).as_str()) {
        Ok(u) => u.port_or_known_default(),
        Err(_) => None,
    }
}

/// Resolves the port to probe `host` on: the port embedded in the host
/// if any, else the default HTTPS port. A host that does not parse is
/// an address error.
pub fn resolve_port(host: &String) -> (r: Result<u16, ProbeError>)
    ensures
        r matches Ok(p) ==> https_port_of(host@) == Some(p),
        r is Err <==> https_port_of(host@) is None,
        r matches Err(e) ==> e == ProbeError::AddressError,
{
    match https_port(host) {
        Some(p) => Ok(p),
        None => Err(ProbeError::AddressError),
    }
}

/// Assembles the certificate record for `host` from the two raw validity
/// timestamps read off the handshake's leaf certificate, with `now` as
/// the probe's wall-clock completion time.
///
/// Succeeds exactly when both timestamps normalize and the window they
/// denote is increasing; a certificate whose window is not increasing is
/// a probe error, never a record.
pub fn build_record(
    host: String,
    not_before_raw: &[u8],
    not_after_raw: &[u8],
    now: UtcInstant,
) -> (r: Result<CertificateRecord, ProbeError>)
    requires
        now.wf(),
    ensures
        r is Ok <==> (ts_valid(not_before_raw@) && ts_valid(not_after_raw@)
            && ts_instant(not_before_raw@).lt(ts_instant(not_after_raw@))),
        r matches Ok(c) ==> {
            &&& c@.name == host@
            &&& c@.valid_from == ts_instant(not_before_raw@)
            &&& c@.valid_to == ts_instant(not_after_raw@)
            &&& c@.updated == now
            &&& c.wf()
        },
        r matches Err(e) ==> e == ProbeError::TimestampFormatError,
{
    let valid_from = match normalize(not_before_raw) {
        Ok(t) => t,
        Err(TimestampFormatError) => { return Err(ProbeError::TimestampFormatError); },
    };
    let valid_to = match normalize(not_after_raw) {
        Ok(t) => t,
        Err(TimestampFormatError) => { return Err(ProbeError::TimestampFormatError); },
    };
    if !instant_before(&valid_from, &valid_to) {
        return Err(ProbeError::TimestampFormatError);
    }
    Ok(CertificateRecord { name: host, valid_from, valid_to, updated: now })
}

} // verus!
