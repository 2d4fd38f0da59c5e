//! What is decided before any network work: whether the host name can be
//! used for the TLS handshake, and the request sent once the session is up.

use vstd::prelude::*;
use vstd::string::StringExecFns;

use crate::outcome::CheckError;

verus! {

/// Whether `name` is a syntactically valid DNS name for server name
/// indication.
pub uninterp spec fn valid_dns_name(name: Seq<char>) -> bool;

/// Relies on `webpki::DNSNameRef::try_from_ascii_str`, which accepts exactly
/// the syntactically valid DNS names.
#[verifier::external_body]
fn dns_name_is_valid(name: &str) -> (r: bool)
    ensures
        r == valid_dns_name(name@),
{
    webpki::DNSNameRef::try_from_ascii_str(name).is_ok()
}

/// The HTTP/1.1 request written to the peer after the handshake: it asks
/// for the root document, an unencoded body and the closing of the
/// connection.
pub open spec fn http_probe(domain_name: Seq<char>) -> Seq<char> {
    "GET / HTTP/1.1\r\nHost: "@ + domain_name + "\r\nConnection: close\r\nAccept-Encoding: identity\r\n\r\n"@
}

/// Builds the probe request for `domain_name`.
pub fn build_http_headers(domain_name: &str) -> (r: String)
    ensures
        r@ == http_probe(domain_name@),
{
    let mut s = String::from_str("GET / HTTP/1.1\r\nHost: ");
    s.append(domain_name);
    s.append("\r\nConnection: close\r\nAccept-Encoding: identity\r\n\r\n");
    s
}

/// Checks `domain_name` before any network work and, when it is a valid DNS
/// name, gives the probe request to send once the handshake is done.
pub fn probe_request(domain_name: &str) -> (r: Result<String, CheckError>)
    ensures
        valid_dns_name(domain_name@) <==> r is Ok,
        r matches Ok(s) ==> s@ == http_probe(domain_name@),
        r matches Err(e) ==> e == CheckError::InvalidDomainName,
{
    if dns_name_is_valid(domain_name) {
        Ok(build_http_headers(domain_name))
    } else {
        Err(CheckError::InvalidDomainName)
    }
}

} // verus!
