//! The certificate evaluator: picks the certificate to judge from the chain a
//! peer presented, reads its expiry, and concludes the check.

use vstd::prelude::*;

use crate::outcome::{
    expiry_fits, result_for, unavailable, CheckError, CheckResult, CheckResultModel,
};

verus! {

/// The notAfter instant, in Unix seconds, of the DER-encoded X.509
/// certificate `der`, or `None` when `der` is not such a certificate.
pub uninterp spec fn certificate_not_after(der: Seq<u8>) -> Option<i64>;

/// Relies on `x509_parser::parse_x509_certificate` to decode a DER
/// certificate, and on `ASN1Time::timestamp` for its notAfter in whole
/// seconds; a parse error gives `None`.
#[verifier::external_body]
fn parse_not_after(der: &[u8]) -> (r: Option<i64>)
    ensures
        r == certificate_not_after(der@),
{
    match x509_parser::parse_x509_certificate(der) {
        Ok((_, cert)) => Some(cert.validity().not_after.timestamp()),
        Err(_) => None,
    }
}

/// The mathematical value of a check's return value.
pub open spec fn outcome_view(r: Result<CheckResult, CheckError>) -> Result<CheckResultModel, CheckError> {
    match r {
        Ok(c) => Ok(c@),
        Err(e) => Err(e),
    }
}

/// What evaluating the chain `chain`, as the peer presented it, gives for a
/// check that began at `checked_at`. The last certificate of the chain is the
/// one judged.
pub open spec fn evaluation(domain_name: Seq<char>, checked_at: int, chain: Seq<Seq<u8>>) -> Result<CheckResultModel, CheckError> {
    if chain.len() == 0 {
        Err(CheckError::EmptyCertificateChain)
    } else {
        match certificate_not_after(chain.last()) {
            None => Ok(unavailable(domain_name, checked_at)),
            Some(t) => if expiry_fits(checked_at, t as int) {
                Ok(result_for(domain_name, checked_at, Some(t)))
            } else {
                Err(CheckError::ExpiryOutOfRange)
            },
        }
    }
}

/// What a check concludes once the handshake is over: `probe_written` says
/// whether the probe request could be written to the peer, `peer` is the
/// chain the session holds, if any.
pub open spec fn conclusion(
    domain_name: Seq<char>,
    checked_at: int,
    probe_written: bool,
    peer: Option<Seq<Seq<u8>>>,
) -> Result<CheckResultModel, CheckError> {
    if !probe_written {
        Ok(unavailable(domain_name, checked_at))
    } else {
        match peer {
            None => Err(CheckError::NoPeerCertificates),
            Some(chain) => evaluation(domain_name, checked_at, chain),
        }
    }
}

/// Judges the last certificate of `chain` for a check that began at
/// `checked_at`: an empty chain is an error, a certificate that does not
/// parse gives a result with no expiry, any other gives the remaining time.
pub fn evaluate(domain_name: &str, checked_at: i64, chain: &Vec<Vec<u8>>) -> (r: Result<CheckResult, CheckError>)
    requires
        checked_at > 0,
    ensures
        outcome_view(r) == evaluation(domain_name@, checked_at as int, chain.deep_view()),
{
    let n = chain.len();
    if n == 0 {
        return Err(CheckError::EmptyCertificateChain);
    }
    let last = &chain[n - 1];
    assert(last@ == chain.deep_view().last());
    let not_after = parse_not_after(last.as_slice());
    match not_after {
        None => Ok(CheckResult::new(domain_name, checked_at)),
        Some(t) => {
            if t < 0 && checked_at > t - i64::MIN {
                Err(CheckError::ExpiryOutOfRange)
            } else {
                Ok(CheckResult::from_not_after(domain_name, checked_at, Some(t)))
            }
        },
    }
}

/// Concludes a check after the handshake: a probe that could not be written
/// gives a result with no expiry; otherwise the peer's chain is evaluated.
pub fn conclude_check(
    domain_name: &str,
    checked_at: i64,
    probe_written: bool,
    peer_certificates: &Option<Vec<Vec<u8>>>,
) -> (r: Result<CheckResult, CheckError>)
    requires
        checked_at > 0,
    ensures
        outcome_view(r) == conclusion(
            domain_name@,
            checked_at as int,
            probe_written,
            peer_certificates.deep_view(),
        ),
{
    if !probe_written {
        return Ok(CheckResult::new(domain_name, checked_at));
    }
    match peer_certificates {
        None => Err(CheckError::NoPeerCertificates),
        Some(chain) => evaluate(domain_name, checked_at, chain),
    }
}

/// Every successful check reports an expiry equal to the check time plus
/// `seconds`, and `days` is `seconds` divided by a day's length, rounded down.
pub proof fn lemma_successful_check_timing(
    domain_name: Seq<char>,
    checked_at: int,
    probe_written: bool,
    peer: Option<Seq<Seq<u8>>>,
)
    requires
        checked_at > 0,
    ensures
        conclusion(domain_name, checked_at, probe_written, peer) matches Ok(r) ==> (r.ok ==> {
            &&& r.not_after == r.checked_at + r.seconds
            &&& r.days == r.seconds / 86400
        }),
{
}

/// Every check that produces a result records a check time after the epoch.
pub proof fn lemma_checked_at_positive(
    domain_name: Seq<char>,
    checked_at: int,
    probe_written: bool,
    peer: Option<Seq<Seq<u8>>>,
)
    requires
        checked_at > 0,
    ensures
        conclusion(domain_name, checked_at, probe_written, peer) matches Ok(r) ==> r.checked_at > 0,
{
}

/// Every failed check has zero days, zero seconds and the epoch as expiry.
pub proof fn lemma_failed_check_zeroed(
    domain_name: Seq<char>,
    checked_at: int,
    probe_written: bool,
    peer: Option<Seq<Seq<u8>>>,
)
    requires
        checked_at > 0,
    ensures
        conclusion(domain_name, checked_at, probe_written, peer) matches Ok(r) ==> (!r.ok ==> {
            &&& r.days == 0
            &&& r.seconds == 0
            &&& r.not_after == 0
        }),
{
}

/// Reading the expiry is a function of the certificate's bytes alone: two
/// chains that end in the same bytes evaluate to the same outcome, and so
/// evaluating one chain twice gives the same expiry both times.
pub proof fn lemma_evaluation_depends_on_last_certificate(
    domain_name: Seq<char>,
    checked_at: int,
    a: Seq<Seq<u8>>,
    b: Seq<Seq<u8>>,
)
    requires
        a.len() > 0,
        b.len() > 0,
        a.last() == b.last(),
    ensures
        evaluation(domain_name, checked_at, a) == evaluation(domain_name, checked_at, b),
        certificate_not_after(a.last()) == certificate_not_after(b.last()),
{
}

} // verus!
