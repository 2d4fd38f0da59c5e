//! The result of one certificate check, its mathematical model, and the laws
//! that every result obeys.

use vstd::prelude::*;

verus! {

/// Seconds in one day, used to bucket a duration into whole days.
pub const SECONDS_PER_DAY: i64 = 86400;

/// Floor division of a (possibly negative) number of seconds into whole days.
pub open spec fn whole_days(seconds: int) -> int {
    seconds / (SECONDS_PER_DAY as int)
}

/// Whole days in `seconds`, rounded towards negative infinity.
pub fn days_of(seconds: i64) -> (r: i64)
    ensures
        r == whole_days(seconds as int),
{
    if seconds >= 0 {
        let r: i64 = seconds / SECONDS_PER_DAY;
        r
    } else {
        let m: i64 = -(seconds + 1);
        let q: i64 = m / SECONDS_PER_DAY;
        proof {
            let s = seconds as int;
            let qi = q as int;
            assert(m as int == -s - 1);
            assert(qi * 86400 <= -s - 1 < qi * 86400 + 86400);
            assert((-qi - 1) * 86400 <= s < (-qi - 1) * 86400 + 86400) by (nonlinear_arith)
                requires qi * 86400 <= -s - 1 < qi * 86400 + 86400;
            vstd::arithmetic::div_mod::lemma_fundamental_div_mod_converse(s, 86400, -qi - 1, s - (-qi - 1) * 86400);
        }
        -q - 1
    }
}


/// Why a check could not be carried out at all. These are hard failures,
/// reported instead of a `CheckResult`.
#[derive(Clone, Copy, Debug, PartialEq, Eq, Structural)]
pub enum CheckError {
    /// The host name is not a syntactically valid DNS name.
    InvalidDomainName,
    /// The handshake completed but the session holds no peer certificates.
    NoPeerCertificates,
    /// The peer presented an empty certificate chain.
    EmptyCertificateChain,
    /// The certificate's expiry is so far from the check time that the
    /// difference does not fit in 64 bits of seconds.
    ExpiryOutOfRange,
}

/// The mathematical value of a `CheckResult`.
pub struct CheckResultModel {
    pub ok: bool,
    pub days: int,
    pub domain_name: Seq<char>,
    pub checked_at: int,
    pub not_after: int,
    pub seconds: int,
}

/// The outcome of one certificate check. Timestamps are Unix seconds (UTC);
/// `not_after` is zero, the epoch sentinel, when no expiry could be read.
pub struct CheckResult {
    pub ok: bool,
    pub days: i64,
    pub domain_name: String,
    pub checked_at: i64,
    pub not_after: i64,
    pub seconds: i64,
}

impl View for CheckResult {
    type V = CheckResultModel;

    open spec fn view(&self) -> CheckResultModel {
        CheckResultModel {
            ok: self.ok,
            days: self.days as int,
            domain_name: self.domain_name@,
            checked_at: self.checked_at as int,
            not_after: self.not_after as int,
            seconds: self.seconds as int,
        }
    }
}

/// A result for which no expiry could be determined: only the domain and the
/// time of the check are kept, every other field is zero.
pub open spec fn unavailable(domain_name: Seq<char>, checked_at: int) -> CheckResultModel {
    CheckResultModel {
        ok: false,
        days: 0,
        domain_name,
        checked_at,
        not_after: 0,
        seconds: 0,
    }
}

/// A result for a certificate that expires at `not_after`: the remaining time
/// is `not_after - checked_at`, negative once the certificate has expired.
pub open spec fn retrieved(domain_name: Seq<char>, checked_at: int, not_after: int) -> CheckResultModel {
    CheckResultModel {
        ok: true,
        days: whole_days(not_after - checked_at),
        domain_name,
        checked_at,
        not_after,
        seconds: not_after - checked_at,
    }
}

/// Whether the remaining time between the two instants fits in an `i64`.
pub open spec fn expiry_fits(checked_at: int, not_after: int) -> bool {
    i64::MIN <= not_after - checked_at <= i64::MAX
}

/// The result for a check that began at `checked_at` and read the expiry
/// `not_after` (`None` when the certificate could not be parsed).
pub open spec fn result_for(domain_name: Seq<char>, checked_at: int, not_after: Option<i64>) -> CheckResultModel {
    match not_after {
        Some(t) => retrieved(domain_name, checked_at, t as int),
        None => unavailable(domain_name, checked_at),
    }
}

/// The invariant that every result produced by a check satisfies.
pub open spec fn consistent(r: CheckResultModel) -> bool {
    &&& r.checked_at > 0
    &&& r.ok ==> r.not_after == r.checked_at + r.seconds && r.days == whole_days(r.seconds)
    &&& !r.ok ==> r.days == 0 && r.seconds == 0 && r.not_after == 0
}

impl CheckResult {
    /// The result of a check that could not determine an expiry.
    pub fn new(domain_name: &str, checked_at: i64) -> (r: CheckResult)
        requires
            checked_at > 0,
        ensures
            r@ == unavailable(domain_name@, checked_at as int),
            consistent(r@),
    {
        CheckResult {
            ok: false,
            days: 0,
            domain_name: domain_name.to_owned(),
            checked_at,
            not_after: 0,
            seconds: 0,
        }
    }

    /// The result of a check that began at `checked_at` and read the expiry
    /// `not_after` from the certificate, or `None` when it could not be read.
    pub fn from_not_after(domain_name: &str, checked_at: i64, not_after: Option<i64>) -> (r: CheckResult)
        requires
            checked_at > 0,
            not_after matches Some(t) ==> expiry_fits(checked_at as int, t as int),
        ensures
            r@ == result_for(domain_name@, checked_at as int, not_after),
            consistent(r@),
    {
        match not_after {
            None => CheckResult::new(domain_name, checked_at),
            Some(t) => {
                let seconds: i64 = t - checked_at;
                CheckResult {
                    ok: true,
                    days: days_of(seconds),
                    domain_name: domain_name.to_owned(),
                    checked_at,
                    not_after: t,
                    seconds,
                }
            },
        }
    }
}

} // verus!
