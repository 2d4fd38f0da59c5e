//! How a result is shown: the one-line summary and the JSON record.

use vstd::prelude::*;
use vstd::string::StringExecFns;

use crate::outcome::CheckResult;

verus! {

/// The decimal text of `n` with English thousands separators.
pub uninterp spec fn en_grouped(n: i64) -> Seq<char>;

/// Relies on `num_format::ToFormattedString::to_formatted_string` with
/// `Locale::en`, whose text depends on the number alone.
#[verifier::external_body]
fn grouped(n: i64) -> (r: String)
    ensures
        r@ == en_grouped(n),
{
    num_format::ToFormattedString::to_formatted_string(&n, &num_format::Locale::en)
}

/// The RFC 3339 text of the UTC instant `secs` seconds after the epoch, or
/// `None` when that instant lies outside the representable dates.
pub uninterp spec fn rfc3339_of(secs: i64) -> Option<Seq<char>>;

/// Relies on `chrono::DateTime::<Utc>::from_timestamp`, which fails only for
/// out-of-range instants, and on `DateTime::to_rfc3339` for the text.
#[verifier::external_body]
fn rfc3339(secs: i64) -> (r: Option<String>)
    ensures
        r is Some <==> rfc3339_of(secs) is Some,
        r matches Some(s) ==> rfc3339_of(secs) == Some(s@),
{
    match chrono::DateTime::<chrono::Utc>::from_timestamp(secs, 0) {
        Some(t) => Some(t.to_rfc3339()),
        None => None,
    }
}

/// The one-line summary of a result, given the texts of its day and second
/// counts; the counts are not shown when no expiry was read.
pub open spec fn summary_line(
    ok: bool,
    domain_name: Seq<char>,
    days_text: Seq<char>,
    seconds_text: Seq<char>,
) -> Seq<char> {
    if ok {
        "[v] certificate of "@ + domain_name + " expires in "@ + days_text + " days ("@
            + seconds_text + " seconds)"@
    } else {
        "[x] certificate of "@ + domain_name + " is expired"@
    }
}

/// Lays out the summary line from the result's flag, domain and the texts of
/// its counts.
pub fn format_summary(ok: bool, domain_name: &str, days_text: &str, seconds_text: &str) -> (r: String)
    ensures
        r@ == summary_line(ok, domain_name@, days_text@, seconds_text@),
{
    if ok {
        let mut s = String::from_str("[v] certificate of ");
        s.append(domain_name);
        s.append(" expires in ");
        s.append(days_text);
        s.append(" days (");
        s.append(seconds_text);
        s.append(" seconds)");
        s
    } else {
        let mut s = String::from_str("[x] certificate of ");
        s.append(domain_name);
        s.append(" is expired");
        s
    }
}

/// The JSON record of a result: the expiry itself is left out and the check
/// time is written as RFC 3339 text.
pub struct CheckResultJson {
    pub ok: bool,
    pub days: i64,
    pub domain_name: String,
    pub checked_at: String,
    pub seconds: i64,
}

impl CheckResult {
    /// The one-line summary of this result, counts grouped in thousands.
    pub fn summary(&self) -> (r: String)
        ensures
            r@ == summary_line(self.ok, self.domain_name@, en_grouped(self.days), en_grouped(self.seconds)),
    {
        if self.ok {
            let days_text = grouped(self.days);
            let seconds_text = grouped(self.seconds);
            format_summary(true, self.domain_name.as_str(), days_text.as_str(), seconds_text.as_str())
        } else {
            format_summary(false, self.domain_name.as_str(), "", "")
        }
    }

    /// The JSON record of this result: `ok`, `days`, `domain_name` and
    /// `seconds` are kept as they are and `checked_at` becomes its RFC 3339
    /// text; `None` when the check time has no such text.
    pub fn to_json(&self) -> (r: Option<CheckResultJson>)
        ensures
            r is Some <==> rfc3339_of(self.checked_at) is Some,
            r matches Some(j) ==> {
                &&& j.ok == self.ok
                &&& j.days == self.days
                &&& j.domain_name@ == self.domain_name@
                &&& j.seconds == self.seconds
                &&& rfc3339_of(self.checked_at) == Some(j.checked_at@)
            },
    {
        match rfc3339(self.checked_at) {
            None => None,
            Some(checked_at) => Some(CheckResultJson {
                ok: self.ok,
                days: self.days,
                domain_name: self.domain_name.clone(),
                checked_at,
                seconds: self.seconds,
            }),
        }
    }
}

} // verus!
