//! Certificate expiry: reading `openssl x509 -enddate` output and the
//! reminders that the dashboard shows.

use vstd::prelude::*;

use crate::text::{after_prefix, strip_prefix, trim, trim_str, spec_utf8_lossy, utf8_lossy};

verus! {

/// What `chrono::DateTime::parse_from_str(raw, fmt)` gives, as the UTC
/// timestamp (seconds, sub-second nanoseconds) of the parsed instant.
pub uninterp spec fn spec_parse_datetime(raw: Seq<char>, fmt: Seq<char>) -> Option<(i64, u32)>;

/// What chrono computes as `(later - earlier).num_days()` for two UTC
/// instants given as timestamps, where both are representable.
pub uninterp spec fn spec_whole_days(later: (i64, u32), earlier: (i64, u32)) -> Option<i64>;

/// What chrono writes as `to_rfc3339()` of the UTC instant with this timestamp.
pub uninterp spec fn spec_rfc3339(at: (i64, u32)) -> Option<Seq<char>>;

/// Calls `chrono::DateTime::parse_from_str` and hands back the parsed
/// instant's UTC timestamp; a parse error becomes `None`. The result is
/// named `spec_parse_datetime` of the two arguments; chrono's format
/// language is not restated.
#[verifier::external_body]
fn parse_datetime(raw: &str, fmt: &str) -> (r: Option<(i64, u32)>)
    ensures
        r == spec_parse_datetime(raw@, fmt@),
{
    chrono::DateTime::parse_from_str(raw, fmt).ok().map(|d| (d.timestamp(), d.timestamp_subsec_nanos()))
}

/// Calls `chrono::Utc::now` and hands back its timestamp. Of the value,
/// only that the sub-second part is below one second (chrono takes it from
/// `Duration::subsec_nanos` of the system clock); the rest is the clock's.
#[verifier::external_body]
pub fn utc_now() -> (r: (i64, u32))
    ensures
        r.1 < 1_000_000_000,
{
    let now = chrono::Utc::now();
    (now.timestamp(), now.timestamp_subsec_nanos())
}

/// `x / d` rounded toward zero, as Rust's `/` on signed integers.
pub open spec fn div_toward_zero(x: int, d: int) -> int {
    if x >= 0 {
        x / d
    } else {
        -((-x) / d)
    }
}

/// The whole days from `earlier` to `later` (negative where `later` is
/// earlier), counted as chrono's `TimeDelta::num_days` counts them: whole
/// seconds toward zero, then whole days toward zero.
pub open spec fn whole_days_spec(later: (i64, u32), earlier: (i64, u32)) -> int {
    let nanos = (later.0 - earlier.0) * 1_000_000_000 + (later.1 - earlier.1);
    div_toward_zero(div_toward_zero(nanos, 1_000_000_000), 86_400)
}

/// Builds the two instants with `chrono::DateTime::from_timestamp` and
/// returns `(later - earlier).num_days()`; `None` where chrono cannot
/// represent one of them. The result is named `spec_whole_days`; where
/// neither instant is a leap second (sub-second part below one second),
/// it is `whole_days_spec`, as chrono's `signed_duration_since`,
/// `num_seconds` and `num_days` compute it. Which timestamps chrono can
/// represent is not restated.
#[verifier::external_body]
fn whole_days_between(later: (i64, u32), earlier: (i64, u32)) -> (r: Option<i64>)
    ensures
        r == spec_whole_days(later, earlier),
        later.1 < 1_000_000_000 && earlier.1 < 1_000_000_000 ==> (r matches Some(d) ==> d
            == whole_days_spec(later, earlier)),
{
    match (
        chrono::DateTime::from_timestamp(later.0, later.1),
        chrono::DateTime::from_timestamp(earlier.0, earlier.1),
    ) {
        (Some(a), Some(b)) => Some((a - b).num_days()),
        _ => None,
    }
}

/// Builds the instant with `chrono::DateTime::from_timestamp` and writes it
/// with `to_rfc3339`; `None` where chrono cannot represent it. The text is
/// named `spec_rfc3339`.
#[verifier::external_body]
fn rfc3339_of(at: (i64, u32)) -> (r: Option<String>)
    ensures
        match r {
            Some(s) => spec_rfc3339(at) == Some(s@),
            None => spec_rfc3339(at) is None,
        },
{
    chrono::DateTime::from_timestamp(at.0, at.1).map(|d| d.to_rfc3339())
}

/// The layout in which `openssl x509 -enddate` prints the expiry instant.
pub open spec fn enddate_format() -> Seq<char> {
    "%b %e %H:%M:%S %Y GMT"@
}

/// Why an expiry line could not be turned into a date.
#[derive(Debug, Clone, Copy, PartialEq, Eq)]
pub enum ExpiryError {
    /// The date after `notAfter=` does not parse.
    Unparsable,
    /// The instant lies outside what can be represented.
    OutOfRange,
}

impl ExpiryError {
    /// The text shown for this error.
    pub fn message(&self) -> (r: String)
        ensures
            r@ == (match self {
                ExpiryError::Unparsable => "解析证书到期时间失败"@,
                ExpiryError::OutOfRange => "证书到期时间超出可表示范围"@,
            }),
    {
        match self {
            ExpiryError::Unparsable => String::from_str("解析证书到期时间失败"),
            ExpiryError::OutOfRange => String::from_str("证书到期时间超出可表示范围"),
        }
    }
}

/// What the console learns from the output of `openssl x509 -enddate`:
/// nothing where the command failed or printed no `notAfter=` line, else
/// the expiry instant in RFC 3339 and the whole days left from `now`.
pub open spec fn expiry_outcome(success: bool, stdout: Seq<char>, now: (i64, u32)) -> Result<
    Option<(Seq<char>, i64)>,
    ExpiryError,
> {
    if !success {
        Ok(None)
    } else {
        match after_prefix(trim(stdout), "notAfter="@) {
            None => Ok(None),
            Some(rest) => match spec_parse_datetime(trim(rest), enddate_format()) {
                None => Err(ExpiryError::Unparsable),
                Some(at) => match instant_outcome(at, now) {
                    Ok((text, days)) => Ok(Some((text, days))),
                    Err(e) => Err(e),
                },
            },
        }
    }
}

/// The expiry instant `at` in RFC 3339 and the whole days from `now` to it.
pub open spec fn instant_outcome(at: (i64, u32), now: (i64, u32)) -> Result<
    (Seq<char>, i64),
    ExpiryError,
> {
    match (spec_rfc3339(at), spec_whole_days(at, now)) {
        (Some(text), Some(days)) => Ok((text, days)),
        _ => Err(ExpiryError::OutOfRange),
    }
}

/// The expiry instant `at` in RFC 3339 and the whole days from `now` to it.
pub fn expiry_from_instant(at: (i64, u32), now: (i64, u32)) -> (r: Result<(String, i64), ExpiryError>)
    ensures
        match r {
            Ok((text, days)) => instant_outcome(at, now) == Ok::<_, ExpiryError>((text@, days)),
            Err(e) => instant_outcome(at, now) == Err::<(Seq<char>, i64), _>(e),
        },
{
    let text = rfc3339_of(at);
    let days = whole_days_between(at, now);
    match (text, days) {
        (Some(t), Some(d)) => Ok((t, d)),
        _ => Err(ExpiryError::OutOfRange),
    }
}

/// The view of an expiry result.
pub open spec fn expiry_view(r: Result<Option<(String, i64)>, ExpiryError>) -> Result<
    Option<(Seq<char>, i64)>,
    ExpiryError,
> {
    match r {
        Ok(Some((s, d))) => Ok(Some((s@, d))),
        Ok(None) => Ok(None),
        Err(e) => Err(e),
    }
}

/// Interprets the output of `openssl x509 -enddate -noout`, counting the
/// days left from the instant `now`.
pub fn cert_expiry_from_output(success: bool, stdout: &[u8], now: (i64, u32)) -> (r: Result<
    Option<(String, i64)>,
    ExpiryError,
>)
    ensures
        expiry_view(r) == expiry_outcome(success, spec_utf8_lossy(stdout@), now),
{
    if !success {
        return Ok(None);
    }
    let text = utf8_lossy(stdout);
    let trimmed = trim_str(text.as_str());
    let rest = match strip_prefix(trimmed.as_str(), "notAfter=") {
        Some(rest) => rest,
        None => {
            return Ok(None);
        },
    };
    let raw = trim_str(rest.as_str());
    let at = match parse_datetime(raw.as_str(), "%b %e %H:%M:%S %Y GMT") {
        Some(at) => at,
        None => {
            return Err(ExpiryError::Unparsable);
        },
    };
    match expiry_from_instant(at, now) {
        Ok(v) => Ok(Some(v)),
        Err(e) => Err(e),
    }
}

/// Interprets the output of `openssl x509 -enddate -noout`, counting the
/// days left from the current time, whatever the clock reads.
pub fn cert_expiry_now(success: bool, stdout: &[u8]) -> (r: Result<
    Option<(String, i64)>,
    ExpiryError,
>)
    ensures
        exists|now: (i64, u32)| expiry_view(r) == expiry_outcome(success, spec_utf8_lossy(stdout@), now),
{
    let now = utc_now();
    cert_expiry_from_output(success, stdout, now)
}

} // verus!
