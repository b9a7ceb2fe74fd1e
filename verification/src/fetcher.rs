//! The rate fetcher's decisions.
//!
//! The fetcher repeats one cycle for as long as the process lives: ask the
//! upstream for the rate, take note of how that ended, pause, start over. The
//! asking and the pausing are the caller's; this module says what to ask for,
//! and what follows from each way a request can end.

use vstd::prelude::*;
use crate::cache::{rate_after, FetchOutcome, RateCache};
use crate::rate::Rate;

verus! {

/// Where the latest rate is asked for.
pub const UPSTREAM_URL: &'static str = "https://api.currencyapi.com/v3/latest?currencies[]=EUR";

/// The request header that carries the credential.
pub const API_KEY_HEADER: &'static str = "apikey";

/// One GET request to the upstream, as plain text parts.
#[derive(Clone, Debug, PartialEq, Eq)]
pub struct UpstreamRequest {
    pub url: String,
    pub header_name: String,
    pub header_value: String,
}

/// What a finished cycle has to say.
#[derive(Clone, Debug, PartialEq, Eq)]
pub enum CycleLog {
    /// A new rate was stored at the given moment.
    Refreshed { timestamp: String, rate: Rate },
    /// The request did not get an answer.
    TransportFailed,
    /// The answer could not be decoded.
    DecodeFailed,
}

/// What the caller does once a cycle has ended: write the log line, then
/// pause for that many seconds before the next request.
#[derive(Clone, Debug, PartialEq, Eq)]
pub struct CycleStep {
    pub log: CycleLog,
    pub sleep_secs: u64,
}

/// The line that reports a refreshed rate, for a rate written `rate_text`.
pub open spec fn refreshed_line(timestamp: Seq<char>, rate_text: Seq<char>) -> Seq<char> {
    "["@ + timestamp + "] Refreshed exchange rate: euro_usd_rate = "@ + rate_text
}

impl CycleLog {
    /// Whether this entry agrees with how the cycle ended.
    pub open spec fn reports(self, outcome: FetchOutcome) -> bool {
        match outcome {
            FetchOutcome::Refreshed(fetched) => self matches CycleLog::Refreshed { rate, .. }
                && rate == fetched,
            FetchOutcome::TransportFailure => self is TransportFailed,
            FetchOutcome::DecodeFailure => self is DecodeFailed,
        }
    }

    /// The text of this entry, for a rate written `rate_text`.
    pub open spec fn line_text(self, rate_text: Seq<char>) -> Seq<char> {
        match self {
            CycleLog::Refreshed { timestamp, .. } => refreshed_line(timestamp@, rate_text),
            CycleLog::TransportFailed => "Failed to fetch exchange rate from API"@,
            CycleLog::DecodeFailed => "Failed to parse API response JSON"@,
        }
    }

    /// Whether the entry reports a failure and belongs on the error stream.
    pub fn is_error(&self) -> (error: bool)
        ensures
            error == !(self is Refreshed),
    {
        match self {
            CycleLog::Refreshed { .. } => false,
            CycleLog::TransportFailed => true,
            CycleLog::DecodeFailed => true,
        }
    }

    /// The rate that the entry reports as refreshed, if it reports one.
    pub fn refreshed_rate(&self) -> (refreshed: Option<Rate>)
        ensures
            refreshed == match *self {
                CycleLog::Refreshed { rate, .. } => Some(rate),
                CycleLog::TransportFailed => None,
                CycleLog::DecodeFailed => None,
            },
    {
        match self {
            CycleLog::Refreshed { rate, .. } => Some(*rate),
            CycleLog::TransportFailed => None,
            CycleLog::DecodeFailed => None,
        }
    }

    /// Writes the entry out. `rate_text` is the refreshed rate as the caller
    /// shows it; a failure entry does not use it.
    pub fn line(&self, rate_text: &str) -> (line: String)
        ensures
            line@ == self.line_text(rate_text@),
    {
        match self {
            CycleLog::Refreshed { timestamp, .. } => {
                let mut line = "[".to_owned();
                line.append(timestamp.as_str());
                line.append("] Refreshed exchange rate: euro_usd_rate = ");
                line.append(rate_text);
                line
            },
            CycleLog::TransportFailed => "Failed to fetch exchange rate from API".to_owned(),
            CycleLog::DecodeFailed => "Failed to parse API response JSON".to_owned(),
        }
    }
}

/// The present moment in UTC, read by `chrono::offset::Utc::now` and written
/// as year, month, day, hour, minute and second by `chrono::DateTime::format`.
///
/// Nothing is promised of the text, which is the clock's to decide. The
/// clock read panics where the system clock stands before 1970.
#[verifier::external_body]
fn utc_timestamp() -> String {
    chrono::offset::Utc::now().format("%Y-%m-%d %H:%M:%S").to_string()
}

/// The rate fetcher: the credential it presents and the pause it keeps
/// between two requests.
#[derive(Clone, Debug, PartialEq, Eq)]
pub struct Fetcher {
    pub api_key: String,
    pub interval_secs: u64,
}

impl Fetcher {
    /// A fetcher that presents `api_key` and pauses `interval_secs` seconds
    /// after every cycle.
    pub fn new(api_key: String, interval_secs: u64) -> (fetcher: Fetcher)
        ensures
            fetcher.api_key@ == api_key@,
            fetcher.interval_secs == interval_secs,
    {
        Fetcher { api_key, interval_secs }
    }

    /// The request that opens every cycle: the fixed upstream address, with
    /// the credential in its header.
    pub fn request(&self) -> (request: UpstreamRequest)
        ensures
            request.url@ == UPSTREAM_URL@,
            request.header_name@ == API_KEY_HEADER@,
            request.header_value@ == self.api_key@,
    {
        UpstreamRequest {
            url: UPSTREAM_URL.to_owned(),
            header_name: API_KEY_HEADER.to_owned(),
            header_value: self.api_key.clone(),
        }
    }

    /// Closes a cycle that ended in `outcome` at the moment written
    /// `timestamp`: the cache takes the refreshed rate or stays as it was, the
    /// log entry names the outcome, and the pause is the configured one.
    pub fn complete_cycle_at(
        &self,
        cache: &mut RateCache,
        outcome: &FetchOutcome,
        timestamp: String,
    ) -> (step: CycleStep)
        ensures
            final(cache)@ == rate_after(old(cache)@, *outcome),
            final(cache).history() == old(cache).history().push(*outcome),
            step.sleep_secs == self.interval_secs,
            step.log.reports(*outcome),
            step.log matches CycleLog::Refreshed { timestamp: stamped, .. } ==> stamped@
                == timestamp@,
    {
        cache.record(outcome);
        let log = match outcome {
            FetchOutcome::Refreshed(rate) => CycleLog::Refreshed { timestamp, rate: *rate },
            FetchOutcome::TransportFailure => CycleLog::TransportFailed,
            FetchOutcome::DecodeFailure => CycleLog::DecodeFailed,
        };
        CycleStep { log, sleep_secs: self.interval_secs }
    }

    /// Closes a cycle that ended in `outcome` just now. The clock is read
    /// only for a refreshed rate, and whatever it shows, the cache, the kind
    /// of log entry and the pause are as in [`Fetcher::complete_cycle_at`].
    pub fn complete_cycle(&self, cache: &mut RateCache, outcome: &FetchOutcome) -> (step:
        CycleStep)
        ensures
            final(cache)@ == rate_after(old(cache)@, *outcome),
            final(cache).history() == old(cache).history().push(*outcome),
            step.sleep_secs == self.interval_secs,
            step.log.reports(*outcome),
    {
        let timestamp = match outcome {
            FetchOutcome::Refreshed(_) => utc_timestamp(),
            FetchOutcome::TransportFailure => String::new(),
            FetchOutcome::DecodeFailure => String::new(),
        };
        self.complete_cycle_at(cache, outcome, timestamp)
    }
}

} // verus!
