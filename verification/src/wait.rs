use crate::err::Error;
use crate::misc::{
    duration_seconds, http_status, http_url, parse_duration, parse_http_get, valid_tcp,
    validate_tcp,
};
use vstd::prelude::*;

verus! {

/// What one probe of the outside world brought back.
#[derive(Debug, Clone, Copy, PartialEq, Eq)]
pub enum Reading {
    /// The monotonic clock: nanoseconds since its origin.
    Clock(u64),
    /// Whether the path exists.
    Existence(bool),
    /// The status of the HTTP response, `None` where no response came.
    Status(Option<u16>),
    /// Whether the connection was made.
    Connection(bool),
    /// The file's modification time in nanoseconds relative to the Unix
    /// epoch, `None` where it could not be read.
    Modified(Option<i128>),
    /// The file's length in bytes, `None` where it could not be read.
    Size(Option<u64>),
}

/// The probe that a condition asks for before it can be evaluated.
#[derive(Debug, Clone, Copy, PartialEq, Eq)]
pub enum Probe<'a> {
    /// Read the monotonic clock.
    Clock,
    /// Test whether the path exists.
    Existence(&'a str),
    /// Send one GET to the URL.
    Status(&'a str),
    /// Try one TCP connection to the host and port.
    Connection(&'a str),
    /// Read the modification time of the path.
    Modified(&'a str),
    /// Read the length of the path.
    Size(&'a str),
}

/// What is known of a path when a condition on it is built.
#[derive(Debug, Clone, Copy, PartialEq, Eq)]
pub struct FileInfo {
    /// Whether the path is a regular file.
    pub is_file: bool,
    /// Its modification time, where the platform gives one.
    pub modified: Option<i128>,
}

/// One condition, with what it remembers of the previous tick.
#[derive(Debug, Clone, PartialEq, Eq)]
pub enum Wait {
    /// Met once the clock has reached `end_instant`.
    Elapsed { end_instant: u64 },
    /// Met while `path` exists (with `not`: while it does not).
    Exists { not: bool, path: String },
    /// Met when a GET to `url` answers `status` (with `not`: another status).
    HttpGet { not: bool, url: String, status: u16 },
    /// Met when a connection to `host` can be made (with `not`: cannot).
    TcpHost { not: bool, host: String },
    /// Met when the modification time of `path` differs from the one read
    /// on the previous tick (with `not`: when it is the same).
    Update { not: bool, path: String, modified: Option<i128> },
    /// Met when the length of `path` differs from the one read on the
    /// previous tick (with `not`: when it is the same).
    FileSize { not: bool, path: String, bytes: Option<u64> },
}

/// The mathematical value of a [`Wait`].
pub ghost enum Condition {
    Elapsed { end: int },
    Exists { not: bool, path: Seq<char> },
    HttpGet { not: bool, url: Seq<char>, status: int },
    TcpHost { not: bool, host: Seq<char> },
    Update { not: bool, path: Seq<char>, modified: Option<int> },
    FileSize { not: bool, path: Seq<char>, bytes: Option<int> },
}

impl Condition {
    /// Whether the condition is met on a tick whose probe read `reading`.
    ///
    /// A failed probe, a first observation and a reading of another kind
    /// all leave the condition unmet, whatever `not` says.
    pub open spec fn met(self, reading: Reading) -> bool {
        match (self, reading) {
            (Condition::Elapsed { end }, Reading::Clock(now)) => now >= end,
            (Condition::Exists { not, .. }, Reading::Existence(found)) => found != not,
            (Condition::HttpGet { not, status, .. }, Reading::Status(Some(code))) => (code
                == status) != not,
            (Condition::TcpHost { not, .. }, Reading::Connection(made)) => made != not,
            (
                Condition::Update { not, modified: Some(previous), .. },
                Reading::Modified(Some(current)),
            ) => (previous != current) != not,
            (
                Condition::FileSize { not, bytes: Some(previous), .. },
                Reading::Size(Some(current)),
            ) => (previous != current) != not,
            _ => false,
        }
    }

    /// The condition after that tick: a successful reading of a stateful
    /// condition replaces what it remembered, everything else is kept.
    pub open spec fn after(self, reading: Reading) -> Condition {
        match (self, reading) {
            (Condition::Update { not, path, .. }, Reading::Modified(Some(current))) => {
                Condition::Update { not, path, modified: Some(current as int) }
            },
            (Condition::FileSize { not, path, .. }, Reading::Size(Some(current))) => {
                Condition::FileSize { not, path, bytes: Some(current as int) }
            },
            _ => self,
        }
    }

    /// Whether `probe` is the probe that this condition asks for.
    pub open spec fn asks(self, probe: Probe) -> bool {
        match (self, probe) {
            (Condition::Elapsed { .. }, Probe::Clock) => true,
            (Condition::Exists { path, .. }, Probe::Existence(target)) => target@ == path,
            (Condition::HttpGet { url, .. }, Probe::Status(target)) => target@ == url,
            (Condition::TcpHost { host, .. }, Probe::Connection(target)) => target@ == host,
            (Condition::Update { path, .. }, Probe::Modified(target)) => target@ == path,
            (Condition::FileSize { path, .. }, Probe::Size(target)) => target@ == path,
            _ => false,
        }
    }
}

/// What building a condition on a file's metadata gives: the condition
/// where the metadata shows a regular file with a modification time, else
/// the error that says what is wrong with the path.
pub open spec fn built_on_file(
    built: Result<Wait, Error>,
    path: Seq<char>,
    metadata: Option<FileInfo>,
    condition: Condition,
) -> bool {
    match built {
        Ok(wait) => wait@ == condition && (metadata matches Some(info) && info.is_file
            && info.modified.is_some()),
        Err(Error::MetadataUnavailable(text)) => text@ == path && metadata.is_none(),
        Err(Error::InputNotFile(text)) => text@ == path && (metadata matches Some(info) && (
        !info.is_file || info.modified.is_none())),
        Err(_) => false,
    }
}

/// What building a condition on a host gives: the condition where the
/// host names a numeric port, else the error that holds the host.
pub open spec fn built_on_host(built: Result<Wait, Error>, host: Seq<char>, not: bool) -> bool {
    match built {
        Ok(wait) => valid_tcp(host) && wait@ == (Condition::TcpHost { not, host }),
        Err(Error::InvalidHost(text)) => !valid_tcp(host) && text@ == host,
        Err(_) => false,
    }
}

impl View for Wait {
    type V = Condition;

    open spec fn view(&self) -> Condition {
        match *self {
            Wait::Elapsed { end_instant } => Condition::Elapsed { end: end_instant as int },
            Wait::Exists { not, path } => Condition::Exists { not, path: path@ },
            Wait::HttpGet { not, url, status } => Condition::HttpGet {
                not,
                url: url@,
                status: status as int,
            },
            Wait::TcpHost { not, host } => Condition::TcpHost { not, host: host@ },
            Wait::Update { not, path, modified } => Condition::Update {
                not,
                path: path@,
                modified: match modified {
                    Some(stamp) => Some(stamp as int),
                    None => None,
                },
            },
            Wait::FileSize { not, path, bytes } => Condition::FileSize {
                not,
                path: path@,
                bytes: match bytes {
                    Some(length) => Some(length as int),
                    None => None,
                },
            },
        }
    }
}

/// The nanoseconds in a second.
pub const NANOS_PER_SECOND: u64 = 1_000_000_000;

impl Wait {
    /// A condition that is met from `end_instant` on, a reading of the
    /// monotonic clock.
    pub fn new_elapsed(end_instant: u64) -> (wait: Wait)
        ensures
            wait@ == (Condition::Elapsed { end: end_instant as int }),
    {
        Wait::Elapsed { end_instant }
    }

    /// A condition that is met once `duration` has passed since `now`, the
    /// present reading of the monotonic clock.
    pub fn new_elapsed_from_duration(now: u64, duration: u64) -> (wait: Wait)
        requires
            now + duration <= u64::MAX,
        ensures
            wait@ == (Condition::Elapsed { end: now + duration }),
    {
        Wait::Elapsed { end_instant: now + duration }
    }

    /// A condition that is met when a GET to `url` answers `status`; with
    /// `not`, when it answers another status.
    pub fn new_http_get(url: &str, status: u16, not: bool) -> (wait: Wait)
        ensures
            wait@ == (Condition::HttpGet { not, url: url@, status: status as int }),
    {
        Wait::HttpGet { not, url: String::from_str(url), status }
    }

    /// A condition that is met when a TCP connection to `host` can be
    /// made; with `not`, when none can.
    pub fn new_tcp_connect(host: &str, not: bool) -> (wait: Wait)
        ensures
            wait@ == (Condition::TcpHost { not, host: host@ }),
    {
        Wait::TcpHost { not, host: String::from_str(host) }
    }

    /// A condition that is met when `path` exists; with `not`, when it
    /// does not.
    pub fn new_file_exists(path: &str, not: bool) -> (wait: Wait)
        ensures
            wait@ == (Condition::Exists { not, path: path@ }),
    {
        Wait::Exists { not, path: String::from_str(path) }
    }

    /// A condition that is met when the modification time of `path` has
    /// changed since the previous tick; with `not`, when it has not. It
    /// starts without a remembered time.
    pub fn new_file_update(path: &str, not: bool) -> (wait: Wait)
        ensures
            wait@ == (Condition::Update { not, path: path@, modified: None }),
    {
        Wait::Update { not, path: String::from_str(path), modified: None }
    }

    /// A condition that is met when the length of `path` has changed since
    /// the previous tick; with `not`, when it has not. It starts without a
    /// remembered length.
    pub fn new_file_size(path: &str, not: bool) -> (wait: Wait)
        ensures
            wait@ == (Condition::FileSize { not, path: path@, bytes: None }),
    {
        Wait::FileSize { not, path: String::from_str(path), bytes: None }
    }

    /// A condition that is met once `duration` has passed since `now`.
    pub fn elapsed(now: u64, duration: u64) -> (wait: Wait)
        requires
            now + duration <= u64::MAX,
        ensures
            wait@ == (Condition::Elapsed { end: now + duration }),
    {
        Wait::new_elapsed_from_duration(now, duration)
    }

    /// A condition that is met once the duration that `elapsed` spells,
    /// such as `3h10m`, has passed since `now`.
    pub fn elapsed_str(now: u64, elapsed: &str) -> (built: Result<Wait, Error>)
        requires
            duration_seconds(elapsed@) matches Some(seconds) ==> seconds > u64::MAX || now + seconds
                * NANOS_PER_SECOND <= u64::MAX,
        ensures
            match built {
                Ok(wait) => duration_seconds(elapsed@) matches Some(seconds) && wait@ == (
                Condition::Elapsed { end: now + seconds * NANOS_PER_SECOND }),
                Err(error) => error matches Error::InvalidDuration(text) && text@ == elapsed@ && (
                duration_seconds(elapsed@) matches Some(seconds) ==> seconds > u64::MAX),
            },
    {
        match parse_duration(elapsed) {
            Ok(seconds) => Ok(Wait::elapsed(now, seconds * NANOS_PER_SECOND)),
            Err(_) => Err(Error::InvalidDuration(String::from_str(elapsed))),
        }
    }

    /// A condition that is met when `path` exists.
    pub fn path_exists(path: &str) -> (wait: Wait)
        ensures
            wait@ == (Condition::Exists { not: false, path: path@ }),
    {
        Wait::new_file_exists(path, false)
    }

    /// A condition that is met when `path` does not exist.
    pub fn not_exists(path: &str) -> (wait: Wait)
        ensures
            wait@ == (Condition::Exists { not: true, path: path@ }),
    {
        Wait::new_file_exists(path, true)
    }

    /// Accepts a path for a condition on its metadata: the metadata must
    /// have been read, and show a regular file with a modification time.
    pub fn get_metadata(path: String, metadata: Option<FileInfo>) -> (checked: Result<
        (String, FileInfo),
        Error,
    >)
        ensures
            match checked {
                Ok(found) => found.0@ == path@ && metadata == Some(found.1) && found.1.is_file
                    && found.1.modified.is_some(),
                Err(Error::MetadataUnavailable(text)) => text@ == path@ && metadata.is_none(),
                Err(Error::InputNotFile(text)) => text@ == path@ && (metadata matches Some(info)
                    && (!info.is_file || info.modified.is_none())),
                Err(_) => false,
            },
    {
        match metadata {
            None => Err(Error::MetadataUnavailable(path)),
            Some(info) => if !info.is_file || info.modified.is_none() {
                Err(Error::InputNotFile(path))
            } else {
                Ok((path, info))
            },
        }
    }

    /// A condition that is met when the modification time of `path`
    /// changes from one tick to the next. `metadata` is what was read of
    /// the path just now, `None` where nothing could be read.
    pub fn update(path: &str, metadata: Option<FileInfo>) -> (built: Result<Wait, Error>)
        ensures
            built_on_file(
                built,
                path@,
                metadata,
                Condition::Update { not: false, path: path@, modified: None },
            ),
    {
        match Wait::get_metadata(String::from_str(path), metadata) {
            Ok(found) => Ok(Wait::Update { not: false, path: found.0, modified: None }),
            Err(error) => Err(error),
        }
    }

    /// A condition that is met when the modification time of `path` is
    /// the same on two ticks in a row.
    pub fn not_update(path: &str, metadata: Option<FileInfo>) -> (built: Result<Wait, Error>)
        ensures
            built_on_file(
                built,
                path@,
                metadata,
                Condition::Update { not: true, path: path@, modified: None },
            ),
    {
        match Wait::get_metadata(String::from_str(path), metadata) {
            Ok(found) => Ok(Wait::Update { not: true, path: found.0, modified: None }),
            Err(error) => Err(error),
        }
    }

    /// A condition that is met when the length of `path` changes from one
    /// tick to the next.
    pub fn file_size(path: &str, metadata: Option<FileInfo>) -> (built: Result<Wait, Error>)
        ensures
            built_on_file(
                built,
                path@,
                metadata,
                Condition::FileSize { not: false, path: path@, bytes: None },
            ),
    {
        match Wait::get_metadata(String::from_str(path), metadata) {
            Ok(found) => Ok(Wait::FileSize { not: false, path: found.0, bytes: None }),
            Err(error) => Err(error),
        }
    }

    /// A condition that is met when the length of `path` is the same on
    /// two ticks in a row.
    pub fn not_file_size(path: &str, metadata: Option<FileInfo>) -> (built: Result<Wait, Error>)
        ensures
            built_on_file(
                built,
                path@,
                metadata,
                Condition::FileSize { not: true, path: path@, bytes: None },
            ),
    {
        match Wait::get_metadata(String::from_str(path), metadata) {
            Ok(found) => Ok(Wait::FileSize { not: true, path: found.0, bytes: None }),
            Err(error) => Err(error),
        }
    }

    /// A condition on an HTTP GET, from an argument such as
    /// `404,http://host/`: met when the response has the status.
    pub fn http_get(urlarg: &str) -> (wait: Wait)
        ensures
            wait@ == (Condition::HttpGet {
                not: false,
                url: http_url(urlarg@),
                status: http_status(urlarg@),
            }),
    {
        let (status, url) = parse_http_get(urlarg);
        Wait::HttpGet { not: false, url, status }
    }

    /// A condition on an HTTP GET: met when the response has another
    /// status.
    pub fn not_http_get(urlarg: &str) -> (wait: Wait)
        ensures
            wait@ == (Condition::HttpGet {
                not: true,
                url: http_url(urlarg@),
                status: http_status(urlarg@),
            }),
    {
        let (status, url) = parse_http_get(urlarg);
        Wait::HttpGet { not: true, url, status }
    }

    /// A condition that is met when a TCP connection to `host` can be
    /// made. The host must name a numeric port.
    pub fn tcp(host: &str) -> (built: Result<Wait, Error>)
        ensures
            built_on_host(built, host@, false),
    {
        if validate_tcp(host) {
            Ok(Wait::TcpHost { not: false, host: String::from_str(host) })
        } else {
            Err(Error::InvalidHost(String::from_str(host)))
        }
    }

    /// A condition that is met when no TCP connection to `host` can be
    /// made. The host must name a numeric port.
    pub fn not_tcp(host: &str) -> (built: Result<Wait, Error>)
        ensures
            built_on_host(built, host@, true),
    {
        if validate_tcp(host) {
            Ok(Wait::TcpHost { not: true, host: String::from_str(host) })
        } else {
            Err(Error::InvalidHost(String::from_str(host)))
        }
    }

    /// The probe to perform before this condition is evaluated.
    pub fn probe(&self) -> (probe: Probe<'_>)
        ensures
            self@.asks(probe),
    {
        match self {
            Wait::Elapsed { .. } => Probe::Clock,
            Wait::Exists { path, .. } => Probe::Existence(path.as_str()),
            Wait::HttpGet { url, .. } => Probe::Status(url.as_str()),
            Wait::TcpHost { host, .. } => Probe::Connection(host.as_str()),
            Wait::Update { path, .. } => Probe::Modified(path.as_str()),
            Wait::FileSize { path, .. } => Probe::Size(path.as_str()),
        }
    }

    /// Evaluates the condition on one tick, from what its probe read, and
    /// remembers the reading where the condition is a stateful one.
    pub fn condition_met(&mut self, reading: Reading) -> (met: bool)
        ensures
            met == old(self)@.met(reading),
            final(self)@ == old(self)@.after(reading),
    {
        match self {
            Wait::Elapsed { end_instant } => match reading {
                Reading::Clock(now) => now >= *end_instant,
                _ => false,
            },
            Wait::Exists { not, .. } => match reading {
                Reading::Existence(found) => found != *not,
                _ => false,
            },
            Wait::HttpGet { not, status, .. } => match reading {
                Reading::Status(Some(code)) => (code == *status) != *not,
                _ => false,
            },
            Wait::TcpHost { not, .. } => match reading {
                Reading::Connection(made) => made != *not,
                _ => false,
            },
            Wait::Update { not, modified, .. } => match reading {
                Reading::Modified(Some(current)) => {
                    let met = match *modified {
                        Some(previous) => (previous != current) != *not,
                        None => false,
                    };
                    *modified = Some(current);
                    met
                },
                _ => false,
            },
            Wait::FileSize { not, bytes, .. } => match reading {
                Reading::Size(Some(current)) => {
                    let met = match *bytes {
                        Some(previous) => (previous != current) != *not,
                        None => false,
                    };
                    *bytes = Some(current);
                    met
                },
                _ => false,
            },
        }
    }
}

/// A condition on elapsed time is unmet at every reading of the clock
/// before its end and met at every reading from its end on. It remembers
/// nothing, so once met it is met at every later reading.
pub proof fn elapsed_is_monotone(now: u64, duration: u64, earlier: u64, later: u64)
    requires
        now + duration <= u64::MAX,
        earlier <= later,
    ensures
        ({
            let wait = Condition::Elapsed { end: now + duration };
            &&& wait.met(Reading::Clock(earlier)) <==> earlier >= now + duration
            &&& wait.met(Reading::Clock(earlier)) ==> wait.met(Reading::Clock(later))
            &&& wait.after(Reading::Clock(earlier)) == wait
        }),
{
}

/// On one sample of a path's existence, the condition on its existence is
/// met exactly when the negated condition is not.
pub proof fn exists_and_negation_disagree(path: Seq<char>, found: bool)
    ensures
        (Condition::Exists { not: false, path }).met(Reading::Existence(found)) <==> !(
        Condition::Exists { not: true, path }).met(Reading::Existence(found)),
{
}

/// A condition on a file's modification time is unmet on its first
/// reading, whatever its polarity, and remembers that reading. On the next
/// reading it is met when the time differs, or with `not` when it is the
/// same, and remembers the new reading either way.
pub proof fn update_is_edge_triggered(not: bool, path: Seq<char>, first: i128, second: i128)
    ensures
        ({
            let fresh = Condition::Update { not, path, modified: None };
            let based = Condition::Update { not, path, modified: Some(first as int) };
            &&& !fresh.met(Reading::Modified(Some(first)))
            &&& fresh.after(Reading::Modified(Some(first))) == based
            &&& based.met(Reading::Modified(Some(second))) <==> ((first != second) != not)
            &&& based.after(Reading::Modified(Some(second))) == (Condition::Update {
                not,
                path,
                modified: Some(second as int),
            })
        }),
{
}

/// A condition on a file's length is unmet on its first reading, whatever
/// its polarity, and remembers that reading. On the next reading it is met
/// when the length differs, or with `not` when it is the same, and
/// remembers the new reading either way.
pub proof fn file_size_is_edge_triggered(not: bool, path: Seq<char>, first: u64, second: u64)
    ensures
        ({
            let fresh = Condition::FileSize { not, path, bytes: None };
            let based = Condition::FileSize { not, path, bytes: Some(first as int) };
            &&& !fresh.met(Reading::Size(Some(first)))
            &&& fresh.after(Reading::Size(Some(first))) == based
            &&& based.met(Reading::Size(Some(second))) <==> ((first != second) != not)
            &&& based.after(Reading::Size(Some(second))) == (Condition::FileSize {
                not,
                path,
                bytes: Some(second as int),
            })
        }),
{
}

/// A probe that fails leaves every condition unmet and what it remembers
/// untouched, whatever its polarity.
pub proof fn failed_probe_is_unmet(wait: Condition)
    ensures
        !wait.met(Reading::Status(None)) && wait.after(Reading::Status(None)) == wait,
        !wait.met(Reading::Modified(None)) && wait.after(Reading::Modified(None)) == wait,
        !wait.met(Reading::Size(None)) && wait.after(Reading::Size(None)) == wait,
{
}

} // verus!
