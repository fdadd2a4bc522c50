//! The reporting client: turns idle statuses and window observations into
//! heartbeats for the event server, names the buckets, and decides retries.
//! Sending is left to the caller, which hands each outcome back to
//! [`Retry`].
use crate::config::Config;
use crate::filters::{first_match, FilterResult, Verdict};
use crate::idle::{valid_stored_time, valid_time, Status, Tracker};
use vstd::prelude::*;
use vstd::string::StringSliceAdditionalSpecFns;

verus! {

/// Name under which this client registers its buckets.
pub const CLIENT_NAME: &'static str = "awatcher";

pub const IDLE_BUCKET_PREFIX: &'static str = "aw-watcher-afk_";

pub const WINDOW_BUCKET_PREFIX: &'static str = "aw-watcher-window_";

/// Type of the idle-status bucket.
pub const IDLE_BUCKET_TYPE: &'static str = "afkstatus";

/// Type of the active-window bucket.
pub const WINDOW_BUCKET_TYPE: &'static str = "currentwindow";

pub const STATUS_KEY: &'static str = "status";

pub const STATUS_IDLE: &'static str = "afk";

pub const STATUS_ACTIVE: &'static str = "not-afk";

pub const APP_KEY: &'static str = "app";

pub const TITLE_KEY: &'static str = "title";

/// What the error of a refused connection says.
pub const REFUSED_MARK: &'static str = "tcp connect error: Connection refused";

/// Number of times one request is tried while the connection is refused.
pub const MAX_ATTEMPTS: u32 = 3;

/// Relies on `gethostname::gethostname`, and on `OsString::into_string`
/// for its conversion: `None` when the name is not valid Unicode.
#[verifier::external_body]
fn system_host_name() -> (r: Option<String>) {
    gethostname::gethostname().into_string().ok()
}

/// One idle-status event: the state, its start and its length in
/// milliseconds.
#[derive(Debug, Clone, Copy, PartialEq, Eq, Structural)]
pub struct Ping {
    pub is_idle: bool,
    pub timestamp: i64,
    pub duration: i64,
}

/// The events that report `status`, in the order they are sent. A
/// transition first closes the old state and then opens the new one one
/// millisecond later; otherwise one event continues the current state.
pub open spec fn status_pings(status: Status) -> Seq<Ping> {
    match status {
        Status::Idle { changed, last_input_time, duration } => if changed {
            seq![
                Ping { is_idle: false, timestamp: last_input_time, duration: 0 },
                Ping { is_idle: true, timestamp: (last_input_time + 1) as i64, duration },
            ]
        } else {
            seq![Ping { is_idle: true, timestamp: last_input_time, duration }]
        },
        Status::Active { changed, last_input_time } => if changed {
            seq![
                Ping { is_idle: true, timestamp: (last_input_time - 1) as i64, duration: 0 },
                Ping { is_idle: false, timestamp: last_input_time, duration: 0 },
            ]
        } else {
            seq![Ping { is_idle: false, timestamp: last_input_time, duration: 0 }]
        },
    }
}

/// A status whose times leave room for the one-millisecond offsets.
pub open spec fn status_in_range(status: Status) -> bool {
    valid_stored_time(status.last_input_spec() as int)
}

/// A heartbeat for the event server: an event of `data` that starts at
/// `timestamp` (milliseconds since the epoch) and lasts `duration`
/// milliseconds, to be merged with the bucket's previous event when they
/// are at most `pulsetime` seconds apart.
pub struct Heartbeat {
    pub bucket: String,
    pub timestamp: i64,
    pub duration: i64,
    pub data: Vec<(String, String)>,
    pub pulsetime: u64,
}

pub open spec fn pair_view(p: (String, String)) -> (Seq<char>, Seq<char>) {
    (p.0@, p.1@)
}

impl Heartbeat {
    pub open spec fn data_view(&self) -> Seq<(Seq<char>, Seq<char>)> {
        self.data@.map_values(|p: (String, String)| pair_view(p))
    }
}

/// A bucket to create on the server: its id and its type.
pub struct BucketRequest {
    pub bucket: String,
    pub bucket_type: String,
}

/// Why the client could not be set up.
#[derive(Debug, Clone, Copy, PartialEq, Eq, Structural)]
pub enum ReportError {
    /// The machine's host name is not valid Unicode.
    HostName,
}

/// The reporting client: the settings and the two bucket names.
pub struct ReportClient {
    pub config: Config,
    pub idle_bucket_name: String,
    pub active_window_bucket_name: String,
}

impl ReportClient {
    /// Bucket names are derived from `host_name`.
    pub fn with_host_name(config: Config, host_name: &str) -> (r: ReportClient)
        ensures
            r.config == config,
            r.idle_bucket_name@ == IDLE_BUCKET_PREFIX@ + host_name@,
            r.active_window_bucket_name@ == WINDOW_BUCKET_PREFIX@ + host_name@,
    {
        let mut idle_bucket_name = String::from_str(IDLE_BUCKET_PREFIX);
        idle_bucket_name.append(host_name);
        let mut active_window_bucket_name = String::from_str(WINDOW_BUCKET_PREFIX);
        active_window_bucket_name.append(host_name);
        ReportClient { config, idle_bucket_name, active_window_bucket_name }
    }

    /// A client whose bucket names carry this machine's host name.
    pub fn new(config: Config) -> (r: Result<ReportClient, ReportError>)
        ensures
            r matches Ok(c) ==> c.config == config,
            r matches Ok(c) ==> exists|h: Seq<char>|
                c.idle_bucket_name@ == IDLE_BUCKET_PREFIX@ + h
                    && c.active_window_bucket_name@ == WINDOW_BUCKET_PREFIX@ + h,
            r matches Err(e) ==> e == ReportError::HostName,
    {
        match system_host_name() {
            Some(name) => {
                let c = Self::with_host_name(config, name.as_str());
                assert(c.idle_bucket_name@ == IDLE_BUCKET_PREFIX@ + name@);
                Ok(c)
            },
            None => Err(ReportError::HostName),
        }
    }

    /// The request that creates bucket `name` of type `bucket_type`.
    pub fn create_bucket(name: &str, bucket_type: &str) -> (r: BucketRequest)
        ensures
            r.bucket@ == name@,
            r.bucket_type@ == bucket_type@,
    {
        BucketRequest { bucket: String::from_str(name), bucket_type: String::from_str(bucket_type) }
    }

    /// The buckets to create at startup: none without a server, else the
    /// idle bucket and then the window bucket.
    pub fn startup_buckets(&self) -> (r: Vec<BucketRequest>)
        ensures
            self.config.no_server ==> r@.len() == 0,
            !self.config.no_server ==> {
                &&& r@.len() == 2
                &&& r@[0].bucket@ == self.idle_bucket_name@
                &&& r@[0].bucket_type@ == IDLE_BUCKET_TYPE@
                &&& r@[1].bucket@ == self.active_window_bucket_name@
                &&& r@[1].bucket_type@ == WINDOW_BUCKET_TYPE@
            },
    {
        let mut r: Vec<BucketRequest> = Vec::new();
        if !self.config.no_server {
            r.push(Self::create_bucket(self.idle_bucket_name.as_str(), IDLE_BUCKET_TYPE));
            r.push(Self::create_bucket(self.active_window_bucket_name.as_str(), WINDOW_BUCKET_TYPE));
        }
        r
    }

    /// Seconds within which two idle heartbeats merge.
    pub open spec fn idle_pulsetime(&self) -> int {
        self.config.idle_timeout + self.config.poll_time_idle
    }

    /// `h` is the idle heartbeat that reports `p`.
    pub open spec fn is_idle_heartbeat(&self, h: Heartbeat, p: Ping) -> bool {
        &&& h.bucket@ == self.idle_bucket_name@
        &&& h.timestamp == p.timestamp
        &&& h.duration == p.duration
        &&& h.data_view() == seq![(STATUS_KEY@, if p.is_idle { STATUS_IDLE@ } else { STATUS_ACTIVE@ })]
        &&& h.pulsetime == self.idle_pulsetime()
    }

    fn idle_heartbeat(&self, p: Ping) -> (r: Heartbeat)
        ensures
            self.is_idle_heartbeat(r, p),
    {
        let value = if p.is_idle { STATUS_IDLE } else { STATUS_ACTIVE };
        let mut data: Vec<(String, String)> = Vec::new();
        data.push((String::from_str(STATUS_KEY), String::from_str(value)));
        let r = Heartbeat {
            bucket: self.idle_bucket_name.clone(),
            timestamp: p.timestamp,
            duration: p.duration,
            data,
            pulsetime: self.config.idle_timeout as u64 + self.config.poll_time_idle as u64,
        };
        assert(r.data_view() =~= seq![(STATUS_KEY@, value@)]);
        r
    }

    /// The heartbeat of one idle-status event; `None` without a server.
    pub fn ping(&self, is_idle: bool, timestamp: i64, duration: i64) -> (r: Option<Heartbeat>)
        ensures
            self.config.no_server <==> r is None,
            r matches Some(h) ==> self.is_idle_heartbeat(h, Ping { is_idle, timestamp, duration }),
    {
        if self.config.no_server {
            return None;
        }
        Some(self.idle_heartbeat(Ping { is_idle, timestamp, duration }))
    }

    /// The heartbeats that report `status`, in sending order; none without
    /// a server.
    pub fn handle_idle_status(&self, status: Status) -> (r: Vec<Heartbeat>)
        requires
            status_in_range(status),
        ensures
            self.config.no_server ==> r@.len() == 0,
            !self.config.no_server ==> {
                &&& r@.len() == status_pings(status).len()
                &&& forall|i: int| 0 <= i < r@.len() ==> self.is_idle_heartbeat(#[trigger] r@[i], status_pings(status)[i])
            },
    {
        let pings = idle_status_pings(status);
        let mut r: Vec<Heartbeat> = Vec::new();
        if self.config.no_server {
            return r;
        }
        let mut i: usize = 0;
        while i < pings.len()
            invariant
                pings@ == status_pings(status),
                i <= pings@.len(),
                r@.len() == i,
                forall|j: int| 0 <= j < i ==> self.is_idle_heartbeat(#[trigger] r@[j], pings@[j]),
            decreases pings@.len() - i,
        {
            r.push(self.idle_heartbeat(pings[i]));
            i += 1;
        }
        r
    }

    /// The values to report for a window after the filters: `None` when a
    /// match-only rule suppresses it.
    pub fn get_filtered_data(&self, app_id: &str, title: &str) -> (r: Option<(String, String)>)
        ensures
            r is None <==> first_match(self.config.filters@, app_id@, title@) is Match,
            r matches Some(p) ==> match first_match(self.config.filters@, app_id@, title@) {
                Verdict::Replace(a, t) => {
                    &&& p.0@ == (match a { Some(a) => a, None => app_id@ })
                    &&& p.1@ == (match t { Some(t) => t, None => title@ })
                },
                _ => p.0@ == app_id@ && p.1@ == title@,
            },
    {
        match self.config.match_window_data(app_id, title) {
            FilterResult::Replace(replacement) => {
                let a = match replacement.replace_app_id {
                    Some(a) => a,
                    None => String::from_str(app_id),
                };
                let t = match replacement.replace_title {
                    Some(t) => t,
                    None => String::from_str(title),
                };
                Some((a, t))
            },
            FilterResult::Match => None,
            FilterResult::Skip => Some((String::from_str(app_id), String::from_str(title))),
        }
    }

    /// `h` reports the window `(app, title)` observed at `now`.
    pub open spec fn is_window_heartbeat(&self, h: Heartbeat, app: Seq<char>, title: Seq<char>, now: i64) -> bool {
        &&& h.bucket@ == self.active_window_bucket_name@
        &&& h.timestamp == now
        &&& h.duration == 0
        &&& h.data_view() == seq![(APP_KEY@, app), (TITLE_KEY@, title)]
        &&& h.pulsetime == self.config.poll_time_window + 1
    }

    /// The heartbeat of the window `(app_id, title)` observed at `now`:
    /// `None` when a rule suppresses it or there is no server; otherwise it
    /// carries the filtered values, and its merge margin exceeds the window
    /// poll period by one second.
    pub fn send_active_window(&self, app_id: &str, title: &str, now: i64) -> (r: Option<Heartbeat>)
        ensures
            r is None <==> (self.config.no_server || first_match(self.config.filters@, app_id@, title@) is Match),
            r matches Some(h) ==> match first_match(self.config.filters@, app_id@, title@) {
                Verdict::Replace(a, t) => self.is_window_heartbeat(
                    h,
                    match a { Some(a) => a, None => app_id@ },
                    match t { Some(t) => t, None => title@ },
                    now,
                ),
                _ => self.is_window_heartbeat(h, app_id@, title@, now),
            },
    {
        let (app, t) = match self.get_filtered_data(app_id, title) {
            Some(p) => p,
            None => {
                return None;
            },
        };
        if self.config.no_server {
            return None;
        }
        let ghost app_view = app@;
        let ghost title_view = t@;
        let mut data: Vec<(String, String)> = Vec::new();
        data.push((String::from_str(APP_KEY), app));
        data.push((String::from_str(TITLE_KEY), t));
        let h = Heartbeat {
            bucket: self.active_window_bucket_name.clone(),
            timestamp: now,
            duration: 0,
            data,
            pulsetime: self.config.poll_time_window as u64 + 1,
        };
        assert(h.data_view() =~= seq![(APP_KEY@, app_view), (TITLE_KEY@, title_view)]);
        Some(h)
    }
}

/// The events that report `status`, in the order they are sent.
pub fn idle_status_pings(status: Status) -> (r: Vec<Ping>)
    requires
        status_in_range(status),
    ensures
        r@ == status_pings(status),
{
    match status {
        Status::Idle { changed, last_input_time, duration } => {
            if changed {
                vec![
                    Ping { is_idle: false, timestamp: last_input_time, duration: 0 },
                    Ping { is_idle: true, timestamp: last_input_time + 1, duration },
                ]
            } else {
                vec![Ping { is_idle: true, timestamp: last_input_time, duration }]
            }
        },
        Status::Active { changed, last_input_time } => {
            if changed {
                vec![
                    Ping { is_idle: true, timestamp: last_input_time - 1, duration: 0 },
                    Ping { is_idle: false, timestamp: last_input_time, duration: 0 },
                ]
            } else {
                vec![Ping { is_idle: false, timestamp: last_input_time, duration: 0 }]
            }
        },
    }
}

/// Whether `needle` occurs in `hay` at position `i`.
pub open spec fn occurs_at(hay: Seq<u8>, needle: Seq<u8>, i: int) -> bool {
    0 <= i && i + needle.len() <= hay.len() && hay.subrange(i, i + needle.len()) == needle
}

/// Whether `needle` occurs somewhere in `hay`.
pub open spec fn occurs_in(hay: Seq<u8>, needle: Seq<u8>) -> bool {
    exists|i: int| occurs_at(hay, needle, i)
}

fn bytes_occur_at(hay: &[u8], needle: &[u8], i: usize) -> (r: bool)
    requires
        i + needle@.len() <= hay@.len(),
    ensures
        r == occurs_at(hay@, needle@, i as int),
{
    let n = hay.len();
    let mut j: usize = 0;
    while j < needle.len()
        invariant
            i + needle@.len() <= hay@.len(),
            n == hay@.len(),
            j <= needle@.len(),
            forall|k: int| 0 <= k < j ==> hay@[i + k] == needle@[k],
        decreases needle@.len() - j,
    {
        if hay[i + j] != needle[j] {
            assert(hay@.subrange(i as int, i + needle@.len())[j as int] != needle@[j as int]);
            return false;
        }
        j += 1;
    }
    assert(hay@.subrange(i as int, i + needle@.len()) =~= needle@);
    true
}

fn bytes_occur(hay: &[u8], needle: &[u8]) -> (r: bool)
    ensures
        r == occurs_in(hay@, needle@),
{
    if needle.len() > hay.len() {
        return false;
    }
    let last = hay.len() - needle.len();
    let mut i: usize = 0;
    loop
        invariant
            last == hay@.len() - needle@.len(),
            i <= last,
            forall|k: int| 0 <= k < i ==> !occurs_at(hay@, needle@, k),
        ensures
            forall|k: int| 0 <= k <= last ==> !occurs_at(hay@, needle@, k),
        decreases last - i,
    {
        if bytes_occur_at(hay, needle, i) {
            return true;
        }
        if i == last {
            break;
        }
        i += 1;
    }
    assert forall|k: int| !occurs_at(hay@, needle@, k) by {
        if 0 <= k && k + needle@.len() <= hay@.len() {
            assert(k <= last);
        }
    }
    false
}

/// The outcome of one try of a request.
#[derive(Debug, Clone, Copy, PartialEq, Eq, Structural)]
pub enum Attempt {
    Succeeded,
    /// The server refused the connection: worth another try.
    Refused,
    /// Any other failure: final.
    Failed,
}

/// The outcome of a failed try, from its error message.
pub fn classify_error(message: &str) -> (r: Attempt)
    ensures
        r == (if occurs_in(message.spec_bytes(), REFUSED_MARK.spec_bytes()) {
            Attempt::Refused
        } else {
            Attempt::Failed
        }),
{
    if bytes_occur(message.as_bytes(), REFUSED_MARK.as_bytes()) {
        Attempt::Refused
    } else {
        Attempt::Failed
    }
}

/// What to do after a try.
#[derive(Debug, Clone, Copy, PartialEq, Eq, Structural)]
pub enum RetryStep {
    /// Stop, with success or failure.
    Done { ok: bool },
    /// Wait this many seconds and try again.
    RetryAfter { seconds: u64 },
}

/// The step after try number `attempt` (from one) ended with `outcome`:
/// a refused connection is tried again, after as many seconds as tries were
/// made, until [`MAX_ATTEMPTS`] tries were made.
pub open spec fn retry_step(attempt: int, outcome: Attempt) -> RetryStep {
    match outcome {
        Attempt::Succeeded => RetryStep::Done { ok: true },
        Attempt::Failed => RetryStep::Done { ok: false },
        Attempt::Refused => if attempt < MAX_ATTEMPTS {
            RetryStep::RetryAfter { seconds: attempt as u64 }
        } else {
            RetryStep::Done { ok: false }
        },
    }
}

/// The retry policy of one request, fed with the outcome of each try.
pub struct Retry {
    /// Tries made so far.
    pub attempts: u32,
}

impl Retry {
    pub fn new() -> (r: Retry)
        ensures
            r.attempts == 0,
    {
        Retry { attempts: 0 }
    }

    /// Records one try and says what comes next. Once it said
    /// [`RetryStep::Done`], no further try is made.
    pub fn next(&mut self, outcome: Attempt) -> (r: RetryStep)
        requires
            old(self).attempts < MAX_ATTEMPTS,
        ensures
            final(self).attempts == old(self).attempts + 1,
            r == retry_step(final(self).attempts as int, outcome),
            r is RetryAfter ==> final(self).attempts < MAX_ATTEMPTS,
    {
        self.attempts = self.attempts + 1;
        match outcome {
            Attempt::Succeeded => RetryStep::Done { ok: true },
            Attempt::Failed => RetryStep::Done { ok: false },
            Attempt::Refused => {
                if self.attempts < MAX_ATTEMPTS {
                    RetryStep::RetryAfter { seconds: self.attempts as u64 }
                } else {
                    RetryStep::Done { ok: false }
                }
            },
        }
    }
}

/// Tries made, and the final success, when the tries after the first
/// `made` end with `outcomes[made]`, `outcomes[made + 1]`, ...
pub open spec fn retry_run(outcomes: Seq<Attempt>, made: nat) -> (nat, bool)
    decreases MAX_ATTEMPTS - made,
{
    if made >= MAX_ATTEMPTS || made >= outcomes.len() {
        (made, false)
    } else {
        match retry_step(made + 1 as int, outcomes[made as int]) {
            RetryStep::Done { ok } => (made + 1, ok),
            RetryStep::RetryAfter { .. } => retry_run(outcomes, made + 1),
        }
    }
}

proof fn lemma_refused_run(outcomes: Seq<Attempt>, made: nat)
    requires
        made <= MAX_ATTEMPTS,
        outcomes.len() >= MAX_ATTEMPTS,
        forall|i: int| 0 <= i < outcomes.len() ==> outcomes[i] == Attempt::Refused,
    ensures
        retry_run(outcomes, made) == (MAX_ATTEMPTS as nat, false),
    decreases MAX_ATTEMPTS - made,
{
    if made < MAX_ATTEMPTS {
        lemma_refused_run(outcomes, made + 1);
    }
}

proof fn lemma_run_bounded(outcomes: Seq<Attempt>, made: nat)
    requires
        made <= MAX_ATTEMPTS,
    ensures
        retry_run(outcomes, made).0 <= MAX_ATTEMPTS,
    decreases MAX_ATTEMPTS - made,
{
    if made < MAX_ATTEMPTS && made < outcomes.len() {
        lemma_run_bounded(outcomes, made + 1);
    }
}

/// Against a server that always refuses the connection, a request is tried
/// exactly [`MAX_ATTEMPTS`] times and then fails; against any server it is
/// tried at most that often.
pub proof fn lemma_retry_bound(outcomes: Seq<Attempt>)
    requires
        outcomes.len() >= MAX_ATTEMPTS,
    ensures
        retry_run(outcomes, 0).0 <= MAX_ATTEMPTS,
        (forall|i: int| 0 <= i < outcomes.len() ==> outcomes[i] == Attempt::Refused)
            ==> retry_run(outcomes, 0) == (MAX_ATTEMPTS as nat, false),
{
    lemma_run_bounded(outcomes, 0);
    if forall|i: int| 0 <= i < outcomes.len() ==> outcomes[i] == Attempt::Refused {
        lemma_refused_run(outcomes, 0);
    }
}

/// A poll that crosses the idle timeout yields a status reported by exactly
/// two events: the first closes the old state, the second opens the new one
/// one millisecond later, and an idle event lasts from the last input to the
/// poll. A poll that crosses nothing, after the last transition was
/// reported, yields one event of the unchanged state.
pub proof fn lemma_transition_double_report(t: Tracker, now: int, seconds: int)
    requires
        t.wf(),
        valid_time(now),
        0 <= seconds <= u32::MAX,
    ensures
        ({
            let u = t.observed(now, seconds);
            let s = u.status_at(now);
            let p = status_pings(s);
            &&& status_in_range(s)
            &&& u.is_idle != t.is_idle ==> {
                &&& s.changed_spec()
                &&& p.len() == 2
                &&& p[0].is_idle == t.is_idle
                &&& p[1].is_idle == u.is_idle
                &&& p[1].timestamp == p[0].timestamp + 1
                &&& u.is_idle ==> p[1].duration == now - u.last_input_time
            }
            &&& (u.is_idle == t.is_idle && !t.is_changed) ==> {
                &&& p.len() == 1
                &&& p[0].is_idle == t.is_idle
                &&& p[0].timestamp == u.last_input_time
                &&& u.is_idle ==> p[0].duration == now - u.last_input_time
            }
        }),
{
}

/// In push mode, an idle or resume notification followed by a status read
/// is reported by exactly two events: the first closes the old state, the
/// second opens the new one one millisecond later.
pub proof fn lemma_push_transition_double_report(t: Tracker, t1: int, t2: int)
    requires
        t.wf(),
        valid_time(t1),
        valid_time(t2),
        t1 <= t2,
    ensures
        ({
            let u = if t.is_idle { t.after_mark_not_idle(t1) } else { t.after_mark_idle() };
            let s = u.reacted(t2).status_at(t2);
            let p = status_pings(s);
            &&& status_in_range(s)
            &&& s.changed_spec()
            &&& p.len() == 2
            &&& p[0].is_idle == t.is_idle
            &&& p[1].is_idle == !t.is_idle
            &&& p[1].timestamp == p[0].timestamp + 1
        }),
{
}

/// The request that creates a bucket depends on its name and type alone:
/// creating a bucket a second time repeats the first request exactly, and
/// an answer that the server accepts ends it with success at the first try.
pub proof fn lemma_bucket_creation_repeatable(
    name: Seq<char>,
    bucket_type: Seq<char>,
    first: BucketRequest,
    second: BucketRequest,
)
    requires
        first.bucket@ == name && first.bucket_type@ == bucket_type,
        second.bucket@ == name && second.bucket_type@ == bucket_type,
    ensures
        first.bucket@ == second.bucket@,
        first.bucket_type@ == second.bucket_type@,
        retry_step(1, Attempt::Succeeded) == (RetryStep::Done { ok: true }),
{
}

} // verus!
