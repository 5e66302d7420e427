//! Log sinks: what a line of a child's output turns into.
use vstd::prelude::*;

use crate::OutType;

verus! {

/// A calendar date in UTC.
#[derive(Clone, Copy, Debug, PartialEq, Eq, Structural)]
pub struct UtcDate {
    pub year: i32,
    pub month: u8,
    pub day: u8,
}

impl UtcDate {
    pub open spec fn wf(&self) -> bool {
        1 <= self.month <= 12 && 1 <= self.day <= 31
    }
}

/// The character of a decimal digit.
pub open spec fn digit_char(d: nat) -> char {
    if d == 0 { '0' }
    else if d == 1 { '1' }
    else if d == 2 { '2' }
    else if d == 3 { '3' }
    else if d == 4 { '4' }
    else if d == 5 { '5' }
    else if d == 6 { '6' }
    else if d == 7 { '7' }
    else if d == 8 { '8' }
    else { '9' }
}

/// The decimal text of a natural number, without leading zeros.
pub open spec fn decimal(n: nat) -> Seq<char>
    decreases n,
{
    if n < 10 {
        seq![digit_char(n)]
    } else {
        decimal(n / 10) + seq![digit_char(n % 10)]
    }
}

/// The decimal text of an integer, with a leading `-` when it is negative.
pub open spec fn signed_decimal(i: int) -> Seq<char> {
    if i < 0 {
        seq!['-'] + decimal((-i) as nat)
    } else {
        decimal(i as nat)
    }
}

/// `year/month/day`, each number in decimal without padding.
pub open spec fn date_text(d: UtcDate) -> Seq<char> {
    signed_decimal(d.year as int) + seq!['/'] + decimal(d.month as nat) + seq!['/']
        + decimal(d.day as nat)
}

/// The name of the remote stream for a date, a prefix and an optional machine:
/// `year/month/day/prefix`, followed by `/machine` when there is one.
pub open spec fn stream_name(d: UtcDate, prefix: Seq<char>, machine_id: Option<Seq<char>>) -> Seq<char> {
    match machine_id {
        None => date_text(d) + seq!['/'] + prefix,
        Some(m) => date_text(d) + seq!['/'] + prefix + seq!['/'] + m,
    }
}

fn digit_str(d: u64) -> (r: &'static str)
    requires
        d < 10,
    ensures
        r@ == seq![digit_char(d as nat)],
{
    proof {
        reveal_strlit("0");
        reveal_strlit("1");
        reveal_strlit("2");
        reveal_strlit("3");
        reveal_strlit("4");
        reveal_strlit("5");
        reveal_strlit("6");
        reveal_strlit("7");
        reveal_strlit("8");
        reveal_strlit("9");
    }
    if d == 0 { "0" }
    else if d == 1 { "1" }
    else if d == 2 { "2" }
    else if d == 3 { "3" }
    else if d == 4 { "4" }
    else if d == 5 { "5" }
    else if d == 6 { "6" }
    else if d == 7 { "7" }
    else if d == 8 { "8" }
    else { "9" }
}

/// Appends the decimal text of `n`.
fn append_decimal(s: &mut String, n: u64)
    ensures
        final(s)@ == old(s)@ + decimal(n as nat),
    decreases n,
{
    if n >= 10 {
        append_decimal(s, n / 10);
    }
    s.append(digit_str(n % 10));
    assert(final(s)@ =~= old(s)@ + decimal(n as nat));
}

/// The text `year/month/day` of a date.
pub fn date_to_text(d: UtcDate) -> (r: String)
    ensures
        r@ == date_text(d),
{
    let mut s = String::new();
    if d.year < 0 {
        proof { reveal_strlit("-"); }
        s.append("-");
        let y: i64 = d.year as i64;
        append_decimal(&mut s, (-y) as u64);
    } else {
        append_decimal(&mut s, d.year as u64);
    }
    proof { reveal_strlit("/"); }
    s.append("/");
    append_decimal(&mut s, d.month as u64);
    s.append("/");
    append_decimal(&mut s, d.day as u64);
    assert(s@ =~= date_text(d));
    s
}

/// Clones an optional text.
pub fn clone_text(o: &Option<String>) -> (r: Option<String>)
    ensures
        r.deep_view() == o.deep_view(),
{
    match o {
        Some(s) => Some(s.clone()),
        None => None,
    }
}

/// The UTC calendar date (year, month, day) of a Unix timestamp in seconds.
pub uninterp spec fn date_of_unix(secs: i64) -> (int, int, int);

/// Whether `d` is the UTC date of some instant at or after the Unix epoch.
pub open spec fn is_unix_date(d: UtcDate) -> bool {
    exists|secs: i64| secs >= 0 && #[trigger] date_of_unix(secs) == (d.year as int, d.month as int, d.day as int)
}

/// Relies on std::time::SystemTime::now and SystemTime::duration_since: the
/// whole seconds from the Unix epoch to now, or `None` when the clock reads a
/// time before the epoch.
#[verifier::external_body]
fn unix_seconds_now() -> (r: Option<u64>) {
    std::time::SystemTime::now().duration_since(std::time::UNIX_EPOCH).ok().map(|d| d.as_secs())
}

/// Relies on time::OffsetDateTime::from_unix_timestamp and its year, month and
/// day accessors: the UTC date of the timestamp `secs`, whose month is in
/// 1..=12 and whose day is in 1..=31; `None` when the timestamp lies outside
/// the dates the crate covers.
#[verifier::external_body]
fn utc_date_of_unix(secs: i64) -> (r: Option<UtcDate>)
    ensures
        r matches Some(d) ==> d.wf() && date_of_unix(secs) == (d.year as int, d.month as int, d.day as int),
{
    time::OffsetDateTime::from_unix_timestamp(secs).ok().map(
        |t: time::OffsetDateTime| UtcDate { year: t.year(), month: u8::from(t.month()), day: t.day() },
    )
}

/// Today's date in UTC, or `None` when the clock reads a time that the
/// calendar does not cover.
pub(crate) fn today_utc() -> (r: Option<UtcDate>)
    ensures
        r matches Some(d) ==> d.wf() && is_unix_date(d),
{
    match unix_seconds_now() {
        Some(secs) => {
            if secs <= i64::MAX as u64 {
                utc_date_of_unix(secs as i64)
            } else {
                None
            }
        },
        None => None,
    }
}

/// The effect that logging one line has: what to write where.
#[derive(Debug)]
pub enum LogAction {
    /// Write `text` as it is to the supervisor's standard output or error.
    Print { out_type: OutType, text: String },
    /// Append `message` with `timestamp` (epoch milliseconds) to a remote stream.
    Put { log_group: String, log_stream: String, timestamp: i64, message: String },
}

/// A request to make sure a remote stream exists.
#[derive(Debug)]
pub struct StreamRequest {
    pub log_group: String,
    pub log_stream: String,
}

/// Settings of a console sink.
pub struct ConsoleLogConfig {
    pub name: String,
}

/// A sink that writes each line to the supervisor's own console.
#[derive(Clone, Debug)]
pub struct ConsoleLogProcessor {
    pub name: String,
}

/// A console sink is labelled with its settings' name.
impl From<ConsoleLogConfig> for ConsoleLogProcessor {
    fn from(c: ConsoleLogConfig) -> ConsoleLogProcessor {
        ConsoleLogProcessor { name: c.name }
    }
}

impl vstd::std_specs::convert::FromSpecImpl<ConsoleLogConfig> for ConsoleLogProcessor {
    open spec fn obeys_from_spec() -> bool {
        true
    }

    open spec fn from_spec(c: ConsoleLogConfig) -> ConsoleLogProcessor {
        ConsoleLogProcessor { name: c.name }
    }
}

impl ConsoleLogProcessor {
    /// A line goes, unchanged, to standard output or standard error after its
    /// stream.
    pub fn log(&self, timestamp: i64, content: String, out_type: &OutType) -> (r: LogAction)
        ensures
            r matches LogAction::Print { out_type: o, text } && o == *out_type && text@ == content@,
    {
        LogAction::Print { out_type: *out_type, text: content }
    }
}

/// Credentials for the remote log service.
#[derive(Clone, Debug)]
pub struct AwsCredentials {
    pub key: String,
    pub private_key: String,
}

/// Settings of a remote log sink.
#[derive(Debug)]
pub struct AwsLogConfig {
    pub credentials: Option<AwsCredentials>,
    pub region: Option<String>,
    pub log_group: String,
    pub log_stream_prefix: String,
}

/// A sink that appends each line to one stream of a remote log group. The
/// stream's name is fixed when the sink is made, from the date of that day.
#[derive(Clone, Debug)]
pub struct AwsLogProcessor {
    pub log_group: String,
    pub log_stream_prefix: String,
    pub machine_id: Option<String>,
    pub created_on: UtcDate,
    pub stream: String,
}

impl AwsLogProcessor {
    /// The stream name is the one of the creation date, prefix and machine.
    pub open spec fn wf(&self) -> bool {
        &&& self.created_on.wf()
        &&& self.stream@ == stream_name(
            self.created_on,
            self.log_stream_prefix@,
            self.machine_id.deep_view(),
        )
    }

    /// The sink for `config` and `machine_id`, made on the date `today`.
    pub fn from_config_on(config: &AwsLogConfig, machine_id: Option<String>, today: UtcDate) -> (r: AwsLogProcessor)
        requires
            today.wf(),
        ensures
            r.wf(),
            r.created_on == today,
            r.log_group@ == config.log_group@,
            r.log_stream_prefix@ == config.log_stream_prefix@,
            r.machine_id.deep_view() == machine_id.deep_view(),
    {
        let mut stream = date_to_text(today);
        proof { reveal_strlit("/"); }
        stream.append("/");
        stream.append(config.log_stream_prefix.as_str());
        match &machine_id {
            Some(m) => {
                stream.append("/");
                stream.append(m.as_str());
            },
            None => {},
        }
        assert(stream@ =~= stream_name(today, config.log_stream_prefix@, machine_id.deep_view()));
        AwsLogProcessor {
            log_group: config.log_group.clone(),
            log_stream_prefix: config.log_stream_prefix.clone(),
            machine_id,
            created_on: today,
            stream,
        }
    }

    /// The sink for `config` and `machine_id`, made today (in UTC); `None` when
    /// the clock reads a time that the calendar does not cover.
    pub fn from_config(config: &AwsLogConfig, machine_id: Option<String>) -> (r: Option<AwsLogProcessor>)
        ensures
            r matches Some(p) ==> {
                &&& p.wf()
                &&& is_unix_date(p.created_on)
                &&& p.log_group@ == config.log_group@
                &&& p.log_stream_prefix@ == config.log_stream_prefix@
                &&& p.machine_id.deep_view() == machine_id.deep_view()
            },
    {
        match today_utc() {
            Some(today) => Some(Self::from_config_on(config, machine_id, today)),
            None => None,
        }
    }

    /// The name of the stream that every line goes to.
    pub fn get_stream_name(&self) -> (r: String)
        ensures
            r@ == self.stream@,
    {
        self.stream.clone()
    }

    /// The request that makes sure the stream exists.
    pub fn create_stream(&self) -> (r: StreamRequest)
        ensures
            r.log_group@ == self.log_group@,
            r.log_stream@ == self.stream@,
    {
        StreamRequest { log_group: self.log_group.clone(), log_stream: self.stream.clone() }
    }

    /// Whether `a` is the write of `content` at `timestamp` to this sink's stream.
    pub open spec fn puts(&self, timestamp: i64, content: Seq<char>, a: LogAction) -> bool {
        a matches LogAction::Put { log_group, log_stream, timestamp: t, message }
            && log_group@ == self.log_group@ && log_stream@ == self.stream@ && t == timestamp
            && message@ == content
    }

    /// A line goes to the stream named at creation, whatever the date now.
    pub fn log(&self, timestamp: i64, content: String, out_type: &OutType) -> (r: LogAction)
        ensures
            self.puts(timestamp, content@, r),
    {
        LogAction::Put {
            log_group: self.log_group.clone(),
            log_stream: self.stream.clone(),
            timestamp,
            message: content,
        }
    }
}

/// A log sink: the console, or a remote log stream.
#[derive(Clone, Debug)]
pub enum LogProcessor {
    Console(ConsoleLogProcessor),
    Aws(AwsLogProcessor),
}

impl LogProcessor {
    pub open spec fn wf(&self) -> bool {
        match self {
            LogProcessor::Console(_) => true,
            LogProcessor::Aws(p) => p.wf(),
        }
    }

    /// What logging `content`, read from `out_type` at `timestamp`, amounts to.
    pub open spec fn logs(&self, timestamp: i64, content: Seq<char>, out_type: OutType, a: LogAction) -> bool {
        match self {
            LogProcessor::Console(_) => a matches LogAction::Print { out_type: o, text }
                && o == out_type && text@ == content,
            LogProcessor::Aws(p) => p.puts(timestamp, content, a),
        }
    }

    pub fn log(&self, timestamp: i64, content: String, out_type: &OutType) -> (r: LogAction)
        ensures
            self.logs(timestamp, content@, *out_type, r),
    {
        match self {
            LogProcessor::Console(p) => p.log(timestamp, content, out_type),
            LogProcessor::Aws(p) => p.log(timestamp, content, out_type),
        }
    }
}

/// All lines that a remote sink logs go to one stream: the one named after
/// the date on which the sink was made, whenever they are logged.
pub proof fn lemma_stream_fixed_at_creation(
    p: AwsLogProcessor,
    t1: i64, c1: Seq<char>, a1: LogAction,
    t2: i64, c2: Seq<char>, a2: LogAction,
)
    requires
        p.wf(),
        p.puts(t1, c1, a1),
        p.puts(t2, c2, a2),
    ensures
        a1->log_stream@ == a2->log_stream@,
        a1->log_stream@ == stream_name(p.created_on, p.log_stream_prefix@, p.machine_id.deep_view()),
{
}

} // verus!
