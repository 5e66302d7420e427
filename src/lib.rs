//! A supervisor library: keeps a fixed set of shell commands alive, restarting
//! them with a backoff, and turns each line they print into a write on a log
//! sink (the console, or a remote log stream).
use vstd::prelude::*;

pub mod counter;
pub mod env;
pub mod process;
pub mod sink;

use crate::sink::{clone_text, AwsCredentials, AwsLogConfig};

verus! {

/// Which output stream of a child a line came from.
#[derive(Clone, Copy, Debug, PartialEq, Eq, Structural)]
pub enum OutType {
    Stdout,
    Stderr,
}

/// One supervised command, as configured.
#[derive(Debug)]
pub struct Runner {
    /// Run through `sh -c`.
    pub command: String,
    /// `console` or `aws`.
    pub output_type: String,
    /// Seconds to wait before a restart after a failed run.
    pub failure_restart_delay: Option<u64>,
    pub machine_id: Option<String>,
    pub aws: Option<AwsLogConfig>,
}

/// The whole configuration: global settings and the named runners.
#[derive(Debug)]
pub struct Config {
    pub failure_restart_delay: Option<u64>,
    pub console_labels: bool,
    pub machine_id: Option<String>,
    pub aws_credentials: Option<AwsCredentials>,
    pub runners: Vec<(String, Runner)>,
}

/// Whether `a` comes strictly before `b` in the order of `String`: the
/// lexicographic order of their characters, compared by code point (which
/// is the order of their UTF-8 bytes).
pub open spec fn text_less(a: Seq<char>, b: Seq<char>) -> bool
    decreases a.len(),
{
    if a.len() == 0 {
        b.len() > 0
    } else if b.len() == 0 {
        false
    } else if a[0] != b[0] {
        (a[0] as u32) < (b[0] as u32)
    } else {
        text_less(a.drop_first(), b.drop_first())
    }
}

/// Whether `a` comes strictly before `b` (see `text_less`).
pub fn less_text(a: &str, b: &str) -> (r: bool)
    ensures
        r == text_less(a@, b@),
{
    let la = a.unicode_len();
    let lb = b.unicode_len();
    let mut k: usize = 0;
    assert(a@.subrange(0, la as int) =~= a@);
    assert(b@.subrange(0, lb as int) =~= b@);
    while k < la && k < lb && a.get_char(k) == b.get_char(k)
        invariant
            la == a@.len(),
            lb == b@.len(),
            k <= la,
            k <= lb,
            text_less(a@, b@) == text_less(a@.subrange(k as int, la as int), b@.subrange(k as int, lb as int)),
        decreases la - k,
    {
        assert(a@.subrange(k as int, la as int).drop_first() =~= a@.subrange(k + 1, la as int));
        assert(b@.subrange(k as int, lb as int).drop_first() =~= b@.subrange(k + 1, lb as int));
        k = k + 1;
    }
    if k == la {
        k < lb
    } else if k == lb {
        false
    } else {
        (a.get_char(k) as u32) < (b.get_char(k) as u32)
    }
}

impl Config {
    /// The runners' names are in strictly ascending order, hence distinct.
    pub open spec fn wf(&self) -> bool {
        forall|i: int, j: int|
            0 <= i < j < self.runners@.len() ==> text_less(
                #[trigger] self.runners@[i].0@,
                #[trigger] self.runners@[j].0@,
            )
    }

    /// Whether the runners' names are in strictly ascending order.
    pub fn is_well_formed(&self) -> (r: bool)
        ensures
            r == self.wf(),
    {
        let n = self.runners.len();
        let mut i: usize = 0;
        while i < n
            invariant
                n == self.runners@.len(),
                i <= n,
                forall|x: int, y: int|
                    0 <= x < i && x < y < n ==> text_less(
                        #[trigger] self.runners@[x].0@,
                        #[trigger] self.runners@[y].0@,
                    ),
            decreases n - i,
        {
            let mut j: usize = i + 1;
            while j < n
                invariant
                    n == self.runners@.len(),
                    i < n,
                    i < j <= n,
                    forall|x: int, y: int|
                        0 <= x < i && x < y < n ==> text_less(
                            #[trigger] self.runners@[x].0@,
                            #[trigger] self.runners@[y].0@,
                        ),
                    forall|y: int|
                        i < y < j ==> text_less(self.runners@[i as int].0@, #[trigger] self.runners@[y].0@),
                decreases n - j,
            {
                if !less_text(self.runners[i].0.as_str(), self.runners[j].0.as_str()) {
                    return false;
                }
                j = j + 1;
            }
            i = i + 1;
        }
        true
    }
}

/// The two texts of optional credentials.
pub open spec fn credentials_view(c: Option<AwsCredentials>) -> Option<(Seq<char>, Seq<char>)> {
    match c {
        Some(c) => Some((c.key@, c.private_key@)),
        None => None,
    }
}

/// Copies optional credentials.
pub fn clone_credentials(c: &Option<AwsCredentials>) -> (r: Option<AwsCredentials>)
    ensures
        credentials_view(r) == credentials_view(*c),
{
    match c {
        Some(c) => Some(AwsCredentials { key: c.key.clone(), private_key: c.private_key.clone() }),
        None => None,
    }
}

impl Runner {
    /// The runner with what it leaves unset taken from the global settings:
    /// the restart delay, the machine id, and the remote log credentials.
    pub fn with_defaults(
        self,
        restart_delay: Option<u64>,
        machine_id: &Option<String>,
        credentials: &Option<AwsCredentials>,
    ) -> (r: Runner)
        ensures
            r.command == self.command,
            r.output_type == self.output_type,
            r.failure_restart_delay == (if self.failure_restart_delay is Some {
                self.failure_restart_delay
            } else {
                restart_delay
            }),
            self.machine_id is Some ==> r.machine_id == self.machine_id,
            self.machine_id is None ==> r.machine_id.deep_view() == machine_id.deep_view(),
            self.aws is None ==> r.aws is None,
            self.aws matches Some(a) ==> (r.aws matches Some(b) && {
                &&& b.region == a.region
                &&& b.log_group == a.log_group
                &&& b.log_stream_prefix == a.log_stream_prefix
                &&& a.credentials is Some ==> b.credentials == a.credentials
                &&& a.credentials is None ==> credentials_view(b.credentials) == credentials_view(*credentials)
            }),
    {
        let failure_restart_delay = match self.failure_restart_delay {
            Some(d) => Some(d),
            None => restart_delay,
        };
        let own_machine_id = self.machine_id;
        let machine_id = match own_machine_id {
            Some(m) => Some(m),
            None => clone_text(machine_id),
        };
        let aws = match self.aws {
            None => None,
            Some(a) => {
                let creds = match a.credentials {
                    Some(c) => Some(c),
                    None => clone_credentials(credentials),
                };
                Some(AwsLogConfig {
                    credentials: creds,
                    region: a.region,
                    log_group: a.log_group,
                    log_stream_prefix: a.log_stream_prefix,
                })
            },
        };
        Runner {
            command: self.command,
            output_type: self.output_type,
            failure_restart_delay,
            machine_id,
            aws,
        }
    }
}

} // verus!
