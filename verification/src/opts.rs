//! Option records of the command-line surface, reduced to plain values.
//! Argument parsing itself lives with the binary; these records carry
//! what the library's logic reads, and the conversions that the commands
//! apply to them.
use vstd::prelude::*;

use crate::ActivateOpts as LibActivateOpts;
use crate::config::ConfigPaused;
use crate::data_dir::DataDir;

verus! {

/// Options common to every command: where the data directory lives.
#[derive(Debug)]
pub struct Common {
    data_dir: String,
}

impl View for Common {
    type V = Seq<char>;

    closed spec fn view(&self) -> Seq<char> {
        self.data_dir@
    }
}

impl Common {
    /// Common options naming the data directory at `data_dir`.
    pub fn new(data_dir: &str) -> (r: Common)
        ensures
            r@ == data_dir@,
    {
        Common { data_dir: String::from_str(data_dir) }
    }

    /// The data directory these options name.
    pub fn data_dir(&self) -> (r: DataDir)
        ensures
            r@ == self@,
    {
        DataDir::new(self.data_dir.as_str())
    }
}

fn clone_strings(v: &Vec<String>) -> (r: Vec<String>)
    ensures
        r@ == v@,
{
    let mut r: Vec<String> = Vec::new();
    let mut i: usize = 0;
    while i < v.len()
        invariant
            i <= v@.len(),
            r@ == v@.subrange(0, i as int),
        decreases v@.len() - i,
    {
        r.push(v[i].clone());
        proof {
            assert(v@.subrange(0, i + 1) =~= v@.subrange(0, i as int).push(v@[i as int]));
        }
        i += 1;
    }
    proof {
        assert(v@.subrange(0, v@.len() as int) =~= v@);
    }
    r
}

/// The extra trust settings shared by the activation commands.
#[derive(Debug)]
pub struct ActivateCommonOpts {
    pub extra_substituters: Vec<String>,
    pub extra_trusted_public_keys: Vec<String>,
}

impl ActivateCommonOpts {
    /// The library-level activation options these CLI options carry.
    pub fn to_activate_opts(&self) -> (r: LibActivateOpts)
        ensures
            r.extra_substituters@ == self.extra_substituters@,
            r.extra_trusted_public_keys@ == self.extra_trusted_public_keys@,
    {
        LibActivateOpts {
            extra_substituters: clone_strings(&self.extra_substituters),
            extra_trusted_public_keys: clone_strings(&self.extra_trusted_public_keys),
        }
    }
}

/// Options of the one-shot activation command.
#[derive(Debug)]
pub struct ActivateOpts {
    pub src: String,
    pub configuration: Option<String>,
    pub activate: ActivateCommonOpts,
}

/// Options of the daemon command.
#[derive(Debug)]
pub struct FollowOpts {
    pub activate: ActivateCommonOpts,
    pub once: bool,
}

/// The deadline `dur_ms` milliseconds from `now`, saturating at the far
/// end of time.
pub open spec fn spec_pause_deadline(now: i64, dur_ms: int) -> i64 {
    if now + dur_ms > i64::MAX {
        i64::MAX
    } else {
        (now + dur_ms) as i64
    }
}

/// The pause a set of pause options requests at instant `now`: for the
/// given minutes or hours from now, or indefinitely when neither bound
/// is given.
pub open spec fn spec_requested_pause(
    minutes: Option<u64>,
    hours: Option<u64>,
    now: i64,
) -> ConfigPaused {
    match minutes {
        Some(m) => ConfigPaused::Until { until: spec_pause_deadline(now, m as int * 60000) },
        None => match hours {
            Some(h) => ConfigPaused::Until {
                until: spec_pause_deadline(now, h as int * 3600000),
            },
            None => ConfigPaused::Indefinitely,
        },
    }
}

/// Options of the pause command: how long to pause, or indefinitely.
#[derive(Debug)]
pub struct PauseOpts {
    pub hours: Option<u64>,
    pub minutes: Option<u64>,
}

impl PauseOpts {
    /// The pause these options request at instant `now`.
    pub fn requested_pause(&self, now: i64) -> (r: ConfigPaused)
        ensures
            r == spec_requested_pause(self.minutes, self.hours, now),
    {
        match self.minutes {
            Some(m) => {
                let until_wide: i128 = now as i128 + m as i128 * 60000;
                let until: i64 = if until_wide > i64::MAX as i128 {
                    i64::MAX
                } else {
                    until_wide as i64
                };
                ConfigPaused::Until { until }
            },
            None => match self.hours {
                Some(h) => {
                    let until_wide: i128 = now as i128 + h as i128 * 3600000;
                    let until: i64 = if until_wide > i64::MAX as i128 {
                        i64::MAX
                    } else {
                        until_wide as i64
                    };
                    ConfigPaused::Until { until }
                },
                None => ConfigPaused::Indefinitely,
            },
        }
    }
}

} // verus!
