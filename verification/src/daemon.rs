//! Decisions of one poll cycle. The daemon loop itself performs I/O
//! (locking, fetching, unpacking, spawning the activation tool); every
//! decision along the way is a pure function here, applied to the values
//! that I/O produced.
use vstd::prelude::*;

use crate::NpcnixError;
use crate::config::{Config, ConfigV, spec_is_paused};
use crate::remote::{
    Locator,
    arg_views,
    get_etag_args,
    spec_after_first,
    spec_fingerprint_args,
    spec_scheme_supported,
};
use crate::text::str_eq;

verus! {

/// How an attempt to take the activation lock went: no lock is needed
/// (no config file exists yet), it was taken at once, another process
/// holds it, or the attempt itself failed.
#[derive(Debug, Clone, Copy, PartialEq, Eq, Structural)]
pub enum LockAttempt {
    NotNeeded,
    Acquired,
    Contended,
    Failed,
}

/// What to do after a lock attempt: run the guarded work now, log the
/// contention and block for the lock first, or give up with the error.
#[derive(Debug, Clone, Copy, PartialEq, Eq, Structural)]
pub enum LockAction {
    Run,
    WaitThenRun,
    GiveUp,
}

/// The locking discipline: contention is not an error but a reason to
/// block; only a failing lock attempt aborts.
pub open spec fn spec_lock_action(attempt: LockAttempt) -> LockAction {
    match attempt {
        LockAttempt::NotNeeded => LockAction::Run,
        LockAttempt::Acquired => LockAction::Run,
        LockAttempt::Contended => LockAction::WaitThenRun,
        LockAttempt::Failed => LockAction::GiveUp,
    }
}

/// Decides how to proceed after a non-blocking lock attempt.
pub fn on_lock_attempt(attempt: LockAttempt) -> (r: LockAction)
    ensures
        r == spec_lock_action(attempt),
{
    match attempt {
        LockAttempt::NotNeeded => LockAction::Run,
        LockAttempt::Acquired => LockAction::Run,
        LockAttempt::Contended => LockAction::WaitThenRun,
        LockAttempt::Failed => LockAction::GiveUp,
    }
}

/// Resolves the effective configuration name: an explicit override wins
/// over the stored value; absence of both is an error.
pub fn resolve_configuration(config: &Config, override_configuration: Option<&str>) -> (r: Result<
    String,
    NpcnixError,
>)
    ensures
        match r {
            Ok(s) => match override_configuration {
                Some(o) => s@ == o@,
                None => config@.configuration == Some(s@),
            },
            Err(e) => override_configuration is None && config@.configuration is None && (e matches
            NpcnixError::ConfigurationNotSet),
        },
{
    match override_configuration {
        Some(o) => Ok(String::from_str(o)),
        None => match config.configuration() {
            Ok(c) => Ok(String::from_str(c)),
            Err(e) => Err(e),
        },
    }
}

/// The canonical skip condition: work is skipped only when both the
/// configuration name and the change fingerprint equal what was last
/// activated, and no override asks to ignore the fingerprint.
pub open spec fn spec_should_activate(
    c: ConfigV,
    configuration: Seq<char>,
    etag: Seq<char>,
    ignore_etag: bool,
) -> bool {
    !(!ignore_etag && c.last_configuration == configuration && c.last_etag == etag)
}

/// Decides, once the remote's fingerprint is known, whether this cycle
/// pulls and activates or reports the remote unchanged.
pub fn should_activate(config: &Config, configuration: &str, etag: &str, ignore_etag: bool) -> (r:
    bool)
    ensures
        r == spec_should_activate(config@, configuration@, etag@, ignore_etag),
{
    if ignore_etag {
        true
    } else {
        !(str_eq(config.last_configuration(), configuration) && str_eq(config.last_etag(), etag))
    }
}

/// What a poll cycle does next, decided from the freshly loaded record.
#[derive(Debug)]
pub enum CycleStart {
    /// The record is paused: skip straight to sleeping, without touching
    /// the remote.
    Paused,
    /// Check the remote: fetch its fingerprint with the planned transport
    /// call, on behalf of this effective configuration name.
    Check { configuration: String, remote: Locator, fingerprint_args: Vec<String> },
}

/// Opens a poll cycle at instant `now`: an active pause skips the cycle;
/// otherwise the effective configuration name is resolved (the override
/// wins, absence of both is an error), the stored remote is required, and
/// the fingerprint call is planned. Every failure names its cause.
pub fn begin_cycle(config: &Config, override_configuration: Option<&str>, now: i64) -> (r: Result<
    CycleStart,
    NpcnixError,
>)
    ensures
        match r {
            Ok(CycleStart::Paused) => spec_is_paused(config@, now),
            Ok(CycleStart::Check { configuration, remote, fingerprint_args }) => !spec_is_paused(
                config@,
                now,
            ) && (match override_configuration {
                Some(o) => configuration@ == o@,
                None => config@.configuration == Some(configuration@),
            }) && config@.remote == Some(remote@) && spec_scheme_supported(remote@.scheme)
                && spec_fingerprint_args(remote@) == Some(arg_views(fingerprint_args@)),
            Err(e) => !spec_is_paused(config@, now) && (match e {
                NpcnixError::ConfigurationNotSet => override_configuration is None
                    && config@.configuration is None,
                NpcnixError::RemoteNotSet => config@.remote is None && !(override_configuration
                    is None && config@.configuration is None),
                NpcnixError::ProtocolNotSupported { scheme } => match config@.remote {
                    Some(l) => scheme@ == l.scheme && !spec_scheme_supported(l.scheme),
                    None => false,
                },
                NpcnixError::InvalidRemote => match config@.remote {
                    Some(l) => spec_scheme_supported(l.scheme) && l.host is None,
                    None => false,
                },
                NpcnixError::RemoteKeyMissing => match config@.remote {
                    Some(l) => spec_scheme_supported(l.scheme) && l.host is Some
                        && spec_after_first(l.path, '/') is None,
                    None => false,
                },
                _ => false,
            }),
        },
{
    if config.is_paused_at(now) {
        return Ok(CycleStart::Paused);
    }
    let configuration = resolve_configuration(config, override_configuration)?;
    let remote = match config.remote() {
        Ok(l) => l.duplicate(),
        Err(e) => {
            return Err(e);
        },
    };
    let fingerprint_args = get_etag_args(&remote)?;
    Ok(CycleStart::Check { configuration, remote, fingerprint_args })
}

/// Concludes the remote check: hands back the configuration name and the
/// fingerprint to activate and persist when the remote changed, and
/// nothing when it is unchanged.
pub fn conclude_check(config: &Config, configuration: String, etag: String, ignore_etag: bool) -> (r:
    Option<(String, String)>)
    ensures
        match r {
            Some((c, e)) => c@ == configuration@ && e@ == etag@ && spec_should_activate(
                config@,
                configuration@,
                etag@,
                ignore_etag,
            ),
            None => !spec_should_activate(config@, configuration@, etag@, ignore_etag),
        },
{
    if should_activate(config, configuration.as_str(), etag.as_str(), ignore_etag) {
        Some((configuration, etag))
    } else {
        None
    }
}

/// Law: cycle idempotence. Once a successful activation has persisted a
/// configuration name and fingerprint at some instant, a following cycle
/// that resolves the same name and sees the same fingerprint performs no
/// activation (absent the ignore-fingerprint override).
pub proof fn lemma_cycle_idempotent(c: ConfigV, configuration: Seq<char>, etag: Seq<char>, now: i64)
    ensures
        !spec_should_activate(
            ConfigV {
                last_configuration: configuration,
                last_etag: etag,
                last_reconfiguration: now,
                ..c
            },
            configuration,
            etag,
            false,
        ),
{
}

} // verus!
