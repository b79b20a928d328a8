//! The poll cycle's decisions: change detection, idempotence, the stop
//! policy, the locking discipline and the activation verdict.
use npcnix::config::Config;
use npcnix::daemon::{
    LockAction,
    LockAttempt,
    on_lock_attempt,
    resolve_configuration,
    should_activate,
};
use npcnix::{Once, activation_outcome, should_stop_after};

#[test]
fn unchanged_remote_means_no_activation() {
    let c = Config::default_at(0).with_updated_last_reconfiguration("myhost", "etag-1", 10);
    assert!(!should_activate(&c, "myhost", "etag-1", false));
}

#[test]
fn change_in_fingerprint_or_name_triggers_activation() {
    let c = Config::default_at(0).with_updated_last_reconfiguration("myhost", "etag-1", 10);
    assert!(should_activate(&c, "myhost", "etag-2", false));
    assert!(should_activate(&c, "otherhost", "etag-1", false));
    assert!(should_activate(&c, "otherhost", "etag-2", false));
}

#[test]
fn ignore_fingerprint_override_always_activates() {
    let c = Config::default_at(0).with_updated_last_reconfiguration("myhost", "etag-1", 10);
    assert!(should_activate(&c, "myhost", "etag-1", true));
}

#[test]
fn second_cycle_after_a_successful_activation_does_nothing() {
    // A cycle that activated persists name and fingerprint; the next
    // cycle resolving the same name and fingerprint is a no-op.
    let c = Config::default_at(0);
    assert!(should_activate(&c, "myhost", "etag-1", false));
    let c = c.with_updated_last_reconfiguration("myhost", "etag-1", 50);
    assert!(!should_activate(&c, "myhost", "etag-1", false));
}

#[test]
fn override_wins_over_the_stored_configuration() {
    let c = Config::default_at(0).with_configuration("stored");
    assert_eq!(resolve_configuration(&c, Some("explicit")).unwrap(), "explicit");
    assert_eq!(resolve_configuration(&c, None).unwrap(), "stored");
}

#[test]
fn absent_configuration_everywhere_is_an_error() {
    let c = Config::default_at(0);
    assert!(matches!(
        resolve_configuration(&c, None),
        Err(npcnix::NpcnixError::ConfigurationNotSet)
    ));
}

#[test]
fn stop_policy_matches_the_cycle_outcome() {
    assert!(!should_stop_after(None, false));
    assert!(!should_stop_after(None, true));
    assert!(should_stop_after(Some(Once::Any), false));
    assert!(should_stop_after(Some(Once::Any), true));
    assert!(!should_stop_after(Some(Once::Activate), false));
    assert!(should_stop_after(Some(Once::Activate), true));
}

#[test]
fn contention_is_not_an_error_but_a_reason_to_wait() {
    assert_eq!(on_lock_attempt(LockAttempt::NotNeeded), LockAction::Run);
    assert_eq!(on_lock_attempt(LockAttempt::Acquired), LockAction::Run);
    assert_eq!(on_lock_attempt(LockAttempt::Contended), LockAction::WaitThenRun);
    assert_eq!(on_lock_attempt(LockAttempt::Failed), LockAction::GiveUp);
}

#[test]
fn failing_activation_carries_the_exit_code_and_changes_nothing() {
    assert!(activation_outcome(true, Some(0)).is_ok());
    let e = activation_outcome(false, Some(1)).unwrap_err();
    assert!(matches!(
        e,
        npcnix::NpcnixError::ActivationFailed { exit_code: Some(1) }
    ));
    // The failed cycle persists nothing: the record still holds the old
    // fingerprint, so the next cycle retries the same target.
    let c = Config::default_at(0).with_updated_last_reconfiguration("myhost", "old-etag", 10);
    assert_eq!(c.last_etag(), "old-etag");
    assert!(should_activate(&c, "myhost", "new-etag", false));
}

#[test]
fn paused_record_skips_the_remote_check() {
    let c = Config::default_at(0).with_configuration("host").with_paused_indefinitely();
    assert!(matches!(
        npcnix::daemon::begin_cycle(&c, None, 0),
        Ok(npcnix::daemon::CycleStart::Paused)
    ));
}

#[test]
fn cycle_plans_the_fingerprint_call_when_not_paused() {
    let remote = npcnix::remote::parse_locator("s3://bucket/some/key").unwrap();
    let c = Config::default_at(0).with_configuration("host").with_remote(&remote);
    match npcnix::daemon::begin_cycle(&c, None, 0) {
        Ok(npcnix::daemon::CycleStart::Check { configuration, remote, fingerprint_args }) => {
            assert_eq!(configuration, "host");
            assert_eq!(remote.as_str(), "s3://bucket/some/key");
            assert_eq!(
                fingerprint_args,
                vec![
                    "s3api",
                    "get-object-attributes",
                    "--bucket",
                    "bucket",
                    "--key",
                    "some/key",
                    "--object-attributes",
                    "ETag",
                ]
            );
        }
        other => panic!("unexpected cycle start: {other:?}"),
    }
}

#[test]
fn cycle_requires_a_configuration_and_a_remote() {
    let c = Config::default_at(0);
    assert!(matches!(
        npcnix::daemon::begin_cycle(&c, None, 0),
        Err(npcnix::NpcnixError::ConfigurationNotSet)
    ));
    let c = c.with_configuration("host");
    assert!(matches!(
        npcnix::daemon::begin_cycle(&c, None, 0),
        Err(npcnix::NpcnixError::RemoteNotSet)
    ));
    let http = npcnix::remote::parse_locator("https://example.com/key").unwrap();
    let c = c.with_remote(&http);
    assert!(matches!(
        npcnix::daemon::begin_cycle(&c, None, 0),
        Err(npcnix::NpcnixError::ProtocolNotSupported { .. })
    ));
}

#[test]
fn concluded_check_hands_back_the_work_or_nothing() {
    let c = Config::default_at(0).with_updated_last_reconfiguration("host", "etag-1", 10);
    assert_eq!(
        npcnix::daemon::conclude_check(&c, "host".to_string(), "etag-1".to_string(), false),
        None
    );
    assert_eq!(
        npcnix::daemon::conclude_check(&c, "host".to_string(), "etag-2".to_string(), false),
        Some(("host".to_string(), "etag-2".to_string()))
    );
}

#[test]
fn activation_arguments_follow_the_tool_contract() {
    let opts = npcnix::ActivateOpts {
        extra_substituters: vec!["https://cache.example".to_string()],
        extra_trusted_public_keys: vec!["cache-key-1".to_string(), "cache-key-2".to_string()],
    };
    assert_eq!(
        npcnix::activation_args("myhost", &opts),
        vec![
            "switch",
            "-L",
            "--option",
            "extra-substituters",
            "https://cache.example",
            "--option",
            "extra-trusted-public-keys",
            "cache-key-1",
            "--option",
            "extra-trusted-public-keys",
            "cache-key-2",
            "--flake",
            ".#myhost",
        ]
    );
}

#[test]
fn activation_arguments_without_extra_trust_are_minimal() {
    let opts = npcnix::ActivateOpts {
        extra_substituters: vec![],
        extra_trusted_public_keys: vec![],
    };
    assert_eq!(
        npcnix::activation_args("host", &opts),
        vec!["switch", "-L", "--flake", ".#host"]
    );
}
