//! The data directory model and the CLI option records.
use npcnix::config::{Config, ConfigPaused};
use npcnix::data_dir::DataDir;
use npcnix::opts::{ActivateCommonOpts, Common, PauseOpts};
use npcnix::text::{chars_vec, render_u64, str_eq, string_from_chars};

#[test]
fn config_file_lives_inside_the_data_directory() {
    let dir = DataDir::new("/var/lib/npcnix");
    assert_eq!(dir.config_file_path(), "/var/lib/npcnix/config.json");
    assert_eq!(dir.path(), "/var/lib/npcnix");
}

#[test]
fn missing_config_file_loads_as_the_default_record() {
    let dir = DataDir::new("/var/lib/npcnix");
    let c = dir.load_config(None, 5).unwrap();
    assert!(c.remote().is_err());
    assert!(c.configuration().is_err());
    assert_eq!(c.last_reconfiguration(), 5);
    assert_eq!(c.sleep_params(), (5, 120, 24));
}

#[test]
fn present_config_file_loads_through_the_parser() {
    let dir = DataDir::new("/var/lib/npcnix");
    let stored = dir.store_config(Config::default_at(3).with_configuration("host"), 3);
    let c = dir.load_config(Some(&stored), 3).unwrap();
    assert_eq!(c.configuration().unwrap(), "host");
    assert!(matches!(
        dir.load_config(Some("garbage"), 3),
        Err(npcnix::NpcnixError::MalformedConfig)
    ));
}

#[test]
fn update_last_reconfiguration_rewrites_the_record() {
    let dir = DataDir::new("/var/lib/npcnix");
    let text = dir.update_last_reconfiguration(None, "myhost", "etag-9", 77).unwrap();
    let c = Config::from_json_str(&text, 77).unwrap();
    assert_eq!(c.last_configuration(), "myhost");
    assert_eq!(c.last_etag(), "etag-9");
    assert_eq!(c.last_reconfiguration(), 77);
}

#[test]
fn configuration_override_resolution_matches_the_stored_record() {
    let dir = DataDir::new("/var/lib/npcnix");
    let stored = dir.store_config(Config::default_at(0).with_configuration("stored"), 0);
    assert_eq!(
        dir.get_current_configuration_with_opt_override(Some(&stored), Some("explicit"), 0)
            .unwrap(),
        "explicit"
    );
    assert_eq!(
        dir.get_current_configuration_with_opt_override(Some(&stored), None, 0).unwrap(),
        "stored"
    );
    assert!(matches!(
        dir.get_current_configuration_with_opt_override(None, None, 0),
        Err(npcnix::NpcnixError::ConfigurationNotSet)
    ));
}

#[test]
fn remote_override_resolution_matches_the_stored_record() {
    let dir = DataDir::new("/var/lib/npcnix");
    let stored_remote = npcnix::remote::parse_locator("s3://bucket/key").unwrap();
    let other = npcnix::remote::parse_locator("s3://other/key").unwrap();
    let stored = dir.store_config(Config::default_at(0).with_remote(&stored_remote), 0);
    assert!(dir
        .get_current_remote_with_opt_override(Some(&stored), Some(&other), 0)
        .unwrap()
        .same_as(&other));
    assert!(dir
        .get_current_remote_with_opt_override(Some(&stored), None, 0)
        .unwrap()
        .same_as(&stored_remote));
    assert!(matches!(
        dir.get_current_remote_with_opt_override(None, None, 0),
        Err(npcnix::NpcnixError::RemoteNotSet)
    ));
}

#[test]
fn common_options_name_the_data_directory() {
    let common = Common::new("/srv/npcnix");
    assert_eq!(common.data_dir().path(), "/srv/npcnix");
}

#[test]
fn activation_options_convert_to_the_library_record() {
    let cli = ActivateCommonOpts {
        extra_substituters: vec!["s1".to_string()],
        extra_trusted_public_keys: vec!["k1".to_string(), "k2".to_string()],
    };
    let lib = cli.to_activate_opts();
    assert_eq!(lib.extra_substituters, vec!["s1"]);
    assert_eq!(lib.extra_trusted_public_keys, vec!["k1", "k2"]);
}

#[test]
fn pause_options_request_the_given_duration_from_now() {
    let by_minutes = PauseOpts { hours: None, minutes: Some(2) };
    assert_eq!(by_minutes.requested_pause(1000), ConfigPaused::Until { until: 121_000 });
    let by_hours = PauseOpts { hours: Some(1), minutes: None };
    assert_eq!(by_hours.requested_pause(1000), ConfigPaused::Until { until: 3_601_000 });
    let indefinite = PauseOpts { hours: None, minutes: None };
    assert_eq!(indefinite.requested_pause(1000), ConfigPaused::Indefinitely);
}

#[test]
fn pause_deadline_saturates_at_the_end_of_time() {
    let p = PauseOpts { hours: Some(u64::MAX), minutes: None };
    assert_eq!(p.requested_pause(0), ConfigPaused::Until { until: i64::MAX });
}

#[test]
fn decimal_rendering_matches_the_usual_notation() {
    assert_eq!(string_from_chars(&render_u64(0)), "0");
    assert_eq!(string_from_chars(&render_u64(120)), "120");
    assert_eq!(
        string_from_chars(&render_u64(u64::MAX)),
        "18446744073709551615"
    );
}

#[test]
fn character_conversions_round_trip() {
    let v = chars_vec("npcnix écrit");
    assert_eq!(string_from_chars(&v), "npcnix écrit");
    assert!(str_eq("same", "same"));
    assert!(!str_eq("same", "sama"));
    assert!(!str_eq("same", "sam"));
}
