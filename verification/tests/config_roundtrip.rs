//! Config store/load round trips and the pause state machine.
use npcnix::config::{Config, ConfigPaused};
use npcnix::remote::parse_locator;

#[test]
fn default_config_renders_with_remote_and_configuration_absent() {
    let c = Config::default_at(0);
    assert_eq!(
        c.to_json_string(),
        "{\"remote\":null,\"remote_region\":null,\"configuration\":null,\
         \"last_reconfiguration\":0,\"last_etag\":\"\",\"last_configuration\":\"\",\
         \"min_sleep_secs\":5,\"max_sleep_secs\":120,\"max_sleep_after_hours\":24}"
    );
}

#[test]
fn full_config_round_trips() {
    let remote = parse_locator("s3://bucket/some/key.tar.zst").unwrap();
    let c = Config::default_at(0)
        .with_remote(&remote)
        .with_remote_region(Some("us-east-1"))
        .with_configuration("myhost")
        .with_updated_last_reconfiguration("myhost", "\"0cc175b9c0f1b6a831c399e269772661\"", 42);
    let text = c.to_json_string();
    let back = Config::from_json_str(&text, 100).unwrap();
    assert!(back.remote().unwrap().same_as(&remote));
    assert_eq!(back.region_opt(), Some("us-east-1"));
    assert_eq!(back.configuration().unwrap(), "myhost");
    assert_eq!(back.last_configuration(), "myhost");
    assert_eq!(back.last_etag(), "\"0cc175b9c0f1b6a831c399e269772661\"");
    assert_eq!(back.last_reconfiguration(), 42);
    assert_eq!(back.sleep_params(), (5, 120, 24));
    assert_eq!(back.to_json_string(), text);
}

#[test]
fn config_with_escaped_characters_round_trips() {
    let c = Config::default_at(0)
        .with_configuration("host\"with\\quotes")
        .with_updated_last_reconfiguration("host\"with\\quotes", "e\\t\"a\"g", 7);
    let text = c.to_json_string();
    let back = Config::from_json_str(&text, 7).unwrap();
    assert_eq!(back.configuration().unwrap(), "host\"with\\quotes");
    assert_eq!(back.last_etag(), "e\\t\"a\"g");
}

#[test]
fn active_pause_survives_the_round_trip() {
    let dir = npcnix::data_dir::DataDir::new("/var/lib/npcnix");
    let c = Config::default_at(0).with_paused_until(5000);
    let text = dir.store_config(c, 0);
    let back = Config::from_json_str(&text, 0).unwrap();
    assert!(back.is_paused_at(0));
    assert!(back.is_paused_at(4999));
    assert!(!back.is_paused_at(5000));
}

#[test]
fn expired_pause_is_cleared_by_store() {
    let dir = npcnix::data_dir::DataDir::new("/var/lib/npcnix");
    let c = Config::default_at(0).with_paused_until(100);
    let text = dir.store_config(c, 200);
    assert!(!text.contains("paused"));
    let back = Config::from_json_str(&text, 200).unwrap();
    assert!(!back.is_paused_at(0));
}

#[test]
fn indefinite_pause_round_trips() {
    let c = Config::default_at(0).with_paused_indefinitely();
    let text = c.to_json_string();
    assert!(text.contains("indefinitely"));
    let back = Config::from_json_str(&text, i64::MAX).unwrap();
    assert!(back.is_paused_at(i64::MAX));
}

#[test]
fn pause_state_by_the_system_clock() {
    assert!(!Config::default_at(0).is_paused());
    assert!(Config::default_at(0).with_paused_indefinitely().is_paused());
    // A deadline at the far end of time has not passed yet.
    assert!(Config::default_at(0).with_paused_until(i64::MAX).is_paused());
}

#[test]
fn unpause_clears_the_pause() {
    let c = Config::default_at(0).with_paused_indefinitely().with_unpaused();
    assert!(!c.is_paused_at(0));
}

#[test]
fn pause_combination_keeps_the_stronger_pause() {
    let a = ConfigPaused::Until { until: 5 };
    let b = ConfigPaused::Until { until: 9 };
    assert_eq!(a.combine(b), ConfigPaused::Until { until: 9 });
    assert_eq!(b.combine(a), ConfigPaused::Until { until: 9 });
    assert_eq!(a.combine(ConfigPaused::Indefinitely), ConfigPaused::Indefinitely);
    assert_eq!(ConfigPaused::Indefinitely.combine(b), ConfigPaused::Indefinitely);
}

#[test]
fn pausing_again_only_extends_the_deadline() {
    let c = Config::default_at(0).with_paused_until(9000).with_paused_until(100);
    assert!(c.is_paused_at(8999));
    assert!(!c.is_paused_at(9000));
}

#[test]
fn missing_defaultable_fields_read_as_defaults() {
    let text = "{\"remote\":null,\"remote_region\":null,\"configuration\":null,\
                \"last_reconfiguration\":7,\"last_etag\":\"\",\"last_configuration\":\"\"}";
    let back = Config::from_json_str(text, 0).unwrap();
    assert_eq!(back.sleep_params(), (5, 120, 24));
    assert_eq!(back.last_reconfiguration(), 7);
}

#[test]
fn fields_out_of_canonical_order_are_rejected() {
    // The format is a fixed-order object; only the defaultable fields may
    // be absent.
    let text = "{\"remote_region\":null,\"remote\":null,\"configuration\":null,\
                \"last_reconfiguration\":0,\"last_etag\":\"\",\"last_configuration\":\"\",\
                \"min_sleep_secs\":5,\"max_sleep_secs\":120,\"max_sleep_after_hours\":24}";
    assert!(matches!(
        Config::from_json_str(text, 0),
        Err(npcnix::NpcnixError::MalformedConfig)
    ));
}

#[test]
fn malformed_config_is_rejected() {
    assert!(matches!(
        Config::from_json_str("not json at all", 0),
        Err(npcnix::NpcnixError::MalformedConfig)
    ));
    assert!(matches!(
        Config::from_json_str("{\"remote\":null}", 0),
        Err(npcnix::NpcnixError::MalformedConfig)
    ));
}

#[test]
fn empty_configuration_name_is_rejected_on_load() {
    let text = "{\"remote\":null,\"remote_region\":null,\"configuration\":\"\",\
                \"last_reconfiguration\":0,\"last_etag\":\"\",\"last_configuration\":\"\",\
                \"min_sleep_secs\":5,\"max_sleep_secs\":120,\"max_sleep_after_hours\":24}";
    assert!(matches!(
        Config::from_json_str(text, 0),
        Err(npcnix::NpcnixError::MalformedConfig)
    ));
}

#[test]
fn remote_and_configuration_errors_when_unset() {
    let c = Config::default_at(0);
    assert!(matches!(c.remote(), Err(npcnix::NpcnixError::RemoteNotSet)));
    assert!(matches!(
        c.configuration(),
        Err(npcnix::NpcnixError::ConfigurationNotSet)
    ));
}

#[test]
fn with_configuration_maybe_init_keeps_the_first_value() {
    let c = Config::default_at(0)
        .with_configuration_maybe_init("first", true)
        .with_configuration_maybe_init("second", true);
    assert_eq!(c.configuration().unwrap(), "first");
    let c2 = c.with_configuration_maybe_init("third", false);
    assert_eq!(c2.configuration().unwrap(), "third");
}

#[test]
fn set_remote_with_init_twice_keeps_the_first_url() {
    let first = parse_locator("s3://first-bucket/key").unwrap();
    let second = parse_locator("s3://second-bucket/key").unwrap();
    let c = Config::default_at(0)
        .with_remote_maybe_init(&first, true)
        .with_remote_maybe_init(&second, true);
    assert!(c.remote().unwrap().same_as(&first));
    assert_eq!(c.remote().unwrap().as_str(), first.as_str());
}
