use neolink::config::{
    default_channel_id, default_discovery, default_maxenc, parse_max_encryption,
    validate_camera_config, CameraConfig, Config, ConfigError, DiscoveryMethods, MaxEncryption,
};
use neolink::motion::{motion_permit_change, next_md_state, starts_with_motion, MdState, MotionStatus};
use neolink::reactor::{find_camera, fleet_update, forward_push, is_motion_alert, last_enabled};

fn cam(name: &str, enabled: bool) -> CameraConfig {
    CameraConfig {
        name: name.to_string(),
        camera_addr: Some("10.0.0.2:9000".to_string()),
        camera_uid: None,
        username: "admin".to_string(),
        password: Some("pw".to_string()),
        channel_id: default_channel_id(),
        discovery: default_discovery(),
        max_encryption: default_maxenc(),
        enabled,
        strict: false,
        pause_on_motion: false,
        update_time: false,
        push_notifications: false,
    }
}

#[test]
fn defaults() {
    assert_eq!(default_channel_id(), 0);
    assert_eq!(default_discovery(), DiscoveryMethods::Relay);
    assert_eq!(default_maxenc(), "Aes");
}

#[test]
fn camera_config_checks() {
    let c = cam("door", true);
    assert_eq!(validate_camera_config(&c), Ok(()));
    let mut c2 = c.clone();
    c2.camera_addr = None;
    assert_eq!(validate_camera_config(&c2), Err(ConfigError::NoAddressOrUid));
    c2.camera_uid = Some("95270000ABCDEFGH".to_string());
    assert_eq!(validate_camera_config(&c2), Ok(()));
    let mut c3 = c.clone();
    c3.channel_id = 32;
    assert_eq!(validate_camera_config(&c3), Err(ConfigError::BadChannel));
    let mut c4 = c;
    c4.max_encryption = "aes256".to_string();
    assert_eq!(validate_camera_config(&c4), Err(ConfigError::BadMaxEncryption));
}

#[test]
fn max_encryption_names() {
    assert_eq!(parse_max_encryption("none"), Some(MaxEncryption::Unencrypted));
    assert_eq!(parse_max_encryption("None"), Some(MaxEncryption::Unencrypted));
    assert_eq!(parse_max_encryption("NONE"), None);
    assert_eq!(parse_max_encryption("aEs"), Some(MaxEncryption::Aes));
    assert_eq!(parse_max_encryption("BcEncrypt"), Some(MaxEncryption::BcEncrypt));
    assert_eq!(parse_max_encryption("bcencrypt"), Some(MaxEncryption::BcEncrypt));
    assert_eq!(parse_max_encryption(""), None);
}

#[test]
fn get_finds_the_first_camera_by_name() {
    let config = Config { cameras: vec![cam("a", false), cam("b", true), cam("a", true)] };
    assert_eq!(find_camera(&config, &"a".to_string()), Some(0));
    assert_eq!(find_camera(&config, &"b".to_string()), Some(1));
    assert_eq!(find_camera(&config, &"c".to_string()), None);
    assert_eq!(last_enabled(&config, &"a".to_string()), Some(2));
}

#[test]
fn update_config_drops_and_forwards() {
    let running = vec!["a".to_string(), "b".to_string(), "c".to_string()];
    let config = Config { cameras: vec![cam("b", true), cam("a", false), cam("d", true), cam("b", true)] };
    assert_eq!(fleet_update(&running, &config), vec![None, Some(3), None]);
}

#[test]
fn push_notifications_filtered_by_uid() {
    let m = "{\"uid\":\"9527ABC\",\"alert\":\"Motion Alert from door\"}".to_string();
    assert!(forward_push(None, &m, "9527ABC"));
    assert!(!forward_push(Some(&m), &m, "9527ABC"));
    assert!(!forward_push(None, &m, "9527AB"));
    assert!(is_motion_alert(&m));
    assert!(!is_motion_alert(&"{\"alert\":\"Visitor\"}".to_string()));
}

#[test]
fn motion_state_follows_events() {
    let s = next_md_state(MdState::Unknown, MotionStatus::Start(10));
    assert_eq!(s, MdState::Start(10));
    assert_eq!(next_md_state(s, MotionStatus::NoChange(11)), MdState::Start(10));
    assert_eq!(next_md_state(s, MotionStatus::Stop(12)), MdState::Stop(12));
    assert_eq!(motion_permit_change(MdState::Start(1)), Some(true));
    assert_eq!(motion_permit_change(MdState::Stop(1)), Some(false));
    assert_eq!(motion_permit_change(MdState::Unknown), None);
    assert!(starts_with_motion(MdState::Start(1)));
    assert!(!starts_with_motion(MdState::Unknown));
}
