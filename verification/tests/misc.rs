use automation::auth::{User, UserinfoReply};
use automation::helper::Ipv4SocketAddr;
use automation::config::{default_entrypoint, default_fulfillment_ip, default_fulfillment_port, FulfillmentConfig};
use automation::error::{ApiError, ApiErrorJson, ApiErrorJsonError, DeviceConfigError, MissingEnv, MissingWildcard};
use automation::event::OnPresence;
use automation::ntfy::{ActionType, Ntfy, NtfyConfig, Priority};
use automation::secret::EnvironmentSecretFile;
use automation::zigbee::Zigbee;

#[test]
fn missing_env_message() {
    let mut m = MissingEnv::new();
    assert!(MissingEnv::default().has_missing().is_ok());
    m.add_missing("MQTT_PASSWORD");
    assert_eq!(m.to_message(), "Missing environment variable 'MQTT_PASSWORD'");
    m.add_missing("HUE_TOKEN");
    m.add_missing("NTFY_TOPIC");
    assert_eq!(
        m.to_message(),
        "Missing environment variables 'MQTT_PASSWORD', 'HUE_TOKEN', 'NTFY_TOPIC'"
    );
    assert!(m.has_missing().is_err());
}

#[test]
fn missing_wildcard_message() {
    assert_eq!(
        MissingWildcard::new("automation/presence").to_message(),
        "Topic 'automation/presence' is expected to be a wildcard topic"
    );
}

#[test]
fn api_error_json_roundtrip() {
    let e = ApiError::new(401, "token expired".to_string());
    let json = ApiErrorJson::from(e);
    assert_eq!(json.error.code, 401);
    assert_eq!(json.error.status, "401 Unauthorized");
    assert_eq!(json.error.reason, "token expired");
    let back = ApiError::try_from(json).ok().unwrap();
    assert_eq!(back.status(), 401);
    let unknown = ApiErrorJson::from(ApiError::new(599, "x".to_string()));
    assert_eq!(unknown.error.status, "599 <unknown status code>");
    let bad = ApiErrorJson { error: ApiErrorJsonError { code: 99, status: String::new(), reason: String::new() } };
    assert!(ApiError::try_from(bad).is_err());
}

#[test]
fn secret_file_keys() {
    let key = |n: &str| EnvironmentSecretFile::key_for(n).unwrap();
    assert_eq!(key("AUTOMATION__MQTT__PASSWORD__FILE"), Some("mqtt.password".to_string()));
    assert_eq!(key("automation__token__file"), Some("token".to_string()));
    assert_eq!(key("AUTOMATION____FILE"), None);
    assert_eq!(key("OTHER__TOKEN__FILE"), None);
    assert_eq!(key("AUTOMATION__TOKEN"), None);
    assert_eq!(key("AUTOMATION__A___B__FILE"), Some("a._b".to_string()));
    // prefix and suffix overlapping: cannot be cut
    assert!(EnvironmentSecretFile::key_for("AUTOMATION__FILE").is_none());
}

#[test]
fn zigbee_names() {
    let z = Zigbee::new("kitchen/kettle", "zigbee2mqtt/kitchen/kettle");
    assert_eq!(z.get_friendly_name(), "kitchen/kettle");
    assert_eq!(z.get_topic(), "zigbee2mqtt/kitchen/kettle");
}

#[test]
fn config_defaults() {
    assert_eq!(default_entrypoint(), "./config/config.lua");
    assert_eq!(default_fulfillment_ip(), [0, 0, 0, 0]);
    assert_eq!(default_fulfillment_port(), 7878);
    let c = FulfillmentConfig { openid_url: "https://id".to_string(), ip: [127, 0, 0, 1], port: 8080 };
    assert_eq!(c.socket_addr(), ([127, 0, 0, 1], 8080));
}

#[test]
fn presence_notification() {
    let mut n = Ntfy::new(NtfyConfig { url: "https://ntfy.sh".to_string(), topic: "house".to_string() });
    assert_eq!(n.topic, "house");
    let away = n.on_presence(false);
    assert_eq!(away.title.as_deref(), Some("Presence"));
    assert_eq!(away.message.as_deref(), Some("Away"));
    assert_eq!(away.tags, vec!["house".to_string()]);
    assert_eq!(away.priority, Some(Priority::Low));
    assert_eq!(away.actions[0].label, "Set home");
    assert_eq!(away.actions[0].clear, Some(true));
    match &away.actions[0].action {
        ActionType::Broadcast { extras } => {
            assert_eq!(extras[0], ("cmd".to_string(), "presence".to_string()));
            assert_eq!(extras[1], ("state".to_string(), "1".to_string()));
        }
    }
    let home = Ntfy::presence_notification(true);
    assert_eq!(home.message.as_deref(), Some("Home"));
    assert_eq!(home.actions[0].label, "Set away");
}

#[test]
fn ipv4_socket_addr_carries_its_port() {
    let addr: Ipv4SocketAddr<9999> = Ipv4SocketAddr([10, 0, 0, 7]);
    assert_eq!(addr.socket_addr(), ([10, 0, 0, 7], 9999));
}

fn reason_of(e: ApiError) -> (u16, String) {
    let json = ApiErrorJson::from(e);
    (json.error.code, json.error.reason)
}

#[test]
fn userinfo_replies() {
    let ok = User::from_reply(UserinfoReply::User(Ok(User { preferred_username: "alice".to_string() })));
    assert_eq!(ok.ok().unwrap().preferred_username, "alice");

    let failed = User::from_reply(UserinfoReply::Failed("connection refused".to_string()));
    assert_eq!(reason_of(failed.err().unwrap()), (500, "connection refused".to_string()));

    let bad_body = User::from_reply(UserinfoReply::User(Err("missing field".to_string())));
    assert_eq!(reason_of(bad_body.err().unwrap()), (500, "missing field".to_string()));

    let forwarded = User::from_reply(UserinfoReply::Error(Ok(ApiErrorJson {
        error: ApiErrorJsonError { code: 401, status: "401 Unauthorized".to_string(), reason: "expired".to_string() },
    })));
    assert_eq!(reason_of(forwarded.err().unwrap()), (401, "expired".to_string()));

    let invalid = User::from_reply(UserinfoReply::Error(Ok(ApiErrorJson {
        error: ApiErrorJsonError { code: 42, status: String::new(), reason: "odd".to_string() },
    })));
    assert_eq!(reason_of(invalid.err().unwrap()), (500, "invalid status code".to_string()));

    let unreadable = User::from_reply(UserinfoReply::Error(Err("not json".to_string())));
    assert_eq!(reason_of(unreadable.err().unwrap()), (500, "not json".to_string()));
}

#[test]
fn device_config_error_messages() {
    use_message(DeviceConfigError::MqttClientError("Failed to send mqtt requests to eventloop".to_string()), "Failed to send mqtt requests to eventloop");
    use_message(
        DeviceConfigError::MissingTrait("kitchen_kettle".to_string(), "Timeout".to_string()),
        "Device 'kitchen_kettle' does not implement expected trait 'Timeout'",
    );
}

fn use_message(e: DeviceConfigError, expected: &str) {
    assert_eq!(e.to_message(), expected);
}
