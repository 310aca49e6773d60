use rs_udp::binary32::Binary32;
use rs_udp::config::{
    default_cutoff_freq, default_dc_alpha, default_energy_alpha, default_filter_order,
    default_gain, default_holdoff, default_mqtt_client_id, default_mqtt_port, default_off_payload,
    default_offset, default_on_payload, default_reset_level, default_trigger_level,
    ActionsConfig, FilterConfig, MQTTConfig,
};

fn b(v: f32) -> Binary32 {
    Binary32::from_bits(v.to_bits())
}

#[test]
fn default_values() {
    assert_eq!(default_on_payload(), "ON");
    assert_eq!(default_off_payload(), "OFF");
    assert_eq!(default_trigger_level(), b(1.0));
    assert_eq!(default_reset_level(), b(0.0));
    assert_eq!(default_offset(), b(0.0));
    assert_eq!(default_gain(), b(1.0));
    assert_eq!(default_filter_order(), 8);
    assert_eq!(default_cutoff_freq(), b(8.0));
    assert_eq!(default_dc_alpha(), b(0.99));
    assert_eq!(default_energy_alpha(), b(0.99));
    assert_eq!(default_holdoff(), 0);
    assert_eq!(default_mqtt_port(), 1883);
    assert_eq!(default_mqtt_client_id(), "");
    let f = FilterConfig::default();
    assert_eq!(f.trigger_level, b(1.0));
    assert_eq!(f.cutoff, b(8.0));
    assert_eq!(f.order, 8);
    let a = ActionsConfig::default();
    assert_eq!(a.mqtt_triggered_payload, "ON");
    assert_eq!(a.mqtt_reset_payload, "OFF");
    assert_eq!(a.mqtt_available_payload, "ON");
    assert_eq!(a.mqtt_unavailable_payload, "OFF");
    assert!(a.mqtt_topic.is_none() && a.trigger_cmd.is_none());
}

#[test]
fn credentials_need_both_parts() {
    let mut m = MQTTConfig {
        host: "broker".to_string(),
        port: default_mqtt_port(),
        client_id: default_mqtt_client_id(),
        username: Some("user".to_string()),
        password: None,
    };
    assert_eq!(m.credentials(), None);
    m.password = Some("pw".to_string());
    assert_eq!(m.credentials(), Some(("user".to_string(), "pw".to_string())));
    m.username = None;
    assert_eq!(m.credentials(), None);
}
