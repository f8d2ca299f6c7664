use wooden_box::discovery::{
    discovery_topic_sensor, discovery_topic_switch, humidity_payload, switch_payload,
    temperature_payload,
};

#[test]
fn sensor_topic_is_spelled_out() {
    let t = discovery_topic_sensor("temperature");
    assert_eq!(t.as_str(), "homeassistant/sensor/wooden_box/temperature/config");
}

#[test]
fn switch_topic_is_spelled_out() {
    let t = discovery_topic_switch("relay1");
    assert_eq!(t.as_str(), "homeassistant/switch/wooden_box/relay1/config");
}

#[test]
fn topic_skips_an_object_id_that_does_not_fit() {
    let long_id = "a".repeat(100);
    let t = discovery_topic_sensor(&long_id);
    assert_eq!(t.as_str(), "homeassistant/sensor/wooden_box//config");
}

#[test]
fn topic_keeps_an_object_id_that_just_fits() {
    // 32 bytes before the id and 7 after it leave 89 bytes for the id.
    let id = "b".repeat(89);
    let t = discovery_topic_switch(&id);
    assert_eq!(t.len(), 128);
    assert_eq!(t.as_str(), format!("homeassistant/switch/wooden_box/{}/config", id));
    // One byte more: the id still fits, the closing "/config" no longer does.
    let longer = "b".repeat(90);
    let t = discovery_topic_switch(&longer);
    assert_eq!(t.as_str(), format!("homeassistant/switch/wooden_box/{}", longer));
    // An id that does not fit is skipped, and "/config" follows.
    let too_long = "b".repeat(97);
    let t = discovery_topic_switch(&too_long);
    assert_eq!(t.as_str(), "homeassistant/switch/wooden_box//config");
}

#[test]
fn temperature_payload_text() {
    let p = temperature_payload();
    assert_eq!(
        p.as_str(),
        r#"{"~":"wooden-box","name":"Temperature","uniq_id":"wooden_box_temp","stat_t":"~/sensor/temperature/state","unit_of_meas":"\u00b0C","dev_cla":"temperature","dev":{"ids":["wooden_box"],"name":"Wooden Box"}}"#
    );
    assert_eq!(p.len(), 203);
}

#[test]
fn humidity_payload_text() {
    let p = humidity_payload();
    assert_eq!(
        p.as_str(),
        r#"{"~":"wooden-box","name":"Humidity","uniq_id":"wooden_box_hum","stat_t":"~/sensor/humidity/state","unit_of_meas":"%","dev_cla":"humidity","dev":{"ids":["wooden_box"],"name":"Wooden Box"}}"#
    );
    assert_eq!(p.len(), 187);
}

#[test]
fn switch_payload_text() {
    let p = switch_payload("relay1", "Relay 1");
    assert_eq!(
        p.as_str(),
        r#"{"~":"wooden-box","name":"Relay 1","uniq_id":"wooden_box_relay1","stat_t":"~/switch/relay1/state","cmd_t":"~/switch/relay1/command","dev":{"ids":["wooden_box"],"name":"Wooden Box"}}"#
    );
}

#[test]
fn switch_payload_skips_a_display_name_that_does_not_fit() {
    let name = "N".repeat(600);
    let p = switch_payload("relay1", &name);
    assert_eq!(
        p.as_str(),
        r#"{"~":"wooden-box","name":"","uniq_id":"wooden_box_relay1","stat_t":"~/switch/relay1/state","cmd_t":"~/switch/relay1/command","dev":{"ids":["wooden_box"],"name":"Wooden Box"}}"#
    );
}

#[test]
fn switch_payload_with_multibyte_name() {
    let p = switch_payload("r", "Lampe \u{e9}t\u{e9}");
    assert!(p.as_str().contains(r#""name":"Lampe été""#));
}

#[test]
fn payloads_never_exceed_their_buffer() {
    let id = "x".repeat(200);
    let p = switch_payload(&id, "Relay");
    assert!(p.len() <= 512);
    let t = discovery_topic_switch(&id);
    assert!(t.len() <= 128);
}

#[test]
fn unique_ids_are_distinct() {
    let uniq = |p: &str| {
        let start = p.find("\"uniq_id\":\"").unwrap() + 11;
        let end = start + p[start..].find('"').unwrap();
        p[start..end].to_string()
    };
    let t = uniq(temperature_payload().as_str());
    let h = uniq(humidity_payload().as_str());
    let s = uniq(switch_payload("relay1", "Relay 1").as_str());
    assert_eq!(t, "wooden_box_temp");
    assert_eq!(h, "wooden_box_hum");
    assert_eq!(s, "wooden_box_relay1");
    assert_ne!(t, h);
    assert_ne!(s, t);
    assert_ne!(s, h);
}
