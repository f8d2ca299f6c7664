use wooden_box::mqtt::{
    button_topic, command_filter, discovery_messages, format_one_decimal, handle_message,
    lights_topic, payload_is_on, publish_sensor, sensor_state_topic, status_topic,
    switch_state_payload, switch_state_topic, LoopAction, LoopEvent, LoopPhase, MqttSession,
    OneDecimal, Reaction, announcement, button_publication, last_will, online_publication,
    AnnounceStep, Qos,
    LIGHTS_COMMAND_ID, OFFLINE_PAYLOAD, ONLINE_PAYLOAD, PRESSED_PAYLOAD,
};

#[test]
fn fixed_topics() {
    assert_eq!(status_topic().as_str(), "wooden-box/status");
    assert_eq!(command_filter().as_str(), "wooden-box/switch/+/command");
    assert_eq!(lights_topic().as_str(), "wooden-box/automation/lights_on");
    assert_eq!(button_topic().as_str(), "wooden-box/button/toggle");
}

#[test]
fn fixed_payloads() {
    assert_eq!(ONLINE_PAYLOAD, "online");
    assert_eq!(OFFLINE_PAYLOAD, "offline");
    assert_eq!(PRESSED_PAYLOAD, "pressed");
    assert_eq!(LIGHTS_COMMAND_ID, "lights_on");
    assert_eq!(switch_state_payload(true), "ON");
    assert_eq!(switch_state_payload(false), "OFF");
}

#[test]
fn state_topics() {
    assert_eq!(switch_state_topic("relay1").as_str(), "wooden-box/switch/relay1/state");
    assert_eq!(sensor_state_topic("humidity").as_str(), "wooden-box/sensor/humidity/state");
}

#[test]
fn state_topic_skips_an_id_that_does_not_fit() {
    // 18 bytes before the id and 6 after leave 40 bytes for it.
    let id = "z".repeat(40);
    assert_eq!(switch_state_topic(&id).as_str(), format!("wooden-box/switch/{}/state", id));
    // The id still fits, "/state" no longer does.
    let id = "z".repeat(41);
    assert_eq!(switch_state_topic(&id).as_str(), format!("wooden-box/switch/{}", id));
    // The id does not fit and is skipped; "/state" follows.
    let id = "z".repeat(47);
    assert_eq!(switch_state_topic(&id).as_str(), "wooden-box/switch//state");
}

#[test]
fn payload_on_is_exact() {
    assert!(payload_is_on(b"ON"));
    assert!(!payload_is_on(b"on"));
    assert!(!payload_is_on(b"OFF"));
    assert!(!payload_is_on(b"ON "));
    assert!(!payload_is_on(b""));
}

#[test]
fn switch_command_on_is_dispatched_and_echoed() {
    match handle_message("wooden-box/switch/relay1/command", b"ON") {
        Reaction::Switch { switch_id, on, echo } => {
            assert_eq!(switch_id, "relay1");
            assert!(on);
            assert_eq!(echo.topic.as_str(), "wooden-box/switch/relay1/state");
            assert_eq!(echo.payload, "ON");
            assert!(echo.retain);
            assert_eq!(echo.qos, Qos::AtMostOnce);
        }
        _ => panic!("expected a switch command"),
    }
}

#[test]
fn switch_command_other_payload_switches_off() {
    match handle_message("wooden-box/switch/relay1/command", b"OFF") {
        Reaction::Switch { switch_id, on, echo } => {
            assert_eq!(switch_id, "relay1");
            assert!(!on);
            assert_eq!(echo.payload, "OFF");
        }
        _ => panic!("expected a switch command"),
    }
}

#[test]
fn switch_id_may_be_empty_or_hold_slashes() {
    match handle_message("wooden-box/switch//command", b"ON") {
        Reaction::Switch { switch_id, .. } => assert_eq!(switch_id, ""),
        _ => panic!("expected a switch command"),
    }
    match handle_message("wooden-box/switch/a/command/command", b"ON") {
        Reaction::Switch { switch_id, echo, .. } => {
            assert_eq!(switch_id, "a/command");
            assert_eq!(echo.topic.as_str(), "wooden-box/switch/a/command/state");
        }
        _ => panic!("expected a switch command"),
    }
}

#[test]
fn switch_id_with_multibyte_characters() {
    match handle_message("wooden-box/switch/l\u{e4}mpchen/command", b"ON") {
        Reaction::Switch { switch_id, echo, .. } => {
            assert_eq!(switch_id, "l\u{e4}mpchen");
            assert_eq!(echo.topic.as_str(), "wooden-box/switch/l\u{e4}mpchen/state");
        }
        _ => panic!("expected a switch command"),
    }
}

#[test]
fn lights_automation_is_dispatched() {
    match handle_message("wooden-box/automation/lights_on", b"ON") {
        Reaction::Lights { on } => assert!(on),
        _ => panic!("expected the lights"),
    }
    match handle_message("wooden-box/automation/lights_on", b"OFF") {
        Reaction::Lights { on } => assert!(!on),
        _ => panic!("expected the lights"),
    }
}

#[test]
fn other_topics_are_ignored() {
    for topic in [
        "wooden-box/switch/relay1/state",
        "wooden-box/switch/command",
        "wooden-box/switch/relay1",
        "other/switch/relay1/command",
        "wooden-box/automation/lights_on/x",
        "wooden-box/automation/lights_o",
        "",
        "wooden-box",
    ] {
        assert!(matches!(handle_message(topic, b"ON"), Reaction::Ignore), "{}", topic);
    }
}

#[test]
fn one_decimal_formats() {
    let f = |negative, integer, tenths| {
        format_one_decimal(OneDecimal { negative, integer, tenths }).as_str().to_string()
    };
    assert_eq!(f(false, 0, 0), "0.0");
    assert_eq!(f(false, 7, 0), "7.0");
    assert_eq!(f(true, 23, 4), "-23.4");
    assert_eq!(f(false, 100, 9), "100.9");
    assert_eq!(f(false, 123, 5), "123.5");
    assert_eq!(f(false, 999, 9), "999.9");
    // Every digit of the integer part is written.
    assert_eq!(f(false, 1234, 5), "1234.5");
    assert_eq!(f(false, 1000, 0), "1000.0");
    assert_eq!(f(true, u32::MAX, 0), "-4294967295.0");
    // A tenths value that is not a single digit prints as 0.
    assert_eq!(f(false, 5, 12), "5.0");
}

#[test]
fn sensor_publication() {
    let p = publish_sensor("temperature", OneDecimal { negative: false, integer: 21, tenths: 5 });
    assert_eq!(p.topic.as_str(), "wooden-box/sensor/temperature/state");
    assert_eq!(p.payload.as_str(), "21.5");
    assert!(!p.retain);
    assert_eq!(p.qos, Qos::AtMostOnce);
}

#[test]
fn discovery_messages_in_order() {
    let m = discovery_messages();
    assert_eq!(m.len(), 3);
    assert!(m.iter().all(|x| x.retain && x.qos == Qos::AtMostOnce));
    assert_eq!(m[0].topic.as_str(), "homeassistant/sensor/wooden_box/temperature/config");
    assert!(m[0].payload.as_str().contains("\"name\":\"Temperature\""));
    assert_eq!(m[1].topic.as_str(), "homeassistant/sensor/wooden_box/humidity/config");
    assert!(m[1].payload.as_str().contains("\"name\":\"Humidity\""));
    assert_eq!(m[2].topic.as_str(), "homeassistant/switch/wooden_box/relay1/config");
    assert!(m[2].payload.as_str().contains("\"cmd_t\":\"~/switch/relay1/command\""));
}

#[test]
fn announced_command_topic_is_dispatched() {
    // The switch payload announces cmd_t "~/switch/relay1/command" with "~" the base.
    let p = switch_payload_cmd("relay1");
    assert!(p.contains("\"~\":\"wooden-box\""));
    match handle_message("wooden-box/switch/relay1/command", b"ON") {
        Reaction::Switch { switch_id, echo, .. } => {
            assert_eq!(switch_id, "relay1");
            assert!(p.contains("\"stat_t\":\"~/switch/relay1/state\""));
            assert_eq!(echo.topic.as_str(), "wooden-box/switch/relay1/state");
        }
        _ => panic!("expected a switch command"),
    }
}

fn switch_payload_cmd(id: &str) -> String {
    wooden_box::discovery::switch_payload(id, "Relay").as_str().to_string()
}

fn one_iteration(
    s: &mut MqttSession,
    now: u64,
    failed: bool,
    connected: bool,
    pressed: bool,
) -> Vec<LoopAction> {
    let mut actions = Vec::new();
    let mut a = s.step(LoopEvent::Start { now_us: now });
    actions.push(a);
    if let LoopAction::PrintStatus { .. } = a {
        a = s.step(LoopEvent::StatusPrinted { now_us: now });
        actions.push(a);
    }
    actions.push(s.step(LoopEvent::Polled { failed, connected }));
    actions.push(s.step(LoopEvent::Button { pressed }));
    let a = s.step(LoopEvent::Connection { connected, now_us: now });
    actions.push(a);
    if let LoopAction::Connected { publish_sensors: true, .. } = a {
        actions.push(s.step(LoopEvent::SensorsPublished { now_us: now }));
    }
    actions
}

#[test]
fn session_starts_clean() {
    let s = MqttSession::new(7);
    assert_eq!(s.phase, LoopPhase::Idle);
    assert!(!s.subscribed);
    assert!(!s.was_connected);
    assert_eq!(s.poll_errors, 0);
    assert_eq!(s.loop_counter, 0);
    assert_eq!(s.last_status_us, 7);
    assert_eq!(s.last_sensor_us, 7);
}

#[test]
fn an_iteration_goes_through_its_steps_in_order() {
    let mut s = MqttSession::new(0);
    let a = one_iteration(&mut s, 1_000, false, true, true);
    assert_eq!(
        a,
        vec![
            LoopAction::Poll,
            LoopAction::PollButton { log_error: None, notify: Some(true) },
            LoopAction::CheckConnection { publish_press: true },
            LoopAction::Connected { connected: true, announce: true, publish_sensors: false },
        ]
    );
    assert_eq!(s.phase, LoopPhase::Idle);
    assert_eq!(s.loop_counter, 1);
}

#[test]
fn out_of_order_reports_are_ignored() {
    let mut s = MqttSession::new(0);
    assert_eq!(s.step(LoopEvent::Button { pressed: true }), LoopAction::Ignore);
    assert_eq!(s.step(LoopEvent::SensorsPublished { now_us: 5 }), LoopAction::Ignore);
    assert_eq!(s.phase, LoopPhase::Idle);
    assert_eq!(s.last_sensor_us, 0);
}

#[test]
fn status_line_every_five_seconds() {
    let mut s = MqttSession::new(0);
    assert_eq!(s.step(LoopEvent::Start { now_us: 4_999_999 }), LoopAction::Poll);
    let mut s = MqttSession::new(0);
    assert_eq!(
        s.step(LoopEvent::Start { now_us: 5_000_000 }),
        LoopAction::PrintStatus { loop_counter: 1, poll_errors: 0 }
    );
    assert_eq!(s.step(LoopEvent::StatusPrinted { now_us: 5_000_100 }), LoopAction::Poll);
    assert_eq!(s.last_status_us, 5_000_100);
}

#[test]
fn poll_errors_are_logged_with_throttling() {
    let mut s = MqttSession::new(0);
    let mut logged = Vec::new();
    for i in 0..250u64 {
        for a in one_iteration(&mut s, i, true, false, false) {
            if let LoopAction::PollButton { log_error: Some(n), .. } = a {
                logged.push(n);
            }
        }
    }
    assert_eq!(logged, vec![1, 2, 3, 4, 5, 100, 200]);
    assert_eq!(s.poll_errors, 250);
    assert_eq!(s.loop_counter, 250);
}

#[test]
fn connection_changes_are_reported_once() {
    let mut s = MqttSession::new(0);
    let mut notified = Vec::new();
    for (i, c) in [false, true, true, false, false, true].iter().enumerate() {
        for a in one_iteration(&mut s, i as u64, false, *c, false) {
            if let LoopAction::PollButton { notify: Some(v), .. } = a {
                notified.push(v);
            }
        }
    }
    assert_eq!(notified, vec![true, false, true]);
}

#[test]
fn announcements_once_per_connection() {
    let mut s = MqttSession::new(0);
    let mut announced = Vec::new();
    for (i, c) in [false, true, true, false, true, true].iter().enumerate() {
        for a in one_iteration(&mut s, i as u64, false, *c, false) {
            if let LoopAction::Connected { announce, .. } = a {
                announced.push(announce);
            }
        }
    }
    assert_eq!(announced, vec![false, true, false, false, true, false]);
}

#[test]
fn sensors_every_thirty_seconds_while_connected() {
    let mut s = MqttSession::new(0);
    let mut published = Vec::new();
    for t in [10_000_000u64, 29_999_999, 30_000_000, 45_000_000, 59_999_999, 60_000_000] {
        for a in one_iteration(&mut s, t, false, true, false) {
            if let LoopAction::Connected { publish_sensors: true, .. } = a {
                published.push(t);
            }
        }
    }
    assert_eq!(published, vec![30_000_000, 60_000_000]);
    // Not while disconnected, even when due.
    let mut s = MqttSession::new(0);
    let a = one_iteration(&mut s, 90_000_000, false, false, false);
    assert!(a.contains(&LoopAction::Connected {
        connected: false,
        announce: false,
        publish_sensors: false
    }));
}

#[test]
fn formatted_readings_read_back_in_order() {
    let read = |integer, tenths| {
        let t = format_one_decimal(OneDecimal { negative: false, integer, tenths });
        let v: f64 = t.as_str().parse().unwrap();
        (v * 10.0).round() as u64
    };
    assert_eq!(read(99, 9), 999);
    assert_eq!(read(100, 0), 1000);
    assert!(read(99, 9) < read(100, 0));
    assert_eq!(read(1234, 5), 12345);
}

#[test]
fn fixed_publications() {
    let b = button_publication();
    assert_eq!((b.topic.as_str(), b.payload, b.retain), ("wooden-box/button/toggle", "pressed", false));
    let o = online_publication();
    assert_eq!((o.topic.as_str(), o.payload, o.retain), ("wooden-box/status", "online", true));
    let w = last_will();
    assert_eq!((w.topic.as_str(), w.payload, w.retain), ("wooden-box/status", "offline", false));
    assert_eq!((b.qos, o.qos, w.qos), (Qos::AtMostOnce, Qos::AtMostOnce, Qos::AtMostOnce));
}

#[test]
fn announcement_in_order() {
    let steps = announcement();
    assert_eq!(steps.len(), 5);
    match &steps[0] {
        AnnounceStep::Subscribe { filters } => {
            let f: Vec<&str> = filters.iter().map(|t| t.as_str()).collect();
            assert_eq!(f, vec!["wooden-box/switch/+/command", "wooden-box/automation/lights_on"]);
        }
        _ => panic!("expected the subscription first"),
    }
    let topics: Vec<String> = steps[1..4]
        .iter()
        .map(|s| match s {
            AnnounceStep::Discover { message } => message.topic.as_str().to_string(),
            _ => panic!("expected a discovery message"),
        })
        .collect();
    assert_eq!(
        topics,
        vec![
            "homeassistant/sensor/wooden_box/temperature/config",
            "homeassistant/sensor/wooden_box/humidity/config",
            "homeassistant/switch/wooden_box/relay1/config",
        ]
    );
    match &steps[4] {
        AnnounceStep::Publish { publication } => {
            assert_eq!(publication.topic.as_str(), "wooden-box/status");
            assert_eq!(publication.payload, "online");
            assert!(publication.retain);
        }
        _ => panic!("expected online last"),
    }
}

#[test]
fn one_button_poll_per_iteration_and_press_published_when_reported() {
    let mut s = MqttSession::new(0);
    for (i, pressed) in [true, false, true, true].iter().enumerate() {
        let actions = one_iteration(&mut s, (i as u64) * 40_000_000, false, true, *pressed);
        let polls = actions
            .iter()
            .filter(|a| matches!(a, LoopAction::PollButton { .. }))
            .count();
        assert_eq!(polls, 1);
        let presses: Vec<bool> = actions
            .iter()
            .filter_map(|a| match a {
                LoopAction::CheckConnection { publish_press } => Some(*publish_press),
                _ => None,
            })
            .collect();
        assert_eq!(presses, vec![*pressed]);
    }
}
