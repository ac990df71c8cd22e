use ava::device::{ConsumeError, Decision, Device};
use ava::device_lock::DeviceLock;
use ava::device_repo::{
    build_device_repo, build_init_list, build_loops, device_to_listen, HALL_LAMP_INDEX,
    KITCHEN_INTER_DIM_INDEX, KITCHEN_LAMP_INDEX, KITCHEN_SWITCH_INDEX,
};
use ava::devices::{HallLampDevice, KitchenInterDimDevice, KitchenLampDevice, KitchenSwitchDevice};
use ava::loops::HardLoop;
use ava::message::{
    convert, ConvertError, DeviceMessage, InterDim, InterSwitch, Kind, LampRGB, TempSensor,
};
use ava::registry::Registry;
use ava::transport::{after_publish_attempt, PublishStep, MAX_PUBLISH_ATTEMPTS};

fn lamp(color_temp: u16, brightness: u16, state: &str) -> DeviceMessage {
    DeviceMessage::LampRGB(LampRGB { color_temp, brightness, state: state.to_string() })
}

fn switch(state: &str) -> DeviceMessage {
    DeviceMessage::InterSwitch(InterSwitch { state: state.to_string() })
}

fn dimmer(brightness: u16, state: &str) -> DeviceMessage {
    DeviceMessage::InterDim(InterDim { brightness, state: state.to_string() })
}

fn sensor() -> DeviceMessage {
    DeviceMessage::TempSensor(TempSensor {
        battery: "97.5".to_string(),
        humidity: "41.2".to_string(),
        linkquality: 120,
        temperature: "21.5".to_string(),
        voltage: 3000,
    })
}

/// A registry whose kitchen lamp was initialised with the given state text.
fn registry_with_kitchen_lamp(text: &str, state: DeviceMessage) -> Registry {
    let mut reg = Registry::standard();
    let list = vec![KITCHEN_LAMP_INDEX];
    let topic = reg.devices[KITCHEN_LAMP_INDEX].get_topic();
    assert!(reg.process_init_message(&list, &topic, text, Some(state)));
    reg
}

#[test]
fn canonical_lamp_text() {
    assert_eq!(lamp(300, 50, "ON").to_json(), r#"{"color_temp":300,"brightness":50,"state":"ON"}"#);
    assert_eq!(lamp(0, 65535, "").to_json(), r#"{"color_temp":0,"brightness":65535,"state":""}"#);
}

#[test]
fn canonical_switch_and_dimmer_text() {
    assert_eq!(switch("OFF").to_json(), r#"{"state":"OFF"}"#);
    assert_eq!(dimmer(254, "ON").to_json(), r#"{"brightness":254,"state":"ON"}"#);
}

#[test]
fn canonical_sensor_text() {
    assert_eq!(
        sensor().to_json(),
        r#"{"battery":97.5,"humidity":41.2,"linkquality":120,"temperature":21.5,"voltage":3000}"#
    );
}

#[test]
fn canonical_text_escapes_state() {
    assert_eq!(switch("a\"b\\c\n").to_json(), "{\"state\":\"a\\\"b\\\\c\\n\"}");
}

#[test]
fn convert_lamp_to_switch_and_dimmer() {
    let src = lamp(300, 50, "ON");
    assert_eq!(convert(&src, Kind::Switch, None).unwrap().to_json(), r#"{"state":"ON"}"#);
    assert_eq!(
        convert(&src, Kind::Dimmer, None).unwrap().to_json(),
        r#"{"brightness":50,"state":"ON"}"#
    );
}

#[test]
fn convert_switch_takes_context_fields() {
    let ctx = lamp(300, 50, "OFF");
    let out = convert(&switch("ON"), Kind::Lamp, Some(&ctx)).unwrap();
    assert_eq!(out.to_json(), r#"{"color_temp":300,"brightness":50,"state":"ON"}"#);
    let dctx = dimmer(77, "OFF");
    let out = convert(&switch("ON"), Kind::Dimmer, Some(&dctx)).unwrap();
    assert_eq!(out.to_json(), r#"{"brightness":77,"state":"ON"}"#);
}

#[test]
fn convert_dimmer_keeps_own_brightness() {
    let ctx = lamp(250, 10, "OFF");
    let out = convert(&dimmer(200, "ON"), Kind::Lamp, Some(&ctx)).unwrap();
    assert_eq!(out.to_json(), r#"{"color_temp":250,"brightness":200,"state":"ON"}"#);
    let out = convert(&dimmer(200, "ON"), Kind::Switch, None).unwrap();
    assert_eq!(out.to_json(), r#"{"state":"ON"}"#);
}

#[test]
fn convert_identity_ignores_context() {
    let out = convert(&lamp(1, 2, "ON"), Kind::Lamp, None).unwrap();
    assert_eq!(out.to_json(), r#"{"color_temp":1,"brightness":2,"state":"ON"}"#);
    let out = convert(&sensor(), Kind::Sensor, None).unwrap();
    assert_eq!(out.to_json(), sensor().to_json());
}

#[test]
fn convert_missing_context() {
    assert_eq!(convert(&switch("ON"), Kind::Lamp, None).err(), Some(ConvertError::MissingContext));
    let wrong = dimmer(3, "ON");
    assert_eq!(
        convert(&switch("ON"), Kind::Lamp, Some(&wrong)).err(),
        Some(ConvertError::MissingContext)
    );
    assert_eq!(
        convert(&dimmer(3, "ON"), Kind::Lamp, Some(&switch("ON"))).err(),
        Some(ConvertError::MissingContext)
    );
    assert_eq!(convert(&switch("ON"), Kind::Dimmer, None).err(), Some(ConvertError::MissingContext));
}

#[test]
fn convert_sensor_has_no_conversion() {
    assert_eq!(convert(&sensor(), Kind::Lamp, None).err(), Some(ConvertError::NoConversion));
    assert_eq!(convert(&lamp(1, 1, "ON"), Kind::Sensor, None).err(), Some(ConvertError::NoConversion));
}

#[test]
fn lock_counts_and_saturates() {
    let mut lk = DeviceLock::new(String::new());
    lk.dec();
    assert_eq!(lk.count_locks, 0);
    lk.inc();
    lk.inc();
    assert_eq!(lk.count_locks, 2);
    lk.dec();
    assert_eq!(lk.count_locks, 1);
    lk.replace("x".to_string());
    assert_eq!(lk.last_object_message, "x");
    assert_eq!(lk.count_locks, 1);
}

#[test]
fn decide_twice_is_idempotent() {
    let mut dev = KitchenLampDevice::new();
    let m = lamp(300, 50, "ON");
    assert_eq!(dev.decide(&m), Decision::Accepted);
    let last = dev.lock.last_object_message.clone();
    assert_eq!(dev.decide(&m), Decision::NoChange);
    assert_eq!(dev.lock.count_locks, 0);
    assert_eq!(dev.lock.last_object_message, last);
}

#[test]
fn decide_prefers_lock_over_sameness() {
    let mut dev = KitchenLampDevice::new();
    let m = lamp(300, 50, "ON");
    dev.decide(&m);
    dev.lock.inc();
    assert_eq!(dev.allowed_to_process(&m), (true, true));
    assert_eq!(dev.decide(&m), Decision::LockedEcho);
    assert_eq!(dev.lock.count_locks, 0);
}

#[test]
fn lock_balance_after_fanout() {
    let mut peer = KitchenLampDevice::new();
    let topic = peer.get_topic();
    peer.init(&topic, r#"{"color_temp":300,"brightness":50,"state":"OFF"}"#, Some(lamp(300, 50, "OFF")));
    let sent = peer.consume_message(&switch("ON")).unwrap().unwrap();
    assert_eq!(peer.lock.count_locks, 1);
    let echo = lamp(300, 50, "ON");
    assert!(!peer.process_and_continue(&echo));
    assert_eq!(peer.lock.count_locks, 0);
    assert_eq!(sent.payload, echo.to_json());
}

#[test]
fn consume_without_state_is_unreadable() {
    let mut peer = HallLampDevice::new();
    assert_eq!(peer.consume_message(&switch("ON")).err(), Some(ConsumeError::UnreadableState));
    assert_eq!(peer.lock.count_locks, 0);
    assert_eq!(peer.lock.last_object_message, "");
}

#[test]
fn consume_unconvertible_leaves_state() {
    let mut peer = KitchenLampDevice::new();
    let topic = peer.get_topic();
    peer.init(&topic, "{}", Some(lamp(1, 2, "OFF")));
    assert_eq!(
        peer.consume_message(&sensor()).err(),
        Some(ConsumeError::Conversion(ConvertError::NoConversion))
    );
    assert_eq!(peer.lock.last_object_message, "{}");
}

#[test]
fn fanout_skips_origin_topic() {
    let mut devices = build_device_repo();
    for i in 0..devices.len() {
        let topic = devices[i].get_topic();
        devices[i].init(&topic, "{}", Some(lamp(300, 50, "OFF")));
    }
    let group = HardLoop::new("G".to_string(), vec![KITCHEN_LAMP_INDEX, HALL_LAMP_INDEX]);
    let origin = devices[KITCHEN_LAMP_INDEX].get_topic();
    let sent = group.loop_devices(&origin, &lamp(300, 99, "ON"), &mut devices);
    assert_eq!(sent.len(), 1);
    assert_eq!(sent[0].topic, "zigbee2mqtt/hall_lamp/set");
    assert_eq!(devices[KITCHEN_LAMP_INDEX].lock.last_object_message, "{}");
    assert_eq!(devices[KITCHEN_LAMP_INDEX].lock.count_locks, 0);
    assert_eq!(devices[HALL_LAMP_INDEX].lock.count_locks, 1);
}

#[test]
fn scenario_switch_on_drives_lamp() {
    let mut reg = registry_with_kitchen_lamp(
        r#"{"color_temp":300,"brightness":50,"state":"OFF"}"#,
        lamp(300, 50, "OFF"),
    );
    let topic = reg.devices[KITCHEN_SWITCH_INDEX].get_topic();
    let sent = reg.process_publish(&topic, Some(switch("ON")));
    assert_eq!(sent.len(), 1);
    assert_eq!(sent[0].topic, "zigbee2mqtt/kitchen_lamp/set");
    assert_eq!(sent[0].payload, r#"{"color_temp":300,"brightness":50,"state":"ON"}"#);
    assert_eq!(reg.devices[KITCHEN_LAMP_INDEX].lock.count_locks, 1);
}

#[test]
fn scenario_echo_is_absorbed() {
    let mut reg = registry_with_kitchen_lamp(
        r#"{"color_temp":300,"brightness":50,"state":"OFF"}"#,
        lamp(300, 50, "OFF"),
    );
    let switch_topic = reg.devices[KITCHEN_SWITCH_INDEX].get_topic();
    reg.process_publish(&switch_topic, Some(switch("ON")));
    let lamp_topic = reg.devices[KITCHEN_LAMP_INDEX].get_topic();
    let mut dev = reg.devices[KITCHEN_LAMP_INDEX].lock.count_locks;
    assert_eq!(dev, 1);
    let sent = reg.process_publish(&lamp_topic, Some(lamp(300, 50, "ON")));
    assert!(sent.is_empty());
    dev = reg.devices[KITCHEN_LAMP_INDEX].lock.count_locks;
    assert_eq!(dev, 0);
}

#[test]
fn scenario_echo_decision_is_locked() {
    let mut peer = KitchenLampDevice::new();
    let topic = peer.get_topic();
    peer.init(&topic, r#"{"color_temp":300,"brightness":50,"state":"OFF"}"#, Some(lamp(300, 50, "OFF")));
    peer.consume_message(&switch("ON")).unwrap();
    assert_eq!(peer.decide(&lamp(300, 50, "ON")), Decision::LockedEcho);
    assert_eq!(peer.lock.count_locks, 0);
}

#[test]
fn scenario_malformed_payload_is_dropped() {
    let mut reg = registry_with_kitchen_lamp(
        r#"{"color_temp":300,"brightness":50,"state":"OFF"}"#,
        lamp(300, 50, "OFF"),
    );
    let before: Vec<(u32, String)> =
        reg.devices.iter().map(|d| (d.lock.count_locks, d.lock.last_object_message.clone())).collect();
    let topic = reg.devices[KITCHEN_SWITCH_INDEX].get_topic();
    assert!(reg.process_publish(&topic, None).is_empty());
    let after: Vec<(u32, String)> =
        reg.devices.iter().map(|d| (d.lock.count_locks, d.lock.last_object_message.clone())).collect();
    assert_eq!(before, after);
    let sent = reg.process_publish(&topic, Some(switch("ON")));
    assert_eq!(sent.len(), 1);
}

#[test]
fn scenario_two_groups_decide_twice() {
    let mut reg = registry_with_kitchen_lamp(
        r#"{"color_temp":300,"brightness":50,"state":"OFF"}"#,
        lamp(300, 50, "OFF"),
    );
    reg.devices[KITCHEN_LAMP_INDEX].lock.inc();
    reg.devices[KITCHEN_LAMP_INDEX].lock.inc();
    let topic = reg.devices[KITCHEN_LAMP_INDEX].get_topic();
    let sent = reg.process_publish(&topic, Some(lamp(300, 80, "ON")));
    assert!(sent.is_empty());
    assert_eq!(reg.devices[KITCHEN_LAMP_INDEX].lock.count_locks, 0);
}

#[test]
fn unknown_topic_and_wrong_kind_are_dropped() {
    let mut reg = Registry::standard();
    assert!(reg.process_publish("zigbee2mqtt/nobody", Some(switch("ON"))).is_empty());
    let topic = reg.devices[KITCHEN_SWITCH_INDEX].get_topic();
    assert!(reg.process_publish(&topic, Some(lamp(1, 1, "ON"))).is_empty());
    assert_eq!(reg.devices[KITCHEN_SWITCH_INDEX].lock.last_object_message, "");
    assert_eq!(reg.device_for(&topic), Some(KITCHEN_SWITCH_INDEX));
    assert_eq!(reg.device_for("zigbee2mqtt/nobody"), None);
}

#[test]
fn registry_rejects_unknown_member() {
    let groups = vec![HardLoop::new("G".to_string(), vec![0, 7])];
    assert!(Registry::new(build_device_repo(), groups).is_none());
    assert!(Registry::new(build_device_repo(), build_loops()).is_some());
}

#[test]
fn init_handshake() {
    let mut reg = Registry::standard();
    let list = build_init_list();
    let reqs = reg.init_requests(&list);
    assert_eq!(reqs.len(), 2);
    assert_eq!(reqs[0].topic, "zigbee2mqtt/kitchen_lamp/get");
    assert_eq!(reqs[0].payload, r#"{"color":{"x":"","y":""}}"#);
    assert_eq!(reqs[1].topic, "zigbee2mqtt/hall_lamp/get");
    assert!(!reg.all_initialized(&list));
    let text = r#"{"color_temp":300,"brightness":50,"state":"OFF","linkquality":90}"#;
    assert!(!reg.process_init_message(&list, "zigbee2mqtt/kitchen_lamp", text, Some(lamp(300, 50, "OFF"))));
    assert_eq!(reg.devices[KITCHEN_LAMP_INDEX].lock.last_object_message, text);
    assert!(!reg.devices[HALL_LAMP_INDEX].is_init());
    assert!(reg.process_init_message(&list, "zigbee2mqtt/hall_lamp", "{}", None));
    assert!(reg.all_initialized(&list));
}

#[test]
fn init_ignores_other_topic_and_wrong_kind() {
    let mut dev = KitchenSwitchDevice::new();
    dev.init("zigbee2mqtt/other", "{}", Some(switch("ON")));
    assert!(!dev.is_init());
    let topic = dev.get_topic();
    dev.init(&topic, r#"{"state":"ON"}"#, Some(lamp(1, 1, "ON")));
    assert!(dev.is_init());
    assert!(dev.context.is_none());
    assert_eq!(dev.trigger_info(), r#"{"state":""}"#);
}

#[test]
fn device_names_and_topics() {
    assert_eq!(HallLampDevice::get_name(), "hall_lamp");
    assert_eq!(KitchenInterDimDevice::get_name(), "kitchen_inter_dim");
    assert_eq!(KitchenLampDevice::get_name(), "kitchen_lamp");
    assert_eq!(KitchenSwitchDevice::get_name(), "kitchen_switch");
    let devices = build_device_repo();
    assert_eq!(devices[KITCHEN_INTER_DIM_INDEX].get_topic(), "zigbee2mqtt/kitchen_inter_dim");
    assert_eq!(devices[KITCHEN_INTER_DIM_INDEX].kind, Kind::Dimmer);
    let topics = device_to_listen(&devices);
    assert_eq!(topics[3], "zigbee2mqtt/kitchen_switch");
    let dev: Device = KitchenInterDimDevice::new();
    assert!(!dev.is_init());
}

#[test]
fn group_lookup_by_topic() {
    let devices = build_device_repo();
    let groups = build_loops();
    assert_eq!(groups[0].get_name(), "KITCHEN_LOOP");
    assert_eq!(groups[0].find_device_by_topic("zigbee2mqtt/hall_lamp", &devices), Some(HALL_LAMP_INDEX));
    assert_eq!(groups[0].find_device_by_topic("zigbee2mqtt/kitchen_switch", &devices), None);
}

#[test]
fn message_constructors() {
    assert_eq!(InterSwitch::new().state, "OFF");
    let d = InterDim::new();
    assert_eq!((d.brightness, d.state.as_str()), (0, "OFF"));
    assert_eq!(
        DeviceMessage::LampRGB(LampRGB::new()).to_json(),
        r#"{"color_temp":270,"brightness":40,"state":""}"#
    );
    assert_eq!(
        DeviceMessage::TempSensor(TempSensor::new()).to_json(),
        r#"{"battery":0.0,"humidity":0.0,"linkquality":0,"temperature":0.0,"voltage":0}"#
    );
}

#[test]
fn publish_retry_is_bounded() {
    assert_eq!(after_publish_attempt(1, true), PublishStep::Done);
    assert_eq!(after_publish_attempt(1, false), PublishStep::Retry);
    assert_eq!(after_publish_attempt(2, false), PublishStep::Retry);
    assert_eq!(after_publish_attempt(MAX_PUBLISH_ATTEMPTS, false), PublishStep::GiveUp);
    assert_eq!(after_publish_attempt(MAX_PUBLISH_ATTEMPTS, true), PublishStep::Done);
}
