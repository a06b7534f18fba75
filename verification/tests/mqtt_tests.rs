use sensecap_indicator::firmware::mqtt::{
    bytes_equal, parse_water_level, MqttClient, MqttEvent, MqttMessage, MQTT_TOPIC_LIGHT_STATE,
    MQTT_TOPIC_WATER_LEVEL,
};

fn received(topic: &str, data: &str) -> MqttEvent {
    MqttEvent::Received {
        topic: Some(topic.as_bytes().to_vec()),
        data: Some(data.as_bytes().to_vec()),
    }
}

#[test]
fn topics_are_the_indicator_topics() {
    assert_eq!(MQTT_TOPIC_LIGHT_STATE, "sensecap/indicator/light/state");
    assert_eq!(MQTT_TOPIC_WATER_LEVEL, "sensecap/indicator/water/level");
}

#[test]
fn plain_decimal_levels_are_understood() {
    assert_eq!(parse_water_level(b"0"), Some(0));
    assert_eq!(parse_water_level(b"5"), Some(5));
    assert_eq!(parse_water_level(b"42"), Some(42));
    assert_eq!(parse_water_level(b"100"), Some(100));
}

#[test]
fn every_percentage_round_trips() {
    for level in 0..=100u8 {
        assert_eq!(parse_water_level(format!("{}", level).as_bytes()), Some(level));
    }
}

#[test]
fn levels_above_100_are_dropped() {
    assert_eq!(parse_water_level(b"101"), None);
    assert_eq!(parse_water_level(b"255"), None);
    assert_eq!(parse_water_level(b"256"), None);
    assert_eq!(parse_water_level(b"1000"), None);
    assert_eq!(parse_water_level(b"99999999999999999999999999999999"), None);
}

#[test]
fn white_space_around_the_number_is_ignored() {
    assert_eq!(parse_water_level(b" 42"), Some(42));
    assert_eq!(parse_water_level(b"42\n"), Some(42));
    assert_eq!(parse_water_level(b"\t\r\n 7 \x0B\x0C"), Some(7));
}

#[test]
fn a_plus_sign_and_leading_zeros_are_accepted() {
    assert_eq!(parse_water_level(b"+7"), Some(7));
    assert_eq!(parse_water_level(b"005"), Some(5));
    assert_eq!(parse_water_level(b"+000100"), Some(100));
    assert_eq!(parse_water_level(b"0000000000000000000000000"), Some(0));
}

#[test]
fn anything_else_is_dropped() {
    assert_eq!(parse_water_level(b""), None);
    assert_eq!(parse_water_level(b"   "), None);
    assert_eq!(parse_water_level(b"+"), None);
    assert_eq!(parse_water_level(b"-5"), None);
    assert_eq!(parse_water_level(b"++5"), None);
    assert_eq!(parse_water_level(b"5+"), None);
    assert_eq!(parse_water_level(b"1 2"), None);
    assert_eq!(parse_water_level(b"+ 5"), None);
    assert_eq!(parse_water_level(b"abc"), None);
    assert_eq!(parse_water_level(b"5%"), None);
    assert_eq!(parse_water_level(b"4.2"), None);
    assert_eq!(parse_water_level(b"0x10"), None);
    assert_eq!(parse_water_level(&[0xFF, 0x35]), None);
    assert_eq!(parse_water_level("５".as_bytes()), None);
}

#[test]
fn byte_strings_compare_by_content() {
    assert!(bytes_equal(b"", b""));
    assert!(bytes_equal(b"abc", b"abc"));
    assert!(!bytes_equal(b"abc", b"abd"));
    assert!(!bytes_equal(b"abc", b"ab"));
    assert!(!bytes_equal(b"", b"a"));
}

#[test]
fn water_level_on_its_topic_is_a_message() {
    assert_eq!(
        MqttClient::decode(Some(b"sensecap/indicator/water/level"), Some(b"5")),
        Some(MqttMessage::WaterLevel(5))
    );
    assert_eq!(
        MqttClient::decode(Some(b"sensecap/indicator/water/level"), Some(b" 73 \n")),
        Some(MqttMessage::WaterLevel(73))
    );
}

#[test]
fn other_topics_and_bad_payloads_mean_nothing() {
    assert_eq!(MqttClient::decode(Some(b"sensecap/indicator/light/state"), Some(b"5")), None);
    assert_eq!(MqttClient::decode(Some(b"sensecap/indicator/water/level/"), Some(b"5")), None);
    assert_eq!(MqttClient::decode(Some(b"sensecap/indicator/water/level"), Some(b"full")), None);
    assert_eq!(MqttClient::decode(Some(b"sensecap/indicator/water/level"), Some(b"150")), None);
    assert_eq!(MqttClient::decode(Some(b"sensecap/indicator/water/level"), None), None);
    assert_eq!(MqttClient::decode(None, Some(b"5")), None);
    assert_eq!(MqttClient::decode(None, None), None);
}

#[test]
fn new_client_has_nothing_queued() {
    let mut client = MqttClient::new();
    assert_eq!(client.try_recv(), None);
    assert!(client.get_receiver().is_empty());
    assert!(client.take_publications().is_empty());
}

#[test]
fn events_arrive_in_order() {
    let mut client = MqttClient::new();
    client.on_event(&MqttEvent::Connected);
    client.on_event(&received(MQTT_TOPIC_WATER_LEVEL, "12"));
    client.on_event(&MqttEvent::Other);
    client.on_event(&received(MQTT_TOPIC_WATER_LEVEL, "not a number"));
    client.on_event(&received("some/other/topic", "12"));
    client.on_event(&MqttEvent::Received { topic: None, data: Some(b"12".to_vec()) });
    client.on_event(&MqttEvent::Disconnected);
    assert_eq!(
        client.get_receiver(),
        &vec![MqttMessage::Connected, MqttMessage::WaterLevel(12), MqttMessage::Disconnected]
    );
    assert_eq!(client.try_recv(), Some(MqttMessage::Connected));
    assert_eq!(client.try_recv(), Some(MqttMessage::WaterLevel(12)));
    assert_eq!(client.try_recv(), Some(MqttMessage::Disconnected));
    assert_eq!(client.try_recv(), None);
}

#[test]
fn light_state_payload_is_a_json_object() {
    assert_eq!(
        MqttClient::light_state_payload("bright", true),
        b"{\"mode\":\"bright\",\"state\":1}".to_vec()
    );
    assert_eq!(
        MqttClient::light_state_payload("relax", false),
        b"{\"mode\":\"relax\",\"state\":0}".to_vec()
    );
    assert_eq!(MqttClient::light_state_payload("", false), b"{\"mode\":\"\",\"state\":0}".to_vec());
}

#[test]
fn publications_are_queued_oldest_first() {
    let mut client = MqttClient::new();
    client.publish_light_state("bright", true);
    client.try_publish_light_state("relax", false);
    let sent = client.take_publications();
    assert_eq!(
        sent,
        vec![
            b"{\"mode\":\"bright\",\"state\":1}".to_vec(),
            b"{\"mode\":\"relax\",\"state\":0}".to_vec(),
        ]
    );
    assert!(client.take_publications().is_empty());
}

#[test]
fn publishing_does_not_touch_the_inbox() {
    let mut client = MqttClient::new();
    client.on_event(&MqttEvent::Connected);
    client.publish_light_state("bright", true);
    assert_eq!(client.try_recv(), Some(MqttMessage::Connected));
    assert_eq!(client.take_publications().len(), 1);
}
