use automation::config::MqttDeviceConfig;
use automation::devices::light_sensor::{LightSensor, LightSensorConfig};
use automation::devices::washer::{PowerReading, Washer, WasherConfig, HYSTERESIS};
use automation::error::ParseError;
use automation::event::Event;
use automation::messages::BrightnessMessage;

fn sensor() -> LightSensor {
    LightSensor::new(LightSensorConfig {
        identifier: "light_sensor".to_string(),
        mqtt: MqttDeviceConfig { topic: "zigbee2mqtt/light".to_string() },
        min: 23_000,
        max: 25_000,
    })
}

fn reading(lux: isize) -> Result<BrightnessMessage, ParseError> {
    Ok(BrightnessMessage { illuminance: lux })
}

fn darkness(e: Option<Event>) -> Option<bool> {
    match e {
        None => None,
        Some(Event::Darkness(d)) => Some(d),
        Some(_) => panic!("unexpected event"),
    }
}

#[test]
fn light_sensor_hysteresis() {
    let mut s = sensor();
    assert_eq!(s.get_id(), "light_sensor");
    assert!(!s.is_dark());
    // between the bounds: unchanged
    assert_eq!(darkness(s.on_mqtt("zigbee2mqtt/light", reading(24_000))), None);
    // at the lower bound: dark
    assert_eq!(darkness(s.on_mqtt("zigbee2mqtt/light", reading(23_000))), Some(true));
    assert!(s.is_dark());
    // back in between: still dark, no event
    assert_eq!(darkness(s.on_mqtt("zigbee2mqtt/light", reading(24_999))), None);
    assert!(s.is_dark());
    // at the upper bound: light
    assert_eq!(darkness(s.on_mqtt("zigbee2mqtt/light", reading(25_000))), Some(false));
    // other topics and bad payloads are ignored
    assert_eq!(darkness(s.on_mqtt("zigbee2mqtt/other", reading(0))), None);
    assert_eq!(darkness(s.on_mqtt("zigbee2mqtt/light", Err(ParseError::InvalidPayload(vec![])))), None);
    assert!(!s.is_dark());
}

fn washer() -> Washer {
    Washer::new(WasherConfig {
        identifier: "washer".to_string(),
        mqtt: MqttDeviceConfig { topic: "zigbee2mqtt/washer".to_string() },
    })
}

const ABOVE: PowerReading = PowerReading { below: false, at_or_above: true };
const BELOW: PowerReading = PowerReading { below: true, at_or_above: false };
const NAN: PowerReading = PowerReading { below: false, at_or_above: false };

#[test]
fn washer_is_done_after_running_long_enough() {
    let mut w = washer();
    assert_eq!(w.get_id(), "washer");
    for _ in 0..HYSTERESIS {
        assert!(w.on_mqtt("zigbee2mqtt/washer", Ok(ABOVE)).is_none());
    }
    // readings that are not a number change nothing
    assert!(w.on_mqtt("zigbee2mqtt/washer", Ok(NAN)).is_none());
    match w.on_mqtt("zigbee2mqtt/washer", Ok(BELOW)) {
        Some(Event::Ntfy(n)) => {
            assert_eq!(n.title.as_deref(), Some("Laundy is done"));
            assert_eq!(n.message.as_deref(), Some("Don't forget to hang it!"));
            assert_eq!(n.tags, vec!["womans_clothes".to_string()]);
            assert_eq!(n.priority, Some(automation::ntfy::Priority::High));
        }
        _ => panic!("expected the laundry notification"),
    }
    // the counter started over
    assert!(w.on_mqtt("zigbee2mqtt/washer", Ok(BELOW)).is_none());
}

#[test]
fn washer_false_start_is_forgotten() {
    let mut w = washer();
    for _ in 0..HYSTERESIS - 1 {
        assert!(w.on_mqtt("zigbee2mqtt/washer", Ok(ABOVE)).is_none());
    }
    assert!(w.on_mqtt("zigbee2mqtt/washer", Ok(BELOW)).is_none());
    assert!(w.on_mqtt("zigbee2mqtt/washer", Ok(ABOVE)).is_none());
    assert!(w.on_mqtt("zigbee2mqtt/washer", Ok(BELOW)).is_none());
    assert!(w.on_mqtt("zigbee2mqtt/other", Ok(BELOW)).is_none());
}

#[test]
fn washer_needs_an_unbroken_run() {
    let mut w = washer();
    let mut done = 0;
    let mut sequence: Vec<PowerReading> = Vec::new();
    for _ in 0..9 {
        sequence.push(ABOVE);
    }
    sequence.push(BELOW);
    for _ in 0..12 {
        sequence.push(ABOVE);
    }
    sequence.push(BELOW);
    sequence.push(BELOW);
    for (i, r) in sequence.into_iter().enumerate() {
        if w.on_mqtt("zigbee2mqtt/washer", Ok(r)).is_some() {
            done += 1;
            assert_eq!(i, 22);
        }
    }
    assert_eq!(done, 1);
}

#[test]
fn washer_skips_readings_that_are_not_numbers() {
    // the washer only counts readings that are numbers
    let mut w = washer();
    for _ in 0..HYSTERESIS {
        w.on_mqtt("zigbee2mqtt/washer", Ok(ABOVE));
        w.on_mqtt("zigbee2mqtt/washer", Ok(NAN));
    }
    assert!(w.on_mqtt("zigbee2mqtt/washer", Ok(BELOW)).is_some());
}
