use telemetry_node::broker::{
    init_outcome, publish_outcome, start_outcome, validate_credentials, BrokerClient,
    SETTLE_DELAY_MS,
};
use telemetry_node::clock::{decode_clock_registers, format_date, format_time, ClockReading};
use telemetry_node::cycle::{
    cycle_step, ms_to_ticks, plan_cycle, startup_step, telemetry_topic, CycleOutcome, Phase,
    SensorFields, StartupEvent, CYCLE_SLEEP_MS, PUBLISH_QOS,
};
use telemetry_node::errors::TelemetryError;
use telemetry_node::sample::TelemetrySample;
use telemetry_node::text::contains_nul;

fn reading(year: u16, month: u8, day: u8, hour: u8, minute: u8, second: u8) -> ClockReading {
    ClockReading { year, month, day, hour, minute, second }
}

#[test]
fn bcd_decode_examples() {
    assert_eq!(telemetry_node::clock::bcd_to_dec(0x59), 59);
    assert_eq!(telemetry_node::clock::bcd_to_dec(0x00), 0);
    assert_eq!(telemetry_node::clock::bcd_to_dec(0x15), 15);
}

#[test]
fn bcd_decode_every_valid_byte() {
    for hi in 0u8..10 {
        for lo in 0u8..10 {
            let b = (hi << 4) | lo;
            assert_eq!(telemetry_node::clock::bcd_to_dec(b), hi * 10 + lo);
        }
    }
}

#[test]
fn year_formula() {
    let regs = [0x00, 0x00, 0x00, 0x01, 0x01, 0x01, 0x23];
    let r = decode_clock_registers(&regs);
    assert_eq!(r.year, 2023);
}

#[test]
fn clock_round_trip() {
    let regs = [0x30, 0x15, 0x12, 0x04, 0x15, 0x06, 0x23];
    let r = decode_clock_registers(&regs);
    assert_eq!(r.year, 2023);
    assert_eq!(r.month, 6);
    assert_eq!(r.day, 15);
    assert_eq!(r.hour, 12);
    assert_eq!(r.minute, 15);
    assert_eq!(r.second, 30);
}

#[test]
fn clock_flag_bits_are_masked() {
    // High bit of seconds, top two bits of hour, top three of month.
    let regs = [0x80 | 0x30, 0x15, 0xC0 | 0x12, 0x04, 0x15, 0xE0 | 0x06, 0x23];
    let r = decode_clock_registers(&regs);
    assert_eq!(r.second, 30);
    assert_eq!(r.hour, 12);
    assert_eq!(r.month, 6);
}

#[test]
fn date_and_time_formatting() {
    let c = reading(2023, 6, 15, 12, 15, 30);
    assert_eq!(format_date(&c), "2023-06-15");
    assert_eq!(format_time(&c), "12:15:30");
}

#[test]
fn date_formatting_pads_with_zeros() {
    let c = reading(2024, 1, 1, 0, 0, 9);
    assert_eq!(format_date(&c), "2024-01-01");
    assert_eq!(format_time(&c), "00:00:09");
}

#[test]
fn sample_assembly_full_record() {
    let sensor = SensorFields { temperature: "25.5".to_string(), humidity: "60.2".to_string() };
    let clock = reading(2024, 1, 1, 12, 0, 0);
    let plan = plan_cycle(Some(sensor), Some(clock));
    let v: serde_json::Value = serde_json::from_str(&plan.payload).unwrap();
    let obj = v.as_object().unwrap();
    assert_eq!(obj.len(), 4);
    assert_eq!(obj.get("temperature").unwrap().as_f64().unwrap(), 25.5);
    assert_eq!(obj.get("humidity").unwrap().as_f64().unwrap(), 60.2);
    assert_eq!(obj.get("date").unwrap().as_str().unwrap(), "2024-01-01");
    assert_eq!(obj.get("time").unwrap().as_str().unwrap(), "12:00:00");
}

#[test]
fn sample_assembly_exact_text() {
    let sensor = SensorFields { temperature: "25.5".to_string(), humidity: "60.2".to_string() };
    let clock = reading(2024, 1, 1, 12, 0, 0);
    let plan = plan_cycle(Some(sensor), Some(clock));
    assert_eq!(
        plan.payload,
        "{\"temperature\":25.5,\"humidity\":60.2,\"date\":\"2024-01-01\",\"time\":\"12:00:00\"}"
    );
}

#[test]
fn partial_failure_keeps_clock_fields_and_still_publishes() {
    // Sensor acquisition failed, clock acquisition succeeded.
    let clock = reading(2024, 3, 9, 8, 30, 59);
    let plan = plan_cycle(None, Some(clock));
    let v: serde_json::Value = serde_json::from_str(&plan.payload).unwrap();
    let obj = v.as_object().unwrap();
    assert_eq!(obj.len(), 2);
    assert_eq!(obj.get("date").unwrap().as_str().unwrap(), "2024-03-09");
    assert_eq!(obj.get("time").unwrap().as_str().unwrap(), "08:30:59");
    assert!(obj.get("temperature").is_none());
    assert!(obj.get("humidity").is_none());
    // The publish attempt is still made, with the fixed topic and level.
    assert_eq!(plan.qos, PUBLISH_QOS);
    assert_eq!(telemetry_topic(), "v1/devices/me/telemetry");
}

#[test]
fn empty_cycle_still_publishes_empty_record() {
    let plan = plan_cycle(None, None);
    assert_eq!(plan.payload, "{}");
    assert_eq!(plan.qos, 1);
    assert_eq!(plan.sleep_ms, 3000);
}

#[test]
fn sensor_only_record() {
    let sensor = SensorFields { temperature: "21".to_string(), humidity: "55".to_string() };
    let plan = plan_cycle(Some(sensor), None);
    assert_eq!(plan.payload, "{\"temperature\":21,\"humidity\":55}");
}

#[test]
fn builder_matches_plan() {
    let mut s = TelemetrySample::new();
    s.set_sensor("25.5".to_string(), "60.2".to_string());
    s.set_clock(&reading(2024, 1, 1, 12, 0, 0));
    let sensor = SensorFields { temperature: "25.5".to_string(), humidity: "60.2".to_string() };
    let plan = plan_cycle(Some(sensor), Some(reading(2024, 1, 1, 12, 0, 0)));
    assert_eq!(s.serialize(), plan.payload);
}

#[test]
fn publish_failure_is_reported_and_loop_proceeds() {
    // A negative identifier is a rejected message.
    assert_eq!(publish_outcome(-1), Err(TelemetryError::Publish(-1)));
    assert_eq!(publish_outcome(0), Ok(0));
    assert_eq!(publish_outcome(7), Ok(7));
    // The cycle outcome never moves the loop out of steady state.
    let failed = CycleOutcome { sensor_ok: true, clock_ok: true, publish_ok: false, slept_ms: 3000 };
    assert_eq!(cycle_step(Phase::Running, &failed), Phase::Running);
}

#[test]
fn credential_validation() {
    assert_eq!(
        validate_credentials("mqtt://broker.example:1883", "user", "pass", "client"),
        Ok(())
    );
    assert_eq!(
        validate_credentials("mqtt://broker.example:1883", "us\u{0}er", "pass", "client"),
        Err(TelemetryError::Encoding)
    );
    assert!(contains_nul("a\u{0}b"));
    assert!(!contains_nul("ab"));
}

#[test]
fn construction_outcomes() {
    assert_eq!(init_outcome(true), Ok(()));
    assert_eq!(init_outcome(false), Err(TelemetryError::Init));
    assert_eq!(start_outcome(0), Ok(()));
    assert_eq!(start_outcome(261), Err(TelemetryError::Start(261)));
}

#[test]
fn lifecycle_started_then_torn_down() {
    let mut client = BrokerClient::started();
    assert!(client.is_started());
    assert_eq!(client.begin_publish(telemetry_topic()), Ok(()));
    assert_eq!(client.begin_publish("top\u{0}ic"), Err(TelemetryError::Encoding));
    client.teardown();
    // After teardown the client is stopped for good: the publish gate is
    // closed, so no further publish call is ever issued.
    assert!(!client.is_started());
}

#[test]
fn startup_phases() {
    let mut p = Phase::Init;
    p = startup_step(p, StartupEvent::Begin);
    assert_eq!(p, Phase::Connecting);
    p = startup_step(p, StartupEvent::NetworkUp);
    assert_eq!(p, Phase::Connecting);
    p = startup_step(p, StartupEvent::BrokerReady);
    assert_eq!(p, Phase::Running);
}

#[test]
fn startup_failures_are_terminal() {
    let p = startup_step(Phase::Connecting, StartupEvent::NetworkFailed);
    assert_eq!(p, Phase::Aborted);
    assert_eq!(startup_step(p, StartupEvent::BrokerReady), Phase::Aborted);
    let q = startup_step(Phase::Connecting, StartupEvent::BrokerFailed);
    assert_eq!(q, Phase::Aborted);
    assert_eq!(startup_step(q, StartupEvent::NetworkUp), Phase::Aborted);
}

#[test]
fn cadence_lower_bound_over_consecutive_cycles() {
    let n: u64 = 5;
    let mut total: u64 = 0;
    for _ in 0..n {
        let plan = plan_cycle(None, None);
        total += plan.sleep_ms as u64;
    }
    assert!(total >= n * 3000);
    assert_eq!(CYCLE_SLEEP_MS, 3000);
    assert_eq!(SETTLE_DELAY_MS, 2000);
}

#[test]
fn tick_conversion() {
    assert_eq!(ms_to_ticks(3000, 100), 300);
    assert_eq!(ms_to_ticks(2000, 100), 200);
    assert_eq!(ms_to_ticks(2000, 1000), 2000);
    assert_eq!(ms_to_ticks(1, 100), 0);
    assert_eq!(ms_to_ticks(1500, 1000), 1500);
}

#[test]
fn error_descriptions() {
    assert_eq!(
        TelemetryError::Encoding.describe(),
        "string holds an embedded terminator"
    );
    assert_eq!(TelemetryError::Publish(-1).describe(), "broker rejected the message");
}
