use hue_monitor::config::{resolve_token, token_env_name};
use hue_monitor::convert::{convert_light_level, convert_temperature};
use hue_monitor::devices::{
    Device, DeviceRequest, DevicesRequest, MetaData, ProductData, ResourceIdentifier,
};
use hue_monitor::error::{ConversionError, Fault};
use hue_monitor::join::join;
use hue_monitor::light_level::{LightLevel, LightLevelData, LightLevelReport, LightLevelRequest};
use hue_monitor::metrics::{LightLevelMetric, MetricRecord, TemperatureMetric};
use hue_monitor::number::WireNumber;
use hue_monitor::response::{GenericResponse, GetById};
use hue_monitor::scheduler::{Action, CycleState, Event, Scheduler, DEFAULT_INTERVAL_MS};
use hue_monitor::temperature::{
    Temperature, TemperatureData, TemperatureReport, TemperatureRequest, TemperaturesRequest,
};
use hue_monitor::url::request_url;

fn device(id: &str, name: &str, services: Vec<ResourceIdentifier>) -> Device {
    Device {
        device_type: String::from("device"),
        id: String::from(id),
        id_v1: None,
        product_data: ProductData {
            model_id: String::from("m"),
            manufacturer_name: String::from("maker"),
            product_name: String::from("sensor hub"),
            product_archetype: String::from("bridge_v2"),
            certified: true,
            software_version: String::from("1.0.0"),
            hardware_platform_type: None,
        },
        metadata: MetaData { name: String::from(name), archetype: String::from("bridge_v2") },
        identify: None,
        usertest: None,
        device_mode: None,
        services,
    }
}

fn service(rid: &str, rtype: &str) -> ResourceIdentifier {
    ResourceIdentifier { rid: String::from(rid), rtype: String::from(rtype) }
}

fn temperature_reading(id: &str, owner: &str, payload: WireNumber) -> Temperature {
    Temperature {
        device_type: String::from("temperature"),
        id: String::from(id),
        id_v1: None,
        owner: service(owner, "device"),
        enabled: true,
        temperature: TemperatureData {
            temperature: payload,
            temperature_valid: true,
            temperature_report: TemperatureReport {
                changed: String::from("2024-01-01T00:00:00Z"),
                temperature: payload,
            },
        },
    }
}

fn light_level_reading(id: &str, owner: &str, payload: WireNumber) -> LightLevel {
    LightLevel {
        device_type: String::from("light_level"),
        id: String::from(id),
        id_v1: None,
        owner: service(owner, "device"),
        enabled: true,
        light: LightLevelData {
            light_level: payload,
            light_level_valid: true,
            light_level_report: LightLevelReport {
                changed: String::from("2024-01-01T00:00:00Z"),
                light_level: payload,
            },
        },
    }
}

fn response<T>(data: Vec<T>) -> GenericResponse<T> {
    GenericResponse { errors: Vec::new(), data }
}

#[test]
fn join_pairs_readings_with_owners_in_order() {
    let devices = response(vec![
        device("d1", "Lounge", vec![service("s1", "temperature")]),
        device("d2", "Kitchen", vec![service("s2", "temperature")]),
    ]);
    let readings = response(vec![
        temperature_reading("s1", "d1", WireNumber::Int(21)),
        temperature_reading("s2", "missing", WireNumber::Int(22)),
        temperature_reading("s3", "d2", WireNumber::Int(23)),
    ]);
    let pairs = join(&devices, &readings);
    assert_eq!(pairs.len(), 2);
    assert_eq!(pairs[0].0.id, "s1");
    assert_eq!(pairs[0].1.id, "d1");
    assert_eq!(pairs[1].0.id, "s3");
    assert_eq!(pairs[1].1.id, "d2");
}

#[test]
fn join_drops_reading_whose_owner_is_missing() {
    let devices = response(vec![device("d1", "Lounge", vec![])]);
    let readings = response(vec![temperature_reading("s9", "ghost", WireNumber::Int(1))]);
    let pairs = join(&devices, &readings);
    assert!(pairs.is_empty());
}

#[test]
fn join_on_empty_collections() {
    let no_devices: GenericResponse<Device> = response(vec![]);
    let no_readings: GenericResponse<Temperature> = response(vec![]);
    assert!(join(&no_devices, &no_readings).is_empty());
    let readings = response(vec![temperature_reading("s1", "d1", WireNumber::Int(5))]);
    assert!(join(&no_devices, &readings).is_empty());
}

#[test]
fn get_by_id_returns_first_match() {
    let devices = response(vec![
        device("dup", "First", vec![]),
        device("dup", "Second", vec![]),
        device("other", "Third", vec![]),
    ]);
    let found = devices.get_by_id(&String::from("dup")).expect("device expected");
    assert_eq!(found.metadata.name, "First");
    assert!(devices.get_by_id(&String::from("absent")).is_none());
}

#[test]
fn convert_temperature_keeps_numeric_payload() {
    let reading = temperature_reading("s1", "d1", WireNumber::FloatBits(21.5f64.to_bits()));
    let owner = device("d1", "Lounge", vec![]);
    let metric = convert_temperature(&reading, &owner).expect("conversion expected");
    assert_eq!(
        metric,
        TemperatureMetric {
            temperature: WireNumber::FloatBits(21.5f64.to_bits()),
            device: String::from("Lounge"),
            device_id: String::from("d1"),
        }
    );
    assert_eq!(f64::from_bits(match metric.temperature {
        WireNumber::FloatBits(bits) => bits,
        _ => panic!("float payload expected"),
    }), 21.5);
}

#[test]
fn convert_temperature_rejects_non_numeric_payload() {
    let reading = temperature_reading("s1", "d1", WireNumber::NonNumeric);
    let owner = device("d1", "Lounge", vec![]);
    assert_eq!(
        convert_temperature(&reading, &owner),
        Err(ConversionError::NotNumeric)
    );
}

#[test]
fn convert_light_level_accepts_integer_payload() {
    let reading = light_level_reading("s2", "d1", WireNumber::Int(12000));
    let owner = device("d1", "Lounge", vec![]);
    let metric = convert_light_level(&reading, &owner).expect("conversion expected");
    assert_eq!(
        metric,
        LightLevelMetric {
            light_level: 12000,
            device: String::from("Lounge"),
            device_id: String::from("d1"),
        }
    );
}

#[test]
fn convert_light_level_rejects_fractional_payload() {
    let reading = light_level_reading("s2", "d1", WireNumber::FloatBits(12000.5f64.to_bits()));
    let owner = device("d1", "Lounge", vec![]);
    assert_eq!(
        convert_light_level(&reading, &owner),
        Err(ConversionError::NotInteger)
    );
}

#[test]
fn convert_light_level_rejects_non_numeric_payload() {
    let reading = light_level_reading("s2", "d1", WireNumber::NonNumeric);
    let owner = device("d1", "Lounge", vec![]);
    assert_eq!(
        convert_light_level(&reading, &owner),
        Err(ConversionError::NotNumeric)
    );
}

#[test]
fn convert_light_level_rejects_oversized_integer() {
    let reading = light_level_reading("s2", "d1", WireNumber::Uint(u64::MAX));
    let owner = device("d1", "Lounge", vec![]);
    assert_eq!(
        convert_light_level(&reading, &owner),
        Err(ConversionError::NotInteger)
    );
}

#[test]
fn scheduler_fails_fast_on_device_fetch_fault() {
    let mut scheduler = Scheduler::new(5000);
    assert_eq!(scheduler.step(Event::TickStarted), Action::FetchDevices);
    let fault = Fault::Transport(String::from("connection refused"));
    let action = scheduler.step(Event::DevicesFetched(Err(fault)));
    assert_eq!(
        action,
        Action::Terminate(Fault::Transport(String::from("connection refused")))
    );
    assert!(matches!(scheduler.state, CycleState::Failed { .. }));
    // Terminal: nothing further is accepted, so no other fetch of the
    // tick can be attempted.
    assert!(!scheduler.can_accept(&Event::TemperaturesFetched(Ok(response(vec![])))));
    assert!(!scheduler.can_accept(&Event::TickStarted));
}

#[test]
fn scheduler_isolates_one_refused_submission() {
    let mut scheduler = Scheduler::new(5000);
    assert_eq!(scheduler.step(Event::TickStarted), Action::FetchDevices);
    let devices = response(vec![device("d1", "Lounge", vec![])]);
    assert_eq!(
        scheduler.step(Event::DevicesFetched(Ok(devices))),
        Action::FetchTemperatures
    );
    let temperatures = response(vec![
        temperature_reading("s1", "d1", WireNumber::Int(20)),
        temperature_reading("s2", "d1", WireNumber::Int(21)),
        temperature_reading("s3", "d1", WireNumber::Int(22)),
        temperature_reading("s4", "d1", WireNumber::Int(23)),
        temperature_reading("s5", "d1", WireNumber::Int(24)),
    ]);
    assert_eq!(
        scheduler.step(Event::TemperaturesFetched(Ok(temperatures))),
        Action::FetchLightLevels
    );
    let first = scheduler.step(Event::LightLevelsFetched(Ok(response(vec![]))));
    // Five joined readings: the first submission is asked for at once.
    let expected = |value: i64| {
        Action::Submit(MetricRecord::Temperature(TemperatureMetric {
            temperature: WireNumber::Int(value),
            device: String::from("Lounge"),
            device_id: String::from("d1"),
        }))
    };
    assert_eq!(first, expected(20));
    // The second submission fails; the remaining records are still
    // submitted, in order, and the cycle completes.
    assert_eq!(scheduler.step(Event::SubmissionFinished(Ok(()))), expected(21));
    let fault = Fault::Transport(String::from("sink unavailable"));
    assert_eq!(
        scheduler.step(Event::SubmissionFinished(Err(fault))),
        expected(22)
    );
    assert_eq!(scheduler.step(Event::SubmissionFinished(Ok(()))), expected(23));
    assert_eq!(scheduler.step(Event::SubmissionFinished(Ok(()))), expected(24));
    assert_eq!(
        scheduler.step(Event::SubmissionFinished(Ok(()))),
        Action::FinishCycle
    );
    match &scheduler.state {
        CycleState::Emitting { pending, next, stats } => {
            assert_eq!(pending.len(), 5);
            assert_eq!(*next, 5);
            assert_eq!(stats.submitted, 4);
            assert_eq!(stats.submission_failures, 1);
            assert_eq!(stats.temperature_misses, 0);
        },
        other => panic!("emitting state expected, found {:?}", other),
    }
    assert_eq!(
        scheduler.step(Event::CycleFinished { elapsed_ms: 1200 }),
        Action::Sleep(3800)
    );
    assert!(matches!(scheduler.state, CycleState::Idle));
}

#[test]
fn scheduler_counts_join_misses_and_conversion_failures() {
    let mut scheduler = Scheduler::new(5000);
    scheduler.step(Event::TickStarted);
    scheduler.step(Event::DevicesFetched(Ok(response(vec![device("d1", "Lounge", vec![])]))));
    let temperatures = response(vec![
        temperature_reading("s1", "d1", WireNumber::Int(20)),
        temperature_reading("s2", "nowhere", WireNumber::Int(21)),
        temperature_reading("s3", "d1", WireNumber::NonNumeric),
    ]);
    scheduler.step(Event::TemperaturesFetched(Ok(temperatures)));
    let light_levels = response(vec![
        light_level_reading("s4", "d1", WireNumber::FloatBits(7.5f64.to_bits())),
    ]);
    scheduler.step(Event::LightLevelsFetched(Ok(light_levels)));
    match &scheduler.state {
        CycleState::Emitting { pending, stats, .. } => {
            assert_eq!(pending.len(), 1);
            assert_eq!(stats.temperature_misses, 1);
            assert_eq!(stats.light_level_misses, 0);
            assert_eq!(stats.temperature_conversion_failures, 1);
            assert_eq!(stats.light_level_conversion_failures, 1);
        },
        other => panic!("emitting state expected, found {:?}", other),
    }
}

#[test]
fn scheduler_interval_discipline() {
    let scheduler = Scheduler::new(5000);
    assert_eq!(scheduler.remaining_sleep(1200), 3800);
    assert_eq!(scheduler.remaining_sleep(0), 5000);
    assert_eq!(scheduler.remaining_sleep(5000), 0);
    assert_eq!(scheduler.remaining_sleep(9000), 0);
    assert_eq!(DEFAULT_INTERVAL_MS, 5000);
}

#[test]
fn scheduler_sleeps_zero_when_cycle_overruns() {
    let mut scheduler = Scheduler::new(100);
    scheduler.step(Event::TickStarted);
    scheduler.step(Event::DevicesFetched(Ok(response(vec![]))));
    scheduler.step(Event::TemperaturesFetched(Ok(response(vec![]))));
    assert_eq!(
        scheduler.step(Event::LightLevelsFetched(Ok(response(vec![])))),
        Action::FinishCycle
    );
    assert_eq!(
        scheduler.step(Event::CycleFinished { elapsed_ms: 250 }),
        Action::Sleep(0)
    );
}

#[test]
fn end_to_end_single_temperature_metric() {
    let mut scheduler = Scheduler::new(5000);
    assert_eq!(scheduler.step(Event::TickStarted), Action::FetchDevices);
    let devices = response(vec![device("d1", "Lounge", vec![service("s1", "temperature")])]);
    assert_eq!(
        scheduler.step(Event::DevicesFetched(Ok(devices))),
        Action::FetchTemperatures
    );
    let temperatures = response(vec![
        temperature_reading("s1", "d1", WireNumber::FloatBits(21.5f64.to_bits())),
    ]);
    assert_eq!(
        scheduler.step(Event::TemperaturesFetched(Ok(temperatures))),
        Action::FetchLightLevels
    );
    let action = scheduler.step(Event::LightLevelsFetched(Ok(response(vec![]))));
    assert_eq!(
        action,
        Action::Submit(MetricRecord::Temperature(TemperatureMetric {
            temperature: WireNumber::FloatBits(21.5f64.to_bits()),
            device: String::from("Lounge"),
            device_id: String::from("d1"),
        }))
    );
    // Exactly one record: after its submission the cycle finishes.
    assert_eq!(
        scheduler.step(Event::SubmissionFinished(Ok(()))),
        Action::FinishCycle
    );
}

#[test]
fn endpoints_match_resource_paths() {
    assert_eq!(DevicesRequest {}.endpoint(), "/clip/v2/resource/device");
    assert_eq!(
        DeviceRequest { id: String::from("d7") }.endpoint(),
        "/clip/v2/resource/device/d7"
    );
    assert_eq!(TemperaturesRequest {}.endpoint(), "/clip/v2/resource/temperature");
    assert_eq!(
        TemperatureRequest { id: String::from("t3") }.endpoint(),
        "/clip/v2/resource/temperature/t3"
    );
    assert_eq!(
        LightLevelRequest { id: None }.endpoint(),
        "/clip/v2/resource/light_level"
    );
    assert_eq!(
        LightLevelRequest { id: Some(String::from("l9")) }.endpoint(),
        "/clip/v2/resource/light_level/l9"
    );
    assert_eq!(LightLevelRequest::default(), LightLevelRequest { id: None });
    assert_eq!(hue_monitor::bridge_config::Config {}.endpoint(), "/api/config");
}

#[test]
fn request_url_trims_endpoint_slashes() {
    assert_eq!(
        request_url("https://192.168.0.1", "/clip/v2/resource/device"),
        "https://192.168.0.1/clip/v2/resource/device"
    );
    assert_eq!(request_url("https://h", "api/config/"), "https://h/api/config");
    assert_eq!(request_url("https://h", "///"), "https://h/");
    assert_eq!(request_url("https://h", ""), "https://h/");
}

#[test]
fn token_indirection() {
    assert_eq!(
        token_env_name("$HUE_TOKEN"),
        Some(String::from("HUE_TOKEN"))
    );
    assert_eq!(token_env_name("hunter2"), None);
    assert_eq!(token_env_name(""), None);
    assert_eq!(
        resolve_token(String::from("$HUE_TOKEN"), Some(String::from("secret"))),
        "secret"
    );
    assert_eq!(
        resolve_token(String::from("$HUE_TOKEN"), None),
        "$HUE_TOKEN"
    );
}

#[test]
fn fault_messages_name_their_kind() {
    assert_eq!(
        Fault::Transport(String::from("timeout")).message(),
        "transport error: timeout"
    );
    assert_eq!(
        Fault::MalformedResponse(String::from("bad json")).message(),
        "malformed response: bad json"
    );
    assert_eq!(
        Fault::Certificate(String::from("bad pem")).message(),
        "certificate error: bad pem"
    );
    assert_eq!(ConversionError::NotNumeric.message(), "payload is not numeric");
    assert_eq!(ConversionError::NotInteger.message(), "payload is not an integer");
}

#[test]
fn wire_number_accessors() {
    assert_eq!(WireNumber::Int(7).as_integer(), Some(7));
    assert_eq!(WireNumber::Uint(9).as_integer(), None);
    assert_eq!(WireNumber::FloatBits(1.0f64.to_bits()).as_integer(), None);
    assert_eq!(WireNumber::NonNumeric.as_integer(), None);
    assert!(WireNumber::Int(7).numeric());
    assert!(!WireNumber::NonNumeric.numeric());
}
