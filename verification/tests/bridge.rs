use remo_influx::context::{make_write_body, poll_outcome, write_outcome, cycle_body, Context};
use remo_influx::errors::{ConfigError, CycleError, DecodeError, UpstreamError};
use remo_influx::json::JsonValue;
use remo_influx::numfmt::{i64_to_dec, u64_to_dec};
use remo_influx::remo::{decode_device, decode_devices, DeviceResponse, EventValue, NewestEvents};
use remo_influx::scheduler::{step, SchedulerAction, SchedulerEvent, SchedulerState};
use remo_influx::timestamp::parse_iso8601;

fn text(v: &str) -> JsonValue {
    JsonValue::Text(v.to_string())
}

fn number(v: &str) -> JsonValue {
    JsonValue::Number(v.to_string())
}

fn field(k: &str, v: JsonValue) -> (String, JsonValue) {
    (k.to_string(), v)
}

fn reading(val: &str, at: &str) -> JsonValue {
    JsonValue::Object(vec![field("created_at", text(at)), field("val", number(val))])
}

fn device_json(name: &str, events: Vec<(String, JsonValue)>) -> JsonValue {
    JsonValue::Object(vec![
        field("name", text(name)),
        field("id", text("dev-1")),
        field("created_at", text("2023-06-01T12:00:00Z")),
        field("updated_at", text("2024-01-01T00:00:00+09:00")),
        field("mac_address", text("aa:bb:cc:dd:ee:ff")),
        field("serial_number", text("SN123")),
        field("firmware_version", text("fw-1.0")),
        field("temperature_offset", number("0")),
        field("humidity_offset", number("0")),
        field("newest_events", JsonValue::Object(events)),
    ])
}

fn snapshot(name: &str, events: NewestEvents) -> DeviceResponse {
    DeviceResponse {
        name: name.to_string(),
        id: "dev-1".to_string(),
        created_at: 0,
        updated_at: 0,
        mac_address: "aa:bb:cc:dd:ee:ff".to_string(),
        bt_mac_address: None,
        serial_number: "SN123".to_string(),
        firmware_version: "fw-1.0".to_string(),
        temperature_offset: "0".to_string(),
        humidity_offset: "0".to_string(),
        newest_events: events,
        online: None,
    }
}

fn no_events() -> NewestEvents {
    NewestEvents { te: None, hu: None, il: None, mo: None }
}

fn ev(val: &str, at: i64) -> EventValue {
    EventValue { created_at: at, val: val.to_string() }
}

#[test]
fn encoder_empty_bundle() {
    let d = snapshot("Kitchen", no_events());
    let lines = d.into_write_query();
    assert_eq!(lines.len(), 0);
}

#[test]
fn encoder_subset_keeps_fixed_order() {
    let mut events = no_events();
    events.hu = Some(ev("45", 100));
    events.mo = Some(ev("1", 100));
    let d = snapshot("Hall", events);
    let lines = d.into_write_query();
    assert_eq!(lines.len(), 2);
    assert_eq!(lines[0], "humidity,name=Hall val=45 100");
    assert_eq!(lines[1], "movement,name=Hall val=1 100");
}

#[test]
fn encoder_all_four_in_order() {
    let events = NewestEvents {
        te: Some(ev("21.5", 10)),
        hu: Some(ev("45", 11)),
        il: Some(ev("100", 12)),
        mo: Some(ev("1", 13)),
    };
    let d = snapshot("Bedroom", events);
    let lines = d.into_write_query();
    assert_eq!(lines.len(), 4);
    assert_eq!(lines[0], "temperature,name=Bedroom val=21.5 10");
    assert_eq!(lines[1], "humidity,name=Bedroom val=45 11");
    assert_eq!(lines[2], "illumination,name=Bedroom val=100 12");
    assert_eq!(lines[3], "movement,name=Bedroom val=1 13");
}

#[test]
fn encoder_is_deterministic() {
    let make = || {
        let mut events = no_events();
        events.te = Some(ev("23.5", 1704034800));
        snapshot("Living", events)
    };
    let first = make().into_write_query();
    let second = make().into_write_query();
    assert_eq!(first, second);
}

#[test]
fn encoder_negative_second() {
    let mut events = no_events();
    events.te = Some(ev("20", -1));
    let d = snapshot("Cellar", events);
    let lines = d.into_write_query();
    assert_eq!(lines[0], "temperature,name=Cellar val=20 -1");
}

#[test]
fn scenario_single_temperature_reading() {
    let doc = JsonValue::Array(vec![device_json(
        "Living",
        vec![field("te", reading("23.5", "2024-01-01T00:00:00+09:00"))],
    )]);
    let devs = decode_devices(&doc).unwrap();
    assert_eq!(devs.len(), 1);
    let body = make_write_body(devs);
    assert_eq!(body, "temperature,name=Living val=23.5 1704034800");
}

#[test]
fn scenario_two_devices_four_lines() {
    let doc = JsonValue::Array(vec![
        device_json("Empty", vec![]),
        device_json(
            "Bedroom",
            vec![
                field("te", reading("21.5", "2024-01-01T00:00:00+09:00")),
                field("hu", reading("45", "2024-01-01T00:00:00+09:00")),
                field("il", reading("100", "2024-01-01T00:00:00+09:00")),
                field("mo", reading("1", "2024-01-01T00:00:00+09:00")),
            ],
        ),
    ]);
    let devs = decode_devices(&doc).unwrap();
    assert_eq!(devs.len(), 2);
    let body = make_write_body(devs);
    let lines: Vec<&str> = body.split('\n').collect();
    assert_eq!(lines.len(), 4);
    assert_eq!(lines[0], "temperature,name=Bedroom val=21.5 1704034800");
    assert_eq!(lines[1], "humidity,name=Bedroom val=45 1704034800");
    assert_eq!(lines[2], "illumination,name=Bedroom val=100 1704034800");
    assert_eq!(lines[3], "movement,name=Bedroom val=1 1704034800");
}

#[test]
fn poll_unauthorized_reports_upstream_error() {
    let r = poll_outcome(Some(401), None);
    assert_eq!(r.unwrap_err(), CycleError::Upstream(UpstreamError::Status(401)));
}

#[test]
fn failed_poll_never_reaches_the_sink() {
    let err = CycleError::Upstream(UpstreamError::Status(401));
    let r = cycle_body(Err(err));
    assert_eq!(r.unwrap_err(), err);
    let (state, action) = step(SchedulerState::Running, SchedulerEvent::CycleFailed);
    assert_eq!(state, SchedulerState::Terminated);
    assert_eq!(action, SchedulerAction::ExitFailure);
}

#[test]
fn poll_transport_failure() {
    let r = poll_outcome(None, None);
    assert_eq!(r.unwrap_err(), CycleError::Upstream(UpstreamError::Transport));
}

#[test]
fn poll_unreadable_body() {
    let r = poll_outcome(Some(200), None);
    assert_eq!(r.unwrap_err(), CycleError::Decode(DecodeError::Syntax));
}

#[test]
fn poll_success_decodes_devices() {
    let doc = JsonValue::Array(vec![device_json("Living", vec![])]);
    let devs = poll_outcome(Some(200), Some(doc)).unwrap();
    assert_eq!(devs.len(), 1);
    assert_eq!(devs[0].name, "Living");
    assert_eq!(devs[0].id, "dev-1");
    assert_eq!(devs[0].created_at, 1685620800);
    assert_eq!(devs[0].updated_at, 1704034800);
    assert!(devs[0].newest_events.te.is_none());
}

#[test]
fn write_outcome_classification() {
    assert!(write_outcome(Some(204)).is_ok());
    assert_eq!(
        write_outcome(Some(500)).unwrap_err(),
        CycleError::Upstream(UpstreamError::Status(500))
    );
    assert_eq!(
        write_outcome(None).unwrap_err(),
        CycleError::Upstream(UpstreamError::Transport)
    );
}

#[test]
fn empty_batch_yields_empty_body() {
    let body = make_write_body(Vec::new());
    assert_eq!(body, "");
}

#[test]
fn config_api_token_scheme() {
    let ctx = Context::new(
        Some("remo-tok".to_string()),
        Some("http://sink.example".to_string()),
        Some("bucket".to_string()),
        Some("org".to_string()),
        Some("abc".to_string()),
        Some("ignored".to_string()),
        None,
    )
    .unwrap();
    assert_eq!(ctx.remo_auth, "Bearer remo-tok");
    assert_eq!(ctx.influx_url, "http://sink.example");
    assert_eq!(ctx.influx_bucket, "bucket");
    assert_eq!(ctx.influx_org, "org");
    assert_eq!(ctx.influx_auth, "Token abc");
}

#[test]
fn config_basic_scheme_encodes_credentials() {
    let ctx = Context::new(
        Some("remo-tok".to_string()),
        Some("http://sink.example".to_string()),
        Some("bucket".to_string()),
        Some("org".to_string()),
        None,
        Some("user".to_string()),
        Some("pass".to_string()),
    )
    .unwrap();
    assert_eq!(ctx.influx_auth, "Basic dXNlcjpwYXNz");
}

#[test]
fn config_username_without_password_fails_fast() {
    let r = Context::new(
        Some("remo-tok".to_string()),
        Some("http://sink.example".to_string()),
        Some("bucket".to_string()),
        Some("org".to_string()),
        None,
        Some("user".to_string()),
        None,
    );
    assert_eq!(r.unwrap_err(), ConfigError::MissingCredentials);
    assert_eq!(
        ConfigError::MissingCredentials.message(),
        "either `INFLUX_API_TOKEN` or `INFLUX_USERNAME` and `INFLUX_PASSWORD` must be defined"
    );
}

#[test]
fn config_missing_required_values() {
    let some = |v: &str| Some(v.to_string());
    assert_eq!(
        Context::new(None, some("u"), some("b"), some("o"), some("t"), None, None).unwrap_err(),
        ConfigError::MissingRemoToken
    );
    assert_eq!(
        Context::new(some("r"), None, some("b"), some("o"), some("t"), None, None).unwrap_err(),
        ConfigError::MissingInfluxUrl
    );
    assert_eq!(
        Context::new(some("r"), some("u"), None, some("o"), some("t"), None, None).unwrap_err(),
        ConfigError::MissingInfluxBucket
    );
    assert_eq!(
        Context::new(some("r"), some("u"), some("b"), None, some("t"), None, None).unwrap_err(),
        ConfigError::MissingInfluxOrg
    );
}

#[test]
fn timestamp_utc_and_offset() {
    assert_eq!(parse_iso8601("1970-01-01T00:00:00Z"), Some(0));
    assert_eq!(parse_iso8601("2024-01-01T00:00:00Z"), Some(1704067200));
    assert_eq!(parse_iso8601("2024-01-01T00:00:00+09:00"), Some(1704034800));
    assert_eq!(parse_iso8601("2024-01-01T00:00:00-05:00"), Some(1704085200));
    assert_eq!(parse_iso8601("2024-01-01T00:00:00+09"), Some(1704034800));
    assert_eq!(parse_iso8601("1969-12-31T23:59:59Z"), Some(-1));
}

#[test]
fn timestamp_subsecond_truncates() {
    assert_eq!(parse_iso8601("2024-01-01T00:00:00.999Z"), Some(1704067200));
    assert_eq!(
        parse_iso8601("2024-01-01T00:00:00.999999+09:00"),
        parse_iso8601("2024-01-01T00:00:00+09:00")
    );
}

#[test]
fn timestamp_rejects_malformed_text() {
    assert_eq!(parse_iso8601(""), None);
    assert_eq!(parse_iso8601("2024-01-01"), None);
    assert_eq!(parse_iso8601("2024-01-01T00:00:00"), None);
    assert_eq!(parse_iso8601("2024-13-01T00:00:00Z"), None);
    assert_eq!(parse_iso8601("2024-00-01T00:00:00Z"), None);
    assert_eq!(parse_iso8601("2024-02-30T00:00:00Z"), None);
    assert_eq!(parse_iso8601("2023-02-29T00:00:00Z"), None);
    assert_eq!(parse_iso8601("2024-01-01T24:00:00Z"), None);
    assert_eq!(parse_iso8601("2024-01-01T00:00:60Z"), None);
    assert_eq!(parse_iso8601("2024-01-01T00:00:00.Z"), None);
    assert_eq!(parse_iso8601("2024-01-01T00:00:00+9:00"), None);
    assert_eq!(parse_iso8601("2024-01-01T00:00:00+25:00"), None);
    assert_eq!(parse_iso8601("2024-01-01 00:00:00Z"), None);
    assert_eq!(parse_iso8601("2024-01-01T00:00:00Zx"), None);
}

#[test]
fn timestamp_leap_day() {
    assert_eq!(parse_iso8601("2024-02-29T00:00:00Z"), Some(1709164800));
    assert_eq!(parse_iso8601("2000-02-29T00:00:00Z"), Some(951782400));
    assert_eq!(parse_iso8601("1900-02-29T00:00:00Z"), None);
}

#[test]
fn decode_missing_required_field() {
    let j = JsonValue::Object(vec![field("name", text("Living"))]);
    assert_eq!(decode_device(&j).unwrap_err(), DecodeError::MissingField);
}

#[test]
fn decode_wrong_type() {
    let mut fields = match device_json("Living", vec![]) {
        JsonValue::Object(fs) => fs,
        _ => unreachable!(),
    };
    fields[0] = field("name", number("5"));
    let j = JsonValue::Object(fields);
    assert_eq!(decode_device(&j).unwrap_err(), DecodeError::WrongType);
}

#[test]
fn decode_bad_timestamp() {
    let doc = device_json(
        "Living",
        vec![field("te", reading("23.5", "yesterday"))],
    );
    assert_eq!(decode_device(&doc).unwrap_err(), DecodeError::BadTimestamp);
}

#[test]
fn decode_not_an_array() {
    let doc = device_json("Living", vec![]);
    assert_eq!(decode_devices(&doc).unwrap_err(), DecodeError::NotAnArray);
}

#[test]
fn decode_not_an_object() {
    let doc = JsonValue::Array(vec![text("oops")]);
    assert_eq!(decode_devices(&doc).unwrap_err(), DecodeError::NotAnObject);
}

#[test]
fn decode_optional_fields() {
    let mut fields = match device_json("Living", vec![]) {
        JsonValue::Object(fs) => fs,
        _ => unreachable!(),
    };
    fields.push(field("bt_mac_address", text("11:22:33:44:55:66")));
    fields.push(field("online", JsonValue::Bool(true)));
    let d = decode_device(&JsonValue::Object(fields)).unwrap();
    assert_eq!(d.bt_mac_address.as_deref(), Some("11:22:33:44:55:66"));
    assert_eq!(d.online, Some(true));

    let d2 = decode_device(&device_json("Living", vec![])).unwrap();
    assert!(d2.bt_mac_address.is_none());
    assert!(d2.online.is_none());
}

#[test]
fn decode_null_sensor_counts_as_absent() {
    let doc = device_json("Living", vec![field("te", JsonValue::Null)]);
    let d = decode_device(&doc).unwrap();
    assert!(d.newest_events.te.is_none());
}

#[test]
fn decode_first_failing_device_wins() {
    let doc = JsonValue::Array(vec![device_json("Living", vec![]), text("oops")]);
    assert_eq!(decode_devices(&doc).unwrap_err(), DecodeError::NotAnObject);
}

#[test]
fn scheduler_transitions() {
    assert_eq!(
        step(SchedulerState::Idle, SchedulerEvent::Tick),
        (SchedulerState::Running, SchedulerAction::StartCycle)
    );
    assert_eq!(
        step(SchedulerState::Running, SchedulerEvent::CycleSucceeded),
        (SchedulerState::Idle, SchedulerAction::Wait)
    );
    assert_eq!(
        step(SchedulerState::Running, SchedulerEvent::CycleFailed),
        (SchedulerState::Terminated, SchedulerAction::ExitFailure)
    );
    assert_eq!(
        step(SchedulerState::Idle, SchedulerEvent::ShutdownSignal),
        (SchedulerState::Terminated, SchedulerAction::ExitSuccess)
    );
    assert_eq!(
        step(SchedulerState::Running, SchedulerEvent::ShutdownSignal),
        (SchedulerState::Terminated, SchedulerAction::ExitSuccess)
    );
    assert_eq!(
        step(SchedulerState::Terminated, SchedulerEvent::Tick),
        (SchedulerState::Terminated, SchedulerAction::Wait)
    );
}

#[test]
fn decimal_formatting() {
    assert_eq!(u64_to_dec(0), "0");
    assert_eq!(u64_to_dec(1704034800), "1704034800");
    assert_eq!(i64_to_dec(-62167219200), "-62167219200");
    assert_eq!(i64_to_dec(i64::MIN), "-9223372036854775808");
    assert_eq!(i64_to_dec(i64::MAX), "9223372036854775807");
}
