//! The device snapshot model and the line-protocol point encoder.
//!
//! A polled device document decodes into a [`DeviceResponse`]; decoding
//! validates the document shape and fails on a missing or mistyped
//! required field, while each sensor reading and the marked optional
//! fields may be absent. One snapshot then encodes into zero to four
//! line-protocol records, one per present reading, in the fixed order
//! temperature, humidity, illumination, movement.

use vstd::prelude::*;
use crate::errors::DecodeError;
use crate::json::{JsonValue, spec_lookup, lookup};
use crate::numfmt::{dec_int, i64_to_dec};
use crate::timestamp::{spec_parse_iso8601, parse_iso8601};

verus! {

/// One sensor reading: the measured value as its decimal text, and the
/// moment it was observed, in whole Unix seconds.
#[derive(Debug)]
pub struct EventValue {
    /// When the reading was taken, truncated to whole seconds.
    pub created_at: i64,
    /// The measured value, as the decimal text the registry reported.
    pub val: String,
}

/// The sensor bundle: up to four independent optional readings.
#[derive(Debug)]
pub struct NewestEvents {
    pub te: Option<EventValue>,
    pub hu: Option<EventValue>,
    pub il: Option<EventValue>,
    pub mo: Option<EventValue>,
}

/// One device's decoded snapshot.
#[derive(Debug)]
pub struct DeviceResponse {
    pub name: String,
    pub id: String,
    pub created_at: i64,
    pub updated_at: i64,
    pub mac_address: String,
    pub bt_mac_address: Option<String>,
    pub serial_number: String,
    pub firmware_version: String,
    /// Carried but not emitted; kept as the reported decimal text.
    pub temperature_offset: String,
    /// Carried but not emitted; kept as the reported decimal text.
    pub humidity_offset: String,
    pub newest_events: NewestEvents,
    pub online: Option<bool>,
}

/// A required field that must hold text.
pub open spec fn req_text(fs: Seq<(String, JsonValue)>, key: Seq<char>) -> Result<
    String,
    DecodeError,
> {
    match spec_lookup(fs, key) {
        None => Err(DecodeError::MissingField),
        Some(JsonValue::Text(s)) => Ok(s),
        Some(_) => Err(DecodeError::WrongType),
    }
}

/// A required field that must hold a number, kept as its decimal text.
pub open spec fn req_number(fs: Seq<(String, JsonValue)>, key: Seq<char>) -> Result<
    String,
    DecodeError,
> {
    match spec_lookup(fs, key) {
        None => Err(DecodeError::MissingField),
        Some(JsonValue::Number(s)) => Ok(s),
        Some(_) => Err(DecodeError::WrongType),
    }
}

/// A required field that must hold a well-formed timestamp.
pub open spec fn req_timestamp(fs: Seq<(String, JsonValue)>, key: Seq<char>) -> Result<
    i64,
    DecodeError,
> {
    match spec_lookup(fs, key) {
        None => Err(DecodeError::MissingField),
        Some(JsonValue::Text(s)) => match spec_parse_iso8601(s@) {
            Some(v) => Ok(v),
            None => Err(DecodeError::BadTimestamp),
        },
        Some(_) => Err(DecodeError::WrongType),
    }
}

/// An optional text field; absent or null counts as absent.
pub open spec fn opt_text(fs: Seq<(String, JsonValue)>, key: Seq<char>) -> Result<
    Option<String>,
    DecodeError,
> {
    match spec_lookup(fs, key) {
        None => Ok(None),
        Some(JsonValue::Null) => Ok(None),
        Some(JsonValue::Text(s)) => Ok(Some(s)),
        Some(_) => Err(DecodeError::WrongType),
    }
}

/// An optional boolean field; absent or null counts as absent.
pub open spec fn opt_bool(fs: Seq<(String, JsonValue)>, key: Seq<char>) -> Result<
    Option<bool>,
    DecodeError,
> {
    match spec_lookup(fs, key) {
        None => Ok(None),
        Some(JsonValue::Null) => Ok(None),
        Some(JsonValue::Bool(b)) => Ok(Some(b)),
        Some(_) => Err(DecodeError::WrongType),
    }
}

/// One optional sensor slot: absent or null is a valid absent reading;
/// a present reading needs a timestamp and a numeric value.
pub open spec fn spec_sensor(es: Seq<(String, JsonValue)>, key: Seq<char>) -> Result<
    Option<EventValue>,
    DecodeError,
> {
    match spec_lookup(es, key) {
        None => Ok(None),
        Some(JsonValue::Null) => Ok(None),
        Some(JsonValue::Object(ev)) => match req_timestamp(ev@, "created_at"@) {
            Err(e) => Err(e),
            Ok(secs) => match req_number(ev@, "val"@) {
                Err(e) => Err(e),
                Ok(v) => Ok(Some(EventValue { created_at: secs, val: v })),
            },
        },
        Some(_) => Err(DecodeError::WrongType),
    }
}

/// The required sensor bundle, with its four optional slots.
pub open spec fn spec_events(fs: Seq<(String, JsonValue)>) -> Result<NewestEvents, DecodeError> {
    match spec_lookup(fs, "newest_events"@) {
        None => Err(DecodeError::MissingField),
        Some(JsonValue::Object(es)) => {
            if spec_sensor(es@, "te"@) is Err {
                Err(spec_sensor(es@, "te"@)->Err_0)
            } else if spec_sensor(es@, "hu"@) is Err {
                Err(spec_sensor(es@, "hu"@)->Err_0)
            } else if spec_sensor(es@, "il"@) is Err {
                Err(spec_sensor(es@, "il"@)->Err_0)
            } else if spec_sensor(es@, "mo"@) is Err {
                Err(spec_sensor(es@, "mo"@)->Err_0)
            } else {
                Ok(NewestEvents {
                    te: spec_sensor(es@, "te"@)->Ok_0,
                    hu: spec_sensor(es@, "hu"@)->Ok_0,
                    il: spec_sensor(es@, "il"@)->Ok_0,
                    mo: spec_sensor(es@, "mo"@)->Ok_0,
                })
            }
        },
        Some(_) => Err(DecodeError::WrongType),
    }
}

/// What decoding one device document returns, field by field in the
/// declared order, first failure wins.
#[verifier::opaque]
pub open spec fn spec_decode_device(j: JsonValue) -> Result<DeviceResponse, DecodeError> {
    if !(j is Object) {
        Err(DecodeError::NotAnObject)
    } else {
        let fs = j->Object_0@;
        if req_text(fs, "name"@) is Err {
            Err(req_text(fs, "name"@)->Err_0)
        } else if req_text(fs, "id"@) is Err {
            Err(req_text(fs, "id"@)->Err_0)
        } else if req_timestamp(fs, "created_at"@) is Err {
            Err(req_timestamp(fs, "created_at"@)->Err_0)
        } else if req_timestamp(fs, "updated_at"@) is Err {
            Err(req_timestamp(fs, "updated_at"@)->Err_0)
        } else if req_text(fs, "mac_address"@) is Err {
            Err(req_text(fs, "mac_address"@)->Err_0)
        } else if opt_text(fs, "bt_mac_address"@) is Err {
            Err(opt_text(fs, "bt_mac_address"@)->Err_0)
        } else if req_text(fs, "serial_number"@) is Err {
            Err(req_text(fs, "serial_number"@)->Err_0)
        } else if req_text(fs, "firmware_version"@) is Err {
            Err(req_text(fs, "firmware_version"@)->Err_0)
        } else if req_number(fs, "temperature_offset"@) is Err {
            Err(req_number(fs, "temperature_offset"@)->Err_0)
        } else if req_number(fs, "humidity_offset"@) is Err {
            Err(req_number(fs, "humidity_offset"@)->Err_0)
        } else if spec_events(fs) is Err {
            Err(spec_events(fs)->Err_0)
        } else if opt_bool(fs, "online"@) is Err {
            Err(opt_bool(fs, "online"@)->Err_0)
        } else {
            Ok(DeviceResponse {
                name: req_text(fs, "name"@)->Ok_0,
                id: req_text(fs, "id"@)->Ok_0,
                created_at: req_timestamp(fs, "created_at"@)->Ok_0,
                updated_at: req_timestamp(fs, "updated_at"@)->Ok_0,
                mac_address: req_text(fs, "mac_address"@)->Ok_0,
                bt_mac_address: opt_text(fs, "bt_mac_address"@)->Ok_0,
                serial_number: req_text(fs, "serial_number"@)->Ok_0,
                firmware_version: req_text(fs, "firmware_version"@)->Ok_0,
                temperature_offset: req_number(fs, "temperature_offset"@)->Ok_0,
                humidity_offset: req_number(fs, "humidity_offset"@)->Ok_0,
                newest_events: spec_events(fs)->Ok_0,
                online: opt_bool(fs, "online"@)->Ok_0,
            })
        }
    }
}

/// What decoding the polled top-level document returns: every device in
/// order, or the first failure.
pub open spec fn spec_decode_list(items: Seq<JsonValue>) -> Result<Seq<DeviceResponse>, DecodeError>
    decreases items.len(),
{
    if items.len() == 0 {
        Ok(Seq::empty())
    } else {
        match spec_decode_device(items[0]) {
            Err(e) => Err(e),
            Ok(d) => match spec_decode_list(items.drop_first()) {
                Err(e) => Err(e),
                Ok(rest) => Ok(seq![d] + rest),
            },
        }
    }
}

/// The whole response must be an array of device documents.
pub open spec fn spec_decode_devices(j: JsonValue) -> Result<Seq<DeviceResponse>, DecodeError> {
    if !(j is Array) {
        Err(DecodeError::NotAnArray)
    } else {
        spec_decode_list(j->Array_0@)
    }
}

fn get_req_text(fields: &Vec<(String, JsonValue)>, key: &str) -> (r: Result<String, DecodeError>)
    ensures
        r == req_text(fields@, key@),
{
    match lookup(fields, key) {
        None => Err(DecodeError::MissingField),
        Some(JsonValue::Text(s)) => Ok(s.clone()),
        Some(_) => Err(DecodeError::WrongType),
    }
}

fn get_req_number(fields: &Vec<(String, JsonValue)>, key: &str) -> (r: Result<String, DecodeError>)
    ensures
        r == req_number(fields@, key@),
{
    match lookup(fields, key) {
        None => Err(DecodeError::MissingField),
        Some(JsonValue::Number(s)) => Ok(s.clone()),
        Some(_) => Err(DecodeError::WrongType),
    }
}

fn get_req_timestamp(fields: &Vec<(String, JsonValue)>, key: &str) -> (r: Result<i64, DecodeError>)
    ensures
        r == req_timestamp(fields@, key@),
{
    match lookup(fields, key) {
        None => Err(DecodeError::MissingField),
        Some(JsonValue::Text(s)) => match parse_iso8601(s.as_str()) {
            Some(v) => Ok(v),
            None => Err(DecodeError::BadTimestamp),
        },
        Some(_) => Err(DecodeError::WrongType),
    }
}

fn get_opt_text(fields: &Vec<(String, JsonValue)>, key: &str) -> (r: Result<
    Option<String>,
    DecodeError,
>)
    ensures
        r == opt_text(fields@, key@),
{
    match lookup(fields, key) {
        None => Ok(None),
        Some(JsonValue::Null) => Ok(None),
        Some(JsonValue::Text(s)) => Ok(Some(s.clone())),
        Some(_) => Err(DecodeError::WrongType),
    }
}

fn get_opt_bool(fields: &Vec<(String, JsonValue)>, key: &str) -> (r: Result<
    Option<bool>,
    DecodeError,
>)
    ensures
        r == opt_bool(fields@, key@),
{
    match lookup(fields, key) {
        None => Ok(None),
        Some(JsonValue::Null) => Ok(None),
        Some(JsonValue::Bool(b)) => Ok(Some(*b)),
        Some(_) => Err(DecodeError::WrongType),
    }
}

fn get_sensor(events: &Vec<(String, JsonValue)>, key: &str) -> (r: Result<
    Option<EventValue>,
    DecodeError,
>)
    ensures
        r == spec_sensor(events@, key@),
{
    match lookup(events, key) {
        None => Ok(None),
        Some(JsonValue::Null) => Ok(None),
        Some(JsonValue::Object(ev)) => {
            let secs = match get_req_timestamp(ev, "created_at") {
                Ok(v) => v,
                Err(e) => {
                    return Err(e);
                },
            };
            let v = match get_req_number(ev, "val") {
                Ok(v) => v,
                Err(e) => {
                    return Err(e);
                },
            };
            Ok(Some(EventValue { created_at: secs, val: v }))
        },
        Some(_) => Err(DecodeError::WrongType),
    }
}

fn get_events(fields: &Vec<(String, JsonValue)>) -> (r: Result<NewestEvents, DecodeError>)
    ensures
        r == spec_events(fields@),
{
    match lookup(fields, "newest_events") {
        None => Err(DecodeError::MissingField),
        Some(JsonValue::Object(es)) => {
            let te = match get_sensor(es, "te") {
                Ok(v) => v,
                Err(e) => {
                    return Err(e);
                },
            };
            let hu = match get_sensor(es, "hu") {
                Ok(v) => v,
                Err(e) => {
                    return Err(e);
                },
            };
            let il = match get_sensor(es, "il") {
                Ok(v) => v,
                Err(e) => {
                    return Err(e);
                },
            };
            let mo = match get_sensor(es, "mo") {
                Ok(v) => v,
                Err(e) => {
                    return Err(e);
                },
            };
            Ok(NewestEvents { te, hu, il, mo })
        },
        Some(_) => Err(DecodeError::WrongType),
    }
}

/// Decodes one device document.
pub fn decode_device(j: &JsonValue) -> (r: Result<DeviceResponse, DecodeError>)
    ensures
        r == spec_decode_device(*j),
{
    proof {
        reveal(spec_decode_device);
    }
    let fields = match j {
        JsonValue::Object(fs) => fs,
        _ => {
            return Err(DecodeError::NotAnObject);
        },
    };
    let name = match get_req_text(fields, "name") {
        Ok(v) => v,
        Err(e) => {
            return Err(e);
        },
    };
    let id = match get_req_text(fields, "id") {
        Ok(v) => v,
        Err(e) => {
            return Err(e);
        },
    };
    let created_at = match get_req_timestamp(fields, "created_at") {
        Ok(v) => v,
        Err(e) => {
            return Err(e);
        },
    };
    let updated_at = match get_req_timestamp(fields, "updated_at") {
        Ok(v) => v,
        Err(e) => {
            return Err(e);
        },
    };
    let mac_address = match get_req_text(fields, "mac_address") {
        Ok(v) => v,
        Err(e) => {
            return Err(e);
        },
    };
    let bt_mac_address = match get_opt_text(fields, "bt_mac_address") {
        Ok(v) => v,
        Err(e) => {
            return Err(e);
        },
    };
    let serial_number = match get_req_text(fields, "serial_number") {
        Ok(v) => v,
        Err(e) => {
            return Err(e);
        },
    };
    let firmware_version = match get_req_text(fields, "firmware_version") {
        Ok(v) => v,
        Err(e) => {
            return Err(e);
        },
    };
    let temperature_offset = match get_req_number(fields, "temperature_offset") {
        Ok(v) => v,
        Err(e) => {
            return Err(e);
        },
    };
    let humidity_offset = match get_req_number(fields, "humidity_offset") {
        Ok(v) => v,
        Err(e) => {
            return Err(e);
        },
    };
    let newest_events = match get_events(fields) {
        Ok(v) => v,
        Err(e) => {
            return Err(e);
        },
    };
    let online = match get_opt_bool(fields, "online") {
        Ok(v) => v,
        Err(e) => {
            return Err(e);
        },
    };
    Ok(DeviceResponse {
        name,
        id,
        created_at,
        updated_at,
        mac_address,
        bt_mac_address,
        serial_number,
        firmware_version,
        temperature_offset,
        humidity_offset,
        newest_events,
        online,
    })
}

/// Decodes the polled top-level document: all devices, or the first failure.
#[verifier::rlimit(60)]
pub fn decode_devices(j: &JsonValue) -> (r: Result<Vec<DeviceResponse>, DecodeError>)
    ensures
        match r {
            Ok(devs) => spec_decode_devices(*j) == Ok::<Seq<DeviceResponse>, DecodeError>(devs@),
            Err(e) => spec_decode_devices(*j) == Err::<Seq<DeviceResponse>, DecodeError>(e),
        },
{
    let items = match j {
        JsonValue::Array(items) => items,
        _ => {
            return Err(DecodeError::NotAnArray);
        },
    };
    let ghost full = items@;
    proof {
        assert(j->Array_0 == *items);
        assert(spec_decode_devices(*j) == spec_decode_list(full));
    }
    let mut out: Vec<DeviceResponse> = Vec::new();
    let mut i: usize = 0;
    proof {
        assert(full.skip(0) =~= full);
    }
    while i < items.len()
        invariant
            i <= items@.len(),
            items@ == full,
            spec_decode_devices(*j) == spec_decode_list(full),
            spec_decode_list(full) == match spec_decode_list(full.skip(i as int)) {
                Ok(rest) => Ok::<Seq<DeviceResponse>, DecodeError>(out@ + rest),
                Err(e) => Err::<Seq<DeviceResponse>, DecodeError>(e),
            },
        decreases items@.len() - i,
    {
        proof {
            assert(full.skip(i as int)[0] == full[i as int]);
            assert(full.skip(i as int).drop_first() =~= full.skip(i as int + 1));
        }
        match decode_device(&items[i]) {
            Ok(d) => {
                let ghost prev = out@;
                let ghost dd = d;
                out.push(d);
                proof {
                    assert(spec_decode_list(full.skip(i as int)) == match spec_decode_list(
                        full.skip(i as int + 1),
                    ) {
                        Ok(rest) => Ok::<Seq<DeviceResponse>, DecodeError>(seq![dd] + rest),
                        Err(e2) => Err::<Seq<DeviceResponse>, DecodeError>(e2),
                    });
                    if spec_decode_list(full.skip(i as int + 1)) is Ok {
                        let rest = spec_decode_list(full.skip(i as int + 1))->Ok_0;
                        assert(prev.push(dd) + rest =~= prev + (seq![dd] + rest));
                    }
                }
            },
            Err(e) => {
                proof {
                    assert(spec_decode_list(full.skip(i as int)) == Err::<
                        Seq<DeviceResponse>,
                        DecodeError,
                    >(e));
                    assert(spec_decode_list(full) == Err::<Seq<DeviceResponse>, DecodeError>(e));
                    assert(spec_decode_devices(*j) == Err::<Seq<DeviceResponse>, DecodeError>(e));
                }
                return Err(e);
            },
        }
        i = i + 1;
    }
    proof {
        assert(full.skip(i as int).len() == 0);
        assert(out@ + Seq::<DeviceResponse>::empty() =~= out@);
    }
    Ok(out)
}

/// One line-protocol record: `<measurement>,name=<name> val=<value> <seconds>`.
/// The name is embedded verbatim; characters significant to the line
/// protocol are not escaped.
pub open spec fn line_of(measurement: Seq<char>, name: Seq<char>, val: Seq<char>, ts: int) -> Seq<
    char,
> {
    measurement + ",name="@ + name + " val="@ + val + " "@ + dec_int(ts)
}

/// The record a present reading yields, or nothing.
pub open spec fn slot_lines(measurement: Seq<char>, name: Seq<char>, slot: Option<EventValue>)
    -> Seq<Seq<char>> {
    match slot {
        Some(ev) => seq![line_of(measurement, name, ev.val@, ev.created_at as int)],
        None => Seq::empty(),
    }
}

/// All records of one snapshot, in the fixed measurement order
/// temperature, humidity, illumination, movement.
pub open spec fn query_of(d: DeviceResponse) -> Seq<Seq<char>> {
    slot_lines("temperature"@, d.name@, d.newest_events.te) + slot_lines(
        "humidity"@,
        d.name@,
        d.newest_events.hu,
    ) + slot_lines("illumination"@, d.name@, d.newest_events.il) + slot_lines(
        "movement"@,
        d.name@,
        d.newest_events.mo,
    )
}

/// How many of the four readings are present.
pub open spec fn count_present(e: NewestEvents) -> int {
    (if e.te is Some {
        1int
    } else {
        0int
    }) + (if e.hu is Some {
        1int
    } else {
        0int
    }) + (if e.il is Some {
        1int
    } else {
        0int
    }) + (if e.mo is Some {
        1int
    } else {
        0int
    })
}

/// Builds one record line.
fn record_line(measurement: &str, name: &str, val: &str, ts: i64) -> (r: String)
    ensures
        r@ == line_of(measurement@, name@, val@, ts as int),
{
    let mut out = measurement.to_owned();
    out.append(",name=");
    out.append(name);
    out.append(" val=");
    out.append(val);
    out.append(" ");
    let ts_text = i64_to_dec(ts);
    out.append(ts_text.as_str());
    out
}

impl DeviceResponse {
    /// Encodes this snapshot into its line-protocol records, one per
    /// present reading, in the fixed order temperature, humidity,
    /// illumination, movement.
    pub fn into_write_query(self) -> (r: Vec<String>)
        ensures
            r@.map_values(|s: String| s@) == query_of(self),
    {
        let mut v: Vec<String> = Vec::new();
        if let Some(ev) = &self.newest_events.te {
            v.push(record_line("temperature", self.name.as_str(), ev.val.as_str(), ev.created_at));
        }
        if let Some(ev) = &self.newest_events.hu {
            v.push(record_line("humidity", self.name.as_str(), ev.val.as_str(), ev.created_at));
        }
        if let Some(ev) = &self.newest_events.il {
            v.push(
                record_line("illumination", self.name.as_str(), ev.val.as_str(), ev.created_at),
            );
        }
        if let Some(ev) = &self.newest_events.mo {
            v.push(record_line("movement", self.name.as_str(), ev.val.as_str(), ev.created_at));
        }
        proof {
            assert(v@.map_values(|s: String| s@) =~= query_of(self));
        }
        v
    }
}

/// With all four readings absent, encoding yields the empty sequence.
pub proof fn lemma_no_readings_no_records(d: DeviceResponse)
    requires
        d.newest_events.te is None,
        d.newest_events.hu is None,
        d.newest_events.il is None,
        d.newest_events.mo is None,
    ensures
        query_of(d) == Seq::<Seq<char>>::empty(),
{
    assert(query_of(d) =~= Seq::<Seq<char>>::empty());
}

/// With exactly k of the four readings present, encoding yields exactly
/// k records, and each present reading's record stands at the position
/// given by the fixed order temperature, humidity, illumination,
/// movement, whatever the subset.
pub proof fn lemma_record_count_and_order(d: DeviceResponse)
    ensures
        query_of(d).len() == count_present(d.newest_events),
        d.newest_events.te is Some ==> query_of(d)[0] == line_of(
            "temperature"@,
            d.name@,
            d.newest_events.te->Some_0.val@,
            d.newest_events.te->Some_0.created_at as int,
        ),
        d.newest_events.hu is Some ==> query_of(d)[if d.newest_events.te is Some {
            1int
        } else {
            0int
        }] == line_of(
            "humidity"@,
            d.name@,
            d.newest_events.hu->Some_0.val@,
            d.newest_events.hu->Some_0.created_at as int,
        ),
        d.newest_events.il is Some ==> query_of(d)[(if d.newest_events.te is Some {
            1int
        } else {
            0int
        }) + (if d.newest_events.hu is Some {
            1int
        } else {
            0int
        })] == line_of(
            "illumination"@,
            d.name@,
            d.newest_events.il->Some_0.val@,
            d.newest_events.il->Some_0.created_at as int,
        ),
        d.newest_events.mo is Some ==> query_of(d)[count_present(d.newest_events) - 1] == line_of(
            "movement"@,
            d.name@,
            d.newest_events.mo->Some_0.val@,
            d.newest_events.mo->Some_0.created_at as int,
        ),
{
}

/// Encoding is a pure function of the snapshot: equal snapshots always
/// yield the same record sequence.
pub proof fn lemma_encode_deterministic(a: DeviceResponse, b: DeviceResponse)
    requires
        a == b,
    ensures
        query_of(a) == query_of(b),
{
}

/// Round trip: the records derived from a decoded device carry, for each
/// present reading, the source document's own name text, the reading's
/// `val` number text, and the whole-second truncation of its
/// `created_at` timestamp.
pub proof fn lemma_round_trip(j: JsonValue, d: DeviceResponse)
    requires
        spec_decode_device(j) == Ok::<DeviceResponse, DecodeError>(d),
    ensures
        ({
            let fs = j->Object_0@;
            let es = spec_lookup(fs, "newest_events"@)->Some_0->Object_0@;
            &&& j is Object
            &&& d.name == req_text(fs, "name"@)->Ok_0
            &&& d.newest_events.te == spec_sensor(es, "te"@)->Ok_0
            &&& d.newest_events.hu == spec_sensor(es, "hu"@)->Ok_0
            &&& d.newest_events.il == spec_sensor(es, "il"@)->Ok_0
            &&& d.newest_events.mo == spec_sensor(es, "mo"@)->Ok_0
            &&& (d.newest_events.te is Some ==> query_of(d)[0] == line_of(
                "temperature"@,
                req_text(fs, "name"@)->Ok_0@,
                req_number(spec_lookup(es, "te"@)->Some_0->Object_0@, "val"@)->Ok_0@,
                spec_parse_iso8601(
                    req_text(spec_lookup(es, "te"@)->Some_0->Object_0@, "created_at"@)->Ok_0@,
                )->Some_0 as int,
            ))
        }),
        forall|es: Seq<(String, JsonValue)>, key: Seq<char>|
            (#[trigger] spec_sensor(es, key)) matches Ok(Some(ev)) ==> ev.val == req_number(
                spec_lookup(es, key)->Some_0->Object_0@,
                "val"@,
            )->Ok_0 && ev.created_at == spec_parse_iso8601(
                req_text(spec_lookup(es, key)->Some_0->Object_0@, "created_at"@)->Ok_0@,
            )->Some_0,
{
    reveal(spec_decode_device);
    lemma_record_count_and_order(d);
    assert forall|es: Seq<(String, JsonValue)>, key: Seq<char>|
        (#[trigger] spec_sensor(es, key)) matches Ok(Some(ev)) ==> ev.val == req_number(
            spec_lookup(es, key)->Some_0->Object_0@,
            "val"@,
        )->Ok_0 && ev.created_at == spec_parse_iso8601(
            req_text(spec_lookup(es, key)->Some_0->Object_0@, "created_at"@)->Ok_0@,
        )->Some_0 by {
        if spec_sensor(es, key) is Ok && spec_sensor(es, key)->Ok_0 is Some {
            let inner = spec_lookup(es, key)->Some_0->Object_0@;
            assert(spec_lookup(es, key) matches Some(x) && x is Object);
            assert(req_timestamp(inner, "created_at"@) is Ok);
        }
    }
}

} // verus!
