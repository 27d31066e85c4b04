//! The structured sensor reading and its construction from raw JSON.
//!
//! A `PurpleReading` holds a fixed subset of the fields of a Purple Air
//! sensor response, in milli-units (see `milli`):
//!
//! # Atmospheric
//! * `atmo_sen_a[0]` -- humidity
//! * `atmo_sen_a[1]` -- temperature (Fahrenheit)
//! * `atmo_sen_a[2]` -- air pressure
//! # Particle concentration, sub-sensors A and B
//! * `pm_sen_a[0]` -- particles no larger than 1 micron
//! * `pm_sen_a[1]` -- particles no larger than 2.5 microns
//! * `pm_sen_a[2]` -- particles no larger than 10 microns
//! # Particle count, sub-sensors A and B
//! * `ct_sen_a[0..6]` -- particles no larger than 0.3, 0.5, 1.0, 2.5, 5.0
//!   and 10 microns
//!
//! A slot whose source field is missing, non-numeric or out of range holds
//! the sentinel `-1.0` (`SENTINEL_MILLI`); the shape of the reading never
//! varies.

use vstd::prelude::*;
use vstd::pervasive::VecAdditionalExecFns;
use crate::milli::{SENTINEL_MILLI, MAX_ABS_MILLI, milli_of_parts, parts_to_milli,
    lemma_milli_of_parts_bounded};

verus! {

/// Milli-unit offset added to the humidity slot when recalibrating.
pub const HUMIDITY_OFFSET_MILLI: i64 = 4000;

/// Milli-unit offset subtracted from the temperature slot when recalibrating.
pub const TEMP_OFFSET_MILLI: i64 = 8000;

/// Container for a subset of sensor readings from a Purple Air sensor, in
/// milli-units.
#[derive(Debug, PartialEq)]
pub struct PurpleReading {
    pub atmo_sen_a: Vec<i64>,
    pub pm_sen_a: Vec<i64>,
    pub pm_sen_b: Vec<i64>,
    pub ct_sen_a: Vec<i64>,
    pub ct_sen_b: Vec<i64>,
}

impl PurpleReading {
    /// The fixed shape of every reading: three atmospheric slots, three
    /// mass-concentration slots per sub-sensor, six count slots per
    /// sub-sensor.
    pub open spec fn wf(self) -> bool {
        &&& self.atmo_sen_a@.len() == 3
        &&& self.pm_sen_a@.len() == 3
        &&& self.pm_sen_b@.len() == 3
        &&& self.ct_sen_a@.len() == 6
        &&& self.ct_sen_b@.len() == 6
    }
}

#[verifier::external_type_specification]
#[verifier::external_body]
pub struct ExJsonValue(json::JsonValue);

/// The top-level numeric fields of a JSON text: `None` when the text is
/// not valid JSON; otherwise, for each key of the top-level object whose
/// value is a number, that number's decimal parts (sign, mantissa, decimal
/// exponent).  A valid text whose top level is not an object has no such
/// fields.
pub uninterp spec fn json_num_fields(s: Seq<char>) -> Option<Map<Seq<char>, (bool, u64, i16)>>;

/// The numeric fields of a parsed JSON document, exactly as
/// `json_num_fields` lists them for the text the document was parsed from.
pub uninterp spec fn doc_num_fields(doc: json::JsonValue) -> Map<Seq<char>, (bool, u64, i16)>;

/// Relies on json::parse: a valid JSON text parses to its document, any
/// other text to an error.
#[verifier::external_body]
fn parse_json(raw: &str) -> (r: Option<json::JsonValue>)
    ensures
        r is Some <==> json_num_fields(raw@) is Some,
        r is Some ==> doc_num_fields(r->0) == json_num_fields(raw@)->0,
{
    json::parse(raw).ok()
}

/// Relies on JsonValue's `&str` indexing, which yields the value at a key
/// of a top-level object and null otherwise; on JsonValue::as_number,
/// which is `Some` exactly on a numeric value; and on Number::as_parts,
/// which hands out that value's sign, mantissa and decimal exponent.
#[verifier::external_body]
fn get_num_field(doc: &json::JsonValue, key: &str) -> (r: Option<(bool, u64, i16)>)
    ensures
        r is Some <==> doc_num_fields(*doc).contains_key(key@),
        r is Some ==> r->0 == doc_num_fields(*doc)[key@],
{
    doc[key].as_number().map(|n| n.as_parts())
}

/// The milli-unit value of one slot of the reading: the converted number
/// at `key`, or the sentinel where the key is absent, its value not
/// numeric, or the conversion out of range.
pub open spec fn slot_of(fields: Map<Seq<char>, (bool, u64, i16)>, key: Seq<char>) -> int {
    if fields.contains_key(key) {
        match milli_of_parts(fields[key].0, fields[key].1, fields[key].2 as int) {
            Some(v) => v,
            None => SENTINEL_MILLI as int,
        }
    } else {
        SENTINEL_MILLI as int
    }
}

/// One milli-unit slot per key, in the keys' own order; a key that cannot
/// be read yields the sentinel for its slot alone, without disturbing the
/// extraction of the others.
pub fn parse_response(sensor_response: &json::JsonValue, keys: &Vec<String>) -> (r: Vec<i64>)
    ensures
        r@.len() == keys@.len(),
        forall|i: int| 0 <= i < keys@.len()
            ==> #[trigger] r@[i] as int == slot_of(doc_num_fields(*sensor_response), keys@[i]@),
        forall|i: int| 0 <= i < r@.len() ==> -MAX_ABS_MILLI <= #[trigger] r@[i] <= MAX_ABS_MILLI,
{
    let mut r: Vec<i64> = Vec::new();
    let mut i: usize = 0;
    while i < keys.len()
        invariant
            0 <= i <= keys@.len(),
            r@.len() == i,
            forall|j: int| 0 <= j < i
                ==> #[trigger] r@[j] as int == slot_of(doc_num_fields(*sensor_response), keys@[j]@),
            forall|j: int| 0 <= j < r@.len() ==> -MAX_ABS_MILLI <= #[trigger] r@[j] <= MAX_ABS_MILLI,
        decreases keys@.len() - i,
    {
        let v: i64 = match get_num_field(sensor_response, keys[i].as_str()) {
            Some((positive, mantissa, exponent)) => {
                proof {
                    lemma_milli_of_parts_bounded(positive, mantissa, exponent as int);
                }
                match parts_to_milli(positive, mantissa, exponent) {
                    Some(m) => m,
                    None => SENTINEL_MILLI,
                }
            },
            None => SENTINEL_MILLI,
        };
        r.push(v);
        i = i + 1;
    }
    r
}

/// Recalibrates a reading.  With `adjust` off the reading comes back
/// unchanged; with it on, humidity gains `+4.0` and temperature `-8.0`,
/// and every other slot is untouched.  The offsets are a fixed empirical
/// correction for the sensor's own heat.
pub fn calibrate(reading: PurpleReading, adjust: bool) -> (r: PurpleReading)
    requires
        reading.wf(),
        adjust ==> reading.atmo_sen_a@[0] + HUMIDITY_OFFSET_MILLI <= i64::MAX,
        adjust ==> reading.atmo_sen_a@[1] - TEMP_OFFSET_MILLI >= i64::MIN,
    ensures
        r.wf(),
        !adjust ==> r == reading,
        adjust ==> r.atmo_sen_a@[0] == reading.atmo_sen_a@[0] + HUMIDITY_OFFSET_MILLI,
        adjust ==> r.atmo_sen_a@[1] == reading.atmo_sen_a@[1] - TEMP_OFFSET_MILLI,
        adjust ==> r.atmo_sen_a@[2] == reading.atmo_sen_a@[2],
        r.pm_sen_a == reading.pm_sen_a,
        r.pm_sen_b == reading.pm_sen_b,
        r.ct_sen_a == reading.ct_sen_a,
        r.ct_sen_b == reading.ct_sen_b,
{
    if !adjust {
        return reading;
    }
    let mut r = reading;
    let humidity = r.atmo_sen_a[0];
    r.atmo_sen_a.set(0, humidity + HUMIDITY_OFFSET_MILLI);
    let temperature = r.atmo_sen_a[1];
    r.atmo_sen_a.set(1, temperature - TEMP_OFFSET_MILLI);
    r
}

/// Why a poll cycle produced no reading.
#[derive(PartialEq, Eq, Structural, Clone, Copy, Debug)]
pub enum CycleError {
    /// The fetched body was not valid JSON.
    MalformedPayload,
}

/// Builds a reading from a raw sensor response.  A body that is not valid
/// JSON is a cycle-level failure; in a valid body every expected key is
/// extracted independently, a missing or unreadable one yielding the
/// sentinel for its own slot, and the recalibration is applied last.
pub fn get_reading(raw_resp: String, adjust: bool) -> (r: Result<PurpleReading, CycleError>)
    ensures
        r is Ok <==> json_num_fields(raw_resp@) is Some,
        r is Err ==> r->Err_0 == CycleError::MalformedPayload,
        r matches Ok(rd) ==> ({
            let fields = json_num_fields(raw_resp@)->0;
            &&& rd.wf()
            &&& rd.atmo_sen_a@[0] as int == slot_of(fields, "current_humidity"@) + (
            if adjust {
                HUMIDITY_OFFSET_MILLI as int
            } else {
                0
            })
            &&& rd.atmo_sen_a@[1] as int == slot_of(fields, "current_temp_f"@) - (
            if adjust {
                TEMP_OFFSET_MILLI as int
            } else {
                0
            })
            &&& rd.atmo_sen_a@[2] as int == slot_of(fields, "pressure"@)
            &&& rd.pm_sen_a@[0] as int == slot_of(fields, "pm1_0_atm"@)
            &&& rd.pm_sen_a@[1] as int == slot_of(fields, "pm2_5_atm"@)
            &&& rd.pm_sen_a@[2] as int == slot_of(fields, "pm10_0_atm"@)
            &&& rd.pm_sen_b@[0] as int == slot_of(fields, "pm1_0_atm_b"@)
            &&& rd.pm_sen_b@[1] as int == slot_of(fields, "pm2_5_atm_b"@)
            &&& rd.pm_sen_b@[2] as int == slot_of(fields, "pm10_0_atm_b"@)
            &&& rd.ct_sen_a@[0] as int == slot_of(fields, "p_0_3_um"@)
            &&& rd.ct_sen_a@[1] as int == slot_of(fields, "p_0_5_um"@)
            &&& rd.ct_sen_a@[2] as int == slot_of(fields, "p_1_0_um"@)
            &&& rd.ct_sen_a@[3] as int == slot_of(fields, "p_2_5_um"@)
            &&& rd.ct_sen_a@[4] as int == slot_of(fields, "p_5_0_um"@)
            &&& rd.ct_sen_a@[5] as int == slot_of(fields, "p_10_0_um"@)
            &&& rd.ct_sen_b@[0] as int == slot_of(fields, "p_0_3_um_b"@)
            &&& rd.ct_sen_b@[1] as int == slot_of(fields, "p_0_5_um_b"@)
            &&& rd.ct_sen_b@[2] as int == slot_of(fields, "p_1_0_um_b"@)
            &&& rd.ct_sen_b@[3] as int == slot_of(fields, "p_2_5_um_b"@)
            &&& rd.ct_sen_b@[4] as int == slot_of(fields, "p_5_0_um_b"@)
            &&& rd.ct_sen_b@[5] as int == slot_of(fields, "p_10_0_um_b"@)
        }),
{
    let doc = match parse_json(raw_resp.as_str()) {
        Some(d) => d,
        None => {
            return Err(CycleError::MalformedPayload);
        },
    };

    let mut atmo_keys: Vec<String> = Vec::new();
    atmo_keys.push(String::from_str("current_humidity"));
    atmo_keys.push(String::from_str("current_temp_f"));
    atmo_keys.push(String::from_str("pressure"));

    let mut pm_a_keys: Vec<String> = Vec::new();
    pm_a_keys.push(String::from_str("pm1_0_atm"));
    pm_a_keys.push(String::from_str("pm2_5_atm"));
    pm_a_keys.push(String::from_str("pm10_0_atm"));

    let mut pm_b_keys: Vec<String> = Vec::new();
    pm_b_keys.push(String::from_str("pm1_0_atm_b"));
    pm_b_keys.push(String::from_str("pm2_5_atm_b"));
    pm_b_keys.push(String::from_str("pm10_0_atm_b"));

    let mut ct_a_keys: Vec<String> = Vec::new();
    ct_a_keys.push(String::from_str("p_0_3_um"));
    ct_a_keys.push(String::from_str("p_0_5_um"));
    ct_a_keys.push(String::from_str("p_1_0_um"));
    ct_a_keys.push(String::from_str("p_2_5_um"));
    ct_a_keys.push(String::from_str("p_5_0_um"));
    ct_a_keys.push(String::from_str("p_10_0_um"));

    let mut ct_b_keys: Vec<String> = Vec::new();
    ct_b_keys.push(String::from_str("p_0_3_um_b"));
    ct_b_keys.push(String::from_str("p_0_5_um_b"));
    ct_b_keys.push(String::from_str("p_1_0_um_b"));
    ct_b_keys.push(String::from_str("p_2_5_um_b"));
    ct_b_keys.push(String::from_str("p_5_0_um_b"));
    ct_b_keys.push(String::from_str("p_10_0_um_b"));

    let reading = PurpleReading {
        atmo_sen_a: parse_response(&doc, &atmo_keys),
        pm_sen_a: parse_response(&doc, &pm_a_keys),
        pm_sen_b: parse_response(&doc, &pm_b_keys),
        ct_sen_a: parse_response(&doc, &ct_a_keys),
        ct_sen_b: parse_response(&doc, &ct_b_keys),
    };
    Ok(calibrate(reading, adjust))
}

} // verus!
