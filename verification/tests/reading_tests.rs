use purple_exporter::purple_reading::{calibrate, get_reading, CycleError, PurpleReading};

fn full_payload() -> String {
    String::from(
        "{\"current_humidity\":55,\"current_temp_f\":70,\"pressure\":1012,\
         \"pm1_0_atm\":1.2,\"pm2_5_atm\":2.5,\"pm10_0_atm\":10.1,\
         \"pm1_0_atm_b\":1.3,\"pm2_5_atm_b\":2.6,\"pm10_0_atm_b\":10.2,\
         \"p_0_3_um\":100,\"p_0_5_um\":90,\"p_1_0_um\":80,\
         \"p_2_5_um\":70,\"p_5_0_um\":60,\"p_10_0_um\":50,\
         \"p_0_3_um_b\":101,\"p_0_5_um_b\":91,\"p_1_0_um_b\":81,\
         \"p_2_5_um_b\":71,\"p_5_0_um_b\":61,\"p_10_0_um_b\":51}",
    )
}

#[test]
fn full_payload_extracts_every_slot() {
    let r = get_reading(full_payload(), false).unwrap();
    assert_eq!(r.atmo_sen_a, vec![55000, 70000, 1012000]);
    assert_eq!(r.pm_sen_a, vec![1200, 2500, 10100]);
    assert_eq!(r.pm_sen_b, vec![1300, 2600, 10200]);
    assert_eq!(r.ct_sen_a, vec![100000, 90000, 80000, 70000, 60000, 50000]);
    assert_eq!(r.ct_sen_b, vec![101000, 91000, 81000, 71000, 61000, 51000]);
}

#[test]
fn example_adjusted_reading() {
    let raw = String::from(
        "{\"current_humidity\":55,\"current_temp_f\":70,\"pressure\":1012,\"pm1_0_atm\":1.2}",
    );
    let r = get_reading(raw, true).unwrap();
    assert_eq!(r.atmo_sen_a, vec![59000, 62000, 1012000]);
    assert_eq!(r.pm_sen_a, vec![1200, -1000, -1000]);
    assert_eq!(r.pm_sen_b, vec![-1000, -1000, -1000]);
    assert_eq!(r.ct_sen_a, vec![-1000; 6]);
    assert_eq!(r.ct_sen_b, vec![-1000; 6]);
}

#[test]
fn missing_keys_get_sentinel_others_extracted() {
    let raw = String::from("{\"current_temp_f\":70,\"p_0_5_um\":90,\"pm2_5_atm_b\":2.6}");
    let r = get_reading(raw, false).unwrap();
    assert_eq!(r.atmo_sen_a, vec![-1000, 70000, -1000]);
    assert_eq!(r.pm_sen_a, vec![-1000, -1000, -1000]);
    assert_eq!(r.pm_sen_b, vec![-1000, 2600, -1000]);
    assert_eq!(r.ct_sen_a, vec![-1000, 90000, -1000, -1000, -1000, -1000]);
    assert_eq!(r.ct_sen_b, vec![-1000; 6]);
}

#[test]
fn non_numeric_value_gets_sentinel() {
    let raw = String::from("{\"current_humidity\":\"55\",\"current_temp_f\":70}");
    let r = get_reading(raw, false).unwrap();
    assert_eq!(r.atmo_sen_a, vec![-1000, 70000, -1000]);
}

#[test]
fn out_of_range_value_gets_sentinel() {
    let raw = String::from("{\"current_humidity\":1e30,\"current_temp_f\":70}");
    let r = get_reading(raw, false).unwrap();
    assert_eq!(r.atmo_sen_a, vec![-1000, 70000, -1000]);
}

#[test]
fn tiny_value_truncates_to_zero() {
    let raw = String::from("{\"current_humidity\":0.0000001}");
    let r = get_reading(raw, false).unwrap();
    assert_eq!(r.atmo_sen_a[0], 0);
}

#[test]
fn negative_value_extracted() {
    let raw = String::from("{\"current_temp_f\":-12.5}");
    let r = get_reading(raw, false).unwrap();
    assert_eq!(r.atmo_sen_a[1], -12500);
}

#[test]
fn invalid_json_is_a_cycle_error() {
    let raw = String::from("not json at all {{{");
    assert_eq!(get_reading(raw, false), Err(CycleError::MalformedPayload));
}

#[test]
fn valid_json_without_object_yields_all_sentinels() {
    let r = get_reading(String::from("[1, 2, 3]"), false).unwrap();
    assert_eq!(r.atmo_sen_a, vec![-1000; 3]);
    assert_eq!(r.pm_sen_a, vec![-1000; 3]);
    assert_eq!(r.pm_sen_b, vec![-1000; 3]);
    assert_eq!(r.ct_sen_a, vec![-1000; 6]);
    assert_eq!(r.ct_sen_b, vec![-1000; 6]);
}

fn sample_reading() -> PurpleReading {
    PurpleReading {
        atmo_sen_a: vec![55000, 70000, 1012000],
        pm_sen_a: vec![1200, 2500, 10100],
        pm_sen_b: vec![1300, 2600, 10200],
        ct_sen_a: vec![100000, 90000, 80000, 70000, 60000, 50000],
        ct_sen_b: vec![101000, 91000, 81000, 71000, 61000, 51000],
    }
}

#[test]
fn calibrate_disabled_is_identity() {
    let r = calibrate(sample_reading(), false);
    let s = sample_reading();
    assert_eq!(r.atmo_sen_a, s.atmo_sen_a);
    assert_eq!(r.pm_sen_a, s.pm_sen_a);
    assert_eq!(r.pm_sen_b, s.pm_sen_b);
    assert_eq!(r.ct_sen_a, s.ct_sen_a);
    assert_eq!(r.ct_sen_b, s.ct_sen_b);
}

#[test]
fn calibrate_enabled_shifts_humidity_and_temperature_only() {
    let r = calibrate(sample_reading(), true);
    let s = sample_reading();
    assert_eq!(r.atmo_sen_a[0], s.atmo_sen_a[0] + 4000);
    assert_eq!(r.atmo_sen_a[1], s.atmo_sen_a[1] - 8000);
    assert_eq!(r.atmo_sen_a[2], s.atmo_sen_a[2]);
    assert_eq!(r.pm_sen_a, s.pm_sen_a);
    assert_eq!(r.pm_sen_b, s.pm_sen_b);
    assert_eq!(r.ct_sen_a, s.ct_sen_a);
    assert_eq!(r.ct_sen_b, s.ct_sen_b);
}

#[test]
fn calibrate_applies_to_sentinel_too() {
    let mut s = sample_reading();
    s.atmo_sen_a = vec![-1000, -1000, -1000];
    let r = calibrate(s, true);
    assert_eq!(r.atmo_sen_a, vec![3000, -9000, -1000]);
}
