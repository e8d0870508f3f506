use encoder_lib::config::codes_from_pairs;
use encoder_lib::config::extract_code_from_filename;
use encoder_lib::config::lookup_registro;
use encoder_lib::config::resolve_config_path;
use std::collections::HashMap;

#[test]
fn test_extract_code() {
    assert_eq!(extract_code_from_filename("FEV_PROMO_17.mp4"), Some(17));
    assert_eq!(extract_code_from_filename("FEV_PROMO_5.mp4"), Some(5));
    assert_eq!(extract_code_from_filename("VIDEO_123.mp4"), Some(123));
    assert_eq!(extract_code_from_filename("nocode.mp4"), None);
}

#[test]
fn test_lookup_registro() {
    let mut codes = HashMap::new();
    codes.insert(20, "2024017422020-0".to_string());
    codes.insert(31, "2024017422031-6".to_string());

    assert_eq!(lookup_registro(20, &codes), Some("2024017422020-0".to_string()));
    assert_eq!(lookup_registro(60, &codes), Some("2024017422020-0".to_string()));
    assert_eq!(lookup_registro(71, &codes), Some("2024017422031-6".to_string()));
    assert_eq!(lookup_registro(99, &codes), None);
}

#[test]
fn extract_code_edge_cases() {
    // leading zeros and an explicit plus sign parse like the standard parser
    assert_eq!(extract_code_from_filename("FEV_PROMO_017.mp4"), Some(17));
    assert_eq!(extract_code_from_filename("FEV_PROMO_+17.mp4"), Some(17));
    // a stem without underscore is parsed whole
    assert_eq!(extract_code_from_filename("123.mp4"), Some(123));
    // values beyond u32 are rejected
    assert_eq!(extract_code_from_filename("V_4294967295.mp4"), Some(4294967295));
    assert_eq!(extract_code_from_filename("V_4294967296.mp4"), None);
    // a directory prefix does not disturb the stem
    assert_eq!(extract_code_from_filename("clips/FEV_PROMO_17.mp4"), Some(17));
    // multiple dots: only the last extension is stripped
    assert_eq!(extract_code_from_filename("FEV_PROMO_17.final.mp4"), None);
    assert_eq!(extract_code_from_filename(""), None);
}

#[test]
fn round_trip_scenario() {
    let code = extract_code_from_filename("FEV_PROMO_17.mp4").unwrap();
    assert_eq!(code, 17);
    let mut table = HashMap::new();
    table.insert(17, "R1".to_string());
    assert_eq!(lookup_registro(code, &table), Some("R1".to_string()));
}

#[test]
fn fallback_scenario() {
    let code = extract_code_from_filename("FEV_PROMO_60.mp4").unwrap();
    assert_eq!(code, 60);
    let mut table = HashMap::new();
    table.insert(20, "R2".to_string());
    assert_eq!(lookup_registro(code, &table), Some("R2".to_string()));
}

#[test]
fn unresolvable_scenario() {
    let mut table = HashMap::new();
    table.insert(17, "R1".to_string());
    table.insert(20, "R2".to_string());
    // 99 is above the threshold, so the offset retry runs on 59; both miss
    assert_eq!(lookup_registro(99, &table), None);
}

#[test]
fn lookup_below_threshold_never_retries() {
    let mut table = HashMap::new();
    // 45 - 40 = 5 is present, but 45 is at most the threshold: no retry
    table.insert(5, "R5".to_string());
    assert_eq!(lookup_registro(45, &table), None);
    // just above the threshold the retry applies
    table.insert(11, "R11".to_string());
    assert_eq!(lookup_registro(51, &table), Some("R11".to_string()));
}

#[test]
fn codes_from_pairs_keeps_numeric_keys() {
    let pairs = vec![
        ("17".to_string(), "R1".to_string()),
        ("x20".to_string(), "bad".to_string()),
        ("20".to_string(), "R2".to_string()),
    ];
    let table = codes_from_pairs(&pairs);
    assert_eq!(table.len(), 2);
    assert_eq!(table.get(&17), Some(&"R1".to_string()));
    assert_eq!(table.get(&20), Some(&"R2".to_string()));
}

#[test]
fn codes_from_pairs_later_entry_wins() {
    let pairs = vec![
        ("17".to_string(), "old".to_string()),
        ("017".to_string(), "new".to_string()),
    ];
    let table = codes_from_pairs(&pairs);
    assert_eq!(table.len(), 1);
    assert_eq!(table.get(&17), Some(&"new".to_string()));
}

#[test]
fn resolve_config_path_joins_client() {
    assert_eq!(resolve_config_path("config", None), "config".to_string());
    assert_eq!(resolve_config_path("config", Some("acme")), "config/acme".to_string());
}
