use hheat::device::{find_heating_device, first_heating, DeviceError};

#[test]
fn first_heating_record_is_chosen() {
    let listing = r#"[{"type":"hub","id":"h"},{"type":"heating","id":"a"},{"type":"heating","id":"b"}]"#;
    let device = find_heating_device(listing).unwrap();
    assert!(device.contains("\"id\":\"a\""));
    assert!(!device.contains("\"id\":\"b\""));
}

#[test]
fn single_heating_record() {
    let listing = r#"[{"type":"heating","id":"only"}]"#;
    let device = find_heating_device(listing).unwrap();
    assert!(device.contains("\"id\":\"only\""));
}

#[test]
fn records_without_type_are_skipped() {
    let listing = r#"[{"id":"x"},7,{"type":"heating","id":"y"}]"#;
    let device = find_heating_device(listing).unwrap();
    assert!(device.contains("\"id\":\"y\""));
}

#[test]
fn no_heating_record_is_not_found() {
    let listing = r#"[{"type":"hub"},{"type":"hotwater"}]"#;
    assert_eq!(find_heating_device(listing), Err(DeviceError::NotFound));
}

#[test]
fn empty_listing_is_not_found() {
    assert_eq!(find_heating_device("[]"), Err(DeviceError::NotFound));
}

#[test]
fn object_is_not_a_listing() {
    assert_eq!(find_heating_device(r#"{"error":"x"}"#), Err(DeviceError::NotAListing));
    assert_eq!(find_heating_device("not json"), Err(DeviceError::NotAListing));
}

#[test]
fn first_heating_by_kinds() {
    let kinds = vec![
        None,
        Some("Heating".to_string()),
        Some("heating".to_string()),
        Some("heating".to_string()),
    ];
    assert_eq!(first_heating(&kinds), Some(2));
    let none = vec![Some("hub".to_string()), None];
    assert_eq!(first_heating(&none), None);
    assert_eq!(first_heating(&Vec::new()), None);
}
