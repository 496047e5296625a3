use modbus::mei::{DeviceInfoCategory, DeviceInfoObject};

#[test]
fn device_info_object_keeps_id_and_text() {
    let o = DeviceInfoObject::new(0x04, String::from("Pump controller"));
    assert_eq!(o.id(), 0x04);
    assert_eq!(o.to_string(), "Pump controller");
    let copy = o.clone();
    assert_eq!(copy.id(), 0x04);
    assert_eq!(copy.to_string(), "Pump controller");
}

#[test]
fn device_info_categories_by_id() {
    let cases: Vec<(u8, DeviceInfoCategory)> = vec![
        (0x00, DeviceInfoCategory::Basic),
        (0x01, DeviceInfoCategory::Basic),
        (0x02, DeviceInfoCategory::Basic),
        (0x03, DeviceInfoCategory::Regular),
        (0x06, DeviceInfoCategory::Regular),
        (0x7f, DeviceInfoCategory::Regular),
        (0x80, DeviceInfoCategory::Extended),
        (0xff, DeviceInfoCategory::Extended),
    ];
    for (id, category) in cases {
        assert_eq!(DeviceInfoObject::new(id, String::new()).category(), category);
    }
}
