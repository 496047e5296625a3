use modbus::ExceptionCode;

fn table() -> Vec<(ExceptionCode, u8, &'static str)> {
    vec![
        (ExceptionCode::IllegalFunction, 0x01, "IllegalFunction"),
        (ExceptionCode::IllegalDataAddress, 0x02, "IllegalDataAddress"),
        (ExceptionCode::IllegalDataValue, 0x03, "IllegalDataValue"),
        (ExceptionCode::SlaveOrServerFailure, 0x04, "SlaveOrServerFailure"),
        (ExceptionCode::Acknowledge, 0x05, "Acknowledge"),
        (ExceptionCode::SlaveOrServerBusy, 0x06, "SlaveOrServerBusy"),
        (ExceptionCode::NegativeAcknowledge, 0x07, "NegativeAcknowledge"),
        (ExceptionCode::MemoryParity, 0x08, "MemoryParity"),
        (ExceptionCode::NotDefined, 0x09, "NotDefined"),
        (ExceptionCode::GatewayPath, 0x0a, "GatewayPath"),
        (ExceptionCode::GatewayTarget, 0x0b, "GatewayTarget"),
    ]
}

#[test]
fn exception_codes_match_the_table() {
    let rows = table();
    assert_eq!(rows.len(), 11);
    for (code, byte, _) in rows {
        assert_eq!(code.to_code(), byte);
        assert_eq!(ExceptionCode::from_code(byte), Some(code));
    }
}

#[test]
fn exception_code_round_trip() {
    for (code, _, _) in table() {
        assert_eq!(ExceptionCode::from_code(code.to_code()), Some(code));
    }
}

#[test]
fn exception_from_code_fails_outside_the_set() {
    assert_eq!(ExceptionCode::from_code(0x00), None);
    assert_eq!(ExceptionCode::from_code(0x0c), None);
    assert_eq!(ExceptionCode::from_code(0x81), None);
    assert_eq!(ExceptionCode::from_code(0xff), None);
    for byte in 0u8..=255u8 {
        let found = ExceptionCode::from_code(byte);
        assert_eq!(found.is_some(), (0x01..=0x0b).contains(&byte));
        if let Some(code) = found {
            assert_eq!(code.to_code(), byte);
        }
    }
}

#[test]
fn exception_names_are_the_variant_names() {
    for (code, _, name) in table() {
        assert_eq!(code.name(), name);
        assert_eq!(format!("{:?}", code), name);
    }
}
