use modbus::{Coil, Error};

#[test]
fn test_coil_booleanness() {
    let a: Coil = true.into();
    assert_ne!(a, !a);
    assert_eq!(a, !!a);
    let b: Coil = false.into();
    assert_eq!(a, !b);
}

#[test]
fn coil_from_bool_picks_the_state() {
    assert_eq!(Coil::from(true), Coil::On);
    assert_eq!(Coil::from(false), Coil::Off);
    assert_ne!(Coil::from(true), Coil::from(false));
}

#[test]
fn coil_negation_for_both_booleans() {
    for b in [true, false] {
        let c: Coil = Coil::from(b);
        assert_ne!(!c, c);
        assert_eq!(!!c, c);
        assert_eq!(Coil::from(!b), !c);
    }
    assert_eq!(!Coil::On, Coil::Off);
    assert_eq!(!Coil::Off, Coil::On);
}

#[test]
fn coil_parse_accepts_exact_literals() {
    assert!(matches!(Coil::parse("On"), Ok(Coil::On)));
    assert!(matches!(Coil::parse("Off"), Ok(Coil::Off)));
    assert!(matches!("On".parse::<Coil>(), Ok(Coil::On)));
    assert!(matches!("Off".parse::<Coil>(), Ok(Coil::Off)));
}

#[test]
fn coil_parse_rejects_everything_else() {
    for text in ["on", "ON", "", "off", "OFF", " On", "On ", "Off\n", "O", "Of", "Onn", "Offf", "true", "1", "Ön"] {
        assert!(matches!(Coil::parse(text), Err(Error::ParseCoilError)), "{:?}", text);
        assert!(matches!(text.parse::<Coil>(), Err(Error::ParseCoilError)), "{:?}", text);
    }
}

#[test]
fn coil_wire_codes() {
    assert_eq!(Coil::On.code(), 0xff00);
    assert_eq!(Coil::Off.code(), 0x0000);
}

#[test]
fn coil_from_wire_code() {
    assert_eq!(Coil::from_code(0xff00), Some(Coil::On));
    assert_eq!(Coil::from_code(0x0000), Some(Coil::Off));
    assert_eq!(Coil::from_code(0x00ff), None);
    assert_eq!(Coil::from_code(0x0001), None);
    assert_eq!(Coil::from_code(0xffff), None);
    for c in [Coil::On, Coil::Off] {
        assert_eq!(Coil::from_code(c.code()), Some(c));
    }
}
