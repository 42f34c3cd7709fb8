use multiscales::axis::{AxisParseError, ChannelAxis, CustomAxis, SpaceAxis, TimeAxis};

#[test]
fn space_codes_parse_then_serialize() {
    for code in ["x", "y", "z"] {
        let axis = SpaceAxis::from_str(code).unwrap();
        assert_eq!(axis.to_str(), code);
    }
}

#[test]
fn space_axes_serialize_then_parse() {
    for axis in [SpaceAxis::X, SpaceAxis::Y, SpaceAxis::Z] {
        assert_eq!(SpaceAxis::from_str(axis.to_str()), Ok(axis));
    }
}

#[test]
fn space_axes_distinguished_by_code_identity() {
    assert_eq!(SpaceAxis::from_str("x"), Ok(SpaceAxis::X));
    assert_eq!(SpaceAxis::from_str("y"), Ok(SpaceAxis::Y));
    assert_eq!(SpaceAxis::from_str("z"), Ok(SpaceAxis::Z));
}

#[test]
fn time_code_round_trip() {
    let axis = TimeAxis::from_str("t").unwrap();
    assert_eq!(axis.to_str(), "t");
    assert_eq!(TimeAxis::from_str(axis.to_str()), Ok(axis));
}

#[test]
fn channel_code_round_trip() {
    let axis = ChannelAxis::from_str("c").unwrap();
    assert_eq!(axis.to_str(), "c");
    assert_eq!(ChannelAxis::from_str(axis.to_str()), Ok(axis));
}

#[test]
fn custom_code_round_trip() {
    let axis = CustomAxis::from_str("angle").unwrap();
    assert_eq!(axis.to_str(), "angle");
    let again = CustomAxis::from_str(axis.to_str()).unwrap();
    assert_eq!(again, axis);
}

#[test]
fn unknown_code_is_a_hard_parse_failure() {
    assert_eq!(SpaceAxis::from_str("q"), Err(AxisParseError));
    assert_eq!(TimeAxis::from_str("q"), Err(AxisParseError));
    assert_eq!(ChannelAxis::from_str("q"), Err(AxisParseError));
}

#[test]
fn codes_of_other_kinds_are_rejected() {
    assert_eq!(SpaceAxis::from_str("t"), Err(AxisParseError));
    assert_eq!(SpaceAxis::from_str("c"), Err(AxisParseError));
    assert_eq!(TimeAxis::from_str("x"), Err(AxisParseError));
    assert_eq!(ChannelAxis::from_str("t"), Err(AxisParseError));
}

#[test]
fn custom_rejects_reserved_codes() {
    for code in ["x", "y", "z", "t", "c"] {
        assert!(CustomAxis::from_str(code).is_err());
    }
    assert!(CustomAxis::from_str("q").is_ok());
}
