use babafx::ofx_constants::{kOfxStatErrUnsupported, kOfxStatFailed, kOfxStatOK};
use babafx::parameters::{
    parameter_suite, value_for_type, ParamReading, ParameterSet, ParameterThing, ParameterValue,
};
use babafx::property_set::AsPropertySet;
use babafx::property_suite::property_suite;

#[test]
fn define_then_lookup_finds_the_parameter() {
    let suite = parameter_suite();
    let mut set = ParameterSet::new();
    assert_eq!(suite.param_define(&mut set, b"OfxParamTypeInteger", b"radius"), Ok(0));
    assert_eq!(suite.param_define(&mut set, b"OfxParamTypeRGBA", b"tint"), Ok(1));
    assert_eq!(suite.param_get_handle(&set, b"tint"), Ok(1));
    assert_eq!(suite.param_get_handle(&set, b"radius"), Ok(0));
    assert!(matches!(set.parameters[0].value, ParameterValue::Integer(None)));
    assert_eq!(set.parameters[1].name, "tint");
}

#[test]
fn redefining_replaces_the_parameter() {
    let suite = parameter_suite();
    let mut set = ParameterSet::new();
    suite.param_define(&mut set, b"OfxParamTypeInteger", b"radius");
    let props = set.parameters[0].get_properties_mut();
    property_suite().prop_set_int(props, b"OfxParamPropDefault", 0, 4);
    assert_eq!(suite.param_define(&mut set, b"OfxParamTypeDouble", b"radius"), Ok(0));
    assert_eq!(set.parameters.len(), 1);
    assert!(matches!(set.parameters[0].value, ParameterValue::Double(None)));
    assert!(set.parameters[0].properties.ints.get("OfxParamPropDefault").is_none());
}

#[test]
fn lookup_of_unknown_or_invalid_name_fails() {
    let suite = parameter_suite();
    let mut set = ParameterSet::new();
    assert_eq!(suite.param_get_handle(&set, b"nope"), Err(kOfxStatFailed));
    assert_eq!(suite.param_get_handle(&set, &[0xff]), Err(kOfxStatFailed));
    assert_eq!(suite.param_define(&mut set, &[0xff], b"x"), Err(kOfxStatFailed));
    assert_eq!(suite.param_define(&mut set, b"OfxParamTypeInteger", &[0xc0]), Err(kOfxStatFailed));
    assert_eq!(set.parameters.len(), 0);
}

#[test]
fn parameter_types_map_to_values() {
    let cases: Vec<(&str, fn(&ParameterValue) -> bool)> = vec![
        ("OfxParamTypeBoolean", |v| matches!(v, ParameterValue::Boolean(None))),
        ("OfxParamTypeInteger2D", |v| matches!(v, ParameterValue::Integer2D(None))),
        ("OfxParamTypeInteger3D", |v| matches!(v, ParameterValue::Integer3D(None))),
        ("OfxParamTypeDouble2D", |v| matches!(v, ParameterValue::Double2D(None))),
        ("OfxParamTypeDouble3D", |v| matches!(v, ParameterValue::Double3D(None))),
        ("OfxParamTypeRGB", |v| matches!(v, ParameterValue::RGB(None))),
        ("OfxParamTypeBytes", |v| matches!(v, ParameterValue::Bytes(None))),
        ("OfxParamTypePage", |v| matches!(v, ParameterValue::Page(None))),
        ("OfxParamTypeGroup", |v| matches!(v, ParameterValue::Group(None))),
        ("OfxParamTypeChoice", |v| matches!(v, ParameterValue::Choice(None))),
        ("OfxParamTypeStrChoice", |v| matches!(v, ParameterValue::StrChoice(None))),
        ("OfxParamTypePushButton", |v| matches!(v, ParameterValue::PushButton(None))),
        ("OfxParamTypeCustom", |v| matches!(v, ParameterValue::Custom(None))),
        ("OfxParamTypeString", |v| matches!(v, ParameterValue::Unknown)),
        ("", |v| matches!(v, ParameterValue::Unknown)),
    ];
    for (name, check) in cases {
        assert!(check(&value_for_type(&name.to_string())), "{name}");
    }
}

fn param_with(value: ParameterValue) -> ParameterThing {
    let mut p = ParameterThing::new();
    p.value = value;
    p
}

#[test]
fn set_values_are_read_back() {
    let suite = parameter_suite();
    let p = param_with(ParameterValue::Integer3D(Some((1, 2, 3))));
    assert!(matches!(suite.param_get_value_at_time(&p), Ok(ParamReading::Integer3D(1, 2, 3))));
    let p = param_with(ParameterValue::Boolean(Some(true)));
    assert!(matches!(suite.param_get_value_at_time(&p), Ok(ParamReading::Boolean(true))));
    let p = param_with(ParameterValue::String(Some("abc".to_string())));
    assert!(matches!(suite.param_get_value_at_time(&p), Ok(ParamReading::String(s)) if s == "abc"));
    let p = param_with(ParameterValue::Bytes(Some(vec![1, 2])));
    assert!(matches!(suite.param_get_value_at_time(&p), Ok(ParamReading::Bytes)));
}

#[test]
fn unset_values_come_from_the_defaults() {
    let suite = parameter_suite();
    let props = property_suite();
    let mut p = param_with(ParameterValue::Integer2D(None));
    props.prop_set_int_n(&mut p.properties, b"OfxParamPropDefault", 2, &[7, 8]);
    assert!(matches!(suite.param_get_value_at_time(&p), Ok(ParamReading::Integer2D(7, 8))));

    // Missing defaults read as zero.
    let p = param_with(ParameterValue::Integer3D(None));
    assert!(matches!(suite.param_get_value_at_time(&p), Ok(ParamReading::Integer3D(0, 0, 0))));

    let mut p = param_with(ParameterValue::Boolean(None));
    props.prop_set_int(&mut p.properties, b"OfxParamPropDefault", 0, 1);
    assert!(matches!(suite.param_get_value_at_time(&p), Ok(ParamReading::Boolean(true))));
    let mut p = param_with(ParameterValue::Boolean(None));
    props.prop_set_int(&mut p.properties, b"OfxParamPropDefault", 0, 2);
    assert!(matches!(suite.param_get_value_at_time(&p), Ok(ParamReading::Boolean(false))));

    let mut p = param_with(ParameterValue::RGBA(None));
    let bits: Vec<u64> = [0.1f64, 0.2, 0.3].iter().map(|x| x.to_bits()).collect();
    props.prop_set_double_n(&mut p.properties, b"OfxParamPropDefault", 3, &bits);
    match suite.param_get_value_at_time(&p) {
        Ok(ParamReading::RGBA(r, g, b, a)) => {
            assert_eq!((r, g, b, a), (bits[0], bits[1], bits[2], 0));
        }
        _ => panic!("expected RGBA"),
    }

    let mut p = param_with(ParameterValue::String(None));
    props.prop_set_string(&mut p.properties, b"OfxParamPropDefault", 0, b"fallback");
    assert!(matches!(suite.param_get_value_at_time(&p), Ok(ParamReading::String(s)) if s == "fallback"));

    let p = param_with(ParameterValue::Choice(None));
    assert!(matches!(suite.param_get_value_at_time(&p), Ok(ParamReading::Choice(0))));
}

#[test]
fn normalised_positions_carry_the_project_size() {
    let suite = parameter_suite();
    let props = property_suite();
    let mut p = param_with(ParameterValue::Double2D(Some((0.5f64.to_bits(), 0.25f64.to_bits()))));
    assert!(matches!(suite.param_get_value_at_time(&p), Ok(ParamReading::Double2D(_, _, None))));
    props.prop_set_string(&mut p.properties, b"OfxParamPropDoubleType", 0, b"OfxParamDoubleTypeXYAbsolute");
    assert!(matches!(suite.param_get_value_at_time(&p), Ok(ParamReading::Double2D(_, _, None))));
    props.prop_set_string(
        &mut p.properties,
        b"OfxParamPropDefaultCoordinateSystem",
        0,
        b"OfxParamCoordinatesNormalised",
    );
    match suite.param_get_value_at_time(&p) {
        Ok(ParamReading::Double2D(x, y, Some((w, h)))) => {
            assert_eq!((w, h), (720, 480));
            assert_eq!(f64::from_bits(x) * w as f64, 360.0);
            assert_eq!(f64::from_bits(y) * h as f64, 120.0);
        }
        _ => panic!("expected a scaled pair"),
    }
}

#[test]
fn unreadable_parameter_types_fail() {
    let suite = parameter_suite();
    for v in [
        ParameterValue::Unknown,
        ParameterValue::Page(None),
        ParameterValue::Group(None),
        ParameterValue::PushButton(None),
        ParameterValue::StrChoice(None),
        ParameterValue::Custom(None),
    ] {
        assert!(matches!(suite.param_get_value_at_time(&param_with(v)), Err(e) if e == kOfxStatFailed));
    }
}

#[test]
fn unimplemented_parameter_calls_are_unsupported() {
    let suite = parameter_suite();
    for status in [
        suite.param_get_value(),
        suite.param_get_derivative(),
        suite.param_get_integral(),
        suite.param_set_value(),
        suite.param_set_value_at_time(),
        suite.param_get_num_keys(),
        suite.param_get_key_time(),
        suite.param_get_key_index(),
        suite.param_delete_key(),
        suite.param_delete_all_keys(),
        suite.param_copy(),
        suite.param_edit_begin(),
        suite.param_edit_end(),
    ] {
        assert_eq!(status, kOfxStatErrUnsupported);
    }
    assert_ne!(kOfxStatOK, kOfxStatErrUnsupported);
}
