use babafx::ofx_constants::{kOfxStatErrBadHandle, kOfxStatErrUnsupported, kOfxStatFailed, kOfxStatOK};
use babafx::property_set::PropertySet;
use babafx::property_suite::property_suite;

#[test]
fn set_then_get_int_gives_the_value() {
    let suite = property_suite();
    let mut props = PropertySet::new();
    assert_eq!(suite.prop_set_int(&mut props, b"OfxImagePropBounds", 2, 720), kOfxStatOK);
    assert_eq!(suite.prop_get_int(&mut props, b"OfxImagePropBounds", 2), Ok(720));
    // The skipped slots hold zeros.
    assert_eq!(suite.prop_get_int(&mut props, b"OfxImagePropBounds", 0), Ok(0));
    assert_eq!(suite.prop_get_int(&mut props, b"OfxImagePropBounds", 1), Ok(0));
    assert_eq!(props.ints.get("OfxImagePropBounds").unwrap(), &vec![0, 0, 720]);
}

#[test]
fn set_keeps_other_indices_and_properties() {
    let suite = property_suite();
    let mut props = PropertySet::new();
    suite.prop_set_int(&mut props, b"a", 0, 5);
    suite.prop_set_int(&mut props, b"a", 1, 6);
    suite.prop_set_int(&mut props, b"b", 0, 7);
    suite.prop_set_int(&mut props, b"a", 0, 9);
    assert_eq!(suite.prop_get_int(&mut props, b"a", 0), Ok(9));
    assert_eq!(suite.prop_get_int(&mut props, b"a", 1), Ok(6));
    assert_eq!(suite.prop_get_int(&mut props, b"b", 0), Ok(7));
}

#[test]
fn negative_index_is_a_bad_handle() {
    let suite = property_suite();
    let mut props = PropertySet::new();
    assert_eq!(suite.prop_set_int(&mut props, b"a", -1, 5), kOfxStatErrBadHandle);
    assert!(props.ints.get("a").is_none());
    assert_eq!(suite.prop_get_int(&mut props, b"a", -1), Err(kOfxStatErrBadHandle));
    assert!(props.ints.get("a").is_none());
    assert_eq!(suite.prop_set_int_n(&mut props, b"a", -3, &[]), kOfxStatErrBadHandle);
}

#[test]
fn name_that_is_not_utf8_fails() {
    let suite = property_suite();
    let mut props = PropertySet::new();
    assert_eq!(suite.prop_set_int(&mut props, &[0xff, 0xfe], 0, 5), kOfxStatFailed);
    assert_eq!(suite.prop_get_int(&mut props, &[0xc3], 0), Err(kOfxStatFailed));
    assert_eq!(suite.prop_get_int_n(&mut props, &[0x80], 2), Err(kOfxStatFailed));
    assert_eq!(suite.prop_set_string(&mut props, b"s", 0, &[0xff]), kOfxStatFailed);
    assert!(props.strings.get("s").is_none());
}

#[test]
fn missing_value_fails_but_leaves_the_property_present() {
    let suite = property_suite();
    let mut props = PropertySet::new();
    assert_eq!(suite.prop_get_double(&mut props, b"OfxPropTime", 0), Err(kOfxStatFailed));
    assert_eq!(props.doubles.get("OfxPropTime").unwrap(), &Vec::<u64>::new());
}

#[test]
fn strings_round_trip() {
    let suite = property_suite();
    let mut props = PropertySet::new();
    assert_eq!(
        suite.prop_set_string(&mut props, b"OfxPropLabel", 1, "h\u{e9}llo".as_bytes()),
        kOfxStatOK
    );
    assert_eq!(suite.prop_get_string(&mut props, b"OfxPropLabel", 1), Ok("h\u{e9}llo".to_string()));
    assert_eq!(suite.prop_get_string(&mut props, b"OfxPropLabel", 0), Ok(String::new()));
    assert_eq!(suite.prop_get_string(&mut props, b"OfxPropLabel", 2), Err(kOfxStatFailed));
}

#[test]
fn doubles_and_pointers_keep_their_bits() {
    let suite = property_suite();
    let mut props = PropertySet::new();
    let bits = 0.8f64.to_bits();
    assert_eq!(suite.prop_set_double(&mut props, b"OfxImageEffectPropRenderScale", 0, bits), kOfxStatOK);
    assert_eq!(suite.prop_get_double(&mut props, b"OfxImageEffectPropRenderScale", 0), Ok(bits));
    assert_eq!(f64::from_bits(bits), 0.8);
    assert_eq!(suite.prop_set_pointer(&mut props, b"OfxImagePropData", 0, 0xdead_beef), kOfxStatOK);
    assert_eq!(suite.prop_get_pointer(&mut props, b"OfxImagePropData", 0), Ok(0xdead_beef));
}

#[test]
fn write_n_then_read_n_gives_the_values() {
    let suite = property_suite();
    let mut props = PropertySet::new();
    assert_eq!(suite.prop_set_int_n(&mut props, b"w", 4, &[1, 2, 3, 4]), kOfxStatOK);
    assert_eq!(suite.prop_get_int_n(&mut props, b"w", 4), Ok(vec![1, 2, 3, 4]));
    // A shorter write replaces only the first values.
    assert_eq!(suite.prop_set_int_n(&mut props, b"w", 2, &[8, 9]), kOfxStatOK);
    assert_eq!(suite.prop_get_int_n(&mut props, b"w", 4), Ok(vec![8, 9, 3, 4]));
    assert_eq!(suite.prop_get_int_n(&mut props, b"w", 2), Ok(vec![8, 9]));
}

#[test]
fn read_n_past_the_end_lengthens_the_property() {
    let suite = property_suite();
    let mut props = PropertySet::new();
    suite.prop_set_double_n(&mut props, b"d", 1, &[1.5f64.to_bits()]);
    assert_eq!(suite.prop_get_double_n(&mut props, b"d", 3), Ok(vec![1.5f64.to_bits(), 0, 0]));
    assert_eq!(props.doubles.get("d").unwrap().len(), 3);
    assert_eq!(suite.prop_get_pointer_n(&mut props, b"p", 2), Ok(vec![0, 0]));
    assert_eq!(suite.prop_get_double(&mut props, b"d", 2), Ok(0));
    assert_eq!(suite.prop_get_double(&mut props, b"d", 0), Ok(1.5f64.to_bits()));
}

#[test]
fn pointer_n_writes() {
    let suite = property_suite();
    let mut props = PropertySet::new();
    assert_eq!(suite.prop_set_pointer_n(&mut props, b"p", 2, &[10, 20]), kOfxStatOK);
    assert_eq!(suite.prop_get_pointer(&mut props, b"p", 1), Ok(20));
    assert_eq!(suite.prop_set_double_n(&mut props, b"q", 0, &[]), kOfxStatOK);
    assert_eq!(props.doubles.get("q").unwrap().len(), 0);
}

#[test]
fn reads_do_not_change_values() {
    let suite = property_suite();
    let mut props = PropertySet::new();
    suite.prop_set_int(&mut props, b"a", 0, 3);
    let _ = suite.prop_get_int(&mut props, b"a", 5);
    let _ = suite.prop_get_int(&mut props, b"zz", 0);
    assert_eq!(suite.prop_get_int(&mut props, b"a", 0), Ok(3));
    assert_eq!(props.ints.get("a").unwrap(), &vec![3]);
}

#[test]
fn unimplemented_property_calls_are_unsupported() {
    let suite = property_suite();
    assert_eq!(suite.prop_set_string_n(), kOfxStatErrUnsupported);
    assert_eq!(suite.prop_get_string_n(), kOfxStatErrUnsupported);
    assert_eq!(suite.prop_reset(), kOfxStatErrUnsupported);
    assert_eq!(suite.prop_get_dimension(), kOfxStatErrUnsupported);
}

#[test]
fn invalid_name_fails_before_the_count_is_used() {
    let suite = property_suite();
    let mut props = PropertySet::new();
    assert_eq!(suite.prop_get_int_n(&mut props, &[0xff], -1), Err(kOfxStatFailed));
    assert_eq!(suite.prop_get_double_n(&mut props, &[0xff], -4), Err(kOfxStatFailed));
    assert_eq!(suite.prop_get_pointer_n(&mut props, &[0xc0], -2), Err(kOfxStatFailed));
}
