use babafx::image_effect::{
    clip_image_properties, clip_name, decode_clip_image, image_effect_suite, BabafxInstance,
    ImageClip, kDoubleOneBits,
};
use babafx::memory::{header_padding, AllocDecision, ImageMemoryHeader};
use babafx::ofx_constants::{kOfxStatErrBadHandle, kOfxStatErrUnsupported, kOfxStatFailed, kOfxStatOK};
use babafx::property_set::PropertySet;
use babafx::property_suite::property_suite;

#[test]
fn clip_properties_describe_the_image() {
    let props = clip_image_properties(720, 480, 0x1000);
    assert_eq!(props.ints.get("OfxImagePropBounds").unwrap(), &vec![0, 0, 720, 480]);
    assert_eq!(props.ints.get("OfxImagePropRowBytes").unwrap(), &vec![2880]);
    assert_eq!(props.pointers.get("OfxImagePropData").unwrap(), &vec![0x1000]);
    assert_eq!(props.strings.get("OfxImagePropUniqueIdentifier").unwrap(), &vec!["host_frame_0001".to_string()]);
    assert_eq!(props.strings.get("OfxImageEffectPropComponents").unwrap(), &vec!["OfxImageComponentRGBA".to_string()]);
    assert_eq!(props.strings.get("OfxImageEffectPropPixelDepth").unwrap(), &vec!["OfxBitDepthByte".to_string()]);
    assert_eq!(props.strings.get("OfxImageEffectPropPreMultiplication").unwrap(), &vec!["OfxImageOpaque".to_string()]);
    assert_eq!(props.strings.get("OfxImagePropField").unwrap(), &vec!["OfxFieldNone".to_string()]);
    assert_eq!(props.doubles.get("OfxImagePropPixelAspectRatio").unwrap(), &vec![1.0f64.to_bits()]);
    assert_eq!(props.doubles.get("OfxImageEffectPropRenderScale").unwrap(), &vec![kDoubleOneBits, kDoubleOneBits]);
    assert_eq!(kDoubleOneBits, 1.0f64.to_bits());
}

#[test]
fn clips_are_defined_once_per_name() {
    let suite = image_effect_suite();
    let mut instance = BabafxInstance::new();
    assert_eq!(suite.clip_define(&mut instance, b"Source", 2, 2, 1), Ok(0));
    assert_eq!(suite.clip_define(&mut instance, b"Output", 2, 2, 2), Ok(1));
    assert_eq!(suite.clip_define(&mut instance, b"Source", 4, 4, 3), Ok(0));
    assert_eq!(instance.clips.len(), 2);
    assert_eq!(instance.clips[0].properties.ints.get("OfxImagePropBounds").unwrap(), &vec![0, 0, 4, 4]);
    assert_eq!(suite.clip_get_handle(&instance, b"Output"), Ok(1));
    assert_eq!(suite.clip_get_handle(&instance, b"Mask"), Err(kOfxStatFailed));
    assert_eq!(suite.clip_get_handle(&instance, &[0xff]), Err(kOfxStatFailed));
}

#[test]
fn clip_names_must_be_text() {
    assert_eq!(clip_name(b"Source"), Ok("Source".to_string()));
    assert_eq!(clip_name(&[0xe2, 0x82]), Err(kOfxStatFailed));
}

#[test]
fn png_bytes_decode_to_rgba() {
    let mut png: Vec<u8> = Vec::new();
    let img = image::RgbaImage::from_raw(2, 1, vec![1, 2, 3, 255, 4, 5, 6, 255]).unwrap();
    img.write_to(&mut std::io::Cursor::new(&mut png), image::ImageFormat::Png).unwrap();
    let decoded = decode_clip_image(&png).unwrap();
    assert_eq!((decoded.width, decoded.height), (2, 1));
    assert_eq!(decoded.pixels, vec![1, 2, 3, 255, 4, 5, 6, 255]);
    assert!(decode_clip_image(b"not a png").is_none());
}

#[test]
fn region_of_definition_is_bounds_or_project() {
    let suite = image_effect_suite();
    let mut clip = ImageClip::new();
    assert_eq!(suite.clip_get_region_of_definition(&clip), (0, 0, 720, 480));
    property_suite().prop_set_int_n(&mut clip.properties, b"OfxImagePropBounds", 4, &[1, 2, 30, 40]);
    assert_eq!(suite.clip_get_region_of_definition(&clip), (1, 2, 30, 40));
}

#[test]
fn released_image_layout() {
    let suite = image_effect_suite();
    let props = clip_image_properties(3, 2, 77);
    let released = suite.clip_release_image(&props);
    assert_eq!(released.data, 77);
    assert_eq!((released.width, released.height), (3, 2));
    assert_eq!(released.total_bytes, 24);
    assert_eq!(released.name, "host_frame_0001");

    let mut props = PropertySet::new();
    let p = property_suite();
    p.prop_set_pointer(&mut props, b"OfxImagePropData", 0, 5);
    p.prop_set_int_n(&mut props, b"OfxImagePropBounds", 4, &[0, 0, -3, 2]);
    p.prop_set_int(&mut props, b"OfxImagePropRowBytes", 0, 7);
    let released = suite.clip_release_image(&props);
    // 7 / -3 rounds toward zero.
    assert_eq!(released.total_bytes, -3 * (7 / -3) * 2);
    assert_eq!(released.total_bytes, 12);
    assert_eq!(released.name, "meow");
}

#[test]
fn image_memory_locks_count_up_and_down() {
    let suite = image_effect_suite();
    let mut header = ImageMemoryHeader::new(64);
    assert_eq!(suite.image_memory_lock(&mut header), kOfxStatOK);
    assert_eq!(suite.image_memory_lock(&mut header), kOfxStatOK);
    assert_eq!(header.lock_count, 2);
    assert_eq!(suite.image_memory_unlock(&mut header), kOfxStatOK);
    assert_eq!(header.lock_count, 1);
    suite.image_memory_unlock(&mut header);
    suite.image_memory_unlock(&mut header);
    assert_eq!(header.lock_count, 0);
    assert_eq!(header.total_size, 64);
}

#[test]
fn image_memory_decisions() {
    let suite = image_effect_suite();
    let padding = header_padding(std::mem::size_of::<ImageMemoryHeader>());
    assert_eq!(padding % 16, 0);
    assert!(matches!(suite.image_memory_alloc(0, padding), AllocDecision::Refuse));
    assert!(matches!(suite.image_memory_alloc(100, padding), AllocDecision::Allocate(n) if n == padding + 100));
    assert!(matches!(suite.image_memory_alloc(isize::MAX as usize, padding), AllocDecision::TooLarge));
    assert_eq!(suite.image_memory_free(&ImageMemoryHeader::new(128)), kOfxStatOK);
    assert_eq!(suite.image_memory_free(&ImageMemoryHeader::new(usize::MAX - 4)), kOfxStatErrBadHandle);
    assert_eq!(suite.abort(), kOfxStatErrUnsupported);
}

#[test]
fn allocated_image_memory_frees_whatever_its_locks() {
    let suite = image_effect_suite();
    let padding = header_padding(std::mem::size_of::<ImageMemoryHeader>());
    match suite.image_memory_alloc(1000, padding) {
        AllocDecision::Allocate(total) => {
            let mut header = ImageMemoryHeader::new(total);
            suite.image_memory_lock(&mut header);
            suite.image_memory_lock(&mut header);
            suite.image_memory_unlock(&mut header);
            assert_eq!(header.total_size, total);
            assert_eq!(suite.image_memory_free(&header), kOfxStatOK);
        }
        _ => panic!("expected an allocation"),
    }
}

#[test]
fn clip_name_that_is_not_text_defines_nothing() {
    let suite = image_effect_suite();
    let mut instance = BabafxInstance::new();
    assert_eq!(suite.clip_define(&mut instance, b"Source", 2, 2, 1), Ok(0));
    assert_eq!(suite.clip_define(&mut instance, &[0xff, 0x53], 4, 4, 9), Err(kOfxStatFailed));
    assert_eq!(instance.clips.len(), 1);
    assert_eq!(instance.clips[0].properties.ints.get("OfxImagePropBounds").unwrap(), &vec![0, 0, 2, 2]);
}
