use n64romconvert::{
    byte_swap, determine_format, endian_swap, select_kernel, Kernel, RomType,
};

#[test]
fn byte_swapped_image_toward_big_endian() {
    let mut image = vec![0u8; 64];
    image[..4].copy_from_slice(&[0x37, 0x80, 0x40, 0x12]);
    let source = determine_format(&image).unwrap();
    assert_eq!(source, RomType::ByteSwapped);

    let target = RomType::from_string("z64").unwrap();
    assert_eq!(target, RomType::BigEndian);
    assert_eq!(select_kernel(source, target), Ok(Kernel::ByteSwap));

    let group: Vec<u8> = (0..16).collect();
    assert_eq!(
        byte_swap(&group),
        Ok(vec![1, 0, 3, 2, 5, 4, 7, 6, 9, 8, 11, 10, 13, 12, 15, 14])
    );

    let converted = byte_swap(&image).unwrap();
    assert_eq!(determine_format(&converted), Ok(RomType::BigEndian));
}

#[test]
fn little_endian_image_toward_big_endian() {
    let mut image = vec![0u8; 64];
    image[..4].copy_from_slice(&[0x40, 0x12, 0x37, 0x80]);
    let source = determine_format(&image).unwrap();
    assert_eq!(source, RomType::LittleEndian);
    assert_eq!(select_kernel(source, RomType::BigEndian), Ok(Kernel::EndianSwap));

    assert_eq!(endian_swap(&[0, 1, 2, 3]), Ok(vec![3, 2, 1, 0]));

    let converted = endian_swap(&image).unwrap();
    assert_eq!(determine_format(&converted), Ok(RomType::BigEndian));
}

#[test]
fn same_source_and_target_is_rejected_before_any_kernel_runs() {
    for layout in [RomType::ByteSwapped, RomType::LittleEndian, RomType::BigEndian] {
        let r = select_kernel(layout, layout);
        assert!(r.is_err());
        assert_eq!(r.unwrap_err().kind(), n64romconvert::ErrorKind::NoOpConversion);
    }
}
