use n64romconvert::error::{Error, ErrorKind};
use n64romconvert::layout::{determine_format, to_rom_type, RomType};

fn header_then_zeros(header: [u8; 4], len: usize) -> Vec<u8> {
    let mut image = vec![0u8; len];
    image[..4].copy_from_slice(&header);
    image
}

#[test]
fn short_names() {
    assert_eq!(RomType::ByteSwapped.as_str(), "v64");
    assert_eq!(RomType::LittleEndian.as_str(), "n64");
    assert_eq!(RomType::BigEndian.as_str(), "z64");
}

#[test]
fn short_names_as_owned_strings() {
    assert_eq!(RomType::ByteSwapped.to_string(), String::from("v64"));
    assert_eq!(RomType::LittleEndian.to_string(), String::from("n64"));
    assert_eq!(RomType::BigEndian.to_string(), String::from("z64"));
}

#[test]
fn from_string_reads_the_three_names() {
    assert_eq!(RomType::from_string("v64"), Ok(RomType::ByteSwapped));
    assert_eq!(RomType::from_string("n64"), Ok(RomType::LittleEndian));
    assert_eq!(RomType::from_string("z64"), Ok(RomType::BigEndian));
}

#[test]
fn from_string_gives_back_the_layout_of_a_name() {
    for layout in [RomType::ByteSwapped, RomType::LittleEndian, RomType::BigEndian] {
        assert_eq!(RomType::from_string(layout.as_str()), Ok(layout));
    }
}

#[test]
fn from_string_turns_down_other_names() {
    let expected = Error {
        kind: ErrorKind::InvalidLayoutName,
        message: String::from("the type you entered was not valid!"),
    };
    for name in ["", "z6", "z644", "Z64", "N64", "V64", " z64", "z64 ", "x64", "rom", "z\u{36}5"] {
        assert_eq!(RomType::from_string(name), Err(expected.clone()), "name {:?}", name);
    }
}

#[test]
fn from_string_is_exact_about_case() {
    let r = RomType::from_string("Z64");
    assert!(matches!(r, Err(ref e) if e.kind == ErrorKind::InvalidLayoutName));
}

#[test]
fn to_rom_type_ignores_case() {
    assert_eq!(to_rom_type("Z64"), Ok(RomType::BigEndian));
    assert_eq!(to_rom_type("N64"), Ok(RomType::LittleEndian));
    assert_eq!(to_rom_type("V64"), Ok(RomType::ByteSwapped));
    assert_eq!(to_rom_type("z64"), Ok(RomType::BigEndian));
}

#[test]
fn to_rom_type_turns_down_other_names() {
    let r = to_rom_type("Q64");
    assert_eq!(
        r,
        Err(Error {
            kind: ErrorKind::InvalidLayoutName,
            message: String::from("the type you entered was not valid!"),
        })
    );
}

#[test]
fn magic_headers() {
    assert_eq!(RomType::ByteSwapped.magic(), [0x37, 0x80, 0x40, 0x12]);
    assert_eq!(RomType::LittleEndian.magic(), [0x40, 0x12, 0x37, 0x80]);
    assert_eq!(RomType::BigEndian.magic(), [0x80, 0x37, 0x12, 0x40]);
}

#[test]
fn detects_each_magic_header() {
    assert_eq!(determine_format(&[0x37, 0x80, 0x40, 0x12]), Ok(RomType::ByteSwapped));
    assert_eq!(determine_format(&[0x40, 0x12, 0x37, 0x80]), Ok(RomType::LittleEndian));
    assert_eq!(determine_format(&[0x80, 0x37, 0x12, 0x40]), Ok(RomType::BigEndian));
}

#[test]
fn detects_the_layout_of_its_own_magic() {
    for layout in [RomType::ByteSwapped, RomType::LittleEndian, RomType::BigEndian] {
        assert_eq!(determine_format(&layout.magic()), Ok(layout));
    }
}

#[test]
fn detection_looks_at_the_first_four_bytes_only() {
    let mut image = header_then_zeros([0x80, 0x37, 0x12, 0x40], 64);
    assert_eq!(determine_format(&image), Ok(RomType::BigEndian));
    for byte in image[4..].iter_mut() {
        *byte = 0xff;
    }
    assert_eq!(determine_format(&image), Ok(RomType::BigEndian));
    image[4..8].copy_from_slice(&[0x37, 0x80, 0x40, 0x12]);
    assert_eq!(determine_format(&image), Ok(RomType::BigEndian));
}

#[test]
fn detection_turns_down_other_headers() {
    let expected = Error {
        kind: ErrorKind::UnrecognizedFormat,
        message: String::from("Did not recognize a supported format!"),
    };
    let headers: [[u8; 4]; 7] = [
        [0, 0, 0, 0],
        [0xff, 0xff, 0xff, 0xff],
        [0x37, 0x80, 0x40, 0x13],
        [0x36, 0x80, 0x40, 0x12],
        [0x12, 0x40, 0x80, 0x37],
        [0x80, 0x37, 0x40, 0x12],
        [0x40, 0x12, 0x37, 0x81],
    ];
    for header in headers {
        assert_eq!(determine_format(&header), Err(expected.clone()), "header {:?}", header);
    }
}

#[test]
fn detection_needs_four_bytes() {
    let expected = Error {
        kind: ErrorKind::MalformedInput,
        message: String::from("failed to read the first 4 bytes of the ROM file"),
    };
    assert_eq!(determine_format(&[]), Err(expected.clone()));
    assert_eq!(determine_format(&[0x37]), Err(expected.clone()));
    assert_eq!(determine_format(&[0x37, 0x80, 0x40]), Err(expected));
}

#[test]
fn detecting_twice_gives_the_same_answer() {
    let image = header_then_zeros([0x40, 0x12, 0x37, 0x80], 32);
    let first = determine_format(&image);
    let second = determine_format(&image);
    assert_eq!(first, Ok(RomType::LittleEndian));
    assert_eq!(first, second);

    let unknown = header_then_zeros([1, 2, 3, 4], 32);
    assert_eq!(determine_format(&unknown), determine_format(&unknown));
}

#[test]
fn errors_carry_kind_and_message() {
    let e = Error::new(ErrorKind::Io, "disk on fire");
    assert_eq!(e.kind(), ErrorKind::Io);
    assert_eq!(e.to_string(), String::from("disk on fire"));
    assert_eq!(e.description(), "disk on fire");
    assert_eq!(e, Error { kind: ErrorKind::Io, message: String::from("disk on fire") });
}
