use n64romconvert::error::{Error, ErrorKind};
use n64romconvert::kernel::Kernel;
use n64romconvert::stream::{Conversion, Step, CHUNK_LEN, ROM_LEN};

fn image() -> Vec<u8> {
    (0..ROM_LEN as usize).map(|i| (i * 31 % 253) as u8).collect()
}

fn run(kernel: Kernel, image: &[u8]) -> Vec<u8> {
    let mut conversion = Conversion::new(kernel);
    let mut out = Vec::new();
    while let Step::Read { offset, len } = conversion.next_step() {
        let start = offset as usize;
        out.extend(conversion.feed(&image[start..start + len]).unwrap());
    }
    assert!(conversion.is_finished());
    out
}

#[test]
fn image_and_chunk_sizes() {
    assert_eq!(ROM_LEN, 8_388_608);
    assert_eq!(CHUNK_LEN, 262_144);
    assert_eq!(ROM_LEN % CHUNK_LEN as u64, 0);
    assert_eq!(CHUNK_LEN % 16, 0);
}

#[test]
fn a_fresh_conversion_asks_for_the_first_chunk() {
    let conversion = Conversion::new(Kernel::EndianSwap);
    assert_eq!(conversion.kernel(), Kernel::EndianSwap);
    assert_eq!(conversion.position(), 0);
    assert_eq!(conversion.percent_done(), 0);
    assert!(!conversion.is_finished());
    assert_eq!(conversion.next_step(), Step::Read { offset: 0, len: 262_144 });
}

#[test]
fn each_chunk_moves_the_conversion_on() {
    let mut conversion = Conversion::new(Kernel::ByteSwap);
    let chunk = vec![7u8; CHUNK_LEN];
    assert_eq!(conversion.feed(&chunk).map(|out| out.len()), Ok(CHUNK_LEN));
    assert_eq!(conversion.position(), 262_144);
    assert_eq!(conversion.next_step(), Step::Read { offset: 262_144, len: 262_144 });
    assert_eq!(conversion.feed(&chunk).map(|out| out.len()), Ok(CHUNK_LEN));
    assert_eq!(conversion.position(), 524_288);
    assert_eq!(conversion.next_step(), Step::Read { offset: 524_288, len: 262_144 });
}

#[test]
fn a_chunk_comes_back_converted() {
    let mut conversion = Conversion::new(Kernel::EndianSwap);
    let chunk: Vec<u8> = (0..CHUNK_LEN).map(|i| (i % 256) as u8).collect();
    let out = conversion.feed(&chunk).unwrap();
    assert_eq!(&out[..8], &[3, 2, 1, 0, 7, 6, 5, 4]);
    assert_eq!(Ok(out), Kernel::EndianSwap.apply(&chunk));
}

#[test]
fn a_short_chunk_is_an_io_failure() {
    let short_read = Error {
        kind: ErrorKind::Io,
        message: String::from("a chunk of the image was not read in full"),
    };
    let mut conversion = Conversion::new(Kernel::ByteSwap);
    assert_eq!(conversion.feed(&vec![0u8; CHUNK_LEN - 1]), Err(short_read.clone()));
    assert_eq!(conversion.feed(&[]), Err(short_read.clone()));
    assert_eq!(conversion.feed(&vec![0u8; CHUNK_LEN + 16]), Err(short_read));
    assert_eq!(conversion.position(), 0);
    assert_eq!(conversion.next_step(), Step::Read { offset: 0, len: CHUNK_LEN });
}

#[test]
fn thirty_two_chunks_make_an_image() {
    let mut conversion = Conversion::new(Kernel::ByteEndianSwap);
    let chunk = vec![1u8; CHUNK_LEN];
    let mut chunks = 0;
    let mut written = 0usize;
    while !conversion.is_finished() {
        written += conversion.feed(&chunk).unwrap().len();
        chunks += 1;
    }
    assert_eq!(chunks, 32);
    assert_eq!(written, 8_388_608);
    assert_eq!(conversion.position(), ROM_LEN);
    assert_eq!(conversion.percent_done(), 100);
    assert_eq!(conversion.next_step(), Step::Finished);
}

#[test]
fn a_complete_image_takes_no_more_bytes() {
    let mut conversion = Conversion::new(Kernel::ByteSwap);
    let chunk = vec![1u8; CHUNK_LEN];
    while !conversion.is_finished() {
        conversion.feed(&chunk).unwrap();
    }
    let expected = Error {
        kind: ErrorKind::MalformedInput,
        message: String::from("the image is complete and takes no more bytes"),
    };
    assert_eq!(conversion.feed(&chunk), Err(expected.clone()));
    assert_eq!(conversion.feed(&[]), Err(expected));
    assert_eq!(conversion.position(), ROM_LEN);
    assert!(conversion.is_finished());
}

#[test]
fn percent_follows_the_position() {
    let mut conversion = Conversion::new(Kernel::ByteSwap);
    let chunk = vec![0u8; CHUNK_LEN];
    let mut seen = Vec::new();
    while !conversion.is_finished() {
        conversion.feed(&chunk).unwrap();
        seen.push(conversion.percent_done());
    }
    assert_eq!(seen[0], 3);
    assert_eq!(seen[7], 25);
    assert_eq!(seen[15], 50);
    assert_eq!(seen[23], 75);
    assert_eq!(seen[31], 100);
}

#[test]
fn chunk_by_chunk_equals_all_at_once() {
    let image = image();
    for kernel in [Kernel::ByteSwap, Kernel::EndianSwap, Kernel::ByteEndianSwap] {
        let streamed = run(kernel, &image);
        assert_eq!(streamed.len(), 8_388_608);
        assert_eq!(Ok(streamed), kernel.apply(&image));
    }
}

#[test]
fn streaming_there_and_back_gives_the_image_back() {
    let image = image();
    for kernel in [Kernel::ByteSwap, Kernel::EndianSwap, Kernel::ByteEndianSwap] {
        let there = run(kernel, &image);
        assert_ne!(there, image);
        assert_eq!(run(kernel, &there), image);
    }
}
