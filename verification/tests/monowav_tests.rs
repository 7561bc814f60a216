use voxbox::monowav::{
    DATA_SIZE_OFFSET, MAX_SAMPLE_BYTES, RIFF_OVERHEAD, RIFF_SIZE_OFFSET, WAV_HEADER_LEN,
    WAV_SAMPLE_RATE,
};
use voxbox::MonoWav;

#[test]
fn master_chunk_bytes_are_exact() {
    assert_eq!(MonoWav::master_chunk(), b"RIFF\x00\x00\x00\x00WAVE".to_vec());
}

#[test]
fn fmt_chunk_bytes_are_exact() {
    let expected: Vec<u8> = vec![
        b'f', b'm', b't', b' ', 0x10, 0, 0, 0, 0x01, 0, 0x01, 0, 0x44, 0xac, 0, 0, 0x88, 0x58,
        0x01, 0, 0x02, 0, 0x10, 0,
    ];
    assert_eq!(MonoWav::fmt_chunk(), expected);
}

#[test]
fn data_chunk_bytes_are_exact() {
    assert_eq!(MonoWav::data_chunk(), b"data\x00\x00\x00\x00".to_vec());
}

#[test]
fn header_matches_the_standard_encoders() {
    let mut expected: Vec<u8> = Vec::new();
    expected.extend_from_slice(b"RIFF");
    expected.extend_from_slice(&0u32.to_le_bytes());
    expected.extend_from_slice(b"WAVE");
    expected.extend_from_slice(b"fmt ");
    expected.extend_from_slice(&0x10u32.to_le_bytes());
    expected.extend_from_slice(&0x0001u16.to_le_bytes());
    expected.extend_from_slice(&0x0001u16.to_le_bytes());
    expected.extend_from_slice(&44100u32.to_le_bytes());
    expected.extend_from_slice(&(44100u32 * 2).to_le_bytes());
    expected.extend_from_slice(&2u16.to_le_bytes());
    expected.extend_from_slice(&16u16.to_le_bytes());
    expected.extend_from_slice(b"data");
    expected.extend_from_slice(&0u32.to_le_bytes());

    let mut header = MonoWav::master_chunk();
    header.extend(MonoWav::fmt_chunk());
    header.extend(MonoWav::data_chunk());
    assert_eq!(header, expected);
    assert_eq!(header.len(), WAV_HEADER_LEN);
    assert_eq!(&header[36..40], b"data");
    assert_eq!(RIFF_SIZE_OFFSET, 4);
    assert_eq!(DATA_SIZE_OFFSET, 40);
    assert_eq!(WAV_SAMPLE_RATE, 44100);
}

#[test]
fn tick_encodes_samples_least_significant_byte_first() {
    let mut w = MonoWav::new();
    assert_eq!(w.tick(0), Some([0x00, 0x00]));
    assert_eq!(w.tick(1), Some([0x01, 0x00]));
    assert_eq!(w.tick(-1), Some([0xff, 0xff]));
    assert_eq!(w.tick(-2), Some([0xfe, 0xff]));
    assert_eq!(w.tick(0x1234), Some([0x34, 0x12]));
    assert_eq!(w.tick(i16::MAX), Some([0xff, 0x7f]));
    assert_eq!(w.tick(i16::MIN), Some([0x00, 0x80]));
    assert_eq!(w.nbytes(), 14);
}

#[test]
fn tick_agrees_with_the_standard_encoder() {
    let mut w = MonoWav::new();
    for isig in i16::MIN..=i16::MAX {
        assert_eq!(w.tick(isig), Some(isig.to_le_bytes()));
    }
    assert_eq!(w.nbytes(), 2 * 65536);
}

#[test]
fn size_fields_of_an_empty_stream() {
    let w = MonoWav::new();
    assert_eq!(w.nbytes(), 0);
    assert_eq!(w.riff_size_field(), [36, 0, 0, 0]);
    assert_eq!(w.data_size_field(), [0, 0, 0, 0]);
}

#[test]
fn size_fields_count_the_sample_bytes() {
    let mut w = MonoWav::new();
    for _ in 0..44100 {
        w.tick(0).unwrap();
    }
    assert_eq!(w.nbytes(), 88200);
    assert_eq!(w.data_size_field(), 88200u32.to_le_bytes());
    assert_eq!(w.riff_size_field(), (88200u32 + 16 + 16 + 4).to_le_bytes());
    assert_eq!(RIFF_OVERHEAD, 36);
    assert_eq!(MAX_SAMPLE_BYTES, u32::MAX - 36);
}
