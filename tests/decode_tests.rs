use ytcapture::decode::PcmDecoder;

#[test]
fn whole_words_decode_little_endian() {
    let mut d = PcmDecoder::new();
    let words = d.decode(&[0x01, 0x02, 0x03, 0x04, 0xff, 0xff, 0xff, 0xff]);
    assert_eq!(words, vec![0x0403_0201, 0xffff_ffff]);
}

#[test]
fn word_split_between_chunks_is_carried() {
    let mut d = PcmDecoder::new();
    let bytes = 1.0f32.to_le_bytes();
    assert_eq!(d.decode(&bytes[..1]), Vec::<u32>::new());
    assert_eq!(d.decode(&bytes[1..3]), Vec::<u32>::new());
    let words = d.decode(&[bytes[3], 0x10, 0x20]);
    assert_eq!(words, vec![1.0f32.to_bits()]);
    assert_eq!(d.decode(&[0x30, 0x40]), vec![0x4030_2010]);
}

#[test]
fn empty_chunk_gives_no_words() {
    let mut d = PcmDecoder::new();
    assert_eq!(d.decode(&[]), Vec::<u32>::new());
}
