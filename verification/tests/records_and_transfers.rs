use particle_buffer::record::{decode, encode, zeroed_records, ParticleRecord, RECORD_STRIDE};
use particle_buffer::transfer::Transfer;

fn numbered(i: u32) -> ParticleRecord {
    ParticleRecord { position: [i, i + 1], velocity: [i + 2, i + 3] }
}

#[test]
fn record_is_four_words_in_order() {
    let record = ParticleRecord {
        position: [1.5f32.to_bits(), (-2.0f32).to_bits()],
        velocity: [0.25f32.to_bits(), 8.0f32.to_bits()],
    };
    assert_eq!(
        record.to_words(),
        [0x3FC0_0000, 0xC000_0000, 0x3E80_0000, 0x4100_0000]
    );
    assert_eq!(ParticleRecord::from_words(&record.to_words()), record);
    assert_eq!(RECORD_STRIDE, 16);
    assert_eq!(std::mem::size_of::<[u32; 4]>() as u64, RECORD_STRIDE);
}

#[test]
fn zeroed_record_is_all_zero_bits() {
    assert_eq!(ParticleRecord::zeroed().to_words(), [0, 0, 0, 0]);
    assert_eq!(ParticleRecord::zeroed(), ParticleRecord { position: [0, 0], velocity: [0, 0] });
}

#[test]
fn zeroed_records_has_the_length_asked_for() {
    assert_eq!(zeroed_records(0), Vec::<ParticleRecord>::new());
    let five = zeroed_records(5);
    assert_eq!(five.len(), 5);
    assert!(five.iter().all(|r| *r == ParticleRecord::zeroed()));
}

#[test]
fn encode_then_decode_gives_the_records_back() {
    let records: Vec<ParticleRecord> = (0..7).map(|i| numbered(i * 10)).collect();
    let words = encode(&records);
    assert_eq!(words.len(), 7);
    assert_eq!(words[2], [20, 21, 22, 23]);
    assert_eq!(decode(&words), records);
    assert_eq!(encode(&Vec::new()), Vec::<[u32; 4]>::new());
}

#[test]
fn transfer_writes_its_range_and_nothing_else() {
    let src: Vec<ParticleRecord> = (0..6).map(numbered).collect();
    let mut dst: Vec<ParticleRecord> = (100..110).map(numbered).collect();
    let copy = Transfer { src_offset: 2, dst_offset: 5, count: 3 };
    assert!(copy.apply(&src, &mut dst));
    for i in 0..10u32 {
        let expected = if (5..8).contains(&i) { numbered(i - 5 + 2) } else { numbered(100 + i) };
        assert_eq!(dst[i as usize], expected);
    }
}

#[test]
fn transfer_that_does_not_fit_leaves_the_destination() {
    let src: Vec<ParticleRecord> = (0..4).map(numbered).collect();
    let before: Vec<ParticleRecord> = (100..104).map(numbered).collect();
    let mut dst = before.clone();
    assert!(!Transfer { src_offset: 2, dst_offset: 0, count: 3 }.apply(&src, &mut dst));
    assert_eq!(dst, before);
    assert!(!Transfer { src_offset: 0, dst_offset: 2, count: 3 }.apply(&src, &mut dst));
    assert_eq!(dst, before);
    assert!(!Transfer { src_offset: u64::MAX, dst_offset: 0, count: 1 }.apply(&src, &mut dst));
    assert!(!Transfer { src_offset: 0, dst_offset: 0, count: u64::MAX }.apply(&src, &mut dst));
    assert_eq!(dst, before);
    assert!(Transfer { src_offset: 0, dst_offset: 0, count: 4 }.apply(&src, &mut dst));
    assert_eq!(dst, src);
}

#[test]
fn empty_transfer_fits_anywhere_inside() {
    let src: Vec<ParticleRecord> = Vec::new();
    let before: Vec<ParticleRecord> = (0..3).map(numbered).collect();
    let mut dst = before.clone();
    assert!(Transfer { src_offset: 0, dst_offset: 3, count: 0 }.apply(&src, &mut dst));
    assert_eq!(dst, before);
}
