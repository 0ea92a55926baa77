use aarch64_vm::utility::bit_patterns::{first_match, ones_u8, MatchTester};
use aarch64_vm::utility::pattern::parse_pattern;
use aarch64_vm::utility::extract::{Extract, ExtractFromBytes};
use aarch64_vm::utility::{extract_bits16, extract_bits32, BitReader, FixedBytesArray};

#[test]
fn match_tester1() {
    let tester = MatchTester::new("x1x1_00xx");

    assert_eq!(tester.test(&vec![0b01010011u8]), true);
    assert_eq!(tester.test(&vec![0b1010_1100u8]), false);
}

#[test]
fn match_tester2() {
    let tester = MatchTester::new("1111_x1x1_00xx_000x");

    assert_eq!(tester.test(&vec![0b1111_0101, 0b0011_0001]), true);
    assert_eq!(tester.test(&vec![0b1111_0111, 0b0010_0001]), true);
    assert_eq!(tester.test(&vec![0b1111_1111, 0b0011_0000]), true);
    assert_eq!(tester.test(&vec![0b1111_1111, 0b0011_0001]), true);

    assert_eq!(tester.test(&vec![0b1110_0101, 0b0011_0001]), false);
    assert_eq!(tester.test(&vec![0b1110_1111, 0b0011_0001]), false);
    assert_eq!(tester.test(&vec![0b1110_1111, 0b0011_0000]), false);
    assert_eq!(tester.test(&vec![0b1110_1111, 0b1000_0000]), false);
}

#[test]
fn test_ones_u8() {
    assert_eq!(ones_u8(0), 0b0);
    assert_eq!(ones_u8(1), 0b1);
    assert_eq!(ones_u8(2), 0b11);
    assert_eq!(ones_u8(3), 0b111);
    assert_eq!(ones_u8(4), 0b1111);
    assert_eq!(ones_u8(5), 0b11111);
    assert_eq!(ones_u8(6), 0b111111);
    assert_eq!(ones_u8(7), 0b1111111);
    assert_eq!(ones_u8(8), 0b11111111);
}

#[test]
fn test_extract_bits32() {
    let bits: u32 = 0b1111_0000_1010_0101_1100_0011_1001_0110;

    assert_eq!(0b0011, extract_bits32(8..12, bits))
}

#[test]
fn extract_bits32_whole_word_and_top_bit() {
    let bits: u32 = 0x8765_4321;
    assert_eq!(extract_bits32(0..32, bits), bits);
    assert_eq!(extract_bits32(31..32, bits), 1);
    assert_eq!(extract_bits32(0..4, bits), 0x1);
}

#[test]
fn extract_bits16_fields() {
    let bits: u16 = 0b1010_0101_1100_0011;
    assert_eq!(extract_bits16(0..4, bits), 0b0011);
    assert_eq!(extract_bits16(12..16, bits), 0b1010);
    assert_eq!(extract_bits16(0..16, bits), bits);
}

#[test]
fn match_tester_stops_at_shorter_side() {
    let tester = MatchTester::new("1111_1111 0000_0000");
    // Only the bytes present on both sides are compared.
    assert!(tester.test(&vec![0xff]));
    assert!(tester.test(&vec![]));
    assert!(!tester.test(&vec![0xfe]));
    assert!(tester.test(&vec![0xff, 0x00, 0x55]));
}

#[test]
fn match_tester_accepts_its_own_value_bits() {
    let tester = MatchTester::new("1x0x_0101 xxxx_xxx1");
    assert!(tester.test(&vec![0b1000_0101, 0b0000_0001]));
    // Bits under `x` do not matter.
    assert!(tester.test(&vec![0b1101_0101, 0b1111_0001]));
    assert!(!tester.test(&vec![0b1000_0101, 0b0000_0000]));
}

#[test]
fn parse_pattern_tests_masked_bits() {
    let p = parse_pattern("1x0_1");
    // pattern 1001, mask 1011
    assert!(p.test_u32(0b1001));
    assert!(p.test_u32(0b1101));
    assert!(!p.test_u32(0b1011));
    assert!(p.test_u8(0b1001));
    assert!(!p.test_u8(0b0001));
    let any = parse_pattern("xxxx");
    assert!(any.test_u8(0xff));
    assert!(any.test_u32(0));
}

#[test]
fn parse_pattern_keeps_the_last_32_bits() {
    // 33 pattern bits: the leading 0 is shifted out.
    let p = parse_pattern("0_1111_1111_1111_1111_1111_1111_1111_1111");
    assert!(p.test_u32(0xffff_ffff));
    assert!(!p.test_u32(0x7fff_ffff));
}

#[test]
fn bit_reader_reads_little_endian_words() {
    let mut r = BitReader::new(vec![0x1f, 0x20, 0x03, 0xd5, 1, 2, 3, 4, 5, 6, 7, 8, 9]);
    assert_eq!(r.read32(), Some(0xd503_201f));
    assert_eq!(r.read64(), Some(0x0807_0605_0403_0201));
    assert_eq!(r.read32(), None);
    assert_eq!(r.read32(), None);
}

#[test]
fn bit_reader_short_double_word() {
    let mut r = BitReader::new(vec![1, 2, 3]);
    assert_eq!(r.read64(), None);
    assert_eq!(r.read32(), None);
}

#[test]
fn fixed_bytes_array_takes_the_front() {
    let bytes = [9u8, 8, 7, 6, 5];
    let a: [u8; 3] = FixedBytesArray::from_bytes(&bytes);
    assert_eq!(a, [9, 8, 7]);
    let all: [u8; 5] = FixedBytesArray::from_bytes(&bytes);
    assert_eq!(all, bytes);
}

#[test]
fn extract_takes_little_endian_bit_ranges() {
    let bytes = [0xabu8, 0xcd];
    let e: Extract<u16, 4, 12> = ExtractFromBytes::extract(&bytes);
    assert_eq!(e.0, 0xda);
    let all: Extract<i8, 0, 8> = ExtractFromBytes::extract(&[0xffu8]);
    assert_eq!(all.0, -1);
    let first: u8 = ExtractFromBytes::extract(&bytes);
    assert_eq!(first, 0xab);
    let pair: [u8; 2] = ExtractFromBytes::extract(&[1u8, 2, 3]);
    assert_eq!(pair, [1, 2]);
    assert!(<Extract<u32, 0, 16> as ExtractFromBytes>::fits(&bytes));
    assert!(!<Extract<u32, 0, 17> as ExtractFromBytes>::fits(&bytes));
}

#[test]
fn first_match_picks_the_first_pattern_that_accepts() {
    let testers = vec![
        MatchTester::new("1111_0000"),
        MatchTester::new("xxxx_0000"),
        MatchTester::new("xxxx_xxxx"),
    ];
    assert_eq!(first_match(&testers, &[0xf0]), Some(0));
    assert_eq!(first_match(&testers, &[0x30]), Some(1));
    assert_eq!(first_match(&testers, &[0x31]), Some(2));
    let strict = vec![MatchTester::new("1111_0000"), MatchTester::new("0000_1111")];
    assert_eq!(first_match(&strict, &[0x31]), None);
    assert_eq!(first_match(&Vec::new(), &[0x31]), None);
}
