use optrs::rng::Pcg64;

#[test]
fn seeded_sequence_matches_reference_values() {
    let mut rng = Pcg64::new(42, 1);
    assert_eq!(rng.next_u64(), 0x6c4b_a60b_2a5b_111b);
    assert_eq!(rng.next_u64(), 0x1912_ab7f_1c39_faf1);
    assert_eq!(rng.next_u64(), 0x56f0_6e20_f405_8715);
}

#[test]
fn zero_seed_zero_stream_matches_reference_values() {
    let mut rng = Pcg64::new(0, 0);
    assert_eq!(rng.next_u64(), 0x0f89_66ee_d1b9_7a91);
    assert_eq!(rng.next_u64(), 0xbe3b_01d7_b647_88b6);
    assert_eq!(rng.next_u64(), 0x8509_1dea_e812_74fa);
}

#[test]
fn same_seed_and_stream_reproduce_the_sequence() {
    let mut a = Pcg64::new(0xC0FF_EE00, 1);
    let mut b = Pcg64::new(0xC0FF_EE00, 1);
    for _ in 0..1000 {
        assert_eq!(a.next_u64(), b.next_u64());
    }
}

#[test]
fn streams_of_one_seed_differ() {
    let mut a = Pcg64::new(0xC0FF_EE00, 1);
    let mut b = Pcg64::new(0xC0FF_EE00, 2);
    assert_eq!(a.next_u64(), 0x33fc_0a9b_3b29_6ea6);
    assert_eq!(b.next_u64(), 0xd8bd_0e38_6754_73c9);
}

#[test]
fn mantissa_is_top_53_bits_of_the_output() {
    let mut rng = Pcg64::new(42, 1);
    assert_eq!(rng.next_u53(), 3810309251091298);
    assert_eq!(rng.next_u53(), 882175274878783);
    let mut other = Pcg64::new(0xC0FF_EE00, 2);
    assert_eq!(other.next_u53(), 7625807967873678);
    for _ in 0..10_000 {
        assert!(other.next_u53() < (1u64 << 53));
    }
}
