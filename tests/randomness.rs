use coin_game::{seed_from_block_number, CoinSide, Config, Pallet};

#[test]
fn random_subject_is_id_then_seed() {
    let game = Pallet::new(Config { pallet_id: *b"coinflip" });
    assert_eq!(game.pallet_id(), *b"coinflip");
    let subject = game.random_subject(0x0102_0304);
    assert_eq!(subject, b"coinflip\x04\x03\x02\x01".to_vec());
    let subject = game.random_subject(1);
    assert_eq!(subject, b"coinflip\x01\x00\x00\x00".to_vec());
}

#[test]
fn random_subject_saturates_to_zero() {
    let game = Pallet::new(Config { pallet_id: [9u8; 8] });
    let subject = game.random_subject(u32::MAX as u64 + 1);
    let mut expected = vec![9u8; 8];
    expected.extend_from_slice(&[0, 0, 0, 0]);
    assert_eq!(subject, expected);
    let subject = game.random_subject(u32::MAX as u64);
    let mut expected = vec![9u8; 8];
    expected.extend_from_slice(&[0xff, 0xff, 0xff, 0xff]);
    assert_eq!(subject, expected);
}

#[test]
fn seed_from_block_number_values() {
    assert_eq!(seed_from_block_number(0), 0);
    assert_eq!(seed_from_block_number(42), 42);
    assert_eq!(seed_from_block_number(u32::MAX as u64), u32::MAX);
    assert_eq!(seed_from_block_number(u32::MAX as u64 + 1), 0);
    assert_eq!(seed_from_block_number(u64::MAX), 0);
}

#[test]
fn parity_of_leading_word_decides() {
    let mut random = [0u8; 32];
    assert!(Pallet::generate_insecure_random_boolean(&random));
    assert_eq!(Pallet::random_coin_side(&random), CoinSide::Head);

    random[0] = 1;
    assert!(!Pallet::generate_insecure_random_boolean(&random));
    assert_eq!(Pallet::random_coin_side(&random), CoinSide::Tail);

    // Only the low byte of the leading little-endian word sets the parity.
    random[0] = 0;
    random[1] = 1;
    random[3] = 0x81;
    random[4] = 1;
    assert!(Pallet::generate_insecure_random_boolean(&random));
    assert_eq!(Pallet::random_coin_side(&random), CoinSide::Head);

    random[0] = 0xff;
    assert!(!Pallet::generate_insecure_random_boolean(&random));
    assert_eq!(Pallet::random_coin_side(&random), CoinSide::Tail);
}
