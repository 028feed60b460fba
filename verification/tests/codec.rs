use escrow_swap::error::EscrowError;
use escrow_swap::pubkey::Pubkey;
use escrow_swap::state::SwapPair;
use escrow_swap::state::SWAP_PAIR_LEN;

fn key(b: u8) -> Pubkey {
    Pubkey::new([b; 32])
}

fn sample_record() -> SwapPair {
    SwapPair {
        is_initialized: true,
        creator_pubkey: key(11),
        token_a_mint: key(22),
        token_b_mint: key(33),
        token_a_account: key(44),
        amount_a: 0x0102030405060708,
        price_b: 0x1112131415161718,
        is_active: true,
    }
}

#[test]
fn swap_pair_round_trip() {
    let record = sample_record();
    let encoded = record.pack_to_vec();
    assert_eq!(encoded.len(), SWAP_PAIR_LEN);
    let decoded = SwapPair::unpack_from_slice(&encoded).unwrap();
    assert_eq!(decoded, record);
}

#[test]
fn swap_pair_round_trip_inactive() {
    let record = SwapPair {
        is_initialized: true,
        is_active: false,
        amount_a: 0,
        price_b: u64::MAX,
        ..sample_record()
    };
    let encoded = record.pack_to_vec();
    let decoded = SwapPair::unpack_from_slice(&encoded).unwrap();
    assert_eq!(decoded, record);
}

#[test]
fn swap_pair_encode_layout() {
    let record = sample_record();
    let encoded = record.pack_to_vec();
    assert_eq!(encoded.len(), 146);
    assert_eq!(encoded[0], 1);
    assert_eq!(&encoded[1..33], [11u8; 32].as_slice());
    assert_eq!(&encoded[33..65], [22u8; 32].as_slice());
    assert_eq!(&encoded[65..97], [33u8; 32].as_slice());
    assert_eq!(&encoded[97..129], [44u8; 32].as_slice());
    assert_eq!(&encoded[129..137], 0x0102030405060708u64.to_le_bytes().as_slice());
    assert_eq!(&encoded[137..145], 0x1112131415161718u64.to_le_bytes().as_slice());
    assert_eq!(encoded[145], 1);
}

#[test]
fn swap_pair_decode_short_fails() {
    assert_eq!(SwapPair::unpack_from_slice(&[]), Err(EscrowError::InvalidAccountData));
    assert_eq!(SwapPair::unpack_from_slice(&[1u8]), Err(EscrowError::InvalidAccountData));
    let one_short = vec![0u8; SWAP_PAIR_LEN - 1];
    assert_eq!(SwapPair::unpack_from_slice(&one_short), Err(EscrowError::InvalidAccountData));
}

#[test]
fn swap_pair_decode_ignores_trailing() {
    let record = sample_record();
    let mut encoded = record.pack_to_vec();
    let expected = SwapPair::unpack_from_slice(&encoded).unwrap();
    encoded.extend_from_slice(&[0xAB; 10]);
    let decoded = SwapPair::unpack_from_slice(&encoded).unwrap();
    assert_eq!(decoded, expected);
}

#[test]
fn swap_pair_decode_nonzero_flags() {
    let mut encoded = sample_record().pack_to_vec();
    encoded[0] = 7;
    encoded[145] = 255;
    let decoded = SwapPair::unpack_from_slice(&encoded).unwrap();
    assert!(decoded.is_initialized);
    assert!(decoded.is_active);
    encoded[0] = 0;
    encoded[145] = 0;
    let decoded = SwapPair::unpack_from_slice(&encoded).unwrap();
    assert!(!decoded.is_initialized);
    assert!(!decoded.is_active);
}

#[test]
fn swap_pair_pack_into_slice_preserves_tail() {
    let record = sample_record();
    let mut buffer = vec![0xCDu8; SWAP_PAIR_LEN + 4];
    record.pack_into_slice(&mut buffer);
    assert_eq!(buffer.len(), SWAP_PAIR_LEN + 4);
    assert_eq!(&buffer[..SWAP_PAIR_LEN], record.pack_to_vec().as_slice());
    assert_eq!(&buffer[SWAP_PAIR_LEN..], [0xCDu8; 4].as_slice());
}

#[test]
fn swap_pair_is_initialized_reads_flag() {
    assert!(sample_record().is_initialized());
    let blank = SwapPair {
        is_initialized: false,
        ..sample_record()
    };
    assert!(!blank.is_initialized());
}
