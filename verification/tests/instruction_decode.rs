use escrow_swap::error::EscrowError;
use escrow_swap::instruction::EscrowInstruction;
use escrow_swap::pubkey::Pubkey;

fn create_payload(a_mint: u8, b_mint: u8, amount_a: u64, price_b: u64) -> Vec<u8> {
    let mut payload = vec![1u8];
    payload.extend_from_slice(&[a_mint; 32]);
    payload.extend_from_slice(&[b_mint; 32]);
    payload.extend_from_slice(&amount_a.to_le_bytes());
    payload.extend_from_slice(&price_b.to_le_bytes());
    payload
}

#[test]
fn unpack_empty_fails() {
    assert_eq!(EscrowInstruction::unpack(&[]), Err(EscrowError::InvalidInstruction));
}

#[test]
fn unpack_unknown_tag_fails() {
    let mut payload = create_payload(1, 2, 3, 4);
    payload[0] = 3;
    assert_eq!(EscrowInstruction::unpack(&payload), Err(EscrowError::InvalidInstruction));
    payload[0] = 4;
    assert_eq!(EscrowInstruction::unpack(&payload), Err(EscrowError::InvalidInstruction));
    payload[0] = 255;
    assert_eq!(EscrowInstruction::unpack(&payload), Err(EscrowError::InvalidInstruction));
}

#[test]
fn unpack_init_escrow() {
    let mut payload = vec![0u8];
    payload.extend_from_slice(&9000u64.to_le_bytes());
    assert_eq!(
        EscrowInstruction::unpack(&payload),
        Ok(EscrowInstruction::InitEscrow { amount: 9000 })
    );
}

#[test]
fn unpack_init_escrow_short_fails() {
    let mut payload = vec![0u8];
    payload.extend_from_slice(&[0u8; 7]);
    assert_eq!(EscrowInstruction::unpack(&payload), Err(EscrowError::InvalidInstruction));
}

#[test]
fn unpack_create_exact() {
    let payload = create_payload(5, 6, 1000, 500);
    assert_eq!(payload.len(), 81);
    assert_eq!(
        EscrowInstruction::unpack(&payload),
        Ok(EscrowInstruction::CreateSwapPair {
            token_a_mint: Pubkey::new([5; 32]),
            token_b_mint: Pubkey::new([6; 32]),
            amount_a: 1000,
            price_b: 500,
        })
    );
}

#[test]
fn unpack_create_short_fails() {
    let payload = create_payload(5, 6, 1000, 500);
    for cut in 1..payload.len() {
        assert_eq!(
            EscrowInstruction::unpack(&payload[..cut]),
            Err(EscrowError::InvalidInstruction)
        );
    }
}

#[test]
fn unpack_create_ignores_trailing() {
    let mut payload = create_payload(5, 6, 1000, 500);
    let expected = EscrowInstruction::unpack(&payload).unwrap();
    payload.extend_from_slice(&[0xEE; 7]);
    assert_eq!(EscrowInstruction::unpack(&payload), Ok(expected));
}

#[test]
fn unpack_execute() {
    let mut payload = vec![2u8];
    payload.extend_from_slice(&[42u8; 32]);
    assert_eq!(
        EscrowInstruction::unpack(&payload),
        Ok(EscrowInstruction::ExecuteSwap { swap_pair_id: Pubkey::new([42; 32]) })
    );
}

#[test]
fn unpack_execute_short_fails() {
    let mut payload = vec![2u8];
    payload.extend_from_slice(&[42u8; 31]);
    assert_eq!(EscrowInstruction::unpack(&payload), Err(EscrowError::InvalidInstruction));
}
