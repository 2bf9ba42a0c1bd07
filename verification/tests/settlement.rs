use solana_raffle::codec::{deserialize_order, serialize_order};
use solana_raffle::errors::ErrorCode;
use solana_raffle::order::{SettleFullOrder, SettleOrderPaymentArgs};
use solana_raffle::settle::{buyer_settle, seller_settle};
use solana_raffle::sigproof::{validate_ed25519_ix, Instruction, ED25519_PROGRAM_ID};
use solana_raffle::state::{GlobalState, NonceAccount, TokenAccount};

fn oracle_key() -> Vec<u8> {
    (0u8..32).map(|i| i.wrapping_mul(7).wrapping_add(1)).collect()
}

fn customer_key() -> Vec<u8> {
    (0u8..32).map(|i| 0xa0u8.wrapping_add(i)).collect()
}

fn global_state(signer: Vec<u8>) -> GlobalState {
    GlobalState {
        signer,
        fee_account: vec![0u8; 32],
        pledge_rate: 0,
        cancel_rate: 0,
        blackout_rate: 0,
    }
}

fn sample_order() -> SettleFullOrder {
    SettleFullOrder {
        order_id: 42,
        token: b"ABC".to_vec(),
        nonce: 7,
        settle_amount: 1000,
        sell_order_value: 5000,
        side: b"sell".to_vec(),
        customer: customer_key(),
        order_ids: vec![42, 43],
        sellet_amounts: vec![600, 400],
    }
}

fn sample_args() -> SettleOrderPaymentArgs {
    SettleOrderPaymentArgs { token: b"ABC".to_vec(), order_id: 42, nonce: 7 }
}

/// Assemble a signature-verification instruction in its default,
/// non-redirected single-signature layout: 16-byte header, 32-byte public
/// key, 64-byte signature, then the signed order payload.
fn proof_instruction(signer: &[u8], order: &SettleFullOrder) -> Instruction {
    let payload = serialize_order(order);
    let mut data = Vec::new();
    data.push(1u8); // num_signatures
    data.push(0u8); // padding
    data.extend_from_slice(&48u16.to_le_bytes()); // signature offset
    data.extend_from_slice(&0xffffu16.to_le_bytes()); // signature instruction index
    data.extend_from_slice(&16u16.to_le_bytes()); // public key offset
    data.extend_from_slice(&0xffffu16.to_le_bytes()); // public key instruction index
    data.extend_from_slice(&112u16.to_le_bytes()); // message data offset
    data.extend_from_slice(&(payload.len() as u16).to_le_bytes()); // message data size
    data.extend_from_slice(&0xffffu16.to_le_bytes()); // message instruction index
    data.extend_from_slice(signer); // public key
    data.extend_from_slice(&[0u8; 64]); // signature (already checked natively)
    data.extend_from_slice(&payload);
    Instruction { program_id: ED25519_PROGRAM_ID.to_vec(), num_accounts: 0, data }
}

#[test]
fn round_trip_preserves_every_field() {
    let order = sample_order();
    let bytes = serialize_order(&order);
    let decoded = deserialize_order(&bytes).expect("canonical encoding must decode");
    assert_eq!(decoded, order);
}

#[test]
fn truncated_payload_is_rejected() {
    let order = sample_order();
    let bytes = serialize_order(&order);
    for cut in [0, 1, 19, 20, bytes.len() - 1] {
        let shorter = bytes[..cut].to_vec();
        assert_eq!(deserialize_order(&shorter), Err(ErrorCode::InstructionMissing));
    }
}

#[test]
fn trailing_garbage_is_rejected() {
    let order = sample_order();
    let mut bytes = serialize_order(&order);
    bytes.push(0);
    assert_eq!(deserialize_order(&bytes), Err(ErrorCode::InstructionMissing));
}

#[test]
fn empty_sequences_round_trip() {
    let mut order = sample_order();
    order.token = Vec::new();
    order.side = Vec::new();
    order.order_ids = Vec::new();
    order.sellet_amounts = Vec::new();
    let bytes = serialize_order(&order);
    assert_eq!(deserialize_order(&bytes).unwrap(), order);
}

#[test]
fn extreme_values_round_trip() {
    let mut order = sample_order();
    order.order_id = u128::MAX;
    order.nonce = u128::MAX;
    order.settle_amount = u64::MAX;
    order.sell_order_value = u64::MAX;
    order.order_ids = vec![u128::MAX, 0];
    order.sellet_amounts = vec![0, u128::MAX];
    let bytes = serialize_order(&order);
    assert_eq!(deserialize_order(&bytes).unwrap(), order);
}

#[test]
fn default_layout_is_accepted() {
    let ix = proof_instruction(&oracle_key(), &sample_order());
    assert!(validate_ed25519_ix(&ix));
}

#[test]
fn structural_deviations_are_rejected() {
    let good = proof_instruction(&oracle_key(), &sample_order());

    let mut wrong_program = good.clone();
    wrong_program.program_id[0] ^= 1;
    assert!(!validate_ed25519_ix(&wrong_program));

    let mut with_accounts = good.clone();
    with_accounts.num_accounts = 1;
    assert!(!validate_ed25519_ix(&with_accounts));

    let mut two_signatures = good.clone();
    two_signatures.data[0] = 2;
    assert!(!validate_ed25519_ix(&two_signatures));

    let mut nonzero_padding = good.clone();
    nonzero_padding.data[1] = 1;
    assert!(!validate_ed25519_ix(&nonzero_padding));

    // Redirecting any of the three instruction indices, or moving the
    // public key, must be rejected.
    for offset in [4usize, 5, 6, 8, 9, 14, 15] {
        let mut redirected = good.clone();
        redirected.data[offset] = 0;
        assert!(!validate_ed25519_ix(&redirected), "offset {offset} accepted");
        redirected.data[offset] = 1;
        assert!(!validate_ed25519_ix(&redirected));
    }

    let mut short = good.clone();
    short.data.truncate(100);
    assert!(!validate_ed25519_ix(&short));
}

#[test]
fn seller_settle_concrete_scenario() {
    // order_id=42, token="ABC", nonce=7, settle_amount=1000: the first
    // seller settlement moves 1000 units customer -> escrow and marks
    // nonce 7 consumed.
    let global = global_state(oracle_key());
    let ix = proof_instruction(&oracle_key(), &sample_order());
    let args = sample_args();
    let mut nonce_account = NonceAccount { nonce: 0 };
    let mut customer_ata = TokenAccount { amount: 5000 };
    let mut stake_ata = TokenAccount { amount: 100 };

    let event =
        seller_settle(&global, &mut nonce_account, &mut customer_ata, &mut stake_ata, &ix, &args, 99)
            .expect("valid fresh order must settle");
    assert_eq!(customer_ata.amount, 4000);
    assert_eq!(stake_ata.amount, 1100);
    assert_eq!(nonce_account.nonce, 7);
    assert_eq!(event.order_id, 42);
    assert_eq!(event.token, b"ABC".to_vec());
    assert_eq!(event.nonce, 7);
    assert_eq!(event.settle_amount, 1000);
    assert_eq!(event.user_account, customer_key());
    assert_eq!(event.side, b"sell".to_vec());
    assert_eq!(event.order_ids, vec![42, 43]);
    assert_eq!(event.sellet_amounts, vec![600, 400]);
    assert_eq!(event.timestamp, 99);

    // Replaying the identical tuple fails and transfers nothing.
    let second =
        seller_settle(&global, &mut nonce_account, &mut customer_ata, &mut stake_ata, &ix, &args, 99);
    assert_eq!(second, Err(ErrorCode::IdlAccountNotEmpty));
    assert_eq!(customer_ata.amount, 4000);
    assert_eq!(stake_ata.amount, 1100);
    assert_eq!(nonce_account.nonce, 7);
}

#[test]
fn buyer_settle_releases_from_escrow() {
    let global = global_state(oracle_key());
    let mut order = sample_order();
    order.side = b"buy".to_vec();
    let ix = proof_instruction(&oracle_key(), &order);
    let args = sample_args();
    let mut nonce_account = NonceAccount { nonce: 0 };
    let mut customer_ata = TokenAccount { amount: 50 };
    let mut stake_ata = TokenAccount { amount: 3000 };

    let event =
        buyer_settle(&global, &mut nonce_account, &mut customer_ata, &mut stake_ata, &ix, &args, 7)
            .expect("valid fresh order must settle");
    // The customer account is credited, never debited; the escrow pays.
    assert_eq!(customer_ata.amount, 1050);
    assert_eq!(stake_ata.amount, 2000);
    assert_eq!(nonce_account.nonce, 7);
    assert_eq!(event.side, b"buy".to_vec());
}

#[test]
fn tampered_arguments_are_rejected() {
    let global = global_state(oracle_key());
    let ix = proof_instruction(&oracle_key(), &sample_order());
    let mut nonce_account = NonceAccount { nonce: 0 };
    let mut customer_ata = TokenAccount { amount: 5000 };
    let mut stake_ata = TokenAccount { amount: 100 };

    let mut wrong_id = sample_args();
    wrong_id.order_id = 43;
    let r = seller_settle(
        &global, &mut nonce_account, &mut customer_ata, &mut stake_ata, &ix, &wrong_id, 0,
    );
    assert_eq!(r, Err(ErrorCode::ConstraintSigner));

    let mut wrong_token = sample_args();
    wrong_token.token = b"XYZ".to_vec();
    let r = seller_settle(
        &global, &mut nonce_account, &mut customer_ata, &mut stake_ata, &ix, &wrong_token, 0,
    );
    assert_eq!(r, Err(ErrorCode::ConstraintSigner));

    assert_eq!(customer_ata.amount, 5000);
    assert_eq!(stake_ata.amount, 100);
    assert_eq!(nonce_account.nonce, 0);
}

#[test]
fn malformed_sibling_instruction_is_rejected_untouched() {
    let global = global_state(oracle_key());
    let mut ix = proof_instruction(&oracle_key(), &sample_order());
    // Redirect the message instruction index away from its default.
    ix.data[14] = 0;
    ix.data[15] = 0;
    let mut nonce_account = NonceAccount { nonce: 0 };
    let mut customer_ata = TokenAccount { amount: 5000 };
    let mut stake_ata = TokenAccount { amount: 100 };
    let r = seller_settle(
        &global, &mut nonce_account, &mut customer_ata, &mut stake_ata, &ix, &sample_args(), 0,
    );
    assert_eq!(r, Err(ErrorCode::InstructionMissing));
    assert_eq!(customer_ata.amount, 5000);
    assert_eq!(stake_ata.amount, 100);
    assert_eq!(nonce_account.nonce, 0);
}

#[test]
fn undecodable_payload_is_rejected() {
    let global = global_state(oracle_key());
    let mut ix = proof_instruction(&oracle_key(), &sample_order());
    ix.data.truncate(130); // keep the header and key, mangle the payload
    let mut nonce_account = NonceAccount { nonce: 0 };
    let mut customer_ata = TokenAccount { amount: 5000 };
    let mut stake_ata = TokenAccount { amount: 100 };
    let r = seller_settle(
        &global, &mut nonce_account, &mut customer_ata, &mut stake_ata, &ix, &sample_args(), 0,
    );
    assert_eq!(r, Err(ErrorCode::InstructionMissing));
    assert_eq!(customer_ata.amount, 5000);
}

#[test]
fn foreign_signer_is_rejected() {
    let global = global_state(oracle_key());
    let ix = proof_instruction(&customer_key(), &sample_order());
    let mut nonce_account = NonceAccount { nonce: 0 };
    let mut customer_ata = TokenAccount { amount: 5000 };
    let mut stake_ata = TokenAccount { amount: 100 };
    let r = seller_settle(
        &global, &mut nonce_account, &mut customer_ata, &mut stake_ata, &ix, &sample_args(), 0,
    );
    assert_eq!(r, Err(ErrorCode::ConstraintSigner));
    assert_eq!(customer_ata.amount, 5000);
    assert_eq!(stake_ata.amount, 100);
}

#[test]
fn destination_overflow_aborts_without_effect() {
    let global = global_state(oracle_key());
    let ix = proof_instruction(&oracle_key(), &sample_order());
    let mut nonce_account = NonceAccount { nonce: 0 };
    let mut customer_ata = TokenAccount { amount: 5000 };
    let mut stake_ata = TokenAccount { amount: u64::MAX - 999 }; // 1000 would overflow
    let r = seller_settle(
        &global, &mut nonce_account, &mut customer_ata, &mut stake_ata, &ix, &sample_args(), 0,
    );
    assert_eq!(r, Err(ErrorCode::TransferFailed));
    assert_eq!(customer_ata.amount, 5000);
    assert_eq!(stake_ata.amount, u64::MAX - 999);
    assert_eq!(nonce_account.nonce, 0);
}

#[test]
fn oversized_length_prefix_is_rejected() {
    let order = sample_order();
    let mut bytes = serialize_order(&order);
    // Inflate the token length prefix beyond the remaining bytes.
    bytes[16] = 0xff;
    bytes[17] = 0xff;
    assert_eq!(deserialize_order(&bytes), Err(ErrorCode::InstructionMissing));
}

#[test]
fn insufficient_funds_abort_without_effect() {
    let global = global_state(oracle_key());
    let ix = proof_instruction(&oracle_key(), &sample_order());
    let mut nonce_account = NonceAccount { nonce: 0 };
    let mut customer_ata = TokenAccount { amount: 999 }; // less than settle_amount
    let mut stake_ata = TokenAccount { amount: 100 };
    let r = seller_settle(
        &global, &mut nonce_account, &mut customer_ata, &mut stake_ata, &ix, &sample_args(), 0,
    );
    assert_eq!(r, Err(ErrorCode::TransferFailed));
    assert_eq!(customer_ata.amount, 999);
    assert_eq!(stake_ata.amount, 100);
    assert_eq!(nonce_account.nonce, 0);
}
