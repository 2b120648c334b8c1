use ch4nn337_lib::bytes::{append_bytes, bytes_equal, bytes_from, copy_bytes};
use ch4nn337_lib::calls::{
    answer_address, answer_i128, answer_u128, answer_u64, coop_withdraw_from_values, decode_call,
    dispute_from_values, encode_create_account,
};
use ch4nn337_lib::abi::AbiValue;
use ch4nn337_lib::{Address, Call, Operation, Query, U256};
use ethers::abi::Token;

fn word(last: u8) -> Vec<u8> {
    let mut w = vec![0u8; 32];
    w[31] = last;
    w
}

#[test]
fn byte_helpers() {
    assert!(bytes_equal(&[1, 2, 3], &[1, 2, 3]));
    assert!(!bytes_equal(&[1, 2, 3], &[1, 2]));
    assert!(!bytes_equal(&[1, 2, 3], &[1, 2, 4]));
    assert!(bytes_equal(&[], &[]));
    let mut out = vec![9u8];
    append_bytes(&mut out, &[1, 2]);
    assert_eq!(out, vec![9u8, 1, 2]);
    assert_eq!(copy_bytes(&[4, 5, 6]), vec![4u8, 5, 6]);
    assert_eq!(bytes_from(&[4, 5, 6], 1), vec![5u8, 6]);
    assert_eq!(bytes_from(&[4, 5, 6], 3), Vec::<u8>::new());
}

#[test]
fn selectors_are_those_of_the_signatures() {
    let dispute = Call::Dispute { value_transfer: 0 }.encode();
    assert_eq!(dispute[..4], ethers::utils::id("dispute(int128)"));
    assert_eq!(dispute[..4], [0xa5, 0x86, 0x6b, 0x94]);
    let coop = Call::CoopWithdraw { value_transfer: 0, withdraw_a: 0, withdraw_b: 0 }.encode();
    assert_eq!(coop[..4], ethers::utils::id("coopWithdraw(int128,uint128,uint128)"));
    assert_eq!(coop[..4], [0x9a, 0x86, 0x74, 0x69]);
    let zero = Address::from_bytes([0; 20]);
    let create = encode_create_account(zero, zero, U256::zero());
    assert_eq!(create[..4], ethers::utils::id("createAccount(address,address,uint256)"));
    assert_eq!(create[..4], [0x12, 0x30, 0xae, 0xa2]);
}

#[test]
fn dispute_call_encoding_is_selector_and_one_word() {
    let data = Call::Dispute { value_transfer: 100 }.encode();
    let mut expected = vec![0xa5u8, 0x86, 0x6b, 0x94];
    expected.extend(word(100));
    assert_eq!(data, expected);

    let negative = Call::Dispute { value_transfer: -100 }.encode();
    let mut expected = vec![0xa5u8, 0x86, 0x6b, 0x94];
    let mut w = vec![0xffu8; 32];
    w[31] = 0x9c;
    expected.extend(w);
    assert_eq!(negative, expected);
}

#[test]
fn coop_withdraw_call_encoding_is_selector_and_three_words() {
    let data = Call::CoopWithdraw { value_transfer: -1, withdraw_a: 7, withdraw_b: 9 }.encode();
    let mut expected = vec![0x9au8, 0x86, 0x74, 0x69];
    expected.extend(vec![0xffu8; 32]);
    expected.extend(word(7));
    expected.extend(word(9));
    assert_eq!(data, expected);
}

#[test]
fn create_account_encoding_pads_addresses() {
    let a = Address::from_bytes([0x11; 20]);
    let b = Address::from_bytes([0x22; 20]);
    let data = encode_create_account(a, b, U256::from_u64(5));
    let mut expected = vec![0x12u8, 0x30, 0xae, 0xa2];
    expected.extend(vec![0u8; 12]);
    expected.extend(vec![0x11u8; 20]);
    expected.extend(vec![0u8; 12]);
    expected.extend(vec![0x22u8; 20]);
    expected.extend(word(5));
    assert_eq!(data, expected);
}

#[test]
fn calls_round_trip() {
    let calls = [
        Call::Dispute { value_transfer: 0 },
        Call::Dispute { value_transfer: -100 },
        Call::Dispute { value_transfer: i128::MAX },
        Call::Dispute { value_transfer: i128::MIN },
        Call::CoopWithdraw { value_transfer: 5, withdraw_a: 0, withdraw_b: u128::MAX },
        Call::CoopWithdraw { value_transfer: -5, withdraw_a: 1100, withdraw_b: 900 },
    ];
    for call in calls {
        assert_eq!(decode_call(&call.encode()), Some(call));
    }
}

#[test]
fn decode_refuses_what_is_no_known_call() {
    assert_eq!(decode_call(&vec![]), None);
    assert_eq!(decode_call(&vec![0xa5, 0x86, 0x6b]), None);
    // known selector, no arguments
    assert_eq!(decode_call(&vec![0xa5, 0x86, 0x6b, 0x94]), None);
    // known selector, arguments cut short
    let mut short = Call::CoopWithdraw { value_transfer: 1, withdraw_a: 2, withdraw_b: 3 }.encode();
    short.truncate(4 + 64 + 31);
    assert_eq!(decode_call(&short), None);
    // another selector
    let mut other = Call::Dispute { value_transfer: 1 }.encode();
    other[0] = 0xa6;
    assert_eq!(decode_call(&other), None);
}

#[test]
fn decode_reads_the_low_half_and_ignores_what_follows() {
    let mut data = vec![0xa5u8, 0x86, 0x6b, 0x94];
    let mut w = vec![0xabu8; 16];
    w.extend(vec![0u8; 15]);
    w.push(42);
    data.extend(w);
    data.extend(vec![1u8, 2, 3]);
    assert_eq!(decode_call(&data), Some(Call::Dispute { value_transfer: 42 }));
}

#[test]
fn calls_from_decoded_values() {
    let int = AbiValue::Int(U256::from_i128(-3));
    let a = AbiValue::Uint(U256::from_u128(10));
    let b = AbiValue::Uint(U256::from_u128(20));
    assert_eq!(
        dispute_from_values(Some(vec![int.clone()])),
        Some(Call::Dispute { value_transfer: -3 })
    );
    assert_eq!(dispute_from_values(None), None);
    assert_eq!(dispute_from_values(Some(vec![])), None);
    assert_eq!(dispute_from_values(Some(vec![a.clone()])), None);
    assert_eq!(dispute_from_values(Some(vec![int.clone(), int.clone()])), None);
    assert_eq!(
        coop_withdraw_from_values(Some(vec![int.clone(), a.clone(), b.clone()])),
        Some(Call::CoopWithdraw { value_transfer: -3, withdraw_a: 10, withdraw_b: 20 })
    );
    assert_eq!(coop_withdraw_from_values(Some(vec![a.clone(), a.clone(), b.clone()])), None);
    assert_eq!(coop_withdraw_from_values(Some(vec![int.clone(), a.clone()])), None);
    assert_eq!(coop_withdraw_from_values(None), None);
}

fn sample_operation() -> Operation {
    Operation::build(
        Address::from_bytes([0x42; 20]),
        U256::from_u64(3),
        vec![1, 2, 3],
        Call::Dispute { value_transfer: -100 }.encode(),
        200000,
        vec![],
    )
}

#[test]
fn built_operation_holds_the_constants() {
    let op = sample_operation();
    assert_eq!(op.call_gas_limit, U256::from_u64(200000));
    assert_eq!(op.verification_gas_limit, U256::from_u64(1500000));
    assert_eq!(op.pre_verification_gas, U256::from_u64(200000));
    assert_eq!(op.max_fee_per_gas, U256::from_u64(100_000_000));
    assert_eq!(op.max_priority_fee_per_gas, U256::from_u64(100_000_000));
    assert!(op.paymaster_and_data.is_empty());
    assert!(op.has_fixed_fees());
    assert!(op.has_call_gas_limit(200000));
    assert!(!op.has_call_gas_limit(200001));
    assert_eq!(op.clone(), op);
}

#[test]
fn fixed_fees_are_checked_field_by_field() {
    let mut op = sample_operation();
    op.paymaster_and_data = vec![0];
    assert!(!op.has_fixed_fees());
    let mut op = sample_operation();
    op.max_priority_fee_per_gas = U256::from_u64(100_000_001);
    assert!(!op.has_fixed_fees());
    let mut op = sample_operation();
    op.max_fee_per_gas = U256::from_u64(1);
    assert!(!op.has_fixed_fees());
    let mut op = sample_operation();
    op.pre_verification_gas = U256::from_u64(0);
    assert!(!op.has_fixed_fees());
    let mut op = sample_operation();
    op.verification_gas_limit = U256::from_limbs([1500000, 0, 0, 1]);
    assert!(!op.has_fixed_fees());
    // the call gas limit is judged with the call, not here
    let mut op = sample_operation();
    op.call_gas_limit = U256::from_u64(1);
    assert!(op.has_fixed_fees());
}

fn ethers_word(w: U256) -> Token {
    Token::Uint(ethers::types::U256(w.limbs))
}

#[test]
fn operation_hash_packs_digests_and_binds_entry_point_and_chain() {
    let op = sample_operation();
    let entry_point = Address::from_bytes([0x5f; 20]);
    let chain_id = U256::from_u64(5);
    let packed = ethers::abi::encode(&[
        Token::Address(ethers::types::H160(op.sender.to_bytes())),
        ethers_word(op.nonce),
        Token::FixedBytes(ethers::utils::keccak256(&op.init_code).to_vec()),
        Token::FixedBytes(ethers::utils::keccak256(&op.call_data).to_vec()),
        ethers_word(op.call_gas_limit),
        ethers_word(op.verification_gas_limit),
        ethers_word(op.pre_verification_gas),
        ethers_word(op.max_fee_per_gas),
        ethers_word(op.max_priority_fee_per_gas),
        Token::FixedBytes(ethers::utils::keccak256(&op.paymaster_and_data).to_vec()),
    ]);
    assert_eq!(op.packed(), packed);
    assert_eq!(packed.len(), 320);
    let bound = ethers::abi::encode(&[
        Token::FixedBytes(ethers::utils::keccak256(&packed).to_vec()),
        Token::Address(ethers::types::H160([0x5f; 20])),
        Token::Uint(ethers::types::U256::from(5)),
    ]);
    assert_eq!(op.hash(&entry_point, &chain_id), ethers::utils::keccak256(&bound));
}

#[test]
fn operation_hash_ignores_the_signature_only() {
    let entry_point = Address::from_bytes([0x5f; 20]);
    let chain_id = U256::from_u64(5);
    let op = sample_operation();
    let digest = op.hash(&entry_point, &chain_id);
    let mut signed = sample_operation();
    signed.signature = vec![1, 2, 3];
    assert_eq!(signed.hash(&entry_point, &chain_id), digest);
    let mut renumbered = sample_operation();
    renumbered.nonce = U256::from_u64(4);
    assert_ne!(renumbered.hash(&entry_point, &chain_id), digest);
    assert_ne!(op.hash(&entry_point, &U256::from_u64(1)), digest);
    assert_ne!(op.hash(&Address::from_bytes([0x60; 20]), &chain_id), digest);
}

#[test]
fn queries_are_selector_and_arguments() {
    assert_eq!(Query::BalanceA.encode(), ethers::utils::id("balanceA()").to_vec());
    assert_eq!(Query::BalanceB.encode(), ethers::utils::id("balanceB()").to_vec());
    assert_eq!(Query::DisputeTimestamp.encode(), ethers::utils::id("disputeTimestamp()").to_vec());
    assert_eq!(Query::DisputeValue.encode(), ethers::utils::id("disputeValue()").to_vec());
    assert_eq!(
        Query::DisputeStartNonce.encode(),
        ethers::utils::id("disputeStartNonce()").to_vec()
    );
    let query = Query::AccountAddress {
        party_a: Address::from_bytes([0x11; 20]),
        party_b: Address::from_bytes([0x22; 20]),
        salt: U256::from_u64(5),
    };
    let mut expected = ethers::utils::id("getAddress(address,address,uint256)").to_vec();
    assert_eq!(expected, vec![0x08u8, 0xa6, 0x35, 0x4e]);
    expected.extend(vec![0u8; 12]);
    expected.extend(vec![0x11u8; 20]);
    expected.extend(vec![0u8; 12]);
    expected.extend(vec![0x22u8; 20]);
    expected.extend(word(5));
    assert_eq!(query.encode(), expected);
}

#[test]
fn answers_are_read_from_one_word() {
    assert_eq!(answer_u128(&word(7)), Some(7));
    assert_eq!(answer_u64(&word(7)), Some(7));
    assert_eq!(answer_i128(&word(7)), Some(7));
    assert_eq!(answer_i128(&vec![0xffu8; 32]), Some(-1));
    assert_eq!(answer_u128(&vec![0xffu8; 32]), Some(u128::MAX));
    assert_eq!(answer_u64(&vec![0xffu8; 32]), Some(u64::MAX));
    let mut padded = vec![0u8; 12];
    padded.extend(vec![0x33u8; 20]);
    assert_eq!(answer_address(&padded), Some(Address::from_bytes([0x33; 20])));
    // what is too short is no answer
    assert_eq!(answer_u128(&vec![]), None);
    assert_eq!(answer_u64(&vec![0u8; 31]), None);
    assert_eq!(answer_i128(&vec![0u8; 31]), None);
    assert_eq!(answer_address(&vec![0u8; 20]), None);
}

#[test]
fn answers_are_big_endian_words() {
    let mut bytes = vec![0u8; 32];
    for i in 0..32 {
        bytes[i] = i as u8 + 1;
    }
    assert_eq!(answer_u128(&bytes), Some(0x1112131415161718191a1b1c1d1e1f20));
    assert_eq!(answer_u64(&bytes), Some(0x191a1b1c1d1e1f20));
    assert_eq!(answer_i128(&bytes), Some(0x1112131415161718191a1b1c1d1e1f20));
    let mut last = [0u8; 20];
    last.copy_from_slice(&bytes[12..]);
    assert_eq!(answer_address(&bytes), Some(Address::from_bytes(last)));
    // what follows the word is ignored
    bytes.extend(vec![0xeeu8; 7]);
    assert_eq!(answer_u64(&bytes), Some(0x191a1b1c1d1e1f20));
}

#[test]
fn decode_reads_the_words_in_order() {
    let mut data = vec![0x9au8, 0x86, 0x74, 0x69];
    data.extend(vec![0xffu8; 32]);
    data.extend(word(7));
    data.extend(word(9));
    assert_eq!(
        decode_call(&data),
        Some(Call::CoopWithdraw { value_transfer: -1, withdraw_a: 7, withdraw_b: 9 })
    );
    data.pop();
    assert_eq!(decode_call(&data), None);
}
