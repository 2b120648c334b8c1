use ch4nn337_lib::{
    Account, Address, Call, Channel, Identities, Message, TransferMessage, WithdrawalMessage, U256,
};

fn key(last: u8) -> Vec<u8> {
    let mut k = vec![0u8; 32];
    k[31] = last;
    k
}

#[test]
fn end_to_end_transfer_then_full_withdrawal() {
    let salt = U256::from_limbs([1, 2, 3, 4]);
    let factory = Address::from_bytes([0xfa; 20]);
    let entry_point = Address::from_bytes([0xee; 20]);
    let identities = Identities::from_keys(key(3), key(4), salt).unwrap();
    // what the factory would answer for these identities
    let derived = Address::from_bytes([0xcc; 20]);
    let (mut a, mut b) = Channel::open(U256::from_u64(5), entry_point, factory, identities, derived);
    assert_eq!(a.address(), b.address());
    assert_eq!(a.init_code(), b.init_code());

    let chain = Account::Deployed { balance_a: 1000, balance_b: 1000 };

    // A asks 100 units of B
    let op = a.request_transfer(100, &chain).unwrap();
    let received = b.receive_message(op.clone(), &chain).unwrap();
    assert_eq!(
        received,
        Message::Transfer(TransferMessage { userop: op, value_transfer: -100 })
    );
    let answer = b.sign_message(received).unwrap();
    // a transfer stays between the parties
    assert!(!answer.submit);
    assert_eq!(b.messages().len(), 1);

    // A commits its own proposal once it is answered, and is idle again
    let own = a.pending_message().unwrap().clone();
    assert!(!a.sign_message(own).unwrap().submit);
    assert!(a.pending_message().is_none());

    // both see the shift of 100 units, and the total is what the chain holds
    assert_eq!(a.get_balances(&chain), Ok((1100, 900)));
    assert_eq!(b.get_balances(&chain), Ok((1100, 900)));
    assert_eq!(a.get_sorted_balances(&chain), Ok((1100, 900)));
    assert_eq!(b.get_sorted_balances(&chain), Ok((900, 1100)));

    // A asks for the full withdrawal
    let op = a.request_full_withdraw(&chain).unwrap();
    assert_eq!(op.nonce, U256::from_u64(1));
    assert_eq!(
        ch4nn337_lib::calls::decode_call(&op.call_data),
        Some(Call::CoopWithdraw { value_transfer: -100, withdraw_a: 1100, withdraw_b: 900 })
    );
    let received = b.receive_message(op.clone(), &chain).unwrap();
    assert_eq!(
        received,
        Message::Withdrawal(WithdrawalMessage { userop: op, withdraw_us: 900, withdraw_them: 1100 })
    );
    let answer = b.sign_message(received).unwrap();
    // a withdrawal is sent to the network, once: the message is now history
    assert!(answer.submit);
    assert!(b.pending_message().is_none());
    assert_eq!(b.messages().len(), 2);
    assert_eq!(b.next_incoming_nonce(), U256::from_u64(2));
    assert_eq!(b.get_value_transfer(), 0);
    let replay = b.receive_message(answer.operation, &chain);
    assert!(replay.is_err());
}
