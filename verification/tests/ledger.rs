use ch4nn337_lib::ledger::{balances, dispute_info, sorted};
use ch4nn337_lib::{Account, DisputeInfo, DisputeReading, Error, Party, U256};

#[test]
fn holdings_of_a_deployed_account() {
    let account = Account::Deployed { balance_a: 7, balance_b: 9 };
    assert_eq!(account.on_chain_a(), 7);
    assert_eq!(account.on_chain_b(), 9);
}

#[test]
fn holdings_of_an_undeployed_account_are_all_on_a_side() {
    let account = Account::Undeployed { balance: U256::from_u128(1234) };
    assert_eq!(account.on_chain_a(), 1234);
    assert_eq!(account.on_chain_b(), 0);
    // only the low 128 bits of the native balance count
    let large = Account::Undeployed { balance: U256::from_limbs([5, 6, 7, 8]) };
    assert_eq!(large.on_chain_a(), 5u128 + (6u128 << 64));
    assert_eq!(large.on_chain_b(), 0);
}

#[test]
fn balances_shift_by_the_net_transfer_value() {
    assert_eq!(balances(1000, 1000, 0), Ok((1000, 1000)));
    assert_eq!(balances(1000, 1000, 100), Ok((900, 1100)));
    assert_eq!(balances(1000, 1000, -100), Ok((1100, 900)));
    assert_eq!(balances(100, 0, 100), Ok((0, 100)));
    assert_eq!(balances(0, 100, -100), Ok((100, 0)));
    assert_eq!(balances(u128::MAX, 0, i128::MAX), Ok((u128::MAX - (i128::MAX as u128), i128::MAX as u128)));
    assert_eq!(balances(0, 1u128 << 127, i128::MIN), Ok((1u128 << 127, 0)));
}

#[test]
fn balances_keep_the_total() {
    for (a, b, v) in [(1000u128, 1000u128, 100i128), (5, 7, -7), (0, 0, 0), (u128::MAX - 1, 0, 1)] {
        let (x, y) = balances(a, b, v).unwrap();
        assert_eq!(x.checked_add(y), a.checked_add(b));
    }
}

#[test]
fn balances_that_do_not_cover_the_shift_are_insufficient() {
    assert_eq!(balances(99, 1000, 100), Err(Error::InsufficientBalance));
    assert_eq!(balances(1000, 99, -100), Err(Error::InsufficientBalance));
    assert_eq!(balances(0, 0, i128::MIN), Err(Error::InsufficientBalance));
    // insufficient comes before out of range
    assert_eq!(balances(0, u128::MAX, 1), Err(Error::InsufficientBalance));
}

#[test]
fn balances_above_128_bits_are_out_of_range() {
    assert_eq!(balances(1, u128::MAX, 1), Err(Error::AmountOutOfRange));
    assert_eq!(balances(u128::MAX, 1, -1), Err(Error::AmountOutOfRange));
}

#[test]
fn sorted_puts_own_balance_first() {
    assert_eq!(sorted(Party::A, (1, 2)), (1, 2));
    assert_eq!(sorted(Party::B, (1, 2)), (2, 1));
}

fn reading(timeout: u64, value: i128, balance_a: u128, balance_b: u128) -> DisputeReading {
    DisputeReading { timeout, value, start_nonce: 4, balance_a, balance_b }
}

#[test]
fn no_dispute_without_deployment_or_timeout() {
    assert_eq!(dispute_info(Party::A, None), Ok(None));
    assert_eq!(dispute_info(Party::A, Some(reading(0, 5, 10, 10))), Ok(None));
    // nothing is computed while no dispute is open
    assert_eq!(dispute_info(Party::B, Some(reading(0, i128::MIN, u128::MAX, u128::MAX))), Ok(None));
}

#[test]
fn dispute_balances_are_role_relative() {
    let seen = reading(1700000000, 30, 100, 50);
    assert_eq!(
        dispute_info(Party::A, Some(seen)),
        Ok(Some(DisputeInfo {
            nonce: 4,
            timeout: 1700000000,
            withdrawal_ours: 70,
            withdrawal_theirs: 80,
        }))
    );
    assert_eq!(
        dispute_info(Party::B, Some(seen)),
        Ok(Some(DisputeInfo {
            nonce: 4,
            timeout: 1700000000,
            withdrawal_ours: 80,
            withdrawal_theirs: 70,
        }))
    );
}

#[test]
fn dispute_balances_may_be_negative() {
    let seen = reading(1, 30, 10, 50);
    assert_eq!(
        dispute_info(Party::A, Some(seen)),
        Ok(Some(DisputeInfo { nonce: 4, timeout: 1, withdrawal_ours: -20, withdrawal_theirs: 80 }))
    );
    let seen = reading(1, -30, 10, 20);
    assert_eq!(
        dispute_info(Party::A, Some(seen)),
        Ok(Some(DisputeInfo { nonce: 4, timeout: 1, withdrawal_ours: 40, withdrawal_theirs: -10 }))
    );
}

#[test]
fn dispute_balances_at_the_edges() {
    let top = i128::MAX as u128;
    assert_eq!(
        dispute_info(Party::A, Some(reading(1, 0, top, top))),
        Ok(Some(DisputeInfo {
            nonce: 4,
            timeout: 1,
            withdrawal_ours: i128::MAX,
            withdrawal_theirs: i128::MAX,
        }))
    );
    assert_eq!(
        dispute_info(Party::A, Some(reading(1, 1, top + 1, 0))),
        Ok(Some(DisputeInfo {
            nonce: 4,
            timeout: 1,
            withdrawal_ours: i128::MAX,
            withdrawal_theirs: 1,
        }))
    );
    assert_eq!(
        dispute_info(Party::A, Some(reading(1, -1, 0, top + 1))),
        Ok(Some(DisputeInfo {
            nonce: 4,
            timeout: 1,
            withdrawal_ours: 1,
            withdrawal_theirs: i128::MAX,
        }))
    );
    assert_eq!(dispute_info(Party::A, Some(reading(1, 0, top + 1, 0))), Err(Error::AmountOutOfRange));
    assert_eq!(dispute_info(Party::A, Some(reading(1, 0, 0, top + 1))), Err(Error::AmountOutOfRange));
    assert_eq!(dispute_info(Party::A, Some(reading(1, -1, top, 0))), Err(Error::AmountOutOfRange));
    assert_eq!(dispute_info(Party::A, Some(reading(1, 1, 0, top))), Err(Error::AmountOutOfRange));
    assert_eq!(dispute_info(Party::B, Some(reading(1, i128::MIN, 0, 0))), Err(Error::AmountOutOfRange));
}

#[test]
fn errors_describe_themselves() {
    assert_eq!(Error::InsufficientBalance.describe(), "insufficient balance");
    assert_eq!(Error::AlreadyWaiting.describe(), "already awaiting a signature");
    assert_eq!(Error::IllegalSender.describe(), "illegal sender");
    assert_eq!(Error::IllegalNonce.describe(), "illegal nonce");
    assert_eq!(Error::IllegalInitcode.describe(), "illegal initcode");
    assert_eq!(Error::IllegalConstant.describe(), "illegal constant");
    assert_eq!(Error::IllegalCalldata.describe(), "illegal calldata");
    assert_eq!(Error::IllegalValueTransfer.describe(), "illegal value transfer");
    assert_eq!(Error::IllegalSignature.describe(), "illegal signature");
    assert_eq!(Error::AmountOutOfRange.describe(), "amount out of range");
    assert_eq!(Error::IntegrityViolation.describe(), "integrity violation");
}
