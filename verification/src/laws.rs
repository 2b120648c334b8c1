//! What holds of every channel, stated over the models that the functions'
//! contracts speak of.

use crate::abi::{AbiTerm, MAX_BYTES};
use crate::calls::{spec_decode_call, Call};
use crate::channel::{cosigned_pair, lemma_next_nonce_counts, ChannelView};
use crate::error::Error;
use crate::keys::spec_recover;
use crate::ledger::{spec_sorted, Account};
use crate::message::MessageView;
use crate::operation::{OperationView, CALL_GAS_LIMIT_COOP, CALL_GAS_LIMIT_DISPUTE};
use crate::primitives::Party;
use vstd::prelude::*;

verus! {

/// The two instances of a channel name each other: the counterparty of each
/// is the own address of the other, and of the two addresses A's is the
/// same for both, as is B's.
pub proof fn lemma_peers_agree_on_parties(a: ChannelView, b: ChannelView)
    requires
        a.peers(b),
    ensures
        b.peers(a),
        a.address == b.address,
        a.counterparty == b.our_address(),
        b.counterparty == a.our_address(),
        a.party_a() == b.party_a(),
        a.party_b() == b.party_b(),
{
}

/// The two instances of a channel compute the same deployment prefix, byte
/// for byte.
pub proof fn lemma_peers_agree_on_init_code(a: ChannelView, b: ChannelView)
    requires
        a.peers(b),
    ensures
        a.init_code() == b.init_code(),
{
    lemma_peers_agree_on_parties(a, b);
}

/// The next nonce is zero for an empty history, counts the committed
/// messages, and grows by exactly one with each message that is committed.
pub proof fn lemma_nonce_grows_by_one(c: ChannelView, message: MessageView, own: Option<Seq<u8>>)
    requires
        c.well_formed(),
    ensures
        c.messages.len() == 0 ==> c.next_nonce() == 0,
        c.next_nonce() == c.messages.len(),
        c.countersigned(message, own) matches Ok(m) ==> {
            &&& m.operation().nonce == c.next_nonce()
            &&& c.committed(m).well_formed()
            &&& c.committed(m).next_nonce() == c.next_nonce() + 1
        },
        c.sign(message) matches Ok(m) ==> c.committed(m).next_nonce() == c.next_nonce() + 1,
{
    lemma_next_nonce_counts(c);
    if let Ok(m) = c.countersigned(message, own) {
        let after = c.committed(m);
        assert(after.numbered());
        lemma_next_nonce_counts(after);
    }
    if let Ok(m) = c.sign(message) {
        let after = c.committed(m);
        assert(after.numbered());
        lemma_next_nonce_counts(after);
    }
}

/// Counter-signing and committing leaves the instance idle: the message is
/// the last of the history, nothing is pending, and the next request is not
/// refused for waiting. A transfer is committed without being handed to the
/// network; a withdrawal is committed and settles on the chain.
pub proof fn lemma_committing_leaves_idle(
    c: ChannelView,
    message: MessageView,
    own: Option<Seq<u8>>,
    wei: nat,
    account: Account,
)
    ensures
        c.countersigned(message, own) matches Ok(m) ==> {
            &&& c.committed(m).pending_message is None
            &&& c.committed(m).messages == c.messages.push(m)
            &&& c.committed(m).messages.last() == m
            &&& m.settles() == message.settles()
            &&& (message is Transfer ==> !m.settles())
            &&& (message is Withdrawal ==> m.settles())
            &&& c.committed(m).transfer_plan(wei, account) != Err::<Call, Error>(
                Error::AlreadyWaiting,
            )
            &&& c.committed(m).withdrawal_plan(account) != Err::<Call, Error>(
                Error::AlreadyWaiting,
            )
        },
        c.sign(message) matches Ok(m) ==> {
            &&& c.committed(m).pending_message is None
            &&& m.settles() == message.settles()
        },
{
}

/// A message is committed exactly where it carries the next nonce, the own
/// key gives a signature, and neither signature is overlong.
pub proof fn lemma_commit_succeeds(c: ChannelView, message: MessageView, own: Option<Seq<u8>>)
    ensures
        c.countersigned(message, own) is Ok <==> {
            &&& message.operation().nonce == c.next_nonce()
            &&& own matches Some(s)
            &&& s.len() <= MAX_BYTES
            &&& message.operation().signature.len() <= MAX_BYTES
        },
{
}

/// Balances are conserved. With no outstanding transfer they are what the
/// chain holds; an outstanding net transfer value `v` moves exactly `v` from
/// A's side to B's and leaves the total as it was. A proposal that is only
/// pending moves nothing.
pub proof fn lemma_balances_conserved(
    c: ChannelView,
    account: Account,
    pending: Option<MessageView>,
)
    ensures
        c.balances(account) matches Ok(pair) ==> {
            &&& pair.0 + pair.1 == account.held_a() + account.held_b()
            &&& pair.0 == account.held_a() - c.value_transfer()
            &&& pair.1 == account.held_b() + c.value_transfer()
        },
        c.value_transfer() == 0 && account.held_a() <= u128::MAX && account.held_b() <= u128::MAX
            ==> c.balances(account) == Ok::<(u128, u128), Error>(
            (account.held_a() as u128, account.held_b() as u128),
        ),
        c.with_pending(pending).balances(account) == c.balances(account),
        c.sorted_balances(account) matches Ok(pair) ==> pair.0 + pair.1 == account.held_a()
            + account.held_b(),
{
}

/// A committed message decides the outstanding net transfer value: that of
/// a transfer, none after a withdrawal.
pub proof fn lemma_last_message_decides(c: ChannelView, m: MessageView)
    ensures
        c.with_committed(m).value_transfer() == m.outstanding(),
        m is Withdrawal ==> c.with_committed(m).value_transfer() == 0,
{
    let after = c.with_committed(m);
    assert(after.messages.last() == m);
}

/// What `receive_message` refuses, check by check, each for an operation
/// that passed the checks before it; and what it accepts.
pub proof fn lemma_receive_rejects(c: ChannelView, userop: OperationView, account: Account)
    ensures
        userop.sender != c.address ==> c.receive(userop, account) == Err::<MessageView, Error>(
            Error::IllegalSender,
        ),
        userop.sender == c.address && userop.nonce != c.next_nonce() ==> c.receive(userop, account)
            == Err::<MessageView, Error>(Error::IllegalNonce),
        userop.sender == c.address && userop.nonce == c.next_nonce() && userop.init_code
            != c.init_code() ==> c.receive(userop, account) == Err::<MessageView, Error>(
            Error::IllegalInitcode,
        ),
        userop.sender == c.address && userop.nonce == c.next_nonce() && userop.init_code
            == c.init_code() && !userop.has_fixed_fees() ==> c.receive(userop, account) == Err::<
            MessageView,
            Error,
        >(Error::IllegalConstant),
        c.passes_header(userop) && spec_recover(userop.signature, c.digest(userop)) != Some(
            c.counterparty,
        ) ==> c.receive(userop, account) == Err::<MessageView, Error>(Error::IllegalSignature),
        c.passes_header(userop) && spec_recover(userop.signature, c.digest(userop)) == Some(
            c.counterparty,
        ) && spec_decode_call(userop.call_data) is None ==> c.receive(userop, account) == Err::<
            MessageView,
            Error,
        >(Error::IllegalCalldata),
        c.receive(userop, account) is Ok ==> {
            &&& c.passes_header(userop)
            &&& spec_recover(userop.signature, c.digest(userop)) == Some(c.counterparty)
            &&& spec_decode_call(userop.call_data) is Some
            &&& c.receive(userop, account)->Ok_0.operation() == userop
        },
        c.receive(userop, account) matches Ok(MessageView::Withdrawal {
            withdraw_us,
            withdraw_them,
            ..
        }) ==> {
            &&& spec_decode_call(userop.call_data) matches Some(
                Call::CoopWithdraw { value_transfer, withdraw_a, withdraw_b },
            )
            &&& userop.call_gas_limit == CALL_GAS_LIMIT_COOP
            &&& value_transfer == c.value_transfer()
            &&& c.balances(account) matches Ok(pair)
            &&& withdraw_a <= pair.0
            &&& withdraw_b <= pair.1
            &&& withdraw_us == spec_sorted(c.us, (withdraw_a, withdraw_b)).0
            &&& withdraw_them == spec_sorted(c.us, (withdraw_a, withdraw_b)).1
        },
        c.receive(userop, account) matches Ok(MessageView::Transfer { value_transfer, .. }) ==> {
            &&& spec_decode_call(userop.call_data) == Some(
                Call::Dispute { value_transfer: value_transfer as i128 },
            )
            &&& userop.call_gas_limit == CALL_GAS_LIMIT_DISPUTE
        },
{
}

/// What `request_transfer` refuses: any request while a proposal is pending,
/// and, with nothing pending, an amount of zero and an amount above the
/// counterparty's balance.
pub proof fn lemma_request_transfer_rejects(c: ChannelView, wei: nat, account: Account)
    ensures
        c.pending_message is Some ==> c.request(c.transfer_plan(wei, account)) == Err::<
            MessageView,
            Error,
        >(Error::AlreadyWaiting),
        c.pending_message is None && wei == 0 ==> c.request(c.transfer_plan(wei, account)) == Err::<
            MessageView,
            Error,
        >(Error::AmountOutOfRange),
        c.pending_message is None && (c.sorted_balances(account) matches Ok(pair) && pair.1 < wei)
            ==> c.request(c.transfer_plan(wei, account)) == Err::<MessageView, Error>(
            Error::InsufficientBalance,
        ),
        c.pending_message is Some ==> c.request(c.withdrawal_plan(account)) == Err::<
            MessageView,
            Error,
        >(Error::AlreadyWaiting),
        c.request(c.transfer_plan(wei, account)) matches Ok(m) ==> {
            &&& c.pending_message is None
            &&& wei > 0
            &&& c.sorted_balances(account) matches Ok(pair)
            &&& pair.1 >= wei
            &&& m == (MessageView::Transfer {
                userop: m.operation(),
                value_transfer: c.next_transfer(wei),
            })
            &&& m.operation().nonce == c.next_nonce()
            &&& m.operation().sender == c.address
            &&& m.operation().init_code == c.init_code()
            &&& m.operation().has_fixed_fees()
        },
{
}

/// In the coded pair of signatures A's comes first and B's second, whichever
/// of the two parties puts the pair together.
pub proof fn lemma_cosigning_keeps_order(signature_a: Seq<u8>, signature_b: Seq<u8>)
    ensures
        cosigned_pair(Party::A, signature_a, signature_b) == cosigned_pair(
            Party::B,
            signature_b,
            signature_a,
        ),
        cosigned_pair(Party::A, signature_a, signature_b) == seq![
            AbiTerm::Bytes(signature_a),
            AbiTerm::Bytes(signature_b),
        ],
{
}

/// Two peers that commit the same message, each with its own signature next
/// to the other's, hand out the same signature bytes.
pub proof fn lemma_peers_cosign_alike(
    a: ChannelView,
    b: ChannelView,
    userop: OperationView,
    signature_a: Seq<u8>,
    signature_b: Seq<u8>,
    message: MessageView,
)
    requires
        a.us == Party::A,
        b.us == Party::B,
        a.next_nonce() == b.next_nonce(),
    ensures
        a.countersigned(
            message.with_operation(userop.with_signature(signature_b)),
            Some(signature_a),
        ) matches Ok(x) ==> (b.countersigned(
            message.with_operation(userop.with_signature(signature_a)),
            Some(signature_b),
        ) matches Ok(y) && x.operation().signature == y.operation().signature),
{
    lemma_cosigning_keeps_order(signature_a, signature_b);
}

} // verus!
