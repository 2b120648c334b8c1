//! The channel: one party's view of the two-party account, its history of
//! committed messages and its single pending proposal.

use crate::abi::{abi_encode, spec_abi_encode, terms, AbiTerm, AbiValue, MAX_BYTES};
use crate::bytes::{append_bytes, bytes_equal, copy_bytes};
use crate::calls::{create_account_encoding, decode_call, encode_create_account, spec_decode_call, Call};
use crate::error::Error;
use crate::keys::{
    key_address, random_bytes, recover_signer, sign_digest, spec_key_address, spec_recover,
    spec_sign,
};
use crate::ledger::{
    balances, dispute_info, sorted, spec_balances, spec_dispute_info, spec_sorted, Account,
    DisputeInfo, DisputeReading,
};
use crate::message::{Message, MessageView, TransferMessage, WithdrawalMessage};
use crate::operation::{
    Operation, OperationView, CALL_GAS_LIMIT_COOP, CALL_GAS_LIMIT_DISPUTE,
};
use crate::primitives::{Address, Party, U256};
use vstd::prelude::*;

verus! {

/// What a list of messages stands for.
pub open spec fn messages_view(messages: Seq<Message>) -> Seq<MessageView> {
    Seq::new(messages.len(), |i: int| messages[i]@)
}

/// What an optional message stands for.
pub open spec fn pending_view(pending: Option<Message>) -> Option<MessageView> {
    match pending {
        Some(m) => Some(m@),
        None => None,
    }
}

/// The signatures of both parties in the order in which the account reads
/// them: that of party A first, whoever puts them together.
pub open spec fn cosigned_pair(us: Party, own: Seq<u8>, theirs: Seq<u8>) -> Seq<AbiTerm> {
    match us {
        Party::A => seq![AbiTerm::Bytes(own), AbiTerm::Bytes(theirs)],
        Party::B => seq![AbiTerm::Bytes(theirs), AbiTerm::Bytes(own)],
    }
}

/// The call gas limit that the protocol fixes for a call.
pub open spec fn call_gas_limit(call: Call) -> nat {
    match call {
        Call::Dispute { .. } => CALL_GAS_LIMIT_DISPUTE as nat,
        Call::CoopWithdraw { .. } => CALL_GAS_LIMIT_COOP as nat,
    }
}

/// Whether the messages carry the nonces 0, 1, 2, ... in this order.
pub open spec fn numbered(messages: Seq<MessageView>) -> bool {
    forall|i: int| 0 <= i < messages.len() ==> (#[trigger] messages[i]).operation().nonce == i
}

/// What a [`Channel`] stands for.
pub struct ChannelView {
    pub chain_id: nat,
    pub entry_point: Seq<u8>,
    pub factory: Seq<u8>,
    pub address: Seq<u8>,
    pub us: Party,
    pub key: Seq<u8>,
    pub counterparty: Seq<u8>,
    pub salt: nat,
    pub messages: Seq<MessageView>,
    pub pending_message: Option<MessageView>,
}

impl ChannelView {
    /// The committed messages carry the nonces 0, 1, 2, ... in this order.
    pub open spec fn numbered(self) -> bool {
        numbered(self.messages)
    }

    /// What holds of every channel: its key is a private key, and its
    /// history is numbered.
    pub open spec fn well_formed(self) -> bool {
        &&& spec_key_address(self.key) is Some
        &&& self.numbered()
    }

    /// The address of this party, which its key determines.
    pub open spec fn our_address(self) -> Seq<u8> {
        spec_key_address(self.key)->Some_0
    }

    /// The address of party A.
    pub open spec fn party_a(self) -> Seq<u8> {
        match self.us {
            Party::A => self.our_address(),
            Party::B => self.counterparty,
        }
    }

    /// The address of party B.
    pub open spec fn party_b(self) -> Seq<u8> {
        match self.us {
            Party::A => self.counterparty,
            Party::B => self.our_address(),
        }
    }

    /// The deployment prefix of the channel account: the factory's address,
    /// then the factory call that creates the account of A and B.
    pub open spec fn init_code(self) -> Seq<u8> {
        self.factory + create_account_encoding(self.party_a(), self.party_b(), self.salt)
    }

    /// The net transfer value agreed on and not yet withdrawn: that of the
    /// last committed message.
    pub open spec fn value_transfer(self) -> int {
        if self.messages.len() == 0 {
            0
        } else {
            self.messages.last().outstanding()
        }
    }

    /// The nonce of the last committed message, zero where there is none.
    pub open spec fn last_nonce(self) -> nat {
        if self.messages.len() == 0 {
            0
        } else {
            self.messages.last().operation().nonce
        }
    }

    /// The nonce of the next message, proposed or accepted: one more than
    /// the last, zero for an empty history.
    pub open spec fn next_nonce(self) -> nat {
        if self.messages.len() == 0 {
            0
        } else {
            self.last_nonce() + 1
        }
    }

    /// The balances of A and B that follow from what the chain holds.
    pub open spec fn balances(self, account: Account) -> Result<(u128, u128), Error> {
        spec_balances(account.held_a(), account.held_b(), self.value_transfer())
    }

    /// The same balances, own first.
    pub open spec fn sorted_balances(self, account: Account) -> Result<(u128, u128), Error> {
        match self.balances(account) {
            Ok(pair) => Ok(spec_sorted(self.us, pair)),
            Err(e) => Err(e),
        }
    }

    /// The net transfer value after this party has obtained `wei` from its
    /// counterparty: lower for A, higher for B.
    pub open spec fn next_transfer(self, wei: nat) -> int {
        match self.us {
            Party::A => self.value_transfer() - wei,
            Party::B => self.value_transfer() + wei,
        }
    }

    /// The call by which this party asks `wei` of its counterparty, or why
    /// it cannot ask: nothing may be pending, an amount of zero asks
    /// nothing and is out of range, the counterparty's balance must cover
    /// the amount, and the new net transfer value must fit.
    pub open spec fn transfer_plan(self, wei: nat, account: Account) -> Result<Call, Error> {
        if self.pending_message is Some {
            Err(Error::AlreadyWaiting)
        } else if wei == 0 {
            Err(Error::AmountOutOfRange)
        } else {
            match self.sorted_balances(account) {
                Err(e) => Err(e),
                Ok(pair) => if pair.1 < wei {
                    Err(Error::InsufficientBalance)
                } else if self.next_transfer(wei) < i128::MIN || self.next_transfer(wei)
                    > i128::MAX {
                    Err(Error::AmountOutOfRange)
                } else {
                    Ok(Call::Dispute { value_transfer: self.next_transfer(wei) as i128 })
                },
            }
        }
    }

    /// The call by which this party asks to pay both balances out in full,
    /// or why it cannot ask.
    pub open spec fn withdrawal_plan(self, account: Account) -> Result<Call, Error> {
        if self.pending_message is Some {
            Err(Error::AlreadyWaiting)
        } else {
            match self.balances(account) {
                Err(e) => Err(e),
                Ok(pair) => Ok(
                    Call::CoopWithdraw {
                        value_transfer: self.value_transfer() as i128,
                        withdraw_a: pair.0,
                        withdraw_b: pair.1,
                    },
                ),
            }
        }
    }

    /// The next operation of the channel account for a call, with the given
    /// signature.
    pub open spec fn proposal(self, call: Call, signature: Seq<u8>) -> OperationView {
        OperationView::build(
            self.address,
            self.next_nonce(),
            self.init_code(),
            call.encoding(),
            call_gas_limit(call),
            signature,
        )
    }

    /// The message that an operation with a call makes for this party.
    pub open spec fn message_of(self, userop: OperationView, call: Call) -> MessageView {
        match call {
            Call::Dispute { value_transfer } => MessageView::Transfer {
                userop,
                value_transfer: value_transfer as int,
            },
            Call::CoopWithdraw { withdraw_a, withdraw_b, .. } => MessageView::Withdrawal {
                userop,
                withdraw_us: spec_sorted(self.us, (withdraw_a, withdraw_b)).0 as nat,
                withdraw_them: spec_sorted(self.us, (withdraw_a, withdraw_b)).1 as nat,
            },
        }
    }

    /// The digest of an operation that this channel's parties sign.
    pub open spec fn digest(self, userop: OperationView) -> Seq<u8> {
        userop.hash(self.entry_point, self.chain_id)
    }

    /// The message that this party proposes for a call, given what signing
    /// the unsigned proposal gave. A key that gives no signature cannot be
    /// relied on.
    pub open spec fn proposed(self, call: Call, signature: Option<Seq<u8>>) -> Result<
        MessageView,
        Error,
    > {
        match signature {
            None => Err(Error::IntegrityViolation),
            Some(s) => Ok(self.message_of(self.proposal(call, s), call)),
        }
    }

    /// The outcome of a request, from its plan: the message that becomes
    /// pending, or the refusal.
    pub open spec fn request(self, plan: Result<Call, Error>) -> Result<MessageView, Error> {
        match plan {
            Err(e) => Err(e),
            Ok(call) => self.proposed(
                call,
                spec_sign(self.key, self.digest(self.proposal(call, Seq::empty()))),
            ),
        }
    }

    /// The operation names the channel account as sender, carries the next
    /// nonce and the channel's deployment prefix, the protocol's fees and no
    /// paymaster.
    pub open spec fn passes_header(self, userop: OperationView) -> bool {
        &&& userop.sender == self.address
        &&& userop.nonce == self.next_nonce()
        &&& userop.init_code == self.init_code()
        &&& userop.has_fixed_fees()
    }

    /// The verdict on an operation proposed by the counterparty, given the
    /// address recovered from its signature and the call decoded from its
    /// payload. The first check that fails decides.
    pub open spec fn judge(
        self,
        userop: OperationView,
        account: Account,
        signer: Option<Seq<u8>>,
        call: Option<Call>,
    ) -> Result<MessageView, Error> {
        if userop.sender != self.address {
            Err(Error::IllegalSender)
        } else if userop.nonce != self.next_nonce() {
            Err(Error::IllegalNonce)
        } else if userop.init_code != self.init_code() {
            Err(Error::IllegalInitcode)
        } else if !userop.has_fixed_fees() {
            Err(Error::IllegalConstant)
        } else if signer != Some(self.counterparty) {
            Err(Error::IllegalSignature)
        } else {
            match call {
                None => Err(Error::IllegalCalldata),
                Some(Call::CoopWithdraw { value_transfer, withdraw_a, withdraw_b }) => {
                    if userop.call_gas_limit != CALL_GAS_LIMIT_COOP {
                        Err(Error::IllegalConstant)
                    } else if value_transfer != self.value_transfer() {
                        Err(Error::IllegalValueTransfer)
                    } else {
                        match self.balances(account) {
                            Err(e) => Err(e),
                            Ok(pair) => if withdraw_a > pair.0 || withdraw_b > pair.1 {
                                Err(Error::InsufficientBalance)
                            } else {
                                Ok(self.message_of(userop, call->Some_0))
                            },
                        }
                    }
                },
                Some(Call::Dispute { .. }) => {
                    if userop.call_gas_limit != CALL_GAS_LIMIT_DISPUTE {
                        Err(Error::IllegalConstant)
                    } else {
                        Ok(self.message_of(userop, call->Some_0))
                    }
                },
            }
        }
    }

    /// The verdict on an operation proposed by the counterparty.
    pub open spec fn receive(self, userop: OperationView, account: Account) -> Result<
        MessageView,
        Error,
    > {
        self.judge(
            userop,
            account,
            spec_recover(userop.signature, self.digest(userop)),
            spec_decode_call(userop.call_data),
        )
    }

    /// The message as it is committed, given what signing its operation
    /// gave: the operation's signature becomes the coded pair of both
    /// signatures, A's first. A message that does not carry the next nonce
    /// is refused; a key that gives no signature cannot be relied on; and
    /// what is longer than [`MAX_BYTES`] is no signature.
    pub open spec fn countersigned(self, message: MessageView, own: Option<Seq<u8>>) -> Result<
        MessageView,
        Error,
    > {
        if message.operation().nonce != self.next_nonce() {
            Err(Error::IllegalNonce)
        } else {
            match own {
                None => Err(Error::IntegrityViolation),
                Some(s) => if s.len() > MAX_BYTES || message.operation().signature.len()
                    > MAX_BYTES {
                    Err(Error::IllegalSignature)
                } else {
                    Ok(
                        message.with_operation(
                            message.operation().with_signature(
                                spec_abi_encode(
                                    cosigned_pair(self.us, s, message.operation().signature),
                                ),
                            ),
                        ),
                    )
                },
            }
        }
    }

    /// The message as this party commits it.
    pub open spec fn sign(self, message: MessageView) -> Result<MessageView, Error> {
        self.countersigned(message, spec_sign(self.key, self.digest(message.operation())))
    }

    /// The two views are the instances of one channel: the same account,
    /// contracts, chain and salt, opposite roles, and each names the other
    /// as its counterparty.
    pub open spec fn peers(self, other: ChannelView) -> bool {
        &&& self.chain_id == other.chain_id
        &&& self.entry_point == other.entry_point
        &&& self.factory == other.factory
        &&& self.address == other.address
        &&& self.salt == other.salt
        &&& self.us == other.us.spec_other()
        &&& self.counterparty == other.our_address()
        &&& other.counterparty == self.our_address()
    }

    /// The channel with another pending message.
    pub open spec fn with_pending(self, pending: Option<MessageView>) -> ChannelView {
        ChannelView { pending_message: pending, ..self }
    }

    /// The channel with one more committed message.
    pub open spec fn with_committed(self, message: MessageView) -> ChannelView {
        ChannelView { messages: self.messages.push(message), ..self }
    }

    /// The channel after a message was counter-signed and committed: the
    /// message is the last of the history, and nothing is pending.
    pub open spec fn committed(self, message: MessageView) -> ChannelView {
        self.with_committed(message).with_pending(None)
    }
}

/// What an optional address stands for.
pub open spec fn address_view(address: Option<Address>) -> Option<Seq<u8>> {
    match address {
        Some(a) => Some(a@),
        None => None,
    }
}

/// What optional bytes stand for.
pub open spec fn bytes_view(bytes: Option<Vec<u8>>) -> Option<Seq<u8>> {
    match bytes {
        Some(b) => Some(b@),
        None => None,
    }
}

/// The keys of both parties and the salt of a channel that is about to be
/// opened: all that its account address is derived from, besides the factory.
pub struct Identities {
    key_a: Vec<u8>,
    key_b: Vec<u8>,
    salt: U256,
}

/// What [`Identities`] stand for.
pub struct IdentitiesView {
    pub key_a: Seq<u8>,
    pub key_b: Seq<u8>,
    pub salt: nat,
}

impl IdentitiesView {
    /// Both keys are private keys.
    pub open spec fn well_formed(self) -> bool {
        &&& spec_key_address(self.key_a) is Some
        &&& spec_key_address(self.key_b) is Some
    }

    /// The address of party A.
    pub open spec fn party_a(self) -> Seq<u8> {
        spec_key_address(self.key_a)->Some_0
    }

    /// The address of party B.
    pub open spec fn party_b(self) -> Seq<u8> {
        spec_key_address(self.key_b)->Some_0
    }
}

impl View for Identities {
    type V = IdentitiesView;

    closed spec fn view(&self) -> IdentitiesView {
        IdentitiesView { key_a: self.key_a@, key_b: self.key_b@, salt: self.salt@ }
    }
}

/// The address of a key that is known to be one.
fn address_of(key: &Vec<u8>) -> (r: Address)
    requires
        spec_key_address(key@) is Some,
    ensures
        r@ == spec_key_address(key@)->Some_0,
{
    match key_address(key) {
        Some(a) => a,
        None => Address::from_bytes([0u8; 20]),
    }
}

impl Identities {
    #[verifier::type_invariant]
    spec fn inv(self) -> bool {
        self@.well_formed()
    }

    /// Two fresh random keys and a fresh random salt, each from 32 bytes of
    /// the system's random source. `None` where the system gives no random
    /// bytes, or where the bytes drawn for a key are none (about one draw
    /// in 2^128).
    pub fn generate() -> (r: Option<Identities>)
        ensures
            r matches Some(i) ==> i@.well_formed(),
    {
        let key_a = match random_bytes() {
            Some(bytes) => copy_bytes(bytes.as_slice()),
            None => {
                return None;
            },
        };
        let key_b = match random_bytes() {
            Some(bytes) => copy_bytes(bytes.as_slice()),
            None => {
                return None;
            },
        };
        let salt = match random_bytes() {
            Some(bytes) => U256::from_be_bytes(&bytes),
            None => {
                return None;
            },
        };
        Identities::from_keys(key_a, key_b, salt)
    }

    /// The identities with the given keys and salt, where both keys are
    /// private keys.
    pub fn from_keys(key_a: Vec<u8>, key_b: Vec<u8>, salt: U256) -> (r: Option<Identities>)
        ensures
            r is Some <==> (IdentitiesView { key_a: key_a@, key_b: key_b@, salt: salt@ }).well_formed(),
            r matches Some(i) ==> i@ == (IdentitiesView { key_a: key_a@, key_b: key_b@, salt: salt@ }),
    {
        if key_address(&key_a).is_none() || key_address(&key_b).is_none() {
            return None;
        }
        Some(Identities { key_a, key_b, salt })
    }

    /// The address of party A.
    pub fn party_a(&self) -> (r: Address)
        ensures
            self@.well_formed(),
            r@ == self@.party_a(),
    {
        proof {
            use_type_invariant(self);
        }
        address_of(&self.key_a)
    }

    /// The address of party B.
    pub fn party_b(&self) -> (r: Address)
        ensures
            self@.well_formed(),
            r@ == self@.party_b(),
    {
        proof {
            use_type_invariant(self);
        }
        address_of(&self.key_b)
    }

    /// The salt.
    pub fn salt(&self) -> (r: U256)
        ensures
            r@ == self@.salt,
    {
        self.salt
    }
}

/// All that a channel holds, as a plain record: what is stored and loaded.
pub struct ChannelRecord {
    pub chain_id: U256,
    pub entry_point: Address,
    pub factory: Address,
    pub address: Address,
    pub us: Party,
    pub key: Vec<u8>,
    pub counterparty: Address,
    pub salt: U256,
    pub messages: Vec<Message>,
    pub pending_message: Option<Message>,
}

impl View for ChannelRecord {
    type V = ChannelView;

    open spec fn view(&self) -> ChannelView {
        ChannelView {
            chain_id: self.chain_id@,
            entry_point: self.entry_point@,
            factory: self.factory@,
            address: self.address@,
            us: self.us,
            key: self.key@,
            counterparty: self.counterparty@,
            salt: self.salt@,
            messages: messages_view(self.messages@),
            pending_message: pending_view(self.pending_message),
        }
    }
}

/// A fully signed operation, and whether it has to be handed to the network.
#[derive(Debug, PartialEq, Eq)]
pub struct Countersigned {
    /// The operation with the signatures of both parties.
    pub operation: Operation,
    /// Whether the operation settles on the chain and is to be handed to
    /// the network, once: true of a withdrawal, false of a transfer, which
    /// stays between the parties.
    pub submit: bool,
}

/// One party's instance of a channel.
pub struct Channel {
    chain_id: U256,
    entry_point: Address,
    factory: Address,
    address: Address,
    us: Party,
    key: Vec<u8>,
    counterparty: Address,
    salt: U256,
    messages: Vec<Message>,
    pending_message: Option<Message>,
}

impl View for Channel {
    type V = ChannelView;

    closed spec fn view(&self) -> ChannelView {
        ChannelView {
            chain_id: self.chain_id@,
            entry_point: self.entry_point@,
            factory: self.factory@,
            address: self.address@,
            us: self.us,
            key: self.key@,
            counterparty: self.counterparty@,
            salt: self.salt@,
            messages: messages_view(self.messages@),
            pending_message: pending_view(self.pending_message),
        }
    }
}

/// A numbered history has as many messages as its next nonce says.
pub proof fn lemma_next_nonce_counts(c: ChannelView)
    requires
        c.numbered(),
    ensures
        c.next_nonce() == c.messages.len(),
{
    if c.messages.len() > 0 {
        assert(c.messages.last() == c.messages[c.messages.len() - 1]);
    }
}

/// Copies a history.
fn clone_messages(messages: &Vec<Message>) -> (r: Vec<Message>)
    ensures
        messages_view(r@) == messages_view(messages@),
{
    let mut r: Vec<Message> = Vec::new();
    let mut i: usize = 0;
    while i < messages.len()
        invariant
            i <= messages.len(),
            r.len() == i,
            forall|j: int| 0 <= j < i ==> r@[j]@ == messages@[j]@,
        decreases messages.len() - i,
    {
        r.push(messages[i].clone());
        i += 1;
    }
    assert(messages_view(r@) =~= messages_view(messages@));
    r
}

/// Copies an optional message.
fn clone_pending(pending: &Option<Message>) -> (r: Option<Message>)
    ensures
        pending_view(r) == pending_view(*pending),
{
    match pending {
        Some(m) => Some(m.clone()),
        None => None,
    }
}

/// Whether the messages carry the nonces 0, 1, 2, ... in this order.
fn is_numbered(messages: &Vec<Message>) -> (r: bool)
    ensures
        r == numbered(messages_view(messages@)),
{
    let mut i: usize = 0;
    while i < messages.len()
        invariant
            i <= messages.len(),
            forall|j: int|
                0 <= j < i ==> (#[trigger] messages_view(messages@)[j]).operation().nonce == j,
        decreases messages.len() - i,
    {
        let expected = U256::from_u64(i as u64);
        if !messages[i].operation().nonce.same(&expected) {
            assert(messages_view(messages@)[i as int].operation().nonce != i);
            return false;
        }
        i += 1;
    }
    true
}

impl Clone for Channel {
    fn clone(&self) -> (r: Self)
        ensures
            r@ == self@,
    {
        proof {
            use_type_invariant(self);
        }
        Channel {
            chain_id: self.chain_id,
            entry_point: self.entry_point,
            factory: self.factory,
            address: self.address,
            us: self.us,
            key: copy_bytes(self.key.as_slice()),
            counterparty: self.counterparty,
            salt: self.salt,
            messages: clone_messages(&self.messages),
            pending_message: clone_pending(&self.pending_message),
        }
    }
}

impl Channel {
    #[verifier::type_invariant]
    spec fn inv(self) -> bool {
        self@.well_formed()
    }

    /// Opens a channel: from the identities of both parties and the account
    /// address that the factory derives from them, the two instances, one
    /// for each party. They share the address, the salt and the contracts,
    /// each holds its own key and names the other as counterparty, and both
    /// start with an empty history and nothing pending.
    pub fn open(
        chain_id: U256,
        entry_point: Address,
        factory: Address,
        identities: Identities,
        address: Address,
    ) -> (pair: (Channel, Channel))
        ensures
            pair.0@ == (ChannelView {
                chain_id: chain_id@,
                entry_point: entry_point@,
                factory: factory@,
                address: address@,
                us: Party::A,
                key: identities@.key_a,
                counterparty: identities@.party_b(),
                salt: identities@.salt,
                messages: Seq::empty(),
                pending_message: None,
            }),
            pair.1@ == (ChannelView {
                chain_id: chain_id@,
                entry_point: entry_point@,
                factory: factory@,
                address: address@,
                us: Party::B,
                key: identities@.key_b,
                counterparty: identities@.party_a(),
                salt: identities@.salt,
                messages: Seq::empty(),
                pending_message: None,
            }),
            pair.0@.well_formed(),
            pair.1@.well_formed(),
            pair.0@.address == pair.1@.address,
            pair.0@.counterparty == pair.1@.our_address(),
            pair.1@.counterparty == pair.0@.our_address(),
            pair.0@.peers(pair.1@),
            pair.0@.next_nonce() == 0,
            pair.1@.next_nonce() == 0,
    {
        let address_a = identities.party_a();
        let address_b = identities.party_b();
        let Identities { key_a, key_b, salt } = identities;
        let a = Channel {
            chain_id,
            entry_point,
            factory,
            address,
            us: Party::A,
            key: key_a,
            counterparty: address_b,
            salt,
            messages: Vec::new(),
            pending_message: None,
        };
        let b = Channel {
            chain_id,
            entry_point,
            factory,
            address,
            us: Party::B,
            key: key_b,
            counterparty: address_a,
            salt,
            messages: Vec::new(),
            pending_message: None,
        };
        assert(a@.messages =~= Seq::empty());
        assert(b@.messages =~= Seq::empty());
        (a, b)
    }

    /// Takes a stored record back as a channel. A record whose key is no
    /// private key, or whose history is not numbered 0, 1, 2, ..., is
    /// corrupt and refused.
    pub fn restore(record: ChannelRecord) -> (r: Result<Channel, Error>)
        ensures
            record@.well_formed() ==> (r matches Ok(c) && c@ == record@),
            !record@.well_formed() ==> (r matches Err(e) && e == Error::IntegrityViolation),
    {
        if key_address(&record.key).is_none() {
            return Err(Error::IntegrityViolation);
        }
        if !is_numbered(&record.messages) {
            return Err(Error::IntegrityViolation);
        }
        Ok(
            Channel {
                chain_id: record.chain_id,
                entry_point: record.entry_point,
                factory: record.factory,
                address: record.address,
                us: record.us,
                key: record.key,
                counterparty: record.counterparty,
                salt: record.salt,
                messages: record.messages,
                pending_message: record.pending_message,
            },
        )
    }

    /// All that the channel holds, private key included, as a record to be
    /// stored.
    pub fn record(&self) -> (r: ChannelRecord)
        ensures
            r@ == self@,
            self@.well_formed(),
    {
        proof {
            use_type_invariant(self);
        }
        ChannelRecord {
            chain_id: self.chain_id,
            entry_point: self.entry_point,
            factory: self.factory,
            address: self.address,
            us: self.us,
            key: copy_bytes(self.key.as_slice()),
            counterparty: self.counterparty,
            salt: self.salt,
            messages: clone_messages(&self.messages),
            pending_message: clone_pending(&self.pending_message),
        }
    }

    /// The address of the channel account.
    pub fn address(&self) -> (r: Address)
        ensures
            r@ == self@.address,
    {
        self.address
    }

    /// The address of this party, derived from its key.
    pub fn our_address(&self) -> (r: Address)
        ensures
            r@ == self@.our_address(),
    {
        proof {
            use_type_invariant(self);
        }
        address_of(&self.key)
    }

    /// The address of the counterparty.
    pub fn their_address(&self) -> (r: Address)
        ensures
            r@ == self@.counterparty,
    {
        self.counterparty
    }

    /// The role of this party.
    pub fn role(&self) -> (r: Party)
        ensures
            r == self@.us,
    {
        self.us
    }

    /// The addresses of party A and of party B.
    pub fn parties(&self) -> (r: (Address, Address))
        ensures
            r.0@ == self@.party_a(),
            r.1@ == self@.party_b(),
    {
        let us = self.our_address();
        match self.us {
            Party::A => (us, self.counterparty),
            Party::B => (self.counterparty, us),
        }
    }

    /// The deployment prefix of the channel account. Both parties compute
    /// the same, as A's address always comes first.
    pub fn init_code(&self) -> (r: Vec<u8>)
        ensures
            r@ == self@.init_code(),
    {
        let (party_a, party_b) = self.parties();
        let mut r: Vec<u8> = copy_bytes(self.factory.bytes.as_slice());
        let call = encode_create_account(party_a, party_b, self.salt);
        append_bytes(&mut r, call.as_slice());
        r
    }

    /// Whether the channel account is deployed, given the code found at its
    /// address.
    pub fn is_deployed(&self, code: &Vec<u8>) -> (r: bool)
        ensures
            r == (code@.len() > 0),
    {
        code.len() > 0
    }

    /// The net transfer value agreed on and not yet withdrawn.
    pub fn get_value_transfer(&self) -> (r: i128)
        ensures
            r == self@.value_transfer(),
    {
        let n = self.messages.len();
        if n == 0 {
            0
        } else {
            self.messages[n - 1].outstanding()
        }
    }

    /// The nonce of the last committed message, zero where there is none.
    pub fn last_nonce(&self) -> (r: U256)
        ensures
            r@ == self@.last_nonce(),
    {
        let n = self.messages.len();
        if n == 0 {
            U256::zero()
        } else {
            self.messages[n - 1].operation().nonce
        }
    }

    /// The nonce of the next message that this party proposes: the number
    /// of messages committed so far.
    pub fn next_outgoing_nonce(&self) -> (r: U256)
        ensures
            r@ == self@.next_nonce(),
            r@ == self@.messages.len(),
    {
        proof {
            use_type_invariant(self);
            lemma_next_nonce_counts(self@);
        }
        U256::from_u64(self.messages.len() as u64)
    }

    /// The nonce of the next message that this party accepts: the same.
    pub fn next_incoming_nonce(&self) -> (r: U256)
        ensures
            r@ == self@.next_nonce(),
            r@ == self@.messages.len(),
    {
        self.next_outgoing_nonce()
    }

    /// The balances of A and of B: what the chain holds, with the
    /// outstanding net transfer value taken from A's and added to B's.
    pub fn get_balances(&self, account: &Account) -> (r: Result<(u128, u128), Error>)
        ensures
            r == self@.balances(*account),
    {
        balances(account.on_chain_a(), account.on_chain_b(), self.get_value_transfer())
    }

    /// The same balances, own first.
    pub fn get_sorted_balances(&self, account: &Account) -> (r: Result<(u128, u128), Error>)
        ensures
            r == self@.sorted_balances(*account),
    {
        match self.get_balances(account) {
            Ok(pair) => Ok(sorted(self.us, pair)),
            Err(e) => Err(e),
        }
    }

    /// What a reading of the chain says of an open dispute; `None` for the
    /// reading where the account is not deployed.
    pub fn get_dispute_info(&self, reading: Option<DisputeReading>) -> (r: Result<
        Option<DisputeInfo>,
        Error,
    >)
        ensures
            r == spec_dispute_info(self@.us, reading),
    {
        dispute_info(self.us, reading)
    }

    /// The pending proposal, if there is one.
    pub fn pending_message(&self) -> (r: Option<&Message>)
        ensures
            r is Some <==> self@.pending_message is Some,
            r matches Some(m) ==> self@.pending_message == Some(m@),
    {
        match &self.pending_message {
            Some(m) => Some(m),
            None => None,
        }
    }

    /// The committed messages, oldest first.
    pub fn messages(&self) -> (r: &Vec<Message>)
        ensures
            messages_view(r@) == self@.messages,
    {
        &self.messages
    }

    /// Drops the pending proposal. Says whether there was one.
    pub fn cancel_pending_message(&mut self) -> (r: bool)
        ensures
            r == (old(self)@.pending_message is Some),
            final(self)@ == old(self)@.with_pending(None),
    {
        proof {
            use_type_invariant(&*self);
        }
        let had = self.pending_message.is_some();
        self.pending_message = None;
        had
    }
}

/// The net transfer value `current` lowered (party A) or raised (party B) by
/// `wei`, where the result is a signed 128-bit number.
fn shifted_transfer(us: Party, current: i128, wei: u128) -> (r: Option<i128>)
    ensures
        r == match us {
            Party::A => if i128::MIN <= current - wei {
                Some((current - wei) as i128)
            } else {
                None::<i128>
            },
            Party::B => if current + wei <= i128::MAX {
                Some((current + wei) as i128)
            } else {
                None::<i128>
            },
        },
{
    match us {
        Party::A => current.checked_sub_unsigned(wei),
        Party::B => current.checked_add_unsigned(wei),
    }
}

/// Puts the signatures of both parties in the order in which the account
/// reads them, A's first, and codes the pair.
pub fn aggregate_signatures(us: Party, own: &Vec<u8>, theirs: &Vec<u8>) -> (r: Vec<u8>)
    requires
        own.len() <= MAX_BYTES,
        theirs.len() <= MAX_BYTES,
    ensures
        r@ == spec_abi_encode(cosigned_pair(us, own@, theirs@)),
{
    let mut values: Vec<AbiValue> = Vec::new();
    match us {
        Party::A => {
            values.push(AbiValue::Bytes(copy_bytes(own.as_slice())));
            values.push(AbiValue::Bytes(copy_bytes(theirs.as_slice())));
        },
        Party::B => {
            values.push(AbiValue::Bytes(copy_bytes(theirs.as_slice())));
            values.push(AbiValue::Bytes(copy_bytes(own.as_slice())));
        },
    }
    assert(terms(values@) =~= cosigned_pair(us, own@, theirs@));
    abi_encode(&values)
}

impl Channel {
    /// Decides whether this party can ask `wei` of its counterparty, and by
    /// which call: nothing is pending, the amount is not zero, the
    /// counterparty's balance covers the amount, and the new net transfer
    /// value fits.
    pub fn plan_transfer(&self, wei: u128, account: &Account) -> (r: Result<Call, Error>)
        ensures
            r == self@.transfer_plan(wei as nat, *account),
    {
        if self.pending_message.is_some() {
            return Err(Error::AlreadyWaiting);
        }
        if wei == 0 {
            return Err(Error::AmountOutOfRange);
        }
        let theirs = match self.get_sorted_balances(account) {
            Ok(pair) => pair.1,
            Err(e) => {
                return Err(e);
            },
        };
        if theirs < wei {
            return Err(Error::InsufficientBalance);
        }
        match shifted_transfer(self.us, self.get_value_transfer(), wei) {
            Some(next) => Ok(Call::Dispute { value_transfer: next }),
            None => Err(Error::AmountOutOfRange),
        }
    }

    /// Decides whether this party can ask for a full withdrawal, and by
    /// which call: nothing may be pending, and both balances are paid out.
    pub fn plan_full_withdraw(&self, account: &Account) -> (r: Result<Call, Error>)
        ensures
            r == self@.withdrawal_plan(*account),
    {
        if self.pending_message.is_some() {
            return Err(Error::AlreadyWaiting);
        }
        match self.get_balances(account) {
            Ok(pair) => Ok(
                Call::CoopWithdraw {
                    value_transfer: self.get_value_transfer(),
                    withdraw_a: pair.0,
                    withdraw_b: pair.1,
                },
            ),
            Err(e) => Err(e),
        }
    }

    /// The next operation of the channel account for a call, not yet signed.
    pub fn unsigned_operation(&self, call: Call) -> (r: Operation)
        ensures
            r@ == self@.proposal(call, Seq::empty()),
    {
        let limit: u64 = match call {
            Call::Dispute { .. } => CALL_GAS_LIMIT_DISPUTE,
            Call::CoopWithdraw { .. } => CALL_GAS_LIMIT_COOP,
        };
        Operation::build(
            self.address,
            self.next_outgoing_nonce(),
            self.init_code(),
            call.encode(),
            limit,
            Vec::new(),
        )
    }

    /// The signature of this party over an operation, or `None` where
    /// signing fails.
    pub fn sign(&self, userop: &Operation) -> (r: Option<Vec<u8>>)
        ensures
            bytes_view(r) == spec_sign(self@.key, self@.digest(userop@)),
    {
        let digest = userop.hash(&self.entry_point, &self.chain_id);
        sign_digest(&self.key, &digest)
    }

    /// Makes the operation for a call the pending proposal of this party,
    /// given this party's signature over it, and hands the operation out.
    /// Without a signature, or with a proposal pending already, the channel
    /// stays as it is. Whether the call can be afforded is not asked here:
    /// [`Channel::plan_transfer`] and [`Channel::plan_full_withdraw`] decide
    /// that, and [`Channel::request_transfer`] and
    /// [`Channel::request_full_withdraw`] propose only what they allow.
    pub fn propose(&mut self, call: Call, signature: Option<Vec<u8>>) -> (r: Result<
        Operation,
        Error,
    >)
        ensures
            old(self)@.pending_message is Some ==> (r matches Err(e) && e == Error::AlreadyWaiting
                && final(self)@ == old(self)@),
            old(self)@.pending_message is None ==> (match old(self)@.proposed(
                call,
                bytes_view(signature),
            ) {
                Ok(m) => r matches Ok(op) && op@ == m.operation() && final(self)@ == old(self)@.with_pending(Some(m)),
                Err(e) => r matches Err(x) && x == e && final(self)@ == old(self)@,
            }),
    {
        proof {
            use_type_invariant(&*self);
        }
        if self.pending_message.is_some() {
            return Err(Error::AlreadyWaiting);
        }
        let signature = match signature {
            Some(s) => s,
            None => {
                return Err(Error::IntegrityViolation);
            },
        };
        let mut userop = self.unsigned_operation(call);
        userop.signature = signature;
        let handed = userop.clone();
        let message = match call {
            Call::Dispute { value_transfer } => Message::Transfer(
                TransferMessage { userop, value_transfer },
            ),
            Call::CoopWithdraw { withdraw_a, withdraw_b, .. } => {
                let (ours, theirs) = sorted(self.us, (withdraw_a, withdraw_b));
                Message::Withdrawal(
                    WithdrawalMessage { userop, withdraw_us: ours, withdraw_them: theirs },
                )
            },
        };
        self.pending_message = Some(message);
        Ok(handed)
    }

    /// Signs and proposes the operation of a plan.
    fn request(&mut self, plan: Result<Call, Error>) -> (r: Result<Operation, Error>)
        requires
            plan is Ok ==> old(self)@.pending_message is None,
        ensures
            match old(self)@.request(plan) {
                Ok(m) => r matches Ok(op) && op@ == m.operation() && final(self)@ == old(self)@.with_pending(Some(m)),
                Err(e) => r matches Err(x) && x == e && final(self)@ == old(self)@,
            },
    {
        match plan {
            Err(e) => Err(e),
            Ok(call) => {
                let unsigned = self.unsigned_operation(call);
                let signature = self.sign(&unsigned);
                self.propose(call, signature)
            },
        }
    }

    /// Proposes that the counterparty hands `wei` to this party: builds the
    /// operation that records the new net transfer value, signs it, keeps
    /// it as the pending proposal and hands it out for transmission.
    ///
    /// Refused with `AlreadyWaiting` while a proposal is pending, with
    /// `AmountOutOfRange` for an amount of zero, with `InsufficientBalance`
    /// where the counterparty's balance does not cover `wei`; a refusal
    /// leaves the channel as it was.
    pub fn request_transfer(&mut self, wei: u128, account: &Account) -> (r: Result<
        Operation,
        Error,
    >)
        ensures
            match old(self)@.request(old(self)@.transfer_plan(wei as nat, *account)) {
                Ok(m) => r matches Ok(op) && op@ == m.operation() && final(self)@ == old(self)@.with_pending(Some(m)),
                Err(e) => r matches Err(x) && x == e && final(self)@ == old(self)@,
            },
    {
        let plan = self.plan_transfer(wei, account);
        self.request(plan)
    }

    /// Proposes to pay both parties out in full: builds the operation of the
    /// cooperative withdrawal of both current balances, signs it, keeps it
    /// as the pending proposal and hands it out for transmission.
    pub fn request_full_withdraw(&mut self, account: &Account) -> (r: Result<Operation, Error>)
        ensures
            match old(self)@.request(old(self)@.withdrawal_plan(*account)) {
                Ok(m) => r matches Ok(op) && op@ == m.operation() && final(self)@ == old(self)@.with_pending(Some(m)),
                Err(e) => r matches Err(x) && x == e && final(self)@ == old(self)@,
            },
    {
        let plan = self.plan_full_withdraw(account);
        self.request(plan)
    }

    /// Judges an operation proposed by the counterparty, given the address
    /// recovered from its signature and the call decoded from its payload.
    /// The channel is not changed, and nothing is signed.
    pub fn check_message(
        &self,
        userop: Operation,
        account: &Account,
        signer: Option<Address>,
        call: Option<Call>,
    ) -> (r: Result<Message, Error>)
        ensures
            match self@.judge(userop@, *account, address_view(signer), call) {
                Ok(m) => r matches Ok(x) && x@ == m,
                Err(e) => r matches Err(x) && x == e,
            },
    {
        if !userop.sender.same(&self.address) {
            return Err(Error::IllegalSender);
        }
        if !userop.nonce.same(&self.next_incoming_nonce()) {
            return Err(Error::IllegalNonce);
        }
        let init_code = self.init_code();
        if !bytes_equal(userop.init_code.as_slice(), init_code.as_slice()) {
            return Err(Error::IllegalInitcode);
        }
        if !userop.has_fixed_fees() {
            return Err(Error::IllegalConstant);
        }
        let signed = match signer {
            Some(a) => a.same(&self.counterparty),
            None => false,
        };
        if !signed {
            return Err(Error::IllegalSignature);
        }
        match call {
            None => Err(Error::IllegalCalldata),
            Some(Call::CoopWithdraw { value_transfer, withdraw_a, withdraw_b }) => {
                if !userop.has_call_gas_limit(CALL_GAS_LIMIT_COOP) {
                    return Err(Error::IllegalConstant);
                }
                if value_transfer != self.get_value_transfer() {
                    return Err(Error::IllegalValueTransfer);
                }
                let pair = match self.get_balances(account) {
                    Ok(pair) => pair,
                    Err(e) => {
                        return Err(e);
                    },
                };
                if withdraw_a > pair.0 || withdraw_b > pair.1 {
                    return Err(Error::InsufficientBalance);
                }
                let (ours, theirs) = sorted(self.us, (withdraw_a, withdraw_b));
                Ok(
                    Message::Withdrawal(
                        WithdrawalMessage { userop, withdraw_us: ours, withdraw_them: theirs },
                    ),
                )
            },
            Some(Call::Dispute { value_transfer }) => {
                if !userop.has_call_gas_limit(CALL_GAS_LIMIT_DISPUTE) {
                    return Err(Error::IllegalConstant);
                }
                Ok(Message::Transfer(TransferMessage { userop, value_transfer }))
            },
        }
    }

    /// Validates an operation proposed by the counterparty. Every check
    /// must pass, and the first that fails names the error: the sender, the
    /// nonce, the deployment prefix, the fixed fees and the empty
    /// paymaster, the counterparty's signature, the call payload, and for
    /// the call the gas limit and, of a withdrawal, the net transfer value
    /// and both amounts against the balances. The channel is not changed,
    /// and nothing is signed.
    pub fn receive_message(&self, userop: Operation, account: &Account) -> (r: Result<
        Message,
        Error,
    >)
        ensures
            match self@.receive(userop@, *account) {
                Ok(m) => r matches Ok(x) && x@ == m,
                Err(e) => r matches Err(x) && x == e,
            },
    {
        let digest = userop.hash(&self.entry_point, &self.chain_id);
        let signer = recover_signer(&userop.signature, &digest);
        let call = decode_call(&userop.call_data);
        self.check_message(userop, account, signer, call)
    }

    /// Commits a message, given this party's signature over its operation:
    /// the operation's signature becomes the coded pair of both signatures,
    /// A's first, the message joins the history, and the pending slot is
    /// cleared: the instance is idle again. A message that does not carry
    /// the next nonce is refused, as is a missing signature or one that is
    /// too long; the channel then stays as it is.
    pub fn commit(&mut self, message: Message, own: Option<Vec<u8>>) -> (r: Result<
        Countersigned,
        Error,
    >)
        ensures
            match old(self)@.countersigned(message@, bytes_view(own)) {
                Ok(m) => r matches Ok(c) && c.operation@ == m.operation() && c.submit
                    == message@.settles() && final(self)@ == old(self)@.committed(m) && final(self)@.next_nonce() == old(self)@.next_nonce() + 1,
                Err(e) => r matches Err(x) && x == e && final(self)@ == old(self)@,
            },
    {
        proof {
            use_type_invariant(&*self);
            lemma_next_nonce_counts(self@);
        }
        if !message.operation().nonce.same(&self.next_incoming_nonce()) {
            return Err(Error::IllegalNonce);
        }
        let own = match own {
            Some(s) => s,
            None => {
                return Err(Error::IntegrityViolation);
            },
        };
        if own.len() > MAX_BYTES || message.operation().signature.len() > MAX_BYTES {
            return Err(Error::IllegalSignature);
        }
        let mut userop = message.operation().clone();
        userop.signature = aggregate_signatures(self.us, &own, &message.operation().signature);
        let submit = message.is_withdrawal();
        let handed = userop.clone();
        let committed = message.with_operation(userop);
        // The history is rebuilt and then put in place in one step: a push in
        // place could unwind and leave the channel half-updated.
        let mut history = clone_messages(&self.messages);
        history.push(committed);
        proof {
            let after = self@.committed(committed@);
            assert(messages_view(history@) =~= self@.messages.push(committed@));
            assert(after.numbered());
            lemma_next_nonce_counts(after);
        }
        let idle = Channel {
            chain_id: self.chain_id,
            entry_point: self.entry_point,
            factory: self.factory,
            address: self.address,
            us: self.us,
            key: copy_bytes(self.key.as_slice()),
            counterparty: self.counterparty,
            salt: self.salt,
            messages: history,
            pending_message: None,
        };
        *self = idle;
        Ok(Countersigned { operation: handed, submit })
    }

    /// Signs a message that was validated on receipt, or that this party
    /// proposed itself, and commits it: see [`Channel::commit`]. Afterwards
    /// nothing is pending. A withdrawal is to be handed to the network
    /// once, a transfer is not.
    pub fn sign_message(&mut self, message: Message) -> (r: Result<Countersigned, Error>)
        ensures
            match old(self)@.sign(message@) {
                Ok(m) => r matches Ok(c) && c.operation@ == m.operation() && c.submit
                    == message@.settles() && final(self)@ == old(self)@.committed(m) && final(self)@.next_nonce() == old(self)@.next_nonce() + 1,
                Err(e) => r matches Err(x) && x == e && final(self)@ == old(self)@,
            },
    {
        let own = self.sign(message.operation());
        self.commit(message, own)
    }
}

} // verus!
