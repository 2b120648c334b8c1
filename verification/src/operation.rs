//! The operation: the signed instruction that the channel account executes.

use crate::abi::{abi_encode, keccak256, spec_abi_encode, spec_keccak256, terms, AbiTerm, AbiValue};
use crate::bytes::copy_bytes;
use crate::primitives::{Address, U256};
use vstd::prelude::*;

verus! {

/// Call gas limit of an operation that records a transfer.
pub const CALL_GAS_LIMIT_DISPUTE: u64 = 200000;

/// Call gas limit of an operation that withdraws cooperatively.
pub const CALL_GAS_LIMIT_COOP: u64 = 200000;

/// Verification gas limit of every operation.
pub const VERIFICATION_GAS_LIMIT: u64 = 1500000;

/// Pre-verification gas of every operation.
pub const PRE_VERIFICATION_GAS: u64 = 200000;

/// Maximum fee per gas of every operation.
pub const MAX_FEE_PER_GAS: u128 = 100_000_000;

/// Maximum priority fee per gas of every operation (0.1 gwei).
pub const PRIORITY_FEE: u64 = 100_000_000;

/// A signed instruction for the channel account.
#[derive(Debug, PartialEq, Eq)]
pub struct Operation {
    pub sender: Address,
    pub nonce: U256,
    pub init_code: Vec<u8>,
    pub call_data: Vec<u8>,
    pub call_gas_limit: U256,
    pub verification_gas_limit: U256,
    pub pre_verification_gas: U256,
    pub max_fee_per_gas: U256,
    pub max_priority_fee_per_gas: U256,
    pub paymaster_and_data: Vec<u8>,
    pub signature: Vec<u8>,
}

/// What an [`Operation`] stands for.
pub struct OperationView {
    pub sender: Seq<u8>,
    pub nonce: nat,
    pub init_code: Seq<u8>,
    pub call_data: Seq<u8>,
    pub call_gas_limit: nat,
    pub verification_gas_limit: nat,
    pub pre_verification_gas: nat,
    pub max_fee_per_gas: nat,
    pub max_priority_fee_per_gas: nat,
    pub paymaster_and_data: Seq<u8>,
    pub signature: Seq<u8>,
}

impl View for Operation {
    type V = OperationView;

    open spec fn view(&self) -> OperationView {
        OperationView {
            sender: self.sender@,
            nonce: self.nonce@,
            init_code: self.init_code@,
            call_data: self.call_data@,
            call_gas_limit: self.call_gas_limit@,
            verification_gas_limit: self.verification_gas_limit@,
            pre_verification_gas: self.pre_verification_gas@,
            max_fee_per_gas: self.max_fee_per_gas@,
            max_priority_fee_per_gas: self.max_priority_fee_per_gas@,
            paymaster_and_data: self.paymaster_and_data@,
            signature: self.signature@,
        }
    }
}

impl OperationView {
    /// The operation of the channel account `sender` with the given nonce,
    /// deployment prefix, call and call gas limit, the protocol's fees, no
    /// paymaster and the given signature.
    pub open spec fn build(
        sender: Seq<u8>,
        nonce: nat,
        init_code: Seq<u8>,
        call_data: Seq<u8>,
        call_gas_limit: nat,
        signature: Seq<u8>,
    ) -> OperationView {
        OperationView {
            sender,
            nonce,
            init_code,
            call_data,
            call_gas_limit,
            verification_gas_limit: VERIFICATION_GAS_LIMIT as nat,
            pre_verification_gas: PRE_VERIFICATION_GAS as nat,
            max_fee_per_gas: MAX_FEE_PER_GAS as nat,
            max_priority_fee_per_gas: PRIORITY_FEE as nat,
            paymaster_and_data: Seq::empty(),
            signature,
        }
    }

    /// The same operation with another signature.
    pub open spec fn with_signature(self, signature: Seq<u8>) -> OperationView {
        OperationView { signature, ..self }
    }

    /// No paymaster is named, and the four fee and gas fields that do not
    /// depend on the call hold the protocol's constants.
    pub open spec fn has_fixed_fees(self) -> bool {
        &&& self.paymaster_and_data.len() == 0
        &&& self.max_priority_fee_per_gas == PRIORITY_FEE
        &&& self.max_fee_per_gas == MAX_FEE_PER_GAS
        &&& self.pre_verification_gas == PRE_VERIFICATION_GAS
        &&& self.verification_gas_limit == VERIFICATION_GAS_LIMIT
    }

    /// The fields that are signed, packed: byte strings enter by their
    /// digest, the signature does not enter.
    pub open spec fn packed(self) -> Seq<u8> {
        spec_abi_encode(
            seq![
                AbiTerm::Address(self.sender),
                AbiTerm::Uint(self.nonce),
                AbiTerm::Word(spec_keccak256(self.init_code)),
                AbiTerm::Word(spec_keccak256(self.call_data)),
                AbiTerm::Uint(self.call_gas_limit),
                AbiTerm::Uint(self.verification_gas_limit),
                AbiTerm::Uint(self.pre_verification_gas),
                AbiTerm::Uint(self.max_fee_per_gas),
                AbiTerm::Uint(self.max_priority_fee_per_gas),
                AbiTerm::Word(spec_keccak256(self.paymaster_and_data)),
            ],
        )
    }

    /// The digest that the parties sign: the digest of the packed fields,
    /// bound to the entry point and to the chain.
    pub open spec fn hash(self, entry_point: Seq<u8>, chain_id: nat) -> Seq<u8> {
        spec_keccak256(
            spec_abi_encode(
                seq![
                    AbiTerm::Word(spec_keccak256(self.packed())),
                    AbiTerm::Address(entry_point),
                    AbiTerm::Uint(chain_id),
                ],
            ),
        )
    }
}

impl Clone for Operation {
    fn clone(&self) -> (r: Self)
        ensures
            r@ == self@,
    {
        Operation {
            sender: self.sender,
            nonce: self.nonce,
            init_code: copy_bytes(self.init_code.as_slice()),
            call_data: copy_bytes(self.call_data.as_slice()),
            call_gas_limit: self.call_gas_limit,
            verification_gas_limit: self.verification_gas_limit,
            pre_verification_gas: self.pre_verification_gas,
            max_fee_per_gas: self.max_fee_per_gas,
            max_priority_fee_per_gas: self.max_priority_fee_per_gas,
            paymaster_and_data: copy_bytes(self.paymaster_and_data.as_slice()),
            signature: copy_bytes(self.signature.as_slice()),
        }
    }
}

impl Operation {
    /// Builds an operation with the protocol's fees and no paymaster.
    pub fn build(
        sender: Address,
        nonce: U256,
        init_code: Vec<u8>,
        call_data: Vec<u8>,
        call_gas_limit: u64,
        signature: Vec<u8>,
    ) -> (r: Operation)
        ensures
            r@ == OperationView::build(
                sender@,
                nonce@,
                init_code@,
                call_data@,
                call_gas_limit as nat,
                signature@,
            ),
    {
        Operation {
            sender,
            nonce,
            init_code,
            call_data,
            call_gas_limit: U256::from_u64(call_gas_limit),
            verification_gas_limit: U256::from_u64(VERIFICATION_GAS_LIMIT),
            pre_verification_gas: U256::from_u64(PRE_VERIFICATION_GAS),
            max_fee_per_gas: U256::from_u128(MAX_FEE_PER_GAS),
            max_priority_fee_per_gas: U256::from_u64(PRIORITY_FEE),
            paymaster_and_data: Vec::new(),
            signature,
        }
    }

    /// Whether no paymaster is named and the four fee and gas fields that do
    /// not depend on the call hold the protocol's constants.
    pub fn has_fixed_fees(&self) -> (r: bool)
        ensures
            r == self@.has_fixed_fees(),
    {
        self.paymaster_and_data.len() == 0 && self.max_priority_fee_per_gas.same(
            &U256::from_u64(PRIORITY_FEE),
        ) && self.max_fee_per_gas.same(&U256::from_u128(MAX_FEE_PER_GAS))
            && self.pre_verification_gas.same(&U256::from_u64(PRE_VERIFICATION_GAS))
            && self.verification_gas_limit.same(&U256::from_u64(VERIFICATION_GAS_LIMIT))
    }

    /// Whether the call gas limit is `limit`.
    pub fn has_call_gas_limit(&self, limit: u64) -> (r: bool)
        ensures
            r == (self@.call_gas_limit == limit),
    {
        self.call_gas_limit.same(&U256::from_u64(limit))
    }

    /// The signed fields, packed.
    pub fn packed(&self) -> (out: Vec<u8>)
        ensures
            out@ == self@.packed(),
    {
        let mut values: Vec<AbiValue> = Vec::new();
        values.push(AbiValue::Address(self.sender));
        values.push(AbiValue::Uint(self.nonce));
        values.push(AbiValue::Word(keccak256(&self.init_code)));
        values.push(AbiValue::Word(keccak256(&self.call_data)));
        values.push(AbiValue::Uint(self.call_gas_limit));
        values.push(AbiValue::Uint(self.verification_gas_limit));
        values.push(AbiValue::Uint(self.pre_verification_gas));
        values.push(AbiValue::Uint(self.max_fee_per_gas));
        values.push(AbiValue::Uint(self.max_priority_fee_per_gas));
        values.push(AbiValue::Word(keccak256(&self.paymaster_and_data)));
        assert(terms(values@) =~= seq![
            AbiTerm::Address(self@.sender),
            AbiTerm::Uint(self@.nonce),
            AbiTerm::Word(spec_keccak256(self@.init_code)),
            AbiTerm::Word(spec_keccak256(self@.call_data)),
            AbiTerm::Uint(self@.call_gas_limit),
            AbiTerm::Uint(self@.verification_gas_limit),
            AbiTerm::Uint(self@.pre_verification_gas),
            AbiTerm::Uint(self@.max_fee_per_gas),
            AbiTerm::Uint(self@.max_priority_fee_per_gas),
            AbiTerm::Word(spec_keccak256(self@.paymaster_and_data)),
        ]);
        abi_encode(&values)
    }

    /// The digest that the parties sign, for the given entry point and chain.
    pub fn hash(&self, entry_point: &Address, chain_id: &U256) -> (out: [u8; 32])
        ensures
            out@ == self@.hash(entry_point@, chain_id@),
    {
        let packed = self.packed();
        let mut values: Vec<AbiValue> = Vec::new();
        values.push(AbiValue::Word(keccak256(&packed)));
        values.push(AbiValue::Address(*entry_point));
        values.push(AbiValue::Uint(*chain_id));
        assert(terms(values@) =~= seq![
            AbiTerm::Word(spec_keccak256(self@.packed())),
            AbiTerm::Address(entry_point@),
            AbiTerm::Uint(chain_id@),
        ]);
        let bound = abi_encode(&values);
        keccak256(&bound)
    }
}

} // verus!
