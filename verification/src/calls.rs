//! The calls of the channel account and of its factory that the library
//! builds and recognises: a four-byte selector followed by the ABI coding of
//! the arguments.

use crate::abi::{abi_decode, abi_encode, spec_abi_decode, spec_abi_encode, terms, AbiKind, AbiTerm, AbiValue};
use crate::bytes::{append_bytes, bytes_from};
use crate::primitives::{low_signed, pow128, pow64, sign_extended, Address, U256};
use vstd::prelude::*;

verus! {

/// Selector of `dispute(int128)`.
pub open spec fn dispute_selector() -> Seq<u8> {
    seq![0xa5u8, 0x86u8, 0x6bu8, 0x94u8]
}

/// Selector of `coopWithdraw(int128,uint128,uint128)`.
pub open spec fn coop_withdraw_selector() -> Seq<u8> {
    seq![0x9au8, 0x86u8, 0x74u8, 0x69u8]
}

/// Selector of the factory's `createAccount(address,address,uint256)`.
pub open spec fn create_account_selector() -> Seq<u8> {
    seq![0x12u8, 0x30u8, 0xaeu8, 0xa2u8]
}

/// Argument types of `dispute`.
pub open spec fn dispute_kinds() -> Seq<AbiKind> {
    seq![AbiKind::Int(128)]
}

/// Argument types of `coopWithdraw`.
pub open spec fn coop_withdraw_kinds() -> Seq<AbiKind> {
    seq![AbiKind::Int(128), AbiKind::Uint(128), AbiKind::Uint(128)]
}

/// A call of the channel account that the two parties sign.
#[derive(Clone, Copy, Debug, PartialEq, Eq, Structural)]
pub enum Call {
    /// Records a new net transfer value, without paying out.
    Dispute { value_transfer: i128 },
    /// Cooperative exit: pays `withdraw_a` to party A and `withdraw_b` to
    /// party B, given the net transfer value both agreed on last.
    CoopWithdraw { value_transfer: i128, withdraw_a: u128, withdraw_b: u128 },
}

impl Call {
    /// The four bytes that select the call.
    pub open spec fn selector(self) -> Seq<u8> {
        match self {
            Call::Dispute { .. } => dispute_selector(),
            Call::CoopWithdraw { .. } => coop_withdraw_selector(),
        }
    }

    /// The arguments of the call, as ABI terms.
    pub open spec fn arguments(self) -> Seq<AbiTerm> {
        match self {
            Call::Dispute { value_transfer } => seq![
                AbiTerm::Int(sign_extended(value_transfer as int)),
            ],
            Call::CoopWithdraw { value_transfer, withdraw_a, withdraw_b } => seq![
                AbiTerm::Int(sign_extended(value_transfer as int)),
                AbiTerm::Uint(withdraw_a as nat),
                AbiTerm::Uint(withdraw_b as nat),
            ],
        }
    }

    /// The call data: selector, then the coded arguments.
    pub open spec fn encoding(self) -> Seq<u8> {
        self.selector() + spec_abi_encode(self.arguments())
    }

    /// Builds the call data.
    pub fn encode(&self) -> (out: Vec<u8>)
        ensures
            out@ == self.encoding(),
    {
        let mut out: Vec<u8> = Vec::new();
        let mut values: Vec<AbiValue> = Vec::new();
        match *self {
            Call::Dispute { value_transfer } => {
                out.push(0xa5);
                out.push(0x86);
                out.push(0x6b);
                out.push(0x94);
                values.push(AbiValue::Int(U256::from_i128(value_transfer)));
            },
            Call::CoopWithdraw { value_transfer, withdraw_a, withdraw_b } => {
                out.push(0x9a);
                out.push(0x86);
                out.push(0x74);
                out.push(0x69);
                values.push(AbiValue::Int(U256::from_i128(value_transfer)));
                values.push(AbiValue::Uint(U256::from_u128(withdraw_a)));
                values.push(AbiValue::Uint(U256::from_u128(withdraw_b)));
            },
        }
        assert(out@ =~= self.selector());
        assert(terms(values@) =~= self.arguments());
        let coded = abi_encode(&values);
        append_bytes(&mut out, coded.as_slice());
        out
    }
}

/// The `dispute` call that a decoded argument list stands for: one signed
/// word, of which the low 128 bits count.
pub open spec fn dispute_from_terms(decoded: Option<Seq<AbiTerm>>) -> Option<Call> {
    match decoded {
        Some(t) => if t.len() == 1 && t[0] is Int {
            Some(Call::Dispute { value_transfer: low_signed(t[0]->Int_0) as i128 })
        } else {
            None
        },
        None => None,
    }
}

/// The `coopWithdraw` call that a decoded argument list stands for: a signed
/// word and two unsigned ones, of each of which the low 128 bits count.
pub open spec fn coop_withdraw_from_terms(decoded: Option<Seq<AbiTerm>>) -> Option<Call> {
    match decoded {
        Some(t) => if t.len() == 3 && t[0] is Int && t[1] is Uint && t[2] is Uint {
            Some(
                Call::CoopWithdraw {
                    value_transfer: low_signed(t[0]->Int_0) as i128,
                    withdraw_a: (t[1]->Uint_0 as int % pow128()) as u128,
                    withdraw_b: (t[2]->Uint_0 as int % pow128()) as u128,
                },
            )
        } else {
            None
        },
        None => None,
    }
}

/// The call that `data` holds: it starts with the selector of one of the two
/// calls, and the rest decodes as that call's arguments.
pub open spec fn spec_decode_call(data: Seq<u8>) -> Option<Call> {
    if data.len() < 4 {
        None
    } else if data.subrange(0, 4) == coop_withdraw_selector() {
        coop_withdraw_from_terms(spec_abi_decode(coop_withdraw_kinds(), data.skip(4)))
    } else if data.subrange(0, 4) == dispute_selector() {
        dispute_from_terms(spec_abi_decode(dispute_kinds(), data.skip(4)))
    } else {
        None
    }
}

/// Reads a `dispute` call from its decoded arguments.
pub fn dispute_from_values(decoded: Option<Vec<AbiValue>>) -> (out: Option<Call>)
    ensures
        out == dispute_from_terms(
            match decoded {
                Some(v) => Some(terms(v@)),
                None => None,
            },
        ),
{
    match decoded {
        Some(values) => {
            if values.len() != 1 {
                return None;
            }
            match &values[0] {
                AbiValue::Int(word) => Some(Call::Dispute { value_transfer: word.low_i128() }),
                _ => None,
            }
        },
        None => None,
    }
}

/// Reads a `coopWithdraw` call from its decoded arguments.
pub fn coop_withdraw_from_values(decoded: Option<Vec<AbiValue>>) -> (out: Option<Call>)
    ensures
        out == coop_withdraw_from_terms(
            match decoded {
                Some(v) => Some(terms(v@)),
                None => None,
            },
        ),
{
    match decoded {
        Some(values) => {
            if values.len() != 3 {
                return None;
            }
            match (&values[0], &values[1], &values[2]) {
                (AbiValue::Int(value), AbiValue::Uint(a), AbiValue::Uint(b)) => Some(
                    Call::CoopWithdraw {
                        value_transfer: value.low_i128(),
                        withdraw_a: a.low_u128(),
                        withdraw_b: b.low_u128(),
                    },
                ),
                _ => None,
            }
        },
        None => None,
    }
}

/// Whether `data` starts with the four given bytes.
fn has_selector(data: &Vec<u8>, b0: u8, b1: u8, b2: u8, b3: u8) -> (r: bool)
    requires
        data.len() >= 4,
    ensures
        r == (data@.subrange(0, 4) == seq![b0, b1, b2, b3]),
{
    let r = data[0] == b0 && data[1] == b1 && data[2] == b2 && data[3] == b3;
    proof {
        let head = data@.subrange(0, 4);
        let want = seq![b0, b1, b2, b3];
        if r {
            assert(head =~= want);
        } else {
            assert(head[0] == data[0] && head[1] == data[1] && head[2] == data[2] && head[3]
                == data[3]);
            assert(want[0] == b0 && want[1] == b1 && want[2] == b2 && want[3] == b3);
        }
    }
    r
}

/// Recognises the call that `data` holds, if it is one of the two.
pub fn decode_call(data: &Vec<u8>) -> (out: Option<Call>)
    ensures
        out == spec_decode_call(data@),
{
    if data.len() < 4 {
        return None;
    }
    if has_selector(data, 0x9a, 0x86, 0x74, 0x69) {
        let rest = bytes_from(data.as_slice(), 4);
        let kinds: Vec<AbiKind> = vec![AbiKind::Int(128), AbiKind::Uint(128), AbiKind::Uint(128)];
        assert(kinds@ =~= coop_withdraw_kinds());
        coop_withdraw_from_values(abi_decode(&kinds, &rest))
    } else if has_selector(data, 0xa5, 0x86, 0x6b, 0x94) {
        let rest = bytes_from(data.as_slice(), 4);
        let kinds: Vec<AbiKind> = vec![AbiKind::Int(128)];
        assert(kinds@ =~= dispute_kinds());
        dispute_from_values(abi_decode(&kinds, &rest))
    } else {
        None
    }
}

/// The factory call that deploys the channel account of parties `party_a`
/// and `party_b` with the given salt.
pub open spec fn create_account_encoding(party_a: Seq<u8>, party_b: Seq<u8>, salt: nat) -> Seq<u8> {
    create_account_selector() + spec_abi_encode(
        seq![AbiTerm::Address(party_a), AbiTerm::Address(party_b), AbiTerm::Uint(salt)],
    )
}

/// Builds the factory call that deploys the channel account.
pub fn encode_create_account(party_a: Address, party_b: Address, salt: U256) -> (out: Vec<u8>)
    ensures
        out@ == create_account_encoding(party_a@, party_b@, salt@),
{
    let mut out: Vec<u8> = Vec::new();
    out.push(0x12);
    out.push(0x30);
    out.push(0xae);
    out.push(0xa2);
    assert(out@ =~= create_account_selector());
    let mut values: Vec<AbiValue> = Vec::new();
    values.push(AbiValue::Address(party_a));
    values.push(AbiValue::Address(party_b));
    values.push(AbiValue::Uint(salt));
    assert(terms(values@) =~= seq![
        AbiTerm::Address(party_a@),
        AbiTerm::Address(party_b@),
        AbiTerm::Uint(salt@),
    ]);
    let coded = abi_encode(&values);
    append_bytes(&mut out, coded.as_slice());
    out
}

/// A read-only call by which the chain is asked about a channel.
#[derive(Clone, Copy, Debug)]
pub enum Query {
    /// The factory's `getAddress(address,address,uint256)`: the address of
    /// the account of two parties with a salt.
    AccountAddress { party_a: Address, party_b: Address, salt: U256 },
    /// The account's `balanceA()`.
    BalanceA,
    /// The account's `balanceB()`.
    BalanceB,
    /// The account's `disputeTimestamp()`.
    DisputeTimestamp,
    /// The account's `disputeValue()`.
    DisputeValue,
    /// The account's `disputeStartNonce()`.
    DisputeStartNonce,
}

impl Query {
    /// The four bytes that select the call.
    pub open spec fn selector(self) -> Seq<u8> {
        match self {
            Query::AccountAddress { .. } => seq![0x08u8, 0xa6u8, 0x35u8, 0x4eu8],
            Query::BalanceA => seq![0x9cu8, 0x4eu8, 0xdau8, 0x5cu8],
            Query::BalanceB => seq![0x32u8, 0x73u8, 0x3au8, 0x08u8],
            Query::DisputeTimestamp => seq![0xc3u8, 0x01u8, 0x8fu8, 0x98u8],
            Query::DisputeValue => seq![0x0du8, 0xbfu8, 0x29u8, 0xc7u8],
            Query::DisputeStartNonce => seq![0xa0u8, 0x89u8, 0xffu8, 0xa7u8],
        }
    }

    /// The arguments of the call, as ABI terms.
    pub open spec fn arguments(self) -> Seq<AbiTerm> {
        match self {
            Query::AccountAddress { party_a, party_b, salt } => seq![
                AbiTerm::Address(party_a@),
                AbiTerm::Address(party_b@),
                AbiTerm::Uint(salt@),
            ],
            _ => Seq::empty(),
        }
    }

    /// The call data: selector, then the coded arguments.
    pub open spec fn encoding(self) -> Seq<u8> {
        self.selector() + spec_abi_encode(self.arguments())
    }

    /// Builds the call data.
    pub fn encode(&self) -> (out: Vec<u8>)
        ensures
            out@ == self.encoding(),
    {
        let mut out: Vec<u8> = Vec::new();
        let mut values: Vec<AbiValue> = Vec::new();
        match *self {
            Query::AccountAddress { party_a, party_b, salt } => {
                out.push(0x08);
                out.push(0xa6);
                out.push(0x35);
                out.push(0x4e);
                values.push(AbiValue::Address(party_a));
                values.push(AbiValue::Address(party_b));
                values.push(AbiValue::Uint(salt));
            },
            Query::BalanceA => {
                out.push(0x9c);
                out.push(0x4e);
                out.push(0xda);
                out.push(0x5c);
            },
            Query::BalanceB => {
                out.push(0x32);
                out.push(0x73);
                out.push(0x3a);
                out.push(0x08);
            },
            Query::DisputeTimestamp => {
                out.push(0xc3);
                out.push(0x01);
                out.push(0x8f);
                out.push(0x98);
            },
            Query::DisputeValue => {
                out.push(0x0d);
                out.push(0xbf);
                out.push(0x29);
                out.push(0xc7);
            },
            Query::DisputeStartNonce => {
                out.push(0xa0);
                out.push(0x89);
                out.push(0xff);
                out.push(0xa7);
            },
        }
        assert(out@ =~= self.selector());
        assert(terms(values@) =~= self.arguments());
        let coded = abi_encode(&values);
        append_bytes(&mut out, coded.as_slice());
        out
    }
}

/// The one term that an answer decodes to, where it decodes to one.
pub open spec fn single_term(decoded: Option<Seq<AbiTerm>>) -> Option<AbiTerm> {
    match decoded {
        Some(t) => if t.len() == 1 {
            Some(t[0])
        } else {
            None
        },
        None => None,
    }
}

/// The unsigned word that an answer of type `uintN` holds.
pub open spec fn spec_answer_uint(bits: usize, answer: Seq<u8>) -> Option<nat> {
    match single_term(spec_abi_decode(seq![AbiKind::Uint(bits)], answer)) {
        Some(AbiTerm::Uint(w)) => Some(w),
        _ => None,
    }
}

/// The signed 128-bit number that an answer of type `int128` holds: the low
/// half of its word.
pub open spec fn spec_answer_int128(answer: Seq<u8>) -> Option<int> {
    match single_term(spec_abi_decode(seq![AbiKind::Int(128)], answer)) {
        Some(AbiTerm::Int(w)) => Some(low_signed(w)),
        _ => None,
    }
}

/// The address that an answer of type `address` holds.
pub open spec fn spec_answer_address(answer: Seq<u8>) -> Option<Seq<u8>> {
    match single_term(spec_abi_decode(seq![AbiKind::Address], answer)) {
        Some(AbiTerm::Address(a)) => Some(a),
        _ => None,
    }
}

/// The one value of a decoded answer.
fn single_value(decoded: Option<Vec<AbiValue>>) -> (out: Option<AbiValue>)
    ensures
        out is Some <==> single_term(
            match decoded {
                Some(v) => Some(terms(v@)),
                None => None,
            },
        ) is Some,
        out matches Some(v) ==> single_term(
            match decoded {
                Some(v) => Some(terms(v@)),
                None => None,
            },
        ) == Some(v@),
{
    match decoded {
        Some(mut values) => {
            if values.len() != 1 {
                return None;
            }
            values.pop()
        },
        None => None,
    }
}

/// Reads the answer to a query that returns `uint128`: the low 128 bits of
/// the word.
pub fn answer_u128(answer: &Vec<u8>) -> (out: Option<u128>)
    ensures
        out is Some <==> spec_answer_uint(128, answer@) is Some,
        out matches Some(v) ==> v == spec_answer_uint(128, answer@)->Some_0 as int % pow128(),
{
    let kinds: Vec<AbiKind> = vec![AbiKind::Uint(128)];
    assert(kinds@ =~= seq![AbiKind::Uint(128)]);
    match single_value(abi_decode(&kinds, answer)) {
        Some(AbiValue::Uint(word)) => Some(word.low_u128()),
        _ => None,
    }
}

/// Reads the answer to a query that returns `uint64`: the low 64 bits of the
/// word.
pub fn answer_u64(answer: &Vec<u8>) -> (out: Option<u64>)
    ensures
        out is Some <==> spec_answer_uint(64, answer@) is Some,
        out matches Some(v) ==> v == spec_answer_uint(64, answer@)->Some_0 as int % pow64(),
{
    let kinds: Vec<AbiKind> = vec![AbiKind::Uint(64)];
    assert(kinds@ =~= seq![AbiKind::Uint(64)]);
    match single_value(abi_decode(&kinds, answer)) {
        Some(AbiValue::Uint(word)) => Some(word.low_u64()),
        _ => None,
    }
}

/// Reads the answer to a query that returns `int128`.
pub fn answer_i128(answer: &Vec<u8>) -> (out: Option<i128>)
    ensures
        out is Some <==> spec_answer_int128(answer@) is Some,
        out matches Some(v) ==> spec_answer_int128(answer@) == Some(v as int),
{
    let kinds: Vec<AbiKind> = vec![AbiKind::Int(128)];
    assert(kinds@ =~= seq![AbiKind::Int(128)]);
    match single_value(abi_decode(&kinds, answer)) {
        Some(AbiValue::Int(word)) => Some(word.low_i128()),
        _ => None,
    }
}

/// Reads the answer to a query that returns `address`.
pub fn answer_address(answer: &Vec<u8>) -> (out: Option<Address>)
    ensures
        out is Some <==> spec_answer_address(answer@) is Some,
        out matches Some(a) ==> spec_answer_address(answer@) == Some(a@),
{
    let kinds: Vec<AbiKind> = vec![AbiKind::Address];
    assert(kinds@ =~= seq![AbiKind::Address]);
    match single_value(abi_decode(&kinds, answer)) {
        Some(AbiValue::Address(a)) => Some(a),
        _ => None,
    }
}

} // verus!
