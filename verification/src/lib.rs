//! Client-side engine of a two-party payment channel that lives in a
//! contract-derived account: identity derivation, construction and validation
//! of signed operations, co-signature aggregation, balance and dispute
//! accounting, and the single-slot pending-message state machine.
//!
//! The engine never touches the network: what the chain holds is handed to it
//! as plain values ([`Account`], [`DisputeReading`]), and what has to be sent
//! is handed back ([`Countersigned`]).
//!
//! The functions of this crate are verified against their contracts, which
//! are stated over the models in [`channel::ChannelView`] and its parts. What
//! an outside crate computes (hashing, ABI coding, secp256k1 signing and
//! recovery, randomness) enters through a handful of wrappers in [`abi`] and
//! [`keys`], whose contracts are taken on trust; each of them says so in its
//! documentation.

pub mod abi;
pub mod bytes;
pub mod calls;
pub mod channel;
pub mod error;
pub mod keys;
pub mod laws;
pub mod ledger;
pub mod message;
pub mod operation;
pub mod primitives;

pub use calls::{Call, Query};
pub use channel::{Channel, ChannelRecord, Countersigned, Identities};
pub use error::Error;
pub use ledger::{Account, DisputeInfo, DisputeReading};
pub use message::{Message, TransferMessage, WithdrawalMessage};
pub use operation::Operation;
pub use primitives::{Address, Party, U256};
