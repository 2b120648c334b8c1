//! Messages: an operation together with what it means for the two parties.

use crate::operation::{Operation, OperationView};
use vstd::prelude::*;

verus! {

/// An operation that records a new net transfer value.
#[derive(Debug, PartialEq, Eq)]
pub struct TransferMessage {
    pub userop: Operation,
    /// The net transfer value once the operation is agreed on; positive
    /// means value moved from party A to party B.
    pub value_transfer: i128,
}

/// An operation that pays both parties out.
#[derive(Debug, PartialEq, Eq)]
pub struct WithdrawalMessage {
    pub userop: Operation,
    /// What the instance that holds the message withdraws.
    pub withdraw_us: u128,
    /// What its counterparty withdraws.
    pub withdraw_them: u128,
}

/// A proposed or committed step of the channel.
#[derive(Debug, PartialEq, Eq)]
pub enum Message {
    Transfer(TransferMessage),
    Withdrawal(WithdrawalMessage),
}

/// What a [`Message`] stands for.
pub enum MessageView {
    Transfer { userop: OperationView, value_transfer: int },
    Withdrawal { userop: OperationView, withdraw_us: nat, withdraw_them: nat },
}

impl MessageView {
    /// The operation that the message wraps.
    pub open spec fn operation(self) -> OperationView {
        match self {
            MessageView::Transfer { userop, .. } => userop,
            MessageView::Withdrawal { userop, .. } => userop,
        }
    }

    /// The same message around another operation.
    pub open spec fn with_operation(self, userop: OperationView) -> MessageView {
        match self {
            MessageView::Transfer { value_transfer, .. } => MessageView::Transfer {
                userop,
                value_transfer,
            },
            MessageView::Withdrawal { withdraw_us, withdraw_them, .. } => MessageView::Withdrawal {
                userop,
                withdraw_us,
                withdraw_them,
            },
        }
    }

    /// Whether the message settles on the chain once both parties have
    /// signed: a withdrawal does, a transfer stays between the parties.
    pub open spec fn settles(self) -> bool {
        self is Withdrawal
    }

    /// The net transfer value that is outstanding once the message is the
    /// last of the history: that of a transfer, none after a withdrawal.
    pub open spec fn outstanding(self) -> int {
        match self {
            MessageView::Transfer { value_transfer, .. } => value_transfer,
            MessageView::Withdrawal { .. } => 0,
        }
    }
}

impl View for TransferMessage {
    type V = MessageView;

    open spec fn view(&self) -> MessageView {
        MessageView::Transfer { userop: self.userop@, value_transfer: self.value_transfer as int }
    }
}

impl View for WithdrawalMessage {
    type V = MessageView;

    open spec fn view(&self) -> MessageView {
        MessageView::Withdrawal {
            userop: self.userop@,
            withdraw_us: self.withdraw_us as nat,
            withdraw_them: self.withdraw_them as nat,
        }
    }
}

impl View for Message {
    type V = MessageView;

    open spec fn view(&self) -> MessageView {
        match *self {
            Message::Transfer(m) => m@,
            Message::Withdrawal(m) => m@,
        }
    }
}

impl Clone for TransferMessage {
    fn clone(&self) -> (r: Self)
        ensures
            r@ == self@,
    {
        TransferMessage { userop: self.userop.clone(), value_transfer: self.value_transfer }
    }
}

impl Clone for WithdrawalMessage {
    fn clone(&self) -> (r: Self)
        ensures
            r@ == self@,
    {
        WithdrawalMessage {
            userop: self.userop.clone(),
            withdraw_us: self.withdraw_us,
            withdraw_them: self.withdraw_them,
        }
    }
}

impl Clone for Message {
    fn clone(&self) -> (r: Self)
        ensures
            r@ == self@,
    {
        match self {
            Message::Transfer(m) => Message::Transfer(m.clone()),
            Message::Withdrawal(m) => Message::Withdrawal(m.clone()),
        }
    }
}

impl Message {
    /// The operation that the message wraps.
    pub fn operation(&self) -> (r: &Operation)
        ensures
            r@ == self@.operation(),
    {
        match self {
            Message::Transfer(m) => &m.userop,
            Message::Withdrawal(m) => &m.userop,
        }
    }

    /// Whether the message is a withdrawal.
    pub fn is_withdrawal(&self) -> (r: bool)
        ensures
            r == (self@ is Withdrawal),
            r == self@.settles(),
    {
        match self {
            Message::Transfer(_) => false,
            Message::Withdrawal(_) => true,
        }
    }

    /// The net transfer value that is outstanding once the message is the
    /// last of the history.
    pub fn outstanding(&self) -> (r: i128)
        ensures
            r == self@.outstanding(),
    {
        match self {
            Message::Transfer(m) => m.value_transfer,
            Message::Withdrawal(_) => 0,
        }
    }

    /// The same message around another operation.
    pub fn with_operation(self, userop: Operation) -> (r: Message)
        ensures
            r@ == self@.with_operation(userop@),
    {
        match self {
            Message::Transfer(m) => Message::Transfer(
                TransferMessage { userop, value_transfer: m.value_transfer },
            ),
            Message::Withdrawal(m) => Message::Withdrawal(
                WithdrawalMessage {
                    userop,
                    withdraw_us: m.withdraw_us,
                    withdraw_them: m.withdraw_them,
                },
            ),
        }
    }
}

} // verus!
