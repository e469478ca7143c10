//! The messages that host and device exchange, as typed values.
//!
//! The byte form of a message's fields is the codec's business; the driver decides on
//! message types and on the few fields it reads and fills.

use vstd::prelude::*;

verus! {

/// The types of the messages that the driver sends or tells apart.
#[derive(Debug, Clone, Copy, PartialEq, Eq, Structural)]
pub enum MessageType {
    /// The device could not carry out the last request.
    Failure,
    /// The host hands in a PIN.
    PinMatrixAck,
    /// The user declined on the device.
    Cancel,
    /// The device waits for the user to press its button.
    ButtonRequest,
    /// The host acknowledges a button request.
    ButtonAck,
    /// The host asks for the address at a derivation path.
    EthereumGetAddress,
    /// The device answers with an address.
    EthereumAddress,
    /// The host asks for a transaction to be signed.
    EthereumSignTx,
    /// The device asks for more transaction data, or hands out the signature.
    EthereumTxRequest,
    /// The host sends more transaction data.
    EthereumTxAck,
}

impl MessageType {
    /// The number that stands for the type on the wire.
    pub open spec fn spec_id(self) -> u16 {
        match self {
            MessageType::Failure => 3,
            MessageType::PinMatrixAck => 19,
            MessageType::Cancel => 20,
            MessageType::ButtonRequest => 26,
            MessageType::ButtonAck => 27,
            MessageType::EthereumGetAddress => 56,
            MessageType::EthereumAddress => 57,
            MessageType::EthereumSignTx => 58,
            MessageType::EthereumTxRequest => 59,
            MessageType::EthereumTxAck => 60,
        }
    }

    /// The type that a wire number stands for, if the driver knows it.
    pub open spec fn spec_from_id(id: u16) -> Option<MessageType> {
        if id == 3 {
            Some(MessageType::Failure)
        } else if id == 19 {
            Some(MessageType::PinMatrixAck)
        } else if id == 20 {
            Some(MessageType::Cancel)
        } else if id == 26 {
            Some(MessageType::ButtonRequest)
        } else if id == 27 {
            Some(MessageType::ButtonAck)
        } else if id == 56 {
            Some(MessageType::EthereumGetAddress)
        } else if id == 57 {
            Some(MessageType::EthereumAddress)
        } else if id == 58 {
            Some(MessageType::EthereumSignTx)
        } else if id == 59 {
            Some(MessageType::EthereumTxRequest)
        } else if id == 60 {
            Some(MessageType::EthereumTxAck)
        } else {
            None
        }
    }

    /// The number that stands for the type on the wire.
    pub fn id(self) -> (id: u16)
        ensures
            id == self.spec_id(),
    {
        match self {
            MessageType::Failure => 3,
            MessageType::PinMatrixAck => 19,
            MessageType::Cancel => 20,
            MessageType::ButtonRequest => 26,
            MessageType::ButtonAck => 27,
            MessageType::EthereumGetAddress => 56,
            MessageType::EthereumAddress => 57,
            MessageType::EthereumSignTx => 58,
            MessageType::EthereumTxRequest => 59,
            MessageType::EthereumTxAck => 60,
        }
    }

    /// The type that a wire number stands for; `None` for a number the driver has no
    /// name for.
    pub fn from_id(id: u16) -> (known: Option<MessageType>)
        ensures
            known == MessageType::spec_from_id(id),
    {
        match id {
            3 => Some(MessageType::Failure),
            19 => Some(MessageType::PinMatrixAck),
            20 => Some(MessageType::Cancel),
            26 => Some(MessageType::ButtonRequest),
            27 => Some(MessageType::ButtonAck),
            56 => Some(MessageType::EthereumGetAddress),
            57 => Some(MessageType::EthereumAddress),
            58 => Some(MessageType::EthereumSignTx),
            59 => Some(MessageType::EthereumTxRequest),
            60 => Some(MessageType::EthereumTxAck),
            _ => None,
        }
    }
}

/// The request to sign a transaction, field by field as the device takes it.
#[derive(Debug, Clone)]
pub struct SignRequest {
    /// The derivation path of the signing key.
    pub address_n: Vec<u32>,
    /// The nonce, as an integer field.
    pub nonce: Vec<u8>,
    /// The gas price, as an integer field.
    pub gas_price: Vec<u8>,
    /// The gas limit, as an integer field.
    pub gas_limit: Vec<u8>,
    /// The twenty bytes of the destination, where there is one.
    pub to: Option<Vec<u8>>,
    /// The value, as an integer field.
    pub value: Vec<u8>,
    /// The first bytes of the transaction data, at most 1024 of them.
    pub data_initial_chunk: Vec<u8>,
    /// The length of all the transaction data.
    pub data_length: u32,
    /// The chain id, where one was given.
    pub chain_id: Option<u32>,
}

/// A message from host to device.
#[derive(Debug, Clone)]
pub enum Request {
    /// Asks for the address at a derivation path.
    GetAddress { address_n: Vec<u32>, show_display: bool },
    /// Hands in a PIN.
    PinMatrixAck { pin: String },
    /// Asks for a transaction to be signed.
    SignTx(SignRequest),
    /// Acknowledges a button request.
    ButtonAck,
    /// Sends the next bytes of the transaction data.
    TxAck { data_chunk: Vec<u8> },
}

impl Request {
    /// The type under which the request travels.
    pub open spec fn spec_message_type(&self) -> MessageType {
        match self {
            Request::GetAddress { .. } => MessageType::EthereumGetAddress,
            Request::PinMatrixAck { .. } => MessageType::PinMatrixAck,
            Request::SignTx(_) => MessageType::EthereumSignTx,
            Request::ButtonAck => MessageType::ButtonAck,
            Request::TxAck { .. } => MessageType::EthereumTxAck,
        }
    }

    /// The type under which the request travels.
    pub fn message_type(&self) -> (message_type: MessageType)
        ensures
            message_type == self.spec_message_type(),
    {
        match self {
            Request::GetAddress { .. } => MessageType::EthereumGetAddress,
            Request::PinMatrixAck { .. } => MessageType::PinMatrixAck,
            Request::SignTx(_) => MessageType::EthereumSignTx,
            Request::ButtonAck => MessageType::ButtonAck,
            Request::TxAck { .. } => MessageType::EthereumTxAck,
        }
    }
}

/// What the device says while a transaction is being signed: either how many bytes of
/// data it wants next, or, with no such number, the signature.
#[derive(Debug, Clone)]
pub struct TxRequest {
    /// The number of data bytes that the device asks for; `None` once it has signed.
    pub data_length: Option<u32>,
    /// The `v` of the signature, as the device computed it.
    pub signature_v: u32,
    /// The `r` of the signature.
    pub signature_r: Vec<u8>,
    /// The `s` of the signature.
    pub signature_s: Vec<u8>,
}

/// A message from device to host, as far as the driver tells messages apart.
#[derive(Debug, Clone)]
pub enum Response {
    /// An address, as raw bytes.
    Address(Vec<u8>),
    /// A request for more data, or the signature.
    TxRequest(TxRequest),
    /// The last request failed.
    Failure,
    /// The user declined.
    Cancel,
    /// The device waits for its button.
    ButtonRequest,
    /// A message of the given type whose payload could not be read.
    Unreadable(MessageType),
    /// Any other message.
    Other,
}

impl Response {
    /// The type under which the response came, where the driver has a name for it.
    pub open spec fn spec_message_type(&self) -> Option<MessageType> {
        match self {
            Response::Address(_) => Some(MessageType::EthereumAddress),
            Response::TxRequest(_) => Some(MessageType::EthereumTxRequest),
            Response::Failure => Some(MessageType::Failure),
            Response::Cancel => Some(MessageType::Cancel),
            Response::ButtonRequest => Some(MessageType::ButtonRequest),
            Response::Unreadable(message_type) => Some(*message_type),
            Response::Other => None,
        }
    }
}

} // verus!
