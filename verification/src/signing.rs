//! Signing a transaction: the request that opens the handshake, and the decisions that
//! carry it to a signature or to an error.
//!
//! The caller sends what a step tells it to send and hands back what the device answered;
//! the session keeps count of the transaction data already sent.

use vstd::prelude::*;
use crate::error::{Error, LAST_MESSAGE_FAILED, UNEXPECTED_RESPONSE, UNREADABLE_RESPONSE};
use crate::keypath::KeyPath;
use crate::message::{MessageType, Request, Response, SignRequest};
use crate::uint::{encode_uint, spec_be_bytes};
use crate::wallet::{spec_fit, Signature, TransactionInfo};

verus! {

/// The most transaction data that travels inside the sign request itself.
pub const INLINE_DATA_MAX: usize = 1024;

/// How long to leave the device alone after acknowledging a button request, in
/// milliseconds.
pub const BUTTON_PAUSE_MS: u64 = 200;

/// The number of data bytes that go into the sign request, of `len` in all.
pub open spec fn spec_inline_len(len: nat) -> nat {
    if len <= 1024 {
        len
    } else {
        1024
    }
}

/// An integer as it travels in an unsigned 32-bit field: its low 32 bits, which are all
/// of it up to `u32::MAX`.
pub open spec fn spec_field32(value: nat) -> nat {
    value % 0x1_0000_0000
}

/// What the device adds to the recovery id to make its `v`: `35 + 2 * chain_id` where a
/// chain id was given, 27 where none was. The chain id is the one that the device was
/// sent, in its 32-bit field.
pub open spec fn spec_v_offset(chain_id: Option<u64>) -> int {
    match chain_id {
        Some(id) => 35 + 2 * (spec_field32(id as nat) as int),
        None => 27,
    }
}

/// Whether `v` gives a recovery id: it is no less than what the device added.
pub open spec fn spec_has_recovery_id(v: u32, chain_id: Option<u64>) -> bool {
    spec_v_offset(chain_id) <= v
}

/// What the device added to the recovery id.
fn v_offset(chain_id: Option<u64>) -> (offset: u64)
    ensures
        offset == spec_v_offset(chain_id),
{
    match chain_id {
        Some(id) => 35 + 2 * (id % 0x1_0000_0000),
        None => 27,
    }
}

/// Whether `v` gives a recovery id under this chain id.
pub fn has_recovery_id(v: u32, chain_id: Option<u64>) -> (has: bool)
    ensures
        has == spec_has_recovery_id(v, chain_id),
{
    v_offset(chain_id) <= v as u64
}

/// Undoes the device's adjustment of `v`: the recovery id is `v - (35 + 2 * chain_id)`
/// where a chain id was given, and `v - 27` where none was. The recovery id is a byte:
/// of a difference above 255 the low byte is kept.
pub fn recovery_id(v: u32, chain_id: Option<u64>) -> (id: u8)
    requires
        spec_has_recovery_id(v, chain_id),
    ensures
        id == (v - spec_v_offset(chain_id)) % 256,
        v - spec_v_offset(chain_id) <= 255 ==> id == v - spec_v_offset(chain_id),
{
    ((v as u64 - v_offset(chain_id)) % 256) as u8
}

/// Copies the bytes of `data` from `from` up to `to`.
pub fn copy_range(data: &[u8], from: usize, to: usize) -> (part: Vec<u8>)
    requires
        from <= to <= data.len(),
    ensures
        part@ == data@.subrange(from as int, to as int),
{
    let mut part: Vec<u8> = Vec::new();
    let mut i: usize = from;
    while i < to
        invariant
            from <= i <= to <= data.len(),
            part@ =~= data@.subrange(from as int, i as int),
        decreases to - i,
    {
        part.push(data[i]);
        i += 1;
    }
    part
}

/// Builds the request that opens the signing of `t_info` with the key at `key_path`.
///
/// The integer fields are the shortest big-endian byte strings of their values; the
/// destination is carried as it is; the first 1024 bytes of data travel with the request,
/// beside the length of all of it. The length and the chain id travel in unsigned 32-bit
/// fields.
pub fn sign_request(key_path: KeyPath, t_info: &TransactionInfo) -> (request: SignRequest)
    ensures
        request.address_n@ == key_path.spec_derivation_path(),
        request.nonce@ == spec_be_bytes(t_info.nonce@),
        request.gas_price@ == spec_be_bytes(t_info.gas_price@),
        request.gas_limit@ == spec_be_bytes(t_info.gas_limit@),
        request.value@ == spec_be_bytes(t_info.value@),
        match t_info.to {
            Some(address) => request.to matches Some(to) && to@ == address@,
            None => request.to is None,
        },
        request.data_initial_chunk@ == t_info.data@.take(
            spec_inline_len(t_info.data@.len()) as int,
        ),
        request.data_length == spec_field32(t_info.data@.len()),
        t_info.data@.len() <= u32::MAX ==> request.data_length == t_info.data@.len(),
        match t_info.network_id {
            Some(id) => request.chain_id matches Some(chain) && chain == spec_field32(id as nat)
                && (id <= u32::MAX ==> chain == id),
            None => request.chain_id is None,
        },
{
    let to = match &t_info.to {
        Some(address) => Some(address.to_vec()),
        None => None,
    };
    let len = t_info.data.len();
    let inline = if len <= INLINE_DATA_MAX {
        len
    } else {
        INLINE_DATA_MAX
    };
    let chain_id = match t_info.network_id {
        Some(id) => Some((id % 0x1_0000_0000) as u32),
        None => None,
    };
    SignRequest {
        address_n: key_path.derivation_path(),
        nonce: encode_uint(&t_info.nonce),
        gas_price: encode_uint(&t_info.gas_price),
        gas_limit: encode_uint(&t_info.gas_limit),
        to,
        value: encode_uint(&t_info.value),
        data_initial_chunk: copy_range(t_info.data.as_slice(), 0, inline),
        data_length: (len as u64 % 0x1_0000_0000) as u32,
        chain_id,
    }
}

/// What the caller of a signing session has to do next.
#[derive(Debug)]
pub enum SignStep {
    /// Send `request`, wait `pause_ms` milliseconds, and read the next response.
    Send { request: Request, pause_ms: u64 },
    /// The device has signed.
    Done(Signature),
    /// The handshake is over without a signature.
    Fail(Error),
}

/// The state of one signing handshake: the transaction's chain id and data, and how many
/// bytes of the data the device has been sent.
#[derive(Debug)]
pub struct SigningSession {
    chain_id: Option<u64>,
    data: Vec<u8>,
    sent: usize,
}

impl SigningSession {
    /// The chain id of the transaction.
    pub closed spec fn spec_chain_id(&self) -> Option<u64> {
        self.chain_id
    }

    /// All the data of the transaction.
    pub closed spec fn spec_data(&self) -> Seq<u8> {
        self.data@
    }

    /// The number of data bytes sent so far, those inside the sign request included.
    pub closed spec fn spec_sent(&self) -> nat {
        self.sent as nat
    }

    /// No more is sent than there is.
    pub open spec fn wf(&self) -> bool {
        self.spec_sent() <= self.spec_data().len()
    }

    /// The number of data bytes not sent yet.
    pub open spec fn spec_remaining(&self) -> nat {
        (self.spec_data().len() - self.spec_sent()) as nat
    }

    /// Whether the session can act on a response: a request for more data asks for no
    /// more than is left, and a signature's `v` is no less than what the device added.
    pub open spec fn spec_accepts(&self, response: &Response) -> bool {
        response matches Response::TxRequest(tx) ==> match tx.data_length {
            Some(n) => n <= self.spec_remaining(),
            None => spec_has_recovery_id(tx.signature_v, self.spec_chain_id()),
        }
    }

    /// What the session answers to a response, and how many bytes it has sent afterwards.
    /// The type of the response decides.
    ///
    /// A cancel ends in `UserCancel`. A button request is acknowledged, with a pause, and
    /// nothing else changes. A request for `n` bytes is answered with exactly the next `n`
    /// unsent bytes. A request that asks for none carries the signature, whose recovery id
    /// is `v` less the chain's offset. A request that cannot be read ends in a protocol
    /// error, and so does a failure, read or not, and every message of another type.
    pub open spec fn spec_answers(&self, response: &Response, step: SignStep, sent: nat) -> bool {
        match response.spec_message_type() {
            Some(MessageType::Cancel) => step is Fail && step->Fail_0 is UserCancel && sent
                == self.spec_sent(),
            Some(MessageType::ButtonRequest) => {
                &&& step matches SignStep::Send { request, pause_ms }
                &&& request is ButtonAck
                &&& pause_ms == BUTTON_PAUSE_MS
                &&& sent == self.spec_sent()
            },
            Some(MessageType::EthereumTxRequest) => match response {
                Response::TxRequest(tx) => match tx.data_length {
                    Some(n) => {
                        &&& step matches SignStep::Send { request, pause_ms }
                        &&& request matches Request::TxAck { data_chunk }
                        &&& data_chunk@ == self.spec_data().subrange(
                            self.spec_sent() as int,
                            self.spec_sent() + n,
                        )
                        &&& pause_ms == 0
                        &&& sent == self.spec_sent() + n
                    },
                    None => {
                        &&& step matches SignStep::Done(signature)
                        &&& signature.r@ == spec_fit(tx.signature_r@, 32)
                        &&& signature.s@ == spec_fit(tx.signature_s@, 32)
                        &&& signature.v == (tx.signature_v - spec_v_offset(
                            self.spec_chain_id(),
                        )) % 256
                        &&& sent == self.spec_sent()
                    },
                },
                _ => step is Fail && step->Fail_0.is_protocol(UNREADABLE_RESPONSE) && sent
                    == self.spec_sent(),
            },
            Some(MessageType::Failure) => step is Fail && step->Fail_0.is_protocol(
                LAST_MESSAGE_FAILED,
            ) && sent == self.spec_sent(),
            _ => step is Fail && step->Fail_0.is_protocol(UNEXPECTED_RESPONSE) && sent
                == self.spec_sent(),
        }
    }

    /// Opens a session for a transaction whose sign request has just been built: the
    /// bytes that travelled inside the request count as sent.
    pub fn start(t_info: &TransactionInfo) -> (session: SigningSession)
        ensures
            session.wf(),
            session.spec_chain_id() == t_info.network_id,
            session.spec_data() == t_info.data@,
            session.spec_sent() == spec_inline_len(t_info.data@.len()),
    {
        let len = t_info.data.len();
        let sent = if len <= INLINE_DATA_MAX {
            len
        } else {
            INLINE_DATA_MAX
        };
        SigningSession {
            chain_id: t_info.network_id,
            data: copy_range(t_info.data.as_slice(), 0, len),
            sent,
        }
    }

    /// The number of data bytes sent so far.
    pub fn sent(&self) -> (sent: usize)
        ensures
            sent == self.spec_sent(),
    {
        self.sent
    }

    /// The number of data bytes not sent yet.
    pub fn remaining(&self) -> (left: usize)
        requires
            self.wf(),
        ensures
            left == self.spec_remaining(),
    {
        self.data.len() - self.sent
    }

    /// Whether the session can act on a response.
    pub fn accepts(&self, response: &Response) -> (ok: bool)
        requires
            self.wf(),
        ensures
            ok == self.spec_accepts(response),
    {
        match response {
            Response::TxRequest(tx) => match tx.data_length {
                Some(n) => n as usize <= self.data.len() - self.sent,
                None => has_recovery_id(tx.signature_v, self.chain_id),
            },
            _ => true,
        }
    }

    /// Decides what follows a response of the device.
    pub fn on_response(&mut self, response: &Response) -> (step: SignStep)
        requires
            old(self).wf(),
            old(self).spec_accepts(response),
        ensures
            final(self).wf(),
            final(self).spec_chain_id() == old(self).spec_chain_id(),
            final(self).spec_data() == old(self).spec_data(),
            old(self).spec_answers(response, step, final(self).spec_sent()),
    {
        match response {
            Response::Cancel | Response::Unreadable(MessageType::Cancel) => SignStep::Fail(
                Error::UserCancel,
            ),
            Response::ButtonRequest | Response::Unreadable(MessageType::ButtonRequest) => {
                SignStep::Send { request: Request::ButtonAck, pause_ms: BUTTON_PAUSE_MS }
            },
            Response::TxRequest(tx) => match tx.data_length {
                Some(n) => {
                    let from = self.sent;
                    let len = self.data.len();
                    let to = from + n as usize;
                    let data_chunk = copy_range(self.data.as_slice(), from, to);
                    self.sent = to;
                    SignStep::Send { request: Request::TxAck { data_chunk }, pause_ms: 0 }
                },
                None => {
                    let v = recovery_id(tx.signature_v, self.chain_id);
                    SignStep::Done(
                        Signature::from_rsv(
                            tx.signature_r.as_slice(),
                            tx.signature_s.as_slice(),
                            v,
                        ),
                    )
                },
            },
            Response::Unreadable(MessageType::EthereumTxRequest) => SignStep::Fail(
                Error::Protocol(UNREADABLE_RESPONSE),
            ),
            Response::Failure | Response::Unreadable(MessageType::Failure) => SignStep::Fail(
                Error::Protocol(LAST_MESSAGE_FAILED),
            ),
            _ => SignStep::Fail(Error::Protocol(UNEXPECTED_RESPONSE)),
        }
    }
}

/// The sum of a run of requested lengths.
pub open spec fn spec_total(lens: Seq<nat>) -> nat
    decreases lens.len(),
{
    if lens.len() == 0 {
        0
    } else {
        lens[0] + spec_total(lens.drop_first())
    }
}

/// The chunks that answer a run of requests, one behind the other, when `sent` bytes of
/// `data` were sent before the first of them.
pub open spec fn spec_chunks(data: Seq<u8>, sent: nat, lens: Seq<nat>) -> Seq<u8>
    decreases lens.len(),
{
    if lens.len() == 0 {
        Seq::empty()
    } else {
        data.subrange(sent as int, (sent + lens[0]) as int) + spec_chunks(
            data,
            sent + lens[0],
            lens.drop_first(),
        )
    }
}

/// The chunks that answer a run of requests are the data from where sending stood, in
/// order and without a gap, as long as the requests together ask for no more than is left.
pub proof fn lemma_chunks_are_data(data: Seq<u8>, sent: nat, lens: Seq<nat>)
    requires
        sent + spec_total(lens) <= data.len(),
    ensures
        spec_chunks(data, sent, lens) == data.subrange(
            sent as int,
            (sent + spec_total(lens)) as int,
        ),
    decreases lens.len(),
{
    if lens.len() == 0 {
        assert(data.subrange(sent as int, sent as int) =~= Seq::<u8>::empty());
    } else {
        lemma_chunks_are_data(data, sent + lens[0], lens.drop_first());
        let mid = (sent + lens[0]) as int;
        let end = (sent + spec_total(lens)) as int;
        assert(data.subrange(sent as int, mid) + data.subrange(mid, end) =~= data.subrange(
            sent as int,
            end,
        ));
    }
}

/// What is sent in all is the transaction data: the bytes inside the sign request and the
/// chunks behind them make up the data's beginning, and all of the data once the device
/// has asked for everything that was left. Their number is then the declared length.
pub proof fn lemma_data_conservation(data: Seq<u8>, lens: Seq<nat>)
    requires
        spec_inline_len(data.len()) + spec_total(lens) <= data.len(),
    ensures
        data.take(spec_inline_len(data.len()) as int) + spec_chunks(
            data,
            spec_inline_len(data.len()),
            lens,
        ) == data.take((spec_inline_len(data.len()) + spec_total(lens)) as int),
        spec_inline_len(data.len()) + spec_total(lens) == data.len() ==> data.take(
            spec_inline_len(data.len()) as int,
        ) + spec_chunks(data, spec_inline_len(data.len()), lens) == data,
{
    let first = spec_inline_len(data.len());
    lemma_chunks_are_data(data, first, lens);
    let end = (first + spec_total(lens)) as int;
    assert(data.take(first as int) + data.subrange(first as int, end) =~= data.take(end));
    if first + spec_total(lens) == data.len() {
        assert(data.take(data.len() as int) =~= data);
    }
}

} // verus!
