//! The device manager: the snapshot of attached wallets, the selected derivation path,
//! and the decisions of address query, PIN entry, signing and command dispatch.

use vstd::prelude::*;
use crate::discovery::{
    device_views, is_trezor, read_device_info, spec_active, spec_active_of, spec_is_fatal,
    spec_locked, spec_locked_of, string_views, Device, DeviceView, Probe,
};
use crate::error::{Error, UNREADABLE_RESPONSE};
use crate::json::{paths_reply, spec_json_strings};
use crate::keypath::KeyPath;
use crate::message::{MessageType, Request, Response};
use crate::signing::{sign_request, spec_field32, spec_inline_len, SigningSession};
use crate::wallet::{spec_fit, Address, TransactionInfo, WalletInfo};

verus! {

/// What a command asks the caller to do.
#[derive(Debug)]
pub enum Reply {
    /// Answer with this text.
    Text(String),
    /// Hand the PIN to the wallet at the path, and answer with whether it unlocked.
    Unlock { path: String, pin: String },
}

/// What it takes to sign a transaction: the path of the wallet to open, the request to
/// send first, and the session that decides on everything the wallet answers.
#[derive(Debug)]
pub struct SigningStart {
    pub path: String,
    pub request: Request,
    pub session: SigningSession,
}

/// Whether `index` is the first probe that ends the refresh.
pub open spec fn spec_is_first_fatal(probes: Seq<Probe>, index: int) -> bool {
    &&& 0 <= index < probes.len()
    &&& spec_is_fatal(&probes[index])
    &&& forall|j: int| 0 <= j < index ==> !spec_is_fatal(&#[trigger] probes[j])
}

/// Whether `index` is the first wallet record with the address.
pub open spec fn spec_is_first_with(devices: Seq<DeviceView>, address: Seq<u8>, index: int) -> bool {
    &&& 0 <= index < devices.len()
    &&& devices[index].info.address == address
    &&& forall|j: int| 0 <= j < index ==> (#[trigger] devices[j]).info.address != address
}

/// Whether no wallet record has the address.
pub open spec fn spec_none_with(devices: Seq<DeviceView>, address: Seq<u8>) -> bool {
    forall|j: int| 0 <= j < devices.len() ==> (#[trigger] devices[j]).info.address != address
}

/// The request that asks a wallet for the address at `key_path`, without showing it on
/// the wallet's display.
pub fn address_request(key_path: KeyPath) -> (request: Request)
    ensures
        request matches Request::GetAddress { address_n, show_display },
        request->GetAddress_address_n@ == key_path.spec_derivation_path(),
        request->GetAddress_show_display == false,
{
    Request::GetAddress { address_n: key_path.derivation_path(), show_display: false }
}

/// Reads the answer to an address query: an address response gives the address, an
/// address response that cannot be read is a protocol error, and every other message
/// means that the wallet gives no address, because it is locked.
pub fn address_of(response: &Response) -> (answer: Result<Option<Address>, Error>)
    ensures
        match *response {
            Response::Address(raw) => answer matches Ok(Some(address)) && address@ == spec_fit(
                raw@,
                20,
            ),
            Response::Unreadable(MessageType::EthereumAddress) => answer matches Err(e)
                && e.is_protocol(UNREADABLE_RESPONSE),
            _ => answer matches Ok(None),
        },
{
    match response {
        Response::Address(raw) => Ok(Some(Address::from_slice(raw.as_slice()))),
        Response::Unreadable(MessageType::EthereumAddress) => Err(
            Error::Protocol(UNREADABLE_RESPONSE),
        ),
        _ => Ok(None),
    }
}

/// The request that hands a PIN to a wallet.
pub fn pin_request(pin: &str) -> (request: Request)
    ensures
        request matches Request::PinMatrixAck { pin: sent },
        request->PinMatrixAck_pin@ == pin@,
{
    Request::PinMatrixAck { pin: pin.to_owned() }
}

/// Whether a wallet took the PIN: it did exactly if it answers with an address response.
/// Every other message, a failure among them, means that it is still locked.
pub fn pin_unlocked(response: &Response) -> (unlocked: bool)
    ensures
        unlocked == (response.spec_message_type() == Some(MessageType::EthereumAddress)),
{
    match response {
        Response::Address(_) => true,
        Response::Unreadable(MessageType::EthereumAddress) => true,
        _ => false,
    }
}

/// Trezor device manager.
pub struct Manager {
    devices: Vec<Device>,
    closed_devices: Vec<String>,
    key_path: KeyPath,
}

impl Manager {
    /// The wallets ready for use, as of the last refresh.
    pub closed spec fn spec_devices(&self) -> Seq<DeviceView> {
        device_views(self.devices@)
    }

    /// The paths of the locked wallets, as of the last refresh.
    pub closed spec fn spec_closed_devices(&self) -> Seq<Seq<char>> {
        string_views(self.closed_devices@)
    }

    /// The selected derivation path.
    pub closed spec fn spec_key_path(&self) -> KeyPath {
        self.key_path
    }

    /// Create a new instance: no wallets known, Ethereum's derivation path selected.
    pub fn new() -> (manager: Manager)
        ensures
            manager.spec_devices() == Seq::<DeviceView>::empty(),
            manager.spec_closed_devices() == Seq::<Seq<char>>::empty(),
            manager.spec_key_path() == KeyPath::Ethereum,
    {
        let manager = Manager {
            devices: Vec::new(),
            closed_devices: Vec::new(),
            key_path: KeyPath::Ethereum,
        };
        assert(manager.spec_devices() =~= Seq::<DeviceView>::empty());
        assert(manager.spec_closed_devices() =~= Seq::<Seq<char>>::empty());
        manager
    }

    /// Re-populate device list from what the attached devices answered.
    ///
    /// Devices that are no wallets are passed over. If asking a wallet failed for another
    /// reason than a missing PIN, the refresh ends with the first such error and the
    /// lists stay as they were. Otherwise both lists are replaced: the wallets that gave
    /// an address are ready for use, the others are locked; the number of wallets ready
    /// for use is returned.
    pub fn update_devices(&mut self, probes: &[Probe]) -> (result: Result<usize, Error>)
        ensures
            final(self).spec_key_path() == old(self).spec_key_path(),
            match result {
                Ok(count) => {
                    &&& forall|i: int|
                        0 <= i < probes@.len() ==> !spec_is_fatal(&#[trigger] probes@[i])
                    &&& final(self).spec_devices() == spec_active(probes@)
                    &&& final(self).spec_closed_devices() == spec_locked(probes@)
                    &&& count == spec_active(probes@).len()
                },
                Err(e) => {
                    &&& exists|i: int|
                        spec_is_first_fatal(probes@, i) && probes@[i].answer == Err::<
                            Option<Address>,
                            Error,
                        >(e)
                    &&& final(self).spec_devices() == old(self).spec_devices()
                    &&& final(self).spec_closed_devices() == old(self).spec_closed_devices()
                },
            },
    {
        let mut new_devices: Vec<Device> = Vec::new();
        let mut closed_devices: Vec<String> = Vec::new();
        let mut i: usize = 0;
        assert(probes@.take(0) =~= Seq::<Probe>::empty());
        while i < probes.len()
            invariant
                i <= probes@.len(),
                *self == *old(self),
                forall|j: int| 0 <= j < i ==> !spec_is_fatal(&#[trigger] probes@[j]),
                device_views(new_devices@) =~= spec_active(probes@.take(i as int)),
                string_views(closed_devices@) =~= spec_locked(probes@.take(i as int)),
            decreases probes@.len() - i,
        {
            let probe = &probes[i];
            proof {
                let next = probes@.take(i + 1);
                assert(next.drop_last() =~= probes@.take(i as int));
                assert(next.last() == probes@[i as int]);
            }
            if is_trezor(&probe.device) {
                match read_device_info(&probe.device, &probe.answer) {
                    Ok(device) => {
                        new_devices.push(device);
                    },
                    Err(Error::ClosedDevice(path)) => {
                        closed_devices.push(path);
                    },
                    Err(e) => {
                        assert(spec_is_first_fatal(probes@, i as int));
                        return Err(e);
                    },
                }
            }
            i += 1;
        }
        assert(probes@.take(i as int) =~= probes@);
        let count = new_devices.len();
        self.devices = new_devices;
        self.closed_devices = closed_devices;
        Ok(count)
    }

    /// Select key derivation path for a known chain.
    pub fn set_key_path(&mut self, key_path: KeyPath)
        ensures
            final(self).spec_key_path() == key_path,
            final(self).spec_devices() == old(self).spec_devices(),
            final(self).spec_closed_devices() == old(self).spec_closed_devices(),
    {
        self.key_path = key_path;
    }

    /// The selected derivation path.
    pub fn key_path(&self) -> (key_path: KeyPath)
        ensures
            key_path == self.spec_key_path(),
    {
        self.key_path
    }

    /// List connected wallets. This only returns wallets that are ready to be used.
    pub fn list_devices(&self) -> (infos: Vec<WalletInfo>)
        ensures
            infos@.len() == self.spec_devices().len(),
            forall|i: int|
                0 <= i < infos@.len() ==> (#[trigger] infos@[i])@ == self.spec_devices()[i].info,
    {
        let mut infos: Vec<WalletInfo> = Vec::new();
        let mut i: usize = 0;
        while i < self.devices.len()
            invariant
                i <= self.devices@.len(),
                infos@.len() == i,
                forall|k: int|
                    0 <= k < i ==> (#[trigger] infos@[k])@ == self.devices@[k].info@,
            decreases self.devices@.len() - i,
        {
            infos.push(self.devices[i].info.duplicate());
            i += 1;
        }
        infos
    }

    /// The paths of the wallets that wait for a PIN.
    pub fn locked_devices(&self) -> (paths: Vec<String>)
        ensures
            string_views(paths@) == self.spec_closed_devices(),
    {
        let mut paths: Vec<String> = Vec::new();
        let mut i: usize = 0;
        while i < self.closed_devices.len()
            invariant
                i <= self.closed_devices@.len(),
                paths@.len() == i,
                forall|k: int| 0 <= k < i ==> (#[trigger] paths@[k])@ == self.closed_devices@[k]@,
            decreases self.closed_devices@.len() - i,
        {
            paths.push(self.closed_devices[i].clone());
            i += 1;
        }
        assert(string_views(paths@) =~= string_views(self.closed_devices@));
        paths
    }

    /// The place of the first wallet with the address among the wallets ready for use.
    fn find_device(&self, address: &Address) -> (found: Option<usize>)
        ensures
            match found {
                Some(index) => index < self.devices@.len() && spec_is_first_with(
                    self.spec_devices(),
                    address@,
                    index as int,
                ),
                None => spec_none_with(self.spec_devices(), address@),
            },
    {
        let mut i: usize = 0;
        while i < self.devices.len()
            invariant
                i <= self.devices@.len(),
                forall|j: int|
                    0 <= j < i ==> (#[trigger] self.spec_devices()[j]).info.address != address@,
            decreases self.devices@.len() - i,
        {
            if self.devices[i].info.address.same_as(address) {
                return Some(i);
            }
            i += 1;
        }
        None
    }

    /// Get wallet info: that of the first wallet ready for use that has the address.
    pub fn device_info(&self, address: &Address) -> (found: Option<WalletInfo>)
        ensures
            match found {
                Some(info) => exists|i: int|
                    spec_is_first_with(self.spec_devices(), address@, i) && info@
                        == self.spec_devices()[i].info,
                None => spec_none_with(self.spec_devices(), address@),
            },
    {
        match self.find_device(address) {
            Some(index) => Some(self.devices[index].info.duplicate()),
            None => None,
        }
    }

    /// Sign transaction data with wallet managing `address`: says which wallet to open,
    /// what to send it first, and opens the session that decides on its answers.
    ///
    /// Fails with "key not found" exactly if no wallet ready for use has the address.
    pub fn sign_transaction(&self, address: &Address, t_info: &TransactionInfo) -> (result:
        Result<SigningStart, Error>)
        ensures
            match result {
                Ok(start) => {
                    &&& exists|i: int|
                        spec_is_first_with(self.spec_devices(), address@, i) && start.path@
                            == self.spec_devices()[i].path
                    &&& start.request matches Request::SignTx(request)
                    &&& request.address_n@ == self.spec_key_path().spec_derivation_path()
                    &&& request.nonce@ == crate::uint::spec_be_bytes(t_info.nonce@)
                    &&& request.gas_price@ == crate::uint::spec_be_bytes(t_info.gas_price@)
                    &&& request.gas_limit@ == crate::uint::spec_be_bytes(t_info.gas_limit@)
                    &&& request.value@ == crate::uint::spec_be_bytes(t_info.value@)
                    &&& match t_info.to {
                        Some(to) => request.to matches Some(bytes) && bytes@ == to@,
                        None => request.to is None,
                    }
                    &&& request.data_initial_chunk@ == t_info.data@.take(
                        spec_inline_len(t_info.data@.len()) as int,
                    )
                    &&& request.data_length == spec_field32(t_info.data@.len())
                    &&& match t_info.network_id {
                        Some(id) => request.chain_id matches Some(chain) && chain
                            == spec_field32(id as nat),
                        None => request.chain_id is None,
                    }
                    &&& start.session.wf()
                    &&& start.session.spec_chain_id() == t_info.network_id
                    &&& start.session.spec_data() == t_info.data@
                    &&& start.session.spec_sent() == spec_inline_len(t_info.data@.len())
                },
                Err(e) => e is KeyNotFound && spec_none_with(self.spec_devices(), address@),
            },
    {
        let index = match self.find_device(address) {
            Some(index) => index,
            None => {
                return Err(Error::KeyNotFound);
            },
        };
        let request = sign_request(self.key_path, t_info);
        let session = SigningSession::start(t_info);
        Ok(
            SigningStart {
                path: self.devices[index].path.clone(),
                request: Request::SignTx(request),
                session,
            },
        )
    }

    /// Answers a command. `get_devices` is answered with the JSON array of the paths of
    /// the locked wallets. `pin_matrix_ack`, with a device path and a PIN, asks for the
    /// PIN to be handed to that wallet. A `pin_matrix_ack` that lacks either, and every
    /// other command, is a bad message type.
    pub fn message(
        &self,
        message_type: String,
        device_path: Option<String>,
        message: Option<String>,
    ) -> (result: Result<Reply, Error>)
        ensures
            if message_type@ == "get_devices"@ {
                result matches Ok(Reply::Text(text)) && text@ == spec_json_strings(
                    self.spec_closed_devices(),
                )
            } else if message_type@ == "pin_matrix_ack"@ {
                match (device_path, message) {
                    (Some(wanted), Some(given)) => result matches Ok(Reply::Unlock { path, pin })
                        && path@ == wanted@ && pin@ == given@,
                    _ => result matches Err(Error::BadMessageType),
                }
            } else {
                result matches Err(Error::BadMessageType)
            },
    {
        if message_type == "get_devices".to_owned() {
            match paths_reply(&self.closed_devices) {
                Ok(text) => Ok(Reply::Text(text)),
                Err(e) => Err(e),
            }
        } else if message_type == "pin_matrix_ack".to_owned() {
            match (device_path, message) {
                (Some(path), Some(pin)) => Ok(Reply::Unlock { path, pin }),
                _ => Err(Error::BadMessageType),
            }
        } else {
            Err(Error::BadMessageType)
        }
    }
}

} // verus!
