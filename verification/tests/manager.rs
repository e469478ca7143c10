use trezor::discovery::{is_fatal, is_trezor, or_unknown, read_device_info, Probe, UsbDevice};
use trezor::error::Error;
use trezor::json::{paths_reply, reply_of, unlocked_reply};
use trezor::keypath::KeyPath;
use trezor::manager::{address_of, address_request, pin_request, pin_unlocked, Manager, Reply};
use trezor::message::{MessageType, Request, Response, TxRequest};
use trezor::uint::U256;
use trezor::wallet::{Address, Signature, TransactionInfo};

fn address_from_hex(hex: &str) -> Address {
    let mut bytes = [0u8; 20];
    for i in 0..20 {
        bytes[i] = u8::from_str_radix(&hex[2 * i..2 * i + 2], 16).unwrap();
    }
    Address { bytes }
}

fn wallet(path: &str) -> UsbDevice {
    UsbDevice {
        path: path.to_string(),
        vendor_id: 0x534c,
        product_id: 0x0001,
        usage_page: 0xFF00,
        manufacturer_string: Some("SatoshiLabs".to_string()),
        product_string: Some("TREZOR".to_string()),
        serial_number: Some("0123".to_string()),
    }
}

fn answered(device: UsbDevice, byte: u8) -> Probe {
    Probe { device, answer: Ok(Some(Address { bytes: [byte; 20] })) }
}

fn locked(device: UsbDevice) -> Probe {
    Probe { device, answer: Ok(None) }
}

fn failed(device: UsbDevice, error: Error) -> Probe {
    Probe { device, answer: Err(error) }
}

#[test]
fn debug() {
    let mut manager = Manager::new();
    let addr: Address = address_from_hex("3C9b5aC40587E6799D42f7342c3641bc4aABEDa4");

    manager.update_devices(&[]).unwrap();

    let t_info = TransactionInfo {
        nonce: U256::zero(),
        gas_price: U256::from_u64(100),
        gas_limit: U256::from_u64(21_000),
        to: Some(address_from_hex("00b1d5c8e02a18f5d5ddb83b6d17db757706148c")),
        value: U256::from_u64(1_000_000),
        data: (&[1u8; 3000]).to_vec(),
        network_id: None,
    };
    let signature = manager.sign_transaction(&addr, &t_info);
    println!("Signature: {:?}", signature);

    assert!(true)
}

#[test]
fn signing_for_an_unknown_address_is_key_not_found() {
    let mut manager = Manager::new();
    manager.update_devices(&[answered(wallet("a"), 1)]).unwrap();
    let t_info = TransactionInfo {
        nonce: U256::zero(),
        gas_price: U256::from_u64(100),
        gas_limit: U256::from_u64(21_000),
        to: None,
        value: U256::zero(),
        data: vec![],
        network_id: None,
    };
    let result = manager.sign_transaction(&Address { bytes: [2; 20] }, &t_info);
    assert!(matches!(result, Err(Error::KeyNotFound)));
}

#[test]
fn signing_starts_at_the_wallet_with_the_address() {
    let mut manager = Manager::new();
    manager
        .update_devices(&[answered(wallet("first"), 1), answered(wallet("second"), 2), answered(wallet("third"), 2)])
        .unwrap();
    manager.set_key_path(KeyPath::EthereumClassic);
    let t_info = TransactionInfo {
        nonce: U256::from_u64(5),
        gas_price: U256::from_u64(100),
        gas_limit: U256::from_u64(21_000),
        to: Some(Address { bytes: [9; 20] }),
        value: U256::from_u64(1_000_000),
        data: vec![1u8; 3000],
        network_id: Some(61),
    };
    let start = manager.sign_transaction(&Address { bytes: [2; 20] }, &t_info).unwrap();
    assert_eq!(start.path, "second");
    assert_eq!(start.session.sent(), 1024);
    match start.request {
        Request::SignTx(request) => {
            assert_eq!(request.address_n, vec![0x8000002C, 0x8000003D, 0x80000000, 0]);
            assert_eq!(request.nonce, vec![5]);
            assert_eq!(request.gas_price, vec![100]);
            assert_eq!(request.gas_limit, vec![0x52, 0x08]);
            assert_eq!(request.value, vec![0x0f, 0x42, 0x40]);
            assert_eq!(request.to, Some(vec![9u8; 20]));
            assert_eq!(request.data_initial_chunk, vec![1u8; 1024]);
            assert_eq!(request.data_length, 3000);
            assert_eq!(request.chain_id, Some(61));
        }
        other => panic!("unexpected request {:?}", other),
    }
}

#[test]
fn new_manager_knows_no_wallet() {
    let manager = Manager::new();
    assert!(manager.list_devices().is_empty());
    assert!(manager.locked_devices().is_empty());
    assert_eq!(manager.key_path(), KeyPath::Ethereum);
    assert!(manager.device_info(&Address { bytes: [0; 20] }).is_none());
}

#[test]
fn discovery_filter_excludes_other_devices() {
    let mut other_vendor = wallet("vendor");
    other_vendor.vendor_id = 0x534d;
    let mut other_product = wallet("product");
    other_product.product_id = 0x0002;
    let mut other_page = wallet("page");
    other_page.usage_page = 0xF1D0;
    assert!(is_trezor(&wallet("ok")));
    assert!(!is_trezor(&other_vendor));
    assert!(!is_trezor(&other_product));
    assert!(!is_trezor(&other_page));

    let mut manager = Manager::new();
    let count = manager
        .update_devices(&[
            answered(other_vendor, 1),
            locked(other_product),
            failed(other_page, Error::Usb("unplugged".to_string())),
            answered(wallet("ok"), 4),
            locked(wallet("pin")),
        ])
        .unwrap();
    assert_eq!(count, 1);
    let infos = manager.list_devices();
    assert_eq!(infos.len(), 1);
    assert_eq!(infos[0].address.bytes, [4u8; 20]);
    assert_eq!(manager.locked_devices(), vec!["pin".to_string()]);
}

#[test]
fn wallet_without_address_is_locked_not_active() {
    let mut manager = Manager::new();
    let count = manager.update_devices(&[locked(wallet("/dev/hidraw3"))]).unwrap();
    assert_eq!(count, 0);
    assert!(manager.list_devices().is_empty());
    assert_eq!(manager.locked_devices(), vec!["/dev/hidraw3".to_string()]);
}

#[test]
fn refresh_keeps_the_order_of_the_devices() {
    let mut manager = Manager::new();
    let count = manager
        .update_devices(&[
            locked(wallet("l1")),
            answered(wallet("a1"), 1),
            answered(wallet("a2"), 2),
            locked(wallet("l2")),
            answered(wallet("a3"), 3),
        ])
        .unwrap();
    assert_eq!(count, 3);
    let addresses: Vec<u8> = manager.list_devices().iter().map(|i| i.address.bytes[0]).collect();
    assert_eq!(addresses, vec![1, 2, 3]);
    assert_eq!(manager.locked_devices(), vec!["l1".to_string(), "l2".to_string()]);
}

#[test]
fn refresh_replaces_the_whole_snapshot() {
    let mut manager = Manager::new();
    manager.update_devices(&[answered(wallet("a"), 1), locked(wallet("b"))]).unwrap();
    manager.update_devices(&[answered(wallet("c"), 3)]).unwrap();
    assert_eq!(manager.list_devices().len(), 1);
    assert_eq!(manager.list_devices()[0].address.bytes, [3u8; 20]);
    assert!(manager.locked_devices().is_empty());
    manager.update_devices(&[]).unwrap();
    assert!(manager.list_devices().is_empty());
}

#[test]
fn refresh_fails_fast_and_keeps_the_old_snapshot() {
    let mut manager = Manager::new();
    manager.update_devices(&[answered(wallet("old"), 1), locked(wallet("old-pin"))]).unwrap();
    let result = manager.update_devices(&[
        answered(wallet("new"), 2),
        failed(wallet("broken"), Error::Usb("first".to_string())),
        failed(wallet("worse"), Error::Protocol("second")),
        answered(wallet("fine"), 3),
    ]);
    assert!(matches!(result, Err(Error::Usb(text)) if text == "first"));
    assert_eq!(manager.list_devices().len(), 1);
    assert_eq!(manager.list_devices()[0].address.bytes, [1u8; 20]);
    assert_eq!(manager.locked_devices(), vec!["old-pin".to_string()]);
}

#[test]
fn refresh_takes_a_closed_device_error_as_locked() {
    let mut manager = Manager::new();
    let count = manager
        .update_devices(&[failed(wallet("x"), Error::ClosedDevice("elsewhere".to_string()))])
        .unwrap();
    assert_eq!(count, 0);
    assert_eq!(manager.locked_devices(), vec!["elsewhere".to_string()]);
}

#[test]
fn device_record_takes_descriptor_strings_or_unknown() {
    let full = read_device_info(&wallet("p"), &Ok(Some(Address { bytes: [7; 20] }))).unwrap();
    assert_eq!(full.path, "p");
    assert_eq!(full.info.name, "TREZOR");
    assert_eq!(full.info.manufacturer, "SatoshiLabs");
    assert_eq!(full.info.serial, "0123");
    assert_eq!(full.info.address.bytes, [7u8; 20]);

    let mut bare = wallet("q");
    bare.manufacturer_string = None;
    bare.product_string = None;
    bare.serial_number = None;
    let record = read_device_info(&bare, &Ok(Some(Address { bytes: [8; 20] }))).unwrap();
    assert_eq!(record.info.name, "Unknown");
    assert_eq!(record.info.manufacturer, "Unknown");
    assert_eq!(record.info.serial, "Unknown");
    assert_eq!(or_unknown(&None), "Unknown");
    assert_eq!(or_unknown(&Some("x".to_string())), "x");
}

#[test]
fn device_record_of_a_locked_or_failing_wallet_is_an_error() {
    let closed = read_device_info(&wallet("p"), &Ok(None));
    assert!(matches!(closed, Err(Error::ClosedDevice(path)) if path == "p"));
    let failing = read_device_info(&wallet("p"), &Err(Error::Usb("gone".to_string())));
    assert!(matches!(failing, Err(Error::Usb(text)) if text == "gone"));
}

#[test]
fn device_info_finds_the_first_wallet_with_the_address() {
    let mut manager = Manager::new();
    let mut twin = wallet("twin");
    twin.serial_number = Some("twin-serial".to_string());
    manager
        .update_devices(&[answered(wallet("a"), 1), answered(wallet("b"), 2), answered(twin, 2)])
        .unwrap();
    let info = manager.device_info(&Address { bytes: [2; 20] }).unwrap();
    assert_eq!(info.serial, "0123");
    assert_eq!(info.address.bytes, [2u8; 20]);
    assert!(manager.device_info(&Address { bytes: [3; 20] }).is_none());
}

#[test]
fn set_key_path_selects_the_path_of_the_address_query() {
    let mut manager = Manager::new();
    match address_request(manager.key_path()) {
        Request::GetAddress { address_n, show_display } => {
            assert_eq!(address_n, vec![0x8000002C, 0x8000003C, 0x80000000, 0]);
            assert!(!show_display);
        }
        other => panic!("unexpected request {:?}", other),
    }
    manager.set_key_path(KeyPath::EthereumClassic);
    assert_eq!(manager.key_path(), KeyPath::EthereumClassic);
    match address_request(manager.key_path()) {
        Request::GetAddress { address_n, show_display } => {
            assert_eq!(address_n, vec![0x8000002C, 0x8000003D, 0x80000000, 0]);
            assert!(!show_display);
        }
        other => panic!("unexpected request {:?}", other),
    }
    assert_eq!(KeyPath::Ethereum.derivation_path(), vec![0x8000002C, 0x8000003C, 0x80000000, 0]);
}

#[test]
fn address_query_reads_an_address_response() {
    let raw: Vec<u8> = (1..=20u8).collect();
    let address = address_of(&Response::Address(raw.clone())).unwrap().unwrap();
    assert_eq!(address.bytes.to_vec(), raw);
    assert_eq!(address.to_vec(), raw);
    assert!(address.same_as(&Address::from_slice(&raw)));
    assert!(!address.same_as(&Address { bytes: [0; 20] }));
}

#[test]
fn address_is_cut_or_filled_to_twenty_bytes() {
    let short = Address::from_slice(&[1, 2, 3]);
    let mut expected = [0u8; 20];
    expected[..3].copy_from_slice(&[1, 2, 3]);
    assert_eq!(short.bytes, expected);
    let long: Vec<u8> = (0..30u8).collect();
    assert_eq!(Address::from_slice(&long).bytes.to_vec(), long[..20].to_vec());
    let signature = Signature::from_rsv(&[1; 32], &[2; 31], 1);
    assert_eq!(signature.r, [1u8; 32]);
    assert_eq!(signature.s[30], 2);
    assert_eq!(signature.s[31], 0);
}

#[test]
fn address_query_takes_other_answers_as_locked() {
    for response in [
        Response::Failure,
        Response::Cancel,
        Response::ButtonRequest,
        Response::Other,
        Response::Unreadable(MessageType::Failure),
        Response::TxRequest(TxRequest {
            data_length: None,
            signature_v: 27,
            signature_r: vec![],
            signature_s: vec![],
        }),
    ] {
        assert!(matches!(address_of(&response), Ok(None)));
    }
}

#[test]
fn address_query_fails_on_an_unreadable_address() {
    let answer = address_of(&Response::Unreadable(MessageType::EthereumAddress));
    assert!(matches!(
        answer,
        Err(Error::Protocol("Could not read response from Trezor Device"))
    ));
}

#[test]
fn pin_ack_mapping() {
    assert!(pin_unlocked(&Response::Address(vec![1; 20])));
    assert!(pin_unlocked(&Response::Unreadable(MessageType::EthereumAddress)));
    assert!(!pin_unlocked(&Response::Failure));
    assert!(!pin_unlocked(&Response::Cancel));
    assert!(!pin_unlocked(&Response::ButtonRequest));
    assert!(!pin_unlocked(&Response::Other));
    assert!(!pin_unlocked(&Response::Unreadable(MessageType::Failure)));
    assert!(!pin_unlocked(&Response::TxRequest(TxRequest {
        data_length: Some(1),
        signature_v: 0,
        signature_r: vec![],
        signature_s: vec![],
    })));
}

#[test]
fn pin_request_carries_the_pin() {
    match pin_request("1397") {
        Request::PinMatrixAck { pin } => assert_eq!(pin, "1397"),
        other => panic!("unexpected request {:?}", other),
    }
    assert_eq!(pin_request("1").message_type(), MessageType::PinMatrixAck);
}

#[test]
fn get_devices_lists_the_locked_wallets_as_json() {
    let mut manager = Manager::new();
    let reply = manager.message("get_devices".to_string(), None, None).unwrap();
    assert!(matches!(reply, Reply::Text(text) if text == "[]"));
    manager
        .update_devices(&[locked(wallet("/dev/hidraw0")), answered(wallet("a"), 1), locked(wallet("say \"pin\""))])
        .unwrap();
    let reply = manager.message("get_devices".to_string(), Some("x".to_string()), None).unwrap();
    assert!(matches!(reply, Reply::Text(text) if text == r#"["/dev/hidraw0","say \"pin\""]"#));
}

#[test]
fn pin_matrix_ack_asks_for_the_unlock() {
    let manager = Manager::new();
    let reply = manager
        .message("pin_matrix_ack".to_string(), Some("/dev/hidraw0".to_string()), Some("1234".to_string()))
        .unwrap();
    assert!(matches!(reply, Reply::Unlock { path, pin } if path == "/dev/hidraw0" && pin == "1234"));
}

#[test]
fn pin_matrix_ack_needs_path_and_pin() {
    let manager = Manager::new();
    for (path, pin) in [
        (None, None),
        (Some("p".to_string()), None),
        (None, Some("1".to_string())),
    ] {
        let result = manager.message("pin_matrix_ack".to_string(), path, pin);
        assert!(matches!(result, Err(Error::BadMessageType)));
    }
}

#[test]
fn unknown_command_is_a_bad_message_type() {
    let manager = Manager::new();
    for command in ["", "get_device", "GET_DEVICES", "sign", "pin_matrix_ack "] {
        let result = manager.message(command.to_string(), Some("p".to_string()), Some("1".to_string()));
        assert!(matches!(result, Err(Error::BadMessageType)));
    }
}

#[test]
fn unlock_reply_is_a_json_boolean() {
    assert_eq!(unlocked_reply(true).unwrap(), "true");
    assert_eq!(unlocked_reply(false).unwrap(), "false");
    assert_eq!(paths_reply(&vec!["a".to_string(), "b".to_string()]).unwrap(), r#"["a","b"]"#);
}

#[test]
fn serializer_failure_becomes_a_serde_error() {
    assert_eq!(reply_of(Ok("[]".to_string())).unwrap(), "[]");
    let failed = reply_of(Err("key must be a string".to_string()));
    assert!(matches!(failed, Err(Error::SerdeError(text)) if text == "key must be a string"));
}

#[test]
fn message_types_have_their_wire_numbers() {
    let all = [
        (MessageType::Failure, 3u16),
        (MessageType::PinMatrixAck, 19),
        (MessageType::Cancel, 20),
        (MessageType::ButtonRequest, 26),
        (MessageType::ButtonAck, 27),
        (MessageType::EthereumGetAddress, 56),
        (MessageType::EthereumAddress, 57),
        (MessageType::EthereumSignTx, 58),
        (MessageType::EthereumTxRequest, 59),
        (MessageType::EthereumTxAck, 60),
    ];
    for (message_type, id) in all {
        assert_eq!(message_type.id(), id);
        assert_eq!(MessageType::from_id(id), Some(message_type));
    }
    for id in [0u16, 1, 2, 4, 18, 21, 55, 61, 0xffff] {
        assert_eq!(MessageType::from_id(id), None);
    }
    assert_eq!(Request::ButtonAck.message_type(), MessageType::ButtonAck);
    assert_eq!(Request::TxAck { data_chunk: vec![] }.message_type(), MessageType::EthereumTxAck);
    assert_eq!(address_request(KeyPath::Ethereum).message_type(), MessageType::EthereumGetAddress);
}

#[test]
fn errors_in_words() {
    assert_eq!(Error::Protocol("x").to_text(), "Trezor protocol error: x");
    assert_eq!(Error::Usb("gone".to_string()).to_text(), "USB communication error: gone");
    assert_eq!(Error::KeyNotFound.to_text(), "Key not found");
    assert_eq!(Error::UserCancel.to_text(), "Operation has been cancelled");
    assert_eq!(Error::BadMessageType.to_text(), "Bad Message Type in RPC call");
    assert_eq!(Error::SerdeError("eof".to_string()).to_text(), "Serde serialization error: eof");
    assert_eq!(
        Error::ClosedDevice("/dev/hidraw1".to_string()).to_text(),
        "Device is closed, needs PIN to perform operations: /dev/hidraw1"
    );
    let copy = Error::Usb("gone".to_string()).clone();
    assert!(matches!(copy, Error::Usb(text) if text == "gone"));
}

#[test]
fn only_a_failing_wallet_ends_the_refresh() {
    assert!(is_fatal(&failed(wallet("a"), Error::Usb("gone".to_string()))));
    assert!(is_fatal(&failed(wallet("a"), Error::Protocol("bad"))));
    assert!(!is_fatal(&failed(wallet("a"), Error::ClosedDevice("a".to_string()))));
    assert!(!is_fatal(&locked(wallet("a"))));
    assert!(!is_fatal(&answered(wallet("a"), 1)));
    let mut mouse = wallet("mouse");
    mouse.vendor_id = 0x046d;
    assert!(!is_fatal(&failed(mouse, Error::Usb("gone".to_string()))));
}
