use trezor::error::Error;
use trezor::frame::{
    can_frame, decode, encode, encode_body, split_reports, Decoder, Report, CHUNK_SIZE,
    REPORT_SIZE,
};

fn payload_of(len: usize) -> Vec<u8> {
    (0..len).map(|i| (i * 7 + 3) as u8).collect()
}

fn round_trip(len: usize) {
    let payload = payload_of(len);
    let reports = encode(0x1234, &payload);
    let (type_id, back) = decode(&reports).expect("an encoded message decodes");
    assert_eq!(type_id, 0x1234);
    assert_eq!(back, payload);
}

fn is_wire_error(e: &Error) -> bool {
    matches!(e, Error::Protocol(text) if *text == "Unexpected wire response from Trezor Device")
}

#[test]
fn round_trip_empty_payload() {
    round_trip(0);
}

#[test]
fn round_trip_one_byte() {
    round_trip(1);
}

#[test]
fn round_trip_62_bytes() {
    round_trip(62);
}

#[test]
fn round_trip_63_bytes() {
    round_trip(63);
}

#[test]
fn round_trip_64_bytes() {
    round_trip(64);
}

#[test]
fn round_trip_1000_bytes() {
    round_trip(1000);
}

#[test]
fn round_trip_5000_bytes() {
    round_trip(5000);
}

#[test]
fn round_trip_keeps_every_type_id_byte() {
    for type_id in [0u16, 1, 57, 255, 256, 0xff00, 0xffff] {
        let reports = encode(type_id, &[9, 8, 7]);
        let (back, payload) = decode(&reports).unwrap();
        assert_eq!(back, type_id);
        assert_eq!(payload, vec![9, 8, 7]);
    }
}

#[test]
fn body_is_padded_to_whole_chunks() {
    for len in [0usize, 1, 54, 55, 56, 62, 63, 64, 117, 118, 119, 1000, 5000] {
        let body = encode_body(7, &payload_of(len));
        assert_eq!(body.len() % 63, 0, "length {}", len);
        assert!(body.len() >= 8 + len);
        assert!(body.len() < 8 + len + 63);
        assert!(body[8 + len..].iter().all(|b| *b == 0));
    }
}

#[test]
fn every_report_has_65_bytes() {
    for len in [0usize, 1, 55, 56, 1000, 5000] {
        let reports = encode(7, &payload_of(len));
        assert_eq!(reports.len(), (len + 70) / 63);
        for report in &reports {
            assert_eq!(report.len(), 65);
            assert_eq!(report.len(), REPORT_SIZE);
            assert_eq!(report[0], 0);
            assert_eq!(report[1], b'?');
        }
    }
}

#[test]
fn body_bytes_are_exact() {
    let body = encode_body(0x0039, &[0xaa, 0xbb, 0xcc]);
    let mut expected = vec![b'#', b'#', 0x00, 0x39, 0, 0, 0, 3, 0xaa, 0xbb, 0xcc];
    expected.resize(63, 0);
    assert_eq!(body, expected);
}

#[test]
fn header_length_is_big_endian() {
    let body = encode_body(0x0102, &payload_of(0x0304));
    assert_eq!(&body[..8], &[b'#', b'#', 0x01, 0x02, 0x00, 0x00, 0x03, 0x04]);
}

#[test]
fn first_report_bytes_are_exact() {
    let reports = encode(56, &[1, 2, 3, 4]);
    assert_eq!(reports.len(), 1);
    let mut expected = vec![0u8, b'?', b'#', b'#', 0, 56, 0, 0, 0, 4, 1, 2, 3, 4];
    expected.resize(65, 0);
    assert_eq!(reports[0].to_vec(), expected);
}

#[test]
fn second_report_continues_the_body() {
    let payload = payload_of(60);
    let reports = encode(1, &payload);
    assert_eq!(reports.len(), 2);
    assert_eq!(&reports[0][10..], &payload[..55]);
    assert_eq!(&reports[1][..2], &[0, b'?']);
    assert_eq!(&reports[1][2..7], &payload[55..]);
    assert!(reports[1][7..].iter().all(|b| *b == 0));
}

#[test]
fn split_reports_cuts_in_order() {
    let body: Vec<u8> = (0..126u8).collect();
    let reports = split_reports(&body);
    assert_eq!(reports.len(), 2);
    assert_eq!(&reports[0][2..], &body[..CHUNK_SIZE]);
    assert_eq!(&reports[1][2..], &body[CHUNK_SIZE..]);
}

#[test]
fn reports_start_with_placeholder_and_marker() {
    for len in [0usize, 1, 62, 63, 64, 1000, 5000] {
        let reports = encode(0xffff, &vec![0xffu8; len]);
        assert!(reports.len() >= 1);
        for report in &reports {
            assert_eq!(&report[..2], &[0x00, 0x3f]);
        }
        let carried: usize = reports.iter().map(|r| r.len() - 2).sum();
        assert_eq!(carried, 63 * ((8 + len + 62) / 63));
    }
}

#[test]
fn can_frame_accepts_what_fits_the_length_field() {
    assert!(can_frame(0));
    assert!(can_frame(5000));
    assert!(can_frame(0xffff_ffff));
    assert!(!can_frame(0x1_0000_0000));
    assert!(!can_frame(usize::MAX));
}

#[test]
fn decode_rejects_an_empty_stream() {
    let none: Vec<Report> = Vec::new();
    assert!(is_wire_error(&decode(&none).unwrap_err()));
}

#[test]
fn decode_rejects_a_wrong_marker() {
    for at in [1usize, 2, 3] {
        let mut reports = encode(57, &[1, 2, 3]);
        reports[0][at] = b'!';
        assert!(is_wire_error(&decode(&reports).unwrap_err()));
    }
}

#[test]
fn decode_ignores_the_placeholder_byte() {
    let mut reports = encode(57, &[1, 2, 3]);
    reports[0][0] = 0x55;
    assert_eq!(decode(&reports).unwrap(), (57, vec![1, 2, 3]));
}

#[test]
fn decode_rejects_a_stream_that_ends_early() {
    let mut reports = encode(57, &payload_of(200));
    reports.pop();
    assert!(is_wire_error(&decode(&reports).unwrap_err()));
}

#[test]
fn decode_checks_the_marker_of_the_first_report_only() {
    let payload = payload_of(200);
    let mut reports = encode(57, &payload);
    reports[1][1] = b'x';
    reports[2][1] = b'y';
    assert_eq!(decode(&reports).unwrap(), (57, payload));
}

#[test]
fn decode_cuts_to_the_declared_length() {
    let mut reports = encode(57, &[1, 2, 3]);
    for i in 13..65 {
        reports[0][i] = 0xee;
    }
    assert_eq!(decode(&reports).unwrap(), (57, vec![1, 2, 3]));
}

#[test]
fn decode_does_not_look_behind_the_last_report_it_needs() {
    let mut reports = encode(57, &[1, 2, 3]);
    reports.push([0xffu8; 65]);
    assert_eq!(decode(&reports).unwrap(), (57, vec![1, 2, 3]));
}

#[test]
fn decoder_rejects_a_short_first_read() {
    let reports = encode(57, &[1, 2, 3]);
    for received in 0..9 {
        assert!(is_wire_error(&Decoder::start(&reports[0], received).unwrap_err()));
    }
    assert!(Decoder::start(&reports[0], 9).is_ok());
}

#[test]
fn decoder_gathers_report_by_report() {
    let payload = payload_of(120);
    let reports = encode(59, &payload);
    assert_eq!(reports.len(), 3);
    let mut decoder = Decoder::start(&reports[0], 64).unwrap();
    assert_eq!(decoder.type_id(), 59);
    assert_eq!(decoder.declared_len(), 120);
    assert!(!decoder.is_complete());
    decoder.push(&reports[1]);
    assert!(!decoder.is_complete());
    decoder.push(&reports[2]);
    assert!(decoder.is_complete());
    assert_eq!(decoder.finish(), (59, payload));
}

#[test]
fn decoder_is_complete_at_once_for_a_short_payload() {
    let reports = encode(20, &[]);
    let decoder = Decoder::start(&reports[0], 64).unwrap();
    assert!(decoder.is_complete());
    assert_eq!(decoder.finish(), (20, vec![]));
}
