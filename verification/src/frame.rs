//! The wire framing: a typed message becomes a run of fixed-size HID reports, and a run of
//! reports becomes a typed message again.
//!
//! A frame body is the two magic bytes `##`, the message type (two bytes, big-endian), the
//! payload length (four bytes, big-endian), the payload, and zero padding up to the next
//! multiple of 63. Each 63-byte chunk of the body travels in one report, behind a report-id
//! placeholder byte and the marker byte `?`.

use vstd::prelude::*;
use crate::error::{Error, WIRE_RESPONSE};

verus! {

/// Size of one HID report: placeholder, marker and one chunk.
pub const REPORT_SIZE: usize = 65;

/// Number of body bytes that one report carries.
pub const CHUNK_SIZE: usize = 63;

/// Size of the frame header: magic, message type and payload length.
pub const HEADER_SIZE: usize = 8;

/// The report-id placeholder that opens every report.
pub const REPORT_ID: u8 = 0;

/// The marker byte `?` that follows the placeholder.
pub const MARKER: u8 = 0x3f;

/// The magic byte `#`, which opens a frame body twice.
pub const MAGIC: u8 = 0x23;

/// The least number of received bytes in which a first report can hold marker and header.
pub const MIN_FIRST_READ: usize = 9;

/// How long to wait for one report, in milliseconds. Every read waits this long at most;
/// a response of several reports has no limit of its own.
pub const READ_TIMEOUT_MS: i32 = 10_000;

/// One HID report.
pub type Report = [u8; 65];

/// The eight header bytes of a frame that announces `len` payload bytes of type `type_id`.
/// The length field holds the low 32 bits of `len`, which are all of it up to `u32::MAX`.
pub open spec fn spec_header(type_id: u16, len: nat) -> Seq<u8> {
    seq![
        MAGIC,
        MAGIC,
        (type_id / 256) as u8,
        (type_id % 256) as u8,
        (len / 0x100_0000 % 256) as u8,
        (len / 0x1_0000 % 256) as u8,
        (len / 0x100 % 256) as u8,
        (len % 256) as u8,
    ]
}

/// Number of reports that a frame with `len` payload bytes takes.
pub open spec fn spec_report_count(len: nat) -> nat {
    (len + 70) / 63
}

/// The frame body: header, payload, and zeros up to a whole number of chunks.
pub open spec fn spec_body(type_id: u16, payload: Seq<u8>) -> Seq<u8> {
    spec_header(type_id, payload.len()) + payload + Seq::new(
        (63 * spec_report_count(payload.len()) - 8 - payload.len()) as nat,
        |i: int| 0u8,
    )
}

/// The `k`-th report cut from `body`.
pub open spec fn spec_report(body: Seq<u8>, k: int) -> Seq<u8> {
    seq![REPORT_ID, MARKER] + body.subrange(63 * k, 63 * k + 63)
}

/// The reports that carry the message `(type_id, payload)`, in sending order.
pub open spec fn spec_encode(type_id: u16, payload: Seq<u8>) -> Seq<Seq<u8>> {
    let body = spec_body(type_id, payload);
    Seq::new(spec_report_count(payload.len()), |k: int| spec_report(body, k))
}

/// The byte contents of a run of reports.
pub open spec fn report_views(reports: Seq<Report>) -> Seq<Seq<u8>> {
    reports.map_values(|r: Report| r@)
}

/// Whether a frame can say how long a payload of `len` bytes is: the length fits the
/// four-byte length field. Of a longer payload the field holds the low 32 bits of the
/// length, and the frame does not read back.
pub open spec fn spec_can_frame(len: nat) -> bool {
    len <= u32::MAX
}

/// The padded body is a whole number of chunks, one per report, and never shorter than
/// header plus payload.
pub proof fn lemma_body_len(type_id: u16, payload: Seq<u8>)
    ensures
        spec_body(type_id, payload).len() == 63 * spec_report_count(payload.len()),
        spec_body(type_id, payload).len() % 63 == 0,
        spec_body(type_id, payload).len() >= 8 + payload.len(),
        spec_body(type_id, payload).len() < 8 + payload.len() + 63,
        spec_report_count(payload.len()) >= 1,
{
    let n = payload.len();
    let count = spec_report_count(n);
    assert(63 * count <= n + 70 < 63 * count + 63);
    assert((63 * count) % 63 == 0) by (nonlinear_arith);
}

/// Whether a frame can say how long a payload of this length is.
pub fn can_frame(len: usize) -> (ok: bool)
    ensures
        ok == spec_can_frame(len as nat),
{
    len <= 0xffff_ffff
}

/// Appends the fewest zeros that bring the length to a multiple of 63.
fn pad_to_chunks(body: &mut Vec<u8>)
    ensures
        final(body)@.len() % 63 == 0,
        old(body)@.len() <= final(body)@.len() < old(body)@.len() + 63,
        final(body)@ == old(body)@ + Seq::new(
            (final(body)@.len() - old(body)@.len()) as nat,
            |i: int| 0u8,
        ),
{
    let ghost before = body@;
    let ghost limit = 63 * (before.len() / 63) + 63;
    while body.len() % CHUNK_SIZE != 0
        invariant
            limit == 63 * (before.len() / 63) + 63,
            before.len() <= body@.len() <= limit,
            before.len() % 63 == 0 ==> body@.len() == before.len(),
            body@ =~= before + Seq::new((body@.len() - before.len()) as nat, |i: int| 0u8),
        decreases limit - body@.len(),
    {
        body.push(0);
    }
}

/// Builds the padded frame body of the message `(type_id, payload)`: header, payload, and
/// the fewest zeros that bring the length to a multiple of 63.
pub fn encode_body(type_id: u16, payload: &[u8]) -> (body: Vec<u8>)
    ensures
        body@ == spec_body(type_id, payload@),
        body@.len() % 63 == 0,
        body@.len() == 63 * spec_report_count(payload@.len()),
        8 + payload@.len() <= body@.len() < 8 + payload@.len() + 63,
{
    let len = payload.len();
    let mut body: Vec<u8> = Vec::new();
    body.push(MAGIC);
    body.push(MAGIC);
    body.push((type_id / 256) as u8);
    body.push((type_id % 256) as u8);
    body.push((len / 0x100_0000 % 256) as u8);
    body.push((len / 0x1_0000 % 256) as u8);
    body.push((len / 0x100 % 256) as u8);
    body.push((len % 256) as u8);
    assert(body@ =~= spec_header(type_id, len as nat));
    body.extend_from_slice(payload);
    proof {
        lemma_body_len(type_id, payload@);
    }
    pad_to_chunks(&mut body);
    assert(body@.len() == 63 * spec_report_count(len as nat));
    assert(body@ =~= spec_body(type_id, payload@));
    body
}

/// Cuts the chunk that starts at `at` out of `body` and puts placeholder and marker before it.
pub fn make_report(body: &[u8], at: usize) -> (report: Report)
    requires
        at + 63 <= body.len(),
    ensures
        report@ == seq![REPORT_ID, MARKER] + body@.subrange(at as int, at + 63),
{
    let mut report: Report = [0u8; 65];
    report[1] = MARKER;
    let mut i: usize = 0;
    while i < CHUNK_SIZE
        invariant
            i <= 63,
            at + 63 <= body.len(),
            report@.len() == 65,
            report@[0] == REPORT_ID,
            report@[1] == MARKER,
            forall|k: int| 2 <= k < i + 2 ==> report@[k] == body@[at + k - 2],
        decreases 63 - i,
    {
        report[i + 2] = body[at + i];
        i += 1;
    }
    assert(report@ =~= seq![REPORT_ID, MARKER] + body@.subrange(at as int, at + 63));
    report
}

/// Splits a padded body into reports, one per chunk, in order.
pub fn split_reports(body: &[u8]) -> (reports: Vec<Report>)
    requires
        body@.len() % 63 == 0,
    ensures
        reports@.len() == body@.len() / 63,
        forall|k: int| 0 <= k < reports@.len() ==> (#[trigger] reports@[k])@ == spec_report(body@, k),
{
    let mut reports: Vec<Report> = Vec::new();
    let mut at: usize = 0;
    while at < body.len()
        invariant
            body@.len() % 63 == 0,
            at <= body@.len(),
            at == 63 * reports@.len(),
            forall|k: int| 0 <= k < reports@.len() ==> (#[trigger] reports@[k])@ == spec_report(body@, k),
        decreases body@.len() - at,
    {
        let report = make_report(body, at);
        reports.push(report);
        at += CHUNK_SIZE;
    }
    reports
}

/// Encodes the message `(type_id, payload)` as the reports to send, in order.
///
/// Every report is 65 bytes; together they carry header, payload and zero padding, and
/// nothing else.
pub fn encode(type_id: u16, payload: &[u8]) -> (reports: Vec<Report>)
    ensures
        report_views(reports@) == spec_encode(type_id, payload@),
        reports@.len() == spec_report_count(payload@.len()),
        reports@.len() >= 1,
        forall|k: int|
            0 <= k < reports@.len() ==> {
                &&& (#[trigger] reports@[k])@.len() == REPORT_SIZE
                &&& reports@[k]@[0] == REPORT_ID
                &&& reports@[k]@[1] == MARKER
            },
{
    let body = encode_body(type_id, payload);
    proof {
        lemma_body_len(type_id, payload@);
    }
    let reports = split_reports(body.as_slice());
    assert(report_views(reports@) =~= spec_encode(type_id, payload@));
    reports
}

/// Whether a report can open a response: behind the placeholder stand `?`, `#`, `#`.
pub open spec fn spec_starts_frame(report: Seq<u8>) -> bool {
    report[1] == MARKER && report[2] == MAGIC && report[3] == MAGIC
}

/// The message type that a first report announces.
pub open spec fn spec_frame_type(first: Seq<u8>) -> u16 {
    (first[4] as int * 256 + first[5] as int) as u16
}

/// The payload length that a first report announces.
pub open spec fn spec_frame_len(first: Seq<u8>) -> nat {
    (first[6] as int * 0x100_0000 + first[7] as int * 0x1_0000 + first[8] as int * 0x100
        + first[9] as int) as nat
}

/// The payload bytes that a first report contributes: all behind the header.
pub open spec fn spec_first_data(first: Seq<u8>) -> Seq<u8> {
    first.subrange(10, 65)
}

/// The payload bytes that a later report contributes: all behind placeholder and marker.
pub open spec fn spec_next_data(report: Seq<u8>) -> Seq<u8> {
    report.subrange(2, 65)
}

/// The bytes accumulated from a run of reports, the first of which opens the response.
pub open spec fn spec_stream_data(reports: Seq<Seq<u8>>) -> Seq<u8>
    decreases reports.len(),
{
    if reports.len() == 0 {
        Seq::empty()
    } else if reports.len() == 1 {
        spec_first_data(reports[0])
    } else {
        spec_stream_data(reports.drop_last()) + spec_next_data(reports.last())
    }
}

/// The message that a run of reports holds, if it holds one: the first report must open a
/// frame, and the run must be long enough for the announced length. Reports behind the
/// last one needed are not looked at.
pub open spec fn spec_decode(reports: Seq<Seq<u8>>) -> Option<(u16, Seq<u8>)> {
    if reports.len() == 0 || !spec_starts_frame(reports[0]) {
        None
    } else {
        let len = spec_frame_len(reports[0]);
        let count = spec_report_count(len);
        if reports.len() < count {
            None
        } else {
            Some(
                (
                    spec_frame_type(reports[0]),
                    spec_stream_data(reports.take(count as int)).take(len as int),
                ),
            )
        }
    }
}

/// The state of reading one response: what the first report announced, and the payload
/// bytes gathered so far.
#[derive(Debug)]
pub struct Decoder {
    type_id: u16,
    declared: u32,
    data: Vec<u8>,
}

impl Decoder {
    /// The announced message type.
    pub closed spec fn spec_type_id(&self) -> u16 {
        self.type_id
    }

    /// The announced payload length.
    pub closed spec fn spec_declared(&self) -> nat {
        self.declared as nat
    }

    /// The payload bytes gathered so far.
    pub closed spec fn spec_data(&self) -> Seq<u8> {
        self.data@
    }

    /// Whether enough bytes are gathered.
    pub open spec fn spec_is_complete(&self) -> bool {
        self.spec_data().len() >= self.spec_declared()
    }

    /// Opens a response with its first report, of which `received` bytes arrived behind
    /// the placeholder.
    ///
    /// Fails with a protocol error exactly when fewer than nine bytes arrived or the
    /// report does not begin with `?`, `#`, `#`.
    pub fn start(report: &Report, received: usize) -> (opened: Result<Decoder, Error>)
        ensures
            match opened {
                Ok(decoder) => {
                    &&& received >= MIN_FIRST_READ
                    &&& spec_starts_frame(report@)
                    &&& decoder.spec_type_id() == spec_frame_type(report@)
                    &&& decoder.spec_declared() == spec_frame_len(report@)
                    &&& decoder.spec_data() == spec_first_data(report@)
                },
                Err(e) => {
                    &&& received < MIN_FIRST_READ || !spec_starts_frame(report@)
                    &&& e.is_protocol(WIRE_RESPONSE)
                },
            },
    {
        if received < MIN_FIRST_READ || report[1] != MARKER || report[2] != MAGIC || report[3]
            != MAGIC {
            return Err(Error::Protocol(WIRE_RESPONSE));
        }
        let type_id: u16 = report[4] as u16 * 256 + report[5] as u16;
        let declared: u32 = report[6] as u32 * 0x100_0000 + report[7] as u32 * 0x1_0000
            + report[8] as u32 * 0x100 + report[9] as u32;
        let mut data: Vec<u8> = Vec::new();
        let mut i: usize = 10;
        while i < REPORT_SIZE
            invariant
                10 <= i <= 65,
                data@ =~= report@.subrange(10, i as int),
            decreases 65 - i,
        {
            data.push(report[i]);
            i += 1;
        }
        Ok(Decoder { type_id, declared, data })
    }

    /// The announced message type.
    pub fn type_id(&self) -> (t: u16)
        ensures
            t == self.spec_type_id(),
    {
        self.type_id
    }

    /// The announced payload length.
    pub fn declared_len(&self) -> (n: u32)
        ensures
            n == self.spec_declared(),
    {
        self.declared
    }

    /// Whether enough bytes are gathered, so that no further report has to be read.
    pub fn is_complete(&self) -> (done: bool)
        ensures
            done == self.spec_is_complete(),
    {
        self.data.len() >= self.declared as usize
    }

    /// Takes in a further report: everything behind placeholder and marker is payload.
    pub fn push(&mut self, report: &Report)
        ensures
            final(self).spec_type_id() == old(self).spec_type_id(),
            final(self).spec_declared() == old(self).spec_declared(),
            final(self).spec_data() == old(self).spec_data() + spec_next_data(report@),
    {
        let ghost before = self.data@;
        let mut i: usize = 2;
        while i < REPORT_SIZE
            invariant
                2 <= i <= 65,
                self.type_id == old(self).type_id,
                self.declared == old(self).declared,
                self.data@ =~= before + report@.subrange(2, i as int),
            decreases 65 - i,
        {
            self.data.push(report[i]);
            i += 1;
        }
    }

    /// Ends the reading: the message type, and the gathered bytes cut to the announced length.
    pub fn finish(self) -> (message: (u16, Vec<u8>))
        requires
            self.spec_is_complete(),
        ensures
            message.0 == self.spec_type_id(),
            message.1@ == self.spec_data().take(self.spec_declared() as int),
    {
        let mut data = self.data;
        data.truncate(self.declared as usize);
        assert(data@ =~= self.spec_data().take(self.spec_declared() as int));
        (self.type_id, data)
    }
}

/// Decodes the response that a run of reports holds.
///
/// Succeeds exactly when the first report opens a frame and the run is long enough for the
/// length it announces; the result is then the announced type and exactly the announced
/// number of payload bytes. Every other run is a protocol error.
pub fn decode(reports: &[Report]) -> (result: Result<(u16, Vec<u8>), Error>)
    ensures
        match spec_decode(report_views(reports@)) {
            Some(message) => result matches Ok(got) && got.0 == message.0 && got.1@
                == message.1,
            None => result matches Err(e) && e.is_protocol(WIRE_RESPONSE),
        },
{
    let ghost views = report_views(reports@);
    if reports.len() == 0 {
        return Err(Error::Protocol(WIRE_RESPONSE));
    }
    let mut decoder = match Decoder::start(&reports[0], REPORT_SIZE - 1) {
        Ok(decoder) => decoder,
        Err(e) => {
            return Err(e);
        },
    };
    let ghost len = spec_frame_len(views[0]);
    let ghost count = spec_report_count(len);
    let mut used: usize = 1;
    assert(views.take(1).len() == 1);
    assert(decoder.spec_data() == spec_stream_data(views.take(1)));
    while !decoder.is_complete()
        invariant
            views == report_views(reports@),
            1 <= used <= reports.len(),
            used <= count,
            count == spec_report_count(len),
            len == spec_frame_len(views[0]),
            spec_starts_frame(views[0]),
            decoder.spec_type_id() == spec_frame_type(views[0]),
            decoder.spec_declared() == len,
            decoder.spec_data() == spec_stream_data(views.take(used as int)),
            decoder.spec_data().len() == 63 * used - 8,
            used > 1 ==> 63 * (used - 1) - 8 < len,
        decreases reports.len() - used,
    {
        if used >= reports.len() {
            assert(63 * (used + 1) <= len + 70);
            assert(views.len() < count);
            return Err(Error::Protocol(WIRE_RESPONSE));
        }
        decoder.push(&reports[used]);
        proof {
            let next = views.take(used + 1);
            assert(next.drop_last() =~= views.take(used as int));
            assert(next.last() == reports@[used as int]@);
        }
        used += 1;
    }
    Ok(decoder.finish())
}

/// The header bytes give back the type and the length they were made from.
pub proof fn lemma_header_round_trip(type_id: u16, len: nat, first: Seq<u8>)
    requires
        len <= u32::MAX,
        first.len() == 65,
        first.subrange(2, 10) == spec_header(type_id, len),
    ensures
        first[2] == MAGIC,
        first[3] == MAGIC,
        spec_frame_type(first) == type_id,
        spec_frame_len(first) == len,
{
    let header = spec_header(type_id, len);
    assert forall|i: int| 0 <= i < 8 implies first[2 + i] == #[trigger] header[i] by {
        assert(first.subrange(2, 10)[i] == first[2 + i]);
    }
    assert(first[4] == header[2] && first[5] == header[3]);
    assert(first[6] == header[4] && first[7] == header[5]);
    assert(first[8] == header[6] && first[9] == header[7]);
}

/// The first `k` reports of an encoded message hold the body from behind the header up to
/// the end of the `k`-th chunk.
pub proof fn lemma_encoded_stream(type_id: u16, payload: Seq<u8>, k: int)
    requires
        1 <= k <= spec_report_count(payload.len()),
    ensures
        spec_stream_data(spec_encode(type_id, payload).take(k)) == spec_body(
            type_id,
            payload,
        ).subrange(8, 63 * k),
    decreases k,
{
    let body = spec_body(type_id, payload);
    let reports = spec_encode(type_id, payload);
    lemma_body_len(type_id, payload);
    if k == 1 {
        assert(reports.take(1)[0] == spec_report(body, 0));
        assert(spec_first_data(spec_report(body, 0)) =~= body.subrange(8, 63));
    } else {
        lemma_encoded_stream(type_id, payload, k - 1);
        assert(reports.take(k).drop_last() =~= reports.take(k - 1));
        assert(reports.take(k).last() == spec_report(body, k - 1));
        assert(spec_next_data(spec_report(body, k - 1)) =~= body.subrange(
            63 * (k - 1),
            63 * k,
        ));
        assert(body.subrange(8, 63 * (k - 1)) + body.subrange(63 * (k - 1), 63 * k)
            =~= body.subrange(8, 63 * k));
    }
}

/// Decoding what was encoded gives the message back: the same type and the same payload,
/// for every payload whose length fits the length field.
pub proof fn lemma_round_trip(type_id: u16, payload: Seq<u8>)
    requires
        spec_can_frame(payload.len()),
    ensures
        spec_decode(spec_encode(type_id, payload)) == Some((type_id, payload)),
{
    let body = spec_body(type_id, payload);
    let reports = spec_encode(type_id, payload);
    let len = payload.len();
    let count = spec_report_count(len);
    lemma_body_len(type_id, payload);
    let first = reports[0];
    assert(first == spec_report(body, 0));
    assert(first.subrange(2, 10) =~= spec_header(type_id, len));
    lemma_header_round_trip(type_id, len, first);
    assert(first[1] == MARKER);
    lemma_encoded_stream(type_id, payload, count as int);
    assert(body.subrange(8, 63 * count as int).take(len as int) =~= payload);
}

} // verus!
