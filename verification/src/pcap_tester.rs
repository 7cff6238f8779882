//! Judges a packet capture: every UDP record must be a test packet, and the
//! sequence numbers of the test packets must account for the expected count.

use crate::text;
use byteorder::{ByteOrder, LittleEndian};
use etherparse::{ReadError, SlicedPacket, TransportSlice};
use pcap_file::pcap::PcapReader;
use pcap_file::{PcapError, TsResolution};
use vstd::prelude::*;
use vstd::slice::{slice_subrange, slice_to_vec};
use vstd::string::*;

verus! {

// The outside parsers, and what is taken on trust of them.

/// The container-level error of the capture reader.
#[verifier::external_type_specification]
#[verifier::external_body]
pub struct ExPcapError(PcapError);

/// The frame-level error of the packet slicer.
#[verifier::external_type_specification]
#[verifier::external_body]
pub struct ExReadError(ReadError);

/// A `PcapReader` over a byte slice that takes time stamps as nanoseconds:
/// the stream of the records that are still to come. It is kept opaque; only
/// `open_capture` makes one, and `next_record` steps it.
#[verifier::external_body]
pub struct CaptureReader<'a> {
    reader: PcapReader<&'a [u8]>,
}

/// What a capture reader will still hand out, in order: each record's bytes,
/// or `None` where the reader will report an error in its place.
pub uninterp spec fn pending_records(reader: CaptureReader) -> Seq<Option<Seq<u8>>>;

/// What a reader that was just opened on `bytes` will hand out, or `None`
/// where the capture's global header is refused.
pub uninterp spec fn capture_records(bytes: Seq<u8>) -> Option<Seq<Option<Seq<u8>>>>;

/// What is left of one record's frame once the headers are sliced off, as far
/// as the validator reads it.
pub enum Frame {
    /// A UDP datagram: the length field of its header, and all bytes that
    /// follow the header in the record.
    Udp { length: u16, payload: Vec<u8> },
    /// Any other frame.
    Other,
}

/// A frame as plain values.
pub enum FrameView {
    Udp { length: u16, payload: Seq<u8> },
    Other,
}

impl View for Frame {
    type V = FrameView;

    open spec fn view(&self) -> FrameView {
        match *self {
            Frame::Udp { length, payload } => FrameView::Udp { length, payload: payload@ },
            Frame::Other => FrameView::Other,
        }
    }
}

/// The frame that the slicer finds in a record, or `None` where it reports an
/// error.
pub uninterp spec fn sliced_frame(data: Seq<u8>) -> Option<FrameView>;

/// The number that four bytes spell, least significant byte first.
pub open spec fn le_u32(b: Seq<u8>) -> u32
    recommends
        b.len() == 4,
{
    (b[0] as int + b[1] as int * 0x100 + b[2] as int * 0x1_0000 + b[3] as int * 0x100_0000) as u32
}

/// `PcapReader::new` on a byte slice, and `PcapHeader::set_ts_resolution` on
/// the header of the reader that it gives. The first reads the capture's
/// global header and fails where it is not one. The second lets the reader
/// take the records' time stamps as nanoseconds, which they are or are not:
/// the validator reads no time stamp, and a reader that takes them as
/// microseconds multiplies each by 1000 and may overflow. The bytes of the
/// records are the same either way. The result is a function of the bytes
/// alone.
#[verifier::external_body]
fn open_capture<'a>(pcap: &'a [u8]) -> (r: Result<CaptureReader<'a>, PcapError>)
    ensures
        r is Ok <==> capture_records(pcap@) is Some,
        r is Ok ==> pending_records(r->Ok_0) == capture_records(pcap@)->0,
{
    match PcapReader::new(pcap) {
        Ok(mut reader) => {
            reader.header.set_ts_resolution(TsResolution::NanoSecond);
            Ok(CaptureReader { reader })
        },
        Err(e) => Err(e),
    }
}

/// `PcapReader::next`, the reader's step as an iterator, on a reader that
/// `open_capture` made: `None` at the end of the bytes, else the next record
/// or the error found in its place. Every step uses up the head of what is
/// pending.
#[verifier::external_body]
fn next_record(reader: &mut CaptureReader) -> (r: Option<Result<Vec<u8>, PcapError>>)
    ensures
        r is None <==> pending_records(*old(reader)).len() == 0,
        r is None ==> pending_records(*final(reader)) == pending_records(*old(reader)),
        r is Some ==> pending_records(*final(reader)) == pending_records(
            *old(reader),
        ).drop_first(),
        r is Some ==> (r->0 is Ok <==> pending_records(*old(reader))[0] is Some),
        r is Some && r->0 is Ok ==> Some(r->0->Ok_0@) == pending_records(*old(reader))[0],
{
    match reader.reader.next() {
        None => None,
        Some(Ok(packet)) => Some(Ok(packet.data.into_owned())),
        Some(Err(e)) => Some(Err(e)),
    }
}

/// `SlicedPacket::from_ethernet`: slices an Ethernet II frame into its
/// headers. Of the result only the transport is kept: for UDP the header's
/// length field and the bytes after the header. The result is a function of
/// the bytes alone.
#[verifier::external_body]
fn slice_frame(data: &[u8]) -> (r: Result<Frame, ReadError>)
    ensures
        r is Ok <==> sliced_frame(data@) is Some,
        r is Ok ==> Some(r->Ok_0@) == sliced_frame(data@),
{
    match SlicedPacket::from_ethernet(data) {
        Err(e) => Err(e),
        Ok(packet) => Ok(
            match packet.transport {
                Some(TransportSlice::Udp(header)) => Frame::Udp {
                    length: header.length(),
                    payload: packet.payload.to_vec(),
                },
                Some(TransportSlice::Tcp(_)) => Frame::Other,
                None => Frame::Other,
            },
        ),
    }
}

/// `LittleEndian::read_u32`: the number that the first four bytes of `buf`
/// spell, least significant byte first. It panics on fewer than four bytes.
#[verifier::external_body]
fn read_le_u32(buf: &[u8]) -> (r: u32)
    requires
        buf@.len() >= 4,
    ensures
        r == le_u32(buf@.subrange(0, 4)),
{
    LittleEndian::read_u32(buf)
}

/// `PcapError`'s `Display`: the error in its own words.
#[verifier::external_body]
fn pcap_error_text(e: &PcapError) -> String {
    format!("{}", e)
}

/// `ReadError`'s `Debug`: the error as the slicer prints it.
#[verifier::external_body]
fn read_error_text(e: &ReadError) -> String {
    format!("{:?}", e)
}

// The errors.

/// The UDP length field that every test packet carries.
pub const TEST_PACKET_UDP_LENGTH: u16 = 26;

/// Why a capture was not accepted.
#[derive(Debug)]
pub enum Error {
    /// The capture container could not be read.
    Pcap { source: PcapError },
    /// A record does not hold a readable Ethernet frame.
    EtherParse { read_error: ReadError, packet: Vec<u8> },
    /// A UDP record is not a test packet.
    MalformedUdpPacket { packet: Vec<u8> },
    /// The capture holds another number of test packets than expected.
    IncorrectPacketCount { expected: usize, actual: usize },
    /// The highest sequence number lies outside the tolerated band.
    BadSequenceNumber { packets: usize, max_seq_num: u32 },
    /// Some sequence number occurs more than once.
    DuplicateSequenceNumber,
}

/// An `Error` without the values that only the outside parsers understand.
pub enum ErrorView {
    Pcap,
    EtherParse { packet: Seq<u8> },
    MalformedUdpPacket { packet: Seq<u8> },
    IncorrectPacketCount { expected: usize, actual: usize },
    BadSequenceNumber { packets: usize, max_seq_num: u32 },
    DuplicateSequenceNumber,
}

impl View for Error {
    type V = ErrorView;

    open spec fn view(&self) -> ErrorView {
        match *self {
            Error::Pcap { .. } => ErrorView::Pcap,
            Error::EtherParse { packet, .. } => ErrorView::EtherParse { packet: packet@ },
            Error::MalformedUdpPacket { packet } => ErrorView::MalformedUdpPacket {
                packet: packet@,
            },
            Error::IncorrectPacketCount { expected, actual } => ErrorView::IncorrectPacketCount {
                expected,
                actual,
            },
            Error::BadSequenceNumber { packets, max_seq_num } => ErrorView::BadSequenceNumber {
                packets,
                max_seq_num,
            },
            Error::DuplicateSequenceNumber => ErrorView::DuplicateSequenceNumber,
        }
    }
}

/// The view of a validator result.
pub open spec fn outcome(r: Result<(), Error>) -> Result<(), ErrorView> {
    match r {
        Ok(()) => Ok(()),
        Err(e) => Err(e@),
    }
}

/// The view of what the inspection of one record gives.
pub open spec fn inspection(r: Result<Option<u32>, Error>) -> Result<Option<u32>, ErrorView> {
    match r {
        Ok(found) => Ok(found),
        Err(e) => Err(e@),
    }
}

// What a capture is judged by.

/// A UDP datagram is a test packet where its length field is 26 and its
/// payload begins with the marker `ixy` and has room for a sequence number.
pub open spec fn is_test_packet(length: u16, payload: Seq<u8>) -> bool {
    &&& length == TEST_PACKET_UDP_LENGTH
    &&& payload.len() >= 4
    &&& payload[0] == 0x69
    &&& payload[1] == 0x78
    &&& payload[2] == 0x79
}

/// The sequence number of a test packet: the last four bytes of its payload,
/// least significant byte first.
pub open spec fn sequence_number(payload: Seq<u8>) -> u32
    recommends
        payload.len() >= 4,
{
    le_u32(payload.subrange(payload.len() - 4, payload.len() as int))
}

/// What one record adds to the scan, given what the slicer made of it: an
/// error that ends the scan, nothing for a frame that is not UDP, or the
/// sequence number of a test packet.
pub open spec fn inspected(data: Seq<u8>, sliced: Option<FrameView>) -> Result<
    Option<u32>,
    ErrorView,
> {
    match sliced {
        None => Err(ErrorView::EtherParse { packet: data }),
        Some(FrameView::Other) => Ok(None),
        Some(FrameView::Udp { length, payload }) => if is_test_packet(length, payload) {
            Ok(Some(sequence_number(payload)))
        } else {
            Err(ErrorView::MalformedUdpPacket { packet: data })
        },
    }
}

/// What one pending item of the reader adds to the scan.
pub open spec fn examined(item: Option<Seq<u8>>) -> Result<Option<u32>, ErrorView> {
    match item {
        None => Err(ErrorView::Pcap),
        Some(data) => inspected(data, sliced_frame(data)),
    }
}

/// The sequence numbers that a scan of `items` adds to `seen`, or the error
/// of the first item that has one. Nothing behind that item is looked at.
pub open spec fn scan(items: Seq<Option<Seq<u8>>>, seen: Seq<u32>) -> Result<Seq<u32>, ErrorView>
    decreases items.len(),
{
    if items.len() == 0 {
        Ok(seen)
    } else {
        match examined(items[0]) {
            Err(e) => Err(e),
            Ok(None) => scan(items.drop_first(), seen),
            Ok(Some(seq_num)) => scan(items.drop_first(), seen.push(seq_num)),
        }
    }
}

/// The largest sequence number of `seqs`, and 0 where there is none.
pub open spec fn max_seq_num(seqs: Seq<u32>) -> u32
    decreases seqs.len(),
{
    if seqs.len() == 0 {
        0
    } else {
        let rest = max_seq_num(seqs.drop_last());
        if seqs.last() > rest {
            seqs.last()
        } else {
            rest
        }
    }
}

/// The verdict on the sequence numbers of a capture's test packets, in file
/// order, against the expected count: the count is exact, the highest number
/// lies between `expected - 1` and `2 * expected`, and no number repeats.
pub open spec fn judge(seqs: Seq<u32>, expected: usize) -> Result<(), ErrorView> {
    if seqs.len() != expected {
        Err(ErrorView::IncorrectPacketCount { expected, actual: seqs.len() as usize })
    } else if !(expected - 1 <= max_seq_num(seqs) <= 2 * expected) {
        Err(ErrorView::BadSequenceNumber { packets: expected, max_seq_num: max_seq_num(seqs) })
    } else if !seqs.no_duplicates() {
        Err(ErrorView::DuplicateSequenceNumber)
    } else {
        Ok(())
    }
}

/// The verdict on a reader's items against the expected count.
pub open spec fn verdict_of(items: Seq<Option<Seq<u8>>>, expected: usize) -> Result<
    (),
    ErrorView,
> {
    match scan(items, Seq::empty()) {
        Err(e) => Err(e),
        Ok(seqs) => judge(seqs, expected),
    }
}

/// The verdict on a capture against the expected count.
pub open spec fn verdict(bytes: Seq<u8>, expected: usize) -> Result<(), ErrorView> {
    match capture_records(bytes) {
        None => Err(ErrorView::Pcap),
        Some(items) => verdict_of(items, expected),
    }
}

// The judging of the sequence numbers.

/// `s` with every element left out that equals the one before it.
pub open spec fn without_repeats(s: Seq<u32>) -> Seq<u32>
    decreases s.len(),
{
    if s.len() <= 1 {
        s
    } else {
        let front = without_repeats(s.drop_last());
        if s[s.len() - 2] == s.last() {
            front
        } else {
            front.push(s.last())
        }
    }
}

/// The element of `s` at `i` equals the one before it.
pub open spec fn repeats_at(s: Seq<u32>, i: int) -> bool {
    s[i - 1] == s[i]
}

/// No element of `s` equals the one before it.
pub open spec fn no_repeats(s: Seq<u32>) -> bool {
    forall|i: int| 0 < i < s.len() ==> !#[trigger] repeats_at(s, i)
}

/// `s` ascends, equal neighbours allowed.
pub open spec fn ascending(s: Seq<u32>) -> bool {
    forall|i: int, j: int| 0 <= i <= j < s.len() ==> #[trigger] s[i] <= #[trigger] s[j]
}

/// `<[u32]>::sort_unstable`: sorts the numbers in place, in ascending order.
/// They are rearranged, none is added or lost.
#[verifier::external_body]
fn sort_unstable(v: &mut Vec<u32>)
    ensures
        final(v)@.to_multiset() == old(v)@.to_multiset(),
        ascending(final(v)@),
{
    v.sort_unstable();
}

/// `Vec::dedup`: removes each element that equals the one before it.
#[verifier::external_body]
fn dedup(v: &mut Vec<u32>)
    ensures
        final(v)@ == without_repeats(old(v)@),
{
    v.dedup();
}

/// Leaving out repeats shortens a sequence exactly where it has one.
proof fn lemma_without_repeats_len(s: Seq<u32>)
    ensures
        without_repeats(s).len() <= s.len(),
        without_repeats(s).len() == s.len() <==> no_repeats(s),
    decreases s.len(),
{
    if s.len() > 1 {
        let front = s.drop_last();
        lemma_without_repeats_len(front);
        if s[s.len() - 2] == s.last() {
            assert(repeats_at(s, s.len() - 1));
        } else if no_repeats(front) {
            assert forall|i: int| 0 < i < s.len() implies !#[trigger] repeats_at(s, i) by {
                if i < s.len() - 1 {
                    assert(!repeats_at(front, i));
                }
            }
        } else {
            let i = choose|i: int| 0 < i < front.len() && #[trigger] repeats_at(front, i);
            assert(repeats_at(s, i));
        }
    }
}

/// In an ascending sequence an element that occurs twice has an equal
/// neighbour.
proof fn lemma_ascending_repeats(s: Seq<u32>)
    requires
        ascending(s),
    ensures
        no_repeats(s) <==> s.no_duplicates(),
{
    if no_repeats(s) {
        assert forall|i: int, j: int| 0 <= i < s.len() && 0 <= j < s.len() && i != j implies s[i]
            != s[j] by {
            let (a, b) = if i < j {
                (i, j)
            } else {
                (j, i)
            };
            assert(s[a] <= s[a + 1] && s[a + 1] <= s[b]);
            assert(!repeats_at(s, a + 1));
        }
    }
    if s.no_duplicates() {
        assert forall|i: int| 0 < i < s.len() implies !#[trigger] repeats_at(s, i) by {
            assert(s[i - 1] != s[i]);
        }
    }
}

/// Rearranging a sequence neither makes nor removes a duplicate.
proof fn lemma_rearranged_duplicates(a: Seq<u32>, b: Seq<u32>)
    requires
        a.to_multiset() == b.to_multiset(),
    ensures
        a.no_duplicates() <==> b.no_duplicates(),
{
    if a.no_duplicates() {
        a.lemma_multiset_has_no_duplicates();
        b.lemma_multiset_has_no_duplicates_conv();
    }
    if b.no_duplicates() {
        b.lemma_multiset_has_no_duplicates();
        a.lemma_multiset_has_no_duplicates_conv();
    }
}

/// The largest of `seq_nums`, and 0 where there is none.
fn largest(seq_nums: &Vec<u32>) -> (r: u32)
    ensures
        r == max_seq_num(seq_nums@),
{
    let mut max: u32 = 0;
    let mut i: usize = 0;
    while i < seq_nums.len()
        invariant
            i <= seq_nums.len(),
            max == max_seq_num(seq_nums@.take(i as int)),
        decreases seq_nums.len() - i,
    {
        proof {
            assert(seq_nums@.take(i + 1).drop_last() == seq_nums@.take(i as int));
        }
        if seq_nums[i] > max {
            max = seq_nums[i];
        }
        i += 1;
    }
    proof {
        assert(seq_nums@.take(i as int) == seq_nums@);
    }
    max
}

/// Judges the sequence numbers of a capture's test packets, in file order,
/// against the expected count.
pub fn judge_sequence(seq_nums: Vec<u32>, pcap_n: usize) -> (r: Result<(), Error>)
    ensures
        outcome(r) == judge(seq_nums@, pcap_n),
{
    let count = seq_nums.len();
    if count != pcap_n {
        return Err(Error::IncorrectPacketCount { expected: pcap_n, actual: count });
    }
    let max = largest(&seq_nums);
    let in_band = (pcap_n == 0 || max as u128 >= (pcap_n - 1) as u128) && max as u128 <= 2
        * (pcap_n as u128);
    if !in_band {
        return Err(Error::BadSequenceNumber { packets: pcap_n, max_seq_num: max });
    }
    let mut seq_nums = seq_nums;
    let ghost given = seq_nums@;
    sort_unstable(&mut seq_nums);
    let ghost sorted = seq_nums@;
    dedup(&mut seq_nums);
    proof {
        lemma_rearranged_duplicates(given, sorted);
        lemma_ascending_repeats(sorted);
        lemma_without_repeats_len(sorted);
        sorted.to_multiset_ensures();
        given.to_multiset_ensures();
    }
    if seq_nums.len() != count {
        return Err(Error::DuplicateSequenceNumber);
    }
    Ok(())
}

// The scan of the records.

/// Decides what a record adds to the scan from what the slicer made of it.
pub fn inspect_frame(data: &[u8], sliced: Result<Frame, ReadError>) -> (r: Result<
    Option<u32>,
    Error,
>)
    ensures
        inspection(r) == inspected(
            data@,
            match sliced {
                Ok(frame) => Some(frame@),
                Err(_) => None,
            },
        ),
{
    match sliced {
        Err(read_error) => Err(Error::EtherParse { read_error, packet: slice_to_vec(data) }),
        Ok(Frame::Other) => Ok(None),
        Ok(Frame::Udp { length, payload }) => {
            let len = payload.len();
            if length != TEST_PACKET_UDP_LENGTH || len < 4 || payload[0] != 0x69 || payload[1]
                != 0x78 || payload[2] != 0x79 {
                return Err(Error::MalformedUdpPacket { packet: slice_to_vec(data) });
            }
            let tail = slice_subrange(payload.as_slice(), len - 4, len);
            proof {
                assert(tail@.subrange(0, 4) == tail@);
            }
            Ok(Some(read_le_u32(tail)))
        },
    }
}

/// Slices one record and decides what it adds to the scan.
pub fn inspect_record(data: &[u8]) -> (r: Result<Option<u32>, Error>)
    ensures
        inspection(r) == examined(Some(data@)),
{
    inspect_frame(data, slice_frame(data))
}

/// Judges a capture against the expected number of test packets.
///
/// The records are read in file order. A record that is not UDP is passed
/// over. The first record that cannot be read, that holds no readable frame or
/// that is UDP without being a test packet ends the scan with its error.
/// After the last record the sequence numbers are judged: their count, their
/// highest value, and that none repeats.
pub fn test_pcap(pcap: &[u8], pcap_n: usize) -> (r: Result<(), Error>)
    ensures
        outcome(r) == verdict(pcap@, pcap_n),
{
    let mut reader = match open_capture(pcap) {
        Ok(reader) => reader,
        Err(source) => {
            return Err(Error::Pcap { source });
        },
    };
    let ghost items = pending_records(reader);
    let mut seq_nums: Vec<u32> = Vec::new();
    loop
        invariant
            capture_records(pcap@) == Some(items),
            scan(pending_records(reader), seq_nums@) == scan(items, Seq::empty()),
        ensures
            scan(items, Seq::empty()) == Ok::<Seq<u32>, ErrorView>(seq_nums@),
        decreases pending_records(reader).len(),
    {
        let data = match next_record(&mut reader) {
            None => {
                break ;
            },
            Some(Err(source)) => {
                return Err(Error::Pcap { source });
            },
            Some(Ok(data)) => data,
        };
        match inspect_record(data.as_slice()) {
            Err(e) => {
                return Err(e);
            },
            Ok(None) => {},
            Ok(Some(seq_num)) => {
                seq_nums.push(seq_num);
            },
        }
    }
    judge_sequence(seq_nums, pcap_n)
}

// The errors in words.

/// Whether `text` words an error of the validator. The words of a parser's
/// own error, in the first two kinds, are the parser's business.
pub open spec fn worded(e: ErrorView, text: Seq<char>) -> bool {
    match e {
        ErrorView::Pcap => exists|source: Seq<char>|
            text == "Failed to parse pcap file: "@ + source,
        ErrorView::EtherParse { packet } => exists|source: Seq<char>|
            text == "Failed to parse ethernet frame: "@ + source + "; packet: "@
                + text::hex_list(packet),
        ErrorView::MalformedUdpPacket { packet } => text
            == "Malformed UDP packet (invalid length or missing \"ixy\"): "@ + text::hex_list(
            packet,
        ),
        ErrorView::IncorrectPacketCount { expected, actual } => text
            == "Incorrect packet count: expected: "@ + text::decimal(expected as nat)
            + " actual: "@ + text::decimal(actual as nat),
        ErrorView::BadSequenceNumber { packets, max_seq_num } => text
            == "Bad sequence number: expected "@ + text::decimal(packets as nat)
            + " packets but max sequence number was "@ + text::decimal(max_seq_num as nat),
        ErrorView::DuplicateSequenceNumber => text
            == "Some sequence number occured more than once"@,
    }
}

impl Error {
    /// The error in words.
    pub fn message(&self) -> (r: String)
        ensures
            worded(self@, r@),
    {
        match self {
            Error::Pcap { source } => {
                let source = pcap_error_text(source);
                String::from_str("Failed to parse pcap file: ").concat(source.as_str())
            },
            Error::EtherParse { read_error, packet } => {
                let source = read_error_text(read_error);
                String::from_str("Failed to parse ethernet frame: ").concat(
                    source.as_str(),
                ).concat("; packet: ").concat(text::to_hex_list(packet).as_str())
            },
            Error::MalformedUdpPacket { packet } => String::from_str(
                "Malformed UDP packet (invalid length or missing \"ixy\"): ",
            ).concat(text::to_hex_list(packet).as_str()),
            Error::IncorrectPacketCount { expected, actual } => String::from_str(
                "Incorrect packet count: expected: ",
            ).concat(text::to_decimal(*expected as u64).as_str()).concat(" actual: ").concat(
                text::to_decimal(*actual as u64).as_str(),
            ),
            Error::BadSequenceNumber { packets, max_seq_num } => String::from_str(
                "Bad sequence number: expected ",
            ).concat(text::to_decimal(*packets as u64).as_str()).concat(
                " packets but max sequence number was ",
            ).concat(text::to_decimal(*max_seq_num as u64).as_str()),
            Error::DuplicateSequenceNumber => String::from_str(
                "Some sequence number occured more than once",
            ),
        }
    }
}

// What holds of every capture.

/// The first item with an error decides a scan, whatever was seen before it
/// and whatever follows it.
proof fn lemma_scan_stops(items: Seq<Option<Seq<u8>>>, seen: Seq<u32>, at: int, e: ErrorView)
    requires
        0 <= at < items.len(),
        forall|j: int| 0 <= j < at ==> (#[trigger] examined(items[j])) is Ok,
        examined(items[at]) == Err::<Option<u32>, ErrorView>(e),
    ensures
        scan(items, seen) == Err::<Seq<u32>, ErrorView>(e),
    decreases at,
{
    if at > 0 {
        let rest = items.drop_first();
        assert(examined(items[0]) is Ok);
        assert forall|j: int| 0 <= j < at - 1 implies (#[trigger] examined(rest[j])) is Ok by {
            assert(examined(items[j + 1]) is Ok);
        }
        match examined(items[0]) {
            Ok(Some(seq_num)) => lemma_scan_stops(rest, seen.push(seq_num), at - 1, e),
            _ => lemma_scan_stops(rest, seen, at - 1, e),
        }
    }
}

/// A capture passes where its test packets are as many as expected, their
/// highest sequence number lies between `expected - 1` and `2 * expected`,
/// and no sequence number occurs twice.
pub proof fn lemma_sound_capture_passes(
    items: Seq<Option<Seq<u8>>>,
    seqs: Seq<u32>,
    expected: usize,
)
    requires
        scan(items, Seq::empty()) == Ok::<Seq<u32>, ErrorView>(seqs),
        seqs.len() == expected,
        expected - 1 <= max_seq_num(seqs) <= 2 * expected,
        forall|i: int, j: int| 0 <= i < j < seqs.len() ==> seqs[i] != seqs[j],
    ensures
        verdict_of(items, expected) == Ok::<(), ErrorView>(()),
{
}

/// A capture whose test packets are not as many as expected fails with the
/// count mismatch, which tells the expected and the actual number.
pub proof fn lemma_wrong_count_fails(items: Seq<Option<Seq<u8>>>, seqs: Seq<u32>, expected: usize)
    requires
        scan(items, Seq::empty()) == Ok::<Seq<u32>, ErrorView>(seqs),
        seqs.len() != expected,
    ensures
        verdict_of(items, expected) == Err::<(), ErrorView>(
            ErrorView::IncorrectPacketCount { expected, actual: seqs.len() as usize },
        ),
{
}

/// A capture in which two test packets carry the same sequence number fails.
/// Where the count and the highest number are as they should be, the error
/// is the duplicate.
pub proof fn lemma_duplicate_fails(
    items: Seq<Option<Seq<u8>>>,
    seqs: Seq<u32>,
    expected: usize,
    i: int,
    j: int,
)
    requires
        scan(items, Seq::empty()) == Ok::<Seq<u32>, ErrorView>(seqs),
        0 <= i < j < seqs.len(),
        seqs[i] == seqs[j],
    ensures
        verdict_of(items, expected) is Err,
        seqs.len() == expected && expected - 1 <= max_seq_num(seqs) <= 2 * expected
            ==> verdict_of(items, expected) == Err::<(), ErrorView>(
            ErrorView::DuplicateSequenceNumber,
        ),
{
}

/// A UDP datagram whose length field is not 26, or whose payload does not
/// begin with `ixy`, is refused as malformed, with the record's bytes.
pub proof fn lemma_foreign_udp_refused(data: Seq<u8>, length: u16, payload: Seq<u8>)
    requires
        length != 26 || payload.len() < 3 || payload.subrange(0, 3) != seq![0x69u8, 0x78u8, 0x79u8],
    ensures
        inspected(data, Some(FrameView::Udp { length, payload })) == Err::<Option<u32>, ErrorView>(
            ErrorView::MalformedUdpPacket { packet: data },
        ),
{
    if length == 26 && payload.len() >= 4 {
        let marker = seq![0x69u8, 0x78u8, 0x79u8];
        if payload[0] == 0x69 && payload[1] == 0x78 && payload[2] == 0x79 {
            assert(payload.subrange(0, 3) =~= marker);
        }
    }
}

/// A record that is refused is refused at any place in the capture: where
/// every record before it is accepted, its error is the verdict, and nothing
/// that follows it is looked at.
pub proof fn lemma_refused_record_decides(
    items: Seq<Option<Seq<u8>>>,
    at: int,
    e: ErrorView,
    expected: usize,
)
    requires
        0 <= at < items.len(),
        forall|j: int| 0 <= j < at ==> (#[trigger] examined(items[j])) is Ok,
        examined(items[at]) == Err::<Option<u32>, ErrorView>(e),
    ensures
        verdict_of(items, expected) == Err::<(), ErrorView>(e),
        forall|others: Seq<Option<Seq<u8>>>| #[trigger]
            verdict_of(items.take(at + 1) + others, expected) == Err::<(), ErrorView>(e),
{
    lemma_scan_stops(items, Seq::empty(), at, e);
    assert forall|others: Seq<Option<Seq<u8>>>| #[trigger]
        verdict_of(items.take(at + 1) + others, expected) == Err::<(), ErrorView>(e) by {
        let cut = items.take(at + 1) + others;
        assert forall|j: int| 0 <= j < at implies (#[trigger] examined(cut[j])) is Ok by {
            assert(cut[j] == items[j]);
        }
        assert(cut[at] == items[at]);
        lemma_scan_stops(cut, Seq::empty(), at, e);
    }
}

} // verus!
