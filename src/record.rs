//! Encoding and decoding of protocol records.
//!
//! Wire layout of a record (all integers big-endian):
//!
//! ```text
//! offset 0:  reserved   1 byte (0)
//! offset 1:  control    1 byte
//! offset 2:  format-1   1 byte
//! offset 3:  length-1   4 bytes
//! offset 7:  format-2   1 byte
//! offset 8:  length-2   4 bytes
//! offset 12: content-1  length-1 bytes
//! then:      content-2  length-2 bytes
//! ```
use vstd::prelude::*;

use crate::constants::{HEADER_LEN, RESERVED};
use crate::error::NeutralIpcError;

verus! {

/// The four big-endian bytes of `x`, most significant first.
pub open spec fn be_bytes(x: u32) -> Seq<u8> {
    seq![(x >> 24u32) as u8, ((x >> 16u32) & 0xffu32) as u8, ((x >> 8u32) & 0xffu32) as u8, (x & 0xffu32) as u8]
}

/// The unsigned integer whose big-endian bytes are `b0 b1 b2 b3`.
pub open spec fn be_value(b0: u8, b1: u8, b2: u8, b3: u8) -> u32 {
    ((b0 as u32) << 24u32) | ((b1 as u32) << 16u32) | ((b2 as u32) << 8u32) | (b3 as u32)
}

/// The 12 header bytes for the given fields.
pub open spec fn header_bytes(control: u8, format1: u8, length1: u32, format2: u8, length2: u32) -> Seq<u8> {
    seq![RESERVED, control, format1] + be_bytes(length1) + seq![format2] + be_bytes(length2)
}

/// A whole record: its header, then the two content blocks verbatim.
pub open spec fn record_bytes(control: u8, format1: u8, content1: Seq<u8>, format2: u8, content2: Seq<u8>) -> Seq<u8> {
    header_bytes(control, format1, content1.len() as u32, format2, content2.len() as u32) + content1 + content2
}

/// The header that 12 bytes describe.
pub open spec fn header_of(b: Seq<u8>) -> Header {
    Header {
        reserved: b[0],
        control: b[1],
        format1: b[2],
        length1: be_value(b[3], b[4], b[5], b[6]),
        format2: b[7],
        length2: be_value(b[8], b[9], b[10], b[11]),
    }
}

/// The fixed-size prefix of every record.
#[derive(Debug, Clone, Copy, PartialEq, Eq)]
pub struct Header {
    /// Reserved byte, recorded as read.
    pub reserved: u8,
    /// Operation code of a request, status code of a response.
    pub control: u8,
    /// Content format of the first block.
    pub format1: u8,
    /// Byte length of the first block.
    pub length1: u32,
    /// Content format of the second block.
    pub format2: u8,
    /// Byte length of the second block.
    pub length2: u32,
}

/// A decoded record: its codes and its two content blocks as text.
#[derive(Debug)]
pub struct Record {
    /// Always `RESERVED`, whatever the wire held.
    pub reserved: u8,
    /// Status (response) or operation (request) code.
    pub control: u8,
    /// Content format of the first block.
    pub format1: u8,
    /// The first block.
    pub content1: String,
    /// Content format of the second block.
    pub format2: u8,
    /// The second block.
    pub content2: String,
}

impl Record {
    /// This record is the response that `header` announces, with the two texts
    /// as its contents.
    pub open spec fn describes(&self, header: Seq<u8>, content1: Seq<char>, content2: Seq<char>) -> bool {
        &&& self.reserved == RESERVED
        &&& self.control == header[1]
        &&& self.format1 == header[2]
        &&& self.content1@ == content1
        &&& self.format2 == header[7]
        &&& self.content2@ == content2
    }
}

/// Encoder and decoder of records.
pub struct NeutralIpcRecord;

/// Appends the big-endian bytes of `x` to `out`.
fn push_be_u32(out: &mut Vec<u8>, x: u32)
    ensures
        final(out)@ == old(out)@ + be_bytes(x),
{
    out.push((x >> 24u32) as u8);
    out.push(((x >> 16u32) & 0xffu32) as u8);
    out.push(((x >> 8u32) & 0xffu32) as u8);
    out.push((x & 0xffu32) as u8);
    assert(final(out)@ =~= old(out)@ + be_bytes(x));
}

/// Reads the big-endian integer held by `b[at..at + 4]`.
fn read_be_u32(b: &[u8], at: usize) -> (r: u32)
    requires
        at + 4 <= b@.len(),
    ensures
        r == be_value(b@[at as int], b@[at + 1], b@[at + 2], b@[at + 3]),
{
    ((b[at] as u32) << 24u32) | ((b[at + 1] as u32) << 16u32) | ((b[at + 2] as u32) << 8u32) | (b[at + 3] as u32)
}

impl NeutralIpcRecord {
    /// The 12 header bytes for the given fields; the reserved byte is zero.
    pub fn encode_header(control: u8, format1: u8, length1: u32, format2: u8, length2: u32) -> (r: Vec<u8>)
        ensures
            r@ == header_bytes(control, format1, length1, format2, length2),
            r@.len() == HEADER_LEN,
    {
        let mut header: Vec<u8> = Vec::with_capacity(HEADER_LEN);
        header.push(RESERVED);
        header.push(control);
        header.push(format1);
        push_be_u32(&mut header, length1);
        header.push(format2);
        push_be_u32(&mut header, length2);
        assert(header@ =~= header_bytes(control, format1, length1, format2, length2));
        header
    }

    /// Decodes a header; fails unless `record_header` holds exactly `HEADER_LEN` bytes.
    pub fn decode_header(record_header: &[u8]) -> (r: Result<Header, NeutralIpcError>)
        ensures
            record_header@.len() != HEADER_LEN ==> r == Err::<Header, NeutralIpcError>(NeutralIpcError::InvalidHeaderLength),
            record_header@.len() == HEADER_LEN ==> r == Ok::<Header, NeutralIpcError>(header_of(record_header@)),
    {
        if record_header.len() != HEADER_LEN {
            return Err(NeutralIpcError::InvalidHeaderLength);
        }
        Ok(Header {
            reserved: record_header[0],
            control: record_header[1],
            format1: record_header[2],
            length1: read_be_u32(record_header, 3),
            format2: record_header[7],
            length2: read_be_u32(record_header, 8),
        })
    }

    /// A whole record: the header with the two contents' lengths, then
    /// `content1` and `content2` verbatim.
    pub fn encode_record(control: u8, format1: u8, content1: &[u8], format2: u8, content2: &[u8]) -> (r: Vec<u8>)
        requires
            content1@.len() <= u32::MAX,
            content2@.len() <= u32::MAX,
        ensures
            r@ == record_bytes(control, format1, content1@, format2, content2@),
    {
        let length1 = content1.len() as u32;
        let length2 = content2.len() as u32;
        let mut record = Self::encode_header(control, format1, length1, format2, length2);
        record.extend_from_slice(content1);
        record.extend_from_slice(content2);
        assert(record@ =~= record_bytes(control, format1, content1@, format2, content2@));
        record
    }

    /// Packages a response: checks the header's size, then takes its codes and
    /// the two texts. The reserved field is set to `RESERVED`.
    pub fn decode_record(header: &[u8], content1: &str, content2: &str) -> (r: Result<Record, NeutralIpcError>)
        ensures
            header@.len() != HEADER_LEN ==> r matches Err(NeutralIpcError::InvalidHeaderLength),
            header@.len() == HEADER_LEN ==> (r matches Ok(rec) && rec.describes(header@, content1@, content2@)),
    {
        let _ = Self::decode_header(header)?;
        Ok(Record {
            reserved: RESERVED,
            control: header[1],
            format1: header[2],
            content1: content1.to_owned(),
            format2: header[7],
            content2: content2.to_owned(),
        })
    }
}

/// Decoding the bytes of an encoded header gives back the five fields it was
/// made from, with a zero reserved byte.
pub proof fn lemma_header_round_trip(control: u8, format1: u8, length1: u32, format2: u8, length2: u32)
    ensures
        header_of(header_bytes(control, format1, length1, format2, length2)) == (Header {
            reserved: RESERVED,
            control,
            format1,
            length1,
            format2,
            length2,
        }),
{
    lemma_be_round_trip(length1);
    lemma_be_round_trip(length2);
}

/// Reading back the big-endian bytes of `x` gives `x`.
pub proof fn lemma_be_round_trip(x: u32)
    ensures
        be_value(be_bytes(x)[0], be_bytes(x)[1], be_bytes(x)[2], be_bytes(x)[3]) == x,
{
    assert(((((x >> 24u32) as u8) as u32) << 24u32) | (((((x >> 16u32) & 0xffu32) as u8) as u32) << 16u32)
        | (((((x >> 8u32) & 0xffu32) as u8) as u32) << 8u32) | (((x & 0xffu32) as u8) as u32) == x) by (bit_vector);
}

/// An encoded record is 12 bytes longer than its two contents together, and
/// its header declares their exact lengths.
pub proof fn lemma_record_length(control: u8, format1: u8, content1: Seq<u8>, format2: u8, content2: Seq<u8>)
    requires
        content1.len() <= u32::MAX,
        content2.len() <= u32::MAX,
    ensures
        record_bytes(control, format1, content1, format2, content2).len() == HEADER_LEN + content1.len() + content2.len(),
        header_of(record_bytes(control, format1, content1, format2, content2).subrange(0, HEADER_LEN as int)).length1 == content1.len(),
        header_of(record_bytes(control, format1, content1, format2, content2).subrange(0, HEADER_LEN as int)).length2 == content2.len(),
{
    let h = header_bytes(control, format1, content1.len() as u32, format2, content2.len() as u32);
    assert(record_bytes(control, format1, content1, format2, content2).subrange(0, HEADER_LEN as int) =~= h);
    lemma_header_round_trip(control, format1, content1.len() as u32, format2, content2.len() as u32);
}

} // verus!
