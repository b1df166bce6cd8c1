//! One request/response exchange with the template server.
//!
//! The connection itself lives with the caller: this module decides what is
//! written, how much is read at each step and what the bytes read mean. A
//! caller writes `request()`, reads `HEADER_LEN` bytes, hands them to
//! `start_response`, then feeds each `ContentReader` with what the stream
//! returns for `next_read_len()` until it `is_done()`, and ends with
//! `decode_response`.
use vstd::prelude::*;
use vstd::slice::slice_to_vec;
use vstd::utf8::{decode_utf8, encode_utf8, valid_utf8};
use vstd::string::StringSliceAdditionalSpecFns;

use crate::constants::{CONTENT_JSON, CONTENT_TEXT, CTRL_PARSE_TEMPLATE, HEADER_LEN};
use crate::error::NeutralIpcError;
use crate::record::{header_of, record_bytes, NeutralIpcRecord, Record};

verus! {

/// Where the chunked read of one content block stands.
pub struct ReadProgress {
    /// Bytes the header declared for the block.
    pub length: nat,
    /// Largest read issued at once.
    pub buffer_size: nat,
    /// Bytes still owed by the stream.
    pub remaining: nat,
    /// Bytes received so far, in order.
    pub data: Seq<u8>,
}

impl ReadProgress {
    /// Nothing received yet.
    pub open spec fn start(length: nat, buffer_size: nat) -> ReadProgress {
        ReadProgress { length, buffer_size, remaining: length, data: Seq::empty() }
    }

    /// Received and still owed bytes add up to the declared length.
    pub open spec fn consistent(self) -> bool {
        self.data.len() + self.remaining == self.length
    }

    /// The size of the next read: the buffer size, or what is still owed if less.
    pub open spec fn limit(self) -> nat {
        if self.buffer_size < self.remaining {
            self.buffer_size
        } else {
            self.remaining
        }
    }

    /// The progress after the stream delivered `chunk`.
    pub open spec fn after(self, chunk: Seq<u8>) -> ReadProgress {
        ReadProgress { remaining: (self.remaining - chunk.len()) as nat, data: self.data + chunk, ..self }
    }

    /// The progress after the stream delivered each of `chunks` in turn.
    pub open spec fn after_all(self, chunks: Seq<Seq<u8>>) -> ReadProgress
        decreases chunks.len(),
    {
        if chunks.len() == 0 {
            self
        } else {
            self.after(chunks[0]).after_all(chunks.drop_first())
        }
    }

    /// Each of `chunks` is a possible answer of the stream to the read issued
    /// before it: not empty, and no longer than was asked for.
    pub open spec fn fits(self, chunks: Seq<Seq<u8>>) -> bool
        decreases chunks.len(),
    {
        chunks.len() > 0 ==> {
            &&& 0 < chunks[0].len() <= self.limit()
            &&& self.after(chunks[0]).fits(chunks.drop_first())
        }
    }
}

/// However the stream splits a block into deliveries, as long as each one
/// answers the read issued before it, the reader ends up with exactly the
/// delivered bytes, in order, none lost and none repeated, and owes as many
/// fewer bytes as were delivered.
pub proof fn lemma_chunked_read_keeps_every_byte(p: ReadProgress, chunks: Seq<Seq<u8>>)
    requires
        p.consistent(),
        p.fits(chunks),
    ensures
        p.after_all(chunks).data == p.data + chunks.flatten(),
        p.after_all(chunks).remaining == p.remaining - chunks.flatten().len(),
        p.after_all(chunks).consistent(),
    decreases chunks.len(),
{
    if chunks.len() > 0 {
        let q = p.after(chunks[0]);
        lemma_chunked_read_keeps_every_byte(q, chunks.drop_first());
        assert(p.data + chunks.flatten() =~= q.data + chunks.drop_first().flatten());
    } else {
        assert(p.data + chunks.flatten() =~= p.data);
    }
}

/// A read of `length` bytes whose deliveries add up to `length` leaves the
/// reader done, holding the concatenation of the deliveries.
pub proof fn lemma_chunked_read_complete(length: nat, buffer_size: nat, chunks: Seq<Seq<u8>>)
    requires
        buffer_size >= 1,
        ReadProgress::start(length, buffer_size).fits(chunks),
        chunks.flatten().len() == length,
    ensures
        ReadProgress::start(length, buffer_size).after_all(chunks).remaining == 0,
        ReadProgress::start(length, buffer_size).after_all(chunks).data == chunks.flatten(),
{
    let p = ReadProgress::start(length, buffer_size);
    lemma_chunked_read_keeps_every_byte(p, chunks);
    assert(p.data + chunks.flatten() =~= chunks.flatten());
}

/// Relies on `String::from_utf8`: it accepts exactly the valid UTF-8 byte
/// sequences, and the string holds the characters that they encode.
#[verifier::external_body]
fn utf8_text(bytes: Vec<u8>) -> (r: Option<String>)
    ensures
        r is Some <==> valid_utf8(bytes@),
        r matches Some(s) ==> s@ == decode_utf8(bytes@),
{
    String::from_utf8(bytes).ok()
}

/// Collects one content block from a stream that may deliver it in pieces of
/// any size.
pub struct ContentReader {
    length: usize,
    buffer_size: usize,
    remaining: usize,
    data: Vec<u8>,
}

impl View for ContentReader {
    type V = ReadProgress;

    closed spec fn view(&self) -> ReadProgress {
        ReadProgress {
            length: self.length as nat,
            buffer_size: self.buffer_size as nat,
            remaining: self.remaining as nat,
            data: self.data@,
        }
    }
}

impl ContentReader {
    /// A reader of a block of `length` bytes that asks for at most
    /// `buffer_size` bytes at a time. A block of length zero is done at once.
    /// With a buffer size of zero no byte can arrive, so a block that is not
    /// empty ends in `ConnectionClosed`.
    pub fn new(length: usize, buffer_size: usize) -> (r: Self)
        ensures
            r@ == ReadProgress::start(length as nat, buffer_size as nat),
            r@.consistent(),
    {
        ContentReader { length, buffer_size, remaining: length, data: Vec::new() }
    }

    /// Whether the whole block has arrived.
    pub fn is_done(&self) -> (r: bool)
        ensures
            r == (self@.remaining == 0),
    {
        self.remaining == 0
    }

    /// How many bytes to ask the stream for next; zero once done.
    pub fn next_read_len(&self) -> (r: usize)
        ensures
            r == self@.limit(),
    {
        if self.buffer_size < self.remaining {
            self.buffer_size
        } else {
            self.remaining
        }
    }

    /// Takes what one read returned. An empty delivery while bytes are still
    /// owed means that the peer closed the connection: the read fails and
    /// nothing changes.
    pub fn accept(&mut self, chunk: &[u8]) -> (r: Result<(), NeutralIpcError>)
        requires
            old(self)@.consistent(),
            old(self)@.remaining > 0,
            chunk@.len() <= old(self)@.limit(),
        ensures
            final(self)@.consistent(),
            chunk@.len() == 0 ==> (r matches Err(NeutralIpcError::ConnectionClosed) && final(self)@ == old(self)@),
            chunk@.len() > 0 ==> r is Ok && final(self)@ == old(self)@.after(chunk@),
    {
        if chunk.len() == 0 {
            return Err(NeutralIpcError::ConnectionClosed);
        }
        self.data.extend_from_slice(chunk);
        self.remaining = self.remaining - chunk.len();
        assert(self.data@ =~= old(self).data@ + chunk@);
        Ok(())
    }

    /// The complete block as text; fails if it is not valid UTF-8.
    pub fn into_text(self) -> (r: Result<String, NeutralIpcError>)
        requires
            self@.remaining == 0,
        ensures
            valid_utf8(self@.data) ==> (r matches Ok(s) && s@ == decode_utf8(self@.data)),
            !valid_utf8(self@.data) ==> r matches Err(NeutralIpcError::InvalidUtf8),
    {
        match utf8_text(self.data) {
            Some(s) => Ok(s),
            None => Err(NeutralIpcError::InvalidUtf8),
        }
    }
}

/// The request fields of one exchange with the template server.
pub struct NeutralIpcClient {
    control: u8,
    format1: u8,
    content1: Vec<u8>,
    format2: u8,
    content2: String,
}

/// The bytes that the availability probe sends: a "parse template" request
/// with an empty JSON schema and an empty second block.
pub open spec fn probe_bytes() -> Seq<u8> {
    record_bytes(CTRL_PARSE_TEMPLATE, CONTENT_JSON, seq![123u8, 125u8], CONTENT_TEXT, Seq::empty())
}

impl NeutralIpcClient {
    /// A client that will send `control` with the two given blocks, each of
    /// which must fit a 32-bit length.
    pub fn new(control: u8, format1: u8, content1: &[u8], format2: u8, content2: &str) -> (r: Self)
        requires
            content1@.len() <= u32::MAX,
            content2.spec_bytes().len() <= u32::MAX,
        ensures
            r.control() == control,
            r.format1() == format1,
            r.content1() == content1@,
            r.format2() == format2,
            r.content2() == content2.spec_bytes(),
    {
        NeutralIpcClient {
            control,
            format1,
            content1: slice_to_vec(content1),
            format2,
            content2: content2.to_owned(),
        }
    }

    /// The control code to send.
    pub closed spec fn control(&self) -> u8 {
        self.control
    }

    /// The content format of the first block.
    pub closed spec fn format1(&self) -> u8 {
        self.format1
    }

    /// The bytes of the first block.
    pub closed spec fn content1(&self) -> Seq<u8> {
        self.content1@
    }

    /// The content format of the second block.
    pub closed spec fn format2(&self) -> u8 {
        self.format2
    }

    /// The UTF-8 bytes of the second block.
    pub closed spec fn content2(&self) -> Seq<u8> {
        encode_utf8(self.content2@)
    }

    /// The encoded request record.
    pub fn request(&self) -> (r: Vec<u8>)
        requires
            self.content1().len() <= u32::MAX,
            self.content2().len() <= u32::MAX,
        ensures
            r@ == record_bytes(self.control(), self.format1(), self.content1(), self.format2(), self.content2()),
    {
        NeutralIpcRecord::encode_record(
            self.control,
            self.format1,
            self.content1.as_slice(),
            self.format2,
            self.content2.as_str().as_bytes(),
        )
    }

    /// Decodes a response header and prepares a reader for each of the two
    /// blocks it announces, reading at most `buffer_size` bytes at a time.
    pub fn start_response(header: &[u8], buffer_size: usize) -> (r: Result<(ContentReader, ContentReader), NeutralIpcError>)
        ensures
            header@.len() != HEADER_LEN ==> r matches Err(NeutralIpcError::InvalidHeaderLength),
            header@.len() == HEADER_LEN ==> (r matches Ok((c1, c2)) && {
                &&& c1@ == ReadProgress::start(header_of(header@).length1 as nat, buffer_size as nat)
                &&& c2@ == ReadProgress::start(header_of(header@).length2 as nat, buffer_size as nat)
                &&& c1@.consistent()
                &&& c2@.consistent()
            }),
    {
        let h = NeutralIpcRecord::decode_header(header)?;
        let c1 = ContentReader::new(h.length1 as usize, buffer_size);
        let c2 = ContentReader::new(h.length2 as usize, buffer_size);
        Ok((c1, c2))
    }

    /// The response record, once both blocks are complete: fails if a block
    /// is not valid UTF-8 (the first block is checked first) or the header
    /// does not hold `HEADER_LEN` bytes.
    pub fn decode_response(header: &[u8], content1: ContentReader, content2: ContentReader) -> (r: Result<Record, NeutralIpcError>)
        requires
            content1@.remaining == 0,
            content2@.remaining == 0,
        ensures
            !valid_utf8(content1@.data) ==> r matches Err(NeutralIpcError::InvalidUtf8),
            valid_utf8(content1@.data) && !valid_utf8(content2@.data) ==> r matches Err(NeutralIpcError::InvalidUtf8),
            valid_utf8(content1@.data) && valid_utf8(content2@.data) && header@.len() != HEADER_LEN
                ==> r matches Err(NeutralIpcError::InvalidHeaderLength),
            valid_utf8(content1@.data) && valid_utf8(content2@.data) && header@.len() == HEADER_LEN
                ==> (r matches Ok(rec) && rec.describes(header@, decode_utf8(content1@.data), decode_utf8(content2@.data))),
    {
        let text1 = content1.into_text()?;
        let text2 = content2.into_text()?;
        NeutralIpcRecord::decode_record(header, text1.as_str(), text2.as_str())
    }

    /// The request that the availability probe sends.
    pub fn probe_request() -> (r: Vec<u8>)
        ensures
            r@ == probe_bytes(),
    {
        let schema: [u8; 2] = [123u8, 125u8];
        let empty: [u8; 0] = [];
        let r = NeutralIpcRecord::encode_record(CTRL_PARSE_TEMPLATE, CONTENT_JSON, &schema, CONTENT_TEXT, &empty);
        assert(schema@ =~= seq![123u8, 125u8]);
        assert(empty@ =~= Seq::<u8>::empty());
        r
    }
}

} // verus!
