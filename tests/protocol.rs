use neutralipcrs::client::{ContentReader, NeutralIpcClient};
use neutralipcrs::config::{ConfigSettings, NeutralIpcConfig};
use neutralipcrs::constants::{
    CONTENT_JSON, CONTENT_TEXT, CTRL_PARSE_TEMPLATE, CTRL_STATUS_OK, HEADER_LEN, RESERVED,
};
use neutralipcrs::error::NeutralIpcError;
use neutralipcrs::record::NeutralIpcRecord;

/// Feeds `reader` from `stream`, which hands out its bytes in pieces of the
/// given sizes (cycling), never more than asked for.
fn feed(reader: &mut ContentReader, stream: &[u8], pos: &mut usize, pieces: &[usize], turn: &mut usize)
    -> Result<(), NeutralIpcError>
{
    while !reader.is_done() {
        let want = reader.next_read_len();
        let piece = pieces[*turn % pieces.len()];
        *turn += 1;
        let left = stream.len() - *pos;
        let n = want.min(piece).min(left);
        let chunk = &stream[*pos..*pos + n];
        *pos += n;
        reader.accept(chunk)?;
    }
    Ok(())
}

fn stub_response() -> Vec<u8> {
    let mut r = NeutralIpcRecord::encode_header(CTRL_STATUS_OK, CONTENT_JSON, 2, CONTENT_TEXT, 5);
    r.extend_from_slice(b"{}");
    r.extend_from_slice(b"hello");
    r
}

#[test]
fn header_bytes_are_big_endian() {
    let h = NeutralIpcRecord::encode_header(10, 20, 0x0102_0304, 30, 5);
    assert_eq!(h, vec![0, 10, 20, 1, 2, 3, 4, 30, 0, 0, 0, 5]);
    assert_eq!(h.len(), HEADER_LEN);
}

#[test]
fn header_round_trip() {
    for &(c, f1, l1, f2, l2) in &[
        (0u8, 0u8, 0u32, 0u8, 0u32),
        (255, 40, u32::MAX, 10, 1),
        (10, 10, 70_000, 30, 0x8000_0000),
    ] {
        let h = NeutralIpcRecord::decode_header(&NeutralIpcRecord::encode_header(c, f1, l1, f2, l2)).unwrap();
        assert_eq!(h.reserved, RESERVED);
        assert_eq!(h.control, c);
        assert_eq!(h.format1, f1);
        assert_eq!(h.length1, l1);
        assert_eq!(h.format2, f2);
        assert_eq!(h.length2, l2);
    }
}

#[test]
fn reserved_byte_is_recorded_as_read() {
    let h = NeutralIpcRecord::decode_header(&[7, 1, 2, 0, 0, 1, 0, 3, 0, 0, 0, 9]).unwrap();
    assert_eq!(h.reserved, 7);
    assert_eq!(h.length1, 256);
    assert_eq!(h.length2, 9);
}

#[test]
fn record_length_fidelity() {
    let r = NeutralIpcRecord::encode_record(10, 10, b"{\"a\":1}", 30, b"");
    assert_eq!(r.len(), 12 + 7);
    let h = NeutralIpcRecord::decode_header(&r[..HEADER_LEN]).unwrap();
    assert_eq!(h.length1, 7);
    assert_eq!(h.length2, 0);
    assert_eq!(&r[HEADER_LEN..], b"{\"a\":1}");

    let r = NeutralIpcRecord::encode_record(1, 2, b"", 3, b"abc");
    assert_eq!(r, vec![0, 1, 2, 0, 0, 0, 0, 3, 0, 0, 0, 3, b'a', b'b', b'c']);
}

#[test]
fn header_length_guard() {
    for n in (0..12).chain(13..40) {
        let bytes = vec![0u8; n];
        assert!(matches!(NeutralIpcRecord::decode_header(&bytes), Err(NeutralIpcError::InvalidHeaderLength)));
    }
    assert!(NeutralIpcRecord::decode_header(&[0u8; 12]).is_ok());
}

#[test]
fn decode_record_checks_header() {
    assert!(matches!(
        NeutralIpcRecord::decode_record(&[0u8; 11], "a", "b"),
        Err(NeutralIpcError::InvalidHeaderLength)
    ));
    let rec = NeutralIpcRecord::decode_record(&[9, 1, 10, 0, 0, 0, 1, 30, 0, 0, 0, 1], "a", "b").unwrap();
    assert_eq!(rec.reserved, RESERVED);
    assert_eq!(rec.control, 1);
    assert_eq!(rec.format1, 10);
    assert_eq!(rec.content1, "a");
    assert_eq!(rec.format2, 30);
    assert_eq!(rec.content2, "b");
}

#[test]
fn chunked_read_any_fragmentation() {
    let content: Vec<u8> = (0..200u32).map(|i| b'a' + (i % 26) as u8).collect();
    for chunk in [1usize, 3, 7, 64, 200, 1000] {
        for pieces in [&[1usize][..], &[2, 5, 1][..], &[1000][..], &[13, 1, 1, 40][..]] {
            let mut reader = ContentReader::new(content.len(), chunk);
            let (mut pos, mut turn) = (0usize, 0usize);
            feed(&mut reader, &content, &mut pos, pieces, &mut turn).unwrap();
            assert_eq!(pos, content.len());
            assert_eq!(reader.into_text().unwrap().as_bytes(), &content[..]);
        }
    }
}

#[test]
fn next_read_len_is_bounded() {
    let mut reader = ContentReader::new(10, 4);
    assert_eq!(reader.next_read_len(), 4);
    reader.accept(b"abcd").unwrap();
    reader.accept(b"ef").unwrap();
    assert_eq!(reader.next_read_len(), 4);
    reader.accept(b"ghij").unwrap();
    assert_eq!(reader.next_read_len(), 0);
    assert!(reader.is_done());
    assert_eq!(reader.into_text().unwrap(), "abcdefghij");
}

#[test]
fn zero_length_block_needs_no_read() {
    let reader = ContentReader::new(0, 8192);
    assert!(reader.is_done());
    assert_eq!(reader.next_read_len(), 0);
    assert_eq!(reader.into_text().unwrap(), "");
}

#[test]
fn premature_close_fails() {
    let mut reader = ContentReader::new(5, 2);
    reader.accept(b"he").unwrap();
    assert!(matches!(reader.accept(b""), Err(NeutralIpcError::ConnectionClosed)));
    assert!(!reader.is_done());

    let stream = b"hel";
    let mut reader = ContentReader::new(5, 8);
    let (mut pos, mut turn) = (0usize, 0usize);
    let r = feed(&mut reader, stream, &mut pos, &[2], &mut turn);
    assert!(matches!(r, Err(NeutralIpcError::ConnectionClosed)));
}

#[test]
fn invalid_utf8_fails() {
    let mut reader = ContentReader::new(3, 8);
    reader.accept(&[b'a', 0xff, 0xfe]).unwrap();
    assert!(matches!(reader.into_text(), Err(NeutralIpcError::InvalidUtf8)));

    // A character cut in two by the stream is still decoded whole.
    let text = "héllo wörld".as_bytes();
    let mut reader = ContentReader::new(text.len(), 2);
    let (mut pos, mut turn) = (0usize, 0usize);
    feed(&mut reader, text, &mut pos, &[1], &mut turn).unwrap();
    assert_eq!(reader.into_text().unwrap(), "héllo wörld");
}

#[test]
fn invalid_utf8_in_second_block_fails_the_exchange() {
    let header = NeutralIpcRecord::encode_header(0, 10, 2, 30, 1);
    let (mut c1, mut c2) = NeutralIpcClient::start_response(&header, 16).unwrap();
    c1.accept(b"{}").unwrap();
    c2.accept(&[0xc3]).unwrap();
    assert!(matches!(
        NeutralIpcClient::decode_response(&header, c1, c2),
        Err(NeutralIpcError::InvalidUtf8)
    ));
}

#[test]
fn exchange_with_stub_responder() {
    let client = NeutralIpcClient::new(CTRL_PARSE_TEMPLATE, CONTENT_JSON, b"{\"x\":1}", CONTENT_TEXT, "{:;x:}");
    let request = client.request();
    assert_eq!(request.len(), HEADER_LEN + 7 + 6);
    assert_eq!(&request[..3], &[0, CTRL_PARSE_TEMPLATE, CONTENT_JSON]);
    assert_eq!(&request[HEADER_LEN..], b"{\"x\":1}{:;x:}");

    let response = stub_response();
    for pieces in [&[1usize][..], &[3][..], &[100][..]] {
        let header = &response[..HEADER_LEN];
        let (mut c1, mut c2) = NeutralIpcClient::start_response(header, 4).unwrap();
        let (mut pos, mut turn) = (HEADER_LEN, 0usize);
        feed(&mut c1, &response, &mut pos, pieces, &mut turn).unwrap();
        feed(&mut c2, &response, &mut pos, pieces, &mut turn).unwrap();
        let rec = NeutralIpcClient::decode_response(header, c1, c2).unwrap();
        assert_eq!(rec.control, 0);
        assert_eq!(rec.format1, 10);
        assert_eq!(rec.content1, "{}");
        assert_eq!(rec.format2, 30);
        assert_eq!(rec.content2, "hello");
    }
}

#[test]
fn start_response_rejects_short_header() {
    assert!(matches!(
        NeutralIpcClient::start_response(&[0u8; 5], 8),
        Err(NeutralIpcError::InvalidHeaderLength)
    ));
}

#[test]
fn probe_request_bytes() {
    let r = NeutralIpcClient::probe_request();
    assert_eq!(r, vec![0, 10, 10, 0, 0, 0, 2, 30, 0, 0, 0, 0, b'{', b'}']);
}

#[test]
fn config_defaults_and_setters() {
    let mut c = NeutralIpcConfig::new();
    assert_eq!(c.get_host(), "127.0.0.1");
    assert_eq!(c.get_port(), 4273);
    assert_eq!(c.get_timeout(), 10);
    assert_eq!(c.get_buffer_size(), 8192);
    assert_eq!(c.get_config_file(), "/etc/neutral-ipc-cfg.json");
    c.set_host("10.0.0.1".to_string());
    c.set_port(8080);
    c.set_timeout(30);
    c.set_buffer_size(16);
    c.set_config_file("/tmp/cfg.json".to_string());
    assert_eq!(c.get_host(), "10.0.0.1");
    assert_eq!(c.get_port(), 8080);
    assert_eq!(c.get_timeout(), 30);
    assert_eq!(c.get_buffer_size(), 16);
    assert_eq!(c.get_config_file(), "/tmp/cfg.json");
}

#[test]
fn config_settings_override() {
    let mut c = NeutralIpcConfig::new();
    let s = ConfigSettings {
        host: Some("192.168.1.1".to_string()),
        port: Some(70_000),
        timeout: None,
        buffer_size: Some(1024),
        config_file: Some("/srv/cfg.json".to_string()),
    };
    c.load_settings(&s);
    assert_eq!(c.get_host(), "192.168.1.1");
    assert_eq!(c.get_port(), 4464);
    assert_eq!(c.get_timeout(), 10);
    assert_eq!(c.get_buffer_size(), 1024);
    assert_eq!(c.get_config_file(), "/etc/neutral-ipc-cfg.json");

    assert!(c.update_settings(&s));
    assert_eq!(c.get_config_file(), "/srv/cfg.json");
    let none = ConfigSettings { host: None, port: None, timeout: Some(5), buffer_size: None, config_file: None };
    assert!(!c.update_settings(&none));
    assert_eq!(c.get_timeout(), 5);
    assert_eq!(c.get_host(), "192.168.1.1");
}

#[test]
fn error_messages() {
    assert_eq!(NeutralIpcError::InvalidHeaderLength.message(), "Invalid header length received");
    assert_eq!(NeutralIpcError::InvalidResponse.message(), "Invalid response from server");
    assert_eq!(NeutralIpcError::ConnectionClosed.message(), "Connection closed unexpectedly");
    assert_eq!(NeutralIpcError::InvalidUtf8.message(), "Invalid UTF-8 encoding in response");
    let io = std::io::Error::new(std::io::ErrorKind::Other, "boom");
    assert_eq!(NeutralIpcError::Io(io).message(), "IO error: boom");
}
