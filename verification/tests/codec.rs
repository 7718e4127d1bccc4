use dnsping::codec::{check_host, check_labels, decode_id, encode_query, HostName};
use dnsping::endpoint::RecordKind;
use dnsping::error::ProbeError;

fn host_of(labels: usize, label_len: usize) -> String {
    let label = "a".repeat(label_len);
    let mut parts = Vec::new();
    for _ in 0..labels {
        parts.push(label.clone());
    }
    parts.join(".")
}

#[test]
fn query_for_an_ipv4_server_is_the_known_message() {
    let expected: Vec<u8> = vec![
        0x06, 0x25, 0x01, 0x00, 0x00, 0x01, 0x00, 0x00, 0x00, 0x00, 0x00, 0x00, 0x07, b'e', b'x',
        b'a', b'm', b'p', b'l', b'e', 0x03, b'c', b'o', b'm', 0x00, 0x00, 0x01, 0x00, 0x01,
    ];
    assert_eq!(encode_query(1573, true, "example.com", RecordKind::A), Ok(expected));
}

#[test]
fn query_for_an_ipv6_server_asks_for_the_other_record() {
    let query = encode_query(1573, true, "example.com", RecordKind::Aaaa).unwrap();
    assert_eq!(query.len(), 29);
    assert_eq!(&query[25..], &[0x00, 0x1c, 0x00, 0x01]);
}

#[test]
fn iterate_flag_reaches_the_header() {
    let with = encode_query(7, true, "example.com", RecordKind::A).unwrap();
    let without = encode_query(7, false, "example.com", RecordKind::A).unwrap();
    assert_eq!(with[2], 0x01);
    assert_eq!(without[2], 0x00);
    assert_eq!(with[3..], without[3..]);
}

#[test]
fn query_is_eighteen_bytes_longer_than_the_host() {
    for host in ["", "a", "www.google.com", "a.b.c.d.e", "trailing.dot."] {
        let query = encode_query(1, false, host, RecordKind::A).unwrap();
        assert_eq!(query.len(), host.len() + 18);
    }
}

#[test]
fn identifier_stands_in_front_high_byte_first() {
    let query = encode_query(0xabcd, false, "example.com", RecordKind::A).unwrap();
    assert_eq!(&query[..2], &[0xab, 0xcd]);
    let low = encode_query(1, false, "example.com", RecordKind::A).unwrap();
    let high = encode_query(0xff00, false, "example.com", RecordKind::A).unwrap();
    assert_eq!(low[2..], high[2..]);
}

#[test]
fn identifier_survives_encoding_and_decoding() {
    for id in [0u16, 1, 255, 256, 1573, 32768, 65534, 65535] {
        for kind in [RecordKind::A, RecordKind::Aaaa] {
            let query = encode_query(id, false, "www.google.com", kind).unwrap();
            assert_eq!(decode_id(&query), Ok(id));
        }
    }
}

#[test]
fn longest_label_is_sixty_two_bytes() {
    assert!(check_labels(host_of(1, 62).as_bytes()));
    assert!(!check_labels(host_of(1, 63).as_bytes()));
    assert!(check_labels(host_of(3, 62).as_bytes()));
    let mut long_in_the_middle = host_of(2, 10);
    long_in_the_middle.push('.');
    long_in_the_middle.push_str(&host_of(1, 63));
    long_in_the_middle.push_str(".com");
    assert!(!check_labels(long_in_the_middle.as_bytes()));
    assert!(check_labels(b""));
    assert!(check_labels(b"..."));
}

#[test]
fn label_of_sixty_three_bytes_is_refused() {
    let host = host_of(1, 63);
    assert_eq!(
        encode_query(1, false, &host, RecordKind::A),
        Err(ProbeError::MalformedMessage)
    );
    let fine = host_of(1, 62);
    assert!(encode_query(1, false, &fine, RecordKind::A).is_ok());
}

#[test]
fn longest_host_is_494_bytes() {
    // 9 labels of 54 bytes and 8 dots
    let host = host_of(9, 54);
    assert_eq!(host.len(), 494);
    assert!(check_host(&host));
    let query = encode_query(1, false, &host, RecordKind::A).unwrap();
    assert_eq!(query.len(), 512);
    assert_eq!(decode_id(&query), Ok(1));

    let mut longer = host.clone();
    longer.push('b');
    assert_eq!(longer.len(), 495);
    assert!(!check_host(&longer));
    assert_eq!(
        encode_query(1, false, &longer, RecordKind::A),
        Err(ProbeError::MalformedMessage)
    );
}

#[test]
fn host_with_wide_characters_counts_bytes() {
    // 31 two-byte characters make a label of 62 bytes, 32 make one of 64
    let fits = "é".repeat(31);
    let too_long = "é".repeat(32);
    assert!(check_host(&fits));
    assert!(!check_host(&too_long));
    let query = encode_query(9, false, &fits, RecordKind::A).unwrap();
    assert_eq!(query.len(), 62 + 18);
    assert_eq!(
        encode_query(9, false, &too_long, RecordKind::A),
        Err(ProbeError::MalformedMessage)
    );
}

#[test]
fn decoding_rejects_what_is_no_message() {
    assert_eq!(decode_id(&[]), Err(ProbeError::MalformedMessage));
    assert_eq!(decode_id(&[0x12, 0x34]), Err(ProbeError::MalformedMessage));
    assert_eq!(decode_id(&[0u8; 11]), Err(ProbeError::MalformedMessage));
    // a header that announces a question which is not there
    let truncated = [0x12, 0x34, 0x01, 0x00, 0x00, 0x01, 0, 0, 0, 0, 0, 0];
    assert_eq!(decode_id(&truncated), Err(ProbeError::MalformedMessage));
    // reserved bit set
    let reserved = [0x12, 0x34, 0x00, 0x40, 0, 0, 0, 0, 0, 0, 0, 0];
    assert_eq!(decode_id(&reserved), Err(ProbeError::MalformedMessage));
}

#[test]
fn decoding_reads_the_first_two_bytes() {
    let bare_header = [0x12, 0x34, 0x81, 0x80, 0, 0, 0, 0, 0, 0, 0, 0];
    assert_eq!(decode_id(&bare_header), Ok(0x1234));
    let response: Vec<u8> = vec![
        0x06, 0x25, 0x81, 0x80, 0x00, 0x01, 0x00, 0x01, 0x00, 0x00, 0x00, 0x00, 0x07, b'e', b'x',
        b'a', b'm', b'p', b'l', b'e', 0x03, b'c', b'o', b'm', 0x00, 0x00, 0x01, 0x00, 0x01, 0xc0,
        0x0c, 0x00, 0x01, 0x00, 0x01, 0x00, 0x00, 0x04, 0xf8, 0x00, 0x04, 0x5d, 0xb8, 0xd8, 0x22,
    ];
    assert_eq!(decode_id(&response), Ok(1573));
}

#[test]
fn host_name_is_checked_once() {
    let host = HostName::new(String::from("www.google.com")).unwrap();
    assert_eq!(host.as_str(), "www.google.com");
    assert_eq!(host.query_len(), 32);
    let query = host.query(77, true, RecordKind::Aaaa);
    assert_eq!(Ok(query), encode_query(77, true, "www.google.com", RecordKind::Aaaa));

    assert!(matches!(
        HostName::new(host_of(1, 63)),
        Err(ProbeError::MalformedMessage)
    ));
    assert!(matches!(
        HostName::new(host_of(10, 54)),
        Err(ProbeError::MalformedMessage)
    ));
}

#[test]
fn query_that_the_parser_rejects_gives_no_identifier_back() {
    // the parser wants every label in ASCII and none empty before the last
    for host in ["é.example", "a..b", "trailing.dot.", ".leading"] {
        let query = encode_query(5, false, host, RecordKind::A).unwrap();
        assert_eq!(&query[..2], &[0, 5]);
        assert_eq!(decode_id(&query), Err(ProbeError::MalformedMessage), "on {:?}", host);
    }
}

#[test]
fn label_check_agrees_with_splitting_at_dots() {
    let mut state: u64 = 0x2545f4914f6cdd1d;
    for _ in 0..2000 {
        let mut host = Vec::new();
        state = state.wrapping_mul(6364136223846793005).wrapping_add(1442695040888963407);
        let len = (state >> 33) % 200;
        for _ in 0..len {
            state = state.wrapping_mul(6364136223846793005).wrapping_add(1442695040888963407);
            let draw = (state >> 33) % 70;
            host.push(if draw == 0 { b'.' } else { b'a' + (draw % 26) as u8 });
        }
        let expected = host.split(|byte| *byte == b'.').all(|label| label.len() < 63);
        assert_eq!(check_labels(&host), expected);
    }
}

#[test]
fn decoding_survives_whatever_comes_in() {
    let mut state: u64 = 0x9e3779b97f4a7c15;
    let mut accepted = 0;
    for round in 0..20000u32 {
        let mut message = Vec::new();
        state = state.wrapping_mul(6364136223846793005).wrapping_add(1442695040888963407);
        let len = (state >> 33) % 96;
        for at in 0..len {
            state = state.wrapping_mul(6364136223846793005).wrapping_add(1442695040888963407);
            let mut byte = (state >> 56) as u8;
            // keep the counts of the header small, so that sections are walked
            if at >= 4 && at < 12 {
                byte = if at % 2 == 0 { 0 } else { byte % 3 };
            }
            if at == 3 {
                byte &= !0x40;
            }
            if round % 2 == 0 && at >= 12 && byte >= 0x40 {
                byte %= 0x30;
            }
            message.push(byte);
        }
        match decode_id(&message) {
            Ok(id) => {
                accepted += 1;
                assert!(message.len() >= 12);
                assert_eq!(id, (message[0] as u16) << 8 | message[1] as u16);
            }
            Err(error) => assert_eq!(error, ProbeError::MalformedMessage),
        }
    }
    assert!(accepted > 0);
}
