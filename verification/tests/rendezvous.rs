use baton::errors::BatonError;
use baton::rendezvous::parse_rendezvous;

fn rendezvous_bytes(port_line: &[u8], nonce: &[u8]) -> Vec<u8> {
    let mut data = port_line.to_vec();
    data.extend_from_slice(nonce);
    data
}

#[test]
fn test_parse_assuan_file_valid() {
    let nonce = [1u8, 2, 3, 4, 5, 6, 7, 8, 9, 10, 11, 12, 13, 14, 15, 16];
    let data = rendezvous_bytes(b"8080\n", &nonce);

    let (port, parsed_nonce) = parse_rendezvous(&data).unwrap();
    assert_eq!(port, 8080);
    assert_eq!(parsed_nonce, nonce);
}

#[test]
fn test_parse_assuan_file_invalid_port() {
    let data = b"not_a_number\n".to_vec();
    let result = parse_rendezvous(&data);
    assert!(result.is_err());
}

#[test]
fn test_parse_assuan_file_short_nonce() {
    let data = rendezvous_bytes(b"8080\n", &[1, 2, 3]);
    let result = parse_rendezvous(&data);
    assert!(result.is_err());
}

#[test]
fn test_parse_crlf_port_line() {
    let nonce = [0xABu8; 16];
    let data = rendezvous_bytes(b"17591\r\n", &nonce);
    let (port, parsed_nonce) = parse_rendezvous(&data).unwrap();
    assert_eq!(port, 17591);
    assert_eq!(parsed_nonce, nonce.to_vec());
}

#[test]
fn test_parse_assuan_handshake_file() {
    // The rendezvous of the Assuan handshake: port 17591, nonce 0x00..0x0F.
    let nonce: Vec<u8> = (0u8..16).collect();
    let data = rendezvous_bytes(b"17591\n", &nonce);
    let (port, parsed_nonce) = parse_rendezvous(&data).unwrap();
    assert_eq!(port, 17591);
    assert_eq!(parsed_nonce, nonce);
}

#[test]
fn test_parse_port_out_of_range() {
    let data = rendezvous_bytes(b"65536\n", &[0u8; 16]);
    let result = parse_rendezvous(&data);
    assert!(matches!(result, Err(BatonError::AssuanParse(_))));
}

#[test]
fn test_parse_port_with_plus_sign() {
    let data = rendezvous_bytes(b"+443\n", &[7u8; 16]);
    let (port, _) = parse_rendezvous(&data).unwrap();
    assert_eq!(port, 443);
}

#[test]
fn test_parse_empty_input() {
    let result = parse_rendezvous(&[]);
    assert!(matches!(result, Err(BatonError::AssuanParse(_))));
}

#[test]
fn test_parse_empty_port_line() {
    let data = rendezvous_bytes(b"\n", &[0u8; 16]);
    let result = parse_rendezvous(&data);
    assert!(matches!(result, Err(BatonError::AssuanParse(_))));
}

#[test]
fn test_parse_trailing_bytes_allowed() {
    let mut data = rendezvous_bytes(b"1\n", &[9u8; 16]);
    data.extend_from_slice(b"trailing payload");
    let (port, nonce) = parse_rendezvous(&data).unwrap();
    assert_eq!(port, 1);
    assert_eq!(nonce, vec![9u8; 16]);
}

#[test]
fn test_parse_port_max_value() {
    let data = rendezvous_bytes(b"65535\n", &[0u8; 16]);
    let (port, _) = parse_rendezvous(&data).unwrap();
    assert_eq!(port, 65535);
}

#[test]
fn test_parse_leading_zeros() {
    let data = rendezvous_bytes(b"0008080\n", &[5u8; 16]);
    let (port, _) = parse_rendezvous(&data).unwrap();
    assert_eq!(port, 8080);
}

#[test]
fn test_round_trip_written_file() {
    // Round trip: write `<port>\n<16 bytes>`, read back the same pair.
    for port in [0u16, 1, 80, 8080, 65535] {
        let nonce: Vec<u8> = (100u8..116).collect();
        let mut data = port.to_string().into_bytes();
        data.push(b'\n');
        data.extend_from_slice(&nonce);
        let (parsed_port, parsed_nonce) = parse_rendezvous(&data).unwrap();
        assert_eq!(parsed_port, port);
        assert_eq!(parsed_nonce, nonce);
    }
}
