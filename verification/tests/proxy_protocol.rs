use openbridge::web::proxy_protocol::{
    header_block_len, parse_pp_v2, Parsed, ProxiedAddr, ProxiedStream,
};

#[test]
fn test_ipv4() {
    let buffer: Vec<u8> = vec![
        0x0D, 0x0A, 0x0D, 0x0A, 0x00, 0x0D, 0x0A, 0x51, 0x55, 0x49, 0x54, 0x0A,
        0x21, // Version and Command (2 and PROXY)
        0x11, // Address Family and Protocol (IPv4 and TCP)
        0x00, 0x0C, // Length (12 bytes for IPv4)
        192, 168, 1, 1, // Source IP
        192, 168, 1, 2, // Destination IP
        0x1F, 0x90, // Source Port (8080)
        0x00, 0x50, // Destination Port (80)
    ];

    let parsed = parse_pp_v2(&buffer);
    assert_eq!(parsed, Parsed::Proxied(ProxiedAddr::V4([192, 168, 1, 1], 8080)));
}

#[test]
fn test_ipv6() {
    let buffer: Vec<u8> = vec![
        0x0D, 0x0A, 0x0D, 0x0A, 0x00, 0x0D, 0x0A, 0x51, 0x55, 0x49, 0x54, 0x0A,
        0x21, // Version and Command (2 and PROXY)
        0x21, // Address Family and Protocol (IPv6 and TCP)
        0x00, 0x24, // Length (36 bytes for IPv6)
        // Source IP (16 bytes)
        32, 1, 13, 184, 133, 163, 0, 1, 32, 1, 13, 184, 133, 163, 0, 2,
        // Destination IP (16 bytes)
        32, 1, 13, 184, 133, 163, 0, 3, 32, 1, 13, 184, 133, 163, 0, 4,
        // Source Port (2 bytes)
        0x1F, 0x90, // Destination Port (2 bytes)
        0x00, 0x50,
    ];

    let parsed = parse_pp_v2(&buffer);
    // 2001:db8:85a3:1:2001:db8:85a3:2
    assert_eq!(
        parsed,
        Parsed::Proxied(ProxiedAddr::V6(
            [0x20, 0x01, 0x0d, 0xb8, 0x85, 0xa3, 0x00, 0x01, 0x20, 0x01, 0x0d, 0xb8, 0x85, 0xa3, 0x00, 0x02],
            8080
        ))
    );
}

fn header(version_command: u8, family_protocol: u8, block: &[u8]) -> Vec<u8> {
    let mut v = vec![0x0D, 0x0A, 0x0D, 0x0A, 0x00, 0x0D, 0x0A, 0x51, 0x55, 0x49, 0x54, 0x0A];
    v.push(version_command);
    v.push(family_protocol);
    v.push((block.len() >> 8) as u8);
    v.push(block.len() as u8);
    v.extend_from_slice(block);
    v
}

#[test]
fn local_and_unspecified() {
    assert_eq!(parse_pp_v2(&header(0x20, 0x11, &[0; 12])), Parsed::LocalOrUnspec);
    assert_eq!(parse_pp_v2(&header(0x21, 0x01, &[0; 12])), Parsed::LocalOrUnspec);
    assert_eq!(parse_pp_v2(&header(0x21, 0x10, &[0; 12])), Parsed::LocalOrUnspec);
    // UNIX sockets are not supported.
    assert_eq!(parse_pp_v2(&header(0x21, 0x31, &[0; 216])), Parsed::LocalOrUnspec);
    // Too short an address block for its family.
    assert_eq!(parse_pp_v2(&header(0x21, 0x11, &[0; 8])), Parsed::LocalOrUnspec);
    assert_eq!(parse_pp_v2(&header(0x21, 0x21, &[0; 12])), Parsed::LocalOrUnspec);
}

#[test]
fn not_proxy() {
    assert_eq!(parse_pp_v2(b"GET / HTTP/1.1\r\n"), Parsed::NotProxy);
    assert_eq!(parse_pp_v2(&[]), Parsed::NotProxy);
    assert_eq!(parse_pp_v2(&header(0x11, 0x11, &[0; 12])), Parsed::NotProxy);
    let mut short = header(0x21, 0x11, &[0; 12]);
    short.truncate(15);
    assert_eq!(parse_pp_v2(&short), Parsed::NotProxy);
}

#[test]
fn block_length_of_fixed_part() {
    let h = header(0x21, 0x21, &[0; 36]);
    assert_eq!(header_block_len(&h[..16]), Some(36));
    assert_eq!(header_block_len(b"GET / HTTP/1.1\r\n"), None);
}

#[test]
fn stream_replays_prefix_then_reports_peer() {
    let mut s = ProxiedStream::new(7u8, None, Some(ProxiedAddr::V4([10, 0, 0, 1], 5)), b"hello".to_vec());
    assert_eq!(s.replay(2), Some(b"he".to_vec()));
    assert_eq!(s.replay(10), Some(b"llo".to_vec()));
    assert_eq!(s.replay(10), None);
    assert_eq!(*s.get_mut(), 7);
    assert_eq!(s.peer(), Some(ProxiedAddr::V4([10, 0, 0, 1], 5)));
    let t = ProxiedStream::new((), Some(ProxiedAddr::V4([1, 2, 3, 4], 80)), None, vec![]);
    assert_eq!(t.peer(), Some(ProxiedAddr::V4([1, 2, 3, 4], 80)));
}
