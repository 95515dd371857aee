use kernio::checksum::Checksum;
use kernio::codec::DecodeError;
use kernio::codec::TCP;
use kernio::codec::TCPHeader;
use kernio::net::IPv4Addr;
use kernio::net::N16;
use kernio::net::N32;

fn addr(b0: u8, b1: u8, b2: u8, b3: u8) -> IPv4Addr {
    IPv4Addr { b0, b1, b2, b3 }
}

fn header(
    src: u16,
    dst: u16,
    sequence: u32,
    ack_num: u32,
    flags: u16,
) -> TCPHeader {
    TCPHeader {
        src: N16::new(src),
        dst: N16::new(dst),
        sequence: N32::new(sequence),
        ack_num: N32::new(ack_num),
        flags: N16::new(flags),
        window_size: N16::new(4096),
        checksum: Checksum { data: 0 },
        urgent_pointer: N16::new(0),
    }
}

/// A control word whose header-length nibble matches `options_len` (a
/// multiple of four) and whose low bits are `flags`.
fn ctrl(options_len: usize, flags: u16) -> u16 {
    let words = (20 + options_len) / 4;
    (words as u16) * 4096 + flags
}

const SYN: u16 = 2;
const PSH: u16 = 8;
const ACK: u16 = 16;
const FIN: u16 = 1;

#[test]
fn n16_n32_round_values() {
    assert_eq!(N16::new(0).get(), 0);
    assert_eq!(N16::new(80).get(), 80);
    assert_eq!(N16::new(0xffff).get(), 0xffff);
    assert_eq!(N16::new(0x1234).hi, 0x12);
    assert_eq!(N16::new(0x1234).lo, 0x34);
    assert_eq!(N32::new(0).get(), 0);
    assert_eq!(N32::new(0xdeadbeef).get(), 0xdeadbeef);
    assert_eq!(N32::new(0x01020304).b0, 1);
    assert_eq!(N32::new(0x01020304).b3, 4);
}

#[test]
fn checksum_sum_exact_values() {
    assert_eq!(Checksum::sum(&vec![]), 0);
    assert_eq!(Checksum::sum(&vec![0x01, 0x02]), 0x0102);
    // An odd trailing byte is padded with a zero low byte.
    assert_eq!(Checksum::sum(&vec![0x01]), 0x0100);
    assert_eq!(Checksum::sum(&vec![0xff, 0xff, 0xff, 0xff]), 0x1fffe);
}

#[test]
fn checksum_compile_exact_values() {
    assert_eq!(Checksum::compile(0), 0xffff);
    assert_eq!(Checksum::compile(0xffff), 0);
    // 0x10000 folds to 1, complemented 0xfffe.
    assert_eq!(Checksum::compile(0x10000), 0xfffe);
    // 0x1fffe folds to 0xffff, complemented 0.
    assert_eq!(Checksum::compile(0x1fffe), 0);
}

#[test]
fn round_trip_reproduces_segment() {
    let t = TCP {
        header: header(1234, 80, 7, 9, ctrl(4, PSH | ACK)),
        options: vec![1, 2, 3, 4],
        data: vec![10, 20, 30],
        src_ip: addr(10, 0, 0, 1),
        dst_ip: addr(10, 0, 0, 2),
    };
    let bytes = t.to_bytes();
    assert_eq!(bytes.len(), 27);
    let back = TCP::from_bytes_ipv4(&bytes, addr(10, 0, 0, 1), addr(10, 0, 0, 2)).unwrap();
    assert_eq!(back.header, t.header);
    assert_eq!(back.options, t.options);
    assert_eq!(back.data, t.data);
    assert_eq!(back.src_ip, t.src_ip);
    assert_eq!(back.dst_ip, t.dst_ip);
}

#[test]
fn truncated_short_buffer() {
    let bytes: Vec<u8> = vec![0; 19];
    let r = TCP::from_bytes_ipv4(&bytes, addr(1, 1, 1, 1), addr(2, 2, 2, 2));
    assert_eq!(r.unwrap_err(), DecodeError::Truncated);
}

#[test]
fn truncated_header_len_too_small() {
    // Control word nibble 4: a declared header of 16 bytes, below the fixed
    // header size.
    let t = TCP {
        header: header(1, 2, 0, 0, 4 * 4096),
        options: vec![],
        data: vec![],
        src_ip: addr(1, 1, 1, 1),
        dst_ip: addr(2, 2, 2, 2),
    };
    let bytes = t.to_bytes();
    assert_eq!(bytes.len(), 20);
    let r = TCP::from_bytes_ipv4(&bytes, t.src_ip, t.dst_ip);
    assert_eq!(r.unwrap_err(), DecodeError::Truncated);
}

#[test]
fn truncated_header_len_past_buffer() {
    // Control word nibble 15: a declared header of 60 bytes in a 20-byte
    // buffer.
    let t = TCP {
        header: header(1, 2, 0, 0, 15 * 4096),
        options: vec![],
        data: vec![],
        src_ip: addr(1, 1, 1, 1),
        dst_ip: addr(2, 2, 2, 2),
    };
    let bytes = t.to_bytes();
    let r = TCP::from_bytes_ipv4(&bytes, t.src_ip, t.dst_ip);
    assert_eq!(r.unwrap_err(), DecodeError::Truncated);
}

#[test]
fn syn_gets_syn_ack() {
    let inbound = TCP {
        header: header(1234, 80, 1000, 0, ctrl(0, SYN)),
        options: vec![],
        data: vec![],
        src_ip: addr(192, 168, 0, 7),
        dst_ip: addr(192, 168, 0, 1),
    };
    let out = inbound.respond(424242, &vec![]);
    assert_eq!(out.len(), 1);
    let reply = TCP::from_bytes_ipv4(&out[0], inbound.dst_ip, inbound.src_ip).unwrap();
    assert_eq!(reply.header.src.get(), 80);
    assert_eq!(reply.header.dst.get(), 1234);
    assert_eq!(reply.header.flags.get() % 4096, SYN | ACK);
    assert_eq!(reply.header.ack_num.get(), 1001);
    assert_eq!(reply.header.sequence.get(), 424242);
    assert!(reply.data.is_empty());
    assert!(reply.options.is_empty());
    assert_eq!(reply.src_ip, inbound.dst_ip);
    assert_eq!(reply.dst_ip, inbound.src_ip);
}

#[test]
fn syn_reply_copies_options() {
    let inbound = TCP {
        header: header(4321, 80, 55, 0, ctrl(8, SYN)),
        options: vec![2, 4, 5, 180, 1, 1, 1, 0],
        data: vec![],
        src_ip: addr(10, 1, 1, 1),
        dst_ip: addr(10, 1, 1, 2),
    };
    let out = inbound.respond(7, &vec![]);
    assert_eq!(out.len(), 1);
    let reply = TCP::from_bytes_ipv4(&out[0], inbound.dst_ip, inbound.src_ip).unwrap();
    assert_eq!(reply.options, inbound.options);
    assert_eq!(reply.header.flags.get() / 4096, 7);
}

#[test]
fn psh_gets_ack_fin_with_generated_body() {
    let payload: Vec<u8> = vec![7; 37];
    let inbound = TCP {
        header: header(1234, 80, 2000, 5000, ctrl(0, PSH)),
        options: vec![],
        data: payload,
        src_ip: addr(192, 168, 0, 7),
        dst_ip: addr(192, 168, 0, 1),
    };
    let body: Vec<u8> = b"HTTP/1.1 200 OK\r\n\r\nhello".to_vec();
    let out = inbound.respond(0, &body);
    assert_eq!(out.len(), 1);
    let reply = TCP::from_bytes_ipv4(&out[0], inbound.dst_ip, inbound.src_ip).unwrap();
    assert_eq!(reply.header.src.get(), 80);
    assert_eq!(reply.header.dst.get(), 1234);
    assert_eq!(reply.header.flags.get() % 4096, ACK | FIN);
    assert_eq!(reply.header.ack_num.get(), 2037);
    assert_eq!(reply.header.sequence.get(), 5000);
    assert_eq!(reply.data, body);
}

#[test]
fn unserved_port_gets_no_reply() {
    let inbound = TCP {
        header: header(1234, 8080, 1000, 0, ctrl(0, SYN)),
        options: vec![],
        data: vec![],
        src_ip: addr(1, 2, 3, 4),
        dst_ip: addr(5, 6, 7, 8),
    };
    // The reset a completed design would send is a preserved gap: the call
    // returns no outbound segments at all.
    let out = inbound.respond(99, &vec![]);
    assert!(out.is_empty());
}

#[test]
fn unhandled_flags_get_no_reply() {
    for flags in [0, ACK, FIN, 4u16] {
        let inbound = TCP {
            header: header(1234, 80, 1000, 0, ctrl(0, flags)),
            options: vec![],
            data: vec![],
            src_ip: addr(1, 2, 3, 4),
            dst_ip: addr(5, 6, 7, 8),
        };
        let out = inbound.respond(99, &vec![]);
        assert!(out.is_empty());
    }
}

#[test]
fn syn_outranks_psh() {
    let inbound = TCP {
        header: header(1234, 80, 10, 20, ctrl(0, SYN | PSH)),
        options: vec![],
        data: vec![],
        src_ip: addr(1, 2, 3, 4),
        dst_ip: addr(5, 6, 7, 8),
    };
    let out = inbound.respond(3, &vec![1, 2, 3]);
    assert_eq!(out.len(), 1);
    let reply = TCP::from_bytes_ipv4(&out[0], inbound.dst_ip, inbound.src_ip).unwrap();
    // The SYN branch was taken: empty payload, acknowledgment of sequence+1.
    assert!(reply.data.is_empty());
    assert_eq!(reply.header.ack_num.get(), 11);
}

#[test]
fn synthesized_checksum_folds_to_zero() {
    let inbound = TCP {
        header: header(1234, 80, 1000, 0, ctrl(4, SYN)),
        options: vec![8, 10, 0, 1],
        data: vec![],
        src_ip: addr(192, 168, 0, 7),
        dst_ip: addr(192, 168, 0, 1),
    };
    let out = inbound.respond(31337, &vec![]);
    let reply = TCP::from_bytes_ipv4(&out[0], inbound.dst_ip, inbound.src_ip).unwrap();
    assert!(reply.is_valid());

    // The same check made by hand over the raw wire bytes.
    let mut summed: Vec<u8> = Vec::new();
    summed.extend_from_slice(&[192, 168, 0, 1, 192, 168, 0, 7]);
    summed.push(0);
    summed.push(6);
    let seg_len = out[0].len() as u16;
    summed.push((seg_len / 256) as u8);
    summed.push((seg_len % 256) as u8);
    summed.extend_from_slice(&out[0]);
    assert_eq!(Checksum::compile(Checksum::sum(&summed)), 0);
}

#[test]
fn psh_checksum_folds_to_zero() {
    let inbound = TCP {
        header: header(40000, 80, 123456789, 987654321, ctrl(0, PSH | ACK)),
        options: vec![],
        data: vec![1, 2, 3, 4, 5],
        src_ip: addr(8, 8, 8, 8),
        dst_ip: addr(9, 9, 9, 9),
    };
    let body: Vec<u8> = vec![0xaa; 101];
    let out = inbound.respond(0, &body);
    let reply = TCP::from_bytes_ipv4(&out[0], inbound.dst_ip, inbound.src_ip).unwrap();
    assert!(reply.is_valid());
}

#[test]
fn sequence_arithmetic_wraps() {
    let inbound = TCP {
        header: header(1234, 80, u32::MAX, 0, ctrl(0, SYN)),
        options: vec![],
        data: vec![],
        src_ip: addr(1, 2, 3, 4),
        dst_ip: addr(5, 6, 7, 8),
    };
    let out = inbound.respond(1, &vec![]);
    let reply = TCP::from_bytes_ipv4(&out[0], inbound.dst_ip, inbound.src_ip).unwrap();
    assert_eq!(reply.header.ack_num.get(), 0);
}

#[test]
fn encode_layout_exact() {
    let t = TCP {
        header: TCPHeader {
            src: N16::new(0x0102),
            dst: N16::new(0x0304),
            sequence: N32::new(0x05060708),
            ack_num: N32::new(0x090a0b0c),
            flags: N16::new(0x5002),
            window_size: N16::new(0x1000),
            checksum: Checksum { data: 0xbeef },
            urgent_pointer: N16::new(0x0d0e),
        },
        options: vec![],
        data: vec![0xff],
        src_ip: addr(1, 1, 1, 1),
        dst_ip: addr(2, 2, 2, 2),
    };
    let expected: Vec<u8> = vec![
        0x01, 0x02, 0x03, 0x04, 0x05, 0x06, 0x07, 0x08, 0x09, 0x0a, 0x0b, 0x0c, 0x50, 0x02, 0x10,
        0x00, 0xbe, 0xef, 0x0d, 0x0e, 0xff,
    ];
    assert_eq!(t.to_bytes(), expected);
}

#[test]
fn describe_line_zero_port() {
    let t = TCP {
        header: header(0, 65535, 0, 0, ctrl(0, 0)),
        options: vec![],
        data: vec![],
        src_ip: addr(0, 0, 0, 0),
        dst_ip: addr(0, 0, 0, 0),
    };
    assert_eq!(t.d().as_str(), "TCP from 0 to 65535 options 0 data 0");
}

#[test]
fn describe_line() {
    let t = TCP {
        header: header(1234, 80, 0, 0, ctrl(0, SYN)),
        options: vec![],
        data: vec![9, 9, 9],
        src_ip: addr(1, 2, 3, 4),
        dst_ip: addr(5, 6, 7, 8),
    };
    assert_eq!(t.d().as_str(), "TCP from 1234 to 80 options 0 data 3");
}
