//! The segment codec: the fixed twenty-byte header record, the segment type
//! holding header, options and payload, and the decode/encode pair between
//! segments and raw wire bytes.
//!
//! All multi-byte header fields travel in network byte order. The control
//! word packs the header length in 32-bit words into its high four bits; the
//! low bits are the control flags.

use vstd::prelude::*;
use crate::checksum::Checksum;
use crate::net::IPv4Addr;
use crate::net::N16;
use crate::net::N32;

verus! {

pub const TCP_FIN: u16 = 1;

pub const TCP_SYN: u16 = 2;

pub const TCP_RST: u16 = 4;

pub const TCP_PSH: u16 = 8;

pub const TCP_ACK: u16 = 16;

/// The size of the fixed header record in bytes.
pub const FIXED_HEADER_LEN: usize = 20;

/// The fixed-size segment header. Every field is kept in network byte order;
/// the checksum field keeps the finished 16-bit value.
#[derive(Clone, Copy, PartialEq, Eq, Structural, Debug)]
pub struct TCPHeader {
    pub src: N16,
    pub dst: N16,
    pub sequence: N32,
    pub ack_num: N32,
    pub flags: N16,
    pub window_size: N16,
    pub checksum: Checksum,
    pub urgent_pointer: N16,
}

/// A decoded segment: the fixed header, the variable options and payload
/// regions, and the addresses of the enclosing datagram. A segment owns its
/// bytes; nothing aliases the receive buffer it was decoded from.
#[derive(Debug)]
pub struct TCP {
    pub header: TCPHeader,
    pub options: Vec<u8>,
    pub data: Vec<u8>,
    pub src_ip: IPv4Addr,
    pub dst_ip: IPv4Addr,
}

/// The mathematical model of a segment: the same fields with the byte
/// containers abstracted to sequences.
#[verifier::ext_equal]
pub struct SegView {
    pub header: TCPHeader,
    pub options: Seq<u8>,
    pub data: Seq<u8>,
    pub src_ip: IPv4Addr,
    pub dst_ip: IPv4Addr,
}

impl View for TCP {
    type V = SegView;

    open spec fn view(&self) -> SegView {
        SegView {
            header: self.header,
            options: self.options@,
            data: self.data@,
            src_ip: self.src_ip,
            dst_ip: self.dst_ip,
        }
    }
}

/// Why a raw buffer fails to decode.
#[derive(Clone, Copy, PartialEq, Eq, Structural, Debug)]
pub enum DecodeError {
    /// The buffer is shorter than the fixed header, or shorter than the
    /// header length its own control word declares, or that declared length
    /// is below the fixed header size.
    Truncated,
}

/// The header length in bytes derived from the control word: the high four
/// bits give the length in 32-bit words, so one shift by ten both extracts
/// the nibble and multiplies by four.
pub open spec fn header_len_bytes(flags: u16) -> nat {
    ((flags / 4096) * 4) as nat
}

/// Whether the SYN flag is set in a control word.
pub open spec fn syn_set(flags: u16) -> bool {
    (flags / 2) % 2 == 1
}

/// Whether the PSH flag is set in a control word.
pub open spec fn psh_set(flags: u16) -> bool {
    (flags / 8) % 2 == 1
}

/// The twenty wire bytes of the fixed header record, in order.
pub open spec fn header_bytes(h: TCPHeader) -> Seq<u8> {
    seq![
        h.src.hi,
        h.src.lo,
        h.dst.hi,
        h.dst.lo,
        h.sequence.b0,
        h.sequence.b1,
        h.sequence.b2,
        h.sequence.b3,
        h.ack_num.b0,
        h.ack_num.b1,
        h.ack_num.b2,
        h.ack_num.b3,
        h.flags.hi,
        h.flags.lo,
        h.window_size.hi,
        h.window_size.lo,
        (h.checksum.data / 256) as u8,
        (h.checksum.data % 256) as u8,
        h.urgent_pointer.hi,
        h.urgent_pointer.lo,
    ]
}

/// The header record read back from the first twenty bytes of a buffer.
pub open spec fn parse_header(b: Seq<u8>) -> TCPHeader {
    TCPHeader {
        src: N16 { hi: b[0], lo: b[1] },
        dst: N16 { hi: b[2], lo: b[3] },
        sequence: N32 { b0: b[4], b1: b[5], b2: b[6], b3: b[7] },
        ack_num: N32 { b0: b[8], b1: b[9], b2: b[10], b3: b[11] },
        flags: N16 { hi: b[12], lo: b[13] },
        window_size: N16 { hi: b[14], lo: b[15] },
        checksum: Checksum { data: (b[16] * 256 + b[17]) as u16 },
        urgent_pointer: N16 { hi: b[18], lo: b[19] },
    }
}

/// A segment whose control word agrees with its options region: the derived
/// header length is exactly the fixed header plus the options.
pub open spec fn hdr_wf(v: SegView) -> bool {
    header_len_bytes(v.header.flags.spec_get()) == 20 + v.options.len()
}

/// A segment small enough for the 16-bit length field of the pseudo-header.
pub open spec fn fits_segment(v: SegView) -> bool {
    20 + v.options.len() + v.data.len() <= 0xffff
}

/// The encoded form of a segment: the fixed header record, then options,
/// then payload.
pub open spec fn wire_bytes(v: SegView) -> Seq<u8> {
    header_bytes(v.header) + v.options + v.data
}

/// What decoding a raw buffer yields: the header copied verbatim, options
/// and payload sliced by the derived header length, and the supplied
/// addresses attached; or `Truncated` when the buffer cannot hold what its
/// control word declares.
pub open spec fn decode_spec(b: Seq<u8>, src_ip: IPv4Addr, dst_ip: IPv4Addr) -> Result<
    SegView,
    DecodeError,
> {
    if b.len() < 20 {
        Err(DecodeError::Truncated)
    } else {
        let h = parse_header(b);
        let hl = header_len_bytes(h.flags.spec_get()) as int;
        if hl < 20 || hl > b.len() {
            Err(DecodeError::Truncated)
        } else {
            Ok(
                (SegView {
                    header: h,
                    options: b.subrange(20, hl),
                    data: b.subrange(hl, b.len() as int),
                    src_ip,
                    dst_ip,
                }),
            )
        }
    }
}

/// Copies `src[start..end]` into a fresh byte vector.
pub(crate) fn sub_bytes(src: &Vec<u8>, start: usize, end: usize) -> (r: Vec<u8>)
    requires
        start <= end,
        end <= src@.len(),
    ensures
        r@ == src@.subrange(start as int, end as int),
{
    let mut r: Vec<u8> = Vec::new();
    let mut i: usize = start;
    proof {
        assert(r@ =~= src@.subrange(start as int, start as int));
    }
    while i < end
        invariant
            start <= i <= end <= src@.len(),
            r@ == src@.subrange(start as int, i as int),
        decreases end - i,
    {
        r.push(src[i]);
        proof {
            assert(r@ =~= src@.subrange(start as int, i + 1));
        }
        i = i + 1;
    }
    r
}

/// Appends every byte of `src` to `dst`.
pub(crate) fn append_bytes(dst: &mut Vec<u8>, src: &Vec<u8>)
    ensures
        final(dst)@ == old(dst)@ + src@,
{
    let ghost base = dst@;
    let mut i: usize = 0;
    while i < src.len()
        invariant
            i <= src@.len(),
            dst@ == base + src@.subrange(0, i as int),
        decreases src@.len() - i,
    {
        proof {
            assert(base + src@.subrange(0, i + 1) =~= (base + src@.subrange(0, i as int)).push(
                src@[i as int],
            ));
        }
        dst.push(src[i]);
        i = i + 1;
    }
    proof {
        assert(base + src@.subrange(0, src@.len() as int) =~= base + src@);
    }
}

/// Writes the fixed header record into twenty wire bytes.
pub(crate) fn encode_header(h: &TCPHeader) -> (r: Vec<u8>)
    ensures
        r@ == header_bytes(*h),
{
    let mut v: Vec<u8> = Vec::new();
    v.push(h.src.hi);
    v.push(h.src.lo);
    v.push(h.dst.hi);
    v.push(h.dst.lo);
    v.push(h.sequence.b0);
    v.push(h.sequence.b1);
    v.push(h.sequence.b2);
    v.push(h.sequence.b3);
    v.push(h.ack_num.b0);
    v.push(h.ack_num.b1);
    v.push(h.ack_num.b2);
    v.push(h.ack_num.b3);
    v.push(h.flags.hi);
    v.push(h.flags.lo);
    v.push(h.window_size.hi);
    v.push(h.window_size.lo);
    v.push((h.checksum.data / 256) as u8);
    v.push((h.checksum.data % 256) as u8);
    v.push(h.urgent_pointer.hi);
    v.push(h.urgent_pointer.lo);
    proof {
        assert(v@ =~= header_bytes(*h));
    }
    v
}

impl TCP {
    /// Decodes a raw link-delivered buffer into a segment, attaching the
    /// addresses of the enclosing datagram. Fails with `Truncated`, never
    /// panics, on any buffer too short for what its control word declares.
    pub fn from_bytes_ipv4(bytes: &Vec<u8>, src_ip: IPv4Addr, dst_ip: IPv4Addr) -> (r: Result<
        TCP,
        DecodeError,
    >)
        ensures
            (match r {
                Ok(t) => decode_spec(bytes@, src_ip, dst_ip) == Ok::<SegView, DecodeError>(t@),
                Err(e) => decode_spec(bytes@, src_ip, dst_ip) == Err::<SegView, DecodeError>(e),
            }),
            r matches Ok(t) ==> hdr_wf(t@),
    {
        if bytes.len() < FIXED_HEADER_LEN {
            return Err(DecodeError::Truncated);
        }
        let header = TCPHeader {
            src: N16 { hi: bytes[0], lo: bytes[1] },
            dst: N16 { hi: bytes[2], lo: bytes[3] },
            sequence: N32 { b0: bytes[4], b1: bytes[5], b2: bytes[6], b3: bytes[7] },
            ack_num: N32 { b0: bytes[8], b1: bytes[9], b2: bytes[10], b3: bytes[11] },
            flags: N16 { hi: bytes[12], lo: bytes[13] },
            window_size: N16 { hi: bytes[14], lo: bytes[15] },
            checksum: Checksum { data: (bytes[16] as u16) * 256 + (bytes[17] as u16) },
            urgent_pointer: N16 { hi: bytes[18], lo: bytes[19] },
        };
        proof {
            assert(header == parse_header(bytes@));
        }
        let flags_val = header.flags.get();
        let header_len = ((flags_val / 4096) * 4) as usize;
        if header_len < FIXED_HEADER_LEN || header_len > bytes.len() {
            return Err(DecodeError::Truncated);
        }
        let options = sub_bytes(bytes, FIXED_HEADER_LEN, header_len);
        let data = sub_bytes(bytes, header_len, bytes.len());
        Ok(TCP { header, options, data, src_ip, dst_ip })
    }

    /// Encodes the segment back into wire bytes: the header record, then
    /// options, then payload. Total, with no failure mode.
    pub fn to_bytes(&self) -> (r: Vec<u8>)
        ensures
            r@ == wire_bytes(self@),
    {
        let mut out = encode_header(&self.header);
        append_bytes(&mut out, &self.options);
        append_bytes(&mut out, &self.data);
        out
    }
}

/// Truncated decode: a buffer shorter than the fixed header size, or whose
/// derived header length exceeds the buffer length or falls below the fixed
/// header size, yields exactly a `Truncated` failure and never a segment —
/// and nothing else does.
pub proof fn lemma_decode_truncated(b: Seq<u8>, src_ip: IPv4Addr, dst_ip: IPv4Addr)
    ensures
        decode_spec(b, src_ip, dst_ip) == Err::<SegView, DecodeError>(DecodeError::Truncated) <==> (
        b.len() < 20 || header_len_bytes(parse_header(b).flags.spec_get()) < 20 || header_len_bytes(
            parse_header(b).flags.spec_get(),
        ) > b.len()),
        decode_spec(b, src_ip, dst_ip) is Ok <==> !(b.len() < 20 || header_len_bytes(
            parse_header(b).flags.spec_get(),
        ) < 20 || header_len_bytes(parse_header(b).flags.spec_get()) > b.len()),
{
}

/// Round trip: decoding the encoding of any well-formed segment reproduces
/// its header fields, options and payload exactly, with the supplied
/// addresses attached.
pub proof fn lemma_round_trip(v: SegView, src_ip: IPv4Addr, dst_ip: IPv4Addr)
    requires
        hdr_wf(v),
    ensures
        decode_spec(wire_bytes(v), src_ip, dst_ip) == Ok::<SegView, DecodeError>(
            (SegView { src_ip, dst_ip, ..v }),
        ),
{
    let w = wire_bytes(v);
    let hb = header_bytes(v.header);
    assert(w.len() == 20 + v.options.len() + v.data.len());
    assert forall|i: int| 0 <= i < 20 implies w[i] == hb[i] by {}
    let h = parse_header(w);
    assert(h.checksum.data == (hb[16] * 256 + hb[17]) as u16);
    assert((h.checksum.data / 256) as u8 == hb[16] && (h.checksum.data % 256) as u8 == hb[17]) by {
        let c = v.header.checksum.data;
        assert((c / 256) * 256 + c % 256 == c) by (nonlinear_arith);
        assert(c / 256 < 256);
    }
    assert(h =~= v.header);
    let hl = header_len_bytes(h.flags.spec_get()) as int;
    assert(hl == 20 + v.options.len());
    assert(w.subrange(20, hl) =~= v.options);
    assert(w.subrange(hl, w.len() as int) =~= v.data);
    assert(decode_spec(w, src_ip, dst_ip)->Ok_0 =~= (SegView { src_ip, dst_ip, ..v }));
}

} // verus!
