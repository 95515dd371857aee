//! The response synthesizer: judges one inbound segment on its own fields and
//! produces zero or one outbound segments, with no connection state retained
//! between calls.
//!
//! Two collaborators stay outside this engine and hand their results in as
//! plain values: the fresh 32-bit initial sequence number used for a SYN
//! reply, and the HTTP response generator whose output becomes the payload of
//! a PSH reply. The synthesizer is a pure function of the inbound segment and
//! those two values.

use vstd::prelude::*;
use vstd::arithmetic::div_mod::lemma_fundamental_div_mod_converse;
use vstd::arithmetic::div_mod::lemma_small_mod;
use crate::checksum::Checksum;
use crate::checksum::compile16;
use crate::checksum::lemma_checksum_folds_to_zero;
use crate::checksum::lemma_sum_words_append;
use crate::checksum::sum_words;
use crate::codec::SegView;
use crate::codec::TCP;
use crate::codec::TCPHeader;
use crate::codec::TCP_ACK;
use crate::codec::TCP_FIN;
use crate::codec::TCP_SYN;
use crate::codec::append_bytes;
use crate::codec::encode_header;
use crate::codec::fits_segment;
use crate::codec::hdr_wf;
use crate::codec::header_bytes;
use crate::codec::header_len_bytes;
use crate::codec::psh_set;
use crate::codec::sub_bytes;
use crate::codec::syn_set;
use crate::codec::wire_bytes;
use crate::net::N16;
use crate::net::N32;

verus! {

/// The port this engine serves.
pub const SERVED_PORT: u16 = 80;

/// The protocol identifier summed into the pseudo-header.
pub const PROTO_TCP: u8 = 6;

/// Addition modulo 2^32, as sequence-number arithmetic wraps.
pub open spec fn add32(a: u32, b: u32) -> u32 {
    ((a + b) % 0x1_0000_0000) as u32
}

/// A control word with its header-length nibble kept and its low twelve bits
/// replaced by `bits`.
pub open spec fn ctrl_word(flags: u16, bits: u16) -> u16 {
    ((flags / 4096) * 4096 + bits) as u16
}

/// The header record with its checksum field set to zero, as it is summed.
pub open spec fn zero_checksum(h: TCPHeader) -> TCPHeader {
    TCPHeader { checksum: Checksum { data: 0 }, ..h }
}

/// The synthetic pseudo-header summed into every segment checksum: source
/// address, destination address, the protocol identifier in a 16-bit field,
/// and the 16-bit segment length (header plus options plus payload).
pub open spec fn pseudo_bytes(v: SegView) -> Seq<u8> {
    let len = (20 + v.options.len() + v.data.len()) % 0x10000;
    v.src_ip.spec_bytes() + v.dst_ip.spec_bytes() + seq![0u8, PROTO_TCP] + seq![
        (len / 256) as u8,
        (len % 256) as u8,
    ]
}

/// The byte range a sender sums: pseudo-header, header with the checksum
/// field zeroed, options, payload.
pub open spec fn checksum_input(v: SegView) -> Seq<u8> {
    pseudo_bytes(v) + header_bytes(zero_checksum(v.header)) + v.options + v.data
}

/// The byte range a receiver sums: the same, with the checksum field as it
/// was received.
pub open spec fn checksum_input_as_sent(v: SegView) -> Seq<u8> {
    pseudo_bytes(v) + header_bytes(v.header) + v.options + v.data
}

/// The finished checksum a sender embeds in a segment.
pub open spec fn segment_checksum(v: SegView) -> nat {
    compile16(sum_words(checksum_input(v)))
}

/// The segment with its checksum field replaced.
pub open spec fn with_checksum(v: SegView, c: u16) -> SegView {
    SegView { header: TCPHeader { checksum: Checksum { data: c }, ..v.header }, ..v }
}

/// The SYN reply before its checksum is filled in: ports and addresses
/// swapped, flags SYN|ACK under the inbound header-length nibble, the
/// acknowledgment one past the inbound sequence, the freshly supplied
/// sequence number, options copied unchanged, empty payload.
pub open spec fn syn_base(v: SegView, isn: u32) -> SegView {
    SegView {
        header: TCPHeader {
            src: v.header.dst,
            dst: v.header.src,
            sequence: N32::spec_new(isn),
            ack_num: N32::spec_new(add32(v.header.sequence.spec_get(), 1)),
            flags: N16::spec_new(ctrl_word(v.header.flags.spec_get(), (TCP_SYN + TCP_ACK) as u16)),
            window_size: v.header.window_size,
            checksum: Checksum { data: 0 },
            urgent_pointer: v.header.urgent_pointer,
        },
        options: v.options,
        data: Seq::empty(),
        src_ip: v.dst_ip,
        dst_ip: v.src_ip,
    }
}

/// The finished SYN reply.
pub open spec fn syn_reply(v: SegView, isn: u32) -> SegView {
    with_checksum(syn_base(v, isn), segment_checksum(syn_base(v, isn)) as u16)
}

/// The PSH reply before its checksum is filled in: ports and addresses
/// swapped, flags ACK|FIN under the inbound header-length nibble, the
/// acknowledgment advanced past the inbound payload, the sequence continued
/// from what the peer last acknowledged, options copied unchanged, and the
/// supplied HTTP response as payload.
pub open spec fn psh_base(v: SegView, body: Seq<u8>) -> SegView {
    SegView {
        header: TCPHeader {
            src: v.header.dst,
            dst: v.header.src,
            sequence: N32::spec_new(v.header.ack_num.spec_get()),
            ack_num: N32::spec_new(add32(v.header.sequence.spec_get(), v.data.len() as u32)),
            flags: N16::spec_new(ctrl_word(v.header.flags.spec_get(), (TCP_ACK + TCP_FIN) as u16)),
            window_size: v.header.window_size,
            checksum: Checksum { data: 0 },
            urgent_pointer: v.header.urgent_pointer,
        },
        options: v.options,
        data: body,
        src_ip: v.dst_ip,
        dst_ip: v.src_ip,
    }
}

/// The finished PSH reply.
pub open spec fn psh_reply(v: SegView, body: Seq<u8>) -> SegView {
    with_checksum(psh_base(v, body), segment_checksum(psh_base(v, body)) as u16)
}

/// The encoded segments one inbound segment gives rise to. A segment not
/// addressed to the served port is dropped without a reset: a known,
/// deliberately preserved gap in the design, not an oversight of this
/// implementation. A segment with neither SYN nor PSH set is a deliberate
/// no-reply outcome, not an error.
pub open spec fn respond_spec(v: SegView, isn: u32, body: Seq<u8>) -> Seq<Seq<u8>> {
    if v.header.dst.spec_get() != SERVED_PORT {
        Seq::empty()
    } else if syn_set(v.header.flags.spec_get()) {
        seq![wire_bytes(syn_reply(v, isn))]
    } else if psh_set(v.header.flags.spec_get()) {
        seq![wire_bytes(psh_reply(v, body))]
    } else {
        Seq::empty()
    }
}

/// Addition modulo 2^32 on machine integers.
fn wrapping_add32(a: u32, b: u32) -> (r: u32)
    ensures
        r == add32(a, b),
{
    let s: u64 = a as u64 + b as u64;
    (s % 0x1_0000_0000) as u32
}

/// Keeps the header-length nibble of a control word and replaces its low
/// twelve bits.
fn set_ctrl_bits(flags: u16, bits: u16) -> (r: u16)
    requires
        bits < 4096,
    ensures
        r == ctrl_word(flags, bits),
{
    (flags / 4096) * 4096 + bits
}

/// Builds the byte range a checksum is computed over: pseudo-header, the
/// given header record, options, payload.
fn checksum_input_bytes(t: &TCP, h: &TCPHeader) -> (r: Vec<u8>)
    requires
        fits_segment(t@),
    ensures
        r@ == pseudo_bytes(t@) + header_bytes(*h) + t.options@ + t.data@,
{
    let mut buf: Vec<u8> = Vec::new();
    buf.push(t.src_ip.b0);
    buf.push(t.src_ip.b1);
    buf.push(t.src_ip.b2);
    buf.push(t.src_ip.b3);
    buf.push(t.dst_ip.b0);
    buf.push(t.dst_ip.b1);
    buf.push(t.dst_ip.b2);
    buf.push(t.dst_ip.b3);
    buf.push(0);
    buf.push(PROTO_TCP);
    let seg_len: u16 = (20 + t.options.len() + t.data.len()) as u16;
    proof {
        lemma_small_mod((20 + t.options@.len() + t.data@.len()) as nat, 0x10000);
    }
    buf.push((seg_len / 256) as u8);
    buf.push((seg_len % 256) as u8);
    proof {
        assert(buf@ =~= pseudo_bytes(t@));
    }
    let hdr = encode_header(h);
    append_bytes(&mut buf, &hdr);
    append_bytes(&mut buf, &t.options);
    append_bytes(&mut buf, &t.data);
    proof {
        assert(buf@ =~= pseudo_bytes(t@) + header_bytes(*h) + t.options@ + t.data@);
    }
    buf
}

/// Computes the checksum a sender embeds: the sum over pseudo-header, the
/// header with its checksum field zeroed, options and payload, folded and
/// complemented.
fn compute_checksum(t: &TCP) -> (c: u16)
    requires
        fits_segment(t@),
    ensures
        c == segment_checksum(t@),
{
    let zeroed = TCPHeader { checksum: Checksum { data: 0 }, ..t.header };
    let buf = checksum_input_bytes(t, &zeroed);
    let s = Checksum::sum(&buf);
    Checksum::compile(s)
}

impl TCP {
    /// The receiver-side validity check: recomputes the sum over the wire
    /// bytes with the received checksum field unmodified and reports whether
    /// it folds to exactly zero.
    pub fn is_valid(&self) -> (r: bool)
        requires
            fits_segment(self@),
        ensures
            r == (compile16(sum_words(checksum_input_as_sent(self@))) == 0),
    {
        let buf = checksum_input_bytes(self, &self.header);
        let s = Checksum::sum(&buf);
        Checksum::compile(s) == 0
    }

    /// Judges one inbound segment and synthesizes its replies, already
    /// encoded for transmission. `isn` is the freshly generated sequence
    /// number a SYN reply carries; `http_body` is the HTTP generator's
    /// output for the inbound payload, used only by a PSH reply to the
    /// served port. The size bounds are forced by the 16-bit segment-length
    /// field of the pseudo-header: a caller must drop or trim anything that
    /// cannot be summed under that length.
    pub fn respond(&self, isn: u32, http_body: &Vec<u8>) -> (out: Vec<Vec<u8>>)
        requires
            hdr_wf(self@),
            fits_segment(self@),
            20 + self@.options.len() + http_body@.len() <= 0xffff,
        ensures
            out@.len() == respond_spec(self@, isn, http_body@).len(),
            forall|i: int|
                0 <= i < out@.len() ==> #[trigger] out@[i]@ == respond_spec(
                    self@,
                    isn,
                    http_body@,
                )[i],
    {
        let allow: bool = self.header.dst.get() == SERVED_PORT;
        if allow {
            let flags_val = self.header.flags.get();
            if (flags_val / 2) % 2 == 1 {
                let mut ret = TCP {
                    header: TCPHeader {
                        src: self.header.dst,
                        dst: self.header.src,
                        sequence: N32::new(isn),
                        ack_num: N32::new(wrapping_add32(self.header.sequence.get(), 1)),
                        flags: N16::new(set_ctrl_bits(flags_val, TCP_SYN + TCP_ACK)),
                        window_size: self.header.window_size,
                        checksum: Checksum { data: 0 },
                        urgent_pointer: self.header.urgent_pointer,
                    },
                    options: sub_bytes(&self.options, 0, self.options.len()),
                    data: Vec::new(),
                    src_ip: self.dst_ip,
                    dst_ip: self.src_ip,
                };
                proof {
                    assert(ret.options@ =~= self@.options);
                    assert(ret@ =~= syn_base(self@, isn));
                }
                let c = compute_checksum(&ret);
                ret.header.checksum = Checksum { data: c };
                proof {
                    assert(ret@ =~= syn_reply(self@, isn));
                }
                let bytes = ret.to_bytes();
                let mut out: Vec<Vec<u8>> = Vec::new();
                out.push(bytes);
                return out;
            } else if (flags_val / 8) % 2 == 1 {
                let data_len: u32 = self.data.len() as u32;
                let mut ret = TCP {
                    header: TCPHeader {
                        src: self.header.dst,
                        dst: self.header.src,
                        sequence: N32::new(self.header.ack_num.get()),
                        ack_num: N32::new(wrapping_add32(self.header.sequence.get(), data_len)),
                        flags: N16::new(set_ctrl_bits(flags_val, TCP_ACK + TCP_FIN)),
                        window_size: self.header.window_size,
                        checksum: Checksum { data: 0 },
                        urgent_pointer: self.header.urgent_pointer,
                    },
                    options: sub_bytes(&self.options, 0, self.options.len()),
                    data: sub_bytes(http_body, 0, http_body.len()),
                    src_ip: self.dst_ip,
                    dst_ip: self.src_ip,
                };
                proof {
                    assert(ret.options@ =~= self@.options);
                    assert(ret.data@ =~= http_body@);
                    assert(ret@ =~= psh_base(self@, http_body@));
                }
                let c = compute_checksum(&ret);
                ret.header.checksum = Checksum { data: c };
                proof {
                    assert(ret@ =~= psh_reply(self@, http_body@));
                }
                let bytes = ret.to_bytes();
                let mut out: Vec<Vec<u8>> = Vec::new();
                out.push(bytes);
                return out;
            }
        }
        Vec::new()
    }
}

/// A segment not addressed to the served port gets zero outbound segments,
/// whatever its flags: the reset a completed design would emit is a
/// deliberately preserved gap.
pub proof fn lemma_unserved_port_dropped(v: SegView, isn: u32, body: Seq<u8>)
    requires
        v.header.dst.spec_get() != SERVED_PORT,
    ensures
        respond_spec(v, isn, body) == Seq::<Seq<u8>>::empty(),
{
}

/// A served segment with neither SYN nor PSH set gets zero outbound
/// segments: a deliberate no-reply outcome, not an error.
pub proof fn lemma_unhandled_flags_dropped(v: SegView, isn: u32, body: Seq<u8>)
    requires
        !syn_set(v.header.flags.spec_get()),
        !psh_set(v.header.flags.spec_get()),
    ensures
        respond_spec(v, isn, body) == Seq::<Seq<u8>>::empty(),
{
}

/// Replacing the checksum field moves the sender-side sum by exactly that
/// value: the field sits on a 16-bit word boundary, so the sum over the wire
/// bytes as sent is the zeroed sum plus the embedded checksum.
pub proof fn lemma_checksum_input_shift(v: SegView)
    requires
        v.options.len() % 2 == 0,
    ensures
        sum_words(checksum_input_as_sent(v)) == sum_words(checksum_input(v))
            + v.header.checksum.data,
{
    let p = pseudo_bytes(v);
    let h = header_bytes(v.header);
    let h0 = header_bytes(zero_checksum(v.header));
    let c = v.header.checksum.data;
    let pre = h.subrange(0, 16);
    let post = h.subrange(18, 20);
    assert(h =~= pre + h.subrange(16, 18) + post);
    assert(h0 =~= pre + seq![0u8, 0u8] + post);
    assert(p.len() == 12);
    lemma_sum_words_append(pre, h.subrange(16, 18));
    lemma_sum_words_append(pre + h.subrange(16, 18), post);
    lemma_sum_words_append(pre, seq![0u8, 0u8]);
    lemma_sum_words_append(pre + seq![0u8, 0u8], post);
    assert(sum_words(h.subrange(16, 18)) == c) by {
        let w = h.subrange(16, 18);
        assert(w.len() == 2);
        assert(w[0] == (c / 256) as u8);
        assert(w[1] == (c % 256) as u8);
        assert(w.skip(2).len() == 0);
        assert(sum_words(w.skip(2)) == 0);
        assert((c / 256) * 256 + c % 256 == c) by (nonlinear_arith);
    }
    assert(sum_words(seq![0u8, 0u8]) == 0) by {
        let z: Seq<u8> = seq![0u8, 0u8];
        assert(z.skip(2).len() == 0);
        assert(sum_words(z.skip(2)) == 0);
    }
    assert(sum_words(h) == sum_words(h0) + c);
    lemma_sum_words_append(p, h);
    lemma_sum_words_append(p + h, v.options);
    lemma_sum_words_append(p + h + v.options, v.data);
    lemma_sum_words_append(p, h0);
    lemma_sum_words_append(p + h0, v.options);
    lemma_sum_words_append(p + h0 + v.options, v.data);
    assert(checksum_input_as_sent(v) == p + h + v.options + v.data);
    assert(checksum_input(v) == p + h0 + v.options + v.data);
}

/// A well-formed control word keeps its header-length nibble under
/// `ctrl_word`, so a reply derived from a well-formed inbound segment is
/// itself well-formed.
pub proof fn lemma_ctrl_word_keeps_nibble(flags: u16, bits: u16)
    requires
        bits < 4096,
    ensures
        header_len_bytes(ctrl_word(flags, bits)) == header_len_bytes(flags),
{
    let q = flags / 4096;
    lemma_fundamental_div_mod_converse(
        (q * 4096 + bits) as int,
        4096,
        q as int,
        bits as int,
    );
}

/// Checksum validity: a segment whose checksum field holds the finished
/// checksum of its own zeroed sum always passes the receiver-side check —
/// the sum over its wire bytes as sent folds to exactly zero.
pub proof fn lemma_embedded_checksum_valid(v: SegView)
    requires
        v.options.len() % 2 == 0,
        v.header.checksum.data == segment_checksum(v),
    ensures
        compile16(sum_words(checksum_input_as_sent(v))) == 0,
{
    lemma_checksum_input_shift(v);
    lemma_checksum_folds_to_zero(sum_words(checksum_input(v)));
}

/// Options derived from a well-formed control word fill whole 32-bit words,
/// so their length is even.
pub proof fn lemma_hdr_wf_options_even(v: SegView)
    requires
        hdr_wf(v),
    ensures
        v.options.len() % 4 == 0,
        v.options.len() % 2 == 0,
{
    let q = v.header.flags.spec_get() / 4096;
    assert(v.options.len() == q * 4 - 20);
    assert(q * 4 % 4 == 0 && (q * 4 >= 20 ==> (q * 4 - 20) % 4 == 0)) by (nonlinear_arith);
    assert(v.options.len() % 4 == 0);
    assert(v.options.len() % 2 == 0) by (nonlinear_arith)
        requires
            v.options.len() % 4 == 0,
    ;
}

/// The checksum field is not part of its own sum: the zeroed sum of a
/// segment does not change when a checksum is embedded.
pub proof fn lemma_with_checksum_same_input(v: SegView, c: u16)
    ensures
        checksum_input(with_checksum(v, c)) == checksum_input(v),
        segment_checksum(with_checksum(v, c)) == segment_checksum(v),
{
    assert(zero_checksum(with_checksum(v, c).header) == zero_checksum(v.header));
    assert(checksum_input(with_checksum(v, c)) =~= checksum_input(v));
}

/// Every SYN reply of the synthesizer passes the receiver-side checksum
/// check.
pub proof fn lemma_syn_reply_checksum_valid(v: SegView, isn: u32)
    requires
        hdr_wf(v),
    ensures
        compile16(sum_words(checksum_input_as_sent(syn_reply(v, isn)))) == 0,
{
    lemma_hdr_wf_options_even(v);
    let b = syn_base(v, isn);
    lemma_with_checksum_same_input(b, segment_checksum(b) as u16);
    lemma_checksum_le(b);
    lemma_embedded_checksum_valid(syn_reply(v, isn));
}

/// Every PSH reply of the synthesizer passes the receiver-side checksum
/// check.
pub proof fn lemma_psh_reply_checksum_valid(v: SegView, body: Seq<u8>)
    requires
        hdr_wf(v),
    ensures
        compile16(sum_words(checksum_input_as_sent(psh_reply(v, body)))) == 0,
{
    lemma_hdr_wf_options_even(v);
    let b = psh_base(v, body);
    lemma_with_checksum_same_input(b, segment_checksum(b) as u16);
    lemma_checksum_le(b);
    lemma_embedded_checksum_valid(psh_reply(v, body));
}

/// A finished checksum fits in sixteen bits.
pub proof fn lemma_checksum_le(v: SegView)
    ensures
        segment_checksum(v) <= 0xffff,
        segment_checksum(v) as u16 == segment_checksum(v),
{
    crate::checksum::lemma_fold16_le(sum_words(checksum_input(v)));
}

/// A reply keeps the inbound header-length nibble and copies the inbound
/// options, so it is well-formed and fits one segment whenever the inbound
/// segment was well-formed (and, for a PSH reply, the supplied body fits).
pub proof fn lemma_syn_reply_wf(v: SegView, isn: u32)
    requires
        hdr_wf(v),
    ensures
        hdr_wf(syn_reply(v, isn)),
        fits_segment(syn_reply(v, isn)),
{
    crate::net::lemma_n16_get_new(ctrl_word(v.header.flags.spec_get(), (TCP_SYN + TCP_ACK) as u16));
    lemma_ctrl_word_keeps_nibble(v.header.flags.spec_get(), (TCP_SYN + TCP_ACK) as u16);
}

/// The PSH counterpart of `lemma_syn_reply_wf`.
pub proof fn lemma_psh_reply_wf(v: SegView, body: Seq<u8>)
    requires
        hdr_wf(v),
        20 + v.options.len() + body.len() <= 0xffff,
    ensures
        hdr_wf(psh_reply(v, body)),
        fits_segment(psh_reply(v, body)),
{
    crate::net::lemma_n16_get_new(ctrl_word(v.header.flags.spec_get(), (TCP_ACK + TCP_FIN) as u16));
    lemma_ctrl_word_keeps_nibble(v.header.flags.spec_get(), (TCP_ACK + TCP_FIN) as u16);
}

} // verus!
