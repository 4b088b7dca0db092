//! MQTT v4 PUBLISH control-packet codec.
//!
//! Wire format: byte 0 holds the packet type and flags
//! (`0x30 | retain | qos << 1 | dup << 3`); the remaining length follows
//! as a variable-length integer of one to four bytes, seven value bits
//! per byte with the high bit as continuation; the variable header is a
//! two-byte big-endian topic length and the topic bytes, then — only
//! when the quality of service is above at-most-once — a two-byte
//! big-endian nonzero packet identifier; the rest is the payload,
//! verbatim.
//!
//! Writing a packet first runs one namespace-strip pass over the topic,
//! so the tenant marker never reaches the wire.

use vstd::prelude::*;

use crate::topics::remove_username_from_topic;
use crate::topics::spec_strip;

verus! {

/// Delivery-guarantee level of a PUBLISH packet.
#[derive(Clone, Copy, Debug, PartialEq, Eq, Structural)]
pub enum QoS {
    AtMostOnce,
    AtLeastOnce,
    ExactlyOnce,
}

/// Errors of the codec; each is fatal to the single packet.
#[derive(Clone, Copy, Debug, PartialEq, Eq, Structural)]
pub enum CodecError {
    /// The two raw qos bits held the one undefined combination.
    InvalidQoS(u8),
    /// A packet with qos above at-most-once carried packet identifier zero.
    PacketIdZero,
    /// The buffer ended before the field that was being read.
    TruncatedBuffer,
    /// A length field cannot be represented: the remaining length is at
    /// or above 2^28, or the topic is longer than its two-byte prefix
    /// can say.
    LengthOverflow,
}

/// A decoded PUBLISH packet. Topic and payload are opaque byte strings.
#[derive(Clone, Debug, PartialEq, Eq)]
pub struct Publish {
    pub dup: bool,
    pub retain: bool,
    pub qos: QoS,
    pub pkid: u16,
    pub topic: Vec<u8>,
    pub payload: Vec<u8>,
}

/// Mathematical model of a PUBLISH packet.
pub ghost struct PublishView {
    pub dup: bool,
    pub retain: bool,
    pub qos: QoS,
    pub pkid: u16,
    pub topic: Seq<u8>,
    pub payload: Seq<u8>,
}

impl View for Publish {
    type V = PublishView;

    open spec fn view(&self) -> PublishView {
        PublishView {
            dup: self.dup,
            retain: self.retain,
            qos: self.qos,
            pkid: self.pkid,
            topic: self.topic@,
            payload: self.payload@,
        }
    }
}

impl PublishView {
    /// The data-model invariant: the packet identifier is zero exactly
    /// when the quality of service is at-most-once.
    pub open spec fn wf(self) -> bool {
        self.pkid == 0 <==> self.qos == QoS::AtMostOnce
    }
}

/// The numeric value of a quality-of-service level.
pub open spec fn spec_qos_num(q: QoS) -> u8 {
    match q {
        QoS::AtMostOnce => 0,
        QoS::AtLeastOnce => 1,
        QoS::ExactlyOnce => 2,
    }
}

/// The quality-of-service level of a two-bit value; `0b11` is the one
/// undefined combination.
pub open spec fn spec_qos(num: u8) -> Option<QoS> {
    if num == 0 {
        Some(QoS::AtMostOnce)
    } else if num == 1 {
        Some(QoS::AtLeastOnce)
    } else if num == 2 {
        Some(QoS::ExactlyOnce)
    } else {
        None
    }
}

/// Maps a two-bit value to its quality-of-service level.
pub fn qos(num: u8) -> (r: Option<QoS>)
    ensures
        r == spec_qos(num),
{
    if num == 0 {
        Some(QoS::AtMostOnce)
    } else if num == 1 {
        Some(QoS::AtLeastOnce)
    } else if num == 2 {
        Some(QoS::ExactlyOnce)
    } else {
        None
    }
}

/// Size of the variable header plus payload as the original packet
/// would be written: topic length prefix, topic, packet identifier
/// (present only for qos above at-most-once with a nonzero identifier)
/// and payload.
pub open spec fn spec_len(p: PublishView) -> int {
    2 + p.topic.len() + p.payload.len() + if p.qos != QoS::AtMostOnce && p.pkid != 0 {
        2int
    } else {
        0int
    }
}

/// Size of the variable header plus payload of `publish` before any
/// namespace strip.
pub fn len(publish: &Publish) -> (r: usize)
    requires
        spec_len(publish@) <= usize::MAX,
    ensures
        r == spec_len(publish@),
{
    let len = 2 + publish.topic.len() + publish.payload.len();
    if publish.qos != QoS::AtMostOnce && publish.pkid != 0 {
        len + 2
    } else {
        len
    }
}

/// The MQTT variable-length integer encoding of `n`: seven value bits
/// per byte, low bits first, high bit set on every byte but the last.
pub open spec fn spec_varint(n: int) -> Seq<u8>
    recommends
        0 <= n < 0x10000000,
    decreases n,
{
    if n < 0x80 {
        seq![n as u8]
    } else {
        seq![(n % 0x80 + 0x80) as u8] + spec_varint(n / 0x80)
    }
}

/// The two-byte big-endian encoding of `x`.
pub open spec fn spec_u16_be(x: u16) -> Seq<u8> {
    seq![(x / 256) as u8, (x % 256) as u8]
}

/// The flags byte of a PUBLISH packet.
pub open spec fn spec_byte0(p: PublishView) -> u8 {
    0x30u8 | (if p.retain {
        1u8
    } else {
        0u8
    }) | (spec_qos_num(p.qos) << 1u8) | ((if p.dup {
        1u8
    } else {
        0u8
    }) << 3u8)
}

/// The remaining length of `p` as written: topic length prefix, the
/// stripped topic, the packet identifier when qos is above
/// at-most-once, and the payload.
pub open spec fn spec_remaining_len(p: PublishView) -> int {
    2 + spec_strip(p.topic).len() + p.payload.len() + if p.qos != QoS::AtMostOnce {
        2int
    } else {
        0int
    }
}

/// Whether `p` can be written: a nonzero packet identifier where one is
/// mandatory, a stripped topic that fits its two-byte length prefix,
/// and a remaining length below the four-byte variable-length ceiling.
pub open spec fn spec_encodable(p: PublishView) -> bool {
    &&& p.qos != QoS::AtMostOnce ==> p.pkid != 0
    &&& spec_strip(p.topic).len() <= 0xFFFF
    &&& spec_remaining_len(p) < 0x10000000
}

/// The full wire image of `p`: flags byte, remaining length,
/// length-prefixed stripped topic, optional packet identifier, payload.
pub open spec fn spec_encode(p: PublishView) -> Seq<u8> {
    seq![spec_byte0(p)] + spec_varint(spec_remaining_len(p)) + spec_u16_be(
        spec_strip(p.topic).len() as u16,
    ) + spec_strip(p.topic) + (if p.qos != QoS::AtMostOnce {
        spec_u16_be(p.pkid)
    } else {
        Seq::<u8>::empty()
    }) + p.payload
}

/// How many bytes the variable-length integer encoding takes: one
/// below 2^7, and one more for each further seven bits up to the
/// four-byte ceiling.
pub proof fn lemma_varint_len(n: int)
    requires
        0 <= n,
    ensures
        1 <= spec_varint(n).len(),
        n < 0x80 ==> spec_varint(n).len() == 1,
        n < 0x4000 ==> spec_varint(n).len() <= 2,
        n < 0x200000 ==> spec_varint(n).len() <= 3,
        n < 0x10000000 ==> spec_varint(n).len() <= 4,
    decreases n,
{
    if n >= 0x80 {
        lemma_varint_len(n / 0x80);
    }
}

/// Appends the variable-length integer encoding of `len` to `buffer`
/// and returns how many bytes it took; fails, leaving the buffer
/// unchanged, when `len` is at or above the four-byte ceiling 2^28.
pub fn write_remaining_length(buffer: &mut Vec<u8>, len: usize) -> (r: Result<usize, CodecError>)
    ensures
        match r {
            Ok(c) => len < 0x10000000 && final(buffer)@ == old(buffer)@ + spec_varint(len as int)
                && c == spec_varint(len as int).len(),
            Err(e) => e == CodecError::LengthOverflow && len >= 0x10000000 && final(buffer)@
                == old(buffer)@,
        },
{
    if len >= 0x10000000 {
        return Err(CodecError::LengthOverflow);
    }
    let ghost base = buffer@;
    let mut done = len;
    let mut count: usize = 0;
    loop
        invariant
            base == old(buffer)@,
            done <= len < 0x10000000,
            buffer@.len() == base.len() + count,
            base.len() <= buffer@.len(),
            buffer@.subrange(0, base.len() as int) == base,
            spec_varint(len as int) == buffer@.subrange(base.len() as int, buffer@.len() as int)
                + spec_varint(done as int),
            count + spec_varint(done as int).len() == spec_varint(len as int).len(),
        decreases done,
    {
        proof {
            lemma_varint_len(len as int);
            lemma_varint_len(done as int);
        }
        if done >= 0x80 {
            let b: u8 = ((done % 0x80) + 0x80) as u8;
            let ghost pre = buffer@;
            buffer.push(b);
            done = done / 0x80;
            count = count + 1;
            proof {
                assert(buffer@.subrange(0, base.len() as int) =~= base);
                assert(buffer@.subrange(base.len() as int, buffer@.len() as int) =~= pre.subrange(
                    base.len() as int,
                    pre.len() as int,
                ) + seq![b]);
            }
        } else {
            let b: u8 = done as u8;
            let ghost pre = buffer@;
            buffer.push(b);
            count = count + 1;
            proof {
                assert(spec_varint(done as int) =~= seq![b]);
                assert(buffer@.subrange(base.len() as int, buffer@.len() as int) =~= pre.subrange(
                    base.len() as int,
                    pre.len() as int,
                ) + seq![b]);
                assert(buffer@ =~= base + buffer@.subrange(base.len() as int, buffer@.len() as int));
                assert(base == old(buffer)@);
                assert(buffer@.subrange(base.len() as int, buffer@.len() as int) == spec_varint(
                    len as int,
                ));
                assert(buffer@ == old(buffer)@ + spec_varint(len as int));
            }
            return Ok(count);
        }
    }
}

/// Writes `publish` to `buffer` as its wire image and returns the total
/// byte count: one flags byte, the remaining-length bytes, and the
/// remaining length itself. Fails with `PacketIdZero` when qos is above
/// at-most-once and the packet identifier is zero, and with
/// `LengthOverflow` when a length field cannot be represented; a failed
/// write leaves the buffer unchanged.
pub fn write(publish: &Publish, buffer: &mut Vec<u8>) -> (r: Result<usize, CodecError>)
    ensures
        r is Ok <==> spec_encodable(publish@),
        match r {
            Ok(n) => {
                &&& final(buffer)@ == old(buffer)@ + spec_encode(publish@)
                &&& n == spec_encode(publish@).len()
                &&& n == 1 + spec_varint(spec_remaining_len(publish@)).len() + spec_remaining_len(
                    publish@,
                )
            },
            Err(e) => {
                &&& final(buffer)@ == old(buffer)@
                &&& if publish@.qos != QoS::AtMostOnce && publish@.pkid == 0 {
                    e == CodecError::PacketIdZero
                } else {
                    e == CodecError::LengthOverflow
                }
            },
        },
{
    let ghost p = publish@;
    if publish.qos != QoS::AtMostOnce && publish.pkid == 0 {
        return Err(CodecError::PacketIdZero);
    }
    let new_topic = remove_username_from_topic(&publish.topic);
    if new_topic.len() > 0xFFFF {
        return Err(CodecError::LengthOverflow);
    }
    if publish.payload.len() >= 0x10000000 {
        return Err(CodecError::LengthOverflow);
    }
    let extra: usize = if publish.qos != QoS::AtMostOnce {
        2
    } else {
        0
    };
    let len: usize = 2 + new_topic.len() + publish.payload.len() + extra;
    if len >= 0x10000000 {
        return Err(CodecError::LengthOverflow);
    }
    assert(len == spec_remaining_len(p));
    assert(spec_encodable(p));

    let retain: u8 = if publish.retain {
        1
    } else {
        0
    };
    let qos_num: u8 = match publish.qos {
        QoS::AtMostOnce => 0,
        QoS::AtLeastOnce => 1,
        QoS::ExactlyOnce => 2,
    };
    let dup: u8 = if publish.dup {
        1
    } else {
        0
    };
    let byte0: u8 = 0x30u8 | retain | (qos_num << 1u8) | (dup << 3u8);
    assert(byte0 == spec_byte0(p));
    buffer.push(byte0);

    let count = match write_remaining_length(buffer, len) {
        Ok(c) => c,
        Err(e) => {
            proof {
                assert(false);
            }
            return Err(e);
        },
    };

    let tlen: u16 = new_topic.len() as u16;
    buffer.push((tlen / 256) as u8);
    buffer.push((tlen % 256) as u8);
    buffer.extend_from_slice(new_topic.as_slice());

    if publish.qos != QoS::AtMostOnce {
        let pkid = publish.pkid;
        buffer.push((pkid / 256) as u8);
        buffer.push((pkid % 256) as u8);
    }
    buffer.extend_from_slice(publish.payload.as_slice());

    proof {
        lemma_varint_len(len as int);
        assert(buffer@ =~= old(buffer)@ + spec_encode(p));
    }
    Ok(1 + count + len)
}


/// A parsed fixed header: the flags byte, how many bytes the fixed
/// header took, and the declared remaining length.
#[derive(Clone, Copy, Debug, PartialEq, Eq, Structural)]
pub struct FixedHeader {
    pub byte1: u8,
    pub fixed_header_len: usize,
    pub remaining_len: usize,
}

/// Reads a variable-length integer from the head of `s`, allowing at
/// most `max` bytes: the value and how many bytes it took. Running out
/// of bytes mid-integer is a truncation; a continuation bit on the last
/// allowed byte is an overflow.
pub open spec fn spec_parse_varint(s: Seq<u8>, max: int) -> Result<(int, int), CodecError>
    decreases max,
{
    if max <= 0 {
        Err(CodecError::LengthOverflow)
    } else if s.len() == 0 {
        Err(CodecError::TruncatedBuffer)
    } else if s[0] < 0x80 {
        Ok((s[0] as int, 1int))
    } else {
        match spec_parse_varint(s.skip(1), max - 1) {
            Ok(r) => Ok(((s[0] - 0x80) + 0x80 * r.0, r.1 + 1)),
            Err(e) => Err(e),
        }
    }
}

/// Bounds of a parsed variable-length integer: the value fits in seven
/// bits per allowed byte, and the byte count is within `max` and the
/// buffer.
pub proof fn lemma_parse_varint_bound(s: Seq<u8>, max: int)
    ensures
        spec_parse_varint(s, max) matches Ok(r) ==> {
            &&& 0 <= r.0
            &&& 1 <= r.1 <= max
            &&& r.1 <= s.len()
            &&& max <= 1 ==> r.0 < 0x80
            &&& max <= 2 ==> r.0 < 0x4000
            &&& max <= 3 ==> r.0 < 0x200000
            &&& max <= 4 ==> r.0 < 0x10000000
        },
    decreases max,
{
    if max > 0 && s.len() > 0 && s[0] >= 0x80 {
        lemma_parse_varint_bound(s.skip(1), max - 1);
    }
}

/// Parsing inverts writing: the variable-length integer encoding of
/// `n`, followed by anything, parses back to `n`.
pub proof fn lemma_varint_roundtrip(n: int, rest: Seq<u8>, max: int)
    requires
        0 <= n,
        n < 0x80 ==> max >= 1,
        0x80 <= n < 0x4000 ==> max >= 2,
        0x4000 <= n < 0x200000 ==> max >= 3,
        0x200000 <= n < 0x10000000 ==> max >= 4,
        n < 0x10000000,
    ensures
        spec_parse_varint(spec_varint(n) + rest, max) == Ok::<(int, int), CodecError>(
            (n, spec_varint(n).len() as int),
        ),
    decreases n,
{
    let s = spec_varint(n) + rest;
    if n < 0x80 {
        assert(s[0] == n as u8);
        assert(s.len() > 0);
    } else {
        let b0 = (n % 0x80 + 0x80) as u8;
        assert(s[0] == b0);
        vstd::arithmetic::div_mod::lemma_fundamental_div_mod(n, 0x80);
        assert(s.skip(1) =~= spec_varint(n / 0x80) + rest);
        lemma_varint_roundtrip(n / 0x80, rest, max - 1);
        lemma_varint_len(n / 0x80);
        assert((s[0] - 0x80) + 0x80 * (n / 0x80) == n);
    }
}

/// Reads the variable-length integer at `start`, allowing at most
/// `max` bytes.
pub fn read_remaining_length(bytes: &Vec<u8>, start: usize, max: u8) -> (r: Result<
    (u32, usize),
    CodecError,
>)
    requires
        start <= bytes@.len(),
        max <= 4,
    ensures
        match r {
            Ok((v, l)) => spec_parse_varint(bytes@.skip(start as int), max as int)
                == Ok::<(int, int), CodecError>((v as int, l as int)),
            Err(e) => spec_parse_varint(bytes@.skip(start as int), max as int) == Err::<
                (int, int),
                CodecError,
            >(e),
        },
    decreases max,
{
    let ghost s = bytes@.skip(start as int);
    if max == 0 {
        return Err(CodecError::LengthOverflow);
    }
    if start == bytes.len() {
        return Err(CodecError::TruncatedBuffer);
    }
    let b = bytes[start];
    assert(s[0] == b);
    if b < 0x80 {
        return Ok((b as u32, 1));
    }
    proof {
        assert(s.skip(1) =~= bytes@.skip(start as int + 1));
    }
    match read_remaining_length(bytes, start + 1, max - 1) {
        Ok((v, l)) => {
            proof {
                lemma_parse_varint_bound(bytes@.skip(start as int + 1), max as int - 1);
            }
            Ok(((b - 0x80) as u32 + 0x80 * v, l + 1))
        },
        Err(e) => Err(e),
    }
}

/// Parses the fixed header at the head of `s`: the flags byte and the
/// remaining length.
pub open spec fn spec_parse_fixed_header(s: Seq<u8>) -> Result<FixedHeader, CodecError> {
    if s.len() == 0 {
        Err(CodecError::TruncatedBuffer)
    } else {
        match spec_parse_varint(s.skip(1), 4) {
            Ok(r) => Ok(
                FixedHeader {
                    byte1: s[0],
                    fixed_header_len: (1 + r.1) as usize,
                    remaining_len: r.0 as usize,
                },
            ),
            Err(e) => Err(e),
        }
    }
}

/// Parses the fixed header of the packet in `bytes`.
pub fn parse_fixed_header(bytes: &Vec<u8>) -> (r: Result<FixedHeader, CodecError>)
    ensures
        match r {
            Ok(fh) => spec_parse_fixed_header(bytes@) == Ok::<FixedHeader, CodecError>(fh),
            Err(e) => spec_parse_fixed_header(bytes@) == Err::<FixedHeader, CodecError>(e),
        },
{
    if bytes.len() == 0 {
        return Err(CodecError::TruncatedBuffer);
    }
    let byte1 = bytes[0];
    match read_remaining_length(bytes, 1, 4) {
        Ok((v, l)) => {
            proof {
                lemma_parse_varint_bound(bytes@.skip(1), 4);
            }
            Ok(FixedHeader { byte1, fixed_header_len: 1 + l, remaining_len: v as usize })
        },
        Err(e) => Err(e),
    }
}

/// Reads the variable header and payload of the PUBLISH packet in `s`,
/// whose fixed header is `fh`: qos bits of `0b11` are the one invalid
/// combination; the topic is length-prefixed; the packet identifier is
/// present — and must be nonzero — exactly when qos is above
/// at-most-once; every remaining byte is payload, and any short read is
/// a truncation.
pub open spec fn spec_read(fh: FixedHeader, s: Seq<u8>) -> Result<PublishView, CodecError> {
    let qos_num = (fh.byte1 & 0x06) >> 1;
    if spec_qos(qos_num) is None {
        Err(CodecError::InvalidQoS(qos_num))
    } else if s.len() < fh.fixed_header_len + 2 {
        Err(CodecError::TruncatedBuffer)
    } else {
        let rest = s.skip(fh.fixed_header_len as int);
        let tlen = rest[0] * 256 + rest[1];
        if rest.len() < 2 + tlen {
            Err(CodecError::TruncatedBuffer)
        } else {
            let q = spec_qos(qos_num).unwrap();
            let topic = rest.subrange(2, 2 + tlen);
            let after = rest.skip(2 + tlen);
            if q != QoS::AtMostOnce {
                if after.len() < 2 {
                    Err(CodecError::TruncatedBuffer)
                } else {
                    let pkid = after[0] * 256 + after[1];
                    if pkid == 0 {
                        Err(CodecError::PacketIdZero)
                    } else {
                        Ok(
                            PublishView {
                                dup: (fh.byte1 & 0x08) != 0,
                                retain: (fh.byte1 & 0x01) != 0,
                                qos: q,
                                pkid: pkid as u16,
                                topic,
                                payload: after.skip(2),
                            },
                        )
                    }
                }
            } else {
                Ok(
                    PublishView {
                        dup: (fh.byte1 & 0x08) != 0,
                        retain: (fh.byte1 & 0x01) != 0,
                        qos: q,
                        pkid: 0,
                        topic,
                        payload: after,
                    },
                )
            }
        }
    }
}

/// A successfully read packet satisfies the data-model invariant: its
/// packet identifier is zero exactly when its qos is at-most-once.
pub proof fn lemma_read_wf(fh: FixedHeader, s: Seq<u8>)
    ensures
        spec_read(fh, s) matches Ok(p) ==> p.wf(),
{
}

/// Reads a PUBLISH packet from `bytes` given its parsed fixed header.
pub fn read(fixed_header: FixedHeader, bytes: &Vec<u8>) -> (r: Result<Publish, CodecError>)
    ensures
        match r {
            Ok(p) => spec_read(fixed_header, bytes@) == Ok::<PublishView, CodecError>(p@)
                && p@.wf(),
            Err(e) => spec_read(fixed_header, bytes@) == Err::<PublishView, CodecError>(e),
        },
{
    proof {
        lemma_read_wf(fixed_header, bytes@);
    }
    let qos_num = (fixed_header.byte1 & 0x06) >> 1u8;
    let q = match qos(qos_num) {
        Some(q) => q,
        None => {
            return Err(CodecError::InvalidQoS(qos_num));
        },
    };
    let dup = (fixed_header.byte1 & 0x08) != 0;
    let retain = (fixed_header.byte1 & 0x01) != 0;

    let n = bytes.len();
    if n < fixed_header.fixed_header_len || n - fixed_header.fixed_header_len < 2 {
        return Err(CodecError::TruncatedBuffer);
    }
    let vh = fixed_header.fixed_header_len;
    let ghost rest = bytes@.skip(vh as int);
    let tlen: usize = (bytes[vh] as usize) * 256 + (bytes[vh + 1] as usize);
    assert(rest[0] == bytes@[vh as int] && rest[1] == bytes@[vh as int + 1]);
    if n - vh - 2 < tlen {
        return Err(CodecError::TruncatedBuffer);
    }
    let topic = vstd::slice::slice_to_vec(
        vstd::slice::slice_subrange(bytes.as_slice(), vh + 2, vh + 2 + tlen),
    );
    proof {
        assert(topic@ =~= rest.subrange(2, 2 + tlen as int));
    }
    let after_idx = vh + 2 + tlen;
    let ghost after = rest.skip(2 + tlen as int);
    proof {
        assert(after =~= bytes@.skip(after_idx as int));
    }
    if let QoS::AtMostOnce = q {
        let payload = vstd::slice::slice_to_vec(
            vstd::slice::slice_subrange(bytes.as_slice(), after_idx, n),
        );
        proof {
            assert(payload@ =~= after);
        }
        return Ok(Publish { dup, retain, qos: q, pkid: 0, topic, payload });
    }
    if n - after_idx < 2 {
        return Err(CodecError::TruncatedBuffer);
    }
    let pkid: u16 = (bytes[after_idx] as u16) * 256 + (bytes[after_idx + 1] as u16);
    assert(after[0] == bytes@[after_idx as int] && after[1] == bytes@[after_idx as int + 1]);
    if pkid == 0 {
        return Err(CodecError::PacketIdZero);
    }
    let payload = vstd::slice::slice_to_vec(
        vstd::slice::slice_subrange(bytes.as_slice(), after_idx + 2, n),
    );
    proof {
        assert(payload@ =~= after.skip(2));
    }
    Ok(Publish { dup, retain, qos: q, pkid, topic, payload })
}

/// Decodes the PUBLISH packet in `bytes`: fixed header, then variable
/// header and payload.
pub open spec fn spec_decode(s: Seq<u8>) -> Result<PublishView, CodecError> {
    match spec_parse_fixed_header(s) {
        Ok(fh) => spec_read(fh, s),
        Err(e) => Err(e),
    }
}

/// Decodes the PUBLISH packet in `bytes`.
pub fn decode(bytes: &Vec<u8>) -> (r: Result<Publish, CodecError>)
    ensures
        match r {
            Ok(p) => spec_decode(bytes@) == Ok::<PublishView, CodecError>(p@) && p@.wf(),
            Err(e) => spec_decode(bytes@) == Err::<PublishView, CodecError>(e),
        },
{
    match parse_fixed_header(bytes) {
        Ok(fh) => read(fh, bytes),
        Err(e) => Err(e),
    }
}

/// The flags byte decomposes into the fields it was built from.
proof fn lemma_byte0_fields(b0: u8, qn: u8, rb: u8, db: u8)
    requires
        b0 == 0x30u8 | rb | (qn << 1u8) | (db << 3u8),
        qn < 3,
        rb < 2,
        db < 2,
    ensures
        (b0 & 0x06) >> 1u8 == qn,
        ((b0 & 0x08) != 0) == (db == 1),
        ((b0 & 0x01) != 0) == (rb == 1),
{
    assert(((0x30u8 | rb | (qn << 1u8) | (db << 3u8)) & 0x06) >> 1u8 == qn && (((0x30u8 | rb | (qn
        << 1u8) | (db << 3u8)) & 0x08) != 0) == (db == 1) && (((0x30u8 | rb | (qn << 1u8) | (db
        << 3u8)) & 0x01) != 0) == (rb == 1)) by (bit_vector)
        requires
            qn < 3,
            rb < 2,
            db < 2,
    ;
}

/// Round trip of the codec: decoding a written packet reproduces it,
/// except that the topic reflects the one namespace-strip pass that
/// writing performs. In particular a packet with qos at-most-once keeps
/// packet identifier zero on both sides, and one with qos above
/// at-most-once keeps its nonzero identifier.
#[verifier::rlimit(50)]
pub proof fn lemma_write_read_round_trip(p: PublishView)
    requires
        p.wf(),
        spec_encodable(p),
    ensures
        spec_decode(spec_encode(p)) == Ok::<PublishView, CodecError>(
            PublishView {
                dup: p.dup,
                retain: p.retain,
                qos: p.qos,
                pkid: p.pkid,
                topic: spec_strip(p.topic),
                payload: p.payload,
            },
        ),
{
    let st = spec_strip(p.topic);
    let rl = spec_remaining_len(p);
    let vi = spec_varint(rl);
    let tl = st.len() as u16;
    let pk: Seq<u8> = if p.qos != QoS::AtMostOnce {
        spec_u16_be(p.pkid)
    } else {
        Seq::<u8>::empty()
    };
    let b0 = spec_byte0(p);
    let s = spec_encode(p);
    let tail = spec_u16_be(tl) + st + pk + p.payload;
    lemma_varint_len(rl);

    assert(s[0] == b0);
    assert(s.skip(1) =~= vi + tail);
    lemma_varint_roundtrip(rl, tail, 4);
    assert(spec_parse_varint(s.skip(1), 4) == Ok::<(int, int), CodecError>((rl, vi.len() as int)));
    let fh = FixedHeader {
        byte1: b0,
        fixed_header_len: (1 + vi.len()) as usize,
        remaining_len: rl as usize,
    };
    assert(spec_parse_fixed_header(s) == Ok::<FixedHeader, CodecError>(fh));

    let qn = spec_qos_num(p.qos);
    let rb: u8 = if p.retain {
        1
    } else {
        0
    };
    let db: u8 = if p.dup {
        1
    } else {
        0
    };
    lemma_byte0_fields(b0, qn, rb, db);
    assert(spec_qos(qn) == Some(p.qos));

    assert(s.len() == 1 + vi.len() + 2 + st.len() + pk.len() + p.payload.len());
    assert(s.len() >= fh.fixed_header_len + 2);
    let rest = s.skip(fh.fixed_header_len as int);
    assert(rest =~= spec_u16_be(tl) + st + pk + p.payload);
    assert(rest[0] == (tl / 256) as u8 && rest[1] == (tl % 256) as u8);
    vstd::arithmetic::div_mod::lemma_fundamental_div_mod(tl as int, 256);
    assert(rest[0] * 256 + rest[1] == tl as int);
    assert(tl as int == st.len());
    assert(rest.len() == 2 + st.len() + pk.len() + p.payload.len());
    assert(rest.subrange(2, 2 + tl as int) =~= st);
    let after = rest.skip(2 + tl as int);
    assert(after =~= pk + p.payload);
    if p.qos != QoS::AtMostOnce {
        assert(after[0] == (p.pkid / 256) as u8 && after[1] == (p.pkid % 256) as u8);
        vstd::arithmetic::div_mod::lemma_fundamental_div_mod(p.pkid as int, 256);
        assert(after[0] * 256 + after[1] == p.pkid as int);
        assert(p.pkid != 0);
        assert(after.skip(2) =~= p.payload);
    } else {
        assert(after =~= p.payload);
        assert(p.pkid == 0);
    }
}

/// The qos law of reading: with raw qos bits `0b11` — the one undefined
/// combination — reading fails with exactly `InvalidQoS(3)`, and with
/// any other bits it never reports an invalid qos.
pub proof fn lemma_read_invalid_qos(fh: FixedHeader, s: Seq<u8>)
    ensures
        (fh.byte1 & 0x06) >> 1u8 == 3 ==> spec_read(fh, s) == Err::<PublishView, CodecError>(
            CodecError::InvalidQoS(3),
        ),
        (fh.byte1 & 0x06) >> 1u8 != 3 ==> !(spec_read(fh, s) matches Err(CodecError::InvalidQoS(
            _,
        ))),
{
    let b = fh.byte1;
    assert((b & 0x06) >> 1u8 < 4) by (bit_vector);
}

/// The packet-identifier law of reading: when the qos bits call for a
/// packet identifier and the buffer reaches it, reading fails with
/// `PacketIdZero` exactly when the two wire identifier bytes are zero;
/// with qos at-most-once the error never arises.
pub proof fn lemma_read_pkid_zero(fh: FixedHeader, s: Seq<u8>)
    requires
        spec_qos((fh.byte1 & 0x06) >> 1u8) matches Some(q),
    ensures
        ({
            let rest = s.skip(fh.fixed_header_len as int);
            let tlen = rest[0] * 256 + rest[1];
            spec_qos((fh.byte1 & 0x06) >> 1u8) != Some(QoS::AtMostOnce) && s.len()
                >= fh.fixed_header_len + 2 && rest.len() >= 2 + tlen && rest.skip(2 + tlen).len()
                >= 2 ==> (spec_read(fh, s) == Err::<PublishView, CodecError>(
                CodecError::PacketIdZero,
            ) <==> rest.skip(2 + tlen)[0] == 0 && rest.skip(2 + tlen)[1] == 0)
        }),
        spec_qos((fh.byte1 & 0x06) >> 1u8) == Some(QoS::AtMostOnce) ==> spec_read(fh, s) != Err::<
            PublishView,
            CodecError,
        >(CodecError::PacketIdZero),
{
}

} // verus!


