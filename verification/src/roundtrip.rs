//! What holds between the wire form of a frame and the frame read from it.

use vstd::prelude::*;
use crate::bytes::be_bytes;
use crate::bytes::lemma_be_bytes_len;
use crate::bytes::lemma_be_value_of_bytes;
use crate::bytes::lemma_pow256_u64;
use crate::frame::bit;
use crate::frame::decode;
use crate::frame::decode_header;
use crate::frame::encode;
use crate::frame::first_byte;
use crate::frame::length_field;
use crate::frame::wire_payload;
use crate::frame::FrameView;
use crate::mask::lemma_mask_involution;
use crate::mask::mask_bytes;
use crate::opcode::DecodeError;
use crate::opcode::Opcode;

verus! {

/// The flags and the opcode are read back from the first byte.
pub proof fn lemma_first_byte_fields(fin: bool, rsv1: bool, rsv2: bool, rsv3: bool, opcode: Opcode)
    ensures
        first_byte(fin, rsv1, rsv2, rsv3, opcode) & 0x80 != 0 <==> fin,
        first_byte(fin, rsv1, rsv2, rsv3, opcode) & 0x40 != 0 <==> rsv1,
        first_byte(fin, rsv1, rsv2, rsv3, opcode) & 0x20 != 0 <==> rsv2,
        first_byte(fin, rsv1, rsv2, rsv3, opcode) & 0x10 != 0 <==> rsv3,
        first_byte(fin, rsv1, rsv2, rsv3, opcode) & 0x0F == opcode.value(),
{
    let f = bit(fin);
    let a = bit(rsv1);
    let b = bit(rsv2);
    let c = bit(rsv3);
    let v = opcode.value();
    let byte = f << 7 | a << 6 | b << 5 | c << 4 | v;
    assert(byte & 0x80 != 0 <==> f == 1) by (bit_vector)
        requires
            byte == f << 7 | a << 6 | b << 5 | c << 4 | v,
            f <= 1,
            a <= 1,
            b <= 1,
            c <= 1,
            v <= 15,
    ;
    assert(byte & 0x40 != 0 <==> a == 1) by (bit_vector)
        requires
            byte == f << 7 | a << 6 | b << 5 | c << 4 | v,
            f <= 1,
            a <= 1,
            b <= 1,
            c <= 1,
            v <= 15,
    ;
    assert(byte & 0x20 != 0 <==> b == 1) by (bit_vector)
        requires
            byte == f << 7 | a << 6 | b << 5 | c << 4 | v,
            f <= 1,
            a <= 1,
            b <= 1,
            c <= 1,
            v <= 15,
    ;
    assert(byte & 0x10 != 0 <==> c == 1) by (bit_vector)
        requires
            byte == f << 7 | a << 6 | b << 5 | c << 4 | v,
            f <= 1,
            a <= 1,
            b <= 1,
            c <= 1,
            v <= 15,
    ;
    assert(byte & 0x0F == v) by (bit_vector)
        requires
            byte == f << 7 | a << 6 | b << 5 | c << 4 | v,
            f <= 1,
            a <= 1,
            b <= 1,
            c <= 1,
            v <= 15,
    ;
}

/// The mask bit and the seven bits beside it are read back from the second
/// byte.
pub proof fn lemma_second_byte_fields(mask: bool, marker: u8)
    requires
        marker <= 127,
    ensures
        (bit(mask) << 7 | marker) & 0x80 != 0 <==> mask,
        (bit(mask) << 7 | marker) & 0x7F == marker,
{
    let m = bit(mask);
    let byte = m << 7 | marker;
    assert(byte & 0x80 != 0 <==> m == 1) by (bit_vector)
        requires
            byte == m << 7 | marker,
            m <= 1,
            marker <= 127,
    ;
    assert(byte & 0x7F == marker) by (bit_vector)
        requires
            byte == m << 7 | marker,
            m <= 1,
            marker <= 127,
    ;
}

/// The length field takes one byte for a length under 126, which it holds
/// in its low seven bits; three bytes for a length under 65536, marked 126;
/// and nine bytes otherwise, marked 127. The top bit of its first byte is
/// the mask bit.
pub proof fn lemma_length_field_form(mask: bool, payload_len: nat)
    ensures
        payload_len < 126 ==> length_field(mask, payload_len).len() == 1 && length_field(
            mask,
            payload_len,
        )[0] & 0x7F == payload_len,
        126 <= payload_len < 65536 ==> length_field(mask, payload_len).len() == 3 && length_field(
            mask,
            payload_len,
        )[0] & 0x7F == 126 && length_field(mask, payload_len).subrange(1, 3) == be_bytes(
            payload_len,
            2,
        ),
        65536 <= payload_len ==> length_field(mask, payload_len).len() == 9 && length_field(
            mask,
            payload_len,
        )[0] & 0x7F == 127 && length_field(mask, payload_len).subrange(1, 9) == be_bytes(
            payload_len,
            8,
        ),
        length_field(mask, payload_len)[0] & 0x80 != 0 <==> mask,
{
    lemma_be_bytes_len(payload_len, 2);
    lemma_be_bytes_len(payload_len, 8);
    if payload_len < 126 {
        lemma_second_byte_fields(mask, payload_len as u8);
    } else if payload_len < 65536 {
        lemma_second_byte_fields(mask, 126);
        assert(length_field(mask, payload_len).subrange(1, 3) =~= be_bytes(payload_len, 2));
    } else {
        lemma_second_byte_fields(mask, 127);
        assert(length_field(mask, payload_len).subrange(1, 9) =~= be_bytes(payload_len, 8));
    }
}

/// Reading the wire form of a frame gives the frame back.
pub proof fn lemma_decode_encode(frame: FrameView)
    requires
        frame.wf(),
    ensures
        decode(encode(frame)) == Ok::<FrameView, DecodeError>(frame),
{
    let bytes = encode(frame);
    let field = length_field(frame.mask, frame.payload_len);
    let tail = wire_payload(frame);
    let len = frame.payload_len;
    lemma_first_byte_fields(frame.fin, frame.rsv1, frame.rsv2, frame.rsv3, frame.opcode);
    lemma_length_field_form(frame.mask, len);
    lemma_be_bytes_len(len, 2);
    lemma_be_bytes_len(len, 8);
    lemma_pow256_u64(2);
    lemma_pow256_u64(8);
    assert(bytes[0] == first_byte(frame.fin, frame.rsv1, frame.rsv2, frame.rsv3, frame.opcode));
    assert(bytes[1] == field[0]);
    let width: int = if len < 126 {
        0
    } else if len < 65536 {
        2
    } else {
        8
    };
    assert(field.len() == 1 + width);
    assert(bytes.subrange(1, 1 + field.len() as int) =~= field);
    if width > 0 {
        assert(bytes.subrange(2, 2 + width) =~= be_bytes(len, width as nat));
        lemma_be_value_of_bytes(len, width as nat);
    }
    let key_at: int = 2 + width;
    assert(bytes.subrange(key_at, bytes.len() as int) =~= tail);
    let header = decode_header(bytes);
    if frame.mask {
        let key = frame.masking_key->0;
        assert(bytes.subrange(key_at, key_at + 4) =~= key);
        let raw = bytes.subrange(key_at + 4, key_at + 4 + len);
        assert(raw =~= mask_bytes(frame.payload_data, key));
        lemma_mask_involution(frame.payload_data, key);
        assert(header is Ok);
        assert(header->Ok_0.masking_key == Some(key));
    } else {
        let raw = bytes.subrange(key_at, key_at + len);
        assert(raw =~= frame.payload_data);
        assert(header is Ok);
    }
    assert(header->Ok_0.payload_len == len);
    assert(header->Ok_0.opcode == frame.opcode);
}

/// A frame without a key is read back from its wire form as it was.
pub proof fn lemma_roundtrip_unmasked(frame: FrameView)
    requires
        frame.wf(),
        !frame.mask,
    ensures
        decode(encode(frame)) == Ok::<FrameView, DecodeError>(frame),
{
    lemma_decode_encode(frame);
}

/// The wire form of a masked frame gives back the plain payload and the
/// key, and the frame read from it has the same wire form again.
pub proof fn lemma_roundtrip_masked(opcode: Opcode, payload: Seq<u8>, key: Seq<u8>)
    requires
        payload.len() <= u64::MAX,
        key.len() == 4,
    ensures
        decode(encode(FrameView::fresh(opcode, Some(key), payload))) matches Ok(frame)
            && frame.payload_data == payload && frame.masking_key == Some(key) && frame.opcode
            == opcode && encode(frame) == encode(FrameView::fresh(opcode, Some(key), payload)),
{
    lemma_decode_encode(FrameView::fresh(opcode, Some(key), payload));
}

} // verus!
